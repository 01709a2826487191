//! The command serializer and state holder: the single owner of the active
//! transport. It holds at most one bound session at a time, turns each
//! command into at most one delivery on the session's control channel, and —
//! because every operation takes the holder exclusively — commands issued
//! concurrently by the surrounding application are applied one at a time in
//! arrival order.
//!
//! The transport cycles between two states: unbound, where every control
//! command fails with ChannelUnavailable, and bound, entered by a successful
//! open and left again when a stop is delivered (or a new open replaces the
//! binding).
//!
//! Opening a session is a two-phase protocol: `plan_open` resolves the player
//! binary, allocates a fresh endpoint and produces the spawn plan; the caller
//! spawns the process, waits out the grace period, and reports back through
//! `complete_open`, which binds the endpoint. Control commands then yield
//! `DeliveryRequest`s that the caller writes to the endpoint; the ghost
//! delivery log records them in order.

use vstd::prelude::*;
use crate::error::PlayerError;
use crate::ipc::ControlCommand;
use crate::ipc::frame_for;
use crate::ipc::encode_command;
use crate::supervisor::resolves_first_existing;
use crate::supervisor::no_candidate;
use crate::supervisor::fresh_endpoint;
use crate::supervisor::pick_first_existing;
use crate::supervisor::make_socket_endpoint;
use crate::supervisor::player_args;

verus! {

/// The closed set of control transports. Only the local-socket transport is
/// implemented; the platform-pipe and in-process-library variants fail fast
/// with UnsupportedOnPlatform.
#[derive(Debug, Clone, Copy, PartialEq, Eq, Structural)]
pub enum TransportKind {
    UnixSocket,
    NamedPipe,
    LibraryBinding,
}

impl TransportKind {
    /// The transport's identifying name.
    pub fn name(&self) -> (r: &'static str)
        ensures
            *self is UnixSocket ==> r@ == "mpv-ipc"@,
            *self is NamedPipe ==> r@ == "mpv-pipe"@,
            *self is LibraryBinding ==> r@ == "libmpv"@,
    {
        match self {
            TransportKind::UnixSocket => "mpv-ipc",
            TransportKind::NamedPipe => "mpv-pipe",
            TransportKind::LibraryBinding => "libmpv",
        }
    }
}

/// One delivery the holder has directed at a session's control channel.
pub ghost struct DeliveryRecord {
    pub endpoint: Seq<char>,
    pub frame: Seq<char>,
}

/// The abstract state of the holder: the configured transport kind, the bound
/// endpoint of the live session if any, the serial number the next session
/// will take, and the ordered log of directed deliveries.
pub ghost struct PlayerModel {
    pub kind: TransportKind,
    pub endpoint: Option<Seq<char>>,
    pub next_serial: nat,
    pub log: Seq<DeliveryRecord>,
}

/// A control channel write the caller is to perform: this frame, to this
/// endpoint.
pub struct DeliveryRequest {
    pub endpoint: String,
    pub frame: String,
}

impl View for DeliveryRequest {
    type V = DeliveryRecord;

    open spec fn view(&self) -> DeliveryRecord {
        DeliveryRecord { endpoint: self.endpoint@, frame: self.frame@ }
    }
}

/// Everything the caller needs to spawn the player for a new session.
pub struct SpawnPlan {
    pub executable: String,
    pub args: Vec<String>,
    pub endpoint: String,
}

/// The plan's argument list is the player's fixed flag set, the plan's own
/// endpoint, and the media URL.
pub open spec fn plan_args_ok(plan: SpawnPlan, url: Seq<char>) -> bool {
    &&& plan.args@.len() == 6
    &&& plan.args@[0]@ == "--idle=yes"@
    &&& plan.args@[1]@ == "--force-window=yes"@
    &&& plan.args@[2]@ == "--pause=no"@
    &&& plan.args@[3]@ == "--msg-level=all=v"@
    &&& plan.args@[4]@ == "--input-ipc-server="@ + plan.endpoint@
    &&& plan.args@[5]@ == url
}

/// What a control command returns in a given state: the frame to deliver, or
/// the failure. Unsupported transport variants fail first; otherwise a
/// command fails exactly when no channel is bound. The frame never depends on
/// anything but the command — in particular a seek position is forwarded
/// unvalidated.
pub open spec fn control_outcome(m: PlayerModel, c: ControlCommand) -> Result<
    Seq<char>,
    PlayerError,
> {
    if !(m.kind is UnixSocket) {
        Err(PlayerError::UnsupportedOnPlatform)
    } else {
        match m.endpoint {
            None => Err(PlayerError::ChannelUnavailable),
            Some(ep) => Ok(frame_for(c)),
        }
    }
}

/// How a control command changes the state: on success exactly one delivery
/// is appended to the log, and a delivered stop closes the session — the
/// transport returns to its unbound state until a new open. On failure
/// nothing changes.
pub open spec fn control_step(m: PlayerModel, c: ControlCommand) -> PlayerModel {
    if control_outcome(m, c) is Ok {
        PlayerModel {
            endpoint: if c is Stop {
                None
            } else {
                m.endpoint
            },
            log: m.log.push(
                DeliveryRecord { endpoint: m.endpoint.unwrap(), frame: frame_for(c) },
            ),
            ..m
        }
    } else {
        m
    }
}

/// The state after a whole sequence of control commands.
pub open spec fn run_controls(m: PlayerModel, cmds: Seq<ControlCommand>) -> PlayerModel
    decreases cmds.len(),
{
    if cmds.len() == 0 {
        m
    } else {
        run_controls(control_step(m, cmds[0]), cmds.drop_first())
    }
}

/// The delivery record a command produces when the given endpoint is bound.
pub open spec fn delivery_of(endpoint: Seq<char>, c: ControlCommand) -> DeliveryRecord {
    DeliveryRecord { endpoint: endpoint, frame: frame_for(c) }
}

/// Law: once a session is open on the socket transport, any sequence of
/// play, pause and seek commands extends the delivery log by exactly their
/// frames, in submission order, all to the bound endpoint. (A stop is not in
/// scope here: it closes the session.)
pub proof fn lemma_controls_logged_in_order(m: PlayerModel, cmds: Seq<ControlCommand>)
    requires
        m.kind is UnixSocket,
        m.endpoint is Some,
        forall|i: int| 0 <= i < cmds.len() ==> !(cmds[i] is Stop),
    ensures
        run_controls(m, cmds).log == m.log + cmds.map_values(
            |c: ControlCommand| delivery_of(m.endpoint.unwrap(), c),
        ),
        run_controls(m, cmds).endpoint == m.endpoint,
        run_controls(m, cmds).kind == m.kind,
    decreases cmds.len(),
{
    let f = |c: ControlCommand| delivery_of(m.endpoint.unwrap(), c);
    if cmds.len() == 0 {
        assert(m.log + cmds.map_values(f) =~= m.log);
    } else {
        let m1 = control_step(m, cmds[0]);
        assert(m1.log == m.log.push(delivery_of(m.endpoint.unwrap(), cmds[0])));
        assert(forall|i: int|
            0 <= i < cmds.drop_first().len() ==> !(#[trigger] cmds.drop_first()[i] is Stop));
        lemma_controls_logged_in_order(m1, cmds.drop_first());
        let g = |c: ControlCommand| delivery_of(m1.endpoint.unwrap(), c);
        assert(cmds.drop_first().map_values(g) =~= cmds.drop_first().map_values(f));
        assert(run_controls(m, cmds).log =~= m.log + cmds.map_values(f));
    }
}

/// Law: a delivered stop closes the session: the holder is unbound, every
/// following control command fails with ChannelUnavailable, and nothing more
/// reaches the delivery log, until a new open binds a fresh session.
pub proof fn lemma_stop_unbinds(m: PlayerModel, cmds: Seq<ControlCommand>)
    requires
        control_outcome(m, ControlCommand::Stop) is Ok,
    ensures
        control_step(m, ControlCommand::Stop).endpoint is None,
        run_controls(control_step(m, ControlCommand::Stop), cmds) == control_step(
            m,
            ControlCommand::Stop,
        ),
        forall|c: ControlCommand|
            control_outcome(control_step(m, ControlCommand::Stop), c) == Err::<
                Seq<char>,
                PlayerError,
            >(PlayerError::ChannelUnavailable),
{
    lemma_controls_before_open_fail(control_step(m, ControlCommand::Stop), cmds);
}

/// Law: a seek position is forwarded unvalidated: whether a seek succeeds
/// never depends on the position — only on the transport kind and on whether
/// a channel is bound.
pub proof fn lemma_seek_position_never_validated(m: PlayerModel, ms1: i64, ms2: i64)
    ensures
        (control_outcome(m, ControlCommand::Seek(ms1)) is Ok) == (control_outcome(
            m,
            ControlCommand::Seek(ms2),
        ) is Ok),
{
}

/// Law: before any successful open, control commands leave the holder
/// unchanged — nothing is ever added to the delivery log — and on the socket
/// transport each fails with ChannelUnavailable.
pub proof fn lemma_controls_before_open_fail(m: PlayerModel, cmds: Seq<ControlCommand>)
    requires
        m.endpoint is None,
    ensures
        run_controls(m, cmds) == m,
        forall|c: ControlCommand|
            m.kind is UnixSocket ==> control_outcome(m, c) == Err::<Seq<char>, PlayerError>(
                PlayerError::ChannelUnavailable,
            ),
    decreases cmds.len(),
{
    if cmds.len() > 0 {
        assert(control_step(m, cmds[0]) == m);
        lemma_controls_before_open_fail(m, cmds.drop_first());
    }
}

/// The command serializer and state holder. The surrounding application keeps
/// exactly one instance behind its mutual-exclusion primitive; every method
/// takes it exclusively, so command operations never interleave.
pub struct PlayerState {
    kind: TransportKind,
    endpoint: Option<String>,
    next_serial: u64,
    log: Ghost<Seq<DeliveryRecord>>,
}

impl View for PlayerState {
    type V = PlayerModel;

    closed spec fn view(&self) -> PlayerModel {
        PlayerModel {
            kind: self.kind,
            endpoint: match self.endpoint {
                Some(e) => Some(e@),
                None => None,
            },
            next_serial: self.next_serial as nat,
            log: self.log@,
        }
    }
}

impl PlayerState {
    /// A fresh holder for the configured transport: no session bound, no
    /// deliveries directed.
    pub fn new(kind: TransportKind) -> (r: PlayerState)
        ensures
            r@.kind == kind,
            r@.endpoint is None,
            r@.next_serial == 0,
            r@.log == Seq::<DeliveryRecord>::empty(),
    {
        PlayerState { kind, endpoint: None, next_serial: 0, log: Ghost(Seq::empty()) }
    }

    /// The transport kind the holder was configured with.
    pub fn kind(&self) -> (r: TransportKind)
        ensures
            r == self@.kind,
    {
        self.kind
    }

    /// How many sessions have been planned so far; the serial number the next
    /// session will take.
    pub fn sessions_planned(&self) -> (r: u64)
        ensures
            r as nat == self@.next_serial,
    {
        self.next_serial
    }

    /// First phase of `open`: resolves the player binary among the candidate
    /// locations (`present` says which exist, in the same order), allocates a
    /// fresh endpoint under `socket_dir`, and returns the spawn plan. The
    /// session binds only when the caller reports the spawn back through
    /// `complete_open`; until then the previous binding stays in place.
    pub fn plan_open(
        &mut self,
        candidates: &Vec<String>,
        present: &Vec<bool>,
        socket_dir: &str,
        url: &str,
    ) -> (r: Result<SpawnPlan, PlayerError>)
        requires
            candidates@.len() == present@.len(),
            old(self)@.next_serial < u64::MAX,
        ensures
            final(self)@.kind == old(self)@.kind,
            final(self)@.endpoint == old(self)@.endpoint,
            final(self)@.log == old(self)@.log,
            match r {
                Ok(plan) => {
                    &&& old(self)@.kind is UnixSocket
                    &&& final(self)@.next_serial == old(self)@.next_serial + 1
                    &&& resolves_first_existing(candidates@, present@, plan.executable@)
                    &&& fresh_endpoint(socket_dir@, old(self)@.next_serial, plan.endpoint@)
                    &&& plan_args_ok(plan, url@)
                },
                Err(e) => {
                    &&& final(self)@.next_serial == old(self)@.next_serial
                    &&& (old(self)@.kind is UnixSocket ==> e is ExecutableNotFound
                        && no_candidate(present@))
                    &&& (!(old(self)@.kind is UnixSocket) ==> e is UnsupportedOnPlatform)
                },
            },
    {
        match self.kind {
            TransportKind::UnixSocket => {},
            _ => {
                return Err(PlayerError::UnsupportedOnPlatform);
            },
        }
        let executable = match pick_first_existing(candidates, present) {
            Ok(p) => p,
            Err(e) => {
                return Err(e);
            },
        };
        let serial = self.next_serial;
        self.next_serial = self.next_serial + 1;
        let endpoint = make_socket_endpoint(socket_dir, serial);
        let args = player_args(endpoint.as_str(), url);
        Ok(SpawnPlan { executable, args, endpoint })
    }

    /// Second phase of `open`: the caller reports the spawn. On success the
    /// new endpoint is bound, silently replacing any previous session; on
    /// failure the holder is unchanged and the OS error is surfaced as
    /// SpawnFailed.
    pub fn complete_open(&mut self, endpoint: String, spawn_error: Option<String>) -> (r: Result<
        (),
        PlayerError,
    >)
        ensures
            final(self)@.kind == old(self)@.kind,
            final(self)@.next_serial == old(self)@.next_serial,
            final(self)@.log == old(self)@.log,
            match spawn_error {
                None => r is Ok && final(self)@.endpoint == Some(endpoint@),
                Some(os) => final(self)@.endpoint == old(self)@.endpoint && r == Err::<
                    (),
                    PlayerError,
                >(PlayerError::SpawnFailed(os)),
            },
    {
        match spawn_error {
            None => {
                self.endpoint = Some(endpoint);
                Ok(())
            },
            Some(os) => Err(PlayerError::SpawnFailed(os)),
        }
    }

    /// Issues one control command: returns the delivery the caller is to
    /// perform on the bound channel, or the failure. The holder moves exactly
    /// by `control_step`: on success the delivery log grows by this one
    /// frame, a delivered stop unbinds the session, and nothing changes on
    /// failure.
    pub fn control(&mut self, cmd: &ControlCommand) -> (r: Result<DeliveryRequest, PlayerError>)
        ensures
            final(self)@ == control_step(old(self)@, *cmd),
            match r {
                Ok(req) => control_outcome(old(self)@, *cmd) == Ok::<Seq<char>, PlayerError>(
                    req.frame@,
                ) && old(self)@.endpoint == Some(req.endpoint@),
                Err(e) => control_outcome(old(self)@, *cmd) == Err::<Seq<char>, PlayerError>(e),
            },
    {
        match self.kind {
            TransportKind::UnixSocket => {},
            _ => {
                return Err(PlayerError::UnsupportedOnPlatform);
            },
        }
        let ep = match &self.endpoint {
            None => {
                return Err(PlayerError::ChannelUnavailable);
            },
            Some(ep) => ep.clone(),
        };
        let frame = encode_command(cmd);
        let req = DeliveryRequest { endpoint: ep, frame };
        proof {
            self.log@ = self.log@.push(req@);
        }
        match cmd {
            ControlCommand::Stop => {
                self.endpoint = None;
            },
            _ => {},
        }
        Ok(req)
    }
}

/// Convenience constructor mirroring application startup: selects the
/// transport variant once, from configuration, and installs a fresh holder.
pub fn init_player_state(kind: TransportKind) -> (r: PlayerState)
    ensures
        r@.kind == kind,
        r@.endpoint is None,
        r@.next_serial == 0,
        r@.log == Seq::<DeliveryRecord>::empty(),
{
    PlayerState::new(kind)
}

} // verus!
