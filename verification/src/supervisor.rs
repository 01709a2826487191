//! Spawning support for a new player session: the deterministic search order
//! for the player binary, the fresh per-session control endpoint, and the
//! fixed process argument list.

use vstd::prelude::*;
use vstd::string::StringExecFns;
use crate::error::PlayerError;
use crate::text::dec_rep;
use crate::text::lemma_dec_rep_injective;
use crate::text::lemma_mid_distinct;
use crate::text::push_decimal;

verus! {

/// A path joined as `dir/name`.
pub open spec fn joined_path(dir: Seq<char>, name: Seq<char>) -> Seq<char> {
    dir + "/"@ + name
}

/// The candidate locations for the player binary, in search order: the
/// packaged-resource directory, its `bin` subdirectory, then the
/// development-tree fallback directory.
pub fn candidate_paths(resource_dir: &Option<String>, dev_dir: &str, name: &str) -> (r: Vec<
    String,
>)
    ensures
        match resource_dir {
            Some(d) => r@.len() == 3 && r@[0]@ == joined_path(d@, name@) && r@[1]@ == joined_path(
                d@,
                "bin/"@ + name@,
            ) && r@[2]@ == joined_path(dev_dir@, name@),
            None => r@.len() == 1 && r@[0]@ == joined_path(dev_dir@, name@),
        },
{
    let mut v: Vec<String> = Vec::new();
    match resource_dir {
        Some(d) => {
            let mut first = d.clone();
            first.append("/");
            first.append(name);
            assert(first@ =~= joined_path(d@, name@));
            v.push(first);
            let mut second = d.clone();
            second.append("/");
            second.append("bin/");
            second.append(name);
            assert(second@ =~= joined_path(d@, "bin/"@ + name@));
            v.push(second);
        },
        None => {},
    }
    let mut dev = dev_dir.to_owned();
    dev.append("/");
    dev.append(name);
    assert(dev@ =~= joined_path(dev_dir@, name@));
    v.push(dev);
    v
}

/// `p` is the first of the candidates whose presence flag is set.
pub open spec fn resolves_first_existing(
    candidates: Seq<String>,
    present: Seq<bool>,
    p: Seq<char>,
) -> bool {
    exists|i: int|
        0 <= i < present.len() && present[i] && p == candidates[i]@ && (forall|j: int|
            0 <= j < i ==> !present[j])
}

/// No candidate is present.
pub open spec fn no_candidate(present: Seq<bool>) -> bool {
    forall|j: int| 0 <= j < present.len() ==> !present[j]
}

/// Picks the first candidate whose existence flag is set; fails with
/// ExecutableNotFound when none is set.
pub fn pick_first_existing(candidates: &Vec<String>, present: &Vec<bool>) -> (r: Result<
    String,
    PlayerError,
>)
    requires
        candidates@.len() == present@.len(),
    ensures
        match r {
            Ok(p) => resolves_first_existing(candidates@, present@, p@),
            Err(e) => e is ExecutableNotFound && no_candidate(present@),
        },
{
    let n = candidates.len();
    let mut i: usize = 0;
    while i < n
        invariant
            i <= n,
            n == candidates@.len(),
            candidates@.len() == present@.len(),
            forall|j: int| 0 <= j < i ==> !present@[j],
        decreases n - i,
    {
        if present[i] {
            return Ok(candidates[i].clone());
        }
        i = i + 1;
    }
    Err(PlayerError::ExecutableNotFound)
}

/// The control endpoint path for a session: the socket directory, a random
/// session token, and the session's serial number.
pub open spec fn socket_endpoint_name(dir: Seq<char>, serial: nat, token: Seq<char>) -> Seq<
    char,
> {
    dir + "/mpv-"@ + token + "-"@ + dec_rep(serial) + ".sock"@
}

/// Law: endpoints generated for distinct session serials never collide, for
/// any pair of session tokens of the fixed token length.
pub proof fn lemma_endpoint_names_distinct(
    dir: Seq<char>,
    serial1: nat,
    token1: Seq<char>,
    serial2: nat,
    token2: Seq<char>,
)
    requires
        serial1 != serial2,
        token1.len() == token2.len(),
    ensures
        socket_endpoint_name(dir, serial1, token1) != socket_endpoint_name(dir, serial2, token2),
{
    if dec_rep(serial1) == dec_rep(serial2) {
        lemma_dec_rep_injective(serial1, serial2);
    }
    lemma_mid_distinct(
        dir + "/mpv-"@ + token1 + "-"@,
        dec_rep(serial1),
        dir + "/mpv-"@ + token2 + "-"@,
        dec_rep(serial2),
        ".sock"@,
    );
}

/// `ep` is an endpoint allocated under `dir` for the session with this serial
/// number, with some session token of the fixed length.
pub open spec fn fresh_endpoint(dir: Seq<char>, serial: nat, ep: Seq<char>) -> bool {
    exists|t: Seq<char>| t.len() == 32 && ep == socket_endpoint_name(dir, serial, t)
}

/// Law: endpoints allocated for distinct session serials never collide,
/// whatever session tokens they were allocated with.
pub proof fn lemma_fresh_endpoints_never_collide(
    dir: Seq<char>,
    serial1: nat,
    ep1: Seq<char>,
    serial2: nat,
    ep2: Seq<char>,
)
    requires
        serial1 != serial2,
        fresh_endpoint(dir, serial1, ep1),
        fresh_endpoint(dir, serial2, ep2),
    ensures
        ep1 != ep2,
{
    let t1 = choose|t: Seq<char>| t.len() == 32 && ep1 == socket_endpoint_name(dir, serial1, t);
    let t2 = choose|t: Seq<char>| t.len() == 32 && ep2 == socket_endpoint_name(dir, serial2, t);
    lemma_endpoint_names_distinct(dir, serial1, t1, serial2, t2);
}

/// Relies on uuid::Uuid::new_v4 and its Simple formatter: a fresh random
/// UUID rendered as exactly 32 lowercase hexadecimal characters.
#[verifier::external_body]
fn fresh_session_token() -> (r: String)
    ensures
        r@.len() == 32,
{
    uuid::Uuid::new_v4().simple().to_string()
}

/// Allocates the control endpoint path for the session with the given serial
/// number, under the given socket directory.
pub fn make_socket_endpoint(dir: &str, serial: u64) -> (r: String)
    ensures
        fresh_endpoint(dir@, serial as nat, r@),
{
    let token = fresh_session_token();
    let mut out = dir.to_owned();
    out.append("/mpv-");
    out.append(token.as_str());
    out.append("-");
    push_decimal(&mut out, serial);
    out.append(".sock");
    proof {
        assert(out@ =~= socket_endpoint_name(dir@, serial as nat, token@));
    }
    out
}

/// The player's argument list: idle start, forced window, initially unpaused,
/// verbose logging, the control endpoint flag, then the media URL.
pub fn player_args(endpoint: &str, url: &str) -> (r: Vec<String>)
    ensures
        r@.len() == 6,
        r@[0]@ == "--idle=yes"@,
        r@[1]@ == "--force-window=yes"@,
        r@[2]@ == "--pause=no"@,
        r@[3]@ == "--msg-level=all=v"@,
        r@[4]@ == "--input-ipc-server="@ + endpoint@,
        r@[5]@ == url@,
{
    let mut v: Vec<String> = Vec::new();
    v.push("--idle=yes".to_owned());
    v.push("--force-window=yes".to_owned());
    v.push("--pause=no".to_owned());
    v.push("--msg-level=all=v".to_owned());
    let mut ipc = "--input-ipc-server=".to_owned();
    ipc.append(endpoint);
    v.push(ipc);
    v.push(url.to_owned());
    v
}

} // verus!
