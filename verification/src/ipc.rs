//! Control commands and their encoding on the player's JSON IPC channel.
//!
//! The player accepts newline-delimited JSON objects of the shape
//! `{"command": [<name>, <args...>]}` on its control endpoint. Seek positions
//! travel as milliseconds and are rendered as fractional seconds; they are
//! deliberately not validated here — the player is authoritative for ranges.

use vstd::prelude::*;
use vstd::string::StringExecFns;
use crate::text::seconds_rep;
use crate::text::push_seconds;

verus! {

/// One control command for an already-open session. Seek carries an absolute
/// position in milliseconds.
#[derive(Debug, Clone, Copy)]
pub enum ControlCommand {
    Play,
    Pause,
    Stop,
    Seek(i64),
}

/// The frame that sets the player's pause property.
pub open spec fn set_pause_frame(paused: bool) -> Seq<char> {
    if paused {
        "{\"command\":[\"set_property\",\"pause\",true]}\n"@
    } else {
        "{\"command\":[\"set_property\",\"pause\",false]}\n"@
    }
}

/// The frame that shuts the player down.
pub open spec fn quit_frame() -> Seq<char> {
    "{\"command\":[\"quit\"]}\n"@
}

/// The frame that seeks to an absolute position, given in milliseconds.
pub open spec fn seek_frame(ms: int) -> Seq<char> {
    "{\"command\":[\"seek\","@ + seconds_rep(ms) + ",\"absolute\"]}\n"@
}

/// The frame a control command is encoded as.
pub open spec fn frame_for(c: ControlCommand) -> Seq<char> {
    match c {
        ControlCommand::Play => set_pause_frame(false),
        ControlCommand::Pause => set_pause_frame(true),
        ControlCommand::Stop => quit_frame(),
        ControlCommand::Seek(ms) => seek_frame(ms as int),
    }
}

/// Encodes one control command as a newline-terminated JSON frame.
pub fn encode_command(c: &ControlCommand) -> (r: String)
    ensures
        r@ == frame_for(*c),
{
    match c {
        ControlCommand::Play => "{\"command\":[\"set_property\",\"pause\",false]}\n".to_owned(),
        ControlCommand::Pause => "{\"command\":[\"set_property\",\"pause\",true]}\n".to_owned(),
        ControlCommand::Stop => "{\"command\":[\"quit\"]}\n".to_owned(),
        ControlCommand::Seek(ms) => {
            let mut out = "{\"command\":[\"seek\",".to_owned();
            push_seconds(&mut out, *ms);
            out.append(",\"absolute\"]}\n");
            assert(out@ =~= seek_frame(*ms as int));
            out
        },
    }
}

} // verus!
