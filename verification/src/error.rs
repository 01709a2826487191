//! The failure taxonomy of the playback core, and the mapping to the opaque
//! message strings handed across the command surface.

use vstd::prelude::*;
use vstd::string::StringExecFns;

verus! {

/// Why a playback operation failed.
#[derive(Debug)]
pub enum PlayerError {
    /// The player binary was missing from every search location.
    ExecutableNotFound,
    /// The operating system refused to launch the player; carries the OS
    /// error text.
    SpawnFailed(String),
    /// A control command was attempted with no bound control channel.
    ChannelUnavailable,
    /// The connect or write on a bound channel failed; carries the underlying
    /// error text.
    TransportIO(String),
    /// The selected transport variant is not implemented on this platform.
    UnsupportedOnPlatform,
}

/// The message text for each failure.
pub open spec fn message_of(e: PlayerError) -> Seq<char> {
    match e {
        PlayerError::ExecutableNotFound => "player executable not found in any search location"@,
        PlayerError::SpawnFailed(os) => "failed to spawn player: "@ + os@,
        PlayerError::ChannelUnavailable => "no control channel is bound; open a stream first"@,
        PlayerError::TransportIO(io) => "control channel write failed: "@ + io@,
        PlayerError::UnsupportedOnPlatform => "transport not implemented on this platform"@,
    }
}

impl PlayerError {
    /// The opaque message the command surface reports for this failure.
    pub fn message(&self) -> (r: String)
        ensures
            r@ == message_of(*self),
    {
        match self {
            PlayerError::ExecutableNotFound => "player executable not found in any search location".to_owned(),
            PlayerError::SpawnFailed(os) => {
                let mut m = "failed to spawn player: ".to_owned();
                m.append(os.as_str());
                m
            },
            PlayerError::ChannelUnavailable => "no control channel is bound; open a stream first".to_owned(),
            PlayerError::TransportIO(io) => {
                let mut m = "control channel write failed: ".to_owned();
                m.append(io.as_str());
                m
            },
            PlayerError::UnsupportedOnPlatform => "transport not implemented on this platform".to_owned(),
        }
    }
}

} // verus!
