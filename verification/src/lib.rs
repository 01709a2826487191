//! Coordinates playback of remote media streams through an external `mpv`
//! player process. The core is the process lifecycle and the JSON IPC control
//! channel: resolving and spawning the player binary, allocating a fresh
//! control endpoint per session, encoding control commands, and serializing
//! command delivery through a single state holder. Helper modules build the
//! URLs, headers and request bodies for the catalog services the surrounding
//! application talks to.

pub mod error;
pub mod ipc;
pub mod net_api;
pub mod player;
pub mod supervisor;
pub mod text;
pub mod trakt_api;
