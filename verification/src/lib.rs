//! Control plane for a media-playback device: command dispatch over HTTP
//! paths, coalescing live-status distribution, a per-connection session
//! protocol, and static-asset resolution with directory-index fallback.
use vstd::prelude::*;

pub mod assets;
pub mod command;
pub mod session;
pub mod status;

verus! {

/// A controller driver that serves the HTTP/WebSocket control surface.
pub struct Driver {}

impl Driver {
    pub fn new() -> (r: Driver)
        ensures
            r == (Driver {}),
    {
        Driver {}
    }
}

} // verus!
