//! The planned Socket.IO server: it has no state yet.
use vstd::prelude::*;

verus! {

/// Placeholder for a Socket.IO server speaking the Engine.IO framing; the
/// live Socket.IO endpoint is served by the front end.
#[derive(Debug, PartialEq, Eq, Structural)]
pub struct SocketIOServer;

impl SocketIOServer {
    /// The server value.
    pub fn new() -> (r: Self)
        ensures
            r == SocketIOServer,
    {
        SocketIOServer
    }
}

} // verus!
