//! The compositor's per-client record.
//!
//! The Wayland server keeps one of these for each connected client and tells
//! it when the client has been set up and when it has gone away. The
//! compositor only reports both events; this module says what is reported.
use vstd::prelude::*;

verus! {

/// What the compositor keeps for a connected client (nothing beyond its
/// existence).
#[derive(Clone, Copy, Debug, PartialEq, Eq, Structural)]
pub struct ClientState;

impl ClientState {
    /// The line reported when the server has finished setting up a client.
    pub fn initialized(&self) -> (r: &'static str)
        ensures
            r@ == "initialized"@,
    {
        "initialized"
    }

    /// The line reported when a client has disconnected, whatever the reason.
    pub fn disconnected(&self) -> (r: &'static str)
        ensures
            r@ == "disconnected"@,
    {
        "disconnected"
    }
}

} // verus!
