//! Error kinds of the client core.
//!
//! Each fatal condition of the dispatch cycle has its own variant; none of
//! them is ever swallowed by the verified code.

use vstd::prelude::*;

verus! {

/// A fatal condition of the client core.
///
/// `Connection` is surfaced by `connect` when the target address is
/// malformed or the transport handshake does not complete; `ChannelRead`
/// terminates the dispatch loop when the channel closes or errors during
/// the blocking read; `Decode` terminates it when a payload matched a known
/// category but did not conform to that category's shape.
#[derive(Debug, Clone, PartialEq, Eq)]
pub enum WsError {
    Connection(String),
    ChannelRead(String),
    Decode(String),
}

impl WsError {
    /// The human-readable text carried by the error.
    pub fn message(&self) -> (m: &String)
        ensures
            m == match self {
                WsError::Connection(t) => t,
                WsError::ChannelRead(t) => t,
                WsError::Decode(t) => t,
            },
    {
        match self {
            WsError::Connection(t) => t,
            WsError::ChannelRead(t) => t,
            WsError::Decode(t) => t,
        }
    }
}

} // verus!
