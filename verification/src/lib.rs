//! Verified core of a streaming market/account event client.
//!
//! Inbound text frames are classified into event categories by marker
//! substrings, decoded externally into typed events, and dispatched to the
//! handler registered for the category's group.

pub mod classify;
pub mod errors;
pub mod events;
pub mod websockets;
