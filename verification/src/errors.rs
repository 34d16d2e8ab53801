//! The error taxonomy of the session layer.
//!
//! A single small error value is shared between a foreground operation and a
//! background task (such as the heartbeat emitter): it is `Copy`, so every
//! observer of a terminal failure sees the same value.

use vstd::prelude::*;

verus! {

/// Why an operation on a channel failed.
///
/// - `ConnectionError`: the transport could not be reached or failed mid-use.
/// - `HandshakeError`: the authentication / negotiation exchange was rejected.
/// - `ProtocolError`: a frame arrived that the current operation did not expect.
/// - `ChannelClosed`: the inbound frame source was exhausted while a reply was
///   still owed.
#[derive(Clone, Copy, PartialEq, Eq, Structural, Debug)]
pub enum Error {
    ConnectionError,
    HandshakeError,
    ProtocolError,
    ChannelClosed,
}

} // verus!
