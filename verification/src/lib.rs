//! A client-side session layer for a framed, multiplexed binary messaging
//! protocol: one ordered connection carries many logically independent
//! channels, each identified by a numeric id embedded in every frame.
//!
//! The crate models and verifies the channel-multiplexing core:
//! demultiplexing one inbound frame stream into branches by predicate
//! ([`fork`]), serializing many writers into one outbound sink ([`sink`]),
//! the per-operation protocol sequencing of a channel ([`local_channel`],
//! [`global_channel`]), the publish state machine ([`publish`]) and the
//! consume/delivery state machine ([`subscribe`]). Connection setup, timers
//! and the byte-level wire codec stay outside the crate; they hand the
//! library plain frames and take plain frames back.
//!
//! Two policies are fixed deliberately. A declare or bind request whose
//! options ask for no reply is still awaited (see [`local_channel`]). And
//! there is no close handshake: dropping a channel's — or the connection's —
//! capabilities is the only teardown, which may leave channel state behind
//! on the server.

pub mod errors;
pub mod frame;
pub mod fork;
pub mod global_channel;
pub mod income;
pub mod local_channel;
pub mod publish;
pub mod sink;
pub mod subscribe;

use vstd::prelude::*;

verus! {

} // verus!
