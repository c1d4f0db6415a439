//! Verified core of a peer-to-peer encrypted pipe.
//!
//! Two peers rendezvous over a signalling channel, agree on a session key,
//! exchange connectivity candidates, and then carry an authenticated
//! encrypted record stream over a reliable transport.  This crate holds the
//! protocol logic: role assignment, ping liveness, the key-derivation
//! schedule, candidate-exchange and record-layer state machines, and the
//! parsing of built-in defaults.  The asynchronous transports themselves
//! (WebSocket, ICE, SCTP) live outside the library and drive it with plain
//! values.

pub mod agreement;
pub mod connect;
pub mod constants;
pub mod crypto;
pub mod crypto_stream;
pub mod encoding;
pub mod error;
pub mod ice;
pub mod ping;
pub mod pipe_stream;
pub mod pump;
pub mod sctp;
pub mod signalling;
pub mod ws;
