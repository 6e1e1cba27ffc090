//! Core of a WebRTC signaling broker: a peer registry, a call-session
//! tracker, a message-routing state machine, an ephemeral relay-credential
//! issuer, and a binary responder for connectivity-check (STUN binding)
//! packets.
//!
//! The library is pure with respect to I/O: the router consumes decoded
//! envelopes and produces explicit delivery lists, and the surrounding
//! server performs the actual transport work.

pub mod config;
pub mod crypto;
pub mod laws;
pub mod messages;
pub mod signaling;
pub mod strmap;
pub mod text;
pub mod turn;



