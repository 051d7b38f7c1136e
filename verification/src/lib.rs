//! Core of a two-party real-time voice call: the audio sample ring buffer,
//! the call-session negotiation state machine, and the signaling wire codec.
//!
//! Hardware audio I/O, the transport engine and the relay connection live
//! outside this crate; this library holds the data structures, the framing
//! and the decision logic, each with a verified contract.

pub mod audio;
pub mod errors;
pub mod ring;
pub mod session;
pub mod signaling;
