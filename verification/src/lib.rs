//! Receiver-side flow control with an auto-tuned receive window.
//!
//! One [`state::FlowControl`] instance tracks, for a connection or for a
//! single stream, how much data the peer has been allowed to send, decides
//! when a larger limit should be advertised, and grows the receive window
//! automatically based on how often updates are needed relative to the
//! round-trip time.

pub mod laws;
pub mod state;
