//! Authoritative-server synchronization for a small terminal side-scroller.
//!
//! The library holds the deterministic physics step shared by client-side
//! prediction and server-side authority, the fixed-width wire codec, and the
//! per-connection and per-client decision logic that the I/O loops drive.
pub mod physics;
pub mod codec;
pub mod server;
pub mod client;
