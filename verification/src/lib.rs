//! Presence synchronization: the reconciliation engine of a daemon that
//! mirrors a media player's "now playing" state onto a presence-display
//! channel.
//!
//! The engine is a pure state machine. Each tick the host hands it what the
//! environment looks like (which processes run, the playback snapshot, the
//! clock); the engine plans the outbound calls of that tick (connect,
//! publish, clear, close) and, as the host performs them and reports their
//! outcomes, records what succeeded. All decisions — when to open or drop
//! the connection, when a publish is due, when to clear — live here; the
//! host only performs I/O.

pub mod engine;
pub mod laws;
pub mod payload;
pub mod snapshot;
pub mod state;
