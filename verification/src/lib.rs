//! A repeated-key-tap capture engine.
//!
//! A caller arms a time-boxed capture window with a duration and a target tap
//! count; a key-event producer appends characters as they arrive; a polling
//! consumer drains the window and receives either nothing yet, a cancel
//! sentinel, or the captured tap sequence. All timing is expressed in
//! milliseconds on a single monotonic clock supplied by the embedder, so the
//! whole state machine is verified; the embedder owns the clock, the lock and
//! the transport.

pub mod capture;
pub mod ipc;
pub mod laws;
