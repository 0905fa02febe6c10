//! Event-coalescing and heartbeat-dispatch engine for an editor time-tracking
//! integration.
//!
//! The library decides, for each editor activity notification, whether a
//! heartbeat should be emitted now or suppressed, and maintains the per-file
//! state needed to make that decision: a cache of last-known cursor positions,
//! a tracker of the currently active file and the time of the last
//! interval-gated heartbeat, and the configuration that controls the gating
//! interval. It also builds the exact argument list handed to the external
//! time-tracking agent. Process spawning, editor-protocol plumbing and
//! configuration parsing live outside the library.

pub mod cache;
pub mod clock;
pub mod engine;
pub mod event;
pub mod heartbeat;
pub mod locator;
pub mod settings;
pub mod tracker;
