//! Activity events and the decision the engine takes on them.

use vstd::prelude::*;

verus! {

/// One qualifying editor notification, immutable after construction.
///
/// `lineno` and `cursor_pos` are absent when the editor sent no concrete
/// cursor location with the notification; an event lacking either is always
/// suppressed before a heartbeat is constructed from it.
pub struct Event {
    pub uri: String,
    pub is_write: bool,
    pub language: Option<String>,
    pub lineno: Option<u64>,
    pub cursor_pos: Option<u64>,
    pub file_changed: bool,
}

/// Why an event produced no heartbeat.
#[derive(Clone, Copy, Debug, PartialEq, Eq, Structural)]
pub enum SuppressReason {
    /// The event carried no line or no column.
    MissingPosition,
    /// The gating interval has not elapsed since the last interval-gated
    /// heartbeat, and the event was neither a save nor a file switch.
    IntervalNotElapsed,
}

/// The decision engine's verdict on one event.
#[derive(Clone, Copy, Debug, PartialEq, Eq, Structural)]
pub enum Decision {
    /// No heartbeat is emitted for this event.
    Suppress(SuppressReason),
    /// A heartbeat is emitted; `update_timestamp` says whether the caller
    /// must advance the tracker's last-sent instant after dispatch. It is
    /// true exactly for plain interval-gated heartbeats: saves and file
    /// switches are sent without resetting the interval clock.
    Send { update_timestamp: bool },
}

} // verus!
