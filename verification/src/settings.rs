//! Configuration for the heartbeat engine.
//!
//! A `Settings` value is an immutable snapshot: it is replaced wholesale at
//! initialization time and only read afterwards. The gating interval defaults
//! to 120 seconds when unset.

use vstd::prelude::*;

verus! {

/// The number of seconds of the gating interval when none is configured.
pub const DEFAULT_INTERVAL_SECONDS: i64 = 120;

/// Configuration snapshot: credentials, endpoint, flags and the heartbeat
/// gating interval, each unset when the host supplied no value for it.
pub struct Settings {
    pub api_key: Option<String>,
    pub api_url: Option<String>,
    pub metrics: Option<bool>,
    pub debug: Option<bool>,
    pub heartbeat_interval: Option<i64>,
}

/// The gating interval in seconds that a settings value prescribes:
/// the configured value, or 120 seconds when none is configured.
pub open spec fn spec_interval(s: Settings) -> i64 {
    if s.heartbeat_interval is Some {
        s.heartbeat_interval.unwrap()
    } else {
        DEFAULT_INTERVAL_SECONDS
    }
}

impl Settings {
    /// The interval used for interval gating, in seconds.
    pub fn interval_seconds(&self) -> (r: i64)
        ensures
            r == spec_interval(*self),
    {
        match self.heartbeat_interval {
            Some(i) => i,
            None => DEFAULT_INTERVAL_SECONDS,
        }
    }
}

impl Default for Settings {
    /// A settings value with every field unset.
    fn default() -> (r: Settings)
        ensures
            r.api_key is None,
            r.api_url is None,
            r.metrics is None,
            r.debug is None,
            r.heartbeat_interval is None,
            spec_interval(r) == DEFAULT_INTERVAL_SECONDS,
    {
        Settings {
            api_key: None,
            api_url: None,
            metrics: None,
            debug: None,
            heartbeat_interval: None,
        }
    }
}

} // verus!
