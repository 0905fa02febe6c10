//! The current-file tracker: the most recently active file and the instant of
//! the last interval-gated heartbeat.
//!
//! Instants are modelled as whole seconds since the epoch. The last-sent
//! instant is monotonically non-decreasing: `mark_sent` never moves it
//! backwards, even when handed an earlier instant.

use vstd::prelude::*;

verus! {

/// Exactly one instance exists per engine; it is shared by every
/// notification handler, each access serialized by the host.
pub struct CurrentFile {
    uri: String,
    timestamp: i64,
}

impl CurrentFile {
    /// The path of the most recently active file.
    pub closed spec fn active_file(&self) -> Seq<char> {
        self.uri@
    }

    /// The instant of the last interval-gated heartbeat, in seconds since
    /// the epoch.
    pub closed spec fn last_sent(&self) -> i64 {
        self.timestamp
    }

    /// A tracker whose active file is `uri` and whose last-sent instant is
    /// `now`.
    pub fn new(uri: String, now: i64) -> (t: CurrentFile)
        ensures
            t.active_file() == uri@,
            t.last_sent() == now,
    {
        CurrentFile { uri, timestamp: now }
    }

    /// Compares `path` against the stored active file, stores `path`, and
    /// reports whether a file switch occurred. The last-sent instant is
    /// untouched.
    pub fn note_active(&mut self, path: &String) -> (switched: bool)
        ensures
            switched == (old(self).active_file() != path@),
            final(self).active_file() == path@,
            final(self).last_sent() == old(self).last_sent(),
    {
        let switched = !(self.uri == *path);
        if switched {
            self.uri = path.clone();
        }
        switched
    }

    /// The current last-sent instant.
    pub fn last_sent_at(&self) -> (t: i64)
        ensures
            t == self.last_sent(),
    {
        self.timestamp
    }

    /// Advances the last-sent instant to `t`. The instant never decreases:
    /// an earlier `t` leaves it unchanged, so the stored instant is
    /// monotonically non-decreasing over any sequence of calls.
    pub fn mark_sent(&mut self, t: i64)
        ensures
            final(self).last_sent() == (if t > old(self).last_sent() {
                t
            } else {
                old(self).last_sent()
            }),
            final(self).last_sent() >= old(self).last_sent(),
            final(self).active_file() == old(self).active_file(),
    {
        if t > self.timestamp {
            self.timestamp = t;
        }
    }
}

} // verus!
