//! The heartbeat decision engine.
//!
//! Given an activity event, the configured gating interval, the instant of
//! the last interval-gated heartbeat and the current instant, the engine
//! decides whether a heartbeat is emitted or suppressed, and whether the
//! gating clock advances. Saves and file switches are sent regardless of
//! cadence but never reset the gating clock; only a plain interval-triggered
//! heartbeat advances it, so rapid switching or bursts of saves cannot starve
//! or stretch the interval window.

use vstd::prelude::*;
use crate::cache::{FileCache, FileCacheEntry};
use crate::clock::now_seconds;
use crate::event::{Decision, Event, SuppressReason};
use crate::settings::{spec_interval, Settings};
use crate::tracker::CurrentFile;

verus! {

/// The value recorded in the cache for an optional coordinate: the
/// coordinate itself, or zero when the editor supplied none.
pub open spec fn or_zero(o: Option<u64>) -> u64 {
    match o {
        Some(v) => v,
        None => 0,
    }
}

/// The engine's decision as a mathematical function of the event's fields
/// and the timing state.
///
/// An event without a full cursor position is suppressed outright. Otherwise
/// a heartbeat is due when the event is a save, a file switch, or more than
/// `interval` seconds have elapsed since `last_sent`; only in the last case,
/// a plain interval-triggered heartbeat, does the gating clock advance.
pub open spec fn spec_decide(
    has_position: bool,
    is_write: bool,
    file_changed: bool,
    interval: int,
    last_sent: int,
    now: int,
) -> Decision {
    if !has_position {
        Decision::Suppress(SuppressReason::MissingPosition)
    } else if is_write || file_changed || now - last_sent > interval {
        Decision::Send { update_timestamp: !is_write && !file_changed }
    } else {
        Decision::Suppress(SuppressReason::IntervalNotElapsed)
    }
}

/// Decides send-or-suppress for one event. Pure: no state is touched; the
/// caller applies the returned `update_timestamp` flag after dispatch.
pub fn decide(ev: &Event, interval: i64, last_sent: i64, now: i64) -> (d: Decision)
    ensures
        d == spec_decide(
            ev.lineno is Some && ev.cursor_pos is Some,
            ev.is_write,
            ev.file_changed,
            interval as int,
            last_sent as int,
            now as int,
        ),
{
    if ev.lineno.is_none() || ev.cursor_pos.is_none() {
        return Decision::Suppress(SuppressReason::MissingPosition);
    }
    let elapsed_exceeds = (now as i128) - (last_sent as i128) > (interval as i128);
    if ev.is_write || ev.file_changed || elapsed_exceeds {
        Decision::Send { update_timestamp: !ev.is_write && !ev.file_changed }
    } else {
        Decision::Suppress(SuppressReason::IntervalNotElapsed)
    }
}

/// Handles one edit notification at instant `now`: detects a file switch
/// against the tracker, records the event's position in the cache, and
/// decides send-or-suppress. Returns the decision and the event a heartbeat
/// would report.
pub fn on_edit(
    cache: &mut FileCache,
    current: &mut CurrentFile,
    settings: &Settings,
    uri: &String,
    lineno: Option<u64>,
    cursor_pos: Option<u64>,
    now: i64,
) -> (r: (Decision, Event))
    requires
        old(cache).inv(),
    ensures
        final(cache).inv(),
        final(cache)@ == old(cache)@.insert(
            uri@,
            (FileCacheEntry { lineno: or_zero(lineno), cursor_pos: or_zero(cursor_pos) }),
        ),
        final(current).active_file() == uri@,
        final(current).last_sent() == old(current).last_sent(),
        r.0 == spec_decide(
            lineno is Some && cursor_pos is Some,
            false,
            old(current).active_file() != uri@,
            spec_interval(*settings) as int,
            old(current).last_sent() as int,
            now as int,
        ),
        r.1.uri@ == uri@,
        r.1.is_write == false,
        r.1.language is None,
        r.1.lineno == lineno,
        r.1.cursor_pos == cursor_pos,
        r.1.file_changed == (old(current).active_file() != uri@),
{
    let file_changed = current.note_active(uri);
    cache.record(uri, lineno.unwrap_or(0), cursor_pos.unwrap_or(0));
    let ev = Event {
        uri: uri.clone(),
        is_write: false,
        language: None,
        lineno,
        cursor_pos,
        file_changed,
    };
    let d = decide(&ev, settings.interval_seconds(), current.last_sent_at(), now);
    (d, ev)
}

/// Handles one save notification at instant `now`: marks the file active,
/// takes the last recorded position for it from the cache, and decides.
/// A save with no cached position carries no line or column and is therefore
/// suppressed; one with a cached position reports exactly the cached line
/// and column.
pub fn on_save(
    cache: &FileCache,
    current: &mut CurrentFile,
    settings: &Settings,
    uri: &String,
    now: i64,
) -> (r: (Decision, Event))
    requires
        cache.inv(),
    ensures
        final(current).active_file() == uri@,
        final(current).last_sent() == old(current).last_sent(),
        r.0 == spec_decide(
            cache@.contains_key(uri@),
            true,
            false,
            spec_interval(*settings) as int,
            old(current).last_sent() as int,
            now as int,
        ),
        r.1.uri@ == uri@,
        r.1.is_write == true,
        r.1.language is None,
        r.1.file_changed == false,
        cache@.contains_key(uri@) ==> r.1.lineno == Some(cache@[uri@].lineno)
            && r.1.cursor_pos == Some(cache@[uri@].cursor_pos),
        !cache@.contains_key(uri@) ==> r.1.lineno is None && r.1.cursor_pos is None,
{
    let _ = current.note_active(uri);
    let (lineno, cursor_pos) = match cache.lookup(uri) {
        Some(entry) => (Some(entry.lineno), Some(entry.cursor_pos)),
        None => (None, None),
    };
    let ev = Event {
        uri: uri.clone(),
        is_write: true,
        language: None,
        lineno,
        cursor_pos,
        file_changed: false,
    };
    let d = decide(&ev, settings.interval_seconds(), current.last_sent_at(), now);
    (d, ev)
}

/// `on_edit` with the instant read from the wall clock; the instant used is
/// returned, and the decision is exact for whatever instant the clock gave.
pub fn handle_edit(
    cache: &mut FileCache,
    current: &mut CurrentFile,
    settings: &Settings,
    uri: &String,
    lineno: Option<u64>,
    cursor_pos: Option<u64>,
) -> (r: (Decision, Event, i64))
    requires
        old(cache).inv(),
    ensures
        final(cache).inv(),
        final(cache)@ == old(cache)@.insert(
            uri@,
            (FileCacheEntry { lineno: or_zero(lineno), cursor_pos: or_zero(cursor_pos) }),
        ),
        final(current).active_file() == uri@,
        final(current).last_sent() == old(current).last_sent(),
        r.0 == spec_decide(
            lineno is Some && cursor_pos is Some,
            false,
            old(current).active_file() != uri@,
            spec_interval(*settings) as int,
            old(current).last_sent() as int,
            r.2 as int,
        ),
        r.1.uri@ == uri@,
        r.1.is_write == false,
        r.1.language is None,
        r.1.lineno == lineno,
        r.1.cursor_pos == cursor_pos,
        r.1.file_changed == (old(current).active_file() != uri@),
{
    let now = now_seconds();
    let (d, ev) = on_edit(cache, current, settings, uri, lineno, cursor_pos, now);
    (d, ev, now)
}

/// `on_save` with the instant read from the wall clock; the instant used is
/// returned, and the decision is exact for whatever instant the clock gave.
pub fn handle_save(
    cache: &FileCache,
    current: &mut CurrentFile,
    settings: &Settings,
    uri: &String,
) -> (r: (Decision, Event, i64))
    requires
        cache.inv(),
    ensures
        final(current).active_file() == uri@,
        final(current).last_sent() == old(current).last_sent(),
        r.0 == spec_decide(
            cache@.contains_key(uri@),
            true,
            false,
            spec_interval(*settings) as int,
            old(current).last_sent() as int,
            r.2 as int,
        ),
        r.1.uri@ == uri@,
        r.1.is_write == true,
        r.1.language is None,
        r.1.file_changed == false,
        cache@.contains_key(uri@) ==> r.1.lineno == Some(cache@[uri@].lineno)
            && r.1.cursor_pos == Some(cache@[uri@].cursor_pos),
        !cache@.contains_key(uri@) ==> r.1.lineno is None && r.1.cursor_pos is None,
{
    let now = now_seconds();
    let (d, ev) = on_save(cache, current, settings, uri, now);
    (d, ev, now)
}

/// An event missing its line or column is suppressed for the missing
/// position, whatever its other fields and whatever the timing state.
pub proof fn lemma_missing_position_suppresses(
    is_write: bool,
    file_changed: bool,
    interval: int,
    last_sent: int,
    now: int,
)
    ensures
        spec_decide(false, is_write, file_changed, interval, last_sent, now)
            == Decision::Suppress(SuppressReason::MissingPosition),
{
}

/// A save with a known position is always sent, and never advances the
/// gating clock, whatever the timing state and whether or not the file also
/// switched.
pub proof fn lemma_save_sends_without_advancing_clock(
    file_changed: bool,
    interval: int,
    last_sent: int,
    now: int,
)
    ensures
        spec_decide(true, true, file_changed, interval, last_sent, now)
            == (Decision::Send { update_timestamp: false }),
{
}

/// A file switch with a known position is sent even when the interval has
/// not elapsed, and the gating clock is not advanced.
pub proof fn lemma_switch_bypasses_interval(
    is_write: bool,
    interval: int,
    last_sent: int,
    now: int,
)
    requires
        now - last_sent <= interval,
    ensures
        spec_decide(true, is_write, true, interval, last_sent, now)
            == (Decision::Send { update_timestamp: false }),
{
}

/// Rate limiting of plain edits on one file is idempotent: from a
/// sufficiently old baseline the first event is sent and advances the gating
/// clock to its own instant, and every later event within `interval` seconds
/// of it is then suppressed.
pub proof fn lemma_interval_rate_limiting(interval: int, last_sent: int, t1: int, t2: int)
    requires
        t1 - last_sent > interval,
        t2 - t1 <= interval,
    ensures
        spec_decide(true, false, false, interval, last_sent, t1)
            == (Decision::Send { update_timestamp: true }),
        spec_decide(true, false, false, interval, t1, t2)
            == Decision::Suppress(SuppressReason::IntervalNotElapsed),
{
}

/// A plain edit with a known position is sent exactly when more than
/// `interval` seconds have elapsed; otherwise it is suppressed for the
/// unelapsed interval.
pub proof fn lemma_plain_edit_gated_by_interval(interval: int, last_sent: int, now: int)
    ensures
        now - last_sent > interval ==> spec_decide(true, false, false, interval, last_sent, now)
            == (Decision::Send { update_timestamp: true }),
        now - last_sent <= interval ==> spec_decide(true, false, false, interval, last_sent, now)
            == Decision::Suppress(SuppressReason::IntervalNotElapsed),
{
}

} // verus!
