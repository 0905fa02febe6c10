use wakatime_ls::cache::FileCache;
use wakatime_ls::engine::{decide, on_edit, on_save};
use wakatime_ls::event::{Decision, Event, SuppressReason};
use wakatime_ls::settings::Settings;
use wakatime_ls::tracker::CurrentFile;

fn settings_with_interval(interval: Option<i64>) -> Settings {
    Settings {
        api_key: None,
        api_url: None,
        metrics: None,
        debug: None,
        heartbeat_interval: interval,
    }
}

fn plain_event(uri: &str, lineno: Option<u64>, cursor_pos: Option<u64>) -> Event {
    Event {
        uri: uri.to_string(),
        is_write: false,
        language: None,
        lineno,
        cursor_pos,
        file_changed: false,
    }
}

#[test]
fn missing_line_always_suppresses() {
    let ev = plain_event("/tmp/a.txt", None, Some(4));
    assert_eq!(
        decide(&ev, 60, 0, 1_000_000),
        Decision::Suppress(SuppressReason::MissingPosition)
    );
}

#[test]
fn missing_column_always_suppresses() {
    let mut ev = plain_event("/tmp/a.txt", Some(4), None);
    ev.is_write = true;
    ev.file_changed = true;
    assert_eq!(
        decide(&ev, 60, 0, 1_000_000),
        Decision::Suppress(SuppressReason::MissingPosition)
    );
}

#[test]
fn save_uses_cached_position_and_keeps_clock() {
    let mut cache = FileCache::new();
    let uri = String::from("/tmp/a.txt");
    cache.record(&uri, 12, 34);
    let mut current = CurrentFile::new(uri.clone(), 1000);
    let settings = settings_with_interval(Some(60));
    // Well within the interval: a save is sent anyway.
    let (d, ev) = on_save(&cache, &mut current, &settings, &uri, 1005);
    assert_eq!(d, Decision::Send { update_timestamp: false });
    assert_eq!(ev.lineno, Some(12));
    assert_eq!(ev.cursor_pos, Some(34));
    assert!(ev.is_write);
    // The gating clock did not move.
    assert_eq!(current.last_sent_at(), 1000);
}

#[test]
fn switch_sends_within_interval_without_advancing_clock() {
    let mut cache = FileCache::new();
    let mut current = CurrentFile::new(String::from("/tmp/a.txt"), 1000);
    let settings = settings_with_interval(Some(60));
    let other = String::from("/tmp/b.txt");
    // Only five seconds elapsed, but the file switched.
    let (d, ev) = on_edit(&mut cache, &mut current, &settings, &other, Some(1), Some(2), 1005);
    assert_eq!(d, Decision::Send { update_timestamp: false });
    assert!(ev.file_changed);
    assert_eq!(current.last_sent_at(), 1000);
}

#[test]
fn plain_edits_are_rate_limited() {
    let mut cache = FileCache::new();
    let uri = String::from("/tmp/a.txt");
    let mut current = CurrentFile::new(uri.clone(), 0);
    let settings = settings_with_interval(None);
    // Default interval is 120 s; from a sufficiently old baseline the first
    // edit is sent and advances the clock.
    let (d, _) = on_edit(&mut cache, &mut current, &settings, &uri, Some(1), Some(1), 200);
    assert_eq!(d, Decision::Send { update_timestamp: true });
    current.mark_sent(200);
    // Every further edit within the interval is suppressed.
    for now in [201, 250, 300, 320] {
        let (d, _) = on_edit(&mut cache, &mut current, &settings, &uri, Some(2), Some(2), now);
        assert_eq!(d, Decision::Suppress(SuppressReason::IntervalNotElapsed));
    }
    // Once more than the interval elapsed, the next edit is sent again.
    let (d, _) = on_edit(&mut cache, &mut current, &settings, &uri, Some(3), Some(3), 321);
    assert_eq!(d, Decision::Send { update_timestamp: true });
}

#[test]
fn interval_boundary_scenario() {
    let mut cache = FileCache::new();
    let uri = String::from("/tmp/a.txt");
    let t0: i64 = 10_000;
    let mut current = CurrentFile::new(uri.clone(), t0);
    let settings = settings_with_interval(Some(60));
    // Thirty seconds after the baseline: suppressed.
    let (d, _) = on_edit(&mut cache, &mut current, &settings, &uri, Some(5), Some(6), t0 + 30);
    assert_eq!(d, Decision::Suppress(SuppressReason::IntervalNotElapsed));
    assert_eq!(current.last_sent_at(), t0);
    // Sixty-one seconds after the baseline: sent, and the clock advances.
    let (d, _) = on_edit(&mut cache, &mut current, &settings, &uri, Some(5), Some(6), t0 + 61);
    assert_eq!(d, Decision::Send { update_timestamp: true });
    current.mark_sent(t0 + 61);
    assert_eq!(current.last_sent_at(), t0 + 61);
}

#[test]
fn exactly_the_interval_is_not_enough() {
    let ev = plain_event("/tmp/a.txt", Some(1), Some(1));
    assert_eq!(
        decide(&ev, 60, 1000, 1060),
        Decision::Suppress(SuppressReason::IntervalNotElapsed)
    );
    assert_eq!(decide(&ev, 60, 1000, 1061), Decision::Send { update_timestamp: true });
}

#[test]
fn save_without_cache_entry_is_suppressed() {
    let cache = FileCache::new();
    let mut current = CurrentFile::new(String::new(), 10_000);
    let settings = settings_with_interval(Some(60));
    let uri = String::from("a.txt");
    let (d, ev) = on_save(&cache, &mut current, &settings, &uri, 10_005);
    assert_eq!(d, Decision::Suppress(SuppressReason::MissingPosition));
    assert_eq!(ev.lineno, None);
    assert_eq!(ev.cursor_pos, None);
}

#[test]
fn default_interval_is_two_minutes() {
    let settings = Settings::default();
    assert_eq!(settings.interval_seconds(), 120);
    let settings = settings_with_interval(Some(7));
    assert_eq!(settings.interval_seconds(), 7);
}

#[test]
fn mark_sent_never_moves_backwards() {
    let mut current = CurrentFile::new(String::from("x"), 100);
    current.mark_sent(50);
    assert_eq!(current.last_sent_at(), 100);
    current.mark_sent(150);
    assert_eq!(current.last_sent_at(), 150);
}

#[test]
fn note_active_detects_switches() {
    let mut current = CurrentFile::new(String::new(), 0);
    let a = String::from("/tmp/a.txt");
    let b = String::from("/tmp/b.txt");
    assert!(current.note_active(&a));
    assert!(!current.note_active(&a));
    assert!(current.note_active(&b));
    assert!(current.note_active(&a));
}
