use wakatime_ls::event::Event;
use wakatime_ls::heartbeat::{
    build_heartbeat_args, build_platform, count_lines, i64_to_string, u64_to_string,
};
use wakatime_ls::settings::Settings;

fn event(uri: &str, is_write: bool, language: Option<&str>, lineno: u64, cursor_pos: u64) -> Event {
    Event {
        uri: uri.to_string(),
        is_write,
        language: language.map(|l| l.to_string()),
        lineno: Some(lineno),
        cursor_pos: Some(cursor_pos),
        file_changed: false,
    }
}

#[test]
fn renders_unsigned_decimals() {
    assert_eq!(u64_to_string(0), "0");
    assert_eq!(u64_to_string(7), "7");
    assert_eq!(u64_to_string(10), "10");
    assert_eq!(u64_to_string(1_234_567_890), "1234567890");
    assert_eq!(u64_to_string(u64::MAX), "18446744073709551615");
}

#[test]
fn renders_signed_decimals() {
    assert_eq!(i64_to_string(0), "0");
    assert_eq!(i64_to_string(1_700_000_000), "1700000000");
    assert_eq!(i64_to_string(-42), "-42");
    assert_eq!(i64_to_string(i64::MIN), "-9223372036854775808");
}

#[test]
fn counts_lines_like_an_editor() {
    assert_eq!(count_lines(b""), 0);
    assert_eq!(count_lines(b"a"), 1);
    assert_eq!(count_lines(b"a\nb"), 2);
    assert_eq!(count_lines(b"a\nb\n"), 2);
    assert_eq!(count_lines(b"\n"), 1);
    assert_eq!(count_lines(b"a\n\nb"), 3);
}

#[test]
fn builds_platform_identifier() {
    let version = String::from("0.125.0");
    assert_eq!(
        build_platform(Some(&version), "1.0.0"),
        "Zed/0.125.0 Zed-hackatime/1.0.0"
    );
    assert_eq!(build_platform(None, "1.0.0"), "Zed Zed-hackatime/1.0.0");
}

#[test]
fn full_heartbeat_argument_list() {
    let ev = event("/tmp/a.rs", true, Some("Rust"), 41, 7);
    let settings = Settings {
        api_key: Some(String::from("waka-key-123")),
        api_url: Some(String::from("https://example.com/api")),
        metrics: Some(true),
        debug: Some(true),
        heartbeat_interval: Some(60),
    };
    let platform = String::from("Zed Zed-hackatime/1.0.0");
    let args = build_heartbeat_args(&ev, &settings, &platform, 120, 1_700_000_000);
    let expected: Vec<String> = [
        "--time",
        "1700000000",
        "--entity",
        "/tmp/a.rs",
        "--plugin",
        "Zed Zed-hackatime/1.0.0",
        "--write",
        "--metrics",
        "--key",
        "waka-key-123",
        "--api-url",
        "https://example.com/api",
        "--language",
        "Rust",
        "--verbose",
        "--lineno",
        "41",
        "--cursorpos",
        "7",
        "--lines-in-file",
        "120",
    ]
    .iter()
    .map(|s| s.to_string())
    .collect();
    assert_eq!(args, expected);
}

#[test]
fn minimal_heartbeat_argument_list() {
    let ev = event("/tmp/b.txt", false, None, 0, 3);
    let settings = Settings::default();
    let platform = String::new();
    let args = build_heartbeat_args(&ev, &settings, &platform, 0, -5);
    let expected: Vec<String> = [
        "--time",
        "-5",
        "--entity",
        "/tmp/b.txt",
        "--guess-language",
        "--lineno",
        "0",
        "--cursorpos",
        "3",
    ]
    .iter()
    .map(|s| s.to_string())
    .collect();
    assert_eq!(args, expected);
}

#[test]
fn disabled_flags_are_omitted() {
    let ev = event("/tmp/c.txt", false, None, 1, 2);
    let settings = Settings {
        api_key: None,
        api_url: None,
        metrics: Some(false),
        debug: Some(false),
        heartbeat_interval: None,
    };
    let platform = String::from("Zed Zed-hackatime/1.0.0");
    let args = build_heartbeat_args(&ev, &settings, &platform, 1, 0);
    assert!(!args.iter().any(|a| a == "--metrics"));
    assert!(!args.iter().any(|a| a == "--verbose"));
    assert!(!args.iter().any(|a| a == "--write"));
    assert!(args.iter().any(|a| a == "--guess-language"));
}
