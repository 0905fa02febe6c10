//! Building the invocation of the external time-tracking agent.
//!
//! A heartbeat that passed the decision engine becomes one argument list for
//! the agent: one argument per field, arguments for absent optional fields
//! omitted. The list is specified exactly, argument for argument, as a
//! function of the event, the settings, the platform identifier, the file's
//! line count and the instant reported. Spawning the process is the host's
//! business; the library only computes.

use vstd::prelude::*;
use vstd::string::StringExecFns;
use crate::event::Event;
use crate::settings::Settings;

verus! {

/// The decimal digit character for `d`.
pub open spec fn digit_char(d: int) -> char {
    if d == 0 {
        '0'
    } else if d == 1 {
        '1'
    } else if d == 2 {
        '2'
    } else if d == 3 {
        '3'
    } else if d == 4 {
        '4'
    } else if d == 5 {
        '5'
    } else if d == 6 {
        '6'
    } else if d == 7 {
        '7'
    } else if d == 8 {
        '8'
    } else {
        '9'
    }
}

/// The decimal digits of `n`, most significant first, without a sign and
/// without leading zeros (a single zero for zero itself).
pub open spec fn spec_digits(n: nat) -> Seq<char>
    decreases n,
{
    if n < 10 {
        seq![digit_char(n as int)]
    } else {
        spec_digits(n / 10) + seq![digit_char((n % 10) as int)]
    }
}

/// The decimal rendering of `n`: its digits, preceded by a minus sign when
/// `n` is negative.
pub open spec fn spec_signed_digits(n: int) -> Seq<char> {
    if n < 0 {
        seq!['-'] + spec_digits((-n) as nat)
    } else {
        spec_digits(n as nat)
    }
}

/// The one-character string for the decimal digit `d`.
fn digit_str(d: u64) -> (r: &'static str)
    requires
        d < 10,
    ensures
        r@ == seq![digit_char(d as int)],
{
    let r = if d == 0 {
        "0"
    } else if d == 1 {
        "1"
    } else if d == 2 {
        "2"
    } else if d == 3 {
        "3"
    } else if d == 4 {
        "4"
    } else if d == 5 {
        "5"
    } else if d == 6 {
        "6"
    } else if d == 7 {
        "7"
    } else if d == 8 {
        "8"
    } else {
        "9"
    };
    proof {
        reveal_strlit("0");
        reveal_strlit("1");
        reveal_strlit("2");
        reveal_strlit("3");
        reveal_strlit("4");
        reveal_strlit("5");
        reveal_strlit("6");
        reveal_strlit("7");
        reveal_strlit("8");
        reveal_strlit("9");
        assert(r@ =~= seq![digit_char(d as int)]);
    }
    r
}

/// Renders `n` in decimal.
pub fn u64_to_string(n: u64) -> (s: String)
    ensures
        s@ == spec_digits(n as nat),
    decreases n,
{
    if n < 10 {
        String::from_str(digit_str(n))
    } else {
        let mut s = u64_to_string(n / 10);
        s.append(digit_str(n % 10));
        s
    }
}

/// Renders `n` in decimal, with a minus sign when negative.
pub fn i64_to_string(n: i64) -> (s: String)
    ensures
        s@ == spec_signed_digits(n as int),
{
    if n >= 0 {
        let s = u64_to_string(n as u64);
        s
    } else {
        let magnitude: u64 = (-(n as i128)) as u64;
        let mut s = String::from_str("-");
        let digits = u64_to_string(magnitude);
        s.append(digits.as_str());
        proof {
            reveal_strlit("-");
            assert(s@ =~= spec_signed_digits(n as int));
        }
        s
    }
}

/// The number of line-feed bytes in `s`.
pub open spec fn spec_newline_count(s: Seq<u8>) -> nat
    decreases s.len(),
{
    if s.len() == 0 {
        0
    } else {
        spec_newline_count(s.drop_last()) + (if s.last() == 10u8 {
            1nat
        } else {
            0nat
        })
    }
}

/// The number of lines of a text, as an editor counts them: zero for an
/// empty text, and a trailing line feed closes the last line rather than
/// opening a new one.
pub open spec fn spec_line_count(s: Seq<u8>) -> nat {
    if s.len() == 0 {
        0
    } else if s.last() == 10u8 {
        spec_newline_count(s)
    } else {
        spec_newline_count(s) + 1
    }
}

/// Counts the lines of a text given as bytes.
pub fn count_lines(bytes: &[u8]) -> (r: u64)
    requires
        bytes@.len() < u64::MAX,
    ensures
        r as nat == spec_line_count(bytes@),
{
    let n = bytes.len();
    let mut count: u64 = 0;
    let mut i: usize = 0;
    while i < n
        invariant
            n == bytes@.len(),
            i <= n,
            n < u64::MAX,
            count <= i,
            count as nat == spec_newline_count(bytes@.take(i as int)),
        decreases n - i,
    {
        proof {
            assert(bytes@.take(i + 1).drop_last() =~= bytes@.take(i as int));
            assert(bytes@.take(i + 1).last() == bytes@[i as int]);
        }
        if bytes[i] == 10 {
            count = count + 1;
        }
        i += 1;
    }
    proof {
        assert(bytes@.take(n as int) =~= bytes@);
    }
    if n == 0 {
        0
    } else if bytes[n - 1] == 10 {
        count
    } else {
        count + 1
    }
}

/// The platform identifier reported to the agent: the host editor's name,
/// its version when known, and the plugin identifier with its own version.
pub fn build_platform(client_version: Option<&String>, plugin_version: &str) -> (r: String)
    ensures
        r@ == "Zed"@ + (match client_version {
            Some(v) => "/"@ + v@,
            None => Seq::<char>::empty(),
        }) + " Zed-hackatime/"@ + plugin_version@,
{
    let mut p = String::from_str("Zed");
    match client_version {
        Some(v) => {
            p.append("/");
            p.append(v.as_str());
        },
        None => {},
    }
    p.append(" Zed-hackatime/");
    p.append(plugin_version);
    proof {
        assert(p@ =~= "Zed"@ + (match client_version {
            Some(v) => "/"@ + v@,
            None => Seq::<char>::empty(),
        }) + " Zed-hackatime/"@ + plugin_version@);
    }
    p
}

/// A flag with its value, or nothing when the value is absent.
pub open spec fn opt_pair_args(flag: Seq<char>, v: Option<Seq<char>>) -> Seq<Seq<char>> {
    match v {
        Some(x) => seq![flag, x],
        None => Seq::<Seq<char>>::empty(),
    }
}

/// A bare flag, or nothing when it is off.
pub open spec fn opt_flag_args(flag: Seq<char>, on: bool) -> Seq<Seq<char>> {
    if on {
        seq![flag]
    } else {
        Seq::<Seq<char>>::empty()
    }
}

/// The explicit language when one is known, else a request that the agent
/// guess it.
pub open spec fn language_args(language: Option<Seq<char>>) -> Seq<Seq<char>> {
    match language {
        Some(l) => seq!["--language"@, l],
        None => seq!["--guess-language"@],
    }
}

/// The exact argument list for one heartbeat: required arguments first, each
/// optional argument present exactly when its field is set, and the explicit
/// language replaced by a request to guess when none is known.
pub open spec fn spec_heartbeat_args(
    ev: Event,
    s: Settings,
    platform: Seq<char>,
    line_count: u64,
    now: i64,
) -> Seq<Seq<char>> {
    seq!["--time"@, spec_signed_digits(now as int), "--entity"@, ev.uri@]
        + opt_pair_args("--plugin"@, if platform.len() > 0 { Some(platform) } else { None })
        + opt_flag_args("--write"@, ev.is_write)
        + opt_flag_args("--metrics"@, s.metrics == Some(true))
        + opt_pair_args("--key"@, s.api_key.deep_view())
        + opt_pair_args("--api-url"@, s.api_url.deep_view())
        + language_args(ev.language.deep_view())
        + opt_flag_args("--verbose"@, s.debug == Some(true))
        + seq![
            "--lineno"@,
            spec_digits(ev.lineno.unwrap() as nat),
            "--cursorpos"@,
            spec_digits(ev.cursor_pos.unwrap() as nat),
        ]
        + opt_pair_args(
            "--lines-in-file"@,
            if line_count > 0 { Some(spec_digits(line_count as nat)) } else { None },
        )
}

/// Appending nothing changes nothing.
proof fn lemma_add_empty(s: Seq<Seq<char>>)
    ensures
        s + Seq::<Seq<char>>::empty() == s,
{
    assert(s + Seq::<Seq<char>>::empty() =~= s);
}

/// One push is the concatenation of a one-element sequence.
proof fn lemma_push_one(s: Seq<Seq<char>>, a: Seq<char>)
    ensures
        s.push(a) == s + seq![a],
{
    assert(s.push(a) =~= s + seq![a]);
}

/// Two pushes are the concatenation of a two-element sequence.
proof fn lemma_push_two(s: Seq<Seq<char>>, a: Seq<char>, b: Seq<char>)
    ensures
        s.push(a).push(b) == s + seq![a, b],
{
    assert(s.push(a).push(b) =~= s + seq![a, b]);
}

/// Four pushes are the concatenation of a four-element sequence.
proof fn lemma_push_four(s: Seq<Seq<char>>, a: Seq<char>, b: Seq<char>, c: Seq<char>, d: Seq<char>)
    ensures
        s.push(a).push(b).push(c).push(d) == s + seq![a, b, c, d],
{
    assert(s.push(a).push(b).push(c).push(d) =~= s + seq![a, b, c, d]);
}

/// Appends one owned argument.
fn push_string(args: &mut Vec<String>, s: String)
    ensures
        final(args).deep_view() == old(args).deep_view().push(s@),
{
    let ghost sv = s@;
    args.push(s);
    proof {
        assert(args.deep_view() =~= old(args).deep_view().push(sv));
    }
}

/// Appends one literal argument.
fn push_arg(args: &mut Vec<String>, s: &str)
    ensures
        final(args).deep_view() == old(args).deep_view().push(s@),
{
    push_string(args, String::from_str(s));
}

/// Builds the agent invocation for one heartbeat. The decision engine never
/// hands a heartbeat without a full cursor position to the dispatcher, so
/// both coordinates are required here.
#[verifier::rlimit(100)]
pub fn build_heartbeat_args(
    ev: &Event,
    settings: &Settings,
    platform: &String,
    line_count: u64,
    now: i64,
) -> (args: Vec<String>)
    requires
        ev.lineno is Some,
        ev.cursor_pos is Some,
    ensures
        args.deep_view() == spec_heartbeat_args(*ev, *settings, platform@, line_count, now),
{
    let mut args: Vec<String> = Vec::new();
    push_arg(&mut args, "--time");
    push_string(&mut args, i64_to_string(now));
    push_arg(&mut args, "--entity");
    push_string(&mut args, ev.uri.clone());
    let ghost mut expected: Seq<Seq<char>> =
        seq!["--time"@, spec_signed_digits(now as int), "--entity"@, ev.uri@];
    proof {
        assert(args.deep_view() =~= expected);
    }
    let ghost pre_plugin = args.deep_view();
    if !platform.as_str().is_empty() {
        push_arg(&mut args, "--plugin");
        push_string(&mut args, platform.clone());
    }
    proof {
        expected = expected + opt_pair_args(
            "--plugin"@,
            if platform@.len() > 0 { Some(platform@) } else { None },
        );
        if platform@.len() > 0 {
            lemma_push_two(pre_plugin, "--plugin"@, platform@);
        } else {
            lemma_add_empty(pre_plugin);
        }
        assert(args.deep_view() == expected);
    }
    let ghost pre_write = args.deep_view();
    if ev.is_write {
        push_arg(&mut args, "--write");
    }
    proof {
        expected = expected + opt_flag_args("--write"@, ev.is_write);
        if ev.is_write {
            lemma_push_one(pre_write, "--write"@);
        } else {
            lemma_add_empty(pre_write);
        }
        assert(args.deep_view() == expected);
    }
    let ghost pre_metrics = args.deep_view();
    if let Some(m) = settings.metrics {
        if m {
            push_arg(&mut args, "--metrics");
        }
    }
    proof {
        expected = expected + opt_flag_args("--metrics"@, settings.metrics == Some(true));
        if settings.metrics == Some(true) {
            lemma_push_one(pre_metrics, "--metrics"@);
        } else {
            lemma_add_empty(pre_metrics);
        }
        assert(args.deep_view() == expected);
    }
    let ghost pre_key = args.deep_view();
    if let Some(ref key) = settings.api_key {
        push_arg(&mut args, "--key");
        push_string(&mut args, key.clone());
    }
    proof {
        expected = expected + opt_pair_args("--key"@, settings.api_key.deep_view());
        match &settings.api_key {
            Some(k) => lemma_push_two(pre_key, "--key"@, k@),
            None => lemma_add_empty(pre_key),
        }
        assert(args.deep_view() == expected);
    }
    let ghost pre_url = args.deep_view();
    if let Some(ref api_url) = settings.api_url {
        push_arg(&mut args, "--api-url");
        push_string(&mut args, api_url.clone());
    }
    proof {
        expected = expected + opt_pair_args("--api-url"@, settings.api_url.deep_view());
        match &settings.api_url {
            Some(u) => lemma_push_two(pre_url, "--api-url"@, u@),
            None => lemma_add_empty(pre_url),
        }
        assert(args.deep_view() == expected);
    }
    let ghost pre_language = args.deep_view();
    match &ev.language {
        Some(language) => {
            push_arg(&mut args, "--language");
            push_string(&mut args, language.clone());
        },
        None => {
            push_arg(&mut args, "--guess-language");
        },
    }
    proof {
        expected = expected + language_args(ev.language.deep_view());
        match &ev.language {
            Some(l) => lemma_push_two(pre_language, "--language"@, l@),
            None => lemma_push_one(pre_language, "--guess-language"@),
        }
        assert(args.deep_view() == expected);
    }
    let ghost pre_verbose = args.deep_view();
    if let Some(d) = settings.debug {
        if d {
            push_arg(&mut args, "--verbose");
        }
    }
    proof {
        expected = expected + opt_flag_args("--verbose"@, settings.debug == Some(true));
        if settings.debug == Some(true) {
            lemma_push_one(pre_verbose, "--verbose"@);
        } else {
            lemma_add_empty(pre_verbose);
        }
        assert(args.deep_view() == expected);
    }
    let ghost pre_position = args.deep_view();
    push_arg(&mut args, "--lineno");
    match ev.lineno {
        Some(l) => push_string(&mut args, u64_to_string(l)),
        None => {},
    }
    push_arg(&mut args, "--cursorpos");
    match ev.cursor_pos {
        Some(c) => push_string(&mut args, u64_to_string(c)),
        None => {},
    }
    proof {
        expected = expected + seq![
            "--lineno"@,
            spec_digits(ev.lineno.unwrap() as nat),
            "--cursorpos"@,
            spec_digits(ev.cursor_pos.unwrap() as nat),
        ];
        lemma_push_four(
            pre_position,
            "--lineno"@,
            spec_digits(ev.lineno.unwrap() as nat),
            "--cursorpos"@,
            spec_digits(ev.cursor_pos.unwrap() as nat),
        );
        assert(args.deep_view() == expected);
    }
    let ghost pre_lines = args.deep_view();
    if line_count > 0 {
        push_arg(&mut args, "--lines-in-file");
        push_string(&mut args, u64_to_string(line_count));
    }
    proof {
        expected = expected + opt_pair_args(
            "--lines-in-file"@,
            if line_count > 0 { Some(spec_digits(line_count as nat)) } else { None },
        );
        if line_count > 0 {
            lemma_push_two(pre_lines, "--lines-in-file"@, spec_digits(line_count as nat));
        } else {
            lemma_add_empty(pre_lines);
        }
        assert(args.deep_view() == expected);
        assert(expected == spec_heartbeat_args(*ev, *settings, platform@, line_count, now));
    }
    args
}

} // verus!
