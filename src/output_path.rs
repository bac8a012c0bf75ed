//! Where the capture is saved: the user's pattern, formatted with the local
//! time, trimmed, and given exactly one `.png` extension.
use std::fmt::Write;
use vstd::prelude::*;
use vstd::string::*;

verus! {

/// The pattern used when none is given: the program's name and the local
/// date and time to the second.
pub const DEFAULT_PATTERN: &'static str = "sleek-%Y-%m-%d:%H:%M:%S";

/// Whether `c` has Unicode's White_Space property, as `char::is_whitespace`
/// documents it.
pub open spec fn is_white_space(c: char) -> bool {
    ('\u{9}' <= c && c <= '\u{d}') || c == ' ' || c == '\u{85}' || c == '\u{a0}' || c
        == '\u{1680}' || ('\u{2000}' <= c && c <= '\u{200a}') || c == '\u{2028}' || c
        == '\u{2029}' || c == '\u{202f}' || c == '\u{205f}' || c == '\u{3000}'
}

/// Relies on `char::is_whitespace`: whether `c` has the White_Space property.
#[verifier::external_body]
fn char_is_whitespace(c: char) -> (r: bool)
    ensures
        r == is_white_space(c),
{
    c.is_whitespace()
}

/// What chrono writes for the instant `secs` seconds and `nanos`
/// nanoseconds after the Unix epoch, seen at `offset` seconds east of UTC,
/// through the strftime-style `pattern`; `None` where chrono cannot.
pub uninterp spec fn strftime_of(pattern: Seq<char>, secs: i64, nanos: u32, offset: i32) -> Option<
    Seq<char>,
>;

/// Whether `s` holds no `%`, so that it has no strftime specifier.
pub open spec fn is_plain(s: Seq<char>) -> bool {
    forall|i: int| 0 <= i < s.len() ==> s[i] != '%'
}

/// Relies on `chrono::DateTime::from_timestamp`, `FixedOffset::east_opt`,
/// `DateTime::with_timezone` and `DateTime::format`: the instant written out
/// through `pattern`. The first two give `None` for an instant or offset out
/// of range, and formatting fails on a specifier chrono does not know; a
/// pattern without specifiers is written out as it stands.
#[verifier::external_body]
fn format_instant(pattern: &str, secs: i64, nanos: u32, offset: i32) -> (r: Option<String>)
    ensures
        r matches Some(s) ==> strftime_of(pattern@, secs, nanos, offset) == Some(s@),
        r is None ==> strftime_of(pattern@, secs, nanos, offset) is None,
        is_plain(pattern@) ==> (r matches Some(s) ==> s@ == pattern@),
        r is Some ==> -86_400 < offset < 86_400,
{
    let utc = chrono::DateTime::from_timestamp(secs, nanos)?;
    let zone = chrono::FixedOffset::east_opt(offset)?;
    let mut out = String::new();
    match write!(out, "{}", utc.with_timezone(&zone).format(pattern)) {
        Ok(()) => Some(out),
        Err(_) => None,
    }
}

/// The extension every output path ends with.
pub open spec fn png_ext() -> Seq<char> {
    seq!['.', 'p', 'n', 'g']
}

/// `s` without its leading white space.
pub open spec fn trim_start(s: Seq<char>) -> Seq<char>
    decreases s.len(),
{
    if s.len() > 0 && is_white_space(s[0]) {
        trim_start(s.drop_first())
    } else {
        s
    }
}

/// `s` without its trailing white space.
pub open spec fn trim_end(s: Seq<char>) -> Seq<char>
    decreases s.len(),
{
    if s.len() > 0 && is_white_space(s.last()) {
        trim_end(s.drop_last())
    } else {
        s
    }
}

/// Whether `s` ends with `.png`.
pub open spec fn ends_with_png(s: Seq<char>) -> bool {
    s.len() >= 4 && s.subrange(s.len() - 4, s.len() as int) == png_ext()
}

/// `s` with every trailing `.png` taken off.
pub open spec fn strip_png(s: Seq<char>) -> Seq<char>
    decreases s.len(),
{
    if ends_with_png(s) {
        strip_png(s.subrange(0, s.len() - 4))
    } else {
        s
    }
}

/// The output path for an already formatted name: white space trimmed from
/// both ends, any `.png` extensions taken off the end, and one put back.
pub open spec fn output_path_of(formatted: Seq<char>) -> Seq<char> {
    strip_png(trim_end(trim_start(formatted))) + png_ext()
}

proof fn lemma_strip_png_ends_clean(s: Seq<char>)
    ensures
        !ends_with_png(strip_png(s)),
    decreases s.len(),
{
    if ends_with_png(s) {
        lemma_strip_png_ends_clean(s.subrange(0, s.len() - 4));
    }
}

/// Whether the characters `s[end - 4 .. end]` spell `.png`.
fn png_before(s: &str, end: usize) -> (r: bool)
    requires
        4 <= end <= s@.len(),
    ensures
        r == (s@.subrange(end - 4, end as int) == png_ext()),
{
    let r = s.get_char(end - 4) == '.' && s.get_char(end - 3) == 'p' && s.get_char(end - 2) == 'n'
        && s.get_char(end - 1) == 'g';
    proof {
        let w = s@.subrange(end - 4, end as int);
        if r {
            assert(w =~= png_ext());
        } else if w == png_ext() {
            assert(w[0] == '.' && w[1] == 'p' && w[2] == 'n' && w[3] == 'g');
        }
    }
    r
}

/// The output path for an already formatted name: white space trimmed from
/// both ends, any `.png` extensions taken off the end, and exactly one put
/// back, so the result ends with a single `.png`.
pub fn normalize_output_path(formatted: &str) -> (r: String)
    ensures
        r@ == output_path_of(formatted@),
        r@.len() >= 4,
        r@.subrange(r@.len() - 4, r@.len() as int) == png_ext(),
        !ends_with_png(r@.subrange(0, r@.len() - 4)),
{
    let n = formatted.unicode_len();
    let ghost s = formatted@;
    let mut start: usize = 0;
    assert(s.subrange(0, n as int) =~= s);
    while start < n && char_is_whitespace(formatted.get_char(start))
        invariant
            n == s.len(),
            s == formatted@,
            start <= n,
            trim_start(s) == trim_start(s.subrange(start as int, n as int)),
        decreases n - start,
    {
        assert(s.subrange(start as int, n as int).drop_first() =~= s.subrange(
            start + 1,
            n as int,
        ));
        start = start + 1;
    }
    let ghost front = s.subrange(start as int, n as int);
    assert(trim_start(s) == front);
    let mut end: usize = n;
    while end > start && char_is_whitespace(formatted.get_char(end - 1))
        invariant
            n == s.len(),
            s == formatted@,
            start <= end <= n,
            front == s.subrange(start as int, n as int),
            trim_end(front) == trim_end(s.subrange(start as int, end as int)),
        decreases end - start,
    {
        assert(s.subrange(start as int, end as int).drop_last() =~= s.subrange(
            start as int,
            end - 1,
        ));
        end = end - 1;
    }
    let ghost body = s.subrange(start as int, end as int);
    assert(trim_end(front) == body);
    while end - start >= 4 && png_before(formatted, end)
        invariant
            n == s.len(),
            s == formatted@,
            start <= end <= n,
            strip_png(body) == strip_png(s.subrange(start as int, end as int)),
        decreases end - start,
    {
        let ghost cur = s.subrange(start as int, end as int);
        assert(cur.subrange(cur.len() - 4, cur.len() as int) =~= s.subrange(
            end - 4,
            end as int,
        ));
        assert(cur.subrange(0, cur.len() - 4) =~= s.subrange(start as int, end - 4));
        end = end - 4;
    }
    proof {
        let cur = s.subrange(start as int, end as int);
        if cur.len() >= 4 {
            assert(cur.subrange(cur.len() - 4, cur.len() as int) =~= s.subrange(
                end - 4,
                end as int,
            ));
        }
        assert(strip_png(cur) == cur);
        lemma_strip_png_ends_clean(body);
    }
    let kept = formatted.substring_char(start, end);
    let mut r = String::from_str(kept);
    proof {
        reveal_strlit(".png");
        assert(".png"@ =~= png_ext());
    }
    r.append(".png");
    assert(r@.subrange(r@.len() - 4, r@.len() as int) =~= png_ext());
    assert(r@.subrange(0, r@.len() - 4) =~= kept@);
    r
}

/// The pattern to format: the user's, or `DEFAULT_PATTERN` when none was
/// given.
pub fn output_pattern<'a>(arg: Option<&'a str>) -> (p: &'a str)
    ensures
        arg matches Some(a) ==> p@ == a@,
        arg is None ==> p@ == DEFAULT_PATTERN@,
{
    match arg {
        Some(a) => a,
        None => DEFAULT_PATTERN,
    }
}

/// The output path for the user's pattern, or the default pattern when none
/// was given, formatted for the instant `secs` seconds and `nanos`
/// nanoseconds after the Unix epoch at `offset` seconds east of UTC, and
/// normalised by `normalize_output_path`. `None` exactly when chrono cannot
/// format it.
pub fn resolve_output_path(pattern: Option<&str>, secs: i64, nanos: u32, offset: i32) -> (r:
    Option<String>)
    ensures
        ({
            let chosen = match pattern {
                Some(p) => p@,
                None => DEFAULT_PATTERN@,
            };
            &&& r is Some <==> strftime_of(chosen, secs, nanos, offset) is Some
            &&& r matches Some(p) ==> p@ == output_path_of(
                strftime_of(chosen, secs, nanos, offset)->Some_0,
            )
            &&& is_plain(chosen) ==> (r matches Some(p) ==> p@ == output_path_of(chosen))
        }),
{
    let chosen = output_pattern(pattern);
    match format_instant(chosen, secs, nanos, offset) {
        Some(formatted) => Some(normalize_output_path(formatted.as_str())),
        None => None,
    }
}

} // verus!
