//! Text that the screens show: counters, durations, relative times and
//! wrapped lists.

use vstd::prelude::*;
use vstd::utf8::encode_utf8;
use crate::text::{byte_len, concat_str, decimal_string, decimal_string_wide, opt_view, owned, spec_decimal, str_byte_len, str_eq};

verus! {

/// `*` for a set flag, `.` otherwise.
pub open spec fn spec_fmt_flag(flag: bool) -> Seq<char> {
    if flag { "*"@ } else { "."@ }
}

/// `*` for a set flag, `.` otherwise.
pub fn fmt_flag(flag: bool) -> (r: String)
    ensures
        r@ == spec_fmt_flag(flag),
{
    if flag { owned("*") } else { owned(".") }
}

/// `+n` for a positive count, `.` for zero.
pub open spec fn spec_fmt_count_plus(n: nat) -> Seq<char> {
    if n > 0 { "+"@ + spec_decimal(n) } else { "."@ }
}

/// `+n` for a positive count, `.` for zero.
pub fn fmt_count_plus(n: usize) -> (r: String)
    ensures
        r@ == spec_fmt_count_plus(n as nat),
{
    if n > 0 { concat_str("+", decimal_string(n as u64).as_str()) } else { owned(".") }
}

/// `-n` for a positive count, `.` for zero.
pub open spec fn spec_fmt_count_minus(n: nat) -> Seq<char> {
    if n > 0 { "-"@ + spec_decimal(n) } else { "."@ }
}

/// `-n` for a positive count, `.` for zero.
pub fn fmt_count_minus(n: usize) -> (r: String)
    ensures
        r@ == spec_fmt_count_minus(n as nat),
{
    if n > 0 { concat_str("-", decimal_string(n as u64).as_str()) } else { owned(".") }
}

/// A duration of `secs` seconds as `XmYs` from a minute on, else `Ys`.
pub open spec fn spec_format_duration_secs(secs: nat) -> Seq<char> {
    if secs >= 60 {
        spec_decimal(secs / 60) + "m"@ + spec_decimal(secs % 60) + "s"@
    } else {
        spec_decimal(secs) + "s"@
    }
}

/// A duration of `secs` seconds as `XmYs` from a minute on, else `Ys`.
pub fn format_duration_secs(secs: u64) -> (r: String)
    ensures
        r@ == spec_format_duration_secs(secs as nat),
{
    if secs >= 60 {
        let a = concat_str(decimal_string(secs / 60).as_str(), "m");
        let b = concat_str(a.as_str(), decimal_string(secs % 60).as_str());
        concat_str(b.as_str(), "s")
    } else {
        concat_str(decimal_string(secs).as_str(), "s")
    }
}

/// How long ago something happened, given its age in nanoseconds (ages
/// under a minute, and times in the future, are "just now"; whole units are
/// counted down, a month being 30 days).
pub open spec fn spec_relative_age(age_ns: int) -> Seq<char> {
    let ns: int = if age_ns > 0 { age_ns } else { 0 };
    let days = ns / 86_400_000_000_000;
    let hours = ns / 3_600_000_000_000;
    let minutes = ns / 60_000_000_000;
    if days > 30 {
        "about "@ + spec_decimal((days / 30) as nat) + "mo ago"@
    } else if days > 0 {
        "about "@ + spec_decimal(days as nat) + "d ago"@
    } else if hours > 0 {
        "about "@ + spec_decimal(hours as nat) + "h ago"@
    } else if minutes > 0 {
        "about "@ + spec_decimal(minutes as nat) + " min ago"@
    } else {
        "just now"@
    }
}

/// "about N unit ago" for a unit count.
fn about(n: u128, unit: &str) -> (r: String)
    ensures
        r@ == "about "@ + spec_decimal(n as nat) + unit@,
{
    let a = concat_str("about ", decimal_string_wide(n).as_str());
    concat_str(a.as_str(), unit)
}

/// How long ago something happened, given its age in nanoseconds.
pub fn relative_age(age_ns: i128) -> (r: String)
    ensures
        r@ == spec_relative_age(age_ns as int),
{
    if age_ns <= 0 {
        return owned("just now");
    }
    let ns: u128 = age_ns as u128;
    let days = ns / 86_400_000_000_000;
    let hours = ns / 3_600_000_000_000;
    let minutes = ns / 60_000_000_000;
    if days > 30 {
        about(days / 30, "mo ago")
    } else if days > 0 {
        about(days, "d ago")
    } else if hours > 0 {
        about(hours, "h ago")
    } else if minutes > 0 {
        about(minutes, " min ago")
    } else {
        owned("just now")
    }
}

/// An instant as whole seconds since the Unix epoch and the nanoseconds
/// within that second.
pub open spec fn spec_instant_ns(secs: i64, nanos: u32) -> int {
    secs * 1_000_000_000 + nanos
}

/// The time from the instant `then` to the instant `now`, in nanoseconds.
pub open spec fn spec_age_ns(now: (i64, u32), then: (i64, u32)) -> int {
    spec_instant_ns(now.0, now.1) - spec_instant_ns(then.0, then.1)
}

/// What `DateTime::parse_from_rfc3339` followed by `timestamp` and
/// `timestamp_subsec_nanos` gives for a text: the instant as seconds since
/// the Unix epoch and nanoseconds within the second, or `None` when the text
/// is not an RFC 3339 timestamp.
pub uninterp spec fn spec_rfc3339_instant(raw: Seq<char>) -> Option<(i64, u32)>;

/// What `DateTime::parse_from_rfc3339` followed by formatting with
/// `%Y-%m-%d %H:%M:%S` gives for a text: the wall-clock time in the text's
/// own offset, or `None` when the text is not an RFC 3339 timestamp.
pub uninterp spec fn spec_rfc3339_wall_clock(raw: Seq<char>) -> Option<Seq<char>>;

/// Calls `chrono::DateTime::parse_from_rfc3339` and reads the instant with
/// `timestamp` and `timestamp_subsec_nanos`; the result is named by
/// `spec_rfc3339_instant`.
#[verifier::external_body]
fn rfc3339_instant(raw: &str) -> (r: Option<(i64, u32)>)
    ensures
        r == spec_rfc3339_instant(raw@),
{
    chrono::DateTime::parse_from_rfc3339(raw).ok().map(|dt| (dt.timestamp(), dt.timestamp_subsec_nanos()))
}

/// Calls `chrono::DateTime::parse_from_rfc3339` and formats the parsed time
/// as `%Y-%m-%d %H:%M:%S`; the result is named by `spec_rfc3339_wall_clock`.
/// It parses the same way as `rfc3339_instant`, so both succeed together.
#[verifier::external_body]
fn rfc3339_wall_clock(raw: &str) -> (r: Option<String>)
    ensures
        opt_view(r) == spec_rfc3339_wall_clock(raw@),
        (r is Some) == (spec_rfc3339_instant(raw@) is Some),
{
    chrono::DateTime::parse_from_rfc3339(raw).ok().map(|dt| dt.format("%Y-%m-%d %H:%M:%S").to_string())
}

/// The age in nanoseconds of the instant `then` seen at the instant `now`.
fn age_ns(now_secs: i64, now_nanos: u32, then: (i64, u32)) -> (r: i128)
    ensures
        r == spec_age_ns((now_secs, now_nanos), then),
{
    let secs: i128 = now_secs as i128 - then.0 as i128;
    let nanos: i128 = now_nanos as i128 - then.1 as i128;
    assert(secs * 1_000_000_000 + nanos == spec_age_ns((now_secs, now_nanos), then)) by (nonlinear_arith)
        requires
            secs == now_secs - then.0,
            nanos == now_nanos - then.1;
    assert(-20_000_000_000_000_000_000 <= secs <= 20_000_000_000_000_000_000);
    assert(-20_000_000_000_000_000_000_000_000_000 <= secs * 1_000_000_000 <= 20_000_000_000_000_000_000_000_000_000)
        by (nonlinear_arith)
        requires
            -20_000_000_000_000_000_000 <= secs <= 20_000_000_000_000_000_000;
    secs * 1_000_000_000 + nanos
}

/// The label and the absolute time of a last-sync timestamp, seen at the
/// instant `now` (seconds since the Unix epoch and nanoseconds within the
/// second): "never" when there is none, the relative age and the
/// wall-clock time when it parses, and the raw text otherwise.
pub open spec fn spec_last_synced(raw: Option<Seq<char>>, now: (i64, u32)) -> (Seq<char>, Option<Seq<char>>) {
    match raw {
        None => ("never"@, None),
        Some(t) => match spec_rfc3339_instant(t) {
            Some(then) => (spec_relative_age(spec_age_ns(now, then)), spec_rfc3339_wall_clock(t)),
            None => (t, None),
        },
    }
}

/// The label and the absolute time of a last-sync timestamp, seen at the
/// instant `now_secs` seconds and `now_nanos` nanoseconds after the epoch.
pub fn format_last_synced(raw: Option<&str>, now_secs: i64, now_nanos: u32) -> (r: (String, Option<String>))
    ensures
        (r.0@, opt_view(r.1)) == spec_last_synced(
            match raw { Some(t) => Some(t@), None => None },
            (now_secs, now_nanos),
        ),
{
    match raw {
        None => (owned("never"), None),
        Some(t) => match rfc3339_instant(t) {
            Some(then) => (relative_age(age_ns(now_secs, now_nanos, then)), rfc3339_wall_clock(t)),
            None => (owned(t), None),
        },
    }
}

/// A timestamp seen at the instant `now` as "<relative> at <wall-clock>",
/// or the raw text when it does not parse.
pub open spec fn spec_format_timestamp(raw: Seq<char>, now: (i64, u32)) -> Seq<char> {
    match (spec_rfc3339_instant(raw), spec_rfc3339_wall_clock(raw)) {
        (Some(then), Some(wall)) => spec_relative_age(spec_age_ns(now, then)) + " at "@ + wall,
        _ => raw,
    }
}

/// A timestamp seen at the instant `now_secs` seconds and `now_nanos`
/// nanoseconds after the epoch as "<relative> at <wall-clock>".
pub fn format_timestamp(raw: &str, now_secs: i64, now_nanos: u32) -> (r: String)
    ensures
        r@ == spec_format_timestamp(raw@, (now_secs, now_nanos)),
{
    match (rfc3339_instant(raw), rfc3339_wall_clock(raw)) {
        (Some(then), Some(wall)) => {
            let a = concat_str(relative_age(age_ns(now_secs, now_nanos, then)).as_str(), " at ");
            concat_str(a.as_str(), wall.as_str())
        },
        _ => owned(raw),
    }
}

/// One step of filling lines: `v` joins the current line `cur` when it fits
/// within `max` bytes together with the ", " separator; else `cur` is done.
pub open spec fn wrap_step(st: (Seq<Seq<char>>, Seq<char>), v: Seq<char>, max: nat) -> (Seq<Seq<char>>, Seq<char>) {
    let (lines, cur) = st;
    if cur.len() == 0 {
        (lines, cur + v)
    } else if byte_len(cur) + 2 + byte_len(v) <= max {
        (lines, cur + ", "@ + v)
    } else {
        (lines.push(cur), v)
    }
}

/// The finished lines and the current line after filling in `vals`.
pub open spec fn wrap_from(vals: Seq<Seq<char>>, max: nat) -> (Seq<Seq<char>>, Seq<char>)
    decreases vals.len(),
{
    if vals.len() == 0 {
        (Seq::empty(), Seq::empty())
    } else {
        wrap_step(wrap_from(vals.drop_last(), max), vals.last(), max)
    }
}

/// Values listed with ", " between them, filled greedily into lines of at
/// most `max` bytes (a value longer than that gets a line of its own); no
/// values reads "all".
pub open spec fn spec_wrap(vals: Seq<Seq<char>>, max: nat) -> Seq<Seq<char>> {
    if vals.len() == 0 {
        seq!["all"@]
    } else {
        let (lines, cur) = wrap_from(vals, max);
        if cur.len() > 0 { lines.push(cur) } else { lines }
    }
}

/// Wraps a list of values into lines of at most `max_width` bytes.
pub fn wrap_comma_separated_values(values: &[String], max_width: usize) -> (r: Vec<String>)
    ensures
        r@.map_values(|s: String| s@) == spec_wrap(values@.map_values(|s: String| s@), max_width as nat),
        values@.len() == 0 ==> r@.len() == 1 && r@[0]@ == "all"@,
        (values@.len() > 0 && forall|i: int| 0 <= i < values@.len() ==> (#[trigger] values@[i])@.len() > 0) ==> {
            let vals = values@.map_values(|s: String| s@);
            let lines = r@.map_values(|s: String| s@);
            &&& join(lines, ", "@) == join(vals, ", "@)
            &&& forall|k: int| 0 <= k < lines.len() ==> wrap_line_ok(#[trigger] lines[k], vals, max_width as nat)
            &&& forall|k: int| 0 <= k < lines.len() - 1
                ==> breaks_before(#[trigger] lines[k], lines[k + 1], vals, max_width as nat)
        },
{
    let ghost vals = values@.map_values(|s: String| s@);
    if values.len() == 0 {
        let mut r: Vec<String> = Vec::new();
        r.push(owned("all"));
        assert(r@.map_values(|s: String| s@) =~= seq!["all"@]);
        return r;
    }
    let mut lines: Vec<String> = Vec::new();
    let mut current = String::new();
    let mut i: usize = 0;
    while i < values.len()
        invariant
            0 <= i <= values@.len(),
            vals == values@.map_values(|s: String| s@),
            (lines@.map_values(|s: String| s@), current@) == wrap_from(vals.take(i as int), max_width as nat),
            forall|j: int| 0 <= j < i ==> encode_utf8(#[trigger] vals[j]).len() <= usize::MAX,
        decreases values@.len() - i,
    {
        proof {
            assert(vals.take(i + 1).drop_last() =~= vals.take(i as int));
            assert(vals.take(i + 1).last() == values@[i as int]@);
        }
        let value = &values[i];
        let cl = str_byte_len(current.as_str());
        let vl = str_byte_len(value.as_str());
        if current.as_str().is_empty() {
            current = concat_str(current.as_str(), value.as_str());
        } else if cl <= max_width && vl <= max_width - cl && 2 <= max_width - cl - vl {
            let a = concat_str(current.as_str(), ", ");
            current = concat_str(a.as_str(), value.as_str());
        } else {
            let ghost before = lines@;
            lines.push(current);
            current = value.clone();
            assert(lines@.map_values(|s: String| s@) =~= before.map_values(|s: String| s@).push(
                lines@.last()@,
            ));
        }
        i = i + 1;
    }
    assert(vals.take(values@.len() as int) =~= vals);
    if !current.as_str().is_empty() {
        let ghost before = lines@;
        lines.push(current);
        assert(lines@.map_values(|s: String| s@) =~= before.map_values(|s: String| s@).push(lines@.last()@));
    }
    proof {
        if forall|i: int| 0 <= i < values@.len() ==> (#[trigger] values@[i])@.len() > 0 {
            assert forall|i: int| 0 <= i < vals.len() implies (#[trigger] vals[i]).len() > 0
                && encode_utf8(vals[i]).len() <= usize::MAX by {
                assert(vals[i] == values@[i]@);
            }
            lemma_wrap_lines(vals, max_width as nat);
            lemma_wrap_preserves_text(vals, max_width as nat);
        }
    }
    lines
}

/// Texts joined with `sep` between them.
pub open spec fn join(parts: Seq<Seq<char>>, sep: Seq<char>) -> Seq<char>
    decreases parts.len(),
{
    if parts.len() == 0 {
        Seq::empty()
    } else if parts.len() == 1 {
        parts[0]
    } else {
        join(parts.drop_last(), sep) + sep + parts.last()
    }
}

proof fn lemma_join_push(parts: Seq<Seq<char>>, x: Seq<char>, sep: Seq<char>)
    ensures
        join(parts.push(x), sep) == (if parts.len() == 0 { x } else { join(parts, sep) + sep + x }),
{
    assert(parts.push(x).drop_last() =~= parts);
    if parts.len() == 0 {
        assert(parts.push(x)[0] == x);
    }
}

proof fn lemma_wrap_from_preserves_text(vals: Seq<Seq<char>>, max: nat)
    requires
        vals.len() > 0,
        forall|i: int| 0 <= i < vals.len() ==> (#[trigger] vals[i]).len() > 0,
    ensures
        wrap_from(vals, max).1.len() > 0,
        join(wrap_from(vals, max).0.push(wrap_from(vals, max).1), ", "@)
            == join(vals, ", "@),
    decreases vals.len(),
{
    let sep = ", "@;
    let v = vals.last();
    let rest = vals.drop_last();
    assert(v == vals[vals.len() - 1]);
    if vals.len() == 1 {
        assert(wrap_from(rest, max) == (Seq::<Seq<char>>::empty(), Seq::<char>::empty()));
        assert(Seq::<char>::empty() + v =~= v);
        lemma_join_push(Seq::<Seq<char>>::empty(), v, sep);
    } else {
        assert forall|i: int| 0 <= i < rest.len() implies (#[trigger] rest[i]).len() > 0 by {
            assert(rest[i] == vals[i]);
        }
        lemma_wrap_from_preserves_text(rest, max);
        let (l0, c0) = wrap_from(rest, max);
        lemma_join_push(l0, c0, sep);
        if byte_len(c0) + 2 + byte_len(v) <= max {
            lemma_join_push(l0, c0 + sep + v, sep);
            if l0.len() == 0 {
                assert(c0 + sep + v =~= c0 + sep + v);
            } else {
                assert(join(l0, sep) + sep + (c0 + sep + v) =~= join(l0, sep) + sep + c0 + sep + v);
            }
        } else {
            lemma_join_push(l0.push(c0), v, sep);
        }
    }
}

/// Wrapping keeps every value, in order and unchanged: the lines joined
/// with ", " read exactly as the values joined with ", " (for non-empty
/// values).
pub proof fn lemma_wrap_preserves_text(vals: Seq<Seq<char>>, max: nat)
    requires
        vals.len() > 0,
        forall|i: int| 0 <= i < vals.len() ==> (#[trigger] vals[i]).len() > 0,
    ensures
        join(spec_wrap(vals, max), ", "@) == join(vals, ", "@),
{
    lemma_wrap_from_preserves_text(vals, max);
}

proof fn lemma_encode_concat(a: Seq<char>, b: Seq<char>)
    ensures
        encode_utf8(a + b) == encode_utf8(a) + encode_utf8(b),
    decreases a.len(),
{
    if a.len() == 0 {
        assert(a + b =~= b);
        assert(encode_utf8(a) + encode_utf8(b) =~= encode_utf8(b));
    } else {
        assert((a + b).drop_first() =~= a.drop_first() + b);
        assert((a + b)[0] == a[0]);
        lemma_encode_concat(a.drop_first(), b);
        assert(encode_utf8(a + b) =~= encode_utf8(a) + encode_utf8(b));
    }
}

proof fn lemma_separator_bytes()
    ensures
        encode_utf8(", "@).len() == 2,
{
    reveal_strlit(", ");
    let s = ", "@;
    assert(s.drop_first().drop_first() =~= Seq::<char>::empty());
    assert(encode_utf8(s.drop_first().drop_first()).len() == 0);
    assert(encode_utf8(s.drop_first()).len() == 1);
}

/// `l` is one of the values.
pub open spec fn is_value_of(l: Seq<char>, vals: Seq<Seq<char>>) -> bool {
    exists|j: int| 0 <= j < vals.len() && #[trigger] vals[j] == l
}

/// A wrapped line is not empty, and it fits within `max` bytes unless it is
/// a single value that is longer on its own.
pub open spec fn wrap_line_ok(l: Seq<char>, vals: Seq<Seq<char>>, max: nat) -> bool {
    &&& l.len() > 0
    &&& encode_utf8(l).len() <= usize::MAX
    &&& (byte_len(l) <= max || is_value_of(l, vals))
}

/// The line `next` starts with a value that did not fit after `prev`.
pub open spec fn breaks_before(prev: Seq<char>, next: Seq<char>, vals: Seq<Seq<char>>, max: nat) -> bool {
    exists|j: int|
        0 <= j < vals.len() && (#[trigger] vals[j]).is_prefix_of(next) && byte_len(prev) + 2 + byte_len(vals[j]) > max
}

spec fn wrap_inv(vals: Seq<Seq<char>>, max: nat, st: (Seq<Seq<char>>, Seq<char>)) -> bool {
    let lines = st.0;
    let cur = st.1;
    &&& forall|i: int| 0 <= i < lines.len() ==> wrap_line_ok(#[trigger] lines[i], vals, max)
    &&& (lines.len() > 0 ==> cur.len() > 0)
    &&& (cur.len() > 0 ==> wrap_line_ok(cur, vals, max))
    &&& forall|i: int| 0 <= i < lines.len() - 1 ==> breaks_before(#[trigger] lines[i], lines[i + 1], vals, max)
    &&& (lines.len() > 0 ==> breaks_before(lines.last(), cur, vals, max))
}

proof fn lemma_wrap_inv(vals: Seq<Seq<char>>, max: nat, n: nat)
    requires
        n <= vals.len(),
        max <= usize::MAX,
        forall|i: int| 0 <= i < vals.len() ==> (#[trigger] vals[i]).len() > 0
            && encode_utf8(vals[i]).len() <= usize::MAX,
    ensures
        wrap_inv(vals, max, wrap_from(vals.take(n as int), max)),
        n > 0 ==> wrap_from(vals.take(n as int), max).1.len() > 0,
    decreases n,
{
    if n == 0 {
        assert(vals.take(0) =~= Seq::<Seq<char>>::empty());
    } else {
        let k = (n - 1) as nat;
        lemma_wrap_inv(vals, max, k);
        assert(vals.take(n as int).drop_last() =~= vals.take(k as int));
        assert(vals.take(n as int).last() == vals[k as int]);
        let (lines, cur) = wrap_from(vals.take(k as int), max);
        let v = vals[k as int];
        let sep = ", "@;
        assert(is_value_of(v, vals));
        assert(vals[k as int].is_prefix_of(v)) by {
            assert(v.take(v.len() as int) =~= v);
        }
        if cur.len() == 0 {
            assert(cur + v =~= v);
            assert(lines.len() == 0);
        } else if byte_len(cur) + 2 + byte_len(v) <= max {
            let c2 = cur + sep + v;
            lemma_encode_concat(cur, sep);
            lemma_encode_concat(cur + sep, v);
            lemma_separator_bytes();
            assert(encode_utf8(c2).len() == encode_utf8(cur).len() + 2 + encode_utf8(v).len());
            assert(byte_len(c2) <= max);
            if lines.len() > 0 {
                let j = choose|j: int|
                    0 <= j < vals.len() && (#[trigger] vals[j]).is_prefix_of(cur)
                        && byte_len(lines.last()) + 2 + byte_len(vals[j]) > max;
                assert(vals[j].is_prefix_of(c2)) by {
                    assert(c2.take(vals[j].len() as int) =~= cur.take(vals[j].len() as int));
                }
            }
        } else {
            let l2 = lines.push(cur);
            assert(breaks_before(cur, v, vals, max));
            assert forall|i: int| 0 <= i < l2.len() implies wrap_line_ok(#[trigger] l2[i], vals, max) by {
                if i < lines.len() {
                    assert(l2[i] == lines[i]);
                }
            }
            assert forall|i: int| 0 <= i < l2.len() - 1 implies breaks_before(#[trigger] l2[i], l2[i + 1], vals, max) by {
                if i < lines.len() - 1 {
                    assert(l2[i] == lines[i] && l2[i + 1] == lines[i + 1]);
                } else {
                    assert(l2[i] == lines.last() && l2[i + 1] == cur);
                }
            }
        }
    }
}

/// The lines of a wrap (of non-empty values, each short enough to be held
/// in memory) are never empty; each fits within the width unless it is a
/// single value longer than the width on its own; and the filling is greedy:
/// every line after the first starts with a value that would not have fit
/// after the line before it.
pub proof fn lemma_wrap_lines(vals: Seq<Seq<char>>, max: nat)
    requires
        vals.len() > 0,
        max <= usize::MAX,
        forall|i: int| 0 <= i < vals.len() ==> (#[trigger] vals[i]).len() > 0
            && encode_utf8(vals[i]).len() <= usize::MAX,
    ensures
        forall|i: int| 0 <= i < spec_wrap(vals, max).len() ==> wrap_line_ok(#[trigger] spec_wrap(vals, max)[i], vals, max),
        forall|i: int| 0 <= i < spec_wrap(vals, max).len() - 1
            ==> breaks_before(#[trigger] spec_wrap(vals, max)[i], spec_wrap(vals, max)[i + 1], vals, max),
{
    lemma_wrap_inv(vals, max, vals.len());
    assert(vals.take(vals.len() as int) =~= vals);
    let (lines, cur) = wrap_from(vals, max);
    let w = lines.push(cur);
    assert(spec_wrap(vals, max) == w);
    assert forall|i: int| 0 <= i < w.len() implies wrap_line_ok(#[trigger] w[i], vals, max) by {
        if i < lines.len() {
            assert(w[i] == lines[i]);
        }
    }
    assert forall|i: int| 0 <= i < w.len() - 1 implies breaks_before(#[trigger] w[i], w[i + 1], vals, max) by {
        if i < lines.len() - 1 {
            assert(w[i] == lines[i] && w[i + 1] == lines[i + 1]);
        } else {
            assert(w[i] == lines.last() && w[i + 1] == cur);
        }
    }
}

/// The new default workspace when `selected` is chosen as default: none
/// when it already is the default.
pub fn next_default_workspace_name(current_default: Option<&str>, selected_workspace: &str) -> (r: Option<String>)
    ensures
        (current_default matches Some(c) && c@ == selected_workspace@) ==> r is None,
        !(current_default matches Some(c) && c@ == selected_workspace@)
            ==> (r matches Some(s) && s@ == selected_workspace@),
{
    match current_default {
        Some(c) => {
            if str_eq(c, selected_workspace) {
                None
            } else {
                Some(owned(selected_workspace))
            }
        },
        None => Some(owned(selected_workspace)),
    }
}

} // verus!
