//! Instants on the UTC time line and signed offsets, as integer nanoseconds.
use vstd::prelude::*;

verus! {

pub const NANOS_PER_SECOND: i128 = 1_000_000_000;

/// The longest offset a schedule may state: chrono's `TimeDelta::MAX`, `i64::MAX` milliseconds.
pub const MAX_OFFSET_NANOS: i128 = 9_223_372_036_854_775_807_000_000;

/// An instant, as nanoseconds since 1970-01-01T00:00:00Z (leap seconds not counted).
#[derive(Debug, Clone, Copy, PartialEq, Eq, Structural)]
pub struct Instant {
    pub unix_nanos: i128,
}

/// What chrono's RFC 3339 parser makes of a text: whole seconds since the epoch and the
/// nanoseconds past them, or nothing when the text is not an RFC 3339 date-time.
pub uninterp spec fn rfc3339_of(s: Seq<char>) -> Option<(i64, u32)>;

/// What humantime makes of a duration text such as `10s` or `1h30m`: whole seconds and the
/// nanoseconds past them, or nothing when the text is not a duration.
pub uninterp spec fn human_duration_of(s: Seq<char>) -> Option<(u64, u32)>;

/// What chrono prints for the instant `secs`, `nanos` with the format `%Y%m%dT%H%M%SZ`, or
/// nothing when chrono cannot represent that instant.
pub uninterp spec fn compact_stamp_of(secs: i64, nanos: u32) -> Option<Seq<char>>;

/// Relies on `chrono::DateTime::parse_from_rfc3339`, read back through `timestamp` and
/// `timestamp_subsec_nanos`.
#[verifier::external_body]
fn rfc3339_parts(s: &str) -> (r: Option<(i64, u32)>)
    ensures
        r == rfc3339_of(s@),
{
    chrono::DateTime::parse_from_rfc3339(s).ok().map(|dt| (dt.timestamp(), dt.timestamp_subsec_nanos()))
}

/// The number of ASCII digits in `s`.
pub open spec fn digit_count(s: Seq<char>) -> nat
    decreases s.len(),
{
    if s.len() == 0 {
        0
    } else {
        digit_count(s.drop_last()) + if '0' <= s.last() && s.last() <= '9' {
            1nat
        } else {
            0nat
        }
    }
}

/// The most digits a duration text may hold.
pub const MAX_DURATION_DIGITS: usize = 11;

/// Relies on `humantime::parse_duration`, read back through `as_secs` and `subsec_nanos`
/// (the latter is below one billion, as `std::time::Duration` documents).
///
/// humantime adds each span with `Duration::new(seconds, nanoseconds)`, which panics when the
/// seconds overflow `u64`. Its multiplications and additions are checked, so only that call
/// can panic, and only once the running total reaches `u64::MAX` seconds. A span is a number
/// (digits, perhaps a fraction below one unit) and a unit of at most 31,557,600 seconds (a
/// year). With `d` digits in all, the total stays below `2 * 10^d * 31_557_600` seconds,
/// which for `d <= 11` is below `u64::MAX`.
#[verifier::external_body]
fn human_duration_parts(s: &str) -> (r: Option<(u64, u32)>)
    requires
        digit_count(s@) <= MAX_DURATION_DIGITS,
    ensures
        r == human_duration_of(s@),
        r matches Some(p) ==> p.1 < 1_000_000_000,
{
    humantime::parse_duration(s).ok().map(|d| (d.as_secs(), d.subsec_nanos()))
}

/// Relies on `chrono::DateTime::from_timestamp` and `DateTime::format` with
/// `%Y%m%dT%H%M%SZ`.
#[verifier::external_body]
fn compact_stamp(secs: i64, nanos: u32) -> (r: Option<String>)
    ensures
        match r {
            Some(t) => compact_stamp_of(secs, nanos) == Some(t@),
            None => compact_stamp_of(secs, nanos) is None,
        },
{
    chrono::DateTime::from_timestamp(secs, nanos).map(|dt| dt.format("%Y%m%dT%H%M%SZ").to_string())
}

/// The instant `secs` seconds and `nanos` nanoseconds after the epoch.
pub open spec fn instant_at(secs: i64, nanos: u32) -> Instant {
    Instant { unix_nanos: (secs * NANOS_PER_SECOND + nanos) as i128 }
}

/// What chrono prints for the instant `secs`, `nanos` in RFC 3339 form (`to_rfc3339`), or
/// nothing when chrono cannot represent that instant.
pub uninterp spec fn rfc3339_text_of(secs: i64, nanos: u32) -> Option<Seq<char>>;

/// Relies on `chrono::DateTime::from_timestamp` and `DateTime::to_rfc3339`.
#[verifier::external_body]
fn rfc3339_text(secs: i64, nanos: u32) -> (r: Option<String>)
    ensures
        match r {
            Some(t) => rfc3339_text_of(secs, nanos) == Some(t@),
            None => rfc3339_text_of(secs, nanos) is None,
        },
{
    chrono::DateTime::from_timestamp(secs, nanos).map(|dt| dt.to_rfc3339())
}

/// The instant an RFC 3339 text names, if it is one.
pub open spec fn rfc3339_instant(s: Seq<char>) -> Option<Instant> {
    match rfc3339_of(s) {
        Some(p) => Some(instant_at(p.0, p.1)),
        None => None,
    }
}

/// The length in nanoseconds of a duration text, if it is one, holds at most
/// `MAX_DURATION_DIGITS` digits, and chrono can hold it.
pub open spec fn duration_nanos(s: Seq<char>) -> Option<i128> {
    if digit_count(s) > MAX_DURATION_DIGITS {
        None
    } else {
        duration_within_digits(s)
    }
}

pub open spec fn duration_within_digits(s: Seq<char>) -> Option<i128> {
    match human_duration_of(s) {
        Some(p) => {
            let n = p.0 * NANOS_PER_SECOND + p.1;
            if n <= MAX_OFFSET_NANOS {
                Some(n as i128)
            } else {
                None
            }
        },
        None => None,
    }
}

/// Parses an RFC 3339 date-time into an instant.
pub fn parse_instant(s: &str) -> (r: Option<Instant>)
    ensures
        r == rfc3339_instant(s@),
{
    match rfc3339_parts(s) {
        Some(p) => {
            let secs = p.0 as i128;
            assert(-0x8000_0000_0000_0000 <= secs < 0x8000_0000_0000_0000);
            assert(-0x8000_0000_0000_0000 * 1_000_000_000 <= secs * 1_000_000_000
                <= 0x8000_0000_0000_0000 * 1_000_000_000) by (nonlinear_arith)
                requires
                    -0x8000_0000_0000_0000 <= secs < 0x8000_0000_0000_0000,
            ;
            Some(Instant { unix_nanos: secs * NANOS_PER_SECOND + p.1 as i128 })
        },
        None => None,
    }
}

/// The number of ASCII digits in `s`.
pub fn count_digits(s: &str) -> (r: usize)
    ensures
        r == digit_count(s@),
{
    let cs = crate::text::chars_of(s);
    let mut k: usize = 0;
    let mut i: usize = 0;
    assert(cs@.subrange(0, 0) =~= Seq::<char>::empty());
    while i < cs.len()
        invariant
            i <= cs@.len(),
            k == digit_count(cs@.subrange(0, i as int)),
            k <= i,
        decreases cs@.len() - i,
    {
        assert(cs@.subrange(0, i + 1).drop_last() =~= cs@.subrange(0, i as int));
        if '0' <= cs[i] && cs[i] <= '9' {
            k += 1;
        }
        i += 1;
    }
    assert(cs@.subrange(0, cs@.len() as int) =~= s@);
    k
}

/// Parses a human-readable duration (`10s`, `5m`, `1h30m`) into nanoseconds.
pub fn parse_duration(s: &str) -> (r: Option<i128>)
    ensures
        r == duration_nanos(s@),
        digit_count(s@) > MAX_DURATION_DIGITS ==> r is None,
{
    if count_digits(s) > MAX_DURATION_DIGITS {
        return None;
    }
    match human_duration_parts(s) {
        Some(p) => {
            let secs = p.0 as i128;
            assert(0 <= secs * 1_000_000_000 <= 0x1_0000_0000_0000_0000 * 1_000_000_000)
                by (nonlinear_arith)
                requires
                    0 <= secs < 0x1_0000_0000_0000_0000,
            ;
            let n = secs * NANOS_PER_SECOND + p.1 as i128;
            if n <= MAX_OFFSET_NANOS {
                Some(n)
            } else {
                None
            }
        },
        None => None,
    }
}

/// Whole seconds of an instant, rounded down.
pub open spec fn seconds_of(t: Instant) -> int {
    t.unix_nanos as int / NANOS_PER_SECOND as int
}

/// The nanoseconds of an instant past its whole second.
pub open spec fn subsec_of(t: Instant) -> int {
    t.unix_nanos as int % NANOS_PER_SECOND as int
}

/// The instant in the compact form `YYYYMMDDTHHMMSSZ`, when chrono can represent it.
pub open spec fn compact_form(t: Instant) -> Option<Seq<char>> {
    if i64::MIN <= seconds_of(t) <= i64::MAX {
        compact_stamp_of(seconds_of(t) as i64, subsec_of(t) as u32)
    } else {
        None
    }
}

/// The instant in RFC 3339 form, when chrono can represent it.
pub open spec fn rfc3339_form(t: Instant) -> Option<Seq<char>> {
    if i64::MIN <= seconds_of(t) <= i64::MAX {
        rfc3339_text_of(seconds_of(t) as i64, subsec_of(t) as u32)
    } else {
        None
    }
}

/// Whole seconds and the nanoseconds past them, when the seconds fit an `i64`.
fn split_instant(t: Instant) -> (r: Option<(i64, u32)>)
    ensures
        match r {
            Some(p) => i64::MIN <= seconds_of(t) <= i64::MAX && p.0 == seconds_of(t) && p.1 == subsec_of(t),
            None => !(i64::MIN <= seconds_of(t) <= i64::MAX),
        },
{
    let n = t.unix_nanos;
    let (secs, rem): (i128, i128) = if n >= 0 {
        (n / NANOS_PER_SECOND, n % NANOS_PER_SECOND)
    } else {
        let m: i128 = -(n + 1);
        (-(m / NANOS_PER_SECOND) - 1, NANOS_PER_SECOND - 1 - m % NANOS_PER_SECOND)
    };
    assert(secs == seconds_of(t) && rem == subsec_of(t) && 0 <= rem < 1_000_000_000) by (nonlinear_arith)
        requires
            n == t.unix_nanos,
            n >= 0 ==> secs == n / 1_000_000_000 && rem == n % 1_000_000_000,
            n < 0 ==> secs == -((-(n + 1)) / 1_000_000_000) - 1 && rem == 1_000_000_000 - 1 - (-(n
                + 1)) % 1_000_000_000,
    ;
    if secs < i64::MIN as i128 || secs > i64::MAX as i128 {
        return None;
    }
    Some((secs as i64, rem as u32))
}

/// Formats an instant in RFC 3339 form.
pub fn format_rfc3339(t: Instant) -> (r: Option<String>)
    ensures
        match r {
            Some(s) => rfc3339_form(t) == Some(s@),
            None => rfc3339_form(t) is None,
        },
{
    match split_instant(t) {
        Some((secs, nanos)) => rfc3339_text(secs, nanos),
        None => None,
    }
}

/// Formats an instant as `YYYYMMDDTHHMMSSZ`.
pub fn format_compact(t: Instant) -> (r: Option<String>)
    ensures
        match r {
            Some(s) => compact_form(t) == Some(s@),
            None => compact_form(t) is None,
        },
{
    match split_instant(t) {
        Some((secs, nanos)) => compact_stamp(secs, nanos),
        None => None,
    }
}

/// How long to wait from `now` until `target`: zero when `target` is not in the future.
pub open spec fn wait_nanos(target: Instant, now: Instant) -> int {
    if target.unix_nanos > now.unix_nanos {
        target.unix_nanos - now.unix_nanos
    } else {
        0
    }
}

/// The time to wait from `now` until `target`, in nanoseconds; zero for a past target.
pub fn time_until(target: Instant, now: Instant) -> (r: u128)
    ensures
        r == wait_nanos(target, now),
{
    let a = target.unix_nanos;
    let b = now.unix_nanos;
    if a <= b {
        0
    } else if b >= 0 || a < 0 {
        (a - b) as u128
    } else {
        a as u128 + (-(b + 1)) as u128 + 1
    }
}

} // verus!
