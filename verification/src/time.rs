//! Dates and times: the current UTC time read as plain numbers, its two
//! written forms (the compact stamp of generated names and RFC 3339 for
//! save times), and the short local form of a save time shown in listings,
//! given the machine's offset from UTC.

use vstd::prelude::*;
use std::time::{Duration, SystemTime, UNIX_EPOCH};
use chrono::{DateTime, Datelike, Timelike};
use crate::text::{decimal, padded_decimal, push_padded_decimal};

verus! {

/// A UTC date and time, field by field.
#[derive(Debug, Clone, Copy, PartialEq, Eq, Structural)]
pub struct UtcDateTime {
    pub year: i32,
    pub month: u32,
    pub day: u32,
    pub hour: u32,
    pub minute: u32,
    pub second: u32,
    pub nanosecond: u32,
}

impl UtcDateTime {
    /// Every field lies in its calendar range.
    pub open spec fn wf(self) -> bool {
        &&& 1 <= self.month <= 12
        &&& 1 <= self.day <= 31
        &&& self.hour < 24
        &&& self.minute < 60
        &&& self.second < 60
        &&& self.nanosecond < 1_000_000_000
    }
}

/// The UTC calendar date (year, month, day) of the instant `secs` seconds
/// after the Unix epoch (before it, when negative), as
/// `chrono::DateTime::from_timestamp` computes it.
pub uninterp spec fn unix_seconds_date(secs: int) -> (int, int, int);

/// Whether `chrono::DateTime::parse_from_rfc3339` accepts `iso`.
pub uninterp spec fn parses_as_rfc3339(iso: Seq<char>) -> bool;

/// The instant that the RFC 3339 text `iso` names, in seconds since the
/// Unix epoch, as chrono's `timestamp` gives it for the parsed time.
pub uninterp spec fn rfc3339_unix_seconds(iso: Seq<char>) -> int;

#[verifier::external_type_specification]
#[verifier::external_body]
pub struct ExSystemTime(SystemTime);

/// The system clock's reading, from `SystemTime::now`; nothing is stated of
/// it.
#[verifier::external_body]
fn system_now() -> SystemTime {
    SystemTime::now()
}

/// The time from the Unix epoch to `t`, from `SystemTime::duration_since`;
/// `None` when `t` lies before the epoch. Nothing more is stated: it
/// depends on the clock's reading.
#[verifier::external_body]
fn since_unix_epoch(t: &SystemTime) -> Option<Duration> {
    t.duration_since(UNIX_EPOCH).ok()
}

/// `Duration::as_secs`: the whole seconds of `d`.
pub assume_specification[ Duration::as_secs ](d: &Duration) -> u64;

/// `Duration::subsec_nanos`: the nanoseconds of `d` beyond its whole
/// seconds, always below one second.
pub assume_specification[ Duration::subsec_nanos ](d: &Duration) -> (n: u32)
    ensures
        n < 1_000_000_000,
;

/// The UTC date and time `secs` seconds and `nanos` nanoseconds after the
/// Unix epoch, from `chrono::DateTime::from_timestamp` and its field
/// getters; `None` only beyond the range of chrono's calendar (years past
/// about 262000 either way). The date is left to the name
/// `unix_seconds_date`; the time of day and the nanoseconds follow from
/// `secs` and `nanos` directly.
#[verifier::external_body]
fn utc_from_unix(secs: i64, nanos: u32) -> (r: Option<UtcDateTime>)
    requires
        nanos < 1_000_000_000,
    ensures
        -8_000_000_000_000 <= secs <= 8_000_000_000_000 ==> r is Some,
        r matches Some(t) ==> {
            &&& t.wf()
            &&& secs >= 0 ==> t.year >= 1970
            &&& (t.year as int, t.month as int, t.day as int) == unix_seconds_date(secs as int)
            &&& t.hour * 3600 + t.minute * 60 + t.second == secs % 86400
            &&& t.nanosecond == nanos
        },
{
    match DateTime::from_timestamp(secs, nanos) {
        Some(d) => Some(
            UtcDateTime {
                year: d.year(),
                month: d.month(),
                day: d.day(),
                hour: d.hour(),
                minute: d.minute(),
                second: d.second(),
                nanosecond: d.nanosecond(),
            },
        ),
        None => None,
    }
}

/// The instant named by the RFC 3339 text `iso`, in seconds since the Unix
/// epoch, from `chrono::DateTime::parse_from_rfc3339` and `timestamp`;
/// `None` exactly when the text does not parse. A parsed time has a
/// four-digit year and an offset under a day, which bounds the instant.
#[verifier::external_body]
fn parse_rfc3339_seconds(iso: &str) -> (r: Option<i64>)
    ensures
        r is Some <==> parses_as_rfc3339(iso@),
        r matches Some(s) ==> s == rfc3339_unix_seconds(iso@) && -62_167_305_600 <= s
            <= 253_402_387_200,
{
    match DateTime::parse_from_rfc3339(iso) {
        Ok(d) => Some(d.timestamp()),
        Err(_) => None,
    }
}

/// The UTC date and time `secs` seconds and `nanos` nanoseconds after the
/// Unix epoch, as the clock hands them over: `None` when `nanos` is not
/// below one second or the instant lies beyond the calendar, which cannot
/// happen before year 250000.
pub fn utc_from_parts(secs: u64, nanos: u32) -> (r: Option<UtcDateTime>)
    ensures
        nanos >= 1_000_000_000 ==> r is None,
        nanos < 1_000_000_000 && secs <= 8_000_000_000_000 ==> r is Some,
        r matches Some(t) ==> {
            &&& t.wf()
            &&& t.year >= 1970
            &&& (t.year as int, t.month as int, t.day as int) == unix_seconds_date(secs as int)
            &&& t.hour * 3600 + t.minute * 60 + t.second == secs % 86400
            &&& t.nanosecond == nanos
        },
{
    if nanos < 1_000_000_000 && secs <= 9_223_372_036_854_775_807u64 {
        utc_from_unix(secs as i64, nanos)
    } else {
        None
    }
}

/// The current UTC time, or `None` when the clock reads before the Unix
/// epoch or beyond the range of the calendar.
pub fn utc_now() -> (r: Option<UtcDateTime>)
    ensures
        r matches Some(t) ==> t.wf() && t.year >= 1970,
{
    let now = system_now();
    match since_unix_epoch(&now) {
        Some(d) => utc_from_parts(d.as_secs(), d.subsec_nanos()),
        None => None,
    }
}

/// The instant the save time `iso` names, in seconds since the Unix epoch,
/// or `None` when `iso` is not RFC 3339 text.
pub fn rfc3339_seconds(iso: &str) -> (r: Option<i64>)
    ensures
        r is Some <==> parses_as_rfc3339(iso@),
        r matches Some(s) ==> s == rfc3339_unix_seconds(iso@),
{
    parse_rfc3339_seconds(iso)
}

/// `n` in two digits (more when it is 100 or larger).
pub open spec fn two_digits(n: nat) -> Seq<char> {
    padded_decimal(n, 2)
}

/// A year as chrono writes it: four digits for years 0 to 9999, otherwise a
/// sign and at least four digits.
pub open spec fn year_text(y: int) -> Seq<char> {
    if 0 <= y <= 9999 {
        padded_decimal(y as nat, 4)
    } else if y > 9999 {
        seq!['+'] + padded_decimal(y as nat, 4)
    } else {
        seq!['-'] + padded_decimal((-y) as nat, 4)
    }
}

/// `t` in the compact form `%Y%m%d-%H%M%S`, for instance `20240719-165100`.
pub open spec fn compact_text(t: UtcDateTime) -> Seq<char> {
    year_text(t.year as int) + two_digits(t.month as nat) + two_digits(t.day as nat) + seq!['-']
        + two_digits(t.hour as nat) + two_digits(t.minute as nat) + two_digits(t.second as nat)
}

/// The fraction of a second in RFC 3339 text: nothing for a whole second,
/// else three, six or nine digits, the fewest that are exact.
pub open spec fn fraction_text(nanos: nat) -> Seq<char> {
    if nanos == 0 {
        Seq::empty()
    } else if nanos % 1_000_000 == 0 {
        seq!['.'] + padded_decimal(nanos / 1_000_000, 3)
    } else if nanos % 1_000 == 0 {
        seq!['.'] + padded_decimal(nanos / 1_000, 6)
    } else {
        seq!['.'] + padded_decimal(nanos, 9)
    }
}

/// `t` in RFC 3339 form with offset `+00:00`, as chrono's `to_rfc3339`
/// writes a UTC time, for instance `2024-07-19T16:51:00.123+00:00`.
pub open spec fn rfc3339_text(t: UtcDateTime) -> Seq<char> {
    year_text(t.year as int) + seq!['-'] + two_digits(t.month as nat) + seq!['-'] + two_digits(
        t.day as nat,
    ) + seq!['T'] + two_digits(t.hour as nat) + seq![':'] + two_digits(t.minute as nat) + seq![':']
        + two_digits(t.second as nat) + fraction_text(t.nanosecond as nat) + seq![
        '+',
        '0',
        '0',
        ':',
        '0',
        '0',
    ]
}

fn push_year(out: &mut String, y: i32)
    ensures
        final(out)@ == old(out)@ + year_text(y as int),
{
    if 0 <= y && y <= 9999 {
        push_padded_decimal(out, y as u64, 4);
    } else if y > 9999 {
        out.push('+');
        let ghost mid = out@;
        push_padded_decimal(out, y as u64, 4);
        assert(out@ == mid + padded_decimal(y as nat, 4));
    } else {
        out.push('-');
        let ghost mid = out@;
        let magnitude: u64 = (0i64 - y as i64) as u64;
        push_padded_decimal(out, magnitude, 4);
        assert(out@ == mid + padded_decimal((-y) as nat, 4));
    }
}

/// Writes `t` in the compact form `%Y%m%d-%H%M%S`.
pub fn compact_stamp(t: &UtcDateTime) -> (s: String)
    ensures
        s@ == compact_text(*t),
{
    let mut s = String::new();
    push_year(&mut s, t.year);
    push_padded_decimal(&mut s, t.month as u64, 2);
    push_padded_decimal(&mut s, t.day as u64, 2);
    s.push('-');
    push_padded_decimal(&mut s, t.hour as u64, 2);
    push_padded_decimal(&mut s, t.minute as u64, 2);
    push_padded_decimal(&mut s, t.second as u64, 2);
    assert(s@ =~= compact_text(*t));
    s
}

fn push_fraction(out: &mut String, nanos: u32)
    ensures
        final(out)@ == old(out)@ + fraction_text(nanos as nat),
{
    if nanos == 0 {
        assert(out@ =~= out@ + fraction_text(nanos as nat));
    } else {
        out.push('.');
        let ghost mid = out@;
        if nanos % 1_000_000 == 0 {
            push_padded_decimal(out, (nanos / 1_000_000) as u64, 3);
        } else if nanos % 1_000 == 0 {
            push_padded_decimal(out, (nanos / 1_000) as u64, 6);
        } else {
            push_padded_decimal(out, nanos as u64, 9);
        }
        assert(out@ =~= old(out)@ + fraction_text(nanos as nat));
    }
}

/// Writes `t` in RFC 3339 form with offset `+00:00`.
pub fn rfc3339(t: &UtcDateTime) -> (s: String)
    ensures
        s@ == rfc3339_text(*t),
{
    let mut s = String::new();
    push_year(&mut s, t.year);
    s.push('-');
    push_padded_decimal(&mut s, t.month as u64, 2);
    s.push('-');
    push_padded_decimal(&mut s, t.day as u64, 2);
    s.push('T');
    push_padded_decimal(&mut s, t.hour as u64, 2);
    s.push(':');
    push_padded_decimal(&mut s, t.minute as u64, 2);
    s.push(':');
    push_padded_decimal(&mut s, t.second as u64, 2);
    push_fraction(&mut s, t.nanosecond);
    s.push('+');
    s.push('0');
    s.push('0');
    s.push(':');
    s.push('0');
    s.push('0');
    assert(s@ =~= rfc3339_text(*t));
    s
}

/// The wall-clock text `MM-DD HH:MM` of the instant `secs` seconds after
/// the Unix epoch, read on the UTC calendar.
pub open spec fn clock_text(secs: int) -> Seq<char> {
    let date = unix_seconds_date(secs);
    let of_day = secs % 86400;
    two_digits(date.1 as nat) + seq!['-'] + two_digits(date.2 as nat) + seq![' '] + two_digits(
        (of_day / 3600) as nat,
    ) + seq![':'] + two_digits((of_day % 3600 / 60) as nat)
}

/// The text a listing shows for the save time `iso` on a machine `offset`
/// seconds ahead of UTC: `iso` itself when it is not RFC 3339 text, else
/// the local month, day, hour and minute of the instant it names.
pub open spec fn when_text_of(iso: Seq<char>, offset: int) -> Seq<char> {
    if parses_as_rfc3339(iso) {
        clock_text(rfc3339_unix_seconds(iso) + offset)
    } else {
        iso
    }
}

proof fn lemma_time_of_day(h: int, mi: int, sec: int, of_day: int)
    requires
        0 <= h,
        0 <= mi < 60,
        0 <= sec < 60,
        h * 3600 + mi * 60 + sec == of_day,
    ensures
        of_day / 3600 == h,
        of_day % 3600 / 60 == mi,
{
    assert(0 <= mi * 60 + sec < 3600);
    assert((h * 3600 + (mi * 60 + sec)) / 3600 == h) by (nonlinear_arith)
        requires
            0 <= h,
            0 <= mi * 60 + sec < 3600,
    ;
    assert((h * 3600 + (mi * 60 + sec)) % 3600 == mi * 60 + sec) by (nonlinear_arith)
        requires
            0 <= h,
            0 <= mi * 60 + sec < 3600,
    ;
    assert((mi * 60 + sec) / 60 == mi) by (nonlinear_arith)
        requires
            0 <= mi,
            0 <= sec < 60,
    ;
}

/// Writes the save time `iso` as a listing shows it on a machine `offset`
/// seconds ahead of UTC: `MM-DD HH:MM` of the local time when `iso` is RFC
/// 3339 text, else `iso` unchanged.
pub fn format_when(iso: &str, offset: i32) -> (out: String)
    ensures
        out@ == when_text_of(iso@, offset as int),
{
    match parse_rfc3339_seconds(iso) {
        None => String::from_str(iso),
        Some(secs) => {
            let local: i64 = secs + offset as i64;
            match utc_from_unix(local, 0) {
                Some(t) => {
                    let mut out = String::new();
                    push_padded_decimal(&mut out, t.month as u64, 2);
                    out.push('-');
                    push_padded_decimal(&mut out, t.day as u64, 2);
                    out.push(' ');
                    push_padded_decimal(&mut out, t.hour as u64, 2);
                    out.push(':');
                    push_padded_decimal(&mut out, t.minute as u64, 2);
                    proof {
                        lemma_time_of_day(
                            t.hour as int,
                            t.minute as int,
                            t.second as int,
                            local as int % 86400,
                        );
                    }
                    assert(out@ =~= when_text_of(iso@, offset as int));
                    out
                },
                None => String::from_str(iso),
            }
        },
    }
}

} // verus!
