//! Instants in UTC, held as the plain numbers that `chrono` gives for a
//! `DateTime<Utc>`, and the `chrono` operations that the library performs on
//! them.

use vstd::prelude::*;
use chrono::DateTime;
use chrono::TimeDelta;
use chrono::Utc;

verus! {

/// An instant in UTC: whole seconds since the Unix epoch and the nanoseconds
/// past that second (above 999,999,999 only during a leap second), as
/// `DateTime::<Utc>::timestamp` and `timestamp_subsec_nanos` report them.
#[derive(Clone, Copy, Debug, PartialEq, Eq, Structural)]
pub struct Timestamp {
    pub secs: i64,
    pub nanos: u32,
}

/// Whether `chrono::DateTime::<Utc>::from_timestamp(secs, nanos)` gives an
/// instant: the seconds lie in `chrono`'s range (from the first second of
/// its earliest day to the last second of its latest), and the nanoseconds
/// stay below a second, or below two seconds during a leap second, which
/// `chrono` places at the 59th second of a minute.
pub open spec fn chrono_accepts(secs: i64, nanos: u32) -> bool {
    &&& -8_334_601_228_800 <= secs <= 8_210_266_876_799
    &&& (nanos < 1_000_000_000 || (nanos < 2_000_000_000 && secs % 60 == 59))
}

/// The instant falls in the years 0 to 9999, where RFC 3339 text written by
/// `chrono` reads back.
pub open spec fn in_rfc3339_years(t: Timestamp) -> bool {
    -62_167_219_200 <= t.secs <= 253_402_300_799
}

/// What `chrono::DateTime::parse_from_rfc3339(s)` reads, as seconds and nanoseconds in UTC.
pub uninterp spec fn chrono_rfc3339_instant(s: Seq<char>) -> Option<(i64, u32)>;

/// What `s.parse::<chrono::DateTime<Utc>>()` reads, as seconds and nanoseconds.
pub uninterp spec fn chrono_utc_instant(s: Seq<char>) -> Option<(i64, u32)>;

/// `later.signed_duration_since(earlier).num_seconds()` in `chrono`.
pub uninterp spec fn chrono_seconds_between(
    later_secs: i64,
    later_nanos: u32,
    earlier_secs: i64,
    earlier_nanos: u32,
) -> i64;

/// `DateTime::<Utc>::checked_sub_signed(TimeDelta::seconds(delta))` in `chrono`.
pub uninterp spec fn chrono_minus_seconds(secs: i64, nanos: u32, delta: i64) -> Option<(i64, u32)>;

/// `dt.format("%Y-%m-%d").to_string()` in `chrono`.
pub uninterp spec fn chrono_ymd_text(secs: i64, nanos: u32) -> Seq<char>;

/// `dt.format("%Y-%m-%dT%H:%M:%SZ").to_string()` in `chrono`.
pub uninterp spec fn chrono_utc_seconds_text(secs: i64, nanos: u32) -> Seq<char>;

/// `dt.to_rfc3339()` in `chrono`.
pub uninterp spec fn chrono_rfc3339_text(secs: i64, nanos: u32) -> Seq<char>;

/// Division that rounds toward zero, as Rust's `/` on integers does.
pub open spec fn trunc_div(a: int, b: int) -> int
    recommends
        b > 0,
{
    if a >= 0 {
        a / b
    } else {
        -((-a) / b)
    }
}

pub open spec fn instant_of(p: Option<(i64, u32)>) -> Option<Timestamp> {
    match p {
        Some((secs, nanos)) => Some(Timestamp { secs, nanos }),
        None => None,
    }
}

impl Timestamp {
    /// An instant that `chrono` represents.
    pub open spec fn valid(self) -> bool {
        chrono_accepts(self.secs, self.nanos)
    }

    /// No leap second is being counted.
    pub open spec fn is_regular(self) -> bool {
        self.nanos < 1_000_000_000
    }

    /// The instant with these parts, where `chrono` has one.
    pub fn new(secs: i64, nanos: u32) -> (res: Option<Timestamp>)
        ensures
            res is Some <==> chrono_accepts(secs, nanos),
            res matches Some(t) ==> t == (Timestamp { secs, nanos }),
    {
        chrono_from_timestamp(secs, nanos)
    }
}

/// The current instant of the system clock (nothing more is known of it
/// than that `chrono` represents it, after the epoch, outside a leap second).
pub fn now() -> (res: Timestamp)
    ensures
        res.valid(),
        res.is_regular(),
        res.secs >= 0,
{
    chrono_now()
}

/// Calls `DateTime::<Utc>::from_timestamp(secs, nanos)`. Claims: it gives an
/// instant exactly when `chrono_accepts(secs, nanos)` (the range and the
/// nanosecond rule that `from_timestamp` checks), and that instant reports
/// back the same seconds and nanoseconds.
#[verifier::external_body]
fn chrono_from_timestamp(secs: i64, nanos: u32) -> (res: Option<Timestamp>)
    ensures
        res is Some <==> chrono_accepts(secs, nanos),
        res matches Some(t) ==> t.secs == secs && t.nanos == nanos,
{
    match DateTime::from_timestamp(secs, nanos) {
        Some(dt) => Some(Timestamp { secs: dt.timestamp(), nanos: dt.timestamp_subsec_nanos() }),
        None => None,
    }
}

/// Calls `chrono::Utc::now()`. Claims only that the instant is one that
/// `chrono` represents, not before the epoch and not within a leap second
/// (it is built from the system clock's whole seconds since the epoch and a
/// nanosecond part below one second); which instant comes back depends on the
/// clock.
#[verifier::external_body]
pub(crate) fn chrono_now() -> (res: Timestamp)
    ensures
        res.valid(),
        res.is_regular(),
        res.secs >= 0,
{
    let dt = Utc::now();
    Timestamp { secs: dt.timestamp(), nanos: dt.timestamp_subsec_nanos() }
}

/// Calls `DateTime::parse_from_rfc3339(s)` and takes the instant in UTC.
/// Claims: the result is `chrono_rfc3339_instant(s)`, and a parsed instant is
/// one that `chrono` represents.
#[verifier::external_body]
pub(crate) fn chrono_parse_rfc3339(s: &str) -> (res: Option<Timestamp>)
    ensures
        res == instant_of(chrono_rfc3339_instant(s@)),
        res matches Some(t) ==> t.valid(),
{
    match DateTime::parse_from_rfc3339(s) {
        Ok(dt) => Some(Timestamp { secs: dt.timestamp(), nanos: dt.timestamp_subsec_nanos() }),
        Err(_) => None,
    }
}

/// Calls `s.parse::<DateTime<Utc>>()` (chrono's relaxed RFC 3339 reader).
/// Claims: the result is `chrono_utc_instant(s)`, and a parsed instant is one
/// that `chrono` represents.
#[verifier::external_body]
pub(crate) fn chrono_parse_utc(s: &str) -> (res: Option<Timestamp>)
    ensures
        res == instant_of(chrono_utc_instant(s@)),
        res matches Some(t) ==> t.valid(),
{
    match s.parse::<DateTime<Utc>>() {
        Ok(dt) => Some(Timestamp { secs: dt.timestamp(), nanos: dt.timestamp_subsec_nanos() }),
        Err(_) => None,
    }
}

/// Calls `later.signed_duration_since(earlier).num_seconds()`. Claims: the
/// result is `chrono_seconds_between`; outside leap seconds it is the exact
/// difference of the two instants in whole seconds, rounded toward zero.
#[verifier::external_body]
pub(crate) fn chrono_seconds_since(later: Timestamp, earlier: Timestamp) -> (res: i64)
    requires
        later.valid(),
        earlier.valid(),
    ensures
        res == chrono_seconds_between(later.secs, later.nanos, earlier.secs, earlier.nanos),
        later.is_regular() && earlier.is_regular() ==> res == trunc_div(
            (later.secs - earlier.secs) * 1_000_000_000 + later.nanos - earlier.nanos,
            1_000_000_000,
        ),
{
    let a = DateTime::from_timestamp(later.secs, later.nanos).expect("valid instant");
    let b = DateTime::from_timestamp(earlier.secs, earlier.nanos).expect("valid instant");
    a.signed_duration_since(b).num_seconds()
}

/// Calls `dt.checked_sub_signed(TimeDelta::seconds(delta))`. Claims: the
/// result is `chrono_minus_seconds`; a result is an instant `chrono`
/// represents, and outside a leap second it lies `delta` seconds earlier with
/// the same nanoseconds.
#[verifier::external_body]
pub(crate) fn chrono_checked_sub_seconds(t: Timestamp, delta: i64) -> (res: Option<Timestamp>)
    requires
        t.valid(),
        -9223372036854775 <= delta <= 9223372036854775,
    ensures
        res == instant_of(chrono_minus_seconds(t.secs, t.nanos, delta)),
        res matches Some(r) ==> r.valid(),
        res matches Some(r) ==> (t.is_regular() ==> r.secs == t.secs - delta && r.nanos == t.nanos),
{
    let dt = DateTime::from_timestamp(t.secs, t.nanos).expect("valid instant");
    match dt.checked_sub_signed(TimeDelta::seconds(delta)) {
        Some(r) => Some(Timestamp { secs: r.timestamp(), nanos: r.timestamp_subsec_nanos() }),
        None => None,
    }
}

/// Calls `dt.format("%Y-%m-%d").to_string()`. Claims: the result is
/// `chrono_ymd_text`.
#[verifier::external_body]
pub(crate) fn chrono_format_ymd(t: Timestamp) -> (res: String)
    requires
        t.valid(),
    ensures
        res@ == chrono_ymd_text(t.secs, t.nanos),
{
    let dt = DateTime::from_timestamp(t.secs, t.nanos).expect("valid instant");
    dt.format("%Y-%m-%d").to_string()
}

/// Calls `dt.format("%Y-%m-%dT%H:%M:%SZ").to_string()` (whole seconds in
/// UTC). Claims: the result is `chrono_utc_seconds_text`.
#[verifier::external_body]
pub(crate) fn chrono_format_utc_seconds(t: Timestamp) -> (res: String)
    requires
        t.valid(),
    ensures
        res@ == chrono_utc_seconds_text(t.secs, t.nanos),
{
    let dt = DateTime::from_timestamp(t.secs, t.nanos).expect("valid instant");
    dt.format("%Y-%m-%dT%H:%M:%SZ").to_string()
}

/// Calls `dt.to_rfc3339()`. Claims: the result is `chrono_rfc3339_text`,
/// and for an instant in the years 0 to 9999 `parse_from_rfc3339` reads that
/// text back as the same instant (`to_rfc3339` writes a four-digit year, an
/// offset and as many fraction digits as the nanoseconds need, a leap second
/// as second 60, all of which the reader takes back).
#[verifier::external_body]
pub(crate) fn chrono_to_rfc3339(t: Timestamp) -> (res: String)
    requires
        t.valid(),
    ensures
        res@ == chrono_rfc3339_text(t.secs, t.nanos),
        in_rfc3339_years(t) ==> chrono_rfc3339_instant(res@) == Some((t.secs, t.nanos)),
{
    let dt = DateTime::from_timestamp(t.secs, t.nanos).expect("valid instant");
    dt.to_rfc3339()
}

} // verus!
