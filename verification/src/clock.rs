//! Instants in UTC and their RFC 3339 text, by way of `chrono`.
use chrono::{DateTime, Utc};
use vstd::prelude::*;

verus! {

/// An instant: whole seconds since the Unix epoch and the nanoseconds past them.
/// Instants are ordered by seconds, then nanoseconds, as `chrono` orders them.
#[derive(Clone, Copy, Debug, PartialEq, Eq)]
pub struct Timestamp {
    pub secs: i64,
    pub nanos: u32,
}

impl Timestamp {
    /// The instant as a pair of plain numbers.
    pub open spec fn pair(self) -> (i64, u32) {
        (self.secs, self.nanos)
    }

    /// Strictly later than `other`.
    pub open spec fn is_after(self, other: (i64, u32)) -> bool {
        self.secs > other.0 || (self.secs == other.0 && self.nanos > other.1)
    }

    /// Whether the instant lies in the years 0000 to 9999 with nanoseconds below one
    /// second: the instants whose RFC 3339 text reads back as the same instant.
    pub open spec fn in_four_digit_years(self) -> bool {
        -62_167_219_200 <= self.secs <= 253_402_300_799 && self.nanos < 1_000_000_000
    }
}

/// Whether `chrono`'s `DateTime<Utc>` covers the instant at `secs` seconds since the
/// epoch: from the start of 1 January of the year -262143 to the end of 31 December of
/// the year 262142 (`DateTime::<Utc>::MIN_UTC` to `MAX_UTC`).
pub open spec fn in_chrono_range(secs: int) -> bool {
    -8_334_601_228_800 <= secs <= 8_210_266_876_799
}

/// An instant as the clock gives it: not before the epoch, nanoseconds below one
/// second, and within `chrono`'s range.
pub open spec fn is_clock_instant(t: Timestamp) -> bool {
    t.secs >= 0 && t.nanos < 1_000_000_000 && in_chrono_range(t.secs as int)
}

/// The RFC 3339 text that `chrono` writes (`DateTime::<Utc>::to_rfc3339`) for the
/// instant, or `None` where `DateTime::from_timestamp` has no such instant.
pub uninterp spec fn spec_rfc3339(secs: i64, nanos: u32) -> Option<Seq<char>>;

/// The UTC instant that `chrono`'s `DateTime::parse_from_rfc3339` reads from the text,
/// as seconds and nanoseconds, or `None` where it refuses the text.
pub uninterp spec fn spec_parse_rfc3339(text: Seq<char>) -> Option<(i64, u32)>;

/// Calls `chrono::Utc::now`. Trusted: which instant comes back depends on the clock;
/// `Utc::now` panics before the epoch and builds the result with
/// `DateTime::from_timestamp(secs, subsec_nanos).unwrap()`, so the seconds are not
/// negative, the nanoseconds are below one second, and the instant is within
/// `chrono`'s range. Which instant within that range comes back is not stated.
#[verifier::external_body]
pub fn now_utc() -> (t: Timestamp)
    ensures
        is_clock_instant(t),
{
    let now = Utc::now();
    Timestamp { secs: now.timestamp(), nanos: now.timestamp_subsec_nanos() }
}

/// Whether `text` is the RFC 3339 text of an instant the clock can give.
pub open spec fn is_clock_text(text: Seq<char>) -> bool {
    exists|t: Timestamp| is_clock_instant(t) && spec_rfc3339(t.secs, t.nanos) == Some(text)
}

/// The RFC 3339 text of the current instant.
pub fn current_rfc3339() -> (text: String)
    ensures
        is_clock_text(text@),
{
    let now = now_utc();
    let text = format_rfc3339(now);
    text.unwrap()
}

/// Calls `DateTime::from_timestamp` and `to_rfc3339`. Trusted: the result is the
/// named text `spec_rfc3339`; with nanoseconds below one second, `from_timestamp` has
/// an instant exactly where the seconds lie within `chrono`'s range; for instants in
/// the years 0000 to 9999 `chrono` writes four-digit years and as many fraction digits
/// as the nanoseconds need, so `parse_from_rfc3339` reads the same instant back.
#[verifier::external_body]
pub fn format_rfc3339(t: Timestamp) -> (out: Option<String>)
    ensures
        match out {
            Some(s) => spec_rfc3339(t.secs, t.nanos) == Some(s@),
            None => spec_rfc3339(t.secs, t.nanos) is None,
        },
        out matches Some(s) ==> (t.in_four_digit_years() ==> spec_parse_rfc3339(s@) == Some(t.pair())),
        t.nanos < 1_000_000_000 ==> (out is Some <==> in_chrono_range(t.secs as int)),
{
    match DateTime::from_timestamp(t.secs, t.nanos) {
        Some(dt) => Some(dt.to_rfc3339()),
        None => None,
    }
}

/// Calls `DateTime::parse_from_rfc3339` and turns the result to UTC. Trusted: the
/// result is the named instant `spec_parse_rfc3339` of the text.
#[verifier::external_body]
pub fn parse_rfc3339(text: &str) -> (t: Option<Timestamp>)
    ensures
        match t {
            Some(u) => spec_parse_rfc3339(text@) == Some(u.pair()),
            None => spec_parse_rfc3339(text@) is None,
        },
{
    match DateTime::parse_from_rfc3339(text) {
        Ok(dt) => {
            let utc = dt.with_timezone(&Utc);
            Some(Timestamp { secs: utc.timestamp(), nanos: utc.timestamp_subsec_nanos() })
        },
        Err(_) => None,
    }
}

/// Calls `chrono::TimeDelta::try_seconds` and `DateTime::checked_add_signed`.
/// Trusted: for an instant with nanoseconds below one second, the sum exists exactly
/// where both the instant and the instant `delta` seconds later lie within `chrono`'s
/// range (`from_timestamp` refuses the one, `checked_add_signed` the other; a delta
/// beyond `TimeDelta`'s range of about 2.9e8 years leaves that range in any case), and
/// it keeps the nanoseconds and adds `delta` to the seconds.
#[verifier::external_body]
pub fn add_seconds(t: Timestamp, delta: i64) -> (sum: Option<Timestamp>)
    requires
        t.nanos < 1_000_000_000,
    ensures
        sum == (if in_chrono_range(t.secs as int) && in_chrono_range(t.secs + delta) {
            Some(Timestamp { secs: (t.secs + delta) as i64, nanos: t.nanos })
        } else {
            None
        }),
{
    let start = DateTime::from_timestamp(t.secs, t.nanos)?;
    let later = start.checked_add_signed(chrono::TimeDelta::try_seconds(delta)?)?;
    Some(Timestamp { secs: later.timestamp(), nanos: later.timestamp_subsec_nanos() })
}

} // verus!
