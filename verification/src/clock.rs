//! Calendar time: instants as seconds since the Unix epoch, and their written form.

use vstd::prelude::*;
use chrono::TimeZone;
use crate::text::{chars_of, string_of};

verus! {

/// The latest instant, in seconds since the Unix epoch, that has a written form with a
/// four-digit year: the last second of the year 9999.
pub const LAST_WRITTEN_SECOND: i64 = 253_402_300_799;

/// The UTC date and time of an instant, written with six digits for the fraction of the
/// second and ending in `Z`; `None` for an instant that the calendar cannot hold.
pub uninterp spec fn utc_text(secs: i64, nanos: u32) -> Option<Seq<char>>;

/// Calls `chrono::DateTime::from_timestamp` and, on the instant it returns,
/// `to_rfc3339_opts` with `SecondsFormat::Micros` and `Z` for UTC. The first returns a date
/// and time for every second of the years 1970 to 9999 with a fraction below one second; the
/// second writes it ending in `Z`.
#[verifier::external_body]
pub(crate) fn format_utc(secs: i64, nanos: u32) -> (out: Option<String>)
    ensures
        out is Some <==> utc_text(secs, nanos) is Some,
        out matches Some(s) ==> utc_text(secs, nanos) == Some(s@) && s@.len() > 0 && s@.last() == 'Z',
        0 <= secs <= LAST_WRITTEN_SECOND && nanos < 1_000_000_000 ==> out is Some,
{
    chrono::DateTime::from_timestamp(secs, nanos).map(
        |t| t.to_rfc3339_opts(chrono::SecondsFormat::Micros, true),
    )
}

/// Calls `chrono::Local::now`: the current instant, in seconds since the Unix epoch.
#[verifier::external_body]
pub(crate) fn local_now() -> i64 {
    chrono::Local::now().timestamp()
}

/// Calls `chrono::TimeZone::from_local_datetime` on the machine's time zone, for the given
/// hour and minute on the local date of `now`, and takes the later instant where the local
/// time occurs twice. `None` where that local time does not occur. The local date is read
/// with `DateTime::date_naive`, which fails at the ends of the calendar: `now` stays within
/// the years that are written with four digits.
#[verifier::external_body]
pub(crate) fn local_day_at(now: i64, hour: u8, min: u8) -> Option<i64>
    requires
        0 <= now <= LAST_WRITTEN_SECOND,
{
    let day = chrono::Local.timestamp_opt(now, 0).single()?.date_naive();
    let naive = day.and_hms_opt(hour.into(), min.into(), 0)?;
    chrono::Local.from_local_datetime(&naive).latest().map(|t| t.timestamp())
}

/// Calls `chrono::DateTime::checked_add_days` with one day on the machine's time zone: the
/// same local time on the next local date. `None` where there is none.
#[verifier::external_body]
pub(crate) fn local_next_day(at: i64) -> Option<i64> {
    let t = chrono::Local.timestamp_opt(at, 0).single()?;
    t.checked_add_days(chrono::Days::new(1)).map(|t| t.timestamp())
}

/// An instant: whole seconds since the Unix epoch and the microseconds after them.
#[derive(Clone, Copy, Debug, PartialEq, Eq, Structural)]
pub struct Instant {
    pub secs: i64,
    pub micros: u32,
}

impl Instant {
    /// The written form of the instant with six digits for the fraction of the second.
    pub open spec fn text(self) -> Option<Seq<char>> {
        if self.micros < 1_000_000 {
            utc_text(self.secs, (self.micros * 1000) as u32)
        } else {
            None
        }
    }

    /// Writes the instant as a UTC date and time with microseconds.
    pub fn to_text(&self) -> (out: Option<String>)
        ensures
            out is Some <==> self.text() is Some,
            out matches Some(s) ==> self.text() == Some(s@) && s@.len() > 0 && s@.last() == 'Z',
            0 <= self.secs <= LAST_WRITTEN_SECOND && self.micros < 1_000_000 ==> out is Some,
    {
        if self.micros < 1_000_000 {
            format_utc(self.secs, self.micros * 1000)
        } else {
            None
        }
    }
}

/// A written instant with nine digits for the fraction of the second in place of six.
pub open spec fn with_nanos(text: Seq<char>) -> Seq<char> {
    text.drop_last() + seq!['0', '0', '0', 'Z']
}

/// Rewrites an instant written with microseconds as one written with nanoseconds.
pub fn widen_to_nanos(text: &str) -> (out: String)
    requires
        text@.len() > 0,
    ensures
        out@ == with_nanos(text@),
{
    let mut chars = chars_of(text);
    chars.pop();
    chars.push('0');
    chars.push('0');
    chars.push('0');
    chars.push('Z');
    assert(chars@ =~= with_nanos(text@));
    string_of(&chars)
}

/// The instant that lies `micros` microseconds after the Unix epoch.
pub open spec fn instant_of(micros: i64) -> Instant {
    Instant { secs: (micros / 1_000_000) as i64, micros: (micros % 1_000_000) as u32 }
}

/// The written form of the instant that lies `micros` microseconds after the Unix epoch;
/// empty for an instant before the epoch and for one that the calendar cannot hold.
pub open spec fn written(micros: i64) -> Seq<char> {
    if micros < 0 {
        Seq::empty()
    } else {
        match instant_of(micros).text() {
            Some(s) => s,
            None => Seq::empty(),
        }
    }
}

/// Writes the instant that lies `now` microseconds after the Unix epoch.
pub fn stamp_text(now: i64) -> (out: String)
    ensures
        out@ == written(now),
{
    if now < 0 {
        return String::new();
    }
    let t = Instant { secs: now / 1_000_000, micros: (now % 1_000_000) as u32 };
    match t.to_text() {
        Some(s) => s,
        None => String::new(),
    }
}

} // verus!
