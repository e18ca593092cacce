//! Small helpers shared by the normalizers.

use vstd::prelude::*;
use crate::clock::Instant;

verus! {

/// Whether `c` is one of the characters that a normalized tail number leaves out: a dot, a
/// hyphen or a space.
pub open spec fn is_tail_filler(c: char) -> bool {
    c == '.' || c == '-' || c == ' '
}

/// `s` without dots, hyphens and spaces.
pub open spec fn stripped(s: Seq<char>) -> Seq<char> {
    s.filter(|c: char| !is_tail_filler(c))
}

/// The pattern that matches one dot, hyphen or space.
pub open spec fn filler_pattern() -> Seq<char> {
    seq!['[', '\\', '.', '\\', '-', ' ', ']']
}

/// Calls `regex::Regex::new` and, on the pattern it compiles, `replace_all` with the text
/// and the replacement. The pattern is the class of dot, hyphen and space, and the
/// replacement is empty: what comes back is the text without every character of that class.
#[verifier::external_body]
fn remove_matches(pattern: &str, text: &str, replacement: &str) -> (out: String)
    requires
        pattern@ == filler_pattern(),
        replacement@.len() == 0,
    ensures
        out@ == stripped(text@),
{
    regex::Regex::new(pattern).unwrap().replace_all(text, replacement).into_owned()
}

/// Brings a tail number to its plain form: without dots, hyphens and spaces.
pub fn normalize_tail(tail: &str) -> (out: String)
    ensures
        out@ == stripped(tail@),
{
    proof {
        reveal_strlit("[\\.\\- ]");
        reveal_strlit("");
        assert("[\\.\\- ]"@ =~= filler_pattern());
    }
    remove_matches("[\\.\\- ]", tail, "")
}

/// Filtering what is already filtered changes nothing.
pub proof fn lemma_filter_twice(s: Seq<char>)
    ensures
        stripped(stripped(s)) == stripped(s),
        forall|i: int| 0 <= i < stripped(s).len() ==> !is_tail_filler(#[trigger] stripped(s)[i]),
        stripped(s).len() <= s.len(),
    decreases s.len(),
{
    reveal(Seq::filter);
    let keep = |c: char| !is_tail_filler(c);
    if s.len() > 0 {
        let head = s.drop_last();
        lemma_filter_twice(head);
        let h = head.filter(keep);
        if keep(s.last()) {
            let t = h.push(s.last());
            assert(s.filter(keep) == t);
            assert(t.drop_last() =~= h);
            assert(t.filter(keep) == h.filter(keep).push(s.last()));
        }
    }
}

/// Normalizing a tail number a second time changes nothing, and a normalized tail number
/// holds no dot, hyphen or space.
pub proof fn lemma_normalize_tail_idempotent(tail: Seq<char>)
    ensures
        stripped(stripped(tail)) == stripped(tail),
        forall|i: int|
            0 <= i < stripped(tail).len() ==> !is_tail_filler(#[trigger] stripped(tail)[i]),
{
    lemma_filter_twice(tail);
}

/// The instant of an arrival given in seconds and nanoseconds since the Unix epoch, to the
/// microsecond; `None` where the calendar cannot hold it.
pub fn split_unix_time_to_utc_datetime(secs: i64, nsecs: u32) -> (out: Option<Instant>)
    ensures
        out matches Some(t) ==> t.secs == secs && t.micros == nsecs / 1000 && t.text() is Some,
        out is None <==> (Instant { secs, micros: nsecs / 1000 }).text() is None,
{
    let t = Instant { secs, micros: nsecs / 1000 };
    match t.to_text() {
        Some(_) => Some(t),
        None => None,
    }
}

pub const SECONDS_PER_DAY: i64 = 86_400;

/// The second of the day at which the clock shows `hour:min:sec`.
pub open spec fn second_of_day(hour: u8, min: u8, sec: u8) -> int {
    hour * 3600 + min * 60 + sec
}

/// The latest instant that is not after `dt` and at which a UTC clock shows `hour:min:sec`.
pub open spec fn backfilled(dt: Instant, hour: u8, min: u8, sec: u8) -> Instant {
    Instant {
        secs: (dt.secs - ((dt.secs - second_of_day(hour, min, sec)) % 86_400)) as i64,
        micros: 0,
    }
}

/// Whether an instant has a whole day before it.
pub open spec fn has_day_before(dt: Instant) -> bool {
    dt.secs >= i64::MIN + SECONDS_PER_DAY
}

/// How long before the second `shown` of a day the clock last showed the second `wanted`.
pub open spec fn seconds_back(shown: int, wanted: int) -> int {
    if wanted <= shown {
        shown - wanted
    } else {
        shown + (86_400 - wanted)
    }
}

/// Going back from an instant to the second `wanted` of the day goes back by less than a
/// day, and ends at that second.
proof fn lemma_seconds_back(secs: int, q: int, shown: int, wanted: int)
    requires
        secs == q * 86_400 + shown,
        0 <= shown < 86_400,
        0 <= wanted < 86_400,
    ensures
        secs % 86_400 == shown,
        (secs - wanted) % 86_400 == seconds_back(shown, wanted),
        (secs - seconds_back(shown, wanted)) % 86_400 == wanted,
        0 <= seconds_back(shown, wanted) < 86_400,
{
    let back = seconds_back(shown, wanted);
    vstd::arithmetic::div_mod::lemma_fundamental_div_mod_converse(secs, 86_400, q, shown);
    if wanted <= shown {
        vstd::arithmetic::div_mod::lemma_fundamental_div_mod_converse(secs - wanted, 86_400, q, back);
        vstd::arithmetic::div_mod::lemma_fundamental_div_mod_converse(secs - back, 86_400, q, wanted);
    } else {
        assert(secs - wanted == (q - 1) * 86_400 + back) by (nonlinear_arith)
            requires
                secs == q * 86_400 + shown,
                back == shown + (86_400 - wanted),
        ;
        assert(secs - back == (q - 1) * 86_400 + wanted) by (nonlinear_arith)
            requires
                secs == q * 86_400 + shown,
                back == shown + (86_400 - wanted),
        ;
        vstd::arithmetic::div_mod::lemma_fundamental_div_mod_converse(
            secs - wanted,
            86_400,
            q - 1,
            back,
        );
        vstd::arithmetic::div_mod::lemma_fundamental_div_mod_converse(
            secs - back,
            86_400,
            q - 1,
            wanted,
        );
    }
}

/// The latest instant that is not after `dt` and at which a UTC clock shows `hour:min:sec`.
/// `None` for a time that no clock shows, and for the instants of the first day that can be
/// counted, which have no day before them.
pub fn nearest_time_in_past(dt: &Instant, hour: u8, min: u8, sec: u8) -> (out: Option<Instant>)
    ensures
        out is Some <==> has_day_before(*dt) && hour < 24 && min < 60 && sec < 60,
        out matches Some(t) ==> {
            &&& t == backfilled(*dt, hour, min, sec)
            &&& t.micros == 0
            &&& t.secs <= dt.secs
            &&& dt.secs - t.secs < SECONDS_PER_DAY
            &&& (t.secs as int) % 86_400 == second_of_day(hour, min, sec)
        },
{
    if dt.secs < i64::MIN + SECONDS_PER_DAY || hour >= 24 || min >= 60 || sec >= 60 {
        return None;
    }
    let wanted: i64 = hour as i64 * 3600 + min as i64 * 60 + sec as i64;
    let days: i64;
    let shown: i64;
    if dt.secs >= 0 {
        days = dt.secs / SECONDS_PER_DAY;
        shown = dt.secs % SECONDS_PER_DAY;
    } else {
        let before: i64 = -(dt.secs + 1);
        days = -(before / SECONDS_PER_DAY) - 1;
        shown = SECONDS_PER_DAY - 1 - before % SECONDS_PER_DAY;
    }
    assert(dt.secs == days * 86_400 + shown && 0 <= shown < 86_400);
    let back: i64 = if wanted <= shown {
        shown - wanted
    } else {
        shown + (SECONDS_PER_DAY - wanted)
    };
    proof {
        lemma_seconds_back(dt.secs as int, days as int, shown as int, wanted as int);
    }
    Some(Instant { secs: dt.secs - back, micros: 0 })
}

} // verus!
