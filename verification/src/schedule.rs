//! The session schedule: at which times of day the receiver moves to which band.
//!
//! A schedule is written as entries separated by `;`. An entry reads
//! `time=HH:MM,band_contains=NNNN`, with the hour from 0 to 23 in one or two digits, the
//! minute in two digits, and a frequency in kHz of four or five digits.

use vstd::prelude::*;
use crate::clock::{local_day_at, local_next_day, local_now, LAST_WRITTEN_SECOND};
use crate::text::{
    chars_of, decimal, digit_value, digits_value, is_digit, push_decimal, split, split_at_char,
    string_of,
};

verus! {

/// One entry of a schedule: a time of day and a frequency that the band must contain.
#[derive(Clone, Copy, Debug, PartialEq, Eq, Structural)]
pub struct ScheduleEntry {
    pub hour: u8,
    pub min: u8,
    pub freq: u32,
}

/// Why a schedule was refused. `segment` counts the entries from 0.
#[derive(Clone, Copy, Debug, PartialEq, Eq, Structural)]
pub enum ScheduleError {
    /// The segment holds no entry.
    BadEntry { segment: usize },
    /// The entry's frequency is above 65535 kHz.
    BadFrequency { segment: usize },
    /// The entry's time does not exist on the local calendar today.
    BadTime { segment: usize },
    /// The entry's time has passed today and has no instant on the next day.
    NoNextDay { segment: usize },
}

/// What a segment yields.
#[derive(Clone, Copy, Debug, PartialEq, Eq, Structural)]
pub enum SegmentResult {
    Entry(ScheduleEntry),
    NoEntry,
    FrequencyTooHigh,
}

pub open spec fn time_key() -> Seq<char> {
    seq!['t', 'i', 'm', 'e', '=']
}

pub open spec fn band_key() -> Seq<char> {
    seq![',', 'b', 'a', 'n', 'd', '_', 'c', 'o', 'n', 't', 'a', 'i', 'n', 's', '=']
}

/// Whether `lit` stands in `s` at position `i`.
pub open spec fn literal_at(s: Seq<char>, i: int, lit: Seq<char>) -> bool {
    0 <= i && i + lit.len() <= s.len() && s.subrange(i, i + lit.len()) == lit
}

/// Whether a decimal digit stands in `s` at position `i`.
pub open spec fn digit_at(s: Seq<char>, i: int) -> bool {
    0 <= i < s.len() && is_digit(s[i])
}

/// Whether a colon stands in `s` at position `i`.
pub open spec fn colon_at(s: Seq<char>, i: int) -> bool {
    0 <= i < s.len() && s[i] == ':'
}

/// The number of digits of the hour that begins at `i`: an hour is one digit, or two digits that
/// write a number up to 23, and a colon follows it. 0 where no hour stands there.
pub open spec fn hour_len(s: Seq<char>, i: int) -> int {
    if digit_at(s, i) && colon_at(s, i + 1) {
        1
    } else if digit_at(s, i) && digit_at(s, i + 1) && colon_at(s, i + 2) && digits_value(
        s.subrange(i, i + 2),
    ) <= 23 {
        2
    } else {
        0
    }
}

/// The number of digits of the frequency that begins at `i`: five where five digits stand
/// there, else four; 0 where fewer than four do.
pub open spec fn freq_len(s: Seq<char>, i: int) -> int {
    if digit_at(s, i) && digit_at(s, i + 1) && digit_at(s, i + 2) && digit_at(s, i + 3) {
        if digit_at(s, i + 4) {
            5
        } else {
            4
        }
    } else {
        0
    }
}

/// Whether an entry begins in `s` at position `i`.
pub open spec fn entry_starts(s: Seq<char>, i: int) -> bool {
    let h = i + 5;
    let m = h + hour_len(s, h) + 1;
    let f = m + 2 + 15;
    &&& literal_at(s, i, time_key())
    &&& hour_len(s, h) > 0
    &&& digit_at(s, m)
    &&& s[m] <= '5'
    &&& digit_at(s, m + 1)
    &&& literal_at(s, m + 2, band_key())
    &&& freq_len(s, f) > 0
}

/// The hour of the entry that begins at `i`.
pub open spec fn entry_hour(s: Seq<char>, i: int) -> nat {
    digits_value(s.subrange(i + 5, i + 5 + hour_len(s, i + 5)))
}

/// The minute of the entry that begins at `i`.
pub open spec fn entry_min(s: Seq<char>, i: int) -> nat {
    let m = i + 5 + hour_len(s, i + 5) + 1;
    digits_value(s.subrange(m, m + 2))
}

/// The frequency of the entry that begins at `i`.
pub open spec fn entry_freq(s: Seq<char>, i: int) -> nat {
    let f = i + 5 + hour_len(s, i + 5) + 1 + 2 + 15;
    digits_value(s.subrange(f, f + freq_len(s, f)))
}

/// Where the first entry of `s` begins: the least position at which one starts, or the length
/// of `s` where none does.
pub open spec fn first_entry(s: Seq<char>, from: int) -> int
    decreases s.len() - from,
{
    if from >= s.len() {
        s.len() as int
    } else if entry_starts(s, from) {
        from
    } else {
        first_entry(s, from + 1)
    }
}

/// What the segment `s` yields: its first entry, wherever in the segment it stands.
pub open spec fn segment_result(s: Seq<char>) -> SegmentResult {
    let i = first_entry(s, 0);
    if i >= s.len() {
        SegmentResult::NoEntry
    } else if entry_freq(s, i) > 65535 {
        SegmentResult::FrequencyTooHigh
    } else {
        SegmentResult::Entry(
            ScheduleEntry {
                hour: entry_hour(s, i) as u8,
                min: entry_min(s, i) as u8,
                freq: entry_freq(s, i) as u32,
            },
        )
    }
}

/// Whether the segment `s` yields an entry with the frequency `freq`.
pub open spec fn yields_freq(s: Seq<char>, freq: u32) -> bool {
    segment_result(s) matches SegmentResult::Entry(e) && e.freq == freq
}

/// Whether one of the segments `segs` yields an entry with the frequency `freq`.
pub open spec fn some_segment_yields(segs: Seq<Seq<char>>, freq: u32) -> bool {
    exists|k: int| 0 <= k < segs.len() && yields_freq(#[trigger] segs[k], freq)
}

/// The segments of a schedule.
pub open spec fn segments(text: Seq<char>) -> Seq<Seq<char>> {
    split(text, ';')
}

/// Whether every segment before `upto` yields an entry.
pub open spec fn entries_upto(segs: Seq<Seq<char>>, upto: int) -> bool {
    forall|k: int| 0 <= k < upto ==> segment_result(#[trigger] segs[k]) is Entry
}

fn is_digit_at(s: &Vec<char>, i: usize) -> (out: bool)
    ensures
        out == digit_at(s@, i as int),
{
    i < s.len() && '0' <= s[i] && s[i] <= '9'
}

fn is_literal_at(s: &Vec<char>, i: usize, lit: &Vec<char>) -> (out: bool)
    ensures
        out == literal_at(s@, i as int, lit@),
{
    if lit.len() > s.len() || i > s.len() - lit.len() {
        return false;
    }
    let mut k: usize = 0;
    while k < lit.len()
        invariant
            k <= lit.len(),
            i + lit.len() <= s.len(),
            forall|j: int| 0 <= j < k ==> s@[i + j] == lit@[j],
        decreases lit.len() - k,
    {
        if s[i + k] != lit[k] {
            assert(s@.subrange(i as int, i + lit.len())[k as int] != lit@[k as int]);
            return false;
        }
        k += 1;
    }
    assert(s@.subrange(i as int, i + lit.len()) =~= lit@);
    true
}

/// The number that the digits of `s` from `i` to `i + n` write.
fn digits_at(s: &Vec<char>, i: usize, n: usize) -> (out: u32)
    requires
        n <= 5,
        i + n <= s.len(),
        forall|j: int| i <= j < i + n ==> is_digit(s@[j]),
    ensures
        out as nat == digits_value(s@.subrange(i as int, i + n)),
        out <= 99999,
        n <= 2 ==> out <= 99,
{
    let mut acc: u32 = 0;
    let mut k: usize = 0;
    while k < n
        invariant
            k <= n <= 5,
            i + n <= s.len(),
            forall|j: int| i <= j < i + n ==> is_digit(s@[j]),
            acc as nat == digits_value(s@.subrange(i as int, i + k)),
            k == 0 ==> acc == 0,
            k == 1 ==> acc <= 9,
            k == 2 ==> acc <= 99,
            k == 3 ==> acc <= 999,
            k == 4 ==> acc <= 9999,
            k == 5 ==> acc <= 99999,
        decreases n - k,
    {
        let c = s[i + k];
        proof {
            assert(s@.subrange(i as int, i + k + 1).drop_last() =~= s@.subrange(i as int, i + k));
            assert(s@.subrange(i as int, i + k + 1).last() == c);
            assert(is_digit(c));
        }
        let d: u32 = (c as u8 - 48u8) as u32;
        assert(d as nat == digit_value(c));
        acc = acc * 10 + d;
        k += 1;
    }
    acc
}

fn hour_len_at(s: &Vec<char>, i: usize) -> (out: usize)
    requires
        i <= s.len(),
    ensures
        out as int == hour_len(s@, i as int),
        out <= 2,
{
    if is_digit_at(s, i) && i + 1 < s.len() && s[i + 1] == ':' {
        1
    } else if is_digit_at(s, i) && is_digit_at(s, i + 1) && i + 2 < s.len() && s[i + 2] == ':' {
        if digits_at(s, i, 2) <= 23 {
            2
        } else {
            0
        }
    } else {
        0
    }
}

fn freq_len_at(s: &Vec<char>, i: usize) -> (out: usize)
    requires
        i <= s.len(),
    ensures
        out as int == freq_len(s@, i as int),
        out == 0 || out == 4 || out == 5,
{
    if s.len() >= 4 && i <= s.len() - 4 && is_digit_at(s, i) && is_digit_at(s, i + 1) && is_digit_at(s, i + 2)
        && is_digit_at(s, i + 3) {
        if is_digit_at(s, i + 4) {
            5
        } else {
            4
        }
    } else {
        0
    }
}

fn key_chars(band: bool) -> (out: Vec<char>)
    ensures
        out@ == (if band {
            band_key()
        } else {
            time_key()
        }),
{
    let out = if band {
        vec![',', 'b', 'a', 'n', 'd', '_', 'c', 'o', 'n', 't', 'a', 'i', 'n', 's', '=']
    } else {
        vec!['t', 'i', 'm', 'e', '=']
    };
    assert(out@ =~= (if band {
        band_key()
    } else {
        time_key()
    }));
    out
}

/// Whether an entry begins at `i`, and if so the lengths of its hour and of its frequency.
fn entry_starts_at(s: &Vec<char>, i: usize) -> (out: Option<(usize, usize)>)
    requires
        i < s.len(),
    ensures
        out is Some <==> entry_starts(s@, i as int),
        out matches Some((h, f)) ==> h as int == hour_len(s@, i + 5) && f as int == freq_len(
            s@,
            i + 5 + h + 1 + 2 + 15,
        ),
{
    let time = key_chars(false);
    let band = key_chars(true);
    if !is_literal_at(s, i, &time) {
        return None;
    }
    let h: usize = i + 5;
    let hlen = hour_len_at(s, h);
    if hlen == 0 {
        return None;
    }
    let m: usize = h + hlen + 1;
    if !(is_digit_at(s, m) && s[m] <= '5' && is_digit_at(s, m + 1)) {
        return None;
    }
    if !is_literal_at(s, m + 2, &band) {
        return None;
    }
    let f: usize = m + 2 + 15;
    let flen = freq_len_at(s, f);
    if flen == 0 {
        return None;
    }
    Some((hlen, flen))
}

/// Reads the first entry of a segment.
pub fn parse_segment(s: &Vec<char>) -> (out: SegmentResult)
    ensures
        out == segment_result(s@),
{
    let mut i: usize = 0;
    while i < s.len()
        invariant
            i <= s.len(),
            first_entry(s@, 0) == first_entry(s@, i as int),
        decreases s.len() - i,
    {
        match entry_starts_at(s, i) {
            Some((hlen, flen)) => {
                let h: usize = i + 5;
                let m: usize = h + hlen + 1;
                let f: usize = m + 2 + 15;
                let hour = digits_at(s, h, hlen);
                let min = digits_at(s, m, 2);
                let freq = digits_at(s, f, flen);
                assert(first_entry(s@, 0) == i);
                if freq > 65535 {
                    return SegmentResult::FrequencyTooHigh;
                }
                return SegmentResult::Entry(
                    ScheduleEntry { hour: hour as u8, min: min as u8, freq },
                );
            },
            None => {},
        }
        i += 1;
    }
    SegmentResult::NoEntry
}

/// Reads the entries of a schedule, in the order in which they are written.
pub fn parse_schedule_entries(value: &str) -> (out: Result<Vec<ScheduleEntry>, ScheduleError>)
    ensures
        out matches Ok(entries) ==> {
            &&& entries@.len() == segments(value@).len()
            &&& entries@.len() >= 1
            &&& forall|k: int|
                0 <= k < entries@.len() ==> segment_result(#[trigger] segments(value@)[k])
                    == SegmentResult::Entry(entries@[k])
        },
        out matches Err(e) ==> {
            &&& e is BadEntry || e is BadFrequency
            &&& e matches ScheduleError::BadEntry { segment } ==> segment < segments(value@).len()
                && entries_upto(segments(value@), segment as int) && segment_result(
                segments(value@)[segment as int],
            ) is NoEntry
            &&& e matches ScheduleError::BadFrequency { segment } ==> segment < segments(
                value@,
            ).len() && entries_upto(segments(value@), segment as int) && segment_result(
                segments(value@)[segment as int],
            ) is FrequencyTooHigh
        },
{
    let chars = chars_of(value);
    let segs = split_at_char(&chars, ';');
    let mut entries: Vec<ScheduleEntry> = Vec::new();
    let mut k: usize = 0;
    while k < segs.len()
        invariant
            k <= segs.len(),
            segs@.len() == segments(value@).len(),
            forall|j: int| 0 <= j < segs@.len() ==> (#[trigger] segs@[j])@ == segments(value@)[j],
            entries@.len() == k,
            forall|j: int|
                0 <= j < k ==> segment_result(#[trigger] segments(value@)[j]) == SegmentResult::Entry(
                    entries@[j],
                ),
        decreases segs.len() - k,
    {
        match parse_segment(&segs[k]) {
            SegmentResult::Entry(e) => entries.push(e),
            SegmentResult::NoEntry => {
                return Err(ScheduleError::BadEntry { segment: k });
            },
            SegmentResult::FrequencyTooHigh => {
                return Err(ScheduleError::BadFrequency { segment: k });
            },
        }
        k += 1;
    }
    Ok(entries)
}

/// When an entry's time of day falls: today's instant, and the instant on the next day where
/// there is one. Instants are in seconds since the Unix epoch.
#[derive(Clone, Copy, Debug, PartialEq, Eq, Structural)]
pub struct Occurrence {
    pub today: i64,
    pub next_day: Option<i64>,
    pub freq: u32,
}

/// The next instant of an occurrence: today's where it has not passed at `now`, else the next
/// day's.
pub open spec fn placed(o: Occurrence, now: i64) -> Option<i64> {
    if o.today < now {
        o.next_day
    } else {
        Some(o.today)
    }
}

/// The occurrences as pairs of their next instant and their frequency.
pub open spec fn placed_items(occurrences: Seq<Occurrence>, now: i64) -> Seq<(i64, u32)> {
    Seq::new(occurrences.len(), |k: int| (placed(occurrences[k], now)->0, occurrences[k].freq))
}

/// Every instant is followed only by later ones.
pub open spec fn ordered(v: Seq<(i64, u32)>) -> bool {
    forall|i: int, j: int| 0 <= i < j < v.len() ==> v[i].0 < v[j].0
}

/// `v` holds an entry at the instant `at` with a frequency no higher than `freq`.
#[verifier::opaque]
pub open spec fn covers(v: Seq<(i64, u32)>, at: i64, freq: u32) -> bool {
    exists|j: int| 0 <= j < v.len() && (#[trigger] v[j]).0 == at && v[j].1 <= freq
}

/// `x` is one of the first `upto` of `items`.
#[verifier::opaque]
pub open spec fn among(items: Seq<(i64, u32)>, upto: int, x: (i64, u32)) -> bool {
    exists|i: int| 0 <= i < upto && i < items.len() && #[trigger] items[i] == x
}

/// `v` is the schedule of `items`: ordered by instant, made of items only, and holding for
/// each item an entry at its instant with a frequency no higher than the item's. So `v` has
/// one entry for each instant of `items`, with the lowest frequency given for that instant.
pub open spec fn is_schedule_of(v: Seq<(i64, u32)>, items: Seq<(i64, u32)>) -> bool {
    &&& ordered(v)
    &&& v.len() <= items.len()
    &&& forall|j: int| 0 <= j < v.len() ==> among(items, items.len() as int, #[trigger] v[j])
    &&& forall|k: int| 0 <= k < items.len() ==> covers(v, (#[trigger] items[k]).0, items[k].1)
}

proof fn lemma_covers(v: Seq<(i64, u32)>, j: int, at: i64, freq: u32)
    requires
        0 <= j < v.len(),
        v[j].0 == at,
        v[j].1 <= freq,
    ensures
        covers(v, at, freq),
{
    reveal(covers);
}

proof fn lemma_covered(v: Seq<(i64, u32)>, at: i64, freq: u32) -> (j: int)
    requires
        covers(v, at, freq),
    ensures
        0 <= j < v.len(),
        v[j].0 == at,
        v[j].1 <= freq,
{
    reveal(covers);
    choose|j: int| 0 <= j < v.len() && (#[trigger] v[j]).0 == at && v[j].1 <= freq
}

proof fn lemma_among(items: Seq<(i64, u32)>, upto: int, i: int)
    requires
        0 <= i < upto,
        i < items.len(),
    ensures
        among(items, upto, items[i]),
{
    reveal(among);
}

proof fn lemma_among_more(items: Seq<(i64, u32)>, upto: int, more: int, x: (i64, u32))
    requires
        among(items, upto, x),
        upto <= more,
    ensures
        among(items, more, x),
{
    reveal(among);
    let i = choose|i: int| 0 <= i < upto && i < items.len() && #[trigger] items[i] == x;
    assert(items[i] == x);
}

/// Adds an entry to an ordered schedule. Of two entries at one instant the one with the lower
/// frequency stays.
fn insert_entry(v: &mut Vec<(i64, u32)>, at: i64, freq: u32)
    requires
        ordered(old(v)@),
    ensures
        ordered(final(v)@),
        final(v)@.len() <= old(v)@.len() + 1,
        forall|j: int|
            0 <= j < final(v)@.len() ==> (#[trigger] final(v)@[j]) == (at, freq) || among(
                old(v)@,
                old(v)@.len() as int,
                final(v)@[j],
            ),
        covers(final(v)@, at, freq),
        forall|i: int|
            0 <= i < old(v)@.len() ==> covers(final(v)@, (#[trigger] old(v)@[i]).0, old(v)@[i].1),
{
    let mut p: usize = 0;
    while p < v.len() && v[p].0 < at
        invariant
            p <= v.len(),
            v@ == old(v)@,
            forall|j: int| 0 <= j < p ==> v@[j].0 < at,
        decreases v.len() - p,
    {
        p += 1;
    }
    let ghost before = v@;
    if p < v.len() && v[p].0 == at {
        if freq < v[p].1 {
            v.set(p, (at, freq));
        }
        proof {
            let after = v@;
            assert(after.len() == before.len());
            lemma_covers(after, p as int, at, freq);
            assert forall|i: int| 0 <= i < before.len() implies covers(
                after,
                (#[trigger] before[i]).0,
                before[i].1,
            ) by {
                lemma_covers(after, i, before[i].0, before[i].1);
            }
            assert forall|j: int| 0 <= j < after.len() implies (#[trigger] after[j]) == (at, freq)
                || among(before, before.len() as int, after[j]) by {
                if after[j] != (at, freq) {
                    assert(after[j] == before[j]);
                    lemma_among(before, before.len() as int, j);
                }
            }
            assert forall|i: int, j: int| 0 <= i < j < after.len() implies after[i].0
                < after[j].0 by {
                assert(after[i].0 == before[i].0);
                assert(after[j].0 == before[j].0);
            }
        }
    } else {
        v.insert(p, (at, freq));
        proof {
            let after = v@;
            assert(after == before.insert(p as int, (at, freq)));
            lemma_covers(after, p as int, at, freq);
            assert forall|i: int| 0 <= i < before.len() implies covers(
                after,
                (#[trigger] before[i]).0,
                before[i].1,
            ) by {
                if i < p {
                    lemma_covers(after, i, before[i].0, before[i].1);
                } else {
                    lemma_covers(after, i + 1, before[i].0, before[i].1);
                }
            }
            assert forall|j: int| 0 <= j < after.len() implies (#[trigger] after[j]) == (at, freq)
                || among(before, before.len() as int, after[j]) by {
                if j < p {
                    lemma_among(before, before.len() as int, j);
                } else if j > p {
                    lemma_among(before, before.len() as int, j - 1);
                }
            }
            assert forall|i: int, j: int| 0 <= i < j < after.len() implies after[i].0
                < after[j].0 by {
                if j < p {
                    assert(before[i].0 < before[j].0);
                } else if j == p {
                    assert(before[i].0 < at);
                } else if i < p {
                    assert(before[i].0 < before[j - 1].0);
                } else if i == p {
                    assert(before[p as int].0 > at);
                    if p < j - 1 {
                        assert(before[p as int].0 < before[j - 1].0);
                    }
                } else {
                    assert(before[i - 1].0 < before[j - 1].0);
                }
            }
        }
    }
}

/// Orders `items` into a schedule: earliest first, one entry for each instant.
pub fn order_schedule(items: &Vec<(i64, u32)>) -> (v: Vec<(i64, u32)>)
    ensures
        is_schedule_of(v@, items@),
{
    let mut v: Vec<(i64, u32)> = Vec::new();
    let mut k: usize = 0;
    while k < items.len()
        invariant
            k <= items.len(),
            ordered(v@),
            v@.len() <= k,
            forall|j: int| 0 <= j < v@.len() ==> among(items@, k as int, #[trigger] v@[j]),
            forall|i: int| 0 <= i < k ==> covers(v@, (#[trigger] items@[i]).0, items@[i].1),
        decreases items.len() - k,
    {
        let ghost before = v@;
        let (at, freq) = items[k];
        insert_entry(&mut v, at, freq);
        proof {
            let after = v@;
            assert forall|j: int| 0 <= j < after.len() implies among(
                items@,
                k + 1,
                #[trigger] after[j],
            ) by {
                if after[j] == (at, freq) {
                    lemma_among(items@, k + 1, k as int);
                } else {
                    reveal(among);
                    let j0 = choose|j0: int|
                        0 <= j0 < before.len() && j0 < before.len() && #[trigger] before[j0]
                            == after[j];
                    lemma_among_more(items@, k as int, k + 1, before[j0]);
                }
            }
            assert forall|i: int| 0 <= i < k + 1 implies covers(
                after,
                (#[trigger] items@[i]).0,
                items@[i].1,
            ) by {
                if i < k {
                    let j0 = lemma_covered(before, items@[i].0, items@[i].1);
                    let j1 = lemma_covered(after, before[j0].0, before[j0].1);
                    lemma_covers(after, j1, items@[i].0, items@[i].1);
                }
            }
        }
        k += 1;
    }
    v
}

/// Lays the occurrences out as a schedule for the day that begins at `now`: each at its next
/// instant, one entry for each instant, earliest first.
pub fn schedule_from_occurrences(now: i64, occurrences: &Vec<Occurrence>) -> (out: Result<
    Vec<(i64, u32)>,
    ScheduleError,
>)
    ensures
        out matches Ok(v) ==> {
            &&& forall|k: int|
                0 <= k < occurrences@.len() ==> placed(#[trigger] occurrences@[k], now) is Some
            &&& is_schedule_of(v@, placed_items(occurrences@, now))
        },
        out matches Err(e) ==> e matches ScheduleError::NoNextDay { segment } && segment
            < occurrences@.len() && placed(occurrences@[segment as int], now) is None && forall|
            k: int,
        | 0 <= k < segment ==> placed(#[trigger] occurrences@[k], now) is Some,
{
    let mut items: Vec<(i64, u32)> = Vec::new();
    let mut k: usize = 0;
    while k < occurrences.len()
        invariant
            k <= occurrences.len(),
            items@.len() == k,
            forall|i: int| 0 <= i < k ==> placed(#[trigger] occurrences@[i], now) is Some,
            forall|i: int| 0 <= i < k ==> #[trigger] items@[i] == placed_items(occurrences@, now)[i],
        decreases occurrences.len() - k,
    {
        let o = occurrences[k];
        let at: i64 = if o.today < now {
            match o.next_day {
                Some(t) => t,
                None => {
                    return Err(ScheduleError::NoNextDay { segment: k });
                },
            }
        } else {
            o.today
        };
        items.push((at, o.freq));
        k += 1;
    }
    assert(items@ =~= placed_items(occurrences@, now));
    Ok(order_schedule(&items))
}

/// Reads a schedule and lays it out from the current instant on the machine's local
/// calendar: each entry at its next instant within a day, one entry for each instant,
/// earliest first.
///
/// A text that the grammar refuses is refused with the first segment at fault, whatever the
/// clock shows. Of a text that the grammar accepts the clock decides: the layout fails where
/// the machine's calendar has no such local time, or no day after it.
pub fn parse_session_schedule(value: &str) -> (out: Result<Vec<(i64, u32)>, ScheduleError>)
    ensures
        out matches Ok(v) ==> {
            &&& ordered(v@)
            &&& 1 <= v@.len() <= segments(value@).len()
            &&& entries_upto(segments(value@), segments(value@).len() as int)
            &&& forall|j: int|
                0 <= j < v@.len() ==> some_segment_yields(segments(value@), (#[trigger] v@[j]).1)
        },
        out matches Err(e) ==> {
            &&& e matches ScheduleError::BadEntry { segment } ==> segment < segments(value@).len()
                && entries_upto(segments(value@), segment as int) && segment_result(
                segments(value@)[segment as int],
            ) is NoEntry
            &&& e matches ScheduleError::BadFrequency { segment } ==> segment < segments(
                value@,
            ).len() && entries_upto(segments(value@), segment as int) && segment_result(
                segments(value@)[segment as int],
            ) is FrequencyTooHigh
            &&& e matches ScheduleError::BadTime { segment } ==> segment < segments(value@).len()
            &&& e matches ScheduleError::NoNextDay { segment } ==> segment < segments(value@).len()
        },
        !entries_upto(segments(value@), segments(value@).len() as int) <==> (out matches Err(e)
            && (e is BadEntry || e is BadFrequency)),
{
    let entries = match parse_schedule_entries(value) {
        Ok(entries) => entries,
        Err(e) => {
            return Err(e);
        },
    };
    let now = local_now();
    if now < 0 || now > LAST_WRITTEN_SECOND {
        return Err(ScheduleError::BadTime { segment: 0 });
    }
    let mut occurrences: Vec<Occurrence> = Vec::new();
    let mut k: usize = 0;
    while k < entries.len()
        invariant
            k <= entries.len(),
            0 <= now <= LAST_WRITTEN_SECOND,
            entries@.len() == segments(value@).len(),
            entries_upto(segments(value@), segments(value@).len() as int),
            occurrences@.len() == k,
            forall|i: int| 0 <= i < k ==> (#[trigger] occurrences@[i]).freq == entries@[i].freq,
        decreases entries.len() - k,
    {
        let e = entries[k];
        let today = match local_day_at(now, e.hour, e.min) {
            Some(t) => t,
            None => {
                return Err(ScheduleError::BadTime { segment: k });
            },
        };
        occurrences.push(Occurrence { today, next_day: local_next_day(today), freq: e.freq });
        k += 1;
    }
    match schedule_from_occurrences(now, &occurrences) {
        Ok(v) => {
            proof {
                let items = placed_items(occurrences@, now);
                assert(covers(v@, items[0].0, items[0].1));
                reveal(covers);
                assert forall|j: int| 0 <= j < v@.len() implies some_segment_yields(
                    segments(value@),
                    (#[trigger] v@[j]).1,
                ) by {
                    reveal(among);
                    let i = choose|i: int|
                        0 <= i < items.len() && i < items.len() && #[trigger] items[i] == v@[j];
                    assert(segment_result(segments(value@)[i]) == SegmentResult::Entry(
                        entries@[i],
                    ));
                    assert(yields_freq(segments(value@)[i], v@[j].1));
                }
            }
            Ok(v)
        },
        Err(e) => Err(e),
    }
}

impl ScheduleError {
    /// The number of the segment that was refused, counted from 0.
    pub open spec fn place(self) -> usize {
        match self {
            ScheduleError::BadEntry { segment } => segment,
            ScheduleError::BadFrequency { segment } => segment,
            ScheduleError::BadTime { segment } => segment,
            ScheduleError::NoNextDay { segment } => segment,
        }
    }

    /// What is wrong with the segment.
    pub open spec fn fault(self) -> Seq<char> {
        match self {
            ScheduleError::BadEntry { .. } => "Bad schedule entry format"@,
            ScheduleError::BadFrequency { .. } => "Bad target frequency"@,
            ScheduleError::BadTime { .. } => "Bad local time"@,
            ScheduleError::NoNextDay { .. } => "Failed to find next session switch"@,
        }
    }

    /// The error for a reader: what is wrong, and the number of the segment.
    pub open spec fn text(self) -> Seq<char> {
        self.fault() + ": segment "@ + decimal(self.place() as nat)
    }

    /// The error for a reader.
    pub fn message(&self) -> (out: String)
        ensures
            out@ == self.text(),
    {
        let (fault, segment): (&str, usize) = match self {
            ScheduleError::BadEntry { segment } => ("Bad schedule entry format", *segment),
            ScheduleError::BadFrequency { segment } => ("Bad target frequency", *segment),
            ScheduleError::BadTime { segment } => ("Bad local time", *segment),
            ScheduleError::NoNextDay { segment } => ("Failed to find next session switch", *segment),
        };
        let mut v = chars_of(fault);
        let mut mid = chars_of(": segment ");
        v.append(&mut mid);
        push_decimal(&mut v, segment as u64);
        assert(v@ =~= self.text());
        string_of(&v)
    }
}

} // verus!
