//! The sample rates that the receiver's device offers.

use vstd::prelude::*;
use crate::text::{chars_of, parse_decimal, parse_unsigned, split, split_at_char};

verus! {

/// Every rate is followed only by higher ones.
pub open spec fn rising(s: Seq<u64>) -> bool {
    forall|i: int, j: int| 0 <= i < j < s.len() ==> s[i] < s[j]
}

fn insert_rate(v: &mut Vec<u64>, x: u64)
    requires
        rising(old(v)@),
    ensures
        rising(final(v)@),
        forall|y: u64| final(v)@.contains(y) <==> old(v)@.contains(y) || y == x,
{
    let mut p: usize = 0;
    while p < v.len() && v[p] < x
        invariant
            p <= v.len(),
            v@ == old(v)@,
            forall|j: int| 0 <= j < p ==> v@[j] < x,
        decreases v.len() - p,
    {
        p += 1;
    }
    let ghost before = v@;
    if p < v.len() && v[p] == x {
        assert(before.contains(x));
    } else {
        v.insert(p, x);
        proof {
            let after = v@;
            assert(after[p as int] == x);
            assert forall|y: u64| after.contains(y) <==> before.contains(y) || y == x by {
                if before.contains(y) {
                    let i = choose|i: int| 0 <= i < before.len() && before[i] == y;
                    if i < p {
                        assert(after[i] == y);
                    } else {
                        assert(after[i + 1] == y);
                    }
                }
                if after.contains(y) {
                    let j = choose|j: int| 0 <= j < after.len() && after[j] == y;
                    if j < p {
                        assert(before[j] == y);
                    } else if j > p {
                        assert(before[j - 1] == y);
                    }
                }
            }
            assert forall|i: int, j: int| 0 <= i < j < after.len() implies after[i] < after[j] by {
                if j < p {
                    assert(before[i] < before[j]);
                } else if j == p {
                    assert(before[i] < x);
                } else if i < p {
                    assert(before[i] < before[j - 1]);
                } else if i == p {
                    assert(before[p as int] > x);
                    if p < j - 1 {
                        assert(before[p as int] < before[j - 1]);
                    }
                } else {
                    assert(before[i - 1] < before[j - 1]);
                }
            }
        }
    }
}

/// The rates of `v` above 0, each once, lowest first.
pub fn usable_rates(v: &Vec<u64>) -> (out: Vec<u64>)
    ensures
        rising(out@),
        forall|y: u64| out@.contains(y) <==> v@.contains(y) && y > 0,
{
    let mut out: Vec<u64> = Vec::new();
    let mut i: usize = 0;
    while i < v.len()
        invariant
            i <= v.len(),
            rising(out@),
            forall|y: u64| out@.contains(y) <==> v@.take(i as int).contains(y) && y > 0,
        decreases v.len() - i,
    {
        let ghost before = out@;
        if v[i] > 0 {
            insert_rate(&mut out, v[i]);
        }
        proof {
            let head = v@.take(i as int);
            let more = v@.take(i + 1);
            assert(more =~= head.push(v@[i as int]));
            assert forall|y: u64| out@.contains(y) <==> more.contains(y) && y > 0 by {
                if more.contains(y) {
                    let k = choose|k: int| 0 <= k < more.len() && more[k] == y;
                    if k < i {
                        assert(head[k] == y);
                    }
                }
                if head.contains(y) {
                    let k = choose|k: int| 0 <= k < head.len() && head[k] == y;
                    assert(more[k] == y);
                }
                assert(more[i as int] == v@[i as int]);
            }
        }
        i += 1;
    }
    proof {
        assert(v@.take(v.len() as int) =~= v@);
    }
    out
}

/// The rate that a piece of text gives: the number it writes, or 0.
pub open spec fn rate_of(piece: Seq<char>) -> u64 {
    match parse_unsigned(piece, u64::MAX as nat) {
        Some(n) => n as u64,
        None => 0,
    }
}

/// The rates that a text of comma-separated numbers gives, in order.
pub open spec fn listed_rates(text: Seq<char>) -> Seq<u64> {
    Seq::new(split(text, ',').len(), |i: int| rate_of(split(text, ',')[i]))
}

/// The sample rates that a text lists: the numbers above 0 among its comma-separated pieces,
/// each once, lowest first.
pub fn rates_from_text(text: &str) -> (out: Vec<u64>)
    ensures
        rising(out@),
        forall|y: u64| out@.contains(y) <==> listed_rates(text@).contains(y) && y > 0,
{
    let pieces = split_at_char(&chars_of(text), ',');
    let mut rates: Vec<u64> = Vec::new();
    let mut i: usize = 0;
    while i < pieces.len()
        invariant
            i <= pieces.len(),
            pieces@.len() == split(text@, ',').len(),
            forall|k: int| 0 <= k < pieces@.len() ==> (#[trigger] pieces@[k])@ == split(text@, ',')[k],
            rates@.len() == i,
            forall|k: int| 0 <= k < i ==> rates@[k] == rate_of(split(text@, ',')[k]),
        decreases pieces.len() - i,
    {
        assert(pieces@[i as int]@ == split(text@, ',')[i as int]);
        let rate = match parse_decimal(&pieces[i], u64::MAX) {
            Some(n) => n,
            None => 0,
        };
        rates.push(rate);
        i += 1;
    }
    assert(rates@ =~= listed_rates(text@));
    usable_rates(&rates)
}

/// The rate that a range of the device gives: its only rate where the range is a single
/// rate, else 0.
pub open spec fn fixed_rate(range: (u64, u64)) -> u64 {
    if range.0 == range.1 {
        range.1
    } else {
        0
    }
}

/// The rates that the ranges of a device give, in order.
pub open spec fn fixed_rates(ranges: Seq<(u64, u64)>) -> Seq<u64> {
    Seq::new(ranges.len(), |i: int| fixed_rate(ranges[i]))
}

/// The sample rates of a device that reports `ranges`, each from a lowest to a highest
/// rate: the rates above 0 of the ranges that are a single rate, each once, lowest first.
pub fn rates_from_ranges(ranges: &Vec<(u64, u64)>) -> (out: Vec<u64>)
    ensures
        rising(out@),
        forall|y: u64| out@.contains(y) <==> fixed_rates(ranges@).contains(y) && y > 0,
{
    let mut rates: Vec<u64> = Vec::new();
    let mut i: usize = 0;
    while i < ranges.len()
        invariant
            i <= ranges.len(),
            rates@.len() == i,
            forall|k: int| 0 <= k < i ==> rates@[k] == fixed_rate(ranges@[k]),
        decreases ranges.len() - i,
    {
        let (low, high) = ranges[i];
        rates.push(
            if low == high {
                high
            } else {
                0
            },
        );
        i += 1;
    }
    assert(rates@ =~= fixed_rates(ranges@));
    usable_rates(&rates)
}

/// Where the first of `rates` stands that is `wanted` or above, looking from `from` on; the
/// length of `rates` where none is.
pub open spec fn first_rate(rates: Seq<u64>, wanted: u64, from: int) -> int
    decreases rates.len() - from,
{
    if from >= rates.len() {
        rates.len() as int
    } else if rates[from] >= wanted {
        from
    } else {
        first_rate(rates, wanted, from + 1)
    }
}

/// The lowest of `rates` that is `wanted` or above.
pub open spec fn nearest(rates: Seq<u64>, wanted: u64) -> Option<u64> {
    let i = first_rate(rates, wanted, 0);
    if i < rates.len() {
        Some(rates[i])
    } else {
        None
    }
}

pub proof fn lemma_first_rate(rates: Seq<u64>, wanted: u64, from: int)
    requires
        0 <= from <= rates.len(),
    ensures
        from <= first_rate(rates, wanted, from) <= rates.len(),
        first_rate(rates, wanted, from) < rates.len() ==> rates[first_rate(rates, wanted, from)]
            >= wanted,
        forall|i: int| from <= i < first_rate(rates, wanted, from) ==> rates[i] < wanted,
    decreases rates.len() - from,
{
    if from < rates.len() && rates[from] < wanted {
        lemma_first_rate(rates, wanted, from + 1);
    }
}

/// Among rising rates the nearest rate is the lowest that is high enough, and there is none
/// only where no rate is high enough.
pub proof fn lemma_nearest_is_lowest(rates: Seq<u64>, wanted: u64)
    requires
        rising(rates),
    ensures
        nearest(rates, wanted) matches Some(r) ==> rates.contains(r) && r >= wanted && forall|
            i: int,
        | 0 <= i < rates.len() && rates[i] >= wanted ==> r <= rates[i],
        nearest(rates, wanted) is None ==> forall|i: int| 0 <= i < rates.len() ==> rates[i] < wanted,
{
    lemma_first_rate(rates, wanted, 0);
    let k = first_rate(rates, wanted, 0);
    if k < rates.len() {
        assert(rates[k] == nearest(rates, wanted)->0);
        assert forall|i: int| 0 <= i < rates.len() && rates[i] >= wanted implies rates[k]
            <= rates[i] by {
            if i > k {
                assert(rates[k] < rates[i]);
            }
        }
    }
}

/// The lowest of `rates` that is `wanted` or above.
pub fn nearest_rate(rates: &Vec<u64>, wanted: u64) -> (out: Option<u64>)
    ensures
        out == nearest(rates@, wanted),
{
    let mut i: usize = 0;
    while i < rates.len()
        invariant
            i <= rates.len(),
            first_rate(rates@, wanted, 0) == first_rate(rates@, wanted, i as int),
        decreases rates.len() - i,
    {
        if rates[i] >= wanted {
            return Some(rates[i]);
        }
        i += 1;
    }
    None
}

/// The lowest frequency of `band`.
pub open spec fn lowest(band: Seq<u16>) -> u16
    decreases band.len(),
{
    if band.len() <= 1 {
        band[0]
    } else if band.last() < lowest(band.drop_last()) {
        band.last()
    } else {
        lowest(band.drop_last())
    }
}

/// The highest frequency of `band`.
pub open spec fn highest(band: Seq<u16>) -> u16
    decreases band.len(),
{
    if band.len() <= 1 {
        band[0]
    } else if band.last() > highest(band.drop_last()) {
        band.last()
    } else {
        highest(band.drop_last())
    }
}

/// The sample rate that covers `band`: 1200 Hz for each kHz between its lowest and its
/// highest frequency.
pub open spec fn covering_rate(band: Seq<u16>) -> u64 {
    ((highest(band) - lowest(band)) * 1200) as u64
}

/// The lowest of `rates` that covers `band`; none of an empty band.
pub fn rate_for_band(rates: &Vec<u64>, band: &Vec<u16>) -> (out: Option<u64>)
    ensures
        band@.len() == 0 ==> out is None,
        band@.len() > 0 ==> out == nearest(rates@, covering_rate(band@)),
{
    if band.len() == 0 {
        return None;
    }
    let mut low = band[0];
    let mut high = band[0];
    let mut i: usize = 1;
    while i < band.len()
        invariant
            1 <= i <= band.len(),
            low == lowest(band@.take(i as int)),
            high == highest(band@.take(i as int)),
            low <= high,
        decreases band.len() - i,
    {
        proof {
            assert(band@.take(i + 1).drop_last() =~= band@.take(i as int));
            assert(band@.take(i + 1).last() == band@[i as int]);
        }
        if band[i] < low {
            low = band[i];
        }
        if band[i] > high {
            high = band[i];
        }
        i += 1;
    }
    proof {
        assert(band@.take(band.len() as int) =~= band@);
    }
    nearest_rate(rates, (high - low) as u64 * 1200)
}

} // verus!
