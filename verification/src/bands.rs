//! Band planning: packing frequencies into bands that one decoder can cover.

use vstd::prelude::*;
use crate::text::{decimal, push_decimal, string_of};

verus! {

/// The widest span, in kHz, that one decoder instance covers at `sample_rate` Hz:
/// nine tenths of the sample rate, in whole kHz.
pub open spec fn max_dist_khz(sample_rate: u32) -> int {
    (sample_rate as int * 9) / 10000
}

pub fn get_max_dist_khz_by_sample_rate(sample_rate: u32) -> (dist: u32)
    ensures
        dist as int == max_dist_khz(sample_rate),
{
    let wide: u64 = sample_rate as u64 * 9;
    (wide / 10000) as u32
}

/// No frequency is followed by a lower one.
pub open spec fn ascending(s: Seq<u16>) -> bool {
    forall|i: int, j: int| 0 <= i < j < s.len() ==> s[i] <= s[j]
}

/// Every frequency is followed only by higher ones.
pub open spec fn strictly_ascending(s: Seq<u16>) -> bool {
    forall|i: int, j: int| 0 <= i < j < s.len() ==> s[i] < s[j]
}

/// The name of a band: its only frequency, or its lowest and highest joined by a hyphen.
pub open spec fn band_label(band: Seq<u16>) -> Seq<char> {
    if band.first() == band.last() {
        decimal(band.first() as nat)
    } else {
        decimal(band.first() as nat) + seq!['-'] + decimal(band.last() as nat)
    }
}

/// A set of frequencies, in kHz, that one decoder instance listens to at once.
#[derive(Debug, PartialEq, Eq)]
pub struct Band {
    pub label: String,
    pub freqs: Vec<u16>,
}

impl Band {
    /// A band holds at least one frequency, lowest first, spans no more than `max_dist` kHz
    /// and carries the label of its frequencies.
    pub open spec fn wf(self, max_dist: int) -> bool {
        &&& self.freqs@.len() > 0
        &&& ascending(self.freqs@)
        &&& self.freqs@.last() - self.freqs@.first() <= max_dist
        &&& self.label@ == band_label(self.freqs@)
    }
}

/// The frequency lists of `bands`, in order.
pub open spec fn band_seqs(bands: Seq<Band>) -> Seq<Seq<u16>> {
    Seq::new(bands.len(), |k: int| bands[k].freqs@)
}

/// How many frequencies the band takes that begins with the first of `f`: it takes the next
/// frequency as long as that lies within `max_dist` of the first. `i` is the number taken so
/// far.
pub open spec fn run_from(f: Seq<u16>, i: int, max_dist: int) -> int
    decreases f.len() - i,
{
    if i < 0 || i >= f.len() || f[i] - f[0] > max_dist {
        i
    } else {
        run_from(f, i + 1, max_dist)
    }
}

/// The frequencies `f` packed into bands, lowest first: each band takes frequencies as long
/// as they lie within `max_dist` of its first.
pub open spec fn packed(f: Seq<u16>, max_dist: int) -> Seq<Seq<u16>>
    decreases f.len(),
{
    let n = run_from(f, 1, max_dist);
    if f.len() == 0 || !(1 <= n <= f.len()) {
        Seq::empty()
    } else {
        seq![f.take(n)] + packed(f.skip(n), max_dist)
    }
}

proof fn lemma_run_from(f: Seq<u16>, i: int, max_dist: int, n: int)
    requires
        1 <= i <= n <= f.len(),
        forall|k: int| i <= k < n ==> #[trigger] f[k] - f[0] <= max_dist,
        n == f.len() || f[n] - f[0] > max_dist,
    ensures
        run_from(f, i, max_dist) == n,
    decreases n - i,
{
    if i < n {
        lemma_run_from(f, i + 1, max_dist, n);
    }
}

/// There is one way only to cut ascending frequencies into bands of which each spans no
/// more than `max_dist` and each begins more than `max_dist` above the beginning of the one
/// before it.
pub proof fn lemma_packing_is_unique(f: Seq<u16>, bands: Seq<Seq<u16>>, max_dist: int)
    requires
        ascending(f),
        bands.flatten() == f,
        forall|k: int| 0 <= k < bands.len() ==> (#[trigger] bands[k]).len() > 0,
        forall|k: int|
            0 <= k < bands.len() ==> (#[trigger] bands[k]).last() - bands[k].first() <= max_dist,
        forall|k: int|
            0 <= k < bands.len() - 1 ==> (#[trigger] bands[k + 1]).first() - bands[k].first()
                > max_dist,
    ensures
        bands == packed(f, max_dist),
    decreases bands.len(),
{
    if bands.len() == 0 {
        assert(f.len() == 0);
        assert(bands =~= packed(f, max_dist));
    } else {
        let b = bands[0];
        let rest = bands.drop_first();
        let tail = rest.flatten();
        assert(f == b + tail);
        assert(b.len() > 0);
        assert forall|k: int| 0 <= k < b.len() implies #[trigger] f[k] - f[0] <= max_dist by {
            assert(f[k] == b[k]);
            assert(f[b.len() - 1] == b.last());
            if k < b.len() - 1 {
                assert(f[k] <= f[b.len() - 1]);
            }
        }
        if rest.len() > 0 {
            assert(rest[0] == bands[1]);
            assert(bands[0int + 1].first() - bands[0].first() > max_dist);
            assert(rest[0].len() > 0);
            assert(tail == rest[0] + rest.drop_first().flatten());
            assert(f[b.len() as int] == rest[0][0]);
        } else {
            assert(tail.len() == 0);
        }
        lemma_run_from(f, 1, max_dist, b.len() as int);
        assert(f.take(b.len() as int) =~= b);
        assert(f.skip(b.len() as int) =~= tail);
        assert(ascending(tail)) by {
            assert forall|i: int, j: int| 0 <= i < j < tail.len() implies tail[i] <= tail[j] by {
                assert(tail[i] == f[b.len() + i] && tail[j] == f[b.len() + j]);
            }
        }
        assert forall|k: int| 0 <= k < rest.len() implies (#[trigger] rest[k]).len() > 0 && rest[k].last()
            - rest[k].first() <= max_dist by {
            assert(rest[k] == bands[k + 1]);
        }
        assert forall|k: int| 0 <= k < rest.len() - 1 implies (#[trigger] rest[k + 1]).first()
            - rest[k].first() > max_dist by {
            assert(rest[k] == bands[k + 1]);
            assert(rest[k + 1] == bands[k + 1 + 1]);
        }
        lemma_packing_is_unique(tail, rest, max_dist);
        assert(bands =~= seq![b] + rest);
    }
}

fn make_band(freqs: Vec<u16>) -> (band: Band)
    requires
        freqs@.len() > 0,
    ensures
        band.freqs@ == freqs@,
        band.label@ == band_label(freqs@),
{
    let first = freqs[0];
    let last = freqs[freqs.len() - 1];
    let mut text: Vec<char> = Vec::new();
    push_decimal(&mut text, first as u64);
    if first != last {
        text.push('-');
        push_decimal(&mut text, last as u64);
    }
    assert(text@ =~= band_label(freqs@));
    Band { label: string_of(&text), freqs }
}

/// Packs `freqs` into bands, lowest first: a band takes the next frequency as long as it lies
/// within `max_dist_khz(sample_rate)` of the band's lowest, and otherwise the next band begins.
pub fn freq_bands_by_sample_rate(freqs: &Vec<u16>, sample_rate: u32) -> (out: Vec<Band>)
    requires
        ascending(freqs@),
    ensures
        band_seqs(out@) == packed(freqs@, max_dist_khz(sample_rate)),
        band_seqs(out@).flatten() == freqs@,
        forall|k: int| 0 <= k < out@.len() ==> (#[trigger] out@[k]).wf(max_dist_khz(sample_rate)),
        forall|k: int|
            0 <= k < out@.len() - 1 ==> (#[trigger] out@[k + 1]).freqs@.first() - out@[k].freqs@.first()
                > max_dist_khz(sample_rate),
        strictly_ascending(freqs@) ==> forall|k: int|
            0 <= k < out@.len() ==> strictly_ascending((#[trigger] out@[k]).freqs@),
{
    let max_dist = get_max_dist_khz_by_sample_rate(sample_rate);
    let mut out: Vec<Band> = Vec::new();
    let mut cur: Vec<u16> = Vec::new();
    let mut i: usize = 0;
    proof {
        assert(band_seqs(out@) =~= Seq::<Seq<u16>>::empty());
        assert(band_seqs(out@).flatten() + cur@ =~= freqs@.take(0));
    }
    while i < freqs.len()
        invariant
            i <= freqs.len(),
            max_dist as int == max_dist_khz(sample_rate),
            ascending(freqs@),
            band_seqs(out@).flatten() + cur@ == freqs@.take(i as int),
            i == 0 ==> cur@.len() == 0 && out@.len() == 0,
            i > 0 ==> cur@.len() > 0 && cur@.last() == freqs@[i - 1],
            ascending(cur@),
            strictly_ascending(freqs@) ==> strictly_ascending(cur@),
            cur@.len() > 0 ==> cur@.last() - cur@.first() <= max_dist,
            forall|k: int| 0 <= k < out@.len() ==> (#[trigger] out@[k]).wf(max_dist as int),
            forall|k: int|
                0 <= k < out@.len() - 1 ==> (#[trigger] out@[k + 1]).freqs@.first()
                    - out@[k].freqs@.first() > max_dist,
            out@.len() > 0 ==> cur@.len() > 0 && cur@.first() - out@.last().freqs@.first() > max_dist,
            strictly_ascending(freqs@) ==> forall|k: int|
                0 <= k < out@.len() ==> strictly_ascending((#[trigger] out@[k]).freqs@),
        decreases freqs.len() - i,
    {
        let f = freqs[i];
        let ghost old_out = out@;
        let ghost old_cur = cur@;
        proof {
            assert(freqs@.take(i + 1) =~= freqs@.take(i as int).push(f));
        }
        if cur.len() > 0 && (f - cur[0]) as u32 > max_dist {
            let band = make_band(cur);
            out.push(band);
            cur = Vec::new();
            proof {
                assert(band_seqs(out@) =~= band_seqs(old_out).push(old_cur));
                band_seqs(old_out).lemma_flatten_push(old_cur);
            }
        }
        cur.push(f);
        proof {
            assert(band_seqs(out@).flatten() + cur@ =~= freqs@.take(i + 1));
        }
        i += 1;
    }
    if cur.len() > 0 {
        let ghost old_out = out@;
        let ghost old_cur = cur@;
        let band = make_band(cur);
        out.push(band);
        proof {
            assert(band_seqs(out@) =~= band_seqs(old_out).push(old_cur));
            band_seqs(old_out).lemma_flatten_push(old_cur);
            assert(freqs@.take(freqs.len() as int) =~= freqs@);
            assert(old_cur + Seq::<u16>::empty() =~= old_cur);
        }
    } else {
        proof {
            assert(freqs@.take(0) =~= freqs@);
            assert(band_seqs(out@).flatten() + cur@ =~= band_seqs(out@).flatten());
        }
    }
    proof {
        let seqs = band_seqs(out@);
        assert forall|k: int| 0 <= k < seqs.len() implies (#[trigger] seqs[k]).len() > 0 && seqs[k].last()
            - seqs[k].first() <= max_dist by {
            assert(out@[k].wf(max_dist as int));
        }
        assert forall|k: int| 0 <= k < seqs.len() - 1 implies (#[trigger] seqs[k + 1]).first()
            - seqs[k].first() > max_dist by {
            assert(out@[k + 1].freqs@.first() - out@[k].freqs@.first() > max_dist);
        }
        lemma_packing_is_unique(freqs@, seqs, max_dist as int);
    }
    out
}

/// The first of `freqs` that is `target_freq` or above, if there is one.
pub fn first_freq_above_eq(freqs: &Vec<u16>, target_freq: u16) -> (out: Option<u16>)
    ensures
        out is None <==> forall|i: int| 0 <= i < freqs@.len() ==> freqs@[i] < target_freq,
        out matches Some(f) ==> exists|i: int|
            0 <= i < freqs@.len() && freqs@[i] == f && f >= target_freq && forall|j: int|
                0 <= j < i ==> freqs@[j] < target_freq,
{
    let mut i: usize = 0;
    while i < freqs.len()
        invariant
            i <= freqs.len(),
            forall|j: int| 0 <= j < i ==> freqs@[j] < target_freq,
        decreases freqs.len() - i,
    {
        if freqs[i] >= target_freq {
            return Some(freqs[i]);
        }
        i += 1;
    }
    None
}

} // verus!
