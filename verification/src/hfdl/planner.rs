//! Which band the next session listens to.

use vstd::prelude::*;
use crate::bands::{ascending, band_seqs, strictly_ascending, Band};
use crate::events::StationIdModel;
use crate::random::pick;
use crate::stations::{
    current_of, find_station, keep_fresh, models_of, position_of_station, FreqInfo,
    GroundStation, StationModel,
};
use crate::validators::SessionMethod;

verus! {

/// The lowest frequency of each band, in the order of the bands.
pub open spec fn heads(bands: Seq<Seq<u16>>) -> Seq<u16> {
    Seq::new(bands.len(), |i: int| bands[i][0])
}

pub fn band_heads(bands: &Vec<Band>) -> (out: Vec<u16>)
    requires
        forall|i: int| 0 <= i < bands@.len() ==> (#[trigger] bands@[i]).freqs@.len() > 0,
    ensures
        out@ == heads(band_seqs(bands@)),
{
    let mut out: Vec<u16> = Vec::new();
    let mut i: usize = 0;
    while i < bands.len()
        invariant
            i <= bands.len(),
            forall|k: int| 0 <= k < bands@.len() ==> (#[trigger] bands@[k]).freqs@.len() > 0,
            out@.len() == i,
            forall|k: int| 0 <= k < i ==> out@[k] == bands@[k].freqs@[0],
        decreases bands.len() - i,
    {
        assert(bands@[i as int].freqs@.len() > 0);
        out.push(bands[i].freqs[0]);
        i += 1;
    }
    assert(out@ =~= heads(band_seqs(bands@)));
    out
}

/// Where the first of `c` stands that is `x` or above, looking from `from` on; the length of
/// `c` where none is.
pub open spec fn first_at_or_above(c: Seq<u16>, x: u64, from: int) -> int
    decreases c.len() - from,
{
    if from >= c.len() {
        c.len() as int
    } else if c[from] as u64 >= x {
        from
    } else {
        first_at_or_above(c, x, from + 1)
    }
}

/// The band head that follows the one at or above `last_head` when going up, or the one
/// before it when going down; past either end the rotation begins again at the other. None
/// where no band head is at or above `last_head`.
pub open spec fn rotated(c: Seq<u16>, last_head: u64, up: bool) -> Option<u16> {
    let i = first_at_or_above(c, last_head, 0);
    if i >= c.len() {
        None
    } else if up {
        if i + 1 >= c.len() {
            Some(c[0])
        } else {
            Some(c[i + 1])
        }
    } else {
        if i == 0 {
            Some(c[c.len() - 1])
        } else {
            Some(c[i - 1])
        }
    }
}

/// The band head to move to from `last_head`, up or down.
pub fn rotate(candidates: &Vec<u16>, last_head: u64, up: bool) -> (out: Option<u16>)
    ensures
        out == rotated(candidates@, last_head, up),
{
    let mut i: usize = 0;
    while i < candidates.len() && (candidates[i] as u64) < last_head
        invariant
            i <= candidates.len(),
            first_at_or_above(candidates@, last_head, 0) == first_at_or_above(
                candidates@,
                last_head,
                i as int,
            ),
        decreases candidates.len() - i,
    {
        i += 1;
    }
    if i >= candidates.len() {
        None
    } else if up {
        if i + 1 >= candidates.len() {
            Some(candidates[0])
        } else {
            Some(candidates[i + 1])
        }
    } else {
        if i == 0 {
            Some(candidates[candidates.len() - 1])
        } else {
            Some(candidates[i - 1])
        }
    }
}

/// The band heads of `c` other than `a` and `b`, in order.
pub open spec fn without(c: Seq<u16>, a: u64, b: u64) -> Seq<u64>
    decreases c.len(),
{
    if c.len() == 0 {
        Seq::empty()
    } else if c.last() as u64 != a && c.last() as u64 != b {
        without(c.drop_last(), a, b).push(c.last() as u64)
    } else {
        without(c.drop_last(), a, b)
    }
}

pub fn exclude(candidates: &Vec<u16>, a: u64, b: u64) -> (out: Vec<u64>)
    ensures
        out@ == without(candidates@, a, b),
{
    let mut out: Vec<u64> = Vec::new();
    let mut i: usize = 0;
    while i < candidates.len()
        invariant
            i <= candidates.len(),
            out@ == without(candidates@.take(i as int), a, b),
        decreases candidates.len() - i,
    {
        proof {
            assert(candidates@.take(i + 1).drop_last() =~= candidates@.take(i as int));
            assert(candidates@.take(i + 1).last() == candidates@[i as int]);
        }
        let x = candidates[i] as u64;
        if x != a && x != b {
            out.push(x);
        }
        i += 1;
    }
    proof {
        assert(candidates@.take(candidates.len() as int) =~= candidates@);
    }
    out
}

/// The frequencies of `active` that are none of `band`, in order.
pub open spec fn outside_band(active: Seq<FreqInfo>, band: Seq<u64>) -> Seq<u64>
    decreases active.len(),
{
    if active.len() == 0 {
        Seq::empty()
    } else if !band.contains(active.last().khz) {
        outside_band(active.drop_last(), band).push(active.last().khz)
    } else {
        outside_band(active.drop_last(), band)
    }
}

pub fn frequencies_outside(active: &Vec<FreqInfo>, band: &Vec<u64>) -> (out: Vec<u64>)
    ensures
        out@ == outside_band(active@, band@),
{
    let mut out: Vec<u64> = Vec::new();
    let mut i: usize = 0;
    while i < active.len()
        invariant
            i <= active.len(),
            out@ == outside_band(active@.take(i as int), band@),
        decreases active.len() - i,
    {
        proof {
            assert(active@.take(i + 1).drop_last() =~= active@.take(i as int));
            assert(active@.take(i + 1).last() == active@[i as int]);
        }
        if !crate::stations::contains_khz(band, active[i].khz) {
            out.push(active[i].khz);
        }
        i += 1;
    }
    proof {
        assert(active@.take(active.len() as int) =~= active@);
    }
    out
}

/// The policy found no band to move to.
#[derive(Clone, Copy, Debug, PartialEq, Eq, Structural)]
pub struct NoCandidates;

/// What the policy chose: the frequency that the next band must contain, 0 for no wish, and
/// the band head that the next random choice leaves out.
#[derive(Clone, Copy, Debug, PartialEq, Eq, Structural)]
pub struct Choice {
    pub band: u64,
    pub last_random: u64,
}

/// The first frequency of the band that the last session listened to.
pub open spec fn head_of(listening: Option<Seq<u64>>) -> Option<u64> {
    match listening {
        Some(l) => if l.len() > 0 {
            Some(l[0])
        } else {
            None
        },
        None => None,
    }
}

/// The frequencies of a band that may be missing.
pub open spec fn band_model(listening: Option<Vec<u64>>) -> Option<Seq<u64>> {
    match listening {
        Some(l) => Some(l@),
        None => None,
    }
}

/// The band heads among which a random choice is made: all of them before the first
/// session, and afterwards all but the head of the last band and the one that the choice
/// before left out.
pub open spec fn random_pool(candidates: Seq<u16>, listening: Option<Seq<u64>>, last_random: u64) -> Seq<
    u64,
> {
    match head_of(listening) {
        Some(h) => if candidates.len() > 0 {
            without(candidates, h, last_random)
        } else {
            Seq::empty()
        },
        None => without(candidates, 0, 0),
    }
}

/// The frequencies among which a choice is made that tracks the station `n`: those on which
/// the station is active at `now` and that are none of the last band.
pub open spec fn tracked_pool(
    stations: Seq<StationModel>,
    n: u32,
    listening: Seq<u64>,
    now: i64,
    stale_secs: i64,
) -> Seq<u64> {
    outside_band(current_of(stations, StationIdModel::Number(n as u64), now, stale_secs), listening)
}

/// Whether the registry holds the station with the number `n`.
pub open spec fn is_known(stations: Seq<StationModel>, n: u32) -> bool {
    find_station(stations, StationIdModel::Number(n as u64), 0) < stations.len()
}

/// The frequencies among which the session method draws at random, where it does draw:
/// the random method draws from the band heads, and tracking draws from the frequencies of
/// the tracked station, where the last band and the station are known.
pub open spec fn pool_of(
    method: Option<SessionMethod>,
    candidates: Seq<u16>,
    listening: Option<Seq<u64>>,
    last_random: u64,
    stations: Seq<StationModel>,
    now: i64,
    stale_secs: i64,
) -> Option<Seq<u64>> {
    match method {
        Some(SessionMethod::Random) => Some(random_pool(candidates, listening, last_random)),
        Some(SessionMethod::Track(n)) => match listening {
            Some(l) => if is_known(stations, n) {
                Some(tracked_pool(stations, n, l, now, stale_secs))
            } else {
                None
            },
            None => None,
        },
        _ => None,
    }
}

/// The frequency that the session method wishes for where it does not draw: for rotation
/// the band head that it moves to from the head of the last band, for the method that keeps
/// the band the head of the last band, and else none.
pub open spec fn fixed_choice(method: Option<SessionMethod>, candidates: Seq<u16>, listening: Option<Seq<u64>>) -> u64 {
    if method == Some(SessionMethod::Inc) || method == Some(SessionMethod::Dec) {
        match head_of(listening) {
            Some(h) => match rotated(candidates, h, method == Some(SessionMethod::Inc)) {
                Some(b) => b as u64,
                None => 0,
            },
            None => 0,
        }
    } else if method == Some(SessionMethod::Static) {
        match head_of(listening) {
            Some(h) => h,
            None => 0,
        }
    } else {
        0
    }
}

/// The band head that the next random choice leaves out: after a random choice, the head of
/// the last band, where there was one.
pub open spec fn next_random(
    method: Option<SessionMethod>,
    candidates: Seq<u16>,
    listening: Option<Seq<u64>>,
    last_random: u64,
) -> u64 {
    if method == Some(SessionMethod::Random) {
        match head_of(listening) {
            Some(h) => if candidates.len() > 0 {
                h
            } else {
                last_random
            },
            None => last_random,
        }
    } else {
        last_random
    }
}

/// Whether `out` is a choice that the session method can make. A method that draws fails
/// exactly where it has nothing to draw from, and else chooses one of its pool; a method
/// that does not draw makes its one choice.
pub open spec fn is_choice(
    method: Option<SessionMethod>,
    candidates: Seq<u16>,
    listening: Option<Seq<u64>>,
    last_random: u64,
    stations: Seq<StationModel>,
    now: i64,
    stale_secs: i64,
    out: Result<Choice, NoCandidates>,
) -> bool {
    match pool_of(method, candidates, listening, last_random, stations, now, stale_secs) {
        Some(pool) => {
            &&& out is Err <==> pool.len() == 0
            &&& out matches Ok(c) ==> pool.contains(c.band) && c.last_random == next_random(
                method,
                candidates,
                listening,
                last_random,
            )
        },
        None => out == Ok::<Choice, NoCandidates>(
            Choice { band: fixed_choice(method, candidates, listening), last_random },
        ),
    }
}

/// Chooses, by the session method, the frequency that the next band must contain.
///
/// Without a method there is no wish. The method that keeps the band wishes for the head of
/// the last band. Rotation moves up or down from the head of the last band. Neither has a
/// wish before the first session.
/// The random method draws from the band heads, and tracking draws from the frequencies of
/// the tracked station; either fails where there is nothing to draw from.
pub fn choose_band(
    method: Option<SessionMethod>,
    candidates: &Vec<u16>,
    listening: &Option<Vec<u64>>,
    last_random: u64,
    stations: &Vec<GroundStation>,
    now: i64,
    stale_secs: i64,
) -> (out: Result<Choice, NoCandidates>)
    ensures
        is_choice(
            method,
            candidates@,
            band_model(*listening),
            last_random,
            models_of(stations@),
            now,
            stale_secs,
            out,
        ),
{
    let head: Option<u64> = match listening {
        Some(l) => if l.len() > 0 {
            Some(l[0])
        } else {
            None
        },
        None => None,
    };
    match method {
        None => Ok(Choice { band: 0, last_random }),
        Some(SessionMethod::Static) => Ok(
            Choice {
                band: match head {
                    Some(h) => h,
                    None => 0,
                },
                last_random,
            },
        ),
        Some(SessionMethod::Inc) | Some(SessionMethod::Dec) => {
            let up = match method {
                Some(SessionMethod::Inc) => true,
                _ => false,
            };
            let band: u64 = match head {
                Some(h) => match rotate(candidates, h, up) {
                    Some(b) => b as u64,
                    None => 0,
                },
                None => 0,
            };
            Ok(Choice { band, last_random })
        },
        Some(SessionMethod::Random) => {
            let (pool, next_random) = match head {
                Some(h) => if candidates.len() > 0 {
                    (exclude(candidates, h, last_random), h)
                } else {
                    (Vec::new(), last_random)
                },
                None => (exclude(candidates, 0, 0), last_random),
            };
            match pick(&pool) {
                Some(band) => Ok(Choice { band, last_random: next_random }),
                None => Err(NoCandidates),
            }
        },
        Some(SessionMethod::Track(n)) => match listening {
            None => Ok(Choice { band: 0, last_random }),
            Some(l) => {
                let wanted = crate::events::StationId::Number(n as u64);
                match position_of_station(stations, &wanted) {
                    Some(i) => {
                        assert(models_of(stations@)[i as int] == stations@[i as int]@);
                        let active = keep_fresh(&stations[i].active_frequencies, now, stale_secs);
                        let pool = frequencies_outside(&active, l);
                        match pick(&pool) {
                            Some(band) => Ok(Choice { band, last_random }),
                            None => Err(NoCandidates),
                        }
                    },
                    None => Ok(Choice { band: 0, last_random }),
                }
            },
        },
    }
}

/// An ascending list that holds each frequency once, with `x` added where it was missing.
pub open spec fn inserted(s: Seq<u16>, x: u16) -> Seq<u16> {
    let p = first_at_or_above(s, x as u64, 0);
    if 0 <= p < s.len() && s[p] == x {
        s
    } else if 0 <= p <= s.len() {
        s.insert(p, x)
    } else {
        s
    }
}

/// The frequencies of `v`, each once, lowest first.
pub open spec fn sorted_set(v: Seq<u16>) -> Seq<u16>
    decreases v.len(),
{
    if v.len() == 0 {
        Seq::empty()
    } else {
        inserted(sorted_set(v.drop_last()), v.last())
    }
}

/// Adds `x` to an ascending list that holds each frequency once.
fn insert_frequency(v: &mut Vec<u16>, x: u16)
    requires
        strictly_ascending(old(v)@),
    ensures
        final(v)@ == inserted(old(v)@, x),
        strictly_ascending(final(v)@),
        forall|y: u16| final(v)@.contains(y) <==> old(v)@.contains(y) || y == x,
{
    let mut p: usize = 0;
    while p < v.len() && v[p] < x
        invariant
            p <= v.len(),
            v@ == old(v)@,
            forall|j: int| 0 <= j < p ==> v@[j] < x,
            first_at_or_above(v@, x as u64, 0) == first_at_or_above(v@, x as u64, p as int),
        decreases v.len() - p,
    {
        p += 1;
    }
    let ghost before = v@;
    if p < v.len() && v[p] == x {
        assert(before.contains(x));
    } else {
        v.insert(p, x);
        proof {
            let after = v@;
            assert(after[p as int] == x);
            assert forall|y: u16| after.contains(y) <==> before.contains(y) || y == x by {
                if before.contains(y) {
                    let i = choose|i: int| 0 <= i < before.len() && before[i] == y;
                    if i < p {
                        assert(after[i] == y);
                    } else {
                        assert(after[i + 1] == y);
                    }
                }
                if after.contains(y) {
                    let j = choose|j: int| 0 <= j < after.len() && after[j] == y;
                    if j < p {
                        assert(before[j] == y);
                    } else if j > p {
                        assert(before[j - 1] == y);
                    }
                }
            }
            assert forall|i: int, j: int| 0 <= i < j < after.len() implies after[i] < after[j] by {
                if j < p {
                    assert(before[i] < before[j]);
                } else if j == p {
                    assert(before[i] < x);
                } else if i < p {
                    assert(before[i] < before[j - 1]);
                } else if i == p {
                    assert(before[p as int] > x);
                    if p < j - 1 {
                        assert(before[p as int] < before[j - 1]);
                    }
                } else {
                    assert(before[i - 1] < before[j - 1]);
                }
            }
        }
    }
}

/// The frequencies of `v`, each once, lowest first.
pub fn sorted_unique(v: &Vec<u16>) -> (out: Vec<u16>)
    ensures
        out@ == sorted_set(v@),
        strictly_ascending(out@),
        forall|y: u16| out@.contains(y) <==> v@.contains(y),
{
    let mut out: Vec<u16> = Vec::new();
    let mut i: usize = 0;
    while i < v.len()
        invariant
            i <= v.len(),
            out@ == sorted_set(v@.take(i as int)),
            strictly_ascending(out@),
            forall|y: u16| out@.contains(y) <==> v@.take(i as int).contains(y),
        decreases v.len() - i,
    {
        let ghost before = out@;
        insert_frequency(&mut out, v[i]);
        proof {
            let head = v@.take(i as int);
            let more = v@.take(i + 1);
            assert(more =~= head.push(v@[i as int]));
            assert(more.drop_last() =~= head);
            assert forall|y: u16| out@.contains(y) <==> more.contains(y) by {
                if more.contains(y) {
                    let k = choose|k: int| 0 <= k < more.len() && more[k] == y;
                    if k < i {
                        assert(head[k] == y);
                    }
                }
                if head.contains(y) {
                    let k = choose|k: int| 0 <= k < head.len() && head[k] == y;
                    assert(more[k] == y);
                }
                assert(more[i as int] == v@[i as int]);
            }
        }
        i += 1;
    }
    proof {
        assert(v@.take(v.len() as int) =~= v@);
    }
    out
}

/// Where the band stands that contains `target`, looking from `from` on; the number of bands
/// where none does.
pub open spec fn band_of(bands: Seq<Seq<u16>>, target: u16, from: int) -> int
    decreases bands.len() - from,
{
    if from >= bands.len() {
        bands.len() as int
    } else if bands[from].contains(target) {
        from
    } else {
        band_of(bands, target, from + 1)
    }
}

/// A frequency of the packed frequencies lies in one of the bands.
pub proof fn lemma_band_of_member(bands: Seq<Seq<u16>>, target: u16, from: int)
    requires
        0 <= from <= bands.len(),
        bands.skip(from).flatten().contains(target),
    ensures
        from <= band_of(bands, target, from) < bands.len(),
    decreases bands.len() - from,
{
    let rest = bands.skip(from);
    if rest.len() == 0 {
        assert(rest.flatten().len() == 0);
    } else {
        assert(rest.first() == bands[from]);
        assert(rest.drop_first() =~= bands.skip(from + 1));
        let flat = rest.flatten();
        assert(flat == rest.first() + rest.drop_first().flatten());
        if !bands[from].contains(target) {
            let i = choose|i: int| 0 <= i < flat.len() && flat[i] == target;
            if i < bands[from].len() {
                assert(bands[from][i] == target);
            } else {
                assert(bands.skip(from + 1).flatten()[i - bands[from].len()] == target);
            }
            lemma_band_of_member(bands, target, from + 1);
        }
    }
}

/// The band that contains `target`.
pub fn band_containing(bands: &Vec<Band>, target: u16) -> (out: Option<usize>)
    ensures
        out matches Some(i) ==> i < bands@.len() && band_of(band_seqs(bands@), target, 0) == i
            && bands@[i as int].freqs@.contains(target),
        out is None ==> band_of(band_seqs(bands@), target, 0) == bands@.len(),
{
    let mut i: usize = 0;
    while i < bands.len()
        invariant
            i <= bands.len(),
            band_of(band_seqs(bands@), target, 0) == band_of(band_seqs(bands@), target, i as int),
        decreases bands.len() - i,
    {
        let fs = &bands[i].freqs;
        assert(band_seqs(bands@)[i as int] == fs@);
        let mut k: usize = 0;
        let mut found = false;
        while k < fs.len() && !found
            invariant
                k <= fs.len(),
                !found ==> forall|j: int| 0 <= j < k ==> fs@[j] != target,
                found ==> fs@.contains(target),
            decreases fs.len() - k + (if found { 0int } else { 1int }),
        {
            if fs[k] == target {
                found = true;
            } else {
                k += 1;
            }
        }
        if found {
            return Some(i);
        }
        i += 1;
    }
    None
}

/// What a band holds is among the frequencies that the bands were packed from.
pub proof fn lemma_band_holds_known(bands: Seq<Seq<u16>>, k: int, x: u16)
    requires
        0 <= k < bands.len(),
        bands[k].contains(x),
    ensures
        bands.flatten().contains(x),
    decreases bands.len(),
{
    let flat = bands.flatten();
    assert(flat == bands.first() + bands.drop_first().flatten());
    if k == 0 {
        let i = choose|i: int| 0 <= i < bands[0].len() && bands[0][i] == x;
        assert(flat[i] == x);
    } else {
        assert(bands.drop_first()[k - 1] == bands[k]);
        lemma_band_holds_known(bands.drop_first(), k - 1, x);
        let rest = bands.drop_first().flatten();
        let i = choose|i: int| 0 <= i < rest.len() && rest[i] == x;
        assert(flat[bands.first().len() + i] == x);
    }
}

/// Where one of `c` from `from` on is `x` or above, the first such stands no later.
pub proof fn lemma_first_at_or_above(c: Seq<u16>, x: u64, from: int, t: int)
    requires
        0 <= from <= t < c.len(),
        c[t] as u64 >= x,
    ensures
        from <= first_at_or_above(c, x, from) <= t,
        c[first_at_or_above(c, x, from)] as u64 >= x,
    decreases t - from,
{
    if c[from] as u64 >= x {
    } else {
        lemma_first_at_or_above(c, x, from + 1, t);
    }
}

/// What is left of the band heads after two are taken out is band heads.
pub proof fn lemma_without_member(c: Seq<u16>, a: u64, b: u64, x: u64)
    requires
        without(c, a, b).contains(x),
    ensures
        exists|i: int| 0 <= i < c.len() && #[trigger] c[i] as u64 == x,
    decreases c.len(),
{
    if c.len() > 0 {
        let head = c.drop_last();
        let kept = without(head, a, b);
        let all = without(c, a, b);
        let j = choose|j: int| 0 <= j < all.len() && all[j] == x;
        if c.last() as u64 != a && c.last() as u64 != b && j == kept.len() {
            assert(c[c.len() - 1] as u64 == x);
        } else {
            assert(kept[j] == x);
            lemma_without_member(head, a, b, x);
            let i = choose|i: int| 0 <= i < head.len() && #[trigger] head[i] as u64 == x;
            assert(c[i] as u64 == x);
        }
    }
}

} // verus!
