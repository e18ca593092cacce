//! The registry of ground stations: which frequencies each station was last heard to use.

use vstd::prelude::*;
use vstd::std_specs::cmp::PartialEqSpecImpl;
use crate::events::{StationId, StationIdModel};
use crate::text::{chars_of, lowercase, lowercase_of, same_chars, trim, trimmed};

verus! {

/// A frequency on which a station is active, in kHz, and when that was last heard, in
/// microseconds since the Unix epoch. Two entries are equal where they name one frequency,
/// whenever each was heard.
#[derive(Clone, Copy, Debug, Eq)]
pub struct FreqInfo {
    pub khz: u64,
    pub last_updated: i64,
}

impl PartialEq for FreqInfo {
    fn eq(&self, other: &FreqInfo) -> (out: bool) {
        self.khz == other.khz
    }
}

impl PartialEqSpecImpl for FreqInfo {
    open spec fn obeys_eq_spec() -> bool {
        true
    }

    open spec fn eq_spec(&self, other: &FreqInfo) -> bool {
        self.khz == other.khz
    }
}

/// A ground station as the registry knows it. Two stations are equal where their identities
/// name one station, whatever else is known of each.
#[derive(Debug, Eq)]
pub struct GroundStation {
    pub id: StationId,
    pub name: Option<String>,
    pub active_frequencies: Vec<FreqInfo>,
}

/// What a `GroundStation` holds.
pub struct StationModel {
    pub id: StationIdModel,
    pub name: Option<Seq<char>>,
    pub active: Seq<FreqInfo>,
}

/// The text of a name, if there is one.
pub open spec fn name_model(name: Option<String>) -> Option<Seq<char>> {
    match name {
        Some(n) => Some(n@),
        None => None,
    }
}

impl View for GroundStation {
    type V = StationModel;

    open spec fn view(&self) -> StationModel {
        StationModel {
            id: self.id@,
            name: name_model(self.name),
            active: self.active_frequencies@,
        }
    }
}

/// Whether two identities name one station: two numbers that are equal, or two names that are
/// equal once their letters are in lower case and white space at the ends is removed.
pub open spec fn same_station(a: StationIdModel, b: StationIdModel) -> bool {
    match (a, b) {
        (StationIdModel::Null, StationIdModel::Null) => true,
        (StationIdModel::Number(x), StationIdModel::Number(y)) => x == y,
        (StationIdModel::Text(x), StationIdModel::Text(y)) => trimmed(lowercase_of(x)) == trimmed(
            lowercase_of(y),
        ),
        _ => false,
    }
}

/// Whether an entry heard at `f.last_updated` is still current at `now`: it is younger than
/// `stale_secs` seconds.
pub open spec fn fresh(f: FreqInfo, now: i64, stale_secs: i64) -> bool {
    now - f.last_updated < stale_secs * 1_000_000
}

/// The entries of `fs` that are still current at `now`, in order.
pub open spec fn kept(fs: Seq<FreqInfo>, now: i64, stale_secs: i64) -> Seq<FreqInfo>
    decreases fs.len(),
{
    if fs.len() == 0 {
        Seq::empty()
    } else if fresh(fs.last(), now, stale_secs) {
        kept(fs.drop_last(), now, stale_secs).push(fs.last())
    } else {
        kept(fs.drop_last(), now, stale_secs)
    }
}

/// The frequencies of `fs`, in order.
pub open spec fn khz_of(fs: Seq<FreqInfo>) -> Seq<u64> {
    Seq::new(fs.len(), |i: int| fs[i].khz)
}

/// No frequency occurs twice.
pub open spec fn distinct_khz(fs: Seq<FreqInfo>) -> bool {
    forall|i: int, j: int| 0 <= i < j < fs.len() ==> fs[i].khz != fs[j].khz
}

/// Whether `a` and `b` hold the same frequencies, whatever their order and however often each
/// occurs.
pub open spec fn same_khz(a: Seq<u64>, b: Seq<u64>) -> bool {
    &&& forall|i: int| 0 <= i < a.len() ==> b.contains(#[trigger] a[i])
    &&& forall|j: int| 0 <= j < b.len() ==> a.contains(#[trigger] b[j])
}

/// One entry for each frequency of `freqs`, in the order in which each first occurs, all
/// heard at `now`.
pub open spec fn stamped(freqs: Seq<u64>, now: i64) -> Seq<FreqInfo>
    decreases freqs.len(),
{
    if freqs.len() == 0 {
        Seq::empty()
    } else {
        let before = stamped(freqs.drop_last(), now);
        if khz_of(before).contains(freqs.last()) {
            before
        } else {
            before.push(FreqInfo { khz: freqs.last(), last_updated: now })
        }
    }
}

/// Where the station `id` stands among `stations`, looking from `from` on; the length of
/// `stations` where there is none.
pub open spec fn find_station(stations: Seq<StationModel>, id: StationIdModel, from: int) -> int
    decreases stations.len() - from,
{
    if from >= stations.len() {
        stations.len() as int
    } else if same_station(stations[from].id, id) {
        from
    } else {
        find_station(stations, id, from + 1)
    }
}

/// The frequencies on which the station `id` counts as active at `now`: those of its entries
/// that are still current; none for a station that the registry does not hold.
pub open spec fn current_of(
    stations: Seq<StationModel>,
    id: StationIdModel,
    now: i64,
    stale_secs: i64,
) -> Seq<FreqInfo> {
    let i = find_station(stations, id, 0);
    if 0 <= i < stations.len() {
        kept(stations[i].active, now, stale_secs)
    } else {
        Seq::empty()
    }
}

/// Whether hearing the station `id` on `freqs` at `now` is a change: the station's current
/// frequencies are not the same as `freqs`.
pub open spec fn emits(
    stations: Seq<StationModel>,
    id: StationIdModel,
    freqs: Seq<u64>,
    now: i64,
    stale_secs: i64,
) -> bool {
    !same_khz(khz_of(current_of(stations, id, now, stale_secs)), freqs)
}

/// The registry after the station `id` was heard on `freqs` at `now`: the station holds
/// exactly these frequencies, and a station that was not there is added at the end under
/// `name`.
pub open spec fn stations_after(
    stations: Seq<StationModel>,
    id: StationIdModel,
    name: Option<Seq<char>>,
    freqs: Seq<u64>,
    now: i64,
) -> Seq<StationModel> {
    let i = find_station(stations, id, 0);
    if 0 <= i < stations.len() {
        stations.update(
            i,
            StationModel { id: stations[i].id, name: stations[i].name, active: stamped(freqs, now) },
        )
    } else {
        stations.push(StationModel { id, name, active: stamped(freqs, now) })
    }
}

pub proof fn lemma_find_station_bounds(stations: Seq<StationModel>, id: StationIdModel, from: int)
    requires
        0 <= from <= stations.len(),
    ensures
        from <= find_station(stations, id, from) <= stations.len(),
        find_station(stations, id, from) < stations.len() ==> same_station(
            stations[find_station(stations, id, from)].id,
            id,
        ),
    decreases stations.len() - from,
{
    if from < stations.len() && !same_station(stations[from].id, id) {
        lemma_find_station_bounds(stations, id, from + 1);
    }
}

/// A station is found at the same place in two registries whose stations carry the same
/// identities.
pub proof fn lemma_find_station_same_ids(
    a: Seq<StationModel>,
    b: Seq<StationModel>,
    id: StationIdModel,
    from: int,
)
    requires
        0 <= from,
        a.len() <= b.len(),
        forall|i: int| 0 <= i < a.len() ==> a[i].id == b[i].id,
    ensures
        find_station(a, id, from) < a.len() ==> find_station(b, id, from) == find_station(
            a,
            id,
            from,
        ),
        find_station(a, id, from) >= a.len() && from <= a.len() ==> find_station(b, id, from)
            == find_station(b, id, a.len() as int),
    decreases a.len() - from,
{
    if from < a.len() && !same_station(a[from].id, id) {
        lemma_find_station_same_ids(a, b, id, from + 1);
    }
}

/// Stamping yields distinct frequencies, all heard at `now`, and the same frequencies as were
/// given.
pub proof fn lemma_stamped(freqs: Seq<u64>, now: i64)
    ensures
        distinct_khz(stamped(freqs, now)),
        forall|i: int|
            0 <= i < stamped(freqs, now).len() ==> (#[trigger] stamped(freqs, now)[i]).last_updated
                == now,
        same_khz(khz_of(stamped(freqs, now)), freqs),
        stamped(freqs, now).len() <= freqs.len(),
    decreases freqs.len(),
{
    let out = stamped(freqs, now);
    if freqs.len() > 0 {
        let head = freqs.drop_last();
        let before = stamped(head, now);
        lemma_stamped(head, now);
        let x = freqs.last();
        if khz_of(before).contains(x) {
            assert forall|j: int| 0 <= j < freqs.len() implies khz_of(out).contains(
                #[trigger] freqs[j],
            ) by {
                if j < head.len() {
                    assert(freqs[j] == head[j]);
                }
            }
            assert forall|i: int| 0 <= i < khz_of(out).len() implies freqs.contains(
                #[trigger] khz_of(out)[i],
            ) by {
                assert(head.contains(khz_of(before)[i]));
                let j = choose|j: int| 0 <= j < head.len() && head[j] == khz_of(before)[i];
                assert(freqs[j] == head[j]);
            }
        } else {
            assert forall|i: int, j: int| 0 <= i < j < out.len() implies out[i].khz
                != out[j].khz by {
                if j == before.len() {
                    assert(khz_of(before)[i] == before[i].khz);
                }
            }
            assert forall|j: int| 0 <= j < freqs.len() implies khz_of(out).contains(
                #[trigger] freqs[j],
            ) by {
                if j < head.len() {
                    assert(freqs[j] == head[j]);
                    assert(khz_of(before).contains(head[j]));
                    let i = choose|i: int|
                        0 <= i < khz_of(before).len() && khz_of(before)[i] == head[j];
                    assert(khz_of(out)[i] == head[j]);
                } else {
                    assert(khz_of(out)[before.len() as int] == x);
                }
            }
            assert forall|i: int| 0 <= i < khz_of(out).len() implies freqs.contains(
                #[trigger] khz_of(out)[i],
            ) by {
                if i < before.len() {
                    assert(khz_of(out)[i] == khz_of(before)[i]);
                    assert(head.contains(khz_of(before)[i]));
                    let j = choose|j: int| 0 <= j < head.len() && head[j] == khz_of(before)[i];
                    assert(freqs[j] == head[j]);
                } else {
                    assert(freqs[freqs.len() - 1] == x);
                }
            }
        }
    }
}

/// Entries that are all current stay as they are.
pub proof fn lemma_kept_all(fs: Seq<FreqInfo>, now: i64, stale_secs: i64)
    requires
        forall|i: int| 0 <= i < fs.len() ==> fresh(#[trigger] fs[i], now, stale_secs),
    ensures
        kept(fs, now, stale_secs) == fs,
    decreases fs.len(),
{
    if fs.len() > 0 {
        let head = fs.drop_last();
        assert forall|i: int| 0 <= i < head.len() implies fresh(
            #[trigger] head[i],
            now,
            stale_secs,
        ) by {
            assert(head[i] == fs[i]);
        }
        lemma_kept_all(head, now, stale_secs);
        assert(kept(fs, now, stale_secs) =~= fs);
    }
}

/// What is kept is part of what was there: distinct frequencies stay distinct.
pub proof fn lemma_kept_distinct(fs: Seq<FreqInfo>, now: i64, stale_secs: i64)
    requires
        distinct_khz(fs),
    ensures
        distinct_khz(kept(fs, now, stale_secs)),
        forall|i: int|
            0 <= i < kept(fs, now, stale_secs).len() ==> fs.contains(
                #[trigger] kept(fs, now, stale_secs)[i],
            ),
    decreases fs.len(),
{
    if fs.len() > 0 {
        let head = fs.drop_last();
        assert(distinct_khz(head)) by {
            assert forall|i: int, j: int| 0 <= i < j < head.len() implies head[i].khz
                != head[j].khz by {
                assert(head[i] == fs[i] && head[j] == fs[j]);
            }
        }
        lemma_kept_distinct(head, now, stale_secs);
        let k = kept(head, now, stale_secs);
        let out = kept(fs, now, stale_secs);
        assert forall|i: int| 0 <= i < out.len() implies fs.contains(#[trigger] out[i]) by {
            if i < k.len() {
                assert(out[i] == k[i]);
                assert(head.contains(k[i]));
                let j = choose|j: int| 0 <= j < head.len() && head[j] == k[i];
                assert(fs[j] == head[j]);
            } else {
                assert(fs[fs.len() - 1] == out[i]);
            }
        }
        assert forall|i: int, j: int| 0 <= i < j < out.len() implies out[i].khz != out[j].khz by {
            if j == k.len() {
                assert(head.contains(k[i]));
                let a = choose|a: int| 0 <= a < head.len() && head[a] == k[i];
                assert(fs[a] == head[a]);
                assert(fs[a].khz != fs[fs.len() - 1].khz);
            } else {
                assert(out[i] == k[i] && out[j] == k[j]);
            }
        }
    }
}

impl PartialEq for GroundStation {
    fn eq(&self, other: &GroundStation) -> (out: bool) {
        self.id.matches(&other.id)
    }
}

impl PartialEqSpecImpl for GroundStation {
    open spec fn obeys_eq_spec() -> bool {
        true
    }

    open spec fn eq_spec(&self, other: &GroundStation) -> bool {
        same_station(self.id@, other.id@)
    }
}

impl StationId {
    /// Whether this identity and `other` name one station.
    pub fn matches(&self, other: &StationId) -> (out: bool)
        ensures
            out == same_station(self@, other@),
    {
        match (self, other) {
            (StationId::Null, StationId::Null) => true,
            (StationId::Number(x), StationId::Number(y)) => *x == *y,
            (StationId::Text(x), StationId::Text(y)) => {
                let a = trim(&chars_of(lowercase(x.as_str()).as_str()));
                let b = trim(&chars_of(lowercase(y.as_str()).as_str()));
                same_chars(&a, &b)
            },
            _ => false,
        }
    }
}

/// The entries of `fs` that are still current at `now`.
pub fn keep_fresh(fs: &Vec<FreqInfo>, now: i64, stale_secs: i64) -> (out: Vec<FreqInfo>)
    ensures
        out@ == kept(fs@, now, stale_secs),
{
    let mut out: Vec<FreqInfo> = Vec::new();
    let mut i: usize = 0;
    while i < fs.len()
        invariant
            i <= fs.len(),
            out@ == kept(fs@.take(i as int), now, stale_secs),
        decreases fs.len() - i,
    {
        proof {
            assert(fs@.take(i + 1).drop_last() =~= fs@.take(i as int));
            assert(fs@.take(i + 1).last() == fs@[i as int]);
        }
        let f = fs[i];
        let age: i128 = now as i128 - f.last_updated as i128;
        let limit: i128 = stale_secs as i128 * 1_000_000;
        if age < limit {
            out.push(f);
        }
        i += 1;
    }
    proof {
        assert(fs@.take(fs.len() as int) =~= fs@);
    }
    out
}

/// Whether `x` is one of `v`.
pub fn contains_khz(v: &Vec<u64>, x: u64) -> (out: bool)
    ensures
        out == v@.contains(x),
{
    let mut i: usize = 0;
    while i < v.len()
        invariant
            i <= v.len(),
            forall|j: int| 0 <= j < i ==> v@[j] != x,
        decreases v.len() - i,
    {
        if v[i] == x {
            return true;
        }
        i += 1;
    }
    false
}

fn all_within(a: &Vec<u64>, b: &Vec<u64>) -> (out: bool)
    ensures
        out == forall|i: int| 0 <= i < a@.len() ==> b@.contains(#[trigger] a@[i]),
{
    let mut i: usize = 0;
    while i < a.len()
        invariant
            i <= a.len(),
            forall|j: int| 0 <= j < i ==> b@.contains(#[trigger] a@[j]),
        decreases a.len() - i,
    {
        if !contains_khz(b, a[i]) {
            return false;
        }
        i += 1;
    }
    true
}

/// Whether `a` and `b` hold the same frequencies.
pub fn same_frequencies(a: &Vec<u64>, b: &Vec<u64>) -> (out: bool)
    ensures
        out == same_khz(a@, b@),
{
    all_within(a, b) && all_within(b, a)
}

/// The frequencies of `fs`, in order.
pub fn frequencies_of(fs: &Vec<FreqInfo>) -> (out: Vec<u64>)
    ensures
        out@ == khz_of(fs@),
{
    let mut out: Vec<u64> = Vec::new();
    let mut i: usize = 0;
    while i < fs.len()
        invariant
            i <= fs.len(),
            out@.len() == i,
            forall|j: int| 0 <= j < i ==> out@[j] == fs@[j].khz,
        decreases fs.len() - i,
    {
        out.push(fs[i].khz);
        i += 1;
    }
    assert(out@ =~= khz_of(fs@));
    out
}

/// One entry for each frequency of `freqs`, all heard at `now`.
pub fn stamp(freqs: &Vec<u64>, now: i64) -> (out: Vec<FreqInfo>)
    ensures
        out@ == stamped(freqs@, now),
{
    let mut out: Vec<FreqInfo> = Vec::new();
    let mut seen: Vec<u64> = Vec::new();
    let mut i: usize = 0;
    while i < freqs.len()
        invariant
            i <= freqs.len(),
            out@ == stamped(freqs@.take(i as int), now),
            seen@ == khz_of(out@),
        decreases freqs.len() - i,
    {
        proof {
            assert(freqs@.take(i + 1).drop_last() =~= freqs@.take(i as int));
            assert(freqs@.take(i + 1).last() == freqs@[i as int]);
        }
        if !contains_khz(&seen, freqs[i]) {
            out.push(FreqInfo { khz: freqs[i], last_updated: now });
            seen.push(freqs[i]);
            assert(seen@ =~= khz_of(out@));
        }
        i += 1;
    }
    proof {
        assert(freqs@.take(freqs.len() as int) =~= freqs@);
    }
    out
}

impl GroundStation {
    /// Forgets the frequencies that were last heard `stale_after_secs` seconds before `now`
    /// or earlier.
    pub fn invalidate(&mut self, now: i64, stale_after_secs: i64)
        ensures
            final(self)@.id == old(self)@.id,
            final(self)@.name == old(self)@.name,
            final(self)@.active == kept(old(self)@.active, now, stale_after_secs),
    {
        let fresh_ones = keep_fresh(&self.active_frequencies, now, stale_after_secs);
        self.active_frequencies = fresh_ones;
    }
}

/// The stations of `stations`, each as what it holds.
pub open spec fn models_of(stations: Seq<GroundStation>) -> Seq<StationModel> {
    Seq::new(stations.len(), |i: int| stations[i]@)
}

/// Where the station `id` stands among `stations`.
pub fn position_of_station(stations: &Vec<GroundStation>, id: &StationId) -> (out: Option<usize>)
    ensures
        out matches Some(i) ==> i < stations@.len() && find_station(models_of(stations@), id@, 0)
            == i,
        out is None ==> find_station(models_of(stations@), id@, 0) == stations@.len(),
{
    let ghost models = models_of(stations@);
    let mut i: usize = 0;
    while i < stations.len()
        invariant
            i <= stations.len(),
            models == models_of(stations@),
            find_station(models, id@, 0) == find_station(models, id@, i as int),
        decreases stations.len() - i,
    {
        assert(models[i as int] == stations@[i as int]@);
        if stations[i].id.matches(id) {
            return Some(i);
        }
        i += 1;
    }
    None
}

/// What was heard of one station: on which frequencies, in kHz, it is active.
#[derive(Debug, PartialEq, Eq)]
pub struct Heard {
    pub id: StationId,
    pub name: Option<String>,
    pub freqs: Vec<u64>,
}

/// What a `Heard` holds.
pub struct HeardModel {
    pub id: StationIdModel,
    pub name: Option<Seq<char>>,
    pub freqs: Seq<u64>,
}

impl View for Heard {
    type V = HeardModel;

    open spec fn view(&self) -> HeardModel {
        HeardModel { id: self.id@, name: name_model(self.name), freqs: self.freqs@ }
    }
}

/// What is heard, each as what it holds.
pub open spec fn heard_models(heard: Seq<Heard>) -> Seq<HeardModel> {
    Seq::new(heard.len(), |i: int| heard[i]@)
}

/// A change of the frequencies on which a station is active.
pub struct ChangeModel {
    pub id: StationIdModel,
    pub name: Option<Seq<char>>,
    pub old: Seq<u64>,
    pub new: Seq<u64>,
}

/// The registry after everything of `heard` was taken in, in order, at `now`.
pub open spec fn registry_after(models: Seq<StationModel>, heard: Seq<HeardModel>, now: i64) -> Seq<
    StationModel,
>
    decreases heard.len(),
{
    if heard.len() == 0 {
        models
    } else {
        stations_after(
            registry_after(models, heard.drop_last(), now),
            heard.last().id,
            heard.last().name,
            heard.last().freqs,
            now,
        )
    }
}

/// The change that hearing `h` at `now` makes to the registry: the station as the registry
/// then holds it, the frequencies that it counted as active on, and those it was heard on.
pub open spec fn change_by(models: Seq<StationModel>, h: HeardModel, now: i64, stale_secs: i64) -> ChangeModel {
    let i = find_station(models, h.id, 0);
    let after = stations_after(models, h.id, h.name, h.freqs, now);
    ChangeModel {
        id: after[i].id,
        name: after[i].name,
        old: khz_of(current_of(models, h.id, now, stale_secs)),
        new: h.freqs,
    }
}

/// The changes that taking in `heard`, in order, makes to the registry.
pub open spec fn changes(models: Seq<StationModel>, heard: Seq<HeardModel>, now: i64, stale_secs: i64) -> Seq<
    ChangeModel,
>
    decreases heard.len(),
{
    if heard.len() == 0 {
        Seq::empty()
    } else {
        let before = registry_after(models, heard.drop_last(), now);
        let earlier = changes(models, heard.drop_last(), now, stale_secs);
        if emits(before, heard.last().id, heard.last().freqs, now, stale_secs) {
            earlier.push(change_by(before, heard.last(), now, stale_secs))
        } else {
            earlier
        }
    }
}

/// Two identities that name one station name the same stations.
pub proof fn lemma_same_station_is_equivalence(a: StationIdModel, b: StationIdModel, c: StationIdModel)
    ensures
        same_station(a, a),
        same_station(a, b) ==> same_station(b, a),
        same_station(a, b) && same_station(b, c) ==> same_station(a, c),
{
}

/// No two of `heard` name the same station.
pub open spec fn distinct_ids(heard: Seq<HeardModel>) -> bool {
    forall|i: int, j: int| 0 <= i < j < heard.len() ==> !same_station(heard[i].id, heard[j].id)
}

/// Whether one of `heard` names the station `id`.
pub open spec fn names_station(heard: Seq<HeardModel>, id: StationIdModel) -> bool {
    exists|k: int| 0 <= k < heard.len() && same_station((#[trigger] heard[k]).id, id)
}

/// The entries that the registry holds for the station `id`.
pub open spec fn entries_of(reg: Seq<StationModel>, id: StationIdModel) -> Option<Seq<FreqInfo>> {
    let i = find_station(reg, id, 0);
    if 0 <= i < reg.len() {
        Some(reg[i].active)
    } else {
        None
    }
}

/// Taking in one station gives it exactly the frequencies it was heard on, and leaves the
/// entries of every other station as they were.
pub proof fn lemma_one_station(reg: Seq<StationModel>, h: HeardModel, now: i64, b: StationIdModel)
    ensures
        entries_of(stations_after(reg, h.id, h.name, h.freqs, now), h.id) == Some(
            stamped(h.freqs, now),
        ),
        !same_station(h.id, b) ==> entries_of(stations_after(reg, h.id, h.name, h.freqs, now), b)
            == entries_of(reg, b),
{
    let after = stations_after(reg, h.id, h.name, h.freqs, now);
    let i = find_station(reg, h.id, 0);
    lemma_find_station_bounds(reg, h.id, 0);
    lemma_find_station_bounds(reg, b, 0);
    lemma_find_station_same_ids(reg, after, h.id, 0);
    lemma_find_station_same_ids(reg, after, b, 0);
    if i >= reg.len() {
        assert(after[reg.len() as int].id == h.id);
        assert(find_station(after, h.id, reg.len() as int) == reg.len());
        if !same_station(h.id, b) {
            assert(find_station(after, b, reg.len() as int + 1) == after.len());
            assert(find_station(after, b, reg.len() as int) == after.len());
        }
    } else if !same_station(h.id, b) {
        let j = find_station(reg, b, 0);
        if j < reg.len() {
            lemma_same_station_is_equivalence(h.id, reg[i].id, b);
            lemma_same_station_is_equivalence(reg[i].id, h.id, h.id);
            assert(j != i);
            assert(after[j] == reg[j]);
        }
    }
}

/// Taking in stations with identities of their own gives each of them exactly the
/// frequencies it was heard on, and leaves the entries of every other station as they were.
pub proof fn lemma_taken_in(reg: Seq<StationModel>, heard: Seq<HeardModel>, now: i64, k: int)
    requires
        distinct_ids(heard),
        0 <= k < heard.len(),
    ensures
        entries_of(registry_after(reg, heard, now), heard[k].id) == Some(
            stamped(heard[k].freqs, now),
        ),
    decreases heard.len(),
{
    let head = heard.drop_last();
    let last = heard.last();
    let before = registry_after(reg, head, now);
    lemma_one_station(before, last, now, heard[k].id);
    if k < head.len() {
        assert(distinct_ids(head)) by {
            assert forall|i: int, j: int| 0 <= i < j < head.len() implies !same_station(
                head[i].id,
                head[j].id,
            ) by {
                assert(head[i] == heard[i] && head[j] == heard[j]);
            }
        }
        assert(head[k] == heard[k]);
        lemma_taken_in(reg, head, now, k);
        assert(!same_station(heard[k].id, heard[heard.len() - 1].id));
        lemma_same_station_is_equivalence(last.id, heard[k].id, last.id);
    }
}

/// Taking in stations leaves the entries of every station that is none of them as they were.
pub proof fn lemma_not_taken_in(reg: Seq<StationModel>, heard: Seq<HeardModel>, now: i64, b: StationIdModel)
    requires
        !names_station(heard, b),
    ensures
        entries_of(registry_after(reg, heard, now), b) == entries_of(reg, b),
    decreases heard.len(),
{
    if heard.len() > 0 {
        let head = heard.drop_last();
        let last = heard.last();
        assert(!same_station(heard[heard.len() - 1].id, b));
        assert(!names_station(head, b)) by {
            if names_station(head, b) {
                let k = choose|k: int| 0 <= k < head.len() && same_station((#[trigger] head[k]).id, b);
                assert(same_station(heard[k].id, b));
            }
        }
        lemma_not_taken_in(reg, head, now, b);
        lemma_one_station(registry_after(reg, head, now), last, now, b);
    }
}

proof fn lemma_silent_upto(
    reg: Seq<StationModel>,
    heard: Seq<HeardModel>,
    first: i64,
    second: i64,
    stale_secs: i64,
    upto: int,
)
    requires
        distinct_ids(heard),
        second - first < stale_secs * 1_000_000,
        0 <= upto <= heard.len(),
    ensures
        changes(registry_after(reg, heard, first), heard.take(upto), second, stale_secs).len() == 0,
    decreases upto,
{
    if upto > 0 {
        lemma_silent_upto(reg, heard, first, second, stale_secs, upto - 1);
        let once = registry_after(reg, heard, first);
        let part = heard.take(upto);
        let head = heard.take(upto - 1);
        let last = heard[upto - 1];
        assert(part.drop_last() =~= head);
        assert(part.last() == last);
        let before = registry_after(once, head, second);
        assert(!names_station(head, last.id)) by {
            if names_station(head, last.id) {
                let k = choose|k: int|
                    0 <= k < head.len() && same_station((#[trigger] head[k]).id, last.id);
                assert(head[k] == heard[k]);
                assert(!same_station(heard[k].id, heard[upto - 1].id));
            }
        }
        lemma_not_taken_in(once, head, second, last.id);
        lemma_taken_in(reg, heard, first, upto - 1);
        assert(entries_of(before, last.id) == Some(stamped(last.freqs, first)));
        lemma_stamped(last.freqs, first);
        lemma_kept_all(stamped(last.freqs, first), second, stale_secs);
        assert(!emits(before, last.id, last.freqs, second, stale_secs));
    }
}

/// Hearing the same of the same stations a second time is no change, where the stations
/// have identities of their own and the second hearing comes before the entries of the first
/// have gone stale.
pub proof fn lemma_heard_twice_is_silent(
    reg: Seq<StationModel>,
    heard: Seq<HeardModel>,
    first: i64,
    second: i64,
    stale_secs: i64,
)
    requires
        distinct_ids(heard),
        second - first < stale_secs * 1_000_000,
    ensures
        changes(registry_after(reg, heard, first), heard, second, stale_secs).len() == 0,
{
    lemma_silent_upto(reg, heard, first, second, stale_secs, heard.len() as int);
    assert(heard.take(heard.len() as int) =~= heard);
}

} // verus!
