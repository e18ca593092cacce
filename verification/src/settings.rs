//! The settings store: keyed properties behind validators, and the registry of ground
//! stations with the frequencies on which each was last heard to be active.

use vstd::prelude::*;
use crate::events::{GroundStationChangeEvent, StationId, StationIdModel};
use crate::stations::{
    change_by, changes, current_of, distinct_khz, emits, find_station, frequencies_of,
    heard_models, keep_fresh, kept, khz_of, lemma_find_station_bounds,
    lemma_find_station_same_ids, lemma_kept_all, lemma_kept_distinct, lemma_stamped, name_model,
    registry_after, same_frequencies, same_station, stamp, stamped, stations_after,
    ChangeModel, FreqInfo, GroundStation, Heard, StationModel,
};
use crate::text::{chars_of, copy_text, list_text, same_chars};
use crate::validators::{validate, verdict, ValidationError, Validator};
use crate::value::{Kind, Value, ValueModel};

verus! {

/// A property: a key, its value, and the rule that gates writes to it, if it has one.
#[derive(Debug, PartialEq, Eq)]
pub struct Prop {
    pub key: String,
    pub value: Value,
    pub validator: Option<Validator>,
}

/// Where the property with the key `key` stands among `props`, looking from `from` on; the
/// length of `props` where there is none.
pub open spec fn find_key(props: Seq<Prop>, key: Seq<char>, from: int) -> int
    decreases props.len() - from,
{
    if from >= props.len() {
        props.len() as int
    } else if props[from].key@ == key {
        from
    } else {
        find_key(props, key, from + 1)
    }
}

/// The value of the property `key`, if there is such a property.
pub open spec fn value_of(props: Seq<Prop>, key: Seq<char>) -> Option<ValueModel> {
    let i = find_key(props, key, 0);
    if 0 <= i < props.len() {
        Some(props[i].value@)
    } else {
        None
    }
}

/// The rule that gates the property `key`, if it has one.
pub open spec fn validator_of(props: Seq<Prop>, key: Seq<char>) -> Option<Validator> {
    let i = find_key(props, key, 0);
    if 0 <= i < props.len() {
        props[i].validator
    } else {
        None
    }
}

/// No key occurs twice.
pub open spec fn distinct_keys(props: Seq<Prop>) -> bool {
    forall|i: int, j: int| 0 <= i < j < props.len() ==> props[i].key@ != props[j].key@
}

/// Why a write to a property was refused.
#[derive(Clone, Copy, Debug, PartialEq, Eq, Structural)]
pub enum PatchError {
    /// The property's rule refused the value.
    FailedValidation(ValidationError),
    /// There is no such property.
    UnknownProp,
    /// The value is not of the kind that the property holds, or the property holds a kind
    /// that cannot be written.
    KindMismatch,
}

/// A property can be written with a value of its own kind, where that kind is a flag, a
/// number, a text or a list.
pub open spec fn writable(held: Kind, given: Kind) -> bool {
    held == given && (held == Kind::Bool || held == Kind::Number || held == Kind::Text || held
        == Kind::List)
}

/// What a write of `value` to the property `key` meets.
pub open spec fn patch_verdict(props: Seq<Prop>, key: Seq<char>, value: ValueModel) -> Result<
    (),
    PatchError,
> {
    if validator_of(props, key) matches Some(v) && verdict(v, value) is Err {
        Err(PatchError::FailedValidation(verdict(validator_of(props, key)->0, value)->Err_0))
    } else {
        match value_of(props, key) {
            None => Err(PatchError::UnknownProp),
            Some(held) => if writable(held.kind(), value.kind()) {
                Ok(())
            } else {
                Err(PatchError::KindMismatch)
            },
        }
    }
}

pub proof fn lemma_find_key_bounds(props: Seq<Prop>, key: Seq<char>, from: int)
    requires
        0 <= from <= props.len(),
    ensures
        from <= find_key(props, key, from) <= props.len(),
        find_key(props, key, from) < props.len() ==> props[find_key(props, key, from)].key@ == key,
        forall|i: int| from <= i < find_key(props, key, from) ==> props[i].key@ != key,
    decreases props.len() - from,
{
    if from < props.len() && props[from].key@ != key {
        lemma_find_key_bounds(props, key, from + 1);
    }
}

/// Two lists of properties with the same keys at the same places find each key at the same
/// place.
pub proof fn lemma_find_key_same_keys(a: Seq<Prop>, b: Seq<Prop>, key: Seq<char>, from: int)
    requires
        0 <= from,
        a.len() == b.len(),
        forall|i: int| 0 <= i < a.len() ==> a[i].key@ == b[i].key@,
    ensures
        find_key(a, key, from) == find_key(b, key, from),
    decreases a.len() - from,
{
    if from < a.len() && a[from].key@ != key {
        lemma_find_key_same_keys(a, b, key, from + 1);
    }
}

/// A property added at the end is found there by its own key, where that key is new, and
/// changes where no other key is found.
pub proof fn lemma_find_key_push(props: Seq<Prop>, p: Prop, key: Seq<char>, from: int)
    requires
        0 <= from <= props.len(),
    ensures
        find_key(props, key, from) < props.len() ==> find_key(props.push(p), key, from)
            == find_key(props, key, from),
        find_key(props, key, from) == props.len() && p.key@ == key ==> find_key(
            props.push(p),
            key,
            from,
        ) == props.len(),
        find_key(props, key, from) == props.len() && p.key@ != key ==> find_key(
            props.push(p),
            key,
            from,
        ) == props.len() + 1,
    decreases props.len() - from,
{
    let q = props.push(p);
    if from < props.len() {
        assert(q[from] == props[from]);
        if props[from].key@ != key {
            lemma_find_key_push(props, p, key, from + 1);
        }
    } else {
        assert(q[from] == p);
        if p.key@ != key {
            assert(find_key(q, key, from + 1) == q.len());
        }
    }
}

/// The process-wide settings of a module.
#[derive(Debug, PartialEq, Eq)]
pub struct ModuleSettings {
    pub props: Vec<Prop>,
    pub stations: Vec<GroundStation>,
    pub swarm_mode: bool,
    pub disable_api_control: bool,
    pub api_token: Option<String>,
}

/// The value that the last pair of `pairs` with the key `key` gives, if there is one.
pub open spec fn last_value(pairs: Seq<(String, Value)>, key: Seq<char>) -> Option<ValueModel>
    decreases pairs.len(),
{
    if pairs.len() == 0 {
        None
    } else if pairs.last().0@ == key {
        Some(pairs.last().1@)
    } else {
        last_value(pairs.drop_last(), key)
    }
}

impl ModuleSettings {
    /// No property key occurs twice, and every station's frequencies are distinct.
    pub open spec fn wf(self) -> bool {
        &&& distinct_keys(self.props@)
        &&& forall|i: int|
            0 <= i < self.stations@.len() ==> distinct_khz((#[trigger] self.stations@[i])@.active)
    }

    /// The stations of the registry, each as what it holds.
    pub open spec fn station_models(self) -> Seq<StationModel> {
        Seq::new(self.stations@.len(), |i: int| self.stations@[i]@)
    }

    /// Settings with the given properties, none of them gated, and no station.
    pub fn new(
        swarm_mode: bool,
        disable_api_control: bool,
        api_token: Option<&String>,
        settings: Vec<(String, Value)>,
    ) -> (out: ModuleSettings)
        ensures
            out.wf(),
            out.stations@.len() == 0,
            out.swarm_mode == swarm_mode,
            out.disable_api_control == disable_api_control,
            api_token matches Some(t) ==> out.api_token == Some(*t),
            api_token is None ==> out.api_token is None,
            forall|key: Seq<char>| value_of(out.props@, key) == last_value(settings@, key),
            forall|key: Seq<char>| validator_of(out.props@, key) is None,
    {
        let mut out = ModuleSettings {
            props: Vec::new(),
            stations: Vec::new(),
            swarm_mode,
            disable_api_control,
            api_token: match api_token {
                Some(t) => Some(t.clone()),
                None => None,
            },
        };
        let mut i: usize = 0;
        while i < settings.len()
            invariant
                i <= settings.len(),
                out.wf(),
                out.stations@.len() == 0,
                out.swarm_mode == swarm_mode,
                out.disable_api_control == disable_api_control,
                api_token matches Some(t) ==> out.api_token == Some(*t),
                api_token is None ==> out.api_token is None,
                forall|key: Seq<char>|
                    value_of(out.props@, key) == last_value(settings@.take(i as int), key),
                forall|key: Seq<char>| validator_of(out.props@, key) is None,
            decreases settings.len() - i,
        {
            let ghost before = out.props@;
            let key = settings[i].0.clone();
            let value = settings[i].1.duplicate();
            proof {
                assert(settings@.take(i + 1).drop_last() =~= settings@.take(i as int));
                assert(settings@.take(i + 1).last() == settings@[i as int]);
            }
            out.set_prop(key, value);
            proof {
                assert forall|k: Seq<char>| value_of(out.props@, k) == last_value(
                    settings@.take(i + 1),
                    k,
                ) by {
                    if k != settings@[i as int].0@ {
                        assert(value_of(out.props@, k) == value_of(before, k));
                    }
                }
            }
            i += 1;
        }
        proof {
            assert(settings@.take(settings.len() as int) =~= settings@);
        }
        out
    }

    /// Where the property `key` stands.
    pub fn find(&self, key: &str) -> (out: Option<usize>)
        ensures
            out matches Some(i) ==> i < self.props@.len() && find_key(self.props@, key@, 0) == i
                && self.props@[i as int].key@ == key@,
            out is None ==> find_key(self.props@, key@, 0) == self.props@.len(),
    {
        let wanted = chars_of(key);
        let mut i: usize = 0;
        while i < self.props.len()
            invariant
                i <= self.props.len(),
                wanted@ == key@,
                find_key(self.props@, key@, 0) == find_key(self.props@, key@, i as int),
            decreases self.props.len() - i,
        {
            if same_chars(&chars_of(self.props[i].key.as_str()), &wanted) {
                return Some(i);
            }
            i += 1;
        }
        None
    }

    /// The value of the property `key`.
    pub fn get(&self, key: &str) -> (out: Option<&Value>)
        ensures
            out is Some <==> value_of(self.props@, key@) is Some,
            out matches Some(v) ==> value_of(self.props@, key@) == Some(v@),
    {
        match self.find(key) {
            Some(i) => Some(&self.props[i].value),
            None => None,
        }
    }

    /// The rule that gates the property `prop`.
    pub fn get_validator(&self, prop: &str) -> (out: Option<Validator>)
        ensures
            out == validator_of(self.props@, prop@),
    {
        match self.find(prop) {
            Some(i) => self.props[i].validator,
            None => None,
        }
    }

    fn store(&mut self, key: String, value: Value, validator: Option<Validator>, keep: bool)
        requires
            old(self).wf(),
        ensures
            final(self).wf(),
            final(self).stations == old(self).stations,
            final(self).swarm_mode == old(self).swarm_mode,
            final(self).disable_api_control == old(self).disable_api_control,
            final(self).api_token == old(self).api_token,
            value_of(final(self).props@, key@) == Some(value@),
            validator_of(final(self).props@, key@) == (if keep {
                validator_of(old(self).props@, key@)
            } else {
                validator
            }),
            forall|k: Seq<char>|
                k != key@ ==> value_of(final(self).props@, k) == value_of(old(self).props@, k)
                    && validator_of(final(self).props@, k) == validator_of(old(self).props@, k),
    {
        let ghost before = self.props@;
        let found = self.find(key.as_str());
        match found {
            Some(i) => {
                let rule = if keep {
                    self.props[i].validator
                } else {
                    validator
                };
                let ghost entry = Prop { key, value, validator: rule };
                self.props.set(i, Prop { key, value, validator: rule });
                proof {
                    let after = self.props@;
                    assert(after[i as int] == entry);
                    assert forall|k: Seq<char>| find_key(after, k, 0) == find_key(before, k, 0) by {
                        lemma_find_key_same_keys(after, before, k, 0);
                    }
                    assert forall|k: Seq<char>| k != key@ implies value_of(after, k) == value_of(
                        before,
                        k,
                    ) && validator_of(after, k) == validator_of(before, k) by {
                        lemma_find_key_bounds(before, k, 0);
                    }
                    assert forall|a: int, b: int| 0 <= a < b < after.len() implies after[a].key@
                        != after[b].key@ by {
                        assert(after[a].key@ == before[a].key@);
                        assert(after[b].key@ == before[b].key@);
                    }
                }
            },
            None => {
                let rule = if keep {
                    None
                } else {
                    validator
                };
                let ghost entry = Prop { key, value, validator: rule };
                self.props.push(Prop { key, value, validator: rule });
                proof {
                    let after = self.props@;
                    assert(after == before.push(entry));
                    assert forall|k: Seq<char>|
                        (find_key(before, k, 0) < before.len() ==> find_key(after, k, 0)
                            == find_key(before, k, 0)) && (find_key(before, k, 0) == before.len()
                            && k == key@ ==> find_key(after, k, 0) == before.len()) && (find_key(
                            before,
                            k,
                            0,
                        ) == before.len() && k != key@ ==> find_key(after, k, 0) == before.len()
                            + 1) by {
                        lemma_find_key_push(before, entry, k, 0);
                    }
                    assert forall|k: Seq<char>| k != key@ implies value_of(after, k) == value_of(
                        before,
                        k,
                    ) && validator_of(after, k) == validator_of(before, k) by {
                        lemma_find_key_bounds(before, k, 0);
                        if find_key(before, k, 0) < before.len() {
                            assert(after[find_key(before, k, 0)] == before[find_key(before, k, 0)]);
                        }
                    }
                    lemma_find_key_bounds(before, key@, 0);
                    assert forall|a: int, b: int| 0 <= a < b < after.len() implies after[a].key@
                        != after[b].key@ by {
                        if b < before.len() {
                            assert(after[a] == before[a] && after[b] == before[b]);
                        } else {
                            assert(after[a] == before[a]);
                        }
                    }
                }
            },
        }
    }

    /// Sets the property `key` to `value`, adding it where it is new. A rule that gates the
    /// property stays.
    pub fn set_prop(&mut self, key: String, value: Value)
        requires
            old(self).wf(),
        ensures
            final(self).wf(),
            final(self).stations == old(self).stations,
            final(self).swarm_mode == old(self).swarm_mode,
            final(self).disable_api_control == old(self).disable_api_control,
            final(self).api_token == old(self).api_token,
            value_of(final(self).props@, key@) == Some(value@),
            validator_of(final(self).props@, key@) == validator_of(old(self).props@, key@),
            forall|k: Seq<char>|
                k != key@ ==> value_of(final(self).props@, k) == value_of(old(self).props@, k)
                    && validator_of(final(self).props@, k) == validator_of(old(self).props@, k),
    {
        self.store(key, value, None, true);
    }

    /// Sets the property `prop` to `value` and gates every later write to it by `validator`.
    pub fn add_prop_with_validator(&mut self, prop: String, value: Value, validator: Validator)
        requires
            old(self).wf(),
        ensures
            final(self).wf(),
            final(self).stations == old(self).stations,
            final(self).swarm_mode == old(self).swarm_mode,
            final(self).disable_api_control == old(self).disable_api_control,
            final(self).api_token == old(self).api_token,
            value_of(final(self).props@, prop@) == Some(value@),
            validator_of(final(self).props@, prop@) == Some(validator),
            forall|k: Seq<char>|
                k != prop@ ==> value_of(final(self).props@, k) == value_of(old(self).props@, k)
                    && validator_of(final(self).props@, k) == validator_of(old(self).props@, k),
    {
        self.store(prop, value, Some(validator), false);
    }

    /// Writes `value` to the property `prop` on behalf of an operator: the property's rule is
    /// asked first, the property must exist, and the value must be of the kind that the
    /// property holds. A refused write changes nothing.
    pub fn patch(&mut self, prop: &str, value: Value) -> (out: Result<(), PatchError>)
        requires
            old(self).wf(),
        ensures
            final(self).wf(),
            out == patch_verdict(old(self).props@, prop@, value@),
            out is Err ==> *final(self) == *old(self),
            final(self).stations == old(self).stations,
            final(self).swarm_mode == old(self).swarm_mode,
            final(self).disable_api_control == old(self).disable_api_control,
            final(self).api_token == old(self).api_token,
            out is Ok ==> value_of(final(self).props@, prop@) == Some(value@),
            forall|k: Seq<char>|
                validator_of(final(self).props@, k) == validator_of(old(self).props@, k),
            forall|k: Seq<char>|
                k != prop@ ==> value_of(final(self).props@, k) == value_of(old(self).props@, k),
    {
        let found = self.find(prop);
        let i = match found {
            Some(i) => i,
            None => {
                return Err(PatchError::UnknownProp);
            },
        };
        if let Some(rule) = self.props[i].validator {
            if let Err(e) = validate(rule, &value) {
                return Err(PatchError::FailedValidation(e));
            }
        }
        let held = self.props[i].value.kind();
        let given = value.kind();
        let fits = held == given && (held == Kind::Bool || held == Kind::Number || held
            == Kind::Text || held == Kind::List);
        if !fits {
            return Err(PatchError::KindMismatch);
        }
        let key = self.props[i].key.clone();
        self.store(key, value, None, true);
        Ok(())
    }
}

/// A copy of `v`.
pub fn copy_numbers(v: &Vec<u64>) -> (out: Vec<u64>)
    ensures
        out@ == v@,
{
    let mut out: Vec<u64> = Vec::new();
    let mut i: usize = 0;
    while i < v.len()
        invariant
            i <= v.len(),
            out@ == v@.take(i as int),
        decreases v.len() - i,
    {
        out.push(v[i]);
        assert(v@.take(i + 1) =~= v@.take(i as int).push(v@[i as int]));
        i += 1;
    }
    assert(v@.take(v.len() as int) =~= v@);
    out
}

/// Records that the station `station_id` was heard, at `now`, to be active on exactly
/// `freqs`. The station's entries older than `stale_timeout_secs` seconds are forgotten
/// first; where what is left differs from `freqs`, the change is reported as an event that
/// carries `ts`. A station that the registry does not hold is added under `station_name`.
pub fn update_station_by_frequencies(
    settings: &mut ModuleSettings,
    ts: String,
    now: i64,
    stale_timeout_secs: i64,
    station_id: StationId,
    station_name: Option<String>,
    freqs: &Vec<u64>,
) -> (out: Option<GroundStationChangeEvent>)
    requires
        old(settings).wf(),
    ensures
        final(settings).wf(),
        final(settings).props == old(settings).props,
        final(settings).swarm_mode == old(settings).swarm_mode,
        final(settings).disable_api_control == old(settings).disable_api_control,
        final(settings).api_token == old(settings).api_token,
        final(settings).station_models() == stations_after(
            old(settings).station_models(),
            station_id@,
            name_model(station_name),
            freqs@,
            now,
        ),
        out is Some <==> emits(
            old(settings).station_models(),
            station_id@,
            freqs@,
            now,
            stale_timeout_secs,
        ),
        out matches Some(e) ==> {
            let i = find_station(old(settings).station_models(), station_id@, 0);
            &&& e.wf()
            &&& e.ts == ts
            &&& e.id@ == final(settings).station_models()[i].id
            &&& name_model(e.name) == final(settings).station_models()[i].name
            &&& e.old_freqs@ == khz_of(
                current_of(old(settings).station_models(), station_id@, now, stale_timeout_secs),
            )
            &&& e.new_freqs@ == freqs@
        },
{
    let ghost models = settings.station_models();
    let mut i: usize = 0;
    let mut found = false;
    while i < settings.stations.len() && !found
        invariant
            i <= settings.stations.len(),
            *settings == *old(settings),
            models == settings.station_models(),
            !found ==> find_station(models, station_id@, 0) == find_station(
                models,
                station_id@,
                i as int,
            ),
            found ==> i < settings.stations.len() && find_station(models, station_id@, 0) == i,
        decreases settings.stations.len() - i + (if found { 0int } else { 1int }),
    {
        assert(models[i as int] == settings.stations@[i as int]@);
        if settings.stations[i].id.matches(&station_id) {
            found = true;
        } else {
            i += 1;
        }
    }
    proof {
        lemma_stamped(freqs@, now);
    }
    let fresh_entries = stamp(freqs, now);
    let old_entries: Vec<FreqInfo> = if found {
        keep_fresh(&settings.stations[i].active_frequencies, now, stale_timeout_secs)
    } else {
        Vec::new()
    };
    assert(old_entries@ == current_of(models, station_id@, now, stale_timeout_secs)) by {
        if found {
            assert(models[i as int] == settings.stations@[i as int]@);
        }
    }
    let old_freqs = frequencies_of(&old_entries);
    let changed = !same_frequencies(&old_freqs, freqs);
    let (event_id, event_name) = if found {
        (settings.stations[i].id.duplicate(), copy_text(&settings.stations[i].name))
    } else {
        (station_id.duplicate(), copy_text(&station_name))
    };
    if found {
        let station = GroundStation {
            id: settings.stations[i].id.duplicate(),
            name: copy_text(&settings.stations[i].name),
            active_frequencies: fresh_entries,
        };
        settings.stations.set(i, station);
    } else {
        settings.stations.push(
            GroundStation { id: station_id, name: station_name, active_frequencies: fresh_entries },
        );
    }
    proof {
        let after = settings.station_models();
        let want = stations_after(models, station_id@, name_model(station_name), freqs@, now);
        assert(after.len() == want.len());
        assert forall|k: int| 0 <= k < after.len() implies after[k] == want[k] by {
            assert(after[k] == settings.stations@[k]@);
            if k != i {
                assert(settings.stations@[k] == old(settings).stations@[k]);
                assert(models[k] == old(settings).stations@[k]@);
            }
        }
        assert(after =~= want);
        assert forall|k: int| 0 <= k < settings.stations@.len() implies distinct_khz(
            (#[trigger] settings.stations@[k])@.active,
        ) by {
            if k != i {
                assert(settings.stations@[k] == old(settings).stations@[k]);
            }
        }
    }
    if changed {
        let old_text = list_text(&old_freqs);
        let new_text = list_text(freqs);
        Some(
            GroundStationChangeEvent {
                ts,
                id: event_id,
                name: event_name,
                old: old_text,
                new: new_text,
                old_freqs,
                new_freqs: copy_numbers(freqs),
            },
        )
    } else {
        None
    }
}

/// Hearing a station on the same frequencies a second time is no change, as long as the
/// second hearing comes before the entries of the first have gone stale.
pub proof fn lemma_second_update_is_silent(
    stations: Seq<StationModel>,
    id: StationIdModel,
    name: Option<Seq<char>>,
    freqs: Seq<u64>,
    first: i64,
    second: i64,
    stale_secs: i64,
)
    requires
        second - first < stale_secs * 1_000_000,
    ensures
        !emits(stations_after(stations, id, name, freqs, first), id, freqs, second, stale_secs),
{
    let after = stations_after(stations, id, name, freqs, first);
    let i = find_station(stations, id, 0);
    lemma_find_station_bounds(stations, id, 0);
    lemma_stamped(freqs, first);
    assert(find_station(after, id, 0) == i && after[i].active == stamped(freqs, first)) by {
        if i < stations.len() {
            lemma_find_station_same_ids(stations, after, id, 0);
        } else {
            lemma_find_station_same_ids(stations, after, id, 0);
            assert(same_station(after[stations.len() as int].id, id));
        }
    }
    lemma_kept_all(stamped(freqs, first), second, stale_secs);
}

/// The flag that the property `key` holds; off where there is no such property or it holds
/// no flag.
pub open spec fn flag_of(props: Seq<Prop>, key: Seq<char>) -> bool {
    match value_of(props, key) {
        Some(ValueModel::Bool(b)) => b,
        _ => false,
    }
}

/// The whole number that the property `key` holds, where it holds one.
pub open spec fn number_of(props: Seq<Prop>, key: Seq<char>) -> Option<u64> {
    match value_of(props, key) {
        Some(ValueModel::Unsigned(n)) => Some(n),
        _ => None,
    }
}

/// The registry with every station's stale entries forgotten.
pub open spec fn aged(stations: Seq<StationModel>, now: i64, stale_secs: i64) -> Seq<StationModel> {
    Seq::new(
        stations.len(),
        |i: int|
            StationModel {
                id: stations[i].id,
                name: stations[i].name,
                active: kept(stations[i].active, now, stale_secs),
            },
    )
}

/// The frequencies on which the stations are active, station after station.
pub open spec fn active_khz(stations: Seq<StationModel>) -> Seq<u64>
    decreases stations.len(),
{
    if stations.len() == 0 {
        Seq::empty()
    } else {
        active_khz(stations.drop_last()) + khz_of(stations.last().active)
    }
}

impl ModuleSettings {
    /// The flag that the property `key` holds.
    pub fn flag(&self, key: &str) -> (out: bool)
        ensures
            out == flag_of(self.props@, key@),
    {
        match self.get(key) {
            Some(v) => match v.as_bool() {
                Some(b) => b,
                None => false,
            },
            None => false,
        }
    }

    /// The whole number that the property `key` holds.
    pub fn number(&self, key: &str) -> (out: Option<u64>)
        ensures
            out == number_of(self.props@, key@),
    {
        match self.get(key) {
            Some(v) => v.as_u64(),
            None => None,
        }
    }

    /// Forgets, for every station, the frequencies that were last heard `stale_secs` seconds
    /// before `now` or earlier.
    pub fn invalidate_stations(&mut self, now: i64, stale_secs: i64)
        requires
            old(self).wf(),
        ensures
            final(self).wf(),
            final(self).props == old(self).props,
            final(self).swarm_mode == old(self).swarm_mode,
            final(self).disable_api_control == old(self).disable_api_control,
            final(self).api_token == old(self).api_token,
            final(self).station_models() == aged(old(self).station_models(), now, stale_secs),
    {
        let mut fresh: Vec<GroundStation> = Vec::new();
        let mut i: usize = 0;
        while i < self.stations.len()
            invariant
                i <= self.stations.len(),
                *self == *old(self),
                self.wf(),
                fresh@.len() == i,
                forall|k: int|
                    0 <= k < i ==> (#[trigger] fresh@[k])@ == aged(
                        old(self).station_models(),
                        now,
                        stale_secs,
                    )[k],
                forall|k: int| 0 <= k < i ==> distinct_khz((#[trigger] fresh@[k])@.active),
            decreases self.stations.len() - i,
        {
            let st = &self.stations[i];
            proof {
                assert(self.station_models()[i as int] == st@);
                assert(distinct_khz(self.stations@[i as int]@.active));
                lemma_kept_distinct(st@.active, now, stale_secs);
            }
            fresh.push(
                GroundStation {
                    id: st.id.duplicate(),
                    name: copy_text(&st.name),
                    active_frequencies: keep_fresh(&st.active_frequencies, now, stale_secs),
                },
            );
            i += 1;
        }
        self.stations = fresh;
        proof {
            assert(self.station_models() =~= aged(old(self).station_models(), now, stale_secs));
        }
    }

    /// The frequencies on which the stations are active, station after station.
    pub fn active_frequencies(&self) -> (out: Vec<u64>)
        ensures
            out@ == active_khz(self.station_models()),
    {
        let ghost models = self.station_models();
        let mut out: Vec<u64> = Vec::new();
        let mut i: usize = 0;
        while i < self.stations.len()
            invariant
                i <= self.stations.len(),
                models == self.station_models(),
                out@ == active_khz(models.take(i as int)),
            decreases self.stations.len() - i,
        {
            let ghost before = out@;
            let fs = &self.stations[i].active_frequencies;
            let mut k: usize = 0;
            while k < fs.len()
                invariant
                    k <= fs.len(),
                    out@ == before + khz_of(fs@).take(k as int),
                decreases fs.len() - k,
            {
                out.push(fs[k].khz);
                assert(khz_of(fs@).take(k + 1) =~= khz_of(fs@).take(k as int).push(fs@[k as int].khz));
                assert(out@ =~= before + khz_of(fs@).take(k + 1));
                k += 1;
            }
            proof {
                assert(khz_of(fs@).take(fs.len() as int) =~= khz_of(fs@));
                assert(models.take(i + 1).drop_last() =~= models.take(i as int));
                assert(models.take(i + 1).last() == models[i as int]);
                assert(models[i as int] == self.stations@[i as int]@);
            }
            i += 1;
        }
        proof {
            assert(models.take(self.stations.len() as int) =~= models);
        }
        out
    }
}

/// What a change event reports.
pub open spec fn event_model(e: GroundStationChangeEvent) -> ChangeModel {
    ChangeModel { id: e.id@, name: e.name_text(), old: e.old_freqs@, new: e.new_freqs@ }
}

/// What the change events report, in order.
pub open spec fn event_models(events: Seq<GroundStationChangeEvent>) -> Seq<ChangeModel> {
    Seq::new(events.len(), |i: int| event_model(events[i]))
}

/// Takes everything of `heard` into the registry, in order, at `now`. Each change is
/// reported as an event that carries `ts`.
pub fn apply_heard(
    settings: &mut ModuleSettings,
    heard: &Vec<Heard>,
    ts: &String,
    now: i64,
    stale_secs: i64,
) -> (out: Vec<GroundStationChangeEvent>)
    requires
        old(settings).wf(),
    ensures
        final(settings).wf(),
        final(settings).props == old(settings).props,
        final(settings).swarm_mode == old(settings).swarm_mode,
        final(settings).disable_api_control == old(settings).disable_api_control,
        final(settings).api_token == old(settings).api_token,
        final(settings).station_models() == registry_after(
            old(settings).station_models(),
            heard_models(heard@),
            now,
        ),
        event_models(out@) == changes(
            old(settings).station_models(),
            heard_models(heard@),
            now,
            stale_secs,
        ),
        forall|k: int| 0 <= k < out@.len() ==> (#[trigger] out@[k]).wf() && out@[k].ts == *ts,
{
    let ghost models = settings.station_models();
    let ghost all = heard_models(heard@);
    let mut events: Vec<GroundStationChangeEvent> = Vec::new();
    let mut k: usize = 0;
    proof {
        assert(event_models(events@) =~= changes(models, all.take(0), now, stale_secs));
    }
    while k < heard.len()
        invariant
            k <= heard.len(),
            settings.wf(),
            settings.props == old(settings).props,
            settings.swarm_mode == old(settings).swarm_mode,
            settings.disable_api_control == old(settings).disable_api_control,
            settings.api_token == old(settings).api_token,
            models == old(settings).station_models(),
            all == heard_models(heard@),
            settings.station_models() == registry_after(models, all.take(k as int), now),
            event_models(events@) == changes(models, all.take(k as int), now, stale_secs),
            forall|j: int| 0 <= j < events@.len() ==> (#[trigger] events@[j]).wf() && events@[j].ts == *ts,
        decreases heard.len() - k,
    {
        proof {
            assert(all.take(k + 1).drop_last() =~= all.take(k as int));
            assert(all.take(k + 1).last() == heard@[k as int]@);
        }
        let h = &heard[k];
        let ghost before = settings.station_models();
        let ghost earlier = event_models(events@);
        let change = update_station_by_frequencies(
            settings,
            ts.clone(),
            now,
            stale_secs,
            h.id.duplicate(),
            copy_text(&h.name),
            &h.freqs,
        );
        match change {
            Some(e) => {
                proof {
                    lemma_find_station_bounds(before, h@.id, 0);
                    assert(event_model(e) == change_by(before, h@, now, stale_secs));
                }
                events.push(e);
                proof {
                    assert(event_models(events@) =~= earlier.push(event_model(e)));
                }
            },
            None => {},
        }
        k += 1;
    }
    proof {
        assert(all.take(heard.len() as int) =~= all);
    }
    events
}

} // verus!
