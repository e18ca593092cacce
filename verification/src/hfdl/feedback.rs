//! The feedback of squitters: what the ground stations broadcast of their active frequencies
//! goes into the registry, and a change that concerns the band of the running session asks
//! for a new session.

use vstd::prelude::*;
use crate::events::{GroundStationChangeEvent, StationId, StationIdModel};
use crate::hfdl::frame::GroundStation;
use crate::settings::{apply_heard, event_model, event_models, ModuleSettings};
use crate::stations::{
    changes, contains_khz, distinct_ids, heard_models, lemma_heard_twice_is_silent, name_model,
    registry_after, ChangeModel, Heard, HeardModel, StationModel,
};
use crate::text::copy_text;

verus! {

/// The frequencies, in kHz, on which a squitter reports a station to be active.
pub open spec fn heard_freqs(gs: GroundStation) -> Seq<u64> {
    Seq::new(gs.freqs@.len(), |i: int| gs.freqs@[i].freq)
}

/// What a squitter says of its stations: each under its number, with the frequencies on
/// which it is active.
pub open spec fn squitter_heard(stations: Seq<GroundStation>) -> Seq<HeardModel> {
    Seq::new(
        stations.len(),
        |i: int|
            HeardModel {
                id: StationIdModel::Number(stations[i].gs.id as u64),
                name: name_model(stations[i].gs.name),
                freqs: heard_freqs(stations[i]),
            },
    )
}

/// What a squitter says of its stations.
pub fn heard_in_squitter(stations: &Vec<GroundStation>) -> (out: Vec<Heard>)
    ensures
        heard_models(out@) == squitter_heard(stations@),
{
    let mut out: Vec<Heard> = Vec::new();
    let mut k: usize = 0;
    while k < stations.len()
        invariant
            k <= stations.len(),
            out@.len() == k,
            forall|j: int| 0 <= j < k ==> (#[trigger] out@[j])@ == squitter_heard(stations@)[j],
        decreases stations.len() - k,
    {
        let station = &stations[k];
        let mut freqs: Vec<u64> = Vec::new();
        let mut i: usize = 0;
        while i < station.freqs.len()
            invariant
                i <= station.freqs.len(),
                freqs@.len() == i,
                forall|j: int| 0 <= j < i ==> freqs@[j] == station.freqs@[j].freq,
            decreases station.freqs.len() - i,
        {
            freqs.push(station.freqs[i].freq);
            i += 1;
        }
        assert(freqs@ =~= heard_freqs(*station));
        out.push(
            Heard {
                id: StationId::Number(station.gs.id as u64),
                name: copy_text(&station.gs.name),
                freqs,
            },
        );
        k += 1;
    }
    assert(heard_models(out@) =~= squitter_heard(stations@));
    out
}

/// Whether the frequency `x` concerns a session that listens on `band`: it lies within the
/// band, or below it and within `max_dist` kHz of the band's last frequency, or above it and
/// within `max_dist` kHz of that frequency. Every frequency concerns a session without a
/// band.
pub open spec fn touches(x: u64, band: Seq<u64>, max_dist: int) -> bool {
    band.len() == 0 || (band.first() <= x && x <= band.last()) || (x < band.first() && band.last()
        - x <= max_dist) || (x > band.last() && x - band.last() <= max_dist)
}

/// Whether one of `a` that is none of `b` concerns a session on `band`.
pub open spec fn lost_touches(a: Seq<u64>, b: Seq<u64>, band: Seq<u64>, max_dist: int) -> bool {
    exists|i: int| 0 <= i < a.len() && !b.contains(#[trigger] a[i]) && touches(a[i], band, max_dist)
}

/// Whether a frequency that `old` and `new` do not share concerns a session on `band`.
pub open spec fn change_touches(old: Seq<u64>, new: Seq<u64>, band: Seq<u64>, max_dist: int) -> bool {
    lost_touches(old, new, band, max_dist) || lost_touches(new, old, band, max_dist)
}

/// Whether one of the changes concerns a session on `band`.
pub open spec fn any_touches(changed: Seq<ChangeModel>, band: Seq<u64>, max_dist: int) -> bool {
    exists|k: int|
        0 <= k < changed.len() && change_touches(
            (#[trigger] changed[k]).old,
            changed[k].new,
            band,
            max_dist,
        )
}

/// Whether the frequency `x` concerns a session on `band`.
pub fn frequency_touches(x: u64, band: &Vec<u64>, max_dist: u32) -> (out: bool)
    ensures
        out == touches(x, band@, max_dist as int),
{
    if band.len() == 0 {
        return true;
    }
    let first = band[0];
    let last = band[band.len() - 1];
    if first <= x && x <= last {
        true
    } else if x < first {
        last < x || last - x <= max_dist as u64
    } else if x > last {
        x - last <= max_dist as u64
    } else {
        false
    }
}

fn any_lost_touches(a: &Vec<u64>, b: &Vec<u64>, band: &Vec<u64>, max_dist: u32) -> (out: bool)
    ensures
        out == lost_touches(a@, b@, band@, max_dist as int),
{
    let mut i: usize = 0;
    while i < a.len()
        invariant
            i <= a.len(),
            forall|j: int|
                0 <= j < i ==> !(!b@.contains(#[trigger] a@[j]) && touches(
                    a@[j],
                    band@,
                    max_dist as int,
                )),
        decreases a.len() - i,
    {
        if !contains_khz(b, a[i]) && frequency_touches(a[i], band, max_dist) {
            return true;
        }
        i += 1;
    }
    false
}

/// Whether a frequency that `old` and `new` do not share concerns a session on `band`.
pub fn change_concerns_band(old: &Vec<u64>, new: &Vec<u64>, band: &Vec<u64>, max_dist: u32) -> (out:
    bool)
    ensures
        out == change_touches(old@, new@, band@, max_dist as int),
{
    any_lost_touches(old, new, band, max_dist) || any_lost_touches(new, old, band, max_dist)
}

/// Whether one of the changes that the events report concerns a session on `band`.
pub fn events_concern_band(events: &Vec<GroundStationChangeEvent>, band: &Vec<u64>, max_dist: u32) -> (out:
    bool)
    ensures
        out == any_touches(event_models(events@), band@, max_dist as int),
{
    let mut k: usize = 0;
    while k < events.len()
        invariant
            k <= events.len(),
            forall|j: int|
                0 <= j < k ==> !change_touches(
                    (#[trigger] event_models(events@)[j]).old,
                    event_models(events@)[j].new,
                    band@,
                    max_dist as int,
                ),
        decreases events.len() - k,
    {
        assert(event_models(events@)[k as int] == event_model(events@[k as int]));
        if change_concerns_band(&events[k].old_freqs, &events[k].new_freqs, band, max_dist) {
            return true;
        }
        k += 1;
    }
    false
}

/// What taking in a squitter gave.
#[derive(Debug, PartialEq, Eq)]
pub struct Feedback {
    /// The changes, in the order of the stations that changed.
    pub events: Vec<GroundStationChangeEvent>,
    /// Whether a change concerns the band of the running session.
    pub touched: bool,
}

/// Takes the stations of a squitter into the registry, in order. Each change is reported as
/// an event that carries `ts`.
pub fn apply_squitter(
    settings: &mut ModuleSettings,
    heard: &Vec<GroundStation>,
    ts: &String,
    now: i64,
    stale_secs: i64,
    current_band: &Vec<u64>,
    max_dist: u32,
) -> (out: Feedback)
    requires
        old(settings).wf(),
    ensures
        final(settings).wf(),
        final(settings).props == old(settings).props,
        final(settings).swarm_mode == old(settings).swarm_mode,
        final(settings).disable_api_control == old(settings).disable_api_control,
        final(settings).api_token == old(settings).api_token,
        final(settings).station_models() == registry_after(
            old(settings).station_models(),
            squitter_heard(heard@),
            now,
        ),
        event_models(out.events@) == changes(
            old(settings).station_models(),
            squitter_heard(heard@),
            now,
            stale_secs,
        ),
        forall|k: int|
            0 <= k < out.events@.len() ==> (#[trigger] out.events@[k]).wf() && out.events@[k].ts
                == *ts,
        out.touched == any_touches(
            changes(old(settings).station_models(), squitter_heard(heard@), now, stale_secs),
            current_band@,
            max_dist as int,
        ),
{
    let list = heard_in_squitter(heard);
    let events = apply_heard(settings, &list, ts, now, stale_secs);
    let touched = events_concern_band(&events, current_band, max_dist);
    Feedback { events, touched }
}

/// No two stations of a squitter have the same number.
pub open spec fn distinct_stations(heard: Seq<GroundStation>) -> bool {
    forall|i: int, j: int| 0 <= i < j < heard.len() ==> heard[i].gs.id != heard[j].gs.id
}

/// Applying a squitter a second time reports no change and does not concern the session,
/// where its stations have numbers of their own and the second time comes before the
/// entries of the first have gone stale.
pub proof fn lemma_same_squitter_is_silent(
    reg: Seq<StationModel>,
    heard: Seq<GroundStation>,
    first: i64,
    second: i64,
    stale_secs: i64,
    band: Seq<u64>,
    max_dist: int,
)
    requires
        distinct_stations(heard),
        second - first < stale_secs * 1_000_000,
    ensures
        changes(
            registry_after(reg, squitter_heard(heard), first),
            squitter_heard(heard),
            second,
            stale_secs,
        ).len() == 0,
        !any_touches(
            changes(
                registry_after(reg, squitter_heard(heard), first),
                squitter_heard(heard),
                second,
                stale_secs,
            ),
            band,
            max_dist,
        ),
{
    let list = squitter_heard(heard);
    assert(distinct_ids(list)) by {
        assert forall|i: int, j: int| 0 <= i < j < list.len() implies !crate::stations::same_station(
            list[i].id,
            list[j].id,
        ) by {
            assert(heard[i].gs.id != heard[j].gs.id);
        }
    }
    lemma_heard_twice_is_silent(reg, list, first, second, stale_secs);
}

} // verus!
