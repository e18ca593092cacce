//! From a frame of the HF datalink to the common frame.

use vstd::prelude::*;
use crate::clock::{widen_to_nanos, with_nanos};
use crate::formats::{kind_name, kind_of, written_kind, EntityType};
use crate::frame;
use crate::frame::{freq_ok, freqs_ok, CommonFrame};
use crate::hfdl::feedback::{any_touches, apply_squitter, squitter_heard};
use crate::settings::event_models;
use crate::stations::{changes, registry_after};
use crate::hfdl::frame::{
    freq_infos_ok, Entity, FreqData, Frame, FrequencyInfo, GroundStation, HFNPDUTime, LPDU,
    SPDU,
};
use crate::hfdl::systable::{station_by_id, SystemTable};
use crate::normalize::{arrival, arrival_of, arrival_text, NormalizeError, Processed};
use crate::settings::ModuleSettings;
use crate::text::{uppercase, trim_text, trimmed, uppercase_of};
use crate::utils::{backfilled, lemma_filter_twice, nearest_time_in_past, normalize_tail, stripped};
use crate::wkt::{WKTPoint, WKTPolyline};

verus! {

/// How squitters feed back into the session.
#[derive(Clone, Copy, Debug, PartialEq, Eq, Structural)]
pub struct FeedbackConfig {
    /// Whether a change of frequencies may ask for a new session.
    pub enabled: bool,
    /// The widest span of a band, in kHz.
    pub max_dist: u32,
    /// Seconds after which a frequency counts as no longer active.
    pub stale_secs: i64,
}

/// The text of a value that may be missing.
pub open spec fn text_of(s: Option<String>) -> Option<Seq<char>> {
    match s {
        Some(t) => Some(t@),
        None => None,
    }
}

/// The frequencies of `infos` in Hz.
pub open spec fn in_hz(infos: Seq<FrequencyInfo>) -> Seq<u64> {
    Seq::new(infos.len(), |i: int| (infos[i].freq * 1000) as u64)
}

/// Whether `out` names the station `gs` with the frequencies `freqs`.
pub open spec fn entry_of(gs: Entity, freqs: Seq<FrequencyInfo>, out: frame::HFDLGSEntry) -> bool {
    &&& out.kind@ == kind_name(kind_of(gs.entity_type@))
    &&& out.id == gs.id
    &&& out.gs@ == (match gs.name {
        Some(n) => n@,
        None => Seq::empty(),
    })
    &&& out.freqs@ == in_hz(freqs)
}

/// Whether `out` names the stations of a squitter, in order.
pub open spec fn squitter_entries(heard: Seq<GroundStation>, out: Seq<frame::HFDLGSEntry>) -> bool {
    &&& out.len() == heard.len()
    &&& forall|i: int| 0 <= i < heard.len() ==> entry_of(heard[i].gs, heard[i].freqs@, #[trigger] out[i])
}

/// Whether `out` names the stations that an aircraft reports, in order, each with the
/// frequencies on which the aircraft heard it.
pub open spec fn report_entries(data: Seq<FreqData>, out: Seq<frame::HFDLGSEntry>) -> bool {
    &&& out.len() == data.len()
    &&& forall|i: int|
        0 <= i < data.len() ==> entry_of(data[i].gs, data[i].heard_on_freqs@, #[trigger] out[i])
}

fn frequencies_in_hz(infos: &Vec<FrequencyInfo>) -> (out: Vec<u64>)
    requires
        freq_infos_ok(infos@),
    ensures
        out@ == in_hz(infos@),
        freqs_ok(out@),
{
    let mut out: Vec<u64> = Vec::new();
    let mut i: usize = 0;
    while i < infos.len()
        invariant
            i <= infos.len(),
            freq_infos_ok(infos@),
            out@.len() == i,
            forall|j: int| 0 <= j < i ==> out@[j] == infos@[j].freq * 1000,
            forall|j: int| 0 <= j < i ==> freq_ok(#[trigger] out@[j]),
        decreases infos.len() - i,
    {
        assert(infos@[i as int].wf());
        out.push(infos[i].freq * 1000);
        i += 1;
    }
    assert(out@ =~= in_hz(infos@));
    out
}

fn make_entry(gs: &Entity, freqs: &Vec<FrequencyInfo>) -> (out: frame::HFDLGSEntry)
    requires
        freq_infos_ok(freqs@),
    ensures
        entry_of(*gs, freqs@, out),
        freqs_ok(out.freqs@),
{
    frame::HFDLGSEntry {
        kind: written_kind(gs.kind()),
        id: gs.id,
        gs: match &gs.name {
            Some(n) => n.clone(),
            None => String::new(),
        },
        freqs: frequencies_in_hz(freqs),
    }
}

/// Whether `out` is the path from the aircraft at `from` to the station of the system table
/// that the report `d` names, on the frequencies of the report.
pub open spec fn path_to_station(d: FreqData, systable: SystemTable, from: WKTPoint, out: frame::PropagationPath) -> bool {
    let k = station_by_id(systable.stations@, d.gs.id, 0);
    let station = systable.stations@[k];
    &&& out.freqs@ == in_hz(d.heard_on_freqs@)
    &&& out.path.points@ == seq![(from.x, from.y, from.z), (station.point().x, station.point().y, 0i64)]
    &&& out.party.kind@ == kind_name(EntityType::GroundStation)
    &&& out.party.id == Some(station.id as u32)
    &&& out.party.gs == Some(station.name)
    &&& out.party.icao is None
    &&& out.party.callsign is None
    &&& out.party.tail is None
    &&& out.party.coords == Some(station.point())
}

/// Whether the report `d` gives a path: it names a station other than the one the frame goes
/// to, with a frequency, and the system table knows the station.
pub open spec fn gives_path(d: FreqData, systable: SystemTable, dst_id: u32) -> bool {
    d.gs.id as u32 != dst_id && d.heard_on_freqs@.len() > 0 && station_by_id(
        systable.stations@,
        d.gs.id,
        0,
    ) < systable.stations@.len()
}

/// Whether `out` holds, in order, one path for each report of `data` that gives one.
pub open spec fn station_paths(
    data: Seq<FreqData>,
    systable: SystemTable,
    dst_id: u32,
    from: WKTPoint,
    out: Seq<frame::PropagationPath>,
) -> bool
    decreases data.len(),
{
    if data.len() == 0 {
        out.len() == 0
    } else if gives_path(data.last(), systable, dst_id) {
        out.len() > 0 && path_to_station(data.last(), systable, from, out.last()) && station_paths(
            data.drop_last(),
            systable,
            dst_id,
            from,
            out.drop_last(),
        )
    } else {
        station_paths(data.drop_last(), systable, dst_id, from, out)
    }
}

fn paths_to_stations(data: &Vec<FreqData>, systable: &SystemTable, dst_id: u32, from: WKTPoint) -> (out: Vec<
    frame::PropagationPath,
>)
    requires
        forall|i: int| 0 <= i < data@.len() ==> (#[trigger] data@[i]).wf(),
    ensures
        station_paths(data@, *systable, dst_id, from, out@),
        forall|i: int| 0 <= i < out@.len() ==> (#[trigger] out@[i]).wf(),
{
    let mut out: Vec<frame::PropagationPath> = Vec::new();
    let mut i: usize = 0;
    while i < data.len()
        invariant
            i <= data.len(),
            forall|j: int| 0 <= j < data@.len() ==> (#[trigger] data@[j]).wf(),
            station_paths(data@.take(i as int), *systable, dst_id, from, out@),
            forall|j: int| 0 <= j < out@.len() ==> (#[trigger] out@[j]).wf(),
        decreases data.len() - i,
    {
        let d = &data[i];
        let ghost before = out@;
        proof {
            assert(data@.take(i + 1).drop_last() =~= data@.take(i as int));
            assert(data@.take(i + 1).last() == data@[i as int]);
            assert(data@[i as int].wf());
        }
        if d.gs.id as u32 != dst_id && d.heard_on_freqs.len() > 0 {
            match systable.by_id(d.gs.id) {
                Some(station) => {
                    let to = station.as_point();
                    let path = frame::PropagationPath {
                        freqs: frequencies_in_hz(&d.heard_on_freqs),
                        path: WKTPolyline::between(&from, &to),
                        party: frame::Entity {
                            kind: written_kind(EntityType::GroundStation),
                            id: Some(station.id as u32),
                            gs: Some(station.name.clone()),
                            icao: None,
                            callsign: None,
                            tail: None,
                            coords: Some(to),
                        },
                    };
                    proof {
                        assert(path.wf());
                        assert(path_to_station(*d, *systable, from, path));
                    }
                    out.push(path);
                    proof {
                        assert(out@.drop_last() =~= before);
                    }
                },
                None => {},
            }
        }
        i += 1;
    }
    proof {
        assert(data@.take(data.len() as int) =~= data@);
    }
    out
}

/// The aircraft address that an entity carries, in capitals.
pub open spec fn own_icao(e: Entity) -> Option<Seq<char>> {
    match e.ac_info {
        Some(a) => Some(uppercase_of(a.icao@)),
        None => None,
    }
}

/// The position that the system table gives for an entity that is a ground station.
pub open spec fn table_coords(e: Entity, systable: SystemTable) -> Option<WKTPoint> {
    let k = station_by_id(systable.stations@, e.id, 0);
    if kind_of(e.entity_type@) == EntityType::GroundStation && k < systable.stations@.len() {
        Some(systable.stations@[k].point())
    } else {
        None
    }
}

/// The name of an entity that is a ground station.
pub open spec fn station_name(e: Entity) -> Option<String> {
    if kind_of(e.entity_type@) == EntityType::GroundStation {
        e.name
    } else {
        None
    }
}

/// Whether the frame was sent by a ground station.
pub open spec fn from_ground(l: LPDU) -> bool {
    kind_of(l.src.entity_type@) == EntityType::GroundStation
}

/// The position that the network layer of a frame reports, where it reports one.
pub open spec fn reported_position(l: LPDU) -> Option<WKTPoint> {
    match l.hfnpdu {
        Some(h) => match h.pos {
            Some(p) => if p.as_point().is_given() {
                Some(p.as_point())
            } else {
                None
            },
            None => None,
        },
        None => None,
    }
}

/// The tail number of the application message of a frame, in its plain form.
pub open spec fn plain_tail(l: LPDU) -> Option<Seq<char>> {
    match l.hfnpdu {
        Some(h) => match h.acars {
            Some(a) => Some(stripped(a.reg@)),
            None => None,
        },
        None => None,
    }
}

/// Whether `out` is the sender of a squitter in the common format.
pub open spec fn squitter_src(s: SPDU, systable: SystemTable, out: frame::Entity) -> bool {
    &&& out.kind@ == kind_name(kind_of(s.src.entity_type@))
    &&& text_of(out.icao) == own_icao(s.src)
    &&& out.gs == station_name(s.src)
    &&& out.id == Some(s.src.id as u32)
    &&& out.callsign is None
    &&& out.tail is None
    &&& out.coords == table_coords(s.src, systable)
}

/// Whether `out` is the sender of a link frame in the common format. An aircraft that sends
/// is given the address that the frame reports for the aircraft; the network layer gives the
/// call sign, the position and, with an application message from an aircraft, the tail
/// number in its plain form.
pub open spec fn link_src(l: LPDU, systable: SystemTable, out: frame::Entity) -> bool {
    &&& out.kind@ == kind_name(kind_of(l.src.entity_type@))
    &&& text_of(out.icao) == (if !from_ground(l) && l.ac_info is Some {
        Some(uppercase_of(l.ac_info->0.icao@))
    } else {
        own_icao(l.src)
    })
    &&& out.gs == station_name(l.src)
    &&& out.id == Some(l.src.id as u32)
    &&& text_of(out.callsign) == (match l.hfnpdu {
        Some(h) => match h.flight_id {
            Some(f) => Some(trimmed(f@)),
            None => None,
        },
        None => None,
    })
    &&& out.coords == (match reported_position(l) {
        Some(p) => Some(p),
        None => table_coords(l.src, systable),
    })
    &&& text_of(out.tail) == (if from_ground(l) {
        None
    } else {
        plain_tail(l)
    })
}

/// Whether `out` is the receiver of a link frame in the common format. An aircraft that
/// receives is given the address that the frame reports for the aircraft and, where the
/// frame has no network layer, the number that the ground station assigns to it; an
/// application message from a ground station gives the tail number in its plain form.
pub open spec fn link_dst(l: LPDU, systable: SystemTable, out: frame::Entity) -> bool {
    &&& out.kind@ == kind_name(kind_of(l.dst.entity_type@))
    &&& text_of(out.icao) == (if from_ground(l) && l.ac_info is Some {
        Some(uppercase_of(l.ac_info->0.icao@))
    } else {
        own_icao(l.dst)
    })
    &&& out.gs == station_name(l.dst)
    &&& out.id == (if l.hfnpdu is None && from_ground(l) && l.assigned_ac_id is Some {
        Some(l.assigned_ac_id->0 as u32)
    } else {
        Some(l.dst.id as u32)
    })
    &&& out.callsign is None
    &&& out.coords == table_coords(l.dst, systable)
    &&& text_of(out.tail) == (if from_ground(l) {
        plain_tail(l)
    } else {
        None
    })
}

fn base_entity(e: &Entity, systable: &SystemTable) -> (out: frame::Entity)
    requires
        e.wf(),
    ensures
        out.kind@ == kind_name(kind_of(e.entity_type@)),
        text_of(out.icao) == own_icao(*e),
        out.gs == station_name(*e),
        out.id == Some(e.id as u32),
        out.callsign is None,
        out.tail is None,
        out.coords == table_coords(*e, *systable),
        out.wf(),
{
    let mut out = e.to_common_frame_entity(systable);
    out.icao = match &e.ac_info {
        Some(a) => Some(uppercase(a.icao.as_str())),
        None => None,
    };
    out
}

/// The time of day at which a link frame says it was sent.
pub open spec fn sent_at(raw: Frame) -> Option<HFNPDUTime> {
    match (raw.hfdl.spdu, raw.hfdl.lpdu) {
        (None, Some(l)) => match l.hfnpdu {
            Some(h) => h.time,
            None => None,
        },
        _ => None,
    }
}

/// The written form of the instant under which a frame is filed: the latest instant up to
/// its arrival at which a clock showed the time at which the frame says it was sent, or the
/// arrival where the frame says nothing of that.
pub open spec fn filed_text(raw: Frame) -> Option<Seq<char>> {
    match arrival_of(raw.hfdl.ts) {
        Some(t) => match sent_at(raw) {
            Some(at) => backfilled(t, at.hour, at.min, at.sec).text(),
            None => t.text(),
        },
        None => None,
    }
}

/// Whether the calendar holds the times of a frame.
pub open spec fn times_ok(raw: Frame) -> bool {
    arrival_text(raw.hfdl.ts) is Some && filed_text(raw) is Some
}

/// Whether a frame speaks of a system table that is newer than `systable`.
pub open spec fn table_outdated(raw: Frame, systable: SystemTable) -> bool {
    raw.hfdl.spdu matches Some(s) && s.systable_version > systable.version
}

/// Whether `f` is the common frame of a squitter.
pub open spec fn squitter_frame(s: SPDU, systable: SystemTable, f: CommonFrame) -> bool {
    &&& squitter_src(s, systable, f.src)
    &&& f.dst is None
    &&& f.acars is None
    &&& !f.err
    &&& f.paths@.len() == 0
    &&& f.metadata.hfdl matches Some(m) && m.kind@ == "Squitter"@ && m.reason is None
        && squitter_entries(s.gs_status@, m.heard_on@)
}

/// Whether `paths` are the paths of a link frame: first the path from the position that the
/// aircraft reports to the ground station that the frame goes to, where both are known; then
/// the paths to the other stations on which the aircraft heard the network.
pub open spec fn link_paths(
    channel: u64,
    l: LPDU,
    systable: SystemTable,
    src: frame::Entity,
    dst: frame::Entity,
    paths: Seq<frame::PropagationPath>,
) -> bool {
    let direct = reported_position(l) is Some && dst.coords is Some;
    let rest = if direct {
        paths.skip(1)
    } else {
        paths
    };
    &&& direct ==> paths.len() >= 1 && paths[0].freqs@ == seq![channel] && paths[0].path.points@
        == seq![
        (reported_position(l)->0.x, reported_position(l)->0.y, reported_position(l)->0.z),
        (dst.coords->0.x, dst.coords->0.y, dst.coords->0.z),
    ] && paths[0].party == dst
    &&& match heard_reports(l) {
        Some(data) => if src.coords is Some && kind_of(l.dst.entity_type@)
            == EntityType::GroundStation {
            station_paths(data@, systable, dst.id->0, src.coords->0, rest)
        } else {
            rest.len() == 0
        },
        None => rest.len() == 0,
    }
}

/// What an aircraft reports of the stations it heard.
pub open spec fn heard_reports(l: LPDU) -> Option<Vec<FreqData>> {
    match l.hfnpdu {
        Some(h) => h.freq_data,
        None => None,
    }
}

/// Whether `m` says of a link frame what kind of frame it is, which stations the aircraft
/// heard, and why it changed its frequency or was turned away.
pub open spec fn link_metadata(l: LPDU, m: frame::HFDLMetadata) -> bool {
    match l.hfnpdu {
        Some(h) => {
            &&& m.kind == h.kind.name
            &&& match h.freq_data {
                Some(d) => report_entries(d@, m.heard_on@),
                None => m.heard_on@.len() == 0,
            }
            &&& m.reason == (match h.last_freq_change_cause {
                Some(r) => Some(r.descr),
                None => None,
            })
        },
        None => {
            &&& m.kind == l.kind.name
            &&& m.heard_on@.len() == 0
            &&& m.reason == (match l.reason {
                Some(r) => Some(r.descr),
                None => None,
            })
        },
    }
}

/// Whether `f` is the common frame of a link frame heard on `channel`.
pub open spec fn link_frame(channel: u64, l: LPDU, systable: SystemTable, f: CommonFrame) -> bool {
    &&& link_src(l, systable, f.src)
    &&& f.dst matches Some(d) && link_dst(l, systable, d) && link_paths(
        channel,
        l,
        systable,
        f.src,
        d,
        f.paths@,
    )
    &&& match l.hfnpdu {
        Some(h) => match h.acars {
            Some(a) => f.err == a.err && (f.acars matches Some(c) && a.is_common(c)),
            None => !f.err && f.acars is None,
        },
        None => !f.err && f.acars is None,
    }
    &&& f.metadata.hfdl matches Some(m) && link_metadata(l, m)
}

fn squitter_metadata(s: &SPDU) -> (out: frame::HFDLMetadata)
    requires
        s.wf(),
    ensures
        out.kind@ == "Squitter"@,
        out.reason is None,
        squitter_entries(s.gs_status@, out.heard_on@),
        out.wf(),
{
    let mut heard_on: Vec<frame::HFDLGSEntry> = Vec::new();
    let mut i: usize = 0;
    while i < s.gs_status.len()
        invariant
            i <= s.gs_status.len(),
            s.wf(),
            heard_on@.len() == i,
            forall|j: int|
                0 <= j < i ==> entry_of(
                    s.gs_status@[j].gs,
                    s.gs_status@[j].freqs@,
                    #[trigger] heard_on@[j],
                ),
            forall|j: int| 0 <= j < i ==> freqs_ok((#[trigger] heard_on@[j]).freqs@),
        decreases s.gs_status.len() - i,
    {
        assert(s.gs_status@[i as int].wf());
        heard_on.push(make_entry(&s.gs_status[i].gs, &s.gs_status[i].freqs));
        i += 1;
    }
    frame::HFDLMetadata { kind: "Squitter".to_owned(), heard_on, reason: None }
}

fn link_metadata_of(l: &LPDU) -> (out: frame::HFDLMetadata)
    requires
        l.wf(),
    ensures
        link_metadata(*l, out),
        out.wf(),
{
    match &l.hfnpdu {
        Some(h) => {
            let mut heard_on: Vec<frame::HFDLGSEntry> = Vec::new();
            match &h.freq_data {
                Some(d) => {
                    let mut i: usize = 0;
                    while i < d.len()
                        invariant
                            i <= d.len(),
                            forall|j: int| 0 <= j < d@.len() ==> (#[trigger] d@[j]).wf(),
                            heard_on@.len() == i,
                            forall|j: int|
                                0 <= j < i ==> entry_of(
                                    d@[j].gs,
                                    d@[j].heard_on_freqs@,
                                    #[trigger] heard_on@[j],
                                ),
                            forall|j: int| 0 <= j < i ==> freqs_ok((#[trigger] heard_on@[j]).freqs@),
                        decreases d.len() - i,
                    {
                        assert(d@[i as int].wf());
                        heard_on.push(make_entry(&d[i].gs, &d[i].heard_on_freqs));
                        i += 1;
                    }
                },
                None => {},
            }
            frame::HFDLMetadata {
                kind: h.kind.name.clone(),
                heard_on,
                reason: match &h.last_freq_change_cause {
                    Some(r) => Some(r.descr.clone()),
                    None => None,
                },
            }
        },
        None => frame::HFDLMetadata {
            kind: l.kind.name.clone(),
            heard_on: Vec::new(),
            reason: match &l.reason {
                Some(r) => Some(r.descr.clone()),
                None => None,
            },
        },
    }
}

fn link_entities(l: &LPDU, systable: &SystemTable) -> (out: (frame::Entity, frame::Entity))
    requires
        l.wf(),
    ensures
        link_src(*l, *systable, out.0),
        link_dst(*l, *systable, out.1),
        out.0.wf(),
        out.1.wf(),
{
    let mut src = base_entity(&l.src, systable);
    let mut dst = base_entity(&l.dst, systable);
    let from_gs = l.from_ground_station();
    if let Some(a) = &l.ac_info {
        if from_gs {
            dst.icao = Some(uppercase(a.icao.as_str()));
        } else {
            src.icao = Some(uppercase(a.icao.as_str()));
        }
    }
    match &l.hfnpdu {
        Some(h) => {
            if let Some(f) = &h.flight_id {
                src.callsign = Some(trim_text(f.as_str()));
            }
            if let Some(p) = &h.pos {
                let pt = p.as_wkt();
                if pt.valid() {
                    src.coords = Some(pt);
                }
            }
            if let Some(a) = &h.acars {
                proof {
                    lemma_filter_twice(a.reg@);
                }
                if from_gs {
                    dst.tail = Some(normalize_tail(a.reg.as_str()));
                } else {
                    src.tail = Some(normalize_tail(a.reg.as_str()));
                }
            }
        },
        None => {
            if let Some(id) = l.assigned_ac_id {
                if from_gs {
                    dst.id = Some(id as u32);
                }
            }
        },
    }
    (src, dst)
}

fn link_paths_of(channel: u64, l: &LPDU, systable: &SystemTable, src: &frame::Entity, dst: &frame::Entity) -> (out:
    Vec<frame::PropagationPath>)
    requires
        l.wf(),
        freq_ok(channel),
        link_src(*l, *systable, *src),
        link_dst(*l, *systable, *dst),
        dst.wf(),
    ensures
        link_paths(channel, *l, *systable, *src, *dst, out@),
        forall|i: int| 0 <= i < out@.len() ==> (#[trigger] out@[i]).wf(),
{
    let mut out: Vec<frame::PropagationPath> = Vec::new();
    let mut direct = false;
    if let Some(h) = &l.hfnpdu {
        if let Some(p) = &h.pos {
            let pt = p.as_wkt();
            if pt.valid() {
                if let Some(gs_pt) = &dst.coords {
                    let mut freqs: Vec<u64> = Vec::new();
                    freqs.push(channel);
                    assert(freqs@ =~= seq![channel]);
                    out.push(
                        frame::PropagationPath {
                            freqs,
                            path: WKTPolyline::between(&pt, gs_pt),
                            party: dst.duplicate(),
                        },
                    );
                    direct = true;
                }
            }
        }
    }
    assert(direct == (reported_position(*l) is Some && dst.coords is Some));
    let ghost first = out@;
    let mut rest: Vec<frame::PropagationPath> = Vec::new();
    if let Some(h) = &l.hfnpdu {
        if let Some(data) = &h.freq_data {
            let to_ground = match l.dst.kind() {
                EntityType::GroundStation => true,
                _ => false,
            };
            if let (Some(pt), Some(id), true) = (src.coords, dst.id, to_ground) {
                rest = paths_to_stations(data, systable, id, pt);
            }
        }
    }
    let ghost tail = rest@;
    out.append(&mut rest);
    proof {
        assert(out@ =~= first + tail);
        if direct {
            assert(out@.skip(1) =~= tail);
        } else {
            assert(out@ =~= tail);
        }
    }
    out
}

/// Brings a frame of the HF datalink to the common format. A squitter is also taken into
/// the registry of ground stations at `now`, which is in microseconds since the Unix epoch.
pub fn normalize_frame(
    systable: &SystemTable,
    settings: &mut ModuleSettings,
    config: FeedbackConfig,
    current_band: &Vec<u64>,
    raw: &Frame,
    now: i64,
) -> (out: Result<Processed, NormalizeError>)
    requires
        old(settings).wf(),
    ensures
        final(settings).wf(),
        final(settings).props == old(settings).props,
        final(settings).swarm_mode == old(settings).swarm_mode,
        final(settings).disable_api_control == old(settings).disable_api_control,
        final(settings).api_token == old(settings).api_token,
        out is Err ==> *final(settings) == *old(settings),
        out == Err::<Processed, NormalizeError>(NormalizeError::SystemTableOutOfDate)
            <==> table_outdated(*raw, *systable),
        out == Err::<Processed, NormalizeError>(NormalizeError::ValidationFailed) <==> !table_outdated(
            *raw,
            *systable,
        ) && !raw.wf(),
        out == Err::<Processed, NormalizeError>(NormalizeError::InvalidArrivalTime)
            <==> !table_outdated(*raw, *systable) && raw.wf() && !times_ok(*raw),
        out == Err::<Processed, NormalizeError>(NormalizeError::MissingPDU) <==> !table_outdated(
            *raw,
            *systable,
        ) && raw.wf() && times_ok(*raw) && raw.hfdl.spdu is None && raw.hfdl.lpdu is None,
        out != Err::<Processed, NormalizeError>(NormalizeError::BadJSON),
        out matches Ok(p) ==> {
            &&& p.frame.wf()
            &&& p.frame.freq == raw.hfdl.freq
            &&& p.frame.signal == raw.hfdl.sig_level
            &&& p.frame.app.name == raw.hfdl.app.name
            &&& p.frame.app.version == raw.hfdl.app.version
            &&& p.frame.timestamp@ == with_nanos(arrival_text(raw.hfdl.ts)->0)
            &&& Some(p.frame.indexed.timestamp@) == filed_text(*raw)
            &&& p.frame.indexed.dst_airport is None
            &&& raw.hfdl.spdu matches Some(s) ==> {
                &&& squitter_frame(s, *systable, p.frame)
                &&& final(settings).station_models() == registry_after(
                    old(settings).station_models(),
                    squitter_heard(s.gs_status@),
                    now,
                )
                &&& event_models(p.events@) == changes(
                    old(settings).station_models(),
                    squitter_heard(s.gs_status@),
                    now,
                    config.stale_secs,
                )
                &&& forall|k: int|
                    0 <= k < p.events@.len() ==> (#[trigger] p.events@[k]).wf() && Some(
                        p.events@[k].ts@,
                    ) == arrival_text(raw.hfdl.ts)
                &&& p.session_update == (config.enabled && any_touches(
                    changes(
                        old(settings).station_models(),
                        squitter_heard(s.gs_status@),
                        now,
                        config.stale_secs,
                    ),
                    current_band@,
                    config.max_dist as int,
                ))
            }
            &&& raw.hfdl.spdu is None ==> {
                &&& raw.hfdl.lpdu matches Some(l) && link_frame(raw.hfdl.freq, l, *systable, p.frame)
                &&& *final(settings) == *old(settings)
                &&& p.events@.len() == 0
                &&& !p.session_update
            }
        },
{
    if let Some(s) = &raw.hfdl.spdu {
        if s.systable_version > systable.version {
            return Err(NormalizeError::SystemTableOutOfDate);
        }
    }
    if !raw.validate() {
        return Err(NormalizeError::ValidationFailed);
    }
    let (arrived, arrived_text) = match arrival(&raw.hfdl.ts) {
        Some(a) => a,
        None => {
            return Err(NormalizeError::InvalidArrivalTime);
        },
    };
    let timestamp = widen_to_nanos(arrived_text.as_str());
    let app = frame::AppInfo {
        name: raw.hfdl.app.name.clone(),
        version: raw.hfdl.app.version.clone(),
    };
    if let Some(s) = &raw.hfdl.spdu {
        let src = base_entity(&s.src, systable);
        let metadata = squitter_metadata(s);
        let feedback = apply_squitter(
            settings,
            &s.gs_status,
            &arrived_text,
            now,
            config.stale_secs,
            current_band,
            config.max_dist,
        );
        let frame = CommonFrame {
            timestamp,
            freq: raw.hfdl.freq,
            signal: raw.hfdl.sig_level,
            err: false,
            paths: Vec::new(),
            app,
            src,
            dst: None,
            indexed: frame::Indexed { timestamp: arrived_text, dst_airport: None },
            metadata: frame::Metadata { hfdl: Some(metadata) },
            acars: None,
        };
        Ok(
            Processed {
                frame,
                events: feedback.events,
                session_update: config.enabled && feedback.touched,
            },
        )
    } else if let Some(l) = &raw.hfdl.lpdu {
        let mut filed = arrived_text;
        let mut err = false;
        let mut acars: Option<frame::ACARS> = None;
        if let Some(h) = &l.hfnpdu {
            if let Some(at) = &h.time {
                assert(at.wf());
                let sent = match nearest_time_in_past(&arrived, at.hour, at.min, at.sec) {
                    Some(t) => t,
                    None => {
                        return Err(NormalizeError::InvalidArrivalTime);
                    },
                };
                filed = match sent.to_text() {
                    Some(t) => t,
                    None => {
                        return Err(NormalizeError::InvalidArrivalTime);
                    },
                };
            }
            if let Some(a) = &h.acars {
                err = a.err;
                acars = Some(a.to_common());
            }
        }
        let (src, dst) = link_entities(l, systable);
        let paths = link_paths_of(raw.hfdl.freq, l, systable, &src, &dst);
        let metadata = link_metadata_of(l);
        let frame = CommonFrame {
            timestamp,
            freq: raw.hfdl.freq,
            signal: raw.hfdl.sig_level,
            err,
            paths,
            app,
            src,
            dst: Some(dst),
            indexed: frame::Indexed { timestamp: filed, dst_airport: None },
            metadata: frame::Metadata { hfdl: Some(metadata) },
            acars,
        };
        Ok(Processed { frame, events: Vec::new(), session_update: false })
    } else {
        Err(NormalizeError::MissingPDU)
    }
}

} // verus!
