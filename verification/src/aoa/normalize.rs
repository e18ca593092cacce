//! From a frame of the VHF datalink to the common frame.

use vstd::prelude::*;
use crate::aoa::frame::{find_param, Entity, Frame, ParamValue, AVLC};
use crate::aoa::ground_station_db::GroundStationDB;
use crate::clock::{widen_to_nanos, with_nanos};
use crate::formats::{kind_name, kind_of, EntityType};
use crate::frame;
use crate::frame::{text_of, CommonFrame};
use crate::normalize::{arrival, arrival_text, NormalizeError};
use crate::text::{chars_of, copy_text, parse_hex, parse_hexadecimal, uppercase_of};
use crate::utils::{lemma_filter_twice, normalize_tail, stripped};
use crate::wkt::{WKTPoint, WKTPolyline};

verus! {

/// A ground station that a frame was heard with, for the store of ground stations: its
/// address as a number, its name and its position.
#[derive(Debug, PartialEq, Eq)]
pub struct StationSeen {
    pub id: u32,
    pub name: String,
    pub latitude: i64,
    pub longitude: i64,
}

/// What a line of decoder output gave: the frame, and the ground station at one of its ends
/// where the table of ground stations knows it.
#[derive(Debug, PartialEq, Eq)]
pub struct Processed {
    pub frame: CommonFrame,
    pub station: Option<StationSeen>,
}

/// Whether the frame was sent by a ground station.
pub open spec fn from_ground(a: AVLC) -> bool {
    kind_of(a.src.entity_type@) == EntityType::GroundStation
}

/// The position that the aircraft gives in an exchange of parameters, where the frame has
/// one and carries no application message.
pub open spec fn given_position(a: AVLC) -> Option<WKTPoint> {
    match (a.acars, a.xid) {
        (None, Some(x)) => {
            let k = find_param(x.vdl_params@, "ac_location"@, 0);
            if k < x.vdl_params@.len() {
                match x.vdl_params@[k].value {
                    ParamValue::Location(l) => Some(l.as_point()),
                    _ => None,
                }
            } else {
                None
            }
        },
        _ => None,
    }
}

/// The airport that an exchange of parameters names as the destination.
pub open spec fn given_airport(a: AVLC) -> Option<Seq<char>> {
    match (a.acars, a.xid) {
        (None, Some(x)) => {
            let k = find_param(x.vdl_params@, "dst_airport"@, 0);
            if k < x.vdl_params@.len() {
                match x.vdl_params@[k].value {
                    ParamValue::Text(t) => Some(t@),
                    _ => None,
                }
            } else {
                None
            }
        },
        _ => None,
    }
}

/// Whether `out` is the sender of a frame in the common format. An aircraft that sends an
/// application message is given the tail number of the message, in its plain form, and the
/// flight as its call sign; one that gives its position is given that.
pub open spec fn link_src(a: AVLC, stations: Option<GroundStationDB>, out: frame::Entity) -> bool {
    &&& out.kind@ == kind_name(kind_of(a.src.entity_type@))
    &&& text_of(out.icao) == Some(uppercase_of(a.src.addr@))
    &&& out.id == a.src.common_id()
    &&& text_of(out.gs) == a.src.common_gs(stations)
    &&& out.callsign == (match a.acars {
        Some(m) => if from_ground(a) {
            None
        } else {
            m.flight
        },
        None => None,
    })
    &&& text_of(out.tail) == (match a.acars {
        Some(m) => if from_ground(a) {
            None
        } else {
            Some(stripped(m.reg@))
        },
        None => None,
    })
    &&& out.coords == (match given_position(a) {
        Some(p) => Some(p),
        None => a.src.common_coords(stations),
    })
}

/// Whether `out` is the receiver of a frame in the common format. An aircraft that receives
/// an application message is given the tail number of the message, in its plain form.
pub open spec fn link_dst(a: AVLC, stations: Option<GroundStationDB>, out: frame::Entity) -> bool {
    &&& out.kind@ == kind_name(kind_of(a.dst.entity_type@))
    &&& text_of(out.icao) == Some(uppercase_of(a.dst.addr@))
    &&& out.id == a.dst.common_id()
    &&& text_of(out.gs) == a.dst.common_gs(stations)
    &&& out.coords == a.dst.common_coords(stations)
    &&& out.callsign is None
    &&& text_of(out.tail) == (match a.acars {
        Some(m) => if from_ground(a) {
            Some(stripped(m.reg@))
        } else {
            None
        },
        None => None,
    })
}

/// Whether `paths` are the paths of a frame: the one from the position that the aircraft
/// gives to the ground station that the frame goes to, where both are known.
pub open spec fn link_paths(channel: u64, a: AVLC, dst: frame::Entity, paths: Seq<frame::PropagationPath>) -> bool {
    match (given_position(a), dst.coords) {
        (Some(p), Some(g)) => paths.len() == 1 && paths[0].freqs@ == seq![channel]
            && paths[0].path.points@ == seq![(p.x, p.y, p.z), (g.x, g.y, g.z)] && paths[0].party
            == dst,
        _ => paths.len() == 0,
    }
}

/// The end of a frame that is its ground station: the sender of a frame from the ground, and
/// else the receiver.
pub open spec fn ground_end(a: AVLC, src: frame::Entity, dst: frame::Entity) -> frame::Entity {
    if from_ground(a) {
        src
    } else {
        dst
    }
}

/// The address of an entity of the common format as a number.
pub open spec fn address_of(e: frame::Entity) -> Option<nat> {
    match e.icao {
        Some(i) => parse_hex(i@, u32::MAX as nat),
        None => None,
    }
}

/// Whether `s` is the ground station of a frame for the store of ground stations: the end
/// of the frame that is its ground station, where the table gives its name and position.
pub open spec fn station_seen(e: frame::Entity, s: Option<StationSeen>) -> bool {
    match s {
        Some(seen) => e.gs == Some(seen.name) && e.coords == Some(
            WKTPoint { x: seen.longitude, y: seen.latitude, z: e.coords->0.z },
        ) && address_of(e) == Some(seen.id as nat),
        None => e.gs is None || e.coords is None || address_of(e) is None,
    }
}

/// Whether `f` is the common frame of a frame heard on `channel`.
pub open spec fn link_frame(channel: u64, a: AVLC, stations: Option<GroundStationDB>, f: CommonFrame) -> bool {
    &&& link_src(a, stations, f.src)
    &&& f.dst matches Some(d) && link_dst(a, stations, d) && link_paths(channel, a, d, f.paths@)
    &&& match a.acars {
        Some(m) => f.err == m.err && (f.acars matches Some(c) && m.is_common(c)),
        None => !f.err && f.acars is None,
    }
    &&& f.metadata.hfdl is None
    &&& text_of(f.indexed.dst_airport) == given_airport(a)
}

/// Brings a frame of the VHF datalink to the common format.
pub fn normalize_frame(stations: Option<&GroundStationDB>, raw: &Frame) -> (out: Result<
    Processed,
    NormalizeError,
>)
    requires
        stations matches Some(db) ==> db.wf(),
    ensures
        out == Err::<Processed, NormalizeError>(NormalizeError::ValidationFailed) <==> !raw.wf(),
        out == Err::<Processed, NormalizeError>(NormalizeError::InvalidArrivalTime) <==> raw.wf()
            && arrival_text(raw.vdl2.ts) is None,
        out == Err::<Processed, NormalizeError>(NormalizeError::MissingPDU) <==> raw.wf()
            && arrival_text(raw.vdl2.ts) is Some && raw.vdl2.avlc is None,
        out != Err::<Processed, NormalizeError>(NormalizeError::BadJSON),
        out != Err::<Processed, NormalizeError>(NormalizeError::SystemTableOutOfDate),
        out matches Ok(p) ==> {
            let db = match stations {
                Some(db) => Some(*db),
                None => None,
            };
            &&& p.frame.wf()
            &&& p.frame.freq == raw.vdl2.freq
            &&& p.frame.signal == raw.vdl2.sig_level
            &&& p.frame.app.name == raw.vdl2.app.name
            &&& p.frame.app.version == raw.vdl2.app.version
            &&& p.frame.timestamp@ == with_nanos(arrival_text(raw.vdl2.ts)->0)
            &&& Some(p.frame.indexed.timestamp@) == arrival_text(raw.vdl2.ts)
            &&& raw.vdl2.avlc matches Some(a) && link_frame(raw.vdl2.freq, a, db, p.frame)
                && station_seen(ground_end(a, p.frame.src, p.frame.dst->0), p.station)
        },
{
    if !raw.validate() {
        return Err(NormalizeError::ValidationFailed);
    }
    let (_, arrived_text) = match arrival(&raw.vdl2.ts) {
        Some(a) => a,
        None => {
            return Err(NormalizeError::InvalidArrivalTime);
        },
    };
    let a = match &raw.vdl2.avlc {
        Some(a) => a,
        None => {
            return Err(NormalizeError::MissingPDU);
        },
    };
    let timestamp = widen_to_nanos(arrived_text.as_str());
    let mut src = a.src.to_common_frame_entity(stations);
    let mut dst = a.dst.to_common_frame_entity(stations);
    let from_gs = a.from_ground_station();
    let mut err = false;
    let mut acars: Option<frame::ACARS> = None;
    let mut paths: Vec<frame::PropagationPath> = Vec::new();
    let mut dst_airport: Option<String> = None;
    if let Some(m) = &a.acars {
        err = m.err;
        acars = Some(m.to_common());
        proof {
            lemma_filter_twice(m.reg@);
        }
        if from_gs {
            dst.tail = Some(normalize_tail(m.reg.as_str()));
        } else {
            src.tail = Some(normalize_tail(m.reg.as_str()));
            src.callsign = copy_text(&m.flight);
        }
    } else if let Some(x) = &a.xid {
        if let Some(p) = x.param("ac_location") {
            if let ParamValue::Location(l) = &p.value {
                let pt = l.wkt();
                if let Some(gs_pt) = &dst.coords {
                    let mut freqs: Vec<u64> = Vec::new();
                    freqs.push(raw.vdl2.freq);
                    assert(freqs@ =~= seq![raw.vdl2.freq]);
                    paths.push(
                        frame::PropagationPath {
                            freqs,
                            path: WKTPolyline::between(&pt, gs_pt),
                            party: dst.duplicate(),
                        },
                    );
                }
                src.coords = Some(pt);
            }
        }
        if let Some(p) = x.param("dst_airport") {
            if let ParamValue::Text(t) = &p.value {
                dst_airport = Some(t.clone());
            }
        }
    }
    let station: Option<StationSeen> = {
        let e = if from_gs {
            &src
        } else {
            &dst
        };
        match (&e.gs, &e.coords, &e.icao) {
            (Some(name), Some(c), Some(addr)) => match parse_hexadecimal(
                &chars_of(addr.as_str()),
                u32::MAX as u64,
            ) {
                Some(id) => Some(
                    StationSeen { id: id as u32, name: name.clone(), latitude: c.y, longitude: c.x },
                ),
                None => None,
            },
            _ => None,
        }
    };
    let frame = CommonFrame {
        timestamp,
        freq: raw.vdl2.freq,
        signal: raw.vdl2.sig_level,
        err,
        paths,
        app: frame::AppInfo {
            name: raw.vdl2.app.name.clone(),
            version: raw.vdl2.app.version.clone(),
        },
        src,
        dst: Some(dst),
        indexed: frame::Indexed { timestamp: arrived_text, dst_airport },
        metadata: frame::Metadata { hfdl: None },
        acars,
    };
    Ok(Processed { frame, station })
}

} // verus!
