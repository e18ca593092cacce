//! The frames of the HF datalink as the decoder reports them.
//!
//! The channel frequency of a frame is in Hz; the frequencies that a frame names for ground
//! stations are in kHz. Positions are in millionths of a degree, levels in thousandths of a
//! dB.

use vstd::prelude::*;
use crate::formats::{
    entity_kind, entity_type_of, kind_name, kind_of, parse_entity_type, written_kind, Application,
    EntityType, Timestamp,
};
use crate::frame;
use crate::hfdl::systable::{station_by_id, SystemTable};
use crate::text::{copy_text, uppercase, uppercase_of};
use crate::wkt::WKTPoint;

verus! {

/// Whether `s` has between `min` and `max` characters.
pub open spec fn len_within(s: Seq<char>, min: nat, max: nat) -> bool {
    min <= s.len() <= max
}

/// Whether a text that may be missing has between `min` and `max` characters where it is
/// there.
pub open spec fn opt_len_within(s: Option<String>, min: nat, max: nat) -> bool {
    s matches Some(t) ==> len_within(t@, min, max)
}

/// Whether `s` has between `min` and `max` characters.
pub fn has_len(s: &String, min: usize, max: usize) -> (out: bool)
    ensures
        out == len_within(s@, min as nat, max as nat),
{
    let n = s.as_str().unicode_len();
    min <= n && n <= max
}

/// Whether `s` has between `min` and `max` characters where it is there.
pub fn opt_has_len(s: &Option<String>, min: usize, max: usize) -> (out: bool)
    ensures
        out == opt_len_within(*s, min as nat, max as nat),
{
    match s {
        Some(t) => has_len(t, min, max),
        None => true,
    }
}

#[derive(Debug, PartialEq, Eq)]
pub struct AircraftInfo {
    pub icao: String,
}

impl AircraftInfo {
    /// The address is six hexadecimal digits, in capitals or not.
    pub open spec fn wf(self) -> bool {
        frame::icao_ok(uppercase_of(self.icao@))
    }

    pub fn validate(&self) -> (out: bool)
        ensures
            out == self.wf(),
    {
        frame::is_icao(uppercase(self.icao.as_str()).as_str())
    }
}

/// One end of a frame.
#[derive(Debug, PartialEq, Eq)]
pub struct Entity {
    pub entity_type: String,
    pub id: u8,
    pub name: Option<String>,
    pub ac_info: Option<AircraftInfo>,
}

impl Entity {
    pub open spec fn wf(self) -> bool {
        &&& entity_type_of(self.entity_type@) is Some
        &&& self.ac_info matches Some(a) ==> a.wf()
    }

    pub fn validate(&self) -> (out: bool)
        ensures
            out == self.wf(),
    {
        if parse_entity_type(self.entity_type.as_str()).is_none() {
            return false;
        }
        match &self.ac_info {
            Some(a) => a.validate(),
            None => true,
        }
    }

    /// The kind of the entity.
    pub fn kind(&self) -> (out: EntityType)
        ensures
            out == kind_of(self.entity_type@),
    {
        entity_kind(self.entity_type.as_str())
    }

    /// Whether `out` is this entity in the common format: the kind under its written name,
    /// the number as it is, the aircraft address where the entity carries one, and, for a
    /// ground station, its name and the position that the system table gives for its number.
    pub open spec fn is_common(self, systable: SystemTable, out: frame::Entity) -> bool {
        let station = station_by_id(systable.stations@, self.id, 0);
        let is_gs = kind_of(self.entity_type@) == EntityType::GroundStation;
        &&& out.kind@ == kind_name(kind_of(self.entity_type@))
        &&& out.icao == (match self.ac_info {
            Some(a) => Some(a.icao),
            None => None,
        })
        &&& out.gs == (if is_gs {
            self.name
        } else {
            None
        })
        &&& out.id == Some(self.id as u32)
        &&& out.callsign is None
        &&& out.tail is None
        &&& out.coords == (if is_gs && station < systable.stations@.len() {
            Some(systable.stations@[station].point())
        } else {
            None
        })
    }

    pub fn to_common_frame_entity(&self, systable: &SystemTable) -> (out: frame::Entity)
        ensures
            self.is_common(*systable, out),
    {
        let is_gs = match self.kind() {
            EntityType::GroundStation => true,
            _ => false,
        };
        frame::Entity {
            kind: written_kind(self.kind()),
            icao: match &self.ac_info {
                Some(a) => Some(a.icao.clone()),
                None => None,
            },
            gs: if is_gs {
                copy_text(&self.name)
            } else {
                None
            },
            id: Some(self.id as u32),
            callsign: None,
            tail: None,
            coords: if is_gs {
                match systable.by_id(self.id) {
                    Some(station) => Some(station.as_point()),
                    None => None,
                }
            } else {
                None
            },
        }
    }
}

/// The lowest frequency, in kHz, that a frame may name for a ground station. It is the
/// lowest frequency of a common frame: what a frame names goes into the common frame as it
/// is, so a frame that names a lower one is refused rather than handed on.
pub const MIN_STATION_KHZ: u64 = 2000;

/// The highest frequency, in kHz, that a frame may name for a ground station.
pub const MAX_STATION_KHZ: u64 = 22_000;

/// A frequency that a frame names, in kHz.
#[derive(Clone, Copy, Debug, PartialEq, Eq, Structural)]
pub struct FrequencyInfo {
    pub id: u8,
    pub freq: u64,
}

impl FrequencyInfo {
    pub open spec fn wf(self) -> bool {
        MIN_STATION_KHZ <= self.freq <= MAX_STATION_KHZ
    }
}

/// Whether every frequency of `freqs` is one that a ground station can use.
pub open spec fn freq_infos_ok(freqs: Seq<FrequencyInfo>) -> bool {
    forall|i: int| 0 <= i < freqs.len() ==> (#[trigger] freqs[i]).wf()
}

pub fn validate_freq_infos(freqs: &Vec<FrequencyInfo>) -> (out: bool)
    ensures
        out == freq_infos_ok(freqs@),
{
    let mut i: usize = 0;
    while i < freqs.len()
        invariant
            i <= freqs.len(),
            forall|j: int| 0 <= j < i ==> (#[trigger] freqs@[j]).wf(),
        decreases freqs.len() - i,
    {
        if freqs[i].freq < MIN_STATION_KHZ || freqs[i].freq > MAX_STATION_KHZ {
            return false;
        }
        i += 1;
    }
    true
}

/// A ground station as a squitter reports it, with the frequencies on which it is active.
#[derive(Debug, PartialEq, Eq)]
pub struct GroundStation {
    pub gs: Entity,
    pub utc_sync: bool,
    pub freqs: Vec<FrequencyInfo>,
}

impl GroundStation {
    pub open spec fn wf(self) -> bool {
        self.gs.wf() && freq_infos_ok(self.freqs@)
    }

    pub fn validate(&self) -> (out: bool)
        ensures
            out == self.wf(),
    {
        self.gs.validate() && validate_freq_infos(&self.freqs)
    }
}

#[derive(Debug, PartialEq, Eq)]
pub struct PDUType {
    pub id: u16,
    pub name: String,
}

#[derive(Debug, PartialEq, Eq)]
pub struct Reason {
    pub code: u32,
    pub descr: String,
}

/// An application message as the decoder reports it.
#[derive(Debug, PartialEq, Eq)]
pub struct ACARS {
    pub err: bool,
    pub crc_ok: bool,
    pub more: bool,
    pub reg: String,
    pub mode: String,
    pub label: String,
    pub sublabel: Option<String>,
    pub cfi: Option<String>,
    pub mfi: Option<String>,
    pub blk_id: String,
    pub ack: String,
    pub flight: Option<String>,
    pub msg_num: Option<String>,
    pub msg_num_seq: Option<String>,
    pub msg_text: String,
}

impl ACARS {
    pub open spec fn wf(self) -> bool {
        &&& len_within(self.reg@, 0, 8)
        &&& len_within(self.mode@, 1, 1)
        &&& len_within(self.label@, 2, 2)
        &&& len_within(self.blk_id@, 1, 1)
        &&& len_within(self.ack@, 1, 1)
        &&& opt_len_within(self.flight, 0, 8)
        &&& opt_len_within(self.msg_num, 3, 3)
        &&& opt_len_within(self.msg_num_seq, 1, 1)
    }

    pub fn validate(&self) -> (out: bool)
        ensures
            out == self.wf(),
    {
        has_len(&self.reg, 0, 8) && has_len(&self.mode, 1, 1) && has_len(&self.label, 2, 2)
            && has_len(&self.blk_id, 1, 1) && has_len(&self.ack, 1, 1) && opt_has_len(
            &self.flight,
            0,
            8,
        ) && opt_has_len(&self.msg_num, 3, 3) && opt_has_len(&self.msg_num_seq, 1, 1)
    }

    /// Whether `out` is this message in the common format.
    pub open spec fn is_common(self, out: frame::ACARS) -> bool {
        &&& out.mode == self.mode
        &&& out.more == self.more
        &&& out.label == self.label
        &&& out.ack == Some(self.ack)
        &&& out.blk_id == Some(self.blk_id)
        &&& out.msg_num == self.msg_num
        &&& out.msg_num_seq == self.msg_num_seq
        &&& out.tail == Some(self.reg)
        &&& out.flight == self.flight
        &&& out.sublabel == self.sublabel
        &&& out.mfi == self.mfi
        &&& out.cfi == self.cfi
        &&& out.text == Some(self.msg_text)
    }

    pub fn to_common(&self) -> (out: frame::ACARS)
        ensures
            self.is_common(out),
    {
        frame::ACARS {
            mode: self.mode.clone(),
            more: self.more,
            label: self.label.clone(),
            ack: Some(self.ack.clone()),
            blk_id: Some(self.blk_id.clone()),
            msg_num: copy_text(&self.msg_num),
            msg_num_seq: copy_text(&self.msg_num_seq),
            tail: Some(self.reg.clone()),
            flight: copy_text(&self.flight),
            sublabel: copy_text(&self.sublabel),
            mfi: copy_text(&self.mfi),
            cfi: copy_text(&self.cfi),
            text: Some(self.msg_text.clone()),
        }
    }
}

pub const HALF_TURN: i64 = 180_000_000;

/// A position that an aircraft reports.
#[derive(Clone, Copy, Debug, PartialEq, Eq, Structural)]
pub struct Position {
    pub lat: i64,
    pub lon: i64,
}

impl Position {
    pub open spec fn wf(self) -> bool {
        -HALF_TURN <= self.lat <= HALF_TURN && -HALF_TURN <= self.lon <= HALF_TURN
    }

    pub fn validate(&self) -> (out: bool)
        ensures
            out == self.wf(),
    {
        -HALF_TURN <= self.lat && self.lat <= HALF_TURN && -HALF_TURN <= self.lon && self.lon
            <= HALF_TURN
    }

    /// The position as a point: longitude, latitude, and no altitude.
    pub open spec fn as_point(self) -> WKTPoint {
        WKTPoint { x: self.lon, y: self.lat, z: 0 }
    }

    pub fn as_wkt(&self) -> (out: WKTPoint)
        ensures
            out == self.as_point(),
    {
        WKTPoint { x: self.lon, y: self.lat, z: 0 }
    }
}

#[derive(Clone, Copy, Debug, PartialEq, Eq, Structural)]
pub struct SystablePartial {
    pub part_num: u8,
    pub parts_cnt: u8,
}

/// What an aircraft reports of one ground station: the frequencies on which it listens for
/// the station and those on which it heard it.
#[derive(Debug, PartialEq, Eq)]
pub struct FreqData {
    pub gs: Entity,
    pub listening_on_freqs: Vec<FrequencyInfo>,
    pub heard_on_freqs: Vec<FrequencyInfo>,
}

impl FreqData {
    pub open spec fn wf(self) -> bool {
        self.gs.wf() && freq_infos_ok(self.listening_on_freqs@) && freq_infos_ok(
            self.heard_on_freqs@,
        )
    }

    pub fn validate(&self) -> (out: bool)
        ensures
            out == self.wf(),
    {
        self.gs.validate() && validate_freq_infos(&self.listening_on_freqs)
            && validate_freq_infos(&self.heard_on_freqs)
    }
}

/// Whether every report of `data` is well formed.
pub open spec fn freq_data_ok(data: Seq<FreqData>) -> bool {
    forall|i: int| 0 <= i < data.len() ==> (#[trigger] data[i]).wf()
}

pub fn validate_freq_data(data: &Vec<FreqData>) -> (out: bool)
    ensures
        out == freq_data_ok(data@),
{
    let mut i: usize = 0;
    while i < data.len()
        invariant
            i <= data.len(),
            forall|j: int| 0 <= j < i ==> (#[trigger] data@[j]).wf(),
        decreases data.len() - i,
    {
        if !data[i].validate() {
            return false;
        }
        i += 1;
    }
    true
}

#[derive(Clone, Copy, Debug, PartialEq, Eq, Structural)]
pub struct PerfDataFreq {
    pub id: u32,
    pub freq: Option<u64>,
}

impl PerfDataFreq {
    pub open spec fn wf(self) -> bool {
        self.freq matches Some(f) ==> MIN_STATION_KHZ <= f <= MAX_STATION_KHZ
    }

    pub fn validate(&self) -> (out: bool)
        ensures
            out == self.wf(),
    {
        match self.freq {
            Some(f) => MIN_STATION_KHZ <= f && f <= MAX_STATION_KHZ,
            None => true,
        }
    }
}

/// The time of day at which a frame was sent, UTC.
#[derive(Clone, Copy, Debug, PartialEq, Eq, Structural)]
pub struct HFNPDUTime {
    pub hour: u8,
    pub min: u8,
    pub sec: u8,
}

impl HFNPDUTime {
    pub open spec fn wf(self) -> bool {
        self.hour <= 23 && self.min <= 59 && self.sec <= 59
    }

    pub fn validate(&self) -> (out: bool)
        ensures
            out == self.wf(),
    {
        self.hour <= 23 && self.min <= 59 && self.sec <= 59
    }
}

/// The network layer of a frame.
#[derive(Debug, PartialEq, Eq)]
pub struct HFNPDU {
    pub err: bool,
    pub kind: PDUType,
    pub flight_id: Option<String>,
    pub pos: Option<Position>,
    pub acars: Option<ACARS>,
    pub version: Option<u8>,
    pub systable_partial: Option<SystablePartial>,
    pub flight_leg_num: Option<u32>,
    pub frequency: Option<PerfDataFreq>,
    pub time: Option<HFNPDUTime>,
    pub freq_data: Option<Vec<FreqData>>,
    pub last_freq_change_cause: Option<Reason>,
    pub request_data: Option<u16>,
}

impl HFNPDU {
    pub open spec fn wf(self) -> bool {
        &&& opt_len_within(self.flight_id, 6, 6)
        &&& self.pos matches Some(p) ==> p.wf()
        &&& self.acars matches Some(a) ==> a.wf()
        &&& self.frequency matches Some(f) ==> f.wf()
        &&& self.time matches Some(t) ==> t.wf()
        &&& self.freq_data matches Some(d) ==> freq_data_ok(d@)
    }

    pub fn validate(&self) -> (out: bool)
        ensures
            out == self.wf(),
    {
        if !opt_has_len(&self.flight_id, 6, 6) {
            return false;
        }
        if let Some(p) = &self.pos {
            if !p.validate() {
                return false;
            }
        }
        if let Some(a) = &self.acars {
            if !a.validate() {
                return false;
            }
        }
        if let Some(f) = &self.frequency {
            if !f.validate() {
                return false;
            }
        }
        if let Some(t) = &self.time {
            if !t.validate() {
                return false;
            }
        }
        if let Some(d) = &self.freq_data {
            if !validate_freq_data(d) {
                return false;
            }
        }
        true
    }
}

/// The link layer of a frame between an aircraft and a ground station.
#[derive(Debug, PartialEq, Eq)]
pub struct LPDU {
    pub err: bool,
    pub src: Entity,
    pub dst: Entity,
    pub kind: PDUType,
    pub hfnpdu: Option<HFNPDU>,
    pub ac_info: Option<AircraftInfo>,
    pub assigned_ac_id: Option<u8>,
    pub reason: Option<Reason>,
}

impl LPDU {
    pub open spec fn wf(self) -> bool {
        &&& self.src.wf()
        &&& self.dst.wf()
        &&& self.hfnpdu matches Some(h) ==> h.wf()
        &&& self.ac_info matches Some(a) ==> a.wf()
    }

    pub fn validate(&self) -> (out: bool)
        ensures
            out == self.wf(),
    {
        if !self.src.validate() || !self.dst.validate() {
            return false;
        }
        if let Some(h) = &self.hfnpdu {
            if !h.validate() {
                return false;
            }
        }
        if let Some(a) = &self.ac_info {
            if !a.validate() {
                return false;
            }
        }
        true
    }

    /// Whether the frame comes from a ground station.
    pub fn from_ground_station(&self) -> (out: bool)
        ensures
            out == (kind_of(self.src.entity_type@) == EntityType::GroundStation),
    {
        match self.src.kind() {
            EntityType::GroundStation => true,
            _ => false,
        }
    }
}

/// Whether every ground station of `stations` is well formed.
pub open spec fn stations_ok(stations: Seq<GroundStation>) -> bool {
    forall|i: int| 0 <= i < stations.len() ==> (#[trigger] stations[i]).wf()
}

/// A squitter: what a ground station broadcasts of itself and of the other stations.
#[derive(Debug, PartialEq, Eq)]
pub struct SPDU {
    pub err: bool,
    pub src: Entity,
    pub spdu_version: u8,
    pub change_note: String,
    pub systable_version: u8,
    pub gs_status: Vec<GroundStation>,
}

impl SPDU {
    pub open spec fn wf(self) -> bool {
        self.src.wf() && stations_ok(self.gs_status@)
    }

    pub fn validate(&self) -> (out: bool)
        ensures
            out == self.wf(),
    {
        if !self.src.validate() {
            return false;
        }
        let mut i: usize = 0;
        while i < self.gs_status.len()
            invariant
                i <= self.gs_status.len(),
                forall|j: int| 0 <= j < i ==> (#[trigger] self.gs_status@[j]).wf(),
            decreases self.gs_status.len() - i,
        {
            if !self.gs_status[i].validate() {
                return false;
            }
            i += 1;
        }
        true
    }
}

pub const MIN_CHANNEL_HZ: u64 = 2_000_000;

pub const MAX_CHANNEL_HZ: u64 = 22_000_000;

/// What the decoder reports of one frame.
#[derive(Debug, PartialEq, Eq)]
pub struct HFDL {
    pub app: Application,
    pub ts: Timestamp,
    pub freq: u64,
    pub bit_rate: u16,
    pub sig_level: i64,
    pub noise_level: i64,
    pub freq_skew: i64,
    pub slot: String,
    pub spdu: Option<SPDU>,
    pub lpdu: Option<LPDU>,
}

impl HFDL {
    pub open spec fn wf(self) -> bool {
        &&& self.ts.wf()
        &&& MIN_CHANNEL_HZ <= self.freq <= MAX_CHANNEL_HZ
        &&& self.spdu matches Some(s) ==> s.wf()
        &&& self.lpdu matches Some(l) ==> l.wf()
    }

    pub fn validate(&self) -> (out: bool)
        ensures
            out == self.wf(),
    {
        if !self.ts.validate() || self.freq < MIN_CHANNEL_HZ || self.freq > MAX_CHANNEL_HZ {
            return false;
        }
        if let Some(s) = &self.spdu {
            if !s.validate() {
                return false;
            }
        }
        if let Some(l) = &self.lpdu {
            if !l.validate() {
                return false;
            }
        }
        true
    }

    /// The channel frequency in whole MHz and the Hz above them.
    pub fn freq_as_mhz(&self) -> (out: (u64, u64))
        ensures
            out.0 * 1_000_000 + out.1 == self.freq,
            out.1 < 1_000_000,
    {
        (self.freq / 1_000_000, self.freq % 1_000_000)
    }
}

/// One line of the decoder's output.
#[derive(Debug, PartialEq, Eq)]
pub struct Frame {
    pub hfdl: HFDL,
}

impl Frame {
    pub open spec fn wf(self) -> bool {
        self.hfdl.wf()
    }

    pub fn validate(&self) -> (out: bool)
        ensures
            out == self.wf(),
    {
        self.hfdl.validate()
    }
}

} // verus!
