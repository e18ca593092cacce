//! The frames of the VHF datalink as the decoder reports them.
//!
//! The channel frequency of a frame is in Hz. Positions are in millionths of a degree,
//! levels in thousandths of a dB.

use vstd::prelude::*;
use crate::aoa::ground_station_db::{last_key, GroundStationDB};
use crate::formats::{
    entity_kind, entity_type_of, kind_name, kind_of, parse_entity_type, written_kind, Application,
    EntityType, Timestamp,
};
use crate::frame;
use crate::hfdl::frame::{has_len, len_within, opt_has_len, opt_len_within};
use crate::text::{chars_of, copy_text, parse_hex, parse_hexadecimal, string_of, uppercase, uppercase_of};
use crate::wkt::WKTPoint;

verus! {

/// One end of a frame, under its address.
#[derive(Debug, PartialEq, Eq)]
pub struct Entity {
    pub addr: String,
    pub entity_type: String,
    pub status: Option<String>,
}

/// The name under which a ground station of the table goes: the airport's name and, in
/// brackets, its two codes.
pub open spec fn station_label(name: Seq<char>, iata: Seq<char>, icao: Seq<char>) -> Seq<char> {
    name + seq![' ', '('] + iata + seq!['/'] + icao + seq![')']
}

fn make_label(name: &String, iata: &String, icao: &String) -> (out: String)
    ensures
        out@ == station_label(name@, iata@, icao@),
{
    let mut v = chars_of(name.as_str());
    v.push(' ');
    v.push('(');
    let mut a = chars_of(iata.as_str());
    v.append(&mut a);
    v.push('/');
    let mut b = chars_of(icao.as_str());
    v.append(&mut b);
    v.push(')');
    assert(v@ =~= station_label(name@, iata@, icao@));
    string_of(&v)
}

impl Entity {
    /// The address is six hexadecimal digits, and the kind is one of the kinds of entity.
    pub open spec fn wf(self) -> bool {
        frame::icao_ok(uppercase_of(self.addr@)) && entity_type_of(self.entity_type@) is Some
    }

    pub fn validate(&self) -> (out: bool)
        ensures
            out == self.wf(),
    {
        frame::is_icao(uppercase(self.addr.as_str()).as_str()) && parse_entity_type(
            self.entity_type.as_str(),
        ).is_some()
    }

    /// The kind of the entity.
    pub fn kind(&self) -> (out: EntityType)
        ensures
            out == kind_of(self.entity_type@),
    {
        entity_kind(self.entity_type.as_str())
    }

    /// The place of the entity in the table of ground stations; -1 for an entity that is no
    /// ground station or that the table does not hold.
    pub open spec fn row(self, stations: Option<GroundStationDB>) -> int {
        match stations {
            Some(db) => if kind_of(self.entity_type@) == EntityType::GroundStation {
                last_key(db.keys@, uppercase_of(self.addr@), db.keys@.len() as int)
            } else {
                -1
            },
            None => -1,
        }
    }

    /// The address of a ground station as a number.
    pub open spec fn common_id(self) -> Option<u32> {
        if kind_of(self.entity_type@) == EntityType::GroundStation {
            match parse_hex(uppercase_of(self.addr@), u32::MAX as nat) {
                Some(n) => Some(n as u32),
                None => None,
            }
        } else {
            None
        }
    }

    /// The name that the table gives for a ground station.
    pub open spec fn common_gs(self, stations: Option<GroundStationDB>) -> Option<Seq<char>> {
        if self.row(stations) >= 0 {
            let rec = stations->0.records@[self.row(stations)];
            Some(station_label(rec.airport_name@, rec.airport_iata@, rec.airport_icao@))
        } else {
            None
        }
    }

    /// The position that the table gives for a ground station.
    pub open spec fn common_coords(self, stations: Option<GroundStationDB>) -> Option<WKTPoint> {
        if self.row(stations) >= 0 {
            Some(stations->0.records@[self.row(stations)].coords)
        } else {
            None
        }
    }

    /// Whether `out` is this entity in the common format: the address in capitals, and, for
    /// a ground station, the address as a number and the name and position that the table
    /// gives for it.
    pub open spec fn is_common(self, stations: Option<GroundStationDB>, out: frame::Entity) -> bool {
        &&& out.kind@ == kind_name(kind_of(self.entity_type@))
        &&& frame::text_of(out.icao) == Some(uppercase_of(self.addr@))
        &&& out.callsign is None
        &&& out.tail is None
        &&& out.id == self.common_id()
        &&& frame::text_of(out.gs) == self.common_gs(stations)
        &&& out.coords == self.common_coords(stations)
    }

    pub fn to_common_frame_entity(&self, stations: Option<&GroundStationDB>) -> (out: frame::Entity)
        requires
            stations matches Some(db) ==> db.wf(),
        ensures
            self.is_common(
                match stations {
                    Some(db) => Some(*db),
                    None => None,
                },
                out,
            ),
    {
        let norm_addr = uppercase(self.addr.as_str());
        let mut id: Option<u32> = match parse_hexadecimal(&chars_of(norm_addr.as_str()), u32::MAX as u64) {
            Some(n) => Some(n as u32),
            None => None,
        };
        let mut gs: Option<String> = None;
        let mut coords: Option<WKTPoint> = None;
        match self.kind() {
            EntityType::GroundStation => {
                if let Some(db) = stations {
                    if let Some(station) = db.get(&norm_addr) {
                        gs = Some(
                            make_label(
                                &station.airport_name,
                                &station.airport_iata,
                                &station.airport_icao,
                            ),
                        );
                        coords = Some(station.coords);
                    }
                }
            },
            _ => {
                id = None;
            },
        }
        frame::Entity {
            kind: written_kind(self.kind()),
            icao: Some(norm_addr),
            gs,
            id,
            callsign: None,
            tail: None,
            coords,
        }
    }
}

/// An application message as the decoder reports it.
#[derive(Debug, PartialEq, Eq)]
pub struct ACARS {
    pub err: bool,
    pub crc_ok: bool,
    pub more: bool,
    pub reg: String,
    pub mode: String,
    pub label: String,
    pub sublabel: Option<String>,
    pub cfi: Option<String>,
    pub mfi: Option<String>,
    pub blk_id: String,
    pub ack: String,
    pub flight: Option<String>,
    pub msg_num: Option<String>,
    pub msg_num_seq: Option<String>,
    pub msg_text: String,
}

impl ACARS {
    pub open spec fn wf(self) -> bool {
        &&& len_within(self.reg@, 0, 8)
        &&& len_within(self.mode@, 1, 1)
        &&& len_within(self.label@, 2, 2)
        &&& len_within(self.blk_id@, 1, 1)
        &&& len_within(self.ack@, 1, 1)
        &&& opt_len_within(self.flight, 0, 8)
        &&& opt_len_within(self.msg_num, 3, 3)
        &&& opt_len_within(self.msg_num_seq, 1, 1)
    }

    pub fn validate(&self) -> (out: bool)
        ensures
            out == self.wf(),
    {
        has_len(&self.reg, 0, 8) && has_len(&self.mode, 1, 1) && has_len(&self.label, 2, 2)
            && has_len(&self.blk_id, 1, 1) && has_len(&self.ack, 1, 1) && opt_has_len(
            &self.flight,
            0,
            8,
        ) && opt_has_len(&self.msg_num, 3, 3) && opt_has_len(&self.msg_num_seq, 1, 1)
    }

    /// Whether `out` is this message in the common format.
    pub open spec fn is_common(self, out: frame::ACARS) -> bool {
        &&& out.mode == self.mode
        &&& out.more == self.more
        &&& out.label == self.label
        &&& out.ack == Some(self.ack)
        &&& out.blk_id == Some(self.blk_id)
        &&& out.msg_num == self.msg_num
        &&& out.msg_num_seq == self.msg_num_seq
        &&& out.tail == Some(self.reg)
        &&& out.flight == self.flight
        &&& out.sublabel == self.sublabel
        &&& out.mfi == self.mfi
        &&& out.cfi == self.cfi
        &&& out.text == Some(self.msg_text)
    }

    pub fn to_common(&self) -> (out: frame::ACARS)
        ensures
            self.is_common(out),
    {
        frame::ACARS {
            mode: self.mode.clone(),
            more: self.more,
            label: self.label.clone(),
            ack: Some(self.ack.clone()),
            blk_id: Some(self.blk_id.clone()),
            msg_num: copy_text(&self.msg_num),
            msg_num_seq: copy_text(&self.msg_num_seq),
            tail: Some(self.reg.clone()),
            flight: copy_text(&self.flight),
            sublabel: copy_text(&self.sublabel),
            mfi: copy_text(&self.mfi),
            cfi: copy_text(&self.cfi),
            text: Some(self.msg_text.clone()),
        }
    }
}

#[derive(Clone, Copy, Debug, PartialEq, Eq, Structural)]
pub struct GPSCoord {
    pub lat: i64,
    pub lon: i64,
}

#[derive(Clone, Copy, Debug, PartialEq, Eq, Structural)]
pub struct VDLParamLocation {
    pub loc: GPSCoord,
    pub alt: u32,
}

#[derive(Clone, Copy, Debug, PartialEq, Eq, Structural)]
pub struct ParamACLocationCoord {
    pub lat: i64,
    pub lon: i64,
}

/// Where an aircraft says it is.
#[derive(Clone, Copy, Debug, PartialEq, Eq, Structural)]
pub struct ParamACLocation {
    pub loc: ParamACLocationCoord,
    pub alt: u32,
}

impl ParamACLocation {
    /// The position as a point: longitude, latitude and altitude.
    pub open spec fn as_point(self) -> WKTPoint {
        WKTPoint { x: self.loc.lon, y: self.loc.lat, z: self.alt as i64 }
    }

    pub fn wkt(&self) -> (out: WKTPoint)
        ensures
            out == self.as_point(),
    {
        WKTPoint { x: self.loc.lon, y: self.loc.lat, z: self.alt as i64 }
    }
}

/// What a parameter of the link layer holds.
#[derive(Debug, PartialEq, Eq)]
pub enum ParamValue {
    /// The position of an aircraft.
    Location(ParamACLocation),
    Text(String),
    /// Anything else.
    Other,
}

/// A parameter of the link layer.
#[derive(Debug, PartialEq, Eq)]
pub struct VDLParam {
    pub name: String,
    pub value: ParamValue,
}

/// The exchange of parameters of the link layer.
#[derive(Debug, PartialEq, Eq)]
pub struct XID {
    pub err: bool,
    pub xid_type: String,
    pub xid_type_desc: String,
    pub vdl_params: Vec<VDLParam>,
}

/// Where the first parameter with the name `name` stands, looking from `from` on; the number
/// of parameters where there is none.
pub open spec fn find_param(params: Seq<VDLParam>, name: Seq<char>, from: int) -> int
    decreases params.len() - from,
{
    if from >= params.len() {
        params.len() as int
    } else if params[from].name@ == name {
        from
    } else {
        find_param(params, name, from + 1)
    }
}

impl XID {
    /// The parameter that gives the aircraft's position, where there is one, holds a
    /// position.
    pub open spec fn wf(self) -> bool {
        let k = find_param(self.vdl_params@, "ac_location"@, 0);
        k < self.vdl_params@.len() ==> self.vdl_params@[k].value is Location
    }

    /// The first parameter with the name `name`.
    pub fn param(&self, name: &str) -> (out: Option<&VDLParam>)
        ensures
            out is Some <==> find_param(self.vdl_params@, name@, 0) < self.vdl_params@.len(),
            out matches Some(p) ==> *p == self.vdl_params@[find_param(self.vdl_params@, name@, 0)],
    {
        let wanted = chars_of(name);
        let mut i: usize = 0;
        while i < self.vdl_params.len()
            invariant
                i <= self.vdl_params.len(),
                wanted@ == name@,
                find_param(self.vdl_params@, name@, 0) == find_param(
                    self.vdl_params@,
                    name@,
                    i as int,
                ),
            decreases self.vdl_params.len() - i,
        {
            if crate::text::same_chars(&chars_of(self.vdl_params[i].name.as_str()), &wanted) {
                return Some(&self.vdl_params[i]);
            }
            i += 1;
        }
        None
    }

    pub fn validate(&self) -> (out: bool)
        ensures
            out == self.wf(),
    {
        match self.param("ac_location") {
            Some(p) => match &p.value {
                ParamValue::Location(_) => true,
                _ => false,
            },
            None => true,
        }
    }
}

#[derive(Clone, Copy, Debug, PartialEq, Eq, Structural)]
pub struct CLNP {
    pub err: bool,
}

#[derive(Debug, PartialEq, Eq)]
pub struct X25 {
    pub err: bool,
    pub pkt_type: u32,
    pub pkt_type_name: String,
    pub chan_group: u32,
    pub chan_num: u16,
    pub more: bool,
    pub clnp: Option<CLNP>,
}

/// The link layer of a frame.
#[derive(Debug, PartialEq, Eq)]
pub struct AVLC {
    pub src: Entity,
    pub dst: Entity,
    pub cr: String,
    pub rseq: Option<u32>,
    pub sseq: Option<u32>,
    pub cmd: Option<String>,
    pub pf: Option<bool>,
    pub acars: Option<ACARS>,
    pub xid: Option<XID>,
    pub x25: Option<X25>,
}

impl AVLC {
    pub open spec fn wf(self) -> bool {
        &&& self.src.wf()
        &&& self.dst.wf()
        &&& self.acars matches Some(a) ==> a.wf()
        &&& self.xid matches Some(x) ==> x.wf()
    }

    pub fn validate(&self) -> (out: bool)
        ensures
            out == self.wf(),
    {
        if !self.src.validate() || !self.dst.validate() {
            return false;
        }
        if let Some(a) = &self.acars {
            if !a.validate() {
                return false;
            }
        }
        if let Some(x) = &self.xid {
            if !x.validate() {
                return false;
            }
        }
        true
    }

    /// Whether the frame comes from a ground station.
    pub fn from_ground_station(&self) -> (out: bool)
        ensures
            out == (kind_of(self.src.entity_type@) == EntityType::GroundStation),
    {
        match self.src.kind() {
            EntityType::GroundStation => true,
            _ => false,
        }
    }
}

pub const MIN_CHANNEL_HZ: u64 = 118_000_000;

pub const MAX_CHANNEL_HZ: u64 = 137_000_000;

/// What the decoder reports of one frame.
#[derive(Debug, PartialEq, Eq)]
pub struct VDL2 {
    pub app: Application,
    pub ts: Timestamp,
    pub freq: u64,
    pub idx: u64,
    pub sig_level: i64,
    pub noise_level: i64,
    pub freq_skew: i64,
    pub avlc: Option<AVLC>,
}

impl VDL2 {
    pub open spec fn wf(self) -> bool {
        &&& self.ts.wf()
        &&& MIN_CHANNEL_HZ <= self.freq <= MAX_CHANNEL_HZ
        &&& self.avlc matches Some(a) ==> a.wf()
    }

    pub fn validate(&self) -> (out: bool)
        ensures
            out == self.wf(),
    {
        if !self.ts.validate() || self.freq < MIN_CHANNEL_HZ || self.freq > MAX_CHANNEL_HZ {
            return false;
        }
        match &self.avlc {
            Some(a) => a.validate(),
            None => true,
        }
    }

    /// The channel frequency in whole MHz and the Hz above them.
    pub fn freq_as_mhz(&self) -> (out: (u64, u64))
        ensures
            out.0 * 1_000_000 + out.1 == self.freq,
            out.1 < 1_000_000,
    {
        (self.freq / 1_000_000, self.freq % 1_000_000)
    }
}

/// One line of the decoder's output.
#[derive(Debug, PartialEq, Eq)]
pub struct Frame {
    pub vdl2: VDL2,
}

impl Frame {
    pub open spec fn wf(self) -> bool {
        self.vdl2.wf()
    }

    pub fn validate(&self) -> (out: bool)
        ensures
            out == self.wf(),
    {
        self.vdl2.validate()
    }
}

} // verus!
