//! The system table: the ground stations of the HF datalink that are known beforehand.

use vstd::prelude::*;
use crate::text::{chars_of, eq_ignore_case, lower};
use crate::wkt::WKTPoint;

verus! {

/// The oldest version of the system table that the receiver works with.
pub const MIN_SYSTABLE_VERSION: u8 = 51;

pub const QUARTER_TURN: i64 = 90_000_000;

pub const HALF_TURN: i64 = 180_000_000;

/// A ground station of the system table. The position is latitude and longitude in
/// millionths of a degree; the frequencies are in kHz.
#[derive(Debug, PartialEq, Eq)]
pub struct GroundStation {
    pub id: u8,
    pub name: String,
    pub short: String,
    pub position: (i64, i64),
    pub frequencies: Vec<u16>,
}

/// The three-letter name of the station with the number `id`.
pub open spec fn short_name(id: u8) -> Seq<char> {
    if id == 1 {
        "SFO"@
    } else if id == 2 {
        "MKK"@
    } else if id == 3 {
        "RKV"@
    } else if id == 4 {
        "FOK"@
    } else if id == 5 {
        "AKL"@
    } else if id == 6 {
        "HDY"@
    } else if id == 7 {
        "SNN"@
    } else if id == 8 {
        "JNB"@
    } else if id == 9 {
        "BRW"@
    } else if id == 10 {
        "MWX"@
    } else if id == 11 {
        "PTY"@
    } else if id == 13 {
        "VVI"@
    } else if id == 14 {
        "KJA"@
    } else if id == 15 {
        "BAH"@
    } else if id == 16 {
        "GUM"@
    } else if id == 17 {
        "LPA"@
    } else {
        "???"@
    }
}

fn short_name_of(id: u8) -> (out: &'static str)
    ensures
        out@ == short_name(id),
{
    if id == 1 {
        "SFO"
    } else if id == 2 {
        "MKK"
    } else if id == 3 {
        "RKV"
    } else if id == 4 {
        "FOK"
    } else if id == 5 {
        "AKL"
    } else if id == 6 {
        "HDY"
    } else if id == 7 {
        "SNN"
    } else if id == 8 {
        "JNB"
    } else if id == 9 {
        "BRW"
    } else if id == 10 {
        "MWX"
    } else if id == 11 {
        "PTY"
    } else if id == 13 {
        "VVI"
    } else if id == 14 {
        "KJA"
    } else if id == 15 {
        "BAH"
    } else if id == 16 {
        "GUM"
    } else if id == 17 {
        "LPA"
    } else {
        "???"
    }
}

/// A frequency in kHz as the table keeps it: as given, or 65535 where it is above that.
pub open spec fn table_khz(f: u64) -> u16 {
    if f > 65535 {
        65535
    } else {
        f as u16
    }
}

/// Whether a ground station can be made of these: a number above 0, a name, a latitude
/// strictly between the poles, a longitude strictly between the date lines, and one or more
/// frequencies, none of them 0.
pub open spec fn station_ok(id: u8, name: Seq<char>, lat: i64, lon: i64, frequencies: Seq<u64>) -> bool {
    &&& id != 0
    &&& name.len() > 0
    &&& -QUARTER_TURN < lat < QUARTER_TURN
    &&& -HALF_TURN < lon < HALF_TURN
    &&& frequencies.len() > 0
    &&& forall|i: int| 0 <= i < frequencies.len() ==> #[trigger] frequencies[i] != 0
}

impl GroundStation {
    /// The station's position as a point: longitude, latitude, and no altitude.
    pub open spec fn point(self) -> WKTPoint {
        WKTPoint { x: self.position.1, y: self.position.0, z: 0 }
    }

    pub fn as_point(&self) -> (out: WKTPoint)
        ensures
            out == self.point(),
    {
        WKTPoint { x: self.position.1, y: self.position.0, z: 0 }
    }

    /// Makes a ground station, or refuses what cannot be one.
    pub fn new(id: u8, name: String, lat: i64, lon: i64, frequencies: Vec<u64>) -> (out: Option<
        GroundStation,
    >)
        ensures
            out is Some <==> station_ok(id, name@, lat, lon, frequencies@),
            out matches Some(s) ==> {
                &&& s.id == id
                &&& s.name == name
                &&& s.short@ == short_name(id)
                &&& s.position == (lat, lon)
                &&& s.frequencies@.len() == frequencies@.len()
                &&& forall|i: int|
                    0 <= i < frequencies@.len() ==> #[trigger] s.frequencies@[i] == table_khz(
                        frequencies@[i],
                    )
            },
    {
        if id == 0 || name.as_str().unicode_len() == 0 {
            return None;
        }
        if lat >= QUARTER_TURN || lat <= -QUARTER_TURN || lon >= HALF_TURN || lon <= -HALF_TURN {
            return None;
        }
        if frequencies.len() == 0 {
            return None;
        }
        let mut khz: Vec<u16> = Vec::new();
        let mut i: usize = 0;
        while i < frequencies.len()
            invariant
                i <= frequencies.len(),
                khz@.len() == i,
                forall|j: int| 0 <= j < i ==> #[trigger] frequencies@[j] != 0,
                forall|j: int| 0 <= j < i ==> #[trigger] khz@[j] == table_khz(frequencies@[j]),
            decreases frequencies.len() - i,
        {
            let f = frequencies[i];
            if f == 0 {
                return None;
            }
            khz.push(
                if f > 65535 {
                    65535
                } else {
                    f as u16
                },
            );
            i += 1;
        }
        Some(
            GroundStation {
                id,
                name,
                short: short_name_of(id).to_owned(),
                position: (lat, lon),
                frequencies: khz,
            },
        )
    }
}

/// Where the station with the number `id` stands among `stations`, looking from `from` on;
/// the length of `stations` where there is none.
pub open spec fn station_by_id(stations: Seq<GroundStation>, id: u8, from: int) -> int
    decreases stations.len() - from,
{
    if from >= stations.len() {
        stations.len() as int
    } else if stations[from].id == id {
        from
    } else {
        station_by_id(stations, id, from + 1)
    }
}

/// Where the station with the name `name` stands among `stations`, looking from `from` on and
/// without regard to the case of ASCII letters; the length of `stations` where there is none.
pub open spec fn station_by_name(stations: Seq<GroundStation>, name: Seq<char>, from: int) -> int
    decreases stations.len() - from,
{
    if from >= stations.len() {
        stations.len() as int
    } else if lower(stations[from].name@) == lower(name) {
        from
    } else {
        station_by_name(stations, name, from + 1)
    }
}

/// The frequencies of all `stations`, station after station.
pub open spec fn all_frequencies(stations: Seq<GroundStation>) -> Seq<u16>
    decreases stations.len(),
{
    if stations.len() == 0 {
        Seq::empty()
    } else {
        all_frequencies(stations.drop_last()) + stations.last().frequencies@
    }
}

/// The system table.
#[derive(Debug, PartialEq, Eq)]
pub struct SystemTable {
    /// Where the table was read from.
    pub path: String,
    pub version: u8,
    pub stations: Vec<GroundStation>,
}

impl SystemTable {
    /// A table in use is of version 51 or later.
    pub open spec fn wf(self) -> bool {
        self.version >= MIN_SYSTABLE_VERSION
    }

    /// Makes a table, or refuses a version that is too old.
    pub fn new(path: String, version: u8, stations: Vec<GroundStation>) -> (out: Option<SystemTable>)
        ensures
            out is Some <==> version >= MIN_SYSTABLE_VERSION,
            out matches Some(t) ==> t.wf() && t.path == path && t.version == version && t.stations
                == stations,
    {
        if version < MIN_SYSTABLE_VERSION {
            None
        } else {
            Some(SystemTable { path, version, stations })
        }
    }

    pub fn get_version(&self) -> (out: u8)
        ensures
            out == self.version,
    {
        self.version
    }

    /// The station with the number `id`.
    pub fn by_id(&self, id: u8) -> (out: Option<&GroundStation>)
        ensures
            out is Some <==> station_by_id(self.stations@, id, 0) < self.stations@.len(),
            out matches Some(s) ==> *s == self.stations@[station_by_id(self.stations@, id, 0)],
    {
        let mut i: usize = 0;
        while i < self.stations.len()
            invariant
                i <= self.stations.len(),
                station_by_id(self.stations@, id, 0) == station_by_id(self.stations@, id, i as int),
            decreases self.stations.len() - i,
        {
            if self.stations[i].id == id {
                return Some(&self.stations[i]);
            }
            i += 1;
        }
        None
    }

    /// The station with the name `name`, without regard to the case of ASCII letters.
    pub fn by_name(&self, name: &str) -> (out: Option<&GroundStation>)
        ensures
            out is Some <==> station_by_name(self.stations@, name@, 0) < self.stations@.len(),
            out matches Some(s) ==> *s == self.stations@[station_by_name(self.stations@, name@, 0)],
    {
        let wanted = chars_of(name);
        let mut i: usize = 0;
        while i < self.stations.len()
            invariant
                i <= self.stations.len(),
                wanted@ == name@,
                station_by_name(self.stations@, name@, 0) == station_by_name(
                    self.stations@,
                    name@,
                    i as int,
                ),
            decreases self.stations.len() - i,
        {
            if eq_ignore_case(&chars_of(self.stations[i].name.as_str()), &wanted) {
                return Some(&self.stations[i]);
            }
            i += 1;
        }
        None
    }

    /// The frequencies of all stations, station after station.
    pub fn all_freqs(&self) -> (out: Vec<u16>)
        ensures
            out@ == all_frequencies(self.stations@),
    {
        let mut out: Vec<u16> = Vec::new();
        let mut i: usize = 0;
        while i < self.stations.len()
            invariant
                i <= self.stations.len(),
                out@ == all_frequencies(self.stations@.take(i as int)),
            decreases self.stations.len() - i,
        {
            let ghost before = out@;
            let fs = &self.stations[i].frequencies;
            let mut k: usize = 0;
            while k < fs.len()
                invariant
                    k <= fs.len(),
                    out@ == before + fs@.take(k as int),
                decreases fs.len() - k,
            {
                out.push(fs[k]);
                assert(fs@.take(k + 1) =~= fs@.take(k as int).push(fs@[k as int]));
                assert(out@ =~= before + fs@.take(k + 1));
                k += 1;
            }
            proof {
                assert(fs@.take(fs.len() as int) =~= fs@);
                assert(self.stations@.take(i + 1).drop_last() =~= self.stations@.take(i as int));
                assert(self.stations@.take(i + 1).last() == self.stations@[i as int]);
            }
            i += 1;
        }
        proof {
            assert(self.stations@.take(self.stations.len() as int) =~= self.stations@);
        }
        out
    }
}

} // verus!
