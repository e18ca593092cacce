//! The ground stations of the VHF datalink, as a table of airports lists them.

use vstd::prelude::*;
use crate::fixed::{fixed_point, parse_fixed};
use crate::text::{chars_of, same_chars, uppercase, trim, trimmed, uppercase_of};
use crate::wkt::WKTPoint;

verus! {

/// A row of the table as it is written: the station's address, the airport's two codes and
/// name, and the airport's latitude and longitude, each a number followed by the letter of
/// its hemisphere.
#[derive(Debug, PartialEq, Eq)]
pub struct GSRawRecord {
    pub gs_id: String,
    pub icao: String,
    pub iata: String,
    pub name: String,
    pub lat: String,
    pub lon: String,
}

/// A ground station of the table.
#[derive(Debug, PartialEq, Eq)]
pub struct GSRecord {
    pub icao_addr: String,
    pub airport_icao: String,
    pub airport_iata: String,
    pub airport_name: String,
    pub coords: WKTPoint,
}

/// The angle that `text` writes, in millionths of a degree: a number followed by one letter
/// for the hemisphere, where the letter `minus` makes the angle negative. White space around
/// the text does not count.
pub open spec fn angle_of(text: Seq<char>, minus: char) -> Option<int> {
    let t = trimmed(text);
    if t.len() == 0 {
        None
    } else {
        match fixed_point(t.drop_last()) {
            Some(n) => Some(
                if t.last() == minus {
                    -n
                } else {
                    n
                },
            ),
            None => None,
        }
    }
}

/// Reads an angle.
pub fn parse_angle(text: &str, minus: char) -> (out: Option<i64>)
    ensures
        out matches Some(n) ==> angle_of(text@, minus) == Some(n as int),
        out is None ==> angle_of(text@, minus) is None,
{
    let mut t = trim(&chars_of(text));
    if t.len() == 0 {
        return None;
    }
    let ghost whole = t@;
    let dir = t.pop().unwrap();
    assert(t@ =~= whole.drop_last());
    match parse_fixed(&t) {
        Some(n) => Some(
            if dir == minus {
                -n
            } else {
                n
            },
        ),
        None => None,
    }
}

impl GSRawRecord {
    /// The airport's position: longitude west and latitude south are negative.
    pub fn coords_as_wkt(&self) -> (out: Option<WKTPoint>)
        ensures
            out is Some <==> angle_of(self.lat@, 'S') is Some && angle_of(self.lon@, 'W') is Some,
            out matches Some(p) ==> Some(p.y as int) == angle_of(self.lat@, 'S') && Some(p.x as int)
                == angle_of(self.lon@, 'W') && p.z == 0,
    {
        let y = match parse_angle(self.lat.as_str(), 'S') {
            Some(y) => y,
            None => {
                return None;
            },
        };
        let x = match parse_angle(self.lon.as_str(), 'W') {
            Some(x) => x,
            None => {
                return None;
            },
        };
        Some(WKTPoint { x, y, z: 0 })
    }
}

/// A row of the table gives no position.
#[derive(Clone, Copy, Debug, PartialEq, Eq, Structural)]
pub struct BadCoordinates {
    /// The place of the row, counted from 0.
    pub row: usize,
}

/// The ground stations of the VHF datalink, each under its address in capitals. Of two
/// rows with one address the later one counts.
#[derive(Debug, PartialEq, Eq)]
pub struct GroundStationDB {
    pub keys: Vec<String>,
    pub records: Vec<GSRecord>,
}

/// Where the last of `keys` stands that is `addr`, looking below `upto`; -1 where there is
/// none.
pub open spec fn last_key(keys: Seq<String>, addr: Seq<char>, upto: int) -> int
    decreases upto,
{
    if upto <= 0 {
        -1
    } else if keys[upto - 1]@ == addr {
        upto - 1
    } else {
        last_key(keys, addr, upto - 1)
    }
}

/// Whether the row gives a position.
pub open spec fn row_ok(r: GSRawRecord) -> bool {
    angle_of(r.lat@, 'S') is Some && angle_of(r.lon@, 'W') is Some
}

/// Where the first row stands that gives no position, looking from `from` on; the number of
/// rows where all do.
pub open spec fn first_bad_row(rows: Seq<GSRawRecord>, from: int) -> int
    decreases rows.len() - from,
{
    if from >= rows.len() {
        rows.len() as int
    } else if !row_ok(rows[from]) {
        from
    } else {
        first_bad_row(rows, from + 1)
    }
}

/// Whether `rec`, under `key`, is the station of the row `row`.
pub open spec fn record_of(row: GSRawRecord, key: String, rec: GSRecord) -> bool {
    &&& key@ == uppercase_of(row.gs_id@)
    &&& rec.icao_addr == row.gs_id
    &&& rec.airport_icao == row.icao
    &&& rec.airport_iata == row.iata
    &&& rec.airport_name == row.name
    &&& Some(rec.coords.y as int) == angle_of(row.lat@, 'S')
    &&& Some(rec.coords.x as int) == angle_of(row.lon@, 'W')
    &&& rec.coords.z == 0
}

impl GroundStationDB {
    /// There is one key for each station.
    pub open spec fn wf(self) -> bool {
        self.keys@.len() == self.records@.len()
    }

    /// Makes the table of its rows; the first row without a position refuses it.
    pub fn from_records(rows: Vec<GSRawRecord>) -> (out: Result<GroundStationDB, BadCoordinates>)
        ensures
            out matches Err(e) ==> e.row < rows@.len() && first_bad_row(rows@, 0) == e.row,
            out matches Ok(db) ==> {
                &&& first_bad_row(rows@, 0) == rows@.len()
                &&& db.wf()
                &&& db.records@.len() == rows@.len()
                &&& forall|i: int|
                    0 <= i < rows@.len() ==> record_of(
                        rows@[i],
                        #[trigger] db.keys@[i],
                        db.records@[i],
                    )
            },
    {
        let mut keys: Vec<String> = Vec::new();
        let mut records: Vec<GSRecord> = Vec::new();
        let mut i: usize = 0;
        while i < rows.len()
            invariant
                i <= rows.len(),
                first_bad_row(rows@, 0) == first_bad_row(rows@, i as int),
                keys@.len() == i,
                records@.len() == i,
                forall|k: int| 0 <= k < i ==> record_of(rows@[k], #[trigger] keys@[k], records@[k]),
            decreases rows.len() - i,
        {
            let row = &rows[i];
            let coords = match row.coords_as_wkt() {
                Some(c) => c,
                None => {
                    return Err(BadCoordinates { row: i });
                },
            };
            keys.push(uppercase(row.gs_id.as_str()));
            records.push(
                GSRecord {
                    icao_addr: row.gs_id.clone(),
                    airport_icao: row.icao.clone(),
                    airport_iata: row.iata.clone(),
                    airport_name: row.name.clone(),
                    coords,
                },
            );
            i += 1;
        }
        Ok(GroundStationDB { keys, records })
    }

    /// The station under the address `addr`.
    pub fn get(&self, addr: &String) -> (out: Option<&GSRecord>)
        requires
            self.wf(),
        ensures
            out is Some <==> last_key(self.keys@, addr@, self.keys@.len() as int) >= 0,
            out matches Some(r) ==> *r == self.records@[last_key(
                self.keys@,
                addr@,
                self.keys@.len() as int,
            )],
    {
        let wanted = chars_of(addr.as_str());
        let mut i: usize = self.keys.len();
        while i > 0
            invariant
                i <= self.keys.len(),
                self.wf(),
                wanted@ == addr@,
                last_key(self.keys@, addr@, self.keys@.len() as int) == last_key(
                    self.keys@,
                    addr@,
                    i as int,
                ),
            decreases i,
        {
            if same_chars(&chars_of(self.keys[i - 1].as_str()), &wanted) {
                return Some(&self.records[i - 1]);
            }
            i -= 1;
        }
        None
    }
}

} // verus!
