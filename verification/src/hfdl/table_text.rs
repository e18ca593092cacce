//! The system table as it is written: a version and, between brackets, the stations, each a
//! list of fields between braces. A field is a key, an equals sign, a value and a
//! semicolon.

use vstd::prelude::*;
use crate::fixed::{fixed_point, parse_fixed};
use crate::hfdl::systable::{
    short_name, station_ok, table_khz, GroundStation, SystemTable, HALF_TURN,
    MIN_SYSTABLE_VERSION,
};
use crate::patterns::{
    all_matches, captures, captures_iter, first_match, group, group_text, groups_of, matches_of,
    FIELD_PATTERN, STATION_PATTERN, TABLE_PATTERN,
};
use crate::text::{
    chars_of, lowercase, lowercase_of, parse_decimal, parse_unsigned, same_chars, split,
    split_at_char, string_of, trim, trimmed,
};

verus! {

/// Why a text is no system table.
#[derive(Clone, Copy, Debug, PartialEq, Eq, Structural)]
pub enum TableError {
    /// The text has not the form of a system table.
    Malformed,
    /// The version is missing, no number, or older than 51.
    InvalidVersion,
    /// The station at the place `index`, counted from 0, lacks a field or holds a value that
    /// no station can have.
    MalformedStation { index: usize },
}

/// `s` without line ends.
pub open spec fn unbroken(s: Seq<char>) -> Seq<char>
    decreases s.len(),
{
    if s.len() == 0 {
        Seq::empty()
    } else if s.last() == '\r' || s.last() == '\n' {
        unbroken(s.drop_last())
    } else {
        unbroken(s.drop_last()).push(s.last())
    }
}

/// `s` without spaces.
pub open spec fn unspaced(s: Seq<char>) -> Seq<char>
    decreases s.len(),
{
    if s.len() == 0 {
        Seq::empty()
    } else if s.last() == ' ' {
        unspaced(s.drop_last())
    } else {
        unspaced(s.drop_last()).push(s.last())
    }
}

fn remove_char(v: &Vec<char>, a: char, b: char) -> (out: Vec<char>)
    ensures
        a == '\r' && b == '\n' ==> out@ == unbroken(v@),
        a == ' ' && b == ' ' ==> out@ == unspaced(v@),
{
    let mut out: Vec<char> = Vec::new();
    let mut i: usize = 0;
    while i < v.len()
        invariant
            i <= v.len(),
            a == '\r' && b == '\n' ==> out@ == unbroken(v@.take(i as int)),
            a == ' ' && b == ' ' ==> out@ == unspaced(v@.take(i as int)),
        decreases v.len() - i,
    {
        proof {
            assert(v@.take(i + 1).drop_last() =~= v@.take(i as int));
            assert(v@.take(i + 1).last() == v@[i as int]);
        }
        if v[i] != a && v[i] != b {
            out.push(v[i]);
        }
        i += 1;
    }
    proof {
        assert(v@.take(v.len() as int) =~= v@);
    }
    out
}

/// What the fields of a station have given so far.
#[derive(Debug, PartialEq, Eq)]
pub struct StationDraft {
    pub id: Option<u8>,
    pub name: Option<String>,
    pub lat: Option<i64>,
    pub lon: Option<i64>,
    pub frequencies: Vec<u64>,
}

/// What a `StationDraft` holds.
pub struct DraftModel {
    pub id: Option<u8>,
    pub name: Option<Seq<char>>,
    pub lat: Option<i64>,
    pub lon: Option<i64>,
    pub frequencies: Seq<u64>,
}

impl View for StationDraft {
    type V = DraftModel;

    open spec fn view(&self) -> DraftModel {
        DraftModel {
            id: self.id,
            name: match self.name {
                Some(n) => Some(n@),
                None => None,
            },
            lat: self.lat,
            lon: self.lon,
            frequencies: self.frequencies@,
        }
    }
}

/// A draft without any field.
pub open spec fn blank() -> DraftModel {
    DraftModel { id: None, name: None, lat: None, lon: None, frequencies: Seq::empty() }
}

/// The number that a value gives for a station: the number it writes, where that is below
/// 256.
pub open spec fn id_of(value: Seq<char>) -> Option<u8> {
    match parse_unsigned(value, 255) {
        Some(n) => Some(n as u8),
        None => None,
    }
}

/// The name that a value gives: what stands between its quotation marks.
pub open spec fn name_of(value: Seq<char>) -> Option<Seq<char>> {
    if value.len() > 1 && value.first() == '"' && value.last() == '"' {
        Some(value.subrange(1, value.len() - 1))
    } else {
        None
    }
}

/// The angle that a value gives, in millionths of a degree. An angle beyond a thousand
/// degrees counts as none.
pub open spec fn angle_of(value: Seq<char>) -> Option<i64> {
    match fixed_point(trimmed(value)) {
        Some(n) => if -1_000_000_000 <= n <= 1_000_000_000 {
            Some(n as i64)
        } else {
            None
        },
        None => None,
    }
}

/// The frequency that a piece of a list gives, in kHz: the whole kHz of the number it
/// writes, and 0 for a piece that writes no number or a negative one.
pub open spec fn khz_of(piece: Seq<char>) -> u64 {
    match fixed_point(piece) {
        Some(n) => if n > 0 {
            (n / 1_000_000) as u64
        } else {
            0
        },
        None => 0,
    }
}

/// The frequencies that a value gives: with the spaces taken out, the pieces between the
/// commas of what stands between its brackets. None for a value without brackets.
pub open spec fn frequencies_of(value: Seq<char>) -> Option<Seq<u64>> {
    let v = unspaced(value);
    if v.len() > 1 && v.first() == '(' && v.last() == ')' {
        let pieces = split(v.subrange(1, v.len() - 1), ',');
        Some(Seq::new(pieces.len(), |i: int| khz_of(pieces[i])))
    } else {
        None
    }
}

/// The draft after the field `key` with the value `value`. A key is read without regard to
/// the case of its letters; a field with an unknown key changes nothing, and a field for
/// which the draft has a value already replaces it, but for frequencies without brackets,
/// which leave the earlier ones.
pub open spec fn with_field(d: DraftModel, key: Seq<char>, value: Seq<char>) -> DraftModel {
    let k = trimmed(lowercase_of(key));
    if k == "id"@ {
        DraftModel { id: id_of(value), ..d }
    } else if k == "name"@ {
        match name_of(value) {
            Some(n) => DraftModel { name: Some(n), ..d },
            None => d,
        }
    } else if k == "lat"@ {
        DraftModel { lat: angle_of(value), ..d }
    } else if k == "lon"@ {
        DraftModel { lon: angle_of(value), ..d }
    } else if k == "frequencies"@ {
        match frequencies_of(value) {
            Some(f) => DraftModel { frequencies: f, ..d },
            None => d,
        }
    } else {
        d
    }
}

/// The draft that the fields `fields` give, each a match of the pattern of fields.
pub open spec fn drafted(fields: Seq<Seq<Option<Seq<char>>>>) -> DraftModel
    decreases fields.len(),
{
    if fields.len() == 0 {
        blank()
    } else {
        with_field(drafted(fields.drop_last()), group(fields.last(), 1), group(fields.last(), 2))
    }
}

/// Whether a draft gives a station: missing fields count as values that no station can have.
pub open spec fn gives_station(d: DraftModel) -> bool {
    station_ok(
        match d.id {
            Some(n) => n,
            None => 0,
        },
        match d.name {
            Some(n) => n,
            None => Seq::empty(),
        },
        match d.lat {
            Some(n) => n,
            None => HALF_TURN,
        },
        match d.lon {
            Some(n) => n,
            None => HALF_TURN,
        },
        d.frequencies,
    )
}

/// Whether `s` is the station that the draft `d` gives.
pub open spec fn is_drafted(d: DraftModel, s: GroundStation) -> bool {
    &&& Some(s.id) == d.id
    &&& Some(s.name@) == d.name
    &&& s.short@ == short_name(s.id)
    &&& Some(s.position.0) == d.lat
    &&& Some(s.position.1) == d.lon
    &&& s.frequencies@.len() == d.frequencies.len()
    &&& forall|i: int|
        0 <= i < d.frequencies.len() ==> #[trigger] s.frequencies@[i] == table_khz(d.frequencies[i])
}

fn read_angle(value: &str) -> (out: Option<i64>)
    ensures
        out == angle_of(value@),
{
    match parse_fixed(&trim(&chars_of(value))) {
        Some(n) => if -1_000_000_000 <= n && n <= 1_000_000_000 {
            Some(n)
        } else {
            None
        },
        None => None,
    }
}

fn read_frequencies(value: &str) -> (out: Option<Vec<u64>>)
    ensures
        out is Some <==> frequencies_of(value@) is Some,
        out matches Some(f) ==> Some(f@) == frequencies_of(value@),
{
    let v = remove_char(&chars_of(value), ' ', ' ');
    if !(v.len() > 1 && v[0] == '(' && v[v.len() - 1] == ')') {
        return None;
    }
    let mut inner: Vec<char> = Vec::new();
    let mut i: usize = 1;
    while i < v.len() - 1
        invariant
            1 <= i <= v.len() - 1,
            inner@ == v@.subrange(1, i as int),
        decreases v.len() - i,
    {
        inner.push(v[i]);
        i += 1;
    }
    let pieces = split_at_char(&inner, ',');
    let mut out: Vec<u64> = Vec::new();
    let mut k: usize = 0;
    while k < pieces.len()
        invariant
            k <= pieces.len(),
            pieces@.len() == split(inner@, ',').len(),
            forall|j: int| 0 <= j < pieces@.len() ==> (#[trigger] pieces@[j])@ == split(inner@, ',')[j],
            out@.len() == k,
            forall|j: int| 0 <= j < k ==> out@[j] == khz_of(split(inner@, ',')[j]),
        decreases pieces.len() - k,
    {
        assert(pieces@[k as int]@ == split(inner@, ',')[k as int]);
        let khz: u64 = match parse_fixed(&pieces[k]) {
            Some(n) => if n > 0 {
                (n / 1_000_000) as u64
            } else {
                0
            },
            None => 0,
        };
        out.push(khz);
        k += 1;
    }
    assert(out@ =~= frequencies_of(value@)->0);
    Some(out)
}

impl StationDraft {
    /// Takes in the field `key` with the value `value`.
    pub fn set(&mut self, key: &str, value: &str)
        ensures
            final(self)@ == with_field(old(self)@, key@, value@),
    {
        let k = trim(&chars_of(lowercase(key).as_str()));
        if same_chars(&k, &chars_of("id")) {
            self.id = match parse_decimal(&chars_of(value), 255) {
                Some(n) => Some(n as u8),
                None => None,
            };
        } else if same_chars(&k, &chars_of("name")) {
            let v = chars_of(value);
            if v.len() > 1 && v[0] == '"' && v[v.len() - 1] == '"' {
                let mut inner: Vec<char> = Vec::new();
                let mut i: usize = 1;
                while i < v.len() - 1
                    invariant
                        1 <= i <= v.len() - 1,
                        inner@ == v@.subrange(1, i as int),
                    decreases v.len() - i,
                {
                    inner.push(v[i]);
                    i += 1;
                }
                self.name = Some(string_of(&inner));
            }
        } else if same_chars(&k, &chars_of("lat")) {
            self.lat = read_angle(value);
        } else if same_chars(&k, &chars_of("lon")) {
            self.lon = read_angle(value);
        } else if same_chars(&k, &chars_of("frequencies")) {
            if let Some(f) = read_frequencies(value) {
                self.frequencies = f;
            }
        }
    }

    /// The station that the draft gives.
    pub fn finish(self) -> (out: Option<GroundStation>)
        ensures
            out is Some <==> gives_station(self@),
            out matches Some(s) ==> is_drafted(self@, s),
    {
        GroundStation::new(
            match self.id {
                Some(n) => n,
                None => 0,
            },
            match self.name {
                Some(n) => n,
                None => String::new(),
            },
            match self.lat {
                Some(n) => n,
                None => HALF_TURN,
            },
            match self.lon {
                Some(n) => n,
                None => HALF_TURN,
            },
            self.frequencies,
        )
    }
}

/// Reads a station from its fields, each a match of the pattern of fields.
pub fn station_from_fields(fields: &Vec<Vec<Option<String>>>) -> (out: Option<GroundStation>)
    ensures
        out is Some <==> gives_station(drafted(matches_of(fields@))),
        out matches Some(s) ==> is_drafted(drafted(matches_of(fields@)), s),
{
    let mut draft = StationDraft {
        id: None,
        name: None,
        lat: None,
        lon: None,
        frequencies: Vec::new(),
    };
    let ghost all = matches_of(fields@);
    let mut i: usize = 0;
    while i < fields.len()
        invariant
            i <= fields.len(),
            all == matches_of(fields@),
            draft@ == drafted(all.take(i as int)),
        decreases fields.len() - i,
    {
        proof {
            assert(all.take(i + 1).drop_last() =~= all.take(i as int));
            assert(all.take(i + 1).last() == groups_of(fields@[i as int]@));
        }
        let key = group_text(&fields[i], 1);
        let value = group_text(&fields[i], 2);
        draft.set(key.as_str(), value.as_str());
        i += 1;
    }
    proof {
        assert(all.take(fields.len() as int) =~= all);
    }
    draft.finish()
}

/// The version that a text gives: the number it writes, or 0.
pub open spec fn version_of(text: Seq<char>) -> u8 {
    match parse_unsigned(text, 255) {
        Some(n) => n as u8,
        None => 0,
    }
}

/// The fields of the station that the match `m` of the pattern of stations holds.
pub open spec fn fields_of(m: Seq<Option<Seq<char>>>) -> Seq<Seq<Option<Seq<char>>>> {
    all_matches(FIELD_PATTERN@, group(m, 1))
}

/// Where the first station stands that is none, looking from `from` on; the number of
/// stations where all are.
pub open spec fn first_bad_station(stations: Seq<Seq<Option<Seq<char>>>>, from: int) -> int
    decreases stations.len() - from,
{
    if from >= stations.len() {
        stations.len() as int
    } else if !gives_station(drafted(fields_of(stations[from]))) {
        from
    } else {
        first_bad_station(stations, from + 1)
    }
}

/// Reads the stations of a system table, each a match of the pattern of stations. The first
/// that is no station refuses them all, and its place is told.
pub fn read_stations(listed: &Vec<Vec<Option<String>>>) -> (out: Result<Vec<GroundStation>, usize>)
    ensures
        out matches Err(k) ==> k < listed@.len() && first_bad_station(matches_of(listed@), 0) == k,
        out matches Ok(stations) ==> {
            &&& first_bad_station(matches_of(listed@), 0) == listed@.len()
            &&& stations@.len() == listed@.len()
            &&& forall|j: int|
                0 <= j < listed@.len() ==> is_drafted(
                    drafted(fields_of(matches_of(listed@)[j])),
                    #[trigger] stations@[j],
                )
        },
{
    let ghost all = matches_of(listed@);
    let mut stations: Vec<GroundStation> = Vec::new();
    let mut k: usize = 0;
    while k < listed.len()
        invariant
            k <= listed.len(),
            all == matches_of(listed@),
            first_bad_station(all, 0) == first_bad_station(all, k as int),
            stations@.len() == k,
            forall|j: int|
                0 <= j < k ==> is_drafted(drafted(fields_of(all[j])), #[trigger] stations@[j]),
        decreases listed.len() - k,
    {
        assert(all[k as int] == groups_of(listed@[k as int]@));
        let fields = captures_iter(FIELD_PATTERN, group_text(&listed[k], 1).as_str());
        match station_from_fields(&fields) {
            Some(s) => stations.push(s),
            None => {
                return Err(k);
            },
        }
        k += 1;
    }
    Ok(stations)
}

impl SystemTable {
    /// Reads a system table from the text of its file, which lies at `path`.
    pub fn load(path: String, text: &str) -> (out: Result<SystemTable, TableError>)
        ensures
            match first_match(TABLE_PATTERN@, unbroken(text@)) {
                None => out == Err::<SystemTable, TableError>(TableError::Malformed),
                Some(m) => if version_of(group(m, 1)) < MIN_SYSTABLE_VERSION {
                    out == Err::<SystemTable, TableError>(TableError::InvalidVersion)
                } else {
                    let stations = all_matches(STATION_PATTERN@, group(m, 2));
                    let bad = first_bad_station(stations, 0);
                    if bad < stations.len() {
                        out == Err::<SystemTable, TableError>(
                            TableError::MalformedStation { index: bad as usize },
                        )
                    } else {
                        &&& out matches Ok(t)
                        &&& t.wf()
                        &&& t.path == path
                        &&& t.version == version_of(group(m, 1))
                        &&& t.stations@.len() == stations.len()
                        &&& forall|k: int|
                            0 <= k < stations.len() ==> is_drafted(
                                drafted(fields_of(stations[k])),
                                #[trigger] t.stations@[k],
                            )
                    }
                },
            },
    {
        proof {
            reveal_strlit("\\s*version\\s*=\\s*([0-9]+)\\s*;\\s*stations\\s*=\\s*\\((.+)\\)\\s*;");
        }
        let content = string_of(&remove_char(&chars_of(text), '\r', '\n'));
        let m = match captures(TABLE_PATTERN, content.as_str()) {
            Some(m) => m,
            None => {
                return Err(TableError::Malformed);
            },
        };
        let version: u8 = match parse_decimal(&chars_of(group_text(&m, 1).as_str()), 255) {
            Some(n) => n as u8,
            None => 0,
        };
        if version < MIN_SYSTABLE_VERSION {
            return Err(TableError::InvalidVersion);
        }
        let listed = captures_iter(STATION_PATTERN, group_text(&m, 2).as_str());
        let stations = match read_stations(&listed) {
            Ok(s) => s,
            Err(index) => {
                return Err(TableError::MalformedStation { index });
            },
        };
        match SystemTable::new(path, version, stations) {
            Some(t) => Ok(t),
            None => Err(TableError::InvalidVersion),
        }
    }
}

} // verus!
