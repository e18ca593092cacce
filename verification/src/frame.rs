//! The common frame: what every decoder's output is brought to before it is handed on.
//!
//! Frequencies are in Hz, so that the band of the format, 2 MHz to 1630 MHz, has exact
//! limits. The signal level is in thousandths of a dBFS.

use vstd::prelude::*;
use crate::formats::{is_kind_name, is_written_kind};
use crate::text::chars_of;
use crate::utils::is_tail_filler;
use crate::wkt::{WKTPoint, WKTPolyline};

verus! {

pub const MIN_FREQ_HZ: u64 = 2_000_000;

pub const MAX_FREQ_HZ: u64 = 1_630_000_000;

/// Whether a frequency lies in the band of the format.
pub open spec fn freq_ok(hz: u64) -> bool {
    MIN_FREQ_HZ <= hz <= MAX_FREQ_HZ
}

/// Whether every frequency lies in the band of the format.
pub open spec fn freqs_ok(freqs: Seq<u64>) -> bool {
    forall|i: int| 0 <= i < freqs.len() ==> freq_ok(#[trigger] freqs[i])
}

/// Whether `c` is a digit of a hexadecimal number written in capitals.
pub open spec fn is_upper_hex(c: char) -> bool {
    ('0' <= c && c <= '9') || ('A' <= c && c <= 'F')
}

/// Whether `s` is an aircraft address: six hexadecimal digits in capitals.
pub open spec fn icao_ok(s: Seq<char>) -> bool {
    s.len() == 6 && forall|i: int| 0 <= i < s.len() ==> is_upper_hex(#[trigger] s[i])
}

/// Whether `s` holds no dot, hyphen or space.
pub open spec fn no_filler(s: Seq<char>) -> bool {
    forall|i: int| 0 <= i < s.len() ==> !is_tail_filler(#[trigger] s[i])
}

/// The text of a value that may be missing.
pub open spec fn text_of(s: Option<String>) -> Option<Seq<char>> {
    match s {
        Some(t) => Some(t@),
        None => None,
    }
}

/// An application message carried by a frame.
#[derive(Debug, PartialEq, Eq)]
pub struct ACARS {
    pub mode: String,
    pub more: bool,
    pub label: String,
    pub ack: Option<String>,
    pub blk_id: Option<String>,
    pub msg_num: Option<String>,
    pub msg_num_seq: Option<String>,
    pub tail: Option<String>,
    pub flight: Option<String>,
    pub sublabel: Option<String>,
    pub mfi: Option<String>,
    pub cfi: Option<String>,
    pub text: Option<String>,
}

/// The decoder that produced a frame.
#[derive(Debug, PartialEq, Eq)]
pub struct AppInfo {
    pub name: String,
    pub version: String,
}

/// One end of a frame: an aircraft or a ground station.
#[derive(Debug, PartialEq, Eq)]
pub struct Entity {
    pub kind: String,
    pub icao: Option<String>,
    pub gs: Option<String>,
    pub id: Option<u32>,
    pub callsign: Option<String>,
    pub tail: Option<String>,
    pub coords: Option<WKTPoint>,
}

impl Entity {
    /// The kind is written as `Aircraft`, `Ground station` or `Reserved`, an aircraft address is six hexadecimal
    /// digits in capitals, call sign and tail number have at most eight characters, and the
    /// tail number is in its plain form.
    pub open spec fn wf(self) -> bool {
        &&& is_kind_name(self.kind@)
        &&& self.icao matches Some(i) ==> icao_ok(i@)
        &&& self.callsign matches Some(c) ==> c@.len() <= 8
        &&& self.tail matches Some(t) ==> t@.len() <= 8 && no_filler(t@)
    }

    pub fn validate(&self) -> (out: bool)
        ensures
            out == self.wf(),
    {
        if !is_written_kind(self.kind.as_str()) {
            return false;
        }
        if let Some(i) = &self.icao {
            if !is_icao(i.as_str()) {
                return false;
            }
        }
        if let Some(c) = &self.callsign {
            if c.as_str().unicode_len() > 8 {
                return false;
            }
        }
        if let Some(t) = &self.tail {
            if !is_plain_tail(t.as_str()) {
                return false;
            }
        }
        true
    }

    pub fn duplicate(&self) -> (out: Entity)
        ensures
            out == *self,
    {
        Entity {
            kind: self.kind.clone(),
            icao: crate::text::copy_text(&self.icao),
            gs: crate::text::copy_text(&self.gs),
            id: self.id,
            callsign: crate::text::copy_text(&self.callsign),
            tail: crate::text::copy_text(&self.tail),
            coords: self.coords,
        }
    }
}

/// Whether `s` is an aircraft address.
pub fn is_icao(s: &str) -> (out: bool)
    ensures
        out == icao_ok(s@),
{
    let v = chars_of(s);
    if v.len() != 6 {
        return false;
    }
    let mut i: usize = 0;
    while i < v.len()
        invariant
            i <= v.len(),
            v@ == s@,
            v@.len() == 6,
            forall|j: int| 0 <= j < i ==> is_upper_hex(#[trigger] v@[j]),
        decreases v.len() - i,
    {
        let c = v[i];
        if !(('0' <= c && c <= '9') || ('A' <= c && c <= 'F')) {
            assert(!is_upper_hex(s@[i as int]));
            return false;
        }
        i += 1;
    }
    true
}

/// Whether `s` is a tail number in its plain form, of at most eight characters.
pub fn is_plain_tail(s: &str) -> (out: bool)
    ensures
        out == (s@.len() <= 8 && no_filler(s@)),
{
    let v = chars_of(s);
    if v.len() > 8 {
        return false;
    }
    let mut i: usize = 0;
    while i < v.len()
        invariant
            i <= v.len(),
            v@ == s@,
            v@.len() <= 8,
            forall|j: int| 0 <= j < i ==> !is_tail_filler(#[trigger] v@[j]),
        decreases v.len() - i,
    {
        let c = v[i];
        if c == '.' || c == '-' || c == ' ' {
            assert(is_tail_filler(s@[i as int]));
            return false;
        }
        i += 1;
    }
    true
}

/// Whether every one of `freqs` lies in the band of the format.
pub fn all_in_band(freqs: &Vec<u64>) -> (out: bool)
    ensures
        out == freqs_ok(freqs@),
{
    let mut i: usize = 0;
    while i < freqs.len()
        invariant
            i <= freqs.len(),
            forall|j: int| 0 <= j < i ==> freq_ok(#[trigger] freqs@[j]),
        decreases freqs.len() - i,
    {
        if freqs[i] < MIN_FREQ_HZ || freqs[i] > MAX_FREQ_HZ {
            return false;
        }
        i += 1;
    }
    true
}

/// A way that a frame's signal took: from the aircraft to the ground station `party`, on one
/// of `freqs`.
#[derive(Debug, PartialEq, Eq)]
pub struct PropagationPath {
    pub freqs: Vec<u64>,
    pub path: WKTPolyline,
    pub party: Entity,
}

impl PropagationPath {
    pub open spec fn wf(self) -> bool {
        freqs_ok(self.freqs@) && self.party.wf()
    }

    pub fn validate(&self) -> (out: bool)
        ensures
            out == self.wf(),
    {
        all_in_band(&self.freqs) && self.party.validate()
    }
}

/// What a frame is filed under.
#[derive(Debug, PartialEq, Eq)]
pub struct Indexed {
    /// When the frame was sent, as a UTC date and time with microseconds.
    pub timestamp: String,
    pub dst_airport: Option<String>,
}

/// A ground station that an HF frame names, with the frequencies it names for it.
#[derive(Debug, PartialEq, Eq)]
pub struct HFDLGSEntry {
    pub kind: String,
    pub id: u8,
    pub gs: String,
    pub freqs: Vec<u64>,
}

/// What only frames of the HF datalink carry.
#[derive(Debug, PartialEq, Eq)]
pub struct HFDLMetadata {
    pub kind: String,
    pub heard_on: Vec<HFDLGSEntry>,
    pub reason: Option<String>,
}

impl HFDLMetadata {
    pub open spec fn wf(self) -> bool {
        forall|i: int| 0 <= i < self.heard_on@.len() ==> freqs_ok((#[trigger] self.heard_on@[i]).freqs@)
    }

    pub fn validate(&self) -> (out: bool)
        ensures
            out == self.wf(),
    {
        let mut i: usize = 0;
        while i < self.heard_on.len()
            invariant
                i <= self.heard_on.len(),
                forall|j: int| 0 <= j < i ==> freqs_ok((#[trigger] self.heard_on@[j]).freqs@),
            decreases self.heard_on.len() - i,
        {
            if !all_in_band(&self.heard_on[i].freqs) {
                return false;
            }
            i += 1;
        }
        true
    }
}

#[derive(Debug, PartialEq, Eq)]
pub struct Metadata {
    pub hfdl: Option<HFDLMetadata>,
}

/// A frame in the common format.
#[derive(Debug, PartialEq, Eq)]
pub struct CommonFrame {
    /// When the frame arrived, as a UTC date and time with nanoseconds.
    pub timestamp: String,
    pub freq: u64,
    pub signal: i64,
    pub err: bool,
    pub paths: Vec<PropagationPath>,
    pub app: AppInfo,
    pub src: Entity,
    pub dst: Option<Entity>,
    pub indexed: Indexed,
    pub metadata: Metadata,
    pub acars: Option<ACARS>,
}

impl CommonFrame {
    /// The frame's frequency and every frequency it names lie in the band of the format, and
    /// every entity it names is well formed.
    pub open spec fn wf(self) -> bool {
        &&& freq_ok(self.freq)
        &&& self.src.wf()
        &&& self.dst matches Some(d) ==> d.wf()
        &&& forall|i: int| 0 <= i < self.paths@.len() ==> (#[trigger] self.paths@[i]).wf()
        &&& self.metadata.hfdl matches Some(m) ==> m.wf()
    }

    /// Whether the frame is well formed.
    pub fn validate(&self) -> (out: bool)
        ensures
            out == self.wf(),
    {
        if self.freq < MIN_FREQ_HZ || self.freq > MAX_FREQ_HZ {
            return false;
        }
        if !self.src.validate() {
            return false;
        }
        if let Some(d) = &self.dst {
            if !d.validate() {
                return false;
            }
        }
        let mut i: usize = 0;
        while i < self.paths.len()
            invariant
                i <= self.paths.len(),
                forall|j: int| 0 <= j < i ==> (#[trigger] self.paths@[j]).wf(),
            decreases self.paths.len() - i,
        {
            if !self.paths[i].validate() {
                return false;
            }
            i += 1;
        }
        if let Some(m) = &self.metadata.hfdl {
            if !m.validate() {
                return false;
            }
        }
        true
    }
}

} // verus!
