//! What the normalizers of the two datalinks share.

use vstd::prelude::*;
use crate::clock::Instant;
use crate::events::GroundStationChangeEvent;
use crate::formats::Timestamp;
use crate::frame::CommonFrame;

verus! {

/// Why a line of decoder output gave no frame.
#[derive(Clone, Copy, Debug, PartialEq, Eq, Structural)]
pub enum NormalizeError {
    /// The line is no frame of the decoder.
    BadJSON,
    /// The frame holds a value that the format does not allow.
    ValidationFailed,
    /// The calendar cannot hold the frame's time.
    InvalidArrivalTime,
    /// The frame carries none of the units that it must carry.
    MissingPDU,
    /// The frame speaks of a system table that is newer than the receiver's.
    SystemTableOutOfDate,
}

/// What a line of decoder output gave: the frame, the changes of ground stations that it
/// reported, and whether the session must be renewed because of them.
#[derive(Debug, PartialEq, Eq)]
pub struct Processed {
    pub frame: CommonFrame,
    pub events: Vec<GroundStationChangeEvent>,
    pub session_update: bool,
}

/// The instant at which a frame arrived, where its time can be one.
pub open spec fn arrival_of(ts: Timestamp) -> Option<Instant> {
    if ts.sec <= i64::MAX && ts.usec <= 999_999 {
        Some(Instant { secs: ts.sec as i64, micros: ts.usec as u32 })
    } else {
        None
    }
}

/// The written form of the instant at which a frame arrived, with microseconds.
pub open spec fn arrival_text(ts: Timestamp) -> Option<Seq<char>> {
    match arrival_of(ts) {
        Some(t) => t.text(),
        None => None,
    }
}

/// The instant at which a frame arrived and its written form.
pub fn arrival(ts: &Timestamp) -> (out: Option<(Instant, String)>)
    ensures
        out is Some <==> arrival_text(*ts) is Some,
        out matches Some((t, s)) ==> arrival_of(*ts) == Some(t) && arrival_text(*ts) == Some(s@)
            && s@.len() > 0,
{
    if ts.sec > i64::MAX as u64 || ts.usec > 999_999 {
        return None;
    }
    let t = Instant { secs: ts.sec as i64, micros: ts.usec as u32 };
    match t.to_text() {
        Some(s) => Some((t, s)),
        None => None,
    }
}

} // verus!
