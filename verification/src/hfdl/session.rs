//! A session of the HF datalink: what is known of it besides the decoder process.

use vstd::prelude::*;

verus! {

/// A running session of the HF decoder.
#[derive(Debug, PartialEq, Eq)]
pub struct DumpHFDLSession {
    /// The frequencies that the session listens on, in kHz.
    pub listening_bands: Vec<u64>,
    /// Seconds from the start of the session to its scheduled end.
    pub session_end: Option<u64>,
    pub end_session_on_timeout: bool,
}

/// The seconds from `now` to a scheduled end, where that end has not passed.
pub open spec fn seconds_until(end: Option<i64>, now: i64) -> Option<u64> {
    match end {
        Some(at) => if at >= now {
            Some((at - now) as u64)
        } else {
            None
        },
        None => None,
    }
}

impl DumpHFDLSession {
    /// A session that begins at `now` and ends by schedule at `session_end_datetime`, both
    /// in seconds since the Unix epoch. A scheduled end that has passed does not count.
    pub fn new(
        listening_bands: Vec<u64>,
        session_end_datetime: Option<i64>,
        now: i64,
        end_session_on_timeout: bool,
    ) -> (out: DumpHFDLSession)
        ensures
            out.listening_bands == listening_bands,
            out.session_end == seconds_until(session_end_datetime, now),
            out.end_session_on_timeout == end_session_on_timeout,
    {
        let session_end: Option<u64> = match session_end_datetime {
            Some(at) => if at >= now {
                Some((at as i128 - now as i128) as u64)
            } else {
                None
            },
            None => None,
        };
        DumpHFDLSession { listening_bands, session_end, end_session_on_timeout }
    }

    /// Whether the session ends when it stays silent.
    pub fn on_timeout(&self) -> (out: bool)
        ensures
            out == self.end_session_on_timeout,
    {
        self.end_session_on_timeout
    }

    pub fn get_listening_band(&self) -> (out: &Vec<u64>)
        ensures
            *out == self.listening_bands,
    {
        &self.listening_bands
    }
}

} // verus!
