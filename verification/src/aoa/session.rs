//! A session of the VHF datalink: what is known of it besides the decoder process.

use vstd::prelude::*;

verus! {

/// A running session of the VHF decoder.
#[derive(Debug, PartialEq, Eq)]
pub struct DumpVDL2Session {
    /// The frequencies that the session listens on, in kHz.
    pub bands: Vec<u64>,
}

impl DumpVDL2Session {
    pub fn new(bands: Vec<u64>) -> (out: DumpVDL2Session)
        ensures
            out.bands == bands,
    {
        DumpVDL2Session { bands }
    }

    /// Whether the session ends when it stays silent: it never does.
    pub fn on_timeout(&self) -> (out: bool)
        ensures
            !out,
    {
        false
    }

    pub fn get_listening_band(&self) -> (out: &Vec<u64>)
        ensures
            *out == self.bands,
    {
        &self.bands
    }
}

} // verus!
