//! Events that the receiver reports to its consumers.

use vstd::prelude::*;
use crate::text::{decimal, decimal_string, list_literal};

verus! {

/// The identity of a ground station: a number, a name, or none.
#[derive(Debug, PartialEq, Eq)]
pub enum StationId {
    Null,
    Number(u64),
    Text(String),
}

/// What a `StationId` holds.
pub enum StationIdModel {
    Null,
    Number(u64),
    Text(Seq<char>),
}

impl View for StationId {
    type V = StationIdModel;

    open spec fn view(&self) -> StationIdModel {
        match self {
            StationId::Null => StationIdModel::Null,
            StationId::Number(n) => StationIdModel::Number(*n),
            StationId::Text(s) => StationIdModel::Text(s@),
        }
    }
}

impl StationId {
    pub fn duplicate(&self) -> (out: StationId)
        ensures
            out@ == self@,
    {
        match self {
            StationId::Null => StationId::Null,
            StationId::Number(n) => StationId::Number(*n),
            StationId::Text(s) => StationId::Text(s.clone()),
        }
    }
}

/// A ground station changed the set of frequencies on which it is active.
#[derive(Debug, PartialEq, Eq)]
pub struct GroundStationChangeEvent {
    /// When the change was heard, as a UTC date and time.
    pub ts: String,
    pub id: StationId,
    pub name: Option<String>,
    /// The frequencies before the change, in kHz, written as a list.
    pub old: String,
    /// The frequencies after the change, in kHz, written as a list.
    pub new: String,
    pub old_freqs: Vec<u64>,
    pub new_freqs: Vec<u64>,
}

impl GroundStationChangeEvent {
    /// The station's name, where the event carries one.
    pub open spec fn name_text(self) -> Option<Seq<char>> {
        match self.name {
            Some(n) => Some(n@),
            None => None,
        }
    }

    /// The two written lists are those of the two frequency lists.
    pub open spec fn wf(self) -> bool {
        &&& self.old@ == list_literal(self.old_freqs@)
        &&& self.new@ == list_literal(self.new_freqs@)
    }

    /// The station's identity for a reader.
    pub open spec fn pretty_id_text(self) -> Seq<char> {
        match self.id {
            StationId::Number(n) => decimal(n as nat),
            StationId::Text(s) => s@,
            StationId::Null => "No ID"@,
        }
    }

    pub fn pretty_id(&self) -> (out: String)
        ensures
            out@ == self.pretty_id_text(),
    {
        match &self.id {
            StationId::Number(n) => decimal_string(*n),
            StationId::Text(s) => s.clone(),
            StationId::Null => "No ID".to_owned(),
        }
    }

    /// The station's name for a reader.
    pub open spec fn pretty_name_text(self) -> Seq<char> {
        match self.name {
            Some(n) => n@,
            None => "No Name"@,
        }
    }

    pub fn pretty_name(&self) -> (out: String)
        ensures
            out@ == self.pretty_name_text(),
    {
        match &self.name {
            Some(n) => n.clone(),
            None => "No Name".to_owned(),
        }
    }
}

} // verus!
