//! What the decoders' frames have in common.

use vstd::prelude::*;
use crate::text::{chars_of, lowercase, lowercase_of, same_chars};

verus! {

/// What stands at one end of a frame.
#[derive(Clone, Copy, Debug, PartialEq, Eq, Structural)]
pub enum EntityType {
    Aircraft,
    GroundStation,
    Reserved,
}

/// The decoder that produced a frame.
#[derive(Debug, PartialEq, Eq)]
pub struct Application {
    pub name: String,
    pub version: String,
}

/// When a frame arrived: seconds since the Unix epoch and the microseconds after them.
#[derive(Clone, Copy, Debug, PartialEq, Eq, Structural)]
pub struct Timestamp {
    pub sec: u64,
    pub usec: u64,
}

impl Timestamp {
    /// The microseconds are below one second.
    pub open spec fn wf(self) -> bool {
        self.usec <= 999_999
    }

    pub fn validate(&self) -> (out: bool)
        ensures
            out == self.wf(),
    {
        self.usec <= 999_999
    }
}

/// A value names no kind of entity.
#[derive(Clone, Copy, Debug, PartialEq, Eq, Structural)]
pub struct UnknownEntityType;

/// The kind of entity that `text` names, without regard to the case of its letters.
pub open spec fn entity_type_of(text: Seq<char>) -> Option<EntityType> {
    let t = lowercase_of(text);
    if t == "aircraft"@ {
        Some(EntityType::Aircraft)
    } else if t == "ground station"@ {
        Some(EntityType::GroundStation)
    } else if t == "reserved"@ {
        Some(EntityType::Reserved)
    } else {
        None
    }
}

/// Reads the name of a kind of entity.
pub fn parse_entity_type(val: &str) -> (out: Option<EntityType>)
    ensures
        out == entity_type_of(val@),
{
    let t = chars_of(lowercase(val).as_str());
    if same_chars(&t, &chars_of("aircraft")) {
        Some(EntityType::Aircraft)
    } else if same_chars(&t, &chars_of("ground station")) {
        Some(EntityType::GroundStation)
    } else if same_chars(&t, &chars_of("reserved")) {
        Some(EntityType::Reserved)
    } else {
        None
    }
}

/// Accepts the names of the kinds of entity: aircraft, ground station and reserved.
pub fn validate_entity_type(val: &String) -> (out: Result<(), UnknownEntityType>)
    ensures
        out is Ok <==> entity_type_of(val@) is Some,
{
    match parse_entity_type(val.as_str()) {
        Some(_) => Ok(()),
        None => Err(UnknownEntityType),
    }
}

/// The name under which a kind of entity is written.
pub open spec fn kind_name(k: EntityType) -> Seq<char> {
    match k {
        EntityType::Aircraft => "Aircraft"@,
        EntityType::GroundStation => "Ground station"@,
        EntityType::Reserved => "Reserved"@,
    }
}

/// Whether `text` is the name under which one of the kinds of entity is written.
pub open spec fn is_kind_name(text: Seq<char>) -> bool {
    text == kind_name(EntityType::Aircraft) || text == kind_name(EntityType::GroundStation) || text
        == kind_name(EntityType::Reserved)
}

/// The name under which a kind of entity is written.
pub fn written_kind(k: EntityType) -> (out: String)
    ensures
        out@ == kind_name(k),
        is_kind_name(out@),
{
    match k {
        EntityType::Aircraft => "Aircraft".to_owned(),
        EntityType::GroundStation => "Ground station".to_owned(),
        EntityType::Reserved => "Reserved".to_owned(),
    }
}

/// Whether `val` is the name under which one of the kinds of entity is written.
pub fn is_written_kind(val: &str) -> (out: bool)
    ensures
        out == is_kind_name(val@),
{
    let v = chars_of(val);
    same_chars(&v, &chars_of("Aircraft")) || same_chars(&v, &chars_of("Ground station"))
        || same_chars(&v, &chars_of("Reserved"))
}

/// The kind of entity that `text` names; reserved for every name that is neither aircraft nor
/// ground station.
pub open spec fn kind_of(text: Seq<char>) -> EntityType {
    match entity_type_of(text) {
        Some(k) => k,
        None => EntityType::Reserved,
    }
}

pub fn entity_kind(val: &str) -> (out: EntityType)
    ensures
        out == kind_of(val@),
{
    match parse_entity_type(val) {
        Some(k) => k,
        None => EntityType::Reserved,
    }
}

} // verus!
