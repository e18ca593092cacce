//! The aggregator: it takes in the frames of other receivers.

use vstd::prelude::*;
use crate::frame::CommonFrame;

verus! {

pub const SERVER_COMMAND: &'static str = "server";

pub const DEFAULT_LISTEN_HOST: &'static str = "0.0.0.0";

pub const DEFAULT_LISTEN_PORT: u16 = 7871;

pub const DEFAULT_INGEST_PORT: u16 = 5552;

pub const DEFAULT_INACTIVE_TIMEOUT_SECS: u64 = 3600;

pub const DEFAULT_CHANNEL_BUFFER: usize = 4096;

pub const DEFAULT_BATCH_WAIT_MS: u64 = 200;

/// What happened on the stream of a receiver.
#[derive(Clone, Copy, Debug, PartialEq, Eq, Structural)]
pub enum IngestEvent {
    /// Nothing came for longer than the receiver may stay silent.
    Idle,
    /// The read failed.
    ReadFailed,
    /// A read returned `size` bytes; none at the end of the stream.
    Line { size: usize },
}

/// What the aggregator does with the stream.
#[derive(Clone, Copy, Debug, PartialEq, Eq, Structural)]
pub enum IngestAction {
    /// Hang up.
    Disconnect,
    /// Read the line as a frame.
    Parse,
}

/// What follows an event on the stream: a line is read as a frame, and everything else ends
/// the connection.
pub open spec fn ingest(e: IngestEvent) -> IngestAction {
    match e {
        IngestEvent::Line { size } => if size == 0 {
            IngestAction::Disconnect
        } else {
            IngestAction::Parse
        },
        _ => IngestAction::Disconnect,
    }
}

pub fn on_ingest(e: IngestEvent) -> (out: IngestAction)
    ensures
        out == ingest(e),
{
    match e {
        IngestEvent::Line { size } => if size == 0 {
            IngestAction::Disconnect
        } else {
            IngestAction::Parse
        },
        _ => IngestAction::Disconnect,
    }
}

/// Whether a frame that a receiver sent is handed on: it is, where it is well formed.
pub fn accept(frame: &CommonFrame) -> (out: bool)
    ensures
        out == frame.wf(),
{
    frame.validate()
}

/// The first step of the store's layout: it creates the tables.
#[derive(Clone, Copy, Debug, PartialEq, Eq, Structural)]
pub struct CreateInitTables;

/// The tables that the first step creates, in order.
pub open spec fn initial_tables() -> Seq<Seq<char>> {
    seq![
        "ground_stations"@,
        "ground_station_change_events"@,
        "aircrafts"@,
        "aircraft_events"@,
        "propagation_events"@,
        "frequency_stats"@,
    ]
}

impl CreateInitTables {
    /// The tables that the step creates, in order.
    pub fn tables(&self) -> (out: Vec<&'static str>)
        ensures
            out@.len() == initial_tables().len(),
            forall|i: int| 0 <= i < out@.len() ==> (#[trigger] out@[i])@ == initial_tables()[i],
    {
        let mut out: Vec<&'static str> = Vec::new();
        out.push("ground_stations");
        out.push("ground_station_change_events");
        out.push("aircrafts");
        out.push("aircraft_events");
        out.push("propagation_events");
        out.push("frequency_stats");
        out
    }
}

} // verus!
