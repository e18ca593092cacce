//! Where frames go: a peer over a stream, a search index in batches, or the store of
//! ground stations and aircraft.

use vstd::prelude::*;
use crate::events::{GroundStationChangeEvent, StationId};
use crate::formats::{kind_of, EntityType};
use crate::frame::{CommonFrame, Entity, PropagationPath};
use crate::text::{chars_of, copy_text, decimal, parse_hex, parse_hexadecimal, push_decimal, string_of};

verus! {

/// Seconds after which the first connection to the peer is given up.
pub const DEFAULT_INITIAL_SWARM_CONNECT_TIMEOUT_SECS: u64 = 60;

/// Milliseconds that a batch waits for more frames.
pub const DEFAULT_BATCH_WAIT_MS: u64 = 200;

/// The number of frames, and of change events, that can wait for their consumer.
pub const DEFAULT_CHANNEL_BUFFER: usize = 2048;

/// Where the frames of a receiver go.
#[derive(Clone, Copy, Debug, PartialEq, Eq, Structural)]
pub enum SinkMode {
    /// To a peer, and nowhere else.
    Swarm,
    /// To the store, and to the search index in batches.
    Elastic,
    /// To the store alone.
    Local,
}

/// A peer and a search index were both asked for.
#[derive(Clone, Copy, Debug, PartialEq, Eq, Structural)]
pub struct ConflictingSinks;

/// The sink mode that the options ask for. A peer and a search index exclude each other.
pub fn sink_mode(swarm: bool, elastic: bool) -> (out: Result<SinkMode, ConflictingSinks>)
    ensures
        swarm && elastic ==> out is Err,
        swarm && !elastic ==> out == Ok::<SinkMode, ConflictingSinks>(SinkMode::Swarm),
        !swarm && elastic ==> out == Ok::<SinkMode, ConflictingSinks>(SinkMode::Elastic),
        !swarm && !elastic ==> out == Ok::<SinkMode, ConflictingSinks>(SinkMode::Local),
{
    if swarm && elastic {
        Err(ConflictingSinks)
    } else if swarm {
        Ok(SinkMode::Swarm)
    } else if elastic {
        Ok(SinkMode::Elastic)
    } else {
        Ok(SinkMode::Local)
    }
}

/// The host that stands for every address of the machine.
pub open spec fn any_host() -> Seq<char> {
    seq!['0', '.', '0', '.', '0', '.', '0']
}

/// Where the peer is reached: its host, or every address where none is named, then a colon
/// and its port, or 0 where none is named.
pub open spec fn target_of(host: Option<Seq<char>>, port: Option<u16>) -> Seq<char> {
    (match host {
        Some(h) => h,
        None => any_host(),
    }) + seq![':'] + decimal(
        match port {
            Some(p) => p as nat,
            None => 0,
        },
    )
}

/// Where the peer is reached, as host and port of its address give it.
pub fn swarm_target(host: Option<&str>, port: Option<u16>) -> (out: String)
    ensures
        out@ == target_of(
            match host {
                Some(h) => Some(h@),
                None => None,
            },
            port,
        ),
{
    let mut out: Vec<char> = match host {
        Some(h) => chars_of(h),
        None => vec!['0', '.', '0', '.', '0', '.', '0'],
    };
    let ghost head = out@;
    assert(host is None ==> head =~= any_host());
    out.push(':');
    push_decimal(
        &mut out,
        match port {
            Some(p) => p as u64,
            None => 0,
        },
    );
    string_of(&out)
}

/// The first connection to the peer: how long to wait before the next attempt.
#[derive(Clone, Copy, Debug, PartialEq, Eq, Structural)]
pub struct ConnectBackoff {
    pub wait_secs: u64,
}

/// Twice `n`, or the largest number where that is above it.
pub open spec fn doubled(n: u64) -> u64 {
    if n * 2 > u64::MAX {
        u64::MAX
    } else {
        (n * 2) as u64
    }
}

impl ConnectBackoff {
    /// The first wait is one second.
    pub fn new() -> (out: ConnectBackoff)
        ensures
            out.wait_secs == 1,
    {
        ConnectBackoff { wait_secs: 1 }
    }

    /// Whether another attempt is due, `elapsed_secs` seconds after the first began.
    pub fn may_attempt(&self, elapsed_secs: u64) -> (out: bool)
        ensures
            out == (elapsed_secs < DEFAULT_INITIAL_SWARM_CONNECT_TIMEOUT_SECS),
    {
        elapsed_secs < DEFAULT_INITIAL_SWARM_CONNECT_TIMEOUT_SECS
    }

    /// Takes in that an attempt failed: the wait before the next one is the current wait,
    /// and the wait after that is twice as long.
    pub fn failed(&mut self) -> (out: u64)
        ensures
            out == old(self).wait_secs,
            final(self).wait_secs == doubled(old(self).wait_secs),
    {
        let wait = self.wait_secs;
        self.wait_secs = if wait > u64::MAX / 2 {
            u64::MAX
        } else {
            wait * 2
        };
        wait
    }
}

/// The state of the stream to the peer.
#[derive(Clone, Copy, Debug, PartialEq, Eq, Structural)]
pub enum Link {
    /// There is no stream: frames go to the store.
    Absent,
    /// The stream with the given number is in use.
    Up { stream: u64 },
    /// The stream broke under a frame, and a new connection is being made.
    Renewing { stream: u64 },
    /// The frame under which the last stream broke is being written to the stream with the
    /// given number.
    Resending { stream: u64 },
}

/// What happened at the stream.
#[derive(Clone, Copy, Debug, PartialEq, Eq, Structural)]
pub enum LinkEvent {
    /// A frame is to be handed on.
    Frame,
    /// The frame was written.
    Written,
    /// The frame could not be written; `broken_pipe` tells that the peer hung up.
    WriteFailed { broken_pipe: bool },
    /// A new connection was made.
    Connected,
    /// No new connection could be made.
    ConnectFailed,
}

/// What the caller does.
#[derive(Clone, Copy, Debug, PartialEq, Eq, Structural)]
pub enum LinkAction {
    /// Nothing.
    Idle,
    /// Write the frame at hand, as one line, to the stream with the given number.
    Write { stream: u64 },
    /// Hand the frame to the store.
    Store,
    /// Keep the frame at hand and make a new connection.
    Reconnect,
    /// Drop the frame at hand.
    Drop,
}

/// The number of the stream that follows `stream`.
pub open spec fn following(stream: u64) -> u64 {
    if stream == u64::MAX {
        0
    } else {
        (stream + 1) as u64
    }
}

impl Link {
    /// The stream after `e` happened, and what the caller does. A frame is written to the
    /// stream in use. When the peer hangs up under it, one new connection is tried: where it
    /// is made, the frame is written once more, to the new stream, and is dropped if that
    /// fails too; where it is not made, the frame is dropped.
    pub open spec fn next(self, e: LinkEvent) -> (Link, LinkAction) {
        match (self, e) {
            (Link::Absent, LinkEvent::Frame) => (self, LinkAction::Store),
            (Link::Up { stream }, LinkEvent::Frame) => (self, LinkAction::Write { stream }),
            (Link::Renewing { stream }, LinkEvent::Frame) => (self, LinkAction::Drop),
            (Link::Resending { stream }, LinkEvent::Frame) => (self, LinkAction::Drop),
            (Link::Up { stream }, LinkEvent::WriteFailed { broken_pipe }) => if broken_pipe {
                (Link::Renewing { stream }, LinkAction::Reconnect)
            } else {
                (self, LinkAction::Drop)
            },
            (Link::Renewing { stream }, LinkEvent::Connected) => (
                Link::Resending { stream: following(stream) },
                LinkAction::Write { stream: following(stream) },
            ),
            (Link::Renewing { stream }, LinkEvent::ConnectFailed) => (
                Link::Up { stream },
                LinkAction::Drop,
            ),
            (Link::Resending { stream }, LinkEvent::Written) => (
                Link::Up { stream },
                LinkAction::Idle,
            ),
            (Link::Resending { stream }, LinkEvent::WriteFailed { broken_pipe }) => (
                Link::Up { stream },
                LinkAction::Drop,
            ),
            _ => (self, LinkAction::Idle),
        }
    }

    /// The stream at the start: in use where the first connection was made.
    pub fn new(connected: bool) -> (out: Link)
        ensures
            out == (if connected {
                Link::Up { stream: 0 }
            } else {
                Link::Absent
            }),
    {
        if connected {
            Link::Up { stream: 0 }
        } else {
            Link::Absent
        }
    }

    /// Takes in what happened and says what the caller does.
    pub fn step(&mut self, e: LinkEvent) -> (out: LinkAction)
        ensures
            (*final(self), out) == old(self).next(e),
    {
        match (*self, e) {
            (Link::Absent, LinkEvent::Frame) => LinkAction::Store,
            (Link::Up { stream }, LinkEvent::Frame) => LinkAction::Write { stream },
            (Link::Renewing { stream }, LinkEvent::Frame) => LinkAction::Drop,
            (Link::Resending { stream }, LinkEvent::Frame) => LinkAction::Drop,
            (Link::Up { stream }, LinkEvent::WriteFailed { broken_pipe }) => if broken_pipe {
                *self = Link::Renewing { stream };
                LinkAction::Reconnect
            } else {
                LinkAction::Drop
            },
            (Link::Renewing { stream }, LinkEvent::Connected) => {
                let renewed: u64 = if stream == u64::MAX {
                    0
                } else {
                    stream + 1
                };
                *self = Link::Resending { stream: renewed };
                LinkAction::Write { stream: renewed }
            },
            (Link::Renewing { stream }, LinkEvent::ConnectFailed) => {
                *self = Link::Up { stream };
                LinkAction::Drop
            },
            (Link::Resending { stream }, LinkEvent::Written) => {
                *self = Link::Up { stream };
                LinkAction::Idle
            },
            (Link::Resending { stream }, LinkEvent::WriteFailed { broken_pipe }) => {
                *self = Link::Up { stream };
                LinkAction::Drop
            },
            _ => LinkAction::Idle,
        }
    }
}

/// A frame is written to the stream in use when it arrives, and once more only after the
/// peer hung up under it and a new connection was made: then to the new stream.
pub proof fn lemma_when_a_frame_is_written(s: Link, e: LinkEvent)
    ensures
        s.next(e).1 matches LinkAction::Write { stream } ==> (e == LinkEvent::Frame && s == (Link::Up {
            stream,
        })) || (e == LinkEvent::Connected && s is Renewing && stream == following(s->Renewing_stream)
            && stream != s->Renewing_stream),
        e != LinkEvent::Frame ==> !(s.next(e).1 is Store),
{
}

/// The frame under which the peer hung up is written to the new stream, where one new
/// connection is made, and then the frames that follow go there as well. It is written
/// there once: whether that write succeeds or fails, no other connection is tried for it.
pub proof fn lemma_new_stream_after_hangup(stream: u64, broken_pipe: bool)
    ensures
        ({
            let broken = (Link::Up { stream }).next(LinkEvent::WriteFailed { broken_pipe: true });
            let renewed = broken.0.next(LinkEvent::Connected);
            let sent = renewed.0.next(LinkEvent::Written);
            let lost = renewed.0.next(LinkEvent::WriteFailed { broken_pipe });
            &&& broken.1 == LinkAction::Reconnect
            &&& renewed.1 == (LinkAction::Write { stream: following(stream) })
            &&& following(stream) != stream
            &&& sent == (Link::Up { stream: following(stream) }, LinkAction::Idle)
            &&& lost == (Link::Up { stream: following(stream) }, LinkAction::Drop)
            &&& sent.0.next(LinkEvent::Frame).1 == (LinkAction::Write { stream: following(stream) })
        }),
{
}

/// Where no new connection can be made after the peer hung up, the frame is dropped.
pub proof fn lemma_dropped_without_connection(stream: u64)
    ensures
        (Link::Up { stream }).next(LinkEvent::WriteFailed { broken_pipe: true }).0.next(
            LinkEvent::ConnectFailed,
        ).1 == LinkAction::Drop,
{
}

/// The frames that wait for the search index.
#[derive(Debug, PartialEq, Eq)]
pub struct Batch<T> {
    pub items: Vec<T>,
}

impl<T> Batch<T> {
    pub fn new() -> (out: Batch<T>)
        ensures
            out.items@.len() == 0,
    {
        Batch { items: Vec::new() }
    }

    /// Adds a frame to the batch. Tells whether the batch was empty: then the caller starts
    /// the wait after which the batch is sent.
    pub fn push(&mut self, item: T) -> (out: bool)
        ensures
            final(self).items@ == old(self).items@.push(item),
            out == (old(self).items@.len() == 0),
    {
        let first = self.items.len() == 0;
        self.items.push(item);
        first
    }

    /// Takes the frames out of the batch, in the order in which they came, and leaves it
    /// empty.
    pub fn drain(&mut self) -> (out: Vec<T>)
        ensures
            out@ == old(self).items@,
            final(self).items@.len() == 0,
    {
        let mut out: Vec<T> = Vec::new();
        out.append(&mut self.items);
        assert(out@ =~= old(self).items@);
        out
    }
}

/// How many of `failed` are set.
pub open spec fn failures(failed: Seq<bool>) -> nat
    decreases failed.len(),
{
    if failed.len() == 0 {
        0
    } else {
        failures(failed.drop_last()) + (if failed.last() {
            1nat
        } else {
            0nat
        })
    }
}

/// Some frames of a batch were not taken in by the search index.
#[derive(Clone, Copy, Debug, PartialEq, Eq, Structural)]
pub struct BulkFailure {
    pub count: usize,
}

/// What the answer of the search index to a batch means: `errors` is the answer's flag, and
/// `failed` tells for each frame whether the answer reports an error for it. No more frames
/// are reported as lost than the batch held.
pub fn bulk_outcome(errors: bool, failed: &Vec<bool>) -> (out: Result<(), BulkFailure>)
    ensures
        !errors ==> out is Ok,
        errors ==> (out matches Err(e) && e.count == failures(failed@)),
        out matches Err(e) ==> e.count <= failed@.len(),
{
    if !errors {
        return Ok(());
    }
    let mut count: usize = 0;
    let mut i: usize = 0;
    while i < failed.len()
        invariant
            i <= failed.len(),
            count == failures(failed@.take(i as int)),
            count <= i,
        decreases failed.len() - i,
    {
        proof {
            assert(failed@.take(i + 1).drop_last() =~= failed@.take(i as int));
            assert(failed@.take(i + 1).last() == failed@[i as int]);
        }
        if failed[i] {
            count += 1;
        }
        i += 1;
    }
    proof {
        assert(failed@.take(failed.len() as int) =~= failed@);
    }
    Err(BulkFailure { count })
}

/// Whether user and password of an address give credentials: a user is named and a password
/// is there.
pub fn has_credentials(user: &str, password: Option<&str>) -> (out: bool)
    ensures
        out == (user@.len() > 0 && password is Some),
{
    user.unicode_len() > 0 && password.is_some()
}

/// A write to the store.
#[derive(Debug, PartialEq, Eq)]
pub enum DbWrite {
    /// Count a frame on a frequency of a ground station.
    FrequencyStat { khz: u64, station: u32, last_heard: String },
    /// Count a frame heard from a ground station, or to one.
    StationHeard { heard: u32, from_station: bool },
    /// Note an aircraft, and count a frame of it.
    Aircraft { number: u32, addr: String, tail: Option<String> },
    /// Note where an aircraft was, and the ground stations that its signal reached.
    AircraftEvent {
        icao: Option<u32>,
        gs_id: u32,
        callsign: Option<String>,
        tail_number: Option<String>,
        ts: String,
        signal: i64,
        freq: u64,
        latitude: i64,
        longitude: i64,
        altitude: i64,
        reached: Vec<u32>,
    },
}

/// Why a frame gives no writes.
#[derive(Clone, Copy, Debug, PartialEq, Eq, Structural)]
pub enum UpdateError {
    /// Neither end of the frame is a ground station.
    NoGroundStation,
    /// The ground station of the frame has no number.
    NoStationId,
}

/// Whether an entity is a ground station.
pub open spec fn is_station(e: Entity) -> bool {
    kind_of(e.kind@) == EntityType::GroundStation
}

/// The ground station of a frame: its sender where that is a ground station, and else its
/// receiver.
pub open spec fn station_of(f: CommonFrame) -> Option<Entity> {
    if is_station(f.src) {
        Some(f.src)
    } else {
        f.dst
    }
}

/// The aircraft of a frame: its receiver where the sender is a ground station, and else its
/// sender.
pub open spec fn aircraft_of(f: CommonFrame) -> Option<Entity> {
    if is_station(f.src) {
        f.dst
    } else {
        Some(f.src)
    }
}

/// The address of an aircraft as a number.
pub open spec fn aircraft_number(e: Entity) -> Option<u32> {
    match e.icao {
        Some(i) => match parse_hex(i@, u32::MAX as nat) {
            Some(n) => Some(n as u32),
            None => None,
        },
        None => None,
    }
}

/// The numbers of the ground stations that the paths lead to, in order, leaving out every
/// station without a number.
pub open spec fn reached(paths: Seq<PropagationPath>) -> Seq<u32>
    decreases paths.len(),
{
    if paths.len() == 0 {
        Seq::empty()
    } else {
        match paths.last().party.id {
            Some(n) => reached(paths.drop_last()).push(n),
            None => reached(paths.drop_last()),
        }
    }
}

/// Whether `w` counts the frame on its frequency.
pub open spec fn is_frequency_stat(f: CommonFrame, gs_id: u32, w: DbWrite) -> bool {
    w matches DbWrite::FrequencyStat { khz, station: g, last_heard } && khz == f.freq / 1000 && g
        == gs_id && last_heard == f.timestamp
}

/// Whether `w` counts the frame for its ground station.
pub open spec fn is_station_heard(f: CommonFrame, gs_id: u32, w: DbWrite) -> bool {
    w == (DbWrite::StationHeard { heard: gs_id, from_station: is_station(f.src) })
}

/// Whether `w` notes the aircraft `a`.
pub open spec fn is_aircraft(a: Entity, w: DbWrite) -> bool {
    w matches DbWrite::Aircraft { number, addr, tail } && Some(number) == aircraft_number(a) && Some(addr)
        == a.icao && tail == a.tail
}

/// Whether `w` notes where the aircraft `a` of the frame was.
pub open spec fn is_aircraft_event(f: CommonFrame, a: Entity, gs_id: u32, w: DbWrite) -> bool {
    w matches DbWrite::AircraftEvent {
        icao,
        gs_id: g,
        callsign,
        tail_number,
        ts,
        signal,
        freq,
        latitude,
        longitude,
        altitude,
        reached: r,
    } && icao == aircraft_number(a) && g == gs_id && callsign == a.callsign && tail_number
        == a.tail && ts
        == f.indexed.timestamp && signal == f.signal && freq == f.freq && a.coords == Some(
        crate::wkt::WKTPoint { x: longitude, y: latitude, z: altitude },
    ) && r@ == reached(f.paths@)
}

/// Whether `writes` are what the frame `f` asks of the store, for the ground station with
/// the number `gs_id`: a count for the frequency, a count for the station, the aircraft
/// where its address is a number, and where the aircraft was, if the frame tells.
pub open spec fn is_update(f: CommonFrame, gs_id: u32, writes: Seq<DbWrite>) -> bool {
    let noted = aircraft_of(f) matches Some(a) && aircraft_number(a) is Some;
    let seen = aircraft_of(f) matches Some(a) && a.coords is Some;
    let n = 2 + (if noted {
        1int
    } else {
        0int
    }) + (if seen {
        1int
    } else {
        0int
    });
    &&& writes.len() == n
    &&& is_frequency_stat(f, gs_id, writes[0])
    &&& is_station_heard(f, gs_id, writes[1])
    &&& noted ==> is_aircraft(aircraft_of(f)->0, writes[2])
    &&& seen ==> is_aircraft_event(f, aircraft_of(f)->0, gs_id, writes[n - 1])
}

fn stations_reached(paths: &Vec<PropagationPath>) -> (out: Vec<u32>)
    ensures
        out@ == reached(paths@),
{
    let mut out: Vec<u32> = Vec::new();
    let mut i: usize = 0;
    while i < paths.len()
        invariant
            i <= paths.len(),
            out@ == reached(paths@.take(i as int)),
        decreases paths.len() - i,
    {
        proof {
            assert(paths@.take(i + 1).drop_last() =~= paths@.take(i as int));
            assert(paths@.take(i + 1).last() == paths@[i as int]);
        }
        if let Some(n) = paths[i].party.id {
            out.push(n);
        }
        i += 1;
    }
    proof {
        assert(paths@.take(paths.len() as int) =~= paths@);
    }
    out
}

/// The writes that a frame asks of the store.
pub fn plan_update(frame: &CommonFrame) -> (out: Result<Vec<DbWrite>, UpdateError>)
    ensures
        match station_of(*frame) {
            None => out == Err::<Vec<DbWrite>, UpdateError>(UpdateError::NoGroundStation),
            Some(s) => match s.id {
                None => out == Err::<Vec<DbWrite>, UpdateError>(UpdateError::NoStationId),
                Some(gs_id) => (out matches Ok(w) && is_update(*frame, gs_id, w@)),
            },
        },
{
    let from_station = match crate::formats::entity_kind(frame.src.kind.as_str()) {
        EntityType::GroundStation => true,
        _ => false,
    };
    let (aircraft, station): (Option<&Entity>, Option<&Entity>) = if from_station {
        (frame.dst.as_ref(), Some(&frame.src))
    } else {
        (Some(&frame.src), frame.dst.as_ref())
    };
    let station = match station {
        Some(s) => s,
        None => {
            return Err(UpdateError::NoGroundStation);
        },
    };
    let gs_id = match station.id {
        Some(id) => id,
        None => {
            return Err(UpdateError::NoStationId);
        },
    };
    let mut writes: Vec<DbWrite> = Vec::new();
    writes.push(
        DbWrite::FrequencyStat {
            khz: frame.freq / 1000,
            station: gs_id,
            last_heard: frame.timestamp.clone(),
        },
    );
    writes.push(DbWrite::StationHeard { heard: gs_id, from_station });
    if let Some(a) = aircraft {
        let number: Option<u32> = match &a.icao {
            Some(addr) => match parse_hexadecimal(&chars_of(addr.as_str()), u32::MAX as u64) {
                Some(n) => Some(n as u32),
                None => None,
            },
            None => None,
        };
        if let (Some(icao), Some(addr)) = (number, &a.icao) {
            writes.push(
                DbWrite::Aircraft { number: icao, addr: addr.clone(), tail: copy_text(&a.tail) },
            );
        }
        if let Some(c) = &a.coords {
            writes.push(
                DbWrite::AircraftEvent {
                    icao: number,
                    gs_id,
                    callsign: copy_text(&a.callsign),
                    tail_number: copy_text(&a.tail),
                    ts: frame.indexed.timestamp.clone(),
                    signal: frame.signal,
                    freq: frame.freq,
                    latitude: c.y,
                    longitude: c.x,
                    altitude: c.z,
                    reached: stations_reached(&frame.paths),
                },
            );
        }
    }
    Ok(writes)
}

/// The identity of a ground station is no number.
#[derive(Clone, Copy, Debug, PartialEq, Eq, Structural)]
pub enum BadStationId {
    /// The name is no hexadecimal number.
    NotHexadecimal,
    /// There is no identity.
    Missing,
}

/// The number under which the store keeps a ground station: its number, or its name read as
/// a hexadecimal number.
pub open spec fn store_number(id: crate::events::StationIdModel) -> Result<u64, BadStationId> {
    match id {
        crate::events::StationIdModel::Number(n) => Ok(n),
        crate::events::StationIdModel::Text(s) => match parse_hex(s, u64::MAX as nat) {
            Some(n) => Ok(n as u64),
            None => Err(BadStationId::NotHexadecimal),
        },
        crate::events::StationIdModel::Null => Err(BadStationId::Missing),
    }
}

/// The number under which the store keeps the ground station of a change event.
pub fn handle_gs_change_event(event: &GroundStationChangeEvent) -> (out: Result<u64, BadStationId>)
    ensures
        out == store_number(event.id@),
{
    match &event.id {
        StationId::Number(n) => Ok(*n),
        StationId::Text(s) => match parse_hexadecimal(&chars_of(s.as_str()), u64::MAX) {
            Some(n) => Ok(n),
            None => Err(BadStationId::NotHexadecimal),
        },
        StationId::Null => Err(BadStationId::Missing),
    }
}

} // verus!
