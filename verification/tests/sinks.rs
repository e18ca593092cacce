use xng::elasticsearch::{existence, index_action, Existence, IndexAction};
use xng::events::{GroundStationChangeEvent, StationId};
use xng::frame::{AppInfo, CommonFrame, Entity, Indexed, Metadata, PropagationPath};
use xng::manager::{ModuleKind, ModuleManager};
use xng::server::{accept, on_ingest, CreateInitTables, IngestAction, IngestEvent};
use xng::sinks::{
    bulk_outcome, handle_gs_change_event, has_credentials, plan_update, sink_mode, BadStationId,
    Batch, BulkFailure, ConflictingSinks, ConnectBackoff, DbWrite, Link, LinkAction, LinkEvent,
    SinkMode, UpdateError,
};
use xng::wkt::{WKTPoint, WKTPolyline};

fn entity(kind: &str, icao: Option<&str>, id: Option<u32>) -> Entity {
    Entity {
        kind: kind.to_string(),
        icao: icao.map(|s| s.to_string()),
        gs: None,
        id,
        callsign: None,
        tail: None,
        coords: None,
    }
}

fn frame(src: Entity, dst: Option<Entity>) -> CommonFrame {
    CommonFrame {
        timestamp: "2024-05-01T12:00:30.000000000Z".to_string(),
        freq: 10_027_000,
        signal: -23_500,
        err: false,
        paths: vec![],
        app: AppInfo { name: "dumphfdl".to_string(), version: "1.4.1".to_string() },
        src,
        dst,
        indexed: Indexed { timestamp: "2024-05-01T12:00:30.000000Z".to_string(), dst_airport: None },
        metadata: Metadata { hfdl: None },
        acars: None,
    }
}

#[test]
fn swarm_reconnect() {
    let mut link = Link::new(true);
    let mut written: Vec<(char, u64)> = vec![];
    // A and B are written.
    assert_eq!(link.step(LinkEvent::Frame), LinkAction::Write { stream: 0 });
    written.push(('A', 0));
    assert_eq!(link.step(LinkEvent::Written), LinkAction::Idle);
    assert_eq!(link.step(LinkEvent::Frame), LinkAction::Write { stream: 0 });
    written.push(('B', 0));
    assert_eq!(link.step(LinkEvent::Written), LinkAction::Idle);
    // The peer hangs up under C: one new connection is made, and C goes to the new stream.
    assert_eq!(link.step(LinkEvent::Frame), LinkAction::Write { stream: 0 });
    assert_eq!(link.step(LinkEvent::WriteFailed { broken_pipe: true }), LinkAction::Reconnect);
    assert_eq!(link, Link::Renewing { stream: 0 });
    assert_eq!(link.step(LinkEvent::Connected), LinkAction::Write { stream: 1 });
    written.push(('C', 1));
    assert_eq!(link, Link::Resending { stream: 1 });
    assert_eq!(link.step(LinkEvent::Written), LinkAction::Idle);
    assert_eq!(link, Link::Up { stream: 1 });
    // Neither A nor B was written again, and what follows goes to the new stream.
    assert_eq!(written, vec![('A', 0), ('B', 0), ('C', 1)]);
    assert_eq!(link.step(LinkEvent::Frame), LinkAction::Write { stream: 1 });
}

#[test]
fn a_frame_is_dropped_after_one_reconnect() {
    // No new connection: the frame is dropped.
    let mut link = Link::new(true);
    assert_eq!(link.step(LinkEvent::Frame), LinkAction::Write { stream: 0 });
    assert_eq!(link.step(LinkEvent::WriteFailed { broken_pipe: true }), LinkAction::Reconnect);
    assert_eq!(link.step(LinkEvent::ConnectFailed), LinkAction::Drop);
    assert_eq!(link, Link::Up { stream: 0 });
    // The new stream breaks as well: the frame is dropped, and no other connection is tried.
    assert_eq!(link.step(LinkEvent::Frame), LinkAction::Write { stream: 0 });
    assert_eq!(link.step(LinkEvent::WriteFailed { broken_pipe: true }), LinkAction::Reconnect);
    assert_eq!(link.step(LinkEvent::Connected), LinkAction::Write { stream: 1 });
    assert_eq!(link.step(LinkEvent::WriteFailed { broken_pipe: true }), LinkAction::Drop);
    assert_eq!(link, Link::Up { stream: 1 });
    // A fault other than a broken pipe drops the frame at once.
    assert_eq!(link.step(LinkEvent::Frame), LinkAction::Write { stream: 1 });
    assert_eq!(link.step(LinkEvent::WriteFailed { broken_pipe: false }), LinkAction::Drop);
    assert_eq!(link, Link::Up { stream: 1 });
}

#[test]
fn swarm_link_in_every_state() {
    let mut absent = Link::new(false);
    assert_eq!(absent, Link::Absent);
    assert_eq!(absent.step(LinkEvent::Frame), LinkAction::Store);
    assert_eq!(absent.step(LinkEvent::Connected), LinkAction::Idle);
    assert_eq!(absent, Link::Absent);
    let mut up = Link::Up { stream: u64::MAX };
    assert_eq!(up.step(LinkEvent::WriteFailed { broken_pipe: false }), LinkAction::Drop);
    assert_eq!(up, Link::Up { stream: u64::MAX });
    assert_eq!(up.step(LinkEvent::WriteFailed { broken_pipe: true }), LinkAction::Reconnect);
    assert_eq!(up.step(LinkEvent::Frame), LinkAction::Drop);
    assert_eq!(up.step(LinkEvent::ConnectFailed), LinkAction::Drop);
    assert_eq!(up, Link::Up { stream: u64::MAX });
    up.step(LinkEvent::WriteFailed { broken_pipe: true });
    assert_eq!(up.step(LinkEvent::Connected), LinkAction::Write { stream: 0 });
    assert_eq!(up, Link::Resending { stream: 0 });
    assert_eq!(up.step(LinkEvent::Frame), LinkAction::Drop);
    assert_eq!(up.step(LinkEvent::Connected), LinkAction::Idle);
    assert_eq!(up.step(LinkEvent::Written), LinkAction::Idle);
    assert_eq!(up, Link::Up { stream: 0 });
}

#[test]
fn first_connection_backs_off() {
    let mut b = ConnectBackoff::new();
    let waits: Vec<u64> = (0..7).map(|_| b.failed()).collect();
    assert_eq!(waits, vec![1, 2, 4, 8, 16, 32, 64]);
    assert!(b.may_attempt(0));
    assert!(b.may_attempt(59));
    assert!(!b.may_attempt(60));
    let mut far = ConnectBackoff { wait_secs: u64::MAX / 2 + 1 };
    assert_eq!(far.failed(), u64::MAX / 2 + 1);
    assert_eq!(far.wait_secs, u64::MAX);
}

#[test]
fn swarm_and_search_index_exclude_each_other() {
    assert_eq!(sink_mode(true, true), Err(ConflictingSinks));
    assert_eq!(sink_mode(true, false), Ok(SinkMode::Swarm));
    assert_eq!(sink_mode(false, true), Ok(SinkMode::Elastic));
    assert_eq!(sink_mode(false, false), Ok(SinkMode::Local));
}

#[test]
fn a_batch_asks_for_one_wait() {
    let mut batch: Batch<u32> = Batch::new();
    assert!(batch.push(1));
    assert!(!batch.push(2));
    assert!(!batch.push(3));
    assert_eq!(batch.drain(), vec![1, 2, 3]);
    assert_eq!(batch.drain(), Vec::<u32>::new());
    assert!(batch.push(4));
    assert_eq!(batch.items, vec![4]);
}

#[test]
fn answers_of_the_search_index() {
    assert_eq!(bulk_outcome(false, &vec![true, true]), Ok(()));
    assert_eq!(bulk_outcome(true, &vec![false, true, true, false]), Err(BulkFailure { count: 2 }));
    assert_eq!(bulk_outcome(true, &vec![]), Err(BulkFailure { count: 0 }));
    assert!(has_credentials("elastic", Some("")));
    assert!(!has_credentials("", Some("secret")));
    assert!(!has_credentials("elastic", None));
    assert_eq!(existence(200), Existence::Present);
    assert_eq!(existence(299), Existence::Present);
    assert_eq!(existence(404), Existence::Absent);
    assert_eq!(existence(500), Existence::Unclear);
    assert_eq!(index_action(Existence::Present, false, true), IndexAction::RefuseExisting);
    assert_eq!(index_action(Existence::Present, true, false), IndexAction::AnnounceDelete);
    assert_eq!(index_action(Existence::Present, true, true), IndexAction::Delete);
    assert_eq!(index_action(Existence::Absent, true, true), IndexAction::RefuseMissing);
    assert_eq!(index_action(Existence::Absent, false, false), IndexAction::AnnounceCreate);
    assert_eq!(index_action(Existence::Absent, false, true), IndexAction::Create);
    assert_eq!(index_action(Existence::Unclear, false, true), IndexAction::Nothing);
}

#[test]
fn writes_for_a_frame_from_an_aircraft() {
    let mut src = entity("Aircraft", Some("4CA8E5"), Some(17));
    src.tail = Some("EIDYX".to_string());
    src.callsign = Some("RYR12".to_string());
    src.coords = Some(WKTPoint { x: -6_250_000, y: 53_420_000, z: 0 });
    let dst = entity("Ground station", None, Some(7));
    let mut f = frame(src, Some(dst));
    for id in [Some(7), None, Some(3)] {
        f.paths.push(PropagationPath {
            freqs: vec![10_027_000],
            path: WKTPolyline { points: vec![] },
            party: entity("Ground station", None, id),
        });
    }
    assert_eq!(
        plan_update(&f),
        Ok(vec![
            DbWrite::FrequencyStat {
                khz: 10027,
                station: 7,
                last_heard: "2024-05-01T12:00:30.000000000Z".to_string(),
            },
            DbWrite::StationHeard { heard: 7, from_station: false },
            DbWrite::Aircraft {
                number: 0x4ca8e5,
                addr: "4CA8E5".to_string(),
                tail: Some("EIDYX".to_string()),
            },
            DbWrite::AircraftEvent {
                icao: Some(0x4ca8e5),
                gs_id: 7,
                callsign: Some("RYR12".to_string()),
                tail_number: Some("EIDYX".to_string()),
                ts: "2024-05-01T12:00:30.000000Z".to_string(),
                signal: -23_500,
                freq: 10_027_000,
                latitude: 53_420_000,
                longitude: -6_250_000,
                altitude: 0,
                reached: vec![7, 3],
            },
        ])
    );
}

#[test]
fn writes_for_a_frame_from_a_ground_station() {
    let f = frame(entity("ground STATION", None, Some(2)), None);
    assert_eq!(
        plan_update(&f),
        Ok(vec![
            DbWrite::FrequencyStat {
                khz: 10027,
                station: 2,
                last_heard: "2024-05-01T12:00:30.000000000Z".to_string(),
            },
            DbWrite::StationHeard { heard: 2, from_station: true },
        ])
    );
    let to_aircraft = frame(
        entity("Ground station", None, Some(2)),
        Some(entity("Aircraft", Some("nothex"), Some(9))),
    );
    assert_eq!(plan_update(&to_aircraft).map(|w| w.len()), Ok(2));
}

#[test]
fn frames_that_give_no_writes() {
    assert_eq!(
        plan_update(&frame(entity("Aircraft", None, Some(1)), None)),
        Err(UpdateError::NoGroundStation)
    );
    assert_eq!(
        plan_update(&frame(entity("Ground station", None, None), None)),
        Err(UpdateError::NoStationId)
    );
    assert_eq!(
        plan_update(&frame(
            entity("Aircraft", None, Some(1)),
            Some(entity("Ground station", None, None))
        )),
        Err(UpdateError::NoStationId)
    );
}

fn change(id: StationId) -> GroundStationChangeEvent {
    GroundStationChangeEvent {
        ts: "2024-05-01T12:00:30.000000Z".to_string(),
        id,
        name: None,
        old: "[]".to_string(),
        new: "[10027]".to_string(),
        old_freqs: vec![],
        new_freqs: vec![10027],
    }
}

#[test]
fn stations_of_change_events_by_number() {
    assert_eq!(handle_gs_change_event(&change(StationId::Number(7))), Ok(7));
    assert_eq!(handle_gs_change_event(&change(StationId::Text("1F".to_string()))), Ok(31));
    assert_eq!(
        handle_gs_change_event(&change(StationId::Text("Shannon".to_string()))),
        Err(BadStationId::NotHexadecimal)
    );
    assert_eq!(handle_gs_change_event(&change(StationId::Null)), Err(BadStationId::Missing));
    assert_eq!(change(StationId::Number(7)).pretty_id(), "7");
    assert_eq!(change(StationId::Text("1F".to_string())).pretty_id(), "1F");
    assert_eq!(change(StationId::Null).pretty_id(), "No ID");
    assert_eq!(change(StationId::Null).pretty_name(), "No Name");
    let mut named = change(StationId::Number(7));
    named.name = Some("Shannon".to_string());
    assert_eq!(named.pretty_name(), "Shannon");
}

#[test]
fn the_aggregator_takes_in_well_formed_frames() {
    assert_eq!(on_ingest(IngestEvent::Idle), IngestAction::Disconnect);
    assert_eq!(on_ingest(IngestEvent::ReadFailed), IngestAction::Disconnect);
    assert_eq!(on_ingest(IngestEvent::Line { size: 0 }), IngestAction::Disconnect);
    assert_eq!(on_ingest(IngestEvent::Line { size: 1 }), IngestAction::Parse);
    let good = frame(entity("Aircraft", Some("4CA8E5"), None), None);
    assert!(accept(&good));
    let mut low = frame(entity("Aircraft", None, None), None);
    low.freq = 1_999_999;
    assert!(!accept(&low));
    low.freq = 2_000_000;
    assert!(accept(&low));
    low.freq = 1_630_000_000;
    assert!(accept(&low));
    low.freq = 1_630_000_001;
    assert!(!accept(&low));
    assert!(!accept(&frame(entity("Balloon", None, None), None)));
    assert!(!accept(&frame(entity("Aircraft", Some("4ca8e5"), None), None)));
    assert!(!accept(&frame(entity("Aircraft", Some("4CA8E"), None), None)));
    let mut dotted = entity("Aircraft", None, None);
    dotted.tail = Some("EI-DYX".to_string());
    assert!(!accept(&frame(dotted, None)));
    let mut long = entity("Reserved", None, None);
    long.callsign = Some("123456789".to_string());
    assert!(!accept(&frame(long, None)));
    assert_eq!(
        CreateInitTables.tables(),
        vec![
            "ground_stations",
            "ground_station_change_events",
            "aircrafts",
            "aircraft_events",
            "propagation_events",
            "frequency_stats"
        ]
    );
}

#[test]
fn commands_start_modules() {
    let manager = ModuleManager::init();
    assert_eq!(manager.modules, vec![ModuleKind::Aoa, ModuleKind::Hfdl]);
    assert_eq!(manager.module("hfdl"), Some(ModuleKind::Hfdl));
    assert_eq!(manager.module("aoa"), Some(ModuleKind::Aoa));
    assert_eq!(manager.module("HFDL"), None);
    assert_eq!(manager.module("server"), None);
    assert_eq!(ModuleKind::Hfdl.id(), "hfdl");
    assert_eq!(ModuleKind::Aoa.id(), "aoa");
    assert_eq!(ModuleKind::Hfdl.default_session_timeout_secs(), 600);
    assert_eq!(ModuleKind::Aoa.default_session_timeout_secs(), 900);
}

#[test]
fn the_peer_is_reached_at_host_and_port() {
    assert_eq!(xng::sinks::swarm_target(Some("aggregator.example"), Some(5552)), "aggregator.example:5552");
    assert_eq!(xng::sinks::swarm_target(None, None), "0.0.0.0:0");
    assert_eq!(xng::sinks::swarm_target(Some("10.0.0.7"), None), "10.0.0.7:0");
    assert_eq!(xng::sinks::swarm_target(None, Some(65535)), "0.0.0.0:65535");
}
