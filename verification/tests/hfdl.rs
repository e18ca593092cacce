use xng::clock::{stamp_text, widen_to_nanos, Instant};
use xng::events::StationId;
use xng::formats::{
    entity_kind, parse_entity_type, validate_entity_type, Application, EntityType, Timestamp,
    UnknownEntityType,
};
use xng::frame;
use xng::hfdl::frame::{
    AircraftInfo, Entity, FreqData, Frame, FrequencyInfo, GroundStation as HeardStation, HFNPDUTime,
    PDUType, Position, Reason, ACARS, HFDL, HFNPDU, LPDU, SPDU,
};
use xng::hfdl::module::HfdlModule;
use xng::hfdl::systable::{GroundStation, SystemTable};
use xng::hfdl::table_text::TableError;
use xng::normalize::NormalizeError;
use xng::settings::ModuleSettings;
use xng::utils::{nearest_time_in_past, split_unix_time_to_utc_datetime};
use xng::wkt::{WKTPoint, WKTPolyline};

const TABLE: &str = "version = 51;\r\nstations = (\n  {\n    id = 1;\n    name = \"San Francisco, California\";\n    lat = 38.384459;\n    lon = -121.759697;\n    frequencies = ( 21934.0, 10081.0, 8927.0 );\n  },\n  {\n    ID = 2;\n    name = \"Molokai, Hawaii\";\n    lat = 21.184293;\n    lon = -157.186525;\n    frequencies = ( 10027.0, 8936.0, 8912.0 );\n  },\n  {\n    id = 7;\n    name = \"Shannon, Ireland\";\n    lat = 52.731000;\n    lon = -8.928000;\n    frequencies = ( 11384.0, 8942.0, 5547.0, 3455.0, 2998.0 );\n  }\n);\n";

/// 2024-05-01T12:00:30Z.
const ARRIVAL: u64 = 1_714_564_830;

fn table() -> SystemTable {
    SystemTable::load("/etc/systable.conf".to_string(), TABLE).unwrap()
}

fn module() -> (HfdlModule, ModuleSettings) {
    let mut m = HfdlModule::new(table());
    m.use_airframes_gs = true;
    let mut s = ModuleSettings::new(false, false, None, vec![]);
    m.init(&mut s);
    (m, s)
}

fn aircraft(id: u8) -> Entity {
    Entity { entity_type: "Aircraft".to_string(), id, name: None, ac_info: None }
}

fn station(id: u8, name: &str) -> Entity {
    Entity {
        entity_type: "Ground station".to_string(),
        id,
        name: Some(name.to_string()),
        ac_info: None,
    }
}

fn kind(name: &str) -> PDUType {
    PDUType { id: 208, name: name.to_string() }
}

fn hfnpdu() -> HFNPDU {
    HFNPDU {
        err: false,
        kind: kind("Performance data"),
        flight_id: None,
        pos: None,
        acars: None,
        version: None,
        systable_partial: None,
        flight_leg_num: None,
        frequency: None,
        time: None,
        freq_data: None,
        last_freq_change_cause: None,
        request_data: None,
    }
}

fn lpdu(src: Entity, dst: Entity) -> LPDU {
    LPDU {
        err: false,
        src,
        dst,
        kind: kind("Unnumbered data"),
        hfnpdu: None,
        ac_info: None,
        assigned_ac_id: None,
        reason: None,
    }
}

fn raw(spdu: Option<SPDU>, lpdu: Option<LPDU>) -> Frame {
    Frame {
        hfdl: HFDL {
            app: Application { name: "dumphfdl".to_string(), version: "1.4.1".to_string() },
            ts: Timestamp { sec: ARRIVAL, usec: 123_456 },
            freq: 10_027_000,
            bit_rate: 300,
            sig_level: -23_500,
            noise_level: -50_100,
            freq_skew: 1_200,
            slot: "S".to_string(),
            spdu,
            lpdu,
        },
    }
}

fn squitter(version: u8, stations: Vec<HeardStation>) -> SPDU {
    SPDU {
        err: false,
        src: station(2, "Molokai, Hawaii"),
        spdu_version: 0,
        change_note: "None".to_string(),
        systable_version: version,
        gs_status: stations,
    }
}

fn heard(id: u8, name: &str, freqs: &[u64]) -> HeardStation {
    HeardStation {
        gs: station(id, name),
        utc_sync: true,
        freqs: freqs.iter().map(|f| FrequencyInfo { id: 0, freq: *f }).collect(),
    }
}

#[test]
fn system_table_from_its_text() {
    let t = table();
    assert_eq!(t.get_version(), 51);
    assert_eq!(t.path, "/etc/systable.conf");
    assert_eq!(
        t.stations,
        vec![
            GroundStation {
                id: 1,
                name: "San Francisco, California".to_string(),
                short: "SFO".to_string(),
                position: (38_384_459, -121_759_697),
                frequencies: vec![21934, 10081, 8927],
            },
            GroundStation {
                id: 2,
                name: "Molokai, Hawaii".to_string(),
                short: "MKK".to_string(),
                position: (21_184_293, -157_186_525),
                frequencies: vec![10027, 8936, 8912],
            },
            GroundStation {
                id: 7,
                name: "Shannon, Ireland".to_string(),
                short: "SNN".to_string(),
                position: (52_731_000, -8_928_000),
                frequencies: vec![11384, 8942, 5547, 3455, 2998],
            },
        ]
    );
    assert_eq!(t.by_id(2).map(|s| s.short.as_str()), Some("MKK"));
    assert_eq!(t.by_id(3), None);
    assert_eq!(t.by_name("shannon, IRELAND").map(|s| s.id), Some(7));
    assert_eq!(t.by_name("Shannon"), None);
    assert_eq!(t.all_freqs(), vec![21934, 10081, 8927, 10027, 8936, 8912, 11384, 8942, 5547, 3455, 2998]);
}

#[test]
fn system_tables_that_are_refused() {
    let load = |text: &str| SystemTable::load("x".to_string(), text);
    assert_eq!(load(""), Err(TableError::Malformed));
    assert_eq!(load("version = 51;"), Err(TableError::Malformed));
    assert_eq!(load(&TABLE.replace("version = 51", "version = 50")), Err(TableError::InvalidVersion));
    assert_eq!(load(&TABLE.replace("version = 51", "version = 256")), Err(TableError::InvalidVersion));
    assert_eq!(
        load(&TABLE.replace("id = 7;", "id = 0;")),
        Err(TableError::MalformedStation { index: 2 })
    );
    assert_eq!(
        load(&TABLE.replace("lat = 21.184293;", "")),
        Err(TableError::MalformedStation { index: 1 })
    );
    assert_eq!(
        load(&TABLE.replace("lat = 38.384459", "lat = 90.0")),
        Err(TableError::MalformedStation { index: 0 })
    );
    assert_eq!(
        load(&TABLE.replace("10081.0", "0.0")),
        Err(TableError::MalformedStation { index: 0 })
    );
    assert_eq!(
        load(&TABLE.replace("\"Molokai, Hawaii\"", "Molokai")),
        Err(TableError::MalformedStation { index: 1 })
    );
    assert_eq!(SystemTable::new("x".to_string(), 50, vec![]), None);
    assert!(SystemTable::new("x".to_string(), 51, vec![]).is_some());
}

#[test]
fn ground_stations_of_the_table() {
    let new = |id, name: &str, lat, lon, f: Vec<u64>| GroundStation::new(id, name.to_string(), lat, lon, f);
    let s = new(12, "Nowhere", -89_999_999, 179_999_999, vec![5, 70_000]).unwrap();
    assert_eq!(s.short, "???");
    assert_eq!(s.frequencies, vec![5, 65535]);
    assert_eq!(s.as_point(), WKTPoint { x: 179_999_999, y: -89_999_999, z: 0 });
    assert_eq!(new(17, "Canarias", 0, 0, vec![1]).unwrap().short, "LPA");
    assert_eq!(new(0, "x", 0, 0, vec![1]), None);
    assert_eq!(new(1, "", 0, 0, vec![1]), None);
    assert_eq!(new(1, "x", 90_000_000, 0, vec![1]), None);
    assert_eq!(new(1, "x", -90_000_000, 0, vec![1]), None);
    assert_eq!(new(1, "x", 0, 180_000_000, vec![1]), None);
    assert_eq!(new(1, "x", 0, -180_000_000, vec![1]), None);
    assert_eq!(new(1, "x", 0, 0, vec![]), None);
    assert_eq!(new(1, "x", 0, 0, vec![1, 0]), None);
}

#[test]
fn kinds_of_entity() {
    assert_eq!(parse_entity_type("AIRCRAFT"), Some(EntityType::Aircraft));
    assert_eq!(parse_entity_type("Ground station"), Some(EntityType::GroundStation));
    assert_eq!(parse_entity_type("reserved"), Some(EntityType::Reserved));
    assert_eq!(parse_entity_type("Ground  station"), None);
    assert_eq!(validate_entity_type(&"Aircraft".to_string()), Ok(()));
    assert_eq!(validate_entity_type(&"Balloon".to_string()), Err(UnknownEntityType));
    assert_eq!(entity_kind("Balloon"), EntityType::Reserved);
    assert_eq!(aircraft(1).kind(), EntityType::Aircraft);
}

#[test]
fn arrival_times() {
    assert_eq!(
        split_unix_time_to_utc_datetime(ARRIVAL as i64, 123_456_789),
        Some(Instant { secs: ARRIVAL as i64, micros: 123_456 })
    );
    assert_eq!(split_unix_time_to_utc_datetime(i64::MAX, 0), None);
    assert_eq!(split_unix_time_to_utc_datetime(0, 2_000_000_000), None);
    let t = Instant { secs: ARRIVAL as i64, micros: 7 };
    assert_eq!(t.to_text(), Some("2024-05-01T12:00:30.000007Z".to_string()));
    assert_eq!(Instant { secs: 0, micros: 0 }.to_text(), Some("1970-01-01T00:00:00.000000Z".to_string()));
    assert_eq!(
        Instant { secs: 253_402_300_799, micros: 999_999 }.to_text(),
        Some("9999-12-31T23:59:59.999999Z".to_string())
    );
    assert_eq!(Instant { secs: 0, micros: 1_000_000 }.to_text(), None);
    assert_eq!(widen_to_nanos("2024-05-01T12:00:30.000007Z"), "2024-05-01T12:00:30.000007000Z");
    assert_eq!(stamp_text(ARRIVAL as i64 * 1_000_000 + 5), "2024-05-01T12:00:30.000005Z");
    assert_eq!(stamp_text(-1), "");
}

#[test]
fn hfnpdu_time_backfill() {
    let arrival = Instant { secs: ARRIVAL as i64, micros: 0 };
    let sent = nearest_time_in_past(&arrival, 23, 59, 59).unwrap();
    assert_eq!(sent.to_text(), Some("2024-04-30T23:59:59.000000Z".to_string()));
    let same_day = nearest_time_in_past(&arrival, 12, 0, 30).unwrap();
    assert_eq!(same_day, arrival);
    let earlier = nearest_time_in_past(&Instant { secs: ARRIVAL as i64, micros: 999_999 }, 12, 0, 29);
    assert_eq!(earlier, Some(Instant { secs: ARRIVAL as i64 - 1, micros: 0 }));
    let a_day = nearest_time_in_past(&arrival, 12, 0, 31).unwrap();
    assert_eq!(a_day.secs, ARRIVAL as i64 - 86_399);
    assert_eq!(nearest_time_in_past(&arrival, 24, 0, 0), None);
    assert_eq!(nearest_time_in_past(&arrival, 0, 60, 0), None);
    assert_eq!(nearest_time_in_past(&arrival, 0, 0, 60), None);
    // Before 1970 as after it.
    assert_eq!(
        nearest_time_in_past(&Instant { secs: -1, micros: 0 }, 0, 0, 0),
        Some(Instant { secs: -86_400, micros: 0 })
    );
    assert_eq!(
        nearest_time_in_past(&Instant { secs: -1, micros: 0 }, 23, 59, 59),
        Some(Instant { secs: -1, micros: 0 })
    );
    assert_eq!(
        nearest_time_in_past(&Instant { secs: -86_401, micros: 5 }, 12, 0, 0),
        Some(Instant { secs: -2 * 86_400 + 43_200, micros: 0 })
    );
    assert_eq!(nearest_time_in_past(&Instant { secs: i64::MIN, micros: 0 }, 0, 0, 0), None);
    assert_eq!(nearest_time_in_past(&Instant { secs: i64::MIN + 86_399, micros: 0 }, 0, 0, 0), None);
    assert!(nearest_time_in_past(&Instant { secs: i64::MIN + 86_400, micros: 0 }, 23, 59, 59).is_some());
    assert_eq!(
        nearest_time_in_past(&Instant { secs: 5, micros: 0 }, 0, 0, 6),
        Some(Instant { secs: 6 - 86_400, micros: 0 })
    );
}

#[test]
fn spdu_from_a_newer_system_table_is_refused() {
    let (m, mut s) = module();
    let before = ModuleSettings { props: vec![], ..module().1 };
    let f = raw(Some(squitter(52, vec![heard(2, "Molokai", &[10027])])), None);
    let out = m.process_message(&mut s, &vec![10027], &f, 0);
    assert_eq!(out, Err(NormalizeError::SystemTableOutOfDate));
    assert_eq!(s.stations.len(), before.stations.len());
    assert!(s.stations.iter().all(|st| st.active_frequencies.is_empty()));
    // The check comes before every other one.
    let mut worse = raw(Some(squitter(255, vec![heard(2, "Molokai", &[1])])), None);
    worse.hfdl.ts.usec = 1_000_000;
    worse.hfdl.freq = 0;
    assert_eq!(
        m.process_message(&mut s, &vec![10027], &worse, 0),
        Err(NormalizeError::SystemTableOutOfDate)
    );
    let same = raw(Some(squitter(51, vec![])), None);
    assert!(m.process_message(&mut s, &vec![10027], &same, 0).is_ok());
}

#[test]
fn squitter_in_the_common_format() {
    let (m, mut s) = module();
    let f = raw(
        Some(squitter(51, vec![heard(1, "San Francisco", &[21934, 8927]), heard(2, "Molokai", &[10027])])),
        None,
    );
    let p = m.process_message(&mut s, &vec![10027], &f, 1_000_000).unwrap();
    assert_eq!(p.frame.timestamp, "2024-05-01T12:00:30.123456000Z");
    assert_eq!(p.frame.indexed.timestamp, "2024-05-01T12:00:30.123456Z");
    assert_eq!(p.frame.freq, 10_027_000);
    assert_eq!(p.frame.signal, -23_500);
    assert!(!p.frame.err);
    assert_eq!(p.frame.app, frame::AppInfo { name: "dumphfdl".to_string(), version: "1.4.1".to_string() });
    assert_eq!(
        p.frame.src,
        frame::Entity {
            kind: "Ground station".to_string(),
            icao: None,
            gs: Some("Molokai, Hawaii".to_string()),
            id: Some(2),
            callsign: None,
            tail: None,
            coords: Some(WKTPoint { x: -157_186_525, y: 21_184_293, z: 0 }),
        }
    );
    assert_eq!(p.frame.dst, None);
    assert_eq!(p.frame.acars, None);
    assert!(p.frame.paths.is_empty());
    assert_eq!(
        p.frame.metadata.hfdl,
        Some(frame::HFDLMetadata {
            kind: "Squitter".to_string(),
            heard_on: vec![
                frame::HFDLGSEntry {
                    kind: "Ground station".to_string(),
                    id: 1,
                    gs: "San Francisco".to_string(),
                    freqs: vec![21_934_000, 8_927_000],
                },
                frame::HFDLGSEntry {
                    kind: "Ground station".to_string(),
                    id: 2,
                    gs: "Molokai".to_string(),
                    freqs: vec![10_027_000],
                },
            ],
            reason: None,
        })
    );
    assert!(p.frame.validate());
    assert_eq!(p.events.len(), 2);
    assert_eq!(p.events[1].id, StationId::Number(2));
    assert_eq!(p.events[1].ts, "2024-05-01T12:00:30.123456Z");
    assert_eq!(p.events[1].new, "[10027]");
    assert!(p.session_update);
    assert_eq!(s.stations.len(), 2);
    // The same squitter once more reports nothing and asks for nothing.
    let again = m.process_message(&mut s, &vec![10027], &f, 2_000_000).unwrap();
    assert_eq!(again.events.len(), 0);
    assert!(!again.session_update);
}

#[test]
fn feedback_needs_to_be_turned_on() {
    let mut m = HfdlModule::new(table());
    m.use_airframes_gs = false;
    m.only_use_active = false;
    let mut s = ModuleSettings::new(false, false, None, vec![]);
    m.init(&mut s);
    let f = raw(Some(squitter(51, vec![heard(2, "Molokai", &[10027])])), None);
    let p = m.process_message(&mut s, &vec![10027], &f, 0).unwrap();
    assert_eq!(p.events.len(), 1);
    assert!(!p.session_update);
}

#[test]
fn link_frame_from_an_aircraft() {
    let (m, mut s) = module();
    let mut l = lpdu(aircraft(17), station(2, "Molokai, Hawaii"));
    l.ac_info = Some(AircraftInfo { icao: "4ca8e5".to_string() });
    let mut h = hfnpdu();
    h.flight_id = Some("RYR12 ".to_string());
    h.pos = Some(Position { lat: 53_420_000, lon: -6_250_000 });
    h.time = Some(HFNPDUTime { hour: 23, min: 59, sec: 59 });
    h.acars = Some(ACARS {
        err: true,
        crc_ok: true,
        more: false,
        reg: ".EI-DYX".to_string(),
        mode: "2".to_string(),
        label: "H1".to_string(),
        sublabel: None,
        cfi: None,
        mfi: Some("M1".to_string()),
        blk_id: "7".to_string(),
        ack: "!".to_string(),
        flight: Some("FR0012".to_string()),
        msg_num: Some("M01".to_string()),
        msg_num_seq: Some("A".to_string()),
        msg_text: "POS".to_string(),
    });
    h.last_freq_change_cause = Some(Reason { code: 1, descr: "Poor uplink".to_string() });
    h.freq_data = Some(vec![
        FreqData {
            gs: station(2, "Molokai, Hawaii"),
            listening_on_freqs: vec![],
            heard_on_freqs: vec![FrequencyInfo { id: 1, freq: 10027 }],
        },
        FreqData {
            gs: station(7, "Shannon"),
            listening_on_freqs: vec![FrequencyInfo { id: 1, freq: 8942 }],
            heard_on_freqs: vec![FrequencyInfo { id: 1, freq: 8942 }, FrequencyInfo { id: 2, freq: 5547 }],
        },
        FreqData { gs: station(1, "San Francisco"), listening_on_freqs: vec![], heard_on_freqs: vec![] },
        FreqData {
            gs: station(9, "Barrow"),
            listening_on_freqs: vec![],
            heard_on_freqs: vec![FrequencyInfo { id: 1, freq: 2998 }],
        },
    ]);
    l.hfnpdu = Some(h);
    let before = module().1;
    let p = m.process_message(&mut s, &vec![10027], &raw(None, Some(l)), 0).unwrap();
    assert_eq!(s, before);
    assert!(p.events.is_empty());
    assert!(!p.session_update);
    let f = p.frame;
    assert!(f.validate());
    assert_eq!(f.timestamp, "2024-05-01T12:00:30.123456000Z");
    assert_eq!(f.indexed.timestamp, "2024-04-30T23:59:59.000000Z");
    assert!(f.err);
    let here = WKTPoint { x: -6_250_000, y: 53_420_000, z: 0 };
    assert_eq!(
        f.src,
        frame::Entity {
            kind: "Aircraft".to_string(),
            icao: Some("4CA8E5".to_string()),
            gs: None,
            id: Some(17),
            callsign: Some("RYR12".to_string()),
            tail: Some("EIDYX".to_string()),
            coords: Some(here),
        }
    );
    let molokai = frame::Entity {
        kind: "Ground station".to_string(),
        icao: None,
        gs: Some("Molokai, Hawaii".to_string()),
        id: Some(2),
        callsign: None,
        tail: None,
        coords: Some(WKTPoint { x: -157_186_525, y: 21_184_293, z: 0 }),
    };
    assert_eq!(f.dst.as_ref(), Some(&molokai));
    assert_eq!(f.acars.as_ref().map(|a| a.tail.clone()), Some(Some(".EI-DYX".to_string())));
    assert_eq!(f.acars.as_ref().map(|a| a.text.clone()), Some(Some("POS".to_string())));
    assert_eq!(f.acars.as_ref().map(|a| a.ack.clone()), Some(Some("!".to_string())));
    let hfdl = f.metadata.hfdl.as_ref().unwrap();
    assert_eq!(hfdl.kind, "Performance data");
    assert_eq!(hfdl.reason, Some("Poor uplink".to_string()));
    assert_eq!(hfdl.heard_on.len(), 4);
    assert_eq!(hfdl.heard_on[1].freqs, vec![8_942_000, 5_547_000]);
    assert_eq!(hfdl.heard_on[2].freqs, Vec::<u64>::new());
    assert_eq!(
        f.paths,
        vec![
            frame::PropagationPath {
                freqs: vec![10_027_000],
                path: WKTPolyline {
                    points: vec![(-6_250_000, 53_420_000, 0), (-157_186_525, 21_184_293, 0)],
                },
                party: molokai,
            },
            frame::PropagationPath {
                freqs: vec![8_942_000, 5_547_000],
                path: WKTPolyline {
                    points: vec![(-6_250_000, 53_420_000, 0), (-8_928_000, 52_731_000, 0)],
                },
                party: frame::Entity {
                    kind: "Ground station".to_string(),
                    icao: None,
                    gs: Some("Shannon, Ireland".to_string()),
                    id: Some(7),
                    callsign: None,
                    tail: None,
                    coords: Some(WKTPoint { x: -8_928_000, y: 52_731_000, z: 0 }),
                },
            },
        ]
    );
}

#[test]
fn link_frame_from_a_ground_station() {
    let (m, mut s) = module();
    let mut l = lpdu(station(7, "Shannon"), aircraft(250));
    l.ac_info = Some(AircraftInfo { icao: "ABCDEF".to_string() });
    l.assigned_ac_id = Some(31);
    l.reason = Some(Reason { code: 2, descr: "Logon denied".to_string() });
    let f = m.process_message(&mut s, &vec![], &raw(None, Some(l)), 0).unwrap().frame;
    assert_eq!(f.src.icao, None);
    assert_eq!(f.src.gs, Some("Shannon".to_string()));
    assert_eq!(f.src.coords, Some(WKTPoint { x: -8_928_000, y: 52_731_000, z: 0 }));
    let dst = f.dst.unwrap();
    assert_eq!(dst.icao, Some("ABCDEF".to_string()));
    assert_eq!(dst.id, Some(31));
    assert_eq!(dst.gs, None);
    assert_eq!(f.indexed.timestamp, "2024-05-01T12:00:30.123456Z");
    let hfdl = f.metadata.hfdl.unwrap();
    assert_eq!(hfdl.kind, "Unnumbered data");
    assert_eq!(hfdl.reason, Some("Logon denied".to_string()));
    assert!(hfdl.heard_on.is_empty());
    assert!(f.paths.is_empty());
    // With a network layer, the number of the aircraft stays, and the tail goes to it.
    let mut l = lpdu(station(7, "Shannon"), aircraft(250));
    l.assigned_ac_id = Some(31);
    let mut h = hfnpdu();
    h.pos = Some(Position { lat: 0, lon: 0 });
    h.acars = Some(ACARS {
        err: false,
        crc_ok: true,
        more: false,
        reg: "N 1-2.3".to_string(),
        mode: "2".to_string(),
        label: "H1".to_string(),
        sublabel: None,
        cfi: None,
        mfi: None,
        blk_id: "7".to_string(),
        ack: "!".to_string(),
        flight: None,
        msg_num: None,
        msg_num_seq: None,
        msg_text: String::new(),
    });
    l.hfnpdu = Some(h);
    let f = m.process_message(&mut s, &vec![], &raw(None, Some(l)), 0).unwrap().frame;
    assert_eq!(f.dst.as_ref().unwrap().id, Some(250));
    assert_eq!(f.dst.as_ref().unwrap().tail, Some("N123".to_string()));
    assert_eq!(f.src.tail, None);
    assert_eq!(f.src.coords, Some(WKTPoint { x: -8_928_000, y: 52_731_000, z: 0 }));
    assert!(f.paths.is_empty());
}

#[test]
fn hf_frames_that_are_refused() {
    let (m, mut s) = module();
    let go = |f: &Frame, s: &mut ModuleSettings| m.process_message(s, &vec![], f, 0).map(|_| ());
    assert_eq!(go(&raw(None, None), &mut s), Err(NormalizeError::MissingPDU));
    let ok = || raw(None, Some(lpdu(aircraft(1), station(2, "Molokai"))));
    assert_eq!(go(&ok(), &mut s), Ok(()));
    let mut f = ok();
    f.hfdl.freq = 1_999_999;
    assert_eq!(go(&f, &mut s), Err(NormalizeError::ValidationFailed));
    f.hfdl.freq = 22_000_001;
    assert_eq!(go(&f, &mut s), Err(NormalizeError::ValidationFailed));
    f.hfdl.freq = 22_000_000;
    assert_eq!(go(&f, &mut s), Ok(()));
    let mut f = ok();
    f.hfdl.ts.usec = 1_000_000;
    assert_eq!(go(&f, &mut s), Err(NormalizeError::ValidationFailed));
    let mut f = ok();
    f.hfdl.ts.sec = 253_402_300_800 * 1000;
    assert_eq!(go(&f, &mut s), Err(NormalizeError::InvalidArrivalTime));
    f.hfdl.ts.sec = u64::MAX;
    assert_eq!(go(&f, &mut s), Err(NormalizeError::InvalidArrivalTime));
    let mut l = lpdu(aircraft(1), station(2, "Molokai"));
    l.src.entity_type = "Balloon".to_string();
    assert_eq!(go(&raw(None, Some(l)), &mut s), Err(NormalizeError::ValidationFailed));
    let mut l = lpdu(aircraft(1), station(2, "Molokai"));
    l.ac_info = Some(AircraftInfo { icao: "4CA8EG".to_string() });
    assert_eq!(go(&raw(None, Some(l)), &mut s), Err(NormalizeError::ValidationFailed));
    let mut l = lpdu(aircraft(1), station(2, "Molokai"));
    let mut h = hfnpdu();
    h.time = Some(HFNPDUTime { hour: 24, min: 0, sec: 0 });
    l.hfnpdu = Some(h);
    assert_eq!(go(&raw(None, Some(l)), &mut s), Err(NormalizeError::ValidationFailed));
    let mut l = lpdu(aircraft(1), station(2, "Molokai"));
    let mut h = hfnpdu();
    h.flight_id = Some("RYR".to_string());
    l.hfnpdu = Some(h);
    assert_eq!(go(&raw(None, Some(l)), &mut s), Err(NormalizeError::ValidationFailed));
    let low = raw(Some(squitter(51, vec![heard(2, "Molokai", &[1999])])), None);
    assert_eq!(go(&low, &mut s), Err(NormalizeError::ValidationFailed));
    assert_eq!(s, module().1);
}
