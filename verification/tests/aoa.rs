use xng::aoa::frame::{
    Entity, Frame, ParamACLocation, ParamACLocationCoord, ParamValue, VDLParam, ACARS, AVLC, VDL2,
    XID,
};
use xng::aoa::ground_station_db::{parse_angle, BadCoordinates, GSRawRecord, GroundStationDB};
use xng::aoa::module::{start_bands, AoaArguments, AoaModule, InvalidBands};
use xng::aoa::normalize::StationSeen;
use xng::aoa::session::DumpVDL2Session;
use xng::arguments::ArgumentError;
use xng::formats::{Application, Timestamp};
use xng::frame;
use xng::normalize::NormalizeError;
use xng::session::{PropName, StartError};
use xng::settings::ModuleSettings;
use xng::validators::Validator;
use xng::value::Value;
use xng::wkt::{WKTPoint, WKTPolyline};

fn row(id: &str, lat: &str, lon: &str) -> GSRawRecord {
    GSRawRecord {
        gs_id: id.to_string(),
        icao: "EINN".to_string(),
        iata: "SNN".to_string(),
        name: "Shannon".to_string(),
        lat: lat.to_string(),
        lon: lon.to_string(),
    }
}

fn db() -> GroundStationDB {
    GroundStationDB::from_records(vec![
        row("10a5c1", "1.0N", "1.0E"),
        row("10A5C1", " 52.701978N ", "8.924817W"),
        row("2232C1", "33.942536S", "151.175276E"),
    ])
    .unwrap()
}

fn module() -> AoaModule {
    let mut m = AoaModule::new();
    m.stations = Some(db());
    m
}

fn entity(addr: &str, kind: &str) -> Entity {
    Entity { addr: addr.to_string(), entity_type: kind.to_string(), status: None }
}

fn avlc(src: Entity, dst: Entity) -> AVLC {
    AVLC {
        src,
        dst,
        cr: "Command".to_string(),
        rseq: None,
        sseq: None,
        cmd: None,
        pf: None,
        acars: None,
        xid: None,
        x25: None,
    }
}

fn raw(avlc: Option<AVLC>) -> Frame {
    Frame {
        vdl2: VDL2 {
            app: Application { name: "dumpvdl2".to_string(), version: "2.3.0".to_string() },
            ts: Timestamp { sec: 1_714_564_830, usec: 1 },
            freq: 136_975_000,
            idx: 0,
            sig_level: -18_250,
            noise_level: -44_000,
            freq_skew: 0,
            avlc,
        },
    }
}

fn message(reg: &str, flight: Option<&str>) -> ACARS {
    ACARS {
        err: false,
        crc_ok: true,
        more: false,
        reg: reg.to_string(),
        mode: "2".to_string(),
        label: "Q0".to_string(),
        sublabel: None,
        cfi: None,
        mfi: None,
        blk_id: "3".to_string(),
        ack: "!".to_string(),
        flight: flight.map(|f| f.to_string()),
        msg_num: Some("S12".to_string()),
        msg_num_seq: Some("A".to_string()),
        msg_text: String::new(),
    }
}

#[test]
fn angles_with_their_hemisphere() {
    assert_eq!(parse_angle("52.701978N", 'S'), Some(52_701_978));
    assert_eq!(parse_angle(" 33.942536S\t", 'S'), Some(-33_942_536));
    assert_eq!(parse_angle("8.924817W", 'W'), Some(-8_924_817));
    assert_eq!(parse_angle("151.175276E", 'W'), Some(151_175_276));
    assert_eq!(parse_angle("-5S", 'S'), Some(5_000_000));
    assert_eq!(parse_angle("5", 'S'), None);
    assert_eq!(parse_angle("", 'S'), None);
    assert_eq!(parse_angle("N", 'S'), None);
    assert_eq!(parse_angle("5 N", 'S'), None);
    assert_eq!(
        row("x", "52.7N", "8.9W").coords_as_wkt(),
        Some(WKTPoint { x: -8_900_000, y: 52_700_000, z: 0 })
    );
    // The last character is the hemisphere, whatever it is.
    assert_eq!(
        row("x", "52.7", "8.9W").coords_as_wkt(),
        Some(WKTPoint { x: -8_900_000, y: 52_000_000, z: 0 })
    );
    assert_eq!(row("x", "N", "8.9W").coords_as_wkt(), None);
    assert_eq!(row("x", "52.7N", "").coords_as_wkt(), None);
}

#[test]
fn ground_stations_by_address() {
    let db = db();
    assert_eq!(db.records.len(), 3);
    // Of two rows with one address the later one counts.
    let shannon = db.get(&"10A5C1".to_string()).unwrap();
    assert_eq!(shannon.coords, WKTPoint { x: -8_924_817, y: 52_701_978, z: 0 });
    assert_eq!(shannon.icao_addr, "10A5C1");
    assert_eq!(shannon.airport_icao, "EINN");
    assert_eq!(db.get(&"10a5c1".to_string()), None);
    assert_eq!(db.get(&"FFFFFF".to_string()), None);
    assert_eq!(
        GroundStationDB::from_records(vec![row("1", "1N", "1E"), row("2", "north", "1E"), row("3", "", "")]),
        Err(BadCoordinates { row: 1 })
    );
    assert_eq!(GroundStationDB::from_records(vec![]).map(|d| d.records.len()), Ok(0));
}

#[test]
fn message_from_an_aircraft() {
    let m = module();
    let mut a = avlc(entity("4ca8e5", "Aircraft"), entity("10a5c1", "Ground station"));
    a.acars = Some(message(".EI-DYX", Some("FR0012")));
    let p = m.process_message(&raw(Some(a))).unwrap();
    let f = p.frame;
    assert!(f.validate());
    assert_eq!(f.timestamp, "2024-05-01T12:00:30.000001000Z");
    assert_eq!(f.indexed.timestamp, "2024-05-01T12:00:30.000001Z");
    assert_eq!(f.indexed.dst_airport, None);
    assert_eq!(f.freq, 136_975_000);
    assert_eq!(f.signal, -18_250);
    assert_eq!(f.metadata.hfdl, None);
    assert_eq!(
        f.src,
        frame::Entity {
            kind: "Aircraft".to_string(),
            icao: Some("4CA8E5".to_string()),
            gs: None,
            id: None,
            callsign: Some("FR0012".to_string()),
            tail: Some("EIDYX".to_string()),
            coords: None,
        }
    );
    assert_eq!(
        f.dst,
        Some(frame::Entity {
            kind: "Ground station".to_string(),
            icao: Some("10A5C1".to_string()),
            gs: Some("Shannon (SNN/EINN)".to_string()),
            id: Some(0x10a5c1),
            callsign: None,
            tail: None,
            coords: Some(WKTPoint { x: -8_924_817, y: 52_701_978, z: 0 }),
        })
    );
    assert_eq!(f.acars.map(|a| (a.tail, a.flight)), Some((Some(".EI-DYX".to_string()), Some("FR0012".to_string()))));
    assert!(f.paths.is_empty());
    assert_eq!(
        p.station,
        Some(StationSeen {
            id: 0x10a5c1,
            name: "Shannon (SNN/EINN)".to_string(),
            latitude: 52_701_978,
            longitude: -8_924_817,
        })
    );
}

#[test]
fn message_from_a_ground_station() {
    let m = module();
    let mut a = avlc(entity("2232C1", "Ground station"), entity("7C6B2D", "Aircraft"));
    a.acars = Some(message("VH-OQA", Some("QF0001")));
    // Parameters next to a message are not read.
    a.xid = Some(XID {
        err: false,
        xid_type: "x".to_string(),
        xid_type_desc: "y".to_string(),
        vdl_params: vec![VDLParam { name: "dst_airport".to_string(), value: ParamValue::Text("YSSY".to_string()) }],
    });
    let p = m.process_message(&raw(Some(a))).unwrap();
    assert_eq!(p.frame.src.tail, None);
    assert_eq!(p.frame.src.callsign, None);
    assert_eq!(p.frame.src.id, Some(0x2232c1));
    assert_eq!(p.frame.dst.as_ref().unwrap().tail, Some("VHOQA".to_string()));
    assert_eq!(p.frame.dst.as_ref().unwrap().callsign, None);
    assert_eq!(p.frame.dst.as_ref().unwrap().id, None);
    assert_eq!(p.frame.indexed.dst_airport, None);
    assert_eq!(p.station.map(|s| s.id), Some(0x2232c1));
}

#[test]
fn position_of_an_aircraft() {
    let m = module();
    let location = ParamACLocation { loc: ParamACLocationCoord { lat: 53_400_000, lon: -6_200_000 }, alt: 37_000 };
    let params = |first: ParamValue| XID {
        err: false,
        xid_type: "XID_CMD_LE".to_string(),
        xid_type_desc: "Link Establishment".to_string(),
        vdl_params: vec![
            VDLParam { name: "dst_airport".to_string(), value: ParamValue::Text("EIDW".to_string()) },
            VDLParam { name: "ac_location".to_string(), value: first },
            VDLParam { name: "ac_location".to_string(), value: ParamValue::Other },
            VDLParam { name: "dst_airport".to_string(), value: ParamValue::Other },
        ],
    };
    let mut a = avlc(entity("4CA8E5", "Aircraft"), entity("10A5C1", "Ground station"));
    a.xid = Some(params(ParamValue::Location(location)));
    let f = m.process_message(&raw(Some(a))).unwrap().frame;
    let here = WKTPoint { x: -6_200_000, y: 53_400_000, z: 37_000 };
    assert_eq!(f.src.coords, Some(here));
    assert_eq!(f.indexed.dst_airport, Some("EIDW".to_string()));
    assert_eq!(f.paths.len(), 1);
    assert_eq!(f.paths[0].freqs, vec![136_975_000]);
    assert_eq!(
        f.paths[0].path,
        WKTPolyline { points: vec![(-6_200_000, 53_400_000, 37_000), (-8_924_817, 52_701_978, 0)] }
    );
    assert_eq!(f.paths[0].party, f.dst.unwrap());
    // To a station that the table does not hold there is no path.
    let mut a = avlc(entity("4CA8E5", "Aircraft"), entity("FFFFFF", "Ground station"));
    a.xid = Some(params(ParamValue::Location(location)));
    let p = m.process_message(&raw(Some(a))).unwrap();
    assert_eq!(p.frame.src.coords, Some(here));
    assert!(p.frame.paths.is_empty());
    assert_eq!(p.station, None);
    // A position that is none refuses the frame.
    let mut a = avlc(entity("4CA8E5", "Aircraft"), entity("10A5C1", "Ground station"));
    a.xid = Some(params(ParamValue::Text("53N 6W".to_string())));
    assert_eq!(m.process_message(&raw(Some(a))), Err(NormalizeError::ValidationFailed));
}

#[test]
fn vhf_frames_that_are_refused() {
    let m = AoaModule::new();
    assert_eq!(m.process_message(&raw(None)), Err(NormalizeError::MissingPDU));
    let ok = || raw(Some(avlc(entity("4CA8E5", "Aircraft"), entity("10A5C1", "Ground station"))));
    let p = m.process_message(&ok()).unwrap();
    assert_eq!(p.station, None);
    assert_eq!(p.frame.dst.unwrap().gs, None);
    let mut f = ok();
    f.vdl2.freq = 117_999_999;
    assert_eq!(m.process_message(&f), Err(NormalizeError::ValidationFailed));
    f.vdl2.freq = 137_000_001;
    assert_eq!(m.process_message(&f), Err(NormalizeError::ValidationFailed));
    let mut f = ok();
    f.vdl2.ts.sec = u64::MAX;
    assert_eq!(m.process_message(&f), Err(NormalizeError::InvalidArrivalTime));
    for addr in ["4CA8E", "4CA8E5A", "4CA8EG", ""] {
        let f = raw(Some(avlc(entity(addr, "Aircraft"), entity("10A5C1", "Ground station"))));
        assert_eq!(m.process_message(&f), Err(NormalizeError::ValidationFailed), "{}", addr);
    }
    let mut a = avlc(entity("4CA8E5", "Aircraft"), entity("10A5C1", "Ground station"));
    a.acars = Some(message("123456789", None));
    assert_eq!(m.process_message(&raw(Some(a))), Err(NormalizeError::ValidationFailed));
}

#[test]
fn starting_frequencies() {
    let texts = |v: &[&str]| v.iter().map(|s| s.to_string()).collect::<Vec<String>>();
    assert_eq!(start_bands(None), Ok(vec![136975]));
    assert_eq!(
        start_bands(Some(&texts(&["136975", "118000", "137000", "136975"]))),
        Ok(vec![118000, 136975, 136975, 137000])
    );
    assert_eq!(start_bands(Some(&texts(&[]))), Ok(vec![]));
    assert_eq!(start_bands(Some(&texts(&["136975", "117999"]))), Err(InvalidBands));
    assert_eq!(start_bands(Some(&texts(&["137001"]))), Err(InvalidBands));
    assert_eq!(start_bands(Some(&texts(&["136.975"]))), Err(InvalidBands));
}

#[test]
fn command_line_of_the_vhf_module() {
    let texts = |v: &[&str]| v.iter().map(|s| s.to_string()).collect::<Vec<String>>();
    let arguments = |args: Option<Vec<String>>, feed: bool, bands: Option<Vec<String>>| AoaArguments {
        feed_airframes: feed,
        bin: "/usr/bin/dumpvdl2".to_string(),
        stations: None,
        aoa_args: args,
        start_bands: bands,
    };
    let mut m = AoaModule::new();
    assert_eq!(m.parse_arguments(arguments(None, false, None)), Err(ArgumentError::MissingArguments));
    assert_eq!(
        m.parse_arguments(arguments(Some(texts(&["--gain", "40"])), false, None)),
        Err(ArgumentError::MissingDriver)
    );
    let with_driver = texts(&["--soapysdr", "driver=rtlsdr"]);
    assert_eq!(
        m.parse_arguments(arguments(Some(with_driver.clone()), true, None)),
        Err(ArgumentError::MissingStationId)
    );
    assert_eq!(
        m.parse_arguments(arguments(Some(with_driver.clone()), false, Some(texts(&["1"])))),
        Err(ArgumentError::InvalidBands)
    );
    assert_eq!(m, AoaModule::new());
    let full = texts(&["--soapysdr", "driver=rtlsdr", "--station-id", "XX-YYYY"]);
    assert_eq!(
        m.parse_arguments(arguments(Some(full.clone()), true, Some(texts(&["136975", "136725"])))),
        Ok(())
    );
    assert_eq!(m.args, full);
    assert_eq!(m.driver, "driver=rtlsdr");
    assert!(m.feed_airframes);
    assert_eq!(m.next_session_band, vec![136725, 136975]);
    assert_eq!(m.id(), "aoa");
    assert_eq!(m.default_session_timeout_secs(), 900);
}

#[test]
fn sessions_of_the_module() {
    let mut m = AoaModule::new();
    m.args = vec!["--soapysdr".to_string(), "driver=rtlsdr".to_string()];
    m.next_session_band = vec![136725, 136975];
    let mut s = ModuleSettings::new(false, false, None, vec![]);
    assert_eq!(
        m.start_session(&s),
        Err(StartError::MissingProp(PropName::NextSessionBand))
    );
    m.init(&mut s);
    assert_eq!(s.get_validator("next_session_band"), Some(Validator::NextSessionBands));
    let plan = m.start_session(&s).unwrap();
    assert_eq!(plan.bands, vec![136725, 136975]);
    assert_eq!(
        plan.args,
        vec!["--output", "decoded:json:file:path=-", "--soapysdr", "driver=rtlsdr", "136725000", "136975000"]
    );
    assert_eq!(
        m.session_started(&mut s, &plan),
        Err(StartError::MissingProp(PropName::ListeningBand))
    );
    s.add_prop_with_validator("listening_band".to_string(), Value::List(vec![]), Validator::ReadOnly);
    assert_eq!(m.session_started(&mut s, &plan), Ok(()));
    assert_eq!(s.get("listening_band"), Some(&Value::from_numbers(&vec![136725, 136975])));
    assert_eq!(s.get("next_session_band"), Some(&Value::List(vec![])));
    assert_eq!(s.get_validator("listening_band"), Some(Validator::ReadOnly));
    // The operator's wish is what the next session listens on.
    assert_eq!(s.patch("next_session_band", Value::from_numbers(&vec![131550])), Ok(()));
    m.feed_airframes = true;
    let fed = m.start_session(&s).unwrap();
    assert_eq!(fed.bands, vec![131550]);
    assert_eq!(
        fed.args,
        vec![
            "--output",
            "decoded:json:file:path=-",
            "--soapysdr",
            "driver=rtlsdr",
            "--output",
            "decoded:json:udp:address=feed.acars.io,port=5552",
            "131550000"
        ]
    );
    s.set_prop("next_session_band".to_string(), Value::Unsigned(131550));
    assert_eq!(m.start_session(&s), Err(StartError::NotAList));
    m.args.insert(0, "decoded:json:udp:address=feed.acars.io,port=5552".to_string());
    assert_eq!(m.start_session(&s), Err(StartError::MisplacedFeed { index: 0 }));
    let session = DumpVDL2Session::new(vec![131550]);
    assert!(!session.on_timeout());
    assert_eq!(session.get_listening_band(), &vec![131550]);
}

#[test]
fn addresses_are_brought_to_capitals() {
    assert!(entity("4ca8e5", "Aircraft").validate());
    assert!(entity("4CA8E5", "aircraft").validate());
    // The ligature of two small letters f becomes two capitals.
    assert!(entity("\u{fb00}1234", "Aircraft").validate());
    assert!(!entity("\u{fb00}12345", "Aircraft").validate());
    assert!(!entity("4ca8e", "Aircraft").validate());
    assert!(!entity("4ca8eg", "Aircraft").validate());
    assert!(!entity("4ca8e5", "Airship").validate());
    let out = entity("\u{fb00}1234", "AIRCRAFT").to_common_frame_entity(None);
    assert_eq!(out.icao, Some("FF1234".to_string()));
    assert_eq!(out.kind, "Aircraft");
}
