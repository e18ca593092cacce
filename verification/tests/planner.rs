use xng::arguments::ArgumentError;
use xng::bands::{freq_bands_by_sample_rate, Band};
use xng::events::StationId;
use xng::hfdl::airframes::{
    check_answer, GroundStationFreqInfo, GroundStationStatus, HFDLGroundStationStatus, ServiceFault,
};
use xng::hfdl::module::{wished_band, HfdlArguments, HfdlModule, ReloadError};
use xng::hfdl::planner::{
    band_containing, band_heads, choose_band, exclude, frequencies_outside, rotate, sorted_unique,
    Choice, NoCandidates,
};
use xng::hfdl::rates::{nearest_rate, rate_for_band, rates_from_ranges, rates_from_text, usable_rates};
use xng::hfdl::session::DumpHFDLSession;
use xng::hfdl::systable::{GroundStation as TableStation, SystemTable};
use xng::random::pick;
use xng::schedule::ScheduleError;
use xng::session::{EndSessionReason, PropName, StartError};
use xng::settings::ModuleSettings;
use xng::stations::{FreqInfo, GroundStation};
use xng::validators::{SessionMethod, Validator};
use xng::value::Value;

fn table() -> SystemTable {
    let station = |id: u8, name: &str, freqs: Vec<u64>| {
        TableStation::new(id, name.to_string(), 1, 1, freqs).unwrap()
    };
    SystemTable::new(
        "/etc/systable.conf".to_string(),
        51,
        vec![
            station(1, "San Francisco", vec![8921, 6532, 2998, 5508]),
            station(2, "Molokai", vec![6529, 3007, 2998]),
        ],
    )
    .unwrap()
}

fn module() -> (HfdlModule, ModuleSettings) {
    let mut m = HfdlModule::new(table());
    m.load_sample_rates(vec![250_000, 500_000, 1_000_000]);
    m.sample_rate = 500_000;
    m.args = vec!["--soapysdr".to_string(), "driver=airspyhf".to_string()];
    let mut s = ModuleSettings::new(false, false, None, vec![]);
    m.init(&mut s);
    s.add_prop_with_validator("listening_band".to_string(), Value::List(vec![]), Validator::ReadOnly);
    (m, s)
}

fn station(id: u64, freqs: &[u64], heard: i64) -> GroundStation {
    GroundStation {
        id: StationId::Number(id),
        name: None,
        active_frequencies: freqs.iter().map(|f| FreqInfo { khz: *f, last_updated: heard }).collect(),
    }
}

#[test]
fn method_inc_rotation() {
    let candidates: Vec<u16> = vec![3007, 5508, 6529, 8921];
    assert_eq!(rotate(&candidates, 6529, true), Some(8921));
    assert_eq!(rotate(&candidates, 8921, true), Some(3007));
    assert_eq!(rotate(&candidates, 3008, true), Some(6529));
    assert_eq!(rotate(&candidates, 0, true), Some(5508));
    assert_eq!(rotate(&candidates, 8922, true), None);
    assert_eq!(rotate(&vec![], 1, true), None);
    assert_eq!(rotate(&vec![7], 7, true), Some(7));
}

#[test]
fn method_dec_rotation() {
    let candidates: Vec<u16> = vec![3007, 5508, 6529, 8921];
    assert_eq!(rotate(&candidates, 6529, false), Some(5508));
    assert_eq!(rotate(&candidates, 3007, false), Some(8921));
    assert_eq!(rotate(&candidates, 6000, false), Some(5508));
    assert_eq!(rotate(&candidates, 9000, false), None);
    assert_eq!(rotate(&vec![7], 7, false), Some(7));
}

#[test]
fn pools_of_the_policies() {
    let candidates: Vec<u16> = vec![3007, 5508, 6529, 8921];
    assert_eq!(exclude(&candidates, 6529, 3007), vec![5508, 8921]);
    assert_eq!(exclude(&candidates, 0, 0), vec![3007, 5508, 6529, 8921]);
    assert_eq!(exclude(&candidates, 70_000, 8921), vec![3007, 5508, 6529]);
    let active = vec![
        FreqInfo { khz: 10027, last_updated: 0 },
        FreqInfo { khz: 8921, last_updated: 0 },
        FreqInfo { khz: 6529, last_updated: 0 },
    ];
    assert_eq!(frequencies_outside(&active, &vec![8921, 8936]), vec![10027, 6529]);
    assert_eq!(pick(&vec![]), None);
    assert_eq!(pick(&vec![42]), Some(42));
    for _ in 0..50 {
        let x = pick(&vec![1, 2, 3]).unwrap();
        assert!((1..=3).contains(&x));
    }
    let mut seen = [false; 3];
    for _ in 0..400 {
        seen[pick(&vec![1, 2, 3]).unwrap() as usize - 1] = true;
    }
    assert_eq!(seen, [true; 3]);
}

#[test]
fn choices_of_the_policies() {
    let candidates: Vec<u16> = vec![3007, 5508, 6529, 8921];
    let listening = Some(vec![6529u64, 6532]);
    let none: Vec<GroundStation> = vec![];
    let keep = Ok(Choice { band: 0, last_random: 77 });
    assert_eq!(choose_band(None, &candidates, &listening, 77, &none, 0, 10), keep);
    // The method that keeps the band wishes for the head of the band it listens on.
    assert_eq!(
        choose_band(Some(SessionMethod::Static), &candidates, &listening, 77, &none, 0, 10),
        Ok(Choice { band: 6529, last_random: 77 })
    );
    assert_eq!(choose_band(Some(SessionMethod::Static), &candidates, &None, 77, &none, 0, 10), keep);
    assert_eq!(choose_band(Some(SessionMethod::Static), &candidates, &Some(vec![]), 77, &none, 0, 10), keep);
    assert_eq!(
        choose_band(Some(SessionMethod::Inc), &candidates, &listening, 77, &none, 0, 10),
        Ok(Choice { band: 8921, last_random: 77 })
    );
    assert_eq!(
        choose_band(Some(SessionMethod::Dec), &candidates, &listening, 77, &none, 0, 10),
        Ok(Choice { band: 5508, last_random: 77 })
    );
    assert_eq!(choose_band(Some(SessionMethod::Inc), &candidates, &None, 77, &none, 0, 10), keep);
    assert_eq!(choose_band(Some(SessionMethod::Inc), &candidates, &Some(vec![]), 77, &none, 0, 10), keep);
    assert_eq!(choose_band(Some(SessionMethod::Dec), &candidates, &Some(vec![9000]), 77, &none, 0, 10), keep);
    for _ in 0..50 {
        let c = choose_band(Some(SessionMethod::Random), &candidates, &listening, 3007, &none, 0, 10).unwrap();
        assert!(c.band == 5508 || c.band == 8921);
        assert_eq!(c.last_random, 6529);
        let first = choose_band(Some(SessionMethod::Random), &candidates, &None, 3007, &none, 0, 10).unwrap();
        assert!(candidates.contains(&(first.band as u16)));
        assert_eq!(first.last_random, 3007);
    }
    assert_eq!(
        choose_band(Some(SessionMethod::Random), &vec![6529], &listening, 0, &none, 0, 10),
        Err(NoCandidates)
    );
    assert_eq!(
        choose_band(Some(SessionMethod::Random), &vec![], &None, 0, &none, 0, 10),
        Err(NoCandidates)
    );
    let stations = vec![station(1, &[11384], 0), station(7, &[6529, 8942, 5547], 0), station(7, &[1], 0)];
    for _ in 0..50 {
        let c = choose_band(Some(SessionMethod::Track(7)), &candidates, &listening, 77, &stations, 0, 10).unwrap();
        assert!(c.band == 8942 || c.band == 5547);
        assert_eq!(c.last_random, 77);
    }
    assert_eq!(choose_band(Some(SessionMethod::Track(9)), &candidates, &listening, 77, &stations, 0, 10), keep);
    assert_eq!(choose_band(Some(SessionMethod::Track(7)), &candidates, &None, 77, &stations, 0, 10), keep);
    // Frequencies that have gone stale are none to choose from.
    assert_eq!(
        choose_band(Some(SessionMethod::Track(7)), &candidates, &listening, 77, &stations, 10_000_000, 10),
        Err(NoCandidates)
    );
    assert_eq!(
        choose_band(Some(SessionMethod::Track(1)), &candidates, &Some(vec![11384]), 77, &stations, 0, 10),
        Err(NoCandidates)
    );
}

#[test]
fn frequencies_and_bands() {
    assert_eq!(sorted_unique(&vec![8921, 2998, 6532, 2998, 3007]), vec![2998, 3007, 6532, 8921]);
    assert_eq!(sorted_unique(&vec![]), Vec::<u16>::new());
    let bands = freq_bands_by_sample_rate(&vec![2998, 3007, 5508, 6529, 6532, 8921], 500_000);
    assert_eq!(band_heads(&bands), vec![2998, 5508, 6529, 8921]);
    assert_eq!(band_containing(&bands, 6532), Some(2));
    assert_eq!(band_containing(&bands, 2998), Some(0));
    assert_eq!(band_containing(&bands, 6530), None);
    assert_eq!(bands[2], Band { label: "6529-6532".to_string(), freqs: vec![6529, 6532] });
    let doubled = freq_bands_by_sample_rate(&vec![5, 5, 5], 0);
    assert_eq!(doubled, vec![Band { label: "5".to_string(), freqs: vec![5, 5, 5] }]);
    let wide = freq_bands_by_sample_rate(&vec![0, 65535], u32::MAX);
    assert_eq!(wide, vec![Band { label: "0-65535".to_string(), freqs: vec![0, 65535] }]);
    let narrow = freq_bands_by_sample_rate(&vec![0, 1], 1_112);
    assert_eq!(narrow.len(), 1);
    let narrower = freq_bands_by_sample_rate(&vec![0, 1], 1_111);
    assert_eq!(narrower.len(), 2);
}

#[test]
fn sample_rates_of_the_device() {
    assert_eq!(rates_from_text("912,456, 3,x,0,456,+768"), vec![456, 768, 912]);
    assert_eq!(rates_from_text(""), Vec::<u64>::new());
    assert_eq!(
        rates_from_ranges(&vec![(768_000, 768_000), (0, 0), (100, 200), (192_000, 192_000), (768_000, 768_000)]),
        vec![192_000, 768_000]
    );
    assert_eq!(usable_rates(&vec![3, 0, 1, 3]), vec![1, 3]);
    let rates = vec![250_000, 500_000, 1_000_000];
    assert_eq!(nearest_rate(&rates, 0), Some(250_000));
    assert_eq!(nearest_rate(&rates, 250_001), Some(500_000));
    assert_eq!(nearest_rate(&rates, 1_000_000), Some(1_000_000));
    assert_eq!(nearest_rate(&rates, 1_000_001), None);
    // 1200 Hz for each kHz between the lowest and the highest frequency.
    assert_eq!(rate_for_band(&rates, &vec![6529, 6532]), Some(250_000));
    assert_eq!(rate_for_band(&rates, &vec![2998, 3207]), Some(500_000));
    assert_eq!(rate_for_band(&rates, &vec![3207, 2998, 3000]), Some(500_000));
    assert_eq!(rate_for_band(&rates, &vec![2998, 3832]), None);
    assert_eq!(rate_for_band(&rates, &vec![7]), Some(250_000));
    assert_eq!(rate_for_band(&rates, &vec![]), None);
    let (m, _) = module();
    assert_eq!(m.nearest_sample_rate(300_000), Some(500_000));
    assert_eq!(m.calculate_actual_sample_rate(&vec![2998, 3007]), Some(250_000));
}

#[test]
fn wishes_for_the_next_band() {
    // A wish that the operator left stands.
    for reason in [
        EndSessionReason::NoReason,
        EndSessionReason::SessionTimeout,
        EndSessionReason::SessionEnd,
        EndSessionReason::SessionUpdate,
        EndSessionReason::UserAPIControl,
        EndSessionReason::ReadEOF,
    ] {
        assert_eq!(wished_band(6529, reason, 8921, Some(10027)), 6529);
    }
    assert_eq!(wished_band(0, EndSessionReason::SessionUpdate, 8921, Some(10027)), 8921);
    assert_eq!(wished_band(0, EndSessionReason::SessionUpdate, 0, Some(10027)), 0);
    assert_eq!(wished_band(0, EndSessionReason::SessionEnd, 8921, Some(10027)), 10027);
    assert_eq!(wished_band(0, EndSessionReason::NoReason, 8921, Some(10027)), 10027);
    assert_eq!(wished_band(0, EndSessionReason::SessionEnd, 8921, None), 0);
    for reason in [
        EndSessionReason::SessionTimeout,
        EndSessionReason::UserAPIControl,
        EndSessionReason::ReadError,
        EndSessionReason::ReadEOF,
        EndSessionReason::ProcessStartError,
        EndSessionReason::UserInterrupt,
    ] {
        assert_eq!(wished_band(0, reason, 8921, Some(10027)), 0);
    }
}

#[test]
fn a_session_on_the_lowest_band() {
    let (mut m, mut s) = module();
    assert_eq!(s.patch("session_method", Value::Text("static".to_string())), Ok(()));
    let plan = m.plan_session(&mut s, EndSessionReason::NoReason, None, 0, &vec![]).unwrap();
    assert_eq!(plan.bands, vec![2998, 3007]);
    assert_eq!(plan.requested, 0);
    assert_eq!(plan.sample_rate, 250_000);
    assert_eq!(plan.session_end, None);
    assert!(!plan.end_session_on_timeout);
    assert!(plan.events.is_empty());
    assert_eq!(
        plan.args,
        vec![
            "--system-table",
            "/etc/systable.conf",
            "--sample-rate",
            "250000",
            "--output",
            "decoded:json:file:path=-",
            "--soapysdr",
            "driver=airspyhf",
            "2998000",
            "3007000"
        ]
    );
    assert_eq!(m.last_req_session_band, 0);
    assert_eq!(m.session_started(&mut s, &plan), Ok(()));
    assert_eq!(s.get("listening_band"), Some(&Value::from_numbers(&vec![2998, 3007])));
    assert_eq!(s.get("next_session_band"), Some(&Value::Unsigned(0)));
}

#[test]
fn the_static_method_keeps_the_band() {
    let (mut m, mut s) = module();
    assert_eq!(s.patch("next_session_band", Value::Unsigned(6000)), Ok(()));
    let first = m.start_session(&mut s, EndSessionReason::NoReason, None, 0).unwrap();
    assert_eq!(first.bands, vec![6529, 6532]);
    m.session_started(&mut s, &first).unwrap();
    assert_eq!(s.patch("session_method", Value::Text("static".to_string())), Ok(()));
    for reason in [EndSessionReason::SessionTimeout, EndSessionReason::ReadEOF, EndSessionReason::UserAPIControl] {
        let again = m.start_session(&mut s, reason, None, 0).unwrap();
        assert_eq!(again.bands, vec![6529, 6532]);
        assert_eq!(again.requested, 6529);
        assert!(!again.end_session_on_timeout);
        m.session_started(&mut s, &again).unwrap();
        assert_eq!(s.get("listening_band"), Some(&Value::from_numbers(&vec![6529, 6532])));
    }
}

#[test]
fn rotation_moves_through_the_bands_and_wraps() {
    let (mut m, mut s) = module();
    assert_eq!(s.patch("session_method", Value::Text("inc".to_string())), Ok(()));
    assert_eq!(s.patch("next_session_band", Value::Unsigned(6529)), Ok(()));
    let first = m.start_session(&mut s, EndSessionReason::NoReason, None, 0).unwrap();
    assert_eq!(first.bands[0], 6529);
    m.session_started(&mut s, &first).unwrap();
    let up = m.start_session(&mut s, EndSessionReason::SessionTimeout, None, 0).unwrap();
    assert_eq!(up.bands[0], 8921);
    assert_eq!(m.last_req_session_band, 8921);
    m.session_started(&mut s, &up).unwrap();
    assert_eq!(s.get("listening_band"), Some(&Value::from_numbers(&vec![8921])));
    let wrapped = m.start_session(&mut s, EndSessionReason::SessionTimeout, None, 0).unwrap();
    assert_eq!(wrapped.bands[0], 2998);
    assert_eq!(m.last_req_session_band, 2998);
}

#[test]
fn a_session_on_the_band_that_is_wished_for() {
    let (mut m, mut s) = module();
    assert_eq!(s.patch("next_session_band", Value::Unsigned(6000)), Ok(()));
    let plan = m.start_session(&mut s, EndSessionReason::UserAPIControl, None, 0).unwrap();
    assert_eq!(plan.bands, vec![6529, 6532]);
    assert_eq!(plan.requested, 6000);
    assert!(plan.end_session_on_timeout);
    assert_eq!(m.last_req_session_band, 6000);
    m.session_started(&mut s, &plan).unwrap();
    // After a change of the stations' frequencies the wish of the last session is kept.
    let again = m.plan_session(&mut s, EndSessionReason::SessionUpdate, None, 0, &vec![(50, 8000)]).unwrap();
    assert_eq!(again.bands, vec![6529, 6532]);
    assert_eq!(again.session_end, Some(50));
    // After a scheduled end the schedule's current entry gives the band.
    let scheduled = m
        .plan_session(&mut s, EndSessionReason::SessionEnd, None, 0, &vec![(50, 3000), (90, 8000)])
        .unwrap();
    assert_eq!(scheduled.bands, vec![8921]);
    assert_eq!(scheduled.requested, 8000);
    assert_eq!(scheduled.session_end, Some(50));
    assert_eq!(scheduled.args[8..], ["8921000".to_string()]);
    m.session_started(&mut s, &scheduled).unwrap();
    // The method takes over when nothing is wished for.
    assert_eq!(s.patch("session_method", Value::Text("INC".to_string())), Ok(()));
    let next = m.plan_session(&mut s, EndSessionReason::SessionTimeout, None, 0, &vec![(50, 3000)]).unwrap();
    assert_eq!(next.bands, vec![2998, 3007]);
    assert_eq!(next.requested, 2998);
    m.session_started(&mut s, &next).unwrap();
    assert_eq!(s.patch("session_method", Value::Text("dec".to_string())), Ok(()));
    let back = m.plan_session(&mut s, EndSessionReason::SessionTimeout, None, 0, &vec![]).unwrap();
    assert_eq!(back.bands, vec![8921]);
}

#[test]
fn a_session_among_active_frequencies() {
    let now: i64 = 1_714_564_830_000_000;
    let (mut m, mut s) = module();
    s.stations = vec![
        station(1, &[10081, 8927, 70_000], now - 1),
        station(2, &[10027], now - 2_700_000_000),
    ];
    s.set_prop("only_use_active".to_string(), Value::Bool(true));
    s.set_prop("session_method".to_string(), Value::Text("static".to_string()));
    let plan = m.plan_session(&mut s, EndSessionReason::NoReason, None, now, &vec![]).unwrap();
    assert_eq!(plan.bands, vec![8927]);
    // The stale frequency of the second station is forgotten.
    assert_eq!(s.stations[1].active_frequencies, vec![]);
    assert_eq!(s.stations[0].active_frequencies.len(), 3);
    let status = HFDLGroundStationStatus {
        ground_stations: vec![
            GroundStationStatus {
                id: 2,
                name: "Molokai".to_string(),
                frequencies: GroundStationFreqInfo { active: vec![10027, 8936] },
                last_updated: 0,
            },
            GroundStationStatus {
                id: 3,
                name: "Reykjavik".to_string(),
                frequencies: GroundStationFreqInfo { active: vec![] },
                last_updated: 0,
            },
        ],
    };
    assert_eq!(status.all_freqs(), vec![10027, 8936]);
    let listed = status.heard();
    assert_eq!(listed.len(), 2);
    assert_eq!(listed[0].id, StationId::Number(2));
    assert_eq!(listed[0].name, Some("Molokai".to_string()));
    assert_eq!(listed[0].freqs, vec![10027, 8936]);
    assert_eq!(listed[1].freqs, Vec::<u64>::new());
    assert_eq!(s.patch("next_session_band", Value::Unsigned(9000)), Ok(()));
    let plan = m.plan_session(&mut s, EndSessionReason::NoReason, Some(&status), now, &vec![]).unwrap();
    assert_eq!(plan.bands, vec![10027, 10081]);
    assert_eq!(plan.events.len(), 1);
    assert_eq!(plan.events[0].id, StationId::Number(2));
    assert_eq!(plan.events[0].name, None);
    assert_eq!(plan.events[0].ts, "2024-05-01T12:00:30.000000Z");
    assert_eq!(plan.events[0].old, "[]");
    assert_eq!(plan.events[0].new, "[10027, 8936]");
    assert_eq!(s.stations.len(), 3);
    assert!(!m.wants_airframes(&s, EndSessionReason::NoReason));
    s.set_prop("use_airframes_gs".to_string(), Value::Bool(true));
    assert!(m.wants_airframes(&s, EndSessionReason::NoReason));
    assert!(!m.wants_airframes(&s, EndSessionReason::SessionUpdate));
}

#[test]
fn sessions_that_cannot_be_planned() {
    let plan = |m: &mut HfdlModule, s: &mut ModuleSettings| {
        m.plan_session(s, EndSessionReason::NoReason, None, 0, &vec![]).map(|p| p.bands)
    };
    let (mut m, mut s) = module();
    s.set_prop("session_method".to_string(), Value::Text("static".to_string()));
    m.feed_airframes = true;
    m.args.push("decoded:json:tcp:address=feed.acars.io,port=5556".to_string());
    assert_eq!(plan(&mut m, &mut s), Err(StartError::MisplacedFeed { index: 2 }));
    m.args.insert(2, "--output".to_string());
    assert_eq!(plan(&mut m, &mut s).map(|b| b.len()), Ok(2));
    let (mut m, _) = module();
    let mut s = ModuleSettings::new(false, false, None, vec![]);
    assert_eq!(plan(&mut m, &mut s), Err(StartError::MissingProp(PropName::SessionMethod)));
    s.set_prop("session_method".to_string(), Value::Unsigned(1));
    assert_eq!(plan(&mut m, &mut s), Err(StartError::MissingProp(PropName::SampleRate)));
    s.set_prop("sample_rate".to_string(), Value::Unsigned(1_000_001));
    assert_eq!(plan(&mut m, &mut s), Err(StartError::NoRate));
    s.set_prop("sample_rate".to_string(), Value::Text("fast".to_string()));
    assert_eq!(plan(&mut m, &mut s), Err(StartError::MissingProp(PropName::StaleTimeout)));
    s.set_prop("stale_timeout_sec".to_string(), Value::Signed(-1));
    assert_eq!(plan(&mut m, &mut s), Err(StartError::BadStaleTimeout));
    s.set_prop("stale_timeout_sec".to_string(), Value::Unsigned(u64::MAX));
    assert_eq!(plan(&mut m, &mut s), Err(StartError::MissingProp(PropName::NextSessionBand)));
    s.set_prop("next_session_band".to_string(), Value::Unsigned(8922));
    assert_eq!(plan(&mut m, &mut s), Err(StartError::NoBand));
    s.set_prop("next_session_band".to_string(), Value::Unsigned(65536));
    assert_eq!(plan(&mut m, &mut s), Err(StartError::NoBand));
    s.set_prop("next_session_band".to_string(), Value::Unsigned(8921));
    assert_eq!(plan(&mut m, &mut s), Ok(vec![8921]));
    let started = SessionPlanFor(&mut m, &mut s).started();
    assert_eq!(started, Err(StartError::MissingProp(PropName::ListeningBand)));
    // With a single band a random choice has nothing to choose from after the first session.
    let (mut m, mut s) = module();
    m.systable = SystemTable::new("x".to_string(), 51, vec![]).unwrap();
    assert_eq!(plan(&mut m, &mut s), Err(StartError::NoCandidates));
    m.schedule = "time=3:00".to_string();
    assert_eq!(
        m.start_session(&mut s, EndSessionReason::NoReason, None, 0).map(|p| p.bands),
        Err(StartError::BadSchedule(ScheduleError::BadEntry { segment: 0 }))
    );
}

struct SessionPlanFor<'a>(&'a mut HfdlModule, &'a mut ModuleSettings);

impl SessionPlanFor<'_> {
    fn started(self) -> Result<(), StartError> {
        let plan = self.0.plan_session(self.1, EndSessionReason::NoReason, None, 0, &vec![]).unwrap();
        self.0.session_started(self.1, &plan)
    }
}

#[test]
fn command_line_of_the_hf_module() {
    let texts = |v: &[&str]| v.iter().map(|s| s.to_string()).collect::<Vec<String>>();
    let arguments = || HfdlArguments {
        feed_airframes: false,
        bin: "/opt/dumphfdl".to_string(),
        hfdl_args: Some(texts(&["--soapysdr", "driver=airspyhf"])),
        sample_rate: None,
        stale_timeout: None,
        use_airframes_gs: false,
        only_use_active: true,
        schedule: None,
        start_band_contains: None,
        method: None,
    };
    let (mut m, _) = module();
    let before = module().0;
    assert_eq!(
        m.parse_arguments(HfdlArguments { hfdl_args: None, ..arguments() }),
        Err(ArgumentError::MissingArguments)
    );
    assert_eq!(
        m.parse_arguments(HfdlArguments { hfdl_args: Some(texts(&["--soapysdr"])), ..arguments() }),
        Err(ArgumentError::MissingDriver)
    );
    assert_eq!(
        m.parse_arguments(HfdlArguments { feed_airframes: true, ..arguments() }),
        Err(ArgumentError::MissingStationId)
    );
    assert_eq!(
        m.parse_arguments(HfdlArguments { schedule: Some("time=3:00".to_string()), ..arguments() }),
        Err(ArgumentError::InvalidSchedule(ScheduleError::BadEntry { segment: 0 }))
    );
    assert_eq!(
        m.parse_arguments(HfdlArguments { method: Some("track:0".to_string()), ..arguments() }),
        Err(ArgumentError::InvalidMethod)
    );
    assert_eq!(m, before);
    assert_eq!(m.parse_arguments(arguments()), Ok(()));
    assert_eq!(m.bin, "/opt/dumphfdl");
    assert_eq!(m.driver, "driver=airspyhf");
    assert_eq!(m.sample_rate, 512_000);
    assert_eq!(m.stale_timeout_secs, 2700);
    assert_eq!(m.next_session_band, 0);
    assert_eq!(m.schedule, "");
    assert_eq!(m.method, "random");
    assert!(m.only_use_active);
    let given = HfdlArguments {
        sample_rate: Some("768000".to_string()),
        stale_timeout: Some("60".to_string()),
        schedule: Some("time=03:30,band_contains=6529".to_string()),
        start_band_contains: Some("65536".to_string()),
        method: Some("Track:7".to_string()),
        ..arguments()
    };
    assert_eq!(m.parse_arguments(given), Ok(()));
    assert_eq!(m.sample_rate, 768_000);
    assert_eq!(m.stale_timeout_secs, 60);
    assert_eq!(m.schedule, "time=03:30,band_contains=6529");
    assert_eq!(m.next_session_band, 0);
    assert_eq!(m.method, "track:7");
    assert_eq!(m.id(), "hfdl");
    assert_eq!(m.default_session_timeout_secs(), 600);
}

#[test]
fn reload_takes_the_schedule_from_the_settings() {
    let (mut m, mut s) = module();
    assert_eq!(s.patch("session_schedule", Value::Text("time=03:30,band_contains=6529".to_string())), Ok(()));
    assert_eq!(m.reload(&s), Ok(()));
    assert_eq!(m.schedule, "time=03:30,band_contains=6529");
    s.set_prop("session_schedule".to_string(), Value::Unsigned(3));
    assert_eq!(m.reload(&s), Err(ReloadError::ScheduleNotText));
    assert_eq!(m.schedule, "time=03:30,band_contains=6529");
    assert_eq!(m.reload(&ModuleSettings::new(false, false, None, vec![])), Err(ReloadError::MissingSchedule));
}

#[test]
fn sessions_and_the_service() {
    let s = DumpHFDLSession::new(vec![6529, 6532], Some(1_000), 400, true);
    assert_eq!(s.session_end, Some(600));
    assert!(s.on_timeout());
    assert_eq!(s.get_listening_band(), &vec![6529, 6532]);
    assert_eq!(DumpHFDLSession::new(vec![], Some(400), 400, false).session_end, Some(0));
    assert_eq!(DumpHFDLSession::new(vec![], Some(399), 400, false).session_end, None);
    assert_eq!(DumpHFDLSession::new(vec![], None, 400, false).session_end, None);
    assert_eq!(
        DumpHFDLSession::new(vec![], Some(i64::MAX), i64::MIN, false).session_end,
        Some(u64::MAX)
    );
    assert_eq!(check_answer(200), Ok(()));
    assert_eq!(check_answer(301), Ok(()));
    for status in [500, 502, 503, 504] {
        assert_eq!(check_answer(status), Err(ServiceFault::Unreachable));
    }
    for status in [400, 404] {
        assert_eq!(check_answer(status), Err(ServiceFault::Changed));
    }
}
