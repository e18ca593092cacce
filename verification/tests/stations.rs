use xng::events::StationId;
use xng::hfdl::feedback::{
    apply_squitter, change_concerns_band, events_concern_band, frequency_touches, heard_in_squitter,
};
use xng::hfdl::frame::{Entity, FrequencyInfo, GroundStation as HeardStation};
use xng::settings::{apply_heard, update_station_by_frequencies, ModuleSettings};
use xng::stations::{
    keep_fresh, position_of_station, same_frequencies, stamp, FreqInfo, GroundStation, Heard,
};

const SECOND: i64 = 1_000_000;

fn entries(list: &[FreqInfo]) -> Vec<(u64, i64)> {
    list.iter().map(|f| (f.khz, f.last_updated)).collect()
}

fn settings() -> ModuleSettings {
    ModuleSettings::new(false, false, None, vec![])
}

fn heard(id: u8, name: &str, freqs: &[u64]) -> HeardStation {
    HeardStation {
        gs: Entity {
            entity_type: "Ground station".to_string(),
            id,
            name: Some(name.to_string()),
            ac_info: None,
        },
        utc_sync: true,
        freqs: freqs.iter().map(|f| FrequencyInfo { id: 0, freq: *f }).collect(),
    }
}

#[test]
fn a_station_is_created_when_it_is_first_heard() {
    let mut s = settings();
    let event = update_station_by_frequencies(
        &mut s,
        "2024-05-01T12:00:30.000000Z".to_string(),
        100 * SECOND,
        2700,
        StationId::Number(2),
        Some("Molokai".to_string()),
        &vec![10027, 8921, 10027],
    )
    .unwrap();
    assert_eq!(event.ts, "2024-05-01T12:00:30.000000Z");
    assert_eq!(event.id, StationId::Number(2));
    assert_eq!(event.name, Some("Molokai".to_string()));
    assert_eq!(event.old, "[]");
    assert_eq!(event.new, "[10027, 8921, 10027]");
    assert_eq!(event.old_freqs, Vec::<u64>::new());
    assert_eq!(event.new_freqs, vec![10027, 8921, 10027]);
    assert_eq!(s.stations.len(), 1);
    assert_eq!(s.stations[0].id, StationId::Number(2));
    assert_eq!(s.stations[0].name, Some("Molokai".to_string()));
    assert_eq!(
        entries(&s.stations[0].active_frequencies),
        vec![(10027, 100 * SECOND), (8921, 100 * SECOND)]
    );
}

#[test]
fn the_same_frequencies_twice_are_one_change() {
    let mut s = settings();
    let freqs = vec![10027, 8921];
    let mut events = 0;
    for now in [100 * SECOND, 2799 * SECOND] {
        let e = update_station_by_frequencies(
            &mut s,
            String::new(),
            now,
            2700,
            StationId::Number(2),
            None,
            &freqs,
        );
        events += e.is_some() as u32;
    }
    assert_eq!(events, 1);
    // In another order, and with a frequency named twice, they are the same still.
    let again = update_station_by_frequencies(
        &mut s,
        String::new(),
        2800 * SECOND,
        2700,
        StationId::Number(2),
        None,
        &vec![8921, 10027, 8921],
    );
    assert_eq!(again, None);
    assert_eq!(s.stations.len(), 1);
}

#[test]
fn stale_frequencies_are_forgotten_before_the_comparison() {
    let mut s = settings();
    let freqs = vec![10027];
    update_station_by_frequencies(&mut s, String::new(), 0, 2700, StationId::Number(2), None, &freqs);
    let e = update_station_by_frequencies(
        &mut s,
        "later".to_string(),
        2700 * SECOND,
        2700,
        StationId::Number(2),
        None,
        &freqs,
    )
    .unwrap();
    assert_eq!(e.old, "[]");
    assert_eq!(e.new, "[10027]");
    assert_eq!(e.ts, "later");
}

#[test]
fn stations_are_found_by_identity() {
    let mut s = settings();
    for (id, freqs) in [
        (StationId::Text(" Shannon ".to_string()), vec![1u64]),
        (StationId::Number(7), vec![2]),
        (StationId::Null, vec![3]),
        (StationId::Text("SHANNON".to_string()), vec![4]),
        (StationId::Number(7), vec![5]),
        (StationId::Text("7".to_string()), vec![6]),
        (StationId::Null, vec![7]),
    ] {
        update_station_by_frequencies(&mut s, String::new(), 0, 10, id, None, &freqs);
    }
    let held: Vec<(StationId, u64)> =
        s.stations.into_iter().map(|st| (st.id, st.active_frequencies[0].khz)).collect();
    assert_eq!(
        held,
        vec![
            (StationId::Text(" Shannon ".to_string()), 4),
            (StationId::Number(7), 5),
            (StationId::Null, 7),
            (StationId::Text("7".to_string()), 6),
        ]
    );
    assert!(StationId::Text("a b".to_string()).matches(&StationId::Text("\tA B\n".to_string())));
    assert!(!StationId::Text("ab".to_string()).matches(&StationId::Text("a b".to_string())));
    assert!(!StationId::Number(1).matches(&StationId::Null));
    // Letters beyond ASCII are brought to lower case as well.
    assert!(StationId::Text("\u{c9}vreux".to_string()).matches(&StationId::Text("\u{e9}VREUX ".to_string())));
    assert!(!StationId::Text("\u{c9}vreux".to_string()).matches(&StationId::Text("evreux".to_string())));
}

#[test]
fn frequency_sets_ignore_order_and_time() {
    assert!(same_frequencies(&vec![], &vec![]));
    assert!(same_frequencies(&vec![1, 2, 2], &vec![2, 1]));
    assert!(!same_frequencies(&vec![1, 2], &vec![1]));
    assert!(!same_frequencies(&vec![1], &vec![1, 3]));
    assert_eq!(entries(&stamp(&vec![5, 6, 5], 9)), vec![(5, 9), (6, 9)]);
    let held = vec![
        FreqInfo { khz: 1, last_updated: 0 },
        FreqInfo { khz: 2, last_updated: 1 },
        FreqInfo { khz: 3, last_updated: 10 * SECOND },
    ];
    assert_eq!(entries(&keep_fresh(&held, 10 * SECOND, 10)), vec![(2, 1), (3, 10 * SECOND)]);
    assert_eq!(keep_fresh(&held, 10 * SECOND, 0), vec![]);
    assert_eq!(keep_fresh(&held, i64::MAX, 1), vec![]);
    assert_eq!(keep_fresh(&held, i64::MIN, i64::MIN), vec![]);
    assert_eq!(entries(&keep_fresh(&held, 0, i64::MAX)), entries(&held));
    let mut st = GroundStation {
        id: StationId::Number(1),
        name: None,
        active_frequencies: held,
    };
    st.invalidate(10 * SECOND + 1, 10);
    assert_eq!(entries(&st.active_frequencies), vec![(3, 10 * SECOND)]);
    assert_eq!(position_of_station(&vec![st], &StationId::Number(1)), Some(0));
}

#[test]
fn frequencies_that_concern_a_band() {
    let band = vec![10027u64, 10081];
    assert!(frequency_touches(10027, &band, 450));
    assert!(frequency_touches(10050, &band, 450));
    assert!(frequency_touches(10081, &band, 450));
    // Below the band, the distance is taken from the band's last frequency.
    assert!(frequency_touches(9631, &band, 450));
    assert!(!frequency_touches(9630, &band, 450));
    assert!(frequency_touches(10531, &band, 450));
    assert!(!frequency_touches(10532, &band, 450));
    assert!(frequency_touches(1, &vec![], 0));
    assert!(change_concerns_band(&vec![10027], &vec![8921], &vec![10027], 450));
    assert!(!change_concerns_band(&vec![6529], &vec![8921], &vec![10027], 450));
    assert!(!change_concerns_band(&vec![10027, 8921], &vec![8921, 10027], &vec![10027], 450));
    assert!(change_concerns_band(&vec![8921], &vec![8921, 10400], &vec![10027], 450));
}

#[test]
fn spdu_feedback_triggers_update() {
    let mut s = settings();
    let ts = "2024-05-01T12:00:30.000000Z".to_string();
    let before = vec![heard(1, "San Francisco", &[6559]), heard(2, "Molokai", &[10027])];
    let first = apply_squitter(&mut s, &before, &ts, 0, 2700, &vec![10027], 450);
    assert_eq!(first.events.len(), 2);
    // Molokai moves from 10027 to 8921.
    let after = vec![heard(1, "San Francisco", &[6559]), heard(2, "Molokai", &[8921])];
    let second = apply_squitter(&mut s, &after, &ts, SECOND, 2700, &vec![10027], 450);
    assert_eq!(second.events.len(), 1);
    assert_eq!(second.events[0].id, StationId::Number(2));
    assert_eq!(second.events[0].name, Some("Molokai".to_string()));
    assert_eq!(second.events[0].old, "[10027]");
    assert_eq!(second.events[0].new, "[8921]");
    assert_eq!(second.events[0].ts, ts);
    assert!(second.touched);
    // The same squitter again changes nothing.
    let third = apply_squitter(&mut s, &after, &ts, 2 * SECOND, 2700, &vec![10027], 450);
    assert_eq!(third.events.len(), 0);
    assert!(!third.touched);
    // A change far from the band does not concern the session.
    let far = vec![heard(1, "San Francisco", &[21934]), heard(2, "Molokai", &[8921])];
    let fourth = apply_squitter(&mut s, &far, &ts, 3 * SECOND, 2700, &vec![10027], 450);
    assert_eq!(fourth.events.len(), 1);
    assert!(!fourth.touched);
}

#[test]
fn what_was_heard_is_taken_in_station_by_station() {
    let mut s = settings();
    let ts = "2024-05-01T12:00:30.000000Z".to_string();
    let first = vec![
        Heard { id: StationId::Number(1), name: Some("San Francisco".to_string()), freqs: vec![8927, 10081] },
        Heard { id: StationId::Number(2), name: None, freqs: vec![] },
        Heard { id: StationId::Text("  A1B2 ".to_string()), name: None, freqs: vec![10027] },
    ];
    let events = apply_heard(&mut s, &first, &ts, 100 * SECOND, 2700);
    assert_eq!(events.len(), 2);
    assert_eq!(events[0].id, StationId::Number(1));
    assert_eq!(events[0].name, Some("San Francisco".to_string()));
    assert_eq!(events[0].old, "[]");
    assert_eq!(events[0].new, "[8927, 10081]");
    assert_eq!(events[0].ts, ts);
    assert_eq!(events[1].id, StationId::Text("  A1B2 ".to_string()));
    assert_eq!(events[1].new_freqs, vec![10027]);
    assert_eq!(s.stations.len(), 3);
    assert_eq!(s.stations[1].active_frequencies, vec![]);
    // The same again, a little later: nothing has changed.
    let events = apply_heard(&mut s, &first, &ts, 160 * SECOND, 2700);
    assert_eq!(events, vec![]);
    assert_eq!(s.stations.len(), 3);
    assert_eq!(entries(&s.stations[0].active_frequencies), vec![(8927, 160 * SECOND), (10081, 160 * SECOND)]);
    // The third station under another spelling of its name, on another frequency.
    let second = vec![Heard { id: StationId::Text("a1b2".to_string()), name: None, freqs: vec![8921] }];
    let events = apply_heard(&mut s, &second, &ts, 170 * SECOND, 2700);
    assert_eq!(events.len(), 1);
    assert_eq!(events[0].old_freqs, vec![10027]);
    assert_eq!(events[0].new_freqs, vec![8921]);
    assert!(events_concern_band(&events, &vec![10027], 450));
    assert!(!events_concern_band(&events, &vec![17900, 17950], 450));
    assert!(!events_concern_band(&vec![], &vec![], 450));
    assert_eq!(s.stations.len(), 3);
}

#[test]
fn the_same_heard_after_the_stale_timeout_is_a_change_again() {
    let mut s = settings();
    let ts = "2024-05-01T12:00:30.000000Z".to_string();
    let list = vec![Heard { id: StationId::Number(1), name: None, freqs: vec![8927] }];
    assert_eq!(apply_heard(&mut s, &list, &ts, 0, 60).len(), 1);
    assert_eq!(apply_heard(&mut s, &list, &ts, 60 * SECOND - 1, 60).len(), 0);
    let events = apply_heard(&mut s, &list, &ts, 200 * SECOND, 60);
    assert_eq!(events.len(), 1);
    assert_eq!(events[0].old, "[]");
    assert_eq!(events[0].new, "[8927]");
}

#[test]
fn a_squitter_names_its_stations_by_number() {
    let list = heard_in_squitter(&vec![heard(2, "Molokai", &[10027, 8921]), heard(7, "Shannon", &[])]);
    assert_eq!(
        list,
        vec![
            Heard { id: StationId::Number(2), name: Some("Molokai".to_string()), freqs: vec![10027, 8921] },
            Heard { id: StationId::Number(7), name: Some("Shannon".to_string()), freqs: vec![] },
        ]
    );
}

#[test]
fn a_frequency_entry_is_its_frequency() {
    let early = FreqInfo { khz: 10027, last_updated: 0 };
    let late = FreqInfo { khz: 10027, last_updated: 99 * SECOND };
    let other = FreqInfo { khz: 8921, last_updated: 0 };
    assert!(early == late);
    assert!(late == early);
    assert!(early != other);
    assert!(vec![early, other].contains(&late));
}

#[test]
fn a_station_is_its_identity() {
    let station = |id: StationId, name: Option<&str>, freqs: &[u64]| GroundStation {
        id,
        name: name.map(|n| n.to_string()),
        active_frequencies: stamp(&freqs.to_vec(), 0),
    };
    assert!(station(StationId::Number(2), Some("Molokai"), &[10027]) == station(StationId::Number(2), None, &[]));
    assert!(station(StationId::Number(2), None, &[]) != station(StationId::Number(3), None, &[]));
    assert!(
        station(StationId::Text(" A1B2".to_string()), None, &[1])
            == station(StationId::Text("a1b2 ".to_string()), Some("x"), &[2])
    );
    assert!(station(StationId::Text("2".to_string()), None, &[]) != station(StationId::Number(2), None, &[]));
    assert!(station(StationId::Null, None, &[]) == station(StationId::Null, Some("x"), &[5]));
}
