use xng::schedule::{
    order_schedule, parse_schedule_entries, parse_segment, parse_session_schedule,
    schedule_from_occurrences, Occurrence, ScheduleEntry, ScheduleError, SegmentResult,
};

fn chars(s: &str) -> Vec<char> {
    s.chars().collect()
}

#[test]
fn schedule_entries_in_written_order() {
    let got = parse_schedule_entries("time=03:30,band_contains=6529;time=15:00,band_contains=10027");
    assert_eq!(
        got,
        Ok(vec![
            ScheduleEntry { hour: 3, min: 30, freq: 6529 },
            ScheduleEntry { hour: 15, min: 0, freq: 10027 },
        ])
    );
}

#[test]
fn schedule_parse() {
    // The clock shows 10:00 on the day that begins at `midnight`.
    let midnight: i64 = 1_699_920_000;
    let now = midnight + 10 * 3600;
    let entries =
        parse_schedule_entries("time=03:30,band_contains=6529;time=15:00,band_contains=10027")
            .unwrap();
    let occurrences: Vec<Occurrence> = entries
        .iter()
        .map(|e| {
            let today = midnight + e.hour as i64 * 3600 + e.min as i64 * 60;
            Occurrence { today, next_day: Some(today + 86_400), freq: e.freq }
        })
        .collect();
    let schedule = schedule_from_occurrences(now, &occurrences).unwrap();
    assert_eq!(
        schedule,
        vec![
            (midnight + 15 * 3600, 10027),
            (midnight + 86_400 + 3 * 3600 + 30 * 60, 6529),
        ]
    );
}

#[test]
fn schedule_hours_in_one_or_two_digits() {
    for (text, hour) in
        [("0", 0u8), ("00", 0), ("09", 9), ("10", 10), ("19", 19), ("20", 20), ("23", 23), ("7", 7)]
    {
        let seg = format!("time={}:59,band_contains=21997", text);
        assert_eq!(
            parse_segment(&chars(&seg)),
            SegmentResult::Entry(ScheduleEntry { hour, min: 59, freq: 21997 })
        );
    }
}

#[test]
fn schedule_refuses_what_is_no_entry() {
    for seg in [
        "",
        "time=24:00,band_contains=6529",
        "time=12:60,band_contains=6529",
        "time=12:5,band_contains=6529",
        "time=123:00,band_contains=6529",
        "time=12:00,band_contains=652",
        "time=12:00;band_contains=6529",
        "time=12:00, band_contains=6529",
        "Time=12:00,band_contains=6529",
    ] {
        assert_eq!(parse_segment(&chars(seg)), SegmentResult::NoEntry, "{}", seg);
    }
}

#[test]
fn schedule_reads_the_first_entry_of_a_segment() {
    assert_eq!(
        parse_segment(&chars("  time=01:02,band_contains=123456 and more")),
        SegmentResult::Entry(ScheduleEntry { hour: 1, min: 2, freq: 12345 })
    );
    assert_eq!(
        parse_segment(&chars("time=99:00,band_contains=1111 time=01:00,band_contains=2222")),
        SegmentResult::Entry(ScheduleEntry { hour: 1, min: 0, freq: 2222 })
    );
}

#[test]
fn schedule_frequency_must_fit() {
    assert_eq!(
        parse_segment(&chars("time=01:02,band_contains=65535")),
        SegmentResult::Entry(ScheduleEntry { hour: 1, min: 2, freq: 65535 })
    );
    assert_eq!(
        parse_segment(&chars("time=01:02,band_contains=65536")),
        SegmentResult::FrequencyTooHigh
    );
}

#[test]
fn schedule_errors_name_the_segment() {
    assert_eq!(parse_schedule_entries(""), Err(ScheduleError::BadEntry { segment: 0 }));
    assert_eq!(
        parse_schedule_entries("time=03:30,band_contains=6529;"),
        Err(ScheduleError::BadEntry { segment: 1 })
    );
    assert_eq!(
        parse_schedule_entries("time=03:30,band_contains=6529;time=04:00,band_contains=99999"),
        Err(ScheduleError::BadFrequency { segment: 1 })
    );
    assert_eq!(
        parse_session_schedule("time=03:30,band_contains=6529;nonsense"),
        Err(ScheduleError::BadEntry { segment: 1 })
    );
    assert_eq!(
        ScheduleError::BadEntry { segment: 12 }.message(),
        "Bad schedule entry format: segment 12"
    );
    assert_eq!(
        ScheduleError::BadFrequency { segment: 0 }.message(),
        "Bad target frequency: segment 0"
    );
    assert_eq!(ScheduleError::BadTime { segment: 3 }.message(), "Bad local time: segment 3");
    assert_eq!(
        ScheduleError::NoNextDay { segment: 1 }.message(),
        "Failed to find next session switch: segment 1"
    );
}

#[test]
fn schedule_has_one_entry_for_each_instant() {
    let items = vec![(50, 9000), (10, 3000), (50, 8000), (10, 3500), (30, 1)];
    assert_eq!(order_schedule(&items), vec![(10, 3000), (30, 1), (50, 8000)]);
    assert_eq!(order_schedule(&Vec::new()), Vec::new());
}

#[test]
fn schedule_without_a_next_day() {
    let occurrences = vec![
        Occurrence { today: 100, next_day: None, freq: 1 },
        Occurrence { today: 10, next_day: Some(20), freq: 2 },
        Occurrence { today: 5, next_day: None, freq: 3 },
    ];
    assert_eq!(
        schedule_from_occurrences(50, &occurrences),
        Err(ScheduleError::NoNextDay { segment: 2 })
    );
    // An instant that is the current one has not passed.
    assert_eq!(schedule_from_occurrences(5, &occurrences), Ok(vec![(5, 3), (10, 2), (100, 1)]));
}

#[test]
fn schedule_from_the_clock_lies_within_a_day() {
    let schedule =
        parse_session_schedule("time=03:30,band_contains=6529;time=15:00,band_contains=10027")
            .unwrap();
    assert_eq!(schedule.len(), 2);
    assert!(schedule[0].0 < schedule[1].0);
    assert!(schedule[1].0 - schedule[0].0 < 26 * 3600);
    let mut freqs: Vec<u32> = schedule.iter().map(|e| e.1).collect();
    freqs.sort();
    assert_eq!(freqs, vec![6529, 10027]);
}
