use xng::session::{
    classify_read_failure, Action, EndSessionReason, Event, Next, Orchestrator, Phase,
};
use xng::settings::ModuleSettings;
use xng::value::Value;

fn running(timeout: u64, intermission: u64) -> Orchestrator {
    let mut o = Orchestrator::new(timeout, intermission, 600);
    assert_eq!(o.step(Event::Start), Action::StartSession { last_end: EndSessionReason::NoReason });
    assert_eq!(
        o.step(Event::SessionStarted { now: 1000 }),
        Action::Read { deadline: 1000u64.saturating_add(timeout) }
    );
    assert_eq!(o.phase, Phase::Running);
    o
}

#[test]
fn a_loop_begins_idle() {
    let o = Orchestrator::new(600, 5, 900);
    assert_eq!(
        o,
        Orchestrator {
            phase: Phase::Idle,
            reason: EndSessionReason::NoReason,
            session_timeout_secs: 600,
            session_intermission_secs: 5,
            default_timeout_secs: 900,
            last_message: 0,
        }
    );
}

#[test]
fn frames_push_the_deadline() {
    let mut o = running(600, 0);
    assert_eq!(o.step(Event::Line { size: 120 }), Action::Process);
    assert_eq!(o.step(Event::Frame { accepted: true, now: 1200 }), Action::Read { deadline: 1800 });
    assert_eq!(o.step(Event::Line { size: 3 }), Action::Process);
    assert_eq!(o.step(Event::Frame { accepted: false, now: 1500 }), Action::Read { deadline: 1800 });
    assert_eq!(o.read_deadline(), 1800);
    assert_eq!(o.phase, Phase::Running);
    let mut late = running(u64::MAX, 0);
    assert_eq!(late.step(Event::Frame { accepted: true, now: 5 }), Action::Read { deadline: u64::MAX });
}

#[test]
fn every_end_of_a_running_session() {
    let cases = [
        (Event::Line { size: 0 }, EndSessionReason::ReadEOF),
        (Event::ReadTimeout { ends_session: true, now: 9 }, EndSessionReason::SessionTimeout),
        (Event::ReadFailed, EndSessionReason::ReadError),
        (Event::ScheduledEnd, EndSessionReason::SessionEnd),
        (Event::EndRequested { reason: None }, EndSessionReason::UserAPIControl),
        (
            Event::EndRequested { reason: Some(EndSessionReason::SessionUpdate) },
            EndSessionReason::SessionUpdate,
        ),
    ];
    for (event, reason) in cases {
        let mut o = running(600, 0);
        assert_eq!(o.step(event), Action::EndSession { reason, then: Next::Start });
        assert_eq!(o.phase, Phase::Starting);
        assert_eq!(o.reason, reason);
        let mut o = running(600, 30);
        assert_eq!(
            o.step(event),
            Action::EndSession { reason, then: Next::Wait { secs: 30 } }
        );
        assert_eq!(o.phase, Phase::Intermission);
        assert_eq!(o.step(Event::WaitOver), Action::StartSession { last_end: reason });
        assert_eq!(o.phase, Phase::Starting);
    }
}

#[test]
fn a_session_that_does_not_time_out_is_granted_more_time() {
    let mut o = running(600, 0);
    assert_eq!(
        o.step(Event::ReadTimeout { ends_session: false, now: 1600 }),
        Action::Read { deadline: 2200 }
    );
    assert_eq!(o.phase, Phase::Running);
}

#[test]
fn a_failed_start_waits_a_minute() {
    let mut o = Orchestrator::new(600, 0, 600);
    o.step(Event::Start);
    assert_eq!(o.step(Event::SessionFailed), Action::Wait { secs: 60 });
    assert_eq!(o.phase, Phase::BackoffWait);
    assert_eq!(o.reason, EndSessionReason::ProcessStartError);
    assert_eq!(o.step(Event::Line { size: 1 }), Action::Ignore);
    assert_eq!(
        o.step(Event::WaitOver),
        Action::StartSession { last_end: EndSessionReason::ProcessStartError }
    );
}

#[test]
fn interrupt_shuts_down_from_everywhere() {
    let mut idle = Orchestrator::new(600, 0, 600);
    assert_eq!(idle.step(Event::Interrupt), Action::Stop);
    assert_eq!(idle.phase, Phase::Shutdown);
    let mut o = running(600, 10);
    assert_eq!(
        o.step(Event::Interrupt),
        Action::EndSession { reason: EndSessionReason::UserInterrupt, then: Next::Stop }
    );
    assert_eq!(o.phase, Phase::Shutdown);
    let gone = o;
    for e in [Event::Start, Event::WaitOver, Event::Interrupt, Event::Line { size: 1 }] {
        assert_eq!(o.step(e), Action::Ignore);
        assert_eq!(o, gone);
    }
    let mut waiting = running(600, 10);
    waiting.step(Event::ReadFailed);
    assert_eq!(waiting.step(Event::Interrupt), Action::Stop);
    assert_eq!(waiting.phase, Phase::Shutdown);
}

#[test]
fn reload_takes_timeouts_from_the_settings() {
    let mut o = running(600, 0);
    let mut s = ModuleSettings::new(false, false, None, vec![]);
    o.reload(&s);
    assert_eq!((o.session_timeout_secs, o.session_intermission_secs), (600, 0));
    s.set_prop("session_timeout_sec".to_string(), Value::Unsigned(30));
    s.set_prop("session_intermission_sec".to_string(), Value::Unsigned(7));
    o.reload(&s);
    assert_eq!((o.session_timeout_secs, o.session_intermission_secs), (30, 7));
    assert_eq!(o.phase, Phase::Running);
    assert_eq!(o.read_deadline(), 1030);
    s.set_prop("session_timeout_sec".to_string(), Value::Text("soon".to_string()));
    s.set_prop("session_intermission_sec".to_string(), Value::Signed(-1));
    o.reload(&s);
    assert_eq!((o.session_timeout_secs, o.session_intermission_secs), (600, 0));
}

#[test]
fn a_scheduled_end_is_told_from_a_fault() {
    assert_eq!(classify_read_failure(Some("SESSION_SCHEDULED_END")), Event::ScheduledEnd);
    assert_eq!(classify_read_failure(Some("session_scheduled_end")), Event::ReadFailed);
    assert_eq!(classify_read_failure(Some("broken pipe")), Event::ReadFailed);
    assert_eq!(classify_read_failure(None), Event::ReadFailed);
}
