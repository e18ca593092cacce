//! Sessions and the loop that runs them.
//!
//! A session is one lifetime of a decoder process on one band. The orchestrator decides, for
//! each thing that happens to a running session, what the caller does next: read on, hand a
//! line to the normalizer, end the session, wait, start the next one, or stop.

use vstd::prelude::*;
use crate::schedule::ScheduleError;
use crate::settings::{value_of, ModuleSettings};
use crate::value::ValueModel;

verus! {

/// Why a session ended.
#[derive(Clone, Copy, Debug, PartialEq, Eq, Structural)]
pub enum EndSessionReason {
    /// No session has ended yet.
    NoReason,
    SessionTimeout,
    SessionEnd,
    SessionUpdate,
    UserInterrupt,
    UserAPIControl,
    ReadError,
    ReadEOF,
    ProcessStartError,
}

/// The text with which a read reports that the session's scheduled end has come.
pub const SESSION_SCHEDULED_END: &'static str = "SESSION_SCHEDULED_END";

/// Seconds to wait after a session failed to start.
pub const DEFAULT_FAILED_SESSION_START_WAIT_SECS: u64 = 60;

/// Seconds to wait between two sessions unless the settings say otherwise.
pub const DEFAULT_SESSION_INTERMISSION_SECS: u64 = 0;

pub const PROP_SESSION_TIMEOUT_SEC: &'static str = "session_timeout_sec";

pub const PROP_SESSION_INTERMISSION_SEC: &'static str = "session_intermission_sec";

pub const PROP_LISTENING_BAND: &'static str = "listening_band";

/// A property that a session needs.
#[derive(Clone, Copy, Debug, PartialEq, Eq, Structural)]
pub enum PropName {
    SessionMethod,
    SampleRate,
    StaleTimeout,
    NextSessionBand,
    ListeningBand,
    SessionSchedule,
}

/// Why no session could be planned.
#[derive(Clone, Copy, Debug, PartialEq, Eq, Structural)]
pub enum StartError {
    /// The decoder's arguments name the feed, but not as an output.
    MisplacedFeed { index: usize },
    MissingProp(PropName),
    /// The device has no sample rate as high as the one asked for.
    NoRate,
    /// The stale timeout is no whole number.
    BadStaleTimeout,
    BadSchedule(ScheduleError),
    /// The session method found nothing to choose from.
    NoCandidates,
    /// No known frequency is as high as the one asked for.
    NoBand,
    /// The wish for the next band is no list of frequencies.
    NotAList,
}

/// Where the loop stands.
#[derive(Clone, Copy, Debug, PartialEq, Eq, Structural)]
pub enum Phase {
    Idle,
    Starting,
    Running,
    Intermission,
    BackoffWait,
    Shutdown,
}

/// What happened.
#[derive(Clone, Copy, Debug, PartialEq, Eq, Structural)]
pub enum Event {
    /// The loop is asked to begin.
    Start,
    /// The decoder process runs. `now` is the reading of a clock that never goes back, in
    /// seconds.
    SessionStarted { now: u64 },
    /// The decoder process could not be started.
    SessionFailed,
    /// A read returned `size` bytes; none at the end of the decoder's output.
    Line { size: usize },
    /// The line was normalized and forwarded, or refused.
    Frame { accepted: bool, now: u64 },
    /// No line came before the deadline. `ends_session` is what the session says of timeouts.
    ReadTimeout { ends_session: bool, now: u64 },
    /// The read failed.
    ReadFailed,
    /// The session's scheduled end has come.
    ScheduledEnd,
    /// The end of the session was asked for, with a reason or without one.
    EndRequested { reason: Option<EndSessionReason> },
    /// The operator interrupted the process.
    Interrupt,
    /// The wait is over.
    WaitOver,
}

/// What follows the end of a session.
#[derive(Clone, Copy, Debug, PartialEq, Eq, Structural)]
pub enum Next {
    /// Wait so many seconds, unless interrupted, and report `WaitOver`.
    Wait { secs: u64 },
    /// Start the next session at once, telling it why the last one ended.
    Start,
    /// Stop for good.
    Stop,
}

/// What the caller does.
#[derive(Clone, Copy, Debug, PartialEq, Eq, Structural)]
pub enum Action {
    /// Nothing: the event has no meaning where the loop stands.
    Ignore,
    /// Start a session, telling it why the last one ended.
    StartSession { last_end: EndSessionReason },
    /// Read the next line, giving up at `deadline`.
    Read { deadline: u64 },
    /// Print the line, normalize it and forward the frame, then report `Frame`.
    Process,
    /// End the session: kill the decoder and wait until it is gone. Then do what `then` says.
    EndSession { reason: EndSessionReason, then: Next },
    /// Wait so many seconds, unless interrupted, and report `WaitOver`.
    Wait { secs: u64 },
    /// Stop for good: cancel the helper tasks and wait for them.
    Stop,
}

/// The state of the loop.
#[derive(Clone, Copy, Debug, PartialEq, Eq, Structural)]
pub struct Orchestrator {
    pub phase: Phase,
    /// Why the last session ended.
    pub reason: EndSessionReason,
    /// Seconds without a frame after which a session counts as silent.
    pub session_timeout_secs: u64,
    /// Seconds to wait between two sessions.
    pub session_intermission_secs: u64,
    /// The module's own session timeout, for settings that give none.
    pub default_timeout_secs: u64,
    /// The clock's reading when the session last gave a frame, began, or was granted more
    /// time.
    pub last_message: u64,
}

/// `a + b`, or the largest number where the sum is above it.
pub open spec fn capped_sum(a: u64, b: u64) -> u64 {
    if a + b > u64::MAX {
        u64::MAX
    } else {
        (a + b) as u64
    }
}

impl Orchestrator {
    /// The instant at which the read that follows gives up.
    pub open spec fn deadline(self) -> u64 {
        capped_sum(self.last_message, self.session_timeout_secs)
    }

    /// The loop after a running session ended for `reason`, and what the caller does.
    pub open spec fn ended(self, reason: EndSessionReason) -> (Orchestrator, Action) {
        if self.session_intermission_secs > 0 {
            (
                Orchestrator { phase: Phase::Intermission, reason, ..self },
                Action::EndSession {
                    reason,
                    then: Next::Wait { secs: self.session_intermission_secs },
                },
            )
        } else {
            (
                Orchestrator { phase: Phase::Starting, reason, ..self },
                Action::EndSession { reason, then: Next::Start },
            )
        }
    }

    /// The loop after `e` happened, and what the caller does.
    pub open spec fn next(self, e: Event) -> (Orchestrator, Action) {
        match (self.phase, e) {
            (Phase::Shutdown, _) => (self, Action::Ignore),
            (Phase::Running, Event::Interrupt) => (
                Orchestrator { phase: Phase::Shutdown, reason: EndSessionReason::UserInterrupt, ..self },
                Action::EndSession { reason: EndSessionReason::UserInterrupt, then: Next::Stop },
            ),
            (_, Event::Interrupt) => (Orchestrator { phase: Phase::Shutdown, ..self }, Action::Stop),
            (Phase::Idle, Event::Start) => (
                Orchestrator { phase: Phase::Starting, ..self },
                Action::StartSession { last_end: self.reason },
            ),
            (Phase::Starting, Event::SessionStarted { now }) => {
                let s = Orchestrator { phase: Phase::Running, last_message: now, ..self };
                (s, Action::Read { deadline: s.deadline() })
            },
            (Phase::Starting, Event::SessionFailed) => (
                Orchestrator {
                    phase: Phase::BackoffWait,
                    reason: EndSessionReason::ProcessStartError,
                    ..self
                },
                Action::Wait { secs: DEFAULT_FAILED_SESSION_START_WAIT_SECS },
            ),
            (Phase::Running, Event::Line { size }) => if size == 0 {
                self.ended(EndSessionReason::ReadEOF)
            } else {
                (self, Action::Process)
            },
            (Phase::Running, Event::Frame { accepted, now }) => {
                let s = if accepted {
                    Orchestrator { last_message: now, ..self }
                } else {
                    self
                };
                (s, Action::Read { deadline: s.deadline() })
            },
            (Phase::Running, Event::ReadTimeout { ends_session, now }) => if ends_session {
                self.ended(EndSessionReason::SessionTimeout)
            } else {
                let s = Orchestrator { last_message: now, ..self };
                (s, Action::Read { deadline: s.deadline() })
            },
            (Phase::Running, Event::ReadFailed) => self.ended(EndSessionReason::ReadError),
            (Phase::Running, Event::ScheduledEnd) => self.ended(EndSessionReason::SessionEnd),
            (Phase::Running, Event::EndRequested { reason }) => self.ended(
                match reason {
                    Some(r) => r,
                    None => EndSessionReason::UserAPIControl,
                },
            ),
            (Phase::Intermission, Event::WaitOver) | (Phase::BackoffWait, Event::WaitOver) => (
                Orchestrator { phase: Phase::Starting, ..self },
                Action::StartSession { last_end: self.reason },
            ),
            _ => (self, Action::Ignore),
        }
    }

    /// A loop that has not begun.
    pub fn new(session_timeout_secs: u64, session_intermission_secs: u64, default_timeout_secs: u64) -> (out:
        Orchestrator)
        ensures
            out == (Orchestrator {
                phase: Phase::Idle,
                reason: EndSessionReason::NoReason,
                session_timeout_secs,
                session_intermission_secs,
                default_timeout_secs,
                last_message: 0,
            }),
    {
        Orchestrator {
            phase: Phase::Idle,
            reason: EndSessionReason::NoReason,
            session_timeout_secs,
            session_intermission_secs,
            default_timeout_secs,
            last_message: 0,
        }
    }

    /// The instant at which the read that follows gives up: the session timeout after the
    /// last frame.
    pub fn read_deadline(&self) -> (out: u64)
        ensures
            out == self.deadline(),
    {
        self.last_message.saturating_add(self.session_timeout_secs)
    }

    fn end(&mut self, reason: EndSessionReason) -> (out: Action)
        ensures
            (*final(self), out) == old(self).ended(reason),
    {
        self.reason = reason;
        if self.session_intermission_secs > 0 {
            self.phase = Phase::Intermission;
            Action::EndSession { reason, then: Next::Wait { secs: self.session_intermission_secs } }
        } else {
            self.phase = Phase::Starting;
            Action::EndSession { reason, then: Next::Start }
        }
    }

    /// Takes in what happened and says what the caller does.
    pub fn step(&mut self, e: Event) -> (out: Action)
        ensures
            (*final(self), out) == old(self).next(e),
    {
        match self.phase {
            Phase::Shutdown => Action::Ignore,
            Phase::Idle => match e {
                Event::Interrupt => {
                    self.phase = Phase::Shutdown;
                    Action::Stop
                },
                Event::Start => {
                    self.phase = Phase::Starting;
                    Action::StartSession { last_end: self.reason }
                },
                _ => Action::Ignore,
            },
            Phase::Starting => match e {
                Event::Interrupt => {
                    self.phase = Phase::Shutdown;
                    Action::Stop
                },
                Event::SessionStarted { now } => {
                    self.phase = Phase::Running;
                    self.last_message = now;
                    Action::Read { deadline: self.read_deadline() }
                },
                Event::SessionFailed => {
                    self.phase = Phase::BackoffWait;
                    self.reason = EndSessionReason::ProcessStartError;
                    Action::Wait { secs: DEFAULT_FAILED_SESSION_START_WAIT_SECS }
                },
                _ => Action::Ignore,
            },
            Phase::Running => match e {
                Event::Interrupt => {
                    self.phase = Phase::Shutdown;
                    self.reason = EndSessionReason::UserInterrupt;
                    Action::EndSession { reason: EndSessionReason::UserInterrupt, then: Next::Stop }
                },
                Event::Line { size } => if size == 0 {
                    self.end(EndSessionReason::ReadEOF)
                } else {
                    Action::Process
                },
                Event::Frame { accepted, now } => {
                    if accepted {
                        self.last_message = now;
                    }
                    Action::Read { deadline: self.read_deadline() }
                },
                Event::ReadTimeout { ends_session, now } => if ends_session {
                    self.end(EndSessionReason::SessionTimeout)
                } else {
                    self.last_message = now;
                    Action::Read { deadline: self.read_deadline() }
                },
                Event::ReadFailed => self.end(EndSessionReason::ReadError),
                Event::ScheduledEnd => self.end(EndSessionReason::SessionEnd),
                Event::EndRequested { reason } => {
                    let r = match reason {
                        Some(r) => r,
                        None => EndSessionReason::UserAPIControl,
                    };
                    self.end(r)
                },
                _ => Action::Ignore,
            },
            Phase::Intermission | Phase::BackoffWait => match e {
                Event::Interrupt => {
                    self.phase = Phase::Shutdown;
                    Action::Stop
                },
                Event::WaitOver => {
                    self.phase = Phase::Starting;
                    Action::StartSession { last_end: self.reason }
                },
                _ => Action::Ignore,
            },
        }
    }

    /// The number that a setting gives, or `fallback` where the setting holds no whole
    /// number; `current` where there is no such setting.
    pub open spec fn setting_or(held: Option<ValueModel>, fallback: u64, current: u64) -> u64 {
        match held {
            Some(ValueModel::Unsigned(n)) => n,
            Some(_) => fallback,
            None => current,
        }
    }

    /// Takes the session timeout and the intermission anew from the settings. The loop stays
    /// where it stands.
    pub fn reload(&mut self, settings: &ModuleSettings)
        ensures
            *final(self) == (Orchestrator {
                session_timeout_secs: Self::setting_or(
                    value_of(settings.props@, PROP_SESSION_TIMEOUT_SEC@),
                    old(self).default_timeout_secs,
                    old(self).session_timeout_secs,
                ),
                session_intermission_secs: Self::setting_or(
                    value_of(settings.props@, PROP_SESSION_INTERMISSION_SEC@),
                    DEFAULT_SESSION_INTERMISSION_SECS,
                    old(self).session_intermission_secs,
                ),
                ..*old(self)
            }),
    {
        match settings.get(PROP_SESSION_TIMEOUT_SEC) {
            Some(v) => {
                self.session_timeout_secs = match v.as_u64() {
                    Some(n) => n,
                    None => self.default_timeout_secs,
                };
            },
            None => {},
        }
        match settings.get(PROP_SESSION_INTERMISSION_SEC) {
            Some(v) => {
                self.session_intermission_secs = match v.as_u64() {
                    Some(n) => n,
                    None => DEFAULT_SESSION_INTERMISSION_SECS,
                };
            },
            None => {},
        }
    }
}

/// Once the loop has shut down, nothing moves it.
pub proof fn lemma_shutdown_is_final(s: Orchestrator, e: Event)
    requires
        s.phase == Phase::Shutdown,
    ensures
        s.next(e) == (s, Action::Ignore),
{
}

/// An interrupt shuts the loop down wherever it stands, and a session that runs is ended
/// first.
pub proof fn lemma_interrupt_shuts_down(s: Orchestrator)
    ensures
        s.next(Event::Interrupt).0.phase == Phase::Shutdown,
        s.phase == Phase::Running ==> s.next(Event::Interrupt).1 == (Action::EndSession {
            reason: EndSessionReason::UserInterrupt,
            then: Next::Stop,
        }),
        s.phase != Phase::Running && s.phase != Phase::Shutdown ==> s.next(Event::Interrupt).1
            == Action::Stop,
{
}

/// Where the loop stands after the events `events`, one after another.
pub open spec fn after(s: Orchestrator, events: Seq<Event>) -> Orchestrator
    decreases events.len(),
{
    if events.len() == 0 {
        s
    } else {
        after(s, events.drop_last()).next(events.last()).0
    }
}

/// An interrupt is for good: whatever happens after it, the loop has stopped and starts no
/// session.
pub proof fn lemma_interrupt_is_for_good(s: Orchestrator, events: Seq<Event>, e: Event)
    ensures
        after(s.next(Event::Interrupt).0, events).phase == Phase::Shutdown,
        after(s.next(Event::Interrupt).0, events).next(e).1 == Action::Ignore,
    decreases events.len(),
{
    if events.len() > 0 {
        lemma_interrupt_is_for_good(s, events.drop_last(), events.last());
    }
}

/// Whenever the loop leaves a running session, the caller is told to end that session, for
/// the reason that the loop then holds, and that reason is never `NoReason`.
pub proof fn lemma_leaving_ends_session(s: Orchestrator, e: Event)
    requires
        s.phase == Phase::Running,
        s.next(e).0.phase != Phase::Running,
        e matches Event::EndRequested { reason } ==> reason != Some(EndSessionReason::NoReason),
    ensures
        s.next(e).1 matches Action::EndSession { reason, then } && reason == s.next(e).0.reason
            && reason != EndSessionReason::NoReason,
{
}

/// A session is started only with the reason for which the last one ended.
pub proof fn lemma_start_carries_reason(s: Orchestrator, e: Event)
    requires
        s.next(e).1 is StartSession,
    ensures
        s.next(e).1 == (Action::StartSession { last_end: s.next(e).0.reason }),
        s.next(e).0.phase == Phase::Starting,
{
}

/// What a failed read means for the session: its scheduled end, where the failure carries
/// the text that says so, and else a fault of the read.
pub open spec fn read_failure(message: Option<Seq<char>>) -> Event {
    if message == Some(SESSION_SCHEDULED_END@) {
        Event::ScheduledEnd
    } else {
        Event::ReadFailed
    }
}

/// Tells a scheduled end from a fault of the read.
pub fn classify_read_failure(message: Option<&str>) -> (out: Event)
    ensures
        out == read_failure(
            match message {
                Some(m) => Some(m@),
                None => None,
            },
        ),
{
    match message {
        Some(m) => if crate::text::text_eq(m, SESSION_SCHEDULED_END) {
            Event::ScheduledEnd
        } else {
            Event::ReadFailed
        },
        None => Event::ReadFailed,
    }
}

} // verus!
