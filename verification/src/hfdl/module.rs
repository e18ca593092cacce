//! The module of the HF datalink: its settings, and the plan of each session.

use vstd::prelude::*;
use crate::arguments::{
    copy_args, driver_of, extract_soapysdr_driver, fed, feed_arguments, find_arg, names_station,
    number_or, parse_number, texts_of, ArgumentError, MisplacedFeed,
};
use crate::bands::{
    ascending, band_seqs, freq_bands_by_sample_rate, max_dist_khz, packed,
    strictly_ascending, Band,
};
use crate::clock::{stamp_text, with_nanos, written};
use crate::events::GroundStationChangeEvent;
use crate::hfdl::airframes::{
    all_active, report_heard, GroundStationStatus, HFDLGroundStationStatus,
};
use crate::hfdl::frame::Frame;
use crate::hfdl::feedback::{any_touches, squitter_heard};
use crate::hfdl::normalize::{
    filed_text, link_frame, normalize_frame, squitter_frame, table_outdated, times_ok,
    FeedbackConfig,
};
use crate::hfdl::planner::{
    band_containing, band_heads, band_model, band_of, choose_band, first_at_or_above,
    fixed_choice, head_of, heads, is_choice, lemma_band_holds_known, lemma_band_of_member,
    lemma_first_at_or_above, lemma_without_member, pool_of, random_pool, sorted_set,
    sorted_unique, without, Choice, NoCandidates,
};
use crate::hfdl::rates::{nearest, nearest_rate, rate_for_band, rising};
use crate::hfdl::systable::{all_frequencies, SystemTable};
use crate::normalize::{arrival_text, NormalizeError, Processed};
use crate::schedule::{ordered, parse_session_schedule};
use crate::session::{EndSessionReason, PropName, StartError, PROP_LISTENING_BAND};
use crate::settings::{
    active_khz, aged, apply_heard, event_models, flag_of, number_of, validator_of, value_of,
    ModuleSettings, Prop,
};
use crate::stations::{changes, models_of, registry_after, ChangeModel, StationModel};
use crate::text::{decimal, decimal_string, lowercase, lowercase_of};
use crate::validators::{
    check_schedule, method_of, parse_session_method, schedule_verdict, SessionMethod, Validator,
};
use crate::value::{list_of, Value, ValueModel};

verus! {

pub const DEFAULT_BIN_PATH: &'static str = "/usr/bin/dumphfdl";

pub const DEFAULT_SYSTABLE_PATH: &'static str = "/etc/systable.conf";

pub const DEFAULT_STALE_TIMEOUT_SECS: u64 = 2700;

pub const DEFAULT_SESSION_TIMEOUT_SECS: u64 = 600;

pub const DEFAULT_SAMPLE_RATE: u64 = 512_000;

pub const DEFAULT_SESSION_METHOD: &'static str = "random";

pub const HFDL_COMMAND: &'static str = "hfdl";

pub const PROP_STALE_TIMEOUT_SEC: &'static str = "stale_timeout_sec";

pub const PROP_USE_AIRFRAMES_GS: &'static str = "use_airframes_gs";

pub const PROP_SAMPLE_RATE: &'static str = "sample_rate";

pub const PROP_NEXT_SESSION_BAND: &'static str = "next_session_band";

pub const PROP_SESSION_SCHEDULE: &'static str = "session_schedule";

pub const PROP_SESSION_METHOD: &'static str = "session_method";

pub const PROP_ONLY_USE_ACTIVE: &'static str = "only_use_active";

/// The output of the decoder that feeds the airframes service.
pub const FEED_TARGET: &'static str = "decoded:json:tcp:address=feed.acars.io,port=5556";

/// The output of the decoder that the receiver reads.
pub const PRIMARY_OUTPUT: &'static str = "decoded:json:file:path=-";

/// The module of the HF datalink.
#[derive(Debug, PartialEq, Eq)]
pub struct HfdlModule {
    pub name: &'static str,
    /// The sample rates of the device, in Hz, lowest first.
    pub sample_rates: Vec<u64>,
    pub bin: String,
    pub systable: SystemTable,
    /// The arguments that are handed on to the decoder.
    pub args: Vec<String>,
    pub driver: String,
    pub feed_airframes: bool,
    pub sample_rate: u64,
    pub stale_timeout_secs: u64,
    pub use_airframes_gs: bool,
    pub only_use_active: bool,
    pub next_session_band: u64,
    pub schedule: String,
    pub method: String,
    /// The frequency that the last session was asked to contain.
    pub last_req_session_band: u64,
    /// The band head that the next random choice leaves out.
    pub last_random_freq_band: u64,
}

/// Why the module could not take its settings anew.
#[derive(Clone, Copy, Debug, PartialEq, Eq, Structural)]
pub enum ReloadError {
    MissingSchedule,
    ScheduleNotText,
}

/// What a session is started with.
#[derive(Debug, PartialEq, Eq)]
pub struct SessionPlan {
    /// The frequencies to listen on, in kHz, lowest first.
    pub bands: Vec<u16>,
    /// The sample rate of the decoder, in Hz.
    pub sample_rate: u64,
    /// The decoder's arguments.
    pub args: Vec<String>,
    /// The instant at which the schedule ends the session, in seconds since the Unix epoch.
    pub session_end: Option<i64>,
    /// Whether a session that stays silent ends.
    pub end_session_on_timeout: bool,
    /// The frequency that the band was asked to contain; 0 for none.
    pub requested: u64,
    /// The changes of ground stations that planning brought.
    pub events: Vec<GroundStationChangeEvent>,
}

/// The frequency that the next band is wished to contain, before the session method is
/// asked. A wish that the operator left in the settings stands. Without one, a session that
/// follows a change of the stations' frequencies keeps the wish of the session before it, and
/// the first session and a session that follows a scheduled end take the frequency of the
/// schedule's current entry.
pub open spec fn wished(left: u64, reason: EndSessionReason, last: u64, scheduled: Option<u32>) -> u64 {
    let kept = if left == 0 && reason == EndSessionReason::SessionUpdate {
        last
    } else {
        left
    };
    match scheduled {
        Some(t) => if kept == 0 && (reason == EndSessionReason::SessionEnd || reason
            == EndSessionReason::NoReason) {
            t as u64
        } else {
            kept
        },
        None => kept,
    }
}

pub fn wished_band(left: u64, reason: EndSessionReason, last: u64, scheduled: Option<u32>) -> (out:
    u64)
    ensures
        out == wished(left, reason, last, scheduled),
{
    let kept = if left == 0 && reason == EndSessionReason::SessionUpdate {
        last
    } else {
        left
    };
    match scheduled {
        Some(t) => if kept == 0 && (reason == EndSessionReason::SessionEnd || reason
            == EndSessionReason::NoReason) {
            t as u64
        } else {
            kept
        },
        None => kept,
    }
}

/// The decoder's arguments: the system table, the sample rate, the output that the receiver
/// reads, the arguments that are handed on, and the frequencies of the band in Hz.
pub open spec fn decoder_args(path: Seq<char>, rate: u64, extra: Seq<Seq<char>>, band: Seq<u16>) -> Seq<
    Seq<char>,
> {
    seq![
        "--system-table"@,
        path,
        "--sample-rate"@,
        decimal(rate as nat),
        "--output"@,
        PRIMARY_OUTPUT@,
    ] + extra + Seq::new(band.len(), |i: int| decimal((band[i] * 1000) as nat))
}

fn build_args(path: &String, rate: u64, extra: Vec<String>, band: &Vec<u16>) -> (out: Vec<String>)
    ensures
        texts_of(out@) == decoder_args(path@, rate, texts_of(extra@), band@),
{
    let mut out: Vec<String> = Vec::new();
    out.push("--system-table".to_owned());
    out.push(path.clone());
    out.push("--sample-rate".to_owned());
    out.push(decimal_string(rate));
    out.push("--output".to_owned());
    out.push(PRIMARY_OUTPUT.to_owned());
    let ghost head = texts_of(out@);
    let mut i: usize = 0;
    while i < extra.len()
        invariant
            i <= extra.len(),
            texts_of(out@) == head + texts_of(extra@).take(i as int),
        decreases extra.len() - i,
    {
        let ghost before = texts_of(out@);
        out.push(extra[i].clone());
        proof {
            assert(texts_of(out@) =~= before.push(extra@[i as int]@));
            assert(texts_of(extra@).take(i + 1) =~= texts_of(extra@).take(i as int).push(
                extra@[i as int]@,
            ));
            assert(texts_of(out@) =~= head + texts_of(extra@).take(i + 1));
        }
        i += 1;
    }
    let ghost middle = texts_of(out@);
    let ghost hz = Seq::new(band@.len(), |i: int| decimal((band@[i] * 1000) as nat));
    let mut k: usize = 0;
    while k < band.len()
        invariant
            k <= band.len(),
            hz == Seq::new(band@.len(), |i: int| decimal((band@[i] * 1000) as nat)),
            texts_of(out@) == middle + hz.take(k as int),
        decreases band.len() - k,
    {
        let ghost before = texts_of(out@);
        out.push(decimal_string(band[k] as u64 * 1000));
        proof {
            assert(texts_of(out@) =~= before.push(decimal((band@[k as int] * 1000) as nat)));
            assert(hz.take(k + 1) =~= hz.take(k as int).push(hz[k as int]));
            assert(texts_of(out@) =~= middle + hz.take(k + 1));
        }
        k += 1;
    }
    proof {
        assert(texts_of(extra@).take(extra.len() as int) =~= texts_of(extra@));
        assert(hz.take(band.len() as int) =~= hz);
        assert(head =~= seq![
            "--system-table"@,
            path@,
            "--sample-rate"@,
            decimal(rate as nat),
            "--output"@,
            PRIMARY_OUTPUT@,
        ]);
    }
    out
}

/// A frequency in kHz as a band holds it, where it is one that a band can hold.
pub open spec fn narrow(khz: Seq<u64>) -> Seq<u16>
    decreases khz.len(),
{
    if khz.len() == 0 {
        Seq::empty()
    } else if khz.last() <= u16::MAX {
        narrow(khz.drop_last()).push(khz.last() as u16)
    } else {
        narrow(khz.drop_last())
    }
}

fn narrowed(khz: &Vec<u64>) -> (out: Vec<u16>)
    ensures
        out@ == narrow(khz@),
{
    let mut out: Vec<u16> = Vec::new();
    let mut i: usize = 0;
    while i < khz.len()
        invariant
            i <= khz.len(),
            out@ == narrow(khz@.take(i as int)),
        decreases khz.len() - i,
    {
        proof {
            assert(khz@.take(i + 1).drop_last() =~= khz@.take(i as int));
            assert(khz@.take(i + 1).last() == khz@[i as int]);
        }
        if khz[i] <= u16::MAX as u64 {
            out.push(khz[i] as u16);
        }
        i += 1;
    }
    proof {
        assert(khz@.take(khz.len() as int) =~= khz@);
    }
    out
}

/// `a` followed by `b`.
fn joined_freqs(a: &Vec<u16>, b: &Vec<u16>) -> (out: Vec<u16>)
    ensures
        out@ == a@ + b@,
{
    let mut out: Vec<u16> = Vec::new();
    let mut i: usize = 0;
    while i < a.len()
        invariant
            i <= a.len(),
            out@ == a@.take(i as int),
        decreases a.len() - i,
    {
        out.push(a[i]);
        assert(a@.take(i + 1) =~= a@.take(i as int).push(a@[i as int]));
        i += 1;
    }
    assert(a@.take(a.len() as int) =~= a@);
    let mut k: usize = 0;
    while k < b.len()
        invariant
            k <= b.len(),
            out@ == a@ + b@.take(k as int),
        decreases b.len() - k,
    {
        out.push(b[k]);
        assert(b@.take(k + 1) =~= b@.take(k as int).push(b@[k as int]));
        assert(out@ =~= a@ + b@.take(k + 1));
        k += 1;
    }
    assert(b@.take(b.len() as int) =~= b@);
    out
}

impl HfdlModule {
    /// The sample rates rise, and the system table is one that the receiver works with.
    pub open spec fn wf(self) -> bool {
        rising(self.sample_rates@) && self.systable.wf()
    }

    /// A module as the command line leaves it when it says nothing.
    pub fn new(systable: SystemTable) -> (out: HfdlModule)
        requires
            systable.wf(),
        ensures
            out.wf(),
            out.name@ == HFDL_COMMAND@,
            out.systable == systable,
            out.sample_rates@.len() == 0,
            out.args@.len() == 0,
            !out.feed_airframes && !out.use_airframes_gs && !out.only_use_active,
            out.sample_rate == DEFAULT_SAMPLE_RATE,
            out.stale_timeout_secs == DEFAULT_STALE_TIMEOUT_SECS,
            out.next_session_band == 0,
            out.schedule@.len() == 0,
            out.method@ == DEFAULT_SESSION_METHOD@,
            out.last_req_session_band == 0,
            out.last_random_freq_band == 0,
    {
        HfdlModule {
            name: HFDL_COMMAND,
            sample_rates: Vec::new(),
            bin: DEFAULT_BIN_PATH.to_owned(),
            systable,
            args: Vec::new(),
            driver: String::new(),
            feed_airframes: false,
            sample_rate: DEFAULT_SAMPLE_RATE,
            stale_timeout_secs: DEFAULT_STALE_TIMEOUT_SECS,
            use_airframes_gs: false,
            only_use_active: false,
            next_session_band: 0,
            schedule: String::new(),
            method: DEFAULT_SESSION_METHOD.to_owned(),
            last_req_session_band: 0,
            last_random_freq_band: 0,
        }
    }

    pub fn id(&self) -> (out: &'static str)
        ensures
            out == self.name,
    {
        self.name
    }

    pub fn default_session_timeout_secs(&self) -> (out: u64)
        ensures
            out == DEFAULT_SESSION_TIMEOUT_SECS,
    {
        DEFAULT_SESSION_TIMEOUT_SECS
    }

    /// Takes the sample rates of the device.
    pub fn load_sample_rates(&mut self, rates: Vec<u64>)
        requires
            rising(rates@),
            old(self).wf(),
        ensures
            final(self).wf(),
            final(self).sample_rates == rates,
            final(self).systable == old(self).systable,
            final(self).args == old(self).args,
            final(self).schedule == old(self).schedule,
    {
        self.sample_rates = rates;
    }

    /// The lowest sample rate of the device that is `sample_rate` or above.
    pub fn nearest_sample_rate(&self, sample_rate: u64) -> (out: Option<u64>)
        ensures
            out == nearest(self.sample_rates@, sample_rate),
    {
        nearest_rate(&self.sample_rates, sample_rate)
    }

    /// The lowest sample rate of the device that covers `bands`.
    pub fn calculate_actual_sample_rate(&self, bands: &Vec<u16>) -> (out: Option<u64>)
        ensures
            bands@.len() == 0 ==> out is None,
            bands@.len() > 0 ==> out == nearest(
                self.sample_rates@,
                crate::hfdl::rates::covering_rate(bands@),
            ),
    {
        rate_for_band(&self.sample_rates, bands)
    }

    /// Puts the module's properties into the settings: the stale timeout, the two flags and
    /// the sample rate as they are, and the next band, the schedule and the session method
    /// each behind its rule.
    pub fn init(&self, settings: &mut ModuleSettings)
        requires
            old(settings).wf(),
        ensures
            final(settings).wf(),
            final(settings).stations == old(settings).stations,
            value_of(final(settings).props@, PROP_STALE_TIMEOUT_SEC@) == Some(
                ValueModel::Unsigned(self.stale_timeout_secs),
            ),
            value_of(final(settings).props@, PROP_USE_AIRFRAMES_GS@) == Some(
                ValueModel::Bool(self.use_airframes_gs),
            ),
            value_of(final(settings).props@, PROP_ONLY_USE_ACTIVE@) == Some(
                ValueModel::Bool(self.only_use_active),
            ),
            value_of(final(settings).props@, PROP_SAMPLE_RATE@) == Some(
                ValueModel::Unsigned(self.sample_rate),
            ),
            value_of(final(settings).props@, PROP_NEXT_SESSION_BAND@) == Some(
                ValueModel::Unsigned(self.next_session_band),
            ),
            value_of(final(settings).props@, PROP_SESSION_SCHEDULE@) == Some(
                ValueModel::Text(self.schedule@),
            ),
            value_of(final(settings).props@, PROP_SESSION_METHOD@) == Some(
                ValueModel::Text(self.method@),
            ),
            validator_of(final(settings).props@, PROP_NEXT_SESSION_BAND@) == Some(
                Validator::NextSessionBand,
            ),
            validator_of(final(settings).props@, PROP_SESSION_SCHEDULE@) == Some(
                Validator::SessionSchedule,
            ),
            validator_of(final(settings).props@, PROP_SESSION_METHOD@) == Some(
                Validator::SessionMethod,
            ),
            forall|k: Seq<char>|
                !is_module_prop(k) ==> value_of(final(settings).props@, k) == value_of(
                    old(settings).props@,
                    k,
                ) && validator_of(final(settings).props@, k) == validator_of(
                    old(settings).props@,
                    k,
                ),
            forall|k: Seq<char>|
                k == PROP_STALE_TIMEOUT_SEC@ || k == PROP_USE_AIRFRAMES_GS@ || k
                    == PROP_ONLY_USE_ACTIVE@ || k == PROP_SAMPLE_RATE@ ==> validator_of(
                    final(settings).props@,
                    k,
                ) == validator_of(old(settings).props@, k),
    {
        proof {
            reveal_strlit("stale_timeout_sec");
            reveal_strlit("use_airframes_gs");
            reveal_strlit("sample_rate");
            reveal_strlit("next_session_band");
            reveal_strlit("session_schedule");
            reveal_strlit("session_method");
            reveal_strlit("only_use_active");
            assert(PROP_STALE_TIMEOUT_SEC@.len() == 17 && PROP_NEXT_SESSION_BAND@.len() == 17);
            assert(PROP_USE_AIRFRAMES_GS@.len() == 16 && PROP_SESSION_SCHEDULE@.len() == 16);
            assert(PROP_SAMPLE_RATE@.len() == 11 && PROP_SESSION_METHOD@.len() == 14);
            assert(PROP_ONLY_USE_ACTIVE@.len() == 15);
            assert(PROP_STALE_TIMEOUT_SEC@[0] != PROP_NEXT_SESSION_BAND@[0]);
            assert(PROP_USE_AIRFRAMES_GS@[0] != PROP_SESSION_SCHEDULE@[0]);
        }
        settings.set_prop(PROP_STALE_TIMEOUT_SEC.to_owned(), Value::Unsigned(self.stale_timeout_secs));
        settings.set_prop(PROP_USE_AIRFRAMES_GS.to_owned(), Value::Bool(self.use_airframes_gs));
        settings.set_prop(PROP_ONLY_USE_ACTIVE.to_owned(), Value::Bool(self.only_use_active));
        settings.set_prop(PROP_SAMPLE_RATE.to_owned(), Value::Unsigned(self.sample_rate));
        settings.add_prop_with_validator(
            PROP_NEXT_SESSION_BAND.to_owned(),
            Value::Unsigned(self.next_session_band),
            Validator::NextSessionBand,
        );
        settings.add_prop_with_validator(
            PROP_SESSION_SCHEDULE.to_owned(),
            Value::Text(self.schedule.clone()),
            Validator::SessionSchedule,
        );
        settings.add_prop_with_validator(
            PROP_SESSION_METHOD.to_owned(),
            Value::Text(self.method.clone()),
            Validator::SessionMethod,
        );
    }

    /// Takes the schedule anew from the settings.
    pub fn reload(&mut self, settings: &ModuleSettings) -> (out: Result<(), ReloadError>)
        ensures
            match value_of(settings.props@, PROP_SESSION_SCHEDULE@) {
                None => out == Err::<(), ReloadError>(ReloadError::MissingSchedule) && *final(self)
                    == *old(self),
                Some(ValueModel::Text(s)) => out is Ok && final(self).schedule@ == s,
                Some(_) => out == Err::<(), ReloadError>(ReloadError::ScheduleNotText)
                    && *final(self) == *old(self),
            },
            final(self).sample_rates == old(self).sample_rates,
            final(self).systable == old(self).systable,
            final(self).args == old(self).args,
            final(self).last_req_session_band == old(self).last_req_session_band,
            final(self).last_random_freq_band == old(self).last_random_freq_band,
    {
        match settings.get(PROP_SESSION_SCHEDULE) {
            None => Err(ReloadError::MissingSchedule),
            Some(v) => match v.as_str() {
                Some(s) => {
                    self.schedule = s.clone();
                    Ok(())
                },
                None => Err(ReloadError::ScheduleNotText),
            },
        }
    }
}

/// Whether `key` is one of the properties that the module puts into the settings.
pub open spec fn is_module_prop(key: Seq<char>) -> bool {
    key == PROP_STALE_TIMEOUT_SEC@ || key == PROP_USE_AIRFRAMES_GS@ || key == PROP_ONLY_USE_ACTIVE@
        || key == PROP_SAMPLE_RATE@ || key == PROP_NEXT_SESSION_BAND@ || key
        == PROP_SESSION_SCHEDULE@ || key == PROP_SESSION_METHOD@
}

/// The session method that the settings name: the one that the property names, random where
/// the property holds no text, and none where the text names no method.
pub open spec fn method_in(props: Seq<Prop>) -> Option<SessionMethod> {
    match value_of(props, PROP_SESSION_METHOD@) {
        Some(ValueModel::Text(s)) => method_of(s),
        _ => Some(SessionMethod::Random),
    }
}

/// The sample rate that the settings ask for: the one that the property holds, or 0.
pub open spec fn rate_in(props: Seq<Prop>) -> u64 {
    match number_of(props, PROP_SAMPLE_RATE@) {
        Some(n) => n,
        None => 0,
    }
}

/// The wish that the operator left in the settings: the frequency that the property holds,
/// or 0.
pub open spec fn wish_in(props: Seq<Prop>) -> u64 {
    match number_of(props, PROP_NEXT_SESSION_BAND@) {
        Some(n) => n,
        None => 0,
    }
}

/// The band of the last session, as the settings have it: the whole numbers of the list that
/// the property holds.
pub open spec fn listening_in(props: Seq<Prop>) -> Option<Seq<u64>> {
    match value_of(props, PROP_LISTENING_BAND@) {
        Some(ValueModel::List(items)) => Some(ValueModel::List(items).numbers()),
        _ => None,
    }
}

/// The seconds after which a frequency counts as stale, as the settings have them.
pub open spec fn stale_in(props: Seq<Prop>) -> i64 {
    match number_of(props, PROP_STALE_TIMEOUT_SEC@) {
        Some(n) => stale_span(n),
        None => 0,
    }
}

/// What the settings lack for a session, looked for in this order: the session method, the
/// sample rate, a rate of the device that is high enough, the stale timeout, and the wish
/// for the next band.
pub open spec fn props_fault(props: Seq<Prop>, rates: Seq<u64>) -> Option<StartError> {
    if value_of(props, PROP_SESSION_METHOD@) is None {
        Some(StartError::MissingProp(PropName::SessionMethod))
    } else if value_of(props, PROP_SAMPLE_RATE@) is None {
        Some(StartError::MissingProp(PropName::SampleRate))
    } else if nearest(rates, rate_in(props)) is None {
        Some(StartError::NoRate)
    } else if value_of(props, PROP_STALE_TIMEOUT_SEC@) is None {
        Some(StartError::MissingProp(PropName::StaleTimeout))
    } else if number_of(props, PROP_STALE_TIMEOUT_SEC@) is None {
        Some(StartError::BadStaleTimeout)
    } else if value_of(props, PROP_NEXT_SESSION_BAND@) is None {
        Some(StartError::MissingProp(PropName::NextSessionBand))
    } else {
        None
    }
}

/// The arguments that are handed on to the decoder, with the feed where it is wanted.
pub open spec fn handed_on(args: Seq<String>, feed: bool) -> Result<Seq<Seq<char>>, MisplacedFeed> {
    if feed {
        fed(args, FEED_TARGET@)
    } else {
        Ok(texts_of(args))
    }
}

/// The sample rate at which the bands are packed: the device's rate, or the highest that the
/// packing can take.
pub open spec fn packing_rate(rate: u64) -> u32 {
    if rate > u32::MAX {
        u32::MAX
    } else {
        rate as u32
    }
}

/// The current entry of a schedule: its last, which is the one whose time of day passed most
/// recently.
pub open spec fn current_entry(schedule: Seq<(i64, u32)>) -> Option<u32> {
    if schedule.len() > 0 {
        Some(schedule.last().1)
    } else {
        None
    }
}

/// The instant at which a schedule ends the session: that of its first entry.
pub open spec fn next_switch(schedule: Seq<(i64, u32)>) -> Option<i64> {
    if schedule.len() > 0 {
        Some(schedule[0].0)
    } else {
        None
    }
}

/// What the settings say of the next session.
#[derive(Debug, PartialEq, Eq)]
pub struct SessionProps {
    pub method: Option<SessionMethod>,
    /// The sample rate of the device at which the bands are packed.
    pub rate: u64,
    pub stale_secs: i64,
    /// The wish that the operator left for the next band; 0 for none.
    pub left: u64,
    pub only_use_active: bool,
    /// The band of the last session.
    pub listening: Option<Vec<u64>>,
}

/// The seconds after which a frequency counts as stale, as a span of time can hold them.
pub open spec fn stale_span(n: u64) -> i64 {
    if n > i64::MAX {
        i64::MAX
    } else {
        n as i64
    }
}

/// The registry from which a session is planned: with stale entries forgotten, where the
/// settings ask for active frequencies only.
pub open spec fn planning_base(models: Seq<StationModel>, only_use_active: bool, now: i64, stale_secs: i64) -> Seq<
    StationModel,
> {
    if only_use_active {
        aged(models, now, stale_secs)
    } else {
        models
    }
}

/// The registry after a session was planned: the live map, where there is one, is taken in.
pub open spec fn planned_registry(
    models: Seq<StationModel>,
    only_use_active: bool,
    report: Option<Seq<GroundStationStatus>>,
    now: i64,
    stale_secs: i64,
) -> Seq<StationModel> {
    match report {
        Some(r) => registry_after(
            planning_base(models, only_use_active, now, stale_secs),
            report_heard(r),
            now,
        ),
        None => planning_base(models, only_use_active, now, stale_secs),
    }
}

/// The changes of ground stations that planning a session brings: those that taking in the
/// live map makes, where there is one.
pub open spec fn planned_changes(
    models: Seq<StationModel>,
    only_use_active: bool,
    report: Option<Seq<GroundStationStatus>>,
    now: i64,
    stale_secs: i64,
) -> Seq<ChangeModel> {
    match report {
        Some(r) => changes(
            planning_base(models, only_use_active, now, stale_secs),
            report_heard(r),
            now,
            stale_secs,
        ),
        None => Seq::empty(),
    }
}

/// The frequencies that a session can choose from, as they come: the active frequencies of
/// the registry, where the settings ask for them, then those of the live map, where there
/// is one, and the frequencies of the system table where these are none.
pub open spec fn frequency_source(
    models: Seq<StationModel>,
    only_use_active: bool,
    report: Option<Seq<GroundStationStatus>>,
    systable: SystemTable,
    now: i64,
    stale_secs: i64,
) -> Seq<u16> {
    let active = if only_use_active {
        narrow(active_khz(aged(models, now, stale_secs)))
    } else {
        Seq::empty()
    };
    let live = match report {
        Some(r) => all_active(r),
        None => Seq::empty(),
    };
    if (active + live).len() == 0 {
        all_frequencies(systable.stations@)
    } else {
        active + live
    }
}

/// The band of `bands` that a wish for `requested` leads to: the one that holds the first of
/// the frequencies `all` at or above the wish. None where the wish is above every frequency.
pub open spec fn band_wished(all: Seq<u16>, bands: Seq<Seq<u16>>, requested: u64) -> Option<Seq<u16>> {
    let t = first_at_or_above(all, requested, 0);
    if requested <= u16::MAX && 0 <= t < all.len() {
        let k = band_of(bands, all[t], 0);
        if 0 <= k < bands.len() {
            Some(bands[k])
        } else {
            None
        }
    } else {
        None
    }
}

/// A wish for a band head leads to a band: the random method, which draws from the band
/// heads, never wishes for a band that is not there.
pub proof fn lemma_head_has_band(all: Seq<u16>, bands: Seq<Seq<u16>>, a: u64, b: u64, x: u64)
    requires
        bands.flatten() == all,
        forall|k: int| 0 <= k < bands.len() ==> (#[trigger] bands[k]).len() > 0,
        without(heads(bands), a, b).contains(x),
    ensures
        band_wished(all, bands, x) is Some,
{
    lemma_without_member(heads(bands), a, b, x);
    let i = choose|i: int| 0 <= i < heads(bands).len() && #[trigger] heads(bands)[i] as u64 == x;
    let head = bands[i][0];
    assert(bands[i].contains(head));
    lemma_band_holds_known(bands, i, head);
    let t = choose|t: int| 0 <= t < all.len() && all[t] == head;
    lemma_first_at_or_above(all, x, 0, t);
    let first = first_at_or_above(all, x, 0);
    assert(bands.skip(0) =~= bands);
    assert(all.contains(all[first]));
    lemma_band_of_member(bands, all[first], 0);
}

/// Whether every band of `bands` is well formed for bands no wider than `max_dist`, and
/// holds each of its frequencies once.
#[verifier::opaque]
pub open spec fn well_packed(bands: Seq<Band>, max_dist: int) -> bool {
    forall|k: int|
        0 <= k < bands.len() ==> (#[trigger] bands[k]).wf(max_dist) && strictly_ascending(bands[k].freqs@)
}

/// Packs frequencies that rise into bands.
fn pack(all: &Vec<u16>, rate: u32) -> (out: Vec<Band>)
    requires
        strictly_ascending(all@),
    ensures
        band_seqs(out@) == packed(all@, max_dist_khz(rate)),
        band_seqs(out@).flatten() == all@,
        well_packed(out@, max_dist_khz(rate)),
{
    proof {
        assert(ascending(all@)) by {
            assert forall|i: int, j: int| 0 <= i < j < all@.len() implies all@[i] <= all@[j] by {
                assert(all@[i] < all@[j]);
            }
        }
    }
    let out = freq_bands_by_sample_rate(all, rate);
    proof {
        reveal(well_packed);
    }
    out
}

/// The lowest frequency of each band.
fn heads_of(bands: &Vec<Band>, Ghost(max_dist): Ghost<int>) -> (out: Vec<u16>)
    requires
        well_packed(bands@, max_dist),
    ensures
        out@ == heads(band_seqs(bands@)),
{
    proof {
        reveal(well_packed);
        assert forall|i: int| 0 <= i < bands@.len() implies (#[trigger] bands@[i]).freqs@.len()
            > 0 by {
            assert(bands@[i].wf(max_dist));
        }
    }
    band_heads(bands)
}

/// The band with the lowest frequency at or above `requested`, out of `bands`.
fn band_for(all: &Vec<u16>, bands: Vec<Band>, requested: u64, Ghost(max_dist): Ghost<int>) -> (out:
    Option<Band>)
    requires
        band_seqs(bands@).flatten() == all@,
        well_packed(bands@, max_dist),
    ensures
        text_model_of_band(out) == band_wished(all@, band_seqs(bands@), requested),
        out matches Some(b) ==> {
            &&& b.freqs@.len() > 0
            &&& strictly_ascending(b.freqs@)
            &&& b.freqs@.last() - b.freqs@.first() <= max_dist
            &&& exists|i: int| 0 <= i < b.freqs@.len() && #[trigger] b.freqs@[i] >= requested
        },
{
    if requested > u16::MAX as u64 {
        return None;
    }
    let mut t: usize = 0;
    while t < all.len() && (all[t] as u64) < requested
        invariant
            t <= all.len(),
            first_at_or_above(all@, requested, 0) == first_at_or_above(all@, requested, t as int),
        decreases all.len() - t,
    {
        t += 1;
    }
    if t >= all.len() {
        return None;
    }
    let target = all[t];
    proof {
        assert(band_seqs(bands@).skip(0) =~= band_seqs(bands@));
        lemma_band_of_member(band_seqs(bands@), target, 0);
    }
    let idx = match band_containing(&bands, target) {
        Some(i) => i,
        None => {
            return None;
        },
    };
    let ghost before = bands@;
    let mut bands = bands;
    let band: Band = bands.remove(idx);
    proof {
        reveal(well_packed);
        assert(band == before[idx as int]);
        assert(before[idx as int].wf(max_dist));
        assert(band_seqs(before)[idx as int] == band.freqs@);
        assert(band.freqs@.contains(target));
        let i = choose|i: int| 0 <= i < band.freqs@.len() && band.freqs@[i] == target;
        assert(band.freqs@[i] >= requested);
    }
    Some(band)
}

/// The frequencies of a band that may be missing.
pub open spec fn text_model_of_band(b: Option<Band>) -> Option<Seq<u16>> {
    match b {
        Some(b) => Some(b.freqs@),
        None => None,
    }
}

impl HfdlModule {
    /// Reads from the settings what a session needs.
    pub fn session_props(&self, settings: &ModuleSettings) -> (out: Result<SessionProps, StartError>)
        ensures
            props_fault(settings.props@, self.sample_rates@) matches Some(e) ==> out == Err::<
                SessionProps,
                StartError,
            >(e),
            props_fault(settings.props@, self.sample_rates@) is None ==> out is Ok,
            out matches Ok(p) ==> {
                &&& props_fault(settings.props@, self.sample_rates@) is None
                &&& p.method == method_in(settings.props@)
                &&& Some(p.rate) == nearest(self.sample_rates@, rate_in(settings.props@))
                &&& p.stale_secs == stale_in(settings.props@)
                &&& p.left == wish_in(settings.props@)
                &&& p.only_use_active == flag_of(settings.props@, PROP_ONLY_USE_ACTIVE@)
                &&& band_model(p.listening) == listening_in(settings.props@)
            },
    {
        let method: Option<SessionMethod> = match settings.get(PROP_SESSION_METHOD) {
            None => {
                return Err(StartError::MissingProp(PropName::SessionMethod));
            },
            Some(v) => match v.as_str() {
                Some(s) => parse_session_method(s.as_str()),
                None => Some(SessionMethod::Random),
            },
        };
        let suggested: u64 = match settings.get(PROP_SAMPLE_RATE) {
            None => {
                return Err(StartError::MissingProp(PropName::SampleRate));
            },
            Some(v) => match v.as_u64() {
                Some(n) => n,
                None => 0,
            },
        };
        let rate: u64 = match self.nearest_sample_rate(suggested) {
            Some(r) => r,
            None => {
                return Err(StartError::NoRate);
            },
        };
        let stale: u64 = match settings.get(PROP_STALE_TIMEOUT_SEC) {
            None => {
                return Err(StartError::MissingProp(PropName::StaleTimeout));
            },
            Some(v) => match v.as_u64() {
                Some(n) => n,
                None => {
                    return Err(StartError::BadStaleTimeout);
                },
            },
        };
        let left: u64 = match settings.get(PROP_NEXT_SESSION_BAND) {
            None => {
                return Err(StartError::MissingProp(PropName::NextSessionBand));
            },
            Some(v) => match v.as_u64() {
                Some(n) => n,
                None => 0,
            },
        };
        let listening: Option<Vec<u64>> = match settings.get(PROP_LISTENING_BAND) {
            Some(v) => if v.is_array() {
                Some(v.numbers())
            } else {
                None
            },
            None => None,
        };
        Ok(
            SessionProps {
                method,
                rate,
                stale_secs: if stale > i64::MAX as u64 {
                    i64::MAX
                } else {
                    stale as i64
                },
                left,
                only_use_active: settings.flag(PROP_ONLY_USE_ACTIVE),
                listening,
            },
        )
    }

    /// The frequencies that the next session can choose from, each once and lowest first,
    /// and the changes of ground stations that taking in the live map brought.
    pub fn known_frequencies(
        &self,
        settings: &mut ModuleSettings,
        airframes: Option<&HFDLGroundStationStatus>,
        now: i64,
        stale_secs: i64,
        only_use_active: bool,
    ) -> (out: (Vec<u16>, Vec<GroundStationChangeEvent>))
        requires
            old(settings).wf(),
        ensures
            final(settings).wf(),
            final(settings).props == old(settings).props,
            final(settings).swarm_mode == old(settings).swarm_mode,
            final(settings).disable_api_control == old(settings).disable_api_control,
            final(settings).api_token == old(settings).api_token,
            !only_use_active && airframes is None ==> *final(settings) == *old(settings),
            final(settings).station_models() == planned_registry(
                old(settings).station_models(),
                only_use_active,
                report_of(airframes),
                now,
                stale_secs,
            ),
            out.0@ == sorted_set(
                frequency_source(
                    old(settings).station_models(),
                    only_use_active,
                    report_of(airframes),
                    self.systable,
                    now,
                    stale_secs,
                ),
            ),
            strictly_ascending(out.0@),
            event_models(out.1@) == planned_changes(
                old(settings).station_models(),
                only_use_active,
                report_of(airframes),
                now,
                stale_secs,
            ),
            forall|k: int|
                0 <= k < out.1@.len() ==> (#[trigger] out.1@[k]).wf() && out.1@[k].ts@ == written(
                    now,
                ),
    {
        let mut known: Vec<u16> = Vec::new();
        if only_use_active {
            settings.invalidate_stations(now, stale_secs);
            known = narrowed(&settings.active_frequencies());
        }
        let mut events: Vec<GroundStationChangeEvent> = Vec::new();
        if let Some(status) = airframes {
            let ts = stamp_text(now);
            events = apply_heard(settings, &status.heard(), &ts, now, stale_secs);
            known = joined_freqs(&known, &status.all_freqs());
        }
        proof {
            if airframes is None {
                assert(event_models(events@) =~= Seq::<ChangeModel>::empty());
            }
        }
        proof {
            assert(known@ + Seq::<u16>::empty() =~= known@);
            assert(Seq::<u16>::empty() + known@ =~= known@);
        }
        if known.len() == 0 {
            known = self.systable.all_freqs();
        }
        (sorted_unique(&known), events)
    }
}

/// The stations of a report that may be missing.
pub open spec fn report_of(airframes: Option<&HFDLGroundStationStatus>) -> Option<
    Seq<GroundStationStatus>,
> {
    match airframes {
        Some(status) => Some(status.ground_stations@),
        None => None,
    }
}

impl HfdlModule {
    /// Whether planning a session wants the live map of the ground stations' frequencies:
    /// the settings turn it on, and the last session did not end for a change that a
    /// squitter just reported.
    pub fn wants_airframes(&self, settings: &ModuleSettings, last_end_reason: EndSessionReason) -> (out:
        bool)
        ensures
            out == (flag_of(settings.props@, PROP_USE_AIRFRAMES_GS@) && last_end_reason
                != EndSessionReason::SessionUpdate),
    {
        settings.flag(PROP_USE_AIRFRAMES_GS) && last_end_reason != EndSessionReason::SessionUpdate
    }

    /// Plans the next session under a schedule that is already laid out: which band to
    /// listen on, at which sample rate, and with which arguments.
    ///
    /// The frequencies to choose from are those on which the stations of the registry are
    /// active, where the settings ask for active frequencies only, and those of the live map
    /// `airframes`, where one is given; without any, they are those of the system table. The
    /// band is the one that holds the first of these frequencies at or above the wish, and
    /// where there is no wish, the session method makes one.
    pub fn plan_session(
        &mut self,
        settings: &mut ModuleSettings,
        last_end_reason: EndSessionReason,
        airframes: Option<&HFDLGroundStationStatus>,
        now: i64,
        schedule: &Vec<(i64, u32)>,
    ) -> (out: Result<SessionPlan, StartError>)
        requires
            old(self).wf(),
            old(settings).wf(),
        ensures
            final(self).wf(),
            final(settings).wf(),
            final(settings).props == old(settings).props,
            final(settings).swarm_mode == old(settings).swarm_mode,
            final(settings).disable_api_control == old(settings).disable_api_control,
            final(settings).api_token == old(settings).api_token,
            final(self).sample_rates == old(self).sample_rates,
            final(self).systable == old(self).systable,
            final(self).args == old(self).args,
            final(self).schedule == old(self).schedule,
            final(self).feed_airframes == old(self).feed_airframes,
            handed_on(old(self).args@, old(self).feed_airframes) matches Err(e) ==> out == Err::<
                SessionPlan,
                StartError,
            >(StartError::MisplacedFeed { index: e.index }) && *final(settings) == *old(settings)
                && *final(self) == *old(self),
            handed_on(old(self).args@, old(self).feed_airframes) is Ok ==> (props_fault(
                old(settings).props@,
                old(self).sample_rates@,
            ) matches Some(e) ==> out == Err::<SessionPlan, StartError>(e) && *final(settings)
                == *old(settings) && *final(self) == *old(self)),
            handed_on(old(self).args@, old(self).feed_airframes) is Ok && props_fault(
                old(settings).props@,
                old(self).sample_rates@,
            ) is None ==> old(self).is_planned(
                *old(settings),
                last_end_reason,
                report_of(airframes),
                now,
                schedule@,
                *final(self),
                *final(settings),
                out,
            ),
            out matches Ok(plan) ==> {
                let rate = nearest(old(self).sample_rates@, rate_in(old(settings).props@))->0;
                &&& handed_on(old(self).args@, old(self).feed_airframes) is Ok
                &&& props_fault(old(settings).props@, old(self).sample_rates@) is None
                &&& plan.bands@.len() > 0
                &&& strictly_ascending(plan.bands@)
                &&& plan.bands@.last() - plan.bands@.first() <= max_dist_khz(packing_rate(rate))
                &&& exists|i: int|
                    0 <= i < plan.bands@.len() && #[trigger] plan.bands@[i] >= plan.requested
                &&& forall|k: int|
                    0 <= k < plan.events@.len() ==> (#[trigger] plan.events@[k]).wf()
                        && plan.events@[k].ts@ == written(now)
            },
    {
        let extra: Vec<String> = if self.feed_airframes {
            match feed_arguments(&self.args, FEED_TARGET) {
                Ok(v) => v,
                Err(e) => {
                    return Err(StartError::MisplacedFeed { index: e.index });
                },
            }
        } else {
            copy_args(&self.args)
        };
        let props = match self.session_props(settings) {
            Ok(p) => p,
            Err(e) => {
                return Err(e);
            },
        };
        self.plan_with(settings, &props, extra, last_end_reason, airframes, now, schedule)
    }

    /// Plans the next session from what the settings say of it.
    fn plan_with(
        &mut self,
        settings: &mut ModuleSettings,
        props: &SessionProps,
        extra: Vec<String>,
        last_end_reason: EndSessionReason,
        airframes: Option<&HFDLGroundStationStatus>,
        now: i64,
        schedule: &Vec<(i64, u32)>,
    ) -> (out: Result<SessionPlan, StartError>)
        requires
            old(self).wf(),
            old(settings).wf(),
            Ok::<Seq<Seq<char>>, MisplacedFeed>(texts_of(extra@)) == handed_on(
                old(self).args@,
                old(self).feed_airframes,
            ),
            props_fault(old(settings).props@, old(self).sample_rates@) is None,
            props.method == method_in(old(settings).props@),
            Some(props.rate) == nearest(old(self).sample_rates@, rate_in(old(settings).props@)),
            props.stale_secs == stale_in(old(settings).props@),
            props.left == wish_in(old(settings).props@),
            props.only_use_active == flag_of(old(settings).props@, PROP_ONLY_USE_ACTIVE@),
            band_model(props.listening) == listening_in(old(settings).props@),
        ensures
            final(self).wf(),
            final(settings).wf(),
            final(settings).props == old(settings).props,
            final(settings).swarm_mode == old(settings).swarm_mode,
            final(settings).disable_api_control == old(settings).disable_api_control,
            final(settings).api_token == old(settings).api_token,
            final(self).sample_rates == old(self).sample_rates,
            final(self).systable == old(self).systable,
            final(self).args == old(self).args,
            final(self).schedule == old(self).schedule,
            final(self).feed_airframes == old(self).feed_airframes,
            old(self).is_planned(
                *old(settings),
                last_end_reason,
                report_of(airframes),
                now,
                schedule@,
                *final(self),
                *final(settings),
                out,
            ),
            out matches Ok(plan) ==> {
                &&& plan.bands@.len() > 0
                &&& strictly_ascending(plan.bands@)
                &&& plan.bands@.last() - plan.bands@.first() <= max_dist_khz(
                    packing_rate(props.rate),
                )
                &&& exists|i: int|
                    0 <= i < plan.bands@.len() && #[trigger] plan.bands@[i] >= plan.requested
                &&& forall|k: int|
                    0 <= k < plan.events@.len() ==> (#[trigger] plan.events@[k]).wf()
                        && plan.events@[k].ts@ == written(now)
            },
    {
        let (session_end, scheduled) = if schedule.len() > 0 {
            (Some(schedule[0].0), Some(schedule[schedule.len() - 1].1))
        } else {
            (None, None)
        };
        let wish = wished_band(props.left, last_end_reason, self.last_req_session_band, scheduled);
        let (all, events) = self.known_frequencies(
            settings,
            airframes,
            now,
            props.stale_secs,
            props.only_use_active,
        );
        let rate32: u32 = if props.rate > u32::MAX as u64 {
            u32::MAX
        } else {
            props.rate as u32
        };
        let bands = pack(&all, rate32);
        let mut requested = wish;
        if wish == 0 {
            let candidates = heads_of(&bands, Ghost(max_dist_khz(rate32)));
            proof {
                assert(models_of(settings.stations@) =~= settings.station_models());
            }
            match choose_band(
                props.method,
                &candidates,
                &props.listening,
                self.last_random_freq_band,
                &settings.stations,
                now,
                props.stale_secs,
            ) {
                Ok(choice) => {
                    proof {
                        if props.method == Some(SessionMethod::Random) {
                            reveal(well_packed);
                            let seqs = band_seqs(bands@);
                            assert forall|k: int| 0 <= k < seqs.len() implies (#[trigger] seqs[k]).len()
                                > 0 by {
                                assert(bands@[k].wf(max_dist_khz(rate32)));
                            }
                            let listening = band_model(props.listening);
                            let last = old(self).last_random_freq_band;
                            let pool = random_pool(heads(seqs), listening, last);
                            assert(pool.contains(choice.band));
                            if head_of(listening) is Some {
                                lemma_head_has_band(all@, seqs, head_of(listening)->0, last, choice.band);
                            } else {
                                lemma_head_has_band(all@, seqs, 0, 0, choice.band);
                            }
                        }
                    }
                    requested = choice.band;
                    self.last_random_freq_band = choice.last_random;
                },
                Err(_) => {
                    return Err(StartError::NoCandidates);
                },
            }
        }
        let band = match band_for(&all, bands, requested, Ghost(max_dist_khz(rate32))) {
            Some(b) => b,
            None => {
                return Err(StartError::NoBand);
            },
        };
        let used_rate = match self.calculate_actual_sample_rate(&band.freqs) {
            Some(r) => r,
            None => props.rate,
        };
        self.last_req_session_band = requested;
        let args = build_args(&self.systable.path, used_rate, extra, &band.freqs);
        let end_session_on_timeout = match props.method {
            Some(SessionMethod::Static) => false,
            _ => true,
        };
        Ok(
            SessionPlan {
                bands: band.freqs,
                sample_rate: used_rate,
                args,
                session_end,
                end_session_on_timeout,
                requested,
                events,
            },
        )
    }

    /// Whether `out` is what planning a session comes to, and `after` and `settings_after`
    /// what it leaves, where the arguments and the settings are in order.
    ///
    /// The known frequencies are packed into bands at the sample rate of the device. A wish
    /// decides the band; without one the session method chooses, and fails where it has
    /// nothing to choose from. Planning fails as well where no known frequency is as high as
    /// the wish.
    pub open spec fn is_planned(
        self,
        settings: ModuleSettings,
        reason: EndSessionReason,
        report: Option<Seq<GroundStationStatus>>,
        now: i64,
        schedule: Seq<(i64, u32)>,
        after: HfdlModule,
        settings_after: ModuleSettings,
        out: Result<SessionPlan, StartError>,
    ) -> bool {
        let props = settings.props@;
        let rate = nearest(self.sample_rates@, rate_in(props))->0;
        let stale = stale_in(props);
        let only = flag_of(props, PROP_ONLY_USE_ACTIVE@);
        let all = sorted_set(
            frequency_source(settings.station_models(), only, report, self.systable, now, stale),
        );
        let bands = packed(all, max_dist_khz(packing_rate(rate)));
        let wish = wished(wish_in(props), reason, self.last_req_session_band, current_entry(schedule));
        let registry = planned_registry(settings.station_models(), only, report, now, stale);
        &&& settings_after.station_models() == registry
        &&& wish != 0 ==> after.last_random_freq_band == self.last_random_freq_band
        &&& match out {
            Ok(plan) => {
                &&& wish != 0 ==> plan.requested == wish
                &&& wish == 0 ==> is_choice(
                    method_in(props),
                    heads(bands),
                    listening_in(props),
                    self.last_random_freq_band,
                    registry,
                    now,
                    stale,
                    Ok(Choice { band: plan.requested, last_random: after.last_random_freq_band }),
                )
                &&& band_wished(all, bands, plan.requested) == Some(plan.bands@)
                &&& after.last_req_session_band == plan.requested
                &&& plan.sample_rate == (match nearest(
                    self.sample_rates@,
                    crate::hfdl::rates::covering_rate(plan.bands@),
                ) {
                    Some(r) => r,
                    None => rate,
                })
                &&& plan.session_end == next_switch(schedule)
                &&& plan.end_session_on_timeout == (method_in(props) != Some(SessionMethod::Static))
                &&& texts_of(plan.args@) == decoder_args(
                    self.systable.path@,
                    plan.sample_rate,
                    handed_on(self.args@, self.feed_airframes)->Ok_0,
                    plan.bands@,
                )
                &&& event_models(plan.events@) == planned_changes(
                    settings.station_models(),
                    only,
                    report,
                    now,
                    stale,
                )
            },
            Err(e) => {
                &&& after.last_req_session_band == self.last_req_session_band
                &&& e is NoCandidates || e is NoBand
                &&& e is NoCandidates ==> wish == 0 && is_choice(
                    method_in(props),
                    heads(bands),
                    listening_in(props),
                    self.last_random_freq_band,
                    registry,
                    now,
                    stale,
                    Err(NoCandidates),
                )
                &&& e is NoBand && wish != 0 ==> band_wished(all, bands, wish) is None
            },
        }
        &&& wish != 0 && band_wished(all, bands, wish) is None ==> out is Err
        &&& wish != 0 && band_wished(all, bands, wish) is Some ==> out is Ok
        &&& wish == 0 ==> (match pool_of(
            method_in(props),
            heads(bands),
            listening_in(props),
            self.last_random_freq_band,
            registry,
            now,
            stale,
        ) {
            Some(pool) => {
                &&& pool.len() == 0 ==> out == Err::<SessionPlan, StartError>(
                    StartError::NoCandidates,
                )
                &&& pool.len() > 0 ==> !(out matches Err(StartError::NoCandidates))
                &&& out matches Err(StartError::NoBand) ==> exists|x: u64|
                    #[trigger] pool.contains(x) && band_wished(all, bands, x) is None
            },
            None => out is Ok <==> band_wished(
                all,
                bands,
                fixed_choice(method_in(props), heads(bands), listening_in(props)),
            ) is Some,
        })
        &&& wish == 0 && method_in(props) == Some(SessionMethod::Random) ==> (out is Ok
            <==> random_pool(heads(bands), listening_in(props), self.last_random_freq_band).len()
            > 0)
    }

    /// Plans the next session. The schedule of the module, where it has one, is laid out
    /// from the current instant of the machine's clock.
    pub fn start_session(
        &mut self,
        settings: &mut ModuleSettings,
        last_end_reason: EndSessionReason,
        airframes: Option<&HFDLGroundStationStatus>,
        now: i64,
    ) -> (out: Result<SessionPlan, StartError>)
        requires
            old(self).wf(),
            old(settings).wf(),
        ensures
            final(self).wf(),
            final(settings).wf(),
            final(settings).props == old(settings).props,
            final(self).sample_rates == old(self).sample_rates,
            final(self).systable == old(self).systable,
            final(self).args == old(self).args,
            final(self).schedule == old(self).schedule,
            handed_on(old(self).args@, old(self).feed_airframes) matches Err(e) ==> out == Err::<
                SessionPlan,
                StartError,
            >(StartError::MisplacedFeed { index: e.index }) && *final(settings) == *old(settings)
                && *final(self) == *old(self),
            handed_on(old(self).args@, old(self).feed_airframes) is Ok ==> (props_fault(
                old(settings).props@,
                old(self).sample_rates@,
            ) matches Some(e) ==> out == Err::<SessionPlan, StartError>(e) && *final(settings)
                == *old(settings) && *final(self) == *old(self)),
            handed_on(old(self).args@, old(self).feed_airframes) is Ok && props_fault(
                old(settings).props@,
                old(self).sample_rates@,
            ) is None ==> {
                &&& old(self).schedule@.len() == 0 ==> old(self).is_planned(
                    *old(settings),
                    last_end_reason,
                    report_of(airframes),
                    now,
                    Seq::empty(),
                    *final(self),
                    *final(settings),
                    out,
                )
                &&& old(self).schedule@.len() > 0 ==> {
                    ||| out matches Err(StartError::BadSchedule(_)) && *final(settings) == *old(
                        settings,
                    ) && *final(self) == *old(self)
                    ||| exists|schedule: Seq<(i64, u32)>|
                        ordered(schedule) && #[trigger] old(self).is_planned(
                            *old(settings),
                            last_end_reason,
                            report_of(airframes),
                            now,
                            schedule,
                            *final(self),
                            *final(settings),
                            out,
                        )
                }
                &&& old(self).schedule@.len() > 0 ==> (schedule_verdict(old(self).schedule@)
                    matches Err(e) ==> out == Err::<SessionPlan, StartError>(
                    StartError::BadSchedule(e),
                ))
            },
            out matches Ok(plan) ==> {
                let rate = nearest(old(self).sample_rates@, rate_in(old(settings).props@))->0;
                &&& plan.bands@.len() > 0
                &&& strictly_ascending(plan.bands@)
                &&& plan.bands@.last() - plan.bands@.first() <= max_dist_khz(packing_rate(rate))
                &&& exists|i: int|
                    0 <= i < plan.bands@.len() && #[trigger] plan.bands@[i] >= plan.requested
                &&& forall|k: int|
                    0 <= k < plan.events@.len() ==> (#[trigger] plan.events@[k]).wf()
                        && plan.events@[k].ts@ == written(now)
            },
    {
        if self.feed_airframes {
            if let Err(e) = feed_arguments(&self.args, FEED_TARGET) {
                return Err(StartError::MisplacedFeed { index: e.index });
            }
        }
        if let Err(e) = self.session_props(settings) {
            return Err(e);
        }
        let schedule: Vec<(i64, u32)> = if self.schedule.as_str().unicode_len() > 0 {
            if let Err(e) = check_schedule(self.schedule.as_str()) {
                return Err(StartError::BadSchedule(e));
            }
            match parse_session_schedule(self.schedule.as_str()) {
                Ok(v) => v,
                Err(e) => {
                    return Err(StartError::BadSchedule(e));
                },
            }
        } else {
            Vec::new()
        };
        let out = self.plan_session(settings, last_end_reason, airframes, now, &schedule);
        proof {
            if old(self).schedule@.len() > 0 {
                assert(old(self).is_planned(
                    *old(settings),
                    last_end_reason,
                    report_of(airframes),
                    now,
                    schedule@,
                    *self,
                    *settings,
                    out,
                ));
            } else {
                assert(schedule@ =~= Seq::<(i64, u32)>::empty());
            }
        }
        out
    }

    /// Records in the settings that the planned session runs: the band it listens on, and
    /// that the wish for the next band is spent.
    pub fn session_started(&self, settings: &mut ModuleSettings, plan: &SessionPlan) -> (out: Result<
        (),
        StartError,
    >)
        requires
            old(settings).wf(),
        ensures
            final(settings).wf(),
            final(settings).stations == old(settings).stations,
            value_of(old(settings).props@, PROP_LISTENING_BAND@) is None ==> out == Err::<
                (),
                StartError,
            >(StartError::MissingProp(PropName::ListeningBand)) && *final(settings) == *old(
                settings,
            ),
            value_of(old(settings).props@, PROP_LISTENING_BAND@) is Some && value_of(
                old(settings).props@,
                PROP_NEXT_SESSION_BAND@,
            ) is None ==> out == Err::<(), StartError>(
                StartError::MissingProp(PropName::NextSessionBand),
            ) && *final(settings) == *old(settings),
            value_of(old(settings).props@, PROP_LISTENING_BAND@) is Some && value_of(
                old(settings).props@,
                PROP_NEXT_SESSION_BAND@,
            ) is Some ==> out is Ok,
            out is Ok ==> value_of(final(settings).props@, PROP_LISTENING_BAND@) == Some(
                list_of(Seq::new(plan.bands@.len(), |i: int| plan.bands@[i] as u64)),
            ) && value_of(final(settings).props@, PROP_NEXT_SESSION_BAND@) == Some(
                ValueModel::Unsigned(0),
            ),
            forall|k: Seq<char>|
                validator_of(final(settings).props@, k) == validator_of(old(settings).props@, k),
            forall|k: Seq<char>|
                k != PROP_LISTENING_BAND@ && k != PROP_NEXT_SESSION_BAND@ ==> value_of(
                    final(settings).props@,
                    k,
                ) == value_of(old(settings).props@, k),
    {
        proof {
            reveal_strlit("listening_band");
            reveal_strlit("next_session_band");
            assert(PROP_LISTENING_BAND@.len() != PROP_NEXT_SESSION_BAND@.len());
        }
        if settings.get(PROP_LISTENING_BAND).is_none() {
            return Err(StartError::MissingProp(PropName::ListeningBand));
        }
        if settings.get(PROP_NEXT_SESSION_BAND).is_none() {
            return Err(StartError::MissingProp(PropName::NextSessionBand));
        }
        let mut khz: Vec<u64> = Vec::new();
        let mut i: usize = 0;
        while i < plan.bands.len()
            invariant
                i <= plan.bands.len(),
                khz@.len() == i,
                forall|k: int| 0 <= k < i ==> khz@[k] == plan.bands@[k] as u64,
            decreases plan.bands.len() - i,
        {
            khz.push(plan.bands[i] as u64);
            i += 1;
        }
        assert(khz@ =~= Seq::new(plan.bands@.len(), |i: int| plan.bands@[i] as u64));
        settings.set_prop(PROP_LISTENING_BAND.to_owned(), Value::from_numbers(&khz));
        settings.set_prop(PROP_NEXT_SESSION_BAND.to_owned(), Value::Unsigned(0));
        Ok(())
    }

    /// How squitters feed back into the session, as the settings have it.
    pub open spec fn feedback_of(self, props: Seq<Prop>) -> FeedbackConfig {
        FeedbackConfig {
            enabled: flag_of(props, PROP_ONLY_USE_ACTIVE@) || flag_of(props, PROP_USE_AIRFRAMES_GS@),
            max_dist: max_dist_khz(packing_rate(rate_in(props))) as u32,
            stale_secs: match number_of(props, PROP_STALE_TIMEOUT_SEC@) {
                Some(n) => if n > i64::MAX {
                    i64::MAX
                } else {
                    n as i64
                },
                None => if self.stale_timeout_secs > i64::MAX {
                    i64::MAX
                } else {
                    self.stale_timeout_secs as i64
                },
            },
        }
    }

    pub fn feedback_config(&self, settings: &ModuleSettings) -> (out: FeedbackConfig)
        ensures
            out == self.feedback_of(settings.props@),
    {
        let rate: u64 = match settings.number(PROP_SAMPLE_RATE) {
            Some(n) => n,
            None => 0,
        };
        let rate32: u32 = if rate > u32::MAX as u64 {
            u32::MAX
        } else {
            rate as u32
        };
        let stale = match settings.number(PROP_STALE_TIMEOUT_SEC) {
            Some(n) => n,
            None => self.stale_timeout_secs,
        };
        FeedbackConfig {
            enabled: settings.flag(PROP_ONLY_USE_ACTIVE) || settings.flag(PROP_USE_AIRFRAMES_GS),
            max_dist: crate::bands::get_max_dist_khz_by_sample_rate(rate32),
            stale_secs: if stale > i64::MAX as u64 {
                i64::MAX
            } else {
                stale as i64
            },
        }
    }

    /// Brings a frame of the decoder to the common format, with the feedback that the
    /// settings ask for. A squitter is also taken into the registry of ground stations at
    /// `now`, which is in microseconds since the Unix epoch.
    pub fn process_message(
        &self,
        settings: &mut ModuleSettings,
        current_band: &Vec<u64>,
        raw: &Frame,
        now: i64,
    ) -> (out: Result<Processed, NormalizeError>)
        requires
            old(settings).wf(),
        ensures
            final(settings).wf(),
            final(settings).props == old(settings).props,
            final(settings).swarm_mode == old(settings).swarm_mode,
            final(settings).disable_api_control == old(settings).disable_api_control,
            final(settings).api_token == old(settings).api_token,
            out is Err ==> *final(settings) == *old(settings),
            out == Err::<Processed, NormalizeError>(NormalizeError::SystemTableOutOfDate)
                <==> table_outdated(*raw, self.systable),
            out == Err::<Processed, NormalizeError>(NormalizeError::ValidationFailed) <==> !table_outdated(
                *raw,
                self.systable,
            ) && !raw.wf(),
            out == Err::<Processed, NormalizeError>(NormalizeError::InvalidArrivalTime)
                <==> !table_outdated(*raw, self.systable) && raw.wf() && !times_ok(*raw),
            out == Err::<Processed, NormalizeError>(NormalizeError::MissingPDU) <==> !table_outdated(
                *raw,
                self.systable,
            ) && raw.wf() && times_ok(*raw) && raw.hfdl.spdu is None && raw.hfdl.lpdu is None,
            out != Err::<Processed, NormalizeError>(NormalizeError::BadJSON),
            out matches Ok(p) ==> {
                &&& p.frame.wf()
                &&& p.frame.freq == raw.hfdl.freq
                &&& p.frame.signal == raw.hfdl.sig_level
                &&& p.frame.app.name == raw.hfdl.app.name
                &&& p.frame.app.version == raw.hfdl.app.version
                &&& p.frame.timestamp@ == with_nanos(arrival_text(raw.hfdl.ts)->0)
                &&& Some(p.frame.indexed.timestamp@) == filed_text(*raw)
                &&& p.frame.indexed.dst_airport is None
                &&& raw.hfdl.spdu matches Some(s) ==> {
                    &&& squitter_frame(s, self.systable, p.frame)
                    &&& final(settings).station_models() == registry_after(
                        old(settings).station_models(),
                        squitter_heard(s.gs_status@),
                        now,
                    )
                    &&& event_models(p.events@) == changes(
                        old(settings).station_models(),
                        squitter_heard(s.gs_status@),
                        now,
                        self.feedback_of(old(settings).props@).stale_secs,
                    )
                    &&& forall|k: int|
                        0 <= k < p.events@.len() ==> (#[trigger] p.events@[k]).wf() && Some(
                            p.events@[k].ts@,
                        ) == arrival_text(raw.hfdl.ts)
                    &&& p.session_update == (self.feedback_of(old(settings).props@).enabled && any_touches(
                        changes(
                            old(settings).station_models(),
                            squitter_heard(s.gs_status@),
                            now,
                            self.feedback_of(old(settings).props@).stale_secs,
                        ),
                        current_band@,
                        self.feedback_of(old(settings).props@).max_dist as int,
                    ))
                }
                &&& raw.hfdl.spdu is None ==> {
                    &&& raw.hfdl.lpdu matches Some(l) && link_frame(raw.hfdl.freq, l, self.systable, p.frame)
                    &&& *final(settings) == *old(settings)
                    &&& p.events@.len() == 0
                    &&& !p.session_update
                }
            },
    {
        let config = self.feedback_config(settings);
        normalize_frame(&self.systable, settings, config, current_band, raw, now)
    }
}

/// What the command line says to the module.
#[derive(Debug, PartialEq, Eq)]
pub struct HfdlArguments {
    pub feed_airframes: bool,
    pub bin: String,
    /// The arguments that are handed on to the decoder.
    pub hfdl_args: Option<Vec<String>>,
    pub sample_rate: Option<String>,
    pub stale_timeout: Option<String>,
    pub use_airframes_gs: bool,
    pub only_use_active: bool,
    pub schedule: Option<String>,
    pub start_band_contains: Option<String>,
    pub method: Option<String>,
}

/// The schedule that the command line gives: the one it names, or none.
pub open spec fn schedule_in(a: HfdlArguments) -> Seq<char> {
    match a.schedule {
        Some(s) => s@,
        None => Seq::empty(),
    }
}

/// The session method that the command line gives: the one it names, or random.
pub open spec fn method_text(a: HfdlArguments) -> Seq<char> {
    match a.method {
        Some(m) => m@,
        None => DEFAULT_SESSION_METHOD@,
    }
}

/// What is wrong with the command line, looked for in this order: the decoder's arguments,
/// the driver among them, the station for the feed, the schedule, and the session method.
pub open spec fn arguments_fault(a: HfdlArguments) -> Option<ArgumentError> {
    match a.hfdl_args {
        None => Some(ArgumentError::MissingArguments),
        Some(args) => if driver_of(args@) is None {
            Some(ArgumentError::MissingDriver)
        } else if a.feed_airframes && find_arg(args@, "--station-id"@, 0) >= args@.len() {
            Some(ArgumentError::MissingStationId)
        } else if schedule_in(a).len() > 0 && schedule_verdict(schedule_in(a)) is Err {
            Some(ArgumentError::InvalidSchedule(schedule_verdict(schedule_in(a))->Err_0))
        } else if method_of(method_text(a)) is None {
            Some(ArgumentError::InvalidMethod)
        } else {
            None
        },
    }
}

impl HfdlModule {
    /// Takes in what the command line says. A command line at fault leaves the module as
    /// it was.
    pub fn parse_arguments(&mut self, a: HfdlArguments) -> (out: Result<(), ArgumentError>)
        requires
            old(self).wf(),
        ensures
            final(self).wf(),
            arguments_fault(a) matches Some(e) ==> out == Err::<(), ArgumentError>(e) && *final(self)
                == *old(self),
            arguments_fault(a) is None ==> {
                &&& out is Ok
                &&& final(self).feed_airframes == a.feed_airframes
                &&& final(self).bin == a.bin
                &&& final(self).args == a.hfdl_args->0
                &&& Some(final(self).driver@) == driver_of(a.hfdl_args->0@)
                &&& final(self).sample_rate == number_or(a.sample_rate, u64::MAX, DEFAULT_SAMPLE_RATE)
                &&& final(self).stale_timeout_secs == number_or(
                    a.stale_timeout,
                    u64::MAX,
                    DEFAULT_STALE_TIMEOUT_SECS,
                )
                &&& final(self).use_airframes_gs == a.use_airframes_gs
                &&& final(self).only_use_active == a.only_use_active
                &&& final(self).schedule@ == schedule_in(a)
                &&& final(self).next_session_band == number_or(
                    a.start_band_contains,
                    u16::MAX as u64,
                    0,
                )
                &&& final(self).method@ == lowercase_of(method_text(a))
                &&& final(self).sample_rates == old(self).sample_rates
                &&& final(self).systable == old(self).systable
                &&& final(self).last_req_session_band == old(self).last_req_session_band
                &&& final(self).last_random_freq_band == old(self).last_random_freq_band
            },
    {
        let args = match a.hfdl_args {
            Some(args) => args,
            None => {
                return Err(ArgumentError::MissingArguments);
            },
        };
        let driver = match extract_soapysdr_driver(&args) {
            Some(d) => d,
            None => {
                return Err(ArgumentError::MissingDriver);
            },
        };
        if a.feed_airframes && !names_station(&args) {
            return Err(ArgumentError::MissingStationId);
        }
        let schedule = match a.schedule {
            Some(s) => s,
            None => String::new(),
        };
        if schedule.as_str().unicode_len() > 0 {
            if let Err(e) = check_schedule(schedule.as_str()) {
                return Err(ArgumentError::InvalidSchedule(e));
            }
        }
        let method = match a.method {
            Some(m) => m,
            None => DEFAULT_SESSION_METHOD.to_owned(),
        };
        if parse_session_method(method.as_str()).is_none() {
            return Err(ArgumentError::InvalidMethod);
        }
        self.feed_airframes = a.feed_airframes;
        self.bin = a.bin;
        self.args = args;
        self.driver = driver;
        self.sample_rate = parse_number(a.sample_rate.as_ref(), u64::MAX, DEFAULT_SAMPLE_RATE);
        self.stale_timeout_secs = parse_number(
            a.stale_timeout.as_ref(),
            u64::MAX,
            DEFAULT_STALE_TIMEOUT_SECS,
        );
        self.use_airframes_gs = a.use_airframes_gs;
        self.only_use_active = a.only_use_active;
        self.schedule = schedule;
        self.next_session_band = parse_number(a.start_band_contains.as_ref(), u16::MAX as u64, 0);
        self.method = lowercase(method.as_str());
        Ok(())
    }
}

} // verus!
