//! The module of the VHF datalink: its settings, and the plan of each session.

use vstd::prelude::*;
use vstd::seq_lib::{to_multiset_build, to_multiset_insert};
use crate::aoa::frame::Frame;
use crate::aoa::ground_station_db::GroundStationDB;
use crate::aoa::normalize::{normalize_frame, Processed};
use crate::arguments::{
    copy_args, driver_of, extract_soapysdr_driver, fed, feed_arguments, find_arg, names_station,
    texts_of, ArgumentError, MisplacedFeed,
};
use crate::clock::with_nanos;
use crate::normalize::{arrival_text, NormalizeError};
use crate::session::{PropName, StartError, PROP_LISTENING_BAND};
use crate::settings::{validator_of, value_of, ModuleSettings};
use crate::text::{chars_of, decimal, decimal_string, parse_decimal, parse_unsigned};
use crate::validators::{Validator, VDL2_MAX_KHZ, VDL2_MIN_KHZ};
use crate::value::{list_of, Value, ValueModel};

verus! {

pub const AOA_COMMAND: &'static str = "aoa";

pub const DEFAULT_BIN_PATH: &'static str = "/usr/bin/dumpvdl2";

pub const DEFAULT_SESSION_TIMEOUT_SECS: u64 = 900;

pub const DEFAULT_VDL2_FREQ: u64 = 136975;

pub const PROP_NEXT_SESSION_BAND: &'static str = "next_session_band";

/// The output of the decoder that feeds the airframes service.
pub const FEED_TARGET: &'static str = "decoded:json:udp:address=feed.acars.io,port=5552";

/// The output of the decoder that the receiver reads.
pub const PRIMARY_OUTPUT: &'static str = "decoded:json:file:path=-";

/// The module of the VHF datalink.
#[derive(Debug, PartialEq, Eq)]
pub struct AoaModule {
    pub name: &'static str,
    pub bin: String,
    pub stations: Option<GroundStationDB>,
    /// The arguments that are handed on to the decoder.
    pub args: Vec<String>,
    pub driver: String,
    pub feed_airframes: bool,
    /// The frequencies of the first session, in kHz.
    pub next_session_band: Vec<u64>,
}

/// What a session is started with.
#[derive(Debug, PartialEq, Eq)]
pub struct SessionPlan {
    /// The frequencies to listen on, in kHz.
    pub bands: Vec<u64>,
    /// The decoder's arguments.
    pub args: Vec<String>,
}

/// No frequency is followed by a lower one.
pub open spec fn ascending(s: Seq<u64>) -> bool {
    forall|i: int, j: int| 0 <= i < j < s.len() ==> s[i] <= s[j]
}

fn insert_band(v: &mut Vec<u64>, x: u64)
    requires
        ascending(old(v)@),
    ensures
        ascending(final(v)@),
        final(v)@.to_multiset() == old(v)@.to_multiset().insert(x),
{
    let mut p: usize = 0;
    while p < v.len() && v[p] <= x
        invariant
            p <= v.len(),
            v@ == old(v)@,
            forall|j: int| 0 <= j < p ==> v@[j] <= x,
        decreases v.len() - p,
    {
        p += 1;
    }
    let ghost before = v@;
    v.insert(p, x);
    proof {
        let after = v@;
        to_multiset_insert(before, p as int, x);
        assert forall|i: int, j: int| 0 <= i < j < after.len() implies after[i] <= after[j] by {
            if j < p {
                assert(before[i] <= before[j]);
            } else if j == p {
                assert(before[i] <= x);
            } else if i < p {
                assert(before[i] <= before[j - 1]);
            } else if i == p {
                assert(before[p as int] > x);
                if p < j - 1 {
                    assert(before[p as int] <= before[j - 1]);
                }
            } else {
                assert(before[i - 1] <= before[j - 1]);
            }
        }
    }
}

/// The frequencies of `v`, lowest first.
pub fn sorted_bands(v: &Vec<u64>) -> (out: Vec<u64>)
    ensures
        ascending(out@),
        out@.to_multiset() == v@.to_multiset(),
{
    let mut out: Vec<u64> = Vec::new();
    let mut i: usize = 0;
    assert(v@.take(0) =~= out@);
    while i < v.len()
        invariant
            i <= v.len(),
            ascending(out@),
            out@.to_multiset() == v@.take(i as int).to_multiset(),
        decreases v.len() - i,
    {
        proof {
            assert(v@.take(i + 1) =~= v@.take(i as int).push(v@[i as int]));
            to_multiset_build(v@.take(i as int), v@[i as int]);
        }
        insert_band(&mut out, v[i]);
        i += 1;
    }
    proof {
        assert(v@.take(v.len() as int) =~= v@);
    }
    out
}

/// The frequency that a text gives: the number it writes, or 0.
pub open spec fn band_of(text: Seq<char>) -> u64 {
    match parse_unsigned(text, u64::MAX as nat) {
        Some(n) => n as u64,
        None => 0,
    }
}

/// The frequencies that `texts` give, in order.
pub open spec fn bands_of(texts: Seq<String>) -> Seq<u64> {
    Seq::new(texts.len(), |i: int| band_of(texts[i]@))
}

/// Whether every one of `bands` is a frequency of the VHF datalink.
pub open spec fn in_range(bands: Seq<u64>) -> bool {
    forall|i: int| 0 <= i < bands.len() ==> VDL2_MIN_KHZ <= #[trigger] bands[i] <= VDL2_MAX_KHZ
}

/// The starting frequencies hold one that is no frequency of the VHF datalink.
#[derive(Clone, Copy, Debug, PartialEq, Eq, Structural)]
pub struct InvalidBands;

/// The frequencies of the first session: those that the command line names, lowest first, or
/// the common frequency of the datalink where it names none.
pub fn start_bands(given: Option<&Vec<String>>) -> (out: Result<Vec<u64>, InvalidBands>)
    ensures
        given is None ==> (out matches Ok(v) && v@ == seq![DEFAULT_VDL2_FREQ]),
        given matches Some(texts) ==> {
            &&& out is Ok <==> in_range(bands_of(texts@))
            &&& out matches Ok(v) ==> ascending(v@) && v@.to_multiset() == bands_of(
                texts@,
            ).to_multiset()
        },
{
    match given {
        None => {
            let mut v: Vec<u64> = Vec::new();
            v.push(DEFAULT_VDL2_FREQ);
            assert(v@ =~= seq![DEFAULT_VDL2_FREQ]);
            Ok(v)
        },
        Some(texts) => {
            let mut bands: Vec<u64> = Vec::new();
            let mut ok = true;
            let ghost mut bad: int = 0;
            let mut i: usize = 0;
            while i < texts.len()
                invariant
                    i <= texts.len(),
                    bands@.len() == i,
                    forall|k: int| 0 <= k < i ==> bands@[k] == band_of(texts@[k]@),
                    ok ==> forall|k: int|
                        0 <= k < i ==> VDL2_MIN_KHZ <= #[trigger] bands@[k] <= VDL2_MAX_KHZ,
                    !ok ==> 0 <= bad < i && !(VDL2_MIN_KHZ <= bands@[bad] <= VDL2_MAX_KHZ),
                decreases texts.len() - i,
            {
                let band = match parse_decimal(&chars_of(texts[i].as_str()), u64::MAX) {
                    Some(n) => n,
                    None => 0,
                };
                if band < VDL2_MIN_KHZ || band > VDL2_MAX_KHZ {
                    ok = false;
                    proof {
                        bad = i as int;
                    }
                }
                bands.push(band);
                i += 1;
            }
            assert(bands@ =~= bands_of(texts@));
            assert(!ok ==> !(VDL2_MIN_KHZ <= bands_of(texts@)[bad] <= VDL2_MAX_KHZ));
            if ok {
                Ok(sorted_bands(&bands))
            } else {
                Err(InvalidBands)
            }
        },
    }
}

/// A frequency in Hz, or the largest number where the frequency in Hz is above it.
pub open spec fn hz(khz: u64) -> u64 {
    if khz * 1000 > u64::MAX {
        u64::MAX
    } else {
        (khz * 1000) as u64
    }
}

/// The decoder's arguments: the output that the receiver reads, the arguments that are
/// handed on, and the frequencies in Hz.
pub open spec fn decoder_args(extra: Seq<Seq<char>>, bands: Seq<u64>) -> Seq<Seq<char>> {
    seq!["--output"@, PRIMARY_OUTPUT@] + extra + Seq::new(
        bands.len(),
        |i: int| decimal(hz(bands[i]) as nat),
    )
}

fn build_args(extra: Vec<String>, bands: &Vec<u64>) -> (out: Vec<String>)
    ensures
        texts_of(out@) == decoder_args(texts_of(extra@), bands@),
{
    let mut out: Vec<String> = Vec::new();
    out.push("--output".to_owned());
    out.push(PRIMARY_OUTPUT.to_owned());
    let ghost head = texts_of(out@);
    let mut i: usize = 0;
    while i < extra.len()
        invariant
            i <= extra.len(),
            texts_of(out@) == head + texts_of(extra@).take(i as int),
        decreases extra.len() - i,
    {
        let ghost before = texts_of(out@);
        out.push(extra[i].clone());
        proof {
            assert(texts_of(out@) =~= before.push(extra@[i as int]@));
            assert(texts_of(extra@).take(i + 1) =~= texts_of(extra@).take(i as int).push(
                extra@[i as int]@,
            ));
            assert(texts_of(out@) =~= head + texts_of(extra@).take(i + 1));
        }
        i += 1;
    }
    let ghost middle = texts_of(out@);
    let ghost tail = Seq::new(bands@.len(), |i: int| decimal(hz(bands@[i]) as nat));
    let mut k: usize = 0;
    while k < bands.len()
        invariant
            k <= bands.len(),
            tail == Seq::new(bands@.len(), |i: int| decimal(hz(bands@[i]) as nat)),
            texts_of(out@) == middle + tail.take(k as int),
        decreases bands.len() - k,
    {
        let ghost before = texts_of(out@);
        let in_hz: u64 = if bands[k] > u64::MAX / 1000 {
            u64::MAX
        } else {
            bands[k] * 1000
        };
        out.push(decimal_string(in_hz));
        proof {
            assert(texts_of(out@) =~= before.push(decimal(hz(bands@[k as int]) as nat)));
            assert(tail.take(k + 1) =~= tail.take(k as int).push(tail[k as int]));
            assert(texts_of(out@) =~= middle + tail.take(k + 1));
        }
        k += 1;
    }
    proof {
        assert(texts_of(extra@).take(extra.len() as int) =~= texts_of(extra@));
        assert(tail.take(bands.len() as int) =~= tail);
        assert(head =~= seq!["--output"@, PRIMARY_OUTPUT@]);
    }
    out
}

/// The arguments that are handed on to the decoder, with the feed where it is wanted.
pub open spec fn handed_on(args: Seq<String>, feed: bool) -> Result<Seq<Seq<char>>, MisplacedFeed> {
    if feed {
        fed(args, FEED_TARGET@)
    } else {
        Ok(texts_of(args))
    }
}

/// The frequencies of a list: its whole numbers as they are, and 0 for every other element.
pub open spec fn wished(items: Seq<crate::value::ItemModel>) -> Seq<u64> {
    Seq::new(
        items.len(),
        |i: int|
            match items[i] {
                crate::value::ItemModel::Unsigned(n) => n,
                crate::value::ItemModel::Other(_) => 0,
            },
    )
}

impl AoaModule {
    /// A table of ground stations, where there is one, has a key for each station.
    pub open spec fn wf(self) -> bool {
        self.stations matches Some(db) ==> db.wf()
    }

    /// A module as the command line leaves it when it says nothing.
    pub fn new() -> (out: AoaModule)
        ensures
            out.wf(),
            out.name@ == AOA_COMMAND@,
            out.stations is None,
            out.args@.len() == 0,
            !out.feed_airframes,
            out.next_session_band@ == seq![DEFAULT_VDL2_FREQ],
    {
        let mut bands: Vec<u64> = Vec::new();
        bands.push(DEFAULT_VDL2_FREQ);
        assert(bands@ =~= seq![DEFAULT_VDL2_FREQ]);
        AoaModule {
            name: AOA_COMMAND,
            bin: DEFAULT_BIN_PATH.to_owned(),
            stations: None,
            args: Vec::new(),
            driver: String::new(),
            feed_airframes: false,
            next_session_band: bands,
        }
    }

    pub fn id(&self) -> (out: &'static str)
        ensures
            out == self.name,
    {
        self.name
    }

    pub fn default_session_timeout_secs(&self) -> (out: u64)
        ensures
            out == DEFAULT_SESSION_TIMEOUT_SECS,
    {
        DEFAULT_SESSION_TIMEOUT_SECS
    }

    /// Puts the module's property into the settings: the frequencies of the next session,
    /// behind their rule.
    pub fn init(&self, settings: &mut ModuleSettings)
        requires
            old(settings).wf(),
        ensures
            final(settings).wf(),
            final(settings).stations == old(settings).stations,
            value_of(final(settings).props@, PROP_NEXT_SESSION_BAND@) == Some(
                list_of(self.next_session_band@),
            ),
            validator_of(final(settings).props@, PROP_NEXT_SESSION_BAND@) == Some(
                Validator::NextSessionBands,
            ),
            forall|k: Seq<char>|
                k != PROP_NEXT_SESSION_BAND@ ==> value_of(final(settings).props@, k) == value_of(
                    old(settings).props@,
                    k,
                ) && validator_of(final(settings).props@, k) == validator_of(
                    old(settings).props@,
                    k,
                ),
    {
        settings.add_prop_with_validator(
            PROP_NEXT_SESSION_BAND.to_owned(),
            Value::from_numbers(&self.next_session_band),
            Validator::NextSessionBands,
        );
    }

    /// Plans the next session: it listens on the frequencies that the settings wish for.
    pub fn start_session(&self, settings: &ModuleSettings) -> (out: Result<SessionPlan, StartError>)
        ensures
            handed_on(self.args@, self.feed_airframes) matches Err(e) ==> out == Err::<
                SessionPlan,
                StartError,
            >(StartError::MisplacedFeed { index: e.index }),
            handed_on(self.args@, self.feed_airframes) is Ok ==> match value_of(
                settings.props@,
                PROP_NEXT_SESSION_BAND@,
            ) {
                None => out == Err::<SessionPlan, StartError>(
                    StartError::MissingProp(PropName::NextSessionBand),
                ),
                Some(ValueModel::List(items)) => (out matches Ok(plan) && plan.bands@ == wished(
                    items,
                ) && texts_of(plan.args@) == decoder_args(
                    handed_on(self.args@, self.feed_airframes)->Ok_0,
                    plan.bands@,
                )),
                Some(_) => out == Err::<SessionPlan, StartError>(StartError::NotAList),
            },
    {
        let extra: Vec<String> = if self.feed_airframes {
            match feed_arguments(&self.args, FEED_TARGET) {
                Ok(v) => v,
                Err(e) => {
                    return Err(StartError::MisplacedFeed { index: e.index });
                },
            }
        } else {
            copy_args(&self.args)
        };
        let value = match settings.get(PROP_NEXT_SESSION_BAND) {
            Some(v) => v,
            None => {
                return Err(StartError::MissingProp(PropName::NextSessionBand));
            },
        };
        let bands: Vec<u64> = match value {
            Value::List(items) => {
                let ghost models = value@->List_0;
                let mut bands: Vec<u64> = Vec::new();
                let mut i: usize = 0;
                while i < items.len()
                    invariant
                        i <= items.len(),
                        models.len() == items@.len(),
                        forall|k: int| 0 <= k < items@.len() ==> models[k] == (#[trigger] items@[k])@,
                        bands@.len() == i,
                        forall|k: int| 0 <= k < i ==> bands@[k] == wished(models)[k],
                    decreases items.len() - i,
                {
                    assert(models[i as int] == items@[i as int]@);
                    bands.push(
                        match &items[i] {
                            crate::value::Item::Unsigned(n) => *n,
                            crate::value::Item::Other(_) => 0,
                        },
                    );
                    i += 1;
                }
                assert(bands@ =~= wished(models));
                bands
            },
            _ => {
                return Err(StartError::NotAList);
            },
        };
        let args = build_args(extra, &bands);
        Ok(SessionPlan { bands, args })
    }

    /// Records in the settings that the planned session runs: the frequencies it listens on,
    /// and that the wish for the next session is spent.
    pub fn session_started(&self, settings: &mut ModuleSettings, plan: &SessionPlan) -> (out: Result<
        (),
        StartError,
    >)
        requires
            old(settings).wf(),
        ensures
            final(settings).wf(),
            final(settings).stations == old(settings).stations,
            value_of(old(settings).props@, PROP_LISTENING_BAND@) is None ==> out == Err::<
                (),
                StartError,
            >(StartError::MissingProp(PropName::ListeningBand)) && *final(settings) == *old(
                settings,
            ),
            value_of(old(settings).props@, PROP_LISTENING_BAND@) is Some && value_of(
                old(settings).props@,
                PROP_NEXT_SESSION_BAND@,
            ) is None ==> out == Err::<(), StartError>(
                StartError::MissingProp(PropName::NextSessionBand),
            ) && *final(settings) == *old(settings),
            value_of(old(settings).props@, PROP_LISTENING_BAND@) is Some && value_of(
                old(settings).props@,
                PROP_NEXT_SESSION_BAND@,
            ) is Some ==> out is Ok,
            out is Ok ==> value_of(final(settings).props@, PROP_LISTENING_BAND@) == Some(
                list_of(plan.bands@),
            ) && value_of(final(settings).props@, PROP_NEXT_SESSION_BAND@) == Some(
                list_of(Seq::empty()),
            ),
            forall|k: Seq<char>|
                validator_of(final(settings).props@, k) == validator_of(old(settings).props@, k),
            forall|k: Seq<char>|
                k != PROP_LISTENING_BAND@ && k != PROP_NEXT_SESSION_BAND@ ==> value_of(
                    final(settings).props@,
                    k,
                ) == value_of(old(settings).props@, k),
    {
        proof {
            reveal_strlit("listening_band");
            reveal_strlit("next_session_band");
            assert(PROP_LISTENING_BAND@.len() != PROP_NEXT_SESSION_BAND@.len());
        }
        if settings.get(PROP_LISTENING_BAND).is_none() {
            return Err(StartError::MissingProp(PropName::ListeningBand));
        }
        if settings.get(PROP_NEXT_SESSION_BAND).is_none() {
            return Err(StartError::MissingProp(PropName::NextSessionBand));
        }
        settings.set_prop(PROP_LISTENING_BAND.to_owned(), Value::from_numbers(&plan.bands));
        let none: Vec<u64> = Vec::new();
        settings.set_prop(PROP_NEXT_SESSION_BAND.to_owned(), Value::from_numbers(&none));
        Ok(())
    }

    /// Brings a frame of the decoder to the common format.
    pub fn process_message(&self, raw: &Frame) -> (out: Result<Processed, NormalizeError>)
        requires
            self.wf(),
        ensures
            out == Err::<Processed, NormalizeError>(NormalizeError::ValidationFailed) <==> !raw.wf(),
            out == Err::<Processed, NormalizeError>(NormalizeError::InvalidArrivalTime)
                <==> raw.wf() && arrival_text(raw.vdl2.ts) is None,
            out == Err::<Processed, NormalizeError>(NormalizeError::MissingPDU) <==> raw.wf()
                && arrival_text(raw.vdl2.ts) is Some && raw.vdl2.avlc is None,
            out != Err::<Processed, NormalizeError>(NormalizeError::BadJSON),
            out != Err::<Processed, NormalizeError>(NormalizeError::SystemTableOutOfDate),
            out matches Ok(p) ==> {
                &&& p.frame.wf()
                &&& p.frame.freq == raw.vdl2.freq
                &&& p.frame.signal == raw.vdl2.sig_level
                &&& p.frame.app.name == raw.vdl2.app.name
                &&& p.frame.app.version == raw.vdl2.app.version
                &&& p.frame.timestamp@ == with_nanos(arrival_text(raw.vdl2.ts)->0)
                &&& Some(p.frame.indexed.timestamp@) == arrival_text(raw.vdl2.ts)
                &&& raw.vdl2.avlc matches Some(a) && crate::aoa::normalize::link_frame(
                    raw.vdl2.freq,
                    a,
                    self.stations,
                    p.frame,
                ) && crate::aoa::normalize::station_seen(
                    crate::aoa::normalize::ground_end(a, p.frame.src, p.frame.dst->0),
                    p.station,
                )
            },
    {
        match &self.stations {
            Some(db) => normalize_frame(Some(db), raw),
            None => normalize_frame(None, raw),
        }
    }

    /// Takes the settings anew: the module keeps none of its own.
    pub fn reload(&mut self)
        ensures
            *final(self) == *old(self),
    {
    }
}

/// What the command line says to the module.
#[derive(Debug, PartialEq, Eq)]
pub struct AoaArguments {
    pub feed_airframes: bool,
    pub bin: String,
    pub stations: Option<GroundStationDB>,
    /// The arguments that are handed on to the decoder.
    pub aoa_args: Option<Vec<String>>,
    /// The frequencies of the first session, in kHz, as they are written.
    pub start_bands: Option<Vec<String>>,
}

/// What is wrong with the command line, looked for in this order: the decoder's arguments,
/// the driver among them, the station for the feed, and the starting frequencies.
pub open spec fn arguments_fault(a: AoaArguments) -> Option<ArgumentError> {
    match a.aoa_args {
        None => Some(ArgumentError::MissingArguments),
        Some(args) => if driver_of(args@) is None {
            Some(ArgumentError::MissingDriver)
        } else if a.feed_airframes && find_arg(args@, "--station-id"@, 0) >= args@.len() {
            Some(ArgumentError::MissingStationId)
        } else if a.start_bands matches Some(b) && !in_range(bands_of(b@)) {
            Some(ArgumentError::InvalidBands)
        } else {
            None
        },
    }
}

impl AoaModule {
    /// Takes in what the command line says. A command line at fault leaves the module as
    /// it was.
    pub fn parse_arguments(&mut self, a: AoaArguments) -> (out: Result<(), ArgumentError>)
        requires
            a.stations matches Some(db) ==> db.wf(),
        ensures
            arguments_fault(a) matches Some(e) ==> out == Err::<(), ArgumentError>(e) && *final(self)
                == *old(self),
            arguments_fault(a) is None ==> {
                &&& out is Ok
                &&& final(self).wf()
                &&& final(self).feed_airframes == a.feed_airframes
                &&& final(self).bin == a.bin
                &&& final(self).stations == a.stations
                &&& final(self).args == a.aoa_args->0
                &&& Some(final(self).driver@) == driver_of(a.aoa_args->0@)
                &&& ascending(final(self).next_session_band@)
                &&& match a.start_bands {
                    Some(b) => final(self).next_session_band@.to_multiset() == bands_of(
                        b@,
                    ).to_multiset(),
                    None => final(self).next_session_band@ == seq![DEFAULT_VDL2_FREQ],
                }
            },
    {
        let args = match a.aoa_args {
            Some(args) => args,
            None => {
                return Err(ArgumentError::MissingArguments);
            },
        };
        let driver = match extract_soapysdr_driver(&args) {
            Some(d) => d,
            None => {
                return Err(ArgumentError::MissingDriver);
            },
        };
        if a.feed_airframes && !names_station(&args) {
            return Err(ArgumentError::MissingStationId);
        }
        let bands = match start_bands(a.start_bands.as_ref()) {
            Ok(b) => b,
            Err(_) => {
                return Err(ArgumentError::InvalidBands);
            },
        };
        self.feed_airframes = a.feed_airframes;
        self.bin = a.bin;
        self.stations = a.stations;
        self.args = args;
        self.driver = driver;
        self.next_session_band = bands;
        Ok(())
    }
}

} // verus!
