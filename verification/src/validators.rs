//! The rules that gate writes to the properties of the control plane.

use vstd::prelude::*;
use crate::schedule::{
    entries_upto, parse_schedule_entries, segment_result, segments, ScheduleError,
};
use crate::text::{
    chars_of, decimal, has_prefix, lowercase, lowercase_of, parse_decimal, parse_unsigned,
    push_decimal, same_chars, starts_with, string_of,
};
use crate::value::{Item, ItemModel, Value, ValueModel};

verus! {

/// How the next band is chosen when a session ends.
#[derive(Clone, Copy, Debug, PartialEq, Eq, Structural)]
pub enum SessionMethod {
    /// A band head drawn at random, other than the current and the one before it.
    Random,
    /// The next higher band head, wrapping to the lowest.
    Inc,
    /// The next lower band head, wrapping to the highest.
    Dec,
    /// The current band is kept, and a silent session does not end.
    Static,
    /// A frequency drawn from those on which the given ground station is active.
    Track(u32),
}

/// The method that `text` names, without regard to the case of its letters: `random`,
/// `inc`, `dec`, `static`, or `track:` followed by the number of a ground station, which is
/// above 0.
pub open spec fn method_of(text: Seq<char>) -> Option<SessionMethod> {
    let t = lowercase_of(text);
    if t == "random"@ {
        Some(SessionMethod::Random)
    } else if t == "static"@ {
        Some(SessionMethod::Static)
    } else if t == "inc"@ {
        Some(SessionMethod::Inc)
    } else if t == "dec"@ {
        Some(SessionMethod::Dec)
    } else if has_prefix(t, "track:"@) {
        match parse_unsigned(t.skip(6), u32::MAX as nat) {
            Some(n) => if n > 0 {
                Some(SessionMethod::Track(n as u32))
            } else {
                None
            },
            None => None,
        }
    } else {
        None
    }
}

/// Reads the name of a session method.
pub fn parse_session_method(text: &str) -> (out: Option<SessionMethod>)
    ensures
        out == method_of(text@),
{
    let t = chars_of(lowercase(text).as_str());
    if same_chars(&t, &chars_of("random")) {
        Some(SessionMethod::Random)
    } else if same_chars(&t, &chars_of("static")) {
        Some(SessionMethod::Static)
    } else if same_chars(&t, &chars_of("inc")) {
        Some(SessionMethod::Inc)
    } else if same_chars(&t, &chars_of("dec")) {
        Some(SessionMethod::Dec)
    } else if starts_with(&t, &chars_of("track:")) {
        proof {
            reveal_strlit("track:");
        }
        let mut rest: Vec<char> = Vec::new();
        let mut i: usize = 6;
        while i < t.len()
            invariant
                6 <= i <= t.len(),
                rest@ == t@.subrange(6, i as int),
            decreases t.len() - i,
        {
            rest.push(t[i]);
            i += 1;
        }
        assert(rest@ =~= t@.skip(6));
        match parse_decimal(&rest, u32::MAX as u64) {
            Some(n) => if n > 0 {
                Some(SessionMethod::Track(n as u32))
            } else {
                None
            },
            None => None,
        }
    } else {
        None
    }
}

/// The rule that a property's new value must meet.
#[derive(Clone, Copy, Debug, PartialEq, Eq, Structural)]
pub enum Validator {
    /// One frequency in kHz: 0 for none, or from 2000 to 21997.
    NextSessionBand,
    /// A list of frequencies in kHz, each from 118000 to 137000.
    NextSessionBands,
    /// A schedule, as the schedule grammar has it.
    SessionSchedule,
    /// The name of a session method.
    SessionMethod,
    /// Nothing: the property cannot be written.
    ReadOnly,
}

/// Why a value was refused.
#[derive(Clone, Copy, Debug, PartialEq, Eq, Structural)]
pub enum ValidationError {
    ExpectedText,
    ExpectedFrequency,
    ExpectedFrequencies,
    UnknownMethod,
    /// The frequency lies outside the range of the datalink.
    InvalidRange(u64),
    Schedule(ScheduleError),
    ReadOnly,
}

pub const HFDL_MIN_KHZ: u64 = 2000;

pub const HFDL_MAX_KHZ: u64 = 21997;

pub const VDL2_MIN_KHZ: u64 = 118000;

pub const VDL2_MAX_KHZ: u64 = 137000;

/// Where the first item of `items` stands that is no frequency of the VHF datalink, or the
/// length of `items` where all are.
pub open spec fn first_bad_band(items: Seq<ItemModel>, from: int) -> int
    decreases items.len() - from,
{
    if from >= items.len() {
        items.len() as int
    } else if items[from] matches ItemModel::Unsigned(n) && VDL2_MIN_KHZ <= n <= VDL2_MAX_KHZ {
        first_bad_band(items, from + 1)
    } else {
        from
    }
}

/// What the schedule grammar says of `text`.
pub open spec fn schedule_verdict(text: Seq<char>) -> Result<(), ScheduleError> {
    let segs = segments(text);
    if entries_upto(segs, segs.len() as int) {
        Ok(())
    } else {
        let k = choose|k: int|
            0 <= k < segs.len() && entries_upto(segs, k) && !(segment_result(segs[k]) is Entry);
        if segment_result(segs[k]) is NoEntry {
            Err(ScheduleError::BadEntry { segment: k as usize })
        } else {
            Err(ScheduleError::BadFrequency { segment: k as usize })
        }
    }
}

/// What the rule `validator` says of `value`.
pub open spec fn verdict(validator: Validator, value: ValueModel) -> Result<(), ValidationError> {
    match validator {
        Validator::NextSessionBand => match value {
            ValueModel::Unsigned(n) => if n == 0 || HFDL_MIN_KHZ <= n <= HFDL_MAX_KHZ {
                Ok(())
            } else {
                Err(ValidationError::InvalidRange(n))
            },
            _ => Err(ValidationError::ExpectedFrequency),
        },
        Validator::NextSessionBands => match value {
            ValueModel::List(items) => {
                let k = first_bad_band(items, 0);
                if k >= items.len() {
                    Ok(())
                } else {
                    match items[k] {
                        ItemModel::Unsigned(n) => Err(ValidationError::InvalidRange(n)),
                        ItemModel::Other(_) => Err(ValidationError::ExpectedFrequencies),
                    }
                }
            },
            _ => Err(ValidationError::ExpectedFrequencies),
        },
        Validator::SessionSchedule => match value {
            ValueModel::Text(s) => match schedule_verdict(s) {
                Ok(()) => Ok(()),
                Err(e) => Err(ValidationError::Schedule(e)),
            },
            _ => Err(ValidationError::ExpectedText),
        },
        Validator::SessionMethod => match value {
            ValueModel::Text(s) => if method_of(s) is Some {
                Ok(())
            } else {
                Err(ValidationError::UnknownMethod)
            },
            _ => Err(ValidationError::ExpectedText),
        },
        Validator::ReadOnly => Err(ValidationError::ReadOnly),
    }
}

/// Accepts the name of a session method.
pub fn validate_session_method(value: &Value) -> (out: Result<(), ValidationError>)
    ensures
        out == verdict(Validator::SessionMethod, value@),
{
    match value {
        Value::Text(s) => if parse_session_method(s.as_str()).is_some() {
            Ok(())
        } else {
            Err(ValidationError::UnknownMethod)
        },
        _ => Err(ValidationError::ExpectedText),
    }
}

/// Accepts the name of a session method.
pub fn valid_session_method(value: &Value) -> (out: Result<(), ValidationError>)
    ensures
        out == verdict(Validator::SessionMethod, value@),
{
    validate_session_method(value)
}

/// Accepts 0 or one frequency of the HF datalink, in kHz.
pub fn validate_next_session_band(value: &Value) -> (out: Result<(), ValidationError>)
    ensures
        out == verdict(Validator::NextSessionBand, value@),
{
    match value {
        Value::Unsigned(n) => if *n == 0 || (HFDL_MIN_KHZ <= *n && *n <= HFDL_MAX_KHZ) {
            Ok(())
        } else {
            Err(ValidationError::InvalidRange(*n))
        },
        _ => Err(ValidationError::ExpectedFrequency),
    }
}

/// Accepts a list of frequencies of the VHF datalink, in kHz.
pub fn validate_next_session_bands(value: &Value) -> (out: Result<(), ValidationError>)
    ensures
        out == verdict(Validator::NextSessionBands, value@),
{
    match value {
        Value::List(items) => {
            let ghost models = value@->List_0;
            let mut k: usize = 0;
            while k < items.len()
                invariant
                    k <= items.len(),
                    models.len() == items@.len(),
                    value@ == ValueModel::List(models),
                    forall|i: int| 0 <= i < items@.len() ==> models[i] == (#[trigger] items@[i])@,
                    first_bad_band(models, 0) == first_bad_band(models, k as int),
                decreases items.len() - k,
            {
                assert(models[k as int] == items@[k as int]@);
                match &items[k] {
                    Item::Unsigned(n) => {
                        if *n < VDL2_MIN_KHZ || *n > VDL2_MAX_KHZ {
                            return Err(ValidationError::InvalidRange(*n));
                        }
                    },
                    Item::Other(_) => {
                        return Err(ValidationError::ExpectedFrequencies);
                    },
                }
                k += 1;
            }
            Ok(())
        },
        _ => Err(ValidationError::ExpectedFrequencies),
    }
}

/// Holds a schedule to the schedule grammar.
pub fn check_schedule(text: &str) -> (out: Result<(), ScheduleError>)
    ensures
        out == schedule_verdict(text@),
{
    match parse_schedule_entries(text) {
        Ok(_) => Ok(()),
        Err(e) => {
            proof {
                let segs = segments(text@);
                let k = match e {
                    ScheduleError::BadEntry { segment } => segment as int,
                    ScheduleError::BadFrequency { segment } => segment as int,
                    _ => 0,
                };
                assert(!(segment_result(segs[k]) is Entry));
                assert(!entries_upto(segs, segs.len() as int));
                let c = choose|c: int|
                    0 <= c < segs.len() && entries_upto(segs, c) && !(segment_result(segs[c])
                        is Entry);
                assert(c == k) by {
                    if c < k {
                        assert(segment_result(segs[c]) is Entry);
                    } else if k < c {
                        assert(segment_result(segs[k]) is Entry);
                    }
                }
            }
            Err(e)
        },
    }
}

/// Accepts a schedule that the schedule grammar accepts.
pub fn valid_session_schedule(value: &Value) -> (out: Result<(), ValidationError>)
    ensures
        out == verdict(Validator::SessionSchedule, value@),
{
    match value {
        Value::Text(s) => match check_schedule(s.as_str()) {
            Ok(()) => Ok(()),
            Err(e) => Err(ValidationError::Schedule(e)),
        },
        _ => Err(ValidationError::ExpectedText),
    }
}

/// Refuses every value: the listening band is set by the receiver alone.
pub fn validate_listening_bands(value: &Value) -> (out: Result<(), ValidationError>)
    ensures
        out == verdict(Validator::ReadOnly, value@),
{
    Err(ValidationError::ReadOnly)
}

/// Holds `value` to the rule `validator`.
pub fn validate(validator: Validator, value: &Value) -> (out: Result<(), ValidationError>)
    ensures
        out == verdict(validator, value@),
{
    match validator {
        Validator::NextSessionBand => validate_next_session_band(value),
        Validator::NextSessionBands => validate_next_session_bands(value),
        Validator::SessionSchedule => valid_session_schedule(value),
        Validator::SessionMethod => validate_session_method(value),
        Validator::ReadOnly => validate_listening_bands(value),
    }
}

impl ValidationError {
    /// The error for a reader.
    pub open spec fn text(self) -> Seq<char> {
        match self {
            ValidationError::ExpectedText => "Expected string"@,
            ValidationError::ExpectedFrequency => "Expected positive kHz frequency"@,
            ValidationError::ExpectedFrequencies => "Expected a list of kHz frequencies"@,
            ValidationError::UnknownMethod => "Unknown method type"@,
            ValidationError::InvalidRange(n) => "Invalid kHz range: "@ + decimal(n as nat),
            ValidationError::Schedule(e) => e.text(),
            ValidationError::ReadOnly => "listening_bands is read-only"@,
        }
    }

    /// The error for a reader.
    pub fn message(&self) -> (out: String)
        ensures
            out@ == self.text(),
    {
        match self {
            ValidationError::ExpectedText => "Expected string".to_owned(),
            ValidationError::ExpectedFrequency => "Expected positive kHz frequency".to_owned(),
            ValidationError::ExpectedFrequencies => "Expected a list of kHz frequencies".to_owned(),
            ValidationError::UnknownMethod => "Unknown method type".to_owned(),
            ValidationError::InvalidRange(n) => {
                let mut v = chars_of("Invalid kHz range: ");
                push_decimal(&mut v, *n);
                string_of(&v)
            },
            ValidationError::Schedule(e) => e.message(),
            ValidationError::ReadOnly => "listening_bands is read-only".to_owned(),
        }
    }
}

} // verus!
