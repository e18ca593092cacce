//! The control plane: who may ask, and what is answered.

use vstd::prelude::*;
use crate::settings::{patch_verdict, ModuleSettings, PatchError};
use crate::text::{chars_of, string_of, text_eq};
use crate::value::Value;

verus! {

/// Proof that a request may be served.
#[derive(Clone, Copy, Debug, PartialEq, Eq, Structural)]
pub struct Authorized;

/// What a request asks to do.
#[derive(Clone, Copy, Debug, PartialEq, Eq, Structural)]
pub enum Method {
    Get,
    Post,
    Patch,
    Delete,
    Other,
}

/// The `Authorization` header of a request.
#[derive(Debug, PartialEq, Eq)]
pub enum Token {
    /// The request has no such header.
    Missing,
    /// The header holds something that is no text.
    Malformed,
    Given(String),
}

/// Why a request is turned away.
#[derive(Clone, Copy, Debug, PartialEq, Eq, Structural)]
pub enum Denied {
    /// The request would change the receiver, and control over the interface is off.
    ControlDisabled,
    MissingToken,
    MalformedToken,
    InvalidToken,
}

impl Denied {
    /// The status of the answer: 417 where control is off, and 401 for every fault of the
    /// token.
    pub open spec fn code(self) -> u16 {
        match self {
            Denied::ControlDisabled => 417,
            _ => 401,
        }
    }

    pub fn status(&self) -> (out: u16)
        ensures
            out == self.code(),
    {
        match self {
            Denied::ControlDisabled => 417,
            _ => 401,
        }
    }
}

/// Whether a request changes the receiver.
pub open spec fn changes(method: Method) -> bool {
    method == Method::Post || method == Method::Patch
}

/// Whether a request is served. A request that changes the receiver is turned away where
/// control over the interface is off. Where the settings hold a token, the request must
/// carry the same.
pub open spec fn admitted(
    method: Method,
    disable_api_control: bool,
    api_token: Option<Seq<char>>,
    given: Token,
) -> Result<Authorized, Denied> {
    if changes(method) && disable_api_control {
        Err(Denied::ControlDisabled)
    } else {
        match api_token {
            None => Ok(Authorized),
            Some(wanted) => match given {
                Token::Missing => Err(Denied::MissingToken),
                Token::Malformed => Err(Denied::MalformedToken),
                Token::Given(t) => if t@ == wanted {
                    Ok(Authorized)
                } else {
                    Err(Denied::InvalidToken)
                },
            },
        }
    }
}

impl Authorized {
    /// Decides whether a request is served.
    pub fn from_request(method: Method, settings: &ModuleSettings, given: &Token) -> (out: Result<
        Authorized,
        Denied,
    >)
        ensures
            out == admitted(
                method,
                settings.disable_api_control,
                match settings.api_token {
                    Some(t) => Some(t@),
                    None => None,
                },
                *given,
            ),
    {
        if (method == Method::Post || method == Method::Patch) && settings.disable_api_control {
            return Err(Denied::ControlDisabled);
        }
        let wanted = match &settings.api_token {
            Some(t) => t,
            None => {
                return Ok(Authorized);
            },
        };
        match given {
            Token::Missing => Err(Denied::MissingToken),
            Token::Malformed => Err(Denied::MalformedToken),
            Token::Given(t) => if text_eq(t.as_str(), wanted.as_str()) {
                Ok(Authorized)
            } else {
                Err(Denied::InvalidToken)
            },
        }
    }
}

/// The answer to a request that changes a property.
#[derive(Debug, PartialEq, Eq)]
pub struct PatchResponse {
    pub ok: bool,
    pub message: Option<String>,
}

/// The answer to a request that ends the session.
#[derive(Debug, PartialEq, Eq)]
pub struct DeleteResponse {
    pub ok: bool,
    pub message: Option<String>,
}

/// The answer of a service of the aggregator.
#[derive(Debug, PartialEq, Eq)]
pub struct ServerServiceResponse {
    pub ok: bool,
    pub message: Option<String>,
}

/// The message that goes with a refused write to the property `prop`.
pub open spec fn refusal(e: PatchError, prop: Seq<char>) -> Seq<char> {
    match e {
        PatchError::FailedValidation(v) => "Provided value for prop "@ + prop
            + " failed validation check: "@ + v.text(),
        PatchError::UnknownProp => "Specified property is not valid: "@ + prop,
        PatchError::KindMismatch => "Provided value for prop "@ + prop + " does not match types."@,
    }
}

fn refusal_text(e: &PatchError, prop: &str) -> (out: String)
    ensures
        out@ == refusal(*e, prop@),
{
    match e {
        PatchError::FailedValidation(v) => {
            let mut t = chars_of("Provided value for prop ");
            let mut a = chars_of(prop);
            t.append(&mut a);
            let mut b = chars_of(" failed validation check: ");
            t.append(&mut b);
            let mut c = chars_of(v.message().as_str());
            t.append(&mut c);
            assert(t@ =~= refusal(*e, prop@));
            string_of(&t)
        },
        PatchError::UnknownProp => {
            let mut t = chars_of("Specified property is not valid: ");
            let mut a = chars_of(prop);
            t.append(&mut a);
            assert(t@ =~= refusal(*e, prop@));
            string_of(&t)
        },
        PatchError::KindMismatch => {
            let mut t = chars_of("Provided value for prop ");
            let mut a = chars_of(prop);
            t.append(&mut a);
            let mut b = chars_of(" does not match types.");
            t.append(&mut b);
            assert(t@ =~= refusal(*e, prop@));
            string_of(&t)
        },
    }
}

/// What a request to change a property led to: the status of the answer, the answer, and
/// whether the orchestrator is to be told to take its settings anew.
#[derive(Debug, PartialEq, Eq)]
pub struct PatchOutcome {
    pub status: u16,
    pub response: PatchResponse,
    pub reload: bool,
}

/// Serves a request to change the property `prop` to `value`. A refused write is answered
/// with status 400 and the reason, and leaves the settings as they were; a write that was
/// made is answered with status 200 and asks for a reload.
pub fn patch(settings: &mut ModuleSettings, prop: &str, value: Value) -> (out: PatchOutcome)
    requires
        old(settings).wf(),
    ensures
        final(settings).wf(),
        match patch_verdict(old(settings).props@, prop@, value@) {
            Err(e) => {
                &&& *final(settings) == *old(settings)
                &&& out.status == 400
                &&& !out.response.ok
                &&& out.response.message matches Some(m) && m@ == refusal(e, prop@)
                &&& !out.reload
            },
            Ok(()) => {
                &&& crate::settings::value_of(final(settings).props@, prop@) == Some(value@)
                &&& forall|k: Seq<char>|
                    k != prop@ ==> crate::settings::value_of(final(settings).props@, k)
                        == crate::settings::value_of(old(settings).props@, k)
                &&& forall|k: Seq<char>|
                    crate::settings::validator_of(final(settings).props@, k)
                        == crate::settings::validator_of(old(settings).props@, k)
                &&& final(settings).stations == old(settings).stations
                &&& out.status == 200
                &&& out.response.ok
                &&& out.response.message is None
                &&& out.reload
            },
        },
{
    match settings.patch(prop, value) {
        Ok(()) => PatchOutcome {
            status: 200,
            response: PatchResponse { ok: true, message: None },
            reload: true,
        },
        Err(e) => PatchOutcome {
            status: 400,
            response: PatchResponse { ok: false, message: Some(refusal_text(&e, prop)) },
            reload: false,
        },
    }
}

/// The answer to a change that was made when the orchestrator could not be told of it: the
/// change stands, and the answer says what went wrong.
pub fn reload_failed(fault: &str) -> (out: PatchResponse)
    ensures
        out.ok,
        out.message matches Some(m) && m@ == "Could not reload settings: "@ + fault@,
{
    let mut t = chars_of("Could not reload settings: ");
    let mut a = chars_of(fault);
    t.append(&mut a);
    assert(t@ =~= "Could not reload settings: "@ + fault@);
    PatchResponse { ok: true, message: Some(string_of(&t)) }
}

/// What a request to end the session led to.
#[derive(Debug, PartialEq, Eq)]
pub struct DeleteOutcome {
    pub status: u16,
    pub response: DeleteResponse,
}

/// The answer to a request to end the session: status 200 where the orchestrator was told,
/// and status 500 with what went wrong where it could not be.
pub fn delete(fault: Option<&str>) -> (out: DeleteOutcome)
    ensures
        fault is None ==> out.status == 200 && out.response.ok && out.response.message is None,
        fault matches Some(f) ==> out.status == 500 && !out.response.ok && (
        out.response.message matches Some(m) && m@ == "Failed to end session: "@ + f@),
{
    match fault {
        None => DeleteOutcome { status: 200, response: DeleteResponse { ok: true, message: None } },
        Some(f) => {
            let mut t = chars_of("Failed to end session: ");
            let mut a = chars_of(f);
            t.append(&mut a);
            assert(t@ =~= "Failed to end session: "@ + f@);
            DeleteOutcome {
                status: 500,
                response: DeleteResponse { ok: false, message: Some(string_of(&t)) },
            }
        },
    }
}

/// A refused write to a gated property leaves every property as it was.
pub proof fn lemma_validator_gate(props: Seq<crate::settings::Prop>, prop: Seq<char>, value: crate::value::ValueModel)
    requires
        crate::settings::validator_of(props, prop) matches Some(v) && crate::validators::verdict(
            v,
            value,
        ) is Err,
    ensures
        patch_verdict(props, prop, value) is Err,
        patch_verdict(props, prop, value)->Err_0 is FailedValidation,
{
}

} // verus!
