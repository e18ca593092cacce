use xng::control::{delete, patch, reload_failed, Authorized, Denied, Method, Token};
use xng::schedule::ScheduleError;
use xng::settings::{ModuleSettings, PatchError};
use xng::validators::{
    parse_session_method, valid_session_method, valid_session_schedule, validate,
    validate_listening_bands, validate_next_session_band, validate_next_session_bands,
    validate_session_method, SessionMethod, ValidationError, Validator,
};
use xng::value::{Item, Kind, Value};

fn text(s: &str) -> Value {
    Value::Text(s.to_string())
}

fn settings() -> ModuleSettings {
    let mut s = ModuleSettings::new(
        false,
        false,
        None,
        vec![
            ("session_timeout_sec".to_string(), Value::Unsigned(600)),
            ("session_intermission_sec".to_string(), Value::Unsigned(0)),
            ("session_timeout_sec".to_string(), Value::Unsigned(900)),
        ],
    );
    s.add_prop_with_validator(
        "next_session_band".to_string(),
        Value::Unsigned(0),
        Validator::NextSessionBand,
    );
    s.add_prop_with_validator("session_method".to_string(), text("random"), Validator::SessionMethod);
    s.add_prop_with_validator(
        "listening_band".to_string(),
        Value::from_numbers(&vec![]),
        Validator::ReadOnly,
    );
    s.set_prop("use_airframes_gs".to_string(), Value::Bool(false));
    s
}

#[test]
fn values_know_their_kind() {
    assert_eq!(Value::Null.kind(), Kind::Null);
    assert_eq!(Value::Bool(true).kind(), Kind::Bool);
    assert_eq!(Value::Unsigned(1).kind(), Kind::Number);
    assert_eq!(Value::Signed(-1).kind(), Kind::Number);
    assert_eq!(Value::Decimal("1.5".to_string()).kind(), Kind::Number);
    assert_eq!(text("x").kind(), Kind::Text);
    assert_eq!(Value::List(vec![]).kind(), Kind::List);
    assert_eq!(Value::Object("{}".to_string()).kind(), Kind::Object);
    assert_eq!(Value::Unsigned(7).as_u64(), Some(7));
    assert_eq!(Value::Signed(-7).as_u64(), None);
    assert_eq!(Value::Bool(true).as_bool(), Some(true));
    assert_eq!(text("x").as_str(), Some(&"x".to_string()));
    assert_eq!(Value::Null.as_str(), None);
    assert!(Value::List(vec![]).is_array());
    assert!(!Value::Null.is_array());
    let list = Value::List(vec![
        Item::Unsigned(10027),
        Item::Other("\"x\"".to_string()),
        Item::Unsigned(8921),
    ]);
    assert_eq!(list.numbers(), vec![10027, 8921]);
    assert_eq!(Value::Unsigned(1).numbers(), Vec::<u64>::new());
    assert_eq!(
        Value::from_numbers(&vec![1, 2]),
        Value::List(vec![Item::Unsigned(1), Item::Unsigned(2)])
    );
    assert_eq!(list.duplicate(), list);
}

#[test]
fn later_settings_replace_earlier_ones() {
    let s = settings();
    assert_eq!(s.get("session_timeout_sec"), Some(&Value::Unsigned(900)));
    assert_eq!(s.get("session_intermission_sec"), Some(&Value::Unsigned(0)));
    assert_eq!(s.get("no_such_prop"), None);
    assert_eq!(s.get_validator("session_timeout_sec"), None);
    assert_eq!(s.get_validator("next_session_band"), Some(Validator::NextSessionBand));
    assert_eq!(s.number("session_timeout_sec"), Some(900));
    assert_eq!(s.number("session_method"), None);
    assert!(!s.flag("use_airframes_gs"));
    assert!(!s.flag("no_such_prop"));
    assert_eq!(s.props.len(), 6);
}

#[test]
fn session_methods_by_name() {
    assert_eq!(parse_session_method("random"), Some(SessionMethod::Random));
    assert_eq!(parse_session_method("INC"), Some(SessionMethod::Inc));
    assert_eq!(parse_session_method("Dec"), Some(SessionMethod::Dec));
    assert_eq!(parse_session_method("static"), Some(SessionMethod::Static));
    assert_eq!(parse_session_method("track:7"), Some(SessionMethod::Track(7)));
    assert_eq!(parse_session_method("TRACK:4294967295"), Some(SessionMethod::Track(u32::MAX)));
    // Letters are brought to lower case as Unicode maps them: the Kelvin sign is a `k`.
    assert_eq!(parse_session_method("TRAC\u{212a}:5"), Some(SessionMethod::Track(5)));
    assert_eq!(parse_session_method("\u{130}NC"), None);
    for bad in ["", "track", "track:", "track:0", "track:-1", "track:4294967296", "rand", " inc"] {
        assert_eq!(parse_session_method(bad), None, "{:?}", bad);
    }
}

#[test]
fn every_validator_and_every_error() {
    assert_eq!(validate_next_session_band(&Value::Unsigned(0)), Ok(()));
    assert_eq!(validate_next_session_band(&Value::Unsigned(2000)), Ok(()));
    assert_eq!(validate_next_session_band(&Value::Unsigned(21997)), Ok(()));
    assert_eq!(
        validate_next_session_band(&Value::Unsigned(1999)),
        Err(ValidationError::InvalidRange(1999))
    );
    assert_eq!(
        validate_next_session_band(&Value::Unsigned(21998)),
        Err(ValidationError::InvalidRange(21998))
    );
    assert_eq!(
        validate_next_session_band(&Value::Signed(-5)),
        Err(ValidationError::ExpectedFrequency)
    );
    assert_eq!(validate_next_session_bands(&Value::from_numbers(&vec![])), Ok(()));
    assert_eq!(validate_next_session_bands(&Value::from_numbers(&vec![118000, 137000])), Ok(()));
    assert_eq!(
        validate_next_session_bands(&Value::from_numbers(&vec![136975, 117999, 1])),
        Err(ValidationError::InvalidRange(117999))
    );
    assert_eq!(
        validate_next_session_bands(&Value::List(vec![Item::Other("null".to_string())])),
        Err(ValidationError::ExpectedFrequencies)
    );
    assert_eq!(
        validate_next_session_bands(&Value::Unsigned(136975)),
        Err(ValidationError::ExpectedFrequencies)
    );
    assert_eq!(validate_session_method(&text("Inc")), Ok(()));
    assert_eq!(valid_session_method(&text("track:3")), Ok(()));
    assert_eq!(validate_session_method(&text("up")), Err(ValidationError::UnknownMethod));
    assert_eq!(validate_session_method(&Value::Null), Err(ValidationError::ExpectedText));
    assert_eq!(valid_session_schedule(&text("time=03:30,band_contains=6529")), Ok(()));
    assert_eq!(
        valid_session_schedule(&text("time=03:30,band_contains=6529;x")),
        Err(ValidationError::Schedule(ScheduleError::BadEntry { segment: 1 }))
    );
    assert_eq!(valid_session_schedule(&Value::Unsigned(1)), Err(ValidationError::ExpectedText));
    assert_eq!(validate_listening_bands(&Value::List(vec![])), Err(ValidationError::ReadOnly));
    assert_eq!(validate(Validator::ReadOnly, &Value::Null), Err(ValidationError::ReadOnly));
    assert_eq!(validate(Validator::SessionMethod, &text("dec")), Ok(()));
    assert_eq!(ValidationError::InvalidRange(21998).message(), "Invalid kHz range: 21998");
    assert_eq!(ValidationError::ReadOnly.message(), "listening_bands is read-only");
    assert_eq!(ValidationError::ExpectedText.message(), "Expected string");
    assert_eq!(ValidationError::UnknownMethod.message(), "Unknown method type");
    assert_eq!(
        ValidationError::ExpectedFrequency.message(),
        "Expected positive kHz frequency"
    );
}

#[test]
fn validator_gates_the_write() {
    let mut s = settings();
    let before = settings();
    assert_eq!(
        s.patch("next_session_band", Value::Unsigned(1999)),
        Err(PatchError::FailedValidation(ValidationError::InvalidRange(1999)))
    );
    assert_eq!(s, before);
    assert_eq!(
        s.patch("listening_band", Value::from_numbers(&vec![6529])),
        Err(PatchError::FailedValidation(ValidationError::ReadOnly))
    );
    assert_eq!(s, before);
    assert_eq!(s.patch("next_session_band", Value::Unsigned(6529)), Ok(()));
    assert_eq!(s.get("next_session_band"), Some(&Value::Unsigned(6529)));
    assert_eq!(s.get_validator("next_session_band"), Some(Validator::NextSessionBand));
    assert_eq!(s.get("session_method"), Some(&text("random")));
}

#[test]
fn patch_needs_the_property_and_its_kind() {
    let mut s = settings();
    let before = settings();
    assert_eq!(s.patch("no_such_prop", Value::Unsigned(1)), Err(PatchError::UnknownProp));
    assert_eq!(s.patch("session_timeout_sec", text("600")), Err(PatchError::KindMismatch));
    assert_eq!(s.patch("use_airframes_gs", Value::Unsigned(1)), Err(PatchError::KindMismatch));
    assert_eq!(s, before);
    assert_eq!(s.patch("session_timeout_sec", Value::Signed(-1)), Ok(()));
    assert_eq!(s.patch("use_airframes_gs", Value::Bool(true)), Ok(()));
    assert!(s.flag("use_airframes_gs"));
    s.set_prop("nothing".to_string(), Value::Null);
    assert_eq!(s.patch("nothing", Value::Null), Err(PatchError::KindMismatch));
}

#[test]
fn patch_over_the_interface() {
    let mut s = settings();
    let refused = patch(&mut s, "session_method", text("sideways"));
    assert_eq!(refused.status, 400);
    assert!(!refused.response.ok);
    assert!(!refused.reload);
    assert_eq!(
        refused.response.message,
        Some(
            "Provided value for prop session_method failed validation check: Unknown method type"
                .to_string()
        )
    );
    assert_eq!(s, settings());
    let unknown = patch(&mut s, "speed", Value::Unsigned(1));
    assert_eq!(unknown.status, 400);
    assert_eq!(
        unknown.response.message,
        Some("Specified property is not valid: speed".to_string())
    );
    let mismatch = patch(&mut s, "session_method", Value::Unsigned(1));
    assert_eq!(
        mismatch.response.message,
        Some("Provided value for prop session_method failed validation check: Expected string".to_string())
    );
    let kinds = patch(&mut s, "session_timeout_sec", text("1"));
    assert_eq!(
        kinds.response.message,
        Some("Provided value for prop session_timeout_sec does not match types.".to_string())
    );
    let done = patch(&mut s, "session_method", text("inc"));
    assert_eq!(done.status, 200);
    assert!(done.response.ok);
    assert!(done.reload);
    assert_eq!(done.response.message, None);
    assert_eq!(s.get("session_method"), Some(&text("inc")));
    let warned = reload_failed("channel closed");
    assert!(warned.ok);
    assert_eq!(warned.message, Some("Could not reload settings: channel closed".to_string()));
}

#[test]
fn ending_the_session_over_the_interface() {
    let sent = delete(None);
    assert_eq!(sent.status, 200);
    assert!(sent.response.ok);
    assert_eq!(sent.response.message, None);
    let failed = delete(Some("channel closed"));
    assert_eq!(failed.status, 500);
    assert!(!failed.response.ok);
    assert_eq!(failed.response.message, Some("Failed to end session: channel closed".to_string()));
}

#[test]
fn who_may_ask() {
    let open = ModuleSettings::new(false, false, None, vec![]);
    let token = "s3cret".to_string();
    let locked = ModuleSettings::new(false, false, Some(&token), vec![]);
    let frozen = ModuleSettings::new(false, true, Some(&token), vec![]);
    assert_eq!(Authorized::from_request(Method::Patch, &open, &Token::Missing), Ok(Authorized));
    assert_eq!(
        Authorized::from_request(Method::Get, &locked, &Token::Missing),
        Err(Denied::MissingToken)
    );
    assert_eq!(
        Authorized::from_request(Method::Get, &locked, &Token::Malformed),
        Err(Denied::MalformedToken)
    );
    assert_eq!(
        Authorized::from_request(Method::Get, &locked, &Token::Given("S3cret".to_string())),
        Err(Denied::InvalidToken)
    );
    assert_eq!(
        Authorized::from_request(Method::Delete, &locked, &Token::Given("s3cret".to_string())),
        Ok(Authorized)
    );
    for method in [Method::Post, Method::Patch] {
        assert_eq!(
            Authorized::from_request(method, &frozen, &Token::Given("s3cret".to_string())),
            Err(Denied::ControlDisabled)
        );
    }
    assert_eq!(
        Authorized::from_request(Method::Delete, &frozen, &Token::Given("s3cret".to_string())),
        Ok(Authorized)
    );
    assert_eq!(Denied::ControlDisabled.status(), 417);
    assert_eq!(Denied::MissingToken.status(), 401);
    assert_eq!(Denied::MalformedToken.status(), 401);
    assert_eq!(Denied::InvalidToken.status(), 401);
}
