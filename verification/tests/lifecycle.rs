use cattleya::erros::{CattleyaInitError, VioletRequestErrors};
use cattleya::protocol::{send_step, SendEvent, SendVerdict};
use cattleya::request::{is_legal_header_value, Severity, VioletRequest};
use cattleya::{emit_log, init_cattleya, CattleyaState};

#[test]
fn init_twice_keeps_the_first_client() {
    let mut state = CattleyaState::new();
    assert!(!state.is_initialized());
    let first = init_cattleya(&mut state, String::from("https://first.test"), "token-one");
    assert!(matches!(first, Ok(())));
    assert!(state.is_initialized());
    let second = init_cattleya(&mut state, String::from("https://second.test"), "token-two");
    assert!(matches!(second, Err(CattleyaInitError::CattleyaEarlyInit)));
    let req = emit_log(&state, String::from("Info"), String::from("m"), String::from("t"));
    assert_eq!(req.url, "https://first.test/errors");
}

#[test]
fn init_rejects_an_illegal_token() {
    let mut state = CattleyaState::new();
    let r = init_cattleya(&mut state, String::from("https://x.test"), "bad\ntoken");
    assert!(matches!(r, Err(CattleyaInitError::InvalidTokenValue)));
    assert!(!state.is_initialized());
}

#[test]
fn first_emit_is_one_request_with_three_keys() {
    let mut state = CattleyaState::new();
    let r = init_cattleya(&mut state, String::from("https://logs.test"), "token-abc123");
    assert!(matches!(r, Ok(())));
    let req = emit_log(
        &state,
        String::from("Error"),
        String::from("it broke"),
        String::from("main.rs:7"),
    );
    assert_eq!(req.url, "https://logs.test/errors");
    let value: serde_json::Value = serde_json::from_str(req.body.as_str()).unwrap();
    let object = value.as_object().unwrap();
    assert_eq!(object.len(), 3);
    assert_eq!(object.get("error_level").unwrap().as_str().unwrap(), "Error");
    assert_eq!(object.get("message").unwrap().as_str().unwrap(), "it broke");
    assert_eq!(object.get("stack_trace").unwrap().as_str().unwrap(), "main.rs:7");
    // The mock endpoint accepts the request: one attempt, delivered.
    assert_eq!(send_step(0, SendEvent::Response(201)), SendVerdict::Delivered);
}

#[test]
fn header_value_legality() {
    assert!(is_legal_header_value(""));
    assert!(is_legal_header_value("Bearer abc123"));
    assert!(is_legal_header_value("tab\tinside"));
    assert!(is_legal_header_value("ünïcode"));
    assert!(!is_legal_header_value("new\nline"));
    assert!(!is_legal_header_value("carriage\rreturn"));
    assert!(!is_legal_header_value("delete\u{7f}char"));
    assert!(!is_legal_header_value("\u{0}"));
}

#[test]
fn client_construction_checks_the_token() {
    let bad = VioletRequest::new("a\u{7f}b", String::from("https://x.test"), None);
    assert!(matches!(bad, Err(VioletRequestErrors::InvalidHeaderValue)));
    let good = VioletRequest::new("abc", String::from("https://x.test"), None);
    assert!(good.is_ok());
}

#[test]
fn timeout_defaults_to_thirty_seconds() {
    let c = VioletRequest::new("t", String::from("https://x.test"), None).ok().unwrap();
    assert_eq!(c.timeout_ms(), 30000);
    let custom = VioletRequest::new("t", String::from("https://x.test"), Some(1500)).ok().unwrap();
    assert_eq!(custom.timeout_ms(), 1500);
    assert_eq!(custom.request_url(), "https://x.test/errors");
}

#[test]
fn error_descriptions() {
    assert_eq!(VioletRequestErrors::InvalidUrl.describe(), "InvalidURL");
    assert_eq!(
        VioletRequestErrors::FailedToSendRequest(404).describe(),
        "Failed to send request with status code 404"
    );
    assert_eq!(
        VioletRequestErrors::FailedToSendRequest(65535).describe(),
        "Failed to send request with status code 65535"
    );
    assert_eq!(
        VioletRequestErrors::FailedToSendRequest(0).describe(),
        "Failed to send request with status code 0"
    );
    assert_eq!(
        VioletRequestErrors::CreateClientError(String::from("no engine")).describe(),
        "CreateClientError: no engine"
    );
    assert_eq!(
        VioletRequestErrors::InvalidHeaderValue.describe(),
        "InvalidHeaderValue: illegal header value"
    );
}

#[test]
fn init_error_mapping() {
    assert!(matches!(
        CattleyaInitError::from_request_error(VioletRequestErrors::InvalidHeaderValue),
        CattleyaInitError::InvalidTokenValue
    ));
    assert!(matches!(
        CattleyaInitError::from_request_error(VioletRequestErrors::InvalidUrl),
        CattleyaInitError::BaseUrlInvalid
    ));
    let mapped = CattleyaInitError::from_request_error(VioletRequestErrors::CreateClientError(
        String::from("engine refused"),
    ));
    match mapped {
        CattleyaInitError::Unspecified(detail) => assert_eq!(detail, "engine refused"),
        _ => panic!("wrong mapping"),
    }
}

#[test]
fn severity_labels() {
    assert_eq!(Severity::Severe.label(), "Severe");
    assert_eq!(Severity::Error.label(), "Error");
    assert_eq!(Severity::Warning.label(), "Warning");
    assert_eq!(Severity::Info.label(), "Info");
    assert_eq!(Severity::Verbose.label(), "Verbose");
    assert_eq!(Severity::Debug.label(), "Debug");
}
