use raw_socket::{outcome_at, RawSocketError, Stage};
use std::io::{Error, ErrorKind};

#[test]
fn outcome_passes_a_success_through() {
    assert_eq!(outcome_at(Stage::Creation, Ok(17u8)).unwrap(), 17);
    assert_eq!(outcome_at(Stage::Send, Ok(0usize)).unwrap(), 0);
    assert!(outcome_at(Stage::Bind, Ok(())).is_ok());
}

#[test]
fn outcome_reports_a_refused_creation() {
    let failure = outcome_at::<()>(Stage::Creation, Err(Error::from_raw_os_error(1))).unwrap_err();
    assert!(matches!(failure, RawSocketError::SocketCreationFailure(_)));
    assert_eq!(failure.stage(), Some(Stage::Creation));
    assert_eq!(failure.cause().unwrap().raw_os_error(), Some(1));
}

#[test]
fn outcome_reports_a_refused_configuration() {
    let failure =
        outcome_at::<()>(Stage::Configuration, Err(Error::from_raw_os_error(9))).unwrap_err();
    assert!(matches!(failure, RawSocketError::SocketConfigFailure(_)));
    assert_eq!(failure.stage(), Some(Stage::Configuration));
    assert_eq!(failure.cause().unwrap().raw_os_error(), Some(9));
}

#[test]
fn outcome_reports_a_refused_bind() {
    let failure = outcome_at::<()>(Stage::Bind, Err(Error::from_raw_os_error(98))).unwrap_err();
    assert!(matches!(failure, RawSocketError::BindFailure(_)));
    assert_eq!(failure.stage(), Some(Stage::Bind));
    assert_eq!(failure.cause().unwrap().raw_os_error(), Some(98));
}

#[test]
fn outcome_reports_a_refused_send() {
    let failure = outcome_at::<usize>(Stage::Send, Err(Error::from_raw_os_error(101))).unwrap_err();
    assert!(matches!(failure, RawSocketError::SendFailure(_)));
    assert_eq!(failure.stage(), Some(Stage::Send));
    assert_eq!(failure.cause().unwrap().raw_os_error(), Some(101));
}

#[test]
fn outcome_keeps_an_error_that_has_no_system_code() {
    let cause = Error::new(ErrorKind::TimedOut, "engine gave up");
    let failure = outcome_at::<usize>(Stage::Send, Err(cause)).unwrap_err();
    let kept = failure.cause().unwrap();
    assert_eq!(kept.kind(), ErrorKind::TimedOut);
    assert_eq!(kept.raw_os_error(), None);
    assert_eq!(kept.to_string(), "engine gave up");
}

#[test]
fn at_stage_builds_the_failure_of_that_stage() {
    let made = RawSocketError::at_stage(Stage::Bind, Error::from_raw_os_error(13));
    assert!(matches!(made, RawSocketError::BindFailure(_)));
    assert_eq!(made.cause().unwrap().raw_os_error(), Some(13));
}

#[test]
fn a_failed_resolution_has_no_stage_and_no_cause() {
    let failure = RawSocketError::AddressResolutionFailure;
    assert_eq!(failure.stage(), None);
    assert!(failure.cause().is_none());
}

#[test]
fn a_failed_resolution_says_empty_address() {
    assert_eq!(RawSocketError::AddressResolutionFailure.message(), "empty address");
}

#[test]
fn a_refusal_says_what_the_system_said() {
    let text = Error::from_raw_os_error(13).to_string();
    let failure = RawSocketError::at_stage(Stage::Creation, Error::from_raw_os_error(13));
    assert_eq!(failure.message(), text);
    assert_ne!(failure.message(), "empty address");
}
