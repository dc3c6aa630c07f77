use session_launcher::LaunchError;
use session_launcher::selector::LaunchRequest;
use session_launcher::selector::selector_step;
use session_launcher::selector::validate_session_name;

#[test]
fn plain_name_is_valid() {
    assert!(validate_session_name("editor"));
    assert!(validate_session_name("work-2"));
    assert!(validate_session_name("a"));
}

#[test]
fn empty_name_is_invalid() {
    assert!(!validate_session_name(""));
}

#[test]
fn space_in_name_is_invalid() {
    assert!(!validate_session_name("bad name"));
    assert!(!validate_session_name(" editor"));
    assert!(!validate_session_name("editor "));
}

#[test]
fn other_whitespace_is_invalid() {
    assert!(!validate_session_name("bad\tname"));
    assert!(!validate_session_name("bad\nname"));
    assert!(!validate_session_name("bad\u{00A0}name"));
    assert!(!validate_session_name("bad\u{2003}name"));
    assert!(!validate_session_name("\u{3000}"));
}

#[test]
fn valid_input_is_accepted_verbatim() {
    let r = selector_step("editor".to_string());
    let req = r.expect("a valid name must be accepted");
    assert_eq!(req.name().as_str(), "editor");
}

#[test]
fn whitespace_input_reprompts() {
    let r = selector_step("bad name".to_string());
    assert!(matches!(r, Err(LaunchError::InvalidInput)));
}

#[test]
fn empty_input_reprompts() {
    let r = selector_step(String::new());
    assert!(matches!(r, Err(LaunchError::InvalidInput)));
}

#[test]
fn a_request_only_exists_for_a_valid_name() {
    assert!(LaunchRequest::new("editor".to_string()).is_ok());
    assert!(LaunchRequest::new("two words".to_string()).is_err());
    assert!(LaunchRequest::new(String::new()).is_err());
}
