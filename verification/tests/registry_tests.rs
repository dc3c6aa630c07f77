use session_launcher::LaunchError;
use session_launcher::probe::ConnectOutcome;
use session_launcher::probe::ProbeReply;
use session_launcher::probe::Verdict;
use session_launcher::registry::Registry;
use session_launcher::registry::ScanEntry;
use session_launcher::registry::ScanOutcome;
use session_launcher::registry::probe_entry;
use session_launcher::registry::resolve_sessions;
use session_launcher::registry::try_joining;

fn entry(name: &str, is_socket: bool, outcome: ConnectOutcome) -> ScanEntry {
    ScanEntry { name: name.to_string(), is_socket, outcome }
}

#[test]
fn missing_directory_is_no_sessions() {
    let r = resolve_sessions(&ScanOutcome::Missing);
    assert_eq!(r, Ok(Vec::new()));
}

#[test]
fn unreadable_directory_is_fatal() {
    let r = resolve_sessions(&ScanOutcome::Failed);
    assert_eq!(r, Err(LaunchError::RegistryUnavailable));
}

#[test]
fn refused_socket_is_excluded() {
    let scan = ScanOutcome::Listed(vec![entry("work", true, ConnectOutcome::Refused)]);
    let r = resolve_sessions(&scan);
    assert_eq!(r, Ok(Vec::new()));
}

#[test]
fn acknowledged_socket_is_listed() {
    let scan = ScanOutcome::Listed(vec![entry(
        "editor",
        true,
        ConnectOutcome::Responded(ProbeReply::ConnectedAck),
    )]);
    let r = resolve_sessions(&scan);
    assert_eq!(r, Ok(vec!["editor".to_string()]));
}

#[test]
fn non_socket_entries_are_skipped() {
    let scan = ScanOutcome::Listed(vec![
        entry("notes.txt", false, ConnectOutcome::Responded(ProbeReply::ConnectedAck)),
        entry("editor", true, ConnectOutcome::Responded(ProbeReply::ConnectedAck)),
    ]);
    let r = resolve_sessions(&scan);
    assert_eq!(r, Ok(vec!["editor".to_string()]));
}

#[test]
fn enumeration_order_is_kept() {
    let scan = ScanOutcome::Listed(vec![
        entry("beta", true, ConnectOutcome::Responded(ProbeReply::ConnectedAck)),
        entry("work", true, ConnectOutcome::Refused),
        entry("alpha", true, ConnectOutcome::Responded(ProbeReply::ConnectedAck)),
        entry("idle", true, ConnectOutcome::NoResponse),
    ]);
    let r = resolve_sessions(&scan);
    assert_eq!(r, Ok(vec!["beta".to_string(), "alpha".to_string()]));
}

#[test]
fn stale_probe_removes_the_entry() {
    let mut reg = Registry { names: vec!["work".to_string(), "editor".to_string()] };
    let v = probe_entry(&mut reg, &"work".to_string(), &ConnectOutcome::Refused);
    assert_eq!(v, Verdict::Stale);
    assert_eq!(reg.names, vec!["editor".to_string()]);
}

#[test]
fn second_probe_of_a_cleaned_path_is_harmless() {
    let mut reg = Registry { names: vec!["work".to_string()] };
    let name = "work".to_string();
    let first = probe_entry(&mut reg, &name, &ConnectOutcome::Refused);
    assert_eq!(first, Verdict::Stale);
    assert_eq!(reg.names, Vec::<String>::new());
    let second = probe_entry(&mut reg, &name, &ConnectOutcome::Refused);
    assert_eq!(second, Verdict::Stale);
    assert_eq!(reg.names, Vec::<String>::new());
}

#[test]
fn ambiguous_failure_deletes_nothing() {
    let mut reg = Registry { names: vec!["work".to_string()] };
    let v = probe_entry(&mut reg, &"work".to_string(), &ConnectOutcome::OtherFailure);
    assert_eq!(v, Verdict::Unreachable);
    assert_eq!(reg.names, vec!["work".to_string()]);
}

#[test]
fn live_probe_deletes_nothing() {
    let mut reg = Registry { names: vec!["editor".to_string()] };
    let v = probe_entry(
        &mut reg,
        &"editor".to_string(),
        &ConnectOutcome::Responded(ProbeReply::ConnectedAck),
    );
    assert_eq!(v, Verdict::Live);
    assert_eq!(reg.names, vec!["editor".to_string()]);
}

#[test]
fn joining_a_live_session_succeeds() {
    let sessions = vec!["editor".to_string(), "work".to_string()];
    assert_eq!(try_joining(&"editor".to_string(), &sessions), Ok(()));
}

#[test]
fn joining_an_absent_session_is_not_found() {
    let sessions = vec!["editor".to_string()];
    let r = try_joining(&"scratch".to_string(), &sessions);
    assert_eq!(r, Err(LaunchError::SessionNotFound));
}

#[test]
fn joining_among_no_sessions_is_not_found() {
    let r = try_joining(&"editor".to_string(), &Vec::new());
    assert_eq!(r, Err(LaunchError::SessionNotFound));
}
