use session_launcher::probe::ConnectOutcome;
use session_launcher::probe::ProbeReply;
use session_launcher::probe::Verdict;
use session_launcher::probe::classify;
use session_launcher::probe::should_delete;

#[test]
fn acknowledgement_is_live() {
    let v = classify(&ConnectOutcome::Responded(ProbeReply::ConnectedAck));
    assert_eq!(v, Verdict::Live);
}

#[test]
fn other_reply_is_unreachable() {
    let v = classify(&ConnectOutcome::Responded(ProbeReply::Other));
    assert_eq!(v, Verdict::Unreachable);
}

#[test]
fn silent_close_is_unreachable() {
    let v = classify(&ConnectOutcome::NoResponse);
    assert_eq!(v, Verdict::Unreachable);
}

#[test]
fn refused_connection_is_stale() {
    let v = classify(&ConnectOutcome::Refused);
    assert_eq!(v, Verdict::Stale);
}

#[test]
fn other_failure_is_unreachable() {
    let v = classify(&ConnectOutcome::OtherFailure);
    assert_eq!(v, Verdict::Unreachable);
}

#[test]
fn every_outcome_gets_exactly_one_verdict() {
    let outcomes = [
        ConnectOutcome::Responded(ProbeReply::ConnectedAck),
        ConnectOutcome::Responded(ProbeReply::Other),
        ConnectOutcome::NoResponse,
        ConnectOutcome::Refused,
        ConnectOutcome::OtherFailure,
    ];
    for o in outcomes {
        let v = classify(&o);
        let live = v == Verdict::Live;
        let stale = v == Verdict::Stale;
        let unreachable = v == Verdict::Unreachable;
        let count = live as u32 + stale as u32 + unreachable as u32;
        assert_eq!(count, 1);
    }
}

#[test]
fn only_refused_deletes_the_socket() {
    assert!(should_delete(&ConnectOutcome::Refused));
    assert!(!should_delete(&ConnectOutcome::Responded(ProbeReply::ConnectedAck)));
    assert!(!should_delete(&ConnectOutcome::Responded(ProbeReply::Other)));
    assert!(!should_delete(&ConnectOutcome::NoResponse));
    assert!(!should_delete(&ConnectOutcome::OtherFailure));
}
