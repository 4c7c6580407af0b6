use ldap_test_server::supervisor::{
    line_signals_ready, step, StartupEvent, SupervisorAction, SupervisorState,
};

#[test]
fn marker_line_is_recognized_by_trailing_content() {
    assert!(line_signals_ready("slapd starting"));
    assert!(line_signals_ready("67890abc.123 slapd starting"));
    assert!(!line_signals_ready("slapd starting up"));
    assert!(!line_signals_ready("slapd start"));
    assert!(!line_signals_ready(""));
}

#[test]
fn readiness_requires_both_signals_in_order() {
    let s = SupervisorState::Unstarted;

    let (s, a) = step(s, &StartupEvent::Spawn);
    assert_eq!(s, SupervisorState::Spawned);
    assert_eq!(a, SupervisorAction::WatchLog);

    // an ordinary diagnostic line keeps the supervisor watching
    let (s, a) = step(s, &StartupEvent::LogLine(String::from("reading config")));
    assert_eq!(s, SupervisorState::Spawned);
    assert_eq!(a, SupervisorAction::WatchLog);

    // a port probe before the marker line changes nothing
    let (s, a) = step(s, &StartupEvent::PortProbeSucceeded);
    assert_eq!(s, SupervisorState::Spawned);
    assert_eq!(a, SupervisorAction::NoAction);

    // the marker line moves to the port-probing phase
    let (s, a) = step(s, &StartupEvent::LogLine(String::from("5f3e slapd starting")));
    assert_eq!(s, SupervisorState::ReadySignalReceived);
    assert_eq!(a, SupervisorAction::ProbePort);

    // failed probes retry after a pause
    let (s, a) = step(s, &StartupEvent::PortProbeFailed);
    assert_eq!(s, SupervisorState::ReadySignalReceived);
    assert_eq!(a, SupervisorAction::RetryPortProbe);

    let (s, a) = step(s, &StartupEvent::PortProbeSucceeded);
    assert_eq!(s, SupervisorState::PortOpen);
    assert_eq!(a, SupervisorAction::ReportReady);

    let (s, a) = step(s, &StartupEvent::ReadyReported);
    assert_eq!(s, SupervisorState::Ready);
    assert_eq!(a, SupervisorAction::NoAction);

    // teardown kills the process
    let (s, a) = step(s, &StartupEvent::Teardown);
    assert_eq!(s, SupervisorState::Terminated);
    assert_eq!(a, SupervisorAction::KillProcess);
}

#[test]
fn log_deadline_kills_and_fails_for_good() {
    let (s, a) = step(SupervisorState::Unstarted, &StartupEvent::Spawn);
    assert_eq!(a, SupervisorAction::WatchLog);
    let (s, a) = step(s, &StartupEvent::LogDeadlineExpired);
    assert_eq!(s, SupervisorState::Failed);
    assert_eq!(a, SupervisorAction::KillProcess);

    // no later event resurrects a failed startup
    let (s, a) = step(s, &StartupEvent::PortProbeSucceeded);
    assert_eq!(s, SupervisorState::Failed);
    assert_eq!(a, SupervisorAction::NoAction);
    let (s, _) = step(s, &StartupEvent::LogLine(String::from("x slapd starting")));
    assert_eq!(s, SupervisorState::Failed);
    let (s, _) = step(s, &StartupEvent::ReadyReported);
    assert_eq!(s, SupervisorState::Failed);
}

#[test]
fn log_stream_ending_without_marker_fails() {
    let (s, _) = step(SupervisorState::Unstarted, &StartupEvent::Spawn);
    let (s, a) = step(s, &StartupEvent::LogEnded);
    assert_eq!(s, SupervisorState::Failed);
    assert_eq!(a, SupervisorAction::KillProcess);
}

#[test]
fn port_deadline_kills_and_fails() {
    let (s, _) = step(SupervisorState::Unstarted, &StartupEvent::Spawn);
    let (s, _) = step(s, &StartupEvent::LogLine(String::from("slapd starting")));
    assert_eq!(s, SupervisorState::ReadySignalReceived);
    let (s, a) = step(s, &StartupEvent::PortDeadlineExpired);
    assert_eq!(s, SupervisorState::Failed);
    assert_eq!(a, SupervisorAction::KillProcess);
}
