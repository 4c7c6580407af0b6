//! The process supervisor's startup state machine.
//!
//! Readiness of the daemon is a two-phase handshake: first a marker line
//! must appear on the daemon's standard-error stream, then a TCP connect
//! to the plaintext port must succeed, strictly in that order.  Either
//! phase is bounded by a deadline; on expiry the daemon is killed and
//! startup fails.  The transition function below is total over states and
//! events; the unverified driver merely feeds it what it observed and
//! performs the action it is told.

use vstd::prelude::*;

use crate::text::{matches_at, token_matches_at};

verus! {

/// The supervisor's startup states.
#[derive(PartialEq, Eq, Structural, Clone, Copy, Debug)]
pub enum SupervisorState {
    /// No daemon process exists yet.
    Unstarted,
    /// The daemon process has been launched; its standard error is being
    /// watched for the readiness marker.
    Spawned,
    /// The marker line has been seen; the plaintext port is being probed.
    ReadySignalReceived,
    /// A TCP connect to the plaintext port has succeeded.
    PortOpen,
    /// Terminal success: both readiness signals observed, in order.
    Ready,
    /// Terminal failure: startup was aborted and the process killed.
    Failed,
    /// The instance was torn down after having been ready.
    Terminated,
}

/// What the supervisor observed, or decided, between two states.
#[derive(Debug)]
pub enum StartupEvent {
    /// The daemon process was launched.
    Spawn,
    /// One line was read from the daemon's standard error.
    LogLine(String),
    /// The daemon's standard error closed without the marker line.
    LogEnded,
    /// The startup deadline expired while waiting for the marker line.
    LogDeadlineExpired,
    /// One TCP connect attempt to the plaintext port succeeded.
    PortProbeSucceeded,
    /// One TCP connect attempt failed or timed out.
    PortProbeFailed,
    /// The overall deadline expired while probing the port.
    PortDeadlineExpired,
    /// The supervisor has reported readiness to its caller.
    ReadyReported,
    /// The owner tears the instance down.
    Teardown,
}

/// What the driver must do after a transition.
#[derive(PartialEq, Eq, Structural, Clone, Copy, Debug)]
pub enum SupervisorAction {
    /// Nothing to do.
    NoAction,
    /// Keep reading standard-error lines, under the startup deadline.
    WatchLog,
    /// Attempt a short-timeout TCP connect to the plaintext port.
    ProbePort,
    /// Sleep for the fixed poll interval, then probe again.
    RetryPortProbe,
    /// Both signals have been observed: hand the instance to the caller.
    ReportReady,
    /// Forcefully terminate the daemon process.
    KillProcess,
}

/// The fixed trailing marker on the daemon's diagnostic line that
/// announces that it has begun listening.
pub open spec fn marker_seq() -> Seq<char> {
    "slapd starting"@
}

/// Whether a standard-error line announces readiness: its trailing
/// content is exactly the marker.
pub open spec fn line_is_marker(l: Seq<char>) -> bool {
    l.len() >= marker_seq().len() && matches_at(l, marker_seq(), l.len() - marker_seq().len())
}

/// Decide whether one standard-error line is the readiness marker line.
pub fn line_signals_ready(line: &str) -> (r: bool)
    ensures
        r == line_is_marker(line@),
{
    let marker = "slapd starting";
    proof {
        reveal_strlit("slapd starting");
    }
    let llen = line.unicode_len();
    let mlen = marker.unicode_len();
    if mlen > llen {
        false
    } else {
        token_matches_at(line, marker, llen - mlen, llen, mlen)
    }
}

/// The transition function: from a state and an observed event to the
/// next state and the action the driver owes.  Unexpected events leave
/// the state unchanged; `Ready` is entered only from `PortOpen`, and both
/// deadline expiries kill the process and fail startup for good.
pub open spec fn spec_step(s: SupervisorState, e: &StartupEvent) -> (SupervisorState,
    SupervisorAction) {
    match s {
        SupervisorState::Unstarted => match e {
            StartupEvent::Spawn => (SupervisorState::Spawned, SupervisorAction::WatchLog),
            _ => (s, SupervisorAction::NoAction),
        },
        SupervisorState::Spawned => match e {
            StartupEvent::LogLine(l) => if line_is_marker(l@) {
                (SupervisorState::ReadySignalReceived, SupervisorAction::ProbePort)
            } else {
                (SupervisorState::Spawned, SupervisorAction::WatchLog)
            },
            StartupEvent::LogEnded => (SupervisorState::Failed, SupervisorAction::KillProcess),
            StartupEvent::LogDeadlineExpired => (
                SupervisorState::Failed,
                SupervisorAction::KillProcess,
            ),
            _ => (s, SupervisorAction::NoAction),
        },
        SupervisorState::ReadySignalReceived => match e {
            StartupEvent::PortProbeSucceeded => (
                SupervisorState::PortOpen,
                SupervisorAction::ReportReady,
            ),
            StartupEvent::PortProbeFailed => (
                SupervisorState::ReadySignalReceived,
                SupervisorAction::RetryPortProbe,
            ),
            StartupEvent::PortDeadlineExpired => (
                SupervisorState::Failed,
                SupervisorAction::KillProcess,
            ),
            _ => (s, SupervisorAction::NoAction),
        },
        SupervisorState::PortOpen => match e {
            StartupEvent::ReadyReported => (SupervisorState::Ready, SupervisorAction::NoAction),
            _ => (s, SupervisorAction::NoAction),
        },
        SupervisorState::Ready => match e {
            StartupEvent::Teardown => (SupervisorState::Terminated, SupervisorAction::KillProcess),
            _ => (s, SupervisorAction::NoAction),
        },
        SupervisorState::Failed => (s, SupervisorAction::NoAction),
        SupervisorState::Terminated => (s, SupervisorAction::NoAction),
    }
}

/// Take one supervisor step, exactly as `spec_step` describes.
pub fn step(s: SupervisorState, e: &StartupEvent) -> (r: (SupervisorState, SupervisorAction))
    ensures
        r == spec_step(s, e),
{
    match s {
        SupervisorState::Unstarted => match e {
            StartupEvent::Spawn => (SupervisorState::Spawned, SupervisorAction::WatchLog),
            _ => (s, SupervisorAction::NoAction),
        },
        SupervisorState::Spawned => match e {
            StartupEvent::LogLine(l) => if line_signals_ready(l.as_str()) {
                (SupervisorState::ReadySignalReceived, SupervisorAction::ProbePort)
            } else {
                (SupervisorState::Spawned, SupervisorAction::WatchLog)
            },
            StartupEvent::LogEnded => (SupervisorState::Failed, SupervisorAction::KillProcess),
            StartupEvent::LogDeadlineExpired => (
                SupervisorState::Failed,
                SupervisorAction::KillProcess,
            ),
            _ => (s, SupervisorAction::NoAction),
        },
        SupervisorState::ReadySignalReceived => match e {
            StartupEvent::PortProbeSucceeded => (
                SupervisorState::PortOpen,
                SupervisorAction::ReportReady,
            ),
            StartupEvent::PortProbeFailed => (
                SupervisorState::ReadySignalReceived,
                SupervisorAction::RetryPortProbe,
            ),
            StartupEvent::PortDeadlineExpired => (
                SupervisorState::Failed,
                SupervisorAction::KillProcess,
            ),
            _ => (s, SupervisorAction::NoAction),
        },
        SupervisorState::PortOpen => match e {
            StartupEvent::ReadyReported => (SupervisorState::Ready, SupervisorAction::NoAction),
            _ => (s, SupervisorAction::NoAction),
        },
        SupervisorState::Ready => match e {
            StartupEvent::Teardown => (SupervisorState::Terminated, SupervisorAction::KillProcess),
            _ => (s, SupervisorAction::NoAction),
        },
        SupervisorState::Failed => (s, SupervisorAction::NoAction),
        SupervisorState::Terminated => (s, SupervisorAction::NoAction),
    }
}

/// A run of the supervisor: `states` is one longer than `events`, starts
/// in `Unstarted`, and each consecutive pair is one `spec_step`.
pub open spec fn is_run(states: Seq<SupervisorState>, events: Seq<StartupEvent>) -> bool {
    &&& states.len() == events.len() + 1
    &&& states[0] is Unstarted
    &&& forall|i: int|
        0 <= i < events.len() ==> states[i + 1] == #[trigger] spec_step(states[i], &events[i]).0
}

proof fn lemma_portopen_before_ready(states: Seq<SupervisorState>, events: Seq<StartupEvent>, n: int)
    requires
        is_run(states, events),
        0 <= n < states.len(),
        states[n] is Ready,
    ensures
        exists|k: int| 0 <= k < n && states[k] is PortOpen,
    decreases n,
{
    assert(n >= 1);
    assert(states[n] == spec_step(states[n - 1], &events[n - 1]).0);
    if states[n - 1] is PortOpen {
        assert(0 <= n - 1 < n && states[n - 1] is PortOpen);
    } else {
        assert(states[n - 1] is Ready);
        lemma_portopen_before_ready(states, events, n - 1);
        let k = choose|k: int| 0 <= k < n - 1 && states[k] is PortOpen;
        assert(0 <= k < n && states[k] is PortOpen);
    }
}

proof fn lemma_signal_before_portopen(
    states: Seq<SupervisorState>,
    events: Seq<StartupEvent>,
    n: int,
)
    requires
        is_run(states, events),
        0 <= n < states.len(),
        states[n] is PortOpen,
    ensures
        exists|j: int| 0 <= j < n && states[j] is ReadySignalReceived,
    decreases n,
{
    assert(n >= 1);
    assert(states[n] == spec_step(states[n - 1], &events[n - 1]).0);
    if states[n - 1] is ReadySignalReceived {
        assert(0 <= n - 1 < n && states[n - 1] is ReadySignalReceived);
    } else {
        assert(states[n - 1] is PortOpen);
        lemma_signal_before_portopen(states, events, n - 1);
        let j = choose|j: int| 0 <= j < n - 1 && states[j] is ReadySignalReceived;
        assert(0 <= j < n && states[j] is ReadySignalReceived);
    }
}

proof fn lemma_spawned_before_signal(
    states: Seq<SupervisorState>,
    events: Seq<StartupEvent>,
    n: int,
)
    requires
        is_run(states, events),
        0 <= n < states.len(),
        states[n] is ReadySignalReceived,
    ensures
        exists|i: int| 0 <= i < n && states[i] is Spawned,
    decreases n,
{
    assert(n >= 1);
    assert(states[n] == spec_step(states[n - 1], &events[n - 1]).0);
    if states[n - 1] is Spawned {
        assert(0 <= n - 1 < n && states[n - 1] is Spawned);
    } else {
        assert(states[n - 1] is ReadySignalReceived);
        lemma_spawned_before_signal(states, events, n - 1);
        let i = choose|i: int| 0 <= i < n - 1 && states[i] is Spawned;
        assert(0 <= i < n && states[i] is Spawned);
    }
}

/// Readiness is never reported early: in any run, a `Ready` state is
/// preceded by a `Spawned` state, a `ReadySignalReceived` state and a
/// `PortOpen` state, in that order.
pub proof fn lemma_ready_needs_ordered_handshake(
    states: Seq<SupervisorState>,
    events: Seq<StartupEvent>,
    n: int,
)
    requires
        is_run(states, events),
        0 <= n < states.len(),
        states[n] is Ready,
    ensures
        exists|i: int, j: int, k: int|
            0 <= i < j < k < n && states[i] is Spawned && states[j] is ReadySignalReceived
                && states[k] is PortOpen,
{
    lemma_portopen_before_ready(states, events, n);
    let k = choose|k: int| 0 <= k < n && states[k] is PortOpen;
    lemma_signal_before_portopen(states, events, k);
    let j = choose|j: int| 0 <= j < k && states[j] is ReadySignalReceived;
    lemma_spawned_before_signal(states, events, j);
    let i = choose|i: int| 0 <= i < j && states[i] is Spawned;
    assert(0 <= i < j < k < n && states[i] is Spawned && states[j] is ReadySignalReceived
        && states[k] is PortOpen);
}

/// A startup deadline that expires before the marker line kills the
/// process and fails startup for good: the failure is terminal, and a
/// terminal failure never becomes `Ready`.
pub proof fn lemma_deadline_kills_and_stays_failed(e: &StartupEvent)
    ensures
        spec_step(SupervisorState::Spawned, &StartupEvent::LogDeadlineExpired) == (
            SupervisorState::Failed,
            SupervisorAction::KillProcess,
        ),
        spec_step(SupervisorState::Failed, e) == (
            SupervisorState::Failed,
            SupervisorAction::NoAction,
        ),
{
}

} // verus!
