use subtitle_bridge::pending::PropertyValue;
use subtitle_bridge::startup::{
    check_pid, pid_from_response, GuardEvent, GuardStep, QueryFailure, StartupError, StartupGuard,
    PID_QUERY_TIMEOUT_SECS,
};

fn number(unsigned: Option<u64>, integer: Option<i64>) -> Option<PropertyValue> {
    Some(PropertyValue { unsigned, integer, seconds: None, text: None })
}

fn success() -> Option<String> {
    Some("success".to_string())
}

fn answered(pid: u64) -> GuardEvent {
    GuardEvent::Answered { error: success(), data: number(Some(pid), i64::try_from(pid).ok()) }
}

fn failed() -> GuardEvent {
    GuardEvent::Failed { failure: QueryFailure::TimedOut }
}

fn expect_query(step: GuardStep) -> (String, u64, u64) {
    match step {
        GuardStep::Query { command, request_id, timeout_secs } => (command, request_id, timeout_secs),
        _ => panic!("no query"),
    }
}

fn expect_abort(step: GuardStep) -> StartupError {
    match step {
        GuardStep::Abort { error } => error,
        _ => panic!("no abort"),
    }
}

#[test]
fn pid_mismatch_aborts_startup() {
    let mut guard = StartupGuard::new(Some(100));
    expect_query(guard.on_event(GuardEvent::Begin));
    let error = expect_abort(guard.on_event(answered(200)));
    assert_eq!(error, StartupError::PidMismatch { expected: 100, actual: 200 });
    assert_eq!(
        error.message("/tmp/mpv.sock"),
        "MPV_IPC_PID_MISMATCH expected=100 actual=200 socket=/tmp/mpv.sock"
    );
    assert!(guard.is_finished());
    assert!(matches!(guard.on_event(answered(100)), GuardStep::Idle));
    assert!(matches!(guard.on_event(GuardEvent::Begin), GuardStep::Idle));
}

#[test]
fn matching_pid_lets_startup_proceed() {
    let mut guard = StartupGuard::new(Some(4242));
    assert!(!guard.is_finished());
    let (command, request_id, timeout) = expect_query(guard.on_event(GuardEvent::Begin));
    assert_eq!(command, "{\"command\":[\"get_property\",\"pid\"],\"request_id\":1}\n");
    assert_eq!(request_id, 1);
    assert_eq!(timeout, 1);
    assert_eq!(PID_QUERY_TIMEOUT_SECS, 1);
    assert!(!guard.is_finished());
    assert!(matches!(guard.on_event(answered(4242)), GuardStep::Proceed));
    assert!(guard.is_finished());
}

#[test]
fn no_expected_pid_asks_nothing() {
    let mut guard = StartupGuard::new(None);
    assert!(matches!(guard.on_event(GuardEvent::Begin), GuardStep::Proceed));
    assert!(guard.is_finished());
}

#[test]
fn failed_first_query_falls_back_once() {
    let mut guard = StartupGuard::new(Some(7));
    expect_query(guard.on_event(GuardEvent::Begin));
    let (command, request_id, timeout) = expect_query(guard.on_event(failed()));
    assert_eq!(command, "{\"command\":[\"get_property\",\"process-id\"],\"request_id\":2}\n");
    assert_eq!(request_id, 2);
    assert_eq!(timeout, 1);
    assert!(matches!(guard.on_event(answered(7)), GuardStep::Proceed));
}

#[test]
fn two_failed_queries_abort() {
    for failure in [QueryFailure::TimedOut, QueryFailure::ConnectionClosed, QueryFailure::Io] {
        let mut guard = StartupGuard::new(Some(7));
        expect_query(guard.on_event(GuardEvent::Begin));
        expect_query(guard.on_event(GuardEvent::Failed { failure: QueryFailure::TimedOut }));
        let error = expect_abort(guard.on_event(GuardEvent::Failed { failure }));
        assert_eq!(error, StartupError::QueryFailed { failure });
        assert!(guard.is_finished());
    }
}

#[test]
fn error_status_aborts_without_fallback() {
    let mut guard = StartupGuard::new(Some(7));
    expect_query(guard.on_event(GuardEvent::Begin));
    let event = GuardEvent::Answered {
        error: Some("property not found".to_string()),
        data: number(Some(7), Some(7)),
    };
    let error = expect_abort(guard.on_event(event));
    assert_eq!(error, StartupError::PlayerError { status: "property not found".to_string() });
    assert!(guard.is_finished());
}

#[test]
fn events_out_of_turn_are_ignored() {
    let mut guard = StartupGuard::new(Some(7));
    assert!(matches!(guard.on_event(answered(7)), GuardStep::Idle));
    assert!(matches!(guard.on_event(failed()), GuardStep::Idle));
    assert!(!guard.is_finished());
    expect_query(guard.on_event(GuardEvent::Begin));
    assert!(matches!(guard.on_event(GuardEvent::Begin), GuardStep::Idle));
    assert!(matches!(guard.on_event(answered(7)), GuardStep::Proceed));
}

#[test]
fn pid_is_read_from_a_successful_answer() {
    assert_eq!(pid_from_response(&success(), &number(Some(4242), Some(4242))), Ok(4242));
    assert_eq!(pid_from_response(&success(), &number(Some(0), Some(0))), Ok(0));
    assert_eq!(pid_from_response(&success(), &number(None, Some(17))), Ok(17));
    assert_eq!(
        pid_from_response(&success(), &number(Some(u32::MAX as u64), None)),
        Ok(u32::MAX)
    );
}

#[test]
fn pid_errors_name_their_cause() {
    assert_eq!(
        pid_from_response(&None, &number(Some(1), Some(1))),
        Err(StartupError::PlayerError { status: String::new() })
    );
    assert_eq!(
        pid_from_response(&Some("Success".to_string()), &number(Some(1), Some(1))),
        Err(StartupError::PlayerError { status: "Success".to_string() })
    );
    assert_eq!(pid_from_response(&success(), &None), Err(StartupError::NonIntegerPid));
    assert_eq!(pid_from_response(&success(), &number(None, None)), Err(StartupError::NonIntegerPid));
    assert_eq!(
        pid_from_response(&success(), &number(None, Some(-5))),
        Err(StartupError::NonIntegerPid)
    );
    assert_eq!(
        pid_from_response(&success(), &number(Some(u32::MAX as u64 + 1), None)),
        Err(StartupError::PidOutOfRange)
    );
    assert_eq!(
        pid_from_response(&success(), &number(Some(u64::MAX), None)),
        Err(StartupError::PidOutOfRange)
    );
}

#[test]
fn pid_check_compares() {
    assert_eq!(check_pid(5, 5), Ok(()));
    assert_eq!(check_pid(5, 6), Err(StartupError::PidMismatch { expected: 5, actual: 6 }));
}

#[test]
fn error_messages_are_descriptive() {
    assert_eq!(
        StartupError::QueryFailed { failure: QueryFailure::TimedOut }.message("s"),
        "Timed out querying mpv property 'process-id'"
    );
    assert_eq!(
        StartupError::QueryFailed { failure: QueryFailure::ConnectionClosed }.message("s"),
        "mpv IPC closed while waiting for property response"
    );
    assert_eq!(
        StartupError::QueryFailed { failure: QueryFailure::Io }.message("s"),
        "mpv IPC failed while waiting for property response"
    );
    assert_eq!(
        StartupError::PlayerError { status: "property unavailable".to_string() }.message("s"),
        "mpv returned error querying PID: property unavailable"
    );
    assert_eq!(StartupError::NonIntegerPid.message("s"), "mpv returned non-integer PID");
    assert_eq!(StartupError::PidOutOfRange.message("s"), "mpv PID out of range");
    assert_eq!(
        StartupError::PidMismatch { expected: 0, actual: u32::MAX }.message(""),
        "MPV_IPC_PID_MISMATCH expected=0 actual=4294967295 socket="
    );
}
