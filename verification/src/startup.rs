//! The startup guard: before any client is served, the player that
//! answers on the connection must be the process that was expected.

use crate::pending::{value_view, PropertyValue, PropertyValueView};
use crate::player::{get_property_command, get_property_line};
use crate::subtitle::text_view;
use crate::text::{decimal, push_decimal, same_text};
use vstd::prelude::*;
use vstd::string::*;

verus! {

/// The seconds that each query of the guard may take.
pub const PID_QUERY_TIMEOUT_SECS: u64 = 1;

/// The request id of the guard's first query.
pub const PID_REQUEST_ID: u64 = 1;

/// The request id of the guard's second query.
pub const PROCESS_ID_REQUEST_ID: u64 = 2;

/// The property that the guard asks for first.
pub open spec fn first_property() -> Seq<char> {
    "pid"@
}

/// The property that the guard asks for when the first query fails.
pub open spec fn second_property() -> Seq<char> {
    "process-id"@
}

/// Why a query brought no answer.
#[derive(Clone, Copy, Debug, PartialEq, Eq, Structural)]
pub enum QueryFailure {
    /// No matching response came in time.
    TimedOut,
    /// The connection reached its end while waiting.
    ConnectionClosed,
    /// Reading or writing failed.
    Io,
}

/// Why startup is aborted.
#[derive(Clone, Debug, PartialEq, Eq)]
pub enum StartupError {
    /// Neither query brought an answer; `failure` tells of the second.
    QueryFailed { failure: QueryFailure },
    /// The player answered with a status other than `success`.
    PlayerError { status: String },
    /// The answer holds no non-negative integer.
    NonIntegerPid,
    /// The answer holds an integer that is no process id.
    PidOutOfRange,
    /// The player is another process than the expected one.
    PidMismatch { expected: u32, actual: u32 },
}

/// What a [`StartupError`] holds.
pub enum StartupErrorView {
    QueryFailed { failure: QueryFailure },
    PlayerError { status: Seq<char> },
    NonIntegerPid,
    PidOutOfRange,
    PidMismatch { expected: u32, actual: u32 },
}

impl View for StartupError {
    type V = StartupErrorView;

    open spec fn view(&self) -> StartupErrorView {
        match *self {
            StartupError::QueryFailed { failure } => StartupErrorView::QueryFailed { failure },
            StartupError::PlayerError { status } => StartupErrorView::PlayerError {
                status: status@,
            },
            StartupError::NonIntegerPid => StartupErrorView::NonIntegerPid,
            StartupError::PidOutOfRange => StartupErrorView::PidOutOfRange,
            StartupError::PidMismatch { expected, actual } => StartupErrorView::PidMismatch {
                expected,
                actual,
            },
        }
    }
}

/// The status of an answer: its `error` string, or the empty string
/// where it has none.
pub open spec fn status_of(error: Option<Seq<char>>) -> Seq<char> {
    match error {
        Some(status) => status,
        None => Seq::empty(),
    }
}

/// The non-negative integer that an answer's data holds, if it holds one.
pub open spec fn unsigned_of(data: Option<PropertyValueView>) -> Option<u64> {
    match data {
        Some(value) => match value.unsigned {
            Some(n) => Some(n),
            None => match value.integer {
                Some(n) => if n >= 0 {
                    Some(n as u64)
                } else {
                    None
                },
                None => None,
            },
        },
        None => None,
    }
}

/// The process id that an answer reports, or why it reports none. An
/// answer counts only if its status is `success`.
pub open spec fn reported_pid(
    error: Option<Seq<char>>,
    data: Option<PropertyValueView>,
) -> Result<u32, StartupErrorView> {
    if status_of(error) != "success"@ {
        Err(StartupErrorView::PlayerError { status: status_of(error) })
    } else {
        match unsigned_of(data) {
            None => Err(StartupErrorView::NonIntegerPid),
            Some(n) => if n > u32::MAX {
                Err(StartupErrorView::PidOutOfRange)
            } else {
                Ok(n as u32)
            },
        }
    }
}

/// Whether startup may go on with a player that reports `answer`, when
/// `expected` is the process id that was asked for.
pub open spec fn verdict(expected: u32, answer: Result<u32, StartupErrorView>) -> Result<
    (),
    StartupErrorView,
> {
    match answer {
        Err(error) => Err(error),
        Ok(actual) => if actual == expected {
            Ok(())
        } else {
            Err(StartupErrorView::PidMismatch { expected, actual })
        },
    }
}

/// The views of a result of [`pid_from_response`].
pub open spec fn pid_result_view(result: Result<u32, StartupError>) -> Result<
    u32,
    StartupErrorView,
> {
    match result {
        Ok(pid) => Ok(pid),
        Err(error) => Err(error@),
    }
}

/// The process id that an answer reports, or why it reports none.
pub fn pid_from_response(error: &Option<String>, data: &Option<PropertyValue>) -> (result: Result<
    u32,
    StartupError,
>)
    ensures
        pid_result_view(result) == reported_pid(
            text_view(*error),
            value_view(*data),
        ),
{
    let succeeded = match error {
        Some(status) => same_text(status.as_str(), "success"),
        None => false,
    };
    proof {
        reveal_strlit("success");
        assert("success"@.len() == 7);
    }
    if !succeeded {
        let status = match error {
            Some(status) => status.clone(),
            None => String::new(),
        };
        assert(status@ == status_of(text_view(*error)));
        return Err(StartupError::PlayerError { status });
    }
    let number: Option<u64> = match data {
        Some(value) => match value.unsigned {
            Some(n) => Some(n),
            None => match value.integer {
                Some(n) => if n >= 0 {
                    Some(n as u64)
                } else {
                    None
                },
                None => None,
            },
        },
        None => None,
    };
    match number {
        None => Err(StartupError::NonIntegerPid),
        Some(n) => if n > u32::MAX as u64 {
            Err(StartupError::PidOutOfRange)
        } else {
            Ok(n as u32)
        },
    }
}

/// Compares the reported process id with the expected one.
pub fn check_pid(expected: u32, actual: u32) -> (result: Result<(), StartupError>)
    ensures
        result is Ok <==> actual == expected,
        result matches Err(error) ==> error@ == (StartupErrorView::PidMismatch {
            expected,
            actual,
        }),
{
    if actual == expected {
        Ok(())
    } else {
        Err(StartupError::PidMismatch { expected, actual })
    }
}

/// How far the guard has come.
#[derive(Clone, Copy, Debug, PartialEq, Eq, Structural)]
pub enum GuardStage {
    /// Nothing was asked yet.
    Fresh,
    /// The first query is out.
    AskedPid,
    /// The first query failed and the second is out.
    AskedProcessId,
    /// The guard has said its last word.
    Finished,
}

/// What the guard is told.
#[derive(Clone, Debug)]
pub enum GuardEvent {
    /// Startup begins.
    Begin,
    /// The query that is out was answered.
    Answered { error: Option<String>, data: Option<PropertyValue> },
    /// The query that is out brought no answer.
    Failed { failure: QueryFailure },
}

/// What a [`GuardEvent`] holds.
pub enum GuardEventView {
    Begin,
    Answered { error: Option<Seq<char>>, data: Option<PropertyValueView> },
    Failed { failure: QueryFailure },
}

impl View for GuardEvent {
    type V = GuardEventView;

    open spec fn view(&self) -> GuardEventView {
        match *self {
            GuardEvent::Begin => GuardEventView::Begin,
            GuardEvent::Answered { error, data } => GuardEventView::Answered {
                error: text_view(error),
                data: value_view(data),
            },
            GuardEvent::Failed { failure } => GuardEventView::Failed { failure },
        }
    }
}

/// What the caller has to do next.
#[derive(Clone, Debug)]
pub enum GuardStep {
    /// Nothing: the event came out of turn.
    Idle,
    /// Send `command` and wait `timeout_secs` for the response that
    /// carries `request_id`.
    Query { command: String, request_id: u64, timeout_secs: u64 },
    /// Open the listener: the player is the expected one, or none was
    /// expected.
    Proceed,
    /// Give up before any listener is opened.
    Abort { error: StartupError },
}

/// What a [`GuardStep`] holds.
pub enum GuardStepView {
    Idle,
    Query { command: Seq<char>, request_id: u64, timeout_secs: u64 },
    Proceed,
    Abort { error: StartupErrorView },
}

impl View for GuardStep {
    type V = GuardStepView;

    open spec fn view(&self) -> GuardStepView {
        match *self {
            GuardStep::Idle => GuardStepView::Idle,
            GuardStep::Query { command, request_id, timeout_secs } => GuardStepView::Query {
                command: command@,
                request_id,
                timeout_secs,
            },
            GuardStep::Proceed => GuardStepView::Proceed,
            GuardStep::Abort { error } => GuardStepView::Abort { error: error@ },
        }
    }
}

/// The stage after `event`, for a guard at `stage` that expects
/// `expected`.
pub open spec fn next_stage(
    stage: GuardStage,
    expected: Option<u32>,
    event: GuardEventView,
) -> GuardStage {
    match (stage, event) {
        (GuardStage::Fresh, GuardEventView::Begin) => if expected is Some {
            GuardStage::AskedPid
        } else {
            GuardStage::Finished
        },
        (GuardStage::AskedPid, GuardEventView::Failed { .. }) => GuardStage::AskedProcessId,
        (GuardStage::AskedPid, GuardEventView::Answered { .. }) => GuardStage::Finished,
        (GuardStage::AskedProcessId, GuardEventView::Failed { .. }) => GuardStage::Finished,
        (GuardStage::AskedProcessId, GuardEventView::Answered { .. }) => GuardStage::Finished,
        _ => stage,
    }
}

/// What the guard asks of the caller after `event`. The first query asks
/// for `pid`; if it brings no answer, a second asks for `process-id`. An
/// answer to either is final, whatever it says.
pub open spec fn next_step(
    stage: GuardStage,
    expected: Option<u32>,
    event: GuardEventView,
) -> GuardStepView {
    match (stage, event) {
        (GuardStage::Fresh, GuardEventView::Begin) => if expected is Some {
            GuardStepView::Query {
                command: get_property_line(first_property(), PID_REQUEST_ID),
                request_id: PID_REQUEST_ID,
                timeout_secs: PID_QUERY_TIMEOUT_SECS,
            }
        } else {
            GuardStepView::Proceed
        },
        (GuardStage::AskedPid, GuardEventView::Failed { .. }) => GuardStepView::Query {
            command: get_property_line(second_property(), PROCESS_ID_REQUEST_ID),
            request_id: PROCESS_ID_REQUEST_ID,
            timeout_secs: PID_QUERY_TIMEOUT_SECS,
        },
        (GuardStage::AskedProcessId, GuardEventView::Failed { failure }) => GuardStepView::Abort {
            error: StartupErrorView::QueryFailed { failure },
        },
        (GuardStage::AskedPid, GuardEventView::Answered { error, data }) => answer_step(
            expected,
            error,
            data,
        ),
        (GuardStage::AskedProcessId, GuardEventView::Answered { error, data }) => answer_step(
            expected,
            error,
            data,
        ),
        _ => GuardStepView::Idle,
    }
}

/// What the guard says to an answer.
pub open spec fn answer_step(
    expected: Option<u32>,
    error: Option<Seq<char>>,
    data: Option<PropertyValueView>,
) -> GuardStepView {
    match expected {
        Some(e) => match verdict(e, reported_pid(error, data)) {
            Ok(()) => GuardStepView::Proceed,
            Err(reason) => GuardStepView::Abort { error: reason },
        },
        None => GuardStepView::Proceed,
    }
}

/// The startup guard.
#[derive(Clone, Debug)]
pub struct StartupGuard {
    expected: Option<u32>,
    stage: GuardStage,
}

impl StartupGuard {
    /// The process id that the guard expects, if it expects one.
    pub closed spec fn expected(&self) -> Option<u32> {
        self.expected
    }

    /// How far the guard has come.
    pub closed spec fn stage(&self) -> GuardStage {
        self.stage
    }

    /// A guard that has asked nothing yet.
    pub fn new(expected: Option<u32>) -> (guard: StartupGuard)
        ensures
            guard.expected() == expected,
            guard.stage() == GuardStage::Fresh,
    {
        StartupGuard { expected, stage: GuardStage::Fresh }
    }

    /// Whether the guard has said its last word.
    pub fn is_finished(&self) -> (finished: bool)
        ensures
            finished == (self.stage() == GuardStage::Finished),
    {
        self.stage == GuardStage::Finished
    }

    /// Tells the guard of `event` and returns what to do next.
    pub fn on_event(&mut self, event: GuardEvent) -> (step: GuardStep)
        ensures
            final(self).expected() == old(self).expected(),
            final(self).stage() == next_stage(old(self).stage(), old(self).expected(), event@),
            step@ == next_step(old(self).stage(), old(self).expected(), event@),
    {
        let expected = match self.expected {
            Some(expected) => expected,
            None => {
                return match (self.stage, event) {
                    (GuardStage::Fresh, GuardEvent::Begin) => {
                        self.stage = GuardStage::Finished;
                        GuardStep::Proceed
                    },
                    (GuardStage::AskedPid, GuardEvent::Failed { .. }) => {
                        self.stage = GuardStage::AskedProcessId;
                        GuardStep::Query {
                            command: get_property_command("process-id", PROCESS_ID_REQUEST_ID),
                            request_id: PROCESS_ID_REQUEST_ID,
                            timeout_secs: PID_QUERY_TIMEOUT_SECS,
                        }
                    },
                    (GuardStage::AskedProcessId, GuardEvent::Failed { failure }) => {
                        self.stage = GuardStage::Finished;
                        GuardStep::Abort { error: StartupError::QueryFailed { failure } }
                    },
                    (GuardStage::AskedPid, GuardEvent::Answered { .. }) => {
                        self.stage = GuardStage::Finished;
                        GuardStep::Proceed
                    },
                    (GuardStage::AskedProcessId, GuardEvent::Answered { .. }) => {
                        self.stage = GuardStage::Finished;
                        GuardStep::Proceed
                    },
                    _ => GuardStep::Idle,
                };
            },
        };
        match (self.stage, event) {
            (GuardStage::Fresh, GuardEvent::Begin) => {
                self.stage = GuardStage::AskedPid;
                GuardStep::Query {
                    command: get_property_command("pid", PID_REQUEST_ID),
                    request_id: PID_REQUEST_ID,
                    timeout_secs: PID_QUERY_TIMEOUT_SECS,
                }
            },
            (GuardStage::AskedPid, GuardEvent::Failed { .. }) => {
                self.stage = GuardStage::AskedProcessId;
                GuardStep::Query {
                    command: get_property_command("process-id", PROCESS_ID_REQUEST_ID),
                    request_id: PROCESS_ID_REQUEST_ID,
                    timeout_secs: PID_QUERY_TIMEOUT_SECS,
                }
            },
            (GuardStage::AskedProcessId, GuardEvent::Failed { failure }) => {
                self.stage = GuardStage::Finished;
                GuardStep::Abort { error: StartupError::QueryFailed { failure } }
            },
            (GuardStage::AskedPid, GuardEvent::Answered { error, data }) => {
                self.stage = GuardStage::Finished;
                answer(expected, &error, &data)
            },
            (GuardStage::AskedProcessId, GuardEvent::Answered { error, data }) => {
                self.stage = GuardStage::Finished;
                answer(expected, &error, &data)
            },
            _ => GuardStep::Idle,
        }
    }
}

/// What the guard says to an answer.
fn answer(expected: u32, error: &Option<String>, data: &Option<PropertyValue>) -> (step: GuardStep)
    ensures
        step@ == answer_step(
            Some(expected),
            text_view(*error),
            value_view(*data),
        ),
{
    match pid_from_response(error, data) {
        Err(error) => GuardStep::Abort { error },
        Ok(actual) => match check_pid(expected, actual) {
            Ok(()) => GuardStep::Proceed,
            Err(error) => GuardStep::Abort { error },
        },
    }
}

/// The text that reports `error`; `socket_path` names the connection.
pub open spec fn error_message(error: StartupErrorView, socket_path: Seq<char>) -> Seq<char> {
    match error {
        StartupErrorView::QueryFailed { failure } => match failure {
            QueryFailure::TimedOut => "Timed out querying mpv property 'process-id'"@,
            QueryFailure::ConnectionClosed => "mpv IPC closed while waiting for property response"@,
            QueryFailure::Io => "mpv IPC failed while waiting for property response"@,
        },
        StartupErrorView::PlayerError { status } => "mpv returned error querying PID: "@ + status,
        StartupErrorView::NonIntegerPid => "mpv returned non-integer PID"@,
        StartupErrorView::PidOutOfRange => "mpv PID out of range"@,
        StartupErrorView::PidMismatch { expected, actual } => "MPV_IPC_PID_MISMATCH expected="@
            + decimal(expected as nat) + " actual="@ + decimal(actual as nat) + " socket="@
            + socket_path,
    }
}

impl StartupError {
    /// The text that reports the error; `socket_path` names the
    /// connection.
    pub fn message(&self, socket_path: &str) -> (text: String)
        ensures
            text@ == error_message(self@, socket_path@),
    {
        match self {
            StartupError::QueryFailed { failure } => match failure {
                QueryFailure::TimedOut => String::from_str(
                    "Timed out querying mpv property 'process-id'",
                ),
                QueryFailure::ConnectionClosed => String::from_str(
                    "mpv IPC closed while waiting for property response",
                ),
                QueryFailure::Io => String::from_str(
                    "mpv IPC failed while waiting for property response",
                ),
            },
            StartupError::PlayerError { status } => {
                let mut text = String::from_str("mpv returned error querying PID: ");
                text.append(status.as_str());
                text
            },
            StartupError::NonIntegerPid => String::from_str("mpv returned non-integer PID"),
            StartupError::PidOutOfRange => String::from_str("mpv PID out of range"),
            StartupError::PidMismatch { expected, actual } => {
                let mut text = String::from_str("MPV_IPC_PID_MISMATCH expected=");
                push_decimal(&mut text, *expected as u64);
                text.append(" actual=");
                push_decimal(&mut text, *actual as u64);
                text.append(" socket=");
                text.append(socket_path);
                assert(text@ =~= error_message(self@, socket_path@));
                text
            },
        }
    }
}

/// A guard that expects a process id lets startup go on only after an
/// answer that reports that very id: whenever it says to proceed, the
/// event was an answer with the status `success` and the expected id.
pub proof fn lemma_proceeds_only_on_match(
    stage: GuardStage,
    expected: u32,
    event: GuardEventView,
)
    requires
        next_step(stage, Some(expected), event) == GuardStepView::Proceed,
    ensures
        event matches GuardEventView::Answered { error, data } && reported_pid(error, data) == Ok::<
            u32,
            StartupErrorView,
        >(expected),
{
}

/// A player that reports another process id than the expected one makes
/// the guard abort with both ids.
pub proof fn lemma_mismatch_aborts(
    expected: u32,
    actual: u32,
    error: Option<Seq<char>>,
    data: Option<PropertyValueView>,
)
    requires
        reported_pid(error, data) == Ok::<u32, StartupErrorView>(actual),
        actual != expected,
    ensures
        answer_step(Some(expected), error, data) == (GuardStepView::Abort {
            error: StartupErrorView::PidMismatch { expected, actual },
        }),
{
}

} // verus!
