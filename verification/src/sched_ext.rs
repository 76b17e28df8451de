//! Is the `sched_ext` scheduler class enabled?
//!
//! The kernel reports the state of the class in a status file that holds a
//! single word. Reading the file is left to the caller; what was read is
//! mapped here to a verdict or to an error.

use crate::io_error::{IoError, IoKind};
use crate::text::{str_eq, trim, trimmed};
use vstd::prelude::*;
use vstd::string::*;

verus! {

/// Where the kernel reports the state of the scheduler class.
pub const SCHED_EXT_STATE_PATH: &'static str = "/sys/kernel/sched_ext/state";

/// What an attempt to read the status file gave.
#[derive(Debug)]
pub enum StateFile {
    /// There is no such file.
    Missing,
    /// The file is there, and reading it failed.
    Unreadable(IoError),
    /// The whole contents of the file.
    Contents(String),
}

/// The verdict for a state as the kernel writes it, or `None` for a text
/// that is no state.
pub open spec fn state_verdict(state: Seq<char>) -> Option<bool> {
    if state == "enabled"@ {
        Some(true)
    } else if state == "disabled"@ {
        Some(false)
    } else {
        None
    }
}

/// The message for a text that is no state.
pub open spec fn invalid_state_text(state: Seq<char>) -> Seq<char> {
    "Invalid sched_ext state: "@ + state
}

/// The message for a status file that does not exist.
pub open spec fn missing_file_text() -> Seq<char> {
    "sched_ext state file not found at "@ + SCHED_EXT_STATE_PATH@
        + ". is your kernel new enough with sched_ext enabled?"@
}

/// The message for a status file that could not be read, given the message of
/// the failure.
pub open spec fn read_failure_text(detail: Seq<char>) -> Seq<char> {
    "Failed to read sched_ext state: "@ + detail
}

/// Whether `result` is the outcome for the state `state`: its verdict, or an
/// error of kind [`IoKind::InvalidData`] that quotes the text.
pub open spec fn is_state_result(result: Result<bool, IoError>, state: Seq<char>) -> bool {
    match state_verdict(state) {
        Some(verdict) => result == Ok::<bool, IoError>(verdict),
        None => {
            &&& result matches Err(error)
            &&& error.kind == IoKind::InvalidData
            &&& error.message@ == invalid_state_text(state)
        },
    }
}

/// Whether `result` is the outcome for what reading the status file gave.
pub open spec fn is_file_result(result: Result<bool, IoError>, file: StateFile) -> bool {
    match file {
        StateFile::Missing => {
            &&& result matches Err(error)
            &&& error.kind == IoKind::NotFound
            &&& error.message@ == missing_file_text()
        },
        StateFile::Unreadable(failure) => {
            &&& result matches Err(error)
            &&& error.kind == failure.kind
            &&& error.message@ == read_failure_text(failure.message@)
        },
        StateFile::Contents(contents) => is_state_result(result, trimmed(contents@)),
    }
}

/// Classifies a state, taken without surrounding whitespace: `enabled` is
/// `true`, `disabled` is `false`, and any other text is invalid data.
pub fn match_sched_ext_state(state: &str) -> (result: Result<bool, IoError>)
    ensures
        is_state_result(result, state@),
        result == Ok::<bool, IoError>(true) <==> state@ == "enabled"@,
        result == Ok::<bool, IoError>(false) <==> state@ == "disabled"@,
{
    proof {
        reveal_strlit("enabled");
        reveal_strlit("disabled");
        assert("enabled"@.len() != "disabled"@.len());
    }
    if str_eq(state, "enabled") {
        Ok(true)
    } else if str_eq(state, "disabled") {
        Ok(false)
    } else {
        Err(
            IoError {
                kind: IoKind::InvalidData,
                message: String::from_str("Invalid sched_ext state: ").concat(state),
            },
        )
    }
}

/// Maps what reading the status file gave to the state of the scheduler
/// class.
///
/// A missing file is reported as [`IoKind::NotFound`]: the kernel predates the
/// scheduler class or was built without it. A failed read keeps its kind and
/// gains context. Contents are trimmed and then classified.
pub fn get_sched_ext_state(file: StateFile) -> (result: Result<bool, IoError>)
    ensures
        is_file_result(result, file),
{
    match file {
        StateFile::Missing => Err(
            IoError {
                kind: IoKind::NotFound,
                message: String::from_str("sched_ext state file not found at ").concat(
                    SCHED_EXT_STATE_PATH,
                ).concat(". is your kernel new enough with sched_ext enabled?"),
            },
        ),
        StateFile::Unreadable(failure) => Err(
            IoError {
                kind: failure.kind,
                message: String::from_str("Failed to read sched_ext state: ").concat(
                    failure.message.as_str(),
                ),
            },
        ),
        StateFile::Contents(contents) => match_sched_ext_state(trim(contents.as_str())),
    }
}

/// Whether two results say the same: one verdict, or errors of one kind with
/// one message.
pub open spec fn same_result(first: Result<bool, IoError>, second: Result<bool, IoError>) -> bool {
    match (first, second) {
        (Ok(a), Ok(b)) => a == b,
        (Err(a), Err(b)) => a.kind == b.kind && a.message@ == b.message@,
        _ => false,
    }
}

/// Classification is a function of the text alone: whatever two calls of
/// [`match_sched_ext_state`] on the same text return, the results say the same.
pub proof fn lemma_classification_is_a_function(
    state: &str,
    again: &str,
    first: Result<bool, IoError>,
    second: Result<bool, IoError>,
)
    requires
        state@ == again@,
        call_ensures(match_sched_ext_state, (state,), first),
        call_ensures(match_sched_ext_state, (again,), second),
    ensures
        same_result(first, second),
{
}

/// A missing status file is an ignorable error, a text that is no state is
/// not, and a failed read is classified as the failure itself is.
pub proof fn lemma_state_error_classification(
    result: Result<bool, IoError>,
    state: Seq<char>,
    failure: IoError,
)
    ensures
        is_file_result(result, StateFile::Missing) ==> result is Err && result->Err_0.ignorable(),
        is_state_result(result, state) && result is Err ==> !result->Err_0.ignorable(),
        is_file_result(result, StateFile::Unreadable(failure)) ==> result is Err
            && result->Err_0.ignorable() == failure.ignorable(),
{
}

} // verus!
