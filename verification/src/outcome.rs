//! What a call into a guest ends with, and the state handed back with it.

use vstd::prelude::*;
use vstd::string::StringExecFns;

use crate::wasmtime_calls::{error_text, error_text_of, exit_status, exit_status_of};

verus! {

/// How a process's execution ended.
#[derive(Clone, Debug, PartialEq, Eq)]
pub enum ResultValue {
    /// The called function returned, or the guest exited with status 0.
    Success,
    /// The guest trapped or exited with a non-zero status; wasmtime's message.
    Failed(String),
    /// The process could not be started.
    SpawnError(String),
    /// The process was killed.
    Killed,
}

/// The state of a finished process and how it ended.
pub struct ExecutionResult<T> {
    pub state: T,
    pub result: ResultValue,
}

/// The message of a spawn error for a function that the instance does not
/// export: `Function '<name>' not found`.
pub open spec fn not_found_text(function: Seq<char>) -> Seq<char> {
    "Function '"@ + function + "' not found"@
}

/// Builds `not_found_text(function@)`.
pub fn not_found_message(function: &str) -> (r: String)
    ensures
        r@ == not_found_text(function@),
{
    let mut message = String::from_str("Function '");
    message.append(function);
    message.append("' not found");
    message
}

/// What a failed call ends with, given the exit status that `proc_exit`
/// raised (if the failure was one) and wasmtime's message for the failure.
pub open spec fn failure_value(exit: Option<i32>, message: String) -> ResultValue {
    if exit == Some(0i32) {
        ResultValue::Success
    } else {
        ResultValue::Failed(message)
    }
}

/// A call that failed with `proc_exit(0)` finished without error; any other
/// failure is reported with its message.
pub fn failure_result(exit: Option<i32>, message: String) -> (r: ResultValue)
    ensures
        r == failure_value(exit, message),
{
    match exit {
        Some(0i32) => ResultValue::Success,
        _ => ResultValue::Failed(message),
    }
}

/// Whether `r` is what a call that returned `outcome` ends with: `Success`
/// when it returned or exited with status 0, otherwise `Failed` with the
/// error's text.
pub open spec fn ends_call(outcome: Result<(), wasmtime::Error>, r: ResultValue) -> bool {
    match outcome {
        Ok(()) => r == ResultValue::Success,
        Err(e) => if exit_status_of(e) == Some(0i32) {
            r == ResultValue::Success
        } else {
            r matches ResultValue::Failed(m) && m@ == error_text_of(e)
        },
    }
}

/// What a call that returned `outcome` ends with: `Success` when it
/// returned, otherwise `failure_result` of the error's exit status and text.
pub fn call_result(outcome: Result<(), wasmtime::Error>) -> (r: ResultValue)
    ensures
        ends_call(outcome, r),
        outcome is Ok ==> r is Success,
        outcome matches Err(e) ==> ((r is Success) <==> exit_status_of(e) == Some(0i32)),
        outcome matches Err(e) ==> (r is Success || (r matches ResultValue::Failed(m) && m@
            == error_text_of(e))),
{
    match outcome {
        Ok(()) => ResultValue::Success,
        Err(err) => {
            let exit = exit_status(&err);
            let message = error_text(&err);
            failure_result(exit, message)
        },
    }
}

} // verus!
