//! How an invocation ends: the code with which the process exits.

use vstd::prelude::*;

verus! {

/// The exit code of a run without failure.
pub open spec fn success_code() -> i32 {
    0
}

/// The exit code of a failure for which the system names no code of its own.
pub open spec fn software_error_code() -> i32 {
    70
}

/// The exit code of an invocation: that of success where it went through,
/// and else the code that the system reported with the failure, or that of
/// an internal software error where it reported none.
pub open spec fn exit_code_of(outcome: Result<(), Option<i32>>) -> i32 {
    match outcome {
        Ok(_) => success_code(),
        Err(Some(code)) => code,
        Err(None) => software_error_code(),
    }
}

/// The constant `exitcode::OK`. Trusted: it is 0.
#[verifier::external_body]
fn ok() -> (code: i32)
    ensures
        code == success_code(),
{
    exitcode::OK
}

/// The constant `exitcode::SOFTWARE`. Trusted: it is 70.
#[verifier::external_body]
fn software() -> (code: i32)
    ensures
        code == software_error_code(),
{
    exitcode::SOFTWARE
}

/// The code with which the process exits. `outcome` is `Ok` for a run that
/// went through, and else holds the error code of the system, if it gave one.
pub fn exit_code(outcome: Result<(), Option<i32>>) -> (code: i32)
    ensures
        code == exit_code_of(outcome),
{
    match outcome {
        Ok(_) => ok(),
        Err(Some(code)) => code,
        Err(None) => software(),
    }
}

} // verus!
