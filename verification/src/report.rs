//! Result construction for the real process-control binding: the fixed
//! message vocabulary for a terminate or launch request's three possible
//! fates — the facility ran and reported success, the facility ran and
//! reported failure (with its diagnostic text embedded), or the facility
//! could not be invoked at all (with the invocation error embedded). The
//! embedding program makes the operating-system calls and hands the raw
//! outcome here.

use vstd::prelude::*;
use vstd::string::StringExecFns;

use crate::result::ProcessResult;

verus! {

/// The confirmation for a terminate request the facility reported done.
pub open spec fn terminate_success_message(name: Seq<char>) -> Seq<char> {
    "Successfully terminated "@ + name
}

/// The diagnostic for a terminate request the facility reported failed.
pub open spec fn terminate_failure_message(name: Seq<char>, diagnostic: Seq<char>) -> Seq<char> {
    "Failed to terminate "@ + name + ": "@ + diagnostic
}

/// The diagnostic for a termination facility that could not be invoked.
pub open spec fn terminate_error_message(diagnostic: Seq<char>) -> Seq<char> {
    "Error executing taskkill: "@ + diagnostic
}

/// The confirmation for a launch request the facility accepted.
pub open spec fn launch_success_message(name: Seq<char>) -> Seq<char> {
    "Successfully started "@ + name
}

/// The diagnostic for a launch request that failed.
pub open spec fn launch_error_message(name: Seq<char>, diagnostic: Seq<char>) -> Seq<char> {
    "Error starting "@ + name + ": "@ + diagnostic
}

/// The result of a terminate request whose facility ran: success with the
/// fixed confirmation when the facility reported success, otherwise failure
/// with the facility's diagnostic text embedded.
pub fn terminate_report(name: &str, reported_success: bool, diagnostic: &str) -> (r: ProcessResult)
    ensures
        r.success == reported_success,
        reported_success ==> r.message@ == terminate_success_message(name@),
        !reported_success ==> r.message@ == terminate_failure_message(name@, diagnostic@),
{
    if reported_success {
        ProcessResult {
            success: true,
            message: String::from_str("Successfully terminated ").concat(name),
        }
    } else {
        ProcessResult {
            success: false,
            message: String::from_str("Failed to terminate ").concat(name).concat(": ").concat(
                diagnostic,
            ),
        }
    }
}

/// The failure for a termination facility that could not be invoked, with
/// the invocation error embedded.
pub fn terminate_invocation_failure(diagnostic: &str) -> (r: ProcessResult)
    ensures
        !r.success,
        r.message@ == terminate_error_message(diagnostic@),
{
    ProcessResult {
        success: false,
        message: String::from_str("Error executing taskkill: ").concat(diagnostic),
    }
}

/// The result of a launch request: success with the fixed confirmation when
/// the launch was accepted, otherwise failure with the error embedded.
pub fn launch_report(name: &str, launched: bool, diagnostic: &str) -> (r: ProcessResult)
    ensures
        r.success == launched,
        launched ==> r.message@ == launch_success_message(name@),
        !launched ==> r.message@ == launch_error_message(name@, diagnostic@),
{
    if launched {
        ProcessResult {
            success: true,
            message: String::from_str("Successfully started ").concat(name),
        }
    } else {
        ProcessResult {
            success: false,
            message: String::from_str("Error starting ").concat(name).concat(": ").concat(
                diagnostic,
            ),
        }
    }
}

} // verus!
