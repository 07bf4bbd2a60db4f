//! The uniform result value that every primitive and every composed
//! operation produces: a success flag and a human-readable message.

use vstd::prelude::*;

verus! {

/// Outcome of a process operation.
///
/// `success` is the sole field callers branch on; `message` carries the
/// human-readable diagnostic or confirmation text. A value is immutable
/// once constructed and has no identity beyond its fields.
#[derive(Debug, Clone, PartialEq)]
pub struct ProcessResult {
    pub success: bool,
    pub message: String,
}

impl ProcessResult {
    /// A successful outcome carrying the given message.
    pub fn success(message: &str) -> (r: ProcessResult)
        ensures
            r.success,
            r.message@ == message@,
    {
        ProcessResult { success: true, message: message.to_owned() }
    }

    /// A failed outcome carrying the given message.
    pub fn failure(message: &str) -> (r: ProcessResult)
        ensures
            !r.success,
            r.message@ == message@,
    {
        ProcessResult { success: false, message: message.to_owned() }
    }
}

} // verus!
