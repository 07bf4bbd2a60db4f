//! The semantic half of the remote-tool adapter: a lifecycle operation's
//! result becomes either a success payload or an error payload, carrying the
//! operation's message verbatim. The transport that carries the payloads is
//! the embedding program's concern.

use vstd::prelude::*;

use crate::result::ProcessResult;

verus! {

/// Map an operation result to the reply of a remote tool call: the message
/// text as a success payload when the operation succeeded, as an error
/// payload when it failed.
pub fn tool_reply(result: ProcessResult) -> (r: Result<String, String>)
    ensures
        result.success ==> (r matches Ok(m) && m@ == result.message@),
        !result.success ==> (r matches Err(m) && m@ == result.message@),
{
    if result.success {
        Ok(result.message)
    } else {
        Err(result.message)
    }
}

} // verus!
