//! Platform detection policy: every operation refuses up front on a host
//! platform other than the supported one, before any process is touched.
//! Both functions here take the ambient operating-system identifier as an
//! argument; reading that identifier is the embedding program's concern.

use vstd::prelude::*;
use vstd::string::StringExecFns;

verus! {

/// The error text for an unsupported platform: the detected platform,
/// quoted between two fixed pieces of text.
pub open spec fn platform_error_message(os: Seq<char>) -> Seq<char> {
    "stuckbar is a Windows-only tool.\nCurrent platform '"@ + os
        + "' is not supported.\nThis tool restarts explorer.exe which only exists on Windows."@
}

/// Whether the given operating-system identifier names the supported
/// platform.
pub fn is_windows(os: &str) -> (r: bool)
    ensures
        r == (os@ == "windows"@),
{
    let left = os.to_owned();
    let right = "windows".to_owned();
    left == right
}

/// Decide whether operations may run on the given operating-system
/// identifier.
///
/// Returns `Ok` exactly on the supported platform; otherwise an error whose
/// message names the detected platform.
pub fn check_platform(os: &str) -> (r: Result<(), String>)
    ensures
        r is Ok <==> os@ == "windows"@,
        r matches Err(m) ==> m@ == platform_error_message(os@),
{
    if is_windows(os) {
        Ok(())
    } else {
        let message = String::from_str("stuckbar is a Windows-only tool.\nCurrent platform '")
            .concat(os)
            .concat("' is not supported.\nThis tool restarts explorer.exe which only exists on Windows.");
        Err(message)
    }
}

} // verus!
