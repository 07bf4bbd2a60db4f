//! The platform gate and the remote-tool reply mapping.

use stuckbar::ProcessResult;
use stuckbar::check_platform;
use stuckbar::is_windows;
use stuckbar::tool_reply;

#[test]
fn test_is_windows() {
    assert!(is_windows("windows"));
    assert!(!is_windows("linux"));
    assert!(!is_windows("macos"));
    assert!(!is_windows(""));
}

#[test]
fn test_check_platform() {
    assert!(check_platform("windows").is_ok());

    let result = check_platform("linux");
    assert!(result.is_err());
    let err = result.unwrap_err();
    assert!(err.contains("Windows-only"));
    assert!(err.contains("linux"));
}

#[test]
fn test_check_platform_names_the_detected_platform() {
    let err = check_platform("macos").unwrap_err();
    assert_eq!(
        err,
        "stuckbar is a Windows-only tool.\nCurrent platform 'macos' is not supported.\nThis tool restarts explorer.exe which only exists on Windows."
    );
}

#[test]
fn test_tool_reply_success_carries_message() {
    let reply = tool_reply(ProcessResult::success("Killed"));
    assert_eq!(reply, Ok("Killed".to_string()));
}

#[test]
fn test_tool_reply_failure_carries_message() {
    let reply = tool_reply(ProcessResult::failure("Failed to kill"));
    assert_eq!(reply, Err("Failed to kill".to_string()));
}
