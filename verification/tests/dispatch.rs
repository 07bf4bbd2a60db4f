//! Command dispatch against a scripted runner, and the command type itself.

use stuckbar::Commands;
use stuckbar::ExplorerManager;
use stuckbar::ProcessResult;
use stuckbar::RESTART_DELAY_MS;
use stuckbar::ScriptedRunner;
use stuckbar::run_on_platform;
use stuckbar::run_with_runner;

// ProcessResult tests

#[test]
fn main_test_process_result_success() {
    let result = ProcessResult::success("test message");
    assert!(result.success);
    assert_eq!(result.message, "test message");
}

#[test]
fn main_test_process_result_failure() {
    let result = ProcessResult::failure("error message");
    assert!(!result.success);
    assert_eq!(result.message, "error message");
}

// ExplorerManager::kill tests

#[test]
fn main_test_kill_success() {
    let runner = ScriptedRunner::new().with_kill_result(ProcessResult::success("Killed"));
    let mut manager = ExplorerManager::new(runner);

    assert!(manager.kill());
}

#[test]
fn main_test_kill_failure() {
    let runner = ScriptedRunner::new().with_kill_result(ProcessResult::failure("Failed to kill"));
    let mut manager = ExplorerManager::new(runner);

    assert!(!manager.kill());
}

// ExplorerManager::start tests

#[test]
fn main_test_start_success() {
    let runner = ScriptedRunner::new().with_start_result(ProcessResult::success("Started"));
    let mut manager = ExplorerManager::new(runner);

    assert!(manager.start());
}

#[test]
fn main_test_start_failure() {
    let runner = ScriptedRunner::new().with_start_result(ProcessResult::failure("Failed to start"));
    let mut manager = ExplorerManager::new(runner);

    assert!(!manager.start());
}

// ExplorerManager::restart tests

#[test]
fn main_test_restart_success() {
    let runner = ScriptedRunner::new()
        .with_kill_result(ProcessResult::success("Killed"))
        .with_start_result(ProcessResult::success("Started"));
    let mut manager = ExplorerManager::new(runner).with_restart_delay(100);

    assert!(manager.restart());
}

#[test]
fn main_test_restart_kill_fails() {
    let runner = ScriptedRunner::new().with_kill_result(ProcessResult::failure("Failed to kill"));
    let mut manager = ExplorerManager::new(runner);

    assert!(!manager.restart());
}

#[test]
fn main_test_restart_start_fails() {
    let runner = ScriptedRunner::new()
        .with_kill_result(ProcessResult::success("Killed"))
        .with_start_result(ProcessResult::failure("Failed to start"));
    let mut manager = ExplorerManager::new(runner);

    assert!(!manager.restart());
}

#[test]
fn main_test_restart_sleeps_between_operations() {
    let runner = ScriptedRunner::new()
        .with_kill_result(ProcessResult::success("Killed"))
        .with_start_result(ProcessResult::success("Started"));
    let mut manager = ExplorerManager::new(runner).with_restart_delay(250);

    manager.restart();

    let sleep_calls = manager.runner.get_sleep_calls();
    assert_eq!(sleep_calls.len(), 1);
    assert_eq!(sleep_calls[0], 250);
}

#[test]
fn main_test_restart_uses_default_delay() {
    let runner = ScriptedRunner::new()
        .with_kill_result(ProcessResult::success("Killed"))
        .with_start_result(ProcessResult::success("Started"));
    let manager = ExplorerManager::new(runner);

    assert_eq!(manager.restart_delay_ms, RESTART_DELAY_MS);
}

// run_with_runner tests

#[test]
fn test_run_with_runner_kill_command() {
    let runner = ScriptedRunner::new().with_kill_result(ProcessResult::success("Killed"));

    assert!(run_with_runner(Some(Commands::Kill), runner));
}

#[test]
fn test_run_with_runner_start_command() {
    let runner = ScriptedRunner::new().with_start_result(ProcessResult::success("Started"));

    assert!(run_with_runner(Some(Commands::Start), runner));
}

#[test]
fn test_run_with_runner_restart_command() {
    let runner = ScriptedRunner::new()
        .with_kill_result(ProcessResult::success("Killed"))
        .with_start_result(ProcessResult::success("Started"));

    assert!(run_with_runner(Some(Commands::Restart), runner));
}

#[test]
fn test_run_with_runner_no_command_defaults_to_restart() {
    let runner = ScriptedRunner::new()
        .with_kill_result(ProcessResult::success("Killed"))
        .with_start_result(ProcessResult::success("Started"));

    assert!(run_with_runner(None, runner));
}

#[test]
fn test_run_with_runner_kill_failure_returns_false() {
    let runner = ScriptedRunner::new().with_kill_result(ProcessResult::failure("Error"));

    assert!(!run_with_runner(Some(Commands::Kill), runner));
}

#[test]
fn test_run_with_runner_start_failure_returns_false() {
    let runner = ScriptedRunner::new().with_start_result(ProcessResult::failure("Error"));

    assert!(!run_with_runner(Some(Commands::Start), runner));
}

// run_on_platform tests: on an unsupported platform every operation
// refuses before invoking any primitive; on the supported one the chosen
// operation runs.

#[test]
fn test_run_on_platform_refuses_on_unsupported_platform() {
    let runner = ScriptedRunner::new().with_kill_result(ProcessResult::success("Killed"));
    let mut manager = ExplorerManager::new(runner);

    assert!(!run_on_platform("linux", Some(Commands::Kill), &mut manager));

    // No primitive was invoked: the scripted result is still pending and
    // nothing was waited.
    assert_eq!(manager.runner.kill_results.len(), 1);
    assert_eq!(manager.runner.get_sleep_calls().len(), 0);
}

#[test]
fn test_run_on_platform_refuses_restart_before_any_primitive() {
    let runner = ScriptedRunner::new()
        .with_kill_result(ProcessResult::success("Killed"))
        .with_start_result(ProcessResult::success("Started"));
    let mut manager = ExplorerManager::new(runner);

    assert!(!run_on_platform("macos", None, &mut manager));

    assert_eq!(manager.runner.kill_results.len(), 1);
    assert_eq!(manager.runner.start_results.len(), 1);
    assert_eq!(manager.runner.get_sleep_calls().len(), 0);
}

#[test]
fn test_run_on_platform_dispatches_on_supported_platform() {
    let runner = ScriptedRunner::new().with_kill_result(ProcessResult::success("Killed"));
    let mut manager = ExplorerManager::new(runner);

    assert!(run_on_platform("windows", Some(Commands::Kill), &mut manager));
    assert_eq!(manager.runner.kill_results.len(), 0);
}

#[test]
fn test_run_on_platform_defaults_to_restart() {
    let runner = ScriptedRunner::new()
        .with_kill_result(ProcessResult::success("Killed"))
        .with_start_result(ProcessResult::success("Started"));
    let mut manager = ExplorerManager::new(runner);

    assert!(run_on_platform("windows", None, &mut manager));
    assert_eq!(manager.runner.get_sleep_calls().len(), 1);
}

// Commands enum tests

#[test]
fn test_commands_equality() {
    assert_eq!(Commands::Kill, Commands::Kill);
    assert_eq!(Commands::Start, Commands::Start);
    assert_eq!(Commands::Restart, Commands::Restart);
    assert_ne!(Commands::Kill, Commands::Start);
}

#[test]
fn test_commands_clone() {
    let cmd = Commands::Restart;
    let cloned = cmd.clone();
    assert_eq!(cmd, cloned);
}

#[test]
fn main_test_explorer_manager_with_restart_delay() {
    let runner = ScriptedRunner::new();
    let manager = ExplorerManager::new(runner).with_restart_delay(1000);
    assert_eq!(manager.restart_delay_ms, 1000);
}
