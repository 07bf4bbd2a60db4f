//! Restart a stuck desktop shell process: terminate it, wait a moment, and
//! launch it again.
//!
//! The crate separates the process-lifecycle logic, which is verified, from
//! the operating-system effects, which are not. The [`ProcessRunner`] trait
//! abstracts the three primitives (terminate a named process, launch a named
//! process, wait a duration); [`ExplorerManager`] composes them into the
//! kill, start, and restart operations with a uniform result contract; and
//! [`ScriptedRunner`] is a programmable runner whose behaviour is fully
//! specified, so the composition logic can be exercised and proved without
//! touching the real system. A binding of the trait to real process control
//! lives outside this library.

pub mod cli;
pub mod manager;
pub mod platform;
pub mod protocol;
pub mod report;
pub mod result;
pub mod runner;

pub use cli::Commands;
pub use cli::run_on_platform;
pub use cli::run_with_runner;
pub use manager::ExplorerManager;
pub use manager::RESTART_DELAY_MS;
pub use platform::check_platform;
pub use platform::is_windows;
pub use protocol::tool_reply;
pub use report::launch_report;
pub use report::terminate_invocation_failure;
pub use report::terminate_report;
pub use result::ProcessResult;
pub use runner::ProcessRunner;
pub use runner::RunnerEvent;
pub use runner::ScriptedRunner;
