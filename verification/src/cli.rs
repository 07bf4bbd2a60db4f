//! Command dispatch: one external request becomes one call against the
//! lifecycle manager — directly with [`run_with_runner`], or behind the
//! platform check with [`run_on_platform`], which refuses before any
//! primitive on an unsupported host. Parsing the command line into a
//! [`Commands`] value is the embedding program's concern.

use vstd::prelude::*;

use crate::manager::ExplorerManager;
use crate::manager::narrate_failure;
use crate::manager::restart_events;
use crate::manager::restart_succeeds;
use crate::manager::target_name;
use crate::platform::check_platform;
use crate::runner::ProcessRunner;
use crate::runner::RunnerEvent;

verus! {

/// The operation requested on the command line.
#[derive(Debug, Clone, PartialEq, Eq, Structural)]
pub enum Commands {
    /// Terminate the managed process.
    Kill,
    /// Start the managed process.
    Start,
    /// Restart the managed process: terminate, wait, launch.
    Restart,
}

/// Dispatch one command against a fresh manager built on the given runner,
/// narrating to the console. No command defaults to restart. Returns the
/// chosen operation's outcome.
pub fn run_with_runner<R: ProcessRunner>(command: Option<Commands>, runner: R) -> (r: bool)
    ensures
        command == Some(Commands::Kill) ==> r == runner.next_kill_success(),
        command == Some(Commands::Start) ==> r == runner.next_start_success(),
        command == Some(Commands::Restart) ==> r == restart_succeeds(runner),
        command is None ==> r == restart_succeeds(runner),
{
    let mut manager = ExplorerManager::new(runner);

    match command {
        Some(Commands::Kill) => manager.kill(),
        Some(Commands::Start) => manager.start(),
        Some(Commands::Restart) => manager.restart(),
        None => manager.restart(),
    }
}

/// Run the platform check on the given operating-system identifier, then
/// dispatch one command against the given manager, narrating to the console.
/// No command defaults to restart.
///
/// On an unsupported platform the dispatcher refuses immediately: the
/// diagnostic naming the detected platform goes to the error stream, no
/// primitive is invoked, the manager is left untouched, and the result is
/// failure. Only on the supported platform is the chosen operation run, and
/// its outcome returned.
pub fn run_on_platform<R: ProcessRunner>(
    os: &str,
    command: Option<Commands>,
    manager: &mut ExplorerManager<R>,
) -> (r: bool)
    ensures
        os@ != "windows"@ ==> (!r && *final(manager) == *old(manager)),
        (os@ == "windows"@ && command == Some(Commands::Kill)) ==> (r == old(
            manager).runner.next_kill_success() && final(manager).runner.events() == old(
            manager).runner.events().push(RunnerEvent::Kill(target_name()))),
        (os@ == "windows"@ && command == Some(Commands::Start)) ==> (r == old(
            manager).runner.next_start_success() && final(manager).runner.events() == old(
            manager).runner.events().push(RunnerEvent::Start(target_name()))),
        (os@ == "windows"@ && (command == Some(Commands::Restart) || command is None)) ==> (r
            == restart_succeeds(old(manager).runner) && final(manager).runner.events()
            == restart_events(
            old(manager).runner.events(),
            old(manager).runner.next_kill_success(),
            old(manager).restart_delay_ms,
        )),
{
    match check_platform(os) {
        Err(message) => {
            narrate_failure(message.as_str());
            false
        },
        Ok(()) => match command {
            Some(Commands::Kill) => manager.kill(),
            Some(Commands::Start) => manager.start(),
            Some(Commands::Restart) => manager.restart(),
            None => manager.restart(),
        },
    }
}

} // verus!
