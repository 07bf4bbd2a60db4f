//! The lifecycle manager: composes the three runner primitives into the
//! kill, start, and restart operations, each in a narrating form (boolean
//! outcome plus console text) and a silent form (the full result value).

use std::io::Write;

use colored::Colorize;
use vstd::prelude::*;

use crate::result::ProcessResult;
use crate::runner::ProcessRunner;
use crate::runner::RunnerEvent;

verus! {

/// Delay in milliseconds between terminating the managed process and
/// launching it again, unless configured otherwise. The pause lets the
/// terminated process release its operating-system resources before the
/// relaunch; it is a fixed heuristic, not adaptively tuned.
pub const RESTART_DELAY_MS: u64 = 500;

/// The name of the single process this library manages; fixed, not
/// user-configurable.
pub open spec fn target_name() -> Seq<char> {
    "explorer.exe"@
}

/// Whether a restart against the given runner succeeds: the terminate step
/// and then the launch step must both report success.
pub open spec fn restart_succeeds<R: ProcessRunner>(runner: R) -> bool {
    runner.next_kill_success() && runner.next_start_success()
}

/// The message a silent restart against the given runner returns: the
/// failing step's own message, or the fixed success text when both steps
/// succeed.
pub open spec fn restart_message<R: ProcessRunner>(runner: R) -> Seq<char> {
    if !runner.next_kill_success() {
        runner.next_kill_message()
    } else if !runner.next_start_success() {
        runner.next_start_message()
    } else {
        "Explorer.exe restarted successfully"@
    }
}

/// The primitive invocations a restart appends to a runner's event log: a
/// terminate request for the target, and — only when the terminate step
/// succeeds — one wait of the configured delay followed by one launch
/// request for the target, in that order.
pub open spec fn restart_events(pre: Seq<RunnerEvent>, kill_ok: bool, delay_ms: u64) -> Seq<
    RunnerEvent,
> {
    if kill_ok {
        pre.push(RunnerEvent::Kill(target_name())).push(RunnerEvent::Wait(delay_ms)).push(
            RunnerEvent::Start(target_name()),
        )
    } else {
        pre.push(RunnerEvent::Kill(target_name()))
    }
}

/// A restart's failure always identifies the step that failed: a restart
/// succeeds exactly when both steps report success; when the terminate step
/// fails, its message is the restart's message; and when the terminate step
/// succeeds but the launch step fails, the launch step's message is the
/// restart's message.
pub proof fn lemma_restart_failure_identifies_step<R: ProcessRunner>(runner: R)
    ensures
        restart_succeeds(runner) <==> (runner.next_kill_success() && runner.next_start_success()),
        !runner.next_kill_success() ==> restart_message(runner) == runner.next_kill_message(),
        (runner.next_kill_success() && !runner.next_start_success()) ==> restart_message(runner)
            == runner.next_start_message(),
{
}

/// Relies on std::io::stdout and colored::Colorize: writes the line to
/// standard output in yellow.
#[verifier::external_body]
fn narrate_step(message: &str) {
    let _ = writeln!(std::io::stdout(), "{}", message.yellow());
}

/// Relies on std::io::stdout and colored::Colorize: writes the line to
/// standard output in green.
#[verifier::external_body]
fn narrate_success(message: &str) {
    let _ = writeln!(std::io::stdout(), "{}", message.green());
}

/// Relies on std::io::stderr and colored::Colorize: writes the line to
/// standard error in red.
#[verifier::external_body]
pub(crate) fn narrate_failure(message: &str) {
    let _ = writeln!(std::io::stderr(), "{}", message.red());
}

/// Relies on std::io::stdout and colored::Colorize: writes the line to
/// standard output in bold cyan.
#[verifier::external_body]
fn narrate_header(message: &str) {
    let _ = writeln!(std::io::stdout(), "{}", message.cyan().bold());
}

/// Relies on std::io::stdout and colored::Colorize: writes the line to
/// standard output in bold green.
#[verifier::external_body]
fn narrate_finale(message: &str) {
    let _ = writeln!(std::io::stdout(), "{}", message.green().bold());
}

/// Owns a process runner and a configured delay, and composes the runner's
/// primitives into the kill, start, and restart operations.
pub struct ExplorerManager<R: ProcessRunner> {
    /// The process runner the operations act through.
    pub runner: R,
    /// The pause between the terminate and launch steps of a restart.
    pub restart_delay_ms: u64,
}

impl<R: ProcessRunner> ExplorerManager<R> {
    /// A manager over the given runner with the default restart delay.
    pub fn new(runner: R) -> (m: ExplorerManager<R>)
        ensures
            m.runner == runner,
            m.restart_delay_ms == RESTART_DELAY_MS,
    {
        ExplorerManager { runner, restart_delay_ms: RESTART_DELAY_MS }
    }

    /// The same manager with the restart delay replaced.
    pub fn with_restart_delay(self, delay_ms: u64) -> (m: ExplorerManager<R>)
        ensures
            m.runner == self.runner,
            m.restart_delay_ms == delay_ms,
    {
        ExplorerManager { runner: self.runner, restart_delay_ms: delay_ms }
    }

    /// Terminate the managed process once, narrating to the console: a start
    /// notice and, on success, the result message go to standard output; a
    /// failure message goes to the error stream. Returns the terminate
    /// step's outcome.
    pub fn kill(&mut self) -> (r: bool)
        ensures
            r == old(self).runner.next_kill_success(),
            final(self).runner.events() == old(self).runner.events().push(
                RunnerEvent::Kill(target_name()),
            ),
            final(self).runner.wait_log() == old(self).runner.wait_log(),
            final(self).runner.next_start_success() == old(self).runner.next_start_success(),
            final(self).runner.next_start_message() == old(self).runner.next_start_message(),
            final(self).restart_delay_ms == old(self).restart_delay_ms,
    {
        narrate_step("Terminating explorer.exe...");
        let result = self.runner.kill_process("explorer.exe");

        if result.success {
            narrate_success(result.message.as_str());
        } else {
            narrate_failure(result.message.as_str());
        }

        result.success
    }

    /// Launch the managed process once, narrating to the console as `kill`
    /// does. Returns the launch step's outcome.
    pub fn start(&mut self) -> (r: bool)
        ensures
            r == old(self).runner.next_start_success(),
            final(self).runner.events() == old(self).runner.events().push(
                RunnerEvent::Start(target_name()),
            ),
            final(self).runner.wait_log() == old(self).runner.wait_log(),
            final(self).runner.next_kill_success() == old(self).runner.next_kill_success(),
            final(self).runner.next_kill_message() == old(self).runner.next_kill_message(),
            final(self).restart_delay_ms == old(self).restart_delay_ms,
    {
        narrate_step("Starting explorer.exe...");
        let result = self.runner.start_process("explorer.exe");

        if result.success {
            narrate_success(result.message.as_str());
        } else {
            narrate_failure(result.message.as_str());
        }

        result.success
    }

    /// Restart the managed process, narrating each step: terminate, then
    /// wait for the configured delay, then launch, in that order. If the
    /// terminate step fails, nothing is waited and nothing is launched;
    /// once it succeeds, exactly one wait of the configured delay is
    /// recorded, between the terminate and the launch.
    pub fn restart(&mut self) -> (r: bool)
        ensures
            r == restart_succeeds(old(self).runner),
            final(self).runner.events() == restart_events(
                old(self).runner.events(),
                old(self).runner.next_kill_success(),
                old(self).restart_delay_ms,
            ),
            !old(self).runner.next_kill_success() ==> final(self).runner.wait_log() == old(
                self).runner.wait_log(),
            old(self).runner.next_kill_success() ==> final(self).runner.wait_log() == old(
                self).runner.wait_log().push(old(self).restart_delay_ms),
            final(self).restart_delay_ms == old(self).restart_delay_ms,
    {
        narrate_header("Restarting explorer.exe...");

        if !self.kill() {
            return false;
        }

        let delay = self.restart_delay_ms;
        self.runner.sleep_ms(delay);

        if !self.start() {
            return false;
        }

        narrate_finale("Explorer.exe restarted successfully!");
        true
    }

    /// Terminate the managed process once, without narration, returning the
    /// primitive's result untouched.
    pub fn kill_silent(&mut self) -> (r: ProcessResult)
        ensures
            r.success == old(self).runner.next_kill_success(),
            r.message@ == old(self).runner.next_kill_message(),
            final(self).runner.events() == old(self).runner.events().push(
                RunnerEvent::Kill(target_name()),
            ),
            final(self).runner.wait_log() == old(self).runner.wait_log(),
            final(self).runner.next_start_success() == old(self).runner.next_start_success(),
            final(self).runner.next_start_message() == old(self).runner.next_start_message(),
            final(self).restart_delay_ms == old(self).restart_delay_ms,
    {
        self.runner.kill_process("explorer.exe")
    }

    /// Launch the managed process once, without narration, returning the
    /// primitive's result untouched.
    pub fn start_silent(&mut self) -> (r: ProcessResult)
        ensures
            r.success == old(self).runner.next_start_success(),
            r.message@ == old(self).runner.next_start_message(),
            final(self).runner.events() == old(self).runner.events().push(
                RunnerEvent::Start(target_name()),
            ),
            final(self).runner.wait_log() == old(self).runner.wait_log(),
            final(self).runner.next_kill_success() == old(self).runner.next_kill_success(),
            final(self).runner.next_kill_message() == old(self).runner.next_kill_message(),
            final(self).restart_delay_ms == old(self).restart_delay_ms,
    {
        self.runner.start_process("explorer.exe")
    }

    /// Restart the managed process without narration: terminate, then wait
    /// for the configured delay, then launch, in that order, stopping at the
    /// first failing step and returning that step's result untouched; when
    /// both steps succeed, the fixed success result.
    pub fn restart_silent(&mut self) -> (r: ProcessResult)
        ensures
            r.success == restart_succeeds(old(self).runner),
            r.message@ == restart_message(old(self).runner),
            final(self).runner.events() == restart_events(
                old(self).runner.events(),
                old(self).runner.next_kill_success(),
                old(self).restart_delay_ms,
            ),
            !old(self).runner.next_kill_success() ==> final(self).runner.wait_log() == old(
                self).runner.wait_log(),
            old(self).runner.next_kill_success() ==> final(self).runner.wait_log() == old(
                self).runner.wait_log().push(old(self).restart_delay_ms),
            final(self).restart_delay_ms == old(self).restart_delay_ms,
    {
        let kill_result = self.runner.kill_process("explorer.exe");
        if !kill_result.success {
            return kill_result;
        }

        let delay = self.restart_delay_ms;
        self.runner.sleep_ms(delay);

        let start_result = self.runner.start_process("explorer.exe");
        if !start_result.success {
            return start_result;
        }

        ProcessResult::success("Explorer.exe restarted successfully")
    }
}

} // verus!
