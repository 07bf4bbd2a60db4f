//! The process-runner capability: three primitive operations against a named
//! process, abstracted so the lifecycle logic can be verified against a
//! fully specified substitute instead of the real operating system.

use vstd::prelude::*;

use crate::result::ProcessResult;

verus! {

/// One invocation of a runner primitive, as recorded in a runner's event
/// log: a terminate request for a named process, a launch request for a
/// named process, or a wait of a duration.
pub enum RunnerEvent {
    /// A terminate request for the named process.
    Kill(Seq<char>),
    /// A launch request for the named process.
    Start(Seq<char>),
    /// A wait of the given number of milliseconds.
    Wait(u64),
}

/// The three primitives the lifecycle manager composes: terminate a named
/// process, launch a named process, and wait for a duration.
///
/// The trait exposes a specification-level model of a runner: what the next
/// terminate and the next launch would report, the log of waited durations,
/// and an event log that records every primitive invocation in order, with
/// the process name it was asked to act on. Each primitive pins its own
/// result, appends exactly its own event, and leaves the other observables
/// unchanged, which is what lets callers conclude, for example, that a
/// failed terminate step never waited and never launched, and that a
/// restart's wait comes between the terminate and the launch.
///
/// [`crate::ScriptedRunner`] implements the trait inside this library and is
/// proved against it; a binding to real process control lives with the
/// program that embeds the library and is not checked here.
pub trait ProcessRunner: Sized {
    /// Whether the next terminate request would report success. The default
    /// leaves it arbitrary, as for a runner bound to the real system.
    open spec fn next_kill_success(&self) -> bool {
        arbitrary()
    }

    /// The message the next terminate request would carry. The default
    /// leaves it arbitrary, as for a runner bound to the real system.
    open spec fn next_kill_message(&self) -> Seq<char> {
        arbitrary()
    }

    /// Whether the next launch request would report success. The default
    /// leaves it arbitrary, as for a runner bound to the real system.
    open spec fn next_start_success(&self) -> bool {
        arbitrary()
    }

    /// The message the next launch request would carry. The default
    /// leaves it arbitrary, as for a runner bound to the real system.
    open spec fn next_start_message(&self) -> Seq<char> {
        arbitrary()
    }

    /// Every primitive invocation so far, in order, with the name each
    /// process primitive was asked to act on. The default leaves it
    /// arbitrary, as for a runner bound to the real system.
    open spec fn events(&self) -> Seq<RunnerEvent> {
        arbitrary()
    }

    /// The durations waited so far, in order. The default leaves it
    /// arbitrary, as for a runner bound to the real system.
    open spec fn wait_log(&self) -> Seq<u64> {
        arbitrary()
    }

    /// Request forceful termination of every running instance of the named
    /// process. Waits for nothing and launches nothing.
    fn kill_process(&mut self, process_name: &str) -> (r: ProcessResult)
        ensures
            r.success == old(self).next_kill_success(),
            r.message@ == old(self).next_kill_message(),
            final(self).events() == old(self).events().push(RunnerEvent::Kill(process_name@)),
            final(self).wait_log() == old(self).wait_log(),
            final(self).next_start_success() == old(self).next_start_success(),
            final(self).next_start_message() == old(self).next_start_message(),
    ;

    /// Request that a new instance of the named process be started, detached
    /// from the caller. Waits for nothing and terminates nothing.
    fn start_process(&mut self, process_name: &str) -> (r: ProcessResult)
        ensures
            r.success == old(self).next_start_success(),
            r.message@ == old(self).next_start_message(),
            final(self).events() == old(self).events().push(RunnerEvent::Start(process_name@)),
            final(self).wait_log() == old(self).wait_log(),
            final(self).next_kill_success() == old(self).next_kill_success(),
            final(self).next_kill_message() == old(self).next_kill_message(),
    ;

    /// Suspend the calling execution context for the given number of
    /// milliseconds. Touches no process.
    fn sleep_ms(&mut self, ms: u64)
        ensures
            final(self).events() == old(self).events().push(RunnerEvent::Wait(ms)),
            final(self).wait_log() == old(self).wait_log().push(ms),
            final(self).next_kill_success() == old(self).next_kill_success(),
            final(self).next_kill_message() == old(self).next_kill_message(),
            final(self).next_start_success() == old(self).next_start_success(),
            final(self).next_start_message() == old(self).next_start_message(),
    ;
}

/// A programmable runner: it returns pre-scripted results instead of touching
/// the operating system and records every primitive invocation.
///
/// Scripted results are consumed from the back of each list; when a list is
/// exhausted, the primitive reports failure with a fixed diagnostic.
pub struct ScriptedRunner {
    /// Pending terminate results; the next one returned is the last.
    pub kill_results: Vec<ProcessResult>,
    /// Pending launch results; the next one returned is the last.
    pub start_results: Vec<ProcessResult>,
    /// Every duration handed to `sleep_ms`, in call order.
    pub sleep_calls: Vec<u64>,
    /// Every primitive invocation, in call order.
    pub history: Ghost<Seq<RunnerEvent>>,
}

impl ScriptedRunner {
    /// A runner with no scripted results and no recorded invocations.
    pub fn new() -> (r: ScriptedRunner)
        ensures
            r.kill_results@.len() == 0,
            r.start_results@.len() == 0,
            r.wait_log().len() == 0,
            r.events().len() == 0,
    {
        ScriptedRunner {
            kill_results: Vec::new(),
            start_results: Vec::new(),
            sleep_calls: Vec::new(),
            history: Ghost(Seq::empty()),
        }
    }

    /// Script the result of the next terminate request.
    pub fn with_kill_result(self, result: ProcessResult) -> (r: ScriptedRunner)
        ensures
            r.kill_results@ == self.kill_results@.push(result),
            r.start_results@ == self.start_results@,
            r.wait_log() == self.wait_log(),
            r.events() == self.events(),
    {
        let mut r = self;
        r.kill_results.push(result);
        r
    }

    /// Script the result of the next launch request.
    pub fn with_start_result(self, result: ProcessResult) -> (r: ScriptedRunner)
        ensures
            r.start_results@ == self.start_results@.push(result),
            r.kill_results@ == self.kill_results@,
            r.wait_log() == self.wait_log(),
            r.events() == self.events(),
    {
        let mut r = self;
        r.start_results.push(result);
        r
    }

    /// The durations waited so far, in call order.
    pub fn get_sleep_calls(&self) -> (r: Vec<u64>)
        ensures
            r@ == self.wait_log(),
    {
        let mut out: Vec<u64> = Vec::new();
        let mut i: usize = 0;
        while i < self.sleep_calls.len()
            invariant
                i <= self.sleep_calls@.len(),
                out@ == self.sleep_calls@.subrange(0, i as int),
            decreases self.sleep_calls@.len() - i,
        {
            out.push(self.sleep_calls[i]);
            proof {
                assert(out@ =~= self.sleep_calls@.subrange(0, i + 1));
            }
            i += 1;
        }
        proof {
            assert(out@ =~= self.sleep_calls@);
        }
        out
    }
}

impl ProcessRunner for ScriptedRunner {
    open spec fn next_kill_success(&self) -> bool {
        if self.kill_results@.len() > 0 {
            self.kill_results@.last().success
        } else {
            false
        }
    }

    open spec fn next_kill_message(&self) -> Seq<char> {
        if self.kill_results@.len() > 0 {
            self.kill_results@.last().message@
        } else {
            "No scripted result configured"@
        }
    }

    open spec fn next_start_success(&self) -> bool {
        if self.start_results@.len() > 0 {
            self.start_results@.last().success
        } else {
            false
        }
    }

    open spec fn next_start_message(&self) -> Seq<char> {
        if self.start_results@.len() > 0 {
            self.start_results@.last().message@
        } else {
            "No scripted result configured"@
        }
    }

    open spec fn events(&self) -> Seq<RunnerEvent> {
        self.history@
    }

    open spec fn wait_log(&self) -> Seq<u64> {
        self.sleep_calls@
    }

    fn kill_process(&mut self, process_name: &str) -> (r: ProcessResult) {
        self.history = Ghost(self.history@.push(RunnerEvent::Kill(process_name@)));
        match self.kill_results.pop() {
            Some(result) => result,
            None => ProcessResult::failure("No scripted result configured"),
        }
    }

    fn start_process(&mut self, process_name: &str) -> (r: ProcessResult) {
        self.history = Ghost(self.history@.push(RunnerEvent::Start(process_name@)));
        match self.start_results.pop() {
            Some(result) => result,
            None => ProcessResult::failure("No scripted result configured"),
        }
    }

    fn sleep_ms(&mut self, ms: u64) {
        self.history = Ghost(self.history@.push(RunnerEvent::Wait(ms)));
        self.sleep_calls.push(ms);
    }
}

} // verus!
