use vstd::prelude::*;

verus! {

/// How a subprocess ended on a Unix-style system: a normal exit code, or the
/// number of the signal that terminated it. Exactly one of the two is
/// populated for a well-formed outcome.
#[derive(Clone, Copy, Debug)]
pub struct ProcessOutcome {
    pub exit_code: Option<i32>,
    pub terminating_signal: Option<i32>,
}

impl ProcessOutcome {
    /// Exactly one of exit code and terminating signal is populated.
    pub open spec fn wf(&self) -> bool {
        (self.exit_code is Some) != (self.terminating_signal is Some)
    }

    /// The outcome of a process that exited normally with the given code.
    pub fn exited(code: i32) -> (r: Self)
        ensures
            r == (ProcessOutcome { exit_code: Some(code), terminating_signal: None }),
            r.wf(),
    {
        ProcessOutcome { exit_code: Some(code), terminating_signal: None }
    }

    /// The outcome of a process terminated by the given signal.
    pub fn signaled(signal: i32) -> (r: Self)
        ensures
            r == (ProcessOutcome { exit_code: None, terminating_signal: Some(signal) }),
            r.wf(),
    {
        ProcessOutcome { exit_code: None, terminating_signal: Some(signal) }
    }

    /// Did the process exit normally with code 0?
    pub open spec fn spec_success(&self) -> bool {
        self.exit_code == Some(0i32)
    }

    pub fn success(&self) -> (r: bool)
        ensures
            r == self.spec_success(),
    {
        match self.exit_code {
            Some(c) => c == 0,
            None => false,
        }
    }

    /// The exit status this program forwards: the child's exit code when it
    /// exited, otherwise the number of the terminating signal.
    pub open spec fn spec_exit_value(&self) -> i32 {
        if self.exit_code is Some {
            self.exit_code->0
        } else {
            self.terminating_signal->0
        }
    }

    pub fn exit_value(&self) -> (r: i32)
        requires
            self.wf(),
        ensures
            r == self.spec_exit_value(),
    {
        match (self.exit_code, self.terminating_signal) {
            (Some(c), _) => c,
            (_, Some(s)) => s,
            _ => {
                proof {
                    assert(false);
                }
                0
            },
        }
    }
}

/// Decide whether to go on after the existence check: a failed check yields
/// the exit status to abort with, before any operation is dispatched; a
/// successful check yields nothing and lets operations proceed.
pub fn check_gate(outcome: &ProcessOutcome) -> (r: Option<i32>)
    requires
        outcome.wf(),
    ensures
        outcome.spec_success() <==> r is None,
        !outcome.spec_success() ==> r == Some(outcome.spec_exit_value()),
{
    if outcome.success() {
        None
    } else {
        Some(outcome.exit_value())
    }
}

} // verus!
