//! The shutdown of a worker, step by step: signal, poll until the worker has
//! exited or the timeout has passed, kill if it has not exited, join the readers.

use vstd::prelude::*;

verus! {

/// What a look at the worker process showed.
#[derive(Clone, Copy, Debug, PartialEq, Eq, Structural)]
pub enum Probe {
    /// The worker has exited.
    Exited,
    /// The worker is alive.
    Running,
    /// The worker's state could not be read.
    Failed,
}

/// What the supervisor's `stop` leaves to do.
#[derive(Clone, Copy, Debug, PartialEq, Eq, Structural)]
pub enum StopPlan {
    /// No worker was attached.
    Nothing,
    /// The worker that was attached is now the caller's to terminate.
    Terminate,
}

/// How long a shutdown waits for the worker to exit by itself, in milliseconds.
pub const STOP_TIMEOUT_MS: u64 = 5000;

/// How long a shutdown sleeps between two looks at the worker, in milliseconds.
pub const STOP_POLL_INTERVAL_MS: u64 = 100;

/// Where a shutdown stands.
#[derive(Clone, Copy, Debug, PartialEq, Eq, Structural)]
pub enum StopPhase {
    Signalling,
    Polling,
    Killing,
    Joining,
    Finished,
}

/// What the caller does next in a shutdown.
#[derive(Clone, Copy, Debug, PartialEq, Eq, Structural)]
pub enum StopStep {
    /// Close the worker's input and ask the worker to terminate.
    Signal,
    /// Sleep for `ms` milliseconds, then look at the worker.
    Wait { ms: u64 },
    /// Kill the worker and wait for its exit, however long that takes.
    Kill,
    /// Join the reader tasks.
    Join,
    /// Nothing is left to do.
    Done,
}

/// The shutdown of one worker, step by step: signal, poll until the worker
/// exits or the timeout has passed, kill if it has not exited, join the readers.
#[derive(Clone, Copy, Debug, PartialEq, Eq, Structural)]
pub struct StopSequence {
    pub phase: StopPhase,
    /// The time slept so far, in milliseconds.
    pub waited_ms: u64,
    pub timeout_ms: u64,
    pub interval_ms: u64,
}

impl StopSequence {
    /// The sequence makes progress and has not waited past its timeout.
    pub open spec fn wf(self) -> bool {
        &&& self.interval_ms >= 1
        &&& self.phase == StopPhase::Polling ==> self.waited_ms < self.timeout_ms
    }

    /// What the caller does next.
    pub open spec fn step_of(self) -> StopStep {
        match self.phase {
            StopPhase::Signalling => StopStep::Signal,
            StopPhase::Polling => StopStep::Wait { ms: self.interval_ms },
            StopPhase::Killing => StopStep::Kill,
            StopPhase::Joining => StopStep::Join,
            StopPhase::Finished => StopStep::Done,
        }
    }

    /// The sequence after the caller did the step. `probe` is what the look at
    /// the worker showed after a wait; a wait without a look counts as a
    /// worker still running. After a wait the worker has exited (join), or
    /// its state cannot be read or the timeout has passed (kill), or the
    /// sequence waits again.
    pub open spec fn after(self, probe: Option<Probe>) -> StopSequence {
        match self.phase {
            StopPhase::Signalling => StopSequence {
                phase: if self.timeout_ms == 0 {
                    StopPhase::Killing
                } else {
                    StopPhase::Polling
                },
                waited_ms: 0,
                ..self
            },
            StopPhase::Polling => {
                let waited: u64 = if self.waited_ms + self.interval_ms <= u64::MAX {
                    (self.waited_ms + self.interval_ms) as u64
                } else {
                    u64::MAX
                };
                let phase = if probe == Some(Probe::Exited) {
                    StopPhase::Joining
                } else if probe == Some(Probe::Failed) || waited >= self.timeout_ms {
                    StopPhase::Killing
                } else {
                    StopPhase::Polling
                };
                StopSequence { phase, waited_ms: waited, ..self }
            },
            StopPhase::Killing => StopSequence { phase: StopPhase::Joining, ..self },
            StopPhase::Joining => StopSequence { phase: StopPhase::Finished, ..self },
            StopPhase::Finished => self,
        }
    }

    /// An upper bound on the steps that are left.
    pub open spec fn steps_left(self) -> nat {
        match self.phase {
            StopPhase::Signalling => (self.timeout_ms + 3) as nat,
            StopPhase::Polling => (self.timeout_ms - self.waited_ms + 2) as nat,
            StopPhase::Killing => 2,
            StopPhase::Joining => 1,
            StopPhase::Finished => 0,
        }
    }

    /// The shutdown that follows a call of `stop`, with the usual timing:
    /// nothing to do where `stop` handed out no worker.
    pub fn begin(plan: StopPlan) -> (sequence: Self)
        ensures
            sequence == (StopSequence {
                phase: if plan == StopPlan::Terminate {
                    StopPhase::Signalling
                } else {
                    StopPhase::Finished
                },
                waited_ms: 0,
                timeout_ms: STOP_TIMEOUT_MS,
                interval_ms: STOP_POLL_INTERVAL_MS,
            }),
            sequence.wf(),
    {
        let phase = match plan {
            StopPlan::Terminate => StopPhase::Signalling,
            StopPlan::Nothing => StopPhase::Finished,
        };
        StopSequence {
            phase,
            waited_ms: 0,
            timeout_ms: STOP_TIMEOUT_MS,
            interval_ms: STOP_POLL_INTERVAL_MS,
        }
    }

    /// What the caller does next.
    pub fn step(&self) -> (step: StopStep)
        ensures
            step == self.step_of(),
    {
        match self.phase {
            StopPhase::Signalling => StopStep::Signal,
            StopPhase::Polling => StopStep::Wait { ms: self.interval_ms },
            StopPhase::Killing => StopStep::Kill,
            StopPhase::Joining => StopStep::Join,
            StopPhase::Finished => StopStep::Done,
        }
    }

    /// Moves on after the caller did the step.
    pub fn advance(&mut self, probe: Option<Probe>)
        ensures
            *final(self) == old(self).after(probe),
    {
        match self.phase {
            StopPhase::Signalling => {
                self.waited_ms = 0;
                self.phase = if self.timeout_ms == 0 {
                    StopPhase::Killing
                } else {
                    StopPhase::Polling
                };
            },
            StopPhase::Polling => {
                let waited: u64 = match self.waited_ms.checked_add(self.interval_ms) {
                    Some(sum) => sum,
                    None => u64::MAX,
                };
                let exited = match probe {
                    Some(Probe::Exited) => true,
                    _ => false,
                };
                let failed = match probe {
                    Some(Probe::Failed) => true,
                    _ => false,
                };
                self.waited_ms = waited;
                self.phase = if exited {
                    StopPhase::Joining
                } else if failed || waited >= self.timeout_ms {
                    StopPhase::Killing
                } else {
                    StopPhase::Polling
                };
            },
            StopPhase::Killing => {
                self.phase = StopPhase::Joining;
            },
            StopPhase::Joining => {
                self.phase = StopPhase::Finished;
            },
            StopPhase::Finished => {},
        }
    }
}

/// A shutdown is bounded: every step but the last brings the end closer, the
/// worker is killed once the timeout has passed, and no sequence sleeps longer
/// than its timeout and one interval.
pub proof fn lemma_stop_is_bounded(sequence: StopSequence, probe: Option<Probe>)
    requires
        sequence.wf(),
    ensures
        sequence.after(probe).wf(),
        sequence.phase != StopPhase::Finished ==> sequence.after(probe).steps_left()
            < sequence.steps_left(),
        sequence.steps_left() <= sequence.timeout_ms + 3,
        sequence.phase == StopPhase::Polling ==> sequence.after(probe).waited_ms
            < sequence.timeout_ms + sequence.interval_ms,
        sequence.phase == StopPhase::Finished <==> sequence.step_of() == StopStep::Done,
{
}

} // verus!
