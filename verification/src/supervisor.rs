//! The process supervisor: a two-state machine over the single child
//! process. The supervisor decides every transition; the caller carries
//! out the returned [`SupervisorAction`] against the operating system.

use vstd::prelude::*;

verus! {

/// What the caller must do to the child process after a transition.
#[derive(Clone, Copy, Debug, PartialEq, Eq, Structural)]
pub enum SupervisorAction {
    /// Spawn a fresh child from the command spec.
    Spawn,
    /// Kill the running child and wait until the system reaps it.
    Kill,
    /// Kill and reap the running child, then spawn a fresh one.
    KillThenSpawn,
    /// Leave the child as it is.
    NoAction,
}

/// The supervisor's view of the child process.
#[derive(Clone, Copy, Debug, PartialEq, Eq, Structural)]
pub enum ProcessState {
    /// No child is managed.
    Stopped,
    /// Exactly one child is managed.
    Running,
}

/// Owns the lifecycle of at most one child process at any time: before a
/// new child is spawned, any existing one must have been terminated.
pub struct Supervisor {
    state: ProcessState,
}

impl Supervisor {
    /// The current state, for contracts.
    pub closed spec fn state_spec(&self) -> ProcessState {
        self.state
    }

    pub open spec fn is_running(&self) -> bool {
        self.state_spec() == ProcessState::Running
    }

    pub open spec fn is_stopped(&self) -> bool {
        self.state_spec() == ProcessState::Stopped
    }

    /// A new supervisor manages no process.
    pub fn new() -> (s: Supervisor)
        ensures
            s.is_stopped(),
    {
        Supervisor { state: ProcessState::Stopped }
    }

    /// The current state.
    pub fn state(&self) -> (st: ProcessState)
        ensures
            st == self.state_spec(),
    {
        self.state
    }

    /// Whether a child is currently managed.
    pub fn running(&self) -> (r: bool)
        ensures
            r == self.is_running(),
    {
        match self.state {
            ProcessState::Running => true,
            ProcessState::Stopped => false,
        }
    }

    /// Start the child. Valid only while stopped; the caller must spawn.
    pub fn start(&mut self) -> (a: SupervisorAction)
        requires
            old(self).is_stopped(),
        ensures
            final(self).is_running(),
            a == SupervisorAction::Spawn,
    {
        self.state = ProcessState::Running;
        SupervisorAction::Spawn
    }

    /// Stop the child: the caller must kill it and wait for the exit, so
    /// no zombie remains. Idempotent: stopping an already-stopped
    /// supervisor asks nothing of the caller and is not an error.
    pub fn stop(&mut self) -> (a: SupervisorAction)
        ensures
            final(self).is_stopped(),
            a == if old(self).is_running() {
                SupervisorAction::Kill
            } else {
                SupervisorAction::NoAction
            },
    {
        match self.state {
            ProcessState::Running => {
                self.state = ProcessState::Stopped;
                SupervisorAction::Kill
            },
            ProcessState::Stopped => SupervisorAction::NoAction,
        }
    }

    /// Stop then start, as one operation: the caller never observes the
    /// intermediate stopped state as meaningful.
    pub fn restart(&mut self) -> (a: SupervisorAction)
        ensures
            final(self).is_running(),
            a == if old(self).is_running() {
                SupervisorAction::KillThenSpawn
            } else {
                SupervisorAction::Spawn
            },
    {
        let stopped = self.stop();
        let started = self.start();
        match stopped {
            SupervisorAction::Kill => SupervisorAction::KillThenSpawn,
            _ => started,
        }
    }
}

} // verus!
