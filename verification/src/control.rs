//! The control loop: the orchestrator's state machine.
//!
//! The loop owns the retained snapshot and the process supervisor. The
//! caller validates the configuration, takes fresh snapshots, waits on the
//! timer and the interrupt source, and carries out the returned
//! [`SupervisorAction`]s; every decision in between is made here.

use vstd::prelude::*;
use crate::command::WatchError;
use crate::detector::changed;
use crate::detector::changed_between;
use crate::snapshot::Snapshot;
use crate::snapshot::Timestamp;
use crate::supervisor::Supervisor;
use crate::supervisor::SupervisorAction;

verus! {

/// The watch loop's phase.
#[derive(Clone, Copy, Debug, PartialEq, Eq, Structural)]
pub enum Phase {
    /// Configuration validated, first snapshot taken, child not yet started.
    Initializing,
    /// Waiting for timer ticks and interrupts.
    Watching,
    /// An interrupt arrived; the child is still to be stopped.
    ShuttingDown,
    /// The loop has exited.
    Terminated,
}

/// Initialization gate: the watch root must exist before the loop starts;
/// a missing root is fatal and nothing may be spawned after it.
pub fn validate_watch_root(root_exists: bool) -> (r: Result<(), WatchError>)
    ensures
        r is Ok <==> root_exists,
        !root_exists ==> r == Err::<(), WatchError>(WatchError::PathNotFound),
{
    if root_exists {
        Ok(())
    } else {
        Err(WatchError::PathNotFound)
    }
}

/// The orchestrator: drives snapshot, detection and the supervisor on
/// each tick, and exits cleanly on interrupt.
pub struct ControlLoop {
    phase: Phase,
    supervisor: Supervisor,
    snapshot: Snapshot,
}

impl ControlLoop {
    /// The current phase, for contracts.
    pub closed spec fn phase_spec(&self) -> Phase {
        self.phase
    }

    /// The mapping held by the retained snapshot.
    pub closed spec fn snapshot_view(&self) -> Map<Seq<u8>, Timestamp> {
        self.snapshot@
    }

    /// Whether the supervisor currently manages a child.
    pub closed spec fn process_running(&self) -> bool {
        self.supervisor.is_running()
    }

    /// The loop's invariant: the retained snapshot is well formed, and a
    /// child is managed exactly as the phase demands — none before launch,
    /// exactly one while watching.
    pub closed spec fn wf(&self) -> bool {
        &&& self.snapshot.wf()
        &&& (self.phase_spec() == Phase::Initializing ==> self.supervisor.is_stopped())
        &&& (self.phase_spec() == Phase::Watching ==> self.supervisor.is_running())
    }

    /// Begin in `Initializing`, retaining the first snapshot; no child
    /// is managed yet.
    pub fn new(first: Snapshot) -> (c: ControlLoop)
        requires
            first.wf(),
        ensures
            c.wf(),
            c.phase_spec() == Phase::Initializing,
            c.snapshot_view() == first@,
            !c.process_running(),
    {
        ControlLoop { phase: Phase::Initializing, supervisor: Supervisor::new(), snapshot: first }
    }

    /// Leave `Initializing`: start the first child and begin watching.
    pub fn launch(&mut self) -> (a: SupervisorAction)
        requires
            old(self).wf(),
            old(self).phase_spec() == Phase::Initializing,
        ensures
            final(self).wf(),
            final(self).phase_spec() == Phase::Watching,
            final(self).process_running(),
            final(self).snapshot_view() == old(self).snapshot_view(),
            a == SupervisorAction::Spawn,
    {
        let a = self.supervisor.start();
        self.phase = Phase::Watching;
        a
    }

    /// One timer tick: diff the fresh snapshot against the retained one,
    /// restart the child exactly when a change was detected, and retain
    /// the fresh snapshot either way, so the next comparison is against
    /// the immediately preceding state.
    pub fn on_tick(&mut self, fresh: Snapshot) -> (a: SupervisorAction)
        requires
            old(self).wf(),
            old(self).phase_spec() == Phase::Watching,
            fresh.wf(),
        ensures
            final(self).wf(),
            final(self).phase_spec() == Phase::Watching,
            final(self).process_running(),
            final(self).snapshot_view() == fresh@,
            a == if changed_between(old(self).snapshot_view(), fresh@) {
                SupervisorAction::KillThenSpawn
            } else {
                SupervisorAction::NoAction
            },
    {
        let did_change = changed(&self.snapshot, &fresh);
        self.snapshot = fresh;
        if did_change {
            self.supervisor.restart()
        } else {
            SupervisorAction::NoAction
        }
    }

    /// An interrupt: leave `Watching` and begin shutting down. The child
    /// is not yet touched; ticks and interrupts are strictly serialized
    /// through the loop, so no restart can interleave from here on.
    pub fn on_interrupt(&mut self)
        requires
            old(self).wf(),
            old(self).phase_spec() == Phase::Watching,
        ensures
            final(self).wf(),
            final(self).phase_spec() == Phase::ShuttingDown,
            final(self).process_running() == old(self).process_running(),
            final(self).snapshot_view() == old(self).snapshot_view(),
    {
        self.phase = Phase::ShuttingDown;
    }

    /// Shut down: stop any running child and terminate the loop.
    pub fn shutdown(&mut self) -> (a: SupervisorAction)
        requires
            old(self).wf(),
            old(self).phase_spec() == Phase::ShuttingDown,
        ensures
            final(self).wf(),
            final(self).phase_spec() == Phase::Terminated,
            !final(self).process_running(),
            a == if old(self).process_running() {
                SupervisorAction::Kill
            } else {
                SupervisorAction::NoAction
            },
    {
        let a = self.supervisor.stop();
        self.phase = Phase::Terminated;
        a
    }

    /// The current phase.
    pub fn phase(&self) -> (p: Phase)
        ensures
            p == self.phase_spec(),
    {
        self.phase
    }

    /// Whether a child is currently managed.
    pub fn running(&self) -> (r: bool)
        ensures
            r == self.process_running(),
    {
        self.supervisor.running()
    }
}

} // verus!
