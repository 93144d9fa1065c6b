//! The shared slot that holds the running worker, and the lifecycle that
//! fills it once at startup and empties it on the first teardown trigger.

use vstd::prelude::*;
use crate::command::Platform;
use crate::launch::LaunchError;
use crate::reaper::{reap_plan, reap_plan_spec, ReapStep};

verus! {

/// One running worker: the handle that can terminate the direct child, and
/// the process id the child reported.
pub struct WorkerHandle<C> {
    pub child: C,
    pub pid: u32,
}

/// Where the supervisor stands in the worker's lifetime.
#[derive(Clone, Copy, Debug, PartialEq, Eq, Structural)]
pub enum Phase {
    Unstarted,
    Running,
    Stopped,
}

/// A lifecycle event that the host delivers.
#[derive(Clone, Copy, Debug, PartialEq, Eq, Structural)]
pub enum HostEvent {
    /// The primary window has been torn down.
    WindowDestroyed,
    /// The host process is exiting.
    AppExit,
    /// Any other event; the supervisor ignores it.
    Other,
}

/// Whether `e` is one of the two teardown triggers.
pub open spec fn is_trigger(e: HostEvent) -> bool {
    e == HostEvent::WindowDestroyed || e == HostEvent::AppExit
}

/// A worker taken out of the slot, with the steps that reap its tree.
pub struct Teardown<C> {
    pub child: C,
    pub pid: u32,
    pub steps: Vec<ReapStep>,
}

/// The shared slot and the phase of the lifecycle. The host keeps one for
/// the application's lifetime, behind a lock.
pub struct Supervisor<C> {
    pub slot: Option<WorkerHandle<C>>,
    pub phase: Phase,
}

/// The phase after a teardown trigger: a running worker is stopped, and
/// any other phase stays as it is.
pub open spec fn teardown_phase(p: Phase) -> Phase {
    if p == Phase::Running {
        Phase::Stopped
    } else {
        p
    }
}

impl<C> Supervisor<C> {
    /// A worker is held exactly while the lifecycle is running.
    pub open spec fn wf(self) -> bool {
        (self.phase == Phase::Running) == (self.slot is Some)
    }

    /// The state after a teardown trigger: the slot is empty.
    pub open spec fn after_teardown(self) -> Self {
        Supervisor { slot: None, phase: teardown_phase(self.phase) }
    }

    /// The state after a launch has been recorded: a launched worker is
    /// stored and running; a failed launch stores nothing.
    pub open spec fn after_launch(self, outcome: Result<WorkerHandle<C>, LaunchError>) -> Self {
        match outcome {
            Ok(w) => Supervisor { slot: Some(w), phase: Phase::Running },
            Err(_) => self,
        }
    }

    /// An empty slot, before any launch.
    pub fn new() -> (r: Self)
        ensures
            r.slot is None,
            r.phase == Phase::Unstarted,
            r.wf(),
    {
        Supervisor { slot: None, phase: Phase::Unstarted }
    }

    /// Records the outcome of the one launch: a spawned worker is stored and
    /// the lifecycle runs; a failure is handed back and nothing is stored.
    pub fn record_launch(&mut self, outcome: Result<WorkerHandle<C>, LaunchError>) -> (r: Result<
        (),
        LaunchError,
    >)
        requires
            old(self).phase == Phase::Unstarted,
            old(self).wf(),
        ensures
            *final(self) == old(self).after_launch(outcome),
            final(self).wf(),
            outcome is Ok <==> r is Ok,
            outcome matches Err(e) ==> r == Err::<(), LaunchError>(e),
    {
        match outcome {
            Ok(w) => {
                self.slot = Some(w);
                self.phase = Phase::Running;
                Ok(())
            },
            Err(e) => Err(e),
        }
    }

    /// The teardown routine shared by every trigger. It takes the worker out
    /// of the slot, leaving it empty, and hands it back with the steps that
    /// reap its process tree. Where the slot is already empty it hands back
    /// nothing, so no step runs.
    pub fn teardown(&mut self, platform: Platform) -> (r: Option<Teardown<C>>)
        ensures
            *final(self) == old(self).after_teardown(),
            r is Some <==> old(self).slot is Some,
            r matches Some(t) ==> ({
                &&& t.child == old(self).slot->Some_0.child
                &&& t.pid == old(self).slot->Some_0.pid
                &&& t.steps@ == reap_plan_spec(platform, t.pid)
            }),
            old(self).wf() ==> final(self).wf(),
    {
        let taken = self.slot.take();
        self.phase = match self.phase {
            Phase::Running => Phase::Stopped,
            Phase::Unstarted => Phase::Unstarted,
            Phase::Stopped => Phase::Stopped,
        };
        match taken {
            Some(w) => {
                let steps = reap_plan(platform, w.pid);
                Some(Teardown { child: w.child, pid: w.pid, steps })
            },
            None => None,
        }
    }

    /// Reacts to a host event: both triggers run the teardown routine, and
    /// any other event changes nothing.
    pub fn on_event(&mut self, event: HostEvent, platform: Platform) -> (r: Option<Teardown<C>>)
        ensures
            is_trigger(event) ==> *final(self) == old(self).after_teardown(),
            !is_trigger(event) ==> *final(self) == *old(self) && r is None,
            r is Some <==> is_trigger(event) && old(self).slot is Some,
            r matches Some(t) ==> ({
                &&& t.child == old(self).slot->Some_0.child
                &&& t.pid == old(self).slot->Some_0.pid
                &&& t.steps@ == reap_plan_spec(platform, t.pid)
            }),
            old(self).wf() ==> final(self).wf(),
    {
        match event {
            HostEvent::WindowDestroyed | HostEvent::AppExit => self.teardown(platform),
            HostEvent::Other => None,
        }
    }
}

/// A second teardown after the first finds the slot empty: it extracts no
/// worker, runs no step, and leaves the state as the first one left it.
pub proof fn lemma_teardown_idempotent<C>(s: Supervisor<C>)
    ensures
        s.after_teardown().slot is None,
        s.after_teardown().after_teardown() == s.after_teardown(),
{
}

/// Two teardown triggers, serialised by the lock in either order, extract
/// the worker exactly once between them when it is running, never when it
/// is not, and leave the slot empty.
pub proof fn lemma_two_triggers_extract_once<C>(s: Supervisor<C>)
    requires
        s.wf(),
    ensures
        (if s.slot is Some { 1int } else { 0int }) + (if s.after_teardown().slot is Some {
            1int
        } else {
            0int
        }) == (if s.phase == Phase::Running { 1int } else { 0int }),
        s.after_teardown().after_teardown().slot is None,
        s.after_teardown().after_teardown().wf(),
{
}

/// A failed launch stores nothing: the slot stays empty, and a later
/// teardown trigger extracts nothing.
pub proof fn lemma_failed_launch_stores_nothing<C>(s: Supervisor<C>, e: LaunchError)
    requires
        s.wf(),
        s.phase == Phase::Unstarted,
    ensures
        s.after_launch(Err(e)).slot is None,
        s.after_launch(Err(e)).after_teardown() == s.after_launch(Err(e)),
{
}

} // verus!
