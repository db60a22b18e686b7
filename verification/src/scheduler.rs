//! The processing loop's decision core: a bounded concurrency permit
//! pool, the single-slot wake signal, and the per-session state machine
//! that orders task creation and execution.
//!
//! The host owns the long-lived loop (its timers, store calls and
//! spawned plugin work); every decision the loop takes — whether a
//! permit is free, which task to start, when to create the next task,
//! when to close the session — is made here, on plain state.

use vstd::prelude::*;

use crate::status::{FlowSessionStatus, TaskStatus, TriggerSessionStatus};

verus! {

/// The global bounded concurrency limiter: a fixed number of permits;
/// one permit is held for the whole of each in-flight task execution.
pub struct PermitPool {
    capacity: usize,
    available: usize,
}

impl PermitPool {
    pub closed spec fn spec_capacity(self) -> int {
        self.capacity as int
    }

    pub closed spec fn spec_available(self) -> int {
        self.available as int
    }

    /// Number of permits currently held by in-flight executions.
    pub open spec fn spec_in_flight(self) -> int {
        self.spec_capacity() - self.spec_available()
    }

    pub open spec fn inv(self) -> bool {
        0 <= self.spec_available() <= self.spec_capacity()
    }

    /// A pool with all `capacity` permits free.
    pub fn new(capacity: usize) -> (r: PermitPool)
        ensures
            r.inv(),
            r.spec_capacity() == capacity,
            r.spec_available() == capacity,
    {
        PermitPool { capacity, available: capacity }
    }

    pub fn capacity(&self) -> (r: usize)
        ensures
            r as int == self.spec_capacity(),
    {
        self.capacity
    }

    pub fn available(&self) -> (r: usize)
        ensures
            r as int == self.spec_available(),
    {
        self.available
    }

    /// Non-blocking acquire: takes a permit when one is free, else
    /// leaves the pool unchanged so the caller defers to the next wake.
    pub fn try_acquire(&mut self) -> (r: bool)
        requires
            old(self).inv(),
        ensures
            final(self).inv(),
            final(self).spec_capacity() == old(self).spec_capacity(),
            r ==> old(self).spec_available() > 0 && final(self).spec_available() == old(
                self,
            ).spec_available() - 1,
            !r ==> old(self).spec_available() == 0 && *final(self) == *old(self),
    {
        if self.available > 0 {
            self.available = self.available - 1;
            true
        } else {
            false
        }
    }

    /// Give a permit back once an execution finishes, whatever its
    /// outcome.
    pub fn release(&mut self)
        requires
            old(self).inv(),
            old(self).spec_in_flight() > 0,
        ensures
            final(self).inv(),
            final(self).spec_capacity() == old(self).spec_capacity(),
            final(self).spec_available() == old(self).spec_available() + 1,
    {
        self.available = self.available + 1;
    }
}

/// The concurrency bound: however the pool is used, the number of
/// permits out — the number of task executions in flight — never
/// exceeds the configured capacity.
pub proof fn lemma_permit_bound(p: PermitPool)
    requires
        p.inv(),
    ensures
        0 <= p.spec_in_flight() <= p.spec_capacity(),
{
}

/// The processing loop's wake signal: a single-slot cell, not a queue.
/// Any number of raises before the next wake collapse into one.
pub struct WakeSignal {
    pending: bool,
}

impl WakeSignal {
    pub closed spec fn is_pending(self) -> bool {
        self.pending
    }

    pub fn new() -> (r: WakeSignal)
        ensures
            !r.is_pending(),
    {
        WakeSignal { pending: false }
    }

    /// Hint that task-creating work was submitted. Raising an already
    /// raised signal changes nothing: a hint, not a queue.
    pub fn raise(&mut self)
        ensures
            final(self).is_pending(),
    {
        self.pending = true;
    }

    /// Consume the signal at a wake: reports whether any work was
    /// hinted since the last wake, and clears the slot. The loop must
    /// re-scan for all runnable work, not assume one unit per raise.
    pub fn take(&mut self) -> (r: bool)
        ensures
            r == old(self).is_pending(),
            !final(self).is_pending(),
    {
        let r = self.pending;
        self.pending = false;
        r
    }
}

/// Signals collapse: however many times the signal is raised before a
/// wake, the loop observes exactly one pending hint.
pub proof fn lemma_signal_collapses(s: WakeSignal, t: WakeSignal)
    requires
        s.is_pending(),
        t.is_pending(),
    ensures
        s == t,
{
}

/// What the processing loop tracks of one flow session: how many
/// actions its plan holds, and the status of each task created so far,
/// indexed by `processing_order`.
pub struct SessionRun {
    pub planned: usize,
    pub statuses: Vec<TaskStatus>,
    pub flow_session_status: FlowSessionStatus,
    pub trigger_session_status: TriggerSessionStatus,
}

/// The next thing the loop does for one session on a wake.
#[derive(Clone, Copy, PartialEq, Eq, Structural, Debug)]
pub enum LoopAction {
    /// Mark the task at this processing order running and dispatch it.
    StartTask(usize),
    /// An execution is in flight: nothing to do until it settles.
    Wait,
    /// Create the task row for this next plan position.
    CreateNext(usize),
    /// Every planned task is terminal: close the session.
    CompleteSession,
}

impl SessionRun {
    /// The loop's per-session invariant: the trigger task exists, no
    /// more tasks exist than planned, and every task but the newest has
    /// settled — the engine never runs ahead of an unfinished task.
    pub open spec fn inv(self) -> bool {
        &&& 1 <= self.statuses@.len() <= self.planned
        &&& forall|i: int|
            0 <= i < self.statuses@.len() - 1 ==> (#[trigger] self.statuses@[i]).is_terminal()
    }

    /// Every created task has settled.
    pub open spec fn all_settled(self) -> bool {
        forall|i: int| 0 <= i < self.statuses@.len() ==> (#[trigger] self.statuses@[i]).is_terminal()
    }

    /// The newest task: the only one that may still be pending or
    /// running.
    pub open spec fn newest(self) -> TaskStatus {
        self.statuses@.last()
    }

    /// A fresh session: one pending trigger task, session statuses
    /// pending.
    pub fn start(planned: usize) -> (r: SessionRun)
        requires
            planned >= 1,
        ensures
            r.inv(),
            r.planned == planned,
            r.statuses@ =~= seq![TaskStatus::Pending],
            r.flow_session_status == FlowSessionStatus::Pending,
            r.trigger_session_status == TriggerSessionStatus::Pending,
    {
        let mut statuses: Vec<TaskStatus> = Vec::new();
        statuses.push(TaskStatus::Pending);
        SessionRun {
            planned,
            statuses,
            flow_session_status: FlowSessionStatus::Pending,
            trigger_session_status: TriggerSessionStatus::Pending,
        }
    }

    /// Decide the next step for this session: start the newest task if
    /// it is pending, wait while it runs, create the next planned task
    /// once it settles, and close the session when the plan is spent.
    pub fn next_action(&self) -> (r: LoopAction)
        requires
            self.inv(),
        ensures
            (match r {
                LoopAction::StartTask(k) => k as int == self.statuses@.len() - 1 && self.newest()
                    == TaskStatus::Pending,
                LoopAction::Wait => self.newest() == TaskStatus::Running,
                LoopAction::CreateNext(k) => k == self.statuses@.len() && self.newest().is_terminal()
                    && self.statuses@.len() < self.planned,
                LoopAction::CompleteSession => self.all_settled() && self.statuses@.len()
                    == self.planned,
            }),
    {
        let n = self.statuses.len();
        let newest = self.statuses[n - 1];
        match newest {
            TaskStatus::Pending => LoopAction::StartTask(n - 1),
            TaskStatus::Running => LoopAction::Wait,
            _ => {
                if n < self.planned {
                    LoopAction::CreateNext(n)
                } else {
                    LoopAction::CompleteSession
                }
            },
        }
    }

    /// The newest task enters `Running`, immediately before dispatch.
    pub fn apply_started(&mut self)
        requires
            old(self).inv(),
            old(self).newest() == TaskStatus::Pending,
        ensures
            final(self).inv(),
            final(self).planned == old(self).planned,
            final(self).statuses@ =~= old(self).statuses@.update(
                old(self).statuses@.len() - 1,
                TaskStatus::Running,
            ),
            final(self).flow_session_status == old(self).flow_session_status,
            final(self).trigger_session_status == old(self).trigger_session_status,
            old(self).newest().can_transition(final(self).newest()),
    {
        let n = self.statuses.len();
        self.statuses.set(n - 1, TaskStatus::Running);
    }

    /// The newest task settles with a terminal status.
    pub fn apply_settled(&mut self, outcome: TaskStatus)
        requires
            old(self).inv(),
            old(self).newest() == TaskStatus::Running,
            outcome.is_terminal(),
        ensures
            final(self).inv(),
            final(self).planned == old(self).planned,
            final(self).statuses@ =~= old(self).statuses@.update(
                old(self).statuses@.len() - 1,
                outcome,
            ),
            final(self).flow_session_status == old(self).flow_session_status,
            final(self).trigger_session_status == old(self).trigger_session_status,
            old(self).newest().can_transition(final(self).newest()),
    {
        let n = self.statuses.len();
        self.statuses.set(n - 1, outcome);
    }

    /// Create the next planned task, pending: only allowed once every
    /// earlier task has settled.
    pub fn apply_created(&mut self)
        requires
            old(self).inv(),
            old(self).newest().is_terminal(),
            old(self).statuses@.len() < old(self).planned,
        ensures
            final(self).inv(),
            final(self).planned == old(self).planned,
            final(self).statuses@ =~= old(self).statuses@.push(TaskStatus::Pending),
            final(self).flow_session_status == old(self).flow_session_status,
            final(self).trigger_session_status == old(self).trigger_session_status,
    {
        self.statuses.push(TaskStatus::Pending);
    }

    /// Close the session: the session-level statuses settle in
    /// lock-step with the final task — completed when every task
    /// completed, failed when any task failed or was canceled.
    pub fn apply_session_closed(&mut self)
        requires
            old(self).inv(),
            old(self).all_settled(),
            old(self).statuses@.len() == old(self).planned,
        ensures
            final(self).inv(),
            final(self).planned == old(self).planned,
            final(self).statuses@ =~= old(self).statuses@,
            final(self).flow_session_status.is_terminal(),
            final(self).trigger_session_status.is_terminal(),
            (final(self).flow_session_status == FlowSessionStatus::Completed <==> forall|i: int|
                0 <= i < old(self).statuses@.len() ==> (#[trigger] old(self).statuses@[i])
                    == TaskStatus::Completed),
            (final(self).flow_session_status == FlowSessionStatus::Completed <==> final(self).trigger_session_status == TriggerSessionStatus::Completed),
    {
        let mut all_completed = true;
        let mut i: usize = 0;
        let n = self.statuses.len();
        while i < n
            invariant
                i <= n,
                n == self.statuses@.len(),
                all_completed == (forall|j: int|
                    0 <= j < i ==> (#[trigger] self.statuses@[j]) == TaskStatus::Completed),
            decreases n - i,
        {
            if !(self.statuses[i] == TaskStatus::Completed) {
                all_completed = false;
            }
            i = i + 1;
        }
        if all_completed {
            self.flow_session_status = FlowSessionStatus::Completed;
            self.trigger_session_status = TriggerSessionStatus::Completed;
        } else {
            self.flow_session_status = FlowSessionStatus::Failed;
            self.trigger_session_status = TriggerSessionStatus::Failed;
        }
    }
}

/// Within one flow session, tasks run in strictly increasing
/// processing order: while the loop's invariant holds, a task at a
/// later position exists only after every earlier task reached a
/// terminal status — task `k + 1` never starts before task `k`
/// settles.
pub proof fn lemma_session_ordering(s: SessionRun, k: int)
    requires
        s.inv(),
        0 <= k < s.statuses@.len() - 1,
    ensures
        s.statuses@[k].is_terminal(),
{
}

/// At most one task of a session is ever unsettled, and it is the
/// newest: `Running` is entered exactly once per task, and no two tasks
/// of a session run in parallel.
pub proof fn lemma_one_unsettled(s: SessionRun, i: int, j: int)
    requires
        s.inv(),
        0 <= i < s.statuses@.len(),
        0 <= j < s.statuses@.len(),
        !s.statuses@[i].is_terminal(),
        !s.statuses@[j].is_terminal(),
    ensures
        i == j,
        i == s.statuses@.len() - 1,
{
}

} // verus!
