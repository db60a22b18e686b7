//! The three status state machines: task, trigger session, flow session.
//!
//! Every transition is driven by the processing loop alone. `Pending` is
//! the only initial state; `Running` is entered exactly once, immediately
//! before dispatch; the terminal states are mutually exclusive and final.

use vstd::prelude::*;

verus! {

/// Lifecycle of a single task: `Pending -> Running -> {Completed, Failed,
/// Canceled}`. `Canceled` is an externally requested marking applied
/// before or between executions, so it is also reachable from `Pending`.
#[derive(Clone, Copy, PartialEq, Eq, Structural, Debug)]
pub enum TaskStatus {
    Pending,
    Running,
    Completed,
    Failed,
    Canceled,
}

/// Lifecycle of one trigger firing: `Pending -> Running -> {Completed, Failed}`.
#[derive(Clone, Copy, PartialEq, Eq, Structural, Debug)]
pub enum TriggerSessionStatus {
    Pending,
    Running,
    Completed,
    Failed,
}

/// Lifecycle of one whole run of a workflow: `Pending -> Running -> {Completed, Failed}`.
#[derive(Clone, Copy, PartialEq, Eq, Structural, Debug)]
pub enum FlowSessionStatus {
    Pending,
    Running,
    Completed,
    Failed,
}

/// Whether a task execution was a production run or a dry run.
#[derive(Clone, Copy, PartialEq, Eq, Structural, Debug)]
pub enum Stage {
    Production,
    Testing,
}

/// Kind of a node in the workflow graph: the single trigger, or a step.
#[derive(Clone, Copy, PartialEq, Eq, Structural, Debug)]
pub enum ActionType {
    Trigger,
    Action,
}

impl TaskStatus {
    pub open spec fn str_spec(self) -> Seq<char> {
        match self {
            TaskStatus::Pending => "pending"@,
            TaskStatus::Running => "running"@,
            TaskStatus::Completed => "completed"@,
            TaskStatus::Failed => "failed"@,
            TaskStatus::Canceled => "canceled"@,
        }
    }

    /// The lower-case name under which the status is persisted.
    pub fn as_str(&self) -> (r: &'static str)
        ensures
            r@ == self.str_spec(),
    {
        match self {
            TaskStatus::Pending => "pending",
            TaskStatus::Running => "running",
            TaskStatus::Completed => "completed",
            TaskStatus::Failed => "failed",
            TaskStatus::Canceled => "canceled",
        }
    }

    /// A terminal status is never left again.
    pub open spec fn is_terminal(self) -> bool {
        match self {
            TaskStatus::Completed => true,
            TaskStatus::Failed => true,
            TaskStatus::Canceled => true,
            _ => false,
        }
    }

    pub fn terminal(&self) -> (r: bool)
        ensures
            r == self.is_terminal(),
    {
        match self {
            TaskStatus::Completed => true,
            TaskStatus::Failed => true,
            TaskStatus::Canceled => true,
            _ => false,
        }
    }

    /// The transition relation of the task state machine.
    pub open spec fn can_transition(self, to: TaskStatus) -> bool {
        match (self, to) {
            (TaskStatus::Pending, TaskStatus::Running) => true,
            (TaskStatus::Pending, TaskStatus::Canceled) => true,
            (TaskStatus::Running, TaskStatus::Completed) => true,
            (TaskStatus::Running, TaskStatus::Failed) => true,
            (TaskStatus::Running, TaskStatus::Canceled) => true,
            _ => false,
        }
    }
}

impl TriggerSessionStatus {
    pub open spec fn str_spec(self) -> Seq<char> {
        match self {
            TriggerSessionStatus::Pending => "pending"@,
            TriggerSessionStatus::Running => "running"@,
            TriggerSessionStatus::Completed => "completed"@,
            TriggerSessionStatus::Failed => "failed"@,
        }
    }

    /// The lower-case name under which the status is persisted.
    pub fn as_str(&self) -> (r: &'static str)
        ensures
            r@ == self.str_spec(),
    {
        match self {
            TriggerSessionStatus::Pending => "pending",
            TriggerSessionStatus::Running => "running",
            TriggerSessionStatus::Completed => "completed",
            TriggerSessionStatus::Failed => "failed",
        }
    }

    pub open spec fn is_terminal(self) -> bool {
        match self {
            TriggerSessionStatus::Completed => true,
            TriggerSessionStatus::Failed => true,
            _ => false,
        }
    }

    pub fn terminal(&self) -> (r: bool)
        ensures
            r == self.is_terminal(),
    {
        match self {
            TriggerSessionStatus::Completed => true,
            TriggerSessionStatus::Failed => true,
            _ => false,
        }
    }

    pub open spec fn can_transition(self, to: TriggerSessionStatus) -> bool {
        match (self, to) {
            (TriggerSessionStatus::Pending, TriggerSessionStatus::Running) => true,
            (TriggerSessionStatus::Running, TriggerSessionStatus::Completed) => true,
            (TriggerSessionStatus::Running, TriggerSessionStatus::Failed) => true,
            _ => false,
        }
    }
}

impl FlowSessionStatus {
    pub open spec fn str_spec(self) -> Seq<char> {
        match self {
            FlowSessionStatus::Pending => "pending"@,
            FlowSessionStatus::Running => "running"@,
            FlowSessionStatus::Completed => "completed"@,
            FlowSessionStatus::Failed => "failed"@,
        }
    }

    /// The lower-case name under which the status is persisted.
    pub fn as_str(&self) -> (r: &'static str)
        ensures
            r@ == self.str_spec(),
    {
        match self {
            FlowSessionStatus::Pending => "pending",
            FlowSessionStatus::Running => "running",
            FlowSessionStatus::Completed => "completed",
            FlowSessionStatus::Failed => "failed",
        }
    }

    pub open spec fn is_terminal(self) -> bool {
        match self {
            FlowSessionStatus::Completed => true,
            FlowSessionStatus::Failed => true,
            _ => false,
        }
    }

    pub fn terminal(&self) -> (r: bool)
        ensures
            r == self.is_terminal(),
    {
        match self {
            FlowSessionStatus::Completed => true,
            FlowSessionStatus::Failed => true,
            _ => false,
        }
    }

    pub open spec fn can_transition(self, to: FlowSessionStatus) -> bool {
        match (self, to) {
            (FlowSessionStatus::Pending, FlowSessionStatus::Running) => true,
            (FlowSessionStatus::Running, FlowSessionStatus::Completed) => true,
            (FlowSessionStatus::Running, FlowSessionStatus::Failed) => true,
            _ => false,
        }
    }
}

impl Stage {
    pub open spec fn str_spec(self) -> Seq<char> {
        match self {
            Stage::Production => "production"@,
            Stage::Testing => "testing"@,
        }
    }

    pub fn as_str(&self) -> (r: &'static str)
        ensures
            r@ == self.str_spec(),
    {
        match self {
            Stage::Production => "production",
            Stage::Testing => "testing",
        }
    }
}

impl ActionType {
    pub open spec fn str_spec(self) -> Seq<char> {
        match self {
            ActionType::Trigger => "trigger"@,
            ActionType::Action => "action"@,
        }
    }

    pub fn as_str(&self) -> (r: &'static str)
        ensures
            r@ == self.str_spec(),
    {
        match self {
            ActionType::Trigger => "trigger",
            ActionType::Action => "action",
        }
    }
}

/// A terminal task status has no outgoing transition: once a task
/// completes, fails, or is canceled, no later state is reachable.
pub proof fn lemma_task_terminal_is_final(s: TaskStatus)
    requires
        s.is_terminal(),
    ensures
        forall|t: TaskStatus| !s.can_transition(t),
{
}

/// A terminal trigger-session status has no outgoing transition.
pub proof fn lemma_trigger_session_terminal_is_final(s: TriggerSessionStatus)
    requires
        s.is_terminal(),
    ensures
        forall|t: TriggerSessionStatus| !s.can_transition(t),
{
}

/// A terminal flow-session status has no outgoing transition.
pub proof fn lemma_flow_session_terminal_is_final(s: FlowSessionStatus)
    requires
        s.is_terminal(),
    ensures
        forall|t: FlowSessionStatus| !s.can_transition(t),
{
}

} // verus!
