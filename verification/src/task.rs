//! The task record: one persisted, individually tracked execution of an
//! action inside one run of a workflow, plus the input payloads under
//! which tasks are created and updated in the task store.

use vstd::prelude::*;
use vstd::string::StringExecFns;

use crate::graph::Workflow;
use crate::json::JsonVal;
use crate::redact::{headers_conceal_values, redact_headers_from_context, redacted_context};
use crate::status::{ActionType, FlowSessionStatus, Stage, TaskStatus, TriggerSessionStatus};

verus! {

/// One persisted task: the unit of execution and the system's audit log.
/// `processing_order` is the task's position in the plan of its flow
/// session; the trigger task has `processing_order == 0`. Timestamps are
/// milliseconds since the Unix epoch.
#[derive(Debug)]
pub struct Task {
    pub task_id: String,
    pub account_id: String,
    pub flow_id: String,
    pub flow_version_id: String,
    pub flow_session_id: String,
    pub trigger_session_id: String,
    pub node_id: String,
    pub action_label: String,
    pub action_type: ActionType,
    pub plugin_name: Option<String>,
    pub stage: Stage,
    pub processing_order: u64,
    pub task_status: TaskStatus,
    pub trigger_session_status: TriggerSessionStatus,
    pub flow_session_status: FlowSessionStatus,
    pub config: JsonVal,
    pub test_config: Option<JsonVal>,
    pub context: Option<JsonVal>,
    pub result: Option<JsonVal>,
    pub error: Option<JsonVal>,
    pub started_at: Option<i64>,
    pub ended_at: Option<i64>,
    pub created_at: i64,
}

/// All three status dimensions of one task are terminal.
pub open spec fn task_terminal(t: Task) -> bool {
    &&& t.task_status.is_terminal()
    &&& t.trigger_session_status.is_terminal()
    &&& t.flow_session_status.is_terminal()
}

/// The aggregate a status query reports for a flow session: complete
/// exactly when every member task's `task_status`,
/// `trigger_session_status` and `flow_session_status` are terminal.
pub open spec fn session_complete_spec(tasks: Seq<Task>) -> bool {
    forall|i: int| 0 <= i < tasks.len() ==> task_terminal(#[trigger] tasks[i])
}

/// Whether every task of the session has reached terminal status on all
/// three dimensions.
pub fn session_complete(tasks: &Vec<Task>) -> (r: bool)
    ensures
        r == session_complete_spec(tasks@),
{
    let mut i: usize = 0;
    while i < tasks.len()
        invariant
            i <= tasks.len(),
            forall|j: int| 0 <= j < i ==> task_terminal(#[trigger] tasks@[j]),
        decreases tasks.len() - i,
    {
        if !tasks[i].task_status.terminal() || !tasks[i].trigger_session_status.terminal()
            || !tasks[i].flow_session_status.terminal() {
            return false;
        }
        i = i + 1;
    }
    true
}

/// While any task of a session is non-terminal on any dimension, the
/// session's aggregate reads incomplete.
pub proof fn lemma_incomplete_while_running(tasks: Seq<Task>, i: int)
    requires
        0 <= i < tasks.len(),
        !task_terminal(tasks[i]),
    ensures
        !session_complete_spec(tasks),
{
}

/// One task may advance to the other by the status state machines:
/// every dimension either stays or takes one allowed transition.
pub open spec fn task_advances(a: Task, b: Task) -> bool {
    &&& (a.task_status == b.task_status || a.task_status.can_transition(b.task_status))
    &&& (a.trigger_session_status == b.trigger_session_status
        || a.trigger_session_status.can_transition(b.trigger_session_status))
    &&& (a.flow_session_status == b.flow_session_status || a.flow_session_status.can_transition(
        b.flow_session_status,
    ))
}

/// The session `after` is the session `before` with each task advanced.
pub open spec fn session_advances(before: Seq<Task>, after: Seq<Task>) -> bool {
    &&& before.len() == after.len()
    &&& forall|i: int| 0 <= i < before.len() ==> task_advances(#[trigger] before[i], after[i])
}

/// Monotonic terminality: once a session's aggregate reads complete, it
/// reads complete after every further allowed status transition — no
/// task un-completes.
pub proof fn lemma_complete_is_monotonic(before: Seq<Task>, after: Seq<Task>)
    requires
        session_complete_spec(before),
        session_advances(before, after),
    ensures
        session_complete_spec(after),
{
    assert forall|i: int| 0 <= i < after.len() implies task_terminal(#[trigger] after[i]) by {
        assert(task_terminal(before[i]));
        assert(task_advances(before[i], after[i]));
    }
}

/// The payload under which a new task row is created.
pub struct CreateTaskInput {
    pub account_id: String,
    pub task_status: String,
    pub flow_id: String,
    pub flow_version_id: String,
    pub action_label: String,
    pub trigger_id: String,
    pub trigger_session_id: String,
    pub trigger_session_status: String,
    pub flow_session_id: String,
    pub flow_session_status: String,
    pub node_id: String,
    pub action_type: ActionType,
    pub plugin_id: Option<String>,
    pub stage: String,
    pub config: JsonVal,
    pub test_config: Option<JsonVal>,
    pub processing_order: u64,
}

/// The planning-time config captured for a task: the action's
/// `variables` and `input` templates, stored under those two keys.
pub open spec fn task_config_data(variables: crate::json::JsonData, inputs: crate::json::JsonData)
    -> crate::json::JsonData {
    crate::json::JsonData::Obj(seq![("variables"@, variables), ("inputs"@, inputs)])
}

/// The config payload `{variables, inputs}` captured from an action.
pub fn make_task_config(variables: &JsonVal, inputs: &JsonVal) -> (r: JsonVal)
    ensures
        r@ == task_config_data(variables@, inputs@),
{
    let mut pairs: Vec<(String, JsonVal)> = Vec::new();
    pairs.push(("variables".to_owned(), variables.deep_copy()));
    pairs.push(("inputs".to_owned(), inputs.deep_copy()));
    proof {
        crate::json::lemma_jview_obj(pairs@);
        assert(crate::json::jview_obj(pairs@) =~= seq![
            ("variables"@, variables@),
            ("inputs"@, inputs@),
        ]);
    }
    JsonVal::Obj(pairs)
}

/// What the creation payload of a session's first (trigger) task must
/// hold: pending on all three status dimensions, `processing_order` 0,
/// config captured from the workflow's first action.
pub open spec fn trigger_task_input_spec(
    r: CreateTaskInput,
    w: crate::graph::WorkflowView,
    account_id: Seq<char>,
    flow_id: Seq<char>,
    flow_version_id: Seq<char>,
    trigger_session_id: Seq<char>,
    flow_session_id: Seq<char>,
) -> bool {
    &&& r.account_id@ == account_id
    &&& r.task_status@ == TaskStatus::Pending.str_spec()
    &&& r.flow_id@ == flow_id
    &&& r.flow_version_id@ == flow_version_id
    &&& r.action_label@ == w.actions[0].label
    &&& r.trigger_id@ == w.actions[0].node_id
    &&& r.trigger_session_id@ == trigger_session_id
    &&& r.trigger_session_status@ == TriggerSessionStatus::Pending.str_spec()
    &&& r.flow_session_id@ == flow_session_id
    &&& r.flow_session_status@ == FlowSessionStatus::Pending.str_spec()
    &&& r.node_id@ == w.actions[0].node_id
    &&& r.action_type == ActionType::Trigger
    &&& (match r.plugin_id {
        Some(p) => w.actions[0].plugin_id == Some(p@),
        None => w.actions[0].plugin_id is None,
    })
    &&& r.stage@ == Stage::Testing.str_spec()
    &&& r.config@ == task_config_data(w.actions[0].variables, w.actions[0].input)
    &&& r.test_config is None
    &&& r.processing_order == 0
}

/// The creation payload for the first (trigger) task of a new session.
pub fn build_trigger_task_input(
    workflow: &Workflow,
    account_id: &String,
    flow_id: &String,
    flow_version_id: &String,
    trigger_session_id: &String,
    flow_session_id: &String,
) -> (r: CreateTaskInput)
    requires
        workflow.actions@.len() >= 1,
    ensures
        trigger_task_input_spec(
            r,
            workflow@,
            account_id@,
            flow_id@,
            flow_version_id@,
            trigger_session_id@,
            flow_session_id@,
        ),
{
    let first = &workflow.actions[0];
    CreateTaskInput {
        account_id: account_id.clone(),
        task_status: TaskStatus::Pending.as_str().to_owned(),
        flow_id: flow_id.clone(),
        flow_version_id: flow_version_id.clone(),
        action_label: first.label.clone(),
        trigger_id: first.node_id.clone(),
        trigger_session_id: trigger_session_id.clone(),
        trigger_session_status: TriggerSessionStatus::Pending.as_str().to_owned(),
        flow_session_id: flow_session_id.clone(),
        flow_session_status: FlowSessionStatus::Pending.as_str().to_owned(),
        node_id: first.node_id.clone(),
        action_type: ActionType::Trigger,
        plugin_id: match &first.plugin_id {
            Some(p) => Some(p.clone()),
            None => None,
        },
        stage: Stage::Testing.as_str().to_owned(),
        config: make_task_config(&first.variables, &first.input),
        test_config: None,
        processing_order: 0,
    }
}

/// The creation payload for the task at plan position `k` of a running
/// session, created by the processing loop once every earlier task of
/// the session has settled: pending, with the session's ids and the
/// position as its `processing_order`.
pub fn build_planned_task_input(
    action: &crate::graph::Action,
    k: u64,
    account_id: &String,
    flow_id: &String,
    flow_version_id: &String,
    trigger_session_id: &String,
    flow_session_id: &String,
    stage: &Stage,
) -> (r: CreateTaskInput)
    ensures
        r.account_id@ == account_id@,
        r.task_status@ == TaskStatus::Pending.str_spec(),
        r.flow_id@ == flow_id@,
        r.flow_version_id@ == flow_version_id@,
        r.action_label@ == action@.label,
        r.trigger_id@ == action@.node_id,
        r.trigger_session_id@ == trigger_session_id@,
        r.trigger_session_status@ == TriggerSessionStatus::Pending.str_spec(),
        r.flow_session_id@ == flow_session_id@,
        r.flow_session_status@ == FlowSessionStatus::Pending.str_spec(),
        r.node_id@ == action@.node_id,
        r.action_type == action.action_type,
        (match r.plugin_id {
            Some(p) => action@.plugin_id == Some(p@),
            None => action@.plugin_id is None,
        }),
        r.stage@ == stage.str_spec(),
        r.config@ == task_config_data(action@.variables, action@.input),
        r.test_config is None,
        r.processing_order == k,
{
    CreateTaskInput {
        account_id: account_id.clone(),
        task_status: TaskStatus::Pending.as_str().to_owned(),
        flow_id: flow_id.clone(),
        flow_version_id: flow_version_id.clone(),
        action_label: action.label.clone(),
        trigger_id: action.node_id.clone(),
        trigger_session_id: trigger_session_id.clone(),
        trigger_session_status: TriggerSessionStatus::Pending.as_str().to_owned(),
        flow_session_id: flow_session_id.clone(),
        flow_session_status: FlowSessionStatus::Pending.as_str().to_owned(),
        node_id: action.node_id.clone(),
        action_type: action.action_type,
        plugin_id: match &action.plugin_id {
            Some(p) => Some(p.clone()),
            None => None,
        },
        stage: stage.as_str().to_owned(),
        config: make_task_config(&action.variables, &action.input),
        test_config: None,
        processing_order: k,
    }
}

/// The update payload persisted on a task status change. The context,
/// when present, goes through redaction before it is stored: the
/// persisted payload never holds an original header value.
pub struct UpdateTaskInput {
    pub task_status: String,
    pub started_at: Option<i64>,
    pub ended_at: Option<i64>,
    pub result: Option<JsonVal>,
    pub context: Option<JsonVal>,
    pub error: Option<JsonVal>,
}

/// Build the update payload for `update_task_status`, redacting the
/// context before anything is persisted.
pub fn build_update_task_input(
    status: &TaskStatus,
    context: Option<&JsonVal>,
    result: Option<&JsonVal>,
    error: Option<&JsonVal>,
    started_at: Option<i64>,
    ended_at: Option<i64>,
) -> (r: UpdateTaskInput)
    ensures
        r.task_status@ == status.str_spec(),
        (match (context, r.context) {
            (Some(c), Some(rc)) => rc@ == redacted_context(c@) && headers_conceal_values(rc@),
            (None, None) => true,
            _ => false,
        }),
        (match (result, r.result) {
            (Some(v), Some(rv)) => rv@ == v@,
            (None, None) => true,
            _ => false,
        }),
        (match (error, r.error) {
            (Some(v), Some(rv)) => rv@ == v@,
            (None, None) => true,
            _ => false,
        }),
        r.started_at == started_at,
        r.ended_at == ended_at,
{
    let cleaned_context = match context {
        Some(c) => Some(redact_headers_from_context(c)),
        None => None,
    };
    UpdateTaskInput {
        task_status: status.as_str().to_owned(),
        started_at,
        ended_at,
        result: match result {
            Some(v) => Some(v.deep_copy()),
            None => None,
        },
        context: cleaned_context,
        error: match error {
            Some(v) => Some(v.deep_copy()),
            None => None,
        },
    }
}

/// The update payload replicated onto every task row of a flow session
/// when the session-level statuses change.
pub struct UpdateFlowSesssionInput {
    pub flow_session_status: String,
    pub trigger_session_status: String,
}

/// Build the session status update payload for `update_session_status`.
pub fn build_update_flow_session_input(
    flow_session_status: &FlowSessionStatus,
    trigger_session_status: &TriggerSessionStatus,
) -> (r: UpdateFlowSesssionInput)
    ensures
        r.flow_session_status@ == flow_session_status.str_spec(),
        r.trigger_session_status@ == trigger_session_status.str_spec(),
{
    UpdateFlowSesssionInput {
        flow_session_status: flow_session_status.as_str().to_owned(),
        trigger_session_status: trigger_session_status.as_str().to_owned(),
    }
}

/// Why a task store read cannot be used.
#[derive(Clone, Copy, PartialEq, Eq, Structural, Debug)]
pub enum StoreError {
    /// The session has no task rows.
    NotFound,
}

/// Validate the task rows read back for a flow session: a session that
/// was ever started has at least its trigger task, so an empty read is
/// `NotFound`.
pub fn validate_session_tasks(tasks: Vec<Task>) -> (r: Result<Vec<Task>, StoreError>)
    ensures
        (match r {
            Ok(out) => tasks@.len() > 0 && out@ == tasks@,
            Err(e) => tasks@.len() == 0 && e == StoreError::NotFound,
        }),
{
    if tasks.len() == 0 {
        Err(StoreError::NotFound)
    } else {
        Ok(tasks)
    }
}

} // verus!
