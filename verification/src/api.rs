//! Payloads of the trigger-facing API surface, and the computations
//! behind its handlers: creating workflows, starting a run, and
//! starting a single-action test run. The handlers' store and network
//! work lives with the host; everything they decide or build is here.

use vstd::prelude::*;

use crate::graph::Workflow;
use crate::json::{JsonData, JsonVal};
use crate::task::{
    build_trigger_task_input, task_config_data, trigger_task_input_spec, CreateTaskInput,
};
use crate::status::{FlowSessionStatus, Stage, TaskStatus, TriggerSessionStatus};

verus! {

/// What a caller hands the create-workflow endpoint.
pub struct CreateWorkflowHandleInput {
    pub flow_id: String,
    pub flow_name: String,
}

/// The workflow row as persisted: the caller's payload plus the
/// authenticated account.
pub struct CreateWorkflowInput {
    pub flow_id: String,
    pub flow_name: String,
    pub account_id: String,
}

/// What a caller hands the update-workflow endpoint.
pub struct UpdateWorkflowInput {
    pub flow_id: String,
    pub flow_name: String,
}

/// The first, empty version row created beside a new workflow.
pub struct BaseFlowVersionInput {
    pub account_id: String,
    pub flow_id: String,
    pub flow_version: String,
    pub flow_definition: JsonVal,
}

/// The workflow row for a create request: the payload's ids under the
/// authenticated account.
pub fn make_create_workflow_input(
    payload: &CreateWorkflowHandleInput,
    account_id: &String,
) -> (r: CreateWorkflowInput)
    ensures
        r.flow_id@ == payload.flow_id@,
        r.flow_name@ == payload.flow_name@,
        r.account_id@ == account_id@,
{
    CreateWorkflowInput {
        flow_id: payload.flow_id.clone(),
        flow_name: payload.flow_name.clone(),
        account_id: account_id.clone(),
    }
}

/// The empty first version of a fresh workflow: version `0.0.1` with no
/// actions.
pub fn make_base_flow_version_input(account_id: &String, flow_id: &String) -> (r:
    BaseFlowVersionInput)
    ensures
        r.account_id@ == account_id@,
        r.flow_id@ == flow_id@,
        r.flow_version@ == "0.0.1"@,
        r.flow_definition@ == JsonData::Obj(seq![("actions"@, JsonData::Arr(Seq::empty()))]),
{
    let mut pairs: Vec<(String, JsonVal)> = Vec::new();
    pairs.push(("actions".to_owned(), JsonVal::Arr(Vec::new())));
    proof {
        crate::json::lemma_jview_obj(pairs@);
        assert(crate::json::jview_obj(pairs@) =~= seq![
            ("actions"@, JsonData::Arr(Seq::empty())),
        ]);
        assert(crate::json::jview_arr(Seq::<JsonVal>::empty()) =~= Seq::<JsonData>::empty());
    }
    BaseFlowVersionInput {
        account_id: account_id.clone(),
        flow_id: flow_id.clone(),
        flow_version: "0.0.1".to_owned(),
        flow_definition: JsonVal::Obj(pairs),
    }
}

/// The filter under which the store fetches a workflow definition: by
/// version id when the caller gives one, else the published version.
pub fn workflow_definition_filter(version_id: Option<&String>) -> (r: (String, String))
    ensures
        (match version_id {
            Some(v) => r.0@ == "flow_version_id"@ && r.1@ == v@,
            None => r.0@ == "published"@ && r.1@ == "true"@,
        }),
{
    match version_id {
        Some(v) => ("flow_version_id".to_owned(), v.clone()),
        None => ("published".to_owned(), "true".to_owned()),
    }
}

/// Relies on uuid's `Uuid::new_v4` and its hyphenated rendering: a
/// fresh random identifier; every outcome renders as 36 characters.
#[verifier::external_body]
fn new_uuid_string() -> (r: String)
    ensures
        r@.len() == 36,
{
    uuid::Uuid::new_v4().to_string()
}

/// Everything a run-workflow request computes: fresh flow and trigger
/// session ids, and the trigger task to persist. Returns
/// `(task_input, flow_session_id, trigger_session_id)`; the caller
/// persists the task, raises the wake signal, and answers with the two
/// ids at once — it does not wait for completion.
pub fn start_workflow_run(
    workflow: &Workflow,
    account_id: &String,
    flow_id: &String,
    flow_version_id: &String,
) -> (r: (CreateTaskInput, String, String))
    requires
        workflow.actions@.len() >= 1,
    ensures
        trigger_task_input_spec(
            r.0,
            workflow@,
            account_id@,
            flow_id@,
            flow_version_id@,
            r.2@,
            r.1@,
        ),
        r.1@.len() == 36,
        r.2@.len() == 36,
{
    let flow_session_id = new_uuid_string();
    let trigger_session_id = new_uuid_string();
    let input = build_trigger_task_input(
        workflow,
        account_id,
        flow_id,
        flow_version_id,
        &trigger_session_id,
        &flow_session_id,
    );
    (input, flow_session_id, trigger_session_id)
}

/// The dry-run config for a single-action test: the tested action's id,
/// with empty one-off variables and inputs.
pub open spec fn test_config_data(action_id: Seq<char>) -> JsonData {
    JsonData::Obj(
        seq![
            ("action_id"@, JsonData::Str(action_id)),
            ("variables"@, JsonData::Obj(Seq::empty())),
            ("inputs"@, JsonData::Obj(Seq::empty())),
        ],
    )
}

/// Everything a test-action request computes: fresh session ids and the
/// pending first task, carrying a test config for the tested action.
/// Unlike a full run, the task's action type is taken from the
/// workflow's first action.
pub fn start_action_test(
    workflow: &Workflow,
    account_id: &String,
    flow_id: &String,
    flow_version_id: &String,
    action_id: &String,
) -> (r: (CreateTaskInput, String, String))
    requires
        workflow.actions@.len() >= 1,
    ensures
        r.0.account_id@ == account_id@,
        r.0.task_status@ == TaskStatus::Pending.str_spec(),
        r.0.flow_id@ == flow_id@,
        r.0.flow_version_id@ == flow_version_id@,
        r.0.action_label@ == workflow@.actions[0].label,
        r.0.trigger_id@ == workflow@.actions[0].node_id,
        r.0.trigger_session_id@ == r.2@,
        r.0.trigger_session_status@ == TriggerSessionStatus::Pending.str_spec(),
        r.0.flow_session_id@ == r.1@,
        r.0.flow_session_status@ == FlowSessionStatus::Pending.str_spec(),
        r.0.node_id@ == workflow@.actions[0].node_id,
        r.0.action_type == workflow@.actions[0].action_type,
        (match r.0.plugin_id {
            Some(p) => workflow@.actions[0].plugin_id == Some(p@),
            None => workflow@.actions[0].plugin_id is None,
        }),
        r.0.stage@ == Stage::Testing.str_spec(),
        r.0.config@ == task_config_data(
            workflow@.actions[0].variables,
            workflow@.actions[0].input,
        ),
        (match r.0.test_config {
            Some(tc) => tc@ == test_config_data(action_id@),
            None => false,
        }),
        r.0.processing_order == 0,
        r.1@.len() == 36,
        r.2@.len() == 36,
{
    let flow_session_id = new_uuid_string();
    let trigger_session_id = new_uuid_string();
    let first = &workflow.actions[0];
    let mut tc: Vec<(String, JsonVal)> = Vec::new();
    tc.push(("action_id".to_owned(), JsonVal::Str(action_id.clone())));
    tc.push(("variables".to_owned(), JsonVal::Obj(Vec::new())));
    tc.push(("inputs".to_owned(), JsonVal::Obj(Vec::new())));
    proof {
        crate::json::lemma_jview_obj(tc@);
        assert(crate::json::jview_obj(Seq::<(String, JsonVal)>::empty()) =~= Seq::<
            (Seq<char>, JsonData),
        >::empty());
        assert(crate::json::jview_obj(tc@) =~= seq![
            ("action_id"@, JsonData::Str(action_id@)),
            ("variables"@, JsonData::Obj(Seq::empty())),
            ("inputs"@, JsonData::Obj(Seq::empty())),
        ]);
    }
    let input = CreateTaskInput {
        account_id: account_id.clone(),
        task_status: TaskStatus::Pending.as_str().to_owned(),
        flow_id: flow_id.clone(),
        flow_version_id: flow_version_id.clone(),
        action_label: first.label.clone(),
        trigger_id: first.node_id.clone(),
        trigger_session_id: trigger_session_id.clone(),
        trigger_session_status: TriggerSessionStatus::Pending.as_str().to_owned(),
        flow_session_id: flow_session_id.clone(),
        flow_session_status: FlowSessionStatus::Pending.as_str().to_owned(),
        node_id: first.node_id.clone(),
        action_type: first.action_type,
        plugin_id: match &first.plugin_id {
            Some(p) => Some(p.clone()),
            None => None,
        },
        stage: Stage::Testing.as_str().to_owned(),
        config: crate::task::make_task_config(&first.variables, &first.input),
        test_config: Some(JsonVal::Obj(tc)),
        processing_order: 0,
    };
    (input, flow_session_id, trigger_session_id)
}

} // verus!
