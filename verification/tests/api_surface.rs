use anything_engine::api::{
    make_base_flow_version_input, make_create_workflow_input, start_action_test,
    start_workflow_run, workflow_definition_filter, CreateWorkflowHandleInput,
};
use anything_engine::graph::{Action, Workflow};
use anything_engine::json::JsonVal;
use anything_engine::status::ActionType;

fn s(x: &str) -> String {
    x.to_string()
}

fn obj(pairs: Vec<(&str, JsonVal)>) -> JsonVal {
    JsonVal::Obj(pairs.into_iter().map(|(k, v)| (s(k), v)).collect())
}

fn one_node_workflow() -> Workflow {
    Workflow {
        actions: vec![Action {
            node_id: s("trigger-node"),
            label: s("When a webhook arrives"),
            plugin_id: Some(s("@anything/webhook")),
            action_type: ActionType::Trigger,
            input: obj(vec![("path", JsonVal::Str(s("/hook")))]),
            variables: obj(vec![("greeting", JsonVal::Str(s("hello")))]),
        }],
        edges: vec![],
    }
}

#[test]
fn api_create_workflow_input_carries_account() {
    let payload = CreateWorkflowHandleInput { flow_id: s("f1"), flow_name: s("My flow") };
    let input = make_create_workflow_input(&payload, &s("acct-9"));
    assert_eq!(input.flow_id, "f1");
    assert_eq!(input.flow_name, "My flow");
    assert_eq!(input.account_id, "acct-9");
}

#[test]
fn api_base_flow_version_is_empty_first_version() {
    let v = make_base_flow_version_input(&s("acct-9"), &s("f1"));
    assert_eq!(v.account_id, "acct-9");
    assert_eq!(v.flow_id, "f1");
    assert_eq!(v.flow_version, "0.0.1");
    assert_eq!(v.flow_definition, obj(vec![("actions", JsonVal::Arr(vec![]))]));
}

#[test]
fn api_workflow_definition_filter() {
    let by_version = workflow_definition_filter(Some(&s("v-7")));
    assert_eq!(by_version, (s("flow_version_id"), s("v-7")));
    let published = workflow_definition_filter(None);
    assert_eq!(published, (s("published"), s("true")));
}

#[test]
fn api_start_workflow_run_builds_trigger_task() {
    let w = one_node_workflow();
    let (input, flow_session_id, trigger_session_id) =
        start_workflow_run(&w, &s("acct"), &s("flow-1"), &s("fv-1"));
    assert_eq!(flow_session_id.len(), 36);
    assert_eq!(trigger_session_id.len(), 36);
    assert_ne!(flow_session_id, trigger_session_id);
    assert_eq!(input.account_id, "acct");
    assert_eq!(input.task_status, "pending");
    assert_eq!(input.flow_id, "flow-1");
    assert_eq!(input.flow_version_id, "fv-1");
    assert_eq!(input.action_label, "When a webhook arrives");
    assert_eq!(input.trigger_id, "trigger-node");
    assert_eq!(input.node_id, "trigger-node");
    assert_eq!(input.trigger_session_id, trigger_session_id);
    assert_eq!(input.trigger_session_status, "pending");
    assert_eq!(input.flow_session_id, flow_session_id);
    assert_eq!(input.flow_session_status, "pending");
    assert_eq!(input.action_type, ActionType::Trigger);
    assert_eq!(input.plugin_id, Some(s("@anything/webhook")));
    assert_eq!(input.stage, "testing");
    assert_eq!(
        input.config,
        obj(vec![
            ("variables", obj(vec![("greeting", JsonVal::Str(s("hello")))])),
            ("inputs", obj(vec![("path", JsonVal::Str(s("/hook")))])),
        ])
    );
    assert_eq!(input.test_config, None);
    assert_eq!(input.processing_order, 0);
}

#[test]
fn api_start_action_test_carries_test_config() {
    let w = one_node_workflow();
    let (input, _flow_session_id, _trigger_session_id) =
        start_action_test(&w, &s("acct"), &s("flow-1"), &s("fv-1"), &s("action-3"));
    assert_eq!(input.processing_order, 0);
    assert_eq!(input.stage, "testing");
    assert_eq!(
        input.test_config,
        Some(obj(vec![
            ("action_id", JsonVal::Str(s("action-3"))),
            ("variables", JsonVal::Obj(vec![])),
            ("inputs", JsonVal::Obj(vec![])),
        ]))
    );
}
