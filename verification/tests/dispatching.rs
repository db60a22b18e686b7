use anything_engine::dispatch::{
    dispatch_route, execute_task, plugin_kind, process_missing_plugin, process_no_plugin_name,
    DispatchRoute, PluginKind, PluginOutcome,
};
use anything_engine::json::JsonVal;
use anything_engine::status::{ActionType, FlowSessionStatus, Stage, TaskStatus, TriggerSessionStatus};
use anything_engine::task::Task;

fn s(x: &str) -> String {
    x.to_string()
}

fn obj(pairs: Vec<(&str, JsonVal)>) -> JsonVal {
    JsonVal::Obj(pairs.into_iter().map(|(k, v)| (s(k), v)).collect())
}

fn mk_task(action_type: ActionType, plugin_name: Option<&str>) -> Task {
    Task {
        task_id: s("task-1"),
        account_id: s("acct"),
        flow_id: s("flow"),
        flow_version_id: s("fv"),
        flow_session_id: s("fs"),
        trigger_session_id: s("ts"),
        node_id: s("node"),
        action_label: s("label"),
        action_type,
        plugin_name: plugin_name.map(s),
        stage: Stage::Production,
        processing_order: 0,
        task_status: TaskStatus::Pending,
        trigger_session_status: TriggerSessionStatus::Pending,
        flow_session_status: FlowSessionStatus::Pending,
        config: JsonVal::Null,
        test_config: None,
        context: None,
        result: None,
        error: None,
        started_at: None,
        ended_at: None,
        created_at: 0,
    }
}

#[test]
fn dispatching_registry_exact_match() {
    assert_eq!(plugin_kind(&s("@anything/http")), Some(PluginKind::Http));
    assert_eq!(plugin_kind(&s("@anything/filter")), Some(PluginKind::Filter));
    assert_eq!(plugin_kind(&s("@anything/javascript")), Some(PluginKind::Javascript));
    assert_eq!(
        plugin_kind(&s("@anything/webhook_response")),
        Some(PluginKind::WebhookResponse)
    );
    assert_eq!(
        plugin_kind(&s("@anything/agent_tool_call_response")),
        Some(PluginKind::AgentToolCallResponse)
    );
    assert_eq!(plugin_kind(&s("@anything/format_text")), Some(PluginKind::FormatText));
    assert_eq!(plugin_kind(&s("@anything/format_date")), Some(PluginKind::FormatDate));
    assert_eq!(plugin_kind(&s("@anything/HTTP")), None);
    assert_eq!(plugin_kind(&s("http")), None);
}

#[test]
fn dispatching_routes() {
    assert_eq!(
        dispatch_route(&mk_task(ActionType::Trigger, Some("@anything/http"))),
        DispatchRoute::Trigger
    );
    assert_eq!(
        dispatch_route(&mk_task(ActionType::Action, Some("@anything/http"))),
        DispatchRoute::Plugin(PluginKind::Http)
    );
    assert_eq!(
        dispatch_route(&mk_task(ActionType::Action, Some("@anything/does_not_exist"))),
        DispatchRoute::MissingPlugin
    );
    assert_eq!(dispatch_route(&mk_task(ActionType::Action, None)), DispatchRoute::NoPluginName);
}

#[test]
fn dispatching_missing_plugin_message() {
    let r = process_missing_plugin(&s("@anything/does_not_exist"), &s("task-1")).unwrap();
    assert_eq!(
        r,
        Some(obj(vec![(
            "message",
            JsonVal::Str(s(
                "Processed task task-1 :: plugin_id @anything/does_not_exist does not exist."
            )),
        )]))
    );
}

#[test]
fn dispatching_no_plugin_name_message() {
    let r = process_no_plugin_name(&s("task-1")).unwrap();
    assert_eq!(
        r,
        Some(obj(vec![(
            "message",
            JsonVal::Str(s("Processed task task-1 :: no plugin_id found.")),
        )]))
    );
}

#[test]
fn dispatching_unknown_plugin_completes_not_fails() {
    // a task naming @anything/does_not_exist settles as a success with
    // an informational payload, so its status becomes completed
    let t = mk_task(ActionType::Action, Some("@anything/does_not_exist"));
    let inputs = JsonVal::Null;
    let config = obj(vec![("k", JsonVal::Int(1))]);
    let r = execute_task(&t, &inputs, &config, &PluginOutcome::Success(None), 10, 20);
    let (result, context, started, ended) = r.expect("unknown plugin is not an error");
    assert_eq!(
        result,
        Some(obj(vec![(
            "message",
            JsonVal::Str(s(
                "Processed task task-1 :: plugin_id @anything/does_not_exist does not exist."
            )),
        )]))
    );
    assert_eq!(context, config);
    assert_eq!((started, ended), (10, 20));
}

#[test]
fn dispatching_trigger_path_hands_inputs_through() {
    let t = mk_task(ActionType::Trigger, None);
    let inputs = obj(vec![("payload", JsonVal::Int(5))]);
    let config = JsonVal::Null;
    let r = execute_task(&t, &inputs, &config, &PluginOutcome::Success(None), 1, 2).unwrap();
    assert_eq!(r.0, Some(obj(vec![("payload", JsonVal::Int(5))])));
}

#[test]
fn dispatching_plugin_success_passes_result() {
    let t = mk_task(ActionType::Action, Some("@anything/http"));
    let out = Some(obj(vec![("status", JsonVal::Int(200))]));
    let r = execute_task(&t, &JsonVal::Null, &JsonVal::Null, &PluginOutcome::Success(out), 1, 2)
        .unwrap();
    assert_eq!(r.0, Some(obj(vec![("status", JsonVal::Int(200))])));
}

#[test]
fn dispatching_plugin_failure_becomes_task_error() {
    let t = mk_task(ActionType::Action, Some("@anything/http"));
    let config = obj(vec![("url", JsonVal::Str(s("https://x")))]);
    let e = execute_task(
        &t,
        &JsonVal::Null,
        &config,
        &PluginOutcome::Failure(s("connection refused")),
        1,
        2,
    )
    .unwrap_err();
    assert_eq!(e.error, obj(vec![("message", JsonVal::Str(s("connection refused")))]));
    assert_eq!(e.context, config);
}
