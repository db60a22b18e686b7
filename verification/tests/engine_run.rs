use anything_engine::api::start_workflow_run;
use anything_engine::bundler::bundle_context;
use anything_engine::dispatch::{execute_task, PluginOutcome};
use anything_engine::graph::{Action, Edge, Workflow};
use anything_engine::json::JsonVal;
use anything_engine::planner::plan;
use anything_engine::scheduler::{LoopAction, PermitPool, SessionRun};
use anything_engine::status::{
    ActionType, FlowSessionStatus, Stage, TaskStatus, TriggerSessionStatus,
};
use anything_engine::task::{build_planned_task_input, session_complete, CreateTaskInput, Task};

fn s(x: &str) -> String {
    x.to_string()
}

fn obj(pairs: Vec<(&str, JsonVal)>) -> JsonVal {
    JsonVal::Obj(pairs.into_iter().map(|(k, v)| (s(k), v)).collect())
}

fn two_node_workflow() -> Workflow {
    Workflow {
        actions: vec![
            Action {
                node_id: s("trigger"),
                label: s("Webhook trigger"),
                plugin_id: None,
                action_type: ActionType::Trigger,
                input: obj(vec![("payload", JsonVal::Str(s("ping")))]),
                variables: JsonVal::Obj(vec![]),
            },
            Action {
                node_id: s("http"),
                label: s("Call the API"),
                plugin_id: Some(s("@anything/http")),
                action_type: ActionType::Action,
                input: JsonVal::Obj(vec![]),
                variables: obj(vec![("url", JsonVal::Str(s("https://api.example.test")))]),
            },
        ],
        edges: vec![Edge { source: s("trigger"), target: s("http") }],
    }
}

fn materialize(input: &CreateTaskInput, plugin_name: Option<&str>, task_id: &str) -> Task {
    Task {
        task_id: s(task_id),
        account_id: input.account_id.clone(),
        flow_id: input.flow_id.clone(),
        flow_version_id: input.flow_version_id.clone(),
        flow_session_id: input.flow_session_id.clone(),
        trigger_session_id: input.trigger_session_id.clone(),
        node_id: input.node_id.clone(),
        action_label: input.action_label.clone(),
        action_type: input.action_type,
        plugin_name: plugin_name.map(s),
        stage: Stage::Testing,
        processing_order: input.processing_order,
        task_status: TaskStatus::Pending,
        trigger_session_status: TriggerSessionStatus::Pending,
        flow_session_status: FlowSessionStatus::Pending,
        config: input.config.deep_copy(),
        test_config: None,
        context: None,
        result: None,
        error: None,
        started_at: None,
        ended_at: None,
        created_at: 0,
    }
}

#[test]
fn engine_run_two_node_workflow_end_to_end() {
    let workflow = two_node_workflow();

    // planning: exactly two actions, trigger first, orders 0 and 1
    let planned = plan(&workflow).unwrap();
    assert_eq!(planned.len(), 2);
    assert_eq!(planned[0].node_id, "trigger");
    assert_eq!(planned[1].node_id, "http");

    // the run request creates the trigger task and wakes the loop
    let (trigger_input, flow_session_id, trigger_session_id) =
        start_workflow_run(&workflow, &s("acct"), &s("flow-1"), &s("fv-1"));
    assert_eq!(trigger_input.processing_order, 0);
    let mut rows: Vec<Task> = vec![materialize(&trigger_input, None, "task-0")];

    let mut pool = PermitPool::new(5);
    let mut run = SessionRun::start(planned.len());

    // wake 1: start and execute the trigger task
    assert_eq!(run.next_action(), LoopAction::StartTask(0));
    assert!(pool.try_acquire());
    run.apply_started();
    rows[0].task_status = TaskStatus::Running;
    // the second task does not exist yet, let alone run
    assert_eq!(rows.len(), 1);
    let prior: Vec<(String, JsonVal)> = vec![];
    let (inputs, config) = bundle_context(&rows[0].config, &prior);
    let outcome = execute_task(&rows[0], &inputs, &config, &PluginOutcome::Success(None), 1, 2)
        .unwrap();
    rows[0].task_status = TaskStatus::Completed;
    rows[0].result = outcome.0;
    run.apply_settled(TaskStatus::Completed);
    pool.release();

    // wake 2: the trigger settled, so the loop creates the next task
    assert_eq!(run.next_action(), LoopAction::CreateNext(1));
    assert_eq!(rows[0].task_status, TaskStatus::Completed);
    let next_input = build_planned_task_input(
        &planned[1],
        1,
        &s("acct"),
        &s("flow-1"),
        &s("fv-1"),
        &trigger_session_id,
        &flow_session_id,
        &Stage::Testing,
    );
    assert_eq!(next_input.processing_order, 1);
    rows.push(materialize(&next_input, Some("@anything/http"), "task-1"));
    run.apply_created();

    // the trigger task reached a terminal status before the second
    // task left pending
    assert_eq!(rows[1].task_status, TaskStatus::Pending);
    assert!(rows[0].task_status.terminal());

    // wake 3: start and execute the second task
    assert_eq!(run.next_action(), LoopAction::StartTask(1));
    assert!(pool.try_acquire());
    run.apply_started();
    rows[1].task_status = TaskStatus::Running;
    let prior: Vec<(String, JsonVal)> = vec![(
        rows[0].node_id.clone(),
        match &rows[0].result {
            Some(r) => r.deep_copy(),
            None => JsonVal::Null,
        },
    )];
    let (inputs, config) = bundle_context(&rows[1].config, &prior);
    let http_result = Some(obj(vec![("status", JsonVal::Int(200))]));
    let outcome =
        execute_task(&rows[1], &inputs, &config, &PluginOutcome::Success(http_result), 3, 4)
            .unwrap();
    rows[1].task_status = TaskStatus::Completed;
    rows[1].result = outcome.0;
    run.apply_settled(TaskStatus::Completed);
    pool.release();

    // the plan is spent: close the session and replicate its statuses
    assert_eq!(run.next_action(), LoopAction::CompleteSession);
    run.apply_session_closed();
    assert_eq!(run.flow_session_status, FlowSessionStatus::Completed);
    for row in rows.iter_mut() {
        row.flow_session_status = run.flow_session_status;
        row.trigger_session_status = run.trigger_session_status;
    }

    // exactly two task rows, orders 0 and 1, and the status query now
    // reads complete
    assert_eq!(rows.len(), 2);
    assert_eq!(rows[0].processing_order, 0);
    assert_eq!(rows[1].processing_order, 1);
    assert!(session_complete(&rows));
    assert_eq!(rows[1].result, Some(obj(vec![("status", JsonVal::Int(200))])));
}
