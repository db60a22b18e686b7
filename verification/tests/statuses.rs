use anything_engine::json::JsonVal;
use anything_engine::status::{
    ActionType, FlowSessionStatus, Stage, TaskStatus, TriggerSessionStatus,
};
use anything_engine::task::{session_complete, validate_session_tasks, StoreError, Task};

fn s(x: &str) -> String {
    x.to_string()
}

fn mk_task(
    order: u64,
    task: TaskStatus,
    trigger: TriggerSessionStatus,
    flow: FlowSessionStatus,
) -> Task {
    Task {
        task_id: format!("task-{}", order),
        account_id: s("acct"),
        flow_id: s("flow"),
        flow_version_id: s("fv"),
        flow_session_id: s("fs"),
        trigger_session_id: s("ts"),
        node_id: format!("node-{}", order),
        action_label: s("label"),
        action_type: if order == 0 { ActionType::Trigger } else { ActionType::Action },
        plugin_name: None,
        stage: Stage::Production,
        processing_order: order,
        task_status: task,
        trigger_session_status: trigger,
        flow_session_status: flow,
        config: JsonVal::Null,
        test_config: None,
        context: None,
        result: None,
        error: None,
        started_at: None,
        ended_at: None,
        created_at: 0,
    }
}

#[test]
fn statuses_persisted_names() {
    assert_eq!(TaskStatus::Pending.as_str(), "pending");
    assert_eq!(TaskStatus::Running.as_str(), "running");
    assert_eq!(TaskStatus::Completed.as_str(), "completed");
    assert_eq!(TaskStatus::Failed.as_str(), "failed");
    assert_eq!(TaskStatus::Canceled.as_str(), "canceled");
    assert_eq!(TriggerSessionStatus::Completed.as_str(), "completed");
    assert_eq!(FlowSessionStatus::Running.as_str(), "running");
    assert_eq!(Stage::Testing.as_str(), "testing");
    assert_eq!(ActionType::Trigger.as_str(), "trigger");
}

#[test]
fn statuses_terminality() {
    assert!(!TaskStatus::Pending.terminal());
    assert!(!TaskStatus::Running.terminal());
    assert!(TaskStatus::Completed.terminal());
    assert!(TaskStatus::Failed.terminal());
    assert!(TaskStatus::Canceled.terminal());
    assert!(!FlowSessionStatus::Running.terminal());
    assert!(FlowSessionStatus::Failed.terminal());
}

#[test]
fn statuses_incomplete_while_any_task_unsettled() {
    let tasks = vec![
        mk_task(0, TaskStatus::Completed, TriggerSessionStatus::Running, FlowSessionStatus::Running),
        mk_task(1, TaskStatus::Running, TriggerSessionStatus::Running, FlowSessionStatus::Running),
    ];
    assert!(!session_complete(&tasks));
}

#[test]
fn statuses_incomplete_while_session_status_unsettled() {
    // every task terminal, but the replicated session statuses not yet
    let tasks = vec![mk_task(
        0,
        TaskStatus::Completed,
        TriggerSessionStatus::Running,
        FlowSessionStatus::Running,
    )];
    assert!(!session_complete(&tasks));
}

#[test]
fn statuses_complete_and_stays_complete() {
    let tasks = vec![
        mk_task(
            0,
            TaskStatus::Completed,
            TriggerSessionStatus::Completed,
            FlowSessionStatus::Completed,
        ),
        mk_task(
            1,
            TaskStatus::Failed,
            TriggerSessionStatus::Completed,
            FlowSessionStatus::Completed,
        ),
    ];
    assert!(session_complete(&tasks));
    // re-querying the same terminal rows reads true again
    assert!(session_complete(&tasks));
}

#[test]
fn statuses_empty_session_read_is_not_found() {
    let err = validate_session_tasks(vec![]).unwrap_err();
    assert_eq!(err, StoreError::NotFound);
}

#[test]
fn statuses_nonempty_session_read_passes_through() {
    let tasks = vec![mk_task(
        0,
        TaskStatus::Pending,
        TriggerSessionStatus::Pending,
        FlowSessionStatus::Pending,
    )];
    let out = validate_session_tasks(tasks).unwrap();
    assert_eq!(out.len(), 1);
    assert_eq!(out[0].processing_order, 0);
}
