use anything_engine::graph::{Action, Edge, Workflow};
use anything_engine::json::JsonVal;
use anything_engine::planner::{plan, GraphError};
use anything_engine::status::ActionType;

fn act(id: &str, t: ActionType) -> Action {
    Action {
        node_id: id.to_string(),
        label: format!("node {}", id),
        plugin_id: None,
        action_type: t,
        input: JsonVal::Null,
        variables: JsonVal::Null,
    }
}

fn edge(a: &str, b: &str) -> Edge {
    Edge { source: a.to_string(), target: b.to_string() }
}

fn ids(p: &[Action]) -> Vec<String> {
    p.iter().map(|a| a.node_id.clone()).collect()
}

#[test]
fn planner_linear_order() {
    let g = Workflow {
        actions: vec![
            act("t", ActionType::Trigger),
            act("a", ActionType::Action),
            act("b", ActionType::Action),
        ],
        edges: vec![edge("t", "a"), edge("a", "b")],
    };
    let p = plan(&g).unwrap();
    assert_eq!(ids(&p), vec!["t".to_string(), "a".to_string(), "b".to_string()]);
}

#[test]
fn planner_trigger_first_even_when_listed_last() {
    let g = Workflow {
        actions: vec![
            act("a", ActionType::Action),
            act("t", ActionType::Trigger),
        ],
        edges: vec![edge("t", "a")],
    };
    let p = plan(&g).unwrap();
    assert_eq!(ids(&p), vec!["t".to_string(), "a".to_string()]);
}

#[test]
fn planner_diamond_converging_edges_dedup() {
    let g = Workflow {
        actions: vec![
            act("t", ActionType::Trigger),
            act("a", ActionType::Action),
            act("b", ActionType::Action),
            act("c", ActionType::Action),
        ],
        edges: vec![edge("t", "a"), edge("t", "b"), edge("a", "c"), edge("b", "c")],
    };
    let p = plan(&g).unwrap();
    // c is discovered twice but planned once, breadth-first
    assert_eq!(
        ids(&p),
        vec!["t".to_string(), "a".to_string(), "b".to_string(), "c".to_string()]
    );
}

#[test]
fn planner_unreachable_nodes_left_out() {
    let g = Workflow {
        actions: vec![
            act("t", ActionType::Trigger),
            act("a", ActionType::Action),
            act("island", ActionType::Action),
        ],
        edges: vec![edge("t", "a")],
    };
    let p = plan(&g).unwrap();
    assert_eq!(ids(&p), vec!["t".to_string(), "a".to_string()]);
}

#[test]
fn planner_cycle_terminates() {
    // a cycle back to an already-visited node must still terminate
    let g = Workflow {
        actions: vec![
            act("t", ActionType::Trigger),
            act("a", ActionType::Action),
            act("b", ActionType::Action),
        ],
        edges: vec![edge("t", "a"), edge("a", "b"), edge("b", "a"), edge("b", "t")],
    };
    let p = plan(&g).unwrap();
    assert_eq!(ids(&p), vec!["t".to_string(), "a".to_string(), "b".to_string()]);
}

#[test]
fn planner_self_loop_terminates() {
    let g = Workflow {
        actions: vec![act("t", ActionType::Trigger)],
        edges: vec![edge("t", "t")],
    };
    let p = plan(&g).unwrap();
    assert_eq!(ids(&p), vec!["t".to_string()]);
}

#[test]
fn planner_duplicate_node_id_rejected() {
    let g = Workflow {
        actions: vec![act("t", ActionType::Trigger), act("t", ActionType::Action)],
        edges: vec![],
    };
    assert_eq!(plan(&g).unwrap_err(), GraphError::DuplicateNodeId);
}

#[test]
fn planner_unknown_edge_node_rejected() {
    let g = Workflow {
        actions: vec![act("t", ActionType::Trigger)],
        edges: vec![edge("t", "ghost")],
    };
    assert_eq!(plan(&g).unwrap_err(), GraphError::UnknownEdgeNode);
}

#[test]
fn planner_no_trigger_rejected() {
    let g = Workflow {
        actions: vec![act("a", ActionType::Action)],
        edges: vec![],
    };
    assert_eq!(plan(&g).unwrap_err(), GraphError::NoTriggerNode);
}

#[test]
fn planner_multiple_triggers_rejected() {
    let g = Workflow {
        actions: vec![act("t", ActionType::Trigger), act("u", ActionType::Trigger)],
        edges: vec![],
    };
    assert_eq!(plan(&g).unwrap_err(), GraphError::MultipleTriggerNodes);
}
