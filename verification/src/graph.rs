//! In-memory model of one workflow version: a directed graph of typed
//! action nodes. Exactly one node is the trigger; edges point from a
//! source node id to a target node id.

use vstd::prelude::*;

use crate::json::{JsonData, JsonVal};
use crate::status::ActionType;

verus! {

/// One node of the workflow graph.
#[derive(Debug)]
pub struct Action {
    pub node_id: String,
    pub label: String,
    pub plugin_id: Option<String>,
    pub action_type: ActionType,
    pub input: JsonVal,
    pub variables: JsonVal,
}

/// Ghost mirror of `Action`.
pub struct ActionView {
    pub node_id: Seq<char>,
    pub label: Seq<char>,
    pub plugin_id: Option<Seq<char>>,
    pub action_type: ActionType,
    pub input: JsonData,
    pub variables: JsonData,
}

impl View for Action {
    type V = ActionView;

    open spec fn view(&self) -> ActionView {
        ActionView {
            node_id: self.node_id@,
            label: self.label@,
            plugin_id: match self.plugin_id {
                Some(p) => Some(p@),
                None => None,
            },
            action_type: self.action_type,
            input: self.input@,
            variables: self.variables@,
        }
    }
}

impl Action {
    /// A copy whose ghost value is the same.
    pub fn duplicate(&self) -> (r: Action)
        ensures
            r@ == self@,
    {
        Action {
            node_id: self.node_id.clone(),
            label: self.label.clone(),
            plugin_id: match &self.plugin_id {
                Some(p) => Some(p.clone()),
                None => None,
            },
            action_type: self.action_type,
            input: self.input.deep_copy(),
            variables: self.variables.deep_copy(),
        }
    }
}

/// One directed edge of the workflow graph.
pub struct Edge {
    pub source: String,
    pub target: String,
}

/// Ghost mirror of `Edge`.
pub struct EdgeView {
    pub source: Seq<char>,
    pub target: Seq<char>,
}

impl View for Edge {
    type V = EdgeView;

    open spec fn view(&self) -> EdgeView {
        EdgeView { source: self.source@, target: self.target@ }
    }
}

/// A workflow version: the graph that one run executes.
pub struct Workflow {
    pub actions: Vec<Action>,
    pub edges: Vec<Edge>,
}

/// Ghost mirror of `Workflow`.
pub struct WorkflowView {
    pub actions: Seq<ActionView>,
    pub edges: Seq<EdgeView>,
}

impl View for Workflow {
    type V = WorkflowView;

    open spec fn view(&self) -> WorkflowView {
        WorkflowView {
            actions: Seq::new(self.actions@.len(), |i: int| self.actions@[i]@),
            edges: Seq::new(self.edges@.len(), |i: int| self.edges@[i]@),
        }
    }
}

/// Number of trigger nodes among `s`.
pub open spec fn count_triggers(s: Seq<ActionView>) -> int
    decreases s,
{
    if s.len() == 0 {
        0
    } else {
        count_triggers(s.drop_last()) + if s.last().action_type == ActionType::Trigger {
            1int
        } else {
            0int
        }
    }
}

impl WorkflowView {
    /// The node id of each action, in graph order.
    pub open spec fn ids(self) -> Seq<Seq<char>> {
        Seq::new(self.actions.len(), |i: int| self.actions[i].node_id)
    }

    /// Node ids are pairwise distinct.
    pub open spec fn ids_unique(self) -> bool {
        forall|i: int, j: int|
            0 <= i < j < self.actions.len() ==> self.actions[i].node_id != self.actions[j].node_id
    }

    /// Some action carries this node id.
    pub open spec fn has_node(self, id: Seq<char>) -> bool {
        exists|i: int| 0 <= i < self.actions.len() && #[trigger] self.actions[i].node_id == id
    }

    /// Every edge endpoint names an existing node.
    pub open spec fn edges_known(self) -> bool {
        forall|k: int|
            0 <= k < self.edges.len() ==> self.has_node((#[trigger] self.edges[k]).source)
                && self.has_node(self.edges[k].target)
    }

    /// Some edge leads from node `from` to node `to`.
    pub open spec fn has_edge(self, from: Seq<char>, to: Seq<char>) -> bool {
        exists|k: int|
            0 <= k < self.edges.len() && #[trigger] self.edges[k].source == from
                && self.edges[k].target == to
    }

    /// A graph fit for planning: unique ids, known edge endpoints, and
    /// exactly one trigger node.
    pub open spec fn well_formed(self) -> bool {
        &&& self.ids_unique()
        &&& self.edges_known()
        &&& count_triggers(self.actions) == 1
    }

    /// Index of the one trigger node.
    pub open spec fn trigger_index(self) -> int {
        choose|i: int|
            0 <= i < self.actions.len() && #[trigger] self.actions[i].action_type
                == ActionType::Trigger
    }

    /// The one trigger node: the designated start of every plan.
    pub open spec fn trigger_action(self) -> ActionView {
        self.actions[self.trigger_index()]
    }
}

/// The trigger count is never negative.
pub proof fn lemma_count_triggers_nonneg(s: Seq<ActionView>)
    ensures
        count_triggers(s) >= 0,
    decreases s,
{
    if s.len() > 0 {
        lemma_count_triggers_nonneg(s.drop_last());
    }
}

/// A sequence holding a trigger at `i` counts at least one trigger.
pub proof fn lemma_count_triggers_at_least_one(s: Seq<ActionView>, i: int)
    requires
        0 <= i < s.len(),
        s[i].action_type == ActionType::Trigger,
    ensures
        count_triggers(s) >= 1,
    decreases s,
{
    if i == s.len() - 1 {
        lemma_count_triggers_nonneg(s.drop_last());
    } else {
        assert(s.drop_last()[i] == s[i]);
        lemma_count_triggers_at_least_one(s.drop_last(), i);
    }
}

/// A sequence holding triggers at two distinct places counts at least two.
pub proof fn lemma_count_triggers_at_least_two(s: Seq<ActionView>, i: int, j: int)
    requires
        0 <= i < j < s.len(),
        s[i].action_type == ActionType::Trigger,
        s[j].action_type == ActionType::Trigger,
    ensures
        count_triggers(s) >= 2,
    decreases s,
{
    if j == s.len() - 1 {
        assert(s.drop_last()[i] == s[i]);
        lemma_count_triggers_at_least_one(s.drop_last(), i);
    } else {
        assert(s.drop_last()[i] == s[i]);
        assert(s.drop_last()[j] == s[j]);
        lemma_count_triggers_at_least_two(s.drop_last(), i, j);
    }
}

/// A sequence without triggers counts none.
pub proof fn lemma_count_triggers_none(s: Seq<ActionView>)
    requires
        forall|i: int| 0 <= i < s.len() ==> (#[trigger] s[i].action_type) != ActionType::Trigger,
    ensures
        count_triggers(s) == 0,
    decreases s,
{
    if s.len() > 0 {
        lemma_count_triggers_none(s.drop_last());
    }
}

/// In a graph with exactly one trigger, any trigger position is the
/// trigger index.
pub proof fn lemma_trigger_index_unique(g: WorkflowView, i: int)
    requires
        count_triggers(g.actions) == 1,
        0 <= i < g.actions.len(),
        g.actions[i].action_type == ActionType::Trigger,
    ensures
        i == g.trigger_index(),
        0 <= g.trigger_index() < g.actions.len(),
        g.trigger_action().action_type == ActionType::Trigger,
{
    assert(0 <= g.trigger_index() < g.actions.len() && g.actions[g.trigger_index()].action_type
        == ActionType::Trigger) by {
        assert(exists|k: int|
            0 <= k < g.actions.len() && #[trigger] g.actions[k].action_type
                == ActionType::Trigger) by {
            assert(g.actions[i].action_type == ActionType::Trigger);
        }
    }
    if i != g.trigger_index() {
        if i < g.trigger_index() {
            lemma_count_triggers_at_least_two(g.actions, i, g.trigger_index());
        } else {
            lemma_count_triggers_at_least_two(g.actions, g.trigger_index(), i);
        }
    }
}

} // verus!
