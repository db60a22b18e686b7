//! The execution planner: turns a workflow graph plus its designated
//! trigger node into a linear, gap-free, strictly ordered sequence of
//! actions by breadth-first traversal. Each node is visited at most once
//! (first discovery wins when several edges converge), so planning
//! terminates even on graphs with cycles.

use vstd::prelude::*;

use crate::graph::{
    count_triggers, lemma_count_triggers_none, lemma_trigger_index_unique, Action, ActionView,
    Workflow, WorkflowView,
};
use crate::status::ActionType;

verus! {

/// Why a workflow graph cannot be planned.
#[derive(Clone, Copy, PartialEq, Eq, Structural, Debug)]
pub enum GraphError {
    /// Two nodes share a node id.
    DuplicateNodeId,
    /// An edge names a node id that no node carries.
    UnknownEdgeNode,
    /// No node is marked as the trigger.
    NoTriggerNode,
    /// More than one node is marked as the trigger.
    MultipleTriggerNodes,
}

/// The ghost values of a sequence of actions.
pub open spec fn action_views(s: Seq<Action>) -> Seq<ActionView> {
    Seq::new(s.len(), |i: int| s[i]@)
}

/// The node id at each position of a plan.
pub open spec fn plan_ids(p: Seq<ActionView>) -> Seq<Seq<char>> {
    Seq::new(p.len(), |i: int| p[i].node_id)
}

/// Some position of the plan carries this node id.
pub open spec fn plan_contains_id(p: Seq<ActionView>, id: Seq<char>) -> bool {
    exists|i: int| 0 <= i < p.len() && (#[trigger] p[i]).node_id == id
}

/// Position `i` of the plan was discovered over an edge from an earlier
/// position: the breadth-first discovery order.
pub open spec fn discovered_from_earlier(g: WorkflowView, p: Seq<ActionView>, i: int) -> bool {
    exists|j: int| 0 <= j < i && g.has_edge((#[trigger] p[j]).node_id, p[i].node_id)
}

/// Every edge leaving a planned node leads to a planned node.
pub open spec fn closed_under_edges(g: WorkflowView, p: Seq<ActionView>) -> bool {
    forall|i: int, k: int|
        #![trigger p[i], g.edges[k]]
        0 <= i < p.len() && 0 <= k < g.edges.len() && g.edges[k].source == p[i].node_id
            ==> plan_contains_id(p, g.edges[k].target)
}

/// What the planner promises of its output: the trigger stands first;
/// every entry is a node of the graph; no node is repeated; every entry
/// after the first was discovered over an edge from an earlier entry;
/// and the plan is closed under outgoing edges. A task created for plan
/// position `i` is assigned `processing_order == i`.
pub open spec fn is_plan(g: WorkflowView, p: Seq<ActionView>) -> bool {
    &&& p.len() >= 1
    &&& p[0] == g.trigger_action()
    &&& forall|i: int|
        0 <= i < p.len() ==> exists|w: int| 0 <= w < g.actions.len() && (#[trigger] p[i])
            == g.actions[w]
    &&& forall|i: int, j: int| 0 <= i < j < p.len() ==> p[i].node_id != p[j].node_id
    &&& forall|i: int| 1 <= i < p.len() ==> discovered_from_earlier(g, p, i)
    &&& closed_under_edges(g, p)
}

/// First position whose action carries `id`, if any.
fn find_node(g: &Workflow, id: &String) -> (r: Option<usize>)
    ensures
        match r {
            Some(i) => i < g@.actions.len() && g@.actions[i as int].node_id == id@,
            None => !g@.has_node(id@),
        },
{
    let mut i: usize = 0;
    while i < g.actions.len()
        invariant
            i <= g.actions.len(),
            g@.actions.len() == g.actions@.len(),
            forall|j: int| 0 <= j < i ==> (#[trigger] g@.actions[j]).node_id != id@,
        decreases g.actions.len() - i,
    {
        if g.actions[i].node_id == *id {
            return Some(i);
        }
        i = i + 1;
    }
    None
}

/// Whether all node ids are pairwise distinct.
fn check_ids_unique(g: &Workflow) -> (r: bool)
    ensures
        r == g@.ids_unique(),
{
    let n = g.actions.len();
    let mut i: usize = 0;
    while i < n
        invariant
            i <= n,
            n == g@.actions.len(),
            forall|a: int, b: int|
                0 <= a < b < g@.actions.len() && a < i ==> (#[trigger] g@.actions[a]).node_id != (
                #[trigger] g@.actions[b]).node_id,
        decreases n - i,
    {
        let mut j: usize = i + 1;
        while j < n
            invariant
                i < j <= n,
                n == g@.actions.len(),
                forall|b: int| i < b < j ==> g@.actions[i as int].node_id != (
                #[trigger] g@.actions[b]).node_id,
            decreases n - j,
        {
            if g.actions[i].node_id == g.actions[j].node_id {
                proof {
                    assert(g@.actions[i as int].node_id == g@.actions[j as int].node_id);
                }
                return false;
            }
            j = j + 1;
        }
        i = i + 1;
    }
    true
}

/// Whether every edge endpoint names an existing node.
fn check_edges_known(g: &Workflow) -> (r: bool)
    ensures
        r == g@.edges_known(),
{
    let mut k: usize = 0;
    while k < g.edges.len()
        invariant
            k <= g.edges.len(),
            g@.edges.len() == g.edges@.len(),
            forall|e: int|
                0 <= e < k ==> g@.has_node((#[trigger] g@.edges[e]).source) && g@.has_node(
                    g@.edges[e].target,
                ),
        decreases g.edges.len() - k,
    {
        if find_node(g, &g.edges[k].source).is_none() {
            proof {
                assert(!g@.has_node(g@.edges[k as int].source));
            }
            return false;
        }
        if find_node(g, &g.edges[k].target).is_none() {
            proof {
                assert(!(g@.has_node(g@.edges[k as int].source) && g@.has_node(
                    g@.edges[k as int].target,
                )));
            }
            return false;
        }
        k = k + 1;
    }
    true
}

/// First trigger position and the number of triggers.
fn scan_triggers(g: &Workflow) -> (r: (usize, Option<usize>))
    ensures
        r.0 as int == count_triggers(g@.actions),
        match r.1 {
            Some(i) => i < g@.actions.len() && g@.actions[i as int].action_type
                == ActionType::Trigger,
            None => count_triggers(g@.actions) == 0,
        },
{
    let n = g.actions.len();
    let mut count: usize = 0;
    let mut first: Option<usize> = None;
    let mut i: usize = 0;
    while i < n
        invariant
            i <= n,
            n == g@.actions.len(),
            count as int == count_triggers(g@.actions.take(i as int)),
            count <= i,
            match first {
                Some(f) => f < g@.actions.len() && g@.actions[f as int].action_type
                    == ActionType::Trigger,
                None => forall|j: int|
                    0 <= j < i ==> (#[trigger] g@.actions[j]).action_type != ActionType::Trigger,
            },
        decreases n - i,
    {
        proof {
            assert(g@.actions.take(i + 1).drop_last() =~= g@.actions.take(i as int));
            assert(g@.actions.take(i + 1).last() == g@.actions[i as int]);
        }
        if g.actions[i].action_type == ActionType::Trigger {
            count = count + 1;
            if first.is_none() {
                first = Some(i);
            }
        }
        i = i + 1;
    }
    proof {
        assert(g@.actions.take(n as int) =~= g@.actions);
        if first is None {
            lemma_count_triggers_none(g@.actions);
        }
    }
    (count, first)
}

/// Number of `true` entries.
spec fn count_true(s: Seq<bool>) -> int
    decreases s,
{
    if s.len() == 0 {
        0
    } else {
        count_true(s.drop_last()) + if s.last() {
            1int
        } else {
            0int
        }
    }
}

proof fn lemma_count_true_bounds(s: Seq<bool>)
    ensures
        0 <= count_true(s) <= s.len(),
    decreases s,
{
    if s.len() > 0 {
        lemma_count_true_bounds(s.drop_last());
    }
}

proof fn lemma_count_true_update(s: Seq<bool>, i: int)
    requires
        0 <= i < s.len(),
        !s[i],
    ensures
        count_true(s.update(i, true)) == count_true(s) + 1,
    decreases s,
{
    if i == s.len() - 1 {
        assert(s.update(i, true).drop_last() =~= s.drop_last());
    } else {
        assert(s.update(i, true).drop_last() =~= s.drop_last().update(i, true));
        lemma_count_true_update(s.drop_last(), i);
    }
}

/// Node id at graph position `idx`.
pub open spec fn id_at(g: WorkflowView, idx: int) -> Seq<char> {
    g.actions[idx].node_id
}

/// `idx` occurs somewhere in the discovery order.
pub open spec fn order_contains(order: Seq<usize>, idx: int) -> bool {
    exists|q: int| 0 <= q < order.len() && (#[trigger] order[q]) as int == idx
}

/// Position `q` of the discovery order was reached over an edge from an
/// earlier position.
pub open spec fn order_discovered(g: WorkflowView, order: Seq<usize>, q: int) -> bool {
    exists|j: int|
        0 <= j < q && g.has_edge(id_at(g, (#[trigger] order[j]) as int), id_at(g, order[q] as int))
}

/// Every edge leaving one of the first `h` ordered nodes leads to a
/// visited node.
pub open spec fn order_closed_upto(
    g: WorkflowView,
    order: Seq<usize>,
    visited: Seq<bool>,
    h: int,
) -> bool {
    forall|q: int, k: int|
        #![trigger order[q], g.edges[k]]
        0 <= q < h && 0 <= k < g.edges.len() && g.edges[k].source == id_at(g, order[q] as int)
            ==> exists|t: int|
            0 <= t < g.actions.len() && (#[trigger] visited[t]) && id_at(g, t) == g.edges[k].target
}

/// Breadth-first discovery order over the graph, starting at `start`.
/// Marking nodes visited at first discovery bounds the traversal, so it
/// terminates even when edges cycle back to an already-visited node.
fn bfs_order(g: &Workflow, start: usize) -> (order: Vec<usize>)
    requires
        (start as int) < g@.actions.len(),
        g@.edges_known(),
    ensures
        1 <= order@.len() <= g@.actions.len(),
        order@[0] == start,
        forall|q: int| 0 <= q < order@.len() ==> ((#[trigger] order@[q]) as int) < g@.actions.len(),
        forall|q1: int, q2: int| 0 <= q1 < q2 < order@.len() ==> order@[q1] != order@[q2],
        forall|q: int| 1 <= q < order@.len() ==> order_discovered(g@, order@, q),
        forall|q: int, k: int|
            #![trigger order@[q], g@.edges[k]]
            0 <= q < order@.len() && 0 <= k < g@.edges.len() && g@.edges[k].source == id_at(
                g@,
                order@[q] as int,
            ) ==> exists|t: int|
                0 <= t < g@.actions.len() && #[trigger] order_contains(order@, t) && id_at(g@, t)
                    == g@.edges[k].target,
{
    let n = g.actions.len();
    let mut visited: Vec<bool> = Vec::new();
    let mut i: usize = 0;
    while i < n
        invariant
            i <= n,
            visited@.len() == i,
            count_true(visited@) == 0,
            forall|t: int| 0 <= t < i ==> !(#[trigger] visited@[t]),
        decreases n - i,
    {
        proof {
            assert(visited@.push(false).drop_last() =~= visited@);
        }
        visited.push(false);
        i = i + 1;
    }
    proof {
        lemma_count_true_update(visited@, start as int);
    }
    visited.set(start, true);
    let mut order: Vec<usize> = Vec::new();
    order.push(start);
    let mut qhead: usize = 0;
    while qhead < order.len()
        invariant
            n == g@.actions.len(),
            g@.edges.len() == g.edges@.len(),
            g@.edges_known(),
            visited@.len() == n,
            1 <= order@.len(),
            count_true(visited@) == order@.len(),
            qhead <= order@.len(),
            order@[0] == start,
            forall|q: int|
                0 <= q < order@.len() ==> ((#[trigger] order@[q]) as int) < n,
            forall|q1: int, q2: int| 0 <= q1 < q2 < order@.len() ==> order@[q1] != order@[q2],
            forall|t: int| 0 <= t < n ==> ((#[trigger] visited@[t]) <==> order_contains(order@, t)),
            forall|q: int| 1 <= q < order@.len() ==> order_discovered(g@, order@, q),
            order_closed_upto(g@, order@, visited@, qhead as int),
        decreases n - qhead,
    {
        proof {
            lemma_count_true_bounds(visited@);
        }
        let cur: usize = order[qhead];
        let mut e: usize = 0;
        while e < g.edges.len()
            invariant
                n == g@.actions.len(),
                g@.edges.len() == g.edges@.len(),
                g@.edges_known(),
                e <= g.edges@.len(),
                visited@.len() == n,
                1 <= order@.len(),
                count_true(visited@) == order@.len(),
                qhead < order@.len(),
                cur == order@[qhead as int],
                (cur as int) < n,
                order@[0] == start,
                forall|q: int|
                    0 <= q < order@.len() ==> ((#[trigger] order@[q]) as int) < n,
                forall|q1: int, q2: int| 0 <= q1 < q2 < order@.len() ==> order@[q1] != order@[q2],
                forall|t: int|
                    0 <= t < n ==> ((#[trigger] visited@[t]) <==> order_contains(order@, t)),
                forall|q: int| 1 <= q < order@.len() ==> order_discovered(g@, order@, q),
                order_closed_upto(g@, order@, visited@, qhead as int),
                forall|k: int|
                    0 <= k < e && (#[trigger] g@.edges[k]).source == id_at(g@, cur as int)
                        ==> exists|t: int|
                        0 <= t < n && (#[trigger] visited@[t]) && id_at(g@, t) == g@.edges[k].target,
            decreases g.edges@.len() - e,
        {
            proof {
                assert(g@.edges[e as int] == g.edges@[e as int]@);
                assert(id_at(g@, cur as int) == g.actions@[cur as int].node_id@);
            }
            if g.edges[e].source == g.actions[cur].node_id {
                let t = match find_node(g, &g.edges[e].target) {
                    Some(t) => t,
                    None => {
                        proof {
                            assert(g@.has_node(g@.edges[e as int].target));
                            assert(false);
                        }
                        0
                    },
                };
                proof {
                    assert(id_at(g@, t as int) == g@.edges[e as int].target);
                    assert(g@.has_edge(id_at(g@, cur as int), id_at(g@, t as int)));
                }
                if !visited[t] {
                    proof {
                        lemma_count_true_update(visited@, t as int);
                        lemma_count_true_bounds(visited@);
                        assert(!order_contains(order@, t as int));
                    }
                    let ghost prev = order@;
                    let ghost prev_vis = visited@;
                    visited.set(t, true);
                    order.push(t);
                    proof {
                        let last = prev.len() as int;
                        assert(order@ == prev.push(t));
                        assert(visited@ == prev_vis.update(t as int, true));
                        assert(order@[last] == t);
                        assert(forall|q: int| 0 <= q < last ==> order@[q] == prev[q]);
                        assert forall|q1: int, q2: int|
                            0 <= q1 < q2 < order@.len() implies order@[q1] != order@[q2] by {
                            if q2 == last {
                                if order@[q1] == t {
                                    assert(order_contains(prev, t as int));
                                }
                            }
                        }
                        assert forall|idx: int|
                            0 <= idx < n implies ((visited@[idx]) <==> order_contains(
                            order@,
                            idx,
                        )) by {
                            if idx == t as int {
                                assert(order@[last] as int == idx);
                            } else {
                                assert(visited@[idx] == prev_vis[idx]);
                                if prev_vis[idx] {
                                    let q = choose|q: int|
                                        0 <= q < prev.len() && (#[trigger] prev[q]) as int == idx;
                                    assert(order@[q] as int == idx);
                                }
                                if order_contains(order@, idx) {
                                    let q = choose|q: int|
                                        0 <= q < order@.len() && (#[trigger] order@[q]) as int
                                            == idx;
                                    assert(q != last);
                                    assert(prev[q] as int == idx);
                                }
                            }
                        }
                        assert forall|q: int| 1 <= q < order@.len() implies order_discovered(
                            g@,
                            order@,
                            q,
                        ) by {
                            if q < last {
                                assert(order_discovered(g@, prev, q));
                                let j = choose|j: int|
                                    0 <= j < q && g@.has_edge(
                                        id_at(g@, (#[trigger] prev[j]) as int),
                                        id_at(g@, prev[q] as int),
                                    );
                                assert(order@[j] == prev[j]);
                                assert(order@[q] == prev[q]);
                            } else {
                                assert(order@[qhead as int] == cur);
                                assert(g@.has_edge(
                                    id_at(g@, (order@[qhead as int]) as int),
                                    id_at(g@, order@[q] as int),
                                ));
                            }
                        }
                        assert forall|q: int, k: int|
                            #![trigger order@[q], g@.edges[k]]
                            0 <= q < qhead as int && 0 <= k < g@.edges.len() && g@.edges[k].source
                                == id_at(g@, order@[q] as int) implies exists|t2: int|
                            0 <= t2 < g@.actions.len() && (#[trigger] visited@[t2]) && id_at(g@, t2)
                                == g@.edges[k].target by {
                            assert(order@[q] == prev[q]);
                            let t2 = choose|t2: int|
                                0 <= t2 < g@.actions.len() && (#[trigger] prev_vis[t2]) && id_at(
                                    g@,
                                    t2,
                                ) == g@.edges[k].target;
                            assert(visited@[t2]);
                        }
                        assert forall|k: int|
                            0 <= k < e + 1 && (#[trigger] g@.edges[k]).source == id_at(
                                g@,
                                cur as int,
                            ) implies exists|t2: int|
                            0 <= t2 < n as int && (#[trigger] visited@[t2]) && id_at(g@, t2)
                                == g@.edges[k].target by {
                            if k < e {
                                let t2 = choose|t2: int|
                                    0 <= t2 < n as int && (#[trigger] prev_vis[t2]) && id_at(g@, t2)
                                        == g@.edges[k].target;
                                assert(visited@[t2]);
                            } else {
                                assert(visited@[t as int]);
                            }
                        }
                    }
                } else {
                    proof {
                        assert forall|k: int|
                            0 <= k < e + 1 && (#[trigger] g@.edges[k]).source == id_at(
                                g@,
                                cur as int,
                            ) implies exists|t2: int|
                            0 <= t2 < n as int && (#[trigger] visited@[t2]) && id_at(g@, t2)
                                == g@.edges[k].target by {
                            if k == e as int {
                                assert(visited@[t as int]);
                            }
                        }
                    }
                }
            }
            e = e + 1;
        }
        qhead = qhead + 1;
    }
    proof {
        lemma_count_true_bounds(visited@);
        assert forall|q: int, k: int|
            #![trigger order@[q], g@.edges[k]]
            0 <= q < order@.len() && 0 <= k < g@.edges.len() && g@.edges[k].source == id_at(
                g@,
                order@[q] as int,
            ) implies exists|t: int|
            0 <= t < g@.actions.len() && #[trigger] order_contains(order@, t) && id_at(g@, t)
                == g@.edges[k].target by {
            let t = choose|t: int|
                0 <= t < g@.actions.len() && (#[trigger] visited@[t]) && id_at(g@, t)
                    == g@.edges[k].target;
            assert(order_contains(order@, t));
        }
    }
    order
}

/// Plan a workflow: breadth-first traversal from the trigger node, each
/// node visited at most once, yielding the ordered action sequence whose
/// position is the created task's `processing_order`.
///
/// Succeeds exactly on well-formed graphs; each error names the first
/// defect found, checking node ids, then edges, then the trigger.
pub fn plan(g: &Workflow) -> (r: Result<Vec<Action>, GraphError>)
    ensures
        match r {
            Ok(p) => g@.well_formed() && is_plan(g@, action_views(p@)),
            Err(e) => {
                &&& !g@.well_formed()
                &&& (e == GraphError::DuplicateNodeId <==> !g@.ids_unique())
                &&& (e == GraphError::UnknownEdgeNode <==> g@.ids_unique() && !g@.edges_known())
                &&& (e == GraphError::NoTriggerNode <==> g@.ids_unique() && g@.edges_known()
                    && count_triggers(g@.actions) == 0)
                &&& (e == GraphError::MultipleTriggerNodes <==> g@.ids_unique() && g@.edges_known()
                    && count_triggers(g@.actions) >= 2)
            },
        },
{
    if !check_ids_unique(g) {
        return Err(GraphError::DuplicateNodeId);
    }
    if !check_edges_known(g) {
        return Err(GraphError::UnknownEdgeNode);
    }
    let (count, first) = scan_triggers(g);
    if count == 0 {
        return Err(GraphError::NoTriggerNode);
    }
    if count >= 2 {
        return Err(GraphError::MultipleTriggerNodes);
    }
    let start = match first {
        Some(f) => f,
        None => {
            proof {
                assert(false);
            }
            0
        },
    };
    proof {
        lemma_trigger_index_unique(g@, start as int);
    }
    let order = bfs_order(g, start);
    let mut out: Vec<Action> = Vec::new();
    let mut q: usize = 0;
    while q < order.len()
        invariant
            q <= order@.len(),
            out@.len() == q,
            forall|i: int| 0 <= i < order@.len() ==> ((#[trigger] order@[i]) as int) < g@.actions.len(),
            g@.actions.len() == g.actions@.len(),
            forall|i: int| 0 <= i < q ==> (#[trigger] out@[i])@ == g@.actions[order@[i] as int],
        decreases order@.len() - q,
    {
        let idx: usize = order[q];
        let a = g.actions[idx].duplicate();
        out.push(a);
        q = q + 1;
    }
    proof {
        let p = action_views(out@);
        let ord = order@;
        let gv = g@;
        assert(p.len() == ord.len());
        assert(forall|i: int| 0 <= i < p.len() ==> p[i] == gv.actions[(#[trigger] ord[i]) as int]);
        assert(p[0] == gv.actions[start as int]);
        assert(p[0] == gv.trigger_action());
        assert forall|i: int| 0 <= i < p.len() implies exists|w: int|
            0 <= w < gv.actions.len() && (#[trigger] p[i]) == gv.actions[w] by {
            assert(p[i] == gv.actions[ord[i] as int]);
        }
        assert forall|i: int, j: int| 0 <= i < j < p.len() implies p[i].node_id != p[j].node_id by {
            assert(ord[i] != ord[j]);
            assert(p[i] == gv.actions[ord[i] as int]);
            assert(p[j] == gv.actions[ord[j] as int]);
        }
        assert forall|i: int| 1 <= i < p.len() implies discovered_from_earlier(gv, p, i) by {
            assert(order_discovered(gv, ord, i));
            let j = choose|j: int|
                0 <= j < i && gv.has_edge(
                    id_at(gv, (#[trigger] ord[j]) as int),
                    id_at(gv, ord[i] as int),
                );
            assert(p[j].node_id == id_at(gv, ord[j] as int));
            assert(p[i].node_id == id_at(gv, ord[i] as int));
            assert(gv.has_edge(p[j].node_id, p[i].node_id));
        }
        assert forall|i: int, k: int|
            #![trigger p[i], gv.edges[k]]
            0 <= i < p.len() && 0 <= k < gv.edges.len() && gv.edges[k].source == p[i].node_id
                implies plan_contains_id(p, gv.edges[k].target) by {
            assert(p[i].node_id == id_at(gv, ord[i] as int));
            assert(gv.edges[k].source == id_at(gv, ord[i] as int));
            let t = choose|t: int|
                0 <= t < gv.actions.len() && #[trigger] order_contains(ord, t) && id_at(gv, t)
                    == gv.edges[k].target;
            let q2 = choose|q2: int| 0 <= q2 < ord.len() && (#[trigger] ord[q2]) as int == t;
            assert(p[q2].node_id == id_at(gv, t));
        }
        assert(is_plan(gv, p));
    }
    Ok(out)
}

/// An id-path through the graph: consecutive nodes joined by edges.
pub open spec fn is_path(g: WorkflowView, p: Seq<Seq<char>>) -> bool {
    &&& p.len() >= 1
    &&& forall|i: int| 0 <= i < p.len() ==> g.has_node(#[trigger] p[i])
    &&& forall|i: int| 0 <= i < p.len() - 1 ==> g.has_edge(#[trigger] p[i], p[i + 1])
}

/// Node `to` can be reached from node `from` along directed edges.
pub open spec fn reachable(g: WorkflowView, from: Seq<char>, to: Seq<char>) -> bool {
    exists|p: Seq<Seq<char>>| is_path(g, p) && p[0] == from && p.last() == to
}

/// Every planned node is reachable from the plan's first node.
pub proof fn lemma_plan_sound(g: WorkflowView, p: Seq<ActionView>, i: int)
    requires
        is_plan(g, p),
        0 <= i < p.len(),
    ensures
        reachable(g, p[0].node_id, p[i].node_id),
    decreases i,
{
    let w = choose|w: int| 0 <= w < g.actions.len() && p[i] == g.actions[w];
    assert(g.actions[w].node_id == p[i].node_id);
    assert(g.has_node(p[i].node_id));
    if i == 0 {
        let path = seq![p[0].node_id];
        assert(path.last() == p[0].node_id);
        assert(is_path(g, path));
        assert(reachable(g, p[0].node_id, p[0].node_id));
    } else {
        assert(discovered_from_earlier(g, p, i));
        let j = choose|j: int| 0 <= j < i && g.has_edge((#[trigger] p[j]).node_id, p[i].node_id);
        lemma_plan_sound(g, p, j);
        let q = choose|q: Seq<Seq<char>>|
            is_path(g, q) && q[0] == p[0].node_id && q.last() == p[j].node_id;
        let q2 = q.push(p[i].node_id);
        assert(q2.last() == p[i].node_id);
        assert(q2[0] == p[0].node_id);
        assert forall|a: int| 0 <= a < q2.len() implies g.has_node(#[trigger] q2[a]) by {
            if a < q.len() {
                assert(q2[a] == q[a]);
            }
        }
        assert forall|a: int| 0 <= a < q2.len() - 1 implies g.has_edge(
            #[trigger] q2[a],
            q2[a + 1],
        ) by {
            if a < q.len() - 1 {
                assert(q2[a] == q[a]);
                assert(q2[a + 1] == q[a + 1]);
            } else {
                assert(q2[a] == q.last());
                assert(q2[a + 1] == p[i].node_id);
            }
        }
        assert(is_path(g, q2));
    }
}

/// Every node reachable over a path that starts at the plan's first node
/// is planned.
pub proof fn lemma_plan_complete_path(g: WorkflowView, p: Seq<ActionView>, path: Seq<Seq<char>>)
    requires
        is_plan(g, p),
        is_path(g, path),
        path[0] == p[0].node_id,
    ensures
        plan_contains_id(p, path.last()),
    decreases path.len(),
{
    if path.len() == 1 {
        assert(p[0].node_id == path.last());
        assert(plan_contains_id(p, path.last()));
    } else {
        let pre = path.drop_last();
        assert forall|a: int| 0 <= a < pre.len() implies g.has_node(#[trigger] pre[a]) by {
            assert(pre[a] == path[a]);
        }
        assert forall|a: int| 0 <= a < pre.len() - 1 implies g.has_edge(
            #[trigger] pre[a],
            pre[a + 1],
        ) by {
            assert(pre[a] == path[a]);
            assert(pre[a + 1] == path[a + 1]);
        }
        assert(is_path(g, pre));
        lemma_plan_complete_path(g, p, pre);
        let i = choose|i: int|
            0 <= i < p.len() && (#[trigger] p[i]).node_id == pre.last();
        let last = path.len() - 2;
        assert(path[last] == pre.last());
        assert(g.has_edge(path[last], path[last + 1]));
        let k = choose|k: int|
            0 <= k < g.edges.len() && (#[trigger] g.edges[k]).source == path[last]
                && g.edges[k].target == path[last + 1];
        assert(g.edges[k].source == p[i].node_id);
        assert(plan_contains_id(p, g.edges[k].target));
        assert(g.edges[k].target == path.last());
    }
}

/// The planner's output is exactly the set of nodes reachable from the
/// trigger node: each reachable node appears once, the trigger first,
/// and a node appears only when it is reachable. Together with
/// `is_plan`, a graph whose trigger reaches `N` nodes yields exactly
/// `N` planned actions, positions `0` to `N - 1`, no node repeated.
pub proof fn lemma_plan_is_reachable_set(g: WorkflowView, p: Seq<ActionView>)
    requires
        is_plan(g, p),
    ensures
        forall|id: Seq<char>|
            #[trigger] plan_contains_id(p, id) <==> (g.has_node(id) && reachable(
                g,
                g.trigger_action().node_id,
                id,
            )),
{
    assert forall|id: Seq<char>|
        #[trigger] plan_contains_id(p, id) <==> (g.has_node(id) && reachable(
            g,
            g.trigger_action().node_id,
            id,
        )) by {
        if plan_contains_id(p, id) {
            let i = choose|i: int| 0 <= i < p.len() && (#[trigger] p[i]).node_id == id;
            lemma_plan_sound(g, p, i);
            let w = choose|w: int| 0 <= w < g.actions.len() && p[i] == g.actions[w];
            assert(g.actions[w].node_id == id);
            assert(g.has_node(id));
        }
        if g.has_node(id) && reachable(g, g.trigger_action().node_id, id) {
            let path = choose|path: Seq<Seq<char>>|
                is_path(g, path) && path[0] == g.trigger_action().node_id && path.last() == id;
            lemma_plan_complete_path(g, p, path);
        }
    }
}

} // verus!
