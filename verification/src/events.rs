//! The desktop shell's event loop decisions: what a scheduler tick does
//! with the oldest pending event row, which worker handles it, and the
//! event rows enqueued when a flow's start event fans out into the rest
//! of its planned work. The shell owns the timer and the database; the
//! decisions are made here, on plain values.

use vstd::prelude::*;

use crate::graph::Action;
use crate::json::{lookup_key, JsonData, JsonVal};
use crate::planner::action_views;

verus! {

/// What the loop reads from one row of the event queue.
pub struct EventRow {
    pub event_id: Option<String>,
    pub worker_type: Option<String>,
    pub node_id: Option<String>,
    pub flow_id: Option<String>,
    pub flow_name: Option<String>,
}

/// What one tick of the scheduler does with the rows it fetched.
pub enum TickDecision {
    /// No pending event: nothing to do until the next tick.
    NoItems,
    /// The oldest row carries no event id: it cannot be tracked, so it
    /// is reported and left alone.
    MissingEventId,
    /// The oldest row carries no worker type: reported and left alone.
    MissingWorkerType,
    /// Execute the oldest row's worker, and mark the event done when
    /// the worker succeeds.
    Execute(String, String),
}

/// Decide what a tick does: the oldest pending row is executed when it
/// carries both an event id and a worker type.
pub fn tick_decision(rows: &Vec<EventRow>) -> (r: TickDecision)
    ensures
        (match r {
            TickDecision::NoItems => rows@.len() == 0,
            TickDecision::MissingEventId => rows@.len() > 0 && rows@[0].event_id is None,
            TickDecision::MissingWorkerType => rows@.len() > 0 && rows@[0].event_id is Some
                && rows@[0].worker_type is None,
            TickDecision::Execute(eid, wt) => rows@.len() > 0 && (match (
                rows@[0].event_id,
                rows@[0].worker_type,
            ) {
                (Some(e), Some(w)) => eid@ == e@ && wt@ == w@,
                _ => false,
            }),
        }),
{
    if rows.len() == 0 {
        return TickDecision::NoItems;
    }
    match (&rows[0].event_id, &rows[0].worker_type) {
        (None, _) => TickDecision::MissingEventId,
        (Some(_), None) => TickDecision::MissingWorkerType,
        (Some(e), Some(w)) => TickDecision::Execute(e.clone(), w.clone()),
    }
}

/// What a worker does for an event, by worker type.
pub enum WorkerAction {
    /// A start event fans the named flow's graph out into further
    /// events.
    StartFlow(String),
    /// A start event without a flow name cannot fan out: nothing done.
    NothingToStart,
    /// A rest worker: handled in place.
    Rest,
    /// An unrecognized worker type: nothing done.
    Unknown,
}

/// Decide which worker path handles an event.
pub fn worker_decision(worker_type: &String, flow_name: &Option<String>) -> (r: WorkerAction)
    ensures
        (match r {
            WorkerAction::StartFlow(n) => worker_type@ == "start"@ && (match flow_name {
                Some(f) => n@ == f@,
                None => false,
            }),
            WorkerAction::NothingToStart => worker_type@ == "start"@ && flow_name is None,
            WorkerAction::Rest => worker_type@ == "rest"@,
            WorkerAction::Unknown => worker_type@ != "start"@ && worker_type@ != "rest"@,
        }),
{
    if *worker_type == "start".to_owned() {
        match flow_name {
            Some(f) => WorkerAction::StartFlow(f.clone()),
            None => WorkerAction::NothingToStart,
        }
    } else if *worker_type == "rest".to_owned() {
        WorkerAction::Rest
    } else {
        WorkerAction::Unknown
    }
}

/// The planned actions that become queued events when a start event
/// fans out: every planned action but the start node itself, in plan
/// order.
pub fn events_after_start(plan: &Vec<Action>) -> (r: Vec<Action>)
    requires
        plan@.len() >= 1,
    ensures
        action_views(r@) == action_views(plan@).drop_first(),
{
    let mut out: Vec<Action> = Vec::new();
    let mut k: usize = 1;
    while k < plan.len()
        invariant
            1 <= k <= plan@.len(),
            out@.len() == k - 1,
            forall|i: int| 0 <= i < k - 1 ==> (#[trigger] out@[i])@ == plan@[i + 1]@,
        decreases plan@.len() - k,
    {
        let a = plan[k].duplicate();
        out.push(a);
        k = k + 1;
    }
    proof {
        assert(action_views(out@) =~= action_views(plan@).drop_first());
    }
    out
}

/// The string under `key`, or empty when the value is missing or not a
/// string.
pub open spec fn str_at(d: JsonData, key: Seq<char>) -> Seq<char> {
    match lookup_key(d, key) {
        Some(JsonData::Str(s)) => s,
        _ => Seq::empty(),
    }
}

/// The string under `key` of an object value, defaulting to empty.
pub fn get_str_or_default(v: &JsonVal, key: &String) -> (r: String)
    ensures
        r@ == str_at(v@, key@),
{
    match v.get(key) {
        Some(found) => match found {
            JsonVal::Str(s) => s.clone(),
            _ => String::new(),
        },
        None => String::new(),
    }
}

/// One row of the event queue as inserted for a newly planned piece of
/// work.
pub struct EventInsert {
    pub event_id: String,
    pub session_id: String,
    pub node_id: String,
    pub node_type: String,
    pub flow_id: String,
    pub flow_name: String,
    pub flow_version: String,
    pub stage: String,
    pub worker_type: String,
    pub event_status: String,
    pub session_status: String,
    pub created_at: String,
    pub data: String,
}

/// Build the insert row for one planned node of a flow: fields read
/// from the node and flow documents (missing ones default to empty),
/// pending statuses, and the identifiers and timestamp the caller
/// minted.
pub fn build_event_row(
    node: &JsonVal,
    flow: &JsonVal,
    event_id: String,
    session_id: String,
    created_at: String,
) -> (r: EventInsert)
    ensures
        r.event_id@ == event_id@,
        r.session_id@ == session_id@,
        r.node_id@ == str_at(node@, "id"@),
        r.node_type@ == str_at(node@, "type"@),
        r.flow_id@ == str_at(flow@, "id"@),
        r.flow_name@ == str_at(flow@, "name"@),
        r.flow_version@ == str_at(flow@, "version"@),
        r.stage@ == "dev"@,
        r.worker_type@ == str_at(str_val_at(node@, "data"@), "worker_type"@),
        r.event_status@ == "PENDING"@,
        r.session_status@ == "PENDING"@,
        r.created_at@ == created_at@,
        r.data@ == str_at(node@, "data"@),
{
    let id_key: String = "id".to_owned();
    let type_key: String = "type".to_owned();
    let data_key: String = "data".to_owned();
    let name_key: String = "name".to_owned();
    let version_key: String = "version".to_owned();
    let worker_type_key: String = "worker_type".to_owned();
    let worker_type = match node.get(&data_key) {
        Some(d) => get_str_or_default(d, &worker_type_key),
        None => String::new(),
    };
    EventInsert {
        event_id,
        session_id,
        node_id: get_str_or_default(node, &id_key),
        node_type: get_str_or_default(node, &type_key),
        flow_id: get_str_or_default(flow, &id_key),
        flow_name: get_str_or_default(flow, &name_key),
        flow_version: get_str_or_default(flow, &version_key),
        stage: "dev".to_owned(),
        worker_type,
        event_status: "PENDING".to_owned(),
        session_status: "PENDING".to_owned(),
        created_at,
        data: get_str_or_default(node, &data_key),
    }
}

/// The value under `key`, or null when absent.
pub open spec fn str_val_at(d: JsonData, key: Seq<char>) -> JsonData {
    match lookup_key(d, key) {
        Some(v) => v,
        None => JsonData::Null,
    }
}

/// The kinds of change the file store reports.
#[derive(Clone, Copy, PartialEq, Eq, Structural, Debug)]
pub enum SystemChangeType {
    /// The flows directory changed.
    Flows,
    /// Any other change.
    Other,
}

impl Default for SystemChangeType {
    /// The default change report concerns the flows directory.
    fn default() -> (r: SystemChangeType)
        ensures
            r == SystemChangeType::Flows,
    {
        SystemChangeType::Flows
    }
}

/// A message the coordinator's system actor handles.
#[derive(Clone, Copy, PartialEq, Eq, Structural, Debug)]
pub enum SystemMessage {
    StoreChanged(SystemChangeType),
}

impl SystemMessage {
    /// The message that would follow this one: a default store change.
    pub fn next(&self) -> (r: SystemMessage)
        ensures
            r == SystemMessage::StoreChanged(SystemChangeType::Flows),
    {
        match self {
            SystemMessage::StoreChanged(_) => SystemMessage::StoreChanged(
                SystemChangeType::default(),
            ),
        }
    }

    /// A printable account of the message.
    pub fn describe(&self) -> (r: &'static str)
        ensures
            r@ == "Store changed"@,
    {
        match self {
            SystemMessage::StoreChanged(_) => "Store changed",
        }
    }
}

/// The coordinator's system actor: reacts to store change messages by
/// reloading flows. The actor runtime and the file store live with the
/// host; the reaction decision is here.
pub struct SystemActor;

/// Whether a message makes the actor reload flows: only a change to
/// the flows directory does.
pub fn should_reload(msg: &SystemMessage) -> (r: bool)
    ensures
        r == (msg matches SystemMessage::StoreChanged(SystemChangeType::Flows)),
{
    match msg {
        SystemMessage::StoreChanged(SystemChangeType::Flows) => true,
        _ => false,
    }
}

} // verus!
