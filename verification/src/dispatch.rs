//! The plugin dispatch registry: routes a task to one of the built-in
//! execution strategies by exact match on its plugin name. An unknown
//! or missing plugin name is not a failure: the task completes with an
//! informational result payload, so a configuration gap never blocks a
//! session. Execution failures inside a recognized plugin surface as
//! the task's error and never crash the processing loop.

use vstd::prelude::*;
use vstd::string::StringExecFns;

use crate::json::{JsonData, JsonVal};
use crate::status::ActionType;
use crate::task::Task;

verus! {

/// The built-in execution strategies.
#[derive(Clone, Copy, PartialEq, Eq, Structural, Debug)]
pub enum PluginKind {
    /// Outbound HTTP call.
    Http,
    /// Conditional / filter evaluation.
    Filter,
    /// Embedded script evaluation.
    Javascript,
    /// Webhook response emission.
    WebhookResponse,
    /// External tool call result emission.
    AgentToolCallResponse,
    /// Text formatting.
    FormatText,
    /// Date formatting.
    FormatDate,
}

/// Exact-match lookup of a plugin name against the registry.
pub open spec fn kind_of_name(s: Seq<char>) -> Option<PluginKind> {
    if s == "@anything/http"@ {
        Some(PluginKind::Http)
    } else if s == "@anything/filter"@ {
        Some(PluginKind::Filter)
    } else if s == "@anything/javascript"@ {
        Some(PluginKind::Javascript)
    } else if s == "@anything/webhook_response"@ {
        Some(PluginKind::WebhookResponse)
    } else if s == "@anything/agent_tool_call_response"@ {
        Some(PluginKind::AgentToolCallResponse)
    } else if s == "@anything/format_text"@ {
        Some(PluginKind::FormatText)
    } else if s == "@anything/format_date"@ {
        Some(PluginKind::FormatDate)
    } else {
        None
    }
}

/// The registered strategy for a plugin name, or none.
pub fn plugin_kind(name: &String) -> (r: Option<PluginKind>)
    ensures
        r == kind_of_name(name@),
{
    if *name == "@anything/http".to_owned() {
        Some(PluginKind::Http)
    } else if *name == "@anything/filter".to_owned() {
        Some(PluginKind::Filter)
    } else if *name == "@anything/javascript".to_owned() {
        Some(PluginKind::Javascript)
    } else if *name == "@anything/webhook_response".to_owned() {
        Some(PluginKind::WebhookResponse)
    } else if *name == "@anything/agent_tool_call_response".to_owned() {
        Some(PluginKind::AgentToolCallResponse)
    } else if *name == "@anything/format_text".to_owned() {
        Some(PluginKind::FormatText)
    } else if *name == "@anything/format_date".to_owned() {
        Some(PluginKind::FormatDate)
    } else {
        None
    }
}

/// Where a task's execution goes.
#[derive(Clone, Copy, PartialEq, Eq, Structural, Debug)]
pub enum DispatchRoute {
    /// Trigger tasks take the trigger-handling path, not the registry.
    Trigger,
    /// A registered plugin runs the task.
    Plugin(PluginKind),
    /// The task names a plugin that is not registered.
    MissingPlugin,
    /// The task names no plugin at all.
    NoPluginName,
}

/// The route of a task: triggers bypass the registry; other tasks go by
/// exact-match plugin name lookup.
pub open spec fn dispatch_route_spec(t: Task) -> DispatchRoute {
    if t.action_type == ActionType::Trigger {
        DispatchRoute::Trigger
    } else {
        match t.plugin_name {
            Some(n) => match kind_of_name(n@) {
                Some(k) => DispatchRoute::Plugin(k),
                None => DispatchRoute::MissingPlugin,
            },
            None => DispatchRoute::NoPluginName,
        }
    }
}

/// Route one task to its execution strategy.
pub fn dispatch_route(t: &Task) -> (r: DispatchRoute)
    ensures
        r == dispatch_route_spec(*t),
{
    if t.action_type == ActionType::Trigger {
        DispatchRoute::Trigger
    } else {
        match &t.plugin_name {
            Some(n) => match plugin_kind(n) {
                Some(k) => DispatchRoute::Plugin(k),
                None => DispatchRoute::MissingPlugin,
            },
            None => DispatchRoute::NoPluginName,
        }
    }
}

/// A plugin execution failure, recorded on the task.
#[derive(Debug)]
pub struct PluginError {
    pub message: String,
}

/// What execution leaves on a failed task: its error payload and the
/// bundled context it ran under.
#[derive(Debug)]
pub struct TaskError {
    pub error: JsonVal,
    pub context: JsonVal,
}

/// The informational result payload for a plugin name that is not
/// registered.
pub open spec fn missing_plugin_message(plugin_id: Seq<char>, task_id: Seq<char>) -> Seq<char> {
    "Processed task "@ + task_id + " :: plugin_id "@ + plugin_id + " does not exist."@
}

/// The informational result payload for a task without a plugin name.
pub open spec fn no_plugin_name_message(task_id: Seq<char>) -> Seq<char> {
    "Processed task "@ + task_id + " :: no plugin_id found."@
}

/// An object `{"message": m}`.
pub open spec fn message_payload(m: Seq<char>) -> JsonData {
    JsonData::Obj(seq![("message"@, JsonData::Str(m))])
}

fn message_value(m: String) -> (r: JsonVal)
    ensures
        r@ == message_payload(m@),
{
    let mut pairs: Vec<(String, JsonVal)> = Vec::new();
    pairs.push(("message".to_owned(), JsonVal::Str(m)));
    proof {
        crate::json::lemma_jview_obj(pairs@);
        assert(crate::json::jview_obj(pairs@) =~= seq![("message"@, JsonData::Str(m@))]);
    }
    JsonVal::Obj(pairs)
}

/// A task naming an unregistered plugin completes successfully with an
/// informational payload: a configuration gap is not an execution
/// failure.
pub fn process_missing_plugin(plugin_id: &String, task_id: &String) -> (r: Result<
    Option<JsonVal>,
    PluginError,
>)
    ensures
        (match r {
            Ok(v) => match v {
                Some(out) => out@ == message_payload(
                    missing_plugin_message(plugin_id@, task_id@),
                ),
                None => false,
            },
            Err(_) => false,
        }),
{
    let m = "Processed task ".to_owned().concat(task_id.as_str()).concat(
        " :: plugin_id ",
    ).concat(plugin_id.as_str()).concat(" does not exist.");
    Ok(Some(message_value(m)))
}

/// A task without a plugin name completes successfully with an
/// informational payload.
pub fn process_no_plugin_name(task_id: &String) -> (r: Result<Option<JsonVal>, PluginError>)
    ensures
        (match r {
            Ok(v) => match v {
                Some(out) => out@ == message_payload(no_plugin_name_message(task_id@)),
                None => false,
            },
            Err(_) => false,
        }),
{
    let m = "Processed task ".to_owned().concat(task_id.as_str()).concat(
        " :: no plugin_id found.",
    );
    Ok(Some(message_value(m)))
}

/// The trigger-handling path: a trigger task performs no outside work;
/// it completes successfully, handing its bundled inputs through as its
/// result.
pub fn process_trigger_task(bundled_inputs: &JsonVal) -> (r: Result<Option<JsonVal>, PluginError>)
    ensures
        (match r {
            Ok(v) => match v {
                Some(out) => out@ == bundled_inputs@,
                None => false,
            },
            Err(_) => false,
        }),
{
    Ok(Some(bundled_inputs.deep_copy()))
}

/// What the host's plugin call returned, for a task routed to a
/// registered plugin: either a result payload or a failure message.
pub enum PluginOutcome {
    Success(Option<JsonVal>),
    Failure(String),
}

/// Settle one task execution. The host performs the plugin call for a
/// `Plugin` route and hands its outcome in; every other route is decided
/// here alone, whatever `outcome` holds. Returns what the processing
/// loop persists: `(result, context, started_at, ended_at)` on success,
/// or the task's error with the context it ran under.
///
/// A trigger task succeeds with its bundled inputs; an unknown or
/// missing plugin name succeeds with an informational payload; a
/// recognized plugin's success or failure is passed through, the failure
/// message recorded as `{"message": m}`.
pub fn execute_task(
    t: &Task,
    bundled_inputs: &JsonVal,
    bundled_config: &JsonVal,
    outcome: &PluginOutcome,
    started_at: i64,
    ended_at: i64,
) -> (r: Result<(Option<JsonVal>, JsonVal, i64, i64), TaskError>)
    ensures
        (match r {
            Ok((res, ctx, s, e)) => {
                &&& ctx@ == bundled_config@
                &&& s == started_at
                &&& e == ended_at
                &&& (match dispatch_route_spec(*t) {
                    DispatchRoute::Trigger => res matches Some(v) && v@ == bundled_inputs@,
                    DispatchRoute::Plugin(_) => (match outcome {
                        PluginOutcome::Success(out) => match (out, res) {
                            (Some(v), Some(rv)) => rv@ == v@,
                            (None, None) => true,
                            _ => false,
                        },
                        PluginOutcome::Failure(_) => false,
                    }),
                    DispatchRoute::MissingPlugin => res matches Some(v) && v@ == message_payload(
                        missing_plugin_message(
                            (match t.plugin_name {
                                Some(n) => n@,
                                None => Seq::empty(),
                            }),
                            t.task_id@,
                        ),
                    ),
                    DispatchRoute::NoPluginName => res matches Some(v) && v@ == message_payload(
                        no_plugin_name_message(t.task_id@),
                    ),
                })
            },
            Err(te) => {
                &&& te.context@ == bundled_config@
                &&& dispatch_route_spec(*t) is Plugin
                &&& (outcome matches PluginOutcome::Failure(m) && te.error@ == message_payload(m@))
            },
        }),
{
    let route = dispatch_route(t);
    match route {
        DispatchRoute::Trigger => {
            let res = process_trigger_task(bundled_inputs);
            match res {
                Ok(v) => Ok((v, bundled_config.deep_copy(), started_at, ended_at)),
                Err(_) => {
                    proof {
                        assert(false);
                    }
                    Err(TaskError { error: JsonVal::Null, context: bundled_config.deep_copy() })
                },
            }
        },
        DispatchRoute::Plugin(_) => match outcome {
            PluginOutcome::Success(out) => {
                let res = match out {
                    Some(v) => Some(v.deep_copy()),
                    None => None,
                };
                Ok((res, bundled_config.deep_copy(), started_at, ended_at))
            },
            PluginOutcome::Failure(m) => Err(
                TaskError {
                    error: message_value(m.clone()),
                    context: bundled_config.deep_copy(),
                },
            ),
        },
        DispatchRoute::MissingPlugin => {
            let name = match &t.plugin_name {
                Some(n) => n.clone(),
                None => {
                    proof {
                        assert(false);
                    }
                    String::new()
                },
            };
            let res = process_missing_plugin(&name, &t.task_id);
            match res {
                Ok(v) => Ok((v, bundled_config.deep_copy(), started_at, ended_at)),
                Err(_) => {
                    proof {
                        assert(false);
                    }
                    Err(TaskError { error: JsonVal::Null, context: bundled_config.deep_copy() })
                },
            }
        },
        DispatchRoute::NoPluginName => {
            let res = process_no_plugin_name(&t.task_id);
            match res {
                Ok(v) => Ok((v, bundled_config.deep_copy(), started_at, ended_at)),
                Err(_) => {
                    proof {
                        assert(false);
                    }
                    Err(TaskError { error: JsonVal::Null, context: bundled_config.deep_copy() })
                },
            }
        },
    }
}

} // verus!
