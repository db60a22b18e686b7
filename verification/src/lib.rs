//! Workflow execution engine: a workflow is a directed graph of typed
//! actions; the engine plans it into an ordered sequence of task records,
//! bundles each task's input from prior results, dispatches tasks to
//! plugins under a bounded concurrency permit pool, and tracks a
//! three-tier status lifecycle (task, trigger session, flow session).

pub mod api;
pub mod bundler;
pub mod chart;
pub mod dispatch;
pub mod events;
pub mod files;
pub mod graph;
pub mod json;
pub mod planner;
pub mod redact;
pub mod scheduler;
pub mod status;
pub mod task;
