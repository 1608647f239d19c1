//! Routing decisions for disaggregated inference.
//!
//! A request may be served in two phases: a prefill worker computes the prompt and hands over
//! what a decode worker needs to continue. This crate holds the decisions that such a deployment
//! makes for each request, and the lifecycle of the prefill side:
//!
//! - [`prefill_router`]: the lifecycle of a prefill router, and whether it can serve;
//! - [`lifecycle`]: what holds over every history of lifecycle events;
//! - [`activation`]: how a router comes to be active;
//! - [`worker_query`]: how a prefill worker is chosen and its bootstrap address resolved;
//! - [`execution`]: how a prefill is dispatched and its output stream read;
//! - [`generate`]: the way of a request from arrival to the decode worker;
//! - [`worker_set`]: a group of workers with the pipelines built for them;
//! - [`promises`]: what each operation promises its callers;
//! - [`scheduler`]: the interface of an engine's scheduler.
//!
//! Nothing here performs I/O. Each function takes what was observed and returns what is to be
//! done next, and the caller carries it out.

pub mod activation;
pub mod channels;
pub mod error;
pub mod execution;
pub mod generate;
pub mod json;
pub mod lifecycle;
pub mod prefill_router;
pub mod promises;
pub mod protocols;
pub mod scheduler;
pub mod worker_query;
pub mod worker_set;
