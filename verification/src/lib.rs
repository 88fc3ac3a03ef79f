//! A distributed job-execution runtime: jobs are dispatched to single-shot,
//! resource-capped workers chosen by a node-selection policy, driven over an
//! unreliable timeout-only request/response transport with unconditional
//! retry, and collected through synchronous calls, pollable asynchronous
//! handles, or an order-preserving fanout sweep.
//!
//! The protocol logic lives here and is verified: node selection, the worker
//! lifecycle state machine, the retry-call discipline, the worker's request
//! handlers, and the coordination loops that drive jobs to completion against
//! an in-process cluster. An outside actor runtime supplies process spawning
//! and message passing; cluster provisioning helpers decide, from plain data,
//! what such a deployment layer should do.

pub mod config;
pub mod lifecycle;
pub mod node;
pub mod retry;
pub mod job;
pub mod handle;
pub mod cluster;
pub mod worker;
pub mod laws;
pub mod provision;
