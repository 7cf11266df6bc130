//! Decision logic of a bulk claim runner: one workflow per account, spread over
//! a pool of interchangeable endpoints, admitted at a fixed pace and resubmitted
//! on failure until every account has succeeded.
//!
//! The library holds no connection, key or clock. A driver performs the waits,
//! spawns and joins; every decision about what happens next is taken here.

pub mod config;
pub mod constants;
pub mod eligibility;
pub mod error;
pub mod headers;
pub mod orchestrator;
pub mod pool;
pub mod random;
pub mod retry;
pub mod throttle;
pub mod workflow;
