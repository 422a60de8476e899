//! Synchronization scheduler for a set of remote favorite collections.
//!
//! The verified core is the control logic: configuration validation, the
//! per-collection four-step pipeline with its directory-guard discipline, the
//! top-level scheduling state machine with per-collection failure isolation,
//! and the gating and addressing rules of the alert channel. The remote calls,
//! directory switches, sleeps and mail transport are performed by an outer
//! driver that executes the actions these machines emit and reports each
//! outcome back.
use vstd::prelude::*;

pub mod config;
pub mod failure;
pub mod notify;
pub mod pipeline;
pub mod scheduler;

verus! {

/// The reported outcome of one issued action: a remote call, a directory
/// switch, a sleep, or a mail dispatch.
#[derive(Debug)]
pub enum StepOutcome {
    Success,
    Failure { detail: String },
}

} // verus!
