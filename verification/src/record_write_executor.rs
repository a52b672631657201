//! Record write executor foundation. It is default-blocked: even when every
//! prerequisite holds it only reports `NotExecuted` and performs no write.

use vstd::prelude::*;
use crate::record_write_requests::{RecordWriteOperationStatus, RecordWriteRequestPlan};

verus! {

#[derive(Debug, Clone, Copy, PartialEq, Eq, Structural)]
pub enum RecordWriteExecutorMode {
    Disabled,
    SandboxOnly,
}

#[derive(Debug, Clone, Copy, PartialEq, Eq, Structural)]
pub enum RecordWriteExecutorStatus {
    Blocked,
    NotExecuted,
}

#[derive(Debug, Clone)]
pub struct RecordWriteExecutorRequest {
    pub mode: RecordWriteExecutorMode,
    pub explicit_internal_record_write_requested: bool,
    pub sandbox_verified: bool,
    pub target_empty_verified: bool,
    pub schema_executor_safe: bool,
    pub rate_limit_backoff_safe: bool,
    pub checkpoint_store_safe: bool,
    pub live_write_readiness_satisfied: bool,
}

#[derive(Debug, Clone)]
pub struct RecordWriteExecutorResult {
    pub status: RecordWriteExecutorStatus,
    pub no_changes_made: bool,
    pub network_writes_attempted: bool,
}

/// The status of the record executor for a request and a plan.
pub open spec fn record_executor_status(
    r: RecordWriteExecutorRequest,
    plan_status: RecordWriteOperationStatus,
) -> RecordWriteExecutorStatus {
    if r.mode == RecordWriteExecutorMode::SandboxOnly && r.explicit_internal_record_write_requested
        && r.sandbox_verified && r.target_empty_verified && r.schema_executor_safe
        && r.rate_limit_backoff_safe && r.checkpoint_store_safe && r.live_write_readiness_satisfied
        && plan_status != RecordWriteOperationStatus::Blocked {
        RecordWriteExecutorStatus::NotExecuted
    } else {
        RecordWriteExecutorStatus::Blocked
    }
}

/// Builds the record executor plan: `NotExecuted` when the mode is sandbox-only,
/// every prerequisite holds and the plan is not blocked; `Blocked` otherwise.
pub fn build_record_write_executor_plan(
    request: &RecordWriteExecutorRequest,
    plan: &RecordWriteRequestPlan,
) -> (result: RecordWriteExecutorResult)
    ensures
        result.status == record_executor_status(*request, plan.status),
        result.no_changes_made,
        !result.network_writes_attempted,
{
    let plan_blocked = match plan.status {
        RecordWriteOperationStatus::Blocked => true,
        _ => false,
    };
    let sandbox_mode = match request.mode {
        RecordWriteExecutorMode::SandboxOnly => true,
        RecordWriteExecutorMode::Disabled => false,
    };
    let ready = sandbox_mode && request.explicit_internal_record_write_requested
        && request.sandbox_verified && request.target_empty_verified
        && request.schema_executor_safe && request.rate_limit_backoff_safe
        && request.checkpoint_store_safe && request.live_write_readiness_satisfied && !plan_blocked;
    RecordWriteExecutorResult {
        status: if ready { RecordWriteExecutorStatus::NotExecuted } else { RecordWriteExecutorStatus::Blocked },
        no_changes_made: true,
        network_writes_attempted: false,
    }
}

} // verus!
