//! Schema write executor foundation. It is default-blocked: even when every
//! prerequisite holds it only reports `NotExecuted` and performs no write.

use vstd::prelude::*;
use crate::schema_write_requests::{SchemaWriteOperationStatus, SchemaWriteRequestPlan};

verus! {

#[derive(Debug, Clone, Copy, PartialEq, Eq, Structural)]
pub enum SchemaWriteExecutorMode {
    Disabled,
    SandboxOnly,
}

#[derive(Debug, Clone, Copy, PartialEq, Eq, Structural)]
pub enum SchemaWriteExecutorStatus {
    Blocked,
    NotExecuted,
}

#[derive(Debug, Clone)]
pub struct SchemaWriteExecutorRequest {
    pub mode: SchemaWriteExecutorMode,
    pub explicit_internal_schema_write_requested: bool,
    pub sandbox_verified: bool,
    pub target_empty_verified: bool,
    pub live_write_readiness_satisfied: bool,
}

#[derive(Debug, Clone)]
pub struct SchemaWriteExecutorResult {
    pub status: SchemaWriteExecutorStatus,
    pub no_changes_made: bool,
    pub network_writes_attempted: bool,
}

/// The status of the schema executor for a request and a plan.
pub open spec fn schema_executor_status(
    r: SchemaWriteExecutorRequest,
    plan_status: SchemaWriteOperationStatus,
) -> SchemaWriteExecutorStatus {
    if r.mode == SchemaWriteExecutorMode::SandboxOnly && r.explicit_internal_schema_write_requested
        && r.sandbox_verified && r.target_empty_verified && r.live_write_readiness_satisfied
        && plan_status != SchemaWriteOperationStatus::Blocked {
        SchemaWriteExecutorStatus::NotExecuted
    } else {
        SchemaWriteExecutorStatus::Blocked
    }
}

/// Builds the schema executor plan: `NotExecuted` when the mode is sandbox-only,
/// every prerequisite holds and the plan is not blocked; `Blocked` otherwise.
pub fn build_schema_write_executor_plan(
    request: &SchemaWriteExecutorRequest,
    plan: &SchemaWriteRequestPlan,
) -> (result: SchemaWriteExecutorResult)
    ensures
        result.status == schema_executor_status(*request, plan.status),
        result.no_changes_made,
        !result.network_writes_attempted,
{
    let plan_blocked = match plan.status {
        SchemaWriteOperationStatus::Blocked => true,
        _ => false,
    };
    let sandbox_mode = match request.mode {
        SchemaWriteExecutorMode::SandboxOnly => true,
        SchemaWriteExecutorMode::Disabled => false,
    };
    let ready = sandbox_mode && request.explicit_internal_schema_write_requested
        && request.sandbox_verified && request.target_empty_verified
        && request.live_write_readiness_satisfied && !plan_blocked;
    SchemaWriteExecutorResult {
        status: if ready { SchemaWriteExecutorStatus::NotExecuted } else { SchemaWriteExecutorStatus::Blocked },
        no_changes_made: true,
        network_writes_attempted: false,
    }
}

} // verus!
