//! Linked second-pass executor foundation. It is default-blocked: even when
//! every prerequisite holds it only reports `NotExecuted`.

use vstd::prelude::*;
use crate::linked_second_pass_execution_preview::{
    LinkedSecondPassExecutionPreviewStatus, LinkedSecondPassFieldSummary,
};

verus! {

#[derive(Debug, Clone, Copy, PartialEq, Eq, Structural)]
pub enum LinkedSecondPassExecutorMode {
    Disabled,
    SandboxOnly,
}

#[derive(Debug, Clone, Copy, PartialEq, Eq, Structural)]
pub enum LinkedSecondPassExecutorStatus {
    Blocked,
    NotExecuted,
}

#[derive(Debug, Clone)]
pub struct LinkedSecondPassExecutorRequest {
    pub mode: LinkedSecondPassExecutorMode,
    pub explicit_internal_linked_second_pass_requested: bool,
    pub sandbox_verified: bool,
    pub target_empty_verified: bool,
    pub record_executor_safe: bool,
    pub linked_second_pass_preview_ready: bool,
    pub linked_second_pass_preview_status: LinkedSecondPassExecutionPreviewStatus,
    pub mapping_checkpoint_preview_ready: bool,
    pub sensitive_data_safe: bool,
    pub live_write_readiness_satisfied: bool,
    pub batch_size: usize,
    pub field_summaries: Vec<LinkedSecondPassFieldSummary>,
}

#[derive(Debug, Clone)]
pub struct LinkedSecondPassExecutorResult {
    pub status: LinkedSecondPassExecutorStatus,
    pub no_changes_made: bool,
    pub network_writes_attempted: bool,
}

/// The status of the linked executor for a request.
pub open spec fn linked_executor_status(r: LinkedSecondPassExecutorRequest) -> LinkedSecondPassExecutorStatus {
    if r.mode == LinkedSecondPassExecutorMode::SandboxOnly
        && r.explicit_internal_linked_second_pass_requested && r.sandbox_verified
        && r.target_empty_verified && r.record_executor_safe && r.linked_second_pass_preview_ready
        && r.linked_second_pass_preview_status == LinkedSecondPassExecutionPreviewStatus::Ready
        && r.mapping_checkpoint_preview_ready && r.sensitive_data_safe
        && r.live_write_readiness_satisfied && r.batch_size > 0 {
        LinkedSecondPassExecutorStatus::NotExecuted
    } else {
        LinkedSecondPassExecutorStatus::Blocked
    }
}

/// Builds the linked executor plan: `NotExecuted` when the mode is sandbox-only
/// and every prerequisite holds; `Blocked` otherwise.
pub fn build_linked_second_pass_executor_plan(
    request: &LinkedSecondPassExecutorRequest,
) -> (result: LinkedSecondPassExecutorResult)
    ensures
        result.status == linked_executor_status(*request),
        result.no_changes_made,
        !result.network_writes_attempted,
{
    let sandbox_mode = match request.mode {
        LinkedSecondPassExecutorMode::SandboxOnly => true,
        LinkedSecondPassExecutorMode::Disabled => false,
    };
    let preview_ready = match request.linked_second_pass_preview_status {
        LinkedSecondPassExecutionPreviewStatus::Ready => true,
        LinkedSecondPassExecutionPreviewStatus::Blocked => false,
    };
    let ready = sandbox_mode && request.explicit_internal_linked_second_pass_requested
        && request.sandbox_verified && request.target_empty_verified
        && request.record_executor_safe && request.linked_second_pass_preview_ready && preview_ready
        && request.mapping_checkpoint_preview_ready && request.sensitive_data_safe
        && request.live_write_readiness_satisfied && request.batch_size > 0;
    LinkedSecondPassExecutorResult {
        status: if ready { LinkedSecondPassExecutorStatus::NotExecuted } else { LinkedSecondPassExecutorStatus::Blocked },
        no_changes_made: true,
        network_writes_attempted: false,
    }
}

} // verus!
