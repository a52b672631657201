//! Final validation reader foundation. It is default-blocked: even when every
//! prerequisite holds it only reports `NotExecuted` and performs no read.

use vstd::prelude::*;

verus! {

#[derive(Debug, Clone, Copy, PartialEq, Eq, Structural)]
pub enum FinalValidationReaderMode {
    Disabled,
    SandboxOnly,
}

#[derive(Debug, Clone, Copy, PartialEq, Eq, Structural)]
pub enum FinalValidationReaderStatus {
    Blocked,
    NotExecuted,
}

#[derive(Debug, Clone)]
pub struct FinalValidationReaderRequest {
    pub mode: FinalValidationReaderMode,
    pub explicit_internal_final_validation_read_requested: bool,
    pub sandbox_verified: bool,
    pub schema_executor_safe: bool,
    pub record_executor_safe: bool,
    pub linked_executor_safe: bool,
    pub final_validation_preview_ready: bool,
    pub final_validation_enforcement_safe: bool,
    pub sensitive_data_safe: bool,
    pub attachment_phase_disabled_safe: bool,
    pub table_count: usize,
    pub field_count: usize,
    pub record_count: usize,
    pub id_mapping_entry_count: usize,
    pub linked_coverage_count: usize,
    pub attachment_metadata_count: usize,
    pub manifest_present: bool,
}

#[derive(Debug, Clone)]
pub struct FinalValidationReaderResult {
    pub status: FinalValidationReaderStatus,
    pub no_changes_made: bool,
    pub network_reads_attempted: bool,
}

/// Whether every prerequisite of the reader holds.
pub open spec fn final_validation_reader_prerequisites_hold(r: FinalValidationReaderRequest) -> bool {
    &&& r.explicit_internal_final_validation_read_requested
    &&& r.sandbox_verified
    &&& r.schema_executor_safe
    &&& r.record_executor_safe
    &&& r.linked_executor_safe
    &&& r.final_validation_preview_ready
    &&& r.final_validation_enforcement_safe
    &&& r.sensitive_data_safe
    &&& r.attachment_phase_disabled_safe
}

/// The status of the reader for a request.
pub open spec fn final_validation_reader_status(r: FinalValidationReaderRequest) -> FinalValidationReaderStatus {
    if r.mode == FinalValidationReaderMode::SandboxOnly && final_validation_reader_prerequisites_hold(r) {
        FinalValidationReaderStatus::NotExecuted
    } else {
        FinalValidationReaderStatus::Blocked
    }
}

/// Builds the reader plan: `NotExecuted` when the mode is sandbox-only and
/// every prerequisite holds; `Blocked` otherwise.
pub fn build_final_validation_reader_plan(
    request: &FinalValidationReaderRequest,
) -> (result: FinalValidationReaderResult)
    ensures
        result.status == final_validation_reader_status(*request),
        result.no_changes_made,
        !result.network_reads_attempted,
{
    let sandbox_mode = match request.mode {
        FinalValidationReaderMode::SandboxOnly => true,
        FinalValidationReaderMode::Disabled => false,
    };
    let ready = sandbox_mode && request.explicit_internal_final_validation_read_requested
        && request.sandbox_verified && request.schema_executor_safe
        && request.record_executor_safe && request.linked_executor_safe
        && request.final_validation_preview_ready && request.final_validation_enforcement_safe
        && request.sensitive_data_safe && request.attachment_phase_disabled_safe;
    FinalValidationReaderResult {
        status: if ready { FinalValidationReaderStatus::NotExecuted } else { FinalValidationReaderStatus::Blocked },
        no_changes_made: true,
        network_reads_attempted: false,
    }
}

} // verus!
