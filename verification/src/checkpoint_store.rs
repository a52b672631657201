//! Restore checkpoint metadata store. It keeps only sanitized metadata (labels
//! and phase names) and refuses a checkpoint that has no phase to store or
//! whose safety declarations do not hold. Nothing is written to disk.

use vstd::prelude::*;

verus! {

#[derive(Debug, Clone, Copy, PartialEq, Eq, Structural)]
pub enum RestoreCheckpointStoreStatus {
    Blocked,
    Stored,
}

#[derive(Debug, Clone)]
pub struct RestoreCheckpointStoreRequest {
    pub checkpoint_label: Option<String>,
    pub checkpoint_durability_safe: Option<bool>,
    pub sensitive_data_safe: Option<bool>,
    pub mapping_checkpoint_preview_ready: Option<bool>,
    pub final_validation_preview_ready: Option<bool>,
    pub phases: Option<Vec<String>>,
    pub boundaries: Option<Vec<String>>,
}

#[derive(Debug, Clone)]
pub struct RestoreCheckpointStoreResult {
    pub status: RestoreCheckpointStoreStatus,
    pub stored_phase_count: usize,
    pub file_written: bool,
}

/// Whether a checkpoint request can be stored: durability and sensitive data
/// safety are declared true and there is at least one phase.
pub open spec fn checkpoint_storable(r: RestoreCheckpointStoreRequest) -> bool {
    &&& r.checkpoint_durability_safe == Some(true)
    &&& r.sensitive_data_safe == Some(true)
    &&& r.phases matches Some(ps) && ps@.len() > 0
}

/// Stores the checkpoint metadata in memory when it can be stored.
pub fn store_restore_checkpoint(request: &RestoreCheckpointStoreRequest) -> (result: RestoreCheckpointStoreResult)
    ensures
        result.status == (if checkpoint_storable(*request) {
            RestoreCheckpointStoreStatus::Stored
        } else {
            RestoreCheckpointStoreStatus::Blocked
        }),
        result.status == RestoreCheckpointStoreStatus::Stored ==> (request.phases matches Some(ps)
            && result.stored_phase_count == ps@.len()),
        result.status == RestoreCheckpointStoreStatus::Blocked ==> result.stored_phase_count == 0,
        !result.file_written,
{
    let durable = match request.checkpoint_durability_safe {
        Some(b) => b,
        None => false,
    };
    let sensitive = match request.sensitive_data_safe {
        Some(b) => b,
        None => false,
    };
    let phase_count: usize = match &request.phases {
        Some(ps) => ps.len(),
        None => 0,
    };
    if durable && sensitive && phase_count > 0 {
        RestoreCheckpointStoreResult {
            status: RestoreCheckpointStoreStatus::Stored,
            stored_phase_count: phase_count,
            file_written: false,
        }
    } else {
        RestoreCheckpointStoreResult {
            status: RestoreCheckpointStoreStatus::Blocked,
            stored_phase_count: 0,
            file_written: false,
        }
    }
}

} // verus!
