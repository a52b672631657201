//! Planned record write requests (record create batches, linked-record update
//! batches, checkpoints), as produced by the record write planner. Nothing here
//! performs a write.

use vstd::prelude::*;

verus! {

#[derive(Debug, Clone, Copy, PartialEq, Eq, Structural)]
pub enum RecordWriteOperationStatus {
    /// The plan is built and can be handed to an executor.
    Ready,
    /// Writes are disabled; the plan is descriptive only.
    Disabled,
    /// The plan cannot be used.
    Blocked,
}

#[derive(Debug, Clone, Copy, PartialEq, Eq, Structural)]
pub enum RecordWriteBlockedReason {
    RecordImportPlanNotReady,
    WriteGateDisabled,
}

#[derive(Debug, Clone, Copy, PartialEq, Eq, Structural)]
pub enum RecordWriteOperationKind {
    /// First-pass creation of a batch of records.
    CreateRecordBatch,
    /// Second-pass update of linked record fields.
    UpdateLinkedRecordBatch,
    /// Checkpoint boundary between batches.
    Checkpoint,
    /// Attachment metadata preservation (no binary upload).
    PreserveAttachmentMetadata,
    /// A field that is skipped.
    SkippedField,
}

/// One planned record operation.
#[derive(Debug, Clone)]
pub struct RecordWriteOperation {
    pub kind: RecordWriteOperationKind,
    pub table_name: String,
    pub planned_record_count: Option<usize>,
    pub batch_index: Option<usize>,
}

/// A record write request plan.
#[derive(Debug, Clone)]
pub struct RecordWriteRequestPlan {
    pub filename: String,
    pub status: RecordWriteOperationStatus,
    pub blocked_reason: Option<RecordWriteBlockedReason>,
    pub operations: Vec<RecordWriteOperation>,
    pub create_batch_op_count: usize,
    pub linked_update_op_count: usize,
    pub checkpoint_op_count: usize,
    pub attachment_op_count: usize,
    pub skipped_field_op_count: usize,
    pub total_op_count: usize,
    pub total_first_pass_batches: usize,
    pub total_second_pass_batches: usize,
    pub warnings: Vec<String>,
    pub no_changes_made: bool,
    pub network_writes_attempted: bool,
}

} // verus!
