//! Planned schema write requests (tables and fields to create), as produced by
//! the schema write planner. Nothing here performs a write.

use vstd::prelude::*;

verus! {

#[derive(Debug, Clone, Copy, PartialEq, Eq, Structural)]
pub enum SchemaWriteOperationStatus {
    /// The plan is built and can be handed to an executor.
    Ready,
    /// Writes are disabled; the plan is descriptive only.
    Disabled,
    /// The plan cannot be used.
    Blocked,
}

#[derive(Debug, Clone, Copy, PartialEq, Eq, Structural)]
pub enum SchemaWriteBlockedReason {
    SchemaPlanNotReady,
    WriteGateDisabled,
}

#[derive(Debug, Clone, Copy, PartialEq, Eq, Structural)]
pub enum SchemaWriteOperationKind {
    CreateBase,
    CreateTable,
    CreateField,
    DeferLinkedField,
    ManualAction,
}

/// One planned schema operation.
#[derive(Debug, Clone)]
pub struct SchemaWriteOperation {
    pub kind: SchemaWriteOperationKind,
    pub table_name: String,
    pub field_name: Option<String>,
    pub field_type: Option<String>,
}

/// A schema write request plan.
#[derive(Debug, Clone)]
pub struct SchemaWriteRequestPlan {
    pub filename: String,
    pub status: SchemaWriteOperationStatus,
    pub blocked_reason: Option<SchemaWriteBlockedReason>,
    pub operations: Vec<SchemaWriteOperation>,
    pub table_op_count: usize,
    pub field_op_count: usize,
    pub deferred_op_count: usize,
    pub manual_action_count: usize,
    pub total_op_count: usize,
    pub warnings: Vec<String>,
    pub no_changes_made: bool,
    pub network_writes_attempted: bool,
}

} // verus!
