//! Schema plan inputs (tables and their fields, as read from a backup) and the
//! linked-record dependency graph built from them.

use vstd::prelude::*;

verus! {

/// One field of a backed-up table.
#[derive(Debug, Clone)]
pub struct SchemaPlanFieldInput {
    pub field_id: String,
    pub field_name: String,
    pub field_type: String,
    /// The table a linked-record field points to.
    pub linked_table_id: Option<String>,
}

/// One backed-up table with its fields.
#[derive(Debug, Clone)]
pub struct SchemaPlanTableInput {
    pub table_id: String,
    pub table_name: String,
    pub fields: Vec<SchemaPlanFieldInput>,
}

/// A linked-record field whose links must be restored after the records of
/// both tables exist.
#[derive(Debug, Clone)]
pub struct RestoreLinkedDependencyStep {
    pub field_id: String,
    pub field_name: String,
    pub source_table_id: String,
    pub source_table_name: String,
    pub target_table_id: String,
    pub target_table_name: String,
    pub remapping_required: bool,
    pub note: String,
}

impl RestoreLinkedDependencyStep {
    /// Whether the step stands for a linked-record field: every step of a
    /// dependency graph does.
    pub fn field_type_is_linked(&self) -> (b: bool)
        ensures
            b,
    {
        true
    }
}

/// The linked-record dependencies between the tables of a backup.
#[derive(Debug, Clone)]
pub struct RestoreSchemaDependencyGraph {
    pub edges: Vec<RestoreLinkedDependencyStep>,
    pub has_circular_dependency: bool,
    pub resolution_note: String,
}

} // verus!
