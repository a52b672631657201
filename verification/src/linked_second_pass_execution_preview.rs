//! Summary of the linked-record second pass of a restore.

use vstd::prelude::*;

verus! {

#[derive(Debug, Clone, Copy, PartialEq, Eq, Structural)]
pub enum LinkedSecondPassExecutionPreviewStatus {
    Ready,
    Blocked,
}

/// Per-field summary of the linked second pass: labels and counts only.
#[derive(Debug, Clone)]
pub struct LinkedSecondPassFieldSummary {
    pub table_label: String,
    pub field_label: String,
    pub record_count: usize,
    pub batch_count: usize,
    pub unresolved_link_count: usize,
}

/// A copy of a field summary.
pub fn copy_field_summary(s: &LinkedSecondPassFieldSummary) -> (r: LinkedSecondPassFieldSummary)
    ensures
        r == *s,
{
    LinkedSecondPassFieldSummary {
        table_label: s.table_label.clone(),
        field_label: s.field_label.clone(),
        record_count: s.record_count,
        batch_count: s.batch_count,
        unresolved_link_count: s.unresolved_link_count,
    }
}

/// A copy of a list of field summaries.
pub fn copy_field_summaries(v: &Vec<LinkedSecondPassFieldSummary>) -> (r: Vec<LinkedSecondPassFieldSummary>)
    ensures
        r@ == v@,
{
    let mut r: Vec<LinkedSecondPassFieldSummary> = Vec::new();
    let mut i: usize = 0;
    while i < v.len()
        invariant
            i <= v.len(),
            r@ == v@.take(i as int),
        decreases v.len() - i,
    {
        r.push(copy_field_summary(&v[i]));
        assert(r@ =~= v@.take(i as int + 1));
        i = i + 1;
    }
    assert(v@.take(v.len() as int) =~= v@);
    r
}

} // verus!
