//! Restore target selection.

use vstd::prelude::*;

verus! {

/// Where a restore is written to.
#[derive(Debug, Clone, Copy, PartialEq, Eq, Structural)]
pub enum RestoreTargetMode {
    /// A newly created base.
    NewBase,
    /// An existing base that is expected to be empty.
    EmptyExistingBase,
}

} // verus!
