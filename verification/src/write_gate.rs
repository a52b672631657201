//! The restore write gate. By product policy this gate is disabled: no restore
//! write can be executed while it reports `Disabled`.

use vstd::prelude::*;

verus! {

/// Status reported by the restore write engine gate.
#[derive(Debug, Clone, Copy, PartialEq, Eq, Structural)]
pub enum RestoreWriteEngineStatus {
    /// Writes are disabled by product policy (the only status the write gate reports).
    Disabled,
    /// Writes are blocked by a failed prerequisite.
    Blocked,
    /// The write engine has not started.
    NotStarted,
}

/// The answer of the restore write gate.
#[derive(Debug, Clone)]
pub struct RestoreWriteGateResult {
    pub status: RestoreWriteEngineStatus,
    pub message: String,
}

pub const WRITE_GATE_DISABLED_MESSAGE: &'static str =
    "Restore writes are disabled by product policy. No restore write can be executed.";

/// Evaluates the restore write gate. It is disabled by product policy,
/// so the answer is always `Disabled`.
pub fn evaluate_write_gate() -> (gate: RestoreWriteGateResult)
    ensures
        gate.status == RestoreWriteEngineStatus::Disabled,
        gate.message@ == WRITE_GATE_DISABLED_MESSAGE@,
{
    RestoreWriteGateResult {
        status: RestoreWriteEngineStatus::Disabled,
        message: String::from_str(WRITE_GATE_DISABLED_MESSAGE),
    }
}

/// Whether the write gate answer is `Disabled`.
pub fn write_gate_is_disabled(gate: &RestoreWriteGateResult) -> (b: bool)
    ensures
        b == (gate.status == RestoreWriteEngineStatus::Disabled),
{
    match gate.status {
        RestoreWriteEngineStatus::Disabled => true,
        RestoreWriteEngineStatus::Blocked => false,
        RestoreWriteEngineStatus::NotStarted => false,
    }
}

} // verus!
