//! Restore orchestrator foundation: composes the executor phases of a restore
//! in order (schema, record, linked second pass, final validation, with a
//! checkpoint boundary after each executor and a final guard). It never
//! executes anything: the best outcome is `NotExecuted`.

use vstd::prelude::*;
use vstd::string::*;
use crate::write_gate::{evaluate_write_gate, write_gate_is_disabled};

verus! {

#[derive(Debug, Clone, Copy, PartialEq, Eq, Structural)]
pub enum RestoreOrchestratorMode {
    Disabled,
    SandboxOnly,
}

#[derive(Debug, Clone, Copy, PartialEq, Eq, Structural)]
pub enum RestoreOrchestratorStatus {
    /// A prerequisite is missing, or the mode is disabled.
    Blocked,
    /// All prerequisites hold; the phase plan is built but nothing runs.
    NotExecuted,
}

#[derive(Debug, Clone, Copy, PartialEq, Eq, Structural)]
pub enum RestoreOrchestratorPhaseStatus {
    NotExecuted,
}

#[derive(Debug, Clone)]
pub struct RestoreOrchestratorPhase {
    pub phase_id: String,
    pub label: String,
    pub status: RestoreOrchestratorPhaseStatus,
}

#[derive(Debug, Clone)]
pub struct RestoreOrchestratorRequest {
    pub mode: RestoreOrchestratorMode,
    pub sandbox_verified: bool,
    pub target_empty_verified: bool,
    pub write_phase_ordering_safe: bool,
    pub failure_modes_safe: bool,
    pub rollback_limitation_safe: bool,
    pub live_write_readiness_safe: bool,
    pub schema_executor_safe: bool,
    pub record_executor_safe: bool,
    pub linked_executor_safe: bool,
    pub final_validation_reader_safe: bool,
}

#[derive(Debug, Clone)]
pub struct RestoreOrchestratorResult {
    pub status: RestoreOrchestratorStatus,
    pub phases: Vec<RestoreOrchestratorPhase>,
    pub total_phase_count: usize,
    pub blocked_reason: Option<String>,
    pub no_changes_made: bool,
    pub writes_enabled: bool,
}

pub const ORCH_PH_SCHEMA_EXECUTOR: &'static str = "ORCH-PH-01";
pub const ORCH_PH_SCHEMA_CHECKPOINT: &'static str = "ORCH-PH-02";
pub const ORCH_PH_RECORD_EXECUTOR: &'static str = "ORCH-PH-03";
pub const ORCH_PH_RECORD_CHECKPOINT: &'static str = "ORCH-PH-04";
pub const ORCH_PH_LINKED_EXECUTOR: &'static str = "ORCH-PH-05";
pub const ORCH_PH_LINKED_CHECKPOINT: &'static str = "ORCH-PH-06";
pub const ORCH_PH_FINAL_VALIDATION: &'static str = "ORCH-PH-07";
pub const ORCH_PH_FINAL_GUARD: &'static str = "ORCH-PH-08";

pub const ORCH_LABEL_01: &'static str = "Schema write executor";
pub const ORCH_LABEL_02: &'static str = "Schema checkpoint boundary";
pub const ORCH_LABEL_03: &'static str = "Record write executor";
pub const ORCH_LABEL_04: &'static str = "Record checkpoint boundary";
pub const ORCH_LABEL_05: &'static str = "Linked second-pass executor";
pub const ORCH_LABEL_06: &'static str = "Linked checkpoint boundary";
pub const ORCH_LABEL_07: &'static str = "Final validation reader";
pub const ORCH_LABEL_08: &'static str = "Final guard";

pub const ORCH_REASON_MODE: &'static str = "ORCH-CHK-01: orchestrator mode is disabled.";
pub const ORCH_REASON_WRITE_GATE: &'static str =
    "ORCH-CHK-02: evaluate_write_gate() must return Disabled.";
pub const ORCH_REASON_SANDBOX: &'static str = "ORCH-CHK-03: sandbox verification is not declared safe.";
pub const ORCH_REASON_TARGET_EMPTY: &'static str = "ORCH-CHK-04: target empty verification is not declared safe.";
pub const ORCH_REASON_PHASE_ORDERING: &'static str = "ORCH-CHK-05: write phase ordering policy is not safe.";
pub const ORCH_REASON_FAILURE_MODES: &'static str = "ORCH-CHK-06: failure modes policy is not safe.";
pub const ORCH_REASON_ROLLBACK: &'static str = "ORCH-CHK-07: rollback limitation policy is not safe.";
pub const ORCH_REASON_LIVE_READINESS: &'static str = "ORCH-CHK-08: live write readiness is not safe.";
pub const ORCH_REASON_SCHEMA_EXECUTOR: &'static str = "ORCH-CHK-09: schema executor is not safe.";
pub const ORCH_REASON_RECORD_EXECUTOR: &'static str = "ORCH-CHK-10: record executor is not safe.";
pub const ORCH_REASON_LINKED_EXECUTOR: &'static str = "ORCH-CHK-11: linked second-pass executor is not safe.";
pub const ORCH_REASON_FINAL_VALIDATION: &'static str = "ORCH-CHK-12: final validation reader is not safe.";

/// Whether every prerequisite of the orchestrator holds.
pub open spec fn orchestrator_prerequisites_hold(r: RestoreOrchestratorRequest) -> bool {
    &&& r.sandbox_verified
    &&& r.target_empty_verified
    &&& r.write_phase_ordering_safe
    &&& r.failure_modes_safe
    &&& r.rollback_limitation_safe
    &&& r.live_write_readiness_safe
    &&& r.schema_executor_safe
    &&& r.record_executor_safe
    &&& r.linked_executor_safe
    &&& r.final_validation_reader_safe
}

/// The status the orchestrator reports for a request.
pub open spec fn orchestrator_status(r: RestoreOrchestratorRequest) -> RestoreOrchestratorStatus {
    if r.mode == RestoreOrchestratorMode::SandboxOnly && orchestrator_prerequisites_hold(r) {
        RestoreOrchestratorStatus::NotExecuted
    } else {
        RestoreOrchestratorStatus::Blocked
    }
}

/// The reason of a blocked plan: the first check, in order, that fails.
pub open spec fn orchestrator_blocked_reason(r: RestoreOrchestratorRequest) -> Seq<char> {
    if r.mode == RestoreOrchestratorMode::Disabled { ORCH_REASON_MODE@ }
    else if !r.sandbox_verified { ORCH_REASON_SANDBOX@ }
    else if !r.target_empty_verified { ORCH_REASON_TARGET_EMPTY@ }
    else if !r.write_phase_ordering_safe { ORCH_REASON_PHASE_ORDERING@ }
    else if !r.failure_modes_safe { ORCH_REASON_FAILURE_MODES@ }
    else if !r.rollback_limitation_safe { ORCH_REASON_ROLLBACK@ }
    else if !r.live_write_readiness_safe { ORCH_REASON_LIVE_READINESS@ }
    else if !r.schema_executor_safe { ORCH_REASON_SCHEMA_EXECUTOR@ }
    else if !r.record_executor_safe { ORCH_REASON_RECORD_EXECUTOR@ }
    else if !r.linked_executor_safe { ORCH_REASON_LINKED_EXECUTOR@ }
    else { ORCH_REASON_FINAL_VALIDATION@ }
}

pub open spec fn orch_phase_is(p: RestoreOrchestratorPhase, id: &str, label: &str) -> bool {
    p.phase_id@ == id@ && p.label@ == label@
        && p.status == RestoreOrchestratorPhaseStatus::NotExecuted
}

/// The eight phases of a built plan, in order.
pub open spec fn orchestrator_phases(ps: Seq<RestoreOrchestratorPhase>) -> bool {
    &&& ps.len() == 8
    &&& orch_phase_is(ps[0], ORCH_PH_SCHEMA_EXECUTOR, ORCH_LABEL_01)
    &&& orch_phase_is(ps[1], ORCH_PH_SCHEMA_CHECKPOINT, ORCH_LABEL_02)
    &&& orch_phase_is(ps[2], ORCH_PH_RECORD_EXECUTOR, ORCH_LABEL_03)
    &&& orch_phase_is(ps[3], ORCH_PH_RECORD_CHECKPOINT, ORCH_LABEL_04)
    &&& orch_phase_is(ps[4], ORCH_PH_LINKED_EXECUTOR, ORCH_LABEL_05)
    &&& orch_phase_is(ps[5], ORCH_PH_LINKED_CHECKPOINT, ORCH_LABEL_06)
    &&& orch_phase_is(ps[6], ORCH_PH_FINAL_VALIDATION, ORCH_LABEL_07)
    &&& orch_phase_is(ps[7], ORCH_PH_FINAL_GUARD, ORCH_LABEL_08)
}

fn phase(id: &str, label: &str) -> (p: RestoreOrchestratorPhase)
    ensures
        orch_phase_is(p, id, label),
{
    RestoreOrchestratorPhase {
        phase_id: String::from_str(id),
        label: String::from_str(label),
        status: RestoreOrchestratorPhaseStatus::NotExecuted,
    }
}

fn blocked(reason: &str) -> (r: RestoreOrchestratorResult)
    ensures
        r.status == RestoreOrchestratorStatus::Blocked,
        r.phases@.len() == 0,
        r.total_phase_count == 0,
        r.blocked_reason matches Some(b) && b@ == reason@,
        r.no_changes_made,
        !r.writes_enabled,
{
    RestoreOrchestratorResult {
        status: RestoreOrchestratorStatus::Blocked,
        phases: Vec::new(),
        total_phase_count: 0,
        blocked_reason: Some(String::from_str(reason)),
        no_changes_made: true,
        writes_enabled: false,
    }
}

/// Builds the restore orchestrator plan. A disabled mode or a missing
/// prerequisite blocks the plan with the reason of the first failing check;
/// otherwise the eight phases are returned, none of them executed.
pub fn build_restore_orchestrator_plan(
    request: &RestoreOrchestratorRequest,
) -> (result: RestoreOrchestratorResult)
    ensures
        result.status == orchestrator_status(*request),
        result.no_changes_made,
        !result.writes_enabled,
        result.status == RestoreOrchestratorStatus::Blocked ==> {
            &&& result.blocked_reason matches Some(b) && b@ == orchestrator_blocked_reason(*request)
            &&& result.phases@.len() == 0
            &&& result.total_phase_count == 0
        },
        result.status == RestoreOrchestratorStatus::NotExecuted ==> {
            &&& result.blocked_reason is None
            &&& orchestrator_phases(result.phases@)
            &&& result.total_phase_count == 8
        },
{
    if let RestoreOrchestratorMode::Disabled = request.mode {
        return blocked(ORCH_REASON_MODE);
    }
    let gate = evaluate_write_gate();
    if !write_gate_is_disabled(&gate) {
        return blocked(ORCH_REASON_WRITE_GATE);
    }
    if !request.sandbox_verified { return blocked(ORCH_REASON_SANDBOX); }
    if !request.target_empty_verified { return blocked(ORCH_REASON_TARGET_EMPTY); }
    if !request.write_phase_ordering_safe { return blocked(ORCH_REASON_PHASE_ORDERING); }
    if !request.failure_modes_safe { return blocked(ORCH_REASON_FAILURE_MODES); }
    if !request.rollback_limitation_safe { return blocked(ORCH_REASON_ROLLBACK); }
    if !request.live_write_readiness_safe { return blocked(ORCH_REASON_LIVE_READINESS); }
    if !request.schema_executor_safe { return blocked(ORCH_REASON_SCHEMA_EXECUTOR); }
    if !request.record_executor_safe { return blocked(ORCH_REASON_RECORD_EXECUTOR); }
    if !request.linked_executor_safe { return blocked(ORCH_REASON_LINKED_EXECUTOR); }
    if !request.final_validation_reader_safe { return blocked(ORCH_REASON_FINAL_VALIDATION); }

    let mut phases: Vec<RestoreOrchestratorPhase> = Vec::new();
    phases.push(phase(ORCH_PH_SCHEMA_EXECUTOR, ORCH_LABEL_01));
    phases.push(phase(ORCH_PH_SCHEMA_CHECKPOINT, ORCH_LABEL_02));
    phases.push(phase(ORCH_PH_RECORD_EXECUTOR, ORCH_LABEL_03));
    phases.push(phase(ORCH_PH_RECORD_CHECKPOINT, ORCH_LABEL_04));
    phases.push(phase(ORCH_PH_LINKED_EXECUTOR, ORCH_LABEL_05));
    phases.push(phase(ORCH_PH_LINKED_CHECKPOINT, ORCH_LABEL_06));
    phases.push(phase(ORCH_PH_FINAL_VALIDATION, ORCH_LABEL_07));
    phases.push(phase(ORCH_PH_FINAL_GUARD, ORCH_LABEL_08));
    let total = phases.len();
    RestoreOrchestratorResult {
        status: RestoreOrchestratorStatus::NotExecuted,
        phases,
        total_phase_count: total,
        blocked_reason: None,
        no_changes_made: true,
        writes_enabled: false,
    }
}

/// Whether some phase of the list has the given id.
pub fn has_phase_id(phases: &Vec<RestoreOrchestratorPhase>, id: &str) -> (b: bool)
    ensures
        b == exists|i: int| 0 <= i < phases@.len() && (#[trigger] phases@[i]).phase_id@ == id@,
{
    let mut i: usize = 0;
    while i < phases.len()
        invariant
            i <= phases.len(),
            forall|j: int| 0 <= j < i ==> (#[trigger] phases@[j]).phase_id@ != id@,
        decreases phases.len() - i,
    {
        if crate::text::str_equal(phases[i].phase_id.as_str(), id) {
            return true;
        }
        i = i + 1;
    }
    false
}


/// The name of a status, as its `Debug` rendering shows it.
pub open spec fn orchestrator_status_name(s: RestoreOrchestratorStatus) -> Seq<char> {
    match s {
        RestoreOrchestratorStatus::Blocked => "Blocked"@,
        RestoreOrchestratorStatus::NotExecuted => "NotExecuted"@,
    }
}

/// The name of a status, as its `Debug` rendering shows it.
pub fn orchestrator_status_label(s: RestoreOrchestratorStatus) -> (r: &'static str)
    ensures
        r@ == orchestrator_status_name(s),
{
    match s {
        RestoreOrchestratorStatus::Blocked => "Blocked",
        RestoreOrchestratorStatus::NotExecuted => "NotExecuted",
    }
}

} // verus!
