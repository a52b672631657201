//! Sandbox restore harness: a dry plan of the sandbox end-to-end restore. It
//! probes the sandbox gate contract and the restore orchestrator and, when both are in
//! their best non-executing state, lays out the eight harness phases. The best
//! outcome is `ReadyNotExecuted`; the sandbox gate is never armed.

use vstd::prelude::*;
use vstd::string::*;
use crate::restore_orchestrator::{
    build_restore_orchestrator_plan, has_phase_id, orchestrator_blocked_reason,
    RestoreOrchestratorMode, RestoreOrchestratorRequest,
    RestoreOrchestratorResult, RestoreOrchestratorStatus, ORCH_PH_FINAL_VALIDATION,
    ORCH_PH_LINKED_CHECKPOINT, ORCH_PH_LINKED_EXECUTOR, ORCH_PH_RECORD_CHECKPOINT,
    ORCH_PH_RECORD_EXECUTOR, ORCH_PH_SCHEMA_CHECKPOINT, ORCH_PH_SCHEMA_EXECUTOR,
};
use crate::sandbox_gate_contract::{
    evaluate_sandbox_gate_contract, gate_contract_blocked_reason,
    gate_contract_prerequisites_hold, SandboxGateContractMode, SandboxGateContractRequest,
    SandboxGateContractResult, SandboxGateContractStatus,
};
use crate::text::concat3;
use crate::write_gate::{evaluate_write_gate, write_gate_is_disabled};

verus! {

#[derive(Debug, Clone, Copy, PartialEq, Eq, Structural)]
pub enum SandboxRestoreHarnessStatus {
    /// A required prerequisite is missing or unsafe.
    Blocked,
    /// All prerequisites hold; the plan is built, nothing is executed.
    ReadyNotExecuted,
    /// Disabled mode: no evaluation is performed. Default state.
    NotExecuted,
}

#[derive(Debug, Clone, Copy, PartialEq, Eq, Structural)]
pub enum SandboxRestoreHarnessMode {
    Disabled,
    SandboxOnlyDryHarness,
}

#[derive(Debug, Clone, Copy, PartialEq, Eq, Structural)]
pub enum SandboxRestoreHarnessPhaseStatus {
    Blocked,
    Pending,
    Skipped,
    NotExecuted,
}

#[derive(Debug, Clone)]
pub struct SandboxRestoreHarnessPhase {
    pub phase_id: String,
    pub label: String,
    pub status: SandboxRestoreHarnessPhaseStatus,
    pub note: String,
}

#[derive(Debug, Clone)]
pub struct SandboxRestoreHarnessSafetySnapshot {
    pub write_gate_disabled: bool,
    pub gate_armed: bool,
    pub gate_contract_evaluated: bool,
    pub gate_contract_eligible: bool,
    pub orchestrator_not_executed: bool,
    pub schema_phase_represented: bool,
    pub record_phase_represented: bool,
    pub linked_phase_represented: bool,
    pub final_validation_phase_represented: bool,
    pub checkpoint_phase_represented: bool,
}

#[derive(Debug, Clone)]
pub struct SandboxRestoreHarnessRequest {
    pub mode: SandboxRestoreHarnessMode,
    pub sandbox_verification_safe: bool,
    pub target_empty_safe: bool,
    pub confirmation_gate_declared: bool,
    pub destructive_operation_policy_safe: bool,
    pub attachment_phase_disabled_safe: bool,
    pub live_write_readiness_safe: bool,
    pub write_phase_ordering_safe: bool,
    pub failure_modes_safe: bool,
    pub rollback_limitation_safe: bool,
}

#[derive(Debug, Clone)]
pub struct SandboxRestoreHarnessResult {
    pub status: SandboxRestoreHarnessStatus,
    pub mode: SandboxRestoreHarnessMode,
    pub message: String,
    pub phases: Vec<SandboxRestoreHarnessPhase>,
    pub safety_snapshot: SandboxRestoreHarnessSafetySnapshot,
    pub total_phase_count: usize,
    pub pending_phase_count: usize,
    pub blocked_reason: Option<String>,
    pub gate_armed: bool,
    pub no_changes_made: bool,
    pub network_reads_attempted: bool,
    pub network_writes_attempted: bool,
    pub writes_enabled: bool,
    pub reads_enabled: bool,
}

pub const SRH_PHASE_GATE_CONTRACT: &'static str = "SRH-PH-01";
pub const SRH_PHASE_ORCHESTRATOR: &'static str = "SRH-PH-02";
pub const SRH_PHASE_SCHEMA_EXECUTOR: &'static str = "SRH-PH-03";
pub const SRH_PHASE_RECORD_EXECUTOR: &'static str = "SRH-PH-04";
pub const SRH_PHASE_LINKED_EXECUTOR: &'static str = "SRH-PH-05";
pub const SRH_PHASE_FINAL_VALIDATION: &'static str = "SRH-PH-06";
pub const SRH_PHASE_CHECKPOINT_BOUNDARIES: &'static str = "SRH-PH-07";
pub const SRH_PHASE_FINAL_GUARD: &'static str = "SRH-PH-08";

pub const SRH_LABEL_GATE_CONTRACT: &'static str = "Sandbox gate contract evaluation";
pub const SRH_LABEL_ORCHESTRATOR: &'static str = "Restore orchestrator evaluation";
pub const SRH_NOTE_DISABLED: &'static str =
    "Harness is in disabled mode \u{2014} no evaluation performed.";
pub const SRH_DISABLED_MESSAGE: &'static str =
    "Sandbox restore harness is in disabled mode. No evaluation is performed. No writes, reads, or network calls are attempted.";
pub const SRH_GATE_NOT_ELIGIBLE: &'static str = "Gate contract not eligible.";
pub const SRH_GATE_BLOCKED_PREFIX: &'static str =
    "Sandbox restore harness is blocked. Gate contract did not reach eligibleButNotArmed. ";
pub const SRH_BLOCKED_SUFFIX: &'static str =
    " No writes, reads, or network calls are attempted.";
pub const SRH_GATE_REASON_PREFIX: &'static str = "Gate contract: ";
pub const SRH_ORCH_NOT_SATISFIED: &'static str = "Orchestrator prerequisite not satisfied.";
pub const SRH_ORCH_BLOCKED_PREFIX: &'static str =
    "Sandbox restore harness is blocked. Restore orchestrator did not reach notExecuted. ";
pub const SRH_ORCH_REASON_PREFIX: &'static str = "Orchestrator: ";
pub const SRH_NOTE_GATE_REACHED: &'static str = "Gate contract reached eligibleButNotArmed.";

pub const SRH_REP_SCHEMA_LABEL: &'static str = "Schema executor phase verification";
pub const SRH_REP_SCHEMA_NOTE: &'static str =
    "Schema executor phase (ORCH-PH-01) is not represented in the orchestrator plan.";
pub const SRH_REP_SCHEMA_MESSAGE: &'static str =
    "Sandbox restore harness is blocked. Schema executor phase is not represented in the orchestrator plan. No writes, reads, or network calls are attempted.";
pub const SRH_REP_SCHEMA_REASON: &'static str = "SRH-PH-03: Schema executor phase not represented.";
pub const SRH_REP_RECORD_LABEL: &'static str = "Record executor phase verification";
pub const SRH_REP_RECORD_NOTE: &'static str =
    "Record executor phase (ORCH-PH-03) is not represented in the orchestrator plan.";
pub const SRH_REP_RECORD_MESSAGE: &'static str =
    "Sandbox restore harness is blocked. Record executor phase is not represented in the orchestrator plan. No writes, reads, or network calls are attempted.";
pub const SRH_REP_RECORD_REASON: &'static str = "SRH-PH-04: Record executor phase not represented.";
pub const SRH_REP_LINKED_LABEL: &'static str = "Linked second-pass executor phase verification";
pub const SRH_REP_LINKED_NOTE: &'static str =
    "Linked second-pass executor phase (ORCH-PH-05) is not represented in the orchestrator plan.";
pub const SRH_REP_LINKED_MESSAGE: &'static str =
    "Sandbox restore harness is blocked. Linked second-pass executor phase is not represented in the orchestrator plan. No writes, reads, or network calls are attempted.";
pub const SRH_REP_LINKED_REASON: &'static str =
    "SRH-PH-05: Linked second-pass executor phase not represented.";
pub const SRH_REP_FINAL_LABEL: &'static str = "Final validation reader phase verification";
pub const SRH_REP_FINAL_NOTE: &'static str =
    "Final validation reader phase (ORCH-PH-07) is not represented in the orchestrator plan.";
pub const SRH_REP_FINAL_MESSAGE: &'static str =
    "Sandbox restore harness is blocked. Final validation reader phase is not represented in the orchestrator plan. No writes, reads, or network calls are attempted.";
pub const SRH_REP_FINAL_REASON: &'static str =
    "SRH-PH-06: Final validation reader phase not represented.";
pub const SRH_REP_CHECKPOINT_LABEL: &'static str = "Checkpoint boundary phase verification";
pub const SRH_REP_CHECKPOINT_NOTE: &'static str =
    "No checkpoint boundary phase (ORCH-PH-02/04/06) is represented in the orchestrator plan.";
pub const SRH_REP_CHECKPOINT_MESSAGE: &'static str =
    "Sandbox restore harness is blocked. No checkpoint boundary phase is represented in the orchestrator plan. No writes, reads, or network calls are attempted.";
pub const SRH_REP_CHECKPOINT_REASON: &'static str =
    "SRH-PH-07: No checkpoint boundary phase represented.";

pub const SRH_READY_PREFIX: &'static str = "Sandbox restore harness plan built with ";
pub const SRH_READY_SUFFIX: &'static str =
    " phases. Gate contract is eligibleButNotArmed. Orchestrator is notExecuted. All executor and checkpoint phases are represented. The \
    gate is NOT armed and NOT enabled. No writes, reads, or network calls are attempted. Live sandbox E2E restore execution remains pending.";

pub const SRH_NOTE_01: &'static str =
    "Gate contract reached eligibleButNotArmed \u{2014} gate NOT armed.";
pub const SRH_NOTE_02: &'static str =
    "Orchestrator reached notExecuted \u{2014} write gate enforced.";
pub const SRH_LABEL_03: &'static str = "Schema executor phase (ORCH-PH-01) represented";
pub const SRH_NOTE_03: &'static str =
    "Schema executor foundation is represented in the orchestrator plan. Not executed \u{2014} gate not armed.";
pub const SRH_LABEL_04: &'static str = "Record executor phase (ORCH-PH-03) represented";
pub const SRH_NOTE_04: &'static str =
    "Record executor foundation is represented in the orchestrator plan. Not executed \u{2014} gate not armed.";
pub const SRH_LABEL_05: &'static str = "Linked second-pass executor phase (ORCH-PH-05) represented";
pub const SRH_NOTE_05: &'static str =
    "Linked second-pass executor foundation is represented. Not executed \u{2014} gate not armed.";
pub const SRH_LABEL_06: &'static str = "Final validation reader phase (ORCH-PH-07) represented";
pub const SRH_NOTE_06: &'static str =
    "Final validation reader foundation is represented in the orchestrator plan. Not executed \u{2014} gate not armed.";
pub const SRH_LABEL_07: &'static str = "Checkpoint boundary phases represented";
pub const SRH_NOTE_07: &'static str =
    "Checkpoint boundary phases (ORCH-PH-02/04/06) are represented. No checkpoint files are written \u{2014} gate not armed.";
pub const SRH_LABEL_08: &'static str = "Final harness guard";
pub const SRH_NOTE_08: &'static str =
    "Final harness guard passed \u{2014} harness plan is complete. Gate NOT armed. Execution NOT enabled. Live sandbox E2E restore execution remains pending.";

// ── Specification ────────────────────────────────────────────────────────────

/// The sandbox gate contract request the harness evaluates: the caller's declarations,
/// with every executor foundation declared present.
pub open spec fn harness_gate_contract_request(r: SandboxRestoreHarnessRequest) -> SandboxGateContractRequest {
    SandboxGateContractRequest {
        mode: SandboxGateContractMode::SandboxOnlyCandidate,
        sandbox_verification_safe: r.sandbox_verification_safe,
        target_empty_safe: r.target_empty_safe,
        confirmation_gate_declared: r.confirmation_gate_declared,
        destructive_operation_policy_safe: r.destructive_operation_policy_safe,
        attachment_phase_disabled_safe: r.attachment_phase_disabled_safe,
        live_write_readiness_safe: r.live_write_readiness_safe,
        restore_orchestrator_present: true,
        schema_executor_present: true,
        record_executor_present: true,
        linked_executor_present: true,
        final_validation_reader_present: true,
    }
}

/// The orchestrator request the harness evaluates.
pub open spec fn harness_orchestrator_request(r: SandboxRestoreHarnessRequest) -> RestoreOrchestratorRequest {
    RestoreOrchestratorRequest {
        mode: RestoreOrchestratorMode::SandboxOnly,
        sandbox_verified: r.sandbox_verification_safe,
        target_empty_verified: r.target_empty_safe,
        write_phase_ordering_safe: r.write_phase_ordering_safe,
        failure_modes_safe: r.failure_modes_safe,
        rollback_limitation_safe: r.rollback_limitation_safe,
        live_write_readiness_safe: r.live_write_readiness_safe,
        schema_executor_safe: true,
        record_executor_safe: true,
        linked_executor_safe: true,
        final_validation_reader_safe: true,
    }
}

/// Whether every caller-declared prerequisite of the harness holds.
pub open spec fn harness_prerequisites_hold(r: SandboxRestoreHarnessRequest) -> bool {
    &&& r.sandbox_verification_safe
    &&& r.target_empty_safe
    &&& r.confirmation_gate_declared
    &&& r.destructive_operation_policy_safe
    &&& r.attachment_phase_disabled_safe
    &&& r.live_write_readiness_safe
    &&& r.write_phase_ordering_safe
    &&& r.failure_modes_safe
    &&& r.rollback_limitation_safe
}

/// The status the harness reports for a request.
pub open spec fn harness_status(r: SandboxRestoreHarnessRequest) -> SandboxRestoreHarnessStatus {
    if r.mode == SandboxRestoreHarnessMode::Disabled {
        SandboxRestoreHarnessStatus::NotExecuted
    } else if harness_prerequisites_hold(r) {
        SandboxRestoreHarnessStatus::ReadyNotExecuted
    } else {
        SandboxRestoreHarnessStatus::Blocked
    }
}

/// Whether the sandbox gate contract probe is what blocks the harness.
pub open spec fn harness_blocked_by_gate_contract(r: SandboxRestoreHarnessRequest) -> bool {
    !gate_contract_prerequisites_hold(harness_gate_contract_request(r))
}

pub open spec fn harness_phase_is(
    p: SandboxRestoreHarnessPhase,
    id: &str,
    label: &str,
    status: SandboxRestoreHarnessPhaseStatus,
    note: Seq<char>,
) -> bool {
    &&& p.phase_id@ == id@
    &&& p.label@ == label@
    &&& p.status == status
    &&& p.note@ == note
}

/// The eight phases of a ready harness plan.
pub open spec fn harness_ready_phases(ps: Seq<SandboxRestoreHarnessPhase>) -> bool {
    &&& ps.len() == 8
    &&& harness_phase_is(ps[0], SRH_PHASE_GATE_CONTRACT, SRH_LABEL_GATE_CONTRACT, SandboxRestoreHarnessPhaseStatus::NotExecuted, SRH_NOTE_01@)
    &&& harness_phase_is(ps[1], SRH_PHASE_ORCHESTRATOR, SRH_LABEL_ORCHESTRATOR, SandboxRestoreHarnessPhaseStatus::NotExecuted, SRH_NOTE_02@)
    &&& harness_phase_is(ps[2], SRH_PHASE_SCHEMA_EXECUTOR, SRH_LABEL_03, SandboxRestoreHarnessPhaseStatus::Pending, SRH_NOTE_03@)
    &&& harness_phase_is(ps[3], SRH_PHASE_RECORD_EXECUTOR, SRH_LABEL_04, SandboxRestoreHarnessPhaseStatus::Pending, SRH_NOTE_04@)
    &&& harness_phase_is(ps[4], SRH_PHASE_LINKED_EXECUTOR, SRH_LABEL_05, SandboxRestoreHarnessPhaseStatus::Pending, SRH_NOTE_05@)
    &&& harness_phase_is(ps[5], SRH_PHASE_FINAL_VALIDATION, SRH_LABEL_06, SandboxRestoreHarnessPhaseStatus::Pending, SRH_NOTE_06@)
    &&& harness_phase_is(ps[6], SRH_PHASE_CHECKPOINT_BOUNDARIES, SRH_LABEL_07, SandboxRestoreHarnessPhaseStatus::Skipped, SRH_NOTE_07@)
    &&& harness_phase_is(ps[7], SRH_PHASE_FINAL_GUARD, SRH_LABEL_08, SandboxRestoreHarnessPhaseStatus::Pending, SRH_NOTE_08@)
}

/// The snapshot flags, given in field order after `write_gate_disabled` (true)
/// and `gate_armed` (false).
pub open spec fn harness_snapshot_is(
    s: SandboxRestoreHarnessSafetySnapshot,
    evaluated: bool,
    eligible: bool,
    orchestrator_not_executed: bool,
    represented: bool,
) -> bool {
    &&& s.write_gate_disabled
    &&& !s.gate_armed
    &&& s.gate_contract_evaluated == evaluated
    &&& s.gate_contract_eligible == eligible
    &&& s.orchestrator_not_executed == orchestrator_not_executed
    &&& s.schema_phase_represented == represented
    &&& s.record_phase_represented == represented
    &&& s.linked_phase_represented == represented
    &&& s.final_validation_phase_represented == represented
    &&& s.checkpoint_phase_represented == represented
}

/// Number of phases with status `Pending`.
pub open spec fn pending_count(ps: Seq<SandboxRestoreHarnessPhase>) -> nat
    decreases ps.len(),
{
    if ps.len() == 0 {
        0
    } else {
        pending_count(ps.drop_last())
            + if ps.last().status == SandboxRestoreHarnessPhaseStatus::Pending { 1nat } else { 0nat }
    }
}

// ── Helpers ──────────────────────────────────────────────────────────────────

fn make_phase(
    id: &str,
    label: &str,
    status: SandboxRestoreHarnessPhaseStatus,
    note: &str,
) -> (p: SandboxRestoreHarnessPhase)
    ensures
        harness_phase_is(p, id, label, status, note@),
{
    SandboxRestoreHarnessPhase {
        phase_id: String::from_str(id),
        label: String::from_str(label),
        status,
        note: String::from_str(note),
    }
}

/// A phase with `Blocked` status.
fn make_blocked_phase(phase_id: &str, label: &str, note: &str) -> (p: SandboxRestoreHarnessPhase)
    ensures
        harness_phase_is(p, phase_id, label, SandboxRestoreHarnessPhaseStatus::Blocked, note@),
{
    make_phase(phase_id, label, SandboxRestoreHarnessPhaseStatus::Blocked, note)
}

fn snapshot(
    write_gate_disabled: bool,
    evaluated: bool,
    eligible: bool,
    orchestrator_not_executed: bool,
    represented: bool,
) -> (s: SandboxRestoreHarnessSafetySnapshot)
    requires
        write_gate_disabled,
    ensures
        harness_snapshot_is(s, evaluated, eligible, orchestrator_not_executed, represented),
{
    SandboxRestoreHarnessSafetySnapshot {
        write_gate_disabled,
        gate_armed: false,
        gate_contract_evaluated: evaluated,
        gate_contract_eligible: eligible,
        orchestrator_not_executed,
        schema_phase_represented: represented,
        record_phase_represented: represented,
        linked_phase_represented: represented,
        final_validation_phase_represented: represented,
        checkpoint_phase_represented: represented,
    }
}

fn blocked_result(
    phases: Vec<SandboxRestoreHarnessPhase>,
    snapshot: SandboxRestoreHarnessSafetySnapshot,
    message: String,
    reason: String,
) -> (r: SandboxRestoreHarnessResult)
    ensures
        r.status == SandboxRestoreHarnessStatus::Blocked,
        r.mode == SandboxRestoreHarnessMode::SandboxOnlyDryHarness,
        r.phases@ == phases@,
        r.total_phase_count == phases@.len(),
        r.pending_phase_count == 0,
        r.safety_snapshot == snapshot,
        r.message@ == message@,
        r.blocked_reason matches Some(b) && b@ == reason@,
        !r.gate_armed,
        r.no_changes_made,
        !r.network_reads_attempted,
        !r.network_writes_attempted,
        !r.writes_enabled,
        !r.reads_enabled,
{
    let total = phases.len();
    SandboxRestoreHarnessResult {
        status: SandboxRestoreHarnessStatus::Blocked,
        mode: SandboxRestoreHarnessMode::SandboxOnlyDryHarness,
        message,
        phases,
        safety_snapshot: snapshot,
        total_phase_count: total,
        pending_phase_count: 0,
        blocked_reason: Some(reason),
        gate_armed: false,
        no_changes_made: true,
        network_reads_attempted: false,
        network_writes_attempted: false,
        writes_enabled: false,
        reads_enabled: false,
    }
}

/// The sandbox gate contract request the harness evaluates.
fn build_gate_contract_request(request: &SandboxRestoreHarnessRequest) -> (g: SandboxGateContractRequest)
    ensures
        g == harness_gate_contract_request(*request),
{
    SandboxGateContractRequest {
        mode: SandboxGateContractMode::SandboxOnlyCandidate,
        sandbox_verification_safe: request.sandbox_verification_safe,
        target_empty_safe: request.target_empty_safe,
        confirmation_gate_declared: request.confirmation_gate_declared,
        destructive_operation_policy_safe: request.destructive_operation_policy_safe,
        attachment_phase_disabled_safe: request.attachment_phase_disabled_safe,
        live_write_readiness_safe: request.live_write_readiness_safe,
        restore_orchestrator_present: true,
        schema_executor_present: true,
        record_executor_present: true,
        linked_executor_present: true,
        final_validation_reader_present: true,
    }
}

/// The orchestrator request the harness evaluates.
fn build_orchestrator_request(request: &SandboxRestoreHarnessRequest) -> (o: RestoreOrchestratorRequest)
    ensures
        o == harness_orchestrator_request(*request),
{
    RestoreOrchestratorRequest {
        mode: RestoreOrchestratorMode::SandboxOnly,
        sandbox_verified: request.sandbox_verification_safe,
        target_empty_verified: request.target_empty_safe,
        write_phase_ordering_safe: request.write_phase_ordering_safe,
        failure_modes_safe: request.failure_modes_safe,
        rollback_limitation_safe: request.rollback_limitation_safe,
        live_write_readiness_safe: request.live_write_readiness_safe,
        schema_executor_safe: true,
        record_executor_safe: true,
        linked_executor_safe: true,
        final_validation_reader_safe: true,
    }
}

/// The reason of a blocked probe, or the fallback text when it gave none.
fn reason_or(reason: &Option<String>, fallback: &str) -> (s: String)
    ensures
        s@ == match *reason { Some(b) => b@, None => fallback@ },
{
    match reason {
        Some(b) => b.clone(),
        None => String::from_str(fallback),
    }
}

/// The single phase reported when the sandbox gate contract blocks the harness.
fn build_gate_contract_blocked_phases(gate_result: &SandboxGateContractResult) -> (ps: Vec<SandboxRestoreHarnessPhase>)
    ensures
        ps@.len() == 1,
        harness_phase_is(ps@[0], SRH_PHASE_GATE_CONTRACT, SRH_LABEL_GATE_CONTRACT,
            SandboxRestoreHarnessPhaseStatus::Blocked,
            match gate_result.blocked_reason { Some(b) => b@, None => SRH_GATE_NOT_ELIGIBLE@ }),
{
    let note = reason_or(&gate_result.blocked_reason, SRH_GATE_NOT_ELIGIBLE);
    let mut ps: Vec<SandboxRestoreHarnessPhase> = Vec::new();
    ps.push(SandboxRestoreHarnessPhase {
        phase_id: String::from_str(SRH_PHASE_GATE_CONTRACT),
        label: String::from_str(SRH_LABEL_GATE_CONTRACT),
        status: SandboxRestoreHarnessPhaseStatus::Blocked,
        note,
    });
    ps
}

/// The two phases reported when the orchestrator blocks the harness.
fn build_orchestrator_blocked_phases(orch_result: &RestoreOrchestratorResult) -> (ps: Vec<SandboxRestoreHarnessPhase>)
    ensures
        ps@.len() == 2,
        harness_phase_is(ps@[0], SRH_PHASE_GATE_CONTRACT, SRH_LABEL_GATE_CONTRACT,
            SandboxRestoreHarnessPhaseStatus::NotExecuted, SRH_NOTE_GATE_REACHED@),
        harness_phase_is(ps@[1], SRH_PHASE_ORCHESTRATOR, SRH_LABEL_ORCHESTRATOR,
            SandboxRestoreHarnessPhaseStatus::Blocked,
            match orch_result.blocked_reason { Some(b) => b@, None => SRH_ORCH_NOT_SATISFIED@ }),
{
    let note = reason_or(&orch_result.blocked_reason, SRH_ORCH_NOT_SATISFIED);
    let mut ps: Vec<SandboxRestoreHarnessPhase> = Vec::new();
    ps.push(make_phase(SRH_PHASE_GATE_CONTRACT, SRH_LABEL_GATE_CONTRACT,
        SandboxRestoreHarnessPhaseStatus::NotExecuted, SRH_NOTE_GATE_REACHED));
    ps.push(SandboxRestoreHarnessPhase {
        phase_id: String::from_str(SRH_PHASE_ORCHESTRATOR),
        label: String::from_str(SRH_LABEL_ORCHESTRATOR),
        status: SandboxRestoreHarnessPhaseStatus::Blocked,
        note,
    });
    ps
}

/// The eight phases of a ready harness plan.
fn build_harness_phases() -> (ps: Vec<SandboxRestoreHarnessPhase>)
    ensures
        harness_ready_phases(ps@),
{
    let mut ps: Vec<SandboxRestoreHarnessPhase> = Vec::new();
    ps.push(make_phase(SRH_PHASE_GATE_CONTRACT, SRH_LABEL_GATE_CONTRACT, SandboxRestoreHarnessPhaseStatus::NotExecuted, SRH_NOTE_01));
    ps.push(make_phase(SRH_PHASE_ORCHESTRATOR, SRH_LABEL_ORCHESTRATOR, SandboxRestoreHarnessPhaseStatus::NotExecuted, SRH_NOTE_02));
    ps.push(make_phase(SRH_PHASE_SCHEMA_EXECUTOR, SRH_LABEL_03, SandboxRestoreHarnessPhaseStatus::Pending, SRH_NOTE_03));
    ps.push(make_phase(SRH_PHASE_RECORD_EXECUTOR, SRH_LABEL_04, SandboxRestoreHarnessPhaseStatus::Pending, SRH_NOTE_04));
    ps.push(make_phase(SRH_PHASE_LINKED_EXECUTOR, SRH_LABEL_05, SandboxRestoreHarnessPhaseStatus::Pending, SRH_NOTE_05));
    ps.push(make_phase(SRH_PHASE_FINAL_VALIDATION, SRH_LABEL_06, SandboxRestoreHarnessPhaseStatus::Pending, SRH_NOTE_06));
    ps.push(make_phase(SRH_PHASE_CHECKPOINT_BOUNDARIES, SRH_LABEL_07, SandboxRestoreHarnessPhaseStatus::Skipped, SRH_NOTE_07));
    ps.push(make_phase(SRH_PHASE_FINAL_GUARD, SRH_LABEL_08, SandboxRestoreHarnessPhaseStatus::Pending, SRH_NOTE_08));
    ps
}

fn count_pending(ps: &Vec<SandboxRestoreHarnessPhase>) -> (n: usize)
    ensures
        n == pending_count(ps@),
{
    let mut n: usize = 0;
    let mut i: usize = 0;
    while i < ps.len()
        invariant
            i <= ps.len(),
            n == pending_count(ps@.take(i as int)),
            n <= i,
        decreases ps.len() - i,
    {
        assert(ps@.take(i as int + 1).drop_last() =~= ps@.take(i as int));
        if let SandboxRestoreHarnessPhaseStatus::Pending = ps[i].status {
            n = n + 1;
        }
        i = i + 1;
    }
    assert(ps@.take(ps.len() as int) =~= ps@);
    n
}

proof fn lemma_pending_count_short(ps: Seq<SandboxRestoreHarnessPhase>)
    requires
        ps.len() <= 2,
        forall|i: int| 0 <= i < ps.len() ==> (#[trigger] ps[i]).status != SandboxRestoreHarnessPhaseStatus::Pending,
    ensures
        pending_count(ps) == 0,
{
    reveal_with_fuel(pending_count, 3);
    if ps.len() == 2 {
        assert(ps.drop_last().drop_last().len() == 0);
    }
}

proof fn lemma_ready_pending_count(ps: Seq<SandboxRestoreHarnessPhase>)
    requires
        harness_ready_phases(ps),
    ensures
        pending_count(ps) == 5,
{
    assert(ps.take(8) =~= ps);
    assert(ps.take(1).drop_last() =~= ps.take(0));
    assert(ps.take(2).drop_last() =~= ps.take(1));
    assert(ps.take(3).drop_last() =~= ps.take(2));
    assert(ps.take(4).drop_last() =~= ps.take(3));
    assert(ps.take(5).drop_last() =~= ps.take(4));
    assert(ps.take(6).drop_last() =~= ps.take(5));
    assert(ps.take(7).drop_last() =~= ps.take(6));
    assert(ps.take(8).drop_last() =~= ps.take(7));
    assert(pending_count(ps.take(0)) == 0);
    assert(pending_count(ps.take(1)) == 0);
    assert(pending_count(ps.take(2)) == 0);
    assert(pending_count(ps.take(3)) == 1);
    assert(pending_count(ps.take(4)) == 2);
    assert(pending_count(ps.take(5)) == 3);
    assert(pending_count(ps.take(6)) == 4);
    assert(pending_count(ps.take(7)) == 4);
    assert(pending_count(ps.take(8)) == 5);
}

fn represented_blocked(
    snapshot: SandboxRestoreHarnessSafetySnapshot,
    phase_id: &str,
    label: &str,
    note: &str,
    message: &str,
    reason: &str,
) -> (r: SandboxRestoreHarnessResult)
    ensures
        r.status == SandboxRestoreHarnessStatus::Blocked,
        !r.gate_armed,
        r.no_changes_made,
        !r.network_reads_attempted,
        !r.network_writes_attempted,
        !r.writes_enabled,
        !r.reads_enabled,
{
    let mut phases: Vec<SandboxRestoreHarnessPhase> = Vec::new();
    phases.push(make_blocked_phase(phase_id, label, note));
    blocked_result(phases, snapshot, String::from_str(message), String::from_str(reason))
}

// ── Core function ────────────────────────────────────────────────────────────

/// Builds the sandbox restore harness plan.
///
/// Disabled mode returns `NotExecuted` with the sandbox gate contract phase skipped. In
/// dry-harness mode the sandbox gate contract is probed first, then the orchestrator;
/// the first probe that does not reach its best state blocks the harness with
/// its reason. When both do, the eight-phase plan is returned as
/// `ReadyNotExecuted`. The sandbox gate is never armed and no I/O is enabled.
pub fn build_sandbox_restore_harness_plan(
    request: &SandboxRestoreHarnessRequest,
) -> (result: SandboxRestoreHarnessResult)
    ensures
        result.status == harness_status(*request),
        result.mode == request.mode,
        !result.gate_armed,
        result.no_changes_made,
        !result.network_reads_attempted,
        !result.network_writes_attempted,
        !result.writes_enabled,
        !result.reads_enabled,
        result.total_phase_count == result.phases@.len(),
        result.pending_phase_count == pending_count(result.phases@),
        result.status != SandboxRestoreHarnessStatus::ReadyNotExecuted ==> result.pending_phase_count == 0,
        result.status == SandboxRestoreHarnessStatus::NotExecuted ==> {
            &&& result.phases@.len() == 1
            &&& harness_phase_is(result.phases@[0], SRH_PHASE_GATE_CONTRACT, SRH_LABEL_GATE_CONTRACT,
                SandboxRestoreHarnessPhaseStatus::Skipped, SRH_NOTE_DISABLED@)
            &&& harness_snapshot_is(result.safety_snapshot, false, false, false, false)
            &&& result.blocked_reason is None
            &&& result.message@ == SRH_DISABLED_MESSAGE@
        },
        result.status == SandboxRestoreHarnessStatus::Blocked && harness_blocked_by_gate_contract(*request) ==> {
            let reason = gate_contract_blocked_reason(harness_gate_contract_request(*request));
            &&& result.phases@.len() == 1
            &&& harness_phase_is(result.phases@[0], SRH_PHASE_GATE_CONTRACT, SRH_LABEL_GATE_CONTRACT,
                SandboxRestoreHarnessPhaseStatus::Blocked, reason)
            &&& harness_snapshot_is(result.safety_snapshot, true, false, false, false)
            &&& result.blocked_reason matches Some(b) && b@ == SRH_GATE_REASON_PREFIX@ + reason
            &&& result.message@ == SRH_GATE_BLOCKED_PREFIX@ + reason + SRH_BLOCKED_SUFFIX@
        },
        result.status == SandboxRestoreHarnessStatus::Blocked && !harness_blocked_by_gate_contract(*request) ==> {
            let reason = orchestrator_blocked_reason(harness_orchestrator_request(*request));
            &&& result.phases@.len() == 2
            &&& harness_phase_is(result.phases@[0], SRH_PHASE_GATE_CONTRACT, SRH_LABEL_GATE_CONTRACT,
                SandboxRestoreHarnessPhaseStatus::NotExecuted, SRH_NOTE_GATE_REACHED@)
            &&& harness_phase_is(result.phases@[1], SRH_PHASE_ORCHESTRATOR, SRH_LABEL_ORCHESTRATOR,
                SandboxRestoreHarnessPhaseStatus::Blocked, reason)
            &&& harness_snapshot_is(result.safety_snapshot, true, true, false, false)
            &&& result.blocked_reason matches Some(b) && b@ == SRH_ORCH_REASON_PREFIX@ + reason
            &&& result.message@ == SRH_ORCH_BLOCKED_PREFIX@ + reason + SRH_BLOCKED_SUFFIX@
        },
        result.status == SandboxRestoreHarnessStatus::ReadyNotExecuted ==> {
            &&& harness_ready_phases(result.phases@)
            &&& result.pending_phase_count == 5
            &&& harness_snapshot_is(result.safety_snapshot, true, true, true, true)
            &&& result.blocked_reason is None
            &&& result.message@ == SRH_READY_PREFIX@ + crate::text::decimal(8) + SRH_READY_SUFFIX@
        },
{
    let gate = evaluate_write_gate();
    let write_gate_disabled = write_gate_is_disabled(&gate);

    if let SandboxRestoreHarnessMode::Disabled = request.mode {
        let mut phases: Vec<SandboxRestoreHarnessPhase> = Vec::new();
        phases.push(make_phase(SRH_PHASE_GATE_CONTRACT, SRH_LABEL_GATE_CONTRACT,
            SandboxRestoreHarnessPhaseStatus::Skipped, SRH_NOTE_DISABLED));
        let total = phases.len();
        proof {
            lemma_pending_count_short(phases@);
        }
        return SandboxRestoreHarnessResult {
            status: SandboxRestoreHarnessStatus::NotExecuted,
            mode: SandboxRestoreHarnessMode::Disabled,
            message: String::from_str(SRH_DISABLED_MESSAGE),
            phases,
            safety_snapshot: snapshot(write_gate_disabled, false, false, false, false),
            total_phase_count: total,
            pending_phase_count: 0,
            blocked_reason: None,
            gate_armed: false,
            no_changes_made: true,
            network_reads_attempted: false,
            network_writes_attempted: false,
            writes_enabled: false,
            reads_enabled: false,
        };
    }

    // Gate contract probe.
    let gate_contract_request = build_gate_contract_request(request);
    let gate_contract_result = evaluate_sandbox_gate_contract(&gate_contract_request);
    let gate_contract_eligible = match gate_contract_result.status {
        SandboxGateContractStatus::EligibleButNotArmed => true,
        _ => false,
    };
    if !gate_contract_eligible {
        let reason = reason_or(&gate_contract_result.blocked_reason, SRH_GATE_NOT_ELIGIBLE);
        let phases = build_gate_contract_blocked_phases(&gate_contract_result);
        let message = concat3(SRH_GATE_BLOCKED_PREFIX, reason.as_str(), SRH_BLOCKED_SUFFIX);
        let mut blocked_reason = String::from_str(SRH_GATE_REASON_PREFIX);
        blocked_reason.append(reason.as_str());
        proof {
            lemma_pending_count_short(phases@);
        }
        return blocked_result(phases, snapshot(write_gate_disabled, true, false, false, false),
            message, blocked_reason);
    }

    // Orchestrator probe.
    let orchestrator_request = build_orchestrator_request(request);
    let orchestrator_result = build_restore_orchestrator_plan(&orchestrator_request);
    let orchestrator_not_executed = match orchestrator_result.status {
        RestoreOrchestratorStatus::NotExecuted => true,
        RestoreOrchestratorStatus::Blocked => false,
    };
    if !orchestrator_not_executed {
        let reason = reason_or(&orchestrator_result.blocked_reason, SRH_ORCH_NOT_SATISFIED);
        let phases = build_orchestrator_blocked_phases(&orchestrator_result);
        let message = concat3(SRH_ORCH_BLOCKED_PREFIX, reason.as_str(), SRH_BLOCKED_SUFFIX);
        let mut blocked_reason = String::from_str(SRH_ORCH_REASON_PREFIX);
        blocked_reason.append(reason.as_str());
        proof {
            lemma_pending_count_short(phases@);
        }
        return blocked_result(phases, snapshot(write_gate_disabled, true, true, false, false),
            message, blocked_reason);
    }

    // Phase representation in the orchestrator plan.
    let schema_represented = has_phase_id(&orchestrator_result.phases, ORCH_PH_SCHEMA_EXECUTOR);
    let record_represented = has_phase_id(&orchestrator_result.phases, ORCH_PH_RECORD_EXECUTOR);
    let linked_represented = has_phase_id(&orchestrator_result.phases, ORCH_PH_LINKED_EXECUTOR);
    let final_val_represented = has_phase_id(&orchestrator_result.phases, ORCH_PH_FINAL_VALIDATION);
    let checkpoint_represented = has_phase_id(&orchestrator_result.phases, ORCH_PH_SCHEMA_CHECKPOINT)
        || has_phase_id(&orchestrator_result.phases, ORCH_PH_RECORD_CHECKPOINT)
        || has_phase_id(&orchestrator_result.phases, ORCH_PH_LINKED_CHECKPOINT);
    proof {
        let ps = orchestrator_result.phases@;
        assert(ps[0].phase_id@ == ORCH_PH_SCHEMA_EXECUTOR@);
        assert(ps[1].phase_id@ == ORCH_PH_SCHEMA_CHECKPOINT@);
        assert(ps[2].phase_id@ == ORCH_PH_RECORD_EXECUTOR@);
        assert(ps[4].phase_id@ == ORCH_PH_LINKED_EXECUTOR@);
        assert(ps[6].phase_id@ == ORCH_PH_FINAL_VALIDATION@);
    }

    let represented = schema_represented && record_represented && linked_represented
        && final_val_represented && checkpoint_represented;
    let snap = snapshot(write_gate_disabled, true, true, true, represented);

    if !schema_represented {
        return represented_blocked(snap, SRH_PHASE_SCHEMA_EXECUTOR, SRH_REP_SCHEMA_LABEL,
            SRH_REP_SCHEMA_NOTE, SRH_REP_SCHEMA_MESSAGE, SRH_REP_SCHEMA_REASON);
    }
    if !record_represented {
        return represented_blocked(snap, SRH_PHASE_RECORD_EXECUTOR, SRH_REP_RECORD_LABEL,
            SRH_REP_RECORD_NOTE, SRH_REP_RECORD_MESSAGE, SRH_REP_RECORD_REASON);
    }
    if !linked_represented {
        return represented_blocked(snap, SRH_PHASE_LINKED_EXECUTOR, SRH_REP_LINKED_LABEL,
            SRH_REP_LINKED_NOTE, SRH_REP_LINKED_MESSAGE, SRH_REP_LINKED_REASON);
    }
    if !final_val_represented {
        return represented_blocked(snap, SRH_PHASE_FINAL_VALIDATION, SRH_REP_FINAL_LABEL,
            SRH_REP_FINAL_NOTE, SRH_REP_FINAL_MESSAGE, SRH_REP_FINAL_REASON);
    }
    if !checkpoint_represented {
        return represented_blocked(snap, SRH_PHASE_CHECKPOINT_BOUNDARIES, SRH_REP_CHECKPOINT_LABEL,
            SRH_REP_CHECKPOINT_NOTE, SRH_REP_CHECKPOINT_MESSAGE, SRH_REP_CHECKPOINT_REASON);
    }

    let phases = build_harness_phases();
    let total = phases.len();
    let pending = count_pending(&phases);
    proof {
        lemma_ready_pending_count(phases@);
    }
    let mut message = String::from_str(SRH_READY_PREFIX);
    crate::text::push_decimal(&mut message, total);
    message.append(SRH_READY_SUFFIX);

    SandboxRestoreHarnessResult {
        status: SandboxRestoreHarnessStatus::ReadyNotExecuted,
        mode: SandboxRestoreHarnessMode::SandboxOnlyDryHarness,
        message,
        phases,
        safety_snapshot: snap,
        total_phase_count: total,
        pending_phase_count: pending,
        blocked_reason: None,
        gate_armed: false,
        no_changes_made: true,
        network_reads_attempted: false,
        network_writes_attempted: false,
        writes_enabled: false,
        reads_enabled: false,
    }
}


/// The name of a status, as its `Debug` rendering shows it.
pub open spec fn harness_status_name(s: SandboxRestoreHarnessStatus) -> Seq<char> {
    match s {
        SandboxRestoreHarnessStatus::Blocked => "Blocked"@,
        SandboxRestoreHarnessStatus::ReadyNotExecuted => "ReadyNotExecuted"@,
        SandboxRestoreHarnessStatus::NotExecuted => "NotExecuted"@,
    }
}

/// The name of a status, as its `Debug` rendering shows it.
pub fn harness_status_label(s: SandboxRestoreHarnessStatus) -> (r: &'static str)
    ensures
        r@ == harness_status_name(s),
{
    match s {
        SandboxRestoreHarnessStatus::Blocked => "Blocked",
        SandboxRestoreHarnessStatus::ReadyNotExecuted => "ReadyNotExecuted",
        SandboxRestoreHarnessStatus::NotExecuted => "NotExecuted",
    }
}

} // verus!
