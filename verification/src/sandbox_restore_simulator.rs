//! Sandbox restore simulator: traverses the eight restore phases in memory
//! only. It probes the sandbox gate arming decision, the harness and the orchestrator;
//! when all of them reach their best state the run is `SimulatedNotExecuted`.
//! No client is called, no checkpoint file is written, and the runtime gate is
//! never armed.

use vstd::prelude::*;
use vstd::string::*;
use crate::restore_orchestrator::{
    build_restore_orchestrator_plan, orchestrator_status_label, RestoreOrchestratorMode,
    RestoreOrchestratorRequest, RestoreOrchestratorStatus,
};
use crate::sandbox_gate_arming::{
    arming_prerequisites_hold, arming_status, arming_status_label, arming_status_name,
    build_sandbox_gate_arming_decision, SandboxGateArmingMode, SandboxGateArmingRequest,
    SandboxGateArmingStatus,
};
use crate::sandbox_restore_harness::{
    build_sandbox_restore_harness_plan, harness_status_label, SandboxRestoreHarnessMode,
    SandboxRestoreHarnessRequest, SandboxRestoreHarnessStatus,
};
use crate::text::concat3;
use crate::write_gate::{evaluate_write_gate, write_gate_is_disabled};

verus! {

#[derive(Debug, Clone, Copy, PartialEq, Eq, Structural)]
pub enum SandboxRestoreSimulatorStatus {
    /// A required prerequisite is missing or unsafe.
    Blocked,
    /// All eight phases were traversed in memory; nothing was executed.
    SimulatedNotExecuted,
}

#[derive(Debug, Clone, Copy, PartialEq, Eq, Structural)]
pub enum SandboxRestoreSimulatorMode {
    Disabled,
    SandboxOnlyInternalSimulation,
}

#[derive(Debug, Clone, Copy, PartialEq, Eq, Structural)]
pub enum SandboxRestoreSimulatorPhaseStatus {
    Blocked,
    /// Traversed in memory only.
    Simulated,
    /// A checkpoint boundary: described, not written.
    Skipped,
    NotExecuted,
}

#[derive(Debug, Clone)]
pub struct SandboxRestoreSimulatorPhase {
    pub phase_id: String,
    pub label: String,
    pub status: SandboxRestoreSimulatorPhaseStatus,
    pub note: String,
}

#[derive(Debug, Clone)]
pub struct SandboxRestoreSimulatorSafetySnapshot {
    pub write_gate_disabled: bool,
    pub gate_armed: bool,
    pub ephemeral_armed_decision_seen: bool,
    pub harness_ready_not_executed: bool,
    pub orchestrator_not_executed: bool,
    pub all_phases_represented: bool,
    pub checkpoint_phases_represented: bool,
    pub airtable_client_called: bool,
    pub checkpoint_file_written: bool,
    pub execution_enabled: bool,
    pub writes_enabled: bool,
    pub reads_enabled: bool,
}

#[derive(Debug, Clone)]
pub struct SandboxRestoreSimulatorRequest {
    pub mode: SandboxRestoreSimulatorMode,
    pub explicit_internal_simulation_requested: bool,
    pub sandbox_verification_safe: bool,
    pub target_empty_safe: bool,
    pub confirmation_gate_declared: bool,
    pub destructive_operation_policy_safe: bool,
    pub attachment_phase_disabled_safe: bool,
    pub live_write_readiness_safe: bool,
    pub write_phase_ordering_safe: bool,
    pub failure_modes_safe: bool,
    pub rollback_limitation_safe: bool,
    pub checkpoint_durability_safe: bool,
    pub sensitive_data_safe: bool,
    pub final_validation_enforcement_safe: bool,
    pub rate_limit_backoff_safe: bool,
}

#[derive(Debug, Clone)]
pub struct SandboxRestoreSimulatorResult {
    pub status: SandboxRestoreSimulatorStatus,
    pub mode: SandboxRestoreSimulatorMode,
    pub message: String,
    pub phases: Vec<SandboxRestoreSimulatorPhase>,
    pub safety_snapshot: SandboxRestoreSimulatorSafetySnapshot,
    pub total_phase_count: usize,
    pub simulated_phase_count: usize,
    pub blocked_reason: Option<String>,
    pub gate_armed: bool,
    pub ephemeral_armed_decision_seen: bool,
    pub no_changes_made: bool,
    pub network_reads_attempted: bool,
    pub network_writes_attempted: bool,
    pub airtable_client_called: bool,
    pub checkpoint_file_written: bool,
    pub execution_enabled: bool,
    pub writes_enabled: bool,
    pub reads_enabled: bool,
}

pub const SRS_PH_01: &'static str = "SRS-PH-01";
pub const SRS_PH_02: &'static str = "SRS-PH-02";
pub const SRS_PH_03: &'static str = "SRS-PH-03";
pub const SRS_PH_04: &'static str = "SRS-PH-04";
pub const SRS_PH_05: &'static str = "SRS-PH-05";
pub const SRS_PH_06: &'static str = "SRS-PH-06";
pub const SRS_PH_07: &'static str = "SRS-PH-07";
pub const SRS_PH_08: &'static str = "SRS-PH-08";

pub const SRS_LABEL_01: &'static str = "Schema write executor";
pub const SRS_LABEL_02: &'static str = "Schema checkpoint boundary";
pub const SRS_LABEL_03: &'static str = "Record write executor";
pub const SRS_LABEL_04: &'static str = "Record checkpoint boundary";
pub const SRS_LABEL_05: &'static str = "Linked second-pass executor";
pub const SRS_LABEL_06: &'static str = "Linked checkpoint boundary";
pub const SRS_LABEL_07: &'static str = "Final validation reader";
pub const SRS_LABEL_08: &'static str = "Final guard";

pub const SRS_NOTE_01: &'static str =
    "Schema write executor traversed in memory. No Airtable schema API call was made. No table or field was created.";
pub const SRS_NOTE_02: &'static str =
    "Schema checkpoint boundary described. No checkpoint file was written to disk.";
pub const SRS_NOTE_03: &'static str =
    "Record write executor traversed in memory. No Airtable record API call was made. No record was created.";
pub const SRS_NOTE_04: &'static str =
    "Record checkpoint boundary described. No checkpoint file was written to disk.";
pub const SRS_NOTE_05: &'static str =
    "Linked second-pass executor traversed in memory. No Airtable linked record API call was made. No record was updated.";
pub const SRS_NOTE_06: &'static str =
    "Linked checkpoint boundary described. No checkpoint file was written to disk.";
pub const SRS_NOTE_07: &'static str =
    "Final validation reader traversed in memory. No Airtable read API call was made. No record count or schema was verified against a live base.";
pub const SRS_NOTE_08: &'static str =
    "Final guard traversed in memory. Gate remains disabled. Execution is NOT enabled.";

pub const SRS_MODE_MESSAGE: &'static str =
    "Simulator mode is disabled. No simulation is performed. This is the default state.";
pub const SRS_MODE_REASON: &'static str = "SRS-CHK-01: mode must be sandboxOnlyInternalSimulation.";
pub const SRS_FLAG_MESSAGE: &'static str =
    "Explicit internal simulation flag is not set. This flag must be explicitly true before simulation can proceed. No UI control, Tauri command, or runtime path sets this flag.";
pub const SRS_FLAG_REASON: &'static str =
    "SRS-CHK-02: explicit_internal_simulation_requested must be true.";
pub const SRS_GATE_MESSAGE: &'static str =
    "evaluate_write_gate() did not return Disabled/DisabledByProductPolicy. This is a critical safety violation. Simulation cannot proceed.";
pub const SRS_GATE_REASON: &'static str =
    "SRS-CHK-03: evaluate_write_gate() must return Disabled/DisabledByProductPolicy.";
pub const SRS_ARMING_PREFIX: &'static str =
    "Sandbox gate arming decision did not return armedNotExecutable. Current status: ";
pub const SRS_ARMING_SUFFIX: &'static str =
    ". All arming prerequisites must be satisfied before simulation.";
pub const SRS_ARMING_REASON: &'static str =
    "SRS-CHK-04: sandbox gate arming must return armedNotExecutable.";
pub const SRS_HARNESS_PREFIX: &'static str =
    "Sandbox restore harness did not return readyNotExecuted. Current status: ";
pub const SRS_HARNESS_REASON: &'static str =
    "SRS-CHK-05: sandbox restore harness must return readyNotExecuted.";
pub const SRS_ORCH_PREFIX: &'static str =
    "Restore orchestrator did not return notExecuted. Current status: ";
pub const SRS_ORCH_REASON: &'static str = "SRS-CHK-06: restore orchestrator must return notExecuted.";
pub const SRS_DOT: &'static str = ".";
pub const SRS_SIMULATED_MESSAGE: &'static str =
    "Sandbox restore simulator: simulatedNotExecuted. All 8 phases were traversed in memory only. No Airtable calls were made. No execution occurred. No files were written. The runtime gate is NOT armed. Execution is NOT enabled. Writes are NOT enabled. Reads are NOT enabled. This result is not stored globally and does not affect runtime behavior. evaluate_write_gate() default remains Disabled/DisabledByProductPolicy. Live sandbox E2E restore execution remains separate pending work.";

// ── Specification ────────────────────────────────────────────────────────────

/// The arming request the simulator probes: internal mode, explicit flag set,
/// and the caller's declarations.
pub open spec fn sim_arming_request(r: SandboxRestoreSimulatorRequest) -> SandboxGateArmingRequest {
    SandboxGateArmingRequest {
        mode: SandboxGateArmingMode::SandboxOnlyInternal,
        explicit_internal_sandbox_arming_requested: true,
        sandbox_verification_safe: r.sandbox_verification_safe,
        target_empty_safe: r.target_empty_safe,
        confirmation_gate_declared: r.confirmation_gate_declared,
        destructive_operation_policy_safe: r.destructive_operation_policy_safe,
        attachment_phase_disabled_safe: r.attachment_phase_disabled_safe,
        live_write_readiness_safe: r.live_write_readiness_safe,
        write_phase_ordering_safe: r.write_phase_ordering_safe,
        failure_modes_safe: r.failure_modes_safe,
        rollback_limitation_safe: r.rollback_limitation_safe,
        checkpoint_durability_safe: r.checkpoint_durability_safe,
        sensitive_data_safe: r.sensitive_data_safe,
        final_validation_enforcement_safe: r.final_validation_enforcement_safe,
        rate_limit_backoff_safe: r.rate_limit_backoff_safe,
    }
}

/// Whether the caller-declared safety prerequisites the probes need hold.
pub open spec fn sim_prerequisites_hold(r: SandboxRestoreSimulatorRequest) -> bool {
    arming_prerequisites_hold(sim_arming_request(r))
}

/// The status of a simulator run for a request.
pub open spec fn sim_status(r: SandboxRestoreSimulatorRequest) -> SandboxRestoreSimulatorStatus {
    if r.mode == SandboxRestoreSimulatorMode::SandboxOnlyInternalSimulation
        && r.explicit_internal_simulation_requested && sim_prerequisites_hold(r) {
        SandboxRestoreSimulatorStatus::SimulatedNotExecuted
    } else {
        SandboxRestoreSimulatorStatus::Blocked
    }
}

pub open spec fn sim_phase_is(
    p: SandboxRestoreSimulatorPhase,
    id: &str,
    label: &str,
    status: SandboxRestoreSimulatorPhaseStatus,
    note: &str,
) -> bool {
    &&& p.phase_id@ == id@
    &&& p.label@ == label@
    &&& p.status == status
    &&& p.note@ == note@
}

/// The eight simulated phases, in restore order; the checkpoint boundaries
/// are `Skipped`, every other phase `Simulated`.
pub open spec fn sim_phases(ps: Seq<SandboxRestoreSimulatorPhase>) -> bool {
    &&& ps.len() == 8
    &&& sim_phase_is(ps[0], SRS_PH_01, SRS_LABEL_01, SandboxRestoreSimulatorPhaseStatus::Simulated, SRS_NOTE_01)
    &&& sim_phase_is(ps[1], SRS_PH_02, SRS_LABEL_02, SandboxRestoreSimulatorPhaseStatus::Skipped, SRS_NOTE_02)
    &&& sim_phase_is(ps[2], SRS_PH_03, SRS_LABEL_03, SandboxRestoreSimulatorPhaseStatus::Simulated, SRS_NOTE_03)
    &&& sim_phase_is(ps[3], SRS_PH_04, SRS_LABEL_04, SandboxRestoreSimulatorPhaseStatus::Skipped, SRS_NOTE_04)
    &&& sim_phase_is(ps[4], SRS_PH_05, SRS_LABEL_05, SandboxRestoreSimulatorPhaseStatus::Simulated, SRS_NOTE_05)
    &&& sim_phase_is(ps[5], SRS_PH_06, SRS_LABEL_06, SandboxRestoreSimulatorPhaseStatus::Skipped, SRS_NOTE_06)
    &&& sim_phase_is(ps[6], SRS_PH_07, SRS_LABEL_07, SandboxRestoreSimulatorPhaseStatus::Simulated, SRS_NOTE_07)
    &&& sim_phase_is(ps[7], SRS_PH_08, SRS_LABEL_08, SandboxRestoreSimulatorPhaseStatus::Simulated, SRS_NOTE_08)
}

/// Whether a phase counts as traversed: `Simulated` or `Skipped`.
pub open spec fn phase_traversed(p: SandboxRestoreSimulatorPhase) -> bool {
    p.status == SandboxRestoreSimulatorPhaseStatus::Simulated
        || p.status == SandboxRestoreSimulatorPhaseStatus::Skipped
}

/// Number of traversed phases.
pub open spec fn traversed_count(ps: Seq<SandboxRestoreSimulatorPhase>) -> nat
    decreases ps.len(),
{
    if ps.len() == 0 {
        0
    } else {
        traversed_count(ps.drop_last()) + if phase_traversed(ps.last()) { 1nat } else { 0nat }
    }
}

/// The snapshot: write gate disabled, runtime gate not armed, no client call,
/// no checkpoint file, no execution, writes or reads; the probe flags given.
pub open spec fn sim_snapshot_is(
    s: SandboxRestoreSimulatorSafetySnapshot,
    ephemeral: bool,
    harness: bool,
    orchestrator: bool,
    represented: bool,
) -> bool {
    &&& s.write_gate_disabled
    &&& !s.gate_armed
    &&& s.ephemeral_armed_decision_seen == ephemeral
    &&& s.harness_ready_not_executed == harness
    &&& s.orchestrator_not_executed == orchestrator
    &&& s.all_phases_represented == represented
    &&& s.checkpoint_phases_represented == represented
    &&& !s.airtable_client_called
    &&& !s.checkpoint_file_written
    &&& !s.execution_enabled
    &&& !s.writes_enabled
    &&& !s.reads_enabled
}

/// The flags every simulator result carries.
pub open spec fn sim_result_safe(r: SandboxRestoreSimulatorResult) -> bool {
    &&& !r.gate_armed
    &&& r.no_changes_made
    &&& !r.network_reads_attempted
    &&& !r.network_writes_attempted
    &&& !r.airtable_client_called
    &&& !r.checkpoint_file_written
    &&& !r.execution_enabled
    &&& !r.writes_enabled
    &&& !r.reads_enabled
}

/// The harness request the simulator probes.
pub open spec fn sim_harness_request(r: SandboxRestoreSimulatorRequest) -> SandboxRestoreHarnessRequest {
    SandboxRestoreHarnessRequest {
        mode: SandboxRestoreHarnessMode::SandboxOnlyDryHarness,
        sandbox_verification_safe: r.sandbox_verification_safe,
        target_empty_safe: r.target_empty_safe,
        confirmation_gate_declared: r.confirmation_gate_declared,
        destructive_operation_policy_safe: r.destructive_operation_policy_safe,
        attachment_phase_disabled_safe: r.attachment_phase_disabled_safe,
        live_write_readiness_safe: r.live_write_readiness_safe,
        write_phase_ordering_safe: r.write_phase_ordering_safe,
        failure_modes_safe: r.failure_modes_safe,
        rollback_limitation_safe: r.rollback_limitation_safe,
    }
}

/// The orchestrator request the simulator probes.
pub open spec fn sim_orchestrator_request(r: SandboxRestoreSimulatorRequest) -> RestoreOrchestratorRequest {
    RestoreOrchestratorRequest {
        mode: RestoreOrchestratorMode::SandboxOnly,
        sandbox_verified: r.sandbox_verification_safe,
        target_empty_verified: r.target_empty_safe,
        write_phase_ordering_safe: r.write_phase_ordering_safe,
        failure_modes_safe: r.failure_modes_safe,
        rollback_limitation_safe: r.rollback_limitation_safe,
        live_write_readiness_safe: r.live_write_readiness_safe,
        schema_executor_safe: true,
        record_executor_safe: true,
        linked_executor_safe: true,
        final_validation_reader_safe: true,
    }
}

// ── Helpers ──────────────────────────────────────────────────────────────────

fn make_phase(
    id: &str,
    label: &str,
    status: SandboxRestoreSimulatorPhaseStatus,
    note: &str,
) -> (p: SandboxRestoreSimulatorPhase)
    ensures
        sim_phase_is(p, id, label, status, note),
{
    SandboxRestoreSimulatorPhase {
        phase_id: String::from_str(id),
        label: String::from_str(label),
        status,
        note: String::from_str(note),
    }
}

fn build_simulation_phases() -> (ps: Vec<SandboxRestoreSimulatorPhase>)
    ensures
        sim_phases(ps@),
{
    let mut ps: Vec<SandboxRestoreSimulatorPhase> = Vec::new();
    ps.push(make_phase(SRS_PH_01, SRS_LABEL_01, SandboxRestoreSimulatorPhaseStatus::Simulated, SRS_NOTE_01));
    ps.push(make_phase(SRS_PH_02, SRS_LABEL_02, SandboxRestoreSimulatorPhaseStatus::Skipped, SRS_NOTE_02));
    ps.push(make_phase(SRS_PH_03, SRS_LABEL_03, SandboxRestoreSimulatorPhaseStatus::Simulated, SRS_NOTE_03));
    ps.push(make_phase(SRS_PH_04, SRS_LABEL_04, SandboxRestoreSimulatorPhaseStatus::Skipped, SRS_NOTE_04));
    ps.push(make_phase(SRS_PH_05, SRS_LABEL_05, SandboxRestoreSimulatorPhaseStatus::Simulated, SRS_NOTE_05));
    ps.push(make_phase(SRS_PH_06, SRS_LABEL_06, SandboxRestoreSimulatorPhaseStatus::Skipped, SRS_NOTE_06));
    ps.push(make_phase(SRS_PH_07, SRS_LABEL_07, SandboxRestoreSimulatorPhaseStatus::Simulated, SRS_NOTE_07));
    ps.push(make_phase(SRS_PH_08, SRS_LABEL_08, SandboxRestoreSimulatorPhaseStatus::Simulated, SRS_NOTE_08));
    ps
}

fn count_traversed(ps: &Vec<SandboxRestoreSimulatorPhase>) -> (n: usize)
    ensures
        n == traversed_count(ps@),
{
    let mut n: usize = 0;
    let mut i: usize = 0;
    while i < ps.len()
        invariant
            i <= ps.len(),
            n == traversed_count(ps@.take(i as int)),
            n <= i,
        decreases ps.len() - i,
    {
        assert(ps@.take(i as int + 1).drop_last() =~= ps@.take(i as int));
        match ps[i].status {
            SandboxRestoreSimulatorPhaseStatus::Simulated => { n = n + 1; },
            SandboxRestoreSimulatorPhaseStatus::Skipped => { n = n + 1; },
            _ => {},
        }
        i = i + 1;
    }
    assert(ps@.take(ps.len() as int) =~= ps@);
    n
}

proof fn lemma_sim_phases_traversed(ps: Seq<SandboxRestoreSimulatorPhase>)
    requires
        sim_phases(ps),
    ensures
        traversed_count(ps) == 8,
{
    assert(ps.take(8) =~= ps);
    assert(ps.take(1).drop_last() =~= ps.take(0));
    assert(ps.take(2).drop_last() =~= ps.take(1));
    assert(ps.take(3).drop_last() =~= ps.take(2));
    assert(ps.take(4).drop_last() =~= ps.take(3));
    assert(ps.take(5).drop_last() =~= ps.take(4));
    assert(ps.take(6).drop_last() =~= ps.take(5));
    assert(ps.take(7).drop_last() =~= ps.take(6));
    assert(ps.take(8).drop_last() =~= ps.take(7));
    assert(traversed_count(ps.take(0)) == 0);
    assert(traversed_count(ps.take(1)) == 1);
    assert(traversed_count(ps.take(2)) == 2);
    assert(traversed_count(ps.take(3)) == 3);
    assert(traversed_count(ps.take(4)) == 4);
    assert(traversed_count(ps.take(5)) == 5);
    assert(traversed_count(ps.take(6)) == 6);
    assert(traversed_count(ps.take(7)) == 7);
    assert(traversed_count(ps.take(8)) == 8);
}

/// A `Blocked` run with no phases and the given probe flags.
fn sim_blocked(
    mode: SandboxRestoreSimulatorMode,
    ephemeral_armed_decision_seen: bool,
    harness_ready_not_executed: bool,
    orchestrator_not_executed: bool,
    message: String,
    blocked_reason: String,
) -> (r: SandboxRestoreSimulatorResult)
    ensures
        r.status == SandboxRestoreSimulatorStatus::Blocked,
        r.mode == mode,
        r.message@ == message@,
        r.blocked_reason matches Some(b) && b@ == blocked_reason@,
        r.phases@.len() == 0,
        r.total_phase_count == 0,
        r.simulated_phase_count == 0,
        r.ephemeral_armed_decision_seen == ephemeral_armed_decision_seen,
        sim_snapshot_is(r.safety_snapshot, ephemeral_armed_decision_seen,
            harness_ready_not_executed, orchestrator_not_executed, false),
        sim_result_safe(r),
{
    SandboxRestoreSimulatorResult {
        status: SandboxRestoreSimulatorStatus::Blocked,
        mode,
        message,
        phases: Vec::new(),
        safety_snapshot: SandboxRestoreSimulatorSafetySnapshot {
            write_gate_disabled: true,
            gate_armed: false,
            ephemeral_armed_decision_seen,
            harness_ready_not_executed,
            orchestrator_not_executed,
            all_phases_represented: false,
            checkpoint_phases_represented: false,
            airtable_client_called: false,
            checkpoint_file_written: false,
            execution_enabled: false,
            writes_enabled: false,
            reads_enabled: false,
        },
        total_phase_count: 0,
        simulated_phase_count: 0,
        blocked_reason: Some(blocked_reason),
        gate_armed: false,
        ephemeral_armed_decision_seen,
        no_changes_made: true,
        network_reads_attempted: false,
        network_writes_attempted: false,
        airtable_client_called: false,
        checkpoint_file_written: false,
        execution_enabled: false,
        writes_enabled: false,
        reads_enabled: false,
    }
}

// ── Core function ────────────────────────────────────────────────────────────

/// Runs the sandbox restore simulator.
///
/// Checks, in order: the mode, the explicit simulation flag, the write gate,
/// then the sandbox gate arming decision, the harness and the orchestrator as probes.
/// The first check that fails blocks the run with its `SRS-CHK-..` reason and
/// no phases. When all pass, the eight phases are traversed in memory and the
/// run is `SimulatedNotExecuted`. Every result leaves the runtime gate unarmed,
/// calls no client, writes no checkpoint file and enables nothing.
pub fn run_sandbox_restore_simulator(
    request: &SandboxRestoreSimulatorRequest,
) -> (result: SandboxRestoreSimulatorResult)
    ensures
        result.status == sim_status(*request),
        sim_result_safe(result),
        result.total_phase_count == result.phases@.len(),
        result.simulated_phase_count == traversed_count(result.phases@),
        result.ephemeral_armed_decision_seen == result.safety_snapshot.ephemeral_armed_decision_seen,
        request.mode == SandboxRestoreSimulatorMode::Disabled ==> {
            &&& result.mode == SandboxRestoreSimulatorMode::Disabled
            &&& result.message@ == SRS_MODE_MESSAGE@
            &&& result.blocked_reason matches Some(b) && b@ == SRS_MODE_REASON@
            &&& sim_snapshot_is(result.safety_snapshot, false, false, false, false)
        },
        request.mode == SandboxRestoreSimulatorMode::SandboxOnlyInternalSimulation
            ==> result.mode == request.mode,
        request.mode == SandboxRestoreSimulatorMode::SandboxOnlyInternalSimulation
            && !request.explicit_internal_simulation_requested ==> {
            &&& result.message@ == SRS_FLAG_MESSAGE@
            &&& result.blocked_reason matches Some(b) && b@ == SRS_FLAG_REASON@
            &&& sim_snapshot_is(result.safety_snapshot, false, false, false, false)
        },
        request.mode == SandboxRestoreSimulatorMode::SandboxOnlyInternalSimulation
            && request.explicit_internal_simulation_requested
            && !sim_prerequisites_hold(*request) ==> {
            &&& result.message@ == SRS_ARMING_PREFIX@
                + arming_status_name(arming_status(sim_arming_request(*request)))
                + SRS_ARMING_SUFFIX@
            &&& result.blocked_reason matches Some(b) && b@ == SRS_ARMING_REASON@
            &&& sim_snapshot_is(result.safety_snapshot, false, false, false, false)
        },
        result.status == SandboxRestoreSimulatorStatus::Blocked ==> {
            &&& result.phases@.len() == 0
            &&& result.simulated_phase_count == 0
        },
        result.status == SandboxRestoreSimulatorStatus::SimulatedNotExecuted ==> {
            &&& result.message@ == SRS_SIMULATED_MESSAGE@
            &&& result.blocked_reason is None
            &&& sim_phases(result.phases@)
            &&& result.total_phase_count == 8
            &&& result.simulated_phase_count == 8
            &&& result.ephemeral_armed_decision_seen
            &&& sim_snapshot_is(result.safety_snapshot, true, true, true, true)
        },
{
    if let SandboxRestoreSimulatorMode::Disabled = request.mode {
        return sim_blocked(SandboxRestoreSimulatorMode::Disabled, false, false, false,
            String::from_str(SRS_MODE_MESSAGE), String::from_str(SRS_MODE_REASON));
    }

    if !request.explicit_internal_simulation_requested {
        return sim_blocked(SandboxRestoreSimulatorMode::SandboxOnlyInternalSimulation,
            false, false, false,
            String::from_str(SRS_FLAG_MESSAGE), String::from_str(SRS_FLAG_REASON));
    }

    let gate = evaluate_write_gate();
    if !write_gate_is_disabled(&gate) {
        return sim_blocked(SandboxRestoreSimulatorMode::SandboxOnlyInternalSimulation,
            false, false, false,
            String::from_str(SRS_GATE_MESSAGE), String::from_str(SRS_GATE_REASON));
    }

    // Arming probe.
    let arming_req = SandboxGateArmingRequest {
        mode: SandboxGateArmingMode::SandboxOnlyInternal,
        explicit_internal_sandbox_arming_requested: true,
        sandbox_verification_safe: request.sandbox_verification_safe,
        target_empty_safe: request.target_empty_safe,
        confirmation_gate_declared: request.confirmation_gate_declared,
        destructive_operation_policy_safe: request.destructive_operation_policy_safe,
        attachment_phase_disabled_safe: request.attachment_phase_disabled_safe,
        live_write_readiness_safe: request.live_write_readiness_safe,
        write_phase_ordering_safe: request.write_phase_ordering_safe,
        failure_modes_safe: request.failure_modes_safe,
        rollback_limitation_safe: request.rollback_limitation_safe,
        checkpoint_durability_safe: request.checkpoint_durability_safe,
        sensitive_data_safe: request.sensitive_data_safe,
        final_validation_enforcement_safe: request.final_validation_enforcement_safe,
        rate_limit_backoff_safe: request.rate_limit_backoff_safe,
    };
    assert(arming_req == sim_arming_request(*request));
    let arming = build_sandbox_gate_arming_decision(&arming_req);
    let ephemeral_armed = match arming.status {
        SandboxGateArmingStatus::ArmedNotExecutable => true,
        SandboxGateArmingStatus::Blocked => false,
    };
    if !ephemeral_armed {
        let message = concat3(SRS_ARMING_PREFIX, arming_status_label(arming.status),
            SRS_ARMING_SUFFIX);
        return sim_blocked(SandboxRestoreSimulatorMode::SandboxOnlyInternalSimulation,
            false, false, false, message, String::from_str(SRS_ARMING_REASON));
    }

    // Harness probe.
    let harness_req = SandboxRestoreHarnessRequest {
        mode: SandboxRestoreHarnessMode::SandboxOnlyDryHarness,
        sandbox_verification_safe: request.sandbox_verification_safe,
        target_empty_safe: request.target_empty_safe,
        confirmation_gate_declared: request.confirmation_gate_declared,
        destructive_operation_policy_safe: request.destructive_operation_policy_safe,
        attachment_phase_disabled_safe: request.attachment_phase_disabled_safe,
        live_write_readiness_safe: request.live_write_readiness_safe,
        write_phase_ordering_safe: request.write_phase_ordering_safe,
        failure_modes_safe: request.failure_modes_safe,
        rollback_limitation_safe: request.rollback_limitation_safe,
    };
    assert(harness_req == sim_harness_request(*request));
    let harness = build_sandbox_restore_harness_plan(&harness_req);
    let harness_ready = match harness.status {
        SandboxRestoreHarnessStatus::ReadyNotExecuted => true,
        _ => false,
    };
    if !harness_ready {
        let message = concat3(SRS_HARNESS_PREFIX, harness_status_label(harness.status), SRS_DOT);
        return sim_blocked(SandboxRestoreSimulatorMode::SandboxOnlyInternalSimulation,
            true, false, false, message, String::from_str(SRS_HARNESS_REASON));
    }

    // Orchestrator probe.
    let orch_req = RestoreOrchestratorRequest {
        mode: RestoreOrchestratorMode::SandboxOnly,
        sandbox_verified: request.sandbox_verification_safe,
        target_empty_verified: request.target_empty_safe,
        write_phase_ordering_safe: request.write_phase_ordering_safe,
        failure_modes_safe: request.failure_modes_safe,
        rollback_limitation_safe: request.rollback_limitation_safe,
        live_write_readiness_safe: request.live_write_readiness_safe,
        schema_executor_safe: true,
        record_executor_safe: true,
        linked_executor_safe: true,
        final_validation_reader_safe: true,
    };
    assert(orch_req == sim_orchestrator_request(*request));
    let orch = build_restore_orchestrator_plan(&orch_req);
    let orch_not_executed = match orch.status {
        RestoreOrchestratorStatus::NotExecuted => true,
        _ => false,
    };
    if !orch_not_executed {
        let message = concat3(SRS_ORCH_PREFIX, orchestrator_status_label(orch.status), SRS_DOT);
        return sim_blocked(SandboxRestoreSimulatorMode::SandboxOnlyInternalSimulation,
            true, true, false, message, String::from_str(SRS_ORCH_REASON));
    }

    // In-memory traversal of the eight phases.
    let phases = build_simulation_phases();
    let total = phases.len();
    let simulated_count = count_traversed(&phases);
    proof {
        lemma_sim_phases_traversed(phases@);
    }

    SandboxRestoreSimulatorResult {
        status: SandboxRestoreSimulatorStatus::SimulatedNotExecuted,
        mode: SandboxRestoreSimulatorMode::SandboxOnlyInternalSimulation,
        message: String::from_str(SRS_SIMULATED_MESSAGE),
        phases,
        safety_snapshot: SandboxRestoreSimulatorSafetySnapshot {
            write_gate_disabled: true,
            gate_armed: false,
            ephemeral_armed_decision_seen: true,
            harness_ready_not_executed: true,
            orchestrator_not_executed: true,
            all_phases_represented: total == 8,
            checkpoint_phases_represented: true,
            airtable_client_called: false,
            checkpoint_file_written: false,
            execution_enabled: false,
            writes_enabled: false,
            reads_enabled: false,
        },
        total_phase_count: total,
        simulated_phase_count: simulated_count,
        blocked_reason: None,
        gate_armed: false,
        ephemeral_armed_decision_seen: true,
        no_changes_made: true,
        network_reads_attempted: false,
        network_writes_attempted: false,
        airtable_client_called: false,
        checkpoint_file_written: false,
        execution_enabled: false,
        writes_enabled: false,
        reads_enabled: false,
    }
}

} // verus!
