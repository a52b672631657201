use airbridge_restore::sandbox_restore_simulator::{SandboxRestoreSimulatorMode, SandboxRestoreSimulatorPhaseStatus, SandboxRestoreSimulatorRequest, SandboxRestoreSimulatorStatus, run_sandbox_restore_simulator};
use airbridge_restore::write_gate::{RestoreWriteEngineStatus, evaluate_write_gate};

fn all_prereqs_request() -> SandboxRestoreSimulatorRequest {
    SandboxRestoreSimulatorRequest {
        mode: SandboxRestoreSimulatorMode::SandboxOnlyInternalSimulation,
        explicit_internal_simulation_requested: true,
        sandbox_verification_safe: true,
        target_empty_safe: true,
        confirmation_gate_declared: true,
        destructive_operation_policy_safe: true,
        attachment_phase_disabled_safe: true,
        live_write_readiness_safe: true,
        write_phase_ordering_safe: true,
        failure_modes_safe: true,
        rollback_limitation_safe: true,
        checkpoint_durability_safe: true,
        sensitive_data_safe: true,
        final_validation_enforcement_safe: true,
        rate_limit_backoff_safe: true,
    }
}

fn disabled_request() -> SandboxRestoreSimulatorRequest {
    SandboxRestoreSimulatorRequest {
        mode: SandboxRestoreSimulatorMode::Disabled,
        ..all_prereqs_request()
    }
}

// ── SimulatedNotExecuted ──────────────────────────────────────────────────

#[test]
fn sim_all_prereqs_returns_simulated_not_executed() {
    let result = run_sandbox_restore_simulator(&all_prereqs_request());
    assert_eq!(
        result.status,
        SandboxRestoreSimulatorStatus::SimulatedNotExecuted
    );
    assert!(!result.execution_enabled);
    assert!(!result.writes_enabled);
    assert!(!result.reads_enabled);
    assert!(!result.gate_armed);
    assert!(result.no_changes_made);
    assert!(!result.network_reads_attempted);
    assert!(!result.network_writes_attempted);
    assert!(!result.airtable_client_called);
    assert!(!result.checkpoint_file_written);
    assert!(result.blocked_reason.is_none());
}

#[test]
fn sim_message_says_not_armed_not_enabled() {
    let result = run_sandbox_restore_simulator(&all_prereqs_request());
    assert!(
        result.message.contains("NOT armed"),
        "message must say NOT armed, got: {}",
        result.message
    );
    assert!(
        result.message.contains("NOT enabled"),
        "message must say NOT enabled, got: {}",
        result.message
    );
}

#[test]
fn sim_message_says_no_airtable_calls() {
    let result = run_sandbox_restore_simulator(&all_prereqs_request());
    assert!(
        result.message.contains("No Airtable calls were made"),
        "message must say no Airtable calls, got: {}",
        result.message
    );
}

#[test]
fn sim_message_says_execution_pending() {
    let result = run_sandbox_restore_simulator(&all_prereqs_request());
    assert!(
        result.message.contains("remains separate pending work"),
        "message must say live execution remains pending, got: {}",
        result.message
    );
}

#[test]
fn sim_write_gate_unchanged_after_simulation() {
    let _ = run_sandbox_restore_simulator(&all_prereqs_request());
    let gate = evaluate_write_gate();
    assert!(matches!(gate.status, RestoreWriteEngineStatus::Disabled));
}

// ── Phase sequence ────────────────────────────────────────────────────────

#[test]
fn sim_all_8_phases_represented() {
    let result = run_sandbox_restore_simulator(&all_prereqs_request());
    assert_eq!(result.total_phase_count, 8);
    assert_eq!(result.phases.len(), 8);
}

#[test]
fn sim_phase_ordering_deterministic() {
    let r1 = run_sandbox_restore_simulator(&all_prereqs_request());
    let r2 = run_sandbox_restore_simulator(&all_prereqs_request());
    let ids1: Vec<_> = r1.phases.iter().map(|p| &p.phase_id).collect();
    let ids2: Vec<_> = r2.phases.iter().map(|p| &p.phase_id).collect();
    assert_eq!(ids1, ids2);
}

#[test]
fn sim_first_phase_is_schema_executor() {
    let result = run_sandbox_restore_simulator(&all_prereqs_request());
    assert_eq!(result.phases[0].phase_id, "SRS-PH-01");
}

#[test]
fn sim_last_phase_is_final_guard() {
    let result = run_sandbox_restore_simulator(&all_prereqs_request());
    assert_eq!(result.phases[7].phase_id, "SRS-PH-08");
}

#[test]
fn sim_phase_ids_use_srs_ph_prefix() {
    let result = run_sandbox_restore_simulator(&all_prereqs_request());
    for phase in &result.phases {
        assert!(
            phase.phase_id.starts_with("SRS-PH-"),
            "phase_id must start with SRS-PH-, got: {}",
            phase.phase_id
        );
    }
}

#[test]
fn sim_checkpoint_phases_represented_and_skipped() {
    let result = run_sandbox_restore_simulator(&all_prereqs_request());
    let checkpoint_phases: Vec<_> = result
        .phases
        .iter()
        .filter(|p| matches!(p.phase_id.as_str(), "SRS-PH-02" | "SRS-PH-04" | "SRS-PH-06"))
        .collect();
    assert_eq!(checkpoint_phases.len(), 3);
    for cp in checkpoint_phases {
        assert_eq!(
            cp.status,
            SandboxRestoreSimulatorPhaseStatus::Skipped,
            "checkpoint phase {} must be Skipped, got {:?}",
            cp.phase_id,
            cp.status
        );
    }
}

#[test]
fn sim_checkpoint_file_written_always_false() {
    let r1 = run_sandbox_restore_simulator(&all_prereqs_request());
    let r2 = run_sandbox_restore_simulator(&disabled_request());
    assert!(!r1.checkpoint_file_written);
    assert!(!r2.checkpoint_file_written);
    assert!(!r1.safety_snapshot.checkpoint_file_written);
    assert!(!r2.safety_snapshot.checkpoint_file_written);
}

#[test]
fn sim_snapshot_all_phases_represented() {
    let result = run_sandbox_restore_simulator(&all_prereqs_request());
    assert!(result.safety_snapshot.all_phases_represented);
    assert!(result.safety_snapshot.checkpoint_phases_represented);
}

#[test]
fn sim_no_phase_has_succeeded_status() {
    let result = run_sandbox_restore_simulator(&all_prereqs_request());
    for phase in &result.phases {
        assert!(!matches!(
            phase.status,
            SandboxRestoreSimulatorPhaseStatus::NotExecuted
                | SandboxRestoreSimulatorPhaseStatus::Blocked
        ));
    }
}

// ── Safety invariants ─────────────────────────────────────────────────────

#[test]
fn sim_execution_enabled_always_false() {
    let r1 = run_sandbox_restore_simulator(&all_prereqs_request());
    let r2 = run_sandbox_restore_simulator(&disabled_request());
    assert!(!r1.execution_enabled);
    assert!(!r2.execution_enabled);
}

#[test]
fn sim_writes_enabled_always_false() {
    let r1 = run_sandbox_restore_simulator(&all_prereqs_request());
    let r2 = run_sandbox_restore_simulator(&disabled_request());
    assert!(!r1.writes_enabled);
    assert!(!r2.writes_enabled);
}

#[test]
fn sim_reads_enabled_always_false() {
    let r1 = run_sandbox_restore_simulator(&all_prereqs_request());
    let r2 = run_sandbox_restore_simulator(&disabled_request());
    assert!(!r1.reads_enabled);
    assert!(!r2.reads_enabled);
}

#[test]
fn sim_gate_armed_runtime_always_false() {
    let r1 = run_sandbox_restore_simulator(&all_prereqs_request());
    let r2 = run_sandbox_restore_simulator(&disabled_request());
    assert!(!r1.gate_armed);
    assert!(!r2.gate_armed);
    assert!(!r1.safety_snapshot.gate_armed);
    assert!(!r2.safety_snapshot.gate_armed);
}

#[test]
fn sim_no_network_reads_attempted() {
    let r1 = run_sandbox_restore_simulator(&all_prereqs_request());
    let r2 = run_sandbox_restore_simulator(&disabled_request());
    assert!(!r1.network_reads_attempted);
    assert!(!r2.network_reads_attempted);
}

#[test]
fn sim_no_network_writes_attempted() {
    let r1 = run_sandbox_restore_simulator(&all_prereqs_request());
    let r2 = run_sandbox_restore_simulator(&disabled_request());
    assert!(!r1.network_writes_attempted);
    assert!(!r2.network_writes_attempted);
}

#[test]
fn sim_no_changes_made_always_true() {
    let r1 = run_sandbox_restore_simulator(&all_prereqs_request());
    let r2 = run_sandbox_restore_simulator(&disabled_request());
    assert!(r1.no_changes_made);
    assert!(r2.no_changes_made);
}

#[test]
fn sim_airtable_client_called_always_false() {
    let r1 = run_sandbox_restore_simulator(&all_prereqs_request());
    let r2 = run_sandbox_restore_simulator(&disabled_request());
    assert!(!r1.airtable_client_called);
    assert!(!r2.airtable_client_called);
    assert!(!r1.safety_snapshot.airtable_client_called);
    assert!(!r2.safety_snapshot.airtable_client_called);
}

#[test]
fn sim_evaluate_write_gate_returns_disabled_by_default() {
    let gate = evaluate_write_gate();
    assert!(matches!(gate.status, RestoreWriteEngineStatus::Disabled));
}

#[test]
fn sim_snapshot_write_gate_disabled_always_true() {
    let r1 = run_sandbox_restore_simulator(&all_prereqs_request());
    let r2 = run_sandbox_restore_simulator(&disabled_request());
    assert!(r1.safety_snapshot.write_gate_disabled);
    assert!(r2.safety_snapshot.write_gate_disabled);
}

#[test]
fn sim_snapshot_gate_armed_always_false() {
    let r1 = run_sandbox_restore_simulator(&all_prereqs_request());
    let r2 = run_sandbox_restore_simulator(&disabled_request());
    assert!(!r1.safety_snapshot.gate_armed);
    assert!(!r2.safety_snapshot.gate_armed);
}

#[test]
fn sim_snapshot_execution_enabled_always_false() {
    let r1 = run_sandbox_restore_simulator(&all_prereqs_request());
    let r2 = run_sandbox_restore_simulator(&disabled_request());
    assert!(!r1.safety_snapshot.execution_enabled);
    assert!(!r2.safety_snapshot.execution_enabled);
}

// ── Ephemeral arming decision ─────────────────────────────────────────────

#[test]
fn sim_ephemeral_armed_decision_seen_when_all_prereqs() {
    let result = run_sandbox_restore_simulator(&all_prereqs_request());
    assert!(result.ephemeral_armed_decision_seen);
    assert!(result.safety_snapshot.ephemeral_armed_decision_seen);
}

#[test]
fn sim_ephemeral_decision_not_persisted_globally() {
    let _ = run_sandbox_restore_simulator(&all_prereqs_request());
    let gate = evaluate_write_gate();
    assert!(matches!(gate.status, RestoreWriteEngineStatus::Disabled));
    // Subsequent blocked call is still blocked.
    let blocked = run_sandbox_restore_simulator(&disabled_request());
    assert_eq!(blocked.status, SandboxRestoreSimulatorStatus::Blocked);
    assert!(!blocked.gate_armed);
}

#[test]
fn sim_two_independent_calls_produce_independent_results() {
    let r1 = run_sandbox_restore_simulator(&all_prereqs_request());
    let r2 = run_sandbox_restore_simulator(&all_prereqs_request());
    assert_eq!(
        r1.status,
        SandboxRestoreSimulatorStatus::SimulatedNotExecuted
    );
    assert_eq!(
        r2.status,
        SandboxRestoreSimulatorStatus::SimulatedNotExecuted
    );
    let gate = evaluate_write_gate();
    assert!(matches!(gate.status, RestoreWriteEngineStatus::Disabled));
}

// ── Blocked cases ─────────────────────────────────────────────────────────

#[test]
fn sim_blocked_when_mode_disabled() {
    let result = run_sandbox_restore_simulator(&disabled_request());
    assert_eq!(result.status, SandboxRestoreSimulatorStatus::Blocked);
    assert!(!result.gate_armed);
    assert!(result.blocked_reason.is_some());
    let reason = result.blocked_reason.unwrap();
    assert!(
        reason.contains("SRS-CHK-01"),
        "blocked_reason must contain SRS-CHK-01, got: {reason}"
    );
}

#[test]
fn sim_blocked_when_explicit_flag_missing() {
    let mut req = all_prereqs_request();
    req.explicit_internal_simulation_requested = false;
    let result = run_sandbox_restore_simulator(&req);
    assert_eq!(result.status, SandboxRestoreSimulatorStatus::Blocked);
    assert!(!result.gate_armed);
    let reason = result.blocked_reason.unwrap();
    assert!(
        reason.contains("SRS-CHK-02"),
        "blocked_reason must contain SRS-CHK-02, got: {reason}"
    );
}

#[test]
fn sim_blocked_when_arming_decision_blocked() {
    let mut req = all_prereqs_request();
    req.sandbox_verification_safe = false;
    let result = run_sandbox_restore_simulator(&req);
    assert_eq!(result.status, SandboxRestoreSimulatorStatus::Blocked);
    let reason = result.blocked_reason.unwrap();
    assert!(
        reason.contains("SRS-CHK-04"),
        "blocked_reason must contain SRS-CHK-04, got: {reason}"
    );
}

#[test]
fn sim_blocked_when_target_not_empty() {
    let mut req = all_prereqs_request();
    req.target_empty_safe = false;
    let result = run_sandbox_restore_simulator(&req);
    assert_eq!(result.status, SandboxRestoreSimulatorStatus::Blocked);
}

#[test]
fn sim_blocked_when_confirmation_missing() {
    let mut req = all_prereqs_request();
    req.confirmation_gate_declared = false;
    let result = run_sandbox_restore_simulator(&req);
    assert_eq!(result.status, SandboxRestoreSimulatorStatus::Blocked);
}

#[test]
fn sim_blocked_when_write_phase_ordering_unsafe() {
    let mut req = all_prereqs_request();
    req.write_phase_ordering_safe = false;
    let result = run_sandbox_restore_simulator(&req);
    assert_eq!(result.status, SandboxRestoreSimulatorStatus::Blocked);
}

#[test]
fn sim_blocked_when_failure_modes_unsafe() {
    let mut req = all_prereqs_request();
    req.failure_modes_safe = false;
    let result = run_sandbox_restore_simulator(&req);
    assert_eq!(result.status, SandboxRestoreSimulatorStatus::Blocked);
}

#[test]
fn sim_blocked_when_rollback_limitation_unsafe() {
    let mut req = all_prereqs_request();
    req.rollback_limitation_safe = false;
    let result = run_sandbox_restore_simulator(&req);
    assert_eq!(result.status, SandboxRestoreSimulatorStatus::Blocked);
}

#[test]
fn sim_phases_empty_when_blocked() {
    let result = run_sandbox_restore_simulator(&disabled_request());
    assert_eq!(result.total_phase_count, 0);
    assert_eq!(result.phases.len(), 0);
}

// ── Phase count / count consistency ──────────────────────────────────────

#[test]
fn sim_total_and_simulated_counts_consistent() {
    let result = run_sandbox_restore_simulator(&all_prereqs_request());
    assert_eq!(result.total_phase_count, result.phases.len());
    let actual_sim = result
        .phases
        .iter()
        .filter(|p| {
            matches!(
                p.status,
                SandboxRestoreSimulatorPhaseStatus::Simulated
                    | SandboxRestoreSimulatorPhaseStatus::Skipped
            )
        })
        .count();
    assert_eq!(result.simulated_phase_count, actual_sim);
}
