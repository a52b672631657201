use airbridge_restore::sandbox_restore_harness::{SRH_PHASE_FINAL_GUARD, SRH_PHASE_GATE_CONTRACT, SandboxRestoreHarnessMode, SandboxRestoreHarnessPhaseStatus, SandboxRestoreHarnessRequest, SandboxRestoreHarnessStatus, build_sandbox_restore_harness_plan};
use airbridge_restore::write_gate::{RestoreWriteEngineStatus, evaluate_write_gate};

fn disabled_request() -> SandboxRestoreHarnessRequest {
    SandboxRestoreHarnessRequest {
        mode: SandboxRestoreHarnessMode::Disabled,
        sandbox_verification_safe: false,
        target_empty_safe: false,
        confirmation_gate_declared: false,
        destructive_operation_policy_safe: false,
        attachment_phase_disabled_safe: false,
        live_write_readiness_safe: false,
        write_phase_ordering_safe: false,
        failure_modes_safe: false,
        rollback_limitation_safe: false,
    }
}

fn all_prereqs_request() -> SandboxRestoreHarnessRequest {
    SandboxRestoreHarnessRequest {
        mode: SandboxRestoreHarnessMode::SandboxOnlyDryHarness,
        sandbox_verification_safe: true,
        target_empty_safe: true,
        confirmation_gate_declared: true,
        destructive_operation_policy_safe: true,
        attachment_phase_disabled_safe: true,
        live_write_readiness_safe: true,
        write_phase_ordering_safe: true,
        failure_modes_safe: true,
        rollback_limitation_safe: true,
    }
}

// ── Default disabled mode ─────────────────────────────────────────────────

#[test]
fn harness_default_disabled_mode_returns_not_executed() {
    let result = build_sandbox_restore_harness_plan(&disabled_request());
    assert_eq!(result.status, SandboxRestoreHarnessStatus::NotExecuted);
    assert!(!result.gate_armed);
    assert!(!result.writes_enabled);
    assert!(!result.reads_enabled);
    assert!(result.no_changes_made);
    assert!(!result.network_reads_attempted);
    assert!(!result.network_writes_attempted);
}

#[test]
fn harness_disabled_write_gate_remains_disabled() {
    let result = build_sandbox_restore_harness_plan(&disabled_request());
    assert!(result.safety_snapshot.write_gate_disabled);
    assert!(!result.safety_snapshot.gate_armed);
}

#[test]
fn harness_disabled_has_no_blocked_reason() {
    let result = build_sandbox_restore_harness_plan(&disabled_request());
    assert!(result.blocked_reason.is_none());
}

// ── ReadyNotExecuted when all prereqs satisfied ───────────────────────────

#[test]
fn harness_all_prereqs_returns_ready_not_executed() {
    let result = build_sandbox_restore_harness_plan(&all_prereqs_request());
    assert_eq!(result.status, SandboxRestoreHarnessStatus::ReadyNotExecuted);
    assert!(!result.gate_armed);
    assert!(!result.writes_enabled);
    assert!(!result.reads_enabled);
    assert!(result.no_changes_made);
    assert!(!result.network_reads_attempted);
    assert!(!result.network_writes_attempted);
    assert!(result.blocked_reason.is_none());
}

#[test]
fn harness_ready_not_executed_is_not_enabled() {
    let result = build_sandbox_restore_harness_plan(&all_prereqs_request());
    assert!(!result.gate_armed);
    assert!(!result.writes_enabled);
    assert!(!result.reads_enabled);
    assert!(!result.network_reads_attempted);
    assert!(!result.network_writes_attempted);
}

#[test]
fn harness_ready_not_executed_message_says_not_armed() {
    let result = build_sandbox_restore_harness_plan(&all_prereqs_request());
    assert!(
        result.message.contains("NOT armed"),
        "message must say NOT armed, got: {}",
        result.message
    );
    assert!(
        result.message.contains("NOT enabled"),
        "message must say NOT enabled, got: {}",
        result.message
    );
}

#[test]
fn harness_ready_not_executed_message_says_pending() {
    let result = build_sandbox_restore_harness_plan(&all_prereqs_request());
    assert!(
        result.message.contains("remains pending"),
        "message must say execution remains pending, got: {}",
        result.message
    );
}

#[test]
fn harness_write_gate_still_disabled_when_ready() {
    let result = build_sandbox_restore_harness_plan(&all_prereqs_request());
    assert!(result.safety_snapshot.write_gate_disabled);
    assert!(!result.safety_snapshot.gate_armed);
}

#[test]
fn harness_gate_contract_eligible_when_ready() {
    let result = build_sandbox_restore_harness_plan(&all_prereqs_request());
    assert!(result.safety_snapshot.gate_contract_evaluated);
    assert!(result.safety_snapshot.gate_contract_eligible);
}

#[test]
fn harness_orchestrator_not_executed_when_ready() {
    let result = build_sandbox_restore_harness_plan(&all_prereqs_request());
    assert!(result.safety_snapshot.orchestrator_not_executed);
}

#[test]
fn harness_all_phase_representations_true_when_ready() {
    let result = build_sandbox_restore_harness_plan(&all_prereqs_request());
    assert!(result.safety_snapshot.schema_phase_represented);
    assert!(result.safety_snapshot.record_phase_represented);
    assert!(result.safety_snapshot.linked_phase_represented);
    assert!(result.safety_snapshot.final_validation_phase_represented);
    assert!(result.safety_snapshot.checkpoint_phase_represented);
}

// ── Blocked when gate contract not eligible ───────────────────────────────

#[test]
fn harness_blocked_when_sandbox_not_safe() {
    let mut req = all_prereqs_request();
    req.sandbox_verification_safe = false;
    let result = build_sandbox_restore_harness_plan(&req);
    assert_eq!(result.status, SandboxRestoreHarnessStatus::Blocked);
    assert!(!result.gate_armed);
    assert!(!result.writes_enabled);
}

#[test]
fn harness_blocked_when_target_not_empty() {
    let mut req = all_prereqs_request();
    req.target_empty_safe = false;
    let result = build_sandbox_restore_harness_plan(&req);
    assert_eq!(result.status, SandboxRestoreHarnessStatus::Blocked);
}

#[test]
fn harness_blocked_when_confirmation_not_declared() {
    let mut req = all_prereqs_request();
    req.confirmation_gate_declared = false;
    let result = build_sandbox_restore_harness_plan(&req);
    assert_eq!(result.status, SandboxRestoreHarnessStatus::Blocked);
}

#[test]
fn harness_blocked_when_destructive_policy_unsafe() {
    let mut req = all_prereqs_request();
    req.destructive_operation_policy_safe = false;
    let result = build_sandbox_restore_harness_plan(&req);
    assert_eq!(result.status, SandboxRestoreHarnessStatus::Blocked);
}

#[test]
fn harness_blocked_when_attachment_phase_unsafe() {
    let mut req = all_prereqs_request();
    req.attachment_phase_disabled_safe = false;
    let result = build_sandbox_restore_harness_plan(&req);
    assert_eq!(result.status, SandboxRestoreHarnessStatus::Blocked);
}

// ── Blocked when orchestrator prerequisites missing ────────────────────────

#[test]
fn harness_blocked_when_write_phase_ordering_unsafe() {
    let mut req = all_prereqs_request();
    req.write_phase_ordering_safe = false;
    let result = build_sandbox_restore_harness_plan(&req);
    assert_eq!(result.status, SandboxRestoreHarnessStatus::Blocked);
    assert!(result
        .blocked_reason
        .as_deref()
        .unwrap_or("")
        .contains("Orchestrator"));
}

#[test]
fn harness_blocked_when_failure_modes_unsafe() {
    let mut req = all_prereqs_request();
    req.failure_modes_safe = false;
    let result = build_sandbox_restore_harness_plan(&req);
    assert_eq!(result.status, SandboxRestoreHarnessStatus::Blocked);
}

#[test]
fn harness_blocked_when_rollback_limitation_unsafe() {
    let mut req = all_prereqs_request();
    req.rollback_limitation_safe = false;
    let result = build_sandbox_restore_harness_plan(&req);
    assert_eq!(result.status, SandboxRestoreHarnessStatus::Blocked);
}

// ── Write gate invariants ─────────────────────────────────────────────────

#[test]
fn harness_evaluate_write_gate_returns_disabled_by_default() {
    let gate = evaluate_write_gate();
    assert!(matches!(gate.status, RestoreWriteEngineStatus::Disabled));
}

#[test]
fn harness_gate_armed_is_always_false() {
    let result_disabled = build_sandbox_restore_harness_plan(&disabled_request());
    let result_ready = build_sandbox_restore_harness_plan(&all_prereqs_request());
    assert!(!result_disabled.gate_armed);
    assert!(!result_ready.gate_armed);
    assert!(!result_disabled.safety_snapshot.gate_armed);
    assert!(!result_ready.safety_snapshot.gate_armed);
}

#[test]
fn harness_writes_enabled_always_false() {
    let result_disabled = build_sandbox_restore_harness_plan(&disabled_request());
    let result_ready = build_sandbox_restore_harness_plan(&all_prereqs_request());
    assert!(!result_disabled.writes_enabled);
    assert!(!result_ready.writes_enabled);
}

#[test]
fn harness_reads_enabled_always_false() {
    let result_disabled = build_sandbox_restore_harness_plan(&disabled_request());
    let result_ready = build_sandbox_restore_harness_plan(&all_prereqs_request());
    assert!(!result_disabled.reads_enabled);
    assert!(!result_ready.reads_enabled);
}

#[test]
fn harness_no_network_reads_attempted() {
    let result_disabled = build_sandbox_restore_harness_plan(&disabled_request());
    let result_ready = build_sandbox_restore_harness_plan(&all_prereqs_request());
    assert!(!result_disabled.network_reads_attempted);
    assert!(!result_ready.network_reads_attempted);
}

#[test]
fn harness_no_network_writes_attempted() {
    let result_disabled = build_sandbox_restore_harness_plan(&disabled_request());
    let result_ready = build_sandbox_restore_harness_plan(&all_prereqs_request());
    assert!(!result_disabled.network_writes_attempted);
    assert!(!result_ready.network_writes_attempted);
}

#[test]
fn harness_no_changes_made_always_true() {
    let result_disabled = build_sandbox_restore_harness_plan(&disabled_request());
    let result_ready = build_sandbox_restore_harness_plan(&all_prereqs_request());
    assert!(result_disabled.no_changes_made);
    assert!(result_ready.no_changes_made);
}

// ── Phase structure ───────────────────────────────────────────────────────

#[test]
fn harness_phase_count_is_eight_when_ready() {
    let result = build_sandbox_restore_harness_plan(&all_prereqs_request());
    assert_eq!(result.total_phase_count, 8);
    assert_eq!(result.phases.len(), 8);
}

#[test]
fn harness_phase_ordering_deterministic() {
    let r1 = build_sandbox_restore_harness_plan(&all_prereqs_request());
    let r2 = build_sandbox_restore_harness_plan(&all_prereqs_request());
    let ids1: Vec<_> = r1.phases.iter().map(|p| &p.phase_id).collect();
    let ids2: Vec<_> = r2.phases.iter().map(|p| &p.phase_id).collect();
    assert_eq!(ids1, ids2);
}

#[test]
fn harness_first_phase_is_gate_contract() {
    let result = build_sandbox_restore_harness_plan(&all_prereqs_request());
    assert_eq!(result.phases[0].phase_id, SRH_PHASE_GATE_CONTRACT);
}

#[test]
fn harness_last_phase_is_final_guard() {
    let result = build_sandbox_restore_harness_plan(&all_prereqs_request());
    let last = result.phases.last().expect("phases not empty");
    assert_eq!(last.phase_id, SRH_PHASE_FINAL_GUARD);
}

#[test]
fn harness_phase_ids_use_srh_prefix() {
    let result = build_sandbox_restore_harness_plan(&all_prereqs_request());
    for phase in &result.phases {
        assert!(
            phase.phase_id.starts_with("SRH-PH-"),
            "phase_id must start with SRH-PH-, got: {}",
            phase.phase_id
        );
    }
}

#[test]
fn harness_pending_count_consistent() {
    let result = build_sandbox_restore_harness_plan(&all_prereqs_request());
    let actual_pending = result
        .phases
        .iter()
        .filter(|p| matches!(p.status, SandboxRestoreHarnessPhaseStatus::Pending))
        .count();
    assert_eq!(result.pending_phase_count, actual_pending);
}

// ── No Airtable client called ─────────────────────────────────────────────

#[test]
fn harness_no_airtable_client_called_when_ready() {
    let result = build_sandbox_restore_harness_plan(&all_prereqs_request());
    assert_eq!(result.status, SandboxRestoreHarnessStatus::ReadyNotExecuted);
    assert!(!result.network_reads_attempted);
    assert!(!result.network_writes_attempted);
    assert!(result.no_changes_made);
}

#[test]
fn harness_no_airtable_client_called_when_blocked() {
    let mut req = all_prereqs_request();
    req.sandbox_verification_safe = false;
    let result = build_sandbox_restore_harness_plan(&req);
    assert!(!result.network_reads_attempted);
    assert!(!result.network_writes_attempted);
    assert!(result.no_changes_made);
}

#[test]
fn harness_no_airtable_client_called_when_disabled() {
    let result = build_sandbox_restore_harness_plan(&disabled_request());
    assert!(!result.network_reads_attempted);
    assert!(!result.network_writes_attempted);
    assert!(result.no_changes_made);
}

#[test]
fn harness_total_and_pending_counts_consistent() {
    let result = build_sandbox_restore_harness_plan(&all_prereqs_request());
    assert_eq!(result.total_phase_count, result.phases.len());
    let actual_pending = result
        .phases
        .iter()
        .filter(|p| matches!(p.status, SandboxRestoreHarnessPhaseStatus::Pending))
        .count();
    assert_eq!(result.pending_phase_count, actual_pending);
}
