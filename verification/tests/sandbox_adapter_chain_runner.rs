use airbridge_restore::linked_second_pass_execution_preview::{LinkedSecondPassFieldSummary};
use airbridge_restore::record_write_requests::{RecordWriteBlockedReason, RecordWriteOperation, RecordWriteOperationKind, RecordWriteOperationStatus, RecordWriteRequestPlan};
use airbridge_restore::sandbox_adapter_chain_runner::{CHK_EXPLICIT_FLAG, CHK_FINAL_VALIDATION_ADAPTER, CHK_LINKED_ADAPTER, CHK_MODE, CHK_RECORD_ADAPTER, CHK_SCHEMA_ADAPTER, CHK_SIMULATOR, SandboxAdapterChainRunnerMode, SandboxAdapterChainRunnerRequest, SandboxAdapterChainRunnerStatus, run_sandbox_adapter_chain};
use airbridge_restore::schema_write_requests::{SchemaWriteBlockedReason, SchemaWriteOperation, SchemaWriteOperationKind, SchemaWriteOperationStatus, SchemaWriteRequestPlan};
use airbridge_restore::write_gate::{RestoreWriteEngineStatus, evaluate_write_gate};

fn simple_schema_plan() -> SchemaWriteRequestPlan {
    SchemaWriteRequestPlan {
        filename: "backup.airbridge".to_string(),
        status: SchemaWriteOperationStatus::Ready,
        blocked_reason: None,
        operations: vec![
            SchemaWriteOperation {
                kind: SchemaWriteOperationKind::CreateTable,
                table_name: "Tasks".to_string(),
                field_name: None,
                field_type: None,
            },
            SchemaWriteOperation {
                kind: SchemaWriteOperationKind::CreateField,
                table_name: "Tasks".to_string(),
                field_name: Some("Name".to_string()),
                field_type: Some("singleLineText".to_string()),
            },
        ],
        table_op_count: 1,
        field_op_count: 1,
        deferred_op_count: 0,
        manual_action_count: 0,
        total_op_count: 2,
        warnings: vec![],
        no_changes_made: true,
        network_writes_attempted: false,
    }
}

fn simple_record_plan() -> RecordWriteRequestPlan {
    RecordWriteRequestPlan {
        filename: "backup.airbridge".to_string(),
        status: RecordWriteOperationStatus::Ready,
        blocked_reason: None,
        operations: vec![RecordWriteOperation {
            kind: RecordWriteOperationKind::CreateRecordBatch,
            table_name: "Tasks".to_string(),
            planned_record_count: Some(10),
            batch_index: Some(0),
        }],
        create_batch_op_count: 1,
        linked_update_op_count: 0,
        checkpoint_op_count: 0,
        attachment_op_count: 0,
        skipped_field_op_count: 0,
        total_op_count: 1,
        total_first_pass_batches: 1,
        total_second_pass_batches: 0,
        warnings: vec![],
        no_changes_made: true,
        network_writes_attempted: false,
    }
}

fn simple_field_summaries() -> Vec<LinkedSecondPassFieldSummary> {
    vec![LinkedSecondPassFieldSummary {
        table_label: "Projects".to_string(),
        field_label: "Tasks".to_string(),
        record_count: 5,
        batch_count: 1,
        unresolved_link_count: 0,
    }]
}

fn full_request() -> SandboxAdapterChainRunnerRequest {
    SandboxAdapterChainRunnerRequest {
        mode: SandboxAdapterChainRunnerMode::MockInternalOnly,
        explicit_internal_mock_chain_requested: true,
        sandbox_verified: true,
        target_base_empty: true,
        mapping_coverage_sufficient: true,
        final_validation_enforcement_safe: true,
        confirmation_gate_declared: true,
        destructive_operation_policy_safe: true,
        attachment_phase_disabled_safe: true,
        live_write_readiness_safe: true,
        write_phase_ordering_safe: true,
        failure_modes_safe: true,
        rollback_limitation_safe: true,
        checkpoint_durability_safe: true,
        sensitive_data_safe: true,
        rate_limit_backoff_safe: true,
        schema_executor_safe: true,
        checkpoint_store_safe: true,
        record_executor_safe: true,
        linked_executor_safe: true,
        linked_second_pass_preview_ready: true,
        mapping_checkpoint_preview_ready: true,
        field_summaries: simple_field_summaries(),
        table_count: 2,
        field_count: 5,
        record_count: 10,
        id_mapping_entry_count: 10,
        linked_coverage_count: 5,
        attachment_metadata_count: 2,
        manifest_present: true,
    }
}

fn disabled_request() -> SandboxAdapterChainRunnerRequest {
    SandboxAdapterChainRunnerRequest {
        mode: SandboxAdapterChainRunnerMode::Disabled,
        explicit_internal_mock_chain_requested: false,
        sandbox_verified: false,
        target_base_empty: false,
        mapping_coverage_sufficient: false,
        final_validation_enforcement_safe: false,
        confirmation_gate_declared: false,
        destructive_operation_policy_safe: false,
        attachment_phase_disabled_safe: false,
        live_write_readiness_safe: false,
        write_phase_ordering_safe: false,
        failure_modes_safe: false,
        rollback_limitation_safe: false,
        checkpoint_durability_safe: false,
        sensitive_data_safe: false,
        rate_limit_backoff_safe: false,
        schema_executor_safe: false,
        checkpoint_store_safe: false,
        record_executor_safe: false,
        linked_executor_safe: false,
        linked_second_pass_preview_ready: false,
        mapping_checkpoint_preview_ready: false,
        field_summaries: vec![],
        table_count: 0,
        field_count: 0,
        record_count: 0,
        id_mapping_entry_count: 0,
        linked_coverage_count: 0,
        attachment_metadata_count: 0,
        manifest_present: false,
    }
}

// ── Default blocked path ───────────────────────────────────────────────────

#[test]
fn default_disabled_request_returns_blocked() {
    let sp = simple_schema_plan();
    let rp = simple_record_plan();
    let result = run_sandbox_adapter_chain(&disabled_request(), &sp, &rp);
    assert_eq!(result.status, SandboxAdapterChainRunnerStatus::Blocked);
}

#[test]
fn disabled_mode_returns_blocked_with_mode_disabled() {
    let sp = simple_schema_plan();
    let rp = simple_record_plan();
    let result = run_sandbox_adapter_chain(&disabled_request(), &sp, &rp);
    assert_eq!(result.status, SandboxAdapterChainRunnerStatus::Blocked);
    assert_eq!(result.mode, SandboxAdapterChainRunnerMode::Disabled);
    let reason = result.blocked_reason.unwrap_or_default();
    assert!(reason.contains(CHK_MODE));
}

// ── Explicit flag check ────────────────────────────────────────────────────

#[test]
fn sandbox_adapter_chain_runner_missing_explicit_flag_returns_blocked() {
    let sp = simple_schema_plan();
    let rp = simple_record_plan();
    let mut req = full_request();
    req.explicit_internal_mock_chain_requested = false;
    let result = run_sandbox_adapter_chain(&req, &sp, &rp);
    assert_eq!(result.status, SandboxAdapterChainRunnerStatus::Blocked);
    let reason = result.blocked_reason.unwrap_or_default();
    assert!(reason.contains(CHK_EXPLICIT_FLAG));
}

// ── Simulator blocked causes blocked ──────────────────────────────────────

#[test]
fn simulator_blocked_causes_blocked() {
    let sp = simple_schema_plan();
    let rp = simple_record_plan();
    let mut req = full_request();
    req.failure_modes_safe = false;
    let result = run_sandbox_adapter_chain(&req, &sp, &rp);
    assert_eq!(result.status, SandboxAdapterChainRunnerStatus::Blocked);
    let reason = result.blocked_reason.unwrap_or_default();
    assert!(reason.contains(CHK_SIMULATOR));
}

// ── Schema adapter not ready causes blocked ───────────────────────────────

#[test]
fn sandbox_adapter_chain_runner_schema_adapter_not_ready_causes_blocked() {
    let mut sp = simple_schema_plan();
    sp.status = SchemaWriteOperationStatus::Blocked;
    sp.blocked_reason = Some(SchemaWriteBlockedReason::SchemaPlanNotReady);
    let rp = simple_record_plan();
    let result = run_sandbox_adapter_chain(&full_request(), &sp, &rp);
    assert_eq!(result.status, SandboxAdapterChainRunnerStatus::Blocked);
    let reason = result.blocked_reason.unwrap_or_default();
    assert!(reason.contains(CHK_SCHEMA_ADAPTER));
}

// ── Record adapter not ready causes blocked ───────────────────────────────

#[test]
fn sandbox_adapter_chain_runner_record_adapter_not_ready_causes_blocked() {
    let sp = simple_schema_plan();
    let mut rp = simple_record_plan();
    rp.status = RecordWriteOperationStatus::Blocked;
    rp.blocked_reason = Some(RecordWriteBlockedReason::RecordImportPlanNotReady);
    let result = run_sandbox_adapter_chain(&full_request(), &sp, &rp);
    assert_eq!(result.status, SandboxAdapterChainRunnerStatus::Blocked);
    let reason = result.blocked_reason.unwrap_or_default();
    assert!(reason.contains(CHK_RECORD_ADAPTER));
}

// ── Linked adapter not ready causes blocked ───────────────────────────────

#[test]
fn sandbox_adapter_chain_runner_linked_adapter_not_ready_causes_blocked() {
    let sp = simple_schema_plan();
    let rp = simple_record_plan();
    let mut req = full_request();
    req.mapping_coverage_sufficient = false;
    let result = run_sandbox_adapter_chain(&req, &sp, &rp);
    assert_eq!(result.status, SandboxAdapterChainRunnerStatus::Blocked);
    let reason = result.blocked_reason.unwrap_or_default();
    assert!(reason.contains(CHK_LINKED_ADAPTER));
}

// ── Final validation adapter not ready causes blocked ─────────────────────

#[test]
fn final_validation_adapter_not_ready_causes_blocked() {
    // Block the schema plan so the final validation adapter probe returns blocked
    // (since it internally probes the schema adapter as well).
    let mut sp = simple_schema_plan();
    sp.status = SchemaWriteOperationStatus::Blocked;
    sp.blocked_reason = Some(SchemaWriteBlockedReason::SchemaPlanNotReady);
    let rp = simple_record_plan();
    // To reach CHK_FINAL_VALIDATION_ADAPTER we need schema/record/linked all
    // ready but final validation blocked. Use a full request so the first three
    // pass, but pass a broken schema plan so only the final validation adapter
    // sees the failure. Because schema adapter is probed at SACR-CHK-05 before
    // final validation, this test actually hits CHK_SCHEMA_ADAPTER. To isolate
    // CHK_FINAL_VALIDATION_ADAPTER, we need the final validation adapter to fail
    // independently. Removing linked_executor_safe while all others pass will
    // cause the final validation reader probe to block inside the final validation
    // adapter without affecting the earlier three adapters.
    let sp = simple_schema_plan();
    let mut req = full_request();
    req.linked_executor_safe = false;
    req.record_executor_safe = true;
    let result = run_sandbox_adapter_chain(&req, &sp, &rp);
    assert_eq!(result.status, SandboxAdapterChainRunnerStatus::Blocked);
    let reason = result.blocked_reason.unwrap_or_default();
    assert!(reason.contains(CHK_FINAL_VALIDATION_ADAPTER));
}

// ── evaluate_write_gate remains Disabled ──────────────────────────────────

#[test]
fn sandbox_adapter_chain_runner_evaluate_write_gate_default_remains_disabled() {
    let sp = simple_schema_plan();
    let rp = simple_record_plan();
    let _ = run_sandbox_adapter_chain(&full_request(), &sp, &rp);
    let gate = evaluate_write_gate();
    assert!(matches!(gate.status, RestoreWriteEngineStatus::Disabled));
}

// ── mockRunNotExecuted when all prerequisites satisfied ───────────────────

#[test]
fn mock_run_not_executed_when_all_prereqs_satisfied() {
    let sp = simple_schema_plan();
    let rp = simple_record_plan();
    let result = run_sandbox_adapter_chain(&full_request(), &sp, &rp);
    assert_eq!(
        result.status,
        SandboxAdapterChainRunnerStatus::MockRunNotExecuted
    );
}

// ── Phase ordering is deterministic ───────────────────────────────────────

#[test]
fn phase_ordering_is_deterministic() {
    let sp = simple_schema_plan();
    let rp = simple_record_plan();
    let r1 = run_sandbox_adapter_chain(&full_request(), &sp, &rp);
    let r2 = run_sandbox_adapter_chain(&full_request(), &sp, &rp);
    let ids1: Vec<_> = r1.phases.iter().map(|p| &p.phase_id).collect();
    let ids2: Vec<_> = r2.phases.iter().map(|p| &p.phase_id).collect();
    assert_eq!(ids1, ids2);
}

// ── All four adapter phases are represented ───────────────────────────────

#[test]
fn all_four_adapter_phases_represented() {
    let sp = simple_schema_plan();
    let rp = simple_record_plan();
    let result = run_sandbox_adapter_chain(&full_request(), &sp, &rp);
    assert_eq!(result.total_phase_count, 4);
    assert_eq!(result.phases.len(), 4);
    let ids: Vec<_> = result.phases.iter().map(|p| p.phase_id.as_str()).collect();
    assert!(ids.contains(&"SACR-PH-01"));
    assert!(ids.contains(&"SACR-PH-02"));
    assert!(ids.contains(&"SACR-PH-03"));
    assert!(ids.contains(&"SACR-PH-04"));
}

#[test]
fn phase_order_is_schema_record_linked_final_validation() {
    let sp = simple_schema_plan();
    let rp = simple_record_plan();
    let result = run_sandbox_adapter_chain(&full_request(), &sp, &rp);
    assert_eq!(result.phases[0].phase_id, "SACR-PH-01");
    assert_eq!(result.phases[1].phase_id, "SACR-PH-02");
    assert_eq!(result.phases[2].phase_id, "SACR-PH-03");
    assert_eq!(result.phases[3].phase_id, "SACR-PH-04");
}

// ── Safe operation counts reported without payloads ───────────────────────

#[test]
fn safe_operation_counts_reported() {
    let sp = simple_schema_plan();
    let rp = simple_record_plan();
    let result = run_sandbox_adapter_chain(&full_request(), &sp, &rp);
    // schema: 1 table + 1 field = 2 ops; record: 1 batch; final: 5+1+1=7 (manifest present)
    assert!(result.schema_operation_count > 0);
    assert!(result.final_validation_operation_count > 0);
    // phase operation_count matches result-level count
    assert_eq!(
        result.phases[0].operation_count,
        result.schema_operation_count
    );
    assert_eq!(
        result.phases[1].operation_count,
        result.record_operation_count
    );
    assert_eq!(
        result.phases[2].operation_count,
        result.linked_operation_count
    );
    assert_eq!(
        result.phases[3].operation_count,
        result.final_validation_operation_count
    );
}

// ── Safety invariants ─────────────────────────────────────────────────────

#[test]
fn runtime_execution_enabled_always_false() {
    let sp = simple_schema_plan();
    let rp = simple_record_plan();
    let r1 = run_sandbox_adapter_chain(&full_request(), &sp, &rp);
    let r2 = run_sandbox_adapter_chain(&disabled_request(), &sp, &rp);
    assert!(!r1.runtime_execution_enabled);
    assert!(!r2.runtime_execution_enabled);
}

#[test]
fn app_runtime_writes_enabled_always_false() {
    let sp = simple_schema_plan();
    let rp = simple_record_plan();
    let r1 = run_sandbox_adapter_chain(&full_request(), &sp, &rp);
    let r2 = run_sandbox_adapter_chain(&disabled_request(), &sp, &rp);
    assert!(!r1.app_runtime_writes_enabled);
    assert!(!r2.app_runtime_writes_enabled);
}

#[test]
fn app_runtime_reads_enabled_always_false() {
    let sp = simple_schema_plan();
    let rp = simple_record_plan();
    let r1 = run_sandbox_adapter_chain(&full_request(), &sp, &rp);
    let r2 = run_sandbox_adapter_chain(&disabled_request(), &sp, &rp);
    assert!(!r1.app_runtime_reads_enabled);
    assert!(!r2.app_runtime_reads_enabled);
}

#[test]
fn network_reads_attempted_always_false() {
    let sp = simple_schema_plan();
    let rp = simple_record_plan();
    let r1 = run_sandbox_adapter_chain(&full_request(), &sp, &rp);
    let r2 = run_sandbox_adapter_chain(&disabled_request(), &sp, &rp);
    assert!(!r1.network_reads_attempted);
    assert!(!r2.network_reads_attempted);
}

#[test]
fn sandbox_adapter_chain_runner_network_writes_attempted_always_false() {
    let sp = simple_schema_plan();
    let rp = simple_record_plan();
    let r1 = run_sandbox_adapter_chain(&full_request(), &sp, &rp);
    let r2 = run_sandbox_adapter_chain(&disabled_request(), &sp, &rp);
    assert!(!r1.network_writes_attempted);
    assert!(!r2.network_writes_attempted);
}

#[test]
fn sandbox_adapter_chain_runner_no_changes_made_always_true() {
    let sp = simple_schema_plan();
    let rp = simple_record_plan();
    let r1 = run_sandbox_adapter_chain(&full_request(), &sp, &rp);
    let r2 = run_sandbox_adapter_chain(&disabled_request(), &sp, &rp);
    assert!(r1.no_changes_made);
    assert!(r2.no_changes_made);
}

#[test]
fn airtable_client_called_always_false() {
    let sp = simple_schema_plan();
    let rp = simple_record_plan();
    let r1 = run_sandbox_adapter_chain(&full_request(), &sp, &rp);
    let r2 = run_sandbox_adapter_chain(&disabled_request(), &sp, &rp);
    assert!(!r1.airtable_client_called);
    assert!(!r2.airtable_client_called);
    assert!(!r1.safety_snapshot.airtable_client_called);
    assert!(!r2.safety_snapshot.airtable_client_called);
}

// ── Snapshot invariants ───────────────────────────────────────────────────

#[test]
fn sandbox_adapter_chain_runner_safety_snapshot_write_gate_disabled_always_true() {
    let sp = simple_schema_plan();
    let rp = simple_record_plan();
    let r1 = run_sandbox_adapter_chain(&full_request(), &sp, &rp);
    let r2 = run_sandbox_adapter_chain(&disabled_request(), &sp, &rp);
    assert!(r1.safety_snapshot.write_gate_disabled);
    assert!(r2.safety_snapshot.write_gate_disabled);
}

#[test]
fn sandbox_adapter_chain_runner_safety_snapshot_runtime_flags_always_false() {
    let sp = simple_schema_plan();
    let rp = simple_record_plan();
    let result = run_sandbox_adapter_chain(&full_request(), &sp, &rp);
    assert!(!result.safety_snapshot.runtime_execution_enabled);
    assert!(!result.safety_snapshot.app_runtime_writes_enabled);
    assert!(!result.safety_snapshot.app_runtime_reads_enabled);
    assert!(!result.safety_snapshot.network_reads_attempted);
    assert!(!result.safety_snapshot.network_writes_attempted);
    assert!(!result.safety_snapshot.airtable_client_called);
}

// ── No Tauri command or UI path ───────────────────────────────────────────

#[test]
fn sandbox_adapter_chain_runner_no_tauri_command_introduced() {
    // run_sandbox_adapter_chain accepts no HTTP transport, no token, no Tauri app
    // handle, and carries no #[tauri::command] attribute. Reaching this assertion
    // confirms no Tauri command is wired.
    let sp = simple_schema_plan();
    let rp = simple_record_plan();
    let result = run_sandbox_adapter_chain(&full_request(), &sp, &rp);
    assert_eq!(
        result.status,
        SandboxAdapterChainRunnerStatus::MockRunNotExecuted
    );
}

// ── No real Airtable client called ────────────────────────────────────────

#[test]
fn sandbox_adapter_chain_runner_no_real_airtable_client_called_in_default_path() {
    // run_sandbox_adapter_chain accepts no HTTP transport or token.
    // Reaching this assertion confirms no network call was made.
    let sp = simple_schema_plan();
    let rp = simple_record_plan();
    let result = run_sandbox_adapter_chain(&full_request(), &sp, &rp);
    assert!(!result.network_reads_attempted);
    assert!(!result.network_writes_attempted);
    assert!(!result.airtable_client_called);
}

// ── Two independent calls produce independent results ─────────────────────

#[test]
fn two_independent_calls_produce_independent_results() {
    let sp = simple_schema_plan();
    let rp = simple_record_plan();
    let r1 = run_sandbox_adapter_chain(&full_request(), &sp, &rp);
    let r2 = run_sandbox_adapter_chain(&full_request(), &sp, &rp);
    assert_eq!(
        r1.status,
        SandboxAdapterChainRunnerStatus::MockRunNotExecuted
    );
    assert_eq!(
        r2.status,
        SandboxAdapterChainRunnerStatus::MockRunNotExecuted
    );
    let gate = evaluate_write_gate();
    assert!(matches!(gate.status, RestoreWriteEngineStatus::Disabled));
}

// ── Message says execution pending ────────────────────────────────────────

#[test]
fn message_says_execution_pending() {
    let sp = simple_schema_plan();
    let rp = simple_record_plan();
    let result = run_sandbox_adapter_chain(&full_request(), &sp, &rp);
    assert!(
        result.message.contains("remains separate pending work"),
        "message must say live execution remains pending, got: {}",
        result.message
    );
}
