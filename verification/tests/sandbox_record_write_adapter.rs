use airbridge_restore::record_write_requests::{RecordWriteBlockedReason, RecordWriteOperation, RecordWriteOperationKind, RecordWriteOperationStatus, RecordWriteRequestPlan};
use airbridge_restore::sandbox_record_write_adapter::{CHK_ARMING, CHK_EXPLICIT_FLAG, CHK_RECORD_EXECUTOR, CHK_SCHEMA_ADAPTER, MockRecordWriteAdapter, NoOpRecordWriteAdapter, RecordWriteAdapter, SandboxRecordWriteAdapterMode, SandboxRecordWriteAdapterRequest, SandboxRecordWriteAdapterStatus, build_sandbox_record_write_adapter};
use airbridge_restore::schema_write_requests::{SchemaWriteBlockedReason, SchemaWriteOperation, SchemaWriteOperationKind, SchemaWriteOperationStatus, SchemaWriteRequestPlan};
use airbridge_restore::write_gate::{RestoreWriteEngineStatus, evaluate_write_gate};

fn simple_record_plan() -> RecordWriteRequestPlan {
    RecordWriteRequestPlan {
        filename: "backup.airbridge".to_string(),
        status: RecordWriteOperationStatus::Ready,
        blocked_reason: None,
        operations: vec![RecordWriteOperation {
            kind: RecordWriteOperationKind::CreateRecordBatch,
            table_name: "Tasks".to_string(),
            planned_record_count: Some(10),
            batch_index: Some(0),
        }],
        create_batch_op_count: 1,
        linked_update_op_count: 0,
        checkpoint_op_count: 0,
        attachment_op_count: 0,
        skipped_field_op_count: 0,
        total_op_count: 1,
        total_first_pass_batches: 1,
        total_second_pass_batches: 0,
        warnings: vec![],
        no_changes_made: true,
        network_writes_attempted: false,
    }
}

fn blocked_record_plan() -> RecordWriteRequestPlan {
    let mut plan = simple_record_plan();
    plan.status = RecordWriteOperationStatus::Blocked;
    plan.blocked_reason = Some(RecordWriteBlockedReason::RecordImportPlanNotReady);
    plan
}

fn simple_schema_plan() -> SchemaWriteRequestPlan {
    SchemaWriteRequestPlan {
        filename: "backup.airbridge".to_string(),
        status: SchemaWriteOperationStatus::Ready,
        blocked_reason: None,
        operations: vec![
            SchemaWriteOperation {
                kind: SchemaWriteOperationKind::CreateTable,
                table_name: "Tasks".to_string(),
                field_name: None,
                field_type: None,
            },
            SchemaWriteOperation {
                kind: SchemaWriteOperationKind::CreateField,
                table_name: "Tasks".to_string(),
                field_name: Some("Name".to_string()),
                field_type: Some("singleLineText".to_string()),
            },
        ],
        table_op_count: 1,
        field_op_count: 1,
        deferred_op_count: 0,
        manual_action_count: 0,
        total_op_count: 2,
        warnings: vec![],
        no_changes_made: true,
        network_writes_attempted: false,
    }
}

fn full_request() -> SandboxRecordWriteAdapterRequest {
    SandboxRecordWriteAdapterRequest {
        mode: SandboxRecordWriteAdapterMode::SandboxOnlyInternal,
        explicit_internal_record_sandbox_call_requested: true,
        sandbox_verified: true,
        target_base_empty: true,
        confirmation_gate_declared: true,
        destructive_operation_policy_safe: true,
        attachment_phase_disabled_safe: true,
        live_write_readiness_safe: true,
        write_phase_ordering_safe: true,
        failure_modes_safe: true,
        rollback_limitation_safe: true,
        checkpoint_durability_safe: true,
        sensitive_data_safe: true,
        final_validation_enforcement_safe: true,
        rate_limit_backoff_safe: true,
        schema_executor_safe: true,
        checkpoint_store_safe: true,
    }
}

fn disabled_request() -> SandboxRecordWriteAdapterRequest {
    SandboxRecordWriteAdapterRequest {
        mode: SandboxRecordWriteAdapterMode::Disabled,
        explicit_internal_record_sandbox_call_requested: false,
        sandbox_verified: false,
        target_base_empty: false,
        confirmation_gate_declared: false,
        destructive_operation_policy_safe: false,
        attachment_phase_disabled_safe: false,
        live_write_readiness_safe: false,
        write_phase_ordering_safe: false,
        failure_modes_safe: false,
        rollback_limitation_safe: false,
        checkpoint_durability_safe: false,
        sensitive_data_safe: false,
        final_validation_enforcement_safe: false,
        rate_limit_backoff_safe: false,
        schema_executor_safe: false,
        checkpoint_store_safe: false,
    }
}

// ── Default blocked path ───────────────────────────────────────────────────

#[test]
fn sandbox_record_write_adapter_default_disabled_request_returns_not_executed() {
    let rp = simple_record_plan();
    let sp = simple_schema_plan();
    let result = build_sandbox_record_write_adapter(&disabled_request(), &rp, &sp);
    assert_eq!(result.status, SandboxRecordWriteAdapterStatus::NotExecuted);
}

#[test]
fn sandbox_record_write_adapter_disabled_mode_returns_not_executed_with_mode_disabled() {
    let rp = simple_record_plan();
    let sp = simple_schema_plan();
    let result = build_sandbox_record_write_adapter(&disabled_request(), &rp, &sp);
    assert_eq!(result.status, SandboxRecordWriteAdapterStatus::NotExecuted);
    assert_eq!(result.mode, SandboxRecordWriteAdapterMode::Disabled);
}

#[test]
fn missing_explicit_record_sandbox_flag_returns_blocked() {
    let rp = simple_record_plan();
    let sp = simple_schema_plan();
    let mut req = full_request();
    req.explicit_internal_record_sandbox_call_requested = false;
    let result = build_sandbox_record_write_adapter(&req, &rp, &sp);
    assert_eq!(result.status, SandboxRecordWriteAdapterStatus::Blocked);
    let reason = result.blocked_reason.unwrap_or_default();
    assert!(reason.contains(CHK_EXPLICIT_FLAG));
}

// ── Arming blocked propagates ─────────────────────────────────────────────

#[test]
fn sandbox_record_write_adapter_arming_prereq_failure_causes_blocked() {
    let rp = simple_record_plan();
    let sp = simple_schema_plan();
    let mut req = full_request();
    req.sandbox_verified = false;
    let result = build_sandbox_record_write_adapter(&req, &rp, &sp);
    assert_eq!(result.status, SandboxRecordWriteAdapterStatus::Blocked);
    let reason = result.blocked_reason.unwrap_or_default();
    assert!(reason.contains(CHK_ARMING));
}

// ── Simulator blocked propagates ──────────────────────────────────────────

#[test]
fn sandbox_record_write_adapter_simulator_prereq_failure_causes_blocked() {
    let rp = simple_record_plan();
    let sp = simple_schema_plan();
    let mut req = full_request();
    req.failure_modes_safe = false;
    let result = build_sandbox_record_write_adapter(&req, &rp, &sp);
    assert_eq!(result.status, SandboxRecordWriteAdapterStatus::Blocked);
    let reason = result.blocked_reason.unwrap_or_default();
    assert!(reason.contains("SRWA-CHK-"));
}

// ── Record executor blocked propagates ────────────────────────────────────

#[test]
fn record_executor_blocked_plan_causes_blocked() {
    let rp = blocked_record_plan();
    let sp = simple_schema_plan();
    let result = build_sandbox_record_write_adapter(&full_request(), &rp, &sp);
    assert_eq!(result.status, SandboxRecordWriteAdapterStatus::Blocked);
    let reason = result.blocked_reason.unwrap_or_default();
    assert!(reason.contains(CHK_RECORD_EXECUTOR));
}

// ── Schema adapter not ready causes blocked ───────────────────────────────

#[test]
fn sandbox_record_write_adapter_schema_adapter_not_ready_causes_blocked() {
    let rp = simple_record_plan();
    let mut sp = simple_schema_plan();
    sp.status = SchemaWriteOperationStatus::Blocked;
    sp.blocked_reason = Some(SchemaWriteBlockedReason::SchemaPlanNotReady);
    let result = build_sandbox_record_write_adapter(&full_request(), &rp, &sp);
    assert_eq!(result.status, SandboxRecordWriteAdapterStatus::Blocked);
    let reason = result.blocked_reason.unwrap_or_default();
    assert!(reason.contains(CHK_SCHEMA_ADAPTER));
}

// ── Target not empty causes blocked ──────────────────────────────────────

#[test]
fn sandbox_record_write_adapter_target_not_empty_causes_blocked() {
    let rp = simple_record_plan();
    let sp = simple_schema_plan();
    let mut req = full_request();
    req.target_base_empty = false;
    let result = build_sandbox_record_write_adapter(&req, &rp, &sp);
    assert_eq!(result.status, SandboxRecordWriteAdapterStatus::Blocked);
}

// ── Sandbox not verified causes blocked ───────────────────────────────────

#[test]
fn sandbox_record_write_adapter_sandbox_not_verified_causes_blocked() {
    let rp = simple_record_plan();
    let sp = simple_schema_plan();
    let mut req = full_request();
    req.sandbox_verified = false;
    let result = build_sandbox_record_write_adapter(&req, &rp, &sp);
    assert_eq!(result.status, SandboxRecordWriteAdapterStatus::Blocked);
}

// ── evaluate_write_gate() remains Disabled ────────────────────────────────

#[test]
fn sandbox_record_write_adapter_evaluate_write_gate_default_remains_disabled() {
    let rp = simple_record_plan();
    let sp = simple_schema_plan();
    let _ = build_sandbox_record_write_adapter(&full_request(), &rp, &sp);
    let gate = evaluate_write_gate();
    assert!(matches!(gate.status, RestoreWriteEngineStatus::Disabled));
}

// ── readyForSandboxCall when all prereqs satisfied ────────────────────────

#[test]
fn sandbox_record_write_adapter_ready_for_sandbox_call_when_all_prereqs_satisfied() {
    let rp = simple_record_plan();
    let sp = simple_schema_plan();
    let result = build_sandbox_record_write_adapter(&full_request(), &rp, &sp);
    assert_eq!(
        result.status,
        SandboxRecordWriteAdapterStatus::ReadyForSandboxCall
    );
}

// ── Safety invariants on readyForSandboxCall ──────────────────────────────

#[test]
fn sandbox_record_write_adapter_ready_for_sandbox_call_runtime_execution_enabled_false() {
    let rp = simple_record_plan();
    let sp = simple_schema_plan();
    let result = build_sandbox_record_write_adapter(&full_request(), &rp, &sp);
    assert!(!result.runtime_execution_enabled);
}

#[test]
fn sandbox_record_write_adapter_ready_for_sandbox_call_app_runtime_writes_enabled_false() {
    let rp = simple_record_plan();
    let sp = simple_schema_plan();
    let result = build_sandbox_record_write_adapter(&full_request(), &rp, &sp);
    assert!(!result.app_runtime_writes_enabled);
}

#[test]
fn sandbox_record_write_adapter_ready_for_sandbox_call_app_runtime_reads_enabled_false() {
    let rp = simple_record_plan();
    let sp = simple_schema_plan();
    let result = build_sandbox_record_write_adapter(&full_request(), &rp, &sp);
    assert!(!result.app_runtime_reads_enabled);
}

#[test]
fn sandbox_record_write_adapter_no_network_writes_attempted_by_default() {
    let rp = simple_record_plan();
    let sp = simple_schema_plan();
    let result = build_sandbox_record_write_adapter(&full_request(), &rp, &sp);
    assert!(!result.network_writes_attempted);
}

#[test]
fn sandbox_record_write_adapter_no_changes_made_always_true() {
    let rp = simple_record_plan();
    let sp = simple_schema_plan();
    let result = build_sandbox_record_write_adapter(&full_request(), &rp, &sp);
    assert!(result.no_changes_made);
}

// ── Safety invariants in blocked/not-executed paths ───────────────────────

#[test]
fn sandbox_record_write_adapter_no_changes_made_true_in_blocked_path() {
    let rp = simple_record_plan();
    let sp = simple_schema_plan();
    let mut req = full_request();
    req.explicit_internal_record_sandbox_call_requested = false;
    let result = build_sandbox_record_write_adapter(&req, &rp, &sp);
    assert!(result.no_changes_made);
    assert!(!result.network_writes_attempted);
}

#[test]
fn sandbox_record_write_adapter_no_changes_made_true_in_not_executed_path() {
    let rp = simple_record_plan();
    let sp = simple_schema_plan();
    let result = build_sandbox_record_write_adapter(&disabled_request(), &rp, &sp);
    assert!(result.no_changes_made);
    assert!(!result.network_writes_attempted);
}

// ── Only first-pass create operations accepted ────────────────────────────

#[test]
fn only_create_record_batch_descriptor_in_operations() {
    let rp = simple_record_plan();
    let sp = simple_schema_plan();
    let result = build_sandbox_record_write_adapter(&full_request(), &rp, &sp);
    for op in &result.operations {
        assert_eq!(
            op.operation_kind, "createRecordBatchDescriptor",
            "unexpected operation kind: {}",
            op.operation_kind
        );
    }
}

// ── Operation ordering is deterministic ───────────────────────────────────

#[test]
fn sandbox_record_write_adapter_operation_ordering_is_deterministic() {
    let rp = simple_record_plan();
    let sp = simple_schema_plan();
    let r1 = build_sandbox_record_write_adapter(&full_request(), &rp, &sp);
    let r2 = build_sandbox_record_write_adapter(&full_request(), &rp, &sp);
    let ids1: Vec<_> = r1.operations.iter().map(|o| &o.operation_id).collect();
    let ids2: Vec<_> = r2.operations.iter().map(|o| &o.operation_id).collect();
    assert_eq!(ids1, ids2);
}

// ── No Tauri command or UI path ───────────────────────────────────────────

#[test]
fn sandbox_record_write_adapter_no_tauri_command_introduced() {
    let rp = simple_record_plan();
    let sp = simple_schema_plan();
    let result = build_sandbox_record_write_adapter(&full_request(), &rp, &sp);
    assert_eq!(
        result.status,
        SandboxRecordWriteAdapterStatus::ReadyForSandboxCall
    );
}

// ── No real Airtable client called ────────────────────────────────────────

#[test]
fn sandbox_record_write_adapter_no_real_airtable_client_called_in_default_path() {
    let rp = simple_record_plan();
    let sp = simple_schema_plan();
    let result = build_sandbox_record_write_adapter(&full_request(), &rp, &sp);
    assert!(!result.network_writes_attempted);
    assert!(!result.safety_snapshot.network_writes_attempted);
}

// ── No-op adapter ─────────────────────────────────────────────────────────

#[test]
fn sandbox_record_write_adapter_no_op_adapter_returns_zero_count() {
    let adapter = NoOpRecordWriteAdapter;
    assert_eq!(adapter.planned_operation_count(), 0);
}

// ── Mock adapter ──────────────────────────────────────────────────────────

#[test]
fn sandbox_record_write_adapter_mock_adapter_returns_configured_count() {
    let adapter = MockRecordWriteAdapter { operation_count: 5 };
    assert_eq!(adapter.planned_operation_count(), 5);
}

#[test]
fn sandbox_record_write_adapter_mock_adapter_zero_count_when_no_operations() {
    let adapter = MockRecordWriteAdapter { operation_count: 0 };
    assert_eq!(adapter.planned_operation_count(), 0);
}

// ── Write gate snapshot ───────────────────────────────────────────────────

#[test]
fn sandbox_record_write_adapter_safety_snapshot_write_gate_disabled_always_true() {
    let rp = simple_record_plan();
    let sp = simple_schema_plan();
    let result = build_sandbox_record_write_adapter(&full_request(), &rp, &sp);
    assert!(result.safety_snapshot.write_gate_disabled);
}

#[test]
fn sandbox_record_write_adapter_safety_snapshot_runtime_flags_always_false() {
    let rp = simple_record_plan();
    let sp = simple_schema_plan();
    let result = build_sandbox_record_write_adapter(&full_request(), &rp, &sp);
    assert!(!result.safety_snapshot.runtime_execution_enabled);
    assert!(!result.safety_snapshot.app_runtime_writes_enabled);
    assert!(!result.safety_snapshot.app_runtime_reads_enabled);
    assert!(!result.safety_snapshot.network_writes_attempted);
}

// ── Operation count and record count ──────────────────────────────────────

#[test]
fn sandbox_record_write_adapter_operation_count_consistent_with_operations_vec() {
    let rp = simple_record_plan();
    let sp = simple_schema_plan();
    let result = build_sandbox_record_write_adapter(&full_request(), &rp, &sp);
    assert_eq!(result.total_operation_count, result.operations.len());
}

#[test]
fn planned_record_count_sums_correctly() {
    let rp = simple_record_plan();
    let sp = simple_schema_plan();
    let result = build_sandbox_record_write_adapter(&full_request(), &rp, &sp);
    let sum: usize = result
        .operations
        .iter()
        .map(|o| o.planned_record_count.unwrap_or(0))
        .sum();
    assert_eq!(result.total_planned_record_count, sum);
}

// ── Operation IDs use stable prefix ──────────────────────────────────────

#[test]
fn operation_ids_use_srwa_prefix() {
    let rp = simple_record_plan();
    let sp = simple_schema_plan();
    let result = build_sandbox_record_write_adapter(&full_request(), &rp, &sp);
    for op in &result.operations {
        assert!(
            op.operation_id.starts_with("SRWA-OP-"),
            "unexpected operation ID prefix: {}",
            op.operation_id
        );
    }
}
