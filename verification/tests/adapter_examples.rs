use airbridge_restore::linked_second_pass_execution_preview::LinkedSecondPassFieldSummary;
use airbridge_restore::record_write_requests::{
    RecordWriteOperation, RecordWriteOperationKind, RecordWriteOperationStatus,
    RecordWriteRequestPlan,
};
use airbridge_restore::sandbox_adapter_chain_runner::{
    run_sandbox_adapter_chain, SandboxAdapterChainRunnerMode, SandboxAdapterChainRunnerRequest,
    SandboxAdapterChainRunnerStatus,
};
use airbridge_restore::sandbox_final_validation_adapter::{
    build_sandbox_final_validation_adapter, SandboxFinalValidationAdapterMode,
    SandboxFinalValidationAdapterRequest, SandboxFinalValidationAdapterStatus,
};
use airbridge_restore::sandbox_linked_second_pass_adapter::{
    build_sandbox_linked_second_pass_adapter, SandboxLinkedSecondPassAdapterMode,
    SandboxLinkedSecondPassAdapterRequest, SandboxLinkedSecondPassAdapterStatus,
};
use airbridge_restore::sandbox_record_write_adapter::{
    build_sandbox_record_write_adapter, SandboxRecordWriteAdapterMode,
    SandboxRecordWriteAdapterRequest, SandboxRecordWriteAdapterStatus,
};
use airbridge_restore::sandbox_schema_write_adapter::{
    build_sandbox_schema_write_adapter, SandboxSchemaWriteAdapterMode,
    SandboxSchemaWriteAdapterRequest, SandboxSchemaWriteAdapterStatus,
};
use airbridge_restore::schema_write_requests::{
    SchemaWriteOperation, SchemaWriteOperationKind, SchemaWriteOperationStatus,
    SchemaWriteRequestPlan,
};

fn schema_op(kind: SchemaWriteOperationKind, table: &str, field: Option<&str>, ty: Option<&str>) -> SchemaWriteOperation {
    SchemaWriteOperation {
        kind,
        table_name: table.to_string(),
        field_name: field.map(|f| f.to_string()),
        field_type: ty.map(|t| t.to_string()),
    }
}

fn schema_plan(operations: Vec<SchemaWriteOperation>) -> SchemaWriteRequestPlan {
    let n = operations.len();
    SchemaWriteRequestPlan {
        filename: "backup.airbridge".to_string(),
        status: SchemaWriteOperationStatus::Ready,
        blocked_reason: None,
        operations,
        table_op_count: 0,
        field_op_count: 0,
        deferred_op_count: 0,
        manual_action_count: 0,
        total_op_count: n,
        warnings: vec![],
        no_changes_made: true,
        network_writes_attempted: false,
    }
}

fn simple_schema() -> SchemaWriteRequestPlan {
    schema_plan(vec![
        schema_op(SchemaWriteOperationKind::CreateTable, "Tasks", None, None),
        schema_op(SchemaWriteOperationKind::CreateField, "Tasks", Some("Name"), Some("singleLineText")),
    ])
}

fn record_op(kind: RecordWriteOperationKind, table: &str, count: Option<usize>, batch: Option<usize>) -> RecordWriteOperation {
    RecordWriteOperation {
        kind,
        table_name: table.to_string(),
        planned_record_count: count,
        batch_index: batch,
    }
}

fn record_plan(operations: Vec<RecordWriteOperation>) -> RecordWriteRequestPlan {
    let n = operations.len();
    RecordWriteRequestPlan {
        filename: "backup.airbridge".to_string(),
        status: RecordWriteOperationStatus::Ready,
        blocked_reason: None,
        operations,
        create_batch_op_count: 0,
        linked_update_op_count: 0,
        checkpoint_op_count: 0,
        attachment_op_count: 0,
        skipped_field_op_count: 0,
        total_op_count: n,
        total_first_pass_batches: 0,
        total_second_pass_batches: 0,
        warnings: vec![],
        no_changes_made: true,
        network_writes_attempted: false,
    }
}

fn simple_records() -> RecordWriteRequestPlan {
    record_plan(vec![record_op(RecordWriteOperationKind::CreateRecordBatch, "Tasks", Some(10), Some(0))])
}

fn summaries() -> Vec<LinkedSecondPassFieldSummary> {
    vec![LinkedSecondPassFieldSummary {
        table_label: "Projects".to_string(),
        field_label: "Tasks".to_string(),
        record_count: 5,
        batch_count: 1,
        unresolved_link_count: 0,
    }]
}

fn schema_request() -> SandboxSchemaWriteAdapterRequest {
    SandboxSchemaWriteAdapterRequest {
        mode: SandboxSchemaWriteAdapterMode::SandboxOnlyInternal,
        explicit_internal_schema_sandbox_call_requested: true,
        sandbox_verified: true,
        target_base_empty: true,
        confirmation_gate_declared: true,
        destructive_operation_policy_safe: true,
        attachment_phase_disabled_safe: true,
        live_write_readiness_safe: true,
        write_phase_ordering_safe: true,
        failure_modes_safe: true,
        rollback_limitation_safe: true,
        checkpoint_durability_safe: true,
        sensitive_data_safe: true,
        final_validation_enforcement_safe: true,
        rate_limit_backoff_safe: true,
    }
}

fn record_request() -> SandboxRecordWriteAdapterRequest {
    SandboxRecordWriteAdapterRequest {
        mode: SandboxRecordWriteAdapterMode::SandboxOnlyInternal,
        explicit_internal_record_sandbox_call_requested: true,
        sandbox_verified: true,
        target_base_empty: true,
        confirmation_gate_declared: true,
        destructive_operation_policy_safe: true,
        attachment_phase_disabled_safe: true,
        live_write_readiness_safe: true,
        write_phase_ordering_safe: true,
        failure_modes_safe: true,
        rollback_limitation_safe: true,
        checkpoint_durability_safe: true,
        sensitive_data_safe: true,
        final_validation_enforcement_safe: true,
        rate_limit_backoff_safe: true,
        schema_executor_safe: true,
        checkpoint_store_safe: true,
    }
}

fn linked_request() -> SandboxLinkedSecondPassAdapterRequest {
    SandboxLinkedSecondPassAdapterRequest {
        mode: SandboxLinkedSecondPassAdapterMode::SandboxOnlyInternal,
        explicit_internal_linked_sandbox_call_requested: true,
        sandbox_verified: true,
        target_base_empty: true,
        mapping_coverage_sufficient: true,
        confirmation_gate_declared: true,
        destructive_operation_policy_safe: true,
        attachment_phase_disabled_safe: true,
        live_write_readiness_safe: true,
        write_phase_ordering_safe: true,
        failure_modes_safe: true,
        rollback_limitation_safe: true,
        checkpoint_durability_safe: true,
        sensitive_data_safe: true,
        final_validation_enforcement_safe: true,
        rate_limit_backoff_safe: true,
        schema_executor_safe: true,
        checkpoint_store_safe: true,
        record_executor_safe: true,
        linked_second_pass_preview_ready: true,
        mapping_checkpoint_preview_ready: true,
        field_summaries: summaries(),
    }
}

fn final_validation_request() -> SandboxFinalValidationAdapterRequest {
    SandboxFinalValidationAdapterRequest {
        mode: SandboxFinalValidationAdapterMode::SandboxOnlyInternal,
        explicit_internal_validation_sandbox_call_requested: true,
        sandbox_verified: true,
        final_validation_enforcement_safe: true,
        confirmation_gate_declared: true,
        destructive_operation_policy_safe: true,
        attachment_phase_disabled_safe: true,
        live_write_readiness_safe: true,
        write_phase_ordering_safe: true,
        failure_modes_safe: true,
        rollback_limitation_safe: true,
        checkpoint_durability_safe: true,
        sensitive_data_safe: true,
        rate_limit_backoff_safe: true,
        schema_executor_safe: true,
        checkpoint_store_safe: true,
        record_executor_safe: true,
        linked_executor_safe: true,
        linked_second_pass_preview_ready: true,
        mapping_checkpoint_preview_ready: true,
        target_base_empty: true,
        mapping_coverage_sufficient: true,
        field_summaries: summaries(),
        table_count: 3,
        field_count: 12,
        record_count: 50,
        id_mapping_entry_count: 50,
        linked_coverage_count: 4,
        attachment_metadata_count: 2,
        manifest_present: false,
    }
}

fn chain_request() -> SandboxAdapterChainRunnerRequest {
    SandboxAdapterChainRunnerRequest {
        mode: SandboxAdapterChainRunnerMode::MockInternalOnly,
        explicit_internal_mock_chain_requested: true,
        sandbox_verified: true,
        target_base_empty: true,
        mapping_coverage_sufficient: true,
        final_validation_enforcement_safe: true,
        confirmation_gate_declared: true,
        destructive_operation_policy_safe: true,
        attachment_phase_disabled_safe: true,
        live_write_readiness_safe: true,
        write_phase_ordering_safe: true,
        failure_modes_safe: true,
        rollback_limitation_safe: true,
        checkpoint_durability_safe: true,
        sensitive_data_safe: true,
        rate_limit_backoff_safe: true,
        schema_executor_safe: true,
        checkpoint_store_safe: true,
        record_executor_safe: true,
        linked_executor_safe: true,
        linked_second_pass_preview_ready: true,
        mapping_checkpoint_preview_ready: true,
        field_summaries: summaries(),
        table_count: 2,
        field_count: 5,
        record_count: 10,
        id_mapping_entry_count: 10,
        linked_coverage_count: 5,
        attachment_metadata_count: 2,
        manifest_present: true,
    }
}

#[test]
fn schema_descriptors_skip_non_schema_operations_and_default_unknown_parts() {
    let plan = schema_plan(vec![
        schema_op(SchemaWriteOperationKind::CreateBase, "Base", None, None),
        schema_op(SchemaWriteOperationKind::CreateTable, "Tasks", None, None),
        schema_op(SchemaWriteOperationKind::CreateField, "Tasks", None, None),
        schema_op(SchemaWriteOperationKind::DeferLinkedField, "Tasks", Some("Link"), None),
        schema_op(SchemaWriteOperationKind::ManualAction, "Tasks", Some("Formula"), None),
        schema_op(SchemaWriteOperationKind::CreateField, "Tasks", Some("Title"), Some("singleLineText")),
    ]);
    let result = build_sandbox_schema_write_adapter(&schema_request(), &plan);
    assert_eq!(result.status, SandboxSchemaWriteAdapterStatus::ReadyForSandboxCall);
    assert_eq!(result.total_operation_count, 3);
    assert_eq!(result.table_operation_count, 1);
    assert_eq!(result.field_operation_count, 2);
    let ids: Vec<&str> = result.operations.iter().map(|o| o.operation_id.as_str()).collect();
    assert_eq!(ids, vec!["SSWA-OP-000", "SSWA-OP-001", "SSWA-OP-002"]);
    assert_eq!(result.operations[0].operation_kind, "createTableDescriptor");
    assert_eq!(
        result.operations[0].note,
        "Create table 'Tasks' \u{2014} adapter boundary descriptor. No network call made."
    );
    assert_eq!(
        result.operations[1].note,
        "Create field '?' (?) in 'Tasks' \u{2014} adapter boundary descriptor. No network call made."
    );
    assert_eq!(result.operations[1].field_name, None);
    assert_eq!(
        result.operations[2].note,
        "Create field 'Title' (singleLineText) in 'Tasks' \u{2014} adapter boundary descriptor. No network call made."
    );
    assert_eq!(result.operations[2].field_type.as_deref(), Some("singleLineText"));
    assert_eq!(
        result.message,
        "Sandbox schema write adapter boundary is ready (3 operation(s): 1 table descriptor(s), 2 field descriptor(s)). No Airtable network call was made. No runtime execution is enabled. No app runtime writes or reads are enabled. No changes were made. This adapter boundary is for sandbox tests only and is not reachable from UI, TypeScript, or any Tauri command."
    );
}

#[test]
fn schema_descriptor_ids_are_zero_padded_to_three_digits() {
    let ops: Vec<SchemaWriteOperation> = (0..101)
        .map(|i| schema_op(SchemaWriteOperationKind::CreateTable, &format!("T{i}"), None, None))
        .collect();
    let result = build_sandbox_schema_write_adapter(&schema_request(), &schema_plan(ops));
    assert_eq!(result.operations[9].operation_id, "SSWA-OP-009");
    assert_eq!(result.operations[10].operation_id, "SSWA-OP-010");
    assert_eq!(result.operations[99].operation_id, "SSWA-OP-099");
    assert_eq!(result.operations[100].operation_id, "SSWA-OP-100");
    assert_eq!(result.table_operation_count, 101);
}

#[test]
fn schema_adapter_blocked_messages_and_reasons() {
    let mut req = schema_request();
    req.explicit_internal_schema_sandbox_call_requested = false;
    let result = build_sandbox_schema_write_adapter(&req, &simple_schema());
    assert_eq!(result.status, SandboxSchemaWriteAdapterStatus::Blocked);
    assert_eq!(
        result.blocked_reason.as_deref(),
        Some("SSWA-CHK-02: explicit_internal_schema_sandbox_call_requested must be true.")
    );
    assert!(result.message.starts_with("Sandbox schema write adapter is blocked. Explicit internal schema sandbox call flag is not set."));
    assert!(result.message.ends_with(" No Airtable API calls were made. No changes were made. Runtime execution, writes, and reads remain disabled."));

    let mut plan = simple_schema();
    plan.status = SchemaWriteOperationStatus::Blocked;
    let result = build_sandbox_schema_write_adapter(&schema_request(), &plan);
    assert_eq!(
        result.blocked_reason.as_deref(),
        Some("SSWA-CHK-06: schema write executor plan must return NotExecuted.")
    );
    assert!(result.safety_snapshot.gate_arming_armed_not_executable);
    assert!(result.safety_snapshot.simulator_simulated_not_executed);
    assert!(!result.safety_snapshot.executor_not_executed);

    let mut req = schema_request();
    req.target_base_empty = false;
    let result = build_sandbox_schema_write_adapter(&req, &simple_schema());
    assert_eq!(
        result.blocked_reason.as_deref(),
        Some("SSWA-CHK-04: sandbox gate arming decision must return ArmedNotExecutable.")
    );
    assert!(!result.safety_snapshot.target_base_empty);
    assert!(result.safety_snapshot.sandbox_verified);
}

#[test]
fn schema_adapter_disabled_message() {
    let mut req = schema_request();
    req.mode = SandboxSchemaWriteAdapterMode::Disabled;
    let result = build_sandbox_schema_write_adapter(&req, &simple_schema());
    assert_eq!(result.status, SandboxSchemaWriteAdapterStatus::NotExecuted);
    assert_eq!(
        result.message,
        "SSWA-CHK-01: Adapter mode is disabled. No evaluation is performed. This is the default state. No Airtable API calls were made. No changes were made. Runtime execution, writes, and reads remain disabled."
    );
    assert!(result.blocked_reason.is_none());
}

#[test]
fn record_descriptors_cover_only_create_batches_and_sum_known_counts() {
    let plan = record_plan(vec![
        record_op(RecordWriteOperationKind::CreateRecordBatch, "Tasks", Some(10), Some(0)),
        record_op(RecordWriteOperationKind::Checkpoint, "Tasks", None, None),
        record_op(RecordWriteOperationKind::CreateRecordBatch, "Notes", None, Some(1)),
        record_op(RecordWriteOperationKind::UpdateLinkedRecordBatch, "Tasks", Some(3), Some(0)),
        record_op(RecordWriteOperationKind::CreateRecordBatch, "Notes", Some(7), Some(2)),
    ]);
    let result = build_sandbox_record_write_adapter(&record_request(), &plan, &simple_schema());
    assert_eq!(result.status, SandboxRecordWriteAdapterStatus::ReadyForSandboxCall);
    assert_eq!(result.total_operation_count, 3);
    assert_eq!(result.total_planned_record_count, 17);
    assert_eq!(result.operations[1].operation_id, "SRWA-OP-001");
    assert_eq!(result.operations[1].batch_index, Some(1));
    assert_eq!(
        result.operations[0].note,
        "First-pass create batch for 'Tasks' (10 record(s)) \u{2014} adapter boundary descriptor. No network call made."
    );
    assert_eq!(
        result.operations[1].note,
        "First-pass create batch for 'Notes' (unknown record(s)) \u{2014} adapter boundary descriptor. No network call made."
    );
    assert_eq!(
        result.message,
        "Sandbox record write adapter boundary is ready (3 first-pass create batch descriptor(s), 17 planned record(s)). No Airtable network call was made. No runtime execution is enabled. No app runtime writes or reads are enabled. No changes were made. This adapter boundary is for sandbox tests only and is not reachable from UI, TypeScript, or any Tauri command."
    );
}

#[test]
fn record_adapter_blocks_on_unsafe_executor_or_blocked_schema_plan() {
    let mut req = record_request();
    req.checkpoint_store_safe = false;
    let result = build_sandbox_record_write_adapter(&req, &simple_records(), &simple_schema());
    assert_eq!(
        result.blocked_reason.as_deref(),
        Some("SRWA-CHK-06: record write executor plan must return NotExecuted.")
    );
    let mut schema = simple_schema();
    schema.status = SchemaWriteOperationStatus::Blocked;
    let result = build_sandbox_record_write_adapter(&record_request(), &simple_records(), &schema);
    assert_eq!(
        result.blocked_reason.as_deref(),
        Some("SRWA-CHK-07: schema write adapter must return ReadyForSandboxCall.")
    );
    assert!(result.safety_snapshot.record_executor_not_executed);
    assert!(!result.safety_snapshot.schema_adapter_ready);
    assert_eq!(result.total_planned_record_count, 0);
}

#[test]
fn linked_descriptors_follow_field_summaries() {
    let mut req = linked_request();
    req.field_summaries.push(LinkedSecondPassFieldSummary {
        table_label: "Tasks".to_string(),
        field_label: "Owner".to_string(),
        record_count: 120,
        batch_count: 12,
        unresolved_link_count: 0,
    });
    let result = build_sandbox_linked_second_pass_adapter(&req, &simple_schema(), &simple_records());
    assert_eq!(result.status, SandboxLinkedSecondPassAdapterStatus::ReadyForSandboxCall);
    assert_eq!(result.total_operation_count, 2);
    assert_eq!(result.operations[1].operation_id, "SLPA-OP-001");
    assert_eq!(result.operations[0].operation_kind, "linkedUpdateBatchDescriptor");
    assert_eq!(
        result.operations[1].note,
        "Second-pass linked update for 'Owner' in 'Tasks' (120 record(s), 12 batch(es)) \u{2014} adapter boundary descriptor. No network call made."
    );
    assert!(result.message.starts_with("Sandbox linked second-pass adapter boundary is ready (2 linked update batch descriptor(s))."));
}

#[test]
fn linked_adapter_blocked_reasons() {
    let mut req = linked_request();
    req.mapping_coverage_sufficient = false;
    let result = build_sandbox_linked_second_pass_adapter(&req, &simple_schema(), &simple_records());
    assert_eq!(
        result.blocked_reason.as_deref(),
        Some("SLPA-CHK-08: mapping_coverage_sufficient must be true.")
    );
    let mut req = linked_request();
    req.linked_second_pass_preview_ready = false;
    let result = build_sandbox_linked_second_pass_adapter(&req, &simple_schema(), &simple_records());
    assert_eq!(
        result.blocked_reason.as_deref(),
        Some("SLPA-CHK-06: linked second-pass executor plan must return NotExecuted.")
    );
    let mut records = simple_records();
    records.status = RecordWriteOperationStatus::Blocked;
    let result = build_sandbox_linked_second_pass_adapter(&linked_request(), &simple_schema(), &records);
    assert_eq!(
        result.blocked_reason.as_deref(),
        Some("SLPA-CHK-07: record write adapter must return ReadyForSandboxCall.")
    );
    let mut req = linked_request();
    req.mode = SandboxLinkedSecondPassAdapterMode::Disabled;
    let result = build_sandbox_linked_second_pass_adapter(&req, &simple_schema(), &simple_records());
    assert_eq!(result.status, SandboxLinkedSecondPassAdapterStatus::NotExecuted);
    assert!(result.operations.is_empty());
}

#[test]
fn final_validation_descriptors_without_manifest() {
    let result = build_sandbox_final_validation_adapter(
        &final_validation_request(),
        &simple_schema(),
        &simple_records(),
    );
    assert_eq!(result.status, SandboxFinalValidationAdapterStatus::ReadyForSandboxCall);
    assert_eq!(result.total_operation_count, 6);
    let kinds: Vec<&str> = result.operations.iter().map(|o| o.operation_kind.as_str()).collect();
    assert_eq!(
        kinds,
        vec![
            "schemaCountReadDescriptor",
            "fieldCountReadDescriptor",
            "recordCountReadDescriptor",
            "linkedFieldCoverageReadDescriptor",
            "attachmentMetadataReadDescriptor",
            "finalGuardDescriptor",
        ]
    );
    assert_eq!(result.operations[5].operation_id, "SFVA-OP-005");
    assert_eq!(result.operations[5].expected_count, 0);
    assert_eq!(result.operations[1].expected_count, 12);
    assert_eq!(
        result.operations[0].note,
        "Would read table list from Airtable and compare against 3 expected table(s). Read gate disabled \u{2014} no network call made. No record IDs exposed."
    );
    assert_eq!(
        result.operations[3].note,
        "Would verify linked field coverage for 4 entry/entries. No raw record IDs returned. Read gate disabled \u{2014} no network call made."
    );
    assert!(result.message.starts_with("Sandbox final validation adapter boundary is ready (6 read descriptor(s))."));
}

#[test]
fn final_validation_blocked_by_reader_reports_earlier_probes_passed() {
    let mut req = final_validation_request();
    req.linked_executor_safe = false;
    let result = build_sandbox_final_validation_adapter(&req, &simple_schema(), &simple_records());
    assert_eq!(result.status, SandboxFinalValidationAdapterStatus::Blocked);
    assert_eq!(
        result.blocked_reason.as_deref(),
        Some("SFVA-CHK-06: final validation reader plan must return NotExecuted.")
    );
    assert!(result.safety_snapshot.gate_arming_armed_not_executable);
    assert!(result.safety_snapshot.simulator_simulated_not_executed);
    assert!(!result.safety_snapshot.final_validation_reader_not_executed);
    assert!(!result.safety_snapshot.schema_adapter_ready);
    assert!(result.safety_snapshot.final_validation_enforcement_safe);
    assert!(result.operations.is_empty());

    let mut req = final_validation_request();
    req.mapping_checkpoint_preview_ready = false;
    let result = build_sandbox_final_validation_adapter(&req, &simple_schema(), &simple_records());
    assert_eq!(
        result.blocked_reason.as_deref(),
        Some("SFVA-CHK-09: linked second-pass adapter must return ReadyForSandboxCall.")
    );
    assert!(result.safety_snapshot.record_adapter_ready);
    assert!(!result.safety_snapshot.linked_adapter_ready);
}

#[test]
fn chain_run_message_reports_each_adapter_count() {
    let result = run_sandbox_adapter_chain(&chain_request(), &simple_schema(), &simple_records());
    assert_eq!(result.status, SandboxAdapterChainRunnerStatus::MockRunNotExecuted);
    assert_eq!(
        (result.schema_operation_count, result.record_operation_count, result.linked_operation_count, result.final_validation_operation_count),
        (2, 1, 1, 7)
    );
    assert_eq!(
        result.message,
        "Sandbox adapter chain runner: mockRunNotExecuted. All 4 adapter phases observed via mock/no-op adapters (schema: 2 op(s), record: 1 op(s), linked: 1 op(s), final validation: 7 descriptor(s)). No Airtable network call was made. No runtime execution is enabled. No app runtime writes, reads, or execution are enabled. No changes were made. This runner is for internal sandbox tests only and is not reachable from UI, TypeScript, or any Tauri command. Live sandbox E2E restore execution remains separate pending work."
    );
    assert_eq!(
        result.phases[0].note,
        "Schema write adapter observed via mock/no-op adapter \u{2014} 2 operation descriptor(s). No Airtable schema API call was made. No table or field was created."
    );
    assert_eq!(result.phases[3].label, "Final validation adapter");
}

#[test]
fn chain_run_implies_each_adapter_ready_on_its_own() {
    let schema = simple_schema();
    let records = simple_records();
    let chain = run_sandbox_adapter_chain(&chain_request(), &schema, &records);
    assert_eq!(chain.status, SandboxAdapterChainRunnerStatus::MockRunNotExecuted);
    let s = build_sandbox_schema_write_adapter(&schema_request(), &schema);
    let r = build_sandbox_record_write_adapter(&record_request(), &records, &schema);
    let l = build_sandbox_linked_second_pass_adapter(&linked_request(), &schema, &records);
    let mut fv_req = final_validation_request();
    fv_req.manifest_present = true;
    let f = build_sandbox_final_validation_adapter(&fv_req, &schema, &records);
    assert_eq!(s.status, SandboxSchemaWriteAdapterStatus::ReadyForSandboxCall);
    assert_eq!(r.status, SandboxRecordWriteAdapterStatus::ReadyForSandboxCall);
    assert_eq!(l.status, SandboxLinkedSecondPassAdapterStatus::ReadyForSandboxCall);
    assert_eq!(f.status, SandboxFinalValidationAdapterStatus::ReadyForSandboxCall);
    assert_eq!(chain.schema_operation_count, s.total_operation_count);
    assert_eq!(chain.record_operation_count, r.total_operation_count);
    assert_eq!(chain.linked_operation_count, l.total_operation_count);
    assert_eq!(chain.final_validation_operation_count, f.total_operation_count);
}

#[test]
fn chain_blocked_reasons_and_flags() {
    let mut req = chain_request();
    req.mode = SandboxAdapterChainRunnerMode::Disabled;
    let result = run_sandbox_adapter_chain(&req, &simple_schema(), &simple_records());
    assert_eq!(result.status, SandboxAdapterChainRunnerStatus::Blocked);
    assert_eq!(result.mode, SandboxAdapterChainRunnerMode::Disabled);
    assert_eq!(
        result.blocked_reason.as_deref(),
        Some("SACR-CHK-01: Runner mode is disabled. No evaluation is performed. This is the default state.")
    );
    assert_eq!(
        result.message,
        "Sandbox adapter chain runner is blocked. SACR-CHK-01: Runner mode is disabled. No evaluation is performed. This is the default state. No Airtable API calls were made. No changes were made. Runtime execution, writes, reads, and network calls remain disabled."
    );
    let mut req = chain_request();
    req.sensitive_data_safe = false;
    let result = run_sandbox_adapter_chain(&req, &simple_schema(), &simple_records());
    assert!(result.blocked_reason.as_deref().unwrap_or("").starts_with("SACR-CHK-07"));
    let mut req = chain_request();
    req.final_validation_enforcement_safe = false;
    let result = run_sandbox_adapter_chain(&req, &simple_schema(), &simple_records());
    assert!(result.blocked_reason.as_deref().unwrap_or("").starts_with("SACR-CHK-08"));
    assert!(result.safety_snapshot.simulator_simulated_not_executed);
    assert!(result.safety_snapshot.schema_adapter_ready);
    assert!(result.safety_snapshot.record_adapter_ready);
    assert!(result.safety_snapshot.linked_adapter_ready);
    assert!(!result.safety_snapshot.final_validation_adapter_ready);
    assert!(result.safety_snapshot.explicit_mock_chain_flag_set);
}

#[test]
fn chain_blocked_snapshot_reports_probes_passed_before_failing_check() {
    let mut schema = simple_schema();
    schema.status = SchemaWriteOperationStatus::Blocked;
    let result = run_sandbox_adapter_chain(&chain_request(), &schema, &simple_records());
    assert_eq!(result.status, SandboxAdapterChainRunnerStatus::Blocked);
    assert!(result.blocked_reason.as_deref().unwrap_or("").starts_with("SACR-CHK-05"));
    assert!(result.safety_snapshot.simulator_simulated_not_executed);
    assert!(!result.safety_snapshot.schema_adapter_ready);
    assert!(!result.safety_snapshot.record_adapter_ready);
    assert!(result.safety_snapshot.explicit_mock_chain_flag_set);

    let mut req = chain_request();
    req.rollback_limitation_safe = false;
    let result = run_sandbox_adapter_chain(&req, &simple_schema(), &simple_records());
    assert!(result.blocked_reason.as_deref().unwrap_or("").starts_with("SACR-CHK-04"));
    assert!(!result.safety_snapshot.simulator_simulated_not_executed);
    assert!(result.safety_snapshot.explicit_mock_chain_flag_set);

    let mut req = chain_request();
    req.explicit_internal_mock_chain_requested = false;
    let result = run_sandbox_adapter_chain(&req, &simple_schema(), &simple_records());
    assert!(result.blocked_reason.as_deref().unwrap_or("").starts_with("SACR-CHK-02"));
    assert!(!result.safety_snapshot.explicit_mock_chain_flag_set);

    let mut req = chain_request();
    req.mode = SandboxAdapterChainRunnerMode::Disabled;
    let result = run_sandbox_adapter_chain(&req, &simple_schema(), &simple_records());
    assert!(!result.safety_snapshot.explicit_mock_chain_flag_set);
}

#[test]
fn blocked_adapters_report_the_explicit_flag_as_requested() {
    let mut req = final_validation_request();
    req.sandbox_verified = false;
    let result = build_sandbox_final_validation_adapter(&req, &simple_schema(), &simple_records());
    assert_eq!(result.status, SandboxFinalValidationAdapterStatus::Blocked);
    assert!(result.safety_snapshot.explicit_validation_sandbox_flag_set);
    assert!(result.safety_snapshot.write_gate_disabled);
    assert!(!result.safety_snapshot.gate_arming_armed_not_executable);

    let mut req = schema_request();
    req.target_base_empty = false;
    let result = build_sandbox_schema_write_adapter(&req, &simple_schema());
    assert_eq!(result.status, SandboxSchemaWriteAdapterStatus::Blocked);
    assert!(result.safety_snapshot.explicit_schema_sandbox_flag_set);

    let mut req = record_request();
    req.sandbox_verified = false;
    let result = build_sandbox_record_write_adapter(&req, &simple_records(), &simple_schema());
    assert_eq!(result.status, SandboxRecordWriteAdapterStatus::Blocked);
    assert!(result.safety_snapshot.explicit_record_sandbox_flag_set);

    let mut req = record_request();
    req.explicit_internal_record_sandbox_call_requested = false;
    let result = build_sandbox_record_write_adapter(&req, &simple_records(), &simple_schema());
    assert!(!result.safety_snapshot.explicit_record_sandbox_flag_set);
}
