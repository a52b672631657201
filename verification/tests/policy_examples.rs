use airbridge_restore::checkpoint_store::{
    store_restore_checkpoint, RestoreCheckpointStoreRequest, RestoreCheckpointStoreStatus,
};
use airbridge_restore::final_validation_reader::{
    build_final_validation_reader_plan, FinalValidationReaderMode, FinalValidationReaderRequest,
    FinalValidationReaderStatus,
};
use airbridge_restore::linked_second_pass_execution_preview::LinkedSecondPassExecutionPreviewStatus;
use airbridge_restore::linked_second_pass_executor::{
    build_linked_second_pass_executor_plan, LinkedSecondPassExecutorMode,
    LinkedSecondPassExecutorRequest, LinkedSecondPassExecutorStatus,
};
use airbridge_restore::plan::RestoreTargetMode;
use airbridge_restore::rollback_limitation_policy::{
    verify_rollback_limitation_policy, RecoveryGuidance, RollbackBehavior,
    RollbackLimitationCheckStatus, RollbackLimitationPlan, RollbackLimitationPolicyRequest,
    RollbackLimitationPolicyStatus,
};
use airbridge_restore::sandbox_gate_arming::{
    build_sandbox_gate_arming_decision, SandboxGateArmingMode, SandboxGateArmingRequest,
    SandboxGateArmingStatus,
};
use airbridge_restore::sandbox_restore_simulator::{
    run_sandbox_restore_simulator, SandboxRestoreSimulatorMode, SandboxRestoreSimulatorPhaseStatus,
    SandboxRestoreSimulatorRequest, SandboxRestoreSimulatorStatus,
};
use airbridge_restore::sandbox_verification::{
    verify_sandbox_environment, SandboxVerificationCheckStatus, SandboxVerificationRequest,
    SandboxVerificationStatus,
};
use airbridge_restore::sandbox_write_testing_policy::{
    verify_sandbox_write_testing_policy, SandboxTargetClassification, SandboxWriteTestEvidence,
    SandboxWriteTestingCheckStatus, SandboxWriteTestingPolicyRequest,
    SandboxWriteTestingPolicyStatus,
};
use airbridge_restore::schema_dependencies::build_dependency_graph;
use airbridge_restore::schema_plan::{SchemaPlanFieldInput, SchemaPlanTableInput};
use airbridge_restore::write_gate::{evaluate_write_gate, write_gate_is_disabled, RestoreWriteEngineStatus};

fn arming_request() -> SandboxGateArmingRequest {
    SandboxGateArmingRequest {
        mode: SandboxGateArmingMode::SandboxOnlyInternal,
        explicit_internal_sandbox_arming_requested: true,
        sandbox_verification_safe: true,
        target_empty_safe: true,
        confirmation_gate_declared: true,
        destructive_operation_policy_safe: true,
        attachment_phase_disabled_safe: true,
        live_write_readiness_safe: true,
        write_phase_ordering_safe: true,
        failure_modes_safe: true,
        rollback_limitation_safe: true,
        checkpoint_durability_safe: true,
        sensitive_data_safe: true,
        final_validation_enforcement_safe: true,
        rate_limit_backoff_safe: true,
    }
}

fn simulator_request() -> SandboxRestoreSimulatorRequest {
    SandboxRestoreSimulatorRequest {
        mode: SandboxRestoreSimulatorMode::SandboxOnlyInternalSimulation,
        explicit_internal_simulation_requested: true,
        sandbox_verification_safe: true,
        target_empty_safe: true,
        confirmation_gate_declared: true,
        destructive_operation_policy_safe: true,
        attachment_phase_disabled_safe: true,
        live_write_readiness_safe: true,
        write_phase_ordering_safe: true,
        failure_modes_safe: true,
        rollback_limitation_safe: true,
        checkpoint_durability_safe: true,
        sensitive_data_safe: true,
        final_validation_enforcement_safe: true,
        rate_limit_backoff_safe: true,
    }
}

fn plan(behavior: RollbackBehavior, guidance: RecoveryGuidance) -> RollbackLimitationPlan {
    RollbackLimitationPlan {
        rollback_behavior: behavior,
        partial_restore_is_not_success: true,
        recovery_guidance: guidance,
        user_visible_limitation_notice: true,
        notice_includes_limitation_details: true,
        manual_cleanup_requires_separate_action: true,
        note: None,
    }
}

fn verification_request() -> SandboxVerificationRequest {
    SandboxVerificationRequest {
        target_mode: RestoreTargetMode::NewBase,
        target_base_id: None,
        target_base_name: Some("Sandbox".to_string()),
        target_table_count: Some(0),
        target_record_count: Some(0),
        expects_empty_target: true,
        allow_attachment_upload: false,
        allow_destructive_operations: false,
        source_package_filename: Some("backup.zip".to_string()),
        schema_plan_status: Some("ready".to_string()),
        record_import_plan_status: Some("ready".to_string()),
    }
}

fn evidence() -> SandboxWriteTestEvidence {
    SandboxWriteTestEvidence {
        sandbox_base_verified: true,
        test_package_filename: Some("test.airbridge".to_string()),
        dry_run_completed: true,
        schema_plan_reviewed: true,
        record_plan_reviewed: true,
        reviewer_label: None,
        evidence_timestamp: None,
    }
}

fn testing_request(ev: Option<SandboxWriteTestEvidence>) -> SandboxWriteTestingPolicyRequest {
    SandboxWriteTestingPolicyRequest {
        target_classification: SandboxTargetClassification::Sandbox,
        sandbox_verification_passed: true,
        evidence: ev,
        target_display_name: None,
    }
}

fn field(id: &str, name: &str, ty: &str, link: Option<&str>) -> SchemaPlanFieldInput {
    SchemaPlanFieldInput {
        field_id: id.to_string(),
        field_name: name.to_string(),
        field_type: ty.to_string(),
        linked_table_id: link.map(|l| l.to_string()),
    }
}

fn table(id: &str, name: &str, fields: Vec<SchemaPlanFieldInput>) -> SchemaPlanTableInput {
    SchemaPlanTableInput { table_id: id.to_string(), table_name: name.to_string(), fields }
}

#[test]
fn write_gate_reports_disabled_by_product_policy() {
    let gate = evaluate_write_gate();
    assert_eq!(gate.status, RestoreWriteEngineStatus::Disabled);
    assert!(write_gate_is_disabled(&gate));
    assert_eq!(
        gate.message,
        "Restore writes are disabled by product policy. No restore write can be executed."
    );
}

#[test]
fn arming_blocked_by_readiness_names_its_status() {
    let mut req = arming_request();
    req.rollback_limitation_safe = false;
    let result = build_sandbox_gate_arming_decision(&req);
    assert_eq!(result.status, SandboxGateArmingStatus::Blocked);
    assert_eq!(
        result.message,
        "Sandbox enablement readiness report did not return readyButDisabled. Current status: NotReady. All 13 readiness items must be satisfied before arming."
    );
    assert_eq!(
        result.blocked_reason.as_deref(),
        Some("SGA-CHK-04: sandbox enablement readiness must be readyButDisabled.")
    );
    assert!(result.safety_snapshot.explicit_internal_arming_requested);
    assert!(!result.safety_snapshot.readiness_ready_but_disabled);
    assert!(!result.safety_snapshot.gate_contract_eligible);
    assert!(!result.safety_snapshot.harness_ready_not_executed);
    assert!(!result.gate_armed);
}

#[test]
fn arming_ignores_declarations_no_probe_needs() {
    let mut req = arming_request();
    req.checkpoint_durability_safe = false;
    req.sensitive_data_safe = false;
    req.rate_limit_backoff_safe = false;
    let result = build_sandbox_gate_arming_decision(&req);
    assert_eq!(result.status, SandboxGateArmingStatus::ArmedNotExecutable);
    assert!(result.gate_armed);
}

#[test]
fn simulator_traverses_eight_phases_and_reports_blocked_arming() {
    let result = run_sandbox_restore_simulator(&simulator_request());
    assert_eq!(result.status, SandboxRestoreSimulatorStatus::SimulatedNotExecuted);
    assert_eq!(result.simulated_phase_count, 8);
    let skipped: Vec<&str> = result
        .phases
        .iter()
        .filter(|p| p.status == SandboxRestoreSimulatorPhaseStatus::Skipped)
        .map(|p| p.phase_id.as_str())
        .collect();
    assert_eq!(skipped, vec!["SRS-PH-02", "SRS-PH-04", "SRS-PH-06"]);
    assert_eq!(result.phases[7].label, "Final guard");

    let mut req = simulator_request();
    req.destructive_operation_policy_safe = false;
    let result = run_sandbox_restore_simulator(&req);
    assert_eq!(result.status, SandboxRestoreSimulatorStatus::Blocked);
    assert_eq!(
        result.message,
        "Sandbox gate arming decision did not return armedNotExecutable. Current status: Blocked. All arming prerequisites must be satisfied before simulation."
    );
    assert!(!result.ephemeral_armed_decision_seen);
    assert_eq!(result.simulated_phase_count, 0);
}

#[test]
fn rollback_message_names_target_and_summary_labels_behavior() {
    let req = RollbackLimitationPolicyRequest {
        plan: Some(plan(RollbackBehavior::NoAutomaticRollback, RecoveryGuidance::CheckpointBasedResume)),
        target_label: Some("my-base".to_string()),
    };
    let result = verify_rollback_limitation_policy(&req);
    assert_eq!(result.status, RollbackLimitationPolicyStatus::Compliant);
    assert_eq!(
        result.message,
        "Rollback limitation policy is compliant for 'my-base'. Automatic destructive rollback and cleanup are disabled. Partial restore is not success. Recovery guidance and user-visible limitation notice are declared. Restore writes remain disabled \u{2014} compliance does not start any write operation and does not introduce a restore success state."
    );
    let summary = result.plan_summary.expect("summary");
    assert_eq!(summary.rollback_behavior, "noAutomaticRollback");
    assert!(summary.includes_checkpoint_guidance);
}

#[test]
fn rollback_each_automatic_cleanup_fails_only_its_own_check() {
    let cases = [
        (RollbackBehavior::AutomaticDestructiveRollback, 2usize),
        (RollbackBehavior::AutomaticDeleteCleanup, 3usize),
        (RollbackBehavior::AutomaticUpdateRevertCleanup, 4usize),
    ];
    for (behavior, failing) in cases {
        let req = RollbackLimitationPolicyRequest {
            plan: Some(plan(behavior, RecoveryGuidance::CheckpointBasedResume)),
            target_label: None,
        };
        let result = verify_rollback_limitation_policy(&req);
        assert_eq!(result.status, RollbackLimitationPolicyStatus::Blocked);
        for (i, c) in result.checks.iter().enumerate() {
            if i == failing {
                assert_eq!(c.status, RollbackLimitationCheckStatus::Failed);
                assert!(c.remediation.is_some());
            } else {
                assert_eq!(c.status, RollbackLimitationCheckStatus::Passed);
            }
        }
        assert_eq!(result.plan_summary.expect("summary").rollback_behavior, behavior.label());
    }
}

#[test]
fn rollback_status_agrees_with_reported_checks() {
    for behavior in [RollbackBehavior::NoAutomaticRollback, RollbackBehavior::AutomaticDeleteCleanup] {
        for guidance in [
            RecoveryGuidance::CheckpointBasedResume,
            RecoveryGuidance::ManualCleanupRequired,
            RecoveryGuidance::NoneDeClared,
        ] {
            for notice in [true, false] {
                let mut p = plan(behavior, guidance);
                p.user_visible_limitation_notice = notice;
                let result = verify_rollback_limitation_policy(&RollbackLimitationPolicyRequest {
                    plan: Some(p),
                    target_label: None,
                });
                let failed = result.checks.iter().any(|c| c.status == RollbackLimitationCheckStatus::Failed);
                let all_passed = result.checks.iter().all(|c| c.status == RollbackLimitationCheckStatus::Passed);
                assert_eq!(result.status == RollbackLimitationPolicyStatus::Blocked, failed);
                assert_eq!(result.status == RollbackLimitationPolicyStatus::Compliant, all_passed);
            }
        }
    }
}

#[test]
fn rollback_warning_for_manual_cleanup_guidance() {
    let req = RollbackLimitationPolicyRequest {
        plan: Some(plan(RollbackBehavior::NoAutomaticRollback, RecoveryGuidance::ManualCleanupRequired)),
        target_label: None,
    };
    let result = verify_rollback_limitation_policy(&req);
    assert_eq!(result.status, RollbackLimitationPolicyStatus::Warning);
    assert_eq!(result.checks[6].status, RollbackLimitationCheckStatus::Warning);
    assert_eq!(
        result.checks[6].remediation.as_deref(),
        Some("Consider adding checkpointBasedResume as the primary recovery guidance.")
    );
    assert!(result.message.starts_with("Rollback limitation policy has warnings. "));
}

#[test]
fn verification_is_at_best_a_warning() {
    let result = verify_sandbox_environment(&verification_request());
    assert_eq!(result.status, SandboxVerificationStatus::Warning);
    assert_eq!(result.checks[9].status, SandboxVerificationCheckStatus::Skipped);
    assert_eq!(
        result.message,
        "Sandbox verification completed with warnings. Review the checks before proceeding."
    );
    assert_eq!(result.safety_summary.write_gate_status, "disabled");
}

#[test]
fn verification_rejects_windows_path_and_blocked_plan() {
    let mut req = verification_request();
    req.source_package_filename = Some("C:\\backups\\backup.zip".to_string());
    let result = verify_sandbox_environment(&req);
    assert_eq!(result.status, SandboxVerificationStatus::Blocked);
    assert_eq!(result.checks[6].status, SandboxVerificationCheckStatus::Failed);
    assert_eq!(result.checks[6].message, "Source package filename must not be a full path.");

    let mut req = verification_request();
    req.record_import_plan_status = Some("blocked".to_string());
    let result = verify_sandbox_environment(&req);
    assert_eq!(result.checks[5].status, SandboxVerificationCheckStatus::Failed);
    assert_eq!(result.checks[5].message, "A plan dependency is blocked.");

    let mut req = verification_request();
    req.schema_plan_status = Some("Blocked".to_string());
    req.record_import_plan_status = None;
    let result = verify_sandbox_environment(&req);
    assert_eq!(result.checks[5].status, SandboxVerificationCheckStatus::Passed);
}

#[test]
fn verification_warns_without_identifier_or_plan_statuses() {
    let mut req = verification_request();
    req.target_mode = RestoreTargetMode::EmptyExistingBase;
    req.target_base_name = None;
    req.schema_plan_status = None;
    req.record_import_plan_status = None;
    req.source_package_filename = None;
    let result = verify_sandbox_environment(&req);
    assert_eq!(result.status, SandboxVerificationStatus::Warning);
    assert_eq!(result.checks[0].status, SandboxVerificationCheckStatus::Warning);
    assert_eq!(result.checks[5].status, SandboxVerificationCheckStatus::Warning);
    assert_eq!(result.checks[6].status, SandboxVerificationCheckStatus::Skipped);
}

#[test]
fn write_testing_lists_missing_evidence_fields_in_order() {
    let mut ev = evidence();
    ev.sandbox_base_verified = false;
    ev.record_plan_reviewed = false;
    ev.test_package_filename = Some("dir/test.airbridge".to_string());
    let result = verify_sandbox_write_testing_policy(&testing_request(Some(ev)));
    assert_eq!(result.status, SandboxWriteTestingPolicyStatus::Warning);
    assert_eq!(
        result.checks[4].message,
        "Evidence is incomplete. Missing or false: sandbox_base_verified, record_plan_reviewed, test_package_filename."
    );
    assert_eq!(
        result.message,
        "Sandbox write testing policy for the restore target has warnings. Evidence is incomplete or partial. Restore writes remain disabled."
    );

    let mut ev = evidence();
    ev.test_package_filename = Some(String::new());
    let result = verify_sandbox_write_testing_policy(&testing_request(Some(ev)));
    assert_eq!(
        result.checks[4].message,
        "Evidence is incomplete. Missing or false: test_package_filename."
    );
}

#[test]
fn write_testing_status_agrees_with_reported_checks() {
    for classification in [
        SandboxTargetClassification::Sandbox,
        SandboxTargetClassification::Production,
        SandboxTargetClassification::Unknown,
    ] {
        for ev in [None, Some(evidence()), Some(SandboxWriteTestEvidence { dry_run_completed: false, ..evidence() })] {
            let mut req = testing_request(ev);
            req.target_classification = classification;
            let result = verify_sandbox_write_testing_policy(&req);
            let failed = result.checks.iter().any(|c| c.status == SandboxWriteTestingCheckStatus::Failed);
            let all_passed = result.checks.iter().all(|c| c.status == SandboxWriteTestingCheckStatus::Passed);
            assert_eq!(result.status == SandboxWriteTestingPolicyStatus::Blocked, failed);
            assert_eq!(result.status == SandboxWriteTestingPolicyStatus::Compliant, all_passed);
            assert!(!result.writes_enabled);
        }
    }
}

#[test]
fn dependency_graph_notes_and_first_matching_table_name() {
    let tables = vec![
        table("tblA", "Projects", vec![
            field("fld1", "Owner", "multipleRecordLinks", Some("tblB")),
            field("fld2", "Orphan", "multipleRecordLinks", None),
        ]),
        table("tblB", "People", vec![]),
        table("tblB", "Shadow", vec![field("fld3", "Name", "singleLineText", None)]),
    ];
    let graph = build_dependency_graph(&tables);
    assert_eq!(graph.edges.len(), 2);
    assert_eq!(graph.edges[0].target_table_name, "People");
    assert_eq!(
        graph.edges[0].note,
        "Field 'Owner' in 'Projects' links to 'People'. Record IDs must be remapped after import."
    );
    assert_eq!(graph.edges[1].target_table_id, "");
    assert_eq!(graph.edges[1].target_table_name, "");
    assert!(!graph.has_circular_dependency);
    assert!(graph.resolution_note.starts_with("Linked record fields are deferred"));
}

#[test]
fn checkpoint_store_needs_safety_declarations_and_phases() {
    let stored = store_restore_checkpoint(&RestoreCheckpointStoreRequest {
        checkpoint_label: Some("after-schema".to_string()),
        checkpoint_durability_safe: Some(true),
        sensitive_data_safe: Some(true),
        mapping_checkpoint_preview_ready: None,
        final_validation_preview_ready: None,
        phases: Some(vec!["schema".to_string(), "records".to_string()]),
        boundaries: None,
    });
    assert_eq!(stored.status, RestoreCheckpointStoreStatus::Stored);
    assert_eq!(stored.stored_phase_count, 2);
    assert!(!stored.file_written);
    let blocked = store_restore_checkpoint(&RestoreCheckpointStoreRequest {
        checkpoint_label: None,
        checkpoint_durability_safe: Some(true),
        sensitive_data_safe: None,
        mapping_checkpoint_preview_ready: None,
        final_validation_preview_ready: None,
        phases: Some(vec!["schema".to_string()]),
        boundaries: None,
    });
    assert_eq!(blocked.status, RestoreCheckpointStoreStatus::Blocked);
    assert_eq!(blocked.stored_phase_count, 0);
}

#[test]
fn executors_stay_not_executed_or_blocked() {
    let req = LinkedSecondPassExecutorRequest {
        mode: LinkedSecondPassExecutorMode::SandboxOnly,
        explicit_internal_linked_second_pass_requested: true,
        sandbox_verified: true,
        target_empty_verified: true,
        record_executor_safe: true,
        linked_second_pass_preview_ready: true,
        linked_second_pass_preview_status: LinkedSecondPassExecutionPreviewStatus::Ready,
        mapping_checkpoint_preview_ready: true,
        sensitive_data_safe: true,
        live_write_readiness_satisfied: true,
        batch_size: 10,
        field_summaries: vec![],
    };
    assert_eq!(build_linked_second_pass_executor_plan(&req).status, LinkedSecondPassExecutorStatus::NotExecuted);
    let zero_batch = LinkedSecondPassExecutorRequest { batch_size: 0, ..req };
    let result = build_linked_second_pass_executor_plan(&zero_batch);
    assert_eq!(result.status, LinkedSecondPassExecutorStatus::Blocked);
    assert!(!result.network_writes_attempted);

    let reader = FinalValidationReaderRequest {
        mode: FinalValidationReaderMode::Disabled,
        explicit_internal_final_validation_read_requested: true,
        sandbox_verified: true,
        schema_executor_safe: true,
        record_executor_safe: true,
        linked_executor_safe: true,
        final_validation_preview_ready: true,
        final_validation_enforcement_safe: true,
        sensitive_data_safe: true,
        attachment_phase_disabled_safe: true,
        table_count: 1,
        field_count: 1,
        record_count: 1,
        id_mapping_entry_count: 1,
        linked_coverage_count: 0,
        attachment_metadata_count: 0,
        manifest_present: false,
    };
    let result = build_final_validation_reader_plan(&reader);
    assert_eq!(result.status, FinalValidationReaderStatus::Blocked);
    assert!(!result.network_reads_attempted);
}

