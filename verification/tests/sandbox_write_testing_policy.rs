use airbridge_restore::sandbox_write_testing_policy::{SandboxTargetClassification, SandboxWriteTestEvidence, SandboxWriteTestingCheckStatus, SandboxWriteTestingPolicyRequest, SandboxWriteTestingPolicyStatus, verify_sandbox_write_testing_policy};

fn complete_evidence() -> SandboxWriteTestEvidence {
    SandboxWriteTestEvidence {
        sandbox_base_verified: true,
        test_package_filename: Some("test-backup.airbridge".to_string()),
        dry_run_completed: true,
        schema_plan_reviewed: true,
        record_plan_reviewed: true,
        reviewer_label: Some("sandbox-test".to_string()),
        evidence_timestamp: None,
    }
}

fn compliant_request() -> SandboxWriteTestingPolicyRequest {
    SandboxWriteTestingPolicyRequest {
        target_classification: SandboxTargetClassification::Sandbox,
        sandbox_verification_passed: true,
        evidence: Some(complete_evidence()),
        target_display_name: Some("Test Base".to_string()),
    }
}

// ── Status outcomes ───────────────────────────────────────────────────────

#[test]
fn complete_evidence_and_sandbox_target_returns_compliant() {
    let result = verify_sandbox_write_testing_policy(&compliant_request());
    assert_eq!(result.status, SandboxWriteTestingPolicyStatus::Compliant);
}

#[test]
fn no_evidence_returns_blocked() {
    let request = SandboxWriteTestingPolicyRequest {
        evidence: None,
        ..compliant_request()
    };
    let result = verify_sandbox_write_testing_policy(&request);
    assert_eq!(result.status, SandboxWriteTestingPolicyStatus::Blocked);
}

#[test]
fn production_target_returns_blocked() {
    let request = SandboxWriteTestingPolicyRequest {
        target_classification: SandboxTargetClassification::Production,
        ..compliant_request()
    };
    let result = verify_sandbox_write_testing_policy(&request);
    assert_eq!(result.status, SandboxWriteTestingPolicyStatus::Blocked);
}

#[test]
fn unknown_target_returns_blocked() {
    let request = SandboxWriteTestingPolicyRequest {
        target_classification: SandboxTargetClassification::Unknown,
        ..compliant_request()
    };
    let result = verify_sandbox_write_testing_policy(&request);
    assert_eq!(result.status, SandboxWriteTestingPolicyStatus::Blocked);
}

#[test]
fn sandbox_verification_not_passed_returns_blocked() {
    let request = SandboxWriteTestingPolicyRequest {
        sandbox_verification_passed: false,
        ..compliant_request()
    };
    let result = verify_sandbox_write_testing_policy(&request);
    assert_eq!(result.status, SandboxWriteTestingPolicyStatus::Blocked);
}

#[test]
fn partial_evidence_returns_warning() {
    let partial = SandboxWriteTestEvidence {
        sandbox_base_verified: true,
        test_package_filename: Some("test.airbridge".to_string()),
        dry_run_completed: true,
        schema_plan_reviewed: false,
        record_plan_reviewed: false,
        reviewer_label: None,
        evidence_timestamp: None,
    };
    let request = SandboxWriteTestingPolicyRequest {
        evidence: Some(partial),
        ..compliant_request()
    };
    let result = verify_sandbox_write_testing_policy(&request);
    assert_eq!(result.status, SandboxWriteTestingPolicyStatus::Warning);
}

#[test]
fn missing_filename_produces_warning() {
    let ev = SandboxWriteTestEvidence {
        test_package_filename: None,
        ..complete_evidence()
    };
    let request = SandboxWriteTestingPolicyRequest {
        evidence: Some(ev),
        ..compliant_request()
    };
    let result = verify_sandbox_write_testing_policy(&request);
    assert_eq!(result.status, SandboxWriteTestingPolicyStatus::Warning);
}

#[test]
fn filename_with_path_separator_produces_warning() {
    let ev = SandboxWriteTestEvidence {
        test_package_filename: Some("/Users/tester/test.airbridge".to_string()),
        ..complete_evidence()
    };
    let request = SandboxWriteTestingPolicyRequest {
        evidence: Some(ev),
        ..compliant_request()
    };
    let result = verify_sandbox_write_testing_policy(&request);
    assert_eq!(result.status, SandboxWriteTestingPolicyStatus::Warning);
}

// ── Check IDs ─────────────────────────────────────────────────────────────

#[test]
fn five_checks_always_present() {
    let result = verify_sandbox_write_testing_policy(&compliant_request());
    assert_eq!(result.checks.len(), 5);
}

#[test]
fn check_ids_are_swt_01_through_05() {
    let result = verify_sandbox_write_testing_policy(&compliant_request());
    let ids: Vec<&str> = result.checks.iter().map(|c| c.check_id.as_str()).collect();
    assert!(ids.contains(&"SWT-01"));
    assert!(ids.contains(&"SWT-02"));
    assert!(ids.contains(&"SWT-03"));
    assert!(ids.contains(&"SWT-04"));
    assert!(ids.contains(&"SWT-05"));
}

#[test]
fn swt_01_always_passes() {
    let result = verify_sandbox_write_testing_policy(&SandboxWriteTestingPolicyRequest {
        target_classification: SandboxTargetClassification::Unknown,
        sandbox_verification_passed: false,
        evidence: None,
        target_display_name: None,
    });
    let swt01 = result
        .checks
        .iter()
        .find(|c| c.check_id == "SWT-01")
        .unwrap();
    assert_eq!(swt01.status, SandboxWriteTestingCheckStatus::Passed);
}

#[test]
fn swt_02_fails_for_production_target() {
    let request = SandboxWriteTestingPolicyRequest {
        target_classification: SandboxTargetClassification::Production,
        ..compliant_request()
    };
    let result = verify_sandbox_write_testing_policy(&request);
    let swt02 = result
        .checks
        .iter()
        .find(|c| c.check_id == "SWT-02")
        .unwrap();
    assert_eq!(swt02.status, SandboxWriteTestingCheckStatus::Failed);
}

#[test]
fn swt_03_fails_when_sandbox_not_verified() {
    let request = SandboxWriteTestingPolicyRequest {
        sandbox_verification_passed: false,
        ..compliant_request()
    };
    let result = verify_sandbox_write_testing_policy(&request);
    let swt03 = result
        .checks
        .iter()
        .find(|c| c.check_id == "SWT-03")
        .unwrap();
    assert_eq!(swt03.status, SandboxWriteTestingCheckStatus::Failed);
}

#[test]
fn swt_04_fails_when_evidence_absent() {
    let request = SandboxWriteTestingPolicyRequest {
        evidence: None,
        ..compliant_request()
    };
    let result = verify_sandbox_write_testing_policy(&request);
    let swt04 = result
        .checks
        .iter()
        .find(|c| c.check_id == "SWT-04")
        .unwrap();
    assert_eq!(swt04.status, SandboxWriteTestingCheckStatus::Failed);
}

#[test]
fn swt_05_warns_for_incomplete_evidence() {
    let partial = SandboxWriteTestEvidence {
        sandbox_base_verified: false,
        ..complete_evidence()
    };
    let request = SandboxWriteTestingPolicyRequest {
        evidence: Some(partial),
        ..compliant_request()
    };
    let result = verify_sandbox_write_testing_policy(&request);
    let swt05 = result
        .checks
        .iter()
        .find(|c| c.check_id == "SWT-05")
        .unwrap();
    assert_eq!(swt05.status, SandboxWriteTestingCheckStatus::Warning);
}

// ── Safety invariants ─────────────────────────────────────────────────────

#[test]
fn sandbox_write_testing_policy_no_changes_made_always_true() {
    for request in [
        compliant_request(),
        SandboxWriteTestingPolicyRequest {
            target_classification: SandboxTargetClassification::Production,
            sandbox_verification_passed: false,
            evidence: None,
            target_display_name: None,
        },
    ] {
        let result = verify_sandbox_write_testing_policy(&request);
        assert!(result.no_changes_made);
    }
}

#[test]
fn sandbox_write_testing_policy_writes_enabled_always_false() {
    for request in [
        compliant_request(),
        SandboxWriteTestingPolicyRequest {
            target_classification: SandboxTargetClassification::Sandbox,
            sandbox_verification_passed: true,
            evidence: Some(complete_evidence()),
            target_display_name: None,
        },
    ] {
        let result = verify_sandbox_write_testing_policy(&request);
        assert!(!result.writes_enabled);
    }
}

#[test]
fn sandbox_write_testing_policy_network_writes_attempted_always_false() {
    let result = verify_sandbox_write_testing_policy(&compliant_request());
    assert!(!result.network_writes_attempted);
}

#[test]
fn compliant_result_does_not_enable_writes() {
    let result = verify_sandbox_write_testing_policy(&compliant_request());
    assert_eq!(result.status, SandboxWriteTestingPolicyStatus::Compliant);
    assert!(!result.writes_enabled);
}

#[test]
fn request_with_path_in_filename_produces_warning_not_blocked_on_other_fields() {
    let ev = SandboxWriteTestEvidence {
        test_package_filename: Some("test.airbridge".to_string()),
        ..complete_evidence()
    };
    let request = SandboxWriteTestingPolicyRequest {
        evidence: Some(ev),
        ..compliant_request()
    };
    let result = verify_sandbox_write_testing_policy(&request);
    assert_eq!(result.status, SandboxWriteTestingPolicyStatus::Compliant);
}

#[test]
fn message_contains_target_display_name() {
    let result = verify_sandbox_write_testing_policy(&compliant_request());
    assert!(result.message.contains("Test Base"));
}

#[test]
fn message_says_writes_remain_disabled_when_compliant() {
    let result = verify_sandbox_write_testing_policy(&compliant_request());
    assert_eq!(result.status, SandboxWriteTestingPolicyStatus::Compliant);
    assert!(result.message.contains("disabled"));
}

#[test]
fn no_evidence_result_has_five_checks() {
    let request = SandboxWriteTestingPolicyRequest {
        target_classification: SandboxTargetClassification::Sandbox,
        sandbox_verification_passed: true,
        evidence: None,
        target_display_name: None,
    };
    let result = verify_sandbox_write_testing_policy(&request);
    assert_eq!(result.checks.len(), 5);
}

#[test]
fn reviewer_label_not_in_result_message() {
    let result = verify_sandbox_write_testing_policy(&compliant_request());
    assert!(!result.message.contains("sandbox-test"));
}
