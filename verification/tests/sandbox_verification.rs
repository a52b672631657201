use airbridge_restore::plan::{RestoreTargetMode};
use airbridge_restore::sandbox_verification::{SandboxVerificationCheckStatus, SandboxVerificationRequest, SandboxVerificationStatus, verify_sandbox_environment};
use airbridge_restore::write_gate::{RestoreWriteEngineStatus, evaluate_write_gate};

fn safe_request() -> SandboxVerificationRequest {
    SandboxVerificationRequest {
        target_mode: RestoreTargetMode::NewBase,
        target_base_id: None,
        target_base_name: Some("My Restored Base".to_string()),
        target_table_count: Some(3),
        target_record_count: Some(100),
        expects_empty_target: true,
        allow_attachment_upload: false,
        allow_destructive_operations: false,
        source_package_filename: Some("backup.zip".to_string()),
        schema_plan_status: Some("ready".to_string()),
        record_import_plan_status: Some("ready".to_string()),
    }
}

#[test]
fn new_base_target_returns_verified_or_warning() {
    let req = safe_request();
    let result = verify_sandbox_environment(&req);
    // With a safe request the result must not be Blocked.
    assert_ne!(result.status, SandboxVerificationStatus::Blocked);
    let chk01 = result
        .checks
        .iter()
        .find(|c| c.check_id == "CHK-01")
        .unwrap();
    assert_eq!(chk01.status, SandboxVerificationCheckStatus::Passed);
}

#[test]
fn empty_existing_base_target_returns_verified_or_warning() {
    let mut req = safe_request();
    req.target_mode = RestoreTargetMode::EmptyExistingBase;
    req.target_base_id = Some("appXYZ".to_string());
    let result = verify_sandbox_environment(&req);
    assert_ne!(result.status, SandboxVerificationStatus::Blocked);
    let chk01 = result
        .checks
        .iter()
        .find(|c| c.check_id == "CHK-01")
        .unwrap();
    assert_eq!(chk01.status, SandboxVerificationCheckStatus::Passed);
}

#[test]
fn both_target_modes_are_passed_on_chk01() {
    // RestoreTargetMode only has NewBase and EmptyExistingBase — both are allowed.
    for mode in [
        RestoreTargetMode::NewBase,
        RestoreTargetMode::EmptyExistingBase,
    ] {
        let mut req = safe_request();
        req.target_mode = mode.clone();
        if mode == RestoreTargetMode::EmptyExistingBase {
            req.target_base_id = Some("appABC".to_string());
        }
        let result = verify_sandbox_environment(&req);
        let chk01 = result
            .checks
            .iter()
            .find(|c| c.check_id == "CHK-01")
            .unwrap();
        assert_eq!(
            chk01.status,
            SandboxVerificationCheckStatus::Passed,
            "CHK-01 should pass for {:?}",
            mode
        );
    }
}

#[test]
fn non_empty_target_returns_blocked() {
    let mut req = safe_request();
    req.expects_empty_target = false;
    let result = verify_sandbox_environment(&req);
    assert_eq!(result.status, SandboxVerificationStatus::Blocked);
    let chk02 = result
        .checks
        .iter()
        .find(|c| c.check_id == "CHK-02")
        .unwrap();
    assert_eq!(chk02.status, SandboxVerificationCheckStatus::Failed);
}

#[test]
fn destructive_operations_returns_blocked() {
    let mut req = safe_request();
    req.allow_destructive_operations = true;
    let result = verify_sandbox_environment(&req);
    assert_eq!(result.status, SandboxVerificationStatus::Blocked);
    let chk04 = result
        .checks
        .iter()
        .find(|c| c.check_id == "CHK-04")
        .unwrap();
    assert_eq!(chk04.status, SandboxVerificationCheckStatus::Failed);
}

#[test]
fn attachment_upload_returns_warning_not_blocked() {
    let mut req = safe_request();
    req.allow_attachment_upload = true;
    let result = verify_sandbox_environment(&req);
    // Must be Warning, not Blocked
    assert_eq!(result.status, SandboxVerificationStatus::Warning);
    let chk05 = result
        .checks
        .iter()
        .find(|c| c.check_id == "CHK-05")
        .unwrap();
    assert_eq!(chk05.status, SandboxVerificationCheckStatus::Warning);
}

#[test]
fn write_gate_check_is_included_and_passed() {
    let req = safe_request();
    let result = verify_sandbox_environment(&req);
    let chk03 = result
        .checks
        .iter()
        .find(|c| c.check_id == "CHK-03")
        .unwrap();
    assert_eq!(chk03.status, SandboxVerificationCheckStatus::Passed);
    assert!(chk03.message.contains("disabled") || chk03.message.contains("Write gate"));
}

#[test]
fn gate_cannot_return_succeeded() {
    // Structural test: enumerate all allowed gate statuses — Succeeded must not exist.
    // RestoreWriteEngineStatus variants: Disabled, Blocked, NotStarted
    // None of them are "Succeeded", which confirms no succeeded path exists.
    let allowed_statuses = [
        RestoreWriteEngineStatus::Disabled,
        RestoreWriteEngineStatus::Blocked,
        RestoreWriteEngineStatus::NotStarted,
    ];
    for status in &allowed_statuses {
        // None of the variant names should be "Succeeded"
        let debug_str = format!("{:?}", status);
        assert_ne!(debug_str, "Succeeded");
    }

    // The actual gate must always return Disabled.
    let gate = evaluate_write_gate();
    assert_eq!(gate.status, RestoreWriteEngineStatus::Disabled);
}

#[test]
fn missing_target_name_for_empty_existing_base_returns_warning() {
    let mut req = safe_request();
    req.target_mode = RestoreTargetMode::EmptyExistingBase;
    req.target_base_id = None;
    req.target_base_name = None;
    let result = verify_sandbox_environment(&req);
    let chk01 = result
        .checks
        .iter()
        .find(|c| c.check_id == "CHK-01")
        .unwrap();
    assert_eq!(chk01.status, SandboxVerificationCheckStatus::Warning);
    assert!(chk01.message.contains("missing an identifier"));
    // Overall should be Warning, not Blocked (CHK-01 is Warning not Failed)
    assert_ne!(result.status, SandboxVerificationStatus::Blocked);
    // But it cannot be Verified either, since there's at least one Warning/Skipped
    assert_eq!(result.status, SandboxVerificationStatus::Warning);
}

#[test]
fn full_path_filename_returns_blocked() {
    let mut req = safe_request();
    req.source_package_filename = Some("/Users/someone/backups/backup.zip".to_string());
    let result = verify_sandbox_environment(&req);
    assert_eq!(result.status, SandboxVerificationStatus::Blocked);
    let chk07 = result
        .checks
        .iter()
        .find(|c| c.check_id == "CHK-07")
        .unwrap();
    assert_eq!(chk07.status, SandboxVerificationCheckStatus::Failed);
}

#[test]
fn filename_only_is_accepted() {
    let mut req = safe_request();
    req.source_package_filename = Some("my_backup.zip".to_string());
    let result = verify_sandbox_environment(&req);
    let chk07 = result
        .checks
        .iter()
        .find(|c| c.check_id == "CHK-07")
        .unwrap();
    assert_eq!(chk07.status, SandboxVerificationCheckStatus::Passed);
}

#[test]
fn windows_path_filename_returns_blocked() {
    let mut req = safe_request();
    req.source_package_filename = Some("C:\\Users\\someone\\backup.zip".to_string());
    let result = verify_sandbox_environment(&req);
    let chk07 = result
        .checks
        .iter()
        .find(|c| c.check_id == "CHK-07")
        .unwrap();
    assert_eq!(chk07.status, SandboxVerificationCheckStatus::Failed);
}

#[test]
fn schema_plan_blocked_returns_blocked() {
    let mut req = safe_request();
    req.schema_plan_status = Some("blocked".to_string());
    let result = verify_sandbox_environment(&req);
    assert_eq!(result.status, SandboxVerificationStatus::Blocked);
    let chk06 = result
        .checks
        .iter()
        .find(|c| c.check_id == "CHK-06")
        .unwrap();
    assert_eq!(chk06.status, SandboxVerificationCheckStatus::Failed);
}

#[test]
fn record_import_plan_blocked_returns_blocked() {
    let mut req = safe_request();
    req.record_import_plan_status = Some("blocked".to_string());
    let result = verify_sandbox_environment(&req);
    assert_eq!(result.status, SandboxVerificationStatus::Blocked);
    let chk06 = result
        .checks
        .iter()
        .find(|c| c.check_id == "CHK-06")
        .unwrap();
    assert_eq!(chk06.status, SandboxVerificationCheckStatus::Failed);
}

#[test]
fn sandbox_verification_no_changes_made_always_true() {
    let req = safe_request();
    let result = verify_sandbox_environment(&req);
    assert!(result.no_changes_made);
    assert!(result.safety_summary.no_changes_made);
}

#[test]
fn sandbox_verification_network_writes_attempted_always_false() {
    let req = safe_request();
    let result = verify_sandbox_environment(&req);
    assert!(!result.network_writes_attempted);
    assert!(!result.safety_summary.network_writes_attempted);
}

#[test]
fn sandbox_verification_writes_enabled_always_false() {
    let req = safe_request();
    let result = verify_sandbox_environment(&req);
    assert!(!result.writes_enabled);
    assert!(!result.safety_summary.writes_enabled);
}

#[test]
fn live_metadata_check_is_skipped() {
    let req = safe_request();
    let result = verify_sandbox_environment(&req);
    let chk10 = result
        .checks
        .iter()
        .find(|c| c.check_id == "CHK-10")
        .unwrap();
    assert_eq!(chk10.status, SandboxVerificationCheckStatus::Skipped);
    assert!(!result.safety_summary.live_metadata_check_performed);
}

#[test]
fn safety_summary_write_gate_status_is_disabled() {
    let req = safe_request();
    let result = verify_sandbox_environment(&req);
    assert_eq!(result.safety_summary.write_gate_status, "disabled");
}

#[test]
fn chk08_token_safety_always_passed() {
    let req = safe_request();
    let result = verify_sandbox_environment(&req);
    let chk08 = result
        .checks
        .iter()
        .find(|c| c.check_id == "CHK-08")
        .unwrap();
    assert_eq!(chk08.status, SandboxVerificationCheckStatus::Passed);
}

#[test]
fn chk09_network_safety_always_passed() {
    let req = safe_request();
    let result = verify_sandbox_environment(&req);
    let chk09 = result
        .checks
        .iter()
        .find(|c| c.check_id == "CHK-09")
        .unwrap();
    assert_eq!(chk09.status, SandboxVerificationCheckStatus::Passed);
}

#[test]
fn all_ten_checks_are_present() {
    let req = safe_request();
    let result = verify_sandbox_environment(&req);
    let ids: Vec<&str> = result.checks.iter().map(|c| c.check_id.as_str()).collect();
    for i in 1..=10 {
        let expected = format!("CHK-{:02}", i);
        assert!(
            ids.contains(&expected.as_str()),
            "Missing check {}",
            expected
        );
    }
}

#[test]
fn blocked_result_has_correct_message() {
    let mut req = safe_request();
    req.expects_empty_target = false;
    let result = verify_sandbox_environment(&req);
    assert_eq!(result.status, SandboxVerificationStatus::Blocked);
    assert!(result.message.contains("blocked") || result.message.contains("Blocked"));
}

#[test]
fn missing_filename_skips_chk07() {
    let mut req = safe_request();
    req.source_package_filename = None;
    let result = verify_sandbox_environment(&req);
    let chk07 = result
        .checks
        .iter()
        .find(|c| c.check_id == "CHK-07")
        .unwrap();
    assert_eq!(chk07.status, SandboxVerificationCheckStatus::Skipped);
}
