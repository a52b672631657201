//! Sandbox environment verification: ten checks on a restore target and its
//! request (`CHK-01`..`CHK-10`) that decide whether the sandbox is safe to
//! restore into. The live metadata check is not available, so the best
//! outcome is `Warning`; nothing is written and no network call is made.

use vstd::prelude::*;
use vstd::string::*;
use crate::plan::RestoreTargetMode;
use crate::text::{concat2, opt_view, str_contains_char, str_equal};
use crate::write_gate::{evaluate_write_gate, write_gate_is_disabled};

verus! {

#[derive(Debug, Clone, Copy, PartialEq, Eq, Structural)]
pub enum SandboxVerificationStatus {
    Verified,
    Warning,
    Blocked,
}

#[derive(Debug, Clone, Copy, PartialEq, Eq, Structural)]
pub enum SandboxVerificationCheckStatus {
    Passed,
    Warning,
    Failed,
    Skipped,
}

#[derive(Debug, Clone, Copy, PartialEq, Eq, Structural)]
pub enum SandboxVerificationFailureReason {
    TargetModeNotAllowed,
    TargetNotEmpty,
    MissingTargetIdentifier,
    MissingTargetName,
    /// The write gate is disabled: the expected state.
    WriteGateDisabled,
    WriteGateUnexpectedState,
    DestructiveOperationRequested,
    AttachmentUploadRequested,
    TokenReturnForbidden,
    FullPathReturnForbidden,
    LiveMetadataCheckUnavailable,
    InvalidRequest,
    UnsupportedTarget,
}

#[derive(Debug, Clone)]
pub struct SandboxVerificationTarget {
    pub target_mode: RestoreTargetMode,
    pub target_base_id: Option<String>,
    pub target_base_name: Option<String>,
}

#[derive(Debug, Clone)]
pub struct SandboxVerificationSafetySummary {
    pub writes_enabled: bool,
    pub network_writes_attempted: bool,
    pub no_changes_made: bool,
    pub write_gate_status: String,
    pub live_metadata_check_performed: bool,
}

#[derive(Debug, Clone)]
pub struct SandboxVerificationCheck {
    pub check_id: String,
    pub label: String,
    pub status: SandboxVerificationCheckStatus,
    pub message: String,
    pub remediation: Option<String>,
}

/// A sandbox verification request. It holds no token and, when the source
/// package filename is a path, `CHK-07` fails.
#[derive(Debug, Clone)]
pub struct SandboxVerificationRequest {
    pub target_mode: RestoreTargetMode,
    pub target_base_id: Option<String>,
    pub target_base_name: Option<String>,
    pub target_table_count: Option<u32>,
    pub target_record_count: Option<u32>,
    pub expects_empty_target: bool,
    pub allow_attachment_upload: bool,
    pub allow_destructive_operations: bool,
    pub source_package_filename: Option<String>,
    pub schema_plan_status: Option<String>,
    pub record_import_plan_status: Option<String>,
}

#[derive(Debug, Clone)]
pub struct SandboxVerificationResult {
    pub status: SandboxVerificationStatus,
    pub checks: Vec<SandboxVerificationCheck>,
    pub safety_summary: SandboxVerificationSafetySummary,
    pub message: String,
    pub no_changes_made: bool,
    pub network_writes_attempted: bool,
    pub writes_enabled: bool,
}

pub const SV_01_PASS: &'static str = "Target mode is safe for restore.";
pub const SV_01_NO_IDENTIFIER: &'static str =
    "EmptyExistingBase target is missing an identifier. Provide target_base_id or target_base_name.";
pub const SV_01_NO_IDENTIFIER_REMEDIATION: &'static str =
    "Provide either target_base_id or target_base_name to identify the target base.";
pub const CHK_01: &'static str = "CHK-01";
pub const SV_LABEL_01: &'static str = "target-mode";
pub const CHK_02: &'static str = "CHK-02";
pub const SV_LABEL_02: &'static str = "empty-target-expectation";
pub const SV_02_PASS: &'static str = "Target is expected to be empty before restore.";
pub const SV_02_FAIL: &'static str =
    "Target is not expected to be empty. Restoring into a non-empty target is not safe.";
pub const SV_02_REMEDIATION: &'static str =
    "Set expects_empty_target to true, or choose an empty target base.";
pub const CHK_03: &'static str = "CHK-03";
pub const SV_LABEL_03: &'static str = "write-gate";
pub const SV_03_PASS: &'static str = "Write gate is disabled \u{2014} no writes can be executed.";
pub const SV_03_REMEDIATION: &'static str =
    "The write gate must return Disabled for sandbox verification to pass.";
pub const CHK_04: &'static str = "CHK-04";
pub const SV_LABEL_04: &'static str = "destructive-operations";
pub const SV_04_PASS: &'static str = "Destructive operations are not requested.";
pub const SV_04_FAIL: &'static str =
    "Destructive operations have been requested. This is not permitted in sandbox mode.";
pub const SV_04_REMEDIATION: &'static str = "Set allow_destructive_operations to false.";
pub const CHK_05: &'static str = "CHK-05";
pub const SV_LABEL_05: &'static str = "attachment-upload";
pub const SV_05_PASS: &'static str = "Attachment upload is not requested.";
pub const SV_05_WARN: &'static str =
    "Attachment upload has been requested. Attachment handling is not supported in this version.";
pub const SV_05_REMEDIATION: &'static str =
    "Set allow_attachment_upload to false to suppress this warning.";
pub const SV_BLOCKED_STATUS: &'static str = "blocked";
pub const CHK_06: &'static str = "CHK-06";
pub const SV_LABEL_06: &'static str = "plan-status";
pub const SV_06_FAIL: &'static str = "A plan dependency is blocked.";
pub const SV_06_FAIL_REMEDIATION: &'static str =
    "Resolve the blocked plan before proceeding with restore.";
pub const SV_06_MISSING: &'static str =
    "Plan statuses not provided \u{2014} verification is incomplete.";
pub const SV_06_MISSING_REMEDIATION: &'static str =
    "Provide schema_plan_status and record_import_plan_status for full verification.";
pub const SV_06_PASS: &'static str = "Plan statuses are present and not blocked.";
pub const CHK_07: &'static str = "CHK-07";
pub const SV_LABEL_07: &'static str = "filename-safety";
pub const SV_07_NONE: &'static str = "No source package filename provided.";
pub const SV_07_FAIL: &'static str = "Source package filename must not be a full path.";
pub const SV_07_REMEDIATION: &'static str =
    "Provide only the filename (e.g., backup.zip), not an absolute or relative path.";
pub const SV_07_PASS: &'static str = "Source package filename is safe.";
pub const CHK_08: &'static str = "CHK-08";
pub const SV_LABEL_08: &'static str = "token-safety";
pub const SV_08_PASS: &'static str = "No token is accepted or returned by sandbox verification.";
pub const CHK_09: &'static str = "CHK-09";
pub const SV_LABEL_09: &'static str = "network-safety";
pub const SV_09_PASS: &'static str =
    "No Airtable writes are attempted. No network write calls are made.";
pub const CHK_10: &'static str = "CHK-10";
pub const SV_LABEL_10: &'static str = "live-metadata-check";
pub const SV_10_SKIPPED: &'static str =
    "Live metadata check is not implemented in this version. Full verification requires a future implementation.";
pub const SV_10_REMEDIATION: &'static str =
    "A future version will support live metadata verification against the Airtable API.";
pub const SV_MSG_VERIFIED: &'static str =
    "Sandbox verification passed. No changes have been made and no writes are enabled.";
pub const SV_MSG_WARNING: &'static str =
    "Sandbox verification completed with warnings. Review the checks before proceeding.";
pub const SV_MSG_BLOCKED: &'static str =
    "Sandbox verification is blocked. One or more checks failed. No restore operation can proceed.";
pub const SV_WRITE_GATE_STATUS: &'static str = "disabled";
pub const SV_03_FAIL_PREFIX: &'static str =
    "Write gate returned an unexpected state. Expected Disabled, got a different status. Gate message: ";

// ── Specification ────────────────────────────────────────────────────────────

pub open spec fn sv_check_is(
    c: SandboxVerificationCheck,
    id: &str,
    label: &str,
    status: SandboxVerificationCheckStatus,
    message: &str,
    remediation: Option<Seq<char>>,
) -> bool {
    &&& c.check_id@ == id@
    &&& c.label@ == label@
    &&& c.status == status
    &&& c.message@ == message@
    &&& opt_view(c.remediation) == remediation
}

/// Whether a declared plan status is `"blocked"`.
pub open spec fn status_is_blocked(s: Option<String>) -> bool {
    s matches Some(t) && t@ == SV_BLOCKED_STATUS@
}

/// Whether a filename holds a path separator.
pub open spec fn has_path_separator(name: Seq<char>) -> bool {
    name.contains('/') || name.contains('\\')
}

/// Whether an `EmptyExistingBase` target lacks both an id and a name.
pub open spec fn missing_identifier(r: SandboxVerificationRequest) -> bool {
    r.target_mode == RestoreTargetMode::EmptyExistingBase && r.target_base_id is None
        && r.target_base_name is None
}

/// The ten checks of a request, in order.
pub open spec fn sv_checks(cs: Seq<SandboxVerificationCheck>, r: SandboxVerificationRequest) -> bool {
    &&& cs.len() == 10
    &&& if missing_identifier(r) {
        sv_check_is(cs[0], CHK_01, SV_LABEL_01, SandboxVerificationCheckStatus::Warning,
            SV_01_NO_IDENTIFIER, Some(SV_01_NO_IDENTIFIER_REMEDIATION@))
    } else {
        sv_check_is(cs[0], CHK_01, SV_LABEL_01, SandboxVerificationCheckStatus::Passed, SV_01_PASS, None)
    }
    &&& if r.expects_empty_target {
        sv_check_is(cs[1], CHK_02, SV_LABEL_02, SandboxVerificationCheckStatus::Passed, SV_02_PASS, None)
    } else {
        sv_check_is(cs[1], CHK_02, SV_LABEL_02, SandboxVerificationCheckStatus::Failed, SV_02_FAIL,
            Some(SV_02_REMEDIATION@))
    }
    &&& sv_check_is(cs[2], CHK_03, SV_LABEL_03, SandboxVerificationCheckStatus::Passed, SV_03_PASS, None)
    &&& if !r.allow_destructive_operations {
        sv_check_is(cs[3], CHK_04, SV_LABEL_04, SandboxVerificationCheckStatus::Passed, SV_04_PASS, None)
    } else {
        sv_check_is(cs[3], CHK_04, SV_LABEL_04, SandboxVerificationCheckStatus::Failed, SV_04_FAIL,
            Some(SV_04_REMEDIATION@))
    }
    &&& if !r.allow_attachment_upload {
        sv_check_is(cs[4], CHK_05, SV_LABEL_05, SandboxVerificationCheckStatus::Passed, SV_05_PASS, None)
    } else {
        sv_check_is(cs[4], CHK_05, SV_LABEL_05, SandboxVerificationCheckStatus::Warning, SV_05_WARN,
            Some(SV_05_REMEDIATION@))
    }
    &&& if status_is_blocked(r.schema_plan_status) || status_is_blocked(r.record_import_plan_status) {
        sv_check_is(cs[5], CHK_06, SV_LABEL_06, SandboxVerificationCheckStatus::Failed, SV_06_FAIL,
            Some(SV_06_FAIL_REMEDIATION@))
    } else if r.schema_plan_status is None && r.record_import_plan_status is None {
        sv_check_is(cs[5], CHK_06, SV_LABEL_06, SandboxVerificationCheckStatus::Warning,
            SV_06_MISSING, Some(SV_06_MISSING_REMEDIATION@))
    } else {
        sv_check_is(cs[5], CHK_06, SV_LABEL_06, SandboxVerificationCheckStatus::Passed, SV_06_PASS, None)
    }
    &&& match r.source_package_filename {
        None => sv_check_is(cs[6], CHK_07, SV_LABEL_07, SandboxVerificationCheckStatus::Skipped,
            SV_07_NONE, None),
        Some(f) => if has_path_separator(f@) {
            sv_check_is(cs[6], CHK_07, SV_LABEL_07, SandboxVerificationCheckStatus::Failed,
                SV_07_FAIL, Some(SV_07_REMEDIATION@))
        } else {
            sv_check_is(cs[6], CHK_07, SV_LABEL_07, SandboxVerificationCheckStatus::Passed,
                SV_07_PASS, None)
        },
    }
    &&& sv_check_is(cs[7], CHK_08, SV_LABEL_08, SandboxVerificationCheckStatus::Passed, SV_08_PASS, None)
    &&& sv_check_is(cs[8], CHK_09, SV_LABEL_09, SandboxVerificationCheckStatus::Passed, SV_09_PASS, None)
    &&& sv_check_is(cs[9], CHK_10, SV_LABEL_10, SandboxVerificationCheckStatus::Skipped,
        SV_10_SKIPPED, Some(SV_10_REMEDIATION@))
}

/// Whether some check of a request fails.
pub open spec fn sv_fails(r: SandboxVerificationRequest) -> bool {
    ||| !r.expects_empty_target
    ||| r.allow_destructive_operations
    ||| status_is_blocked(r.schema_plan_status)
    ||| status_is_blocked(r.record_import_plan_status)
    ||| (r.source_package_filename matches Some(f) && has_path_separator(f@))
}

/// The overall status of a list of checks: any failure blocks; otherwise any
/// warning or skipped check warns.
pub open spec fn overall_status(cs: Seq<SandboxVerificationCheck>) -> SandboxVerificationStatus {
    if exists|i: int| 0 <= i < cs.len() && (#[trigger] cs[i]).status == SandboxVerificationCheckStatus::Failed {
        SandboxVerificationStatus::Blocked
    } else if exists|i: int| 0 <= i < cs.len()
        && ((#[trigger] cs[i]).status == SandboxVerificationCheckStatus::Warning
            || cs[i].status == SandboxVerificationCheckStatus::Skipped) {
        SandboxVerificationStatus::Warning
    } else {
        SandboxVerificationStatus::Verified
    }
}

/// The message of an overall status.
pub open spec fn sv_message(s: SandboxVerificationStatus) -> Seq<char> {
    match s {
        SandboxVerificationStatus::Verified => SV_MSG_VERIFIED@,
        SandboxVerificationStatus::Warning => SV_MSG_WARNING@,
        SandboxVerificationStatus::Blocked => SV_MSG_BLOCKED@,
    }
}

/// The target-mode check warns exactly when an existing base is named by
/// neither an id nor a name; a request that gives either passes it.
pub proof fn lemma_target_check_warns_only_without_identifier(
    cs: Seq<SandboxVerificationCheck>,
    r: SandboxVerificationRequest,
)
    requires
        sv_checks(cs, r),
    ensures
        cs[0].status == if r.target_mode == RestoreTargetMode::EmptyExistingBase
            && r.target_base_id is None && r.target_base_name is None {
            SandboxVerificationCheckStatus::Warning
        } else {
            SandboxVerificationCheckStatus::Passed
        },
        r.target_base_id is Some || r.target_base_name is Some ==> cs[0].message@ == SV_01_PASS@,
{
}

// ── Helpers ──────────────────────────────────────────────────────────────────

fn check(
    id: &str,
    label: &str,
    status: SandboxVerificationCheckStatus,
    message: &str,
) -> (c: SandboxVerificationCheck)
    ensures
        sv_check_is(c, id, label, status, message, None),
{
    SandboxVerificationCheck {
        check_id: String::from_str(id),
        label: String::from_str(label),
        status,
        message: String::from_str(message),
        remediation: None,
    }
}

fn check_with_remediation(
    id: &str,
    label: &str,
    status: SandboxVerificationCheckStatus,
    message: &str,
    remediation: &str,
) -> (c: SandboxVerificationCheck)
    ensures
        sv_check_is(c, id, label, status, message, Some(remediation@)),
{
    SandboxVerificationCheck {
        check_id: String::from_str(id),
        label: String::from_str(label),
        status,
        message: String::from_str(message),
        remediation: Some(String::from_str(remediation)),
    }
}

/// Whether a declared plan status is `"blocked"`.
fn is_blocked_status(s: &Option<String>) -> (b: bool)
    ensures
        b == status_is_blocked(*s),
{
    match s {
        Some(t) => str_equal(t.as_str(), SV_BLOCKED_STATUS),
        None => false,
    }
}

/// The overall status of a list of checks.
fn derive_overall_status(checks: &[SandboxVerificationCheck]) -> (s: SandboxVerificationStatus)
    ensures
        s == overall_status(checks@),
{
    let mut has_failed = false;
    let mut has_warning_or_skipped = false;
    let mut i: usize = 0;
    while i < checks.len()
        invariant
            i <= checks@.len(),
            has_failed == exists|j: int| 0 <= j < i
                && (#[trigger] checks@[j]).status == SandboxVerificationCheckStatus::Failed,
            has_warning_or_skipped == exists|j: int| 0 <= j < i
                && ((#[trigger] checks@[j]).status == SandboxVerificationCheckStatus::Warning
                    || checks@[j].status == SandboxVerificationCheckStatus::Skipped),
        decreases checks.len() - i,
    {
        match checks[i].status {
            SandboxVerificationCheckStatus::Failed => { has_failed = true; },
            SandboxVerificationCheckStatus::Warning => { has_warning_or_skipped = true; },
            SandboxVerificationCheckStatus::Skipped => { has_warning_or_skipped = true; },
            SandboxVerificationCheckStatus::Passed => {},
        }
        i = i + 1;
    }
    if has_failed {
        SandboxVerificationStatus::Blocked
    } else if has_warning_or_skipped {
        SandboxVerificationStatus::Warning
    } else {
        SandboxVerificationStatus::Verified
    }
}

// ── Core function ────────────────────────────────────────────────────────────

/// Verifies the sandbox environment of a restore request.
///
/// Ten checks are reported in order: the target mode (an `EmptyExistingBase`
/// with neither id nor name warns), the empty-target expectation, the write
/// gate, destructive operations, attachment upload (warns), the plan statuses
/// (a `"blocked"` plan fails, none given warns), the filename (a path fails,
/// none given is skipped), token and network safety, and the live metadata
/// check, which is always skipped. Any failed check blocks the result;
/// otherwise it is `Warning`. Nothing is written.
pub fn verify_sandbox_environment(
    request: &SandboxVerificationRequest,
) -> (result: SandboxVerificationResult)
    ensures
        sv_checks(result.checks@, *request),
        result.checks@.len() == 10,
        result.checks@[0].status == if request.target_mode == RestoreTargetMode::EmptyExistingBase
            && request.target_base_id is None && request.target_base_name is None {
            SandboxVerificationCheckStatus::Warning
        } else {
            SandboxVerificationCheckStatus::Passed
        },
        request.target_base_id is Some || request.target_base_name is Some
            ==> result.checks@[0].message@ == SV_01_PASS@,
        result.checks@[5].status == if (request.schema_plan_status is Some
            && request.schema_plan_status->0@ == SV_BLOCKED_STATUS@)
            || (request.record_import_plan_status is Some
            && request.record_import_plan_status->0@ == SV_BLOCKED_STATUS@) {
            SandboxVerificationCheckStatus::Failed
        } else if request.schema_plan_status is None && request.record_import_plan_status is None {
            SandboxVerificationCheckStatus::Warning
        } else {
            SandboxVerificationCheckStatus::Passed
        },
        result.checks@[6].status == if request.source_package_filename is None {
            SandboxVerificationCheckStatus::Skipped
        } else if (request.source_package_filename is Some
            && (request.source_package_filename->0@.contains('/')
            || request.source_package_filename->0@.contains('\\'))) {
            SandboxVerificationCheckStatus::Failed
        } else {
            SandboxVerificationCheckStatus::Passed
        },
        result.status == if !request.expects_empty_target || request.allow_destructive_operations
            || (request.schema_plan_status is Some
            && request.schema_plan_status->0@ == SV_BLOCKED_STATUS@)
            || (request.record_import_plan_status is Some
            && request.record_import_plan_status->0@ == SV_BLOCKED_STATUS@)
            || (request.source_package_filename is Some
            && (request.source_package_filename->0@.contains('/')
            || request.source_package_filename->0@.contains('\\'))) {
            SandboxVerificationStatus::Blocked
        } else {
            SandboxVerificationStatus::Warning
        },
        result.status == overall_status(result.checks@),
        result.status == (if sv_fails(*request) {
            SandboxVerificationStatus::Blocked
        } else {
            SandboxVerificationStatus::Warning
        }),
        result.message@ == sv_message(result.status),
        result.no_changes_made,
        !result.network_writes_attempted,
        !result.writes_enabled,
        !result.safety_summary.writes_enabled,
        !result.safety_summary.network_writes_attempted,
        result.safety_summary.no_changes_made,
        result.safety_summary.write_gate_status@ == SV_WRITE_GATE_STATUS@,
        !result.safety_summary.live_metadata_check_performed,
{
    let mut checks: Vec<SandboxVerificationCheck> = Vec::new();

    // CHK-01: target mode.
    let no_identifier = match request.target_mode {
        RestoreTargetMode::NewBase => false,
        RestoreTargetMode::EmptyExistingBase =>
            request.target_base_id.is_none() && request.target_base_name.is_none(),
    };
    if no_identifier {
        checks.push(check_with_remediation(CHK_01, SV_LABEL_01, SandboxVerificationCheckStatus::Warning,
            SV_01_NO_IDENTIFIER, SV_01_NO_IDENTIFIER_REMEDIATION));
    } else {
        checks.push(check(CHK_01, SV_LABEL_01, SandboxVerificationCheckStatus::Passed, SV_01_PASS));
    }

    // CHK-02: empty target expectation.
    if request.expects_empty_target {
        checks.push(check(CHK_02, SV_LABEL_02, SandboxVerificationCheckStatus::Passed, SV_02_PASS));
    } else {
        checks.push(check_with_remediation(CHK_02, SV_LABEL_02, SandboxVerificationCheckStatus::Failed,
            SV_02_FAIL, SV_02_REMEDIATION));
    }

    // CHK-03: write gate.
    let gate = evaluate_write_gate();
    if write_gate_is_disabled(&gate) {
        checks.push(check(CHK_03, SV_LABEL_03, SandboxVerificationCheckStatus::Passed, SV_03_PASS));
    } else {
        let message = concat2(SV_03_FAIL_PREFIX, gate.message.as_str());
        checks.push(check_with_remediation(CHK_03, SV_LABEL_03, SandboxVerificationCheckStatus::Failed,
            message.as_str(), SV_03_REMEDIATION));
    }

    // CHK-04: destructive operations.
    if !request.allow_destructive_operations {
        checks.push(check(CHK_04, SV_LABEL_04, SandboxVerificationCheckStatus::Passed, SV_04_PASS));
    } else {
        checks.push(check_with_remediation(CHK_04, SV_LABEL_04, SandboxVerificationCheckStatus::Failed,
            SV_04_FAIL, SV_04_REMEDIATION));
    }

    // CHK-05: attachment upload.
    if !request.allow_attachment_upload {
        checks.push(check(CHK_05, SV_LABEL_05, SandboxVerificationCheckStatus::Passed, SV_05_PASS));
    } else {
        checks.push(check_with_remediation(CHK_05, SV_LABEL_05, SandboxVerificationCheckStatus::Warning,
            SV_05_WARN, SV_05_REMEDIATION));
    }

    // CHK-06: plan statuses.
    let schema_blocked = is_blocked_status(&request.schema_plan_status);
    let record_blocked = is_blocked_status(&request.record_import_plan_status);
    if schema_blocked || record_blocked {
        checks.push(check_with_remediation(CHK_06, SV_LABEL_06, SandboxVerificationCheckStatus::Failed,
            SV_06_FAIL, SV_06_FAIL_REMEDIATION));
    } else if request.schema_plan_status.is_none() && request.record_import_plan_status.is_none() {
        checks.push(check_with_remediation(CHK_06, SV_LABEL_06, SandboxVerificationCheckStatus::Warning,
            SV_06_MISSING, SV_06_MISSING_REMEDIATION));
    } else {
        checks.push(check(CHK_06, SV_LABEL_06, SandboxVerificationCheckStatus::Passed, SV_06_PASS));
    }

    // CHK-07: filename safety.
    match &request.source_package_filename {
        None => {
            checks.push(check(CHK_07, SV_LABEL_07, SandboxVerificationCheckStatus::Skipped, SV_07_NONE));
        },
        Some(filename) => {
            if str_contains_char(filename.as_str(), '/') || str_contains_char(filename.as_str(), '\\') {
                checks.push(check_with_remediation(CHK_07, SV_LABEL_07,
                    SandboxVerificationCheckStatus::Failed, SV_07_FAIL, SV_07_REMEDIATION));
            } else {
                checks.push(check(CHK_07, SV_LABEL_07, SandboxVerificationCheckStatus::Passed, SV_07_PASS));
            }
        },
    }

    // CHK-08 .. CHK-10.
    checks.push(check(CHK_08, SV_LABEL_08, SandboxVerificationCheckStatus::Passed, SV_08_PASS));
    checks.push(check(CHK_09, SV_LABEL_09, SandboxVerificationCheckStatus::Passed, SV_09_PASS));
    checks.push(check_with_remediation(CHK_10, SV_LABEL_10, SandboxVerificationCheckStatus::Skipped,
        SV_10_SKIPPED, SV_10_REMEDIATION));

    let overall = derive_overall_status(checks.as_slice());
    proof {
        let cs = checks@;
        if sv_fails(*request) {
            if !request.expects_empty_target {
                assert(cs[1].status == SandboxVerificationCheckStatus::Failed);
            } else if request.allow_destructive_operations {
                assert(cs[3].status == SandboxVerificationCheckStatus::Failed);
            } else if status_is_blocked(request.schema_plan_status)
                || status_is_blocked(request.record_import_plan_status) {
                assert(cs[5].status == SandboxVerificationCheckStatus::Failed);
            } else {
                assert(cs[6].status == SandboxVerificationCheckStatus::Failed);
            }
        } else {
            assert(cs[9].status == SandboxVerificationCheckStatus::Skipped);
            assert forall|i: int| 0 <= i < cs.len()
                implies (#[trigger] cs[i]).status != SandboxVerificationCheckStatus::Failed by {
                assert(0 <= i < 10);
            }
        }
    }
    let message = match overall {
        SandboxVerificationStatus::Verified => String::from_str(SV_MSG_VERIFIED),
        SandboxVerificationStatus::Warning => String::from_str(SV_MSG_WARNING),
        SandboxVerificationStatus::Blocked => String::from_str(SV_MSG_BLOCKED),
    };

    SandboxVerificationResult {
        status: overall,
        checks,
        safety_summary: SandboxVerificationSafetySummary {
            writes_enabled: false,
            network_writes_attempted: false,
            no_changes_made: true,
            write_gate_status: String::from_str(SV_WRITE_GATE_STATUS),
            live_metadata_check_performed: false,
        },
        message,
        no_changes_made: true,
        network_writes_attempted: false,
        writes_enabled: false,
    }
}

} // verus!
