//! Sandbox write testing policy gate: before any live write is considered,
//! the target must be a sandbox base, sandbox verification must have passed,
//! and complete sandbox test evidence must be declared. Compliance never
//! enables writes.

use vstd::prelude::*;
use vstd::string::*;
use crate::text::{concat3, opt_view, owned_or, str_contains_char, text_or};
use crate::write_gate::{evaluate_write_gate, write_gate_is_disabled};

verus! {

#[derive(Debug, Clone, Copy, PartialEq, Eq, Structural)]
pub enum SandboxWriteTestingPolicyStatus {
    /// Sandbox verification passed and every required piece of evidence is
    /// present.
    Compliant,
    /// Evidence is partial.
    Warning,
    /// The target is not a sandbox, verification did not pass, or no evidence
    /// is declared.
    Blocked,
}

#[derive(Debug, Clone, Copy, PartialEq, Eq, Structural)]
pub enum SandboxWriteTestingCheckStatus {
    Passed,
    Warning,
    Failed,
}

/// Classification of the restore target.
#[derive(Debug, Clone, Copy, PartialEq, Eq, Structural)]
pub enum SandboxTargetClassification {
    Sandbox,
    Production,
    Unknown,
}

/// Evidence that sandbox write testing was performed. The package is named
/// by its file name only.
#[derive(Debug, Clone)]
pub struct SandboxWriteTestEvidence {
    pub sandbox_base_verified: bool,
    pub test_package_filename: Option<String>,
    pub dry_run_completed: bool,
    pub schema_plan_reviewed: bool,
    pub record_plan_reviewed: bool,
    pub reviewer_label: Option<String>,
    pub evidence_timestamp: Option<String>,
}

#[derive(Debug, Clone)]
pub struct SandboxWriteTestingPolicyRequest {
    pub target_classification: SandboxTargetClassification,
    pub sandbox_verification_passed: bool,
    pub evidence: Option<SandboxWriteTestEvidence>,
    pub target_display_name: Option<String>,
}

#[derive(Debug, Clone)]
pub struct SandboxWriteTestingCheck {
    pub check_id: String,
    pub label: String,
    pub status: SandboxWriteTestingCheckStatus,
    pub message: String,
    pub remediation: Option<String>,
}

#[derive(Debug, Clone)]
pub struct SandboxWriteTestingPolicyResult {
    pub status: SandboxWriteTestingPolicyStatus,
    pub checks: Vec<SandboxWriteTestingCheck>,
    pub message: String,
    pub no_changes_made: bool,
    pub network_writes_attempted: bool,
    pub writes_enabled: bool,
}

pub const SWT_01: &'static str = "SWT-01";
pub const SWT_LABEL_01: &'static str = "write-gate-disabled";
pub const SWT_01_PASS: &'static str =
    "Restore write gate is disabled. No live writes are possible.";
pub const SWT_01_FAIL: &'static str = "Restore write gate is unexpectedly enabled.";
pub const SWT_01_REMEDIATION: &'static str =
    "The write gate must remain disabled until all safety gates are satisfied.";
pub const SWT_02: &'static str = "SWT-02";
pub const SWT_LABEL_02: &'static str = "sandbox-target-classification";
pub const SWT_02_PASS: &'static str = "Target is classified as a sandbox base.";
pub const SWT_02_PRODUCTION: &'static str =
    "Target is classified as a production base. Write testing must not be performed against production.";
pub const SWT_02_PRODUCTION_REMEDIATION: &'static str =
    "Use a dedicated sandbox or test base for write testing.";
pub const SWT_02_UNKNOWN: &'static str =
    "Target classification is unknown. Cannot confirm this is a safe sandbox base.";
pub const SWT_02_UNKNOWN_REMEDIATION: &'static str =
    "Classify the target base as sandbox before proceeding with write testing.";
pub const SWT_03: &'static str = "SWT-03";
pub const SWT_LABEL_03: &'static str = "sandbox-verification-passed";
pub const SWT_03_PASS: &'static str =
    "Sandbox environment verification (Gate 1) has passed for this session.";
pub const SWT_03_FAIL: &'static str =
    "Sandbox environment verification (Gate 1) has not passed. Run Gate 1 checks first.";
pub const SWT_03_REMEDIATION: &'static str =
    "Complete sandbox environment verification before sandbox write testing.";
pub const SWT_04: &'static str = "SWT-04";
pub const SWT_LABEL_04: &'static str = "sandbox-test-evidence-present";
pub const SWT_04_FAIL: &'static str =
    "No sandbox test evidence declared. Sandbox write testing has not been recorded.";
pub const SWT_04_REMEDIATION: &'static str =
    "Provide SandboxWriteTestEvidence with the results of a completed sandbox test run.";
pub const SWT_05_NO_EVIDENCE: &'static str =
    "Evidence completeness check skipped \u{2014} no evidence declared.";
pub const SWT_05_NO_EVIDENCE_REMEDIATION: &'static str =
    "Declare sandbox test evidence to enable this check.";
pub const SWT_05: &'static str = "SWT-05";
pub const SWT_LABEL_05: &'static str = "sandbox-evidence-complete";
pub const SWT_04_PASS: &'static str = "Sandbox test evidence is declared.";
pub const SWT_05_PASS: &'static str = "All required evidence fields are present and confirmed.";
pub const SWT_FIELD_SANDBOX_BASE: &'static str = "sandbox_base_verified";
pub const SWT_FIELD_DRY_RUN: &'static str = "dry_run_completed";
pub const SWT_FIELD_SCHEMA_PLAN: &'static str = "schema_plan_reviewed";
pub const SWT_FIELD_RECORD_PLAN: &'static str = "record_plan_reviewed";
pub const SWT_FIELD_FILENAME: &'static str = "test_package_filename";
pub const SWT_SEPARATOR: &'static str = ", ";
pub const SWT_05_INCOMPLETE_REMEDIATION: &'static str =
    "Complete all required evidence fields before live write testing.";
pub const SWT_DEFAULT_TARGET: &'static str = "the restore target";
pub const SWT_05_INCOMPLETE_PREFIX: &'static str = "Evidence is incomplete. Missing or false: ";
pub const SWT_05_INCOMPLETE_SUFFIX: &'static str = ".";
pub const SWT_MSG_PREFIX: &'static str = "Sandbox write testing policy for ";
pub const SWT_MSG_COMPLIANT: &'static str =
    " is satisfied. All required evidence is present. Restore writes remain disabled.";
pub const SWT_MSG_WARNING: &'static str =
    " has warnings. Evidence is incomplete or partial. Restore writes remain disabled.";
pub const SWT_MSG_BLOCKED: &'static str =
    " is blocked. Target is not a sandbox base or required evidence is missing. Restore writes remain disabled.";

// ── Specification ────────────────────────────────────────────────────────────

pub open spec fn swt_check_is(
    c: SandboxWriteTestingCheck,
    id: &str,
    label: &str,
    status: SandboxWriteTestingCheckStatus,
    message: Seq<char>,
    remediation: Option<Seq<char>>,
) -> bool {
    &&& c.check_id@ == id@
    &&& c.label@ == label@
    &&& c.status == status
    &&& c.message@ == message
    &&& opt_view(c.remediation) == remediation
}

/// Whether the evidence names its test package by a non-empty file name
/// without a path separator.
pub open spec fn filename_ok(ev: SandboxWriteTestEvidence) -> bool {
    ev.test_package_filename matches Some(f) && f@.len() > 0 && !f@.contains('/')
        && !f@.contains('\\')
}

/// Whether every required evidence field holds.
pub open spec fn evidence_complete(ev: SandboxWriteTestEvidence) -> bool {
    ev.sandbox_base_verified && ev.dry_run_completed && ev.schema_plan_reviewed
        && ev.record_plan_reviewed && filename_ok(ev)
}

/// `seq![name]` when `missing`, the empty sequence otherwise.
pub open spec fn name_if(missing: bool, name: &str) -> Seq<Seq<char>> {
    if missing { seq![name@] } else { Seq::empty() }
}

/// The names of the evidence fields that are missing or false, in field order.
pub open spec fn missing_fields(ev: SandboxWriteTestEvidence) -> Seq<Seq<char>> {
    name_if(!ev.sandbox_base_verified, SWT_FIELD_SANDBOX_BASE)
        + name_if(!ev.dry_run_completed, SWT_FIELD_DRY_RUN)
        + name_if(!ev.schema_plan_reviewed, SWT_FIELD_SCHEMA_PLAN)
        + name_if(!ev.record_plan_reviewed, SWT_FIELD_RECORD_PLAN)
        + name_if(!filename_ok(ev), SWT_FIELD_FILENAME)
}

/// The names joined with `", "`.
pub open spec fn join_names(names: Seq<Seq<char>>) -> Seq<char>
    decreases names.len(),
{
    if names.len() == 0 {
        Seq::empty()
    } else if names.len() == 1 {
        names[0]
    } else {
        join_names(names.drop_last()) + SWT_SEPARATOR@ + names.last()
    }
}

/// The five checks of a request, in order.
pub open spec fn swt_checks(cs: Seq<SandboxWriteTestingCheck>, r: SandboxWriteTestingPolicyRequest) -> bool {
    &&& cs.len() == 5
    &&& swt_check_is(cs[0], SWT_01, SWT_LABEL_01, SandboxWriteTestingCheckStatus::Passed, SWT_01_PASS@, None)
    &&& match r.target_classification {
        SandboxTargetClassification::Sandbox => swt_check_is(cs[1], SWT_02, SWT_LABEL_02,
            SandboxWriteTestingCheckStatus::Passed, SWT_02_PASS@, None),
        SandboxTargetClassification::Production => swt_check_is(cs[1], SWT_02, SWT_LABEL_02,
            SandboxWriteTestingCheckStatus::Failed, SWT_02_PRODUCTION@,
            Some(SWT_02_PRODUCTION_REMEDIATION@)),
        SandboxTargetClassification::Unknown => swt_check_is(cs[1], SWT_02, SWT_LABEL_02,
            SandboxWriteTestingCheckStatus::Failed, SWT_02_UNKNOWN@,
            Some(SWT_02_UNKNOWN_REMEDIATION@)),
    }
    &&& if r.sandbox_verification_passed {
        swt_check_is(cs[2], SWT_03, SWT_LABEL_03, SandboxWriteTestingCheckStatus::Passed,
            SWT_03_PASS@, None)
    } else {
        swt_check_is(cs[2], SWT_03, SWT_LABEL_03, SandboxWriteTestingCheckStatus::Failed,
            SWT_03_FAIL@, Some(SWT_03_REMEDIATION@))
    }
    &&& match r.evidence {
        None => {
            &&& swt_check_is(cs[3], SWT_04, SWT_LABEL_04, SandboxWriteTestingCheckStatus::Failed,
                SWT_04_FAIL@, Some(SWT_04_REMEDIATION@))
            &&& swt_check_is(cs[4], SWT_05, SWT_LABEL_05, SandboxWriteTestingCheckStatus::Failed,
                SWT_05_NO_EVIDENCE@, Some(SWT_05_NO_EVIDENCE_REMEDIATION@))
        },
        Some(ev) => {
            &&& swt_check_is(cs[3], SWT_04, SWT_LABEL_04, SandboxWriteTestingCheckStatus::Passed,
                SWT_04_PASS@, None)
            &&& if evidence_complete(ev) {
                swt_check_is(cs[4], SWT_05, SWT_LABEL_05, SandboxWriteTestingCheckStatus::Passed,
                    SWT_05_PASS@, None)
            } else {
                swt_check_is(cs[4], SWT_05, SWT_LABEL_05, SandboxWriteTestingCheckStatus::Warning,
                    SWT_05_INCOMPLETE_PREFIX@ + join_names(missing_fields(ev))
                        + SWT_05_INCOMPLETE_SUFFIX@,
                    Some(SWT_05_INCOMPLETE_REMEDIATION@))
            }
        },
    }
}

/// The status of the policy for a request.
pub open spec fn swt_status(r: SandboxWriteTestingPolicyRequest) -> SandboxWriteTestingPolicyStatus {
    if r.target_classification != SandboxTargetClassification::Sandbox
        || !r.sandbox_verification_passed || r.evidence is None {
        SandboxWriteTestingPolicyStatus::Blocked
    } else if !evidence_complete(r.evidence->0) {
        SandboxWriteTestingPolicyStatus::Warning
    } else {
        SandboxWriteTestingPolicyStatus::Compliant
    }
}

/// The result message for a status and a target.
pub open spec fn swt_message(s: SandboxWriteTestingPolicyStatus, target: Option<String>) -> Seq<char> {
    SWT_MSG_PREFIX@ + text_or(target, SWT_DEFAULT_TARGET@) + match s {
        SandboxWriteTestingPolicyStatus::Compliant => SWT_MSG_COMPLIANT@,
        SandboxWriteTestingPolicyStatus::Warning => SWT_MSG_WARNING@,
        SandboxWriteTestingPolicyStatus::Blocked => SWT_MSG_BLOCKED@,
    }
}

/// The policy is compliant exactly when the target is a verified sandbox and
/// every evidence field holds, the package file name being non-empty and free
/// of `/` and `\\`; a package named otherwise is listed last among the missing
/// evidence fields.
pub proof fn lemma_compliant_needs_bare_package_filename(r: SandboxWriteTestingPolicyRequest)
    ensures
        (swt_status(r) == SandboxWriteTestingPolicyStatus::Compliant) == (
            r.target_classification == SandboxTargetClassification::Sandbox
            && r.sandbox_verification_passed
            && r.evidence is Some
            && r.evidence->0.sandbox_base_verified
            && r.evidence->0.dry_run_completed
            && r.evidence->0.schema_plan_reviewed
            && r.evidence->0.record_plan_reviewed
            && r.evidence->0.test_package_filename is Some
            && r.evidence->0.test_package_filename->0@.len() > 0
            && !r.evidence->0.test_package_filename->0@.contains('/')
            && !r.evidence->0.test_package_filename->0@.contains('\\')),
        r.evidence is Some && !(r.evidence->0.test_package_filename is Some
            && r.evidence->0.test_package_filename->0@.len() > 0
            && !r.evidence->0.test_package_filename->0@.contains('/')
            && !r.evidence->0.test_package_filename->0@.contains('\\')) ==> {
            &&& missing_fields(r.evidence->0).len() > 0
            &&& missing_fields(r.evidence->0).last() == SWT_FIELD_FILENAME@
        },
{
}

// ── Helpers ──────────────────────────────────────────────────────────────────

fn check(
    id: &str,
    label: &str,
    status: SandboxWriteTestingCheckStatus,
    message: &str,
) -> (c: SandboxWriteTestingCheck)
    ensures
        swt_check_is(c, id, label, status, message@, None),
{
    SandboxWriteTestingCheck {
        check_id: String::from_str(id),
        label: String::from_str(label),
        status,
        message: String::from_str(message),
        remediation: None,
    }
}

fn check_with_remediation(
    id: &str,
    label: &str,
    status: SandboxWriteTestingCheckStatus,
    message: String,
    remediation: &str,
) -> (c: SandboxWriteTestingCheck)
    ensures
        swt_check_is(c, id, label, status, message@, Some(remediation@)),
{
    SandboxWriteTestingCheck {
        check_id: String::from_str(id),
        label: String::from_str(label),
        status,
        message,
        remediation: Some(String::from_str(remediation)),
    }
}

/// Whether the evidence's package file name is non-empty and has no path
/// separator.
fn evidence_filename_ok(ev: &SandboxWriteTestEvidence) -> (b: bool)
    ensures
        b == filename_ok(*ev),
{
    match &ev.test_package_filename {
        Some(f) => {
            let s = f.as_str();
            s.unicode_len() > 0 && !str_contains_char(s, '/') && !str_contains_char(s, '\\')
        },
        None => false,
    }
}

/// Appends `name` to the `", "`-joined list `text` of `names`.
fn append_name(text: &mut String, names: Ghost<Seq<Seq<char>>>, first: bool, name: &str)
    requires
        old(text)@ == join_names(names@),
        first == (names@.len() == 0),
    ensures
        final(text)@ == join_names(names@.push(name@)),
{
    assert(names@.push(name@).drop_last() =~= names@);
    if !first {
        text.append(SWT_SEPARATOR);
    }
    text.append(name);
    if first {
        assert(text@ =~= join_names(names@.push(name@)));
    }
}

/// The names of the missing or false evidence fields, joined with `", "`.
fn missing_field_list(ev: &SandboxWriteTestEvidence, file_ok: bool) -> (s: String)
    requires
        file_ok == filename_ok(*ev),
    ensures
        s@ == join_names(missing_fields(*ev)),
{
    let mut text = String::new();
    let ghost mut names: Seq<Seq<char>> = Seq::empty();
    let mut first = true;
    assert(text@ =~= join_names(names));
    if !ev.sandbox_base_verified {
        append_name(&mut text, Ghost(names), first, SWT_FIELD_SANDBOX_BASE);
        proof { names = names.push(SWT_FIELD_SANDBOX_BASE@); }
        first = false;
    }
    assert(names =~= name_if(!ev.sandbox_base_verified, SWT_FIELD_SANDBOX_BASE));
    if !ev.dry_run_completed {
        append_name(&mut text, Ghost(names), first, SWT_FIELD_DRY_RUN);
        proof { names = names.push(SWT_FIELD_DRY_RUN@); }
        first = false;
    }
    assert(names =~= name_if(!ev.sandbox_base_verified, SWT_FIELD_SANDBOX_BASE)
        + name_if(!ev.dry_run_completed, SWT_FIELD_DRY_RUN));
    if !ev.schema_plan_reviewed {
        append_name(&mut text, Ghost(names), first, SWT_FIELD_SCHEMA_PLAN);
        proof { names = names.push(SWT_FIELD_SCHEMA_PLAN@); }
        first = false;
    }
    assert(names =~= name_if(!ev.sandbox_base_verified, SWT_FIELD_SANDBOX_BASE)
        + name_if(!ev.dry_run_completed, SWT_FIELD_DRY_RUN)
        + name_if(!ev.schema_plan_reviewed, SWT_FIELD_SCHEMA_PLAN));
    if !ev.record_plan_reviewed {
        append_name(&mut text, Ghost(names), first, SWT_FIELD_RECORD_PLAN);
        proof { names = names.push(SWT_FIELD_RECORD_PLAN@); }
        first = false;
    }
    assert(names =~= name_if(!ev.sandbox_base_verified, SWT_FIELD_SANDBOX_BASE)
        + name_if(!ev.dry_run_completed, SWT_FIELD_DRY_RUN)
        + name_if(!ev.schema_plan_reviewed, SWT_FIELD_SCHEMA_PLAN)
        + name_if(!ev.record_plan_reviewed, SWT_FIELD_RECORD_PLAN));
    if !file_ok {
        append_name(&mut text, Ghost(names), first, SWT_FIELD_FILENAME);
        proof { names = names.push(SWT_FIELD_FILENAME@); }
        first = false;
    }
    assert(names =~= missing_fields(*ev));
    text
}

/// Whether some check has the given status.
fn any_with_status(checks: &Vec<SandboxWriteTestingCheck>, s: SandboxWriteTestingCheckStatus) -> (b: bool)
    ensures
        b == exists|i: int| 0 <= i < checks@.len() && (#[trigger] checks@[i]).status == s,
{
    let mut i: usize = 0;
    while i < checks.len()
        invariant
            i <= checks@.len(),
            forall|j: int| 0 <= j < i ==> (#[trigger] checks@[j]).status != s,
        decreases checks.len() - i,
    {
        if checks[i].status == s {
            return true;
        }
        i = i + 1;
    }
    false
}

// ── Core function ────────────────────────────────────────────────────────────

/// Verifies that sandbox write testing was completed before any live write.
///
/// Five checks are reported in order: `SWT-01` the write gate is disabled,
/// `SWT-02` the target is a sandbox (production and unknown fail), `SWT-03`
/// sandbox verification passed, `SWT-04` evidence is declared, and `SWT-05`
/// the evidence is complete: when it is not, the check warns and names the
/// missing or false fields; without evidence it fails. Any failed check blocks
/// the policy, otherwise any warning makes it `Warning`. No write is enabled.
pub fn verify_sandbox_write_testing_policy(
    request: &SandboxWriteTestingPolicyRequest,
) -> (result: SandboxWriteTestingPolicyResult)
    ensures
        swt_checks(result.checks@, *request),
        result.status == swt_status(*request),
        result.checks@.len() == 5,
        (result.status == SandboxWriteTestingPolicyStatus::Compliant) == (
            request.target_classification == SandboxTargetClassification::Sandbox
            && request.sandbox_verification_passed
            && request.evidence is Some
            && request.evidence->0.sandbox_base_verified
            && request.evidence->0.dry_run_completed
            && request.evidence->0.schema_plan_reviewed
            && request.evidence->0.record_plan_reviewed
            && request.evidence->0.test_package_filename is Some
            && request.evidence->0.test_package_filename->0@.len() > 0
            && !request.evidence->0.test_package_filename->0@.contains('/')
            && !request.evidence->0.test_package_filename->0@.contains('\\')),
        request.evidence is Some && !(request.evidence->0.test_package_filename is Some
            && request.evidence->0.test_package_filename->0@.len() > 0
            && !request.evidence->0.test_package_filename->0@.contains('/')
            && !request.evidence->0.test_package_filename->0@.contains('\\')) ==> {
            &&& result.status != SandboxWriteTestingPolicyStatus::Compliant
            &&& result.checks@[4].status == SandboxWriteTestingCheckStatus::Warning
            &&& missing_fields(request.evidence->0).len() > 0
            &&& missing_fields(request.evidence->0).last() == SWT_FIELD_FILENAME@
            &&& result.checks@[4].message@ == SWT_05_INCOMPLETE_PREFIX@
                + join_names(missing_fields(request.evidence->0)) + SWT_05_INCOMPLETE_SUFFIX@
        },
        result.message@ == swt_message(result.status, request.target_display_name),
        result.no_changes_made,
        !result.network_writes_attempted,
        !result.writes_enabled,
{
    let mut checks: Vec<SandboxWriteTestingCheck> = Vec::new();

    // SWT-01: write gate disabled.
    let gate = evaluate_write_gate();
    if write_gate_is_disabled(&gate) {
        checks.push(check(SWT_01, SWT_LABEL_01, SandboxWriteTestingCheckStatus::Passed, SWT_01_PASS));
    } else {
        checks.push(check_with_remediation(SWT_01, SWT_LABEL_01, SandboxWriteTestingCheckStatus::Failed,
            String::from_str(SWT_01_FAIL), SWT_01_REMEDIATION));
    }

    // SWT-02: target classification.
    match request.target_classification {
        SandboxTargetClassification::Sandbox => {
            checks.push(check(SWT_02, SWT_LABEL_02, SandboxWriteTestingCheckStatus::Passed, SWT_02_PASS));
        },
        SandboxTargetClassification::Production => {
            checks.push(check_with_remediation(SWT_02, SWT_LABEL_02,
                SandboxWriteTestingCheckStatus::Failed, String::from_str(SWT_02_PRODUCTION),
                SWT_02_PRODUCTION_REMEDIATION));
        },
        SandboxTargetClassification::Unknown => {
            checks.push(check_with_remediation(SWT_02, SWT_LABEL_02,
                SandboxWriteTestingCheckStatus::Failed, String::from_str(SWT_02_UNKNOWN),
                SWT_02_UNKNOWN_REMEDIATION));
        },
    }

    // SWT-03: sandbox verification passed.
    if request.sandbox_verification_passed {
        checks.push(check(SWT_03, SWT_LABEL_03, SandboxWriteTestingCheckStatus::Passed, SWT_03_PASS));
    } else {
        checks.push(check_with_remediation(SWT_03, SWT_LABEL_03, SandboxWriteTestingCheckStatus::Failed,
            String::from_str(SWT_03_FAIL), SWT_03_REMEDIATION));
    }

    // SWT-04 and SWT-05: evidence declared and complete.
    match &request.evidence {
        None => {
            checks.push(check_with_remediation(SWT_04, SWT_LABEL_04,
                SandboxWriteTestingCheckStatus::Failed, String::from_str(SWT_04_FAIL),
                SWT_04_REMEDIATION));
            checks.push(check_with_remediation(SWT_05, SWT_LABEL_05,
                SandboxWriteTestingCheckStatus::Failed, String::from_str(SWT_05_NO_EVIDENCE),
                SWT_05_NO_EVIDENCE_REMEDIATION));
        },
        Some(ev) => {
            checks.push(check(SWT_04, SWT_LABEL_04, SandboxWriteTestingCheckStatus::Passed, SWT_04_PASS));
            let all_required = ev.sandbox_base_verified && ev.dry_run_completed
                && ev.schema_plan_reviewed && ev.record_plan_reviewed;
            let file_ok = evidence_filename_ok(ev);
            if all_required && file_ok {
                checks.push(check(SWT_05, SWT_LABEL_05, SandboxWriteTestingCheckStatus::Passed,
                    SWT_05_PASS));
            } else {
                let missing = missing_field_list(ev, file_ok);
                let message = concat3(SWT_05_INCOMPLETE_PREFIX, missing.as_str(),
                    SWT_05_INCOMPLETE_SUFFIX);
                checks.push(check_with_remediation(SWT_05, SWT_LABEL_05,
                    SandboxWriteTestingCheckStatus::Warning, message, SWT_05_INCOMPLETE_REMEDIATION));
            }
        },
    }

    let has_blocked = any_with_status(&checks, SandboxWriteTestingCheckStatus::Failed);
    let has_warning = any_with_status(&checks, SandboxWriteTestingCheckStatus::Warning);
    proof {
        let cs = checks@;
        if request.target_classification != SandboxTargetClassification::Sandbox {
            assert(cs[1].status == SandboxWriteTestingCheckStatus::Failed);
        } else if !request.sandbox_verification_passed {
            assert(cs[2].status == SandboxWriteTestingCheckStatus::Failed);
        } else if request.evidence is None {
            assert(cs[3].status == SandboxWriteTestingCheckStatus::Failed);
        } else {
            assert forall|i: int| 0 <= i < cs.len()
                implies (#[trigger] cs[i]).status != SandboxWriteTestingCheckStatus::Failed by {
                assert(0 <= i < 5);
            }
            if !evidence_complete(request.evidence->0) {
                assert(cs[4].status == SandboxWriteTestingCheckStatus::Warning);
            } else {
                assert forall|i: int| 0 <= i < cs.len()
                    implies (#[trigger] cs[i]).status != SandboxWriteTestingCheckStatus::Warning by {
                    assert(0 <= i < 5);
                }
            }
        }
    }

    let status = if has_blocked {
        SandboxWriteTestingPolicyStatus::Blocked
    } else if has_warning {
        SandboxWriteTestingPolicyStatus::Warning
    } else {
        SandboxWriteTestingPolicyStatus::Compliant
    };

    let target_name = owned_or(&request.target_display_name, SWT_DEFAULT_TARGET);
    let tail = match status {
        SandboxWriteTestingPolicyStatus::Compliant => SWT_MSG_COMPLIANT,
        SandboxWriteTestingPolicyStatus::Warning => SWT_MSG_WARNING,
        SandboxWriteTestingPolicyStatus::Blocked => SWT_MSG_BLOCKED,
    };
    let message = concat3(SWT_MSG_PREFIX, target_name.as_str(), tail);

    SandboxWriteTestingPolicyResult {
        status,
        checks,
        message,
        no_changes_made: true,
        network_writes_attempted: false,
        writes_enabled: false,
    }
}

} // verus!
