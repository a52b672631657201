//! Rollback limitation policy gate: checks that a restore declares no
//! automatic destructive rollback or cleanup, that a partial restore is never
//! reported as success, that manual cleanup needs a separate user action, and
//! that recovery guidance and a user-visible notice are declared. Compliance
//! never enables writes.

use vstd::prelude::*;
use vstd::string::*;
use crate::text::{opt_view, owned};
use crate::write_gate::{evaluate_write_gate, write_gate_is_disabled};

verus! {

#[derive(Debug, Clone, Copy, PartialEq, Eq, Structural)]
pub enum RollbackLimitationPolicyStatus {
    /// Automatic destructive rollback and cleanup are disabled and every
    /// declaration is complete.
    Compliant,
    /// Rollback is safely disabled, but recovery guidance or the user-visible
    /// notice is incomplete.
    Warning,
    /// Automatic destructive rollback or cleanup is allowed, or a required
    /// declaration is missing.
    Blocked,
}

#[derive(Debug, Clone, Copy, PartialEq, Eq, Structural)]
pub enum RollbackLimitationCheckStatus {
    Passed,
    Warning,
    Failed,
}

/// What happens to created objects when a restore fails part-way.
#[derive(Debug, Clone, Copy, PartialEq, Eq, Structural)]
pub enum RollbackBehavior {
    /// Created objects remain until a manual cleanup.
    NoAutomaticRollback,
    /// Every created object is deleted automatically.
    AutomaticDestructiveRollback,
    /// Created records are deleted automatically.
    AutomaticDeleteCleanup,
    /// Linked fields are reverted automatically.
    AutomaticUpdateRevertCleanup,
}

/// How users are guided to recover from a partial restore failure.
#[derive(Debug, Clone, Copy, PartialEq, Eq, Structural)]
pub enum RecoveryGuidance {
    /// Resume from the last durable checkpoint.
    CheckpointBasedResume,
    /// Inspect and delete partially created objects by hand before retrying.
    ManualCleanupRequired,
    /// No guidance declared.
    NoneDeClared,
}

/// The rollback limitation declaration of a restore.
#[derive(Debug, Clone)]
pub struct RollbackLimitationPlan {
    pub rollback_behavior: RollbackBehavior,
    pub partial_restore_is_not_success: bool,
    pub recovery_guidance: RecoveryGuidance,
    pub user_visible_limitation_notice: bool,
    pub notice_includes_limitation_details: bool,
    pub manual_cleanup_requires_separate_action: bool,
    pub note: Option<String>,
}

#[derive(Debug, Clone)]
pub struct RollbackLimitationPolicyRequest {
    pub plan: Option<RollbackLimitationPlan>,
    /// Display label of the restore target (a base name).
    pub target_label: Option<String>,
}

#[derive(Debug, Clone)]
pub struct RollbackLimitationCheck {
    pub check_id: String,
    pub label: String,
    pub status: RollbackLimitationCheckStatus,
    pub message: String,
    pub remediation: Option<String>,
}

/// Read-only summary of an evaluated plan.
#[derive(Debug, Clone)]
pub struct RollbackLimitationSummary {
    pub rollback_behavior: String,
    pub partial_restore_is_not_success: bool,
    pub recovery_guidance_declared: bool,
    pub includes_checkpoint_guidance: bool,
    pub user_visible_notice: bool,
    pub manual_cleanup_requires_separate_action: bool,
}

#[derive(Debug, Clone)]
pub struct RollbackLimitationPolicyResult {
    pub status: RollbackLimitationPolicyStatus,
    pub checks: Vec<RollbackLimitationCheck>,
    pub message: String,
    pub plan_summary: Option<RollbackLimitationSummary>,
    pub no_changes_made: bool,
    pub network_writes_attempted: bool,
    pub writes_enabled: bool,
}

pub const RLP_01: &'static str = "RLP-01";
pub const RLP_LABEL_01: &'static str = "write-gate-disabled";
pub const RLP_01_PASS: &'static str = "Write gate is disabled. No restore writes are attempted.";
pub const RLP_01_FAIL: &'static str =
    "Write gate is not disabled. Rollback limitation policy cannot be evaluated while write gate is active.";
pub const RLP_01_REMEDIATION: &'static str =
    "Ensure evaluate_write_gate() returns Disabled before running policy checks.";
pub const RLP_02: &'static str = "RLP-02";
pub const RLP_LABEL_02: &'static str = "plan-declared";
pub const RLP_02_FAIL: &'static str =
    "No rollback limitation plan declared. A plan declaring rollback behavior, recovery guidance, and user-visible notice is required before any live write path is considered.";
pub const RLP_02_REMEDIATION: &'static str =
    "Declare a RollbackLimitationPlan with rollbackBehavior, recoveryGuidance, and userVisibleLimitationNotice.";
pub const RLP_02_PASS: &'static str = "Rollback limitation plan is declared.";
pub const RLP_03: &'static str = "RLP-03";
pub const RLP_LABEL_03: &'static str = "no-automatic-destructive-rollback";
pub const RLP_03_FAIL: &'static str =
    "Automatic destructive rollback is declared. The restore engine must not automatically delete all created objects on failure \u{2014} this would cause data loss without user consent.";
pub const RLP_03_REMEDIATION: &'static str =
    "Set rollbackBehavior to noAutomaticRollback. Destructive cleanup must require explicit separate user action.";
pub const RLP_03_PASS: &'static str = "Automatic destructive rollback is not declared.";
pub const RLP_04: &'static str = "RLP-04";
pub const RLP_LABEL_04: &'static str = "no-automatic-delete-cleanup";
pub const RLP_04_FAIL: &'static str =
    "Automatic delete cleanup is declared. The restore engine must not automatically delete partially created records on failure.";
pub const RLP_04_REMEDIATION: &'static str =
    "Set rollbackBehavior to noAutomaticRollback. Delete cleanup must require explicit separate user action.";
pub const RLP_04_PASS: &'static str = "Automatic delete cleanup is not declared.";
pub const RLP_05: &'static str = "RLP-05";
pub const RLP_LABEL_05: &'static str = "no-automatic-update-revert-cleanup";
pub const RLP_05_FAIL: &'static str =
    "Automatic update/revert cleanup is declared. The restore engine must not automatically revert or update partially linked records on failure.";
pub const RLP_05_REMEDIATION: &'static str =
    "Set rollbackBehavior to noAutomaticRollback. Revert cleanup must require explicit separate user action.";
pub const RLP_05_PASS: &'static str = "Automatic update/revert cleanup is not declared.";
pub const RLP_06: &'static str = "RLP-06";
pub const RLP_LABEL_06: &'static str = "partial-restore-is-not-success";
pub const RLP_06_FAIL: &'static str =
    "Plan does not declare that partial restore is not success. A partial restore that fails mid-way must never be reported as a successful completion.";
pub const RLP_06_REMEDIATION: &'static str =
    "Set partialRestoreIsNotSuccess: true in the rollback limitation plan.";
pub const RLP_06_PASS: &'static str =
    "Partial restore is explicitly declared as not a success state.";
pub const RLP_07: &'static str = "RLP-07";
pub const RLP_LABEL_07: &'static str = "checkpoint-recovery-guidance";
pub const RLP_07_NONE: &'static str =
    "No recovery guidance is declared. Users must be informed of how to recover from a partial restore failure (checkpoint resume or manual cleanup).";
pub const RLP_07_NONE_REMEDIATION: &'static str =
    "Set recoveryGuidance to checkpointBasedResume or manualCleanupRequired.";
pub const RLP_07_NO_CHECKPOINT: &'static str =
    "Recovery guidance is declared but does not include checkpoint-based resume. Checkpoint-based recovery is preferred to avoid duplicating already-created objects.";
pub const RLP_07_NO_CHECKPOINT_REMEDIATION: &'static str =
    "Consider adding checkpointBasedResume as the primary recovery guidance.";
pub const RLP_07_PASS: &'static str = "Checkpoint-based recovery guidance is declared.";
pub const RLP_08: &'static str = "RLP-08";
pub const RLP_LABEL_08: &'static str = "user-visible-limitation-notice";
pub const RLP_08_NONE: &'static str =
    "No user-visible rollback limitation notice is declared. Users must be informed that automatic rollback is not available before any restore operation begins.";
pub const RLP_08_NONE_REMEDIATION: &'static str =
    "Set userVisibleLimitationNotice: true and show the notice in the UI before restore execution.";
pub const RLP_08_NO_DETAILS: &'static str =
    "User-visible notice is declared but does not include limitation details (affected tables/records, manual steps). Incomplete notice may leave users unable to understand the risk.";
pub const RLP_08_NO_DETAILS_REMEDIATION: &'static str =
    "Set noticeIncludesLimitationDetails: true and ensure the notice describes which objects may remain and what manual cleanup is required.";
pub const RLP_08_PASS: &'static str =
    "User-visible rollback limitation notice with details is declared.";
pub const RLP_09: &'static str = "RLP-09";
pub const RLP_LABEL_09: &'static str = "manual-cleanup-separate-action";
pub const RLP_09_FAIL: &'static str =
    "Plan does not declare that manual cleanup requires a separate, explicit future user action. The restore engine must never trigger cleanup automatically \u{2014} users must initiate it explicitly in a separate flow.";
pub const RLP_09_REMEDIATION: &'static str =
    "Set manualCleanupRequiresSeparateAction: true. Cleanup tooling must be a separate future feature requiring explicit user initiation.";
pub const RLP_09_PASS: &'static str =
    "Manual cleanup is declared to require a separate, explicit future user action.";
pub const RLP_10: &'static str = "RLP-10";
pub const RLP_LABEL_10: &'static str = "no-token-path-payload";
pub const RLP_10_PASS: &'static str =
    "No token, filesystem path, or record payload is present in any result field.";
pub const RLP_11: &'static str = "RLP-11";
pub const RLP_LABEL_11: &'static str = "no-network-writes";
pub const RLP_11_PASS: &'static str =
    "No network writes have been attempted. networkWritesAttempted is always false.";
pub const RLP_12: &'static str = "RLP-12";
pub const RLP_LABEL_12: &'static str = "writes-remain-disabled";
pub const RLP_12_PASS: &'static str =
    "Restore writes remain disabled. Policy compliance does not enable write execution.";

pub const RLP_MSG_COMPLIANT: &'static str = "Rollback limitation policy is compliant";
pub const RLP_MSG_COMPLIANT_TAIL: &'static str =
    ". Automatic destructive rollback and cleanup are disabled. Partial restore is not success. Recovery guidance and user-visible limitation notice are declared. Restore writes remain disabled \u{2014} compliance does not start any write operation and does not introduce a restore success state.";
pub const RLP_MSG_WARNING: &'static str = "Rollback limitation policy has warnings";
pub const RLP_MSG_WARNING_TAIL: &'static str =
    ". Automatic rollback is safely disabled, but recovery guidance or the user-visible notice is incomplete. Restore writes remain disabled.";
pub const RLP_MSG_BLOCKED: &'static str = "Rollback limitation policy is blocked";
pub const RLP_MSG_BLOCKED_TAIL: &'static str =
    ". Automatic destructive rollback or cleanup is allowed, or required declarations are missing. Resolve all violations before any live write is considered. Restore writes remain disabled.";
pub const RLP_TARGET_PREFIX: &'static str = " for '";
pub const RLP_TARGET_SUFFIX: &'static str = "'";

// ── Behavior and guidance ────────────────────────────────────────────────────

/// Whether a rollback behavior deletes or reverts created objects on its own.
pub open spec fn behavior_is_destructive(b: RollbackBehavior) -> bool {
    b != RollbackBehavior::NoAutomaticRollback
}

/// The label of a rollback behavior.
pub open spec fn behavior_label(b: RollbackBehavior) -> Seq<char> {
    match b {
        RollbackBehavior::NoAutomaticRollback => "noAutomaticRollback"@,
        RollbackBehavior::AutomaticDestructiveRollback => "automaticDestructiveRollback"@,
        RollbackBehavior::AutomaticDeleteCleanup => "automaticDeleteCleanup"@,
        RollbackBehavior::AutomaticUpdateRevertCleanup => "automaticUpdateRevertCleanup"@,
    }
}

impl RollbackBehavior {
    /// Whether the behavior deletes or reverts created objects on its own.
    pub fn is_destructive(&self) -> (b: bool)
        ensures
            b == behavior_is_destructive(*self),
    {
        match self {
            RollbackBehavior::NoAutomaticRollback => false,
            RollbackBehavior::AutomaticDestructiveRollback => true,
            RollbackBehavior::AutomaticDeleteCleanup => true,
            RollbackBehavior::AutomaticUpdateRevertCleanup => true,
        }
    }

    /// The label of the behavior.
    pub fn label(&self) -> (s: &'static str)
        ensures
            s@ == behavior_label(*self),
    {
        match self {
            RollbackBehavior::NoAutomaticRollback => "noAutomaticRollback",
            RollbackBehavior::AutomaticDestructiveRollback => "automaticDestructiveRollback",
            RollbackBehavior::AutomaticDeleteCleanup => "automaticDeleteCleanup",
            RollbackBehavior::AutomaticUpdateRevertCleanup => "automaticUpdateRevertCleanup",
        }
    }
}

impl RecoveryGuidance {
    /// Whether some recovery guidance is declared.
    pub fn is_declared(&self) -> (b: bool)
        ensures
            b == (*self != RecoveryGuidance::NoneDeClared),
    {
        match self {
            RecoveryGuidance::NoneDeClared => false,
            _ => true,
        }
    }

    /// Whether the guidance is checkpoint-based resume.
    pub fn includes_checkpoint(&self) -> (b: bool)
        ensures
            b == (*self == RecoveryGuidance::CheckpointBasedResume),
    {
        match self {
            RecoveryGuidance::CheckpointBasedResume => true,
            _ => false,
        }
    }
}

// ── Specification ────────────────────────────────────────────────────────────

/// Whether a plan has a violation that blocks it.
pub open spec fn plan_blocked(p: RollbackLimitationPlan) -> bool {
    behavior_is_destructive(p.rollback_behavior) || !p.partial_restore_is_not_success
        || !p.manual_cleanup_requires_separate_action
}

/// Whether a plan's recovery guidance or notice is incomplete.
pub open spec fn plan_has_warning(p: RollbackLimitationPlan) -> bool {
    p.recovery_guidance != RecoveryGuidance::CheckpointBasedResume
        || !p.user_visible_limitation_notice || !p.notice_includes_limitation_details
}

/// The status of a declared plan.
pub open spec fn plan_status(p: RollbackLimitationPlan) -> RollbackLimitationPolicyStatus {
    if plan_blocked(p) {
        RollbackLimitationPolicyStatus::Blocked
    } else if plan_has_warning(p) {
        RollbackLimitationPolicyStatus::Warning
    } else {
        RollbackLimitationPolicyStatus::Compliant
    }
}

/// The text naming the target in the result message.
pub open spec fn target_note(target_label: Option<String>) -> Seq<char> {
    match target_label {
        Some(l) => RLP_TARGET_PREFIX@ + l@ + RLP_TARGET_SUFFIX@,
        None => Seq::empty(),
    }
}

/// The result message for a status.
pub open spec fn policy_message(s: RollbackLimitationPolicyStatus, target_label: Option<String>) -> Seq<char> {
    match s {
        RollbackLimitationPolicyStatus::Compliant =>
            RLP_MSG_COMPLIANT@ + target_note(target_label) + RLP_MSG_COMPLIANT_TAIL@,
        RollbackLimitationPolicyStatus::Warning =>
            RLP_MSG_WARNING@ + target_note(target_label) + RLP_MSG_WARNING_TAIL@,
        RollbackLimitationPolicyStatus::Blocked =>
            RLP_MSG_BLOCKED@ + target_note(target_label) + RLP_MSG_BLOCKED_TAIL@,
    }
}

pub open spec fn check_is(
    c: RollbackLimitationCheck,
    id: &str,
    label: &str,
    status: RollbackLimitationCheckStatus,
    message: &str,
    remediation: Option<Seq<char>>,
) -> bool {
    &&& c.check_id@ == id@
    &&& c.label@ == label@
    &&& c.status == status
    &&& c.message@ == message@
    &&& opt_view(c.remediation) == remediation
}

/// A passed check.
pub open spec fn passed_is(c: RollbackLimitationCheck, id: &str, label: &str, message: &str) -> bool {
    check_is(c, id, label, RollbackLimitationCheckStatus::Passed, message, None)
}

/// The twelve checks of a declared plan, in order.
pub open spec fn plan_checks(cs: Seq<RollbackLimitationCheck>, p: RollbackLimitationPlan) -> bool {
    &&& cs.len() == 12
    &&& passed_is(cs[0], RLP_01, RLP_LABEL_01, RLP_01_PASS)
    &&& passed_is(cs[1], RLP_02, RLP_LABEL_02, RLP_02_PASS)
    &&& if p.rollback_behavior == RollbackBehavior::AutomaticDestructiveRollback {
        check_is(cs[2], RLP_03, RLP_LABEL_03, RollbackLimitationCheckStatus::Failed, RLP_03_FAIL,
            Some(RLP_03_REMEDIATION@))
    } else {
        passed_is(cs[2], RLP_03, RLP_LABEL_03, RLP_03_PASS)
    }
    &&& if p.rollback_behavior == RollbackBehavior::AutomaticDeleteCleanup {
        check_is(cs[3], RLP_04, RLP_LABEL_04, RollbackLimitationCheckStatus::Failed, RLP_04_FAIL,
            Some(RLP_04_REMEDIATION@))
    } else {
        passed_is(cs[3], RLP_04, RLP_LABEL_04, RLP_04_PASS)
    }
    &&& if p.rollback_behavior == RollbackBehavior::AutomaticUpdateRevertCleanup {
        check_is(cs[4], RLP_05, RLP_LABEL_05, RollbackLimitationCheckStatus::Failed, RLP_05_FAIL,
            Some(RLP_05_REMEDIATION@))
    } else {
        passed_is(cs[4], RLP_05, RLP_LABEL_05, RLP_05_PASS)
    }
    &&& if !p.partial_restore_is_not_success {
        check_is(cs[5], RLP_06, RLP_LABEL_06, RollbackLimitationCheckStatus::Failed, RLP_06_FAIL,
            Some(RLP_06_REMEDIATION@))
    } else {
        passed_is(cs[5], RLP_06, RLP_LABEL_06, RLP_06_PASS)
    }
    &&& if p.recovery_guidance == RecoveryGuidance::NoneDeClared {
        check_is(cs[6], RLP_07, RLP_LABEL_07, RollbackLimitationCheckStatus::Warning, RLP_07_NONE,
            Some(RLP_07_NONE_REMEDIATION@))
    } else if p.recovery_guidance != RecoveryGuidance::CheckpointBasedResume {
        check_is(cs[6], RLP_07, RLP_LABEL_07, RollbackLimitationCheckStatus::Warning,
            RLP_07_NO_CHECKPOINT, Some(RLP_07_NO_CHECKPOINT_REMEDIATION@))
    } else {
        passed_is(cs[6], RLP_07, RLP_LABEL_07, RLP_07_PASS)
    }
    &&& if !p.user_visible_limitation_notice {
        check_is(cs[7], RLP_08, RLP_LABEL_08, RollbackLimitationCheckStatus::Warning, RLP_08_NONE,
            Some(RLP_08_NONE_REMEDIATION@))
    } else if !p.notice_includes_limitation_details {
        check_is(cs[7], RLP_08, RLP_LABEL_08, RollbackLimitationCheckStatus::Warning,
            RLP_08_NO_DETAILS, Some(RLP_08_NO_DETAILS_REMEDIATION@))
    } else {
        passed_is(cs[7], RLP_08, RLP_LABEL_08, RLP_08_PASS)
    }
    &&& if !p.manual_cleanup_requires_separate_action {
        check_is(cs[8], RLP_09, RLP_LABEL_09, RollbackLimitationCheckStatus::Failed, RLP_09_FAIL,
            Some(RLP_09_REMEDIATION@))
    } else {
        passed_is(cs[8], RLP_09, RLP_LABEL_09, RLP_09_PASS)
    }
    &&& passed_is(cs[9], RLP_10, RLP_LABEL_10, RLP_10_PASS)
    &&& passed_is(cs[10], RLP_11, RLP_LABEL_11, RLP_11_PASS)
    &&& passed_is(cs[11], RLP_12, RLP_LABEL_12, RLP_12_PASS)
}

/// The summary of a declared plan.
pub open spec fn summary_of(s: RollbackLimitationSummary, p: RollbackLimitationPlan) -> bool {
    &&& s.rollback_behavior@ == behavior_label(p.rollback_behavior)
    &&& s.partial_restore_is_not_success == p.partial_restore_is_not_success
    &&& s.recovery_guidance_declared == (p.recovery_guidance != RecoveryGuidance::NoneDeClared)
    &&& s.includes_checkpoint_guidance == (p.recovery_guidance == RecoveryGuidance::CheckpointBasedResume)
    &&& s.user_visible_notice == p.user_visible_limitation_notice
    &&& s.manual_cleanup_requires_separate_action == p.manual_cleanup_requires_separate_action
}

// ── Helpers ──────────────────────────────────────────────────────────────────

fn passed(id: &str, label: &str, message: &str) -> (c: RollbackLimitationCheck)
    ensures
        passed_is(c, id, label, message),
{
    RollbackLimitationCheck {
        check_id: String::from_str(id),
        label: String::from_str(label),
        status: RollbackLimitationCheckStatus::Passed,
        message: String::from_str(message),
        remediation: None,
    }
}

fn flagged(
    id: &str,
    label: &str,
    status: RollbackLimitationCheckStatus,
    message: &str,
    remediation: &str,
) -> (c: RollbackLimitationCheck)
    ensures
        check_is(c, id, label, status, message, Some(remediation@)),
{
    RollbackLimitationCheck {
        check_id: String::from_str(id),
        label: String::from_str(label),
        status,
        message: String::from_str(message),
        remediation: Some(String::from_str(remediation)),
    }
}

/// The result for a status: the message names the target when there is one;
/// no write is enabled.
fn build_result(
    checks: Vec<RollbackLimitationCheck>,
    plan_summary: Option<RollbackLimitationSummary>,
    status: RollbackLimitationPolicyStatus,
    target_label: &Option<String>,
) -> (r: RollbackLimitationPolicyResult)
    ensures
        r.status == status,
        r.checks@ == checks@,
        r.plan_summary == plan_summary,
        r.message@ == policy_message(status, *target_label),
        r.no_changes_made,
        !r.network_writes_attempted,
        !r.writes_enabled,
{
    let (head, tail) = match status {
        RollbackLimitationPolicyStatus::Compliant => (RLP_MSG_COMPLIANT, RLP_MSG_COMPLIANT_TAIL),
        RollbackLimitationPolicyStatus::Warning => (RLP_MSG_WARNING, RLP_MSG_WARNING_TAIL),
        RollbackLimitationPolicyStatus::Blocked => (RLP_MSG_BLOCKED, RLP_MSG_BLOCKED_TAIL),
    };
    let mut message = String::from_str(head);
    match target_label {
        Some(l) => {
            message.append(RLP_TARGET_PREFIX);
            message.append(l.as_str());
            message.append(RLP_TARGET_SUFFIX);
        },
        None => {},
    }
    message.append(tail);
    proof {
        assert(message@ =~= policy_message(status, *target_label));
    }
    RollbackLimitationPolicyResult {
        status,
        checks,
        message,
        plan_summary,
        no_changes_made: true,
        network_writes_attempted: false,
        writes_enabled: false,
    }
}

// ── Core function ────────────────────────────────────────────────────────────

/// Verifies the rollback limitation policy of a restore.
///
/// Without a plan the policy is `Blocked` after two checks (`RLP-01` passed,
/// `RLP-02` failed) and carries no summary. With a plan, twelve checks
/// `RLP-01`..`RLP-12` are reported in order: automatic destructive rollback,
/// delete cleanup or update/revert cleanup, a partial restore labelled
/// success, or manual cleanup without a separate action fail the check and
/// block the policy; missing or non-checkpoint recovery guidance and a missing
/// or undetailed notice only warn. No write is ever enabled.
pub fn verify_rollback_limitation_policy(
    request: &RollbackLimitationPolicyRequest,
) -> (result: RollbackLimitationPolicyResult)
    ensures
        result.no_changes_made,
        !result.network_writes_attempted,
        !result.writes_enabled,
        result.message@ == policy_message(result.status, request.target_label),
        request.plan is None ==> {
            &&& result.status == RollbackLimitationPolicyStatus::Blocked
            &&& result.checks@.len() == 2
            &&& passed_is(result.checks@[0], RLP_01, RLP_LABEL_01, RLP_01_PASS)
            &&& check_is(result.checks@[1], RLP_02, RLP_LABEL_02,
                RollbackLimitationCheckStatus::Failed, RLP_02_FAIL, Some(RLP_02_REMEDIATION@))
            &&& result.plan_summary is None
        },
        request.plan matches Some(p) ==> {
            &&& result.status == plan_status(p)
            &&& plan_checks(result.checks@, p)
            &&& result.plan_summary matches Some(s) && summary_of(s, p)
        },
{
    let mut checks: Vec<RollbackLimitationCheck> = Vec::new();

    let gate = evaluate_write_gate();
    if write_gate_is_disabled(&gate) {
        checks.push(passed(RLP_01, RLP_LABEL_01, RLP_01_PASS));
    } else {
        checks.push(flagged(RLP_01, RLP_LABEL_01, RollbackLimitationCheckStatus::Failed,
            RLP_01_FAIL, RLP_01_REMEDIATION));
        return build_result(checks, None, RollbackLimitationPolicyStatus::Blocked, &None);
    }

    let plan = match &request.plan {
        Some(p) => p,
        None => {
            checks.push(flagged(RLP_02, RLP_LABEL_02, RollbackLimitationCheckStatus::Failed,
                RLP_02_FAIL, RLP_02_REMEDIATION));
            return build_result(checks, None, RollbackLimitationPolicyStatus::Blocked,
                &request.target_label);
        },
    };
    checks.push(passed(RLP_02, RLP_LABEL_02, RLP_02_PASS));

    let plan_summary = RollbackLimitationSummary {
        rollback_behavior: owned(plan.rollback_behavior.label()),
        partial_restore_is_not_success: plan.partial_restore_is_not_success,
        recovery_guidance_declared: plan.recovery_guidance.is_declared(),
        includes_checkpoint_guidance: plan.recovery_guidance.includes_checkpoint(),
        user_visible_notice: plan.user_visible_limitation_notice,
        manual_cleanup_requires_separate_action: plan.manual_cleanup_requires_separate_action,
    };

    let mut blocked = false;
    let mut has_warning = false;

    // RLP-03 .. RLP-05: no automatic destructive rollback or cleanup.
    if let RollbackBehavior::AutomaticDestructiveRollback = plan.rollback_behavior {
        checks.push(flagged(RLP_03, RLP_LABEL_03, RollbackLimitationCheckStatus::Failed,
            RLP_03_FAIL, RLP_03_REMEDIATION));
        blocked = true;
    } else {
        checks.push(passed(RLP_03, RLP_LABEL_03, RLP_03_PASS));
    }
    if let RollbackBehavior::AutomaticDeleteCleanup = plan.rollback_behavior {
        checks.push(flagged(RLP_04, RLP_LABEL_04, RollbackLimitationCheckStatus::Failed,
            RLP_04_FAIL, RLP_04_REMEDIATION));
        blocked = true;
    } else {
        checks.push(passed(RLP_04, RLP_LABEL_04, RLP_04_PASS));
    }
    if let RollbackBehavior::AutomaticUpdateRevertCleanup = plan.rollback_behavior {
        checks.push(flagged(RLP_05, RLP_LABEL_05, RollbackLimitationCheckStatus::Failed,
            RLP_05_FAIL, RLP_05_REMEDIATION));
        blocked = true;
    } else {
        checks.push(passed(RLP_05, RLP_LABEL_05, RLP_05_PASS));
    }

    // RLP-06: a partial restore is not success.
    if !plan.partial_restore_is_not_success {
        checks.push(flagged(RLP_06, RLP_LABEL_06, RollbackLimitationCheckStatus::Failed,
            RLP_06_FAIL, RLP_06_REMEDIATION));
        blocked = true;
    } else {
        checks.push(passed(RLP_06, RLP_LABEL_06, RLP_06_PASS));
    }

    // RLP-07: checkpoint-based recovery guidance.
    if !plan.recovery_guidance.is_declared() {
        checks.push(flagged(RLP_07, RLP_LABEL_07, RollbackLimitationCheckStatus::Warning,
            RLP_07_NONE, RLP_07_NONE_REMEDIATION));
        has_warning = true;
    } else if !plan.recovery_guidance.includes_checkpoint() {
        checks.push(flagged(RLP_07, RLP_LABEL_07, RollbackLimitationCheckStatus::Warning,
            RLP_07_NO_CHECKPOINT, RLP_07_NO_CHECKPOINT_REMEDIATION));
        has_warning = true;
    } else {
        checks.push(passed(RLP_07, RLP_LABEL_07, RLP_07_PASS));
    }

    // RLP-08: user-visible limitation notice with details.
    if !plan.user_visible_limitation_notice {
        checks.push(flagged(RLP_08, RLP_LABEL_08, RollbackLimitationCheckStatus::Warning,
            RLP_08_NONE, RLP_08_NONE_REMEDIATION));
        has_warning = true;
    } else if !plan.notice_includes_limitation_details {
        checks.push(flagged(RLP_08, RLP_LABEL_08, RollbackLimitationCheckStatus::Warning,
            RLP_08_NO_DETAILS, RLP_08_NO_DETAILS_REMEDIATION));
        has_warning = true;
    } else {
        checks.push(passed(RLP_08, RLP_LABEL_08, RLP_08_PASS));
    }

    // RLP-09: manual cleanup needs a separate, explicit action.
    if !plan.manual_cleanup_requires_separate_action {
        checks.push(flagged(RLP_09, RLP_LABEL_09, RollbackLimitationCheckStatus::Failed,
            RLP_09_FAIL, RLP_09_REMEDIATION));
        blocked = true;
    } else {
        checks.push(passed(RLP_09, RLP_LABEL_09, RLP_09_PASS));
    }

    // RLP-10 .. RLP-12: safety invariants, always passed.
    checks.push(passed(RLP_10, RLP_LABEL_10, RLP_10_PASS));
    checks.push(passed(RLP_11, RLP_LABEL_11, RLP_11_PASS));
    checks.push(passed(RLP_12, RLP_LABEL_12, RLP_12_PASS));

    let status = if blocked {
        RollbackLimitationPolicyStatus::Blocked
    } else if has_warning {
        RollbackLimitationPolicyStatus::Warning
    } else {
        RollbackLimitationPolicyStatus::Compliant
    };
    build_result(checks, Some(plan_summary), status, &request.target_label)
}

} // verus!
