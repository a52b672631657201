//! Sandbox-only gate contract: checks, in a fixed order, the caller-declared
//! prerequisites that a future sandbox gate would need. The best outcome is
//! `EligibleButNotArmed`; nothing here arms the sandbox gate or enables any I/O.

use vstd::prelude::*;
use vstd::string::*;
use crate::text::concat3;
use crate::write_gate::{evaluate_write_gate, write_gate_is_disabled};

verus! {

/// Overall status of the sandbox-only gate contract evaluation.
#[derive(Debug, Clone, Copy, PartialEq, Eq, Structural)]
pub enum SandboxGateContractStatus {
    /// Default state: mode is disabled and no prerequisite is evaluated.
    Disabled,
    /// A required prerequisite is missing or unsafe.
    Blocked,
    /// Every prerequisite is satisfied; the sandbox gate is still not armed.
    EligibleButNotArmed,
}

/// Mode of the sandbox gate contract evaluation.
#[derive(Debug, Clone, Copy, PartialEq, Eq, Structural)]
pub enum SandboxGateContractMode {
    Disabled,
    SandboxOnlyCandidate,
}

/// Status of one prerequisite.
#[derive(Debug, Clone, Copy, PartialEq, Eq, Structural)]
pub enum SandboxGateContractPrerequisiteStatus {
    Safe,
    Warning,
    Blocked,
    Missing,
}

/// One evaluated prerequisite.
#[derive(Debug, Clone)]
pub struct SandboxGateContractPrerequisite {
    pub prereq_id: String,
    pub label: String,
    pub status: SandboxGateContractPrerequisiteStatus,
    pub note: String,
}

/// Point-in-time safety snapshot of the evaluation.
#[derive(Debug, Clone)]
pub struct SandboxGateContractSafetySnapshot {
    pub write_gate_disabled: bool,
    pub sandbox_verification_safe: bool,
    pub target_empty_safe: bool,
    pub confirmation_gate_declared: bool,
    pub destructive_operation_policy_safe: bool,
    pub attachment_phase_disabled_safe: bool,
    pub live_write_readiness_safe: bool,
    pub restore_orchestrator_present: bool,
    pub schema_executor_present: bool,
    pub record_executor_present: bool,
    pub linked_executor_present: bool,
    pub final_validation_reader_present: bool,
}

/// Caller-declared prerequisites of the sandbox gate contract.
#[derive(Debug, Clone)]
pub struct SandboxGateContractRequest {
    pub mode: SandboxGateContractMode,
    pub sandbox_verification_safe: bool,
    pub target_empty_safe: bool,
    pub confirmation_gate_declared: bool,
    pub destructive_operation_policy_safe: bool,
    pub attachment_phase_disabled_safe: bool,
    pub live_write_readiness_safe: bool,
    pub restore_orchestrator_present: bool,
    pub schema_executor_present: bool,
    pub record_executor_present: bool,
    pub linked_executor_present: bool,
    pub final_validation_reader_present: bool,
}

/// Result of the sandbox gate contract evaluation.
#[derive(Debug, Clone)]
pub struct SandboxGateContractResult {
    pub status: SandboxGateContractStatus,
    pub mode: SandboxGateContractMode,
    pub message: String,
    pub prerequisites: Vec<SandboxGateContractPrerequisite>,
    pub safety_snapshot: SandboxGateContractSafetySnapshot,
    pub total_prereq_count: usize,
    pub safe_prereq_count: usize,
    pub blocked_reason: Option<String>,
    pub no_changes_made: bool,
    pub network_reads_attempted: bool,
    pub network_writes_attempted: bool,
    pub writes_enabled: bool,
    pub reads_enabled: bool,
}

pub const SGC_PREREQ_SANDBOX: &'static str = "SGC-PRE-01";
pub const SGC_PREREQ_TARGET_EMPTY: &'static str = "SGC-PRE-02";
pub const SGC_PREREQ_CONFIRMATION: &'static str = "SGC-PRE-03";
pub const SGC_PREREQ_DESTRUCTIVE_POLICY: &'static str = "SGC-PRE-04";
pub const SGC_PREREQ_ATTACHMENT_PHASE: &'static str = "SGC-PRE-05";
pub const SGC_PREREQ_LIVE_READINESS: &'static str = "SGC-PRE-06";
pub const SGC_PREREQ_ORCHESTRATOR: &'static str = "SGC-PRE-07";
pub const SGC_PREREQ_SCHEMA_EXECUTOR: &'static str = "SGC-PRE-08";
pub const SGC_PREREQ_RECORD_EXECUTOR: &'static str = "SGC-PRE-09";
pub const SGC_PREREQ_LINKED_EXECUTOR: &'static str = "SGC-PRE-10";
pub const SGC_PREREQ_FINAL_VALIDATION: &'static str = "SGC-PRE-11";
pub const SGC_PREREQ_WRITE_GATE_DEFAULT: &'static str = "SGC-PRE-12";

pub const SGC_LABEL_01: &'static str = "Sandbox verification declared and safe";
pub const SGC_OK_01: &'static str = "Sandbox environment verification is declared and safe.";
pub const SGC_BAD_01: &'static str =
    "Sandbox verification has not been declared or is not safe. Gate cannot be armed.";
pub const SGC_LABEL_02: &'static str = "Target empty verification declared and safe";
pub const SGC_OK_02: &'static str = "Target empty verification is declared and safe.";
pub const SGC_BAD_02: &'static str =
    "Target empty verification has not been declared or is not safe. Gate cannot be armed.";
pub const SGC_LABEL_03: &'static str = "Explicit confirmation gate declared";
pub const SGC_OK_03: &'static str = "Explicit user confirmation gate is declared.";
pub const SGC_BAD_03: &'static str =
    "Explicit confirmation gate has not been declared. Gate cannot be armed.";
pub const SGC_LABEL_04: &'static str = "Destructive operation policy safe";
pub const SGC_OK_04: &'static str =
    "Destructive operation policy is safe \u{2014} no delete/overwrite operations planned.";
pub const SGC_BAD_04: &'static str =
    "Destructive operation policy has a critical violation. Gate cannot be armed.";
pub const SGC_LABEL_05: &'static str = "Attachment phase disabled policy safe";
pub const SGC_OK_05: &'static str =
    "Attachment phase disabled policy is safe \u{2014} binary attachment operations remain disabled.";
pub const SGC_BAD_05: &'static str =
    "Attachment phase disabled policy has a critical violation. Binary attachment operations must remain disabled. Gate cannot be armed.";
pub const SGC_LABEL_06: &'static str = "Live write readiness ready or warning-safe";
pub const SGC_OK_06: &'static str = "Live write readiness policy is ready or warning-safe.";
pub const SGC_BAD_06: &'static str =
    "Live write readiness has not been declared or is blocked. Gate cannot be armed.";
pub const SGC_LABEL_07: &'static str =
    "Restore orchestrator foundation present and default-blocked";
pub const SGC_OK_07: &'static str =
    "Restore orchestrator foundation is present and default-blocked. Gate enablement would compose all executor foundations in sequence.";
pub const SGC_BAD_07: &'static str =
    "Restore orchestrator foundation has not been declared. Gate cannot be armed.";
pub const SGC_LABEL_08: &'static str = "Schema executor foundation present and default-blocked";
pub const SGC_OK_08: &'static str =
    "Schema write executor foundation is present and default-blocked.";
pub const SGC_BAD_08: &'static str =
    "Schema write executor foundation has not been declared. Gate cannot be armed.";
pub const SGC_LABEL_09: &'static str = "Record executor foundation present and default-blocked";
pub const SGC_OK_09: &'static str =
    "Record write executor foundation is present and default-blocked.";
pub const SGC_BAD_09: &'static str =
    "Record write executor foundation has not been declared. Gate cannot be armed.";
pub const SGC_LABEL_10: &'static str =
    "Linked second-pass executor foundation present and default-blocked";
pub const SGC_OK_10: &'static str =
    "Linked second-pass executor foundation is present and default-blocked.";
pub const SGC_BAD_10: &'static str =
    "Linked second-pass executor foundation has not been declared. Gate cannot be armed.";
pub const SGC_LABEL_11: &'static str =
    "Final validation reader foundation present and default-blocked";
pub const SGC_OK_11: &'static str =
    "Final validation reader foundation is present and default-blocked.";
pub const SGC_BAD_11: &'static str =
    "Final validation reader foundation has not been declared. Gate cannot be armed.";
pub const SGC_LABEL_12: &'static str =
    "Write gate default remains Disabled/DisabledByProductPolicy";
pub const SGC_OK_12: &'static str =
    "evaluate_write_gate() returns Disabled/DisabledByProductPolicy. This is the required default state.";
pub const SGC_BAD_12: &'static str =
    "evaluate_write_gate() does NOT return Disabled. The write gate default has been unexpectedly changed. Gate cannot be armed until this is resolved.";

pub const SGC_DISABLED_MESSAGE: &'static str =
    "Sandbox gate contract is in disabled mode. No prerequisite evaluation is performed. No writes, reads, or network calls are attempted.";
pub const SGC_BLOCKED_PREFIX: &'static str = "Sandbox gate contract is blocked. ";
pub const SGC_BLOCKED_SUFFIX: &'static str =
    " No writes, reads, or network calls are attempted. The \
    gate cannot be armed.";
pub const SGC_ELIGIBLE_PREFIX: &'static str = "All ";
pub const SGC_ELIGIBLE_SUFFIX: &'static str =
    " sandbox gate contract prerequisites are satisfied. The \
    gate is eligible for future arming but is NOT armed and NOT enabled. No writes, reads, or network calls are attempted. Arming the \
    gate requires a separate explicit future action.";
pub const REASON_SEPARATOR: &'static str = ": ";

// ── Specification ────────────────────────────────────────────────────────────

/// Whether every caller-declared prerequisite of the sandbox gate contract holds.
pub open spec fn gate_contract_prerequisites_hold(r: SandboxGateContractRequest) -> bool {
    &&& r.sandbox_verification_safe
    &&& r.target_empty_safe
    &&& r.confirmation_gate_declared
    &&& r.destructive_operation_policy_safe
    &&& r.attachment_phase_disabled_safe
    &&& r.live_write_readiness_safe
    &&& r.restore_orchestrator_present
    &&& r.schema_executor_present
    &&& r.record_executor_present
    &&& r.linked_executor_present
    &&& r.final_validation_reader_present
}

/// The status the sandbox gate contract reports for a request.
pub open spec fn gate_contract_status(r: SandboxGateContractRequest) -> SandboxGateContractStatus {
    if r.mode == SandboxGateContractMode::Disabled {
        SandboxGateContractStatus::Disabled
    } else if gate_contract_prerequisites_hold(r) {
        SandboxGateContractStatus::EligibleButNotArmed
    } else {
        SandboxGateContractStatus::Blocked
    }
}

/// A prerequisite with the given id and label whose status and note follow `ok`.
pub open spec fn prereq_is(
    p: SandboxGateContractPrerequisite,
    id: &str,
    label: &str,
    ok: bool,
    fail: SandboxGateContractPrerequisiteStatus,
    ok_note: &str,
    bad_note: &str,
) -> bool {
    &&& p.prereq_id@ == id@
    &&& p.label@ == label@
    &&& p.status == (if ok { SandboxGateContractPrerequisiteStatus::Safe } else { fail })
    &&& p.note@ == (if ok { ok_note@ } else { bad_note@ })
}

/// The twelve prerequisites, in evaluation order.
pub open spec fn expected_prerequisites(
    ps: Seq<SandboxGateContractPrerequisite>,
    r: SandboxGateContractRequest,
    write_gate_disabled: bool,
) -> bool {
    &&& ps.len() == 12
    &&& prereq_is(ps[0], SGC_PREREQ_SANDBOX, SGC_LABEL_01, r.sandbox_verification_safe, SandboxGateContractPrerequisiteStatus::Missing, SGC_OK_01, SGC_BAD_01)
    &&& prereq_is(ps[1], SGC_PREREQ_TARGET_EMPTY, SGC_LABEL_02, r.target_empty_safe, SandboxGateContractPrerequisiteStatus::Missing, SGC_OK_02, SGC_BAD_02)
    &&& prereq_is(ps[2], SGC_PREREQ_CONFIRMATION, SGC_LABEL_03, r.confirmation_gate_declared, SandboxGateContractPrerequisiteStatus::Missing, SGC_OK_03, SGC_BAD_03)
    &&& prereq_is(ps[3], SGC_PREREQ_DESTRUCTIVE_POLICY, SGC_LABEL_04, r.destructive_operation_policy_safe, SandboxGateContractPrerequisiteStatus::Blocked, SGC_OK_04, SGC_BAD_04)
    &&& prereq_is(ps[4], SGC_PREREQ_ATTACHMENT_PHASE, SGC_LABEL_05, r.attachment_phase_disabled_safe, SandboxGateContractPrerequisiteStatus::Blocked, SGC_OK_05, SGC_BAD_05)
    &&& prereq_is(ps[5], SGC_PREREQ_LIVE_READINESS, SGC_LABEL_06, r.live_write_readiness_safe, SandboxGateContractPrerequisiteStatus::Missing, SGC_OK_06, SGC_BAD_06)
    &&& prereq_is(ps[6], SGC_PREREQ_ORCHESTRATOR, SGC_LABEL_07, r.restore_orchestrator_present, SandboxGateContractPrerequisiteStatus::Missing, SGC_OK_07, SGC_BAD_07)
    &&& prereq_is(ps[7], SGC_PREREQ_SCHEMA_EXECUTOR, SGC_LABEL_08, r.schema_executor_present, SandboxGateContractPrerequisiteStatus::Missing, SGC_OK_08, SGC_BAD_08)
    &&& prereq_is(ps[8], SGC_PREREQ_RECORD_EXECUTOR, SGC_LABEL_09, r.record_executor_present, SandboxGateContractPrerequisiteStatus::Missing, SGC_OK_09, SGC_BAD_09)
    &&& prereq_is(ps[9], SGC_PREREQ_LINKED_EXECUTOR, SGC_LABEL_10, r.linked_executor_present, SandboxGateContractPrerequisiteStatus::Missing, SGC_OK_10, SGC_BAD_10)
    &&& prereq_is(ps[10], SGC_PREREQ_FINAL_VALIDATION, SGC_LABEL_11, r.final_validation_reader_present, SandboxGateContractPrerequisiteStatus::Missing, SGC_OK_11, SGC_BAD_11)
    &&& prereq_is(ps[11], SGC_PREREQ_WRITE_GATE_DEFAULT, SGC_LABEL_12, write_gate_disabled, SandboxGateContractPrerequisiteStatus::Blocked, SGC_OK_12, SGC_BAD_12)
}

/// A prerequisite counts as safe when its status is `Safe` or `Warning`.
pub open spec fn prereq_counts_safe(p: SandboxGateContractPrerequisite) -> bool {
    p.status == SandboxGateContractPrerequisiteStatus::Safe
        || p.status == SandboxGateContractPrerequisiteStatus::Warning
}

/// Number of prerequisites that count as safe.
pub open spec fn safe_count(ps: Seq<SandboxGateContractPrerequisite>) -> nat
    decreases ps.len(),
{
    if ps.len() == 0 {
        0
    } else {
        safe_count(ps.drop_last()) + if prereq_counts_safe(ps.last()) { 1nat } else { 0nat }
    }
}

/// The prerequisites whose status is `Safe` or `Warning`, in order.
pub open spec fn safe_prereqs(ps: Seq<SandboxGateContractPrerequisite>) -> Seq<SandboxGateContractPrerequisite> {
    ps.filter(|p: SandboxGateContractPrerequisite|
        p.status == SandboxGateContractPrerequisiteStatus::Safe
            || p.status == SandboxGateContractPrerequisiteStatus::Warning)
}

/// The safe count is the number of prerequisites whose status is `Safe` or
/// `Warning`; a prerequisite with any other status keeps it below the
/// prerequisite count.
pub proof fn lemma_safe_count_counts_safe_prereqs(ps: Seq<SandboxGateContractPrerequisite>)
    ensures
        safe_count(ps) == safe_prereqs(ps).len(),
        safe_count(ps) <= ps.len(),
        forall|j: int| 0 <= j < ps.len()
            && (#[trigger] ps[j]).status != SandboxGateContractPrerequisiteStatus::Safe
            && ps[j].status != SandboxGateContractPrerequisiteStatus::Warning
            ==> safe_count(ps) < ps.len(),
        (forall|j: int| 0 <= j < ps.len() ==> ((#[trigger] ps[j]).status == SandboxGateContractPrerequisiteStatus::Safe
            || ps[j].status == SandboxGateContractPrerequisiteStatus::Warning))
            ==> safe_count(ps) == ps.len(),
    decreases ps.len(),
{
    if ps.len() > 0 {
        lemma_safe_count_counts_safe_prereqs(ps.drop_last());
        reveal_with_fuel(Seq::filter, 1);
        assert(safe_prereqs(ps) == if prereq_counts_safe(ps.last()) {
            safe_prereqs(ps.drop_last()).push(ps.last())
        } else {
            safe_prereqs(ps.drop_last())
        });
        assert forall|j: int| 0 <= j < ps.len()
            && (#[trigger] ps[j]).status != SandboxGateContractPrerequisiteStatus::Safe
            && ps[j].status != SandboxGateContractPrerequisiteStatus::Warning
            implies safe_count(ps) < ps.len() by {
            if j < ps.len() - 1 {
                assert(ps.drop_last()[j] == ps[j]);
            }
        }
        if forall|j: int| 0 <= j < ps.len() ==> ((#[trigger] ps[j]).status == SandboxGateContractPrerequisiteStatus::Safe
            || ps[j].status == SandboxGateContractPrerequisiteStatus::Warning) {
            assert forall|j: int| 0 <= j < ps.drop_last().len()
                implies prereq_counts_safe(#[trigger] ps.drop_last()[j]) by {
                assert(prereq_counts_safe(ps[j]));
            }
            assert(prereq_counts_safe(ps[ps.len() - 1]));
        }
    }
}

/// `i` is the first prerequisite that does not count as safe.
pub open spec fn first_unsafe_at(ps: Seq<SandboxGateContractPrerequisite>, i: int) -> bool {
    &&& 0 <= i < ps.len()
    &&& !prereq_counts_safe(ps[i])
    &&& forall|j: int| 0 <= j < i ==> prereq_counts_safe(#[trigger] ps[j])
}

/// The reason reported for the prerequisite at `i`: its id, a colon and its note.
pub open spec fn prereq_reason(p: SandboxGateContractPrerequisite) -> Seq<char> {
    p.prereq_id@ + REASON_SEPARATOR@ + p.note@
}

/// The snapshot echoes the request and the write gate state.
pub open spec fn snapshot_echoes(
    s: SandboxGateContractSafetySnapshot,
    r: SandboxGateContractRequest,
) -> bool {
    &&& s.write_gate_disabled
    &&& s.sandbox_verification_safe == r.sandbox_verification_safe
    &&& s.target_empty_safe == r.target_empty_safe
    &&& s.confirmation_gate_declared == r.confirmation_gate_declared
    &&& s.destructive_operation_policy_safe == r.destructive_operation_policy_safe
    &&& s.attachment_phase_disabled_safe == r.attachment_phase_disabled_safe
    &&& s.live_write_readiness_safe == r.live_write_readiness_safe
    &&& s.restore_orchestrator_present == r.restore_orchestrator_present
    &&& s.schema_executor_present == r.schema_executor_present
    &&& s.record_executor_present == r.record_executor_present
    &&& s.linked_executor_present == r.linked_executor_present
    &&& s.final_validation_reader_present == r.final_validation_reader_present
}

/// The reason reported when the contract is blocked: the id and note of the
/// first prerequisite, in evaluation order, that does not hold.
pub open spec fn gate_contract_blocked_reason(r: SandboxGateContractRequest) -> Seq<char> {
    if !r.sandbox_verification_safe {
        SGC_PREREQ_SANDBOX@ + REASON_SEPARATOR@ + SGC_BAD_01@
    } else if !r.target_empty_safe {
        SGC_PREREQ_TARGET_EMPTY@ + REASON_SEPARATOR@ + SGC_BAD_02@
    } else if !r.confirmation_gate_declared {
        SGC_PREREQ_CONFIRMATION@ + REASON_SEPARATOR@ + SGC_BAD_03@
    } else if !r.destructive_operation_policy_safe {
        SGC_PREREQ_DESTRUCTIVE_POLICY@ + REASON_SEPARATOR@ + SGC_BAD_04@
    } else if !r.attachment_phase_disabled_safe {
        SGC_PREREQ_ATTACHMENT_PHASE@ + REASON_SEPARATOR@ + SGC_BAD_05@
    } else if !r.live_write_readiness_safe {
        SGC_PREREQ_LIVE_READINESS@ + REASON_SEPARATOR@ + SGC_BAD_06@
    } else if !r.restore_orchestrator_present {
        SGC_PREREQ_ORCHESTRATOR@ + REASON_SEPARATOR@ + SGC_BAD_07@
    } else if !r.schema_executor_present {
        SGC_PREREQ_SCHEMA_EXECUTOR@ + REASON_SEPARATOR@ + SGC_BAD_08@
    } else if !r.record_executor_present {
        SGC_PREREQ_RECORD_EXECUTOR@ + REASON_SEPARATOR@ + SGC_BAD_09@
    } else if !r.linked_executor_present {
        SGC_PREREQ_LINKED_EXECUTOR@ + REASON_SEPARATOR@ + SGC_BAD_10@
    } else {
        SGC_PREREQ_FINAL_VALIDATION@ + REASON_SEPARATOR@ + SGC_BAD_11@
    }
}

/// With the write gate disabled, the first prerequisite that does not hold
/// carries the reason `gate_contract_blocked_reason` states.
proof fn lemma_first_unsafe_reason(
    ps: Seq<SandboxGateContractPrerequisite>,
    r: SandboxGateContractRequest,
    i: int,
)
    requires
        expected_prerequisites(ps, r, true),
        first_unsafe_at(ps, i),
    ensures
        prereq_reason(ps[i]) == gate_contract_blocked_reason(r),
        !gate_contract_prerequisites_hold(r),
{
    if i > 0 { assert(prereq_counts_safe(ps[0])); }
    if i > 1 { assert(prereq_counts_safe(ps[1])); }
    if i > 2 { assert(prereq_counts_safe(ps[2])); }
    if i > 3 { assert(prereq_counts_safe(ps[3])); }
    if i > 4 { assert(prereq_counts_safe(ps[4])); }
    if i > 5 { assert(prereq_counts_safe(ps[5])); }
    if i > 6 { assert(prereq_counts_safe(ps[6])); }
    if i > 7 { assert(prereq_counts_safe(ps[7])); }
    if i > 8 { assert(prereq_counts_safe(ps[8])); }
    if i > 9 { assert(prereq_counts_safe(ps[9])); }
    if i > 10 { assert(prereq_counts_safe(ps[10])); }
}

// ── Helpers ──────────────────────────────────────────────────────────────────

fn make_prereq(
    id: &str,
    label: &str,
    ok: bool,
    fail: SandboxGateContractPrerequisiteStatus,
    ok_note: &str,
    bad_note: &str,
) -> (p: SandboxGateContractPrerequisite)
    ensures
        prereq_is(p, id, label, ok, fail, ok_note, bad_note),
{
    SandboxGateContractPrerequisite {
        prereq_id: String::from_str(id),
        label: String::from_str(label),
        status: if ok { SandboxGateContractPrerequisiteStatus::Safe } else { fail },
        note: if ok { String::from_str(ok_note) } else { String::from_str(bad_note) },
    }
}

/// Builds the twelve prerequisites in evaluation order.
fn build_prerequisites(
    request: &SandboxGateContractRequest,
    write_gate_disabled: bool,
) -> (ps: Vec<SandboxGateContractPrerequisite>)
    ensures
        expected_prerequisites(ps@, *request, write_gate_disabled),
{
    let mut ps: Vec<SandboxGateContractPrerequisite> = Vec::new();
    ps.push(make_prereq(SGC_PREREQ_SANDBOX, SGC_LABEL_01, request.sandbox_verification_safe, SandboxGateContractPrerequisiteStatus::Missing, SGC_OK_01, SGC_BAD_01));
    ps.push(make_prereq(SGC_PREREQ_TARGET_EMPTY, SGC_LABEL_02, request.target_empty_safe, SandboxGateContractPrerequisiteStatus::Missing, SGC_OK_02, SGC_BAD_02));
    ps.push(make_prereq(SGC_PREREQ_CONFIRMATION, SGC_LABEL_03, request.confirmation_gate_declared, SandboxGateContractPrerequisiteStatus::Missing, SGC_OK_03, SGC_BAD_03));
    ps.push(make_prereq(SGC_PREREQ_DESTRUCTIVE_POLICY, SGC_LABEL_04, request.destructive_operation_policy_safe, SandboxGateContractPrerequisiteStatus::Blocked, SGC_OK_04, SGC_BAD_04));
    ps.push(make_prereq(SGC_PREREQ_ATTACHMENT_PHASE, SGC_LABEL_05, request.attachment_phase_disabled_safe, SandboxGateContractPrerequisiteStatus::Blocked, SGC_OK_05, SGC_BAD_05));
    ps.push(make_prereq(SGC_PREREQ_LIVE_READINESS, SGC_LABEL_06, request.live_write_readiness_safe, SandboxGateContractPrerequisiteStatus::Missing, SGC_OK_06, SGC_BAD_06));
    ps.push(make_prereq(SGC_PREREQ_ORCHESTRATOR, SGC_LABEL_07, request.restore_orchestrator_present, SandboxGateContractPrerequisiteStatus::Missing, SGC_OK_07, SGC_BAD_07));
    ps.push(make_prereq(SGC_PREREQ_SCHEMA_EXECUTOR, SGC_LABEL_08, request.schema_executor_present, SandboxGateContractPrerequisiteStatus::Missing, SGC_OK_08, SGC_BAD_08));
    ps.push(make_prereq(SGC_PREREQ_RECORD_EXECUTOR, SGC_LABEL_09, request.record_executor_present, SandboxGateContractPrerequisiteStatus::Missing, SGC_OK_09, SGC_BAD_09));
    ps.push(make_prereq(SGC_PREREQ_LINKED_EXECUTOR, SGC_LABEL_10, request.linked_executor_present, SandboxGateContractPrerequisiteStatus::Missing, SGC_OK_10, SGC_BAD_10));
    ps.push(make_prereq(SGC_PREREQ_FINAL_VALIDATION, SGC_LABEL_11, request.final_validation_reader_present, SandboxGateContractPrerequisiteStatus::Missing, SGC_OK_11, SGC_BAD_11));
    ps.push(make_prereq(SGC_PREREQ_WRITE_GATE_DEFAULT, SGC_LABEL_12, write_gate_disabled, SandboxGateContractPrerequisiteStatus::Blocked, SGC_OK_12, SGC_BAD_12));
    ps
}

fn counts_safe(p: &SandboxGateContractPrerequisite) -> (b: bool)
    ensures
        b == prereq_counts_safe(*p),
{
    match p.status {
        SandboxGateContractPrerequisiteStatus::Safe => true,
        SandboxGateContractPrerequisiteStatus::Warning => true,
        SandboxGateContractPrerequisiteStatus::Blocked => false,
        SandboxGateContractPrerequisiteStatus::Missing => false,
    }
}

fn count_safe(ps: &Vec<SandboxGateContractPrerequisite>) -> (n: usize)
    ensures
        n == safe_count(ps@),
{
    let mut n: usize = 0;
    let mut i: usize = 0;
    while i < ps.len()
        invariant
            i <= ps.len(),
            n == safe_count(ps@.take(i as int)),
            n <= i,
        decreases ps.len() - i,
    {
        assert(ps@.take(i as int + 1).drop_last() =~= ps@.take(i as int));
        if counts_safe(&ps[i]) {
            n = n + 1;
        }
        i = i + 1;
    }
    assert(ps@.take(ps.len() as int) =~= ps@);
    n
}

fn find_first_unsafe(ps: &Vec<SandboxGateContractPrerequisite>) -> (r: Option<usize>)
    ensures
        match r {
            Some(i) => first_unsafe_at(ps@, i as int),
            None => forall|j: int| 0 <= j < ps@.len() ==> prereq_counts_safe(#[trigger] ps@[j]),
        },
{
    let mut i: usize = 0;
    while i < ps.len()
        invariant
            i <= ps.len(),
            forall|j: int| 0 <= j < i ==> prereq_counts_safe(#[trigger] ps@[j]),
        decreases ps.len() - i,
    {
        if !counts_safe(&ps[i]) {
            return Some(i);
        }
        i = i + 1;
    }
    None
}

// ── Core function ────────────────────────────────────────────────────────────

/// Evaluates the sandbox-only gate contract prerequisites.
///
/// `Disabled` mode returns `Disabled` with no prerequisite; otherwise the twelve
/// prerequisites are evaluated in order, and the first one that is missing or
/// unsafe blocks the contract with its id and note as the reason. When all are
/// satisfied the status is `EligibleButNotArmed`. No flag that would enable
/// writes, reads or network calls is ever set.
pub fn evaluate_sandbox_gate_contract(
    request: &SandboxGateContractRequest,
) -> (result: SandboxGateContractResult)
    ensures
        result.status == gate_contract_status(*request),
        result.mode == request.mode,
        snapshot_echoes(result.safety_snapshot, *request),
        result.no_changes_made,
        !result.network_reads_attempted,
        !result.network_writes_attempted,
        !result.writes_enabled,
        !result.reads_enabled,
        request.mode == SandboxGateContractMode::Disabled ==> {
            &&& result.prerequisites@.len() == 0
            &&& result.total_prereq_count == 0
            &&& result.safe_prereq_count == 0
            &&& result.blocked_reason is None
            &&& result.message@ == SGC_DISABLED_MESSAGE@
        },
        request.mode == SandboxGateContractMode::SandboxOnlyCandidate ==> {
            &&& expected_prerequisites(result.prerequisites@, *request, true)
            &&& result.total_prereq_count == 12
            &&& result.safe_prereq_count == safe_count(result.prerequisites@)
            &&& result.safe_prereq_count == safe_prereqs(result.prerequisites@).len()
        },
        request.mode == SandboxGateContractMode::SandboxOnlyCandidate
            && result.status == SandboxGateContractStatus::Blocked
            ==> result.safe_prereq_count < result.total_prereq_count,
        result.status == SandboxGateContractStatus::EligibleButNotArmed
            ==> result.safe_prereq_count == result.total_prereq_count,
        result.status == SandboxGateContractStatus::Blocked ==> {
            &&& result.blocked_reason matches Some(b)
                && b@ == gate_contract_blocked_reason(*request)
            &&& result.message@ == SGC_BLOCKED_PREFIX@ + gate_contract_blocked_reason(*request)
                + SGC_BLOCKED_SUFFIX@
        },
        result.status == SandboxGateContractStatus::EligibleButNotArmed ==> {
            &&& result.blocked_reason is None
            &&& result.message@ == SGC_ELIGIBLE_PREFIX@ + crate::text::decimal(12)
                + SGC_ELIGIBLE_SUFFIX@
        },
{
    let gate = evaluate_write_gate();
    let write_gate_disabled = write_gate_is_disabled(&gate);

    let safety_snapshot = SandboxGateContractSafetySnapshot {
        write_gate_disabled,
        sandbox_verification_safe: request.sandbox_verification_safe,
        target_empty_safe: request.target_empty_safe,
        confirmation_gate_declared: request.confirmation_gate_declared,
        destructive_operation_policy_safe: request.destructive_operation_policy_safe,
        attachment_phase_disabled_safe: request.attachment_phase_disabled_safe,
        live_write_readiness_safe: request.live_write_readiness_safe,
        restore_orchestrator_present: request.restore_orchestrator_present,
        schema_executor_present: request.schema_executor_present,
        record_executor_present: request.record_executor_present,
        linked_executor_present: request.linked_executor_present,
        final_validation_reader_present: request.final_validation_reader_present,
    };

    if let SandboxGateContractMode::Disabled = request.mode {
        return SandboxGateContractResult {
            status: SandboxGateContractStatus::Disabled,
            mode: SandboxGateContractMode::Disabled,
            message: String::from_str(SGC_DISABLED_MESSAGE),
            prerequisites: Vec::new(),
            safety_snapshot,
            total_prereq_count: 0,
            safe_prereq_count: 0,
            blocked_reason: None,
            no_changes_made: true,
            network_reads_attempted: false,
            network_writes_attempted: false,
            writes_enabled: false,
            reads_enabled: false,
        };
    }

    let prereqs = build_prerequisites(request, write_gate_disabled);
    let total = prereqs.len();
    let safe_count = count_safe(&prereqs);
    proof {
        lemma_safe_count_counts_safe_prereqs(prereqs@);
    }

    match find_first_unsafe(&prereqs) {
        Some(i) => {
            let reason = concat3(prereqs[i].prereq_id.as_str(), REASON_SEPARATOR, prereqs[i].note.as_str());
            let message = concat3(SGC_BLOCKED_PREFIX, reason.as_str(), SGC_BLOCKED_SUFFIX);
            proof {
                lemma_first_unsafe_reason(prereqs@, *request, i as int);
            }
            SandboxGateContractResult {
                status: SandboxGateContractStatus::Blocked,
                mode: SandboxGateContractMode::SandboxOnlyCandidate,
                message,
                prerequisites: prereqs,
                safety_snapshot,
                total_prereq_count: total,
                safe_prereq_count: safe_count,
                blocked_reason: Some(reason),
                no_changes_made: true,
                network_reads_attempted: false,
                network_writes_attempted: false,
                writes_enabled: false,
                reads_enabled: false,
            }
        },
        None => {
            proof {
                assert(prereq_counts_safe(prereqs@[0]));
                assert(prereq_counts_safe(prereqs@[1]));
                assert(prereq_counts_safe(prereqs@[2]));
                assert(prereq_counts_safe(prereqs@[3]));
                assert(prereq_counts_safe(prereqs@[4]));
                assert(prereq_counts_safe(prereqs@[5]));
                assert(prereq_counts_safe(prereqs@[6]));
                assert(prereq_counts_safe(prereqs@[7]));
                assert(prereq_counts_safe(prereqs@[8]));
                assert(prereq_counts_safe(prereqs@[9]));
                assert(prereq_counts_safe(prereqs@[10]));
            }
            let mut message = String::from_str(SGC_ELIGIBLE_PREFIX);
            crate::text::push_decimal(&mut message, total);
            message.append(SGC_ELIGIBLE_SUFFIX);
            SandboxGateContractResult {
                status: SandboxGateContractStatus::EligibleButNotArmed,
                mode: SandboxGateContractMode::SandboxOnlyCandidate,
                message,
                prerequisites: prereqs,
                safety_snapshot,
                total_prereq_count: total,
                safe_prereq_count: safe_count,
                blocked_reason: None,
                no_changes_made: true,
                network_reads_attempted: false,
                network_writes_attempted: false,
                writes_enabled: false,
                reads_enabled: false,
            }
        },
    }
}


/// The name of a status, as its `Debug` rendering shows it.
pub open spec fn gate_contract_status_name(s: SandboxGateContractStatus) -> Seq<char> {
    match s {
        SandboxGateContractStatus::Disabled => "Disabled"@,
        SandboxGateContractStatus::Blocked => "Blocked"@,
        SandboxGateContractStatus::EligibleButNotArmed => "EligibleButNotArmed"@,
    }
}

/// The name of a status, as its `Debug` rendering shows it.
pub fn gate_contract_status_label(s: SandboxGateContractStatus) -> (r: &'static str)
    ensures
        r@ == gate_contract_status_name(s),
{
    match s {
        SandboxGateContractStatus::Disabled => "Disabled",
        SandboxGateContractStatus::Blocked => "Blocked",
        SandboxGateContractStatus::EligibleButNotArmed => "EligibleButNotArmed",
    }
}

} // verus!
