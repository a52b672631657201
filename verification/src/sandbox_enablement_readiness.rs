//! Sandbox enablement readiness report: probes every restore foundation (gate
//! contract, harness, orchestrator, executors, final validation reader,
//! checkpoint store) and lists thirteen readiness items. The best outcome is
//! `ReadyButDisabled`; the sandbox gate is never armed.

use vstd::prelude::*;
use vstd::string::*;
use crate::checkpoint_store::{
    store_restore_checkpoint, RestoreCheckpointStoreRequest, RestoreCheckpointStoreStatus,
};
use crate::final_validation_reader::{
    build_final_validation_reader_plan, FinalValidationReaderMode, FinalValidationReaderRequest,
    FinalValidationReaderStatus,
};
use crate::linked_second_pass_execution_preview::LinkedSecondPassExecutionPreviewStatus;
use crate::linked_second_pass_executor::{
    build_linked_second_pass_executor_plan, LinkedSecondPassExecutorMode,
    LinkedSecondPassExecutorRequest, LinkedSecondPassExecutorStatus,
};
use crate::record_write_executor::{
    build_record_write_executor_plan, RecordWriteExecutorMode, RecordWriteExecutorRequest,
    RecordWriteExecutorStatus,
};
use crate::record_write_requests::{RecordWriteOperationStatus, RecordWriteRequestPlan};
use crate::restore_orchestrator::{
    build_restore_orchestrator_plan, orchestrator_prerequisites_hold, RestoreOrchestratorMode,
    RestoreOrchestratorRequest, RestoreOrchestratorStatus,
};
use crate::sandbox_gate_contract::{
    evaluate_sandbox_gate_contract, gate_contract_prerequisites_hold, SandboxGateContractMode,
    SandboxGateContractRequest, SandboxGateContractStatus, REASON_SEPARATOR,
};
use crate::sandbox_restore_harness::{
    build_sandbox_restore_harness_plan, harness_prerequisites_hold, SandboxRestoreHarnessMode,
    SandboxRestoreHarnessRequest, SandboxRestoreHarnessStatus,
};
use crate::schema_write_executor::{
    build_schema_write_executor_plan, SchemaWriteExecutorMode, SchemaWriteExecutorRequest,
    SchemaWriteExecutorStatus,
};
use crate::schema_write_requests::{SchemaWriteOperationStatus, SchemaWriteRequestPlan};
use crate::text::{concat3, decimal, push_decimal};
use crate::write_gate::{evaluate_write_gate, write_gate_is_disabled};

verus! {

#[derive(Debug, Clone, Copy, PartialEq, Eq, Structural)]
pub enum SandboxEnablementReadinessStatus {
    /// A readiness item is missing or unsafe.
    NotReady,
    /// Every item is ready; the sandbox gate is still not armed nor enabled.
    ReadyButDisabled,
    /// The write gate is not disabled; no evaluation is possible.
    Blocked,
}

#[derive(Debug, Clone, Copy, PartialEq, Eq, Structural)]
pub enum SandboxEnablementReadinessCategory {
    GateContract,
    RestoreHarness,
    Orchestrator,
    SchemaExecutor,
    RecordExecutor,
    LinkedExecutor,
    FinalValidationReader,
    CheckpointStore,
    SafetyInvariant,
}

#[derive(Debug, Clone, Copy, PartialEq, Eq, Structural)]
pub enum SandboxEnablementReadinessItemStatus {
    Ready,
    Warning,
    Blocked,
    Missing,
}

#[derive(Debug, Clone)]
pub struct SandboxEnablementReadinessItem {
    pub item_id: String,
    pub label: String,
    pub category: SandboxEnablementReadinessCategory,
    pub status: SandboxEnablementReadinessItemStatus,
    pub note: String,
}

#[derive(Debug, Clone)]
pub struct SandboxEnablementReadinessSafetySnapshot {
    pub write_gate_disabled: bool,
    pub gate_armed: bool,
    pub gate_contract_eligible: bool,
    pub harness_ready_not_executed: bool,
    pub orchestrator_not_executed: bool,
    pub orchestrator_phases_complete: bool,
    pub schema_executor_present: bool,
    pub record_executor_present: bool,
    pub linked_executor_present: bool,
    pub final_validation_reader_present: bool,
    pub checkpoint_store_sanitized: bool,
}

#[derive(Debug, Clone)]
pub struct SandboxEnablementReadinessRequest {
    pub sandbox_verification_safe: bool,
    pub target_empty_safe: bool,
    pub confirmation_gate_declared: bool,
    pub destructive_operation_policy_safe: bool,
    pub attachment_phase_disabled_safe: bool,
    pub live_write_readiness_safe: bool,
    pub write_phase_ordering_safe: bool,
    pub failure_modes_safe: bool,
    pub rollback_limitation_safe: bool,
    pub checkpoint_durability_safe: bool,
    pub sensitive_data_safe: bool,
    pub final_validation_enforcement_safe: bool,
    pub rate_limit_backoff_safe: bool,
}

#[derive(Debug, Clone)]
pub struct SandboxEnablementReadinessResult {
    pub status: SandboxEnablementReadinessStatus,
    pub message: String,
    pub items: Vec<SandboxEnablementReadinessItem>,
    pub safety_snapshot: SandboxEnablementReadinessSafetySnapshot,
    pub total_item_count: usize,
    pub ready_item_count: usize,
    pub blocked_reason: Option<String>,
    pub gate_armed: bool,
    pub no_changes_made: bool,
    pub network_reads_attempted: bool,
    pub network_writes_attempted: bool,
    pub writes_enabled: bool,
    pub reads_enabled: bool,
}

pub const SERN_01: &'static str = "SERN-01";
pub const SERN_02: &'static str = "SERN-02";
pub const SERN_03: &'static str = "SERN-03";
pub const SERN_04: &'static str = "SERN-04";
pub const SERN_05: &'static str = "SERN-05";
pub const SERN_06: &'static str = "SERN-06";
pub const SERN_07: &'static str = "SERN-07";
pub const SERN_08: &'static str = "SERN-08";
pub const SERN_09: &'static str = "SERN-09";
pub const SERN_10: &'static str = "SERN-10";
pub const SERN_11: &'static str = "SERN-11";
pub const SERN_12: &'static str = "SERN-12";
pub const SERN_13: &'static str = "SERN-13";

pub const SERN_LABEL_01: &'static str = "evaluate_write_gate() returns Disabled/DisabledByProductPolicy";
pub const SERN_OK_01: &'static str =
    "evaluate_write_gate() returns Disabled/DisabledByProductPolicy. Required default state confirmed.";
pub const SERN_BAD_01: &'static str =
    "evaluate_write_gate() does not return Disabled. This is a critical safety violation.";
pub const SERN_LABEL_02: &'static str = "Sandbox gate contract can report EligibleButNotArmed";
pub const SERN_OK_02: &'static str =
    "Sandbox gate contract reached eligibleButNotArmed with all prerequisites satisfied. Gate NOT armed.";
pub const SERN_BAD_02: &'static str =
    "Sandbox gate contract did not reach eligibleButNotArmed. One or more prerequisites are missing or unsafe.";
pub const SERN_LABEL_03: &'static str = "Sandbox restore harness can report ReadyNotExecuted";
pub const SERN_OK_03: &'static str =
    "Sandbox restore harness reached readyNotExecuted. Gate NOT armed. No execution performed.";
pub const SERN_BAD_03: &'static str =
    "Sandbox restore harness did not reach readyNotExecuted. One or more prerequisites are missing or unsafe.";
pub const SERN_LABEL_04: &'static str = "Restore orchestrator is default-blocked (notExecuted)";
pub const SERN_OK_04: &'static str =
    "Restore orchestrator returned notExecuted \u{2014} write gate enforced.";
pub const SERN_BAD_04: &'static str = "Restore orchestrator did not return notExecuted.";
pub const SERN_LABEL_05: &'static str = "Restore orchestrator has all 8 phases represented";
pub const SERN_OK_05: &'static str =
    "All 8 orchestrator phases are represented (schema executor, schema checkpoint, record executor, record checkpoint, linked executor, linked checkpoint, final validation reader, final guard).";
pub const SERN_BAD_05: &'static str = "Orchestrator does not have all 8 phases represented.";
pub const SERN_LABEL_06: &'static str = "Schema executor foundation exists and is default-blocked";
pub const SERN_OK_06: &'static str =
    "Schema write executor foundation is present and default-blocked (NotExecuted when disabled).";
pub const SERN_BAD_06: &'static str =
    "Schema write executor foundation is not present or is not default-blocked.";
pub const SERN_LABEL_07: &'static str = "Record executor foundation exists and is default-blocked";
pub const SERN_OK_07: &'static str = "Record write executor foundation is present and default-blocked.";
pub const SERN_BAD_07: &'static str =
    "Record write executor foundation is not present or is not default-blocked.";
pub const SERN_LABEL_08: &'static str =
    "Linked second-pass executor foundation exists and is default-blocked";
pub const SERN_OK_08: &'static str =
    "Linked second-pass executor foundation is present and default-blocked.";
pub const SERN_BAD_08: &'static str =
    "Linked second-pass executor foundation is not present or is not default-blocked.";
pub const SERN_LABEL_09: &'static str = "Final validation reader foundation exists and is default-blocked";
pub const SERN_OK_09: &'static str = "Final validation reader foundation is present and default-blocked.";
pub const SERN_BAD_09: &'static str =
    "Final validation reader foundation is not present or is not default-blocked.";
pub const SERN_LABEL_10: &'static str = "Checkpoint metadata store is sanitized";
pub const SERN_OK_10: &'static str =
    "Checkpoint metadata store responds safely \u{2014} no token, path, or record ID in result.";
pub const SERN_BAD_10: &'static str = "Checkpoint metadata store did not respond in a sanitized state.";
pub const SERN_LABEL_11: &'static str = "No Tauri command required for internal sandbox execution";
pub const SERN_NOTE_11: &'static str =
    "All restore foundation modules are internal Rust only. No Tauri command is required for or wired to sandbox execution.";
pub const SERN_LABEL_12: &'static str = "No UI execution path exists";
pub const SERN_NOTE_12: &'static str =
    "No UI execute, enable, arm, run, validate, or readiness control is wired to any restore execution path.";
pub const SERN_LABEL_13: &'static str = "No token/path/payload/raw HTTP/attachment URL/record ID exposure";
pub const SERN_NOTE_13: &'static str =
    "All foundation result structs are verified to contain no token, absolute path, record payload, raw HTTP body, attachment URL, or old/new record ID.";

pub const SERN_GATE_MESSAGE: &'static str =
    "Critical safety precondition violated: evaluate_write_gate() did not return Disabled. Readiness report cannot proceed.";
pub const SERN_GATE_REASON: &'static str =
    "evaluate_write_gate() must return Disabled/DisabledByProductPolicy.";
pub const SERN_NOT_READY_PREFIX: &'static str = "Sandbox enablement readiness report: not ready. ";
pub const SERN_NOT_READY_SUFFIX: &'static str =
    " items ready. Future sandbox-only gate enablement remains separate pending work. No writes, reads, or network calls are attempted.";
pub const SERN_READY_PREFIX: &'static str = "Sandbox enablement readiness report: all ";
pub const SERN_READY_SUFFIX: &'static str =
    " items ready. The \
    gate is NOT armed and NOT enabled. No writes, reads, or network calls are attempted. Future sandbox-only gate enablement remains separate pending work.";
pub const SPACE: &'static str = " ";
pub const SLASH: &'static str = "/";

// ── Specification ────────────────────────────────────────────────────────────

/// The sandbox gate contract request the report probes.
pub open spec fn readiness_gate_contract_request(r: SandboxEnablementReadinessRequest) -> SandboxGateContractRequest {
    SandboxGateContractRequest {
        mode: SandboxGateContractMode::SandboxOnlyCandidate,
        sandbox_verification_safe: r.sandbox_verification_safe,
        target_empty_safe: r.target_empty_safe,
        confirmation_gate_declared: r.confirmation_gate_declared,
        destructive_operation_policy_safe: r.destructive_operation_policy_safe,
        attachment_phase_disabled_safe: r.attachment_phase_disabled_safe,
        live_write_readiness_safe: r.live_write_readiness_safe,
        restore_orchestrator_present: true,
        schema_executor_present: true,
        record_executor_present: true,
        linked_executor_present: true,
        final_validation_reader_present: true,
    }
}

/// The harness request the report probes.
pub open spec fn readiness_harness_request(r: SandboxEnablementReadinessRequest) -> SandboxRestoreHarnessRequest {
    SandboxRestoreHarnessRequest {
        mode: SandboxRestoreHarnessMode::SandboxOnlyDryHarness,
        sandbox_verification_safe: r.sandbox_verification_safe,
        target_empty_safe: r.target_empty_safe,
        confirmation_gate_declared: r.confirmation_gate_declared,
        destructive_operation_policy_safe: r.destructive_operation_policy_safe,
        attachment_phase_disabled_safe: r.attachment_phase_disabled_safe,
        live_write_readiness_safe: r.live_write_readiness_safe,
        write_phase_ordering_safe: r.write_phase_ordering_safe,
        failure_modes_safe: r.failure_modes_safe,
        rollback_limitation_safe: r.rollback_limitation_safe,
    }
}

/// The orchestrator request the report probes.
pub open spec fn readiness_orchestrator_request(r: SandboxEnablementReadinessRequest) -> RestoreOrchestratorRequest {
    RestoreOrchestratorRequest {
        mode: RestoreOrchestratorMode::SandboxOnly,
        sandbox_verified: r.sandbox_verification_safe,
        target_empty_verified: r.target_empty_safe,
        write_phase_ordering_safe: r.write_phase_ordering_safe,
        failure_modes_safe: r.failure_modes_safe,
        rollback_limitation_safe: r.rollback_limitation_safe,
        live_write_readiness_safe: r.live_write_readiness_safe,
        schema_executor_safe: true,
        record_executor_safe: true,
        linked_executor_safe: true,
        final_validation_reader_safe: true,
    }
}

/// Whether the sandbox gate contract probe reaches `EligibleButNotArmed`.
pub open spec fn readiness_gate_contract_eligible(r: SandboxEnablementReadinessRequest) -> bool {
    gate_contract_prerequisites_hold(readiness_gate_contract_request(r))
}

/// Whether the harness probe reaches `ReadyNotExecuted`.
pub open spec fn readiness_harness_ready(r: SandboxEnablementReadinessRequest) -> bool {
    harness_prerequisites_hold(readiness_harness_request(r))
}

/// Whether the orchestrator probe reaches `NotExecuted`.
pub open spec fn readiness_orchestrator_not_executed(r: SandboxEnablementReadinessRequest) -> bool {
    orchestrator_prerequisites_hold(readiness_orchestrator_request(r))
}

/// The status of the report for a request.
pub open spec fn readiness_status(r: SandboxEnablementReadinessRequest) -> SandboxEnablementReadinessStatus {
    if readiness_harness_ready(r) {
        SandboxEnablementReadinessStatus::ReadyButDisabled
    } else {
        SandboxEnablementReadinessStatus::NotReady
    }
}

pub open spec fn item_is(
    it: SandboxEnablementReadinessItem,
    id: &str,
    label: &str,
    category: SandboxEnablementReadinessCategory,
    ok: bool,
    fail: SandboxEnablementReadinessItemStatus,
    ok_note: &str,
    bad_note: &str,
) -> bool {
    &&& it.item_id@ == id@
    &&& it.label@ == label@
    &&& it.category == category
    &&& it.status == (if ok { SandboxEnablementReadinessItemStatus::Ready } else { fail })
    &&& it.note@ == (if ok { ok_note@ } else { bad_note@ })
}

/// The thirteen readiness items, in order, for the given probe outcomes.
pub open spec fn expected_items(
    items: Seq<SandboxEnablementReadinessItem>,
    write_gate_disabled: bool,
    gate_contract_eligible: bool,
    harness_ready: bool,
    orchestrator_not_executed: bool,
    orchestrator_phases_complete: bool,
    schema_executor_present: bool,
    record_executor_present: bool,
    linked_executor_present: bool,
    final_validation_reader_present: bool,
    checkpoint_store_sanitized: bool,
) -> bool {
    &&& items.len() == 13
    &&& item_is(items[0], SERN_01, SERN_LABEL_01, SandboxEnablementReadinessCategory::SafetyInvariant, write_gate_disabled, SandboxEnablementReadinessItemStatus::Blocked, SERN_OK_01, SERN_BAD_01)
    &&& item_is(items[1], SERN_02, SERN_LABEL_02, SandboxEnablementReadinessCategory::GateContract, gate_contract_eligible, SandboxEnablementReadinessItemStatus::Missing, SERN_OK_02, SERN_BAD_02)
    &&& item_is(items[2], SERN_03, SERN_LABEL_03, SandboxEnablementReadinessCategory::RestoreHarness, harness_ready, SandboxEnablementReadinessItemStatus::Missing, SERN_OK_03, SERN_BAD_03)
    &&& item_is(items[3], SERN_04, SERN_LABEL_04, SandboxEnablementReadinessCategory::Orchestrator, orchestrator_not_executed, SandboxEnablementReadinessItemStatus::Missing, SERN_OK_04, SERN_BAD_04)
    &&& item_is(items[4], SERN_05, SERN_LABEL_05, SandboxEnablementReadinessCategory::Orchestrator, orchestrator_phases_complete, SandboxEnablementReadinessItemStatus::Missing, SERN_OK_05, SERN_BAD_05)
    &&& item_is(items[5], SERN_06, SERN_LABEL_06, SandboxEnablementReadinessCategory::SchemaExecutor, schema_executor_present, SandboxEnablementReadinessItemStatus::Missing, SERN_OK_06, SERN_BAD_06)
    &&& item_is(items[6], SERN_07, SERN_LABEL_07, SandboxEnablementReadinessCategory::RecordExecutor, record_executor_present, SandboxEnablementReadinessItemStatus::Missing, SERN_OK_07, SERN_BAD_07)
    &&& item_is(items[7], SERN_08, SERN_LABEL_08, SandboxEnablementReadinessCategory::LinkedExecutor, linked_executor_present, SandboxEnablementReadinessItemStatus::Missing, SERN_OK_08, SERN_BAD_08)
    &&& item_is(items[8], SERN_09, SERN_LABEL_09, SandboxEnablementReadinessCategory::FinalValidationReader, final_validation_reader_present, SandboxEnablementReadinessItemStatus::Missing, SERN_OK_09, SERN_BAD_09)
    &&& item_is(items[9], SERN_10, SERN_LABEL_10, SandboxEnablementReadinessCategory::CheckpointStore, checkpoint_store_sanitized, SandboxEnablementReadinessItemStatus::Missing, SERN_OK_10, SERN_BAD_10)
    &&& item_is(items[10], SERN_11, SERN_LABEL_11, SandboxEnablementReadinessCategory::SafetyInvariant, true, SandboxEnablementReadinessItemStatus::Missing, SERN_NOTE_11, SERN_NOTE_11)
    &&& item_is(items[11], SERN_12, SERN_LABEL_12, SandboxEnablementReadinessCategory::SafetyInvariant, true, SandboxEnablementReadinessItemStatus::Missing, SERN_NOTE_12, SERN_NOTE_12)
    &&& item_is(items[12], SERN_13, SERN_LABEL_13, SandboxEnablementReadinessCategory::SafetyInvariant, true, SandboxEnablementReadinessItemStatus::Missing, SERN_NOTE_13, SERN_NOTE_13)
}

/// An item counts as ready when its status is `Ready` or `Warning`.
pub open spec fn item_counts_ready(it: SandboxEnablementReadinessItem) -> bool {
    it.status == SandboxEnablementReadinessItemStatus::Ready
        || it.status == SandboxEnablementReadinessItemStatus::Warning
}

/// Number of items that count as ready.
pub open spec fn ready_count(items: Seq<SandboxEnablementReadinessItem>) -> nat
    decreases items.len(),
{
    if items.len() == 0 {
        0
    } else {
        ready_count(items.drop_last()) + if item_counts_ready(items.last()) { 1nat } else { 0nat }
    }
}

/// The items whose status is `Ready` or `Warning`, in order.
pub open spec fn ready_items(items: Seq<SandboxEnablementReadinessItem>) -> Seq<SandboxEnablementReadinessItem> {
    items.filter(|it: SandboxEnablementReadinessItem|
        it.status == SandboxEnablementReadinessItemStatus::Ready
            || it.status == SandboxEnablementReadinessItemStatus::Warning)
}

/// The ready count is the number of items whose status is `Ready` or
/// `Warning`; an item with any other status keeps it below the item count.
pub proof fn lemma_ready_count_counts_ready_items(items: Seq<SandboxEnablementReadinessItem>)
    ensures
        ready_count(items) == ready_items(items).len(),
        ready_count(items) <= items.len(),
        forall|j: int| 0 <= j < items.len()
            && (#[trigger] items[j]).status != SandboxEnablementReadinessItemStatus::Ready
            && items[j].status != SandboxEnablementReadinessItemStatus::Warning
            ==> ready_count(items) < items.len(),
    decreases items.len(),
{
    if items.len() > 0 {
        lemma_ready_count_counts_ready_items(items.drop_last());
        reveal_with_fuel(Seq::filter, 1);
        assert(ready_items(items) == if item_counts_ready(items.last()) {
            ready_items(items.drop_last()).push(items.last())
        } else {
            ready_items(items.drop_last())
        });
        assert forall|j: int| 0 <= j < items.len()
            && (#[trigger] items[j]).status != SandboxEnablementReadinessItemStatus::Ready
            && items[j].status != SandboxEnablementReadinessItemStatus::Warning
            implies ready_count(items) < items.len() by {
            if j < items.len() - 1 {
                assert(items.drop_last()[j] == items[j]);
            }
        }
    }
}

/// The reason of a not-ready report: the first item that is not ready.
pub open spec fn readiness_blocked_reason(r: SandboxEnablementReadinessRequest) -> Seq<char> {
    if !readiness_gate_contract_eligible(r) {
        SERN_02@ + REASON_SEPARATOR@ + SERN_BAD_02@
    } else {
        SERN_03@ + REASON_SEPARATOR@ + SERN_BAD_03@
    }
}

// ── Helpers ──────────────────────────────────────────────────────────────────

fn make_item(
    id: &str,
    label: &str,
    category: SandboxEnablementReadinessCategory,
    ok: bool,
    fail: SandboxEnablementReadinessItemStatus,
    ok_note: &str,
    bad_note: &str,
) -> (it: SandboxEnablementReadinessItem)
    ensures
        item_is(it, id, label, category, ok, fail, ok_note, bad_note),
{
    SandboxEnablementReadinessItem {
        item_id: String::from_str(id),
        label: String::from_str(label),
        category,
        status: if ok { SandboxEnablementReadinessItemStatus::Ready } else { fail },
        note: if ok { String::from_str(ok_note) } else { String::from_str(bad_note) },
    }
}

/// Builds the thirteen readiness items for the given probe outcomes.
fn build_readiness_items(
    write_gate_disabled: bool,
    gate_contract_eligible: bool,
    harness_ready: bool,
    orchestrator_not_executed: bool,
    orchestrator_phases_complete: bool,
    schema_executor_present: bool,
    record_executor_present: bool,
    linked_executor_present: bool,
    final_validation_reader_present: bool,
    checkpoint_store_sanitized: bool,
) -> (items: Vec<SandboxEnablementReadinessItem>)
    ensures
        expected_items(items@, write_gate_disabled, gate_contract_eligible, harness_ready,
            orchestrator_not_executed, orchestrator_phases_complete, schema_executor_present,
            record_executor_present, linked_executor_present, final_validation_reader_present,
            checkpoint_store_sanitized),
{
    let mut items: Vec<SandboxEnablementReadinessItem> = Vec::new();
    items.push(make_item(SERN_01, SERN_LABEL_01, SandboxEnablementReadinessCategory::SafetyInvariant, write_gate_disabled, SandboxEnablementReadinessItemStatus::Blocked, SERN_OK_01, SERN_BAD_01));
    items.push(make_item(SERN_02, SERN_LABEL_02, SandboxEnablementReadinessCategory::GateContract, gate_contract_eligible, SandboxEnablementReadinessItemStatus::Missing, SERN_OK_02, SERN_BAD_02));
    items.push(make_item(SERN_03, SERN_LABEL_03, SandboxEnablementReadinessCategory::RestoreHarness, harness_ready, SandboxEnablementReadinessItemStatus::Missing, SERN_OK_03, SERN_BAD_03));
    items.push(make_item(SERN_04, SERN_LABEL_04, SandboxEnablementReadinessCategory::Orchestrator, orchestrator_not_executed, SandboxEnablementReadinessItemStatus::Missing, SERN_OK_04, SERN_BAD_04));
    items.push(make_item(SERN_05, SERN_LABEL_05, SandboxEnablementReadinessCategory::Orchestrator, orchestrator_phases_complete, SandboxEnablementReadinessItemStatus::Missing, SERN_OK_05, SERN_BAD_05));
    items.push(make_item(SERN_06, SERN_LABEL_06, SandboxEnablementReadinessCategory::SchemaExecutor, schema_executor_present, SandboxEnablementReadinessItemStatus::Missing, SERN_OK_06, SERN_BAD_06));
    items.push(make_item(SERN_07, SERN_LABEL_07, SandboxEnablementReadinessCategory::RecordExecutor, record_executor_present, SandboxEnablementReadinessItemStatus::Missing, SERN_OK_07, SERN_BAD_07));
    items.push(make_item(SERN_08, SERN_LABEL_08, SandboxEnablementReadinessCategory::LinkedExecutor, linked_executor_present, SandboxEnablementReadinessItemStatus::Missing, SERN_OK_08, SERN_BAD_08));
    items.push(make_item(SERN_09, SERN_LABEL_09, SandboxEnablementReadinessCategory::FinalValidationReader, final_validation_reader_present, SandboxEnablementReadinessItemStatus::Missing, SERN_OK_09, SERN_BAD_09));
    items.push(make_item(SERN_10, SERN_LABEL_10, SandboxEnablementReadinessCategory::CheckpointStore, checkpoint_store_sanitized, SandboxEnablementReadinessItemStatus::Missing, SERN_OK_10, SERN_BAD_10));
    items.push(make_item(SERN_11, SERN_LABEL_11, SandboxEnablementReadinessCategory::SafetyInvariant, true, SandboxEnablementReadinessItemStatus::Missing, SERN_NOTE_11, SERN_NOTE_11));
    items.push(make_item(SERN_12, SERN_LABEL_12, SandboxEnablementReadinessCategory::SafetyInvariant, true, SandboxEnablementReadinessItemStatus::Missing, SERN_NOTE_12, SERN_NOTE_12));
    items.push(make_item(SERN_13, SERN_LABEL_13, SandboxEnablementReadinessCategory::SafetyInvariant, true, SandboxEnablementReadinessItemStatus::Missing, SERN_NOTE_13, SERN_NOTE_13));
    items
}

fn counts_ready(it: &SandboxEnablementReadinessItem) -> (b: bool)
    ensures
        b == item_counts_ready(*it),
{
    match it.status {
        SandboxEnablementReadinessItemStatus::Ready => true,
        SandboxEnablementReadinessItemStatus::Warning => true,
        _ => false,
    }
}

fn count_ready(items: &Vec<SandboxEnablementReadinessItem>) -> (n: usize)
    ensures
        n == ready_count(items@),
{
    let mut n: usize = 0;
    let mut i: usize = 0;
    while i < items.len()
        invariant
            i <= items.len(),
            n == ready_count(items@.take(i as int)),
            n <= i,
        decreases items.len() - i,
    {
        assert(items@.take(i as int + 1).drop_last() =~= items@.take(i as int));
        if counts_ready(&items[i]) {
            n = n + 1;
        }
        i = i + 1;
    }
    assert(items@.take(items.len() as int) =~= items@);
    n
}

fn find_first_not_ready(items: &Vec<SandboxEnablementReadinessItem>) -> (r: Option<usize>)
    ensures
        match r {
            Some(i) => {
                &&& i < items@.len()
                &&& !item_counts_ready(items@[i as int])
                &&& forall|j: int| 0 <= j < i ==> item_counts_ready(#[trigger] items@[j])
            },
            None => forall|j: int| 0 <= j < items@.len() ==> item_counts_ready(#[trigger] items@[j]),
        },
{
    let mut i: usize = 0;
    while i < items.len()
        invariant
            i <= items.len(),
            forall|j: int| 0 <= j < i ==> item_counts_ready(#[trigger] items@[j]),
        decreases items.len() - i,
    {
        if !counts_ready(&items[i]) {
            return Some(i);
        }
        i = i + 1;
    }
    None
}

// ── Core function ────────────────────────────────────────────────────────────

/// Builds the sandbox-only gate enablement readiness report.
///
/// Every foundation is probed with the caller's declarations; the thirteen
/// items reflect the probe outcomes. The first item that is missing or blocked
/// makes the report `NotReady` with its id and note as the reason; when every
/// item is ready the status is `ReadyButDisabled`. The sandbox gate is never armed and
/// no I/O is enabled.
pub fn build_sandbox_enablement_readiness_report(
    request: &SandboxEnablementReadinessRequest,
) -> (result: SandboxEnablementReadinessResult)
    ensures
        result.status == readiness_status(*request),
        !result.gate_armed,
        result.no_changes_made,
        !result.network_reads_attempted,
        !result.network_writes_attempted,
        !result.writes_enabled,
        !result.reads_enabled,
        !result.safety_snapshot.gate_armed,
        result.safety_snapshot.write_gate_disabled,
        result.safety_snapshot.gate_contract_eligible == readiness_gate_contract_eligible(*request),
        result.safety_snapshot.harness_ready_not_executed == readiness_harness_ready(*request),
        result.safety_snapshot.orchestrator_not_executed == readiness_orchestrator_not_executed(*request),
        result.safety_snapshot.orchestrator_phases_complete == readiness_orchestrator_not_executed(*request),
        result.safety_snapshot.schema_executor_present,
        result.safety_snapshot.record_executor_present,
        result.safety_snapshot.linked_executor_present,
        result.safety_snapshot.final_validation_reader_present,
        result.safety_snapshot.checkpoint_store_sanitized,
        expected_items(result.items@, true, readiness_gate_contract_eligible(*request),
            readiness_harness_ready(*request), readiness_orchestrator_not_executed(*request),
            readiness_orchestrator_not_executed(*request), true, true, true, true, true),
        result.total_item_count == 13,
        result.ready_item_count == ready_count(result.items@),
        result.ready_item_count == ready_items(result.items@).len(),
        result.ready_item_count <= result.items@.len(),
        result.status == SandboxEnablementReadinessStatus::NotReady
            ==> result.ready_item_count < result.total_item_count,
        result.status == SandboxEnablementReadinessStatus::NotReady ==> {
            &&& result.blocked_reason matches Some(b) && b@ == readiness_blocked_reason(*request)
            &&& result.message@ == SERN_NOT_READY_PREFIX@ + readiness_blocked_reason(*request)
                + SPACE@ + decimal(ready_count(result.items@)) + SLASH@ + decimal(13)
                + SERN_NOT_READY_SUFFIX@
        },
        result.status == SandboxEnablementReadinessStatus::ReadyButDisabled ==> {
            &&& result.blocked_reason is None
            &&& result.ready_item_count == 13
            &&& result.message@ == SERN_READY_PREFIX@ + decimal(13) + SERN_READY_SUFFIX@
        },
{
    let gate = evaluate_write_gate();
    let write_gate_disabled = write_gate_is_disabled(&gate);

    if !write_gate_disabled {
        return SandboxEnablementReadinessResult {
            status: SandboxEnablementReadinessStatus::Blocked,
            message: String::from_str(SERN_GATE_MESSAGE),
            items: Vec::new(),
            safety_snapshot: SandboxEnablementReadinessSafetySnapshot {
                write_gate_disabled: false,
                gate_armed: false,
                gate_contract_eligible: false,
                harness_ready_not_executed: false,
                orchestrator_not_executed: false,
                orchestrator_phases_complete: false,
                schema_executor_present: false,
                record_executor_present: false,
                linked_executor_present: false,
                final_validation_reader_present: false,
                checkpoint_store_sanitized: false,
            },
            total_item_count: 0,
            ready_item_count: 0,
            blocked_reason: Some(String::from_str(SERN_GATE_REASON)),
            gate_armed: false,
            no_changes_made: true,
            network_reads_attempted: false,
            network_writes_attempted: false,
            writes_enabled: false,
            reads_enabled: false,
        };
    }

    // Probe 1: sandbox gate contract.
    let gate_contract_req = SandboxGateContractRequest {
        mode: SandboxGateContractMode::SandboxOnlyCandidate,
        sandbox_verification_safe: request.sandbox_verification_safe,
        target_empty_safe: request.target_empty_safe,
        confirmation_gate_declared: request.confirmation_gate_declared,
        destructive_operation_policy_safe: request.destructive_operation_policy_safe,
        attachment_phase_disabled_safe: request.attachment_phase_disabled_safe,
        live_write_readiness_safe: request.live_write_readiness_safe,
        restore_orchestrator_present: true,
        schema_executor_present: true,
        record_executor_present: true,
        linked_executor_present: true,
        final_validation_reader_present: true,
    };
    let gate_contract_result = evaluate_sandbox_gate_contract(&gate_contract_req);
    let gate_contract_eligible = match gate_contract_result.status {
        SandboxGateContractStatus::EligibleButNotArmed => true,
        _ => false,
    };

    // Probe 2: sandbox restore harness.
    let harness_req = SandboxRestoreHarnessRequest {
        mode: SandboxRestoreHarnessMode::SandboxOnlyDryHarness,
        sandbox_verification_safe: request.sandbox_verification_safe,
        target_empty_safe: request.target_empty_safe,
        confirmation_gate_declared: request.confirmation_gate_declared,
        destructive_operation_policy_safe: request.destructive_operation_policy_safe,
        attachment_phase_disabled_safe: request.attachment_phase_disabled_safe,
        live_write_readiness_safe: request.live_write_readiness_safe,
        write_phase_ordering_safe: request.write_phase_ordering_safe,
        failure_modes_safe: request.failure_modes_safe,
        rollback_limitation_safe: request.rollback_limitation_safe,
    };
    let harness_result = build_sandbox_restore_harness_plan(&harness_req);
    let harness_ready = match harness_result.status {
        SandboxRestoreHarnessStatus::ReadyNotExecuted => true,
        _ => false,
    };

    // Probe 3: restore orchestrator.
    let orchestrator_req = RestoreOrchestratorRequest {
        mode: RestoreOrchestratorMode::SandboxOnly,
        sandbox_verified: request.sandbox_verification_safe,
        target_empty_verified: request.target_empty_safe,
        write_phase_ordering_safe: request.write_phase_ordering_safe,
        failure_modes_safe: request.failure_modes_safe,
        rollback_limitation_safe: request.rollback_limitation_safe,
        live_write_readiness_safe: request.live_write_readiness_safe,
        schema_executor_safe: true,
        record_executor_safe: true,
        linked_executor_safe: true,
        final_validation_reader_safe: true,
    };
    let orchestrator_result = build_restore_orchestrator_plan(&orchestrator_req);
    let orchestrator_not_executed = match orchestrator_result.status {
        RestoreOrchestratorStatus::NotExecuted => true,
        RestoreOrchestratorStatus::Blocked => false,
    };
    let orchestrator_phases_complete = orchestrator_result.total_phase_count == 8;

    // Probe 4: schema executor foundation, in disabled mode.
    let schema_exec_req = SchemaWriteExecutorRequest {
        mode: SchemaWriteExecutorMode::Disabled,
        explicit_internal_schema_write_requested: false,
        sandbox_verified: false,
        target_empty_verified: false,
        live_write_readiness_satisfied: false,
    };
    let schema_plan = SchemaWriteRequestPlan {
        filename: String::new(),
        status: SchemaWriteOperationStatus::Disabled,
        blocked_reason: None,
        operations: Vec::new(),
        table_op_count: 0,
        field_op_count: 0,
        deferred_op_count: 0,
        manual_action_count: 0,
        total_op_count: 0,
        warnings: Vec::new(),
        no_changes_made: true,
        network_writes_attempted: false,
    };
    let schema_exec_result = build_schema_write_executor_plan(&schema_exec_req, &schema_plan);
    let schema_executor_present = match schema_exec_result.status {
        SchemaWriteExecutorStatus::Blocked => true,
        SchemaWriteExecutorStatus::NotExecuted => true,
    };

    // Probe 5: record executor foundation, in disabled mode.
    let record_exec_req = RecordWriteExecutorRequest {
        mode: RecordWriteExecutorMode::Disabled,
        explicit_internal_record_write_requested: false,
        sandbox_verified: false,
        target_empty_verified: false,
        schema_executor_safe: false,
        rate_limit_backoff_safe: false,
        checkpoint_store_safe: false,
        live_write_readiness_satisfied: false,
    };
    let record_plan = RecordWriteRequestPlan {
        filename: String::new(),
        status: RecordWriteOperationStatus::Disabled,
        blocked_reason: None,
        operations: Vec::new(),
        create_batch_op_count: 0,
        linked_update_op_count: 0,
        checkpoint_op_count: 0,
        attachment_op_count: 0,
        skipped_field_op_count: 0,
        total_op_count: 0,
        total_first_pass_batches: 0,
        total_second_pass_batches: 0,
        warnings: Vec::new(),
        no_changes_made: true,
        network_writes_attempted: false,
    };
    let record_exec_result = build_record_write_executor_plan(&record_exec_req, &record_plan);
    let record_executor_present = match record_exec_result.status {
        RecordWriteExecutorStatus::Blocked => true,
        RecordWriteExecutorStatus::NotExecuted => true,
    };

    // Probe 6: linked second-pass executor foundation, in disabled mode.
    let linked_exec_req = LinkedSecondPassExecutorRequest {
        mode: LinkedSecondPassExecutorMode::Disabled,
        explicit_internal_linked_second_pass_requested: false,
        sandbox_verified: false,
        target_empty_verified: false,
        record_executor_safe: false,
        linked_second_pass_preview_ready: false,
        linked_second_pass_preview_status: LinkedSecondPassExecutionPreviewStatus::Blocked,
        mapping_checkpoint_preview_ready: false,
        sensitive_data_safe: false,
        live_write_readiness_satisfied: false,
        batch_size: 1,
        field_summaries: Vec::new(),
    };
    let linked_exec_result = build_linked_second_pass_executor_plan(&linked_exec_req);
    let linked_executor_present = match linked_exec_result.status {
        LinkedSecondPassExecutorStatus::Blocked => true,
        LinkedSecondPassExecutorStatus::NotExecuted => true,
    };

    // Probe 7: final validation reader foundation, in disabled mode.
    let final_val_req = FinalValidationReaderRequest {
        mode: FinalValidationReaderMode::Disabled,
        explicit_internal_final_validation_read_requested: false,
        sandbox_verified: false,
        schema_executor_safe: false,
        record_executor_safe: false,
        linked_executor_safe: false,
        final_validation_preview_ready: false,
        final_validation_enforcement_safe: false,
        sensitive_data_safe: false,
        attachment_phase_disabled_safe: false,
        table_count: 0,
        field_count: 0,
        record_count: 0,
        id_mapping_entry_count: 0,
        linked_coverage_count: 0,
        attachment_metadata_count: 0,
        manifest_present: false,
    };
    let final_val_result = build_final_validation_reader_plan(&final_val_req);
    let final_validation_reader_present = match final_val_result.status {
        FinalValidationReaderStatus::Blocked => true,
        FinalValidationReaderStatus::NotExecuted => true,
    };

    // Probe 8: checkpoint metadata store, with no phase to store.
    let checkpoint_req = RestoreCheckpointStoreRequest {
        checkpoint_label: None,
        checkpoint_durability_safe: Some(request.checkpoint_durability_safe),
        sensitive_data_safe: Some(request.sensitive_data_safe),
        mapping_checkpoint_preview_ready: None,
        final_validation_preview_ready: None,
        phases: None,
        boundaries: None,
    };
    let checkpoint_result = store_restore_checkpoint(&checkpoint_req);
    let checkpoint_store_sanitized = match checkpoint_result.status {
        RestoreCheckpointStoreStatus::Blocked => true,
        RestoreCheckpointStoreStatus::Stored => true,
    };

    let items = build_readiness_items(
        write_gate_disabled,
        gate_contract_eligible,
        harness_ready,
        orchestrator_not_executed,
        orchestrator_phases_complete,
        schema_executor_present,
        record_executor_present,
        linked_executor_present,
        final_validation_reader_present,
        checkpoint_store_sanitized,
    );
    let total = items.len();
    let ready = count_ready(&items);
    proof {
        lemma_ready_count_counts_ready_items(items@);
    }

    let snapshot = SandboxEnablementReadinessSafetySnapshot {
        write_gate_disabled,
        gate_armed: false,
        gate_contract_eligible,
        harness_ready_not_executed: harness_ready,
        orchestrator_not_executed,
        orchestrator_phases_complete,
        schema_executor_present,
        record_executor_present,
        linked_executor_present,
        final_validation_reader_present,
        checkpoint_store_sanitized,
    };

    match find_first_not_ready(&items) {
        Some(i) => {
            proof {
                if i > 0 { assert(item_counts_ready(items@[0])); }
                if i > 1 { assert(item_counts_ready(items@[1])); }
                if i > 2 { assert(item_counts_ready(items@[2])); }
                if i > 3 { assert(item_counts_ready(items@[3])); }
            }
            let reason = concat3(items[i].item_id.as_str(), REASON_SEPARATOR, items[i].note.as_str());
            let mut message = String::from_str(SERN_NOT_READY_PREFIX);
            message.append(reason.as_str());
            message.append(SPACE);
            push_decimal(&mut message, ready);
            message.append(SLASH);
            push_decimal(&mut message, total);
            message.append(SERN_NOT_READY_SUFFIX);
            SandboxEnablementReadinessResult {
                status: SandboxEnablementReadinessStatus::NotReady,
                message,
                items,
                safety_snapshot: snapshot,
                total_item_count: total,
                ready_item_count: ready,
                blocked_reason: Some(reason),
                gate_armed: false,
                no_changes_made: true,
                network_reads_attempted: false,
                network_writes_attempted: false,
                writes_enabled: false,
                reads_enabled: false,
            }
        },
        None => {
            proof {
                assert(item_counts_ready(items@[2]));
                assert(items@.take(13) =~= items@);
                reveal_with_fuel(ready_count, 14);
                assert(ready_count(items@) == 13);
            }
            let mut message = String::from_str(SERN_READY_PREFIX);
            push_decimal(&mut message, total);
            message.append(SERN_READY_SUFFIX);
            SandboxEnablementReadinessResult {
                status: SandboxEnablementReadinessStatus::ReadyButDisabled,
                message,
                items,
                safety_snapshot: snapshot,
                total_item_count: total,
                ready_item_count: ready,
                blocked_reason: None,
                gate_armed: false,
                no_changes_made: true,
                network_reads_attempted: false,
                network_writes_attempted: false,
                writes_enabled: false,
                reads_enabled: false,
            }
        },
    }
}


/// The name of a status, as its `Debug` rendering shows it.
pub open spec fn readiness_status_name(s: SandboxEnablementReadinessStatus) -> Seq<char> {
    match s {
        SandboxEnablementReadinessStatus::NotReady => "NotReady"@,
        SandboxEnablementReadinessStatus::ReadyButDisabled => "ReadyButDisabled"@,
        SandboxEnablementReadinessStatus::Blocked => "Blocked"@,
    }
}

/// The name of a status, as its `Debug` rendering shows it.
pub fn readiness_status_label(s: SandboxEnablementReadinessStatus) -> (r: &'static str)
    ensures
        r@ == readiness_status_name(s),
{
    match s {
        SandboxEnablementReadinessStatus::NotReady => "NotReady",
        SandboxEnablementReadinessStatus::ReadyButDisabled => "ReadyButDisabled",
        SandboxEnablementReadinessStatus::Blocked => "Blocked",
    }
}

} // verus!
