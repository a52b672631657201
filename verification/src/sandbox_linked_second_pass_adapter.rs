//! Sandbox linked second-pass adapter boundary. After the arming decision, the
//! simulator, the linked second-pass executor and the record adapter all reach
//! their best non-executing state, and the id mapping is declared to cover the
//! links, each linked field summary becomes an update-batch descriptor
//! (`Planned`). No network call is made and nothing is executed.

use vstd::prelude::*;
use vstd::string::*;
use crate::linked_second_pass_execution_preview::{
    copy_field_summaries, LinkedSecondPassExecutionPreviewStatus, LinkedSecondPassFieldSummary,
};
use crate::linked_second_pass_executor::{
    build_linked_second_pass_executor_plan, LinkedSecondPassExecutorMode,
    LinkedSecondPassExecutorRequest, LinkedSecondPassExecutorStatus,
};
use crate::record_write_requests::{RecordWriteOperationStatus, RecordWriteRequestPlan};
use crate::sandbox_gate_arming::{
    arming_prerequisites_hold, build_sandbox_gate_arming_decision, SandboxGateArmingMode,
    SandboxGateArmingRequest, SandboxGateArmingStatus,
};
use crate::sandbox_record_write_adapter::{
    build_sandbox_record_write_adapter, planned_record_total, srwa_status, SandboxRecordWriteAdapterMode,
    SandboxRecordWriteAdapterRequest, SandboxRecordWriteAdapterStatus,
};
use crate::sandbox_restore_simulator::{
    run_sandbox_restore_simulator, SandboxRestoreSimulatorMode, SandboxRestoreSimulatorRequest,
    SandboxRestoreSimulatorStatus,
};
use crate::schema_write_requests::{SchemaWriteOperationStatus, SchemaWriteRequestPlan};
use crate::text::{concat2, concat3, decimal, decimal_pad3, push_decimal, push_decimal_pad3};
use crate::write_gate::{evaluate_write_gate, write_gate_is_disabled};

verus! {

#[derive(Debug, Clone, Copy, PartialEq, Eq, Structural)]
pub enum SandboxLinkedSecondPassAdapterStatus {
    /// A required prerequisite is missing or unsafe.
    Blocked,
    /// The adapter descriptors are built; no call has been made.
    ReadyForSandboxCall,
    /// Disabled mode: no evaluation is performed. Default state.
    NotExecuted,
}

#[derive(Debug, Clone, Copy, PartialEq, Eq, Structural)]
pub enum SandboxLinkedSecondPassAdapterMode {
    Disabled,
    SandboxOnlyInternal,
}

#[derive(Debug, Clone, Copy, PartialEq, Eq, Structural)]
pub enum SandboxLinkedSecondPassAdapterOperationStatus {
    Planned,
    Blocked,
    NotExecuted,
}

#[derive(Debug, Clone)]
pub struct SandboxLinkedSecondPassAdapterOperation {
    pub operation_id: String,
    pub operation_kind: String,
    pub table_label: String,
    pub field_label: String,
    pub record_count: usize,
    pub batch_count: usize,
    pub status: SandboxLinkedSecondPassAdapterOperationStatus,
    pub note: String,
}

#[derive(Debug, Clone)]
pub struct SandboxLinkedSecondPassAdapterRequest {
    pub mode: SandboxLinkedSecondPassAdapterMode,
    pub explicit_internal_linked_sandbox_call_requested: bool,
    pub sandbox_verified: bool,
    pub target_base_empty: bool,
    pub mapping_coverage_sufficient: bool,
    pub confirmation_gate_declared: bool,
    pub destructive_operation_policy_safe: bool,
    pub attachment_phase_disabled_safe: bool,
    pub live_write_readiness_safe: bool,
    pub write_phase_ordering_safe: bool,
    pub failure_modes_safe: bool,
    pub rollback_limitation_safe: bool,
    pub checkpoint_durability_safe: bool,
    pub sensitive_data_safe: bool,
    pub final_validation_enforcement_safe: bool,
    pub rate_limit_backoff_safe: bool,
    pub schema_executor_safe: bool,
    pub checkpoint_store_safe: bool,
    pub record_executor_safe: bool,
    pub linked_second_pass_preview_ready: bool,
    pub mapping_checkpoint_preview_ready: bool,
    pub field_summaries: Vec<LinkedSecondPassFieldSummary>,
}

#[derive(Debug, Clone)]
pub struct SandboxLinkedSecondPassAdapterResult {
    pub status: SandboxLinkedSecondPassAdapterStatus,
    pub mode: SandboxLinkedSecondPassAdapterMode,
    pub message: String,
    pub operations: Vec<SandboxLinkedSecondPassAdapterOperation>,
    pub total_operation_count: usize,
    pub blocked_reason: Option<String>,
    pub no_changes_made: bool,
    pub network_writes_attempted: bool,
    pub runtime_execution_enabled: bool,
    pub app_runtime_writes_enabled: bool,
    pub app_runtime_reads_enabled: bool,
}

pub const CHK_MODE: &'static str = "SLPA-CHK-01";
pub const CHK_EXPLICIT_FLAG: &'static str = "SLPA-CHK-02";
pub const CHK_WRITE_GATE: &'static str = "SLPA-CHK-03";
pub const CHK_ARMING: &'static str = "SLPA-CHK-04";
pub const CHK_SIMULATOR: &'static str = "SLPA-CHK-05";
pub const CHK_LINKED_EXECUTOR: &'static str = "SLPA-CHK-06";
pub const CHK_RECORD_ADAPTER: &'static str = "SLPA-CHK-07";
pub const CHK_MAPPING_COVERAGE: &'static str = "SLPA-CHK-08";

/// Records per linked update batch handed to the executor probe.
pub const SLPA_BATCH_SIZE: usize = 10;

pub const SLPA_MODE_TAIL: &'static str =
    ": Adapter mode is disabled. No evaluation is performed. This is the default state.";
pub const SLPA_NO_CHANGES_SUFFIX: &'static str =
    " No Airtable API calls were made. No changes were made. Runtime execution, writes, and reads remain disabled.";
pub const SLPA_BLOCKED_PREFIX: &'static str = "Sandbox linked second-pass adapter is blocked. ";
pub const SLPA_FLAG_MESSAGE: &'static str =
    "Explicit internal linked sandbox call flag is not set. This flag must be explicitly true before adapter evaluation can proceed. No UI control, Tauri command, or runtime path sets this flag.";
pub const SLPA_FLAG_TAIL: &'static str =
    ": explicit_internal_linked_sandbox_call_requested must be true.";
pub const SLPA_GATE_MESSAGE: &'static str =
    "evaluate_write_gate() did not return Disabled/DisabledByProductPolicy. This is a critical safety violation. Adapter evaluation cannot proceed.";
pub const SLPA_GATE_TAIL: &'static str =
    ": evaluate_write_gate() must return Disabled/DisabledByProductPolicy.";
pub const SLPA_ARMING_MESSAGE: &'static str =
    "Sandbox gate arming decision did not return ArmedNotExecutable. All arming prerequisites must be satisfied before the linked adapter boundary can proceed.";
pub const SLPA_ARMING_TAIL: &'static str =
    ": sandbox gate arming decision must return ArmedNotExecutable.";
pub const SLPA_SIMULATOR_MESSAGE: &'static str =
    "Sandbox restore simulator did not return SimulatedNotExecuted. All simulation prerequisites must be satisfied before the linked adapter boundary can proceed.";
pub const SLPA_SIMULATOR_TAIL: &'static str =
    ": sandbox restore simulator must return SimulatedNotExecuted.";
pub const SLPA_EXECUTOR_MESSAGE: &'static str =
    "Linked second-pass executor plan did not return NotExecuted. A ready (not-executed) executor plan is required before the linked adapter boundary can proceed.";
pub const SLPA_EXECUTOR_TAIL: &'static str =
    ": linked second-pass executor plan must return NotExecuted.";
pub const SLPA_RECORD_ADAPTER_MESSAGE: &'static str =
    "Record write adapter boundary did not return ReadyForSandboxCall. The record adapter must be ready before linked record updates are considered.";
pub const SLPA_RECORD_ADAPTER_TAIL: &'static str =
    ": record write adapter must return ReadyForSandboxCall.";
pub const SLPA_COVERAGE_MESSAGE: &'static str =
    "Record ID mapping coverage is not sufficient. Every linked record must be resolvable before linked updates can be described.";
pub const SLPA_COVERAGE_TAIL: &'static str = ": mapping_coverage_sufficient must be true.";

pub const SLPA_OP_PREFIX: &'static str = "SLPA-OP-";
pub const SLPA_KIND_UPDATE_BATCH: &'static str = "linkedUpdateBatchDescriptor";
pub const SLPA_NOTE_PREFIX: &'static str = "Second-pass linked update for '";
pub const SLPA_NOTE_IN: &'static str = "' in '";
pub const SLPA_NOTE_RECORDS: &'static str = "' (";
pub const SLPA_NOTE_BATCHES: &'static str = " record(s), ";
pub const SLPA_NOTE_SUFFIX: &'static str =
    " batch(es)) \u{2014} adapter boundary descriptor. No network call made.";

pub const SLPA_READY_PREFIX: &'static str = "Sandbox linked second-pass adapter boundary is ready (";
pub const SLPA_READY_SUFFIX: &'static str =
    " linked update batch descriptor(s)). No Airtable network call was made. No runtime execution is enabled. No app runtime writes or reads are enabled. No changes were made. This adapter boundary is for sandbox tests only and is not reachable from UI, TypeScript, or any Tauri command.";

// ── Specification ────────────────────────────────────────────────────────────

/// The arming request the adapter probes.
pub open spec fn slpa_arming_request(r: SandboxLinkedSecondPassAdapterRequest) -> SandboxGateArmingRequest {
    SandboxGateArmingRequest {
        mode: SandboxGateArmingMode::SandboxOnlyInternal,
        explicit_internal_sandbox_arming_requested: true,
        sandbox_verification_safe: r.sandbox_verified,
        target_empty_safe: r.target_base_empty,
        confirmation_gate_declared: r.confirmation_gate_declared,
        destructive_operation_policy_safe: r.destructive_operation_policy_safe,
        attachment_phase_disabled_safe: r.attachment_phase_disabled_safe,
        live_write_readiness_safe: r.live_write_readiness_safe,
        write_phase_ordering_safe: r.write_phase_ordering_safe,
        failure_modes_safe: r.failure_modes_safe,
        rollback_limitation_safe: r.rollback_limitation_safe,
        checkpoint_durability_safe: r.checkpoint_durability_safe,
        sensitive_data_safe: r.sensitive_data_safe,
        final_validation_enforcement_safe: r.final_validation_enforcement_safe,
        rate_limit_backoff_safe: r.rate_limit_backoff_safe,
    }
}

/// Whether the caller-declared safety prerequisites of the arming probe hold.
pub open spec fn slpa_prerequisites_hold(r: SandboxLinkedSecondPassAdapterRequest) -> bool {
    arming_prerequisites_hold(slpa_arming_request(r))
}

/// Whether the linked executor probe reports `NotExecuted`, once the arming
/// prerequisites hold.
pub open spec fn slpa_executor_ready(r: SandboxLinkedSecondPassAdapterRequest) -> bool {
    r.record_executor_safe && r.linked_second_pass_preview_ready
        && r.mapping_checkpoint_preview_ready && r.sensitive_data_safe
}

/// Whether the record adapter probe reports `ReadyForSandboxCall`, once the
/// arming prerequisites hold.
pub open spec fn slpa_record_adapter_ready(
    r: SandboxLinkedSecondPassAdapterRequest,
    record_plan_status: RecordWriteOperationStatus,
    schema_plan_status: SchemaWriteOperationStatus,
) -> bool {
    r.schema_executor_safe && r.rate_limit_backoff_safe && r.checkpoint_store_safe
        && record_plan_status != RecordWriteOperationStatus::Blocked
        && schema_plan_status != SchemaWriteOperationStatus::Blocked
}

/// Whether the record adapter probe is reached and reports
/// `ReadyForSandboxCall`, so that it sums the planned records of the plan.
pub open spec fn slpa_record_probe_ready(
    r: SandboxLinkedSecondPassAdapterRequest,
    record_plan_status: RecordWriteOperationStatus,
    schema_plan_status: SchemaWriteOperationStatus,
) -> bool {
    &&& r.mode == SandboxLinkedSecondPassAdapterMode::SandboxOnlyInternal
    &&& r.explicit_internal_linked_sandbox_call_requested
    &&& slpa_prerequisites_hold(r)
    &&& slpa_executor_ready(r)
    &&& slpa_record_adapter_ready(r, record_plan_status, schema_plan_status)
}

/// The status of the adapter for a request and the statuses of the plans.
pub open spec fn slpa_status(
    r: SandboxLinkedSecondPassAdapterRequest,
    record_plan_status: RecordWriteOperationStatus,
    schema_plan_status: SchemaWriteOperationStatus,
) -> SandboxLinkedSecondPassAdapterStatus {
    if r.mode == SandboxLinkedSecondPassAdapterMode::Disabled {
        SandboxLinkedSecondPassAdapterStatus::NotExecuted
    } else if !r.explicit_internal_linked_sandbox_call_requested || !slpa_prerequisites_hold(r)
        || !slpa_executor_ready(r)
        || !slpa_record_adapter_ready(r, record_plan_status, schema_plan_status)
        || !r.mapping_coverage_sufficient {
        SandboxLinkedSecondPassAdapterStatus::Blocked
    } else {
        SandboxLinkedSecondPassAdapterStatus::ReadyForSandboxCall
    }
}

/// The reason of a blocked adapter: the first failing check.
pub open spec fn slpa_blocked_reason(
    r: SandboxLinkedSecondPassAdapterRequest,
    record_plan_status: RecordWriteOperationStatus,
    schema_plan_status: SchemaWriteOperationStatus,
) -> Seq<char> {
    if !r.explicit_internal_linked_sandbox_call_requested {
        CHK_EXPLICIT_FLAG@ + SLPA_FLAG_TAIL@
    } else if !slpa_prerequisites_hold(r) {
        CHK_ARMING@ + SLPA_ARMING_TAIL@
    } else if !slpa_executor_ready(r) {
        CHK_LINKED_EXECUTOR@ + SLPA_EXECUTOR_TAIL@
    } else if !slpa_record_adapter_ready(r, record_plan_status, schema_plan_status) {
        CHK_RECORD_ADAPTER@ + SLPA_RECORD_ADAPTER_TAIL@
    } else {
        CHK_MAPPING_COVERAGE@ + SLPA_COVERAGE_TAIL@
    }
}

/// The detail of a blocked adapter's message: the first failing check.
pub open spec fn slpa_blocked_detail(
    r: SandboxLinkedSecondPassAdapterRequest,
    record_plan_status: RecordWriteOperationStatus,
    schema_plan_status: SchemaWriteOperationStatus,
) -> Seq<char> {
    if !r.explicit_internal_linked_sandbox_call_requested {
        SLPA_FLAG_MESSAGE@
    } else if !slpa_prerequisites_hold(r) {
        SLPA_ARMING_MESSAGE@
    } else if !slpa_executor_ready(r) {
        SLPA_EXECUTOR_MESSAGE@
    } else if !slpa_record_adapter_ready(r, record_plan_status, schema_plan_status) {
        SLPA_RECORD_ADAPTER_MESSAGE@
    } else {
        SLPA_COVERAGE_MESSAGE@
    }
}

/// The descriptor of the `idx`-th linked field summary `s`.
pub open spec fn linked_descriptor_is(
    a: SandboxLinkedSecondPassAdapterOperation,
    s: LinkedSecondPassFieldSummary,
    idx: nat,
) -> bool {
    &&& a.operation_id@ == SLPA_OP_PREFIX@ + decimal_pad3(idx)
    &&& a.operation_kind@ == SLPA_KIND_UPDATE_BATCH@
    &&& a.table_label@ == s.table_label@
    &&& a.field_label@ == s.field_label@
    &&& a.record_count == s.record_count
    &&& a.batch_count == s.batch_count
    &&& a.status == SandboxLinkedSecondPassAdapterOperationStatus::Planned
    &&& a.note@ == SLPA_NOTE_PREFIX@ + s.field_label@ + SLPA_NOTE_IN@ + s.table_label@
        + SLPA_NOTE_RECORDS@ + decimal(s.record_count as nat) + SLPA_NOTE_BATCHES@
        + decimal(s.batch_count as nat) + SLPA_NOTE_SUFFIX@
}

/// The descriptors are those of the field summaries, one each, in order.
pub open spec fn linked_descriptors_are(
    out: Seq<SandboxLinkedSecondPassAdapterOperation>,
    summaries: Seq<LinkedSecondPassFieldSummary>,
) -> bool {
    &&& out.len() == summaries.len()
    &&& forall|i: int| 0 <= i < out.len() ==> #[trigger] linked_descriptor_is(out[i], summaries[i], i as nat)
}

/// The flags every linked adapter result carries.
pub open spec fn slpa_result_safe(r: SandboxLinkedSecondPassAdapterResult) -> bool {
    &&& r.no_changes_made
    &&& !r.network_writes_attempted
    &&& !r.runtime_execution_enabled
    &&& !r.app_runtime_writes_enabled
    &&& !r.app_runtime_reads_enabled
}

/// The simulator request the linked adapter probes.
pub open spec fn slpa_simulator_request(r: SandboxLinkedSecondPassAdapterRequest) -> SandboxRestoreSimulatorRequest {
    SandboxRestoreSimulatorRequest {
        mode: SandboxRestoreSimulatorMode::SandboxOnlyInternalSimulation,
        explicit_internal_simulation_requested: true,
        sandbox_verification_safe: r.sandbox_verified,
        target_empty_safe: r.target_base_empty,
        confirmation_gate_declared: r.confirmation_gate_declared,
        destructive_operation_policy_safe: r.destructive_operation_policy_safe,
        attachment_phase_disabled_safe: r.attachment_phase_disabled_safe,
        live_write_readiness_safe: r.live_write_readiness_safe,
        write_phase_ordering_safe: r.write_phase_ordering_safe,
        failure_modes_safe: r.failure_modes_safe,
        rollback_limitation_safe: r.rollback_limitation_safe,
        checkpoint_durability_safe: r.checkpoint_durability_safe,
        sensitive_data_safe: r.sensitive_data_safe,
        final_validation_enforcement_safe: r.final_validation_enforcement_safe,
        rate_limit_backoff_safe: r.rate_limit_backoff_safe,
    }
}

/// The linked executor request the linked adapter probes.
pub open spec fn slpa_executor_request(r: SandboxLinkedSecondPassAdapterRequest) -> LinkedSecondPassExecutorRequest {
    LinkedSecondPassExecutorRequest {
        mode: LinkedSecondPassExecutorMode::SandboxOnly,
        explicit_internal_linked_second_pass_requested: true,
        sandbox_verified: r.sandbox_verified,
        target_empty_verified: r.target_base_empty,
        record_executor_safe: r.record_executor_safe,
        linked_second_pass_preview_ready: r.linked_second_pass_preview_ready,
        linked_second_pass_preview_status: if r.linked_second_pass_preview_ready {
            LinkedSecondPassExecutionPreviewStatus::Ready
        } else {
            LinkedSecondPassExecutionPreviewStatus::Blocked
        },
        mapping_checkpoint_preview_ready: r.mapping_checkpoint_preview_ready,
        sensitive_data_safe: r.sensitive_data_safe,
        live_write_readiness_satisfied: r.live_write_readiness_safe,
        batch_size: SLPA_BATCH_SIZE,
        field_summaries: r.field_summaries,
    }
}

/// The record adapter request the linked adapter probes.
pub open spec fn slpa_record_adapter_request(r: SandboxLinkedSecondPassAdapterRequest) -> SandboxRecordWriteAdapterRequest {
    SandboxRecordWriteAdapterRequest {
        mode: SandboxRecordWriteAdapterMode::SandboxOnlyInternal,
        explicit_internal_record_sandbox_call_requested: true,
        sandbox_verified: r.sandbox_verified,
        target_base_empty: r.target_base_empty,
        confirmation_gate_declared: r.confirmation_gate_declared,
        destructive_operation_policy_safe: r.destructive_operation_policy_safe,
        attachment_phase_disabled_safe: r.attachment_phase_disabled_safe,
        live_write_readiness_safe: r.live_write_readiness_safe,
        write_phase_ordering_safe: r.write_phase_ordering_safe,
        failure_modes_safe: r.failure_modes_safe,
        rollback_limitation_safe: r.rollback_limitation_safe,
        checkpoint_durability_safe: r.checkpoint_durability_safe,
        sensitive_data_safe: r.sensitive_data_safe,
        final_validation_enforcement_safe: r.final_validation_enforcement_safe,
        rate_limit_backoff_safe: r.rate_limit_backoff_safe,
        schema_executor_safe: r.schema_executor_safe,
        checkpoint_store_safe: r.checkpoint_store_safe,
    }
}

// ── Helpers ──────────────────────────────────────────────────────────────────

fn linked_descriptor(idx: usize, s: &LinkedSecondPassFieldSummary) -> (a: SandboxLinkedSecondPassAdapterOperation)
    ensures
        linked_descriptor_is(a, *s, idx as nat),
{
    let mut operation_id = String::from_str(SLPA_OP_PREFIX);
    push_decimal_pad3(&mut operation_id, idx);
    let mut note = concat3(SLPA_NOTE_PREFIX, s.field_label.as_str(), SLPA_NOTE_IN);
    note.append(s.table_label.as_str());
    note.append(SLPA_NOTE_RECORDS);
    push_decimal(&mut note, s.record_count);
    note.append(SLPA_NOTE_BATCHES);
    push_decimal(&mut note, s.batch_count);
    note.append(SLPA_NOTE_SUFFIX);
    SandboxLinkedSecondPassAdapterOperation {
        operation_id,
        operation_kind: String::from_str(SLPA_KIND_UPDATE_BATCH),
        table_label: s.table_label.clone(),
        field_label: s.field_label.clone(),
        record_count: s.record_count,
        batch_count: s.batch_count,
        status: SandboxLinkedSecondPassAdapterOperationStatus::Planned,
        note,
    }
}

fn build_descriptors(summaries: &Vec<LinkedSecondPassFieldSummary>) -> (out: Vec<SandboxLinkedSecondPassAdapterOperation>)
    ensures
        linked_descriptors_are(out@, summaries@),
{
    let mut operations: Vec<SandboxLinkedSecondPassAdapterOperation> = Vec::new();
    let mut i: usize = 0;
    while i < summaries.len()
        invariant
            i <= summaries.len(),
            linked_descriptors_are(operations@, summaries@.take(i as int)),
        decreases summaries.len() - i,
    {
        let a = linked_descriptor(i, &summaries[i]);
        operations.push(a);
        i = i + 1;
    }
    assert(summaries@.take(summaries.len() as int) =~= summaries@);
    operations
}

/// A `Blocked` result with the given message detail and reason.
fn blocked(detail: &str, blocked_reason: String) -> (r: SandboxLinkedSecondPassAdapterResult)
    ensures
        r.status == SandboxLinkedSecondPassAdapterStatus::Blocked,
        r.mode == SandboxLinkedSecondPassAdapterMode::SandboxOnlyInternal,
        r.message@ == SLPA_BLOCKED_PREFIX@ + detail@ + SLPA_NO_CHANGES_SUFFIX@,
        r.blocked_reason matches Some(b) && b@ == blocked_reason@,
        r.operations@.len() == 0,
        r.total_operation_count == 0,
        slpa_result_safe(r),
{
    SandboxLinkedSecondPassAdapterResult {
        status: SandboxLinkedSecondPassAdapterStatus::Blocked,
        mode: SandboxLinkedSecondPassAdapterMode::SandboxOnlyInternal,
        message: concat3(SLPA_BLOCKED_PREFIX, detail, SLPA_NO_CHANGES_SUFFIX),
        operations: Vec::new(),
        total_operation_count: 0,
        blocked_reason: Some(blocked_reason),
        no_changes_made: true,
        network_writes_attempted: false,
        runtime_execution_enabled: false,
        app_runtime_writes_enabled: false,
        app_runtime_reads_enabled: false,
    }
}

// ── Core function ────────────────────────────────────────────────────────────

/// Builds the sandbox linked second-pass adapter boundary.
///
/// Disabled mode returns `NotExecuted` without evaluation. Otherwise the checks
/// run in order: the explicit flag, the write gate, the arming decision, the
/// simulator, the linked executor and the record adapter as probes, then the
/// declared id-mapping coverage; the first that fails blocks the adapter with
/// its `SLPA-CHK-..` reason. When all pass, each linked field summary becomes a
/// `Planned` update-batch descriptor `SLPA-OP-nnn`. No network call is made in
/// any case.
pub fn build_sandbox_linked_second_pass_adapter(
    request: &SandboxLinkedSecondPassAdapterRequest,
    schema_plan: &SchemaWriteRequestPlan,
    record_plan: &RecordWriteRequestPlan,
) -> (result: SandboxLinkedSecondPassAdapterResult)
    requires
        slpa_record_probe_ready(*request, record_plan.status, schema_plan.status)
            ==> planned_record_total(record_plan.operations@) <= usize::MAX,
    ensures
        result.status == slpa_status(*request, record_plan.status, schema_plan.status),
        slpa_result_safe(result),
        result.total_operation_count == result.operations@.len(),
        request.mode == SandboxLinkedSecondPassAdapterMode::SandboxOnlyInternal ==> result.mode == request.mode,
        result.status == SandboxLinkedSecondPassAdapterStatus::NotExecuted ==> {
            &&& result.mode == SandboxLinkedSecondPassAdapterMode::Disabled
            &&& result.message@ == CHK_MODE@ + SLPA_MODE_TAIL@ + SLPA_NO_CHANGES_SUFFIX@
            &&& result.blocked_reason is None
            &&& result.operations@.len() == 0
        },
        result.status == SandboxLinkedSecondPassAdapterStatus::Blocked ==> {
            &&& result.message@ == SLPA_BLOCKED_PREFIX@
                + slpa_blocked_detail(*request, record_plan.status, schema_plan.status)
                + SLPA_NO_CHANGES_SUFFIX@
            &&& result.blocked_reason matches Some(b)
                && b@ == slpa_blocked_reason(*request, record_plan.status, schema_plan.status)
            &&& result.operations@.len() == 0
        },
        result.status == SandboxLinkedSecondPassAdapterStatus::ReadyForSandboxCall ==> {
            &&& linked_descriptors_are(result.operations@, request.field_summaries@)
            &&& result.message@ == SLPA_READY_PREFIX@ + decimal(result.total_operation_count as nat)
                + SLPA_READY_SUFFIX@
            &&& result.blocked_reason is None
        },
{
    if let SandboxLinkedSecondPassAdapterMode::Disabled = request.mode {
        return SandboxLinkedSecondPassAdapterResult {
            status: SandboxLinkedSecondPassAdapterStatus::NotExecuted,
            mode: SandboxLinkedSecondPassAdapterMode::Disabled,
            message: concat3(CHK_MODE, SLPA_MODE_TAIL, SLPA_NO_CHANGES_SUFFIX),
            operations: Vec::new(),
            total_operation_count: 0,
            blocked_reason: None,
            no_changes_made: true,
            network_writes_attempted: false,
            runtime_execution_enabled: false,
            app_runtime_writes_enabled: false,
            app_runtime_reads_enabled: false,
        };
    }

    if !request.explicit_internal_linked_sandbox_call_requested {
        return blocked(SLPA_FLAG_MESSAGE, concat2(CHK_EXPLICIT_FLAG, SLPA_FLAG_TAIL));
    }

    let gate = evaluate_write_gate();
    if !write_gate_is_disabled(&gate) {
        return blocked(SLPA_GATE_MESSAGE, concat2(CHK_WRITE_GATE, SLPA_GATE_TAIL));
    }

    // Arming probe.
    let arming_req = SandboxGateArmingRequest {
        mode: SandboxGateArmingMode::SandboxOnlyInternal,
        explicit_internal_sandbox_arming_requested: true,
        sandbox_verification_safe: request.sandbox_verified,
        target_empty_safe: request.target_base_empty,
        confirmation_gate_declared: request.confirmation_gate_declared,
        destructive_operation_policy_safe: request.destructive_operation_policy_safe,
        attachment_phase_disabled_safe: request.attachment_phase_disabled_safe,
        live_write_readiness_safe: request.live_write_readiness_safe,
        write_phase_ordering_safe: request.write_phase_ordering_safe,
        failure_modes_safe: request.failure_modes_safe,
        rollback_limitation_safe: request.rollback_limitation_safe,
        checkpoint_durability_safe: request.checkpoint_durability_safe,
        sensitive_data_safe: request.sensitive_data_safe,
        final_validation_enforcement_safe: request.final_validation_enforcement_safe,
        rate_limit_backoff_safe: request.rate_limit_backoff_safe,
    };
    assert(arming_req == slpa_arming_request(*request));
    let arming_result = build_sandbox_gate_arming_decision(&arming_req);
    let armed = match arming_result.status {
        SandboxGateArmingStatus::ArmedNotExecutable => true,
        SandboxGateArmingStatus::Blocked => false,
    };
    if !armed {
        return blocked(SLPA_ARMING_MESSAGE, concat2(CHK_ARMING, SLPA_ARMING_TAIL));
    }

    // Simulator probe.
    let sim_req = SandboxRestoreSimulatorRequest {
        mode: SandboxRestoreSimulatorMode::SandboxOnlyInternalSimulation,
        explicit_internal_simulation_requested: true,
        sandbox_verification_safe: request.sandbox_verified,
        target_empty_safe: request.target_base_empty,
        confirmation_gate_declared: request.confirmation_gate_declared,
        destructive_operation_policy_safe: request.destructive_operation_policy_safe,
        attachment_phase_disabled_safe: request.attachment_phase_disabled_safe,
        live_write_readiness_safe: request.live_write_readiness_safe,
        write_phase_ordering_safe: request.write_phase_ordering_safe,
        failure_modes_safe: request.failure_modes_safe,
        rollback_limitation_safe: request.rollback_limitation_safe,
        checkpoint_durability_safe: request.checkpoint_durability_safe,
        sensitive_data_safe: request.sensitive_data_safe,
        final_validation_enforcement_safe: request.final_validation_enforcement_safe,
        rate_limit_backoff_safe: request.rate_limit_backoff_safe,
    };
    assert(sim_req == slpa_simulator_request(*request));
    let sim_result = run_sandbox_restore_simulator(&sim_req);
    let simulated = match sim_result.status {
        SandboxRestoreSimulatorStatus::SimulatedNotExecuted => true,
        SandboxRestoreSimulatorStatus::Blocked => false,
    };
    if !simulated {
        return blocked(SLPA_SIMULATOR_MESSAGE, concat2(CHK_SIMULATOR, SLPA_SIMULATOR_TAIL));
    }

    // Linked executor probe.
    let preview_status = if request.linked_second_pass_preview_ready {
        LinkedSecondPassExecutionPreviewStatus::Ready
    } else {
        LinkedSecondPassExecutionPreviewStatus::Blocked
    };
    let executor_req = LinkedSecondPassExecutorRequest {
        mode: LinkedSecondPassExecutorMode::SandboxOnly,
        explicit_internal_linked_second_pass_requested: true,
        sandbox_verified: request.sandbox_verified,
        target_empty_verified: request.target_base_empty,
        record_executor_safe: request.record_executor_safe,
        linked_second_pass_preview_ready: request.linked_second_pass_preview_ready,
        linked_second_pass_preview_status: preview_status,
        mapping_checkpoint_preview_ready: request.mapping_checkpoint_preview_ready,
        sensitive_data_safe: request.sensitive_data_safe,
        live_write_readiness_satisfied: request.live_write_readiness_safe,
        batch_size: SLPA_BATCH_SIZE,
        field_summaries: copy_field_summaries(&request.field_summaries),
    };
    let executor_result = build_linked_second_pass_executor_plan(&executor_req);
    let executor_not_executed = match executor_result.status {
        LinkedSecondPassExecutorStatus::NotExecuted => true,
        LinkedSecondPassExecutorStatus::Blocked => false,
    };
    if !executor_not_executed {
        return blocked(SLPA_EXECUTOR_MESSAGE, concat2(CHK_LINKED_EXECUTOR, SLPA_EXECUTOR_TAIL));
    }

    // Record adapter probe.
    let record_req = SandboxRecordWriteAdapterRequest {
        mode: SandboxRecordWriteAdapterMode::SandboxOnlyInternal,
        explicit_internal_record_sandbox_call_requested: true,
        sandbox_verified: request.sandbox_verified,
        target_base_empty: request.target_base_empty,
        confirmation_gate_declared: request.confirmation_gate_declared,
        destructive_operation_policy_safe: request.destructive_operation_policy_safe,
        attachment_phase_disabled_safe: request.attachment_phase_disabled_safe,
        live_write_readiness_safe: request.live_write_readiness_safe,
        write_phase_ordering_safe: request.write_phase_ordering_safe,
        failure_modes_safe: request.failure_modes_safe,
        rollback_limitation_safe: request.rollback_limitation_safe,
        checkpoint_durability_safe: request.checkpoint_durability_safe,
        sensitive_data_safe: request.sensitive_data_safe,
        final_validation_enforcement_safe: request.final_validation_enforcement_safe,
        rate_limit_backoff_safe: request.rate_limit_backoff_safe,
        schema_executor_safe: request.schema_executor_safe,
        checkpoint_store_safe: request.checkpoint_store_safe,
    };
    assert(record_req == slpa_record_adapter_request(*request));
    assert(srwa_status(record_req, record_plan.status, schema_plan.status)
        == SandboxRecordWriteAdapterStatus::ReadyForSandboxCall
        ==> slpa_record_probe_ready(*request, record_plan.status, schema_plan.status));
    let record_result = build_sandbox_record_write_adapter(&record_req, record_plan, schema_plan);
    let record_ready = match record_result.status {
        SandboxRecordWriteAdapterStatus::ReadyForSandboxCall => true,
        _ => false,
    };
    if !record_ready {
        return blocked(SLPA_RECORD_ADAPTER_MESSAGE, concat2(CHK_RECORD_ADAPTER, SLPA_RECORD_ADAPTER_TAIL));
    }

    if !request.mapping_coverage_sufficient {
        return blocked(SLPA_COVERAGE_MESSAGE, concat2(CHK_MAPPING_COVERAGE, SLPA_COVERAGE_TAIL));
    }

    let operations = build_descriptors(&request.field_summaries);
    let total_operation_count = operations.len();
    let mut message = String::from_str(SLPA_READY_PREFIX);
    push_decimal(&mut message, total_operation_count);
    message.append(SLPA_READY_SUFFIX);

    SandboxLinkedSecondPassAdapterResult {
        status: SandboxLinkedSecondPassAdapterStatus::ReadyForSandboxCall,
        mode: SandboxLinkedSecondPassAdapterMode::SandboxOnlyInternal,
        message,
        operations,
        total_operation_count,
        blocked_reason: None,
        no_changes_made: true,
        network_writes_attempted: false,
        runtime_execution_enabled: false,
        app_runtime_writes_enabled: false,
        app_runtime_reads_enabled: false,
    }
}

} // verus!
