//! Sandbox record write adapter boundary. After the arming decision, the
//! simulator, the record executor and the schema adapter all reach their best
//! non-executing state, the record plan's first-pass create batches are turned
//! into adapter descriptors (`Planned`). No network call is made and nothing
//! is executed.

use vstd::prelude::*;
use vstd::string::*;
use crate::record_write_executor::{
    build_record_write_executor_plan, RecordWriteExecutorMode, RecordWriteExecutorRequest,
    RecordWriteExecutorStatus,
};
use crate::record_write_requests::{
    RecordWriteOperation, RecordWriteOperationKind, RecordWriteOperationStatus,
    RecordWriteRequestPlan,
};
use crate::sandbox_gate_arming::{
    arming_prerequisites_hold, build_sandbox_gate_arming_decision, SandboxGateArmingMode,
    SandboxGateArmingRequest, SandboxGateArmingStatus,
};
use crate::sandbox_restore_simulator::{
    run_sandbox_restore_simulator, SandboxRestoreSimulatorMode, SandboxRestoreSimulatorRequest,
    SandboxRestoreSimulatorStatus,
};
use crate::sandbox_schema_write_adapter::{
    build_sandbox_schema_write_adapter, SandboxSchemaWriteAdapterMode,
    SandboxSchemaWriteAdapterRequest, SandboxSchemaWriteAdapterStatus,
};
use crate::schema_write_requests::{SchemaWriteOperationStatus, SchemaWriteRequestPlan};
use crate::text::{concat2, concat3, decimal, decimal_pad3, push_decimal, push_decimal_pad3};
use crate::write_gate::{evaluate_write_gate, write_gate_is_disabled};

verus! {

#[derive(Debug, Clone, Copy, PartialEq, Eq, Structural)]
pub enum SandboxRecordWriteAdapterStatus {
    /// A required prerequisite is missing or unsafe.
    Blocked,
    /// The adapter descriptors are built; no call has been made.
    ReadyForSandboxCall,
    /// Disabled mode: no evaluation is performed. Default state.
    NotExecuted,
}

#[derive(Debug, Clone, Copy, PartialEq, Eq, Structural)]
pub enum SandboxRecordWriteAdapterMode {
    Disabled,
    SandboxOnlyInternal,
}

#[derive(Debug, Clone, Copy, PartialEq, Eq, Structural)]
pub enum SandboxRecordWriteAdapterOperationStatus {
    Planned,
    Blocked,
    NotExecuted,
}

#[derive(Debug, Clone)]
pub struct SandboxRecordWriteAdapterOperation {
    pub operation_id: String,
    pub operation_kind: String,
    pub table_name: String,
    pub planned_record_count: Option<usize>,
    pub batch_index: Option<usize>,
    pub status: SandboxRecordWriteAdapterOperationStatus,
    pub note: String,
}

#[derive(Debug, Clone)]
pub struct SandboxRecordWriteAdapterSafetySnapshot {
    pub write_gate_disabled: bool,
    pub gate_arming_armed_not_executable: bool,
    pub simulator_simulated_not_executed: bool,
    pub record_executor_not_executed: bool,
    pub schema_adapter_ready: bool,
    pub target_base_empty: bool,
    pub sandbox_verified: bool,
    pub explicit_record_sandbox_flag_set: bool,
    pub runtime_execution_enabled: bool,
    pub app_runtime_writes_enabled: bool,
    pub app_runtime_reads_enabled: bool,
    pub network_writes_attempted: bool,
}

#[derive(Debug, Clone)]
pub struct SandboxRecordWriteAdapterRequest {
    pub mode: SandboxRecordWriteAdapterMode,
    pub explicit_internal_record_sandbox_call_requested: bool,
    pub sandbox_verified: bool,
    pub target_base_empty: bool,
    pub confirmation_gate_declared: bool,
    pub destructive_operation_policy_safe: bool,
    pub attachment_phase_disabled_safe: bool,
    pub live_write_readiness_safe: bool,
    pub write_phase_ordering_safe: bool,
    pub failure_modes_safe: bool,
    pub rollback_limitation_safe: bool,
    pub checkpoint_durability_safe: bool,
    pub sensitive_data_safe: bool,
    pub final_validation_enforcement_safe: bool,
    pub rate_limit_backoff_safe: bool,
    pub schema_executor_safe: bool,
    pub checkpoint_store_safe: bool,
}

#[derive(Debug, Clone)]
pub struct SandboxRecordWriteAdapterResult {
    pub status: SandboxRecordWriteAdapterStatus,
    pub mode: SandboxRecordWriteAdapterMode,
    pub message: String,
    pub operations: Vec<SandboxRecordWriteAdapterOperation>,
    pub safety_snapshot: SandboxRecordWriteAdapterSafetySnapshot,
    pub total_operation_count: usize,
    pub total_planned_record_count: usize,
    pub blocked_reason: Option<String>,
    pub no_changes_made: bool,
    pub network_writes_attempted: bool,
    pub runtime_execution_enabled: bool,
    pub app_runtime_writes_enabled: bool,
    pub app_runtime_reads_enabled: bool,
}

pub const CHK_MODE: &'static str = "SRWA-CHK-01";
pub const CHK_EXPLICIT_FLAG: &'static str = "SRWA-CHK-02";
pub const CHK_WRITE_GATE: &'static str = "SRWA-CHK-03";
pub const CHK_ARMING: &'static str = "SRWA-CHK-04";
pub const CHK_SIMULATOR: &'static str = "SRWA-CHK-05";
pub const CHK_RECORD_EXECUTOR: &'static str = "SRWA-CHK-06";
pub const CHK_SCHEMA_ADAPTER: &'static str = "SRWA-CHK-07";
pub const CHK_TARGET_EMPTY: &'static str = "SRWA-CHK-08";
pub const CHK_SANDBOX_VERIFIED: &'static str = "SRWA-CHK-09";

pub const SRWA_MODE_TAIL: &'static str =
    ": Adapter mode is disabled. No evaluation is performed. This is the default state.";
pub const SRWA_NO_CHANGES_SUFFIX: &'static str =
    " No Airtable API calls were made. No changes were made. Runtime execution, writes, and reads remain disabled.";
pub const SRWA_BLOCKED_PREFIX: &'static str = "Sandbox record write adapter is blocked. ";
pub const SRWA_FLAG_MESSAGE: &'static str =
    "Explicit internal record sandbox call flag is not set. This flag must be explicitly true before adapter evaluation can proceed. No UI control, Tauri command, or runtime path sets this flag.";
pub const SRWA_FLAG_TAIL: &'static str =
    ": explicit_internal_record_sandbox_call_requested must be true.";
pub const SRWA_GATE_MESSAGE: &'static str =
    "evaluate_write_gate() did not return Disabled/DisabledByProductPolicy. This is a critical safety violation. Adapter evaluation cannot proceed.";
pub const SRWA_GATE_TAIL: &'static str =
    ": evaluate_write_gate() must return Disabled/DisabledByProductPolicy.";
pub const SRWA_ARMING_MESSAGE: &'static str =
    "Sandbox gate arming decision did not return ArmedNotExecutable. All arming prerequisites must be satisfied before the record adapter boundary can proceed.";
pub const SRWA_ARMING_TAIL: &'static str =
    ": sandbox gate arming decision must return ArmedNotExecutable.";
pub const SRWA_SIMULATOR_MESSAGE: &'static str =
    "Sandbox restore simulator did not return SimulatedNotExecuted. All simulation prerequisites must be satisfied before the record adapter boundary can proceed.";
pub const SRWA_SIMULATOR_TAIL: &'static str =
    ": sandbox restore simulator must return SimulatedNotExecuted.";
pub const SRWA_EXECUTOR_MESSAGE: &'static str =
    "Record write executor plan did not return NotExecuted. A ready (not-executed) executor plan is required before the record adapter boundary can proceed.";
pub const SRWA_EXECUTOR_TAIL: &'static str = ": record write executor plan must return NotExecuted.";
pub const SRWA_SCHEMA_ADAPTER_MESSAGE: &'static str =
    "Schema write adapter boundary did not return ReadyForSandboxCall. The schema adapter must be ready before record writes are considered.";
pub const SRWA_SCHEMA_ADAPTER_TAIL: &'static str =
    ": schema write adapter must return ReadyForSandboxCall.";
pub const SRWA_TARGET_MESSAGE: &'static str =
    "Target base empty verification has not passed. The target base must be confirmed empty before record write adapter can proceed.";
pub const SRWA_TARGET_TAIL: &'static str = ": target_base_empty must be true.";
pub const SRWA_SANDBOX_MESSAGE: &'static str =
    "Sandbox environment verification has not passed. A verified sandbox target is required before record write adapter can proceed.";
pub const SRWA_SANDBOX_TAIL: &'static str = ": sandbox_verified must be true.";

pub const SRWA_OP_PREFIX: &'static str = "SRWA-OP-";
pub const SRWA_KIND_CREATE_BATCH: &'static str = "createRecordBatchDescriptor";
pub const SRWA_NOTE_PREFIX: &'static str = "First-pass create batch for '";
pub const SRWA_NOTE_COUNT: &'static str = "' (";
pub const SRWA_NOTE_SUFFIX: &'static str =
    " record(s)) \u{2014} adapter boundary descriptor. No network call made.";
pub const SRWA_UNKNOWN: &'static str = "unknown";

pub const SRWA_READY_PREFIX: &'static str = "Sandbox record write adapter boundary is ready (";
pub const SRWA_READY_BATCHES: &'static str = " first-pass create batch descriptor(s), ";
pub const SRWA_READY_RECORDS: &'static str =
    " planned record(s)). No Airtable network call was made. No runtime execution is enabled. No app runtime writes or reads are enabled. No changes were made. This adapter boundary is for sandbox tests only and is not reachable from UI, TypeScript, or any Tauri command.";

// ── Adapter trait (no-op and mock) ───────────────────────────────────────────

/// A record write adapter reports how many operations it plans.
pub trait RecordWriteAdapter {
    fn planned_operation_count(&self) -> usize;
}

/// An adapter that plans nothing.
pub struct NoOpRecordWriteAdapter;

impl RecordWriteAdapter for NoOpRecordWriteAdapter {
    fn planned_operation_count(&self) -> (n: usize)
        ensures
            n == 0,
    {
        0
    }
}

/// An adapter that plans a configured number of operations.
pub struct MockRecordWriteAdapter {
    pub operation_count: usize,
}

impl RecordWriteAdapter for MockRecordWriteAdapter {
    fn planned_operation_count(&self) -> (n: usize)
        ensures
            n == self.operation_count,
    {
        self.operation_count
    }
}

// ── Specification ────────────────────────────────────────────────────────────

/// The arming request the adapter probes.
pub open spec fn srwa_arming_request(r: SandboxRecordWriteAdapterRequest) -> SandboxGateArmingRequest {
    SandboxGateArmingRequest {
        mode: SandboxGateArmingMode::SandboxOnlyInternal,
        explicit_internal_sandbox_arming_requested: true,
        sandbox_verification_safe: r.sandbox_verified,
        target_empty_safe: r.target_base_empty,
        confirmation_gate_declared: r.confirmation_gate_declared,
        destructive_operation_policy_safe: r.destructive_operation_policy_safe,
        attachment_phase_disabled_safe: r.attachment_phase_disabled_safe,
        live_write_readiness_safe: r.live_write_readiness_safe,
        write_phase_ordering_safe: r.write_phase_ordering_safe,
        failure_modes_safe: r.failure_modes_safe,
        rollback_limitation_safe: r.rollback_limitation_safe,
        checkpoint_durability_safe: r.checkpoint_durability_safe,
        sensitive_data_safe: r.sensitive_data_safe,
        final_validation_enforcement_safe: r.final_validation_enforcement_safe,
        rate_limit_backoff_safe: r.rate_limit_backoff_safe,
    }
}

/// Whether the caller-declared safety prerequisites of the arming probe hold.
pub open spec fn srwa_prerequisites_hold(r: SandboxRecordWriteAdapterRequest) -> bool {
    arming_prerequisites_hold(srwa_arming_request(r))
}

/// Whether the record executor probe reports `NotExecuted`, once the arming
/// prerequisites hold.
pub open spec fn srwa_executor_ready(
    r: SandboxRecordWriteAdapterRequest,
    record_plan_status: RecordWriteOperationStatus,
) -> bool {
    r.schema_executor_safe && r.rate_limit_backoff_safe && r.checkpoint_store_safe
        && record_plan_status != RecordWriteOperationStatus::Blocked
}

/// The status of the adapter for a request and the statuses of the plans.
pub open spec fn srwa_status(
    r: SandboxRecordWriteAdapterRequest,
    record_plan_status: RecordWriteOperationStatus,
    schema_plan_status: SchemaWriteOperationStatus,
) -> SandboxRecordWriteAdapterStatus {
    if r.mode == SandboxRecordWriteAdapterMode::Disabled {
        SandboxRecordWriteAdapterStatus::NotExecuted
    } else if !r.explicit_internal_record_sandbox_call_requested || !srwa_prerequisites_hold(r)
        || !srwa_executor_ready(r, record_plan_status)
        || schema_plan_status == SchemaWriteOperationStatus::Blocked {
        SandboxRecordWriteAdapterStatus::Blocked
    } else {
        SandboxRecordWriteAdapterStatus::ReadyForSandboxCall
    }
}

/// The reason of a blocked adapter: the first failing check.
pub open spec fn srwa_blocked_reason(
    r: SandboxRecordWriteAdapterRequest,
    record_plan_status: RecordWriteOperationStatus,
) -> Seq<char> {
    if !r.explicit_internal_record_sandbox_call_requested {
        CHK_EXPLICIT_FLAG@ + SRWA_FLAG_TAIL@
    } else if !srwa_prerequisites_hold(r) {
        CHK_ARMING@ + SRWA_ARMING_TAIL@
    } else if !srwa_executor_ready(r, record_plan_status) {
        CHK_RECORD_EXECUTOR@ + SRWA_EXECUTOR_TAIL@
    } else {
        CHK_SCHEMA_ADAPTER@ + SRWA_SCHEMA_ADAPTER_TAIL@
    }
}

/// The detail of a blocked adapter's message: the first failing check.
pub open spec fn srwa_blocked_detail(
    r: SandboxRecordWriteAdapterRequest,
    record_plan_status: RecordWriteOperationStatus,
) -> Seq<char> {
    if !r.explicit_internal_record_sandbox_call_requested {
        SRWA_FLAG_MESSAGE@
    } else if !srwa_prerequisites_hold(r) {
        SRWA_ARMING_MESSAGE@
    } else if !srwa_executor_ready(r, record_plan_status) {
        SRWA_EXECUTOR_MESSAGE@
    } else {
        SRWA_SCHEMA_ADAPTER_MESSAGE@
    }
}

/// The snapshot: write gate disabled, nothing enabled, no network write; the
/// probe flags given in field order.
pub open spec fn srwa_snapshot_is(
    s: SandboxRecordWriteAdapterSafetySnapshot,
    armed: bool,
    simulated: bool,
    executor: bool,
    schema_adapter: bool,
    target_empty: bool,
    sandbox: bool,
    explicit: bool,
) -> bool {
    &&& s.write_gate_disabled
    &&& s.gate_arming_armed_not_executable == armed
    &&& s.simulator_simulated_not_executed == simulated
    &&& s.record_executor_not_executed == executor
    &&& s.schema_adapter_ready == schema_adapter
    &&& s.target_base_empty == target_empty
    &&& s.sandbox_verified == sandbox
    &&& s.explicit_record_sandbox_flag_set == explicit
    &&& !s.runtime_execution_enabled
    &&& !s.app_runtime_writes_enabled
    &&& !s.app_runtime_reads_enabled
    &&& !s.network_writes_attempted
}

/// The snapshot of a blocked adapter; the explicit flag is reported as it
/// was requested.
pub open spec fn srwa_blocked_snapshot(
    s: SandboxRecordWriteAdapterSafetySnapshot,
    r: SandboxRecordWriteAdapterRequest,
    record_plan_status: RecordWriteOperationStatus,
) -> bool {
    if !r.explicit_internal_record_sandbox_call_requested {
        srwa_snapshot_is(s, false, false, false, false, false, false, false)
    } else if !srwa_prerequisites_hold(r) {
        srwa_snapshot_is(s, false, false, false, false, r.target_base_empty, r.sandbox_verified, true)
    } else if !srwa_executor_ready(r, record_plan_status) {
        srwa_snapshot_is(s, true, true, false, false, true, true, true)
    } else {
        srwa_snapshot_is(s, true, true, true, false, true, true, true)
    }
}

/// Whether a planned operation is a first-pass create batch.
pub open spec fn is_create_batch(op: RecordWriteOperation) -> bool {
    op.kind == RecordWriteOperationKind::CreateRecordBatch
}

/// The first-pass create batches of a plan, in plan order.
pub open spec fn create_batches(ops: Seq<RecordWriteOperation>) -> Seq<RecordWriteOperation>
    decreases ops.len(),
{
    if ops.len() == 0 {
        Seq::empty()
    } else if is_create_batch(ops.last()) {
        create_batches(ops.drop_last()).push(ops.last())
    } else {
        create_batches(ops.drop_last())
    }
}

/// The planned record count of an operation, zero when unknown.
pub open spec fn planned_or_zero(op: RecordWriteOperation) -> nat {
    match op.planned_record_count {
        Some(n) => n as nat,
        None => 0,
    }
}

/// The planned records of the create batches of a plan, summed.
pub open spec fn planned_record_total(ops: Seq<RecordWriteOperation>) -> nat
    decreases ops.len(),
{
    if ops.len() == 0 {
        0
    } else {
        planned_record_total(ops.drop_last())
            + if is_create_batch(ops.last()) { planned_or_zero(ops.last()) } else { 0 }
    }
}

/// The planned count as rendered in a descriptor note.
pub open spec fn count_text(n: Option<usize>) -> Seq<char> {
    match n {
        Some(k) => decimal(k as nat),
        None => SRWA_UNKNOWN@,
    }
}

/// The descriptor of the `idx`-th create batch `op`.
pub open spec fn record_descriptor_is(a: SandboxRecordWriteAdapterOperation, op: RecordWriteOperation, idx: nat) -> bool {
    &&& a.operation_id@ == SRWA_OP_PREFIX@ + decimal_pad3(idx)
    &&& a.operation_kind@ == SRWA_KIND_CREATE_BATCH@
    &&& a.table_name@ == op.table_name@
    &&& a.planned_record_count == op.planned_record_count
    &&& a.batch_index == op.batch_index
    &&& a.status == SandboxRecordWriteAdapterOperationStatus::Planned
    &&& a.note@ == SRWA_NOTE_PREFIX@ + op.table_name@ + SRWA_NOTE_COUNT@
        + count_text(op.planned_record_count) + SRWA_NOTE_SUFFIX@
}

/// The descriptors are those of the create batches, one each, in order.
pub open spec fn record_descriptors_are(out: Seq<SandboxRecordWriteAdapterOperation>, batches: Seq<RecordWriteOperation>) -> bool {
    &&& out.len() == batches.len()
    &&& forall|i: int| 0 <= i < out.len() ==> #[trigger] record_descriptor_is(out[i], batches[i], i as nat)
}

/// The message of a ready adapter.
pub open spec fn srwa_ready_message(batches: nat, records: nat) -> Seq<char> {
    SRWA_READY_PREFIX@ + decimal(batches) + SRWA_READY_BATCHES@ + decimal(records) + SRWA_READY_RECORDS@
}

/// The simulator request the record adapter probes.
pub open spec fn srwa_simulator_request(r: SandboxRecordWriteAdapterRequest) -> SandboxRestoreSimulatorRequest {
    SandboxRestoreSimulatorRequest {
        mode: SandboxRestoreSimulatorMode::SandboxOnlyInternalSimulation,
        explicit_internal_simulation_requested: true,
        sandbox_verification_safe: r.sandbox_verified,
        target_empty_safe: r.target_base_empty,
        confirmation_gate_declared: r.confirmation_gate_declared,
        destructive_operation_policy_safe: r.destructive_operation_policy_safe,
        attachment_phase_disabled_safe: r.attachment_phase_disabled_safe,
        live_write_readiness_safe: r.live_write_readiness_safe,
        write_phase_ordering_safe: r.write_phase_ordering_safe,
        failure_modes_safe: r.failure_modes_safe,
        rollback_limitation_safe: r.rollback_limitation_safe,
        checkpoint_durability_safe: r.checkpoint_durability_safe,
        sensitive_data_safe: r.sensitive_data_safe,
        final_validation_enforcement_safe: r.final_validation_enforcement_safe,
        rate_limit_backoff_safe: r.rate_limit_backoff_safe,
    }
}

/// The record executor request the record adapter probes.
pub open spec fn srwa_executor_request(r: SandboxRecordWriteAdapterRequest) -> RecordWriteExecutorRequest {
    RecordWriteExecutorRequest {
        mode: RecordWriteExecutorMode::SandboxOnly,
        explicit_internal_record_write_requested: true,
        sandbox_verified: r.sandbox_verified,
        target_empty_verified: r.target_base_empty,
        schema_executor_safe: r.schema_executor_safe,
        rate_limit_backoff_safe: r.rate_limit_backoff_safe,
        checkpoint_store_safe: r.checkpoint_store_safe,
        live_write_readiness_satisfied: r.live_write_readiness_safe,
    }
}

/// The schema adapter request the record adapter probes.
pub open spec fn srwa_schema_adapter_request(r: SandboxRecordWriteAdapterRequest) -> SandboxSchemaWriteAdapterRequest {
    SandboxSchemaWriteAdapterRequest {
        mode: SandboxSchemaWriteAdapterMode::SandboxOnlyInternal,
        explicit_internal_schema_sandbox_call_requested: true,
        sandbox_verified: r.sandbox_verified,
        target_base_empty: r.target_base_empty,
        confirmation_gate_declared: r.confirmation_gate_declared,
        destructive_operation_policy_safe: r.destructive_operation_policy_safe,
        attachment_phase_disabled_safe: r.attachment_phase_disabled_safe,
        live_write_readiness_safe: r.live_write_readiness_safe,
        write_phase_ordering_safe: r.write_phase_ordering_safe,
        failure_modes_safe: r.failure_modes_safe,
        rollback_limitation_safe: r.rollback_limitation_safe,
        checkpoint_durability_safe: r.checkpoint_durability_safe,
        sensitive_data_safe: r.sensitive_data_safe,
        final_validation_enforcement_safe: r.final_validation_enforcement_safe,
        rate_limit_backoff_safe: r.rate_limit_backoff_safe,
    }
}

// ── Helpers ──────────────────────────────────────────────────────────────────

fn record_descriptor(idx: usize, op: &RecordWriteOperation) -> (a: SandboxRecordWriteAdapterOperation)
    ensures
        record_descriptor_is(a, *op, idx as nat),
{
    let mut operation_id = String::from_str(SRWA_OP_PREFIX);
    push_decimal_pad3(&mut operation_id, idx);
    let mut note = concat3(SRWA_NOTE_PREFIX, op.table_name.as_str(), SRWA_NOTE_COUNT);
    match op.planned_record_count {
        Some(n) => push_decimal(&mut note, n),
        None => note.append(SRWA_UNKNOWN),
    }
    note.append(SRWA_NOTE_SUFFIX);
    SandboxRecordWriteAdapterOperation {
        operation_id,
        operation_kind: String::from_str(SRWA_KIND_CREATE_BATCH),
        table_name: op.table_name.clone(),
        planned_record_count: op.planned_record_count,
        batch_index: op.batch_index,
        status: SandboxRecordWriteAdapterOperationStatus::Planned,
        note,
    }
}

/// A `Blocked` result with the given probe flags, message detail and reason.
fn blocked(
    armed: bool,
    simulated: bool,
    executor: bool,
    schema_adapter: bool,
    target_base_empty: bool,
    sandbox_verified: bool,
    explicit: bool,
    detail: &str,
    blocked_reason: String,
) -> (r: SandboxRecordWriteAdapterResult)
    ensures
        r.status == SandboxRecordWriteAdapterStatus::Blocked,
        r.mode == SandboxRecordWriteAdapterMode::SandboxOnlyInternal,
        r.message@ == SRWA_BLOCKED_PREFIX@ + detail@ + SRWA_NO_CHANGES_SUFFIX@,
        r.blocked_reason matches Some(b) && b@ == blocked_reason@,
        r.operations@.len() == 0,
        r.total_operation_count == 0,
        r.total_planned_record_count == 0,
        srwa_snapshot_is(r.safety_snapshot, armed, simulated, executor, schema_adapter,
            target_base_empty, sandbox_verified, explicit),
        r.no_changes_made,
        !r.network_writes_attempted,
        !r.runtime_execution_enabled,
        !r.app_runtime_writes_enabled,
        !r.app_runtime_reads_enabled,
{
    let gate = evaluate_write_gate();
    let write_gate_disabled = write_gate_is_disabled(&gate);
    SandboxRecordWriteAdapterResult {
        status: SandboxRecordWriteAdapterStatus::Blocked,
        mode: SandboxRecordWriteAdapterMode::SandboxOnlyInternal,
        message: concat3(SRWA_BLOCKED_PREFIX, detail, SRWA_NO_CHANGES_SUFFIX),
        operations: Vec::new(),
        safety_snapshot: SandboxRecordWriteAdapterSafetySnapshot {
            write_gate_disabled,
            gate_arming_armed_not_executable: armed,
            simulator_simulated_not_executed: simulated,
            record_executor_not_executed: executor,
            schema_adapter_ready: schema_adapter,
            target_base_empty,
            sandbox_verified,
            explicit_record_sandbox_flag_set: explicit,
            runtime_execution_enabled: false,
            app_runtime_writes_enabled: false,
            app_runtime_reads_enabled: false,
            network_writes_attempted: false,
        },
        total_operation_count: 0,
        total_planned_record_count: 0,
        blocked_reason: Some(blocked_reason),
        no_changes_made: true,
        network_writes_attempted: false,
        runtime_execution_enabled: false,
        app_runtime_writes_enabled: false,
        app_runtime_reads_enabled: false,
    }
}

proof fn lemma_planned_total_prefix(ops: Seq<RecordWriteOperation>, i: int)
    requires
        0 <= i <= ops.len(),
    ensures
        planned_record_total(ops.take(i)) <= planned_record_total(ops),
    decreases ops.len() - i,
{
    if i < ops.len() {
        lemma_planned_total_prefix(ops, i + 1);
        assert(ops.take(i + 1).drop_last() =~= ops.take(i));
    } else {
        assert(ops.take(i) =~= ops);
    }
}

/// The descriptors of the plan's create batches, with their planned records
/// summed.
fn build_descriptors(plan_ops: &Vec<RecordWriteOperation>) -> (out: (Vec<SandboxRecordWriteAdapterOperation>, usize))
    requires
        planned_record_total(plan_ops@) <= usize::MAX,
    ensures
        record_descriptors_are(out.0@, create_batches(plan_ops@)),
        out.1 == planned_record_total(plan_ops@),
{
    let mut operations: Vec<SandboxRecordWriteAdapterOperation> = Vec::new();
    let mut total: usize = 0;
    let mut i: usize = 0;
    while i < plan_ops.len()
        invariant
            i <= plan_ops.len(),
            planned_record_total(plan_ops@) <= usize::MAX,
            record_descriptors_are(operations@, create_batches(plan_ops@.take(i as int))),
            total == planned_record_total(plan_ops@.take(i as int)),
            operations@.len() <= i,
        decreases plan_ops.len() - i,
    {
        let ghost prev = plan_ops@.take(i as int);
        let ghost next = plan_ops@.take(i as int + 1);
        assert(next.drop_last() =~= prev);
        assert(next.last() == plan_ops@[i as int]);
        proof {
            lemma_planned_total_prefix(plan_ops@, i as int + 1);
        }
        let op = &plan_ops[i];
        if let RecordWriteOperationKind::CreateRecordBatch = op.kind {
            let planned: usize = match op.planned_record_count {
                Some(n) => n,
                None => 0,
            };
            total = total + planned;
            let a = record_descriptor(operations.len(), op);
            operations.push(a);
        }
        i = i + 1;
    }
    assert(plan_ops@.take(plan_ops.len() as int) =~= plan_ops@);
    (operations, total)
}

// ── Core function ────────────────────────────────────────────────────────────

/// Builds the sandbox record write adapter boundary for a record plan and the
/// schema plan it follows.
///
/// Disabled mode returns `NotExecuted` without evaluation. Otherwise the checks
/// run in order: the explicit flag, the write gate, the arming decision, the
/// simulator, the record executor and the schema adapter as probes, then the
/// target-empty and sandbox-verified declarations; the first that fails blocks
/// the adapter with its `SRWA-CHK-..` reason. When all pass, each first-pass
/// create batch of the record plan becomes a `Planned` descriptor
/// `SRWA-OP-nnn`, and the planned records of those batches are summed. No
/// network call is made in any case.
pub fn build_sandbox_record_write_adapter(
    request: &SandboxRecordWriteAdapterRequest,
    record_plan: &RecordWriteRequestPlan,
    schema_plan: &SchemaWriteRequestPlan,
) -> (result: SandboxRecordWriteAdapterResult)
    requires
        srwa_status(*request, record_plan.status, schema_plan.status)
            == SandboxRecordWriteAdapterStatus::ReadyForSandboxCall
            ==> planned_record_total(record_plan.operations@) <= usize::MAX,
    ensures
        result.status == srwa_status(*request, record_plan.status, schema_plan.status),
        result.no_changes_made,
        !result.network_writes_attempted,
        !result.runtime_execution_enabled,
        !result.app_runtime_writes_enabled,
        !result.app_runtime_reads_enabled,
        result.total_operation_count == result.operations@.len(),
        request.mode == SandboxRecordWriteAdapterMode::SandboxOnlyInternal ==> result.mode == request.mode,
        result.status != SandboxRecordWriteAdapterStatus::ReadyForSandboxCall ==> {
            &&& result.operations@.len() == 0
            &&& result.total_planned_record_count == 0
        },
        result.status == SandboxRecordWriteAdapterStatus::NotExecuted ==> {
            &&& result.mode == SandboxRecordWriteAdapterMode::Disabled
            &&& result.message@ == CHK_MODE@ + SRWA_MODE_TAIL@ + SRWA_NO_CHANGES_SUFFIX@
            &&& result.blocked_reason is None
            &&& srwa_snapshot_is(result.safety_snapshot, false, false, false, false, false, false, false)
        },
        result.status == SandboxRecordWriteAdapterStatus::Blocked ==> {
            &&& result.message@ == SRWA_BLOCKED_PREFIX@ + srwa_blocked_detail(*request, record_plan.status)
                + SRWA_NO_CHANGES_SUFFIX@
            &&& result.blocked_reason matches Some(b)
                && b@ == srwa_blocked_reason(*request, record_plan.status)
            &&& srwa_blocked_snapshot(result.safety_snapshot, *request, record_plan.status)
        },
        result.status == SandboxRecordWriteAdapterStatus::ReadyForSandboxCall ==> {
            &&& record_descriptors_are(result.operations@, create_batches(record_plan.operations@))
            &&& result.total_planned_record_count == planned_record_total(record_plan.operations@)
            &&& result.message@ == srwa_ready_message(result.total_operation_count as nat,
                result.total_planned_record_count as nat)
            &&& result.blocked_reason is None
            &&& srwa_snapshot_is(result.safety_snapshot, true, true, true, true, true, true, true)
        },
{
    if let SandboxRecordWriteAdapterMode::Disabled = request.mode {
        return SandboxRecordWriteAdapterResult {
            status: SandboxRecordWriteAdapterStatus::NotExecuted,
            mode: SandboxRecordWriteAdapterMode::Disabled,
            message: concat3(CHK_MODE, SRWA_MODE_TAIL, SRWA_NO_CHANGES_SUFFIX),
            operations: Vec::new(),
            safety_snapshot: SandboxRecordWriteAdapterSafetySnapshot {
                write_gate_disabled: true,
                gate_arming_armed_not_executable: false,
                simulator_simulated_not_executed: false,
                record_executor_not_executed: false,
                schema_adapter_ready: false,
                target_base_empty: false,
                sandbox_verified: false,
                explicit_record_sandbox_flag_set: false,
                runtime_execution_enabled: false,
                app_runtime_writes_enabled: false,
                app_runtime_reads_enabled: false,
                network_writes_attempted: false,
            },
            total_operation_count: 0,
            total_planned_record_count: 0,
            blocked_reason: None,
            no_changes_made: true,
            network_writes_attempted: false,
            runtime_execution_enabled: false,
            app_runtime_writes_enabled: false,
            app_runtime_reads_enabled: false,
        };
    }

    if !request.explicit_internal_record_sandbox_call_requested {
        return blocked(false, false, false, false, false, false, false, SRWA_FLAG_MESSAGE,
            concat2(CHK_EXPLICIT_FLAG, SRWA_FLAG_TAIL));
    }

    let gate = evaluate_write_gate();
    if !write_gate_is_disabled(&gate) {
        return blocked(false, false, false, false, request.target_base_empty,
            request.sandbox_verified, true, SRWA_GATE_MESSAGE, concat2(CHK_WRITE_GATE, SRWA_GATE_TAIL));
    }

    // Arming probe.
    let arming_req = SandboxGateArmingRequest {
        mode: SandboxGateArmingMode::SandboxOnlyInternal,
        explicit_internal_sandbox_arming_requested: true,
        sandbox_verification_safe: request.sandbox_verified,
        target_empty_safe: request.target_base_empty,
        confirmation_gate_declared: request.confirmation_gate_declared,
        destructive_operation_policy_safe: request.destructive_operation_policy_safe,
        attachment_phase_disabled_safe: request.attachment_phase_disabled_safe,
        live_write_readiness_safe: request.live_write_readiness_safe,
        write_phase_ordering_safe: request.write_phase_ordering_safe,
        failure_modes_safe: request.failure_modes_safe,
        rollback_limitation_safe: request.rollback_limitation_safe,
        checkpoint_durability_safe: request.checkpoint_durability_safe,
        sensitive_data_safe: request.sensitive_data_safe,
        final_validation_enforcement_safe: request.final_validation_enforcement_safe,
        rate_limit_backoff_safe: request.rate_limit_backoff_safe,
    };
    assert(arming_req == srwa_arming_request(*request));
    let arming_result = build_sandbox_gate_arming_decision(&arming_req);
    let armed = match arming_result.status {
        SandboxGateArmingStatus::ArmedNotExecutable => true,
        SandboxGateArmingStatus::Blocked => false,
    };
    if !armed {
        return blocked(false, false, false, false, request.target_base_empty,
            request.sandbox_verified, true, SRWA_ARMING_MESSAGE, concat2(CHK_ARMING, SRWA_ARMING_TAIL));
    }

    // Simulator probe.
    let sim_req = SandboxRestoreSimulatorRequest {
        mode: SandboxRestoreSimulatorMode::SandboxOnlyInternalSimulation,
        explicit_internal_simulation_requested: true,
        sandbox_verification_safe: request.sandbox_verified,
        target_empty_safe: request.target_base_empty,
        confirmation_gate_declared: request.confirmation_gate_declared,
        destructive_operation_policy_safe: request.destructive_operation_policy_safe,
        attachment_phase_disabled_safe: request.attachment_phase_disabled_safe,
        live_write_readiness_safe: request.live_write_readiness_safe,
        write_phase_ordering_safe: request.write_phase_ordering_safe,
        failure_modes_safe: request.failure_modes_safe,
        rollback_limitation_safe: request.rollback_limitation_safe,
        checkpoint_durability_safe: request.checkpoint_durability_safe,
        sensitive_data_safe: request.sensitive_data_safe,
        final_validation_enforcement_safe: request.final_validation_enforcement_safe,
        rate_limit_backoff_safe: request.rate_limit_backoff_safe,
    };
    assert(sim_req == srwa_simulator_request(*request));
    let sim_result = run_sandbox_restore_simulator(&sim_req);
    let simulated = match sim_result.status {
        SandboxRestoreSimulatorStatus::SimulatedNotExecuted => true,
        SandboxRestoreSimulatorStatus::Blocked => false,
    };
    if !simulated {
        return blocked(true, false, false, false, request.target_base_empty,
            request.sandbox_verified, true, SRWA_SIMULATOR_MESSAGE,
            concat2(CHK_SIMULATOR, SRWA_SIMULATOR_TAIL));
    }

    // Record executor probe.
    let executor_req = RecordWriteExecutorRequest {
        mode: RecordWriteExecutorMode::SandboxOnly,
        explicit_internal_record_write_requested: true,
        sandbox_verified: request.sandbox_verified,
        target_empty_verified: request.target_base_empty,
        schema_executor_safe: request.schema_executor_safe,
        rate_limit_backoff_safe: request.rate_limit_backoff_safe,
        checkpoint_store_safe: request.checkpoint_store_safe,
        live_write_readiness_satisfied: request.live_write_readiness_safe,
    };
    assert(executor_req == srwa_executor_request(*request));
    let executor_result = build_record_write_executor_plan(&executor_req, record_plan);
    let executor_not_executed = match executor_result.status {
        RecordWriteExecutorStatus::NotExecuted => true,
        RecordWriteExecutorStatus::Blocked => false,
    };
    if !executor_not_executed {
        return blocked(true, true, false, false, request.target_base_empty,
            request.sandbox_verified, true, SRWA_EXECUTOR_MESSAGE,
            concat2(CHK_RECORD_EXECUTOR, SRWA_EXECUTOR_TAIL));
    }

    // Schema adapter probe.
    let schema_adapter_req = SandboxSchemaWriteAdapterRequest {
        mode: SandboxSchemaWriteAdapterMode::SandboxOnlyInternal,
        explicit_internal_schema_sandbox_call_requested: true,
        sandbox_verified: request.sandbox_verified,
        target_base_empty: request.target_base_empty,
        confirmation_gate_declared: request.confirmation_gate_declared,
        destructive_operation_policy_safe: request.destructive_operation_policy_safe,
        attachment_phase_disabled_safe: request.attachment_phase_disabled_safe,
        live_write_readiness_safe: request.live_write_readiness_safe,
        write_phase_ordering_safe: request.write_phase_ordering_safe,
        failure_modes_safe: request.failure_modes_safe,
        rollback_limitation_safe: request.rollback_limitation_safe,
        checkpoint_durability_safe: request.checkpoint_durability_safe,
        sensitive_data_safe: request.sensitive_data_safe,
        final_validation_enforcement_safe: request.final_validation_enforcement_safe,
        rate_limit_backoff_safe: request.rate_limit_backoff_safe,
    };
    assert(schema_adapter_req == srwa_schema_adapter_request(*request));
    let schema_adapter_result = build_sandbox_schema_write_adapter(&schema_adapter_req, schema_plan);
    let schema_adapter_ready = match schema_adapter_result.status {
        SandboxSchemaWriteAdapterStatus::ReadyForSandboxCall => true,
        _ => false,
    };
    if !schema_adapter_ready {
        return blocked(true, true, true, false, request.target_base_empty,
            request.sandbox_verified, true, SRWA_SCHEMA_ADAPTER_MESSAGE,
            concat2(CHK_SCHEMA_ADAPTER, SRWA_SCHEMA_ADAPTER_TAIL));
    }

    if !request.target_base_empty {
        return blocked(true, true, true, true, false, request.sandbox_verified, true,
            SRWA_TARGET_MESSAGE, concat2(CHK_TARGET_EMPTY, SRWA_TARGET_TAIL));
    }
    if !request.sandbox_verified {
        return blocked(true, true, true, true, true, false, true,
            SRWA_SANDBOX_MESSAGE, concat2(CHK_SANDBOX_VERIFIED, SRWA_SANDBOX_TAIL));
    }

    // Descriptors of the first-pass create batches.
    let (operations, total_planned_record_count) = build_descriptors(&record_plan.operations);
    let total_operation_count = operations.len();
    let mut message = String::from_str(SRWA_READY_PREFIX);
    push_decimal(&mut message, total_operation_count);
    message.append(SRWA_READY_BATCHES);
    push_decimal(&mut message, total_planned_record_count);
    message.append(SRWA_READY_RECORDS);

    SandboxRecordWriteAdapterResult {
        status: SandboxRecordWriteAdapterStatus::ReadyForSandboxCall,
        mode: SandboxRecordWriteAdapterMode::SandboxOnlyInternal,
        message,
        operations,
        safety_snapshot: SandboxRecordWriteAdapterSafetySnapshot {
            write_gate_disabled: true,
            gate_arming_armed_not_executable: true,
            simulator_simulated_not_executed: true,
            record_executor_not_executed: true,
            schema_adapter_ready: true,
            target_base_empty: true,
            sandbox_verified: true,
            explicit_record_sandbox_flag_set: true,
            runtime_execution_enabled: false,
            app_runtime_writes_enabled: false,
            app_runtime_reads_enabled: false,
            network_writes_attempted: false,
        },
        total_operation_count,
        total_planned_record_count,
        blocked_reason: None,
        no_changes_made: true,
        network_writes_attempted: false,
        runtime_execution_enabled: false,
        app_runtime_writes_enabled: false,
        app_runtime_reads_enabled: false,
    }
}

} // verus!
