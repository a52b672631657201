//! Sandbox schema write adapter boundary. After the arming decision, the
//! simulator and the schema executor all reach their best non-executing state,
//! the schema plan's table and field creations are turned into adapter
//! descriptors (`Planned`). No network call is made and nothing is executed.

use vstd::prelude::*;
use vstd::string::*;
use crate::sandbox_gate_arming::{
    arming_prerequisites_hold, build_sandbox_gate_arming_decision, SandboxGateArmingMode,
    SandboxGateArmingRequest, SandboxGateArmingStatus,
};
use crate::sandbox_restore_simulator::{
    run_sandbox_restore_simulator, SandboxRestoreSimulatorMode, SandboxRestoreSimulatorRequest,
    SandboxRestoreSimulatorStatus,
};
use crate::schema_write_executor::{
    build_schema_write_executor_plan, SchemaWriteExecutorMode, SchemaWriteExecutorRequest,
    SchemaWriteExecutorStatus,
};
use crate::schema_write_requests::{
    SchemaWriteOperation, SchemaWriteOperationKind, SchemaWriteOperationStatus,
    SchemaWriteRequestPlan,
};
use crate::text::{
    concat2, concat3, copy_opt, decimal, decimal_pad3, opt_view, owned_or, push_decimal, push_decimal_pad3,
    text_or,
};
use crate::write_gate::{evaluate_write_gate, write_gate_is_disabled};

verus! {

#[derive(Debug, Clone, Copy, PartialEq, Eq, Structural)]
pub enum SandboxSchemaWriteAdapterStatus {
    /// A required prerequisite is missing or unsafe.
    Blocked,
    /// The adapter descriptors are built; no call has been made.
    ReadyForSandboxCall,
    /// Disabled mode: no evaluation is performed. Default state.
    NotExecuted,
}

#[derive(Debug, Clone, Copy, PartialEq, Eq, Structural)]
pub enum SandboxSchemaWriteAdapterMode {
    Disabled,
    SandboxOnlyInternal,
}

#[derive(Debug, Clone, Copy, PartialEq, Eq, Structural)]
pub enum SandboxSchemaWriteAdapterOperationStatus {
    Planned,
    Blocked,
    NotExecuted,
}

#[derive(Debug, Clone)]
pub struct SandboxSchemaWriteAdapterOperation {
    pub operation_id: String,
    pub operation_kind: String,
    pub table_name: String,
    pub field_name: Option<String>,
    pub field_type: Option<String>,
    pub status: SandboxSchemaWriteAdapterOperationStatus,
    pub note: String,
}

#[derive(Debug, Clone)]
pub struct SandboxSchemaWriteAdapterSafetySnapshot {
    pub write_gate_disabled: bool,
    pub gate_arming_armed_not_executable: bool,
    pub simulator_simulated_not_executed: bool,
    pub executor_not_executed: bool,
    pub target_base_empty: bool,
    pub sandbox_verified: bool,
    pub explicit_schema_sandbox_flag_set: bool,
    pub runtime_execution_enabled: bool,
    pub app_runtime_writes_enabled: bool,
    pub app_runtime_reads_enabled: bool,
    pub network_writes_attempted: bool,
}

#[derive(Debug, Clone)]
pub struct SandboxSchemaWriteAdapterRequest {
    pub mode: SandboxSchemaWriteAdapterMode,
    pub explicit_internal_schema_sandbox_call_requested: bool,
    pub sandbox_verified: bool,
    pub target_base_empty: bool,
    pub confirmation_gate_declared: bool,
    pub destructive_operation_policy_safe: bool,
    pub attachment_phase_disabled_safe: bool,
    pub live_write_readiness_safe: bool,
    pub write_phase_ordering_safe: bool,
    pub failure_modes_safe: bool,
    pub rollback_limitation_safe: bool,
    pub checkpoint_durability_safe: bool,
    pub sensitive_data_safe: bool,
    pub final_validation_enforcement_safe: bool,
    pub rate_limit_backoff_safe: bool,
}

#[derive(Debug, Clone)]
pub struct SandboxSchemaWriteAdapterResult {
    pub status: SandboxSchemaWriteAdapterStatus,
    pub mode: SandboxSchemaWriteAdapterMode,
    pub message: String,
    pub operations: Vec<SandboxSchemaWriteAdapterOperation>,
    pub safety_snapshot: SandboxSchemaWriteAdapterSafetySnapshot,
    pub total_operation_count: usize,
    pub table_operation_count: usize,
    pub field_operation_count: usize,
    pub blocked_reason: Option<String>,
    pub no_changes_made: bool,
    pub network_writes_attempted: bool,
    pub runtime_execution_enabled: bool,
    pub app_runtime_writes_enabled: bool,
    pub app_runtime_reads_enabled: bool,
}

pub const CHK_MODE: &'static str = "SSWA-CHK-01";
pub const CHK_EXPLICIT_FLAG: &'static str = "SSWA-CHK-02";
pub const CHK_WRITE_GATE: &'static str = "SSWA-CHK-03";
pub const CHK_ARMING: &'static str = "SSWA-CHK-04";
pub const CHK_SIMULATOR: &'static str = "SSWA-CHK-05";
pub const CHK_EXECUTOR: &'static str = "SSWA-CHK-06";
pub const CHK_TARGET_EMPTY: &'static str = "SSWA-CHK-07";
pub const CHK_SANDBOX_VERIFIED: &'static str = "SSWA-CHK-08";

pub const SSWA_MODE_TAIL: &'static str =
    ": Adapter mode is disabled. No evaluation is performed. This is the default state.";
pub const SSWA_NO_CHANGES_SUFFIX: &'static str =
    " No Airtable API calls were made. No changes were made. Runtime execution, writes, and reads remain disabled.";
pub const SSWA_BLOCKED_PREFIX: &'static str = "Sandbox schema write adapter is blocked. ";
pub const SSWA_FLAG_MESSAGE: &'static str =
    "Explicit internal schema sandbox call flag is not set. This flag must be explicitly true before adapter evaluation can proceed. No UI control, Tauri command, or runtime path sets this flag.";
pub const SSWA_FLAG_TAIL: &'static str =
    ": explicit_internal_schema_sandbox_call_requested must be true.";
pub const SSWA_GATE_MESSAGE: &'static str =
    "evaluate_write_gate() did not return Disabled/DisabledByProductPolicy. This is a critical safety violation. Adapter evaluation cannot proceed.";
pub const SSWA_GATE_TAIL: &'static str =
    ": evaluate_write_gate() must return Disabled/DisabledByProductPolicy.";
pub const SSWA_ARMING_MESSAGE: &'static str =
    "Sandbox gate arming decision did not return ArmedNotExecutable. All arming prerequisites must be satisfied before the adapter boundary can proceed.";
pub const SSWA_ARMING_TAIL: &'static str =
    ": sandbox gate arming decision must return ArmedNotExecutable.";
pub const SSWA_SIMULATOR_MESSAGE: &'static str =
    "Sandbox restore simulator did not return SimulatedNotExecuted. All simulation prerequisites must be satisfied before the adapter boundary can proceed.";
pub const SSWA_SIMULATOR_TAIL: &'static str =
    ": sandbox restore simulator must return SimulatedNotExecuted.";
pub const SSWA_EXECUTOR_MESSAGE: &'static str =
    "Schema write executor plan did not return NotExecuted. A ready (not-executed) executor plan is required before the adapter boundary can proceed.";
pub const SSWA_EXECUTOR_TAIL: &'static str = ": schema write executor plan must return NotExecuted.";
pub const SSWA_TARGET_MESSAGE: &'static str =
    "Target base empty verification has not passed. The target base must be confirmed empty before schema write adapter can proceed.";
pub const SSWA_TARGET_TAIL: &'static str = ": target_base_empty must be true.";
pub const SSWA_SANDBOX_MESSAGE: &'static str =
    "Sandbox environment verification has not passed. A verified sandbox target is required before schema write adapter can proceed.";
pub const SSWA_SANDBOX_TAIL: &'static str = ": sandbox_verified must be true.";

pub const SSWA_OP_PREFIX: &'static str = "SSWA-OP-";
pub const SSWA_KIND_TABLE: &'static str = "createTableDescriptor";
pub const SSWA_KIND_FIELD: &'static str = "createFieldDescriptor";
pub const SSWA_TABLE_NOTE_PREFIX: &'static str = "Create table '";
pub const SSWA_FIELD_NOTE_PREFIX: &'static str = "Create field '";
pub const SSWA_FIELD_NOTE_TYPE: &'static str = "' (";
pub const SSWA_FIELD_NOTE_IN: &'static str = ") in '";
pub const SSWA_NOTE_SUFFIX: &'static str =
    "' \u{2014} adapter boundary descriptor. No network call made.";
pub const SSWA_UNKNOWN: &'static str = "?";

pub const SSWA_READY_PREFIX: &'static str = "Sandbox schema write adapter boundary is ready (";
pub const SSWA_READY_OPERATIONS: &'static str = " operation(s): ";
pub const SSWA_READY_TABLES: &'static str = " table descriptor(s), ";
pub const SSWA_READY_FIELDS: &'static str =
    " field descriptor(s)). No Airtable network call was made. No runtime execution is enabled. No app runtime writes or reads are enabled. No changes were made. This adapter boundary is for sandbox tests only and is not reachable from UI, TypeScript, or any Tauri command.";

// ── Adapter trait (no-op and mock) ───────────────────────────────────────────

/// A schema write adapter reports how many operations it plans.
pub trait SchemaWriteAdapter {
    fn planned_operation_count(&self) -> usize;
}

/// An adapter that plans nothing.
pub struct NoOpSchemaWriteAdapter;

impl SchemaWriteAdapter for NoOpSchemaWriteAdapter {
    fn planned_operation_count(&self) -> (n: usize)
        ensures
            n == 0,
    {
        0
    }
}

/// An adapter that plans a configured number of operations.
pub struct MockSchemaWriteAdapter {
    pub operation_count: usize,
}

impl SchemaWriteAdapter for MockSchemaWriteAdapter {
    fn planned_operation_count(&self) -> (n: usize)
        ensures
            n == self.operation_count,
    {
        self.operation_count
    }
}

// ── Specification ────────────────────────────────────────────────────────────

/// The arming request the adapter probes.
pub open spec fn sswa_arming_request(r: SandboxSchemaWriteAdapterRequest) -> SandboxGateArmingRequest {
    SandboxGateArmingRequest {
        mode: SandboxGateArmingMode::SandboxOnlyInternal,
        explicit_internal_sandbox_arming_requested: true,
        sandbox_verification_safe: r.sandbox_verified,
        target_empty_safe: r.target_base_empty,
        confirmation_gate_declared: r.confirmation_gate_declared,
        destructive_operation_policy_safe: r.destructive_operation_policy_safe,
        attachment_phase_disabled_safe: r.attachment_phase_disabled_safe,
        live_write_readiness_safe: r.live_write_readiness_safe,
        write_phase_ordering_safe: r.write_phase_ordering_safe,
        failure_modes_safe: r.failure_modes_safe,
        rollback_limitation_safe: r.rollback_limitation_safe,
        checkpoint_durability_safe: r.checkpoint_durability_safe,
        sensitive_data_safe: r.sensitive_data_safe,
        final_validation_enforcement_safe: r.final_validation_enforcement_safe,
        rate_limit_backoff_safe: r.rate_limit_backoff_safe,
    }
}

/// Whether the caller-declared safety prerequisites hold.
pub open spec fn sswa_prerequisites_hold(r: SandboxSchemaWriteAdapterRequest) -> bool {
    arming_prerequisites_hold(sswa_arming_request(r))
}

/// The status of the adapter for a request and the status of the schema plan.
pub open spec fn sswa_status(
    r: SandboxSchemaWriteAdapterRequest,
    plan_status: SchemaWriteOperationStatus,
) -> SandboxSchemaWriteAdapterStatus {
    if r.mode == SandboxSchemaWriteAdapterMode::Disabled {
        SandboxSchemaWriteAdapterStatus::NotExecuted
    } else if !r.explicit_internal_schema_sandbox_call_requested || !sswa_prerequisites_hold(r)
        || plan_status == SchemaWriteOperationStatus::Blocked {
        SandboxSchemaWriteAdapterStatus::Blocked
    } else {
        SandboxSchemaWriteAdapterStatus::ReadyForSandboxCall
    }
}

/// The reason of a blocked adapter: the first failing check.
pub open spec fn sswa_blocked_reason(r: SandboxSchemaWriteAdapterRequest) -> Seq<char> {
    if !r.explicit_internal_schema_sandbox_call_requested {
        CHK_EXPLICIT_FLAG@ + SSWA_FLAG_TAIL@
    } else if !sswa_prerequisites_hold(r) {
        CHK_ARMING@ + SSWA_ARMING_TAIL@
    } else {
        CHK_EXECUTOR@ + SSWA_EXECUTOR_TAIL@
    }
}

/// The detail of a blocked adapter's message: the first failing check.
pub open spec fn sswa_blocked_detail(r: SandboxSchemaWriteAdapterRequest) -> Seq<char> {
    if !r.explicit_internal_schema_sandbox_call_requested {
        SSWA_FLAG_MESSAGE@
    } else if !sswa_prerequisites_hold(r) {
        SSWA_ARMING_MESSAGE@
    } else {
        SSWA_EXECUTOR_MESSAGE@
    }
}

/// The snapshot: write gate disabled, nothing enabled, no network write; the
/// probe flags given in field order.
pub open spec fn sswa_snapshot_is(
    s: SandboxSchemaWriteAdapterSafetySnapshot,
    armed: bool,
    simulated: bool,
    executor: bool,
    target_empty: bool,
    sandbox: bool,
    explicit: bool,
) -> bool {
    &&& s.write_gate_disabled
    &&& s.gate_arming_armed_not_executable == armed
    &&& s.simulator_simulated_not_executed == simulated
    &&& s.executor_not_executed == executor
    &&& s.target_base_empty == target_empty
    &&& s.sandbox_verified == sandbox
    &&& s.explicit_schema_sandbox_flag_set == explicit
    &&& !s.runtime_execution_enabled
    &&& !s.app_runtime_writes_enabled
    &&& !s.app_runtime_reads_enabled
    &&& !s.network_writes_attempted
}

/// The snapshot of a blocked adapter for a request; the explicit flag is
/// reported as it was requested.
pub open spec fn sswa_blocked_snapshot(
    s: SandboxSchemaWriteAdapterSafetySnapshot,
    r: SandboxSchemaWriteAdapterRequest,
) -> bool {
    if !r.explicit_internal_schema_sandbox_call_requested {
        sswa_snapshot_is(s, false, false, false, false, false, false)
    } else if !sswa_prerequisites_hold(r) {
        sswa_snapshot_is(s, false, false, false, r.target_base_empty, r.sandbox_verified, true)
    } else {
        sswa_snapshot_is(s, true, true, false, true, true, true)
    }
}

/// Whether a planned operation is a table or field creation.
pub open spec fn is_schema_create(op: SchemaWriteOperation) -> bool {
    op.kind == SchemaWriteOperationKind::CreateTable
        || op.kind == SchemaWriteOperationKind::CreateField
}

/// The table and field creations of a plan, in plan order.
pub open spec fn schema_creates(ops: Seq<SchemaWriteOperation>) -> Seq<SchemaWriteOperation>
    decreases ops.len(),
{
    if ops.len() == 0 {
        Seq::empty()
    } else if is_schema_create(ops.last()) {
        schema_creates(ops.drop_last()).push(ops.last())
    } else {
        schema_creates(ops.drop_last())
    }
}

/// Number of planned operations of a kind.
pub open spec fn schema_kind_count(ops: Seq<SchemaWriteOperation>, kind: SchemaWriteOperationKind) -> nat
    decreases ops.len(),
{
    if ops.len() == 0 {
        0
    } else {
        schema_kind_count(ops.drop_last(), kind) + if ops.last().kind == kind { 1nat } else { 0nat }
    }
}

/// The descriptor of the `idx`-th table or field creation `op`.
pub open spec fn adapter_op_is(a: SandboxSchemaWriteAdapterOperation, op: SchemaWriteOperation, idx: nat) -> bool {
    &&& a.operation_id@ == SSWA_OP_PREFIX@ + decimal_pad3(idx)
    &&& a.table_name@ == op.table_name@
    &&& a.status == SandboxSchemaWriteAdapterOperationStatus::Planned
    &&& if op.kind == SchemaWriteOperationKind::CreateTable {
        &&& a.operation_kind@ == SSWA_KIND_TABLE@
        &&& a.field_name is None
        &&& a.field_type is None
        &&& a.note@ == SSWA_TABLE_NOTE_PREFIX@ + op.table_name@ + SSWA_NOTE_SUFFIX@
    } else {
        &&& a.operation_kind@ == SSWA_KIND_FIELD@
        &&& opt_view(a.field_name) == opt_view(op.field_name)
        &&& opt_view(a.field_type) == opt_view(op.field_type)
        &&& a.note@ == SSWA_FIELD_NOTE_PREFIX@ + text_or(op.field_name, SSWA_UNKNOWN@)
            + SSWA_FIELD_NOTE_TYPE@ + text_or(op.field_type, SSWA_UNKNOWN@)
            + SSWA_FIELD_NOTE_IN@ + op.table_name@ + SSWA_NOTE_SUFFIX@
    }
}

/// The descriptors are those of the creations, one each, in order.
pub open spec fn adapter_ops_are(out: Seq<SandboxSchemaWriteAdapterOperation>, creates: Seq<SchemaWriteOperation>) -> bool {
    &&& out.len() == creates.len()
    &&& forall|i: int| 0 <= i < out.len() ==> #[trigger] adapter_op_is(out[i], creates[i], i as nat)
}

/// The message of a ready adapter.
pub open spec fn sswa_ready_message(total: nat, tables: nat, fields: nat) -> Seq<char> {
    SSWA_READY_PREFIX@ + decimal(total) + SSWA_READY_OPERATIONS@ + decimal(tables)
        + SSWA_READY_TABLES@ + decimal(fields) + SSWA_READY_FIELDS@
}

/// The simulator request the schema adapter probes.
pub open spec fn sswa_simulator_request(r: SandboxSchemaWriteAdapterRequest) -> SandboxRestoreSimulatorRequest {
    SandboxRestoreSimulatorRequest {
        mode: SandboxRestoreSimulatorMode::SandboxOnlyInternalSimulation,
        explicit_internal_simulation_requested: true,
        sandbox_verification_safe: r.sandbox_verified,
        target_empty_safe: r.target_base_empty,
        confirmation_gate_declared: r.confirmation_gate_declared,
        destructive_operation_policy_safe: r.destructive_operation_policy_safe,
        attachment_phase_disabled_safe: r.attachment_phase_disabled_safe,
        live_write_readiness_safe: r.live_write_readiness_safe,
        write_phase_ordering_safe: r.write_phase_ordering_safe,
        failure_modes_safe: r.failure_modes_safe,
        rollback_limitation_safe: r.rollback_limitation_safe,
        checkpoint_durability_safe: r.checkpoint_durability_safe,
        sensitive_data_safe: r.sensitive_data_safe,
        final_validation_enforcement_safe: r.final_validation_enforcement_safe,
        rate_limit_backoff_safe: r.rate_limit_backoff_safe,
    }
}

/// The schema executor request the schema adapter probes.
pub open spec fn sswa_executor_request(r: SandboxSchemaWriteAdapterRequest) -> SchemaWriteExecutorRequest {
    SchemaWriteExecutorRequest {
        mode: SchemaWriteExecutorMode::SandboxOnly,
        explicit_internal_schema_write_requested: true,
        sandbox_verified: r.sandbox_verified,
        target_empty_verified: r.target_base_empty,
        live_write_readiness_satisfied: r.live_write_readiness_safe,
    }
}

// ── Helpers ──────────────────────────────────────────────────────────────────

fn operation_id(idx: usize) -> (s: String)
    ensures
        s@ == SSWA_OP_PREFIX@ + decimal_pad3(idx as nat),
{
    let mut s = String::from_str(SSWA_OP_PREFIX);
    push_decimal_pad3(&mut s, idx);
    s
}

fn table_descriptor(idx: usize, op: &SchemaWriteOperation) -> (a: SandboxSchemaWriteAdapterOperation)
    requires
        op.kind == SchemaWriteOperationKind::CreateTable,
    ensures
        adapter_op_is(a, *op, idx as nat),
{
    let note = concat3(SSWA_TABLE_NOTE_PREFIX, op.table_name.as_str(), SSWA_NOTE_SUFFIX);
    SandboxSchemaWriteAdapterOperation {
        operation_id: operation_id(idx),
        operation_kind: String::from_str(SSWA_KIND_TABLE),
        table_name: op.table_name.clone(),
        field_name: None,
        field_type: None,
        status: SandboxSchemaWriteAdapterOperationStatus::Planned,
        note,
    }
}

fn field_descriptor(idx: usize, op: &SchemaWriteOperation) -> (a: SandboxSchemaWriteAdapterOperation)
    requires
        op.kind == SchemaWriteOperationKind::CreateField,
    ensures
        adapter_op_is(a, *op, idx as nat),
{
    let name = owned_or(&op.field_name, SSWA_UNKNOWN);
    let ftype = owned_or(&op.field_type, SSWA_UNKNOWN);
    let mut note = String::from_str(SSWA_FIELD_NOTE_PREFIX);
    note.append(name.as_str());
    note.append(SSWA_FIELD_NOTE_TYPE);
    note.append(ftype.as_str());
    note.append(SSWA_FIELD_NOTE_IN);
    note.append(op.table_name.as_str());
    note.append(SSWA_NOTE_SUFFIX);
    let field_name = copy_opt(&op.field_name);
    let field_type = copy_opt(&op.field_type);
    SandboxSchemaWriteAdapterOperation {
        operation_id: operation_id(idx),
        operation_kind: String::from_str(SSWA_KIND_FIELD),
        table_name: op.table_name.clone(),
        field_name,
        field_type,
        status: SandboxSchemaWriteAdapterOperationStatus::Planned,
        note,
    }
}

/// A `Blocked` result with the given probe flags, message detail and reason.
fn blocked(
    armed: bool,
    simulated: bool,
    executor: bool,
    target_base_empty: bool,
    sandbox_verified: bool,
    explicit: bool,
    detail: &str,
    blocked_reason: String,
) -> (r: SandboxSchemaWriteAdapterResult)
    ensures
        r.status == SandboxSchemaWriteAdapterStatus::Blocked,
        r.mode == SandboxSchemaWriteAdapterMode::SandboxOnlyInternal,
        r.message@ == SSWA_BLOCKED_PREFIX@ + detail@ + SSWA_NO_CHANGES_SUFFIX@,
        r.blocked_reason matches Some(b) && b@ == blocked_reason@,
        r.operations@.len() == 0,
        r.total_operation_count == 0,
        r.table_operation_count == 0,
        r.field_operation_count == 0,
        sswa_snapshot_is(r.safety_snapshot, armed, simulated, executor, target_base_empty,
            sandbox_verified, explicit),
        r.no_changes_made,
        !r.network_writes_attempted,
        !r.runtime_execution_enabled,
        !r.app_runtime_writes_enabled,
        !r.app_runtime_reads_enabled,
{
    let gate = evaluate_write_gate();
    let write_gate_disabled = write_gate_is_disabled(&gate);
    SandboxSchemaWriteAdapterResult {
        status: SandboxSchemaWriteAdapterStatus::Blocked,
        mode: SandboxSchemaWriteAdapterMode::SandboxOnlyInternal,
        message: concat3(SSWA_BLOCKED_PREFIX, detail, SSWA_NO_CHANGES_SUFFIX),
        operations: Vec::new(),
        safety_snapshot: SandboxSchemaWriteAdapterSafetySnapshot {
            write_gate_disabled,
            gate_arming_armed_not_executable: armed,
            simulator_simulated_not_executed: simulated,
            executor_not_executed: executor,
            target_base_empty,
            sandbox_verified,
            explicit_schema_sandbox_flag_set: explicit,
            runtime_execution_enabled: false,
            app_runtime_writes_enabled: false,
            app_runtime_reads_enabled: false,
            network_writes_attempted: false,
        },
        total_operation_count: 0,
        table_operation_count: 0,
        field_operation_count: 0,
        blocked_reason: Some(blocked_reason),
        no_changes_made: true,
        network_writes_attempted: false,
        runtime_execution_enabled: false,
        app_runtime_writes_enabled: false,
        app_runtime_reads_enabled: false,
    }
}

/// The descriptors of the plan's table and field creations, with the counts
/// of each kind.
fn build_descriptors(plan_ops: &Vec<SchemaWriteOperation>) -> (out: (Vec<SandboxSchemaWriteAdapterOperation>, usize, usize))
    ensures
        adapter_ops_are(out.0@, schema_creates(plan_ops@)),
        out.1 == schema_kind_count(plan_ops@, SchemaWriteOperationKind::CreateTable),
        out.2 == schema_kind_count(plan_ops@, SchemaWriteOperationKind::CreateField),
        out.0@.len() == out.1 + out.2,
{
    let mut operations: Vec<SandboxSchemaWriteAdapterOperation> = Vec::new();
    let mut table_op_count: usize = 0;
    let mut field_op_count: usize = 0;
    let mut i: usize = 0;
    while i < plan_ops.len()
        invariant
            i <= plan_ops.len(),
            adapter_ops_are(operations@, schema_creates(plan_ops@.take(i as int))),
            table_op_count == schema_kind_count(plan_ops@.take(i as int), SchemaWriteOperationKind::CreateTable),
            field_op_count == schema_kind_count(plan_ops@.take(i as int), SchemaWriteOperationKind::CreateField),
            operations@.len() == table_op_count + field_op_count,
            table_op_count + field_op_count <= i,
        decreases plan_ops.len() - i,
    {
        let ghost prev = plan_ops@.take(i as int);
        let ghost next = plan_ops@.take(i as int + 1);
        assert(next.drop_last() =~= prev);
        assert(next.last() == plan_ops@[i as int]);
        let op = &plan_ops[i];
        match op.kind {
            SchemaWriteOperationKind::CreateTable => {
                let a = table_descriptor(operations.len(), op);
                operations.push(a);
                table_op_count = table_op_count + 1;
            },
            SchemaWriteOperationKind::CreateField => {
                let a = field_descriptor(operations.len(), op);
                operations.push(a);
                field_op_count = field_op_count + 1;
            },
            _ => {},
        }
        i = i + 1;
    }
    assert(plan_ops@.take(plan_ops.len() as int) =~= plan_ops@);
    (operations, table_op_count, field_op_count)
}

// ── Core function ────────────────────────────────────────────────────────────

/// Builds the sandbox schema write adapter boundary for a schema plan.
///
/// Disabled mode returns `NotExecuted` without evaluation. Otherwise the checks
/// run in order: the explicit flag, the write gate, the arming decision, the
/// simulator and the schema executor as probes, then the target-empty and
/// sandbox-verified declarations; the first that fails blocks the adapter with
/// its `SSWA-CHK-..` reason. When all pass, each table and field creation of
/// the plan becomes a `Planned` descriptor `SSWA-OP-nnn`; every other
/// operation kind is left out. No network call is made in any case.
pub fn build_sandbox_schema_write_adapter(
    request: &SandboxSchemaWriteAdapterRequest,
    schema_plan: &SchemaWriteRequestPlan,
) -> (result: SandboxSchemaWriteAdapterResult)
    ensures
        result.status == sswa_status(*request, schema_plan.status),
        result.no_changes_made,
        !result.network_writes_attempted,
        !result.runtime_execution_enabled,
        !result.app_runtime_writes_enabled,
        !result.app_runtime_reads_enabled,
        result.total_operation_count == result.operations@.len(),
        result.total_operation_count == result.table_operation_count + result.field_operation_count,
        request.mode == SandboxSchemaWriteAdapterMode::SandboxOnlyInternal ==> result.mode == request.mode,
        result.status != SandboxSchemaWriteAdapterStatus::ReadyForSandboxCall ==> {
            &&& result.operations@.len() == 0
            &&& result.table_operation_count == 0
            &&& result.field_operation_count == 0
        },
        result.status == SandboxSchemaWriteAdapterStatus::NotExecuted ==> {
            &&& result.mode == SandboxSchemaWriteAdapterMode::Disabled
            &&& result.message@ == CHK_MODE@ + SSWA_MODE_TAIL@ + SSWA_NO_CHANGES_SUFFIX@
            &&& result.blocked_reason is None
            &&& sswa_snapshot_is(result.safety_snapshot, false, false, false, false, false, false)
        },
        result.status == SandboxSchemaWriteAdapterStatus::Blocked ==> {
            &&& result.message@ == SSWA_BLOCKED_PREFIX@ + sswa_blocked_detail(*request)
                + SSWA_NO_CHANGES_SUFFIX@
            &&& result.blocked_reason matches Some(b) && b@ == sswa_blocked_reason(*request)
            &&& sswa_blocked_snapshot(result.safety_snapshot, *request)
        },
        result.status == SandboxSchemaWriteAdapterStatus::ReadyForSandboxCall ==> {
            &&& adapter_ops_are(result.operations@, schema_creates(schema_plan.operations@))
            &&& result.table_operation_count
                == schema_kind_count(schema_plan.operations@, SchemaWriteOperationKind::CreateTable)
            &&& result.field_operation_count
                == schema_kind_count(schema_plan.operations@, SchemaWriteOperationKind::CreateField)
            &&& result.message@ == sswa_ready_message(result.total_operation_count as nat,
                result.table_operation_count as nat, result.field_operation_count as nat)
            &&& result.blocked_reason is None
            &&& sswa_snapshot_is(result.safety_snapshot, true, true, true, true, true, true)
        },
{
    if let SandboxSchemaWriteAdapterMode::Disabled = request.mode {
        let head = concat3(CHK_MODE, SSWA_MODE_TAIL, SSWA_NO_CHANGES_SUFFIX);
        return SandboxSchemaWriteAdapterResult {
            status: SandboxSchemaWriteAdapterStatus::NotExecuted,
            mode: SandboxSchemaWriteAdapterMode::Disabled,
            message: head,
            operations: Vec::new(),
            safety_snapshot: SandboxSchemaWriteAdapterSafetySnapshot {
                write_gate_disabled: true,
                gate_arming_armed_not_executable: false,
                simulator_simulated_not_executed: false,
                executor_not_executed: false,
                target_base_empty: false,
                sandbox_verified: false,
                explicit_schema_sandbox_flag_set: false,
                runtime_execution_enabled: false,
                app_runtime_writes_enabled: false,
                app_runtime_reads_enabled: false,
                network_writes_attempted: false,
            },
            total_operation_count: 0,
            table_operation_count: 0,
            field_operation_count: 0,
            blocked_reason: None,
            no_changes_made: true,
            network_writes_attempted: false,
            runtime_execution_enabled: false,
            app_runtime_writes_enabled: false,
            app_runtime_reads_enabled: false,
        };
    }

    if !request.explicit_internal_schema_sandbox_call_requested {
        return blocked(false, false, false, false, false, false, SSWA_FLAG_MESSAGE,
            concat2(CHK_EXPLICIT_FLAG, SSWA_FLAG_TAIL));
    }

    let gate = evaluate_write_gate();
    if !write_gate_is_disabled(&gate) {
        return blocked(false, false, false, request.target_base_empty, request.sandbox_verified, true,
            SSWA_GATE_MESSAGE, concat2(CHK_WRITE_GATE, SSWA_GATE_TAIL));
    }

    // Arming probe.
    let arming_req = SandboxGateArmingRequest {
        mode: SandboxGateArmingMode::SandboxOnlyInternal,
        explicit_internal_sandbox_arming_requested: true,
        sandbox_verification_safe: request.sandbox_verified,
        target_empty_safe: request.target_base_empty,
        confirmation_gate_declared: request.confirmation_gate_declared,
        destructive_operation_policy_safe: request.destructive_operation_policy_safe,
        attachment_phase_disabled_safe: request.attachment_phase_disabled_safe,
        live_write_readiness_safe: request.live_write_readiness_safe,
        write_phase_ordering_safe: request.write_phase_ordering_safe,
        failure_modes_safe: request.failure_modes_safe,
        rollback_limitation_safe: request.rollback_limitation_safe,
        checkpoint_durability_safe: request.checkpoint_durability_safe,
        sensitive_data_safe: request.sensitive_data_safe,
        final_validation_enforcement_safe: request.final_validation_enforcement_safe,
        rate_limit_backoff_safe: request.rate_limit_backoff_safe,
    };
    assert(arming_req == sswa_arming_request(*request));
    let arming_result = build_sandbox_gate_arming_decision(&arming_req);
    let armed = match arming_result.status {
        SandboxGateArmingStatus::ArmedNotExecutable => true,
        SandboxGateArmingStatus::Blocked => false,
    };
    if !armed {
        return blocked(false, false, false, request.target_base_empty, request.sandbox_verified, true,
            SSWA_ARMING_MESSAGE, concat2(CHK_ARMING, SSWA_ARMING_TAIL));
    }

    // Simulator probe.
    let sim_req = SandboxRestoreSimulatorRequest {
        mode: SandboxRestoreSimulatorMode::SandboxOnlyInternalSimulation,
        explicit_internal_simulation_requested: true,
        sandbox_verification_safe: request.sandbox_verified,
        target_empty_safe: request.target_base_empty,
        confirmation_gate_declared: request.confirmation_gate_declared,
        destructive_operation_policy_safe: request.destructive_operation_policy_safe,
        attachment_phase_disabled_safe: request.attachment_phase_disabled_safe,
        live_write_readiness_safe: request.live_write_readiness_safe,
        write_phase_ordering_safe: request.write_phase_ordering_safe,
        failure_modes_safe: request.failure_modes_safe,
        rollback_limitation_safe: request.rollback_limitation_safe,
        checkpoint_durability_safe: request.checkpoint_durability_safe,
        sensitive_data_safe: request.sensitive_data_safe,
        final_validation_enforcement_safe: request.final_validation_enforcement_safe,
        rate_limit_backoff_safe: request.rate_limit_backoff_safe,
    };
    assert(sim_req == sswa_simulator_request(*request));
    let sim_result = run_sandbox_restore_simulator(&sim_req);
    let simulated = match sim_result.status {
        SandboxRestoreSimulatorStatus::SimulatedNotExecuted => true,
        SandboxRestoreSimulatorStatus::Blocked => false,
    };
    if !simulated {
        return blocked(true, false, false, request.target_base_empty, request.sandbox_verified, true,
            SSWA_SIMULATOR_MESSAGE, concat2(CHK_SIMULATOR, SSWA_SIMULATOR_TAIL));
    }

    // Schema executor probe.
    let executor_req = SchemaWriteExecutorRequest {
        mode: SchemaWriteExecutorMode::SandboxOnly,
        explicit_internal_schema_write_requested: true,
        sandbox_verified: request.sandbox_verified,
        target_empty_verified: request.target_base_empty,
        live_write_readiness_satisfied: request.live_write_readiness_safe,
    };
    assert(executor_req == sswa_executor_request(*request));
    let executor_result = build_schema_write_executor_plan(&executor_req, schema_plan);
    let executor_not_executed = match executor_result.status {
        SchemaWriteExecutorStatus::NotExecuted => true,
        SchemaWriteExecutorStatus::Blocked => false,
    };
    if !executor_not_executed {
        return blocked(true, true, false, request.target_base_empty, request.sandbox_verified, true,
            SSWA_EXECUTOR_MESSAGE, concat2(CHK_EXECUTOR, SSWA_EXECUTOR_TAIL));
    }

    if !request.target_base_empty {
        return blocked(true, true, true, false, request.sandbox_verified, true,
            SSWA_TARGET_MESSAGE, concat2(CHK_TARGET_EMPTY, SSWA_TARGET_TAIL));
    }
    if !request.sandbox_verified {
        return blocked(true, true, true, true, false, true,
            SSWA_SANDBOX_MESSAGE, concat2(CHK_SANDBOX_VERIFIED, SSWA_SANDBOX_TAIL));
    }

    // Descriptors of the table and field creations.
    let (operations, table_op_count, field_op_count) = build_descriptors(&schema_plan.operations);
    let total_operation_count = operations.len();
    let mut message = String::from_str(SSWA_READY_PREFIX);
    push_decimal(&mut message, total_operation_count);
    message.append(SSWA_READY_OPERATIONS);
    push_decimal(&mut message, table_op_count);
    message.append(SSWA_READY_TABLES);
    push_decimal(&mut message, field_op_count);
    message.append(SSWA_READY_FIELDS);

    SandboxSchemaWriteAdapterResult {
        status: SandboxSchemaWriteAdapterStatus::ReadyForSandboxCall,
        mode: SandboxSchemaWriteAdapterMode::SandboxOnlyInternal,
        message,
        operations,
        safety_snapshot: SandboxSchemaWriteAdapterSafetySnapshot {
            write_gate_disabled: true,
            gate_arming_armed_not_executable: true,
            simulator_simulated_not_executed: true,
            executor_not_executed: true,
            target_base_empty: true,
            sandbox_verified: true,
            explicit_schema_sandbox_flag_set: true,
            runtime_execution_enabled: false,
            app_runtime_writes_enabled: false,
            app_runtime_reads_enabled: false,
            network_writes_attempted: false,
        },
        total_operation_count,
        table_operation_count: table_op_count,
        field_operation_count: field_op_count,
        blocked_reason: None,
        no_changes_made: true,
        network_writes_attempted: false,
        runtime_execution_enabled: false,
        app_runtime_writes_enabled: false,
        app_runtime_reads_enabled: false,
    }
}

} // verus!
