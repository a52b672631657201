//! Sandbox adapter chain runner: runs the schema, record, linked second-pass
//! and final validation adapter boundaries in order, through mock/no-op
//! adapters only. When every boundary is ready the run is
//! `MockRunNotExecuted` with one observed phase per adapter and the operation
//! counts each reported. No client is called and nothing is executed.

use vstd::prelude::*;
use vstd::string::*;
use crate::linked_second_pass_execution_preview::{copy_field_summaries, LinkedSecondPassFieldSummary};
use crate::record_write_requests::{RecordWriteOperationStatus, RecordWriteRequestPlan};
use crate::sandbox_final_validation_adapter::{
    build_sandbox_final_validation_adapter, sfva_record_probe_ready,
    SandboxFinalValidationAdapterMode,
    SandboxFinalValidationAdapterRequest, SandboxFinalValidationAdapterStatus,
};
use crate::sandbox_linked_second_pass_adapter::{
    build_sandbox_linked_second_pass_adapter, slpa_record_probe_ready,
    SandboxLinkedSecondPassAdapterMode,
    SandboxLinkedSecondPassAdapterRequest, SandboxLinkedSecondPassAdapterStatus,
};
use crate::sandbox_record_write_adapter::{
    build_sandbox_record_write_adapter, create_batches, planned_record_total, srwa_status,
    SandboxRecordWriteAdapterMode, SandboxRecordWriteAdapterRequest,
    SandboxRecordWriteAdapterStatus,
};
use crate::sandbox_restore_simulator::{
    run_sandbox_restore_simulator, sim_prerequisites_hold, SandboxRestoreSimulatorMode,
    SandboxRestoreSimulatorRequest, SandboxRestoreSimulatorStatus,
};
use crate::sandbox_schema_write_adapter::{
    build_sandbox_schema_write_adapter, schema_creates, SandboxSchemaWriteAdapterMode,
    SandboxSchemaWriteAdapterRequest, SandboxSchemaWriteAdapterStatus,
};
use crate::schema_write_requests::{SchemaWriteOperationStatus, SchemaWriteRequestPlan};
use crate::text::{concat2, concat3, decimal, push_decimal};
use crate::write_gate::{evaluate_write_gate, write_gate_is_disabled};

verus! {

#[derive(Debug, Clone, Copy, PartialEq, Eq, Structural)]
pub enum SandboxAdapterChainRunnerStatus {
    /// A required prerequisite is missing, or an adapter is not ready.
    Blocked,
    /// Every adapter boundary was observed through mock/no-op adapters only.
    MockRunNotExecuted,
}

#[derive(Debug, Clone, Copy, PartialEq, Eq, Structural)]
pub enum SandboxAdapterChainRunnerMode {
    Disabled,
    MockInternalOnly,
}

#[derive(Debug, Clone, Copy, PartialEq, Eq, Structural)]
pub enum SandboxAdapterChainRunnerPhaseStatus {
    MockObserved,
    Skipped,
    Planned,
    Blocked,
    NotExecuted,
}

#[derive(Debug, Clone)]
pub struct SandboxAdapterChainRunnerPhase {
    pub phase_id: String,
    pub label: String,
    pub status: SandboxAdapterChainRunnerPhaseStatus,
    pub operation_count: usize,
    pub note: String,
}

#[derive(Debug, Clone)]
pub struct SandboxAdapterChainRunnerSafetySnapshot {
    pub write_gate_disabled: bool,
    pub simulator_simulated_not_executed: bool,
    pub schema_adapter_ready: bool,
    pub record_adapter_ready: bool,
    pub linked_adapter_ready: bool,
    pub final_validation_adapter_ready: bool,
    pub explicit_mock_chain_flag_set: bool,
    pub runtime_execution_enabled: bool,
    pub app_runtime_writes_enabled: bool,
    pub app_runtime_reads_enabled: bool,
    pub network_reads_attempted: bool,
    pub network_writes_attempted: bool,
    pub airtable_client_called: bool,
}

#[derive(Debug, Clone)]
pub struct SandboxAdapterChainRunnerRequest {
    pub mode: SandboxAdapterChainRunnerMode,
    pub explicit_internal_mock_chain_requested: bool,
    pub sandbox_verified: bool,
    pub target_base_empty: bool,
    pub mapping_coverage_sufficient: bool,
    pub final_validation_enforcement_safe: bool,
    pub confirmation_gate_declared: bool,
    pub destructive_operation_policy_safe: bool,
    pub attachment_phase_disabled_safe: bool,
    pub live_write_readiness_safe: bool,
    pub write_phase_ordering_safe: bool,
    pub failure_modes_safe: bool,
    pub rollback_limitation_safe: bool,
    pub checkpoint_durability_safe: bool,
    pub sensitive_data_safe: bool,
    pub rate_limit_backoff_safe: bool,
    pub schema_executor_safe: bool,
    pub checkpoint_store_safe: bool,
    pub record_executor_safe: bool,
    pub linked_executor_safe: bool,
    pub linked_second_pass_preview_ready: bool,
    pub mapping_checkpoint_preview_ready: bool,
    pub field_summaries: Vec<LinkedSecondPassFieldSummary>,
    pub table_count: usize,
    pub field_count: usize,
    pub record_count: usize,
    pub id_mapping_entry_count: usize,
    pub linked_coverage_count: usize,
    pub attachment_metadata_count: usize,
    pub manifest_present: bool,
}

#[derive(Debug, Clone)]
pub struct SandboxAdapterChainRunnerResult {
    pub status: SandboxAdapterChainRunnerStatus,
    pub mode: SandboxAdapterChainRunnerMode,
    pub message: String,
    pub phases: Vec<SandboxAdapterChainRunnerPhase>,
    pub safety_snapshot: SandboxAdapterChainRunnerSafetySnapshot,
    pub total_phase_count: usize,
    pub schema_operation_count: usize,
    pub record_operation_count: usize,
    pub linked_operation_count: usize,
    pub final_validation_operation_count: usize,
    pub blocked_reason: Option<String>,
    pub no_changes_made: bool,
    pub network_reads_attempted: bool,
    pub network_writes_attempted: bool,
    pub airtable_client_called: bool,
    pub runtime_execution_enabled: bool,
    pub app_runtime_writes_enabled: bool,
    pub app_runtime_reads_enabled: bool,
}

pub const CHK_MODE: &'static str = "SACR-CHK-01";
pub const CHK_EXPLICIT_FLAG: &'static str = "SACR-CHK-02";
pub const CHK_WRITE_GATE: &'static str = "SACR-CHK-03";
pub const CHK_SIMULATOR: &'static str = "SACR-CHK-04";
pub const CHK_SCHEMA_ADAPTER: &'static str = "SACR-CHK-05";
pub const CHK_RECORD_ADAPTER: &'static str = "SACR-CHK-06";
pub const CHK_LINKED_ADAPTER: &'static str = "SACR-CHK-07";
pub const CHK_FINAL_VALIDATION_ADAPTER: &'static str = "SACR-CHK-08";

pub const SACR_PH_01: &'static str = "SACR-PH-01";
pub const SACR_PH_02: &'static str = "SACR-PH-02";
pub const SACR_PH_03: &'static str = "SACR-PH-03";
pub const SACR_PH_04: &'static str = "SACR-PH-04";

pub const SACR_MODE_TAIL: &'static str =
    ": Runner mode is disabled. No evaluation is performed. This is the default state.";
pub const SACR_FLAG_TAIL: &'static str =
    ": explicit_internal_mock_chain_requested must be true. This flag must be explicitly set before the chain runner can proceed. No UI control, Tauri command, or runtime path sets this flag.";
pub const SACR_GATE_TAIL: &'static str =
    ": evaluate_write_gate() did not return Disabled/DisabledByProductPolicy. This is a critical safety violation.";
pub const SACR_SIMULATOR_TAIL: &'static str =
    ": sandbox restore simulator did not return SimulatedNotExecuted. All simulation prerequisites must be satisfied before the chain runner can proceed.";
pub const SACR_SCHEMA_TAIL: &'static str =
    ": schema write adapter did not return ReadyForSandboxCall. The schema adapter must be ready before the chain runner can proceed.";
pub const SACR_RECORD_TAIL: &'static str =
    ": record write adapter did not return ReadyForSandboxCall. The record adapter must be ready before the chain runner can proceed.";
pub const SACR_LINKED_TAIL: &'static str =
    ": linked second-pass adapter did not return ReadyForSandboxCall. The linked adapter must be ready before the chain runner can proceed.";
pub const SACR_FINAL_VALIDATION_TAIL: &'static str =
    ": final validation adapter did not return ReadyForSandboxCall. The final validation adapter must be ready before the chain runner can proceed.";
pub const SACR_BLOCKED_PREFIX: &'static str = "Sandbox adapter chain runner is blocked. ";
pub const SACR_BLOCKED_SUFFIX: &'static str =
    " No Airtable API calls were made. No changes were made. Runtime execution, writes, reads, and network calls remain disabled.";

pub const SACR_LABEL_01: &'static str = "Schema write adapter";
pub const SACR_LABEL_02: &'static str = "Record write adapter";
pub const SACR_LABEL_03: &'static str = "Linked second-pass adapter";
pub const SACR_LABEL_04: &'static str = "Final validation adapter";
pub const SACR_NOTE_01_PREFIX: &'static str =
    "Schema write adapter observed via mock/no-op adapter \u{2014} ";
pub const SACR_NOTE_01_SUFFIX: &'static str =
    " operation descriptor(s). No Airtable schema API call was made. No table or field was created.";
pub const SACR_NOTE_02_PREFIX: &'static str =
    "Record write adapter observed via mock/no-op adapter \u{2014} ";
pub const SACR_NOTE_02_SUFFIX: &'static str =
    " operation descriptor(s). No Airtable record API call was made. No record was created.";
pub const SACR_NOTE_03_PREFIX: &'static str =
    "Linked second-pass adapter observed via mock/no-op adapter \u{2014} ";
pub const SACR_NOTE_03_SUFFIX: &'static str =
    " operation descriptor(s). No Airtable linked record API call was made. No record was updated.";
pub const SACR_NOTE_04_PREFIX: &'static str =
    "Final validation adapter observed via mock/no-op adapter \u{2014} ";
pub const SACR_NOTE_04_SUFFIX: &'static str =
    " read descriptor(s). No Airtable read API call was made. No network reads attempted.";

pub const SACR_MSG_ALL: &'static str = "Sandbox adapter chain runner: mockRunNotExecuted. All ";
pub const SACR_MSG_SCHEMA: &'static str = " adapter phases observed via mock/no-op adapters (schema: ";
pub const SACR_MSG_RECORD: &'static str = " op(s), record: ";
pub const SACR_MSG_LINKED: &'static str = " op(s), linked: ";
pub const SACR_MSG_FINAL: &'static str = " op(s), final validation: ";
pub const SACR_MSG_SUFFIX: &'static str =
    " descriptor(s)). No Airtable network call was made. No runtime execution is enabled. No app runtime writes, reads, or execution are enabled. No changes were made. This runner is for internal sandbox tests only and is not reachable from UI, TypeScript, or any Tauri command. Live sandbox E2E restore execution remains separate pending work.";

// ── Specification ────────────────────────────────────────────────────────────

/// The simulator request the runner probes.
pub open spec fn sacr_simulator_request(r: SandboxAdapterChainRunnerRequest) -> SandboxRestoreSimulatorRequest {
    SandboxRestoreSimulatorRequest {
        mode: SandboxRestoreSimulatorMode::SandboxOnlyInternalSimulation,
        explicit_internal_simulation_requested: true,
        sandbox_verification_safe: r.sandbox_verified,
        target_empty_safe: r.target_base_empty,
        confirmation_gate_declared: r.confirmation_gate_declared,
        destructive_operation_policy_safe: r.destructive_operation_policy_safe,
        attachment_phase_disabled_safe: r.attachment_phase_disabled_safe,
        live_write_readiness_safe: r.live_write_readiness_safe,
        write_phase_ordering_safe: r.write_phase_ordering_safe,
        failure_modes_safe: r.failure_modes_safe,
        rollback_limitation_safe: r.rollback_limitation_safe,
        checkpoint_durability_safe: r.checkpoint_durability_safe,
        sensitive_data_safe: r.sensitive_data_safe,
        final_validation_enforcement_safe: r.final_validation_enforcement_safe,
        rate_limit_backoff_safe: r.rate_limit_backoff_safe,
    }
}

/// The check that blocks a run, numbered as the `SACR-CHK-..` ids; 0 when no
/// check fails.
pub open spec fn sacr_blocked_check(
    r: SandboxAdapterChainRunnerRequest,
    schema_plan_status: SchemaWriteOperationStatus,
    record_plan_status: RecordWriteOperationStatus,
) -> nat {
    if r.mode == SandboxAdapterChainRunnerMode::Disabled { 1 }
    else if !r.explicit_internal_mock_chain_requested { 2 }
    else if !sim_prerequisites_hold(sacr_simulator_request(r)) { 4 }
    else if schema_plan_status == SchemaWriteOperationStatus::Blocked { 5 }
    else if !(r.schema_executor_safe && r.rate_limit_backoff_safe && r.checkpoint_store_safe
        && record_plan_status != RecordWriteOperationStatus::Blocked) { 6 }
    else if !(r.record_executor_safe && r.linked_second_pass_preview_ready
        && r.mapping_checkpoint_preview_ready && r.sensitive_data_safe
        && r.mapping_coverage_sufficient) { 7 }
    else if !(r.linked_executor_safe && r.final_validation_enforcement_safe) { 8 }
    else { 0 }
}

/// Whether the record adapter is reached and reports `ReadyForSandboxCall`,
/// so that it sums the planned records of the plan: no check up to the record
/// adapter's fails.
pub open spec fn sacr_record_probe_ready(
    r: SandboxAdapterChainRunnerRequest,
    schema_plan_status: SchemaWriteOperationStatus,
    record_plan_status: RecordWriteOperationStatus,
) -> bool {
    let check = sacr_blocked_check(r, schema_plan_status, record_plan_status);
    check == 0 || check > 6
}

/// The status of a run for a request and the statuses of the plans.
pub open spec fn sacr_status(
    r: SandboxAdapterChainRunnerRequest,
    schema_plan_status: SchemaWriteOperationStatus,
    record_plan_status: RecordWriteOperationStatus,
) -> SandboxAdapterChainRunnerStatus {
    if sacr_blocked_check(r, schema_plan_status, record_plan_status) == 0 {
        SandboxAdapterChainRunnerStatus::MockRunNotExecuted
    } else {
        SandboxAdapterChainRunnerStatus::Blocked
    }
}

/// The reason of a blocked run, by failing check.
pub open spec fn sacr_blocked_reason(check: nat) -> Seq<char> {
    if check == 1 { CHK_MODE@ + SACR_MODE_TAIL@ }
    else if check == 2 { CHK_EXPLICIT_FLAG@ + SACR_FLAG_TAIL@ }
    else if check == 4 { CHK_SIMULATOR@ + SACR_SIMULATOR_TAIL@ }
    else if check == 5 { CHK_SCHEMA_ADAPTER@ + SACR_SCHEMA_TAIL@ }
    else if check == 6 { CHK_RECORD_ADAPTER@ + SACR_RECORD_TAIL@ }
    else if check == 7 { CHK_LINKED_ADAPTER@ + SACR_LINKED_TAIL@ }
    else { CHK_FINAL_VALIDATION_ADAPTER@ + SACR_FINAL_VALIDATION_TAIL@ }
}

/// The snapshot: write gate disabled, no client call, nothing enabled, no
/// network read or write; the adapter flags given in field order.
pub open spec fn sacr_snapshot_is(
    s: SandboxAdapterChainRunnerSafetySnapshot,
    simulated: bool,
    schema: bool,
    record: bool,
    linked: bool,
    final_validation: bool,
    explicit: bool,
) -> bool {
    &&& s.write_gate_disabled
    &&& s.simulator_simulated_not_executed == simulated
    &&& s.schema_adapter_ready == schema
    &&& s.record_adapter_ready == record
    &&& s.linked_adapter_ready == linked
    &&& s.final_validation_adapter_ready == final_validation
    &&& s.explicit_mock_chain_flag_set == explicit
    &&& !s.runtime_execution_enabled
    &&& !s.app_runtime_writes_enabled
    &&& !s.app_runtime_reads_enabled
    &&& !s.network_reads_attempted
    &&& !s.network_writes_attempted
    &&& !s.airtable_client_called
}

/// The flags every run result carries.
pub open spec fn sacr_result_safe(r: SandboxAdapterChainRunnerResult) -> bool {
    &&& r.no_changes_made
    &&& !r.network_reads_attempted
    &&& !r.network_writes_attempted
    &&& !r.airtable_client_called
    &&& !r.runtime_execution_enabled
    &&& !r.app_runtime_writes_enabled
    &&& !r.app_runtime_reads_enabled
}

pub open spec fn sacr_phase_is(
    p: SandboxAdapterChainRunnerPhase,
    id: &str,
    label: &str,
    count: nat,
    note_prefix: &str,
    note_suffix: &str,
) -> bool {
    &&& p.phase_id@ == id@
    &&& p.label@ == label@
    &&& p.status == SandboxAdapterChainRunnerPhaseStatus::MockObserved
    &&& p.operation_count == count
    &&& p.note@ == note_prefix@ + decimal(count) + note_suffix@
}

/// The four observed phases, schema, record, linked, final validation, each
/// with its adapter's operation count.
pub open spec fn sacr_phases(
    ps: Seq<SandboxAdapterChainRunnerPhase>,
    schema: nat,
    record: nat,
    linked: nat,
    final_validation: nat,
) -> bool {
    &&& ps.len() == 4
    &&& sacr_phase_is(ps[0], SACR_PH_01, SACR_LABEL_01, schema, SACR_NOTE_01_PREFIX, SACR_NOTE_01_SUFFIX)
    &&& sacr_phase_is(ps[1], SACR_PH_02, SACR_LABEL_02, record, SACR_NOTE_02_PREFIX, SACR_NOTE_02_SUFFIX)
    &&& sacr_phase_is(ps[2], SACR_PH_03, SACR_LABEL_03, linked, SACR_NOTE_03_PREFIX, SACR_NOTE_03_SUFFIX)
    &&& sacr_phase_is(ps[3], SACR_PH_04, SACR_LABEL_04, final_validation, SACR_NOTE_04_PREFIX,
        SACR_NOTE_04_SUFFIX)
}

/// The message of a completed mock run.
pub open spec fn sacr_run_message(phases: nat, schema: nat, record: nat, linked: nat, final_validation: nat) -> Seq<char> {
    SACR_MSG_ALL@ + decimal(phases) + SACR_MSG_SCHEMA@ + decimal(schema) + SACR_MSG_RECORD@
        + decimal(record) + SACR_MSG_LINKED@ + decimal(linked) + SACR_MSG_FINAL@
        + decimal(final_validation) + SACR_MSG_SUFFIX@
}

/// The schema adapter request the runner probes.
pub open spec fn sacr_schema_request(r: SandboxAdapterChainRunnerRequest) -> SandboxSchemaWriteAdapterRequest {
    SandboxSchemaWriteAdapterRequest {
        mode: SandboxSchemaWriteAdapterMode::SandboxOnlyInternal,
        explicit_internal_schema_sandbox_call_requested: true,
        sandbox_verified: r.sandbox_verified,
        target_base_empty: r.target_base_empty,
        confirmation_gate_declared: r.confirmation_gate_declared,
        destructive_operation_policy_safe: r.destructive_operation_policy_safe,
        attachment_phase_disabled_safe: r.attachment_phase_disabled_safe,
        live_write_readiness_safe: r.live_write_readiness_safe,
        write_phase_ordering_safe: r.write_phase_ordering_safe,
        failure_modes_safe: r.failure_modes_safe,
        rollback_limitation_safe: r.rollback_limitation_safe,
        checkpoint_durability_safe: r.checkpoint_durability_safe,
        sensitive_data_safe: r.sensitive_data_safe,
        final_validation_enforcement_safe: r.final_validation_enforcement_safe,
        rate_limit_backoff_safe: r.rate_limit_backoff_safe,
    }
}

/// The record adapter request the runner probes.
pub open spec fn sacr_record_request(r: SandboxAdapterChainRunnerRequest) -> SandboxRecordWriteAdapterRequest {
    SandboxRecordWriteAdapterRequest {
        mode: SandboxRecordWriteAdapterMode::SandboxOnlyInternal,
        explicit_internal_record_sandbox_call_requested: true,
        sandbox_verified: r.sandbox_verified,
        target_base_empty: r.target_base_empty,
        confirmation_gate_declared: r.confirmation_gate_declared,
        destructive_operation_policy_safe: r.destructive_operation_policy_safe,
        attachment_phase_disabled_safe: r.attachment_phase_disabled_safe,
        live_write_readiness_safe: r.live_write_readiness_safe,
        write_phase_ordering_safe: r.write_phase_ordering_safe,
        failure_modes_safe: r.failure_modes_safe,
        rollback_limitation_safe: r.rollback_limitation_safe,
        checkpoint_durability_safe: r.checkpoint_durability_safe,
        sensitive_data_safe: r.sensitive_data_safe,
        final_validation_enforcement_safe: r.final_validation_enforcement_safe,
        rate_limit_backoff_safe: r.rate_limit_backoff_safe,
        schema_executor_safe: r.schema_executor_safe,
        checkpoint_store_safe: r.checkpoint_store_safe,
    }
}

/// The linked adapter request the runner probes.
pub open spec fn sacr_linked_request(r: SandboxAdapterChainRunnerRequest) -> SandboxLinkedSecondPassAdapterRequest {
    SandboxLinkedSecondPassAdapterRequest {
        mode: SandboxLinkedSecondPassAdapterMode::SandboxOnlyInternal,
        explicit_internal_linked_sandbox_call_requested: true,
        sandbox_verified: r.sandbox_verified,
        target_base_empty: r.target_base_empty,
        mapping_coverage_sufficient: r.mapping_coverage_sufficient,
        confirmation_gate_declared: r.confirmation_gate_declared,
        destructive_operation_policy_safe: r.destructive_operation_policy_safe,
        attachment_phase_disabled_safe: r.attachment_phase_disabled_safe,
        live_write_readiness_safe: r.live_write_readiness_safe,
        write_phase_ordering_safe: r.write_phase_ordering_safe,
        failure_modes_safe: r.failure_modes_safe,
        rollback_limitation_safe: r.rollback_limitation_safe,
        checkpoint_durability_safe: r.checkpoint_durability_safe,
        sensitive_data_safe: r.sensitive_data_safe,
        final_validation_enforcement_safe: r.final_validation_enforcement_safe,
        rate_limit_backoff_safe: r.rate_limit_backoff_safe,
        schema_executor_safe: r.schema_executor_safe,
        checkpoint_store_safe: r.checkpoint_store_safe,
        record_executor_safe: r.record_executor_safe,
        linked_second_pass_preview_ready: r.linked_second_pass_preview_ready,
        mapping_checkpoint_preview_ready: r.mapping_checkpoint_preview_ready,
        field_summaries: r.field_summaries,
    }
}

/// The final validation adapter request the runner probes.
pub open spec fn sacr_final_validation_request(r: SandboxAdapterChainRunnerRequest) -> SandboxFinalValidationAdapterRequest {
    SandboxFinalValidationAdapterRequest {
        mode: SandboxFinalValidationAdapterMode::SandboxOnlyInternal,
        explicit_internal_validation_sandbox_call_requested: true,
        sandbox_verified: r.sandbox_verified,
        final_validation_enforcement_safe: r.final_validation_enforcement_safe,
        confirmation_gate_declared: r.confirmation_gate_declared,
        destructive_operation_policy_safe: r.destructive_operation_policy_safe,
        attachment_phase_disabled_safe: r.attachment_phase_disabled_safe,
        live_write_readiness_safe: r.live_write_readiness_safe,
        write_phase_ordering_safe: r.write_phase_ordering_safe,
        failure_modes_safe: r.failure_modes_safe,
        rollback_limitation_safe: r.rollback_limitation_safe,
        checkpoint_durability_safe: r.checkpoint_durability_safe,
        sensitive_data_safe: r.sensitive_data_safe,
        rate_limit_backoff_safe: r.rate_limit_backoff_safe,
        schema_executor_safe: r.schema_executor_safe,
        checkpoint_store_safe: r.checkpoint_store_safe,
        record_executor_safe: r.record_executor_safe,
        linked_executor_safe: r.linked_executor_safe,
        linked_second_pass_preview_ready: r.linked_second_pass_preview_ready,
        mapping_checkpoint_preview_ready: r.mapping_checkpoint_preview_ready,
        target_base_empty: r.target_base_empty,
        mapping_coverage_sufficient: r.mapping_coverage_sufficient,
        field_summaries: r.field_summaries,
        table_count: r.table_count,
        field_count: r.field_count,
        record_count: r.record_count,
        id_mapping_entry_count: r.id_mapping_entry_count,
        linked_coverage_count: r.linked_coverage_count,
        attachment_metadata_count: r.attachment_metadata_count,
        manifest_present: r.manifest_present,
    }
}

// ── Helpers ──────────────────────────────────────────────────────────────────

fn observed_phase(
    id: &str,
    label: &str,
    count: usize,
    note_prefix: &str,
    note_suffix: &str,
) -> (p: SandboxAdapterChainRunnerPhase)
    ensures
        sacr_phase_is(p, id, label, count as nat, note_prefix, note_suffix),
{
    let mut note = String::from_str(note_prefix);
    push_decimal(&mut note, count);
    note.append(note_suffix);
    SandboxAdapterChainRunnerPhase {
        phase_id: String::from_str(id),
        label: String::from_str(label),
        status: SandboxAdapterChainRunnerPhaseStatus::MockObserved,
        operation_count: count,
        note,
    }
}

/// A `Blocked` run with the given adapter flags and reason.
fn blocked(
    mode: SandboxAdapterChainRunnerMode,
    simulated: bool,
    schema: bool,
    record: bool,
    linked: bool,
    explicit: bool,
    reason: String,
) -> (r: SandboxAdapterChainRunnerResult)
    ensures
        r.status == SandboxAdapterChainRunnerStatus::Blocked,
        r.mode == mode,
        r.message@ == SACR_BLOCKED_PREFIX@ + reason@ + SACR_BLOCKED_SUFFIX@,
        r.blocked_reason matches Some(b) && b@ == reason@,
        r.phases@.len() == 0,
        r.total_phase_count == 0,
        r.schema_operation_count == 0,
        r.record_operation_count == 0,
        r.linked_operation_count == 0,
        r.final_validation_operation_count == 0,
        sacr_snapshot_is(r.safety_snapshot, simulated, schema, record, linked, false, explicit),
        sacr_result_safe(r),
{
    let gate = evaluate_write_gate();
    let write_gate_disabled = write_gate_is_disabled(&gate);
    let message = concat3(SACR_BLOCKED_PREFIX, reason.as_str(), SACR_BLOCKED_SUFFIX);
    SandboxAdapterChainRunnerResult {
        status: SandboxAdapterChainRunnerStatus::Blocked,
        mode,
        message,
        phases: Vec::new(),
        safety_snapshot: SandboxAdapterChainRunnerSafetySnapshot {
            write_gate_disabled,
            simulator_simulated_not_executed: simulated,
            schema_adapter_ready: schema,
            record_adapter_ready: record,
            linked_adapter_ready: linked,
            final_validation_adapter_ready: false,
            explicit_mock_chain_flag_set: explicit,
            runtime_execution_enabled: false,
            app_runtime_writes_enabled: false,
            app_runtime_reads_enabled: false,
            network_reads_attempted: false,
            network_writes_attempted: false,
            airtable_client_called: false,
        },
        total_phase_count: 0,
        schema_operation_count: 0,
        record_operation_count: 0,
        linked_operation_count: 0,
        final_validation_operation_count: 0,
        blocked_reason: Some(reason),
        no_changes_made: true,
        network_reads_attempted: false,
        network_writes_attempted: false,
        airtable_client_called: false,
        runtime_execution_enabled: false,
        app_runtime_writes_enabled: false,
        app_runtime_reads_enabled: false,
    }
}

// ── Core function ────────────────────────────────────────────────────────────

/// Runs the sandbox adapter chain through mock/no-op adapters.
///
/// Disabled mode blocks the run with `SACR-CHK-01` and evaluates nothing, so
/// its snapshot reports every probe and the explicit flag unset. Otherwise the checks run
/// in order: the explicit flag, the write gate, the simulator, then the
/// schema, record, linked second-pass and final validation adapter
/// boundaries; the first that is not in its best state blocks the run with its
/// `SACR-CHK-..` reason, and the snapshot reports the probes passed before it
/// and the explicit flag as it was requested. When all are ready, the run is `MockRunNotExecuted`
/// with four observed phases carrying each adapter's operation count. No
/// client is called and nothing is enabled in any case.
pub fn run_sandbox_adapter_chain(
    request: &SandboxAdapterChainRunnerRequest,
    schema_plan: &SchemaWriteRequestPlan,
    record_plan: &RecordWriteRequestPlan,
) -> (result: SandboxAdapterChainRunnerResult)
    requires
        sacr_record_probe_ready(*request, schema_plan.status, record_plan.status)
            ==> planned_record_total(record_plan.operations@) <= usize::MAX,
    ensures
        result.status == sacr_status(*request, schema_plan.status, record_plan.status),
        sacr_result_safe(result),
        result.mode == request.mode,
        result.total_phase_count == result.phases@.len(),
        result.status == SandboxAdapterChainRunnerStatus::Blocked ==> {
            let check = sacr_blocked_check(*request, schema_plan.status, record_plan.status);
            &&& result.blocked_reason matches Some(b) && b@ == sacr_blocked_reason(check)
            &&& result.message@ == SACR_BLOCKED_PREFIX@ + sacr_blocked_reason(check)
                + SACR_BLOCKED_SUFFIX@
            &&& result.phases@.len() == 0
            &&& result.schema_operation_count == 0
            &&& result.record_operation_count == 0
            &&& result.linked_operation_count == 0
            &&& result.final_validation_operation_count == 0
            &&& sacr_snapshot_is(result.safety_snapshot, check > 4, check > 5, check > 6, check > 7,
                false, request.mode == SandboxAdapterChainRunnerMode::MockInternalOnly
                && request.explicit_internal_mock_chain_requested)
        },
        result.status == SandboxAdapterChainRunnerStatus::MockRunNotExecuted ==> {
            &&& result.schema_operation_count == schema_creates(schema_plan.operations@).len()
            &&& result.record_operation_count == create_batches(record_plan.operations@).len()
            &&& result.linked_operation_count == request.field_summaries@.len()
            &&& result.final_validation_operation_count == if request.manifest_present { 7nat } else { 6nat }
            &&& sacr_phases(result.phases@, result.schema_operation_count as nat,
                result.record_operation_count as nat, result.linked_operation_count as nat,
                result.final_validation_operation_count as nat)
            &&& result.message@ == sacr_run_message(4, result.schema_operation_count as nat,
                result.record_operation_count as nat, result.linked_operation_count as nat,
                result.final_validation_operation_count as nat)
            &&& result.blocked_reason is None
            &&& sacr_snapshot_is(result.safety_snapshot, true, true, true, true, true, true)
        },
{
    if let SandboxAdapterChainRunnerMode::Disabled = request.mode {
        return blocked(SandboxAdapterChainRunnerMode::Disabled, false, false, false, false,
            false, concat2(CHK_MODE, SACR_MODE_TAIL));
    }
    let mode = SandboxAdapterChainRunnerMode::MockInternalOnly;
    let explicit = request.explicit_internal_mock_chain_requested;

    if !request.explicit_internal_mock_chain_requested {
        return blocked(mode, false, false, false, false, explicit, concat2(CHK_EXPLICIT_FLAG, SACR_FLAG_TAIL));
    }

    let gate = evaluate_write_gate();
    if !write_gate_is_disabled(&gate) {
        return blocked(mode, false, false, false, false, explicit, concat2(CHK_WRITE_GATE, SACR_GATE_TAIL));
    }

    // Simulator probe.
    let sim_req = SandboxRestoreSimulatorRequest {
        mode: SandboxRestoreSimulatorMode::SandboxOnlyInternalSimulation,
        explicit_internal_simulation_requested: true,
        sandbox_verification_safe: request.sandbox_verified,
        target_empty_safe: request.target_base_empty,
        confirmation_gate_declared: request.confirmation_gate_declared,
        destructive_operation_policy_safe: request.destructive_operation_policy_safe,
        attachment_phase_disabled_safe: request.attachment_phase_disabled_safe,
        live_write_readiness_safe: request.live_write_readiness_safe,
        write_phase_ordering_safe: request.write_phase_ordering_safe,
        failure_modes_safe: request.failure_modes_safe,
        rollback_limitation_safe: request.rollback_limitation_safe,
        checkpoint_durability_safe: request.checkpoint_durability_safe,
        sensitive_data_safe: request.sensitive_data_safe,
        final_validation_enforcement_safe: request.final_validation_enforcement_safe,
        rate_limit_backoff_safe: request.rate_limit_backoff_safe,
    };
    assert(sim_req == sacr_simulator_request(*request));
    let sim_result = run_sandbox_restore_simulator(&sim_req);
    let simulated = match sim_result.status {
        SandboxRestoreSimulatorStatus::SimulatedNotExecuted => true,
        SandboxRestoreSimulatorStatus::Blocked => false,
    };
    if !simulated {
        return blocked(mode, false, false, false, false, explicit, concat2(CHK_SIMULATOR, SACR_SIMULATOR_TAIL));
    }

    // Schema adapter.
    let schema_req = SandboxSchemaWriteAdapterRequest {
        mode: SandboxSchemaWriteAdapterMode::SandboxOnlyInternal,
        explicit_internal_schema_sandbox_call_requested: true,
        sandbox_verified: request.sandbox_verified,
        target_base_empty: request.target_base_empty,
        confirmation_gate_declared: request.confirmation_gate_declared,
        destructive_operation_policy_safe: request.destructive_operation_policy_safe,
        attachment_phase_disabled_safe: request.attachment_phase_disabled_safe,
        live_write_readiness_safe: request.live_write_readiness_safe,
        write_phase_ordering_safe: request.write_phase_ordering_safe,
        failure_modes_safe: request.failure_modes_safe,
        rollback_limitation_safe: request.rollback_limitation_safe,
        checkpoint_durability_safe: request.checkpoint_durability_safe,
        sensitive_data_safe: request.sensitive_data_safe,
        final_validation_enforcement_safe: request.final_validation_enforcement_safe,
        rate_limit_backoff_safe: request.rate_limit_backoff_safe,
    };
    assert(schema_req == sacr_schema_request(*request));
    let schema_result = build_sandbox_schema_write_adapter(&schema_req, schema_plan);
    let schema_ready = match schema_result.status {
        SandboxSchemaWriteAdapterStatus::ReadyForSandboxCall => true,
        _ => false,
    };
    if !schema_ready {
        return blocked(mode, true, false, false, false, explicit, concat2(CHK_SCHEMA_ADAPTER, SACR_SCHEMA_TAIL));
    }
    let schema_op_count = schema_result.total_operation_count;

    // Record adapter.
    let record_req = SandboxRecordWriteAdapterRequest {
        mode: SandboxRecordWriteAdapterMode::SandboxOnlyInternal,
        explicit_internal_record_sandbox_call_requested: true,
        sandbox_verified: request.sandbox_verified,
        target_base_empty: request.target_base_empty,
        confirmation_gate_declared: request.confirmation_gate_declared,
        destructive_operation_policy_safe: request.destructive_operation_policy_safe,
        attachment_phase_disabled_safe: request.attachment_phase_disabled_safe,
        live_write_readiness_safe: request.live_write_readiness_safe,
        write_phase_ordering_safe: request.write_phase_ordering_safe,
        failure_modes_safe: request.failure_modes_safe,
        rollback_limitation_safe: request.rollback_limitation_safe,
        checkpoint_durability_safe: request.checkpoint_durability_safe,
        sensitive_data_safe: request.sensitive_data_safe,
        final_validation_enforcement_safe: request.final_validation_enforcement_safe,
        rate_limit_backoff_safe: request.rate_limit_backoff_safe,
        schema_executor_safe: request.schema_executor_safe,
        checkpoint_store_safe: request.checkpoint_store_safe,
    };
    assert(record_req == sacr_record_request(*request));
    assert(srwa_status(record_req, record_plan.status, schema_plan.status)
        == SandboxRecordWriteAdapterStatus::ReadyForSandboxCall
        ==> sacr_record_probe_ready(*request, schema_plan.status, record_plan.status));
    let record_result = build_sandbox_record_write_adapter(&record_req, record_plan, schema_plan);
    let record_ready = match record_result.status {
        SandboxRecordWriteAdapterStatus::ReadyForSandboxCall => true,
        _ => false,
    };
    if !record_ready {
        return blocked(mode, true, true, false, false, explicit, concat2(CHK_RECORD_ADAPTER, SACR_RECORD_TAIL));
    }
    let record_op_count = record_result.total_operation_count;

    // Linked second-pass adapter.
    let linked_req = SandboxLinkedSecondPassAdapterRequest {
        mode: SandboxLinkedSecondPassAdapterMode::SandboxOnlyInternal,
        explicit_internal_linked_sandbox_call_requested: true,
        sandbox_verified: request.sandbox_verified,
        target_base_empty: request.target_base_empty,
        mapping_coverage_sufficient: request.mapping_coverage_sufficient,
        confirmation_gate_declared: request.confirmation_gate_declared,
        destructive_operation_policy_safe: request.destructive_operation_policy_safe,
        attachment_phase_disabled_safe: request.attachment_phase_disabled_safe,
        live_write_readiness_safe: request.live_write_readiness_safe,
        write_phase_ordering_safe: request.write_phase_ordering_safe,
        failure_modes_safe: request.failure_modes_safe,
        rollback_limitation_safe: request.rollback_limitation_safe,
        checkpoint_durability_safe: request.checkpoint_durability_safe,
        sensitive_data_safe: request.sensitive_data_safe,
        final_validation_enforcement_safe: request.final_validation_enforcement_safe,
        rate_limit_backoff_safe: request.rate_limit_backoff_safe,
        schema_executor_safe: request.schema_executor_safe,
        checkpoint_store_safe: request.checkpoint_store_safe,
        record_executor_safe: request.record_executor_safe,
        linked_second_pass_preview_ready: request.linked_second_pass_preview_ready,
        mapping_checkpoint_preview_ready: request.mapping_checkpoint_preview_ready,
        field_summaries: copy_field_summaries(&request.field_summaries),
    };
    assert(slpa_record_probe_ready(linked_req, record_plan.status, schema_plan.status)
        ==> sacr_record_probe_ready(*request, schema_plan.status, record_plan.status));
    let linked_result = build_sandbox_linked_second_pass_adapter(&linked_req, schema_plan, record_plan);
    let linked_ready = match linked_result.status {
        SandboxLinkedSecondPassAdapterStatus::ReadyForSandboxCall => true,
        _ => false,
    };
    if !linked_ready {
        return blocked(mode, true, true, true, false, explicit, concat2(CHK_LINKED_ADAPTER, SACR_LINKED_TAIL));
    }
    let linked_op_count = linked_result.total_operation_count;

    // Final validation adapter.
    let fv_req = SandboxFinalValidationAdapterRequest {
        mode: SandboxFinalValidationAdapterMode::SandboxOnlyInternal,
        explicit_internal_validation_sandbox_call_requested: true,
        sandbox_verified: request.sandbox_verified,
        final_validation_enforcement_safe: request.final_validation_enforcement_safe,
        confirmation_gate_declared: request.confirmation_gate_declared,
        destructive_operation_policy_safe: request.destructive_operation_policy_safe,
        attachment_phase_disabled_safe: request.attachment_phase_disabled_safe,
        live_write_readiness_safe: request.live_write_readiness_safe,
        write_phase_ordering_safe: request.write_phase_ordering_safe,
        failure_modes_safe: request.failure_modes_safe,
        rollback_limitation_safe: request.rollback_limitation_safe,
        checkpoint_durability_safe: request.checkpoint_durability_safe,
        sensitive_data_safe: request.sensitive_data_safe,
        rate_limit_backoff_safe: request.rate_limit_backoff_safe,
        schema_executor_safe: request.schema_executor_safe,
        checkpoint_store_safe: request.checkpoint_store_safe,
        record_executor_safe: request.record_executor_safe,
        linked_executor_safe: request.linked_executor_safe,
        linked_second_pass_preview_ready: request.linked_second_pass_preview_ready,
        mapping_checkpoint_preview_ready: request.mapping_checkpoint_preview_ready,
        target_base_empty: request.target_base_empty,
        mapping_coverage_sufficient: request.mapping_coverage_sufficient,
        field_summaries: copy_field_summaries(&request.field_summaries),
        table_count: request.table_count,
        field_count: request.field_count,
        record_count: request.record_count,
        id_mapping_entry_count: request.id_mapping_entry_count,
        linked_coverage_count: request.linked_coverage_count,
        attachment_metadata_count: request.attachment_metadata_count,
        manifest_present: request.manifest_present,
    };
    assert(sfva_record_probe_ready(fv_req, schema_plan.status, record_plan.status)
        ==> sacr_record_probe_ready(*request, schema_plan.status, record_plan.status));
    let fv_result = build_sandbox_final_validation_adapter(&fv_req, schema_plan, record_plan);
    let fv_ready = match fv_result.status {
        SandboxFinalValidationAdapterStatus::ReadyForSandboxCall => true,
        _ => false,
    };
    if !fv_ready {
        return blocked(mode, true, true, true, true, explicit,
            concat2(CHK_FINAL_VALIDATION_ADAPTER, SACR_FINAL_VALIDATION_TAIL));
    }
    let fv_op_count = fv_result.total_operation_count;

    let mut phases: Vec<SandboxAdapterChainRunnerPhase> = Vec::new();
    phases.push(observed_phase(SACR_PH_01, SACR_LABEL_01, schema_op_count, SACR_NOTE_01_PREFIX,
        SACR_NOTE_01_SUFFIX));
    phases.push(observed_phase(SACR_PH_02, SACR_LABEL_02, record_op_count, SACR_NOTE_02_PREFIX,
        SACR_NOTE_02_SUFFIX));
    phases.push(observed_phase(SACR_PH_03, SACR_LABEL_03, linked_op_count, SACR_NOTE_03_PREFIX,
        SACR_NOTE_03_SUFFIX));
    phases.push(observed_phase(SACR_PH_04, SACR_LABEL_04, fv_op_count, SACR_NOTE_04_PREFIX,
        SACR_NOTE_04_SUFFIX));
    let total_phase_count = phases.len();

    let mut message = String::from_str(SACR_MSG_ALL);
    push_decimal(&mut message, total_phase_count);
    message.append(SACR_MSG_SCHEMA);
    push_decimal(&mut message, schema_op_count);
    message.append(SACR_MSG_RECORD);
    push_decimal(&mut message, record_op_count);
    message.append(SACR_MSG_LINKED);
    push_decimal(&mut message, linked_op_count);
    message.append(SACR_MSG_FINAL);
    push_decimal(&mut message, fv_op_count);
    message.append(SACR_MSG_SUFFIX);

    SandboxAdapterChainRunnerResult {
        status: SandboxAdapterChainRunnerStatus::MockRunNotExecuted,
        mode: SandboxAdapterChainRunnerMode::MockInternalOnly,
        message,
        phases,
        safety_snapshot: SandboxAdapterChainRunnerSafetySnapshot {
            write_gate_disabled: true,
            simulator_simulated_not_executed: true,
            schema_adapter_ready: true,
            record_adapter_ready: true,
            linked_adapter_ready: true,
            final_validation_adapter_ready: true,
            explicit_mock_chain_flag_set: true,
            runtime_execution_enabled: false,
            app_runtime_writes_enabled: false,
            app_runtime_reads_enabled: false,
            network_reads_attempted: false,
            network_writes_attempted: false,
            airtable_client_called: false,
        },
        total_phase_count,
        schema_operation_count: schema_op_count,
        record_operation_count: record_op_count,
        linked_operation_count: linked_op_count,
        final_validation_operation_count: fv_op_count,
        blocked_reason: None,
        no_changes_made: true,
        network_reads_attempted: false,
        network_writes_attempted: false,
        airtable_client_called: false,
        runtime_execution_enabled: false,
        app_runtime_writes_enabled: false,
        app_runtime_reads_enabled: false,
    }
}

} // verus!
