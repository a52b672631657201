//! Sandbox final validation adapter boundary. After the arming decision, the
//! simulator, the final validation reader and the schema, record and linked
//! adapters all reach their best non-executing state, the validation reads
//! are described (`Planned`): table, field and record counts, linked field
//! coverage, attachment metadata, the manifest checksums when a manifest is
//! present, and a final completion guard. No read or write is made.

use vstd::prelude::*;
use vstd::string::*;
use crate::final_validation_reader::{
    build_final_validation_reader_plan, FinalValidationReaderMode, FinalValidationReaderRequest,
    FinalValidationReaderStatus,
};
use crate::linked_second_pass_execution_preview::{copy_field_summaries, LinkedSecondPassFieldSummary};
use crate::record_write_requests::{RecordWriteOperationStatus, RecordWriteRequestPlan};
use crate::sandbox_gate_arming::{
    arming_prerequisites_hold, build_sandbox_gate_arming_decision, SandboxGateArmingMode,
    SandboxGateArmingRequest, SandboxGateArmingStatus,
};
use crate::sandbox_linked_second_pass_adapter::{
    build_sandbox_linked_second_pass_adapter, slpa_record_probe_ready,
    SandboxLinkedSecondPassAdapterMode,
    SandboxLinkedSecondPassAdapterRequest, SandboxLinkedSecondPassAdapterStatus,
};
use crate::sandbox_record_write_adapter::{
    build_sandbox_record_write_adapter, planned_record_total, srwa_status,
    SandboxRecordWriteAdapterMode,
    SandboxRecordWriteAdapterRequest, SandboxRecordWriteAdapterStatus,
};
use crate::sandbox_restore_simulator::{
    run_sandbox_restore_simulator, SandboxRestoreSimulatorMode, SandboxRestoreSimulatorRequest,
    SandboxRestoreSimulatorStatus,
};
use crate::sandbox_schema_write_adapter::{
    build_sandbox_schema_write_adapter, SandboxSchemaWriteAdapterMode,
    SandboxSchemaWriteAdapterRequest, SandboxSchemaWriteAdapterStatus,
};
use crate::schema_write_requests::{SchemaWriteOperationStatus, SchemaWriteRequestPlan};
use crate::text::{concat2, concat3, decimal, decimal_pad3, push_decimal, push_decimal_pad3};
use crate::write_gate::{evaluate_write_gate, write_gate_is_disabled};

verus! {

#[derive(Debug, Clone, Copy, PartialEq, Eq, Structural)]
pub enum SandboxFinalValidationAdapterStatus {
    /// A required prerequisite is missing or unsafe.
    Blocked,
    /// The read descriptors are built; no read has been made.
    ReadyForSandboxCall,
    /// Disabled mode: no evaluation is performed. Default state.
    NotExecuted,
}

#[derive(Debug, Clone, Copy, PartialEq, Eq, Structural)]
pub enum SandboxFinalValidationAdapterMode {
    Disabled,
    SandboxOnlyInternal,
}

#[derive(Debug, Clone, Copy, PartialEq, Eq, Structural)]
pub enum SandboxFinalValidationAdapterOperationStatus {
    Planned,
    Blocked,
    NotExecuted,
}

#[derive(Debug, Clone)]
pub struct SandboxFinalValidationAdapterOperation {
    pub operation_id: String,
    pub operation_kind: String,
    pub expected_count: usize,
    pub status: SandboxFinalValidationAdapterOperationStatus,
    pub note: String,
}

#[derive(Debug, Clone)]
pub struct SandboxFinalValidationAdapterSafetySnapshot {
    pub write_gate_disabled: bool,
    pub gate_arming_armed_not_executable: bool,
    pub simulator_simulated_not_executed: bool,
    pub final_validation_reader_not_executed: bool,
    pub schema_adapter_ready: bool,
    pub record_adapter_ready: bool,
    pub linked_adapter_ready: bool,
    pub final_validation_enforcement_safe: bool,
    pub sandbox_verified: bool,
    pub explicit_validation_sandbox_flag_set: bool,
    pub runtime_execution_enabled: bool,
    pub app_runtime_writes_enabled: bool,
    pub app_runtime_reads_enabled: bool,
    pub network_reads_attempted: bool,
    pub network_writes_attempted: bool,
}

#[derive(Debug, Clone)]
pub struct SandboxFinalValidationAdapterRequest {
    pub mode: SandboxFinalValidationAdapterMode,
    pub explicit_internal_validation_sandbox_call_requested: bool,
    pub sandbox_verified: bool,
    pub final_validation_enforcement_safe: bool,
    pub confirmation_gate_declared: bool,
    pub destructive_operation_policy_safe: bool,
    pub attachment_phase_disabled_safe: bool,
    pub live_write_readiness_safe: bool,
    pub write_phase_ordering_safe: bool,
    pub failure_modes_safe: bool,
    pub rollback_limitation_safe: bool,
    pub checkpoint_durability_safe: bool,
    pub sensitive_data_safe: bool,
    pub rate_limit_backoff_safe: bool,
    pub schema_executor_safe: bool,
    pub checkpoint_store_safe: bool,
    pub record_executor_safe: bool,
    pub linked_executor_safe: bool,
    pub linked_second_pass_preview_ready: bool,
    pub mapping_checkpoint_preview_ready: bool,
    pub target_base_empty: bool,
    pub mapping_coverage_sufficient: bool,
    pub field_summaries: Vec<LinkedSecondPassFieldSummary>,
    pub table_count: usize,
    pub field_count: usize,
    pub record_count: usize,
    pub id_mapping_entry_count: usize,
    pub linked_coverage_count: usize,
    pub attachment_metadata_count: usize,
    pub manifest_present: bool,
}

#[derive(Debug, Clone)]
pub struct SandboxFinalValidationAdapterResult {
    pub status: SandboxFinalValidationAdapterStatus,
    pub mode: SandboxFinalValidationAdapterMode,
    pub message: String,
    pub operations: Vec<SandboxFinalValidationAdapterOperation>,
    pub safety_snapshot: SandboxFinalValidationAdapterSafetySnapshot,
    pub total_operation_count: usize,
    pub blocked_reason: Option<String>,
    pub no_changes_made: bool,
    pub network_reads_attempted: bool,
    pub network_writes_attempted: bool,
    pub runtime_execution_enabled: bool,
    pub app_runtime_writes_enabled: bool,
    pub app_runtime_reads_enabled: bool,
}

pub const CHK_MODE: &'static str = "SFVA-CHK-01";
pub const CHK_EXPLICIT_FLAG: &'static str = "SFVA-CHK-02";
pub const CHK_WRITE_GATE: &'static str = "SFVA-CHK-03";
pub const CHK_ARMING: &'static str = "SFVA-CHK-04";
pub const CHK_SIMULATOR: &'static str = "SFVA-CHK-05";
pub const CHK_READER: &'static str = "SFVA-CHK-06";
pub const CHK_SCHEMA_ADAPTER: &'static str = "SFVA-CHK-07";
pub const CHK_RECORD_ADAPTER: &'static str = "SFVA-CHK-08";
pub const CHK_LINKED_ADAPTER: &'static str = "SFVA-CHK-09";
pub const CHK_ENFORCEMENT: &'static str = "SFVA-CHK-10";
pub const CHK_SANDBOX_VERIFIED: &'static str = "SFVA-CHK-11";

pub const SFVA_MODE_TAIL: &'static str =
    ": Adapter mode is disabled. No evaluation is performed. This is the default state.";
pub const SFVA_NO_CHANGES_SUFFIX: &'static str =
    " No Airtable API calls were made. No changes were made. Runtime execution, writes, reads, and network reads remain disabled.";
pub const SFVA_BLOCKED_PREFIX: &'static str = "Sandbox final validation adapter is blocked. ";
pub const SFVA_FLAG_MESSAGE: &'static str =
    "Explicit internal validation sandbox call flag is not set. This flag must be explicitly true before adapter evaluation can proceed. No UI control, Tauri command, or runtime path sets this flag.";
pub const SFVA_FLAG_TAIL: &'static str =
    ": explicit_internal_validation_sandbox_call_requested must be true.";
pub const SFVA_GATE_MESSAGE: &'static str =
    "evaluate_write_gate() did not return Disabled/DisabledByProductPolicy. This is a critical safety violation. Adapter evaluation cannot proceed.";
pub const SFVA_GATE_TAIL: &'static str =
    ": evaluate_write_gate() must return Disabled/DisabledByProductPolicy.";
pub const SFVA_ARMING_MESSAGE: &'static str =
    "Sandbox gate arming decision did not return ArmedNotExecutable. All arming prerequisites must be satisfied before the final validation adapter boundary can proceed.";
pub const SFVA_ARMING_TAIL: &'static str =
    ": sandbox gate arming decision must return ArmedNotExecutable.";
pub const SFVA_SIMULATOR_MESSAGE: &'static str =
    "Sandbox restore simulator did not return SimulatedNotExecuted. All simulation prerequisites must be satisfied before the final validation adapter boundary can proceed.";
pub const SFVA_SIMULATOR_TAIL: &'static str =
    ": sandbox restore simulator must return SimulatedNotExecuted.";
pub const SFVA_READER_MESSAGE: &'static str =
    "Final validation reader plan did not return NotExecuted. A safe/not-executed reader plan is required before the final validation adapter boundary can proceed.";
pub const SFVA_READER_TAIL: &'static str = ": final validation reader plan must return NotExecuted.";
pub const SFVA_SCHEMA_ADAPTER_MESSAGE: &'static str =
    "Schema write adapter boundary did not return ReadyForSandboxCall. The schema adapter must be ready before the final validation adapter boundary can proceed.";
pub const SFVA_SCHEMA_ADAPTER_TAIL: &'static str =
    ": schema write adapter must return ReadyForSandboxCall.";
pub const SFVA_RECORD_ADAPTER_MESSAGE: &'static str =
    "Record write adapter boundary did not return ReadyForSandboxCall. The record adapter must be ready before the final validation adapter boundary can proceed.";
pub const SFVA_RECORD_ADAPTER_TAIL: &'static str =
    ": record write adapter must return ReadyForSandboxCall.";
pub const SFVA_LINKED_ADAPTER_MESSAGE: &'static str =
    "Linked second-pass adapter boundary did not return ReadyForSandboxCall. The linked adapter must be ready before the final validation adapter boundary can proceed.";
pub const SFVA_LINKED_ADAPTER_TAIL: &'static str =
    ": linked second-pass adapter must return ReadyForSandboxCall.";
pub const SFVA_ENFORCEMENT_MESSAGE: &'static str =
    "Final validation enforcement policy is not safe. All three completion guards must be declared before validation read descriptors can be built.";
pub const SFVA_ENFORCEMENT_TAIL: &'static str = ": final_validation_enforcement_safe must be true.";
pub const SFVA_SANDBOX_MESSAGE: &'static str =
    "Sandbox environment verification has not passed. A verified sandbox target is required before final validation adapter can proceed.";
pub const SFVA_SANDBOX_TAIL: &'static str = ": sandbox_verified must be true.";

pub const SFVA_OP_PREFIX: &'static str = "SFVA-OP-";
pub const SFVA_KIND_SCHEMA: &'static str = "schemaCountReadDescriptor";
pub const SFVA_KIND_FIELD: &'static str = "fieldCountReadDescriptor";
pub const SFVA_KIND_RECORD: &'static str = "recordCountReadDescriptor";
pub const SFVA_KIND_LINKED: &'static str = "linkedFieldCoverageReadDescriptor";
pub const SFVA_KIND_ATTACHMENT: &'static str = "attachmentMetadataReadDescriptor";
pub const SFVA_KIND_MANIFEST: &'static str = "manifestChecksumReadDescriptor";
pub const SFVA_KIND_GUARD: &'static str = "finalGuardDescriptor";

pub const SFVA_NOTE_SCHEMA_PREFIX: &'static str =
    "Would read table list from Airtable and compare against ";
pub const SFVA_NOTE_SCHEMA_SUFFIX: &'static str =
    " expected table(s). Read gate disabled \u{2014} no network call made. No record IDs exposed.";
pub const SFVA_NOTE_FIELD_PREFIX: &'static str =
    "Would read field definitions from Airtable and compare against ";
pub const SFVA_NOTE_FIELD_SUFFIX: &'static str =
    " expected field(s). Read gate disabled \u{2014} no network call made. No record IDs exposed.";
pub const SFVA_NOTE_RECORD_PREFIX: &'static str =
    "Would read record count from Airtable and compare against ";
pub const SFVA_NOTE_RECORD_SUFFIX: &'static str =
    " expected record(s). No raw record IDs returned. Read gate disabled \u{2014} no network call made.";
pub const SFVA_NOTE_LINKED_PREFIX: &'static str = "Would verify linked field coverage for ";
pub const SFVA_NOTE_LINKED_SUFFIX: &'static str =
    " entry/entries. No raw record IDs returned. Read gate disabled \u{2014} no network call made.";
pub const SFVA_NOTE_ATTACHMENT_PREFIX: &'static str =
    "Would read attachment metadata (filename, MIME type, size) for ";
pub const SFVA_NOTE_ATTACHMENT_SUFFIX: &'static str =
    " entry/entries. Metadata inspection only \u{2014} no binary retrieval, no attachment URL returned. Read gate disabled \u{2014} no network call made.";
pub const SFVA_NOTE_MANIFEST: &'static str =
    "Would compare package manifest checksums against restored base state. Read gate disabled \u{2014} no network call made. No attachment URL returned.";
pub const SFVA_NOTE_GUARD: &'static str =
    "Completion guard: no result can carry a success status without all prior read descriptors planned. Read gate disabled \u{2014} guard is a descriptor only. No network call made.";

pub const SFVA_READY_PREFIX: &'static str = "Sandbox final validation adapter boundary is ready (";
pub const SFVA_READY_SUFFIX: &'static str =
    " read descriptor(s)). No Airtable network call was made. No runtime execution is enabled. No app runtime writes or reads are enabled. No network reads attempted. No changes were made. This adapter boundary is for sandbox tests only and is not reachable from UI, TypeScript, or any Tauri command.";

// ── Adapter trait (no-op and mock) ───────────────────────────────────────────

/// A final validation read adapter reports how many reads it plans.
pub trait FinalValidationReadAdapter {
    fn planned_operation_count(&self) -> usize;
}

/// An adapter that plans nothing.
pub struct NoOpFinalValidationReadAdapter;

impl FinalValidationReadAdapter for NoOpFinalValidationReadAdapter {
    fn planned_operation_count(&self) -> (n: usize)
        ensures
            n == 0,
    {
        0
    }
}

/// An adapter that plans a configured number of reads.
pub struct MockFinalValidationReadAdapter {
    pub operation_count: usize,
}

impl FinalValidationReadAdapter for MockFinalValidationReadAdapter {
    fn planned_operation_count(&self) -> (n: usize)
        ensures
            n == self.operation_count,
    {
        self.operation_count
    }
}

// ── Specification ────────────────────────────────────────────────────────────

/// The arming request the adapter probes.
pub open spec fn sfva_arming_request(r: SandboxFinalValidationAdapterRequest) -> SandboxGateArmingRequest {
    SandboxGateArmingRequest {
        mode: SandboxGateArmingMode::SandboxOnlyInternal,
        explicit_internal_sandbox_arming_requested: true,
        sandbox_verification_safe: r.sandbox_verified,
        target_empty_safe: r.target_base_empty,
        confirmation_gate_declared: r.confirmation_gate_declared,
        destructive_operation_policy_safe: r.destructive_operation_policy_safe,
        attachment_phase_disabled_safe: r.attachment_phase_disabled_safe,
        live_write_readiness_safe: r.live_write_readiness_safe,
        write_phase_ordering_safe: r.write_phase_ordering_safe,
        failure_modes_safe: r.failure_modes_safe,
        rollback_limitation_safe: r.rollback_limitation_safe,
        checkpoint_durability_safe: r.checkpoint_durability_safe,
        sensitive_data_safe: r.sensitive_data_safe,
        final_validation_enforcement_safe: r.final_validation_enforcement_safe,
        rate_limit_backoff_safe: r.rate_limit_backoff_safe,
    }
}

/// Whether the caller-declared safety prerequisites of the arming probe hold.
pub open spec fn sfva_prerequisites_hold(r: SandboxFinalValidationAdapterRequest) -> bool {
    arming_prerequisites_hold(sfva_arming_request(r))
}

/// Whether the reader probe reports `NotExecuted`, once the arming
/// prerequisites hold.
pub open spec fn sfva_reader_ready(r: SandboxFinalValidationAdapterRequest) -> bool {
    r.schema_executor_safe && r.record_executor_safe && r.linked_executor_safe
        && r.linked_second_pass_preview_ready && r.final_validation_enforcement_safe
        && r.sensitive_data_safe
}

/// Whether the record adapter probe is ready, once the earlier probes are.
pub open spec fn sfva_record_adapter_ready(
    r: SandboxFinalValidationAdapterRequest,
    record_plan_status: RecordWriteOperationStatus,
) -> bool {
    r.rate_limit_backoff_safe && r.checkpoint_store_safe
        && record_plan_status != RecordWriteOperationStatus::Blocked
}

/// Whether the record adapter probe is reached and reports
/// `ReadyForSandboxCall`, so that it sums the planned records of the plan.
pub open spec fn sfva_record_probe_ready(
    r: SandboxFinalValidationAdapterRequest,
    schema_plan_status: SchemaWriteOperationStatus,
    record_plan_status: RecordWriteOperationStatus,
) -> bool {
    &&& r.mode == SandboxFinalValidationAdapterMode::SandboxOnlyInternal
    &&& r.explicit_internal_validation_sandbox_call_requested
    &&& sfva_prerequisites_hold(r)
    &&& sfva_reader_ready(r)
    &&& schema_plan_status != SchemaWriteOperationStatus::Blocked
    &&& sfva_record_adapter_ready(r, record_plan_status)
}

/// Whether the linked adapter probe is ready, once the earlier probes are.
pub open spec fn sfva_linked_adapter_ready(r: SandboxFinalValidationAdapterRequest) -> bool {
    r.mapping_checkpoint_preview_ready && r.mapping_coverage_sufficient
}

/// The status of the adapter for a request and the statuses of the plans.
pub open spec fn sfva_status(
    r: SandboxFinalValidationAdapterRequest,
    schema_plan_status: SchemaWriteOperationStatus,
    record_plan_status: RecordWriteOperationStatus,
) -> SandboxFinalValidationAdapterStatus {
    if r.mode == SandboxFinalValidationAdapterMode::Disabled {
        SandboxFinalValidationAdapterStatus::NotExecuted
    } else if !r.explicit_internal_validation_sandbox_call_requested || !sfva_prerequisites_hold(r)
        || !sfva_reader_ready(r) || schema_plan_status == SchemaWriteOperationStatus::Blocked
        || !sfva_record_adapter_ready(r, record_plan_status) || !sfva_linked_adapter_ready(r) {
        SandboxFinalValidationAdapterStatus::Blocked
    } else {
        SandboxFinalValidationAdapterStatus::ReadyForSandboxCall
    }
}

/// The check id of a blocked adapter: the first failing check.
pub open spec fn sfva_blocked_check(
    r: SandboxFinalValidationAdapterRequest,
    schema_plan_status: SchemaWriteOperationStatus,
    record_plan_status: RecordWriteOperationStatus,
) -> nat {
    if !r.explicit_internal_validation_sandbox_call_requested { 2 }
    else if !sfva_prerequisites_hold(r) { 4 }
    else if !sfva_reader_ready(r) { 6 }
    else if schema_plan_status == SchemaWriteOperationStatus::Blocked { 7 }
    else if !sfva_record_adapter_ready(r, record_plan_status) { 8 }
    else { 9 }
}

/// The reason of a blocked adapter, by failing check.
pub open spec fn sfva_blocked_reason(check: nat) -> Seq<char> {
    if check == 2 { CHK_EXPLICIT_FLAG@ + SFVA_FLAG_TAIL@ }
    else if check == 4 { CHK_ARMING@ + SFVA_ARMING_TAIL@ }
    else if check == 6 { CHK_READER@ + SFVA_READER_TAIL@ }
    else if check == 7 { CHK_SCHEMA_ADAPTER@ + SFVA_SCHEMA_ADAPTER_TAIL@ }
    else if check == 8 { CHK_RECORD_ADAPTER@ + SFVA_RECORD_ADAPTER_TAIL@ }
    else { CHK_LINKED_ADAPTER@ + SFVA_LINKED_ADAPTER_TAIL@ }
}

/// The detail of a blocked adapter's message, by failing check.
pub open spec fn sfva_blocked_detail(check: nat) -> Seq<char> {
    if check == 2 { SFVA_FLAG_MESSAGE@ }
    else if check == 4 { SFVA_ARMING_MESSAGE@ }
    else if check == 6 { SFVA_READER_MESSAGE@ }
    else if check == 7 { SFVA_SCHEMA_ADAPTER_MESSAGE@ }
    else if check == 8 { SFVA_RECORD_ADAPTER_MESSAGE@ }
    else { SFVA_LINKED_ADAPTER_MESSAGE@ }
}

/// The snapshot: write gate disabled, nothing enabled, no network read or
/// write; the probe flags given in field order.
pub open spec fn sfva_snapshot_is(
    s: SandboxFinalValidationAdapterSafetySnapshot,
    armed: bool,
    simulated: bool,
    reader: bool,
    schema: bool,
    record: bool,
    linked: bool,
    enforcement: bool,
    sandbox: bool,
    explicit: bool,
) -> bool {
    &&& s.write_gate_disabled
    &&& s.gate_arming_armed_not_executable == armed
    &&& s.simulator_simulated_not_executed == simulated
    &&& s.final_validation_reader_not_executed == reader
    &&& s.schema_adapter_ready == schema
    &&& s.record_adapter_ready == record
    &&& s.linked_adapter_ready == linked
    &&& s.final_validation_enforcement_safe == enforcement
    &&& s.sandbox_verified == sandbox
    &&& s.explicit_validation_sandbox_flag_set == explicit
    &&& !s.runtime_execution_enabled
    &&& !s.app_runtime_writes_enabled
    &&& !s.app_runtime_reads_enabled
    &&& !s.network_reads_attempted
    &&& !s.network_writes_attempted
}

/// The snapshot of a blocked adapter, by failing check: the probes before the
/// failing one are reported passed, and the explicit flag as it was requested.
pub open spec fn sfva_blocked_snapshot(
    s: SandboxFinalValidationAdapterSafetySnapshot,
    r: SandboxFinalValidationAdapterRequest,
    check: nat,
) -> bool {
    sfva_snapshot_is(s, check > 4, check > 5, check > 6, check > 7, check > 8, false,
        r.final_validation_enforcement_safe, r.sandbox_verified,
        r.explicit_internal_validation_sandbox_call_requested)
}

pub open spec fn fva_op_is(
    a: SandboxFinalValidationAdapterOperation,
    idx: nat,
    kind: &str,
    expected: nat,
    note: Seq<char>,
) -> bool {
    &&& a.operation_id@ == SFVA_OP_PREFIX@ + decimal_pad3(idx)
    &&& a.operation_kind@ == kind@
    &&& a.expected_count == expected
    &&& a.status == SandboxFinalValidationAdapterOperationStatus::Planned
    &&& a.note@ == note
}

/// The read descriptors of a ready adapter, in order: table, field and record
/// counts, linked coverage, attachment metadata, the manifest checksums when a
/// manifest is present, and the final guard last.
pub open spec fn fva_ready_ops(ops: Seq<SandboxFinalValidationAdapterOperation>, r: SandboxFinalValidationAdapterRequest) -> bool {
    &&& ops.len() == if r.manifest_present { 7nat } else { 6nat }
    &&& fva_op_is(ops[0], 0, SFVA_KIND_SCHEMA, r.table_count as nat,
        SFVA_NOTE_SCHEMA_PREFIX@ + decimal(r.table_count as nat) + SFVA_NOTE_SCHEMA_SUFFIX@)
    &&& fva_op_is(ops[1], 1, SFVA_KIND_FIELD, r.field_count as nat,
        SFVA_NOTE_FIELD_PREFIX@ + decimal(r.field_count as nat) + SFVA_NOTE_FIELD_SUFFIX@)
    &&& fva_op_is(ops[2], 2, SFVA_KIND_RECORD, r.record_count as nat,
        SFVA_NOTE_RECORD_PREFIX@ + decimal(r.record_count as nat) + SFVA_NOTE_RECORD_SUFFIX@)
    &&& fva_op_is(ops[3], 3, SFVA_KIND_LINKED, r.linked_coverage_count as nat,
        SFVA_NOTE_LINKED_PREFIX@ + decimal(r.linked_coverage_count as nat) + SFVA_NOTE_LINKED_SUFFIX@)
    &&& fva_op_is(ops[4], 4, SFVA_KIND_ATTACHMENT, r.attachment_metadata_count as nat,
        SFVA_NOTE_ATTACHMENT_PREFIX@ + decimal(r.attachment_metadata_count as nat)
            + SFVA_NOTE_ATTACHMENT_SUFFIX@)
    &&& r.manifest_present ==> fva_op_is(ops[5], 5, SFVA_KIND_MANIFEST, 1, SFVA_NOTE_MANIFEST@)
    &&& fva_op_is(ops[ops.len() - 1], (ops.len() - 1) as nat, SFVA_KIND_GUARD, 0, SFVA_NOTE_GUARD@)
}

/// The flags every final validation adapter result carries.
pub open spec fn sfva_result_safe(r: SandboxFinalValidationAdapterResult) -> bool {
    &&& r.no_changes_made
    &&& !r.network_reads_attempted
    &&& !r.network_writes_attempted
    &&& !r.runtime_execution_enabled
    &&& !r.app_runtime_writes_enabled
    &&& !r.app_runtime_reads_enabled
}

/// The simulator request the final validation adapter probes.
pub open spec fn sfva_simulator_request(r: SandboxFinalValidationAdapterRequest) -> SandboxRestoreSimulatorRequest {
    SandboxRestoreSimulatorRequest {
        mode: SandboxRestoreSimulatorMode::SandboxOnlyInternalSimulation,
        explicit_internal_simulation_requested: true,
        sandbox_verification_safe: r.sandbox_verified,
        target_empty_safe: r.target_base_empty,
        confirmation_gate_declared: r.confirmation_gate_declared,
        destructive_operation_policy_safe: r.destructive_operation_policy_safe,
        attachment_phase_disabled_safe: r.attachment_phase_disabled_safe,
        live_write_readiness_safe: r.live_write_readiness_safe,
        write_phase_ordering_safe: r.write_phase_ordering_safe,
        failure_modes_safe: r.failure_modes_safe,
        rollback_limitation_safe: r.rollback_limitation_safe,
        checkpoint_durability_safe: r.checkpoint_durability_safe,
        sensitive_data_safe: r.sensitive_data_safe,
        final_validation_enforcement_safe: r.final_validation_enforcement_safe,
        rate_limit_backoff_safe: r.rate_limit_backoff_safe,
    }
}

/// The final validation reader request the final validation adapter probes.
pub open spec fn sfva_reader_request(r: SandboxFinalValidationAdapterRequest) -> FinalValidationReaderRequest {
    FinalValidationReaderRequest {
        mode: FinalValidationReaderMode::SandboxOnly,
        explicit_internal_final_validation_read_requested: true,
        sandbox_verified: r.sandbox_verified,
        schema_executor_safe: r.schema_executor_safe,
        record_executor_safe: r.record_executor_safe,
        linked_executor_safe: r.linked_executor_safe,
        final_validation_preview_ready: r.linked_second_pass_preview_ready,
        final_validation_enforcement_safe: r.final_validation_enforcement_safe,
        sensitive_data_safe: r.sensitive_data_safe,
        attachment_phase_disabled_safe: r.attachment_phase_disabled_safe,
        table_count: r.table_count,
        field_count: r.field_count,
        record_count: r.record_count,
        id_mapping_entry_count: r.id_mapping_entry_count,
        linked_coverage_count: r.linked_coverage_count,
        attachment_metadata_count: r.attachment_metadata_count,
        manifest_present: r.manifest_present,
    }
}

/// The schema adapter request the final validation adapter probes.
pub open spec fn sfva_schema_adapter_request(r: SandboxFinalValidationAdapterRequest) -> SandboxSchemaWriteAdapterRequest {
    SandboxSchemaWriteAdapterRequest {
        mode: SandboxSchemaWriteAdapterMode::SandboxOnlyInternal,
        explicit_internal_schema_sandbox_call_requested: true,
        sandbox_verified: r.sandbox_verified,
        target_base_empty: r.target_base_empty,
        confirmation_gate_declared: r.confirmation_gate_declared,
        destructive_operation_policy_safe: r.destructive_operation_policy_safe,
        attachment_phase_disabled_safe: r.attachment_phase_disabled_safe,
        live_write_readiness_safe: r.live_write_readiness_safe,
        write_phase_ordering_safe: r.write_phase_ordering_safe,
        failure_modes_safe: r.failure_modes_safe,
        rollback_limitation_safe: r.rollback_limitation_safe,
        checkpoint_durability_safe: r.checkpoint_durability_safe,
        sensitive_data_safe: r.sensitive_data_safe,
        final_validation_enforcement_safe: r.final_validation_enforcement_safe,
        rate_limit_backoff_safe: r.rate_limit_backoff_safe,
    }
}

/// The record adapter request the final validation adapter probes.
pub open spec fn sfva_record_adapter_request(r: SandboxFinalValidationAdapterRequest) -> SandboxRecordWriteAdapterRequest {
    SandboxRecordWriteAdapterRequest {
        mode: SandboxRecordWriteAdapterMode::SandboxOnlyInternal,
        explicit_internal_record_sandbox_call_requested: true,
        sandbox_verified: r.sandbox_verified,
        target_base_empty: r.target_base_empty,
        confirmation_gate_declared: r.confirmation_gate_declared,
        destructive_operation_policy_safe: r.destructive_operation_policy_safe,
        attachment_phase_disabled_safe: r.attachment_phase_disabled_safe,
        live_write_readiness_safe: r.live_write_readiness_safe,
        write_phase_ordering_safe: r.write_phase_ordering_safe,
        failure_modes_safe: r.failure_modes_safe,
        rollback_limitation_safe: r.rollback_limitation_safe,
        checkpoint_durability_safe: r.checkpoint_durability_safe,
        sensitive_data_safe: r.sensitive_data_safe,
        final_validation_enforcement_safe: r.final_validation_enforcement_safe,
        rate_limit_backoff_safe: r.rate_limit_backoff_safe,
        schema_executor_safe: r.schema_executor_safe,
        checkpoint_store_safe: r.checkpoint_store_safe,
    }
}

/// The linked adapter request the final validation adapter probes.
pub open spec fn sfva_linked_adapter_request(r: SandboxFinalValidationAdapterRequest) -> SandboxLinkedSecondPassAdapterRequest {
    SandboxLinkedSecondPassAdapterRequest {
        mode: SandboxLinkedSecondPassAdapterMode::SandboxOnlyInternal,
        explicit_internal_linked_sandbox_call_requested: true,
        sandbox_verified: r.sandbox_verified,
        target_base_empty: r.target_base_empty,
        mapping_coverage_sufficient: r.mapping_coverage_sufficient,
        confirmation_gate_declared: r.confirmation_gate_declared,
        destructive_operation_policy_safe: r.destructive_operation_policy_safe,
        attachment_phase_disabled_safe: r.attachment_phase_disabled_safe,
        live_write_readiness_safe: r.live_write_readiness_safe,
        write_phase_ordering_safe: r.write_phase_ordering_safe,
        failure_modes_safe: r.failure_modes_safe,
        rollback_limitation_safe: r.rollback_limitation_safe,
        checkpoint_durability_safe: r.checkpoint_durability_safe,
        sensitive_data_safe: r.sensitive_data_safe,
        final_validation_enforcement_safe: r.final_validation_enforcement_safe,
        rate_limit_backoff_safe: r.rate_limit_backoff_safe,
        schema_executor_safe: r.schema_executor_safe,
        checkpoint_store_safe: r.checkpoint_store_safe,
        record_executor_safe: r.record_executor_safe,
        linked_second_pass_preview_ready: r.linked_second_pass_preview_ready,
        mapping_checkpoint_preview_ready: r.mapping_checkpoint_preview_ready,
        field_summaries: r.field_summaries,
    }
}

// ── Helpers ──────────────────────────────────────────────────────────────────

fn read_descriptor(idx: usize, kind: &str, expected: usize, note: String) -> (a: SandboxFinalValidationAdapterOperation)
    ensures
        fva_op_is(a, idx as nat, kind, expected as nat, note@),
{
    let mut operation_id = String::from_str(SFVA_OP_PREFIX);
    push_decimal_pad3(&mut operation_id, idx);
    SandboxFinalValidationAdapterOperation {
        operation_id,
        operation_kind: String::from_str(kind),
        expected_count: expected,
        status: SandboxFinalValidationAdapterOperationStatus::Planned,
        note,
    }
}

/// `prefix`, the decimal rendering of `n`, then `suffix`.
fn counted_note(prefix: &str, n: usize, suffix: &str) -> (s: String)
    ensures
        s@ == prefix@ + decimal(n as nat) + suffix@,
{
    let mut s = String::from_str(prefix);
    push_decimal(&mut s, n);
    s.append(suffix);
    s
}

fn build_read_descriptors(r: &SandboxFinalValidationAdapterRequest) -> (ops: Vec<SandboxFinalValidationAdapterOperation>)
    ensures
        fva_ready_ops(ops@, *r),
{
    let mut ops: Vec<SandboxFinalValidationAdapterOperation> = Vec::new();
    ops.push(read_descriptor(0, SFVA_KIND_SCHEMA, r.table_count,
        counted_note(SFVA_NOTE_SCHEMA_PREFIX, r.table_count, SFVA_NOTE_SCHEMA_SUFFIX)));
    ops.push(read_descriptor(1, SFVA_KIND_FIELD, r.field_count,
        counted_note(SFVA_NOTE_FIELD_PREFIX, r.field_count, SFVA_NOTE_FIELD_SUFFIX)));
    ops.push(read_descriptor(2, SFVA_KIND_RECORD, r.record_count,
        counted_note(SFVA_NOTE_RECORD_PREFIX, r.record_count, SFVA_NOTE_RECORD_SUFFIX)));
    ops.push(read_descriptor(3, SFVA_KIND_LINKED, r.linked_coverage_count,
        counted_note(SFVA_NOTE_LINKED_PREFIX, r.linked_coverage_count, SFVA_NOTE_LINKED_SUFFIX)));
    ops.push(read_descriptor(4, SFVA_KIND_ATTACHMENT, r.attachment_metadata_count,
        counted_note(SFVA_NOTE_ATTACHMENT_PREFIX, r.attachment_metadata_count,
            SFVA_NOTE_ATTACHMENT_SUFFIX)));
    let mut op_idx: usize = 5;
    if r.manifest_present {
        ops.push(read_descriptor(op_idx, SFVA_KIND_MANIFEST, 1, String::from_str(SFVA_NOTE_MANIFEST)));
        op_idx = op_idx + 1;
    }
    ops.push(read_descriptor(op_idx, SFVA_KIND_GUARD, 0, String::from_str(SFVA_NOTE_GUARD)));
    ops
}

/// A `Blocked` result with the given probe flags, message detail and reason.
fn blocked(
    armed: bool,
    simulated: bool,
    reader: bool,
    schema: bool,
    record: bool,
    linked: bool,
    enforcement: bool,
    sandbox_verified: bool,
    explicit: bool,
    detail: &str,
    blocked_reason: String,
) -> (r: SandboxFinalValidationAdapterResult)
    ensures
        r.status == SandboxFinalValidationAdapterStatus::Blocked,
        r.mode == SandboxFinalValidationAdapterMode::SandboxOnlyInternal,
        r.message@ == SFVA_BLOCKED_PREFIX@ + detail@ + SFVA_NO_CHANGES_SUFFIX@,
        r.blocked_reason matches Some(b) && b@ == blocked_reason@,
        r.operations@.len() == 0,
        r.total_operation_count == 0,
        sfva_snapshot_is(r.safety_snapshot, armed, simulated, reader, schema, record, linked,
            enforcement, sandbox_verified, explicit),
        sfva_result_safe(r),
{
    let gate = evaluate_write_gate();
    let write_gate_disabled = write_gate_is_disabled(&gate);
    SandboxFinalValidationAdapterResult {
        status: SandboxFinalValidationAdapterStatus::Blocked,
        mode: SandboxFinalValidationAdapterMode::SandboxOnlyInternal,
        message: concat3(SFVA_BLOCKED_PREFIX, detail, SFVA_NO_CHANGES_SUFFIX),
        operations: Vec::new(),
        safety_snapshot: SandboxFinalValidationAdapterSafetySnapshot {
            write_gate_disabled,
            gate_arming_armed_not_executable: armed,
            simulator_simulated_not_executed: simulated,
            final_validation_reader_not_executed: reader,
            schema_adapter_ready: schema,
            record_adapter_ready: record,
            linked_adapter_ready: linked,
            final_validation_enforcement_safe: enforcement,
            sandbox_verified,
            explicit_validation_sandbox_flag_set: explicit,
            runtime_execution_enabled: false,
            app_runtime_writes_enabled: false,
            app_runtime_reads_enabled: false,
            network_reads_attempted: false,
            network_writes_attempted: false,
        },
        total_operation_count: 0,
        blocked_reason: Some(blocked_reason),
        no_changes_made: true,
        network_reads_attempted: false,
        network_writes_attempted: false,
        runtime_execution_enabled: false,
        app_runtime_writes_enabled: false,
        app_runtime_reads_enabled: false,
    }
}

// ── Core function ────────────────────────────────────────────────────────────

/// Builds the sandbox final validation adapter boundary.
///
/// Disabled mode returns `NotExecuted` without evaluation. Otherwise the checks
/// run in order: the explicit flag, the write gate, the arming decision, the
/// simulator, the final validation reader and the schema, record and linked
/// adapters as probes, then the enforcement and sandbox declarations; the
/// first that fails blocks the adapter with its `SFVA-CHK-..` reason. When all
/// pass, the read descriptors `SFVA-OP-nnn` are built from the request's
/// expected counts. No read or write is made in any case.
pub fn build_sandbox_final_validation_adapter(
    request: &SandboxFinalValidationAdapterRequest,
    schema_plan: &SchemaWriteRequestPlan,
    record_plan: &RecordWriteRequestPlan,
) -> (result: SandboxFinalValidationAdapterResult)
    requires
        sfva_record_probe_ready(*request, schema_plan.status, record_plan.status)
            ==> planned_record_total(record_plan.operations@) <= usize::MAX,
    ensures
        result.status == sfva_status(*request, schema_plan.status, record_plan.status),
        sfva_result_safe(result),
        result.total_operation_count == result.operations@.len(),
        request.mode == SandboxFinalValidationAdapterMode::SandboxOnlyInternal ==> result.mode == request.mode,
        result.status == SandboxFinalValidationAdapterStatus::NotExecuted ==> {
            &&& result.mode == SandboxFinalValidationAdapterMode::Disabled
            &&& result.message@ == CHK_MODE@ + SFVA_MODE_TAIL@ + SFVA_NO_CHANGES_SUFFIX@
            &&& result.blocked_reason is None
            &&& result.operations@.len() == 0
            &&& sfva_snapshot_is(result.safety_snapshot, false, false, false, false, false, false,
                false, false, false)
        },
        result.status == SandboxFinalValidationAdapterStatus::Blocked ==> {
            let check = sfva_blocked_check(*request, schema_plan.status, record_plan.status);
            &&& result.message@ == SFVA_BLOCKED_PREFIX@ + sfva_blocked_detail(check)
                + SFVA_NO_CHANGES_SUFFIX@
            &&& result.blocked_reason matches Some(b) && b@ == sfva_blocked_reason(check)
            &&& result.operations@.len() == 0
            &&& sfva_blocked_snapshot(result.safety_snapshot, *request, check)
        },
        result.status == SandboxFinalValidationAdapterStatus::ReadyForSandboxCall ==> {
            &&& fva_ready_ops(result.operations@, *request)
            &&& result.message@ == SFVA_READY_PREFIX@ + decimal(result.total_operation_count as nat)
                + SFVA_READY_SUFFIX@
            &&& result.blocked_reason is None
            &&& sfva_snapshot_is(result.safety_snapshot, true, true, true, true, true, true, true,
                true, true)
        },
{
    if let SandboxFinalValidationAdapterMode::Disabled = request.mode {
        return SandboxFinalValidationAdapterResult {
            status: SandboxFinalValidationAdapterStatus::NotExecuted,
            mode: SandboxFinalValidationAdapterMode::Disabled,
            message: concat3(CHK_MODE, SFVA_MODE_TAIL, SFVA_NO_CHANGES_SUFFIX),
            operations: Vec::new(),
            safety_snapshot: SandboxFinalValidationAdapterSafetySnapshot {
                write_gate_disabled: true,
                gate_arming_armed_not_executable: false,
                simulator_simulated_not_executed: false,
                final_validation_reader_not_executed: false,
                schema_adapter_ready: false,
                record_adapter_ready: false,
                linked_adapter_ready: false,
                final_validation_enforcement_safe: false,
                sandbox_verified: false,
                explicit_validation_sandbox_flag_set: false,
                runtime_execution_enabled: false,
                app_runtime_writes_enabled: false,
                app_runtime_reads_enabled: false,
                network_reads_attempted: false,
                network_writes_attempted: false,
            },
            total_operation_count: 0,
            blocked_reason: None,
            no_changes_made: true,
            network_reads_attempted: false,
            network_writes_attempted: false,
            runtime_execution_enabled: false,
            app_runtime_writes_enabled: false,
            app_runtime_reads_enabled: false,
        };
    }

    let enforcement = request.final_validation_enforcement_safe;
    let sandbox = request.sandbox_verified;
    let explicit = request.explicit_internal_validation_sandbox_call_requested;

    if !request.explicit_internal_validation_sandbox_call_requested {
        return blocked(false, false, false, false, false, false, enforcement, sandbox, explicit,
            SFVA_FLAG_MESSAGE, concat2(CHK_EXPLICIT_FLAG, SFVA_FLAG_TAIL));
    }

    let gate = evaluate_write_gate();
    if !write_gate_is_disabled(&gate) {
        return blocked(false, false, false, false, false, false, enforcement, sandbox, explicit,
            SFVA_GATE_MESSAGE, concat2(CHK_WRITE_GATE, SFVA_GATE_TAIL));
    }

    // Arming probe.
    let arming_req = SandboxGateArmingRequest {
        mode: SandboxGateArmingMode::SandboxOnlyInternal,
        explicit_internal_sandbox_arming_requested: true,
        sandbox_verification_safe: request.sandbox_verified,
        target_empty_safe: request.target_base_empty,
        confirmation_gate_declared: request.confirmation_gate_declared,
        destructive_operation_policy_safe: request.destructive_operation_policy_safe,
        attachment_phase_disabled_safe: request.attachment_phase_disabled_safe,
        live_write_readiness_safe: request.live_write_readiness_safe,
        write_phase_ordering_safe: request.write_phase_ordering_safe,
        failure_modes_safe: request.failure_modes_safe,
        rollback_limitation_safe: request.rollback_limitation_safe,
        checkpoint_durability_safe: request.checkpoint_durability_safe,
        sensitive_data_safe: request.sensitive_data_safe,
        final_validation_enforcement_safe: request.final_validation_enforcement_safe,
        rate_limit_backoff_safe: request.rate_limit_backoff_safe,
    };
    assert(arming_req == sfva_arming_request(*request));
    let arming_result = build_sandbox_gate_arming_decision(&arming_req);
    let armed = match arming_result.status {
        SandboxGateArmingStatus::ArmedNotExecutable => true,
        SandboxGateArmingStatus::Blocked => false,
    };
    if !armed {
        return blocked(false, false, false, false, false, false, enforcement, sandbox, explicit,
            SFVA_ARMING_MESSAGE, concat2(CHK_ARMING, SFVA_ARMING_TAIL));
    }

    // Simulator probe.
    let sim_req = SandboxRestoreSimulatorRequest {
        mode: SandboxRestoreSimulatorMode::SandboxOnlyInternalSimulation,
        explicit_internal_simulation_requested: true,
        sandbox_verification_safe: request.sandbox_verified,
        target_empty_safe: request.target_base_empty,
        confirmation_gate_declared: request.confirmation_gate_declared,
        destructive_operation_policy_safe: request.destructive_operation_policy_safe,
        attachment_phase_disabled_safe: request.attachment_phase_disabled_safe,
        live_write_readiness_safe: request.live_write_readiness_safe,
        write_phase_ordering_safe: request.write_phase_ordering_safe,
        failure_modes_safe: request.failure_modes_safe,
        rollback_limitation_safe: request.rollback_limitation_safe,
        checkpoint_durability_safe: request.checkpoint_durability_safe,
        sensitive_data_safe: request.sensitive_data_safe,
        final_validation_enforcement_safe: request.final_validation_enforcement_safe,
        rate_limit_backoff_safe: request.rate_limit_backoff_safe,
    };
    assert(sim_req == sfva_simulator_request(*request));
    let sim_result = run_sandbox_restore_simulator(&sim_req);
    let simulated = match sim_result.status {
        SandboxRestoreSimulatorStatus::SimulatedNotExecuted => true,
        SandboxRestoreSimulatorStatus::Blocked => false,
    };
    if !simulated {
        return blocked(true, false, false, false, false, false, enforcement, sandbox, explicit,
            SFVA_SIMULATOR_MESSAGE, concat2(CHK_SIMULATOR, SFVA_SIMULATOR_TAIL));
    }

    // Final validation reader probe.
    let reader_req = FinalValidationReaderRequest {
        mode: FinalValidationReaderMode::SandboxOnly,
        explicit_internal_final_validation_read_requested: true,
        sandbox_verified: request.sandbox_verified,
        schema_executor_safe: request.schema_executor_safe,
        record_executor_safe: request.record_executor_safe,
        linked_executor_safe: request.linked_executor_safe,
        final_validation_preview_ready: request.linked_second_pass_preview_ready,
        final_validation_enforcement_safe: request.final_validation_enforcement_safe,
        sensitive_data_safe: request.sensitive_data_safe,
        attachment_phase_disabled_safe: request.attachment_phase_disabled_safe,
        table_count: request.table_count,
        field_count: request.field_count,
        record_count: request.record_count,
        id_mapping_entry_count: request.id_mapping_entry_count,
        linked_coverage_count: request.linked_coverage_count,
        attachment_metadata_count: request.attachment_metadata_count,
        manifest_present: request.manifest_present,
    };
    assert(reader_req == sfva_reader_request(*request));
    let reader_result = build_final_validation_reader_plan(&reader_req);
    let reader_not_executed = match reader_result.status {
        FinalValidationReaderStatus::NotExecuted => true,
        FinalValidationReaderStatus::Blocked => false,
    };
    if !reader_not_executed {
        return blocked(true, true, false, false, false, false, enforcement, sandbox, explicit,
            SFVA_READER_MESSAGE, concat2(CHK_READER, SFVA_READER_TAIL));
    }

    // Schema adapter probe.
    let schema_adapter_req = SandboxSchemaWriteAdapterRequest {
        mode: SandboxSchemaWriteAdapterMode::SandboxOnlyInternal,
        explicit_internal_schema_sandbox_call_requested: true,
        sandbox_verified: request.sandbox_verified,
        target_base_empty: request.target_base_empty,
        confirmation_gate_declared: request.confirmation_gate_declared,
        destructive_operation_policy_safe: request.destructive_operation_policy_safe,
        attachment_phase_disabled_safe: request.attachment_phase_disabled_safe,
        live_write_readiness_safe: request.live_write_readiness_safe,
        write_phase_ordering_safe: request.write_phase_ordering_safe,
        failure_modes_safe: request.failure_modes_safe,
        rollback_limitation_safe: request.rollback_limitation_safe,
        checkpoint_durability_safe: request.checkpoint_durability_safe,
        sensitive_data_safe: request.sensitive_data_safe,
        final_validation_enforcement_safe: request.final_validation_enforcement_safe,
        rate_limit_backoff_safe: request.rate_limit_backoff_safe,
    };
    assert(schema_adapter_req == sfva_schema_adapter_request(*request));
    let schema_adapter_result = build_sandbox_schema_write_adapter(&schema_adapter_req, schema_plan);
    let schema_ready = match schema_adapter_result.status {
        SandboxSchemaWriteAdapterStatus::ReadyForSandboxCall => true,
        _ => false,
    };
    if !schema_ready {
        return blocked(true, true, true, false, false, false, enforcement, sandbox, explicit,
            SFVA_SCHEMA_ADAPTER_MESSAGE, concat2(CHK_SCHEMA_ADAPTER, SFVA_SCHEMA_ADAPTER_TAIL));
    }

    // Record adapter probe.
    let record_adapter_req = SandboxRecordWriteAdapterRequest {
        mode: SandboxRecordWriteAdapterMode::SandboxOnlyInternal,
        explicit_internal_record_sandbox_call_requested: true,
        sandbox_verified: request.sandbox_verified,
        target_base_empty: request.target_base_empty,
        confirmation_gate_declared: request.confirmation_gate_declared,
        destructive_operation_policy_safe: request.destructive_operation_policy_safe,
        attachment_phase_disabled_safe: request.attachment_phase_disabled_safe,
        live_write_readiness_safe: request.live_write_readiness_safe,
        write_phase_ordering_safe: request.write_phase_ordering_safe,
        failure_modes_safe: request.failure_modes_safe,
        rollback_limitation_safe: request.rollback_limitation_safe,
        checkpoint_durability_safe: request.checkpoint_durability_safe,
        sensitive_data_safe: request.sensitive_data_safe,
        final_validation_enforcement_safe: request.final_validation_enforcement_safe,
        rate_limit_backoff_safe: request.rate_limit_backoff_safe,
        schema_executor_safe: request.schema_executor_safe,
        checkpoint_store_safe: request.checkpoint_store_safe,
    };
    assert(record_adapter_req == sfva_record_adapter_request(*request));
    assert(srwa_status(record_adapter_req, record_plan.status, schema_plan.status)
        == SandboxRecordWriteAdapterStatus::ReadyForSandboxCall
        ==> sfva_record_probe_ready(*request, schema_plan.status, record_plan.status));
    let record_adapter_result =
        build_sandbox_record_write_adapter(&record_adapter_req, record_plan, schema_plan);
    let record_ready = match record_adapter_result.status {
        SandboxRecordWriteAdapterStatus::ReadyForSandboxCall => true,
        _ => false,
    };
    if !record_ready {
        return blocked(true, true, true, true, false, false, enforcement, sandbox, explicit,
            SFVA_RECORD_ADAPTER_MESSAGE, concat2(CHK_RECORD_ADAPTER, SFVA_RECORD_ADAPTER_TAIL));
    }

    // Linked adapter probe.
    let linked_adapter_req = SandboxLinkedSecondPassAdapterRequest {
        mode: SandboxLinkedSecondPassAdapterMode::SandboxOnlyInternal,
        explicit_internal_linked_sandbox_call_requested: true,
        sandbox_verified: request.sandbox_verified,
        target_base_empty: request.target_base_empty,
        mapping_coverage_sufficient: request.mapping_coverage_sufficient,
        confirmation_gate_declared: request.confirmation_gate_declared,
        destructive_operation_policy_safe: request.destructive_operation_policy_safe,
        attachment_phase_disabled_safe: request.attachment_phase_disabled_safe,
        live_write_readiness_safe: request.live_write_readiness_safe,
        write_phase_ordering_safe: request.write_phase_ordering_safe,
        failure_modes_safe: request.failure_modes_safe,
        rollback_limitation_safe: request.rollback_limitation_safe,
        checkpoint_durability_safe: request.checkpoint_durability_safe,
        sensitive_data_safe: request.sensitive_data_safe,
        final_validation_enforcement_safe: request.final_validation_enforcement_safe,
        rate_limit_backoff_safe: request.rate_limit_backoff_safe,
        schema_executor_safe: request.schema_executor_safe,
        checkpoint_store_safe: request.checkpoint_store_safe,
        record_executor_safe: request.record_executor_safe,
        linked_second_pass_preview_ready: request.linked_second_pass_preview_ready,
        mapping_checkpoint_preview_ready: request.mapping_checkpoint_preview_ready,
        field_summaries: copy_field_summaries(&request.field_summaries),
    };
    assert(slpa_record_probe_ready(linked_adapter_req, record_plan.status, schema_plan.status)
        ==> sfva_record_probe_ready(*request, schema_plan.status, record_plan.status));
    let linked_adapter_result =
        build_sandbox_linked_second_pass_adapter(&linked_adapter_req, schema_plan, record_plan);
    let linked_ready = match linked_adapter_result.status {
        SandboxLinkedSecondPassAdapterStatus::ReadyForSandboxCall => true,
        _ => false,
    };
    if !linked_ready {
        return blocked(true, true, true, true, true, false, enforcement, sandbox, explicit,
            SFVA_LINKED_ADAPTER_MESSAGE, concat2(CHK_LINKED_ADAPTER, SFVA_LINKED_ADAPTER_TAIL));
    }

    if !request.final_validation_enforcement_safe {
        return blocked(true, true, true, true, true, true, false, sandbox, explicit,
            SFVA_ENFORCEMENT_MESSAGE, concat2(CHK_ENFORCEMENT, SFVA_ENFORCEMENT_TAIL));
    }
    if !request.sandbox_verified {
        return blocked(true, true, true, true, true, true, true, false, explicit,
            SFVA_SANDBOX_MESSAGE, concat2(CHK_SANDBOX_VERIFIED, SFVA_SANDBOX_TAIL));
    }

    let operations = build_read_descriptors(request);
    let total_operation_count = operations.len();
    let mut message = String::from_str(SFVA_READY_PREFIX);
    push_decimal(&mut message, total_operation_count);
    message.append(SFVA_READY_SUFFIX);

    SandboxFinalValidationAdapterResult {
        status: SandboxFinalValidationAdapterStatus::ReadyForSandboxCall,
        mode: SandboxFinalValidationAdapterMode::SandboxOnlyInternal,
        message,
        operations,
        safety_snapshot: SandboxFinalValidationAdapterSafetySnapshot {
            write_gate_disabled: true,
            gate_arming_armed_not_executable: true,
            simulator_simulated_not_executed: true,
            final_validation_reader_not_executed: true,
            schema_adapter_ready: true,
            record_adapter_ready: true,
            linked_adapter_ready: true,
            final_validation_enforcement_safe: true,
            sandbox_verified: true,
            explicit_validation_sandbox_flag_set: true,
            runtime_execution_enabled: false,
            app_runtime_writes_enabled: false,
            app_runtime_reads_enabled: false,
            network_reads_attempted: false,
            network_writes_attempted: false,
        },
        total_operation_count,
        blocked_reason: None,
        no_changes_made: true,
        network_reads_attempted: false,
        network_writes_attempted: false,
        runtime_execution_enabled: false,
        app_runtime_writes_enabled: false,
        app_runtime_reads_enabled: false,
    }
}

} // verus!
