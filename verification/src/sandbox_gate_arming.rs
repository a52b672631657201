//! Sandbox-only internal gate arming decision. When the readiness report, the
//! gate contract and the harness all reach their best state, an explicit
//! internal request yields `ArmedNotExecutable`: the decision object says
//! "armed", but execution, writes and reads stay disabled and nothing global
//! changes.

use vstd::prelude::*;
use vstd::string::*;
use crate::sandbox_enablement_readiness::{
    build_sandbox_enablement_readiness_report, readiness_status, readiness_status_label,
    readiness_status_name, SandboxEnablementReadinessRequest, SandboxEnablementReadinessStatus,
};
use crate::sandbox_gate_contract::{
    evaluate_sandbox_gate_contract, gate_contract_status_label, SandboxGateContractMode,
    SandboxGateContractRequest, SandboxGateContractStatus,
};
use crate::sandbox_restore_harness::{
    build_sandbox_restore_harness_plan, harness_status_label,
    SandboxRestoreHarnessMode, SandboxRestoreHarnessRequest, SandboxRestoreHarnessStatus,
};
use crate::text::concat3;
use crate::write_gate::{evaluate_write_gate, write_gate_is_disabled};

verus! {

#[derive(Debug, Clone, Copy, PartialEq, Eq, Structural)]
pub enum SandboxGateArmingStatus {
    /// A required prerequisite is missing or unsafe.
    Blocked,
    /// Armed in this decision object only; execution is not enabled.
    ArmedNotExecutable,
}

#[derive(Debug, Clone, Copy, PartialEq, Eq, Structural)]
pub enum SandboxGateArmingMode {
    Disabled,
    SandboxOnlyInternal,
}

#[derive(Debug, Clone)]
pub struct SandboxGateArmingSafetySnapshot {
    pub write_gate_disabled: bool,
    pub readiness_ready_but_disabled: bool,
    pub gate_contract_eligible: bool,
    pub harness_ready_not_executed: bool,
    pub explicit_internal_arming_requested: bool,
    pub execution_enabled: bool,
    pub writes_enabled: bool,
    pub reads_enabled: bool,
}

#[derive(Debug, Clone)]
pub struct SandboxGateArmingRequest {
    pub mode: SandboxGateArmingMode,
    pub explicit_internal_sandbox_arming_requested: bool,
    pub sandbox_verification_safe: bool,
    pub target_empty_safe: bool,
    pub confirmation_gate_declared: bool,
    pub destructive_operation_policy_safe: bool,
    pub attachment_phase_disabled_safe: bool,
    pub live_write_readiness_safe: bool,
    pub write_phase_ordering_safe: bool,
    pub failure_modes_safe: bool,
    pub rollback_limitation_safe: bool,
    pub checkpoint_durability_safe: bool,
    pub sensitive_data_safe: bool,
    pub final_validation_enforcement_safe: bool,
    pub rate_limit_backoff_safe: bool,
}

#[derive(Debug, Clone)]
pub struct SandboxGateArmingResult {
    pub status: SandboxGateArmingStatus,
    pub mode: SandboxGateArmingMode,
    pub message: String,
    pub safety_snapshot: SandboxGateArmingSafetySnapshot,
    pub blocked_reason: Option<String>,
    pub gate_armed: bool,
    pub no_changes_made: bool,
    pub network_reads_attempted: bool,
    pub network_writes_attempted: bool,
    pub execution_enabled: bool,
    pub writes_enabled: bool,
    pub reads_enabled: bool,
}

pub const SGA_MODE_MESSAGE: &'static str =
    "Arming mode is disabled. No arming evaluation is performed. This is the default state.";
pub const SGA_MODE_REASON: &'static str = "SGA-CHK-01: mode must be sandboxOnlyInternal.";
pub const SGA_FLAG_MESSAGE: &'static str =
    "Explicit internal sandbox arming flag is not set. This flag must be explicitly true before arming can be considered. No UI control, Tauri command, or runtime path sets this flag.";
pub const SGA_FLAG_REASON: &'static str =
    "SGA-CHK-02: explicit_internal_sandbox_arming_requested must be true.";
pub const SGA_GATE_MESSAGE: &'static str =
    "evaluate_write_gate() did not return Disabled/DisabledByProductPolicy. This is a critical safety violation. Arming cannot proceed.";
pub const SGA_GATE_REASON: &'static str =
    "SGA-CHK-03: evaluate_write_gate() must return Disabled/DisabledByProductPolicy.";
pub const SGA_READINESS_PREFIX: &'static str =
    "Sandbox enablement readiness report did not return readyButDisabled. Current status: ";
pub const SGA_READINESS_SUFFIX: &'static str =
    ". All 13 readiness items must be satisfied before arming.";
pub const SGA_READINESS_REASON: &'static str =
    "SGA-CHK-04: sandbox enablement readiness must be readyButDisabled.";
pub const SGA_CONTRACT_PREFIX: &'static str =
    "Sandbox gate contract did not return eligibleButNotArmed. Current status: ";
pub const SGA_CONTRACT_SUFFIX: &'static str =
    ". All gate contract prerequisites must be satisfied.";
pub const SGA_CONTRACT_REASON: &'static str =
    "SGA-CHK-05: sandbox gate contract must return eligibleButNotArmed.";
pub const SGA_HARNESS_PREFIX: &'static str =
    "Sandbox restore harness did not return readyNotExecuted. Current status: ";
pub const SGA_HARNESS_SUFFIX: &'static str = ". All harness prerequisites must be satisfied.";
pub const SGA_HARNESS_REASON: &'static str =
    "SGA-CHK-06: sandbox restore harness must return readyNotExecuted.";
pub const SGA_ARMED_MESSAGE: &'static str =
    "Sandbox gate arming decision: armedNotExecutable. The \
    gate is armed in this internal decision object only. Execution is NOT enabled. Writes are NOT enabled. Reads are NOT enabled. This decision is not stored globally and does not affect runtime behavior. evaluate_write_gate() default remains Disabled/DisabledByProductPolicy. Live sandbox E2E restore execution remains separate pending work.";

// ── Specification ────────────────────────────────────────────────────────────

/// The readiness request the arming decision probes.
pub open spec fn arming_readiness_request(r: SandboxGateArmingRequest) -> SandboxEnablementReadinessRequest {
    SandboxEnablementReadinessRequest {
        sandbox_verification_safe: r.sandbox_verification_safe,
        target_empty_safe: r.target_empty_safe,
        confirmation_gate_declared: r.confirmation_gate_declared,
        destructive_operation_policy_safe: r.destructive_operation_policy_safe,
        attachment_phase_disabled_safe: r.attachment_phase_disabled_safe,
        live_write_readiness_safe: r.live_write_readiness_safe,
        write_phase_ordering_safe: r.write_phase_ordering_safe,
        failure_modes_safe: r.failure_modes_safe,
        rollback_limitation_safe: r.rollback_limitation_safe,
        checkpoint_durability_safe: r.checkpoint_durability_safe,
        sensitive_data_safe: r.sensitive_data_safe,
        final_validation_enforcement_safe: r.final_validation_enforcement_safe,
        rate_limit_backoff_safe: r.rate_limit_backoff_safe,
    }
}

/// Whether the caller-declared safety prerequisites the probes need hold.
pub open spec fn arming_prerequisites_hold(r: SandboxGateArmingRequest) -> bool {
    &&& r.sandbox_verification_safe
    &&& r.target_empty_safe
    &&& r.confirmation_gate_declared
    &&& r.destructive_operation_policy_safe
    &&& r.attachment_phase_disabled_safe
    &&& r.live_write_readiness_safe
    &&& r.write_phase_ordering_safe
    &&& r.failure_modes_safe
    &&& r.rollback_limitation_safe
}

/// The status of the arming decision for a request.
pub open spec fn arming_status(r: SandboxGateArmingRequest) -> SandboxGateArmingStatus {
    if r.mode == SandboxGateArmingMode::SandboxOnlyInternal
        && r.explicit_internal_sandbox_arming_requested && arming_prerequisites_hold(r) {
        SandboxGateArmingStatus::ArmedNotExecutable
    } else {
        SandboxGateArmingStatus::Blocked
    }
}

/// The snapshot flags: write gate disabled, execution, writes and reads off.
pub open spec fn arming_snapshot_is(
    s: SandboxGateArmingSafetySnapshot,
    readiness: bool,
    contract: bool,
    harness: bool,
    explicit: bool,
) -> bool {
    &&& s.write_gate_disabled
    &&& s.readiness_ready_but_disabled == readiness
    &&& s.gate_contract_eligible == contract
    &&& s.harness_ready_not_executed == harness
    &&& s.explicit_internal_arming_requested == explicit
    &&& !s.execution_enabled
    &&& !s.writes_enabled
    &&& !s.reads_enabled
}

/// The sandbox gate contract request the arming decision probes.
pub open spec fn arming_contract_request(r: SandboxGateArmingRequest) -> SandboxGateContractRequest {
    SandboxGateContractRequest {
        mode: SandboxGateContractMode::SandboxOnlyCandidate,
        sandbox_verification_safe: r.sandbox_verification_safe,
        target_empty_safe: r.target_empty_safe,
        confirmation_gate_declared: r.confirmation_gate_declared,
        destructive_operation_policy_safe: r.destructive_operation_policy_safe,
        attachment_phase_disabled_safe: r.attachment_phase_disabled_safe,
        live_write_readiness_safe: r.live_write_readiness_safe,
        restore_orchestrator_present: true,
        schema_executor_present: true,
        record_executor_present: true,
        linked_executor_present: true,
        final_validation_reader_present: true,
    }
}

/// The harness request the arming decision probes.
pub open spec fn arming_harness_request(r: SandboxGateArmingRequest) -> SandboxRestoreHarnessRequest {
    SandboxRestoreHarnessRequest {
        mode: SandboxRestoreHarnessMode::SandboxOnlyDryHarness,
        sandbox_verification_safe: r.sandbox_verification_safe,
        target_empty_safe: r.target_empty_safe,
        confirmation_gate_declared: r.confirmation_gate_declared,
        destructive_operation_policy_safe: r.destructive_operation_policy_safe,
        attachment_phase_disabled_safe: r.attachment_phase_disabled_safe,
        live_write_readiness_safe: r.live_write_readiness_safe,
        write_phase_ordering_safe: r.write_phase_ordering_safe,
        failure_modes_safe: r.failure_modes_safe,
        rollback_limitation_safe: r.rollback_limitation_safe,
    }
}

// ── Helpers ──────────────────────────────────────────────────────────────────

/// A `Blocked` decision with the given snapshot flags, message and reason.
fn blocked_result(
    mode: SandboxGateArmingMode,
    gate_contract_eligible: bool,
    harness_ready_not_executed: bool,
    readiness_ready_but_disabled: bool,
    explicit_internal_arming_requested: bool,
    message: String,
    blocked_reason: String,
) -> (r: SandboxGateArmingResult)
    ensures
        r.status == SandboxGateArmingStatus::Blocked,
        r.mode == mode,
        r.message@ == message@,
        r.blocked_reason matches Some(b) && b@ == blocked_reason@,
        arming_snapshot_is(r.safety_snapshot, readiness_ready_but_disabled, gate_contract_eligible,
            harness_ready_not_executed, explicit_internal_arming_requested),
        !r.gate_armed,
        r.no_changes_made,
        !r.network_reads_attempted,
        !r.network_writes_attempted,
        !r.execution_enabled,
        !r.writes_enabled,
        !r.reads_enabled,
{
    SandboxGateArmingResult {
        status: SandboxGateArmingStatus::Blocked,
        mode,
        message,
        safety_snapshot: SandboxGateArmingSafetySnapshot {
            write_gate_disabled: true,
            readiness_ready_but_disabled,
            gate_contract_eligible,
            harness_ready_not_executed,
            explicit_internal_arming_requested,
            execution_enabled: false,
            writes_enabled: false,
            reads_enabled: false,
        },
        blocked_reason: Some(blocked_reason),
        gate_armed: false,
        no_changes_made: true,
        network_reads_attempted: false,
        network_writes_attempted: false,
        execution_enabled: false,
        writes_enabled: false,
        reads_enabled: false,
    }
}

// ── Core function ────────────────────────────────────────────────────────────

/// Builds the internal sandbox-only gate arming decision.
///
/// Checks, in order: the mode, the explicit arming flag, the write gate, then
/// the readiness report, the sandbox gate contract and the harness as probes. The
/// first check that fails blocks the decision with its `SGA-CHK-..` reason.
/// When all pass, the decision is `ArmedNotExecutable` with `gate_armed` set in
/// this object only; execution, writes, reads and network I/O stay disabled.
pub fn build_sandbox_gate_arming_decision(
    request: &SandboxGateArmingRequest,
) -> (result: SandboxGateArmingResult)
    ensures
        result.status == arming_status(*request),
        result.gate_armed == (result.status == SandboxGateArmingStatus::ArmedNotExecutable),
        result.no_changes_made,
        !result.network_reads_attempted,
        !result.network_writes_attempted,
        !result.execution_enabled,
        !result.writes_enabled,
        !result.reads_enabled,
        request.mode == SandboxGateArmingMode::Disabled ==> {
            &&& result.mode == SandboxGateArmingMode::Disabled
            &&& result.message@ == SGA_MODE_MESSAGE@
            &&& result.blocked_reason matches Some(b) && b@ == SGA_MODE_REASON@
            &&& arming_snapshot_is(result.safety_snapshot, false, false, false, false)
        },
        request.mode == SandboxGateArmingMode::SandboxOnlyInternal ==> result.mode == request.mode,
        request.mode == SandboxGateArmingMode::SandboxOnlyInternal
            && !request.explicit_internal_sandbox_arming_requested ==> {
            &&& result.message@ == SGA_FLAG_MESSAGE@
            &&& result.blocked_reason matches Some(b) && b@ == SGA_FLAG_REASON@
            &&& arming_snapshot_is(result.safety_snapshot, false, false, false, false)
        },
        request.mode == SandboxGateArmingMode::SandboxOnlyInternal
            && request.explicit_internal_sandbox_arming_requested
            && !arming_prerequisites_hold(*request) ==> {
            &&& result.message@ == SGA_READINESS_PREFIX@
                + readiness_status_name(readiness_status(arming_readiness_request(*request)))
                + SGA_READINESS_SUFFIX@
            &&& result.blocked_reason matches Some(b) && b@ == SGA_READINESS_REASON@
            &&& arming_snapshot_is(result.safety_snapshot, false, false, false, true)
        },
        result.status == SandboxGateArmingStatus::ArmedNotExecutable ==> {
            &&& result.message@ == SGA_ARMED_MESSAGE@
            &&& result.blocked_reason is None
            &&& arming_snapshot_is(result.safety_snapshot, true, true, true, true)
        },
{
    if let SandboxGateArmingMode::Disabled = request.mode {
        return blocked_result(SandboxGateArmingMode::Disabled, false, false, false, false,
            String::from_str(SGA_MODE_MESSAGE), String::from_str(SGA_MODE_REASON));
    }

    if !request.explicit_internal_sandbox_arming_requested {
        return blocked_result(SandboxGateArmingMode::SandboxOnlyInternal, false, false, false, false,
            String::from_str(SGA_FLAG_MESSAGE), String::from_str(SGA_FLAG_REASON));
    }

    let gate = evaluate_write_gate();
    if !write_gate_is_disabled(&gate) {
        return blocked_result(SandboxGateArmingMode::SandboxOnlyInternal, false, false, false, true,
            String::from_str(SGA_GATE_MESSAGE), String::from_str(SGA_GATE_REASON));
    }

    // Readiness probe.
    let readiness_req = SandboxEnablementReadinessRequest {
        sandbox_verification_safe: request.sandbox_verification_safe,
        target_empty_safe: request.target_empty_safe,
        confirmation_gate_declared: request.confirmation_gate_declared,
        destructive_operation_policy_safe: request.destructive_operation_policy_safe,
        attachment_phase_disabled_safe: request.attachment_phase_disabled_safe,
        live_write_readiness_safe: request.live_write_readiness_safe,
        write_phase_ordering_safe: request.write_phase_ordering_safe,
        failure_modes_safe: request.failure_modes_safe,
        rollback_limitation_safe: request.rollback_limitation_safe,
        checkpoint_durability_safe: request.checkpoint_durability_safe,
        sensitive_data_safe: request.sensitive_data_safe,
        final_validation_enforcement_safe: request.final_validation_enforcement_safe,
        rate_limit_backoff_safe: request.rate_limit_backoff_safe,
    };
    assert(readiness_req == arming_readiness_request(*request));
    let readiness = build_sandbox_enablement_readiness_report(&readiness_req);
    let readiness_ready = match readiness.status {
        SandboxEnablementReadinessStatus::ReadyButDisabled => true,
        _ => false,
    };
    if !readiness_ready {
        let message = concat3(SGA_READINESS_PREFIX, readiness_status_label(readiness.status),
            SGA_READINESS_SUFFIX);
        return blocked_result(SandboxGateArmingMode::SandboxOnlyInternal, false, false, false, true,
            message, String::from_str(SGA_READINESS_REASON));
    }

    // Gate contract probe.
    let contract_req = SandboxGateContractRequest {
        mode: SandboxGateContractMode::SandboxOnlyCandidate,
        sandbox_verification_safe: request.sandbox_verification_safe,
        target_empty_safe: request.target_empty_safe,
        confirmation_gate_declared: request.confirmation_gate_declared,
        destructive_operation_policy_safe: request.destructive_operation_policy_safe,
        attachment_phase_disabled_safe: request.attachment_phase_disabled_safe,
        live_write_readiness_safe: request.live_write_readiness_safe,
        restore_orchestrator_present: true,
        schema_executor_present: true,
        record_executor_present: true,
        linked_executor_present: true,
        final_validation_reader_present: true,
    };
    assert(contract_req == arming_contract_request(*request));
    let contract = evaluate_sandbox_gate_contract(&contract_req);
    let contract_eligible = match contract.status {
        SandboxGateContractStatus::EligibleButNotArmed => true,
        _ => false,
    };
    if !contract_eligible {
        let message = concat3(SGA_CONTRACT_PREFIX, gate_contract_status_label(contract.status),
            SGA_CONTRACT_SUFFIX);
        return blocked_result(SandboxGateArmingMode::SandboxOnlyInternal, false, false, true, true,
            message, String::from_str(SGA_CONTRACT_REASON));
    }

    // Harness probe.
    let harness_req = SandboxRestoreHarnessRequest {
        mode: SandboxRestoreHarnessMode::SandboxOnlyDryHarness,
        sandbox_verification_safe: request.sandbox_verification_safe,
        target_empty_safe: request.target_empty_safe,
        confirmation_gate_declared: request.confirmation_gate_declared,
        destructive_operation_policy_safe: request.destructive_operation_policy_safe,
        attachment_phase_disabled_safe: request.attachment_phase_disabled_safe,
        live_write_readiness_safe: request.live_write_readiness_safe,
        write_phase_ordering_safe: request.write_phase_ordering_safe,
        failure_modes_safe: request.failure_modes_safe,
        rollback_limitation_safe: request.rollback_limitation_safe,
    };
    assert(harness_req == arming_harness_request(*request));
    let harness = build_sandbox_restore_harness_plan(&harness_req);
    let harness_ready = match harness.status {
        SandboxRestoreHarnessStatus::ReadyNotExecuted => true,
        _ => false,
    };
    if !harness_ready {
        let message = concat3(SGA_HARNESS_PREFIX, harness_status_label(harness.status),
            SGA_HARNESS_SUFFIX);
        return blocked_result(SandboxGateArmingMode::SandboxOnlyInternal, true, false, true, true,
            message, String::from_str(SGA_HARNESS_REASON));
    }

    SandboxGateArmingResult {
        status: SandboxGateArmingStatus::ArmedNotExecutable,
        mode: SandboxGateArmingMode::SandboxOnlyInternal,
        message: String::from_str(SGA_ARMED_MESSAGE),
        safety_snapshot: SandboxGateArmingSafetySnapshot {
            write_gate_disabled: true,
            readiness_ready_but_disabled: true,
            gate_contract_eligible: true,
            harness_ready_not_executed: true,
            explicit_internal_arming_requested: true,
            execution_enabled: false,
            writes_enabled: false,
            reads_enabled: false,
        },
        blocked_reason: None,
        gate_armed: true,
        no_changes_made: true,
        network_reads_attempted: false,
        network_writes_attempted: false,
        execution_enabled: false,
        writes_enabled: false,
        reads_enabled: false,
    }
}

/// The name of a status, as its `Debug` rendering shows it.
pub open spec fn arming_status_name(s: SandboxGateArmingStatus) -> Seq<char> {
    match s {
        SandboxGateArmingStatus::Blocked => "Blocked"@,
        SandboxGateArmingStatus::ArmedNotExecutable => "ArmedNotExecutable"@,
    }
}

/// The name of a status, as its `Debug` rendering shows it.
pub fn arming_status_label(s: SandboxGateArmingStatus) -> (r: &'static str)
    ensures
        r@ == arming_status_name(s),
{
    match s {
        SandboxGateArmingStatus::Blocked => "Blocked",
        SandboxGateArmingStatus::ArmedNotExecutable => "ArmedNotExecutable",
    }
}

} // verus!
