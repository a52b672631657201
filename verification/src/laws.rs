//! Properties that span these gates: a gate reaches its best state only when
//! every gate it probes reaches its own, and a policy's overall status agrees
//! with the checks it reports.

use vstd::prelude::*;
use crate::final_validation_reader::{final_validation_reader_status, FinalValidationReaderStatus};
use crate::linked_second_pass_executor::{linked_executor_status, LinkedSecondPassExecutorStatus};
use crate::record_write_executor::{record_executor_status, RecordWriteExecutorStatus};
use crate::record_write_requests::RecordWriteOperationStatus;
use crate::restore_orchestrator::{orchestrator_status, RestoreOrchestratorStatus};
use crate::rollback_limitation_policy::{
    plan_checks, plan_status, RollbackLimitationCheck, RollbackLimitationCheckStatus,
    RollbackLimitationPlan, RollbackLimitationPolicyStatus,
};
use crate::sandbox_adapter_chain_runner::{
    sacr_final_validation_request, sacr_linked_request, sacr_record_request, sacr_schema_request,
    sacr_simulator_request, sacr_status, SandboxAdapterChainRunnerRequest,
    SandboxAdapterChainRunnerStatus,
};
use crate::sandbox_enablement_readiness::{
    readiness_gate_contract_request, readiness_harness_request, readiness_orchestrator_request,
    readiness_status, SandboxEnablementReadinessRequest, SandboxEnablementReadinessStatus,
};
use crate::sandbox_final_validation_adapter::{
    sfva_arming_request, sfva_linked_adapter_request, sfva_reader_request,
    sfva_record_adapter_request, sfva_schema_adapter_request, sfva_simulator_request, sfva_status,
    SandboxFinalValidationAdapterRequest, SandboxFinalValidationAdapterStatus,
};
use crate::sandbox_gate_arming::{
    arming_contract_request, arming_harness_request, arming_readiness_request, arming_status,
    SandboxGateArmingMode, SandboxGateArmingRequest, SandboxGateArmingStatus,
};
use crate::sandbox_gate_contract::{gate_contract_status, SandboxGateContractStatus};
use crate::sandbox_linked_second_pass_adapter::{
    slpa_arming_request, slpa_executor_request, slpa_record_adapter_request,
    slpa_simulator_request, slpa_status, SandboxLinkedSecondPassAdapterRequest,
    SandboxLinkedSecondPassAdapterStatus,
};
use crate::sandbox_record_write_adapter::{
    srwa_arming_request, srwa_executor_request, srwa_schema_adapter_request,
    srwa_simulator_request, srwa_status, SandboxRecordWriteAdapterRequest,
    SandboxRecordWriteAdapterStatus,
};
use crate::sandbox_restore_harness::{
    harness_gate_contract_request, harness_orchestrator_request, harness_status,
    SandboxRestoreHarnessRequest, SandboxRestoreHarnessStatus,
};
use crate::sandbox_restore_simulator::{
    sim_arming_request, sim_harness_request, sim_orchestrator_request, sim_status,
    SandboxRestoreSimulatorMode, SandboxRestoreSimulatorRequest, SandboxRestoreSimulatorStatus,
};
use crate::sandbox_schema_write_adapter::{
    sswa_arming_request, sswa_executor_request, sswa_simulator_request, sswa_status,
    SandboxSchemaWriteAdapterRequest, SandboxSchemaWriteAdapterStatus,
};
use crate::sandbox_write_testing_policy::{
    swt_checks, swt_status, SandboxWriteTestingCheck, SandboxWriteTestingCheckStatus,
    SandboxWriteTestingPolicyRequest, SandboxWriteTestingPolicyStatus,
};
use crate::schema_write_executor::{schema_executor_status, SchemaWriteExecutorStatus};
use crate::schema_write_requests::SchemaWriteOperationStatus;

verus! {

/// The harness is `ReadyNotExecuted` only when the sandbox gate contract it probes is
/// `EligibleButNotArmed` and the orchestrator it probes is `NotExecuted`.
pub proof fn lemma_harness_ready_requires_probes(r: SandboxRestoreHarnessRequest)
    ensures
        harness_status(r) == SandboxRestoreHarnessStatus::ReadyNotExecuted ==> {
            &&& gate_contract_status(harness_gate_contract_request(r))
                == SandboxGateContractStatus::EligibleButNotArmed
            &&& orchestrator_status(harness_orchestrator_request(r)) == RestoreOrchestratorStatus::NotExecuted
        },
{
}

/// The readiness report is `ReadyButDisabled` only when the sandbox gate contract,
/// the harness and the orchestrator it probes all reach their best state.
pub proof fn lemma_readiness_requires_probes(r: SandboxEnablementReadinessRequest)
    ensures
        readiness_status(r) == SandboxEnablementReadinessStatus::ReadyButDisabled ==> {
            &&& gate_contract_status(readiness_gate_contract_request(r))
                == SandboxGateContractStatus::EligibleButNotArmed
            &&& harness_status(readiness_harness_request(r)) == SandboxRestoreHarnessStatus::ReadyNotExecuted
            &&& orchestrator_status(readiness_orchestrator_request(r)) == RestoreOrchestratorStatus::NotExecuted
        },
{
}

/// The arming decision is `ArmedNotExecutable` exactly when the mode is
/// internal, the explicit flag is set and the readiness report it probes is
/// `ReadyButDisabled`; then the sandbox gate contract and the harness it probes are in
/// their best state too.
pub proof fn lemma_armed_requires_probes(r: SandboxGateArmingRequest)
    ensures
        arming_status(r) == SandboxGateArmingStatus::ArmedNotExecutable <==> {
            &&& r.mode == SandboxGateArmingMode::SandboxOnlyInternal
            &&& r.explicit_internal_sandbox_arming_requested
            &&& readiness_status(arming_readiness_request(r))
                == SandboxEnablementReadinessStatus::ReadyButDisabled
        },
        arming_status(r) == SandboxGateArmingStatus::ArmedNotExecutable ==> {
            &&& gate_contract_status(arming_contract_request(r))
                == SandboxGateContractStatus::EligibleButNotArmed
            &&& harness_status(arming_harness_request(r)) == SandboxRestoreHarnessStatus::ReadyNotExecuted
        },
{
}

/// The simulator is `SimulatedNotExecuted` exactly when the mode is internal
/// simulation, the explicit flag is set and the arming decision it probes is
/// `ArmedNotExecutable`; then its harness and orchestrator probes are in their
/// best state too.
pub proof fn lemma_simulated_requires_armed(r: SandboxRestoreSimulatorRequest)
    ensures
        sim_status(r) == SandboxRestoreSimulatorStatus::SimulatedNotExecuted <==> {
            &&& r.mode == SandboxRestoreSimulatorMode::SandboxOnlyInternalSimulation
            &&& r.explicit_internal_simulation_requested
            &&& arming_status(sim_arming_request(r)) == SandboxGateArmingStatus::ArmedNotExecutable
        },
        sim_status(r) == SandboxRestoreSimulatorStatus::SimulatedNotExecuted ==> {
            &&& harness_status(sim_harness_request(r)) == SandboxRestoreHarnessStatus::ReadyNotExecuted
            &&& orchestrator_status(sim_orchestrator_request(r)) == RestoreOrchestratorStatus::NotExecuted
        },
{
}

/// The schema adapter is ready only when the arming decision, the simulator
/// and the schema executor it probes all reach their best state.
pub proof fn lemma_schema_adapter_ready_requires_probes(
    r: SandboxSchemaWriteAdapterRequest,
    plan_status: SchemaWriteOperationStatus,
)
    ensures
        sswa_status(r, plan_status) == SandboxSchemaWriteAdapterStatus::ReadyForSandboxCall ==> {
            &&& arming_status(sswa_arming_request(r)) == SandboxGateArmingStatus::ArmedNotExecutable
            &&& sim_status(sswa_simulator_request(r)) == SandboxRestoreSimulatorStatus::SimulatedNotExecuted
            &&& schema_executor_status(sswa_executor_request(r), plan_status)
                == SchemaWriteExecutorStatus::NotExecuted
        },
{
}

/// The record adapter is ready only when the arming decision, the simulator,
/// the record executor and the schema adapter it probes all reach their best
/// state.
pub proof fn lemma_record_adapter_ready_requires_probes(
    r: SandboxRecordWriteAdapterRequest,
    record_plan_status: RecordWriteOperationStatus,
    schema_plan_status: SchemaWriteOperationStatus,
)
    ensures
        srwa_status(r, record_plan_status, schema_plan_status)
            == SandboxRecordWriteAdapterStatus::ReadyForSandboxCall ==> {
            &&& arming_status(srwa_arming_request(r)) == SandboxGateArmingStatus::ArmedNotExecutable
            &&& sim_status(srwa_simulator_request(r)) == SandboxRestoreSimulatorStatus::SimulatedNotExecuted
            &&& record_executor_status(srwa_executor_request(r), record_plan_status)
                == RecordWriteExecutorStatus::NotExecuted
            &&& sswa_status(srwa_schema_adapter_request(r), schema_plan_status)
                == SandboxSchemaWriteAdapterStatus::ReadyForSandboxCall
        },
{
}

/// The linked second-pass adapter is ready only when the arming decision, the
/// simulator, the linked executor and the record adapter it probes all reach
/// their best state and the id mapping covers the links.
pub proof fn lemma_linked_adapter_ready_requires_probes(
    r: SandboxLinkedSecondPassAdapterRequest,
    record_plan_status: RecordWriteOperationStatus,
    schema_plan_status: SchemaWriteOperationStatus,
)
    ensures
        slpa_status(r, record_plan_status, schema_plan_status)
            == SandboxLinkedSecondPassAdapterStatus::ReadyForSandboxCall ==> {
            &&& arming_status(slpa_arming_request(r)) == SandboxGateArmingStatus::ArmedNotExecutable
            &&& sim_status(slpa_simulator_request(r)) == SandboxRestoreSimulatorStatus::SimulatedNotExecuted
            &&& linked_executor_status(slpa_executor_request(r)) == LinkedSecondPassExecutorStatus::NotExecuted
            &&& srwa_status(slpa_record_adapter_request(r), record_plan_status, schema_plan_status)
                == SandboxRecordWriteAdapterStatus::ReadyForSandboxCall
            &&& r.mapping_coverage_sufficient
        },
{
}

/// The final validation adapter is ready only when the arming decision, the
/// simulator, the final validation reader and the schema, record and linked
/// adapters it probes all reach their best state, with enforcement declared
/// safe and the sandbox verified.
pub proof fn lemma_final_validation_adapter_ready_requires_probes(
    r: SandboxFinalValidationAdapterRequest,
    schema_plan_status: SchemaWriteOperationStatus,
    record_plan_status: RecordWriteOperationStatus,
)
    ensures
        sfva_status(r, schema_plan_status, record_plan_status)
            == SandboxFinalValidationAdapterStatus::ReadyForSandboxCall ==> {
            &&& arming_status(sfva_arming_request(r)) == SandboxGateArmingStatus::ArmedNotExecutable
            &&& sim_status(sfva_simulator_request(r)) == SandboxRestoreSimulatorStatus::SimulatedNotExecuted
            &&& final_validation_reader_status(sfva_reader_request(r))
                == FinalValidationReaderStatus::NotExecuted
            &&& sswa_status(sfva_schema_adapter_request(r), schema_plan_status)
                == SandboxSchemaWriteAdapterStatus::ReadyForSandboxCall
            &&& srwa_status(sfva_record_adapter_request(r), record_plan_status, schema_plan_status)
                == SandboxRecordWriteAdapterStatus::ReadyForSandboxCall
            &&& slpa_status(sfva_linked_adapter_request(r), record_plan_status, schema_plan_status)
                == SandboxLinkedSecondPassAdapterStatus::ReadyForSandboxCall
            &&& r.final_validation_enforcement_safe
            &&& r.sandbox_verified
        },
{
}

/// The adapter chain completes its mock run only when the simulator and every
/// adapter it runs (schema, record, linked, final validation) reach their best
/// state.
pub proof fn lemma_chain_run_requires_every_adapter(
    r: SandboxAdapterChainRunnerRequest,
    schema_plan_status: SchemaWriteOperationStatus,
    record_plan_status: RecordWriteOperationStatus,
)
    ensures
        sacr_status(r, schema_plan_status, record_plan_status)
            == SandboxAdapterChainRunnerStatus::MockRunNotExecuted ==> {
            &&& sim_status(sacr_simulator_request(r)) == SandboxRestoreSimulatorStatus::SimulatedNotExecuted
            &&& sswa_status(sacr_schema_request(r), schema_plan_status)
                == SandboxSchemaWriteAdapterStatus::ReadyForSandboxCall
            &&& srwa_status(sacr_record_request(r), record_plan_status, schema_plan_status)
                == SandboxRecordWriteAdapterStatus::ReadyForSandboxCall
            &&& slpa_status(sacr_linked_request(r), record_plan_status, schema_plan_status)
                == SandboxLinkedSecondPassAdapterStatus::ReadyForSandboxCall
            &&& sfva_status(sacr_final_validation_request(r), schema_plan_status, record_plan_status)
                == SandboxFinalValidationAdapterStatus::ReadyForSandboxCall
        },
{
}

/// The rollback policy is `Blocked` exactly when one of its reported checks
/// failed, and `Compliant` exactly when every reported check passed.
pub proof fn lemma_rollback_status_agrees_with_checks(
    cs: Seq<RollbackLimitationCheck>,
    p: RollbackLimitationPlan,
)
    requires
        plan_checks(cs, p),
    ensures
        plan_status(p) == RollbackLimitationPolicyStatus::Blocked <==> exists|i: int|
            0 <= i < cs.len() && (#[trigger] cs[i]).status == RollbackLimitationCheckStatus::Failed,
        plan_status(p) == RollbackLimitationPolicyStatus::Compliant <==> forall|i: int|
            0 <= i < cs.len() ==> (#[trigger] cs[i]).status == RollbackLimitationCheckStatus::Passed,
{
    if plan_status(p) == RollbackLimitationPolicyStatus::Blocked {
        if cs[2].status != RollbackLimitationCheckStatus::Failed
            && cs[3].status != RollbackLimitationCheckStatus::Failed
            && cs[4].status != RollbackLimitationCheckStatus::Failed
            && cs[5].status != RollbackLimitationCheckStatus::Failed {
            assert(cs[8].status == RollbackLimitationCheckStatus::Failed);
        }
    } else {
        assert forall|i: int| 0 <= i < cs.len()
            implies (#[trigger] cs[i]).status != RollbackLimitationCheckStatus::Failed by {
            assert(0 <= i < 12);
        }
        if plan_status(p) == RollbackLimitationPolicyStatus::Compliant {
            assert forall|i: int| 0 <= i < cs.len()
                implies (#[trigger] cs[i]).status == RollbackLimitationCheckStatus::Passed by {
                assert(0 <= i < 12);
            }
        } else {
            if cs[6].status == RollbackLimitationCheckStatus::Passed {
                assert(cs[7].status != RollbackLimitationCheckStatus::Passed);
            }
        }
    }
}

/// The sandbox write testing policy is `Blocked` exactly when one of its
/// reported checks failed, and `Compliant` exactly when every reported check
/// passed.
pub proof fn lemma_write_testing_status_agrees_with_checks(
    cs: Seq<SandboxWriteTestingCheck>,
    r: SandboxWriteTestingPolicyRequest,
)
    requires
        swt_checks(cs, r),
    ensures
        swt_status(r) == SandboxWriteTestingPolicyStatus::Blocked <==> exists|i: int|
            0 <= i < cs.len() && (#[trigger] cs[i]).status == SandboxWriteTestingCheckStatus::Failed,
        swt_status(r) == SandboxWriteTestingPolicyStatus::Compliant <==> forall|i: int|
            0 <= i < cs.len() ==> (#[trigger] cs[i]).status == SandboxWriteTestingCheckStatus::Passed,
{
    if swt_status(r) == SandboxWriteTestingPolicyStatus::Blocked {
        if cs[1].status != SandboxWriteTestingCheckStatus::Failed
            && cs[2].status != SandboxWriteTestingCheckStatus::Failed {
            assert(cs[3].status == SandboxWriteTestingCheckStatus::Failed);
        }
    } else {
        assert forall|i: int| 0 <= i < cs.len()
            implies (#[trigger] cs[i]).status != SandboxWriteTestingCheckStatus::Failed by {
            assert(0 <= i < 5);
        }
        if swt_status(r) == SandboxWriteTestingPolicyStatus::Compliant {
            assert forall|i: int| 0 <= i < cs.len()
                implies (#[trigger] cs[i]).status == SandboxWriteTestingCheckStatus::Passed by {
                assert(0 <= i < 5);
            }
        } else {
            assert(cs[4].status != SandboxWriteTestingCheckStatus::Passed);
        }
    }
}

} // verus!
