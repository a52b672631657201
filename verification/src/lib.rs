//! Safety gates for restoring a backup into a sandbox base: every gate is a
//! pure decision over caller-declared prerequisites, and none of them enables
//! writes, reads or network calls.

pub mod text;
pub mod write_gate;
pub mod plan;
pub mod sandbox_gate_contract;
pub mod restore_orchestrator;
pub mod sandbox_restore_harness;
pub mod schema_write_requests;
pub mod record_write_requests;
pub mod linked_second_pass_execution_preview;
pub mod schema_write_executor;
pub mod record_write_executor;
pub mod linked_second_pass_executor;
pub mod final_validation_reader;
pub mod checkpoint_store;
pub mod sandbox_enablement_readiness;
pub mod sandbox_gate_arming;
pub mod sandbox_restore_simulator;
pub mod sandbox_schema_write_adapter;
pub mod sandbox_record_write_adapter;
pub mod sandbox_linked_second_pass_adapter;
pub mod sandbox_final_validation_adapter;
pub mod sandbox_adapter_chain_runner;
pub mod rollback_limitation_policy;
pub mod sandbox_verification;
pub mod sandbox_write_testing_policy;
pub mod schema_plan;
pub mod schema_dependencies;
pub mod laws;
