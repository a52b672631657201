# airbridge_restore

Verified safety gates for restoring an Airbridge backup into a sandbox Airtable
base. Every gate is a pure decision over caller-declared prerequisites and the
restore plans; none of them performs, enables or schedules a write, a read or a
network call.

- `src/write_gate.rs` — the restore write gate (disabled by product policy).
- `src/sandbox_verification.rs`, `src/sandbox_write_testing_policy.rs`,
  `src/rollback_limitation_policy.rs` — policy checks with per-check results.
- `src/sandbox_gate_contract.rs`, `src/restore_orchestrator.rs`,
  `src/sandbox_restore_harness.rs`, `src/sandbox_enablement_readiness.rs`,
  `src/sandbox_gate_arming.rs`, `src/sandbox_restore_simulator.rs` — a ladder
  of gates, each probing the ones below it.
- `src/sandbox_*_adapter.rs`, `src/sandbox_adapter_chain_runner.rs` — adapter
  boundaries that turn restore plans into descriptors, and the mock chain run.
- `src/schema_dependencies.rs` — the linked-record dependency graph.
- `src/laws.rs` — properties that span several gates.

Each public function states its full result in its `ensures` clause; `tests/`
holds example-based tests over the same functions.
