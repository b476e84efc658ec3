//! End-to-end tests of the transaction engine: verify, execute,
//! execute-and-apply, genesis, read-only calls, the respawn protocol, the
//! cost-table cache, and the error taxonomy.

use moveos::action::{FunctionCall, MoveAction, MoveOSTransaction, ObjectMeta, Step};
use moveos::context::{TxContext, GAS_SCHEDULE_UPDATED_KEY};
use moveos::gas::{CostTable, GAS_SCHEDULE_OBJECT_ID, READONLY_MAX_GAS_AMOUNT};
use moveos::moveos::{EngineError, FunctionResult, HostFault, MoveOS};
use moveos::session::MoveOSConfig;
use moveos::state::{Event, MoveOSStore, StateOp};
use moveos::status::{KeptStatus, Status, CODE_INVALID_ACTION, CODE_MAX_GAS_BOUND};

fn new_engine() -> MoveOS {
    MoveOS::new(MoveOSStore::new(), MoveOSConfig::default(), vec![], vec![]).unwrap()
}

fn empty_root() -> ObjectMeta {
    ObjectMeta { state_root: 0, size: 0 }
}

fn make_tx(root: ObjectMeta, tx_size: u64, max_gas: u64, steps: Vec<Step>) -> MoveOSTransaction {
    MoveOSTransaction {
        root,
        ctx: TxContext::new(1, 100, tx_size, max_gas, false),
        action: MoveAction { steps },
        pre_execute_functions: vec![],
        post_execute_functions: vec![],
    }
}

#[test]
fn verify_never_mutates_the_stores() {
    let mut engine = new_engine();
    let before = engine.moveos_store().clone();
    let tx = make_tx(empty_root(), 1, 100, vec![Step::Write { id: 5, value: 1 }]);
    assert!(engine.verify(tx).is_ok());
    assert!(before == *engine.moveos_store());
}

#[test]
fn verify_rejects_an_invalid_action() {
    let mut engine = new_engine();
    let tx = make_tx(empty_root(), 1, 100, vec![Step::Write { id: 0, value: 1 }]);
    let r = engine.verify(tx);
    assert_eq!(
        r.err().map(|e| e.status),
        Some(Status::Discarded { code: CODE_INVALID_ACTION })
    );
}

#[test]
fn execute_and_apply_commits_exactly_one_changeset_and_startup_record() {
    let mut engine = new_engine();
    let tx = make_tx(
        empty_root(),
        2,
        100,
        vec![Step::Write { id: 5, value: 50 }, Step::Emit { data: 7 }, Step::Emit { data: 8 }],
    );
    let vtx = engine.verify(tx).unwrap();
    let out = engine.execute_and_apply(vtx).unwrap();
    assert_eq!(out.status, KeptStatus::Executed);
    assert_eq!(out.changeset.global_size, 1);
    assert_eq!(engine.state().get(5), Some(50));
    // The event store assigned sequential identifiers, zipped in order.
    assert_eq!(
        out.events,
        vec![Event { event_id: 0, data: 7 }, Event { event_id: 1, data: 8 }]
    );
    assert_eq!(engine.event_store().events, vec![7, 8]);
    // Exactly one startup record, pointing at the resulting root.
    let info = engine.config_store().startup_info.unwrap();
    assert_eq!(info.state_root, out.changeset.state_root);
    assert_eq!(info.size, out.changeset.global_size);
}

#[test]
fn genesis_produces_a_fresh_root_and_success_status() {
    // Scenario: a genesis transaction with a trivial always-succeeding
    // action and one pre-created object.
    let mut engine = new_engine();
    let tx = make_tx(empty_root(), 0, 100, vec![Step::Write { id: 7, value: 1 }]);
    let out = engine.init_genesis(tx, vec![(5, 100)]).unwrap();
    assert_eq!(out.status, KeptStatus::Executed);
    assert_ne!(out.changeset.state_root, 0);
    assert_eq!(out.changeset.global_size, 2);
    assert_eq!(engine.state().get(5), Some(100));
    assert_eq!(engine.state().get(7), Some(1));
}

#[test]
fn genesis_requires_success() {
    let mut engine = new_engine();
    let tx = make_tx(empty_root(), 0, 100, vec![Step::Abort { code: 3 }]);
    let r = engine.init_genesis(tx, vec![]);
    assert_eq!(
        r.err(),
        Some(EngineError::GenesisFailed { status: KeptStatus::MoveAbort { code: 3 } })
    );
    // Genesis setup aborted entirely: nothing was applied.
    assert!(engine.state().entries.is_empty());
    assert!(engine.config_store().startup_info.is_none());
}

#[test]
fn aborting_action_respawns_once_and_reports_the_original_status() {
    // Scenario: the action aborts mid-way; the pre-execute hook's effects
    // come back through the respawn replay, the action's own writes do not,
    // and the reported status is the original abort.
    let mut engine = new_engine();
    let tx = MoveOSTransaction {
        root: empty_root(),
        ctx: TxContext::new(1, 100, 3, 100, false),
        action: MoveAction {
            steps: vec![Step::Write { id: 11, value: 2 }, Step::Abort { code: 42 }],
        },
        pre_execute_functions: vec![FunctionCall {
            steps: vec![Step::Write { id: 10, value: 1 }],
        }],
        post_execute_functions: vec![],
    };
    let vtx = engine.verify(tx).unwrap();
    let raw = engine.execute(vtx).unwrap();
    assert_eq!(raw.status, KeptStatus::MoveAbort { code: 42 });
    assert_eq!(raw.changeset.ops, vec![StateOp::Write { id: 10, value: 1 }]);
    // io (3) + pre hook (1) + action write (1) + abort (1) + replayed pre
    // hook (1): the original attempt's gas stays charged across the respawn.
    assert_eq!(raw.gas_used, 7);
}

#[test]
fn failing_pre_execute_hook_needs_no_respawn() {
    let mut engine = new_engine();
    let tx = MoveOSTransaction {
        root: empty_root(),
        ctx: TxContext::new(1, 100, 1, 100, false),
        action: MoveAction { steps: vec![Step::Write { id: 11, value: 2 }] },
        pre_execute_functions: vec![FunctionCall { steps: vec![Step::Abort { code: 9 }] }],
        post_execute_functions: vec![],
    };
    let vtx = engine.verify(tx).unwrap();
    let raw = engine.execute(vtx).unwrap();
    assert_eq!(raw.status, KeptStatus::MoveAbort { code: 9 });
    // No respawn: the failing attempt's (empty) diff is final; the action
    // never ran.
    assert!(raw.changeset.ops.is_empty());
    assert_eq!(raw.gas_used, 2);
}

#[test]
fn exhausting_the_budget_is_a_recoverable_failure() {
    let mut engine = new_engine();
    let tx = make_tx(
        empty_root(),
        3,
        5,
        vec![
            Step::Emit { data: 1 },
            Step::Emit { data: 2 },
            Step::Emit { data: 3 },
        ],
    );
    let vtx = engine.verify(tx).unwrap();
    let raw = engine.execute(vtx).unwrap();
    assert_eq!(raw.status, KeptStatus::OutOfGas);
    // Gas used never exceeds the budget; a failed charge consumes the rest.
    assert_eq!(raw.gas_used, 5);
}

#[test]
fn oversized_transaction_fails_before_any_session() {
    let mut engine = new_engine();
    let tx = make_tx(empty_root(), 10, 5, vec![]);
    let vtx = engine.verify(tx).unwrap();
    let r = engine.execute(vtx);
    assert_eq!(r.err(), Some(EngineError::Vm { status: Status::OutOfGas }));
}

#[test]
fn system_call_with_user_hooks_is_rejected_before_execution() {
    let mut engine = new_engine();
    let before = engine.moveos_store().clone();
    let tx = MoveOSTransaction {
        root: empty_root(),
        ctx: TxContext::new(1, 100, 1, 100, true),
        action: MoveAction { steps: vec![] },
        pre_execute_functions: vec![FunctionCall { steps: vec![] }],
        post_execute_functions: vec![],
    };
    let vtx = engine.verify(tx).unwrap();
    let r = engine.execute(vtx);
    assert_eq!(
        r.err(),
        Some(EngineError::Fault { fault: HostFault::SystemCallWithUserHooks })
    );
    assert!(before == *engine.moveos_store());
}

#[test]
fn system_call_success_skips_hooks() {
    let mut engine = MoveOS::new(
        MoveOSStore::new(),
        MoveOSConfig::default(),
        vec![FunctionCall { steps: vec![Step::Emit { data: 5 }] }],
        vec![FunctionCall { steps: vec![Step::Emit { data: 6 }] }],
    )
    .unwrap();
    let tx = MoveOSTransaction {
        root: empty_root(),
        ctx: TxContext::new(1, 100, 1, 100, true),
        action: MoveAction { steps: vec![Step::Write { id: 4, value: 2 }] },
        pre_execute_functions: vec![],
        post_execute_functions: vec![],
    };
    let vtx = engine.verify(tx).unwrap();
    let raw = engine.execute(vtx).unwrap();
    assert_eq!(raw.status, KeptStatus::Executed);
    // System hooks are skipped for system calls: no events emitted.
    assert!(raw.events.is_empty());
}

#[test]
fn failing_system_call_is_a_host_fault() {
    let mut engine = new_engine();
    let tx = MoveOSTransaction {
        root: empty_root(),
        ctx: TxContext::new(1, 100, 1, 100, true),
        action: MoveAction { steps: vec![Step::Abort { code: 13 }] },
        pre_execute_functions: vec![],
        post_execute_functions: vec![],
    };
    let vtx = engine.verify(tx).unwrap();
    let r = engine.execute(vtx);
    assert_eq!(
        r.err(),
        Some(EngineError::Fault {
            fault: HostFault::SystemCallFailed { status: KeptStatus::MoveAbort { code: 13 } }
        })
    );
}

#[test]
fn system_hooks_run_ungassed_around_the_action() {
    let mut engine = MoveOS::new(
        MoveOSStore::new(),
        MoveOSConfig::default(),
        vec![FunctionCall { steps: vec![Step::Emit { data: 5 }] }],
        vec![FunctionCall { steps: vec![Step::Emit { data: 6 }] }],
    )
    .unwrap();
    let tx = make_tx(empty_root(), 4, 100, vec![]);
    let vtx = engine.verify(tx).unwrap();
    let raw = engine.execute(vtx).unwrap();
    assert_eq!(raw.status, KeptStatus::Executed);
    assert_eq!(raw.events, vec![5, 6]);
    // Only the deterministic I/O-write charge: system hooks are protocol
    // overhead and cost the user nothing.
    assert_eq!(raw.gas_used, 4);
}

#[test]
fn aborting_system_hooks_are_rejected_at_construction() {
    let r = MoveOS::new(
        MoveOSStore::new(),
        MoveOSConfig::default(),
        vec![FunctionCall { steps: vec![Step::Abort { code: 1 }] }],
        vec![],
    );
    assert_eq!(r.err(), Some(EngineError::InvalidSystemHooks));
}

#[test]
fn gas_schedule_update_invalidates_the_cached_cost_table() {
    // Scenario: an action raises the per-step cost to 5 and sets the
    // gas-schedule-updated marker; the next execute observes the fresh
    // table, not the stale cached one.
    let mut engine = new_engine();
    let tx1 = make_tx(
        empty_root(),
        2,
        100,
        vec![
            Step::Write { id: GAS_SCHEDULE_OBJECT_ID, value: 5 },
            Step::SetCtxVar { key: GAS_SCHEDULE_UPDATED_KEY, value: 1 },
        ],
    );
    let vtx1 = engine.verify(tx1).unwrap();
    let out1 = engine.execute_and_apply(vtx1).unwrap();
    assert_eq!(out1.status, KeptStatus::Executed);
    // io (2) + two steps at the old default cost of 1 each.
    assert_eq!(out1.gas_used, 4);
    assert_eq!(engine.cost_table, None);

    let root2 = ObjectMeta {
        state_root: out1.changeset.state_root,
        size: out1.changeset.global_size,
    };
    let tx2 = make_tx(root2, 2, 100, vec![Step::Emit { data: 9 }]);
    let vtx2 = engine.verify(tx2).unwrap();
    let raw2 = engine.execute(vtx2).unwrap();
    // io (2) + one step at the freshly loaded cost of 5.
    assert_eq!(raw2.gas_used, 7);
    assert_eq!(engine.cost_table, Some(CostTable { instruction_cost: 5 }));
}

#[test]
fn sequential_transactions_grow_the_state() {
    // Scenario: two sequential transactions mutating different objects
    // produce monotonically increasing object counts and distinct roots.
    let mut engine = new_engine();
    let tx1 = make_tx(empty_root(), 1, 100, vec![Step::Write { id: 2, value: 10 }]);
    let vtx1 = engine.verify(tx1).unwrap();
    let out1 = engine.execute_and_apply(vtx1).unwrap();
    let root1 = ObjectMeta {
        state_root: out1.changeset.state_root,
        size: out1.changeset.global_size,
    };
    let tx2 = make_tx(root1, 1, 100, vec![Step::Write { id: 3, value: 20 }]);
    let vtx2 = engine.verify(tx2).unwrap();
    let out2 = engine.execute_and_apply(vtx2).unwrap();
    assert_eq!(out1.changeset.global_size, 1);
    assert_eq!(out2.changeset.global_size, 2);
    assert_ne!(out1.changeset.state_root, 0);
    assert_ne!(out2.changeset.state_root, 0);
    assert_ne!(out1.changeset.state_root, out2.changeset.state_root);
}

#[test]
fn view_call_over_the_gas_ceiling_is_rejected_before_any_session() {
    // Scenario: a read-only call requesting more than the allowed read-only
    // gas is rejected up front; not even the cost table is loaded.
    let mut engine = new_engine();
    let ctx = TxContext::new(0, 0, 0, READONLY_MAX_GAS_AMOUNT + 1, false);
    let call = FunctionCall { steps: vec![Step::ReadValue { id: 5 }] };
    let r = engine.execute_readonly_function(empty_root(), &ctx, call);
    match r {
        FunctionResult::Failure { error } => {
            assert_eq!(error.status, Status::Discarded { code: CODE_MAX_GAS_BOUND });
        },
        FunctionResult::Value { .. } => panic!("ceiling not enforced"),
    }
    assert_eq!(engine.cost_table, None);
}

#[test]
fn view_function_reads_without_mutating() {
    let mut engine = new_engine();
    let tx = make_tx(empty_root(), 1, 100, vec![Step::Write { id: 5, value: 50 }]);
    let vtx = engine.verify(tx).unwrap();
    let out = engine.execute_and_apply(vtx).unwrap();
    let root = ObjectMeta {
        state_root: out.changeset.state_root,
        size: out.changeset.global_size,
    };
    let call = FunctionCall { steps: vec![Step::ReadValue { id: 5 }, Step::ReadValue { id: 6 }] };
    let r = engine.execute_view_function(root, call);
    match r {
        FunctionResult::Value { return_values } => assert_eq!(return_values, vec![50, 0]),
        FunctionResult::Failure { .. } => panic!("view call failed"),
    }
    // A view call that tries to write is rejected at finalization.
    let bad = FunctionCall { steps: vec![Step::Write { id: 9, value: 1 }] };
    let r2 = engine.execute_view_function(root, bad);
    assert!(matches!(r2, FunctionResult::Failure { .. }));
    assert_eq!(engine.state().get(9), None);
}

#[test]
fn event_identifiers_continue_across_transactions() {
    let mut engine = new_engine();
    let tx1 = make_tx(empty_root(), 1, 100, vec![Step::Emit { data: 7 }, Step::Emit { data: 8 }]);
    let vtx1 = engine.verify(tx1).unwrap();
    let out1 = engine.execute_and_apply(vtx1).unwrap();
    let root1 = ObjectMeta {
        state_root: out1.changeset.state_root,
        size: out1.changeset.global_size,
    };
    let tx2 = make_tx(root1, 1, 100, vec![Step::Emit { data: 9 }]);
    let vtx2 = engine.verify(tx2).unwrap();
    let out2 = engine.execute_and_apply(vtx2).unwrap();
    assert_eq!(out2.events, vec![Event { event_id: 2, data: 9 }]);
    assert_eq!(engine.event_store().events, vec![7, 8, 9]);
}

#[test]
fn user_hooks_are_gas_charged() {
    let mut engine = new_engine();
    let tx = MoveOSTransaction {
        root: empty_root(),
        ctx: TxContext::new(1, 100, 2, 100, false),
        action: MoveAction { steps: vec![Step::Emit { data: 1 }] },
        pre_execute_functions: vec![FunctionCall { steps: vec![Step::Emit { data: 2 }] }],
        post_execute_functions: vec![FunctionCall { steps: vec![Step::Emit { data: 3 }] }],
    };
    let vtx = engine.verify(tx).unwrap();
    let raw = engine.execute(vtx).unwrap();
    assert_eq!(raw.status, KeptStatus::Executed);
    assert_eq!(raw.events, vec![2, 1, 3]);
    // io (2) + pre hook (1) + action (1) + post hook (1), all user-billable.
    assert_eq!(raw.gas_used, 5);
}

#[test]
fn failed_execute_and_apply_touches_no_store() {
    let mut engine = new_engine();
    let before = engine.moveos_store().clone();
    let tx = make_tx(empty_root(), 10, 5, vec![]);
    let vtx = engine.verify(tx).unwrap();
    assert!(engine.execute_and_apply(vtx).is_err());
    assert!(before == *engine.moveos_store());
}

#[test]
fn post_execute_hook_failure_respawns() {
    let mut engine = new_engine();
    let tx = MoveOSTransaction {
        root: empty_root(),
        ctx: TxContext::new(1, 100, 1, 100, false),
        action: MoveAction { steps: vec![Step::Write { id: 20, value: 1 }] },
        pre_execute_functions: vec![],
        post_execute_functions: vec![FunctionCall { steps: vec![Step::Abort { code: 77 }] }],
    };
    let vtx = engine.verify(tx).unwrap();
    let raw = engine.execute(vtx).unwrap();
    assert_eq!(raw.status, KeptStatus::MoveAbort { code: 77 });
    // The replay runs the action's hooks only; the action itself is not
    // re-run, so its write is absent from the final diff.
    assert!(raw.changeset.ops.is_empty());
}
