//! Unit tests for statuses, gas metering, state, context, and sessions.

use moveos::action::{FunctionCall, Step};
use moveos::context::{ContextMap, TxContext};
use moveos::gas::{CostTable, GasMeter, READONLY_MAX_GAS_AMOUNT};
use moveos::session::{MoveOSConfig, MoveOSVM};
use moveos::state::{StateChangeSet, StateDBStore, StateOp};
use moveos::status::{KeptStatus, Status, VmError};

#[test]
fn keep_or_discard_classifies_statuses() {
    assert_eq!(Status::Executed.keep_or_discard(), Ok(KeptStatus::Executed));
    assert_eq!(Status::OutOfGas.keep_or_discard(), Ok(KeptStatus::OutOfGas));
    assert_eq!(
        Status::MoveAbort { code: 7 }.keep_or_discard(),
        Ok(KeptStatus::MoveAbort { code: 7 })
    );
    assert_eq!(Status::Discarded { code: 9 }.keep_or_discard(), Err(9));
}

#[test]
fn gas_meter_charges_against_budget() {
    let mut meter = GasMeter::new(CostTable { instruction_cost: 1 }, 10);
    assert!(meter.charge(4).is_ok());
    assert_eq!(meter.gas_used(), 4);
    assert!(meter.charge(6).is_ok());
    assert_eq!(meter.gas_used(), 10);
    let r = meter.charge(1);
    assert_eq!(r, Err(VmError { status: Status::OutOfGas }));
    assert_eq!(meter.gas_used(), 10);
}

#[test]
fn gas_meter_disabled_charges_nothing() {
    let mut meter = GasMeter::new(CostTable { instruction_cost: 1 }, 10);
    meter.set_metering(false);
    assert!(meter.charge(1000).is_ok());
    assert_eq!(meter.gas_used(), 0);
}

#[test]
fn gas_meter_io_write_charge_ignores_metering_switch() {
    let mut meter = GasMeter::new(CostTable { instruction_cost: 1 }, 10);
    meter.set_metering(false);
    assert!(meter.charge_io_write(7).is_ok());
    assert_eq!(meter.gas_used(), 7);
    let r = meter.charge_io_write(4);
    assert_eq!(r, Err(VmError { status: Status::OutOfGas }));
    assert_eq!(meter.gas_used(), 10);
}

#[test]
fn state_store_applies_changesets_in_order() {
    let mut store = StateDBStore::new();
    let mut changeset = StateChangeSet {
        ops: vec![
            StateOp::Write { id: 3, value: 30 },
            StateOp::Write { id: 4, value: 40 },
            StateOp::Write { id: 3, value: 31 },
            StateOp::Remove { id: 4 },
        ],
        state_root: 0,
        global_size: 0,
    };
    store.apply_change_set(&mut changeset);
    assert_eq!(store.get(3), Some(31));
    assert_eq!(store.get(4), None);
    assert_eq!(changeset.global_size, 1);
    assert_ne!(changeset.state_root, 0);
}

#[test]
fn context_map_round_trips_variables() {
    let mut map = ContextMap::new();
    map.insert(1, 10);
    map.insert(2, 20);
    map.insert(1, 11);
    assert_eq!(map.get(1), Some(11));
    assert_eq!(map.get(2), Some(20));
    assert_eq!(map.get(3), None);
    let snap = map.snapshot();
    assert_eq!(snap.entries, map.entries);
}

#[test]
fn readonly_ctx_uses_the_readonly_gas_ceiling() {
    let ctx = TxContext::new_readonly_ctx(5);
    assert_eq!(ctx.sender(), 5);
    assert_eq!(ctx.max_gas_amount, READONLY_MAX_GAS_AMOUNT);
    assert!(!ctx.is_system_call());
}

#[test]
fn respawn_preserves_the_transient_context_variables() {
    let store = StateDBStore::new();
    let mut ctx = TxContext::new(1, 2, 3, 100, false);
    ctx.map.insert(7, 70);
    let env = ctx.map.snapshot();
    let vm = MoveOSVM::new(MoveOSConfig::default());
    let gas = GasMeter::new(CostTable { instruction_cost: 1 }, 100);
    let mut session = vm.new_session(&store, ctx, gas);
    // Mutate the in-flight session, then respawn: the preserved variables
    // come back exactly, the overlay is gone.
    let call = FunctionCall {
        steps: vec![Step::Write { id: 9, value: 1 }, Step::SetCtxVar { key: 8, value: 80 }],
    };
    assert!(session.execute_function_call(&vec![call], true).is_ok());
    let respawned = session.respawn(env);
    assert_eq!(respawned.ctx.map.get(7), Some(70));
    assert_eq!(respawned.ctx.map.get(8), None);
    assert!(respawned.ops.is_empty());
    assert_eq!(respawned.resolve(9), None);
}

#[test]
fn session_finish_rejects_readonly_mutation() {
    let store = StateDBStore::new();
    let ctx = TxContext::new_readonly_ctx(0);
    let vm = MoveOSVM::new(MoveOSConfig::default());
    let gas = GasMeter::new(CostTable { instruction_cost: 1 }, 1000);
    let mut session = vm.new_readonly_session(&store, ctx, gas);
    let call = FunctionCall { steps: vec![Step::Write { id: 5, value: 1 }] };
    assert!(session.execute_function_bypass_visibility(&call).is_ok());
    let r = session.finish_with_extensions(KeptStatus::Executed);
    assert!(r.is_err());
}

#[test]
fn session_reads_resolve_through_the_overlay() {
    let mut store_changeset = StateChangeSet {
        ops: vec![StateOp::Write { id: 6, value: 60 }],
        state_root: 0,
        global_size: 0,
    };
    let mut store = StateDBStore::new();
    store.apply_change_set(&mut store_changeset);
    let ctx = TxContext::new(1, 2, 0, 1000, false);
    let vm = MoveOSVM::new(MoveOSConfig::default());
    let gas = GasMeter::new(CostTable { instruction_cost: 1 }, 1000);
    let mut session = vm.new_session(&store, ctx, gas);
    let call = FunctionCall {
        steps: vec![
            Step::ReadValue { id: 6 },
            Step::Write { id: 6, value: 61 },
            Step::ReadValue { id: 6 },
        ],
    };
    let values = session.execute_function_bypass_visibility(&call).unwrap();
    assert_eq!(values, vec![60, 61]);
}
