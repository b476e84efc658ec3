//! Execution sessions: a bound, single-transaction scope over a state
//! snapshot and a gas meter, wrapping the virtual machine.
//!
//! A session is opened over the resolved base state, runs hook calls and the
//! user action, and is finalized exactly once into a raw output. A failed
//! attempt may be respawned: the in-flight overlay is discarded and a fresh
//! generation is opened over the same immutable base, seeded with the
//! preserved transient context variables. Every operation is proved against
//! the `spec_run_*` model of `crate::action`.

use vstd::prelude::*;
use crate::action::{
    calls_view, lemma_run_calls_frozen, lemma_run_calls_snoc, lemma_run_calls_split,
    lemma_run_steps_frozen, lemma_run_steps_snoc, lemma_run_steps_split, spec_run_calls,
    spec_run_steps, steps_valid, FunctionCall, MoveAction, SessRec, Step, VerifiedMoveAction,
};
use crate::context::{ContextMap, TxContext, TxResult};
use crate::gas::{CostTable, GasMeter, DEFAULT_INSTRUCTION_COST};
use crate::state::{
    entries_clone, entries_get, entries_remove, entries_upsert, lemma_apply_ops_snoc,
    root_of_entries, seq_get, spec_apply_ops, spec_root_of, unique_ids, values_clone,
    RawTransactionOutput, StateChangeSet, StateDBStore, StateOp,
};
use crate::status::{
    KeptStatus, Status, VmError, CODE_INVALID_ACTION, CODE_READONLY_MUTATION,
};

verus! {

/// Configuration of the virtual machine the engine wraps.
#[derive(Clone, Copy, Debug, PartialEq, Eq, Structural)]
pub struct MoveOSConfig {
    pub max_binary_format_version: u32,
    pub paranoid_type_checks: bool,
}

impl Default for MoveOSConfig {
    fn default() -> (r: Self)
        ensures
            r.max_binary_format_version == 7u32,
            !r.paranoid_type_checks,
    {
        MoveOSConfig { max_binary_format_version: 7, paranoid_type_checks: false }
    }
}

/// The virtual-machine capability: opens sessions and owns the compiled
/// module cache validity flag.
#[derive(Clone, Copy, Debug, PartialEq, Eq, Structural)]
pub struct MoveOSVM {
    pub config: MoveOSConfig,
    pub loader_cache_valid: bool,
}

/// The step lists written by genesis object seeding.
pub open spec fn genesis_ops(objs: Seq<(u64, u64)>) -> Seq<StateOp> {
    objs.map_values(|p: (u64, u64)| StateOp::Write { id: p.0, value: p.1 })
}

impl MoveOSVM {
    pub fn new(config: MoveOSConfig) -> (r: MoveOSVM)
        ensures
            r.config == config,
            r.loader_cache_valid,
    {
        MoveOSVM { config, loader_cache_valid: true }
    }

    /// Invalidates the compiled-module cache, on an upgrade boundary.
    pub fn mark_loader_cache_as_invalid(&mut self)
        ensures
            *final(self) == (MoveOSVM { loader_cache_valid: false, ..*old(self) }),
    {
        self.loader_cache_valid = false;
    }

    /// Opens a mutable session over a snapshot of the resolved state.
    pub fn new_session(&self, state_store: &StateDBStore, ctx: TxContext, gas: GasMeter) -> (s:
        MoveOSSession)
        requires
            state_store.wf(),
            ctx.wf(),
            gas.wf(),
        ensures
            s.wf(),
            s.base@ == state_store.entries@,
            s.ctx == ctx,
            s.gas == gas,
            !s.read_only,
            s.rec() == (SessRec {
                state: state_store.entries@,
                ops: Seq::<StateOp>::empty(),
                events: Seq::<u64>::empty(),
                ctx: ctx.map@,
                returns: Seq::<u64>::empty(),
                is_upgrade: false,
                gas_used: gas.used,
                failure: None::<Status>,
            }),
    {
        let s = MoveOSSession {
            base: entries_clone(&state_store.entries),
            state: entries_clone(&state_store.entries),
            ops: Vec::new(),
            events: Vec::new(),
            returns: Vec::new(),
            ctx,
            gas,
            read_only: false,
            is_upgrade: false,
        };
        proof {
            assert(s.rec() =~= (SessRec {
                state: state_store.entries@,
                ops: Seq::<StateOp>::empty(),
                events: Seq::<u64>::empty(),
                ctx: s.ctx.map@,
                returns: Seq::<u64>::empty(),
                is_upgrade: false,
                gas_used: gas.used,
                failure: None::<Status>,
            }));
        }
        s
    }

    /// Opens a read-only session: it can run calls, but finalizing it with
    /// accumulated mutations is an error.
    pub fn new_readonly_session(&self, state_store: &StateDBStore, ctx: TxContext, gas: GasMeter) -> (s:
        MoveOSSession)
        requires
            state_store.wf(),
            ctx.wf(),
            gas.wf(),
        ensures
            s.wf(),
            s.base@ == state_store.entries@,
            s.ctx == ctx,
            s.gas == gas,
            s.read_only,
            s.rec() == (SessRec {
                state: state_store.entries@,
                ops: Seq::<StateOp>::empty(),
                events: Seq::<u64>::empty(),
                ctx: ctx.map@,
                returns: Seq::<u64>::empty(),
                is_upgrade: false,
                gas_used: gas.used,
                failure: None::<Status>,
            }),
    {
        let s = MoveOSSession {
            base: entries_clone(&state_store.entries),
            state: entries_clone(&state_store.entries),
            ops: Vec::new(),
            events: Vec::new(),
            returns: Vec::new(),
            ctx,
            gas,
            read_only: true,
            is_upgrade: false,
        };
        proof {
            assert(s.rec() =~= (SessRec {
                state: state_store.entries@,
                ops: Seq::<StateOp>::empty(),
                events: Seq::<u64>::empty(),
                ctx: s.ctx.map@,
                returns: Seq::<u64>::empty(),
                is_upgrade: false,
                gas_used: gas.used,
                failure: None::<Status>,
            }));
        }
        s
    }

    /// Opens the genesis session: an unmetered mutable session seeded with
    /// the pre-created genesis objects, which are logged as writes.
    pub fn new_genesis_session(
        &self,
        state_store: &StateDBStore,
        ctx: TxContext,
        genesis_objects: &Vec<(u64, u64)>,
    ) -> (s: MoveOSSession)
        requires
            state_store.wf(),
            ctx.wf(),
        ensures
            s.wf(),
            s.base@ == state_store.entries@,
            s.ctx == ctx,
            !s.read_only,
            s.gas == (GasMeter {
                cost_table: CostTable { instruction_cost: DEFAULT_INSTRUCTION_COST },
                budget: u64::MAX,
                used: 0u64,
                metering: false,
            }),
            s.rec() == (SessRec {
                state: spec_apply_ops(state_store.entries@, genesis_ops(genesis_objects@)),
                ops: genesis_ops(genesis_objects@),
                events: Seq::<u64>::empty(),
                ctx: ctx.map@,
                returns: Seq::<u64>::empty(),
                is_upgrade: false,
                gas_used: 0u64,
                failure: None::<Status>,
            }),
    {
        let mut gas = GasMeter::new(
            CostTable { instruction_cost: DEFAULT_INSTRUCTION_COST },
            u64::MAX,
        );
        gas.set_metering(false);
        let base = entries_clone(&state_store.entries);
        let mut state = entries_clone(&state_store.entries);
        let mut ops: Vec<StateOp> = Vec::new();
        let mut i: usize = 0;
        while i < genesis_objects.len()
            invariant
                i <= genesis_objects.len(),
                base@ == state_store.entries@,
                unique_ids(base@),
                unique_ids(state@),
                ops@ == genesis_ops(genesis_objects@).take(i as int),
                state@ == spec_apply_ops(base@, ops@),
            decreases genesis_objects.len() - i,
        {
            let (id, value) = genesis_objects[i];
            let ghost pre_ops = ops@;
            entries_upsert(&mut state, id, value);
            ops.push(StateOp::Write { id, value });
            i = i + 1;
            proof {
                assert(genesis_ops(genesis_objects@)[i - 1] == (StateOp::Write { id, value }));
                assert(genesis_ops(genesis_objects@).take(i as int) =~= genesis_ops(
                    genesis_objects@,
                ).take(i - 1).push(StateOp::Write { id, value }));
                lemma_apply_ops_snoc(base@, pre_ops, StateOp::Write { id, value });
            }
        }
        proof {
            assert(genesis_ops(genesis_objects@).take(genesis_objects@.len() as int) =~= genesis_ops(
                genesis_objects@,
            ));
        }
        MoveOSSession {
            base,
            state,
            ops,
            events: Vec::new(),
            returns: Vec::new(),
            ctx,
            gas,
            read_only: false,
            is_upgrade: false,
        }
    }
}

/// A single-use execution scope: an immutable base snapshot, the resolved
/// state with its logged mutations, emitted events, the transaction context,
/// and the gas meter.
#[derive(Debug)]
pub struct MoveOSSession {
    pub base: Vec<(u64, u64)>,
    pub state: Vec<(u64, u64)>,
    pub ops: Vec<StateOp>,
    pub events: Vec<u64>,
    pub returns: Vec<u64>,
    pub ctx: TxContext,
    pub gas: GasMeter,
    pub read_only: bool,
    pub is_upgrade: bool,
}

impl MoveOSSession {
    /// The specification-level record of this session.
    pub open spec fn rec(self) -> SessRec {
        SessRec {
            state: self.state@,
            ops: self.ops@,
            events: self.events@,
            ctx: self.ctx.map@,
            returns: self.returns@,
            is_upgrade: self.is_upgrade,
            gas_used: self.gas.used,
            failure: None::<Status>,
        }
    }

    /// Per-step cost the meter charges.
    pub open spec fn cost(self) -> u64 {
        self.gas.cost_table.instruction_cost
    }

    pub open spec fn budget(self) -> u64 {
        self.gas.budget
    }

    /// Whether a run with the given charge flag actually deducts gas.
    pub open spec fn charging(self, charge_gas: bool) -> bool {
        charge_gas && self.gas.metering
    }

    /// Well-formed session: unique identifiers everywhere, a sound meter,
    /// and a resolved state that equals the logged mutations applied to the
    /// base.
    pub open spec fn wf(self) -> bool {
        &&& unique_ids(self.base@)
        &&& unique_ids(self.state@)
        &&& unique_ids(self.ctx.map@)
        &&& self.gas.wf()
        &&& self.state@ == spec_apply_ops(self.base@, self.ops@)
    }

    /// The parts of a session no run of steps may change: the base, the
    /// meter configuration, the mode, and the context outside its side-map.
    pub open spec fn same_config(a: MoveOSSession, b: MoveOSSession) -> bool {
        &&& a.base@ == b.base@
        &&& a.gas.cost_table == b.gas.cost_table
        &&& a.gas.budget == b.gas.budget
        &&& a.gas.metering == b.gas.metering
        &&& a.read_only == b.read_only
        &&& a.ctx.sender == b.ctx.sender
        &&& a.ctx.tx_hash == b.ctx.tx_hash
        &&& a.ctx.tx_size == b.ctx.tx_size
        &&& a.ctx.max_gas_amount == b.ctx.max_gas_amount
        &&& a.ctx.system_call == b.ctx.system_call
        &&& a.ctx.tx_result == b.ctx.tx_result
    }

    /// Runs one step list. The result and the final session state follow the
    /// `spec_run_steps` model exactly.
    fn execute_steps(&mut self, steps: &Vec<Step>, charge_gas: bool) -> (result: Result<
        (),
        VmError,
    >)
        requires
            old(self).wf(),
        ensures
            final(self).wf(),
            MoveOSSession::same_config(*old(self), *final(self)),
            ({
                let run = spec_run_steps(
                    old(self).rec(),
                    steps@,
                    old(self).charging(charge_gas),
                    old(self).cost(),
                    old(self).budget(),
                );
                &&& final(self).rec() == (SessRec { failure: None::<Status>, ..run })
                &&& (result is Ok <==> run.failure is None)
                &&& (result matches Err(e) ==> run.failure == Some(e.status))
            }),
    {
        let ghost r0 = old(self).rec();
        let ghost charging = old(self).charging(charge_gas);
        let ghost cost_g = old(self).cost();
        let ghost budget_g = old(self).budget();
        let mut i: usize = 0;
        while i < steps.len()
            invariant
                i <= steps.len(),
                self.wf(),
                MoveOSSession::same_config(*old(self), *self),
                r0 == old(self).rec(),
                charging == old(self).charging(charge_gas),
                cost_g == old(self).cost(),
                budget_g == old(self).budget(),
                spec_run_steps(r0, steps@.take(i as int), charging, cost_g, budget_g).failure
                    is None,
                self.rec() == spec_run_steps(r0, steps@.take(i as int), charging, cost_g, budget_g),
            decreases steps.len() - i,
        {
            let ghost run_i = spec_run_steps(r0, steps@.take(i as int), charging, cost_g, budget_g);
            proof {
                assert(steps@.take(i + 1) =~= steps@.take(i as int).push(steps@[i as int]));
                lemma_run_steps_snoc(r0, steps@.take(i as int), steps@[i as int], charging, cost_g, budget_g);
            }
            if charge_gas {
                let cost = self.gas.cost_table.instruction_cost;
                match self.gas.charge(cost) {
                    Ok(()) => {},
                    Err(e) => {
                        proof {
                            lemma_run_steps_split(r0, steps@, i + 1, charging, cost_g, budget_g);
                            lemma_run_steps_frozen(
                                spec_run_steps(r0, steps@.take(i + 1), charging, cost_g, budget_g),
                                steps@.skip(i + 1),
                                charging,
                                cost_g,
                                budget_g,
                            );
                        }
                        return Err(e);
                    },
                }
            }
            match steps[i] {
                Step::Write { id, value } => {
                    let ghost pre_ops = self.ops@;
                    entries_upsert(&mut self.state, id, value);
                    self.ops.push(StateOp::Write { id, value });
                    proof {
                        lemma_apply_ops_snoc(
                            self.base@,
                            pre_ops,
                            StateOp::Write { id, value },
                        );
                    }
                },
                Step::Remove { id } => {
                    let ghost pre_ops = self.ops@;
                    entries_remove(&mut self.state, id);
                    self.ops.push(StateOp::Remove { id });
                    proof {
                        lemma_apply_ops_snoc(
                            self.base@,
                            pre_ops,
                            StateOp::Remove { id },
                        );
                    }
                },
                Step::Emit { data } => {
                    self.events.push(data);
                },
                Step::SetCtxVar { key, value } => {
                    self.ctx.map.insert(key, value);
                },
                Step::ReadValue { id } => {
                    let v = match entries_get(&self.state, id) {
                        Some(x) => x,
                        None => 0,
                    };
                    self.returns.push(v);
                },
                Step::Upgrade => {
                    self.is_upgrade = true;
                },
                Step::Abort { code } => {
                    proof {
                        lemma_run_steps_split(r0, steps@, i + 1, charging, cost_g, budget_g);
                        lemma_run_steps_frozen(
                            spec_run_steps(r0, steps@.take(i + 1), charging, cost_g, budget_g),
                            steps@.skip(i + 1),
                            charging,
                            cost_g,
                            budget_g,
                        );
                    }
                    return Err(VmError { status: Status::MoveAbort { code } });
                },
            }
            i = i + 1;
        }
        proof {
            assert(steps@.take(steps@.len() as int) =~= steps@);
        }
        Ok(())
    }

    /// Runs an ordered list of hook calls; with `charge_gas` false the calls
    /// are exempt from metering (system hooks are protocol overhead).
    pub fn execute_function_call(&mut self, calls: &Vec<FunctionCall>, charge_gas: bool) -> (result:
        Result<(), VmError>)
        requires
            old(self).wf(),
        ensures
            final(self).wf(),
            MoveOSSession::same_config(*old(self), *final(self)),
            ({
                let run = spec_run_calls(
                    old(self).rec(),
                    calls_view(calls@),
                    old(self).charging(charge_gas),
                    old(self).cost(),
                    old(self).budget(),
                );
                &&& final(self).rec() == (SessRec { failure: None::<Status>, ..run })
                &&& (result is Ok <==> run.failure is None)
                &&& (result matches Err(e) ==> run.failure == Some(e.status))
            }),
    {
        let ghost r0 = old(self).rec();
        let ghost charging = old(self).charging(charge_gas);
        let ghost cost_g = old(self).cost();
        let ghost budget_g = old(self).budget();
        let ghost bodies = calls_view(calls@);
        let mut i: usize = 0;
        while i < calls.len()
            invariant
                i <= calls.len(),
                self.wf(),
                MoveOSSession::same_config(*old(self), *self),
                r0 == old(self).rec(),
                charging == old(self).charging(charge_gas),
                cost_g == old(self).cost(),
                budget_g == old(self).budget(),
                charging == self.charging(charge_gas),
                bodies == calls_view(calls@),
                bodies.len() == calls@.len(),
                spec_run_calls(r0, bodies.take(i as int), charging, cost_g, budget_g).failure
                    is None,
                self.rec() == spec_run_calls(r0, bodies.take(i as int), charging, cost_g, budget_g),
            decreases calls.len() - i,
        {
            proof {
                assert(bodies[i as int] == calls@[i as int].steps@);
                assert(bodies.take(i + 1) =~= bodies.take(i as int).push(bodies[i as int]));
                lemma_run_calls_snoc(r0, bodies.take(i as int), bodies[i as int], charging, cost_g, budget_g);
            }
            match self.execute_steps(&calls[i].steps, charge_gas) {
                Ok(()) => {},
                Err(e) => {
                    proof {
                        lemma_run_calls_split(r0, bodies, i + 1, charging, cost_g, budget_g);
                        lemma_run_calls_frozen(
                            spec_run_calls(r0, bodies.take(i + 1), charging, cost_g, budget_g),
                            bodies.skip(i + 1),
                            charging,
                            cost_g,
                            budget_g,
                        );
                    }
                    return Err(e);
                },
            }
            i = i + 1;
        }
        proof {
            assert(bodies.take(bodies.len() as int) =~= bodies);
        }
        Ok(())
    }

    /// Runs the primary user action, gas-charged.
    pub fn execute_move_action(&mut self, action: &VerifiedMoveAction) -> (result: Result<
        (),
        VmError,
    >)
        requires
            old(self).wf(),
        ensures
            final(self).wf(),
            MoveOSSession::same_config(*old(self), *final(self)),
            ({
                let run = spec_run_steps(
                    old(self).rec(),
                    action.steps@,
                    old(self).charging(true),
                    old(self).cost(),
                    old(self).budget(),
                );
                &&& final(self).rec() == (SessRec { failure: None::<Status>, ..run })
                &&& (result is Ok <==> run.failure is None)
                &&& (result matches Err(e) ==> run.failure == Some(e.status))
            }),
    {
        self.execute_steps(&action.steps, true)
    }

    /// Runs one call regardless of visibility (the read-only entry point)
    /// and hands back the values it read.
    pub fn execute_function_bypass_visibility(&mut self, call: &FunctionCall) -> (result: Result<
        Vec<u64>,
        VmError,
    >)
        requires
            old(self).wf(),
        ensures
            final(self).wf(),
            MoveOSSession::same_config(*old(self), *final(self)),
            ({
                let run = spec_run_steps(
                    old(self).rec(),
                    call.steps@,
                    old(self).charging(true),
                    old(self).cost(),
                    old(self).budget(),
                );
                &&& final(self).rec() == (SessRec { failure: None::<Status>, ..run })
                &&& (result is Ok <==> run.failure is None)
                &&& (result matches Ok(values) ==> values@ == run.returns)
                &&& (result matches Err(e) ==> run.failure == Some(e.status))
            }),
    {
        match self.execute_steps(&call.steps, true) {
            Ok(()) => Ok(values_clone(&self.returns)),
            Err(e) => Err(e),
        }
    }

    /// Statically validates an action against the current state, without
    /// mutating anything; a valid action is returned in verified form.
    pub fn verify_move_action(&self, action: &MoveAction) -> (result: Result<
        VerifiedMoveAction,
        VmError,
    >)
        ensures
            result is Ok <==> steps_valid(action.steps@),
            result matches Ok(v) ==> v.steps@ == action.steps@,
            result matches Err(e) ==> e.status == (Status::Discarded { code: CODE_INVALID_ACTION }),
    {
        if crate::action::check_steps_valid(&action.steps) {
            Ok(VerifiedMoveAction { steps: crate::action::steps_clone(&action.steps) })
        } else {
            Err(VmError { status: Status::Discarded { code: CODE_INVALID_ACTION } })
        }
    }

    /// Discards every mutation this generation accumulated and opens a fresh
    /// generation over the original base, seeded with the caller-preserved
    /// transient context variables. Gas already charged stays charged.
    pub fn respawn(self, system_env: ContextMap) -> (s: MoveOSSession)
        requires
            self.wf(),
            unique_ids(system_env@),
        ensures
            s.wf(),
            MoveOSSession::same_config(self, s),
            s.rec() == (SessRec {
                state: self.base@,
                ops: Seq::<StateOp>::empty(),
                events: Seq::<u64>::empty(),
                ctx: system_env@,
                returns: Seq::<u64>::empty(),
                is_upgrade: false,
                gas_used: self.gas.used,
                failure: None::<Status>,
            }),
    {
        let state = entries_clone(&self.base);
        let s = MoveOSSession {
            state,
            base: self.base,
            ops: Vec::new(),
            events: Vec::new(),
            returns: Vec::new(),
            ctx: TxContext {
                sender: self.ctx.sender,
                tx_hash: self.ctx.tx_hash,
                tx_size: self.ctx.tx_size,
                max_gas_amount: self.ctx.max_gas_amount,
                system_call: self.ctx.system_call,
                map: system_env,
                tx_result: self.ctx.tx_result,
            },
            gas: self.gas,
            read_only: self.read_only,
            is_upgrade: false,
        };
        s
    }

    /// Gas consumed so far in this session.
    pub fn query_gas_used(&self) -> (r: u64)
        ensures
            r == self.gas.used,
    {
        self.gas.gas_used()
    }

    /// The transaction context of this session.
    pub fn tx_context(&self) -> (r: &TxContext)
        ensures
            r == &self.ctx,
    {
        &self.ctx
    }

    /// Records the execution outcome into the context's result slot. Always
    /// succeeds.
    pub fn add_to_tx_context(&mut self, tx_result: TxResult)
        ensures
            final(self).rec() == old(self).rec(),
            final(self).wf() == old(self).wf(),
            final(self).base@ == old(self).base@,
            final(self).gas == old(self).gas,
            final(self).read_only == old(self).read_only,
            final(self).ctx.sender == old(self).ctx.sender,
            final(self).ctx.tx_hash == old(self).ctx.tx_hash,
            final(self).ctx.tx_size == old(self).ctx.tx_size,
            final(self).ctx.max_gas_amount == old(self).ctx.max_gas_amount,
            final(self).ctx.system_call == old(self).ctx.system_call,
            final(self).ctx.tx_result == Some(tx_result),
    {
        self.ctx.tx_result = Some(tx_result);
    }

    /// Terminal operation: extracts the accumulated changeset, events and
    /// gas into a raw output and closes the session. A read-only session
    /// that accumulated mutations is rejected instead.
    pub fn finish_with_extensions(self, status: KeptStatus) -> (result: Result<
        (TxContext, RawTransactionOutput),
        VmError,
    >)
        requires
            self.wf(),
        ensures
            result is Err <==> self.read_only && self.ops@.len() > 0,
            result matches Err(e) ==> e.status == (Status::Discarded {
                code: CODE_READONLY_MUTATION,
            }),
            result matches Ok((ctx, out)) ==> {
                &&& ctx == self.ctx
                &&& out.status == status
                &&& out.changeset.ops@ == self.ops@
                &&& out.changeset.state_root == spec_root_of(self.state@)
                &&& out.changeset.global_size == self.state@.len()
                &&& out.events@ == self.events@
                &&& out.gas_used == self.gas.used
                &&& out.is_upgrade == self.is_upgrade
            },
    {
        if self.read_only && self.ops.len() > 0 {
            return Err(VmError { status: Status::Discarded { code: CODE_READONLY_MUTATION } });
        }
        let state_root = root_of_entries(&self.state);
        let global_size = self.state.len() as u64;
        let changeset = StateChangeSet { ops: self.ops, state_root, global_size };
        let output = RawTransactionOutput {
            status,
            changeset,
            events: self.events,
            gas_used: self.gas.gas_used(),
            is_upgrade: self.is_upgrade,
        };
        Ok((self.ctx, output))
    }

    /// The value currently resolved under `id` in this session.
    pub fn resolve(&self, id: u64) -> (r: Option<u64>)
        ensures
            r == seq_get(self.state@, id),
    {
        entries_get(&self.state, id)
    }
}

} // verus!
