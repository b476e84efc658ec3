//! The transaction engine: verify, execute, and execute-and-apply entry
//! points over the persistent stores, the cost-schedule cache, and the two
//! system hook lists.
//!
//! Every entry point turns one transaction into exactly one deterministic
//! outcome: a raw or applied output, a recoverable failure accounted in the
//! output, or an error. Unrecoverable host faults (a discarded status, a
//! failing system call) are a distinct error category that callers must not
//! treat as an ordinary business error.

use vstd::prelude::*;
use crate::action::{
    calls_view, calls_wf, lemma_clear_none_failure, lemma_run_calls_failure_kind,
    lemma_run_calls_frozen, lemma_run_calls_gas, lemma_run_calls_uncharged_ok,
    lemma_run_steps_failure_kind, lemma_run_steps_frozen, lemma_run_steps_gas, spec_run_calls,
    spec_run_steps, steps_valid, FunctionCall, MoveAction, MoveOSTransaction, ObjectMeta, SessRec,
    Step, VerifiedMoveAction, VerifiedMoveOSTransaction,
};
use crate::context::{TxContext, TxResult, GAS_SCHEDULE_UPDATED_KEY};
use crate::gas::{CostTable, GasMeter, DEFAULT_INSTRUCTION_COST, GAS_SCHEDULE_OBJECT_ID, READONLY_MAX_GAS_AMOUNT};
use crate::session::{genesis_ops, MoveOSConfig, MoveOSSession, MoveOSVM};
use crate::state::{
    seq_get, spec_apply_ops, spec_root_of, ConfigDBStore, Event, EventDBStore, MoveOSStore,
    RawTransactionOutput, StartupInfo, StateDBStore, StateOp, TransactionDBStore,
    TransactionOutput,
};
use crate::status::{
    spec_keep_or_discard, vm_status_of_result, KeptStatus, Status, VmError,
    CODE_EVENT_ID_OVERFLOW, CODE_INVALID_ACTION, CODE_MAX_GAS_BOUND, CODE_READONLY_MUTATION,
};

verus! {

/// The account a transaction's gas is paid from.
#[derive(Clone, Copy, Debug, PartialEq, Eq, Structural)]
pub struct GasPaymentAccount {
    pub account: u64,
    pub pay_gas_by_module_account: bool,
}

/// Result of a read-only function call: the values it read, or the error it
/// stopped on.
#[derive(Clone, Debug, PartialEq, Eq)]
pub enum FunctionResult {
    Value { return_values: Vec<u64> },
    Failure { error: VmError },
}

impl FunctionResult {
    pub fn ok(return_values: Vec<u64>) -> (r: FunctionResult)
        ensures
            r == (FunctionResult::Value { return_values }),
    {
        FunctionResult::Value { return_values }
    }

    pub fn err(error: VmError) -> (r: FunctionResult)
        ensures
            r == (FunctionResult::Failure { error }),
    {
        FunctionResult::Failure { error }
    }
}

/// An unrecoverable host fault: evidence of a verifier, VM, or protocol
/// defect, never a user error.
#[derive(Clone, Copy, Debug, PartialEq, Eq, Structural)]
pub enum HostFault {
    /// The VM reported a protocol-level (discarded) status after
    /// verification.
    Discarded { code: u64 },
    /// A system call did not execute successfully.
    SystemCallFailed { status: KeptStatus },
    /// A system call carried user pre- or post-execute hooks.
    SystemCallWithUserHooks,
}

/// Error of an engine entry point.
#[derive(Clone, Copy, Debug, PartialEq, Eq, Structural)]
pub enum EngineError {
    /// The engine was constructed with system hook lists that fail the
    /// static checks or could abort.
    InvalidSystemHooks,
    /// A virtual-machine status surfaced as an error.
    Vm { status: Status },
    /// A storage fault: the stores could not take the output.
    Storage { code: u64 },
    /// A genesis transaction did not execute successfully.
    GenesisFailed { status: KeptStatus },
    /// An unrecoverable host fault; callers must halt processing of the
    /// operation rather than treat this as an ordinary business error.
    Fault { fault: HostFault },
}

/// The cost table derived from chain state: the gas schedule object, or the
/// default cost where the state holds none.
pub open spec fn spec_table_from_state(state: Seq<(u64, u64)>) -> CostTable {
    CostTable {
        instruction_cost: match seq_get(state, GAS_SCHEDULE_OBJECT_ID) {
            Some(v) => v,
            None => DEFAULT_INSTRUCTION_COST,
        },
    }
}

/// The cost table `load_cost_table` returns: the cached table, or a fresh
/// one derived from state.
pub open spec fn spec_loaded_table(m: MoveOS) -> CostTable {
    match m.cost_table {
        Some(t) => t,
        None => spec_table_from_state(m.db.state_store.entries@),
    }
}

/// Whether a root reference matches the engine's current state.
pub open spec fn root_matches(m: MoveOS, root: ObjectMeta) -> bool {
    &&& root.state_root == spec_root_of(m.db.state_store.entries@)
    &&& root.size == m.db.state_store.entries@.len()
}

/// Specification-level view of a raw output.
#[verifier::ext_equal]
pub struct RawOutRec {
    pub status: KeptStatus,
    pub ops: Seq<StateOp>,
    pub state_root: u64,
    pub global_size: u64,
    pub events: Seq<u64>,
    pub gas_used: u64,
    pub is_upgrade: bool,
}

pub open spec fn raw_out_rec(o: RawTransactionOutput) -> RawOutRec {
    RawOutRec {
        status: o.status,
        ops: o.changeset.ops@,
        state_root: o.changeset.state_root,
        global_size: o.changeset.global_size,
        events: o.events@,
        gas_used: o.gas_used,
        is_upgrade: o.is_upgrade,
    }
}

/// The raw output that finalizing a session in state `r` with `status`
/// produces.
pub open spec fn spec_finish_rec(r: SessRec, status: KeptStatus) -> RawOutRec {
    RawOutRec {
        status,
        ops: r.ops,
        state_root: spec_root_of(r.state),
        global_size: r.state.len() as u64,
        events: r.events,
        gas_used: r.gas_used,
        is_upgrade: r.is_upgrade,
    }
}

/// Outcome of an execute entry point: the result handed back, and the state
/// of the cost-table cache afterwards.
#[verifier::ext_equal]
pub struct ExecOutcome {
    pub result: Result<RawOutRec, EngineError>,
    pub cost_table: Option<CostTable>,
}

/// The terminal cleanup step: classify the status (a discarded status, or a
/// system call that did not execute, is a host fault), run the system
/// post-execute hooks ungassed unless this is a system call, clear the
/// cost-table cache if the gas-schedule-updated marker is present, and
/// finalize.
pub open spec fn spec_cleanup(
    cache: Option<CostTable>,
    sys_post: Seq<Seq<Step>>,
    is_system_call: bool,
    r: SessRec,
    status: Status,
    cost: u64,
    budget: u64,
) -> ExecOutcome {
    match spec_keep_or_discard(status) {
        Err(code) => ExecOutcome {
            result: Err(EngineError::Fault { fault: HostFault::Discarded { code } }),
            cost_table: cache,
        },
        Ok(kept) => if is_system_call && !(kept is Executed) {
            ExecOutcome {
                result: Err(EngineError::Fault {
                    fault: HostFault::SystemCallFailed { status: kept },
                }),
                cost_table: cache,
            }
        } else {
            let r2 = if !is_system_call {
                spec_run_calls(r, sys_post, false, cost, budget)
            } else {
                r
            };
            let cleared = seq_get(r2.ctx, GAS_SCHEDULE_UPDATED_KEY) is Some;
            ExecOutcome {
                result: Ok(spec_finish_rec(r2, kept)),
                cost_table: if cleared {
                    None
                } else {
                    cache
                },
            }
        },
    }
}

/// The full outcome of `execute` on a verified transaction: the system-call
/// invariant check, the deterministic I/O-write charge, the system and user
/// pre-execute hooks, the action, the user post-execute hooks, the respawn
/// protocol on failure, and the cleanup.
pub open spec fn spec_execute(m: MoveOS, tx: VerifiedMoveOSTransaction) -> ExecOutcome {
    let is_system_call = tx.ctx.system_call;
    let sys_pre = calls_view(m.system_pre_execute_functions@);
    let sys_post = calls_view(m.system_post_execute_functions@);
    if is_system_call && (tx.pre_execute_functions@.len() > 0 || tx.post_execute_functions@.len()
        > 0) {
        ExecOutcome {
            result: Err(EngineError::Fault { fault: HostFault::SystemCallWithUserHooks }),
            cost_table: m.cost_table,
        }
    } else {
        let table = spec_loaded_table(m);
        let cost = table.instruction_cost;
        let budget = tx.ctx.max_gas_amount;
        if tx.ctx.tx_size > budget {
            ExecOutcome {
                result: Err(EngineError::Vm { status: Status::OutOfGas }),
                cost_table: Some(table),
            }
        } else {
            let r0 = SessRec {
                state: m.db.state_store.entries@,
                ops: Seq::<StateOp>::empty(),
                events: Seq::<u64>::empty(),
                ctx: tx.ctx.map@,
                returns: Seq::<u64>::empty(),
                is_upgrade: false,
                gas_used: tx.ctx.tx_size,
                failure: None::<Status>,
            };
            let r1 = if !is_system_call {
                spec_run_calls(r0, sys_pre, false, cost, budget)
            } else {
                r0
            };
            let rb = spec_run_calls(r1, calls_view(tx.pre_execute_functions@), true, cost, budget);
            let rc = spec_run_steps(rb, tx.action.steps@, true, cost, budget);
            let rd = spec_run_calls(rc, calls_view(tx.post_execute_functions@), true, cost, budget);
            if rb.failure is Some {
                spec_cleanup(
                    Some(table),
                    sys_post,
                    is_system_call,
                    SessRec { failure: None::<Status>, ..rb },
                    rb.failure->0,
                    cost,
                    budget,
                )
            } else if rd.failure is Some {
                let rr0 = SessRec {
                    state: m.db.state_store.entries@,
                    ops: Seq::<StateOp>::empty(),
                    events: Seq::<u64>::empty(),
                    ctx: tx.ctx.map@,
                    returns: Seq::<u64>::empty(),
                    is_upgrade: false,
                    gas_used: rd.gas_used,
                    failure: None::<Status>,
                };
                let rr1 = spec_run_calls(rr0, sys_pre, false, cost, budget);
                let rr2 = spec_run_calls(
                    spec_run_calls(rr1, calls_view(tx.pre_execute_functions@), true, cost, budget),
                    calls_view(tx.post_execute_functions@),
                    true,
                    cost,
                    budget,
                );
                spec_cleanup(
                    Some(table),
                    sys_post,
                    is_system_call,
                    SessRec { failure: None::<Status>, ..rr2 },
                    rd.failure->0,
                    cost,
                    budget,
                )
            } else {
                spec_cleanup(Some(table), sys_post, is_system_call, rd, Status::Executed, cost, budget)
            }
        }
    }
}

/// The raw outcome of a genesis transaction: verify the action, run it
/// unmetered over the base seeded with the genesis objects, and demand
/// success.
pub open spec fn spec_genesis(m: MoveOS, tx: MoveOSTransaction, objs: Seq<(u64, u64)>) -> Result<
    RawOutRec,
    EngineError,
> {
    if !steps_valid(tx.action.steps@) {
        Err(EngineError::Vm { status: Status::Discarded { code: CODE_INVALID_ACTION } })
    } else {
        let r0 = SessRec {
            state: spec_apply_ops(m.db.state_store.entries@, genesis_ops(objs)),
            ops: genesis_ops(objs),
            events: Seq::<u64>::empty(),
            ctx: tx.ctx.map@,
            returns: Seq::<u64>::empty(),
            is_upgrade: false,
            gas_used: 0u64,
            failure: None::<Status>,
        };
        let run = spec_run_steps(r0, tx.action.steps@, false, DEFAULT_INSTRUCTION_COST, u64::MAX);
        match run.failure {
            Some(st) => match spec_keep_or_discard(st) {
                Ok(kept) => Err(EngineError::GenesisFailed { status: kept }),
                Err(code) => Err(EngineError::Fault { fault: HostFault::Discarded { code } }),
            },
            None => Ok(spec_finish_rec(run, KeptStatus::Executed)),
        }
    }
}

/// The outcome of a read-only function call: the gas ceiling is enforced
/// before anything else; the call runs metered over the current state; a
/// call that mutated state is rejected at finalization.
pub open spec fn spec_readonly_call(
    m: MoveOS,
    ctx_max_gas: u64,
    ctx_map: Seq<(u64, u64)>,
    steps: Seq<Step>,
) -> (Result<Seq<u64>, VmError>, Option<CostTable>) {
    if ctx_max_gas > READONLY_MAX_GAS_AMOUNT {
        (
            Err(VmError { status: Status::Discarded { code: CODE_MAX_GAS_BOUND } }),
            m.cost_table,
        )
    } else {
        let table = spec_loaded_table(m);
        let r0 = SessRec {
            state: m.db.state_store.entries@,
            ops: Seq::<StateOp>::empty(),
            events: Seq::<u64>::empty(),
            ctx: ctx_map,
            returns: Seq::<u64>::empty(),
            is_upgrade: false,
            gas_used: 0u64,
            failure: None::<Status>,
        };
        let run = spec_run_steps(r0, steps, true, table.instruction_cost, ctx_max_gas);
        match run.failure {
            Some(st) => (Err(VmError { status: st }), Some(table)),
            None => if run.ops.len() > 0 {
                (
                    Err(VmError { status: Status::Discarded { code: CODE_READONLY_MUTATION } }),
                    Some(table),
                )
            } else {
                (Ok(run.returns), Some(table))
            },
        }
    }
}

/// Recoverable-failure law: a transaction that is not a system call and
/// whose size charge fits its budget always yields an accounted output —
/// never an engine error. On full success the output's status is
/// `Executed`; otherwise it is the kept form of the *original* failing
/// status of the pre-respawn attempt (gas exhaustion or an abort becomes a
/// recorded outcome, not a panic and not a host fault).
pub proof fn lemma_execute_accounted_outcome(m: MoveOS, tx: VerifiedMoveOSTransaction)
    requires
        !tx.ctx.system_call,
        tx.ctx.tx_size <= tx.ctx.max_gas_amount,
    ensures
        spec_execute(m, tx).result is Ok,
        ({
            let table = spec_loaded_table(m);
            let cost = table.instruction_cost;
            let budget = tx.ctx.max_gas_amount;
            let r0 = SessRec {
                state: m.db.state_store.entries@,
                ops: Seq::<StateOp>::empty(),
                events: Seq::<u64>::empty(),
                ctx: tx.ctx.map@,
                returns: Seq::<u64>::empty(),
                is_upgrade: false,
                gas_used: tx.ctx.tx_size,
                failure: None::<Status>,
            };
            let r1 = spec_run_calls(
                r0,
                calls_view(m.system_pre_execute_functions@),
                false,
                cost,
                budget,
            );
            let rb = spec_run_calls(r1, calls_view(tx.pre_execute_functions@), true, cost, budget);
            let rc = spec_run_steps(rb, tx.action.steps@, true, cost, budget);
            let rd = spec_run_calls(rc, calls_view(tx.post_execute_functions@), true, cost, budget);
            spec_execute(m, tx).result matches Ok(rr) ==> {
                &&& (rd.failure is None ==> rr.status == KeptStatus::Executed)
                &&& (rb.failure is Some ==> spec_keep_or_discard(rb.failure->0) == Ok::<
                    KeptStatus,
                    u64,
                >(rr.status))
                &&& ((rb.failure is None && rd.failure is Some) ==> spec_keep_or_discard(
                    rd.failure->0,
                ) == Ok::<KeptStatus, u64>(rr.status))
            }
        }),
{
    let table = spec_loaded_table(m);
    let cost = table.instruction_cost;
    let budget = tx.ctx.max_gas_amount;
    let sys_pre = calls_view(m.system_pre_execute_functions@);
    let r0 = SessRec {
        state: m.db.state_store.entries@,
        ops: Seq::<StateOp>::empty(),
        events: Seq::<u64>::empty(),
        ctx: tx.ctx.map@,
        returns: Seq::<u64>::empty(),
        is_upgrade: false,
        gas_used: tx.ctx.tx_size,
        failure: None::<Status>,
    };
    let r1 = spec_run_calls(r0, sys_pre, false, cost, budget);
    lemma_run_calls_failure_kind(r0, sys_pre, false, cost, budget);
    let rb = spec_run_calls(r1, calls_view(tx.pre_execute_functions@), true, cost, budget);
    if r1.failure is Some {
        lemma_run_calls_frozen(r1, calls_view(tx.pre_execute_functions@), true, cost, budget);
    } else {
        lemma_run_calls_failure_kind(r1, calls_view(tx.pre_execute_functions@), true, cost, budget);
    }
    let rc = spec_run_steps(rb, tx.action.steps@, true, cost, budget);
    if rb.failure is Some {
        lemma_run_steps_frozen(rb, tx.action.steps@, true, cost, budget);
    } else {
        lemma_run_steps_failure_kind(rb, tx.action.steps@, true, cost, budget);
    }
    let rd = spec_run_calls(rc, calls_view(tx.post_execute_functions@), true, cost, budget);
    if rc.failure is Some {
        lemma_run_calls_frozen(rc, calls_view(tx.post_execute_functions@), true, cost, budget);
    } else {
        lemma_run_calls_failure_kind(rc, calls_view(tx.post_execute_functions@), true, cost, budget);
    }
}

/// Gas monotonicity and budget law: on any execution that produces an
/// output, the gas recorded in it covers at least the deterministic
/// I/O-write charge for the transaction's size, and never exceeds the
/// transaction's gas budget — through the pre-execute, action and
/// post-execute phases, and across any respawn.
pub proof fn lemma_execute_gas_accounting(m: MoveOS, tx: VerifiedMoveOSTransaction)
    ensures
        ({
            let out = spec_execute(m, tx);
            out.result matches Ok(rr) ==> tx.ctx.tx_size <= rr.gas_used && rr.gas_used
                <= tx.ctx.max_gas_amount
        }),
{
    let is_system_call = tx.ctx.system_call;
    let sys_pre = calls_view(m.system_pre_execute_functions@);
    let sys_post = calls_view(m.system_post_execute_functions@);
    if !(is_system_call && (tx.pre_execute_functions@.len() > 0
        || tx.post_execute_functions@.len() > 0)) {
        let table = spec_loaded_table(m);
        let cost = table.instruction_cost;
        let budget = tx.ctx.max_gas_amount;
        if tx.ctx.tx_size <= budget {
            let r0 = SessRec {
                state: m.db.state_store.entries@,
                ops: Seq::<StateOp>::empty(),
                events: Seq::<u64>::empty(),
                ctx: tx.ctx.map@,
                returns: Seq::<u64>::empty(),
                is_upgrade: false,
                gas_used: tx.ctx.tx_size,
                failure: None::<Status>,
            };
            let r1 = if !is_system_call {
                spec_run_calls(r0, sys_pre, false, cost, budget)
            } else {
                r0
            };
            lemma_run_calls_gas(r0, sys_pre, false, cost, budget);
            let rb = spec_run_calls(r1, calls_view(tx.pre_execute_functions@), true, cost, budget);
            lemma_run_calls_gas(r1, calls_view(tx.pre_execute_functions@), true, cost, budget);
            let rc = spec_run_steps(rb, tx.action.steps@, true, cost, budget);
            lemma_run_steps_gas(rb, tx.action.steps@, true, cost, budget);
            let rd = spec_run_calls(rc, calls_view(tx.post_execute_functions@), true, cost, budget);
            lemma_run_calls_gas(rc, calls_view(tx.post_execute_functions@), true, cost, budget);
            if rb.failure is Some {
                lemma_run_calls_gas(
                    SessRec { failure: None::<Status>, ..rb },
                    sys_post,
                    false,
                    cost,
                    budget,
                );
            } else if rd.failure is Some {
                let rr0 = SessRec {
                    state: m.db.state_store.entries@,
                    ops: Seq::<StateOp>::empty(),
                    events: Seq::<u64>::empty(),
                    ctx: tx.ctx.map@,
                    returns: Seq::<u64>::empty(),
                    is_upgrade: false,
                    gas_used: rd.gas_used,
                    failure: None::<Status>,
                };
                let rr1 = spec_run_calls(rr0, sys_pre, false, cost, budget);
                lemma_run_calls_gas(rr0, sys_pre, false, cost, budget);
                let rra = spec_run_calls(
                    rr1,
                    calls_view(tx.pre_execute_functions@),
                    true,
                    cost,
                    budget,
                );
                lemma_run_calls_gas(rr1, calls_view(tx.pre_execute_functions@), true, cost, budget);
                let rr2 = spec_run_calls(
                    rra,
                    calls_view(tx.post_execute_functions@),
                    true,
                    cost,
                    budget,
                );
                lemma_run_calls_gas(rra, calls_view(tx.post_execute_functions@), true, cost, budget);
                lemma_run_calls_gas(
                    SessRec { failure: None::<Status>, ..rr2 },
                    sys_post,
                    false,
                    cost,
                    budget,
                );
            } else {
                lemma_run_calls_gas(rd, sys_post, false, cost, budget);
            }
        }
    }
}

/// The top-level transaction engine.
#[derive(Debug)]
pub struct MoveOS {
    pub vm: MoveOSVM,
    pub db: MoveOSStore,
    pub cost_table: Option<CostTable>,
    pub system_pre_execute_functions: Vec<FunctionCall>,
    pub system_post_execute_functions: Vec<FunctionCall>,
}

impl MoveOS {
    /// Stores well-formed; system hook lists statically valid and unable to
    /// abort.
    pub open spec fn wf(self) -> bool {
        &&& self.db.wf()
        &&& calls_wf(calls_view(self.system_pre_execute_functions@))
        &&& calls_wf(calls_view(self.system_post_execute_functions@))
    }

    /// Builds an engine over the given stores. The system hook lists are
    /// fixed for the engine's whole lifetime and are validated here: they
    /// must pass the static checks and be unable to abort.
    pub fn new(
        db: MoveOSStore,
        config: MoveOSConfig,
        system_pre_execute_functions: Vec<FunctionCall>,
        system_post_execute_functions: Vec<FunctionCall>,
    ) -> (result: Result<MoveOS, EngineError>)
        requires
            db.wf(),
        ensures
            result is Ok <==> calls_wf(calls_view(system_pre_execute_functions@)) && calls_wf(
                calls_view(system_post_execute_functions@),
            ),
            result matches Ok(m) ==> {
                &&& m.wf()
                &&& m.db == db
                &&& m.cost_table is None
                &&& m.vm.config == config
                &&& m.vm.loader_cache_valid
                &&& m.system_pre_execute_functions == system_pre_execute_functions
                &&& m.system_post_execute_functions == system_post_execute_functions
            },
            result matches Err(e) ==> e == EngineError::InvalidSystemHooks,
    {
        let pre_ok = crate::action::check_calls_wf(&system_pre_execute_functions);
        let post_ok = crate::action::check_calls_wf(&system_post_execute_functions);
        if !pre_ok || !post_ok {
            return Err(EngineError::InvalidSystemHooks);
        }
        Ok(MoveOS {
            vm: MoveOSVM::new(config),
            db,
            cost_table: None,
            system_pre_execute_functions,
            system_post_execute_functions,
        })
    }

    /// The state store.
    pub fn state(&self) -> (r: &StateDBStore)
        ensures
            r == &self.db.state_store,
    {
        self.db.get_state_store()
    }

    /// The whole store bundle.
    pub fn moveos_store(&self) -> (r: &MoveOSStore)
        ensures
            r == &self.db,
    {
        &self.db
    }

    /// The event store.
    pub fn event_store(&self) -> (r: &EventDBStore)
        ensures
            r == &self.db.event_store,
    {
        self.db.get_event_store()
    }

    /// The transaction store.
    pub fn transaction_store(&self) -> (r: &TransactionDBStore)
        ensures
            r == &self.db.transaction_store,
    {
        self.db.get_transaction_store()
    }

    /// The config store.
    pub fn config_store(&self) -> (r: &ConfigDBStore)
        ensures
            r == &self.db.config_store,
    {
        self.db.get_config_store()
    }

    /// Loads the cost table: the cached one if present, else a fresh table
    /// derived from chain state, which is then cached. Never invalidated
    /// mid-transaction.
    fn load_cost_table(&mut self) -> (t: CostTable)
        ensures
            t == spec_loaded_table(*old(self)),
            *final(self) == (MoveOS { cost_table: Some(t), ..*old(self) }),
    {
        match &self.cost_table {
            Some(t) => *t,
            None => {
                let instruction_cost = match self.db.state_store.get(GAS_SCHEDULE_OBJECT_ID) {
                    Some(v) => v,
                    None => DEFAULT_INSTRUCTION_COST,
                };
                let t = CostTable { instruction_cost };
                self.cost_table = Some(t);
                t
            },
        }
    }

    /// Statically validates a transaction's action over its declared root
    /// in a read-only session, without touching any store, and wraps the
    /// verified action with the original root, context and hooks. The only
    /// engine state that may change is the cost-table cache.
    pub fn verify(&mut self, tx: MoveOSTransaction) -> (result: Result<
        VerifiedMoveOSTransaction,
        VmError,
    >)
        requires
            old(self).wf(),
            tx.wf(),
            root_matches(*old(self), tx.root),
        ensures
            *final(self) == (MoveOS { cost_table: Some(spec_loaded_table(*old(self))), ..*old(self) }),
            final(self).db == old(self).db,
            result is Ok <==> steps_valid(tx.action.steps@),
            result matches Ok(v) ==> {
                &&& v.root == tx.root
                &&& v.ctx == tx.ctx
                &&& v.action.steps@ == tx.action.steps@
                &&& v.pre_execute_functions == tx.pre_execute_functions
                &&& v.post_execute_functions == tx.post_execute_functions
                &&& v.wf()
            },
            result matches Err(e) ==> e.status == (Status::Discarded { code: CODE_INVALID_ACTION }),
    {
        let MoveOSTransaction { root, ctx, action, pre_execute_functions, post_execute_functions } =
            tx;
        let cost_table = self.load_cost_table();
        let mut gas_meter = GasMeter::new(cost_table, ctx.max_gas_amount);
        gas_meter.set_metering(false);

        let session = self.vm.new_readonly_session(&self.db.state_store, ctx.duplicate(), gas_meter);
        let verified_action = match session.verify_move_action(&action) {
            Ok(v) => v,
            Err(e) => {
                return Err(e);
            },
        };
        match session.finish_with_extensions(KeptStatus::Executed) {
            Ok(_) => {},
            Err(_) => {
                proof {
                    assert(false);
                }
            },
        }
        Ok(VerifiedMoveOSTransaction {
            root,
            ctx,
            action: verified_action,
            pre_execute_functions,
            post_execute_functions,
        })
    }

    /// Runs, in order: the user pre-execute hooks, the user action, and the
    /// user post-execute hooks, all gas-charged. On success returns the
    /// final status. On failure returns the error and whether the session
    /// must be respawned: a pre-execute failure needs none (no user action
    /// ran yet); an action or post-execute failure leaves the in-flight
    /// session state unreliable, so it does.
    fn execute_action(
        &self,
        session: &mut MoveOSSession,
        action: &VerifiedMoveAction,
        pre_execute_functions: &Vec<FunctionCall>,
        post_execute_functions: &Vec<FunctionCall>,
    ) -> (result: Result<Status, (VmError, bool)>)
        requires
            old(session).wf(),
        ensures
            final(session).wf(),
            MoveOSSession::same_config(*old(session), *final(session)),
            ({
                let charging = old(session).charging(true);
                let cost = old(session).cost();
                let budget = old(session).budget();
                let rb = spec_run_calls(
                    old(session).rec(),
                    calls_view(pre_execute_functions@),
                    charging,
                    cost,
                    budget,
                );
                let rc = spec_run_steps(rb, action.steps@, charging, cost, budget);
                let rd = spec_run_calls(
                    rc,
                    calls_view(post_execute_functions@),
                    charging,
                    cost,
                    budget,
                );
                &&& (rb.failure is Some ==> final(session).rec() == (SessRec {
                    failure: None::<Status>,
                    ..rb
                }) && result == Err::<Status, (VmError, bool)>(
                    (VmError { status: rb.failure->0 }, false),
                ))
                &&& ((rb.failure is None && rd.failure is Some) ==> final(session).rec() == (
                SessRec { failure: None::<Status>, ..rd }) && result == Err::<
                    Status,
                    (VmError, bool),
                >((VmError { status: rd.failure->0 }, true)))
                &&& ((rb.failure is None && rd.failure is None) ==> final(session).rec() == rd
                    && result == Ok::<Status, (VmError, bool)>(Status::Executed))
            }),
    {
        let ghost charging = old(session).charging(true);
        let ghost cost = old(session).cost();
        let ghost budget = old(session).budget();
        let ghost rb = spec_run_calls(
            old(session).rec(),
            calls_view(pre_execute_functions@),
            charging,
            cost,
            budget,
        );
        let ghost rc = spec_run_steps(rb, action.steps@, charging, cost, budget);
        let ghost rd = spec_run_calls(rc, calls_view(post_execute_functions@), charging, cost, budget);

        match session.execute_function_call(pre_execute_functions, true) {
            Ok(()) => {},
            Err(e) => {
                return Err((e, false));
            },
        }
        proof {
            lemma_clear_none_failure(rb);
        }
        let execute_result = session.execute_move_action(action);
        let vm_status = vm_status_of_result(&execute_result);
        proof {
            lemma_run_steps_failure_kind(rb, action.steps@, charging, cost, budget);
            if rc.failure is Some {
                lemma_run_calls_frozen(rc, calls_view(post_execute_functions@), charging, cost, budget);
            } else {
                lemma_clear_none_failure(rc);
            }
        }
        match vm_status.keep_or_discard() {
            Ok(status) => {
                if !matches!(status, KeptStatus::Executed) {
                    match execute_result {
                        Err(e) => {
                            return Err((e, true));
                        },
                        Ok(()) => {
                            proof {
                                assert(false);
                            }
                            return vstd::pervasive::unreached();
                        },
                    }
                }
                match session.execute_function_call(post_execute_functions, true) {
                    Ok(()) => {},
                    Err(e) => {
                        return Err((e, true));
                    },
                }
                Ok(vm_status)
            },
            Err(_discard) => {
                proof {
                    assert(false);
                }
                vstd::pervasive::unreached()
            },
        }
    }

    /// Runs the user pre-execute and post-execute hooks only, gas-charged:
    /// the replay performed on a respawned session.
    fn execute_pre_and_post(
        &self,
        session: &mut MoveOSSession,
        pre_execute_functions: &Vec<FunctionCall>,
        post_execute_functions: &Vec<FunctionCall>,
    ) -> (result: Result<(), VmError>)
        requires
            old(session).wf(),
        ensures
            final(session).wf(),
            MoveOSSession::same_config(*old(session), *final(session)),
            ({
                let charging = old(session).charging(true);
                let cost = old(session).cost();
                let budget = old(session).budget();
                let rp = spec_run_calls(
                    old(session).rec(),
                    calls_view(pre_execute_functions@),
                    charging,
                    cost,
                    budget,
                );
                let rq = spec_run_calls(
                    rp,
                    calls_view(post_execute_functions@),
                    charging,
                    cost,
                    budget,
                );
                &&& final(session).rec() == (SessRec { failure: None::<Status>, ..rq })
                &&& (result is Ok <==> rq.failure is None)
                &&& (result matches Err(e) ==> rq.failure == Some(e.status))
            }),
    {
        let ghost charging = old(session).charging(true);
        let ghost cost = old(session).cost();
        let ghost budget = old(session).budget();
        let ghost rp = spec_run_calls(
            old(session).rec(),
            calls_view(pre_execute_functions@),
            charging,
            cost,
            budget,
        );
        match session.execute_function_call(pre_execute_functions, true) {
            Ok(()) => {},
            Err(e) => {
                proof {
                    lemma_run_calls_frozen(rp, calls_view(post_execute_functions@), charging, cost, budget);
                }
                return Err(e);
            },
        }
        proof {
            lemma_clear_none_failure(rp);
        }
        session.execute_function_call(post_execute_functions, true)
    }

    /// Shared terminal step of `execute`: classifies the status, records the
    /// outcome into the context, runs the system post-execute hooks ungassed
    /// (unless this is a system call), invalidates the cost-table cache if
    /// the gas-schedule-updated marker is present, and finalizes the session
    /// into the raw output. A discarded status or a failing system call is
    /// an unrecoverable host fault.
    fn execution_cleanup(
        &mut self,
        is_system_call: bool,
        session: MoveOSSession,
        status: Status,
    ) -> (result: Result<RawTransactionOutput, EngineError>)
        requires
            old(self).wf(),
            session.wf(),
            !session.read_only,
        ensures
            final(self).wf(),
            final(self).db == old(self).db,
            final(self).vm == old(self).vm,
            final(self).system_pre_execute_functions == old(self).system_pre_execute_functions,
            final(self).system_post_execute_functions == old(self).system_post_execute_functions,
            ({
                let out = spec_cleanup(
                    old(self).cost_table,
                    calls_view(old(self).system_post_execute_functions@),
                    is_system_call,
                    session.rec(),
                    status,
                    session.cost(),
                    session.budget(),
                );
                &&& final(self).cost_table == out.cost_table
                &&& (result is Ok <==> out.result is Ok)
                &&& (result matches Ok(o) ==> out.result == Ok::<RawOutRec, EngineError>(
                    raw_out_rec(o),
                ))
                &&& (result matches Err(e) ==> out.result == Err::<RawOutRec, EngineError>(e))
            }),
    {
        let kept_status = match status.keep_or_discard() {
            Ok(k) => k,
            Err(code) => {
                return Err(EngineError::Fault { fault: HostFault::Discarded { code } });
            },
        };
        if is_system_call && !matches!(kept_status, KeptStatus::Executed) {
            return Err(EngineError::Fault {
                fault: HostFault::SystemCallFailed { status: kept_status },
            });
        }
        let mut session = session;
        let gas_used = session.query_gas_used();
        let tx_result = TxResult::new(&kept_status, gas_used);
        session.add_to_tx_context(tx_result);
        if !is_system_call {
            let ghost r1 = session.rec();
            match session.execute_function_call(&self.system_post_execute_functions, false) {
                Ok(()) => {},
                Err(_) => {
                    proof {
                        lemma_run_calls_uncharged_ok(
                            r1,
                            calls_view(self.system_post_execute_functions@),
                            session.cost(),
                            session.budget(),
                        );
                        assert(false);
                    }
                    return vstd::pervasive::unreached();
                },
            }
            proof {
                lemma_clear_none_failure(
                    spec_run_calls(
                        r1,
                        calls_view(self.system_post_execute_functions@),
                        false,
                        session.cost(),
                        session.budget(),
                    ),
                );
            }
        }
        let gas_schedule_updated = session.tx_context().map.get(GAS_SCHEDULE_UPDATED_KEY);
        if gas_schedule_updated.is_some() {
            self.cost_table = None;
        }
        match session.finish_with_extensions(kept_status) {
            Ok((_ctx, output)) => Ok(output),
            Err(_) => {
                proof {
                    assert(false);
                }
                vstd::pervasive::unreached()
            },
        }
    }

    /// Executes a verified transaction: snapshot the transient context
    /// variables, charge the deterministic I/O-write cost, run system and
    /// user hooks around the action, respawn on an unreliable session, and
    /// clean up into a raw output. No store is touched; only the cost-table
    /// cache may change. The outcome follows `spec_execute` exactly.
    pub fn execute(&mut self, tx: VerifiedMoveOSTransaction) -> (result: Result<
        RawTransactionOutput,
        EngineError,
    >)
        requires
            old(self).wf(),
            tx.wf(),
            root_matches(*old(self), tx.root),
        ensures
            final(self).wf(),
            final(self).db == old(self).db,
            final(self).vm == old(self).vm,
            final(self).system_pre_execute_functions == old(self).system_pre_execute_functions,
            final(self).system_post_execute_functions == old(self).system_post_execute_functions,
            ({
                let out = spec_execute(*old(self), tx);
                &&& final(self).cost_table == out.cost_table
                &&& (result is Ok <==> out.result is Ok)
                &&& (result matches Ok(o) ==> out.result == Ok::<RawOutRec, EngineError>(
                    raw_out_rec(o),
                ))
                &&& (result matches Err(e) ==> out.result == Err::<RawOutRec, EngineError>(e))
            }),
    {
        let VerifiedMoveOSTransaction {
            root: _,
            ctx,
            action,
            pre_execute_functions,
            post_execute_functions,
        } = tx;
        let is_system_call = ctx.is_system_call();
        if is_system_call && (pre_execute_functions.len() > 0 || post_execute_functions.len()
            > 0) {
            return Err(EngineError::Fault { fault: HostFault::SystemCallWithUserHooks });
        }

        // The transient context variables must survive any respawn: keep a
        // snapshot, re-inserted into the context of a respawned session.
        let system_env = ctx.map.snapshot();

        let cost_table = self.load_cost_table();
        let mut gas_meter = GasMeter::new(cost_table, ctx.max_gas_amount);
        let tx_size = ctx.tx_size;
        match gas_meter.charge_io_write(tx_size) {
            Ok(()) => {},
            Err(_) => {
                return Err(EngineError::Vm { status: Status::OutOfGas });
            },
        }

        let ghost m0 = *old(self);
        let ghost cost = spec_loaded_table(m0).instruction_cost;
        let ghost budget = tx.ctx.max_gas_amount;
        let ghost sys_pre = calls_view(self.system_pre_execute_functions@);

        let mut session = self.vm.new_session(&self.db.state_store, ctx, gas_meter);
        let ghost r0 = session.rec();

        // System calls are exempt from hooks; their user hook lists were
        // checked empty above.
        if !is_system_call {
            match session.execute_function_call(&self.system_pre_execute_functions, false) {
                Ok(()) => {},
                Err(_) => {
                    proof {
                        lemma_run_calls_uncharged_ok(r0, sys_pre, cost, budget);
                        assert(false);
                    }
                    return vstd::pervasive::unreached();
                },
            }
            proof {
                lemma_clear_none_failure(spec_run_calls(r0, sys_pre, false, cost, budget));
            }
        }

        match self.execute_action(
            &mut session,
            &action,
            &pre_execute_functions,
            &post_execute_functions,
        ) {
            Ok(status) => self.execution_cleanup(is_system_call, session, status),
            Err((vm_err, need_respawn)) => {
                if need_respawn {
                    let mut s = session.respawn(system_env);
                    let ghost rr0 = s.rec();
                    // A respawned generation starts clean: the system
                    // pre-execute hooks must run again.
                    match s.execute_function_call(&self.system_pre_execute_functions, false) {
                        Ok(()) => {},
                        Err(_) => {
                            proof {
                                lemma_run_calls_uncharged_ok(rr0, sys_pre, cost, budget);
                                assert(false);
                            }
                            return vstd::pervasive::unreached();
                        },
                    }
                    proof {
                        lemma_clear_none_failure(spec_run_calls(rr0, sys_pre, false, cost, budget));
                    }
                    // The final reported status is the original failure: the
                    // hooks are replayed for their effects on the new
                    // context, their own result is discarded on purpose.
                    let _ = self.execute_pre_and_post(
                        &mut s,
                        &pre_execute_functions,
                        &post_execute_functions,
                    );
                    self.execution_cleanup(is_system_call, s, vm_err.into_vm_status())
                } else {
                    self.execution_cleanup(is_system_call, session, vm_err.into_vm_status())
                }
            },
        }
    }

    /// Applies a raw output atomically: the changeset to the state store,
    /// the events to the event store (which assigns sequential identifiers,
    /// zipped back in order), and a fresh startup record pointing at the
    /// resulting root. Exactly one changeset and one startup record per
    /// call; on the one storage fault (no event identifiers left) nothing
    /// is written at all.
    fn apply_transaction_output(&mut self, output: RawTransactionOutput) -> (result: Result<
        TransactionOutput,
        EngineError,
    >)
        requires
            old(self).wf(),
        ensures
            final(self).wf(),
            final(self).vm == old(self).vm,
            final(self).cost_table == old(self).cost_table,
            final(self).system_pre_execute_functions == old(self).system_pre_execute_functions,
            final(self).system_post_execute_functions == old(self).system_post_execute_functions,
            final(self).db.transaction_store == old(self).db.transaction_store,
            result is Err <==> old(self).db.event_store.events@.len() + output.events@.len()
                > u64::MAX,
            result matches Err(e) ==> e == (EngineError::Storage { code: CODE_EVENT_ID_OVERFLOW })
                && final(self).db == old(self).db,
            result matches Ok(out) ==> ({
                let new_entries = spec_apply_ops(
                    old(self).db.state_store.entries@,
                    output.changeset.ops@,
                );
                &&& final(self).db.state_store.entries@ == new_entries
                &&& final(self).db.event_store.events@ == old(self).db.event_store.events@
                    + output.events@
                &&& final(self).db.config_store.startup_info == Some(
                    StartupInfo {
                        state_root: spec_root_of(new_entries),
                        size: new_entries.len() as u64,
                    },
                )
                &&& out.status == output.status
                &&& out.changeset.ops@ == output.changeset.ops@
                &&& out.changeset.state_root == spec_root_of(new_entries)
                &&& out.changeset.global_size == new_entries.len() as u64
                &&& out.events@.len() == output.events@.len()
                &&& (forall|k: int|
                    0 <= k < out.events@.len() ==> out.events@[k] == (Event {
                        event_id: (old(self).db.event_store.events@.len() + k) as u64,
                        data: output.events@[k],
                    }))
                &&& out.gas_used == output.gas_used
                &&& out.is_upgrade == output.is_upgrade
            }),
    {
        let RawTransactionOutput { status, changeset, events: tx_events, gas_used, is_upgrade } =
            output;
        let mut changeset = changeset;
        let n_old = self.db.event_store.events.len();
        if (n_old as u128) + (tx_events.len() as u128) > (u64::MAX as u128) {
            return Err(EngineError::Storage { code: CODE_EVENT_ID_OVERFLOW });
        }
        self.db.state_store.apply_change_set(&mut changeset);
        let event_ids = self.db.event_store.save_events(&tx_events);
        let mut events: Vec<Event> = Vec::new();
        let mut i: usize = 0;
        while i < tx_events.len()
            invariant
                i <= tx_events.len(),
                event_ids@.len() == tx_events@.len(),
                events@.len() == i,
                forall|k: int|
                    0 <= k < i ==> events@[k] == (Event {
                        event_id: event_ids@[k],
                        data: tx_events@[k],
                    }),
            decreases tx_events.len() - i,
        {
            events.push(Event::new_with_event_id(event_ids[i], tx_events[i]));
            i = i + 1;
        }
        let new_state_root = changeset.state_root;
        let size = changeset.global_size;
        self.db.config_store.save_startup_info(StartupInfo::new(new_state_root, size));
        Ok(TransactionOutput::new(status, changeset, events, gas_used, is_upgrade))
    }

    /// Executes a verified transaction and commits its output: the caller
    /// receives either an applied output or an error, never a partially
    /// applied state.
    pub fn execute_and_apply(&mut self, tx: VerifiedMoveOSTransaction) -> (result: Result<
        TransactionOutput,
        EngineError,
    >)
        requires
            old(self).wf(),
            tx.wf(),
            root_matches(*old(self), tx.root),
        ensures
            final(self).wf(),
            final(self).vm == old(self).vm,
            final(self).system_pre_execute_functions == old(self).system_pre_execute_functions,
            final(self).system_post_execute_functions == old(self).system_post_execute_functions,
            final(self).db.transaction_store == old(self).db.transaction_store,
            ({
                let out = spec_execute(*old(self), tx);
                &&& final(self).cost_table == out.cost_table
                &&& (out.result matches Err(e) ==> result == Err::<TransactionOutput, EngineError>(
                    e,
                ) && final(self).db == old(self).db)
                &&& (out.result matches Ok(rr) ==> ({
                    let new_entries = spec_apply_ops(old(self).db.state_store.entries@, rr.ops);
                    let n_old = old(self).db.event_store.events@.len();
                    &&& (result is Err <==> n_old + rr.events.len() > u64::MAX)
                    &&& (result matches Err(e) ==> e == (EngineError::Storage {
                        code: CODE_EVENT_ID_OVERFLOW,
                    }) && final(self).db == old(self).db)
                    &&& (result matches Ok(out2) ==> {
                        &&& final(self).db.state_store.entries@ == new_entries
                        &&& final(self).db.event_store.events@ == old(
                            self,
                        ).db.event_store.events@ + rr.events
                        &&& final(self).db.config_store.startup_info == Some(
                            StartupInfo {
                                state_root: spec_root_of(new_entries),
                                size: new_entries.len() as u64,
                            },
                        )
                        &&& out2.status == rr.status
                        &&& out2.changeset.ops@ == rr.ops
                        &&& out2.changeset.state_root == spec_root_of(new_entries)
                        &&& out2.changeset.global_size == new_entries.len() as u64
                        &&& out2.events@.len() == rr.events.len()
                        &&& (forall|k: int|
                            0 <= k < out2.events@.len() ==> out2.events@[k] == (Event {
                                event_id: (n_old + k) as u64,
                                data: rr.events[k],
                            }))
                        &&& out2.gas_used == rr.gas_used
                        &&& out2.is_upgrade == rr.is_upgrade
                    })
                }))
            }),
    {
        let raw_output = match self.execute(tx) {
            Ok(raw) => raw,
            Err(e) => {
                return Err(e);
            },
        };
        self.apply_transaction_output(raw_output)
    }

    /// Executes the genesis transaction over the base seeded with the
    /// pre-created genesis objects, and commits its output. Genesis must
    /// execute successfully; any other outcome aborts genesis setup with no
    /// store touched.
    pub fn init_genesis(
        &mut self,
        genesis_tx: MoveOSTransaction,
        genesis_objects: Vec<(u64, u64)>,
    ) -> (result: Result<TransactionOutput, EngineError>)
        requires
            old(self).wf(),
            genesis_tx.wf(),
        ensures
            final(self).wf(),
            final(self).vm == old(self).vm,
            final(self).cost_table == old(self).cost_table,
            final(self).system_pre_execute_functions == old(self).system_pre_execute_functions,
            final(self).system_post_execute_functions == old(self).system_post_execute_functions,
            final(self).db.transaction_store == old(self).db.transaction_store,
            ({
                let g = spec_genesis(*old(self), genesis_tx, genesis_objects@);
                &&& (g matches Err(e) ==> result == Err::<TransactionOutput, EngineError>(e)
                    && final(self).db == old(self).db)
                &&& (g matches Ok(rr) ==> ({
                    let new_entries = spec_apply_ops(old(self).db.state_store.entries@, rr.ops);
                    let n_old = old(self).db.event_store.events@.len();
                    &&& (result is Err <==> n_old + rr.events.len() > u64::MAX)
                    &&& (result matches Err(e) ==> e == (EngineError::Storage {
                        code: CODE_EVENT_ID_OVERFLOW,
                    }) && final(self).db == old(self).db)
                    &&& (result matches Ok(out2) ==> {
                        &&& final(self).db.state_store.entries@ == new_entries
                        &&& final(self).db.event_store.events@ == old(
                            self,
                        ).db.event_store.events@ + rr.events
                        &&& final(self).db.config_store.startup_info == Some(
                            StartupInfo {
                                state_root: spec_root_of(new_entries),
                                size: new_entries.len() as u64,
                            },
                        )
                        &&& out2.status == rr.status
                        &&& out2.changeset.ops@ == rr.ops
                        &&& out2.changeset.state_root == spec_root_of(new_entries)
                        &&& out2.changeset.global_size == new_entries.len() as u64
                        &&& out2.events@.len() == rr.events.len()
                        &&& out2.gas_used == rr.gas_used
                        &&& out2.is_upgrade == rr.is_upgrade
                    })
                }))
            }),
    {
        self.verify_and_execute_genesis_tx(genesis_tx, genesis_objects)
    }

    /// Verifies and executes the genesis transaction in a genesis session,
    /// then applies its output.
    fn verify_and_execute_genesis_tx(
        &mut self,
        tx: MoveOSTransaction,
        genesis_objects: Vec<(u64, u64)>,
    ) -> (result: Result<TransactionOutput, EngineError>)
        requires
            old(self).wf(),
            tx.wf(),
        ensures
            final(self).wf(),
            final(self).vm == old(self).vm,
            final(self).cost_table == old(self).cost_table,
            final(self).system_pre_execute_functions == old(self).system_pre_execute_functions,
            final(self).system_post_execute_functions == old(self).system_post_execute_functions,
            final(self).db.transaction_store == old(self).db.transaction_store,
            ({
                let g = spec_genesis(*old(self), tx, genesis_objects@);
                &&& (g matches Err(e) ==> result == Err::<TransactionOutput, EngineError>(e)
                    && final(self).db == old(self).db)
                &&& (g matches Ok(rr) ==> ({
                    let new_entries = spec_apply_ops(old(self).db.state_store.entries@, rr.ops);
                    let n_old = old(self).db.event_store.events@.len();
                    &&& (result is Err <==> n_old + rr.events.len() > u64::MAX)
                    &&& (result matches Err(e) ==> e == (EngineError::Storage {
                        code: CODE_EVENT_ID_OVERFLOW,
                    }) && final(self).db == old(self).db)
                    &&& (result matches Ok(out2) ==> {
                        &&& final(self).db.state_store.entries@ == new_entries
                        &&& final(self).db.event_store.events@ == old(
                            self,
                        ).db.event_store.events@ + rr.events
                        &&& final(self).db.config_store.startup_info == Some(
                            StartupInfo {
                                state_root: spec_root_of(new_entries),
                                size: new_entries.len() as u64,
                            },
                        )
                        &&& out2.status == rr.status
                        &&& out2.changeset.ops@ == rr.ops
                        &&& out2.changeset.state_root == spec_root_of(new_entries)
                        &&& out2.changeset.global_size == new_entries.len() as u64
                        &&& out2.events@.len() == rr.events.len()
                        &&& out2.gas_used == rr.gas_used
                        &&& out2.is_upgrade == rr.is_upgrade
                    })
                }))
            }),
    {
        let MoveOSTransaction {
            root: _,
            ctx,
            action,
            pre_execute_functions: _,
            post_execute_functions: _,
        } = tx;
        let session = self.vm.new_genesis_session(&self.db.state_store, ctx, &genesis_objects);
        let verified_action = match session.verify_move_action(&action) {
            Ok(v) => v,
            Err(e) => {
                return Err(EngineError::Vm { status: e.status });
            },
        };
        let mut session = session;
        let ghost r0 = session.rec();
        let execute_result = session.execute_move_action(&verified_action);
        proof {
            lemma_run_steps_failure_kind(r0, verified_action.steps@, session.charging(true), session.cost(), session.budget());
        }
        let status = match vm_status_of_result(&execute_result).keep_or_discard() {
            Ok(status) => status,
            Err(code) => {
                return Err(EngineError::Fault { fault: HostFault::Discarded { code } });
            },
        };
        proof {
            let run = spec_run_steps(
                r0,
                verified_action.steps@,
                false,
                DEFAULT_INSTRUCTION_COST,
                u64::MAX,
            );
            if run.failure is None {
                lemma_clear_none_failure(run);
            }
        }
        match session.finish_with_extensions(status) {
            Ok((_ctx, raw_output)) => {
                if !matches!(raw_output.status, KeptStatus::Executed) {
                    return Err(EngineError::GenesisFailed { status: raw_output.status });
                }
                self.apply_transaction_output(raw_output)
            },
            Err(_) => {
                proof {
                    assert(false);
                }
                vstd::pervasive::unreached()
            },
        }
    }

    /// Runs a read-only view function over the current state under a fresh
    /// read-only context; no state mutation and no gas charge beyond the
    /// read-only ceiling.
    pub fn execute_view_function(&mut self, root: ObjectMeta, function_call: FunctionCall) -> (result:
        FunctionResult)
        requires
            old(self).wf(),
            root_matches(*old(self), root),
        ensures
            final(self).wf(),
            final(self).db == old(self).db,
            final(self).vm == old(self).vm,
            final(self).system_pre_execute_functions == old(self).system_pre_execute_functions,
            final(self).system_post_execute_functions == old(self).system_post_execute_functions,
            ({
                let (r, cache) = spec_readonly_call(
                    *old(self),
                    READONLY_MAX_GAS_AMOUNT,
                    Seq::<(u64, u64)>::empty(),
                    function_call.steps@,
                );
                &&& final(self).cost_table == cache
                &&& (r matches Ok(vals) ==> result matches FunctionResult::Value { return_values }
                    && return_values@ == vals)
                &&& (r matches Err(e) ==> result == (FunctionResult::Failure { error: e }))
            }),
    {
        let tx_context = TxContext::new_readonly_ctx(0);
        self.execute_readonly_function(root, &tx_context, function_call)
    }

    /// Runs a read-only function under the given context. A request above
    /// the read-only gas ceiling is rejected before any session is opened
    /// and before anything at all is touched.
    pub fn execute_readonly_function(
        &mut self,
        root: ObjectMeta,
        tx_context: &TxContext,
        function_call: FunctionCall,
    ) -> (result: FunctionResult)
        requires
            old(self).wf(),
            tx_context.wf(),
            root_matches(*old(self), root),
        ensures
            final(self).wf(),
            final(self).db == old(self).db,
            final(self).vm == old(self).vm,
            final(self).system_pre_execute_functions == old(self).system_pre_execute_functions,
            final(self).system_post_execute_functions == old(self).system_post_execute_functions,
            ({
                let (r, cache) = spec_readonly_call(
                    *old(self),
                    tx_context.max_gas_amount,
                    tx_context.map@,
                    function_call.steps@,
                );
                &&& final(self).cost_table == cache
                &&& (r matches Ok(vals) ==> result matches FunctionResult::Value { return_values }
                    && return_values@ == vals)
                &&& (r matches Err(e) ==> result == (FunctionResult::Failure { error: e }))
            }),
    {
        if tx_context.max_gas_amount > READONLY_MAX_GAS_AMOUNT {
            return FunctionResult::err(
                VmError { status: Status::Discarded { code: CODE_MAX_GAS_BOUND } },
            );
        }
        let cost_table = self.load_cost_table();
        let mut gas_meter = GasMeter::new(cost_table, tx_context.max_gas_amount);
        gas_meter.set_metering(true);
        let mut session = self.vm.new_readonly_session(
            &self.db.state_store,
            tx_context.duplicate(),
            gas_meter,
        );
        let result = session.execute_function_bypass_visibility(&function_call);
        match result {
            Ok(return_values) => {
                // On success the session is finalized to check that the
                // call left the state untouched.
                match session.finish_with_extensions(KeptStatus::Executed) {
                    Ok(_) => FunctionResult::ok(return_values),
                    Err(e) => FunctionResult::err(e),
                }
            },
            Err(e) => FunctionResult::err(e),
        }
    }

    /// Invalidates cached compiled-module state on an upgrade boundary.
    pub fn flush_module_cache(&mut self, is_upgrade: bool) -> (result: Result<(), EngineError>)
        ensures
            result is Ok,
            final(self).vm.loader_cache_valid == (old(self).vm.loader_cache_valid && !is_upgrade),
            final(self).vm.config == old(self).vm.config,
            final(self).db == old(self).db,
            final(self).cost_table == old(self).cost_table,
            final(self).system_pre_execute_functions == old(self).system_pre_execute_functions,
            final(self).system_post_execute_functions == old(self).system_post_execute_functions,
    {
        if is_upgrade {
            self.vm.mark_loader_cache_as_invalid();
        }
        Ok(())
    }
}

} // verus!
