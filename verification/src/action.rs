//! Actions, hook calls, transactions, and the execution model.
//!
//! An action or hook call is an ordered list of primitive steps over global
//! state, the event log, and the transaction context. The specification-level
//! record `SessRec` and the `spec_run_*` functions state exactly what running
//! a list of steps does: which entries change, which events and mutations are
//! logged, how much gas is charged, and on which step the run fails. Every
//! session operation is proved against this model.

use vstd::prelude::*;
use crate::state::{
    lemma_apply_ops_snoc, seq_get, seq_remove, seq_upsert, spec_apply_op, spec_apply_ops, StateOp,
};
use crate::status::Status;

verus! {

/// One primitive step of an action or hook call.
#[derive(Clone, Copy, Debug, PartialEq, Eq, Structural)]
pub enum Step {
    /// Write `value` under object `id`.
    Write { id: u64, value: u64 },
    /// Remove object `id`.
    Remove { id: u64 },
    /// Emit an event with payload `data`.
    Emit { data: u64 },
    /// Bind `value` to `key` in the transaction context's side-map.
    SetCtxVar { key: u64, value: u64 },
    /// Read object `id` (zero if absent) into the return values.
    ReadValue { id: u64 },
    /// Mark the output as a module upgrade.
    Upgrade,
    /// Abort the run with `code`.
    Abort { code: u64 },
}

/// An executable unit as submitted: not yet statically checked.
#[derive(Clone, Debug, PartialEq, Eq)]
pub struct MoveAction {
    pub steps: Vec<Step>,
}

/// An executable unit that passed the static checks of `verify`.
#[derive(Clone, Debug, PartialEq, Eq)]
pub struct VerifiedMoveAction {
    pub steps: Vec<Step>,
}

/// An ordered pre- or post-execute hook call: the state effects the resolved
/// function performs.
#[derive(Clone, Debug, PartialEq, Eq)]
pub struct FunctionCall {
    pub steps: Vec<Step>,
}

/// Reference to the state snapshot a transaction executes against.
#[derive(Clone, Copy, Debug, PartialEq, Eq, Structural)]
pub struct ObjectMeta {
    pub state_root: u64,
    pub size: u64,
}

/// An unverified transaction: root reference, context, action, and the two
/// ordered user hook lists. Immutable once constructed.
#[derive(Debug, PartialEq, Eq)]
pub struct MoveOSTransaction {
    pub root: ObjectMeta,
    pub ctx: TxContext,
    pub action: MoveAction,
    pub pre_execute_functions: Vec<FunctionCall>,
    pub post_execute_functions: Vec<FunctionCall>,
}

/// A transaction whose action passed the static checks; the only form
/// `execute` accepts.
#[derive(Debug, PartialEq, Eq)]
pub struct VerifiedMoveOSTransaction {
    pub root: ObjectMeta,
    pub ctx: TxContext,
    pub action: VerifiedMoveAction,
    pub pre_execute_functions: Vec<FunctionCall>,
    pub post_execute_functions: Vec<FunctionCall>,
}

use crate::context::TxContext;

impl MoveOSTransaction {
    pub open spec fn wf(self) -> bool {
        self.ctx.wf()
    }
}

impl VerifiedMoveOSTransaction {
    pub open spec fn wf(self) -> bool {
        self.ctx.wf() && steps_valid(self.action.steps@)
    }
}

/// A step passes the static checks when every object it touches has a
/// nonzero identifier.
pub open spec fn step_valid(step: Step) -> bool {
    match step {
        Step::Write { id, .. } => id != 0,
        Step::Remove { id } => id != 0,
        Step::ReadValue { id } => id != 0,
        _ => true,
    }
}

pub open spec fn steps_valid(steps: Seq<Step>) -> bool {
    forall|k: int| 0 <= k < steps.len() ==> step_valid(#[trigger] steps[k])
}

pub open spec fn steps_abort_free(steps: Seq<Step>) -> bool {
    forall|k: int| 0 <= k < steps.len() ==> !((#[trigger] steps[k]) is Abort)
}

/// The step lists of a sequence of hook calls.
pub open spec fn calls_view(calls: Seq<FunctionCall>) -> Seq<Seq<Step>> {
    calls.map_values(|c: FunctionCall| c.steps@)
}

pub open spec fn calls_valid(bodies: Seq<Seq<Step>>) -> bool {
    forall|k: int| 0 <= k < bodies.len() ==> steps_valid(#[trigger] bodies[k])
}

pub open spec fn calls_abort_free(bodies: Seq<Seq<Step>>) -> bool {
    forall|k: int| 0 <= k < bodies.len() ==> steps_abort_free(#[trigger] bodies[k])
}

/// System hook lists must pass the static checks and be unable to abort.
pub open spec fn calls_wf(bodies: Seq<Seq<Step>>) -> bool {
    calls_valid(bodies) && calls_abort_free(bodies)
}

/// Checks a step list against the static rules.
pub fn check_steps_valid(steps: &Vec<Step>) -> (r: bool)
    ensures
        r == steps_valid(steps@),
{
    let mut i: usize = 0;
    while i < steps.len()
        invariant
            i <= steps.len(),
            forall|k: int| 0 <= k < i ==> step_valid(#[trigger] steps@[k]),
        decreases steps.len() - i,
    {
        let ok = match steps[i] {
            Step::Write { id, .. } => id != 0,
            Step::Remove { id } => id != 0,
            Step::ReadValue { id } => id != 0,
            _ => true,
        };
        if !ok {
            proof {
                assert(!step_valid(steps@[i as int]));
            }
            return false;
        }
        i = i + 1;
    }
    true
}

/// Checks that no step of the list can abort.
pub fn check_steps_abort_free(steps: &Vec<Step>) -> (r: bool)
    ensures
        r == steps_abort_free(steps@),
{
    let mut i: usize = 0;
    while i < steps.len()
        invariant
            i <= steps.len(),
            forall|k: int| 0 <= k < i ==> !((#[trigger] steps@[k]) is Abort),
        decreases steps.len() - i,
    {
        if matches!(steps[i], Step::Abort { .. }) {
            proof {
                assert(steps@[i as int] is Abort);
            }
            return false;
        }
        i = i + 1;
    }
    true
}

/// Checks a hook list: statically valid and unable to abort.
pub fn check_calls_wf(calls: &Vec<FunctionCall>) -> (r: bool)
    ensures
        r == calls_wf(calls_view(calls@)),
{
    let mut i: usize = 0;
    while i < calls.len()
        invariant
            i <= calls.len(),
            forall|k: int|
                0 <= k < i ==> steps_valid(#[trigger] calls_view(calls@)[k]) && steps_abort_free(
                    calls_view(calls@)[k],
                ),
        decreases calls.len() - i,
    {
        let ok_valid = check_steps_valid(&calls[i].steps);
        let ok_abort = check_steps_abort_free(&calls[i].steps);
        if !ok_valid || !ok_abort {
            proof {
                assert(calls_view(calls@)[i as int] == calls@[i as int].steps@);
            }
            return false;
        }
        i = i + 1;
    }
    true
}

/// Copies a step list.
pub fn steps_clone(steps: &Vec<Step>) -> (r: Vec<Step>)
    ensures
        r@ == steps@,
{
    let mut r: Vec<Step> = Vec::new();
    let mut i: usize = 0;
    while i < steps.len()
        invariant
            i <= steps.len(),
            r@ == steps@.take(i as int),
        decreases steps.len() - i,
    {
        r.push(steps[i]);
        i = i + 1;
        proof {
            assert(steps@.take(i as int) =~= steps@.take(i - 1).push(steps@[i - 1]));
        }
    }
    proof {
        assert(steps@.take(steps@.len() as int) =~= steps@);
    }
    r
}

/// The specification-level record of an in-flight session: resolved state,
/// logged mutations, emitted events, context side-map, read-out values,
/// upgrade flag, gas charged, and the failure the run stopped on, if any.
#[verifier::ext_equal]
pub struct SessRec {
    pub state: Seq<(u64, u64)>,
    pub ops: Seq<StateOp>,
    pub events: Seq<u64>,
    pub ctx: Seq<(u64, u64)>,
    pub returns: Seq<u64>,
    pub is_upgrade: bool,
    pub gas_used: u64,
    pub failure: Option<Status>,
}

/// The record after charging `cost` once (when `charging` is set): either
/// the charge fits the budget, or the rest of the budget is consumed and the
/// run fails out of gas.
pub open spec fn spec_charge_step(r: SessRec, charging: bool, cost: u64, budget: u64) -> SessRec {
    if !charging {
        r
    } else if cost <= budget - r.gas_used {
        SessRec { gas_used: (r.gas_used + cost) as u64, ..r }
    } else {
        SessRec { gas_used: budget, failure: Some(Status::OutOfGas), ..r }
    }
}

/// The record after one step: a failed run is frozen; otherwise the step is
/// charged, then applied.
pub open spec fn spec_step(r: SessRec, step: Step, charging: bool, cost: u64, budget: u64) -> SessRec {
    if r.failure is Some {
        r
    } else {
        let c = spec_charge_step(r, charging, cost, budget);
        if c.failure is Some {
            c
        } else {
            match step {
                Step::Write { id, value } => SessRec {
                    state: seq_upsert(c.state, id, value),
                    ops: c.ops.push(StateOp::Write { id, value }),
                    ..c
                },
                Step::Remove { id } => SessRec {
                    state: seq_remove(c.state, id),
                    ops: c.ops.push(StateOp::Remove { id }),
                    ..c
                },
                Step::Emit { data } => SessRec { events: c.events.push(data), ..c },
                Step::SetCtxVar { key, value } => SessRec {
                    ctx: seq_upsert(c.ctx, key, value),
                    ..c
                },
                Step::ReadValue { id } => SessRec {
                    returns: c.returns.push(
                        match seq_get(c.state, id) {
                            Some(v) => v,
                            None => 0u64,
                        },
                    ),
                    ..c
                },
                Step::Upgrade => SessRec { is_upgrade: true, ..c },
                Step::Abort { code } => SessRec {
                    failure: Some(Status::MoveAbort { code }),
                    ..c
                },
            }
        }
    }
}

/// The record after a list of steps, in order.
pub open spec fn spec_run_steps(
    r: SessRec,
    steps: Seq<Step>,
    charging: bool,
    cost: u64,
    budget: u64,
) -> SessRec
    decreases steps.len(),
{
    if steps.len() == 0 {
        r
    } else {
        spec_run_steps(spec_step(r, steps[0], charging, cost, budget), steps.skip(1), charging, cost, budget)
    }
}

/// The record after an ordered list of hook calls.
pub open spec fn spec_run_calls(
    r: SessRec,
    bodies: Seq<Seq<Step>>,
    charging: bool,
    cost: u64,
    budget: u64,
) -> SessRec
    decreases bodies.len(),
{
    if bodies.len() == 0 {
        r
    } else {
        spec_run_calls(spec_run_steps(r, bodies[0], charging, cost, budget), bodies.skip(1), charging, cost, budget)
    }
}

/// Appending one step to a run applies it last.
pub proof fn lemma_run_steps_snoc(
    r: SessRec,
    steps: Seq<Step>,
    step: Step,
    charging: bool,
    cost: u64,
    budget: u64,
)
    ensures
        spec_run_steps(r, steps.push(step), charging, cost, budget) == spec_step(
            spec_run_steps(r, steps, charging, cost, budget),
            step,
            charging,
            cost,
            budget,
        ),
    decreases steps.len(),
{
    reveal_with_fuel(spec_run_steps, 2);
    if steps.len() == 0 {
        assert(steps.push(step)[0] == step);
        assert(steps.push(step).skip(1) =~= Seq::<Step>::empty());
    } else {
        assert(steps.push(step)[0] == steps[0]);
        assert(steps.push(step).skip(1) =~= steps.skip(1).push(step));
        lemma_run_steps_snoc(
            spec_step(r, steps[0], charging, cost, budget),
            steps.skip(1),
            step,
            charging,
            cost,
            budget,
        );
    }
}

/// Appending one call to a run of calls applies it last.
pub proof fn lemma_run_calls_snoc(
    r: SessRec,
    bodies: Seq<Seq<Step>>,
    body: Seq<Step>,
    charging: bool,
    cost: u64,
    budget: u64,
)
    ensures
        spec_run_calls(r, bodies.push(body), charging, cost, budget) == spec_run_steps(
            spec_run_calls(r, bodies, charging, cost, budget),
            body,
            charging,
            cost,
            budget,
        ),
    decreases bodies.len(),
{
    reveal_with_fuel(spec_run_calls, 2);
    if bodies.len() == 0 {
        assert(bodies.push(body)[0] == body);
        assert(bodies.push(body).skip(1) =~= Seq::<Seq<Step>>::empty());
    } else {
        assert(bodies.push(body)[0] == bodies[0]);
        assert(bodies.push(body).skip(1) =~= bodies.skip(1).push(body));
        lemma_run_calls_snoc(
            spec_run_steps(r, bodies[0], charging, cost, budget),
            bodies.skip(1),
            body,
            charging,
            cost,
            budget,
        );
    }
}

/// A failed run is frozen: further steps change nothing.
pub proof fn lemma_run_steps_frozen(
    r: SessRec,
    steps: Seq<Step>,
    charging: bool,
    cost: u64,
    budget: u64,
)
    requires
        r.failure is Some,
    ensures
        spec_run_steps(r, steps, charging, cost, budget) == r,
    decreases steps.len(),
{
    if steps.len() > 0 {
        lemma_run_steps_frozen(r, steps.skip(1), charging, cost, budget);
    }
}

/// A failed run is frozen: further calls change nothing.
pub proof fn lemma_run_calls_frozen(
    r: SessRec,
    bodies: Seq<Seq<Step>>,
    charging: bool,
    cost: u64,
    budget: u64,
)
    requires
        r.failure is Some,
    ensures
        spec_run_calls(r, bodies, charging, cost, budget) == r,
    decreases bodies.len(),
{
    if bodies.len() > 0 {
        lemma_run_steps_frozen(r, bodies[0], charging, cost, budget);
        lemma_run_calls_frozen(r, bodies.skip(1), charging, cost, budget);
    }
}

/// Gas monotonicity: through any run of steps, gas used never decreases and
/// never exceeds the budget.
pub proof fn lemma_run_steps_gas(
    r: SessRec,
    steps: Seq<Step>,
    charging: bool,
    cost: u64,
    budget: u64,
)
    requires
        r.gas_used <= budget,
    ensures
        spec_run_steps(r, steps, charging, cost, budget).gas_used >= r.gas_used,
        spec_run_steps(r, steps, charging, cost, budget).gas_used <= budget,
    decreases steps.len(),
{
    if steps.len() > 0 {
        lemma_run_steps_gas(spec_step(r, steps[0], charging, cost, budget), steps.skip(1), charging, cost, budget);
    }
}

/// Gas monotonicity through any run of hook calls.
pub proof fn lemma_run_calls_gas(
    r: SessRec,
    bodies: Seq<Seq<Step>>,
    charging: bool,
    cost: u64,
    budget: u64,
)
    requires
        r.gas_used <= budget,
    ensures
        spec_run_calls(r, bodies, charging, cost, budget).gas_used >= r.gas_used,
        spec_run_calls(r, bodies, charging, cost, budget).gas_used <= budget,
    decreases bodies.len(),
{
    if bodies.len() > 0 {
        lemma_run_steps_gas(r, bodies[0], charging, cost, budget);
        lemma_run_calls_gas(spec_run_steps(r, bodies[0], charging, cost, budget), bodies.skip(1), charging, cost, budget);
    }
}

/// An uncharged run of abort-free steps cannot fail.
pub proof fn lemma_run_steps_uncharged_ok(
    r: SessRec,
    steps: Seq<Step>,
    cost: u64,
    budget: u64,
)
    requires
        r.failure is None,
        steps_abort_free(steps),
    ensures
        spec_run_steps(r, steps, false, cost, budget).failure is None,
        spec_run_steps(r, steps, false, cost, budget).gas_used == r.gas_used,
    decreases steps.len(),
{
    if steps.len() > 0 {
        assert(steps_abort_free(steps.skip(1))) by {
            assert forall|k: int| 0 <= k < steps.skip(1).len() implies !((#[trigger] steps.skip(
                1,
            )[k]) is Abort) by {
                assert(steps.skip(1)[k] == steps[k + 1]);
            }
        }
        lemma_run_steps_uncharged_ok(spec_step(r, steps[0], false, cost, budget), steps.skip(1), cost, budget);
    }
}

/// An uncharged run of abort-free hook calls cannot fail: the ground for the
/// rule that system hooks never fail.
pub proof fn lemma_run_calls_uncharged_ok(
    r: SessRec,
    bodies: Seq<Seq<Step>>,
    cost: u64,
    budget: u64,
)
    requires
        r.failure is None,
        calls_abort_free(bodies),
    ensures
        spec_run_calls(r, bodies, false, cost, budget).failure is None,
        spec_run_calls(r, bodies, false, cost, budget).gas_used == r.gas_used,
    decreases bodies.len(),
{
    if bodies.len() > 0 {
        lemma_run_steps_uncharged_ok(r, bodies[0], cost, budget);
        assert(calls_abort_free(bodies.skip(1))) by {
            assert forall|k: int| 0 <= k < bodies.skip(1).len() implies steps_abort_free(
                #[trigger] bodies.skip(1)[k],
            ) by {
                assert(bodies.skip(1)[k] == bodies[k + 1]);
            }
        }
        lemma_run_calls_uncharged_ok(spec_run_steps(r, bodies[0], false, cost, budget), bodies.skip(1), cost, budget);
    }
}

/// Clearing the failure of a record that has none changes nothing.
pub proof fn lemma_clear_none_failure(r: SessRec)
    requires
        r.failure is None,
    ensures
        (SessRec { failure: None::<Status>, ..r }) == r,
{
    assert((SessRec { failure: None::<Status>, ..r }) =~= r);
}

/// The only failures a run of steps can produce are out-of-gas and aborts:
/// never a protocol-level (discarded) rejection.
pub proof fn lemma_run_steps_failure_kind(
    r: SessRec,
    steps: Seq<Step>,
    charging: bool,
    cost: u64,
    budget: u64,
)
    requires
        r.failure is None,
    ensures
        ({
            let run = spec_run_steps(r, steps, charging, cost, budget);
            run.failure matches Some(st) ==> (st is OutOfGas || st is MoveAbort)
        }),
    decreases steps.len(),
{
    if steps.len() > 0 {
        let r1 = spec_step(r, steps[0], charging, cost, budget);
        if r1.failure is Some {
            lemma_run_steps_frozen(r1, steps.skip(1), charging, cost, budget);
        } else {
            lemma_run_steps_failure_kind(r1, steps.skip(1), charging, cost, budget);
        }
    }
}

/// As `lemma_run_steps_failure_kind`, for a run of hook calls.
pub proof fn lemma_run_calls_failure_kind(
    r: SessRec,
    bodies: Seq<Seq<Step>>,
    charging: bool,
    cost: u64,
    budget: u64,
)
    requires
        r.failure is None,
    ensures
        ({
            let run = spec_run_calls(r, bodies, charging, cost, budget);
            run.failure matches Some(st) ==> (st is OutOfGas || st is MoveAbort)
        }),
    decreases bodies.len(),
{
    if bodies.len() > 0 {
        let r1 = spec_run_steps(r, bodies[0], charging, cost, budget);
        lemma_run_steps_failure_kind(r, bodies[0], charging, cost, budget);
        if r1.failure is Some {
            lemma_run_calls_frozen(r1, bodies.skip(1), charging, cost, budget);
        } else {
            lemma_run_calls_failure_kind(r1, bodies.skip(1), charging, cost, budget);
        }
    }
}

/// A run of steps splits at any point: run the prefix, then the rest.
pub proof fn lemma_run_steps_split(
    r: SessRec,
    steps: Seq<Step>,
    k: int,
    charging: bool,
    cost: u64,
    budget: u64,
)
    requires
        0 <= k <= steps.len(),
    ensures
        spec_run_steps(r, steps, charging, cost, budget) == spec_run_steps(
            spec_run_steps(r, steps.take(k), charging, cost, budget),
            steps.skip(k),
            charging,
            cost,
            budget,
        ),
    decreases k,
{
    if k == 0 {
        assert(steps.take(0) =~= Seq::<Step>::empty());
        assert(steps.skip(0) =~= steps);
    } else {
        assert(steps.take(k)[0] == steps[0]);
        assert(steps.take(k).skip(1) =~= steps.skip(1).take(k - 1));
        assert(steps.skip(k) =~= steps.skip(1).skip(k - 1));
        lemma_run_steps_split(
            spec_step(r, steps[0], charging, cost, budget),
            steps.skip(1),
            k - 1,
            charging,
            cost,
            budget,
        );
    }
}

/// A run of hook calls splits at any point.
pub proof fn lemma_run_calls_split(
    r: SessRec,
    bodies: Seq<Seq<Step>>,
    k: int,
    charging: bool,
    cost: u64,
    budget: u64,
)
    requires
        0 <= k <= bodies.len(),
    ensures
        spec_run_calls(r, bodies, charging, cost, budget) == spec_run_calls(
            spec_run_calls(r, bodies.take(k), charging, cost, budget),
            bodies.skip(k),
            charging,
            cost,
            budget,
        ),
    decreases k,
{
    if k == 0 {
        assert(bodies.take(0) =~= Seq::<Seq<Step>>::empty());
        assert(bodies.skip(0) =~= bodies);
    } else {
        assert(bodies.take(k)[0] == bodies[0]);
        assert(bodies.take(k).skip(1) =~= bodies.skip(1).take(k - 1));
        assert(bodies.skip(k) =~= bodies.skip(1).skip(k - 1));
        lemma_run_calls_split(
            spec_run_steps(r, bodies[0], charging, cost, budget),
            bodies.skip(1),
            k - 1,
            charging,
            cost,
            budget,
        );
    }
}

/// A run's resolved state always equals its logged mutations applied to the
/// base it started from: what a session resolves is what its changeset will
/// rebuild.
pub proof fn lemma_run_steps_ops(
    r: SessRec,
    steps: Seq<Step>,
    charging: bool,
    cost: u64,
    budget: u64,
    base: Seq<(u64, u64)>,
)
    requires
        r.state == spec_apply_ops(base, r.ops),
    ensures
        spec_run_steps(r, steps, charging, cost, budget).state == spec_apply_ops(
            base,
            spec_run_steps(r, steps, charging, cost, budget).ops,
        ),
    decreases steps.len(),
{
    if steps.len() > 0 {
        let r1 = spec_step(r, steps[0], charging, cost, budget);
        assert(r1.state == spec_apply_ops(base, r1.ops)) by {
            let c = spec_charge_step(r, charging, cost, budget);
            match steps[0] {
                Step::Write { id, value } => {
                    lemma_apply_ops_snoc(base, c.ops, StateOp::Write { id, value });
                },
                Step::Remove { id } => {
                    lemma_apply_ops_snoc(base, c.ops, StateOp::Remove { id });
                },
                _ => {},
            }
        }
        lemma_run_steps_ops(r1, steps.skip(1), charging, cost, budget, base);
    }
}

/// As `lemma_run_steps_ops`, for a run of hook calls.
pub proof fn lemma_run_calls_ops(
    r: SessRec,
    bodies: Seq<Seq<Step>>,
    charging: bool,
    cost: u64,
    budget: u64,
    base: Seq<(u64, u64)>,
)
    requires
        r.state == spec_apply_ops(base, r.ops),
    ensures
        spec_run_calls(r, bodies, charging, cost, budget).state == spec_apply_ops(
            base,
            spec_run_calls(r, bodies, charging, cost, budget).ops,
        ),
    decreases bodies.len(),
{
    if bodies.len() > 0 {
        lemma_run_steps_ops(r, bodies[0], charging, cost, budget, base);
        lemma_run_calls_ops(spec_run_steps(r, bodies[0], charging, cost, budget), bodies.skip(1), charging, cost, budget, base);
    }
}

} // verus!
