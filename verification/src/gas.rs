//! Gas metering: a cost table snapshot, a budget, and a metering switch.
//!
//! A meter is constructed with the current cost table and the transaction's
//! gas budget. Disabling metering makes every ordinary charge a no-op; the
//! deterministic I/O-write charge is a protocol-level cost and is deducted
//! regardless of the switch. Exhausting the budget yields an out-of-gas
//! error, never a host-level failure.

use vstd::prelude::*;
use crate::status::{Status, VmError};

verus! {

/// Identifier of the state object that holds the gas schedule.
pub const GAS_SCHEDULE_OBJECT_ID: u64 = 1;

/// Per-step cost assumed when the state holds no gas schedule entry.
pub const DEFAULT_INSTRUCTION_COST: u64 = 1;

/// Ceiling on the gas budget a read-only call may request.
pub const READONLY_MAX_GAS_AMOUNT: u64 = 100000000;

/// The cost schedule a meter charges by: here, a uniform per-step cost read
/// from chain state.
#[derive(Clone, Copy, Debug, PartialEq, Eq, Structural)]
pub struct CostTable {
    pub instruction_cost: u64,
}

/// Tracks gas consumption against a fixed budget.
#[derive(Clone, Copy, Debug, PartialEq, Eq, Structural)]
pub struct GasMeter {
    pub cost_table: CostTable,
    pub budget: u64,
    pub used: u64,
    pub metering: bool,
}

/// The meter state after charging `amount`, and whether the charge fit the
/// budget. A failed charge consumes the whole remaining budget.
pub open spec fn spec_charge(m: GasMeter, amount: u64) -> (GasMeter, bool) {
    if !m.metering {
        (m, true)
    } else {
        spec_charge_unconditional(m, amount)
    }
}

/// As `spec_charge`, but deducting even when metering is switched off.
pub open spec fn spec_charge_unconditional(m: GasMeter, amount: u64) -> (GasMeter, bool) {
    if amount <= m.budget - m.used {
        (GasMeter { used: (m.used + amount) as u64, ..m }, true)
    } else {
        (GasMeter { used: m.budget, ..m }, false)
    }
}

impl GasMeter {
    /// Consumption never exceeds the budget.
    pub open spec fn wf(self) -> bool {
        self.used <= self.budget
    }

    /// A fresh meter over `cost_table` with the full `budget`, metering on.
    pub fn new(cost_table: CostTable, budget: u64) -> (m: GasMeter)
        ensures
            m == (GasMeter { cost_table, budget, used: 0u64, metering: true }),
            m.wf(),
    {
        GasMeter { cost_table, budget, used: 0, metering: true }
    }

    /// Switches deduction on or off; an off meter still never errors.
    pub fn set_metering(&mut self, metering: bool)
        ensures
            *final(self) == (GasMeter { metering, ..*old(self) }),
    {
        self.metering = metering;
    }

    /// Deducts `amount` if metering is on; exceeding the budget consumes the
    /// rest of it and reports out of gas.
    pub fn charge(&mut self, amount: u64) -> (r: Result<(), VmError>)
        requires
            old(self).wf(),
        ensures
            final(self).wf(),
            final(self).used >= old(self).used,
            *final(self) == spec_charge(*old(self), amount).0,
            r is Ok <==> spec_charge(*old(self), amount).1,
            r is Err ==> r == Err::<(), VmError>(VmError { status: Status::OutOfGas }),
    {
        if !self.metering {
            Ok(())
        } else {
            self.charge_unconditional(amount)
        }
    }

    /// Deducts the deterministic I/O-write charge for a transaction of
    /// `tx_size` bytes. This is a protocol-level cost, charged whether or not
    /// metering is switched on.
    pub fn charge_io_write(&mut self, tx_size: u64) -> (r: Result<(), VmError>)
        requires
            old(self).wf(),
        ensures
            final(self).wf(),
            final(self).used >= old(self).used,
            *final(self) == spec_charge_unconditional(*old(self), tx_size).0,
            r is Ok <==> spec_charge_unconditional(*old(self), tx_size).1,
            r is Err ==> r == Err::<(), VmError>(VmError { status: Status::OutOfGas }),
    {
        self.charge_unconditional(tx_size)
    }

    fn charge_unconditional(&mut self, amount: u64) -> (r: Result<(), VmError>)
        requires
            old(self).wf(),
        ensures
            final(self).wf(),
            final(self).used >= old(self).used,
            *final(self) == spec_charge_unconditional(*old(self), amount).0,
            r is Ok <==> spec_charge_unconditional(*old(self), amount).1,
            r is Err ==> r == Err::<(), VmError>(VmError { status: Status::OutOfGas }),
    {
        if amount <= self.budget - self.used {
            self.used = self.used + amount;
            Ok(())
        } else {
            self.used = self.budget;
            Err(VmError { status: Status::OutOfGas })
        }
    }

    /// Gas consumed so far.
    pub fn gas_used(&self) -> (r: u64)
        ensures
            r == self.used,
    {
        self.used
    }
}

} // verus!
