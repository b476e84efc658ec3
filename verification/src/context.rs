//! Transaction context: the per-transaction record of sender, hash, size,
//! gas budget, system-call flag, and a key/value side-map of transient
//! context variables.
//!
//! The side-map carries ephemeral values between session generations: a
//! snapshot taken before execution can be re-inserted unchanged into the
//! context of a respawned session.

use vstd::prelude::*;
use crate::gas::READONLY_MAX_GAS_AMOUNT;
use crate::state::{entries_clone, entries_get, entries_upsert, seq_get, seq_upsert, unique_ids};
use crate::status::KeptStatus;

verus! {

/// Key under which an action records that it updated the gas schedule.
pub const GAS_SCHEDULE_UPDATED_KEY: u64 = 1;

/// The key/value side-map of transient context variables, in insertion
/// order with unique keys.
#[derive(Debug, PartialEq, Eq)]
pub struct ContextMap {
    pub entries: Vec<(u64, u64)>,
}

impl View for ContextMap {
    type V = Seq<(u64, u64)>;

    open spec fn view(&self) -> Seq<(u64, u64)> {
        self.entries@
    }
}

impl ContextMap {
    /// Keys are unique.
    pub open spec fn wf(self) -> bool {
        unique_ids(self@)
    }

    pub fn new() -> (r: ContextMap)
        ensures
            r@ == Seq::<(u64, u64)>::empty(),
            r.wf(),
    {
        ContextMap { entries: Vec::new() }
    }

    /// The value stored under `key`, if any.
    pub fn get(&self, key: u64) -> (r: Option<u64>)
        ensures
            r == seq_get(self@, key),
    {
        entries_get(&self.entries, key)
    }

    /// Binds `value` to `key`, replacing any previous binding in place.
    pub fn insert(&mut self, key: u64, value: u64)
        requires
            old(self).wf(),
        ensures
            final(self)@ == seq_upsert(old(self)@, key, value),
            final(self).wf(),
    {
        entries_upsert(&mut self.entries, key, value);
    }

    /// An identical copy, for carrying the variables across a respawn.
    pub fn snapshot(&self) -> (r: ContextMap)
        ensures
            r@ == self@,
    {
        ContextMap { entries: entries_clone(&self.entries) }
    }
}

/// Outcome slot recorded into the context after execution: whether the
/// kept status was success, and the gas charged.
#[derive(Clone, Copy, Debug, PartialEq, Eq, Structural)]
pub struct TxResult {
    pub executed: bool,
    pub gas_used: u64,
}

impl TxResult {
    pub fn new(status: &KeptStatus, gas_used: u64) -> (r: TxResult)
        ensures
            r == (TxResult { executed: *status is Executed, gas_used }),
    {
        TxResult { executed: matches!(status, KeptStatus::Executed), gas_used }
    }
}

/// The mutable-by-session record a transaction executes under.
#[derive(Debug, PartialEq, Eq)]
pub struct TxContext {
    pub sender: u64,
    pub tx_hash: u64,
    pub tx_size: u64,
    pub max_gas_amount: u64,
    pub system_call: bool,
    pub map: ContextMap,
    pub tx_result: Option<TxResult>,
}

impl TxContext {
    pub open spec fn wf(self) -> bool {
        self.map.wf()
    }

    /// A fresh context with an empty side-map and no recorded result.
    pub fn new(sender: u64, tx_hash: u64, tx_size: u64, max_gas_amount: u64, system_call: bool) -> (r:
        TxContext)
        ensures
            r.sender == sender,
            r.tx_hash == tx_hash,
            r.tx_size == tx_size,
            r.max_gas_amount == max_gas_amount,
            r.system_call == system_call,
            r.map@ == Seq::<(u64, u64)>::empty(),
            r.tx_result is None,
            r.wf(),
    {
        TxContext {
            sender,
            tx_hash,
            tx_size,
            max_gas_amount,
            system_call,
            map: ContextMap::new(),
            tx_result: None,
        }
    }

    /// The context a read-only call runs under: the read-only gas ceiling,
    /// no size, not a system call.
    pub fn new_readonly_ctx(sender: u64) -> (r: TxContext)
        ensures
            r.sender == sender,
            r.tx_hash == 0,
            r.tx_size == 0,
            r.max_gas_amount == READONLY_MAX_GAS_AMOUNT,
            !r.system_call,
            r.map@ == Seq::<(u64, u64)>::empty(),
            r.tx_result is None,
            r.wf(),
    {
        TxContext::new(sender, 0, 0, READONLY_MAX_GAS_AMOUNT, false)
    }

    /// Sender of the transaction.
    pub fn sender(&self) -> (r: u64)
        ensures
            r == self.sender,
    {
        self.sender
    }

    /// Hash of the transaction.
    pub fn tx_hash(&self) -> (r: u64)
        ensures
            r == self.tx_hash,
    {
        self.tx_hash
    }

    /// Whether this is a protocol-internal system call.
    pub fn is_system_call(&self) -> (r: bool)
        ensures
            r == self.system_call,
    {
        self.system_call
    }

    /// An identical copy of the context.
    pub fn duplicate(&self) -> (r: TxContext)
        ensures
            r.sender == self.sender,
            r.tx_hash == self.tx_hash,
            r.tx_size == self.tx_size,
            r.max_gas_amount == self.max_gas_amount,
            r.system_call == self.system_call,
            r.map@ == self.map@,
            r.tx_result == self.tx_result,
    {
        TxContext {
            sender: self.sender,
            tx_hash: self.tx_hash,
            tx_size: self.tx_size,
            max_gas_amount: self.max_gas_amount,
            system_call: self.system_call,
            map: self.map.snapshot(),
            tx_result: self.tx_result,
        }
    }
}

} // verus!
