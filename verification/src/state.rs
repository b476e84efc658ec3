//! Global state model and the persistent stores.
//!
//! Global state is a collection of object entries, each an identifier with a
//! value, kept in insertion order with unique identifiers. A changeset is the
//! ordered diff one execution produced, together with the resulting state
//! root and object count. The stores are the state store (object entries),
//! the event store (assigns sequential event identifiers), the config store
//! (the startup record), and the transaction store.

use vstd::prelude::*;
use crate::status::KeptStatus;

verus! {

/// Modulus of the state-root accumulator.
pub const STATE_ROOT_MODULUS: u64 = 1000000007;

/// One mutation of the global object collection.
#[derive(Clone, Copy, Debug, PartialEq, Eq, Structural)]
pub enum StateOp {
    Write { id: u64, value: u64 },
    Remove { id: u64 },
}

/// The value stored under `id`, if any (first match).
pub open spec fn seq_get(s: Seq<(u64, u64)>, id: u64) -> Option<u64>
    decreases s.len(),
{
    if s.len() == 0 {
        None
    } else if s[0].0 == id {
        Some(s[0].1)
    } else {
        seq_get(s.skip(1), id)
    }
}

/// The entries after writing `value` under `id`: the first entry with that
/// identifier is replaced in place, or a new entry is appended.
pub open spec fn seq_upsert(s: Seq<(u64, u64)>, id: u64, value: u64) -> Seq<(u64, u64)>
    decreases s.len(),
{
    if s.len() == 0 {
        seq![(id, value)]
    } else if s[0].0 == id {
        seq![(id, value)].add(s.skip(1))
    } else {
        seq![s[0]].add(seq_upsert(s.skip(1), id, value))
    }
}

/// The entries after removing the first entry stored under `id`, if any.
pub open spec fn seq_remove(s: Seq<(u64, u64)>, id: u64) -> Seq<(u64, u64)>
    decreases s.len(),
{
    if s.len() == 0 {
        s
    } else if s[0].0 == id {
        s.skip(1)
    } else {
        seq![s[0]].add(seq_remove(s.skip(1), id))
    }
}

/// No two entries share an identifier.
pub open spec fn unique_ids(s: Seq<(u64, u64)>) -> bool {
    forall|i: int, j: int|
        #![trigger s[i], s[j]]
        0 <= i < j < s.len() ==> s[i].0 != s[j].0
}

/// The entries after one mutation.
pub open spec fn spec_apply_op(s: Seq<(u64, u64)>, op: StateOp) -> Seq<(u64, u64)> {
    match op {
        StateOp::Write { id, value } => seq_upsert(s, id, value),
        StateOp::Remove { id } => seq_remove(s, id),
    }
}

/// The entries after an ordered sequence of mutations.
pub open spec fn spec_apply_ops(s: Seq<(u64, u64)>, ops: Seq<StateOp>) -> Seq<(u64, u64)>
    decreases ops.len(),
{
    if ops.len() == 0 {
        s
    } else {
        spec_apply_ops(spec_apply_op(s, ops[0]), ops.skip(1))
    }
}

/// One accumulator step of the state root.
pub open spec fn spec_root_step(h: u64, id: u64, value: u64) -> u64 {
    ((h * 31 + id * 7 + value) % (STATE_ROOT_MODULUS as int)) as u64
}

/// The state root: a deterministic digest of the entries in order. The empty
/// state has root zero. As with any digest into a fixed range, distinct
/// entry collections can collide, so equal roots do not imply equal states.
pub open spec fn spec_root_of(s: Seq<(u64, u64)>) -> u64
    decreases s.len(),
{
    if s.len() == 0 {
        0
    } else {
        spec_root_step(spec_root_of(s.drop_last()), s.last().0, s.last().1)
    }
}

proof fn lemma_seq_get_at(s: Seq<(u64, u64)>, id: u64, i: int)
    requires
        0 <= i < s.len(),
        s[i].0 == id,
        forall|k: int| 0 <= k < i ==> (#[trigger] s[k]).0 != id,
    ensures
        seq_get(s, id) == Some(s[i].1),
    decreases i,
{
    if i > 0 {
        lemma_seq_get_at(s.skip(1), id, i - 1);
    }
}

proof fn lemma_seq_get_absent(s: Seq<(u64, u64)>, id: u64)
    requires
        forall|k: int| 0 <= k < s.len() ==> (#[trigger] s[k]).0 != id,
    ensures
        seq_get(s, id) is None,
    decreases s.len(),
{
    if s.len() > 0 {
        lemma_seq_get_absent(s.skip(1), id);
    }
}

proof fn lemma_seq_upsert_at(s: Seq<(u64, u64)>, id: u64, value: u64, i: int)
    requires
        0 <= i < s.len(),
        s[i].0 == id,
        forall|k: int| 0 <= k < i ==> (#[trigger] s[k]).0 != id,
    ensures
        seq_upsert(s, id, value) == s.update(i, (id, value)),
    decreases i,
{
    if i == 0 {
        assert(seq![(id, value)].add(s.skip(1)) =~= s.update(0, (id, value)));
    } else {
        lemma_seq_upsert_at(s.skip(1), id, value, i - 1);
        assert(seq![s[0]].add(s.skip(1).update(i - 1, (id, value))) =~= s.update(i, (id, value)));
    }
}

proof fn lemma_seq_upsert_absent(s: Seq<(u64, u64)>, id: u64, value: u64)
    requires
        forall|k: int| 0 <= k < s.len() ==> (#[trigger] s[k]).0 != id,
    ensures
        seq_upsert(s, id, value) == s.push((id, value)),
    decreases s.len(),
{
    if s.len() == 0 {
        assert(seq![(id, value)] =~= s.push((id, value)));
    } else {
        lemma_seq_upsert_absent(s.skip(1), id, value);
        assert(seq![s[0]].add(s.skip(1).push((id, value))) =~= s.push((id, value)));
    }
}

proof fn lemma_seq_remove_at(s: Seq<(u64, u64)>, id: u64, i: int)
    requires
        0 <= i < s.len(),
        s[i].0 == id,
        forall|k: int| 0 <= k < i ==> (#[trigger] s[k]).0 != id,
    ensures
        seq_remove(s, id) == s.remove(i),
    decreases i,
{
    if i == 0 {
        assert(s.skip(1) =~= s.remove(0));
    } else {
        lemma_seq_remove_at(s.skip(1), id, i - 1);
        assert(seq![s[0]].add(s.skip(1).remove(i - 1)) =~= s.remove(i));
    }
}

proof fn lemma_seq_remove_absent(s: Seq<(u64, u64)>, id: u64)
    requires
        forall|k: int| 0 <= k < s.len() ==> (#[trigger] s[k]).0 != id,
    ensures
        seq_remove(s, id) == s,
    decreases s.len(),
{
    if s.len() > 0 {
        lemma_seq_remove_absent(s.skip(1), id);
        assert(seq![s[0]].add(s.skip(1)) =~= s);
    }
}

/// Appending one mutation to an op sequence applies it last.
pub proof fn lemma_apply_ops_snoc(s: Seq<(u64, u64)>, ops: Seq<StateOp>, op: StateOp)
    ensures
        spec_apply_ops(s, ops.push(op)) == spec_apply_op(spec_apply_ops(s, ops), op),
    decreases ops.len(),
{
    reveal_with_fuel(spec_apply_ops, 2);
    if ops.len() == 0 {
        assert(ops.push(op)[0] == op);
        assert(ops.push(op).skip(1) =~= Seq::<StateOp>::empty());
    } else {
        assert(ops.push(op)[0] == ops[0]);
        assert(ops.push(op).skip(1) =~= ops.skip(1).push(op));
        lemma_apply_ops_snoc(spec_apply_op(s, ops[0]), ops.skip(1), op);
    }
}

/// Looks up `id` among the entries.
pub fn entries_get(v: &Vec<(u64, u64)>, id: u64) -> (r: Option<u64>)
    ensures
        r == seq_get(v@, id),
{
    let mut i: usize = 0;
    while i < v.len()
        invariant
            i <= v.len(),
            forall|k: int| 0 <= k < i ==> (#[trigger] v@[k]).0 != id,
        decreases v.len() - i,
    {
        if v[i].0 == id {
            proof {
                lemma_seq_get_at(v@, id, i as int);
            }
            return Some(v[i].1);
        }
        i = i + 1;
    }
    proof {
        lemma_seq_get_absent(v@, id);
    }
    None
}

/// Writes `value` under `id`, replacing in place or appending.
pub fn entries_upsert(v: &mut Vec<(u64, u64)>, id: u64, value: u64)
    requires
        unique_ids(old(v)@),
    ensures
        final(v)@ == seq_upsert(old(v)@, id, value),
        unique_ids(final(v)@),
{
    let mut i: usize = 0;
    while i < v.len()
        invariant
            i <= v.len(),
            v@ == old(v)@,
            unique_ids(old(v)@),
            forall|k: int| 0 <= k < i ==> (#[trigger] v@[k]).0 != id,
        decreases v.len() - i,
    {
        if v[i].0 == id {
            proof {
                lemma_seq_upsert_at(v@, id, value, i as int);
            }
            v.set(i, (id, value));
            proof {
                assert forall|a: int, b: int|
                    0 <= a < b < v@.len() implies (#[trigger] v@[a]).0 != (
                #[trigger] v@[b]).0 by {
                    assert(old(v)@[a].0 != old(v)@[b].0);
                    if a != i as int {
                        assert(v@[a] == old(v)@[a]);
                    }
                    if b != i as int {
                        assert(v@[b] == old(v)@[b]);
                    }
                }
            }
            return ;
        }
        i = i + 1;
    }
    proof {
        lemma_seq_upsert_absent(v@, id, value);
    }
    v.push((id, value));
}

/// Removes the entry stored under `id`, if any.
pub fn entries_remove(v: &mut Vec<(u64, u64)>, id: u64)
    requires
        unique_ids(old(v)@),
    ensures
        final(v)@ == seq_remove(old(v)@, id),
        unique_ids(final(v)@),
{
    let mut i: usize = 0;
    while i < v.len()
        invariant
            i <= v.len(),
            v@ == old(v)@,
            unique_ids(old(v)@),
            forall|k: int| 0 <= k < i ==> (#[trigger] v@[k]).0 != id,
        decreases v.len() - i,
    {
        if v[i].0 == id {
            proof {
                lemma_seq_remove_at(v@, id, i as int);
            }
            v.remove(i);
            proof {
                assert forall|a: int, b: int|
                    0 <= a < b < v@.len() implies (#[trigger] v@[a]).0 != (
                #[trigger] v@[b]).0 by {
                    let a0 = if a < i as int { a } else { a + 1 };
                    let b0 = if b < i as int { b } else { b + 1 };
                    assert(v@[a] == old(v)@[a0]);
                    assert(v@[b] == old(v)@[b0]);
                    assert(old(v)@[a0].0 != old(v)@[b0].0);
                }
            }
            return ;
        }
        i = i + 1;
    }
    proof {
        lemma_seq_remove_absent(v@, id);
    }
}

/// Copies an entry collection.
pub fn entries_clone(v: &Vec<(u64, u64)>) -> (r: Vec<(u64, u64)>)
    ensures
        r@ == v@,
{
    let mut r: Vec<(u64, u64)> = Vec::new();
    let mut i: usize = 0;
    while i < v.len()
        invariant
            i <= v.len(),
            r@ == v@.take(i as int),
        decreases v.len() - i,
    {
        r.push(v[i]);
        i = i + 1;
        proof {
            assert(v@.take(i as int) =~= v@.take(i - 1).push(v@[i - 1]));
        }
    }
    proof {
        assert(v@.take(v@.len() as int) =~= v@);
    }
    r
}

/// Computes the state root of the entries in order.
pub fn root_of_entries(v: &Vec<(u64, u64)>) -> (r: u64)
    ensures
        r == spec_root_of(v@),
{
    let mut h: u64 = 0;
    let mut i: usize = 0;
    while i < v.len()
        invariant
            i <= v.len(),
            h == spec_root_of(v@.take(i as int)),
        decreases v.len() - i,
    {
        let (id, value) = v[i];
        let t: u128 = (h as u128) * 31 + (id as u128) * 7 + (value as u128);
        h = (t % (STATE_ROOT_MODULUS as u128)) as u64;
        i = i + 1;
        proof {
            assert(v@.take(i as int).drop_last() =~= v@.take(i - 1));
            assert(v@.take(i as int).last() == v@[i - 1]);
        }
    }
    proof {
        assert(v@.take(v@.len() as int) =~= v@);
    }
    h
}

/// The ordered diff one execution produced, with the resulting state root
/// and object count.
#[derive(Clone, Debug, PartialEq, Eq)]
pub struct StateChangeSet {
    pub ops: Vec<StateOp>,
    pub state_root: u64,
    pub global_size: u64,
}

/// An emitted event once the event store has assigned it an identifier.
#[derive(Clone, Copy, Debug, PartialEq, Eq, Structural)]
pub struct Event {
    pub event_id: u64,
    pub data: u64,
}

impl Event {
    /// Attaches an assigned identifier to an emitted payload.
    pub fn new_with_event_id(event_id: u64, data: u64) -> (r: Event)
        ensures
            r == (Event { event_id, data }),
    {
        Event { event_id, data }
    }
}

/// The record the config store keeps of the latest applied state.
#[derive(Clone, Copy, Debug, PartialEq, Eq, Structural)]
pub struct StartupInfo {
    pub state_root: u64,
    pub size: u64,
}

impl StartupInfo {
    pub fn new(state_root: u64, size: u64) -> (r: StartupInfo)
        ensures
            r == (StartupInfo { state_root, size }),
    {
        StartupInfo { state_root, size }
    }
}

/// Copies a value list.
pub fn values_clone(v: &Vec<u64>) -> (r: Vec<u64>)
    ensures
        r@ == v@,
{
    let mut r: Vec<u64> = Vec::new();
    let mut i: usize = 0;
    while i < v.len()
        invariant
            i <= v.len(),
            r@ == v@.take(i as int),
        decreases v.len() - i,
    {
        r.push(v[i]);
        i = i + 1;
        proof {
            assert(v@.take(i as int) =~= v@.take(i - 1).push(v@[i - 1]));
        }
    }
    proof {
        assert(v@.take(v@.len() as int) =~= v@);
    }
    r
}

/// The raw output of one execution attempt, before it is applied to the
/// stores: kept status, changeset, emitted event payloads (before identifier
/// assignment), gas used, and the upgrade flag.
#[derive(Clone, Debug, PartialEq, Eq)]
pub struct RawTransactionOutput {
    pub status: KeptStatus,
    pub changeset: StateChangeSet,
    pub events: Vec<u64>,
    pub gas_used: u64,
    pub is_upgrade: bool,
}

/// The terminal artifact after the output was applied: events now carry
/// their assigned sequential identifiers.
#[derive(Clone, Debug, PartialEq, Eq)]
pub struct TransactionOutput {
    pub status: KeptStatus,
    pub changeset: StateChangeSet,
    pub events: Vec<Event>,
    pub gas_used: u64,
    pub is_upgrade: bool,
}

impl TransactionOutput {
    pub fn new(
        status: KeptStatus,
        changeset: StateChangeSet,
        events: Vec<Event>,
        gas_used: u64,
        is_upgrade: bool,
    ) -> (r: TransactionOutput)
        ensures
            r.status == status,
            r.changeset == changeset,
            r.events == events,
            r.gas_used == gas_used,
            r.is_upgrade == is_upgrade,
    {
        TransactionOutput { status, changeset, events, gas_used, is_upgrade }
    }
}

/// The persistent object-entry store.
#[derive(Clone, Debug, PartialEq, Eq)]
pub struct StateDBStore {
    pub entries: Vec<(u64, u64)>,
}

impl StateDBStore {
    /// Entry identifiers are unique.
    pub open spec fn wf(self) -> bool {
        unique_ids(self.entries@)
    }

    pub fn new() -> (r: StateDBStore)
        ensures
            r.entries@ == Seq::<(u64, u64)>::empty(),
            r.wf(),
    {
        StateDBStore { entries: Vec::new() }
    }

    /// Resolves the value stored under `id`.
    pub fn get(&self, id: u64) -> (r: Option<u64>)
        ensures
            r == seq_get(self.entries@, id),
    {
        entries_get(&self.entries, id)
    }

    /// Applies the changeset's mutations atomically, in order, then records
    /// the resulting state root and object count back into the changeset.
    pub fn apply_change_set(&mut self, changeset: &mut StateChangeSet)
        requires
            old(self).wf(),
        ensures
            final(self).wf(),
            final(self).entries@ == spec_apply_ops(old(self).entries@, old(changeset).ops@),
            final(changeset).ops@ == old(changeset).ops@,
            final(changeset).state_root == spec_root_of(final(self).entries@),
            final(changeset).global_size == final(self).entries@.len(),
    {
        let ghost base = self.entries@;
        let mut i: usize = 0;
        while i < changeset.ops.len()
            invariant
                i <= changeset.ops.len(),
                changeset.ops@ == old(changeset).ops@,
                changeset.state_root == old(changeset).state_root,
                changeset.global_size == old(changeset).global_size,
                unique_ids(self.entries@),
                self.entries@ == spec_apply_ops(base, changeset.ops@.take(i as int)),
            decreases changeset.ops.len() - i,
        {
            let ghost pre = self.entries@;
            match changeset.ops[i] {
                StateOp::Write { id, value } => {
                    entries_upsert(&mut self.entries, id, value);
                },
                StateOp::Remove { id } => {
                    entries_remove(&mut self.entries, id);
                },
            }
            i = i + 1;
            proof {
                assert(changeset.ops@.take(i as int) =~= changeset.ops@.take(i - 1).push(
                    changeset.ops@[i - 1],
                ));
                lemma_apply_ops_snoc(base, changeset.ops@.take(i - 1), changeset.ops@[i - 1]);
            }
        }
        proof {
            assert(changeset.ops@.take(changeset.ops@.len() as int) =~= changeset.ops@);
        }
        let root = root_of_entries(&self.entries);
        changeset.state_root = root;
        changeset.global_size = self.entries.len() as u64;
    }
}

/// The persistent event store; assigns each saved event a sequential
/// identifier equal to its position.
#[derive(Clone, Debug, PartialEq, Eq)]
pub struct EventDBStore {
    pub events: Vec<u64>,
}

impl EventDBStore {
    pub fn new() -> (r: EventDBStore)
        ensures
            r.events@ == Seq::<u64>::empty(),
    {
        EventDBStore { events: Vec::new() }
    }

    /// Persists the emitted payloads and returns their assigned identifiers,
    /// in input order.
    pub fn save_events(&mut self, tx_events: &Vec<u64>) -> (ids: Vec<u64>)
        requires
            old(self).events@.len() + tx_events@.len() <= u64::MAX,
        ensures
            final(self).events@ == old(self).events@ + tx_events@,
            ids@.len() == tx_events@.len(),
            forall|k: int|
                0 <= k < ids@.len() ==> ids@[k] == old(self).events@.len() + k,
    {
        let mut ids: Vec<u64> = Vec::new();
        let base = self.events.len() as u64;
        let mut i: usize = 0;
        while i < tx_events.len()
            invariant
                i <= tx_events.len(),
                base == old(self).events@.len(),
                base + tx_events@.len() <= u64::MAX,
                self.events@ == old(self).events@ + tx_events@.take(i as int),
                ids@.len() == i,
                forall|k: int| 0 <= k < i ==> ids@[k] == base + k,
            decreases tx_events.len() - i,
        {
            ids.push(base + i as u64);
            self.events.push(tx_events[i]);
            i = i + 1;
            proof {
                assert(old(self).events@ + tx_events@.take(i as int) =~= (old(self).events@
                    + tx_events@.take(i - 1)).push(tx_events@[i - 1]));
            }
        }
        proof {
            assert(old(self).events@ + tx_events@.take(tx_events@.len() as int) =~= old(
                self,
            ).events@ + tx_events@);
        }
        ids
    }
}

/// The persistent store of chain configuration: holds the startup record.
#[derive(Clone, Copy, Debug, PartialEq, Eq, Structural)]
pub struct ConfigDBStore {
    pub startup_info: Option<StartupInfo>,
}

impl ConfigDBStore {
    pub fn new() -> (r: ConfigDBStore)
        ensures
            r.startup_info is None,
    {
        ConfigDBStore { startup_info: None }
    }

    /// Replaces the startup record with one pointing at the latest root.
    pub fn save_startup_info(&mut self, info: StartupInfo)
        ensures
            final(self).startup_info == Some(info),
    {
        self.startup_info = Some(info);
    }
}

/// The persistent transaction store. The execution core only hands it to
/// downstream consumers and never writes it.
#[derive(Clone, Copy, Debug, PartialEq, Eq, Structural)]
pub struct TransactionDBStore {}

impl TransactionDBStore {
    pub fn new() -> (r: TransactionDBStore) {
        TransactionDBStore {  }
    }
}

/// The bundle of persistent stores the engine executes against.
#[derive(Clone, Debug, PartialEq, Eq)]
pub struct MoveOSStore {
    pub state_store: StateDBStore,
    pub event_store: EventDBStore,
    pub transaction_store: TransactionDBStore,
    pub config_store: ConfigDBStore,
}

impl MoveOSStore {
    pub open spec fn wf(self) -> bool {
        self.state_store.wf()
    }

    pub fn new() -> (r: MoveOSStore)
        ensures
            r.state_store.entries@ == Seq::<(u64, u64)>::empty(),
            r.event_store.events@ == Seq::<u64>::empty(),
            r.config_store.startup_info is None,
            r.wf(),
    {
        MoveOSStore {
            state_store: StateDBStore::new(),
            event_store: EventDBStore::new(),
            transaction_store: TransactionDBStore::new(),
            config_store: ConfigDBStore::new(),
        }
    }

    pub fn get_state_store(&self) -> (r: &StateDBStore)
        ensures
            r == &self.state_store,
    {
        &self.state_store
    }

    pub fn get_event_store(&self) -> (r: &EventDBStore)
        ensures
            r == &self.event_store,
    {
        &self.event_store
    }

    pub fn get_transaction_store(&self) -> (r: &TransactionDBStore)
        ensures
            r == &self.transaction_store,
    {
        &self.transaction_store
    }

    pub fn get_config_store(&self) -> (r: &ConfigDBStore)
        ensures
            r == &self.config_store,
    {
        &self.config_store
    }
}

} // verus!
