//! SQL query construction for the indexer read side.
//!
//! The read-side queries over the indexer tables are assembled here as plain
//! strings: the filter decides the main `WHERE` clause, the cursor the
//! pagination clause, and the direction the ordering. Each builder's
//! contract states the exact character sequence it produces. Running the
//! assembled query against a database is outside this module's concern.

use vstd::prelude::*;
use vstd::string::*;

verus! {

/// One character of a decimal number.
pub open spec fn spec_digit_char(d: u64) -> char {
    ((48 + d) as u8) as char
}

/// One character of a lower-case hexadecimal number.
pub open spec fn spec_hex_char(d: u64) -> char {
    if d < 10 {
        ((48 + d) as u8) as char
    } else {
        ((87 + d) as u8) as char
    }
}

/// The decimal form of an unsigned number.
pub open spec fn spec_dec_u64(n: u64) -> Seq<char>
    decreases n,
{
    if n < 10 {
        seq![spec_digit_char(n)]
    } else {
        spec_dec_u64(n / 10).push(spec_digit_char(n % 10))
    }
}

/// The decimal form of a signed number.
pub open spec fn spec_dec_i64(n: i64) -> Seq<char> {
    if n >= 0 {
        spec_dec_u64(n as u64)
    } else {
        seq!['-'] + spec_dec_u64((-(n as int)) as u64)
    }
}

/// The minimal hexadecimal form of a number.
pub open spec fn spec_hex_min_u64(n: u64) -> Seq<char>
    decreases n,
{
    if n < 16 {
        seq![spec_hex_char(n)]
    } else {
        spec_hex_min_u64(n / 16).push(spec_hex_char(n % 16))
    }
}

/// An address as a hexadecimal literal.
pub open spec fn spec_hex_literal(n: u64) -> Seq<char> {
    "0x"@ + spec_hex_min_u64(n)
}

/// The low `k` hexadecimal digits of a number, zero-padded.
pub open spec fn spec_hex_fixed(n: u64, k: nat) -> Seq<char>
    decreases k,
{
    if k == 0 {
        Seq::<char>::empty()
    } else {
        spec_hex_fixed(n / 16, (k - 1) as nat).push(spec_hex_char(n % 16))
    }
}

/// A transaction hash as a fixed-width hexadecimal literal.
pub open spec fn spec_hash_literal(n: u64) -> Seq<char> {
    "0x"@ + spec_hex_fixed(n, 16)
}

fn digit_char(d: u64) -> (c: char)
    requires
        d < 10,
    ensures
        c == spec_digit_char(d),
{
    ((48 + d) as u8) as char
}

fn hex_char(d: u64) -> (c: char)
    requires
        d < 16,
    ensures
        c == spec_hex_char(d),
{
    if d < 10 {
        ((48 + d) as u8) as char
    } else {
        ((87 + d) as u8) as char
    }
}

/// Relies on String::push: appends one character to the string.
#[verifier::external_body]
fn push_char(s: &mut String, c: char)
    ensures
        final(s)@ == old(s)@.push(c),
{
    s.push(c);
}

/// Writes an unsigned number in decimal.
pub fn dec_u64(n: u64) -> (r: String)
    ensures
        r@ == spec_dec_u64(n),
    decreases n,
{
    if n < 10 {
        let mut s = String::new();
        push_char(&mut s, digit_char(n));
        proof {
            assert(s@ =~= seq![spec_digit_char(n)]);
        }
        s
    } else {
        let mut s = dec_u64(n / 10);
        push_char(&mut s, digit_char(n % 10));
        s
    }
}

/// Writes a signed number in decimal.
pub fn dec_i64(n: i64) -> (r: String)
    ensures
        r@ == spec_dec_i64(n),
{
    if n >= 0 {
        dec_u64(n as u64)
    } else {
        let m: u64 = (-(n as i128)) as u64;
        let mut s = String::from_str("-");
        let d = dec_u64(m);
        s.append(d.as_str());
        proof {
            reveal_strlit("-");
            assert(s@ =~= seq!['-'] + spec_dec_u64((-(n as int)) as u64));
        }
        s
    }
}

/// Writes a number in minimal hexadecimal.
pub fn hex_min_u64(n: u64) -> (r: String)
    ensures
        r@ == spec_hex_min_u64(n),
    decreases n,
{
    if n < 16 {
        let mut s = String::new();
        push_char(&mut s, hex_char(n));
        proof {
            assert(s@ =~= seq![spec_hex_char(n)]);
        }
        s
    } else {
        let mut s = hex_min_u64(n / 16);
        push_char(&mut s, hex_char(n % 16));
        s
    }
}

/// Writes an address as a hexadecimal literal.
pub fn hex_literal(n: u64) -> (r: String)
    ensures
        r@ == spec_hex_literal(n),
{
    let mut s = String::from_str("0x");
    let d = hex_min_u64(n);
    s.append(d.as_str());
    s
}

fn hex_fixed(n: u64, k: u64) -> (r: String)
    ensures
        r@ == spec_hex_fixed(n, k as nat),
    decreases k,
{
    if k == 0 {
        let s = String::new();
        proof {
            assert(s@ =~= Seq::<char>::empty());
        }
        s
    } else {
        let mut s = hex_fixed(n / 16, k - 1);
        push_char(&mut s, hex_char(n % 16));
        s
    }
}

/// Writes a transaction hash as a fixed-width hexadecimal literal.
pub fn hash_literal(n: u64) -> (r: String)
    ensures
        r@ == spec_hash_literal(n),
{
    let mut s = String::from_str("0x");
    let d = hex_fixed(n, 16);
    s.append(d.as_str());
    s
}

/// A quoted transaction hash, as it stands in an `in` list.
pub open spec fn spec_quoted_hash(h: u64) -> Seq<char> {
    "\""@ + spec_hash_literal(h) + "\""@
}

/// Quoted transaction hashes joined with commas.
pub open spec fn spec_hash_list(hs: Seq<u64>) -> Seq<char>
    decreases hs.len(),
{
    if hs.len() == 0 {
        Seq::<char>::empty()
    } else if hs.len() == 1 {
        spec_quoted_hash(hs[0])
    } else {
        spec_quoted_hash(hs[0]) + ","@ + spec_hash_list(hs.skip(1))
    }
}

proof fn lemma_hash_list_snoc(hs: Seq<u64>, h: u64)
    ensures
        spec_hash_list(hs.push(h)) == if hs.len() == 0 {
            spec_quoted_hash(h)
        } else {
            spec_hash_list(hs) + ","@ + spec_quoted_hash(h)
        },
    decreases hs.len(),
{
    reveal_with_fuel(spec_hash_list, 2);
    if hs.len() == 0 {
        assert(hs.push(h)[0] == h);
    } else {
        assert(hs.push(h)[0] == hs[0]);
        assert(hs.push(h).skip(1) =~= hs.skip(1).push(h));
        lemma_hash_list_snoc(hs.skip(1), h);
        if hs.len() == 1 {
            assert(hs.skip(1).len() == 0);
        } else {
            assert(spec_quoted_hash(hs[0]) + ","@ + (spec_hash_list(hs.skip(1)) + ","@
                + spec_quoted_hash(h)) =~= (spec_quoted_hash(hs[0]) + ","@ + spec_hash_list(
                hs.skip(1),
            )) + ","@ + spec_quoted_hash(h));
        }
    }
}

/// Writes the quoted, comma-joined hash list of an `in` clause.
fn hash_list(hs: &Vec<u64>) -> (r: String)
    ensures
        r@ == spec_hash_list(hs@),
{
    let mut s = String::new();
    let mut i: usize = 0;
    while i < hs.len()
        invariant
            i <= hs.len(),
            s@ == spec_hash_list(hs@.take(i as int)),
        decreases hs.len() - i,
    {
        if i > 0 {
            s.append(",");
        }
        s.append("\"");
        let lit = hash_literal(hs[i]);
        s.append(lit.as_str());
        s.append("\"");
        i = i + 1;
        proof {
            assert(hs@.take(i as int) =~= hs@.take(i - 1).push(hs@[i - 1]));
            lemma_hash_list_snoc(hs@.take(i - 1), hs@[i - 1]);
            assert(s@ =~= spec_hash_list(hs@.take(i as int)));
        }
    }
    proof {
        assert(hs@.take(hs@.len() as int) =~= hs@);
    }
    s
}

/// Whether a canonical type name carries type parameters.
pub open spec fn spec_has_type_params(s: Seq<char>) -> bool {
    exists|i: int| 0 <= i < s.len() && s[i] == '<'
}

/// Scans a canonical type name for type parameters.
pub fn has_type_params(s: &str) -> (r: bool)
    ensures
        r == spec_has_type_params(s@),
{
    let n = s.unicode_len();
    let mut i: usize = 0;
    while i < n
        invariant
            i <= n,
            n == s@.len(),
            forall|k: int| 0 <= k < i ==> s@[k] != '<',
        decreases n - i,
    {
        if s.get_char(i) == '<' {
            return true;
        }
        i = i + 1;
    }
    false
}

/// Filter of the transaction query.
#[derive(Clone, Debug, PartialEq, Eq)]
pub enum TransactionFilter {
    Sender(u64),
    OriginalAddress(String),
    TxHashes(Vec<u64>),
    TimeRange { start_time: u64, end_time: u64 },
    TxOrderRange { from_order: u64, to_order: u64 },
}

/// Filter of the event query.
#[derive(Clone, Debug, PartialEq, Eq)]
pub enum EventFilter {
    /// Canonical type name of the event, without its address prefix.
    EventType(String),
    Sender(u64),
    TxHash(u64),
    TimeRange { start_time: u64, end_time: u64 },
    TxOrderRange { from_order: u64, to_order: u64 },
}

/// Filter of the object-state query.
#[derive(Clone, Debug, PartialEq, Eq)]
pub enum ObjectStateFilter {
    ObjectTypeWithOwner { object_type: String, owner: u64 },
    ObjectType(String),
    Owner(u64),
    ObjectId(Vec<u64>),
}

/// The main `WHERE` clause the transaction filter selects.
pub open spec fn spec_transactions_where_clause(f: TransactionFilter) -> Seq<char> {
    match f {
        TransactionFilter::Sender(sender) => "sender = \""@ + spec_hex_literal(sender) + "\""@,
        TransactionFilter::OriginalAddress(address) => "multichain_original_address = \""@
            + address@ + "\""@,
        TransactionFilter::TxHashes(tx_hashes) => "tx_hash in ("@ + spec_hash_list(tx_hashes@)
            + ")"@,
        TransactionFilter::TimeRange { start_time, end_time } => "(created_at >= "@ + spec_dec_u64(
            start_time,
        ) + " AND created_at < "@ + spec_dec_u64(end_time) + ")"@,
        TransactionFilter::TxOrderRange { from_order, to_order } => "(tx_order >= "@
            + spec_dec_u64(from_order) + " AND tx_order < "@ + spec_dec_u64(to_order) + ")"@,
    }
}

/// Writes the main `WHERE` clause of the transaction query.
pub fn transactions_where_clause(f: &TransactionFilter) -> (r: String)
    ensures
        r@ == spec_transactions_where_clause(*f),
{
    match f {
        TransactionFilter::Sender(sender) => {
            let mut s = String::from_str("sender = \"");
            let lit = hex_literal(*sender);
            s.append(lit.as_str());
            s.append("\"");
            proof {
                assert(s@ =~= spec_transactions_where_clause(*f));
            }
            s
        },
        TransactionFilter::OriginalAddress(address) => {
            let mut s = String::from_str("multichain_original_address = \"");
            s.append(address.as_str());
            s.append("\"");
            proof {
                assert(s@ =~= spec_transactions_where_clause(*f));
            }
            s
        },
        TransactionFilter::TxHashes(tx_hashes) => {
            let mut s = String::from_str("tx_hash in (");
            let list = hash_list(tx_hashes);
            s.append(list.as_str());
            s.append(")");
            proof {
                assert(s@ =~= spec_transactions_where_clause(*f));
            }
            s
        },
        TransactionFilter::TimeRange { start_time, end_time } => {
            let mut s = String::from_str("(created_at >= ");
            let a = dec_u64(*start_time);
            s.append(a.as_str());
            s.append(" AND created_at < ");
            let b = dec_u64(*end_time);
            s.append(b.as_str());
            s.append(")");
            proof {
                assert(s@ =~= spec_transactions_where_clause(*f));
            }
            s
        },
        TransactionFilter::TxOrderRange { from_order, to_order } => {
            let mut s = String::from_str("(tx_order >= ");
            let a = dec_u64(*from_order);
            s.append(a.as_str());
            s.append(" AND tx_order < ");
            let b = dec_u64(*to_order);
            s.append(b.as_str());
            s.append(")");
            proof {
                assert(s@ =~= spec_transactions_where_clause(*f));
            }
            s
        },
    }
}

/// The pagination clause over a single order column.
pub open spec fn spec_tx_cursor_clause(tx_order: i64, descending: bool) -> Seq<char> {
    if descending {
        "AND (tx_order < "@ + spec_dec_i64(tx_order) + ")"@
    } else {
        "AND (tx_order > "@ + spec_dec_i64(tx_order) + ")"@
    }
}

fn tx_cursor_clause(tx_order: i64, descending: bool) -> (r: String)
    ensures
        r@ == spec_tx_cursor_clause(tx_order, descending),
{
    let mut s = if descending {
        String::from_str("AND (tx_order < ")
    } else {
        String::from_str("AND (tx_order > ")
    };
    let d = dec_i64(tx_order);
    s.append(d.as_str());
    s.append(")");
    proof {
        assert(s@ =~= spec_tx_cursor_clause(tx_order, descending));
    }
    s
}

/// The ordering clause over a single order column.
pub open spec fn spec_tx_order_clause(descending: bool) -> Seq<char> {
    if descending {
        "tx_order DESC"@
    } else {
        "tx_order ASC"@
    }
}

/// The full transaction query: filter, pagination from the effective
/// cursor, ordering, and limit.
pub open spec fn spec_transactions_query(
    f: TransactionFilter,
    tx_order: i64,
    limit: u64,
    descending: bool,
) -> Seq<char> {
    "SELECT * FROM transactions WHERE "@ + spec_transactions_where_clause(f) + " "@
        + spec_tx_cursor_clause(tx_order, descending) + " ORDER BY "@ + spec_tx_order_clause(
        descending,
    ) + " LIMIT "@ + spec_dec_u64(limit)
}

/// Builds the transaction query.
pub fn build_transactions_query(
    f: &TransactionFilter,
    tx_order: i64,
    limit: u64,
    descending: bool,
) -> (r: String)
    ensures
        r@ == spec_transactions_query(*f, tx_order, limit, descending),
{
    let mut s = String::from_str("SELECT * FROM transactions WHERE ");
    let w = transactions_where_clause(f);
    s.append(w.as_str());
    s.append(" ");
    let c = tx_cursor_clause(tx_order, descending);
    s.append(c.as_str());
    s.append(" ORDER BY ");
    if descending {
        s.append("tx_order DESC");
    } else {
        s.append("tx_order ASC");
    }
    s.append(" LIMIT ");
    let l = dec_u64(limit);
    s.append(l.as_str());
    proof {
        assert(s@ =~= spec_transactions_query(*f, tx_order, limit, descending));
    }
    s
}

/// The effective order cursor of a single-column query: the caller's
/// cursor, or one past the newest row when walking down, or before the
/// oldest when walking up.
pub fn effective_tx_cursor(cursor: Option<u64>, max_tx_order: i64, descending: bool) -> (r: i64)
    requires
        max_tx_order < i64::MAX,
    ensures
        cursor matches Some(c) ==> r == c as i64,
        (cursor is None && descending) ==> r == max_tx_order + 1,
        (cursor is None && !descending) ==> r == -1,
{
    match cursor {
        Some(c) => c as i64,
        None => if descending {
            max_tx_order + 1
        } else {
            -1
        },
    }
}

/// The main `WHERE` clause the event filter selects.
pub open spec fn spec_events_where_clause(f: EventFilter) -> Seq<char> {
    match f {
        EventFilter::EventType(tag) => "event_type = \"0x"@ + tag@ + "\""@,
        EventFilter::Sender(sender) => "sender = \""@ + spec_hex_literal(sender) + "\""@,
        EventFilter::TxHash(tx_hash) => "tx_hash = \""@ + spec_hash_literal(tx_hash) + "\""@,
        EventFilter::TimeRange { start_time, end_time } => "(created_at >= "@ + spec_dec_u64(
            start_time,
        ) + " AND created_at < "@ + spec_dec_u64(end_time) + ")"@,
        EventFilter::TxOrderRange { from_order, to_order } => "(tx_order >= "@ + spec_dec_u64(
            from_order,
        ) + " AND tx_order < "@ + spec_dec_u64(to_order) + ")"@,
    }
}

/// Writes the main `WHERE` clause of the event query.
pub fn events_where_clause(f: &EventFilter) -> (r: String)
    ensures
        r@ == spec_events_where_clause(*f),
{
    match f {
        EventFilter::EventType(tag) => {
            let mut s = String::from_str("event_type = \"0x");
            s.append(tag.as_str());
            s.append("\"");
            proof {
                assert(s@ =~= spec_events_where_clause(*f));
            }
            s
        },
        EventFilter::Sender(sender) => {
            let mut s = String::from_str("sender = \"");
            let lit = hex_literal(*sender);
            s.append(lit.as_str());
            s.append("\"");
            proof {
                assert(s@ =~= spec_events_where_clause(*f));
            }
            s
        },
        EventFilter::TxHash(tx_hash) => {
            let mut s = String::from_str("tx_hash = \"");
            let lit = hash_literal(*tx_hash);
            s.append(lit.as_str());
            s.append("\"");
            proof {
                assert(s@ =~= spec_events_where_clause(*f));
            }
            s
        },
        EventFilter::TimeRange { start_time, end_time } => {
            let mut s = String::from_str("(created_at >= ");
            let a = dec_u64(*start_time);
            s.append(a.as_str());
            s.append(" AND created_at < ");
            let b = dec_u64(*end_time);
            s.append(b.as_str());
            s.append(")");
            proof {
                assert(s@ =~= spec_events_where_clause(*f));
            }
            s
        },
        EventFilter::TxOrderRange { from_order, to_order } => {
            let mut s = String::from_str("(tx_order >= ");
            let a = dec_u64(*from_order);
            s.append(a.as_str());
            s.append(" AND tx_order < ");
            let b = dec_u64(*to_order);
            s.append(b.as_str());
            s.append(")");
            proof {
                assert(s@ =~= spec_events_where_clause(*f));
            }
            s
        },
    }
}

/// The two-column pagination clause of the event query.
pub open spec fn spec_events_cursor_clause(tx_order: i64, event_index: i64, descending: bool) -> Seq<
    char,
> {
    if descending {
        "AND (tx_order < "@ + spec_dec_i64(tx_order) + " OR (tx_order = "@ + spec_dec_i64(tx_order)
            + " AND event_index < "@ + spec_dec_i64(event_index) + "))"@
    } else {
        "AND (tx_order > "@ + spec_dec_i64(tx_order) + " OR (tx_order = "@ + spec_dec_i64(tx_order)
            + " AND event_index > "@ + spec_dec_i64(event_index) + "))"@
    }
}

fn events_cursor_clause(tx_order: i64, event_index: i64, descending: bool) -> (r: String)
    ensures
        r@ == spec_events_cursor_clause(tx_order, event_index, descending),
{
    let t = dec_i64(tx_order);
    let e = dec_i64(event_index);
    let mut s = if descending {
        String::from_str("AND (tx_order < ")
    } else {
        String::from_str("AND (tx_order > ")
    };
    s.append(t.as_str());
    s.append(" OR (tx_order = ");
    s.append(t.as_str());
    if descending {
        s.append(" AND event_index < ");
    } else {
        s.append(" AND event_index > ");
    }
    s.append(e.as_str());
    s.append("))");
    proof {
        assert(s@ =~= spec_events_cursor_clause(tx_order, event_index, descending));
    }
    s
}

/// The ordering clause of the event query.
pub open spec fn spec_events_order_clause(descending: bool) -> Seq<char> {
    if descending {
        "tx_order DESC, event_index DESC"@
    } else {
        "tx_order ASC, event_index ASC"@
    }
}

/// The full event query.
pub open spec fn spec_events_query(
    f: EventFilter,
    tx_order: i64,
    event_index: i64,
    limit: u64,
    descending: bool,
) -> Seq<char> {
    "SELECT * FROM events WHERE "@ + spec_events_where_clause(f) + " "@
        + spec_events_cursor_clause(tx_order, event_index, descending) + " ORDER BY "@
        + spec_events_order_clause(descending) + " LIMIT "@ + spec_dec_u64(limit)
}

/// Builds the event query.
pub fn build_events_query(
    f: &EventFilter,
    tx_order: i64,
    event_index: i64,
    limit: u64,
    descending: bool,
) -> (r: String)
    ensures
        r@ == spec_events_query(*f, tx_order, event_index, limit, descending),
{
    let mut s = String::from_str("SELECT * FROM events WHERE ");
    let w = events_where_clause(f);
    s.append(w.as_str());
    s.append(" ");
    let c = events_cursor_clause(tx_order, event_index, descending);
    s.append(c.as_str());
    s.append(" ORDER BY ");
    if descending {
        s.append("tx_order DESC, event_index DESC");
    } else {
        s.append("tx_order ASC, event_index ASC");
    }
    s.append(" LIMIT ");
    let l = dec_u64(limit);
    s.append(l.as_str());
    proof {
        assert(s@ =~= spec_events_query(*f, tx_order, event_index, limit, descending));
    }
    s
}

/// The effective two-column cursor: the caller's, or one past the newest
/// row when walking down, or before the oldest when walking up.
pub fn effective_pair_cursor(
    cursor: Option<(u64, u64)>,
    max_tx_order: i64,
    max_index: i64,
    descending: bool,
) -> (r: (i64, i64))
    requires
        max_tx_order < i64::MAX,
    ensures
        r == match cursor {
            Some(c) => (c.0 as i64, c.1 as i64),
            None => if descending {
                ((max_tx_order + 1) as i64, max_index)
            } else {
                (-1 as i64, 0 as i64)
            },
        },
{
    match cursor {
        Some(c) => (c.0 as i64, c.1 as i64),
        None => if descending {
            (max_tx_order + 1, max_index)
        } else {
            (-1, 0)
        },
    }
}

/// A quoted object identifier, as it stands in an `IN` list.
pub open spec fn spec_quoted_object_id(id: u64) -> Seq<char> {
    "\""@ + spec_hex_literal(id) + "\""@
}

/// Quoted object identifiers joined with commas.
pub open spec fn spec_object_id_list(ids: Seq<u64>) -> Seq<char>
    decreases ids.len(),
{
    if ids.len() == 0 {
        Seq::<char>::empty()
    } else if ids.len() == 1 {
        spec_quoted_object_id(ids[0])
    } else {
        spec_quoted_object_id(ids[0]) + ","@ + spec_object_id_list(ids.skip(1))
    }
}

proof fn lemma_object_id_list_snoc(ids: Seq<u64>, id: u64)
    ensures
        spec_object_id_list(ids.push(id)) == if ids.len() == 0 {
            spec_quoted_object_id(id)
        } else {
            spec_object_id_list(ids) + ","@ + spec_quoted_object_id(id)
        },
    decreases ids.len(),
{
    reveal_with_fuel(spec_object_id_list, 2);
    if ids.len() == 0 {
        assert(ids.push(id)[0] == id);
    } else {
        assert(ids.push(id)[0] == ids[0]);
        assert(ids.push(id).skip(1) =~= ids.skip(1).push(id));
        lemma_object_id_list_snoc(ids.skip(1), id);
        if ids.len() > 1 {
            assert(spec_quoted_object_id(ids[0]) + ","@ + (spec_object_id_list(ids.skip(1)) + ","@
                + spec_quoted_object_id(id)) =~= (spec_quoted_object_id(ids[0]) + ","@
                + spec_object_id_list(ids.skip(1))) + ","@ + spec_quoted_object_id(id));
        }
    }
}

fn object_id_list(ids: &Vec<u64>) -> (r: String)
    ensures
        r@ == spec_object_id_list(ids@),
{
    let mut s = String::new();
    let mut i: usize = 0;
    while i < ids.len()
        invariant
            i <= ids.len(),
            s@ == spec_object_id_list(ids@.take(i as int)),
        decreases ids.len() - i,
    {
        if i > 0 {
            s.append(",");
        }
        s.append("\"");
        let lit = hex_literal(ids[i]);
        s.append(lit.as_str());
        s.append("\"");
        i = i + 1;
        proof {
            assert(ids@.take(i as int) =~= ids@.take(i - 1).push(ids@[i - 1]));
            lemma_object_id_list_snoc(ids@.take(i - 1), ids@[i - 1]);
            assert(s@ =~= spec_object_id_list(ids@.take(i as int)));
        }
    }
    proof {
        assert(ids@.take(ids@.len() as int) =~= ids@);
    }
    s
}

/// The type clause: a name without type parameters matches as a prefix, a
/// fully instantiated name matches exactly.
pub open spec fn spec_object_type_query(object_type: Seq<char>) -> Seq<char> {
    if spec_has_type_params(object_type) {
        "object_type = \""@ + object_type + "\""@
    } else {
        "object_type like \""@ + object_type + "%\""@
    }
}

/// Writes the type clause of the object-state query.
pub fn object_type_query(object_type: &String) -> (r: String)
    ensures
        r@ == spec_object_type_query(object_type@),
{
    if has_type_params(object_type.as_str()) {
        let mut s = String::from_str("object_type = \"");
        s.append(object_type.as_str());
        s.append("\"");
        proof {
            assert(s@ =~= spec_object_type_query(object_type@));
        }
        s
    } else {
        let mut s = String::from_str("object_type like \"");
        s.append(object_type.as_str());
        s.append("%\"");
        proof {
            assert(s@ =~= spec_object_type_query(object_type@));
        }
        s
    }
}

/// The main `WHERE` clause the object-state filter selects.
pub open spec fn spec_states_where_clause(f: ObjectStateFilter) -> Seq<char> {
    match f {
        ObjectStateFilter::ObjectTypeWithOwner { object_type, owner } => spec_object_type_query(
            object_type@,
        ) + " AND owner = \""@ + spec_hex_literal(owner) + "\""@,
        ObjectStateFilter::ObjectType(object_type) => spec_object_type_query(object_type@),
        ObjectStateFilter::Owner(owner) => "owner = \""@ + spec_hex_literal(owner) + "\""@,
        ObjectStateFilter::ObjectId(ids) => "id IN ("@ + spec_object_id_list(ids@) + ")"@,
    }
}

/// Writes the main `WHERE` clause of the object-state query.
pub fn states_where_clause(f: &ObjectStateFilter) -> (r: String)
    ensures
        r@ == spec_states_where_clause(*f),
{
    match f {
        ObjectStateFilter::ObjectTypeWithOwner { object_type, owner } => {
            let mut s = object_type_query(object_type);
            s.append(" AND owner = \"");
            let lit = hex_literal(*owner);
            s.append(lit.as_str());
            s.append("\"");
            proof {
                assert(s@ =~= spec_states_where_clause(*f));
            }
            s
        },
        ObjectStateFilter::ObjectType(object_type) => object_type_query(object_type),
        ObjectStateFilter::Owner(owner) => {
            let mut s = String::from_str("owner = \"");
            let lit = hex_literal(*owner);
            s.append(lit.as_str());
            s.append("\"");
            proof {
                assert(s@ =~= spec_states_where_clause(*f));
            }
            s
        },
        ObjectStateFilter::ObjectId(ids) => {
            let mut s = String::from_str("id IN (");
            let list = object_id_list(ids);
            s.append(list.as_str());
            s.append(")");
            proof {
                assert(s@ =~= spec_states_where_clause(*f));
            }
            s
        },
    }
}

/// The two-column pagination clause of the object-state query.
pub open spec fn spec_states_cursor_clause(tx_order: i64, state_index: i64, descending: bool) -> Seq<
    char,
> {
    if descending {
        "AND (tx_order < "@ + spec_dec_i64(tx_order) + " OR (tx_order = "@ + spec_dec_i64(tx_order)
            + " AND state_index < "@ + spec_dec_i64(state_index) + "))"@
    } else {
        "AND (tx_order > "@ + spec_dec_i64(tx_order) + " OR (tx_order = "@ + spec_dec_i64(tx_order)
            + " AND state_index > "@ + spec_dec_i64(state_index) + "))"@
    }
}

fn states_cursor_clause(tx_order: i64, state_index: i64, descending: bool) -> (r: String)
    ensures
        r@ == spec_states_cursor_clause(tx_order, state_index, descending),
{
    let t = dec_i64(tx_order);
    let e = dec_i64(state_index);
    let mut s = if descending {
        String::from_str("AND (tx_order < ")
    } else {
        String::from_str("AND (tx_order > ")
    };
    s.append(t.as_str());
    s.append(" OR (tx_order = ");
    s.append(t.as_str());
    if descending {
        s.append(" AND state_index < ");
    } else {
        s.append(" AND state_index > ");
    }
    s.append(e.as_str());
    s.append("))");
    proof {
        assert(s@ =~= spec_states_cursor_clause(tx_order, state_index, descending));
    }
    s
}

/// The ordering clause of the object-state query.
pub open spec fn spec_states_order_clause(descending: bool) -> Seq<char> {
    if descending {
        "tx_order DESC, state_index DESC"@
    } else {
        "tx_order ASC, state_index ASC"@
    }
}

/// The full object-state query.
pub open spec fn spec_states_query(
    f: ObjectStateFilter,
    tx_order: i64,
    state_index: i64,
    limit: u64,
    descending: bool,
) -> Seq<char> {
    "SELECT * FROM object_states WHERE "@ + spec_states_where_clause(f) + " "@
        + spec_states_cursor_clause(tx_order, state_index, descending) + " ORDER BY "@
        + spec_states_order_clause(descending) + " LIMIT "@ + spec_dec_u64(limit)
}

/// Builds the object-state query.
pub fn build_states_query(
    f: &ObjectStateFilter,
    tx_order: i64,
    state_index: i64,
    limit: u64,
    descending: bool,
) -> (r: String)
    ensures
        r@ == spec_states_query(*f, tx_order, state_index, limit, descending),
{
    let mut s = String::from_str("SELECT * FROM object_states WHERE ");
    let w = states_where_clause(f);
    s.append(w.as_str());
    s.append(" ");
    let c = states_cursor_clause(tx_order, state_index, descending);
    s.append(c.as_str());
    s.append(" ORDER BY ");
    if descending {
        s.append("tx_order DESC, state_index DESC");
    } else {
        s.append("tx_order ASC, state_index ASC");
    }
    s.append(" LIMIT ");
    let l = dec_u64(limit);
    s.append(l.as_str());
    proof {
        assert(s@ =~= spec_states_query(*f, tx_order, state_index, limit, descending));
    }
    s
}

/// The query for the newest state row of one transaction.
pub open spec fn spec_last_state_index_query(tx_order: i64) -> Seq<char> {
    "SELECT * FROM object_states WHERE tx_order = \""@ + spec_dec_i64(tx_order)
        + "\" ORDER BY tx_order DESC, state_index DESC LIMIT 1"@
}

/// Builds the query for the newest state row of one transaction.
pub fn build_last_state_index_query(tx_order: i64) -> (r: String)
    ensures
        r@ == spec_last_state_index_query(tx_order),
{
    let mut s = String::from_str("SELECT * FROM object_states WHERE tx_order = \"");
    let d = dec_i64(tx_order);
    s.append(d.as_str());
    s.append("\" ORDER BY tx_order DESC, state_index DESC LIMIT 1");
    proof {
        assert(s@ =~= spec_last_state_index_query(tx_order));
    }
    s
}

/// The state index a transaction's next state row gets: one past the
/// newest existing row, or zero where there is none.
pub fn next_state_index(last: Option<u64>) -> (r: u64)
    requires
        last matches Some(x) ==> x < u64::MAX,
    ensures
        last matches Some(x) ==> r == x + 1,
        last is None ==> r == 0,
{
    match last {
        Some(x) => x + 1,
        None => 0,
    }
}

} // verus!
