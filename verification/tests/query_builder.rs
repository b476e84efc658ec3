//! Tests of the indexer SQL query builders: exact query text for each
//! filter, cursor, ordering and limit combination.

use moveos::query::{
    build_events_query, build_last_state_index_query, build_states_query,
    build_transactions_query, dec_i64, dec_u64, effective_pair_cursor, effective_tx_cursor,
    has_type_params, hash_literal, hex_literal, next_state_index, EventFilter, ObjectStateFilter,
    TransactionFilter,
};

#[test]
fn numbers_render_in_decimal_and_hex() {
    assert_eq!(dec_u64(0), "0");
    assert_eq!(dec_u64(907), "907");
    assert_eq!(dec_u64(u64::MAX), "18446744073709551615");
    assert_eq!(dec_i64(-5), "-5");
    assert_eq!(dec_i64(-1), "-1");
    assert_eq!(dec_i64(i64::MIN), "-9223372036854775808");
    assert_eq!(dec_i64(42), "42");
    assert_eq!(hex_literal(0), "0x0");
    assert_eq!(hex_literal(255), "0xff");
    assert_eq!(hex_literal(0x1a2b), "0x1a2b");
    assert_eq!(hash_literal(0x12), "0x0000000000000012");
}

#[test]
fn transactions_query_by_sender_ascending() {
    let q = build_transactions_query(&TransactionFilter::Sender(1), -1, 50, false);
    assert_eq!(
        q,
        "SELECT * FROM transactions WHERE sender = \"0x1\" AND (tx_order > -1) \
         ORDER BY tx_order ASC LIMIT 50"
    );
}

#[test]
fn transactions_query_by_hashes_descending() {
    let q = build_transactions_query(
        &TransactionFilter::TxHashes(vec![0x12, 0xab]),
        8,
        10,
        true,
    );
    assert_eq!(
        q,
        "SELECT * FROM transactions WHERE tx_hash in \
         (\"0x0000000000000012\",\"0x00000000000000ab\") AND (tx_order < 8) \
         ORDER BY tx_order DESC LIMIT 10"
    );
}

#[test]
fn transactions_query_by_ranges() {
    let q = build_transactions_query(
        &TransactionFilter::TimeRange { start_time: 5, end_time: 9 },
        -1,
        3,
        false,
    );
    assert_eq!(
        q,
        "SELECT * FROM transactions WHERE (created_at >= 5 AND created_at < 9) \
         AND (tx_order > -1) ORDER BY tx_order ASC LIMIT 3"
    );
    let q2 = build_transactions_query(
        &TransactionFilter::TxOrderRange { from_order: 2, to_order: 7 },
        -1,
        3,
        false,
    );
    assert_eq!(
        q2,
        "SELECT * FROM transactions WHERE (tx_order >= 2 AND tx_order < 7) \
         AND (tx_order > -1) ORDER BY tx_order ASC LIMIT 3"
    );
}

#[test]
fn events_query_by_type_with_pair_cursor() {
    let q = build_events_query(
        &EventFilter::EventType(String::from("3::coin::Deposit")),
        4,
        2,
        20,
        true,
    );
    assert_eq!(
        q,
        "SELECT * FROM events WHERE event_type = \"0x3::coin::Deposit\" \
         AND (tx_order < 4 OR (tx_order = 4 AND event_index < 2)) \
         ORDER BY tx_order DESC, event_index DESC LIMIT 20"
    );
}

#[test]
fn events_query_by_tx_hash_ascending() {
    let q = build_events_query(&EventFilter::TxHash(0xff), -1, 0, 5, false);
    assert_eq!(
        q,
        "SELECT * FROM events WHERE tx_hash = \"0x00000000000000ff\" \
         AND (tx_order > -1 OR (tx_order = -1 AND event_index > 0)) \
         ORDER BY tx_order ASC, event_index ASC LIMIT 5"
    );
}

#[test]
fn object_type_without_parameters_matches_as_prefix() {
    assert!(!has_type_params("3::gas_coin::GasCoin"));
    assert!(has_type_params("3::coin::Coin<0x3::gas_coin::GasCoin>"));
    let q = build_states_query(
        &ObjectStateFilter::ObjectType(String::from("3::gas_coin::GasCoin")),
        -1,
        0,
        10,
        false,
    );
    assert_eq!(
        q,
        "SELECT * FROM object_states WHERE object_type like \"3::gas_coin::GasCoin%\" \
         AND (tx_order > -1 OR (tx_order = -1 AND state_index > 0)) \
         ORDER BY tx_order ASC, state_index ASC LIMIT 10"
    );
}

#[test]
fn states_query_by_type_and_owner_exact() {
    let q = build_states_query(
        &ObjectStateFilter::ObjectTypeWithOwner {
            object_type: String::from("3::coin::Coin<0x3::gas_coin::GasCoin>"),
            owner: 0x2a,
        },
        9,
        1,
        4,
        true,
    );
    assert_eq!(
        q,
        "SELECT * FROM object_states WHERE \
         object_type = \"3::coin::Coin<0x3::gas_coin::GasCoin>\" AND owner = \"0x2a\" \
         AND (tx_order < 9 OR (tx_order = 9 AND state_index < 1)) \
         ORDER BY tx_order DESC, state_index DESC LIMIT 4"
    );
}

#[test]
fn states_query_by_object_ids() {
    let q = build_states_query(
        &ObjectStateFilter::ObjectId(vec![0x1, 0x2f]),
        -1,
        0,
        2,
        false,
    );
    assert_eq!(
        q,
        "SELECT * FROM object_states WHERE id IN (\"0x1\",\"0x2f\") \
         AND (tx_order > -1 OR (tx_order = -1 AND state_index > 0)) \
         ORDER BY tx_order ASC, state_index ASC LIMIT 2"
    );
}

#[test]
fn last_state_index_query_is_fixed() {
    let q = build_last_state_index_query(12);
    assert_eq!(
        q,
        "SELECT * FROM object_states WHERE tx_order = \"12\" \
         ORDER BY tx_order DESC, state_index DESC LIMIT 1"
    );
}

#[test]
fn cursors_follow_the_walk_direction() {
    assert_eq!(effective_tx_cursor(Some(7), 0, true), 7);
    assert_eq!(effective_tx_cursor(None, 41, true), 42);
    assert_eq!(effective_tx_cursor(None, 41, false), -1);
    assert_eq!(effective_pair_cursor(Some((3, 4)), 0, 0, true), (3, 4));
    assert_eq!(effective_pair_cursor(None, 9, 5, true), (10, 5));
    assert_eq!(effective_pair_cursor(None, 9, 5, false), (-1, 0));
    assert_eq!(next_state_index(None), 0);
    assert_eq!(next_state_index(Some(6)), 7);
}
