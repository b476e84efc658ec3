//! Tests of the indexer read side: table-name mapping and the SQLite
//! connection pools behind it.

use moveos::indexer::{
    IndexerError, IndexerReader, IndexerStoreMeta, SqliteConnectionPoolConfig,
    INDEXER_EVENTS_TABLE_NAME, INDEXER_OBJECT_STATES_TABLE_NAME, INDEXER_TRANSACTIONS_TABLE_NAME,
};

#[test]
fn indexer_table_names_are_fixed() {
    let names = IndexerStoreMeta::get_indexer_table_names();
    assert_eq!(
        names,
        vec![
            INDEXER_TRANSACTIONS_TABLE_NAME,
            INDEXER_EVENTS_TABLE_NAME,
            INDEXER_OBJECT_STATES_TABLE_NAME
        ]
    );
}

#[test]
fn indexer_reader_opens_one_pool_per_table() {
    let config = SqliteConnectionPoolConfig { pool_size: 2, connection_timeout_ms: 1500 };
    let reader = IndexerReader::new_with_config(String::from("."), config).unwrap();
    assert_eq!(reader.inner_indexer_reader_mapping.len(), 3);
    assert!(reader
        .get_inner_indexer_reader(INDEXER_TRANSACTIONS_TABLE_NAME)
        .is_ok());
    assert!(reader.get_inner_indexer_reader(INDEXER_EVENTS_TABLE_NAME).is_ok());
    let missing = reader.get_inner_indexer_reader("no_such_table");
    assert_eq!(missing.err(), Some(IndexerError::NotExist));
}

#[test]
fn indexer_reader_checkout_reports_pool_errors() {
    // A base directory that cannot exist: every checkout fails with the
    // pool's error, within the configured timeout.
    let config = SqliteConnectionPoolConfig { pool_size: 1, connection_timeout_ms: 300 };
    let reader = IndexerReader::new_with_config(
        String::from("/nonexistent_base_dir_for_indexer"),
        config,
    )
    .unwrap();
    let inner = reader
        .get_inner_indexer_reader(INDEXER_OBJECT_STATES_TABLE_NAME)
        .unwrap();
    let r = inner.get_connection();
    assert!(matches!(
        r.err(),
        Some(IndexerError::SqlitePoolConnectionError(_))
    ));
}
