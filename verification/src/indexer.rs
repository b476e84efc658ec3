//! Read-side access to the indexer databases: one SQLite connection pool
//! per indexer table, kept in a name-keyed mapping.
//!
//! The pools come from diesel's r2d2 integration and are opaque here: the
//! verified logic builds the per-table database locations, keeps the
//! mapping well-formed, and shapes the errors; the pool calls themselves
//! stand behind trusted wrappers.

use vstd::prelude::*;
use vstd::string::*;

verus! {

/// Name of the indexer table of transactions.
pub const INDEXER_TRANSACTIONS_TABLE_NAME: &'static str = "transactions";

/// Name of the indexer table of events.
pub const INDEXER_EVENTS_TABLE_NAME: &'static str = "events";

/// Name of the indexer table of object states.
pub const INDEXER_OBJECT_STATES_TABLE_NAME: &'static str = "object_states";

/// An r2d2 pool of SQLite connections. The pool itself is diesel's and is
/// opaque to the verified logic, which only carries it.
#[verifier::external_body]
pub struct SqliteConnectionPool {
    pub inner: diesel::r2d2::Pool<diesel::r2d2::ConnectionManager<diesel::SqliteConnection>>,
}

/// A SQLite connection checked out of the pool; opaque to the verified
/// logic, handed to callers that run queries on it.
#[verifier::external_body]
pub struct SqlitePoolConnection {
    pub inner: diesel::r2d2::PooledConnection<
        diesel::r2d2::ConnectionManager<diesel::SqliteConnection>,
    >,
}

/// How a per-table SQLite connection pool is sized.
#[derive(Clone, Copy, Debug, PartialEq, Eq, Structural)]
pub struct SqliteConnectionPoolConfig {
    pub pool_size: u32,
    pub connection_timeout_ms: u64,
}

pub const DEFAULT_POOL_SIZE: u32 = 8;

pub const DEFAULT_CONNECTION_TIMEOUT_MS: u64 = 30000;

impl Default for SqliteConnectionPoolConfig {
    fn default() -> (r: Self)
        ensures
            r.pool_size == DEFAULT_POOL_SIZE,
            r.connection_timeout_ms == DEFAULT_CONNECTION_TIMEOUT_MS,
    {
        SqliteConnectionPoolConfig {
            pool_size: DEFAULT_POOL_SIZE,
            connection_timeout_ms: DEFAULT_CONNECTION_TIMEOUT_MS,
        }
    }
}

/// Errors of the indexer read side.
#[derive(Clone, Debug, PartialEq, Eq)]
pub enum IndexerError {
    SqlitePoolConnectionError(String),
    SQLiteReadError(String),
    /// No inner reader is registered under the requested table name.
    NotExist,
}

/// Relies on diesel::r2d2::ConnectionManager::new and r2d2::Builder::build:
/// opens a pool of at most `pool_size` SQLite connections to `db_url`,
/// waiting at most `connection_timeout_ms` per checkout. r2d2's builder
/// demands a positive pool size (`max_size` asserts on zero) and a positive
/// checkout timeout (`connection_timeout` asserts on the zero duration), so
/// zero is excluded for both here. Connections are established lazily, on
/// checkout, and are opened with SQLite's defaults: no read-only,
/// write-ahead-log or busy-timeout customization is applied to them (a
/// per-connection customization hook would be an impl of an outside trait,
/// which the verified library cannot hold).
#[verifier::external_body]
fn build_pool(db_url: &str, pool_size: u32, connection_timeout_ms: u64) -> (r: Result<
    SqliteConnectionPool,
    String,
>)
    requires
        pool_size >= 1,
        connection_timeout_ms >= 1,
{
    let manager = diesel::r2d2::ConnectionManager::<diesel::SqliteConnection>::new(db_url);
    diesel::r2d2::Pool::builder()
        .max_size(pool_size)
        .min_idle(Some(0))
        .connection_timeout(std::time::Duration::from_millis(connection_timeout_ms))
        .build(manager)
        .map(|p| SqliteConnectionPool { inner: p })
        .map_err(|e| format!("Failed to initialize connection pool. Error: {:?}", e))
}

/// Relies on r2d2::Pool::get: checks one connection out of the pool, or
/// reports the pool's error after the configured timeout.
#[verifier::external_body]
fn pool_get(pool: &SqliteConnectionPool) -> (r: Result<SqlitePoolConnection, String>) {
    pool.inner.get().map(|c| SqlitePoolConnection { inner: c }).map_err(
        |e| format!("Failed to get connection from SQLite connection pool with error: {:?}", e),
    )
}

/// Relies on r2d2::Pool::clone: the clone references the same pool state.
#[verifier::external_body]
fn clone_pool(pool: &SqliteConnectionPool) -> (r: SqliteConnectionPool) {
    SqliteConnectionPool { inner: pool.inner.clone() }
}

/// The tables the indexer keeps, one database each.
pub struct IndexerStoreMeta {}

impl IndexerStoreMeta {
    pub fn get_indexer_table_names() -> (r: Vec<&'static str>)
        ensures
            r@.len() == 3,
            r@[0]@ == INDEXER_TRANSACTIONS_TABLE_NAME@,
            r@[1]@ == INDEXER_EVENTS_TABLE_NAME@,
            r@[2]@ == INDEXER_OBJECT_STATES_TABLE_NAME@,
    {
        let mut r: Vec<&'static str> = Vec::new();
        r.push(INDEXER_TRANSACTIONS_TABLE_NAME);
        r.push(INDEXER_EVENTS_TABLE_NAME);
        r.push(INDEXER_OBJECT_STATES_TABLE_NAME);
        r
    }
}

/// The reader over one indexer table's database: a shared connection pool.
pub struct InnerIndexerReader {
    pub pool: SqliteConnectionPool,
}

impl InnerIndexerReader {
    /// Opens the connection pool for `db_url`. The pool needs at least one
    /// connection slot and a positive checkout timeout. Connections are
    /// opened lazily: an unreachable location surfaces at `get_connection`,
    /// not here.
    pub fn new_with_config(db_url: String, config: SqliteConnectionPoolConfig) -> (r: Result<
        InnerIndexerReader,
        IndexerError,
    >)
        requires
            config.pool_size >= 1,
            config.connection_timeout_ms >= 1,
        ensures
            r matches Err(e) ==> e matches IndexerError::SqlitePoolConnectionError(_),
    {
        match build_pool(db_url.as_str(), config.pool_size, config.connection_timeout_ms) {
            Ok(pool) => Ok(InnerIndexerReader { pool }),
            Err(msg) => Err(IndexerError::SqlitePoolConnectionError(msg)),
        }
    }

    /// Checks a connection out of the pool.
    pub fn get_connection(&self) -> (r: Result<SqlitePoolConnection, IndexerError>)
        ensures
            r matches Err(e) ==> e matches IndexerError::SqlitePoolConnectionError(_),
    {
        match pool_get(&self.pool) {
            Ok(c) => Ok(c),
            Err(msg) => Err(IndexerError::SqlitePoolConnectionError(msg)),
        }
    }
}

impl Clone for InnerIndexerReader {
    /// The clone shares the same pool.
    fn clone(&self) -> (r: Self) {
        InnerIndexerReader { pool: clone_pool(&self.pool) }
    }
}

/// The location of one table's database under the base path.
pub open spec fn spec_db_url(base: Seq<char>, table: Seq<char>) -> Seq<char> {
    base + "/"@ + table
}

/// Joins the base path and a table name into the table's database location.
fn join_db_url(base: &str, table: &str) -> (r: String)
    ensures
        r@ == spec_db_url(base@, table@),
{
    let mut s = String::from_str(base);
    s.append("/");
    s.append(table);
    s
}

/// The read side of the indexer: one inner reader per indexer table, keyed
/// by table name.
pub struct IndexerReader {
    pub inner_indexer_reader_mapping: Vec<(String, InnerIndexerReader)>,
}

impl IndexerReader {
    /// Opens readers for every indexer table under `db_path` with the
    /// default pool configuration.
    pub fn new(db_path: String) -> (r: Result<IndexerReader, IndexerError>)
        ensures
            r matches Ok(reader) ==> Self::mapping_complete(
                reader.inner_indexer_reader_mapping@,
            ),
            r matches Err(e) ==> e matches IndexerError::SqlitePoolConnectionError(_),
    {
        let config = SqliteConnectionPoolConfig::default();
        Self::new_with_config(db_path, config)
    }

    /// The mapping holds exactly the three indexer tables, in order.
    pub open spec fn mapping_complete(mapping: Seq<(String, InnerIndexerReader)>) -> bool {
        &&& mapping.len() == 3
        &&& mapping[0].0@ == INDEXER_TRANSACTIONS_TABLE_NAME@
        &&& mapping[1].0@ == INDEXER_EVENTS_TABLE_NAME@
        &&& mapping[2].0@ == INDEXER_OBJECT_STATES_TABLE_NAME@
    }

    /// Opens readers for every indexer table, each over the database at
    /// `db_path`/`table`. The pools need at least one connection slot each
    /// and a positive checkout timeout.
    pub fn new_with_config(db_path: String, config: SqliteConnectionPoolConfig) -> (r: Result<
        IndexerReader,
        IndexerError,
    >)
        requires
            config.pool_size >= 1,
            config.connection_timeout_ms >= 1,
        ensures
            r matches Ok(reader) ==> Self::mapping_complete(
                reader.inner_indexer_reader_mapping@,
            ),
            r matches Err(e) ==> e matches IndexerError::SqlitePoolConnectionError(_),
    {
        let tables = IndexerStoreMeta::get_indexer_table_names();
        let mut inner_indexer_reader_mapping: Vec<(String, InnerIndexerReader)> = Vec::new();
        let mut i: usize = 0;
        while i < tables.len()
            invariant
                i <= tables.len(),
                config.pool_size >= 1,
                config.connection_timeout_ms >= 1,
                tables@.len() == 3,
                tables@[0]@ == INDEXER_TRANSACTIONS_TABLE_NAME@,
                tables@[1]@ == INDEXER_EVENTS_TABLE_NAME@,
                tables@[2]@ == INDEXER_OBJECT_STATES_TABLE_NAME@,
                inner_indexer_reader_mapping@.len() == i,
                forall|k: int|
                    0 <= k < i ==> (#[trigger] inner_indexer_reader_mapping@[k]).0@ == tables@[k]@,
            decreases tables.len() - i,
        {
            let table = tables[i];
            let indexer_db_url = join_db_url(db_path.as_str(), table);
            let inner_indexer_reader = match InnerIndexerReader::new_with_config(
                indexer_db_url,
                config,
            ) {
                Ok(inner) => inner,
                Err(e) => {
                    return Err(e);
                },
            };
            inner_indexer_reader_mapping.push((String::from_str(table), inner_indexer_reader));
            i = i + 1;
        }
        Ok(IndexerReader { inner_indexer_reader_mapping })
    }

    /// The inner reader registered under `table_name`, if any; the result
    /// shares that reader's pool.
    pub fn get_inner_indexer_reader(&self, table_name: &str) -> (r: Result<
        InnerIndexerReader,
        IndexerError,
    >)
        ensures
            r is Ok <==> (exists|k: int|
                0 <= k < self.inner_indexer_reader_mapping@.len() && (
                #[trigger] self.inner_indexer_reader_mapping@[k]).0@ == table_name@),
            r matches Err(e) ==> e == IndexerError::NotExist,
    {
        let key = String::from_str(table_name);
        let mut i: usize = 0;
        while i < self.inner_indexer_reader_mapping.len()
            invariant
                i <= self.inner_indexer_reader_mapping@.len(),
                key@ == table_name@,
                forall|k: int|
                    0 <= k < i ==> (#[trigger] self.inner_indexer_reader_mapping@[k]).0@
                        != table_name@,
            decreases self.inner_indexer_reader_mapping.len() - i,
        {
            if self.inner_indexer_reader_mapping[i].0 == key {
                return Ok(self.inner_indexer_reader_mapping[i].1.clone());
            }
            i = i + 1;
        }
        Err(IndexerError::NotExist)
    }
}

} // verus!
