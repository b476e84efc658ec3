//! Transaction-execution core of a deterministic virtual-machine host.
//!
//! Given an already-ordered, already-authenticated transaction and a snapshot
//! of global state, the engine produces exactly one deterministic state
//! transition plus a metered gas record, whether the submitted action
//! succeeds, aborts, or is aborted by the host itself.
//!
//! Downstream read-side consumers of this state — the JSON-RPC view layer
//! with its wallet and address formats, and the indexer's write-side
//! messaging — are out of this crate's scope. Of the indexer, the crate
//! holds only the read side's pool plumbing and the verified construction
//! of its queries.

pub mod action;
pub mod context;
pub mod gas;
pub mod indexer;
pub mod moveos;
pub mod query;
pub mod session;
pub mod state;
pub mod status;
