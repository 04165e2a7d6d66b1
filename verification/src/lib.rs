//! Ingestion core of an indexer for EVM-compatible chains.
//!
//! The crate holds the decisions of the pipeline as verified functions on
//! plain values. Everything that talks to a node, a store or a socket
//! lives outside and drives these functions: it asks the node, hands the
//! answers in, does what comes out, and reports what happened.
//!
//! * [`chains`] and [`configs`]: the chain that is indexed, its genesis
//!   allocations, and the settings of a run.
//! * [`utils`]: lowercase hex, decimal text, timestamps, 256-bit
//!   integers, stable ordering.
//! * [`db`]: the records, the tables, the batch, the ordering rule of the
//!   writer, the set of indexed blocks, and the text of the queries.
//! * [`rpc`]: the block assembler, the event decoder, the reconciliation
//!   plan, the backfill coordinator and the tip follower.
//! * [`explorer`]: what the read-only HTTP surface answers.

pub mod chains;
pub mod configs;
pub mod db;
pub mod explorer;
pub mod rpc;
pub mod utils;
