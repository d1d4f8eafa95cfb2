//! Bulk-exports the rows of one time-series table into a self-describing
//! container file, and turns such files back into the statements that
//! rebuild and refill the table.
//!
//! The core is the bidirectional mapping between the database's column
//! types and the container formats' type systems: [`mapper`] holds the
//! single-sourced type table, [`schema`] builds and inverts the embedded
//! schema, [`encode`] widens fetched rows into stored values, [`decode`]
//! narrows them back, and [`sql`] renders the decoded rows as a table
//! definition and batched bulk inserts with every textual payload quoted
//! and escaped. [`commands`] sequences the two directions; [`orchestrator`]
//! fixes the order their stages may take. Argument handling, file and
//! network traffic stay with the binary around this library.

use vstd::prelude::*;

pub mod avro;
pub mod cli;
pub mod commands;
pub mod dbdump;
pub mod decode;
pub mod describe;
pub mod encode;
pub mod files;
pub mod mapper;
pub mod orchestrator;
pub mod parquet;
pub mod schema;
pub mod sql;
pub mod text;
pub mod types;

verus! {

/// Container formats a table can be exported to or imported from.
#[derive(Clone, Copy, Debug, PartialEq, Eq, Structural)]
pub enum Formats {
    Avro,
    Parquet,
}

/// Top-level entry point for library initialisation; nothing to set up yet.
pub fn start() -> (r: Result<(), types::Error>)
    ensures
        r is Ok,
{
    Ok(())
}

} // verus!
