//! Verified core of a bulk-ingestion service: a pure SQL statement builder,
//! a model of the pooled fan-out coordinator, and the per-record insert
//! operation's outcome logic. The HTTP layer and the real database client
//! live outside this crate and drive these functions.

pub mod batch;
pub mod gen;
pub mod models;
pub mod outcome;
pub mod statement;
pub mod users;
