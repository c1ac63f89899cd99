//! Verified core of a Turso/SQLite-backed durable-execution store: the
//! sqlx-shaped query layer (values, rows, errors), the provider options and
//! their PRAGMA rendering, the transaction retry policy, the connection
//! slot bookkeeping of the pool, and the stress-test configuration helpers.
//! All database I/O lives outside this crate; it hands plain values in and
//! takes plain values back.

pub mod errors;
pub mod options;
pub mod pool;
pub mod provider;
pub mod query;
pub mod sqlite;
pub mod stress;
pub mod text;
pub mod timespan;
pub mod values;
