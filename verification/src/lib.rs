//! Persistence core for player identity and alias history.
//!
//! The crate models the data-access layer of a multiplayer game server:
//! typed identifiers that keep surrogate keys and platform keys apart,
//! row models for the relational schema, a connection exposing the domain
//! operations (insert-once players, insert-or-touch aliases, grouped
//! listings), and a bounded connection pool with checkout accounting.

pub mod args;
pub mod conn;
pub mod ids;
pub mod laws;
pub mod model;
pub mod pool;
pub mod rows;
pub mod telemetry;
