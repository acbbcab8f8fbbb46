//! A ledger-like record store of users and value-transfer transactions,
//! exposed through typed query and mutation operations: list users
//! newest first, look one up by id, list the transactions a user sends
//! or receives, and create either kind of record under a fresh,
//! time-sortable identifier.

mod id;
pub mod laws;
pub mod models;
pub mod resolver;
pub mod store;
