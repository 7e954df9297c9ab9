//! A small user-management service core: the user record, the persistence
//! operations on the `users` table with their error taxonomy, and the request
//! handlers that turn persistence outcomes into HTTP statuses and bodies.
//!
//! The operations never own a connection. Each one is split into the
//! statement it wants run and the reading of what the run reported, so a
//! caller can drive them over a pooled connection, an open transaction, or the
//! in-memory [`db::table::UserTable`].

pub mod db;
pub mod handlers;
pub mod models;
