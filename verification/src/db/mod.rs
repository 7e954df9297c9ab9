//! Persistence: statements, the in-memory table, and the user operations.

pub mod statement;
pub mod table;
pub mod users;
