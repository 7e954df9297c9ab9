//! The data model.

pub mod user;
