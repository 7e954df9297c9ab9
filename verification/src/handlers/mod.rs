//! Request handlers: from a decoded payload and a persistence outcome to an
//! HTTP status and body.

pub mod health;
pub mod response;
pub mod user_handlers;
