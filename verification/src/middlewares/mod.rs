//! What runs ahead of the handlers.

pub mod auth;
