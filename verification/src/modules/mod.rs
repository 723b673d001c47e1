//! The records that the service stores and the inputs that it accepts.

pub mod conversation;
pub mod message;
pub mod user;
