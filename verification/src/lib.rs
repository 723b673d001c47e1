//! Session-based authentication for a chat service.
//!
//! The library checks the shape of credentials, hashes and verifies
//! passwords, registers accounts and logs them in, issues, rotates, resolves
//! and revokes sessions, and guards the protected routes. An account has at
//! most one session; a session lives for seven days and counts as absent
//! from then on.
//!
//! - [`modules`] holds the records and the inputs, with the shape rules.
//! - [`store`] holds the accounts and the sessions and keeps their
//!   constraints.
//! - [`services`] does the work on accounts and sessions, and says what to
//!   make of each answer of a store.
//! - [`middlewares`] holds the guard.
//! - [`handlers`] has one function for each route of an account.
//! - [`response`] and [`error`] hold what a handler answers, [`utils`] the
//!   session cookie.
//!
//! Time is a parameter: a function that needs the time takes the second
//! `now`, counted from the epoch.

pub mod error;
pub mod handlers;
pub mod middlewares;
pub mod modules;
pub mod response;
pub mod services;
pub mod store;
pub mod utils;
