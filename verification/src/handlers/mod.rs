//! One function for each route: what it does to the store and what it
//! answers.

pub mod user;
