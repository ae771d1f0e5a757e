//! Verified core of a small account service: registration and login by email.

pub mod counters;
pub mod envelope;
pub mod error;
pub mod laws;
pub mod login;
pub mod register;
pub mod service;
pub mod store;
pub mod user;
