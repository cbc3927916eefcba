//! The first generation of the adapters: configuration and the user repository's records.

pub mod config;
pub mod person;
pub mod user;
