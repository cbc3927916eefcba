//! What the HTTP layer decides: limits on payloads, answers, and who may pass.

pub mod auth;
pub mod config;
pub mod handlers;
pub mod limited_slice;
pub mod reply;
pub mod req_scope;
