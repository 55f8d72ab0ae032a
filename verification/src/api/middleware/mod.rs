//! Decision logic of the command middleware: permission and role checks,
//! rate-limit failures and input sanitizing.

pub mod auth;
pub mod rate_limit;
pub mod validation;
