//! Checks that stand in front of the request handlers.

pub mod auth_middleware;
pub mod rate_limiter;
