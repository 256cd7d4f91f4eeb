//! Small helpers of the request handlers.

pub mod auth_util;
pub mod validation_util;
