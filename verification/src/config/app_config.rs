//! The settings that the service reads at startup.

use vstd::prelude::*;

verus! {

/// Settings of the service.
pub struct AppConfig {
    pub database_url: String,
    pub database_name: String,
    pub email_address: String,
    pub email_password: String,
    pub friend_request_notification: &'static str,
    pub video_call_notification: &'static str,
    pub reset_token_length: usize,
    pub reset_token_expiration_minutes: i64,
}

} // verus!
