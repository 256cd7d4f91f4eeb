//! The state that every connection task shares.

pub mod app_state;
pub mod connection_registry;
pub mod membership_cache;
