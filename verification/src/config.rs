//! Settings of the running service.

pub mod app_config;
