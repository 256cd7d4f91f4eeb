//! The records that the store keeps.

pub mod chat_model;
pub mod message_model;
pub mod notification_model;
pub mod session;
pub mod user_model;
