//! What the request handlers decide, apart from the store and the transport.

pub mod auth_service;
pub mod chat_service;
pub mod notification_service;
pub mod user_service;
pub mod video_call_service;
