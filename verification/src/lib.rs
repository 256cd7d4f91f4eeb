//! Real-time core of a chat and call-signaling backend: the registry of live
//! connections, the chat membership cache, message fan-out and signaling relay.

pub mod config;
pub mod json;
pub mod middleware;
pub mod models;
pub mod object_id;
pub mod services;
pub mod states;
pub mod text;
pub mod timestamp;
pub mod types;
pub mod utils;
pub mod webrtc;
pub mod websocket;
