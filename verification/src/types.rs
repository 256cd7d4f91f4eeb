//! Wire-level vocabulary shared by the connection handlers.

pub mod ws_message_types;
