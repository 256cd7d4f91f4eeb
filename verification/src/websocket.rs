//! What one live connection does: its life cycle, the frames it accepts, the
//! routing of chat messages and the relay of call signaling.

pub mod chat_frame;
pub mod delivery;
pub mod fan_out;
pub mod relay;
pub mod router;
pub mod websocket_session;
