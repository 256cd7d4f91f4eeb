//! The kinds of frame a client may send over its socket.

use crate::text::same_text;
use vstd::prelude::*;

verus! {

/// Kind of an inbound frame, decided by its `type` member.
#[derive(Debug, Clone, Copy, PartialEq, Eq, Structural)]
pub enum WsMessageType {
    Logout,
    DeleteChat,
    ChatMessage,
    WebrtcOffer,
    WebrtcAnswer,
    WebrtcIceCandidate,
    VideoCallEnded,
    VideoCallAccepted,
    VideoCallDeclined,
    Unknown,
}

impl WsMessageType {
    /// The kind that a tag names; every tag outside the protocol is `Unknown`.
    pub open spec fn of_tag(tag: Seq<char>) -> WsMessageType {
        if tag == "logout"@ {
            WsMessageType::Logout
        } else if tag == "delete_chat"@ {
            WsMessageType::DeleteChat
        } else if tag == "chat_message"@ {
            WsMessageType::ChatMessage
        } else if tag == "webrtc_offer"@ {
            WsMessageType::WebrtcOffer
        } else if tag == "webrtc_answer"@ {
            WsMessageType::WebrtcAnswer
        } else if tag == "webrtc_ice_candidate"@ {
            WsMessageType::WebrtcIceCandidate
        } else if tag == "video_call_ended"@ {
            WsMessageType::VideoCallEnded
        } else if tag == "video_call_accepted"@ {
            WsMessageType::VideoCallAccepted
        } else if tag == "video_call_declined"@ {
            WsMessageType::VideoCallDeclined
        } else {
            WsMessageType::Unknown
        }
    }

}

impl vstd::std_specs::convert::FromSpecImpl<&str> for WsMessageType {
    open spec fn obeys_from_spec() -> bool {
        true
    }

    open spec fn from_spec(value: &str) -> WsMessageType {
        WsMessageType::of_tag(value@)
    }
}

impl From<&str> for WsMessageType {
    fn from(value: &str) -> (kind: WsMessageType) {
        if same_text(value, "logout") {
            WsMessageType::Logout
        } else if same_text(value, "delete_chat") {
            WsMessageType::DeleteChat
        } else if same_text(value, "chat_message") {
            WsMessageType::ChatMessage
        } else if same_text(value, "webrtc_offer") {
            WsMessageType::WebrtcOffer
        } else if same_text(value, "webrtc_answer") {
            WsMessageType::WebrtcAnswer
        } else if same_text(value, "webrtc_ice_candidate") {
            WsMessageType::WebrtcIceCandidate
        } else if same_text(value, "video_call_ended") {
            WsMessageType::VideoCallEnded
        } else if same_text(value, "video_call_accepted") {
            WsMessageType::VideoCallAccepted
        } else if same_text(value, "video_call_declined") {
            WsMessageType::VideoCallDeclined
        } else {
            WsMessageType::Unknown
        }
    }
}

} // verus!
