//! Setting up a video call: who may call whom, and what the two sides are
//! told over their connections.

use crate::json::{json_object_text, member_texts, render_text_object};
use crate::object_id::{hex_text, ObjectId};
use crate::states::connection_registry::ConnectionRegistry;
use crate::states::membership_cache::holds;
use crate::websocket::delivery::{push_to_user, Delivery};
use crate::websocket::router::ChatLookup;
use vstd::prelude::*;

verus! {

/// Body of the request that starts a call.
pub struct VideoCallRequest {
    pub recipient_id: String,
    pub chat_id: String,
}

/// Body of the request that answers a call.
pub struct VideoCallResponse {
    pub notification_id: String,
    pub accepted: bool,
}

/// Why a call could not be set up.
#[derive(Debug, Clone, Copy, PartialEq, Eq, Structural)]
pub enum VideoCallError {
    /// The one to be called has no live connection.
    RecipientOffline,
    /// The chat the call belongs to is not on record.
    ChatNotFound,
    /// Caller and recipient do not both take part in the chat.
    NotParticipants,
    /// The store could not be asked.
    Database,
}

impl VideoCallError {
    /// The HTTP status that the error is answered with.
    pub open spec fn status(self) -> u16 {
        match self {
            VideoCallError::RecipientOffline => 400,
            VideoCallError::ChatNotFound => 404,
            VideoCallError::NotParticipants => 403,
            VideoCallError::Database => 500,
        }
    }

    /// Computes `status`.
    pub fn status_code(&self) -> (code: u16)
        ensures
            code == self.status(),
    {
        match self {
            VideoCallError::RecipientOffline => 400,
            VideoCallError::ChatNotFound => 404,
            VideoCallError::NotParticipants => 403,
            VideoCallError::Database => 500,
        }
    }

    /// The sentence that the error is answered with.
    pub fn message(&self) -> (text: &'static str)
        ensures
            text@ == match self {
                VideoCallError::RecipientOffline => "Recipient is not online"@,
                VideoCallError::ChatNotFound => "Chat not found"@,
                VideoCallError::NotParticipants => "Users are not participants in the chat"@,
                VideoCallError::Database => "Database error"@,
            },
    {
        match self {
            VideoCallError::RecipientOffline => "Recipient is not online",
            VideoCallError::ChatNotFound => "Chat not found",
            VideoCallError::NotParticipants => "Users are not participants in the chat",
            VideoCallError::Database => "Database error",
        }
    }
}

/// Whether a call from `caller_id` to `recipient_id` may go ahead, given what
/// the store says of the chat: the chat must be on record and both must take
/// part in it.
pub open spec fn call_verdict(lookup: ChatLookup, caller_id: ObjectId, recipient_id: ObjectId) -> Result<
    (),
    VideoCallError,
> {
    match lookup {
        ChatLookup::Failed => Err(VideoCallError::Database),
        ChatLookup::Missing => Err(VideoCallError::ChatNotFound),
        ChatLookup::Found(participants) => if participants@.contains(caller_id)
            && participants@.contains(recipient_id) {
            Ok(())
        } else {
            Err(VideoCallError::NotParticipants)
        },
    }
}

/// A call that has passed its first check and waits for the store's answer
/// about its chat.
#[derive(Debug, Clone, Copy, PartialEq, Eq, Structural)]
pub struct CallSetup {
    pub caller_id: ObjectId,
    pub recipient_id: ObjectId,
    /// The chat to look up in the store.
    pub chat_id: ObjectId,
}

/// Begins a call from `caller_id` to `recipient_id` in the chat `chat_id`.
/// The recipient has to be online; if so, the chat is to be looked up next.
pub fn initiate_video_call_logic<H>(
    registry: &ConnectionRegistry<H>,
    caller_id: ObjectId,
    recipient_id: ObjectId,
    chat_id: ObjectId,
) -> (setup: Result<CallSetup, VideoCallError>)
    ensures
        setup == if registry@.contains_key(recipient_id) {
            Ok::<CallSetup, VideoCallError>(CallSetup { caller_id, recipient_id, chat_id })
        } else {
            Err::<CallSetup, VideoCallError>(VideoCallError::RecipientOffline)
        },
{
    if registry.is_online(recipient_id) {
        Ok(CallSetup { caller_id, recipient_id, chat_id })
    } else {
        Err(VideoCallError::RecipientOffline)
    }
}

impl CallSetup {
    /// Second check of a call, made on the store's answer about the chat.
    pub fn chat_looked(&self, lookup: &ChatLookup) -> (verdict: Result<(), VideoCallError>)
        ensures
            verdict == call_verdict(*lookup, self.caller_id, self.recipient_id),
    {
        match lookup {
            ChatLookup::Failed => Err(VideoCallError::Database),
            ChatLookup::Missing => Err(VideoCallError::ChatNotFound),
            ChatLookup::Found(participants) => {
                if holds(participants, self.caller_id) && holds(participants, self.recipient_id) {
                    Ok(())
                } else {
                    Err(VideoCallError::NotParticipants)
                }
            },
        }
    }

    /// Addresses the announcement of the call to the recipient. The call was
    /// checked while the recipient was online; one who has gone offline since
    /// gets nothing, and the call still counts as started.
    pub fn announce<'a, H>(&self, registry: &'a ConnectionRegistry<H>, announcement: String) -> (delivery:
        Option<Delivery<'a, H>>)
        ensures
            delivery.is_some() == registry@.contains_key(self.recipient_id),
            delivery is Some ==> delivery.unwrap().carries(
                registry@,
                self.recipient_id,
                announcement@,
            ),
    {
        push_to_user(registry, self.recipient_id, announcement)
    }
}

/// The members of the document that tells a caller how the call was answered.
pub open spec fn call_answer_members(
    recipient_id: ObjectId,
    notification_id: ObjectId,
    accepted: bool,
) -> Seq<(Seq<char>, Seq<char>)> {
    seq![
        (
            "type"@,
            if accepted {
                "video_call_accepted"@
            } else {
                "video_call_declined"@
            },
        ),
        ("from"@, hex_text(recipient_id.bytes())),
        ("notification_id"@, hex_text(notification_id.bytes())),
    ]
}

/// Addresses the answer to a call to the caller, if the caller is online.
/// `caller_id` is the sender of the notification that announced the call.
pub fn respond_video_call_logic<'a, H>(
    registry: &'a ConnectionRegistry<H>,
    recipient_id: ObjectId,
    notification_id: ObjectId,
    caller_id: ObjectId,
    accepted: bool,
) -> (delivery: Option<Delivery<'a, H>>)
    ensures
        delivery.is_some() == registry@.contains_key(caller_id),
        delivery is Some ==> delivery.unwrap().carries(
            registry@,
            caller_id,
            json_object_text(call_answer_members(recipient_id, notification_id, accepted)),
        ),
{
    if !registry.is_online(caller_id) {
        return None;
    }
    let mut members: Vec<(String, String)> = Vec::new();
    let kind = if accepted {
        "video_call_accepted"
    } else {
        "video_call_declined"
    };
    members.push(("type".to_owned(), kind.to_owned()));
    members.push(("from".to_owned(), recipient_id.to_hex()));
    members.push(("notification_id".to_owned(), notification_id.to_hex()));
    assert(member_texts(members@) =~= call_answer_members(recipient_id, notification_id, accepted));
    push_to_user(registry, caller_id, render_text_object(&members))
}

} // verus!
