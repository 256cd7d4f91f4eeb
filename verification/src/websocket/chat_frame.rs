//! Reading a chat message out of an inbound document.

use crate::json::{item_texts, json_lists, json_strings, list_member, string_member};
use crate::object_id::ObjectId;
use crate::timestamp::Timestamp;
use vstd::prelude::*;

verus! {

/// A chat message as its sender asked for it.
pub struct ChatRequest {
    pub sender_id: ObjectId,
    /// The chat the message is for: the one the frame names, or a new one.
    pub chat_id: ObjectId,
    pub content: String,
    /// The time the sender wrote on the message, where it is a readable one.
    pub created_at: Option<Timestamp>,
    /// The recipients the frame declares, for the case that the chat is new.
    pub recipient_ids: Vec<ObjectId>,
}

/// Why a frame that announced a chat message carries none.
#[derive(Debug, Clone, Copy, PartialEq, Eq, Structural)]
pub enum ChatFrameError {
    /// The member `chat_id` is text but no identifier.
    InvalidChatId,
    /// There is no member `content` with text in it.
    ContentNotFound,
}

/// The identifiers among the declared recipients, in order: an element that
/// is no text, or text that is no identifier, is passed over.
pub open spec fn declared_recipients(items: Seq<Option<Seq<char>>>) -> Seq<ObjectId>
    decreases items.len(),
{
    if items.len() == 0 {
        Seq::empty()
    } else {
        let earlier = declared_recipients(items.drop_last());
        match items.last() {
            Some(text) => match ObjectId::parsed(text) {
                Some(id) => earlier.push(id),
                None => earlier,
            },
            None => earlier,
        }
    }
}

/// The recipients that `doc` declares in its member `recipient_ids`.
pub open spec fn recipients_of(doc: serde_json::Value) -> Seq<ObjectId> {
    if json_lists(doc).contains_key("recipient_ids"@) {
        declared_recipients(json_lists(doc)["recipient_ids"@])
    } else {
        Seq::empty()
    }
}

/// The time that `doc` carries in its member `created_at`, if it is readable.
pub open spec fn created_at_of(doc: serde_json::Value) -> Option<Timestamp> {
    if json_strings(doc).contains_key("created_at"@) {
        Timestamp::parsed(json_strings(doc)["created_at"@])
    } else {
        None
    }
}

/// Whether `result` is what `doc`, sent by `user_id`, reads as. The chat of
/// a frame that names none is a newly generated one, of which nothing is
/// known.
pub open spec fn reads_as(
    result: Result<ChatRequest, ChatFrameError>,
    doc: serde_json::Value,
    user_id: ObjectId,
) -> bool {
    let members = json_strings(doc);
    let named = members.contains_key("chat_id"@);
    if named && ObjectId::parsed(members["chat_id"@]) is None {
        result == Err::<ChatRequest, ChatFrameError>(ChatFrameError::InvalidChatId)
    } else if !members.contains_key("content"@) {
        result == Err::<ChatRequest, ChatFrameError>(ChatFrameError::ContentNotFound)
    } else {
        &&& result matches Ok(request)
        &&& request.sender_id == user_id
        &&& named ==> Some(request.chat_id) == ObjectId::parsed(members["chat_id"@])
        &&& request.content@ == members["content"@]
        &&& request.created_at == created_at_of(doc)
        &&& request.recipient_ids@ == recipients_of(doc)
    }
}

/// Collects the identifiers among the declared recipients.
pub fn collect_recipients(items: &Vec<Option<String>>) -> (ids: Vec<ObjectId>)
    ensures
        ids@ == declared_recipients(item_texts(items@)),
{
    let ghost texts = item_texts(items@);
    let mut ids: Vec<ObjectId> = Vec::new();
    let mut i: usize = 0;
    assert(texts.subrange(0, 0) =~= Seq::empty());
    while i < items.len()
        invariant
            i <= items.len(),
            texts == item_texts(items@),
            ids@ == declared_recipients(texts.subrange(0, i as int)),
        decreases items.len() - i,
    {
        proof {
            let upto = texts.subrange(0, i + 1);
            assert(upto.drop_last() =~= texts.subrange(0, i as int));
            assert(upto.last() == item_texts(items@)[i as int]);
        }
        match &items[i] {
            Some(text) => match ObjectId::parse_str(text.as_str()) {
                Some(id) => {
                    ids.push(id);
                },
                None => {},
            },
            None => {},
        }
        i += 1;
    }
    assert(texts.subrange(0, items.len() as int) =~= texts);
    ids
}

/// Reads the chat message that `msg_json`, sent by `user_id`, asks for.
pub fn handle_chat_message(msg_json: &serde_json::Value, user_id: ObjectId) -> (result: Result<
    ChatRequest,
    ChatFrameError,
>)
    ensures
        reads_as(result, *msg_json, user_id),
{
    let chat_id = match string_member(msg_json, "chat_id") {
        Some(text) => match ObjectId::parse_str(text.as_str()) {
            Some(id) => id,
            None => {
                return Err(ChatFrameError::InvalidChatId);
            },
        },
        None => ObjectId::new(),
    };
    let content = match string_member(msg_json, "content") {
        Some(text) => text,
        None => {
            return Err(ChatFrameError::ContentNotFound);
        },
    };
    let created_at = match string_member(msg_json, "created_at") {
        Some(text) => Timestamp::parse_from_rfc3339(text.as_str()),
        None => None,
    };
    let recipient_ids = match list_member(msg_json, "recipient_ids") {
        Some(items) => collect_recipients(&items),
        None => Vec::new(),
    };
    Ok(ChatRequest { sender_id: user_id, chat_id, content, created_at, recipient_ids })
}

} // verus!
