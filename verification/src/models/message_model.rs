//! Messages on record.

use crate::object_id::ObjectId;
use crate::timestamp::Timestamp;
use vstd::prelude::*;

verus! {

/// A message of a chat. Once persisted it does not change.
#[derive(Debug, Clone)]
pub struct Message {
    /// Set once the store has the message.
    pub id: Option<ObjectId>,
    pub chat_id: ObjectId,
    pub sender_id: ObjectId,
    pub content: String,
    pub created_at: Timestamp,
}

impl Message {
    /// A message that is not persisted yet, created at `created_at` or,
    /// where none is given, now.
    pub fn new(chat_id: ObjectId, sender_id: ObjectId, content: &str, created_at: Option<Timestamp>) -> (message:
        Message)
        ensures
            message.id is None,
            message.chat_id == chat_id,
            message.sender_id == sender_id,
            message.content@ == content@,
            created_at is Some ==> message.created_at == created_at.unwrap(),
    {
        let created_at = match created_at {
            Some(instant) => instant,
            None => Timestamp::now(),
        };
        Message { id: None, chat_id, sender_id, content: content.to_owned(), created_at }
    }

    /// The collection that holds the messages.
    pub fn collection_name() -> (name: &'static str)
        ensures
            name@ == "messages"@,
    {
        "messages"
    }
}

} // verus!
