//! Chats on record.

use crate::object_id::ObjectId;
use crate::timestamp::Timestamp;
use vstd::prelude::*;

verus! {

/// A chat: who takes part in it, and since when it exists.
#[derive(Debug, Clone)]
pub struct Chat {
    /// Set once the store has the chat, or by whoever picks the identifier.
    pub id: Option<ObjectId>,
    pub participant_ids: Vec<ObjectId>,
    pub created_at: Timestamp,
}

impl Chat {
    /// A chat with the given participants, created at `created_at` or, where
    /// none is given, now.
    pub fn new(id: Option<ObjectId>, participant_ids: Vec<ObjectId>, created_at: Option<Timestamp>) -> (chat:
        Chat)
        ensures
            chat.id == id,
            chat.participant_ids == participant_ids,
            created_at is Some ==> chat.created_at == created_at.unwrap(),
    {
        let created_at = match created_at {
            Some(instant) => instant,
            None => Timestamp::now(),
        };
        Chat { id, participant_ids, created_at }
    }

    /// The collection that holds the chats.
    pub fn collection_name() -> (name: &'static str)
        ensures
            name@ == "chats"@,
    {
        "chats"
    }
}

} // verus!
