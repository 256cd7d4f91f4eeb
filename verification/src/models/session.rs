//! Login sessions on record.

use crate::object_id::ObjectId;
use crate::timestamp::Timestamp;
use vstd::prelude::*;

verus! {

/// A login session of a user, valid until it expires.
#[derive(Debug, Clone)]
pub struct Session {
    /// Set once the store has the session.
    pub id: Option<ObjectId>,
    pub user_id: ObjectId,
    pub expires_at: Timestamp,
}

impl Session {
    /// A session that is not persisted yet.
    pub fn new(user_id: ObjectId, expires_at: Timestamp) -> (session: Session)
        ensures
            session.id is None,
            session.user_id == user_id,
            session.expires_at == expires_at,
    {
        Session { id: None, user_id, expires_at }
    }

    /// The collection that holds the sessions.
    pub fn collection_name() -> (name: &'static str)
        ensures
            name@ == "sessions"@,
    {
        "sessions"
    }
}

} // verus!
