//! Presence queries.

use crate::object_id::{hex_text, ObjectId};
use crate::states::app_state::AppState;
use crate::states::connection_registry::{Connection, ConnectionRegistry};
use vstd::prelude::*;

verus! {

/// Body of a request for the presence of several users.
pub struct BatchCheckOnlineRequest {
    pub user_ids: Vec<String>,
}

/// Answer to a request for the presence of several users: each user's
/// identifier as text, with whether the user is online.
pub struct BatchCheckOnlineResponse {
    pub online_status: Vec<(String, bool)>,
}

/// Whether a user has a live connection.
pub fn is_user_online<H>(state: &AppState<H>, user_id: ObjectId) -> (online: bool)
    ensures
        online == state.ws_sessions@.contains_key(user_id),
{
    state.ws_sessions.is_online(user_id)
}

/// The presence entries for the texts in `user_ids`: one entry, in order, for
/// each text that is an identifier; any other text is passed over.
pub open spec fn presence_of<H>(user_ids: Seq<String>, registry: Map<ObjectId, Connection<H>>) -> Seq<
    (Seq<char>, bool),
>
    decreases user_ids.len(),
{
    if user_ids.len() == 0 {
        Seq::empty()
    } else {
        let earlier = presence_of(user_ids.drop_last(), registry);
        match ObjectId::parsed(user_ids.last()@) {
            Some(id) => earlier.push((hex_text(id.bytes()), registry.contains_key(id))),
            None => earlier,
        }
    }
}

/// The texts and flags of presence entries.
pub open spec fn presence_view(entries: Seq<(String, bool)>) -> Seq<(Seq<char>, bool)> {
    Seq::new(entries.len(), |i: int| (entries[i].0@, entries[i].1))
}

/// Looks up the presence of several users at once.
pub fn batch_is_online<H>(registry: &ConnectionRegistry<H>, user_ids: &Vec<String>) -> (entries:
    Vec<(String, bool)>)
    ensures
        presence_view(entries@) == presence_of(user_ids@, registry@),
{
    let mut entries: Vec<(String, bool)> = Vec::new();
    let mut i: usize = 0;
    assert(user_ids@.subrange(0, 0) =~= Seq::empty());
    assert(presence_view(entries@) =~= Seq::empty());
    while i < user_ids.len()
        invariant
            i <= user_ids.len(),
            presence_view(entries@) == presence_of(user_ids@.subrange(0, i as int), registry@),
        decreases user_ids.len() - i,
    {
        proof {
            let upto = user_ids@.subrange(0, i + 1);
            assert(upto.drop_last() =~= user_ids@.subrange(0, i as int));
            assert(upto.last() == user_ids@[i as int]);
        }
        let ghost before = presence_view(entries@);
        match ObjectId::parse_str(user_ids[i].as_str()) {
            Some(id) => {
                let entry = (id.to_hex(), registry.is_online(id));
                entries.push(entry);
                assert(presence_view(entries@) =~= before.push(
                    (hex_text(id.bytes()), registry@.contains_key(id)),
                ));
            },
            None => {},
        }
        i += 1;
    }
    assert(user_ids@.subrange(0, user_ids.len() as int) =~= user_ids@);
    entries
}

/// Answers a request for the presence of several users.
pub fn check_batch_online<H>(state: &AppState<H>, request: &BatchCheckOnlineRequest) -> (response:
    BatchCheckOnlineResponse)
    ensures
        presence_view(response.online_status@) == presence_of(
            request.user_ids@,
            state.ws_sessions@,
        ),
{
    BatchCheckOnlineResponse { online_status: batch_is_online(&state.ws_sessions, &request.user_ids) }
}

/// Why a request's session does not name a user.
#[derive(Debug, Clone, Copy, PartialEq, Eq, Structural)]
pub enum SessionError {
    /// The session holds no user: status 401.
    NotAuthenticated,
    /// The session could not be read: status 500.
    SessionFailure,
    /// What the session holds is no identifier: status 400.
    InvalidUserId,
}

/// What a session holds under `user_id`.
pub enum SessionEntry {
    /// This text.
    Present(String),
    /// Nothing.
    Absent,
    /// The session could not be read.
    Unreadable,
}

impl SessionError {
    /// The HTTP status that the error is answered with.
    pub open spec fn status(self) -> u16 {
        match self {
            SessionError::NotAuthenticated => 401,
            SessionError::SessionFailure => 500,
            SessionError::InvalidUserId => 400,
        }
    }

    /// Computes `status`.
    pub fn status_code(&self) -> (code: u16)
        ensures
            code == self.status(),
    {
        match self {
            SessionError::NotAuthenticated => 401,
            SessionError::SessionFailure => 500,
            SessionError::InvalidUserId => 400,
        }
    }

    /// The sentence that the error is answered with.
    pub fn message(&self) -> (text: &'static str)
        ensures
            text@ == match self {
                SessionError::NotAuthenticated => "Not authenticated"@,
                SessionError::SessionFailure => "Session error"@,
                SessionError::InvalidUserId => "Invalid user ID in session"@,
            },
    {
        match self {
            SessionError::NotAuthenticated => "Not authenticated",
            SessionError::SessionFailure => "Session error",
            SessionError::InvalidUserId => "Invalid user ID in session",
        }
    }
}

/// The user that a session entry names.
pub open spec fn session_user(entry: SessionEntry) -> Result<ObjectId, SessionError> {
    match entry {
        SessionEntry::Present(text) => match ObjectId::parsed(text@) {
            Some(id) => Ok(id),
            None => Err(SessionError::InvalidUserId),
        },
        SessionEntry::Absent => Err(SessionError::NotAuthenticated),
        SessionEntry::Unreadable => Err(SessionError::SessionFailure),
    }
}

/// Reads the user out of what the session holds under `user_id`.
pub fn extract_user_id_from_session(entry: &SessionEntry) -> (user: Result<ObjectId, SessionError>)
    ensures
        user == session_user(*entry),
{
    match entry {
        SessionEntry::Present(text) => match ObjectId::parse_str(text.as_str()) {
            Some(id) => Ok(id),
            None => Err(SessionError::InvalidUserId),
        },
        SessionEntry::Absent => Err(SessionError::NotAuthenticated),
        SessionEntry::Unreadable => Err(SessionError::SessionFailure),
    }
}

} // verus!
