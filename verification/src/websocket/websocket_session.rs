//! One live connection: it registers, takes frames while it is active, and
//! deregisters when it goes. A user's newer connection supersedes the older
//! one, which is told to stop.

use crate::json::{json_strings, parse_document, parsed_json, string_member};
use crate::object_id::ObjectId;
use crate::states::connection_registry::{released, Connection, ConnectionRegistry};
use crate::types::ws_message_types::WsMessageType;
use crate::websocket::chat_frame::{handle_chat_message, reads_as, ChatFrameError, ChatRequest};
use crate::websocket::delivery::StopSession;
use crate::websocket::relay::{
    handle_video_call_response,
    handle_webrtc_signaling,
    relay_outcome,
    RelayOutcome,
};
use vstd::prelude::*;

verus! {

/// The stage of a connection's life.
#[derive(Debug, Clone, Copy, PartialEq, Eq, Structural)]
pub enum SessionPhase {
    /// The socket is open; the connection is not registered yet.
    Connecting,
    /// The connection is registered and takes frames.
    Active,
    /// The connection has been told to go and is on its way out.
    Closing,
    /// The connection is deregistered. Nothing follows.
    Closed,
}

/// What can happen to a connection.
#[derive(Debug, Clone, Copy, PartialEq, Eq, Structural)]
pub enum SessionEvent {
    /// The connection has been entered in the registry.
    Registered,
    /// The client asked to be logged out.
    Logout,
    /// Another connection of the same user has taken over.
    ForcedStop,
    /// The transport closed or failed.
    TransportClosed,
    /// The connection has been taken out of the registry.
    Deregistered,
}

impl SessionPhase {
    /// The stage after an event. Registration activates a connecting
    /// connection; a logout, a forced stop or the loss of the transport sends
    /// an active one on its way out; deregistration ends any connection. An
    /// event that does not fit the stage changes nothing.
    pub open spec fn after(self, event: SessionEvent) -> SessionPhase {
        match (self, event) {
            (SessionPhase::Connecting, SessionEvent::Registered) => SessionPhase::Active,
            (SessionPhase::Active, SessionEvent::Logout) => SessionPhase::Closing,
            (SessionPhase::Active, SessionEvent::ForcedStop) => SessionPhase::Closing,
            (SessionPhase::Active, SessionEvent::TransportClosed) => SessionPhase::Closing,
            (_, SessionEvent::Deregistered) => SessionPhase::Closed,
            _ => self,
        }
    }

    /// Computes `after`.
    pub fn next(self, event: SessionEvent) -> (phase: SessionPhase)
        ensures
            phase == self.after(event),
    {
        match event {
            SessionEvent::Registered => match self {
                SessionPhase::Connecting => SessionPhase::Active,
                _ => self,
            },
            SessionEvent::Deregistered => SessionPhase::Closed,
            _ => match self {
                SessionPhase::Active => SessionPhase::Closing,
                _ => self,
            },
        }
    }
}

/// Why a frame was passed over. None of these closes the connection.
#[derive(Debug, Clone, Copy, PartialEq, Eq, Structural)]
pub enum IgnoreReason {
    /// The frame is no JSON.
    MalformedFrame,
    /// The document has no member `type` with text in it.
    TypeNotSpecified,
    /// The type is none that the protocol knows.
    UnknownType,
    /// The type is known, but a connection does nothing on it.
    NoHandler,
    /// A chat message names a chat by something that is no identifier.
    InvalidChatId,
    /// A chat message has no content.
    ContentNotFound,
}

/// What a frame asks the connection's task to do.
pub enum SessionAction<'a, H> {
    /// Nothing.
    Ignore(IgnoreReason),
    /// Close the socket and stop: the client has logged out.
    Close,
    /// Route this chat message.
    Route(ChatRequest),
    /// Perform the push that the relay asks for, if it asks for one.
    Relay(RelayOutcome<'a, H>),
}

/// Whether `action` is what the document `doc`, sent by `user_id`, asks for.
pub open spec fn dispatched<H>(
    action: SessionAction<H>,
    doc: serde_json::Value,
    user_id: ObjectId,
    registry: Map<ObjectId, Connection<H>>,
) -> bool {
    let members = json_strings(doc);
    if !members.contains_key("type"@) {
        action matches SessionAction::Ignore(IgnoreReason::TypeNotSpecified)
    } else {
        match WsMessageType::of_tag(members["type"@]) {
            WsMessageType::Logout => action is Close,
            WsMessageType::ChatMessage => match action {
                SessionAction::Route(request) => reads_as(Ok(request), doc, user_id),
                SessionAction::Ignore(IgnoreReason::InvalidChatId) => reads_as(
                    Err(ChatFrameError::InvalidChatId),
                    doc,
                    user_id,
                ),
                SessionAction::Ignore(IgnoreReason::ContentNotFound) => reads_as(
                    Err(ChatFrameError::ContentNotFound),
                    doc,
                    user_id,
                ),
                _ => false,
            },
            WsMessageType::WebrtcOffer
            | WsMessageType::WebrtcAnswer
            | WsMessageType::WebrtcIceCandidate => {
                &&& action matches SessionAction::Relay(outcome)
                &&& relay_outcome(outcome, doc, "target_user_id"@, registry)
            },
            WsMessageType::VideoCallAccepted | WsMessageType::VideoCallDeclined => {
                &&& action matches SessionAction::Relay(outcome)
                &&& relay_outcome(outcome, doc, "caller_id"@, registry)
            },
            WsMessageType::DeleteChat | WsMessageType::VideoCallEnded => {
                action matches SessionAction::Ignore(IgnoreReason::NoHandler)
            },
            WsMessageType::Unknown => {
                action matches SessionAction::Ignore(IgnoreReason::UnknownType)
            },
        }
    }
}

/// Calls `uuid::Uuid::new_v4` and reads the identifier as a number with
/// `as_u128`. The identifier is random, so nothing is claimed of it.
#[verifier::external_body]
fn random_connection_id() -> u128 {
    uuid::Uuid::new_v4().as_u128()
}

/// The connection of one user.
pub struct WsSession {
    pub user_id: ObjectId,
    /// Tells this connection apart from every other.
    pub connection_id: u128,
    pub phase: SessionPhase,
}

impl WsSession {
    /// A connection of `user_id` that has not registered yet, under a newly
    /// drawn connection identifier.
    pub fn new(user_id: ObjectId) -> (session: WsSession)
        ensures
            session.user_id == user_id,
            session.phase == SessionPhase::Connecting,
    {
        WsSession {
            user_id,
            connection_id: random_connection_id(),
            phase: SessionPhase::Connecting,
        }
    }

    /// Registers the connection under its user, with `handle` as the way to
    /// reach it. Hands back the connection that the user had before, if any:
    /// that connection is superseded and must be sent `StopSession`.
    pub fn started<H>(&mut self, registry: &mut ConnectionRegistry<H>, handle: H) -> (superseded:
        Option<Connection<H>>)
        ensures
            final(self).user_id == old(self).user_id,
            final(self).connection_id == old(self).connection_id,
            final(self).phase == old(self).phase.after(SessionEvent::Registered),
            final(registry)@ == old(registry)@.insert(
                old(self).user_id,
                Connection { id: old(self).connection_id, handle },
            ),
            superseded == old(registry)@.get(old(self).user_id),
    {
        let superseded = registry.register(
            self.user_id,
            Connection { id: self.connection_id, handle },
        );
        self.phase = self.phase.next(SessionEvent::Registered);
        superseded
    }

    /// Takes the signal that another connection of the user has taken over.
    /// The caller closes the socket and stops the connection's task.
    pub fn handle_stop(&mut self, msg: StopSession)
        ensures
            final(self).user_id == old(self).user_id,
            final(self).connection_id == old(self).connection_id,
            final(self).phase == old(self).phase.after(SessionEvent::ForcedStop),
    {
        self.phase = self.phase.next(SessionEvent::ForcedStop);
    }

    /// Takes note that the transport has closed or failed.
    pub fn transport_closed(&mut self)
        ensures
            final(self).user_id == old(self).user_id,
            final(self).connection_id == old(self).connection_id,
            final(self).phase == old(self).phase.after(SessionEvent::TransportClosed),
    {
        self.phase = self.phase.next(SessionEvent::TransportClosed);
    }

    /// Tears the connection down: its entry leaves the registry, and the
    /// connection is closed for good. The entry of a connection that has
    /// taken over from this one stays. Safe to call at any stage and more
    /// than once.
    pub fn stopped<H>(&mut self, registry: &mut ConnectionRegistry<H>)
        ensures
            final(self).user_id == old(self).user_id,
            final(self).connection_id == old(self).connection_id,
            final(self).phase == SessionPhase::Closed,
            final(registry)@ == released(
                old(registry)@,
                old(self).user_id,
                old(self).connection_id,
            ),
    {
        let _ = registry.release(self.user_id, self.connection_id);
        self.phase = self.phase.next(SessionEvent::Deregistered);
    }

    /// Decides what the document of an inbound frame asks for. A logout sends
    /// the connection on its way out; nothing else changes its stage.
    pub fn handle_document<'a, H>(
        &mut self,
        doc: &serde_json::Value,
        registry: &'a ConnectionRegistry<H>,
    ) -> (action: SessionAction<'a, H>)
        ensures
            dispatched(action, *doc, old(self).user_id, registry@),
            final(self).user_id == old(self).user_id,
            final(self).connection_id == old(self).connection_id,
            final(self).phase == if action is Close {
                old(self).phase.after(SessionEvent::Logout)
            } else {
                old(self).phase
            },
    {
        let tag = match string_member(doc, "type") {
            Some(tag) => tag,
            None => {
                return SessionAction::Ignore(IgnoreReason::TypeNotSpecified);
            },
        };
        match WsMessageType::from(tag.as_str()) {
            WsMessageType::Logout => {
                self.phase = self.phase.next(SessionEvent::Logout);
                SessionAction::Close
            },
            WsMessageType::ChatMessage => match handle_chat_message(doc, self.user_id) {
                Ok(request) => SessionAction::Route(request),
                Err(ChatFrameError::InvalidChatId) => SessionAction::Ignore(
                    IgnoreReason::InvalidChatId,
                ),
                Err(ChatFrameError::ContentNotFound) => SessionAction::Ignore(
                    IgnoreReason::ContentNotFound,
                ),
            },
            WsMessageType::WebrtcOffer
            | WsMessageType::WebrtcAnswer
            | WsMessageType::WebrtcIceCandidate => SessionAction::Relay(
                handle_webrtc_signaling(doc, registry),
            ),
            WsMessageType::VideoCallAccepted
            | WsMessageType::VideoCallDeclined => SessionAction::Relay(
                handle_video_call_response(doc, registry),
            ),
            WsMessageType::DeleteChat | WsMessageType::VideoCallEnded => SessionAction::Ignore(
                IgnoreReason::NoHandler,
            ),
            WsMessageType::Unknown => SessionAction::Ignore(IgnoreReason::UnknownType),
        }
    }

    /// Takes the text of an inbound frame. Text that is no JSON is passed
    /// over; any other frame is decided as `handle_document` says of the
    /// document in it. No frame ends the connection but a logout.
    pub fn handle<'a, H>(&mut self, text: &str, registry: &'a ConnectionRegistry<H>) -> (action:
        SessionAction<'a, H>)
        ensures
            match parsed_json(text@) {
                Some(doc) => dispatched(action, doc, old(self).user_id, registry@),
                None => action matches SessionAction::Ignore(IgnoreReason::MalformedFrame),
            },
            final(self).user_id == old(self).user_id,
            final(self).connection_id == old(self).connection_id,
            final(self).phase == if action is Close {
                old(self).phase.after(SessionEvent::Logout)
            } else {
                old(self).phase
            },
    {
        match parse_document(text) {
            Some(doc) => self.handle_document(&doc, registry),
            None => SessionAction::Ignore(IgnoreReason::MalformedFrame),
        }
    }
}

/// Takeover: when a user who has a connection registers another, the
/// registry hands the first connection back and holds the second from then
/// on, and nobody else's entry changes. The first connection, once told to
/// stop and torn down, is closed, and its teardown leaves the entry of the
/// second in place.
pub proof fn lemma_takeover<H>(
    registry: Map<ObjectId, Connection<H>>,
    user: ObjectId,
    first: Connection<H>,
    second: Connection<H>,
)
    requires
        registry.contains_pair(user, first),
        first.id != second.id,
    ensures
        registry.get(user) == Some(first),
        registry.insert(user, second).contains_pair(user, second),
        forall|other: ObjectId|
            other != user ==> registry.insert(user, second).get(other) == registry.get(other),
        SessionPhase::Active.after(SessionEvent::ForcedStop) == SessionPhase::Closing,
        SessionPhase::Closing.after(SessionEvent::Deregistered) == SessionPhase::Closed,
        released(registry.insert(user, second), user, first.id) == registry.insert(user, second),
{
}

/// Teardown touches no entry but the connection's own: every other user
/// stays registered as before, and so does a user whose entry belongs to
/// another connection.
pub proof fn lemma_release_is_local<H>(
    registry: Map<ObjectId, Connection<H>>,
    user: ObjectId,
    id: u128,
    other: ObjectId,
)
    requires
        other != user || (registry.contains_key(user) && registry[user].id != id),
    ensures
        released(registry, user, id).get(other) == registry.get(other),
{
}

/// A closed connection stays closed.
pub proof fn lemma_closed_is_final(event: SessionEvent)
    ensures
        SessionPhase::Closed.after(event) == SessionPhase::Closed,
{
}

} // verus!
