//! Routing of one chat message: find out who takes part in the chat, have the
//! message persisted, learn the sender's name, then push to the others. The
//! store does its work outside; each answer it gives is an event here, and
//! each step says what to ask of it next.

use crate::object_id::ObjectId;
use crate::states::connection_registry::ConnectionRegistry;
use crate::states::membership_cache::{list_participants, participant_list, ChatMembershipCache};
use crate::timestamp::Timestamp;
use crate::websocket::chat_frame::ChatRequest;
use crate::websocket::delivery::Delivery;
use crate::websocket::fan_out::{
    chat_message_payload,
    chat_message_text,
    delivers,
    fan_out,
    push_targets,
};
use vstd::prelude::*;

verus! {

/// What the store knows of a message once it has persisted it.
#[derive(Debug, Clone, Copy, PartialEq, Eq, Structural)]
pub struct StoredMessage {
    pub id: ObjectId,
    pub created_at: Timestamp,
}

/// The store's answer to the question who takes part in a chat.
pub enum ChatLookup {
    /// The chat is on record with these participants.
    Found(Vec<ObjectId>),
    /// There is no such chat on record.
    Missing,
    /// The store could not be asked.
    Failed,
}

/// An answer of the store to what a route asked of it.
pub enum RouteEvent {
    ChatLooked(ChatLookup),
    /// Whether the new chat was put on record.
    ChatCreated(bool),
    /// The persisted message, or nothing where persisting failed.
    Persisted(Option<StoredMessage>),
    /// The sender's display name, or nothing where it could not be had.
    SenderLoaded(Option<String>),
}

/// How far the routing of a message has come.
pub enum RouteState {
    /// The store was asked for the chat.
    AwaitingChat(ChatRequest),
    /// The store was asked to put a new chat on record.
    AwaitingChatCreation(ChatRequest),
    /// The participants are cached; the store was asked to persist the message.
    AwaitingPersist(ChatRequest),
    /// The message is persisted; the store was asked for the sender's name.
    AwaitingSender(ChatRequest, StoredMessage),
    /// Nothing more will happen.
    Done,
}

/// What a step of the routing asks for.
pub enum RouteAction<'a, H> {
    /// Look the chat up in the store.
    LoadChat(ObjectId),
    /// Put a new chat with these participants on record.
    CreateChat { chat_id: ObjectId, participants: Vec<ObjectId> },
    /// Persist the message.
    PersistMessage {
        chat_id: ObjectId,
        sender_id: ObjectId,
        content: String,
        created_at: Option<Timestamp>,
    },
    /// Look up the sender's display name.
    LoadSender(ObjectId),
    /// Perform these pushes.
    Deliver(Vec<Delivery<'a, H>>),
    /// Nothing: the route has ended without a push.
    Nothing,
}

/// The stage of a route, without the data it carries.
#[derive(Debug, Clone, Copy, PartialEq, Eq, Structural)]
pub enum RoutePhase {
    AwaitingChat,
    AwaitingChatCreation,
    AwaitingPersist,
    AwaitingSender,
    Done,
}

/// The kind of an event, without the data it carries.
#[derive(Debug, Clone, Copy, PartialEq, Eq, Structural)]
pub enum EventKind {
    ChatFound,
    ChatMissing,
    ChatFailed,
    ChatCreated,
    ChatNotCreated,
    Persisted,
    PersistFailed,
    SenderFound,
    SenderMissing,
}

/// The kind of an action, without the data it carries.
#[derive(Debug, Clone, Copy, PartialEq, Eq, Structural)]
pub enum ActionKind {
    LoadChat,
    CreateChat,
    Persist,
    LoadSender,
    Deliver,
    Nothing,
}

impl RouteEvent {
    pub open spec fn kind(self) -> EventKind {
        match self {
            RouteEvent::ChatLooked(ChatLookup::Found(_)) => EventKind::ChatFound,
            RouteEvent::ChatLooked(ChatLookup::Missing) => EventKind::ChatMissing,
            RouteEvent::ChatLooked(ChatLookup::Failed) => EventKind::ChatFailed,
            RouteEvent::ChatCreated(created) => if created {
                EventKind::ChatCreated
            } else {
                EventKind::ChatNotCreated
            },
            RouteEvent::Persisted(Some(_)) => EventKind::Persisted,
            RouteEvent::Persisted(None) => EventKind::PersistFailed,
            RouteEvent::SenderLoaded(Some(_)) => EventKind::SenderFound,
            RouteEvent::SenderLoaded(None) => EventKind::SenderMissing,
        }
    }
}

impl<'a, H> RouteAction<'a, H> {
    pub open spec fn kind(self) -> ActionKind {
        match self {
            RouteAction::LoadChat(_) => ActionKind::LoadChat,
            RouteAction::CreateChat { .. } => ActionKind::CreateChat,
            RouteAction::PersistMessage { .. } => ActionKind::Persist,
            RouteAction::LoadSender(_) => ActionKind::LoadSender,
            RouteAction::Deliver(_) => ActionKind::Deliver,
            RouteAction::Nothing => ActionKind::Nothing,
        }
    }

    /// Whether the action asks to persist exactly what `request` holds.
    pub open spec fn persists(self, request: ChatRequest) -> bool {
        &&& self matches RouteAction::PersistMessage { chat_id, sender_id, content, created_at }
        &&& chat_id == request.chat_id
        &&& sender_id == request.sender_id
        &&& content@ == request.content@
        &&& created_at == request.created_at
    }
}

/// The protocol of a route: the stage after an event, and the kind of action
/// the event sets off. `declares` tells whether the message declares
/// recipients. An event that the stage does not wait for ends the route.
pub open spec fn protocol_step(phase: RoutePhase, event: EventKind, declares: bool) -> (
    RoutePhase,
    ActionKind,
) {
    match (phase, event) {
        (RoutePhase::AwaitingChat, EventKind::ChatFound) => (
            RoutePhase::AwaitingPersist,
            ActionKind::Persist,
        ),
        (RoutePhase::AwaitingChat, EventKind::ChatMissing) => if declares {
            (RoutePhase::AwaitingChatCreation, ActionKind::CreateChat)
        } else {
            (RoutePhase::Done, ActionKind::Nothing)
        },
        (RoutePhase::AwaitingChatCreation, EventKind::ChatCreated) => (
            RoutePhase::AwaitingPersist,
            ActionKind::Persist,
        ),
        (RoutePhase::AwaitingPersist, EventKind::Persisted) => (
            RoutePhase::AwaitingSender,
            ActionKind::LoadSender,
        ),
        (RoutePhase::AwaitingSender, EventKind::SenderFound) => (
            RoutePhase::Done,
            ActionKind::Deliver,
        ),
        _ => (RoutePhase::Done, ActionKind::Nothing),
    }
}

impl RouteState {
    pub open spec fn phase(self) -> RoutePhase {
        match self {
            RouteState::AwaitingChat(_) => RoutePhase::AwaitingChat,
            RouteState::AwaitingChatCreation(_) => RoutePhase::AwaitingChatCreation,
            RouteState::AwaitingPersist(_) => RoutePhase::AwaitingPersist,
            RouteState::AwaitingSender(_, _) => RoutePhase::AwaitingSender,
            RouteState::Done => RoutePhase::Done,
        }
    }

    /// The message being routed, while the route is under way.
    pub open spec fn request(self) -> Option<ChatRequest> {
        match self {
            RouteState::AwaitingChat(request) => Some(request),
            RouteState::AwaitingChatCreation(request) => Some(request),
            RouteState::AwaitingPersist(request) => Some(request),
            RouteState::AwaitingSender(request, _) => Some(request),
            RouteState::Done => None,
        }
    }

    /// Whether the message being routed declares recipients.
    pub open spec fn declares(self) -> bool {
        match self.request() {
            Some(request) => request.recipient_ids@.len() > 0,
            None => false,
        }
    }

    /// The cache after the step that `event` sets off in this state: a chat
    /// found on record, or newly put on record, is filed with its
    /// participants, the sender first.
    pub open spec fn cache_after(
        self,
        event: RouteEvent,
        cache: Map<ObjectId, Seq<ObjectId>>,
    ) -> Map<ObjectId, Seq<ObjectId>> {
        match (self, event) {
            (RouteState::AwaitingChat(request), RouteEvent::ChatLooked(ChatLookup::Found(found))) => {
                if cache.contains_key(request.chat_id) {
                    cache
                } else {
                    cache.insert(request.chat_id, participant_list(request.sender_id, found@))
                }
            },
            (RouteState::AwaitingChatCreation(request), RouteEvent::ChatCreated(true)) => {
                if cache.contains_key(request.chat_id) {
                    cache
                } else {
                    cache.insert(
                        request.chat_id,
                        participant_list(request.sender_id, request.recipient_ids@),
                    )
                }
            },
            _ => cache,
        }
    }

    /// Begins the routing of `request`: with the participants cached the
    /// message goes straight to be persisted, otherwise the store is asked
    /// for the chat first.
    pub fn start<'a, H>(request: ChatRequest, cache: &ChatMembershipCache) -> (started: (
        RouteState,
        RouteAction<'a, H>,
    ))
        ensures
            started.0.request() == Some(request),
            cache@.contains_key(request.chat_id) ==> started.0 is AwaitingPersist
                && started.1.persists(request),
            !cache@.contains_key(request.chat_id) ==> started.0 is AwaitingChat && started.1
                == RouteAction::<H>::LoadChat(request.chat_id),
    {
        if cache.contains(request.chat_id) {
            let action = RouteAction::PersistMessage {
                chat_id: request.chat_id,
                sender_id: request.sender_id,
                content: request.content.clone(),
                created_at: request.created_at,
            };
            (RouteState::AwaitingPersist(request), action)
        } else {
            let chat_id = request.chat_id;
            (RouteState::AwaitingChat(request), RouteAction::LoadChat(chat_id))
        }
    }

    /// Takes the store's answer and says what comes next.
    pub fn step<'a, H>(
        self,
        event: RouteEvent,
        cache: &mut ChatMembershipCache,
        registry: &'a ConnectionRegistry<H>,
    ) -> (next: (RouteState, RouteAction<'a, H>))
        ensures
            (next.0.phase(), next.1.kind()) == protocol_step(
                self.phase(),
                event.kind(),
                self.declares(),
            ),
            next.0 !is Done ==> next.0.request() == self.request(),
            final(cache)@ == self.cache_after(event, old(cache)@),
            next.1 is PersistMessage ==> next.1.persists(self.request().unwrap()),
            next.1 matches RouteAction::CreateChat { chat_id, participants } ==> {
                &&& chat_id == self.request().unwrap().chat_id
                &&& participants@ == participant_list(
                    self.request().unwrap().sender_id,
                    self.request().unwrap().recipient_ids@,
                )
            },
            next.1 matches RouteAction::LoadSender(user) ==> user
                == self.request().unwrap().sender_id,
            next.0 matches RouteState::AwaitingSender(_, stored) ==> event
                == RouteEvent::Persisted(Some(stored)),
            next.1 matches RouteAction::Deliver(deliveries) ==> {
                &&& self matches RouteState::AwaitingSender(request, stored)
                &&& event matches RouteEvent::SenderLoaded(Some(name))
                &&& delivers(
                    deliveries@,
                    push_targets(
                        if old(cache)@.contains_key(request.chat_id) {
                            old(cache)@[request.chat_id]
                        } else {
                            Seq::empty()
                        },
                        request.sender_id,
                        registry@,
                    ),
                    registry@,
                    chat_message_text(
                        stored.id,
                        request.chat_id,
                        request.sender_id,
                        name@,
                        request.content@,
                        stored.created_at,
                    ),
                )
            },
    {
        match self {
            RouteState::AwaitingChat(request) => match event {
                RouteEvent::ChatLooked(ChatLookup::Found(found)) => {
                    cache.populate(request.chat_id, request.sender_id, &found);
                    let action = RouteAction::PersistMessage {
                        chat_id: request.chat_id,
                        sender_id: request.sender_id,
                        content: request.content.clone(),
                        created_at: request.created_at,
                    };
                    (RouteState::AwaitingPersist(request), action)
                },
                RouteEvent::ChatLooked(ChatLookup::Missing) => {
                    if request.recipient_ids.len() > 0 {
                        let participants = list_participants(
                            request.sender_id,
                            &request.recipient_ids,
                        );
                        let chat_id = request.chat_id;
                        (
                            RouteState::AwaitingChatCreation(request),
                            RouteAction::CreateChat { chat_id, participants },
                        )
                    } else {
                        (RouteState::Done, RouteAction::Nothing)
                    }
                },
                _ => (RouteState::Done, RouteAction::Nothing),
            },
            RouteState::AwaitingChatCreation(request) => match event {
                RouteEvent::ChatCreated(true) => {
                    cache.populate(request.chat_id, request.sender_id, &request.recipient_ids);
                    let action = RouteAction::PersistMessage {
                        chat_id: request.chat_id,
                        sender_id: request.sender_id,
                        content: request.content.clone(),
                        created_at: request.created_at,
                    };
                    (RouteState::AwaitingPersist(request), action)
                },
                _ => (RouteState::Done, RouteAction::Nothing),
            },
            RouteState::AwaitingPersist(request) => match event {
                RouteEvent::Persisted(Some(stored)) => {
                    let sender_id = request.sender_id;
                    (
                        RouteState::AwaitingSender(request, stored),
                        RouteAction::LoadSender(sender_id),
                    )
                },
                _ => (RouteState::Done, RouteAction::Nothing),
            },
            RouteState::AwaitingSender(request, stored) => match event {
                RouteEvent::SenderLoaded(Some(name)) => {
                    let payload = chat_message_payload(
                        stored.id,
                        request.chat_id,
                        request.sender_id,
                        name.as_str(),
                        request.content.as_str(),
                        stored.created_at,
                    );
                    let deliveries = match cache.resolve_participants(request.chat_id) {
                        Some(participants) => fan_out(
                            registry,
                            participants,
                            request.sender_id,
                            payload.as_str(),
                        ),
                        None => {
                            let none: Vec<Delivery<'a, H>> = Vec::new();
                            assert(push_targets(
                                Seq::<ObjectId>::empty(),
                                request.sender_id,
                                registry@,
                            ) =~= Seq::empty());
                            none
                        },
                    };
                    (RouteState::Done, RouteAction::Deliver(deliveries))
                },
                _ => (RouteState::Done, RouteAction::Nothing),
            },
            RouteState::Done => (RouteState::Done, RouteAction::Nothing),
        }
    }
}

/// The kinds of action that a run of events sets off in a route that stands
/// at `phase`, one action for each event.
pub open spec fn actions_of(phase: RoutePhase, events: Seq<EventKind>, declares: bool) -> Seq<
    ActionKind,
>
    decreases events.len(),
{
    if events.len() == 0 {
        Seq::empty()
    } else {
        let next = protocol_step(phase, events[0], declares);
        seq![next.1] + actions_of(next.0, events.drop_first(), declares)
    }
}

/// Every event sets off one action.
pub proof fn lemma_one_action_per_event(phase: RoutePhase, events: Seq<EventKind>, declares: bool)
    ensures
        actions_of(phase, events, declares).len() == events.len(),
    decreases events.len(),
{
    if events.len() > 0 {
        let next = protocol_step(phase, events[0], declares);
        lemma_one_action_per_event(next.0, events.drop_first(), declares);
    }
}

/// A route that has ended does nothing, whatever events still come in.
pub proof fn lemma_done_is_final(events: Seq<EventKind>, declares: bool, i: int)
    requires
        0 <= i < events.len(),
    ensures
        actions_of(RoutePhase::Done, events, declares)[i] == ActionKind::Nothing,
    decreases events.len(),
{
    lemma_one_action_per_event(RoutePhase::Done, events.drop_first(), declares);
    if i > 0 {
        lemma_done_is_final(events.drop_first(), declares, i - 1);
    }
}

/// Persisting comes before delivery: in a route that has not yet had its
/// message persisted, every action that delivers is preceded by the event
/// that reports the message persisted, and that event set off the look-up of
/// the sender.
pub proof fn lemma_delivery_follows_persisting(
    phase: RoutePhase,
    events: Seq<EventKind>,
    declares: bool,
    i: int,
) -> (j: int)
    requires
        phase != RoutePhase::AwaitingSender,
        0 <= i < events.len(),
        actions_of(phase, events, declares)[i] == ActionKind::Deliver,
    ensures
        0 <= j < i,
        events[j] == EventKind::Persisted,
        actions_of(phase, events, declares)[j] == ActionKind::LoadSender,
    decreases events.len(),
{
    let next = protocol_step(phase, events[0], declares);
    let rest = events.drop_first();
    lemma_one_action_per_event(next.0, rest, declares);
    assert(i > 0);
    assert(actions_of(phase, events, declares)[i] == actions_of(next.0, rest, declares)[i - 1]);
    if next.0 == RoutePhase::AwaitingSender {
        0
    } else {
        let k = lemma_delivery_follows_persisting(next.0, rest, declares, i - 1);
        assert(actions_of(phase, events, declares)[k + 1] == actions_of(next.0, rest, declares)[k]);
        k + 1
    }
}

/// Once persisting is reported to have failed, the route pushes nothing: the
/// failure and every later event set off no action at all.
pub proof fn lemma_no_delivery_after_failed_persist(
    phase: RoutePhase,
    events: Seq<EventKind>,
    declares: bool,
    j: int,
    i: int,
)
    requires
        0 <= j <= i < events.len(),
        events[j] == EventKind::PersistFailed,
    ensures
        actions_of(phase, events, declares)[i] == ActionKind::Nothing,
    decreases events.len(),
{
    let next = protocol_step(phase, events[0], declares);
    let rest = events.drop_first();
    lemma_one_action_per_event(next.0, rest, declares);
    if j == 0 {
        if i > 0 {
            lemma_done_is_final(rest, declares, i - 1);
        }
    } else {
        lemma_no_delivery_after_failed_persist(next.0, rest, declares, j - 1, i - 1);
    }
}

/// Persisting is asked for before it is reported: in a route that begins by
/// finding out about its chat, the look-up of the sender, which the report of a
/// persisted message sets off, comes after the action that asks to persist.
pub proof fn lemma_persisting_is_asked_first(
    phase: RoutePhase,
    events: Seq<EventKind>,
    declares: bool,
    j: int,
) -> (k: int)
    requires
        phase == RoutePhase::AwaitingChat || phase == RoutePhase::AwaitingChatCreation,
        0 <= j < events.len(),
        actions_of(phase, events, declares)[j] == ActionKind::LoadSender,
    ensures
        0 <= k < j,
        actions_of(phase, events, declares)[k] == ActionKind::Persist,
    decreases events.len(),
{
    let next = protocol_step(phase, events[0], declares);
    let rest = events.drop_first();
    lemma_one_action_per_event(next.0, rest, declares);
    assert(j > 0);
    assert(actions_of(phase, events, declares)[j] == actions_of(next.0, rest, declares)[j - 1]);
    if next.1 == ActionKind::Persist {
        0
    } else if next.0 == RoutePhase::AwaitingChatCreation {
        let k = lemma_persisting_is_asked_first(next.0, rest, declares, j - 1);
        assert(actions_of(phase, events, declares)[k + 1] == actions_of(next.0, rest, declares)[k]);
        k + 1
    } else {
        lemma_done_is_final(rest, declares, j - 1);
        0
    }
}

} // verus!
