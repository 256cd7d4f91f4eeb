//! Fan-out: one persisted message pushed to every online participant of its
//! chat but the sender.

use crate::json::{json_object_text, member_texts, render_text_object};
use crate::object_id::{hex_text, ObjectId};
use crate::states::connection_registry::{Connection, ConnectionRegistry};
use crate::timestamp::Timestamp;
use crate::websocket::delivery::{push_to_user, Delivery};
use vstd::prelude::*;

verus! {

/// The participants that a message from `sender` is pushed to: those who are
/// not the sender and are online, in the order of the participant list.
pub open spec fn push_targets<H>(
    participants: Seq<ObjectId>,
    sender: ObjectId,
    registry: Map<ObjectId, Connection<H>>,
) -> Seq<ObjectId>
    decreases participants.len(),
{
    if participants.len() == 0 {
        Seq::empty()
    } else {
        let earlier = push_targets(participants.drop_last(), sender, registry);
        let last = participants.last();
        if last != sender && registry.contains_key(last) {
            earlier.push(last)
        } else {
            earlier
        }
    }
}

/// Whether `deliveries` are the pushes of `payload` to `targets`, one each and
/// in order, each to the connection that `registry` holds for its target.
pub open spec fn delivers<H>(
    deliveries: Seq<Delivery<H>>,
    targets: Seq<ObjectId>,
    registry: Map<ObjectId, Connection<H>>,
    payload: Seq<char>,
) -> bool {
    &&& deliveries.len() == targets.len()
    &&& forall|i: int|
        0 <= i < deliveries.len() ==> (#[trigger] deliveries[i]).carries(
            registry,
            targets[i],
            payload,
        )
}

/// A user is pushed to exactly when the user takes part in the chat, is not
/// the sender and is online; the sender is never pushed to.
pub proof fn lemma_push_targets<H>(
    participants: Seq<ObjectId>,
    sender: ObjectId,
    registry: Map<ObjectId, Connection<H>>,
    user: ObjectId,
)
    ensures
        push_targets(participants, sender, registry).contains(user) <==> participants.contains(user)
            && user != sender && registry.contains_key(user),
        !push_targets(participants, sender, registry).contains(sender),
    decreases participants.len(),
{
    let targets = push_targets(participants, sender, registry);
    if participants.len() > 0 {
        let front = participants.drop_last();
        let last = participants.last();
        let earlier = push_targets(front, sender, registry);
        lemma_push_targets(front, sender, registry, user);
        lemma_push_targets(front, sender, registry, sender);
        let kept = last != sender && registry.contains_key(last);
        if targets.contains(user) {
            let j = choose|j: int| 0 <= j < targets.len() && targets[j] == user;
            if j < earlier.len() {
                assert(earlier[j] == user);
                let i = choose|i: int| 0 <= i < front.len() && front[i] == user;
                assert(participants[i] == user);
            } else {
                assert(participants[participants.len() - 1] == user);
            }
        }
        if participants.contains(user) && user != sender && registry.contains_key(user) {
            let i = choose|i: int| 0 <= i < participants.len() && participants[i] == user;
            if i < front.len() {
                assert(front[i] == user);
                let j = choose|j: int| 0 <= j < earlier.len() && earlier[j] == user;
                assert(targets[j] == user);
            } else {
                assert(targets[earlier.len() as int] == user);
            }
        }
        if targets.contains(sender) {
            let j = choose|j: int| 0 <= j < targets.len() && targets[j] == sender;
            assert(earlier[j] == sender);
        }
    }
}

/// Nobody is pushed to twice where the participant list names nobody twice.
pub proof fn lemma_push_targets_distinct<H>(
    participants: Seq<ObjectId>,
    sender: ObjectId,
    registry: Map<ObjectId, Connection<H>>,
)
    requires
        participants.no_duplicates(),
    ensures
        push_targets(participants, sender, registry).no_duplicates(),
    decreases participants.len(),
{
    if participants.len() > 0 {
        let front = participants.drop_last();
        let last = participants.last();
        lemma_push_targets_distinct(front, sender, registry);
        lemma_push_targets(front, sender, registry, last);
        if front.contains(last) {
            let i = choose|i: int| 0 <= i < front.len() && front[i] == last;
            assert(participants[i] == participants[participants.len() - 1]);
        }
    }
}

/// The members of the document that announces a chat message to a recipient.
pub open spec fn chat_message_members(
    message_id: ObjectId,
    chat_id: ObjectId,
    sender_id: ObjectId,
    sender_username: Seq<char>,
    content: Seq<char>,
    created_at: Timestamp,
) -> Seq<(Seq<char>, Seq<char>)> {
    seq![
        ("type"@, "chat_message"@),
        ("message_id"@, hex_text(message_id.bytes())),
        ("chat_id"@, hex_text(chat_id.bytes())),
        ("sender_id"@, hex_text(sender_id.bytes())),
        ("sender_username"@, sender_username),
        ("content"@, content),
        ("created_at"@, created_at.text()),
    ]
}

/// The text pushed to each recipient of a chat message.
pub open spec fn chat_message_text(
    message_id: ObjectId,
    chat_id: ObjectId,
    sender_id: ObjectId,
    sender_username: Seq<char>,
    content: Seq<char>,
    created_at: Timestamp,
) -> Seq<char> {
    json_object_text(
        chat_message_members(message_id, chat_id, sender_id, sender_username, content, created_at),
    )
}

/// Writes the document that announces a chat message.
pub fn chat_message_payload(
    message_id: ObjectId,
    chat_id: ObjectId,
    sender_id: ObjectId,
    sender_username: &str,
    content: &str,
    created_at: Timestamp,
) -> (payload: String)
    ensures
        payload@ == chat_message_text(
            message_id,
            chat_id,
            sender_id,
            sender_username@,
            content@,
            created_at,
        ),
{
    let mut members: Vec<(String, String)> = Vec::new();
    members.push(("type".to_owned(), "chat_message".to_owned()));
    members.push(("message_id".to_owned(), message_id.to_hex()));
    members.push(("chat_id".to_owned(), chat_id.to_hex()));
    members.push(("sender_id".to_owned(), sender_id.to_hex()));
    members.push(("sender_username".to_owned(), sender_username.to_owned()));
    members.push(("content".to_owned(), content.to_owned()));
    members.push(("created_at".to_owned(), created_at.to_text()));
    assert(member_texts(members@) =~= chat_message_members(
        message_id,
        chat_id,
        sender_id,
        sender_username@,
        content@,
        created_at,
    ));
    render_text_object(&members)
}

/// Addresses `payload` to every participant who is online and is not the
/// sender.
pub fn fan_out<'a, H>(
    registry: &'a ConnectionRegistry<H>,
    participants: &Vec<ObjectId>,
    sender: ObjectId,
    payload: &str,
) -> (deliveries: Vec<Delivery<'a, H>>)
    ensures
        delivers(deliveries@, push_targets(participants@, sender, registry@), registry@, payload@),
{
    let mut deliveries: Vec<Delivery<'a, H>> = Vec::new();
    let mut i: usize = 0;
    assert(participants@.subrange(0, 0) =~= Seq::empty());
    while i < participants.len()
        invariant
            i <= participants.len(),
            delivers(
                deliveries@,
                push_targets(participants@.subrange(0, i as int), sender, registry@),
                registry@,
                payload@,
            ),
        decreases participants.len() - i,
    {
        let participant = participants[i];
        proof {
            let upto = participants@.subrange(0, i + 1);
            assert(upto.drop_last() =~= participants@.subrange(0, i as int));
            assert(upto.last() == participant);
        }
        if participant != sender {
            match push_to_user(registry, participant, payload.to_owned()) {
                Some(delivery) => {
                    deliveries.push(delivery);
                },
                None => {},
            }
        }
        i += 1;
    }
    assert(participants@.subrange(0, participants.len() as int) =~= participants@);
    deliveries
}

} // verus!
