//! Pushes on their way to a connection.

use crate::object_id::ObjectId;
use crate::states::connection_registry::{Connection, ConnectionRegistry};
use vstd::prelude::*;

verus! {

/// A text payload for one connection to write to its socket.
pub struct TextMessage(pub String);

/// The signal that tells a connection to close and stop.
pub struct StopSession;

/// One push that the transport has to perform: hand `message` to the
/// connection behind `handle`, which is the live connection of `recipient`.
pub struct Delivery<'a, H> {
    pub recipient: ObjectId,
    pub handle: &'a H,
    pub message: TextMessage,
}

impl<'a, H> Delivery<'a, H> {
    /// Whether this is the push of `payload` to the connection that
    /// `registry` holds for `user`.
    pub open spec fn carries(
        self,
        registry: Map<ObjectId, Connection<H>>,
        user: ObjectId,
        payload: Seq<char>,
    ) -> bool {
        &&& self.recipient == user
        &&& registry.contains_key(user)
        &&& *self.handle == registry[user].handle
        &&& self.message.0@ == payload
    }
}

/// Addresses `payload` to `user_id` if that user is online; an offline user
/// gets nothing.
pub fn push_to_user<'a, H>(
    registry: &'a ConnectionRegistry<H>,
    user_id: ObjectId,
    payload: String,
) -> (delivery: Option<Delivery<'a, H>>)
    ensures
        delivery.is_some() == registry@.contains_key(user_id),
        delivery is Some ==> delivery.unwrap().carries(registry@, user_id, payload@),
{
    match registry.lookup(user_id) {
        Some(connection) => Some(
            Delivery { recipient: user_id, handle: &connection.handle, message: TextMessage(payload) },
        ),
        None => None,
    }
}

} // verus!
