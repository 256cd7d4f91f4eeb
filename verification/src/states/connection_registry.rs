//! Who is online: each user's one live connection.

use crate::object_id::{lemma_key_injective, ObjectId};
use std::collections::HashMap;
use vstd::prelude::*;

verus! {

broadcast use vstd::std_specs::hash::group_hash_axioms;

/// A live connection as the registry knows it. The handle is whatever the
/// transport needs to push text to the connection; the registry only stores
/// it and hands it back. The identifier tells the connection apart from every
/// other, also from an earlier or later one of the same user.
pub struct Connection<H> {
    pub id: u128,
    pub handle: H,
}

/// Mapping from user to that user's live connection.
pub struct ConnectionRegistry<H> {
    connections: HashMap<u128, Connection<H>>,
}

impl<H> View for ConnectionRegistry<H> {
    type V = Map<ObjectId, Connection<H>>;

    /// The connection registered for each online user.
    closed spec fn view(&self) -> Map<ObjectId, Connection<H>> {
        Map::new(
            |user: ObjectId| self.connections@.contains_key(user.key()),
            |user: ObjectId| self.connections@[user.key()],
        )
    }
}

/// The registry after the connection `id` of `user` has been released: the
/// user's entry is gone if it was that connection's, and stays if it is
/// another's.
pub open spec fn released<H>(
    registry: Map<ObjectId, Connection<H>>,
    user: ObjectId,
    id: u128,
) -> Map<ObjectId, Connection<H>> {
    if registry.contains_key(user) && registry[user].id == id {
        registry.remove(user)
    } else {
        registry
    }
}

impl<H> ConnectionRegistry<H> {
    /// A registry with nobody online.
    pub fn new() -> (registry: Self)
        ensures
            registry@ == Map::<ObjectId, Connection<H>>::empty(),
    {
        let registry = ConnectionRegistry { connections: HashMap::new() };
        assert(registry@ =~= Map::<ObjectId, Connection<H>>::empty());
        registry
    }

    /// Makes `connection` the connection of `user_id`. A connection that the
    /// user already had is superseded: it comes back so that the caller can
    /// tell it to close.
    pub fn register(&mut self, user_id: ObjectId, connection: Connection<H>) -> (superseded:
        Option<Connection<H>>)
        ensures
            final(self)@ == old(self)@.insert(user_id, connection),
            superseded == old(self)@.get(user_id),
    {
        let superseded = self.connections.insert(user_id.map_key(), connection);
        proof {
            assert forall|other: ObjectId| other.key() == user_id.key() implies other
                == user_id by {
                lemma_key_injective(other, user_id);
            }
            assert(self@ =~= old(self)@.insert(user_id, connection));
        }
        superseded
    }

    /// Takes the connection `connection_id` of `user_id` out of the registry
    /// and hands it back. Where the user's entry is another connection's,
    /// because that one has taken over, or where the user has none, nothing
    /// changes.
    pub fn release(&mut self, user_id: ObjectId, connection_id: u128) -> (removed: Option<
        Connection<H>,
    >)
        ensures
            final(self)@ == released(old(self)@, user_id, connection_id),
            removed == if old(self)@.contains_key(user_id) && old(self)@[user_id].id
                == connection_id {
                Some(old(self)@[user_id])
            } else {
                None
            },
    {
        let key = user_id.map_key();
        let own = match self.connections.get(&key) {
            Some(connection) => connection.id == connection_id,
            None => false,
        };
        if own {
            self.deregister(user_id)
        } else {
            None
        }
    }

    /// Forgets the connection of `user_id`, if there is one, and hands it
    /// back.
    pub fn deregister(&mut self, user_id: ObjectId) -> (removed: Option<Connection<H>>)
        ensures
            final(self)@ == old(self)@.remove(user_id),
            removed == old(self)@.get(user_id),
    {
        let key = user_id.map_key();
        let removed = self.connections.remove(&key);
        proof {
            assert forall|other: ObjectId| other.key() == user_id.key() implies other
                == user_id by {
                lemma_key_injective(other, user_id);
            }
            assert(self@ =~= old(self)@.remove(user_id));
        }
        removed
    }

    /// The live connection of `user_id`, if the user is online.
    pub fn lookup(&self, user_id: ObjectId) -> (connection: Option<&Connection<H>>)
        ensures
            connection == match self@.get(user_id) {
                Some(c) => Some(&c),
                None => None,
            },
    {
        let key = user_id.map_key();
        self.connections.get(&key)
    }

    /// Whether `user_id` has a live connection.
    pub fn is_online(&self, user_id: ObjectId) -> (online: bool)
        ensures
            online == self@.contains_key(user_id),
    {
        let key = user_id.map_key();
        self.connections.contains_key(&key)
    }
}

/// A user never has two connections registered at once: whatever
/// connections the registry holds for one user are one and the same.
pub proof fn lemma_one_connection_per_user<H>(
    registry: ConnectionRegistry<H>,
    user: ObjectId,
    first: Connection<H>,
    second: Connection<H>,
)
    requires
        registry@.contains_pair(user, first),
        registry@.contains_pair(user, second),
    ensures
        first == second,
{
}

} // verus!
