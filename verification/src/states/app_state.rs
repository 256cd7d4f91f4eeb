//! The shared state object handed to every connection task.

use crate::object_id::ObjectId;
use crate::states::connection_registry::{Connection, ConnectionRegistry};
use crate::states::membership_cache::ChatMembershipCache;
use vstd::prelude::*;

verus! {

/// Everything the connection tasks share: who is online, and who takes part
/// in which chat. It is made once, at startup, and handed to every task.
pub struct AppState<H> {
    pub ws_sessions: ConnectionRegistry<H>,
    pub chats: ChatMembershipCache,
}

impl<H> AppState<H> {
    /// The state at startup: nobody online, no chat cached.
    pub fn new() -> (state: Self)
        ensures
            state.ws_sessions@ == Map::<ObjectId, Connection<H>>::empty(),
            state.chats@ == Map::<ObjectId, Seq<ObjectId>>::empty(),
    {
        AppState { ws_sessions: ConnectionRegistry::new(), chats: ChatMembershipCache::new() }
    }
}

} // verus!
