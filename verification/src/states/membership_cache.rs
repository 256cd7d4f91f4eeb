//! Who takes part in which chat, remembered after the first look at the store.

use crate::object_id::{lemma_key_injective, ObjectId};
use std::collections::HashMap;
use vstd::prelude::*;

verus! {

broadcast use vstd::std_specs::hash::group_hash_axioms;

/// The identifiers of `ids` in order of first appearance, each once.
pub open spec fn distinct(ids: Seq<ObjectId>) -> Seq<ObjectId>
    decreases ids.len(),
{
    if ids.len() == 0 {
        Seq::empty()
    } else {
        let earlier = distinct(ids.drop_last());
        if earlier.contains(ids.last()) {
            earlier
        } else {
            earlier.push(ids.last())
        }
    }
}

/// Adding one identifier at the end adds it to `distinct` unless it is there.
pub proof fn lemma_distinct_push(ids: Seq<ObjectId>, id: ObjectId)
    ensures
        distinct(ids.push(id)) == if distinct(ids).contains(id) {
            distinct(ids)
        } else {
            distinct(ids).push(id)
        },
{
    assert(ids.push(id).drop_last() =~= ids);
    assert(ids.push(id).last() == id);
}

/// `distinct` keeps exactly the identifiers that occur.
pub proof fn lemma_distinct_contains(ids: Seq<ObjectId>, id: ObjectId)
    ensures
        distinct(ids).contains(id) == ids.contains(id),
    decreases ids.len(),
{
    if ids.len() > 0 {
        let front = ids.drop_last();
        let last = ids.last();
        lemma_distinct_contains(front, id);
        lemma_distinct_contains(front, last);
        let earlier = distinct(front);
        assert(ids =~= front.push(last));
        if id == last {
            assert(ids[ids.len() - 1] == id);
            if !earlier.contains(last) {
                assert(earlier.push(last)[earlier.len() as int] == id);
            }
        } else {
            if front.contains(id) {
                let i = choose|i: int| 0 <= i < front.len() && front[i] == id;
                assert(ids[i] == id);
                let j = choose|j: int| 0 <= j < earlier.len() && earlier[j] == id;
                assert(earlier.push(last)[j] == id);
            }
            if ids.contains(id) {
                let i = choose|i: int| 0 <= i < ids.len() && ids[i] == id;
                assert(front[i] == id);
            }
            if distinct(ids).contains(id) {
                let j = choose|j: int| 0 <= j < distinct(ids).len() && distinct(ids)[j] == id;
                assert(earlier[j] == id);
            }
        }
    }
}

/// `distinct` repeats no identifier.
pub proof fn lemma_distinct_no_duplicates(ids: Seq<ObjectId>)
    ensures
        distinct(ids).no_duplicates(),
    decreases ids.len(),
{
    if ids.len() > 0 {
        lemma_distinct_no_duplicates(ids.drop_last());
    }
}

/// `distinct` begins with the identifier that comes first.
pub proof fn lemma_distinct_first(ids: Seq<ObjectId>)
    requires
        ids.len() > 0,
    ensures
        distinct(ids).len() > 0,
        distinct(ids)[0] == ids[0],
    decreases ids.len(),
{
    let front = ids.drop_last();
    if ids.len() > 1 {
        lemma_distinct_first(front);
        assert(front[0] == ids[0]);
        assert(distinct(front).push(ids.last())[0] == distinct(front)[0]);
    } else {
        assert(front =~= Seq::<ObjectId>::empty());
        assert(distinct(front) =~= Seq::<ObjectId>::empty());
        assert(distinct(ids) =~= seq![ids[0]]);
    }
}

/// The participants of a chat as the cache files them: the sender of the
/// message that brought the chat in, then the others in the order given.
pub open spec fn participant_list(sender: ObjectId, others: Seq<ObjectId>) -> Seq<ObjectId> {
    distinct(seq![sender] + others)
}

/// A participant list names the sender first, names nobody twice, and names
/// exactly the sender and the others.
pub proof fn lemma_participant_list(sender: ObjectId, others: Seq<ObjectId>, user: ObjectId)
    ensures
        participant_list(sender, others).len() > 0,
        participant_list(sender, others)[0] == sender,
        participant_list(sender, others).no_duplicates(),
        participant_list(sender, others).contains(user) <==> user == sender || others.contains(
            user,
        ),
{
    let all = seq![sender] + others;
    lemma_distinct_first(all);
    lemma_distinct_no_duplicates(all);
    lemma_distinct_contains(all, user);
    if all.contains(user) {
        let i = choose|i: int| 0 <= i < all.len() && all[i] == user;
        if i > 0 {
            assert(others[i - 1] == user);
        }
    }
    if others.contains(user) {
        let i = choose|i: int| 0 <= i < others.len() && others[i] == user;
        assert(all[i + 1] == user);
    }
    assert(all[0] == sender);
}

/// Computes `participant_list`.
pub fn list_participants(sender: ObjectId, others: &Vec<ObjectId>) -> (list: Vec<ObjectId>)
    ensures
        list@ == participant_list(sender, others@),
{
    let mut list: Vec<ObjectId> = Vec::new();
    list.push(sender);
    proof {
        lemma_distinct_push(Seq::empty(), sender);
        assert(Seq::<ObjectId>::empty().push(sender) =~= seq![sender] + others@.subrange(0, 0));
    }
    let mut i: usize = 0;
    while i < others.len()
        invariant
            i <= others.len(),
            list@ == distinct(seq![sender] + others@.subrange(0, i as int)),
        decreases others.len() - i,
    {
        let id = others[i];
        let found = holds(&list, id);
        proof {
            let before = seq![sender] + others@.subrange(0, i as int);
            lemma_distinct_push(before, id);
            assert(before.push(id) =~= seq![sender] + others@.subrange(0, i + 1));
        }
        if !found {
            list.push(id);
        }
        i += 1;
    }
    assert(others@.subrange(0, others.len() as int) =~= others@);
    list
}

/// Whether `id` occurs in `ids`.
pub fn holds(ids: &Vec<ObjectId>, id: ObjectId) -> (found: bool)
    ensures
        found == ids@.contains(id),
{
    let mut i: usize = 0;
    while i < ids.len()
        invariant
            i <= ids.len(),
            forall|j: int| 0 <= j < i ==> ids@[j] != id,
        decreases ids.len() - i,
    {
        if ids[i] == id {
            return true;
        }
        i += 1;
    }
    false
}

/// Mapping from chat to the list of its participants, each listed once. An
/// entry, once made, stays as it is for as long as the cache lives.
pub struct ChatMembershipCache {
    chats: HashMap<u128, Vec<ObjectId>>,
}

impl View for ChatMembershipCache {
    type V = Map<ObjectId, Seq<ObjectId>>;

    /// The participant list filed for each cached chat.
    closed spec fn view(&self) -> Map<ObjectId, Seq<ObjectId>> {
        Map::new(
            |chat: ObjectId| self.chats@.contains_key(chat.key()),
            |chat: ObjectId| self.chats@[chat.key()]@,
        )
    }
}

impl ChatMembershipCache {
    /// A cache that knows no chat yet.
    pub fn new() -> (cache: Self)
        ensures
            cache@ == Map::<ObjectId, Seq<ObjectId>>::empty(),
    {
        let cache = ChatMembershipCache { chats: HashMap::new() };
        assert(cache@ =~= Map::<ObjectId, Seq<ObjectId>>::empty());
        cache
    }

    /// Whether the participants of `chat_id` are cached.
    pub fn contains(&self, chat_id: ObjectId) -> (cached: bool)
        ensures
            cached == self@.contains_key(chat_id),
    {
        let key = chat_id.map_key();
        self.chats.contains_key(&key)
    }

    /// The participants of `chat_id` as far as the cache can tell: the list
    /// filed for the chat, or nothing where the chat is not cached and the
    /// store has to be asked.
    pub fn resolve_participants(&self, chat_id: ObjectId) -> (list: Option<&Vec<ObjectId>>)
        ensures
            list.is_some() == self@.contains_key(chat_id),
            list is Some ==> list.unwrap()@ == self@[chat_id],
    {
        let key = chat_id.map_key();
        self.chats.get(&key)
    }

    /// Files the participants of `chat_id`: `sender`, then `others`, each
    /// once. A chat that is already cached keeps the entry it has.
    pub fn populate(&mut self, chat_id: ObjectId, sender: ObjectId, others: &Vec<ObjectId>)
        ensures
            final(self)@ == if old(self)@.contains_key(chat_id) {
                old(self)@
            } else {
                old(self)@.insert(chat_id, participant_list(sender, others@))
            },
    {
        let key = chat_id.map_key();
        if !self.chats.contains_key(&key) {
            let list = list_participants(sender, others);
            self.chats.insert(key, list);
            proof {
                assert forall|other: ObjectId| other.key() == chat_id.key() implies other
                    == chat_id by {
                    lemma_key_injective(other, chat_id);
                }
                assert(self@ =~= old(self)@.insert(chat_id, participant_list(sender, others@)));
            }
        }
    }
}

} // verus!
