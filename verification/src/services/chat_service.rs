//! Chats as the request handlers see them.

use crate::object_id::{hex_text, ObjectId};
use crate::timestamp::Timestamp;
use vstd::prelude::*;

verus! {

/// Body of the request that opens a chat with one other user.
pub struct CreateChatRoomRequest {
    pub participant_id: String,
}

/// Body of the request that deletes a chat.
pub struct DeleteChatRequest {
    pub chat_id: ObjectId,
}

/// Body of the request that sends a message.
pub struct SendMessageRequest {
    pub chat_id: ObjectId,
    pub content: String,
}

/// One line of a user's list of chats.
pub struct ChatSummary {
    pub id: String,
    pub participant_username: String,
    pub participant_user_id: String,
    pub last_message: Option<String>,
    pub last_message_timestamp: Option<Timestamp>,
}

/// The first participant who is not `user_id`, if there is one.
pub open spec fn first_other(participants: Seq<ObjectId>, user_id: ObjectId) -> Option<ObjectId>
    decreases participants.len(),
{
    if participants.len() == 0 {
        None
    } else if participants[0] != user_id {
        Some(participants[0])
    } else {
        first_other(participants.drop_first(), user_id)
    }
}

/// Why a user's chats could not be listed.
#[derive(Debug, Clone, Copy, PartialEq, Eq, Structural)]
pub enum ChatListError {
    /// A chat has no participant but the user.
    NoOtherParticipant,
    /// The record of a chat lacks its identifier.
    ChatIdMissing,
}

impl ChatListError {
    /// The sentence that the error is answered with, under status 500.
    pub fn message(&self) -> (text: &'static str)
        ensures
            text@ == match self {
                ChatListError::NoOtherParticipant => "Failed to find other participant"@,
                ChatListError::ChatIdMissing => "Chat ID is None"@,
            },
    {
        match self {
            ChatListError::NoOtherParticipant => "Failed to find other participant",
            ChatListError::ChatIdMissing => "Chat ID is None",
        }
    }
}

/// Finds the other participant of a chat of two: the first participant who
/// is not the user.
pub fn other_participant(participants: &Vec<ObjectId>, user_id: ObjectId) -> (other: Result<
    ObjectId,
    ChatListError,
>)
    ensures
        other == match first_other(participants@, user_id) {
            Some(id) => Ok::<ObjectId, ChatListError>(id),
            None => Err::<ObjectId, ChatListError>(ChatListError::NoOtherParticipant),
        },
{
    let mut i: usize = 0;
    assert(participants@.subrange(0, participants@.len() as int) =~= participants@);
    while i < participants.len()
        invariant
            i <= participants.len(),
            first_other(participants@, user_id) == first_other(
                participants@.subrange(i as int, participants@.len() as int),
                user_id,
            ),
        decreases participants.len() - i,
    {
        proof {
            let rest = participants@.subrange(i as int, participants@.len() as int);
            assert(rest[0] == participants@[i as int]);
            assert(rest.drop_first() =~= participants@.subrange(
                i + 1,
                participants@.len() as int,
            ));
        }
        if participants[i] != user_id {
            return Ok(participants[i]);
        }
        i += 1;
    }
    Err(ChatListError::NoOtherParticipant)
}

impl ChatSummary {
    /// Whether the summary is the line for the chat `chat_id` with the other
    /// participant and the last message given.
    pub open spec fn describes(
        self,
        chat_id: ObjectId,
        other_id: ObjectId,
        other_username: Seq<char>,
        last_message: Option<(String, Timestamp)>,
    ) -> bool {
        &&& self.id@ == hex_text(chat_id.bytes())
        &&& self.participant_username@ == other_username
        &&& self.participant_user_id@ == hex_text(other_id.bytes())
        &&& match last_message {
            Some(last) => {
                &&& self.last_message matches Some(text)
                &&& text@ == last.0@
                &&& self.last_message_timestamp == Some(last.1)
            },
            None => self.last_message is None && self.last_message_timestamp is None,
        }
    }
}

/// Writes the line for one chat.
pub fn get_chat_summary(
    chat_id: ObjectId,
    other_id: ObjectId,
    other_username: &str,
    last_message: Option<(String, Timestamp)>,
) -> (summary: ChatSummary)
    ensures
        summary.describes(chat_id, other_id, other_username@, last_message),
{
    let (text, at) = match last_message {
        Some(last) => (Some(last.0), Some(last.1)),
        None => (None, None),
    };
    ChatSummary {
        id: chat_id.to_hex(),
        participant_username: other_username.to_owned(),
        participant_user_id: other_id.to_hex(),
        last_message: text,
        last_message_timestamp: at,
    }
}

/// Writes the line for one chat of a user's list. A chat without an
/// identifier cannot be listed; a chat without a message is left out.
pub fn list_entry(
    chat_id: Option<ObjectId>,
    other_id: ObjectId,
    other_username: &str,
    last_message: Option<(String, Timestamp)>,
) -> (entry: Result<Option<ChatSummary>, ChatListError>)
    ensures
        chat_id is None ==> entry == Err::<Option<ChatSummary>, ChatListError>(
            ChatListError::ChatIdMissing,
        ),
        chat_id is Some && last_message is None ==> entry == Ok::<
            Option<ChatSummary>,
            ChatListError,
        >(None),
        chat_id is Some && last_message is Some ==> {
            &&& entry matches Ok(Some(summary))
            &&& summary.describes(chat_id.unwrap(), other_id, other_username@, last_message)
        },
{
    let id = match chat_id {
        Some(id) => id,
        None => {
            return Err(ChatListError::ChatIdMissing);
        },
    };
    if last_message.is_none() {
        return Ok(None);
    }
    Ok(Some(get_chat_summary(id, other_id, other_username, last_message)))
}

/// Whether the time `a` counts as strictly later than `b`. A line without a
/// time counts as later than any line with one.
pub open spec fn later(a: Option<Timestamp>, b: Option<Timestamp>) -> bool {
    match (a, b) {
        (None, Some(_)) => true,
        (Some(x), Some(y)) => y.is_before(x),
        _ => false,
    }
}

/// Computes `later`.
pub fn is_later(a: &Option<Timestamp>, b: &Option<Timestamp>) -> (yes: bool)
    ensures
        yes == later(*a, *b),
{
    match a {
        None => b.is_some(),
        Some(x) => match b {
            Some(y) => y.before(x),
            None => false,
        },
    }
}

/// Where a line goes into a list that runs from the latest time to the
/// earliest: before the first line that it is strictly later than, and so
/// after every line of the same time.
pub open spec fn insert_position(sorted: Seq<ChatSummary>, line: ChatSummary) -> int
    decreases sorted.len(),
{
    if sorted.len() == 0 {
        0
    } else if later(line.last_message_timestamp, sorted[0].last_message_timestamp) {
        0
    } else {
        1 + insert_position(sorted.drop_first(), line)
    }
}

/// The lines from the latest time to the earliest, lines of the same time in
/// the order they came in.
pub open spec fn latest_first(lines: Seq<ChatSummary>) -> Seq<ChatSummary>
    decreases lines.len(),
{
    if lines.len() == 0 {
        Seq::empty()
    } else {
        let sorted = latest_first(lines.drop_last());
        sorted.insert(insert_position(sorted, lines.last()), lines.last())
    }
}

/// The position found lies within the list, no line before it is earlier
/// than the new line, and the line at it, if any, is.
pub proof fn lemma_insert_position(sorted: Seq<ChatSummary>, line: ChatSummary)
    ensures
        0 <= insert_position(sorted, line) <= sorted.len(),
        forall|i: int|
            0 <= i < insert_position(sorted, line) ==> !later(
                line.last_message_timestamp,
                (#[trigger] sorted[i]).last_message_timestamp,
            ),
        insert_position(sorted, line) < sorted.len() ==> later(
            line.last_message_timestamp,
            sorted[insert_position(sorted, line)].last_message_timestamp,
        ),
    decreases sorted.len(),
{
    if sorted.len() > 0 && !later(line.last_message_timestamp, sorted[0].last_message_timestamp) {
        let rest = sorted.drop_first();
        lemma_insert_position(rest, line);
        assert forall|i: int| 0 <= i < insert_position(sorted, line) implies !later(
            line.last_message_timestamp,
            (#[trigger] sorted[i]).last_message_timestamp,
        ) by {
            if i > 0 {
                assert(sorted[i] == rest[i - 1]);
            }
        }
        if insert_position(sorted, line) < sorted.len() {
            assert(sorted[insert_position(sorted, line)] == rest[insert_position(rest, line)]);
        }
    }
}

/// Whether no line comes before a line that is strictly later.
pub open spec fn runs_latest_first(lines: Seq<ChatSummary>) -> bool {
    forall|i: int, j: int|
        0 <= i < j < lines.len() ==> !later(
            (#[trigger] lines[j]).last_message_timestamp,
            (#[trigger] lines[i]).last_message_timestamp,
        )
}

/// `latest_first` keeps every line, as often as it came in, and puts no line
/// before a later one.
pub proof fn lemma_latest_first(lines: Seq<ChatSummary>)
    ensures
        latest_first(lines).to_multiset() == lines.to_multiset(),
        latest_first(lines).len() == lines.len(),
        runs_latest_first(latest_first(lines)),
    decreases lines.len(),
{
    broadcast use vstd::seq_lib::group_to_multiset_ensures;

    if lines.len() == 0 {
        assert(latest_first(lines) =~= lines);
    } else {
        let front = lines.drop_last();
        let line = lines.last();
        lemma_latest_first(front);
        let sorted = latest_first(front);
        let p = insert_position(sorted, line);
        lemma_insert_position(sorted, line);
        let result = sorted.insert(p, line);
        vstd::seq_lib::to_multiset_insert(sorted, p, line);
        assert(lines =~= front.push(line));
        assert(result.to_multiset() =~= lines.to_multiset());
        assert forall|i: int, j: int| 0 <= i < j < result.len() implies !later(
            (#[trigger] result[j]).last_message_timestamp,
            (#[trigger] result[i]).last_message_timestamp,
        ) by {
            if j == p {
                assert(result[i] == sorted[i]);
            } else if i == p {
                assert(result[j] == sorted[j - 1]);
                if j - 1 > p {
                    assert(!later(sorted[j - 1].last_message_timestamp, sorted[p].last_message_timestamp));
                }
            } else {
                let si = if i < p {
                    i
                } else {
                    i - 1
                };
                let sj = if j < p {
                    j
                } else {
                    j - 1
                };
                assert(result[i] == sorted[si]);
                assert(result[j] == sorted[sj]);
            }
        }
    }
}

/// Puts the lines of a user's list in order: latest message first, lines of
/// the same time in the order they came in.
pub fn sort_latest_first(lines: Vec<ChatSummary>) -> (sorted: Vec<ChatSummary>)
    ensures
        sorted@ == latest_first(lines@),
{
    let mut rest = lines;
    let mut sorted: Vec<ChatSummary> = Vec::new();
    let ghost all = rest@;
    let ghost mut done: int = 0;
    assert(all.subrange(0, 0) =~= Seq::empty());
    assert(all.subrange(0, all.len() as int) =~= all);
    while rest.len() > 0
        invariant
            0 <= done <= all.len(),
            rest@ == all.subrange(done, all.len() as int),
            sorted@ == latest_first(all.subrange(0, done)),
        decreases rest.len(),
    {
        let line = rest.remove(0);
        proof {
            let upto = all.subrange(0, done + 1);
            assert(upto.drop_last() =~= all.subrange(0, done));
            assert(upto.last() == line);
            assert(rest@ =~= all.subrange(done + 1, all.len() as int));
            lemma_insert_position(sorted@, line);
        }
        let mut p: usize = 0;
        assert(sorted@.subrange(0, sorted@.len() as int) =~= sorted@);
        while p < sorted.len() && !is_later(
            &line.last_message_timestamp,
            &sorted[p].last_message_timestamp,
        )
            invariant
                p <= sorted@.len(),
                insert_position(sorted@, line) == p + insert_position(
                    sorted@.subrange(p as int, sorted@.len() as int),
                    line,
                ),
            decreases sorted@.len() - p,
        {
            proof {
                let tail = sorted@.subrange(p as int, sorted@.len() as int);
                assert(tail[0] == sorted@[p as int]);
                assert(tail.drop_first() =~= sorted@.subrange(p + 1, sorted@.len() as int));
            }
            p += 1;
        }
        proof {
            let tail = sorted@.subrange(p as int, sorted@.len() as int);
            if p < sorted@.len() {
                assert(tail[0] == sorted@[p as int]);
            }
            done = done + 1;
        }
        sorted.insert(p, line);
    }
    assert(all.subrange(0, all.len() as int) =~= all);
    sorted
}

/// What the store knows of one chat of a user: the chat, the other
/// participant and the latest message.
pub struct ChatListing {
    pub chat_id: Option<ObjectId>,
    pub other_id: ObjectId,
    pub other_username: String,
    pub last_message: Option<(String, Timestamp)>,
}

/// Whether `lines` are the lines for those of `chats` that have a message,
/// one each and in order.
pub open spec fn lists(lines: Seq<ChatSummary>, chats: Seq<ChatListing>) -> bool
    decreases chats.len(),
{
    if chats.len() == 0 {
        lines.len() == 0
    } else {
        let chat = chats.last();
        if chat.last_message is None {
            lists(lines, chats.drop_last())
        } else {
            &&& lines.len() > 0
            &&& chat.chat_id is Some
            &&& lines.last().describes(
                chat.chat_id.unwrap(),
                chat.other_id,
                chat.other_username@,
                chat.last_message,
            )
            &&& lists(lines.drop_last(), chats.drop_last())
        }
    }
}

/// A chat without a message adds no line to the list.
proof fn lemma_lists_skip(lines: Seq<ChatSummary>, chats: Seq<ChatListing>, chat: ChatListing)
    requires
        lists(lines, chats),
        chat.last_message is None,
    ensures
        lists(lines, chats.push(chat)),
{
    assert(chats.push(chat).drop_last() =~= chats);
}

/// A chat with a message adds its line at the end of the list.
proof fn lemma_lists_push(
    lines: Seq<ChatSummary>,
    chats: Seq<ChatListing>,
    chat: ChatListing,
    line: ChatSummary,
)
    requires
        lists(lines, chats),
        chat.last_message is Some,
        chat.chat_id is Some,
        line.describes(chat.chat_id.unwrap(), chat.other_id, chat.other_username@, chat.last_message),
    ensures
        lists(lines.push(line), chats.push(chat)),
{
    assert(chats.push(chat).drop_last() =~= chats);
    assert(lines.push(line).drop_last() =~= lines);
}

/// Writes a user's list of chats: a line for every chat that has a message,
/// the latest message first. A chat without an identifier fails the list.
pub fn get_user_chats(chats: Vec<ChatListing>) -> (list: Result<Vec<ChatSummary>, ChatListError>)
    ensures
        (exists|i: int| 0 <= i < chats@.len() && (#[trigger] chats@[i]).chat_id is None) ==> list
            == Err::<Vec<ChatSummary>, ChatListError>(ChatListError::ChatIdMissing),
        (forall|i: int| 0 <= i < chats@.len() ==> (#[trigger] chats@[i]).chat_id is Some) ==> {
            &&& list matches Ok(sorted)
            &&& exists|lines: Seq<ChatSummary>| #[trigger]
                lists(lines, chats@) && sorted@ == latest_first(lines)
        },
{
    let mut lines: Vec<ChatSummary> = Vec::new();
    let ghost all = chats@;
    let mut rest = chats;
    let ghost mut done: int = 0;
    assert(all.subrange(0, 0) =~= Seq::empty());
    assert(all.subrange(0, all.len() as int) =~= all);
    while rest.len() > 0
        invariant
            all == chats@,
            0 <= done <= all.len(),
            rest@ == all.subrange(done, all.len() as int),
            lists(lines@, all.subrange(0, done)),
            forall|i: int| 0 <= i < done ==> (#[trigger] all[i]).chat_id is Some,
        decreases rest.len(),
    {
        let chat = rest.remove(0);
        proof {
            assert(chat == all[done]);
            assert(rest@ =~= all.subrange(done + 1, all.len() as int));
            assert(all.subrange(0, done + 1) =~= all.subrange(0, done).push(chat));
        }
        let ghost listing = chat;
        match list_entry(chat.chat_id, chat.other_id, chat.other_username.as_str(), chat.last_message) {
            Err(e) => {
                assert(all[done].chat_id is None);
                return Err(e);
            },
            Ok(None) => {
                proof {
                    lemma_lists_skip(lines@, all.subrange(0, done), listing);
                }
            },
            Ok(Some(line)) => {
                proof {
                    lemma_lists_push(lines@, all.subrange(0, done), listing, line);
                }
                lines.push(line);
            },
        }
        proof {
            done = done + 1;
        }
    }
    assert(all.subrange(0, all.len() as int) =~= all);
    let ghost unsorted = lines@;
    let sorted = sort_latest_first(lines);
    assert(lists(unsorted, all) && sorted@ == latest_first(unsorted));
    Ok(sorted)
}

/// Why a chat could not be written to.
#[derive(Debug, Clone, Copy, PartialEq, Eq, Structural)]
pub enum ChatError {
    /// The user takes no part in the chat: status 403.
    NotParticipant,
    /// The store could not say whether the user takes part: status 500.
    ParticipationCheck,
    /// The message could not be put on record: status 500.
    InsertFailed,
    /// The store gave the message no identifier: status 500.
    MessageIdMissing,
    /// The store could not delete: status 500.
    DeletionFailed,
}

impl ChatError {
    /// The HTTP status that the error is answered with.
    pub open spec fn status(self) -> u16 {
        match self {
            ChatError::NotParticipant => 403,
            _ => 500,
        }
    }

    /// Computes `status`.
    pub fn status_code(&self) -> (code: u16)
        ensures
            code == self.status(),
    {
        match self {
            ChatError::NotParticipant => 403,
            _ => 500,
        }
    }

    /// The sentence that the error is answered with.
    pub fn message(&self) -> (text: &'static str)
        ensures
            text@ == match self {
                ChatError::NotParticipant => "You are not a participant in this chat"@,
                ChatError::ParticipationCheck => "Database error during participation check"@,
                ChatError::InsertFailed => "Failed to insert message"@,
                ChatError::MessageIdMissing => "Failed to get inserted message ID"@,
                ChatError::DeletionFailed => "Database error during deletion"@,
            },
    {
        match self {
            ChatError::NotParticipant => "You are not a participant in this chat",
            ChatError::ParticipationCheck => "Database error during participation check",
            ChatError::InsertFailed => "Failed to insert message",
            ChatError::MessageIdMissing => "Failed to get inserted message ID",
            ChatError::DeletionFailed => "Database error during deletion",
        }
    }
}

/// Says what the deletion of a chat came to. `deleted` is what the store
/// reports: how many chats it deleted, having looked for the chat among those
/// the user takes part in, or nothing where it could not delete.
pub fn delete_chat(deleted: Option<u64>) -> (verdict: Result<(), ChatError>)
    ensures
        verdict == match deleted {
            None => Err::<(), ChatError>(ChatError::DeletionFailed),
            Some(count) => if count == 0 {
                Err::<(), ChatError>(ChatError::NotParticipant)
            } else {
                Ok::<(), ChatError>(())
            },
        },
{
    match deleted {
        None => Err(ChatError::DeletionFailed),
        Some(count) => if count == 0 {
            Err(ChatError::NotParticipant)
        } else {
            Ok(())
        },
    }
}

/// What the store reports of an attempt to put a message on record.
pub enum SendReport {
    /// The store could not say whether the sender takes part in the chat.
    ParticipationUnknown,
    /// The sender takes no part in the chat.
    NotParticipant,
    /// The message could not be inserted.
    InsertFailed,
    /// The message was inserted; the store gave it this identifier, if any.
    Inserted(Option<ObjectId>),
}

/// Says what sending a message came to: the identifier of the message on
/// record, or why there is none.
pub fn send_message(report: SendReport) -> (sent: Result<ObjectId, ChatError>)
    ensures
        sent == match report {
            SendReport::ParticipationUnknown => Err::<ObjectId, ChatError>(
                ChatError::ParticipationCheck,
            ),
            SendReport::NotParticipant => Err::<ObjectId, ChatError>(ChatError::NotParticipant),
            SendReport::InsertFailed => Err::<ObjectId, ChatError>(ChatError::InsertFailed),
            SendReport::Inserted(None) => Err::<ObjectId, ChatError>(ChatError::MessageIdMissing),
            SendReport::Inserted(Some(id)) => Ok::<ObjectId, ChatError>(id),
        },
{
    match report {
        SendReport::ParticipationUnknown => Err(ChatError::ParticipationCheck),
        SendReport::NotParticipant => Err(ChatError::NotParticipant),
        SendReport::InsertFailed => Err(ChatError::InsertFailed),
        SendReport::Inserted(None) => Err(ChatError::MessageIdMissing),
        SendReport::Inserted(Some(id)) => Ok(id),
    }
}

} // verus!
