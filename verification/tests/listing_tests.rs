use cphere_backend::models::notification_model::Notification;
use cphere_backend::models::user_model::User;
use cphere_backend::object_id::ObjectId;
use cphere_backend::services::chat_service::{
    delete_chat, get_chat_summary, get_user_chats, is_later, list_entry, send_message,
    sort_latest_first, ChatError, ChatListError, ChatListing, ChatSummary, SendReport,
};
use cphere_backend::services::notification_service::{find_sender_name, get_user_notifications};
use cphere_backend::services::user_service::{
    extract_user_id_from_session, SessionEntry, SessionError,
};
use cphere_backend::timestamp::Timestamp;

const ALICE: &str = "65a000000000000000000001";
const BOB: &str = "65a000000000000000000002";
const CHAT: &str = "65c0000000000000000000aa";

fn oid(text: &str) -> ObjectId {
    ObjectId::parse_str(text).unwrap()
}

fn at(seconds: i64) -> Timestamp {
    Timestamp { seconds, nanos: 0 }
}

fn line(id: &str, time: Option<i64>) -> ChatSummary {
    ChatSummary {
        id: id.to_string(),
        participant_username: "x".to_string(),
        participant_user_id: BOB.to_string(),
        last_message: time.map(|_| "m".to_string()),
        last_message_timestamp: time.map(at),
    }
}

fn ids(lines: &Vec<ChatSummary>) -> Vec<String> {
    lines.iter().map(|l| l.id.clone()).collect()
}

#[test]
fn session_entry_names_a_user() {
    assert_eq!(
        extract_user_id_from_session(&SessionEntry::Present(ALICE.to_string())),
        Ok(oid(ALICE))
    );
    assert_eq!(
        extract_user_id_from_session(&SessionEntry::Present("alice".to_string())),
        Err(SessionError::InvalidUserId)
    );
    assert_eq!(
        extract_user_id_from_session(&SessionEntry::Absent),
        Err(SessionError::NotAuthenticated)
    );
    assert_eq!(
        extract_user_id_from_session(&SessionEntry::Unreadable),
        Err(SessionError::SessionFailure)
    );
    assert_eq!(SessionError::NotAuthenticated.status_code(), 401);
    assert_eq!(SessionError::NotAuthenticated.message(), "Not authenticated");
    assert_eq!(SessionError::SessionFailure.status_code(), 500);
    assert_eq!(SessionError::SessionFailure.message(), "Session error");
    assert_eq!(SessionError::InvalidUserId.status_code(), 400);
    assert_eq!(SessionError::InvalidUserId.message(), "Invalid user ID in session");
}

#[test]
fn summary_of_one_chat() {
    let summary =
        get_chat_summary(oid(CHAT), oid(BOB), "bob", Some(("see you".to_string(), at(50))));
    assert_eq!(summary.id, CHAT);
    assert_eq!(summary.participant_username, "bob");
    assert_eq!(summary.participant_user_id, BOB);
    assert_eq!(summary.last_message, Some("see you".to_string()));
    assert_eq!(summary.last_message_timestamp, Some(at(50)));
    let empty = get_chat_summary(oid(CHAT), oid(BOB), "bob", None);
    assert_eq!(empty.last_message, None);
    assert_eq!(empty.last_message_timestamp, None);
}

#[test]
fn chat_without_message_is_left_out_of_the_list() {
    assert!(matches!(list_entry(Some(oid(CHAT)), oid(BOB), "bob", None), Ok(None)));
    assert!(matches!(
        list_entry(None, oid(BOB), "bob", Some(("m".to_string(), at(1)))),
        Err(ChatListError::ChatIdMissing)
    ));
    assert!(matches!(list_entry(None, oid(BOB), "bob", None), Err(ChatListError::ChatIdMissing)));
    match list_entry(Some(oid(CHAT)), oid(BOB), "bob", Some(("m".to_string(), at(1)))) {
        Ok(Some(summary)) => {
            assert_eq!(summary.id, CHAT);
            assert_eq!(summary.last_message, Some("m".to_string()));
        }
        _ => panic!("the chat was not listed"),
    }
    assert_eq!(ChatListError::ChatIdMissing.message(), "Chat ID is None");
    assert_eq!(ChatListError::NoOtherParticipant.message(), "Failed to find other participant");
}

#[test]
fn list_runs_from_latest_to_earliest() {
    let lines = vec![line("a", Some(10)), line("b", Some(30)), line("c", Some(20))];
    assert_eq!(ids(&sort_latest_first(lines)), vec!["b", "c", "a"]);
    assert!(sort_latest_first(vec![]).is_empty());
    assert_eq!(ids(&sort_latest_first(vec![line("only", Some(1))])), vec!["only"]);
}

#[test]
fn lines_of_one_time_keep_their_order() {
    let lines = vec![
        line("a", Some(10)),
        line("b", Some(20)),
        line("c", Some(10)),
        line("d", Some(20)),
        line("e", Some(10)),
    ];
    assert_eq!(ids(&sort_latest_first(lines)), vec!["b", "d", "a", "c", "e"]);
}

#[test]
fn line_without_time_comes_first() {
    let lines = vec![line("a", Some(10)), line("b", None), line("c", Some(99)), line("d", None)];
    assert_eq!(ids(&sort_latest_first(lines)), vec!["b", "d", "c", "a"]);
    assert!(is_later(&None, &Some(at(5))));
    assert!(!is_later(&Some(at(5)), &None));
    assert!(!is_later(&None, &None));
    assert!(is_later(&Some(at(6)), &Some(at(5))));
    assert!(!is_later(&Some(at(5)), &Some(at(5))));
    assert!(is_later(&Some(Timestamp { seconds: 5, nanos: 1 }), &Some(at(5))));
}

#[test]
fn sender_is_named_from_the_last_matching_user() {
    let mut first = User::new("alice", "a@example.com", "h");
    first.id = Some(oid(ALICE));
    let mut second = User::new("alice2", "a2@example.com", "h");
    second.id = Some(oid(ALICE));
    let nameless = User::new("ghost", "g@example.com", "h");
    let users = vec![first, nameless, second];
    assert_eq!(find_sender_name(&users, oid(ALICE)), "alice2");
    assert_eq!(find_sender_name(&users, oid(BOB)), "Unknown User");
    assert_eq!(find_sender_name(&vec![], oid(ALICE)), "Unknown User");
}

#[test]
fn notifications_are_listed_in_order() {
    let mut alice = User::new("alice", "a@example.com", "h");
    alice.id = Some(oid(ALICE));
    let mut ring = Notification::new("video_call", oid(BOB), oid(ALICE), "ring");
    ring.id = Some(oid(CHAT));
    ring.created_at = at(77);
    let unsent = Notification::new("friend_request", oid(ALICE), oid(BOB), "hello");
    let summaries = get_user_notifications(&vec![ring, unsent], &vec![alice]);
    assert_eq!(summaries.len(), 2);
    assert_eq!(summaries[0].id, CHAT);
    assert_eq!(summaries[0].notification_type, "video_call");
    assert_eq!(summaries[0].sender_user_id, ALICE);
    assert_eq!(summaries[0].sender_username, "alice");
    assert_eq!(summaries[0].message, "ring");
    assert_eq!(summaries[0].timestamp, at(77));
    assert_eq!(summaries[1].id.len(), 24);
    assert_eq!(summaries[1].notification_type, "friend_request");
    assert_eq!(summaries[1].sender_user_id, BOB);
    assert_eq!(summaries[1].sender_username, "Unknown User");
    assert_eq!(summaries[1].message, "hello");
    assert!(get_user_notifications(&vec![], &vec![]).is_empty());
}

#[test]
fn deleting_nothing_means_the_user_takes_no_part() {
    assert_eq!(delete_chat(Some(1)), Ok(()));
    assert_eq!(delete_chat(Some(3)), Ok(()));
    assert_eq!(delete_chat(Some(0)), Err(ChatError::NotParticipant));
    assert_eq!(delete_chat(None), Err(ChatError::DeletionFailed));
}

#[test]
fn sent_message_comes_back_with_its_identifier() {
    assert_eq!(send_message(SendReport::Inserted(Some(oid(CHAT)))), Ok(oid(CHAT)));
    assert_eq!(send_message(SendReport::Inserted(None)), Err(ChatError::MessageIdMissing));
    assert_eq!(send_message(SendReport::InsertFailed), Err(ChatError::InsertFailed));
    assert_eq!(send_message(SendReport::NotParticipant), Err(ChatError::NotParticipant));
    assert_eq!(send_message(SendReport::ParticipationUnknown), Err(ChatError::ParticipationCheck));
}

#[test]
fn chat_errors_have_status_and_sentence() {
    assert_eq!(ChatError::NotParticipant.status_code(), 403);
    assert_eq!(ChatError::NotParticipant.message(), "You are not a participant in this chat");
    assert_eq!(ChatError::ParticipationCheck.status_code(), 500);
    assert_eq!(
        ChatError::ParticipationCheck.message(),
        "Database error during participation check"
    );
    assert_eq!(ChatError::InsertFailed.status_code(), 500);
    assert_eq!(ChatError::InsertFailed.message(), "Failed to insert message");
    assert_eq!(ChatError::MessageIdMissing.status_code(), 500);
    assert_eq!(ChatError::MessageIdMissing.message(), "Failed to get inserted message ID");
    assert_eq!(ChatError::DeletionFailed.status_code(), 500);
    assert_eq!(ChatError::DeletionFailed.message(), "Database error during deletion");
}

fn listing(chat: Option<&str>, message: Option<(&str, i64)>) -> ChatListing {
    ChatListing {
        chat_id: chat.map(oid),
        other_id: oid(BOB),
        other_username: "bob".to_string(),
        last_message: message.map(|(text, time)| (text.to_string(), at(time))),
    }
}

#[test]
fn chats_are_listed_latest_first_without_the_silent_ones() {
    let first = "65c000000000000000000001";
    let second = "65c000000000000000000002";
    let third = "65c000000000000000000003";
    let list = get_user_chats(vec![
        listing(Some(first), Some(("old", 10))),
        listing(Some(second), None),
        listing(Some(third), Some(("new", 20))),
    ])
    .unwrap();
    assert_eq!(ids(&list), vec![third, first]);
    assert_eq!(list[0].last_message, Some("new".to_string()));
    assert_eq!(list[0].participant_username, "bob");
    assert_eq!(list[0].participant_user_id, BOB);
    assert_eq!(list[1].last_message_timestamp, Some(at(10)));
    assert!(get_user_chats(vec![]).unwrap().is_empty());
}

#[test]
fn chat_without_identifier_fails_the_list() {
    let result = get_user_chats(vec![
        listing(Some(CHAT), Some(("m", 1))),
        listing(None, None),
    ]);
    assert!(matches!(result, Err(ChatListError::ChatIdMissing)));
}
