use cphere_backend::middleware::auth_middleware::{Admission, AuthMiddlewareFactory};
use cphere_backend::models::user_model::User;
use cphere_backend::object_id::ObjectId;
use cphere_backend::services::auth_service::{
    auth_status, logout_user, reset_token_expired, AuthStatus,
};
use cphere_backend::services::chat_service::{other_participant, ChatListError};
use cphere_backend::services::user_service::{
    batch_is_online, check_batch_online, is_user_online, BatchCheckOnlineRequest,
};
use cphere_backend::services::video_call_service::{
    initiate_video_call_logic, respond_video_call_logic, CallSetup, VideoCallError,
};
use cphere_backend::states::app_state::AppState;
use cphere_backend::states::connection_registry::{Connection, ConnectionRegistry};
use cphere_backend::webrtc::{signaling_handler, SignalRequest};
use cphere_backend::websocket::router::ChatLookup;

const ALICE: &str = "65a000000000000000000001";
const BOB: &str = "65a000000000000000000002";
const CAROL: &str = "65a000000000000000000003";
const CHAT: &str = "65c0000000000000000000aa";
const NOTE: &str = "65e0000000000000000000cc";

fn oid(text: &str) -> ObjectId {
    ObjectId::parse_str(text).unwrap()
}

fn conn<H>(handle: H) -> Connection<H> {
    Connection { id: 0, handle }
}

#[test]
fn presence_of_one_user() {
    let mut state: AppState<u8> = AppState::new();
    assert!(!is_user_online(&state, oid(ALICE)));
    state.ws_sessions.register(oid(ALICE), conn(1));
    assert!(is_user_online(&state, oid(ALICE)));
    assert!(!is_user_online(&state, oid(BOB)));
}

#[test]
fn presence_of_several_users() {
    let mut state: AppState<u8> = AppState::new();
    state.ws_sessions.register(oid(ALICE), conn(1));
    state.ws_sessions.register(oid(CAROL), conn(3));
    let request = BatchCheckOnlineRequest {
        user_ids: vec![
            BOB.to_string(),
            "not an id".to_string(),
            "65A000000000000000000001".to_string(),
            CAROL.to_string(),
            BOB.to_string(),
        ],
    };
    let response = check_batch_online(&state, &request);
    assert_eq!(
        response.online_status,
        vec![
            (BOB.to_string(), false),
            (ALICE.to_string(), true),
            (CAROL.to_string(), true),
            (BOB.to_string(), false),
        ]
    );
    assert!(batch_is_online(&state.ws_sessions, &vec![]).is_empty());
}

#[test]
fn call_needs_the_recipient_online() {
    let mut registry: ConnectionRegistry<u8> = ConnectionRegistry::new();
    let verdict = initiate_video_call_logic(&registry, oid(ALICE), oid(BOB), oid(CHAT));
    assert_eq!(verdict, Err(VideoCallError::RecipientOffline));
    registry.register(oid(BOB), conn(2));
    let verdict = initiate_video_call_logic(&registry, oid(ALICE), oid(BOB), oid(CHAT));
    assert_eq!(
        verdict,
        Ok(CallSetup { caller_id: oid(ALICE), recipient_id: oid(BOB), chat_id: oid(CHAT) })
    );
}

#[test]
fn call_needs_both_in_the_chat() {
    let setup = CallSetup { caller_id: oid(ALICE), recipient_id: oid(BOB), chat_id: oid(CHAT) };
    assert_eq!(setup.chat_looked(&ChatLookup::Found(vec![oid(BOB), oid(ALICE)])), Ok(()));
    assert_eq!(
        setup.chat_looked(&ChatLookup::Found(vec![oid(ALICE), oid(CAROL)])),
        Err(VideoCallError::NotParticipants)
    );
    assert_eq!(
        setup.chat_looked(&ChatLookup::Found(vec![oid(BOB)])),
        Err(VideoCallError::NotParticipants)
    );
    assert_eq!(setup.chat_looked(&ChatLookup::Found(vec![])), Err(VideoCallError::NotParticipants));
    assert_eq!(setup.chat_looked(&ChatLookup::Missing), Err(VideoCallError::ChatNotFound));
    assert_eq!(setup.chat_looked(&ChatLookup::Failed), Err(VideoCallError::Database));
}

#[test]
fn call_errors_have_status_and_sentence() {
    assert_eq!(VideoCallError::RecipientOffline.status_code(), 400);
    assert_eq!(VideoCallError::RecipientOffline.message(), "Recipient is not online");
    assert_eq!(VideoCallError::ChatNotFound.status_code(), 404);
    assert_eq!(VideoCallError::ChatNotFound.message(), "Chat not found");
    assert_eq!(VideoCallError::NotParticipants.status_code(), 403);
    assert_eq!(VideoCallError::NotParticipants.message(), "Users are not participants in the chat");
    assert_eq!(VideoCallError::Database.status_code(), 500);
    assert_eq!(VideoCallError::Database.message(), "Database error");
}

#[test]
fn call_is_announced_to_the_recipient() {
    let mut registry: ConnectionRegistry<u8> = ConnectionRegistry::new();
    registry.register(oid(BOB), conn(2));
    let setup = CallSetup { caller_id: oid(ALICE), recipient_id: oid(BOB), chat_id: oid(CHAT) };
    let delivery = setup.announce(&registry, "{\"type\":\"video_call_request\"}".to_string()).unwrap();
    assert_eq!(delivery.recipient, oid(BOB));
    assert_eq!(*delivery.handle, 2);
    assert_eq!(delivery.message.0, "{\"type\":\"video_call_request\"}");
    registry.deregister(oid(BOB));
    assert!(setup.announce(&registry, "x".to_string()).is_none());
}

#[test]
fn call_answer_goes_to_the_caller() {
    let mut registry: ConnectionRegistry<u8> = ConnectionRegistry::new();
    registry.register(oid(ALICE), conn(1));
    let accepted =
        respond_video_call_logic(&registry, oid(BOB), oid(NOTE), oid(ALICE), true).unwrap();
    assert_eq!(accepted.recipient, oid(ALICE));
    assert_eq!(*accepted.handle, 1);
    assert_eq!(
        accepted.message.0,
        format!(
            "{{\"type\":\"video_call_accepted\",\"from\":\"{}\",\"notification_id\":\"{}\"}}",
            BOB, NOTE
        )
    );
    let declined =
        respond_video_call_logic(&registry, oid(BOB), oid(NOTE), oid(ALICE), false).unwrap();
    assert_eq!(
        declined.message.0,
        format!(
            "{{\"type\":\"video_call_declined\",\"from\":\"{}\",\"notification_id\":\"{}\"}}",
            BOB, NOTE
        )
    );
    assert!(respond_video_call_logic(&registry, oid(BOB), oid(NOTE), oid(CAROL), true).is_none());
}

#[test]
fn status_of_a_session() {
    let mut user = User::new("alice", "alice@example.com", "hash");
    assert!(matches!(auth_status(None, None), AuthStatus::Anonymous(r) if r.user_id.is_none() && r.username.is_none()));
    assert!(matches!(auth_status(None, Some(&user)), AuthStatus::Anonymous(_)));
    assert!(matches!(auth_status(Some(oid(ALICE)), None), AuthStatus::Stale(r) if r.user_id.is_none() && r.username.is_none()));
    assert!(matches!(auth_status(Some(oid(ALICE)), Some(&user)), AuthStatus::MissingUserId));
    user.id = Some(oid(ALICE));
    match auth_status(Some(oid(ALICE)), Some(&user)) {
        AuthStatus::Known(response) => {
            assert_eq!(response.user_id, Some(ALICE.to_string()));
            assert_eq!(response.username, Some("alice".to_string()));
        }
        _ => panic!("the user was not recognised"),
    }
}

#[test]
fn reset_token_expires_strictly_before_now() {
    assert!(reset_token_expired(Some(999), 1_000));
    assert!(!reset_token_expired(Some(1_000), 1_000));
    assert!(!reset_token_expired(Some(1_001), 1_000));
    assert!(reset_token_expired(None, 1));
    assert!(!reset_token_expired(None, 0));
    assert!(!reset_token_expired(None, -5));
}

#[test]
fn logout_answer() {
    assert_eq!(logout_user(), "Logged out successfully");
}

#[test]
fn other_participant_is_the_first_who_is_not_the_user() {
    assert_eq!(other_participant(&vec![oid(ALICE), oid(BOB)], oid(ALICE)), Ok(oid(BOB)));
    assert_eq!(other_participant(&vec![oid(BOB), oid(ALICE)], oid(ALICE)), Ok(oid(BOB)));
    assert_eq!(
        other_participant(&vec![oid(ALICE), oid(CAROL), oid(BOB)], oid(ALICE)),
        Ok(oid(CAROL))
    );
    assert_eq!(
        other_participant(&vec![oid(ALICE), oid(ALICE)], oid(ALICE)),
        Err(ChatListError::NoOtherParticipant)
    );
    assert_eq!(other_participant(&vec![], oid(ALICE)), Err(ChatListError::NoOtherParticipant));
}

#[test]
fn guard_lets_logged_in_requests_pass() {
    let guard = AuthMiddlewareFactory.new_transform("service");
    assert_eq!(guard.service, "service");
    assert_eq!(guard.call(&Some(ALICE.to_string())), Admission::Forward);
    assert_eq!(guard.call(&Some(String::new())), Admission::Forward);
    assert_eq!(guard.call(&None), Admission::Unauthorized);
}

#[test]
fn test_webrtc_signaling_handler() {
    let payload = SignalRequest {
        sdp: Some("test sdp".to_string()),
        candidate: Some("test candidate".to_string()),
    };
    let resp = signaling_handler(payload);
    assert_eq!(resp.sdp, Some("test sdp".to_string()));
    assert_eq!(resp.candidate, Some("test candidate".to_string()));
}
