use cphere_backend::object_id::ObjectId;
use cphere_backend::states::connection_registry::{Connection, ConnectionRegistry};
use cphere_backend::websocket::delivery::push_to_user;
use cphere_backend::websocket::relay::{
    handle_video_call_response, handle_webrtc_signaling, relay, RelayOutcome,
};

const ALICE: &str = "65a000000000000000000001";
const BOB: &str = "65a000000000000000000002";

fn oid(text: &str) -> ObjectId {
    ObjectId::parse_str(text).unwrap()
}

fn conn<H>(handle: H) -> Connection<H> {
    Connection { id: 0, handle }
}

fn doc(text: &str) -> serde_json::Value {
    serde_json::from_str(text).unwrap()
}

#[test]
fn push_to_user_reaches_an_online_user() {
    let mut registry: ConnectionRegistry<u32> = ConnectionRegistry::new();
    registry.register(oid(BOB), conn(7));
    let delivery = push_to_user(&registry, oid(BOB), "hello".to_string()).unwrap();
    assert_eq!(delivery.recipient, oid(BOB));
    assert_eq!(*delivery.handle, 7);
    assert_eq!(delivery.message.0, "hello");
}

#[test]
fn push_to_user_skips_an_offline_user() {
    let registry: ConnectionRegistry<u32> = ConnectionRegistry::new();
    assert!(push_to_user(&registry, oid(BOB), "hello".to_string()).is_none());
}

#[test]
fn offer_is_forwarded_as_it_came() {
    let mut registry: ConnectionRegistry<u32> = ConnectionRegistry::new();
    registry.register(oid(ALICE), conn(1));
    registry.register(oid(BOB), conn(2));
    let text = format!(
        "{{\"type\":\"webrtc_offer\",\"target_user_id\":\"{}\",\"payload\":\"sdp...\"}}",
        BOB
    );
    match handle_webrtc_signaling(&doc(&text), &registry) {
        RelayOutcome::Forward(delivery) => {
            assert_eq!(delivery.recipient, oid(BOB));
            assert_eq!(*delivery.handle, 2);
            assert_eq!(delivery.message.0, text);
        }
        _ => panic!("the offer was not forwarded"),
    }
}

#[test]
fn payload_of_any_shape_is_forwarded_untouched() {
    let mut registry: ConnectionRegistry<u32> = ConnectionRegistry::new();
    registry.register(oid(BOB), conn(2));
    let text = format!(
        "{{\"type\":\"webrtc_ice_candidate\",\"target_user_id\":\"{}\",\"payload\":{{\"candidate\":[1,2,{{\"x\":null}}],\"ok\":true}}}}",
        BOB
    );
    match relay(&doc(&text), "target_user_id", &registry) {
        RelayOutcome::Forward(delivery) => {
            assert_eq!(doc(&delivery.message.0), doc(&text));
        }
        _ => panic!("the candidate was not forwarded"),
    }
}

#[test]
fn relay_to_offline_target_is_dropped() {
    let mut registry: ConnectionRegistry<u32> = ConnectionRegistry::new();
    registry.register(oid(ALICE), conn(1));
    let text = format!(
        "{{\"type\":\"webrtc_offer\",\"target_user_id\":\"{}\",\"payload\":\"sdp...\"}}",
        BOB
    );
    assert!(matches!(
        handle_webrtc_signaling(&doc(&text), &registry),
        RelayOutcome::TargetOffline
    ));
    assert!(registry.is_online(oid(ALICE)));
    assert!(!registry.is_online(oid(BOB)));
}

#[test]
fn relay_without_target_is_dropped() {
    let mut registry: ConnectionRegistry<u32> = ConnectionRegistry::new();
    registry.register(oid(BOB), conn(2));
    assert!(matches!(
        handle_webrtc_signaling(&doc("{\"type\":\"webrtc_offer\"}"), &registry),
        RelayOutcome::TargetNotProvided
    ));
    assert!(matches!(
        handle_webrtc_signaling(&doc("{\"target_user_id\":17}"), &registry),
        RelayOutcome::TargetNotProvided
    ));
    assert!(matches!(
        handle_webrtc_signaling(&doc("[\"target_user_id\"]"), &registry),
        RelayOutcome::TargetNotProvided
    ));
}

#[test]
fn relay_with_unreadable_target_is_dropped() {
    let mut registry: ConnectionRegistry<u32> = ConnectionRegistry::new();
    registry.register(oid(BOB), conn(2));
    assert!(matches!(
        handle_webrtc_signaling(&doc("{\"target_user_id\":\"B\"}"), &registry),
        RelayOutcome::InvalidTarget
    ));
}

#[test]
fn call_response_goes_to_the_caller() {
    let mut registry: ConnectionRegistry<u32> = ConnectionRegistry::new();
    registry.register(oid(ALICE), conn(1));
    let text = format!(
        "{{\"type\":\"video_call_accepted\",\"caller_id\":\"{}\",\"target_user_id\":\"{}\"}}",
        ALICE, BOB
    );
    match handle_video_call_response(&doc(&text), &registry) {
        RelayOutcome::Forward(delivery) => {
            assert_eq!(delivery.recipient, oid(ALICE));
            assert_eq!(*delivery.handle, 1);
            assert_eq!(delivery.message.0, text);
        }
        _ => panic!("the response was not forwarded"),
    }
    assert!(matches!(
        handle_video_call_response(&doc("{\"type\":\"video_call_declined\"}"), &registry),
        RelayOutcome::TargetNotProvided
    ));
}
