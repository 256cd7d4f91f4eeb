//! Call signaling between two connected users: a document is forwarded to
//! the user it names, as it came, and dropped when that user is offline.

use crate::json::{json_strings, json_text, render_document, string_member};
use crate::object_id::ObjectId;
use crate::states::connection_registry::{Connection, ConnectionRegistry};
use crate::websocket::delivery::{push_to_user, Delivery};
use vstd::prelude::*;

verus! {

/// What became of a signaling document.
pub enum RelayOutcome<'a, H> {
    /// The target is online: the document goes to its connection.
    Forward(Delivery<'a, H>),
    /// The document names no target.
    TargetNotProvided,
    /// The target named is no identifier.
    InvalidTarget,
    /// The target is offline: nothing is sent, and nobody is told.
    TargetOffline,
}

/// What relaying `doc` to the user named in its member `target_member` gives.
pub open spec fn relay_outcome<H>(
    outcome: RelayOutcome<H>,
    doc: serde_json::Value,
    target_member: Seq<char>,
    registry: Map<ObjectId, Connection<H>>,
) -> bool {
    let members = json_strings(doc);
    if !members.contains_key(target_member) {
        outcome is TargetNotProvided
    } else {
        match ObjectId::parsed(members[target_member]) {
            None => outcome is InvalidTarget,
            Some(target) => if registry.contains_key(target) {
                &&& outcome matches RelayOutcome::Forward(delivery)
                &&& delivery.carries(registry, target, json_text(doc))
            } else {
                outcome is TargetOffline
            },
        }
    }
}

/// Forwards `doc` to the live connection of the user that its member
/// `target_member` names. The document is not looked into any further.
pub fn relay<'a, H>(
    doc: &serde_json::Value,
    target_member: &str,
    registry: &'a ConnectionRegistry<H>,
) -> (outcome: RelayOutcome<'a, H>)
    ensures
        relay_outcome(outcome, *doc, target_member@, registry@),
{
    match string_member(doc, target_member) {
        None => RelayOutcome::TargetNotProvided,
        Some(target_text) => match ObjectId::parse_str(target_text.as_str()) {
            None => RelayOutcome::InvalidTarget,
            Some(target) => match push_to_user(registry, target, render_document(doc)) {
                Some(delivery) => RelayOutcome::Forward(delivery),
                None => RelayOutcome::TargetOffline,
            },
        },
    }
}

/// Relays a call offer, answer or ICE candidate to the user named in
/// `target_user_id`.
pub fn handle_webrtc_signaling<'a, H>(
    msg_json: &serde_json::Value,
    registry: &'a ConnectionRegistry<H>,
) -> (outcome: RelayOutcome<'a, H>)
    ensures
        relay_outcome(outcome, *msg_json, "target_user_id"@, registry@),
{
    relay(msg_json, "target_user_id", registry)
}

/// Relays the answer to a call, accepted or declined, to the caller named in
/// `caller_id`.
pub fn handle_video_call_response<'a, H>(
    msg_json: &serde_json::Value,
    registry: &'a ConnectionRegistry<H>,
) -> (outcome: RelayOutcome<'a, H>)
    ensures
        relay_outcome(outcome, *msg_json, "caller_id"@, registry@),
{
    relay(msg_json, "caller_id", registry)
}

/// A document addressed to a user who is offline is dropped without a push,
/// whatever else it holds.
pub proof fn lemma_relay_to_offline_is_dropped<H>(
    outcome: RelayOutcome<H>,
    doc: serde_json::Value,
    target_member: Seq<char>,
    registry: Map<ObjectId, Connection<H>>,
    target: ObjectId,
)
    requires
        relay_outcome(outcome, doc, target_member, registry),
        json_strings(doc).contains_key(target_member),
        ObjectId::parsed(json_strings(doc)[target_member]) == Some(target),
        !registry.contains_key(target),
    ensures
        outcome is TargetOffline,
{
}

} // verus!
