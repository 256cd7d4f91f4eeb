//! Notifications on record.

use crate::object_id::ObjectId;
use crate::timestamp::Timestamp;
use vstd::prelude::*;

verus! {

/// A notice from one user to another that waits to be handled.
#[derive(Debug, Clone)]
pub struct Notification {
    /// Set once the store has the notification.
    pub id: Option<ObjectId>,
    pub notification_type: String,
    pub recipient_id: ObjectId,
    pub sender_id: ObjectId,
    pub message: String,
    pub is_handled: bool,
    pub created_at: Timestamp,
}

impl Notification {
    /// A notification that is not persisted and not handled yet.
    pub fn new(notification_type: &str, recipient_id: ObjectId, sender_id: ObjectId, message: &str) -> (notification:
        Notification)
        ensures
            notification.id is None,
            notification.notification_type@ == notification_type@,
            notification.recipient_id == recipient_id,
            notification.sender_id == sender_id,
            notification.message@ == message@,
            !notification.is_handled,
    {
        Notification {
            id: None,
            notification_type: notification_type.to_owned(),
            recipient_id,
            sender_id,
            message: message.to_owned(),
            is_handled: false,
            created_at: Timestamp::now(),
        }
    }

    /// The collection that holds the notifications.
    pub fn collection_name() -> (name: &'static str)
        ensures
            name@ == "notifications"@,
    {
        "notifications"
    }
}

} // verus!
