//! Notifications as the request handlers see them.

use crate::models::notification_model::Notification;
use crate::models::user_model::User;
use crate::object_id::{hex_text, ObjectId};
use crate::timestamp::Timestamp;
use vstd::prelude::*;

verus! {

/// One line of a user's list of notifications.
pub struct NotificationSummary {
    pub id: String,
    pub notification_type: String,
    pub sender_user_id: String,
    pub sender_username: String,
    pub message: String,
    pub timestamp: Timestamp,
}

/// The name under which `sender` goes: the name of the last of `users` with
/// that identifier, and `Unknown User` where there is none.
pub open spec fn sender_name(users: Seq<User>, sender: ObjectId) -> Seq<char>
    decreases users.len(),
{
    if users.len() == 0 {
        "Unknown User"@
    } else if users.last().id == Some(sender) {
        users.last().username@
    } else {
        sender_name(users.drop_last(), sender)
    }
}

/// Looks up the name under which `sender` goes.
pub fn find_sender_name(users: &Vec<User>, sender: ObjectId) -> (name: String)
    ensures
        name@ == sender_name(users@, sender),
{
    let mut i: usize = users.len();
    assert(users@.subrange(0, users@.len() as int) =~= users@);
    while i > 0
        invariant
            i <= users@.len(),
            sender_name(users@, sender) == sender_name(users@.subrange(0, i as int), sender),
        decreases i,
    {
        proof {
            let upto = users@.subrange(0, i as int);
            assert(upto.last() == users@[i - 1]);
            assert(upto.drop_last() =~= users@.subrange(0, i - 1));
        }
        i -= 1;
        match users[i].id {
            Some(id) => {
                if id == sender {
                    return users[i].username.clone();
                }
            },
            None => {},
        }
    }
    assert(users@.subrange(0, 0) =~= Seq::<User>::empty());
    "Unknown User".to_owned()
}

impl NotificationSummary {
    /// Whether the summary is the line for `notification`, with the sender
    /// named from `users`. A notification without an identifier is listed
    /// under a newly generated one.
    pub open spec fn describes(self, notification: Notification, users: Seq<User>) -> bool {
        &&& notification.id matches Some(id) ==> self.id@ == hex_text(id.bytes())
        &&& self.notification_type@ == notification.notification_type@
        &&& self.sender_user_id@ == hex_text(notification.sender_id.bytes())
        &&& self.sender_username@ == sender_name(users, notification.sender_id)
        &&& self.message@ == notification.message@
        &&& self.timestamp == notification.created_at
    }
}

/// Writes the list of a user's notifications, one line each and in order,
/// with the senders named from `users`.
pub fn get_user_notifications(notifications: &Vec<Notification>, users: &Vec<User>) -> (summaries:
    Vec<NotificationSummary>)
    ensures
        summaries@.len() == notifications@.len(),
        forall|i: int|
            0 <= i < summaries@.len() ==> (#[trigger] summaries@[i]).describes(
                notifications@[i],
                users@,
            ),
{
    let mut summaries: Vec<NotificationSummary> = Vec::new();
    let mut i: usize = 0;
    while i < notifications.len()
        invariant
            i <= notifications@.len(),
            summaries@.len() == i,
            forall|j: int|
                0 <= j < summaries@.len() ==> (#[trigger] summaries@[j]).describes(
                    notifications@[j],
                    users@,
                ),
        decreases notifications@.len() - i,
    {
        let notification = &notifications[i];
        let id = match notification.id {
            Some(id) => id,
            None => ObjectId::new(),
        };
        summaries.push(
            NotificationSummary {
                id: id.to_hex(),
                notification_type: notification.notification_type.clone(),
                sender_user_id: notification.sender_id.to_hex(),
                sender_username: find_sender_name(users, notification.sender_id),
                message: notification.message.clone(),
                timestamp: notification.created_at,
            },
        );
        i += 1;
    }
    summaries
}

} // verus!
