use vstd::prelude::*;

pub use crate::options::NotificationPresentationOptions;

use crate::notification::{
    lemma_notification_round_trip, notification_decodes_to, notification_encodes_to,
    same_notification, Notification, NotificationPayload,
};
use crate::text::same_text;

verus! {

/// Wraps `UNNotificationResponse` and `UNTextInputNotificationResponse`.
#[derive(Debug, Clone, PartialEq)]
pub struct NotificationResponse {
    /// The action identifier.
    pub action_identifier: String,
    /// The notification.
    pub notification: Notification,
    /// The user text.
    pub user_text: Option<String>,
}

impl NotificationResponse {
    /// Returns whether this response uses the given action identifier, such
    /// as `UNNotificationDefaultActionIdentifier` or
    /// `UNNotificationDismissActionIdentifier`.
    pub fn has_action_identifier(&self, identifier: &str) -> (r: bool)
        ensures
            r == (self.action_identifier@ == identifier@),
    {
        same_text(self.action_identifier.as_str(), identifier)
    }
}

/// A response as the bridge exchanges it.
#[derive(Debug, Clone, PartialEq)]
pub struct NotificationResponsePayload {
    /// The action identifier.
    pub action_identifier: String,
    /// The notification.
    pub notification: NotificationPayload,
    /// The user text.
    pub user_text: Option<String>,
}

/// Whether `p` is the payload that encodes response `r`.
pub open spec fn response_encodes_to(r: NotificationResponse, p: NotificationResponsePayload) -> bool {
    &&& p.action_identifier == r.action_identifier
    &&& notification_encodes_to(r.notification, p.notification)
    &&& p.user_text == r.user_text
}

/// Whether `r` is the response that payload `p` decodes to.
pub open spec fn response_decodes_to(p: NotificationResponsePayload, r: NotificationResponse) -> bool {
    &&& r.action_identifier == p.action_identifier
    &&& notification_decodes_to(p.notification, r.notification)
    &&& r.user_text == p.user_text
}

/// Whether two responses hold the same values.
pub open spec fn same_response(a: NotificationResponse, b: NotificationResponse) -> bool {
    &&& a.action_identifier == b.action_identifier
    &&& same_notification(a.notification, b.notification)
    &&& a.user_text == b.user_text
}

impl NotificationResponsePayload {
    /// Encodes a response for the bridge.
    pub fn from_response(value: NotificationResponse) -> (r: Self)
        ensures
            response_encodes_to(value, r),
            r.action_identifier == value.action_identifier,
            r.user_text == value.user_text,
            r.notification.date == value.notification.date,
            r.notification.request.identifier == value.notification.request.identifier,
    {
        NotificationResponsePayload {
            action_identifier: value.action_identifier,
            notification: NotificationPayload::from_notification(value.notification),
            user_text: value.user_text,
        }
    }

    /// Decodes a response reported by the bridge.
    pub fn into_response(self) -> (r: NotificationResponse)
        ensures
            response_decodes_to(self, r),
            r.action_identifier == self.action_identifier,
            r.user_text == self.user_text,
            r.notification.date == self.notification.date,
            r.notification.request.identifier == self.notification.request.identifier,
    {
        NotificationResponse {
            action_identifier: self.action_identifier,
            notification: self.notification.into_notification(),
            user_text: self.user_text,
        }
    }
}

/// Decoding the payload of a response gives the same response back.
pub proof fn lemma_response_round_trip(
    r: NotificationResponse,
    p: NotificationResponsePayload,
    back: NotificationResponse,
)
    requires
        response_encodes_to(r, p),
        response_decodes_to(p, back),
    ensures
        same_response(back, r),
{
    lemma_notification_round_trip(r.notification, p.notification, back.notification);
}

/// Encoding and decoding a response keep the action identifier, the text the
/// user typed, and the notification's date and request identifier.
pub proof fn lemma_response_keeps_fields(
    r: NotificationResponse,
    p: NotificationResponsePayload,
    q: NotificationResponsePayload,
    back: NotificationResponse,
)
    requires
        response_encodes_to(r, p),
        response_decodes_to(q, back),
    ensures
        p.action_identifier == r.action_identifier,
        p.user_text == r.user_text,
        p.notification.date == r.notification.date,
        back.action_identifier == q.action_identifier,
        back.user_text == q.user_text,
        back.notification.date == q.notification.date,
{
}

} // verus!
