use vstd::prelude::*;

use crate::request::{
    lemma_request_round_trip, request_decodes_to, request_encodes_to, same_request,
    NotificationRequest, NotificationRequestPayload,
};
use std::time::SystemTime;

verus! {

/// Wraps `UNNotification`: a request and the date it was delivered.
#[derive(Debug, Clone, PartialEq)]
pub struct Notification {
    /// The delivery date.
    pub date: SystemTime,
    /// The request.
    pub request: NotificationRequest,
}

/// A notification as the bridge exchanges it.
#[derive(Debug, Clone, PartialEq)]
pub struct NotificationPayload {
    /// The delivery date.
    pub date: SystemTime,
    /// The request.
    pub request: NotificationRequestPayload,
}

/// Whether `p` is the payload that encodes notification `n`.
pub open spec fn notification_encodes_to(n: Notification, p: NotificationPayload) -> bool {
    &&& p.date == n.date
    &&& request_encodes_to(n.request, p.request)
}

/// Whether `n` is the notification that payload `p` decodes to.
pub open spec fn notification_decodes_to(p: NotificationPayload, n: Notification) -> bool {
    &&& n.date == p.date
    &&& request_decodes_to(p.request, n.request)
}

/// Whether two notifications hold the same values.
pub open spec fn same_notification(a: Notification, b: Notification) -> bool {
    &&& a.date == b.date
    &&& same_request(a.request, b.request)
}

impl NotificationPayload {
    /// Encodes a notification for the bridge.
    pub fn from_notification(value: Notification) -> (r: Self)
        ensures
            notification_encodes_to(value, r),
    {
        NotificationPayload {
            date: value.date,
            request: NotificationRequestPayload::from_request(value.request),
        }
    }

    /// Decodes a notification reported by the bridge.
    pub fn into_notification(self) -> (r: Notification)
        ensures
            notification_decodes_to(self, r),
    {
        Notification { date: self.date, request: self.request.into_request() }
    }
}

/// Decoding the payload of a notification gives the same notification back.
pub proof fn lemma_notification_round_trip(
    n: Notification,
    p: NotificationPayload,
    back: Notification,
)
    requires
        notification_encodes_to(n, p),
        notification_decodes_to(p, back),
    ensures
        same_notification(back, n),
{
    lemma_request_round_trip(n.request, p.request, back.request);
}

/// Decodes a list of delivered notifications reported by the bridge, in
/// order.
pub fn payloads_to_notifications(payloads: Vec<NotificationPayload>) -> (r: Vec<Notification>)
    ensures
        r@.len() == payloads@.len(),
        forall|i: int|
            0 <= i < payloads@.len() ==> notification_decodes_to(payloads@[i], #[trigger] r@[i]),
{
    let ghost src = payloads@;
    let mut out: Vec<Notification> = Vec::new();
    for p in it: payloads.into_iter()
        invariant
            it.seq() == src,
            out@.len() == it.index(),
            forall|j: int| 0 <= j < it.index() ==> notification_decodes_to(src[j], #[trigger] out@[j]),
    {
        out.push(p.into_notification());
    }
    out
}

} // verus!
