use vstd::prelude::*;

use crate::content::NotificationContent;
use crate::content_payload::{
    content_decodes_to, content_encodes_to, lemma_content_round_trip, same_content,
    NotificationContentPayload,
};
use crate::error::UserNotificationsError;
use crate::trigger::{
    lemma_trigger_round_trip, spec_invalid_interval_message, trigger_decodes_to,
    trigger_encodes_to, NotificationTrigger, NotificationTriggerPayload,
};

verus! {

/// Wraps `UNNotificationRequest`.
#[derive(Debug, Clone, PartialEq)]
pub struct NotificationRequest {
    /// The identifier.
    pub identifier: String,
    /// The content.
    pub content: NotificationContent,
    /// The trigger.
    pub trigger: Option<NotificationTrigger>,
}

impl NotificationRequest {
    /// Creates a new notification request.
    pub fn new(
        identifier: String,
        content: NotificationContent,
        trigger: Option<NotificationTrigger>,
    ) -> (r: Self)
        ensures
            r == (NotificationRequest { identifier, content, trigger }),
    {
        NotificationRequest { identifier, content, trigger }
    }

    /// Whether the framework accepts this request: it has no trigger or a
    /// valid one.
    pub open spec fn spec_is_valid(&self) -> bool {
        match self.trigger {
            Some(t) => t.spec_is_valid(),
            None => true,
        }
    }

    /// Checks the request before it is handed to the framework.
    pub fn validate(&self) -> (r: Result<(), UserNotificationsError>)
        ensures
            self.spec_is_valid() ==> r == Ok::<(), UserNotificationsError>(()),
            !self.spec_is_valid() ==> (r matches Err(UserNotificationsError::InvalidArgument(m))
                && m@ == spec_invalid_interval_message()),
    {
        match &self.trigger {
            Some(t) => t.validate(),
            None => Ok(()),
        }
    }
}

/// A request as the bridge exchanges it.
#[derive(Debug, Clone, PartialEq)]
pub struct NotificationRequestPayload {
    /// The identifier.
    pub identifier: String,
    /// The content.
    pub content: NotificationContentPayload,
    /// The trigger.
    pub trigger: Option<NotificationTriggerPayload>,
}

/// Whether `p` is the payload that encodes request `r`.
pub open spec fn request_encodes_to(r: NotificationRequest, p: NotificationRequestPayload) -> bool {
    &&& p.identifier == r.identifier
    &&& content_encodes_to(r.content, p.content)
    &&& match r.trigger {
        Some(t) => p.trigger matches Some(pt) && trigger_encodes_to(t, pt),
        None => p.trigger is None,
    }
}

/// Whether `r` is the request that payload `p` decodes to.
pub open spec fn request_decodes_to(p: NotificationRequestPayload, r: NotificationRequest) -> bool {
    &&& r.identifier == p.identifier
    &&& content_decodes_to(p.content, r.content)
    &&& match p.trigger {
        Some(pt) => r.trigger matches Some(t) && trigger_decodes_to(pt, t),
        None => r.trigger is None,
    }
}

/// Whether two requests hold the same values.
pub open spec fn same_request(a: NotificationRequest, b: NotificationRequest) -> bool {
    &&& a.identifier == b.identifier
    &&& same_content(a.content, b.content)
    &&& a.trigger == b.trigger
}

impl NotificationRequestPayload {
    /// Encodes a request for the bridge.
    pub fn from_request(value: NotificationRequest) -> (r: Self)
        ensures
            request_encodes_to(value, r),
    {
        let trigger = match value.trigger {
            Some(t) => Some(NotificationTriggerPayload::from_trigger(t)),
            None => None,
        };
        NotificationRequestPayload {
            identifier: value.identifier,
            content: NotificationContentPayload::from_content(value.content),
            trigger,
        }
    }

    /// Decodes a request reported by the bridge.
    pub fn into_request(self) -> (r: NotificationRequest)
        ensures
            request_decodes_to(self, r),
    {
        let trigger = match self.trigger {
            Some(t) => Some(t.into_trigger()),
            None => None,
        };
        NotificationRequest {
            identifier: self.identifier,
            content: self.content.into_content(),
            trigger,
        }
    }
}

/// Decoding the payload of a request gives the same request back.
pub proof fn lemma_request_round_trip(
    r: NotificationRequest,
    p: NotificationRequestPayload,
    back: NotificationRequest,
)
    requires
        request_encodes_to(r, p),
        request_decodes_to(p, back),
    ensures
        same_request(back, r),
{
    lemma_content_round_trip(r.content, p.content, back.content);
    if let Some(t) = r.trigger {
        lemma_trigger_round_trip(t, p.trigger->Some_0, back.trigger->Some_0);
    }
}

/// Decodes a list of requests reported by the bridge, in order.
pub fn payloads_to_requests(payloads: Vec<NotificationRequestPayload>) -> (r: Vec<
    NotificationRequest,
>)
    ensures
        r@.len() == payloads@.len(),
        forall|i: int|
            0 <= i < payloads@.len() ==> request_decodes_to(payloads@[i], #[trigger] r@[i]),
{
    let ghost src = payloads@;
    let mut out: Vec<NotificationRequest> = Vec::new();
    for p in it: payloads.into_iter()
        invariant
            it.seq() == src,
            out@.len() == it.index(),
            forall|j: int| 0 <= j < it.index() ==> request_decodes_to(src[j], #[trigger] out@[j]),
    {
        out.push(p.into_request());
    }
    out
}

} // verus!
