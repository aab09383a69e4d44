use vstd::prelude::*;

use crate::notification::{notification_decodes_to, Notification, NotificationPayload};
use crate::response::{response_decodes_to, NotificationResponse, NotificationResponsePayload};
use crate::text::same_text;

verus! {

/// A delegate event as the bridge reports it.
#[derive(Debug, Clone, PartialEq)]
pub struct CenterEventPayload {
    /// `didReceiveNotificationResponse`, `openSettingsForNotification` or
    /// another event name.
    pub event: String,
    /// The notification the event is about.
    pub notification: Option<NotificationPayload>,
    /// The response the event carries.
    pub response: Option<NotificationResponsePayload>,
}

/// What the center delegate is to be told about a bridge event.
#[derive(Debug, Clone, PartialEq)]
pub enum CenterEvent {
    /// Call `did_receive_notification_response` with this response.
    DidReceiveNotificationResponse(NotificationResponse),
    /// Call `open_settings_for_notification` with this notification.
    OpenSettingsForNotification(Option<Notification>),
    /// Tell the delegate nothing.
    Ignored,
}

/// Whether `e` is what the delegate is told about event payload `p`: a
/// response event with its response, a settings event with its optional
/// notification, and nothing for a response event without a response or
/// for any other event.
pub open spec fn center_event_of(p: CenterEventPayload, e: CenterEvent) -> bool {
    if p.event@ == "didReceiveNotificationResponse"@ {
        match p.response {
            Some(rp) => e matches CenterEvent::DidReceiveNotificationResponse(r)
                && response_decodes_to(rp, r),
            None => e is Ignored,
        }
    } else if p.event@ == "openSettingsForNotification"@ {
        &&& e matches CenterEvent::OpenSettingsForNotification(n)
        &&& match p.notification {
            Some(np) => n matches Some(nn) && notification_decodes_to(np, nn),
            None => n is None,
        }
    } else {
        e is Ignored
    }
}

impl CenterEventPayload {
    /// Decides what the delegate is told about a bridge event.
    pub fn into_event(self) -> (r: CenterEvent)
        ensures
            center_event_of(self, r),
            self.event@ == "didReceiveNotificationResponse"@ && self.response is Some ==> (r matches CenterEvent::DidReceiveNotificationResponse(
                resp,
            ) && resp.action_identifier == self.response->Some_0.action_identifier && resp.user_text
                == self.response->Some_0.user_text && resp.notification.date
                == self.response->Some_0.notification.date
                && resp.notification.request.identifier
                == self.response->Some_0.notification.request.identifier),
            self.event@ == "didReceiveNotificationResponse"@ && self.response is None ==> r is Ignored,
            self.event@ == "openSettingsForNotification"@ ==> (r matches CenterEvent::OpenSettingsForNotification(
                n,
            ) && (n is Some <==> self.notification is Some) && (n matches Some(nn) ==> nn.date
                == self.notification->Some_0.date && nn.request.identifier
                == self.notification->Some_0.request.identifier)),
    {
        proof {
            lemma_event_names_distinct();
        }
        if same_text(self.event.as_str(), "didReceiveNotificationResponse") {
            match self.response {
                Some(rp) => CenterEvent::DidReceiveNotificationResponse(rp.into_response()),
                None => CenterEvent::Ignored,
            }
        } else if same_text(self.event.as_str(), "openSettingsForNotification") {
            let notification = match self.notification {
                Some(np) => Some(np.into_notification()),
                None => None,
            };
            CenterEvent::OpenSettingsForNotification(notification)
        } else {
            CenterEvent::Ignored
        }
    }
}

/// A response event hands the delegate the decoding of the event's own
/// response: the same action identifier, the same text the user typed, and
/// the same notification date and request identifier.
pub proof fn lemma_response_event_carries_response(p: CenterEventPayload, e: CenterEvent)
    requires
        center_event_of(p, e),
        p.event@ == "didReceiveNotificationResponse"@,
        p.response is Some,
    ensures
        e matches CenterEvent::DidReceiveNotificationResponse(r) && r.action_identifier
            == p.response->Some_0.action_identifier && r.user_text == p.response->Some_0.user_text
            && r.notification.date == p.response->Some_0.notification.date
            && r.notification.request.identifier
            == p.response->Some_0.notification.request.identifier,
{
}

/// A settings event hands the delegate the event's own notification, when
/// there is one.
pub proof fn lemma_settings_event_carries_notification(p: CenterEventPayload, e: CenterEvent)
    requires
        center_event_of(p, e),
        p.event@ == "openSettingsForNotification"@,
    ensures
        e matches CenterEvent::OpenSettingsForNotification(n) && (n is Some <==> p.notification is Some)
            && (n matches Some(nn) ==> nn.date == p.notification->Some_0.date
            && nn.request.identifier == p.notification->Some_0.request.identifier),
{
    lemma_event_names_distinct();
}

/// The two event names of the delegate are distinct.
pub proof fn lemma_event_names_distinct()
    ensures
        "didReceiveNotificationResponse"@ != "openSettingsForNotification"@,
{
    reveal_strlit("didReceiveNotificationResponse");
    reveal_strlit("openSettingsForNotification");
    assert("didReceiveNotificationResponse"@.len() != "openSettingsForNotification"@.len());
}

} // verus!
