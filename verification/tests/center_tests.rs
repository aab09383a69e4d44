use std::time::{Duration, UNIX_EPOCH};

use usernotifications::center::{CenterEvent, CenterEventPayload};
use usernotifications::content_extension::default_response_option;
use usernotifications::notification::NotificationPayload;
use usernotifications::prelude::{
    Notification, NotificationContent, NotificationContentExtensionMediaPlayPauseButtonType,
    NotificationContentExtensionRect, NotificationContentExtensionResponseOption,
    NotificationContentExtensionTintColor, NotificationRequest, NotificationResponse,
};
use usernotifications::response::NotificationResponsePayload;

fn sample_notification() -> Notification {
    Notification {
        date: UNIX_EPOCH + Duration::from_secs(42),
        request: NotificationRequest::new(
            "event-request".to_string(),
            NotificationContent::new("Title".to_string(), "Body".to_string()),
            None,
        ),
    }
}

fn event(name: &str, with_notification: bool, with_response: bool) -> CenterEventPayload {
    CenterEventPayload {
        event: name.to_string(),
        notification: with_notification
            .then(|| NotificationPayload::from_notification(sample_notification())),
        response: with_response.then(|| {
            NotificationResponsePayload::from_response(NotificationResponse {
                action_identifier: "open".to_string(),
                notification: sample_notification(),
                user_text: None,
            })
        }),
    }
}

#[test]
fn response_events_reach_the_delegate_only_with_a_response() {
    match event("didReceiveNotificationResponse", false, true).into_event() {
        CenterEvent::DidReceiveNotificationResponse(response) => {
            assert_eq!(response.action_identifier, "open");
            assert_eq!(response.notification, sample_notification());
        }
        other => panic!("unexpected event {other:?}"),
    }
    assert_eq!(event("didReceiveNotificationResponse", true, false).into_event(), CenterEvent::Ignored);
}

#[test]
fn settings_events_carry_the_optional_notification() {
    assert_eq!(
        event("openSettingsForNotification", true, false).into_event(),
        CenterEvent::OpenSettingsForNotification(Some(sample_notification()))
    );
    assert_eq!(
        event("openSettingsForNotification", false, true).into_event(),
        CenterEvent::OpenSettingsForNotification(None)
    );
}

#[test]
fn other_events_are_ignored() {
    assert_eq!(event("willPresentNotification", true, true).into_event(), CenterEvent::Ignored);
    assert_eq!(event("", false, false).into_event(), CenterEvent::Ignored);
}

#[test]
fn content_extension_raw_values() {
    assert_eq!(NotificationContentExtensionMediaPlayPauseButtonType::from_raw(0), NotificationContentExtensionMediaPlayPauseButtonType::NoButton);
    assert_eq!(NotificationContentExtensionMediaPlayPauseButtonType::from_raw(1), NotificationContentExtensionMediaPlayPauseButtonType::Default);
    assert_eq!(NotificationContentExtensionMediaPlayPauseButtonType::from_raw(2), NotificationContentExtensionMediaPlayPauseButtonType::Overlay);
    assert_eq!(NotificationContentExtensionMediaPlayPauseButtonType::from_raw(77), NotificationContentExtensionMediaPlayPauseButtonType::NoButton);
    assert_eq!(NotificationContentExtensionMediaPlayPauseButtonType::Overlay.to_raw(), 2);
    assert_eq!(NotificationContentExtensionResponseOption::from_raw(0), NotificationContentExtensionResponseOption::DoNotDismiss);
    assert_eq!(NotificationContentExtensionResponseOption::from_raw(1), NotificationContentExtensionResponseOption::Dismiss);
    assert_eq!(NotificationContentExtensionResponseOption::from_raw(2), NotificationContentExtensionResponseOption::DismissAndForwardAction);
    assert_eq!(NotificationContentExtensionResponseOption::from_raw(3), NotificationContentExtensionResponseOption::DismissAndForwardAction);
    assert_eq!(NotificationContentExtensionResponseOption::Dismiss.to_raw(), 1);
    assert_eq!(default_response_option(), NotificationContentExtensionResponseOption::DismissAndForwardAction);
}

#[test]
fn content_extension_geometry_holds_bit_patterns() {
    let rect = NotificationContentExtensionRect::new(
        1.0f64.to_bits(),
        2.0f64.to_bits(),
        3.0f64.to_bits(),
        4.0f64.to_bits(),
    );
    assert_eq!(f64::from_bits(rect.height.0), 4.0);
    let tint = NotificationContentExtensionTintColor::new(
        0.1f64.to_bits(),
        0.2f64.to_bits(),
        0.3f64.to_bits(),
        1.0f64.to_bits(),
    );
    assert_eq!(f64::from_bits(tint.green.0), 0.2);
}
