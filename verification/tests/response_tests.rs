use std::time::{Duration, UNIX_EPOCH};

use usernotifications::notification::NotificationPayload;
use usernotifications::prelude::{
    Notification, NotificationContent, NotificationPresentationOptions, NotificationRequest,
    NotificationResponse, NotificationTrigger,
};
use usernotifications::response::NotificationResponsePayload;

#[test]
fn notification_presentation_options_round_trip_bits() {
    let options = NotificationPresentationOptions::BADGE()
        | NotificationPresentationOptions::SOUND()
        | NotificationPresentationOptions::BANNER();
    let roundtrip = NotificationPresentationOptions::from_bits(options.bits());

    assert_eq!(roundtrip.bits(), options.bits());
    assert!(roundtrip.contains(NotificationPresentationOptions::BADGE()));
    assert!(roundtrip.contains(NotificationPresentationOptions::SOUND()));
    assert!(roundtrip.contains(NotificationPresentationOptions::BANNER()));
    assert!(!roundtrip.contains(NotificationPresentationOptions::ALERT()));
}

#[test]
fn notification_presentation_options_none_is_empty() {
    let options = NotificationPresentationOptions::NONE();

    assert_eq!(options.bits(), 0);
    assert!(!options.contains(NotificationPresentationOptions::BADGE()));
    assert!(!options.contains(NotificationPresentationOptions::LIST()));
}

#[test]
fn presentation_option_flags_have_documented_bits() {
    assert_eq!(NotificationPresentationOptions::BADGE().bits(), 1);
    assert_eq!(NotificationPresentationOptions::SOUND().bits(), 2);
    assert_eq!(NotificationPresentationOptions::ALERT().bits(), 4);
    assert_eq!(NotificationPresentationOptions::LIST().bits(), 8);
    assert_eq!(NotificationPresentationOptions::BANNER().bits(), 16);
    let mut options = NotificationPresentationOptions::LIST();
    options |= NotificationPresentationOptions::BADGE();
    assert_eq!(options.bits(), 9);
    assert!(options.contains(NotificationPresentationOptions::NONE()));
}

fn sample_response(action_identifier: &str) -> NotificationResponse {
    NotificationResponse {
        action_identifier: action_identifier.to_string(),
        notification: Notification {
            date: UNIX_EPOCH + Duration::from_secs(1_234),
            request: NotificationRequest::new(
                "request-id".to_string(),
                NotificationContent::new("Title".to_string(), "Body".to_string()),
                Some(NotificationTrigger::time_interval(60.0f64.to_bits(), false)),
            ),
        },
        user_text: Some("hello".to_string()),
    }
}

#[test]
fn response_matches_only_its_own_action_identifier() {
    let response = sample_response("com.apple.UNNotificationDefaultActionIdentifier");
    assert!(response.has_action_identifier("com.apple.UNNotificationDefaultActionIdentifier"));
    assert!(!response.has_action_identifier("com.apple.UNNotificationDismissActionIdentifier"));
    assert!(!response.has_action_identifier(""));
}

#[test]
fn response_payload_round_trip_preserves_values() {
    let response = sample_response("reply");
    let payload = NotificationResponsePayload::from_response(response.clone());
    assert_eq!(payload.action_identifier, "reply");
    assert_eq!(payload.user_text.as_deref(), Some("hello"));
    assert_eq!(payload.notification.date, UNIX_EPOCH + Duration::from_secs(1_234));
    assert_eq!(payload.clone().into_response(), response);

    let notification = response.notification.clone();
    let back = NotificationPayload::from_notification(notification.clone()).into_notification();
    assert_eq!(back, notification);
}
