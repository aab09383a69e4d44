use usernotifications::F64Bits;
use std::time::{Duration, UNIX_EPOCH};

use usernotifications::prelude::{
    CalendarTrigger, DateComponents, NotificationContent, NotificationRequest, NotificationTrigger,
    TimeIntervalTrigger, UserNotificationsError,
};
use usernotifications::request::NotificationRequestPayload;
use usernotifications::trigger::{interval_is_valid, NotificationTriggerPayload};

#[test]
fn invalid_time_intervals_are_errors_instead_of_objc_exceptions() {
    for seconds in [0.0, -5.0, f64::NAN, f64::INFINITY] {
        let error = NotificationTrigger::time_interval(f64::to_bits(seconds), false)
            .validate()
            .expect_err("an invalid interval must be rejected");
        assert!(matches!(error, UserNotificationsError::InvalidArgument(_)));
    }

    let request = NotificationRequest::new(
        "invalid-interval".to_string(),
        NotificationContent::new("Title".to_string(), "Body".to_string()),
        Some(NotificationTrigger::time_interval(0.0f64.to_bits(), false)),
    );
    assert!(matches!(request.validate(), Err(UserNotificationsError::InvalidArgument(_))));
}

#[test]
fn interval_validity_at_the_edges() {
    assert!(interval_is_valid(90.0f64.to_bits(), false));
    assert!(interval_is_valid(60.0f64.to_bits(), true));
    assert!(!interval_is_valid(59.999f64.to_bits(), true));
    assert!(interval_is_valid(59.999f64.to_bits(), false));
    assert!(!interval_is_valid(30.0f64.to_bits(), true));
    assert!(interval_is_valid(f64::MIN_POSITIVE.to_bits(), false));
    assert!(interval_is_valid(1u64, false));
    assert!(interval_is_valid(f64::MAX.to_bits(), true));
    assert!(!interval_is_valid((-0.0f64).to_bits(), false));
    assert!(!interval_is_valid(f64::NEG_INFINITY.to_bits(), false));
    assert!(!interval_is_valid((-90.0f64).to_bits(), true));
    assert!(!interval_is_valid(f64::INFINITY.to_bits(), true));
    assert!(!interval_is_valid(f64::NAN.to_bits(), false));
}

#[test]
fn only_time_interval_triggers_are_checked() {
    assert_eq!(NotificationTrigger::push().validate(), Ok(()));
    assert_eq!(
        NotificationTrigger::calendar(DateComponents::new().with_hour(8), true).validate(),
        Ok(())
    );
    assert_eq!(NotificationTrigger::time_interval(90.0f64.to_bits(), false).validate(), Ok(()));
    let request = NotificationRequest::new(
        "no-trigger".to_string(),
        NotificationContent::new("T".to_string(), "B".to_string()),
        None,
    );
    assert_eq!(request.validate(), Ok(()));
}

#[test]
fn date_components_builders_set_one_field_each() {
    let components = DateComponents::new()
        .with_year(2026)
        .with_month(5)
        .with_day(17)
        .with_hour(8)
        .with_minute(15)
        .with_second(30)
        .with_weekday(2);
    assert_eq!(
        components,
        DateComponents {
            year: Some(2026),
            month: Some(5),
            day: Some(17),
            hour: Some(8),
            minute: Some(15),
            second: Some(30),
            weekday: Some(2),
        }
    );
    assert_eq!(DateComponents::new(), DateComponents::default());
    assert_eq!(DateComponents::new().with_hour(8).with_hour(9).hour, Some(9));
}

#[test]
fn trigger_constructors() {
    assert_eq!(
        NotificationTrigger::time_interval(90.0f64.to_bits(), true),
        NotificationTrigger::TimeInterval(TimeIntervalTrigger {
            time_interval: F64Bits(90.0f64.to_bits()),
            repeats: true,
            next_trigger_date: None,
        })
    );
    let components = DateComponents::new().with_hour(8).with_minute(15);
    assert_eq!(
        NotificationTrigger::calendar(components.clone(), false),
        NotificationTrigger::Calendar(CalendarTrigger::new(components, false))
    );
    assert_eq!(NotificationTrigger::push(), NotificationTrigger::Push);
}

#[test]
fn trigger_payload_round_trips_every_variant() {
    let date = UNIX_EPOCH + Duration::from_secs(5_000);
    let triggers = vec![
        NotificationTrigger::TimeInterval(TimeIntervalTrigger {
            time_interval: F64Bits(120.0f64.to_bits()),
            repeats: true,
            next_trigger_date: Some(date),
        }),
        NotificationTrigger::Calendar(CalendarTrigger {
            date_components: DateComponents::new().with_hour(8).with_minute(15),
            repeats: true,
            next_trigger_date: None,
        }),
        NotificationTrigger::Push,
        NotificationTrigger::Unknown { class_name: "UNLocationNotificationTrigger".to_string(), repeats: true },
    ];
    let kinds = ["timeInterval", "calendar", "push", "unknown"];
    for (trigger, kind) in triggers.into_iter().zip(kinds) {
        let payload = NotificationTriggerPayload::from_trigger(trigger.clone());
        assert_eq!(payload.kind, kind);
        assert_eq!(payload.into_trigger(), trigger);
    }
    let push = NotificationTriggerPayload::from_trigger(NotificationTrigger::Push);
    assert_eq!(push.repeats, Some(false));
}

#[test]
fn trigger_payload_fills_in_missing_fields() {
    let bare = |kind: &str| NotificationTriggerPayload {
        kind: kind.to_string(),
        repeats: None,
        time_interval: None,
        date_components: None,
        next_trigger_date: None,
        class_name: None,
    };
    assert_eq!(
        bare("timeInterval").into_trigger(),
        NotificationTrigger::TimeInterval(TimeIntervalTrigger {
            time_interval: F64Bits(0),
            repeats: false,
            next_trigger_date: None,
        })
    );
    assert_eq!(
        bare("calendar").into_trigger(),
        NotificationTrigger::Calendar(CalendarTrigger::new(DateComponents::new(), false))
    );
    assert_eq!(bare("push").into_trigger(), NotificationTrigger::Push);
    assert_eq!(
        bare("location").into_trigger(),
        NotificationTrigger::Unknown {
            class_name: "UNNotificationTrigger".to_string(),
            repeats: false,
        }
    );
}

#[test]
fn request_payload_round_trip_preserves_values() {
    let request = NotificationRequest::new(
        "request-id".to_string(),
        NotificationContent::new("Title".to_string(), "Body".to_string())
            .with_subtitle("Subtitle".to_string()),
        Some(NotificationTrigger::time_interval(60.0f64.to_bits(), false)),
    );
    let payload = NotificationRequestPayload::from_request(request.clone());
    assert_eq!(payload.identifier, "request-id");
    assert!(payload.trigger.is_some());
    assert_eq!(payload.into_request(), request);
}
