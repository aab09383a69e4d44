use usernotifications::F32Bits;
use serde_json::Value;
use usernotifications::content_payload::{NotificationContentPayload, NotificationSoundPayload};
use usernotifications::prelude::{
    LocalizedNotificationString, NotificationAttachment, NotificationAttachmentOptions,
    NotificationAttributedMessageContext, NotificationContent, NotificationContentProviding,
    NotificationInterruptionLevel, NotificationMessagePerson, NotificationMessagePersonHandleType,
    NotificationMessageType, NotificationSound,
};

fn s(text: &str) -> String {
    text.to_string()
}

#[test]
fn localized_notification_string_round_trip_preserves_key_and_arguments() {
    let localized = LocalizedNotificationString::new(s("TITLE_KEY"))
        .with_argument(Value::from("Alex"))
        .with_argument(Value::from(3));

    // The JSON object form of the type: its fields by name.
    let mut object = serde_json::Map::new();
    object.insert(s("key"), Value::from(localized.key.clone()));
    object.insert(s("arguments"), Value::Array(localized.arguments.clone()));
    let encoded = serde_json::to_string(&Value::Object(object)).unwrap();
    assert_eq!(encoded, r#"{"arguments":["Alex",3],"key":"TITLE_KEY"}"#);

    let decoded: Value = serde_json::from_str(&encoded).unwrap();
    let roundtrip = LocalizedNotificationString {
        key: decoded["key"].as_str().unwrap().to_string(),
        arguments: decoded["arguments"].as_array().unwrap().clone(),
    };

    assert_eq!(roundtrip, localized);
    assert_eq!(roundtrip.key, "TITLE_KEY");
    assert_eq!(roundtrip.arguments, vec![Value::from("Alex"), Value::from(3)]);
}

#[test]
fn notification_content_new_sets_expected_defaults() {
    let content = NotificationContent::new(s("Title"), s("Body"));

    assert_eq!(content.title, "Title");
    assert_eq!(content.body, "Body");
    assert_eq!(content.summary_argument_count, 1);
    assert_eq!(content.subtitle, "");
    assert_eq!(content.category_identifier, "");
    assert_eq!(content.thread_identifier, "");
    assert_eq!(content.summary_argument, "");
    assert!(content.badge.is_none());
    assert!(content.user_info.is_none());
    assert!(content.sound.is_none());
    assert!(content.attachments.is_empty());
    assert!(content.interruption_level.is_none());
    assert!(content.relevance_score.is_none());
    assert!(content.filter_criteria.is_none());
    assert!(content.localized_title.is_none());
    assert!(content.localized_subtitle.is_none());
    assert!(content.localized_body.is_none());
    assert!(content.localized_summary_argument.is_none());
}

#[test]
fn notification_content_builder_sets_expected_fields() {
    let localized_title = LocalizedNotificationString::new(s("TITLE"));
    let localized_subtitle =
        LocalizedNotificationString::new(s("SUBTITLE")).with_argument(Value::from("Team"));
    let localized_body = LocalizedNotificationString::new(s("BODY")).with_argument(Value::from(2));
    let localized_summary_argument = LocalizedNotificationString::new(s("SUMMARY"));
    let user_info: Value = serde_json::from_str("{\"unread\": 7}").unwrap();

    let content = NotificationContent::new(s("Title"), s("Body"))
        .with_subtitle(s("Subtitle"))
        .with_badge(7)
        .with_category_identifier(s("messages"))
        .with_thread_identifier(s("thread-1"))
        .with_user_info(user_info.clone())
        .with_sound(NotificationSound::Named(s("ding.aiff")))
        .with_summary_argument(s("Messages"))
        .with_summary_argument_count(7)
        .with_interruption_level(NotificationInterruptionLevel::TimeSensitive)
        .with_relevance_score(0.5f64.to_bits())
        .with_filter_criteria(s("conversation"))
        .with_localized_title(localized_title.clone())
        .with_localized_subtitle(localized_subtitle.clone())
        .with_localized_body(localized_body.clone())
        .with_localized_summary_argument(localized_summary_argument.clone());

    assert_eq!(content.subtitle, "Subtitle");
    assert_eq!(content.badge, Some(7));
    assert_eq!(content.category_identifier, "messages");
    assert_eq!(content.thread_identifier, "thread-1");
    assert_eq!(content.user_info, Some(user_info));
    assert_eq!(content.sound, Some(NotificationSound::Named(s("ding.aiff"))));
    assert_eq!(content.summary_argument, "Messages");
    assert_eq!(content.summary_argument_count, 7);
    assert_eq!(
        content.interruption_level,
        Some(NotificationInterruptionLevel::TimeSensitive),
    );
    assert!(matches!(
        content.relevance_score.map(|score| f64::from_bits(score.0)),
        Some(score) if (score - 0.5).abs() < f64::EPSILON,
    ));
    assert_eq!(content.filter_criteria.as_deref(), Some("conversation"));
    assert_eq!(content.localized_title, Some(localized_title));
    assert_eq!(content.localized_subtitle, Some(localized_subtitle));
    assert_eq!(content.localized_body, Some(localized_body));
    assert_eq!(content.localized_summary_argument, Some(localized_summary_argument));
}

#[test]
fn notification_content_payload_round_trip_preserves_values() {
    let user_info: Value = serde_json::from_str("{\"id\": 42}").unwrap();
    let content = NotificationContent::new(s("Title"), s("Body"))
        .with_subtitle(s("Subtitle"))
        .with_badge(3)
        .with_category_identifier(s("inbox"))
        .with_thread_identifier(s("thread-42"))
        .with_user_info(user_info)
        .with_sound(NotificationSound::CriticalNamed {
            name: s("alert.aiff"),
            volume: Some(F32Bits(0.75f32.to_bits())),
        })
        .with_summary_argument(s("Inbox"))
        .with_summary_argument_count(3)
        .with_interruption_level(NotificationInterruptionLevel::Critical)
        .with_relevance_score(1.0f64.to_bits())
        .with_filter_criteria(s("important"))
        .with_localized_title(
            LocalizedNotificationString::new(s("TITLE")).with_argument(Value::from("Alex")),
        )
        .with_localized_subtitle(LocalizedNotificationString::new(s("SUBTITLE")))
        .with_localized_body(
            LocalizedNotificationString::new(s("BODY")).with_argument(Value::from(1)),
        )
        .with_localized_summary_argument(LocalizedNotificationString::new(s("SUMMARY")));

    let roundtrip = NotificationContentPayload::from_content(content.clone()).into_content();

    assert_eq!(roundtrip, content);
}

#[test]
fn content_payload_carries_raw_interruption_level_and_attachments() {
    let attachment = NotificationAttachment::new(
        s("preview"),
        s("/tmp/preview.png"),
        NotificationAttachmentOptions::new().with_type_hint(s("public.png")),
    );
    let content = NotificationContent::new(s("T"), s("B"))
        .with_interruption_level(NotificationInterruptionLevel::Passive)
        .with_attachment(attachment.clone())
        .with_attachment(attachment.clone());
    let payload = NotificationContentPayload::from_content(content.clone());
    assert_eq!(payload.interruption_level, Some(0));
    assert_eq!(payload.attachments.len(), 2);
    assert_eq!(payload.attachments[1].file_path, "/tmp/preview.png");
    assert_eq!(payload.clone().into_content(), content);

    let mut odd = payload;
    odd.interruption_level = Some(17);
    assert_eq!(
        odd.into_content().interruption_level,
        Some(NotificationInterruptionLevel::Active)
    );
}

#[test]
fn with_attachments_replaces_and_with_attachment_appends() {
    let a = NotificationAttachment::new(s("a"), s("/a"), NotificationAttachmentOptions::new());
    let b = NotificationAttachment::new(s("b"), s("/b"), NotificationAttachmentOptions::new());
    let content = NotificationContent::new(s("T"), s("B"))
        .with_attachment(a.clone())
        .with_attachments(vec![b.clone()])
        .with_attachment(a.clone());
    assert_eq!(content.attachments, vec![b, a]);
}

#[test]
fn interruption_level_raw_values() {
    assert_eq!(NotificationInterruptionLevel::from_raw(0), NotificationInterruptionLevel::Passive);
    assert_eq!(NotificationInterruptionLevel::from_raw(1), NotificationInterruptionLevel::Active);
    assert_eq!(
        NotificationInterruptionLevel::from_raw(2),
        NotificationInterruptionLevel::TimeSensitive
    );
    assert_eq!(NotificationInterruptionLevel::from_raw(3), NotificationInterruptionLevel::Critical);
    assert_eq!(NotificationInterruptionLevel::from_raw(4), NotificationInterruptionLevel::Active);
    assert_eq!(NotificationInterruptionLevel::Critical.to_raw(), 3);
    for level in [
        NotificationInterruptionLevel::Passive,
        NotificationInterruptionLevel::Active,
        NotificationInterruptionLevel::TimeSensitive,
        NotificationInterruptionLevel::Critical,
    ] {
        assert_eq!(NotificationInterruptionLevel::from_raw(level.to_raw()), level);
    }
}

#[test]
fn message_enums_raw_values() {
    assert_eq!(
        NotificationMessagePersonHandleType::from_raw(1),
        NotificationMessagePersonHandleType::EmailAddress
    );
    assert_eq!(
        NotificationMessagePersonHandleType::from_raw(2),
        NotificationMessagePersonHandleType::PhoneNumber
    );
    assert_eq!(
        NotificationMessagePersonHandleType::from_raw(9),
        NotificationMessagePersonHandleType::Unknown
    );
    assert_eq!(NotificationMessageType::from_raw(1), NotificationMessageType::Text);
    assert_eq!(NotificationMessageType::from_raw(2), NotificationMessageType::Audio);
    assert_eq!(NotificationMessageType::from_raw(0), NotificationMessageType::Unknown);
    assert_eq!(NotificationMessageType::from_raw(-4), NotificationMessageType::Unknown);
    assert_eq!(NotificationMessageType::Audio.to_raw(), 2);
    assert_eq!(NotificationMessagePersonHandleType::PhoneNumber.to_raw(), 2);
}

#[test]
fn sound_payload_round_trips_every_variant() {
    let sounds = vec![
        NotificationSound::Default,
        NotificationSound::DefaultCritical,
        NotificationSound::DefaultCriticalWithVolume(F32Bits(0.25f32.to_bits())),
        NotificationSound::Named(s("ding.aiff")),
        NotificationSound::CriticalNamed { name: s("alarm.aiff"), volume: None },
        NotificationSound::CriticalNamed { name: s("alarm.aiff"), volume: Some(F32Bits(1.0f32.to_bits())) },
        NotificationSound::Unknown,
    ];
    let kinds = [
        "default",
        "defaultCritical",
        "defaultCriticalWithVolume",
        "named",
        "criticalNamed",
        "criticalNamed",
        "unknown",
    ];
    for (sound, kind) in sounds.into_iter().zip(kinds) {
        let payload = NotificationSoundPayload::from_sound(sound.clone());
        assert_eq!(payload.kind, kind);
        assert_eq!(payload.into_sound(), sound);
    }
}

#[test]
fn sound_payload_without_needed_value_decodes_to_unknown() {
    let named = NotificationSoundPayload { kind: s("named"), name: None, volume: None };
    assert_eq!(named.into_sound(), NotificationSound::Unknown);
    let with_volume =
        NotificationSoundPayload { kind: s("defaultCriticalWithVolume"), name: None, volume: None };
    assert_eq!(with_volume.into_sound(), NotificationSound::Unknown);
    let critical = NotificationSoundPayload { kind: s("criticalNamed"), name: None, volume: Some(F32Bits(3)) };
    assert_eq!(critical.into_sound(), NotificationSound::Unknown);
    let other = NotificationSoundPayload { kind: s("chime"), name: Some(s("x")), volume: None };
    assert_eq!(other.into_sound(), NotificationSound::Unknown);
}

#[test]
fn message_person_builder_sets_fields() {
    let person = NotificationMessagePerson::new(s("a@b.c"), NotificationMessagePersonHandleType::EmailAddress)
        .with_display_name(s("Alex"))
        .with_contact_identifier(s("contact"))
        .with_custom_identifier(s("custom"))
        .with_is_me(true);
    assert_eq!(person.handle, "a@b.c");
    assert_eq!(person.handle_type, NotificationMessagePersonHandleType::EmailAddress);
    assert_eq!(person.display_name.as_deref(), Some("Alex"));
    assert_eq!(person.contact_identifier.as_deref(), Some("contact"));
    assert_eq!(person.custom_identifier.as_deref(), Some("custom"));
    assert!(person.is_me);
    let plain = NotificationMessagePerson::new(s("+1"), NotificationMessagePersonHandleType::PhoneNumber);
    assert!(!plain.is_me);
    assert!(plain.display_name.is_none());
}

#[test]
fn attributed_context_builder_and_provider_payload() {
    let sender = NotificationMessagePerson::new(s("me"), NotificationMessagePersonHandleType::Unknown)
        .with_is_me(true);
    let alice = NotificationMessagePerson::new(s("alice"), NotificationMessagePersonHandleType::EmailAddress);
    let bob = NotificationMessagePerson::new(s("bob"), NotificationMessagePersonHandleType::PhoneNumber);
    let context = NotificationAttributedMessageContext::new(s("Hi all"))
        .with_sender(sender)
        .with_recipient(alice.clone())
        .with_recipient(bob.clone())
        .with_content(s("Hi"))
        .with_outgoing_message_type(NotificationMessageType::Audio)
        .with_conversation_identifier(s("conv"))
        .with_service_name(s("svc"))
        .with_group_name(s("group"));
    assert_eq!(context.recipients, vec![alice.clone(), bob.clone()]);
    assert_eq!(context.outgoing_message_type, NotificationMessageType::Audio);

    let fresh = NotificationAttributedMessageContext::new(s("x"));
    assert_eq!(fresh.outgoing_message_type, NotificationMessageType::Text);
    assert!(fresh.recipients.is_empty() && fresh.sender.is_none());
    assert_eq!(fresh.with_recipients(vec![bob.clone()]).recipients, vec![bob]);

    let provider = context.provider_payload();
    assert_eq!(provider.kind, "attributedMessageContext");
    let payload = provider.attributed_message_context.expect("context payload");
    assert_eq!(payload.attributed_content, "Hi all");
    assert_eq!(payload.outgoing_message_type, 2);
    assert_eq!(payload.recipients.len(), 2);
    assert_eq!(payload.recipients[0].handle, "alice");
    assert_eq!(payload.recipients[0].handle_type, 1);
    assert_eq!(payload.recipients[1].handle_type, 2);
    assert!(payload.sender.expect("sender").is_me);
    assert_eq!(payload.group_name.as_deref(), Some("group"));
}
