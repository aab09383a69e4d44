use usernotifications::action::{
    actions_to_payloads, payloads_to_actions, NotificationActionIconPayload,
    NotificationActionPayload,
};
use usernotifications::category::{
    categories_to_payloads, payloads_to_categories, NotificationCategoryPayload,
};
use usernotifications::prelude::{
    LocalizedNotificationString, NotificationAction, NotificationActionIcon,
    NotificationActionOptions, NotificationCategory, NotificationCategoryOptions,
};

fn s(text: &str) -> String {
    text.to_string()
}

fn sample_action() -> NotificationAction {
    NotificationAction::new_text_input(
        s("reply"),
        s("Reply"),
        NotificationActionOptions::FOREGROUND() | NotificationActionOptions::AUTHENTICATION_REQUIRED(),
        s("Send"),
        s("Type here"),
    )
    .with_icon(NotificationActionIcon::SystemImage(s("paperplane")))
    .with_localized_title(LocalizedNotificationString::new(s("REPLY")))
}

#[test]
fn action_constructors_set_expected_fields() {
    let plain = NotificationAction::new(s("open"), s("Open"), NotificationActionOptions::NONE());
    assert_eq!(plain.identifier, "open");
    assert!(plain.text_input_button_title.is_none() && plain.icon.is_none());
    let action = sample_action();
    assert_eq!(action.text_input_button_title.as_deref(), Some("Send"));
    assert_eq!(action.text_input_placeholder.as_deref(), Some("Type here"));
    assert_eq!(action.options.bits(), 5);
    assert_eq!(action.icon, Some(NotificationActionIcon::SystemImage(s("paperplane"))));
}

#[test]
fn action_payload_round_trips() {
    let action = sample_action();
    let payload = NotificationActionPayload::from_action(action.clone());
    assert_eq!(payload.options, 5);
    assert_eq!(payload.icon.as_ref().map(|i| i.kind.as_str()), Some("systemImage"));
    assert_eq!(payload.into_action(), action);

    for icon in [
        NotificationActionIcon::TemplateImage(s("star")),
        NotificationActionIcon::SystemImage(s("bell")),
        NotificationActionIcon::Unknown,
    ] {
        assert_eq!(NotificationActionIconPayload::from_icon(icon.clone()).into_icon(), icon);
    }
}

#[test]
fn icon_payload_without_name_decodes_to_unknown() {
    let p = NotificationActionIconPayload { kind: s("templateImage"), name: None };
    assert_eq!(p.into_icon(), NotificationActionIcon::Unknown);
    let q = NotificationActionIconPayload { kind: s("symbol"), name: Some(s("x")) };
    assert_eq!(q.into_icon(), NotificationActionIcon::Unknown);
}

#[test]
fn action_lists_keep_their_order() {
    let actions = vec![
        NotificationAction::new(s("a"), s("A"), NotificationActionOptions::DESTRUCTIVE()),
        sample_action(),
    ];
    let payloads = actions_to_payloads(actions.clone());
    assert_eq!(payloads[0].identifier, "a");
    assert_eq!(payloads[0].options, 2);
    assert_eq!(payloads_to_actions(payloads), actions);
}

#[test]
fn category_builder_and_payload_round_trip() {
    let category = NotificationCategory::new(
        s("messages"),
        vec![sample_action()],
        vec![s("INSendMessageIntent")],
        NotificationCategoryOptions::CUSTOM_DISMISS_ACTION()
            | NotificationCategoryOptions::HIDDEN_PREVIEWS_SHOW_TITLE(),
    )
    .with_hidden_previews_body_placeholder(s("Placeholder"))
    .with_category_summary_format(s("%u messages"))
    .with_localized_category_summary_format(LocalizedNotificationString::new(s("SUMMARY")));
    assert_eq!(category.hidden_previews_body_placeholder.as_deref(), Some("Placeholder"));
    assert_eq!(category.category_summary_format.as_deref(), Some("%u messages"));
    assert!(category.localized_hidden_previews_body_placeholder.is_none());

    let payload = NotificationCategoryPayload::from_category(category.clone());
    assert_eq!(payload.options, 5);
    assert_eq!(payload.actions.len(), 1);
    assert_eq!(payload.into_category(), category);

    let list = vec![category.clone(), NotificationCategory::new(s("empty"), vec![], vec![], NotificationCategoryOptions::NONE())];
    assert_eq!(payloads_to_categories(categories_to_payloads(list.clone())), list);
}

#[test]
fn option_set_flags_have_documented_bits() {
    assert_eq!(NotificationActionOptions::AUTHENTICATION_REQUIRED().bits(), 1);
    assert_eq!(NotificationActionOptions::DESTRUCTIVE().bits(), 2);
    assert_eq!(NotificationActionOptions::FOREGROUND().bits(), 4);
    assert_eq!(NotificationCategoryOptions::CUSTOM_DISMISS_ACTION().bits(), 1);
    assert_eq!(NotificationCategoryOptions::HIDDEN_PREVIEWS_SHOW_TITLE().bits(), 4);
    assert_eq!(NotificationCategoryOptions::HIDDEN_PREVIEWS_SHOW_SUBTITLE().bits(), 8);
}
