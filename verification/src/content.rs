use vstd::prelude::*;

use crate::attachment::NotificationAttachment;
use crate::float_bits::{F32Bits, F64Bits};
use crate::sealed::Sealed;
use crate::content_payload::{
    spec_context_payload_matches, NotificationContentProviderPayload,
};
use serde_json::Value;

verus! {

/// Wraps localized string inputs consumed by `UNMutableNotificationContent`
/// text properties.
#[derive(Debug, Clone, PartialEq, Eq)]
pub struct LocalizedNotificationString {
    /// The key.
    pub key: String,
    /// The arguments.
    pub arguments: Vec<Value>,
}

impl LocalizedNotificationString {
    /// Creates a localized notification string.
    pub fn new(key: String) -> (r: Self)
        ensures
            r.key == key,
            r.arguments@.len() == 0,
    {
        LocalizedNotificationString { key, arguments: Vec::new() }
    }

    /// Adds a localization argument.
    pub fn with_argument(self, argument: Value) -> (r: Self)
        ensures
            r.key == self.key,
            r.arguments@ == self.arguments@.push(argument),
    {
        let mut arguments = self.arguments;
        arguments.push(argument);
        LocalizedNotificationString { key: self.key, arguments }
    }
}

/// Wraps the `UNNotificationInterruptionLevel` enum.
#[derive(Debug, Clone, Copy, PartialEq, Eq, Structural)]
pub enum NotificationInterruptionLevel {
    /// Delivers the notification passively.
    Passive,
    /// Delivers the notification with the default active behavior.
    Active,
    /// Marks the notification as time sensitive.
    TimeSensitive,
    /// Marks the notification as critical.
    Critical,
}

impl NotificationInterruptionLevel {
    /// The framework value of each variant.
    pub open spec fn spec_raw(self) -> i32 {
        match self {
            Self::Passive => 0,
            Self::Active => 1,
            Self::TimeSensitive => 2,
            Self::Critical => 3,
        }
    }

    /// The variant that a raw framework value stands for; other values
    /// fall back to `Active`.
    pub open spec fn spec_from_raw(raw: i32) -> Self {
        if raw == 0 {
            Self::Passive
        } else if raw == 2 {
            Self::TimeSensitive
        } else if raw == 3 {
            Self::Critical
        } else {
            Self::Active
        }
    }

    /// Converts a raw framework value into an interruption level.
    pub fn from_raw(raw: i32) -> (r: Self)
        ensures
            r == Self::spec_from_raw(raw),
    {
        match raw {
            0 => Self::Passive,
            2 => Self::TimeSensitive,
            3 => Self::Critical,
            _ => Self::Active,
        }
    }

    /// Returns the framework value of this variant.
    pub fn to_raw(self) -> (r: i32)
        ensures
            r == self.spec_raw(),
    {
        match self {
            Self::Passive => 0,
            Self::Active => 1,
            Self::TimeSensitive => 2,
            Self::Critical => 3,
        }
    }
}

/// Every `NotificationInterruptionLevel` is found again from its framework value.
pub proof fn lemma_notification_interruption_level_raw_round_trip(value: NotificationInterruptionLevel)
    ensures
        NotificationInterruptionLevel::spec_from_raw(value.spec_raw()) == value,
{
}

/// Wraps `UNNotificationSound`. Volumes are `f32` values held as their bit
/// patterns; `==` compares them as `f32` values do.
#[derive(Debug, Clone, PartialEq)]
pub enum NotificationSound {
    /// Uses the default notification sound.
    Default,
    /// Uses the default critical notification sound.
    DefaultCritical,
    /// Uses the default critical notification sound with an explicit volume.
    DefaultCriticalWithVolume(F32Bits),
    /// Uses a custom sound resource name.
    Named(String),
    /// Uses a named critical sound.
    CriticalNamed {
        /// The custom sound file name.
        name: String,
        /// The optional playback volume.
        volume: Option<F32Bits>,
    },
    /// Fallback for sound values the framework returns but this crate does not model yet.
    Unknown,
}

/// Wraps the handle-type values used by `UNNotificationAttributedMessageContext`.
#[derive(Debug, Clone, Copy, PartialEq, Eq, Structural)]
pub enum NotificationMessagePersonHandleType {
    /// Represents an unknown handle type.
    Unknown,
    /// Uses an email-address handle.
    EmailAddress,
    /// Uses a phone-number handle.
    PhoneNumber,
}

impl NotificationMessagePersonHandleType {
    /// The framework value of each variant.
    pub open spec fn spec_raw(self) -> i32 {
        match self {
            Self::Unknown => 0,
            Self::EmailAddress => 1,
            Self::PhoneNumber => 2,
        }
    }

    /// The variant that a raw framework value stands for; other values
    /// fall back to `Unknown`.
    pub open spec fn spec_from_raw(raw: i32) -> Self {
        if raw == 1 {
            Self::EmailAddress
        } else if raw == 2 {
            Self::PhoneNumber
        } else {
            Self::Unknown
        }
    }

    /// Converts a raw framework value into a person-handle type.
    pub fn from_raw(raw: i32) -> (r: Self)
        ensures
            r == Self::spec_from_raw(raw),
    {
        match raw {
            1 => Self::EmailAddress,
            2 => Self::PhoneNumber,
            _ => Self::Unknown,
        }
    }

    /// Returns the framework value of this variant.
    pub fn to_raw(self) -> (r: i32)
        ensures
            r == self.spec_raw(),
    {
        match self {
            Self::Unknown => 0,
            Self::EmailAddress => 1,
            Self::PhoneNumber => 2,
        }
    }
}

/// Every `NotificationMessagePersonHandleType` is found again from its framework value.
pub proof fn lemma_notification_message_person_handle_type_raw_round_trip(value: NotificationMessagePersonHandleType)
    ensures
        NotificationMessagePersonHandleType::spec_from_raw(value.spec_raw()) == value,
{
}

/// Wraps the outgoing message type used by `UNNotificationAttributedMessageContext`.
#[derive(Debug, Clone, Copy, PartialEq, Eq, Structural)]
pub enum NotificationMessageType {
    /// Represents an unknown outgoing message type.
    Unknown,
    /// Represents a text message.
    Text,
    /// Represents an audio message.
    Audio,
}

impl NotificationMessageType {
    /// The framework value of each variant.
    pub open spec fn spec_raw(self) -> i32 {
        match self {
            Self::Unknown => 0,
            Self::Text => 1,
            Self::Audio => 2,
        }
    }

    /// The variant that a raw framework value stands for; other values
    /// fall back to `Unknown`.
    pub open spec fn spec_from_raw(raw: i32) -> Self {
        if raw == 1 {
            Self::Text
        } else if raw == 2 {
            Self::Audio
        } else {
            Self::Unknown
        }
    }

    /// Converts a raw framework value into a message type.
    pub fn from_raw(raw: i32) -> (r: Self)
        ensures
            r == Self::spec_from_raw(raw),
    {
        match raw {
            1 => Self::Text,
            2 => Self::Audio,
            _ => Self::Unknown,
        }
    }

    /// Returns the framework value of this variant.
    pub fn to_raw(self) -> (r: i32)
        ensures
            r == self.spec_raw(),
    {
        match self {
            Self::Unknown => 0,
            Self::Text => 1,
            Self::Audio => 2,
        }
    }
}

/// Every `NotificationMessageType` is found again from its framework value.
pub proof fn lemma_notification_message_type_raw_round_trip(value: NotificationMessageType)
    ensures
        NotificationMessageType::spec_from_raw(value.spec_raw()) == value,
{
}

/// Wraps a person record used with `UNNotificationAttributedMessageContext`.
#[derive(Debug, Clone, PartialEq, Eq)]
pub struct NotificationMessagePerson {
    /// The handle.
    pub handle: String,
    /// The handle type.
    pub handle_type: NotificationMessagePersonHandleType,
    /// The display name.
    pub display_name: Option<String>,
    /// The contact identifier.
    pub contact_identifier: Option<String>,
    /// The custom identifier.
    pub custom_identifier: Option<String>,
    /// Whether this person represents the current user.
    pub is_me: bool,
}

impl NotificationMessagePerson {
    /// Creates a notification message person.
    pub fn new(handle: String, handle_type: NotificationMessagePersonHandleType) -> (r: Self)
        ensures
            r == (NotificationMessagePerson {
                handle,
                handle_type,
                display_name: None,
                contact_identifier: None,
                custom_identifier: None,
                is_me: false,
            }),
    {
        NotificationMessagePerson {
            handle,
            handle_type,
            display_name: None,
            contact_identifier: None,
            custom_identifier: None,
            is_me: false,
        }
    }

    /// Sets display name.
    pub fn with_display_name(self, display_name: String) -> (r: Self)
        ensures
            r == (NotificationMessagePerson { display_name: Some(display_name), ..self }),
    {
        NotificationMessagePerson { display_name: Some(display_name), ..self }
    }
    /// Sets contact identifier.
    pub fn with_contact_identifier(self, contact_identifier: String) -> (r: Self)
        ensures
            r == (NotificationMessagePerson { contact_identifier: Some(contact_identifier), ..self }),
    {
        NotificationMessagePerson { contact_identifier: Some(contact_identifier), ..self }
    }
    /// Sets custom identifier.
    pub fn with_custom_identifier(self, custom_identifier: String) -> (r: Self)
        ensures
            r == (NotificationMessagePerson { custom_identifier: Some(custom_identifier), ..self }),
    {
        NotificationMessagePerson { custom_identifier: Some(custom_identifier), ..self }
    }
    /// Sets whether this person represents the current user.
    pub fn with_is_me(self, is_me: bool) -> (r: Self)
        ensures
            r == (NotificationMessagePerson { is_me, ..self }),
    {
        NotificationMessagePerson { is_me, ..self }
    }
}

/// Wraps `UNNotificationAttributedMessageContext`.
#[derive(Debug, Clone, PartialEq, Eq)]
pub struct NotificationAttributedMessageContext {
    /// The sender.
    pub sender: Option<NotificationMessagePerson>,
    /// The recipients.
    pub recipients: Vec<NotificationMessagePerson>,
    /// The attributed content.
    pub attributed_content: String,
    /// The content.
    pub content: Option<String>,
    /// The outgoing message type.
    pub outgoing_message_type: NotificationMessageType,
    /// The conversation identifier.
    pub conversation_identifier: Option<String>,
    /// The service name.
    pub service_name: Option<String>,
    /// The group name.
    pub group_name: Option<String>,
}

impl NotificationAttributedMessageContext {
    /// Creates a notification attributed message context: no sender, no
    /// recipients, an outgoing text message.
    pub fn new(attributed_content: String) -> (r: Self)
        ensures
            r.sender is None,
            r.recipients@.len() == 0,
            r.attributed_content == attributed_content,
            r.content is None,
            r.outgoing_message_type == NotificationMessageType::Text,
            r.conversation_identifier is None,
            r.service_name is None,
            r.group_name is None,
    {
        NotificationAttributedMessageContext {
            sender: None,
            recipients: Vec::new(),
            attributed_content,
            content: None,
            outgoing_message_type: NotificationMessageType::Text,
            conversation_identifier: None,
            service_name: None,
            group_name: None,
        }
    }

    /// Sets sender.
    pub fn with_sender(self, sender: NotificationMessagePerson) -> (r: Self)
        ensures
            r == (NotificationAttributedMessageContext { sender: Some(sender), ..self }),
    {
        NotificationAttributedMessageContext { sender: Some(sender), ..self }
    }
    /// Adds a recipient.
    pub fn with_recipient(self, recipient: NotificationMessagePerson) -> (r: Self)
        ensures
            r == (NotificationAttributedMessageContext { recipients: r.recipients, ..self }),
            r.recipients@ == self.recipients@.push(recipient),
    {
        let mut s = self;
        s.recipients.push(recipient);
        s
    }
    /// Sets recipients.
    pub fn with_recipients(self, recipients: Vec<NotificationMessagePerson>) -> (r: Self)
        ensures
            r == (NotificationAttributedMessageContext { recipients, ..self }),
    {
        NotificationAttributedMessageContext { recipients, ..self }
    }
    /// Sets content.
    pub fn with_content(self, content: String) -> (r: Self)
        ensures
            r == (NotificationAttributedMessageContext { content: Some(content), ..self }),
    {
        NotificationAttributedMessageContext { content: Some(content), ..self }
    }
    /// Sets outgoing message type.
    pub fn with_outgoing_message_type(self, outgoing_message_type: NotificationMessageType) -> (r: Self)
        ensures
            r == (NotificationAttributedMessageContext { outgoing_message_type, ..self }),
    {
        NotificationAttributedMessageContext { outgoing_message_type, ..self }
    }
    /// Sets conversation identifier.
    pub fn with_conversation_identifier(self, conversation_identifier: String) -> (r: Self)
        ensures
            r == (NotificationAttributedMessageContext { conversation_identifier: Some(conversation_identifier), ..self }),
    {
        NotificationAttributedMessageContext { conversation_identifier: Some(conversation_identifier), ..self }
    }
    /// Sets service name.
    pub fn with_service_name(self, service_name: String) -> (r: Self)
        ensures
            r == (NotificationAttributedMessageContext { service_name: Some(service_name), ..self }),
    {
        NotificationAttributedMessageContext { service_name: Some(service_name), ..self }
    }
    /// Sets group name.
    pub fn with_group_name(self, group_name: String) -> (r: Self)
        ensures
            r == (NotificationAttributedMessageContext { group_name: Some(group_name), ..self }),
    {
        NotificationAttributedMessageContext { group_name: Some(group_name), ..self }
    }
}

/// Values accepted by `UNMutableNotificationContent::updating(from:)`; only
/// this crate's types implement it.
pub trait NotificationContentProviding: Sealed {
    /// The provider as the bridge receives it.
    fn provider_payload(&self) -> NotificationContentProviderPayload;
}

impl Sealed for NotificationAttributedMessageContext {}

impl NotificationContentProviding for NotificationAttributedMessageContext {
    fn provider_payload(&self) -> (r: NotificationContentProviderPayload)
        ensures
            r.kind@ == "attributedMessageContext"@,
            r.attributed_message_context matches Some(c) && spec_context_payload_matches(*self, c),
    {
        NotificationContentProviderPayload::from_attributed_message_context(self)
    }
}

/// Wraps `UNMutableNotificationContent` and decoded `UNNotificationContent` values.
#[derive(Debug, Clone, PartialEq, Default)]
pub struct NotificationContent {
    /// The title.
    pub title: String,
    /// The subtitle.
    pub subtitle: String,
    /// The body.
    pub body: String,
    /// The badge.
    pub badge: Option<i64>,
    /// The category identifier.
    pub category_identifier: String,
    /// The thread identifier.
    pub thread_identifier: String,
    /// The user info.
    pub user_info: Option<Value>,
    /// The sound.
    pub sound: Option<NotificationSound>,
    /// The attachments.
    pub attachments: Vec<NotificationAttachment>,
    /// The summary argument.
    pub summary_argument: String,
    /// The summary argument count.
    pub summary_argument_count: u64,
    /// The interruption level.
    pub interruption_level: Option<NotificationInterruptionLevel>,
    /// The relevance score.
    pub relevance_score: Option<F64Bits>,
    /// The filter criteria.
    pub filter_criteria: Option<String>,
    /// The localized title.
    pub localized_title: Option<LocalizedNotificationString>,
    /// The localized subtitle.
    pub localized_subtitle: Option<LocalizedNotificationString>,
    /// The localized body.
    pub localized_body: Option<LocalizedNotificationString>,
    /// The localized summary argument.
    pub localized_summary_argument: Option<LocalizedNotificationString>,
}

impl NotificationContent {
    /// Creates mutable notification content with a title and body; every
    /// other text is empty, every optional field is absent, there are no
    /// attachments and the summary argument count is 1.
    pub fn new(title: String, body: String) -> (r: Self)
        ensures
            r.title == title,
            r.body == body,
            r.subtitle@.len() == 0,
            r.badge is None,
            r.category_identifier@.len() == 0,
            r.thread_identifier@.len() == 0,
            r.user_info is None,
            r.sound is None,
            r.attachments@.len() == 0,
            r.summary_argument@.len() == 0,
            r.summary_argument_count == 1,
            r.interruption_level is None,
            r.relevance_score is None,
            r.filter_criteria is None,
            r.localized_title is None,
            r.localized_subtitle is None,
            r.localized_body is None,
            r.localized_summary_argument is None,
    {
        NotificationContent {
            title,
            subtitle: String::new(),
            body,
            badge: None,
            category_identifier: String::new(),
            thread_identifier: String::new(),
            user_info: None,
            sound: None,
            attachments: Vec::new(),
            summary_argument: String::new(),
            summary_argument_count: 1,
            interruption_level: None,
            relevance_score: None,
            filter_criteria: None,
            localized_title: None,
            localized_subtitle: None,
            localized_body: None,
            localized_summary_argument: None,
        }
    }

    /// Sets subtitle.
    pub fn with_subtitle(self, subtitle: String) -> (r: Self)
        ensures
            r == (NotificationContent { subtitle, ..self }),
    {
        NotificationContent { subtitle, ..self }
    }
    /// Sets badge.
    pub fn with_badge(self, badge: i64) -> (r: Self)
        ensures
            r == (NotificationContent { badge: Some(badge), ..self }),
    {
        NotificationContent { badge: Some(badge), ..self }
    }
    /// Sets category identifier.
    pub fn with_category_identifier(self, category_identifier: String) -> (r: Self)
        ensures
            r == (NotificationContent { category_identifier, ..self }),
    {
        NotificationContent { category_identifier, ..self }
    }
    /// Sets thread identifier.
    pub fn with_thread_identifier(self, thread_identifier: String) -> (r: Self)
        ensures
            r == (NotificationContent { thread_identifier, ..self }),
    {
        NotificationContent { thread_identifier, ..self }
    }
    /// Sets user info.
    pub fn with_user_info(self, user_info: Value) -> (r: Self)
        ensures
            r == (NotificationContent { user_info: Some(user_info), ..self }),
    {
        NotificationContent { user_info: Some(user_info), ..self }
    }
    /// Sets sound.
    pub fn with_sound(self, sound: NotificationSound) -> (r: Self)
        ensures
            r == (NotificationContent { sound: Some(sound), ..self }),
    {
        NotificationContent { sound: Some(sound), ..self }
    }
    /// Adds an attachment.
    pub fn with_attachment(self, attachment: NotificationAttachment) -> (r: Self)
        ensures
            r == (NotificationContent { attachments: r.attachments, ..self }),
            r.attachments@ == self.attachments@.push(attachment),
    {
        let mut s = self;
        s.attachments.push(attachment);
        s
    }
    /// Sets attachments.
    pub fn with_attachments(self, attachments: Vec<NotificationAttachment>) -> (r: Self)
        ensures
            r == (NotificationContent { attachments, ..self }),
    {
        NotificationContent { attachments, ..self }
    }
    /// Sets summary argument.
    pub fn with_summary_argument(self, summary_argument: String) -> (r: Self)
        ensures
            r == (NotificationContent { summary_argument, ..self }),
    {
        NotificationContent { summary_argument, ..self }
    }
    /// Sets summary argument count.
    pub fn with_summary_argument_count(self, summary_argument_count: u64) -> (r: Self)
        ensures
            r == (NotificationContent { summary_argument_count, ..self }),
    {
        NotificationContent { summary_argument_count, ..self }
    }
    /// Sets interruption level.
    pub fn with_interruption_level(self, interruption_level: NotificationInterruptionLevel) -> (r: Self)
        ensures
            r == (NotificationContent { interruption_level: Some(interruption_level), ..self }),
    {
        NotificationContent { interruption_level: Some(interruption_level), ..self }
    }
    /// Sets relevance score, given as the bit pattern of an `f64`.
    pub fn with_relevance_score(self, relevance_score: u64) -> (r: Self)
        ensures
            r == (NotificationContent { relevance_score: Some(F64Bits(relevance_score)), ..self }),
    {
        NotificationContent { relevance_score: Some(F64Bits(relevance_score)), ..self }
    }
    /// Sets filter criteria.
    pub fn with_filter_criteria(self, filter_criteria: String) -> (r: Self)
        ensures
            r == (NotificationContent { filter_criteria: Some(filter_criteria), ..self }),
    {
        NotificationContent { filter_criteria: Some(filter_criteria), ..self }
    }
    /// Sets localized title.
    pub fn with_localized_title(self, localized_title: LocalizedNotificationString) -> (r: Self)
        ensures
            r == (NotificationContent { localized_title: Some(localized_title), ..self }),
    {
        NotificationContent { localized_title: Some(localized_title), ..self }
    }
    /// Sets localized subtitle.
    pub fn with_localized_subtitle(self, localized_subtitle: LocalizedNotificationString) -> (r: Self)
        ensures
            r == (NotificationContent { localized_subtitle: Some(localized_subtitle), ..self }),
    {
        NotificationContent { localized_subtitle: Some(localized_subtitle), ..self }
    }
    /// Sets localized body.
    pub fn with_localized_body(self, localized_body: LocalizedNotificationString) -> (r: Self)
        ensures
            r == (NotificationContent { localized_body: Some(localized_body), ..self }),
    {
        NotificationContent { localized_body: Some(localized_body), ..self }
    }
    /// Sets localized summary argument.
    pub fn with_localized_summary_argument(self, localized_summary_argument: LocalizedNotificationString) -> (r: Self)
        ensures
            r == (NotificationContent { localized_summary_argument: Some(localized_summary_argument), ..self }),
    {
        NotificationContent { localized_summary_argument: Some(localized_summary_argument), ..self }
    }
}

} // verus!
