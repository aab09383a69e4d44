use vstd::prelude::*;

use crate::attachment::{
    lemma_attachment_round_trip, spec_attachment_from_payload, spec_attachment_payload,
    NotificationAttachment, NotificationAttachmentPayload,
};
use crate::content::{
    LocalizedNotificationString, NotificationAttributedMessageContext, NotificationContent,
    NotificationInterruptionLevel, NotificationMessagePerson, NotificationSound,
};
use crate::float_bits::{F32Bits, F64Bits};
use crate::text::{owned, same_text};
use serde_json::Value;

verus! {

/// A sound as the bridge exchanges it.
#[derive(Debug, Clone, PartialEq)]
pub struct NotificationSoundPayload {
    /// `default`, `defaultCritical`, `defaultCriticalWithVolume`, `named`,
    /// `criticalNamed` or another kind.
    pub kind: String,
    /// The sound name.
    pub name: Option<String>,
    /// The volume.
    pub volume: Option<F32Bits>,
}

/// Whether `p` is the payload that encodes sound `s`.
pub open spec fn sound_encodes_to(s: NotificationSound, p: NotificationSoundPayload) -> bool {
    match s {
        NotificationSound::Default => p.kind@ == "default"@ && p.name is None && p.volume is None,
        NotificationSound::DefaultCritical => p.kind@ == "defaultCritical"@ && p.name is None
            && p.volume is None,
        NotificationSound::DefaultCriticalWithVolume(v) => p.kind@ == "defaultCriticalWithVolume"@
            && p.name is None && p.volume == Some(v),
        NotificationSound::Named(name) => p.kind@ == "named"@ && p.name == Some(name)
            && p.volume is None,
        NotificationSound::CriticalNamed { name, volume } => p.kind@ == "criticalNamed"@
            && p.name == Some(name) && p.volume == volume,
        NotificationSound::Unknown => p.kind@ == "unknown"@ && p.name is None && p.volume is None,
    }
}

/// The sound that a payload decodes to; a kind without the value it needs
/// decodes to `Unknown`.
pub open spec fn spec_sound_from_payload(p: NotificationSoundPayload) -> NotificationSound {
    if p.kind@ == "default"@ {
        NotificationSound::Default
    } else if p.kind@ == "defaultCritical"@ {
        NotificationSound::DefaultCritical
    } else if p.kind@ == "defaultCriticalWithVolume"@ {
        match p.volume {
            Some(v) => NotificationSound::DefaultCriticalWithVolume(v),
            None => NotificationSound::Unknown,
        }
    } else if p.kind@ == "named"@ {
        match p.name {
            Some(name) => NotificationSound::Named(name),
            None => NotificationSound::Unknown,
        }
    } else if p.kind@ == "criticalNamed"@ {
        match p.name {
            Some(name) => NotificationSound::CriticalNamed { name, volume: p.volume },
            None => NotificationSound::Unknown,
        }
    } else {
        NotificationSound::Unknown
    }
}

impl NotificationSoundPayload {
    /// Encodes a sound for the bridge.
    pub fn from_sound(value: NotificationSound) -> (r: Self)
        ensures
            sound_encodes_to(value, r),
    {
        match value {
            NotificationSound::Default => NotificationSoundPayload {
                kind: owned("default"),
                name: None,
                volume: None,
            },
            NotificationSound::DefaultCritical => NotificationSoundPayload {
                kind: owned("defaultCritical"),
                name: None,
                volume: None,
            },
            NotificationSound::DefaultCriticalWithVolume(volume) => NotificationSoundPayload {
                kind: owned("defaultCriticalWithVolume"),
                name: None,
                volume: Some(volume),
            },
            NotificationSound::Named(name) => NotificationSoundPayload {
                kind: owned("named"),
                name: Some(name),
                volume: None,
            },
            NotificationSound::CriticalNamed { name, volume } => NotificationSoundPayload {
                kind: owned("criticalNamed"),
                name: Some(name),
                volume,
            },
            NotificationSound::Unknown => NotificationSoundPayload {
                kind: owned("unknown"),
                name: None,
                volume: None,
            },
        }
    }

    /// Decodes a sound reported by the bridge.
    pub fn into_sound(self) -> (r: NotificationSound)
        ensures
            r == spec_sound_from_payload(self),
    {
        let kind = self.kind.as_str();
        if same_text(kind, "default") {
            NotificationSound::Default
        } else if same_text(kind, "defaultCritical") {
            NotificationSound::DefaultCritical
        } else if same_text(kind, "defaultCriticalWithVolume") {
            match self.volume {
                Some(v) => NotificationSound::DefaultCriticalWithVolume(v),
                None => NotificationSound::Unknown,
            }
        } else if same_text(kind, "named") {
            match self.name {
                Some(name) => NotificationSound::Named(name),
                None => NotificationSound::Unknown,
            }
        } else if same_text(kind, "criticalNamed") {
            match self.name {
                Some(name) => NotificationSound::CriticalNamed { name, volume: self.volume },
                None => NotificationSound::Unknown,
            }
        } else {
            NotificationSound::Unknown
        }
    }
}

/// The kind names of the sound payload are distinct.
pub proof fn lemma_sound_kinds_distinct()
    ensures
        "default"@ != "defaultCritical"@,
        "default"@ != "defaultCriticalWithVolume"@,
        "default"@ != "named"@,
        "default"@ != "criticalNamed"@,
        "default"@ != "unknown"@,
        "defaultCritical"@ != "defaultCriticalWithVolume"@,
        "defaultCritical"@ != "named"@,
        "defaultCritical"@ != "criticalNamed"@,
        "defaultCritical"@ != "unknown"@,
        "defaultCriticalWithVolume"@ != "named"@,
        "defaultCriticalWithVolume"@ != "criticalNamed"@,
        "defaultCriticalWithVolume"@ != "unknown"@,
        "named"@ != "criticalNamed"@,
        "named"@ != "unknown"@,
        "criticalNamed"@ != "unknown"@,
{
    reveal_strlit("default");
    reveal_strlit("defaultCritical");
    reveal_strlit("defaultCriticalWithVolume");
    reveal_strlit("named");
    reveal_strlit("criticalNamed");
    reveal_strlit("unknown");
    assert("default"@.len() != "defaultCritical"@.len());
    assert("default"@.len() != "defaultCriticalWithVolume"@.len());
    assert("default"@.len() != "named"@.len());
    assert("default"@.len() != "criticalNamed"@.len());
    assert("default"@[0] != "unknown"@[0]);
    assert("defaultCritical"@.len() != "defaultCriticalWithVolume"@.len());
    assert("defaultCritical"@.len() != "named"@.len());
    assert("defaultCritical"@.len() != "criticalNamed"@.len());
    assert("defaultCritical"@.len() != "unknown"@.len());
    assert("defaultCriticalWithVolume"@.len() != "named"@.len());
    assert("defaultCriticalWithVolume"@.len() != "criticalNamed"@.len());
    assert("defaultCriticalWithVolume"@.len() != "unknown"@.len());
    assert("named"@.len() != "criticalNamed"@.len());
    assert("named"@.len() != "unknown"@.len());
    assert("criticalNamed"@.len() != "unknown"@.len());
}

/// Decoding the payload of a sound gives that sound back.
pub proof fn lemma_sound_round_trip(s: NotificationSound, p: NotificationSoundPayload)
    requires
        sound_encodes_to(s, p),
    ensures
        spec_sound_from_payload(p) == s,
{
    lemma_sound_kinds_distinct();
}

/// Notification content as the bridge exchanges it.
#[derive(Debug, Clone, PartialEq)]
pub struct NotificationContentPayload {
    /// The title.
    pub title: String,
    /// The subtitle.
    pub subtitle: String,
    /// The body.
    pub body: String,
    /// The badge.
    pub badge: Option<i64>,
    /// The category identifier.
    pub category_identifier: String,
    /// The thread identifier.
    pub thread_identifier: String,
    /// The user info.
    pub user_info: Option<Value>,
    /// The sound.
    pub sound: Option<NotificationSoundPayload>,
    /// The attachments.
    pub attachments: Vec<NotificationAttachmentPayload>,
    /// The summary argument.
    pub summary_argument: String,
    /// The summary argument count.
    pub summary_argument_count: u64,
    /// The raw interruption level.
    pub interruption_level: Option<i32>,
    /// The relevance score.
    pub relevance_score: Option<F64Bits>,
    /// The filter criteria.
    pub filter_criteria: Option<String>,
    /// The localized title.
    pub localized_title: Option<LocalizedNotificationString>,
    /// The localized subtitle.
    pub localized_subtitle: Option<LocalizedNotificationString>,
    /// The localized body.
    pub localized_body: Option<LocalizedNotificationString>,
    /// The localized summary argument.
    pub localized_summary_argument: Option<LocalizedNotificationString>,
}

/// Whether `p` is the payload that encodes content `c`.
pub open spec fn content_encodes_to(c: NotificationContent, p: NotificationContentPayload) -> bool {
    &&& p.title == c.title
    &&& p.subtitle == c.subtitle
    &&& p.body == c.body
    &&& p.badge == c.badge
    &&& p.category_identifier == c.category_identifier
    &&& p.thread_identifier == c.thread_identifier
    &&& p.user_info == c.user_info
    &&& match c.sound {
        Some(s) => p.sound matches Some(ps) && sound_encodes_to(s, ps),
        None => p.sound is None,
    }
    &&& p.attachments@.len() == c.attachments@.len()
    &&& forall|i: int|
        0 <= i < c.attachments@.len() ==> #[trigger] p.attachments@[i] == spec_attachment_payload(
            c.attachments@[i],
        )
    &&& p.summary_argument == c.summary_argument
    &&& p.summary_argument_count == c.summary_argument_count
    &&& p.interruption_level == match c.interruption_level {
        Some(level) => Some(level.spec_raw()),
        None => None,
    }
    &&& p.relevance_score == c.relevance_score
    &&& p.filter_criteria == c.filter_criteria
    &&& p.localized_title == c.localized_title
    &&& p.localized_subtitle == c.localized_subtitle
    &&& p.localized_body == c.localized_body
    &&& p.localized_summary_argument == c.localized_summary_argument
}

/// Whether `c` is the content that payload `p` decodes to.
pub open spec fn content_decodes_to(p: NotificationContentPayload, c: NotificationContent) -> bool {
    &&& c.title == p.title
    &&& c.subtitle == p.subtitle
    &&& c.body == p.body
    &&& c.badge == p.badge
    &&& c.category_identifier == p.category_identifier
    &&& c.thread_identifier == p.thread_identifier
    &&& c.user_info == p.user_info
    &&& c.sound == match p.sound {
        Some(s) => Some(spec_sound_from_payload(s)),
        None => None,
    }
    &&& c.attachments@.len() == p.attachments@.len()
    &&& forall|i: int|
        0 <= i < p.attachments@.len() ==> #[trigger] c.attachments@[i]
            == spec_attachment_from_payload(p.attachments@[i])
    &&& c.summary_argument == p.summary_argument
    &&& c.summary_argument_count == p.summary_argument_count
    &&& c.interruption_level == match p.interruption_level {
        Some(raw) => Some(NotificationInterruptionLevel::spec_from_raw(raw)),
        None => None,
    }
    &&& c.relevance_score == p.relevance_score
    &&& c.filter_criteria == p.filter_criteria
    &&& c.localized_title == p.localized_title
    &&& c.localized_subtitle == p.localized_subtitle
    &&& c.localized_body == p.localized_body
    &&& c.localized_summary_argument == p.localized_summary_argument
}

/// Whether two contents hold the same values: every field equal, the
/// attachments element by element.
pub open spec fn same_content(a: NotificationContent, b: NotificationContent) -> bool {
    &&& a.title == b.title
    &&& a.subtitle == b.subtitle
    &&& a.body == b.body
    &&& a.badge == b.badge
    &&& a.category_identifier == b.category_identifier
    &&& a.thread_identifier == b.thread_identifier
    &&& a.user_info == b.user_info
    &&& a.sound == b.sound
    &&& a.attachments@ == b.attachments@
    &&& a.summary_argument == b.summary_argument
    &&& a.summary_argument_count == b.summary_argument_count
    &&& a.interruption_level == b.interruption_level
    &&& a.relevance_score == b.relevance_score
    &&& a.filter_criteria == b.filter_criteria
    &&& a.localized_title == b.localized_title
    &&& a.localized_subtitle == b.localized_subtitle
    &&& a.localized_body == b.localized_body
    &&& a.localized_summary_argument == b.localized_summary_argument
}

fn attachments_to_payloads(attachments: Vec<NotificationAttachment>) -> (r: Vec<
    NotificationAttachmentPayload,
>)
    ensures
        r@.len() == attachments@.len(),
        forall|i: int|
            0 <= i < attachments@.len() ==> #[trigger] r@[i] == spec_attachment_payload(
                attachments@[i],
            ),
{
    let ghost src = attachments@;
    let mut out: Vec<NotificationAttachmentPayload> = Vec::new();
    for a in it: attachments.into_iter()
        invariant
            it.seq() == src,
            out@.len() == it.index(),
            forall|j: int| 0 <= j < it.index() ==> #[trigger] out@[j] == spec_attachment_payload(src[j]),
    {
        out.push(NotificationAttachmentPayload::from_attachment(a));
    }
    out
}

fn payloads_to_attachments(payloads: Vec<NotificationAttachmentPayload>) -> (r: Vec<
    NotificationAttachment,
>)
    ensures
        r@.len() == payloads@.len(),
        forall|i: int|
            0 <= i < payloads@.len() ==> #[trigger] r@[i] == spec_attachment_from_payload(
                payloads@[i],
            ),
{
    let ghost src = payloads@;
    let mut out: Vec<NotificationAttachment> = Vec::new();
    for p in it: payloads.into_iter()
        invariant
            it.seq() == src,
            out@.len() == it.index(),
            forall|j: int|
                0 <= j < it.index() ==> #[trigger] out@[j] == spec_attachment_from_payload(src[j]),
    {
        out.push(p.into_attachment());
    }
    out
}

impl NotificationContentPayload {
    /// Encodes content for the bridge.
    pub fn from_content(value: NotificationContent) -> (r: Self)
        ensures
            content_encodes_to(value, r),
            r.title == value.title,
            r.subtitle == value.subtitle,
            r.body == value.body,
            r.badge == value.badge,
            r.category_identifier == value.category_identifier,
            r.thread_identifier == value.thread_identifier,
            r.user_info == value.user_info,
            r.summary_argument == value.summary_argument,
            r.summary_argument_count == value.summary_argument_count,
            r.relevance_score == value.relevance_score,
            r.filter_criteria == value.filter_criteria,
            r.localized_title == value.localized_title,
            r.localized_subtitle == value.localized_subtitle,
            r.localized_body == value.localized_body,
            r.localized_summary_argument == value.localized_summary_argument,
            r.attachments@.len() == value.attachments@.len(),
    {
        let sound = match value.sound {
            Some(s) => Some(NotificationSoundPayload::from_sound(s)),
            None => None,
        };
        let interruption_level = match value.interruption_level {
            Some(level) => Some(level.to_raw()),
            None => None,
        };
        NotificationContentPayload {
            title: value.title,
            subtitle: value.subtitle,
            body: value.body,
            badge: value.badge,
            category_identifier: value.category_identifier,
            thread_identifier: value.thread_identifier,
            user_info: value.user_info,
            sound,
            attachments: attachments_to_payloads(value.attachments),
            summary_argument: value.summary_argument,
            summary_argument_count: value.summary_argument_count,
            interruption_level,
            relevance_score: value.relevance_score,
            filter_criteria: value.filter_criteria,
            localized_title: value.localized_title,
            localized_subtitle: value.localized_subtitle,
            localized_body: value.localized_body,
            localized_summary_argument: value.localized_summary_argument,
        }
    }

    /// Decodes content reported by the bridge.
    pub fn into_content(self) -> (r: NotificationContent)
        ensures
            content_decodes_to(self, r),
            r.title == self.title,
            r.subtitle == self.subtitle,
            r.body == self.body,
            r.badge == self.badge,
            r.category_identifier == self.category_identifier,
            r.thread_identifier == self.thread_identifier,
            r.user_info == self.user_info,
            r.summary_argument == self.summary_argument,
            r.summary_argument_count == self.summary_argument_count,
            r.relevance_score == self.relevance_score,
            r.filter_criteria == self.filter_criteria,
            r.localized_title == self.localized_title,
            r.localized_subtitle == self.localized_subtitle,
            r.localized_body == self.localized_body,
            r.localized_summary_argument == self.localized_summary_argument,
            r.attachments@.len() == self.attachments@.len(),
    {
        let sound = match self.sound {
            Some(s) => Some(s.into_sound()),
            None => None,
        };
        let interruption_level = match self.interruption_level {
            Some(raw) => Some(NotificationInterruptionLevel::from_raw(raw)),
            None => None,
        };
        NotificationContent {
            title: self.title,
            subtitle: self.subtitle,
            body: self.body,
            badge: self.badge,
            category_identifier: self.category_identifier,
            thread_identifier: self.thread_identifier,
            user_info: self.user_info,
            sound,
            attachments: payloads_to_attachments(self.attachments),
            summary_argument: self.summary_argument,
            summary_argument_count: self.summary_argument_count,
            interruption_level,
            relevance_score: self.relevance_score,
            filter_criteria: self.filter_criteria,
            localized_title: self.localized_title,
            localized_subtitle: self.localized_subtitle,
            localized_body: self.localized_body,
            localized_summary_argument: self.localized_summary_argument,
        }
    }
}

/// Decoding the payload of notification content gives the same content
/// back.
pub proof fn lemma_content_round_trip(
    c: NotificationContent,
    p: NotificationContentPayload,
    back: NotificationContent,
)
    requires
        content_encodes_to(c, p),
        content_decodes_to(p, back),
    ensures
        same_content(back, c),
{
    if let Some(s) = c.sound {
        lemma_sound_round_trip(s, p.sound->Some_0);
    }
    assert forall|i: int| 0 <= i < c.attachments@.len() implies back.attachments@[i]
        == c.attachments@[i] by {
        lemma_attachment_round_trip(c.attachments@[i], p.attachments@[i]);
    }
    assert(back.attachments@ =~= c.attachments@);
    if let Some(level) = c.interruption_level {
        crate::content::lemma_notification_interruption_level_raw_round_trip(level);
    }
}

/// Encoding content for the bridge keeps every field in its own place: the
/// payload's title is the content's title, its subtitle the subtitle, its
/// body the body, and so on for each field that crosses unchanged.
pub proof fn lemma_content_encoding_keeps_fields(c: NotificationContent, p: NotificationContentPayload)
    requires
        content_encodes_to(c, p),
    ensures
        p.title == c.title,
        p.subtitle == c.subtitle,
        p.body == c.body,
        p.badge == c.badge,
        p.category_identifier == c.category_identifier,
        p.thread_identifier == c.thread_identifier,
        p.user_info == c.user_info,
        p.summary_argument == c.summary_argument,
        p.summary_argument_count == c.summary_argument_count,
        p.relevance_score == c.relevance_score,
        p.filter_criteria == c.filter_criteria,
        p.localized_title == c.localized_title,
        p.localized_subtitle == c.localized_subtitle,
        p.localized_body == c.localized_body,
        p.localized_summary_argument == c.localized_summary_argument,
        p.attachments@.len() == c.attachments@.len(),
{
}

/// Decoding content from the bridge keeps every field in its own place.
pub proof fn lemma_content_decoding_keeps_fields(p: NotificationContentPayload, c: NotificationContent)
    requires
        content_decodes_to(p, c),
    ensures
        c.title == p.title,
        c.subtitle == p.subtitle,
        c.body == p.body,
        c.badge == p.badge,
        c.category_identifier == p.category_identifier,
        c.thread_identifier == p.thread_identifier,
        c.user_info == p.user_info,
        c.summary_argument == p.summary_argument,
        c.summary_argument_count == p.summary_argument_count,
        c.relevance_score == p.relevance_score,
        c.filter_criteria == p.filter_criteria,
        c.localized_title == p.localized_title,
        c.localized_subtitle == p.localized_subtitle,
        c.localized_body == p.localized_body,
        c.localized_summary_argument == p.localized_summary_argument,
        c.attachments@.len() == p.attachments@.len(),
{
}

/// A message person as the bridge receives it.
#[derive(Debug, Clone, PartialEq, Eq)]
pub struct NotificationMessagePersonPayload {
    /// The handle.
    pub handle: String,
    /// The raw handle type.
    pub handle_type: i32,
    /// The display name.
    pub display_name: Option<String>,
    /// The contact identifier.
    pub contact_identifier: Option<String>,
    /// The custom identifier.
    pub custom_identifier: Option<String>,
    /// Whether this person represents the current user.
    pub is_me: bool,
}

/// The payload of a message person.
pub open spec fn spec_person_payload(p: NotificationMessagePerson) -> NotificationMessagePersonPayload {
    NotificationMessagePersonPayload {
        handle: p.handle,
        handle_type: p.handle_type.spec_raw(),
        display_name: p.display_name,
        contact_identifier: p.contact_identifier,
        custom_identifier: p.custom_identifier,
        is_me: p.is_me,
    }
}

fn clone_text(s: &Option<String>) -> (r: Option<String>)
    ensures
        r == *s,
{
    match s {
        Some(t) => Some(t.clone()),
        None => None,
    }
}

impl NotificationMessagePersonPayload {
    /// Encodes a message person for the bridge.
    pub fn from_person(value: &NotificationMessagePerson) -> (r: Self)
        ensures
            r == spec_person_payload(*value),
    {
        NotificationMessagePersonPayload {
            handle: value.handle.clone(),
            handle_type: value.handle_type.to_raw(),
            display_name: clone_text(&value.display_name),
            contact_identifier: clone_text(&value.contact_identifier),
            custom_identifier: clone_text(&value.custom_identifier),
            is_me: value.is_me,
        }
    }
}

/// An attributed message context as the bridge receives it.
#[derive(Debug, Clone, PartialEq, Eq)]
pub struct NotificationAttributedMessageContextPayload {
    /// The sender.
    pub sender: Option<NotificationMessagePersonPayload>,
    /// The recipients.
    pub recipients: Vec<NotificationMessagePersonPayload>,
    /// The attributed content.
    pub attributed_content: String,
    /// The content.
    pub content: Option<String>,
    /// The raw outgoing message type.
    pub outgoing_message_type: i32,
    /// The conversation identifier.
    pub conversation_identifier: Option<String>,
    /// The service name.
    pub service_name: Option<String>,
    /// The group name.
    pub group_name: Option<String>,
}

/// Whether `p` is the payload of attributed message context `c`.
pub open spec fn spec_context_payload_matches(
    c: NotificationAttributedMessageContext,
    p: NotificationAttributedMessageContextPayload,
) -> bool {
    &&& p.sender == match c.sender {
        Some(s) => Some(spec_person_payload(s)),
        None => None,
    }
    &&& p.recipients@.len() == c.recipients@.len()
    &&& forall|i: int|
        0 <= i < c.recipients@.len() ==> #[trigger] p.recipients@[i] == spec_person_payload(
            c.recipients@[i],
        )
    &&& p.attributed_content == c.attributed_content
    &&& p.content == c.content
    &&& p.outgoing_message_type == c.outgoing_message_type.spec_raw()
    &&& p.conversation_identifier == c.conversation_identifier
    &&& p.service_name == c.service_name
    &&& p.group_name == c.group_name
}

impl NotificationAttributedMessageContextPayload {
    /// Encodes an attributed message context for the bridge.
    pub fn from_context(value: &NotificationAttributedMessageContext) -> (r: Self)
        ensures
            spec_context_payload_matches(*value, r),
    {
        let sender = match &value.sender {
            Some(s) => Some(NotificationMessagePersonPayload::from_person(s)),
            None => None,
        };
        let mut recipients: Vec<NotificationMessagePersonPayload> = Vec::new();
        let n = value.recipients.len();
        for i in 0..n
            invariant
                n == value.recipients@.len(),
                recipients@.len() == i,
                forall|j: int|
                    0 <= j < i ==> #[trigger] recipients@[j] == spec_person_payload(
                        value.recipients@[j],
                    ),
        {
            recipients.push(NotificationMessagePersonPayload::from_person(&value.recipients[i]));
        }
        NotificationAttributedMessageContextPayload {
            sender,
            recipients,
            attributed_content: value.attributed_content.clone(),
            content: clone_text(&value.content),
            outgoing_message_type: value.outgoing_message_type.to_raw(),
            conversation_identifier: clone_text(&value.conversation_identifier),
            service_name: clone_text(&value.service_name),
            group_name: clone_text(&value.group_name),
        }
    }
}

/// A content provider as the bridge receives it.
#[derive(Debug, Clone, PartialEq, Eq)]
pub struct NotificationContentProviderPayload {
    /// The provider kind: `attributedMessageContext`.
    pub kind: String,
    /// The attributed message context.
    pub attributed_message_context: Option<NotificationAttributedMessageContextPayload>,
}

impl NotificationContentProviderPayload {
    /// Encodes an attributed message context as a content provider.
    pub fn from_attributed_message_context(value: &NotificationAttributedMessageContext) -> (r:
        Self)
        ensures
            r.kind@ == "attributedMessageContext"@,
            r.attributed_message_context matches Some(c) && spec_context_payload_matches(*value, c),
    {
        NotificationContentProviderPayload {
            kind: owned("attributedMessageContext"),
            attributed_message_context: Some(
                NotificationAttributedMessageContextPayload::from_context(value),
            ),
        }
    }
}

} // verus!
