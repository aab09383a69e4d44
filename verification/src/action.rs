use vstd::prelude::*;

pub use crate::options::NotificationActionOptions;

use crate::content::LocalizedNotificationString;
use crate::text::{owned, same_text};

verus! {

/// Wraps icon metadata used by `UNNotificationActionIcon`.
#[derive(Debug, Clone, PartialEq, Eq)]
pub enum NotificationActionIcon {
    /// Uses a template image name for the action icon.
    TemplateImage(String),
    /// Uses a system image name for the action icon.
    SystemImage(String),
    /// Fallback for icon values the framework returns but this crate does not model yet.
    Unknown,
}

/// Wraps `UNNotificationAction` and `UNTextInputNotificationAction`.
#[derive(Debug, Clone, PartialEq, Eq)]
pub struct NotificationAction {
    /// The identifier.
    pub identifier: String,
    /// The title.
    pub title: String,
    /// The options.
    pub options: NotificationActionOptions,
    /// The icon.
    pub icon: Option<NotificationActionIcon>,
    /// The text input button title.
    pub text_input_button_title: Option<String>,
    /// The text input placeholder.
    pub text_input_placeholder: Option<String>,
    /// The localized title.
    pub localized_title: Option<LocalizedNotificationString>,
    /// The localized text input button title.
    pub localized_text_input_button_title: Option<LocalizedNotificationString>,
    /// The localized text input placeholder.
    pub localized_text_input_placeholder: Option<LocalizedNotificationString>,
}

impl NotificationAction {
    /// Creates a new notification action.
    pub fn new(identifier: String, title: String, options: NotificationActionOptions) -> (r: Self)
        ensures
            r == (NotificationAction {
                identifier,
                title,
                options,
                icon: None,
                text_input_button_title: None,
                text_input_placeholder: None,
                localized_title: None,
                localized_text_input_button_title: None,
                localized_text_input_placeholder: None,
            }),
    {
        NotificationAction {
            identifier,
            title,
            options,
            icon: None,
            text_input_button_title: None,
            text_input_placeholder: None,
            localized_title: None,
            localized_text_input_button_title: None,
            localized_text_input_placeholder: None,
        }
    }

    /// Creates a new text-input notification action.
    pub fn new_text_input(
        identifier: String,
        title: String,
        options: NotificationActionOptions,
        text_input_button_title: String,
        text_input_placeholder: String,
    ) -> (r: Self)
        ensures
            r == (NotificationAction {
                identifier,
                title,
                options,
                icon: None,
                text_input_button_title: Some(text_input_button_title),
                text_input_placeholder: Some(text_input_placeholder),
                localized_title: None,
                localized_text_input_button_title: None,
                localized_text_input_placeholder: None,
            }),
    {
        NotificationAction {
            identifier,
            title,
            options,
            icon: None,
            text_input_button_title: Some(text_input_button_title),
            text_input_placeholder: Some(text_input_placeholder),
            localized_title: None,
            localized_text_input_button_title: None,
            localized_text_input_placeholder: None,
        }
    }

    /// Sets icon.
    pub fn with_icon(self, icon: NotificationActionIcon) -> (r: Self)
        ensures
            r == (NotificationAction { icon: Some(icon), ..self }),
    {
        NotificationAction { icon: Some(icon), ..self }
    }

    /// Sets localized title.
    pub fn with_localized_title(self, localized_title: LocalizedNotificationString) -> (r: Self)
        ensures
            r == (NotificationAction { localized_title: Some(localized_title), ..self }),
    {
        NotificationAction { localized_title: Some(localized_title), ..self }
    }

    /// Sets localized text input button title.
    pub fn with_localized_text_input_button_title(
        self,
        localized_text_input_button_title: LocalizedNotificationString,
    ) -> (r: Self)
        ensures
            r == (NotificationAction {
                localized_text_input_button_title: Some(localized_text_input_button_title),
                ..self
            }),
    {
        NotificationAction {
            localized_text_input_button_title: Some(localized_text_input_button_title),
            ..self
        }
    }

    /// Sets localized text input placeholder.
    pub fn with_localized_text_input_placeholder(
        self,
        localized_text_input_placeholder: LocalizedNotificationString,
    ) -> (r: Self)
        ensures
            r == (NotificationAction {
                localized_text_input_placeholder: Some(localized_text_input_placeholder),
                ..self
            }),
    {
        NotificationAction {
            localized_text_input_placeholder: Some(localized_text_input_placeholder),
            ..self
        }
    }
}

/// An action icon as the bridge exchanges it.
#[derive(Debug, Clone, PartialEq, Eq)]
pub struct NotificationActionIconPayload {
    /// `templateImage`, `systemImage` or another kind.
    pub kind: String,
    /// The image name.
    pub name: Option<String>,
}

/// Whether `p` is the payload that encodes icon `icon`.
pub open spec fn icon_encodes_to(icon: NotificationActionIcon, p: NotificationActionIconPayload) -> bool {
    match icon {
        NotificationActionIcon::TemplateImage(name) => p.kind@ == "templateImage"@ && p.name
            == Some(name),
        NotificationActionIcon::SystemImage(name) => p.kind@ == "systemImage"@ && p.name == Some(
            name,
        ),
        NotificationActionIcon::Unknown => p.kind@ == "unknown"@ && p.name is None,
    }
}

/// The icon that a payload decodes to; a kind without a name decodes to
/// `Unknown`.
pub open spec fn spec_icon_from_payload(p: NotificationActionIconPayload) -> NotificationActionIcon {
    if p.kind@ == "templateImage"@ {
        match p.name {
            Some(name) => NotificationActionIcon::TemplateImage(name),
            None => NotificationActionIcon::Unknown,
        }
    } else if p.kind@ == "systemImage"@ {
        match p.name {
            Some(name) => NotificationActionIcon::SystemImage(name),
            None => NotificationActionIcon::Unknown,
        }
    } else {
        NotificationActionIcon::Unknown
    }
}

impl NotificationActionIconPayload {
    /// Encodes an icon for the bridge.
    pub fn from_icon(value: NotificationActionIcon) -> (r: Self)
        ensures
            icon_encodes_to(value, r),
    {
        match value {
            NotificationActionIcon::TemplateImage(name) => NotificationActionIconPayload {
                kind: owned("templateImage"),
                name: Some(name),
            },
            NotificationActionIcon::SystemImage(name) => NotificationActionIconPayload {
                kind: owned("systemImage"),
                name: Some(name),
            },
            NotificationActionIcon::Unknown => NotificationActionIconPayload {
                kind: owned("unknown"),
                name: None,
            },
        }
    }

    /// Decodes an icon reported by the bridge.
    pub fn into_icon(self) -> (r: NotificationActionIcon)
        ensures
            r == spec_icon_from_payload(self),
    {
        if same_text(self.kind.as_str(), "templateImage") {
            match self.name {
                Some(name) => NotificationActionIcon::TemplateImage(name),
                None => NotificationActionIcon::Unknown,
            }
        } else if same_text(self.kind.as_str(), "systemImage") {
            match self.name {
                Some(name) => NotificationActionIcon::SystemImage(name),
                None => NotificationActionIcon::Unknown,
            }
        } else {
            NotificationActionIcon::Unknown
        }
    }
}

/// Decoding the payload of an icon gives that icon back.
pub proof fn lemma_icon_round_trip(icon: NotificationActionIcon, p: NotificationActionIconPayload)
    requires
        icon_encodes_to(icon, p),
    ensures
        spec_icon_from_payload(p) == icon,
{
    reveal_strlit("templateImage");
    reveal_strlit("systemImage");
    reveal_strlit("unknown");
    assert("templateImage"@.len() != "systemImage"@.len());
    assert("templateImage"@.len() != "unknown"@.len());
    assert("systemImage"@.len() != "unknown"@.len());
}

/// An action as the bridge exchanges it.
#[derive(Debug, Clone, PartialEq, Eq)]
pub struct NotificationActionPayload {
    /// The identifier.
    pub identifier: String,
    /// The title.
    pub title: String,
    /// The raw option bits.
    pub options: u64,
    /// The icon.
    pub icon: Option<NotificationActionIconPayload>,
    /// The text input button title.
    pub text_input_button_title: Option<String>,
    /// The text input placeholder.
    pub text_input_placeholder: Option<String>,
    /// The localized title.
    pub localized_title: Option<LocalizedNotificationString>,
    /// The localized text input button title.
    pub localized_text_input_button_title: Option<LocalizedNotificationString>,
    /// The localized text input placeholder.
    pub localized_text_input_placeholder: Option<LocalizedNotificationString>,
}

/// Whether `p` is the payload that encodes action `a`.
pub open spec fn action_encodes_to(a: NotificationAction, p: NotificationActionPayload) -> bool {
    &&& p.identifier == a.identifier
    &&& p.title == a.title
    &&& p.options == a.options@
    &&& match a.icon {
        Some(icon) => p.icon matches Some(pi) && icon_encodes_to(icon, pi),
        None => p.icon is None,
    }
    &&& p.text_input_button_title == a.text_input_button_title
    &&& p.text_input_placeholder == a.text_input_placeholder
    &&& p.localized_title == a.localized_title
    &&& p.localized_text_input_button_title == a.localized_text_input_button_title
    &&& p.localized_text_input_placeholder == a.localized_text_input_placeholder
}

/// The action that a payload decodes to.
pub open spec fn spec_action_from_payload(p: NotificationActionPayload) -> NotificationAction {
    NotificationAction {
        identifier: p.identifier,
        title: p.title,
        options: NotificationActionOptions::spec_from_bits(p.options),
        icon: match p.icon {
            Some(i) => Some(spec_icon_from_payload(i)),
            None => None,
        },
        text_input_button_title: p.text_input_button_title,
        text_input_placeholder: p.text_input_placeholder,
        localized_title: p.localized_title,
        localized_text_input_button_title: p.localized_text_input_button_title,
        localized_text_input_placeholder: p.localized_text_input_placeholder,
    }
}

impl NotificationActionPayload {
    /// Encodes an action for the bridge.
    pub fn from_action(value: NotificationAction) -> (r: Self)
        ensures
            action_encodes_to(value, r),
            r.identifier == value.identifier,
            r.title == value.title,
            r.text_input_button_title == value.text_input_button_title,
            r.text_input_placeholder == value.text_input_placeholder,
            r.localized_title == value.localized_title,
            r.localized_text_input_button_title == value.localized_text_input_button_title,
            r.localized_text_input_placeholder == value.localized_text_input_placeholder,
            r.options == value.options@,
            value.icon is None <==> r.icon is None,
    {
        let icon = match value.icon {
            Some(i) => Some(NotificationActionIconPayload::from_icon(i)),
            None => None,
        };
        NotificationActionPayload {
            identifier: value.identifier,
            title: value.title,
            options: value.options.bits(),
            icon,
            text_input_button_title: value.text_input_button_title,
            text_input_placeholder: value.text_input_placeholder,
            localized_title: value.localized_title,
            localized_text_input_button_title: value.localized_text_input_button_title,
            localized_text_input_placeholder: value.localized_text_input_placeholder,
        }
    }

    /// Decodes an action reported by the bridge.
    pub fn into_action(self) -> (r: NotificationAction)
        ensures
            r == spec_action_from_payload(self),
            r.identifier == self.identifier,
            r.title == self.title,
            r.text_input_button_title == self.text_input_button_title,
            r.text_input_placeholder == self.text_input_placeholder,
            r.localized_title == self.localized_title,
            r.localized_text_input_button_title == self.localized_text_input_button_title,
            r.localized_text_input_placeholder == self.localized_text_input_placeholder,
            r.options@ == self.options,
            self.icon is None <==> r.icon is None,
    {
        let icon = match self.icon {
            Some(i) => Some(i.into_icon()),
            None => None,
        };
        NotificationAction {
            identifier: self.identifier,
            title: self.title,
            options: NotificationActionOptions::from_bits(self.options),
            icon,
            text_input_button_title: self.text_input_button_title,
            text_input_placeholder: self.text_input_placeholder,
            localized_title: self.localized_title,
            localized_text_input_button_title: self.localized_text_input_button_title,
            localized_text_input_placeholder: self.localized_text_input_placeholder,
        }
    }
}

/// Decoding the payload of an action gives that action back.
pub proof fn lemma_action_round_trip(a: NotificationAction, p: NotificationActionPayload)
    requires
        action_encodes_to(a, p),
    ensures
        spec_action_from_payload(p) == a,
{
    if let Some(icon) = a.icon {
        lemma_icon_round_trip(icon, p.icon->Some_0);
    }
    NotificationActionOptions::lemma_from_bits_view(a.options);
}

/// Encoding an action keeps each field in its own place: the text-input
/// button title and the placeholder stay apart, as do the identifier and the
/// title, and the options cross as their bits.
pub proof fn lemma_action_encoding_keeps_fields(a: NotificationAction, p: NotificationActionPayload)
    requires
        action_encodes_to(a, p),
    ensures
        p.identifier == a.identifier,
        p.title == a.title,
        p.text_input_button_title == a.text_input_button_title,
        p.text_input_placeholder == a.text_input_placeholder,
        p.localized_title == a.localized_title,
        p.localized_text_input_button_title == a.localized_text_input_button_title,
        p.localized_text_input_placeholder == a.localized_text_input_placeholder,
        p.options == a.options@,
{
}

/// Decoding an action keeps each field in its own place.
pub proof fn lemma_action_decoding_keeps_fields(p: NotificationActionPayload)
    ensures
        spec_action_from_payload(p).identifier == p.identifier,
        spec_action_from_payload(p).title == p.title,
        spec_action_from_payload(p).text_input_button_title == p.text_input_button_title,
        spec_action_from_payload(p).text_input_placeholder == p.text_input_placeholder,
        spec_action_from_payload(p).localized_title == p.localized_title,
        spec_action_from_payload(p).localized_text_input_button_title == p.localized_text_input_button_title,
        spec_action_from_payload(p).localized_text_input_placeholder == p.localized_text_input_placeholder,
        spec_action_from_payload(p).options@ == p.options,
{
    NotificationActionOptions::lemma_from_bits_view(spec_action_from_payload(p).options);
}

/// Encodes a list of actions for the bridge, in order.
pub fn actions_to_payloads(actions: Vec<NotificationAction>) -> (r: Vec<NotificationActionPayload>)
    ensures
        r@.len() == actions@.len(),
        forall|i: int| 0 <= i < actions@.len() ==> action_encodes_to(actions@[i], #[trigger] r@[i]),
{
    let ghost src = actions@;
    let mut out: Vec<NotificationActionPayload> = Vec::new();
    for a in it: actions.into_iter()
        invariant
            it.seq() == src,
            out@.len() == it.index(),
            forall|j: int| 0 <= j < it.index() ==> action_encodes_to(src[j], #[trigger] out@[j]),
    {
        out.push(NotificationActionPayload::from_action(a));
    }
    out
}

/// Decodes a list of actions reported by the bridge, in order.
pub fn payloads_to_actions(payloads: Vec<NotificationActionPayload>) -> (r: Vec<NotificationAction>)
    ensures
        r@.len() == payloads@.len(),
        forall|i: int|
            0 <= i < payloads@.len() ==> #[trigger] r@[i] == spec_action_from_payload(payloads@[i]),
{
    let ghost src = payloads@;
    let mut out: Vec<NotificationAction> = Vec::new();
    for p in it: payloads.into_iter()
        invariant
            it.seq() == src,
            out@.len() == it.index(),
            forall|j: int| 0 <= j < it.index() ==> #[trigger] out@[j] == spec_action_from_payload(src[j]),
    {
        out.push(p.into_action());
    }
    out
}

} // verus!
