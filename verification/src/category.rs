use vstd::prelude::*;

pub use crate::options::NotificationCategoryOptions;

use crate::action::{
    action_encodes_to, actions_to_payloads, lemma_action_round_trip, payloads_to_actions,
    spec_action_from_payload, NotificationAction, NotificationActionPayload,
};
use crate::content::LocalizedNotificationString;

verus! {

/// Wraps `UNNotificationCategory`.
#[derive(Debug, Clone, PartialEq, Eq)]
pub struct NotificationCategory {
    /// The identifier.
    pub identifier: String,
    /// The actions.
    pub actions: Vec<NotificationAction>,
    /// The intent identifiers.
    pub intent_identifiers: Vec<String>,
    /// The options.
    pub options: NotificationCategoryOptions,
    /// The hidden previews body placeholder.
    pub hidden_previews_body_placeholder: Option<String>,
    /// The category summary format.
    pub category_summary_format: Option<String>,
    /// The localized hidden previews body placeholder.
    pub localized_hidden_previews_body_placeholder: Option<LocalizedNotificationString>,
    /// The localized category summary format.
    pub localized_category_summary_format: Option<LocalizedNotificationString>,
}

impl NotificationCategory {
    /// Creates a new notification category.
    pub fn new(
        identifier: String,
        actions: Vec<NotificationAction>,
        intent_identifiers: Vec<String>,
        options: NotificationCategoryOptions,
    ) -> (r: Self)
        ensures
            r == (NotificationCategory {
                identifier,
                actions,
                intent_identifiers,
                options,
                hidden_previews_body_placeholder: None,
                category_summary_format: None,
                localized_hidden_previews_body_placeholder: None,
                localized_category_summary_format: None,
            }),
    {
        NotificationCategory {
            identifier,
            actions,
            intent_identifiers,
            options,
            hidden_previews_body_placeholder: None,
            category_summary_format: None,
            localized_hidden_previews_body_placeholder: None,
            localized_category_summary_format: None,
        }
    }

    /// Sets hidden previews body placeholder.
    pub fn with_hidden_previews_body_placeholder(self, hidden_previews_body_placeholder: String) -> (r:
        Self)
        ensures
            r == (NotificationCategory {
                hidden_previews_body_placeholder: Some(hidden_previews_body_placeholder),
                ..self
            }),
    {
        NotificationCategory {
            hidden_previews_body_placeholder: Some(hidden_previews_body_placeholder),
            ..self
        }
    }

    /// Sets category summary format.
    pub fn with_category_summary_format(self, category_summary_format: String) -> (r: Self)
        ensures
            r == (NotificationCategory {
                category_summary_format: Some(category_summary_format),
                ..self
            }),
    {
        NotificationCategory { category_summary_format: Some(category_summary_format), ..self }
    }

    /// Sets localized hidden previews body placeholder.
    pub fn with_localized_hidden_previews_body_placeholder(
        self,
        localized_hidden_previews_body_placeholder: LocalizedNotificationString,
    ) -> (r: Self)
        ensures
            r == (NotificationCategory {
                localized_hidden_previews_body_placeholder: Some(
                    localized_hidden_previews_body_placeholder,
                ),
                ..self
            }),
    {
        NotificationCategory {
            localized_hidden_previews_body_placeholder: Some(
                localized_hidden_previews_body_placeholder,
            ),
            ..self
        }
    }

    /// Sets localized category summary format.
    pub fn with_localized_category_summary_format(
        self,
        localized_category_summary_format: LocalizedNotificationString,
    ) -> (r: Self)
        ensures
            r == (NotificationCategory {
                localized_category_summary_format: Some(localized_category_summary_format),
                ..self
            }),
    {
        NotificationCategory {
            localized_category_summary_format: Some(localized_category_summary_format),
            ..self
        }
    }
}

/// A category as the bridge exchanges it.
#[derive(Debug, Clone, PartialEq, Eq)]
pub struct NotificationCategoryPayload {
    /// The identifier.
    pub identifier: String,
    /// The actions.
    pub actions: Vec<NotificationActionPayload>,
    /// The intent identifiers.
    pub intent_identifiers: Vec<String>,
    /// The raw option bits.
    pub options: u64,
    /// The hidden previews body placeholder.
    pub hidden_previews_body_placeholder: Option<String>,
    /// The category summary format.
    pub category_summary_format: Option<String>,
    /// The localized hidden previews body placeholder.
    pub localized_hidden_previews_body_placeholder: Option<LocalizedNotificationString>,
    /// The localized category summary format.
    pub localized_category_summary_format: Option<LocalizedNotificationString>,
}

/// Whether `p` is the payload that encodes category `c`.
pub open spec fn category_encodes_to(c: NotificationCategory, p: NotificationCategoryPayload) -> bool {
    &&& p.identifier == c.identifier
    &&& p.actions@.len() == c.actions@.len()
    &&& forall|i: int|
        0 <= i < c.actions@.len() ==> action_encodes_to(c.actions@[i], #[trigger] p.actions@[i])
    &&& p.intent_identifiers == c.intent_identifiers
    &&& p.options == c.options@
    &&& p.hidden_previews_body_placeholder == c.hidden_previews_body_placeholder
    &&& p.category_summary_format == c.category_summary_format
    &&& p.localized_hidden_previews_body_placeholder == c.localized_hidden_previews_body_placeholder
    &&& p.localized_category_summary_format == c.localized_category_summary_format
}

/// Whether `c` is the category that payload `p` decodes to.
pub open spec fn category_decodes_to(p: NotificationCategoryPayload, c: NotificationCategory) -> bool {
    &&& c.identifier == p.identifier
    &&& c.actions@.len() == p.actions@.len()
    &&& forall|i: int|
        0 <= i < p.actions@.len() ==> #[trigger] c.actions@[i] == spec_action_from_payload(
            p.actions@[i],
        )
    &&& c.intent_identifiers == p.intent_identifiers
    &&& c.options == NotificationCategoryOptions::spec_from_bits(p.options)
    &&& c.hidden_previews_body_placeholder == p.hidden_previews_body_placeholder
    &&& c.category_summary_format == p.category_summary_format
    &&& c.localized_hidden_previews_body_placeholder == p.localized_hidden_previews_body_placeholder
    &&& c.localized_category_summary_format == p.localized_category_summary_format
}

/// Whether two categories hold the same values: every field equal, the
/// actions element by element.
pub open spec fn same_category(a: NotificationCategory, b: NotificationCategory) -> bool {
    &&& a.identifier == b.identifier
    &&& a.actions@ == b.actions@
    &&& a.intent_identifiers == b.intent_identifiers
    &&& a.options == b.options
    &&& a.hidden_previews_body_placeholder == b.hidden_previews_body_placeholder
    &&& a.category_summary_format == b.category_summary_format
    &&& a.localized_hidden_previews_body_placeholder == b.localized_hidden_previews_body_placeholder
    &&& a.localized_category_summary_format == b.localized_category_summary_format
}

impl NotificationCategoryPayload {
    /// Encodes a category for the bridge.
    pub fn from_category(value: NotificationCategory) -> (r: Self)
        ensures
            category_encodes_to(value, r),
    {
        NotificationCategoryPayload {
            identifier: value.identifier,
            actions: actions_to_payloads(value.actions),
            intent_identifiers: value.intent_identifiers,
            options: value.options.bits(),
            hidden_previews_body_placeholder: value.hidden_previews_body_placeholder,
            category_summary_format: value.category_summary_format,
            localized_hidden_previews_body_placeholder: value.localized_hidden_previews_body_placeholder,
            localized_category_summary_format: value.localized_category_summary_format,
        }
    }

    /// Decodes a category reported by the bridge.
    pub fn into_category(self) -> (r: NotificationCategory)
        ensures
            category_decodes_to(self, r),
    {
        NotificationCategory {
            identifier: self.identifier,
            actions: payloads_to_actions(self.actions),
            intent_identifiers: self.intent_identifiers,
            options: NotificationCategoryOptions::from_bits(self.options),
            hidden_previews_body_placeholder: self.hidden_previews_body_placeholder,
            category_summary_format: self.category_summary_format,
            localized_hidden_previews_body_placeholder: self.localized_hidden_previews_body_placeholder,
            localized_category_summary_format: self.localized_category_summary_format,
        }
    }
}

/// Decoding the payload of a category gives the same category back.
pub proof fn lemma_category_round_trip(
    c: NotificationCategory,
    p: NotificationCategoryPayload,
    back: NotificationCategory,
)
    requires
        category_encodes_to(c, p),
        category_decodes_to(p, back),
    ensures
        same_category(back, c),
{
    assert forall|i: int| 0 <= i < c.actions@.len() implies back.actions@[i] == c.actions@[i] by {
        lemma_action_round_trip(c.actions@[i], p.actions@[i]);
    }
    assert(back.actions@ =~= c.actions@);
    NotificationCategoryOptions::lemma_from_bits_view(c.options);
}

/// Encodes a list of categories for the bridge, in order.
pub fn categories_to_payloads(categories: Vec<NotificationCategory>) -> (r: Vec<
    NotificationCategoryPayload,
>)
    ensures
        r@.len() == categories@.len(),
        forall|i: int|
            0 <= i < categories@.len() ==> category_encodes_to(categories@[i], #[trigger] r@[i]),
{
    let ghost src = categories@;
    let mut out: Vec<NotificationCategoryPayload> = Vec::new();
    for c in it: categories.into_iter()
        invariant
            it.seq() == src,
            out@.len() == it.index(),
            forall|j: int| 0 <= j < it.index() ==> category_encodes_to(src[j], #[trigger] out@[j]),
    {
        out.push(NotificationCategoryPayload::from_category(c));
    }
    out
}

/// Decodes a list of categories reported by the bridge, in order.
pub fn payloads_to_categories(payloads: Vec<NotificationCategoryPayload>) -> (r: Vec<
    NotificationCategory,
>)
    ensures
        r@.len() == payloads@.len(),
        forall|i: int|
            0 <= i < payloads@.len() ==> category_decodes_to(payloads@[i], #[trigger] r@[i]),
{
    let ghost src = payloads@;
    let mut out: Vec<NotificationCategory> = Vec::new();
    for p in it: payloads.into_iter()
        invariant
            it.seq() == src,
            out@.len() == it.index(),
            forall|j: int| 0 <= j < it.index() ==> category_decodes_to(src[j], #[trigger] out@[j]),
    {
        out.push(p.into_category());
    }
    out
}

} // verus!
