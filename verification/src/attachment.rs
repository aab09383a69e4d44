use vstd::prelude::*;

use crate::float_bits::F64Bits;

verus! {

/// Matches `UNNotificationAttachmentOptionsTypeHintKey`.
pub const ATTACHMENT_OPTIONS_TYPE_HINT_KEY: &'static str = "UNNotificationAttachmentOptionsTypeHintKey";

/// Matches `UNNotificationAttachmentOptionsThumbnailHiddenKey`.
pub const ATTACHMENT_OPTIONS_THUMBNAIL_HIDDEN_KEY: &'static str = "UNNotificationAttachmentOptionsThumbnailHiddenKey";

/// Matches `UNNotificationAttachmentOptionsThumbnailClippingRectKey`.
pub const ATTACHMENT_OPTIONS_THUMBNAIL_CLIPPING_RECT_KEY: &'static str = "UNNotificationAttachmentOptionsThumbnailClippingRectKey";

/// Matches `UNNotificationAttachmentOptionsThumbnailTimeKey`.
pub const ATTACHMENT_OPTIONS_THUMBNAIL_TIME_KEY: &'static str = "UNNotificationAttachmentOptionsThumbnailTimeKey";

/// Wraps the clipping rectangle used by `UNNotificationAttachment` thumbnail
/// options. Each coordinate is an `f64` held as its bit pattern.
///
/// `==` compares the coordinates as `f64` values do.
#[derive(Debug, Clone, Copy, PartialEq)]
pub struct AttachmentThumbnailClippingRect {
    /// The x.
    pub x: F64Bits,
    /// The y.
    pub y: F64Bits,
    /// The width.
    pub width: F64Bits,
    /// The height.
    pub height: F64Bits,
}

impl AttachmentThumbnailClippingRect {
    /// Creates a new attachment thumbnail clipping rect from the bit
    /// patterns of its coordinates.
    pub fn new(x: u64, y: u64, width: u64, height: u64) -> (r: Self)
        ensures
            r == (AttachmentThumbnailClippingRect {
                x: F64Bits(x),
                y: F64Bits(y),
                width: F64Bits(width),
                height: F64Bits(height),
            }),
    {
        AttachmentThumbnailClippingRect {
            x: F64Bits(x),
            y: F64Bits(y),
            width: F64Bits(width),
            height: F64Bits(height),
        }
    }
}

/// Wraps the thumbnail time value used by `UNNotificationAttachment` options.
///
/// `==` compares a time offset as `f64` values do.
#[derive(Debug, Clone, Copy, PartialEq)]
pub enum AttachmentThumbnailTime {
    /// Uses a time offset in seconds.
    Seconds(F64Bits),
    /// Uses a frame index.
    Frame(u64),
}

/// Wraps the option dictionary used to create `UNNotificationAttachment` values.
#[derive(Debug, Clone, PartialEq, Default)]
pub struct NotificationAttachmentOptions {
    /// The type hint.
    pub type_hint: Option<String>,
    /// Whether the attachment thumbnail is hidden.
    pub thumbnail_hidden: bool,
    /// The thumbnail clipping rect.
    pub thumbnail_clipping_rect: Option<AttachmentThumbnailClippingRect>,
    /// The thumbnail time.
    pub thumbnail_time: Option<AttachmentThumbnailTime>,
}

impl NotificationAttachmentOptions {
    /// Options with nothing set.
    pub open spec fn spec_empty() -> Self {
        NotificationAttachmentOptions {
            type_hint: None,
            thumbnail_hidden: false,
            thumbnail_clipping_rect: None,
            thumbnail_time: None,
        }
    }

    /// Creates default notification attachment options.
    pub fn new() -> (r: Self)
        ensures
            r == Self::spec_empty(),
    {
        NotificationAttachmentOptions {
            type_hint: None,
            thumbnail_hidden: false,
            thumbnail_clipping_rect: None,
            thumbnail_time: None,
        }
    }

    /// Sets type hint.
    pub fn with_type_hint(self, type_hint: String) -> (r: Self)
        ensures
            r == (NotificationAttachmentOptions { type_hint: Some(type_hint), ..self }),
    {
        NotificationAttachmentOptions { type_hint: Some(type_hint), ..self }
    }

    /// Sets thumbnail hidden.
    pub fn with_thumbnail_hidden(self, thumbnail_hidden: bool) -> (r: Self)
        ensures
            r == (NotificationAttachmentOptions { thumbnail_hidden, ..self }),
    {
        NotificationAttachmentOptions { thumbnail_hidden, ..self }
    }

    /// Sets thumbnail clipping rect.
    pub fn with_thumbnail_clipping_rect(
        self,
        thumbnail_clipping_rect: AttachmentThumbnailClippingRect,
    ) -> (r: Self)
        ensures
            r == (NotificationAttachmentOptions {
                thumbnail_clipping_rect: Some(thumbnail_clipping_rect),
                ..self
            }),
    {
        NotificationAttachmentOptions {
            thumbnail_clipping_rect: Some(thumbnail_clipping_rect),
            ..self
        }
    }

    /// Sets thumbnail time.
    pub fn with_thumbnail_time(self, thumbnail_time: AttachmentThumbnailTime) -> (r: Self)
        ensures
            r == (NotificationAttachmentOptions { thumbnail_time: Some(thumbnail_time), ..self }),
    {
        NotificationAttachmentOptions { thumbnail_time: Some(thumbnail_time), ..self }
    }
}

/// Wraps `UNNotificationAttachment`.
#[derive(Debug, Clone, PartialEq)]
pub struct NotificationAttachment {
    /// The identifier.
    pub identifier: String,
    /// The file path.
    pub file_path: String,
    /// The attachment type (a uniform type identifier), once the framework
    /// has inspected the file.
    pub attachment_type: Option<String>,
    /// The options.
    pub options: NotificationAttachmentOptions,
}

impl NotificationAttachment {
    /// Describes a file to attach, before the framework has inspected it.
    pub fn new(identifier: String, file_path: String, options: NotificationAttachmentOptions) -> (r:
        Self)
        ensures
            r == (NotificationAttachment { identifier, file_path, attachment_type: None, options }),
    {
        NotificationAttachment { identifier, file_path, attachment_type: None, options }
    }

    /// Returns the attachment file path.
    pub fn file_path(&self) -> (r: &str)
        ensures
            r@ == self.file_path@,
    {
        self.file_path.as_str()
    }
}

/// The clipping rectangle as the bridge exchanges it.
#[derive(Debug, Clone, Copy, PartialEq)]
pub struct AttachmentThumbnailClippingRectPayload {
    /// The x.
    pub x: F64Bits,
    /// The y.
    pub y: F64Bits,
    /// The width.
    pub width: F64Bits,
    /// The height.
    pub height: F64Bits,
}

/// The thumbnail time as the bridge exchanges it.
#[derive(Debug, Clone, Copy, PartialEq)]
pub enum AttachmentThumbnailTimePayload {
    /// A time offset in seconds.
    Seconds(F64Bits),
    /// A frame index.
    Frame(u64),
}

/// The attachment options as the bridge exchanges them.
#[derive(Debug, Clone, PartialEq)]
pub struct NotificationAttachmentOptionsPayload {
    /// The type hint.
    pub type_hint: Option<String>,
    /// Whether the attachment thumbnail is hidden.
    pub thumbnail_hidden: bool,
    /// The thumbnail clipping rect.
    pub thumbnail_clipping_rect: Option<AttachmentThumbnailClippingRectPayload>,
    /// The thumbnail time.
    pub thumbnail_time: Option<AttachmentThumbnailTimePayload>,
}

/// The attachment as the bridge exchanges it.
#[derive(Debug, Clone, PartialEq)]
pub struct NotificationAttachmentPayload {
    /// The identifier.
    pub identifier: String,
    /// The file path.
    pub file_path: String,
    /// The attachment type.
    pub attachment_type: Option<String>,
    /// The options.
    pub options: NotificationAttachmentOptionsPayload,
}

/// The payload of a clipping rectangle.
pub open spec fn spec_rect_payload(r: AttachmentThumbnailClippingRect) -> AttachmentThumbnailClippingRectPayload {
    AttachmentThumbnailClippingRectPayload { x: r.x, y: r.y, width: r.width, height: r.height }
}

/// The clipping rectangle of a payload.
pub open spec fn spec_rect_from_payload(p: AttachmentThumbnailClippingRectPayload) -> AttachmentThumbnailClippingRect {
    AttachmentThumbnailClippingRect { x: p.x, y: p.y, width: p.width, height: p.height }
}

/// The payload of a thumbnail time.
pub open spec fn spec_time_payload(t: AttachmentThumbnailTime) -> AttachmentThumbnailTimePayload {
    match t {
        AttachmentThumbnailTime::Seconds(s) => AttachmentThumbnailTimePayload::Seconds(s),
        AttachmentThumbnailTime::Frame(f) => AttachmentThumbnailTimePayload::Frame(f),
    }
}

/// The thumbnail time of a payload.
pub open spec fn spec_time_from_payload(p: AttachmentThumbnailTimePayload) -> AttachmentThumbnailTime {
    match p {
        AttachmentThumbnailTimePayload::Seconds(s) => AttachmentThumbnailTime::Seconds(s),
        AttachmentThumbnailTimePayload::Frame(f) => AttachmentThumbnailTime::Frame(f),
    }
}

/// The payload of attachment options.
pub open spec fn spec_options_payload(o: NotificationAttachmentOptions) -> NotificationAttachmentOptionsPayload {
    NotificationAttachmentOptionsPayload {
        type_hint: o.type_hint,
        thumbnail_hidden: o.thumbnail_hidden,
        thumbnail_clipping_rect: match o.thumbnail_clipping_rect {
            Some(r) => Some(spec_rect_payload(r)),
            None => None,
        },
        thumbnail_time: match o.thumbnail_time {
            Some(t) => Some(spec_time_payload(t)),
            None => None,
        },
    }
}

/// The attachment options of a payload.
pub open spec fn spec_options_from_payload(p: NotificationAttachmentOptionsPayload) -> NotificationAttachmentOptions {
    NotificationAttachmentOptions {
        type_hint: p.type_hint,
        thumbnail_hidden: p.thumbnail_hidden,
        thumbnail_clipping_rect: match p.thumbnail_clipping_rect {
            Some(r) => Some(spec_rect_from_payload(r)),
            None => None,
        },
        thumbnail_time: match p.thumbnail_time {
            Some(t) => Some(spec_time_from_payload(t)),
            None => None,
        },
    }
}

/// The payload of an attachment.
pub open spec fn spec_attachment_payload(a: NotificationAttachment) -> NotificationAttachmentPayload {
    NotificationAttachmentPayload {
        identifier: a.identifier,
        file_path: a.file_path,
        attachment_type: a.attachment_type,
        options: spec_options_payload(a.options),
    }
}

/// The attachment of a payload.
pub open spec fn spec_attachment_from_payload(p: NotificationAttachmentPayload) -> NotificationAttachment {
    NotificationAttachment {
        identifier: p.identifier,
        file_path: p.file_path,
        attachment_type: p.attachment_type,
        options: spec_options_from_payload(p.options),
    }
}

impl NotificationAttachmentOptionsPayload {
    /// Encodes attachment options for the bridge.
    pub fn from_options(value: NotificationAttachmentOptions) -> (r: Self)
        ensures
            r == spec_options_payload(value),
            r.type_hint == value.type_hint,
            r.thumbnail_hidden == value.thumbnail_hidden,
            value.thumbnail_clipping_rect is None <==> r.thumbnail_clipping_rect is None,
            value.thumbnail_clipping_rect matches Some(c) ==> (r.thumbnail_clipping_rect matches Some(d)
                && d.x == c.x && d.y == c.y && d.width == c.width && d.height == c.height),
            value.thumbnail_time is None <==> r.thumbnail_time is None,
            value.thumbnail_time matches Some(AttachmentThumbnailTime::Seconds(t)) ==> r.thumbnail_time == Some(
                AttachmentThumbnailTimePayload::Seconds(t),
            ),
            value.thumbnail_time matches Some(AttachmentThumbnailTime::Frame(n)) ==> r.thumbnail_time == Some(
                AttachmentThumbnailTimePayload::Frame(n),
            ),
    {
        NotificationAttachmentOptionsPayload {
            type_hint: value.type_hint,
            thumbnail_hidden: value.thumbnail_hidden,
            thumbnail_clipping_rect: match value.thumbnail_clipping_rect {
                Some(r) => Some(
                    AttachmentThumbnailClippingRectPayload {
                        x: r.x,
                        y: r.y,
                        width: r.width,
                        height: r.height,
                    },
                ),
                None => None,
            },
            thumbnail_time: match value.thumbnail_time {
                Some(AttachmentThumbnailTime::Seconds(s)) => Some(
                    AttachmentThumbnailTimePayload::Seconds(s),
                ),
                Some(AttachmentThumbnailTime::Frame(f)) => Some(
                    AttachmentThumbnailTimePayload::Frame(f),
                ),
                None => None,
            },
        }
    }

    /// Decodes attachment options reported by the bridge.
    pub fn into_options(self) -> (r: NotificationAttachmentOptions)
        ensures
            r == spec_options_from_payload(self),
            r.type_hint == self.type_hint,
            r.thumbnail_hidden == self.thumbnail_hidden,
            self.thumbnail_clipping_rect is None <==> r.thumbnail_clipping_rect is None,
            self.thumbnail_clipping_rect matches Some(c) ==> (r.thumbnail_clipping_rect matches Some(d)
                && d.x == c.x && d.y == c.y && d.width == c.width && d.height == c.height),
            self.thumbnail_time is None <==> r.thumbnail_time is None,
            self.thumbnail_time matches Some(AttachmentThumbnailTimePayload::Seconds(t)) ==> r.thumbnail_time == Some(
                AttachmentThumbnailTime::Seconds(t),
            ),
            self.thumbnail_time matches Some(AttachmentThumbnailTimePayload::Frame(n)) ==> r.thumbnail_time == Some(
                AttachmentThumbnailTime::Frame(n),
            ),
    {
        NotificationAttachmentOptions {
            type_hint: self.type_hint,
            thumbnail_hidden: self.thumbnail_hidden,
            thumbnail_clipping_rect: match self.thumbnail_clipping_rect {
                Some(r) => Some(
                    AttachmentThumbnailClippingRect {
                        x: r.x,
                        y: r.y,
                        width: r.width,
                        height: r.height,
                    },
                ),
                None => None,
            },
            thumbnail_time: match self.thumbnail_time {
                Some(AttachmentThumbnailTimePayload::Seconds(s)) => Some(
                    AttachmentThumbnailTime::Seconds(s),
                ),
                Some(AttachmentThumbnailTimePayload::Frame(f)) => Some(
                    AttachmentThumbnailTime::Frame(f),
                ),
                None => None,
            },
        }
    }
}

impl NotificationAttachmentPayload {
    /// Encodes an attachment for the bridge.
    pub fn from_attachment(value: NotificationAttachment) -> (r: Self)
        ensures
            r == spec_attachment_payload(value),
            r.identifier == value.identifier,
            r.file_path == value.file_path,
            r.attachment_type == value.attachment_type,
            r.options.type_hint == value.options.type_hint,
            r.options.thumbnail_hidden == value.options.thumbnail_hidden,
    {
        NotificationAttachmentPayload {
            identifier: value.identifier,
            file_path: value.file_path,
            attachment_type: value.attachment_type,
            options: NotificationAttachmentOptionsPayload::from_options(value.options),
        }
    }

    /// Decodes an attachment reported by the bridge.
    pub fn into_attachment(self) -> (r: NotificationAttachment)
        ensures
            r == spec_attachment_from_payload(self),
            r.identifier == self.identifier,
            r.file_path == self.file_path,
            r.attachment_type == self.attachment_type,
            r.options.type_hint == self.options.type_hint,
            r.options.thumbnail_hidden == self.options.thumbnail_hidden,
    {
        NotificationAttachment {
            identifier: self.identifier,
            file_path: self.file_path,
            attachment_type: self.attachment_type,
            options: self.options.into_options(),
        }
    }
}

/// Encoding an attachment for the bridge and decoding it gives the same
/// attachment back, and decoding a payload and encoding it again gives the
/// same payload back.
pub proof fn lemma_attachment_round_trip(a: NotificationAttachment, p: NotificationAttachmentPayload)
    ensures
        spec_attachment_from_payload(spec_attachment_payload(a)) == a,
        spec_attachment_payload(spec_attachment_from_payload(p)) == p,
{
}

/// Encoding and decoding attachment options keep each option in its own
/// place: the thumbnail flag, the type hint, the clipping rectangle's
/// coordinates and the thumbnail time cross unchanged in both directions.
pub proof fn lemma_attachment_options_keep_fields(
    o: NotificationAttachmentOptions,
    p: NotificationAttachmentOptionsPayload,
)
    ensures
        spec_options_payload(o).thumbnail_hidden == o.thumbnail_hidden,
        spec_options_payload(o).type_hint == o.type_hint,
        o.thumbnail_clipping_rect matches Some(c) ==> (spec_options_payload(o).thumbnail_clipping_rect
            matches Some(d) && d.x == c.x && d.y == c.y && d.width == c.width && d.height == c.height),
        o.thumbnail_time matches Some(AttachmentThumbnailTime::Seconds(t)) ==> spec_options_payload(
            o,
        ).thumbnail_time == Some(AttachmentThumbnailTimePayload::Seconds(t)),
        spec_options_from_payload(p).thumbnail_hidden == p.thumbnail_hidden,
        spec_options_from_payload(p).type_hint == p.type_hint,
        p.thumbnail_clipping_rect matches Some(d) ==> (spec_options_from_payload(p).thumbnail_clipping_rect
            matches Some(c) && c.x == d.x && c.y == d.y && c.width == d.width && c.height == d.height),
        p.thumbnail_time matches Some(AttachmentThumbnailTimePayload::Seconds(t)) ==> spec_options_from_payload(
            p,
        ).thumbnail_time == Some(AttachmentThumbnailTime::Seconds(t)),
{
}

/// Encoding and decoding an attachment keep its identifier, file path, type
/// and thumbnail flag unchanged.
pub proof fn lemma_attachment_keeps_fields(a: NotificationAttachment, p: NotificationAttachmentPayload)
    ensures
        spec_attachment_payload(a).identifier == a.identifier,
        spec_attachment_payload(a).file_path == a.file_path,
        spec_attachment_payload(a).attachment_type == a.attachment_type,
        spec_attachment_payload(a).options.thumbnail_hidden == a.options.thumbnail_hidden,
        spec_attachment_from_payload(p).identifier == p.identifier,
        spec_attachment_from_payload(p).file_path == p.file_path,
        spec_attachment_from_payload(p).attachment_type == p.attachment_type,
        spec_attachment_from_payload(p).options.thumbnail_hidden == p.options.thumbnail_hidden,
{
}

} // verus!
