use vstd::prelude::*;

use crate::float_bits::F64Bits;

verus! {

/// Wraps `UNNotificationContentExtensionMediaPlayPauseButtonType`.
#[derive(Debug, Clone, Copy, PartialEq, Eq, Structural)]
pub enum NotificationContentExtensionMediaPlayPauseButtonType {
    /// No play/pause button.
    NoButton,
    /// The default play/pause button.
    Default,
    /// A play/pause button overlaid on the content.
    Overlay,
}

impl NotificationContentExtensionMediaPlayPauseButtonType {
    /// The framework value of each variant.
    pub open spec fn spec_raw(self) -> u64 {
        match self {
            Self::NoButton => 0,
            Self::Default => 1,
            Self::Overlay => 2,
        }
    }

    /// The variant that a raw framework value stands for; other values
    /// fall back to `NoButton`.
    pub open spec fn spec_from_raw(raw: u64) -> Self {
        if raw == 1 {
            Self::Default
        } else if raw == 2 {
            Self::Overlay
        } else {
            Self::NoButton
        }
    }

    /// Converts a raw framework value into a play/pause button type.
    pub fn from_raw(raw: u64) -> (r: Self)
        ensures
            r == Self::spec_from_raw(raw),
    {
        match raw {
            1 => Self::Default,
            2 => Self::Overlay,
            _ => Self::NoButton,
        }
    }

    /// Returns the framework value of this variant.
    pub fn to_raw(self) -> (r: u64)
        ensures
            r == self.spec_raw(),
    {
        match self {
            Self::NoButton => 0,
            Self::Default => 1,
            Self::Overlay => 2,
        }
    }
}

/// Every `NotificationContentExtensionMediaPlayPauseButtonType` is found again from its framework value.
pub proof fn lemma_notification_content_extension_media_play_pause_button_type_raw_round_trip(value: NotificationContentExtensionMediaPlayPauseButtonType)
    ensures
        NotificationContentExtensionMediaPlayPauseButtonType::spec_from_raw(value.spec_raw()) == value,
{
}

/// Wraps `UNNotificationContentExtensionResponseOption`.
#[derive(Debug, Clone, Copy, PartialEq, Eq, Structural)]
pub enum NotificationContentExtensionResponseOption {
    /// Keep the notification interface visible.
    DoNotDismiss,
    /// Dismiss the notification interface.
    Dismiss,
    /// Dismiss the notification interface and forward the action to the app.
    DismissAndForwardAction,
}

impl NotificationContentExtensionResponseOption {
    /// The framework value of each variant.
    pub open spec fn spec_raw(self) -> u64 {
        match self {
            Self::DoNotDismiss => 0,
            Self::Dismiss => 1,
            Self::DismissAndForwardAction => 2,
        }
    }

    /// The variant that a raw framework value stands for; other values
    /// fall back to `DismissAndForwardAction`.
    pub open spec fn spec_from_raw(raw: u64) -> Self {
        if raw == 0 {
            Self::DoNotDismiss
        } else if raw == 1 {
            Self::Dismiss
        } else {
            Self::DismissAndForwardAction
        }
    }

    /// Converts a raw framework value into a response option.
    pub fn from_raw(raw: u64) -> (r: Self)
        ensures
            r == Self::spec_from_raw(raw),
    {
        match raw {
            0 => Self::DoNotDismiss,
            1 => Self::Dismiss,
            _ => Self::DismissAndForwardAction,
        }
    }

    /// Returns the framework value of this variant.
    pub fn to_raw(self) -> (r: u64)
        ensures
            r == self.spec_raw(),
    {
        match self {
            Self::DoNotDismiss => 0,
            Self::Dismiss => 1,
            Self::DismissAndForwardAction => 2,
        }
    }
}

/// Every `NotificationContentExtensionResponseOption` is found again from its framework value.
pub proof fn lemma_notification_content_extension_response_option_raw_round_trip(value: NotificationContentExtensionResponseOption)
    ensures
        NotificationContentExtensionResponseOption::spec_from_raw(value.spec_raw()) == value,
{
}

/// A rectangle in the content extension's coordinate space; each value is
/// an `f64` held as its bit pattern, and `==` compares them as `f64` values
/// do.
#[derive(Debug, Clone, Copy, PartialEq)]
pub struct NotificationContentExtensionRect {
    /// The x.
    pub x: F64Bits,
    /// The y.
    pub y: F64Bits,
    /// The width.
    pub width: F64Bits,
    /// The height.
    pub height: F64Bits,
}

impl NotificationContentExtensionRect {
    /// Creates a rectangle from the bit patterns of its values.
    pub fn new(x: u64, y: u64, width: u64, height: u64) -> (r: Self)
        ensures
            r == (NotificationContentExtensionRect {
                x: F64Bits(x),
                y: F64Bits(y),
                width: F64Bits(width),
                height: F64Bits(height),
            }),
    {
        NotificationContentExtensionRect {
            x: F64Bits(x),
            y: F64Bits(y),
            width: F64Bits(width),
            height: F64Bits(height),
        }
    }
}

/// A tint color; each component is an `f64` held as its bit pattern, and
/// `==` compares them as `f64` values do.
#[derive(Debug, Clone, Copy, PartialEq)]
pub struct NotificationContentExtensionTintColor {
    /// The red component.
    pub red: F64Bits,
    /// The green component.
    pub green: F64Bits,
    /// The blue component.
    pub blue: F64Bits,
    /// The alpha component.
    pub alpha: F64Bits,
}

impl NotificationContentExtensionTintColor {
    /// Creates a tint color from the bit patterns of its components.
    pub fn new(red: u64, green: u64, blue: u64, alpha: u64) -> (r: Self)
        ensures
            r == (NotificationContentExtensionTintColor {
                red: F64Bits(red),
                green: F64Bits(green),
                blue: F64Bits(blue),
                alpha: F64Bits(alpha),
            }),
    {
        NotificationContentExtensionTintColor {
            red: F64Bits(red),
            green: F64Bits(green),
            blue: F64Bits(blue),
            alpha: F64Bits(alpha),
        }
    }
}

/// The option reported to the host when no handler decides otherwise: a
/// missing or undecodable response, or a handler without a response
/// callback.
pub fn default_response_option() -> (r: NotificationContentExtensionResponseOption)
    ensures
        r == NotificationContentExtensionResponseOption::DismissAndForwardAction,
{
    NotificationContentExtensionResponseOption::DismissAndForwardAction
}

} // verus!
