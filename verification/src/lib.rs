//! Verified data model, conversions and rules behind safe bindings to Apple's
//! `UserNotifications` framework.
//!
//! The library holds what the bindings compute: option sets, raw framework
//! values and their enums, the notification data model with its builders,
//! the bridge payloads and their conversions, trigger validation, error
//! mapping and the decisions taken on bridge events. Talking to the bridge
//! itself is left to the caller.

/// Wrappers for `UNNotificationAction` and related option types.
pub mod action;
/// Wrappers for `UNNotificationAttachment` and attachment option keys.
pub mod attachment;
/// Wrappers for `UNNotificationCategory` and related option types.
pub mod category;
/// Decisions taken on `UNUserNotificationCenter` delegate events.
pub mod center;
/// Wrappers for `UNNotificationContent` and content-provider helpers.
pub mod content;
/// Values used by the `UNNotificationContentExtension` protocol.
pub mod content_extension;
/// Error types and constants for the `UserNotifications` framework.
pub mod error;
/// Floating-point values held as their bit patterns, compared as floats.
pub mod float_bits;
/// Outside types that the data model carries without looking inside.
pub mod external;
/// Wrappers for `UNNotification`.
pub mod notification;
/// Raw option-set bitmasks of the framework.
pub mod options;
/// Wrappers for `UNNotificationRequest`.
pub mod request;
/// Wrappers for `UNNotificationResponse` and presentation options.
pub mod response;
/// Wrappers for `UNNotificationSettings` and authorization-related enums.
pub mod settings;
/// Status codes exchanged with the bridge.
pub mod status;
/// Bridge payloads of notification content and content providers.
pub mod content_payload;
/// Text helpers with exact specifications.
pub mod text;
/// Wrappers for `UNNotificationTrigger` and concrete trigger types.
pub mod trigger;

mod sealed;
/// Common imports.
pub mod prelude;

pub use action::{NotificationAction, NotificationActionIcon, NotificationActionOptions};
pub use attachment::{
    AttachmentThumbnailClippingRect, AttachmentThumbnailTime, NotificationAttachment,
    NotificationAttachmentOptions, ATTACHMENT_OPTIONS_THUMBNAIL_CLIPPING_RECT_KEY,
    ATTACHMENT_OPTIONS_THUMBNAIL_HIDDEN_KEY, ATTACHMENT_OPTIONS_THUMBNAIL_TIME_KEY,
    ATTACHMENT_OPTIONS_TYPE_HINT_KEY,
};
pub use category::{NotificationCategory, NotificationCategoryOptions};
pub use content::{
    LocalizedNotificationString, NotificationAttributedMessageContext, NotificationContent,
    NotificationContentProviding, NotificationInterruptionLevel, NotificationMessagePerson,
    NotificationMessagePersonHandleType, NotificationMessageType, NotificationSound,
};
pub use content_extension::{
    NotificationContentExtensionMediaPlayPauseButtonType, NotificationContentExtensionRect,
    NotificationContentExtensionResponseOption, NotificationContentExtensionTintColor,
};
pub use error::{
    UserNotificationsError, UserNotificationsFrameworkErrorCode, USER_NOTIFICATIONS_ERROR_DOMAIN,
};
pub use float_bits::{F32Bits, F64Bits};
pub use notification::Notification;
pub use request::NotificationRequest;
pub use response::{NotificationPresentationOptions, NotificationResponse};
pub use settings::{
    AlertStyle, AuthorizationOptions, AuthorizationStatus, NotificationSetting,
    NotificationSettings, ShowPreviewsSetting,
};
pub use trigger::{CalendarTrigger, DateComponents, NotificationTrigger, TimeIntervalTrigger};
