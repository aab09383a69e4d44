//! Common imports.

pub use crate::action::{NotificationAction, NotificationActionIcon, NotificationActionOptions};
pub use crate::attachment::{
    AttachmentThumbnailClippingRect, AttachmentThumbnailTime, NotificationAttachment,
    NotificationAttachmentOptions,
};
pub use crate::category::{NotificationCategory, NotificationCategoryOptions};
pub use crate::content::{
    LocalizedNotificationString, NotificationAttributedMessageContext, NotificationContent,
    NotificationContentProviding, NotificationInterruptionLevel, NotificationMessagePerson,
    NotificationMessagePersonHandleType, NotificationMessageType, NotificationSound,
};
pub use crate::content_extension::{
    NotificationContentExtensionMediaPlayPauseButtonType, NotificationContentExtensionRect,
    NotificationContentExtensionResponseOption, NotificationContentExtensionTintColor,
};
pub use crate::error::{
    UserNotificationsError, UserNotificationsFrameworkErrorCode, USER_NOTIFICATIONS_ERROR_DOMAIN,
};
pub use crate::float_bits::{F32Bits, F64Bits};
pub use crate::notification::Notification;
pub use crate::request::NotificationRequest;
pub use crate::response::{NotificationPresentationOptions, NotificationResponse};
pub use crate::settings::{
    AlertStyle, AuthorizationOptions, AuthorizationStatus, NotificationSetting,
    NotificationSettings, ShowPreviewsSetting,
};
pub use crate::trigger::{CalendarTrigger, DateComponents, NotificationTrigger, TimeIntervalTrigger};
