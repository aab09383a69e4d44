use vstd::prelude::*;

pub use crate::options::AuthorizationOptions;

verus! {

/// Wraps the `UNAuthorizationStatus` enum.
#[derive(Debug, Clone, Copy, PartialEq, Eq, Structural)]
pub enum AuthorizationStatus {
    /// Authorization has not been requested yet.
    NotDetermined,
    /// Authorization was denied.
    Denied,
    /// Authorization was granted.
    Authorized,
    /// Provisional authorization was granted.
    Provisional,
}

impl AuthorizationStatus {
    /// The framework value of each variant.
    pub open spec fn spec_raw(self) -> i32 {
        match self {
            Self::NotDetermined => 0,
            Self::Denied => 1,
            Self::Authorized => 2,
            Self::Provisional => 3,
        }
    }

    /// The variant that a raw framework value stands for; values the
    /// framework does not document fall back to `NotDetermined`.
    pub open spec fn spec_from_raw(raw: i32) -> Self {
        if raw == 1 {
            Self::Denied
        } else if raw == 2 {
            Self::Authorized
        } else if raw == 3 {
            Self::Provisional
        } else {
            Self::NotDetermined
        }
    }

    /// Converts a raw framework value into an authorization status.
    pub fn from_raw(raw: i32) -> (r: Self)
        ensures
            r == Self::spec_from_raw(raw),
    {
        match raw {
            1 => Self::Denied,
            2 => Self::Authorized,
            3 => Self::Provisional,
            _ => Self::NotDetermined,
        }
    }
}

/// Every AuthorizationStatus is found again from its framework value.
pub proof fn lemma_authorization_status_raw_round_trip(value: AuthorizationStatus)
    ensures
        AuthorizationStatus::spec_from_raw(value.spec_raw()) == value,
{
}

/// Wraps the `UNNotificationSetting` enum.
#[derive(Debug, Clone, Copy, PartialEq, Eq, Structural)]
pub enum NotificationSetting {
    /// The setting is not supported on this platform.
    NotSupported,
    /// The setting is disabled.
    Disabled,
    /// The setting is enabled.
    Enabled,
}

impl NotificationSetting {
    /// The framework value of each variant.
    pub open spec fn spec_raw(self) -> i32 {
        match self {
            Self::NotSupported => 0,
            Self::Disabled => 1,
            Self::Enabled => 2,
        }
    }

    /// The variant that a raw framework value stands for; values the
    /// framework does not document fall back to `NotSupported`.
    pub open spec fn spec_from_raw(raw: i32) -> Self {
        if raw == 1 {
            Self::Disabled
        } else if raw == 2 {
            Self::Enabled
        } else {
            Self::NotSupported
        }
    }

    /// Converts a raw framework value into a notification setting.
    pub fn from_raw(raw: i32) -> (r: Self)
        ensures
            r == Self::spec_from_raw(raw),
    {
        match raw {
            1 => Self::Disabled,
            2 => Self::Enabled,
            _ => Self::NotSupported,
        }
    }
}

/// Every NotificationSetting is found again from its framework value.
pub proof fn lemma_notification_setting_raw_round_trip(value: NotificationSetting)
    ensures
        NotificationSetting::spec_from_raw(value.spec_raw()) == value,
{
}

/// Wraps the `UNAlertStyle` enum.
#[derive(Debug, Clone, Copy, PartialEq, Eq, Structural)]
pub enum AlertStyle {
    /// No alert style is used.
    NoAlert,
    /// Uses the banner alert style.
    Banner,
    /// Uses the alert style.
    Alert,
}

impl AlertStyle {
    /// The framework value of each variant.
    pub open spec fn spec_raw(self) -> i32 {
        match self {
            Self::NoAlert => 0,
            Self::Banner => 1,
            Self::Alert => 2,
        }
    }

    /// The variant that a raw framework value stands for; values the
    /// framework does not document fall back to `NoAlert`.
    pub open spec fn spec_from_raw(raw: i32) -> Self {
        if raw == 1 {
            Self::Banner
        } else if raw == 2 {
            Self::Alert
        } else {
            Self::NoAlert
        }
    }

    /// Converts a raw framework value into an alert style.
    pub fn from_raw(raw: i32) -> (r: Self)
        ensures
            r == Self::spec_from_raw(raw),
    {
        match raw {
            1 => Self::Banner,
            2 => Self::Alert,
            _ => Self::NoAlert,
        }
    }
}

/// Every AlertStyle is found again from its framework value.
pub proof fn lemma_alert_style_raw_round_trip(value: AlertStyle)
    ensures
        AlertStyle::spec_from_raw(value.spec_raw()) == value,
{
}

/// Wraps the `UNShowPreviewsSetting` enum.
#[derive(Debug, Clone, Copy, PartialEq, Eq, Structural)]
pub enum ShowPreviewsSetting {
    /// Always show notification previews.
    Always,
    /// Show previews only when the device is authenticated.
    WhenAuthenticated,
    /// Never show notification previews.
    Never,
}

impl ShowPreviewsSetting {
    /// The framework value of each variant.
    pub open spec fn spec_raw(self) -> i32 {
        match self {
            Self::Always => 0,
            Self::WhenAuthenticated => 1,
            Self::Never => 2,
        }
    }

    /// The variant that a raw framework value stands for; values the
    /// framework does not document fall back to `Always`.
    pub open spec fn spec_from_raw(raw: i32) -> Self {
        if raw == 1 {
            Self::WhenAuthenticated
        } else if raw == 2 {
            Self::Never
        } else {
            Self::Always
        }
    }

    /// Converts a raw framework value into a show-previews setting.
    pub fn from_raw(raw: i32) -> (r: Self)
        ensures
            r == Self::spec_from_raw(raw),
    {
        match raw {
            1 => Self::WhenAuthenticated,
            2 => Self::Never,
            _ => Self::Always,
        }
    }
}

/// Every ShowPreviewsSetting is found again from its framework value.
pub proof fn lemma_show_previews_setting_raw_round_trip(value: ShowPreviewsSetting)
    ensures
        ShowPreviewsSetting::spec_from_raw(value.spec_raw()) == value,
{
}

/// Wraps `UNNotificationSettings`.
#[derive(Debug, Clone, PartialEq, Eq, Structural)]
pub struct NotificationSettings {
    /// The authorization status.
    pub authorization_status: AuthorizationStatus,
    /// The sound setting.
    pub sound_setting: NotificationSetting,
    /// The badge setting.
    pub badge_setting: NotificationSetting,
    /// The alert setting.
    pub alert_setting: NotificationSetting,
    /// The notification center setting.
    pub notification_center_setting: NotificationSetting,
    /// The lock screen setting.
    pub lock_screen_setting: NotificationSetting,
    /// The alert style.
    pub alert_style: AlertStyle,
    /// The show previews setting.
    pub show_previews_setting: ShowPreviewsSetting,
    /// The critical alert setting.
    pub critical_alert_setting: NotificationSetting,
    /// Whether the app provides in-app notification settings.
    pub provides_app_notification_settings: bool,
    /// The time sensitive setting.
    pub time_sensitive_setting: NotificationSetting,
    /// The scheduled delivery setting.
    pub scheduled_delivery_setting: NotificationSetting,
    /// The direct messages setting.
    pub direct_messages_setting: NotificationSetting,
}

/// The settings as the bridge reports them: raw framework values.
#[derive(Debug, Clone, PartialEq, Eq, Structural)]
pub struct NotificationSettingsPayload {
    /// The authorization status.
    pub authorization_status: i32,
    /// The sound setting.
    pub sound_setting: i32,
    /// The badge setting.
    pub badge_setting: i32,
    /// The alert setting.
    pub alert_setting: i32,
    /// The notification center setting.
    pub notification_center_setting: i32,
    /// The lock screen setting.
    pub lock_screen_setting: i32,
    /// The alert style.
    pub alert_style: i32,
    /// The show previews setting.
    pub show_previews_setting: i32,
    /// The critical alert setting.
    pub critical_alert_setting: i32,
    /// Whether the app provides in-app notification settings.
    pub provides_app_notification_settings: bool,
    /// The time sensitive setting.
    pub time_sensitive_setting: i32,
    /// The scheduled delivery setting.
    pub scheduled_delivery_setting: i32,
    /// The direct messages setting.
    pub direct_messages_setting: i32,
}

impl NotificationSettings {
    /// The settings that a bridge payload stands for.
    pub open spec fn spec_from_payload(p: NotificationSettingsPayload) -> Self {
        NotificationSettings {
            authorization_status: AuthorizationStatus::spec_from_raw(p.authorization_status),
            sound_setting: NotificationSetting::spec_from_raw(p.sound_setting),
            badge_setting: NotificationSetting::spec_from_raw(p.badge_setting),
            alert_setting: NotificationSetting::spec_from_raw(p.alert_setting),
            notification_center_setting: NotificationSetting::spec_from_raw(p.notification_center_setting),
            lock_screen_setting: NotificationSetting::spec_from_raw(p.lock_screen_setting),
            alert_style: AlertStyle::spec_from_raw(p.alert_style),
            show_previews_setting: ShowPreviewsSetting::spec_from_raw(p.show_previews_setting),
            critical_alert_setting: NotificationSetting::spec_from_raw(p.critical_alert_setting),
            provides_app_notification_settings: p.provides_app_notification_settings,
            time_sensitive_setting: NotificationSetting::spec_from_raw(p.time_sensitive_setting),
            scheduled_delivery_setting: NotificationSetting::spec_from_raw(p.scheduled_delivery_setting),
            direct_messages_setting: NotificationSetting::spec_from_raw(p.direct_messages_setting),
        }
    }

    /// Decodes the settings from the raw values the bridge reports.
    pub fn from_payload(value: NotificationSettingsPayload) -> (r: Self)
        ensures
            r == Self::spec_from_payload(value),
    {
        Self {
            authorization_status: AuthorizationStatus::from_raw(value.authorization_status),
            sound_setting: NotificationSetting::from_raw(value.sound_setting),
            badge_setting: NotificationSetting::from_raw(value.badge_setting),
            alert_setting: NotificationSetting::from_raw(value.alert_setting),
            notification_center_setting: NotificationSetting::from_raw(value.notification_center_setting),
            lock_screen_setting: NotificationSetting::from_raw(value.lock_screen_setting),
            alert_style: AlertStyle::from_raw(value.alert_style),
            show_previews_setting: ShowPreviewsSetting::from_raw(value.show_previews_setting),
            critical_alert_setting: NotificationSetting::from_raw(value.critical_alert_setting),
            provides_app_notification_settings: value.provides_app_notification_settings,
            time_sensitive_setting: NotificationSetting::from_raw(value.time_sensitive_setting),
            scheduled_delivery_setting: NotificationSetting::from_raw(value.scheduled_delivery_setting),
            direct_messages_setting: NotificationSetting::from_raw(value.direct_messages_setting),
        }
    }
}

/// The raw values that stand for some settings.
pub open spec fn spec_settings_payload(s: NotificationSettings) -> NotificationSettingsPayload {
    NotificationSettingsPayload {
            authorization_status: s.authorization_status.spec_raw(),
            sound_setting: s.sound_setting.spec_raw(),
            badge_setting: s.badge_setting.spec_raw(),
            alert_setting: s.alert_setting.spec_raw(),
            notification_center_setting: s.notification_center_setting.spec_raw(),
            lock_screen_setting: s.lock_screen_setting.spec_raw(),
            alert_style: s.alert_style.spec_raw(),
            show_previews_setting: s.show_previews_setting.spec_raw(),
            critical_alert_setting: s.critical_alert_setting.spec_raw(),
            provides_app_notification_settings: s.provides_app_notification_settings,
            time_sensitive_setting: s.time_sensitive_setting.spec_raw(),
            scheduled_delivery_setting: s.scheduled_delivery_setting.spec_raw(),
            direct_messages_setting: s.direct_messages_setting.spec_raw(),
    }
}

/// Decoding the raw values of some settings gives those settings back.
pub proof fn lemma_settings_round_trip(s: NotificationSettings)
    ensures
        NotificationSettings::spec_from_payload(spec_settings_payload(s)) == s,
{
}

} // verus!
