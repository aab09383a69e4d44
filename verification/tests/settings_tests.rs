use usernotifications::prelude::{
    AlertStyle, AuthorizationOptions, AuthorizationStatus, NotificationSetting, NotificationSettings,
    ShowPreviewsSetting,
};
use usernotifications::settings::NotificationSettingsPayload;

#[test]
fn authorization_options_round_trip_bits() {
    let options = AuthorizationOptions::BADGE()
        | AuthorizationOptions::ALERT()
        | AuthorizationOptions::PROVISIONAL();
    let roundtrip = AuthorizationOptions::from_bits(options.bits());

    assert_eq!(roundtrip.bits(), options.bits());
    assert!(roundtrip.contains(AuthorizationOptions::BADGE()));
    assert!(roundtrip.contains(AuthorizationOptions::ALERT()));
    assert!(roundtrip.contains(AuthorizationOptions::PROVISIONAL()));
    assert!(!roundtrip.contains(AuthorizationOptions::SOUND()));
}

#[test]
fn authorization_status_from_raw_matches_documented_values() {
    assert_eq!(AuthorizationStatus::from_raw(0), AuthorizationStatus::NotDetermined);
    assert_eq!(AuthorizationStatus::from_raw(1), AuthorizationStatus::Denied);
    assert_eq!(AuthorizationStatus::from_raw(2), AuthorizationStatus::Authorized);
    assert_eq!(AuthorizationStatus::from_raw(3), AuthorizationStatus::Provisional);
    assert_eq!(AuthorizationStatus::from_raw(99), AuthorizationStatus::NotDetermined);
}

#[test]
fn notification_setting_from_raw_matches_documented_values() {
    assert_eq!(NotificationSetting::from_raw(0), NotificationSetting::NotSupported);
    assert_eq!(NotificationSetting::from_raw(1), NotificationSetting::Disabled);
    assert_eq!(NotificationSetting::from_raw(2), NotificationSetting::Enabled);
    assert_eq!(NotificationSetting::from_raw(99), NotificationSetting::NotSupported);
}

#[test]
fn alert_style_from_raw_matches_documented_values() {
    assert_eq!(AlertStyle::from_raw(0), AlertStyle::NoAlert);
    assert_eq!(AlertStyle::from_raw(1), AlertStyle::Banner);
    assert_eq!(AlertStyle::from_raw(2), AlertStyle::Alert);
    assert_eq!(AlertStyle::from_raw(99), AlertStyle::NoAlert);
}

#[test]
fn show_previews_setting_from_raw_matches_documented_values() {
    assert_eq!(ShowPreviewsSetting::from_raw(0), ShowPreviewsSetting::Always);
    assert_eq!(ShowPreviewsSetting::from_raw(1), ShowPreviewsSetting::WhenAuthenticated);
    assert_eq!(ShowPreviewsSetting::from_raw(2), ShowPreviewsSetting::Never);
    assert_eq!(ShowPreviewsSetting::from_raw(99), ShowPreviewsSetting::Always);
}

#[test]
fn authorization_status_from_raw_matches_known_values() {
    assert_eq!(AuthorizationStatus::from_raw(0), AuthorizationStatus::NotDetermined);
    assert_eq!(AuthorizationStatus::from_raw(1), AuthorizationStatus::Denied);
    assert_eq!(AuthorizationStatus::from_raw(2), AuthorizationStatus::Authorized);
    assert_eq!(AuthorizationStatus::from_raw(3), AuthorizationStatus::Provisional);
}

#[test]
fn notification_setting_from_raw_matches_known_values() {
    assert_eq!(NotificationSetting::from_raw(0), NotificationSetting::NotSupported);
    assert_eq!(NotificationSetting::from_raw(1), NotificationSetting::Disabled);
    assert_eq!(NotificationSetting::from_raw(2), NotificationSetting::Enabled);
}

#[test]
fn authorization_status_negative_raw_values_fall_back() {
    assert_eq!(AuthorizationStatus::from_raw(-1), AuthorizationStatus::NotDetermined);
    assert_eq!(NotificationSetting::from_raw(i32::MIN), NotificationSetting::NotSupported);
    assert_eq!(AlertStyle::from_raw(3), AlertStyle::NoAlert);
    assert_eq!(ShowPreviewsSetting::from_raw(-2), ShowPreviewsSetting::Always);
}

#[test]
fn settings_payload_decodes_each_field() {
    let payload = NotificationSettingsPayload {
        authorization_status: 2,
        sound_setting: 2,
        badge_setting: 1,
        alert_setting: 0,
        notification_center_setting: 2,
        lock_screen_setting: 7,
        alert_style: 1,
        show_previews_setting: 1,
        critical_alert_setting: 1,
        provides_app_notification_settings: true,
        time_sensitive_setting: 2,
        scheduled_delivery_setting: 0,
        direct_messages_setting: 1,
    };
    let settings = NotificationSettings::from_payload(payload);
    assert_eq!(
        settings,
        NotificationSettings {
            authorization_status: AuthorizationStatus::Authorized,
            sound_setting: NotificationSetting::Enabled,
            badge_setting: NotificationSetting::Disabled,
            alert_setting: NotificationSetting::NotSupported,
            notification_center_setting: NotificationSetting::Enabled,
            lock_screen_setting: NotificationSetting::NotSupported,
            alert_style: AlertStyle::Banner,
            show_previews_setting: ShowPreviewsSetting::WhenAuthenticated,
            critical_alert_setting: NotificationSetting::Disabled,
            provides_app_notification_settings: true,
            time_sensitive_setting: NotificationSetting::Enabled,
            scheduled_delivery_setting: NotificationSetting::NotSupported,
            direct_messages_setting: NotificationSetting::Disabled,
        }
    );
}
