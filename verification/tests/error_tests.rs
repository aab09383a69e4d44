use usernotifications::error::{check_status, from_status_message};
use usernotifications::prelude::{
    UserNotificationsError, UserNotificationsFrameworkErrorCode, USER_NOTIFICATIONS_ERROR_DOMAIN,
};

#[test]
fn framework_error_constants_match_sdk_values() {
    assert_eq!(USER_NOTIFICATIONS_ERROR_DOMAIN, "UNErrorDomain");
    assert_eq!(
        UserNotificationsFrameworkErrorCode::from_raw(1501),
        Some(UserNotificationsFrameworkErrorCode::ContentProvidingInvalid),
    );
    assert_eq!(UserNotificationsFrameworkErrorCode::from_raw(9999), None);
}

#[test]
fn every_documented_error_code_is_recognized() {
    let cases = [
        (1, UserNotificationsFrameworkErrorCode::NotificationsNotAllowed),
        (100, UserNotificationsFrameworkErrorCode::AttachmentInvalidUrl),
        (101, UserNotificationsFrameworkErrorCode::AttachmentUnrecognizedType),
        (102, UserNotificationsFrameworkErrorCode::AttachmentInvalidFileSize),
        (103, UserNotificationsFrameworkErrorCode::AttachmentNotInDataStore),
        (104, UserNotificationsFrameworkErrorCode::AttachmentMoveIntoDataStoreFailed),
        (105, UserNotificationsFrameworkErrorCode::AttachmentCorrupt),
        (1400, UserNotificationsFrameworkErrorCode::NotificationInvalidNoDate),
        (1401, UserNotificationsFrameworkErrorCode::NotificationInvalidNoContent),
        (1500, UserNotificationsFrameworkErrorCode::ContentProvidingObjectNotAllowed),
        (1501, UserNotificationsFrameworkErrorCode::ContentProvidingInvalid),
        (1600, UserNotificationsFrameworkErrorCode::BadgeInputInvalid),
    ];
    for (raw, code) in cases {
        assert_eq!(UserNotificationsFrameworkErrorCode::from_raw(raw), Some(code));
    }
    for raw in [0, 2, 99, 106, 1402, 1502, 1601, -1] {
        assert_eq!(UserNotificationsFrameworkErrorCode::from_raw(raw), None);
    }
}

#[test]
fn status_codes_map_to_error_variants() {
    assert_eq!(
        from_status_message(-1, "bad".to_string()),
        UserNotificationsError::InvalidArgument("bad".to_string())
    );
    assert_eq!(
        from_status_message(-2, "failed".to_string()),
        UserNotificationsError::FrameworkError("failed".to_string())
    );
    assert_eq!(
        from_status_message(-3, "slow".to_string()),
        UserNotificationsError::TimedOut("slow".to_string())
    );
    assert_eq!(
        from_status_message(42, "odd".to_string()),
        UserNotificationsError::Unknown { code: 42, message: "odd".to_string() }
    );
}

#[test]
fn error_reports_its_status_and_message() {
    for status in [-3, -2, -1, 0, 7, i32::MIN, i32::MAX] {
        let error = from_status_message(status, format!("message {status}"));
        assert_eq!(error.code(), status);
        assert_eq!(error.message(), format!("message {status}"));
    }
}

#[test]
fn error_display_text_names_message_and_code() {
    assert_eq!(
        UserNotificationsError::FrameworkError("boom".to_string()).to_display_string(),
        "boom (code -2)"
    );
    assert_eq!(
        UserNotificationsError::InvalidArgument(String::new()).to_display_string(),
        " (code -1)"
    );
    assert_eq!(
        UserNotificationsError::Unknown { code: 1_234_567, message: "x".to_string() }
            .to_display_string(),
        "x (code 1234567)"
    );
    assert_eq!(
        UserNotificationsError::Unknown { code: i32::MIN, message: "m".to_string() }
            .to_display_string(),
        "m (code -2147483648)"
    );
    assert_eq!(
        UserNotificationsError::Unknown { code: 0, message: "z".to_string() }.to_display_string(),
        "z (code 0)"
    );
}

#[test]
fn check_status_succeeds_only_on_ok() {
    assert_eq!(check_status(0, "ignored".to_string()), Ok(()));
    assert_eq!(
        check_status(-2, "nope".to_string()),
        Err(UserNotificationsError::FrameworkError("nope".to_string()))
    );
    assert_eq!(
        check_status(5, "five".to_string()),
        Err(UserNotificationsError::Unknown { code: 5, message: "five".to_string() })
    );
}
