use usernotifications::prelude::{AuthorizationOptions, NotificationCategoryOptions};

#[test]
fn union_contains_each_operand_and_is_order_free() {
    let a = AuthorizationOptions::BADGE() | AuthorizationOptions::TIME_SENSITIVE();
    let b = AuthorizationOptions::SOUND() | AuthorizationOptions::CAR_PLAY();
    assert!((a | b).contains(a));
    assert!((a | b).contains(b));
    assert_eq!((a | b).bits(), (b | a).bits());
    assert_eq!((a | a).bits(), a.bits());
    assert_eq!((a | AuthorizationOptions::NONE()).bits(), a.bits());
    assert_eq!(a.bits(), 0b1_0000_0001);
}

#[test]
fn containment_follows_the_bits() {
    let all = AuthorizationOptions::from_bits(u64::MAX);
    assert!(all.contains(AuthorizationOptions::CRITICAL_ALERT()));
    assert!(all.contains(AuthorizationOptions::PROVIDES_APP_NOTIFICATION_SETTINGS()));
    assert!(!AuthorizationOptions::NONE().contains(AuthorizationOptions::ALERT()));
    assert!(AuthorizationOptions::NONE().contains(AuthorizationOptions::NONE()));
    let mut category = NotificationCategoryOptions::NONE();
    category |= NotificationCategoryOptions::HIDDEN_PREVIEWS_SHOW_SUBTITLE();
    assert_eq!(category.bits(), 8);
    assert!(!category.contains(NotificationCategoryOptions::CUSTOM_DISMISS_ACTION()));
}
