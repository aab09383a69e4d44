use usernotifications::{
    AttachmentThumbnailClippingRect, F32Bits, F64Bits, NotificationContent, NotificationSound,
    NotificationTrigger,
};

#[test]
fn f64_bits_compare_as_f64_values() {
    assert_eq!(F64Bits(1.5f64.to_bits()), F64Bits(1.5f64.to_bits()));
    assert_ne!(F64Bits(1.5f64.to_bits()), F64Bits(2.5f64.to_bits()));
    assert_eq!(F64Bits(0.0f64.to_bits()), F64Bits((-0.0f64).to_bits()));
    assert_ne!(F64Bits(f64::NAN.to_bits()), F64Bits(f64::NAN.to_bits()));
    assert_ne!(F64Bits(f64::NAN.to_bits()), F64Bits(1.0f64.to_bits()));
    assert_eq!(F64Bits(f64::INFINITY.to_bits()), F64Bits(f64::INFINITY.to_bits()));
    assert_ne!(F64Bits(f64::INFINITY.to_bits()), F64Bits(f64::NEG_INFINITY.to_bits()));
}

#[test]
fn f32_bits_compare_as_f32_values() {
    assert_eq!(F32Bits(0.25f32.to_bits()), F32Bits(0.25f32.to_bits()));
    assert_ne!(F32Bits(0.25f32.to_bits()), F32Bits(0.5f32.to_bits()));
    assert_eq!(F32Bits(0.0f32.to_bits()), F32Bits((-0.0f32).to_bits()));
    assert_ne!(F32Bits(f32::NAN.to_bits()), F32Bits(f32::NAN.to_bits()));
}

#[test]
fn model_equality_follows_float_equality() {
    assert_eq!(
        NotificationTrigger::time_interval(0.0f64.to_bits(), false),
        NotificationTrigger::time_interval((-0.0f64).to_bits(), false),
    );
    let nan_trigger = NotificationTrigger::time_interval(f64::NAN.to_bits(), false);
    assert_ne!(nan_trigger, nan_trigger.clone());

    let zero = 0.0f64.to_bits();
    let negative_zero = (-0.0f64).to_bits();
    assert_eq!(
        AttachmentThumbnailClippingRect::new(zero, zero, 1.0f64.to_bits(), 1.0f64.to_bits()),
        AttachmentThumbnailClippingRect::new(negative_zero, zero, 1.0f64.to_bits(), 1.0f64.to_bits()),
    );

    let content = NotificationContent::new("T".to_string(), "B".to_string());
    assert_ne!(
        content.clone().with_relevance_score(f64::NAN.to_bits()),
        content.clone().with_relevance_score(f64::NAN.to_bits()),
    );
    assert_eq!(
        NotificationSound::DefaultCriticalWithVolume(F32Bits(0.0f32.to_bits())),
        NotificationSound::DefaultCriticalWithVolume(F32Bits((-0.0f32).to_bits())),
    );
}
