use led_button::divider::WrapDivider;
use led_button::divider::channel_flagged;

#[test]
fn toggles_every_third_wrap() {
    let mut d = WrapDivider::new();
    assert_eq!(d.on_wrap(true), None);
    assert_eq!(d.on_wrap(true), None);
    // The third interrupt asks for the opposite level.
    assert_eq!(d.on_wrap(true), Some(false));
    // The cycle starts over.
    assert_eq!(d.on_wrap(false), None);
    assert_eq!(d.on_wrap(false), None);
    assert_eq!(d.on_wrap(false), Some(true));
}

#[test]
fn status_word_flags_the_right_channel() {
    assert!(channel_flagged(1 << 7, 7));
    assert!(!channel_flagged(1 << 7, 6));
    assert!(!channel_flagged(0, 7));
    assert!(channel_flagged(0xFF, 0));
}
