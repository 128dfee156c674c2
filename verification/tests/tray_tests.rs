use chitchat_core::tray::tray_tooltip;

#[test]
fn zero_unread_shows_the_base_name() {
    assert_eq!(tray_tooltip(0), "ChitChat");
}

#[test]
fn positive_unread_count_is_appended() {
    assert_eq!(tray_tooltip(5), "ChitChat (5 unread)");
}

#[test]
fn multi_digit_counts_are_rendered_in_decimal() {
    assert_eq!(tray_tooltip(42), "ChitChat (42 unread)");
    assert_eq!(tray_tooltip(1000), "ChitChat (1000 unread)");
}
