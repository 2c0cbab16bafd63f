use ear_native::app::device_list::text_less;
use ear_native::text::{byte_decimal, byte_hex, contains_str, str_eq, trim_nul};
use ear_native::tray::update_battery;

#[test]
fn number_texts() {
    assert_eq!(byte_hex(0x1f), "1f");
    assert_eq!(byte_hex(0), "00");
    assert_eq!(byte_decimal(0), "0");
    assert_eq!(byte_decimal(7), "7");
    assert_eq!(byte_decimal(255), "255");
}

#[test]
fn string_helpers() {
    assert_eq!(trim_nul("\0\0ab\0c\0"), "ab\0c");
    assert_eq!(trim_nul("\0\0"), "");
    assert!(contains_str("nothing ear (2)", "ear (2)"));
    assert!(contains_str("abc", ""));
    assert!(!contains_str("ab", "abc"));
    assert!(str_eq("x", "x"));
    assert!(!str_eq("x", "y"));
    assert!(text_less("ab", "abc"));
    assert!(text_less("abc", "abd"));
    assert!(!text_less("b", "abc"));
    assert!(!text_less("same", "same"));
    assert!(text_less("Z", "a"));
}

#[test]
fn tray_battery_lines() {
    let (l, c, r) = update_battery(Some(80), None, Some(100));
    assert_eq!(l, "Left: 80%");
    assert_eq!(c, "Case: --");
    assert_eq!(r, "Right: 100%");
}
