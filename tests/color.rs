use discord_webhook::Color;

#[test]
fn from_hex_red() {
    assert_eq!(Color::from_hex("FF0000"), 16711680);
}

#[test]
fn from_hex_green() {
    assert_eq!(Color::from_hex("00FF00"), 65280);
}

#[test]
fn from_hex_empty_is_zero() {
    assert_eq!(Color::from_hex(""), 0);
}

#[test]
fn from_hex_matches_named_color() {
    assert_eq!(Color::from_hex("FFFF00"), Color::YELLOW);
    assert_eq!(Color::from_hex("1ABC9C"), Color::AQUA);
}

#[test]
fn from_hex_lowercase_is_skipped() {
    assert_eq!(Color::from_hex("ff"), 0);
    assert_eq!(Color::from_hex("1a2"), 0x12);
}

#[test]
fn from_hex_letters_past_f_are_skipped() {
    assert_eq!(Color::from_hex("G1"), 1);
    assert_eq!(Color::from_hex("#ZZ10"), 16);
}

#[test]
fn from_hex_wraps_past_32_bits() {
    assert_eq!(Color::from_hex("FFFFFFFF"), -1);
    assert_eq!(Color::from_hex("100000000"), 0);
    assert_eq!(Color::from_hex("7FFFFFFF"), i32::MAX);
}
