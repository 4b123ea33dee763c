use easy_gnome::codec;
use easy_gnome::reply;
use easy_gnome::settings::SettingKey;
use easy_gnome::settings::SettingValue;

#[test]
fn parse_u32_plain() {
    assert_eq!(codec::parse_u32(b"500"), Some(500));
    assert_eq!(codec::parse_u32(b"0"), Some(0));
    assert_eq!(codec::parse_u32(b"4294967295"), Some(u32::MAX));
}

#[test]
fn parse_u32_rejects() {
    assert_eq!(codec::parse_u32(b""), None);
    assert_eq!(codec::parse_u32(b"12a"), None);
    assert_eq!(codec::parse_u32(b"-5"), None);
    assert_eq!(codec::parse_u32(b" 5"), None);
    assert_eq!(codec::parse_u32(b"4294967296"), None);
    assert_eq!(codec::parse_u32(b"99999999999999999999"), None);
}

#[test]
fn parse_i32_plain() {
    assert_eq!(codec::parse_i32(b"24"), Some(24));
    assert_eq!(codec::parse_i32(b"-24"), Some(-24));
    assert_eq!(codec::parse_i32(b"2147483647"), Some(i32::MAX));
    assert_eq!(codec::parse_i32(b"-2147483648"), Some(i32::MIN));
}

#[test]
fn parse_i32_rejects() {
    assert_eq!(codec::parse_i32(b""), None);
    assert_eq!(codec::parse_i32(b"-"), None);
    assert_eq!(codec::parse_i32(b"2147483648"), None);
    assert_eq!(codec::parse_i32(b"-2147483649"), None);
    assert_eq!(codec::parse_i32(b"1.5"), None);
}

#[test]
fn parse_boolean_words() {
    assert_eq!(codec::parse_boolean(b"true"), Some(true));
    assert_eq!(codec::parse_boolean(b"false"), Some(false));
    assert_eq!(codec::parse_boolean(b"True"), None);
    assert_eq!(codec::parse_boolean(b""), None);
}

#[test]
fn format_values() {
    assert_eq!(codec::format_u32(0), b"0");
    assert_eq!(codec::format_u32(500), b"500");
    assert_eq!(codec::format_u32(u32::MAX), b"4294967295");
    assert_eq!(codec::format_i32(24), b"24");
    assert_eq!(codec::format_i32(-24), b"-24");
    assert_eq!(codec::format_i32(i32::MIN), b"-2147483648");
    assert_eq!(codec::format_boolean(true), b"true");
    assert_eq!(codec::format_boolean(false), b"false");
}

#[test]
fn format_then_parse_round_trip() {
    let samples = [
        (SettingKey::KeyboardPressDelay, SettingValue::Uint(500)),
        (SettingKey::NightlightTemperature, SettingValue::Uint(0)),
        (SettingKey::CursorSize, SettingValue::Int(-48)),
        (SettingKey::CursorSize, SettingValue::Int(24)),
        (SettingKey::LocatePointer, SettingValue::Boolean(true)),
        (SettingKey::TwoFingerScroll, SettingValue::Boolean(false)),
    ];
    for (key, value) in samples {
        let text = codec::format_value(&value);
        assert_eq!(codec::parse_value(key, &text), Some(value));
    }
}

#[test]
fn reply_value_second_field() {
    assert_eq!(reply::reply_value(b"uint32 500\n"), b"500");
    assert_eq!(reply::reply_value(b"uint32 2700\n"), b"2700");
}

#[test]
fn reply_value_single_field() {
    assert_eq!(reply::reply_value(b"true\n"), b"true");
    assert_eq!(reply::reply_value(b"24\n"), b"24");
    assert_eq!(reply::reply_value(b""), b"");
}

#[test]
fn reply_value_trims_and_strips() {
    // interior newlines go away before the line is split
    assert_eq!(reply::reply_value(b"uint32\n 500\n"), b"500");
    // the second field is trimmed
    assert_eq!(reply::reply_value(b"word \tvalue"), b"value");
    // a third field is not part of the value
    assert_eq!(reply::reply_value(b"a b c\n"), b"b");
}

#[test]
fn decode_reply_typed() {
    assert_eq!(
        codec::decode_reply(SettingKey::KeyboardPressDelay, b"uint32 500\n"),
        Some(SettingValue::Uint(500))
    );
    assert_eq!(
        codec::decode_reply(SettingKey::CursorSize, b"24\n"),
        Some(SettingValue::Int(24))
    );
    assert_eq!(
        codec::decode_reply(SettingKey::LocatePointer, b"false\n"),
        Some(SettingValue::Boolean(false))
    );
    assert_eq!(
        codec::decode_reply(SettingKey::LocatePointer, b"uint32 500\n"),
        None
    );
    assert_eq!(codec::decode_reply(SettingKey::KeyboardPressDelay, b""), None);
}

#[test]
fn apply_reply_updates_store() {
    let mut s = easy_gnome::settings::DesktopSettings::defaults();
    assert!(codec::apply_reply(
        &mut s,
        SettingKey::KeyboardPressDelay,
        b"uint32 250\n"
    ));
    assert_eq!(s.keyboard_press_delay, 250);

    // an undecodable reply leaves the store unchanged
    let before = s;
    assert!(!codec::apply_reply(
        &mut s,
        SettingKey::KeyboardPressDelay,
        b"garbage\n"
    ));
    assert_eq!(s, before);

    assert!(codec::apply_reply(&mut s, SettingKey::NightlightActive, b"true\n"));
    assert_eq!(s.nightlight_active, true);
    assert!(codec::apply_reply(&mut s, SettingKey::CursorSize, b"48\n"));
    assert_eq!(s.cursor_size, 48);
}

#[test]
fn schema_and_key_names() {
    assert_eq!(
        codec::schema_of(SettingKey::KeyboardPressDelay),
        "org.gnome.desktop.peripherals.keyboard"
    );
    assert_eq!(codec::key_name_of(SettingKey::KeyboardPressDelay), "delay");
    assert_eq!(
        codec::schema_of(SettingKey::NightlightActive),
        "org.gnome.settings-daemon.plugins.color"
    );
    assert_eq!(codec::key_name_of(SettingKey::NightlightActive), "night-light-enabled");
    assert_eq!(
        codec::key_name_of(SettingKey::TwoFingerScroll),
        "two-finger-scrolling-enabled"
    );
    assert_eq!(codec::schema_of(SettingKey::CursorSize), "org.gnome.desktop.interface");
    assert_eq!(codec::key_name_of(SettingKey::CursorSize), "cursor-size");
}

#[test]
fn bytes_and_str_eq() {
    assert!(codec::bytes_eq(b"abc", b"abc"));
    assert!(!codec::bytes_eq(b"abc", b"abd"));
    assert!(!codec::bytes_eq(b"abc", b"ab"));
    assert!(codec::str_eq("night-light", "night-light"));
    assert!(!codec::str_eq("night-light", "night-Light"));
}
