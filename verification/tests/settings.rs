use easy_gnome::interface;
use easy_gnome::nightlight;
use easy_gnome::peripherals;
use easy_gnome::settings::DesktopSettings;
use easy_gnome::settings::SettingKey;
use easy_gnome::settings::SettingValue;
use easy_gnome::settings::default_of;

#[test]
fn set_keyboard_press_delay() {
    let mut s = DesktopSettings::defaults();
    let delay = 100;
    peripherals::set_keyboard_press_delay(&mut s, delay);
    assert_eq!(peripherals::get_keyboard_press_delay(&s), delay);
}

#[test]
fn reset_keyboard_press_delay() {
    let mut s = DesktopSettings::defaults();
    let default_delay = 500;
    peripherals::set_keyboard_press_delay(&mut s, 100);
    peripherals::reset_keyboard_press_delay(&mut s);
    assert_eq!(peripherals::get_keyboard_press_delay(&s), default_delay);
}

#[test]
fn set_keyboard_repeat_interval() {
    let mut s = DesktopSettings::defaults();
    let interval = 100;
    peripherals::set_keyboard_repeat_interval(&mut s, interval);
    assert_eq!(peripherals::get_keyboard_repeat_interval(&s), interval);
}

#[test]
fn reset_keyboard_repeat_interval() {
    let mut s = DesktopSettings::defaults();
    let default_interval = 30;
    peripherals::set_keyboard_repeat_interval(&mut s, 100);
    peripherals::reset_keyboard_repeat_interval(&mut s);
    assert_eq!(peripherals::get_keyboard_repeat_interval(&s), default_interval);
}

#[test]
fn set_show_battery_percentage() {
    let mut s = DesktopSettings::defaults();
    let show_percentage = true;
    interface::set_show_battery_percentage(&mut s, show_percentage);
    assert_eq!(interface::get_show_battery_percentage(&s), show_percentage);
}

#[test]
fn reset_show_battery_percentage() {
    let mut s = DesktopSettings::defaults();
    let show_percentage = false;
    interface::set_show_battery_percentage(&mut s, true);
    interface::reset_show_battery_percentage(&mut s);
    assert_eq!(interface::get_show_battery_percentage(&s), show_percentage);
}

#[test]
fn set_locate_pointer() {
    let mut s = DesktopSettings::defaults();
    let locate_pointer = true;
    interface::set_locate_pointer(&mut s, locate_pointer);
    assert_eq!(interface::get_locate_pointer(&s), locate_pointer);
}

#[test]
fn reset_locate_pointer() {
    let mut s = DesktopSettings::defaults();
    let locate_pointer = false;
    interface::set_locate_pointer(&mut s, true);
    interface::reset_locate_pointer(&mut s);
    assert_eq!(interface::get_locate_pointer(&s), locate_pointer);
}

#[test]
fn set_cursor_size() {
    let mut s = DesktopSettings::defaults();
    let cursor_size = 50;
    interface::set_cursor_size(&mut s, cursor_size);
    assert_eq!(interface::get_cursor_size(&s), cursor_size);
}

#[test]
fn reset_cursor_size() {
    let mut s = DesktopSettings::defaults();
    let cursor_size = 24;
    interface::set_cursor_size(&mut s, 50);
    interface::reset_cursor_size(&mut s);
    assert_eq!(interface::get_cursor_size(&s), cursor_size);
}

#[test]
fn set_mouse_natural_scroll() {
    let mut s = DesktopSettings::defaults();
    peripherals::set_mouse_natural_scroll(&mut s, true);
    assert_eq!(peripherals::get_mouse_natural_scroll(&s), true);
}

#[test]
fn reset_mouse_natural_scroll() {
    let mut s = DesktopSettings::defaults();
    peripherals::set_mouse_natural_scroll(&mut s, true);
    peripherals::reset_mouse_natural_scroll(&mut s);
    assert_eq!(peripherals::get_mouse_natural_scroll(&s), false);
}

#[test]
fn set_touchpad_tap_to_click() {
    let mut s = DesktopSettings::defaults();
    peripherals::set_touchpad_tap_to_click(&mut s, false);
    assert_eq!(peripherals::get_touchpad_tap_to_click(&s), false);
}

#[test]
fn reset_touchpad_tap_to_click() {
    let mut s = DesktopSettings::defaults();
    peripherals::set_touchpad_tap_to_click(&mut s, true);
    peripherals::reset_touchpad_tap_to_click(&mut s);
    assert_eq!(peripherals::get_touchpad_tap_to_click(&s), false);
}

#[test]
fn set_two_finger_scroll() {
    let mut s = DesktopSettings::defaults();
    peripherals::set_two_finger_scroll(&mut s, false);
    assert_eq!(peripherals::get_two_finger_scroll(&s), false);
}

#[test]
fn reset_two_finger_scroll() {
    let mut s = DesktopSettings::defaults();
    peripherals::set_two_finger_scroll(&mut s, false);
    peripherals::reset_two_finger_scroll(&mut s);
    assert_eq!(peripherals::get_two_finger_scroll(&s), true);
}

#[test]
fn get_temperature() {
    let s = DesktopSettings::defaults();
    let temperature: u32 = nightlight::temperature(&s);
    println!("temperature: {}", temperature);
    assert!(temperature > 0);
}

#[test]
fn set_temperature() {
    let mut s = DesktopSettings::defaults();
    let temperature: u32 = 3000;
    nightlight::set_temperature(&mut s, temperature);
    assert_eq!(nightlight::temperature(&s), temperature);
}

#[test]
fn reset_temperature() {
    let mut s = DesktopSettings::defaults();
    let temperature: u32 = 2700;
    nightlight::set_temperature(&mut s, 3000);
    nightlight::reset_temperature(&mut s);
    assert_eq!(nightlight::temperature(&s), temperature);
}

#[test]
fn set_nightlight_active() {
    let mut s = DesktopSettings::defaults();
    let active = true;
    nightlight::set_nightlight_active(&mut s, active);
    assert_eq!(nightlight::nightlight_active(&s), active);
}

#[test]
fn get_nightlight_active() {
    let mut s = DesktopSettings::defaults();
    let active = false;
    nightlight::set_nightlight_active(&mut s, active);
    assert_eq!(nightlight::nightlight_active(&s), active);
}

#[test]
fn defaults_match_schema() {
    let s = DesktopSettings::defaults();
    assert_eq!(s.keyboard_press_delay, 500);
    assert_eq!(s.keyboard_repeat_interval, 30);
    assert_eq!(s.mouse_natural_scroll, false);
    assert_eq!(s.touchpad_tap_to_click, false);
    assert_eq!(s.two_finger_scroll, true);
    assert_eq!(s.show_battery_percentage, false);
    assert_eq!(s.locate_pointer, false);
    assert_eq!(s.cursor_size, 24);
    assert_eq!(s.nightlight_active, false);
    assert_eq!(s.nightlight_temperature, 2700);
}

#[test]
fn set_then_get_every_key() {
    let keys = [
        SettingKey::KeyboardPressDelay,
        SettingKey::KeyboardRepeatInterval,
        SettingKey::MouseNaturalScroll,
        SettingKey::TouchpadTapToClick,
        SettingKey::TwoFingerScroll,
        SettingKey::ShowBatteryPercentage,
        SettingKey::LocatePointer,
        SettingKey::CursorSize,
        SettingKey::NightlightActive,
        SettingKey::NightlightTemperature,
    ];
    for key in keys {
        let mut s = DesktopSettings::defaults();
        let value = match default_of(key) {
            SettingValue::Uint(_) => SettingValue::Uint(4321),
            SettingValue::Int(_) => SettingValue::Int(-7),
            SettingValue::Boolean(b) => SettingValue::Boolean(!b),
        };
        s.set_value(key, value);
        assert_eq!(s.value_of(key), value);
    }
}

#[test]
fn reset_then_get_every_key() {
    let keys = [
        SettingKey::KeyboardPressDelay,
        SettingKey::KeyboardRepeatInterval,
        SettingKey::MouseNaturalScroll,
        SettingKey::TouchpadTapToClick,
        SettingKey::TwoFingerScroll,
        SettingKey::ShowBatteryPercentage,
        SettingKey::LocatePointer,
        SettingKey::CursorSize,
        SettingKey::NightlightActive,
        SettingKey::NightlightTemperature,
    ];
    for key in keys {
        let mut s = DesktopSettings::defaults();
        let value = match default_of(key) {
            SettingValue::Uint(_) => SettingValue::Uint(4321),
            SettingValue::Int(_) => SettingValue::Int(-7),
            SettingValue::Boolean(b) => SettingValue::Boolean(!b),
        };
        s.set_value(key, value);
        s.reset_value(key);
        assert_eq!(s.value_of(key), default_of(key));
    }
}

#[test]
fn set_frames_other_keys() {
    let mut s = DesktopSettings::defaults();
    s.set_value(SettingKey::CursorSize, SettingValue::Int(48));
    assert_eq!(
        s.value_of(SettingKey::KeyboardPressDelay),
        SettingValue::Uint(500)
    );
    assert_eq!(
        s.value_of(SettingKey::TwoFingerScroll),
        SettingValue::Boolean(true)
    );
    assert_eq!(s.value_of(SettingKey::CursorSize), SettingValue::Int(48));
}
