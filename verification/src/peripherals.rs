//! Keyboard, mouse and touchpad settings.
//!
//! Each function reads or writes one fixed key of the store model; the
//! key's schema and name on the command-line tool come from `codec`.

use vstd::prelude::*;

use crate::settings::DesktopSettings;
use crate::settings::SettingKey;
use crate::settings::SettingValue;
use crate::settings::spec_default_of;

verus! {

/// Sets the delay before a held key repeats, in milliseconds.
pub fn set_keyboard_press_delay(s: &mut DesktopSettings, delay: u32)
    ensures
        *final(s) == old(s).spec_with(SettingKey::KeyboardPressDelay, SettingValue::Uint(delay)),
{
    s.set_value(SettingKey::KeyboardPressDelay, SettingValue::Uint(delay))
}

/// Reads the delay before a held key repeats.
pub fn get_keyboard_press_delay(s: &DesktopSettings) -> (delay: u32)
    ensures
        delay == s.keyboard_press_delay,
{
    s.keyboard_press_delay
}

/// Resets the key-press delay to its schema default.
pub fn reset_keyboard_press_delay(s: &mut DesktopSettings)
    ensures
        *final(s) == old(s).spec_with(
            SettingKey::KeyboardPressDelay,
            spec_default_of(SettingKey::KeyboardPressDelay),
        ),
{
    s.reset_value(SettingKey::KeyboardPressDelay)
}

/// Sets the interval between key repeats, in milliseconds.
pub fn set_keyboard_repeat_interval(s: &mut DesktopSettings, interval: u32)
    ensures
        *final(s) == old(s).spec_with(
            SettingKey::KeyboardRepeatInterval,
            SettingValue::Uint(interval),
        ),
{
    s.set_value(SettingKey::KeyboardRepeatInterval, SettingValue::Uint(interval))
}

/// Reads the interval between key repeats.
pub fn get_keyboard_repeat_interval(s: &DesktopSettings) -> (interval: u32)
    ensures
        interval == s.keyboard_repeat_interval,
{
    s.keyboard_repeat_interval
}

/// Resets the key-repeat interval to its schema default.
pub fn reset_keyboard_repeat_interval(s: &mut DesktopSettings)
    ensures
        *final(s) == old(s).spec_with(
            SettingKey::KeyboardRepeatInterval,
            spec_default_of(SettingKey::KeyboardRepeatInterval),
        ),
{
    s.reset_value(SettingKey::KeyboardRepeatInterval)
}

/// Sets whether the mouse wheel scrolls content rather than the view.
pub fn set_mouse_natural_scroll(s: &mut DesktopSettings, natural: bool)
    ensures
        *final(s) == old(s).spec_with(
            SettingKey::MouseNaturalScroll,
            SettingValue::Boolean(natural),
        ),
{
    s.set_value(SettingKey::MouseNaturalScroll, SettingValue::Boolean(natural))
}

/// Reads whether the mouse scrolls naturally.
pub fn get_mouse_natural_scroll(s: &DesktopSettings) -> (natural: bool)
    ensures
        natural == s.mouse_natural_scroll,
{
    s.mouse_natural_scroll
}

/// Resets natural scrolling for the mouse to its schema default.
pub fn reset_mouse_natural_scroll(s: &mut DesktopSettings)
    ensures
        *final(s) == old(s).spec_with(
            SettingKey::MouseNaturalScroll,
            spec_default_of(SettingKey::MouseNaturalScroll),
        ),
{
    s.reset_value(SettingKey::MouseNaturalScroll)
}

/// Sets whether a tap on the touchpad clicks.
pub fn set_touchpad_tap_to_click(s: &mut DesktopSettings, tap: bool)
    ensures
        *final(s) == old(s).spec_with(SettingKey::TouchpadTapToClick, SettingValue::Boolean(tap)),
{
    s.set_value(SettingKey::TouchpadTapToClick, SettingValue::Boolean(tap))
}

/// Reads whether a tap on the touchpad clicks.
pub fn get_touchpad_tap_to_click(s: &DesktopSettings) -> (tap: bool)
    ensures
        tap == s.touchpad_tap_to_click,
{
    s.touchpad_tap_to_click
}

/// Resets tap-to-click to its schema default.
pub fn reset_touchpad_tap_to_click(s: &mut DesktopSettings)
    ensures
        *final(s) == old(s).spec_with(
            SettingKey::TouchpadTapToClick,
            spec_default_of(SettingKey::TouchpadTapToClick),
        ),
{
    s.reset_value(SettingKey::TouchpadTapToClick)
}

/// Sets whether two-finger scrolling is enabled on the touchpad.
pub fn set_two_finger_scroll(s: &mut DesktopSettings, enabled: bool)
    ensures
        *final(s) == old(s).spec_with(SettingKey::TwoFingerScroll, SettingValue::Boolean(enabled)),
{
    s.set_value(SettingKey::TwoFingerScroll, SettingValue::Boolean(enabled))
}

/// Reads whether two-finger scrolling is enabled.
pub fn get_two_finger_scroll(s: &DesktopSettings) -> (enabled: bool)
    ensures
        enabled == s.two_finger_scroll,
{
    s.two_finger_scroll
}

/// Resets two-finger scrolling to its schema default.
pub fn reset_two_finger_scroll(s: &mut DesktopSettings)
    ensures
        *final(s) == old(s).spec_with(
            SettingKey::TwoFingerScroll,
            spec_default_of(SettingKey::TwoFingerScroll),
        ),
{
    s.reset_value(SettingKey::TwoFingerScroll)
}

} // verus!
