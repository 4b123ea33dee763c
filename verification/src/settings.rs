//! The model of the desktop configuration store.
//!
//! The desktop keeps its configuration in a store of typed keys, read and
//! written through the `gsettings` command-line tool.  This module models
//! the slice of that store that the library works with: each key holds a
//! typed value, and each key has a documented schema default that a reset
//! restores.

use vstd::prelude::*;

verus! {

/// A configuration key of the desktop store.
///
/// Each key belongs to a fixed schema and has a fixed value type and a
/// documented default; see `codec` for the schema and key names that the
/// command-line tool uses.
#[derive(Clone, Copy, PartialEq, Eq, Structural, Debug)]
pub enum SettingKey {
    KeyboardPressDelay,
    KeyboardRepeatInterval,
    MouseNaturalScroll,
    TouchpadTapToClick,
    TwoFingerScroll,
    ShowBatteryPercentage,
    LocatePointer,
    CursorSize,
    NightlightActive,
    NightlightTemperature,
}

/// A typed value held by a configuration key: an unsigned integer, a
/// signed integer, or a boolean, matching the value types of the schemas
/// this library touches.
#[derive(Clone, Copy, PartialEq, Eq, Structural, Debug)]
pub enum SettingValue {
    Uint(u32),
    Int(i32),
    Boolean(bool),
}

/// Whether `value` has the value type that `key` holds.
pub open spec fn key_accepts(key: SettingKey, value: SettingValue) -> bool {
    match key {
        SettingKey::KeyboardPressDelay => value is Uint,
        SettingKey::KeyboardRepeatInterval => value is Uint,
        SettingKey::MouseNaturalScroll => value is Boolean,
        SettingKey::TouchpadTapToClick => value is Boolean,
        SettingKey::TwoFingerScroll => value is Boolean,
        SettingKey::ShowBatteryPercentage => value is Boolean,
        SettingKey::LocatePointer => value is Boolean,
        SettingKey::CursorSize => value is Int,
        SettingKey::NightlightActive => value is Boolean,
        SettingKey::NightlightTemperature => value is Uint,
    }
}

/// The documented schema default of `key`.
pub open spec fn spec_default_of(key: SettingKey) -> SettingValue {
    match key {
        SettingKey::KeyboardPressDelay => SettingValue::Uint(500),
        SettingKey::KeyboardRepeatInterval => SettingValue::Uint(30),
        SettingKey::MouseNaturalScroll => SettingValue::Boolean(false),
        SettingKey::TouchpadTapToClick => SettingValue::Boolean(false),
        SettingKey::TwoFingerScroll => SettingValue::Boolean(true),
        SettingKey::ShowBatteryPercentage => SettingValue::Boolean(false),
        SettingKey::LocatePointer => SettingValue::Boolean(false),
        SettingKey::CursorSize => SettingValue::Int(24),
        SettingKey::NightlightActive => SettingValue::Boolean(false),
        SettingKey::NightlightTemperature => SettingValue::Uint(2700),
    }
}

/// The documented schema default of `key`.
pub fn default_of(key: SettingKey) -> (value: SettingValue)
    ensures
        value == spec_default_of(key),
{
    match key {
        SettingKey::KeyboardPressDelay => SettingValue::Uint(500),
        SettingKey::KeyboardRepeatInterval => SettingValue::Uint(30),
        SettingKey::MouseNaturalScroll => SettingValue::Boolean(false),
        SettingKey::TouchpadTapToClick => SettingValue::Boolean(false),
        SettingKey::TwoFingerScroll => SettingValue::Boolean(true),
        SettingKey::ShowBatteryPercentage => SettingValue::Boolean(false),
        SettingKey::LocatePointer => SettingValue::Boolean(false),
        SettingKey::CursorSize => SettingValue::Int(24),
        SettingKey::NightlightActive => SettingValue::Boolean(false),
        SettingKey::NightlightTemperature => SettingValue::Uint(2700),
    }
}

/// The default of every key has the value type of that key.
pub proof fn lemma_default_fits(key: SettingKey)
    ensures
        key_accepts(key, spec_default_of(key)),
{
}

/// The modeled slice of the desktop configuration store: one field per key.
#[derive(Clone, Copy, PartialEq, Eq, Structural, Debug)]
pub struct DesktopSettings {
    pub keyboard_press_delay: u32,
    pub keyboard_repeat_interval: u32,
    pub mouse_natural_scroll: bool,
    pub touchpad_tap_to_click: bool,
    pub two_finger_scroll: bool,
    pub show_battery_percentage: bool,
    pub locate_pointer: bool,
    pub cursor_size: i32,
    pub nightlight_active: bool,
    pub nightlight_temperature: u32,
}

impl DesktopSettings {
    /// The store in which every key holds its schema default.
    pub open spec fn spec_defaults() -> DesktopSettings {
        DesktopSettings {
            keyboard_press_delay: 500,
            keyboard_repeat_interval: 30,
            mouse_natural_scroll: false,
            touchpad_tap_to_click: false,
            two_finger_scroll: true,
            show_battery_percentage: false,
            locate_pointer: false,
            cursor_size: 24,
            nightlight_active: false,
            nightlight_temperature: 2700,
        }
    }

    /// Builds the store in which every key holds its schema default.
    pub fn defaults() -> (s: DesktopSettings)
        ensures
            s == DesktopSettings::spec_defaults(),
    {
        DesktopSettings {
            keyboard_press_delay: 500,
            keyboard_repeat_interval: 30,
            mouse_natural_scroll: false,
            touchpad_tap_to_click: false,
            two_finger_scroll: true,
            show_battery_percentage: false,
            locate_pointer: false,
            cursor_size: 24,
            nightlight_active: false,
            nightlight_temperature: 2700,
        }
    }

    /// The value that `key` holds in this store.
    pub open spec fn spec_value_of(self, key: SettingKey) -> SettingValue {
        match key {
            SettingKey::KeyboardPressDelay => SettingValue::Uint(self.keyboard_press_delay),
            SettingKey::KeyboardRepeatInterval => SettingValue::Uint(self.keyboard_repeat_interval),
            SettingKey::MouseNaturalScroll => SettingValue::Boolean(self.mouse_natural_scroll),
            SettingKey::TouchpadTapToClick => SettingValue::Boolean(self.touchpad_tap_to_click),
            SettingKey::TwoFingerScroll => SettingValue::Boolean(self.two_finger_scroll),
            SettingKey::ShowBatteryPercentage => SettingValue::Boolean(self.show_battery_percentage),
            SettingKey::LocatePointer => SettingValue::Boolean(self.locate_pointer),
            SettingKey::CursorSize => SettingValue::Int(self.cursor_size),
            SettingKey::NightlightActive => SettingValue::Boolean(self.nightlight_active),
            SettingKey::NightlightTemperature => SettingValue::Uint(self.nightlight_temperature),
        }
    }

    /// The store after `key` is set to `value`; a value of the wrong type
    /// leaves the store unchanged, as a rejected write would.
    pub open spec fn spec_with(self, key: SettingKey, value: SettingValue) -> DesktopSettings {
        match (key, value) {
            (SettingKey::KeyboardPressDelay, SettingValue::Uint(n)) => DesktopSettings {
                keyboard_press_delay: n,
                ..self
            },
            (SettingKey::KeyboardRepeatInterval, SettingValue::Uint(n)) => DesktopSettings {
                keyboard_repeat_interval: n,
                ..self
            },
            (SettingKey::MouseNaturalScroll, SettingValue::Boolean(b)) => DesktopSettings {
                mouse_natural_scroll: b,
                ..self
            },
            (SettingKey::TouchpadTapToClick, SettingValue::Boolean(b)) => DesktopSettings {
                touchpad_tap_to_click: b,
                ..self
            },
            (SettingKey::TwoFingerScroll, SettingValue::Boolean(b)) => DesktopSettings {
                two_finger_scroll: b,
                ..self
            },
            (SettingKey::ShowBatteryPercentage, SettingValue::Boolean(b)) => DesktopSettings {
                show_battery_percentage: b,
                ..self
            },
            (SettingKey::LocatePointer, SettingValue::Boolean(b)) => DesktopSettings {
                locate_pointer: b,
                ..self
            },
            (SettingKey::CursorSize, SettingValue::Int(n)) => DesktopSettings {
                cursor_size: n,
                ..self
            },
            (SettingKey::NightlightActive, SettingValue::Boolean(b)) => DesktopSettings {
                nightlight_active: b,
                ..self
            },
            (SettingKey::NightlightTemperature, SettingValue::Uint(n)) => DesktopSettings {
                nightlight_temperature: n,
                ..self
            },
            _ => self,
        }
    }

    /// Reads the value that `key` holds.
    pub fn value_of(&self, key: SettingKey) -> (value: SettingValue)
        ensures
            value == self.spec_value_of(key),
    {
        match key {
            SettingKey::KeyboardPressDelay => SettingValue::Uint(self.keyboard_press_delay),
            SettingKey::KeyboardRepeatInterval => SettingValue::Uint(self.keyboard_repeat_interval),
            SettingKey::MouseNaturalScroll => SettingValue::Boolean(self.mouse_natural_scroll),
            SettingKey::TouchpadTapToClick => SettingValue::Boolean(self.touchpad_tap_to_click),
            SettingKey::TwoFingerScroll => SettingValue::Boolean(self.two_finger_scroll),
            SettingKey::ShowBatteryPercentage => SettingValue::Boolean(self.show_battery_percentage),
            SettingKey::LocatePointer => SettingValue::Boolean(self.locate_pointer),
            SettingKey::CursorSize => SettingValue::Int(self.cursor_size),
            SettingKey::NightlightActive => SettingValue::Boolean(self.nightlight_active),
            SettingKey::NightlightTemperature => SettingValue::Uint(self.nightlight_temperature),
        }
    }

    /// Sets `key` to `value`.
    pub fn set_value(&mut self, key: SettingKey, value: SettingValue)
        requires
            key_accepts(key, value),
        ensures
            *final(self) == old(self).spec_with(key, value),
    {
        match (key, value) {
            (SettingKey::KeyboardPressDelay, SettingValue::Uint(n)) => {
                self.keyboard_press_delay = n;
            },
            (SettingKey::KeyboardRepeatInterval, SettingValue::Uint(n)) => {
                self.keyboard_repeat_interval = n;
            },
            (SettingKey::MouseNaturalScroll, SettingValue::Boolean(b)) => {
                self.mouse_natural_scroll = b;
            },
            (SettingKey::TouchpadTapToClick, SettingValue::Boolean(b)) => {
                self.touchpad_tap_to_click = b;
            },
            (SettingKey::TwoFingerScroll, SettingValue::Boolean(b)) => {
                self.two_finger_scroll = b;
            },
            (SettingKey::ShowBatteryPercentage, SettingValue::Boolean(b)) => {
                self.show_battery_percentage = b;
            },
            (SettingKey::LocatePointer, SettingValue::Boolean(b)) => {
                self.locate_pointer = b;
            },
            (SettingKey::CursorSize, SettingValue::Int(n)) => {
                self.cursor_size = n;
            },
            (SettingKey::NightlightActive, SettingValue::Boolean(b)) => {
                self.nightlight_active = b;
            },
            (SettingKey::NightlightTemperature, SettingValue::Uint(n)) => {
                self.nightlight_temperature = n;
            },
            _ => {
            },
        }
    }

    /// Resets `key` to its schema default.
    pub fn reset_value(&mut self, key: SettingKey)
        ensures
            *final(self) == old(self).spec_with(key, spec_default_of(key)),
    {
        proof {
            lemma_default_fits(key);
        }
        let value = default_of(key);
        self.set_value(key, value);
    }
}

/// In the default store, every key holds its own schema default.
pub proof fn lemma_defaults_hold_defaults(key: SettingKey)
    ensures
        DesktopSettings::spec_defaults().spec_value_of(key) == spec_default_of(key),
{
}

/// Reading a key back right after setting it yields the value that was
/// set, whenever the value has the key's type.
pub proof fn lemma_set_then_get(s: DesktopSettings, key: SettingKey, value: SettingValue)
    requires
        key_accepts(key, value),
    ensures
        s.spec_with(key, value).spec_value_of(key) == value,
{
}

/// Setting one key leaves every other key unchanged.
pub proof fn lemma_set_frames_other_keys(
    s: DesktopSettings,
    key: SettingKey,
    value: SettingValue,
    other: SettingKey,
)
    requires
        other != key,
    ensures
        s.spec_with(key, value).spec_value_of(other) == s.spec_value_of(other),
{
}

/// Reading a key back right after resetting it yields the key's schema
/// default.
pub proof fn lemma_reset_then_get(s: DesktopSettings, key: SettingKey)
    ensures
        s.spec_with(key, spec_default_of(key)).spec_value_of(key) == spec_default_of(key),
{
    lemma_default_fits(key);
    lemma_set_then_get(s, key, spec_default_of(key));
}

} // verus!
