//! Night-light settings: whether the screen is warmed at night, and to
//! which color temperature.
//!
//! Each function reads or writes one fixed key of the store model; the
//! key's schema and name on the command-line tool come from `codec`.

use vstd::prelude::*;

use crate::settings::DesktopSettings;
use crate::settings::SettingKey;
use crate::settings::SettingValue;
use crate::settings::spec_default_of;

verus! {

/// Reads whether the night light is enabled.
pub fn nightlight_active(s: &DesktopSettings) -> (active: bool)
    ensures
        active == s.nightlight_active,
{
    s.nightlight_active
}

/// Sets whether the night light is enabled.
pub fn set_nightlight_active(s: &mut DesktopSettings, active: bool)
    ensures
        *final(s) == old(s).spec_with(SettingKey::NightlightActive, SettingValue::Boolean(active)),
{
    s.set_value(SettingKey::NightlightActive, SettingValue::Boolean(active))
}

/// Resets the night light to its schema default.
pub fn reset_nightlight_active(s: &mut DesktopSettings)
    ensures
        *final(s) == old(s).spec_with(
            SettingKey::NightlightActive,
            spec_default_of(SettingKey::NightlightActive),
        ),
{
    s.reset_value(SettingKey::NightlightActive)
}

/// Reads the night-light color temperature, in kelvin.
pub fn temperature(s: &DesktopSettings) -> (t: u32)
    ensures
        t == s.nightlight_temperature,
{
    s.nightlight_temperature
}

/// Sets the night-light color temperature, in kelvin.
pub fn set_temperature(s: &mut DesktopSettings, t: u32)
    ensures
        *final(s) == old(s).spec_with(SettingKey::NightlightTemperature, SettingValue::Uint(t)),
{
    s.set_value(SettingKey::NightlightTemperature, SettingValue::Uint(t))
}

/// Resets the night-light color temperature to its schema default.
pub fn reset_temperature(s: &mut DesktopSettings)
    ensures
        *final(s) == old(s).spec_with(
            SettingKey::NightlightTemperature,
            spec_default_of(SettingKey::NightlightTemperature),
        ),
{
    s.reset_value(SettingKey::NightlightTemperature)
}

} // verus!
