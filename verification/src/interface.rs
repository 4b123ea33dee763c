//! Desktop interface settings: battery percentage, pointer location,
//! cursor size.
//!
//! Each function reads or writes one fixed key of the store model; the
//! key's schema and name on the command-line tool come from `codec`.

use vstd::prelude::*;

use crate::settings::DesktopSettings;
use crate::settings::SettingKey;
use crate::settings::SettingValue;
use crate::settings::spec_default_of;

verus! {

/// Sets whether the top bar shows the battery percentage.
pub fn set_show_battery_percentage(s: &mut DesktopSettings, show: bool)
    ensures
        *final(s) == old(s).spec_with(
            SettingKey::ShowBatteryPercentage,
            SettingValue::Boolean(show),
        ),
{
    s.set_value(SettingKey::ShowBatteryPercentage, SettingValue::Boolean(show))
}

/// Reads whether the top bar shows the battery percentage.
pub fn get_show_battery_percentage(s: &DesktopSettings) -> (show: bool)
    ensures
        show == s.show_battery_percentage,
{
    s.show_battery_percentage
}

/// Resets the battery-percentage display to its schema default.
pub fn reset_show_battery_percentage(s: &mut DesktopSettings)
    ensures
        *final(s) == old(s).spec_with(
            SettingKey::ShowBatteryPercentage,
            spec_default_of(SettingKey::ShowBatteryPercentage),
        ),
{
    s.reset_value(SettingKey::ShowBatteryPercentage)
}

/// Sets whether pressing a modifier highlights the pointer.
pub fn set_locate_pointer(s: &mut DesktopSettings, locate: bool)
    ensures
        *final(s) == old(s).spec_with(SettingKey::LocatePointer, SettingValue::Boolean(locate)),
{
    s.set_value(SettingKey::LocatePointer, SettingValue::Boolean(locate))
}

/// Reads whether pointer location is enabled.
pub fn get_locate_pointer(s: &DesktopSettings) -> (locate: bool)
    ensures
        locate == s.locate_pointer,
{
    s.locate_pointer
}

/// Resets pointer location to its schema default.
pub fn reset_locate_pointer(s: &mut DesktopSettings)
    ensures
        *final(s) == old(s).spec_with(
            SettingKey::LocatePointer,
            spec_default_of(SettingKey::LocatePointer),
        ),
{
    s.reset_value(SettingKey::LocatePointer)
}

/// Sets the cursor size, in pixels.
pub fn set_cursor_size(s: &mut DesktopSettings, size: i32)
    ensures
        *final(s) == old(s).spec_with(SettingKey::CursorSize, SettingValue::Int(size)),
{
    s.set_value(SettingKey::CursorSize, SettingValue::Int(size))
}

/// Reads the cursor size.
pub fn get_cursor_size(s: &DesktopSettings) -> (size: i32)
    ensures
        size == s.cursor_size,
{
    s.cursor_size
}

/// Resets the cursor size to its schema default.
pub fn reset_cursor_size(s: &mut DesktopSettings)
    ensures
        *final(s) == old(s).spec_with(
            SettingKey::CursorSize,
            spec_default_of(SettingKey::CursorSize),
        ),
{
    s.reset_value(SettingKey::CursorSize)
}

} // verus!
