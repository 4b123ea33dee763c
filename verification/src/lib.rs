//! A desktop-integration library for GNOME system settings.
//!
//! The verified core models the configuration store that the `gsettings`
//! command-line tool exposes (typed keys with documented defaults), the
//! textual encoding of values on that tool's command line and in its
//! replies, the decoding of shell-extension property dictionaries, and
//! the application records with their icon images.

pub mod apps;
pub mod codec;
pub mod extensions;
pub mod interface;
pub mod nightlight;
pub mod peripherals;
pub mod power;
pub mod reply;
pub mod settings;
