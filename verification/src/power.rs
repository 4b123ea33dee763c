//! Power profiles.
//!
//! The power daemon exposes the active profile as a string property;
//! this module holds the typed profile and its name on the bus.  The
//! power actions themselves (power off, suspend, reboot) are plain bus
//! calls with nothing to compute, and live with the callers.

use vstd::prelude::*;

use crate::codec::str_eq;

verus! {

/// A power profile of the power daemon.
#[derive(Clone, Copy, PartialEq, Eq, Structural, Debug)]
pub enum PowerProfile {
    Performance,
    Balanced,
    PowerSaver,
}

/// The name under which the power daemon reports `profile`.
pub open spec fn spec_profile_name(profile: PowerProfile) -> Seq<char> {
    match profile {
        PowerProfile::Performance => "performance"@,
        PowerProfile::Balanced => "balanced"@,
        PowerProfile::PowerSaver => "power-saver"@,
    }
}

/// The name under which the power daemon reports `profile`.
pub fn profile_name(profile: &PowerProfile) -> (r: &'static str)
    ensures
        r@ == spec_profile_name(*profile),
{
    match profile {
        PowerProfile::Performance => "performance",
        PowerProfile::Balanced => "balanced",
        PowerProfile::PowerSaver => "power-saver",
    }
}

/// The profile that `name` denotes, if any.
pub open spec fn spec_profile_from_name(name: Seq<char>) -> Option<PowerProfile> {
    if name == "performance"@ {
        Some(PowerProfile::Performance)
    } else if name == "balanced"@ {
        Some(PowerProfile::Balanced)
    } else if name == "power-saver"@ {
        Some(PowerProfile::PowerSaver)
    } else {
        None
    }
}

/// Decodes a profile name reported by the power daemon.
pub fn profile_from_name(name: &str) -> (r: Option<PowerProfile>)
    ensures
        r == spec_profile_from_name(name@),
{
    if str_eq(name, "performance") {
        Some(PowerProfile::Performance)
    } else if str_eq(name, "balanced") {
        Some(PowerProfile::Balanced)
    } else if str_eq(name, "power-saver") {
        Some(PowerProfile::PowerSaver)
    } else {
        None
    }
}

/// Decoding the name of a profile yields the profile again.
pub proof fn lemma_profile_name_round_trip(profile: PowerProfile)
    ensures
        spec_profile_from_name(spec_profile_name(profile)) == Some(profile),
{
    reveal_strlit("performance");
    reveal_strlit("balanced");
    reveal_strlit("power-saver");
    assert("balanced"@ != "performance"@) by {
        assert("balanced"@.len() == 8);
        assert("performance"@.len() == 11);
    }
    assert("power-saver"@ != "performance"@) by {
        assert("power-saver"@[1] == 'o');
        assert("performance"@[1] == 'e');
    }
    assert("power-saver"@ != "balanced"@) by {
        assert("power-saver"@.len() == 11);
        assert("balanced"@.len() == 8);
    }
}

} // verus!
