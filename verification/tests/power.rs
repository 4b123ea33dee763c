use easy_gnome::power::PowerProfile;
use easy_gnome::power::profile_from_name;
use easy_gnome::power::profile_name;

#[test]
fn profile_names() {
    assert_eq!(profile_name(&PowerProfile::Performance), "performance");
    assert_eq!(profile_name(&PowerProfile::Balanced), "balanced");
    assert_eq!(profile_name(&PowerProfile::PowerSaver), "power-saver");
}

#[test]
fn profile_from_names() {
    assert_eq!(profile_from_name("performance"), Some(PowerProfile::Performance));
    assert_eq!(profile_from_name("balanced"), Some(PowerProfile::Balanced));
    assert_eq!(profile_from_name("power-saver"), Some(PowerProfile::PowerSaver));
    assert_eq!(profile_from_name("power_saver"), None);
    assert_eq!(profile_from_name(""), None);
}

#[test]
fn profile_name_round_trip() {
    let profiles = [
        PowerProfile::Performance,
        PowerProfile::Balanced,
        PowerProfile::PowerSaver,
    ];
    for profile in profiles {
        assert_eq!(profile_from_name(profile_name(&profile)), Some(profile));
    }
}
