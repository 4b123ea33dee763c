use easy_gnome::extensions::ExtensionState;
use easy_gnome::extensions::PropValue;
use easy_gnome::extensions::decode_extension;
use easy_gnome::extensions::decode_extension_list;
use easy_gnome::extensions::state_code;
use easy_gnome::extensions::state_from_code;

fn sample_props() -> Vec<(String, PropValue)> {
    vec![
        (
            "name".to_string(),
            PropValue::Text("Extension List".to_string()),
        ),
        (
            "description".to_string(),
            PropValue::Text("A list of extensions".to_string()),
        ),
        ("state".to_string(), PropValue::Number(1)),
        (
            "url".to_string(),
            PropValue::Text("https://example.invalid/list".to_string()),
        ),
        ("version".to_string(), PropValue::Text("21".to_string())),
    ]
}

#[test]
fn decode_full_record() {
    let props = sample_props();
    let record = decode_extension("extension-list@tu.berry".to_string(), &props).unwrap();
    assert_eq!(record.uuid, "extension-list@tu.berry");
    assert_eq!(record.name, "Extension List");
    assert_eq!(record.description, "A list of extensions");
    assert_eq!(record.state, ExtensionState::Enabled);
    assert_eq!(record.version, "21");
    assert_eq!(record.url, "https://example.invalid/list");
}

#[test]
fn decode_version_fallbacks() {
    // a missing version falls back to the empty string
    let mut props = sample_props();
    props.retain(|(k, _)| k != "version");
    let record = decode_extension("u".to_string(), &props).unwrap();
    assert_eq!(record.version, "");

    // a version that is not text falls back too
    let mut props = sample_props();
    props.retain(|(k, _)| k != "version");
    props.push(("version".to_string(), PropValue::Number(21)));
    let record = decode_extension("u".to_string(), &props).unwrap();
    assert_eq!(record.version, "");
}

#[test]
fn decode_missing_required_field() {
    for missing in ["name", "description", "url", "state"] {
        let mut props = sample_props();
        props.retain(|(k, _)| k != missing);
        assert!(decode_extension("u".to_string(), &props).is_none());
    }
}

#[test]
fn decode_wrong_shape() {
    // a name that is a number does not decode
    let mut props = sample_props();
    props.retain(|(k, _)| k != "name");
    props.push(("name".to_string(), PropValue::Number(3)));
    assert!(decode_extension("u".to_string(), &props).is_none());

    // a state that is text does not decode
    let mut props = sample_props();
    props.retain(|(k, _)| k != "state");
    props.push(("state".to_string(), PropValue::Text("1".to_string())));
    assert!(decode_extension("u".to_string(), &props).is_none());
}

#[test]
fn state_codes() {
    assert_eq!(state_from_code(1), ExtensionState::Enabled);
    assert_eq!(state_from_code(2), ExtensionState::Disabled);
    assert_eq!(state_from_code(3), ExtensionState::Errored);
    assert_eq!(state_from_code(4), ExtensionState::OutOfDate);
    assert_eq!(state_from_code(5), ExtensionState::Downloading);
    assert_eq!(state_from_code(6), ExtensionState::Initialized);
    assert_eq!(state_from_code(99), ExtensionState::Uninstalled);
    // anything else falls back to uninstalled
    assert_eq!(state_from_code(0), ExtensionState::Uninstalled);
    assert_eq!(state_from_code(7), ExtensionState::Uninstalled);
    assert_eq!(state_from_code(-1), ExtensionState::Uninstalled);
}

#[test]
fn state_code_round_trip() {
    let states = [
        ExtensionState::Enabled,
        ExtensionState::Disabled,
        ExtensionState::Errored,
        ExtensionState::OutOfDate,
        ExtensionState::Downloading,
        ExtensionState::Initialized,
        ExtensionState::Uninstalled,
    ];
    for state in states {
        assert_eq!(state_from_code(state_code(&state)), state);
    }
}

#[test]
fn decode_listing() {
    let mut other = sample_props();
    other.retain(|(k, _)| k != "state");
    other.push(("state".to_string(), PropValue::Number(2)));
    let list = vec![
        ("first@example".to_string(), sample_props()),
        ("second@example".to_string(), other),
    ];
    let records = decode_extension_list(list).unwrap();
    assert_eq!(records.len(), 2);
    assert_eq!(records[0].uuid, "first@example");
    assert_eq!(records[0].state, ExtensionState::Enabled);
    assert_eq!(records[1].uuid, "second@example");
    assert_eq!(records[1].state, ExtensionState::Disabled);
}

#[test]
fn decode_listing_with_bad_entry() {
    let mut bad = sample_props();
    bad.retain(|(k, _)| k != "name");
    let list = vec![
        ("first@example".to_string(), sample_props()),
        ("second@example".to_string(), bad),
    ];
    assert!(decode_extension_list(list).is_none());
}
