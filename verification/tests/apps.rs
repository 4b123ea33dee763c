use easy_gnome::apps::App;
use easy_gnome::apps::Apps;
use easy_gnome::apps::IconImage;
use easy_gnome::apps::eq_ignore_ascii_case;

fn sample_icon() -> IconImage {
    // a 2x2 bitmap: red, green, blue, transparent
    let rgba: Vec<u8> = vec![
        255, 0, 0, 255, 0, 255, 0, 255, 0, 0, 255, 255, 0, 0, 0, 0,
    ];
    IconImage::from_rgba(2, 2, rgba).unwrap()
}

#[test]
fn icon_from_rgba_checks_size() {
    assert!(IconImage::from_rgba(2, 2, vec![0; 16]).is_some());
    assert!(IconImage::from_rgba(2, 2, vec![0; 15]).is_none());
    assert!(IconImage::from_rgba(2, 2, vec![0; 17]).is_none());
    assert!(IconImage::from_rgba(0, 0, vec![]).is_some());
}

#[test]
fn base64_icon_matches_encoders() {
    let icon = sample_icon();
    let app = App {
        name: "Paint".to_string(),
        description: Some("An image editor".to_string()),
        icon: Some(icon),
    };
    let url = app.get_base64_icon().unwrap();

    // the same bytes, pushed through the image and base64 crates here
    let buffer = image::RgbaImage::from_vec(2, 2, app.get_icon().as_ref().unwrap().rgba.clone())
        .unwrap();
    let mut png: Vec<u8> = Vec::new();
    buffer
        .write_to(&mut std::io::Cursor::new(&mut png), image::ImageOutputFormat::Png)
        .unwrap();
    let expected = format!("data:image/png;base64,{}", base64::encode(png));
    assert_eq!(url, expected);

    // a held icon yields Some, and a second call answers the same
    assert_eq!(app.get_base64_icon(), Some(url));
}

#[test]
fn base64_icon_absent() {
    let app = App {
        name: "Terminal".to_string(),
        description: None,
        icon: None,
    };
    assert!(app.get_base64_icon().is_none());
}

#[test]
fn getters_hand_back_fields() {
    let app = App {
        name: "Files".to_string(),
        description: Some("Browse files".to_string()),
        icon: None,
    };
    assert_eq!(app.get_name().as_str(), "Files");
    assert_eq!(app.get_description().as_deref(), Some("Browse files"));
    assert!(app.get_icon().is_none());

    let apps = Apps { apps: vec![app] };
    assert_eq!(apps.get_apps().len(), 1);
    assert_eq!(apps.get_apps()[0].get_name().as_str(), "Files");
}

#[test]
fn name_matching_ignores_ascii_case() {
    assert!(eq_ignore_ascii_case("Firefox", "firefox"));
    assert!(eq_ignore_ascii_case("FIREFOX", "fireFox"));
    assert!(!eq_ignore_ascii_case("Firefox", "Firefoxx"));
    assert!(!eq_ignore_ascii_case("Firefox", "Firefoy"));

    let app = App {
        name: "Files".to_string(),
        description: None,
        icon: None,
    };
    assert!(app.matches_name("files"));
    assert!(!app.matches_name("file"));
}
