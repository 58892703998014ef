use place_canvas::config::{
    has_png_suffix, ConfigArgs, ConfigError, DEFAULT_SAVE_INTERVAL, DEFAULT_SIDE,
};

fn nothing_given() -> ConfigArgs {
    ConfigArgs {
        address: None,
        height: None,
        width: None,
        save_interval: None,
        save_location: None,
        save_all_images: None,
    }
}

#[test]
fn the_defaults_are_filled_in() {
    let settings = nothing_given().resolve().unwrap();
    assert_eq!(settings.address, "0.0.0.0:8080");
    assert_eq!(settings.width, 1000);
    assert_eq!(settings.height, 1000);
    assert_eq!(settings.save_interval, 120);
    assert_eq!(settings.save_location, "place.png");
    assert!(!settings.save_all_images);
    assert_eq!(DEFAULT_SIDE, 1000);
    assert_eq!(DEFAULT_SAVE_INTERVAL, 120);
}

#[test]
fn what_is_given_is_kept() {
    let args = ConfigArgs {
        address: Some("127.0.0.1:9000".to_string()),
        height: Some(12),
        width: Some(34),
        save_interval: Some(5),
        save_location: Some("out/canvas.png".to_string()),
        save_all_images: Some(true),
    };
    let settings = args.resolve().unwrap();
    assert_eq!(settings.address, "127.0.0.1:9000");
    assert_eq!(settings.height, 12);
    assert_eq!(settings.width, 34);
    assert_eq!(settings.save_interval, 5);
    assert_eq!(settings.save_location, "out/canvas.png");
    assert!(settings.save_all_images);
}

#[test]
fn a_path_that_does_not_end_in_png_is_refused() {
    for path in ["place.jpg", "place", "png", ".pn", "place.png.bak", "place.PNG", ""] {
        let mut args = nothing_given();
        args.save_location = Some(path.to_string());
        assert_eq!(args.resolve().err(), Some(ConfigError::NotPng));
    }
}

#[test]
fn the_png_suffix_is_found_at_the_end_only() {
    assert!(has_png_suffix("place.png"));
    assert!(has_png_suffix(".png"));
    assert!(has_png_suffix("ö.png"));
    assert!(!has_png_suffix("place.png "));
    assert!(!has_png_suffix("a.pngx"));
    assert!(!has_png_suffix("apng"));
}
