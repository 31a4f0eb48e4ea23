use redshift::config::{
    clamp_opacity, clamp_stored_opacity, default_opacity, load_config, ConfigDocument,
    OverlayConfig, MAX_OPACITY, MIN_OPACITY,
};

#[test]
fn range_is_ninety_to_two_hundred() {
    assert_eq!(MIN_OPACITY, 90);
    assert_eq!(MAX_OPACITY, 200);
}

#[test]
fn default_opacity_is_the_minimum() {
    assert_eq!(default_opacity(), 90);
}

#[test]
fn clamp_keeps_values_of_the_range() {
    assert_eq!(clamp_opacity(90), 90);
    assert_eq!(clamp_opacity(91), 91);
    assert_eq!(clamp_opacity(150), 150);
    assert_eq!(clamp_opacity(199), 199);
    assert_eq!(clamp_opacity(200), 200);
}

#[test]
fn clamp_raises_low_values() {
    assert_eq!(clamp_opacity(0), 90);
    assert_eq!(clamp_opacity(1), 90);
    assert_eq!(clamp_opacity(89), 90);
}

#[test]
fn clamp_lowers_high_values() {
    assert_eq!(clamp_opacity(201), 200);
    assert_eq!(clamp_opacity(255), 200);
}

#[test]
fn clamp_lands_in_range_for_every_byte() {
    let mut value: u8 = 0;
    loop {
        let clamped: u8 = clamp_opacity(value);
        assert!((90..=200).contains(&clamped));
        assert_eq!(clamp_opacity(clamped), clamped);
        if (90..=200).contains(&value) {
            assert_eq!(clamped, value);
        }
        if value == u8::MAX {
            break;
        }
        value += 1;
    }
}

#[test]
fn clamp_stored_handles_wide_integers() {
    assert_eq!(clamp_stored_opacity(400), 200);
    assert_eq!(clamp_stored_opacity(-5), 90);
    assert_eq!(clamp_stored_opacity(0), 90);
    assert_eq!(clamp_stored_opacity(89), 90);
    assert_eq!(clamp_stored_opacity(90), 90);
    assert_eq!(clamp_stored_opacity(150), 150);
    assert_eq!(clamp_stored_opacity(200), 200);
    assert_eq!(clamp_stored_opacity(201), 200);
    assert_eq!(clamp_stored_opacity(256), 200);
    assert_eq!(clamp_stored_opacity(346), 200);
    assert_eq!(clamp_stored_opacity(i64::MAX), 200);
    assert_eq!(clamp_stored_opacity(i64::MIN), 90);
}

#[test]
fn clamp_stored_agrees_with_clamp_on_bytes() {
    let mut value: u8 = 0;
    loop {
        assert_eq!(clamp_stored_opacity(i64::from(value)), clamp_opacity(value));
        if value == u8::MAX {
            break;
        }
        value += 1;
    }
}

#[test]
fn default_configuration() {
    let config = OverlayConfig::default();
    assert_eq!(config.opacity, 90);
    assert!(!config.enabled);
    assert!(!config.launch_on_startup);
}

#[test]
fn new_clamps_the_opacity() {
    assert_eq!(
        OverlayConfig::new(10, true, false),
        OverlayConfig { opacity: 90, enabled: true, launch_on_startup: false }
    );
    assert_eq!(
        OverlayConfig::new(230, false, true),
        OverlayConfig { opacity: 200, enabled: false, launch_on_startup: true }
    );
    assert_eq!(
        OverlayConfig::new(120, true, true),
        OverlayConfig { opacity: 120, enabled: true, launch_on_startup: true }
    );
}

#[test]
fn set_opacity_clamps_and_keeps_flags() {
    let mut config = OverlayConfig { opacity: 100, enabled: true, launch_on_startup: true };
    config.set_opacity(255);
    assert_eq!(config, OverlayConfig { opacity: 200, enabled: true, launch_on_startup: true });
    config.set_opacity(3);
    assert_eq!(config, OverlayConfig { opacity: 90, enabled: true, launch_on_startup: true });
    config.set_opacity(123);
    assert_eq!(config, OverlayConfig { opacity: 123, enabled: true, launch_on_startup: true });
}

#[test]
fn missing_file_loads_defaults() {
    let config = load_config(None);
    assert_eq!(config, OverlayConfig { opacity: 90, enabled: false, launch_on_startup: false });
    assert_eq!(config, OverlayConfig::default());
}

#[test]
fn empty_document_loads_defaults() {
    let document = ConfigDocument { opacity: None, enabled: None, launch_on_startup: None };
    assert_eq!(load_config(Some(document)), OverlayConfig::default());
    assert_eq!(OverlayConfig::from_document(&document), OverlayConfig::default());
}

#[test]
fn missing_fields_take_their_own_defaults() {
    let only_enabled = ConfigDocument { opacity: None, enabled: Some(true), launch_on_startup: None };
    assert_eq!(
        OverlayConfig::from_document(&only_enabled),
        OverlayConfig { opacity: 90, enabled: true, launch_on_startup: false }
    );
    let only_opacity = ConfigDocument { opacity: Some(170), enabled: None, launch_on_startup: None };
    assert_eq!(
        OverlayConfig::from_document(&only_opacity),
        OverlayConfig { opacity: 170, enabled: false, launch_on_startup: false }
    );
    let only_launch = ConfigDocument { opacity: None, enabled: None, launch_on_startup: Some(true) };
    assert_eq!(
        OverlayConfig::from_document(&only_launch),
        OverlayConfig { opacity: 90, enabled: false, launch_on_startup: true }
    );
}

#[test]
fn out_of_range_opacity_is_clamped_on_load() {
    let high = ConfigDocument { opacity: Some(400), enabled: Some(true), launch_on_startup: Some(false) };
    assert_eq!(load_config(Some(high)).opacity, 200);
    let low = ConfigDocument { opacity: Some(-5), enabled: Some(true), launch_on_startup: Some(false) };
    assert_eq!(load_config(Some(low)).opacity, 90);
    let zero = ConfigDocument { opacity: Some(0), enabled: None, launch_on_startup: None };
    assert_eq!(load_config(Some(zero)).opacity, 90);
}

#[test]
fn to_document_writes_every_field() {
    let config = OverlayConfig { opacity: 133, enabled: true, launch_on_startup: false };
    assert_eq!(
        config.to_document(),
        ConfigDocument { opacity: Some(133), enabled: Some(true), launch_on_startup: Some(false) }
    );
}

#[test]
fn to_document_clamps_the_opacity() {
    let config = OverlayConfig { opacity: 50, enabled: true, launch_on_startup: false };
    assert_eq!(
        config.to_document(),
        ConfigDocument { opacity: Some(90), enabled: Some(true), launch_on_startup: Some(false) }
    );
    let config = OverlayConfig { opacity: 250, enabled: false, launch_on_startup: true };
    assert_eq!(
        config.to_document(),
        ConfigDocument { opacity: Some(200), enabled: Some(false), launch_on_startup: Some(true) }
    );
    let mut opacity: u8 = 0;
    loop {
        let config = OverlayConfig { opacity, enabled: false, launch_on_startup: false };
        let stored: i64 = config.to_document().opacity.unwrap();
        assert!((90..=200).contains(&stored));
        assert_eq!(stored, i64::from(clamp_opacity(opacity)));
        if opacity == u8::MAX {
            break;
        }
        opacity += 1;
    }
}

#[test]
fn normalised_clamps_the_opacity_and_keeps_the_flags() {
    assert_eq!(
        OverlayConfig { opacity: 50, enabled: true, launch_on_startup: false }.normalised(),
        OverlayConfig { opacity: 90, enabled: true, launch_on_startup: false }
    );
    assert_eq!(
        OverlayConfig { opacity: 250, enabled: false, launch_on_startup: true }.normalised(),
        OverlayConfig { opacity: 200, enabled: false, launch_on_startup: true }
    );
    let valid = OverlayConfig { opacity: 111, enabled: true, launch_on_startup: true };
    assert_eq!(valid.normalised(), valid);
}

#[test]
fn store_then_load_round_trips_every_valid_configuration() {
    let mut opacity: u8 = 90;
    while opacity <= 200 {
        for enabled in [false, true] {
            for launch_on_startup in [false, true] {
                let config = OverlayConfig { opacity, enabled, launch_on_startup };
                assert_eq!(load_config(Some(config.to_document())), config);
                assert_eq!(OverlayConfig::from_document(&config.to_document()), config);
            }
        }
        opacity += 1;
    }
}

#[test]
fn store_then_load_clamps_an_invalid_configuration() {
    let config = OverlayConfig { opacity: 20, enabled: true, launch_on_startup: true };
    assert_eq!(
        load_config(Some(config.to_document())),
        OverlayConfig { opacity: 90, enabled: true, launch_on_startup: true }
    );
    let config = OverlayConfig { opacity: 250, enabled: false, launch_on_startup: false };
    assert_eq!(
        load_config(Some(config.to_document())),
        OverlayConfig { opacity: 200, enabled: false, launch_on_startup: false }
    );
}
