use rosthem::DeviceInfo;
use rosthem::LightColorPreset;
use rosthem::LightInfo;

fn all_presets() -> Vec<LightColorPreset> {
    vec![
        LightColorPreset::Blue,
        LightColorPreset::LightBlue,
        LightColorPreset::SaturatedPurple,
        LightColorPreset::Lime,
        LightColorPreset::LightPurple,
        LightColorPreset::Yellow,
        LightColorPreset::SaturatedPink,
        LightColorPreset::DarkPeach,
        LightColorPreset::SaturatedRed,
        LightColorPreset::ColdSky,
        LightColorPreset::Pink,
        LightColorPreset::Peach,
        LightColorPreset::WarmAmber,
        LightColorPreset::LightPink,
        LightColorPreset::CoolDaylight,
        LightColorPreset::Candlelight,
        LightColorPreset::WarmGlow,
        LightColorPreset::WarmWhite,
        LightColorPreset::Sunrise,
        LightColorPreset::CoolWhite,
    ]
}

#[test]
fn preset_hex_round_trips_for_every_preset() {
    for p in all_presets() {
        assert_eq!(LightColorPreset::from_hex(p.to_hex()), Some(p));
    }
}

#[test]
fn preset_hex_strings_are_unique() {
    let presets = all_presets();
    for (i, a) in presets.iter().enumerate() {
        for (j, b) in presets.iter().enumerate() {
            if i != j {
                assert_ne!(a.to_hex(), b.to_hex());
            }
        }
    }
}

#[test]
fn unknown_hex_decodes_to_no_preset() {
    assert_eq!(LightColorPreset::from_hex("ffffff"), None);
    assert_eq!(LightColorPreset::from_hex(""), None);
    assert_eq!(LightColorPreset::from_hex("4A418A"), None);
    assert_eq!(LightColorPreset::from_hex("d6e44b "), None);
}

#[test]
fn yellow_preset_hex() {
    assert_eq!(LightColorPreset::Yellow.to_hex(), "d6e44b");
}

#[test]
fn brightness_zero_is_stored_as_one() {
    assert_eq!(LightInfo::new().brightness(0).get_brightness(), Some(1));
}

#[test]
fn brightness_255_is_stored_as_255() {
    assert_eq!(LightInfo::new().brightness(255).get_brightness(), Some(255));
}

#[test]
fn brightness_in_range_is_kept() {
    assert_eq!(LightInfo::new().brightness(1).get_brightness(), Some(1));
    assert_eq!(LightInfo::new().brightness(128).get_brightness(), Some(128));
    assert_eq!(LightInfo::new().get_brightness(), None);
}

#[test]
fn on_off_flag() {
    assert_eq!(LightInfo::new().on(true).get_on(), Some(true));
    assert_eq!(LightInfo::new().on(false).get_on(), Some(false));
    assert_eq!(LightInfo::new().get_on(), None);
}

#[test]
fn setting_preset_clears_explicit_xy() {
    let li = LightInfo::new().color_xy(100, 200).color_preset(LightColorPreset::Yellow);
    assert_eq!(li.get_color_xy(), None);
    assert_eq!(li.get_color_preset(), Some(LightColorPreset::Yellow));
}

#[test]
fn setting_explicit_xy_clears_preset() {
    let li = LightInfo::new().color_preset(LightColorPreset::Yellow).color_xy(100, 200);
    assert_eq!(li.get_color_preset(), None);
    assert_eq!(li.get_color_xy(), Some((100, 200)));
}

#[test]
fn empty_update_encodes_to_empty_entry() {
    assert_eq!(LightInfo::new().to_json(), "{\"3311\":[{}]}");
}

#[test]
fn full_light_command_encoding() {
    let li = LightInfo::new().on(true).brightness(254).color_preset(LightColorPreset::Yellow);
    assert_eq!(li.to_json(), "{\"3311\":[{\"5850\":1,\"5851\":254,\"5706\":\"d6e44b\"}]}");
}

#[test]
fn off_command_encoding() {
    assert_eq!(LightInfo::new().on(false).to_json(), "{\"3311\":[{\"5850\":0}]}");
}

#[test]
fn explicit_xy_encoding_uses_both_keys() {
    let li = LightInfo::new().color_xy(41942, 21626);
    assert_eq!(li.to_json(), "{\"3311\":[{\"5709\":41942,\"5710\":21626}]}");
}

#[test]
fn preset_encoding_omits_xy_keys() {
    let li = LightInfo::new().color_xy(1, 2).color_preset(LightColorPreset::Blue);
    let json = li.to_json();
    assert_eq!(json, "{\"3311\":[{\"5706\":\"4a418a\"}]}");
    assert!(!json.contains("5709"));
    assert!(!json.contains("5710"));
}

#[test]
fn device_info_with_light_info_keeps_other_fields() {
    let mut device = DeviceInfo::new();
    device.label = Some("bulb".to_string());
    device.id = Some(65539);
    let device = device.with_light_info(LightInfo::new().on(true));
    assert_eq!(device.label.as_ref().unwrap().as_str(), "bulb");
    assert_eq!(device.id, Some(65539));
    assert!(device.product_info.is_none());
    assert_eq!(device.light_info.unwrap().get_on(), Some(true));
}

#[test]
fn default_device_info_is_empty() {
    let device = DeviceInfo::default();
    assert!(device.label.is_none());
    assert!(device.id.is_none());
    assert!(device.product_info.is_none());
    assert!(device.light_info.is_none());
}
