use tedium::debug::{
    update_debug_config_system, DebugConfig, DebugConfigKey, DebugConfigValue,
    UpdateDebugConfigEvent,
};

fn config() -> DebugConfig {
    DebugConfig {
        light_height: DebugConfigValue { min: 1, max: 20, value: 2 },
        light_intensity: DebugConfigValue { min: 0, max: 9, value: 8 },
    }
}

fn events(keys: &[DebugConfigKey]) -> Vec<UpdateDebugConfigEvent> {
    keys.iter().map(|k| UpdateDebugConfigEvent { config_key: *k }).collect()
}

#[test]
fn each_key_moves_its_setting_one_step() {
    let mut c = config();
    update_debug_config_system(&events(&[DebugConfigKey::LightHeightIncrease]), &mut c);
    assert_eq!(c.light_height.value, 3);
    assert_eq!(c.light_intensity.value, 8);
    update_debug_config_system(&events(&[DebugConfigKey::LightIntensityDecrease]), &mut c);
    assert_eq!(c.light_intensity.value, 7);
    update_debug_config_system(&events(&[DebugConfigKey::LightHeightDecrease]), &mut c);
    assert_eq!(c.light_height.value, 2);
    update_debug_config_system(&events(&[DebugConfigKey::LightIntensityIncrease]), &mut c);
    assert_eq!(c.light_intensity.value, 8);
}

#[test]
fn settings_stop_at_their_bounds() {
    let mut c = config();
    let ups = events(&[DebugConfigKey::LightIntensityIncrease; 5]);
    update_debug_config_system(&ups, &mut c);
    assert_eq!(c.light_intensity.value, 9);
    let downs = events(&[DebugConfigKey::LightHeightDecrease; 5]);
    update_debug_config_system(&downs, &mut c);
    assert_eq!(c.light_height.value, 1);
    assert_eq!(c.light_height.min, 1);
    assert_eq!(c.light_height.max, 20);
}

#[test]
fn a_value_outside_its_bounds_is_clamped_by_the_first_step() {
    let mut c = config();
    c.light_intensity.value = 30;
    update_debug_config_system(&events(&[DebugConfigKey::LightIntensityIncrease]), &mut c);
    assert_eq!(c.light_intensity.value, 9);
    c.light_height.value = -5;
    update_debug_config_system(&events(&[DebugConfigKey::LightHeightDecrease]), &mut c);
    assert_eq!(c.light_height.value, 1);
}

#[test]
fn up_then_down_cancels_inside_the_bounds() {
    let mut c = config();
    let before = c;
    update_debug_config_system(
        &events(&[DebugConfigKey::LightHeightIncrease, DebugConfigKey::LightHeightDecrease]),
        &mut c,
    );
    assert_eq!(c, before);
}

#[test]
fn no_events_change_nothing() {
    let mut c = config();
    update_debug_config_system(&Vec::new(), &mut c);
    assert_eq!(c, config());
}
