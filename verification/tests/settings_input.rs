use neothesia::neothesia::settings_input::{settings_change, Setting, SettingsChange, SettingsKey};

#[test]
fn arrow_keys_change_the_speed_by_a_tenth() {
    assert_eq!(
        settings_change(SettingsKey::ArrowUp, true, false),
        Some(SettingsChange { setting: Setting::SpeedMultiplier, delta_hundredths: 10 })
    );
    assert_eq!(
        settings_change(SettingsKey::ArrowDown, true, true),
        Some(SettingsChange { setting: Setting::SpeedMultiplier, delta_hundredths: -50 })
    );
}

#[test]
fn page_keys_change_the_falling_speed() {
    assert_eq!(
        settings_change(SettingsKey::PageUp, true, false),
        Some(SettingsChange { setting: Setting::AnimationSpeed, delta_hundredths: 10000 })
    );
    assert_eq!(
        settings_change(SettingsKey::PageDown, true, true),
        Some(SettingsChange { setting: Setting::AnimationSpeed, delta_hundredths: -50000 })
    );
}

#[test]
fn minus_and_plus_change_the_offset() {
    assert_eq!(
        settings_change(SettingsKey::Minus, true, false),
        Some(SettingsChange { setting: Setting::AnimationOffset, delta_hundredths: -1 })
    );
    assert_eq!(
        settings_change(SettingsKey::Underscore, true, true),
        Some(SettingsChange { setting: Setting::AnimationOffset, delta_hundredths: -10 })
    );
    assert_eq!(
        settings_change(SettingsKey::Plus, true, false),
        Some(SettingsChange { setting: Setting::AnimationOffset, delta_hundredths: 1 })
    );
    assert_eq!(
        settings_change(SettingsKey::Equals, true, true),
        Some(SettingsChange { setting: Setting::AnimationOffset, delta_hundredths: 10 })
    );
}

#[test]
fn pressed_or_unbound_keys_change_nothing() {
    assert_eq!(settings_change(SettingsKey::ArrowUp, false, false), None);
    assert_eq!(settings_change(SettingsKey::Other, true, true), None);
}

#[test]
fn opposite_shortcuts_cancel() {
    for shift in [false, true] {
        let pairs = [
            (SettingsKey::ArrowUp, SettingsKey::ArrowDown),
            (SettingsKey::PageUp, SettingsKey::PageDown),
            (SettingsKey::Plus, SettingsKey::Minus),
        ];
        for (up, down) in pairs {
            let a = settings_change(up, true, shift).unwrap();
            let b = settings_change(down, true, shift).unwrap();
            assert_eq!(a.setting, b.setting);
            assert_eq!(a.delta_hundredths, -b.delta_hundredths);
        }
    }
}
