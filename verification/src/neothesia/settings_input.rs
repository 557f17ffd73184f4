//! The keyboard shortcuts that adjust playback settings while a song plays:
//! the arrow keys change the speed, the page keys the falling notes' speed,
//! and minus and plus the notes' offset. Shift makes each step coarser.
use vstd::prelude::*;

verus! {

/// A released key, as far as the settings shortcuts tell keys apart.
#[derive(Debug, Clone, Copy, PartialEq, Eq, Structural)]
pub enum SettingsKey {
    ArrowUp,
    ArrowDown,
    PageUp,
    PageDown,
    Minus,
    Underscore,
    Plus,
    Equals,
    Other,
}

/// A playback setting that a shortcut adjusts.
#[derive(Debug, Clone, Copy, PartialEq, Eq, Structural)]
pub enum Setting {
    SpeedMultiplier,
    AnimationSpeed,
    AnimationOffset,
}

/// A change of one setting by a signed amount, in hundredths of the
/// setting's unit.
#[derive(Debug, Clone, Copy, PartialEq, Eq, Structural)]
pub struct SettingsChange {
    pub setting: Setting,
    pub delta_hundredths: i32,
}

/// The step of each setting, in hundredths: the speed by 0.1 (0.5 with
/// shift), the falling speed by 100 (500), the offset by 0.01 (0.1).
pub open spec fn step_hundredths(setting: Setting, shift: bool) -> int {
    match setting {
        Setting::SpeedMultiplier => if shift { 50 } else { 10 },
        Setting::AnimationSpeed => if shift { 50000 } else { 10000 },
        Setting::AnimationOffset => if shift { 10 } else { 1 },
    }
}

/// The setting a key adjusts and whether it raises it.
pub open spec fn key_binding(key: SettingsKey) -> Option<(Setting, bool)> {
    match key {
        SettingsKey::ArrowUp => Some((Setting::SpeedMultiplier, true)),
        SettingsKey::ArrowDown => Some((Setting::SpeedMultiplier, false)),
        SettingsKey::PageUp => Some((Setting::AnimationSpeed, true)),
        SettingsKey::PageDown => Some((Setting::AnimationSpeed, false)),
        SettingsKey::Minus | SettingsKey::Underscore => Some((Setting::AnimationOffset, false)),
        SettingsKey::Plus | SettingsKey::Equals => Some((Setting::AnimationOffset, true)),
        SettingsKey::Other => None,
    }
}

/// What a key event changes: nothing unless the key was released and is
/// bound; otherwise the bound setting, up or down by its step.
pub open spec fn settings_change_of(key: SettingsKey, released: bool, shift: bool) -> Option<
    SettingsChange,
> {
    if !released {
        None
    } else {
        match key_binding(key) {
            None => None,
            Some((setting, up)) => {
                let step = step_hundredths(setting, shift);
                Some(
                    SettingsChange {
                        setting,
                        delta_hundredths: (if up { step } else { -step }) as i32,
                    },
                )
            },
        }
    }
}

/// The change of a playback setting that a key event asks for.
pub fn settings_change(key: SettingsKey, released: bool, shift: bool) -> (r: Option<
    SettingsChange,
>)
    ensures
        r == settings_change_of(key, released, shift),
{
    if !released {
        return None;
    }
    let (setting, up) = match key {
        SettingsKey::ArrowUp => (Setting::SpeedMultiplier, true),
        SettingsKey::ArrowDown => (Setting::SpeedMultiplier, false),
        SettingsKey::PageUp => (Setting::AnimationSpeed, true),
        SettingsKey::PageDown => (Setting::AnimationSpeed, false),
        SettingsKey::Minus | SettingsKey::Underscore => (Setting::AnimationOffset, false),
        SettingsKey::Plus | SettingsKey::Equals => (Setting::AnimationOffset, true),
        SettingsKey::Other => {
            return None;
        },
    };
    let step: i32 = match setting {
        Setting::SpeedMultiplier => if shift { 50 } else { 10 },
        Setting::AnimationSpeed => if shift { 50000 } else { 10000 },
        Setting::AnimationOffset => if shift { 10 } else { 1 },
    };
    Some(SettingsChange { setting, delta_hundredths: if up { step } else { -step } })
}

/// Each shortcut has a partner that undoes it: up and down, page up and
/// page down, plus and minus change the same setting by opposite amounts.
pub proof fn law_shortcuts_come_in_opposite_pairs(shift: bool)
    ensures
        settings_change_of(SettingsKey::ArrowUp, true, shift)->0.delta_hundredths
            == -settings_change_of(SettingsKey::ArrowDown, true, shift)->0.delta_hundredths,
        settings_change_of(SettingsKey::PageUp, true, shift)->0.delta_hundredths
            == -settings_change_of(SettingsKey::PageDown, true, shift)->0.delta_hundredths,
        settings_change_of(SettingsKey::Plus, true, shift)->0.delta_hundredths
            == -settings_change_of(SettingsKey::Minus, true, shift)->0.delta_hundredths,
        settings_change_of(SettingsKey::Equals, true, shift) == settings_change_of(
            SettingsKey::Plus,
            true,
            shift,
        ),
        settings_change_of(SettingsKey::Underscore, true, shift) == settings_change_of(
            SettingsKey::Minus,
            true,
            shift,
        ),
{
}

} // verus!
