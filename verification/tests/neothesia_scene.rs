use neothesia::neothesia::get_version::{parse_latest_tag, VersionCheck};
use neothesia::neothesia::icons;
use neothesia::neothesia::keyboard_events::{
    file_midi_events, user_midi_event, FileNoteEvent, KeyState, KeyboardKeys, MidiEvent,
};
use neothesia::neothesia::midi_player::{
    rewind_time, route_event, EventRoute, MidiEventSource, NoteMessage, PlayAlong, PlayerConfig,
    PlayerStats, MAX_DURATION_NANOS,
};
use neothesia::neothesia::rewind_controller::{PlayerAction, RewindController};
use neothesia::neothesia::song::{shows_on_score, ChannelMode, SongConfig, TrackSummary};
use neothesia::neothesia::toast_manager::{Toast, ToastManager};
use neothesia::piano_layout::range::KeyBound;
use neothesia::piano_layout::KeyboardRange;

const MS: u64 = 1_000_000;

#[test]
fn icons_are_single_glyphs() {
    assert_eq!(icons::cone_icon(), "\u{F2D2}");
    assert_eq!(icons::gear_icon(), "\u{F3E5}");
    assert_eq!(icons::gear_fill_icon(), "\u{F3E2}");
    assert_eq!(icons::repeat_icon(), "\u{f130}");
    assert_eq!(icons::play_icon(), "\u{f4f4}");
    assert_eq!(icons::pause_icon(), "\u{f4c3}");
    assert_eq!(icons::left_arrow_icon(), "\u{f12f}");
    assert_eq!(icons::right_arrow_icon(), "\u{f138}");
    assert_eq!(icons::minus_icon(), "\u{F2EA}");
    assert_eq!(icons::plus_icon(), "\u{F4FE}");
}

#[test]
fn rewind_round_trip_restores_playback() {
    let mut c = RewindController::new();
    assert!(!c.is_rewinding());
    assert_eq!(c.start_mouse_rewind(false), PlayerAction::Pause);
    assert!(c.is_mouse_rewinding() && c.is_rewinding() && !c.is_keyboard_rewinding());
    assert_eq!(c.stop_rewind(), PlayerAction::Resume);
    assert_eq!(c, RewindController::Idle);

    assert_eq!(c.start_keyboard_rewind(true, 100), PlayerAction::Pause);
    assert!(c.is_keyboard_rewinding());
    assert_eq!(c.stop_rewind(), PlayerAction::Nothing);
    assert_eq!(c.stop_rewind(), PlayerAction::Nothing);
}

#[test]
fn arrow_keys_drive_keyboard_rewind() {
    let mut c = RewindController::new();
    assert_eq!(c.handle_arrow_keys(true, false, false, false), PlayerAction::Pause);
    assert_eq!(c, RewindController::Keyboard { speed: -100, was_paused: false });
    assert_eq!(c.handle_arrow_keys(false, true, false, false), PlayerAction::Nothing);
    assert_eq!(c.rewind_speed(true, false), Some(-200));
    assert_eq!(c.rewind_speed(false, true), Some(-50));
    assert_eq!(c.rewind_speed(false, false), Some(-100));
    assert_eq!(c.handle_arrow_keys(false, false, true, false), PlayerAction::Resume);
    assert_eq!(c.rewind_speed(false, false), None);
    assert_eq!(c.handle_arrow_keys(false, true, false, true), PlayerAction::Pause);
    assert_eq!(c, RewindController::Keyboard { speed: 100, was_paused: true });
    assert_eq!(RewindController::Keyboard { speed: -101, was_paused: true }.rewind_speed(false, true), Some(-50));
}

#[test]
fn large_rewind_speeds_without_shift() {
    let c = RewindController::Keyboard { speed: i64::MAX, was_paused: false };
    assert_eq!(c.rewind_speed(false, false), Some(i64::MAX));
    assert_eq!(c.rewind_speed(false, true), Some(i64::MAX / 2));
    let d = RewindController::Keyboard { speed: i64::MIN, was_paused: false };
    assert_eq!(d.rewind_speed(false, true), Some(i64::MIN / 2));
}

#[test]
fn rewind_time_saturates() {
    assert_eq!(rewind_time(5_000 * 1_000_000, -2_000), 3_000 * 1_000_000);
    assert_eq!(rewind_time(1_000_000, -2_000), 0);
    assert_eq!(rewind_time(0, 250), 250_000_000);
    assert_eq!(rewind_time(MAX_DURATION_NANOS - 1, 1), MAX_DURATION_NANOS);
}

#[test]
fn events_are_routed_by_track_player() {
    assert_eq!(
        route_event(PlayerConfig::Auto, false, 3, 5),
        EventRoute { output_channel: Some(5), to_play_along: false }
    );
    assert_eq!(
        route_event(PlayerConfig::Auto, true, 300, 5),
        EventRoute { output_channel: Some(44), to_play_along: false }
    );
    assert_eq!(
        route_event(PlayerConfig::Human, true, 3, 5),
        EventRoute { output_channel: Some(5), to_play_along: true }
    );
    assert_eq!(
        route_event(PlayerConfig::Mute, false, 3, 5),
        EventRoute { output_channel: None, to_play_along: false }
    );
}

fn play_along() -> PlayAlong {
    PlayAlong::new(KeyboardRange::new(KeyBound::Included(21), KeyBound::Included(108)))
}

#[test]
fn user_press_satisfies_a_waiting_note() {
    let mut p = play_along();
    assert!(p.are_required_keys_pressed());
    p.press_key_at(MidiEventSource::File, 60, true, 100 * MS);
    assert!(!p.are_required_keys_pressed());
    p.press_key_at(MidiEventSource::User, 60, true, 300 * MS);
    assert!(p.are_required_keys_pressed());
    assert_eq!(p.stats().played_late, vec![200 * MS]);
    assert_eq!(p.stats().count_too_late(), 1);
}

#[test]
fn early_press_is_counted_early() {
    let mut p = play_along();
    p.midi_event_at(MidiEventSource::User, &NoteMessage::NoteOn { key: 64 }, 0);
    p.midi_event_at(MidiEventSource::File, &NoteMessage::NoteOn { key: 64 }, 100 * MS);
    assert!(p.are_required_keys_pressed());
    assert_eq!(p.stats().played_early, vec![100 * MS]);
    assert_eq!(p.stats().count_too_early(), 0);
}

#[test]
fn stale_presses_become_wrong_notes() {
    let mut p = play_along();
    p.press_key_at(MidiEventSource::User, 62, true, 0);
    p.press_key_at(MidiEventSource::User, 62, true, 10 * MS);
    assert_eq!(p.stats().wrong_notes, 1);
    p.update_at(400 * MS);
    assert_eq!(p.stats().wrong_notes, 1);
    p.update_at(600 * MS);
    assert_eq!(p.stats().wrong_notes, 2);
    p.press_key_at(MidiEventSource::File, 62, true, 700 * MS);
    assert!(!p.are_required_keys_pressed());
}

#[test]
fn out_of_range_and_overlapping_notes_are_ignored() {
    let mut p = play_along();
    p.press_key_at(MidiEventSource::File, 10, true, 0);
    assert!(p.are_required_keys_pressed());
    p.press_key_at(MidiEventSource::File, 70, true, 0);
    p.press_key_at(MidiEventSource::User, 70, true, 0);
    assert!(p.are_required_keys_pressed());
    p.press_key_at(MidiEventSource::File, 70, true, 5 * MS);
    assert!(p.are_required_keys_pressed());
    p.press_key_at(MidiEventSource::File, 70, false, 6 * MS);
    p.press_key_at(MidiEventSource::File, 70, true, 7 * MS);
    assert!(!p.are_required_keys_pressed());
    p.midi_event_at(MidiEventSource::User, &NoteMessage::Other, 8 * MS);
    assert!(!p.are_required_keys_pressed());
    p.clear();
    assert!(p.are_required_keys_pressed());
    p.update();
    p.midi_event(MidiEventSource::File, &NoteMessage::NoteOff { key: 70 });
}

#[test]
fn stats_thresholds() {
    let deltas = [100 * MS, 200 * MS, 600 * MS];
    assert_eq!(PlayerStats::count_with_threshold(&deltas, 160 * MS), 2);
    assert_eq!(PlayerStats::count_with_threshold(&deltas, 500 * MS), 1);
    assert_eq!(PlayerStats::count_with_threshold(&[], 0), 0);
    let s = PlayerStats::new();
    assert_eq!(s.count_too_early() + s.count_too_late(), 0);
}

fn keys() -> KeyboardKeys {
    KeyboardKeys::new(KeyboardRange::new(KeyBound::Included(60), KeyBound::Excluded(72)))
}

#[test]
fn user_notes_light_their_keys() {
    let mut k = keys();
    assert_eq!(k.key_states.len(), 12);
    user_midi_event(&mut k, &MidiEvent::NoteOn { key: 61 });
    assert!(k.key_states[1].pressed_by_user);
    assert!(k.needs_reupload);
    user_midi_event(&mut k, &MidiEvent::NoteOff { key: 61 });
    assert!(!k.key_states[1].pressed_by_user);
    let mut k2 = keys();
    user_midi_event(&mut k2, &MidiEvent::NoteOn { key: 72 });
    assert!(!k2.needs_reupload);
}

#[test]
fn an_inverted_range_shows_no_keys() {
    let mut k = KeyboardKeys::new(KeyboardRange::new(KeyBound::Included(70), KeyBound::Excluded(60)));
    assert!(k.key_states.is_empty());
    user_midi_event(&mut k, &MidiEvent::NoteOn { key: 65 });
    assert!(k.key_states.is_empty());
    assert!(!k.needs_reupload);
}

#[test]
fn releases_need_no_colours() {
    let mut k = keys();
    let on = FileNoteEvent { key: 64, is_on: true, channel: 0, track_color_id: 5 };
    file_midi_events(&mut k, 1, &[on]);
    assert_eq!(k.key_states[4].pressed_by_file, Some(0));
    let off = FileNoteEvent { is_on: false, ..on };
    let outside_on = FileNoteEvent { key: 20, ..on };
    file_midi_events(&mut k, 0, &[off, outside_on]);
    assert_eq!(k.key_states[4].pressed_by_file, None);
}

#[test]
fn song_notes_light_their_keys_in_track_colour() {
    let mut k = keys();
    let on = FileNoteEvent { key: 64, is_on: true, channel: 0, track_color_id: 5 };
    let drum = FileNoteEvent { key: 65, is_on: true, channel: 9, track_color_id: 0 };
    file_midi_events(&mut k, 3, &[on, drum]);
    assert_eq!(k.key_states[4], KeyState { pressed_by_user: false, pressed_by_file: Some(2) });
    assert_eq!(k.key_states[5].pressed_by_file, None);
    let off = FileNoteEvent { is_on: false, ..on };
    file_midi_events(&mut k, 3, &[off]);
    assert_eq!(k.key_states[4].pressed_by_file, None);
}

#[test]
fn song_config_from_tracks() {
    let tracks = vec![
        TrackSummary { track_id: 0, has_drums: false, has_other_than_drums: true, note_channels: vec![1, 2, 1, 3] },
        TrackSummary { track_id: 1, has_drums: true, has_other_than_drums: false, note_channels: vec![9, 9] },
        TrackSummary { track_id: 2, has_drums: true, has_other_than_drums: true, note_channels: vec![] },
    ];
    let config = SongConfig::new(&tracks);
    assert_eq!(config.tracks.len(), 3);
    assert!(config.tracks[0].visible);
    assert!(!config.tracks[1].visible);
    assert!(config.tracks[2].visible);
    let mut channels: Vec<u8> = config.tracks[0].channels.iter().map(|c| c.channel).collect();
    channels.sort();
    assert_eq!(channels, vec![1, 2, 3]);
    assert!(config.tracks[0].channels.iter().all(|c| c.active && c.mode == ChannelMode::Listen));
    assert_eq!(config.tracks[1].channels.len(), 1);
    assert!(!config.wait_mode);
    assert_eq!(config.hidden_tracks(), vec![1]);
    assert!(shows_on_score(0, &[1], false, true));
    assert!(!shows_on_score(1, &[1], false, true));
    assert!(!shows_on_score(2, &[], true, false));
}

#[test]
fn release_tag_parsing() {
    let body = r#"{"url":"x","tag_name": "v0.3.1","name":"y"}"#;
    assert_eq!(parse_latest_tag(body), Some("v0.3.1".to_string()));
    assert_eq!(parse_latest_tag("{}"), None);
    assert_eq!(parse_latest_tag(r#""tag_name":"#), None);
    assert_eq!(parse_latest_tag(r#""tag_name": "v1"#), None);
    assert_eq!(parse_latest_tag(r#""tag_name":"ü1""#), Some("ü1".to_string()));
}

#[test]
fn version_check() {
    let v = VersionCheck::from_release_body(r#"{"tag_name":"v0.3.1"}"#, "0.3.1");
    assert_eq!(v.latest(), Some("v0.3.1"));
    assert!(v.is_latest());
    let v = VersionCheck::from_release_body(r#"{"tag_name":"v0.4.0"}"#, "0.3.1");
    assert!(!v.is_latest());
    let v = VersionCheck::from_release_body("", "0.3.1");
    assert_eq!(v.latest(), None);
    assert!(v.is_latest());
}

#[test]
fn toasts_last_one_second() {
    let mut m = ToastManager::new();
    assert_eq!(m.update_after(0), None);
    m.toast("Speed: 1.1".to_string());
    assert_eq!(m.update_after(0), Some("Speed: 1.1".to_string()));
    assert!(m.toast.is_some());
    assert_eq!(m.update_after(1), None);
    assert!(m.toast.is_none());
    m.toast("x".to_string());
    assert_eq!(m.update(), Some("x".to_string()));
    assert!(Toast::is_alive_after(0));
    assert!(!Toast::is_alive_after(1));
    assert_eq!(Toast::new("t".to_string()).text, "t");
}

#[test]
fn toasts_start_when_raised() {
    let now = std::time::Instant::now();
    let t = Toast::new_at("t".to_string(), now);
    assert_eq!(t.start_time, now);
    let mut m = ToastManager::new();
    m.toast_at("Offset: 0.1".to_string(), now);
    let shown = m.toast.as_ref().unwrap();
    assert_eq!(shown.start_time, now);
    assert_eq!(shown.text, "Offset: 0.1");
}
