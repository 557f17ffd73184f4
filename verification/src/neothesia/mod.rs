//! The playing scene of the application: staff notation, rewinding, play
//! along scoring, toasts and the top bar's state.
pub mod clock;
pub mod sheet_music;
pub mod icons;
pub mod rewind_controller;
pub mod midi_player;
pub mod keyboard_events;
pub mod toast_manager;
pub mod song;
pub mod get_version;
pub mod top_bar;
pub mod settings_input;
