//! The progress bar of the first top bar: pressing it seeks and rewinds.
use vstd::prelude::*;
use crate::neothesia::rewind_controller::{PlayerAction, RewindController, stop_action};

verus! {

#[derive(Debug, Clone, Copy, PartialEq, Eq, Structural)]
pub enum ProgressBarMsg {
    Pressed,
    Released,
}

/// What the scene must do after a progress bar message: drive the player,
/// and whether to seek to the pointer and reset the keyboard's notes.
#[derive(Debug, Clone, Copy, PartialEq, Eq, Structural)]
pub struct ProgressBarEffect {
    pub player: PlayerAction,
    pub seek_to_pointer: bool,
}

/// A press on the bar starts a mouse rewind, unless a rewind runs, and seeks
/// to the pointer; the release stops a mouse rewind.
pub fn on_progress_bar_msg(rewind: &mut RewindController, msg: ProgressBarMsg, player_paused: bool) -> (e: ProgressBarEffect)
    ensures
        match msg {
            ProgressBarMsg::Pressed => if *old(rewind) is Idle {
                *final(rewind) == (RewindController::Mouse { was_paused: player_paused }) && e == (
                ProgressBarEffect { player: PlayerAction::Pause, seek_to_pointer: true })
            } else {
                *final(rewind) == *old(rewind) && e == (ProgressBarEffect {
                    player: PlayerAction::Nothing,
                    seek_to_pointer: false,
                })
            },
            ProgressBarMsg::Released => if *old(rewind) is Mouse {
                *final(rewind) == RewindController::Idle && e == (ProgressBarEffect {
                    player: stop_action(*old(rewind)),
                    seek_to_pointer: false,
                })
            } else {
                *final(rewind) == *old(rewind) && e == (ProgressBarEffect {
                    player: PlayerAction::Nothing,
                    seek_to_pointer: false,
                })
            },
        },
{
    match msg {
        ProgressBarMsg::Pressed => {
            if !rewind.is_rewinding() {
                let action = rewind.start_mouse_rewind(player_paused);
                ProgressBarEffect { player: action, seek_to_pointer: true }
            } else {
                ProgressBarEffect { player: PlayerAction::Nothing, seek_to_pointer: false }
            }
        },
        ProgressBarMsg::Released => {
            if rewind.is_mouse_rewinding() {
                let action = rewind.stop_rewind();
                ProgressBarEffect { player: action, seek_to_pointer: false }
            } else {
                ProgressBarEffect { player: PlayerAction::Nothing, seek_to_pointer: false }
            }
        },
    }
}

/// Pressing and releasing the bar leaves playback paused or playing as it
/// was.
pub proof fn law_press_release_restores_playback(paused: bool)
    ensures
        stop_action(RewindController::Mouse { was_paused: paused }) == (if paused {
            PlayerAction::Nothing
        } else {
            PlayerAction::Resume
        }),
{
}

} // verus!
