//! Rewinding through a song with the arrow keys or by dragging the progress
//! bar: the controller decides, the caller drives the player.
use vstd::prelude::*;

verus! {

/// Who is rewinding, and whether playback was paused before it started.
#[derive(Debug, Clone, Copy, PartialEq, Eq, Structural)]
pub enum RewindController {
    Keyboard { speed: i64, was_paused: bool },
    Mouse { was_paused: bool },
    Idle,
}

/// What the player must do after a decision of the controller.
#[derive(Debug, Clone, Copy, PartialEq, Eq, Structural)]
pub enum PlayerAction {
    Nothing,
    Pause,
    Resume,
}

/// The keyboard rewind speed of the left arrow.
pub const REWIND_BACKWARD_SPEED: i64 = -100;
/// The keyboard rewind speed of the right arrow.
pub const REWIND_FORWARD_SPEED: i64 = 100;

/// What stopping a rewind asks of the player: to resume when playback was
/// running before the rewind started.
pub open spec fn stop_action(c: RewindController) -> PlayerAction {
    match c {
        RewindController::Keyboard { was_paused, .. } => if was_paused {
            PlayerAction::Nothing
        } else {
            PlayerAction::Resume
        },
        RewindController::Mouse { was_paused } => if was_paused {
            PlayerAction::Nothing
        } else {
            PlayerAction::Resume
        },
        RewindController::Idle => PlayerAction::Nothing,
    }
}

impl RewindController {
    pub fn new() -> (c: Self)
        ensures
            c == RewindController::Idle,
    {
        Self::Idle
    }

    pub fn is_rewinding(&self) -> (b: bool)
        ensures
            b == !(*self is Idle),
    {
        !matches!(self, RewindController::Idle)
    }

    pub fn is_keyboard_rewinding(&self) -> (b: bool)
        ensures
            b == (*self is Keyboard),
    {
        matches!(self, RewindController::Keyboard { .. })
    }

    pub fn is_mouse_rewinding(&self) -> (b: bool)
        ensures
            b == (*self is Mouse),
    {
        matches!(self, RewindController::Mouse { .. })
    }

    /// Starts a rewind by dragging; the player is paused.
    pub fn start_mouse_rewind(&mut self, player_paused: bool) -> (a: PlayerAction)
        ensures
            *final(self) == (RewindController::Mouse { was_paused: player_paused }),
            a == PlayerAction::Pause,
    {
        self.start_rewind(RewindController::Mouse { was_paused: player_paused })
    }

    /// Starts a rewind with an arrow key at the given speed; the player is
    /// paused.
    pub fn start_keyboard_rewind(&mut self, player_paused: bool, speed: i64) -> (a: PlayerAction)
        ensures
            *final(self) == (RewindController::Keyboard { speed, was_paused: player_paused }),
            a == PlayerAction::Pause,
    {
        self.start_rewind(RewindController::Keyboard { speed, was_paused: player_paused })
    }

    fn start_rewind(&mut self, controller: RewindController) -> (a: PlayerAction)
        ensures
            *final(self) == controller,
            a == PlayerAction::Pause,
    {
        *self = controller;
        PlayerAction::Pause
    }

    /// Stops any rewind; playback resumes when it was running before.
    pub fn stop_rewind(&mut self) -> (a: PlayerAction)
        ensures
            *final(self) == RewindController::Idle,
            a == stop_action(*old(self)),
    {
        let controller = *self;
        *self = RewindController::Idle;
        let was_paused = match controller {
            RewindController::Keyboard { was_paused, .. } => Some(was_paused),
            RewindController::Mouse { was_paused } => Some(was_paused),
            RewindController::Idle => None,
        };
        if was_paused == Some(false) {
            PlayerAction::Resume
        } else {
            PlayerAction::Nothing
        }
    }

    /// The speed of a keyboard rewind for this frame: doubled with shift,
    /// halved (rounding toward zero) with control; none when the keyboard is
    /// not rewinding.
    pub fn rewind_speed(&self, shift: bool, control: bool) -> (v: Option<i64>)
        requires
            *self matches RewindController::Keyboard { speed, .. } ==> (shift ==> i64::MIN / 2
                <= speed <= i64::MAX / 2),
        ensures
            v == (match *self {
                RewindController::Keyboard { speed, .. } => Some(
                    if shift {
                        (speed * 2) as i64
                    } else if control {
                        (if speed >= 0 { speed / 2 } else { -((-speed) / 2) }) as i64
                    } else {
                        speed
                    },
                ),
                _ => None,
            }),
    {
        match self {
            RewindController::Keyboard { speed, .. } => {
                let v = if shift {
                    *speed * 2
                } else if control {
                    *speed / 2
                } else {
                    *speed
                };
                Some(v)
            },
            _ => None,
        }
    }

    /// Reacts to the arrow keys: pressing left or right starts a keyboard
    /// rewind backward or forward unless a rewind is running; releasing either
    /// stops a keyboard rewind.
    pub fn handle_arrow_keys(
        &mut self,
        left_pressed: bool,
        right_pressed: bool,
        arrow_released: bool,
        player_paused: bool,
    ) -> (a: PlayerAction)
        ensures
            left_pressed ==> if *old(self) is Idle {
                *final(self) == (RewindController::Keyboard {
                    speed: REWIND_BACKWARD_SPEED,
                    was_paused: player_paused,
                }) && a == PlayerAction::Pause
            } else {
                *final(self) == *old(self) && a == PlayerAction::Nothing
            },
            !left_pressed && right_pressed ==> if *old(self) is Idle {
                *final(self) == (RewindController::Keyboard {
                    speed: REWIND_FORWARD_SPEED,
                    was_paused: player_paused,
                }) && a == PlayerAction::Pause
            } else {
                *final(self) == *old(self) && a == PlayerAction::Nothing
            },
            !left_pressed && !right_pressed ==> if arrow_released && *old(self) is Keyboard {
                *final(self) == RewindController::Idle && a == stop_action(*old(self))
            } else {
                *final(self) == *old(self) && a == PlayerAction::Nothing
            },
    {
        if left_pressed {
            if !self.is_rewinding() {
                return self.start_keyboard_rewind(player_paused, REWIND_BACKWARD_SPEED);
            }
            return PlayerAction::Nothing;
        }
        if right_pressed {
            if !self.is_rewinding() {
                return self.start_keyboard_rewind(player_paused, REWIND_FORWARD_SPEED);
            }
            return PlayerAction::Nothing;
        }
        if self.is_keyboard_rewinding() && arrow_released {
            return self.stop_rewind();
        }
        PlayerAction::Nothing
    }
}

/// A rewind leaves playback as it found it: starting one pauses the player,
/// and stopping it resumes the player exactly when it was playing before.
pub proof fn law_rewind_round_trip_restores_playback(player_paused: bool, speed: i64, mouse: bool)
    ensures
        ({
            let c = if mouse {
                RewindController::Mouse { was_paused: player_paused }
            } else {
                RewindController::Keyboard { speed, was_paused: player_paused }
            };
            stop_action(c) == (if player_paused {
                PlayerAction::Nothing
            } else {
                PlayerAction::Resume
            })
        }),
{
}

/// Stopping when no rewind runs asks nothing of the player.
pub proof fn law_stop_without_rewind_does_nothing()
    ensures
        stop_action(RewindController::Idle) == PlayerAction::Nothing,
{
}

} // verus!
