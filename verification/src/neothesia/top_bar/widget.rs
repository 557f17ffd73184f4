//! The state of the retained top bar's widgets, and how pointer events
//! change it.
use vstd::prelude::*;
use crate::nuon::widget::PointerEvent;

verus! {

/// Whether the pointer is over a loop tick and whether the tick is held.
#[derive(Default, Debug, Clone, Copy, PartialEq, Eq, Structural)]
pub struct TickState {
    pub is_hovered: bool,
    pub is_pressed: bool,
}

/// The states of the loop's start and end ticks.
#[derive(Default, Debug, Clone, Copy, PartialEq, Eq, Structural)]
pub struct LooperState {
    pub start: TickState,
    pub end: TickState,
}

/// Whether the pointer is over the progress bar and whether it is held.
#[derive(Default, Debug, Clone, Copy, PartialEq, Eq, Structural)]
pub struct ProgressBarState {
    pub is_hovered: bool,
    pub is_pressed: bool,
}

/// What the progress bar asks for after an event.
#[derive(Debug, Clone, Copy, PartialEq, Eq, Structural)]
pub struct ProgressBarReaction {
    pub grab_mouse: bool,
    pub ungrab_mouse: bool,
    /// Its press message is sent.
    pub pressed: bool,
    /// Its release message is sent.
    pub released: bool,
}

/// How the progress bar reacts: a press over it grabs the mouse and sends
/// the press message; the release of a held bar ungrabs and sends the
/// release message.
pub open spec fn progress_bar_step(s: ProgressBarState, e: PointerEvent) -> (ProgressBarState, ProgressBarReaction) {
    let none = ProgressBarReaction { grab_mouse: false, ungrab_mouse: false, pressed: false, released: false };
    match e {
        PointerEvent::CursorMoved { inside } => (ProgressBarState { is_hovered: inside, ..s }, none),
        PointerEvent::LeftPress => (
            ProgressBarState { is_pressed: s.is_pressed || s.is_hovered, ..s },
            ProgressBarReaction { grab_mouse: s.is_hovered, pressed: s.is_hovered, ..none },
        ),
        PointerEvent::LeftRelease => (
            ProgressBarState { is_pressed: false, ..s },
            ProgressBarReaction { ungrab_mouse: s.is_pressed, released: s.is_pressed, ..none },
        ),
        PointerEvent::Other => (s, none),
    }
}

impl ProgressBarState {
    pub fn update(&mut self, e: PointerEvent) -> (r: ProgressBarReaction)
        ensures
            (*final(self), r) == progress_bar_step(*old(self), e),
    {
        let mut r = ProgressBarReaction { grab_mouse: false, ungrab_mouse: false, pressed: false, released: false };
        match e {
            PointerEvent::CursorMoved { inside } => {
                self.is_hovered = inside;
            },
            PointerEvent::LeftPress => {
                if self.is_hovered {
                    self.is_pressed = true;
                    r.grab_mouse = true;
                    r.pressed = true;
                }
            },
            PointerEvent::LeftRelease => {
                if self.is_pressed {
                    r.ungrab_mouse = true;
                    r.released = true;
                }
                self.is_pressed = false;
            },
            PointerEvent::Other => {},
        }
        r
    }
}

/// Every press message of the bar is followed, at the next release, by its
/// release message.
pub proof fn law_progress_bar_press_is_released(s: ProgressBarState)
    requires
        s.is_hovered,
    ensures
        progress_bar_step(s, PointerEvent::LeftPress).1.pressed,
        progress_bar_step(progress_bar_step(s, PointerEvent::LeftPress).0, PointerEvent::LeftRelease).1.released,
{
}

/// A pointer event as the loop ticks see it. A move says whether the
/// pointer is over each tick, whether it is more than 10 units left of the
/// end tick, and more than 10 units right of the start tick.
#[derive(Debug, Clone, Copy, PartialEq, Eq, Structural)]
pub enum LooperEvent {
    CursorMoved { over_start: bool, over_end: bool, left_of_end: bool, right_of_start: bool },
    LeftPress,
    LeftRelease,
    Other,
}

/// What the loop ticks ask for after an event.
#[derive(Debug, Clone, Copy, PartialEq, Eq, Structural)]
pub struct LooperReaction {
    /// The start tick follows the pointer.
    pub move_start: bool,
    /// The end tick follows the pointer.
    pub move_end: bool,
    /// How many ticks grabbed the mouse.
    pub grabs: u8,
    /// How many ticks gave the mouse back.
    pub ungrabs: u8,
    /// The press was taken by a tick.
    pub capture: bool,
}

/// How the loop ticks react: a held tick follows the pointer as long as the
/// ticks stay more than 10 units apart (the start tick first); a press holds
/// each hovered tick; a release lets both go.
pub open spec fn looper_step(s: LooperState, e: LooperEvent) -> (LooperState, LooperReaction) {
    let none = LooperReaction { move_start: false, move_end: false, grabs: 0, ungrabs: 0, capture: false };
    match e {
        LooperEvent::CursorMoved { over_start, over_end, left_of_end, right_of_start } => {
            let s2 = LooperState {
                start: TickState { is_hovered: over_start, ..s.start },
                end: TickState { is_hovered: over_end, ..s.end },
            };
            if s.start.is_pressed && left_of_end {
                (s2, LooperReaction { move_start: true, ..none })
            } else if s.end.is_pressed && right_of_start {
                (s2, LooperReaction { move_end: true, ..none })
            } else {
                (s2, none)
            }
        },
        LooperEvent::LeftPress => (
            LooperState {
                start: TickState { is_pressed: s.start.is_pressed || s.start.is_hovered, ..s.start },
                end: TickState { is_pressed: s.end.is_pressed || s.end.is_hovered, ..s.end },
            },
            LooperReaction {
                grabs: ((if s.start.is_hovered { 1int } else { 0int }) + (if s.end.is_hovered { 1int } else { 0int })) as u8,
                capture: s.start.is_hovered || s.end.is_hovered,
                ..none
            },
        ),
        LooperEvent::LeftRelease => (
            LooperState {
                start: TickState { is_pressed: false, ..s.start },
                end: TickState { is_pressed: false, ..s.end },
            },
            LooperReaction {
                ungrabs: ((if s.start.is_pressed { 1int } else { 0int }) + (if s.end.is_pressed { 1int } else { 0int })) as u8,
                ..none
            },
        ),
        LooperEvent::Other => (s, none),
    }
}

impl LooperState {
    pub fn update(&mut self, e: LooperEvent) -> (r: LooperReaction)
        ensures
            (*final(self), r) == looper_step(*old(self), e),
    {
        let mut r = LooperReaction { move_start: false, move_end: false, grabs: 0, ungrabs: 0, capture: false };
        match e {
            LooperEvent::CursorMoved { over_start, over_end, left_of_end, right_of_start } => {
                let start_pressed = self.start.is_pressed;
                let end_pressed = self.end.is_pressed;
                self.start.is_hovered = over_start;
                self.end.is_hovered = over_end;
                if start_pressed && left_of_end {
                    r.move_start = true;
                    return r;
                }
                if end_pressed && right_of_start {
                    r.move_end = true;
                }
            },
            LooperEvent::LeftPress => {
                if self.start.is_hovered {
                    self.start.is_pressed = true;
                    r.grabs = r.grabs + 1;
                    r.capture = true;
                }
                if self.end.is_hovered {
                    self.end.is_pressed = true;
                    r.grabs = r.grabs + 1;
                    r.capture = true;
                }
            },
            LooperEvent::LeftRelease => {
                if self.start.is_pressed {
                    r.ungrabs = r.ungrabs + 1;
                }
                self.start.is_pressed = false;
                if self.end.is_pressed {
                    r.ungrabs = r.ungrabs + 1;
                }
                self.end.is_pressed = false;
            },
            LooperEvent::Other => {},
        }
        r
    }
}

/// A release lets go of every tick, giving back each grab a press took.
pub proof fn law_release_gives_back_every_grab(s: LooperState)
    requires
        !s.start.is_pressed,
        !s.end.is_pressed,
    ensures
        ({
            let (held, press) = looper_step(s, LooperEvent::LeftPress);
            let (released, release) = looper_step(held, LooperEvent::LeftRelease);
            &&& release.ungrabs == press.grabs
            &&& !released.start.is_pressed && !released.end.is_pressed
        }),
{
}


/// A left press lands on the bar only when the pointer is over it: off the
/// bar it changes nothing and asks for nothing; over the bar it holds the
/// bar, grabs the mouse and sends the press message.
pub proof fn law_press_needs_the_pointer_on_the_bar(s: ProgressBarState)
    ensures
        !s.is_hovered ==> progress_bar_step(s, PointerEvent::LeftPress) == (
            s,
            ProgressBarReaction { grab_mouse: false, ungrab_mouse: false, pressed: false, released: false },
        ),
        s.is_hovered ==> progress_bar_step(s, PointerEvent::LeftPress).0.is_pressed
            && progress_bar_step(s, PointerEvent::LeftPress).1.grab_mouse
            && progress_bar_step(s, PointerEvent::LeftPress).1.pressed,
        progress_bar_step(s, PointerEvent::LeftPress).1.pressed == s.is_hovered,
        progress_bar_step(s, PointerEvent::LeftPress).1.grab_mouse == s.is_hovered,
{
}

} // verus!
