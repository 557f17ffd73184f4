//! The state of retained widgets, and how pointer events change it.
use vstd::prelude::*;

verus! {

/// A pointer event as a retained widget sees it: where the cursor moved
/// (only whether it is now inside the widget matters), or the left button
/// going down or up. Other buttons are ignored.
#[derive(Debug, Clone, Copy, PartialEq, Eq, Structural)]
pub enum PointerEvent {
    CursorMoved { inside: bool },
    LeftPress,
    LeftRelease,
    Other,
}

/// What a button asks of its surroundings after an event.
#[derive(Debug, Clone, Copy, PartialEq, Eq, Structural)]
pub struct ButtonReaction {
    pub grab_mouse: bool,
    pub ungrab_mouse: bool,
    /// Its click message is sent.
    pub clicked: bool,
}

/// Whether the pointer is over a button and whether the button is held.
#[derive(Default, Debug, Clone, Copy, PartialEq, Eq, Structural)]
pub struct ButtonState {
    pub is_hovered: bool,
    pub is_pressed: bool,
}

/// How a button's state changes on an event, and what it asks for: a press
/// over the button grabs the mouse and holds the button; the release ungrabs
/// it and is a click when the pointer is still over the button.
pub open spec fn button_step(s: ButtonState, event: PointerEvent) -> (ButtonState, ButtonReaction) {
    let none = ButtonReaction { grab_mouse: false, ungrab_mouse: false, clicked: false };
    match event {
        PointerEvent::CursorMoved { inside } => (ButtonState { is_hovered: inside, ..s }, none),
        PointerEvent::LeftPress => (
            ButtonState { is_pressed: s.is_pressed || s.is_hovered, ..s },
            ButtonReaction { grab_mouse: s.is_hovered, ..none },
        ),
        PointerEvent::LeftRelease => (
            ButtonState { is_pressed: false, ..s },
            ButtonReaction { ungrab_mouse: s.is_pressed, clicked: s.is_hovered && s.is_pressed, ..none },
        ),
        PointerEvent::Other => (s, none),
    }
}

impl ButtonState {
    pub fn update(&mut self, event: PointerEvent) -> (r: ButtonReaction)
        ensures
            (*final(self), r) == button_step(*old(self), event),
    {
        let mut r = ButtonReaction { grab_mouse: false, ungrab_mouse: false, clicked: false };
        match event {
            PointerEvent::CursorMoved { inside } => {
                self.is_hovered = inside;
            },
            PointerEvent::LeftPress => {
                if self.is_hovered {
                    r.grab_mouse = true;
                    self.is_pressed = true;
                }
            },
            PointerEvent::LeftRelease => {
                if self.is_pressed {
                    r.ungrab_mouse = true;
                }
                if self.is_hovered && self.is_pressed {
                    r.clicked = true;
                }
                self.is_pressed = false;
            },
            PointerEvent::Other => {},
        }
        r
    }
}

/// A press over a button followed by a release over it is a click, and the
/// grab taken by the press is given back by the release.
pub proof fn law_press_then_release_over_button_clicks(s: ButtonState)
    requires
        s.is_hovered,
    ensures
        button_step(s, PointerEvent::LeftPress).1.grab_mouse,
        button_step(button_step(s, PointerEvent::LeftPress).0, PointerEvent::LeftRelease).1.clicked,
        button_step(button_step(s, PointerEvent::LeftPress).0, PointerEvent::LeftRelease).1.ungrab_mouse,
{
}

/// A release never clicks a button that was not held, and after any release
/// the button is no longer held.
pub proof fn law_release_without_press_does_not_click(s: ButtonState)
    ensures
        !s.is_pressed ==> !button_step(s, PointerEvent::LeftRelease).1.clicked,
        !button_step(s, PointerEvent::LeftRelease).0.is_pressed,
{
}

/// The states of the two buttons of a speed pill.
#[derive(Default, Debug, Clone, Copy, PartialEq, Eq, Structural)]
pub struct SpeedPillState {
    pub minus: ButtonState,
    pub plus: ButtonState,
}

/// A widget that draws nothing and takes no room of its own.
#[derive(Default, Debug, Clone, Copy, PartialEq, Eq, Structural)]
pub struct Null;

impl Null {
    pub fn new() -> (n: Self)
        ensures
            n == Null,
    {
        Null
    }
}

/// A widget drawn by a function of the caller.
pub struct Canvas<F> {
    pub draw: F,
}

impl<F> Canvas<F> {
    pub fn new(draw: F) -> (c: Self)
        ensures
            c.draw == draw,
    {
        Canvas { draw }
    }
}

} // verus!
