//! The second immediate-mode UI of the toolkit: a flat list of quads, icons
//! and texts per frame, with a simpler click-area rule.
use std::hash::DefaultHasher;
use std::hash::Hasher;
use vstd::prelude::*;
use vstd::string::StringSliceAdditionalSpecFns;
use crate::nuon::{finish_of, str_hash_writes};

verus! {

/// Where text or an icon sits in its box.
#[derive(Debug, Clone, Copy, Eq, PartialEq, Structural)]
pub enum TextJustify {
    Left,
    Right,
    Center,
}

/// The identity of an interactive element: a hash of the string that names
/// it.
#[derive(Debug, Clone, Copy, Eq, PartialEq, Structural)]
pub struct Id(pub u64);

impl Id {
    /// The identity named by a string: its hash with the std default hasher.
    pub fn hash(v: &str) -> (id: Self)
        ensures
            id.0 == finish_of(str_hash_writes(v.spec_bytes())),
    {
        let mut hasher = DefaultHasher::new();
        hasher.write(v.as_bytes());
        let end: [u8; 1] = [0xffu8];
        hasher.write(end.as_slice());
        proof {
            assert(end@ =~= seq![0xffu8]);
            assert(hasher@ =~= str_hash_writes(v.spec_bytes()));
        }
        Id(hasher.finish())
    }
}

/// What a click area reports for a frame.
#[derive(Debug, Clone, Copy, Eq, PartialEq, Structural)]
pub enum ClickAreaEvent {
    Idle { hovered: bool },
    PressStart,
    PressEnd { clicked: bool },
}

impl ClickAreaEvent {
    pub fn is_clicked(&self) -> (b: bool)
        ensures
            b == (*self == ClickAreaEvent::PressEnd { clicked: true }),
    {
        *self == ClickAreaEvent::PressEnd { clicked: true }
    }
}

/// The pointer bookkeeping of a frame.
#[derive(Debug, Clone, Copy, PartialEq, Eq, Structural)]
pub struct PointerState {
    pub hovered: Option<Id>,
    pub active: Option<Id>,
    /// The button went down during this frame.
    pub mouse_pressed: bool,
    /// The button is held.
    pub mouse_down: bool,
}

/// What checking a click area does: unlike the first toolkit, a new press
/// over the area takes the press even from another element.
pub open spec fn click_area_step(s: PointerState, id: Id, mouseover: bool) -> (PointerState, ClickAreaEvent) {
    let hovered = if mouseover {
        Some(id)
    } else if s.hovered == Some(id) {
        None
    } else {
        s.hovered
    };
    if s.mouse_pressed && mouseover {
        (PointerState { hovered, active: Some(id), ..s }, ClickAreaEvent::PressStart)
    } else if !s.mouse_down && s.active == Some(id) {
        (PointerState { hovered, active: None, ..s }, ClickAreaEvent::PressEnd { clicked: mouseover })
    } else {
        (PointerState { hovered, ..s }, ClickAreaEvent::Idle { hovered: mouseover })
    }
}

impl PointerState {
    pub fn new() -> (s: Self)
        ensures
            s == (PointerState { hovered: None, active: None, mouse_pressed: false, mouse_down: false }),
    {
        PointerState { hovered: None, active: None, mouse_pressed: false, mouse_down: false }
    }

    pub fn mouse_down(&mut self)
        ensures
            *final(self) == (PointerState { mouse_pressed: true, mouse_down: true, ..*old(self) }),
    {
        self.mouse_pressed = true;
        self.mouse_down = true;
    }

    pub fn mouse_up(&mut self)
        ensures
            *final(self) == (PointerState { mouse_pressed: false, mouse_down: false, ..*old(self) }),
    {
        self.mouse_pressed = false;
        self.mouse_down = false;
    }

    pub fn done(&mut self)
        ensures
            *final(self) == (PointerState { mouse_pressed: false, ..*old(self) }),
    {
        self.mouse_pressed = false;
    }

    /// Checks the click area `id` against the pointer.
    pub fn check_click_area(&mut self, id: Id, mouseover: bool) -> (e: ClickAreaEvent)
        ensures
            (*final(self), e) == click_area_step(*old(self), id, mouseover),
    {
        if mouseover {
            self.hovered = Some(id);
        } else if self.hovered == Some(id) {
            self.hovered = None;
        }

        if self.mouse_pressed && mouseover {
            self.active = Some(id);
            return ClickAreaEvent::PressStart;
        }

        if !self.mouse_down && self.active == Some(id) {
            self.active = None;
            ClickAreaEvent::PressEnd { clicked: mouseover }
        } else {
            ClickAreaEvent::Idle { hovered: mouseover }
        }
    }
}

/// A click needs a press on the area followed by the button going up over
/// it: a press start never reports a click, and a click clears the press.
pub proof fn law_click_needs_held_press(s: PointerState, id: Id, mouseover: bool)
    ensures
        click_area_step(s, id, mouseover).1 == (ClickAreaEvent::PressEnd { clicked: true }) <==> (
        !(s.mouse_pressed && mouseover) && !s.mouse_down && s.active == Some(id) && mouseover),
        click_area_step(s, id, mouseover).1 is PressEnd ==> click_area_step(s, id, mouseover).0.active
            is None,
{
}

/// The identity of a button: the hash of its id when it has one, else of its
/// icon.
pub fn button_id(id: Option<&str>, icon: &str) -> (r: Id)
    ensures
        r == (match id {
            Some(s) => Id(finish_of(str_hash_writes(s.spec_bytes()))),
            None => Id(finish_of(str_hash_writes(icon.spec_bytes()))),
        }),
{
    match id {
        Some(s) => Id::hash(s),
        None => Id::hash(icon),
    }
}


/// Once the button is up, the element holding the press loses it at its
/// next check, whether or not the pointer is over it; the release is a click
/// exactly when it is, and coming back over the element later, with the
/// button still up, is no click.
pub proof fn law_release_ends_the_press_anywhere(s: PointerState, id: Id, mouseover: bool)
    requires
        !s.mouse_pressed,
        !s.mouse_down,
        s.active == Some(id),
    ensures
        click_area_step(s, id, mouseover).1 == (ClickAreaEvent::PressEnd { clicked: mouseover }),
        click_area_step(s, id, mouseover).0.active is None,
        click_area_step(click_area_step(s, id, mouseover).0, id, true).1 == (ClickAreaEvent::Idle {
            hovered: true,
        }),
{
}

} // verus!
