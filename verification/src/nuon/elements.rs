//! The pointer's hold on the retained elements of a layer, by element id:
//! the element it hovers, the element a press landed on, and the element
//! holding the mouse grab. A press lands on the hovered element; the release
//! that follows is a click only when the pointer is still over that element.
use vstd::prelude::*;

verus! {

/// Which elements the pointer involves; an element is named by its id.
#[derive(Debug, Clone, Copy, PartialEq, Eq, Structural)]
pub struct ElementsPointer {
    pub hovered: Option<u64>,
    pub pressed: Option<u64>,
    pub mouse_grab: Option<u64>,
}

/// The end of a press: the element it landed on, and whether it was a click.
#[derive(Debug, Clone, Copy, PartialEq, Eq, Structural)]
pub struct Release {
    pub element: u64,
    pub clicked: bool,
}

/// A press: it lands on the hovered element, if any; without one nothing
/// changes.
pub open spec fn press_step(p: ElementsPointer) -> ElementsPointer {
    match p.hovered {
        Some(_) => ElementsPointer { pressed: p.hovered, ..p },
        None => p,
    }
}

/// A release: it ends the press, if any, and is a click when the pointer
/// still hovers the pressed element.
pub open spec fn release_step(p: ElementsPointer) -> (ElementsPointer, Option<Release>) {
    match p.pressed {
        Some(e) => (
            ElementsPointer { pressed: None, ..p },
            Some(Release { element: e, clicked: p.hovered == Some(e) }),
        ),
        None => (p, None),
    }
}

impl ElementsPointer {
    /// Nothing hovered, pressed or grabbed.
    pub fn new() -> (p: Self)
        ensures
            p == (ElementsPointer { hovered: None, pressed: None, mouse_grab: None }),
    {
        ElementsPointer { hovered: None, pressed: None, mouse_grab: None }
    }

    /// The pointer now hovers `id`, or nothing.
    pub fn set_hovered(&mut self, id: Option<u64>)
        ensures
            *final(self) == (ElementsPointer { hovered: id, ..*old(self) }),
    {
        self.hovered = id;
    }

    /// The element `id` takes the mouse grab, or the grab is let go.
    pub fn set_mouse_grab(&mut self, id: Option<u64>)
        ensures
            *final(self) == (ElementsPointer { mouse_grab: id, ..*old(self) }),
    {
        self.mouse_grab = id;
    }

    /// The button goes down: the press lands on the hovered element, which is
    /// returned.
    pub fn press(&mut self) -> (pressed: Option<u64>)
        ensures
            pressed == old(self).hovered,
            *final(self) == press_step(*old(self)),
    {
        match self.hovered {
            Some(id) => {
                self.pressed = Some(id);
                Some(id)
            },
            None => None,
        }
    }

    /// The button goes up: the press ends, and is a click when the pointer is
    /// still over the pressed element.
    pub fn release(&mut self) -> (r: Option<Release>)
        ensures
            (*final(self), r) == release_step(*old(self)),
    {
        match self.pressed {
            Some(id) => {
                self.pressed = None;
                let clicked = match self.hovered {
                    Some(h) => h == id,
                    None => false,
                };
                Some(Release { element: id, clicked })
            },
            None => None,
        }
    }
}

/// A press on an element followed by a release with the pointer still over
/// it is a click on that element; a second release then finds no press.
pub proof fn law_press_release_over_element_clicks(p: ElementsPointer, id: u64)
    requires
        p.hovered == Some(id),
    ensures
        release_step(press_step(p)).1 == Some(Release { element: id, clicked: true }),
        release_step(release_step(press_step(p)).0).1 is None,
{
}

/// A press whose pointer left the element before the release is no click,
/// though the release still ends the press on that element.
pub proof fn law_release_elsewhere_is_no_click(p: ElementsPointer, id: u64, elsewhere: Option<u64>)
    requires
        p.hovered == Some(id),
        elsewhere != Some(id),
    ensures
        release_step(ElementsPointer { hovered: elsewhere, ..press_step(p) }).1 == Some(
            Release { element: id, clicked: false },
        ),
{
}

} // verus!
