//! An immediate-mode UI toolkit: element identities, pointer bookkeeping of
//! click areas and buttons, and the state of retained widgets.
pub mod elements;
pub mod hit;
pub mod layers;
pub mod tree;
pub mod v2;
pub mod widget;

use std::hash::DefaultHasher;
use std::hash::Hasher;
use vstd::prelude::*;
use vstd::std_specs::hash::DefaultHasherAdditionalSpecFns;
use vstd::string::StringSliceAdditionalSpecFns;

verus! {

/// Where text or an icon sits in its box.
#[derive(Debug, Clone, Copy, Eq, PartialEq, Structural)]
pub enum TextJustify {
    Left,
    Right,
    Center,
}

/// What the std default hasher gives for the given sequence of writes.
pub open spec fn finish_of(writes: Seq<Seq<u8>>) -> u64 {
    DefaultHasher::spec_finish(writes)
}

/// The writes that hashing a string makes: its bytes, then the byte 0xff.
pub open spec fn str_hash_writes(bytes: Seq<u8>) -> Seq<Seq<u8>> {
    seq![bytes, seq![0xffu8]]
}

/// The byte strings of a list of writes.
pub open spec fn write_seqs(writes: Seq<Vec<u8>>) -> Seq<Seq<u8>> {
    writes.map_values(|w: Vec<u8>| w@)
}

/// The identity of an interactive element: a hash of something that names
/// it.
#[derive(Debug, Clone, Copy, Eq, PartialEq, Structural)]
pub struct Id(pub u64);

impl Id {
    pub fn as_raw(&self) -> (r: u64)
        ensures
            r == self.0,
    {
        self.0
    }

    /// The identity named by a string: its hash with the std default hasher.
    pub fn hash(v: &str) -> (id: Self)
        ensures
            id.0 == finish_of(str_hash_writes(v.spec_bytes())),
    {
        let mut hasher = DefaultHasher::new();
        hasher.write(v.as_bytes());
        let end: [u8; 1] = [0xffu8];
        hasher.write(end.as_slice());
        proof {
            assert(end@ =~= seq![0xffu8]);
            assert(hasher@ =~= str_hash_writes(v.spec_bytes()));
        }
        Id(hasher.finish())
    }

    /// The identity named by what a caller feeds a fresh std default hasher:
    /// the hash of the given writes, made in order. Hashing an integer with
    /// `Hash` writes its native-endian bytes, so the identity of the `nth`
    /// item of a list is named by the writes of the list's raw id and of
    /// `nth`.
    pub fn hash_with(writes: &[Vec<u8>]) -> (id: Self)
        ensures
            id.0 == finish_of(write_seqs(writes@)),
    {
        let mut hasher = DefaultHasher::new();
        let mut i: usize = 0;
        while i < writes.len()
            invariant
                i <= writes.len(),
                hasher@ == write_seqs(writes@.take(i as int)),
            decreases writes.len() - i,
        {
            hasher.write(writes[i].as_slice());
            proof {
                assert(write_seqs(writes@.take(i + 1)) =~= write_seqs(writes@.take(i as int)).push(
                    writes@[i as int]@,
                ));
            }
            i = i + 1;
        }
        proof {
            assert(writes@.take(writes.len() as int) =~= writes@);
        }
        Id(hasher.finish())
    }
}

impl<'a> From<&'a str> for Id {
    /// The identity named by a string, as `Id::hash` gives it.
    fn from(v: &'a str) -> (id: Self) {
        Id::hash(v)
    }
}

impl<'a> vstd::std_specs::convert::FromSpecImpl<&'a str> for Id {
    open spec fn obeys_from_spec() -> bool {
        true
    }

    open spec fn from_spec(v: &'a str) -> Id {
        Id(finish_of(str_hash_writes(v.spec_bytes())))
    }
}

/// An identity depends on nothing but the bytes named: equal strings, or
/// equal lists of writes, name equal identities, and converting a string
/// gives the identity its hash names.
pub proof fn law_equal_names_give_equal_ids(a: &str, b: &str, w: Seq<Vec<u8>>, x: Seq<Vec<u8>>)
    ensures
        a@ == b@ ==> finish_of(str_hash_writes(a.spec_bytes())) == finish_of(
            str_hash_writes(b.spec_bytes()),
        ),
        write_seqs(w) == write_seqs(x) ==> finish_of(write_seqs(w)) == finish_of(write_seqs(x)),
        <Id as vstd::std_specs::convert::FromSpec<&str>>::from_spec(a) == Id(
            finish_of(str_hash_writes(a.spec_bytes())),
        ),
{
}

/// What a click area reports for a frame.
#[derive(Debug, Clone, Copy, Eq, PartialEq, Structural)]
pub enum ClickAreaEvent {
    Idle { hovered: bool, pressed: bool },
    PressStart,
    PressEnd { clicked: bool },
}

impl ClickAreaEvent {
    pub fn null() -> (e: Self)
        ensures
            e == (ClickAreaEvent::Idle { hovered: false, pressed: false }),
    {
        Self::Idle { hovered: false, pressed: false }
    }

    pub fn is_clicked(&self) -> (b: bool)
        ensures
            b == (*self == ClickAreaEvent::PressEnd { clicked: true }),
    {
        *self == ClickAreaEvent::PressEnd { clicked: true }
    }

    pub fn is_pressed(&self) -> (b: bool)
        ensures
            b == (*self is PressStart || *self matches ClickAreaEvent::Idle { pressed: true, .. }),
    {
        match self {
            ClickAreaEvent::PressStart => true,
            ClickAreaEvent::Idle { pressed, .. } => *pressed,
            ClickAreaEvent::PressEnd { .. } => false,
        }
    }

    pub fn is_press_start(&self) -> (b: bool)
        ensures
            b == (*self is PressStart),
    {
        matches!(self, ClickAreaEvent::PressStart)
    }

    pub fn is_hovered(&self) -> (b: bool)
        ensures
            b == (*self matches ClickAreaEvent::Idle { hovered: true, .. }),
    {
        match self {
            ClickAreaEvent::Idle { hovered, .. } => *hovered,
            _ => false,
        }
    }
}

/// A press that has just started is a press, and is neither a hover nor a
/// click; the null event is none of these.
pub proof fn law_click_event_predicates(e: ClickAreaEvent)
    ensures
        e is PressStart ==> (e is PressStart || e matches ClickAreaEvent::Idle { pressed: true, .. }),
        e is PressStart ==> !(e matches ClickAreaEvent::Idle { hovered: true, .. }) && e
            != (ClickAreaEvent::PressEnd { clicked: true }),
        e == (ClickAreaEvent::Idle { hovered: false, pressed: false }) ==> !(e is PressStart) && !(
        e matches ClickAreaEvent::Idle { pressed: true, .. }) && !(e matches ClickAreaEvent::Idle {
            hovered: true,
            ..
        }) && e != (ClickAreaEvent::PressEnd { clicked: true }),
{
}

/// The pointer bookkeeping of a UI frame: which element is hovered, which
/// one holds the press, and the state of the mouse button.
#[derive(Debug, Clone, Copy, PartialEq, Eq, Structural)]
pub struct PointerState {
    pub hovered: Option<Id>,
    pub active: Option<Id>,
    /// The button went down during this frame.
    pub mouse_pressed: bool,
    /// The button is held.
    pub mouse_down: bool,
}

/// What checking a click area does to the pointer state and reports, given
/// whether the pointer is over the area (and inside the layer's scissor).
pub open spec fn click_area_step(s: PointerState, id: Id, mouseover: bool) -> (PointerState, ClickAreaEvent) {
    let hovered = if mouseover {
        Some(id)
    } else if s.hovered == Some(id) {
        None
    } else {
        s.hovered
    };
    if s.mouse_pressed && mouseover && s.active is None {
        (PointerState { hovered, active: Some(id), ..s }, ClickAreaEvent::PressStart)
    } else {
        let pressed = s.active == Some(id);
        if !s.mouse_down && pressed {
            (PointerState { hovered, active: None, ..s }, ClickAreaEvent::PressEnd { clicked: mouseover })
        } else {
            (
                PointerState { hovered, ..s },
                ClickAreaEvent::Idle { hovered: mouseover && s.active is None, pressed },
            )
        }
    }
}

impl PointerState {
    pub fn new() -> (s: Self)
        ensures
            s == (PointerState { hovered: None, active: None, mouse_pressed: false, mouse_down: false }),
    {
        PointerState { hovered: None, active: None, mouse_pressed: false, mouse_down: false }
    }

    /// The mouse button goes down.
    pub fn mouse_down(&mut self)
        ensures
            *final(self) == (PointerState { mouse_pressed: true, mouse_down: true, ..*old(self) }),
    {
        self.mouse_pressed = true;
        self.mouse_down = true;
    }

    /// The mouse button goes up.
    pub fn mouse_up(&mut self)
        ensures
            *final(self) == (PointerState { mouse_pressed: false, mouse_down: false, ..*old(self) }),
    {
        self.mouse_pressed = false;
        self.mouse_down = false;
    }

    /// The frame is over: the press of this frame is no longer new.
    pub fn done(&mut self)
        ensures
            *final(self) == (PointerState { mouse_pressed: false, ..*old(self) }),
    {
        self.mouse_pressed = false;
    }

    /// Checks the click area `id` against the pointer: updates hover and
    /// press ownership and reports the area's event.
    pub fn check_click_area(&mut self, id: Id, mouseover: bool) -> (e: ClickAreaEvent)
        ensures
            (*final(self), e) == click_area_step(*old(self), id, mouseover),
    {
        if mouseover {
            self.hovered = Some(id);
        } else if self.hovered == Some(id) {
            self.hovered = None;
        }

        if self.mouse_pressed && mouseover && self.active.is_none() {
            self.active = Some(id);
            return ClickAreaEvent::PressStart;
        }

        let pressed = self.active == Some(id);

        if !self.mouse_down && pressed {
            self.active = None;
            ClickAreaEvent::PressEnd { clicked: mouseover }
        } else {
            ClickAreaEvent::Idle { hovered: mouseover && self.active.is_none(), pressed }
        }
    }
}

/// A press starts only on an area under the pointer while no other element
/// holds the press, and the area then holds it.
pub proof fn law_press_start_takes_the_press(s: PointerState, id: Id, mouseover: bool)
    ensures
        click_area_step(s, id, mouseover).1 is PressStart <==> (s.mouse_pressed && mouseover && s.active
            is None),
        click_area_step(s, id, mouseover).1 is PressStart ==> click_area_step(s, id, mouseover).0.active
            == Some(id),
{
}

/// While one element holds the press, no other element can start one.
pub proof fn law_one_press_at_a_time(s: PointerState, a: Id, b: Id, over_a: bool, over_b: bool)
    requires
        a != b,
        click_area_step(s, a, over_a).1 is PressStart,
    ensures
        !(click_area_step(click_area_step(s, a, over_a).0, b, over_b).1 is PressStart),
        click_area_step(click_area_step(s, a, over_a).0, b, over_b).0.active == Some(a),
{
}

/// A press ends only for the element that holds it, once the button is up,
/// and then no element holds the press; it is a click exactly when the
/// pointer is still over the element.
pub proof fn law_press_end_releases(s: PointerState, id: Id, mouseover: bool)
    ensures
        click_area_step(s, id, mouseover).1 is PressEnd ==> s.active == Some(id) && !s.mouse_down
            && click_area_step(s, id, mouseover).0.active is None,
        click_area_step(s, id, mouseover).1 == (ClickAreaEvent::PressEnd { clicked: true }) ==> mouseover,
{
}

/// How a button is drawn for a frame.
#[derive(Debug, Clone, Copy, PartialEq, Eq, Structural)]
pub enum ButtonLook {
    Normal,
    Hovered,
    Pressed,
}

/// The look of the button `id`: pressed while it holds the press, hovered
/// while it is hovered and no element holds the press, normal otherwise.
pub fn button_look(s: &PointerState, id: Id) -> (l: ButtonLook)
    ensures
        l == (if s.active == Some(id) {
            ButtonLook::Pressed
        } else if s.hovered == Some(id) && s.active is None {
            ButtonLook::Hovered
        } else {
            ButtonLook::Normal
        }),
{
    if s.active == Some(id) {
        ButtonLook::Pressed
    } else if s.hovered == Some(id) && s.active.is_none() {
        ButtonLook::Hovered
    } else {
        ButtonLook::Normal
    }
}

/// The identity of a button: the one it was given, else the hash of its
/// label when it has one, else the hash of its icon.
pub fn button_id(id: Option<Id>, label: &str, icon: &str) -> (r: Id)
    ensures
        r == (match id {
            Some(i) => i,
            None => if label@.len() > 0 {
                Id(finish_of(str_hash_writes(label.spec_bytes())))
            } else {
                Id(finish_of(str_hash_writes(icon.spec_bytes())))
            },
        }),
{
    match id {
        Some(i) => i,
        None => if !label.is_empty() {
            Id::hash(label)
        } else {
            Id::hash(icon)
        },
    }
}

/// A card that groups widgets on a panel.
#[derive(Debug, Clone, Copy, PartialEq, Eq, Structural)]
pub struct Card {}

impl Card {
    pub fn new() -> (c: Self)
        ensures
            c == (Card {}),
    {
        Card {}
    }
}

pub fn card() -> (c: Card)
    ensures
        c == (Card {}),
{
    Card::new()
}

/// A group of settings rows on a rounded panel.
#[derive(Debug, Clone, Copy, PartialEq, Eq, Structural)]
pub struct RowGroup {}

impl RowGroup {
    pub fn new() -> (g: Self)
        ensures
            g == (RowGroup {}),
    {
        RowGroup {}
    }
}

pub fn row_group() -> (g: RowGroup)
    ensures
        g == (RowGroup {}),
{
    RowGroup::new()
}

/// What a plus/minus settings row reports for a frame.
#[derive(Debug, Clone, Copy, PartialEq, Eq, Structural)]
pub enum SettingsRowSpinResult {
    Plus,
    Minus,
    Idle,
}

/// The result of a plus/minus row: minus wins over plus when both buttons
/// report a click in the same frame, as minus is checked second.
pub fn spin_result(plus_clicked: bool, minus_clicked: bool) -> (r: SettingsRowSpinResult)
    ensures
        r == (if minus_clicked {
            SettingsRowSpinResult::Minus
        } else if plus_clicked {
            SettingsRowSpinResult::Plus
        } else {
            SettingsRowSpinResult::Idle
        }),
{
    let mut res = SettingsRowSpinResult::Idle;
    if plus_clicked {
        res = SettingsRowSpinResult::Plus;
    }
    if minus_clicked {
        res = SettingsRowSpinResult::Minus;
    }
    res
}

} // verus!
