//! The glyphs of the icon font that the playing scene draws.
use vstd::prelude::*;

verus! {

pub fn cone_icon() -> (s: &'static str)
    ensures
        s@ == seq!['\u{F2D2}'],
{
    proof {
        reveal_strlit("\u{F2D2}");
    }
    "\u{F2D2}"
}

pub fn gear_icon() -> (s: &'static str)
    ensures
        s@ == seq!['\u{F3E5}'],
{
    proof {
        reveal_strlit("\u{F3E5}");
    }
    "\u{F3E5}"
}

pub fn gear_fill_icon() -> (s: &'static str)
    ensures
        s@ == seq!['\u{F3E2}'],
{
    proof {
        reveal_strlit("\u{F3E2}");
    }
    "\u{F3E2}"
}

pub fn repeat_icon() -> (s: &'static str)
    ensures
        s@ == seq!['\u{f130}'],
{
    proof {
        reveal_strlit("\u{f130}");
    }
    "\u{f130}"
}

pub fn play_icon() -> (s: &'static str)
    ensures
        s@ == seq!['\u{f4f4}'],
{
    proof {
        reveal_strlit("\u{f4f4}");
    }
    "\u{f4f4}"
}

pub fn pause_icon() -> (s: &'static str)
    ensures
        s@ == seq!['\u{f4c3}'],
{
    proof {
        reveal_strlit("\u{f4c3}");
    }
    "\u{f4c3}"
}

pub fn left_arrow_icon() -> (s: &'static str)
    ensures
        s@ == seq!['\u{f12f}'],
{
    proof {
        reveal_strlit("\u{f12f}");
    }
    "\u{f12f}"
}

pub fn right_arrow_icon() -> (s: &'static str)
    ensures
        s@ == seq!['\u{f138}'],
{
    proof {
        reveal_strlit("\u{f138}");
    }
    "\u{f138}"
}

pub fn minus_icon() -> (s: &'static str)
    ensures
        s@ == seq!['\u{F2EA}'],
{
    proof {
        reveal_strlit("\u{F2EA}");
    }
    "\u{F2EA}"
}

pub fn plus_icon() -> (s: &'static str)
    ensures
        s@ == seq!['\u{F4FE}'],
{
    proof {
        reveal_strlit("\u{F4FE}");
    }
    "\u{F4FE}"
}

} // verus!
