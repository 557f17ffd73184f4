//! The top bar of the playing scene: the loop region, the settings toggle,
//! and the messages of its widgets.
pub mod looper;
pub mod progress_bar;
pub mod ui;
pub mod widget;

use vstd::prelude::*;
use crate::neothesia::midi_player::MAX_DURATION_NANOS;

verus! {

/// One second, in nanoseconds.
pub const SECOND_NANOS: u128 = 1_000_000_000;

/// The length of the loop placed when the looper is first turned on, in
/// nanoseconds (five seconds).
pub const FIRST_LOOP_NANOS: u128 = 5_000_000_000;

/// The state of the top bar: whether it and the settings card are out, and
/// the loop region (times in nanoseconds of song time).
#[derive(Debug, Clone, Copy, PartialEq, Eq, Structural)]
pub struct TopBar {
    pub is_expanded: bool,
    pub settings_active: bool,
    pub looper_active: bool,
    pub loop_start: u128,
    pub loop_end: u128,
}

/// The loop button: the looper turns on or off; turned on with no loop
/// placed yet, it loops the five seconds from song time `now`.
pub open spec fn toggle_looper_step(t: TopBar, now: u128) -> TopBar {
    let active = !t.looper_active;
    if active && t.loop_start == 0 && t.loop_end == 0 {
        TopBar { looper_active: active, loop_start: now, loop_end: (now + FIRST_LOOP_NANOS) as u128, ..t }
    } else {
        TopBar { looper_active: active, ..t }
    }
}

/// Where playback jumps at song time `time`: back to the loop start once an
/// active loop's end is passed.
pub open spec fn loop_restart_at(t: TopBar, time: u128) -> Option<u128> {
    if t.looper_active && time > t.loop_end {
        Some(t.loop_start)
    } else {
        None
    }
}

impl TopBar {
    pub fn new() -> (t: Self)
        ensures
            t == (TopBar {
                is_expanded: false,
                settings_active: false,
                looper_active: false,
                loop_start: 0,
                loop_end: 0,
            }),
    {
        TopBar { is_expanded: false, settings_active: false, looper_active: false, loop_start: 0, loop_end: 0 }
    }

    pub fn is_looper_active(&self) -> (b: bool)
        ensures
            b == self.looper_active,
    {
        self.looper_active
    }

    pub fn loop_start_timestamp(&self) -> (t: u128)
        ensures
            t == self.loop_start,
    {
        self.loop_start
    }

    pub fn loop_end_timestamp(&self) -> (t: u128)
        ensures
            t == self.loop_end,
    {
        self.loop_end
    }

    /// The bar is out while the pointer is near it or the settings card is
    /// open.
    pub fn set_expanded(&mut self, pointer_near: bool)
        ensures
            *final(self) == (TopBar { is_expanded: pointer_near || old(self).settings_active, ..*old(self) }),
    {
        self.is_expanded = pointer_near;
        self.is_expanded = self.is_expanded || self.settings_active;
    }

    /// The settings button opens or closes the settings card.
    pub fn toggle_settings(&mut self)
        ensures
            *final(self) == (TopBar { settings_active: !old(self).settings_active, ..*old(self) }),
    {
        self.settings_active = !self.settings_active;
    }

    /// The loop button turns the looper on or off; turned on for the first
    /// time, it loops the five seconds from the current song time `now`.
    pub fn toggle_looper(&mut self, now: u128)
        requires
            now + FIRST_LOOP_NANOS <= MAX_DURATION_NANOS,
        ensures
            *final(self) == toggle_looper_step(*old(self), now),
    {
        self.looper_active = !self.looper_active;
        if self.looper_active && self.loop_start == 0 && self.loop_end == 0 {
            self.loop_start = now;
            self.loop_end = now + FIRST_LOOP_NANOS;
        }
    }

    /// Where playback jumps at song time `time`: back to the loop start once
    /// an active loop's end is passed.
    pub fn loop_restart(&self, time: u128) -> (r: Option<u128>)
        ensures
            r == loop_restart_at(*self, time),
    {
        if self.looper_active && time > self.loop_end {
            Some(self.loop_start)
        } else {
            None
        }
    }
}

/// Turning the looper on and off again keeps the loop it placed; the first
/// time it is turned on, the loop is five seconds long.
pub proof fn law_looper_toggle_keeps_the_loop(t: TopBar, now: u128, later: u128)
    requires
        !t.looper_active,
        now + FIRST_LOOP_NANOS <= u128::MAX,
    ensures
        ({
            let a = toggle_looper_step(t, now);
            let b = toggle_looper_step(a, later);
            &&& a.looper_active
            &&& !b.looper_active
            &&& b.loop_start == a.loop_start && b.loop_end == a.loop_end
            &&& (t.loop_start == 0 && t.loop_end == 0) ==> a.loop_start == now && a.loop_end == now
                + FIRST_LOOP_NANOS
            &&& !(t.loop_start == 0 && t.loop_end == 0) ==> a.loop_start == t.loop_start && a.loop_end
                == t.loop_end
        }),
{
}

/// With the looper on, song time past the loop's end returns to its start;
/// with it off, or before the end, playback never jumps.
pub proof fn law_active_loop_returns_to_start(t: TopBar, time: u128)
    ensures
        t.looper_active && time > t.loop_end ==> loop_restart_at(t, time) == Some(t.loop_start),
        !t.looper_active || time <= t.loop_end ==> loop_restart_at(t, time) is None,
{
}

} // verus!
