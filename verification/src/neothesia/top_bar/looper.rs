//! The loop region of the first top bar, with draggable start and end ticks.
use vstd::prelude::*;
use crate::neothesia::midi_player::MAX_DURATION_NANOS;

verus! {

/// Which end of the loop a tick marks.
#[derive(Debug, Clone, Copy, PartialEq, Eq, Structural)]
pub enum LoopTickSide {
    Start,
    End,
}

/// What happens to a loop tick under the pointer.
#[derive(Debug, Clone, Copy, PartialEq, Eq, Structural)]
pub enum LoopTickMsg {
    DragStart,
    Drag,
    DragEnd,
}

/// The messages of the looper.
#[derive(Debug, Clone, Copy, PartialEq, Eq, Structural)]
pub enum LooperMsg {
    Tick { side: LoopTickSide, event: LoopTickMsg },
    Toggle,
}

/// The length of the loop placed when the looper is turned on, in
/// nanoseconds (three seconds).
pub const LOOP_NANOS: u128 = 3_000_000_000;

/// The looper: whether it is on and the song times (nanoseconds) of its
/// ticks.
#[derive(Debug, Clone, Copy, PartialEq, Eq, Structural)]
pub struct Looper {
    pub start_timestamp: u128,
    pub end_timestamp: u128,
    pub is_active: bool,
}

impl Looper {
    pub fn new() -> (l: Self)
        ensures
            l == (Looper { start_timestamp: 0, end_timestamp: 0, is_active: false }),
    {
        Looper { start_timestamp: 0, end_timestamp: 0, is_active: false }
    }

    pub fn is_active(&self) -> (b: bool)
        ensures
            b == self.is_active,
    {
        self.is_active
    }

    pub fn start_timestamp(&self) -> (t: u128)
        ensures
            t == self.start_timestamp,
    {
        self.start_timestamp
    }

    pub fn end_timestamp(&self) -> (t: u128)
        ensures
            t == self.end_timestamp,
    {
        self.end_timestamp
    }

    /// The loop button: turned on, the looper loops the three seconds from
    /// the song time `now`; turned off, it keeps its ticks.
    pub fn toggle(&mut self, now: u128)
        requires
            now + LOOP_NANOS <= MAX_DURATION_NANOS,
        ensures
            final(self).is_active == !old(self).is_active,
            final(self).is_active ==> final(self).start_timestamp == now && final(self).end_timestamp
                == now + LOOP_NANOS,
            !final(self).is_active ==> final(self).start_timestamp == old(self).start_timestamp
                && final(self).end_timestamp == old(self).end_timestamp,
    {
        self.is_active = !self.is_active;
        if self.is_active {
            self.start_timestamp = now;
            self.end_timestamp = self.start_timestamp + LOOP_NANOS;
        }
    }

    /// Moves the tick of `side` to the song time `time`.
    pub fn set_tick(&mut self, side: LoopTickSide, time: u128)
        ensures
            side == LoopTickSide::Start ==> *final(self) == (Looper { start_timestamp: time, ..*old(self) }),
            side == LoopTickSide::End ==> *final(self) == (Looper { end_timestamp: time, ..*old(self) }),
    {
        match side {
            LoopTickSide::Start => self.start_timestamp = time,
            LoopTickSide::End => self.end_timestamp = time,
        }
    }
}

} // verus!
