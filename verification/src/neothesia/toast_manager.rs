//! A short message shown over the playing scene for about a second.
use std::time::Instant;
use vstd::prelude::*;
use crate::neothesia::clock::{clock_now, secs_since};

verus! {

/// How many whole seconds a toast stays on screen.
pub const TOAST_SECONDS: u64 = 1;

/// Whether a toast shown `secs` whole seconds ago is still on screen.
pub open spec fn toast_alive(secs: u64) -> bool {
    secs < TOAST_SECONDS
}

/// A message and the time it was raised.
#[derive(Debug)]
pub struct Toast {
    pub start_time: Instant,
    pub text: String,
}

impl Toast {
    /// A toast raised now.
    pub fn new(text: String) -> (t: Self)
        ensures
            t.text@ == text@,
    {
        Toast::new_at(text, clock_now())
    }

    /// A toast raised at `start_time`.
    pub fn new_at(text: String, start_time: Instant) -> (t: Self)
        ensures
            t.text@ == text@,
            t.start_time == start_time,
    {
        Toast { start_time, text }
    }

    /// Whether a toast raised `secs` whole seconds ago is still shown.
    pub fn is_alive_after(secs: u64) -> (b: bool)
        ensures
            b == toast_alive(secs),
    {
        secs < TOAST_SECONDS
    }
}

/// Holds the toast on screen, if any.
#[derive(Debug)]
pub struct ToastManager {
    pub toast: Option<Toast>,
}

impl ToastManager {
    pub fn new() -> (m: Self)
        ensures
            m.toast is None,
    {
        ToastManager { toast: None }
    }

    /// Raises a toast now, replacing the one shown.
    pub fn toast(&mut self, text: String)
        ensures
            final(self).toast is Some,
            final(self).toast->0.text@ == text@,
    {
        self.toast_at(text, clock_now());
    }

    /// Raises a toast at `now`, replacing the one shown.
    pub fn toast_at(&mut self, text: String, now: Instant)
        ensures
            final(self).toast is Some,
            final(self).toast->0.text@ == text@,
            final(self).toast->0.start_time == now,
    {
        self.toast = Some(Toast::new_at(text, now));
    }

    /// The text to draw this frame, given how many whole seconds ago the toast
    /// was raised: the toast's text while it is alive; once it has expired
    /// the toast is dropped.
    pub fn update_after(&mut self, secs: u64) -> (shown: Option<String>)
        ensures
            match old(self).toast {
                Some(t) => if toast_alive(secs) {
                    shown is Some && shown->0@ == t.text@ && final(self).toast == old(self).toast
                } else {
                    shown is None && final(self).toast is None
                },
                None => shown is None && final(self).toast is None,
            },
    {
        let alive = match &self.toast {
            Some(_) => Toast::is_alive_after(secs),
            None => false,
        };
        if alive {
            match &self.toast {
                Some(t) => Some(t.text.clone()),
                None => None,
            }
        } else {
            self.toast = None;
            None
        }
    }

    /// The text to draw this frame: the toast's text for its first second,
    /// after which it is dropped.
    pub fn update(&mut self) -> (shown: Option<String>)
        ensures
            match old(self).toast {
                Some(t) => (shown is Some && shown->0@ == t.text@ && final(self).toast == old(self).toast)
                    || (shown is None && final(self).toast is None),
                None => shown is None && final(self).toast is None,
            },
    {
        let secs = match &self.toast {
            Some(t) => secs_since(&t.start_time),
            None => 0,
        };
        self.update_after(secs)
    }
}

/// A toast is shown during its first second and gone afterwards.
pub proof fn law_toast_lasts_one_second(secs: u64)
    ensures
        toast_alive(secs) <==> secs == 0,
{
}

} // verus!
