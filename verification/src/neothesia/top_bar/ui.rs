//! The messages of the retained top bar.
use std::time::Duration;
use vstd::prelude::*;

verus! {

#[derive(Debug, Clone, Copy)]
pub enum LooperMsg {
    MoveStart(Duration),
    MoveEnd(Duration),
}

#[derive(Debug, Clone, Copy)]
pub enum Msg {
    Looper(LooperMsg),
}

} // verus!
