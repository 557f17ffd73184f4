//! Keyboard ranges, piano key layout, staff notation mapping and the
//! interaction state machines of a piano-learning application, with their
//! contracts proved by Verus.
pub mod piano_layout;
pub mod piano_math;
pub mod neothesia;
pub mod nuon;
