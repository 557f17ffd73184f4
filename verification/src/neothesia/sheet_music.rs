//! Where notes sit on a grand staff.
use vstd::prelude::*;
use crate::piano_layout::range::is_black_note;

verus! {

/// The picture drawn for a sign of the score.
#[derive(Clone, Copy, Debug, PartialEq, Eq, Structural)]
pub enum SpriteKind {
    TrebleClef,
    BassClef,
    QuarterNote,
    HalfNote,
    WholeNote,
    Sharp,
}

/// The staff line or space of each place in the octave: C and C# on 0, D and
/// D# on 1, E on 2, F and F# on 3, G and G# on 4, A and A# on 5, B on 6.
pub open spec fn diatonic_degree(place: int) -> int {
    if place <= 1 {
        0
    } else if place <= 3 {
        1
    } else if place == 4 {
        2
    } else if place <= 6 {
        3
    } else if place <= 8 {
        4
    } else if place <= 10 {
        5
    } else {
        6
    }
}

/// The diatonic step of a MIDI note counted from C-1: seven steps per octave,
/// a sharp on the step of the natural below it.
pub open spec fn diatonic_step(midi_note: int) -> int {
    (midi_note / 12 - 1) * 7 + diatonic_degree(midi_note % 12)
}

/// The diatonic step of a MIDI note (C4, note 60, is step 28).
pub fn diatonic_index(midi_note: u8) -> (d: i32)
    ensures
        d == diatonic_step(midi_note as int),
{
    let octave = (midi_note / 12) as i32 - 1;
    let place = midi_note % 12;
    let degree: i32 = if place <= 1 {
        0
    } else if place <= 3 {
        1
    } else if place == 4 {
        2
    } else if place <= 6 {
        3
    } else if place <= 8 {
        4
    } else if place <= 10 {
        5
    } else {
        6
    };
    octave * 7 + degree
}

/// Whether a MIDI note needs a sharp sign: C#, D#, F#, G# and A#.
pub fn is_accidental(midi_note: u8) -> (b: bool)
    ensures
        b == is_black_note(midi_note as int),
{
    let place = midi_note % 12;
    place == 1 || place == 3 || place == 6 || place == 8 || place == 10
}

/// One octave higher is seven diatonic steps higher.
pub proof fn law_octave_is_seven_steps(n: int)
    requires
        0 <= n,
    ensures
        diatonic_step(n + 12) == diatonic_step(n) + 7,
{
    assert((n + 12) / 12 == n / 12 + 1);
    assert((n + 12) % 12 == n % 12);
}

/// A sharp sits on the staff position of the natural note below it.
pub proof fn law_sharp_shares_the_natural_step(n: int)
    requires
        1 <= n,
        is_black_note(n),
    ensures
        diatonic_step(n) == diatonic_step(n - 1),
{
    assert((n - 1) / 12 == n / 12);
    assert((n - 1) % 12 == n % 12 - 1);
}

/// A higher note never sits lower on the staff, and going up by a semitone
/// moves at most one step.
pub proof fn law_steps_follow_pitch(n: int)
    requires
        0 <= n,
    ensures
        diatonic_step(n) <= diatonic_step(n + 1) <= diatonic_step(n) + 1,
{
    if n % 12 == 11 {
        assert((n + 1) / 12 == n / 12 + 1);
        assert((n + 1) % 12 == 0);
    } else {
        assert((n + 1) / 12 == n / 12);
        assert((n + 1) % 12 == n % 12 + 1);
    }
}

/// The two staves of a grand staff.
#[derive(Clone, Copy, Debug, PartialEq, Eq, Structural)]
pub enum Staff {
    Treble,
    Bass,
}

/// The staff of a note and its step above the staff's bottom line: notes
/// from middle C (60) up go on the treble staff, whose bottom line is E4
/// (64); lower notes go on the bass staff, whose bottom line is G2 (43).
pub fn staff_position(key: u8) -> (p: (Staff, i32))
    ensures
        p == (if key >= 60 {
            (Staff::Treble, (diatonic_step(key as int) - diatonic_step(64)) as i32)
        } else {
            (Staff::Bass, (diatonic_step(key as int) - diatonic_step(43)) as i32)
        }),
{
    if key >= 60 {
        (Staff::Treble, diatonic_index(key) - diatonic_index(64))
    } else {
        (Staff::Bass, diatonic_index(key) - diatonic_index(43))
    }
}

/// The steps of the ledger lines a note at `staff_step` needs: every second
/// step below the staff down to the note, or above the top line (step 8) up
/// to the note.
pub fn ledger_line_steps(staff_step: i32) -> (steps: Vec<i32>)
    requires
        i32::MIN + 2 <= staff_step <= i32::MAX - 2,
    ensures
        staff_step < 0 ==> steps.len() == (-staff_step) / 2 && forall|i: int|
            0 <= i < steps.len() ==> #[trigger] steps[i] == -2 * (i + 1),
        staff_step > 8 ==> steps.len() == (staff_step - 8) / 2 && forall|i: int|
            0 <= i < steps.len() ==> #[trigger] steps[i] == 10 + 2 * i,
        0 <= staff_step <= 8 ==> steps.len() == 0,
{
    let mut steps: Vec<i32> = Vec::new();
    if staff_step < 0 {
        let mut step: i32 = -2;
        while step >= staff_step
            invariant
                i32::MIN + 2 <= staff_step < 0,
                step <= 0,
                step == -2 * (steps.len() + 1),
                step + 2 >= staff_step,
                forall|i: int| 0 <= i < steps.len() ==> #[trigger] steps[i] == -2 * (i + 1),
            decreases step - staff_step + 2,
        {
            steps.push(step);
            step = step - 2;
        }
        assert(steps.len() == (-staff_step) / 2);
    } else if staff_step > 8 {
        let mut step: i32 = 10;
        while step <= staff_step
            invariant
                8 < staff_step <= i32::MAX - 2,
                step == 10 + 2 * steps.len(),
                step - 2 <= staff_step,
                forall|i: int| 0 <= i < steps.len() ==> #[trigger] steps[i] == 10 + 2 * i,
            decreases staff_step - step + 2,
        {
            steps.push(step);
            step = step + 2;
        }
        assert(steps.len() == (staff_step - 8) / 2);
    }
    steps
}

} // verus!
