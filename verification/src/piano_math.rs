//! The fixed 88-key piano: which keys each octave contributes, in order.
use vstd::prelude::*;
use crate::piano_layout::range::is_black_note;

verus! {

/// The kind of a piano key: white (neutral) or black (sharp).
#[derive(Debug, Clone)]
pub enum KeyKind {
    Neutral,
    Sharp,
}

impl KeyKind {
    pub fn is_neutral(&self) -> (b: bool)
        ensures
            b == (*self is Neutral),
    {
        match self {
            KeyKind::Neutral => true,
            KeyKind::Sharp => false,
        }
    }

    pub fn is_sharp(&self) -> (b: bool)
        ensures
            b == (*self is Sharp),
    {
        match self {
            KeyKind::Neutral => false,
            KeyKind::Sharp => true,
        }
    }
}

/// A key of the 88-key keyboard without its geometry: its position from the
/// left (`id`), its place in its octave (`note_id`, 0 is C) and its kind.
#[derive(Debug, Clone)]
pub struct KeyNote {
    pub id: usize,
    pub note_id: u8,
    pub kind: KeyKind,
}

/// The places of one octave (0 is C, 11 is B) that `range` covers, in
/// ascending order, with the kind of each key.
pub fn partial_octave_notes(range: std::ops::Range<u8>) -> (keys: Vec<(u8, KeyKind)>)
    ensures
        keys.len() == (if range.start < range.end && range.start < 12 {
            (if range.end < 12 { range.end as int } else { 12 }) - range.start
        } else {
            0
        }),
        forall|i: int|
            0 <= i < keys.len() ==> (#[trigger] keys[i]).0 == range.start + i && (keys[i].1 is Sharp)
                == is_black_note(range.start + i),
{
    let mut keys: Vec<(u8, KeyKind)> = Vec::new();
    let mut note_id: u8 = 0;
    while note_id < 12
        invariant
            note_id <= 12,
            keys.len() == (if range.start < range.end && range.start < note_id {
                (if range.end < note_id { range.end as int } else { note_id as int }) - range.start
            } else {
                0
            }),
            forall|i: int|
                0 <= i < keys.len() ==> (#[trigger] keys[i]).0 == range.start + i && (keys[i].1 is Sharp)
                    == is_black_note(range.start + i),
        decreases 12 - note_id,
    {
        if range.start <= note_id && note_id < range.end {
            let kind = if note_id % 12 == 1 || note_id % 12 == 3 || note_id % 12 == 6 || note_id
                % 12 == 8 || note_id % 12 == 10 {
                KeyKind::Sharp
            } else {
                KeyKind::Neutral
            };
            keys.push((note_id, kind));
        }
        note_id = note_id + 1;
    }
    keys
}

/// The keys of the standard 88-key piano, from A0 to C8: the upper three keys
/// of the first octave, seven full octaves and the C of the last one,
/// numbered from 0.
pub fn standard_88_key_notes() -> (keys: Vec<KeyNote>)
    ensures
        keys.len() == 88,
        forall|i: int|
            0 <= i < keys.len() ==> (#[trigger] keys[i]).id == i && keys[i].note_id == (21 + i) % 12
                && (keys[i].kind is Sharp) == is_black_note(21 + i),
{
    let mut keys: Vec<KeyNote> = Vec::new();
    let mut octave: usize = 0;
    while octave < 9
        invariant
            octave <= 9,
            keys.len() == (if octave == 0 { 0 } else { 12 * octave - 9 - (if octave == 9 { 11int } else { 0 }) }),
            forall|i: int|
                0 <= i < keys.len() ==> (#[trigger] keys[i]).id == i && keys[i].note_id == (21 + i)
                    % 12 && (keys[i].kind is Sharp) == is_black_note(21 + i),
        decreases 9 - octave,
    {
        let range = if octave == 0 {
            9u8..12u8
        } else if octave == 8 {
            0u8..1u8
        } else {
            0u8..12u8
        };
        let notes = partial_octave_notes(range);
        let ghost before = keys.len() as int;
        let mut k: usize = 0;
        while k < notes.len()
            invariant
                k <= notes.len(),
                notes.len() == (if octave == 0 { 3int } else if octave == 8 { 1 } else { 12 }),
                forall|i: int|
                    0 <= i < notes.len() ==> (#[trigger] notes[i]).0 == (if octave == 0 { 9int } else { 0 }) + i
                        && (notes[i].1 is Sharp) == is_black_note((if octave == 0 { 9int } else { 0 }) + i),
                keys.len() == before + k,
                before == (if octave == 0 { 0 } else { 12 * octave - 9 }),
                forall|i: int|
                    0 <= i < keys.len() ==> (#[trigger] keys[i]).id == i && keys[i].note_id == (21 + i)
                        % 12 && (keys[i].kind is Sharp) == is_black_note(21 + i),
            decreases notes.len() - k,
        {
            let note_id = notes[k].0;
            let kind = if notes[k].1.is_sharp() {
                KeyKind::Sharp
            } else {
                KeyKind::Neutral
            };
            proof {
                let i = keys.len() as int;
                assert(21 + i == 12 * (octave + 1) + note_id);
                assert((21 + i) % 12 == note_id as int) by (nonlinear_arith)
                    requires
                        21 + i == 12 * (octave + 1) + note_id,
                        0 <= note_id < 12,
                ;
                assert(is_black_note(21 + i) == is_black_note(note_id as int));
            }
            let id = keys.len();
            keys.push(KeyNote { id, note_id, kind });
            k = k + 1;
        }
        octave = octave + 1;
    }
    keys
}

} // verus!
