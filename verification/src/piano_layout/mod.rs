//! Which keys a piano keyboard shows, and in which order they are laid out.
pub mod range;

pub use range::KeyboardRange;

use vstd::prelude::*;
use range::{is_black_note, key_seq, KeyId};

verus! {

/// The two kinds of piano keys: the long white (neutral) keys and the short
/// black (sharp) keys.
#[derive(Default, Debug, Clone, Copy, PartialEq, Eq, Structural)]
pub enum KeyKind {
    #[default]
    Neutral,
    Sharp,
}

impl KeyKind {
    pub fn is_neutral(&self) -> (b: bool)
        ensures
            b == (*self == KeyKind::Neutral),
    {
        *self == Self::Neutral
    }

    pub fn is_sharp(&self) -> (b: bool)
        ensures
            b == (*self == KeyKind::Sharp),
    {
        *self == Self::Sharp
    }
}

/// Every key kind is exactly one of neutral and sharp.
pub proof fn law_key_kind_is_neutral_or_sharp(k: KeyKind)
    ensures
        (k == KeyKind::Neutral) != (k == KeyKind::Sharp),
{
}

/// The kind of the key at a place in the octave: C#, D#, F#, G# and A# are
/// sharp, the other seven are neutral.
pub open spec fn kind_of_note(note_id: int) -> KeyKind {
    if is_black_note(note_id) {
        KeyKind::Sharp
    } else {
        KeyKind::Neutral
    }
}

/// The kind of the key at a place in the octave (0 is C, 11 is B).
pub fn octave_key_kind(note_id: u8) -> (k: KeyKind)
    requires
        note_id < 12,
    ensures
        k == kind_of_note(note_id as int),
{
    if KeyId(note_id).is_black() {
        KeyKind::Sharp
    } else {
        KeyKind::Neutral
    }
}

/// The number of octaves that the notes from `start` to `end` touch.
pub open spec fn octave_piece_count(start: int, end: int) -> int {
    if start >= end {
        0
    } else {
        (end - 1) / 12 - start / 12 + 1
    }
}

/// The part of the `k`-th touched octave that lies in `start..end`, given as
/// places in that octave (0 is C): from the first place to one past the last.
pub open spec fn octave_piece(start: int, end: int, k: int) -> (int, int) {
    let base = 12 * (start / 12 + k);
    (
        if start > base { start - base } else { 0 },
        if end < base + 12 { end - base } else { 12 },
    )
}

/// The ranges on which the octave walk of `split_range_by_octaves` makes
/// progress: ranges that start on a C, that reach past the end of their
/// first octave, or that are empty. On the others it would not end.
pub open spec fn splits_by_octaves(start: int, end: int) -> bool {
    start % 12 == 0 || start + 12 <= end || start >= end
}

/// Splits a range of notes into the pieces of the octaves that it touches,
/// each given as places in its octave.
pub fn split_range_by_octaves(range: &std::ops::Range<u8>) -> (pieces: Vec<std::ops::Range<usize>>)
    requires
        splits_by_octaves(range.start as int, range.end as int),
    ensures
        pieces.len() == octave_piece_count(range.start as int, range.end as int),
        forall|k: int|
            0 <= k < pieces.len() ==> (#[trigger] pieces[k]).start == octave_piece(
                range.start as int,
                range.end as int,
                k,
            ).0 && pieces[k].end == octave_piece(range.start as int, range.end as int, k).1,
{
    let start = range.start as usize;
    let end = range.end as usize;
    let ghost s = start as int;
    let ghost e = end as int;
    let ghost o0 = s / 12;

    let mut pieces: Vec<std::ops::Range<usize>> = Vec::new();
    let mut id = start;

    while id < end
        invariant
            start == s,
            end == e,
            o0 == s / 12,
            e < 256,
            splits_by_octaves(s, e),
            pieces.len() == 0 ==> id == start,
            pieces.len() > 0 ==> 12 * (o0 + pieces.len() - 1) < id && id <= 12 * (o0 + pieces.len()),
            pieces.len() > 0 ==> (id == end || id == 12 * (o0 + pieces.len())),
            pieces.len() > 0 ==> id <= end && start < end,
            forall|k: int|
                0 <= k < pieces.len() ==> (#[trigger] pieces[k]).start == octave_piece(s, e, k).0
                    && pieces[k].end == octave_piece(s, e, k).1,
        decreases end - id, if id == start { 1int } else { 0int },
    {
        let start_id = id % 12;
        let end_id = if id + 12 > end {
            end - id
        } else {
            12
        };
        let ghost k = pieces.len() as int;
        proof {
            assert(start_id < end_id);
        }
        let piece = start_id..end_id;
        let len = end_id - start_id;
        pieces.push(piece);
        id = id + len;
        proof {
            assert(pieces[k].start == octave_piece(s, e, k).0);
            assert(pieces[k].end == octave_piece(s, e, k).1);
        }
    }
    proof {
        let k = pieces.len() as int;
        if k > 0 {
            assert(12 * (o0 + k - 1) <= e - 1 < 12 * (o0 + k));
            assert((e - 1) / 12 == o0 + k - 1) by (nonlinear_arith)
                requires
                    12 * (o0 + k - 1) <= e - 1 < 12 * (o0 + k),
            ;
        }
    }
    pieces
}


/// A key of a laid-out keyboard, without its geometry: its position on the
/// keyboard (`id`), its place in its octave (`note_id`, 0 is C) and its kind.
#[derive(Debug, Clone, Copy, PartialEq, Eq, Structural)]
pub struct KeySlot {
    pub id: usize,
    pub note_id: u8,
    pub kind: KeyKind,
}

/// The keys of a keyboard showing `range`, from left to right: octave by
/// octave, the keys of the part of each octave that the range covers, numbered
/// from 0.
pub fn layout_key_slots(range: &KeyboardRange) -> (slots: Vec<KeySlot>)
    requires
        splits_by_octaves(range@.0 as int, range@.1 as int),
    ensures
        slots.len() == key_seq(range@.0 as int, range@.1 as int).len(),
        forall|i: int|
            0 <= i < slots.len() ==> (#[trigger] slots[i]).id == i && slots[i].note_id == (
            range@.0 + i) % 12 && slots[i].kind == kind_of_note(range@.0 + i),
{
    let r = range.range();
    let pieces = split_range_by_octaves(&r);
    let ghost s = range@.0 as int;
    let ghost e = range@.1 as int;
    let ghost o0 = s / 12;
    let ghost count = octave_piece_count(s, e);

    let mut slots: Vec<KeySlot> = Vec::new();
    let mut id: usize = 0;
    let mut j: usize = 0;
    while j < pieces.len()
        invariant
            s == r.start,
            e == r.end,
            o0 == s / 12,
            e < 256,
            count == octave_piece_count(s, e),
            pieces.len() == count,
            forall|k: int|
                0 <= k < pieces.len() ==> (#[trigger] pieces[k]).start == octave_piece(s, e, k).0
                    && pieces[k].end == octave_piece(s, e, k).1,
            j <= pieces.len(),
            id == slots.len(),
            j == 0 ==> slots.len() == 0,
            j > 0 ==> slots.len() == (if e < 12 * (o0 + j) { e } else { 12 * (o0 + j) }) - s,
            forall|i: int|
                0 <= i < slots.len() ==> (#[trigger] slots[i]).id == i && slots[i].note_id == (s
                    + i) % 12 && slots[i].kind == kind_of_note(s + i),
        decreases pieces.len() - j,
    {
        let piece_start = pieces[j].start;
        let piece_end = pieces[j].end;
        let ghost base = 12 * (o0 + j);
        proof {
            assert(pieces[j as int].start == octave_piece(s, e, j as int).0);
            assert(s < e);
            assert(s <= base + piece_start);
            assert(base + piece_start == s + slots.len());
        }
        let mut note_id = piece_start;
        while note_id < piece_end
            invariant
                s == r.start,
                e == r.end,
                base == 12 * (o0 + j),
                o0 == s / 12,
                piece_start <= note_id <= piece_end,
                piece_end <= 12,
                base + piece_end <= e,
                e < 256,
                id == slots.len(),
                slots.len() == base + note_id - s,
                forall|i: int|
                    0 <= i < slots.len() ==> (#[trigger] slots[i]).id == i && slots[i].note_id == (
                    s + i) % 12 && slots[i].kind == kind_of_note(s + i),
            decreases piece_end - note_id,
        {
            let kind = octave_key_kind(note_id as u8);
            proof {
                assert((s + slots.len()) % 12 == note_id) by (nonlinear_arith)
                    requires
                        s + slots.len() == 12 * (o0 + j) + note_id,
                        0 <= note_id < 12,
                ;
            }
            slots.push(KeySlot { id, note_id: note_id as u8, kind });
            id = id + 1;
            note_id = note_id + 1;
        }
        j = j + 1;
    }
    proof {
        if count > 0 {
            assert(12 * (o0 + count - 1) <= e - 1 < 12 * (o0 + count)) by (nonlinear_arith)
                requires
                    count == (e - 1) / 12 - s / 12 + 1,
                    o0 == s / 12,
            ;
        }
    }
    slots
}

} // verus!
