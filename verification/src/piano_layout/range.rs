//! The slice of the 128 MIDI notes that a keyboard shows.
use vstd::prelude::*;
use vstd::std_specs::iter::IteratorSpec;

verus! {

const KEY_CIS: u8 = 1;
const KEY_DIS: u8 = 3;
const KEY_FIS: u8 = 6;
const KEY_GIS: u8 = 8;
const KEY_AIS: u8 = 10;

/// One past the highest MIDI note: 127 is the top of the MIDI tuning range.
pub const MIDI_NOTE_COUNT: u8 = 128;

/// A note is a black key when its place in the octave is C#, D#, F#, G# or A#.
pub open spec fn is_black_note(id: int) -> bool {
    let k = id % 12;
    k == 1 || k == 3 || k == 6 || k == 8 || k == 10
}

/// A MIDI note number.
#[derive(Debug, PartialEq, Eq, Clone, Copy, Structural)]
pub struct KeyId(pub u8);

impl View for KeyId {
    type V = u8;

    open spec fn view(&self) -> u8 {
        self.0
    }
}

impl KeyId {
    pub fn is_black(&self) -> (b: bool)
        ensures
            b == is_black_note(self@ as int),
    {
        let key = self.0 % 12;
        key == KEY_CIS || key == KEY_DIS || key == KEY_FIS || key == KEY_GIS || key == KEY_AIS
    }
}


/// The keys from `start` (included) to `end` (excluded), in ascending order;
/// empty when `start >= end`.
pub open spec fn key_seq(start: int, end: int) -> Seq<KeyId> {
    Seq::new(if start < end { (end - start) as nat } else { 0 }, |i: int| KeyId((start + i) as u8))
}

/// Selects the white keys.
pub open spec fn is_white_key() -> spec_fn(KeyId) -> bool {
    |k: KeyId| !is_black_note(k@ as int)
}

/// Selects the black keys.
pub open spec fn is_black_key() -> spec_fn(KeyId) -> bool {
    |k: KeyId| is_black_note(k@ as int)
}

/// The white keys from `start` to `end`, in ascending order.
pub open spec fn white_key_seq(start: int, end: int) -> Seq<KeyId> {
    key_seq(start, end).filter(is_white_key())
}

/// The black keys from `start` to `end`, in ascending order.
pub open spec fn black_key_seq(start: int, end: int) -> Seq<KeyId> {
    key_seq(start, end).filter(is_black_key())
}

/// Extending the keys by one note extends each colour class by that note
/// or leaves it as it was.
pub proof fn lemma_key_seq_push(start: int, end: int)
    requires
        0 <= start <= end,
        end < 256,
    ensures
        key_seq(start, end + 1) == key_seq(start, end).push(KeyId(end as u8)),
        white_key_seq(start, end + 1) == (if is_black_note(end) {
            white_key_seq(start, end)
        } else {
            white_key_seq(start, end).push(KeyId(end as u8))
        }),
        black_key_seq(start, end + 1) == (if is_black_note(end) {
            black_key_seq(start, end).push(KeyId(end as u8))
        } else {
            black_key_seq(start, end)
        }),
{
    let s = key_seq(start, end + 1);
    assert(s.drop_last() =~= key_seq(start, end));
    assert(s =~= key_seq(start, end).push(KeyId(end as u8)));
    assert(s.last() == KeyId(end as u8));
    reveal_with_fuel(Seq::<_>::filter, 1);
}

/// How a boundary of a range of notes is given.
#[derive(Debug, Clone, Copy, PartialEq, Eq, Structural)]
pub enum KeyBound {
    Included(u8),
    Excluded(u8),
    Unbounded,
}

/// The first note that a lower boundary admits.
pub open spec fn lower_bound_note(b: KeyBound) -> int {
    match b {
        KeyBound::Included(id) => id as int,
        KeyBound::Excluded(id) => id + 1,
        KeyBound::Unbounded => 0,
    }
}

/// One past the last note that an upper boundary admits, before the cut at
/// the top of the MIDI range.
pub open spec fn upper_bound_note(b: KeyBound) -> int {
    match b {
        KeyBound::Included(id) => id + 1,
        KeyBound::Excluded(id) => id as int,
        KeyBound::Unbounded => 128,
    }
}

/// A boundary that can be turned into a note number without leaving `u8`.
pub open spec fn bound_fits(b: KeyBound, lower: bool) -> bool {
    if lower {
        lower_bound_note(b) <= 255
    } else {
        upper_bound_note(b) <= 255
    }
}

/// Describes the used slice of a piano keyboard: the notes from `start()`
/// (included) to `end()` (excluded), split into white and black keys.
#[derive(Debug)]
pub struct KeyboardRange {
    start: u8,
    end: u8,
    keys: Vec<KeyId>,
    white_keys: Vec<KeyId>,
    black_keys: Vec<KeyId>,
}

impl View for KeyboardRange {
    /// The first note and one past the last note.
    type V = (u8, u8);

    closed spec fn view(&self) -> (u8, u8) {
        (self.start, self.end)
    }
}

impl KeyboardRange {
    #[verifier::type_invariant]
    closed spec fn well_formed(&self) -> bool {
        &&& self.end <= MIDI_NOTE_COUNT
        &&& self.keys@ == key_seq(self.start as int, self.end as int)
        &&& self.white_keys@ == white_key_seq(self.start as int, self.end as int)
        &&& self.black_keys@ == black_key_seq(self.start as int, self.end as int)
    }

    /// Builds the range of notes between two boundaries, cut at the top of
    /// the MIDI range (note 127).
    pub fn new(start_bound: KeyBound, end_bound: KeyBound) -> (r: Self)
        requires
            bound_fits(start_bound, true),
            bound_fits(end_bound, false),
        ensures
            r@.0 == lower_bound_note(start_bound),
            r@.1 == (if upper_bound_note(end_bound) < 128 {
                upper_bound_note(end_bound)
            } else {
                128
            }),
    {
        let start: u8 = match start_bound {
            KeyBound::Included(id) => id,
            KeyBound::Excluded(id) => id + 1,
            KeyBound::Unbounded => 0,
        };
        let end_raw: u8 = match end_bound {
            KeyBound::Included(id) => id + 1,
            KeyBound::Excluded(id) => id,
            KeyBound::Unbounded => 128,
        };
        let end: u8 = if end_raw < MIDI_NOTE_COUNT {
            end_raw
        } else {
            MIDI_NOTE_COUNT
        };

        let mut keys: Vec<KeyId> = Vec::new();
        let mut white_keys: Vec<KeyId> = Vec::new();
        let mut black_keys: Vec<KeyId> = Vec::new();

        proof {
            assert(key_seq(start as int, start as int) =~= Seq::<KeyId>::empty());
            reveal_with_fuel(Seq::<_>::filter, 1);
        }

        let mut id: u8 = start;
        while id < end
            invariant
                start <= id,
                start < end ==> id <= end,
                start >= end ==> id == start,
                end <= MIDI_NOTE_COUNT,
                keys@ == key_seq(start as int, id as int),
                white_keys@ == white_key_seq(start as int, id as int),
                black_keys@ == black_key_seq(start as int, id as int),
            decreases end - id,
        {
            let key = KeyId(id);
            proof {
                lemma_key_seq_push(start as int, id as int);
            }
            keys.push(key);
            if key.is_black() {
                black_keys.push(key);
            } else {
                white_keys.push(key);
            }
            id = id + 1;
        }
        proof {
            if start >= end {
                assert(key_seq(start as int, end as int) =~= key_seq(start as int, start as int));
            }

        }

        KeyboardRange { start, end, keys, white_keys, black_keys }
    }


    /// The 88 keys of a standard piano: A0 (note 21) to C8 (note 108).
    pub fn standard_88_keys() -> (r: Self)
        ensures
            r@ == (21u8, 109u8),
    {
        Self::new(KeyBound::Included(21), KeyBound::Included(108))
    }

    pub fn start(&self) -> (r: u8)
        ensures
            r == self@.0,
    {
        self.start
    }

    pub fn end(&self) -> (r: u8)
        ensures
            r == self@.1,
            r <= MIDI_NOTE_COUNT,
    {
        proof {
            use_type_invariant(self);
        }
        self.end
    }

    pub fn range(&self) -> (r: std::ops::Range<u8>)
        ensures
            r.start == self@.0,
            r.end == self@.1,
    {
        self.start..self.end
    }

    pub fn contains(&self, item: u8) -> (b: bool)
        ensures
            b == (self@.0 <= item && item < self@.1),
    {
        self.start <= item && item < self.end
    }

    pub fn count(&self) -> (c: usize)
        ensures
            c == key_seq(self@.0 as int, self@.1 as int).len(),
    {
        proof {
            use_type_invariant(self);
        }
        self.keys.len()
    }

    pub fn white_count(&self) -> (c: usize)
        ensures
            c == white_key_seq(self@.0 as int, self@.1 as int).len(),
    {
        proof {
            use_type_invariant(self);
        }
        self.white_keys.len()
    }

    pub fn black_count(&self) -> (c: usize)
        ensures
            c == black_key_seq(self@.0 as int, self@.1 as int).len(),
    {
        proof {
            use_type_invariant(self);
        }
        self.black_keys.len()
    }

    /// The keys of the range, in ascending order.
    pub fn keys(&self) -> (r: &[KeyId])
        ensures
            r@ == key_seq(self@.0 as int, self@.1 as int),
    {
        proof {
            use_type_invariant(self);
        }
        self.keys.as_slice()
    }

    /// The white keys of the range, in ascending order.
    pub fn white_keys(&self) -> (r: &[KeyId])
        ensures
            r@ == white_key_seq(self@.0 as int, self@.1 as int),
    {
        proof {
            use_type_invariant(self);
        }
        self.white_keys.as_slice()
    }

    /// The black keys of the range, in ascending order.
    pub fn black_keys(&self) -> (r: &[KeyId])
        ensures
            r@ == black_key_seq(self@.0 as int, self@.1 as int),
    {
        proof {
            use_type_invariant(self);
        }
        self.black_keys.as_slice()
    }

    pub fn iter(&self) -> (it: std::slice::Iter<'_, KeyId>)
        ensures
            it.remaining().unref() == key_seq(self@.0 as int, self@.1 as int),
    {
        self.keys().iter()
    }

    pub fn white_iter(&self) -> (it: std::slice::Iter<'_, KeyId>)
        ensures
            it.remaining().unref() == white_key_seq(self@.0 as int, self@.1 as int),
    {
        self.white_keys().iter()
    }

    pub fn black_iter(&self) -> (it: std::slice::Iter<'_, KeyId>)
        ensures
            it.remaining().unref() == black_key_seq(self@.0 as int, self@.1 as int),
    {
        self.black_keys().iter()
    }
}

impl Clone for KeyboardRange {
    fn clone(&self) -> (r: Self)
        ensures
            r@ == self@,
    {
        proof {
            use_type_invariant(self);
        }
        KeyboardRange {
            start: self.start,
            end: self.end,
            keys: self.keys.clone(),
            white_keys: self.white_keys.clone(),
            black_keys: self.black_keys.clone(),
        }
    }
}

impl Default for KeyboardRange {
    fn default() -> (r: Self)
        ensures
            r@ == (21u8, 109u8),
    {
        Self::standard_88_keys()
    }
}


/// How many of the notes from `start` to `end` are black keys.
pub open spec fn black_note_count(start: int, end: int) -> int
    decreases end - start,
{
    if end <= start {
        0
    } else {
        black_note_count(start, end - 1) + if is_black_note(end - 1) {
            1int
        } else {
            0int
        }
    }
}

/// The white and the black keys of a range together are all of its keys,
/// and the black keys are counted by `black_note_count`.
pub proof fn lemma_colour_counts(start: int, end: int)
    requires
        0 <= start,
        end < 256,
    ensures
        white_key_seq(start, end).len() + black_key_seq(start, end).len() == key_seq(start, end).len(),
        black_key_seq(start, end).len() == black_note_count(start, end),
    decreases end - start,
{
    if end <= start {
        assert(key_seq(start, end) =~= Seq::<KeyId>::empty());
        reveal_with_fuel(Seq::<_>::filter, 1);
    } else {
        lemma_colour_counts(start, end - 1);
        lemma_key_seq_push(start, end - 1);
    }
}

/// Every key of a keyboard range is either white or black: its white and
/// black keys together are as many as all of its keys.
pub proof fn law_white_and_black_keys_partition_the_range(r: KeyboardRange)
    ensures
        white_key_seq(r@.0 as int, r@.1 as int).len() + black_key_seq(r@.0 as int, r@.1 as int).len()
            == key_seq(r@.0 as int, r@.1 as int).len(),
{
    lemma_colour_counts(r@.0 as int, r@.1 as int);
}

/// A standard piano has 88 keys: 52 white and 36 black.
pub proof fn law_standard_piano_has_52_white_and_36_black_keys()
    ensures
        key_seq(21, 109).len() == 88,
        white_key_seq(21, 109).len() == 52,
        black_key_seq(21, 109).len() == 36,
{
    lemma_colour_counts(21, 109);
    reveal_with_fuel(black_note_count, 90);
}

} // verus!
