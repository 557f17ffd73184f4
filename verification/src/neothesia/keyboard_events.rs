//! How MIDI notes light up the keys of the on-screen keyboard.
use vstd::prelude::*;
use crate::piano_layout::KeyboardRange;

verus! {

/// The state of one on-screen key: held by the user, and held by the song
/// with the colour index of its track.
#[derive(Debug, Clone, Copy, PartialEq, Eq, Structural)]
pub struct KeyState {
    pub pressed_by_user: bool,
    pub pressed_by_file: Option<usize>,
}

/// The keys of an on-screen keyboard: one state per note of its range, and
/// whether the drawing must be uploaded again.
#[derive(Debug)]
pub struct KeyboardKeys {
    pub range: KeyboardRange,
    pub key_states: Vec<KeyState>,
    pub needs_reupload: bool,
}

/// A note from the user's MIDI input.
#[derive(Debug, Clone, Copy, PartialEq, Eq, Structural)]
pub enum MidiEvent {
    NoteOn { key: u8 },
    NoteOff { key: u8 },
}

/// A note event of the song.
#[derive(Debug, Clone, Copy, PartialEq, Eq, Structural)]
pub struct FileNoteEvent {
    pub key: u8,
    pub is_on: bool,
    pub channel: u8,
    pub track_color_id: usize,
}

/// The MIDI channel of drums, which the keyboard does not show.
pub const DRUM_CHANNEL: u8 = 9;

/// The number of notes from `start` to `end`; none when `start > end`.
pub open spec fn note_count(range: (u8, u8)) -> int {
    if range.0 <= range.1 {
        range.1 - range.0
    } else {
        0
    }
}

/// Whether the keys have one state per note of the range.
pub open spec fn keys_match_range(k: &KeyboardKeys) -> bool {
    k.key_states.len() == note_count(k.range@)
}

impl KeyboardKeys {
    /// All keys of the range released.
    pub fn new(range: KeyboardRange) -> (k: Self)
        ensures
            k.range@ == range@,
            keys_match_range(&k),
            forall|i: int|
                0 <= i < k.key_states.len() ==> #[trigger] k.key_states[i] == (KeyState {
                    pressed_by_user: false,
                    pressed_by_file: None,
                }),
            !k.needs_reupload,
    {
        let mut key_states: Vec<KeyState> = Vec::new();
        let start = range.start();
        let end = range.end();
        if start <= end {
            let mut i: u8 = start;
            while i < end
                invariant
                    start <= i <= end,
                    key_states.len() == i - start,
                    forall|j: int|
                        0 <= j < key_states.len() ==> #[trigger] key_states[j] == (KeyState {
                            pressed_by_user: false,
                            pressed_by_file: None,
                        }),
                decreases end - i,
            {
                key_states.push(KeyState { pressed_by_user: false, pressed_by_file: None });
                i = i + 1;
            }
        }
        KeyboardKeys { range, key_states, needs_reupload: false }
    }
}

/// A note from the user presses or releases its key, when the keyboard
/// shows it.
pub fn user_midi_event(keyboard: &mut KeyboardKeys, event: &MidiEvent)
    requires
        keys_match_range(old(keyboard)),
    ensures
        final(keyboard).range@ == old(keyboard).range@,
        ({
            let (is_on, key) = match *event {
                MidiEvent::NoteOn { key } => (true, key),
                MidiEvent::NoteOff { key } => (false, key),
            };
            if old(keyboard).range@.0 <= key < old(keyboard).range@.1 {
                let id = key - old(keyboard).range@.0;
                &&& final(keyboard).key_states@ == old(keyboard).key_states@.update(
                    id,
                    KeyState { pressed_by_user: is_on, ..old(keyboard).key_states@[id] },
                )
                &&& final(keyboard).needs_reupload
            } else {
                &&& final(keyboard).key_states@ == old(keyboard).key_states@
                &&& final(keyboard).needs_reupload == old(keyboard).needs_reupload
            }
        }),
{
    let range_start = keyboard.range.start() as usize;
    let (is_on, key) = match event {
        MidiEvent::NoteOn { key } => (true, *key),
        MidiEvent::NoteOff { key } => (false, *key),
    };
    if keyboard.range.contains(key) {
        let id = key as usize - range_start;
        let mut state = keyboard.key_states[id];
        state.pressed_by_user = is_on;
        keyboard.key_states.set(id, state);
        keyboard.needs_reupload = true;
    }
}

/// The state of a key after a song event: a note on holds it with the
/// colour of the event's track (the colour schema has `colors` entries), a
/// note off releases it.
pub open spec fn file_key_state(s: KeyState, e: FileNoteEvent, colors: usize) -> KeyState {
    if e.is_on {
        KeyState { pressed_by_file: Some((e.track_color_id % colors) as usize), ..s }
    } else {
        KeyState { pressed_by_file: None, ..s }
    }
}

/// Whether a song event shows on a keyboard of range `range`: its note is in
/// the range and it is not a drum.
pub open spec fn shows_on_keyboard(e: FileNoteEvent, range: (u8, u8)) -> bool {
    range.0 <= e.key < range.1 && e.channel != DRUM_CHANNEL
}

/// The key states after the song events `events`, in order.
pub open spec fn after_file_events(states: Seq<KeyState>, range: (u8, u8), events: Seq<FileNoteEvent>, colors: usize) -> Seq<KeyState>
    decreases events.len(),
{
    if events.len() == 0 {
        states
    } else {
        let before = after_file_events(states, range, events.drop_last(), colors);
        let e = events.last();
        if shows_on_keyboard(e, range) {
            let id = e.key - range.0;
            before.update(id, file_key_state(before[id], e, colors))
        } else {
            before
        }
    }
}

/// The song events press and release their keys, in order; drums and notes
/// off the keyboard are skipped.
pub fn file_midi_events(keyboard: &mut KeyboardKeys, color_count: usize, events: &[FileNoteEvent])
    requires
        keys_match_range(old(keyboard)),
        color_count > 0 || forall|i: int|
            0 <= i < events.len() ==> !(#[trigger] events[i].is_on && shows_on_keyboard(
                events[i],
                old(keyboard).range@,
            )),
    ensures
        final(keyboard).range@ == old(keyboard).range@,
        keys_match_range(final(keyboard)),
        final(keyboard).key_states@ == after_file_events(
            old(keyboard).key_states@,
            old(keyboard).range@,
            events@,
            color_count,
        ),
        final(keyboard).needs_reupload == (old(keyboard).needs_reupload || exists|i: int|
            0 <= i < events.len() && shows_on_keyboard(#[trigger] events[i], old(keyboard).range@)),
{
    let range_start = keyboard.range.start() as usize;
    let ghost start_states = keyboard.key_states@;
    let ghost start_reupload = keyboard.needs_reupload;
    let mut i: usize = 0;
    while i < events.len()
        invariant
            i <= events.len(),
            keys_match_range(keyboard),
            keyboard.range@ == old(keyboard).range@,
            range_start == keyboard.range@.0,
            color_count > 0 || forall|j: int|
                0 <= j < events.len() ==> !(#[trigger] events[j].is_on && shows_on_keyboard(
                    events[j],
                    keyboard.range@,
                )),
            start_states == old(keyboard).key_states@,
            start_reupload == old(keyboard).needs_reupload,
            keyboard.key_states@ == after_file_events(start_states, keyboard.range@, events@.take(i as int), color_count),
            keyboard.needs_reupload == (start_reupload || exists|j: int|
                0 <= j < i && shows_on_keyboard(#[trigger] events[j], keyboard.range@)),
        decreases events.len() - i,
    {
        let e = events[i];
        proof {
            assert(events@.take(i + 1).drop_last() =~= events@.take(i as int));
            assert(events@.take(i + 1).last() == e);
        }
        if keyboard.range.contains(e.key) && e.channel != DRUM_CHANNEL {
            let id = e.key as usize - range_start;
            let mut state = keyboard.key_states[id];
            if e.is_on {
                state.pressed_by_file = Some(e.track_color_id % color_count);
            } else {
                state.pressed_by_file = None;
            }
            keyboard.key_states.set(id, state);
            keyboard.needs_reupload = true;
        }
        i = i + 1;
    }
    proof {
        assert(events@.take(events.len() as int) =~= events@);
    }
}


/// Song events never touch the user's hold of a key: whatever the song
/// presses or releases, every key stays held by the user exactly as before,
/// and no key is added or lost. (The states are those of a keyboard: one
/// per note of its range.)
pub proof fn law_song_events_keep_user_holds(states: Seq<KeyState>, range: (u8, u8), events: Seq<FileNoteEvent>, colors: usize)
    requires
        states.len() == note_count(range),
    ensures
        after_file_events(states, range, events, colors).len() == states.len(),
        forall|i: int|
            0 <= i < states.len() ==> (#[trigger] after_file_events(states, range, events, colors)[i]).pressed_by_user
                == states[i].pressed_by_user,
    decreases events.len(),
{
    if events.len() > 0 {
        law_song_events_keep_user_holds(states, range, events.drop_last(), colors);
        let before = after_file_events(states, range, events.drop_last(), colors);
        let e = events.last();
        if shows_on_keyboard(e, range) {
            let id = e.key - range.0;
            assert(0 <= id < before.len());
            assert forall|i: int| 0 <= i < states.len() implies (#[trigger] after_file_events(
                states,
                range,
                events,
                colors,
            )[i]).pressed_by_user == states[i].pressed_by_user by {
                assert(before[i].pressed_by_user == states[i].pressed_by_user);
            }
        }
    }
}

} // verus!
