//! Play-along scoring: which notes the song waits for, which notes the user
//! pressed ahead of the song, and how early or late each press was.
use std::collections::{HashMap, HashSet};
use std::time::Instant;
use crate::neothesia::clock::{clock_now, nanos_since};
use vstd::prelude::*;
use crate::piano_layout::KeyboardRange;

verus! {

broadcast use vstd::std_specs::hash::group_hash_axioms;

/// Who played a note: the song file or the user at the keyboard.
#[derive(Debug, Clone, Copy, PartialEq, Eq, Structural)]
pub enum MidiEventSource {
    File,
    User,
}

/// The part of a MIDI channel message that play-along reads.
#[derive(Debug, Clone, Copy, PartialEq, Eq, Structural)]
pub enum NoteMessage {
    NoteOn { key: u8 },
    NoteOff { key: u8 },
    Other,
}

pub type NoteId = u8;

/// How long a user press waits for the song to ask for its note before it
/// counts as a wrong note, in nanoseconds (500 ms).
pub const PRESS_EXPIRY_NANOS: u64 = 500_000_000;
/// A press earlier than this is too early, in nanoseconds (500 ms).
pub const TOO_EARLY_NANOS: u64 = 500_000_000;
/// A press later than this is too late, in nanoseconds (160 ms, to forgive
/// touching the bottom).
pub const TOO_LATE_NANOS: u64 = 160_000_000;

/// The number of deltas in `events` above `threshold`.
pub open spec fn count_over(events: Seq<u64>, threshold: u64) -> nat
    decreases events.len(),
{
    if events.len() == 0 {
        0
    } else {
        count_over(events.drop_last(), threshold) + if events.last() > threshold {
            1nat
        } else {
            0nat
        }
    }
}

/// The timing record of a play-along session; times in nanoseconds.
#[derive(Debug)]
pub struct PlayerStats {
    /// User notes that expired, or were simply wrong.
    pub wrong_notes: usize,
    /// How early each note played ahead of the song was.
    pub played_early: Vec<u64>,
    /// How late each note the song waited for was.
    pub played_late: Vec<u64>,
}

impl PlayerStats {
    pub fn new() -> (s: Self)
        ensures
            s.wrong_notes == 0,
            s.played_early@.len() == 0,
            s.played_late@.len() == 0,
    {
        PlayerStats { wrong_notes: 0, played_early: Vec::new(), played_late: Vec::new() }
    }

    pub fn count_too_early(&self) -> (n: usize)
        ensures
            n == count_over(self.played_early@, TOO_EARLY_NANOS),
    {
        Self::count_with_threshold(self.played_early.as_slice(), TOO_EARLY_NANOS)
    }

    pub fn count_too_late(&self) -> (n: usize)
        ensures
            n == count_over(self.played_late@, TOO_LATE_NANOS),
    {
        Self::count_with_threshold(self.played_late.as_slice(), TOO_LATE_NANOS)
    }

    pub fn count_with_threshold(events: &[u64], threshold: u64) -> (n: usize)
        ensures
            n == count_over(events@, threshold),
    {
        let mut n: usize = 0;
        let mut i: usize = 0;
        while i < events.len()
            invariant
                i <= events.len(),
                n == count_over(events@.take(i as int), threshold),
                n <= i,
            decreases events.len() - i,
        {
            proof {
                assert(events@.take(i + 1).drop_last() =~= events@.take(i as int));
            }
            if events[i] > threshold {
                n = n + 1;
            }
            i = i + 1;
        }
        proof {
            assert(events@.take(events.len() as int) =~= events@);
        }
        n
    }
}

/// The abstract state of play-along: the keyboard range the user plays on,
/// the notes the song waits for and when it started waiting, the notes the
/// user pressed recently and when, the song notes that are sounding, and
/// the statistics.
#[verifier::ext_equal]
pub struct PlayAlongView {
    pub range: (u8, u8),
    pub required: Map<u8, u64>,
    pub recent: Map<u8, u64>,
    pub in_progress: Set<u8>,
    pub wrong_notes: int,
    pub played_early: Seq<u64>,
    pub played_late: Seq<u64>,
}

/// The time from `then` to `now`, zero when `now` is earlier.
pub open spec fn elapsed(now: u64, then: u64) -> u64 {
    if now >= then {
        (now - then) as u64
    } else {
        0
    }
}

/// A user press at `now`: it satisfies the song's wait for that note,
/// recording how late it came, or else waits among the recent presses
/// (replacing an earlier press of the same note counts a wrong note).
pub open spec fn user_press_step(v: PlayAlongView, note: u8, active: bool, now: u64) -> PlayAlongView {
    if !active {
        v
    } else if v.required.contains_key(note) {
        PlayAlongView {
            required: v.required.remove(note),
            played_late: v.played_late.push(elapsed(now, v.required[note])),
            ..v
        }
    } else {
        PlayAlongView {
            recent: v.recent.insert(note, now),
            wrong_notes: v.wrong_notes + if v.recent.contains_key(note) { 1int } else { 0int },
            ..v
        }
    }
}

/// A song note at `now`: a note the user pressed recently counts as played
/// early; otherwise the song waits for it, unless the same note is still
/// sounding. A song note off ends its sounding.
pub open spec fn file_press_step(v: PlayAlongView, note: u8, active: bool, now: u64) -> PlayAlongView {
    if !active {
        PlayAlongView { in_progress: v.in_progress.remove(note), ..v }
    } else if v.recent.contains_key(note) {
        PlayAlongView {
            recent: v.recent.remove(note),
            played_early: v.played_early.push(elapsed(now, v.recent[note])),
            in_progress: v.in_progress.insert(note),
            ..v
        }
    } else if v.in_progress.contains(note) {
        v
    } else {
        PlayAlongView {
            required: v.required.insert(note, now),
            in_progress: v.in_progress.insert(note),
            ..v
        }
    }
}

/// A press from either source; notes outside the user's keyboard range are
/// ignored.
pub open spec fn press_step(v: PlayAlongView, src: MidiEventSource, note: u8, active: bool, now: u64) -> PlayAlongView {
    if !(v.range.0 <= note && note < v.range.1) {
        v
    } else {
        match src {
            MidiEventSource::User => user_press_step(v, note, active, now),
            MidiEventSource::File => file_press_step(v, note, active, now),
        }
    }
}

/// A MIDI message from a source: note on presses, note off releases,
/// anything else changes nothing.
pub open spec fn message_step(v: PlayAlongView, src: MidiEventSource, message: NoteMessage, now: u64) -> PlayAlongView {
    match message {
        NoteMessage::NoteOn { key } => press_step(v, src, key, true, now),
        NoteMessage::NoteOff { key } => press_step(v, src, key, false, now),
        NoteMessage::Other => v,
    }
}

/// The recent presses that are still fresh at `now`.
pub open spec fn fresh_presses(recent: Map<u8, u64>, now: u64) -> Map<u8, u64> {
    recent.restrict(Set::new(|k: u8| recent.contains_key(k) && elapsed(now, recent[k]) <= PRESS_EXPIRY_NANOS))
}

/// Ages the recent presses: those older than the expiry are dropped and each
/// counts as a wrong note.
pub open spec fn update_step(v: PlayAlongView, now: u64) -> PlayAlongView {
    PlayAlongView {
        recent: fresh_presses(v.recent, now),
        wrong_notes: v.wrong_notes + v.recent.len() - fresh_presses(v.recent, now).len(),
        ..v
    }
}

/// The play-along state of a song.
#[derive(Debug)]
pub struct PlayAlong {
    clock_origin: Instant,
    user_keyboard_range: KeyboardRange,
    required_notes: HashMap<NoteId, u64>,
    user_pressed_recently: HashMap<NoteId, u64>,
    in_proggres_file_notes: HashSet<NoteId>,
    stats: PlayerStats,
}

impl View for PlayAlong {
    type V = PlayAlongView;

    closed spec fn view(&self) -> PlayAlongView {
        PlayAlongView {
            range: self.user_keyboard_range@,
            required: self.required_notes@,
            recent: self.user_pressed_recently@,
            in_progress: self.in_proggres_file_notes@,
            wrong_notes: self.stats.wrong_notes as int,
            played_early: self.stats.played_early@,
            played_late: self.stats.played_late@,
        }
    }
}


impl PlayAlong {
    pub fn new(user_keyboard_range: KeyboardRange) -> (p: Self)
        ensures
            p@.range == user_keyboard_range@,
            p@.required == Map::<u8, u64>::empty(),
            p@.recent == Map::<u8, u64>::empty(),
            p@.in_progress == Set::<u8>::empty(),
            p@.wrong_notes == 0,
            p@.played_early.len() == 0,
            p@.played_late.len() == 0,
    {
        PlayAlong {
            clock_origin: clock_now(),
            user_keyboard_range,
            required_notes: HashMap::new(),
            user_pressed_recently: HashMap::new(),
            in_proggres_file_notes: HashSet::new(),
            stats: PlayerStats::new(),
        }
    }

    /// The statistics of the session.
    pub fn stats(&self) -> (s: &PlayerStats)
        ensures
            s.wrong_notes == self@.wrong_notes,
            s.played_early@ == self@.played_early,
            s.played_late@ == self@.played_late,
    {
        &self.stats
    }

    /// Ages the recent presses at time `now` (nanoseconds on the session's
    /// clock).
    pub fn update_at(&mut self, now: u64)
        requires
            update_step(old(self)@, now).wrong_notes <= usize::MAX,
        ensures
            final(self)@ == update_step(old(self)@, now),
    {
        let ghost old_recent = self.user_pressed_recently@;
        let count_before = self.user_pressed_recently.len();
        let mut k: u16 = 0;
        while k < 256
            invariant
                k <= 256,
                count_before == old_recent.len(),
                self.user_pressed_recently@ == old_recent.restrict(
                    Set::new(|x: u8| old_recent.contains_key(x) && (x < k ==> elapsed(now, old_recent[x]) <= PRESS_EXPIRY_NANOS)),
                ),
                self.user_keyboard_range == old(self).user_keyboard_range,
                self.required_notes == old(self).required_notes,
                self.in_proggres_file_notes == old(self).in_proggres_file_notes,
                self.stats == old(self).stats,
            decreases 256 - k,
        {
            let key = k as u8;
            let expired = match self.user_pressed_recently.get(&key) {
                Some(timestamp) => now >= *timestamp && now - *timestamp > PRESS_EXPIRY_NANOS,
                None => false,
            };
            if expired {
                self.user_pressed_recently.remove(&key);
            }
            proof {
                assert(self.user_pressed_recently@ =~= old_recent.restrict(
                    Set::new(|x: u8| old_recent.contains_key(x) && (x < k + 1 ==> elapsed(now, old_recent[x]) <= PRESS_EXPIRY_NANOS)),
                ));
            }
            k = k + 1;
        }
        proof {
            assert(self.user_pressed_recently@ =~= fresh_presses(old_recent, now));
            vstd::set_lib::lemma_len_subset(self.user_pressed_recently@.dom(), old_recent.dom());
        }
        let count_after = self.user_pressed_recently.len();
        self.stats.wrong_notes = self.stats.wrong_notes + (count_before - count_after);
    }

    fn user_press_key(&mut self, note_id: u8, active: bool, now: u64)
        requires
            user_press_step(old(self)@, note_id, active, now).wrong_notes <= usize::MAX,
        ensures
            final(self)@ == user_press_step(old(self)@, note_id, active, now),
    {
        if active {
            // A note the song already waits for is satisfied late.
            match self.required_notes.remove(&note_id) {
                Some(required_at) => {
                    let late = if now >= required_at { now - required_at } else { 0 };
                    self.stats.played_late.push(late);
                },
                None => {
                    // Not asked for yet: it waits among the recent presses.
                    let got_replaced = self.user_pressed_recently.insert(note_id, now).is_some();
                    if got_replaced {
                        self.stats.wrong_notes = self.stats.wrong_notes + 1;
                    }
                },
            }
        }
        proof {
            assert(self@ =~= user_press_step(old(self)@, note_id, active, now));
        }
    }

    fn file_press_key(&mut self, note_id: u8, active: bool, now: u64)
        ensures
            final(self)@ == file_press_step(old(self)@, note_id, active, now),
    {
        if active {
            match self.user_pressed_recently.remove(&note_id) {
                Some(pressed_at) => {
                    let early = if now >= pressed_at { now - pressed_at } else { 0 };
                    self.stats.played_early.push(early);
                },
                None => {
                    // Overlapping song notes are ignored.
                    if self.in_proggres_file_notes.contains(&note_id) {
                        proof {
                            assert(self@ =~= file_press_step(old(self)@, note_id, active, now));
                        }
                        return;
                    }
                    self.required_notes.insert(note_id, now);
                },
            }
            self.in_proggres_file_notes.insert(note_id);
        } else {
            self.in_proggres_file_notes.remove(&note_id);
        }
        proof {
            assert(self@ =~= file_press_step(old(self)@, note_id, active, now));
        }
    }

    /// A note pressed or released at time `now` by the user or the song.
    pub fn press_key_at(&mut self, src: MidiEventSource, note_id: u8, active: bool, now: u64)
        requires
            press_step(old(self)@, src, note_id, active, now).wrong_notes <= usize::MAX,
        ensures
            final(self)@ == press_step(old(self)@, src, note_id, active, now),
    {
        if !self.user_keyboard_range.contains(note_id) {
            return;
        }
        match src {
            MidiEventSource::User => self.user_press_key(note_id, active, now),
            MidiEventSource::File => self.file_press_key(note_id, active, now),
        }
    }

    /// A MIDI message at time `now`: note on presses, note off releases,
    /// anything else is ignored.
    pub fn midi_event_at(&mut self, source: MidiEventSource, message: &NoteMessage, now: u64)
        requires
            match *message {
                NoteMessage::NoteOn { key } => press_step(old(self)@, source, key, true, now).wrong_notes
                    <= usize::MAX,
                _ => true,
            },
        ensures
            final(self)@ == message_step(old(self)@, source, *message, now),
    {
        match message {
            NoteMessage::NoteOn { key } => self.press_key_at(source, *key, true, now),
            NoteMessage::NoteOff { key } => self.press_key_at(source, *key, false, now),
            NoteMessage::Other => {},
        }
    }

    /// Ages the recent presses at the current time.
    pub fn update(&mut self)
        requires
            old(self)@.wrong_notes + old(self)@.recent.len() <= usize::MAX,
        ensures
            exists|now: u64| final(self)@ == #[trigger] update_step(old(self)@, now),
    {
        let now = nanos_since(&self.clock_origin);
        proof {
            vstd::set_lib::lemma_len_subset(fresh_presses(self@.recent, now).dom(), self@.recent.dom());
        }
        self.update_at(now);
    }

    /// A MIDI message at the current time.
    pub fn midi_event(&mut self, source: MidiEventSource, message: &NoteMessage)
        requires
            match *message {
                NoteMessage::NoteOn { key } => press_step(old(self)@, source, key, true, 0).wrong_notes
                    <= usize::MAX,
                _ => true,
            },
        ensures
            exists|now: u64| final(self)@ == #[trigger] message_step(old(self)@, source, *message, now),
    {
        let now = nanos_since(&self.clock_origin);
        self.midi_event_at(source, message, now);
    }

    /// Forgets the notes waited for, the recent presses and the sounding song
    /// notes; the statistics stay.
    pub fn clear(&mut self)
        ensures
            final(self)@ == (PlayAlongView {
                required: Map::empty(),
                recent: Map::empty(),
                in_progress: Set::empty(),
                ..old(self)@
            }),
    {
        self.required_notes.clear();
        self.user_pressed_recently.clear();
        self.in_proggres_file_notes.clear();
    }

    /// Whether the song waits for no note.
    pub fn are_required_keys_pressed(&self) -> (b: bool)
        ensures
            b == (self@.required.len() == 0),
    {
        self.required_notes.is_empty()
    }
}


/// A press of a note the song waits for, on the user's keyboard, ends the
/// wait and records how late it came.
pub proof fn law_user_press_satisfies_waiting_note(v: PlayAlongView, note: u8, now: u64)
    requires
        v.range.0 <= note < v.range.1,
        v.required.contains_key(note),
    ensures
        !press_step(v, MidiEventSource::User, note, true, now).required.contains_key(note),
        press_step(v, MidiEventSource::User, note, true, now).played_late == v.played_late.push(
            elapsed(now, v.required[note]),
        ),
        press_step(v, MidiEventSource::User, note, true, now).wrong_notes == v.wrong_notes,
{
}

/// A note the user plays ahead of the song is counted early when the song
/// reaches it, and the song does not wait for it.
pub proof fn law_early_press_is_not_waited_for(v: PlayAlongView, note: u8, t_user: u64, t_song: u64)
    requires
        v.range.0 <= note < v.range.1,
        !v.required.contains_key(note),
    ensures
        ({
            let after_user = press_step(v, MidiEventSource::User, note, true, t_user);
            let after_song = press_step(after_user, MidiEventSource::File, note, true, t_song);
            &&& !after_song.required.contains_key(note)
            &&& after_song.played_early == v.played_early.push(elapsed(t_song, t_user))
            &&& after_song.in_progress.contains(note)
            &&& !after_song.recent.contains_key(note)
        }),
{
}

/// A song note the user has not pressed makes the song wait for it, and the
/// user's press then records the lateness.
pub proof fn law_song_note_waits_for_the_user(v: PlayAlongView, note: u8, t_song: u64, t_user: u64)
    requires
        v.range.0 <= note < v.range.1,
        !v.recent.contains_key(note),
        !v.in_progress.contains(note),
    ensures
        ({
            let after_song = press_step(v, MidiEventSource::File, note, true, t_song);
            let after_user = press_step(after_song, MidiEventSource::User, note, true, t_user);
            &&& after_song.required.contains_key(note)
            &&& after_song.required[note] == t_song
            &&& !after_user.required.contains_key(note)
            &&& after_user.played_late == v.played_late.push(elapsed(t_user, t_song))
        }),
{
}

/// Notes outside the user's keyboard range change nothing, from either
/// source.
pub proof fn law_out_of_range_notes_are_ignored(
    v: PlayAlongView,
    src: MidiEventSource,
    note: u8,
    active: bool,
    now: u64,
)
    requires
        !(v.range.0 <= note < v.range.1),
    ensures
        press_step(v, src, note, active, now) == v,
{
}

/// The count of wrong notes never goes down, and the timing records only
/// grow.
pub proof fn law_statistics_only_grow(v: PlayAlongView, src: MidiEventSource, note: u8, active: bool, now: u64)
    requires
        v.recent.dom().finite(),
    ensures
        press_step(v, src, note, active, now).wrong_notes >= v.wrong_notes,
        update_step(v, now).wrong_notes >= v.wrong_notes,
        v.played_early.is_prefix_of(press_step(v, src, note, active, now).played_early),
        v.played_late.is_prefix_of(press_step(v, src, note, active, now).played_late),
{
    vstd::set_lib::lemma_len_subset(fresh_presses(v.recent, now).dom(), v.recent.dom());
}

/// A second song note on a sounding note adds no second wait.
pub proof fn law_overlapping_song_notes_are_ignored(v: PlayAlongView, note: u8, now: u64)
    requires
        v.range.0 <= note < v.range.1,
        !v.recent.contains_key(note),
        v.in_progress.contains(note),
    ensures
        press_step(v, MidiEventSource::File, note, true, now) == v,
{
}


/// The longest `std::time::Duration`, in nanoseconds.
pub const MAX_DURATION_NANOS: u128 = 18_446_744_073_709_551_615_999_999_999;

/// The playback time after rewinding by `delta_ms` milliseconds (backward
/// when negative), saturating at zero and at the longest duration; times in
/// nanoseconds.
pub fn rewind_time(time: u128, delta_ms: i64) -> (t: u128)
    requires
        time <= MAX_DURATION_NANOS,
        delta_ms > i64::MIN,
    ensures
        t == (if time + delta_ms * 1_000_000 < 0 {
            0
        } else if time + delta_ms * 1_000_000 > MAX_DURATION_NANOS {
            MAX_DURATION_NANOS as int
        } else {
            time + delta_ms * 1_000_000
        }),
{
    if delta_ms < 0 {
        let delta = ((-delta_ms) as u128) * 1_000_000;
        if time >= delta {
            time - delta
        } else {
            0
        }
    } else {
        let delta = (delta_ms as u128) * 1_000_000;
        if time <= MAX_DURATION_NANOS - delta {
            time + delta
        } else {
            MAX_DURATION_NANOS
        }
    }
}

/// How a track is played.
#[derive(Debug, Clone, Copy, PartialEq, Eq, Structural)]
pub enum PlayerConfig {
    /// The song plays the track.
    Auto,
    /// The user plays the track; the song sounds it and waits for the user.
    Human,
    /// The track is silent.
    Mute,
}

/// Where a song event goes: the output channel it is sent on, if any, and
/// whether play-along hears it.
#[derive(Debug, Clone, Copy, PartialEq, Eq, Structural)]
pub struct EventRoute {
    pub output_channel: Option<u8>,
    pub to_play_along: bool,
}

/// Routes a song event of a track: an automatic track sounds on its own
/// channel, or on the channel of its colour when channels are separated; a
/// track the user plays sounds on its own channel and goes to play-along; a
/// muted track goes nowhere.
pub fn route_event(player: PlayerConfig, separate_channels: bool, track_color_id: usize, channel: u8) -> (r: EventRoute)
    ensures
        r == (match player {
            PlayerConfig::Auto => EventRoute {
                output_channel: Some(
                    if separate_channels {
                        (track_color_id % 256) as u8
                    } else {
                        channel
                    },
                ),
                to_play_along: false,
            },
            PlayerConfig::Human => EventRoute { output_channel: Some(channel), to_play_along: true },
            PlayerConfig::Mute => EventRoute { output_channel: None, to_play_along: false },
        }),
{
    match player {
        PlayerConfig::Auto => {
            let out = if separate_channels {
                (track_color_id % 256) as u8
            } else {
                channel
            };
            EventRoute { output_channel: Some(out), to_play_along: false }
        },
        PlayerConfig::Human => EventRoute { output_channel: Some(channel), to_play_along: true },
        PlayerConfig::Mute => EventRoute { output_channel: None, to_play_along: false },
    }
}


/// A correct press, of a note the song waits for on the user's keyboard,
/// is only recorded as late: the recent presses stay as they were and no
/// wrong note is counted, neither now nor when the presses are aged later.
pub proof fn law_correct_press_is_never_a_wrong_note(v: PlayAlongView, note: u8, now: u64, later: u64)
    requires
        v.range.0 <= note < v.range.1,
        v.required.contains_key(note),
    ensures
        press_step(v, MidiEventSource::User, note, true, now).recent == v.recent,
        press_step(v, MidiEventSource::User, note, true, now).wrong_notes == v.wrong_notes,
        !press_step(v, MidiEventSource::User, note, true, now).required.contains_key(note),
        press_step(v, MidiEventSource::User, note, true, now).played_late.len() == v.played_late.len() + 1,
        update_step(press_step(v, MidiEventSource::User, note, true, now), later).wrong_notes
            == update_step(v, later).wrong_notes,
{
}

} // verus!
