//! The per-song configuration of tracks and channels.
use vstd::prelude::*;

verus! {

/// How the user takes part on a channel.
#[derive(Debug, Clone, Copy, PartialEq, Eq, Structural)]
pub enum ChannelMode {
    Listen,
    Assist,
    Alone,
}

#[derive(Debug, Clone, Copy, PartialEq, Eq, Structural)]
pub struct ChannelConfig {
    pub channel: u8,
    pub mode: ChannelMode,
    pub active: bool,
}

#[derive(Debug)]
pub struct TrackConfig {
    pub track_id: usize,
    pub channels: Vec<ChannelConfig>,
    pub visible: bool,
}

#[derive(Debug)]
pub struct SongConfig {
    pub tracks: Vec<TrackConfig>,
    pub wait_mode: bool,
}

/// What the configuration reads of a track of the MIDI file: its id,
/// whether it has drum notes and other notes, and the channel of each note.
#[derive(Debug)]
pub struct TrackSummary {
    pub track_id: usize,
    pub has_drums: bool,
    pub has_other_than_drums: bool,
    pub note_channels: Vec<u8>,
}

/// A track of drums alone is hidden; every other track is shown.
pub open spec fn track_visible(t: &TrackSummary) -> bool {
    !(t.has_drums && !t.has_other_than_drums)
}

/// The configuration of a track: one channel entry per channel its notes
/// use, each listened to and active.
pub open spec fn track_config_of(t: &TrackSummary, c: &TrackConfig) -> bool {
    &&& c.track_id == t.track_id
    &&& c.visible == track_visible(t)
    &&& c.channels@.map_values(|ch: ChannelConfig| ch.channel).no_duplicates()
    &&& c.channels@.map_values(|ch: ChannelConfig| ch.channel).to_set() == t.note_channels@.to_set()
    &&& forall|i: int|
        0 <= i < c.channels.len() ==> (#[trigger] c.channels[i]).mode == ChannelMode::Listen
            && c.channels[i].active
}

/// The distinct channels of `notes`, in order of first use.
fn used_channels(notes: &Vec<u8>) -> (channels: Vec<ChannelConfig>)
    ensures
        channels@.map_values(|ch: ChannelConfig| ch.channel).no_duplicates(),
        channels@.map_values(|ch: ChannelConfig| ch.channel).to_set() == notes@.to_set(),
        forall|i: int|
            0 <= i < channels.len() ==> (#[trigger] channels[i]).mode == ChannelMode::Listen
                && channels[i].active,
{
    let mut channels: Vec<ChannelConfig> = Vec::new();
    let mut i: usize = 0;
    while i < notes.len()
        invariant
            i <= notes.len(),
            channels@.map_values(|ch: ChannelConfig| ch.channel).no_duplicates(),
            channels@.map_values(|ch: ChannelConfig| ch.channel).to_set() == notes@.take(i as int).to_set(),
            forall|j: int|
                0 <= j < channels.len() ==> (#[trigger] channels[j]).mode == ChannelMode::Listen
                    && channels[j].active,
        decreases notes.len() - i,
    {
        let channel = notes[i];
        let mut seen = false;
        let mut j: usize = 0;
        while j < channels.len()
            invariant
                j <= channels.len(),
                seen == exists|k: int| 0 <= k < j && (#[trigger] channels[k]).channel == channel,
            decreases channels.len() - j,
        {
            if channels[j].channel == channel {
                seen = true;
            }
            j = j + 1;
        }
        let ghost before = channels@.map_values(|ch: ChannelConfig| ch.channel);
        if !seen {
            channels.push(ChannelConfig { channel, mode: ChannelMode::Listen, active: true });
            proof {
                assert(channels@.map_values(|ch: ChannelConfig| ch.channel) =~= before.push(channel));
                assert(!before.contains(channel)) by {
                    if before.contains(channel) {
                        let k = choose|k: int| 0 <= k < before.len() && before[k] == channel;
                        assert(channels[k].channel == channel);
                    }
                }
            }
        } else {
            proof {
                let k = choose|k: int| 0 <= k < j && (#[trigger] channels[k]).channel == channel;
                assert(before[k] == channel);
                assert(before.to_set().contains(channel));
            }
        }
        proof {
            assert(notes@.take(i + 1) =~= notes@.take(i as int).push(channel));
            notes@.take(i as int).lemma_push_to_set_commute(channel);
            before.lemma_push_to_set_commute(channel);
            assert(channels@.map_values(|ch: ChannelConfig| ch.channel).to_set() =~= notes@.take(i + 1).to_set());
        }
        i = i + 1;
    }
    proof {
        assert(notes@.take(notes.len() as int) =~= notes@);
    }
    channels
}

impl SongConfig {
    /// One track configuration per track of the file, in order.
    pub fn new(tracks: &[TrackSummary]) -> (c: Self)
        ensures
            c.tracks.len() == tracks.len(),
            forall|i: int| 0 <= i < tracks.len() ==> track_config_of(&tracks[i], &#[trigger] c.tracks[i]),
            !c.wait_mode,
    {
        let mut configs: Vec<TrackConfig> = Vec::new();
        let mut i: usize = 0;
        while i < tracks.len()
            invariant
                i <= tracks.len(),
                configs.len() == i,
                forall|j: int| 0 <= j < i ==> track_config_of(&tracks[j], &#[trigger] configs[j]),
            decreases tracks.len() - i,
        {
            let t = &tracks[i];
            let is_drums = t.has_drums && !t.has_other_than_drums;
            let channels = used_channels(&t.note_channels);
            configs.push(TrackConfig { track_id: t.track_id, channels, visible: !is_drums });
            i = i + 1;
        }
        SongConfig { tracks: configs, wait_mode: false }
    }

    /// The ids of the hidden tracks, in track order.
    pub fn hidden_tracks(&self) -> (ids: Vec<usize>)
        ensures
            ids@ == self.tracks@.filter(|t: TrackConfig| !t.visible).map_values(|t: TrackConfig| t.track_id),
    {
        let mut ids: Vec<usize> = Vec::new();
        let mut i: usize = 0;
        while i < self.tracks.len()
            invariant
                i <= self.tracks.len(),
                ids@ == self.tracks@.take(i as int).filter(|t: TrackConfig| !t.visible).map_values(
                    |t: TrackConfig| t.track_id,
                ),
            decreases self.tracks.len() - i,
        {
            proof {
                assert(self.tracks@.take(i + 1).drop_last() =~= self.tracks@.take(i as int));
                reveal_with_fuel(Seq::<_>::filter, 1);
            }
            if !self.tracks[i].visible {
                ids.push(self.tracks[i].track_id);
            }
            proof {
                assert(ids@ =~= self.tracks@.take(i + 1).filter(|t: TrackConfig| !t.visible).map_values(
                    |t: TrackConfig| t.track_id,
                ));
            }
            i = i + 1;
        }
        proof {
            assert(self.tracks@.take(self.tracks.len() as int) =~= self.tracks@);
        }
        ids
    }
}

/// Whether the score shows a track: it is not hidden, and it is not a track
/// of drums alone.
pub fn shows_on_score(track_id: usize, hidden_tracks: &[usize], has_drums: bool, has_other_than_drums: bool) -> (b: bool)
    ensures
        b == (!hidden_tracks@.contains(track_id) && !(has_drums && !has_other_than_drums)),
{
    let mut hidden = false;
    let mut i: usize = 0;
    while i < hidden_tracks.len()
        invariant
            i <= hidden_tracks.len(),
            hidden == exists|k: int| 0 <= k < i && hidden_tracks@[k] == track_id,
        decreases hidden_tracks.len() - i,
    {
        if hidden_tracks[i] == track_id {
            hidden = true;
        }
        i = i + 1;
    }
    !hidden && !(has_drums && !has_other_than_drums)
}

} // verus!
