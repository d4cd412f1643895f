use vstd::prelude::*;

verus! {

/// A track of the playback queue.
#[derive(Debug, Clone)]
pub struct Track {
    pub title: String,
    pub artist: String,
    pub cover_url: Option<String>,
    /// Length of the track, in milliseconds.
    pub duration_ms: u64,
}

/// The playlist a queue was started from.
#[derive(Debug, Clone)]
pub struct Playlist {
    pub id: String,
    pub name: String,
}

/// Information about the playing track, for display.
#[derive(Debug, Clone)]
pub struct NowPlayingInfo {
    pub track_title: String,
    pub artist_name: String,
    pub cover_url: Option<String>,
}

/// The display information of a track.
pub open spec fn info_of(t: Track) -> NowPlayingInfo {
    NowPlayingInfo { track_title: t.title, artist_name: t.artist, cover_url: t.cover_url }
}

impl NowPlayingInfo {
    /// The display information of a track.
    pub fn from_track(track: &Track) -> (i: NowPlayingInfo)
        ensures
            i == info_of(*track),
    {
        NowPlayingInfo {
            track_title: track.title.clone(),
            artist_name: track.artist.clone(),
            cover_url: track.cover_url.clone(),
        }
    }
}

/// State of the playback buttons.
#[derive(Debug, Clone, Copy, Default, PartialEq, Eq, Structural)]
pub struct PlaybackControls {
    /// Whether audio is playing.
    pub is_playing: bool,
    /// Whether there is a previous track to go back to.
    pub has_previous: bool,
    /// Whether there is a next track to go on to.
    pub has_next: bool,
}

/// The playback position and length, in milliseconds.
#[derive(Debug, Clone, Copy, Default, PartialEq, Eq, Structural)]
pub struct ProgressSlider {
    pub current_time_ms: u64,
    pub total_duration_ms: u64,
    /// Whether the user is dragging the slider.
    pub is_dragging: bool,
}

/// The track at the current position of a queue, if the position is in it.
pub open spec fn track_at(queue: Seq<Track>, index: Option<usize>) -> Option<Track> {
    match index {
        Some(i) => if i < queue.len() {
            Some(queue[i as int])
        } else {
            None
        },
        None => None,
    }
}

/// Whether there is a track before the current position.
pub open spec fn has_previous_at(index: Option<usize>) -> bool {
    index matches Some(i) && i > 0
}

/// Whether there is a track after the current position.
pub open spec fn has_next_at(queue_len: nat, index: Option<usize>) -> bool {
    index matches Some(i) && i + 1 < queue_len
}

/// The player's state: the queue, the position in it, what is playing and
/// the state of the controls.
#[derive(Debug, Clone, Default)]
pub struct PlayerState {
    pub now_playing: Option<NowPlayingInfo>,
    pub playback: PlaybackControls,
    pub progress: ProgressSlider,
    pub queue: Vec<Track>,
    pub current_index: Option<usize>,
    pub current_playlist: Option<Playlist>,
}

impl PlayerState {
    /// The consistency that every operation keeps: the position is in the
    /// queue, the displayed track is the one at the position, and the
    /// previous/next buttons match the position.
    pub open spec fn wf(&self) -> bool {
        &&& (self.current_index matches Some(i) ==> i < self.queue@.len())
        &&& self.now_playing == match track_at(self.queue@, self.current_index) {
            Some(t) => Some(info_of(t)),
            None => None,
        }
        &&& self.playback.has_previous == has_previous_at(self.current_index)
        &&& self.playback.has_next == has_next_at(self.queue@.len(), self.current_index)
    }

    /// An empty player: nothing queued, nothing playing.
    pub fn new() -> (s: PlayerState)
        ensures
            s.wf(),
            s.queue@.len() == 0,
            s.current_index is None,
            s.current_playlist is None,
            s.now_playing is None,
            !s.playback.is_playing,
            !s.playback.has_previous,
            !s.playback.has_next,
            s.progress.current_time_ms == 0,
            s.progress.total_duration_ms == 0,
            !s.progress.is_dragging,
    {
        PlayerState {
            now_playing: None,
            playback: PlaybackControls { is_playing: false, has_previous: false, has_next: false },
            progress: ProgressSlider { current_time_ms: 0, total_duration_ms: 0, is_dragging: false },
            queue: Vec::new(),
            current_index: None,
            current_playlist: None,
        }
    }

    /// Whether a playlist is being played.
    pub fn has_active_playlist(&self) -> (b: bool)
        ensures
            b == self.current_playlist is Some,
    {
        self.current_playlist.is_some()
    }

    /// The track at the current position.
    pub fn current_track(&self) -> (t: Option<&Track>)
        ensures
            match t {
                Some(r) => track_at(self.queue@, self.current_index) == Some(*r),
                None => track_at(self.queue@, self.current_index) is None,
            },
    {
        match self.current_index {
            Some(i) => if i < self.queue.len() {
                Some(&self.queue[i])
            } else {
                None
            },
            None => None,
        }
    }

    fn update_now_playing(&mut self)
        ensures
            final(self).now_playing == match track_at(old(self).queue@, old(self).current_index) {
                Some(t) => Some(info_of(t)),
                None => None,
            },
            final(self).queue == old(self).queue,
            final(self).current_index == old(self).current_index,
            final(self).playback == old(self).playback,
            final(self).progress == old(self).progress,
            final(self).current_playlist == old(self).current_playlist,
    {
        let info = match self.current_track() {
            Some(t) => Some(NowPlayingInfo::from_track(t)),
            None => None,
        };
        self.now_playing = info;
    }

    fn update_navigation_state(&mut self)
        ensures
            final(self).playback.has_previous == has_previous_at(old(self).current_index),
            final(self).playback.has_next == has_next_at(
                old(self).queue@.len(),
                old(self).current_index,
            ),
            final(self).playback.is_playing == old(self).playback.is_playing,
            final(self).queue == old(self).queue,
            final(self).current_index == old(self).current_index,
            final(self).now_playing == old(self).now_playing,
            final(self).progress == old(self).progress,
            final(self).current_playlist == old(self).current_playlist,
    {
        match self.current_index {
            Some(i) => {
                self.playback.has_previous = i > 0;
                self.playback.has_next = i < self.queue.len() && i + 1 < self.queue.len();
            },
            None => {
                self.playback.has_previous = false;
                self.playback.has_next = false;
            },
        }
    }

    fn reset_progress(&mut self)
        ensures
            final(self).progress.current_time_ms == 0,
            !final(self).progress.is_dragging,
            final(self).progress.total_duration_ms == match track_at(
                old(self).queue@,
                old(self).current_index,
            ) {
                Some(t) => t.duration_ms,
                None => old(self).progress.total_duration_ms,
            },
            final(self).queue == old(self).queue,
            final(self).current_index == old(self).current_index,
            final(self).now_playing == old(self).now_playing,
            final(self).playback == old(self).playback,
            final(self).current_playlist == old(self).current_playlist,
    {
        self.progress.current_time_ms = 0;
        self.progress.is_dragging = false;
        let total = match self.current_track() {
            Some(t) => t.duration_ms,
            None => self.progress.total_duration_ms,
        };
        self.progress.total_duration_ms = total;
    }

    /// Starts playing a playlist from the beginning: the first track, at
    /// position zero.
    pub fn play_playlist(&mut self, playlist: Playlist, tracks: Vec<Track>)
        ensures
            final(self).wf(),
            final(self).current_playlist == Some(playlist),
            final(self).queue == tracks,
            final(self).current_index == (if tracks@.len() == 0 {
                None::<usize>
            } else {
                Some(0usize)
            }),
            final(self).playback.is_playing,
            final(self).progress == (ProgressSlider {
                current_time_ms: 0,
                total_duration_ms: if tracks@.len() == 0 {
                    old(self).progress.total_duration_ms
                } else {
                    tracks@[0].duration_ms
                },
                is_dragging: false,
            }),
    {
        self.current_playlist = Some(playlist);
        self.queue = tracks;
        self.current_index = if self.queue.len() == 0 {
            None
        } else {
            Some(0)
        };
        self.update_now_playing();
        self.update_navigation_state();
        self.reset_progress();
        self.playback.is_playing = true;
    }

    /// Advances to the next track of the queue; returns whether there was
    /// one. Without one, nothing changes.
    pub fn next_track(&mut self) -> (moved: bool)
        ensures
            old(self).wf() ==> final(self).wf(),
            moved ==> final(self).wf(),
            moved == has_next_at(old(self).queue@.len(), old(self).current_index),
            moved ==> (final(self).current_index matches Some(j) && j == old(self).current_index->0 + 1)
                && final(self).progress == (ProgressSlider {
                current_time_ms: 0,
                total_duration_ms: final(self).queue@[final(self).current_index->0 as int].duration_ms,
                is_dragging: false,
            }),
            !moved ==> *final(self) == *old(self),
            final(self).queue == old(self).queue,
            final(self).current_playlist == old(self).current_playlist,
            final(self).playback.is_playing == old(self).playback.is_playing,
    {
        match self.current_index {
            Some(i) => {
                if i < self.queue.len() && i + 1 < self.queue.len() {
                    self.current_index = Some(i + 1);
                    self.update_now_playing();
                    self.update_navigation_state();
                    self.reset_progress();
                    return true;
                }
            },
            None => {},
        }
        false
    }

    /// Goes back to the previous track of the queue; returns whether there
    /// was one. Without one, nothing changes.
    pub fn previous_track(&mut self) -> (moved: bool)
        ensures
            old(self).wf() ==> final(self).wf(),
            moved == has_previous_at(old(self).current_index),
            moved ==> (final(self).current_index matches Some(j) && j == old(self).current_index->0 - 1)
                && final(self).progress == (ProgressSlider {
                current_time_ms: 0,
                total_duration_ms: match track_at(final(self).queue@, final(self).current_index) {
                    Some(t) => t.duration_ms,
                    None => old(self).progress.total_duration_ms,
                },
                is_dragging: false,
            })
                && final(self).now_playing == match track_at(
                final(self).queue@,
                final(self).current_index,
            ) {
                Some(t) => Some(info_of(t)),
                None => None,
            }
                && final(self).playback.has_previous == has_previous_at(final(self).current_index)
                && final(self).playback.has_next == has_next_at(
                final(self).queue@.len(),
                final(self).current_index,
            ),
            !moved ==> *final(self) == *old(self),
            final(self).queue == old(self).queue,
            final(self).current_playlist == old(self).current_playlist,
            final(self).playback.is_playing == old(self).playback.is_playing,
    {
        match self.current_index {
            Some(i) => {
                if i > 0 {
                    self.current_index = Some(i - 1);
                    self.update_now_playing();
                    self.update_navigation_state();
                    self.reset_progress();
                    return true;
                }
            },
            None => {},
        }
        false
    }

    /// Toggles between playing and paused.
    pub fn toggle_playback(&mut self)
        ensures
            old(self).wf() ==> final(self).wf(),
            final(self).playback.is_playing == !old(self).playback.is_playing,
            final(self).playback.has_previous == old(self).playback.has_previous,
            final(self).playback.has_next == old(self).playback.has_next,
            final(self).queue == old(self).queue,
            final(self).current_index == old(self).current_index,
            final(self).now_playing == old(self).now_playing,
            final(self).progress == old(self).progress,
            final(self).current_playlist == old(self).current_playlist,
    {
        self.playback.is_playing = !self.playback.is_playing;
    }
}

} // verus!

verus! {

/// Moving back after moving forward is always possible and returns to the
/// position the player was at; moving forward after moving back likewise.
pub proof fn lemma_next_then_previous_restores(queue_len: nat, i: usize)
    requires
        queue_len <= usize::MAX,
    ensures
        has_next_at(queue_len, Some(i)) ==> i + 1 <= usize::MAX && has_previous_at(
            Some((i + 1) as usize),
        ) && ((i + 1) as usize - 1) as usize == i,
        has_previous_at(Some(i)) && i < queue_len ==> has_next_at(queue_len, Some((i - 1) as usize))
            && ((i - 1) as usize + 1) as usize == i,
{
}

} // verus!
