use vstd::prelude::*;
use vstd::string::*;

verus! {

/// A thumbnail image of a playlist or a track.
#[derive(Debug, Clone)]
pub struct Thumbnail {
    pub url: String,
    pub width: u64,
    pub height: u64,
}

/// The area of a thumbnail, saturated at `u64::MAX`.
pub open spec fn area(t: Thumbnail) -> u64 {
    if t.width * t.height > u64::MAX {
        u64::MAX
    } else {
        (t.width * t.height) as u64
    }
}

/// Whether `j` is the last thumbnail of largest area (the one that
/// `Iterator::max_by_key` picks).
pub open spec fn is_last_largest(ts: Seq<Thumbnail>, j: int) -> bool {
    &&& 0 <= j < ts.len()
    &&& forall|k: int| 0 <= k < j ==> area(#[trigger] ts[k]) <= area(ts[j])
    &&& forall|k: int| j < k < ts.len() ==> area(#[trigger] ts[k]) < area(ts[j])
}

fn area_of(t: &Thumbnail) -> (a: u64)
    ensures
        a == area(*t),
{
    match t.width.checked_mul(t.height) {
        Some(a) => a,
        None => u64::MAX,
    }
}

/// The url of the largest thumbnail (the last one among equally large
/// ones); `None` when there is no thumbnail.
pub fn largest_thumbnail_url(ts: &Vec<Thumbnail>) -> (r: Option<String>)
    ensures
        match r {
            Some(u) => exists|j: int| is_last_largest(ts@, j) && ts@[j].url == u,
            None => ts@.len() == 0,
        },
{
    if ts.len() == 0 {
        return None;
    }
    let mut best: usize = 0;
    let mut best_area = area_of(&ts[0]);
    let mut i: usize = 1;
    while i < ts.len()
        invariant
            1 <= i <= ts.len(),
            best < i,
            best_area == area(ts@[best as int]),
            is_last_largest(ts@.take(i as int), best as int),
        decreases ts.len() - i,
    {
        let a = area_of(&ts[i]);
        if a >= best_area {
            best = i;
            best_area = a;
        }
        proof {
            let p = ts@.take(i as int + 1);
            assert forall|k: int| 0 <= k < best implies area(#[trigger] p[k]) <= area(p[best as int]) by {
                assert(p[k] == ts@[k]);
                if k < i {
                    assert(ts@.take(i as int)[k] == ts@[k]);
                }
            }
            assert forall|k: int| best < k < p.len() implies area(#[trigger] p[k]) < area(p[best as int]) by {
                assert(p[k] == ts@[k]);
                if k < i {
                    assert(ts@.take(i as int)[k] == ts@[k]);
                }
            }
        }
        i = i + 1;
    }
    assert(ts@.take(ts.len() as int) =~= ts@);
    Some(ts[best].url.clone())
}

/// A playlist of the user's library, as far as its thumbnails go.
#[derive(Debug, Clone)]
pub struct LibraryPlaylistSummary {
    pub playlist_id: String,
    pub thumbnails: Vec<Thumbnail>,
}

/// The url of the largest thumbnail of the first playlist with the given
/// id; `None` when no playlist has the id or it has no thumbnail.
pub open spec fn thumbnail_of(playlists: Seq<LibraryPlaylistSummary>, id: Seq<char>, u: Option<String>) -> bool {
    match u {
        Some(url) => exists|p: int, j: int|
            0 <= p < playlists.len() && playlists[p].playlist_id@ == id && (forall|q: int|
                0 <= q < p ==> (#[trigger] playlists[q]).playlist_id@ != id) && is_last_largest(
                playlists[p].thumbnails@,
                j,
            ) && playlists[p].thumbnails@[j].url == url,
        None => forall|p: int|
            0 <= p < playlists.len() && (#[trigger] playlists[p]).playlist_id@ == id ==> exists|
                q: int,
            |
                0 <= q <= p && playlists[q].playlist_id@ == id && playlists[q].thumbnails@.len()
                    == 0 && (forall|r: int|
                    0 <= r < q ==> (#[trigger] playlists[r]).playlist_id@ != id),
    }
}

/// Chooses the cover of a playlist: the largest thumbnail of the first
/// playlist whose id matches.
pub fn select_thumbnail_url(playlists: &Vec<LibraryPlaylistSummary>, playlist_id: &str) -> (r:
    Option<String>)
    ensures
        thumbnail_of(playlists@, playlist_id@, r),
{
    let id = playlist_id.to_string();
    let mut i: usize = 0;
    while i < playlists.len()
        invariant
            i <= playlists.len(),
            id@ == playlist_id@,
            forall|q: int| 0 <= q < i ==> (#[trigger] playlists@[q]).playlist_id@ != id@,
        decreases playlists.len() - i,
    {
        if playlists[i].playlist_id == id {
            let r = largest_thumbnail_url(&playlists[i].thumbnails);
            proof {
                if r is Some {
                    let j = choose|j: int|
                        is_last_largest(playlists@[i as int].thumbnails@, j)
                            && playlists@[i as int].thumbnails@[j].url == r->0;
                    assert(exists|p: int, j: int|
                        0 <= p < playlists@.len() && playlists@[p].playlist_id@ == playlist_id@
                            && (forall|q: int|
                            0 <= q < p ==> (#[trigger] playlists@[q]).playlist_id@
                                != playlist_id@) && is_last_largest(playlists@[p].thumbnails@, j)
                            && playlists@[p].thumbnails@[j].url == r->0) by {
                        assert(is_last_largest(playlists@[i as int].thumbnails@, j));
                    }
                } else {
                    assert forall|p: int|
                        0 <= p < playlists@.len() && (#[trigger] playlists@[p]).playlist_id@
                            == playlist_id@ implies exists|q: int|
                        0 <= q <= p && playlists@[q].playlist_id@ == playlist_id@
                            && playlists@[q].thumbnails@.len() == 0 && (forall|r: int|
                            0 <= r < q ==> (#[trigger] playlists@[r]).playlist_id@
                                != playlist_id@) by {
                        assert(p >= i);
                        assert(playlists@[i as int].playlist_id@ == playlist_id@);
                    }
                }
            }
            return r;
        }
        i = i + 1;
    }
    None
}

/// How long an episode is.
#[derive(Debug, Clone)]
pub enum EpisodeDuration {
    Live,
    Recorded { duration: String },
}

/// An item of a playlist, as far as its display goes.
#[derive(Debug, Clone)]
pub enum PlaylistEntry {
    Song { title: String, artists: Vec<String>, duration: String, thumbnails: Vec<Thumbnail> },
    Video { title: String, channel_name: String, duration: String, thumbnails: Vec<Thumbnail> },
    Episode {
        title: String,
        podcast_name: String,
        duration: EpisodeDuration,
        thumbnails: Vec<Thumbnail>,
    },
    UploadSong { title: String, artists: Vec<String>, duration: String, thumbnails: Vec<Thumbnail> },
}

/// What a row of the playlist shows.
#[derive(Debug, Clone)]
pub struct TrackDisplay {
    pub title: String,
    pub artist: String,
    pub duration: String,
    pub thumbnail_url: Option<String>,
}

/// Names joined with `", "`.
pub open spec fn joined(names: Seq<String>) -> Seq<char>
    decreases names.len(),
{
    if names.len() == 0 {
        Seq::empty()
    } else if names.len() == 1 {
        names[0]@
    } else {
        joined(names.drop_last()) + seq![',', ' '] + names.last()@
    }
}

/// Joins names with `", "`.
pub fn join_names(names: &Vec<String>) -> (s: String)
    ensures
        s@ == joined(names@),
{
    let mut s = String::new();
    let mut i: usize = 0;
    let sep = ", ";
    proof {
        reveal_strlit(", ");
    }
    while i < names.len()
        invariant
            i <= names.len(),
            sep@ == seq![',', ' '],
            s@ == joined(names@.take(i as int)),
        decreases names.len() - i,
    {
        proof {
            assert(names@.take(i as int + 1).drop_last() =~= names@.take(i as int));
        }
        if i > 0 {
            s.append(sep);
        }
        s.append(names[i].as_str());
        proof {
            let t = names@.take(i as int + 1);
            if i == 0 {
                assert(s@ =~= joined(t));
            } else {
                assert(s@ =~= joined(t));
            }
        }
        i = i + 1;
    }
    assert(names@.take(names.len() as int) =~= names@);
    s
}

/// The text shown for the length of a live episode.
pub open spec fn live_text() -> Seq<char> {
    seq!['L', 'I', 'V', 'E']
}

/// Whether `url` is the url of the largest thumbnail of `ts`, as
/// [`largest_thumbnail_url`] picks it.
pub open spec fn cover_of(ts: Seq<Thumbnail>, url: Option<String>) -> bool {
    match url {
        Some(u) => exists|j: int| is_last_largest(ts, j) && ts[j].url == u,
        None => ts.len() == 0,
    }
}

/// The title, artist (or channel, or podcast), length and cover of a
/// playlist item.
pub fn track_display_info(item: &PlaylistEntry) -> (d: TrackDisplay)
    ensures
        match *item {
            PlaylistEntry::Song { title, artists, duration, thumbnails } => d.title == title
                && d.artist@ == joined(artists@) && d.duration == duration && cover_of(
                thumbnails@,
                d.thumbnail_url,
            ),
            PlaylistEntry::Video { title, channel_name, duration, thumbnails } => d.title == title
                && d.artist == channel_name && d.duration == duration && cover_of(
                thumbnails@,
                d.thumbnail_url,
            ),
            PlaylistEntry::Episode { title, podcast_name, duration, thumbnails } => d.title
                == title && d.artist == podcast_name && d.duration@ == match duration {
                EpisodeDuration::Live => live_text(),
                EpisodeDuration::Recorded { duration } => duration@,
            } && cover_of(thumbnails@, d.thumbnail_url),
            PlaylistEntry::UploadSong { title, artists, duration, thumbnails } => d.title == title
                && d.artist@ == joined(artists@) && d.duration == duration && cover_of(
                thumbnails@,
                d.thumbnail_url,
            ),
        },
{
    match item {
        PlaylistEntry::Song { title, artists, duration, thumbnails } => TrackDisplay {
            title: title.clone(),
            artist: join_names(artists),
            duration: duration.clone(),
            thumbnail_url: largest_thumbnail_url(thumbnails),
        },
        PlaylistEntry::Video { title, channel_name, duration, thumbnails } => TrackDisplay {
            title: title.clone(),
            artist: channel_name.clone(),
            duration: duration.clone(),
            thumbnail_url: largest_thumbnail_url(thumbnails),
        },
        PlaylistEntry::Episode { title, podcast_name, duration, thumbnails } => {
            let text = match duration {
                EpisodeDuration::Live => {
                    let t = String::from_str("LIVE");
                    proof {
                        reveal_strlit("LIVE");
                    }
                    t
                },
                EpisodeDuration::Recorded { duration } => duration.clone(),
            };
            TrackDisplay {
                title: title.clone(),
                artist: podcast_name.clone(),
                duration: text,
                thumbnail_url: largest_thumbnail_url(thumbnails),
            }
        },
        PlaylistEntry::UploadSong { title, artists, duration, thumbnails } => TrackDisplay {
            title: title.clone(),
            artist: join_names(artists),
            duration: duration.clone(),
            thumbnail_url: largest_thumbnail_url(thumbnails),
        },
    }
}

} // verus!

verus! {

/// A page of playlist items and the token for the page after it.
pub struct PlaylistPage<T> {
    pub items: Vec<T>,
    pub continuation: Option<String>,
}

/// Load more items when fewer than this many remain below the last visible
/// one.
pub const LOAD_THRESHOLD: usize = 20;

/// The paging state of a playlist view: the items loaded so far, whether the
/// first page is loading, and whether a next page exists or is loading.
pub struct PlaylistPager<T> {
    tracks: Vec<T>,
    loading: bool,
    continuation_token: Option<String>,
    has_more: bool,
    loading_more: bool,
}

impl<T> PlaylistPager<T> {
    pub closed spec fn spec_tracks(&self) -> Seq<T> {
        self.tracks@
    }

    pub closed spec fn spec_loading(&self) -> bool {
        self.loading
    }

    pub closed spec fn spec_continuation(&self) -> Option<String> {
        self.continuation_token
    }

    pub closed spec fn spec_has_more(&self) -> bool {
        self.has_more
    }

    pub closed spec fn spec_loading_more(&self) -> bool {
        self.loading_more
    }

    /// A pager that is about to load its first page.
    pub fn new() -> (p: PlaylistPager<T>)
        ensures
            p.spec_tracks().len() == 0,
            p.spec_loading(),
            p.spec_continuation() is None,
            !p.spec_has_more(),
            !p.spec_loading_more(),
    {
        PlaylistPager {
            tracks: Vec::new(),
            loading: true,
            continuation_token: None,
            has_more: false,
            loading_more: false,
        }
    }

    /// The items loaded so far.
    pub fn tracks(&self) -> (s: &[T])
        ensures
            s@ == self.spec_tracks(),
    {
        self.tracks.as_slice()
    }

    pub fn is_loading(&self) -> (b: bool)
        ensures
            b == self.spec_loading(),
    {
        self.loading
    }

    pub fn has_more(&self) -> (b: bool)
        ensures
            b == self.spec_has_more(),
    {
        self.has_more
    }

    pub fn is_loading_more(&self) -> (b: bool)
        ensures
            b == self.spec_loading_more(),
    {
        self.loading_more
    }

    /// Marks the first page as loading.
    pub fn begin_first_page(&mut self)
        ensures
            final(self).spec_loading(),
            final(self).spec_tracks() == old(self).spec_tracks(),
            final(self).spec_continuation() == old(self).spec_continuation(),
            final(self).spec_has_more() == old(self).spec_has_more(),
            final(self).spec_loading_more() == old(self).spec_loading_more(),
    {
        self.loading = true;
    }

    /// Takes in the first page: its items replace the list and its token
    /// decides whether more exist; on failure the list is emptied and no
    /// more pages are sought.
    pub fn first_page_loaded(&mut self, result: Result<PlaylistPage<T>, ()>)
        ensures
            !final(self).spec_loading(),
            final(self).spec_loading_more() == old(self).spec_loading_more(),
            match result {
                Ok(page) => {
                    &&& final(self).spec_tracks() == page.items@
                    &&& final(self).spec_has_more() == page.continuation is Some
                    &&& final(self).spec_continuation() == page.continuation
                },
                Err(()) => {
                    &&& final(self).spec_tracks().len() == 0
                    &&& !final(self).spec_has_more()
                    &&& final(self).spec_continuation() == old(self).spec_continuation()
                },
            },
    {
        match result {
            Ok(page) => {
                self.has_more = page.continuation.is_some();
                self.tracks = page.items;
                self.continuation_token = page.continuation;
            },
            Err(()) => {
                self.tracks = Vec::new();
                self.has_more = false;
            },
        }
        self.loading = false;
    }

    /// Starts loading the next page, if there is one and none is loading:
    /// returns the token to ask with.
    pub fn begin_next_page(&mut self) -> (token: Option<String>)
        ensures
            token is Some <==> (!old(self).spec_loading_more() && old(self).spec_has_more()
                && old(self).spec_continuation() is Some),
            token is Some ==> token == old(self).spec_continuation()
                && final(self).spec_loading_more(),
            token is None ==> final(self).spec_loading_more() == old(self).spec_loading_more(),
            final(self).spec_tracks() == old(self).spec_tracks(),
            final(self).spec_loading() == old(self).spec_loading(),
            final(self).spec_continuation() == old(self).spec_continuation(),
            final(self).spec_has_more() == old(self).spec_has_more(),
    {
        if self.loading_more || !self.has_more {
            return None;
        }
        match &self.continuation_token {
            Some(t) => {
                let token = t.clone();
                self.loading_more = true;
                Some(token)
            },
            None => None,
        }
    }

    /// Takes in a next page: its items are appended and its token decides
    /// whether more exist; on failure no more pages are sought.
    pub fn next_page_loaded(&mut self, result: Result<PlaylistPage<T>, ()>)
        ensures
            !final(self).spec_loading_more(),
            final(self).spec_loading() == old(self).spec_loading(),
            match result {
                Ok(page) => {
                    &&& final(self).spec_tracks() == old(self).spec_tracks() + page.items@
                    &&& final(self).spec_has_more() == page.continuation is Some
                    &&& final(self).spec_continuation() == page.continuation
                },
                Err(()) => {
                    &&& final(self).spec_tracks() == old(self).spec_tracks()
                    &&& !final(self).spec_has_more()
                    &&& final(self).spec_continuation() == old(self).spec_continuation()
                },
            },
    {
        match result {
            Ok(page) => {
                let mut items = page.items;
                self.tracks.append(&mut items);
                self.has_more = page.continuation.is_some();
                self.continuation_token = page.continuation;
            },
            Err(()) => {
                self.has_more = false;
            },
        }
        self.loading_more = false;
    }

    /// Whether the view should ask for the next page, given the index past
    /// the last visible row: the list is not empty, fewer than
    /// [`LOAD_THRESHOLD`] rows remain below, more exist and none is loading.
    pub fn should_load_more(&self, visible_end: usize) -> (b: bool)
        ensures
            b == (self.spec_tracks().len() > 0 && self.spec_tracks().len() - (if visible_end
                < self.spec_tracks().len() {
                visible_end as int
            } else {
                self.spec_tracks().len() as int
            }) < LOAD_THRESHOLD && self.spec_has_more() && !self.spec_loading_more()),
    {
        let len = self.tracks.len();
        if len == 0 {
            return false;
        }
        let last_visible = if visible_end < len {
            visible_end
        } else {
            len
        };
        let remaining = len - last_visible;
        remaining < LOAD_THRESHOLD && self.has_more && !self.loading_more
    }
}

} // verus!
