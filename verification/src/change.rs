//! Deciding whether a new snapshot is worth publishing.
//!
//! A channel remembers what it published last. A new snapshot is published
//! when it differs from that record, when the position jumped backwards, or
//! when the previous cycle was interrupted.

use crate::media::{MediaInfo, MediaInfoView, UNKNOWN_ALBUM, UNKNOWN_ARTIST, UNKNOWN_TITLE};
use vstd::prelude::*;
use vstd::string::*;

verus! {

/// What one presence channel remembers between polls.
#[derive(Debug)]
pub struct PresenceState {
    pub last_title: String,
    pub last_album: String,
    pub last_artist: String,
    pub last_album_artist: String,
    pub last_is_playing: bool,
    /// The position seen at the latest poll, in seconds.
    pub last_position: u64,
    /// The album identity for which `cover_url` was resolved.
    pub last_album_id: String,
    /// The cover reference resolved for `last_album_id`.
    pub cover_url: String,
    /// The previous cycle could not publish.
    pub is_interrupted: bool,
    /// A presence is currently shown on this channel.
    pub is_activity_set: bool,
    /// The channel's connection is believed to be up.
    pub connected: bool,
}

/// The mathematical value of a [`PresenceState`].
pub struct PresenceStateView {
    pub last_title: Seq<char>,
    pub last_album: Seq<char>,
    pub last_artist: Seq<char>,
    pub last_album_artist: Seq<char>,
    pub last_is_playing: bool,
    pub last_position: u64,
    pub last_album_id: Seq<char>,
    pub cover_url: Seq<char>,
    pub is_interrupted: bool,
    pub is_activity_set: bool,
    pub connected: bool,
}

impl View for PresenceState {
    type V = PresenceStateView;

    open spec fn view(&self) -> PresenceStateView {
        PresenceStateView {
            last_title: self.last_title@,
            last_album: self.last_album@,
            last_artist: self.last_artist@,
            last_album_artist: self.last_album_artist@,
            last_is_playing: self.last_is_playing,
            last_position: self.last_position,
            last_album_id: self.last_album_id@,
            cover_url: self.cover_url@,
            is_interrupted: self.is_interrupted,
            is_activity_set: self.is_activity_set,
            connected: self.connected,
        }
    }
}

/// The state of a channel that has published nothing yet.
pub open spec fn fresh_state() -> PresenceStateView {
    PresenceStateView {
        last_title: Seq::empty(),
        last_album: Seq::empty(),
        last_artist: Seq::empty(),
        last_album_artist: Seq::empty(),
        last_is_playing: false,
        last_position: 0,
        last_album_id: Seq::empty(),
        cover_url: Seq::empty(),
        is_interrupted: false,
        is_activity_set: false,
        connected: false,
    }
}

/// Title, artist and album are all placeholders: there is no real media.
pub open spec fn is_placeholder_media(new: MediaInfoView) -> bool {
    new.title == UNKNOWN_TITLE@ && new.artist == UNKNOWN_ARTIST@ && new.album == UNKNOWN_ALBUM@
}

/// The artist or the title is the empty string.
pub open spec fn lacks_name(new: MediaInfoView) -> bool {
    new.artist.len() == 0 || new.title.len() == 0
}

/// One of title, album, artist, album artist and playing flag differs from
/// what was published last.
pub open spec fn metadata_differs(new: MediaInfoView, state: PresenceStateView) -> bool {
    ||| new.title != state.last_title
    ||| new.album != state.last_album
    ||| new.artist != state.last_artist
    ||| new.album_artist != state.last_album_artist
    ||| new.is_playing != state.last_is_playing
}

/// The position went backwards since the latest poll: a seek or a replay.
pub open spec fn seeks_back(new: MediaInfoView, state: PresenceStateView) -> bool {
    new.position < state.last_position
}

/// Whether `new` is to be published over `state`.
pub open spec fn publish_due(new: MediaInfoView, state: PresenceStateView) -> bool {
    metadata_differs(new, state) || seeks_back(new, state) || state.is_interrupted
}

/// The state after `new` has been looked at: only the position moves.
pub open spec fn observed(new: MediaInfoView, state: PresenceStateView) -> PresenceStateView {
    PresenceStateView { last_position: new.position, ..state }
}

/// The state after `new` has been taken as the published record.
pub open spec fn recorded(new: MediaInfoView, state: PresenceStateView) -> PresenceStateView {
    PresenceStateView {
        last_title: new.title,
        last_album: new.album,
        last_artist: new.artist,
        last_album_artist: new.album_artist,
        last_is_playing: new.is_playing,
        ..state
    }
}

/// The state without its published record: what is left are the three flags.
pub open spec fn forgotten(state: PresenceStateView) -> PresenceStateView {
    PresenceStateView {
        is_interrupted: state.is_interrupted,
        is_activity_set: state.is_activity_set,
        connected: state.connected,
        ..fresh_state()
    }
}

impl PresenceState {
    /// The state of a channel that has published nothing yet.
    pub fn new() -> (r: PresenceState)
        ensures
            r@ == fresh_state(),
    {
        PresenceState {
            last_title: String::new(),
            last_album: String::new(),
            last_artist: String::new(),
            last_album_artist: String::new(),
            last_is_playing: false,
            last_position: 0,
            last_album_id: String::new(),
            cover_url: String::new(),
            is_interrupted: false,
            is_activity_set: false,
            connected: false,
        }
    }

    /// Takes `new` as the record of what was published last. Position, cover
    /// and flags stay as they are.
    pub fn record(&mut self, new: &MediaInfo)
        ensures
            final(self)@ == recorded(new@, old(self)@),
    {
        self.last_title = new.title.clone();
        self.last_album = new.album.clone();
        self.last_artist = new.artist.clone();
        self.last_album_artist = new.album_artist.clone();
        self.last_is_playing = new.is_playing;
    }

    /// Drops the published record, position and cover included, and keeps the
    /// three flags.
    pub fn forget(&mut self)
        ensures
            final(self)@ == forgotten(old(self)@),
    {
        self.last_title = String::new();
        self.last_album = String::new();
        self.last_artist = String::new();
        self.last_album_artist = String::new();
        self.last_is_playing = false;
        self.last_position = 0;
        self.last_album_id = String::new();
        self.cover_url = String::new();
    }

    /// Whether a cover must be resolved before `album_id` is published: the
    /// identity differs from the one the remembered cover belongs to.
    pub fn needs_cover(&self, album_id: &str) -> (r: bool)
        ensures
            r == (album_id@ != self.last_album_id@),
    {
        self.last_album_id != album_id.to_owned()
    }

    /// Remembers the cover resolved for `album_id`.
    pub fn remember_cover(&mut self, album_id: &str, cover: &str)
        ensures
            final(self)@ == (PresenceStateView {
                last_album_id: album_id@,
                cover_url: cover@,
                ..old(self)@
            }),
    {
        self.last_album_id = album_id.to_owned();
        self.cover_url = cover.to_owned();
    }
}

/// Whether title, artist and album are all placeholders.
pub fn placeholder_media(new: &MediaInfo) -> (r: bool)
    ensures
        r == is_placeholder_media(new@),
{
    new.title == UNKNOWN_TITLE.to_owned() && new.artist == UNKNOWN_ARTIST.to_owned() && new.album
        == UNKNOWN_ALBUM.to_owned()
}

/// Whether the artist or the title is empty.
pub fn nameless(new: &MediaInfo) -> (r: bool)
    ensures
        r == lacks_name(new@),
{
    new.artist.as_str().unicode_len() == 0 || new.title.as_str().unicode_len() == 0
}

/// Decides whether `new` must be published, and stores its position.
///
/// The answer is yes when title, album, artist, album artist or playing flag
/// differ from the published record, when the position is behind the stored
/// one, or when the channel is interrupted. The position is compared with the
/// one stored before the call, and the new one is stored whatever the answer.
pub fn should_publish(new: &MediaInfo, state: &mut PresenceState) -> (r: bool)
    ensures
        r == publish_due(new@, old(state)@),
        final(state)@ == observed(new@, old(state)@),
        !metadata_differs(new@, old(state)@) && !old(state).is_interrupted && new.position >= old(
            state,
        ).last_position ==> !r,
        final(state).last_position == new.position,
{
    let mut metadata_changed = new.title != state.last_title || new.album != state.last_album
        || new.artist != state.last_artist || new.album_artist != state.last_album_artist
        || new.is_playing != state.last_is_playing;
    if new.position < state.last_position && !metadata_changed {
        metadata_changed = true;
    }
    state.last_position = new.position;
    metadata_changed || state.is_interrupted
}

/// A backward jump of the position triggers one publication and no second
/// one: with an unchanged record and no interruption, the snapshot is due
/// when it is first seen, and no longer due once it has been seen.
pub proof fn lemma_seek_fires_once(new: MediaInfoView, state: PresenceStateView)
    requires
        !metadata_differs(new, state),
        !state.is_interrupted,
        seeks_back(new, state),
    ensures
        publish_due(new, state),
        observed(new, state).last_position == new.position,
        !publish_due(new, observed(new, state)),
        !publish_due(new, recorded(new, observed(new, state))),
{
}

/// A snapshot that matches the published record, on a channel that is not
/// interrupted and whose position did not go backwards, is never due.
pub proof fn lemma_unchanged_not_due(new: MediaInfoView, state: PresenceStateView)
    requires
        !metadata_differs(new, state),
        !state.is_interrupted,
        !seeks_back(new, state),
    ensures
        !publish_due(new, state),
{
}

} // verus!
