//! The canonical record of what is playing, and how it is derived from what a
//! player reports.

use crate::text::{followed_by, is_web_link, web_link};
use vstd::prelude::*;
use vstd::string::*;

verus! {

/// Stands in for a missing title.
pub const UNKNOWN_TITLE: &'static str = "Unknown Title";

/// Stands in for a missing artist or album artist.
pub const UNKNOWN_ARTIST: &'static str = "Unknown Artist";

/// Stands in for a missing or empty album name.
pub const UNKNOWN_ALBUM: &'static str = "Unknown Album";

/// One snapshot of the playing media, with every field filled in.
#[derive(Debug)]
pub struct MediaInfo {
    pub title: String,
    pub artist: String,
    pub album_artist: String,
    pub album: String,
    pub is_playing: bool,
    /// Length of the track in seconds; 0 when unknown.
    pub duration: u64,
    /// Seconds played so far; 0 when the player does not tell.
    pub position: u64,
    /// Whether the player reported a position at all.
    pub is_track_position: bool,
    /// Link to cover art on the internet, possibly empty.
    pub art_url: String,
    /// Link to the playing media on the internet, possibly empty.
    pub url: String,
}

/// The mathematical value of a [`MediaInfo`].
pub struct MediaInfoView {
    pub title: Seq<char>,
    pub artist: Seq<char>,
    pub album_artist: Seq<char>,
    pub album: Seq<char>,
    pub is_playing: bool,
    pub duration: u64,
    pub position: u64,
    pub is_track_position: bool,
    pub art_url: Seq<char>,
    pub url: Seq<char>,
}

impl View for MediaInfo {
    type V = MediaInfoView;

    open spec fn view(&self) -> MediaInfoView {
        MediaInfoView {
            title: self.title@,
            artist: self.artist@,
            album_artist: self.album_artist@,
            album: self.album@,
            is_playing: self.is_playing,
            duration: self.duration,
            position: self.position,
            is_track_position: self.is_track_position,
            art_url: self.art_url@,
            url: self.url@,
        }
    }
}

impl MediaInfo {
    /// A copy with the same value.
    pub fn duplicate(&self) -> (r: MediaInfo)
        ensures
            r@ == self@,
    {
        MediaInfo {
            title: self.title.clone(),
            artist: self.artist.clone(),
            album_artist: self.album_artist.clone(),
            album: self.album.clone(),
            is_playing: self.is_playing,
            duration: self.duration,
            position: self.position,
            is_track_position: self.is_track_position,
            art_url: self.art_url.clone(),
            url: self.url.clone(),
        }
    }
}

/// Whether a player is playing, paused or stopped.
#[derive(Clone, Copy, Debug, PartialEq, Eq, Structural)]
pub enum PlaybackStatus {
    Playing,
    Paused,
    Stopped,
}

/// The metadata of the current track as the player gave it: any field may be
/// missing.
#[derive(Debug)]
pub struct TrackReport {
    pub title: Option<String>,
    pub album: Option<String>,
    pub artists: Option<Vec<String>>,
    pub album_artists: Option<Vec<String>>,
    pub length_seconds: Option<u64>,
    pub art_url: Option<String>,
    pub url: Option<String>,
}

/// What one player answered to the three questions put to it. `None` in
/// `metadata` or `status` means that the question failed; `None` in
/// `position_seconds` only that the player keeps no position.
#[derive(Debug)]
pub struct PlayerReport {
    pub metadata: Option<TrackReport>,
    pub status: Option<PlaybackStatus>,
    pub position_seconds: Option<u64>,
}

/// The outcome of one query to the media source.
#[derive(Debug)]
pub enum SourceReply {
    /// No player is active.
    NoPlayer,
    /// A player answered.
    Report(PlayerReport),
}

/// Why no snapshot could be produced.
#[derive(Clone, Copy, Debug, PartialEq, Eq, Structural)]
pub enum SourceError {
    /// The media source has no active player.
    NoActivePlayer,
    /// The player did not answer for its metadata or its playback status.
    QueryFailed,
}

/// The text if there is one, else `fallback`.
pub open spec fn text_or(value: Option<Seq<char>>, fallback: Seq<char>) -> Seq<char> {
    match value {
        Some(text) => text,
        None => fallback,
    }
}

/// The first name of a list if there is one, else `fallback`.
pub open spec fn first_or(names: Option<Seq<Seq<char>>>, fallback: Seq<char>) -> Seq<char> {
    match names {
        Some(list) => if list.len() > 0 {
            list[0]
        } else {
            fallback
        },
        None => fallback,
    }
}

/// The album name of a snapshot: a missing or empty name becomes the placeholder.
pub open spec fn album_of(reported: Option<Seq<char>>) -> Seq<char> {
    let album = text_or(reported, UNKNOWN_ALBUM@);
    if album.len() == 0 {
        UNKNOWN_ALBUM@
    } else {
        album
    }
}

/// The album artist of a snapshot: where none is listed, or the listed one is
/// empty or the placeholder, the track's artist.
pub open spec fn album_artist_of(listed: Option<Seq<Seq<char>>>, artist: Seq<char>) -> Seq<
    char,
> {
    let named = first_or(listed, UNKNOWN_ARTIST@);
    if named.len() == 0 || named == UNKNOWN_ARTIST@ {
        artist
    } else {
        named
    }
}

/// The link to the playing item: kept only if it is an absolute web link.
pub open spec fn item_link_of(reported: Option<Seq<char>>) -> Seq<char> {
    match reported {
        Some(link) => if is_web_link(link) {
            link
        } else {
            Seq::empty()
        },
        None => Seq::empty(),
    }
}

/// The snapshot that stands for a track report, a playback status and a position.
pub open spec fn snapshot_from(
    track: TrackReport,
    status: PlaybackStatus,
    position: Option<u64>,
) -> MediaInfoView {
    let artist = first_or(track.artists.deep_view(), UNKNOWN_ARTIST@);
    MediaInfoView {
        title: text_or(track.title.deep_view(), UNKNOWN_TITLE@),
        artist,
        album_artist: album_artist_of(track.album_artists.deep_view(), artist),
        album: album_of(track.album.deep_view()),
        is_playing: status == PlaybackStatus::Playing,
        duration: match track.length_seconds {
            Some(seconds) => seconds,
            None => 0,
        },
        position: match position {
            Some(seconds) => seconds,
            None => 0,
        },
        is_track_position: position is Some,
        art_url: text_or(track.art_url.deep_view(), Seq::empty()),
        url: item_link_of(track.url.deep_view()),
    }
}

/// What a reply of the media source amounts to: a snapshot, or the reason why
/// there is none.
pub open spec fn snapshot_of(reply: SourceReply) -> Result<MediaInfoView, SourceError> {
    match reply {
        SourceReply::NoPlayer => Err(SourceError::NoActivePlayer),
        SourceReply::Report(report) => match (report.metadata, report.status) {
            (Some(track), Some(status)) => Ok(
                snapshot_from(track, status, report.position_seconds),
            ),
            _ => Err(SourceError::QueryFailed),
        },
    }
}

/// The key under which an album's cover is remembered: the album artist,
/// `" - "`, and the album name.
pub open spec fn album_identity(album_artist: Seq<char>, album: Seq<char>) -> Seq<char> {
    album_artist + " - "@ + album
}

fn text_or_else(value: &Option<String>, fallback: &str) -> (r: String)
    ensures
        r@ == text_or(value.deep_view(), fallback@),
{
    match value {
        Some(text) => text.clone(),
        None => fallback.to_owned(),
    }
}

fn first_or_else(names: &Option<Vec<String>>, fallback: &str) -> (r: String)
    ensures
        r@ == first_or(names.deep_view(), fallback@),
{
    match names {
        Some(list) => {
            if list.len() > 0 {
                list[0].clone()
            } else {
                fallback.to_owned()
            }
        },
        None => fallback.to_owned(),
    }
}

/// Turns one reply of the media source into a snapshot.
///
/// Missing fields take their placeholders, an empty album name counts as
/// missing, the album artist falls back to the artist, an unknown length or
/// position is 0, and the item link is dropped unless it is an absolute web
/// link. The reply yields no snapshot exactly when there is no player, or the
/// player failed to answer for its metadata or status.
pub fn get_currently_playing(reply: &SourceReply) -> (r: Result<MediaInfo, SourceError>)
    ensures
        match r {
            Ok(info) => snapshot_of(*reply) == Ok::<MediaInfoView, SourceError>(info@),
            Err(e) => snapshot_of(*reply) == Err::<MediaInfoView, SourceError>(e),
        },
{
    let report = match reply {
        SourceReply::NoPlayer => {
            return Err(SourceError::NoActivePlayer);
        },
        SourceReply::Report(report) => report,
    };
    let track = match &report.metadata {
        Some(track) => track,
        None => {
            return Err(SourceError::QueryFailed);
        },
    };
    let status = match report.status {
        Some(status) => status,
        None => {
            return Err(SourceError::QueryFailed);
        },
    };
    let is_playing = match status {
        PlaybackStatus::Playing => true,
        PlaybackStatus::Paused => false,
        PlaybackStatus::Stopped => false,
    };
    let title = text_or_else(&track.title, UNKNOWN_TITLE);
    let mut album = text_or_else(&track.album, UNKNOWN_ALBUM);
    if album.as_str().unicode_len() == 0 {
        album = UNKNOWN_ALBUM.to_owned();
    }
    let artist = first_or_else(&track.artists, UNKNOWN_ARTIST);
    let mut album_artist = first_or_else(&track.album_artists, UNKNOWN_ARTIST);
    if album_artist.as_str().unicode_len() == 0 || album_artist == UNKNOWN_ARTIST.to_owned() {
        album_artist = artist.clone();
    }
    let duration = match track.length_seconds {
        Some(seconds) => seconds,
        None => 0,
    };
    let (position, is_track_position) = match report.position_seconds {
        Some(seconds) => (seconds, true),
        None => (0, false),
    };
    let art_url = text_or_else(&track.art_url, "");
    let url = match &track.url {
        Some(link) => {
            if web_link(link.as_str()) {
                link.clone()
            } else {
                String::new()
            }
        },
        None => String::new(),
    };
    proof {
        reveal_strlit("");
        assert(""@ == Seq::<char>::empty());
    }
    Ok(
        MediaInfo {
            title,
            artist,
            album_artist,
            album,
            is_playing,
            duration,
            position,
            is_track_position,
            art_url,
            url,
        },
    )
}

impl MediaInfo {
    /// The identity of the snapshot's album, by which its cover is looked up.
    pub fn album_id(&self) -> (r: String)
        ensures
            r@ == album_identity(self.album_artist@, self.album@),
    {
        let mut id = followed_by(self.album_artist.as_str(), " - ");
        id.append(self.album.as_str());
        id
    }
}

} // verus!
