//! The preferences that the daemon runs with: the settings in force with
//! every default filled in. They are fixed once at startup.

use crate::settings::{Cli, CliView, DEFAULT_INTERVAL, MIN_INTERVAL};
use crate::text::text_eq;
use vstd::prelude::*;
use vstd::string::*;

verus! {

/// The kinds of button that a presence can carry.
#[derive(Clone, Copy, Debug, PartialEq, Eq, Structural)]
pub enum ButtonKind {
    /// Search the song on YouTube.
    Youtube,
    /// The user's Last.fm profile.
    Lastfm,
    /// The user's Listenbrainz profile.
    Listenbrainz,
    /// The playing item itself, where the player gives a link to it.
    MprisUrl,
    /// A link to this program.
    ShamelessAd,
}

/// Which line of the presence the chat client shows after "Listening to".
#[derive(Clone, Copy, Debug, PartialEq, Eq, Structural)]
pub enum StatusSource {
    /// The artist (the default).
    Artist,
    /// The track title.
    Track,
    /// The name of the application.
    Name,
    /// A value that is none of the three known ones.
    Other,
}

/// The icon shown next to the cover.
#[derive(Clone, Copy, Debug, PartialEq, Eq, Structural)]
pub enum SmallImage {
    /// A playing or paused icon (the default).
    PlayPause,
    /// The icon and name of the player.
    Player,
    /// The user's Last.fm avatar.
    LastfmAvatar,
    /// No icon.
    Hidden,
}

/// The preferences in force for the life of the process.
#[derive(Debug)]
pub struct UserPreferences {
    /// Seconds between two polls, at least [`MIN_INTERVAL`].
    pub interval: u64,
    /// The buttons asked for, in order.
    pub buttons: Vec<ButtonKind>,
    /// The Last.fm nickname; empty where none is set.
    pub lastfm_name: String,
    /// The Listenbrainz nickname; empty where none is set.
    pub listenbrainz_name: String,
    pub rpc_name: StatusSource,
    pub small_image: SmallImage,
    /// The player identifier to show in place of the real one; empty for none.
    pub force_player_id: String,
    /// The player name to show in place of the real one; empty for none.
    pub force_player_name: String,
    /// The only players to report; empty for all.
    pub allowlist: Vec<String>,
    /// The players shown as "watching".
    pub video_players: Vec<String>,
    pub hide_album_name: bool,
    pub only_when_playing: bool,
    pub cache_enabled: bool,
    pub disable_musicbrainz_cover: bool,
    pub disable_mpris_art_url: bool,
    /// The key of the primary cover service; `None` switches the service off.
    pub lastfm_api_key: Option<String>,
}

/// The mathematical value of [`UserPreferences`].
pub struct UserPreferencesView {
    pub interval: u64,
    pub buttons: Seq<ButtonKind>,
    pub lastfm_name: Seq<char>,
    pub listenbrainz_name: Seq<char>,
    pub rpc_name: StatusSource,
    pub small_image: SmallImage,
    pub force_player_id: Seq<char>,
    pub force_player_name: Seq<char>,
    pub allowlist: Seq<Seq<char>>,
    pub video_players: Seq<Seq<char>>,
    pub hide_album_name: bool,
    pub only_when_playing: bool,
    pub cache_enabled: bool,
    pub disable_musicbrainz_cover: bool,
    pub disable_mpris_art_url: bool,
    pub lastfm_api_key: Option<Seq<char>>,
}

impl View for UserPreferences {
    type V = UserPreferencesView;

    open spec fn view(&self) -> UserPreferencesView {
        UserPreferencesView {
            interval: self.interval,
            buttons: self.buttons@,
            lastfm_name: self.lastfm_name@,
            listenbrainz_name: self.listenbrainz_name@,
            rpc_name: self.rpc_name,
            small_image: self.small_image,
            force_player_id: self.force_player_id@,
            force_player_name: self.force_player_name@,
            allowlist: self.allowlist.deep_view(),
            video_players: self.video_players.deep_view(),
            hide_album_name: self.hide_album_name,
            only_when_playing: self.only_when_playing,
            cache_enabled: self.cache_enabled,
            disable_musicbrainz_cover: self.disable_musicbrainz_cover,
            disable_mpris_art_url: self.disable_mpris_art_url,
            lastfm_api_key: self.lastfm_api_key.deep_view(),
        }
    }
}

/// The button that a name stands for, if it is the name of one.
pub open spec fn button_named(name: Seq<char>) -> Option<ButtonKind> {
    if name == "yt"@ {
        Some(ButtonKind::Youtube)
    } else if name == "lastfm"@ {
        Some(ButtonKind::Lastfm)
    } else if name == "listenbrainz"@ {
        Some(ButtonKind::Listenbrainz)
    } else if name == "mprisUrl"@ {
        Some(ButtonKind::MprisUrl)
    } else if name == "shamelessAd"@ {
        Some(ButtonKind::ShamelessAd)
    } else {
        None
    }
}

/// The buttons that a list of names stands for, in order; names of no button
/// are passed over.
pub open spec fn buttons_named(names: Seq<Seq<char>>) -> Seq<ButtonKind>
    decreases names.len(),
{
    if names.len() == 0 {
        Seq::empty()
    } else {
        let before = buttons_named(names.drop_last());
        match button_named(names.last()) {
            Some(kind) => before.push(kind),
            None => before,
        }
    }
}

/// The status source that a setting stands for; `artist` where none is set.
pub open spec fn status_source_named(name: Option<Seq<char>>) -> StatusSource {
    match name {
        None => StatusSource::Artist,
        Some(text) => if text == "artist"@ {
            StatusSource::Artist
        } else if text == "track"@ {
            StatusSource::Track
        } else if text == "none"@ {
            StatusSource::Name
        } else {
            StatusSource::Other
        },
    }
}

/// The small image that a setting stands for; the play and pause icon where
/// none is set or the value is unknown.
pub open spec fn small_image_named(name: Option<Seq<char>>) -> SmallImage {
    match name {
        None => SmallImage::PlayPause,
        Some(text) => if text == "player"@ {
            SmallImage::Player
        } else if text == "lastfmAvatar"@ {
            SmallImage::LastfmAvatar
        } else if text == "none"@ {
            SmallImage::Hidden
        } else {
            SmallImage::PlayPause
        },
    }
}

/// The interval in force: the default where none is set, and never below the
/// minimum.
pub open spec fn interval_in_force(configured: Option<u64>) -> u64 {
    let wanted = match configured {
        Some(seconds) => seconds,
        None => DEFAULT_INTERVAL,
    };
    if wanted < MIN_INTERVAL {
        MIN_INTERVAL
    } else {
        wanted
    }
}

/// The key in force: the user's if one is set, else the built-in one; an
/// empty key is no key.
pub open spec fn key_in_force(configured: Option<Seq<char>>, built_in: Seq<char>) -> Option<
    Seq<char>,
> {
    let key = match configured {
        Some(text) => text,
        None => built_in,
    };
    if key.len() == 0 {
        None
    } else {
        Some(key)
    }
}

/// The text if there is one, else the empty text.
pub open spec fn text_or_empty(value: Option<Seq<char>>) -> Seq<char> {
    match value {
        Some(text) => text,
        None => Seq::empty(),
    }
}

/// The preferences that the settings stand for. The cache is used only if it
/// is not disabled and the user has a home directory to keep it in.
pub open spec fn preferences_of(
    settings: CliView,
    built_in_key: Seq<char>,
    home_exists: bool,
) -> UserPreferencesView {
    UserPreferencesView {
        interval: interval_in_force(settings.interval),
        buttons: buttons_named(settings.button),
        lastfm_name: text_or_empty(settings.lastfm_name),
        listenbrainz_name: text_or_empty(settings.listenbrainz_name),
        rpc_name: status_source_named(settings.rpc_name),
        small_image: small_image_named(settings.small_image),
        force_player_id: text_or_empty(settings.force_player_id),
        force_player_name: text_or_empty(settings.force_player_name),
        allowlist: settings.allowlist,
        video_players: settings.video_players,
        hide_album_name: settings.hide_album_name,
        only_when_playing: settings.only_when_playing,
        cache_enabled: !settings.disable_cache && home_exists,
        disable_musicbrainz_cover: settings.disable_musicbrainz_cover,
        disable_mpris_art_url: settings.disable_mpris_art_url,
        lastfm_api_key: key_in_force(settings.lastfm_api_key, built_in_key),
    }
}

/// The button that `name` stands for, if any.
pub fn button_kind(name: &str) -> (r: Option<ButtonKind>)
    ensures
        r == button_named(name@),
{
    if text_eq(name, "yt") {
        Some(ButtonKind::Youtube)
    } else if text_eq(name, "lastfm") {
        Some(ButtonKind::Lastfm)
    } else if text_eq(name, "listenbrainz") {
        Some(ButtonKind::Listenbrainz)
    } else if text_eq(name, "mprisUrl") {
        Some(ButtonKind::MprisUrl)
    } else if text_eq(name, "shamelessAd") {
        Some(ButtonKind::ShamelessAd)
    } else {
        None
    }
}

/// The buttons that `names` stand for, in order.
pub fn button_kinds(names: &Vec<String>) -> (r: Vec<ButtonKind>)
    ensures
        r@ == buttons_named(names.deep_view()),
{
    let mut kinds: Vec<ButtonKind> = Vec::new();
    let mut i: usize = 0;
    while i < names.len()
        invariant
            i <= names.len(),
            kinds@ == buttons_named(names.deep_view().take(i as int)),
        decreases names.len() - i,
    {
        proof {
            let now = names.deep_view().take(i + 1);
            assert(now.drop_last() == names.deep_view().take(i as int));
            assert(now.last() == names[i as int]@);
        }
        match button_kind(names[i].as_str()) {
            Some(kind) => kinds.push(kind),
            None => {},
        }
        i += 1;
    }
    assert(names.deep_view().take(names.len() as int) == names.deep_view());
    kinds
}

fn status_source(name: &Option<String>) -> (r: StatusSource)
    ensures
        r == status_source_named(name.deep_view()),
{
    match name {
        None => StatusSource::Artist,
        Some(text) => {
            if text_eq(text.as_str(), "artist") {
                StatusSource::Artist
            } else if text_eq(text.as_str(), "track") {
                StatusSource::Track
            } else if text_eq(text.as_str(), "none") {
                StatusSource::Name
            } else {
                StatusSource::Other
            }
        },
    }
}

fn small_image(name: &Option<String>) -> (r: SmallImage)
    ensures
        r == small_image_named(name.deep_view()),
{
    match name {
        None => SmallImage::PlayPause,
        Some(text) => {
            if text_eq(text.as_str(), "player") {
                SmallImage::Player
            } else if text_eq(text.as_str(), "lastfmAvatar") {
                SmallImage::LastfmAvatar
            } else if text_eq(text.as_str(), "none") {
                SmallImage::Hidden
            } else {
                SmallImage::PlayPause
            }
        },
    }
}

fn or_empty(value: Option<String>) -> (r: String)
    ensures
        r@ == text_or_empty(value.deep_view()),
{
    match value {
        Some(text) => text,
        None => String::new(),
    }
}

fn interval_of(configured: Option<u64>) -> (r: u64)
    ensures
        r == interval_in_force(configured),
        r >= MIN_INTERVAL,
{
    let wanted = match configured {
        Some(seconds) => seconds,
        None => DEFAULT_INTERVAL,
    };
    if wanted < MIN_INTERVAL {
        MIN_INTERVAL
    } else {
        wanted
    }
}

fn key_of(configured: Option<String>, built_in: &str) -> (r: Option<String>)
    ensures
        r.deep_view() == key_in_force(configured.deep_view(), built_in@),
{
    let key = match configured {
        Some(text) => text,
        None => built_in.to_owned(),
    };
    if key.as_str().unicode_len() == 0 {
        None
    } else {
        Some(key)
    }
}

impl UserPreferences {
    /// Fills in the defaults of the settings in force. `built_in_key` is the
    /// key of the primary cover service that the program ships with, empty if
    /// it ships with none; `home_exists` tells whether the user has a home
    /// directory.
    pub fn resolve(settings: Cli, built_in_key: &str, home_exists: bool) -> (r: UserPreferences)
        ensures
            r@ == preferences_of(settings@, built_in_key@, home_exists),
            r.interval >= MIN_INTERVAL,
    {
        UserPreferences {
            interval: interval_of(settings.interval),
            buttons: button_kinds(&settings.button),
            lastfm_name: or_empty(settings.lastfm_name),
            listenbrainz_name: or_empty(settings.listenbrainz_name),
            rpc_name: status_source(&settings.rpc_name),
            small_image: small_image(&settings.small_image),
            force_player_id: or_empty(settings.force_player_id),
            force_player_name: or_empty(settings.force_player_name),
            allowlist: settings.allowlist,
            video_players: settings.video_players,
            hide_album_name: settings.hide_album_name,
            only_when_playing: settings.only_when_playing,
            cache_enabled: !settings.disable_cache && home_exists,
            disable_musicbrainz_cover: settings.disable_musicbrainz_cover,
            disable_mpris_art_url: settings.disable_mpris_art_url,
            lastfm_api_key: key_of(settings.lastfm_api_key, built_in_key),
        }
    }
}

} // verus!
