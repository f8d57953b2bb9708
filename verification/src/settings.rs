//! Settings as the user gives them, on the command line and in the
//! configuration file, and the preferences that the daemon runs with.

use vstd::prelude::*;

verus! {

/// The refresh interval used when none is set, in seconds.
pub const DEFAULT_INTERVAL: u64 = 10;

/// The shortest refresh interval, in seconds.
pub const MIN_INTERVAL: u64 = 5;

/// The settings of one source: the command line, or the configuration file.
#[derive(Debug)]
pub struct Cli {
    /// Activity refresh rate in seconds.
    pub interval: Option<u64>,
    /// The buttons to show, by name and in order.
    pub button: Vec<String>,
    pub lastfm_name: Option<String>,
    pub listenbrainz_name: Option<String>,
    /// What is displayed after "Listening to".
    pub rpc_name: Option<String>,
    /// The icon displayed next to the album cover.
    pub small_image: Option<String>,
    pub force_player_id: Option<String>,
    pub force_player_name: Option<String>,
    pub disable_mpris_art_url: bool,
    pub list_players: bool,
    pub get_player_id: bool,
    pub allowlist: Vec<String>,
    pub video_players: Vec<String>,
    pub hide_album_name: bool,
    pub only_when_playing: bool,
    pub disable_cache: bool,
    pub lastfm_api_key: Option<String>,
    pub disable_musicbrainz_cover: bool,
    pub debug_log: bool,
    pub reset_config: bool,
    pub suboptions: SubConfig,
}

/// The subcommand given on the command line, if any.
#[derive(Clone, Copy, Debug, PartialEq, Eq, Structural)]
pub struct SubConfig {
    pub command: Option<Commands>,
}

/// The subcommands that manage the background service.
#[derive(Clone, Copy, Debug, PartialEq, Eq, Structural)]
pub enum Commands {
    /// Start in the background and enable autostart.
    Enable { xdg: bool },
    /// Stop and disable autostart.
    Disable { xdg: bool },
    /// Restart the service to reload the configuration file.
    Restart {  },
}

/// The mathematical value of a [`Cli`].
pub struct CliView {
    pub interval: Option<u64>,
    pub button: Seq<Seq<char>>,
    pub lastfm_name: Option<Seq<char>>,
    pub listenbrainz_name: Option<Seq<char>>,
    pub rpc_name: Option<Seq<char>>,
    pub small_image: Option<Seq<char>>,
    pub force_player_id: Option<Seq<char>>,
    pub force_player_name: Option<Seq<char>>,
    pub disable_mpris_art_url: bool,
    pub list_players: bool,
    pub get_player_id: bool,
    pub allowlist: Seq<Seq<char>>,
    pub video_players: Seq<Seq<char>>,
    pub hide_album_name: bool,
    pub only_when_playing: bool,
    pub disable_cache: bool,
    pub lastfm_api_key: Option<Seq<char>>,
    pub disable_musicbrainz_cover: bool,
    pub debug_log: bool,
    pub reset_config: bool,
    pub suboptions: SubConfig,
}

impl View for Cli {
    type V = CliView;

    open spec fn view(&self) -> CliView {
        CliView {
            interval: self.interval,
            button: self.button.deep_view(),
            lastfm_name: self.lastfm_name.deep_view(),
            listenbrainz_name: self.listenbrainz_name.deep_view(),
            rpc_name: self.rpc_name.deep_view(),
            small_image: self.small_image.deep_view(),
            force_player_id: self.force_player_id.deep_view(),
            force_player_name: self.force_player_name.deep_view(),
            disable_mpris_art_url: self.disable_mpris_art_url,
            list_players: self.list_players,
            get_player_id: self.get_player_id,
            allowlist: self.allowlist.deep_view(),
            video_players: self.video_players.deep_view(),
            hide_album_name: self.hide_album_name,
            only_when_playing: self.only_when_playing,
            disable_cache: self.disable_cache,
            lastfm_api_key: self.lastfm_api_key.deep_view(),
            disable_musicbrainz_cover: self.disable_musicbrainz_cover,
            debug_log: self.debug_log,
            reset_config: self.reset_config,
            suboptions: self.suboptions,
        }
    }
}

impl Default for SubConfig {
    fn default() -> (r: SubConfig)
        ensures
            r.command is None,
    {
        SubConfig { command: None }
    }
}

/// An optional value of the command line wins over the one of the file.
pub open spec fn preferred<T>(given: Option<T>, configured: Option<T>) -> Option<T> {
    if given is Some {
        given
    } else {
        configured
    }
}

/// A list of the command line wins over the one of the file unless it is empty.
pub open spec fn preferred_list<T>(given: Seq<T>, configured: Seq<T>) -> Seq<T> {
    if given.len() > 0 {
        given
    } else {
        configured
    }
}

/// The settings of the command line laid over those of the configuration
/// file: a value given on the command line wins, a switch is on if either
/// source turns it on, and the subcommand is that of the command line.
pub open spec fn merged(args: CliView, config: CliView) -> CliView {
    CliView {
        interval: preferred(args.interval, config.interval),
        button: preferred_list(args.button, config.button),
        lastfm_name: preferred(args.lastfm_name, config.lastfm_name),
        listenbrainz_name: preferred(args.listenbrainz_name, config.listenbrainz_name),
        rpc_name: preferred(args.rpc_name, config.rpc_name),
        small_image: preferred(args.small_image, config.small_image),
        force_player_id: preferred(args.force_player_id, config.force_player_id),
        force_player_name: preferred(args.force_player_name, config.force_player_name),
        disable_mpris_art_url: args.disable_mpris_art_url || config.disable_mpris_art_url,
        list_players: args.list_players || config.list_players,
        get_player_id: args.get_player_id || config.get_player_id,
        allowlist: preferred_list(args.allowlist, config.allowlist),
        video_players: preferred_list(args.video_players, config.video_players),
        hide_album_name: args.hide_album_name || config.hide_album_name,
        only_when_playing: args.only_when_playing || config.only_when_playing,
        disable_cache: args.disable_cache || config.disable_cache,
        lastfm_api_key: preferred(args.lastfm_api_key, config.lastfm_api_key),
        disable_musicbrainz_cover: args.disable_musicbrainz_cover
            || config.disable_musicbrainz_cover,
        debug_log: args.debug_log || config.debug_log,
        reset_config: args.reset_config || config.reset_config,
        suboptions: args.suboptions,
    }
}

/// The settings in force: the command line alone where there is no usable
/// configuration file, else the two merged.
pub open spec fn settings_in_force(args: CliView, config: Option<Cli>) -> CliView {
    match config {
        Some(file) => merged(args, file@),
        None => args,
    }
}

fn prefer<T>(given: Option<T>, configured: Option<T>) -> (r: Option<T>)
    ensures
        r == preferred(given, configured),
{
    if given.is_some() {
        given
    } else {
        configured
    }
}

fn prefer_list(given: Vec<String>, configured: Vec<String>) -> (r: Vec<String>)
    ensures
        r == (if given@.len() > 0 {
            given
        } else {
            configured
        }),
{
    if given.len() > 0 {
        given
    } else {
        configured
    }
}

/// Merges the settings of the command line with those read from the
/// configuration file. `config` is `None` where the file is missing or could
/// not be read or parsed.
pub fn load_settings(args: Cli, config: Option<Cli>) -> (r: Cli)
    ensures
        r@ == settings_in_force(args@, config),
{
    let config = match config {
        Some(file) => file,
        None => {
            return args;
        },
    };
    Cli {
        interval: prefer(args.interval, config.interval),
        button: prefer_list(args.button, config.button),
        lastfm_name: prefer(args.lastfm_name, config.lastfm_name),
        listenbrainz_name: prefer(args.listenbrainz_name, config.listenbrainz_name),
        rpc_name: prefer(args.rpc_name, config.rpc_name),
        small_image: prefer(args.small_image, config.small_image),
        force_player_id: prefer(args.force_player_id, config.force_player_id),
        force_player_name: prefer(args.force_player_name, config.force_player_name),
        disable_mpris_art_url: args.disable_mpris_art_url || config.disable_mpris_art_url,
        list_players: args.list_players || config.list_players,
        get_player_id: args.get_player_id || config.get_player_id,
        allowlist: prefer_list(args.allowlist, config.allowlist),
        video_players: prefer_list(args.video_players, config.video_players),
        hide_album_name: args.hide_album_name || config.hide_album_name,
        only_when_playing: args.only_when_playing || config.only_when_playing,
        disable_cache: args.disable_cache || config.disable_cache,
        lastfm_api_key: prefer(args.lastfm_api_key, config.lastfm_api_key),
        disable_musicbrainz_cover: args.disable_musicbrainz_cover
            || config.disable_musicbrainz_cover,
        debug_log: args.debug_log || config.debug_log,
        reset_config: args.reset_config || config.reset_config,
        suboptions: args.suboptions,
    }
}

} // verus!
