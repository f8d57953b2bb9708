use music_discord_rpc::prefs::{
    button_kind, button_kinds, ButtonKind, SmallImage, StatusSource, UserPreferences,
};
use music_discord_rpc::settings::{load_settings, Cli, Commands, SubConfig};

fn nothing_set() -> Cli {
    Cli {
        interval: None,
        button: Vec::new(),
        lastfm_name: None,
        listenbrainz_name: None,
        rpc_name: None,
        small_image: None,
        force_player_id: None,
        force_player_name: None,
        disable_mpris_art_url: false,
        list_players: false,
        get_player_id: false,
        allowlist: Vec::new(),
        video_players: Vec::new(),
        hide_album_name: false,
        only_when_playing: false,
        disable_cache: false,
        lastfm_api_key: None,
        disable_musicbrainz_cover: false,
        debug_log: false,
        reset_config: false,
        suboptions: SubConfig::default(),
    }
}

fn everything_set(tag: &str) -> Cli {
    Cli {
        interval: Some(30),
        button: vec![format!("{}-button", tag)],
        lastfm_name: Some(format!("{}-lastfm", tag)),
        listenbrainz_name: Some(format!("{}-listenbrainz", tag)),
        rpc_name: Some(format!("{}-rpc", tag)),
        small_image: Some(format!("{}-image", tag)),
        force_player_id: Some(format!("{}-id", tag)),
        force_player_name: Some(format!("{}-name", tag)),
        disable_mpris_art_url: true,
        list_players: true,
        get_player_id: true,
        allowlist: vec![format!("{}-allowed", tag)],
        video_players: vec![format!("{}-video", tag)],
        hide_album_name: true,
        only_when_playing: true,
        disable_cache: true,
        lastfm_api_key: Some(format!("{}-key", tag)),
        disable_musicbrainz_cover: true,
        debug_log: true,
        reset_config: true,
        suboptions: SubConfig { command: Some(Commands::Enable { xdg: true }) },
    }
}

#[test]
fn default_subconfig_has_no_command() {
    assert_eq!(SubConfig::default().command, None);
}

#[test]
fn without_config_the_arguments_stand() {
    let merged = load_settings(everything_set("args"), None);
    assert_eq!(merged.interval, Some(30));
    assert_eq!(merged.button, vec!["args-button".to_string()]);
    assert_eq!(merged.lastfm_name, Some("args-lastfm".to_string()));
    assert!(merged.disable_cache);
    assert_eq!(merged.suboptions.command, Some(Commands::Enable { xdg: true }));
    let merged = load_settings(nothing_set(), None);
    assert_eq!(merged.interval, None);
    assert!(merged.button.is_empty());
    assert!(!merged.disable_cache);
}

#[test]
fn arguments_win_over_the_config() {
    let mut config = everything_set("file");
    config.interval = Some(60);
    config.suboptions = SubConfig { command: Some(Commands::Restart {}) };
    let merged = load_settings(everything_set("args"), Some(config));
    assert_eq!(merged.interval, Some(30));
    assert_eq!(merged.button, vec!["args-button".to_string()]);
    assert_eq!(merged.lastfm_name, Some("args-lastfm".to_string()));
    assert_eq!(merged.listenbrainz_name, Some("args-listenbrainz".to_string()));
    assert_eq!(merged.rpc_name, Some("args-rpc".to_string()));
    assert_eq!(merged.small_image, Some("args-image".to_string()));
    assert_eq!(merged.force_player_id, Some("args-id".to_string()));
    assert_eq!(merged.force_player_name, Some("args-name".to_string()));
    assert_eq!(merged.allowlist, vec!["args-allowed".to_string()]);
    assert_eq!(merged.video_players, vec!["args-video".to_string()]);
    assert_eq!(merged.lastfm_api_key, Some("args-key".to_string()));
    assert_eq!(merged.suboptions.command, Some(Commands::Enable { xdg: true }));
}

#[test]
fn config_fills_what_the_arguments_leave_open() {
    let mut config = everything_set("file");
    config.interval = Some(60);
    let merged = load_settings(nothing_set(), Some(config));
    assert_eq!(merged.interval, Some(60));
    assert_eq!(merged.button, vec!["file-button".to_string()]);
    assert_eq!(merged.lastfm_name, Some("file-lastfm".to_string()));
    assert_eq!(merged.listenbrainz_name, Some("file-listenbrainz".to_string()));
    assert_eq!(merged.rpc_name, Some("file-rpc".to_string()));
    assert_eq!(merged.small_image, Some("file-image".to_string()));
    assert_eq!(merged.force_player_id, Some("file-id".to_string()));
    assert_eq!(merged.force_player_name, Some("file-name".to_string()));
    assert_eq!(merged.allowlist, vec!["file-allowed".to_string()]);
    assert_eq!(merged.video_players, vec!["file-video".to_string()]);
    assert_eq!(merged.lastfm_api_key, Some("file-key".to_string()));
    assert!(merged.disable_mpris_art_url);
    assert!(merged.list_players);
    assert!(merged.get_player_id);
    assert!(merged.hide_album_name);
    assert!(merged.only_when_playing);
    assert!(merged.disable_cache);
    assert!(merged.disable_musicbrainz_cover);
    assert!(merged.debug_log);
    assert!(merged.reset_config);
    assert_eq!(merged.suboptions.command, None);
}

#[test]
fn switches_are_on_if_either_source_sets_them() {
    let mut args = nothing_set();
    args.hide_album_name = true;
    args.disable_cache = true;
    let mut config = nothing_set();
    config.only_when_playing = true;
    config.disable_cache = true;
    let merged = load_settings(args, Some(config));
    assert!(merged.hide_album_name);
    assert!(merged.only_when_playing);
    assert!(merged.disable_cache);
    assert!(!merged.disable_musicbrainz_cover);
    assert!(!merged.disable_mpris_art_url);
    assert!(!merged.debug_log);
}

#[test]
fn button_names_map_to_kinds() {
    assert_eq!(button_kind("yt"), Some(ButtonKind::Youtube));
    assert_eq!(button_kind("lastfm"), Some(ButtonKind::Lastfm));
    assert_eq!(button_kind("listenbrainz"), Some(ButtonKind::Listenbrainz));
    assert_eq!(button_kind("mprisUrl"), Some(ButtonKind::MprisUrl));
    assert_eq!(button_kind("shamelessAd"), Some(ButtonKind::ShamelessAd));
    assert_eq!(button_kind("YT"), None);
    assert_eq!(button_kind(""), None);
    assert_eq!(button_kind("youtube"), None);
}

#[test]
fn unknown_button_names_are_passed_over() {
    let names: Vec<String> =
        ["yt", "nope", "yt", "lastfm", ""].iter().map(|name| name.to_string()).collect();
    assert_eq!(
        button_kinds(&names),
        vec![ButtonKind::Youtube, ButtonKind::Youtube, ButtonKind::Lastfm]
    );
    assert!(button_kinds(&Vec::new()).is_empty());
}

#[test]
fn defaults_are_filled_in() {
    let prefs = UserPreferences::resolve(nothing_set(), "", true);
    assert_eq!(prefs.interval, 10);
    assert!(prefs.buttons.is_empty());
    assert_eq!(prefs.lastfm_name, "");
    assert_eq!(prefs.listenbrainz_name, "");
    assert_eq!(prefs.rpc_name, StatusSource::Artist);
    assert_eq!(prefs.small_image, SmallImage::PlayPause);
    assert_eq!(prefs.force_player_id, "");
    assert_eq!(prefs.force_player_name, "");
    assert!(prefs.allowlist.is_empty());
    assert!(prefs.video_players.is_empty());
    assert!(!prefs.hide_album_name);
    assert!(!prefs.only_when_playing);
    assert!(prefs.cache_enabled);
    assert!(!prefs.disable_musicbrainz_cover);
    assert!(!prefs.disable_mpris_art_url);
    assert_eq!(prefs.lastfm_api_key, None);
}

#[test]
fn interval_is_never_below_five() {
    for (configured, expected) in
        [(None, 10), (Some(0), 5), (Some(4), 5), (Some(5), 5), (Some(6), 6), (Some(3600), 3600)]
    {
        let mut settings = nothing_set();
        settings.interval = configured;
        assert_eq!(UserPreferences::resolve(settings, "", true).interval, expected);
    }
    let mut settings = nothing_set();
    settings.interval = Some(u64::MAX);
    assert_eq!(UserPreferences::resolve(settings, "", true).interval, u64::MAX);
}

#[test]
fn user_key_wins_over_the_built_in_one() {
    let mut settings = nothing_set();
    settings.lastfm_api_key = Some("mine".to_string());
    assert_eq!(
        UserPreferences::resolve(settings, "built-in", true).lastfm_api_key,
        Some("mine".to_string())
    );
    assert_eq!(
        UserPreferences::resolve(nothing_set(), "built-in", true).lastfm_api_key,
        Some("built-in".to_string())
    );
    assert_eq!(UserPreferences::resolve(nothing_set(), "", true).lastfm_api_key, None);
    let mut settings = nothing_set();
    settings.lastfm_api_key = Some(String::new());
    assert_eq!(UserPreferences::resolve(settings, "built-in", true).lastfm_api_key, None);
}

#[test]
fn cache_needs_a_home_directory() {
    assert!(UserPreferences::resolve(nothing_set(), "", true).cache_enabled);
    assert!(!UserPreferences::resolve(nothing_set(), "", false).cache_enabled);
    let mut settings = nothing_set();
    settings.disable_cache = true;
    assert!(!UserPreferences::resolve(settings, "", true).cache_enabled);
}

#[test]
fn named_choices_are_recognised() {
    for (name, source) in [
        ("artist", StatusSource::Artist),
        ("track", StatusSource::Track),
        ("none", StatusSource::Name),
        ("Artist", StatusSource::Other),
        ("", StatusSource::Other),
    ] {
        let mut settings = nothing_set();
        settings.rpc_name = Some(name.to_string());
        assert_eq!(UserPreferences::resolve(settings, "", true).rpc_name, source);
    }
    for (name, image) in [
        ("playPause", SmallImage::PlayPause),
        ("player", SmallImage::Player),
        ("lastfmAvatar", SmallImage::LastfmAvatar),
        ("none", SmallImage::Hidden),
        ("something", SmallImage::PlayPause),
    ] {
        let mut settings = nothing_set();
        settings.small_image = Some(name.to_string());
        assert_eq!(UserPreferences::resolve(settings, "", true).small_image, image);
    }
}

#[test]
fn settings_carry_over_into_preferences() {
    let mut settings = everything_set("x");
    settings.button = vec!["lastfm".to_string(), "bogus".to_string(), "yt".to_string()];
    let prefs = UserPreferences::resolve(settings, "built-in", true);
    assert_eq!(prefs.interval, 30);
    assert_eq!(prefs.buttons, vec![ButtonKind::Lastfm, ButtonKind::Youtube]);
    assert_eq!(prefs.lastfm_name, "x-lastfm");
    assert_eq!(prefs.listenbrainz_name, "x-listenbrainz");
    assert_eq!(prefs.force_player_id, "x-id");
    assert_eq!(prefs.force_player_name, "x-name");
    assert_eq!(prefs.allowlist, vec!["x-allowed".to_string()]);
    assert_eq!(prefs.video_players, vec!["x-video".to_string()]);
    assert!(prefs.hide_album_name);
    assert!(prefs.only_when_playing);
    assert!(!prefs.cache_enabled);
    assert!(prefs.disable_musicbrainz_cover);
    assert!(prefs.disable_mpris_art_url);
    assert_eq!(prefs.lastfm_api_key, Some("x-key".to_string()));
}
