use music_discord_rpc::change::PresenceState;
use music_discord_rpc::media::MediaInfo;
use music_discord_rpc::prefs::{SmallImage, StatusSource, UserPreferences};
use music_discord_rpc::session::{
    clear_activity, judge, step, Channel, ClearStage, ClearStep, Directive, Event, Notice, Phase,
    PlayerNotice, Request, Session, Verdict,
};

fn prefs_for_session() -> UserPreferences {
    UserPreferences {
        interval: 10,
        buttons: Vec::new(),
        lastfm_name: String::new(),
        listenbrainz_name: String::new(),
        rpc_name: StatusSource::Artist,
        small_image: SmallImage::PlayPause,
        force_player_id: String::new(),
        force_player_name: String::new(),
        allowlist: Vec::new(),
        video_players: vec!["mpv".to_string()],
        hide_album_name: false,
        only_when_playing: false,
        cache_enabled: true,
        disable_musicbrainz_cover: false,
        disable_mpris_art_url: false,
        lastfm_api_key: None,
    }
}

fn player(identity: &str) -> Event {
    Event::PlayerFound { identity: identity.to_string() }
}

fn playing(title: &str, position: u64) -> MediaInfo {
    MediaInfo {
        title: title.to_string(),
        artist: "Band".to_string(),
        album_artist: "Band".to_string(),
        album: "Album".to_string(),
        is_playing: true,
        duration: 200,
        position,
        is_track_position: true,
        art_url: String::new(),
        url: String::new(),
    }
}

fn placeholders() -> MediaInfo {
    MediaInfo {
        title: "Unknown Title".to_string(),
        artist: "Unknown Artist".to_string(),
        album_artist: "Unknown Artist".to_string(),
        album: "Unknown Album".to_string(),
        is_playing: true,
        duration: 0,
        position: 42,
        is_track_position: true,
        art_url: String::new(),
        url: String::new(),
    }
}

fn waiting_for(next: Request) -> Directive {
    Directive { notice: None, clear: false, close: false, wait: true, next }
}

fn ready_session(prefs: &UserPreferences) -> Session {
    let mut session = Session::new();
    step(&mut session, &player("Spotify"), prefs);
    step(&mut session, &Event::SinkConnected, prefs);
    assert_eq!(session.phase, Phase::SinkReady);
    session
}

fn shown_session(prefs: &UserPreferences, info: &MediaInfo) -> Session {
    let mut session = ready_session(prefs);
    let directive = step(&mut session, &Event::Snapshot(info.duplicate()), prefs);
    assert_eq!(directive.next, Request::Publish { lookup_cover: true });
    session.remember_cover(&info.album_id(), "missing-cover");
    step(&mut session, &Event::Published, prefs);
    assert_eq!(session.phase, Phase::SinkReady);
    session
}

#[test]
fn new_session_waits_for_a_player() {
    let session = Session::new();
    assert_eq!(session.phase, Phase::NoPlayer);
    assert_eq!(session.channel, Channel::Audio);
    assert!(!session.audio_opened);
    assert!(!session.video_opened);
    assert!(!session.source_notified);
    assert_eq!(session.player_notice, PlayerNotice::Nothing);
    assert!(!session.sink_notified);
    assert_eq!(session.cursor, 0);
    assert!(!session.opened());
    assert_eq!(session.cover(), "");
    assert_eq!(session.search(&prefs_for_session()), Request::FindPlayer { allowed: None });
}

#[test]
fn unreachable_source_is_logged_once() {
    let prefs = prefs_for_session();
    let mut session = Session::new();
    let first = step(&mut session, &Event::SourceUnavailable, &prefs);
    assert_eq!(
        first,
        Directive {
            notice: Some(Notice::SourceUnreachable),
            clear: true,
            close: false,
            wait: true,
            next: Request::FindPlayer { allowed: None },
        }
    );
    assert_eq!(session.phase, Phase::NoPlayer);
    let second = step(&mut session, &Event::SourceUnavailable, &prefs);
    assert_eq!(second.notice, None);
    assert_eq!(second.next, Request::FindPlayer { allowed: None });
    step(&mut session, &player("Spotify"), &prefs);
    assert!(!session.source_notified);
}

#[test]
fn missing_player_is_logged_once_per_loss() {
    let prefs = prefs_for_session();
    let mut session = Session::new();
    let first = step(&mut session, &Event::PlayerMissing, &prefs);
    assert_eq!(first.notice, Some(Notice::WaitingForPlayer));
    assert!(first.clear);
    assert!(first.wait);
    assert_eq!(first.next, Request::FindPlayer { allowed: None });
    assert!(session.audio.is_interrupted);
    let second = step(&mut session, &Event::PlayerMissing, &prefs);
    assert_eq!(second.notice, None);
    let found = step(&mut session, &player("Spotify"), &prefs);
    assert_eq!(found.notice, Some(Notice::PlayerFound));
    step(&mut session, &Event::SinkRefused, &prefs);
    let again = step(&mut session, &Event::PlayerMissing, &prefs);
    assert_eq!(again.notice, Some(Notice::WaitingForPlayer));
    assert!(!session.sink_notified);
}

#[test]
fn allowlist_changes_the_waiting_line() {
    let mut prefs = prefs_for_session();
    prefs.allowlist = vec!["Spotify".to_string()];
    let mut session = Session::new();
    assert_eq!(session.search(&prefs), Request::FindPlayer { allowed: Some(0) });
    let directive = step(&mut session, &Event::PlayerMissing, &prefs);
    assert_eq!(directive.notice, Some(Notice::WaitingForAllowedPlayer));
    assert!(directive.wait);
    assert!(directive.clear);
    assert_eq!(directive.next, Request::FindPlayer { allowed: Some(0) });
}

#[test]
fn allowlist_is_asked_in_order() {
    let mut prefs = prefs_for_session();
    prefs.allowlist = vec!["Spotify".to_string(), "VLC".to_string(), "mpv".to_string()];
    let mut session = Session::new();
    assert_eq!(session.search(&prefs), Request::FindPlayer { allowed: Some(0) });

    let directive = step(&mut session, &Event::PlayerMissing, &prefs);
    assert_eq!(
        directive,
        Directive {
            notice: None,
            clear: false,
            close: false,
            wait: false,
            next: Request::FindPlayer { allowed: Some(1) },
        }
    );
    assert_eq!(session.phase, Phase::NoPlayer);
    assert!(!session.audio.is_interrupted);
    assert_eq!(session.player_notice, PlayerNotice::Nothing);

    let directive = step(&mut session, &Event::PlayerMissing, &prefs);
    assert_eq!(directive.next, Request::FindPlayer { allowed: Some(2) });
    assert!(!directive.wait);

    let directive = step(&mut session, &Event::PlayerMissing, &prefs);
    assert_eq!(
        directive,
        Directive {
            notice: Some(Notice::WaitingForAllowedPlayer),
            clear: true,
            close: false,
            wait: true,
            next: Request::FindPlayer { allowed: Some(0) },
        }
    );
    assert_eq!(session.cursor, 0);
    assert!(session.audio.is_interrupted);

    step(&mut session, &Event::PlayerMissing, &prefs);
    let directive = step(&mut session, &player("VLC"), &prefs);
    assert_eq!(directive.next, Request::Connect(Channel::Audio));
    assert_eq!(session.cursor, 0);
}

#[test]
fn channel_follows_the_list_of_video_players() {
    let prefs = prefs_for_session();
    let mut session = Session::new();
    let directive = step(&mut session, &player("mpv"), &prefs);
    assert_eq!(directive.next, Request::Connect(Channel::Video));
    let mut session = Session::new();
    let directive = step(&mut session, &player("MPV"), &prefs);
    assert_eq!(directive.next, Request::Connect(Channel::Audio));
    let mut session = Session::new();
    let directive = step(&mut session, &player(""), &prefs);
    assert_eq!(directive.next, Request::Connect(Channel::Audio));
}

#[test]
fn first_connection_connects_and_later_ones_reconnect() {
    let prefs = prefs_for_session();
    let mut session = Session::new();
    let found = step(&mut session, &player("Spotify"), &prefs);
    assert_eq!(
        found,
        Directive {
            notice: Some(Notice::PlayerFound),
            clear: false,
            close: false,
            wait: false,
            next: Request::Connect(Channel::Audio),
        }
    );
    assert_eq!(session.phase, Phase::SinkConnecting);
    let refused = step(&mut session, &Event::SinkRefused, &prefs);
    assert_eq!(refused.notice, Some(Notice::ConnectRefused));
    assert!(refused.wait);
    assert_eq!(refused.next, Request::FindPlayer { allowed: None });
    assert_eq!(session.phase, Phase::NoSink);

    let found = step(&mut session, &player("Spotify"), &prefs);
    assert_eq!(found.notice, None);
    assert_eq!(found.next, Request::Connect(Channel::Audio));
    let refused = step(&mut session, &Event::SinkRefused, &prefs);
    assert_eq!(refused.notice, None);

    step(&mut session, &player("Spotify"), &prefs);
    let connected = step(&mut session, &Event::SinkConnected, &prefs);
    assert_eq!(connected.notice, Some(Notice::Connected));
    assert_eq!(connected.next, Request::ReadSnapshot);
    assert!(!connected.wait);
    assert!(session.audio_opened);
    assert!(session.audio.connected);
    assert_eq!(session.phase, Phase::SinkReady);

    step(&mut session, &Event::SnapshotFailed, &prefs);
    let found = step(&mut session, &player("Spotify"), &prefs);
    assert_eq!(found.next, Request::Reconnect(Channel::Audio));
}

#[test]
fn reconnection_interrupts_the_channel() {
    let prefs = prefs_for_session();
    let info = playing("Song", 10);
    let mut session = shown_session(&prefs, &info);
    assert!(!session.audio.is_interrupted);
    step(&mut session, &Event::SnapshotFailed, &prefs);
    step(&mut session, &player("Spotify"), &prefs);
    let refused = step(&mut session, &Event::SinkRefused, &prefs);
    assert_eq!(refused.notice, Some(Notice::ReconnectRefused));
    step(&mut session, &player("Spotify"), &prefs);
    let connected = step(&mut session, &Event::SinkConnected, &prefs);
    assert_eq!(connected.notice, Some(Notice::Reconnected));
    assert!(session.audio.is_interrupted);
    let directive = step(&mut session, &Event::Snapshot(info.duplicate()), &prefs);
    assert_eq!(directive.next, Request::Publish { lookup_cover: false });
}

#[test]
fn quiet_reconnection_logs_nothing() {
    let prefs = prefs_for_session();
    let mut session = ready_session(&prefs);
    step(&mut session, &Event::SnapshotFailed, &prefs);
    step(&mut session, &player("Spotify"), &prefs);
    let connected = step(&mut session, &Event::SinkConnected, &prefs);
    assert_eq!(connected.notice, None);
}

#[test]
fn video_player_uses_the_video_channel() {
    let prefs = prefs_for_session();
    let mut session = ready_session(&prefs);
    session.audio.is_activity_set = true;
    step(&mut session, &Event::SnapshotFailed, &prefs);
    let found = step(&mut session, &player("mpv"), &prefs);
    assert_eq!(found.next, Request::Connect(Channel::Video));
    assert_eq!(session.channel, Channel::Video);
    assert!(!session.video.is_interrupted);
    assert!(!session.video.is_activity_set);
    assert!(session.audio.is_activity_set);
    step(&mut session, &Event::SinkConnected, &prefs);
    assert!(session.video_opened);
    assert!(session.audio_opened);
}

#[test]
fn switching_channel_starts_it_afresh() {
    let prefs = prefs_for_session();
    let info = playing("Song", 10);
    let mut session = shown_session(&prefs, &info);
    assert_eq!(session.audio.last_title, "Song");
    step(&mut session, &Event::SnapshotFailed, &prefs);
    step(&mut session, &player("mpv"), &prefs);
    step(&mut session, &Event::SinkConnected, &prefs);
    step(&mut session, &Event::SnapshotFailed, &prefs);
    step(&mut session, &player("Spotify"), &prefs);
    assert_eq!(session.channel, Channel::Audio);
    assert_eq!(session.audio.last_title, "");
    assert_eq!(session.audio.cover_url, "");
    assert!(!session.audio.is_interrupted);
    assert!(!session.audio.is_activity_set);
}

#[test]
fn placeholder_snapshot_is_skipped_without_a_trace() {
    let prefs = prefs_for_session();
    let mut session = ready_session(&prefs);
    session.audio.last_position = 7;
    let directive = step(&mut session, &Event::Snapshot(placeholders()), &prefs);
    assert_eq!(directive, waiting_for(Request::ReadSnapshot));
    assert_eq!(session.phase, Phase::SinkReady);
    assert_eq!(session.audio.last_position, 7);
    assert_eq!(session.audio.last_title, "");
    assert!(!session.audio.is_interrupted);
}

#[test]
fn nameless_snapshot_is_skipped() {
    let prefs = prefs_for_session();
    let mut session = ready_session(&prefs);
    let mut info = playing("", 10);
    let directive = step(&mut session, &Event::Snapshot(info.duplicate()), &prefs);
    assert_eq!(directive, waiting_for(Request::ReadSnapshot));
    assert_eq!(session.audio.last_position, 0);
    info.title = "Song".to_string();
    info.artist = String::new();
    let directive = step(&mut session, &Event::Snapshot(info), &prefs);
    assert_eq!(directive, waiting_for(Request::ReadSnapshot));
}

#[test]
fn snapshot_is_published_then_kept() {
    let prefs = prefs_for_session();
    let mut session = ready_session(&prefs);
    let info = playing("Song", 10);
    let directive = step(&mut session, &Event::Snapshot(info.duplicate()), &prefs);
    assert_eq!(
        directive,
        Directive {
            notice: None,
            clear: false,
            close: false,
            wait: false,
            next: Request::Publish { lookup_cover: true },
        }
    );
    assert_eq!(session.phase, Phase::Publishing);
    assert_eq!(session.audio.last_title, "Song");
    assert_eq!(session.audio.last_position, 10);
    session.remember_cover("Band - Album", "https://img/x.png");
    assert_eq!(session.cover(), "https://img/x.png");

    let directive = step(&mut session, &Event::Published, &prefs);
    assert_eq!(
        directive,
        Directive {
            notice: Some(Notice::Published),
            clear: false,
            close: false,
            wait: true,
            next: Request::ReadSnapshot,
        }
    );
    assert!(session.audio.is_activity_set);
    assert!(!session.audio.is_interrupted);

    let directive = step(&mut session, &Event::Snapshot(playing("Song", 20)), &prefs);
    assert_eq!(directive, waiting_for(Request::ReadSnapshot));
    assert_eq!(session.audio.last_position, 20);

    let directive = step(&mut session, &Event::Snapshot(playing("Next", 1)), &prefs);
    assert_eq!(directive.next, Request::Publish { lookup_cover: false });
}

#[test]
fn refused_presence_closes_the_sink() {
    let prefs = prefs_for_session();
    let mut session = ready_session(&prefs);
    step(&mut session, &Event::Snapshot(playing("Song", 10)), &prefs);
    let directive = step(&mut session, &Event::PublishFailed, &prefs);
    assert_eq!(
        directive,
        Directive {
            notice: Some(Notice::PublishFailed),
            clear: false,
            close: true,
            wait: true,
            next: Request::FindPlayer { allowed: None },
        }
    );
    assert_eq!(session.phase, Phase::NoPlayer);
    assert!(session.audio.is_interrupted);
    assert!(!session.audio.is_activity_set);
    assert!(!session.audio.connected);
    let found = step(&mut session, &player("Spotify"), &prefs);
    assert_eq!(found.next, Request::Reconnect(Channel::Audio));
}

#[test]
fn failed_snapshot_withdraws_the_presence() {
    let prefs = prefs_for_session();
    let mut session = shown_session(&prefs, &playing("Song", 10));
    let directive = step(&mut session, &Event::SnapshotFailed, &prefs);
    assert_eq!(
        directive,
        Directive {
            notice: Some(Notice::SnapshotFailed),
            clear: true,
            close: false,
            wait: true,
            next: Request::FindPlayer { allowed: None },
        }
    );
    assert_eq!(session.phase, Phase::NoPlayer);
    assert!(session.audio.is_interrupted);
}

#[test]
fn lost_player_forgets_the_record() {
    let prefs = prefs_for_session();
    let mut session = shown_session(&prefs, &playing("Song", 10));
    step(&mut session, &Event::SnapshotFailed, &prefs);
    step(&mut session, &Event::PlayerMissing, &prefs);
    assert_eq!(session.audio.last_title, "");
    assert_eq!(session.audio.last_album_id, "");
    assert_eq!(session.audio.cover_url, "");
    assert_eq!(session.audio.last_position, 0);
    assert!(session.audio.is_interrupted);
    assert!(session.audio.is_activity_set);
}

#[test]
fn only_when_playing_withdraws_paused_media() {
    let mut prefs = prefs_for_session();
    prefs.only_when_playing = true;
    let mut session = shown_session(&prefs, &playing("Song", 10));
    let mut paused = playing("Song", 10);
    paused.is_playing = false;
    let directive = step(&mut session, &Event::Snapshot(paused), &prefs);
    assert_eq!(
        directive,
        Directive {
            notice: None,
            clear: true,
            close: false,
            wait: true,
            next: Request::ReadSnapshot,
        }
    );
    assert_eq!(session.phase, Phase::SinkReady);
    assert!(session.audio.is_interrupted);
    let directive = step(&mut session, &Event::Snapshot(playing("Song", 11)), &prefs);
    assert_eq!(directive.next, Request::Publish { lookup_cover: false });
}

#[test]
fn unexpected_events_repeat_the_request() {
    let prefs = prefs_for_session();
    let mut session = Session::new();
    for event in [
        Event::SinkConnected,
        Event::SinkRefused,
        Event::SnapshotFailed,
        Event::Snapshot(playing("Song", 1)),
        Event::Published,
        Event::PublishFailed,
    ] {
        let directive = step(&mut session, &event, &prefs);
        assert_eq!(directive, waiting_for(Request::FindPlayer { allowed: None }));
        assert_eq!(session.phase, Phase::NoPlayer);
        assert_eq!(session.audio.last_position, 0);
    }
    step(&mut session, &player("mpv"), &prefs);
    let directive = step(&mut session, &Event::Published, &prefs);
    assert_eq!(
        directive,
        Directive {
            notice: None,
            clear: false,
            close: false,
            wait: false,
            next: Request::Connect(Channel::Video),
        }
    );
    step(&mut session, &Event::SinkConnected, &prefs);
    let directive = step(&mut session, &Event::PlayerMissing, &prefs);
    assert_eq!(directive, waiting_for(Request::ReadSnapshot));
    step(&mut session, &Event::Snapshot(playing("Song", 1)), &prefs);
    let directive = step(&mut session, &Event::SinkConnected, &prefs);
    assert_eq!(directive.next, Request::Publish { lookup_cover: true });
    assert!(!directive.wait);
    assert_eq!(session.phase, Phase::Publishing);
}

#[test]
fn judge_gives_each_verdict() {
    let mut state = PresenceState::new();
    let mut paused = playing("Song", 5);
    paused.is_playing = false;
    assert_eq!(judge(&mut state, &paused, true), Verdict::Withdraw);
    assert!(state.is_interrupted);
    assert_eq!(state.last_position, 0);

    let mut state = PresenceState::new();
    assert_eq!(judge(&mut state, &placeholders(), false), Verdict::PassOver);
    assert_eq!(state.last_position, 0);

    let mut state = PresenceState::new();
    assert_eq!(
        judge(&mut state, &playing("Song", 5), false),
        Verdict::Publish { lookup_cover: true }
    );
    assert_eq!(state.last_title, "Song");
    assert_eq!(state.last_position, 5);
    state.remember_cover("Band - Album", "missing-cover");
    assert_eq!(judge(&mut state, &playing("Song", 9), false), Verdict::Keep);
    assert_eq!(state.last_position, 9);
    assert_eq!(
        judge(&mut state, &playing("Song", 2), false),
        Verdict::Publish { lookup_cover: false }
    );
}

#[test]
fn clearing_nothing_is_done_at_once() {
    let mut shown = false;
    assert_eq!(clear_activity(&mut shown, ClearStage::Start, false), ClearStep::Done);
    assert!(!shown);
}

#[test]
fn clearing_succeeds_at_the_first_attempt() {
    let mut shown = true;
    let step = clear_activity(&mut shown, ClearStage::Start, false);
    assert_eq!(step, ClearStep::Clear { awaiting: ClearStage::FirstClear });
    assert!(shown);
    assert_eq!(clear_activity(&mut shown, ClearStage::FirstClear, true), ClearStep::Done);
    assert!(!shown);
}

#[test]
fn clearing_reconnects_after_a_failure() {
    let mut shown = true;
    assert_eq!(
        clear_activity(&mut shown, ClearStage::FirstClear, false),
        ClearStep::Reconnect { awaiting: ClearStage::Reconnect }
    );
    assert!(shown);
    assert_eq!(
        clear_activity(&mut shown, ClearStage::Reconnect, true),
        ClearStep::Clear { awaiting: ClearStage::SecondClear }
    );
    assert!(shown);
    assert_eq!(clear_activity(&mut shown, ClearStage::SecondClear, true), ClearStep::Done);
    assert!(!shown);
}

#[test]
fn clearing_gives_up_after_the_second_failure() {
    let mut shown = true;
    assert_eq!(clear_activity(&mut shown, ClearStage::Reconnect, false), ClearStep::Done);
    assert!(shown);
    assert_eq!(clear_activity(&mut shown, ClearStage::SecondClear, false), ClearStep::Done);
    assert!(shown);
}

#[test]
fn session_clears_the_active_channel() {
    let prefs = prefs_for_session();
    let mut session = shown_session(&prefs, &playing("Song", 10));
    assert!(session.audio.is_activity_set);
    session.video.is_activity_set = true;
    assert_eq!(
        session.clear_step(ClearStage::Start, false),
        ClearStep::Clear { awaiting: ClearStage::FirstClear }
    );
    assert_eq!(session.clear_step(ClearStage::FirstClear, true), ClearStep::Done);
    assert!(!session.audio.is_activity_set);
    assert!(session.video.is_activity_set);
}
