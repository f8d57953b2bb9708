//! The presence session: a state machine driven by what happens outside.
//!
//! The library performs no input or output. The caller carries out a
//! [`Directive`], reports what came of it as an [`Event`], and gets the next
//! directive from [`step`]. A session rests in one of five phases, each with
//! one request outstanding; finding a player is passed through within a step,
//! on the way from waiting for a player to connecting the sink.

use crate::change::{
    fresh_state, forgotten, lacks_name, nameless, is_placeholder_media, observed,
    placeholder_media, publish_due, recorded, should_publish, PresenceState, PresenceStateView,
};
use crate::media::{album_identity, MediaInfo, MediaInfoView};
use crate::player::listed;
use crate::prefs::{UserPreferences, UserPreferencesView};
use vstd::prelude::*;
use vstd::string::*;

verus! {

/// The two presence channels.
#[derive(Clone, Copy, Debug, PartialEq, Eq, Structural)]
pub enum Channel {
    Audio,
    Video,
}

/// Where a session rests between two events.
#[derive(Clone, Copy, Debug, PartialEq, Eq, Structural)]
pub enum Phase {
    /// No player is known; the media source is being asked for one.
    NoPlayer,
    /// The sink refused the connection; the session starts over.
    NoSink,
    /// The sink of the active channel is being connected.
    SinkConnecting,
    /// The sink is connected; the player is being asked for a snapshot.
    SinkReady,
    /// A presence is being published.
    Publishing,
}

/// The line about the player that was logged last.
#[derive(Clone, Copy, Debug, PartialEq, Eq, Structural)]
pub enum PlayerNotice {
    Nothing,
    Found,
    Missing,
}

/// What happened outside.
#[derive(Debug)]
pub enum Event {
    /// The media source could not be reached.
    SourceUnavailable,
    /// The media source has no player to report.
    PlayerMissing,
    /// A player was found; `identity` is the name that it gives itself.
    PlayerFound { identity: String },
    /// The sink accepted the connection.
    SinkConnected,
    /// The sink refused the connection.
    SinkRefused,
    /// The player gave no snapshot.
    SnapshotFailed,
    /// The player gave a snapshot.
    Snapshot(MediaInfo),
    /// The presence was published.
    Published,
    /// The sink refused the presence.
    PublishFailed,
}

/// The mathematical value of an [`Event`].
pub enum EventView {
    SourceUnavailable,
    PlayerMissing,
    PlayerFound { identity: Seq<char> },
    SinkConnected,
    SinkRefused,
    SnapshotFailed,
    Snapshot(MediaInfoView),
    Published,
    PublishFailed,
}

impl View for Event {
    type V = EventView;

    open spec fn view(&self) -> EventView {
        match *self {
            Event::SourceUnavailable => EventView::SourceUnavailable,
            Event::PlayerMissing => EventView::PlayerMissing,
            Event::PlayerFound { identity } => EventView::PlayerFound { identity: identity@ },
            Event::SinkConnected => EventView::SinkConnected,
            Event::SinkRefused => EventView::SinkRefused,
            Event::SnapshotFailed => EventView::SnapshotFailed,
            Event::Snapshot(new) => EventView::Snapshot(new@),
            Event::Published => EventView::Published,
            Event::PublishFailed => EventView::PublishFailed,
        }
    }
}

/// What the caller is to ask next.
#[derive(Clone, Copy, Debug, PartialEq, Eq, Structural)]
pub enum Request {
    /// Ask the media source for a player: for the active one, or for the one
    /// named at place `allowed` of the allow-list.
    FindPlayer { allowed: Option<usize> },
    /// Connect the sink of a channel for the first time.
    Connect(Channel),
    /// Connect the sink of a channel again.
    Reconnect(Channel),
    /// Ask the player for a snapshot.
    ReadSnapshot,
    /// Publish the snapshot reported last on the active channel, after
    /// resolving its cover if `lookup_cover` is set.
    Publish { lookup_cover: bool },
}

/// A line for the log.
#[derive(Clone, Copy, Debug, PartialEq, Eq, Structural)]
pub enum Notice {
    SourceUnreachable,
    PlayerFound,
    WaitingForPlayer,
    WaitingForAllowedPlayer,
    Connected,
    Reconnected,
    ConnectRefused,
    ReconnectRefused,
    SnapshotFailed,
    Published,
    PublishFailed,
}

/// What the caller is to do, in this order: log the notice, withdraw the
/// presence shown on the active channel, close its sink, sleep for one
/// interval, and then put the request.
#[derive(Clone, Copy, Debug, PartialEq, Eq, Structural)]
pub struct Directive {
    pub notice: Option<Notice>,
    pub clear: bool,
    pub close: bool,
    pub wait: bool,
    pub next: Request,
}

/// The state of a session.
#[derive(Debug)]
pub struct Session {
    pub phase: Phase,
    /// The active channel.
    pub channel: Channel,
    pub audio: PresenceState,
    pub video: PresenceState,
    /// The audio sink has been connected at least once.
    pub audio_opened: bool,
    /// The video sink has been connected at least once.
    pub video_opened: bool,
    /// The line about the unreachable source is already in the log.
    pub source_notified: bool,
    pub player_notice: PlayerNotice,
    /// The line about the refused connection is already in the log.
    pub sink_notified: bool,
    /// The place in the allow-list of the player that is being asked for.
    pub cursor: usize,
}

/// The mathematical value of a [`Session`].
pub struct SessionView {
    pub phase: Phase,
    pub channel: Channel,
    pub audio: PresenceStateView,
    pub video: PresenceStateView,
    pub audio_opened: bool,
    pub video_opened: bool,
    pub source_notified: bool,
    pub player_notice: PlayerNotice,
    pub sink_notified: bool,
    pub cursor: usize,
}

impl View for Session {
    type V = SessionView;

    open spec fn view(&self) -> SessionView {
        SessionView {
            phase: self.phase,
            channel: self.channel,
            audio: self.audio@,
            video: self.video@,
            audio_opened: self.audio_opened,
            video_opened: self.video_opened,
            source_notified: self.source_notified,
            player_notice: self.player_notice,
            sink_notified: self.sink_notified,
            cursor: self.cursor,
        }
    }
}

impl SessionView {
    /// The state of the active channel.
    pub open spec fn active(self) -> PresenceStateView {
        match self.channel {
            Channel::Audio => self.audio,
            Channel::Video => self.video,
        }
    }

    /// The session with `state` as the state of the active channel.
    pub open spec fn with_active(self, state: PresenceStateView) -> SessionView {
        match self.channel {
            Channel::Audio => SessionView { audio: state, ..self },
            Channel::Video => SessionView { video: state, ..self },
        }
    }

    /// Whether the sink of the active channel has been connected before.
    pub open spec fn opened(self) -> bool {
        match self.channel {
            Channel::Audio => self.audio_opened,
            Channel::Video => self.video_opened,
        }
    }

    /// The session with the sink of the active channel marked as connected
    /// before.
    pub open spec fn with_opened(self) -> SessionView {
        match self.channel {
            Channel::Audio => SessionView { audio_opened: true, ..self },
            Channel::Video => SessionView { video_opened: true, ..self },
        }
    }
}

/// The session before anything has happened.
pub open spec fn initial_session() -> SessionView {
    SessionView {
        phase: Phase::NoPlayer,
        channel: Channel::Audio,
        audio: fresh_state(),
        video: fresh_state(),
        audio_opened: false,
        video_opened: false,
        source_notified: false,
        player_notice: PlayerNotice::Nothing,
        sink_notified: false,
        cursor: 0,
    }
}

/// Whether `event` answers the request that is outstanding in `phase`.
pub open spec fn is_expected(phase: Phase, event: EventView) -> bool {
    match phase {
        Phase::NoPlayer | Phase::NoSink => event is SourceUnavailable || event is PlayerMissing
            || event is PlayerFound,
        Phase::SinkConnecting => event is SinkConnected || event is SinkRefused,
        Phase::SinkReady => event is Snapshot || event is SnapshotFailed,
        Phase::Publishing => event is Published || event is PublishFailed,
    }
}

/// A channel that lost its player: interrupted, and without its record.
pub open spec fn lost(state: PresenceStateView) -> PresenceStateView {
    PresenceStateView { is_interrupted: true, ..forgotten(state) }
}

/// The place in the allow-list that a search is at: none without a list.
pub open spec fn asked(cursor: usize, prefs: UserPreferencesView) -> Option<usize> {
    if prefs.allowlist.len() == 0 {
        None
    } else if cursor < prefs.allowlist.len() {
        Some(cursor)
    } else {
        Some(0)
    }
}

/// The request that starts a search for a player: for the active player, or
/// for the first of the allow-list.
pub open spec fn first_search(prefs: UserPreferencesView) -> Request {
    Request::FindPlayer { allowed: asked(0, prefs) }
}

/// A directive that only waits and then puts a request.
pub open spec fn wait_then(next: Request) -> Directive {
    Directive { notice: None, clear: false, close: false, wait: true, next }
}

/// The request that connects the sink of the active channel: a first
/// connection if it was never connected, else a reconnection.
pub open spec fn connect_request(s: SessionView) -> Request {
    if s.opened() {
        Request::Reconnect(s.channel)
    } else {
        Request::Connect(s.channel)
    }
}

/// Whether the record of a channel belongs to another album than its cover.
pub open spec fn cover_outdated(state: PresenceStateView) -> bool {
    album_identity(state.last_album_artist, state.last_album) != state.last_album_id
}

/// The directive that puts the outstanding request of a phase once more.
pub open spec fn repeated(s: SessionView, prefs: UserPreferencesView) -> Directive {
    match s.phase {
        Phase::NoPlayer | Phase::NoSink => wait_then(
            Request::FindPlayer { allowed: asked(s.cursor, prefs) },
        ),
        Phase::SinkConnecting => Directive { wait: false, ..wait_then(connect_request(s)) },
        Phase::SinkReady => wait_then(Request::ReadSnapshot),
        Phase::Publishing => Directive {
            wait: false,
            ..wait_then(Request::Publish { lookup_cover: cover_outdated(s.active()) })
        },
    }
}

/// The media source cannot be reached: the line is logged once, the shown
/// presence is withdrawn, and the source is asked again after an interval.
pub open spec fn on_source_unavailable(s: SessionView, prefs: UserPreferencesView) -> (
    SessionView,
    Directive,
) {
    (
        SessionView {
            phase: Phase::NoPlayer,
            source_notified: true,
            cursor: 0,
            ..s.with_active(lost(s.active()))
        },
        Directive {
            notice: if s.source_notified {
                None
            } else {
                Some(Notice::SourceUnreachable)
            },
            clear: true,
            ..wait_then(first_search(prefs))
        },
    )
}

/// The player asked for is not there. While the allow-list has further
/// names, the next one is asked for at once and nothing else happens. After
/// the last name, and without a list, there is no player: the line is logged
/// once per loss, the shown presence is withdrawn, and the search starts
/// over after an interval.
pub open spec fn on_player_missing(s: SessionView, prefs: UserPreferencesView) -> (
    SessionView,
    Directive,
) {
    let at = asked(s.cursor, prefs);
    if at is Some && at->0 + 1 < prefs.allowlist.len() {
        (
            SessionView { cursor: (at->0 + 1) as usize, ..s },
            Directive {
                wait: false,
                ..wait_then(Request::FindPlayer { allowed: Some((at->0 + 1) as usize) })
            },
        )
    } else {
        let first_time = s.player_notice != PlayerNotice::Missing;
        (
            SessionView {
                phase: Phase::NoPlayer,
                player_notice: PlayerNotice::Missing,
                sink_notified: if first_time {
                    false
                } else {
                    s.sink_notified
                },
                cursor: 0,
                ..s.with_active(lost(s.active()))
            },
            Directive {
                notice: if !first_time {
                    None
                } else if prefs.allowlist.len() > 0 {
                    Some(Notice::WaitingForAllowedPlayer)
                } else {
                    Some(Notice::WaitingForPlayer)
                },
                clear: true,
                ..wait_then(first_search(prefs))
            },
        )
    }
}

/// The channel of a player: video if its name is on the list of video
/// players, else audio.
pub open spec fn channel_of(identity: Seq<char>, prefs: UserPreferencesView) -> Channel {
    if prefs.video_players.contains(identity) {
        Channel::Video
    } else {
        Channel::Audio
    }
}

/// A player is there: its channel becomes the active one, starting afresh if
/// it was not active before, and its sink is connected at once.
pub open spec fn on_player_found(
    s: SessionView,
    identity: Seq<char>,
    prefs: UserPreferencesView,
) -> (SessionView, Directive) {
    let channel = channel_of(identity, prefs);
    let switched = SessionView { channel, ..s };
    let entered = if channel == s.channel {
        switched
    } else {
        switched.with_active(fresh_state())
    };
    (
        SessionView {
            phase: Phase::SinkConnecting,
            source_notified: false,
            player_notice: PlayerNotice::Found,
            cursor: 0,
            ..entered
        },
        Directive {
            notice: if s.player_notice == PlayerNotice::Found {
                None
            } else {
                Some(Notice::PlayerFound)
            },
            clear: false,
            close: false,
            wait: false,
            next: connect_request(entered),
        },
    )
}

/// The sink is connected. After a reconnection the channel counts as
/// interrupted, so that the next snapshot is published.
pub open spec fn on_sink_connected(s: SessionView) -> (SessionView, Directive) {
    let state = PresenceStateView {
        connected: true,
        is_interrupted: s.opened() || s.active().is_interrupted,
        ..s.active()
    };
    (
        SessionView {
            phase: Phase::SinkReady,
            sink_notified: false,
            ..s.with_active(state).with_opened()
        },
        Directive {
            notice: if !s.opened() {
                Some(Notice::Connected)
            } else if s.sink_notified {
                Some(Notice::Reconnected)
            } else {
                None
            },
            clear: false,
            close: false,
            wait: false,
            next: Request::ReadSnapshot,
        },
    )
}

/// The sink refused: the line is logged once, and the session starts over
/// after an interval.
pub open spec fn on_sink_refused(s: SessionView, prefs: UserPreferencesView) -> (
    SessionView,
    Directive,
) {
    let state = PresenceStateView { connected: false, is_interrupted: true, ..s.active() };
    (
        SessionView {
            phase: Phase::NoSink,
            sink_notified: true,
            cursor: 0,
            ..s.with_active(state)
        },
        Directive {
            notice: if s.sink_notified {
                None
            } else if s.opened() {
                Some(Notice::ReconnectRefused)
            } else {
                Some(Notice::ConnectRefused)
            },
            ..wait_then(first_search(prefs))
        },
    )
}

/// The player gave no snapshot: the shown presence is withdrawn and the
/// session starts over after an interval.
pub open spec fn on_snapshot_failed(s: SessionView, prefs: UserPreferencesView) -> (
    SessionView,
    Directive,
) {
    let state = PresenceStateView { is_interrupted: true, ..s.active() };
    (
        SessionView { phase: Phase::NoPlayer, cursor: 0, ..s.with_active(state) },
        Directive {
            notice: Some(Notice::SnapshotFailed),
            clear: true,
            ..wait_then(first_search(prefs))
        },
    )
}

/// What a snapshot means for a channel.
#[derive(Clone, Copy, Debug, PartialEq, Eq, Structural)]
pub enum Verdict {
    /// The presence is to be withdrawn: nothing is playing.
    Withdraw,
    /// The snapshot holds no real media and is passed over.
    PassOver,
    /// The snapshot is not due: what is shown stays.
    Keep,
    /// The snapshot is to be published, after resolving its cover if
    /// `lookup_cover` is set.
    Publish { lookup_cover: bool },
}

/// The state of a channel after a snapshot was judged, and the verdict.
pub open spec fn judged(state: PresenceStateView, new: MediaInfoView, only_when_playing: bool) -> (
    PresenceStateView,
    Verdict,
) {
    if only_when_playing && !new.is_playing {
        (PresenceStateView { is_interrupted: true, ..state }, Verdict::Withdraw)
    } else if is_placeholder_media(new) || lacks_name(new) {
        (state, Verdict::PassOver)
    } else if !publish_due(new, state) {
        (observed(new, state), Verdict::Keep)
    } else {
        let record = recorded(new, observed(new, state));
        (record, Verdict::Publish { lookup_cover: cover_outdated(record) })
    }
}

/// A snapshot came in: it is judged against the active channel. Only a
/// snapshot that is to be published takes the session out of its phase.
pub open spec fn on_snapshot(s: SessionView, new: MediaInfoView, prefs: UserPreferencesView) -> (
    SessionView,
    Directive,
) {
    let (state, verdict) = judged(s.active(), new, prefs.only_when_playing);
    match verdict {
        Verdict::Withdraw => (
            s.with_active(state),
            Directive { clear: true, ..wait_then(Request::ReadSnapshot) },
        ),
        Verdict::PassOver => (s.with_active(state), wait_then(Request::ReadSnapshot)),
        Verdict::Keep => (s.with_active(state), wait_then(Request::ReadSnapshot)),
        Verdict::Publish { lookup_cover } => (
            SessionView { phase: Phase::Publishing, ..s.with_active(state) },
            Directive { wait: false, ..wait_then(Request::Publish { lookup_cover }) },
        ),
    }
}

/// The presence is published: the channel shows it and is no longer
/// interrupted.
pub open spec fn on_published(s: SessionView) -> (SessionView, Directive) {
    let state = PresenceStateView { is_interrupted: false, is_activity_set: true, ..s.active() };
    (
        SessionView { phase: Phase::SinkReady, ..s.with_active(state) },
        Directive { notice: Some(Notice::Published), ..wait_then(Request::ReadSnapshot) },
    )
}

/// The sink refused the presence: the channel is interrupted and shows
/// nothing, its connection is closed, and the session starts over.
pub open spec fn on_publish_failed(s: SessionView, prefs: UserPreferencesView) -> (
    SessionView,
    Directive,
) {
    let state = PresenceStateView {
        is_interrupted: true,
        is_activity_set: false,
        connected: false,
        ..s.active()
    };
    (
        SessionView { phase: Phase::NoPlayer, cursor: 0, ..s.with_active(state) },
        Directive {
            notice: Some(Notice::PublishFailed),
            close: true,
            ..wait_then(first_search(prefs))
        },
    )
}

/// The session and the directive after `event`. An event that does not
/// answer the outstanding request changes nothing, and the request is put
/// once more.
pub open spec fn after(s: SessionView, event: EventView, prefs: UserPreferencesView) -> (
    SessionView,
    Directive,
) {
    if !is_expected(s.phase, event) {
        (s, repeated(s, prefs))
    } else {
        match event {
            EventView::SourceUnavailable => on_source_unavailable(s, prefs),
            EventView::PlayerMissing => on_player_missing(s, prefs),
            EventView::PlayerFound { identity } => on_player_found(s, identity, prefs),
            EventView::SinkConnected => on_sink_connected(s),
            EventView::SinkRefused => on_sink_refused(s, prefs),
            EventView::SnapshotFailed => on_snapshot_failed(s, prefs),
            EventView::Snapshot(new) => on_snapshot(s, new, prefs),
            EventView::Published => on_published(s),
            EventView::PublishFailed => on_publish_failed(s, prefs),
        }
    }
}

/// How far the withdrawal of a presence has come.
#[derive(Clone, Copy, Debug, PartialEq, Eq, Structural)]
pub enum ClearStage {
    /// Nothing has been tried yet.
    Start,
    /// The sink was asked to clear the presence.
    FirstClear,
    /// The first attempt failed and the sink was asked to reconnect.
    Reconnect,
    /// The sink was asked to clear the presence once more.
    SecondClear,
}

/// What the withdrawal of a presence asks for next.
#[derive(Clone, Copy, Debug, PartialEq, Eq, Structural)]
pub enum ClearStep {
    /// Nothing is left to do.
    Done,
    /// Ask the sink to clear the presence, and come back in stage `awaiting`.
    Clear { awaiting: ClearStage },
    /// Ask the sink to reconnect, and come back in stage `awaiting`.
    Reconnect { awaiting: ClearStage },
}

/// The flag and the step after one answer of the sink. A presence that is not
/// shown needs no withdrawal. A clear that succeeds lowers the flag. After a
/// clear that fails the sink is reconnected and the clear tried once more;
/// failures after that are given up on.
pub open spec fn clear_plan(shown: bool, stage: ClearStage, succeeded: bool) -> (bool, ClearStep) {
    match stage {
        ClearStage::Start => if shown {
            (shown, ClearStep::Clear { awaiting: ClearStage::FirstClear })
        } else {
            (shown, ClearStep::Done)
        },
        ClearStage::FirstClear => if succeeded {
            (false, ClearStep::Done)
        } else {
            (shown, ClearStep::Reconnect { awaiting: ClearStage::Reconnect })
        },
        ClearStage::Reconnect => if succeeded {
            (shown, ClearStep::Clear { awaiting: ClearStage::SecondClear })
        } else {
            (shown, ClearStep::Done)
        },
        ClearStage::SecondClear => if succeeded {
            (false, ClearStep::Done)
        } else {
            (shown, ClearStep::Done)
        },
    }
}

/// Takes the withdrawal of a presence one step further.
///
/// Begin with stage `Start`; `succeeded` is then not looked at. While the
/// step is not `Done`, do what it asks and call again with the stage it names
/// and with whether the sink did it. The flag is lowered when a clear
/// succeeded and is never raised.
pub fn clear_activity(is_activity_set: &mut bool, stage: ClearStage, succeeded: bool) -> (r:
    ClearStep)
    ensures
        (*final(is_activity_set), r) == clear_plan(*old(is_activity_set), stage, succeeded),
        *final(is_activity_set) ==> *old(is_activity_set),
        stage == ClearStage::Start && !*old(is_activity_set) ==> r == ClearStep::Done,
{
    match stage {
        ClearStage::Start => {
            if *is_activity_set {
                ClearStep::Clear { awaiting: ClearStage::FirstClear }
            } else {
                ClearStep::Done
            }
        },
        ClearStage::FirstClear => {
            if succeeded {
                *is_activity_set = false;
                ClearStep::Done
            } else {
                ClearStep::Reconnect { awaiting: ClearStage::Reconnect }
            }
        },
        ClearStage::Reconnect => {
            if succeeded {
                ClearStep::Clear { awaiting: ClearStage::SecondClear }
            } else {
                ClearStep::Done
            }
        },
        ClearStage::SecondClear => {
            if succeeded {
                *is_activity_set = false;
            }
            ClearStep::Done
        },
    }
}

fn lose(state: &mut PresenceState)
    ensures
        final(state)@ == lost(old(state)@),
{
    state.forget();
    state.is_interrupted = true;
}

fn outdated(state: &PresenceState) -> (r: bool)
    ensures
        r == cover_outdated(state@),
{
    let mut id = crate::text::followed_by(state.last_album_artist.as_str(), " - ");
    id.append(state.last_album.as_str());
    state.needs_cover(id.as_str())
}

/// Judges a snapshot against the state of a channel.
///
/// Where only playing media is shown and the snapshot is not playing, the
/// presence is withdrawn and the channel counts as interrupted. A snapshot
/// of placeholders, or without artist or title, is passed over: nothing is
/// stored. Otherwise the position is stored; the snapshot is kept back if it
/// is not due, and else becomes the channel's record and is published.
pub fn judge(state: &mut PresenceState, new: &MediaInfo, only_when_playing: bool) -> (r: Verdict)
    ensures
        (final(state)@, r) == judged(old(state)@, new@, only_when_playing),
        is_placeholder_media(new@) ==> !(r is Publish) && !(r is Keep),
{
    if only_when_playing && !new.is_playing {
        state.is_interrupted = true;
        Verdict::Withdraw
    } else if placeholder_media(new) || nameless(new) {
        Verdict::PassOver
    } else if !should_publish(new, state) {
        Verdict::Keep
    } else {
        state.record(new);
        Verdict::Publish { lookup_cover: outdated(state) }
    }
}

fn place(cursor: usize, prefs: &UserPreferences) -> (r: Option<usize>)
    ensures
        r == asked(cursor, prefs@),
{
    if prefs.allowlist.len() == 0 {
        None
    } else if cursor < prefs.allowlist.len() {
        Some(cursor)
    } else {
        Some(0)
    }
}

fn first(prefs: &UserPreferences) -> (r: Request)
    ensures
        r == first_search(prefs@),
{
    Request::FindPlayer { allowed: place(0, prefs) }
}

fn waiting(next: Request) -> (r: Directive)
    ensures
        r == wait_then(next),
{
    Directive { notice: None, clear: false, close: false, wait: true, next }
}

impl Session {
    /// A session in which nothing has happened yet: it waits for a player,
    /// and the first request to put is that of [`Session::search`].
    pub fn new() -> (r: Session)
        ensures
            r@ == initial_session(),
    {
        Session {
            phase: Phase::NoPlayer,
            channel: Channel::Audio,
            audio: PresenceState::new(),
            video: PresenceState::new(),
            audio_opened: false,
            video_opened: false,
            source_notified: false,
            player_notice: PlayerNotice::Nothing,
            sink_notified: false,
            cursor: 0,
        }
    }

    /// The request that asks for the player that the search is at: the
    /// active player, or the player named at the current place of the
    /// allow-list.
    pub fn search(&self, prefs: &UserPreferences) -> (r: Request)
        ensures
            r == (Request::FindPlayer { allowed: asked(self.cursor, prefs@) }),
    {
        Request::FindPlayer { allowed: place(self.cursor, prefs) }
    }

    /// Whether the sink of the active channel has been connected before.
    pub fn opened(&self) -> (r: bool)
        ensures
            r == self@.opened(),
    {
        match self.channel {
            Channel::Audio => self.audio_opened,
            Channel::Video => self.video_opened,
        }
    }

    /// The cover reference remembered for the active channel.
    pub fn cover(&self) -> (r: String)
        ensures
            r@ == self@.active().cover_url,
    {
        match self.channel {
            Channel::Audio => self.audio.cover_url.clone(),
            Channel::Video => self.video.cover_url.clone(),
        }
    }

    /// Remembers the cover resolved for `album_id` on the active channel.
    pub fn remember_cover(&mut self, album_id: &str, cover: &str)
        ensures
            final(self)@ == old(self)@.with_active(
                PresenceStateView {
                    last_album_id: album_id@,
                    cover_url: cover@,
                    ..old(self)@.active()
                },
            ),
    {
        match self.channel {
            Channel::Audio => self.audio.remember_cover(album_id, cover),
            Channel::Video => self.video.remember_cover(album_id, cover),
        }
    }

    /// Takes the withdrawal of the presence of the active channel one step
    /// further; see [`clear_activity`].
    pub fn clear_step(&mut self, stage: ClearStage, succeeded: bool) -> (r: ClearStep)
        ensures
            r == clear_plan(old(self)@.active().is_activity_set, stage, succeeded).1,
            final(self)@ == old(self)@.with_active(
                PresenceStateView {
                    is_activity_set: clear_plan(
                        old(self)@.active().is_activity_set,
                        stage,
                        succeeded,
                    ).0,
                    ..old(self)@.active()
                },
            ),
    {
        match self.channel {
            Channel::Audio => clear_activity(&mut self.audio.is_activity_set, stage, succeeded),
            Channel::Video => clear_activity(&mut self.video.is_activity_set, stage, succeeded),
        }
    }

    fn connect_request(&self) -> (r: Request)
        ensures
            r == connect_request(self@),
    {
        if self.opened() {
            Request::Reconnect(self.channel)
        } else {
            Request::Connect(self.channel)
        }
    }

    fn repeat(&self, prefs: &UserPreferences) -> (r: Directive)
        ensures
            r == repeated(self@, prefs@),
    {
        match self.phase {
            Phase::NoPlayer => waiting(self.search(prefs)),
            Phase::NoSink => waiting(self.search(prefs)),
            Phase::SinkConnecting => Directive {
                notice: None,
                clear: false,
                close: false,
                wait: false,
                next: self.connect_request(),
            },
            Phase::SinkReady => waiting(Request::ReadSnapshot),
            Phase::Publishing => {
                let lookup_cover = match self.channel {
                    Channel::Audio => outdated(&self.audio),
                    Channel::Video => outdated(&self.video),
                };
                Directive {
                    notice: None,
                    clear: false,
                    close: false,
                    wait: false,
                    next: Request::Publish { lookup_cover },
                }
            },
        }
    }

    fn source_unavailable(&mut self, prefs: &UserPreferences) -> (r: Directive)
        ensures
            (final(self)@, r) == on_source_unavailable(old(self)@, prefs@),
    {
        let notice = if self.source_notified {
            None
        } else {
            Some(Notice::SourceUnreachable)
        };
        match self.channel {
            Channel::Audio => lose(&mut self.audio),
            Channel::Video => lose(&mut self.video),
        }
        self.phase = Phase::NoPlayer;
        self.source_notified = true;
        self.cursor = 0;
        Directive { notice, clear: true, close: false, wait: true, next: first(prefs) }
    }

    fn player_missing(&mut self, prefs: &UserPreferences) -> (r: Directive)
        ensures
            (final(self)@, r) == on_player_missing(old(self)@, prefs@),
    {
        match place(self.cursor, prefs) {
            Some(at) => {
                assert(at < prefs.allowlist.len());
                if at + 1 < prefs.allowlist.len() {
                    self.cursor = at + 1;
                    return Directive {
                        notice: None,
                        clear: false,
                        close: false,
                        wait: false,
                        next: Request::FindPlayer { allowed: Some(at + 1) },
                    };
                }
            },
            None => {},
        }
        let first_time = self.player_notice != PlayerNotice::Missing;
        let notice = if !first_time {
            None
        } else if prefs.allowlist.len() > 0 {
            Some(Notice::WaitingForAllowedPlayer)
        } else {
            Some(Notice::WaitingForPlayer)
        };
        match self.channel {
            Channel::Audio => lose(&mut self.audio),
            Channel::Video => lose(&mut self.video),
        }
        self.phase = Phase::NoPlayer;
        self.player_notice = PlayerNotice::Missing;
        if first_time {
            self.sink_notified = false;
        }
        self.cursor = 0;
        Directive { notice, clear: true, close: false, wait: true, next: first(prefs) }
    }

    fn player_found(&mut self, identity: &str, prefs: &UserPreferences) -> (r: Directive)
        ensures
            (final(self)@, r) == on_player_found(old(self)@, identity@, prefs@),
    {
        let channel = if listed(identity, &prefs.video_players) {
            Channel::Video
        } else {
            Channel::Audio
        };
        let notice = if self.player_notice == PlayerNotice::Found {
            None
        } else {
            Some(Notice::PlayerFound)
        };
        if channel != self.channel {
            self.channel = channel;
            match channel {
                Channel::Audio => {
                    self.audio = PresenceState::new();
                },
                Channel::Video => {
                    self.video = PresenceState::new();
                },
            }
        }
        self.phase = Phase::SinkConnecting;
        self.source_notified = false;
        self.player_notice = PlayerNotice::Found;
        self.cursor = 0;
        Directive { notice, clear: false, close: false, wait: false, next: self.connect_request() }
    }

    fn sink_connected(&mut self) -> (r: Directive)
        ensures
            (final(self)@, r) == on_sink_connected(old(self)@),
    {
        let opened = self.opened();
        let notice = if !opened {
            Some(Notice::Connected)
        } else if self.sink_notified {
            Some(Notice::Reconnected)
        } else {
            None
        };
        match self.channel {
            Channel::Audio => {
                self.audio.connected = true;
                if opened {
                    self.audio.is_interrupted = true;
                }
                self.audio_opened = true;
            },
            Channel::Video => {
                self.video.connected = true;
                if opened {
                    self.video.is_interrupted = true;
                }
                self.video_opened = true;
            },
        }
        self.phase = Phase::SinkReady;
        self.sink_notified = false;
        Directive { notice, clear: false, close: false, wait: false, next: Request::ReadSnapshot }
    }

    fn sink_refused(&mut self, prefs: &UserPreferences) -> (r: Directive)
        ensures
            (final(self)@, r) == on_sink_refused(old(self)@, prefs@),
    {
        let notice = if self.sink_notified {
            None
        } else if self.opened() {
            Some(Notice::ReconnectRefused)
        } else {
            Some(Notice::ConnectRefused)
        };
        match self.channel {
            Channel::Audio => {
                self.audio.connected = false;
                self.audio.is_interrupted = true;
            },
            Channel::Video => {
                self.video.connected = false;
                self.video.is_interrupted = true;
            },
        }
        self.phase = Phase::NoSink;
        self.sink_notified = true;
        self.cursor = 0;
        Directive { notice, clear: false, close: false, wait: true, next: first(prefs) }
    }

    fn snapshot_failed(&mut self, prefs: &UserPreferences) -> (r: Directive)
        ensures
            (final(self)@, r) == on_snapshot_failed(old(self)@, prefs@),
    {
        match self.channel {
            Channel::Audio => {
                self.audio.is_interrupted = true;
            },
            Channel::Video => {
                self.video.is_interrupted = true;
            },
        }
        self.phase = Phase::NoPlayer;
        self.cursor = 0;
        Directive {
            notice: Some(Notice::SnapshotFailed),
            clear: true,
            close: false,
            wait: true,
            next: first(prefs),
        }
    }

    fn snapshot(&mut self, new: &MediaInfo, prefs: &UserPreferences) -> (r: Directive)
        ensures
            (final(self)@, r) == on_snapshot(old(self)@, new@, prefs@),
    {
        let verdict = match self.channel {
            Channel::Audio => judge(&mut self.audio, new, prefs.only_when_playing),
            Channel::Video => judge(&mut self.video, new, prefs.only_when_playing),
        };
        match verdict {
            Verdict::Withdraw => Directive {
                notice: None,
                clear: true,
                close: false,
                wait: true,
                next: Request::ReadSnapshot,
            },
            Verdict::PassOver => waiting(Request::ReadSnapshot),
            Verdict::Keep => waiting(Request::ReadSnapshot),
            Verdict::Publish { lookup_cover } => {
                self.phase = Phase::Publishing;
                Directive {
                    notice: None,
                    clear: false,
                    close: false,
                    wait: false,
                    next: Request::Publish { lookup_cover },
                }
            },
        }
    }

    fn published(&mut self) -> (r: Directive)
        ensures
            (final(self)@, r) == on_published(old(self)@),
    {
        match self.channel {
            Channel::Audio => {
                self.audio.is_interrupted = false;
                self.audio.is_activity_set = true;
            },
            Channel::Video => {
                self.video.is_interrupted = false;
                self.video.is_activity_set = true;
            },
        }
        self.phase = Phase::SinkReady;
        Directive {
            notice: Some(Notice::Published),
            clear: false,
            close: false,
            wait: true,
            next: Request::ReadSnapshot,
        }
    }

    fn publish_failed(&mut self, prefs: &UserPreferences) -> (r: Directive)
        ensures
            (final(self)@, r) == on_publish_failed(old(self)@, prefs@),
    {
        match self.channel {
            Channel::Audio => {
                self.audio.is_interrupted = true;
                self.audio.is_activity_set = false;
                self.audio.connected = false;
            },
            Channel::Video => {
                self.video.is_interrupted = true;
                self.video.is_activity_set = false;
                self.video.connected = false;
            },
        }
        self.phase = Phase::NoPlayer;
        self.cursor = 0;
        Directive {
            notice: Some(Notice::PublishFailed),
            clear: false,
            close: true,
            wait: true,
            next: first(prefs),
        }
    }
}

fn expected(phase: Phase, event: &Event) -> (r: bool)
    ensures
        r == is_expected(phase, event@),
{
    match phase {
        Phase::NoPlayer | Phase::NoSink => match event {
            Event::SourceUnavailable => true,
            Event::PlayerMissing => true,
            Event::PlayerFound { .. } => true,
            _ => false,
        },
        Phase::SinkConnecting => match event {
            Event::SinkConnected => true,
            Event::SinkRefused => true,
            _ => false,
        },
        Phase::SinkReady => match event {
            Event::Snapshot(_) => true,
            Event::SnapshotFailed => true,
            _ => false,
        },
        Phase::Publishing => match event {
            Event::Published => true,
            Event::PublishFailed => true,
            _ => false,
        },
    }
}

/// Takes the session one step further: `event` is what came of the request
/// of the previous directive, and the result says what to do next.
pub fn step(session: &mut Session, event: &Event, prefs: &UserPreferences) -> (r: Directive)
    ensures
        (final(session)@, r) == after(old(session)@, event@, prefs@),
{
    if !expected(session.phase, event) {
        return session.repeat(prefs);
    }
    match event {
        Event::SourceUnavailable => session.source_unavailable(prefs),
        Event::PlayerMissing => session.player_missing(prefs),
        Event::PlayerFound { identity } => session.player_found(identity.as_str(), prefs),
        Event::SinkConnected => session.sink_connected(),
        Event::SinkRefused => session.sink_refused(prefs),
        Event::SnapshotFailed => session.snapshot_failed(prefs),
        Event::Snapshot(new) => session.snapshot(new, prefs),
        Event::Published => session.published(),
        Event::PublishFailed => session.publish_failed(prefs),
    }
}

/// A snapshot whose title, artist and album are all placeholders is never
/// published and never compared: the session stays in its phase, nothing of
/// the channel's record or position changes, and no cover is asked for.
pub proof fn lemma_placeholder_media_is_skipped(
    s: SessionView,
    new: MediaInfoView,
    prefs: UserPreferencesView,
)
    requires
        s.phase == Phase::SinkReady,
        is_placeholder_media(new),
    ensures
        after(s, EventView::Snapshot(new), prefs).0.phase == Phase::SinkReady,
        after(s, EventView::Snapshot(new), prefs).1.next == Request::ReadSnapshot,
        after(s, EventView::Snapshot(new), prefs).0.active() == (PresenceStateView {
            is_interrupted: after(s, EventView::Snapshot(new), prefs).0.active().is_interrupted,
            ..s.active()
        }),
        !(prefs.only_when_playing && !new.is_playing) ==> after(
            s,
            EventView::Snapshot(new),
            prefs,
        ).0 == s,
{
    assert(s.with_active(s.active()) == s);
}

/// A presence is published only for a snapshot that is due, that holds real
/// media, and that arrives while the sink is ready.
pub proof fn lemma_publish_only_when_due(s: SessionView, event: EventView, prefs: UserPreferencesView)
    requires
        after(s, event, prefs).1.next is Publish,
        s.phase != Phase::Publishing,
    ensures
        s.phase == Phase::SinkReady,
        event matches EventView::Snapshot(new) && publish_due(new, s.active())
            && !is_placeholder_media(new) && !lacks_name(new),
        after(s, event, prefs).0.phase == Phase::Publishing,
{
}

/// After a presence was refused the channel is interrupted, its sink is
/// closed, and the session starts over, so that the sink is reconnected
/// before anything else is published.
pub proof fn lemma_failed_publish_forces_reconnect(s: SessionView, prefs: UserPreferencesView)
    requires
        s.phase == Phase::Publishing,
    ensures
        after(s, EventView::PublishFailed, prefs).0.active().is_interrupted,
        !after(s, EventView::PublishFailed, prefs).0.active().is_activity_set,
        after(s, EventView::PublishFailed, prefs).1.close,
        after(s, EventView::PublishFailed, prefs).1.next == first_search(prefs),
        after(s, EventView::PublishFailed, prefs).0.phase == Phase::NoPlayer,
{
}

/// A sink is connected for the first time at most once: a first connection
/// is asked for only while the channel was never connected, and a connection
/// that succeeded marks the channel as connected before.
pub proof fn lemma_first_connection_once(s: SessionView, event: EventView, prefs: UserPreferencesView)
    ensures
        after(s, event, prefs).1.next matches Request::Connect(channel) ==> channel == after(
            s,
            event,
            prefs,
        ).0.channel && !after(s, event, prefs).0.opened(),
        s.phase == Phase::SinkConnecting && event is SinkConnected ==> after(
            s,
            event,
            prefs,
        ).0.opened(),
        s.audio_opened ==> after(s, event, prefs).0.audio_opened,
        s.video_opened ==> after(s, event, prefs).0.video_opened,
{
}

/// Once a snapshot was published and nothing changes, the same snapshot is
/// kept back at the next poll.
pub proof fn lemma_published_snapshot_is_kept(
    s: SessionView,
    new: MediaInfoView,
    prefs: UserPreferencesView,
)
    requires
        s.phase == Phase::SinkReady,
        after(s, EventView::Snapshot(new), prefs).1.next is Publish,
    ensures
        ({
            let publishing = after(s, EventView::Snapshot(new), prefs).0;
            let shown = after(publishing, EventView::Published, prefs).0;
            &&& shown.phase == Phase::SinkReady
            &&& shown.active().is_activity_set
            &&& !shown.active().is_interrupted
            &&& after(shown, EventView::Snapshot(new), prefs).1.next == Request::ReadSnapshot
            &&& after(shown, EventView::Snapshot(new), prefs).0.phase == Phase::SinkReady
        }),
{
}

/// The players of the allow-list are asked for in the order of the list:
/// while a name is missing and another follows, that one is asked for at
/// once, and only after the last one the session waits and starts again at
/// the first.
pub proof fn lemma_allowlist_in_order(s: SessionView, prefs: UserPreferencesView, at: usize)
    requires
        s.phase == Phase::NoPlayer || s.phase == Phase::NoSink,
        asked(s.cursor, prefs) == Some(at),
    ensures
        at + 1 < prefs.allowlist.len() ==> after(s, EventView::PlayerMissing, prefs) == (
            SessionView { cursor: (at + 1) as usize, ..s },
            Directive {
                notice: None,
                clear: false,
                close: false,
                wait: false,
                next: Request::FindPlayer { allowed: Some((at + 1) as usize) },
            },
        ),
        at + 1 >= prefs.allowlist.len() ==> after(s, EventView::PlayerMissing, prefs).1.wait
            && after(s, EventView::PlayerMissing, prefs).1.next == (Request::FindPlayer {
            allowed: Some(0),
        }) && after(s, EventView::PlayerMissing, prefs).0.cursor == 0,
{
}

/// Without an allow-list the active player is asked for, and a list is
/// never left: every search names a place that the list has.
pub proof fn lemma_search_stays_in_list(s: SessionView, event: EventView, prefs: UserPreferencesView)
    ensures
        after(s, event, prefs).1.next matches Request::FindPlayer { allowed } ==> match allowed {
            Some(at) => at < prefs.allowlist.len(),
            None => prefs.allowlist.len() == 0,
        },
{
}

} // verus!
