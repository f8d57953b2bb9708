//! Building the presence that is published for a snapshot.

use crate::cover::MISSING_COVER;
use crate::escape::{component_encoded, encode_component};
use crate::media::{MediaInfo, MediaInfoView, UNKNOWN_ARTIST};
use crate::prefs::{ButtonKind, SmallImage, StatusSource, UserPreferences, UserPreferencesView};
use crate::text::{followed_by, contains_text, occurs_in};
use vstd::prelude::*;
use vstd::string::*;

verus! {

/// The link behind the button that advertises this program.
pub const PROJECT_LINK: &'static str = "https://github.com/patryk-ku/music-discord-rpc";

/// A button under the presence: a label and the link it opens.
#[derive(Debug)]
pub struct Button {
    pub label: String,
    pub url: String,
}

/// The mathematical value of a [`Button`].
pub struct ButtonView {
    pub label: Seq<char>,
    pub url: Seq<char>,
}

impl View for Button {
    type V = ButtonView;

    open spec fn view(&self) -> ButtonView {
        ButtonView { label: self.label@, url: self.url@ }
    }
}

/// The mathematical values of a list of buttons.
pub open spec fn button_views(buttons: Seq<Button>) -> Seq<ButtonView> {
    Seq::new(buttons.len(), |i: int| buttons[i]@)
}

/// Whether the presence reads "Listening to" or "Watching".
#[derive(Clone, Copy, Debug, PartialEq, Eq, Structural)]
pub enum ActivityKind {
    Listening,
    Watching,
}

/// Which line the chat client shows in the user's status.
#[derive(Clone, Copy, Debug, PartialEq, Eq, Structural)]
pub enum StatusDisplay {
    /// The name of the application.
    Name,
    /// The state line: the artist.
    State,
    /// The details line: the title.
    Details,
}

/// The presence to publish.
#[derive(Debug)]
pub struct PresencePayload {
    /// The first line: the title.
    pub details: String,
    /// The link behind the first line.
    pub details_url: String,
    /// The second line: the artist; `None` leaves the line out.
    pub state: Option<String>,
    pub large_image: String,
    /// The text shown over the large image: the album.
    pub large_text: Option<String>,
    pub small_image: Option<String>,
    pub small_text: Option<String>,
    /// When the track started, in seconds since the epoch.
    pub start: Option<i64>,
    /// When the track ends, in seconds since the epoch.
    pub end: Option<i64>,
    pub buttons: Vec<Button>,
    pub activity: ActivityKind,
    pub status_display: StatusDisplay,
}

/// The mathematical value of a [`PresencePayload`].
pub struct PresencePayloadView {
    pub details: Seq<char>,
    pub details_url: Seq<char>,
    pub state: Option<Seq<char>>,
    pub large_image: Seq<char>,
    pub large_text: Option<Seq<char>>,
    pub small_image: Option<Seq<char>>,
    pub small_text: Option<Seq<char>>,
    pub start: Option<i64>,
    pub end: Option<i64>,
    pub buttons: Seq<ButtonView>,
    pub activity: ActivityKind,
    pub status_display: StatusDisplay,
}

impl View for PresencePayload {
    type V = PresencePayloadView;

    open spec fn view(&self) -> PresencePayloadView {
        PresencePayloadView {
            details: self.details@,
            details_url: self.details_url@,
            state: self.state.deep_view(),
            large_image: self.large_image@,
            large_text: self.large_text.deep_view(),
            small_image: self.small_image.deep_view(),
            small_text: self.small_text.deep_view(),
            start: self.start,
            end: self.end,
            buttons: button_views(self.buttons@),
            activity: self.activity,
            status_display: self.status_display,
        }
    }
}

/// What is known of the moment of publication besides the snapshot.
#[derive(Debug)]
pub struct Occasion {
    /// The current time in seconds since the epoch.
    pub now: u64,
    /// The player is one of those shown as "watching".
    pub is_video: bool,
    /// The name under which the player is shown.
    pub player_name: String,
    /// The identifier of the player's icon.
    pub player_id: String,
    /// The link to the user's Last.fm avatar; empty where there is none.
    pub lastfm_avatar: String,
}

/// The links that the buttons and the title lead to.
#[derive(Debug)]
pub struct Links {
    /// A YouTube search for the song.
    pub youtube: String,
    /// The user's Last.fm profile.
    pub lastfm: String,
    /// The user's Listenbrainz profile.
    pub listenbrainz: String,
}

/// The mathematical value of [`Links`].
pub struct LinksView {
    pub youtube: Seq<char>,
    pub lastfm: Seq<char>,
    pub listenbrainz: Seq<char>,
}

impl View for Links {
    type V = LinksView;

    open spec fn view(&self) -> LinksView {
        LinksView {
            youtube: self.youtube@,
            lastfm: self.lastfm@,
            listenbrainz: self.listenbrainz@,
        }
    }
}

/// A text of exactly one character gets a space appended: the chat client
/// does not display shorter lines.
pub open spec fn padded(text: Seq<char>) -> Seq<char> {
    if text.len() == 1 {
        text.push(' ')
    } else {
        text
    }
}

/// The second line. It is left out for a video whose artist is unknown. Where
/// the status shows the artist it is the bare artist, padded like the title;
/// otherwise the artist after `by: `.
pub open spec fn state_line(artist: Seq<char>, source: StatusSource, is_video: bool) -> Option<
    Seq<char>,
> {
    if is_video && artist == UNKNOWN_ARTIST@ {
        None
    } else if source == StatusSource::Artist {
        Some(padded(artist))
    } else {
        Some("by: "@ + artist)
    }
}

/// The text over the large image, unless the album is to be hidden.
pub open spec fn album_line(album: Seq<char>, hidden: bool) -> Option<Seq<char>> {
    if hidden {
        None
    } else {
        Some("album: "@ + album)
    }
}

/// The large image: the resolved cover, or the sentinel where there is none.
pub open spec fn large_image_of(cover: Seq<char>) -> Seq<char> {
    if cover.len() == 0 {
        MISSING_COVER@
    } else {
        cover
    }
}

/// The snapshot can be timed at `now`: the position does not lie before the
/// epoch, and start and end fit the signed seconds of a presence.
pub open spec fn can_be_timed(new: MediaInfoView, now: u64) -> bool {
    new.position <= now && now - new.position + new.duration <= i64::MAX
}

/// The time window: start and end where position and length are known and
/// the track is playing; the start alone where it is paused; otherwise only
/// an end, set to the moment that would have been the start.
pub open spec fn time_window(new: MediaInfoView, now: u64) -> (Option<i64>, Option<i64>) {
    let start = now - new.position;
    if new.is_track_position && new.duration > 0 {
        if new.is_playing {
            (Some(start as i64), Some((start + new.duration) as i64))
        } else {
            (Some(start as i64), None)
        }
    } else {
        (None, Some(start as i64))
    }
}

/// The text that goes with the avatar: the nickname and ` on Last.fm`.
pub open spec fn avatar_text(lastfm_name: Seq<char>) -> Seq<char> {
    if lastfm_name.len() > 0 {
        lastfm_name + " on Last.fm"@
    } else {
        Seq::empty()
    }
}

/// The small image and its text. A snapshot that is not playing always gets
/// the paused icon. Otherwise the preference decides: the playing icon; the
/// player's icon and name, or YouTube's where the large image is one of its
/// thumbnails and the player's own art may be used; the avatar, if there is
/// one; or nothing.
pub open spec fn small_icon(
    is_playing: bool,
    large_image: Seq<char>,
    prefs: UserPreferencesView,
    player_id: Seq<char>,
    player_name: Seq<char>,
    lastfm_avatar: Seq<char>,
) -> Option<(Seq<char>, Seq<char>)> {
    if !is_playing {
        Some(("paused"@, "paused"@))
    } else {
        match prefs.small_image {
            SmallImage::PlayPause => Some(("playing"@, "playing"@)),
            SmallImage::Player => if !prefs.disable_mpris_art_url && occurs_in(
                large_image,
                "ytimg.com/"@,
            ) {
                Some(("youtube"@, "YouTube"@))
            } else {
                Some((player_id, player_name))
            },
            SmallImage::LastfmAvatar => if lastfm_avatar.len() > 0 {
                Some((lastfm_avatar, avatar_text(prefs.lastfm_name)))
            } else {
                None
            },
            SmallImage::Hidden => None,
        }
    }
}

/// The line that the chat client shows in the status.
pub open spec fn status_display_of(source: StatusSource) -> StatusDisplay {
    match source {
        StatusSource::Name => StatusDisplay::Name,
        StatusSource::Track => StatusDisplay::Details,
        StatusSource::Artist => StatusDisplay::State,
        StatusSource::Other => StatusDisplay::State,
    }
}

/// The song as it is searched for: the artist, ` - `, and the title.
pub open spec fn song_name(new: MediaInfoView) -> Seq<char> {
    new.artist + " - "@ + new.title
}

/// The links for a snapshot and the user's nicknames.
pub open spec fn links_for(new: MediaInfoView, prefs: UserPreferencesView) -> LinksView {
    LinksView {
        youtube: "https://www.youtube.com/results?search_query="@ + component_encoded(
            song_name(new),
        ),
        lastfm: "https://www.last.fm/user/"@ + component_encoded(prefs.lastfm_name),
        listenbrainz: "https://listenbrainz.org/user/"@ + component_encoded(
            prefs.listenbrainz_name,
        ) + "/"@,
    }
}

/// Whether a button of this kind can be shown: a profile button needs the
/// nickname of its profile.
pub open spec fn is_offered(kind: ButtonKind, prefs: UserPreferencesView) -> bool {
    match kind {
        ButtonKind::Lastfm => prefs.lastfm_name.len() > 0,
        ButtonKind::Listenbrainz => prefs.listenbrainz_name.len() > 0,
        _ => true,
    }
}

/// The test for the kinds that can be shown.
pub open spec fn offers(prefs: UserPreferencesView) -> spec_fn(ButtonKind) -> bool {
    |kind: ButtonKind| is_offered(kind, prefs)
}

/// The test for the kinds other than `first`.
pub open spec fn differs_from(first: ButtonKind) -> spec_fn(ButtonKind) -> bool {
    |kind: ButtonKind| kind != first
}

/// The kinds of the buttons shown: of those asked for that can be shown, the
/// first, and after it the first of another kind.
pub open spec fn chosen_kinds(prefs: UserPreferencesView) -> Seq<ButtonKind> {
    let offered = prefs.buttons.filter(offers(prefs));
    if offered.len() == 0 {
        Seq::empty()
    } else {
        let others = offered.filter(differs_from(offered[0]));
        if others.len() == 0 {
            seq![offered[0]]
        } else {
            seq![offered[0], others[0]]
        }
    }
}

/// The button of a kind. The button for the playing item searches YouTube
/// where the player gave no link to the item.
pub open spec fn button_for(
    kind: ButtonKind,
    links: LinksView,
    item_url: Seq<char>,
    is_video: bool,
) -> ButtonView {
    match kind {
        ButtonKind::Youtube => ButtonView {
            label: "Search this song on YouTube"@,
            url: links.youtube,
        },
        ButtonKind::Lastfm => ButtonView { label: "Last.fm profile"@, url: links.lastfm },
        ButtonKind::Listenbrainz => ButtonView {
            label: "Listenbrainz profile"@,
            url: links.listenbrainz,
        },
        ButtonKind::MprisUrl => if item_url.len() == 0 {
            ButtonView { label: "Search this song on YouTube"@, url: links.youtube }
        } else if is_video {
            ButtonView { label: "Watch Now"@, url: item_url }
        } else {
            ButtonView { label: "Play Now"@, url: item_url }
        },
        ButtonKind::ShamelessAd => ButtonView { label: "Get This RPC"@, url: PROJECT_LINK@ },
    }
}

/// The buttons of a presence, at most two.
pub open spec fn buttons_for(
    prefs: UserPreferencesView,
    links: LinksView,
    item_url: Seq<char>,
    is_video: bool,
) -> Seq<ButtonView> {
    Seq::new(
        chosen_kinds(prefs).len(),
        |i: int| button_for(chosen_kinds(prefs)[i], links, item_url, is_video),
    )
}

/// The presence for a snapshot, given the links it leads to.
pub open spec fn payload_with(
    new: MediaInfoView,
    cover: Seq<char>,
    prefs: UserPreferencesView,
    occasion: Occasion,
    links: LinksView,
) -> PresencePayloadView {
    let large_image = large_image_of(cover);
    let icon = small_icon(
        new.is_playing,
        large_image,
        prefs,
        occasion.player_id@,
        occasion.player_name@,
        occasion.lastfm_avatar@,
    );
    PresencePayloadView {
        details: padded(new.title),
        details_url: links.youtube,
        state: state_line(new.artist, prefs.rpc_name, occasion.is_video),
        large_image,
        large_text: album_line(new.album, prefs.hide_album_name),
        small_image: match icon {
            Some(pair) => Some(pair.0),
            None => None,
        },
        small_text: match icon {
            Some(pair) => Some(pair.1),
            None => None,
        },
        start: time_window(new, occasion.now).0,
        end: time_window(new, occasion.now).1,
        buttons: buttons_for(prefs, links, new.url, occasion.is_video),
        activity: if occasion.is_video {
            ActivityKind::Watching
        } else {
            ActivityKind::Listening
        },
        status_display: status_display_of(prefs.rpc_name),
    }
}

/// The presence for a snapshot.
pub open spec fn payload_for(
    new: MediaInfoView,
    cover: Seq<char>,
    prefs: UserPreferencesView,
    occasion: Occasion,
) -> PresencePayloadView {
    payload_with(new, cover, prefs, occasion, links_for(new, prefs))
}

/// Pads a text of one character with a space. What comes out never has
/// exactly one character.
pub fn pad(text: &str) -> (r: String)
    ensures
        r@ == padded(text@),
        r@.len() != 1,
        text@.len() == 1 ==> r@.len() == 2 && r@[0] == text@[0] && r@[1] == ' ',
{
    if text.unicode_len() == 1 {
        proof {
            reveal_strlit(" ");
            assert(" "@ == seq![' ']);
            assert(text@ + seq![' '] == text@.push(' '));
        }
        followed_by(text, " ")
    } else {
        text.to_owned()
    }
}

fn state_of(artist: &str, source: StatusSource, is_video: bool) -> (r: Option<String>)
    ensures
        r.deep_view() == state_line(artist@, source, is_video),
{
    if is_video && artist.to_owned() == UNKNOWN_ARTIST.to_owned() {
        None
    } else {
        match source {
            StatusSource::Artist => Some(pad(artist)),
            _ => Some(followed_by("by: ", artist)),
        }
    }
}

/// Whether a snapshot can be timed at `now`.
pub fn can_time(new: &MediaInfo, now: u64) -> (r: bool)
    ensures
        r == can_be_timed(new@, now),
{
    if new.position > now {
        return false;
    }
    let start: u64 = now - new.position;
    let limit: u64 = 0x7fff_ffff_ffff_ffff;
    start <= limit && new.duration <= limit - start
}

/// The start and the end of the time window of a snapshot at `now`.
pub fn window(new: &MediaInfo, now: u64) -> (r: (Option<i64>, Option<i64>))
    requires
        can_be_timed(new@, now),
    ensures
        r == time_window(new@, now),
{
    let start: u64 = now - new.position;
    if new.is_track_position && new.duration > 0 {
        if new.is_playing {
            (Some(start as i64), Some((start + new.duration) as i64))
        } else {
            (Some(start as i64), None)
        }
    } else {
        (None, Some(start as i64))
    }
}

fn icon_of(
    is_playing: bool,
    large_image: &str,
    prefs: &UserPreferences,
    occasion: &Occasion,
) -> (r: Option<(String, String)>)
    ensures
        match r {
            Some(pair) => small_icon(
                is_playing,
                large_image@,
                prefs@,
                occasion.player_id@,
                occasion.player_name@,
                occasion.lastfm_avatar@,
            ) == Some((pair.0@, pair.1@)),
            None => small_icon(
                is_playing,
                large_image@,
                prefs@,
                occasion.player_id@,
                occasion.player_name@,
                occasion.lastfm_avatar@,
            ) is None,
        },
{
    if !is_playing {
        return Some(("paused".to_owned(), "paused".to_owned()));
    }
    match prefs.small_image {
        SmallImage::PlayPause => Some(("playing".to_owned(), "playing".to_owned())),
        SmallImage::Player => {
            if !prefs.disable_mpris_art_url && contains_text(large_image, "ytimg.com/") {
                Some(("youtube".to_owned(), "YouTube".to_owned()))
            } else {
                Some((occasion.player_id.clone(), occasion.player_name.clone()))
            }
        },
        SmallImage::LastfmAvatar => {
            if occasion.lastfm_avatar.as_str().unicode_len() > 0 {
                let text = if prefs.lastfm_name.as_str().unicode_len() > 0 {
                    followed_by(prefs.lastfm_name.as_str(), " on Last.fm")
                } else {
                    String::new()
                };
                Some((occasion.lastfm_avatar.clone(), text))
            } else {
                None
            }
        },
        SmallImage::Hidden => None,
    }
}

fn offered(kind: ButtonKind, prefs: &UserPreferences) -> (r: bool)
    ensures
        r == is_offered(kind, prefs@),
{
    match kind {
        ButtonKind::Lastfm => prefs.lastfm_name.as_str().unicode_len() > 0,
        ButtonKind::Listenbrainz => prefs.listenbrainz_name.as_str().unicode_len() > 0,
        _ => true,
    }
}

/// Chooses the kinds of the buttons to show: at most two, no kind twice, and
/// each one asked for and able to be shown.
pub fn choose_buttons(prefs: &UserPreferences) -> (r: Vec<ButtonKind>)
    ensures
        r@ == chosen_kinds(prefs@),
        r.len() <= 2,
        r.len() == 2 ==> r[0] != r[1],
        forall|i: int|
            0 <= i < r.len() ==> is_offered(#[trigger] r[i], prefs@) && prefs.buttons@.contains(
                r[i],
            ),
{
    let ghost offer = offers(prefs@);
    let mut first: Option<ButtonKind> = None;
    let mut second: Option<ButtonKind> = None;
    let mut i: usize = 0;
    while i < prefs.buttons.len() && second.is_none()
        invariant
            i <= prefs.buttons.len(),
            offer == offers(prefs@),
            first is None <==> prefs.buttons@.take(i as int).filter(offer).len() == 0,
            first is Some ==> prefs.buttons@.take(i as int).filter(offer)[0] == first->0,
            second is Some ==> first is Some,
            first is Some ==> is_offered(first->0, prefs@) && prefs.buttons@.contains(first->0),
            second is Some ==> is_offered(second->0, prefs@) && prefs.buttons@.contains(
                second->0,
            ),
            first is Some ==> (second is None <==> prefs.buttons@.take(i as int).filter(
                offer,
            ).filter(differs_from(first->0)).len() == 0),
            first is Some && second is Some ==> prefs.buttons@.take(i as int).filter(
                offer,
            ).filter(differs_from(first->0))[0] == second->0,
        decreases prefs.buttons.len() - i,
    {
        let kind = prefs.buttons[i];
        assert(prefs.buttons@.contains(kind));
        let ghost before = prefs.buttons@.take(i as int);
        let ghost now = prefs.buttons@.take(i + 1);
        proof {
            reveal(Seq::filter);
            assert(now.drop_last() == before);
            assert(now.last() == kind);
            assert(now.filter(offer) == if offer(kind) {
                before.filter(offer).push(kind)
            } else {
                before.filter(offer)
            });
        }
        if offered(kind, prefs) {
            proof {
                assert(before.filter(offer).push(kind).drop_last() == before.filter(offer));
            }
            match first {
                None => {
                    first = Some(kind);
                    proof {
                        assert(before.filter(offer) == Seq::<ButtonKind>::empty());
                        assert(now.filter(offer) == seq![kind]);
                        let one = seq![kind];
                        assert(one.drop_last() == Seq::<ButtonKind>::empty());
                        assert(!differs_from(kind)(kind));
                        assert(one.filter(differs_from(kind)) == one.drop_last().filter(
                            differs_from(kind),
                        ));
                        one.drop_last().lemma_filter_len(differs_from(kind));
                    }
                },
                Some(head) => {
                    proof {
                        assert(before.filter(offer).filter(differs_from(head)).len() == 0);
                        assert(before.filter(offer).filter(differs_from(head)) == Seq::<
                            ButtonKind,
                        >::empty());
                    }
                    if head != kind {
                        second = Some(kind);
                    }
                },
            }
        }
        i += 1;
    }
    proof {
        let seen = prefs.buttons@.take(i as int);
        let rest = prefs.buttons@.skip(i as int);
        assert(prefs.buttons@ == seen + rest);
        Seq::filter_distributes_over_add(seen, rest, offer);
        if second is None {
            assert(seen == prefs.buttons@);
        }
        match first {
            Some(head) => {
                Seq::filter_distributes_over_add(
                    seen.filter(offer),
                    rest.filter(offer),
                    differs_from(head),
                );
                assert(prefs.buttons@.filter(offer)[0] == head);
                if second is Some {
                    prefs.buttons@.filter(offer).lemma_filter_pred(differs_from(head), 0);
                }
            },
            None => {},
        }
    }
    let mut chosen: Vec<ButtonKind> = Vec::new();
    match first {
        Some(head) => {
            chosen.push(head);
            match second {
                Some(next) => {
                    chosen.push(next);
                },
                None => {},
            }
        },
        None => {},
    }
    chosen
}

fn button_of(kind: ButtonKind, links: &Links, item_url: &str, is_video: bool) -> (r: Button)
    ensures
        r@ == button_for(kind, links@, item_url@, is_video),
{
    match kind {
        ButtonKind::Youtube => Button {
            label: "Search this song on YouTube".to_owned(),
            url: links.youtube.clone(),
        },
        ButtonKind::Lastfm => Button {
            label: "Last.fm profile".to_owned(),
            url: links.lastfm.clone(),
        },
        ButtonKind::Listenbrainz => Button {
            label: "Listenbrainz profile".to_owned(),
            url: links.listenbrainz.clone(),
        },
        ButtonKind::MprisUrl => {
            if item_url.unicode_len() == 0 {
                Button {
                    label: "Search this song on YouTube".to_owned(),
                    url: links.youtube.clone(),
                }
            } else if is_video {
                Button { label: "Watch Now".to_owned(), url: item_url.to_owned() }
            } else {
                Button { label: "Play Now".to_owned(), url: item_url.to_owned() }
            }
        },
        ButtonKind::ShamelessAd => Button {
            label: "Get This RPC".to_owned(),
            url: PROJECT_LINK.to_owned(),
        },
    }
}

/// Builds the buttons of a presence: the kinds asked for are gone through in
/// order, a kind that cannot be shown or repeats the first button is passed
/// over, and no more than two buttons come out.
pub fn build_buttons(prefs: &UserPreferences, links: &Links, item_url: &str, is_video: bool) -> (r:
    Vec<Button>)
    ensures
        button_views(r@) == buttons_for(prefs@, links@, item_url@, is_video),
        r.len() == chosen_kinds(prefs@).len(),
        forall|i: int|
            0 <= i < r.len() ==> (#[trigger] r[i])@ == button_for(
                chosen_kinds(prefs@)[i],
                links@,
                item_url@,
                is_video,
            ),
        r.len() <= 2,
{
    let kinds = choose_buttons(prefs);
    let mut buttons: Vec<Button> = Vec::new();
    if kinds.len() > 0 {
        buttons.push(button_of(kinds[0], links, item_url, is_video));
    }
    if kinds.len() > 1 {
        buttons.push(button_of(kinds[1], links, item_url, is_video));
    }
    assert(button_views(buttons@) =~= buttons_for(prefs@, links@, item_url@, is_video));
    buttons
}

/// The links that the title and the buttons of a snapshot lead to.
pub fn links_of(new: &MediaInfo, prefs: &UserPreferences) -> (r: Links)
    ensures
        r@ == links_for(new@, prefs@),
{
    let mut song = followed_by(new.artist.as_str(), " - ");
    song.append(new.title.as_str());
    let youtube = followed_by(
        "https://www.youtube.com/results?search_query=",
        encode_component(song.as_str()).as_str(),
    );
    let lastfm = followed_by(
        "https://www.last.fm/user/",
        encode_component(prefs.lastfm_name.as_str()).as_str(),
    );
    let mut listenbrainz = followed_by(
        "https://listenbrainz.org/user/",
        encode_component(prefs.listenbrainz_name.as_str()).as_str(),
    );
    listenbrainz.append("/");
    Links { youtube, lastfm, listenbrainz }
}

/// Builds the presence for a snapshot from the links it leads to.
pub fn build_payload_with(
    new: &MediaInfo,
    cover: &str,
    prefs: &UserPreferences,
    occasion: &Occasion,
    links: &Links,
) -> (r: PresencePayload)
    requires
        can_be_timed(new@, occasion.now),
    ensures
        r@ == payload_with(new@, cover@, prefs@, *occasion, links@),
        r.buttons.len() <= 2,
{
    let large_image = if cover.unicode_len() == 0 {
        MISSING_COVER.to_owned()
    } else {
        cover.to_owned()
    };
    let (small_image, small_text) = match icon_of(
        new.is_playing,
        large_image.as_str(),
        prefs,
        occasion,
    ) {
        Some(pair) => (Some(pair.0), Some(pair.1)),
        None => (None, None),
    };
    let (start, end) = window(new, occasion.now);
    PresencePayload {
        details: pad(new.title.as_str()),
        details_url: links.youtube.clone(),
        state: state_of(new.artist.as_str(), prefs.rpc_name, occasion.is_video),
        large_image,
        large_text: if prefs.hide_album_name {
            None
        } else {
            Some(followed_by("album: ", new.album.as_str()))
        },
        small_image,
        small_text,
        start,
        end,
        buttons: build_buttons(prefs, links, new.url.as_str(), occasion.is_video),
        activity: if occasion.is_video {
            ActivityKind::Watching
        } else {
            ActivityKind::Listening
        },
        status_display: match prefs.rpc_name {
            StatusSource::Name => StatusDisplay::Name,
            StatusSource::Track => StatusDisplay::Details,
            StatusSource::Artist => StatusDisplay::State,
            StatusSource::Other => StatusDisplay::State,
        },
    }
}

/// Builds the presence for a snapshot and its resolved cover.
pub fn build_payload(
    new: &MediaInfo,
    cover: &str,
    prefs: &UserPreferences,
    occasion: &Occasion,
) -> (r: PresencePayload)
    requires
        can_be_timed(new@, occasion.now),
    ensures
        r@ == payload_for(new@, cover@, prefs@, *occasion),
        r.buttons.len() <= 2,
{
    let links = links_of(new, prefs);
    build_payload_with(new, cover, prefs, occasion, &links)
}

/// Builds the presence for a snapshot and its resolved cover, if the snapshot
/// can be timed at the moment of publication; there is no presence exactly
/// when it cannot.
pub fn try_build_payload(
    new: &MediaInfo,
    cover: &str,
    prefs: &UserPreferences,
    occasion: &Occasion,
) -> (r: Option<PresencePayload>)
    ensures
        r is Some <==> can_be_timed(new@, occasion.now),
        r matches Some(payload) ==> payload@ == payload_for(new@, cover@, prefs@, *occasion)
            && payload.buttons.len() <= 2,
{
    if can_time(new, occasion.now) {
        Some(build_payload(new, cover, prefs, occasion))
    } else {
        None
    }
}

} // verus!
