//! Resolving the cover of an album.
//!
//! The sources are tried in a fixed order: the cache, the primary lookup
//! service, the fallback service, and at last the link that the player itself
//! supplied. The library never talks to the network. Each function either
//! answers or names the link to fetch; the caller fetches it and hands the
//! reply back.

use crate::cache::{cache_entries, cache_get};
use crate::escape::{component_encoded, encode_component};
use crate::json::{
    json_element, json_element_text, json_member, json_member_text, json_render, json_text,
    parse_json, parsed_json,
};
use crate::media::{album_identity, MediaInfo, MediaInfoView, UNKNOWN_ALBUM};
use crate::text::{byte_len, byte_length, followed_by, is_web_link, strip_ends, text_eq, web_link, without_ends};
use pickledb::PickleDb;
use vstd::prelude::*;
use vstd::string::*;

verus! {

/// The image reference that means "no usable artwork found".
pub const MISSING_COVER: &'static str = "missing-cover";

/// Which reply a lookup is waiting for.
#[derive(Clone, Copy, Debug, PartialEq, Eq, Structural)]
pub enum CoverStage {
    /// Nothing has been asked yet.
    Start,
    /// The primary service was asked for the album.
    Primary,
    /// The fallback service was asked to search for the release.
    FallbackSearch,
    /// The fallback service was asked for the images of the release.
    FallbackImage,
}

/// What a lookup has come to.
#[derive(Debug)]
pub enum CoverStep {
    /// The cover is resolved. `remember` tells the caller to write it to the
    /// cache under the album identity.
    Resolved { image: String, remember: bool },
    /// The caller is to fetch `url`, with the client identifier header if
    /// `identify` is set, and to come back with the reply and stage `awaiting`.
    Fetch { awaiting: CoverStage, url: String, identify: bool },
}

/// The mathematical value of a [`CoverStep`].
pub enum CoverStepView {
    Resolved { image: Seq<char>, remember: bool },
    Fetch { awaiting: CoverStage, url: Seq<char>, identify: bool },
}

impl View for CoverStep {
    type V = CoverStepView;

    open spec fn view(&self) -> CoverStepView {
        match *self {
            CoverStep::Resolved { image, remember } => CoverStepView::Resolved {
                image: image@,
                remember,
            },
            CoverStep::Fetch { awaiting, url, identify } => CoverStepView::Fetch {
                awaiting,
                url: url@,
                identify,
            },
        }
    }
}

/// The preferences that steer a lookup.
#[derive(Debug)]
pub struct CoverOptions {
    /// Read the cache, and remember what the services find.
    pub cache_enabled: bool,
    /// The key of the primary service; empty switches that service off.
    pub lastfm_api_key: String,
    /// Ask the fallback service when the primary one finds nothing.
    pub fallback_enabled: bool,
    /// Fall back to the link supplied by the player itself.
    pub embedded_enabled: bool,
}

/// A raw field of a reply counts as a link only if it is longer than `least`
/// bytes; the link is the field without the quote at either end.
pub open spec fn accepted_link(raw: Seq<char>, least: nat) -> Option<Seq<char>> {
    if byte_len(raw) > least {
        Some(without_ends(raw))
    } else {
        None
    }
}

/// A cached value counts as a hit only if it is longer than 5 bytes.
pub open spec fn cache_hit(entries: Map<Seq<char>, Seq<char>>, album_id: Seq<char>) -> Option<
    Seq<char>,
> {
    if entries.contains_key(album_id) && byte_len(entries[album_id]) > 5 {
        Some(entries[album_id])
    } else {
        None
    }
}

/// What is known of a cover before any service is asked: the sentinel for the
/// unknown album, else the cached link if the cache is on and has one.
pub open spec fn known_cover(
    album_id: Seq<char>,
    album: Seq<char>,
    cache_enabled: bool,
    entries: Map<Seq<char>, Seq<char>>,
) -> Option<Seq<char>> {
    if album == UNKNOWN_ALBUM@ {
        Some(MISSING_COVER@)
    } else if cache_enabled {
        cache_hit(entries, album_id)
    } else {
        None
    }
}

/// The link that asks the primary service for an album.
pub open spec fn lastfm_album_request(api_key: Seq<char>, artist: Seq<char>, album: Seq<char>) -> Seq<
    char,
> {
    "http://ws.audioscrobbler.com/2.0/?method=album.getinfo&api_key="@ + api_key + "&artist="@
        + component_encoded(artist) + "&album="@ + component_encoded(album)
        + "&autocorrect=0&format=json"@
}

/// The link that asks the primary service for a user's profile.
pub open spec fn lastfm_user_request(api_key: Seq<char>, user: Seq<char>) -> Seq<char> {
    "http://ws.audioscrobbler.com/2.0/?method=user.getinfo&api_key="@ + api_key + "&user="@
        + component_encoded(user) + "&format=json"@
}

/// The link that asks the fallback service to search for a release.
pub open spec fn musicbrainz_search_request(artist: Seq<char>, album: Seq<char>) -> Seq<char> {
    "https://musicbrainz.org/ws/2/release/?query=artist:\""@ + component_encoded(artist)
        + "\"ANDrelease:\""@ + component_encoded(album) + "\"&fmt=json&limit=1"@
}

/// The link that asks for the images of a release.
pub open spec fn cover_art_request(release: Seq<char>) -> Seq<char> {
    "http://coverartarchive.org/release/"@ + release + "/"@
}

/// The body of a reply; `None` stands for a request that failed.
pub open spec fn body_of(reply: Option<Vec<u8>>) -> Option<Seq<u8>> {
    match reply {
        Some(body) => Some(body@),
        None => None,
    }
}

/// The compact text of the JSON document that a reply holds, if it holds one.
pub open spec fn document_of(reply: Option<Seq<u8>>) -> Option<Seq<char>> {
    match reply {
        Some(body) => parsed_json(body),
        None => None,
    }
}

/// The raw text of the field `album.image[3].#text` of a reply; empty where
/// there is no document.
pub open spec fn lastfm_cover_field(document: Option<Seq<char>>) -> Seq<char> {
    match document {
        Some(text) => json_member_text(
            json_element_text(json_member_text(json_member_text(text, "album"@), "image"@), 3),
            "#text"@,
        ),
        None => Seq::empty(),
    }
}

/// The raw text of the field `user.image[3].#text` of a reply.
pub open spec fn lastfm_avatar_field(document: Option<Seq<char>>) -> Seq<char> {
    match document {
        Some(text) => json_member_text(
            json_element_text(json_member_text(json_member_text(text, "user"@), "image"@), 3),
            "#text"@,
        ),
        None => Seq::empty(),
    }
}

/// The raw text of the field `releases[0].id` of a reply.
pub open spec fn release_id_field(document: Option<Seq<char>>) -> Seq<char> {
    match document {
        Some(text) => json_member_text(
            json_element_text(json_member_text(text, "releases"@), 0),
            "id"@,
        ),
        None => Seq::empty(),
    }
}

/// The raw text of the field `images[0].thumbnails.small` of a reply.
pub open spec fn archive_cover_field(document: Option<Seq<char>>) -> Seq<char> {
    match document {
        Some(text) => json_member_text(
            json_member_text(
                json_element_text(json_member_text(text, "images"@), 0),
                "thumbnails"@,
            ),
            "small"@,
        ),
        None => Seq::empty(),
    }
}

/// The cover that a reply of the primary service names, if any.
pub open spec fn lastfm_cover(reply: Option<Seq<u8>>) -> Option<Seq<char>> {
    accepted_link(lastfm_cover_field(document_of(reply)), 5)
}

/// The avatar that a reply of the primary service names; empty if none.
pub open spec fn lastfm_avatar(reply: Option<Seq<u8>>) -> Seq<char> {
    match accepted_link(lastfm_avatar_field(document_of(reply)), 15) {
        Some(link) => link,
        None => Seq::empty(),
    }
}

/// The release identifier that a search reply names. A field too short to be
/// one is passed on as it is.
pub open spec fn release_id(reply: Option<Seq<u8>>) -> Seq<char> {
    let raw = release_id_field(document_of(reply));
    match accepted_link(raw, 5) {
        Some(id) => id,
        None => raw,
    }
}

/// The cover that a reply of the image archive names, if any.
pub open spec fn archive_cover(reply: Option<Seq<u8>>) -> Option<Seq<char>> {
    accepted_link(archive_cover_field(document_of(reply)), 5)
}

/// The last resort: the player's own link if it may be used and is an
/// absolute web link, else the sentinel. It is never remembered.
pub open spec fn embedded_or_missing(new: MediaInfoView, options: CoverOptions) -> CoverStepView {
    if options.embedded_enabled && is_web_link(new.art_url) {
        CoverStepView::Resolved { image: new.art_url, remember: false }
    } else {
        CoverStepView::Resolved { image: MISSING_COVER@, remember: false }
    }
}

/// What follows once the primary service is out: the fallback search if it is
/// on, else the last resort.
pub open spec fn after_primary(new: MediaInfoView, options: CoverOptions) -> CoverStepView {
    if options.fallback_enabled {
        CoverStepView::Fetch {
            awaiting: CoverStage::FallbackSearch,
            url: musicbrainz_search_request(new.album_artist, new.album),
            identify: true,
        }
    } else {
        embedded_or_missing(new, options)
    }
}

/// What follows once the cache is out: the primary service if there is a key
/// for it, else whatever follows it.
pub open spec fn after_cache(new: MediaInfoView, options: CoverOptions) -> CoverStepView {
    if options.lastfm_api_key@.len() > 0 {
        CoverStepView::Fetch {
            awaiting: CoverStage::Primary,
            url: lastfm_album_request(options.lastfm_api_key@, new.album_artist, new.album),
            identify: false,
        }
    } else {
        after_primary(new, options)
    }
}

/// The step that a lookup takes in `stage`, given the reply to what was
/// fetched last. An unknown album resolves to the sentinel in every stage.
pub open spec fn cover_step(
    stage: CoverStage,
    new: MediaInfoView,
    options: CoverOptions,
    entries: Map<Seq<char>, Seq<char>>,
    reply: Option<Seq<u8>>,
) -> CoverStepView {
    if new.album == UNKNOWN_ALBUM@ {
        CoverStepView::Resolved { image: MISSING_COVER@, remember: false }
    } else {
        match stage {
            CoverStage::Start => match known_cover(
                album_identity(new.album_artist, new.album),
                new.album,
                options.cache_enabled,
                entries,
            ) {
                Some(image) => CoverStepView::Resolved { image, remember: false },
                None => after_cache(new, options),
            },
            CoverStage::Primary => match lastfm_cover(reply) {
                Some(image) => CoverStepView::Resolved { image, remember: options.cache_enabled },
                None => after_primary(new, options),
            },
            CoverStage::FallbackSearch => CoverStepView::Fetch {
                awaiting: CoverStage::FallbackImage,
                url: cover_art_request(release_id(reply)),
                identify: true,
            },
            CoverStage::FallbackImage => match archive_cover(reply) {
                Some(image) => CoverStepView::Resolved { image, remember: options.cache_enabled },
                None => embedded_or_missing(new, options),
            },
        }
    }
}

/// Judges a raw field of a reply: a link if it is longer than `least` bytes,
/// and then without the quote at either end.
pub fn accept_link(raw: &str, least: usize) -> (r: Option<String>)
    ensures
        r.deep_view() == accepted_link(raw@, least as nat),
{
    if byte_length(raw) > least {
        Some(strip_ends(raw))
    } else {
        None
    }
}

/// Reads the cache: the link stored under `album_id`, if it is longer than 5
/// bytes.
pub fn cached_cover(cache: &PickleDb, album_id: &str) -> (r: Option<String>)
    ensures
        r.deep_view() == cache_hit(cache_entries(*cache), album_id@),
{
    match cache_get(cache, album_id) {
        Some(link) => {
            if byte_length(link.as_str()) > 5 {
                Some(link)
            } else {
                None
            }
        },
        None => None,
    }
}

/// What is known of a cover before any service is asked.
pub fn lookup_known_cover(album_id: &str, album: &str, cache_enabled: bool, cache: &PickleDb) -> (r:
    Option<String>)
    ensures
        r.deep_view() == known_cover(album_id@, album@, cache_enabled, cache_entries(*cache)),
{
    if text_eq(album, UNKNOWN_ALBUM) {
        Some(MISSING_COVER.to_owned())
    } else if cache_enabled {
        cached_cover(cache, album_id)
    } else {
        None
    }
}

fn album_request(api_key: &str, artist: &str, album: &str) -> (r: String)
    ensures
        r@ == lastfm_album_request(api_key@, artist@, album@),
{
    let mut url = followed_by(
        "http://ws.audioscrobbler.com/2.0/?method=album.getinfo&api_key=",
        api_key,
    );
    url.append("&artist=");
    url.append(encode_component(artist).as_str());
    url.append("&album=");
    url.append(encode_component(album).as_str());
    url.append("&autocorrect=0&format=json");
    url
}

fn search_request(artist: &str, album: &str) -> (r: String)
    ensures
        r@ == musicbrainz_search_request(artist@, album@),
{
    let mut url = followed_by(
        "https://musicbrainz.org/ws/2/release/?query=artist:\"",
        encode_component(artist).as_str(),
    );
    url.append("\"ANDrelease:\"");
    url.append(encode_component(album).as_str());
    url.append("\"&fmt=json&limit=1");
    url
}

/// The link that asks the primary service for the profile of `user`.
pub fn avatar_request(api_key: &str, user: &str) -> (r: String)
    ensures
        r@ == lastfm_user_request(api_key@, user@),
{
    let mut url = followed_by(
        "http://ws.audioscrobbler.com/2.0/?method=user.getinfo&api_key=",
        api_key,
    );
    url.append("&user=");
    url.append(encode_component(user).as_str());
    url.append("&format=json");
    url
}

/// Starts a lookup at the primary service.
///
/// The unknown album resolves to the sentinel and a cache hit to the cached
/// link, neither of them remembered; otherwise the step names the link that
/// asks the service for the album.
pub fn get_cover_url(
    album_id: &str,
    album: &str,
    cache_enabled: bool,
    album_cache: &PickleDb,
    artist: &str,
    lastfm_api_key: &str,
) -> (r: CoverStep)
    ensures
        r@ == match known_cover(album_id@, album@, cache_enabled, cache_entries(*album_cache)) {
            Some(image) => CoverStepView::Resolved { image, remember: false },
            None => CoverStepView::Fetch {
                awaiting: CoverStage::Primary,
                url: lastfm_album_request(lastfm_api_key@, artist@, album@),
                identify: false,
            },
        },
        album@ == UNKNOWN_ALBUM@ ==> r@ == (CoverStepView::Resolved {
            image: MISSING_COVER@,
            remember: false,
        }),
{
    match lookup_known_cover(album_id, album, cache_enabled, album_cache) {
        Some(image) => CoverStep::Resolved { image, remember: false },
        None => CoverStep::Fetch {
            awaiting: CoverStage::Primary,
            url: album_request(lastfm_api_key, artist, album),
            identify: false,
        },
    }
}

/// Starts a lookup at the fallback service.
///
/// The unknown album resolves to the sentinel and a cache hit to the cached
/// link, neither of them remembered; otherwise the step names the link that
/// searches for the release, to be fetched with the client identifier.
pub fn get_cover_url_musicbrainz(
    album_id: &str,
    album: &str,
    cache_enabled: bool,
    album_cache: &PickleDb,
    artist: &str,
) -> (r: CoverStep)
    ensures
        r@ == match known_cover(album_id@, album@, cache_enabled, cache_entries(*album_cache)) {
            Some(image) => CoverStepView::Resolved { image, remember: false },
            None => CoverStepView::Fetch {
                awaiting: CoverStage::FallbackSearch,
                url: musicbrainz_search_request(artist@, album@),
                identify: true,
            },
        },
        album@ == UNKNOWN_ALBUM@ ==> r@ == (CoverStepView::Resolved {
            image: MISSING_COVER@,
            remember: false,
        }),
{
    match lookup_known_cover(album_id, album, cache_enabled, album_cache) {
        Some(image) => CoverStep::Resolved { image, remember: false },
        None => CoverStep::Fetch {
            awaiting: CoverStage::FallbackSearch,
            url: search_request(artist, album),
            identify: true,
        },
    }
}

/// Parses the body of a reply, if there is one and it is a JSON document.
fn parse_reply(reply: &Option<Vec<u8>>) -> (r: Option<serde_json::Value>)
    ensures
        match r {
            Some(document) => document_of(body_of(*reply)) == Some(json_text(document)),
            None => document_of(body_of(*reply)) is None,
        },
{
    match reply {
        Some(body) => match parse_json(body.as_slice()) {
            Ok(document) => Some(document),
            Err(_) => None,
        },
        None => None,
    }
}

fn read_cover_field(reply: &Option<Vec<u8>>) -> (r: String)
    ensures
        r@ == lastfm_cover_field(document_of(body_of(*reply))),
{
    match parse_reply(reply) {
        Some(document) => {
            let album = json_member(&document, "album");
            let images = json_member(album, "image");
            let image = json_element(images, 3);
            json_render(json_member(image, "#text"))
        },
        None => String::new(),
    }
}

fn read_avatar_field(reply: &Option<Vec<u8>>) -> (r: String)
    ensures
        r@ == lastfm_avatar_field(document_of(body_of(*reply))),
{
    match parse_reply(reply) {
        Some(document) => {
            let user = json_member(&document, "user");
            let images = json_member(user, "image");
            let image = json_element(images, 3);
            json_render(json_member(image, "#text"))
        },
        None => String::new(),
    }
}

fn read_release_field(reply: &Option<Vec<u8>>) -> (r: String)
    ensures
        r@ == release_id_field(document_of(body_of(*reply))),
{
    match parse_reply(reply) {
        Some(document) => {
            let releases = json_member(&document, "releases");
            let release = json_element(releases, 0);
            json_render(json_member(release, "id"))
        },
        None => String::new(),
    }
}

fn read_archive_field(reply: &Option<Vec<u8>>) -> (r: String)
    ensures
        r@ == archive_cover_field(document_of(body_of(*reply))),
{
    match parse_reply(reply) {
        Some(document) => {
            let images = json_member(&document, "images");
            let image = json_element(images, 0);
            let thumbnails = json_member(image, "thumbnails");
            json_render(json_member(thumbnails, "small"))
        },
        None => String::new(),
    }
}

/// Reads the cover out of a reply of the primary service. `None` as the
/// reply stands for a request that failed.
pub fn read_lastfm_cover(reply: &Option<Vec<u8>>) -> (r: Option<String>)
    ensures
        r.deep_view() == lastfm_cover(body_of(*reply)),
        reply is None ==> r is None,
{
    let raw = read_cover_field(reply);
    proof {
        lemma_empty_is_no_link(5);
    }
    accept_link(raw.as_str(), 5)
}

/// Reads the cover out of a reply of the image archive.
pub fn read_archive_cover(reply: &Option<Vec<u8>>) -> (r: Option<String>)
    ensures
        r.deep_view() == archive_cover(body_of(*reply)),
        reply is None ==> r is None,
{
    let raw = read_archive_field(reply);
    proof {
        lemma_empty_is_no_link(5);
    }
    accept_link(raw.as_str(), 5)
}

/// Reads a user's avatar out of a reply of the primary service; the result is
/// empty where the reply names none.
pub fn get_lastfm_avatar(reply: &Option<Vec<u8>>) -> (r: String)
    ensures
        r@ == lastfm_avatar(body_of(*reply)),
        reply is None ==> r@.len() == 0,
{
    let raw = read_avatar_field(reply);
    proof {
        lemma_empty_is_no_link(15);
    }
    match accept_link(raw.as_str(), 15) {
        Some(link) => link,
        None => String::new(),
    }
}

/// The link that asks for the images of the release that a search reply names.
pub fn release_request(reply: &Option<Vec<u8>>) -> (r: String)
    ensures
        r@ == cover_art_request(release_id(body_of(*reply))),
{
    let raw = read_release_field(reply);
    let id = match accept_link(raw.as_str(), 5) {
        Some(id) => id,
        None => raw,
    };
    let mut url = followed_by("http://coverartarchive.org/release/", id.as_str());
    url.append("/");
    url
}

/// The empty text is never a link.
pub proof fn lemma_empty_is_no_link(least: nat)
    ensures
        accepted_link(Seq::empty(), least) is None,
{
    assert(vstd::utf8::encode_utf8(Seq::<char>::empty()).len() == 0);
}

fn last_resort(new: &MediaInfo, options: &CoverOptions) -> (r: CoverStep)
    ensures
        r@ == embedded_or_missing(new@, *options),
{
    if options.embedded_enabled && web_link(new.art_url.as_str()) {
        CoverStep::Resolved { image: new.art_url.clone(), remember: false }
    } else {
        CoverStep::Resolved { image: MISSING_COVER.to_owned(), remember: false }
    }
}

fn next_after_primary(new: &MediaInfo, options: &CoverOptions) -> (r: CoverStep)
    ensures
        r@ == after_primary(new@, *options),
{
    if options.fallback_enabled {
        CoverStep::Fetch {
            awaiting: CoverStage::FallbackSearch,
            url: search_request(new.album_artist.as_str(), new.album.as_str()),
            identify: true,
        }
    } else {
        last_resort(new, options)
    }
}

/// Takes one step of the lookup of the cover of `new`'s album.
///
/// Begin with stage `Start`; `reply` is then not looked at. While the step is
/// `Fetch`, fetch the link and call again with the stage it names and the
/// reply, `None` if the request failed. The order is: the sentinel for the
/// unknown album; the cache, if enabled; the primary service, if it has a
/// key; the fallback service, if enabled; the player's own link, if allowed
/// and an absolute web link; the sentinel. What a service found is to be
/// remembered if the cache is enabled; nothing else is.
pub fn resolve_cover(
    stage: CoverStage,
    new: &MediaInfo,
    options: &CoverOptions,
    cache: &PickleDb,
    reply: &Option<Vec<u8>>,
) -> (r: CoverStep)
    ensures
        r@ == cover_step(stage, new@, *options, cache_entries(*cache), body_of(*reply)),
        new.album@ == UNKNOWN_ALBUM@ ==> r@ == (CoverStepView::Resolved {
            image: MISSING_COVER@,
            remember: false,
        }),
{
    if text_eq(new.album.as_str(), UNKNOWN_ALBUM) {
        return CoverStep::Resolved { image: MISSING_COVER.to_owned(), remember: false };
    }
    match stage {
        CoverStage::Start => {
            let album_id = new.album_id();
            if options.lastfm_api_key.as_str().unicode_len() > 0 {
                get_cover_url(
                    album_id.as_str(),
                    new.album.as_str(),
                    options.cache_enabled,
                    cache,
                    new.album_artist.as_str(),
                    options.lastfm_api_key.as_str(),
                )
            } else if options.fallback_enabled {
                get_cover_url_musicbrainz(
                    album_id.as_str(),
                    new.album.as_str(),
                    options.cache_enabled,
                    cache,
                    new.album_artist.as_str(),
                )
            } else {
                match lookup_known_cover(
                    album_id.as_str(),
                    new.album.as_str(),
                    options.cache_enabled,
                    cache,
                ) {
                    Some(image) => CoverStep::Resolved { image, remember: false },
                    None => last_resort(new, options),
                }
            }
        },
        CoverStage::Primary => match read_lastfm_cover(reply) {
            Some(image) => CoverStep::Resolved { image, remember: options.cache_enabled },
            None => next_after_primary(new, options),
        },
        CoverStage::FallbackSearch => CoverStep::Fetch {
            awaiting: CoverStage::FallbackImage,
            url: release_request(reply),
            identify: true,
        },
        CoverStage::FallbackImage => match read_archive_cover(reply) {
            Some(image) => CoverStep::Resolved { image, remember: options.cache_enabled },
            None => last_resort(new, options),
        },
    }
}

/// What the cache holds for an album is what a lookup returns, without
/// asking any service: where the cache is enabled and holds a link of more
/// than 5 bytes under the identity of a known album, the first step resolves
/// to that link as it is, and it is not written back.
pub proof fn lemma_cached_cover_is_returned(
    new: MediaInfoView,
    options: CoverOptions,
    entries: Map<Seq<char>, Seq<char>>,
    reply: Option<Seq<u8>>,
)
    requires
        options.cache_enabled,
        new.album != UNKNOWN_ALBUM@,
        entries.contains_key(album_identity(new.album_artist, new.album)),
        byte_len(entries[album_identity(new.album_artist, new.album)]) > 5,
    ensures
        cover_step(CoverStage::Start, new, options, entries, reply) == (CoverStepView::Resolved {
            image: entries[album_identity(new.album_artist, new.album)],
            remember: false,
        }),
{
}

/// The unknown album never leads to a request: in every stage, with any
/// artist, cache and reply, the lookup resolves to the sentinel at once.
pub proof fn lemma_unknown_album_is_missing(
    stage: CoverStage,
    new: MediaInfoView,
    options: CoverOptions,
    entries: Map<Seq<char>, Seq<char>>,
    reply: Option<Seq<u8>>,
)
    requires
        new.album == UNKNOWN_ALBUM@,
    ensures
        cover_step(stage, new, options, entries, reply) == (CoverStepView::Resolved {
            image: MISSING_COVER@,
            remember: false,
        }),
{
}

/// How far a stage is along the chain of sources.
pub open spec fn stage_rank(stage: CoverStage) -> nat {
    match stage {
        CoverStage::Start => 0,
        CoverStage::Primary => 1,
        CoverStage::FallbackSearch => 2,
        CoverStage::FallbackImage => 3,
    }
}

/// Every request takes a lookup strictly further along the chain, whatever
/// the replies are: a lookup ends after three requests at most.
pub proof fn lemma_lookup_moves_forward(
    stage: CoverStage,
    new: MediaInfoView,
    options: CoverOptions,
    entries: Map<Seq<char>, Seq<char>>,
    reply: Option<Seq<u8>>,
)
    ensures
        cover_step(stage, new, options, entries, reply) matches CoverStepView::Fetch {
            awaiting,
            ..
        } ==> stage_rank(stage) < stage_rank(awaiting),
{
}

/// A request that failed finds nothing: after it the lookup goes on to the
/// next source, or ends in the last resort, and nothing is to be remembered.
pub proof fn lemma_failed_request_finds_nothing(
    stage: CoverStage,
    new: MediaInfoView,
    options: CoverOptions,
    entries: Map<Seq<char>, Seq<char>>,
)
    requires
        stage != CoverStage::Start,
        new.album != UNKNOWN_ALBUM@,
    ensures
        cover_step(stage, new, options, entries, None) is Resolved ==> cover_step(
            stage,
            new,
            options,
            entries,
            None,
        ) == embedded_or_missing(new, options),
        embedded_or_missing(new, options) matches CoverStepView::Resolved { image, remember }
            && !remember && (image == MISSING_COVER@ || image == new.art_url),
{
    lemma_empty_is_no_link(5);
}

} // verus!
