//! Reading the report of the `media-control` command-line tool, the media
//! source on systems without a player bus.
//!
//! The caller runs the tool; this module turns what it printed into the same
//! report that a player on the bus gives.

use crate::json::{
    json_as_bool, json_as_string, json_as_u64, json_bool_of, json_member, json_member_text,
    json_string_of, json_text, json_u64_of, parse_json, parsed_json,
};
use crate::media::{PlaybackStatus, PlayerReport, SourceError, TrackReport};
use crate::text::{contains_text, occurs_in};
use vstd::prelude::*;
use vstd::string::*;

verus! {

/// Stands in for a player that does not tell its identifier.
pub const UNKNOWN_PLAYER: &'static str = "Unknown Player";

/// What is left of `text` after the last `separator`; all of it if there is
/// none.
pub open spec fn last_segment(text: Seq<char>, separator: char) -> Seq<char>
    decreases text.len(),
{
    if text.len() == 0 || text.last() == separator {
        Seq::empty()
    } else {
        last_segment(text.drop_last(), separator).push(text.last())
    }
}

/// The player's short name: the last segment of its bundle identifier, or of
/// the placeholder where it gives none.
pub open spec fn player_of(document: Seq<char>) -> Seq<char> {
    match json_string_of(json_member_text(document, "bundleIdentifier"@)) {
        Some(bundle) => last_segment(bundle, '.'),
        None => last_segment(UNKNOWN_PLAYER@, '.'),
    }
}

/// The number that a field holds, or 0.
pub open spec fn number_or_zero(document: Seq<char>, key: Seq<char>) -> u64 {
    match json_u64_of(json_member_text(document, key)) {
        Some(n) => n,
        None => 0,
    }
}

/// Whether `report` is what the document of the tool says: title, artist and
/// album as far as they are strings, the length and the position as far as
/// they are numbers and else 0, playing only if the document says so, and
/// neither album artists nor links.
pub open spec fn is_report_of(report: PlayerReport, document: Seq<char>) -> bool {
    &&& report.metadata matches Some(track)
    &&& track.title.deep_view() == json_string_of(json_member_text(document, "title"@))
    &&& track.album.deep_view() == json_string_of(json_member_text(document, "album"@))
    &&& track.artists.deep_view() == (match json_string_of(
        json_member_text(document, "artist"@),
    ) {
        Some(artist) => Some(seq![artist]),
        None => None,
    })
    &&& track.album_artists is None
    &&& track.length_seconds == Some(number_or_zero(document, "duration"@))
    &&& track.art_url is None
    &&& track.url is None
    &&& report.status == Some(
        if json_bool_of(json_member_text(document, "playing"@)) == Some(true) {
            PlaybackStatus::Playing
        } else {
            PlaybackStatus::Paused
        },
    )
    &&& report.position_seconds == Some(number_or_zero(document, "elapsedTime"@))
}

/// What is left of `text` after the last `separator`.
pub fn last_segment_of(text: &str, separator: char) -> (r: String)
    ensures
        r@ == last_segment(text@, separator),
{
    let mut out = String::new();
    let chars = text.chars();
    for c in it: chars
        invariant
            it.seq() == text@,
            out@ == last_segment(text@.take(it.index()), separator),
    {
        proof {
            let now = text@.take(it.index() + 1);
            assert(now.drop_last() == text@.take(it.index()));
            assert(now.last() == c);
        }
        if c == separator {
            out = String::new();
        } else {
            out.push(c);
        }
    }
    assert(text@.take(text@.len() as int) == text@);
    out
}

fn number_of(document: &serde_json::Value, key: &str) -> (r: u64)
    ensures
        r == number_or_zero(json_text(*document), key@),
{
    match json_as_u64(json_member(document, key)) {
        Some(n) => n,
        None => 0,
    }
}

/// Turns what the tool printed into a player's report and the player's short
/// name.
///
/// `succeeded` tells whether the tool exited with success. A tool that
/// failed and printed `null` means that no player is active. A tool that
/// failed otherwise, or whose output is no JSON document, means that the
/// query failed.
pub fn media_control_report(succeeded: bool, output: &str) -> (r: Result<
    (PlayerReport, String),
    SourceError,
>)
    ensures
        match r {
            Ok((report, player)) => succeeded && (parsed_json(output.spec_bytes()) matches Some(
                document,
            ) && is_report_of(report, document) && player@ == player_of(document)),
            Err(SourceError::NoActivePlayer) => !succeeded && occurs_in(output@, "null"@),
            Err(SourceError::QueryFailed) => (!succeeded && !occurs_in(output@, "null"@)) || (
            succeeded && parsed_json(output.spec_bytes()) is None),
        },
{
    if !succeeded {
        if contains_text(output, "null") {
            return Err(SourceError::NoActivePlayer);
        }
        return Err(SourceError::QueryFailed);
    }
    let document = match parse_json(output.as_bytes()) {
        Ok(document) => document,
        Err(_) => {
            return Err(SourceError::QueryFailed);
        },
    };
    let artists = match json_as_string(json_member(&document, "artist")) {
        Some(artist) => {
            let mut list: Vec<String> = Vec::new();
            list.push(artist);
            assert(list.deep_view() =~= seq![artist@]);
            Some(list)
        },
        None => None,
    };
    let playing = match json_as_bool(json_member(&document, "playing")) {
        Some(flag) => flag,
        None => false,
    };
    let track = TrackReport {
        title: json_as_string(json_member(&document, "title")),
        album: json_as_string(json_member(&document, "album")),
        artists,
        album_artists: None,
        length_seconds: Some(number_of(&document, "duration")),
        art_url: None,
        url: None,
    };
    let report = PlayerReport {
        metadata: Some(track),
        status: Some(
            if playing {
                PlaybackStatus::Playing
            } else {
                PlaybackStatus::Paused
            },
        ),
        position_seconds: Some(number_of(&document, "elapsedTime")),
    };
    let player = match json_as_string(json_member(&document, "bundleIdentifier")) {
        Some(bundle) => last_segment_of(bundle.as_str(), '.'),
        None => last_segment_of(UNKNOWN_PLAYER, '.'),
    };
    Ok((report, player))
}

} // verus!
