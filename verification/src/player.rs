//! How a player is named towards the chat client, and which of the two
//! presence channels it is shown on.

use crate::prefs::{SmallImage, UserPreferences, UserPreferencesView};
use crate::text::{char_is_alphanumeric, char_is_whitespace, lowercase_of, text_eq};
use vstd::prelude::*;
use vstd::string::*;

verus! {

/// The words of `text`: its longest runs of characters that are not white
/// space, in order.
pub open spec fn words_of(text: Seq<char>) -> Seq<Seq<char>>
    decreases text.len(),
{
    if text.len() == 0 {
        Seq::empty()
    } else {
        let before = text.drop_last();
        let c = text.last();
        if char_is_whitespace(c) {
            words_of(before)
        } else if before.len() > 0 && !char_is_whitespace(before.last()) {
            let words = words_of(before);
            words.drop_last().push(words.last().push(c))
        } else {
            words_of(before).push(seq![c])
        }
    }
}

/// The words written one after the other with `separator` between neighbours.
pub open spec fn joined(words: Seq<Seq<char>>, separator: char) -> Seq<char>
    decreases words.len(),
{
    if words.len() == 0 {
        Seq::empty()
    } else if words.len() == 1 {
        words[0]
    } else {
        joined(words.drop_last(), separator).push(separator) + words.last()
    }
}

/// The characters that a sanitized name may hold.
pub open spec fn kept_in_name(c: char) -> bool {
    char_is_alphanumeric(c) || c == '_'
}

/// The sanitized form of a name: lowercase, its words joined by underscores,
/// and without any character that is neither alphanumeric nor an underscore.
pub open spec fn sanitized(name: Seq<char>) -> Seq<char> {
    joined(words_of(lowercase_of(name)), '_').filter(|c: char| kept_in_name(c))
}

proof fn lemma_words_nonempty_inside_word(text: Seq<char>)
    requires
        text.len() > 0,
        !char_is_whitespace(text.last()),
    ensures
        words_of(text).len() > 0,
    decreases text.len(),
{
    let before = text.drop_last();
    if before.len() > 0 && !char_is_whitespace(before.last()) {
        lemma_words_nonempty_inside_word(before);
    }
}

proof fn lemma_joined_extend_last(words: Seq<Seq<char>>, c: char, separator: char)
    requires
        words.len() > 0,
    ensures
        joined(words.drop_last().push(words.last().push(c)), separator) == joined(
            words,
            separator,
        ).push(c),
{
    let grown = words.drop_last().push(words.last().push(c));
    if words.len() == 1 {
        assert(grown[0] == words[0].push(c));
    } else {
        assert(grown.drop_last() == words.drop_last());
        assert(grown.last() == words.last().push(c));
        assert(joined(words.drop_last(), separator).push(separator) + words.last().push(c)
            == (joined(words.drop_last(), separator).push(separator) + words.last()).push(c));
    }
}

proof fn lemma_joined_new_word(words: Seq<Seq<char>>, c: char, separator: char)
    ensures
        joined(words.push(seq![c]), separator) == if words.len() == 0 {
            seq![c]
        } else {
            joined(words, separator).push(separator).push(c)
        },
{
    let grown = words.push(seq![c]);
    if words.len() > 0 {
        assert(grown.drop_last() == words);
        assert(grown.last() == seq![c]);
        assert(joined(words, separator).push(separator) + seq![c] == joined(
            words,
            separator,
        ).push(separator).push(c));
    }
}

/// Splits `text` at white space and joins the words with underscores.
fn join_words(text: &str) -> (r: String)
    ensures
        r@ == joined(words_of(text@), '_'),
{
    let mut out = String::new();
    let mut in_word = false;
    let mut any_word = false;
    let chars = text.chars();
    for c in it: chars
        invariant
            it.seq() == text@,
            out@ == joined(words_of(text@.take(it.index())), '_'),
            in_word == (it.index() > 0 && !char_is_whitespace(text@[it.index() - 1])),
            any_word == (words_of(text@.take(it.index())).len() > 0),
    {
        proof {
            let before = text@.take(it.index());
            let now = text@.take(it.index() + 1);
            assert(now.drop_last() == before);
            assert(now.last() == c);
            if it.index() > 0 {
                assert(before.last() == text@[it.index() - 1]);
            }
            if !char_is_whitespace(c) {
                if in_word {
                    lemma_words_nonempty_inside_word(before);
                    lemma_joined_extend_last(words_of(before), c, '_');
                } else {
                    lemma_joined_new_word(words_of(before), c, '_');
                }
            }
        }
        if c.is_whitespace() {
            in_word = false;
        } else {
            if !in_word && any_word {
                out.push('_');
            }
            out.push(c);
            in_word = true;
            any_word = true;
        }
    }
    assert(text@.take(text@.len() as int) == text@);
    out
}

/// Drops every character that is neither alphanumeric nor an underscore.
fn keep_name_chars(text: &str) -> (r: String)
    ensures
        r@ == text@.filter(|c: char| kept_in_name(c)),
{
    let mut out = String::new();
    let chars = text.chars();
    for c in it: chars
        invariant
            it.seq() == text@,
            out@ == text@.take(it.index()).filter(|c: char| kept_in_name(c)),
    {
        proof {
            reveal(Seq::filter);
            let now = text@.take(it.index() + 1);
            assert(now.drop_last() == text@.take(it.index()));
            assert(now.last() == c);
        }
        if c.is_alphanumeric() || c == '_' {
            out.push(c);
        }
    }
    assert(text@.take(text@.len() as int) == text@);
    out
}

/// Turns a player's name into the identifier of its icon: lowercase, words
/// joined by `_`, and nothing but alphanumeric characters and `_`.
pub fn sanitize_name(input: &str) -> (r: String)
    ensures
        r@ == sanitized(input@),
{
    let lower = input.to_lowercase();
    let joined = join_words(lower.as_str());
    keep_name_chars(joined.as_str())
}

/// The name under which a player is shown: the forced name if one is set,
/// else the player's own.
pub open spec fn shown_name(identity: Seq<char>, prefs: UserPreferencesView) -> Seq<char> {
    if prefs.force_player_name.len() == 0 {
        identity
    } else {
        prefs.force_player_name
    }
}

/// The identifier of a player's icon: the forced identifier if one is set,
/// else the sanitized form of the name under which the player is shown.
pub open spec fn shown_id(identity: Seq<char>, prefs: UserPreferencesView) -> Seq<char> {
    if prefs.force_player_id.len() == 0 {
        sanitized(shown_name(identity, prefs))
    } else {
        prefs.force_player_id
    }
}

/// Whether the user's avatar has to be fetched: it is the small image of
/// choice, and there is a nickname to fetch it for.
pub open spec fn avatar_wanted(prefs: UserPreferencesView) -> bool {
    prefs.small_image == SmallImage::LastfmAvatar && prefs.lastfm_name.len() > 0
}

/// Whether `name` is in `list`.
pub fn listed(name: &str, list: &Vec<String>) -> (r: bool)
    ensures
        r == list.deep_view().contains(name@),
{
    let mut i: usize = 0;
    while i < list.len()
        invariant
            i <= list.len(),
            forall|j: int| 0 <= j < i ==> list.deep_view()[j] != name@,
        decreases list.len() - i,
    {
        if text_eq(list[i].as_str(), name) {
            assert(list.deep_view()[i as int] == name@);
            return true;
        }
        i += 1;
    }
    false
}

/// The name under which a player is shown.
pub fn player_name(identity: &str, prefs: &UserPreferences) -> (r: String)
    ensures
        r@ == shown_name(identity@, prefs@),
{
    if prefs.force_player_name.as_str().unicode_len() == 0 {
        identity.to_owned()
    } else {
        prefs.force_player_name.clone()
    }
}

/// The identifier of the icon under which a player is shown.
pub fn player_id(identity: &str, prefs: &UserPreferences) -> (r: String)
    ensures
        r@ == shown_id(identity@, prefs@),
{
    if prefs.force_player_id.as_str().unicode_len() == 0 {
        let name = player_name(identity, prefs);
        sanitize_name(name.as_str())
    } else {
        prefs.force_player_id.clone()
    }
}

/// Whether the user's avatar has to be fetched at startup.
pub fn wants_avatar(prefs: &UserPreferences) -> (r: bool)
    ensures
        r == avatar_wanted(prefs@),
{
    prefs.small_image == SmallImage::LastfmAvatar && prefs.lastfm_name.as_str().unicode_len() > 0
}

} // verus!
