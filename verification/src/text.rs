//! Text helpers shared by the rest of the library.
//!
//! Contracts speak of a string through its view, a sequence of characters.
//! The few standard-library operations that have no specification of their own
//! are given one at the top of this file; everything below them is proved.

use vstd::prelude::*;
use vstd::string::*;

verus! {

/// Whether the standard library classes `c` as alphanumeric.
pub uninterp spec fn char_is_alphanumeric(c: char) -> bool;

/// Whether the standard library classes `c` as white space.
pub uninterp spec fn char_is_whitespace(c: char) -> bool;

/// The lowercase form that the standard library gives to `text`.
pub uninterp spec fn lowercase_of(text: Seq<char>) -> Seq<char>;

/// `char::is_alphanumeric` answers from the character alone; the answer is
/// named `char_is_alphanumeric`.
pub assume_specification[ char::is_alphanumeric ](c: char) -> (r: bool)
    ensures
        r == char_is_alphanumeric(c),
;

/// `char::is_whitespace` answers from the character alone; the answer is
/// named `char_is_whitespace`.
pub assume_specification[ char::is_whitespace ](c: char) -> (r: bool)
    ensures
        r == char_is_whitespace(c),
;

/// `str::to_lowercase` returns a new string that depends on the text alone;
/// it is named `lowercase_of`.
pub assume_specification[ str::to_lowercase ](s: &str) -> (r: String)
    ensures
        r@ == lowercase_of(s@),
;

/// `String::push` appends the given character to the end of the string.
pub assume_specification[ String::push ](s: &mut String, c: char)
    ensures
        final(s)@ == old(s)@.push(c),
;

/// The number of bytes that `text` takes in UTF-8, which is what `str::len` counts.
pub open spec fn byte_len(text: Seq<char>) -> nat {
    vstd::utf8::encode_utf8(text).len()
}

/// `needle` occurs in `text` starting at position `at`.
pub open spec fn occurs_at(text: Seq<char>, needle: Seq<char>, at: int) -> bool {
    &&& 0 <= at
    &&& at + needle.len() <= text.len()
    &&& text.subrange(at, at + needle.len()) == needle
}

/// `needle` occurs somewhere in `text`.
pub open spec fn occurs_in(text: Seq<char>, needle: Seq<char>) -> bool {
    exists|at: int| occurs_at(text, needle, at)
}

/// The text without its first and its last character; empty when there are
/// fewer than two characters.
pub open spec fn without_ends(text: Seq<char>) -> Seq<char> {
    if text.len() >= 2 {
        text.subrange(1, text.len() - 1)
    } else {
        Seq::empty()
    }
}

/// An absolute web link: the text begins with `http://` or `https://`.
pub open spec fn is_web_link(text: Seq<char>) -> bool {
    "http://"@.is_prefix_of(text) || "https://"@.is_prefix_of(text)
}

/// The number of bytes that `text` takes in UTF-8.
pub fn byte_length(text: &str) -> (r: usize)
    ensures
        r == byte_len(text@),
{
    text.as_bytes().len()
}

/// Whether two strings hold the same characters.
pub fn text_eq(a: &str, b: &str) -> (r: bool)
    ensures
        r == (a@ == b@),
{
    a.to_owned() == b.to_owned()
}

/// Whether `text` begins with `prefix`.
pub fn starts_with(text: &str, prefix: &str) -> (r: bool)
    ensures
        r == prefix@.is_prefix_of(text@),
{
    let n = prefix.unicode_len();
    if n > text.unicode_len() {
        return false;
    }
    let head = text.substring_char(0, n);
    let same = text_eq(head, prefix);
    proof {
        if same {
            assert(text@.subrange(0, n as int) == prefix@);
        }
    }
    same
}

/// Whether `text` is an absolute `http` or `https` link.
pub fn web_link(text: &str) -> (r: bool)
    ensures
        r == is_web_link(text@),
{
    starts_with(text, "http://") || starts_with(text, "https://")
}

/// The characters of `text`, in order.
pub fn chars_of(text: &str) -> (r: Vec<char>)
    ensures
        r@ == text@,
{
    let mut out: Vec<char> = Vec::new();
    let chars = text.chars();
    for c in it: chars
        invariant
            it.seq() == text@,
            out@ == it.seq().take(it.index()),
    {
        out.push(c);
    }
    out
}

fn matches_at(text: &Vec<char>, needle: &Vec<char>, at: usize) -> (r: bool)
    requires
        at + needle.len() <= text.len(),
    ensures
        r == occurs_at(text@, needle@, at as int),
{
    let mut k: usize = 0;
    while k < needle.len()
        invariant
            at + needle.len() <= text.len(),
            k <= needle.len(),
            forall|j: int| 0 <= j < k ==> text@[at + j] == needle@[j],
        decreases needle.len() - k,
    {
        if text[at + k] != needle[k] {
            proof {
                let window = text@.subrange(at as int, at + needle.len());
                assert(window[k as int] == text@[at + k]);
            }
            return false;
        }
        k += 1;
    }
    assert(text@.subrange(at as int, at + needle.len()) =~= needle@);
    true
}

/// Whether `needle` occurs somewhere in `text`.
pub fn contains_text(text: &str, needle: &str) -> (r: bool)
    ensures
        r == occurs_in(text@, needle@),
{
    let hay = chars_of(text);
    let pin = chars_of(needle);
    if pin.len() > hay.len() {
        return false;
    }
    let last: usize = hay.len() - pin.len();
    let mut at: usize = 0;
    loop
        invariant
            hay@ == text@,
            pin@ == needle@,
            last == hay.len() - pin.len(),
            at <= last,
            forall|j: int| 0 <= j < at ==> !occurs_at(text@, needle@, j),
        decreases last - at,
    {
        if matches_at(&hay, &pin, at) {
            return true;
        }
        if at == last {
            return false;
        }
        at += 1;
    }
}

/// The text between the first and the last character of `text`.
pub fn strip_ends(text: &str) -> (r: String)
    ensures
        r@ == without_ends(text@),
{
    let n = text.unicode_len();
    if n >= 2 {
        text.substring_char(1, n - 1).to_owned()
    } else {
        String::new()
    }
}

/// A copy of `a` followed by `b`.
pub fn followed_by(a: &str, b: &str) -> (r: String)
    ensures
        r@ == a@ + b@,
{
    let mut out = a.to_owned();
    out.append(b);
    out
}

} // verus!
