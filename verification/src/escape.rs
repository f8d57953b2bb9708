//! Percent-encoding of text for use inside a link, through `url_escape`.

use vstd::prelude::*;

verus! {

/// The percent-encoded form of `text` as a link component.
pub uninterp spec fn component_encoded(text: Seq<char>) -> Seq<char>;

/// `url_escape::encode_component`: the encoded text depends on the text alone.
#[verifier::external_body]
pub(crate) fn encode_component(text: &str) -> (r: String)
    ensures
        r@ == component_encoded(text@),
{
    url_escape::encode_component(text).into_owned()
}

} // verus!
