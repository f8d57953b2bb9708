//! The cover cache: a `pickledb` store from album identities to image links.

use vstd::prelude::*;

verus! {

/// `pickledb::PickleDb`, the key-value store; nothing is known of its inside.
#[verifier::external_type_specification]
#[verifier::external_body]
pub struct ExPickleDb(pickledb::PickleDb);

/// What the store holds as text: each key that has a string value, with that
/// string.
pub uninterp spec fn cache_entries(cache: pickledb::PickleDb) -> Map<Seq<char>, Seq<char>>;

/// `PickleDb::get`, asked for a `String`: the string stored under `key`, or
/// nothing where the key is absent or its value is no string. It reads the
/// store in memory only.
#[verifier::external_body]
pub(crate) fn cache_get(cache: &pickledb::PickleDb, key: &str) -> (r: Option<String>)
    ensures
        r.deep_view() == (if cache_entries(*cache).contains_key(key@) {
            Some(cache_entries(*cache)[key@])
        } else {
            None
        }),
{
    cache.get::<String>(key)
}

} // verus!
