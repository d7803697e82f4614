use vstd::prelude::*;
use crate::model::{Document, User};
use dashmap::DashMap;
use std::collections::hash_map::RandomState;

verus! {

// The shared state store keeps its two collections in `dashmap::DashMap`, a
// concurrent hash map. Verus sees the type as opaque; what each map holds is
// named by a spec function, and each method the store calls is a small
// trusted wrapper whose contract says, over that name, what the crate's
// source shows the call does.

/// The concurrent map of users, under its default hasher.
pub type UserMap = DashMap<String, User, RandomState>;

/// The concurrent map of documents, under its default hasher.
pub type DocMap = DashMap<String, Document, RandomState>;

#[verifier::external_type_specification]
#[verifier::external_body]
#[verifier::reject_recursive_types(K)]
#[verifier::reject_recursive_types(V)]
#[verifier::reject_recursive_types(S)]
pub struct ExDashMap<K, V, S>(DashMap<K, V, S>);

/// The user records a concurrent map holds, keyed by the identifier text.
pub uninterp spec fn user_map_view(m: UserMap) -> Map<Seq<char>, User>;

/// The documents a concurrent map holds, keyed by the document key text.
pub uninterp spec fn doc_map_view(m: DocMap) -> Map<Seq<char>, Document>;

/// Relies on dashmap::DashMap::new: a freshly created map holds nothing.
#[verifier::external_body]
pub(crate) fn user_map_new() -> (m: UserMap)
    ensures
        (user_map_view(m) == Map::<Seq<char>, User>::empty()),
{
    DashMap::new()
}

/// Relies on dashmap::DashMap::insert: maps the key to the value, replacing
/// any entry the key had before.
#[verifier::external_body]
pub(crate) fn user_map_insert(m: &mut UserMap, key: String, value: User)
    ensures
        user_map_view(*final(m)) == user_map_view(*old(m)).insert(key@, value),
{
    m.insert(key, value);
}

/// Relies on dashmap::DashMap::remove: drops the key's entry if there is
/// one, and does nothing otherwise.
#[verifier::external_body]
pub(crate) fn user_map_remove(m: &mut UserMap, key: &str)
    ensures
        user_map_view(*final(m)) == user_map_view(*old(m)).remove(key@),
{
    m.remove(key);
}

/// Relies on dashmap::DashMap::get: hands back a copy of the value under the
/// key, if the key is present.
#[verifier::external_body]
pub(crate) fn user_map_get(m: &UserMap, key: &str) -> (r: Option<User>)
    ensures
        r == (if user_map_view(*m).dom().contains(key@) {
            Some(user_map_view(*m)[key@])
        } else {
            None::<User>
        }),
{
    m.get(key).map(|entry| entry.value().clone())
}

/// Relies on dashmap::DashMap::len: the number of entries, which is always
/// finite.
#[verifier::external_body]
pub(crate) fn user_map_len(m: &UserMap) -> (n: usize)
    ensures
        n == user_map_view(*m).dom().len(),
{
    m.len()
}

/// Relies on dashmap::DashMap::new: a freshly created map holds nothing.
#[verifier::external_body]
pub(crate) fn doc_map_new() -> (m: DocMap)
    ensures
        (doc_map_view(m) == Map::<Seq<char>, Document>::empty()),
{
    DashMap::new()
}

/// Relies on dashmap::DashMap::insert: maps the key to the value, replacing
/// any entry the key had before.
#[verifier::external_body]
pub(crate) fn doc_map_insert(m: &mut DocMap, key: String, value: Document)
    ensures
        doc_map_view(*final(m)) == doc_map_view(*old(m)).insert(key@, value),
{
    m.insert(key, value);
}

/// Relies on dashmap::DashMap::get: hands back a copy of the value under the
/// key, if the key is present.
#[verifier::external_body]
pub(crate) fn doc_map_get(m: &DocMap, key: &str) -> (r: Option<Document>)
    ensures
        r == (if doc_map_view(*m).dom().contains(key@) {
            Some(doc_map_view(*m)[key@])
        } else {
            None::<Document>
        }),
{
    m.get(key).map(|entry| entry.value().clone())
}

} // verus!
