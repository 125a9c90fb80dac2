//! The radix trie that maps a host's path prefixes to its paths.
use crate::text::byte_prefix;
use vstd::prelude::*;
use vstd::utf8::encode_utf8;

verus! {

#[verifier::external_type_specification]
#[verifier::external_body]
#[verifier::reject_recursive_types(K)]
#[verifier::reject_recursive_types(V)]
pub struct ExRadixTrie<K, V>(radix_trie::Trie<K, V>);

/// The entries of a route trie: each path prefix is mapped to the index of a path.
pub uninterp spec fn route_entries(t: radix_trie::Trie<String, usize>) -> Map<Seq<char>, usize>;

/// The trie with no entry.
pub open spec fn no_routes() -> Map<Seq<char>, usize> {
    Map::empty()
}

/// `radix_trie::Trie::new`: the new trie holds no entry.
#[verifier::external_body]
pub(crate) fn routes_new() -> (trie: radix_trie::Trie<String, usize>)
    ensures
        route_entries(trie) == no_routes(),
{
    radix_trie::Trie::new()
}

/// `radix_trie::Trie::insert`: the key now maps to the value, any earlier
/// value for the key is replaced, other entries are kept.
#[verifier::external_body]
pub(crate) fn routes_insert(t: &mut radix_trie::Trie<String, usize>, key: String, value: usize)
    ensures
        route_entries(*final(t)) == route_entries(*old(t)).insert(key@, value),
{
    t.insert(key, value);
}

/// `radix_trie::Trie::get`: the value stored for exactly this key, if any.
#[verifier::external_body]
pub(crate) fn routes_get(t: &radix_trie::Trie<String, usize>, key: &str) -> (r: Option<usize>)
    ensures
        r is Some <==> route_entries(*t).contains_key(key@),
        r matches Some(v) ==> route_entries(*t)[key@] == v,
{
    t.get(key).copied()
}

/// `radix_trie::Trie::get_ancestor_value`: among the stored keys whose UTF-8
/// encoding is a prefix of the encoding of `key`, the value of the one with
/// the longest encoding; `None` when no stored key is such a prefix.
#[verifier::external_body]
pub(crate) fn routes_ancestor(t: &radix_trie::Trie<String, usize>, key: &str) -> (r: Option<usize>)
    ensures
        r is None <==> !(exists|k: Seq<char>| route_entries(*t).contains_key(k) && byte_prefix(k, key@)),
        r matches Some(v) ==> (exists|k: Seq<char>|
            route_entries(*t).contains_key(k) && byte_prefix(k, key@) && route_entries(*t)[k] == v
                && (forall|k2: Seq<char>|
                route_entries(*t).contains_key(k2) && byte_prefix(k2, key@) ==> encode_utf8(k2).len()
                    <= encode_utf8(k).len())),
{
    t.get_ancestor_value(key).copied()
}

} // verus!
