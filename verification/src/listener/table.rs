//! The table of hosts served by a listener, keyed by `hostname:port`.
//!
//! The table is a `papaya` concurrent map owned by its listener, which alone
//! writes it. The tasks that serve connections read a [`SharedHosts`]
//! snapshot instead: a copy of the table taken when they are set up, which
//! nobody writes afterwards.
use std::sync::Arc;
use vstd::prelude::*;

verus! {

/// A listener's host table.
pub type HostTable = papaya::HashMap<String, usize>;

#[verifier::external_type_specification]
#[verifier::external_body]
#[verifier::reject_recursive_types(K)]
#[verifier::reject_recursive_types(V)]
#[verifier::reject_recursive_types(S)]
pub struct ExConcurrentHashMap<K, V, S>(papaya::HashMap<K, V, S>);

/// The entries of a host table: each key is mapped to the index of a host.
pub uninterp spec fn host_entries(m: papaya::HashMap<String, usize>) -> Map<Seq<char>, usize>;

/// The table with no entry.
pub open spec fn empty_entries() -> Map<Seq<char>, usize> {
    Map::empty()
}

/// `papaya::HashMap::new`: the new map holds no entry.
#[verifier::external_body]
pub(crate) fn table_new() -> (table: HostTable)
    ensures
        host_entries(table) == empty_entries(),
{
    papaya::HashMap::new()
}

/// `papaya::HashMap::insert` (through `pin`): the key now maps to the value,
/// any earlier value for that key is replaced, other entries are kept.
#[verifier::external_body]
pub(crate) fn table_insert(t: &mut HostTable, key: String, value: usize)
    ensures
        host_entries(*final(t)) == host_entries(*old(t)).insert(key@, value),
    no_unwind
{
    t.pin().insert(key, value);
}

/// `papaya::HashMap::remove` (through `pin`): the key no longer has an entry,
/// other entries are kept.
#[verifier::external_body]
pub(crate) fn table_remove(t: &mut HostTable, key: &str)
    ensures
        host_entries(*final(t)) == host_entries(*old(t)).remove(key@),
    no_unwind
{
    t.pin().remove(key);
}

/// `papaya::HashMap::len`: the number of entries.
#[verifier::external_body]
pub(crate) fn table_len(t: &HostTable) -> (n: usize)
    ensures
        n == host_entries(*t).len(),
{
    t.len()
}

/// `papaya::HashMap::get` (through `pin`): the value the key maps to, if any.
#[verifier::external_body]
pub(crate) fn table_get(t: &HostTable, key: &str) -> (r: Option<usize>)
    ensures
        r == (if host_entries(*t).contains_key(key@) {
            Some(host_entries(*t)[key@])
        } else {
            None::<usize>
        }),
{
    t.pin().get(key).copied()
}

/// `papaya::HashMap::clone`: a new map, with the same entries, that shares
/// nothing with `t`.
#[verifier::external_body]
pub(crate) fn table_copy(t: &HostTable) -> (c: HostTable)
    ensures
        host_entries(c) == host_entries(*t),
{
    t.clone()
}

/// A snapshot of a listener's host table, for the tasks that serve its
/// connections: a copy taken once, which nobody writes afterwards, shared by
/// the tasks that read it.
pub struct SharedHosts {
    table: Arc<HostTable>,
}

impl SharedHosts {
    /// The entries of the snapshot.
    pub closed spec fn entries(&self) -> Map<Seq<char>, usize> {
        host_entries(*self.table)
    }

    /// The index of the host served under `key`, if any.
    pub fn lookup(&self, key: &str) -> (r: Option<usize>)
        ensures
            r is Some <==> self.entries().contains_key(key@),
            r matches Some(i) ==> self.entries()[key@] == i,
    {
        table_get(&self.table, key)
    }

    /// The number of hosts in the snapshot.
    pub fn len(&self) -> (n: usize)
        ensures
            n == self.entries().len(),
    {
        table_len(&self.table)
    }
}

impl Clone for SharedHosts {
    fn clone(&self) -> (r: Self)
        ensures
            r == *self,
    {
        SharedHosts { table: self.table.clone() }
    }
}

/// A snapshot of the table `t`.
pub(crate) fn share(t: &HostTable) -> (r: SharedHosts)
    ensures
        r.entries() == host_entries(*t),
{
    SharedHosts { table: Arc::new(table_copy(t)) }
}

} // verus!
