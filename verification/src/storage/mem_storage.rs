//! A store held in memory, in a concurrent hash map.

use dashmap::DashMap;
use vstd::prelude::*;

use super::{Storage, StorageError};

verus! {

/// The outside map type `dashmap::DashMap`, whose contents Verus does not see.
#[verifier::external_type_specification]
#[verifier::external_body]
#[verifier::reject_recursive_types(K)]
#[verifier::reject_recursive_types(V)]
#[verifier::reject_recursive_types(S)]
pub struct ExDashMap<K, V, S>(DashMap<K, V, S>);

/// The entries that a `DashMap` holds, keys and values taken by their views.
pub uninterp spec fn dashmap_entries(m: DashMap<String, Vec<u8>>) -> Map<Seq<char>, Seq<u8>>;

/// `DashMap::new`: a map that holds no entry.
#[verifier::external_body]
fn dashmap_new() -> (r: DashMap<String, Vec<u8>>)
    ensures
        dashmap_entries(r).dom().is_empty(),
{
    DashMap::new()
}

/// `DashMap::get`, with the value copied out of the guard it returns: the value
/// stored under `key`, and `None` exactly when no entry has that key.
#[verifier::external_body]
fn dashmap_get(m: &DashMap<String, Vec<u8>>, key: &str) -> (r: Option<Vec<u8>>)
    ensures
        r is Some <==> dashmap_entries(*m).contains_key(key@),
        r matches Some(v) ==> v@ == dashmap_entries(*m)[key@],
{
    m.get(key).map(|v| v.value().clone())
}

/// `DashMap::insert`: afterwards `key` maps to `value` and every other entry is
/// as before; returns the value that `key` had, if any.
#[verifier::external_body]
fn dashmap_insert(m: &mut DashMap<String, Vec<u8>>, key: String, value: Vec<u8>) -> (r: Option<
    Vec<u8>,
>)
    ensures
        dashmap_entries(*final(m)) == dashmap_entries(*old(m)).insert(key@, value@),
        r is Some <==> dashmap_entries(*old(m)).contains_key(key@),
        r matches Some(v) ==> v@ == dashmap_entries(*old(m))[key@],
{
    m.insert(key, value)
}

/// `DashMap::clone`: a separate map with the same entries.
#[verifier::external_body]
fn dashmap_clone(m: &DashMap<String, Vec<u8>>) -> (r: DashMap<String, Vec<u8>>)
    ensures
        dashmap_entries(r) == dashmap_entries(*m),
{
    m.clone()
}

/// A store held in memory. It never fails.
#[derive(Debug)]
pub struct MemStorage {
    map: DashMap<String, Vec<u8>>,
}

impl MemStorage {
    /// An empty store.
    pub fn new() -> (s: Self)
        ensures
            s.contents() == Map::<Seq<char>, Seq<u8>>::empty(),
            s.tracks_contents(),
            s.reliable(),
    {
        let s = MemStorage { map: dashmap_new() };
        assert(s.contents() =~= Map::<Seq<char>, Seq<u8>>::empty());
        s
    }
}

impl Clone for MemStorage {
    /// A separate store with the same contents.
    fn clone(&self) -> (s: Self)
        ensures
            s.contents() == self.contents(),
    {
        MemStorage { map: dashmap_clone(&self.map) }
    }
}

impl Default for MemStorage {
    fn default() -> (s: Self)
        ensures
            s.contents() == Map::<Seq<char>, Seq<u8>>::empty(),
            s.tracks_contents(),
            s.reliable(),
    {
        MemStorage::new()
    }
}

impl Storage for MemStorage {
    open spec fn tracks_contents(&self) -> bool {
        true
    }

    closed spec fn contents(&self) -> Map<Seq<char>, Seq<u8>> {
        dashmap_entries(self.map)
    }

    open spec fn reliable(&self) -> bool {
        true
    }

    fn get(&self, key: &str) -> (r: Result<Option<Vec<u8>>, StorageError>)
        ensures
            r matches Ok(found) && (found is Some <==> self.contents().contains_key(key@)),
    {
        Ok(dashmap_get(&self.map, key))
    }

    fn set(&mut self, key: &str, value: Vec<u8>) -> (r: Result<Option<Vec<u8>>, StorageError>)
        ensures
            r matches Ok(Some(v)) && v@ == value@,
    {
        let stored = value.clone();
        dashmap_insert(&mut self.map, key.to_owned(), stored);
        Ok(Some(value))
    }
}

} // verus!
