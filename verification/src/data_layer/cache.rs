//! The response cache: serialized responses by the query they answer.

use vstd::prelude::*;
use dashmap::DashMap;
use std::sync::Arc;

verus! {

/// Which response an entry of the cache holds.
#[derive(Debug, Clone, PartialEq, Eq, Hash)]
pub enum CacheKey {
    ProjectList,
    ProjectMetrics(String),
    AllProjectsAggregate,
}

/// A key as mathematical data.
pub enum CacheKeyView {
    ProjectList,
    ProjectMetrics(Seq<char>),
    AllProjectsAggregate,
}

impl View for CacheKey {
    type V = CacheKeyView;

    open spec fn view(&self) -> CacheKeyView {
        match *self {
            CacheKey::ProjectList => CacheKeyView::ProjectList,
            CacheKey::ProjectMetrics(name) => CacheKeyView::ProjectMetrics(name@),
            CacheKey::AllProjectsAggregate => CacheKeyView::AllProjectsAggregate,
        }
    }
}

/// The concurrent map of the `dashmap` crate. Nothing inside it is visible
/// to the verifier.
#[verifier::external_type_specification]
#[verifier::external_body]
#[verifier::reject_recursive_types(K)]
#[verifier::reject_recursive_types(V)]
#[verifier::reject_recursive_types(S)]
pub struct ExDashMap<K, V, S>(DashMap<K, V, S>);

/// What a map holds: the bytes stored under each key.
pub uninterp spec fn cache_entries(map: DashMap<CacheKey, Arc<Vec<u8>>>) -> Map<
    CacheKeyView,
    Seq<u8>,
>;

/// The contents of a map that holds nothing.
pub open spec fn no_entries() -> Map<CacheKeyView, Seq<u8>> {
    Map::empty()
}

/// `DashMap::new`: a map that holds nothing.
#[verifier::external_body]
fn map_new() -> (map: DashMap<CacheKey, Arc<Vec<u8>>>)
    ensures
        cache_entries(map) == no_entries(),
{
    DashMap::new()
}

/// `DashMap::get`: a handle to the value stored under a key equal to `key`,
/// if there is one. Keys are equal where their views are, which rests on the
/// derived `Eq` and `Hash` of `CacheKey`. The handle shares the stored
/// buffer; the guard that `get` returns is released before this returns.
#[verifier::external_body]
fn map_get(map: &DashMap<CacheKey, Arc<Vec<u8>>>, key: &CacheKey) -> (r: Option<Arc<Vec<u8>>>)
    ensures
        r is Some == cache_entries(*map).dom().contains(key@),
        r is Some ==> r->0@ == cache_entries(*map)[key@],
{
    map.get(key).map(|entry| entry.value().clone())
}

/// `DashMap::insert`: the value is stored under the key and replaces what
/// was stored under an equal key; every other entry stays.
#[verifier::external_body]
fn map_insert(map: &mut DashMap<CacheKey, Arc<Vec<u8>>>, key: CacheKey, value: Arc<Vec<u8>>)
    ensures
        cache_entries(*final(map)) == cache_entries(*old(map)).insert(key@, value@),
{
    map.insert(key, value);
}

/// `DashMap::remove`: the entry under a key equal to `key` is gone, if there
/// was one; every other entry stays.
#[verifier::external_body]
fn map_remove(map: &mut DashMap<CacheKey, Arc<Vec<u8>>>, key: &CacheKey)
    ensures
        cache_entries(*final(map)) == cache_entries(*old(map)).remove(key@),
{
    map.remove(key);
}

/// `DashMap::clear`: the map holds nothing afterwards.
#[verifier::external_body]
fn map_clear(map: &mut DashMap<CacheKey, Arc<Vec<u8>>>)
    ensures
        cache_entries(*final(map)) == no_entries(),
{
    map.clear();
}

/// `DashMap::len`: the number of entries.
#[verifier::external_body]
fn map_len(map: &DashMap<CacheKey, Arc<Vec<u8>>>) -> (n: usize)
    ensures
        n == cache_entries(*map).dom().len(),
{
    map.len()
}

/// Cache of serialized responses. A response is handed out as a shared
/// handle to the stored buffer, which is never changed once it is stored.
pub struct ResponseCache {
    cache: DashMap<CacheKey, Arc<Vec<u8>>>,
}

impl ResponseCache {
    /// The responses that the cache holds, by their keys.
    pub closed spec fn entries(&self) -> Map<CacheKeyView, Seq<u8>> {
        cache_entries(self.cache)
    }

    /// An empty cache.
    pub fn new() -> (c: ResponseCache)
        ensures
            c.entries() == no_entries(),
    {
        ResponseCache { cache: map_new() }
    }

    /// The response stored under `key`, if there is one.
    pub fn get(&self, key: &CacheKey) -> (r: Option<Arc<Vec<u8>>>)
        ensures
            r is Some == self.entries().dom().contains(key@),
            r is Some ==> r->0@ == self.entries()[key@],
    {
        map_get(&self.cache, key)
    }

    /// Stores a response under `key`, in place of the one that was there.
    pub fn insert(&mut self, key: CacheKey, bytes: Vec<u8>)
        ensures
            final(self).entries() == old(self).entries().insert(key@, bytes@),
    {
        map_insert(&mut self.cache, key, Arc::new(bytes));
    }

    /// Forgets the response under `key`.
    pub fn invalidate(&mut self, key: &CacheKey)
        ensures
            final(self).entries() == old(self).entries().remove(key@),
    {
        map_remove(&mut self.cache, key);
    }

    /// Forgets every response.
    pub fn clear(&mut self)
        ensures
            final(self).entries() == no_entries(),
    {
        map_clear(&mut self.cache);
    }

    /// The number of responses in the cache.
    pub fn len(&self) -> (n: usize)
        ensures
            n == self.entries().dom().len(),
    {
        map_len(&self.cache)
    }
}

impl Default for ResponseCache {
    fn default() -> (c: ResponseCache)
        ensures
            c.entries() == no_entries(),
    {
        ResponseCache::new()
    }
}

} // verus!
