use crate::handlers::tasks::TaskListResponse;
use dashmap::DashMap;
use vstd::prelude::*;

verus! {

#[verifier::external_type_specification]
#[verifier::external_body]
#[verifier::reject_recursive_types(K)]
#[verifier::reject_recursive_types(V)]
#[verifier::reject_recursive_types(S)]
pub struct ExDashMap<K, V, S>(DashMap<K, V, S>);

/// The cache of task listings: user identifier text to the listing last
/// computed for that user.
pub type TaskCache = DashMap<String, TaskListResponse>;

/// What a cache of task listings holds: each user identifier text with its
/// listing.
pub uninterp spec fn cached_listings(cache: TaskCache) -> Map<Seq<char>, TaskListResponse>;

/// The listing that a cache holding `entries` has for `user_id`.
pub open spec fn lookup(entries: Map<Seq<char>, TaskListResponse>, user_id: Seq<char>) -> Option<
    TaskListResponse,
> {
    if entries.dom().contains(user_id) {
        Some(entries[user_id])
    } else {
        None
    }
}

/// A cache content with no entries.
pub open spec fn empty_listings() -> Map<Seq<char>, TaskListResponse> {
    Map::empty()
}

/// `DashMap::new`: a map that holds nothing.
#[verifier::external_body]
fn dashmap_new() -> (cache: TaskCache)
    ensures
        cached_listings(cache) == empty_listings(),
{
    DashMap::new()
}

/// `DashMap::get`, the entry's value cloned out: the listing held under
/// the key, if any. The value is plain data whose derived `Clone` copies
/// every field.
#[verifier::external_body]
fn dashmap_get(cache: &TaskCache, user_id: &str) -> (r: Option<TaskListResponse>)
    ensures
        r == lookup(cached_listings(*cache), user_id@),
{
    cache.get(user_id).map(|entry| entry.value().clone())
}

/// `DashMap::insert`: afterwards the key holds the value and every other
/// key what it held.
#[verifier::external_body]
fn dashmap_insert(cache: &mut TaskCache, user_id: String, response: TaskListResponse)
    ensures
        cached_listings(*final(cache)) == cached_listings(*old(cache)).insert(user_id@, response),
{
    cache.insert(user_id, response);
}

/// `DashMap::remove`: afterwards the key holds nothing and every other key
/// what it held.
#[verifier::external_body]
fn dashmap_remove(cache: &mut TaskCache, user_id: &str)
    ensures
        cached_listings(*final(cache)) == cached_listings(*old(cache)).remove(user_id@),
{
    cache.remove(user_id);
}

/// `DashMap::clear`: afterwards the map holds nothing.
#[verifier::external_body]
fn dashmap_clear(cache: &mut TaskCache)
    ensures
        cached_listings(*final(cache)) == empty_listings(),
{
    cache.clear();
}

/// An empty cache of task listings.
pub fn new_task_cache() -> (cache: TaskCache)
    ensures
        cached_listings(cache) == empty_listings(),
{
    dashmap_new()
}

/// Reads the cached listing of a user.
pub fn get_user_tasks(cache: &TaskCache, user_id: &str) -> (r: Option<TaskListResponse>)
    ensures
        r == lookup(cached_listings(*cache), user_id@),
{
    dashmap_get(cache, user_id)
}

/// Stores the listing of a user, replacing what was cached for them.
pub fn set_user_tasks(cache: &mut TaskCache, user_id: String, response: TaskListResponse)
    ensures
        cached_listings(*final(cache)) == cached_listings(*old(cache)).insert(user_id@, response),
{
    dashmap_insert(cache, user_id, response)
}

/// Forgets the cached listing of a user.
pub fn invalidate_user_tasks(cache: &mut TaskCache, user_id: &str)
    ensures
        cached_listings(*final(cache)) == cached_listings(*old(cache)).remove(user_id@),
{
    dashmap_remove(cache, user_id)
}

/// Forgets every cached listing.
pub fn clear_all(cache: &mut TaskCache)
    ensures
        cached_listings(*final(cache)) == empty_listings(),
{
    dashmap_clear(cache)
}

/// A listing that is stored is read back unchanged.
pub proof fn lemma_read_after_store(
    entries: Map<Seq<char>, TaskListResponse>,
    user_id: Seq<char>,
    response: TaskListResponse,
)
    ensures
        lookup(entries.insert(user_id, response), user_id) == Some(response),
{
}

/// Storing the listing of one user leaves what the others read unchanged.
pub proof fn lemma_store_keeps_others(
    entries: Map<Seq<char>, TaskListResponse>,
    user_id: Seq<char>,
    response: TaskListResponse,
    other: Seq<char>,
)
    requires
        other != user_id,
    ensures
        lookup(entries.insert(user_id, response), other) == lookup(entries, other),
{
}

/// After a user's listing is forgotten, reading it gives nothing, and the
/// others read what they did before.
pub proof fn lemma_read_after_invalidate(
    entries: Map<Seq<char>, TaskListResponse>,
    user_id: Seq<char>,
    other: Seq<char>,
)
    ensures
        lookup(entries.remove(user_id), user_id) is None,
        other != user_id ==> lookup(entries.remove(user_id), other) == lookup(entries, other),
{
}

/// After the cache is cleared, every read gives nothing.
pub proof fn lemma_read_after_clear(user_id: Seq<char>)
    ensures
        lookup(Map::<Seq<char>, TaskListResponse>::empty(), user_id) is None,
{
}

} // verus!
