//! In-memory per-user task cache backed by a `DashMap`.
//!
//! The cache does not persist across restarts and is not shared between
//! instances. The hit, miss and invalidation rules do not depend on the store.
use dashmap::DashMap;
use vstd::prelude::*;

use crate::models::{CachedTasks, CachedTasksView};

verus! {

#[verifier::external_type_specification]
#[verifier::external_body]
#[verifier::reject_recursive_types(K)]
#[verifier::reject_recursive_types(V)]
#[verifier::reject_recursive_types(S)]
pub struct ExDashMap<K, V, S>(DashMap<K, V, S>);

/// The contents of an empty cache.
pub open spec fn no_entries() -> Map<Seq<char>, CachedTasksView> {
    Map::empty()
}

/// What a task map holds: for each user identifier, the content of its entry.
pub uninterp spec fn dashmap_entries(m: DashMap<String, CachedTasks>) -> Map<Seq<char>, CachedTasksView>;

/// Calls `DashMap::new`. Trusted: the new map holds no entry.
#[verifier::external_body]
fn dashmap_new() -> (m: DashMap<String, CachedTasks>)
    ensures
        dashmap_entries(m) == no_entries(),
{
    DashMap::new()
}

/// Calls `DashMap::get` and copies the entry it finds. Trusted: an entry comes back
/// exactly where the map holds one for `key`, with the content held there.
#[verifier::external_body]
fn dashmap_get(m: &DashMap<String, CachedTasks>, key: &str) -> (found: Option<CachedTasks>)
    ensures
        match found {
            Some(c) => dashmap_entries(*m).contains_key(key@) && c@ == dashmap_entries(*m)[key@],
            None => !dashmap_entries(*m).contains_key(key@),
        },
{
    m.get(key).map(|entry| entry.value().duplicate())
}

/// Calls `DashMap::insert`. Trusted: afterwards the map holds `value` for `key` and is
/// otherwise unchanged (an entry for an equal key is replaced).
#[verifier::external_body]
fn dashmap_insert(m: &mut DashMap<String, CachedTasks>, key: String, value: CachedTasks)
    ensures
        dashmap_entries(*final(m)) == dashmap_entries(*old(m)).insert(key@, value@),
{
    m.insert(key, value);
}

/// Calls `DashMap::remove`. Trusted: afterwards the map holds no entry for `key` and
/// is otherwise unchanged.
#[verifier::external_body]
fn dashmap_remove(m: &mut DashMap<String, CachedTasks>, key: &str)
    ensures
        dashmap_entries(*final(m)) == dashmap_entries(*old(m)).remove(key@),
{
    m.remove(key);
}

/// Per-user cache of the task lists shown by "view my tasks".
pub struct TaskCache {
    inner: DashMap<String, CachedTasks>,
}

impl View for TaskCache {
    type V = Map<Seq<char>, CachedTasksView>;

    closed spec fn view(&self) -> Map<Seq<char>, CachedTasksView> {
        dashmap_entries(self.inner)
    }
}

impl TaskCache {
    /// An empty cache.
    pub fn new() -> (c: Self)
        ensures
            c@ == no_entries(),
    {
        TaskCache { inner: dashmap_new() }
    }

    /// Returns the cached value for `user_id`, if present.
    pub fn get(&self, user_id: &str) -> (found: Option<CachedTasks>)
        ensures
            match found {
                Some(c) => self@.contains_key(user_id@) && c@ == self@[user_id@],
                None => !self@.contains_key(user_id@),
            },
    {
        dashmap_get(&self.inner, user_id)
    }

    /// Stores a value for `user_id`, replacing any earlier one.
    pub fn set(&mut self, user_id: &str, data: CachedTasks)
        ensures
            final(self)@ == old(self)@.insert(user_id@, data@),
    {
        dashmap_insert(&mut self.inner, user_id.to_owned(), data);
    }

    /// Removes the cached value for `user_id` (called after task assignment).
    pub fn invalidate(&mut self, user_id: &str)
        ensures
            final(self)@ == old(self)@.remove(user_id@),
    {
        dashmap_remove(&mut self.inner, user_id);
    }
}

impl Default for TaskCache {
    fn default() -> (c: Self)
        ensures
            c@ == no_entries(),
    {
        Self::new()
    }
}

/// Cache laws: a read after a write for the same user finds what was written; a
/// read after an invalidation misses; writes and invalidations for one user leave
/// every other user's entry as it was; a new cache misses for everyone.
pub proof fn law_cache_read_write(
    before: Map<Seq<char>, CachedTasksView>,
    user: Seq<char>,
    other: Seq<char>,
    data: CachedTasksView,
)
    ensures
        before.insert(user, data).contains_key(user),
        before.insert(user, data)[user] == data,
        !before.remove(user).contains_key(user),
        other != user ==> (before.insert(user, data).contains_key(other) == before.contains_key(other)),
        other != user ==> (before.contains_key(other) ==> before.insert(user, data)[other] == before[other]),
        other != user ==> (before.remove(user).contains_key(other) == before.contains_key(other)),
        other != user ==> (before.contains_key(other) ==> before.remove(user)[other] == before[other]),
        !no_entries().contains_key(user),
{
}

} // verus!
