//! Persistence for todos: the interface the domain calls, and the process-local store behind it.
use vstd::prelude::*;

use dashmap::DashMap;

use crate::domain_error::RepositoryError;
use crate::todo::{Todo, TodoId};

verus! {

/// A store of todos keyed by their identifier's value: finitely many entries, each stored under
/// its own todo's id.
pub open spec fn keyed_store(store: Map<u128, Todo>) -> bool {
    &&& store.dom().finite()
    &&& forall|key: u128| #[trigger] store.contains_key(key) ==> store[key].id.0 == key
}

/// A store with no todo.
pub open spec fn empty_store() -> Map<u128, Todo> {
    Map::empty()
}

/// The todo stored under `id`, if any.
pub open spec fn lookup(store: Map<u128, Todo>, id: TodoId) -> Option<Todo> {
    if store.contains_key(id.0) {
        Some(store[id.0])
    } else {
        None
    }
}

/// Whether a purge with `cutoff` keeps `todo`: it is open, or it was completed at or after
/// `cutoff`.
pub open spec fn survives_purge(todo: Todo, cutoff: i128) -> bool {
    match todo.completed_at {
        None => true,
        Some(at) => at >= cutoff,
    }
}

/// `store` without the todos completed before `cutoff`.
pub open spec fn purged(store: Map<u128, Todo>, cutoff: i128) -> Map<u128, Todo> {
    store.restrict(Set::new(|key: u128| survives_purge(store[key], cutoff)))
}

/// Whether `a` comes before `b` when listing oldest first: by creation time, then by id.
pub open spec fn precedes(a: Todo, b: Todo) -> bool {
    a.created_at < b.created_at || (a.created_at == b.created_at && a.id.0 < b.id.0)
}

/// Whether `todos` is in strictly increasing (creation time, id) order.
pub open spec fn oldest_first(todos: Seq<Todo>) -> bool {
    forall|i: int, j: int| 0 <= i < j < todos.len() ==> precedes(#[trigger] todos[i], #[trigger] todos[j])
}

/// Whether `todos` lists exactly the todos of `store`, each once, oldest first.
pub open spec fn lists(todos: Seq<Todo>, store: Map<u128, Todo>) -> bool {
    &&& forall|i: int|
        0 <= i < todos.len() ==> store.contains_key(#[trigger] todos[i].id.0) && store[todos[i].id.0]
            == todos[i]
    &&& forall|key: u128|
        #[trigger] store.contains_key(key) ==> exists|i: int| 0 <= i < todos.len() && todos[i].id.0 == key
    &&& oldest_first(todos)
}

/// What an insert of `todo` may do: store it when its id is new, refuse a known id as a
/// duplicate, or fail without touching the store.
pub open spec fn insert_outcome(
    before: Map<u128, Todo>,
    todo: Todo,
    result: Result<(), RepositoryError>,
    after: Map<u128, Todo>,
) -> bool {
    match result {
        Ok(()) => !before.contains_key(todo.id.0) && after == before.insert(todo.id.0, todo),
        Err(RepositoryError::Duplicate(id)) => id == todo.id && before.contains_key(todo.id.0)
            && after == before,
        Err(RepositoryError::NotFound(_)) => false,
        Err(_) => after == before,
    }
}

/// What an update with `todo` may do: replace the stored todo with its id, report an unknown
/// id as not found, or fail without touching the store.
pub open spec fn update_outcome(
    before: Map<u128, Todo>,
    todo: Todo,
    result: Result<(), RepositoryError>,
    after: Map<u128, Todo>,
) -> bool {
    match result {
        Ok(()) => before.contains_key(todo.id.0) && after == before.insert(todo.id.0, todo),
        Err(RepositoryError::NotFound(id)) => id == todo.id && !before.contains_key(todo.id.0)
            && after == before,
        Err(RepositoryError::Duplicate(_)) => false,
        Err(_) => after == before,
    }
}

/// What a purge with `cutoff` may do: delete the todos completed before `cutoff` and count
/// them, or fail without touching the store.
pub open spec fn purge_outcome(
    before: Map<u128, Todo>,
    cutoff: i128,
    result: Result<usize, RepositoryError>,
    after: Map<u128, Todo>,
) -> bool {
    match result {
        Ok(count) => after == purged(before, cutoff) && count == before.len() - after.len(),
        Err(RepositoryError::NotFound(_)) => false,
        Err(RepositoryError::Duplicate(_)) => false,
        Err(_) => after == before,
    }
}

/// Boundary: persistence for todos. Methods take and return owned entities; the adapter decides
/// how to map them.
pub trait TodoRepository {
    /// The stored todos, keyed by their id's value.
    spec fn contents(&self) -> Map<u128, Todo>;

    /// Whether this store never fails for reasons of its own (never reports
    /// [`RepositoryError::Unavailable`] or [`RepositoryError::Storage`]).
    spec fn never_fails(&self) -> bool;

    /// Stores a new todo. Fails with [`RepositoryError::Duplicate`] if the id exists.
    fn insert(&mut self, todo: Todo) -> (result: Result<(), RepositoryError>)
        requires
            keyed_store(old(self).contents()),
        ensures
            keyed_store(final(self).contents()),
            final(self).never_fails() == old(self).never_fails(),
            insert_outcome(old(self).contents(), todo, result, final(self).contents()),
            old(self).never_fails() ==> result is Ok || result matches Err(RepositoryError::Duplicate(_)),
    ;

    /// Looks a todo up. `Ok(None)` when absent.
    fn get(&self, id: TodoId) -> (result: Result<Option<Todo>, RepositoryError>)
        requires
            keyed_store(self.contents()),
        ensures
            result matches Ok(found) ==> found == lookup(self.contents(), id),
            !(result matches Err(RepositoryError::NotFound(_))),
            !(result matches Err(RepositoryError::Duplicate(_))),
            self.never_fails() ==> result is Ok,
    ;

    /// Every todo, oldest first.
    fn list(&self) -> (result: Result<Vec<Todo>, RepositoryError>)
        requires
            keyed_store(self.contents()),
        ensures
            result matches Ok(todos) ==> lists(todos@, self.contents()),
            !(result matches Err(RepositoryError::NotFound(_))),
            !(result matches Err(RepositoryError::Duplicate(_))),
            self.never_fails() ==> result is Ok,
    ;

    /// Replaces a stored todo. Fails with [`RepositoryError::NotFound`] if absent.
    fn update(&mut self, todo: Todo) -> (result: Result<(), RepositoryError>)
        requires
            keyed_store(old(self).contents()),
        ensures
            keyed_store(final(self).contents()),
            final(self).never_fails() == old(self).never_fails(),
            update_outcome(old(self).contents(), todo, result, final(self).contents()),
            old(self).never_fails() ==> result is Ok || result matches Err(RepositoryError::NotFound(_)),
    ;

    /// Deletes completed todos whose completion time is before `cutoff`; returns how many.
    fn purge_completed_before(&mut self, cutoff: i128) -> (result: Result<usize, RepositoryError>)
        requires
            keyed_store(old(self).contents()),
        ensures
            keyed_store(final(self).contents()),
            final(self).never_fails() == old(self).never_fails(),
            purge_outcome(old(self).contents(), cutoff, result, final(self).contents()),
            old(self).never_fails() ==> result is Ok,
    ;
}

#[verifier::external_type_specification]
#[verifier::external_body]
#[verifier::reject_recursive_types(K)]
#[verifier::reject_recursive_types(V)]
#[verifier::reject_recursive_types(S)]
pub struct ExDashMap<K, V, S>(DashMap<K, V, S>);

/// The entries a `dashmap::DashMap` of todos holds.
pub uninterp spec fn stored(map: DashMap<u128, Todo>) -> Map<u128, Todo>;

/// An empty map. Calls `dashmap::DashMap::new`, which creates a map with no entries.
#[verifier::external_body]
fn map_new() -> (fresh: DashMap<u128, Todo>)
    ensures
        stored(fresh) == empty_store(),
{
    DashMap::new()
}

/// Calls `dashmap::DashMap::len`: the number of entries, summed over the shards. The store
/// changes the map only through exclusive borrows, so no write runs while they are counted.
#[verifier::external_body]
fn map_len(map: &DashMap<u128, Todo>) -> (count: usize)
    ensures
        count == stored(*map).len(),
{
    map.len()
}

/// Calls `dashmap::DashMap::is_empty`: whether the map holds no entry.
#[verifier::external_body]
fn map_is_empty(map: &DashMap<u128, Todo>) -> (empty: bool)
    ensures
        empty == (stored(*map).len() == 0),
{
    map.is_empty()
}

/// Calls `dashmap::DashMap::contains_key`: whether an entry has this key.
#[verifier::external_body]
fn map_contains(map: &DashMap<u128, Todo>, key: u128) -> (found: bool)
    ensures
        found == stored(*map).contains_key(key),
{
    map.contains_key(&key)
}

/// Calls `dashmap::DashMap::insert`, which stores `value` under `key`, replacing any entry
/// with that key, and hands back the value it replaced. The map is taken by exclusive borrow
/// so that the change is visible to the caller.
#[verifier::external_body]
fn map_insert(map: &mut DashMap<u128, Todo>, key: u128, value: Todo) -> (replaced: Option<Todo>)
    ensures
        stored(*final(map)) == stored(*old(map)).insert(key, value),
        replaced == (if stored(*old(map)).contains_key(key) {
            Some(stored(*old(map))[key])
        } else {
            None
        }),
{
    map.insert(key, value)
}

/// Calls `dashmap::DashMap::get` and copies the value found under `key`, if any.
#[verifier::external_body]
fn map_get(map: &DashMap<u128, Todo>, key: u128) -> (found: Option<Todo>)
    ensures
        found == (if stored(*map).contains_key(key) {
            Some(stored(*map)[key])
        } else {
            None
        }),
{
    map.get(&key).map(|entry| entry.duplicate())
}

/// Calls `dashmap::DashMap::iter` and copies every (key, value) entry. Each entry comes out
/// once; the order follows the shards and hashes and is not stated.
#[verifier::external_body]
fn map_entries(map: &DashMap<u128, Todo>) -> (entries: Vec<(u128, Todo)>)
    ensures
        forall|i: int|
            0 <= i < entries.len() ==> stored(*map).contains_key(#[trigger] entries[i].0)
                && stored(*map)[entries[i].0] == entries[i].1,
        forall|key: u128|
            #[trigger] stored(*map).contains_key(key) ==> exists|i: int|
                0 <= i < entries.len() && entries[i].0 == key,
        forall|i: int, j: int|
            0 <= i < j < entries.len() ==> #[trigger] entries[i].0 != #[trigger] entries[j].0,
{
    map.iter().map(|entry| (*entry.key(), entry.value().duplicate())).collect()
}

/// Whether a purge with `cutoff` keeps `todo`.
fn keeps_after_purge(todo: &Todo, cutoff: i128) -> (kept: bool)
    ensures
        kept == survives_purge(*todo, cutoff),
{
    match todo.completed_at {
        None => true,
        Some(at) => at >= cutoff,
    }
}

/// Calls `dashmap::DashMap::retain` with a predicate that keeps exactly the todos
/// [`keeps_after_purge`] keeps; `retain` removes every entry the predicate rejects.
#[verifier::external_body]
fn map_retain_survivors(map: &mut DashMap<u128, Todo>, cutoff: i128)
    ensures
        stored(*final(map)) == purged(stored(*old(map)), cutoff),
{
    map.retain(|_, todo| keeps_after_purge(todo, cutoff))
}

/// Inserts `todo` into the oldest-first sequence `sorted` at its place.
fn insert_in_order(sorted: &mut Vec<Todo>, todo: Todo)
    requires
        oldest_first(old(sorted)@),
        forall|q: int| 0 <= q < old(sorted)@.len() ==> (#[trigger] old(sorted)@[q]).id != todo.id,
    ensures
        oldest_first(final(sorted)@),
        final(sorted)@.len() == old(sorted)@.len() + 1,
        forall|x: Todo| #[trigger] final(sorted)@.contains(x) <==> (old(sorted)@.contains(x) || x == todo),
{
    let mut position: usize = 0;
    while position < sorted.len()
        && !(todo.created_at < sorted[position].created_at || (todo.created_at
            == sorted[position].created_at && todo.id.0 < sorted[position].id.0))
        invariant
            0 <= position <= sorted.len(),
            forall|q: int| 0 <= q < position ==> !precedes(todo, #[trigger] sorted@[q]),
        decreases sorted.len() - position,
    {
        position = position + 1;
    }
    let ghost old_sorted = sorted@;
    sorted.insert(position, todo);
    proof {
        assert(sorted@ == old_sorted.insert(position as int, todo));
        assert forall|a: int, b: int| 0 <= a < b < sorted@.len() implies precedes(
            #[trigger] sorted@[a],
            #[trigger] sorted@[b],
        ) by {
            if b < position {
                assert(sorted@[a] == old_sorted[a] && sorted@[b] == old_sorted[b]);
            } else if b == position {
                assert(sorted@[a] == old_sorted[a]);
                assert(!precedes(todo, old_sorted[a]));
                assert(old_sorted[a].id != todo.id);
            } else if a == position {
                assert(sorted@[b] == old_sorted[b - 1]);
                assert(precedes(todo, old_sorted[position as int]));
                if b - 1 > position {
                    assert(precedes(old_sorted[position as int], old_sorted[b - 1]));
                }
            } else if a < position {
                assert(sorted@[a] == old_sorted[a] && sorted@[b] == old_sorted[b - 1]);
            } else {
                assert(sorted@[a] == old_sorted[a - 1] && sorted@[b] == old_sorted[b - 1]);
            }
        }
        assert forall|x: Todo| #[trigger] sorted@.contains(x) implies (old_sorted.contains(x)
            || x == todo) by {
            let j = choose|j: int| 0 <= j < sorted@.len() && sorted@[j] == x;
            if j < position {
                assert(old_sorted[j] == x);
            } else if j > position {
                assert(old_sorted[j - 1] == x);
            }
        }
        assert forall|x: Todo| old_sorted.contains(x) || x == todo implies #[trigger] sorted@.contains(
            x,
        ) by {
            if x == todo {
                assert(sorted@[position as int] == x);
            } else {
                let j = choose|j: int| 0 <= j < old_sorted.len() && old_sorted[j] == x;
                if j < position {
                    assert(sorted@[j] == x);
                } else {
                    assert(sorted@[j + 1] == x);
                }
            }
        }
    }
}

/// The todos that `entries` holds, in the order of the entries.
pub open spec fn entry_values(entries: Seq<(u128, Todo)>) -> Seq<Todo> {
    entries.map_values(|entry: (u128, Todo)| entry.1)
}

/// Sorts the values of `entries` oldest first.
fn sort_oldest_first(entries: Vec<(u128, Todo)>) -> (sorted: Vec<Todo>)
    requires
        forall|i: int, j: int|
            0 <= i < j < entries.len() ==> (#[trigger] entries[i]).1.id != (#[trigger] entries[j]).1.id,
    ensures
        forall|x: Todo| #[trigger] sorted@.contains(x) <==> entry_values(entries@).contains(x),
        oldest_first(sorted@),
{
    let ghost values = entry_values(entries@);
    let mut sorted: Vec<Todo> = Vec::new();
    let mut i: usize = 0;
    while i < entries.len()
        invariant
            0 <= i <= entries.len(),
            values == entry_values(entries@),
            forall|a: int, b: int|
                0 <= a < b < entries.len() ==> (#[trigger] entries[a]).1.id != (#[trigger] entries[b]).1.id,
            forall|x: Todo| #[trigger] sorted@.contains(x) <==> values.take(i as int).contains(x),
            oldest_first(sorted@),
        decreases entries.len() - i,
    {
        let todo = entries[i].1.duplicate();
        proof {
            assert forall|q: int| 0 <= q < sorted@.len() implies (#[trigger] sorted@[q]).id
                != todo.id by {
                assert(sorted@.contains(sorted@[q]));
                let k = choose|k: int| 0 <= k < i && values.take(i as int)[k] == sorted@[q];
                assert(entries[k].1 == values[k]);
                assert(entries[k].1.id != entries[i as int].1.id);
            }
        }
        let ghost before = sorted@;
        insert_in_order(&mut sorted, todo);
        proof {
            let n: int = i + 1;
            assert forall|x: Todo| values.take(n).contains(x) <==> (values.take(
                i as int,
            ).contains(x) || x == values[i as int]) by {
                if values.take(n).contains(x) {
                    let k = choose|k: int| 0 <= k < n && values.take(n)[k] == x;
                    if k < i {
                        assert(values.take(i as int)[k] == x);
                    }
                }
                if values.take(i as int).contains(x) {
                    let k = choose|k: int| 0 <= k < i && values.take(i as int)[k] == x;
                    assert(values.take(n)[k] == x);
                }
                if x == values[i as int] {
                    assert(values.take(n)[i as int] == x);
                }
            }
        }
        i = i + 1;
    }
    assert(values.take(entries.len() as int) =~= values);
    sorted
}

/// A process-local todo store. Lost on restart, by design.
pub struct InMemoryTodoRepository {
    items: DashMap<u128, Todo>,
}

impl InMemoryTodoRepository {
    /// An empty store.
    pub fn new() -> (repo: InMemoryTodoRepository)
        ensures
            repo.contents() == empty_store(),
            repo.never_fails(),
            keyed_store(repo.contents()),
    {
        InMemoryTodoRepository { items: map_new() }
    }

    /// Number of stored todos.
    pub fn len(&self) -> (count: usize)
        ensures
            count == self.contents().len(),
    {
        map_len(&self.items)
    }

    /// Whether the store is empty.
    pub fn is_empty(&self) -> (empty: bool)
        ensures
            empty == (self.contents().len() == 0),
    {
        map_is_empty(&self.items)
    }
}

impl TodoRepository for InMemoryTodoRepository {
    closed spec fn contents(&self) -> Map<u128, Todo> {
        stored(self.items)
    }

    open spec fn never_fails(&self) -> bool {
        true
    }

    fn insert(&mut self, todo: Todo) -> (result: Result<(), RepositoryError>)
        ensures
            result is Ok <==> !old(self).contents().contains_key(todo.id.0),
    {
        let key = todo.id.0;
        if map_contains(&self.items, key) {
            return Err(RepositoryError::Duplicate(todo.id));
        }
        map_insert(&mut self.items, key, todo);
        Ok(())
    }

    fn get(&self, id: TodoId) -> (result: Result<Option<Todo>, RepositoryError>)
        ensures
            result == Ok::<Option<Todo>, RepositoryError>(lookup(self.contents(), id)),
    {
        Ok(map_get(&self.items, id.0))
    }

    fn list(&self) -> (result: Result<Vec<Todo>, RepositoryError>)
        ensures
            result is Ok,
    {
        let entries = map_entries(&self.items);
        let ghost store = self.contents();
        proof {
            assert forall|i: int, j: int| 0 <= i < j < entries.len() implies (
            #[trigger] entries[i]).1.id != (#[trigger] entries[j]).1.id by {
                assert(store.contains_key(entries[i].0));
                assert(store.contains_key(entries[j].0));
            }
        }
        let sorted = sort_oldest_first(entries);
        proof {
            let values = entry_values(entries@);
            assert forall|key: u128| #[trigger] store.contains_key(key) implies exists|i: int|
                0 <= i < sorted@.len() && sorted@[i].id.0 == key by {
                let k = choose|k: int| 0 <= k < entries.len() && entries[k].0 == key;
                assert(store.contains_key(entries[k].0));
                assert(values[k] == entries[k].1);
                assert(values.contains(entries[k].1));
                assert(sorted@.contains(entries[k].1));
                let i = choose|i: int| 0 <= i < sorted@.len() && sorted@[i] == entries[k].1;
                assert(sorted@[i].id.0 == key);
            }
            assert forall|i: int| 0 <= i < sorted@.len() implies store.contains_key(
                #[trigger] sorted@[i].id.0,
            ) && store[sorted@[i].id.0] == sorted@[i] by {
                assert(sorted@.contains(sorted@[i]));
                let k = choose|k: int| 0 <= k < values.len() && values[k] == sorted@[i];
                assert(entries[k].1 == sorted@[i]);
                assert(store.contains_key(entries[k].0));
            }
        }
        Ok(sorted)
    }

    fn update(&mut self, todo: Todo) -> (result: Result<(), RepositoryError>)
        ensures
            result is Ok <==> old(self).contents().contains_key(todo.id.0),
    {
        let key = todo.id.0;
        if !map_contains(&self.items, key) {
            return Err(RepositoryError::NotFound(todo.id));
        }
        map_insert(&mut self.items, key, todo);
        Ok(())
    }

    fn purge_completed_before(&mut self, cutoff: i128) -> (result: Result<usize, RepositoryError>)
        ensures
            result is Ok,
    {
        let before = map_len(&self.items);
        let ghost old_store = stored(self.items);
        map_retain_survivors(&mut self.items, cutoff);
        proof {
            let new_store = stored(self.items);
            assert(new_store.dom().subset_of(old_store.dom()));
            vstd::set_lib::lemma_len_subset(new_store.dom(), old_store.dom());
        }
        let after = map_len(&self.items);
        Ok(before - after)
    }
}

/// A successful insert can be read back: the store then holds exactly the inserted todo under
/// its id, and stays keyed by id.
pub proof fn law_insert_then_lookup(
    before: Map<u128, Todo>,
    todo: Todo,
    after: Map<u128, Todo>,
)
    requires
        keyed_store(before),
        insert_outcome(before, todo, Ok(()), after),
    ensures
        lookup(after, todo.id) == Some(todo),
        keyed_store(after),
        after.len() == before.len() + 1,
{
}

/// A successful update can be read back, and the number of stored todos does not change.
pub proof fn law_update_then_lookup(
    before: Map<u128, Todo>,
    todo: Todo,
    after: Map<u128, Todo>,
)
    requires
        keyed_store(before),
        update_outcome(before, todo, Ok(()), after),
    ensures
        lookup(after, todo.id) == Some(todo),
        keyed_store(after),
        after.len() == before.len(),
{
    assert(after.dom() =~= before.dom());
}

/// A purge keeps exactly the open todos and those completed at or after the cutoff, unchanged;
/// what it removes are todos completed before the cutoff.
pub proof fn law_purge_removes_only_old_completed(store: Map<u128, Todo>, cutoff: i128)
    requires
        keyed_store(store),
    ensures
        keyed_store(purged(store, cutoff)),
        purged(store, cutoff).len() <= store.len(),
        forall|key: u128| #[trigger]
            purged(store, cutoff).contains_key(key) <==> (store.contains_key(key) && survives_purge(
                store[key],
                cutoff,
            )),
        forall|key: u128| #[trigger]
            purged(store, cutoff).contains_key(key) ==> purged(store, cutoff)[key] == store[key],
        forall|key: u128|
            store.contains_key(key) && !purged(store, cutoff).contains_key(key) ==> ((
            #[trigger] store[key]).completed_at matches Some(at) && at < cutoff),
{
    let kept = purged(store, cutoff);
    assert(kept.dom().subset_of(store.dom()));
    vstd::set_lib::lemma_len_subset(kept.dom(), store.dom());
}

/// A purge with `cutoff` keeps a stored todo exactly when it is open or was completed at or
/// after `cutoff`: every todo completed strictly before `cutoff` is deleted, however long ago.
pub proof fn law_purge_deletes_every_todo_completed_before_cutoff(
    store: Map<u128, Todo>,
    cutoff: i128,
)
    requires
        keyed_store(store),
    ensures
        forall|key: u128| #[trigger]
            purged(store, cutoff).contains_key(key) <==> (store.contains_key(key) && (
            store[key].completed_at is None || store[key].completed_at->0 >= cutoff)),
        forall|key: u128|
            store.contains_key(key) && (#[trigger] store[key]).completed_at is Some
                && store[key].completed_at->0 < cutoff ==> !purged(store, cutoff).contains_key(key),
{
}

/// After a successful purge with `cutoff`: no todo completed before `cutoff` is left, every
/// open todo and every todo completed at or after `cutoff` is still stored unchanged, nothing
/// new appears, and the count is the number of todos deleted.
pub proof fn law_successful_purge_leaves_no_todo_completed_before_cutoff(
    before: Map<u128, Todo>,
    cutoff: i128,
    count: usize,
    after: Map<u128, Todo>,
)
    requires
        keyed_store(before),
        purge_outcome(before, cutoff, Ok(count), after),
    ensures
        forall|key: u128| #[trigger]
            after.contains_key(key) ==> before.contains_key(key) && after[key] == before[key] && (
            after[key].completed_at is None || after[key].completed_at->0 >= cutoff),
        forall|key: u128|
            before.contains_key(key) && (#[trigger] before[key]).completed_at is Some
                && before[key].completed_at->0 < cutoff ==> !after.contains_key(key),
        forall|key: u128|
            before.contains_key(key) && ((#[trigger] before[key]).completed_at is None
                || before[key].completed_at->0 >= cutoff) ==> after.contains_key(key) && after[key]
                == before[key],
        count + after.len() == before.len(),
{
    law_purge_removes_only_old_completed(before, cutoff);
}

} // verus!
