//! The todo use cases, wired to their boundaries: a repository, a clock and an event publisher.
use vstd::prelude::*;

use crate::clock::{valid_time, Clock, TIME_SPAN_NS};
use crate::domain_error::{DomainError, RepositoryError};
use crate::event::DomainEvent;
use crate::repository::{keyed_store, lists, lookup, purged, survives_purge, TodoRepository};
use crate::todo::{completed_todo, fresh_todo, Title, Todo, TodoId};

verus! {

/// Boundary: where the domain announces facts. Publishing never fails and never blocks.
pub trait EventPublisher {
    /// Every event handed over so far, oldest first.
    spec fn published(&self) -> Seq<DomainEvent>;

    /// Announces `event`.
    fn publish(&mut self, event: DomainEvent)
        ensures
            final(self).published() == old(self).published().push(event),
    ;
}

/// A publisher that keeps every event, for tests and embedding.
#[derive(Debug, Default)]
pub struct RecordingPublisher {
    events: Vec<DomainEvent>,
}

impl RecordingPublisher {
    /// A publisher that has recorded nothing yet.
    pub fn new() -> (publisher: RecordingPublisher)
        ensures
            publisher.published() == Seq::<DomainEvent>::empty(),
    {
        RecordingPublisher { events: Vec::new() }
    }

    /// Every event recorded so far, oldest first.
    pub fn recorded(&self) -> (events: &[DomainEvent])
        ensures
            events@ == self.published(),
    {
        self.events.as_slice()
    }
}

impl EventPublisher for RecordingPublisher {
    closed spec fn published(&self) -> Seq<DomainEvent> {
        self.events@
    }

    fn publish(&mut self, event: DomainEvent) {
        self.events.push(event);
    }
}

/// What creating a todo with `id` and `title` at `now` does: store the new open todo and
/// announce it, or leave store and announcements as they were when the repository refuses.
pub open spec fn create_outcome(
    todos: Map<u128, Todo>,
    events: Seq<DomainEvent>,
    never_fails: bool,
    id: TodoId,
    title: Title,
    now: i128,
    result: Result<Todo, DomainError>,
    todos_after: Map<u128, Todo>,
    events_after: Seq<DomainEvent>,
) -> bool {
    match result {
        Ok(todo) => {
            &&& todo == fresh_todo(id, title, now)
            &&& !todos.contains_key(id.0)
            &&& todos_after == todos.insert(id.0, todo)
            &&& events_after == events.push(DomainEvent::TodoCreated { id })
        },
        Err(DomainError::Repository(error)) => {
            &&& todos_after == todos
            &&& events_after == events
            &&& !(error is NotFound)
            &&& error matches RepositoryError::Duplicate(dup) ==> dup == id && todos.contains_key(
                id.0,
            )
            &&& never_fails ==> error is Duplicate
        },
        Err(_) => false,
    }
}

/// What completing the todo `id` at `now` does: mark it done and announce it; refuse an
/// unknown id or a todo already done; or leave everything as it was when the repository fails.
pub open spec fn complete_outcome(
    todos: Map<u128, Todo>,
    events: Seq<DomainEvent>,
    never_fails: bool,
    id: TodoId,
    now: i128,
    result: Result<Todo, DomainError>,
    todos_after: Map<u128, Todo>,
    events_after: Seq<DomainEvent>,
) -> bool {
    match result {
        Ok(todo) => {
            &&& todos.contains_key(id.0)
            &&& !todos[id.0].done
            &&& todo == completed_todo(todos[id.0], now)
            &&& todos_after == todos.insert(id.0, todo)
            &&& events_after == events.push(DomainEvent::TodoCompleted { id })
        },
        Err(DomainError::NotFound(missing)) => {
            &&& missing == id
            &&& !todos.contains_key(id.0)
            &&& todos_after == todos
            &&& events_after == events
        },
        Err(DomainError::AlreadyDone(done)) => {
            &&& done == id
            &&& todos.contains_key(id.0)
            &&& todos[id.0].done
            &&& todos_after == todos
            &&& events_after == events
        },
        Err(DomainError::Repository(_)) => !never_fails && todos_after == todos && events_after
            == events,
        Err(_) => false,
    }
}

/// What purging at `now` with `retention_ns` does: delete the todos completed before
/// `now - retention_ns`, count them, and announce the purge when the count is not zero.
pub open spec fn purge_completed_outcome(
    todos: Map<u128, Todo>,
    events: Seq<DomainEvent>,
    never_fails: bool,
    now: i128,
    retention_ns: u128,
    result: Result<usize, DomainError>,
    todos_after: Map<u128, Todo>,
    events_after: Seq<DomainEvent>,
) -> bool {
    match result {
        Ok(count) => {
            &&& todos_after == purged(todos, (now - retention_ns) as i128)
            &&& count == todos.len() - todos_after.len()
            &&& events_after == if count > 0 {
                events.push(DomainEvent::TodosPurged { count })
            } else {
                events
            }
        },
        Err(DomainError::Repository(_)) => !never_fails && todos_after == todos && events_after
            == events,
        Err(_) => false,
    }
}

/// The use cases. Holds its boundaries as type parameters so the composition root decides the
/// adapters and tests can substitute fakes.
pub struct TodoService<R, C, P> {
    repo: R,
    clock: C,
    events: P,
}

impl<R: TodoRepository, C: Clock, P: EventPublisher> TodoService<R, C, P> {
    /// The todos the repository holds.
    pub closed spec fn todos(&self) -> Map<u128, Todo> {
        self.repo.contents()
    }

    /// Every event announced through the publisher so far.
    pub closed spec fn published(&self) -> Seq<DomainEvent> {
        self.events.published()
    }

    /// Whether the repository never fails for reasons of its own.
    pub closed spec fn store_never_fails(&self) -> bool {
        self.repo.never_fails()
    }

    /// The instant the clock always reads, when it is frozen.
    pub closed spec fn clock_reading(&self) -> Option<i128> {
        self.clock.fixed_reading()
    }

    /// Wires the use cases to their boundaries.
    pub fn new(repo: R, clock: C, events: P) -> (service: Self)
        requires
            keyed_store(repo.contents()),
        ensures
            service.todos() == repo.contents(),
            service.published() == events.published(),
            service.store_never_fails() == repo.never_fails(),
            service.clock_reading() == clock.fixed_reading(),
            keyed_store(service.todos()),
    {
        TodoService { repo, clock, events }
    }

    /// The repository.
    pub fn repository(&self) -> (repo: &R)
        ensures
            repo.contents() == self.todos(),
    {
        &self.repo
    }

    /// The event publisher.
    pub fn publisher(&self) -> (publisher: &P)
        ensures
            publisher.published() == self.published(),
    {
        &self.events
    }

    /// Creates a todo with a fresh id at the clock's current time and announces `TodoCreated`.
    pub fn create(&mut self, title: Title) -> (result: Result<Todo, DomainError>)
        requires
            keyed_store(old(self).todos()),
        ensures
            keyed_store(final(self).todos()),
            final(self).store_never_fails() == old(self).store_never_fails(),
            final(self).clock_reading() == old(self).clock_reading(),
            exists|id: TodoId, now: i128|
                crate::id::version_of(id.0) == 7 && valid_time(now as int) && (old(
                    self,
                ).clock_reading() matches Some(at) ==> now == at) && create_outcome(
                    old(self).todos(),
                    old(self).published(),
                    old(self).store_never_fails(),
                    id,
                    title,
                    now,
                    result,
                    final(self).todos(),
                    final(self).published(),
                ),
    {
        let now = self.clock.now();
        let id = TodoId::new();
        let result = self.create_at(id, title, now);
        assert(crate::id::version_of(id.0) == 7 && valid_time(now as int) && (old(
            self,
        ).clock_reading() matches Some(at) ==> now == at) && create_outcome(
            old(self).todos(),
            old(self).published(),
            old(self).store_never_fails(),
            id,
            title,
            now,
            result,
            self.todos(),
            self.published(),
        ));
        result
    }

    /// Creates the todo `id` titled `title` at `now` and announces `TodoCreated`.
    pub fn create_at(&mut self, id: TodoId, title: Title, now: i128) -> (result: Result<
        Todo,
        DomainError,
    >)
        requires
            keyed_store(old(self).todos()),
        ensures
            keyed_store(final(self).todos()),
            final(self).store_never_fails() == old(self).store_never_fails(),
            final(self).clock_reading() == old(self).clock_reading(),
            create_outcome(
                old(self).todos(),
                old(self).published(),
                old(self).store_never_fails(),
                id,
                title,
                now,
                result,
                final(self).todos(),
                final(self).published(),
            ),
    {
        let todo = Todo::with_id(id, title, now);
        match self.repo.insert(todo.duplicate()) {
            Ok(()) => {},
            Err(error) => {
                return Err(DomainError::Repository(error));
            },
        }
        self.events.publish(DomainEvent::TodoCreated { id });
        Ok(todo)
    }

    /// Fetches a todo.
    pub fn get(&self, id: TodoId) -> (result: Result<Todo, DomainError>)
        requires
            keyed_store(self.todos()),
        ensures
            match result {
                Ok(todo) => lookup(self.todos(), id) == Some(todo),
                Err(DomainError::NotFound(missing)) => missing == id && lookup(self.todos(), id)
                    == None::<Todo>,
                Err(DomainError::Repository(error)) => !self.store_never_fails() && !(error is NotFound)
                    && !(error is Duplicate),
                Err(_) => false,
            },
    {
        match self.repo.get(id) {
            Ok(Some(todo)) => Ok(todo),
            Ok(None) => Err(DomainError::NotFound(id)),
            Err(error) => Err(DomainError::Repository(error)),
        }
    }

    /// Lists every todo, oldest first.
    pub fn list(&self) -> (result: Result<Vec<Todo>, DomainError>)
        requires
            keyed_store(self.todos()),
        ensures
            match result {
                Ok(todos) => lists(todos@, self.todos()),
                Err(DomainError::Repository(error)) => !self.store_never_fails() && !(error is NotFound)
                    && !(error is Duplicate),
                Err(_) => false,
            },
    {
        match self.repo.list() {
            Ok(todos) => Ok(todos),
            Err(error) => Err(DomainError::Repository(error)),
        }
    }

    /// Marks a todo done at the clock's current time and announces `TodoCompleted`.
    pub fn complete(&mut self, id: TodoId) -> (result: Result<Todo, DomainError>)
        requires
            keyed_store(old(self).todos()),
        ensures
            keyed_store(final(self).todos()),
            final(self).store_never_fails() == old(self).store_never_fails(),
            final(self).clock_reading() == old(self).clock_reading(),
            exists|now: i128|
                valid_time(now as int) && (old(self).clock_reading() matches Some(at) ==> now
                    == at) && complete_outcome(
                    old(self).todos(),
                    old(self).published(),
                    old(self).store_never_fails(),
                    id,
                    now,
                    result,
                    final(self).todos(),
                    final(self).published(),
                ),
    {
        let now = self.clock.now();
        let result = self.complete_at(id, now);
        assert(valid_time(now as int) && (old(self).clock_reading() matches Some(at) ==> now
            == at) && complete_outcome(
            old(self).todos(),
            old(self).published(),
            old(self).store_never_fails(),
            id,
            now,
            result,
            self.todos(),
            self.published(),
        ));
        result
    }

    /// Marks the todo `id` done at `now` and announces `TodoCompleted`.
    pub fn complete_at(&mut self, id: TodoId, now: i128) -> (result: Result<Todo, DomainError>)
        requires
            keyed_store(old(self).todos()),
        ensures
            keyed_store(final(self).todos()),
            final(self).store_never_fails() == old(self).store_never_fails(),
            final(self).clock_reading() == old(self).clock_reading(),
            complete_outcome(
                old(self).todos(),
                old(self).published(),
                old(self).store_never_fails(),
                id,
                now,
                result,
                final(self).todos(),
                final(self).published(),
            ),
    {
        let mut todo = match self.get(id) {
            Ok(todo) => todo,
            Err(error) => {
                return Err(error);
            },
        };
        match todo.complete(now) {
            Ok(()) => {},
            Err(error) => {
                return Err(error);
            },
        }
        match self.repo.update(todo.duplicate()) {
            Ok(()) => {},
            Err(error) => {
                return Err(DomainError::Repository(error));
            },
        }
        self.events.publish(DomainEvent::TodoCompleted { id });
        Ok(todo)
    }

    /// Deletes todos completed more than `retention_ns` nanoseconds before the clock's current
    /// time; announces `TodosPurged` if any. A cutoff before the earliest representable instant
    /// keeps every todo.
    pub fn purge_completed(&mut self, retention_ns: u128) -> (result: Result<usize, DomainError>)
        requires
            keyed_store(old(self).todos()),
            retention_ns <= TIME_SPAN_NS,
        ensures
            keyed_store(final(self).todos()),
            final(self).store_never_fails() == old(self).store_never_fails(),
            final(self).clock_reading() == old(self).clock_reading(),
            exists|now: i128|
                valid_time(now as int) && (old(self).clock_reading() matches Some(at) ==> now
                    == at) && purge_completed_outcome(
                    old(self).todos(),
                    old(self).published(),
                    old(self).store_never_fails(),
                    now,
                    retention_ns,
                    result,
                    final(self).todos(),
                    final(self).published(),
                ),
    {
        let now = self.clock.now();
        let result = self.purge_completed_at(now, retention_ns);
        assert(valid_time(now as int) && (old(self).clock_reading() matches Some(at) ==> now
            == at) && purge_completed_outcome(
            old(self).todos(),
            old(self).published(),
            old(self).store_never_fails(),
            now,
            retention_ns,
            result,
            self.todos(),
            self.published(),
        ));
        result
    }

    /// Deletes todos completed before `now - retention_ns`; announces `TodosPurged` if any.
    pub fn purge_completed_at(&mut self, now: i128, retention_ns: u128) -> (result: Result<
        usize,
        DomainError,
    >)
        requires
            keyed_store(old(self).todos()),
            valid_time(now as int),
            retention_ns <= TIME_SPAN_NS,
        ensures
            keyed_store(final(self).todos()),
            final(self).store_never_fails() == old(self).store_never_fails(),
            final(self).clock_reading() == old(self).clock_reading(),
            purge_completed_outcome(
                old(self).todos(),
                old(self).published(),
                old(self).store_never_fails(),
                now,
                retention_ns,
                result,
                final(self).todos(),
                final(self).published(),
            ),
    {
        let cutoff = now - retention_ns as i128;
        let count = match self.repo.purge_completed_before(cutoff) {
            Ok(count) => count,
            Err(error) => {
                return Err(DomainError::Repository(error));
            },
        };
        if count > 0 {
            self.events.publish(DomainEvent::TodosPurged { count });
        }
        Ok(count)
    }
}

/// A created todo can be read back: it is stored under its id, open, and created at the time
/// of creation.
pub proof fn law_created_todo_reads_back(
    todos: Map<u128, Todo>,
    events: Seq<DomainEvent>,
    never_fails: bool,
    id: TodoId,
    title: Title,
    now: i128,
    todo: Todo,
    todos_after: Map<u128, Todo>,
    events_after: Seq<DomainEvent>,
)
    requires
        create_outcome(todos, events, never_fails, id, title, now, Ok(todo), todos_after, events_after),
    ensures
        lookup(todos_after, id) == Some(todo),
        !todo.done,
        todo.created_at == now,
        todo.completed_at == None::<i128>,
        events_after.last() == (DomainEvent::TodoCreated { id }),
{
}

/// A completed todo can be read back: it is stored under its id, done, and completed at the
/// time of completion, with everything else as it was.
pub proof fn law_completed_todo_reads_back(
    todos: Map<u128, Todo>,
    events: Seq<DomainEvent>,
    never_fails: bool,
    id: TodoId,
    now: i128,
    todo: Todo,
    todos_after: Map<u128, Todo>,
    events_after: Seq<DomainEvent>,
)
    requires
        keyed_store(todos),
        complete_outcome(todos, events, never_fails, id, now, Ok(todo), todos_after, events_after),
    ensures
        lookup(todos_after, id) == Some(todo),
        todo.done,
        todo.completed_at == Some(now),
        todo.id == id,
        todo.title == todos[id.0].title,
        todo.created_at == todos[id.0].created_at,
        events_after.last() == (DomainEvent::TodoCompleted { id }),
{
}

/// On a store that never fails, creating a todo and then completing it succeeds and announces
/// exactly two events: `TodoCreated`, then `TodoCompleted`.
pub proof fn law_create_then_complete_announces_both(
    todos: Map<u128, Todo>,
    events: Seq<DomainEvent>,
    id: TodoId,
    title: Title,
    created: i128,
    first: Result<Todo, DomainError>,
    todos_mid: Map<u128, Todo>,
    events_mid: Seq<DomainEvent>,
    completed: i128,
    second: Result<Todo, DomainError>,
    todos_after: Map<u128, Todo>,
    events_after: Seq<DomainEvent>,
)
    requires
        first is Ok,
        create_outcome(todos, events, true, id, title, created, first, todos_mid, events_mid),
        complete_outcome(todos_mid, events_mid, true, id, completed, second, todos_after, events_after),
    ensures
        second matches Ok(todo) && todo.done && todo.completed_at == Some(completed) && todo.id == id,
        events_after == events.push(DomainEvent::TodoCreated { id }).push(
            DomainEvent::TodoCompleted { id },
        ),
{
}

/// On a store that never fails, completing a todo that is already done is a conflict and
/// changes nothing.
pub proof fn law_completing_twice_is_a_conflict(
    todos: Map<u128, Todo>,
    events: Seq<DomainEvent>,
    id: TodoId,
    first_at: i128,
    first: Result<Todo, DomainError>,
    todos_mid: Map<u128, Todo>,
    events_mid: Seq<DomainEvent>,
    second_at: i128,
    second: Result<Todo, DomainError>,
    todos_after: Map<u128, Todo>,
    events_after: Seq<DomainEvent>,
)
    requires
        first is Ok,
        complete_outcome(todos, events, true, id, first_at, first, todos_mid, events_mid),
        complete_outcome(todos_mid, events_mid, true, id, second_at, second, todos_after, events_after),
    ensures
        second == Err::<Todo, DomainError>(DomainError::AlreadyDone(id)),
        todos_after == todos_mid,
        events_after == events_mid,
{
}

/// On a store that never fails, completing an unknown id reports it as not found and changes
/// nothing.
pub proof fn law_completing_an_unknown_id_is_not_found(
    todos: Map<u128, Todo>,
    events: Seq<DomainEvent>,
    id: TodoId,
    now: i128,
    result: Result<Todo, DomainError>,
    todos_after: Map<u128, Todo>,
    events_after: Seq<DomainEvent>,
)
    requires
        !todos.contains_key(id.0),
        complete_outcome(todos, events, true, id, now, result, todos_after, events_after),
    ensures
        result == Err::<Todo, DomainError>(DomainError::NotFound(id)),
        todos_after == todos,
        events_after == events,
{
}

/// A purge never removes an open todo nor one completed at or after `now - retention_ns`, and
/// announces nothing when it removed nothing.
pub proof fn law_purge_keeps_open_and_recent_todos(
    todos: Map<u128, Todo>,
    events: Seq<DomainEvent>,
    never_fails: bool,
    now: i128,
    retention_ns: u128,
    count: usize,
    todos_after: Map<u128, Todo>,
    events_after: Seq<DomainEvent>,
    key: u128,
)
    requires
        purge_completed_outcome(
            todos,
            events,
            never_fails,
            now,
            retention_ns,
            Ok(count),
            todos_after,
            events_after,
        ),
        valid_time(now as int),
        retention_ns <= TIME_SPAN_NS,
        todos.contains_key(key),
        todos[key].completed_at matches Some(at) ==> at >= now - retention_ns,
    ensures
        todos_after.contains_key(key),
        todos_after[key] == todos[key],
        count == 0 ==> events_after == events,
{
    let cutoff = (now - retention_ns) as i128;
    assert(cutoff == now - retention_ns);
    assert(survives_purge(todos[key], cutoff));
}

/// A successful purge deletes every todo completed before `now - retention_ns`, however long
/// ago, and then announces `TodosPurged` with the number deleted, which is not zero.
pub proof fn law_purge_deletes_old_completed_todos_and_announces_them(
    todos: Map<u128, Todo>,
    events: Seq<DomainEvent>,
    never_fails: bool,
    now: i128,
    retention_ns: u128,
    count: usize,
    todos_after: Map<u128, Todo>,
    events_after: Seq<DomainEvent>,
    key: u128,
)
    requires
        keyed_store(todos),
        purge_completed_outcome(
            todos,
            events,
            never_fails,
            now,
            retention_ns,
            Ok(count),
            todos_after,
            events_after,
        ),
        valid_time(now as int),
        retention_ns <= TIME_SPAN_NS,
        todos.contains_key(key),
        todos[key].completed_at is Some,
        todos[key].completed_at->0 < now - retention_ns,
    ensures
        !todos_after.contains_key(key),
        count > 0,
        count == todos.len() - todos_after.len(),
        events_after == events.push(DomainEvent::TodosPurged { count }),
{
    let cutoff = (now - retention_ns) as i128;
    assert(cutoff == now - retention_ns);
    assert(!todos_after.contains_key(key));
    assert(todos_after.dom().subset_of(todos.dom().remove(key)));
    vstd::set_lib::lemma_len_subset(todos_after.dom(), todos.dom().remove(key));
}

} // verus!
