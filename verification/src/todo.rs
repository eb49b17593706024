//! The worked example: a todo list. Identity, validated title and the entity itself.
use vstd::prelude::*;

use crate::domain_error::DomainError;
use crate::id::new_v7;

verus! {

/// Identity of a todo: a time-ordered UUID held as its 128-bit big-endian value.
#[derive(Debug, Clone, Copy, PartialEq, Eq, Hash, PartialOrd, Ord, Structural)]
pub struct TodoId(pub u128);

impl TodoId {
    /// A fresh identifier (UUID version 7).
    pub fn new() -> (id: TodoId)
        ensures
            crate::id::version_of(id.0) == 7,
    {
        TodoId(new_v7())
    }
}

/// The most characters a title may have.
pub const TITLE_MAX_CHARS: usize = 200;

/// Whether a text is acceptable as a title: not empty and at most [`TITLE_MAX_CHARS`] characters.
pub open spec fn title_is_valid(text: Seq<char>) -> bool {
    0 < text.len() <= TITLE_MAX_CHARS
}

/// What [`Title::new`] answers for `text`.
pub open spec fn title_check(text: Seq<char>) -> Result<Seq<char>, DomainError> {
    if text.len() == 0 {
        Err(DomainError::TitleEmpty)
    } else if text.len() > TITLE_MAX_CHARS {
        Err(DomainError::TitleTooLong { max: TITLE_MAX_CHARS, actual: text.len() as usize })
    } else {
        Ok(text)
    }
}

/// A validated title: validated on construction, never empty, at most 200 characters.
#[derive(Debug, PartialEq, Eq)]
pub struct Title {
    text: String,
}

impl View for Title {
    type V = Seq<char>;

    closed spec fn view(&self) -> Seq<char> {
        self.text@
    }
}

impl Title {
    #[verifier::type_invariant]
    spec fn validated(self) -> bool {
        title_is_valid(self.text@)
    }

    /// Validates `raw` as a title.
    pub fn new(raw: String) -> (result: Result<Title, DomainError>)
        ensures
            match (result, title_check(raw@)) {
                (Ok(title), Ok(text)) => title@ == text,
                (Err(e), Err(expected)) => e == expected,
                _ => false,
            },
    {
        let count = raw.as_str().unicode_len();
        if count == 0 {
            Err(DomainError::TitleEmpty)
        } else if count > TITLE_MAX_CHARS {
            Err(DomainError::TitleTooLong { max: TITLE_MAX_CHARS, actual: count })
        } else {
            Ok(Title { text: raw })
        }
    }

    /// The title's text.
    pub fn as_str(&self) -> (text: &str)
        ensures
            text@ == self@,
            title_is_valid(self@),
    {
        proof {
            use_type_invariant(self);
        }
        self.text.as_str()
    }

    /// A copy of this title.
    pub fn duplicate(&self) -> (copy: Title)
        ensures
            copy == *self,
    {
        proof {
            use_type_invariant(self);
        }
        Title { text: self.text.clone() }
    }
}

impl Clone for Title {
    fn clone(&self) -> (copy: Title)
        ensures
            copy == *self,
    {
        self.duplicate()
    }
}

/// A todo item. Timestamps are nanoseconds since the Unix epoch, UTC.
#[derive(Debug, PartialEq, Eq)]
pub struct Todo {
    /// Identity.
    pub id: TodoId,
    /// What to do.
    pub title: Title,
    /// Whether it is done.
    pub done: bool,
    /// When it was created.
    pub created_at: i128,
    /// When it was completed, once done.
    pub completed_at: Option<i128>,
}

/// The todo [`Todo::with_id`] builds: open, titled `title`, created at `now`.
pub open spec fn fresh_todo(id: TodoId, title: Title, now: i128) -> Todo {
    Todo { id, title, done: false, created_at: now, completed_at: None }
}

/// `todo` after being completed at `now`.
pub open spec fn completed_todo(todo: Todo, now: i128) -> Todo {
    Todo { done: true, completed_at: Some(now), ..todo }
}

impl Todo {
    /// A new open todo with a fresh identifier, created at `now`.
    pub fn new(title: Title, now: i128) -> (todo: Todo)
        ensures
            todo == fresh_todo(todo.id, title, now),
            crate::id::version_of(todo.id.0) == 7,
    {
        Todo::with_id(TodoId::new(), title, now)
    }

    /// A new open todo with the given identifier, created at `now`.
    pub fn with_id(id: TodoId, title: Title, now: i128) -> (todo: Todo)
        ensures
            todo == fresh_todo(id, title, now),
    {
        Todo { id, title, done: false, created_at: now, completed_at: None }
    }

    /// Marks the todo done at `now`. Completing twice is a conflict, not a no-op.
    pub fn complete(&mut self, now: i128) -> (result: Result<(), DomainError>)
        ensures
            old(self).done ==> result == Err::<(), DomainError>(DomainError::AlreadyDone(old(self).id))
                && *final(self) == *old(self),
            !old(self).done ==> result is Ok && *final(self) == completed_todo(*old(self), now),
    {
        if self.done {
            return Err(DomainError::AlreadyDone(self.id));
        }
        self.done = true;
        self.completed_at = Some(now);
        Ok(())
    }

    /// A copy of this todo.
    pub fn duplicate(&self) -> (copy: Todo)
        ensures
            copy == *self,
    {
        Todo {
            id: self.id,
            title: self.title.duplicate(),
            done: self.done,
            created_at: self.created_at,
            completed_at: self.completed_at,
        }
    }
}

impl Clone for Todo {
    fn clone(&self) -> (copy: Todo)
        ensures
            copy == *self,
    {
        self.duplicate()
    }
}

/// Every text of 1 to 200 characters is a title, accepted unchanged whatever characters it
/// holds; the only refusals are an empty text and one of more than 200 characters.
pub proof fn law_title_accepts_every_short_nonempty_text(text: Seq<char>)
    ensures
        0 < text.len() <= 200 ==> title_check(text) == Ok::<Seq<char>, DomainError>(text),
        text.len() == 0 ==> title_check(text) == Err::<Seq<char>, DomainError>(DomainError::TitleEmpty),
        text.len() > 200 ==> title_check(text) == Err::<Seq<char>, DomainError>(
            DomainError::TitleTooLong { max: 200, actual: text.len() as usize },
        ),
        title_check(text) is Ok <==> title_is_valid(text),
{
}

} // verus!
