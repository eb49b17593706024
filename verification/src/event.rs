//! Facts the domain announces after they happened. Past tense, immutable.
use vstd::prelude::*;

use crate::todo::TodoId;

verus! {

/// Everything that can be published on the event bus.
#[derive(Debug, Clone, Copy, PartialEq, Eq, Structural)]
pub enum DomainEvent {
    /// A todo was created.
    TodoCreated {
        /// Its id.
        id: TodoId,
    },
    /// A todo was marked done.
    TodoCompleted {
        /// Its id.
        id: TodoId,
    },
    /// Completed todos were purged by the cleanup job.
    TodosPurged {
        /// How many.
        count: usize,
    },
}

impl DomainEvent {
    /// Stable `snake_case` name for logs and metrics labels.
    #[verifier::allow_in_spec]
    pub fn name(&self) -> &'static str
        returns
            match self {
                DomainEvent::TodoCreated { .. } => "todo_created",
                DomainEvent::TodoCompleted { .. } => "todo_completed",
                DomainEvent::TodosPurged { .. } => "todos_purged",
            },
    {
        match self {
            DomainEvent::TodoCreated { .. } => "todo_created",
            DomainEvent::TodoCompleted { .. } => "todo_completed",
            DomainEvent::TodosPurged { .. } => "todos_purged",
        }
    }
}

} // verus!
