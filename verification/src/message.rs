//! The vocabulary that tasks and their manager exchange.

use vstd::prelude::*;

verus! {

/// Names one task for the lifetime of its manager. Identifiers are handed out
/// in increasing order and never reused.
#[derive(Debug, Copy, Clone, Hash, PartialEq, Eq, PartialOrd, Ord, Structural)]
pub struct TaskId(pub usize);

/// A directive from the manager to one task.
#[derive(Debug)]
pub enum Command<T> {
    /// Notify the handler of an event.
    NotifyHandler(T),
}

/// How a unit of work came out.
#[derive(Debug, Copy, Clone, PartialEq, Eq, Structural)]
pub enum Resolution {
    /// The work succeeded and the handler is now active.
    Established,
    /// The work failed before the handler was activated.
    Failed,
    /// The work failed with the handler active.
    Error,
}

/// What a task reports to its manager. Every event names the task it comes from.
#[derive(Debug)]
pub enum Event<H> {
    /// The work has succeeded.
    Established { id: TaskId },
    /// An active handler produced an error.
    Error { id: TaskId },
    /// The pending work failed; the handler that was never activated comes back.
    Failed { id: TaskId, handler: H },
    /// An active handler has something to tell the manager.
    Notify { id: TaskId },
}

impl<H> Event<H> {
    /// The task that the event comes from.
    pub open spec fn origin(self) -> TaskId {
        match self {
            Event::Established { id } => id,
            Event::Error { id } => id,
            Event::Notify { id } => id,
            Event::Failed { id, .. } => id,
        }
    }

    /// Whether the event is the last word of its task: the work failed, or the
    /// handler did.
    pub open spec fn terminal(self) -> bool {
        self is Failed || self is Error
    }

    /// The event by which a task tells how its work came out. Only a failure
    /// before activation hands the handler back.
    pub open spec fn resolved(id: TaskId, handler: H, resolution: Resolution) -> Event<H> {
        match resolution {
            Resolution::Established => Event::Established { id },
            Resolution::Failed => Event::Failed { id, handler },
            Resolution::Error => Event::Error { id },
        }
    }

    /// The identifier of the task that emitted the event.
    pub fn id(&self) -> (id: &TaskId)
        ensures
            *id == self.origin(),
    {
        match self {
            Event::Established { id } => id,
            Event::Error { id } => id,
            Event::Notify { id } => id,
            Event::Failed { id, .. } => id,
        }
    }

    /// Tells whether the task has nothing more to say after this event.
    pub fn is_terminal(&self) -> (terminal: bool)
        ensures
            terminal == self.terminal(),
    {
        match self {
            Event::Failed { .. } => true,
            Event::Error { .. } => true,
            _ => false,
        }
    }

    /// Builds the event for a resolution of the work of task `id`.
    pub fn from_resolution(id: TaskId, handler: H, resolution: Resolution) -> (event: Event<H>)
        ensures
            event == Event::resolved(id, handler, resolution),
            event.origin() == id,
    {
        match resolution {
            Resolution::Established => Event::Established { id },
            Resolution::Failed => Event::Failed { id, handler },
            Resolution::Error => Event::Error { id },
        }
    }
}

} // verus!
