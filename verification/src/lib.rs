//! A pool of background tasks and the manager that owns them.
//!
//! Each task drives one unit of asynchronous work and reports what became of
//! it through a mailbox that all tasks share; the manager addresses a task
//! through a command channel of its own. A task empties its command channel
//! before it offers an event, so that manager and task never block on each
//! other's full channel.

pub mod channel;
pub mod executor;
pub mod manager;
pub mod message;
pub mod phase;
pub mod registry;
pub mod task;

pub use channel::Incoming;
pub use channel::Readiness;
pub use executor::Executor;
pub use manager::Manager;
pub use manager::ManagerView;
pub use manager::NotFound;
pub use message::Command;
pub use message::Event;
pub use message::Resolution;
pub use message::TaskId;
pub use phase::Answer;
pub use phase::Ask;
pub use phase::Phase;
pub use phase::Progress;
pub use phase::State;
pub use registry::Call;
pub use registry::Registry;
pub use registry::TaskState;
pub use task::Task;
