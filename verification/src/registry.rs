//! What a manager knows of its tasks: the registry, as a mathematical model
//! and as the hash map that holds it.

use fnv::FnvHashMap;
use fnv::FnvHasher;
use futures::channel::mpsc::Sender;
use std::hash::BuildHasherDefault;
use vstd::prelude::*;

use crate::message::Command;
use crate::message::Event;
use crate::message::TaskId;

verus! {

/// Internal state of a running task as seen by the manager.
#[derive(Debug, Copy, Clone, PartialEq, Eq, Structural)]
pub enum TaskState {
    /// The work is pending, as far as the manager has seen.
    Pending,
    /// The manager has seen the task's `Established` event.
    Established,
}

/// What the manager keeps of one task.
#[verifier::reject_recursive_types(I)]
pub(crate) struct TaskInfo<I> {
    /// Channel endpoint to send messages to the task.
    pub(crate) sender: Sender<Command<I>>,
    /// The state of the task as seen by the manager.
    pub(crate) state: TaskState,
}

/// The registry of a manager as a mathematical value: the state of each
/// registered task by the number of its identifier, and the number that the
/// next identifier will have.
pub struct Registry {
    pub tasks: Map<usize, TaskState>,
    pub next: nat,
}

/// One call on a manager, as far as the registry goes.
pub enum Call<H> {
    /// A task is added.
    Add,
    /// A command is sent to a task.
    Send(TaskId),
    /// The command channel of a task is closed.
    Cancel(TaskId),
    /// An event from the mailbox is seen.
    Observe(Event<H>),
}

impl Registry {
    /// Every registered identifier has been handed out, and the next one
    /// fits the machine.
    pub open spec fn wf(self) -> bool {
        &&& self.next <= usize::MAX
        &&& self.tasks.dom().finite()
        &&& forall|key: usize| self.tasks.contains_key(key) ==> (key as nat) < self.next
    }

    /// The registry without tasks, before any identifier was handed out.
    pub open spec fn empty() -> Registry {
        Registry { tasks: Map::empty(), next: 0 }
    }

    /// The registry after one more task was added: the task has the next
    /// identifier and is pending.
    pub open spec fn added(self) -> Registry {
        Registry {
            tasks: self.tasks.insert(self.next as usize, TaskState::Pending),
            next: self.next + 1,
        }
    }

    /// The registry after the command channel of task `id` was closed. The
    /// manager itself is the witness of that closure, so the task leaves the
    /// registry with it.
    pub open spec fn cancelled(self, id: TaskId) -> Registry {
        Registry { tasks: self.tasks.remove(id.0), next: self.next }
    }

    /// The registry after `event` was seen. `Established` marks a registered
    /// task as established; `Failed` and `Error` are the last word of a task
    /// and remove it; `Notify` changes nothing. An event of a task that is not
    /// registered changes nothing.
    pub open spec fn observed<H>(self, event: Event<H>) -> Registry {
        let key = event.origin().0;
        match event {
            Event::Established { .. } => if self.tasks.contains_key(key) {
                Registry { tasks: self.tasks.insert(key, TaskState::Established), next: self.next }
            } else {
                self
            },
            Event::Failed { .. } => Registry { tasks: self.tasks.remove(key), next: self.next },
            Event::Error { .. } => Registry { tasks: self.tasks.remove(key), next: self.next },
            Event::Notify { .. } => self,
        }
    }

    /// The registry after the events of `events` were seen in turn.
    pub open spec fn observed_all<H>(self, events: Seq<Event<H>>) -> Registry
        decreases events.len(),
    {
        if events.len() == 0 {
            self
        } else {
            self.observed_all(events.drop_last()).observed(events.last())
        }
    }

    /// The registry after one call.
    pub open spec fn called<H>(self, call: Call<H>) -> Registry {
        match call {
            Call::Add => self.added(),
            Call::Send(_) => self,
            Call::Cancel(id) => self.cancelled(id),
            Call::Observe(event) => self.observed(event),
        }
    }

    /// The registry after the calls of `calls` in turn.
    pub open spec fn ran<H>(self, calls: Seq<Call<H>>) -> Registry
        decreases calls.len(),
    {
        if calls.len() == 0 {
            self
        } else {
            self.ran(calls.drop_last()).called(calls.last())
        }
    }

    /// The numbers of the identifiers that the `Add` calls among `calls`
    /// return, in the order of the calls.
    pub open spec fn issued<H>(self, calls: Seq<Call<H>>) -> Seq<nat>
        decreases calls.len(),
    {
        if calls.len() == 0 {
            Seq::empty()
        } else if calls.last() is Add {
            self.issued(calls.drop_last()).push(self.ran(calls.drop_last()).next)
        } else {
            self.issued(calls.drop_last())
        }
    }
}

impl Registry {
    /// The registry after `count` tasks were added.
    pub open spec fn spawned(self, count: nat) -> Registry
        decreases count,
    {
        if count == 0 {
            self
        } else {
            self.spawned((count - 1) as nat).added()
        }
    }

    /// The registry after the command channels of the `count` tasks numbered
    /// from `first` on were closed, in the order of their numbers.
    pub open spec fn closed(self, first: nat, count: nat) -> Registry
        decreases count,
    {
        if count == 0 {
            self
        } else {
            self.closed(first, (count - 1) as nat).cancelled(TaskId((first + count - 1) as usize))
        }
    }

    /// Adding `count` tasks hands out the next `count` numbers, registers
    /// each of them, and leaves what was registered as it was.
    pub proof fn spawned_registers(self, count: nat)
        requires
            self.wf(),
            self.next + count <= usize::MAX,
        ensures
            self.spawned(count).wf(),
            self.spawned(count).next == self.next + count,
            forall|key: usize| #[trigger]
                self.spawned(count).tasks.contains_key(key) <==> (self.tasks.contains_key(key)
                    || self.next <= key < self.next + count),
            forall|key: usize|
                self.tasks.contains_key(key) ==> #[trigger] self.spawned(count).tasks[key]
                    == self.tasks[key],
            forall|key: usize|
                self.next <= key < self.next + count ==> #[trigger] self.spawned(count).tasks[key]
                    == TaskState::Pending,
        decreases count,
    {
        if count > 0 {
            let before = self.spawned((count - 1) as nat);
            let added = (self.next + count - 1) as usize;
            self.spawned_registers((count - 1) as nat);
            assert(before.next as usize == added);
            assert(self.spawned(count).tasks == before.tasks.insert(added, TaskState::Pending));
            assert forall|key: usize| #[trigger]
                self.spawned(count).tasks.contains_key(key) <==> (self.tasks.contains_key(key)
                    || self.next <= key < self.next + count) by {
                assert(self.spawned(count).tasks.contains_key(key) <==> (key == added
                    || before.tasks.contains_key(key)));
            }
        }
    }

    /// Closing the command channels of the tasks numbered from `first` on
    /// removes those tasks and no others.
    pub proof fn closed_removes(self, first: nat, count: nat)
        requires
            first + count <= usize::MAX,
        ensures
            self.closed(first, count).next == self.next,
            forall|key: usize| #[trigger]
                self.closed(first, count).tasks.contains_key(key) <==> (self.tasks.contains_key(
                    key,
                ) && !(first <= key < first + count)),
            forall|key: usize|
                self.closed(first, count).tasks.contains_key(key) ==> #[trigger] self.closed(
                    first,
                    count,
                ).tasks[key] == self.tasks[key],
        decreases count,
    {
        if count > 0 {
            let before = self.closed(first, (count - 1) as nat);
            let removed = (first + count - 1) as usize;
            self.closed_removes(first, (count - 1) as nat);
            assert(self.closed(first, count).tasks == before.tasks.remove(removed));
            assert forall|key: usize| #[trigger]
                self.closed(first, count).tasks.contains_key(key) <==> (self.tasks.contains_key(
                    key,
                ) && !(first <= key < first + count)) by {
                assert(self.closed(first, count).tasks.contains_key(key) <==> (key != removed
                    && before.tasks.contains_key(key)));
            }
            assert forall|key: usize|
                self.closed(first, count).tasks.contains_key(key) implies #[trigger] self.closed(
                first,
                count,
            ).tasks[key] == self.tasks[key] by {
                assert(before.tasks.contains_key(key));
                assert(before.tasks[key] == self.tasks[key]);
            }
        }
    }
}

/// Identifiers are unique and strictly increasing. Whatever calls are made on
/// a manager, and in whatever order, the identifiers that its `Add` calls
/// return are numbered from the registry's next number on, one after the
/// other: each is greater than all that were returned before it, so none is
/// handed out twice, whether or not its task is still registered. From the
/// empty registry the first addition returns 0, the next 1, and so on. As
/// long as the counter fits the machine, these numbers are the identifiers
/// themselves.
pub proof fn identifiers_increase<H>(registry: Registry, calls: Seq<Call<H>>)
    ensures
        registry.ran(calls).next == registry.next + registry.issued(calls).len(),
        forall|i: int|
            0 <= i < registry.issued(calls).len() ==> #[trigger] registry.issued(calls)[i]
                == registry.next + i,
        forall|i: int, j: int|
            0 <= i < j < registry.issued(calls).len() ==> #[trigger] registry.issued(calls)[i]
                < #[trigger] registry.issued(calls)[j],
        registry.ran(calls).next <= usize::MAX ==> forall|i: int, j: int|
            0 <= i < j < registry.issued(calls).len() ==> TaskId(
                #[trigger] registry.issued(calls)[i] as usize,
            ).0 < TaskId(#[trigger] registry.issued(calls)[j] as usize).0,
    decreases calls.len(),
{
    if calls.len() > 0 {
        identifiers_increase(registry, calls.drop_last());
    }
}

/// Additions fill the registry. After `count` additions to the empty
/// registry and nothing else, the registry holds exactly the identifiers from
/// 0 up to `count`, each of them pending, and the next identifier is `count`.
pub proof fn additions_fill_registry(count: nat)
    requires
        count <= usize::MAX,
    ensures
        Registry::empty().spawned(count).next == count,
        forall|key: usize| #[trigger]
            Registry::empty().spawned(count).tasks.contains_key(key) <==> key < count,
        forall|key: usize|
            key < count ==> #[trigger] Registry::empty().spawned(count).tasks[key]
                == TaskState::Pending,
{
    Registry::empty().spawned_registers(count);
}

/// Spawning and closing. When `count` tasks are added to a registry and the
/// command channel of each is then closed, every closure finds its task
/// registered, so the manager sees `count` tasks end, and afterwards the
/// registry holds what it held before the first was added: no entry leaks.
pub proof fn spawn_then_close_leaves_nothing(registry: Registry, count: nat)
    requires
        registry.wf(),
        registry.next + count <= usize::MAX,
    ensures
        forall|done: nat|
            done < count ==> #[trigger] registry.spawned(count).closed(
                registry.next,
                done,
            ).tasks.contains_key((registry.next + done) as usize),
        registry.spawned(count).closed(registry.next, count).tasks == registry.tasks,
        registry.spawned(count).closed(registry.next, count).next == registry.next + count,
{
    let spawned = registry.spawned(count);
    registry.spawned_registers(count);
    assert forall|done: nat| done < count implies #[trigger] spawned.closed(
        registry.next,
        done,
    ).tasks.contains_key((registry.next + done) as usize) by {
        spawned.closed_removes(registry.next, done);
        let key = (registry.next + done) as usize;
        assert(spawned.tasks.contains_key(key));
    }
    spawned.closed_removes(registry.next, count);
    assert(spawned.closed(registry.next, count).tasks =~= registry.tasks);
}

/// `fnv::FnvHasher`, the hasher of the registry's map.
#[verifier::external_type_specification]
#[verifier::external_body]
pub struct ExFnvHasher(FnvHasher);

/// `std::hash::BuildHasherDefault`, which makes a hasher by `Default`.
#[verifier::external_type_specification]
#[verifier::external_body]
#[verifier::reject_recursive_types(H)]
pub struct ExBuildHasherDefault<H>(BuildHasherDefault<H>);

/// `HashMap::insert` on an `fnv::FnvHashMap` with integer keys: the map then
/// holds `value` under `key`, and what it held there before comes back.
#[verifier::external_body]
pub(crate) fn insert_entry<V>(map: &mut FnvHashMap<usize, V>, key: usize, value: V) -> (before:
    Option<V>)
    ensures
        final(map)@ == old(map)@.insert(key, value),
        before == (if old(map)@.contains_key(key) {
            Some(old(map)@[key])
        } else {
            None::<V>
        }),
{
    map.insert(key, value)
}

/// `HashMap::remove` on an `fnv::FnvHashMap` with integer keys: the map then
/// holds nothing under `key`, and what it held there comes back.
#[verifier::external_body]
pub(crate) fn remove_entry<V>(map: &mut FnvHashMap<usize, V>, key: usize) -> (before: Option<V>)
    ensures
        final(map)@ == old(map)@.remove(key),
        before == (if old(map)@.contains_key(key) {
            Some(old(map)@[key])
        } else {
            None::<V>
        }),
{
    map.remove(&key)
}

/// `HashMap::get` on an `fnv::FnvHashMap` with integer keys: what the map
/// holds under `key`, if anything.
#[verifier::external_body]
pub(crate) fn get_entry<V>(map: &FnvHashMap<usize, V>, key: usize) -> (held: Option<&V>)
    ensures
        held == (if map@.contains_key(key) {
            Some(&map@[key])
        } else {
            None::<&V>
        }),
{
    map.get(&key)
}

/// `HashMap::len` on an `fnv::FnvHashMap` with integer keys: the number of
/// keys.
#[verifier::external_body]
pub(crate) fn count_entries<V>(map: &FnvHashMap<usize, V>) -> (count: usize)
    ensures
        count == map@.dom().len(),
{
    map.len()
}

} // verus!
