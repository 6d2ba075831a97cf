//! The manager: it owns the registry, hands out identifiers, dispatches each
//! new task, and gathers the events of all tasks from one mailbox.

use fnv::FnvHashMap;
use futures::channel::mpsc::Receiver;
use futures::channel::mpsc::Sender;
use futures::stream::FuturesUnordered;
use futures::task::FutureObj;
use std::future::Future;
use std::task::Context;
use vstd::prelude::*;

use crate::channel::BUFFER_LIMIT;
use crate::channel::channel;
use crate::channel::clone_sender;
use crate::channel::enqueue;
use crate::channel::poll_receiver;
use crate::channel::poll_run_queue;
use crate::channel::queued;
use crate::channel::run_queue;
use crate::channel::run_queue_len;
use crate::channel::start_send;
use crate::channel::Incoming;
use crate::channel::Turn;
use crate::executor::Executor;
use crate::message::Command;
use crate::message::Event;
use crate::message::Resolution;
use crate::message::TaskId;
use crate::registry::count_entries;
use crate::registry::get_entry;
use crate::registry::insert_entry;
use crate::registry::remove_entry;
use crate::registry::Registry;
use crate::registry::TaskInfo;
use crate::registry::TaskState;
use crate::task::into_future;
use crate::task::Task;

verus! {

/// The buffer of the mailbox, unless the manager is made with another.
pub const MAILBOX_BUFFER: usize = 1;

/// The buffer of each command channel, unless the manager is made with
/// another.
pub const COMMAND_BUFFER: usize = 4;

/// The answer to a command for a task that the registry does not hold.
#[derive(Debug, Copy, Clone, PartialEq, Eq, Structural)]
pub struct NotFound;

/// How the tasks of a manager are run.
enum Strategy {
    /// An executor runs each task in the background.
    Pooled(Box<dyn Executor>),
    /// The manager keeps the tasks and polls them whenever it is driven.
    Cooperative(FuturesUnordered<FutureObj<'static, ()>>),
}

/// A manager as a mathematical value.
pub struct ManagerView {
    /// The registry.
    pub registry: Registry,
    /// Whether the manager runs its tasks itself.
    pub cooperative: bool,
    /// The number of tasks that the manager holds to run them itself.
    pub local: nat,
}

/// A manager orchestrates a set of tasks.
#[verifier::reject_recursive_types(I)]
#[verifier::reject_recursive_types(H)]
pub struct Manager<I, H> {
    /// The tasks under management.
    ///
    /// Each `TaskInfo` in `tasks` is linked to a background task via a
    /// channel. Closing that channel (i.e. dropping the sender in the
    /// associated `TaskInfo`) stops the background task.
    tasks: FnvHashMap<usize, TaskInfo<I>>,
    /// Next available identifier for a new task.
    next_task_id: TaskId,
    /// Where new tasks go.
    strategy: Strategy,
    /// Sender distributed to managed tasks for reporting events back to the
    /// manager.
    events_tx: Sender<Event<H>>,
    /// Receiver for events reported from managed tasks.
    events_rx: Receiver<Event<H>>,
    /// The buffer that each new command channel is made with.
    command_buffer: usize,
    /// The buffer that the mailbox was made with.
    mailbox_buffer: usize,
    /// The identifiers of the tasks that went to the executor or into the
    /// run queue, in the order in which they went.
    dispatched: Ghost<Seq<TaskId>>,
    /// The task that the latest `send_command` addressed and the command that
    /// it handed to that task's channel, if it found the task.
    forwarded: Ghost<Option<(TaskId, Command<I>)>>,
    /// What the run queue answered in the latest drive, answer by answer.
    turns: Ghost<Seq<Turn>>,
    /// What the mailbox answered in the latest drive, answer by answer.
    heard: Ghost<Seq<Incoming<Event<H>>>>,
}

/// Whether `turns` are the answers of a run queue that was polled until it
/// answered something other than that a task has finished: every answer but
/// the last is `Finished`, and the last is not.
pub open spec fn polled_out(turns: Seq<Turn>) -> bool {
    &&& turns.len() > 0
    &&& turns.last() != Turn::Finished
    &&& forall|i: int| 0 <= i < turns.len() - 1 ==> turns[i] == Turn::Finished
}

/// Whether `answers` are the answers of a mailbox that was asked until it had
/// no message to give or had given `most`: every answer but the last is a
/// message, and either the last is none and was asked for with fewer than
/// `most` messages in hand, or all `most` answers are messages.
pub open spec fn batch<H>(answers: Seq<Incoming<Event<H>>>, most: nat) -> bool {
    &&& forall|i: int| 0 <= i < answers.len() - 1 ==> answers[i] is Message
    &&& if answers.len() > 0 && !(answers.last() is Message) {
        answers.len() <= most
    } else {
        answers.len() == most
    }
}

/// Whether every key of `part` is a key of `whole` with the same value.
pub open spec fn kept<V>(part: Map<usize, V>, whole: Map<usize, V>) -> bool {
    forall|key: usize| #[trigger]
        part.contains_key(key) ==> whole.contains_key(key) && part[key] == whole[key]
}

/// The events among `answers`, in the order of the answers.
pub open spec fn messages<H>(answers: Seq<Incoming<Event<H>>>) -> Seq<Event<H>>
    decreases answers.len(),
{
    if answers.len() == 0 {
        Seq::empty()
    } else {
        match answers.last() {
            Incoming::Message(event) => messages(answers.drop_last()).push(event),
            _ => messages(answers.drop_last()),
        }
    }
}

impl Strategy {
    spec fn cooperative(self) -> bool {
        self is Cooperative
    }

    spec fn local(self) -> nat {
        match self {
            Strategy::Pooled(_) => 0,
            Strategy::Cooperative(queue) => queued(queue),
        }
    }
}

impl<I, H> View for Manager<I, H> {
    type V = ManagerView;

    closed spec fn view(&self) -> ManagerView {
        ManagerView {
            registry: Registry {
                tasks: self.tasks@.map_values(|info: TaskInfo<I>| info.state),
                next: self.next_task_id.0 as nat,
            },
            cooperative: self.strategy.cooperative(),
            local: self.strategy.local(),
        }
    }
}

impl<I, H> Manager<I, H> {
    /// The invariant of a manager: its registry is well formed, and its
    /// command channels can be made. `new` and `with_buffers` establish it and
    /// every method keeps it, so it holds of every manager there is.
    pub closed spec fn wf(self) -> bool {
        &&& self@.registry.wf()
        &&& self.tasks@.dom().finite()
        &&& self.command_buffer < BUFFER_LIMIT
        &&& self.mailbox_buffer < BUFFER_LIMIT
        &&& self.dispatched@.len() == self.next_task_id.0
        &&& forall|i: int|
            0 <= i < self.dispatched@.len() ==> (#[trigger] self.dispatched@[i]).0 == i
    }

    /// The buffer that the manager makes each command channel with.
    pub closed spec fn command_buffer(self) -> usize {
        self.command_buffer
    }

    /// The buffer that the manager made its mailbox with.
    pub closed spec fn mailbox_buffer(self) -> usize {
        self.mailbox_buffer
    }

    /// The manager's own sender of the mailbox, of which every task gets a
    /// clone.
    pub closed spec fn mailbox_sender(self) -> Sender<Event<H>> {
        self.events_tx
    }

    /// The receiving end of the mailbox.
    pub closed spec fn mailbox_receiver(self) -> Receiver<Event<H>> {
        self.events_rx
    }

    /// The sender that the registry holds for each registered task, by the
    /// number of the task's identifier: the sending end of that task's
    /// command channel.
    pub closed spec fn senders(self) -> Map<usize, Sender<Command<I>>> {
        self.tasks@.map_values(|info: TaskInfo<I>| info.sender)
    }

    /// The identifiers of the tasks that the manager has handed to its
    /// executor or put into its run queue, in the order in which it did.
    pub closed spec fn dispatched(self) -> Seq<TaskId> {
        self.dispatched@
    }

    /// The task that the latest `send_command` addressed and the command that
    /// it handed to that task's channel; none if it found no task.
    pub closed spec fn forwarded(self) -> Option<(TaskId, Command<I>)> {
        self.forwarded@
    }

    /// Whether the manager has what `before` was made with: the buffers, its
    /// sender of the mailbox, and whether it runs its tasks itself.
    pub open spec fn keeps_setup(self, before: Self) -> bool {
        &&& self.command_buffer() == before.command_buffer()
        &&& self.mailbox_buffer() == before.mailbox_buffer()
        &&& self.mailbox_sender() == before.mailbox_sender()
        &&& self@.cooperative == before@.cooperative
    }


    /// The registry holds a sender for each task that it holds, and for no
    /// other.
    pub proof fn senders_cover_registry(self)
        ensures
            self.senders().dom() == self@.registry.tasks.dom(),
    {
        assert(self.senders().dom() =~= self@.registry.tasks.dom());
    }

    /// Dispatch follows the identifiers: the tasks went to the executor, or
    /// into the run queue, one for each identifier handed out and in the
    /// order of the identifiers.
    pub proof fn dispatch_follows_identifiers(self)
        requires
            self.wf(),
        ensures
            self.dispatched().len() == self@.registry.next,
            forall|i: int| 0 <= i < self.dispatched().len() ==> (#[trigger] self.dispatched()[i]).0
                == i,
            forall|i: int, j: int|
                0 <= i < j < self.dispatched().len() ==> (#[trigger] self.dispatched()[i]).0 < (
                #[trigger] self.dispatched()[j]).0,
    {
    }

    /// The answers that the run queue gave in the latest drive, in the order
    /// in which it gave them; none where an executor runs the tasks.
    pub closed spec fn turns(self) -> Seq<Turn> {
        self.turns@
    }

    /// The answers that the mailbox gave in the latest drive, in the order in
    /// which it gave them.
    pub closed spec fn heard(self) -> Seq<Incoming<Event<H>>> {
        self.heard@
    }

    /// Creates a new manager, whose mailbox has a buffer of `MAILBOX_BUFFER`
    /// and whose command channels have one of `COMMAND_BUFFER`. With an
    /// executor the tasks are handed to it; without, the manager runs them
    /// itself, whenever it is driven.
    pub fn new(executor: Option<Box<dyn Executor>>) -> (manager: Self)
        ensures
            manager.wf(),
            manager@.registry == Registry::empty(),
            manager@.cooperative == (executor is None),
            manager@.local == 0,
            manager.command_buffer() == COMMAND_BUFFER,
            manager.mailbox_buffer() == MAILBOX_BUFFER,
            manager.dispatched().len() == 0,
            manager.forwarded() is None,
    {
        Self::with_buffers(executor, MAILBOX_BUFFER, COMMAND_BUFFER)
    }

    /// Creates a new manager whose channels have the given buffers. Each
    /// buffer must be smaller than `usize::MAX / 4`, the most that a channel
    /// can be made with.
    pub fn with_buffers(
        executor: Option<Box<dyn Executor>>,
        mailbox_buffer: usize,
        command_buffer: usize,
    ) -> (manager: Self)
        requires
            mailbox_buffer < BUFFER_LIMIT,
            command_buffer < BUFFER_LIMIT,
        ensures
            manager.wf(),
            manager@.registry == Registry::empty(),
            manager@.cooperative == (executor is None),
            manager@.local == 0,
            manager.command_buffer() == command_buffer,
            manager.mailbox_buffer() == mailbox_buffer,
            manager.dispatched().len() == 0,
            manager.forwarded() is None,
    {
        let (tx, rx) = channel(mailbox_buffer);
        let strategy = match executor {
            Some(executor) => Strategy::Pooled(executor),
            None => Strategy::Cooperative(run_queue()),
        };
        let manager = Manager {
            tasks: FnvHashMap::default(),
            next_task_id: TaskId(0),
            strategy,
            events_tx: tx,
            events_rx: rx,
            command_buffer,
            mailbox_buffer,
            dispatched: Ghost(Seq::empty()),
            forwarded: Ghost(None),
            turns: Ghost(Seq::empty()),
            heard: Ghost(Seq::empty()),
        };
        assert(manager@.registry.tasks =~= Map::empty());
        manager
    }

    /// The state of task `id` as the manager has seen it, if the task is
    /// registered.
    pub fn task_state(&self, id: TaskId) -> (state: Option<TaskState>)
        ensures
            state == (if self@.registry.tasks.contains_key(id.0) {
                Some(self@.registry.tasks[id.0])
            } else {
                None
            }),
    {
        match get_entry(&self.tasks, id.0) {
            Some(info) => Some(info.state),
            None => None,
        }
    }

    /// The number of registered tasks.
    pub fn len(&self) -> (len: usize)
        ensures
            len == self@.registry.tasks.dom().len(),
    {
        assert(self@.registry.tasks.dom() =~= self.tasks@.dom());
        count_entries(&self.tasks)
    }

    /// The identifier that the next task will get.
    pub fn next_id(&self) -> (id: TaskId)
        ensures
            id.0 == self@.registry.next,
    {
        self.next_task_id
    }

    /// Tells whether the manager runs its tasks itself.
    pub fn is_cooperative(&self) -> (cooperative: bool)
        ensures
            cooperative == self@.cooperative,
    {
        match &self.strategy {
            Strategy::Pooled(_) => false,
            Strategy::Cooperative(_) => true,
        }
    }

    /// The number of tasks that the manager holds to run them itself.
    pub fn local_tasks(&self) -> (local: usize)
        ensures
            local == self@.local,
    {
        match &self.strategy {
            Strategy::Pooled(_) => 0,
            Strategy::Cooperative(queue) => run_queue_len(queue),
        }
    }

    /// Takes note of an event from the mailbox: the registry then is what
    /// `Registry::observed` says.
    pub fn observe(&mut self, event: &Event<H>)
        requires
            old(self).wf(),
        ensures
            final(self).wf(),
            final(self)@.registry == old(self)@.registry.observed(*event),
            final(self)@.cooperative == old(self)@.cooperative,
            final(self)@.local == old(self)@.local,
            final(self).keeps_setup(*old(self)),
            kept(final(self).senders(), old(self).senders()),
            final(self).mailbox_receiver() == old(self).mailbox_receiver(),
            final(self).dispatched() == old(self).dispatched(),
            final(self).forwarded() == old(self).forwarded(),
            final(self).turns() == old(self).turns(),
            final(self).heard() == old(self).heard(),
    {
        let key = event.id().0;
        match event {
            Event::Established { .. } => {
                match remove_entry(&mut self.tasks, key) {
                    Some(info) => {
                        insert_entry(
                            &mut self.tasks,
                            key,
                            TaskInfo { sender: info.sender, state: TaskState::Established },
                        );
                    },
                    None => {},
                }
            },
            Event::Failed { .. } => {
                remove_entry(&mut self.tasks, key);
            },
            Event::Error { .. } => {
                remove_entry(&mut self.tasks, key);
            },
            Event::Notify { .. } => {},
        }
        assert(final(self)@.registry.tasks =~= old(self)@.registry.observed(*event).tasks);
    }

    /// Sends `command` to task `id`, if the task is registered: the command is
    /// handed to the task's channel, and `Ok` says that the task was found,
    /// not that the channel took the command.
    ///
    /// A task must not be addressed before the manager has seen it
    /// established.
    pub fn send_command(&mut self, id: TaskId, command: Command<I>) -> (sent: Result<(), NotFound>)
        requires
            old(self).wf(),
            old(self)@.registry.tasks.contains_key(id.0) ==> old(self)@.registry.tasks[id.0]
                == TaskState::Established,
        ensures
            final(self).wf(),
            final(self)@ == old(self)@,
            final(self).keeps_setup(*old(self)),
            final(self).senders().remove(id.0) == old(self).senders().remove(id.0),
            final(self).mailbox_receiver() == old(self).mailbox_receiver(),
            final(self).dispatched() == old(self).dispatched(),
            sent is Ok <==> old(self)@.registry.tasks.contains_key(id.0),
            final(self).forwarded() == (if old(self)@.registry.tasks.contains_key(id.0) {
                Some((id, command))
            } else {
                None
            }),
    {
        match remove_entry(&mut self.tasks, id.0) {
            Some(info) => {
                let mut info = info;
                self.forwarded = Ghost(Some((id, command)));
                start_send(&mut info.sender, command);
                insert_entry(&mut self.tasks, id.0, info);
                assert(final(self)@.registry.tasks =~= old(self)@.registry.tasks);
                Ok(())
            },
            None => {
                self.forwarded = Ghost(None);
                assert(final(self)@.registry.tasks =~= old(self)@.registry.tasks);
                Err(NotFound)
            },
        }
    }

    /// Closes the command channel of task `id` by dropping its sender, which
    /// is the only one. The task leaves the registry; it ends in its next
    /// cycle without another event. Returns whether the task was registered.
    pub fn cancel(&mut self, id: TaskId) -> (found: bool)
        requires
            old(self).wf(),
        ensures
            final(self).wf(),
            final(self)@.registry == old(self)@.registry.cancelled(id),
            final(self)@.cooperative == old(self)@.cooperative,
            final(self)@.local == old(self)@.local,
            final(self).keeps_setup(*old(self)),
            kept(final(self).senders(), old(self).senders()),
            final(self).mailbox_receiver() == old(self).mailbox_receiver(),
            final(self).dispatched() == old(self).dispatched(),
            found == old(self)@.registry.tasks.contains_key(id.0),
    {
        let removed = remove_entry(&mut self.tasks, id.0);
        assert(final(self)@.registry.tasks =~= old(self)@.registry.cancelled(id).tasks);
        removed.is_some()
    }
}

/// Polls a run queue until it answers something other than that a task has
/// finished. Returns the answers. Each but the last stands for one task that
/// ran to its end and left the queue; the last tells whether tasks are left.
fn run_local(queue: &mut FuturesUnordered<FutureObj<'static, ()>>, cx: &mut Context<'_>) -> (turns:
    Ghost<Seq<Turn>>)
    ensures
        polled_out(turns@),
        queued(*final(queue)) == queued(*old(queue)) - (turns@.len() - 1),
        turns@.last() == Turn::Vacant ==> queued(*final(queue)) == 0,
{
    let ghost mut turns: Seq<Turn> = Seq::empty();
    loop
        invariant
            forall|i: int| 0 <= i < turns.len() ==> turns[i] == Turn::Finished,
            queued(*queue) == queued(*old(queue)) - turns.len(),
        decreases queued(*queue),
    {
        let turn = poll_run_queue(queue, cx);
        proof {
            turns = turns.push(turn);
        }
        match turn {
            Turn::Finished => {},
            _ => {
                return Ghost(turns);
            },
        }
    }
}

impl<I, H> Manager<I, H> {
    /// Drives the manager once. Without an executor, the tasks that the
    /// manager holds are advanced first. Then the events that the mailbox has
    /// ready are taken in the order in which they were sent, each is noted in
    /// the registry as `observe` does, and all are returned in that order.
    ///
    /// A task emits one event at most, so one call returns no more events
    /// than tasks were ever added; what is then left in the mailbox, if
    /// anything, is for the next call.
    ///
    /// What the outside answers decides the outcome. Without an executor the
    /// run queue is polled until it answers something other than that a task
    /// has finished, and the manager holds one task less for each that has.
    /// The mailbox is asked until it has no message to give, or as many were
    /// taken as tasks were ever added; the events returned are the messages
    /// that it gave, in the order in which it gave them.
    pub fn drive(&mut self, cx: &mut Context<'_>) -> (events: Vec<Event<H>>)
        requires
            old(self).wf(),
        ensures
            final(self).wf(),
            final(self)@.registry == old(self)@.registry.observed_all(events@),
            final(self)@.cooperative == old(self)@.cooperative,
            final(self)@.local <= old(self)@.local,
            final(self).keeps_setup(*old(self)),
            kept(final(self).senders(), old(self).senders()),
            final(self).dispatched() == old(self).dispatched(),
            final(self).forwarded() == old(self).forwarded(),
            events@.len() <= old(self)@.registry.next,
            batch(final(self).heard(), old(self)@.registry.next),
            events@ == messages(final(self).heard()),
            old(self)@.cooperative ==> polled_out(final(self).turns()) && final(self)@.local
                == old(self)@.local - (final(self).turns().len() - 1) && (final(self).turns().last()
                == Turn::Vacant ==> final(self)@.local == 0),
            !old(self)@.cooperative ==> final(self).turns().len() == 0 && final(self)@.local
                == old(self)@.local,
    {
        let ghost first = self.senders();
        let turns = match &mut self.strategy {
            Strategy::Pooled(_) => Ghost(Seq::empty()),
            Strategy::Cooperative(queue) => run_local(queue, cx),
        };
        self.turns = turns;
        assert(self.senders() == first);
        let ghost ran = self@.local;
        let ghost mut heard: Seq<Incoming<Event<H>>> = Seq::empty();
        let most = self.next_task_id.0;
        let mut events: Vec<Event<H>> = Vec::new();
        while events.len() < most
            invariant_except_break
                heard.len() == events@.len(),
                forall|i: int| 0 <= i < heard.len() ==> heard[i] is Message,
            invariant
                self.wf(),
                self@.registry == old(self)@.registry.observed_all(events@),
                self@.cooperative == old(self)@.cooperative,
                self@.local == ran,
                self.turns() == turns@,
                self.keeps_setup(*old(self)),
                first == old(self).senders(),
                kept(self.senders(), first),
                self.dispatched() == old(self).dispatched(),
                self.forwarded() == old(self).forwarded(),
                most == old(self)@.registry.next,
                events@.len() <= most,
                events@ == messages(heard),
            ensures
                batch(heard, most as nat),
            decreases most - events.len(),
        {
            let ghost seen = events@;
            let ghost so_far = heard;
            let incoming = poll_receiver(&mut self.events_rx, cx);
            proof {
                heard = so_far.push(incoming);
                assert(heard.drop_last() =~= so_far);
            }
            match incoming {
                Incoming::Message(event) => {
                    let ghost held = self.senders();
                    self.observe(&event);
                    assert(kept(self.senders(), first)) by {
                        let now = self.senders();
                        assert(kept(now, held));
                        assert(kept(held, first));
                        assert forall|key: usize| #[trigger]
                            now.contains_key(key) implies first.contains_key(key) && now[key]
                            == first[key] by {
                            assert(held.contains_key(key));
                        }
                    }
                    events.push(event);
                    assert(events@.drop_last() =~= seen);
                },
                _ => {
                    break ;
                },
            }
        }
        self.heard = Ghost(heard);
        events
    }

    /// The registered tasks with their states as the manager has seen them,
    /// by increasing identifier.
    pub fn tasks(&self) -> (list: Vec<(TaskId, TaskState)>)
        requires
            self.wf(),
        ensures
            forall|i: int, j: int|
                0 <= i < j < list@.len() ==> (#[trigger] list@[i]).0.0 < (#[trigger] list@[j]).0.0,
            forall|i: int|
                0 <= i < list@.len() ==> self@.registry.tasks.contains_key(
                    (#[trigger] list@[i]).0.0,
                ) && self@.registry.tasks[list@[i].0.0] == list@[i].1,
            forall|key: usize| #[trigger]
                self@.registry.tasks.contains_key(key) ==> exists|i: int|
                    0 <= i < list@.len() && (#[trigger] list@[i]).0.0 == key,
    {
        let mut list: Vec<(TaskId, TaskState)> = Vec::new();
        let mut key: usize = 0;
        while key < self.next_task_id.0
            invariant
                self.wf(),
                key <= self.next_task_id.0,
                forall|i: int| 0 <= i < list@.len() ==> (#[trigger] list@[i]).0.0 < key,
                forall|i: int, j: int|
                    0 <= i < j < list@.len() ==> (#[trigger] list@[i]).0.0 < (
                    #[trigger] list@[j]).0.0,
                forall|i: int|
                    0 <= i < list@.len() ==> self@.registry.tasks.contains_key(
                        (#[trigger] list@[i]).0.0,
                    ) && self@.registry.tasks[list@[i].0.0] == list@[i].1,
                forall|held: usize| #[trigger]
                    self@.registry.tasks.contains_key(held) && held < key ==> exists|i: int|
                        0 <= i < list@.len() && (#[trigger] list@[i]).0.0 == held,
            decreases self.next_task_id.0 - key,
        {
            let ghost before = list@;
            match get_entry(&self.tasks, key) {
                Some(info) => {
                    list.push((TaskId(key), info.state));
                    assert(list@[before.len() as int].0.0 == key);
                },
                None => {},
            }
            assert forall|held: usize| #[trigger]
                self@.registry.tasks.contains_key(held) && held < key + 1 implies exists|i: int|
                0 <= i < list@.len() && (#[trigger] list@[i]).0.0 == held by {
                if held < key {
                    let i = choose|i: int| 0 <= i < before.len() && (#[trigger] before[i]).0.0 == held;
                    assert(list@[i] == before[i]);
                } else {
                    assert(list@[before.len() as int].0.0 == held);
                }
            }
            key = key + 1;
        }
        list
    }
}

impl<I: Send + 'static, H: Send + 'static> Manager<I, H> {
    /// Adds to the manager a future, with the handler that is to serve it
    /// once it has resolved. A task is dedicated to the future: it gets the
    /// next identifier, a command channel of its own and a sender of the
    /// mailbox, is registered as pending, and goes to the executor or, without
    /// one, into the set of tasks that the manager runs itself. Returns the
    /// identifier of the task.
    pub fn add_pending<F>(&mut self, future: F, handler: H) -> (id: TaskId) where
        F: Future<Output = Resolution> + Send + 'static,

        requires
            old(self).wf(),
            old(self)@.registry.next < usize::MAX,
        ensures
            final(self).wf(),
            id.0 == old(self)@.registry.next,
            final(self)@.registry == old(self)@.registry.added(),
            final(self)@.cooperative == old(self)@.cooperative,
            final(self)@.local == old(self)@.local + (if old(self)@.cooperative {
                1nat
            } else {
                0nat
            }),
            final(self)@.registry.tasks.dom().len() == old(self)@.registry.tasks.dom().len() + 1,
            final(self).keeps_setup(*old(self)),
            kept(old(self).senders(), final(self).senders()),
            final(self).mailbox_receiver() == old(self).mailbox_receiver(),
            final(self).dispatched() == old(self).dispatched().push(id),
            final(self).forwarded() == old(self).forwarded(),
    {
        let task_id = self.next_task_id;
        self.next_task_id = TaskId(task_id.0 + 1);

        let (tx, rx) = channel(self.command_buffer);
        insert_entry(&mut self.tasks, task_id.0, TaskInfo { sender: tx, state: TaskState::Pending });
        assert(self@.registry.tasks =~= old(self)@.registry.added().tasks);

        // The channel holds its buffer and one command more for its one
        // sender; a cycle of the task may take as many.
        let task = Task::pending(task_id, clone_sender(&self.events_tx), rx, future, handler)
            .with_limit(self.command_buffer + 1);
        let future = into_future(task);
        self.dispatched = Ghost(self.dispatched@.push(task_id));
        match &mut self.strategy {
            Strategy::Pooled(executor) => executor.exec(future),
            Strategy::Cooperative(queue) => enqueue(queue, future),
        }
        task_id
    }
}

} // verus!
