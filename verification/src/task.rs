//! A task: one unit of work with its two channel ends, driven cycle by cycle.

use futures::channel::mpsc::Receiver;
use futures::channel::mpsc::Sender;
use futures::stream::Fuse;
use futures::task::FutureObj;
use std::future::Future;
use std::pin::Pin;
use std::task::Context;
use std::task::Poll;
use vstd::prelude::*;

use crate::channel::fuse;
use crate::channel::pin;
use crate::channel::poll_fused;
use crate::channel::poll_ready;
use crate::channel::poll_work;
use crate::channel::start_send;
use crate::message::Command;
use crate::message::Event;
use crate::message::Resolution;
use crate::message::TaskId;
use crate::phase::Answer;
use crate::phase::Ask;
use crate::phase::Phase;
use crate::phase::Progress;
use crate::phase::State;

verus! {

/// The number of commands that one cycle of a task may take unless the task
/// is told otherwise: more than any channel holds, so that a cycle takes all
/// that is buffered, whatever the channel.
pub const DRAIN_LIMIT: usize = usize::MAX;

/// One unit of work, bound to the mailbox of its manager and to the command
/// channel by which the manager addresses it.
#[verifier::reject_recursive_types(I)]
#[verifier::reject_recursive_types(H)]
#[verifier::reject_recursive_types(F)]
pub struct Task<I, H, F> {
    /// The identifier that the task reports under.
    id: TaskId,
    /// Sender to emit events to the manager.
    events: Sender<Event<H>>,
    /// Receiver for commands sent by the manager.
    commands: Fuse<Receiver<Command<I>>>,
    /// The state in which the task rests between two cycles.
    state: State<H, F>,
    /// The number of commands that one cycle may take.
    limit: usize,
    /// What the outside answered in the latest cycle, answer by answer.
    heard: Ghost<Seq<Answer<I, F>>>,
    /// The event that the latest cycle handed to the mailbox, if any.
    sent: Ghost<Option<Event<H>>>,
    /// Whether a command has reached the task while its work was pending.
    violated: bool,
}

impl<I, H, F> Task<I, H, F> {
    /// The identifier of the task.
    pub closed spec fn ident(self) -> TaskId {
        self.id
    }

    /// The state in which the task rests.
    pub closed spec fn rests(self) -> State<H, F> {
        self.state
    }

    /// The number of commands that one cycle of the task may take.
    pub closed spec fn drains(self) -> usize {
        self.limit
    }

    /// The answers that the task got from its command channel, its work and
    /// the mailbox in its latest cycle, in the order in which it got them.
    pub closed spec fn heard(self) -> Seq<Answer<I, F>> {
        self.heard@
    }

    /// The event that the task handed to the mailbox in its latest cycle, if
    /// any.
    pub closed spec fn sent(self) -> Option<Event<H>> {
        self.sent@
    }

    /// Whether a command has reached the task while its work was pending, in
    /// any of its cycles.
    pub closed spec fn violated(self) -> bool {
        self.violated
    }

    /// The phase in which the next cycle of the task begins.
    pub open spec fn begins(self) -> Phase<H, F> {
        self.rests().begins(self.drains())
    }

    /// A task for `future`, pending. It reports to `events` as task `id`,
    /// listens to `commands`, and carries `handler` until the work resolves.
    pub fn pending(
        id: TaskId,
        events: Sender<Event<H>>,
        commands: Receiver<Command<I>>,
        future: F,
        handler: H,
    ) -> (task: Self)
        ensures
            task.ident() == id,
            task.drains() == DRAIN_LIMIT,
            task.rests() matches State::Pending { handler: carried, .. } && carried == handler,
            task.heard() == Seq::<Answer<I, F>>::empty(),
            task.sent() is None,
            !task.violated(),
    {
        Task {
            id,
            events,
            commands: fuse(commands),
            state: State::Pending { work: pin(future), handler },
            limit: DRAIN_LIMIT,
            heard: Ghost(Seq::empty()),
            sent: Ghost(None),
            violated: false,
        }
    }

    /// The same task with another number of commands that one cycle may take.
    /// A channel never buffers more than its capacity, so with a limit of the
    /// capacity or more a cycle takes all that was buffered when it began,
    /// and yields only on a command that came in meanwhile.
    pub fn with_limit(self, limit: usize) -> (task: Self)
        ensures
            task.ident() == self.ident(),
            task.rests() == self.rests(),
            task.heard() == self.heard(),
            task.sent() == self.sent(),
            task.violated() == self.violated(),
            task.drains() == limit,
    {
        Task {
            id: self.id,
            events: self.events,
            commands: self.commands,
            state: self.state,
            limit,
            heard: self.heard,
            sent: self.sent,
            violated: self.violated,
        }
    }

    /// The identifier of the task.
    pub fn id(&self) -> (id: TaskId)
        ensures
            id == self.ident(),
    {
        self.id
    }

    /// The state in which the task rests.
    pub fn state(&self) -> (state: &State<H, F>)
        ensures
            *state == self.rests(),
    {
        &self.state
    }

    /// Tells whether the task has finished.
    pub fn is_done(&self) -> (done: bool)
        ensures
            done == (self.rests() is Done),
    {
        self.state.is_done()
    }

    /// Tells whether a command has reached the task while its work was
    /// pending. Such a task is done; whoever ran it can tell from here that
    /// it did not end in order.
    pub fn is_violated(&self) -> (violated: bool)
        ensures
            violated == self.violated(),
    {
        self.violated
    }
}

impl<I, H, F: Future<Output = Resolution>> Task<I, H, F> {
    /// One drive cycle, on a task in any state. A task that is done stays so
    /// and asks nothing.
    fn cycle(&mut self, cx: &mut Context<'_>) -> (progress: Progress)
        ensures
            final(self).ident() == old(self).ident(),
            final(self).drains() == old(self).drains(),
            old(self).begins().hears(old(self).ident(), old(self).drains(), final(self).heard()),
            old(self).begins().run(old(self).ident(), old(self).drains(), final(self).heard())
                == (Phase::Rest { state: final(self).rests(), progress }),
            final(self).sent() == old(self).begins().delivers(
                old(self).ident(),
                old(self).drains(),
                final(self).heard(),
            ),
            final(self).violated() == (old(self).violated() || progress == Progress::Violated),
            !(old(self).rests() is Done) ==> old(self).rests().leads_to(
                old(self).ident(),
                final(self).rests(),
                progress,
            ),
    {
        let mut state = State::Done;
        std::mem::swap(&mut self.state, &mut state);
        let ghost start = state;
        let ghost begin = state.begins(self.limit);
        let ghost mut heard: Seq<Answer<I, F>> = Seq::empty();
        let ghost mut sent: Option<Event<H>> = None;
        let mut phase = state.begin(self.limit);
        loop
            invariant
                self.id == old(self).id,
                self.limit == old(self).limit,
                self.violated == old(self).violated,
                start == old(self).state,
                begin == start.begins(self.limit),
                begin.hears(self.id, self.limit, heard),
                phase == begin.run(self.id, self.limit, heard),
                sent == begin.delivers(self.id, self.limit, heard),
                !(start is Done) ==> start.passes(self.id, phase),
            decreases phase.rank(), phase.budget(),
        {
            let ghost so_far = heard;
            match phase.ask() {
                Ask::Commands => {
                    let reply = poll_fused(&mut self.commands, cx);
                    proof {
                        heard = so_far.push(Answer::Command(reply));
                        assert(heard.drop_last() =~= so_far);
                    }
                    phase = phase.on_command(reply);
                },
                Ask::Work => {
                    match phase.release() {
                        Some((work, handler)) => {
                            let advanced = poll_work(work, cx);
                            proof {
                                heard = so_far.push(Answer::Work(advanced));
                                assert(heard.drop_last() =~= so_far);
                            }
                            phase = Phase::on_work(self.id, handler, self.limit, advanced);
                        },
                        None => {
                            phase = Phase::Rest {
                                state: State::Done,
                                progress: Progress::Finished,
                            };
                        },
                    }
                },
                Ask::Mailbox => {
                    let readiness = poll_ready(&mut self.events, cx);
                    proof {
                        heard = so_far.push(Answer::Mailbox(readiness));
                        assert(heard.drop_last() =~= so_far);
                    }
                    let (next, outgoing) = phase.on_mailbox(readiness);
                    proof {
                        sent = outgoing;
                    }
                    if let Some(event) = outgoing {
                        // The mailbox said that it takes the event, so the
                        // send is taken as done.
                        start_send(&mut self.events, event);
                    }
                    phase = next;
                },
                Ask::Nothing => {
                    match phase.rest() {
                        Some((state, progress)) => {
                            self.state = state;
                            self.heard = Ghost(heard);
                            self.sent = Ghost(sent);
                            if progress == Progress::Violated {
                                self.violated = true;
                            }
                            if progress == Progress::Yielded {
                                cx.waker().wake_by_ref();
                            }
                            return progress;
                        },
                        None => {
                            return Progress::Finished;
                        },
                    }
                },
            }
        }
    }

    /// Drives the task through one cycle.
    ///
    /// The cycle asks the command channel first. A closed channel ends the
    /// task at once. Pending work is then advanced; when it resolves, its event
    /// is queued. A queued event is offered to the mailbox only after the
    /// command channel was found empty in the same cycle, and stays queued
    /// while the mailbox is full.
    ///
    /// What the outside answers decides the outcome: the answers of the cycle
    /// are a run of the task's phases from the state in which the cycle found
    /// the task, and that run ends at rest, in the state that `poll` leaves
    /// and with the progress that it returns. The event that the cycle handed
    /// to the mailbox, if any, is the one that this run delivers.
    ///
    /// A task that is done must not be polled.
    pub fn poll(&mut self, cx: &mut Context<'_>) -> (progress: Progress)
        requires
            !(old(self).rests() is Done),
        ensures
            final(self).ident() == old(self).ident(),
            final(self).drains() == old(self).drains(),
            old(self).begins().hears(old(self).ident(), old(self).drains(), final(self).heard()),
            old(self).begins().run(old(self).ident(), old(self).drains(), final(self).heard())
                == (Phase::Rest { state: final(self).rests(), progress }),
            final(self).sent() == old(self).begins().delivers(
                old(self).ident(),
                old(self).drains(),
                final(self).heard(),
            ),
            final(self).violated() == (old(self).violated() || progress == Progress::Violated),
            old(self).rests().leads_to(old(self).ident(), final(self).rests(), progress),
    {
        self.cycle(cx)
    }

    /// Drives the task through one cycle as an executor does, which polls
    /// until it is told `Ready`: the answer is `Ready` when the cycle leaves
    /// the task done, and `Pending` when not. A task that ends on a command
    /// that reached it while its work was pending is marked as violated.
    ///
    /// A task that is done must not be driven.
    pub fn advance(&mut self, cx: &mut Context<'_>) -> (poll: Poll<()>)
        requires
            !(old(self).rests() is Done),
        ensures
            final(self).ident() == old(self).ident(),
            final(self).drains() == old(self).drains(),
            poll is Ready <==> final(self).rests() is Done,
            old(self).begins().hears(old(self).ident(), old(self).drains(), final(self).heard()),
            old(self).begins().run(old(self).ident(), old(self).drains(), final(self).heard())
                matches Phase::Rest { state, progress } && state == final(self).rests()
                && final(self).violated() == (old(self).violated() || progress
                == Progress::Violated),
            final(self).sent() == old(self).begins().delivers(
                old(self).ident(),
                old(self).drains(),
                final(self).heard(),
            ),
    {
        match self.cycle(cx) {
            Progress::Parked => Poll::Pending,
            Progress::Yielded => Poll::Pending,
            Progress::Finished => Poll::Ready(()),
            Progress::Violated => Poll::Ready(()),
        }
    }
}

impl<I, H, F> Unpin for Task<I, H, F> {

}

impl<I, H, F: Future<Output = Resolution>> Future for Task<I, H, F> {
    type Output = ();

    // NOTE: It is imperative to always consume all incoming commands from
    // the manager first, in order to not prevent it from making progress because
    // it is blocked on the channel capacity.
    fn poll(self: Pin<&mut Self>, cx: &mut Context<'_>) -> (poll: Poll<()>) {
        let task = unpinned(self);
        if task.is_done() {
            Poll::Ready(())
        } else {
            task.advance(cx)
        }
    }
}

/// `std::pin::Pin::get_mut`: the reference that was pinned, which a target
/// that is `Unpin` gives back.
#[verifier::external_body]
fn unpinned<'a, T: Unpin>(pinned: Pin<&'a mut T>) -> (target: &'a mut T) {
    Pin::get_mut(pinned)
}

/// `futures::task::FutureObj::new` on the boxed task: the task as a future
/// behind one pointer, as executors and run queues take it.
#[verifier::external_body]
pub(crate) fn into_future<I, H, F>(task: Task<I, H, F>) -> (future: FutureObj<'static, ()>) where
    I: Send + 'static,
    H: Send + 'static,
    F: Future<Output = Resolution> + Send + 'static,
 {
    FutureObj::new(Box::new(task))
}

} // verus!
