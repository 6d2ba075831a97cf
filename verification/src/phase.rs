//! The decisions of a task, apart from the channels that it talks to.
//!
//! Between two drive cycles a task is in one of three states. Within a cycle
//! it moves through phases: each phase but the last asks one thing of the
//! outside (the command channel, the work, the mailbox), and the answer
//! decides the next phase. The functions here take that answer as an
//! argument, so every decision of the protocol has an exact contract, and the
//! laws at the end of the file hold of every answer.

use std::pin::Pin;
use vstd::prelude::*;

use crate::channel::Incoming;
use crate::channel::Readiness;
use crate::message::Command;
use crate::message::Event;
use crate::message::Resolution;
use crate::message::TaskId;

verus! {

/// The state of a task between two drive cycles.
#[verifier::reject_recursive_types(F)]
pub enum State<H, F> {
    /// The work has not resolved. The handler is carried until it does.
    Pending { work: Pin<Box<F>>, handler: H },
    /// An event is queued and not yet delivered.
    Ready { event: Event<H> },
    /// The task has finished and must not be driven again.
    Done,
}

/// How a drive cycle ended.
#[derive(Debug, Copy, Clone, PartialEq, Eq, Structural)]
pub enum Progress {
    /// The task waits to be woken: for its work, or for room in the mailbox.
    Parked,
    /// The task took as many commands as one cycle may take, asked again and
    /// found one more. It has offered nothing and wants its next cycle at
    /// once.
    Yielded,
    /// The task is done.
    Finished,
    /// A command reached the task while its work was pending. The manager
    /// never addresses a task that it has not seen established, so this is a
    /// fault of whoever holds the command sender. The task is done.
    Violated,
}

/// What a phase wants from the outside.
#[derive(Debug, Copy, Clone, PartialEq, Eq, Structural)]
pub enum Ask {
    /// The next answer of the command channel.
    Commands,
    /// One step of the work.
    Work,
    /// Whether the mailbox takes an event.
    Mailbox,
    /// Nothing: the cycle is over.
    Nothing,
}

/// Where a task stands within a drive cycle.
#[verifier::reject_recursive_types(F)]
pub enum Phase<H, F> {
    /// The work is pending; first the command channel is asked whether the
    /// manager has let go of the task.
    Watch { work: Pin<Box<F>>, handler: H },
    /// The work is pending and the manager is still there: the work is
    /// advanced.
    Work { work: Pin<Box<F>>, handler: H },
    /// An event is queued; the command channel is emptied first. The cycle
    /// may take `left` more commands and still ask the channel again; a
    /// command that it finds after those makes it yield.
    Drain { event: Event<H>, left: usize },
    /// An event is queued and the command channel was found empty: the
    /// mailbox is asked whether it takes the event.
    Offer { event: Event<H> },
    /// The cycle is over. The task rests in `state`.
    Rest { state: State<H, F>, progress: Progress },
}

impl<H, F> State<H, F> {
    /// The phase in which a cycle begins. Whatever the state, the first thing
    /// that a task asks is its command channel. `limit` is the number of
    /// commands that the cycle may take before it asks the channel for the
    /// last time.
    pub open spec fn begins(self, limit: usize) -> Phase<H, F> {
        match self {
            State::Pending { work, handler } => Phase::Watch { work, handler },
            State::Ready { event } => Phase::Drain { event, left: limit },
            State::Done => Phase::Rest { state: State::Done, progress: Progress::Finished },
        }
    }

    /// Whether `event` tells how the work of task `id` came out, with
    /// `handler` as the handler that the task carried.
    pub open spec fn resolves(id: TaskId, handler: H, event: Event<H>) -> bool {
        exists|resolution: Resolution| event == Event::resolved(id, handler, resolution)
    }

    /// The states in which one drive cycle of task `id` can leave a task that
    /// it found in state `self`, each with the ways in which the cycle can end
    /// there. A pending task keeps its handler or queues the event of its
    /// resolution; a ready task keeps its event until it is done.
    pub open spec fn leads_to(self, id: TaskId, next: State<H, F>, progress: Progress) -> bool {
        match self {
            State::Pending { work, handler } => match next {
                State::Pending { work: advanced, handler: kept } => kept == handler && progress
                    == Progress::Parked,
                State::Ready { event } => Self::resolves(id, handler, event) && (progress
                    == Progress::Parked || progress == Progress::Yielded),
                State::Done => progress == Progress::Finished || progress == Progress::Violated,
            },
            State::Ready { event } => match next {
                State::Pending { .. } => false,
                State::Ready { event: kept } => kept == event && (progress == Progress::Parked
                    || progress == Progress::Yielded),
                State::Done => progress == Progress::Finished,
            },
            State::Done => false,
        }
    }

    /// The phases that a cycle of task `id` can pass through when it began in
    /// state `self`.
    pub open spec fn passes(self, id: TaskId, phase: Phase<H, F>) -> bool {
        match phase {
            Phase::Watch { work, handler } => self matches State::Pending { handler: carried, .. }
                && carried == handler,
            Phase::Work { work, handler } => self matches State::Pending { handler: carried, .. }
                && carried == handler,
            Phase::Drain { event, .. } => self.queues(id, event),
            Phase::Offer { event } => self.queues(id, event),
            Phase::Rest { state, progress } => self.leads_to(id, state, progress),
        }
    }

    /// Whether `event` is what a cycle of task `id` that began in `self` has
    /// queued: the event that was queued before, or that of the resolution.
    pub open spec fn queues(self, id: TaskId, event: Event<H>) -> bool {
        match self {
            State::Pending { work, handler } => Self::resolves(id, handler, event),
            State::Ready { event: queued } => queued == event,
            State::Done => false,
        }
    }

    /// Begins a drive cycle that may take `limit` commands.
    pub fn begin(self, limit: usize) -> (phase: Phase<H, F>)
        ensures
            phase == self.begins(limit),
    {
        match self {
            State::Pending { work, handler } => Phase::Watch { work, handler },
            State::Ready { event } => Phase::Drain { event, left: limit },
            State::Done => Phase::Rest { state: State::Done, progress: Progress::Finished },
        }
    }

    /// Tells whether the task has finished.
    pub fn is_done(&self) -> (done: bool)
        ensures
            done == (*self is Done),
    {
        match self {
            State::Done => true,
            _ => false,
        }
    }
}

impl<H, F> Phase<H, F> {
    /// What the phase wants from the outside.
    pub open spec fn asks(self) -> Ask {
        match self {
            Phase::Watch { .. } => Ask::Commands,
            Phase::Work { .. } => Ask::Work,
            Phase::Drain { .. } => Ask::Commands,
            Phase::Offer { .. } => Ask::Mailbox,
            Phase::Rest { .. } => Ask::Nothing,
        }
    }

    /// The phase that follows an answer of the command channel, in a phase
    /// that asks for it.
    ///
    /// A closed channel ends the task at once, in either state. While the work
    /// is pending, an empty channel lets the work go on, and a command is a
    /// violation. While an event is queued, a command is taken and dropped and
    /// the channel is asked again, unless the cycle had taken all that it may
    /// before: then the task yields. Only an empty channel leads on to the
    /// mailbox.
    pub open spec fn after_command<I>(self, reply: Incoming<Command<I>>) -> Phase<H, F> {
        match self {
            Phase::Watch { work, handler } => match reply {
                Incoming::Empty => Phase::Work { work, handler },
                Incoming::Message(_) => Phase::Rest {
                    state: State::Done,
                    progress: Progress::Violated,
                },
                Incoming::Closed => Phase::Rest {
                    state: State::Done,
                    progress: Progress::Finished,
                },
            },
            Phase::Drain { event, left } => match reply {
                Incoming::Empty => Phase::Offer { event },
                Incoming::Message(_) => if left > 0 {
                    Phase::Drain { event, left: (left - 1) as usize }
                } else {
                    Phase::Rest { state: State::Ready { event }, progress: Progress::Yielded }
                },
                Incoming::Closed => Phase::Rest {
                    state: State::Done,
                    progress: Progress::Finished,
                },
            },
            _ => self,
        }
    }

    /// The phase that follows one step of the work of task `id`, whose
    /// handler is `handler`. Work that has not resolved parks the task. Work
    /// that has resolved queues its event, and the command channel is emptied
    /// before anything is done with it.
    pub open spec fn after_work(
        id: TaskId,
        handler: H,
        limit: usize,
        advanced: Result<Resolution, Pin<Box<F>>>,
    ) -> Phase<H, F> {
        match advanced {
            Ok(resolution) => Phase::Drain {
                event: Event::resolved(id, handler, resolution),
                left: limit,
            },
            Err(work) => Phase::Rest {
                state: State::Pending { work, handler },
                progress: Progress::Parked,
            },
        }
    }

    /// The phase that follows an answer of the mailbox. A full mailbox parks
    /// the task with its event. A ready mailbox is given the event, and the
    /// task is done; so it is when the mailbox is closed.
    pub open spec fn after_mailbox(self, readiness: Readiness) -> Phase<H, F> {
        match self {
            Phase::Offer { event } => match readiness {
                Readiness::Full => Phase::Rest {
                    state: State::Ready { event },
                    progress: Progress::Parked,
                },
                _ => Phase::Rest { state: State::Done, progress: Progress::Finished },
            },
            _ => self,
        }
    }

    /// The event that the task sends on an answer of the mailbox: the queued
    /// one if the mailbox is ready, none otherwise.
    pub open spec fn sends(self, readiness: Readiness) -> Option<Event<H>> {
        match self {
            Phase::Offer { event } => if readiness == Readiness::Ready {
                Some(event)
            } else {
                None
            },
            _ => None,
        }
    }

    /// A number that falls from each phase of a cycle to the next, but from
    /// one `Drain` to another.
    pub open spec fn rank(self) -> nat {
        match self {
            Phase::Watch { .. } => 4,
            Phase::Work { .. } => 3,
            Phase::Drain { .. } => 2,
            Phase::Offer { .. } => 1,
            Phase::Rest { .. } => 0,
        }
    }

    /// The commands that a draining phase may still take, and 0 in the other
    /// phases.
    pub open spec fn budget(self) -> nat {
        match self {
            Phase::Drain { left, .. } => left as nat,
            _ => 0,
        }
    }

    /// Tells what the phase wants from the outside.
    pub fn ask(&self) -> (ask: Ask)
        ensures
            ask == self.asks(),
    {
        match self {
            Phase::Watch { .. } => Ask::Commands,
            Phase::Work { .. } => Ask::Work,
            Phase::Drain { .. } => Ask::Commands,
            Phase::Offer { .. } => Ask::Mailbox,
            Phase::Rest { .. } => Ask::Nothing,
        }
    }

    /// Takes an answer of the command channel. A phase that did not ask for
    /// it stays as it is.
    pub fn on_command<I>(self, reply: Incoming<Command<I>>) -> (next: Phase<H, F>)
        ensures
            next == self.after_command(reply),
    {
        match self {
            Phase::Watch { work, handler } => match reply {
                Incoming::Empty => Phase::Work { work, handler },
                Incoming::Message(_) => Phase::Rest {
                    state: State::Done,
                    progress: Progress::Violated,
                },
                Incoming::Closed => Phase::Rest {
                    state: State::Done,
                    progress: Progress::Finished,
                },
            },
            Phase::Drain { event, left } => match reply {
                Incoming::Empty => Phase::Offer { event },
                Incoming::Message(_) => if left > 0 {
                    Phase::Drain { event, left: left - 1 }
                } else {
                    Phase::Rest { state: State::Ready { event }, progress: Progress::Yielded }
                },
                Incoming::Closed => Phase::Rest {
                    state: State::Done,
                    progress: Progress::Finished,
                },
            },
            other => other,
        }
    }

    /// Hands out the work of a phase that wants it advanced, with the handler
    /// that goes with it.
    pub fn release(self) -> (parts: Option<(Pin<Box<F>>, H)>)
        ensures
            match self {
                Phase::Work { work, handler } => parts == Some((work, handler)),
                _ => parts is None,
            },
    {
        match self {
            Phase::Work { work, handler } => Some((work, handler)),
            _ => None,
        }
    }

    /// Takes what one step of the work of task `id` gave.
    pub fn on_work(
        id: TaskId,
        handler: H,
        limit: usize,
        advanced: Result<Resolution, Pin<Box<F>>>,
    ) -> (next: Phase<H, F>)
        ensures
            next == Self::after_work(id, handler, limit, advanced),
    {
        match advanced {
            Ok(resolution) => Phase::Drain {
                event: Event::from_resolution(id, handler, resolution),
                left: limit,
            },
            Err(work) => Phase::Rest {
                state: State::Pending { work, handler },
                progress: Progress::Parked,
            },
        }
    }

    /// Takes an answer of the mailbox. Returns the next phase and the event
    /// that is to be sent now, if any. A phase that did not ask for the answer
    /// stays as it is and sends nothing.
    pub fn on_mailbox(self, readiness: Readiness) -> (next: (Phase<H, F>, Option<Event<H>>))
        ensures
            next.0 == self.after_mailbox(readiness),
            next.1 == self.sends(readiness),
    {
        match self {
            Phase::Offer { event } => match readiness {
                Readiness::Full => (
                    Phase::Rest { state: State::Ready { event }, progress: Progress::Parked },
                    None,
                ),
                Readiness::Ready => (
                    Phase::Rest { state: State::Done, progress: Progress::Finished },
                    Some(event),
                ),
                Readiness::Closed => (
                    Phase::Rest { state: State::Done, progress: Progress::Finished },
                    None,
                ),
            },
            other => (other, None),
        }
    }

    /// Ends the cycle: the state in which the task rests, and how the cycle
    /// ended.
    pub fn rest(self) -> (end: Option<(State<H, F>, Progress)>)
        ensures
            match self {
                Phase::Rest { state, progress } => end == Some((state, progress)),
                _ => end is None,
            },
    {
        match self {
            Phase::Rest { state, progress } => Some((state, progress)),
            _ => None,
        }
    }
}

/// One answer of the outside to a task: of its command channel, of its work,
/// or of the mailbox.
#[verifier::reject_recursive_types(F)]
pub enum Answer<I, F> {
    /// What the command channel answered.
    Command(Incoming<Command<I>>),
    /// What a step of the work gave: the resolution, or the work as it is now.
    Work(Result<Resolution, Pin<Box<F>>>),
    /// What the mailbox answered.
    Mailbox(Readiness),
}

impl<H, F> Phase<H, F> {
    /// Whether `answer` answers what the phase asks.
    pub open spec fn awaits<I>(self, answer: Answer<I, F>) -> bool {
        match answer {
            Answer::Command(_) => self.asks() == Ask::Commands,
            Answer::Work(_) => self.asks() == Ask::Work,
            Answer::Mailbox(_) => self.asks() == Ask::Mailbox,
        }
    }

    /// The phase that follows `answer` in a cycle of task `id` that may take
    /// `limit` commands.
    pub open spec fn answered<I>(self, id: TaskId, limit: usize, answer: Answer<I, F>) -> Phase<
        H,
        F,
    > {
        match answer {
            Answer::Command(reply) => self.after_command(reply),
            Answer::Work(advanced) => match self {
                Phase::Work { work, handler } => Self::after_work(id, handler, limit, advanced),
                _ => self,
            },
            Answer::Mailbox(readiness) => self.after_mailbox(readiness),
        }
    }

    /// The phase that a cycle reaches from `self` on the answers of `answers`
    /// in turn.
    pub open spec fn run<I>(self, id: TaskId, limit: usize, answers: Seq<Answer<I, F>>) -> Phase<
        H,
        F,
    >
        decreases answers.len(),
    {
        if answers.len() == 0 {
            self
        } else {
            self.run(id, limit, answers.drop_last()).answered(id, limit, answers.last())
        }
    }

    /// Whether `answers` can be the answers of one cycle from `self` on: each
    /// answers what the cycle asked when the answers before it were in.
    pub open spec fn hears<I>(self, id: TaskId, limit: usize, answers: Seq<Answer<I, F>>) -> bool
        decreases answers.len(),
    {
        answers.len() == 0 || (self.hears(id, limit, answers.drop_last()) && self.run(
            id,
            limit,
            answers.drop_last(),
        ).awaits(answers.last()))
    }

    /// The event that a cycle with the answers of `answers` hands to the
    /// mailbox: the queued one, if the last answer is the mailbox's that it is
    /// ready. A cycle rests on any answer of the mailbox, so it sends nothing
    /// before its last answer.
    pub open spec fn delivers<I>(self, id: TaskId, limit: usize, answers: Seq<Answer<I, F>>)
        -> Option<Event<H>> {
        if answers.len() > 0 {
            match answers.last() {
                Answer::Mailbox(readiness) => self.run(id, limit, answers.drop_last()).sends(
                    readiness,
                ),
                _ => None,
            }
        } else {
            None
        }
    }

    /// The answers of a cycle up to any point are the answers of a cycle, and
    /// the next answer answers what the cycle asked at that point.
    pub proof fn hears_each<I>(self, id: TaskId, limit: usize, answers: Seq<Answer<I, F>>, at: int)
        requires
            self.hears(id, limit, answers),
            0 <= at <= answers.len(),
        ensures
            self.hears(id, limit, answers.take(at)),
            at < answers.len() ==> self.run(id, limit, answers.take(at)).awaits(answers[at]),
            at < answers.len() ==> self.run(id, limit, answers.take(at + 1)) == self.run(
                id,
                limit,
                answers.take(at),
            ).answered(id, limit, answers[at]),
        decreases answers.len(),
    {
        if at == answers.len() {
            assert(answers.take(at) =~= answers);
        } else {
            let before = answers.drop_last();
            if at == answers.len() - 1 {
                assert(answers.take(at) =~= before);
                assert(answers.take(at + 1) =~= answers);
            } else {
                self.hears_each(id, limit, before, at);
                assert(before.take(at) =~= answers.take(at));
                assert(before.take(at + 1) =~= answers.take(at + 1));
            }
        }
    }
}

/// Drain first. In every cycle of a task, whatever the outside answers, the
/// mailbox is asked only right after the command channel has answered that it
/// is empty. An event is sent only when the mailbox then answers that it is
/// ready, so nothing is offered and nothing is sent while commands are
/// buffered.
pub proof fn drain_precedes_offer<I, H, F>(
    start: State<H, F>,
    id: TaskId,
    limit: usize,
    answers: Seq<Answer<I, F>>,
    at: int,
)
    requires
        start.begins(limit).hears(id, limit, answers),
        0 <= at < answers.len(),
        answers[at] is Mailbox,
    ensures
        at > 0,
        answers[at - 1] == Answer::<I, F>::Command(Incoming::Empty),
        start.begins(limit).run(id, limit, answers.take(at - 1)) is Drain,
        start.begins(limit).delivers(id, limit, answers) is Some ==> answers.last()
            == Answer::<I, F>::Mailbox(Readiness::Ready),
{
    let begin = start.begins(limit);
    begin.hears_each(id, limit, answers, at);
    assert(begin.run(id, limit, answers.take(at)) is Offer);
    if at == 0 {
        assert(answers.take(0) =~= Seq::<Answer<I, F>>::empty());
    } else {
        begin.hears_each(id, limit, answers, at - 1);
    }
}

/// A cycle ends with the first answer that lets the task rest: no answer
/// comes after it.
pub proof fn rest_ends_cycle<I, H, F>(
    start: State<H, F>,
    id: TaskId,
    limit: usize,
    answers: Seq<Answer<I, F>>,
    at: int,
)
    requires
        start.begins(limit).hears(id, limit, answers),
        0 <= at <= answers.len(),
        start.begins(limit).run(id, limit, answers.take(at)) is Rest,
    ensures
        at == answers.len(),
{
    if at < answers.len() {
        start.begins(limit).hears_each(id, limit, answers, at);
    }
}

/// Cancellation. A cycle of a task that is not done asks the command channel
/// before anything else. When the channel answers that it is closed, at
/// whatever point of the cycle, the cycle ends there with the task done, and
/// the mailbox was not asked in that cycle: the task has sent nothing.
pub proof fn closed_channel_ends_task<I, H, F>(
    start: State<H, F>,
    id: TaskId,
    limit: usize,
    answers: Seq<Answer<I, F>>,
    at: int,
)
    requires
        !(start is Done),
        start.begins(limit).hears(id, limit, answers),
        0 <= at < answers.len(),
        answers[at] == Answer::<I, F>::Command(Incoming::Closed),
    ensures
        answers[0] is Command,
        at == answers.len() - 1,
        start.begins(limit).run(id, limit, answers) == (Phase::<H, F>::Rest {
            state: State::Done,
            progress: Progress::Finished,
        }),
        forall|other: int| 0 <= other < answers.len() ==> !(#[trigger] answers[other] is Mailbox),
        start.begins(limit).delivers(id, limit, answers) is None,
{
    let begin = start.begins(limit);
    begin.hears_each(id, limit, answers, 0);
    assert(answers.take(0) =~= Seq::<Answer<I, F>>::empty());
    begin.hears_each(id, limit, answers, at);
    rest_ends_cycle(start, id, limit, answers, at + 1);
    assert(answers.take(at + 1) =~= answers);
    assert forall|other: int| 0 <= other < answers.len() implies !(#[trigger] answers[other]
        is Mailbox) by {
        if answers[other] is Mailbox {
            begin.hears_each(id, limit, answers, other);
            rest_ends_cycle(start, id, limit, answers, other + 1);
        }
    }
}

/// No event is lost. A cycle in which the mailbox answers that it is full
/// ends there, with the task parked and the event still queued: the event
/// that was queued when the cycle began, if one was. The next cycle queues
/// the same event, and offers it as soon as the command channel is found
/// empty.
pub proof fn full_mailbox_keeps_event<I, H, F>(
    start: State<H, F>,
    id: TaskId,
    limit: usize,
    answers: Seq<Answer<I, F>>,
    at: int,
)
    requires
        start.begins(limit).hears(id, limit, answers),
        0 <= at < answers.len(),
        answers[at] == Answer::<I, F>::Mailbox(Readiness::Full),
    ensures
        at == answers.len() - 1,
        start.begins(limit).run(id, limit, answers) matches Phase::Rest {
            state: State::Ready { event },
            progress: Progress::Parked,
        } && (start matches State::Ready { event: queued } ==> event == queued) && (
        State::<H, F>::Ready { event }).begins(limit).answered(
            id,
            limit,
            Answer::<I, F>::Command(Incoming::Empty),
        ) == (Phase::<H, F>::Offer { event }),
        start.begins(limit).delivers(id, limit, answers) is None,
{
    let begin = start.begins(limit);
    begin.hears_each(id, limit, answers, at);
    rest_ends_cycle(start, id, limit, answers, at + 1);
    assert(answers.take(at + 1) =~= answers);
    if start matches State::Ready { event: queued } {
        ready_keeps_event(start, id, limit, answers.take(at));
    }
}

/// A task with a queued event has that event queued throughout its cycle.
pub proof fn ready_keeps_event<I, H, F>(
    start: State<H, F>,
    id: TaskId,
    limit: usize,
    answers: Seq<Answer<I, F>>,
)
    requires
        start is Ready,
        start.begins(limit).hears(id, limit, answers),
    ensures
        match start.begins(limit).run(id, limit, answers) {
            Phase::Drain { event, .. } => start == (State::<H, F>::Ready { event }),
            Phase::Offer { event } => start == (State::<H, F>::Ready { event }),
            Phase::Rest { state, .. } => state is Done || state == start,
            _ => false,
        },
    decreases answers.len(),
{
    if answers.len() > 0 {
        ready_keeps_event(start, id, limit, answers.drop_last());
    }
}

/// Whether `answer` is the command channel handing over a command.
pub open spec fn is_command<I, F>(answer: Answer<I, F>) -> bool {
    answer matches Answer::Command(reply) && reply is Message
}

/// Whether each of `answers` is the command channel handing over a command.
pub open spec fn all_commands<I, F>(answers: Seq<Answer<I, F>>) -> bool {
    forall|i: int| 0 <= i < answers.len() ==> is_command(#[trigger] answers[i])
}

/// A draining cycle takes every command that the channel hands over, as long
/// as these are no more than it may take, and then asks the channel again.
pub proof fn drain_takes_commands<I, H, F>(
    event: Event<H>,
    left: usize,
    id: TaskId,
    limit: usize,
    commands: Seq<Answer<I, F>>,
)
    requires
        all_commands(commands),
        commands.len() <= left,
    ensures
        (Phase::<H, F>::Drain { event, left }).hears(id, limit, commands),
        (Phase::<H, F>::Drain { event, left }).run(id, limit, commands) == (Phase::<H, F>::Drain {
            event,
            left: (left - commands.len()) as usize,
        }),
    decreases commands.len(),
{
    if commands.len() > 0 {
        let before = commands.drop_last();
        assert(all_commands(before)) by {
            assert forall|i: int| 0 <= i < before.len() implies is_command(
                #[trigger] before[i],
            ) by {
                assert(before[i] == commands[i]);
            }
        }
        drain_takes_commands(event, left, id, limit, before);
        assert(is_command(commands[commands.len() - 1]));
    }
}

/// All buffered commands go in one cycle. A task with a queued event whose
/// command channel holds no more commands than a cycle may take, takes them
/// all, finds the channel empty and only then turns to the mailbox. What the
/// mailbox answers ends the cycle: on a full mailbox the task is parked with
/// its event and has sent nothing; on a ready one the event is sent and the
/// task is done.
pub proof fn buffered_commands_go_in_one_cycle<I, H, F>(
    event: Event<H>,
    id: TaskId,
    limit: usize,
    buffered: Seq<Answer<I, F>>,
    readiness: Readiness,
)
    requires
        all_commands(buffered),
        buffered.len() <= limit,
    ensures
        ({
            let begin = (State::<H, F>::Ready { event }).begins(limit);
            let heard = buffered.push(Answer::Command(Incoming::Empty)).push(
                Answer::Mailbox(readiness),
            );
            &&& begin.hears(id, limit, heard)
            &&& begin.run(id, limit, heard) == (Phase::<H, F>::Offer { event }).after_mailbox(
                readiness,
            )
            &&& begin.delivers(id, limit, heard) == (Phase::<H, F>::Offer { event }).sends(
                readiness,
            )
            &&& readiness == Readiness::Full ==> begin.run(id, limit, heard) == (Phase::<
                H,
                F,
            >::Rest { state: State::Ready { event }, progress: Progress::Parked })
                && begin.delivers(id, limit, heard) is None
        }),
{
    let begin = (State::<H, F>::Ready { event }).begins(limit);
    let emptied = buffered.push(Answer::Command(Incoming::Empty));
    let heard = emptied.push(Answer::Mailbox(readiness));
    drain_takes_commands(event, limit, id, limit, buffered);
    assert(emptied.drop_last() =~= buffered);
    assert(begin.hears(id, limit, emptied));
    assert(begin.run(id, limit, emptied) == (Phase::<H, F>::Offer { event }));
    assert(heard.drop_last() =~= emptied);
    assert(begin.hears(id, limit, heard));
    assert(begin.run(id, limit, heard) == (Phase::<H, F>::Offer { event }).after_mailbox(
        readiness,
    ));
}

/// Closing ends the task within one cycle. Let the command sender be dropped
/// while the channel holds no more commands than a cycle may take. A task
/// with a queued event takes those commands, meets the closure in the same
/// cycle and is done, without asking the mailbox: its event is never sent. A
/// task whose work is pending is done with the first answer of its channel,
/// be that the closure or, against the protocol, a command.
pub proof fn closing_ends_task_within_cycle<I, H, F>(
    start: State<H, F>,
    id: TaskId,
    limit: usize,
    buffered: Seq<Answer<I, F>>,
)
    requires
        !(start is Done),
        all_commands(buffered),
        buffered.len() <= limit,
    ensures
        ({
            let begin = start.begins(limit);
            let closed = Answer::<I, F>::Command(Incoming::Closed);
            let heard = if start is Ready || buffered.len() == 0 {
                buffered.push(closed)
            } else {
                buffered.take(1)
            };
            &&& begin.hears(id, limit, heard)
            &&& begin.run(id, limit, heard) matches Phase::Rest { state: State::Done, .. }
            &&& begin.delivers(id, limit, heard) is None
            &&& forall|i: int| 0 <= i < heard.len() ==> !(#[trigger] heard[i] is Mailbox)
            &&& start is Ready || buffered.len() == 0 ==> begin.run(id, limit, heard) == (Phase::<
                H,
                F,
            >::Rest { state: State::Done, progress: Progress::Finished })
        }),
{
    let begin = start.begins(limit);
    let closed = Answer::<I, F>::Command(Incoming::Closed);
    match start {
        State::Ready { event } => {
            let heard = buffered.push(closed);
            drain_takes_commands(event, limit, id, limit, buffered);
            assert(heard.drop_last() =~= buffered);
            assert(begin.hears(id, limit, heard));
            assert forall|i: int| 0 <= i < heard.len() implies !(#[trigger] heard[i]
                is Mailbox) by {
                if i < buffered.len() {
                    assert(is_command(buffered[i]));
                }
            }
        },
        _ => {
            let none = Seq::<Answer<I, F>>::empty();
            assert(begin.hears(id, limit, none));
            assert(begin.run(id, limit, none) == begin);
            if buffered.len() == 0 {
                let heard = buffered.push(closed);
                assert(heard.drop_last() =~= none);
                assert(begin.hears(id, limit, heard));
            } else {
                let heard = buffered.take(1);
                assert(heard.drop_last() =~= none);
                assert(heard.last() == buffered[0]);
                assert(is_command(buffered[0]));
                assert(begin.hears(id, limit, heard));
            }
        },
    }
}

} // verus!
