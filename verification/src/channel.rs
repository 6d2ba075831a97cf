//! The two channels of the protocol, and what else a task needs from the
//! async runtime: the places where verified code meets `futures` and
//! `std::task`.
//!
//! Nothing in this module is proved. Each function wraps one call and turns
//! its answer into a value of this crate; its contract is what the callers in
//! the other modules rest on.

use futures::channel::mpsc::Receiver;
use futures::channel::mpsc::Sender;
use futures::stream::Fuse;
use futures::stream::FuturesUnordered;
use futures::task::FutureObj;
use std::future::Future;
use std::pin::Pin;
use std::task::Context;
use std::task::Poll;
use std::task::Waker;
use vstd::prelude::*;

use crate::message::Resolution;

verus! {

/// `futures::channel::mpsc::Sender`, the sending half of a bounded channel.
#[verifier::external_type_specification]
#[verifier::external_body]
#[verifier::reject_recursive_types(T)]
pub struct ExSender<T>(Sender<T>);

/// `futures::channel::mpsc::Receiver`, the receiving half of a bounded channel.
#[verifier::external_type_specification]
#[verifier::external_body]
#[verifier::reject_recursive_types(T)]
pub struct ExReceiver<T>(Receiver<T>);

/// `futures::stream::Fuse`, a stream that keeps answering "closed" once it has
/// ended.
#[verifier::external_type_specification]
#[verifier::external_body]
#[verifier::reject_recursive_types(St)]
pub struct ExFuse<St>(Fuse<St>);

/// `futures::task::FutureObj`, an owned, sendable future behind one pointer.
#[verifier::external_type_specification]
#[verifier::external_body]
#[verifier::reject_recursive_types(T)]
pub struct ExFutureObj<'a, T>(FutureObj<'a, T>);

/// `futures::stream::FuturesUnordered`, a set of futures that are polled
/// together.
#[verifier::external_type_specification]
#[verifier::external_body]
#[verifier::reject_recursive_types(Fut)]
pub struct ExFuturesUnordered<Fut>(FuturesUnordered<Fut>);

/// `std::task::Context`, the context that a poll runs in.
#[verifier::external_type_specification]
#[verifier::external_body]
pub struct ExContext<'a>(Context<'a>);

/// `std::task::Waker`, the handle by which a parked task is woken.
#[verifier::external_type_specification]
#[verifier::external_body]
pub struct ExWaker(Waker);

/// `std::pin::Pin`, a pointer whose target stays where it is.
#[verifier::external_type_specification]
#[verifier::external_body]
#[verifier::reject_recursive_types(P)]
pub struct ExPin<P>(Pin<P>);

/// `std::task::Poll`, with its two variants `Ready` and `Pending` as std
/// defines them.
#[verifier::external_type_specification]
#[verifier::reject_recursive_types(T)]
pub struct ExPoll<T>(Poll<T>);

/// What the receiving end of a channel answers when it is asked for the next
/// message.
#[derive(Debug)]
pub enum Incoming<T> {
    /// Nothing can be taken now, and more may come.
    Empty,
    /// The oldest buffered message.
    Message(T),
    /// Nothing is buffered and the channel is closed, as it is when every
    /// sender is gone: nothing will come any more.
    Closed,
}

/// What the sending end of a channel answers when it is asked whether it
/// takes a message.
#[derive(Debug, Copy, Clone, PartialEq, Eq, Structural)]
pub enum Readiness {
    /// There is room for one message from this sender.
    Ready,
    /// The channel is at capacity for this sender.
    Full,
    /// The channel is closed, as it is when the receiver is gone.
    Closed,
}

/// What a run queue answers when it is polled.
#[derive(Debug, Copy, Clone, PartialEq, Eq, Structural)]
pub enum Turn {
    /// One of its futures has run to completion and left the queue.
    Finished,
    /// None of the futures that were polled completed.
    Idle,
    /// The queue holds no future.
    Vacant,
}

/// A channel can be made with any buffer below this one.
pub const BUFFER_LIMIT: usize = usize::MAX / 4;

/// `futures::channel::mpsc::channel`: a new bounded channel whose buffer holds
/// `buffer` messages beside the one slot that each sender owns. The call
/// panics on a buffer of `usize::MAX >> 2` or more, which `requires` rules out.
#[verifier::external_body]
pub(crate) fn channel<T>(buffer: usize) -> (ends: (Sender<T>, Receiver<T>))
    requires
        buffer < BUFFER_LIMIT,
{
    futures::channel::mpsc::channel(buffer)
}

/// `futures::stream::StreamExt::fuse` on a receiver.
#[verifier::external_body]
pub(crate) fn fuse<T>(receiver: Receiver<T>) -> (fused: Fuse<Receiver<T>>) {
    futures::stream::StreamExt::fuse(receiver)
}

/// `futures::stream::Stream::poll_next` on a fused receiver: the oldest
/// buffered message if there is one. Otherwise the answer is `Closed` if the
/// channel is closed and nothing is on its way, and `Empty` if not; the waker
/// of `cx` is then registered. Which of the three comes depends on the other
/// end.
#[verifier::external_body]
pub(crate) fn poll_fused<T>(stream: &mut Fuse<Receiver<T>>, cx: &mut Context<'_>) -> (incoming:
    Incoming<T>) {
    match futures::stream::Stream::poll_next(Pin::new(stream), cx) {
        Poll::Pending => Incoming::Empty,
        Poll::Ready(Some(message)) => Incoming::Message(message),
        Poll::Ready(None) => Incoming::Closed,
    }
}

/// `futures::stream::Stream::poll_next` on a receiver, answered as
/// `poll_fused` is.
#[verifier::external_body]
pub(crate) fn poll_receiver<T>(receiver: &mut Receiver<T>, cx: &mut Context<'_>) -> (incoming:
    Incoming<T>) {
    match futures::stream::Stream::poll_next(Pin::new(receiver), cx) {
        Poll::Pending => Incoming::Empty,
        Poll::Ready(Some(message)) => Incoming::Message(message),
        Poll::Ready(None) => Incoming::Closed,
    }
}

/// `futures::channel::mpsc::Sender::poll_ready`: whether this sender may send
/// one message now. On `Full` the waker of `cx` is registered. Which answer
/// comes depends on the other end.
#[verifier::external_body]
pub(crate) fn poll_ready<T>(sender: &mut Sender<T>, cx: &mut Context<'_>) -> (readiness:
    Readiness) {
    match sender.poll_ready(cx) {
        Poll::Pending => Readiness::Full,
        Poll::Ready(Ok(())) => Readiness::Ready,
        Poll::Ready(Err(_)) => Readiness::Closed,
    }
}

/// `futures::channel::mpsc::Sender::start_send`: hands `message` to the
/// channel. What the channel answers is dropped: a message that it refuses,
/// because it is full or closed, is lost.
#[verifier::external_body]
pub(crate) fn start_send<T>(sender: &mut Sender<T>, message: T) {
    let _ = sender.start_send(message);
}

/// `Clone::clone` of a `futures::channel::mpsc::Sender`: one more sender of
/// the same channel. The call panics when the channel already has as many
/// senders as it can count, `usize::MAX / 2` less its buffer; so many do not
/// fit in memory.
#[verifier::external_body]
pub(crate) fn clone_sender<T>(sender: &Sender<T>) -> (twin: Sender<T>) {
    sender.clone()
}

/// `Box::pin`.
#[verifier::external_body]
pub(crate) fn pin<F>(work: F) -> (pinned: Pin<Box<F>>) {
    Box::pin(work)
}

/// `Future::poll` on pinned work. Work that has resolved is consumed, so that
/// it cannot be polled again; work that has not comes back as it is then.
#[verifier::external_body]
pub(crate) fn poll_work<F: Future<Output = Resolution>>(
    work: Pin<Box<F>>,
    cx: &mut Context<'_>,
) -> (advanced: Result<Resolution, Pin<Box<F>>>) {
    let mut work = work;
    match work.as_mut().poll(cx) {
        Poll::Ready(resolution) => Ok(resolution),
        Poll::Pending => Err(work),
    }
}

/// `std::task::Context::waker`.
pub assume_specification<'a>[ Context::<'a>::waker ](cx: &Context<'a>) -> (waker: &'a Waker)
;

/// `std::task::Waker::wake_by_ref`: asks the executor to poll the task of
/// this waker again.
pub assume_specification[ Waker::wake_by_ref ](waker: &Waker)
;

/// How many futures a run queue holds.
pub uninterp spec fn queued(queue: FuturesUnordered<FutureObj<'static, ()>>) -> nat;

/// `futures::stream::FuturesUnordered::new`: a queue without futures.
#[verifier::external_body]
pub(crate) fn run_queue() -> (queue: FuturesUnordered<FutureObj<'static, ()>>)
    ensures
        queued(queue) == 0,
{
    FuturesUnordered::new()
}

/// `futures::stream::FuturesUnordered::push`: adds `future` to the queue
/// without polling it.
#[verifier::external_body]
pub(crate) fn enqueue(
    queue: &mut FuturesUnordered<FutureObj<'static, ()>>,
    future: FutureObj<'static, ()>,
)
    ensures
        queued(*final(queue)) == queued(*old(queue)) + 1,
{
    queue.push(future)
}

/// `futures::stream::Stream::poll_next` on a run queue: polls futures of the
/// queue that are due. On the first that completes the call returns; that
/// future has left the queue. Futures that did not complete stay.
#[verifier::external_body]
pub(crate) fn poll_run_queue(
    queue: &mut FuturesUnordered<FutureObj<'static, ()>>,
    cx: &mut Context<'_>,
) -> (turn: Turn)
    ensures
        turn == Turn::Finished ==> queued(*old(queue)) > 0 && queued(*final(queue)) == queued(
            *old(queue),
        ) - 1,
        turn == Turn::Idle ==> queued(*final(queue)) == queued(*old(queue)),
        turn == Turn::Vacant ==> queued(*final(queue)) == 0 && queued(*old(queue)) == 0,
{
    match futures::stream::Stream::poll_next(Pin::new(queue), cx) {
        Poll::Ready(Some(())) => Turn::Finished,
        Poll::Pending => Turn::Idle,
        Poll::Ready(None) => Turn::Vacant,
    }
}

/// `futures::stream::FuturesUnordered::len`.
#[verifier::external_body]
pub(crate) fn run_queue_len(queue: &FuturesUnordered<FutureObj<'static, ()>>) -> (len: usize)
    ensures
        len == queued(*queue),
{
    queue.len()
}

} // verus!
