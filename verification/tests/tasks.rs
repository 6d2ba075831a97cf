use futures::channel::mpsc;
use futures::task::ArcWake;
use std::sync::atomic::AtomicUsize;
use std::sync::atomic::Ordering;
use std::sync::Arc;
use std::task::Context;
use std::task::Poll;
use task_thread_pool::task::DRAIN_LIMIT;
use task_thread_pool::Command;
use task_thread_pool::Event;
use task_thread_pool::Progress;
use task_thread_pool::Resolution;
use task_thread_pool::State;
use task_thread_pool::Task;
use task_thread_pool::TaskId;

struct Wakes(AtomicUsize);

impl ArcWake for Wakes {
    fn wake_by_ref(arc_self: &Arc<Self>) {
        arc_self.0.fetch_add(1, Ordering::SeqCst);
    }
}

fn blocked_mailbox() -> (mpsc::Sender<Event<u32>>, mpsc::Receiver<Event<u32>>) {
    let (mut tx, rx) = mpsc::channel(0);
    tx.try_send(Event::Notify { id: TaskId(99) }).unwrap();
    (tx, rx)
}

#[test]
fn a_new_task_is_pending_with_its_handler() {
    let (events_tx, _events_rx) = mpsc::channel::<Event<u32>>(1);
    let (_commands_tx, commands_rx) = mpsc::channel::<Command<u8>>(4);
    let task = Task::pending(
        TaskId(5),
        events_tx,
        commands_rx,
        futures::future::pending::<Resolution>(),
        17,
    );
    assert_eq!(task.id(), TaskId(5));
    assert!(!task.is_done());
    assert!(matches!(task.state(), State::Pending { handler: 17, .. }));
    assert_eq!(DRAIN_LIMIT, usize::MAX);
    assert!(!task.is_violated());
}

#[test]
fn pending_work_parks_the_task() {
    let waker = futures::task::noop_waker();
    let mut cx = Context::from_waker(&waker);
    let (events_tx, mut events_rx) = mpsc::channel::<Event<u32>>(1);
    let (_commands_tx, commands_rx) = mpsc::channel::<Command<u8>>(4);
    let mut task = Task::pending(
        TaskId(1),
        events_tx,
        commands_rx,
        futures::future::pending::<Resolution>(),
        17,
    );
    assert_eq!(task.poll(&mut cx), Progress::Parked);
    assert!(matches!(task.state(), State::Pending { handler: 17, .. }));
    assert_eq!(task.poll(&mut cx), Progress::Parked);
    assert!(events_rx.try_recv().is_err());
}

#[test]
fn work_that_succeeds_is_reported_as_established() {
    let waker = futures::task::noop_waker();
    let mut cx = Context::from_waker(&waker);
    let (events_tx, mut events_rx) = mpsc::channel::<Event<u32>>(1);
    let (_commands_tx, commands_rx) = mpsc::channel::<Command<u8>>(4);
    let mut task = Task::pending(
        TaskId(2),
        events_tx,
        commands_rx,
        futures::future::ready(Resolution::Established),
        17,
    );
    assert_eq!(task.poll(&mut cx), Progress::Finished);
    assert!(task.is_done());
    assert!(matches!(events_rx.try_recv(), Ok(Event::Established { id }) if id == TaskId(2)));
    assert!(events_rx.try_recv().is_err());
}

#[test]
fn work_that_fails_is_reported_with_its_handler() {
    let waker = futures::task::noop_waker();
    let mut cx = Context::from_waker(&waker);
    let (events_tx, mut events_rx) = mpsc::channel::<Event<u32>>(1);
    let (_commands_tx, commands_rx) = mpsc::channel::<Command<u8>>(4);
    let mut task = Task::pending(
        TaskId(3),
        events_tx,
        commands_rx,
        futures::future::ready(Resolution::Failed),
        17,
    );
    assert_eq!(task.poll(&mut cx), Progress::Finished);
    assert!(matches!(
        events_rx.try_recv(),
        Ok(Event::Failed { id, handler: 17 }) if id == TaskId(3)
    ));
}

#[test]
fn a_handler_error_is_reported_as_error() {
    let waker = futures::task::noop_waker();
    let mut cx = Context::from_waker(&waker);
    let (events_tx, mut events_rx) = mpsc::channel::<Event<u32>>(1);
    let (_commands_tx, commands_rx) = mpsc::channel::<Command<u8>>(4);
    let mut task = Task::pending(
        TaskId(4),
        events_tx,
        commands_rx,
        futures::future::ready(Resolution::Error),
        17,
    );
    assert_eq!(task.poll(&mut cx), Progress::Finished);
    assert!(matches!(events_rx.try_recv(), Ok(Event::Error { id }) if id == TaskId(4)));
}

#[test]
fn closing_the_command_channel_ends_a_pending_task_in_one_cycle() {
    let waker = futures::task::noop_waker();
    let mut cx = Context::from_waker(&waker);
    let (events_tx, mut events_rx) = mpsc::channel::<Event<u32>>(1);
    let (commands_tx, commands_rx) = mpsc::channel::<Command<u8>>(4);
    let mut task = Task::pending(
        TaskId(1),
        events_tx,
        commands_rx,
        futures::future::pending::<Resolution>(),
        17,
    );
    assert_eq!(task.poll(&mut cx), Progress::Parked);
    drop(commands_tx);
    assert_eq!(task.poll(&mut cx), Progress::Finished);
    assert!(task.is_done());
    assert!(events_rx.try_recv().is_err());
}

#[test]
fn a_cancelled_task_does_not_touch_work_that_would_resolve() {
    let waker = futures::task::noop_waker();
    let mut cx = Context::from_waker(&waker);
    let (events_tx, mut events_rx) = mpsc::channel::<Event<u32>>(1);
    let (commands_tx, commands_rx) = mpsc::channel::<Command<u8>>(4);
    let mut task = Task::pending(
        TaskId(1),
        events_tx,
        commands_rx,
        futures::future::ready(Resolution::Established),
        17,
    );
    drop(commands_tx);
    assert_eq!(task.poll(&mut cx), Progress::Finished);
    assert!(task.is_done());
    assert!(events_rx.try_recv().is_err());
}

#[test]
fn closing_the_command_channel_ends_a_ready_task_without_an_event() {
    let waker = futures::task::noop_waker();
    let mut cx = Context::from_waker(&waker);
    let (events_tx, mut events_rx) = blocked_mailbox();
    let (commands_tx, commands_rx) = mpsc::channel::<Command<u8>>(4);
    let mut task = Task::pending(
        TaskId(1),
        events_tx,
        commands_rx,
        futures::future::ready(Resolution::Established),
        17,
    );
    assert_eq!(task.poll(&mut cx), Progress::Parked);
    assert!(matches!(task.state(), State::Ready { .. }));
    assert!(matches!(events_rx.try_recv(), Ok(Event::Notify { id }) if id == TaskId(99)));
    drop(commands_tx);
    assert_eq!(task.poll(&mut cx), Progress::Finished);
    assert!(task.is_done());
    assert!(events_rx.try_recv().is_err());
}

#[test]
fn a_full_mailbox_keeps_the_task_ready_with_the_same_event() {
    let waker = futures::task::noop_waker();
    let mut cx = Context::from_waker(&waker);
    let (events_tx, mut events_rx) = blocked_mailbox();
    let (_commands_tx, commands_rx) = mpsc::channel::<Command<u8>>(4);
    let mut task = Task::pending(
        TaskId(7),
        events_tx,
        commands_rx,
        futures::future::ready(Resolution::Failed),
        17,
    );
    assert_eq!(task.poll(&mut cx), Progress::Parked);
    assert!(matches!(
        task.state(),
        State::Ready { event: Event::Failed { id, handler: 17 } } if *id == TaskId(7)
    ));
    assert_eq!(task.poll(&mut cx), Progress::Parked);
    assert!(matches!(
        task.state(),
        State::Ready { event: Event::Failed { id, handler: 17 } } if *id == TaskId(7)
    ));
    assert!(matches!(events_rx.try_recv(), Ok(Event::Notify { id }) if id == TaskId(99)));
    assert!(events_rx.try_recv().is_err());
    assert_eq!(task.poll(&mut cx), Progress::Finished);
    assert!(matches!(
        events_rx.try_recv(),
        Ok(Event::Failed { id, handler: 17 }) if id == TaskId(7)
    ));
}

#[test]
fn buffered_commands_are_taken_before_the_event_is_sent() {
    let waker = futures::task::noop_waker();
    let mut cx = Context::from_waker(&waker);
    let (events_tx, mut events_rx) = blocked_mailbox();
    let (mut commands_tx, commands_rx) = mpsc::channel::<Command<u8>>(4);
    let mut task = Task::pending(
        TaskId(7),
        events_tx,
        commands_rx,
        futures::future::ready(Resolution::Established),
        17,
    );
    assert_eq!(task.poll(&mut cx), Progress::Parked);

    // The command channel holds five commands and takes no sixth.
    for payload in 0..5 {
        commands_tx.try_send(Command::NotifyHandler(payload)).unwrap();
    }
    assert!(commands_tx.try_send(Command::NotifyHandler(5)).unwrap_err().is_full());

    // The mailbox is still blocked: one cycle takes all five commands all the
    // same, and the channel has room for five again.
    assert_eq!(task.poll(&mut cx), Progress::Parked);
    assert!(matches!(task.state(), State::Ready { event: Event::Established { id } } if *id == TaskId(7)));
    for payload in 0..5 {
        commands_tx.try_send(Command::NotifyHandler(payload)).unwrap();
    }
    assert!(commands_tx.try_send(Command::NotifyHandler(5)).unwrap_err().is_full());
    assert!(matches!(events_rx.try_recv(), Ok(Event::Notify { id }) if id == TaskId(99)));
    assert!(events_rx.try_recv().is_err());

    // With room in the mailbox and commands buffered, the task drains first
    // and sends in the same cycle.
    assert_eq!(task.poll(&mut cx), Progress::Finished);
    assert!(matches!(events_rx.try_recv(), Ok(Event::Established { id }) if id == TaskId(7)));
    for payload in 0..5 {
        commands_tx.try_send(Command::NotifyHandler(payload)).unwrap();
    }
}

#[test]
fn closing_a_full_command_channel_ends_a_ready_task_in_one_cycle() {
    let waker = futures::task::noop_waker();
    let mut cx = Context::from_waker(&waker);
    let (events_tx, mut events_rx) = blocked_mailbox();
    let (mut commands_tx, commands_rx) = mpsc::channel::<Command<u8>>(4);
    let mut task = Task::pending(
        TaskId(7),
        events_tx,
        commands_rx,
        futures::future::ready(Resolution::Established),
        17,
    )
    .with_limit(5);
    assert_eq!(task.poll(&mut cx), Progress::Parked);
    assert!(matches!(task.state(), State::Ready { .. }));

    // Five commands are buffered, the sender goes, and the mailbox has room.
    for payload in 0..5 {
        commands_tx.try_send(Command::NotifyHandler(payload)).unwrap();
    }
    drop(commands_tx);
    assert!(matches!(events_rx.try_recv(), Ok(Event::Notify { id }) if id == TaskId(99)));

    assert_eq!(task.poll(&mut cx), Progress::Finished);
    assert!(task.is_done());
    assert!(!task.is_violated());
    assert!(events_rx.try_recv().is_err());
}

#[test]
fn a_task_that_yields_asks_to_be_polled_again() {
    let quiet_waker = futures::task::noop_waker();
    let mut quiet = Context::from_waker(&quiet_waker);
    let wakes = Arc::new(Wakes(AtomicUsize::new(0)));
    let waker = futures::task::waker(wakes.clone());
    let mut cx = Context::from_waker(&waker);

    let (events_tx, mut events_rx) = blocked_mailbox();
    let (mut commands_tx, commands_rx) = mpsc::channel::<Command<u8>>(4);
    let mut task = Task::pending(
        TaskId(8),
        events_tx,
        commands_rx,
        futures::future::ready(Resolution::Established),
        17,
    )
    .with_limit(2);
    assert_eq!(task.id(), TaskId(8));
    assert_eq!(task.poll(&mut quiet), Progress::Parked);
    assert!(matches!(events_rx.try_recv(), Ok(Event::Notify { .. })));

    // Three commands are buffered and the mailbox has room: a cycle that may
    // take two commands finds a third, sends nothing and asks for the next
    // cycle.
    for payload in 0..3 {
        commands_tx.try_send(Command::NotifyHandler(payload)).unwrap();
    }
    assert_eq!(wakes.0.load(Ordering::SeqCst), 0);
    assert_eq!(task.poll(&mut cx), Progress::Yielded);
    assert_eq!(wakes.0.load(Ordering::SeqCst), 1);
    assert!(matches!(task.state(), State::Ready { .. }));
    assert!(events_rx.try_recv().is_err());

    // The next cycle finds the channel empty and sends.
    assert_eq!(task.poll(&mut cx), Progress::Finished);
    assert_eq!(wakes.0.load(Ordering::SeqCst), 1);
    assert!(matches!(events_rx.try_recv(), Ok(Event::Established { id }) if id == TaskId(8)));
}

#[test]
fn a_command_for_a_pending_task_is_reported_as_a_violation() {
    let waker = futures::task::noop_waker();
    let mut cx = Context::from_waker(&waker);
    let (events_tx, mut events_rx) = mpsc::channel::<Event<u32>>(1);
    let (mut commands_tx, commands_rx) = mpsc::channel::<Command<u8>>(4);
    let mut task = Task::pending(
        TaskId(1),
        events_tx,
        commands_rx,
        futures::future::ready(Resolution::Established),
        17,
    );
    commands_tx.try_send(Command::NotifyHandler(42)).unwrap();
    assert!(!task.is_violated());
    assert_eq!(task.poll(&mut cx), Progress::Violated);
    assert!(task.is_done());
    assert!(task.is_violated());
    assert!(events_rx.try_recv().is_err());
}

#[test]
fn a_task_whose_mailbox_is_closed_is_done() {
    let waker = futures::task::noop_waker();
    let mut cx = Context::from_waker(&waker);
    let (events_tx, events_rx) = mpsc::channel::<Event<u32>>(1);
    let (_commands_tx, commands_rx) = mpsc::channel::<Command<u8>>(4);
    let mut task = Task::pending(
        TaskId(1),
        events_tx,
        commands_rx,
        futures::future::ready(Resolution::Established),
        17,
    );
    drop(events_rx);
    assert_eq!(task.poll(&mut cx), Progress::Finished);
    assert!(task.is_done());
}

#[test]
fn advance_answers_pending_until_the_task_is_done() {
    let waker = futures::task::noop_waker();
    let mut cx = Context::from_waker(&waker);
    let (events_tx, mut events_rx) = blocked_mailbox();
    let (_commands_tx, commands_rx) = mpsc::channel::<Command<u8>>(4);
    let mut task = Task::pending(
        TaskId(6),
        events_tx,
        commands_rx,
        futures::future::ready(Resolution::Established),
        17,
    );
    assert_eq!(task.advance(&mut cx), Poll::Pending);
    assert!(!task.is_done());
    assert!(matches!(events_rx.try_recv(), Ok(Event::Notify { .. })));
    assert_eq!(task.advance(&mut cx), Poll::Ready(()));
    assert!(task.is_done());
    assert!(!task.is_violated());
    assert!(matches!(events_rx.try_recv(), Ok(Event::Established { id }) if id == TaskId(6)));
    assert!(events_rx.try_recv().is_err());
}

#[test]
fn advance_ends_a_violated_task() {
    let waker = futures::task::noop_waker();
    let mut cx = Context::from_waker(&waker);
    let (events_tx, _events_rx) = mpsc::channel::<Event<u32>>(1);
    let (mut commands_tx, commands_rx) = mpsc::channel::<Command<u8>>(4);
    let mut task = Task::pending(
        TaskId(1),
        events_tx,
        commands_rx,
        futures::future::pending::<Resolution>(),
        17,
    );
    commands_tx.try_send(Command::NotifyHandler(42)).unwrap();
    assert_eq!(task.advance(&mut cx), Poll::Ready(()));
    assert!(task.is_done());
    assert!(task.is_violated());
}

#[test]
fn a_task_with_no_limit_to_spare_still_takes_one_command_a_cycle() {
    let waker = futures::task::noop_waker();
    let mut cx = Context::from_waker(&waker);
    let (events_tx, mut events_rx) = blocked_mailbox();
    let (mut commands_tx, commands_rx) = mpsc::channel::<Command<u8>>(4);
    let mut task = Task::pending(
        TaskId(9),
        events_tx,
        commands_rx,
        futures::future::ready(Resolution::Established),
        17,
    )
    .with_limit(0);
    assert_eq!(task.poll(&mut cx), Progress::Parked);
    assert!(matches!(events_rx.try_recv(), Ok(Event::Notify { .. })));
    commands_tx.try_send(Command::NotifyHandler(1)).unwrap();
    commands_tx.try_send(Command::NotifyHandler(2)).unwrap();
    assert_eq!(task.poll(&mut cx), Progress::Yielded);
    assert_eq!(task.poll(&mut cx), Progress::Yielded);
    assert!(events_rx.try_recv().is_err());
    assert_eq!(task.poll(&mut cx), Progress::Finished);
    assert!(matches!(events_rx.try_recv(), Ok(Event::Established { id }) if id == TaskId(9)));
}

#[test]
fn a_task_runs_as_a_future() {
    let (events_tx, mut events_rx) = mpsc::channel::<Event<u32>>(1);
    let (_commands_tx, commands_rx) = mpsc::channel::<Command<u8>>(4);
    let task = Task::pending(
        TaskId(21),
        events_tx,
        commands_rx,
        futures::future::ready(Resolution::Established),
        17,
    );
    futures::executor::block_on(task);
    assert!(matches!(events_rx.try_recv(), Ok(Event::Established { id }) if id == TaskId(21)));
}

#[test]
fn a_task_polled_as_a_future_is_pending_while_its_work_is() {
    let waker = futures::task::noop_waker();
    let mut cx = Context::from_waker(&waker);
    let (events_tx, _events_rx) = mpsc::channel::<Event<u32>>(1);
    let (commands_tx, commands_rx) = mpsc::channel::<Command<u8>>(4);
    let mut task = Task::pending(
        TaskId(22),
        events_tx,
        commands_rx,
        futures::future::pending::<Resolution>(),
        17,
    );
    assert_eq!(futures::FutureExt::poll_unpin(&mut task, &mut cx), Poll::Pending);
    assert!(!task.is_done());
    drop(commands_tx);
    assert_eq!(futures::FutureExt::poll_unpin(&mut task, &mut cx), Poll::Ready(()));
    assert!(task.is_done());
    assert!(!task.is_violated());
}
