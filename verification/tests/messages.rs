use task_thread_pool::Event;
use task_thread_pool::Resolution;
use task_thread_pool::TaskId;

#[test]
fn every_event_names_its_task() {
    let established: Event<u8> = Event::Established { id: TaskId(3) };
    let error: Event<u8> = Event::Error { id: TaskId(4) };
    let failed: Event<u8> = Event::Failed { id: TaskId(5), handler: 9 };
    let notify: Event<u8> = Event::Notify { id: TaskId(6) };
    assert_eq!(*established.id(), TaskId(3));
    assert_eq!(*error.id(), TaskId(4));
    assert_eq!(*failed.id(), TaskId(5));
    assert_eq!(*notify.id(), TaskId(6));
}

#[test]
fn failed_and_error_are_terminal() {
    let established: Event<u8> = Event::Established { id: TaskId(0) };
    let error: Event<u8> = Event::Error { id: TaskId(0) };
    let failed: Event<u8> = Event::Failed { id: TaskId(0), handler: 1 };
    let notify: Event<u8> = Event::Notify { id: TaskId(0) };
    assert!(!established.is_terminal());
    assert!(error.is_terminal());
    assert!(failed.is_terminal());
    assert!(!notify.is_terminal());
}

#[test]
fn success_resolves_to_established() {
    let event = Event::from_resolution(TaskId(11), "handler", Resolution::Established);
    assert!(matches!(event, Event::Established { id } if id == TaskId(11)));
}

#[test]
fn failure_hands_the_handler_back() {
    let event = Event::from_resolution(TaskId(12), "handler", Resolution::Failed);
    assert!(matches!(event, Event::Failed { id, handler } if id == TaskId(12) && handler == "handler"));
}

#[test]
fn handler_error_resolves_to_error() {
    let event = Event::from_resolution(TaskId(13), "handler", Resolution::Error);
    assert!(matches!(event, Event::Error { id } if id == TaskId(13)));
}

#[test]
fn task_ids_are_ordered_by_number() {
    assert!(TaskId(1) < TaskId(2));
    assert!(TaskId(2) > TaskId(1));
    assert_eq!(TaskId(7), TaskId(7));
    assert_ne!(TaskId(7), TaskId(8));
    assert_eq!(TaskId(5).0, 5);
}
