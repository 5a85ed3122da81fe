use flowgen::event::{report_failure, route_completion, Event, EventData, FailureReport};
use flowgen::task::{Checked, Received, Running};
use flowgen::text::{begins_with, behind, same_text};

fn event(completion_tx: Option<u32>) -> Event<u32> {
    Event {
        data: EventData::Bytes(vec![1]),
        subject: Some("test".to_string()),
        id: None,
        task_id: 1,
        task_type: "test",
        completion_tx,
        error: None,
    }
}

#[test]
fn completion_travels_with_the_event_or_is_signalled() {
    let emission = route_completion(event(None), Some(17), true);
    assert_eq!(emission.event.completion_tx, Some(17));
    assert_eq!(emission.signal, None);

    let emission = route_completion(event(None), Some(17), false);
    assert_eq!(emission.event.completion_tx, None);
    assert_eq!(emission.signal, Some(17));

    let emission = route_completion(event(None), None, true);
    assert_eq!(emission.event.completion_tx, None);
    assert_eq!(emission.signal, None);
    assert_eq!(emission.event.subject, Some("test".to_string()));
}

#[test]
fn failure_is_forwarded_signalled_or_dropped() {
    match report_failure(event(Some(17)), "why".to_string(), true) {
        FailureReport::Forward(failed) => {
            assert_eq!(failed.error, Some("why".to_string()));
            assert_eq!(failed.completion_tx, Some(17));
            assert_eq!(failed.subject, Some("test".to_string()));
        }
        other => panic!("unexpected report {other:?}"),
    }
    match report_failure(event(Some(17)), "why".to_string(), false) {
        FailureReport::Signal {
            completion,
            message,
        } => {
            assert_eq!(completion, 17);
            assert_eq!(message, "why");
        }
        other => panic!("unexpected report {other:?}"),
    }
    assert!(matches!(
        report_failure(event(None), "why".to_string(), false),
        FailureReport::Unreported
    ));
}

#[test]
fn cancelled_task_stops_with_its_handlers() {
    let task = Running { handlers: vec![1, 2] };
    match task.checked(true) {
        Checked::Stop(handlers) => assert_eq!(handlers, vec![1, 2]),
        other => panic!("unexpected state {other:?}"),
    }
}

#[test]
fn closed_channel_stops_the_task() {
    let listening = match (Running { handlers: vec![1] }).checked(false) {
        Checked::Listen(listening) => listening,
        other => panic!("unexpected state {other:?}"),
    };
    match listening.received::<&str>(None) {
        Received::Stop(handlers) => assert_eq!(handlers, vec![1]),
        other => panic!("unexpected state {other:?}"),
    }
}

#[test]
fn event_is_dispatched_and_its_handler_kept() {
    let listening = match Running::new().checked(false) {
        Checked::Listen(listening) => listening,
        other => panic!("unexpected state {other:?}"),
    };
    let dispatching = match listening.received(Some("event")) {
        Received::Dispatch(dispatching) => dispatching,
        other => panic!("unexpected state {other:?}"),
    };
    assert_eq!(dispatching.event, "event");
    assert_eq!(dispatching.started(7).handlers, vec![7]);
}

#[test]
fn finished_handlers_are_forgotten() {
    let task = || Running {
        handlers: vec![1, 2, 3, 4],
    };
    assert_eq!(
        task()
            .retain_unfinished(&vec![true, false, true, false])
            .handlers,
        vec![2, 4]
    );
    assert_eq!(
        task().retain_unfinished(&vec![true]).handlers,
        vec![2, 3, 4]
    );
    assert!(task()
        .retain_unfinished(&vec![true, true, true, true])
        .handlers
        .is_empty());
}

#[test]
fn texts() {
    assert!(same_text("_id", "_id"));
    assert!(!same_text("_id", "_ids"));
    assert!(begins_with("$set", '$'));
    assert!(!begins_with("set$", '$'));
    assert!(!begins_with("", '$'));
    assert_eq!(behind("a: ", "b".to_string()), "a: b");
}

#[test]
fn stopped_task_waits_for_every_unfinished_handler() {
    let mut task: Running<u32> = Running::new();
    for handler in [1, 2, 3] {
        let listening = match task.checked(false) {
            Checked::Listen(listening) => listening,
            other => panic!("unexpected state {other:?}"),
        };
        let dispatching = match listening.received(Some("event")) {
            Received::Dispatch(dispatching) => dispatching,
            other => panic!("unexpected state {other:?}"),
        };
        let running = dispatching.started(handler);
        let finished: Vec<bool> = running.handlers.iter().map(|held| *held == 2).collect();
        task = running.retain_unfinished(&finished);
    }
    match task.checked(true) {
        Checked::Stop(handlers) => assert_eq!(handlers, vec![1, 3]),
        other => panic!("unexpected state {other:?}"),
    }
}
