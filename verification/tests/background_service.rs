use eris_lib::scheduling::background_service::{
    background_service, delivered, respond, response, submitted, BackgroundServiceError,
    BackgroundServiceRequest, Delivery, Worker, WorkerAction, WorkerEvent,
};
use std::time::Duration;

type Event = WorkerEvent<&'static str, u32, String, String>;

fn request(payload: &'static str, reply_to: Option<u32>) -> BackgroundServiceRequest<&'static str, u32> {
    BackgroundServiceRequest { request: payload, callback_tx: reply_to, timeout_dur: None }
}

/// Runs the worker over `events` and returns the replies it sends, in order.
fn replies(events: Vec<Event>) -> Vec<(u32, Result<String, String>)> {
    let mut worker: Worker<u32> = Worker::new();
    let mut sent = Vec::new();
    for event in events {
        let (next, action) = worker.step(event);
        worker = next;
        if let WorkerAction::Respond { callback_tx, response } = action {
            sent.push((callback_tx, response));
        }
    }
    sent
}

#[test]
fn replies_leave_in_the_order_of_the_requests() {
    let sent = replies(vec![
        WorkerEvent::Received(request("a", Some(1))),
        WorkerEvent::Completed(Ok("A".to_string())),
        WorkerEvent::Received(request("b", Some(2))),
        WorkerEvent::Completed(Err("no".to_string())),
        WorkerEvent::Received(request("c", Some(3))),
        WorkerEvent::Completed(Ok("C".to_string())),
    ]);
    assert_eq!(
        sent,
        vec![(1, Ok("A".to_string())), (2, Err("no".to_string())), (3, Ok("C".to_string()))]
    );
}

#[test]
fn request_without_callback_gets_no_reply() {
    let sent = replies(vec![
        WorkerEvent::Received(request("a", None)),
        WorkerEvent::Completed(Ok("A".to_string())),
        WorkerEvent::Received(request("b", Some(9))),
        WorkerEvent::Completed(Ok("B".to_string())),
    ]);
    assert_eq!(sent, vec![(9, Ok("B".to_string()))]);
}

#[test]
fn timed_out_request_gets_no_reply_and_the_next_is_taken() {
    let worker: Worker<u32> = Worker::new();
    let timed = BackgroundServiceRequest {
        request: "slow",
        callback_tx: Some(4),
        timeout_dur: Some(Duration::from_millis(5)),
    };
    let (worker, action) = worker.step::<&str, String, String>(WorkerEvent::Received(timed));
    assert!(matches!(
        action,
        WorkerAction::Execute { request: "slow", timeout_dur: Some(d) } if d == Duration::from_millis(5)
    ));
    assert!(matches!(worker, Worker::Executing { callback_tx: Some(4) }));
    let (worker, action) = worker.step::<&str, String, String>(WorkerEvent::TimedOut);
    assert!(matches!(action, WorkerAction::Receive));
    assert!(matches!(worker, Worker::Idle));
}

#[test]
fn request_without_deadline_is_run_without_one() {
    let worker: Worker<u32> = Worker::new();
    let (_, action) =
        worker.step::<&str, String, String>(WorkerEvent::Received(request("a", Some(1))));
    assert!(matches!(action, WorkerAction::Execute { request: "a", timeout_dur: None }));
}

#[test]
fn closed_queue_stops_the_worker() {
    let worker: Worker<u32> = Worker::new();
    let (worker, action) = worker.step::<&str, String, String>(WorkerEvent::Closed);
    assert!(matches!(action, WorkerAction::Stop));
    assert!(matches!(worker, Worker::Stopped));
}

#[test]
fn request_constructors_set_callback_and_deadline() {
    let plain: BackgroundServiceRequest<u8, u32> = BackgroundServiceRequest::call(1, 10);
    assert_eq!((plain.request, plain.callback_tx, plain.timeout_dur), (1, Some(10), None));
    let timed: BackgroundServiceRequest<u8, u32> =
        BackgroundServiceRequest::call_with_timeout(2, 20, Duration::from_secs(3));
    assert_eq!(
        (timed.request, timed.callback_tx, timed.timeout_dur),
        (2, Some(20), Some(Duration::from_secs(3)))
    );
    let forgotten: BackgroundServiceRequest<u8, u32> = BackgroundServiceRequest::fire_and_forget(3);
    assert_eq!((forgotten.request, forgotten.callback_tx, forgotten.timeout_dur), (3, None, None));
}

#[test]
fn response_reads_what_the_reply_channel_gave() {
    let ok: Result<u8, BackgroundServiceError<&str, String>> = response(Some(Ok(5)));
    assert!(matches!(ok, Ok(5)));
    let failed: Result<u8, BackgroundServiceError<&str, String>> =
        response(Some(Err("boom".to_string())));
    assert!(matches!(failed, Err(BackgroundServiceError::ServiceError(e)) if e == "boom"));
    let closed: Result<u8, BackgroundServiceError<&str, String>> = response(None);
    assert!(matches!(closed, Err(BackgroundServiceError::ResponseNotReceived)));
}

#[test]
fn refused_submission_returns_the_payload() {
    let refused: Result<(), BackgroundServiceError<&str, String>> =
        submitted(Some(request("lost", Some(1))));
    assert!(matches!(refused, Err(BackgroundServiceError::RequestNotSent("lost"))));
    let taken: Result<(), BackgroundServiceError<&str, String>> =
        submitted::<&str, u32, String>(None);
    assert!(taken.is_ok());
}

#[test]
fn handle_queues_requests_in_submission_order() {
    let (handle, mut queue) = background_service::<&str, String, String>();
    handle.fire_and_forget("first").unwrap();
    let _waiting = handle.call("second").unwrap();
    let _timed = handle.call_with_timeout("third", Duration::from_secs(2)).unwrap();
    let first = queue.try_recv().unwrap();
    assert_eq!(first.request, "first");
    assert!(first.callback_tx.is_none());
    assert!(first.timeout_dur.is_none());
    let second = queue.try_recv().unwrap();
    assert_eq!(second.request, "second");
    assert!(second.callback_tx.is_some());
    assert!(second.timeout_dur.is_none());
    let third = queue.try_recv().unwrap();
    assert_eq!(third.request, "third");
    assert!(third.callback_tx.is_some());
    assert_eq!(third.timeout_dur, Some(Duration::from_secs(2)));
    assert!(queue.try_recv().is_err());
}

#[test]
fn reply_sent_by_the_worker_reaches_the_caller() {
    let (handle, mut queue) = background_service::<&str, String, String>();
    let mut waiting = handle.call("ping").unwrap();
    let worker = Worker::new();
    let (worker, action) = worker.step::<&str, String, String>(WorkerEvent::Received(queue.try_recv().unwrap()));
    assert!(matches!(action, WorkerAction::Execute { request: "ping", .. }));
    let (_, action) = worker.step::<&str, String, String>(WorkerEvent::Completed(Ok("pong".to_string())));
    match action {
        WorkerAction::Respond { callback_tx, response } => {
            assert_eq!(respond(callback_tx, response), Delivery::Delivered)
        }
        _ => panic!("the worker owes a reply"),
    }
    let outcome: Result<String, BackgroundServiceError<&str, String>> =
        response(waiting.try_recv().ok());
    assert!(matches!(outcome, Ok(reply) if reply == "pong"));
}

#[test]
fn after_worker_shutdown_requests_come_back() {
    let (handle, queue) = background_service::<String, String, String>();
    assert!(handle.fire_and_forget("before".to_string()).is_ok());
    drop(queue);
    assert_eq!(handle.fire_and_forget("after".to_string()), Err("after".to_string()));
    let refused = handle.call("again".to_string());
    assert!(matches!(refused, Err(BackgroundServiceError::RequestNotSent(payload)) if payload == "again"));
    let refused = handle.call_with_timeout("late".to_string(), Duration::from_secs(1));
    assert!(matches!(refused, Err(BackgroundServiceError::RequestNotSent(payload)) if payload == "late"));
}

#[test]
fn caller_of_a_dropped_request_sees_no_response() {
    let (handle, mut queue) = background_service::<&str, String, String>();
    let mut waiting = handle.call_with_timeout("slow", Duration::from_millis(1)).unwrap();
    let worker = Worker::new();
    let (worker, _) = worker.step::<&str, String, String>(WorkerEvent::Received(queue.try_recv().unwrap()));
    let (_, action) = worker.step::<&str, String, String>(WorkerEvent::TimedOut);
    assert!(matches!(action, WorkerAction::Receive));
    let outcome: Result<String, BackgroundServiceError<&str, String>> =
        response(waiting.try_recv().ok());
    assert!(matches!(outcome, Err(BackgroundServiceError::ResponseNotReceived)));
}

#[test]
fn clones_of_a_handle_feed_the_same_queue() {
    let (handle, mut queue) = background_service::<u32, u32, u32>();
    let other = handle.clone();
    handle.fire_and_forget(1).unwrap();
    other.fire_and_forget(2).unwrap();
    handle.fire_and_forget(3).unwrap();
    let order: Vec<u32> = (0..3).map(|_| queue.try_recv().unwrap().request).collect();
    assert_eq!(order, vec![1, 2, 3]);
}

#[test]
fn reply_to_a_caller_that_left_is_dropped() {
    let (callback_tx, callback_rx) = tokio::sync::oneshot::channel::<Result<u8, String>>();
    drop(callback_rx);
    assert_eq!(respond(callback_tx, Ok(1)), Delivery::ResponseNotDelivered);
    let (callback_tx, callback_rx) = tokio::sync::oneshot::channel::<Result<u8, String>>();
    drop(callback_rx);
    assert_eq!(respond(callback_tx, Err("late".to_string())), Delivery::ErrorNotDelivered);
    let (callback_tx, mut callback_rx) = tokio::sync::oneshot::channel::<Result<u8, String>>();
    assert_eq!(respond(callback_tx, Ok(9)), Delivery::Delivered);
    assert_eq!(callback_rx.try_recv(), Ok(Ok(9)));
    assert_eq!(delivered::<u8, String>(None), Delivery::Delivered);
    assert_eq!(delivered::<u8, String>(Some(Ok(1))), Delivery::ResponseNotDelivered);
    assert_eq!(delivered::<u8, String>(Some(Err("e".to_string()))), Delivery::ErrorNotDelivered);
}
