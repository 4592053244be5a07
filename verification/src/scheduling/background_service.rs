//! Runs a handler that is not safe to share in a worker of its own, behind a
//! handle that is.
//!
//! The handle puts requests on an unbounded channel. The worker takes them
//! off one at a time; what it decides between two waits is [`Worker::step`].

use crate::channels::{
    is_oneshot_channel, is_unbounded_channel, refused, refused_message, send_on, send_once_on,
    sent, sent_once,
};
use std::time::Duration;
use vstd::prelude::*;

verus! {

/// An error when trying to process a request through a background service.
#[derive(Debug)]
pub enum BackgroundServiceError<Req, E> {
    /// Service closed channel before request was sent
    RequestNotSent(Req),
    /// Service closed channel before responding
    ResponseNotReceived,
    /// Service did not respond within a specified duration
    ResponseTimedOut(Duration),
    /// Service returned an error
    ServiceError(E),
}

/// One request on its way to the worker. `Tx` is the sending half of the
/// channel on which the caller waits for the reply.
pub struct BackgroundServiceRequest<Req, Tx> {
    /// What the handler is asked.
    pub request: Req,
    /// Where the reply goes, if the caller waits for one.
    pub callback_tx: Option<Tx>,
    /// How long the worker waits for the handler, if not for ever.
    pub timeout_dur: Option<Duration>,
}

impl<Req, Tx> BackgroundServiceRequest<Req, Tx> {
    /// The request of a caller that waits for the reply on the other half of
    /// `callback_tx`, for as long as the handler takes.
    pub fn call(request: Req, callback_tx: Tx) -> (queued: Self)
        ensures
            queued == (BackgroundServiceRequest {
                request,
                callback_tx: Some(callback_tx),
                timeout_dur: None,
            }),
    {
        BackgroundServiceRequest { request, callback_tx: Some(callback_tx), timeout_dur: None }
    }

    /// The request of a caller that waits for the reply on the other half of
    /// `callback_tx`, and whose handler is given up on after `duration`.
    pub fn call_with_timeout(request: Req, callback_tx: Tx, duration: Duration) -> (queued: Self)
        ensures
            queued == (BackgroundServiceRequest {
                request,
                callback_tx: Some(callback_tx),
                timeout_dur: Some(duration),
            }),
    {
        BackgroundServiceRequest {
            request,
            callback_tx: Some(callback_tx),
            timeout_dur: Some(duration),
        }
    }

    /// The request of a caller that does not wait.
    pub fn fire_and_forget(request: Req) -> (queued: Self)
        ensures
            queued == (BackgroundServiceRequest::<Req, Tx> {
                request,
                callback_tx: None,
                timeout_dur: None,
            }),
    {
        BackgroundServiceRequest { request, callback_tx: None, timeout_dur: None }
    }
}

/// What the caller of a handle is told about its submission; `refused` is
/// the request that the queue did not take, if it did not.
pub open spec fn submitted_spec<Req, Tx, E>(refused: Option<BackgroundServiceRequest<Req, Tx>>) -> Result<
    (),
    BackgroundServiceError<Req, E>,
> {
    match refused {
        None => Ok(()),
        Some(returned) => Err(BackgroundServiceError::RequestNotSent(returned.request)),
    }
}

/// Takes in what the queue made of a submission: `refused` is the request
/// that it did not take, if it did not.
///
/// A request that the queue took is sent. One that it refused, because the
/// worker is gone, goes back to the caller: its payload comes in
/// `RequestNotSent`, so that it is not lost.
pub fn submitted<Req, Tx, E>(refused: Option<BackgroundServiceRequest<Req, Tx>>) -> (outcome: Result<
    (),
    BackgroundServiceError<Req, E>,
>)
    ensures
        outcome == submitted_spec::<Req, Tx, E>(refused),
{
    match refused {
        None => Ok(()),
        Some(returned) => Err(BackgroundServiceError::RequestNotSent(returned.request)),
    }
}

/// A handle to a background service.
#[derive(Clone)]
#[verifier::reject_recursive_types(Req)]
#[verifier::reject_recursive_types(Resp)]
#[verifier::reject_recursive_types(E)]
pub struct BackgroundServiceHandle<Req, Resp, E>(
    tokio::sync::mpsc::UnboundedSender<
        BackgroundServiceRequest<Req, tokio::sync::oneshot::Sender<Result<Resp, E>>>,
    >,
);

/// The request queue between the handles and the worker of one service.
pub type RequestReceiver<Req, Resp, E> = tokio::sync::mpsc::UnboundedReceiver<
    BackgroundServiceRequest<Req, tokio::sync::oneshot::Sender<Result<Resp, E>>>,
>;

/// Where the caller of a handle waits for the worker's reply.
pub type ReplyReceiver<Resp, E> = tokio::sync::oneshot::Receiver<Result<Resp, E>>;

/// What a caller makes of the end of its wait: the reply that came, or
/// `ResponseNotReceived` where the reply channel was closed without one.
pub open spec fn response_spec<Req, Resp, E>(reply: Option<Result<Resp, E>>) -> Result<
    Resp,
    BackgroundServiceError<Req, E>,
> {
    match reply {
        Some(Ok(response)) => Ok(response),
        Some(Err(error)) => Err(BackgroundServiceError::ServiceError(error)),
        None => Err(BackgroundServiceError::ResponseNotReceived),
    }
}

/// What a caller makes of the end of its wait: `reply` is what the reply
/// channel gave, `None` where it was closed without a reply.
///
/// A worker that gave up on a request after its deadline sends nothing, so
/// that caller sees `ResponseNotReceived` too.
pub fn response<Req, Resp, E>(reply: Option<Result<Resp, E>>) -> (outcome: Result<
    Resp,
    BackgroundServiceError<Req, E>,
>)
    ensures
        outcome == response_spec::<Req, Resp, E>(reply),
{
    match reply {
        Some(Ok(response)) => Ok(response),
        Some(Err(error)) => Err(BackgroundServiceError::ServiceError(error)),
        None => Err(BackgroundServiceError::ResponseNotReceived),
    }
}

/// What a handle answers to a caller that waits, given the receiving half of
/// the caller's reply channel and the queue's answer to the request: the
/// receiving half where the queue took the request, and the payload in
/// `RequestNotSent` where it did not.
pub open spec fn queued_spec<Req, Resp, E>(
    callback_rx: ReplyReceiver<Resp, E>,
    answer: Result<(), BackgroundServiceRequest<Req, tokio::sync::oneshot::Sender<Result<Resp, E>>>>,
) -> Result<ReplyReceiver<Resp, E>, BackgroundServiceError<Req, E>> {
    match submitted_spec::<Req, tokio::sync::oneshot::Sender<Result<Resp, E>>, E>(refused(answer)) {
        Ok(()) => Ok(callback_rx),
        Err(error) => Err(error),
    }
}

/// Whether `queued` is what a handle answers for `request` when
/// `callback_tx` and `callback_rx` are the halves of the caller's new reply
/// channel and `answer` is what the queue answers to the request sent with
/// `callback_tx` and `timeout_dur`.
pub open spec fn submission<Req, Resp, E>(
    handle: BackgroundServiceHandle<Req, Resp, E>,
    request: Req,
    timeout_dur: Option<Duration>,
    callback_tx: tokio::sync::oneshot::Sender<Result<Resp, E>>,
    callback_rx: ReplyReceiver<Resp, E>,
    answer: Result<(), BackgroundServiceRequest<Req, tokio::sync::oneshot::Sender<Result<Resp, E>>>>,
    queued: Result<ReplyReceiver<Resp, E>, BackgroundServiceError<Req, E>>,
) -> bool {
    &&& is_oneshot_channel(callback_tx, callback_rx)
    &&& sent(
        handle.sender(),
        BackgroundServiceRequest { request, callback_tx: Some(callback_tx), timeout_dur },
        answer,
    )
    &&& queued == queued_spec(callback_rx, answer)
}

/// What `fire_and_forget` answers, given the queue's answer to the request:
/// the payload of a request that the queue did not take.
pub open spec fn forgotten<Req, Tx>(answer: Result<(), BackgroundServiceRequest<Req, Tx>>) -> Result<
    (),
    Req,
> {
    match answer {
        Ok(()) => Ok(()),
        Err(returned) => Err(returned.request),
    }
}

/// Makes the queue of a new background service: the handle for its callers
/// and the receiving half for its worker, both of one new channel.
pub fn background_service<Req, Resp, E>() -> (halves: (
    BackgroundServiceHandle<Req, Resp, E>,
    RequestReceiver<Req, Resp, E>,
))
    ensures
        is_unbounded_channel(halves.0.sender(), halves.1),
{
    let (mpsc_tx, mpsc_rx) = tokio::sync::mpsc::unbounded_channel();
    (BackgroundServiceHandle(mpsc_tx), mpsc_rx)
}

impl<Req, Resp, E> BackgroundServiceHandle<Req, Resp, E> {
    /// The sending half of the request queue.
    pub closed spec fn sender(self) -> tokio::sync::mpsc::UnboundedSender<
        BackgroundServiceRequest<Req, tokio::sync::oneshot::Sender<Result<Resp, E>>>,
    > {
        self.0
    }

    /// Invoke the background service with unlimited timeout.
    ///
    /// The request is sent on the queue with the sending half of a new reply
    /// channel and with no deadline. Where the queue takes it, the caller
    /// gets the receiving half and waits on it for the reply; [`response`]
    /// reads what comes. Where the worker is gone nothing is queued and the
    /// request comes back in `RequestNotSent`.
    pub fn call(&self, request: Req) -> (queued: Result<
        ReplyReceiver<Resp, E>,
        BackgroundServiceError<Req, E>,
    >)
        ensures
            exists|
                callback_tx: tokio::sync::oneshot::Sender<Result<Resp, E>>,
                callback_rx: ReplyReceiver<Resp, E>,
                answer: Result<
                    (),
                    BackgroundServiceRequest<Req, tokio::sync::oneshot::Sender<Result<Resp, E>>>,
                >,
            | submission(*self, request, None, callback_tx, callback_rx, answer, queued),
            queued matches Err(error) ==> error == BackgroundServiceError::<Req, E>::RequestNotSent(
                request,
            ),
    {
        self.submit(request, None)
    }

    /// Invoke the background service, whose worker gives up on the handler
    /// after `duration`.
    ///
    /// As [`call`](Self::call), but the request is sent with `duration` as
    /// its deadline; a request that the worker gave up on gets no reply at
    /// all.
    pub fn call_with_timeout(&self, request: Req, duration: Duration) -> (queued: Result<
        ReplyReceiver<Resp, E>,
        BackgroundServiceError<Req, E>,
    >)
        ensures
            exists|
                callback_tx: tokio::sync::oneshot::Sender<Result<Resp, E>>,
                callback_rx: ReplyReceiver<Resp, E>,
                answer: Result<
                    (),
                    BackgroundServiceRequest<Req, tokio::sync::oneshot::Sender<Result<Resp, E>>>,
                >,
            |
                submission(
                    *self,
                    request,
                    Some(duration),
                    callback_tx,
                    callback_rx,
                    answer,
                    queued,
                ),
            queued matches Err(error) ==> error == BackgroundServiceError::<Req, E>::RequestNotSent(
                request,
            ),
    {
        self.submit(request, Some(duration))
    }

    /// Invoke the background service and don't wait for a response.
    ///
    /// The request is sent on the queue with no reply channel and no
    /// deadline. If the worker is gone the request comes back.
    pub fn fire_and_forget(&self, request: Req) -> (outcome: Result<(), Req>)
        ensures
            exists|
                answer: Result<
                    (),
                    BackgroundServiceRequest<Req, tokio::sync::oneshot::Sender<Result<Resp, E>>>,
                >,
            | #[trigger]
                sent(
                    self.sender(),
                    BackgroundServiceRequest { request, callback_tx: None, timeout_dur: None },
                    answer,
                ) && outcome == forgotten(answer),
            outcome matches Err(returned) ==> returned == request,
    {
        let answer = send_on(&self.0, BackgroundServiceRequest::fire_and_forget(request));
        let outcome = match answer {
            Ok(()) => Ok(()),
            Err(returned) => Err(returned.request),
        };
        assert(sent(
            self.sender(),
            BackgroundServiceRequest { request, callback_tx: None, timeout_dur: None },
            answer,
        ) && outcome == forgotten(answer));
        outcome
    }

    /// Sends `request` on the queue with the sending half of a new reply
    /// channel and with `timeout_dur`, and answers with the receiving half
    /// or, where the queue did not take the request, with its payload.
    fn submit(&self, request: Req, timeout_dur: Option<Duration>) -> (queued: Result<
        ReplyReceiver<Resp, E>,
        BackgroundServiceError<Req, E>,
    >)
        ensures
            exists|
                callback_tx: tokio::sync::oneshot::Sender<Result<Resp, E>>,
                callback_rx: ReplyReceiver<Resp, E>,
                answer: Result<
                    (),
                    BackgroundServiceRequest<Req, tokio::sync::oneshot::Sender<Result<Resp, E>>>,
                >,
            | submission(*self, request, timeout_dur, callback_tx, callback_rx, answer, queued),
            queued matches Err(error) ==> error == BackgroundServiceError::<Req, E>::RequestNotSent(
                request,
            ),
    {
        let (callback_tx, callback_rx) = tokio::sync::oneshot::channel();
        let background_service_request = match timeout_dur {
            Some(duration) => BackgroundServiceRequest::call_with_timeout(
                request,
                callback_tx,
                duration,
            ),
            None => BackgroundServiceRequest::call(request, callback_tx),
        };
        let answer = send_on(&self.0, background_service_request);
        let queued = match submitted(refused_message(answer)) {
            Ok(()) => Ok(callback_rx),
            Err(error) => Err(error),
        };
        assert(submission(*self, request, timeout_dur, callback_tx, callback_rx, answer, queued));
        queued
    }
}

/// What became of a reply.
#[derive(Debug, Clone, Copy, PartialEq, Eq, Structural)]
pub enum Delivery {
    /// The reply channel took it.
    Delivered,
    /// The caller had stopped waiting for a response.
    ResponseNotDelivered,
    /// The caller had stopped waiting for what turned out an error.
    ErrorNotDelivered,
}

/// What became of a reply; `returned` is the reply that the reply channel
/// did not take, if it did not.
pub open spec fn delivery<Resp, E>(returned: Option<Result<Resp, E>>) -> Delivery {
    match returned {
        None => Delivery::Delivered,
        Some(Ok(_)) => Delivery::ResponseNotDelivered,
        Some(Err(_)) => Delivery::ErrorNotDelivered,
    }
}

/// Takes in what the reply channel made of a reply: `returned` is the reply
/// that it did not take, if it did not. A reply that no one waits for is
/// dropped, and what was dropped is told.
pub fn delivered<Resp, E>(returned: Option<Result<Resp, E>>) -> (outcome: Delivery)
    ensures
        outcome == delivery(returned),
{
    match returned {
        None => Delivery::Delivered,
        Some(Ok(_)) => Delivery::ResponseNotDelivered,
        Some(Err(_)) => Delivery::ErrorNotDelivered,
    }
}

/// Sends the handler's result, error or not, on the reply channel of the
/// caller that waits for it, and tells what became of it. A caller that has
/// stopped waiting costs the worker nothing: the reply is dropped and the
/// worker goes on.
pub fn respond<Resp, E>(
    callback_tx: tokio::sync::oneshot::Sender<Result<Resp, E>>,
    response: Result<Resp, E>,
) -> (outcome: Delivery)
    ensures
        exists|answer: Result<(), Result<Resp, E>>| #[trigger]
            sent_once(callback_tx, response, answer) && outcome == delivery(refused(answer)),
        outcome == Delivery::Delivered || outcome == delivery(Some(response)),
{
    let answer = send_once_on(callback_tx, response);
    delivered(refused_message(answer))
}

/// Where the worker of a background service stands between two waits.
pub enum Worker<Tx> {
    /// Waiting for the next request.
    Idle,
    /// Waiting for the handler to finish the request whose reply, if any,
    /// goes to `callback_tx`.
    Executing { callback_tx: Option<Tx> },
    /// The queue is closed and drained.
    Stopped,
}

/// What the worker's wait ended with.
pub enum WorkerEvent<Req, Tx, Resp, E> {
    /// The queue gave the next request.
    Received(BackgroundServiceRequest<Req, Tx>),
    /// The queue is closed and drained: every handle is gone.
    Closed,
    /// The handler finished.
    Completed(Result<Resp, E>),
    /// The request's deadline passed before the handler finished.
    TimedOut,
}

/// What the worker does next.
pub enum WorkerAction<Req, Tx, Resp, E> {
    /// Wait for the next request.
    Receive,
    /// Wait until the handler is ready, then run it on `request`; with a
    /// `timeout_dur`, give up after that long.
    Execute { request: Req, timeout_dur: Option<Duration> },
    /// Send `response` on `callback_tx`, then wait for the next request.
    Respond { callback_tx: Tx, response: Result<Resp, E> },
    /// Leave the loop.
    Stop,
}

impl<Tx> Worker<Tx> {
    /// Whether `event` can end the wait that the worker is in.
    pub open spec fn accepts<Req, Resp, E>(self, event: WorkerEvent<Req, Tx, Resp, E>) -> bool {
        match self {
            Worker::Idle => event is Received || event is Closed,
            Worker::Executing { .. } => event is Completed || event is TimedOut,
            Worker::Stopped => false,
        }
    }

    /// The state after `event` and the action that answers it.
    pub open spec fn decide<Req, Resp, E>(self, event: WorkerEvent<Req, Tx, Resp, E>) -> (
        Worker<Tx>,
        WorkerAction<Req, Tx, Resp, E>,
    ) {
        match (self, event) {
            (Worker::Idle, WorkerEvent::Received(received)) => (
                Worker::Executing { callback_tx: received.callback_tx },
                WorkerAction::Execute {
                    request: received.request,
                    timeout_dur: received.timeout_dur,
                },
            ),
            (Worker::Idle, WorkerEvent::Closed) => (Worker::Stopped, WorkerAction::Stop),
            (
                Worker::Executing { callback_tx: Some(callback_tx) },
                WorkerEvent::Completed(response),
            ) => (Worker::Idle, WorkerAction::Respond { callback_tx, response }),
            (Worker::Executing { callback_tx: None }, WorkerEvent::Completed(_)) => (
                Worker::Idle,
                WorkerAction::Receive,
            ),
            (Worker::Executing { .. }, WorkerEvent::TimedOut) => (
                Worker::Idle,
                WorkerAction::Receive,
            ),
            _ => (Worker::Stopped, WorkerAction::Stop),
        }
    }

    /// Whether each of `events` can end the wait that the one before it has
    /// led to.
    pub open spec fn follows<Req, Resp, E>(self, events: Seq<WorkerEvent<Req, Tx, Resp, E>>) -> bool
        decreases events.len(),
    {
        events.len() > 0 ==> self.accepts(events[0]) && self.decide(events[0]).0.follows(
            events.drop_first(),
        )
    }

    /// The state after all of `events`.
    pub open spec fn after<Req, Resp, E>(self, events: Seq<WorkerEvent<Req, Tx, Resp, E>>) -> Worker<
        Tx,
    >
        decreases events.len(),
    {
        if events.len() == 0 {
            self
        } else {
            self.decide(events[0]).0.after(events.drop_first())
        }
    }

    /// The replies that the worker sends while `events` happen, each with the
    /// channel that it goes to, in the order of sending.
    pub open spec fn replies<Req, Resp, E>(self, events: Seq<WorkerEvent<Req, Tx, Resp, E>>) -> Seq<
        (Tx, Result<Resp, E>),
    >
        decreases events.len(),
    {
        if events.len() == 0 {
            Seq::empty()
        } else {
            let (next, action) = self.decide(events[0]);
            let rest = next.replies(events.drop_first());
            match action {
                WorkerAction::Respond { callback_tx, response } => seq![(callback_tx, response)]
                    + rest,
                _ => rest,
            }
        }
    }

    /// A worker that waits for its first request.
    pub fn new() -> (worker: Self)
        ensures
            worker == Worker::<Tx>::Idle,
    {
        Worker::Idle
    }

    /// Takes in what ended the wait and says what to do next.
    ///
    /// A request that arrives is run, under its deadline if it has one. When
    /// the handler finishes, its result, error or not, goes to the caller
    /// that waits for it, if one does. When the deadline passes first,
    /// nothing is sent. Either way the next request is taken only then. When
    /// the queue is closed the worker stops. It also stops on an event that
    /// cannot end the wait that it is in.
    pub fn step<Req, Resp, E>(self, event: WorkerEvent<Req, Tx, Resp, E>) -> (next: (
        Worker<Tx>,
        WorkerAction<Req, Tx, Resp, E>,
    ))
        ensures
            next == self.decide(event),
            !self.accepts(event) ==> next.0 == Worker::<Tx>::Stopped && next.1 is Stop,
    {
        match self {
            Worker::Idle => match event {
                WorkerEvent::Received(received) => (
                    Worker::Executing { callback_tx: received.callback_tx },
                    WorkerAction::Execute {
                        request: received.request,
                        timeout_dur: received.timeout_dur,
                    },
                ),
                _ => (Worker::Stopped, WorkerAction::Stop),
            },
            Worker::Executing { callback_tx } => match event {
                WorkerEvent::Completed(response) => match callback_tx {
                    Some(callback_tx) => (
                        Worker::Idle,
                        WorkerAction::Respond { callback_tx, response },
                    ),
                    None => (Worker::Idle, WorkerAction::Receive),
                },
                WorkerEvent::TimedOut => (Worker::Idle, WorkerAction::Receive),
                _ => (Worker::Stopped, WorkerAction::Stop),
            },
            Worker::Stopped => (Worker::Stopped, WorkerAction::Stop),
        }
    }
}

/// No caller is ever told that its request timed out: a request that the
/// worker gave up on gets no reply, and its caller sees
/// `ResponseNotReceived`, as it does when the worker is gone.
pub proof fn lemma_timeout_is_never_reported<Req, Tx, Resp, E>(
    reply: Option<Result<Resp, E>>,
    refused: Option<BackgroundServiceRequest<Req, Tx>>,
)
    ensures
        !(response_spec::<Req, Resp, E>(reply) matches Err(
            BackgroundServiceError::ResponseTimedOut(_),
        )),
        !(submitted_spec::<Req, Tx, E>(refused) matches Err(
            BackgroundServiceError::ResponseTimedOut(_),
        )),
        forall|callback_tx: Option<Tx>|
            (#[trigger] (Worker::Executing { callback_tx }).decide(
                WorkerEvent::<Req, Tx, Resp, E>::TimedOut,
            )).1 is Receive,
{
}

/// What the worker sees when the queue gives `requests` in this order and the
/// handler ends the `i`-th of them with `outcomes[i]`, `None` standing for a
/// deadline that passed.
pub open spec fn session<Req, Tx, Resp, E>(
    requests: Seq<BackgroundServiceRequest<Req, Tx>>,
    outcomes: Seq<Option<Result<Resp, E>>>,
) -> Seq<WorkerEvent<Req, Tx, Resp, E>>
    decreases requests.len(),
{
    if requests.len() == 0 || outcomes.len() == 0 {
        Seq::empty()
    } else {
        seq![
            WorkerEvent::Received(requests[0]),
            match outcomes[0] {
                Some(response) => WorkerEvent::Completed(response),
                None => WorkerEvent::TimedOut,
            },
        ] + session(requests.drop_first(), outcomes.drop_first())
    }
}

/// The replies that are owed for `requests`, in the order of the requests:
/// one for each request that has a reply channel and whose handler finished.
pub open spec fn replies_owed<Req, Tx, Resp, E>(
    requests: Seq<BackgroundServiceRequest<Req, Tx>>,
    outcomes: Seq<Option<Result<Resp, E>>>,
) -> Seq<(Tx, Result<Resp, E>)>
    decreases requests.len(),
{
    if requests.len() == 0 || outcomes.len() == 0 {
        Seq::empty()
    } else {
        let rest = replies_owed(requests.drop_first(), outcomes.drop_first());
        match (requests[0].callback_tx, outcomes[0]) {
            (Some(callback_tx), Some(response)) => seq![(callback_tx, response)] + rest,
            _ => rest,
        }
    }
}

/// Replies leave in the order in which their requests were queued: the
/// worker sends exactly the replies that are owed, in the order of the
/// requests, and is idle again after the last.
pub proof fn lemma_replies_in_request_order<Req, Tx, Resp, E>(
    requests: Seq<BackgroundServiceRequest<Req, Tx>>,
    outcomes: Seq<Option<Result<Resp, E>>>,
)
    requires
        requests.len() == outcomes.len(),
    ensures
        Worker::<Tx>::Idle.follows(session(requests, outcomes)),
        Worker::<Tx>::Idle.replies(session(requests, outcomes)) == replies_owed(requests, outcomes),
        Worker::<Tx>::Idle.after(session(requests, outcomes)) == Worker::<Tx>::Idle,
    decreases requests.len(),
{
    let idle = Worker::<Tx>::Idle;
    let events = session(requests, outcomes);
    if requests.len() > 0 {
        let tail = session(requests.drop_first(), outcomes.drop_first());
        lemma_replies_in_request_order(requests.drop_first(), outcomes.drop_first());
        let busy = idle.decide(events[0]).0;
        let second = events.drop_first();
        assert(second.drop_first() =~= tail);
        assert(busy.follows(second));
        assert(busy.after(second) == idle);
        assert(busy.replies(second) =~= replies_owed(requests, outcomes));
    }
}

/// The replies owed for one run of requests followed by another are those
/// owed for the first run, followed by those owed for the second.
pub proof fn lemma_replies_owed_concat<Req, Tx, Resp, E>(
    first: Seq<BackgroundServiceRequest<Req, Tx>>,
    first_outcomes: Seq<Option<Result<Resp, E>>>,
    second: Seq<BackgroundServiceRequest<Req, Tx>>,
    second_outcomes: Seq<Option<Result<Resp, E>>>,
)
    requires
        first.len() == first_outcomes.len(),
    ensures
        replies_owed(first + second, first_outcomes + second_outcomes) == replies_owed(
            first,
            first_outcomes,
        ) + replies_owed(second, second_outcomes),
    decreases first.len(),
{
    let requests = first + second;
    let outcomes = first_outcomes + second_outcomes;
    if first.len() == 0 {
    } else if second.len() == 0 {
        lemma_replies_owed_ignores_surplus(first, first_outcomes, second_outcomes);
    } else if second_outcomes.len() == 0 {
        lemma_replies_owed_ignores_requests(first, first_outcomes, second);
    } else {
        assert(requests.drop_first() =~= first.drop_first() + second);
        assert(outcomes.drop_first() =~= first_outcomes.drop_first() + second_outcomes);
        lemma_replies_owed_concat(
            first.drop_first(),
            first_outcomes.drop_first(),
            second,
            second_outcomes,
        );
    }
}

/// Outcomes without a request are owed nothing.
proof fn lemma_replies_owed_ignores_surplus<Req, Tx, Resp, E>(
    requests: Seq<BackgroundServiceRequest<Req, Tx>>,
    outcomes: Seq<Option<Result<Resp, E>>>,
    surplus: Seq<Option<Result<Resp, E>>>,
)
    requires
        requests.len() == outcomes.len(),
    ensures
        replies_owed(requests, outcomes + surplus) == replies_owed(requests, outcomes),
    decreases requests.len(),
{
    if requests.len() > 0 {
        assert((outcomes + surplus).drop_first() =~= outcomes.drop_first() + surplus);
        lemma_replies_owed_ignores_surplus(requests.drop_first(), outcomes.drop_first(), surplus);
    }
}

/// Requests without an outcome are owed nothing.
proof fn lemma_replies_owed_ignores_requests<Req, Tx, Resp, E>(
    requests: Seq<BackgroundServiceRequest<Req, Tx>>,
    outcomes: Seq<Option<Result<Resp, E>>>,
    surplus: Seq<BackgroundServiceRequest<Req, Tx>>,
)
    requires
        requests.len() == outcomes.len(),
    ensures
        replies_owed(requests + surplus, outcomes) == replies_owed(requests, outcomes),
    decreases requests.len(),
{
    if requests.len() > 0 {
        assert((requests + surplus).drop_first() =~= requests.drop_first() + surplus);
        lemma_replies_owed_ignores_requests(requests.drop_first(), outcomes.drop_first(), surplus);
    }
}

/// How many replies leave before the `i`-th request is taken up.
pub open spec fn replies_before<Req, Tx, Resp, E>(
    requests: Seq<BackgroundServiceRequest<Req, Tx>>,
    outcomes: Seq<Option<Result<Resp, E>>>,
    i: int,
) -> nat {
    replies_owed(requests.take(i), outcomes.take(i)).len()
}

/// First in, first out: the reply to a request leaves after the replies to
/// all requests that were queued before it, and before the replies to all
/// that were queued after it. It goes to the channel that came with the
/// request and holds what the handler made of that request.
pub proof fn lemma_first_in_first_out<Req, Tx, Resp, E>(
    requests: Seq<BackgroundServiceRequest<Req, Tx>>,
    outcomes: Seq<Option<Result<Resp, E>>>,
    i: int,
    j: int,
)
    requires
        requests.len() == outcomes.len(),
        0 <= i <= j < requests.len(),
        requests[j].callback_tx is Some,
        outcomes[j] is Some,
    ensures
        ({
            let sent = Worker::<Tx>::Idle.replies(session(requests, outcomes));
            let at = replies_before(requests, outcomes, j);
            &&& at < sent.len()
            &&& sent[at as int] == (requests[j].callback_tx->0, outcomes[j]->0)
            &&& replies_before(requests, outcomes, i) <= at
            &&& (i < j && requests[i].callback_tx is Some && outcomes[i] is Some)
                ==> replies_before(requests, outcomes, i) < at
        }),
{
    lemma_replies_in_request_order(requests, outcomes);
    let head = requests.take(j);
    let head_outcomes = outcomes.take(j);
    let tail = requests.skip(j);
    let tail_outcomes = outcomes.skip(j);
    assert(head + tail =~= requests);
    assert(head_outcomes + tail_outcomes =~= outcomes);
    lemma_replies_owed_concat(head, head_outcomes, tail, tail_outcomes);
    let early = head.take(i);
    let early_outcomes = head_outcomes.take(i);
    let late = head.skip(i);
    let late_outcomes = head_outcomes.skip(i);
    assert(early =~= requests.take(i));
    assert(early_outcomes =~= outcomes.take(i));
    assert(early + late =~= head);
    assert(early_outcomes + late_outcomes =~= head_outcomes);
    lemma_replies_owed_concat(early, early_outcomes, late, late_outcomes);
}

} // verus!
