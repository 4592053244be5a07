//! Runs a service in a task of its own and answers each request over a
//! callback channel.

use crate::channels::{
    is_oneshot_channel, is_unbounded_channel, refused, refused_message, send_on, send_once_on,
    sent, sent_once,
};
use vstd::prelude::*;

verus! {

/// The error that might be received from executing a request with a callback.
#[derive(Debug)]
pub enum CallbackServiceError<Req, E> {
    /// The request was not attempted, returned to sender
    NotSent(Req),
    /// The request was sent, but the callback channel was closed with
    /// no response
    NoResponse,
    /// The request was attempted but the service returned an error
    InnerError(E),
}

/// The queue between the callers of a callback service and its task: each
/// request travels with the channel for its answer.
#[derive(Clone)]
#[verifier::reject_recursive_types(Req)]
#[verifier::reject_recursive_types(Resp)]
#[verifier::reject_recursive_types(E)]
pub struct CallbackQueue<Req, Resp, E>(
    tokio::sync::mpsc::UnboundedSender<(Req, tokio::sync::oneshot::Sender<Result<Resp, E>>)>,
);

/// What a caller makes of the end of its wait; `None` stands for a callback
/// channel that was closed without an answer.
pub open spec fn callback_response<Req, Resp, E>(reply: Option<Result<Resp, E>>) -> Result<
    Resp,
    CallbackServiceError<Req, E>,
> {
    match reply {
        Some(Ok(response)) => Ok(response),
        Some(Err(error)) => Err(CallbackServiceError::InnerError(error)),
        None => Err(CallbackServiceError::NoResponse),
    }
}

/// Takes in what the queue made of a request: `refused` is the request, with
/// its callback channel, that the queue did not take, if it did not. Such a
/// request goes back to the caller in `NotSent`.
pub fn queued<Req, Tx, E>(refused: Option<(Req, Tx)>) -> (outcome: Result<
    (),
    CallbackServiceError<Req, E>,
>)
    ensures
        outcome == match refused {
            None => Ok::<(), CallbackServiceError<Req, E>>(()),
            Some(returned) => Err(CallbackServiceError::NotSent(returned.0)),
        },
{
    match refused {
        None => Ok(()),
        Some(returned) => Err(CallbackServiceError::NotSent(returned.0)),
    }
}

/// What [`CallbackQueue::call`] answers, given the receiving half of the new
/// callback channel and the queue's answer to the request.
pub open spec fn called<Req, Resp, E>(
    callback_rx: tokio::sync::oneshot::Receiver<Result<Resp, E>>,
    answer: Result<(), (Req, tokio::sync::oneshot::Sender<Result<Resp, E>>)>,
) -> Result<tokio::sync::oneshot::Receiver<Result<Resp, E>>, CallbackServiceError<Req, E>> {
    match answer {
        Ok(()) => Ok(callback_rx),
        Err(returned) => Err(CallbackServiceError::NotSent(returned.0)),
    }
}

/// Whether `queued` is what [`CallbackQueue::call`] answers for `request`
/// when `callback_tx` and `callback_rx` are the halves of the new callback
/// channel and `answer` is what the queue answers to the request sent with
/// `callback_tx`.
pub open spec fn call_made<Req, Resp, E>(
    queue: CallbackQueue<Req, Resp, E>,
    request: Req,
    callback_tx: tokio::sync::oneshot::Sender<Result<Resp, E>>,
    callback_rx: tokio::sync::oneshot::Receiver<Result<Resp, E>>,
    answer: Result<(), (Req, tokio::sync::oneshot::Sender<Result<Resp, E>>)>,
    queued: Result<tokio::sync::oneshot::Receiver<Result<Resp, E>>, CallbackServiceError<Req, E>>,
) -> bool {
    &&& is_oneshot_channel(callback_tx, callback_rx)
    &&& sent(queue.sender(), (request, callback_tx), answer)
    &&& queued == called(callback_rx, answer)
}

/// Makes the queue of a new callback service: the sending half for its
/// callers, the receiving half for its task, both of one new channel.
pub fn callback_layer_fn<Req, Resp, E>() -> (halves: (
    CallbackQueue<Req, Resp, E>,
    tokio::sync::mpsc::UnboundedReceiver<(Req, tokio::sync::oneshot::Sender<Result<Resp, E>>)>,
))
    ensures
        is_unbounded_channel(halves.0.sender(), halves.1),
{
    let (queue_tx, queue_rx) = tokio::sync::mpsc::unbounded_channel();
    (CallbackQueue(queue_tx), queue_rx)
}

impl<Req, Resp, E> CallbackQueue<Req, Resp, E> {
    /// The sending half of the queue.
    pub closed spec fn sender(self) -> tokio::sync::mpsc::UnboundedSender<
        (Req, tokio::sync::oneshot::Sender<Result<Resp, E>>),
    > {
        self.0
    }

    /// Queues `request` with a new callback channel.
    ///
    /// The request is sent on the queue together with the sending half of a
    /// new one-shot channel. Where the queue takes it, the caller gets the
    /// receiving half to wait on; [`response`] reads what comes. Where the
    /// task is gone the request comes back in `NotSent`.
    pub fn call(&self, request: Req) -> (queued: Result<
        tokio::sync::oneshot::Receiver<Result<Resp, E>>,
        CallbackServiceError<Req, E>,
    >)
        ensures
            exists|
                callback_tx: tokio::sync::oneshot::Sender<Result<Resp, E>>,
                callback_rx: tokio::sync::oneshot::Receiver<Result<Resp, E>>,
                answer: Result<(), (Req, tokio::sync::oneshot::Sender<Result<Resp, E>>)>,
            | call_made(*self, request, callback_tx, callback_rx, answer, queued),
            queued matches Err(error) ==> error == CallbackServiceError::<Req, E>::NotSent(request),
    {
        let (callback_tx, callback_rx) = tokio::sync::oneshot::channel();
        let answer = send_on(&self.0, (request, callback_tx));
        let queued = match queued(refused_message(answer)) {
            Ok(()) => Ok(callback_rx),
            Err(error) => Err(error),
        };
        assert(call_made(*self, request, callback_tx, callback_rx, answer, queued));
        queued
    }
}

/// Sends the service's answer, error or not, back on the callback channel of
/// its request, and gives what the channel did not take. Where the caller
/// has stopped waiting the answer comes back.
pub fn answer<Resp, E>(
    callback_tx: tokio::sync::oneshot::Sender<Result<Resp, E>>,
    result: Result<Resp, E>,
) -> (undelivered: Option<Result<Resp, E>>)
    ensures
        exists|answer: Result<(), Result<Resp, E>>| #[trigger]
            sent_once(callback_tx, result, answer) && undelivered == refused(answer),
        undelivered matches Some(returned) ==> returned == result,
{
    let answer = send_once_on(callback_tx, result);
    refused_message(answer)
}

/// What a caller makes of the end of its wait: `reply` is what the callback
/// channel gave, `None` where it was closed without an answer.
pub fn response<Req, Resp, E>(reply: Option<Result<Resp, E>>) -> (outcome: Result<
    Resp,
    CallbackServiceError<Req, E>,
>)
    ensures
        outcome == callback_response::<Req, Resp, E>(reply),
{
    match reply {
        Some(Ok(response)) => Ok(response),
        Some(Err(error)) => Err(CallbackServiceError::InnerError(error)),
        None => Err(CallbackServiceError::NoResponse),
    }
}

} // verus!
