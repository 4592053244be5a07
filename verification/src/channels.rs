//! The tokio channels that carry requests and replies between tasks.
//!
//! Of the calls into tokio nothing is proved: each states what the channel's
//! documentation promises, and the rest of the library builds on that. What
//! a channel answers depends on what other tasks have done to it, so the
//! library's contracts say which call was made with what, and what was made
//! of its answer.

use vstd::prelude::*;

verus! {

/// `tokio::sync::mpsc::UnboundedSender`: the sending half of an unbounded
/// channel. Nothing inside it is visible here.
#[verifier::external_type_specification]
#[verifier::external_body]
#[verifier::reject_recursive_types(T)]
pub struct ExUnboundedSender<T>(tokio::sync::mpsc::UnboundedSender<T>);

/// `tokio::sync::mpsc::UnboundedReceiver`: the receiving half of an
/// unbounded channel. Nothing inside it is visible here.
#[verifier::external_type_specification]
#[verifier::external_body]
#[verifier::reject_recursive_types(T)]
pub struct ExUnboundedReceiver<T>(tokio::sync::mpsc::UnboundedReceiver<T>);

/// `tokio::sync::oneshot::Sender`: the sending half of a channel for one
/// value. Nothing inside it is visible here.
#[verifier::external_type_specification]
#[verifier::external_body]
#[verifier::reject_recursive_types(T)]
pub struct ExOneShotSender<T>(tokio::sync::oneshot::Sender<T>);

/// `tokio::sync::oneshot::Receiver`: the receiving half of a channel for
/// one value. Nothing inside it is visible here.
#[verifier::external_type_specification]
#[verifier::external_body]
#[verifier::reject_recursive_types(T)]
pub struct ExOneShotReceiver<T>(tokio::sync::oneshot::Receiver<T>);

/// `tokio::sync::oneshot::error::RecvError`: what a one-shot receiver gives
/// when its sender is gone.
#[verifier::external_type_specification]
#[verifier::external_body]
pub struct ExRecvError(tokio::sync::oneshot::error::RecvError);

/// `UnboundedSender::clone` gives another sending half of the same channel.
/// Nothing is claimed of it.
pub assume_specification<T>[ <tokio::sync::mpsc::UnboundedSender<T> as Clone>::clone ](
    sender: &tokio::sync::mpsc::UnboundedSender<T>,
) -> (copy: tokio::sync::mpsc::UnboundedSender<T>);

/// `tokio::sync::mpsc::unbounded_channel` makes the two halves of a new
/// channel. Nothing is claimed of them.
pub assume_specification<T>[ tokio::sync::mpsc::unbounded_channel::<T> ]() -> (halves: (
    tokio::sync::mpsc::UnboundedSender<T>,
    tokio::sync::mpsc::UnboundedReceiver<T>,
));

/// `tokio::sync::oneshot::channel` makes the two halves of a new one-shot
/// channel. Nothing is claimed of them.
pub assume_specification<T>[ tokio::sync::oneshot::channel::<T> ]() -> (halves: (
    tokio::sync::oneshot::Sender<T>,
    tokio::sync::oneshot::Receiver<T>,
));

/// Whether `sender` and `receiver` are the two halves of one channel, as one
/// call of `tokio::sync::mpsc::unbounded_channel` gives them.
pub open spec fn is_unbounded_channel<T>(
    sender: tokio::sync::mpsc::UnboundedSender<T>,
    receiver: tokio::sync::mpsc::UnboundedReceiver<T>,
) -> bool {
    call_ensures(tokio::sync::mpsc::unbounded_channel::<T>, (), (sender, receiver))
}

/// Whether `sender` and `receiver` are the two halves of one one-shot
/// channel, as one call of `tokio::sync::oneshot::channel` gives them.
pub open spec fn is_oneshot_channel<T>(
    sender: tokio::sync::oneshot::Sender<T>,
    receiver: tokio::sync::oneshot::Receiver<T>,
) -> bool {
    call_ensures(tokio::sync::oneshot::channel::<T>, (), (sender, receiver))
}

/// Whether `answer` is what the channel answered when `message` was sent on
/// `sender`: `Ok` where it took the message, the message where it did not.
pub closed spec fn sent<T>(
    sender: tokio::sync::mpsc::UnboundedSender<T>,
    message: T,
    answer: Result<(), T>,
) -> bool {
    call_ensures(send::<T>, (&sender, message), answer)
}

/// Whether `answer` is what the one-shot channel answered when `value` was
/// sent on `sender`: `Ok` where it took the value, the value where it did
/// not.
pub closed spec fn sent_once<T>(
    sender: tokio::sync::oneshot::Sender<T>,
    value: T,
    answer: Result<(), T>,
) -> bool {
    call_ensures(send_once::<T>, (sender, value), answer)
}

/// What the channel did not take, if it did not take what was sent.
pub open spec fn refused<T>(answer: Result<(), T>) -> Option<T> {
    match answer {
        Ok(()) => None,
        Err(returned) => Some(returned),
    }
}

/// What the channel did not take, if it did not take what was sent.
pub fn refused_message<T>(answer: Result<(), T>) -> (returned: Option<T>)
    ensures
        returned == refused(answer),
{
    match answer {
        Ok(()) => None,
        Err(returned) => Some(returned),
    }
}

/// Sends `message` on `sender` and gives the channel's answer.
pub(crate) fn send_on<T>(sender: &tokio::sync::mpsc::UnboundedSender<T>, message: T) -> (answer:
    Result<(), T>)
    ensures
        sent(*sender, message, answer),
        answer matches Err(returned) ==> returned == message,
{
    send(sender, message)
}

/// Sends `value` on the one-shot `sender` and gives the channel's answer.
pub(crate) fn send_once_on<T>(sender: tokio::sync::oneshot::Sender<T>, value: T) -> (answer: Result<
    (),
    T,
>)
    ensures
        sent_once(sender, value, answer),
        answer matches Err(returned) ==> returned == value,
{
    send_once(sender, value)
}

/// `UnboundedSender::send` never waits. Whether the message is accepted
/// depends on whether the receiving half is still there; a message that is
/// not accepted comes back as it was given.
#[verifier::external_body]
pub(crate) fn send<T>(sender: &tokio::sync::mpsc::UnboundedSender<T>, message: T) -> (answer:
    Result<(), T>)
    ensures
        answer matches Err(returned) ==> returned == message,
{
    match sender.send(message) {
        Ok(()) => Ok(()),
        Err(tokio::sync::mpsc::error::SendError(message)) => Err(message),
    }
}

/// `oneshot::Sender::send` never waits. Whether the value is accepted
/// depends on whether the receiving half is still there; a value that is
/// not accepted comes back as it was given.
#[verifier::external_body]
pub(crate) fn send_once<T>(sender: tokio::sync::oneshot::Sender<T>, value: T) -> (answer: Result<
    (),
    T,
>)
    ensures
        answer matches Err(returned) ==> returned == value,
{
    sender.send(value)
}

} // verus!
