use vstd::prelude::*;

use tokio::sync::oneshot::Sender;

use crate::actor::message::Message;
use crate::actor::refs::{acknowledge, replied};
use crate::errors::ActorError;

verus! {

/// `tokio::sync::oneshot::Sender`, the sending half of a single-use channel.
/// Nothing of what it holds is visible here.
#[verifier::external_type_specification]
#[verifier::external_body]
#[verifier::reject_recursive_types(T)]
pub struct ExSender<T>(tokio::sync::oneshot::Sender<T>);

/// Calls `tokio::sync::oneshot::Sender::send`, which consumes the sending half
/// of a single-use channel. Whether the value is taken depends on whether the
/// receiving half still exists, so nothing is claimed about that; what is
/// claimed is that a value that was not taken comes back as it was given.
#[verifier::external_body]
fn send_once<T>(slot: Sender<T>, value: T) -> (back: Option<T>)
    ensures
        back.is_some() ==> back == Some(value),
{
    slot.send(value).err()
}

/// A work item that wants the handler's answer back: one message with the
/// single-use slot its answer goes into.
#[derive(Debug)]
#[verifier::reject_recursive_types(T)]
#[verifier::reject_recursive_types(R)]
pub struct Callback<M: Message, T, R> {
    pub message: M,
    pub oneshot: Sender<Result<T, R>>,
}

/// A work item that wants to know only whether the handler accepted: one
/// message with the single-use slot for the acknowledgement.
#[derive(Debug)]
#[verifier::reject_recursive_types(R)]
pub struct Void<M: Message, R> {
    pub message: M,
    pub oneshot: Sender<Result<(), R>>,
}

impl<M: Message, T, R> Callback<M, T, R> {
    /// Pairs a message with its reply slot.
    pub fn new(message: M, oneshot: Sender<Result<T, R>>) -> (item: Callback<M, T, R>)
        ensures
            item.message == message,
            item.oneshot == oneshot,
    {
        Callback { message, oneshot }
    }

    /// Puts the handler's answer, as it is, into the reply slot. Reports
    /// `CallBackSend` when the caller no longer waits, and success otherwise.
    pub fn reply(oneshot: Sender<Result<T, R>>, answer: Result<T, R>) -> (r: Result<(), ActorError>)
        ensures
            r == Ok::<(), ActorError>(()) || r == Err::<(), ActorError>(ActorError::CallBackSend),
    {
        let back = send_once(oneshot, answer);
        replied(back.is_none())
    }
}

impl<M: Message, R> Void<M, R> {
    /// Pairs a message with its reply slot.
    pub fn new(message: M, oneshot: Sender<Result<(), R>>) -> (item: Void<M, R>)
        ensures
            item.message == message,
            item.oneshot == oneshot,
    {
        Void { message, oneshot }
    }

    /// Puts the acknowledgement of the handler's answer into the reply slot:
    /// the rejection as it is, a success without its value. Reports
    /// `CallBackSend` when the caller no longer waits, and success otherwise.
    pub fn reply<T>(oneshot: Sender<Result<(), R>>, answer: Result<T, R>) -> (r: Result<
        (),
        ActorError,
    >)
        ensures
            r == Ok::<(), ActorError>(()) || r == Err::<(), ActorError>(ActorError::CallBackSend),
    {
        let back = send_once(oneshot, acknowledge(answer));
        replied(back.is_none())
    }
}

} // verus!
