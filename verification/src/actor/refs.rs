use vstd::prelude::*;

use core::marker::PhantomData;
use vstd::std_specs::convert::FromSpec;

use crate::actor::{Actor, ActorKind};
use crate::errors::{ActorError, ErrorKind};

verus! {

/// The identity of one mailbox. References are equal when they name the same
/// mailbox, whatever the actor behind it holds.
pub type Address = u64;

/// A capability to send typed work to one running actor of type `A`.
#[derive(Debug)]
pub struct ActorRef<A: Actor> {
    address: Address,
    _mark: PhantomData<A>,
}

impl<A: Actor> View for ActorRef<A> {
    type V = Address;

    closed spec fn view(&self) -> Address {
        self.address
    }
}

impl<A: Actor> Clone for ActorRef<A> {
    /// A clone names the same mailbox.
    fn clone(&self) -> (r: ActorRef<A>)
        ensures
            r@ == self@,
    {
        ActorRef { address: self.address, _mark: PhantomData }
    }
}

impl<A: Actor> ActorRef<A> {
    /// The reference to the mailbox at `address`.
    pub fn new(address: Address) -> (r: ActorRef<A>)
        ensures
            r@ == address,
    {
        ActorRef { address, _mark: PhantomData }
    }

    /// The mailbox this reference names.
    pub fn address(&self) -> (a: Address)
        ensures
            a == self@,
    {
        self.address
    }

    /// Whether both references name the same mailbox.
    pub fn same_mailbox(&self, other: &ActorRef<A>) -> (r: bool)
        ensures
            r == (self@ == other@),
    {
        self.address == other.address
    }

    /// The type-erased form of this reference.
    pub open spec fn spec_erase(&self) -> AnyRef {
        AnyRef { address: self@, kind: A::KIND }
    }

    /// Hides the actor type behind the reference, keeping its tag.
    pub fn erase(self) -> (r: AnyRef)
        ensures
            r == self.spec_erase(),
    {
        AnyRef { address: self.address, kind: A::KIND }
    }
}

/// A reference whose actor type has been erased. It remembers the tag of the
/// type it was made from and gives the typed reference back to that type only.
#[derive(Clone, Copy, Debug, PartialEq, Eq, Structural)]
pub struct AnyRef {
    pub address: Address,
    pub kind: ActorKind,
}

impl AnyRef {
    /// What `downcast` answers, as a function of the stored tag and the asked one.
    pub open spec fn spec_downcast(self, asked: ActorKind) -> Result<Address, ErrorKind> {
        if self.kind == asked {
            Ok(self.address)
        } else {
            Err(ErrorKind::DownCastFromAny)
        }
    }

    /// Recovers the typed reference. Succeeds exactly when `A` carries the tag
    /// this reference was made with; otherwise the answer is `DownCastFromAny`.
    pub fn downcast<A: Actor>(self) -> (r: Result<ActorRef<A>, ActorError>)
        ensures
            match r {
                Ok(refs) => self.spec_downcast(A::KIND) == Ok::<Address, ErrorKind>(refs@),
                Err(e) => self.spec_downcast(A::KIND) == Err::<Address, ErrorKind>(e@),
            },
    {
        if self.kind == A::KIND {
            Ok(ActorRef::new(self.address))
        } else {
            Err(ActorError::DownCastFromAny)
        }
    }
}

impl<A: Actor> From<ActorRef<A>> for AnyRef {
    fn from(value: ActorRef<A>) -> (r: AnyRef) {
        value.erase()
    }
}

impl<A: Actor> vstd::std_specs::convert::FromSpecImpl<ActorRef<A>> for AnyRef {
    open spec fn obeys_from_spec() -> bool {
        true
    }

    open spec fn from_spec(value: ActorRef<A>) -> AnyRef {
        value.spec_erase()
    }
}

/// What became of one work item that a caller tried to hand to a mailbox.
#[derive(Debug)]
pub enum Exchange<T> {
    /// The mailbox no longer took the item.
    Refused,
    /// The item was queued, and its reply slot was dropped without an answer.
    Abandoned,
    /// The handler ran and this is what it answered.
    Answered(T),
}

impl<T> Exchange<T> {
    /// What the caller is told: the answer if there is one, and `CallBackSend`
    /// both for an item that was refused and for one that was abandoned.
    pub open spec fn outcome(self) -> Result<T, ActorError> {
        match self {
            Exchange::Answered(answer) => Ok(answer),
            Exchange::Refused => Err(ActorError::CallBackSend),
            Exchange::Abandoned => Err(ActorError::CallBackSend),
        }
    }
}

/// The caller's view of an `ask`: the handler's own answer inside, a transport
/// failure outside. Both a refused item and an abandoned one are `CallBackSend`.
pub fn ask<T, R>(exchange: Exchange<Result<T, R>>) -> (r: Result<Result<T, R>, ActorError>)
    ensures
        r == exchange.outcome(),
{
    match exchange {
        Exchange::Answered(answer) => Ok(answer),
        Exchange::Refused => Err(ActorError::CallBackSend),
        Exchange::Abandoned => Err(ActorError::CallBackSend),
    }
}

/// The answer a `tell` work item puts in its reply slot: the handler's
/// rejection as it is, its success value dropped.
pub fn acknowledge<T, R>(answer: Result<T, R>) -> (r: Result<(), R>)
    ensures
        match answer {
            Ok(_) => r == Ok::<(), R>(()),
            Err(e) => r == Err::<(), R>(e),
        },
{
    match answer {
        Ok(_) => Ok(()),
        Err(e) => Err(e),
    }
}

/// The caller's view of a `tell`: as `ask`, with nothing inside a success.
pub fn tell<R>(exchange: Exchange<Result<(), R>>) -> (r: Result<Result<(), R>, ActorError>)
    ensures
        r == exchange.outcome(),
{
    ask(exchange)
}

/// Collapses the two levels of an `ask` or `tell` into one, for a rejection
/// type that can stand for a transport failure: the handler's answer as it is,
/// a transport failure converted into a rejection.
pub fn flat<T, R: From<ActorError>>(outcome: Result<Result<T, R>, ActorError>) -> (r: Result<T, R>)
    ensures
        match outcome {
            Ok(answer) => r == answer,
            Err(e) => r.is_err() && (R::obeys_from_spec() ==> r == Err::<T, R>(R::from_spec(e))),
        },
{
    match outcome {
        Ok(answer) => answer,
        Err(e) => Err(R::from(e)),
    }
}

/// The single-level result of a call whose handler itself rejects with
/// `ActorError`: the handler's answer as it is, a transport failure as it is.
pub fn join<T>(outcome: Result<Result<T, ActorError>, ActorError>) -> (r: Result<T, ActorError>)
    ensures
        match outcome {
            Ok(answer) => r == answer,
            Err(e) => r == Err::<T, ActorError>(e),
        },
{
    match outcome {
        Ok(answer) => answer,
        Err(e) => Err(e),
    }
}

/// What a work item reports to its task once it has tried to answer: success
/// if the caller still held the other end of the reply slot, else `CallBackSend`.
pub fn replied(taken: bool) -> (r: Result<(), ActorError>)
    ensures
        taken ==> r == Ok::<(), ActorError>(()),
        !taken ==> r == Err::<(), ActorError>(ActorError::CallBackSend),
{
    if taken {
        Ok(())
    } else {
        Err(ActorError::CallBackSend)
    }
}

} // verus!
