use vstd::prelude::*;

use core::marker::PhantomData;

use crate::actor::{Actor, Message};
use crate::id::{AnyId, Identifier};

verus! {

/// Asks the supervisor to register `actor` under `id` and to start it.
pub struct RunnableActor<A: Actor> {
    pub id: AnyId,
    pub actor: A,
}

/// Asks the supervisor to take `id` out of the registry.
pub struct ShutdownActor {
    pub id: AnyId,
}

/// Asks the supervisor for the actor of type `A` registered under `id`.
pub struct FindActor<A: Actor> {
    pub id: AnyId,
    pub _mark: PhantomData<A>,
}

impl<A: Actor> Message for RunnableActor<A> {

}

impl Message for ShutdownActor {

}

impl<A: Actor> Message for FindActor<A> {

}

impl<A: Actor> RunnableActor<A> {
    /// The request to run `actor` under `id`.
    pub fn new(id: AnyId, actor: A) -> (msg: RunnableActor<A>)
        ensures
            msg.id == id,
            msg.actor == actor,
    {
        RunnableActor { id, actor }
    }
}

impl ShutdownActor {
    /// The request to deregister `id`.
    pub fn new(id: AnyId) -> (msg: ShutdownActor)
        ensures
            msg.id == id,
    {
        ShutdownActor { id }
    }
}

impl<A: Actor> FindActor<A> {
    /// The request to look `id` up as an actor of type `A`.
    pub fn new(id: AnyId) -> (msg: FindActor<A>)
        ensures
            msg.id == id,
    {
        FindActor { id, _mark: PhantomData }
    }
}

impl<A: Actor> From<(&'static str, A)> for RunnableActor<A> {
    fn from(value: (&'static str, A)) -> (msg: RunnableActor<A>) {
        RunnableActor { id: value.0.erase(), actor: value.1 }
    }
}

impl<A: Actor> vstd::std_specs::convert::FromSpecImpl<(&'static str, A)> for RunnableActor<A> {
    open spec fn obeys_from_spec() -> bool {
        true
    }

    open spec fn from_spec(value: (&'static str, A)) -> RunnableActor<A> {
        RunnableActor { id: value.0.erased(), actor: value.1 }
    }
}

} // verus!
