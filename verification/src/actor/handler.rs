use vstd::prelude::*;

use crate::actor::context::Context;
use crate::actor::message::Message;
use crate::actor::state::State;
use crate::errors::ActorError;

verus! {

/// The one message the runtime itself provides: asks an actor to stop.
#[derive(Clone, Copy, Debug, PartialEq, Eq, Structural)]
pub struct Terminate;

impl Message for Terminate {

}

impl Terminate {
    /// How every actor handles `Terminate`: it moves to state `Shutdown` and
    /// reports success. The actor's own state plays no part.
    pub fn handle(self, ctx: &mut Context) -> (r: Result<(), ActorError>)
        ensures
            r == Ok::<(), ActorError>(()),
            final(ctx).state() == State::Shutdown,
            final(ctx).supervisor_address() == old(ctx).supervisor_address(),
    {
        ctx.shutdown();
        Ok(())
    }
}

} // verus!
