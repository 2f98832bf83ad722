use vstd::prelude::*;

use crate::actor::refs::Address;
use crate::actor::state::{RunningState, State};
use crate::system::SupervisorRef;

verus! {

/// What a handler is handed with every message: the actor's own running state
/// and a way back to the supervisor.
#[derive(Debug)]
pub struct Context {
    running: RunningState,
    supervisor: SupervisorRef,
}

impl Context {
    /// The running state of the actor that owns this context.
    pub closed spec fn state(&self) -> State {
        self.running@
    }

    /// The mailbox of the supervisor this context leads back to.
    pub closed spec fn supervisor_address(&self) -> Address {
        self.supervisor@
    }

    /// The context of a freshly activated actor: running, with `supervisor` to call back.
    pub fn new(supervisor: SupervisorRef) -> (ctx: Context)
        ensures
            ctx.state() == State::Running,
            ctx.supervisor_address() == supervisor@,
    {
        Context { running: RunningState::new(), supervisor }
    }

    /// Moves the actor to state `Shutdown`. The mailbox loop sees it once the
    /// item in hand has been applied.
    pub fn shutdown(&mut self)
        ensures
            final(self).state() == State::Shutdown,
            final(self).supervisor_address() == old(self).supervisor_address(),
    {
        self.running.switch(State::Shutdown);
    }

    /// A reference to the supervisor, for spawning, finding and shutting down siblings.
    pub fn supervisor(&self) -> (r: SupervisorRef)
        ensures
            r@ == self.supervisor_address(),
    {
        self.supervisor.clone()
    }

    /// The actor's running state, as the mailbox loop reads it.
    pub fn running_state(&self) -> (r: &RunningState)
        ensures
            r@ == self.state(),
    {
        &self.running
    }
}

} // verus!
