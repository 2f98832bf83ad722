use vstd::prelude::*;

pub mod message;
pub mod supervisor;

pub use self::message::{FindActor, RunnableActor, ShutdownActor};
pub use self::supervisor::{FindOr, Supervisor, SupervisorRef};

use crate::actor::refs::Address;

verus! {

/// The entry point of a running system: a handle on its supervisor that is
/// cheap to copy around.
#[derive(Debug)]
pub struct ActorSystem {
    supervisor: SupervisorRef,
}

impl View for ActorSystem {
    type V = Address;

    /// The mailbox of the supervisor behind this handle.
    closed spec fn view(&self) -> Address {
        self.supervisor@
    }
}

impl Clone for ActorSystem {
    /// A clone leads to the same supervisor.
    fn clone(&self) -> (r: ActorSystem)
        ensures
            r@ == self@,
    {
        ActorSystem { supervisor: self.supervisor.clone() }
    }
}

impl ActorSystem {
    /// The handle on the system that `supervisor` runs.
    pub fn new(supervisor: SupervisorRef) -> (system: ActorSystem)
        ensures
            system@ == supervisor@,
    {
        ActorSystem { supervisor }
    }

    /// The supervisor, to which every operation of the handle is forwarded.
    pub fn supervisor(&self) -> (r: &SupervisorRef)
        ensures
            r@ == self@,
    {
        &self.supervisor
    }
}

} // verus!
