use vstd::prelude::*;

pub mod context;
pub mod handler;
pub mod mailbox;
pub mod message;
pub mod refs;
pub mod reply;
pub mod state;

pub use self::context::Context;
pub use self::handler::Terminate;
pub use self::mailbox::{Mailbox, MailboxView, Phase, Step};
pub use self::message::Message;
pub use self::refs::{ActorRef, Address, AnyRef, Exchange};
pub use self::reply::{Callback, Void};
pub use self::state::{RunningState, State};

verus! {

/// The tag by which the runtime tells actor types apart once a reference to
/// one has been type-erased. Two actor types must not share a tag.
pub type ActorKind = u64;

/// An isolated unit of state that is reached through messages only.
pub trait Actor: Sized {
    /// The tag of this actor type.
    const KIND: ActorKind;
}

} // verus!
