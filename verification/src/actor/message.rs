use vstd::prelude::*;

verus! {

/// Marks a type as something that can be sent to an actor.
pub trait Message {

}

} // verus!
