use vstd::prelude::*;

verus! {

/// The handle through which an actor appends to its journal.
#[derive(Debug)]
pub struct Journal();

impl Journal {
    /// A journal handle. It holds nothing.
    pub fn new() -> (j: Journal)
        ensures
            j == Journal(),
    {
        Journal()
    }
}

} // verus!
