use vstd::prelude::*;

verus! {

/// Where an actor stands in its life: still consuming its mailbox, or done with it.
#[derive(Clone, Copy, Debug, PartialEq, Eq, Structural)]
pub enum State {
    Running,
    Shutdown,
}

/// The lifecycle cell of one actor. It starts out `Running`; once it has been
/// switched to `Shutdown` the mailbox loop stops after the item in hand.
#[derive(Clone, Copy, Debug)]
pub struct RunningState {
    state: State,
}

impl RunningState {
    /// The state the cell holds.
    pub closed spec fn view(&self) -> State {
        self.state
    }

    /// A fresh cell, in state `Running`.
    pub fn new() -> (r: RunningState)
        ensures
            r@ == State::Running,
    {
        RunningState { state: State::Running }
    }

    /// Replaces the held state by `next`.
    pub fn switch(&mut self, next: State)
        ensures
            final(self)@ == next,
    {
        self.state = next;
    }

    /// The state the cell holds.
    pub fn current(&self) -> (r: State)
        ensures
            r == self@,
    {
        self.state
    }

    /// Whether the owning task may stop: true exactly in state `Shutdown`.
    pub fn available_shutdown(&self) -> (r: bool)
        ensures
            r == (self@ == State::Shutdown),
    {
        self.state == State::Shutdown
    }
}

impl Default for RunningState {
    fn default() -> (r: RunningState)
        ensures
            r@ == State::Running,
    {
        RunningState::new()
    }
}

} // verus!
