use vstd::prelude::*;

use std::collections::VecDeque;

use crate::actor::refs::Exchange;
use crate::actor::state::{RunningState, State};
use crate::errors::ActorError;

verus! {

/// How far a mailbox is through its life.
#[derive(Clone, Copy, Debug, PartialEq, Eq, Structural)]
pub enum Phase {
    /// Senders exist and the task consumes.
    Open,
    /// The last sender is gone; the task finishes what is queued.
    Draining,
    /// The task has ended. Nothing is queued and nothing will be taken.
    Closed,
}

/// What the task that owns a mailbox does next.
#[derive(Debug)]
pub enum Step<W> {
    /// Apply this work item to the actor, then settle.
    Apply(W),
    /// Nothing is queued: suspend until a sender enqueues or the last one leaves.
    Wait,
    /// The loop is over.
    Exit,
}

/// A mailbox as contracts see it: its phase and the queued items, oldest first.
pub struct MailboxView<W> {
    pub phase: Phase,
    pub pending: Seq<W>,
}

impl<W> MailboxView<W> {
    /// Whether an item offered now is queued.
    pub open spec fn accepts(self) -> bool {
        self.phase == Phase::Open
    }

    /// The mailbox after a sender offered `item`: queued last while the mailbox
    /// accepts, otherwise nothing changes.
    pub open spec fn accept(self, item: W) -> MailboxView<W> {
        if self.accepts() {
            MailboxView { phase: self.phase, pending: self.pending.push(item) }
        } else {
            self
        }
    }

    /// The mailbox after senders offered `items` one after the other.
    pub open spec fn accept_all(self, items: Seq<W>) -> MailboxView<W>
        decreases items.len(),
    {
        if items.len() == 0 {
            self
        } else {
            self.accept_all(items.drop_last()).accept(items.last())
        }
    }

    /// The mailbox after the last sender left.
    pub open spec fn release(self) -> MailboxView<W> {
        if self.phase == Phase::Open {
            MailboxView { phase: Phase::Draining, pending: self.pending }
        } else {
            self
        }
    }

    /// The mailbox after the task ended: closed, everything queued given up.
    pub open spec fn close(self) -> MailboxView<W> {
        MailboxView { phase: Phase::Closed, pending: Seq::empty() }
    }

    /// The item that the task takes next, if it takes one.
    pub open spec fn offered(self) -> Option<W> {
        if self.phase != Phase::Closed && self.pending.len() > 0 {
            Some(self.pending[0])
        } else {
            None
        }
    }

    /// The mailbox after the task asked for its next step.
    pub open spec fn advance(self) -> MailboxView<W> {
        if self.phase == Phase::Closed {
            self
        } else if self.pending.len() > 0 {
            MailboxView { phase: self.phase, pending: self.pending.subrange(1, self.pending.len() as int) }
        } else if self.phase == Phase::Draining {
            self.close()
        } else {
            self
        }
    }

    /// The mailbox after an item was applied and left the actor in `state`.
    pub open spec fn settle(self, state: State) -> MailboxView<W> {
        if state == State::Shutdown {
            self.close()
        } else {
            self
        }
    }

    /// The items that the next `n` steps hand to the actor, in the order in
    /// which they are handed over, as long as no step finds the queue empty.
    pub open spec fn handled(self, n: nat) -> Seq<W>
        decreases n,
    {
        if n == 0 {
            Seq::empty()
        } else {
            match self.offered() {
                Some(item) => seq![item] + self.advance().handled((n - 1) as nat),
                None => Seq::empty(),
            }
        }
    }
}

/// The queue of pending work of one actor, with the state of the task that
/// consumes it. One task consumes; senders reach the mailbox through whatever
/// lock the embedding runtime puts around it.
#[derive(Debug)]
pub struct Mailbox<W> {
    phase: Phase,
    queue: VecDeque<W>,
}

impl<W> View for Mailbox<W> {
    type V = MailboxView<W>;

    closed spec fn view(&self) -> MailboxView<W> {
        MailboxView { phase: self.phase, pending: self.queue@ }
    }
}

impl<W> Mailbox<W> {
    /// A fresh mailbox: open and empty.
    pub fn new() -> (m: Mailbox<W>)
        ensures
            m@ == (MailboxView::<W> { phase: Phase::Open, pending: Seq::empty() }),
    {
        Mailbox { phase: Phase::Open, queue: VecDeque::new() }
    }

    /// The phase the mailbox is in.
    pub fn phase(&self) -> (p: Phase)
        ensures
            p == self@.phase,
    {
        self.phase
    }

    /// How many items wait.
    pub fn len(&self) -> (n: usize)
        ensures
            n == self@.pending.len(),
    {
        self.queue.len()
    }

    /// Queues `item` behind everything already queued. A mailbox that no
    /// longer accepts hands the item back and stays as it was.
    pub fn enqueue(&mut self, item: W) -> (r: Result<(), W>)
        ensures
            final(self)@ == old(self)@.accept(item),
            old(self)@.accepts() ==> r == Ok::<(), W>(()),
            !old(self)@.accepts() ==> r == Err::<(), W>(item),
    {
        if self.phase == Phase::Open {
            self.queue.push_back(item);
            Ok(())
        } else {
            Err(item)
        }
    }

    /// Records that the last sender is gone: what is queued is still handled,
    /// nothing more is accepted.
    pub fn release(&mut self)
        ensures
            final(self)@ == old(self)@.release(),
    {
        if self.phase == Phase::Open {
            self.phase = Phase::Draining;
        }
    }

    /// The next step of the owning task: the oldest queued item if there is
    /// one; otherwise to wait while senders remain, and to exit when none does
    /// or the mailbox is closed.
    pub fn next(&mut self) -> (step: Step<W>)
        ensures
            final(self)@ == old(self)@.advance(),
            match step {
                Step::Apply(item) => old(self)@.offered() == Some(item),
                Step::Wait => old(self)@.offered().is_none() && old(self)@.phase == Phase::Open,
                Step::Exit => old(self)@.offered().is_none() && old(self)@.phase != Phase::Open
                    && final(self)@.phase == Phase::Closed,
            },
    {
        if self.phase == Phase::Closed {
            return Step::Exit;
        }
        match self.queue.pop_front() {
            Some(item) => Step::Apply(item),
            None => {
                if self.phase == Phase::Draining {
                    self.phase = Phase::Closed;
                    assert(self.queue@ =~= Seq::<W>::empty());
                    Step::Exit
                } else {
                    Step::Wait
                }
            },
        }
    }

    /// Ends the mailbox. The items still queued come back, oldest first, so
    /// that the task can drop them with their reply slots.
    pub fn close(&mut self) -> (abandoned: VecDeque<W>)
        ensures
            final(self)@ == old(self)@.close(),
            abandoned@ == old(self)@.pending,
    {
        let mut abandoned: VecDeque<W> = VecDeque::new();
        core::mem::swap(&mut self.queue, &mut abandoned);
        self.phase = Phase::Closed;
        abandoned
    }

    /// To be called once the activation hook has run. On failure the loop
    /// never starts: the mailbox closes and what was queued meanwhile comes back.
    pub fn activated(&mut self, succeeded: bool) -> (abandoned: VecDeque<W>)
        ensures
            succeeded ==> final(self)@ == old(self)@ && abandoned@.len() == 0,
            !succeeded ==> final(self)@ == old(self)@.close() && abandoned@ == old(self)@.pending,
    {
        if succeeded {
            VecDeque::new()
        } else {
            self.close()
        }
    }

    /// To be called after each applied item with the actor's running state. In
    /// state `Shutdown` the mailbox closes and what is still queued comes back
    /// unhandled; in state `Running` nothing changes.
    pub fn settle(&mut self, running: &RunningState) -> (abandoned: VecDeque<W>)
        ensures
            final(self)@ == old(self)@.settle(running@),
            running@ == State::Shutdown ==> abandoned@ == old(self)@.pending,
            running@ == State::Running ==> abandoned@.len() == 0,
    {
        if running.available_shutdown() {
            self.close()
        } else {
            VecDeque::new()
        }
    }
}

/// Items offered to an accepting mailbox queue up behind what is there, in the
/// order in which they were offered.
pub proof fn lemma_accept_all_appends<W>(m: MailboxView<W>, items: Seq<W>)
    requires
        m.accepts(),
    ensures
        m.accept_all(items).phase == m.phase,
        m.accept_all(items).pending == m.pending + items,
    decreases items.len(),
{
    if items.len() == 0 {
        assert(m.pending + items =~= m.pending);
    } else {
        lemma_accept_all_appends(m, items.drop_last());
        assert((m.pending + items.drop_last()).push(items.last()) =~= m.pending + items);
    }
}

/// A mailbox that is not closed hands its queued items to the actor oldest
/// first, each once.
pub proof fn lemma_handled_in_queue_order<W>(m: MailboxView<W>)
    requires
        m.phase != Phase::Closed,
    ensures
        m.handled(m.pending.len()) == m.pending,
    decreases m.pending.len(),
{
    if m.pending.len() == 0 {
        assert(m.handled(0) =~= m.pending);
    } else {
        let rest = m.advance();
        lemma_handled_in_queue_order(rest);
        assert(rest.pending.len() == m.pending.len() - 1);
        assert(seq![m.pending[0]] + rest.pending =~= m.pending);
    }
}

/// First in, first out: whatever an accepting mailbox holds, items offered to
/// it in some order reach the handler in that order, after all that was queued
/// before them.
pub proof fn lemma_fifo<W>(m: MailboxView<W>, items: Seq<W>)
    requires
        m.accepts(),
    ensures
        m.accept_all(items).handled(m.pending.len() + items.len()) == m.pending + items,
{
    lemma_accept_all_appends(m, items);
    lemma_handled_in_queue_order(m.accept_all(items));
}

/// Once an applied item has left the actor in state `Shutdown`, the mailbox
/// hands out nothing more, holds nothing, and takes no item offered later,
/// whatever was queued and whatever is offered. A caller whose item was
/// refused, and one whose queued item was given up, are both told `CallBackSend`.
pub proof fn lemma_shutdown_abandons<W, T>(m: MailboxView<W>, late: Seq<W>, n: nat)
    ensures
        !m.settle(State::Shutdown).accepts(),
        m.settle(State::Shutdown).pending.len() == 0,
        m.settle(State::Shutdown).accept_all(late) == m.settle(State::Shutdown),
        m.settle(State::Shutdown).accept_all(late).handled(n) == Seq::<W>::empty(),
        m.settle(State::Shutdown).advance() == m.settle(State::Shutdown),
        Exchange::<T>::Refused.outcome() == Err::<T, ActorError>(ActorError::CallBackSend),
        Exchange::<T>::Abandoned.outcome() == Err::<T, ActorError>(ActorError::CallBackSend),
    decreases late.len(),
{
    let closed = m.settle(State::Shutdown);
    if late.len() > 0 {
        lemma_shutdown_abandons::<W, T>(m, late.drop_last(), n);
    }
    assert(closed.offered().is_none());
}

} // verus!
