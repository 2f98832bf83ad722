use vstd::prelude::*;

verus! {

/// A fact about an actor's past. Applying it moves the actor's state forward;
/// applying all of them in order rebuilds the state.
pub trait Event: Sized {
    /// The version of the event's recorded form.
    const VERSION: &'static str;

    /// The actor whose past this event belongs to.
    type Actor;

    /// The state that `actor` is in once this event has been applied.
    spec fn applied(&self, actor: Self::Actor) -> Self::Actor;

    /// Applies the event to the actor.
    fn apply(self, actor: &mut Self::Actor)
        ensures
            *final(actor) == self.applied(*old(actor)),
    ;
}

/// The state reached from `actor` by applying `events` in order, first to last.
pub open spec fn replayed<E: Event>(actor: E::Actor, events: Seq<E>) -> E::Actor
    decreases events.len(),
{
    if events.len() == 0 {
        actor
    } else {
        events.last().applied(replayed(actor, events.drop_last()))
    }
}

/// Rebuilding an actor from its recorded events.
pub trait Replay<E: Event<Actor = Self>>: Sized {
    /// Applies `events` to the actor in order, first to last.
    fn replay(&mut self, events: Vec<E>)
        ensures
            *final(self) == replayed(*old(self), events@),
    {
        let ghost start = *self;
        let ghost all = events@;
        for event in iter: events.into_iter()
            invariant
                iter.seq() == all,
                *self == replayed(start, all.take(iter.index() as int)),
        {
            proof {
                let done = iter.index() as int;
                assert(all.take(done + 1).drop_last() =~= all.take(done));
                assert(all.take(done + 1).last() == all[done]);
            }
            event.apply(self);
        }
        proof {
            assert(all.take(all.len() as int) =~= all);
        }
    }
}

impl<E: Event<Actor = A>, A> Replay<E> for A {

}

/// Replaying one batch of events and then another leaves the actor where
/// replaying both in one go does.
pub proof fn lemma_replay_in_batches<E: Event>(actor: E::Actor, earlier: Seq<E>, later: Seq<E>)
    ensures
        replayed(replayed(actor, earlier), later) == replayed(actor, earlier + later),
    decreases later.len(),
{
    if later.len() == 0 {
        assert(earlier + later =~= earlier);
    } else {
        lemma_replay_in_batches(actor, earlier, later.drop_last());
        assert((earlier + later).drop_last() =~= earlier + later.drop_last());
        assert((earlier + later).last() == later.last());
    }
}

} // verus!
