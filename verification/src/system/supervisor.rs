use vstd::prelude::*;

use crate::actor::refs::{ActorRef, Address, AnyRef};
use crate::actor::mailbox::MailboxView;
use crate::actor::{Actor, ActorKind, Context};
use crate::errors::{ActorError, ErrorKind};
use crate::id::{AnyId, IdKey};

verus! {

/// One line of the registry.
#[derive(Clone, Copy, Debug)]
struct Entry {
    id: AnyId,
    refs: AnyRef,
}

/// Whether some line of `entries` carries the key `key`.
spec fn listed(entries: Seq<Entry>, key: IdKey) -> bool {
    exists|i: int| 0 <= i < entries.len() && #[trigger] entries[i].id@ == key
}

/// A line of `entries` that carries the key `key`, where there is one.
spec fn line_of(entries: Seq<Entry>, key: IdKey) -> int {
    choose|i: int| 0 <= i < entries.len() && #[trigger] entries[i].id@ == key
}

/// No key stands on two lines.
spec fn distinct(entries: Seq<Entry>) -> bool {
    forall|i: int, j: int|
        0 <= i < j < entries.len() ==> (#[trigger] entries[i]).id@ != (#[trigger] entries[j]).id@
}

/// The registry that the lines spell out.
spec fn book(entries: Seq<Entry>) -> Map<IdKey, AnyRef> {
    Map::new(|key: IdKey| listed(entries, key), |key: IdKey| entries[line_of(entries, key)].refs)
}

proof fn lemma_line(entries: Seq<Entry>, i: int)
    requires
        distinct(entries),
        0 <= i < entries.len(),
    ensures
        listed(entries, entries[i].id@),
        line_of(entries, entries[i].id@) == i,
        book(entries).contains_key(entries[i].id@),
        book(entries)[entries[i].id@] == entries[i].refs,
{
    let key = entries[i].id@;
    let j = line_of(entries, key);
    assert(entries[j].id@ == key);
    if j < i {
        assert(entries[j].id@ != entries[i].id@);
    }
    if i < j {
        assert(entries[i].id@ != entries[j].id@);
    }
}

proof fn lemma_book_len(entries: Seq<Entry>)
    requires
        distinct(entries),
    ensures
        book(entries).dom().finite(),
        book(entries).len() == entries.len(),
    decreases entries.len(),
{
    if entries.len() == 0 {
        assert(book(entries) =~= Map::<IdKey, AnyRef>::empty());
    } else {
        let last = entries.last();
        let front = entries.drop_last();
        assert(front.push(last) =~= entries);
        assert forall|i: int, j: int| 0 <= i < j < front.len() implies (#[trigger] front[i]).id@ != (
        #[trigger] front[j]).id@ by {
            assert(entries[i].id@ != entries[j].id@);
        }
        if listed(front, last.id@) {
            let i = line_of(front, last.id@);
            assert(entries[i].id@ != entries[entries.len() - 1].id@);
        }
        lemma_book_len(front);
        lemma_book_push(front, last);
    }
}

proof fn lemma_book_push(entries: Seq<Entry>, entry: Entry)
    requires
        distinct(entries),
        !listed(entries, entry.id@),
    ensures
        distinct(entries.push(entry)),
        book(entries.push(entry)) == book(entries).insert(entry.id@, entry.refs),
{
    let grown = entries.push(entry);
    assert forall|i: int, j: int| 0 <= i < j < grown.len() implies (#[trigger] grown[i]).id@ != (
    #[trigger] grown[j]).id@ by {
        if j < entries.len() {
            assert(entries[i].id@ != entries[j].id@);
        } else {
            assert(entries[i].id@ != entry.id@);
        }
    }
    assert forall|key: IdKey| #[trigger]
        book(grown).contains_key(key) == book(entries).insert(entry.id@, entry.refs).contains_key(
            key,
        ) by {
        if listed(entries, key) {
            let i = line_of(entries, key);
            assert(grown[i].id@ == key);
        }
        if key == entry.id@ {
            assert(grown[entries.len() as int].id@ == key);
        }
        if listed(grown, key) {
            let i = line_of(grown, key);
            if i < entries.len() {
                assert(entries[i].id@ == key);
            }
        }
    }
    assert forall|key: IdKey| #[trigger] book(grown).contains_key(key) implies book(grown)[key]
        == book(entries).insert(entry.id@, entry.refs)[key] by {
        let i = line_of(grown, key);
        lemma_line(grown, i);
        if i < entries.len() {
            assert(entries[i].id@ == key);
            lemma_line(entries, i);
        }
    }
    assert(book(grown) =~= book(entries).insert(entry.id@, entry.refs));
}

proof fn lemma_book_remove(entries: Seq<Entry>, at: int)
    requires
        distinct(entries),
        0 <= at < entries.len(),
    ensures
        distinct(entries.remove(at)),
        book(entries.remove(at)) == book(entries).remove(entries[at].id@),
{
    let gone = entries[at].id@;
    let rest = entries.remove(at);
    assert forall|i: int| 0 <= i < rest.len() implies #[trigger] rest[i] == entries[if i < at {
        i
    } else {
        i + 1
    }] by {}
    assert forall|i: int, j: int| 0 <= i < j < rest.len() implies (#[trigger] rest[i]).id@ != (
    #[trigger] rest[j]).id@ by {
        let a = if i < at { i } else { i + 1 };
        let b = if j < at { j } else { j + 1 };
        assert(entries[a].id@ != entries[b].id@);
    }
    assert forall|key: IdKey| #[trigger]
        book(rest).contains_key(key) == book(entries).remove(gone).contains_key(key) by {
        if listed(rest, key) {
            let i = line_of(rest, key);
            let a = if i < at { i } else { i + 1 };
            assert(entries[a].id@ == key);
            if a < at {
                assert(entries[a].id@ != entries[at].id@);
            } else {
                assert(entries[at].id@ != entries[a].id@);
            }
        }
        if listed(entries, key) && key != gone {
            let a = line_of(entries, key);
            let i = if a < at { a } else { a - 1 };
            assert(rest[i].id@ == key);
        }
    }
    assert forall|key: IdKey| #[trigger] book(rest).contains_key(key) implies book(rest)[key]
        == book(entries).remove(gone)[key] by {
        let i = line_of(rest, key);
        lemma_line(rest, i);
        let a = if i < at { i } else { i + 1 };
        assert(entries[a].id@ == key);
        lemma_line(entries, a);
    }
    assert(book(rest) =~= book(entries).remove(gone));
}

/// The reference to the supervisor's own mailbox.
#[derive(Debug)]
pub struct SupervisorRef(pub ActorRef<Supervisor>);

impl View for SupervisorRef {
    type V = Address;

    open spec fn view(&self) -> Address {
        self.0@
    }
}

impl Clone for SupervisorRef {
    /// A clone names the same mailbox.
    fn clone(&self) -> (r: SupervisorRef)
        ensures
            r@ == self@,
    {
        SupervisorRef(self.0.clone())
    }
}

/// What a `find_or` does once its lookup has been answered. `R` is the
/// reference type that the lookup hands out.
#[derive(Debug)]
pub enum FindOr<R> {
    /// The composite is over with this result.
    Done(Result<R, ActorError>),
    /// Nothing was registered: make the actor and ask for it to be spawned.
    /// Another caller may get there first; the spawn then answers `AlreadySpawned`.
    Create,
}

impl SupervisorRef {
    /// The step of `find_or` that follows the lookup. A found actor ends the
    /// composite with its reference, a failed lookup ends it with the failure,
    /// and only an absent identifier leads on to the factory and the spawn.
    /// `answer` is what the lookup's `ask` returned.
    pub fn find_or<R>(answer: Result<Result<Option<R>, ActorError>, ActorError>) -> (r: FindOr<R>)
        ensures
            match answer {
                Ok(Ok(Some(refs))) => r == FindOr::Done(Ok::<R, ActorError>(refs)),
                Ok(Ok(None)) => r == FindOr::<R>::Create,
                Ok(Err(e)) => r == FindOr::Done(Err::<R, ActorError>(e)),
                Err(e) => r == FindOr::Done(Err::<R, ActorError>(e)),
            },
    {
        match answer {
            Ok(Ok(Some(refs))) => FindOr::Done(Ok(refs)),
            Ok(Ok(None)) => FindOr::Create,
            Ok(Err(e)) => FindOr::Done(Err(e)),
            Err(e) => FindOr::Done(Err(e)),
        }
    }
}

/// The actor that owns the registry: which identifier leads to which actor.
/// It changes the registry only while it handles one of its own messages, so
/// every spawn, lookup and shutdown sees the outcome of all that came before.
#[derive(Debug)]
pub struct Supervisor {
    actors: Vec<Entry>,
}

impl Actor for Supervisor {
    const KIND: ActorKind = 0;
}

impl Supervisor {
    #[verifier::type_invariant]
    spec fn each_id_once(&self) -> bool {
        distinct(self.actors@)
    }

    /// The registry: each registered identifier's key with the reference it leads to.
    pub closed spec fn registry(&self) -> Map<IdKey, AnyRef> {
        book(self.actors@)
    }

    /// A supervisor with nothing registered.
    pub fn new() -> (s: Supervisor)
        ensures
            s.registry() == Map::<IdKey, AnyRef>::empty(),
    {
        let s = Supervisor { actors: Vec::new() };
        assert(book(s.actors@) =~= Map::<IdKey, AnyRef>::empty());
        s
    }

    /// What `spawn` does, as a function of the registry, the key and the
    /// reference: the grown registry, or the rejection that leaves it alone.
    pub open spec fn spec_spawn(registry: Map<IdKey, AnyRef>, key: IdKey, refs: AnyRef) -> Result<
        Map<IdKey, AnyRef>,
        ErrorKind,
    > {
        if registry.contains_key(key) {
            Err(ErrorKind::AlreadySpawned { id: key })
        } else {
            Ok(registry.insert(key, refs))
        }
    }

    /// What `shutdown` does, as a function of the registry and the key: the
    /// registry without the key, or the rejection that leaves it alone.
    pub open spec fn spec_shutdown(registry: Map<IdKey, AnyRef>, key: IdKey) -> Result<
        Map<IdKey, AnyRef>,
        ErrorKind,
    > {
        if registry.contains_key(key) {
            Ok(registry.remove(key))
        } else {
            Err(ErrorKind::NotFoundActor { id: key })
        }
    }

    /// The supervisor's own start: the context its handlers run in leads back
    /// to its own mailbox, `refs`. The registry is as it was.
    pub fn activate(self, refs: ActorRef<Supervisor>) -> (r: (Supervisor, SupervisorRef, Context))
        ensures
            r.0.registry() == self.registry(),
            r.1@ == refs@,
            r.2.state() == crate::actor::State::Running,
            r.2.supervisor_address() == refs@,
    {
        let handle = SupervisorRef(refs);
        let ctx = Context::new(handle.clone());
        (self, handle, ctx)
    }

    fn position(&self, id: &AnyId) -> (r: Option<usize>)
        ensures
            match r {
                Some(i) => i < self.actors@.len() && self.actors@[i as int].id@ == id@,
                None => !listed(self.actors@, id@),
            },
    {
        let mut i: usize = 0;
        while i < self.actors.len()
            invariant
                i <= self.actors@.len(),
                forall|j: int| 0 <= j < i ==> (#[trigger] self.actors@[j]).id@ != id@,
            decreases self.actors@.len() - i,
        {
            if self.actors[i].id.same(id) {
                return Some(i);
            }
            i += 1;
        }
        None
    }

    /// The type-erased reference registered under `id`, if there is one.
    pub fn get(&self, id: &AnyId) -> (r: Option<AnyRef>)
        ensures
            match r {
                Some(refs) => self.registry().contains_key(id@) && self.registry()[id@] == refs,
                None => !self.registry().contains_key(id@),
            },
    {
        proof {
            use_type_invariant(self);
        }
        match self.position(id) {
            Some(i) => {
                proof {
                    lemma_line(self.actors@, i as int);
                }
                Some(self.actors[i].refs)
            },
            None => None,
        }
    }

    /// How many identifiers are registered.
    pub fn len(&self) -> (n: usize)
        ensures
            n == self.registry().len(),
            self.registry().dom().finite(),
    {
        proof {
            use_type_invariant(self);
            lemma_book_len(self.actors@);
        }
        self.actors.len()
    }

    /// Registers `refs` under `id` and makes the context of the new actor's
    /// task. An identifier that is already registered is rejected with
    /// `AlreadySpawned`, and the registry stays as it was: the earlier
    /// registration is not overwritten.
    pub fn spawn<A: Actor>(&mut self, id: AnyId, refs: ActorRef<A>, ctx: &Context) -> (r: Result<
        (ActorRef<A>, Context),
        ActorError,
    >)
        ensures
            match r {
                Ok((given, made)) => {
                    &&& Self::spec_spawn(old(self).registry(), id@, refs.spec_erase()) == Ok::<
                        Map<IdKey, AnyRef>,
                        ErrorKind,
                    >(final(self).registry())
                    &&& given@ == refs@
                    &&& made.state() == crate::actor::State::Running
                    &&& made.supervisor_address() == ctx.supervisor_address()
                },
                Err(e) => {
                    &&& Self::spec_spawn(old(self).registry(), id@, refs.spec_erase()) == Err::<
                        Map<IdKey, AnyRef>,
                        ErrorKind,
                    >(e@)
                    &&& final(self).registry() == old(self).registry()
                    &&& e == (ActorError::AlreadySpawned { id })
                },
            },
    {
        proof {
            use_type_invariant(&*self);
        }
        match self.position(&id) {
            Some(_) => Err(ActorError::AlreadySpawned { id }),
            None => {
                let entry = Entry { id, refs: refs.clone().erase() };
                proof {
                    lemma_book_push(self.actors@, entry);
                }
                let mut actors: Vec<Entry> = Vec::new();
                core::mem::swap(&mut self.actors, &mut actors);
                actors.push(entry);
                core::mem::swap(&mut self.actors, &mut actors);
                Ok((refs, Context::new(ctx.supervisor())))
            },
        }
    }

    /// Takes `id` out of the registry; an identifier that is not registered
    /// gives `NotFoundActor`. Only the registry changes: the actor behind the
    /// reference is not told, and references handed out earlier stay as they are.
    pub fn shutdown(&mut self, id: AnyId) -> (r: Result<(), ActorError>)
        ensures
            match r {
                Ok(_) => Self::spec_shutdown(old(self).registry(), id@) == Ok::<
                    Map<IdKey, AnyRef>,
                    ErrorKind,
                >(final(self).registry()),
                Err(e) => {
                    &&& Self::spec_shutdown(old(self).registry(), id@) == Err::<
                        Map<IdKey, AnyRef>,
                        ErrorKind,
                    >(e@)
                    &&& final(self).registry() == old(self).registry()
                    &&& e == (ActorError::NotFoundActor { id })
                },
            },
    {
        proof {
            use_type_invariant(&*self);
        }
        match self.position(&id) {
            Some(i) => {
                proof {
                    lemma_book_remove(self.actors@, i as int);
                }
                let mut actors: Vec<Entry> = Vec::new();
                core::mem::swap(&mut self.actors, &mut actors);
                let _gone = actors.remove(i);
                core::mem::swap(&mut self.actors, &mut actors);
                Ok(())
            },
            None => Err(ActorError::NotFoundActor { id }),
        }
    }

    /// What `find` answers, as a function of the registry, the key and the asked tag.
    pub open spec fn spec_find(
        registry: Map<IdKey, AnyRef>,
        key: IdKey,
        asked: ActorKind,
    ) -> Result<Option<Address>, ErrorKind> {
        if registry.contains_key(key) {
            match registry[key].spec_downcast(asked) {
                Ok(address) => Ok(Some(address)),
                Err(e) => Err(e),
            }
        } else {
            Ok(None)
        }
    }

    /// Looks `id` up as an actor of type `A`. Nothing registered under `id`
    /// gives `Ok(None)`; an actor of type `A` gives its reference; an actor of
    /// another type gives `DownCastFromAny`, which is not the same as absent.
    pub fn find<A: Actor>(&self, id: &AnyId) -> (r: Result<Option<ActorRef<A>>, ActorError>)
        ensures
            match r {
                Ok(Some(refs)) => Self::spec_find(self.registry(), id@, A::KIND) == Ok::<
                    Option<Address>,
                    ErrorKind,
                >(Some(refs@)),
                Ok(None) => Self::spec_find(self.registry(), id@, A::KIND) == Ok::<
                    Option<Address>,
                    ErrorKind,
                >(None),
                Err(e) => Self::spec_find(self.registry(), id@, A::KIND) == Err::<
                    Option<Address>,
                    ErrorKind,
                >(e@),
            },
    {
        proof {
            use_type_invariant(self);
        }
        match self.position(id) {
            Some(i) => {
                proof {
                    lemma_line(self.actors@, i as int);
                }
                let stored = self.actors[i].refs;
                match stored.downcast::<A>() {
                    Ok(refs) => Ok(Some(refs)),
                    Err(e) => Err(e),
                }
            },
            None => Ok(None),
        }
    }
}

/// Uniqueness. Of two spawns under one identifier the first, on a registry
/// that does not hold it, succeeds; the second is rejected with
/// `AlreadySpawned` and changes nothing: the identifier still resolves to the
/// first actor.
pub proof fn lemma_spawn_twice(
    registry: Map<IdKey, AnyRef>,
    key: IdKey,
    first: AnyRef,
    second: AnyRef,
)
    requires
        !registry.contains_key(key),
    ensures
        Supervisor::spec_spawn(registry, key, first) == Ok::<Map<IdKey, AnyRef>, ErrorKind>(
            registry.insert(key, first),
        ),
        Supervisor::spec_spawn(registry.insert(key, first), key, second) == Err::<
            Map<IdKey, AnyRef>,
            ErrorKind,
        >(ErrorKind::AlreadySpawned { id: key }),
        Supervisor::spec_find(registry.insert(key, first), key, first.kind) == Ok::<
            Option<Address>,
            ErrorKind,
        >(Some(first.address)),
{
}

/// Lookup correctness. Once `refs` is registered under a key, a lookup of that
/// key as the actor's own type gives this very reference, and a lookup as any
/// other type fails with `DownCastFromAny` instead of reporting absence.
pub proof fn lemma_find_after_spawn(
    registry: Map<IdKey, AnyRef>,
    key: IdKey,
    refs: AnyRef,
    asked: ActorKind,
)
    requires
        !registry.contains_key(key),
    ensures
        Supervisor::spec_find(registry.insert(key, refs), key, refs.kind) == Ok::<
            Option<Address>,
            ErrorKind,
        >(Some(refs.address)),
        asked != refs.kind ==> Supervisor::spec_find(registry.insert(key, refs), key, asked)
            == Err::<Option<Address>, ErrorKind>(ErrorKind::DownCastFromAny),
{
}

/// Deregistration is not a kill. Shutting a registered identifier down makes a
/// lookup of it report absence and leaves every other registration alone. No
/// mailbox is part of what changes: one that accepted before still queues what
/// is offered through a reference obtained earlier.
pub proof fn lemma_deregistration_is_not_a_kill<W>(
    registry: Map<IdKey, AnyRef>,
    key: IdKey,
    asked: ActorKind,
    mailbox: MailboxView<W>,
    item: W,
)
    requires
        registry.contains_key(key),
        mailbox.accepts(),
    ensures
        Supervisor::spec_shutdown(registry, key) == Ok::<Map<IdKey, AnyRef>, ErrorKind>(
            registry.remove(key),
        ),
        Supervisor::spec_find(registry.remove(key), key, asked) == Ok::<
            Option<Address>,
            ErrorKind,
        >(None),
        forall|other: IdKey|
            other != key ==> Supervisor::spec_find(registry.remove(key), other, asked)
                == #[trigger] Supervisor::spec_find(registry, other, asked),
        mailbox.accept(item).accepts(),
        mailbox.accept(item).pending == mailbox.pending.push(item),
{
}

} // verus!
