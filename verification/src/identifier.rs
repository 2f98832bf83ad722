use vstd::prelude::*;

verus! {

/// The textual name of an actor.
#[derive(Debug)]
pub struct ActorId {
    id: String,
}

impl View for ActorId {
    type V = Seq<char>;

    closed spec fn view(&self) -> Seq<char> {
        self.id@
    }
}

impl ActorId {
    /// The name as text.
    pub fn as_str(&self) -> (s: &str)
        ensures
            s@ == self@,
    {
        self.id.as_str()
    }
}

/// Turns a value into the actor name it spells, giving the value up.
pub trait IntoActorId {
    /// The text the value spells.
    spec fn spelled(&self) -> Seq<char>;

    /// The actor name with that text.
    fn into_actor_id(self) -> (id: ActorId)
        ensures
            id@ == self.spelled(),
    ;
}

/// Makes the actor name a value spells, leaving the value with the caller.
pub trait ToActorId {
    /// The text the value spells.
    spec fn spelling(&self) -> Seq<char>;

    /// The actor name with that text.
    fn to_actor_id(&self) -> (id: ActorId)
        ensures
            id@ == self.spelling(),
    ;
}

impl IntoActorId for String {
    open spec fn spelled(&self) -> Seq<char> {
        self@
    }

    fn into_actor_id(self) -> (id: ActorId) {
        ActorId { id: self }
    }
}

impl IntoActorId for &str {
    open spec fn spelled(&self) -> Seq<char> {
        self@
    }

    fn into_actor_id(self) -> (id: ActorId) {
        ActorId { id: self.to_owned() }
    }
}

impl ToActorId for String {
    open spec fn spelling(&self) -> Seq<char> {
        self@
    }

    fn to_actor_id(&self) -> (id: ActorId) {
        ActorId { id: self.clone() }
    }
}

impl ToActorId for &str {
    open spec fn spelling(&self) -> Seq<char> {
        self@
    }

    fn to_actor_id(&self) -> (id: ActorId) {
        ActorId { id: (*self).to_owned() }
    }
}

} // verus!
