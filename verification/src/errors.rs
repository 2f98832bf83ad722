use vstd::prelude::*;

use crate::id::AnyId;

verus! {

/// What the runtime core itself can report. A handler's own rejection is a
/// type of the actor's author and never appears here.
#[derive(Clone, Copy, Debug)]
pub enum ActorError {
    /// A spawn named an identifier that the registry already holds.
    AlreadySpawned { id: AnyId },
    /// A shutdown named an identifier that the registry does not hold.
    NotFoundActor { id: AnyId },
    /// The mailbox was closed, or the reply slot was dropped unanswered.
    CallBackSend,
    /// A type-erased value was asked back as a type it was not made from.
    DownCastFromAny,
}

/// The shape of an error with the identifier's key in place of the identifier.
pub enum ErrorKind {
    AlreadySpawned { id: crate::id::IdKey },
    NotFoundActor { id: crate::id::IdKey },
    CallBackSend,
    DownCastFromAny,
}

impl View for ActorError {
    type V = ErrorKind;

    open spec fn view(&self) -> ErrorKind {
        match *self {
            ActorError::AlreadySpawned { id } => ErrorKind::AlreadySpawned { id: id@ },
            ActorError::NotFoundActor { id } => ErrorKind::NotFoundActor { id: id@ },
            ActorError::CallBackSend => ErrorKind::CallBackSend,
            ActorError::DownCastFromAny => ErrorKind::DownCastFromAny,
        }
    }
}

impl ErrorKind {
    /// The message of an error of this kind, where `shown` is how the
    /// identifier it names is displayed.
    pub open spec fn message(self, shown: Seq<char>) -> Seq<char> {
        match self {
            ErrorKind::AlreadySpawned { .. } => "Actor with this identifier: "@ + shown
                + " has already been activated."@,
            ErrorKind::NotFoundActor { .. } => "The target actor could not be found. actor: `"@
                + shown + "` It may have already been shut down or may not have started."@,
            ErrorKind::CallBackSend => Seq::empty(),
            ErrorKind::DownCastFromAny =>
                "May have passed different type information than what was expected when downcasting from `Any` to type."@,
        }
    }
}

impl ActorError {
    /// The message that describes the error to a reader. The two errors that
    /// name an identifier show it as the identifier displays itself.
    pub fn message(&self) -> (r: String)
        ensures
            match *self {
                ActorError::AlreadySpawned { id } => exists|shown: String|
                    id@.shown_as(shown) && r@ == self@.message(shown@),
                ActorError::NotFoundActor { id } => exists|shown: String|
                    id@.shown_as(shown) && r@ == self@.message(shown@),
                _ => r@ == self@.message(Seq::empty()),
            },
    {
        match self {
            ActorError::AlreadySpawned { id } => {
                let shown = id.text();
                let mut text = "Actor with this identifier: ".to_owned();
                text.append(shown.as_str());
                text.append(" has already been activated.");
                text
            },
            ActorError::NotFoundActor { id } => {
                let shown = id.text();
                let mut text = "The target actor could not be found. actor: `".to_owned();
                text.append(shown.as_str());
                text.append("` It may have already been shut down or may not have started.");
                text
            },
            ActorError::CallBackSend => String::new(),
            ActorError::DownCastFromAny => {
                "May have passed different type information than what was expected when downcasting from `Any` to type.".to_owned()
            },
        }
    }
}

impl PartialEq for ActorError {
    /// Two errors are equal when they are of the same kind and name equal identifiers.
    fn eq(&self, other: &ActorError) -> (r: bool) {
        match (self, other) {
            (ActorError::AlreadySpawned { id: a }, ActorError::AlreadySpawned { id: b }) => a.same(b),
            (ActorError::NotFoundActor { id: a }, ActorError::NotFoundActor { id: b }) => a.same(b),
            (ActorError::CallBackSend, ActorError::CallBackSend) => true,
            (ActorError::DownCastFromAny, ActorError::DownCastFromAny) => true,
            _ => false,
        }
    }
}

impl vstd::std_specs::cmp::PartialEqSpecImpl for ActorError {
    open spec fn obeys_eq_spec() -> bool {
        true
    }

    open spec fn eq_spec(&self, other: &ActorError) -> bool {
        self@ == other@
    }
}

impl Eq for ActorError {}

} // verus!
