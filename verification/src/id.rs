use vstd::prelude::*;

use crate::errors::{ActorError, ErrorKind};

verus! {

/// What an identifier is once its concrete type is erased: the type it was made
/// from together with the value. Two keys of different concrete types differ,
/// whatever they hold.
pub enum IdKey {
    Text(Seq<char>),
    U32(u32),
    I32(i32),
    U64(u64),
    I64(i64),
    U128(u128),
    Usize(usize),
}

/// The concrete type behind an erased identifier.
#[derive(Clone, Copy, Debug, PartialEq, Eq, Structural)]
pub enum IdKind {
    Text,
    U32,
    I32,
    U64,
    I64,
    U128,
    Usize,
}

impl IdKey {
    /// Whether `text` is how this key is displayed.
    pub open spec fn shown_as(self, text: String) -> bool {
        match self {
            IdKey::Text(s) => text@ == s,
            IdKey::U32(n) => vstd::string::to_string_from_display_ensures::<u32>(&n, text),
            IdKey::I32(n) => vstd::string::to_string_from_display_ensures::<i32>(&n, text),
            IdKey::U64(n) => vstd::string::to_string_from_display_ensures::<u64>(&n, text),
            IdKey::I64(n) => vstd::string::to_string_from_display_ensures::<i64>(&n, text),
            IdKey::U128(n) => vstd::string::to_string_from_display_ensures::<u128>(&n, text),
            IdKey::Usize(n) => vstd::string::to_string_from_display_ensures::<usize>(&n, text),
        }
    }

    /// The concrete type this key was made from.
    pub open spec fn kind(self) -> IdKind {
        match self {
            IdKey::Text(_) => IdKind::Text,
            IdKey::U32(_) => IdKind::U32,
            IdKey::I32(_) => IdKind::I32,
            IdKey::U64(_) => IdKind::U64,
            IdKey::I64(_) => IdKind::I64,
            IdKey::U128(_) => IdKind::U128,
            IdKey::Usize(_) => IdKind::Usize,
        }
    }
}

#[derive(Clone, Copy, Debug, Hash)]
enum Erased {
    Text(&'static str),
    U32(u32),
    I32(i32),
    U64(u64),
    I64(i64),
    U128(u128),
    Usize(usize),
}

/// A type-erased identifier: any supported concrete key behind one type, so
/// that actors keyed by text, by integers or by 128-bit values share a registry.
#[derive(Clone, Copy, Debug, Hash)]
pub struct AnyId {
    value: Erased,
}

impl View for AnyId {
    type V = IdKey;

    closed spec fn view(&self) -> IdKey {
        match self.value {
            Erased::Text(s) => IdKey::Text(s@),
            Erased::U32(n) => IdKey::U32(n),
            Erased::I32(n) => IdKey::I32(n),
            Erased::U64(n) => IdKey::U64(n),
            Erased::I64(n) => IdKey::I64(n),
            Erased::U128(n) => IdKey::U128(n),
            Erased::Usize(n) => IdKey::Usize(n),
        }
    }
}

/// A concrete key type that can stand behind an `AnyId`.
pub trait Identifier: Sized + Copy {
    /// The concrete type's tag.
    spec fn kind() -> IdKind;

    /// The key this value becomes when its type is erased.
    spec fn key(&self) -> IdKey;

    /// This value with its type erased, as the very value `erase` builds.
    spec fn erased(&self) -> AnyId;

    /// Every key of this type carries the type's tag, and the erased value shows it.
    proof fn key_of_erased(&self)
        ensures
            self.key().kind() == Self::kind(),
            self.erased()@ == self.key(),
    ;

    /// Wraps the value.
    fn erase(self) -> (id: AnyId)
        ensures
            id == self.erased(),
            id@ == self.key(),
            id@.kind() == Self::kind(),
    ;

    /// Hands the concrete value back if `id` was made from this type.
    fn recover(id: &AnyId) -> (r: Option<&Self>)
        ensures
            r.is_some() == (id@.kind() == Self::kind()),
            r.is_some() ==> r.unwrap().key() == id@,
    ;
}

impl Identifier for &'static str {
    open spec fn kind() -> IdKind {
        IdKind::Text
    }

    open spec fn key(&self) -> IdKey {
        IdKey::Text(self@)
    }

    closed spec fn erased(&self) -> AnyId {
        AnyId { value: Erased::Text(*self) }
    }

    proof fn key_of_erased(&self) {
    }

    fn erase(self) -> (id: AnyId) {
        AnyId { value: Erased::Text(self) }
    }

    fn recover(id: &AnyId) -> (r: Option<&Self>) {
        match &id.value {
            Erased::Text(s) => Some(s),
            _ => None,
        }
    }
}

impl Identifier for u32 {
    open spec fn kind() -> IdKind {
        IdKind::U32
    }

    open spec fn key(&self) -> IdKey {
        IdKey::U32(*self)
    }

    closed spec fn erased(&self) -> AnyId {
        AnyId { value: Erased::U32(*self) }
    }

    proof fn key_of_erased(&self) {
    }

    fn erase(self) -> (id: AnyId) {
        AnyId { value: Erased::U32(self) }
    }

    fn recover(id: &AnyId) -> (r: Option<&Self>) {
        match &id.value {
            Erased::U32(n) => Some(n),
            _ => None,
        }
    }
}

impl Identifier for i32 {
    open spec fn kind() -> IdKind {
        IdKind::I32
    }

    open spec fn key(&self) -> IdKey {
        IdKey::I32(*self)
    }

    closed spec fn erased(&self) -> AnyId {
        AnyId { value: Erased::I32(*self) }
    }

    proof fn key_of_erased(&self) {
    }

    fn erase(self) -> (id: AnyId) {
        AnyId { value: Erased::I32(self) }
    }

    fn recover(id: &AnyId) -> (r: Option<&Self>) {
        match &id.value {
            Erased::I32(n) => Some(n),
            _ => None,
        }
    }
}

impl Identifier for u64 {
    open spec fn kind() -> IdKind {
        IdKind::U64
    }

    open spec fn key(&self) -> IdKey {
        IdKey::U64(*self)
    }

    closed spec fn erased(&self) -> AnyId {
        AnyId { value: Erased::U64(*self) }
    }

    proof fn key_of_erased(&self) {
    }

    fn erase(self) -> (id: AnyId) {
        AnyId { value: Erased::U64(self) }
    }

    fn recover(id: &AnyId) -> (r: Option<&Self>) {
        match &id.value {
            Erased::U64(n) => Some(n),
            _ => None,
        }
    }
}

impl Identifier for i64 {
    open spec fn kind() -> IdKind {
        IdKind::I64
    }

    open spec fn key(&self) -> IdKey {
        IdKey::I64(*self)
    }

    closed spec fn erased(&self) -> AnyId {
        AnyId { value: Erased::I64(*self) }
    }

    proof fn key_of_erased(&self) {
    }

    fn erase(self) -> (id: AnyId) {
        AnyId { value: Erased::I64(self) }
    }

    fn recover(id: &AnyId) -> (r: Option<&Self>) {
        match &id.value {
            Erased::I64(n) => Some(n),
            _ => None,
        }
    }
}

impl Identifier for u128 {
    open spec fn kind() -> IdKind {
        IdKind::U128
    }

    open spec fn key(&self) -> IdKey {
        IdKey::U128(*self)
    }

    closed spec fn erased(&self) -> AnyId {
        AnyId { value: Erased::U128(*self) }
    }

    proof fn key_of_erased(&self) {
    }

    fn erase(self) -> (id: AnyId) {
        AnyId { value: Erased::U128(self) }
    }

    fn recover(id: &AnyId) -> (r: Option<&Self>) {
        match &id.value {
            Erased::U128(n) => Some(n),
            _ => None,
        }
    }
}

impl Identifier for usize {
    open spec fn kind() -> IdKind {
        IdKind::Usize
    }

    open spec fn key(&self) -> IdKey {
        IdKey::Usize(*self)
    }

    closed spec fn erased(&self) -> AnyId {
        AnyId { value: Erased::Usize(*self) }
    }

    proof fn key_of_erased(&self) {
    }

    fn erase(self) -> (id: AnyId) {
        AnyId { value: Erased::Usize(self) }
    }

    fn recover(id: &AnyId) -> (r: Option<&Self>) {
        match &id.value {
            Erased::Usize(n) => Some(n),
            _ => None,
        }
    }
}

impl AnyId {
    /// Wraps a concrete key. Always succeeds.
    pub fn new<T: Identifier>(value: T) -> (id: AnyId)
        ensures
            id == value.erased(),
            id@ == value.key(),
            id@.kind() == T::kind(),
    {
        value.erase()
    }

    /// The concrete type this identifier was made from.
    pub fn kind(&self) -> (k: IdKind)
        ensures
            k == self@.kind(),
    {
        match self.value {
            Erased::Text(_) => IdKind::Text,
            Erased::U32(_) => IdKind::U32,
            Erased::I32(_) => IdKind::I32,
            Erased::U64(_) => IdKind::U64,
            Erased::I64(_) => IdKind::I64,
            Erased::U128(_) => IdKind::U128,
            Erased::Usize(_) => IdKind::Usize,
        }
    }

    /// The identifier as text: a textual key as it is, a number as its type
    /// displays it.
    pub fn text(&self) -> (r: String)
        ensures
            self@.shown_as(r),
    {
        match self.value {
            Erased::Text(s) => s.to_owned(),
            Erased::U32(n) => n.to_string(),
            Erased::I32(n) => n.to_string(),
            Erased::U64(n) => n.to_string(),
            Erased::I64(n) => n.to_string(),
            Erased::U128(n) => n.to_string(),
            Erased::Usize(n) => n.to_string(),
        }
    }

    /// Borrows the concrete key. Succeeds exactly when `T` is the type the
    /// identifier was made from; any other `T` gives `DownCastFromAny`.
    pub fn downcast_ref<T: Identifier>(&self) -> (r: Result<&T, ActorError>)
        ensures
            match r {
                Ok(v) => self@.kind() == T::kind() && v.key() == self@,
                Err(e) => self@.kind() != T::kind() && e@ == ErrorKind::DownCastFromAny,
            },
    {
        match T::recover(self) {
            Some(v) => Ok(v),
            None => Err(ActorError::DownCastFromAny),
        }
    }

    /// Takes the concrete key out. Succeeds exactly when `T` is the type the
    /// identifier was made from; any other `T` gives `DownCastFromAny`.
    pub fn downcast<T: Identifier>(self) -> (r: Result<T, ActorError>)
        ensures
            match r {
                Ok(v) => self@.kind() == T::kind() && v.key() == self@,
                Err(e) => self@.kind() != T::kind() && e@ == ErrorKind::DownCastFromAny,
            },
    {
        match T::recover(&self) {
            Some(v) => Ok(*v),
            None => Err(ActorError::DownCastFromAny),
        }
    }

    /// Equality across the erased boundary: true exactly when both were made
    /// from the same concrete type and from equal values.
    pub fn same(&self, other: &AnyId) -> (r: bool)
        ensures
            r == (self@ == other@),
    {
        match (self.value, other.value) {
            (Erased::Text(a), Erased::Text(b)) => {
                let x = a.to_owned();
                let y = b.to_owned();
                x == y
            },
            (Erased::U32(a), Erased::U32(b)) => a == b,
            (Erased::I32(a), Erased::I32(b)) => a == b,
            (Erased::U64(a), Erased::U64(b)) => a == b,
            (Erased::I64(a), Erased::I64(b)) => a == b,
            (Erased::U128(a), Erased::U128(b)) => a == b,
            (Erased::Usize(a), Erased::Usize(b)) => a == b,
            _ => false,
        }
    }

    /// Compares with a concrete key that was never erased.
    pub fn is<T: Identifier>(&self, other: &T) -> (r: bool)
        ensures
            r == (self@ == other.key()),
    {
        let wrapped = other.erase();
        self.same(&wrapped)
    }
}

impl PartialEq for AnyId {
    fn eq(&self, other: &AnyId) -> (r: bool) {
        self.same(other)
    }
}

impl vstd::std_specs::cmp::PartialEqSpecImpl for AnyId {
    open spec fn obeys_eq_spec() -> bool {
        true
    }

    open spec fn eq_spec(&self, other: &AnyId) -> bool {
        self@ == other@
    }
}

impl Eq for AnyId {}

impl<T: Identifier> From<T> for AnyId {
    fn from(value: T) -> (id: AnyId) {
        value.erase()
    }
}

impl<T: Identifier> vstd::std_specs::convert::FromSpecImpl<T> for AnyId {
    open spec fn obeys_from_spec() -> bool {
        true
    }

    open spec fn from_spec(value: T) -> AnyId {
        value.erased()
    }
}

} // verus!
