//! The two-state presence value: a field is either absent or present.

use vstd::prelude::*;

verus! {

/// A two-state presence value: [`Defined::Undef`] records that a field was
/// never supplied, [`Defined::Def`] that it was supplied with a value.
///
/// Unlike `Option`, the name says what absence means: the field is
/// *undefined*, not "known to be empty".  The tag order places `Undef`
/// before any `Def` value.
#[derive(Copy, PartialEq, PartialOrd, Eq, Ord, Debug, Hash)]
pub enum Defined<T> {
    Undef,
    Def(T),
}

impl<T: Clone> Clone for Defined<T> {
    /// Cloning keeps the variant tag; a `Def` payload is cloned with `T`'s
    /// own `clone`.
    fn clone(&self) -> (r: Self)
        ensures
            *self is Undef ==> r is Undef,
            *self matches Defined::Def(v) ==> (r matches Defined::Def(u) && cloned(v, u)),
    {
        match self {
            Defined::Def(val) => Defined::Def(val.clone()),
            Defined::Undef => Defined::Undef,
        }
    }
}

impl<T> Default for Defined<T> {
    /// A default-constructed presence value is `Undef`: a record decoder
    /// that never visits the field leaves it in this state.
    fn default() -> (r: Self)
        ensures
            r is Undef,
    {
        Defined::Undef
    }
}

impl<T> From<T> for Defined<T> {
    /// Wrapping a raw value always yields `Def`.
    fn from(val: T) -> (r: Defined<T>) {
        Defined::Def(val)
    }
}

impl<T> vstd::std_specs::convert::FromSpecImpl<T> for Defined<T> {
    open spec fn obeys_from_spec() -> bool {
        true
    }

    open spec fn from_spec(val: T) -> Defined<T> {
        Defined::Def(val)
    }
}

impl<T> Defined<T> {
    /// The collapse to a native optional: `Def(v)` becomes `Some(v)`,
    /// `Undef` becomes `None`.
    pub open spec fn spec_as_option(self) -> Option<T> {
        match self {
            Defined::Def(v) => Some(v),
            Defined::Undef => None,
        }
    }

    /// The lossless widening to an optional of an optional: `Def(v)`
    /// becomes `Some(Some(v))`, `Undef` becomes `None`.
    pub open spec fn spec_as_nested_option(self) -> Option<Option<T>> {
        match self {
            Defined::Def(v) => Some(Some(v)),
            Defined::Undef => None,
        }
    }

    /// Returns `true` exactly when the value is `Def`.
    pub fn is_def(&self) -> (r: bool)
        ensures
            r == (*self is Def),
    {
        matches!(*self, Defined::Def(_))
    }

    /// Returns whether the value is `Def` and its payload satisfies the
    /// predicate; `Undef` never satisfies it.
    pub fn is_def_and<F: FnOnce(T) -> bool>(self, f: F) -> (r: bool)
        requires
            self matches Defined::Def(v) ==> f.requires((v,)),
        ensures
            self is Undef ==> r == false,
            self matches Defined::Def(v) ==> f.ensures((v,), r),
    {
        match self {
            Defined::Def(x) => f(x),
            _ => false,
        }
    }

    /// Borrows the payload without moving the value; the tag is kept.
    pub fn as_ref(&self) -> (r: Defined<&T>)
        ensures
            r is Def <==> *self is Def,
            *self matches Defined::Def(v) ==> (r matches Defined::Def(u) && *u == v),
    {
        match *self {
            Defined::Def(ref val) => Defined::Def(val),
            Defined::Undef => Defined::Undef,
        }
    }

    /// Mutably borrows the payload without moving the value; the tag is
    /// kept, and writing through the returned borrow is writing into the
    /// `Def` payload.
    pub fn as_mut(&mut self) -> (r: Defined<&mut T>)
        ensures
            *old(self) is Undef ==> (r is Undef && *final(self) is Undef),
            *old(self) matches Defined::Def(v) ==> (r matches Defined::Def(m) && *m == v && (
            *final(self) matches Defined::Def(w) && w == *final(m))),
    {
        match *self {
            Defined::Def(ref mut val) => Defined::Def(val),
            Defined::Undef => Defined::Undef,
        }
    }

    /// Extracts the payload; the caller must know the value is `Def`,
    /// as the message is only ever attached to a failure that cannot
    /// happen under this contract.
    pub fn expect(self, msg: &str) -> (r: T)
        requires
            self is Def,
        ensures
            self matches Defined::Def(v) && r == v,
    {
        match self {
            Defined::Def(val) => val,
            _ => vstd::pervasive::unreached(),
        }
    }

    /// Extracts the payload; the caller must know the value is `Def`.
    pub fn unwrap(self) -> (r: T)
        requires
            self is Def,
        ensures
            self matches Defined::Def(v) && r == v,
    {
        match self {
            Defined::Def(val) => val,
            _ => vstd::pervasive::unreached(),
        }
    }

    /// Extracts the payload, or returns the given default on `Undef`.
    pub fn unwrap_or(self, default: T) -> (r: T)
        ensures
            self matches Defined::Def(v) ==> r == v,
            self is Undef ==> r == default,
    {
        match self {
            Defined::Def(val) => val,
            _ => default,
        }
    }

    /// Extracts the payload, or computes a fallback on `Undef`.
    pub fn unwrap_or_else<F: FnOnce() -> T>(self, f: F) -> (r: T)
        requires
            self is Undef ==> f.requires(()),
        ensures
            self matches Defined::Def(v) ==> r == v,
            self is Undef ==> f.ensures((), r),
    {
        match self {
            Defined::Def(val) => val,
            _ => f(),
        }
    }

    /// Extracts the payload, or returns `T`'s default value on `Undef`.
    pub fn unwrap_or_default(self) -> (r: T) where T: Default
        ensures
            self matches Defined::Def(v) ==> r == v,
            self is Undef ==> T::default.ensures((), r),
    {
        match self {
            Defined::Def(x) => x,
            _ => T::default(),
        }
    }

    /// Applies the transform to a `Def` payload; `Undef` passes through
    /// unchanged, and the transform is never invoked on it.
    pub fn map<U, F: FnOnce(T) -> U>(self, f: F) -> (r: Defined<U>)
        requires
            self matches Defined::Def(v) ==> f.requires((v,)),
        ensures
            self is Undef ==> r is Undef,
            self matches Defined::Def(v) ==> (r matches Defined::Def(u) && f.ensures((v,), u)),
    {
        match self {
            Defined::Def(val) => Defined::Def(f(val)),
            Defined::Undef => Defined::Undef,
        }
    }

    /// Calls the observer on a `Def` payload and hands the value back
    /// unchanged.
    pub fn inspect<F: FnOnce(&T)>(self, f: F) -> (r: Self)
        requires
            self matches Defined::Def(v) ==> f.requires((&v,)),
        ensures
            r == self,
            self matches Defined::Def(v) ==> f.ensures((&v,), ()),
    {
        match &self {
            Defined::Def(val) => f(val),
            _ => (),
        }
        self
    }

    /// Maps a `Def` payload through the transform, or returns the default
    /// on `Undef`.
    pub fn map_or<U, F: FnOnce(T) -> U>(self, default: U, f: F) -> (r: U)
        requires
            self matches Defined::Def(v) ==> f.requires((v,)),
        ensures
            self is Undef ==> r == default,
            self matches Defined::Def(v) ==> f.ensures((v,), r),
    {
        match self {
            Defined::Def(val) => f(val),
            _ => default,
        }
    }

    /// Maps a `Def` payload through the transform, or computes the default
    /// on `Undef`.
    pub fn map_or_else<U, D: FnOnce() -> U, F: FnOnce(T) -> U>(self, default: D, f: F) -> (r: U)
        requires
            self matches Defined::Def(v) ==> f.requires((v,)),
            self is Undef ==> default.requires(()),
        ensures
            self is Undef ==> default.ensures((), r),
            self matches Defined::Def(v) ==> f.ensures((v,), r),
    {
        match self {
            Defined::Def(val) => f(val),
            _ => default(),
        }
    }

    /// Turns `Def(v)` into `Ok(v)` and `Undef` into the given error.
    pub fn ok_or<E>(self, err: E) -> (r: Result<T, E>)
        ensures
            self matches Defined::Def(v) ==> r == Ok::<T, E>(v),
            self is Undef ==> r == Err::<T, E>(err),
    {
        match self {
            Defined::Def(val) => Ok(val),
            _ => Err(err),
        }
    }

    /// Turns `Def(v)` into `Ok(v)`; the error is computed only on `Undef`.
    pub fn ok_or_else<E, F: FnOnce() -> E>(self, err: F) -> (r: Result<T, E>)
        requires
            self is Undef ==> err.requires(()),
        ensures
            self matches Defined::Def(v) ==> r == Ok::<T, E>(v),
            self is Undef ==> (r matches Err(e) && err.ensures((), e)),
    {
        match self {
            Defined::Def(val) => Ok(val),
            _ => Err(err()),
        }
    }

    /// Collapses presence into a native optional that always holds a value:
    /// `Def(v)` gives `Some(v)` and `Undef` gives `Some(default)`.
    pub fn def_or(self, default: T) -> (r: Option<T>)
        ensures
            self matches Defined::Def(v) ==> r == Some(v),
            self is Undef ==> r == Some(default),
    {
        match self {
            Defined::Def(val) => Some(val),
            Defined::Undef => Some(default),
        }
    }

    /// Maps a `Def` payload, wrapped in a native optional, through the
    /// transform; returns the default on `Undef` without invoking it.
    pub fn map_def_or<U, F: FnOnce(Option<T>) -> U>(self, default: U, f: F) -> (r: U)
        requires
            self matches Defined::Def(v) ==> f.requires((Some(v),)),
        ensures
            self is Undef ==> r == default,
            self matches Defined::Def(v) ==> f.ensures((Some(v),), r),
    {
        match self {
            Defined::Def(val) => f(Some(val)),
            _ => default,
        }
    }

    /// The lossy collapse to a native optional: only `Def` survives.
    pub fn into_option(self) -> (r: Option<T>)
        ensures
            r == self.spec_as_option(),
    {
        match self {
            Defined::Def(val) => Some(val),
            _ => None,
        }
    }

    /// The widening to an optional of an optional, as the reference
    /// mapping for round trips: `Def(v)` gives `Some(Some(v))`, `Undef`
    /// gives `None`.
    pub fn into_nested_option(self) -> (r: Option<Option<T>>)
        ensures
            r == self.spec_as_nested_option(),
    {
        match self {
            Defined::Def(val) => Some(Some(val)),
            Defined::Undef => None,
        }
    }
}

/// A present value collapses to `Some` of its payload.
pub proof fn lemma_def_as_option<T>(v: T)
    ensures
        (Defined::Def(v)).spec_as_option() == Some(v),
        (Defined::Def(v)).spec_as_nested_option() == Some(Some(v)),
{
}

/// An absent value collapses to a native `None`, under both the lossy and
/// the widening conversion.
pub proof fn lemma_undef_as_option<T>()
    ensures
        (Defined::Undef::<T>).spec_as_option() == None::<T>,
        (Defined::Undef::<T>).spec_as_nested_option() == None::<Option<T>>,
{
}

/// The widening conversion loses nothing: two presence values with the
/// same nested-optional image are the same value.
pub proof fn lemma_nested_option_lossless<T>(a: Defined<T>, b: Defined<T>)
    ensures
        a.spec_as_nested_option() == b.spec_as_nested_option() ==> a == b,
{
}

} // verus!
