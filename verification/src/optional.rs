//! The three-state presence value: absent, explicitly null, or present.

use vstd::prelude::*;

verus! {

/// A three-state presence value. [`Optional::Undef`] records that a field
/// was never supplied, [`Optional::Null`] that it was supplied with an
/// explicit null token, and [`Optional::Def`] that it was supplied with a
/// concrete value.
///
/// The distinction carries PATCH semantics: an omitted field means "leave
/// unchanged", an explicit null means "clear this field", and a value means
/// "set this field".  The tag order places `Undef` before `Null` before any
/// `Def` value.
#[derive(Copy, PartialEq, PartialOrd, Eq, Ord, Debug, Hash)]
pub enum Optional<T> {
    Undef,
    Null,
    Def(T),
}

impl<T: Clone> Clone for Optional<T> {
    /// Cloning keeps the variant tag; a `Def` payload is cloned with `T`'s
    /// own `clone`.
    fn clone(&self) -> (r: Self)
        ensures
            *self is Undef ==> r is Undef,
            *self is Null ==> r is Null,
            *self matches Optional::Def(v) ==> (r matches Optional::Def(u) && cloned(v, u)),
    {
        match self {
            Optional::Def(val) => Optional::Def(val.clone()),
            Optional::Null => Optional::Null,
            Optional::Undef => Optional::Undef,
        }
    }
}

impl<T> Default for Optional<T> {
    /// A default-constructed presence value is `Undef`: a record decoder
    /// that never visits the field leaves it in this state.
    fn default() -> (r: Self)
        ensures
            r is Undef,
    {
        Optional::Undef
    }
}

impl<T> From<T> for Optional<T> {
    /// Wrapping a raw value always yields `Def`.
    fn from(val: T) -> (r: Optional<T>) {
        Optional::Def(val)
    }
}

impl<T> vstd::std_specs::convert::FromSpecImpl<T> for Optional<T> {
    open spec fn obeys_from_spec() -> bool {
        true
    }

    open spec fn from_spec(val: T) -> Optional<T> {
        Optional::Def(val)
    }
}

impl<T> From<Option<T>> for Optional<T> {
    /// A native optional carries no "never supplied" state, so its `None`
    /// maps to the determined emptiness `Null`, not to `Undef`.
    fn from(val: Option<T>) -> (r: Optional<T>) {
        match val {
            Some(v) => Optional::Def(v),
            None => Optional::Null,
        }
    }
}

impl<T> vstd::std_specs::convert::FromSpecImpl<Option<T>> for Optional<T> {
    open spec fn obeys_from_spec() -> bool {
        true
    }

    open spec fn from_spec(val: Option<T>) -> Optional<T> {
        match val {
            Some(v) => Optional::Def(v),
            None => Optional::Null,
        }
    }
}

impl<T> Optional<T> {
    /// The lossy collapse to a native optional: only `Def(v)` becomes
    /// `Some(v)`; both `Undef` and `Null` become `None`.
    pub open spec fn spec_as_option(self) -> Option<T> {
        match self {
            Optional::Def(v) => Some(v),
            _ => None,
        }
    }

    /// The lossless widening to an optional of an optional: `Def(v)`
    /// becomes `Some(Some(v))`, `Null` becomes `Some(None)`, and `Undef`
    /// becomes `None`.
    pub open spec fn spec_as_nested_option(self) -> Option<Option<T>> {
        match self {
            Optional::Def(v) => Some(Some(v)),
            Optional::Null => Some(None),
            Optional::Undef => None,
        }
    }

    /// Returns `true` exactly when the value is `Def`.
    pub fn is_def(&self) -> (r: bool)
        ensures
            r == (*self is Def),
    {
        matches!(*self, Optional::Def(_))
    }

    /// Returns whether the value is `Def` and its payload satisfies the
    /// predicate; `Undef` and `Null` never satisfy it.
    pub fn is_def_and<F: FnOnce(T) -> bool>(self, f: F) -> (r: bool)
        requires
            self matches Optional::Def(v) ==> f.requires((v,)),
        ensures
            self !is Def ==> r == false,
            self matches Optional::Def(v) ==> f.ensures((v,), r),
    {
        match self {
            Optional::Def(x) => f(x),
            _ => false,
        }
    }

    /// Returns `true` exactly when the value is the explicit null.
    pub fn is_null(&self) -> (r: bool)
        ensures
            r == (*self is Null),
    {
        matches!(*self, Optional::Null)
    }

    /// Borrows the payload without moving the value; the tag is kept.
    pub fn as_ref(&self) -> (r: Optional<&T>)
        ensures
            r is Def <==> *self is Def,
            r is Null <==> *self is Null,
            *self matches Optional::Def(v) ==> (r matches Optional::Def(u) && *u == v),
    {
        match *self {
            Optional::Def(ref val) => Optional::Def(val),
            Optional::Null => Optional::Null,
            Optional::Undef => Optional::Undef,
        }
    }

    /// Mutably borrows the payload without moving the value; the tag is
    /// kept, and writing through the returned borrow is writing into the
    /// `Def` payload.
    pub fn as_mut(&mut self) -> (r: Optional<&mut T>)
        ensures
            *old(self) is Undef ==> (r is Undef && *final(self) is Undef),
            *old(self) is Null ==> (r is Null && *final(self) is Null),
            *old(self) matches Optional::Def(v) ==> (r matches Optional::Def(m) && *m == v && (
            *final(self) matches Optional::Def(w) && w == *final(m))),
    {
        match *self {
            Optional::Def(ref mut val) => Optional::Def(val),
            Optional::Null => Optional::Null,
            Optional::Undef => Optional::Undef,
        }
    }

    /// Extracts the payload; the caller must know the value is `Def`,
    /// as the message is only ever attached to a failure that cannot
    /// happen under this contract.
    pub fn expect(self, msg: &str) -> (r: T)
        requires
            self is Def,
        ensures
            self matches Optional::Def(v) && r == v,
    {
        match self {
            Optional::Def(val) => val,
            _ => vstd::pervasive::unreached(),
        }
    }

    /// Extracts the payload; the caller must know the value is `Def`.
    pub fn unwrap(self) -> (r: T)
        requires
            self is Def,
        ensures
            self matches Optional::Def(v) && r == v,
    {
        match self {
            Optional::Def(val) => val,
            _ => vstd::pervasive::unreached(),
        }
    }

    /// Extracts the payload, or returns the given default on `Undef` and
    /// `Null` alike.
    pub fn unwrap_or(self, default: T) -> (r: T)
        ensures
            self matches Optional::Def(v) ==> r == v,
            self !is Def ==> r == default,
    {
        match self {
            Optional::Def(val) => val,
            _ => default,
        }
    }

    /// Extracts the payload, or computes a fallback on `Undef` and `Null`
    /// alike.
    pub fn unwrap_or_else<F: FnOnce() -> T>(self, f: F) -> (r: T)
        requires
            self !is Def ==> f.requires(()),
        ensures
            self matches Optional::Def(v) ==> r == v,
            self !is Def ==> f.ensures((), r),
    {
        match self {
            Optional::Def(val) => val,
            _ => f(),
        }
    }

    /// Extracts the payload, or returns `T`'s default value otherwise.
    pub fn unwrap_or_default(self) -> (r: T) where T: Default
        ensures
            self matches Optional::Def(v) ==> r == v,
            self !is Def ==> T::default.ensures((), r),
    {
        match self {
            Optional::Def(x) => x,
            _ => T::default(),
        }
    }

    /// Applies the transform to a `Def` payload; `Undef` and `Null` pass
    /// through unchanged, and the transform is never invoked on them.
    pub fn map<U, F: FnOnce(T) -> U>(self, f: F) -> (r: Optional<U>)
        requires
            self matches Optional::Def(v) ==> f.requires((v,)),
        ensures
            self is Undef ==> r is Undef,
            self is Null ==> r is Null,
            self matches Optional::Def(v) ==> (r matches Optional::Def(u) && f.ensures((v,), u)),
    {
        match self {
            Optional::Def(val) => Optional::Def(f(val)),
            Optional::Null => Optional::Null,
            Optional::Undef => Optional::Undef,
        }
    }

    /// Calls the observer on a `Def` payload and hands the value back
    /// unchanged.
    pub fn inspect<F: FnOnce(&T)>(self, f: F) -> (r: Self)
        requires
            self matches Optional::Def(v) ==> f.requires((&v,)),
        ensures
            r == self,
            self matches Optional::Def(v) ==> f.ensures((&v,), ()),
    {
        match &self {
            Optional::Def(val) => f(val),
            _ => (),
        }
        self
    }

    /// Maps a `Def` payload through the transform, or returns the default
    /// otherwise.
    pub fn map_or<U, F: FnOnce(T) -> U>(self, default: U, f: F) -> (r: U)
        requires
            self matches Optional::Def(v) ==> f.requires((v,)),
        ensures
            self !is Def ==> r == default,
            self matches Optional::Def(v) ==> f.ensures((v,), r),
    {
        match self {
            Optional::Def(val) => f(val),
            _ => default,
        }
    }

    /// Maps a `Def` payload through the transform, or computes the default
    /// otherwise.
    pub fn map_or_else<U, D: FnOnce() -> U, F: FnOnce(T) -> U>(self, default: D, f: F) -> (r: U)
        requires
            self matches Optional::Def(v) ==> f.requires((v,)),
            self !is Def ==> default.requires(()),
        ensures
            self !is Def ==> default.ensures((), r),
            self matches Optional::Def(v) ==> f.ensures((v,), r),
    {
        match self {
            Optional::Def(val) => f(val),
            _ => default(),
        }
    }

    /// Turns `Def(v)` into `Ok(v)`; `Undef` and `Null` both give the error.
    pub fn ok_or<E>(self, err: E) -> (r: Result<T, E>)
        ensures
            self matches Optional::Def(v) ==> r == Ok::<T, E>(v),
            self !is Def ==> r == Err::<T, E>(err),
    {
        match self {
            Optional::Def(val) => Ok(val),
            _ => Err(err),
        }
    }

    /// Turns `Def(v)` into `Ok(v)`; the error is computed only on `Undef`
    /// and `Null`.
    pub fn ok_or_else<E, F: FnOnce() -> E>(self, err: F) -> (r: Result<T, E>)
        requires
            self !is Def ==> err.requires(()),
        ensures
            self matches Optional::Def(v) ==> r == Ok::<T, E>(v),
            self !is Def ==> (r matches Err(e) && err.ensures((), e)),
    {
        match self {
            Optional::Def(val) => Ok(val),
            _ => Err(err()),
        }
    }

    /// Collapses presence into a native optional, treating the two empty
    /// states asymmetrically: `Def(v)` gives `Some(v)`, the never-supplied
    /// `Undef` gives `Some(default)`, but the determined emptiness `Null`
    /// gives `None`.
    pub fn def_or(self, default: T) -> (r: Option<T>)
        ensures
            self matches Optional::Def(v) ==> r == Some(v),
            self is Undef ==> r == Some(default),
            self is Null ==> r == None::<T>,
    {
        match self {
            Optional::Def(val) => Some(val),
            Optional::Null => None,
            Optional::Undef => Some(default),
        }
    }

    /// The lossy collapse to a native optional: only `Def` survives.
    pub fn into_option(self) -> (r: Option<T>)
        ensures
            r == self.spec_as_option(),
    {
        match self {
            Optional::Def(val) => Some(val),
            _ => None,
        }
    }

    /// The widening to an optional of an optional, as the reference
    /// mapping for round trips: `Def(v)` gives `Some(Some(v))`, `Null`
    /// gives `Some(None)`, `Undef` gives `None`.
    pub fn into_nested_option(self) -> (r: Option<Option<T>>)
        ensures
            r == self.spec_as_nested_option(),
    {
        match self {
            Optional::Def(val) => Some(Some(val)),
            Optional::Null => Some(None),
            Optional::Undef => None,
        }
    }
}

/// A present value collapses to `Some` of its payload, under both the
/// lossy and the widening conversion.
pub proof fn lemma_def_as_option<T>(v: T)
    ensures
        (Optional::Def(v)).spec_as_option() == Some(v),
        (Optional::Def(v)).spec_as_nested_option() == Some(Some(v)),
{
}

/// An absent value collapses to a native `None`.
pub proof fn lemma_undef_as_option<T>()
    ensures
        (Optional::Undef::<T>).spec_as_option() == None::<T>,
{
}

/// The explicit null and the absent state both collapse to a native
/// `None`, yet their nested-optional images `Some(None)` and `None`
/// stay apart: the widening never conflates them.
pub proof fn lemma_null_undef_distinguished<T>()
    ensures
        (Optional::Null::<T>).spec_as_option() == None::<T>,
        (Optional::Null::<T>).spec_as_nested_option() == Some(None::<T>),
        (Optional::Undef::<T>).spec_as_nested_option() == None::<Option<T>>,
        (Optional::Null::<T>).spec_as_nested_option()
            != (Optional::Undef::<T>).spec_as_nested_option(),
{
}

/// The widening conversion loses nothing: two presence values with the
/// same nested-optional image are the same value.
pub proof fn lemma_nested_option_lossless<T>(a: Optional<T>, b: Optional<T>)
    ensures
        a.spec_as_nested_option() == b.spec_as_nested_option() ==> a == b,
{
}

} // verus!
