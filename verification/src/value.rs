//! The query-driver value boundary.
//!
//! A database driver binds every column value either as its canonical null
//! or as a concrete value of the column's type.  A two-state presence value
//! crosses that boundary by mapping `Def` to the concrete value and `Undef`
//! to the canonical null on encode, and by testing for the canonical null
//! before delegating to the column type's own decode on the way back.

use vstd::prelude::*;
use vstd::string::StringExecFns;

use crate::defined::Defined;

verus! {

/// A driver-side column value, as far as this adapter reads it: the
/// driver's canonical null, or a concrete value.
#[derive(Debug, PartialEq, Eq)]
pub enum DriverValue<T> {
    CanonicalNull,
    Concrete(T),
}

/// How a presence value is bound on encode: `Def` as the concrete value,
/// `Undef` as the canonical null.
pub open spec fn spec_to_driver<T>(x: Defined<T>) -> DriverValue<T> {
    match x {
        Defined::Def(v) => DriverValue::Concrete(v),
        Defined::Undef => DriverValue::CanonicalNull,
    }
}

/// Binds a presence value as a driver value.
pub fn to_driver<T>(x: Defined<T>) -> (r: DriverValue<T>)
    ensures
        r == spec_to_driver(x),
{
    match x {
        Defined::Def(v) => DriverValue::Concrete(v),
        Defined::Undef => DriverValue::CanonicalNull,
    }
}

/// The decode decision, after the driver value has been tested against
/// the canonical null and a concrete value has been run through the
/// column type's own decode: null gives `Undef`, a decoded value gives
/// `Def`, and a decode failure propagates unchanged.
pub open spec fn spec_from_driver<T, E>(v: DriverValue<Result<T, E>>) -> Result<Defined<T>, E> {
    match v {
        DriverValue::CanonicalNull => Ok(Defined::Undef),
        DriverValue::Concrete(inner) => match inner {
            Ok(t) => Ok(Defined::Def(t)),
            Err(e) => Err(e),
        },
    }
}

/// Reads a presence value back from a driver value whose concrete case
/// carries the column type's own decode outcome.
pub fn from_driver<T, E>(v: DriverValue<Result<T, E>>) -> (r: Result<Defined<T>, E>)
    ensures
        r == spec_from_driver(v),
{
    match v {
        DriverValue::CanonicalNull => Ok(Defined::Undef),
        DriverValue::Concrete(inner) => match inner {
            Ok(t) => Ok(Defined::Def(t)),
            Err(e) => Err(e),
        },
    }
}

/// What the decode step is handed when a bound value is read back, for a
/// column type whose own binding round-trips: the canonical null stays
/// null, a concrete value decodes to itself.
pub open spec fn spec_reread_driver<T, E>(v: DriverValue<T>) -> DriverValue<Result<T, E>> {
    match v {
        DriverValue::CanonicalNull => DriverValue::CanonicalNull,
        DriverValue::Concrete(t) => DriverValue::Concrete(Ok(t)),
    }
}

/// Every two-state presence value survives the driver binding and the
/// read back, provided the column type's own binding round-trips.
pub proof fn lemma_driver_round_trip<T, E>(x: Defined<T>)
    ensures
        spec_from_driver::<T, E>(spec_reread_driver(spec_to_driver(x))) == Ok::<Defined<T>, E>(x),
{
}

/// The display name of the wrapped column type: the wrapper's name around
/// the inner type's own name.
pub fn wrapped_type_name(inner: &str) -> (r: String)
    ensures
        r@ == "Defined<"@ + inner@ + ">"@,
{
    let open_part = String::from_str("Defined<");
    let with_inner = open_part.concat(inner);
    with_inner.concat(">")
}

} // verus!
