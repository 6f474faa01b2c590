//! The presence codec adapter.
//!
//! A structured-data codec exposes only two per-field decode signals for
//! option-shaped data: "this slot holds a null/empty token" and "this slot
//! holds a value".  It has no signal for "this key was never supplied":
//! that information lives one level up, at the record decoder, which simply
//! never invokes the field's decode step for a missing key and leaves the
//! field at its default, `Undef`.  The functions here state exactly how the
//! two presence types ride on that protocol, and the round-trip lemmas show
//! that the record-level "skip when absent" policy is what makes all three
//! states survive an encode followed by a decode.

use vstd::prelude::*;

use crate::defined::Defined;
use crate::optional::Optional;

verus! {

/// One invocation of a field's decode hook, as the codec reports it.
/// The unit token and the null token are the codec's two spellings of an
/// empty slot; a value slot carries the outcome of the wrapped type's own
/// decode routine, which may have failed.
#[derive(Debug, PartialEq, Eq)]
pub enum DecodeSignal<T, E> {
    UnitToken,
    NullToken,
    ValueToken(Result<T, E>),
}

/// What a presence value writes into its slot when the field is encoded:
/// either the codec's canonical null token or the payload, to be encoded
/// by the wrapped type's own routine.
#[derive(Debug, PartialEq, Eq)]
pub enum EncodeToken<T> {
    NullToken,
    ValueToken(T),
}

/// The three-state decode decision: both empty-slot signals yield the
/// explicit null — never `Undef`, which is reachable only through the
/// record decoder's default for a missing key — and a decode failure of
/// the payload propagates unchanged.
pub open spec fn spec_decode_ternary<T, E>(sig: DecodeSignal<T, E>) -> Result<Optional<T>, E> {
    match sig {
        DecodeSignal::UnitToken => Ok(Optional::Null),
        DecodeSignal::NullToken => Ok(Optional::Null),
        DecodeSignal::ValueToken(inner) => match inner {
            Ok(v) => Ok(Optional::Def(v)),
            Err(e) => Err(e),
        },
    }
}

/// Decodes one invoked slot into a three-state presence value.
pub fn decode_ternary<T, E>(sig: DecodeSignal<T, E>) -> (r: Result<Optional<T>, E>)
    ensures
        r == spec_decode_ternary(sig),
{
    match sig {
        DecodeSignal::UnitToken => Ok(Optional::Null),
        DecodeSignal::NullToken => Ok(Optional::Null),
        DecodeSignal::ValueToken(inner) => match inner {
            Ok(v) => Ok(Optional::Def(v)),
            Err(e) => Err(e),
        },
    }
}

/// The record-level decode of a three-state field: a missing key is never
/// handed to the slot decoder and leaves the field at its default,
/// `Undef`.
pub open spec fn spec_decode_ternary_field<T, E>(
    entry: Option<DecodeSignal<T, E>>,
) -> Result<Optional<T>, E> {
    match entry {
        None => Ok(Optional::Undef),
        Some(sig) => spec_decode_ternary(sig),
    }
}

/// Decodes a record entry — absent key or invoked slot — into a
/// three-state presence value.
pub fn decode_ternary_field<T, E>(entry: Option<DecodeSignal<T, E>>) -> (r: Result<
    Optional<T>,
    E,
>)
    ensures
        r == spec_decode_ternary_field(entry),
{
    match entry {
        None => Ok(Optional::Undef),
        Some(sig) => decode_ternary(sig),
    }
}

/// The two-state decode decision: with no third state to keep them apart,
/// an empty slot collapses to the same `Undef` that a missing key gives.
pub open spec fn spec_decode_binary<T, E>(sig: DecodeSignal<T, E>) -> Result<Defined<T>, E> {
    match sig {
        DecodeSignal::UnitToken => Ok(Defined::Undef),
        DecodeSignal::NullToken => Ok(Defined::Undef),
        DecodeSignal::ValueToken(inner) => match inner {
            Ok(v) => Ok(Defined::Def(v)),
            Err(e) => Err(e),
        },
    }
}

/// Decodes one invoked slot into a two-state presence value.
pub fn decode_binary<T, E>(sig: DecodeSignal<T, E>) -> (r: Result<Defined<T>, E>)
    ensures
        r == spec_decode_binary(sig),
{
    match sig {
        DecodeSignal::UnitToken => Ok(Defined::Undef),
        DecodeSignal::NullToken => Ok(Defined::Undef),
        DecodeSignal::ValueToken(inner) => match inner {
            Ok(v) => Ok(Defined::Def(v)),
            Err(e) => Err(e),
        },
    }
}

/// The record-level decode of a two-state field.
pub open spec fn spec_decode_binary_field<T, E>(
    entry: Option<DecodeSignal<T, E>>,
) -> Result<Defined<T>, E> {
    match entry {
        None => Ok(Defined::Undef),
        Some(sig) => spec_decode_binary(sig),
    }
}

/// Decodes a record entry — absent key or invoked slot — into a two-state
/// presence value.
pub fn decode_binary_field<T, E>(entry: Option<DecodeSignal<T, E>>) -> (r: Result<Defined<T>, E>)
    ensures
        r == spec_decode_binary_field(entry),
{
    match entry {
        None => Ok(Defined::Undef),
        Some(sig) => decode_binary(sig),
    }
}

/// The per-slot encoding of a three-state value, when the field is written
/// no matter what: the wire cannot tell `Undef` from `Null`, so both
/// become the canonical null token.
pub open spec fn spec_encode_ternary<T>(x: Optional<T>) -> EncodeToken<T> {
    match x {
        Optional::Def(v) => EncodeToken::ValueToken(v),
        _ => EncodeToken::NullToken,
    }
}

/// Encodes a three-state value into its slot token.
pub fn encode_ternary<T>(x: Optional<T>) -> (r: EncodeToken<T>)
    ensures
        r == spec_encode_ternary(x),
{
    match x {
        Optional::Def(v) => EncodeToken::ValueToken(v),
        _ => EncodeToken::NullToken,
    }
}

/// The record-level encoding of a three-state field under the "skip when
/// absent" policy: `Undef` is omitted entirely, while the explicit null is
/// always written — omitting it would turn "clear this field" into "leave
/// unchanged" on the next decode.
pub open spec fn spec_encode_ternary_field<T>(x: Optional<T>) -> Option<EncodeToken<T>> {
    match x {
        Optional::Undef => None,
        Optional::Null => Some(EncodeToken::NullToken),
        Optional::Def(v) => Some(EncodeToken::ValueToken(v)),
    }
}

/// Encodes a three-state field into a record entry, omitting `Undef`.
pub fn encode_ternary_field<T>(x: Optional<T>) -> (r: Option<EncodeToken<T>>)
    ensures
        r == spec_encode_ternary_field(x),
{
    match x {
        Optional::Undef => None,
        Optional::Null => Some(EncodeToken::NullToken),
        Optional::Def(v) => Some(EncodeToken::ValueToken(v)),
    }
}

/// The per-slot encoding of a two-state value.
pub open spec fn spec_encode_binary<T>(x: Defined<T>) -> EncodeToken<T> {
    match x {
        Defined::Def(v) => EncodeToken::ValueToken(v),
        Defined::Undef => EncodeToken::NullToken,
    }
}

/// Encodes a two-state value into its slot token.
pub fn encode_binary<T>(x: Defined<T>) -> (r: EncodeToken<T>)
    ensures
        r == spec_encode_binary(x),
{
    match x {
        Defined::Def(v) => EncodeToken::ValueToken(v),
        Defined::Undef => EncodeToken::NullToken,
    }
}

/// The record-level encoding of a two-state field: `Undef` is omitted.
pub open spec fn spec_encode_binary_field<T>(x: Defined<T>) -> Option<EncodeToken<T>> {
    match x {
        Defined::Undef => None,
        Defined::Def(v) => Some(EncodeToken::ValueToken(v)),
    }
}

/// Encodes a two-state field into a record entry, omitting `Undef`.
pub fn encode_binary_field<T>(x: Defined<T>) -> (r: Option<EncodeToken<T>>)
    ensures
        r == spec_encode_binary_field(x),
{
    match x {
        Defined::Undef => None,
        Defined::Def(v) => Some(EncodeToken::ValueToken(v)),
    }
}

/// What the decoder is handed when an encoded slot is read back, for a
/// wrapped type whose own value encoding round-trips: a written null token
/// is reported as the null signal, a written value decodes to itself.
pub open spec fn spec_reread_token<T, E>(tok: EncodeToken<T>) -> DecodeSignal<T, E> {
    match tok {
        EncodeToken::NullToken => DecodeSignal::NullToken,
        EncodeToken::ValueToken(v) => DecodeSignal::ValueToken(Ok(v)),
    }
}

/// What the record decoder is handed when an encoded record entry is read
/// back: an omitted field stays missing.
pub open spec fn spec_reread_field<T, E>(
    entry: Option<EncodeToken<T>>,
) -> Option<DecodeSignal<T, E>> {
    match entry {
        None => None,
        Some(tok) => Some(spec_reread_token(tok)),
    }
}

/// Every three-state value survives a record-level encode followed by a
/// decode, provided the wrapped type's own value encoding round-trips:
/// the skipped `Undef` comes back as the missing-key default, the written
/// null token comes back as `Null`, and a payload comes back as itself.
pub proof fn lemma_ternary_field_round_trip<T, E>(x: Optional<T>)
    ensures
        spec_decode_ternary_field::<T, E>(spec_reread_field(spec_encode_ternary_field(x))) == Ok::<
            Optional<T>,
            E,
        >(x),
{
}

/// The slot-level encode alone does not round-trip the three-state value:
/// forcing `Undef` onto the wire writes the null token, which decodes to
/// `Null`.  Every other variant comes back unchanged.
pub proof fn lemma_ternary_slot_conflates_undef<T, E>(x: Optional<T>)
    ensures
        x is Undef ==> spec_decode_ternary::<T, E>(spec_reread_token(spec_encode_ternary(x)))
            == Ok::<Optional<T>, E>(Optional::Null),
        x !is Undef ==> spec_decode_ternary::<T, E>(spec_reread_token(spec_encode_ternary(x)))
            == Ok::<Optional<T>, E>(x),
{
}

/// Every two-state value survives an encode followed by a decode, whether
/// or not the record level skips the absent field, provided the wrapped
/// type's own value encoding round-trips.
pub proof fn lemma_binary_round_trip<T, E>(x: Defined<T>)
    ensures
        spec_decode_binary_field::<T, E>(spec_reread_field(spec_encode_binary_field(x))) == Ok::<
            Defined<T>,
            E,
        >(x),
        spec_decode_binary::<T, E>(spec_reread_token(spec_encode_binary(x))) == Ok::<
            Defined<T>,
            E,
        >(x),
{
}

/// The three-state slot decoder never produces `Undef`: both empty-slot
/// signals map to the explicit null by design, and `Undef` is reachable
/// only through the record decoder's default for a missing key.
pub proof fn lemma_ternary_decode_never_undef<T, E>(sig: DecodeSignal<T, E>)
    ensures
        spec_decode_ternary(sig) matches Ok(v) ==> v !is Undef,
{
}

} // verus!
