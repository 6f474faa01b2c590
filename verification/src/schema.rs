//! The schema descriptor adapter.
//!
//! A schema generator hands this module the descriptor it produced for the
//! wrapped type, and the adapter widens that descriptor so that it also
//! admits null.  Schema dialects spell nullability differently: one keeps a
//! list of admitted primitive types and expects `null` to be appended to it,
//! one widens the descriptor to a union of the original and a null-only
//! descriptor, and one sets a vendor `nullable` flag while leaving the rest
//! of the descriptor untouched.  The dialect configuration says which of
//! these to apply.
//!
//! The descriptor model here holds exactly what the adapter reads and
//! writes: the admitted primitive types, the `nullable` flag, and the union
//! of alternatives.  A wrapped type's descriptor has no identity of its own;
//! it only appears inline as an annotated variant of the inner descriptor,
//! under a display name derived from the inner type's.

use vstd::prelude::*;
use vstd::string::StringExecFns;

verus! {

/// A primitive type that a descriptor can admit, with `NullKind` standing
/// for the null token itself.
#[derive(Clone, Copy, PartialEq, Eq, Structural, Debug, Hash)]
pub enum InstanceKind {
    NullKind,
    BooleanKind,
    ObjectKind,
    ArrayKind,
    NumberKind,
    StringKind,
    IntegerKind,
}

/// The admitted primitive types of a descriptor: either a single kind or
/// an explicit list of kinds.
#[derive(PartialEq, Eq, Debug)]
pub enum TypeList {
    One(InstanceKind),
    Many(Vec<InstanceKind>),
}

/// The parts of a structured descriptor that the adapter reads or writes:
/// the admitted primitive types, the vendor `nullable` flag, and a union
/// of alternative descriptors.  Everything else in a real descriptor
/// passes through the adapter untouched.
#[derive(PartialEq, Eq, Debug)]
pub struct SchemaDoc {
    pub instance_type: Option<TypeList>,
    pub nullable: bool,
    pub any_of: Option<Vec<Descriptor>>,
}

/// A schema descriptor: the trivial descriptors that accept or reject
/// every value, or a structured one.
#[derive(PartialEq, Eq, Debug)]
pub enum Descriptor {
    AcceptAll,
    RejectAll,
    Object(SchemaDoc),
}

/// The dialect configuration: whether null is added to the admitted type
/// list (widening to a union where there is none), and whether the vendor
/// `nullable` flag is set.
#[derive(Clone, Copy, PartialEq, Eq, Structural, Debug)]
pub struct DialectSettings {
    pub option_add_null_type: bool,
    pub option_nullable: bool,
}

/// How `add_null_type` changes a type list: `null` is appended unless it
/// is already admitted, and a single kind other than `null` becomes the
/// two-element list of that kind and `null`.
pub open spec fn added_null(t0: TypeList, t1: TypeList) -> bool {
    match t0 {
        TypeList::One(k) => if k == InstanceKind::NullKind {
            t1 == t0
        } else {
            t1 matches TypeList::Many(v) && v@ =~= seq![k, InstanceKind::NullKind]
        },
        TypeList::Many(v0) => if v0@.contains(InstanceKind::NullKind) {
            t1 == t0
        } else {
            t1 matches TypeList::Many(v) && v@ =~= v0@.push(InstanceKind::NullKind)
        },
    }
}

/// Returns whether the list admits the given kind.
fn contains_kind(v: &Vec<InstanceKind>, k: InstanceKind) -> (r: bool)
    ensures
        r == v@.contains(k),
{
    let mut i: usize = 0;
    while i < v.len()
        invariant
            0 <= i <= v@.len(),
            forall|j: int| 0 <= j < i ==> v@[j] != k,
        decreases v@.len() - i,
    {
        if v[i] == k {
            return true;
        }
        i += 1;
    }
    false
}

/// Copies a list of kinds.
fn copy_kinds(v: &Vec<InstanceKind>) -> (r: Vec<InstanceKind>)
    ensures
        r@ == v@,
{
    let mut r: Vec<InstanceKind> = Vec::new();
    let mut i: usize = 0;
    while i < v.len()
        invariant
            0 <= i <= v@.len(),
            r@ == v@.subrange(0, i as int),
        decreases v@.len() - i,
    {
        r.push(v[i]);
        i += 1;
    }
    proof {
        assert(r@ =~= v@);
    }
    r
}

/// Adds `null` to the admitted type list, in place, unless it is already
/// admitted.
pub fn add_null_type(instance_type: &mut TypeList)
    ensures
        added_null(*old(instance_type), *final(instance_type)),
{
    let updated: Option<TypeList> = match &*instance_type {
        TypeList::One(k) => {
            if *k != InstanceKind::NullKind {
                let mut v: Vec<InstanceKind> = Vec::new();
                v.push(*k);
                v.push(InstanceKind::NullKind);
                Some(TypeList::Many(v))
            } else {
                None
            }
        },
        TypeList::Many(v0) => {
            if !contains_kind(v0, InstanceKind::NullKind) {
                let mut v = copy_kinds(v0);
                v.push(InstanceKind::NullKind);
                Some(TypeList::Many(v))
            } else {
                None
            }
        },
    };
    if let Some(t) = updated {
        *instance_type = t;
    }
}

/// The descriptor that admits exactly the null token, as a unit-like
/// type's schema generator produces it.
pub open spec fn spec_null_descriptor() -> Descriptor {
    Descriptor::Object(
        SchemaDoc {
            instance_type: Some(TypeList::One(InstanceKind::NullKind)),
            nullable: false,
            any_of: None,
        },
    )
}

/// Builds the descriptor that admits exactly the null token.
pub fn null_descriptor() -> (r: Descriptor)
    ensures
        r == spec_null_descriptor(),
{
    Descriptor::Object(
        SchemaDoc {
            instance_type: Some(TypeList::One(InstanceKind::NullKind)),
            nullable: false,
            any_of: None,
        },
    )
}

/// How the union dialect widens a descriptor to admit null: the
/// accept-everything descriptor already does; the reject-everything
/// descriptor becomes the null-only one; a structured descriptor with an
/// admitted type list gets `null` appended to it; any other structured
/// descriptor is wrapped in a fresh union of itself and the null-only
/// descriptor.
pub open spec fn unioned_with_null(d0: Descriptor, d1: Descriptor) -> bool {
    match d0 {
        Descriptor::AcceptAll => d1 == Descriptor::AcceptAll,
        Descriptor::RejectAll => d1 == spec_null_descriptor(),
        Descriptor::Object(doc) => match doc.instance_type {
            Some(t0) => d1 matches Descriptor::Object(doc1) && doc1.nullable == doc.nullable
                && doc1.any_of == doc.any_of && (doc1.instance_type matches Some(t1) && added_null(
                t0,
                t1,
            )),
            None => d1 matches Descriptor::Object(doc1) && doc1.instance_type is None
                && doc1.nullable == false && (doc1.any_of matches Some(alts) && alts@ =~= seq![
                d0,
                spec_null_descriptor(),
            ]),
        },
    }
}

/// Widens a descriptor to admit null, in the union dialect.
pub fn union_with_null(desc: Descriptor) -> (r: Descriptor)
    ensures
        unioned_with_null(desc, r),
{
    match desc {
        Descriptor::AcceptAll => Descriptor::AcceptAll,
        Descriptor::RejectAll => null_descriptor(),
        Descriptor::Object(doc) => {
            match doc.instance_type {
                Some(mut t) => {
                    add_null_type(&mut t);
                    Descriptor::Object(
                        SchemaDoc {
                            instance_type: Some(t),
                            nullable: doc.nullable,
                            any_of: doc.any_of,
                        },
                    )
                },
                None => {
                    let orig = Descriptor::Object(
                        SchemaDoc { instance_type: None, nullable: doc.nullable, any_of: doc.any_of },
                    );
                    let mut alts: Vec<Descriptor> = Vec::new();
                    alts.push(orig);
                    alts.push(null_descriptor());
                    Descriptor::Object(
                        SchemaDoc { instance_type: None, nullable: false, any_of: Some(alts) },
                    )
                },
            }
        },
    }
}

/// How the flag dialect marks a descriptor nullable: a structured
/// descriptor keeps everything and gets its `nullable` flag set; a trivial
/// descriptor is first turned into the empty structured one.
pub open spec fn flagged_nullable(d0: Descriptor, d1: Descriptor) -> bool {
    match d0 {
        Descriptor::Object(doc) => d1 == Descriptor::Object(
            SchemaDoc { instance_type: doc.instance_type, nullable: true, any_of: doc.any_of },
        ),
        _ => d1 == Descriptor::Object(
            SchemaDoc { instance_type: None, nullable: true, any_of: None },
        ),
    }
}

/// Marks a descriptor nullable in the flag dialect, leaving everything
/// else in it unchanged.
pub fn with_nullable_flag(desc: Descriptor) -> (r: Descriptor)
    ensures
        flagged_nullable(desc, r),
{
    match desc {
        Descriptor::Object(doc) => Descriptor::Object(
            SchemaDoc { instance_type: doc.instance_type, nullable: true, any_of: doc.any_of },
        ),
        _ => Descriptor::Object(
            SchemaDoc { instance_type: None, nullable: true, any_of: None },
        ),
    }
}

/// Produces the wrapped type's descriptor from the inner type's, applying
/// exactly the conventions that the dialect configuration asks for: first
/// the union widening, then the vendor flag.
pub fn wrap_nullable(desc: Descriptor, settings: DialectSettings) -> (r: Descriptor)
    ensures
        !settings.option_add_null_type && !settings.option_nullable ==> r == desc,
        settings.option_add_null_type && !settings.option_nullable ==> unioned_with_null(desc, r),
        !settings.option_add_null_type && settings.option_nullable ==> flagged_nullable(desc, r),
        settings.option_add_null_type && settings.option_nullable ==> exists|mid: Descriptor|
            unioned_with_null(desc, mid) && flagged_nullable(mid, r),
{
    let mut schema = desc;
    if settings.option_add_null_type {
        schema = union_with_null(schema);
    }
    if settings.option_nullable {
        schema = with_nullable_flag(schema);
    }
    schema
}

/// A generator may hand out a descriptor either inline or as a named
/// reference into a shared registry.
#[derive(PartialEq, Eq, Debug)]
pub enum SchemaRef {
    Named(String),
    Inline(Descriptor),
}

/// Marks a handed-out descriptor nullable where that is possible: an
/// inline descriptor gets the vendor flag set; a named reference points
/// into a registry this adapter does not own and passes through
/// unchanged.
pub fn with_nullable_ref(r0: SchemaRef) -> (r: SchemaRef)
    ensures
        r0 matches SchemaRef::Named(n) ==> r == SchemaRef::Named(n),
        r0 matches SchemaRef::Inline(d) ==> (r matches SchemaRef::Inline(d1) && flagged_nullable(
            d,
            d1,
        )),
{
    match r0 {
        SchemaRef::Named(n) => SchemaRef::Named(n),
        SchemaRef::Inline(d) => SchemaRef::Inline(with_nullable_flag(d)),
    }
}

/// The display name of the wrapped type in generated documentation: a
/// deterministic composite of a fixed prefix and the inner type's name.
pub fn schema_display_name(inner: &str) -> (r: String)
    ensures
        r@ == "Omittable_"@ + inner@,
{
    let prefix = String::from_str("Omittable_");
    prefix.concat(inner)
}

/// The identity of the wrapped type's descriptor: the wrapper's name
/// around the inner type's identity.  The descriptor itself is never
/// referenceable under this identity; it only appears inline.
pub fn schema_composite_id(inner: &str) -> (r: String)
    ensures
        r@ == "Defined<"@ + inner@ + ">"@,
{
    let open_part = String::from_str("Defined<");
    let with_inner = open_part.concat(inner);
    with_inner.concat(">")
}

/// The flag dialect changes nothing but the `nullable` flag on a
/// structured descriptor: the admitted types and the union alternatives
/// of the inner type's descriptor are kept as they are.
pub proof fn lemma_flag_dialect_preserves_descriptor(doc: SchemaDoc, d1: Descriptor)
    requires
        flagged_nullable(Descriptor::Object(doc), d1),
    ensures
        d1 matches Descriptor::Object(doc1) && doc1.nullable && doc1.instance_type
            == doc.instance_type && doc1.any_of == doc.any_of,
{
}

} // verus!
