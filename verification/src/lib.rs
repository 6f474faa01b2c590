//! Presence values for PATCH-style partial updates.
//!
//! A field of an API record can be in one of three states: never supplied,
//! supplied as an explicit null, or supplied with a concrete value.  A
//! client omitting a field means "leave unchanged", supplying null means
//! "clear this field", and supplying a value means "set this field" — a
//! distinction a two-state optional cannot carry.  The [`Optional`] enum
//! keeps all three states apart; the two-state [`Defined`] enum keeps only
//! the absent/present distinction.
//!
//! The [`codec`] module states how these values ride on a structured-data
//! codec that only signals "null token" or "value" per slot, and why the
//! record level's treatment of missing keys and absent fields is what lets
//! all three states survive a round trip.  The [`schema`] module states how
//! a generated type descriptor is widened to admit null under each schema
//! dialect, and the [`value`] module how a presence value crosses a
//! database driver's null boundary.

pub mod codec;
pub mod defined;
pub mod optional;
pub mod schema;
pub mod value;

pub use defined::Defined;
pub use optional::Optional;
