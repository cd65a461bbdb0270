//! Type-indexed access into a fixed-arity heterogeneous tuple.
//!
//! A [`Tuple`] is an ordered, fixed-length aggregate of slots, each holding a
//! [`Value`] whose variant determines the slot's static type.  The accessor
//! operations locate a slot purely by its type token ([`TypeTag`]): callers
//! can count the slots of a type, test whether a type occurs exactly once,
//! and read, overwrite, or transform the unique slot of that type — checked
//! operations signal absence or ambiguity with `None`, unchecked operations
//! trust the caller and act on the first (lowest-index) matching slot.

pub mod dispatch;
pub mod tuple;
pub mod value;

pub use tuple::MAX_ARITY;
pub use tuple::Tuple;
pub use tuple::TupleContains;
pub use tuple::TupleSet;
pub use value::TypeTag;
pub use value::Value;
