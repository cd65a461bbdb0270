//! Slot values and their type identity tokens.
//!
//! Every slot of a tuple holds a [`Value`]; the variant of the value is the
//! slot's static type.  A [`TypeTag`] is the runtime-comparable token for one
//! such type: two tags are equal exactly when the originating types are
//! identical, so an `OptI32`-typed slot never matches an `OptF64` request.  Floating-point-typed slots carry the IEEE-754 bit pattern of their
//! value, so that the aggregate itself stays free of float arithmetic.

use vstd::prelude::*;

verus! {

/// Type identity token: one variant per static type a slot can have.
///
/// Tokens compare with `==`; equality of tokens is identity of the
/// originating static types, never structural compatibility.
#[derive(Clone, Copy, Debug, PartialEq, Eq, Structural)]
pub enum TypeTag {
    /// 32-bit signed integer.
    I32,
    /// 64-bit signed integer.
    I64,
    /// 32-bit unsigned integer.
    U32,
    /// 64-bit unsigned integer.
    U64,
    /// 32-bit IEEE-754 value, identified by its bit pattern.
    F32,
    /// 64-bit IEEE-754 value, identified by its bit pattern.
    F64,
    /// Boolean.
    Bool,
    /// Unicode scalar value.
    Char,
    /// Owned character string.
    Str,
    /// Optional 32-bit signed integer.
    OptI32,
    /// Optional 64-bit IEEE-754 value, identified by its bit pattern.
    OptF64,
    /// Growable vector of 32-bit signed integers.
    VecI32,
}

/// One slot's contents: the variant fixes the slot's static type, the
/// payload is the slot's current value.
#[derive(Debug, PartialEq)]
pub enum Value {
    /// 32-bit signed integer.
    I32(i32),
    /// 64-bit signed integer.
    I64(i64),
    /// 32-bit unsigned integer.
    U32(u32),
    /// 64-bit unsigned integer.
    U64(u64),
    /// Bit pattern of a 32-bit IEEE-754 value.
    F32(u32),
    /// Bit pattern of a 64-bit IEEE-754 value.
    F64(u64),
    /// Boolean.
    Bool(bool),
    /// Unicode scalar value.
    Char(char),
    /// Owned character string.
    Str(String),
    /// Optional 32-bit signed integer.
    OptI32(Option<i32>),
    /// Optional 64-bit IEEE-754 value, as its bit pattern.
    OptF64(Option<u64>),
    /// Growable vector of 32-bit signed integers.
    VecI32(Vec<i32>),
}

/// The static type of a value: the token of its variant.
pub open spec fn tag_of(v: Value) -> TypeTag {
    match v {
        Value::I32(_) => TypeTag::I32,
        Value::I64(_) => TypeTag::I64,
        Value::U32(_) => TypeTag::U32,
        Value::U64(_) => TypeTag::U64,
        Value::F32(_) => TypeTag::F32,
        Value::F64(_) => TypeTag::F64,
        Value::Bool(_) => TypeTag::Bool,
        Value::Char(_) => TypeTag::Char,
        Value::Str(_) => TypeTag::Str,
        Value::OptI32(_) => TypeTag::OptI32,
        Value::OptF64(_) => TypeTag::OptF64,
        Value::VecI32(_) => TypeTag::VecI32,
    }
}

/// Whether `v` is the default value of the type `t`: zero for the numeric
/// types (the bit pattern of `0.0` for the float-typed slots), `false`,
/// the NUL character, the empty string, `None`, or the empty vector.
pub open spec fn is_default_value(t: TypeTag, v: Value) -> bool {
    match t {
        TypeTag::I32 => v == Value::I32(0),
        TypeTag::I64 => v == Value::I64(0),
        TypeTag::U32 => v == Value::U32(0),
        TypeTag::U64 => v == Value::U64(0),
        TypeTag::F32 => v == Value::F32(0),
        TypeTag::F64 => v == Value::F64(0),
        TypeTag::Bool => v == Value::Bool(false),
        TypeTag::Char => v == Value::Char('\0'),
        TypeTag::Str => v matches Value::Str(s) && s@ == Seq::<char>::empty(),
        TypeTag::OptI32 => v == Value::OptI32(None::<i32>),
        TypeTag::OptF64 => v == Value::OptF64(None::<u64>),
        TypeTag::VecI32 => v matches Value::VecI32(xs) && xs@ == Seq::<i32>::empty(),
    }
}

impl Value {
    /// The type identity token of this value.
    pub fn tag(&self) -> (t: TypeTag)
        ensures
            t == tag_of(*self),
    {
        match self {
            Value::I32(_) => TypeTag::I32,
            Value::I64(_) => TypeTag::I64,
            Value::U32(_) => TypeTag::U32,
            Value::U64(_) => TypeTag::U64,
            Value::F32(_) => TypeTag::F32,
            Value::F64(_) => TypeTag::F64,
            Value::Bool(_) => TypeTag::Bool,
            Value::Char(_) => TypeTag::Char,
            Value::Str(_) => TypeTag::Str,
            Value::OptI32(_) => TypeTag::OptI32,
            Value::OptF64(_) => TypeTag::OptF64,
            Value::VecI32(_) => TypeTag::VecI32,
        }
    }

    /// The default value of the type `t`, as a slot value.
    pub fn default_of(t: TypeTag) -> (v: Value)
        ensures
            is_default_value(t, v),
            tag_of(v) == t,
    {
        match t {
            TypeTag::I32 => Value::I32(0),
            TypeTag::I64 => Value::I64(0),
            TypeTag::U32 => Value::U32(0),
            TypeTag::U64 => Value::U64(0),
            TypeTag::F32 => Value::F32(0),
            TypeTag::F64 => Value::F64(0),
            TypeTag::Bool => Value::Bool(false),
            TypeTag::Char => Value::Char('\0'),
            TypeTag::Str => Value::Str(String::new()),
            TypeTag::OptI32 => Value::OptI32(None),
            TypeTag::OptF64 => Value::OptF64(None),
            TypeTag::VecI32 => Value::VecI32(Vec::new()),
        }
    }
}

} // verus!
