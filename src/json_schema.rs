//! The derivation protocol: each participating type names its schema and
//! derives it, statically dispatched on the type.
use crate::generator::SchemaGenerator;
use crate::primitives::Primitive;
use crate::schema::{Schema, SchemaModel};
use vstd::prelude::*;

verus! {

/// A type that can describe its serialized form as a JSON Schema.
pub trait JsonSchema {
    /// The primitive whose schema the type has.
    spec fn primitive() -> Primitive;

    /// The primitive whose schema the type has, at run time.
    fn primitive_kind() -> (r: Primitive)
        ensures
            r == Self::primitive(),
    ;

    /// The name under which compound schemas refer to the type.
    fn schema_name() -> (r: String)
        ensures
            r@ == Self::primitive().spec_name(),
    {
        Self::primitive_kind().schema_name()
    }

    /// Whether compound schemas may refer to the type by name instead of
    /// writing its schema inline.
    fn is_referenceable() -> (r: bool)
        ensures
            !r,
    {
        Self::primitive_kind().is_referenceable()
    }

    /// The type's schema under the generator's settings; the generator is
    /// left unchanged.
    fn json_schema(generator: &mut SchemaGenerator) -> (r: Schema)
        ensures
            *final(generator) == *old(generator),
            r.well_formed(),
            r@ == SchemaModel::Object(
                Self::primitive().spec_schema(old(generator).settings.strict_numeric_bounds),
            ),
    {
        Self::primitive_kind().json_schema(generator)
    }
}

/// The schema of `T` under the generator's settings.
pub fn schema_for<T: JsonSchema + ?Sized>(generator: &mut SchemaGenerator) -> (r: Schema)
    ensures
        *final(generator) == *old(generator),
        r.well_formed(),
        r@ == SchemaModel::Object(
            T::primitive().spec_schema(old(generator).settings.strict_numeric_bounds),
        ),
{
    T::json_schema(generator)
}

impl JsonSchema for str {
    open spec fn primitive() -> Primitive {
        Primitive::Str
    }

    fn primitive_kind() -> (r: Primitive) {
        Primitive::Str
    }
}

impl JsonSchema for String {
    open spec fn primitive() -> Primitive {
        Primitive::String
    }

    fn primitive_kind() -> (r: Primitive) {
        Primitive::String
    }
}

impl JsonSchema for bool {
    open spec fn primitive() -> Primitive {
        Primitive::Bool
    }

    fn primitive_kind() -> (r: Primitive) {
        Primitive::Bool
    }
}

impl JsonSchema for () {
    open spec fn primitive() -> Primitive {
        Primitive::Unit
    }

    fn primitive_kind() -> (r: Primitive) {
        Primitive::Unit
    }
}

impl JsonSchema for u8 {
    open spec fn primitive() -> Primitive {
        Primitive::U8
    }

    fn primitive_kind() -> (r: Primitive) {
        Primitive::U8
    }
}

impl JsonSchema for u16 {
    open spec fn primitive() -> Primitive {
        Primitive::U16
    }

    fn primitive_kind() -> (r: Primitive) {
        Primitive::U16
    }
}

impl JsonSchema for u32 {
    open spec fn primitive() -> Primitive {
        Primitive::U32
    }

    fn primitive_kind() -> (r: Primitive) {
        Primitive::U32
    }
}

impl JsonSchema for u64 {
    open spec fn primitive() -> Primitive {
        Primitive::U64
    }

    fn primitive_kind() -> (r: Primitive) {
        Primitive::U64
    }
}

impl JsonSchema for u128 {
    open spec fn primitive() -> Primitive {
        Primitive::U128
    }

    fn primitive_kind() -> (r: Primitive) {
        Primitive::U128
    }
}

impl JsonSchema for usize {
    open spec fn primitive() -> Primitive {
        Primitive::Usize
    }

    fn primitive_kind() -> (r: Primitive) {
        Primitive::Usize
    }
}

impl JsonSchema for i8 {
    open spec fn primitive() -> Primitive {
        Primitive::I8
    }

    fn primitive_kind() -> (r: Primitive) {
        Primitive::I8
    }
}

impl JsonSchema for i16 {
    open spec fn primitive() -> Primitive {
        Primitive::I16
    }

    fn primitive_kind() -> (r: Primitive) {
        Primitive::I16
    }
}

impl JsonSchema for i32 {
    open spec fn primitive() -> Primitive {
        Primitive::I32
    }

    fn primitive_kind() -> (r: Primitive) {
        Primitive::I32
    }
}

impl JsonSchema for i64 {
    open spec fn primitive() -> Primitive {
        Primitive::I64
    }

    fn primitive_kind() -> (r: Primitive) {
        Primitive::I64
    }
}

impl JsonSchema for i128 {
    open spec fn primitive() -> Primitive {
        Primitive::I128
    }

    fn primitive_kind() -> (r: Primitive) {
        Primitive::I128
    }
}

impl JsonSchema for isize {
    open spec fn primitive() -> Primitive {
        Primitive::Isize
    }

    fn primitive_kind() -> (r: Primitive) {
        Primitive::Isize
    }
}

impl JsonSchema for char {
    open spec fn primitive() -> Primitive {
        Primitive::Char
    }

    fn primitive_kind() -> (r: Primitive) {
        Primitive::Char
    }
}

} // verus!
