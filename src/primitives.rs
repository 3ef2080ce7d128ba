//! The primitive types, what each one's schema is, and the derivation that
//! builds it.
use crate::generator::SchemaGenerator;
use crate::schema::{InstanceType, NumberBound, Schema, SchemaModel, SchemaObject, SchemaObjectModel};
use vstd::arithmetic::power2::pow2;
use vstd::prelude::*;

verus! {

/// A primitive type whose schema this library derives.
#[derive(Clone, Copy, Debug, PartialEq, Eq, Structural)]
pub enum Primitive {
    Str,
    String,
    Bool,
    Unit,
    Path,
    PathBuf,
    Ipv4Addr,
    Ipv6Addr,
    IpAddr,
    SocketAddr,
    SocketAddrV4,
    SocketAddrV6,
    U8,
    U16,
    U32,
    U64,
    U128,
    Usize,
    F32,
    F64,
    I8,
    I16,
    I32,
    I64,
    I128,
    Isize,
    Char,
}

/// The largest finite `f32`, `(2 - 2^-23) * 2^127`.
pub open spec fn f32_max() -> int {
    (pow2(24) - 1) * pow2(104)
}

/// The largest finite `f64`, `(2 - 2^-52) * 2^1023`.
pub open spec fn f64_max() -> int {
    (pow2(53) - 1) * pow2(971)
}

impl InstanceType {
    /// The name of the tag as a type's schema name.
    pub open spec fn display_name(self) -> Seq<char> {
        match self {
            InstanceType::Null => "Null"@,
            InstanceType::Boolean => "Boolean"@,
            InstanceType::Number => "Number"@,
            InstanceType::Integer => "Integer"@,
            InstanceType::String => "String"@,
        }
    }
}

impl Primitive {
    /// Unsigned integers: the minimum is always declared.
    pub open spec fn is_unsigned(self) -> bool {
        match self {
            Primitive::U8 | Primitive::U16 | Primitive::U32 | Primitive::U64 | Primitive::U128
            | Primitive::Usize => true,
            _ => false,
        }
    }

    /// Signed integers and floats: both bounds or neither.
    pub open spec fn is_signed_or_float(self) -> bool {
        match self {
            Primitive::F32 | Primitive::F64 | Primitive::I8 | Primitive::I16 | Primitive::I32
            | Primitive::I64 | Primitive::I128 | Primitive::Isize => true,
            _ => false,
        }
    }

    /// Types whose schema is a bare instance type with an optional format.
    pub open spec fn is_string_like(self) -> bool {
        !self.is_unsigned() && !self.is_signed_or_float() && self != Primitive::Char
    }

    /// The instance type of the type's schema.
    pub open spec fn spec_instance_type(self) -> InstanceType {
        match self {
            Primitive::Bool => InstanceType::Boolean,
            Primitive::Unit => InstanceType::Null,
            Primitive::F32 | Primitive::F64 => InstanceType::Number,
            _ => if self.is_unsigned() || self.is_signed_or_float() {
                InstanceType::Integer
            } else {
                InstanceType::String
            },
        }
    }

    /// The format hint of the type's schema, if it has one.
    pub open spec fn spec_format(self) -> Option<Seq<char>> {
        match self {
            Primitive::Ipv4Addr => Some("ipv4"@),
            Primitive::Ipv6Addr => Some("ipv6"@),
            Primitive::IpAddr => Some("ip"@),
            Primitive::U8 => Some("uint8"@),
            Primitive::U16 => Some("uint16"@),
            Primitive::U32 => Some("uint32"@),
            Primitive::U64 => Some("uint64"@),
            Primitive::U128 => Some("uint128"@),
            Primitive::Usize => Some("uint"@),
            Primitive::F32 => Some("float"@),
            Primitive::F64 => Some("double"@),
            Primitive::I8 => Some("int8"@),
            Primitive::I16 => Some("int16"@),
            Primitive::I32 => Some("int32"@),
            Primitive::I64 => Some("int64"@),
            Primitive::I128 => Some("int128"@),
            Primitive::Isize => Some("int"@),
            _ => None,
        }
    }

    /// The schema name: the format where there is one, a fixed label for a
    /// character, and else the instance type's name.
    pub open spec fn spec_name(self) -> Seq<char> {
        if self == Primitive::Char {
            "Character"@
        } else {
            match self.spec_format() {
                Some(f) => f,
                None => self.spec_instance_type().display_name(),
            }
        }
    }

    /// The least value of a numeric type.
    pub open spec fn min_value(self) -> int {
        match self {
            Primitive::F32 => -f32_max(),
            Primitive::F64 => -f64_max(),
            Primitive::I8 => i8::MIN as int,
            Primitive::I16 => i16::MIN as int,
            Primitive::I32 => i32::MIN as int,
            Primitive::I64 => i64::MIN as int,
            Primitive::I128 => i128::MIN as int,
            Primitive::Isize => isize::MIN as int,
            _ => 0,
        }
    }

    /// The greatest value of a numeric type.
    pub open spec fn max_value(self) -> int {
        match self {
            Primitive::U8 => u8::MAX as int,
            Primitive::U16 => u16::MAX as int,
            Primitive::U32 => u32::MAX as int,
            Primitive::U64 => u64::MAX as int,
            Primitive::U128 => u128::MAX as int,
            Primitive::Usize => usize::MAX as int,
            Primitive::F32 => f32_max(),
            Primitive::F64 => f64_max(),
            Primitive::I8 => i8::MAX as int,
            Primitive::I16 => i16::MAX as int,
            Primitive::I32 => i32::MAX as int,
            Primitive::I64 => i64::MAX as int,
            Primitive::I128 => i128::MAX as int,
            Primitive::Isize => isize::MAX as int,
            _ => 0,
        }
    }

    /// The type's schema under the given numeric-bounds policy.
    pub open spec fn spec_schema(self, strict: bool) -> SchemaObjectModel {
        let declares_minimum = self.is_unsigned() || (self.is_signed_or_float() && strict);
        let declares_maximum = (self.is_unsigned() || self.is_signed_or_float()) && strict;
        let is_char = self == Primitive::Char;
        SchemaObjectModel {
            instance_type: Some(self.spec_instance_type()),
            format: self.spec_format(),
            minimum: if declares_minimum { Some(self.min_value()) } else { None },
            maximum: if declares_maximum { Some(self.max_value()) } else { None },
            min_length: if is_char { Some(1) } else { None },
            max_length: if is_char { Some(1) } else { None },
        }
    }
}

/// What an optional string says.
pub open spec fn opt_view(s: Option<&str>) -> Option<Seq<char>> {
    match s {
        Some(v) => Some(v@),
        None => None,
    }
}

/// The schema of a string-like type: an instance type and, where given, a
/// format hint; no validation.
pub fn string_like_schema(instance_type: InstanceType, format: Option<&str>) -> (r: SchemaObject)
    ensures
        r.well_formed(),
        r@ == (SchemaObjectModel {
            instance_type: Some(instance_type),
            format: opt_view(format),
            minimum: None,
            maximum: None,
            min_length: None,
            max_length: None,
        }),
{
    let mut schema = SchemaObject::of_type(instance_type);
    if let Some(f) = format {
        schema.set_format(f.to_owned());
    }
    schema
}

/// The schema of an unsigned integer: the minimum, zero, always; the maximum
/// only under the strict policy.
pub fn unsigned_schema(format: &str, maximum: NumberBound, strict: bool) -> (r: SchemaObject)
    ensures
        r.well_formed(),
        r@ == (SchemaObjectModel {
            instance_type: Some(InstanceType::Integer),
            format: Some(format@),
            minimum: Some(0),
            maximum: if strict { Some(maximum.value()) } else { None },
            min_length: None,
            max_length: None,
        }),
{
    let mut schema = SchemaObject::of_type(InstanceType::Integer);
    schema.set_format(format.to_owned());
    schema.set_minimum(NumberBound::from_unsigned(0));
    if strict {
        schema.set_maximum(maximum);
    }
    schema
}

/// The schema of a signed integer or a float: both bounds under the strict
/// policy, neither otherwise.
pub fn signed_schema(
    instance_type: InstanceType,
    format: &str,
    minimum: NumberBound,
    maximum: NumberBound,
    strict: bool,
) -> (r: SchemaObject)
    ensures
        r.well_formed(),
        r@ == (SchemaObjectModel {
            instance_type: Some(instance_type),
            format: Some(format@),
            minimum: if strict { Some(minimum.value()) } else { None },
            maximum: if strict { Some(maximum.value()) } else { None },
            min_length: None,
            max_length: None,
        }),
{
    let mut schema = SchemaObject::of_type(instance_type);
    schema.set_format(format.to_owned());
    if strict {
        schema.set_minimum(minimum);
        schema.set_maximum(maximum);
    }
    schema
}

/// The schema of a single character: a string of exactly one character.
pub fn char_schema() -> (r: SchemaObject)
    ensures
        r.well_formed(),
        r@ == (SchemaObjectModel {
            instance_type: Some(InstanceType::String),
            format: None,
            minimum: None,
            maximum: None,
            min_length: Some(1),
            max_length: Some(1),
        }),
{
    let mut schema = SchemaObject::of_type(InstanceType::String);
    schema.set_min_length(1);
    schema.set_max_length(1);
    schema
}

impl Primitive {
    /// The instance type of the type's schema.
    pub fn instance_type(&self) -> (r: InstanceType)
        ensures
            r == self.spec_instance_type(),
    {
        match self {
            Primitive::Bool => InstanceType::Boolean,
            Primitive::Unit => InstanceType::Null,
            Primitive::F32 | Primitive::F64 => InstanceType::Number,
            Primitive::U8 | Primitive::U16 | Primitive::U32 | Primitive::U64 | Primitive::U128
            | Primitive::Usize | Primitive::I8 | Primitive::I16 | Primitive::I32 | Primitive::I64
            | Primitive::I128 | Primitive::Isize => InstanceType::Integer,
            _ => InstanceType::String,
        }
    }

    /// The format hint of the type's schema, if it has one.
    pub fn format(&self) -> (r: Option<&'static str>)
        ensures
            opt_view(r) == self.spec_format(),
    {
        match self {
            Primitive::Ipv4Addr => Some("ipv4"),
            Primitive::Ipv6Addr => Some("ipv6"),
            Primitive::IpAddr => Some("ip"),
            Primitive::U8 => Some("uint8"),
            Primitive::U16 => Some("uint16"),
            Primitive::U32 => Some("uint32"),
            Primitive::U64 => Some("uint64"),
            Primitive::U128 => Some("uint128"),
            Primitive::Usize => Some("uint"),
            Primitive::F32 => Some("float"),
            Primitive::F64 => Some("double"),
            Primitive::I8 => Some("int8"),
            Primitive::I16 => Some("int16"),
            Primitive::I32 => Some("int32"),
            Primitive::I64 => Some("int64"),
            Primitive::I128 => Some("int128"),
            Primitive::Isize => Some("int"),
            _ => None,
        }
    }

    /// The least value of a numeric type, as an exact bound.
    pub fn minimum(&self) -> (r: NumberBound)
        requires
            self.is_unsigned() || self.is_signed_or_float(),
        ensures
            r.value() == self.min_value(),
    {
        match self {
            Primitive::F32 => {
                proof {
                    vstd::arithmetic::power2::lemma2_to64();
                }
                NumberBound { negative: true, mantissa: 0xff_ffff, exponent: 104 }
            },
            Primitive::F64 => {
                proof {
                    vstd::arithmetic::power2::lemma2_to64_rest();
                }
                NumberBound { negative: true, mantissa: 0x1f_ffff_ffff_ffff, exponent: 971 }
            },
            Primitive::I8 => NumberBound::from_signed(i8::MIN as i128),
            Primitive::I16 => NumberBound::from_signed(i16::MIN as i128),
            Primitive::I32 => NumberBound::from_signed(i32::MIN as i128),
            Primitive::I64 => NumberBound::from_signed(i64::MIN as i128),
            Primitive::I128 => NumberBound::from_signed(i128::MIN),
            Primitive::Isize => NumberBound::from_signed(isize::MIN as i128),
            _ => NumberBound::from_unsigned(0),
        }
    }

    /// The greatest value of a numeric type, as an exact bound.
    pub fn maximum(&self) -> (r: NumberBound)
        requires
            self.is_unsigned() || self.is_signed_or_float(),
        ensures
            r.value() == self.max_value(),
    {
        match self {
            Primitive::U8 => NumberBound::from_unsigned(u8::MAX as u128),
            Primitive::U16 => NumberBound::from_unsigned(u16::MAX as u128),
            Primitive::U32 => NumberBound::from_unsigned(u32::MAX as u128),
            Primitive::U64 => NumberBound::from_unsigned(u64::MAX as u128),
            Primitive::U128 => NumberBound::from_unsigned(u128::MAX),
            Primitive::Usize => NumberBound::from_unsigned(usize::MAX as u128),
            Primitive::F32 => {
                proof {
                    vstd::arithmetic::power2::lemma2_to64();
                }
                NumberBound { negative: false, mantissa: 0xff_ffff, exponent: 104 }
            },
            Primitive::F64 => {
                proof {
                    vstd::arithmetic::power2::lemma2_to64_rest();
                }
                NumberBound { negative: false, mantissa: 0x1f_ffff_ffff_ffff, exponent: 971 }
            },
            Primitive::I8 => NumberBound::from_signed(i8::MAX as i128),
            Primitive::I16 => NumberBound::from_signed(i16::MAX as i128),
            Primitive::I32 => NumberBound::from_signed(i32::MAX as i128),
            Primitive::I64 => NumberBound::from_signed(i64::MAX as i128),
            Primitive::I128 => NumberBound::from_signed(i128::MAX),
            Primitive::Isize => NumberBound::from_signed(isize::MAX as i128),
            _ => NumberBound::from_unsigned(0),
        }
    }

    /// The name under which compound schemas refer to the type.
    pub fn schema_name(&self) -> (r: String)
        ensures
            r@ == self.spec_name(),
    {
        match self {
            Primitive::Char => "Character".to_owned(),
            _ => match self.format() {
                Some(f) => f.to_owned(),
                None => match self.instance_type() {
                    InstanceType::Null => "Null".to_owned(),
                    InstanceType::Boolean => "Boolean".to_owned(),
                    InstanceType::Number => "Number".to_owned(),
                    InstanceType::Integer => "Integer".to_owned(),
                    InstanceType::String => "String".to_owned(),
                },
            },
        }
    }

    /// Whether compound schemas may refer to this type by name; primitive
    /// schemas are always written inline.
    pub fn is_referenceable(&self) -> (r: bool)
        ensures
            !r,
    {
        false
    }

    /// Derives the type's schema under the generator's settings, leaving the
    /// generator unchanged.
    pub fn json_schema(&self, generator: &mut SchemaGenerator) -> (r: Schema)
        ensures
            *final(generator) == *old(generator),
            r.well_formed(),
            r@ == SchemaModel::Object(self.spec_schema(old(generator).settings.strict_numeric_bounds)),
    {
        let strict = generator.settings().strict_numeric_bounds;
        let schema = match self {
            Primitive::Char => char_schema(),
            Primitive::U8 | Primitive::U16 | Primitive::U32 | Primitive::U64 | Primitive::U128
            | Primitive::Usize => {
                let format = self.format().unwrap();
                unsigned_schema(format, self.maximum(), strict)
            },
            Primitive::F32 | Primitive::F64 | Primitive::I8 | Primitive::I16 | Primitive::I32
            | Primitive::I64 | Primitive::I128 | Primitive::Isize => {
                let format = self.format().unwrap();
                signed_schema(self.instance_type(), format, self.minimum(), self.maximum(), strict)
            },
            _ => string_like_schema(self.instance_type(), self.format()),
        };
        schema.into_schema()
    }
}

} // verus!
