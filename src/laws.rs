//! Laws that hold of every derived primitive schema, under either policy.
use crate::primitives::Primitive;
use crate::schema::InstanceType;
use vstd::prelude::*;

verus! {

/// An unsigned integer's schema is an integer schema whose minimum is zero,
/// whatever the policy.
pub proof fn unsigned_minimum_is_zero(p: Primitive, strict: bool)
    requires
        p.is_unsigned(),
    ensures
        p.spec_schema(strict).instance_type == Some(InstanceType::Integer),
        p.spec_schema(strict).minimum == Some(0int),
{
}

/// An unsigned integer's schema declares a maximum exactly under the strict
/// policy, and that maximum is the type's greatest value.
pub proof fn unsigned_maximum_iff_strict(p: Primitive, strict: bool)
    requires
        p.is_unsigned(),
    ensures
        p.spec_schema(strict).maximum.is_some() == strict,
        strict ==> p.spec_schema(strict).maximum == Some(p.max_value()),
{
}

/// A signed integer's or a float's schema declares both bounds or neither,
/// and declared bounds are the type's least and greatest values.
pub proof fn signed_bounds_come_together(p: Primitive, strict: bool)
    requires
        p.is_signed_or_float(),
    ensures
        p.spec_schema(strict).minimum.is_some() == p.spec_schema(strict).maximum.is_some(),
        p.spec_schema(strict).minimum.is_some() ==> p.spec_schema(strict).minimum == Some(
            p.min_value(),
        ) && p.spec_schema(strict).maximum == Some(p.max_value()),
{
}

/// The character schema is a string schema of exactly one character, whatever
/// the policy.
pub proof fn char_is_one_character_string(strict: bool)
    ensures
        Primitive::Char.spec_schema(strict).instance_type == Some(InstanceType::String),
        Primitive::Char.spec_schema(strict).min_length == Some(1nat),
        Primitive::Char.spec_schema(strict).max_length == Some(1nat),
{
}

/// Two schema names of one type are the same string: the name depends on the
/// type alone.
pub proof fn schema_name_is_stable(p: Primitive, first: Seq<char>, second: Seq<char>)
    requires
        first == p.spec_name(),
        second == p.spec_name(),
    ensures
        first == second,
{
}

/// Plain strings, booleans and the unit value carry no format hint.
pub proof fn plain_schemas_have_no_format(p: Primitive, strict: bool)
    requires
        p == Primitive::Str || p == Primitive::String || p == Primitive::Bool || p
            == Primitive::Unit,
    ensures
        p.spec_schema(strict).format.is_none(),
{
}

/// IP address schemas are string schemas with the formats `ipv4`, `ipv6` and
/// `ip`.
pub proof fn ip_address_formats(strict: bool)
    ensures
        Primitive::Ipv4Addr.spec_schema(strict).instance_type == Some(InstanceType::String),
        Primitive::Ipv6Addr.spec_schema(strict).instance_type == Some(InstanceType::String),
        Primitive::IpAddr.spec_schema(strict).instance_type == Some(InstanceType::String),
        Primitive::Ipv4Addr.spec_schema(strict).format == Some("ipv4"@),
        Primitive::Ipv6Addr.spec_schema(strict).format == Some("ipv6"@),
        Primitive::IpAddr.spec_schema(strict).format == Some("ip"@),
{
}

} // verus!
