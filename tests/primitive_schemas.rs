use schemars::generator::{SchemaGenerator, SchemaSettings};
use schemars::json_schema::{schema_for, JsonSchema};
use schemars::primitives::Primitive;
use schemars::schema::{InstanceType, NumberBound, Schema, SchemaObject};

const UNSIGNED: [Primitive; 6] = [
    Primitive::U8,
    Primitive::U16,
    Primitive::U32,
    Primitive::U64,
    Primitive::U128,
    Primitive::Usize,
];

const SIGNED_OR_FLOAT: [Primitive; 8] = [
    Primitive::F32,
    Primitive::F64,
    Primitive::I8,
    Primitive::I16,
    Primitive::I32,
    Primitive::I64,
    Primitive::I128,
    Primitive::Isize,
];

fn generator(strict: bool) -> SchemaGenerator {
    if strict {
        SchemaGenerator::new(SchemaSettings::strict())
    } else {
        SchemaGenerator::new(SchemaSettings::new())
    }
}

fn object(schema: Schema) -> SchemaObject {
    match schema {
        Schema::Object(o) => o,
        Schema::Bool(_) => panic!("expected a schema object"),
    }
}

fn derive(p: Primitive, strict: bool) -> SchemaObject {
    object(p.json_schema(&mut generator(strict)))
}

fn as_f64(b: NumberBound) -> f64 {
    let magnitude = b.mantissa as f64 * 2f64.powi(b.exponent as i32);
    if b.negative {
        -magnitude
    } else {
        magnitude
    }
}

fn is_exactly(b: NumberBound, negative: bool, mantissa: u128) -> bool {
    if mantissa == 0 {
        b.mantissa == 0
    } else {
        b.negative == negative && b.exponent == 0 && b.mantissa == mantissa
    }
}

#[test]
fn u8_default_policy() {
    let o = derive(Primitive::U8, false);
    assert_eq!(o.instance_type, Some(InstanceType::Integer));
    assert_eq!(o.format.as_deref(), Some("uint8"));
    let n = o.number.expect("numeric record");
    assert!(is_exactly(n.minimum.expect("minimum"), false, 0));
    assert!(n.maximum.is_none());
    assert!(o.string.is_none());
}

#[test]
fn f32_strict_policy() {
    let o = derive(Primitive::F32, true);
    assert_eq!(o.instance_type, Some(InstanceType::Number));
    assert_eq!(o.format.as_deref(), Some("float"));
    let n = o.number.expect("numeric record");
    assert_eq!(as_f64(n.minimum.expect("minimum")), -3.4028235e38f32 as f64);
    assert_eq!(as_f64(n.maximum.expect("maximum")), 3.4028235e38f32 as f64);
    assert_eq!(as_f64(n.minimum.unwrap()), f32::MIN as f64);
    assert_eq!(as_f64(n.maximum.unwrap()), f32::MAX as f64);
    assert!(o.string.is_none());
}

#[test]
fn f64_strict_policy() {
    let o = derive(Primitive::F64, true);
    assert_eq!(o.instance_type, Some(InstanceType::Number));
    assert_eq!(o.format.as_deref(), Some("double"));
    let n = o.number.expect("numeric record");
    assert_eq!(as_f64(n.minimum.unwrap()), f64::MIN);
    assert_eq!(as_f64(n.maximum.unwrap()), f64::MAX);
}

#[test]
fn char_schema_and_name() {
    for strict in [false, true] {
        let o = derive(Primitive::Char, strict);
        assert_eq!(o.instance_type, Some(InstanceType::String));
        assert!(o.format.is_none());
        assert!(o.number.is_none());
        let s = o.string.expect("string record");
        assert_eq!(s.min_length, Some(1));
        assert_eq!(s.max_length, Some(1));
    }
    assert_eq!(Primitive::Char.schema_name(), "Character");
    assert_eq!(<char as JsonSchema>::schema_name(), "Character");
}

#[test]
fn unsigned_minimum_zero_under_both_policies() {
    for p in UNSIGNED {
        for strict in [false, true] {
            let o = derive(p, strict);
            assert_eq!(o.instance_type, Some(InstanceType::Integer));
            let n = o.number.expect("numeric record");
            assert!(is_exactly(n.minimum.expect("minimum"), false, 0));
        }
    }
}

#[test]
fn unsigned_maximum_only_when_strict() {
    let maxima: [u128; 6] = [
        u8::MAX as u128,
        u16::MAX as u128,
        u32::MAX as u128,
        u64::MAX as u128,
        u128::MAX,
        usize::MAX as u128,
    ];
    for (p, max) in UNSIGNED.iter().zip(maxima) {
        assert!(derive(*p, false).number.unwrap().maximum.is_none());
        let m = derive(*p, true).number.unwrap().maximum.expect("maximum");
        assert!(is_exactly(m, false, max));
    }
}

#[test]
fn u128_maximum_is_exact() {
    let m = derive(Primitive::U128, true).number.unwrap().maximum.unwrap();
    assert_eq!(m.mantissa, u128::MAX);
    assert_eq!(m.exponent, 0);
    assert!(!m.negative);
}

#[test]
fn signed_bounds_both_or_neither() {
    for p in SIGNED_OR_FLOAT {
        assert!(derive(p, false).number.is_none());
        let n = derive(p, true).number.expect("numeric record");
        assert!(n.minimum.is_some());
        assert!(n.maximum.is_some());
    }
}

#[test]
fn signed_integer_bounds_are_exact() {
    let cases: [(Primitive, i128, i128); 6] = [
        (Primitive::I8, i8::MIN as i128, i8::MAX as i128),
        (Primitive::I16, i16::MIN as i128, i16::MAX as i128),
        (Primitive::I32, i32::MIN as i128, i32::MAX as i128),
        (Primitive::I64, i64::MIN as i128, i64::MAX as i128),
        (Primitive::I128, i128::MIN, i128::MAX),
        (Primitive::Isize, isize::MIN as i128, isize::MAX as i128),
    ];
    for (p, min, max) in cases {
        let n = derive(p, true).number.unwrap();
        assert!(is_exactly(n.minimum.unwrap(), true, min.unsigned_abs()));
        assert!(is_exactly(n.maximum.unwrap(), false, max as u128));
    }
}

#[test]
fn numeric_names_and_formats() {
    let cases: [(Primitive, &str); 14] = [
        (Primitive::U8, "uint8"),
        (Primitive::U16, "uint16"),
        (Primitive::U32, "uint32"),
        (Primitive::U64, "uint64"),
        (Primitive::U128, "uint128"),
        (Primitive::Usize, "uint"),
        (Primitive::F32, "float"),
        (Primitive::F64, "double"),
        (Primitive::I8, "int8"),
        (Primitive::I16, "int16"),
        (Primitive::I32, "int32"),
        (Primitive::I64, "int64"),
        (Primitive::I128, "int128"),
        (Primitive::Isize, "int"),
    ];
    for (p, f) in cases {
        assert_eq!(p.schema_name(), f);
        assert_eq!(derive(p, false).format.as_deref(), Some(f));
    }
}

#[test]
fn schema_name_is_stable() {
    for p in UNSIGNED.iter().chain(SIGNED_OR_FLOAT.iter()) {
        assert_eq!(p.schema_name(), p.schema_name());
    }
    assert_eq!(Primitive::Char.schema_name(), Primitive::Char.schema_name());
    assert_eq!(<u8 as JsonSchema>::schema_name(), <u8 as JsonSchema>::schema_name());
}

#[test]
fn plain_schemas_have_no_format() {
    let cases = [
        (Primitive::Str, InstanceType::String, "String"),
        (Primitive::String, InstanceType::String, "String"),
        (Primitive::Bool, InstanceType::Boolean, "Boolean"),
        (Primitive::Unit, InstanceType::Null, "Null"),
    ];
    for (p, t, name) in cases {
        for strict in [false, true] {
            let o = derive(p, strict);
            assert_eq!(o.instance_type, Some(t));
            assert!(o.format.is_none());
            assert!(o.number.is_none());
            assert!(o.string.is_none());
        }
        assert_eq!(p.schema_name(), name);
    }
}

#[test]
fn ip_address_formats() {
    let cases = [
        (Primitive::Ipv4Addr, "ipv4"),
        (Primitive::Ipv6Addr, "ipv6"),
        (Primitive::IpAddr, "ip"),
    ];
    for (p, f) in cases {
        let o = derive(p, true);
        assert_eq!(o.instance_type, Some(InstanceType::String));
        assert_eq!(o.format.as_deref(), Some(f));
        assert!(o.number.is_none());
        assert_eq!(p.schema_name(), f);
    }
}

#[test]
fn paths_and_socket_addresses_are_strings() {
    let cases = [
        Primitive::Path,
        Primitive::PathBuf,
        Primitive::SocketAddr,
        Primitive::SocketAddrV4,
        Primitive::SocketAddrV6,
    ];
    for p in cases {
        let o = derive(p, false);
        assert_eq!(o.instance_type, Some(InstanceType::String));
        assert!(o.format.is_none());
        assert_eq!(p.schema_name(), "String");
    }
}

#[test]
fn primitives_are_never_referenced() {
    assert!(!Primitive::U8.is_referenceable());
    assert!(!<String as JsonSchema>::is_referenceable());
    assert!(!<char as JsonSchema>::is_referenceable());
}

#[test]
fn generator_is_left_unchanged() {
    let mut g = generator(true);
    let _ = Primitive::I32.json_schema(&mut g);
    assert!(g.settings().strict_numeric_bounds);
    let mut g = generator(false);
    let _ = schema_for::<u64>(&mut g);
    assert!(!g.settings().strict_numeric_bounds);
}

#[test]
fn trait_dispatch_matches_table() {
    let o = object(schema_for::<u8>(&mut generator(false)));
    assert_eq!(o.format.as_deref(), Some("uint8"));
    assert!(o.number.unwrap().maximum.is_none());
    let o = object(<i64 as JsonSchema>::json_schema(&mut generator(true)));
    let n = o.number.unwrap();
    assert!(is_exactly(n.minimum.unwrap(), true, 1u128 << 63));
    assert!(is_exactly(n.maximum.unwrap(), false, i64::MAX as u128));
    let o = object(schema_for::<str>(&mut generator(false)));
    assert_eq!(o.instance_type, Some(InstanceType::String));
    assert!(o.format.is_none());
    let o = object(schema_for::<()>(&mut generator(false)));
    assert_eq!(o.instance_type, Some(InstanceType::Null));
    assert_eq!(<bool as JsonSchema>::schema_name(), "Boolean");
    assert_eq!(<usize as JsonSchema>::schema_name(), "uint");
}

#[test]
fn schema_object_setters_fill_records_lazily() {
    let mut o = SchemaObject::of_type(InstanceType::Integer);
    assert!(o.number.is_none());
    o.set_maximum(NumberBound::from_signed(-5));
    let n = o.number.unwrap();
    assert!(n.minimum.is_none());
    assert!(is_exactly(n.maximum.unwrap(), true, 5));
    o.set_min_length(2);
    let s = o.string.unwrap();
    assert_eq!(s.min_length, Some(2));
    assert_eq!(s.max_length, None);
}

#[test]
fn signed_bound_of_most_negative_value() {
    let b = NumberBound::from_signed(i128::MIN);
    assert!(b.negative);
    assert_eq!(b.mantissa, 1u128 << 127);
    assert_eq!(b.exponent, 0);
}
