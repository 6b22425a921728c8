use serde_yaml::ser::{byte_to_yaml, singleton_hash, to_yaml};
use serde_yaml::Serializer;
use yaml_rust::yaml;
use yaml_rust::Yaml;

fn text(s: &str) -> Yaml {
    Yaml::String(String::from(s))
}

#[test]
fn new_serializer_holds_null() {
    assert_eq!(Serializer::new().take(), Yaml::Null);
}

#[test]
fn default_serializer_holds_null() {
    let ser: Serializer = Default::default();
    assert_eq!(ser.take(), Yaml::Null);
}

#[test]
fn take_hands_out_the_last_document() {
    let mut ser = Serializer::new();
    ser.serialize_bool(true).unwrap();
    ser.serialize_i64(12).unwrap();
    assert_eq!(ser.take(), Yaml::Integer(12));
}

#[test]
fn bool_becomes_boolean() {
    let mut ser = Serializer::new();
    assert_eq!(ser.serialize_bool(true), Ok(()));
    assert_eq!(ser.take(), Yaml::Boolean(true));
    let mut ser = Serializer::new();
    assert_eq!(ser.serialize_bool(false), Ok(()));
    assert_eq!(ser.take(), Yaml::Boolean(false));
}

#[test]
fn signed_integers_keep_their_value() {
    let mut ser = Serializer::new();
    ser.serialize_i8(i8::MIN).unwrap();
    assert_eq!(ser.take(), Yaml::Integer(-128));
    let mut ser = Serializer::new();
    ser.serialize_i16(i16::MAX).unwrap();
    assert_eq!(ser.take(), Yaml::Integer(32767));
    let mut ser = Serializer::new();
    ser.serialize_i32(i32::MIN).unwrap();
    assert_eq!(ser.take(), Yaml::Integer(-2147483648));
    let mut ser = Serializer::new();
    ser.serialize_i64(i64::MIN).unwrap();
    assert_eq!(ser.take(), Yaml::Integer(i64::MIN));
    let mut ser = Serializer::new();
    ser.serialize_i64(i64::MAX).unwrap();
    assert_eq!(ser.take(), Yaml::Integer(9223372036854775807));
    let mut ser = Serializer::new();
    ser.serialize_isize(-5).unwrap();
    assert_eq!(ser.take(), Yaml::Integer(-5));
}

#[test]
fn unsigned_integers_keep_their_value() {
    let mut ser = Serializer::new();
    ser.serialize_u8(255).unwrap();
    assert_eq!(ser.take(), Yaml::Integer(255));
    let mut ser = Serializer::new();
    ser.serialize_u16(65535).unwrap();
    assert_eq!(ser.take(), Yaml::Integer(65535));
    let mut ser = Serializer::new();
    ser.serialize_u32(u32::MAX).unwrap();
    assert_eq!(ser.take(), Yaml::Integer(4294967295));
    let mut ser = Serializer::new();
    ser.serialize_u64(9223372036854775807).unwrap();
    assert_eq!(ser.take(), Yaml::Integer(i64::MAX));
    let mut ser = Serializer::new();
    ser.serialize_usize(77).unwrap();
    assert_eq!(ser.take(), Yaml::Integer(77));
    let mut ser = Serializer::new();
    ser.serialize_u64(0).unwrap();
    assert_eq!(ser.take(), Yaml::Integer(0));
}

#[test]
fn u64_above_the_signed_range_wraps() {
    let mut ser = Serializer::new();
    ser.serialize_u64(u64::MAX).unwrap();
    assert_eq!(ser.take(), Yaml::Integer(-1));
    let mut ser = Serializer::new();
    ser.serialize_u64(9223372036854775808).unwrap();
    assert_eq!(ser.take(), Yaml::Integer(i64::MIN));
}

#[test]
fn usize_above_the_signed_range_wraps() {
    let mut ser = Serializer::new();
    ser.serialize_usize(usize::MAX).unwrap();
    let expected = if usize::BITS == 64 { -1 } else { usize::MAX as i64 };
    assert_eq!(ser.take(), Yaml::Integer(expected));
}

#[test]
fn real_keeps_the_text_of_the_float() {
    let mut ser = Serializer::new();
    ser.serialize_real(1.5f64.to_string()).unwrap();
    assert_eq!(ser.take(), Yaml::Real(String::from("1.5")));
    let mut ser = Serializer::new();
    ser.serialize_real(0.1f32.to_string()).unwrap();
    assert_eq!(ser.take(), Yaml::Real(String::from("0.1")));
}

#[test]
fn real_text_parses_back_to_the_float() {
    let values: Vec<f64> = vec![0.0, -2.25, 1e300, 0.1 + 0.2, f64::MIN_POSITIVE];
    for v in values {
        let mut ser = Serializer::new();
        ser.serialize_real(v.to_string()).unwrap();
        match ser.take() {
            Yaml::Real(s) => assert_eq!(s.parse::<f64>().unwrap().to_bits(), v.to_bits()),
            other => panic!("not a real: {:?}", other),
        }
    }
}

#[test]
fn char_becomes_a_string_of_one_character() {
    let mut ser = Serializer::new();
    ser.serialize_char('y').unwrap();
    assert_eq!(ser.take(), text("y"));
    let mut ser = Serializer::new();
    ser.serialize_char('\u{e9}').unwrap();
    assert_eq!(ser.take(), text("\u{e9}"));
}

#[test]
fn str_becomes_string() {
    let mut ser = Serializer::new();
    ser.serialize_str("hello world").unwrap();
    assert_eq!(ser.take(), text("hello world"));
    let mut ser = Serializer::new();
    ser.serialize_str("").unwrap();
    assert_eq!(ser.take(), text(""));
}

#[test]
fn unit_and_unit_struct_become_null() {
    let mut ser = Serializer::new();
    ser.serialize_i64(3).unwrap();
    ser.serialize_unit().unwrap();
    assert_eq!(ser.take(), Yaml::Null);
    let mut ser = Serializer::new();
    ser.serialize_i64(3).unwrap();
    ser.serialize_unit_struct("Marker").unwrap();
    assert_eq!(ser.take(), Yaml::Null);
}

#[test]
fn unit_variant_becomes_its_name() {
    let mut ser = Serializer::new();
    ser.serialize_unit_variant("Color", 2, "Blue").unwrap();
    assert_eq!(ser.take(), text("Blue"));
}

#[test]
fn none_is_null_like_unit() {
    let mut none = Serializer::new();
    none.serialize_bool(true).unwrap();
    none.serialize_none().unwrap();
    let mut unit = Serializer::new();
    unit.serialize_bool(true).unwrap();
    unit.serialize_unit().unwrap();
    let none = none.take();
    assert_eq!(none, Yaml::Null);
    assert_eq!(none, unit.take());
}

#[test]
fn some_is_flattened() {
    let mut bare = Serializer::new();
    bare.serialize_i32(9).unwrap();
    let bare = bare.take();
    let mut wrapped = Serializer::new();
    wrapped.serialize_some(bare.clone()).unwrap();
    assert_eq!(wrapped.take(), bare);
    let mut twice = Serializer::new();
    twice.serialize_some(text("x")).unwrap();
    assert_eq!(twice.take(), text("x"));
}

#[test]
fn newtype_struct_is_flattened() {
    let mut ser = Serializer::new();
    ser.serialize_newtype_struct("Meters", Yaml::Integer(4)).unwrap();
    assert_eq!(ser.take(), Yaml::Integer(4));
}

#[test]
fn newtype_variant_is_a_singleton_hash() {
    let mut ser = Serializer::new();
    ser.serialize_newtype_variant("Shape", 0, "Circle", Yaml::Integer(3)).unwrap();
    let mut expected = yaml::Hash::new();
    expected.insert(text("Circle"), Yaml::Integer(3));
    let doc = ser.take();
    assert_eq!(doc, Yaml::Hash(expected));
    assert_eq!(doc.as_hash().unwrap().len(), 1);
}

#[test]
fn to_yaml_encodes_a_string() {
    assert_eq!(to_yaml("name"), Ok(text("name")));
}

#[test]
fn byte_to_yaml_encodes_an_integer() {
    assert_eq!(byte_to_yaml(200), Ok(Yaml::Integer(200)));
}

#[test]
fn singleton_hash_has_one_entry() {
    let doc = singleton_hash(text("k"), Yaml::Boolean(false));
    let hash = doc.as_hash().unwrap();
    let entries: Vec<(&Yaml, &Yaml)> = hash.iter().collect();
    assert_eq!(entries, vec![(&text("k"), &Yaml::Boolean(false))]);
}
