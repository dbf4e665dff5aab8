use typed_kv::value::{DataType, DbValue, DecodeError};

#[test]
fn string_round_trip() {
    let v = DbValue::from_str("Ada Lovelace");
    assert_eq!(v.typetag, DataType::String);
    assert_eq!(v.data, b"Ada Lovelace".to_vec());
    assert_eq!(v.as_string(), Some(Ok("Ada Lovelace".to_string())));
}

#[test]
fn string_round_trip_non_ascii() {
    let v = DbValue::from_str("héllo ✓");
    assert_eq!(v.data, "héllo ✓".as_bytes().to_vec());
    assert_eq!(v.as_string(), Some(Ok("héllo ✓".to_string())));
}

#[test]
fn empty_string_round_trip() {
    let v = DbValue::from_str("");
    assert!(v.data.is_empty());
    assert_eq!(v.as_string(), Some(Ok(String::new())));
}

#[test]
fn int_round_trip() {
    for i in [0i64, 42, -1, i64::MIN, i64::MAX] {
        let v = DbValue::from_i64(i);
        assert_eq!(v.typetag, DataType::Int);
        assert_eq!(v.data, i.to_le_bytes().to_vec());
        assert_eq!(v.as_int(), Some(i));
    }
}

#[test]
fn int_encoding_is_eight_little_endian_bytes() {
    let v = DbValue::from_i64(258);
    assert_eq!(v.data, vec![2, 1, 0, 0, 0, 0, 0, 0]);
    let v = DbValue::from_i64(-2);
    assert_eq!(v.data, vec![0xfe, 0xff, 0xff, 0xff, 0xff, 0xff, 0xff, 0xff]);
}

#[test]
fn float_round_trip() {
    for f in [3.14f64, -0.5, 0.0, f64::MAX, f64::INFINITY] {
        let v = DbValue::from_float_bits(f.to_bits());
        assert_eq!(v.typetag, DataType::Float);
        assert_eq!(v.data, f.to_bits().to_le_bytes().to_vec());
        assert_eq!(v.as_float_bits().map(f64::from_bits), Some(f));
    }
}

#[test]
fn bool_round_trip() {
    let t = DbValue::from_bool(true);
    let f = DbValue::from_bool(false);
    assert_eq!(t.data, vec![1]);
    assert_eq!(f.data, vec![0]);
    assert_eq!(t.as_bool(), Some(true));
    assert_eq!(f.as_bool(), Some(false));
}

#[test]
fn tag_isolation() {
    let s = DbValue::from_str("12345678");
    assert_eq!(s.as_int(), None);
    assert_eq!(s.as_float_bits(), None);
    assert_eq!(s.as_bool(), None);

    let i = DbValue::from_i64(7);
    assert_eq!(i.as_string(), None);
    assert_eq!(i.as_float_bits(), None);
    assert_eq!(i.as_bool(), None);

    let f = DbValue::from_float_bits(1.5f64.to_bits());
    assert_eq!(f.as_string(), None);
    assert_eq!(f.as_int(), None);
    assert_eq!(f.as_bool(), None);

    let b = DbValue::from_bool(true);
    assert_eq!(b.as_string(), None);
    assert_eq!(b.as_int(), None);
    assert_eq!(b.as_float_bits(), None);
}

#[test]
fn int_and_float_with_same_bytes_stay_apart() {
    let i = DbValue::from_i64(1.0f64.to_bits() as i64);
    let f = DbValue::from_float_bits(1.0f64.to_bits());
    assert_eq!(i.data, f.data);
    assert_eq!(i.as_float_bits(), None);
    assert_eq!(f.as_int(), None);
}

#[test]
fn malformed_utf8_is_recoverable() {
    let v = DbValue { typetag: DataType::String, data: vec![0xff, 0xfe] };
    assert_eq!(v.as_string(), Some(Err(DecodeError::MalformedUtf8)));
}

#[test]
fn short_int_payload_gives_no_value() {
    let v = DbValue { typetag: DataType::Int, data: vec![1, 2, 3] };
    assert_eq!(v.as_int(), None);
    let b = DbValue { typetag: DataType::Bool, data: vec![] };
    assert_eq!(b.as_bool(), None);
}
