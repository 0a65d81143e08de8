use guest_udf::error::{Expected, Failure, ShapeFault, Target};
use guest_udf::udf::{
    decode_bool, decode_decimal, decode_f32, decode_f64, decode_i16, decode_i32, decode_i64,
    decode_str, encode_decimal, Decimal,
};
use rmpv::Value;

fn mismatch(expected: Expected, actual: Value) -> Failure<Value> {
    Failure::TypeMismatch { expected, actual }
}

fn decimal_array(precision: Value, scale: Value, high: Value, low: Value) -> Value {
    Value::Array(vec![precision, scale, high, low])
}

#[test]
fn i64_accepts_every_integer_in_range() {
    assert_eq!(decode_i64(&Value::from(0)), Ok(0));
    assert_eq!(decode_i64(&Value::from(-42)), Ok(-42));
    assert_eq!(decode_i64(&Value::from(i64::MAX)), Ok(i64::MAX));
    assert_eq!(decode_i64(&Value::from(i64::MIN)), Ok(i64::MIN));
    assert_eq!(decode_i64(&Value::from(i64::MAX as u64)), Ok(i64::MAX));
}

#[test]
fn i64_refuses_an_integer_above_its_range() {
    assert_eq!(
        decode_i64(&Value::from(i64::MAX as u64 + 1)),
        Err(Failure::Range { target: Target::I64, value: 1i128 << 63 })
    );
    assert_eq!(
        decode_i64(&Value::from(u64::MAX)),
        Err(Failure::Range { target: Target::I64, value: u64::MAX as i128 })
    );
}

#[test]
fn i64_refuses_other_kinds() {
    for v in [
        Value::Nil,
        Value::Boolean(true),
        Value::F32(1.0),
        Value::F64(1.0),
        Value::from("12"),
        Value::Binary(vec![1]),
        Value::Array(vec![Value::from(1)]),
        Value::Map(vec![(Value::from(1), Value::from(2))]),
        Value::Ext(1, vec![2]),
    ] {
        assert_eq!(decode_i64(&v), Err(mismatch(Expected::Integer, v.clone())));
    }
}

#[test]
fn i16_range_is_enforced() {
    assert_eq!(
        decode_i16(&Value::from(1 << 20)),
        Err(Failure::Range { target: Target::I16, value: 1 << 20 })
    );
    assert_eq!(decode_i16(&Value::from(100)), Ok(100i16));
}

#[test]
fn i16_bounds() {
    assert_eq!(decode_i16(&Value::from(32767)), Ok(i16::MAX));
    assert_eq!(decode_i16(&Value::from(-32768)), Ok(i16::MIN));
    assert_eq!(
        decode_i16(&Value::from(32768)),
        Err(Failure::Range { target: Target::I16, value: 32768 })
    );
    assert_eq!(
        decode_i16(&Value::from(-32769)),
        Err(Failure::Range { target: Target::I16, value: -32769 })
    );
    assert_eq!(
        decode_i16(&Value::from(u64::MAX)),
        Err(Failure::Range { target: Target::I16, value: u64::MAX as i128 })
    );
    assert_eq!(decode_i16(&Value::Nil), Err(mismatch(Expected::Integer, Value::Nil)));
}

#[test]
fn i32_bounds() {
    assert_eq!(decode_i32(&Value::from(7)), Ok(7));
    assert_eq!(decode_i32(&Value::from(i32::MAX)), Ok(i32::MAX));
    assert_eq!(decode_i32(&Value::from(i32::MIN)), Ok(i32::MIN));
    assert_eq!(
        decode_i32(&Value::from(i32::MAX as i64 + 1)),
        Err(Failure::Range { target: Target::I32, value: 2147483648 })
    );
    assert_eq!(
        decode_i32(&Value::from(i32::MIN as i64 - 1)),
        Err(Failure::Range { target: Target::I32, value: -2147483649 })
    );
    assert_eq!(
        decode_i32(&Value::from(u64::MAX)),
        Err(Failure::Range { target: Target::I32, value: u64::MAX as i128 })
    );
    let v = Value::from("7");
    assert_eq!(decode_i32(&v), Err(mismatch(Expected::Integer, v.clone())));
}

#[test]
fn f32_is_strict_about_its_width() {
    let double = Value::F64(1.5);
    assert_eq!(decode_f32(&double), Err(mismatch(Expected::F32, double.clone())));
    let bits = decode_f32(&Value::F32(1.5)).unwrap();
    assert_eq!(bits, 0x3fc0_0000);
    assert_eq!(f32::from_bits(bits), 1.5f32);
    let int = Value::from(1);
    assert_eq!(decode_f32(&int), Err(mismatch(Expected::F32, int.clone())));
}

#[test]
fn f64_is_strict_about_its_width() {
    let bits = decode_f64(&Value::F64(-2.25)).unwrap();
    assert_eq!(bits, 0xc002_0000_0000_0000);
    assert_eq!(f64::from_bits(bits), -2.25f64);
    let single = Value::F32(1.5);
    assert_eq!(decode_f64(&single), Err(mismatch(Expected::F64, single.clone())));
    let int = Value::from(3);
    assert_eq!(decode_f64(&int), Err(mismatch(Expected::F64, int.clone())));
}

#[test]
fn float_bits_are_kept_exactly() {
    let nan = f64::from_bits(0x7ff8_0000_0000_1234);
    assert_eq!(decode_f64(&Value::F64(nan)), Ok(0x7ff8_0000_0000_1234));
    assert_eq!(decode_f64(&Value::F64(-0.0)), Ok(0x8000_0000_0000_0000));
    assert_eq!(decode_f32(&Value::F32(-0.0)), Ok(0x8000_0000));
}

#[test]
fn bool_and_str_need_their_exact_kind() {
    assert_eq!(decode_bool(&Value::Boolean(true)), Ok(true));
    assert_eq!(decode_bool(&Value::Boolean(false)), Ok(false));
    let one = Value::from(1);
    assert_eq!(decode_bool(&one), Err(mismatch(Expected::Bool, one.clone())));
    assert_eq!(decode_bool(&Value::Nil), Err(mismatch(Expected::Bool, Value::Nil)));

    let text = Value::from("héllo");
    assert_eq!(decode_str(&text), Ok("héllo"));
    assert_eq!(decode_str(&Value::from("")), Ok(""));
    let bin = Value::Binary(b"abc".to_vec());
    assert_eq!(decode_str(&bin), Err(mismatch(Expected::Str, bin.clone())));
    assert_eq!(decode_str(&one), Err(mismatch(Expected::Str, one.clone())));
}

#[test]
fn decimal_interchange_shape() {
    let d = Decimal { precision: 38, scale: 4, value: (7i128 << 64) + 5 };
    assert_eq!(
        encode_decimal(&d),
        Ok(decimal_array(Value::from(38), Value::from(4), Value::from(7), Value::from(5)))
    );
    let negative = Decimal { precision: 10, scale: 0, value: -(1i128 << 64) };
    assert_eq!(
        encode_decimal(&negative),
        Ok(decimal_array(Value::from(10), Value::from(0), Value::from(-1), Value::from(0)))
    );
    let low_bit_set = Decimal { precision: 1, scale: 1, value: -1 };
    assert_eq!(
        encode_decimal(&low_bit_set),
        Ok(decimal_array(Value::from(1), Value::from(1), Value::from(-1), Value::from(-1)))
    );
    let top = Decimal { precision: 0, scale: 255, value: i128::MAX };
    assert_eq!(
        encode_decimal(&top),
        Ok(decimal_array(Value::from(0), Value::from(255), Value::from(i64::MAX), Value::from(-1)))
    );
}

#[test]
fn decimal_round_trip() {
    let values: [i128; 17] = [
        0,
        1,
        -1,
        12345,
        -12345,
        i64::MAX as i128,
        i64::MIN as i128,
        1i128 << 63,
        (1i128 << 63) + 1,
        u64::MAX as i128,
        1i128 << 64,
        (1i128 << 64) + 99,
        -(1i128 << 64),
        -(1i128 << 64) - 1,
        i128::MIN,
        i128::MAX,
        i128::MAX - (1i128 << 63),
    ];
    for value in values {
        for (precision, scale) in [(0u8, 0u8), (38, 10), (255, 255), (1, 254)] {
            let d = Decimal { precision, scale, value };
            let wire = encode_decimal(&d).unwrap();
            assert_eq!(decode_decimal(&wire), Ok(d));
        }
    }
}

#[test]
fn decimal_with_bit_63_set_comes_back_exactly() {
    let d = Decimal { precision: 5, scale: 1, value: 1i128 << 63 };
    let wire = encode_decimal(&d).unwrap();
    assert_eq!(wire, decimal_array(Value::from(5), Value::from(1), Value::from(0), Value::from(i64::MIN)));
    assert_eq!(decode_decimal(&wire), Ok(Decimal { precision: 5, scale: 1, value: 1i128 << 63 }));
    let minus_one = Decimal { precision: 10, scale: 2, value: -1 };
    assert_eq!(
        decode_decimal(&encode_decimal(&minus_one).unwrap()),
        Ok(Decimal { precision: 10, scale: 2, value: -1 })
    );
    let greatest = Decimal { precision: 255, scale: 255, value: i128::MAX };
    assert_eq!(
        decode_decimal(&encode_decimal(&greatest).unwrap()),
        Ok(Decimal { precision: 255, scale: 255, value: i128::MAX })
    );
}

#[test]
fn decimal_halves_are_joined_without_the_sign_of_the_low_half() {
    let wire = decimal_array(Value::from(0), Value::from(0), Value::from(i64::MIN), Value::from(-1));
    assert_eq!(
        decode_decimal(&wire),
        Ok(Decimal { precision: 0, scale: 0, value: i128::MIN + (1i128 << 64) - 1 })
    );
    let least = decimal_array(Value::from(1), Value::from(1), Value::from(i64::MIN), Value::from(0));
    assert_eq!(decode_decimal(&least), Ok(Decimal { precision: 1, scale: 1, value: i128::MIN }));
    let high_bits =
        decimal_array(Value::from(1), Value::from(1), Value::from(i64::MAX), Value::from(i64::MAX));
    assert_eq!(
        decode_decimal(&high_bits),
        Ok(Decimal { precision: 1, scale: 1, value: i128::MAX - (1i128 << 63) })
    );
    let greatest =
        decimal_array(Value::from(1), Value::from(1), Value::from(i64::MAX), Value::from(-1));
    assert_eq!(decode_decimal(&greatest), Ok(Decimal { precision: 1, scale: 1, value: i128::MAX }));
    let low_only = decimal_array(Value::from(1), Value::from(1), Value::from(0), Value::from(-2));
    assert_eq!(
        decode_decimal(&low_only),
        Ok(Decimal { precision: 1, scale: 1, value: u64::MAX as i128 - 1 })
    );
}

#[test]
fn decimal_shape_is_enforced() {
    let three = Value::Array(vec![Value::from(1), Value::from(2), Value::from(3)]);
    assert_eq!(
        decode_decimal(&three),
        Err(Failure::Shape(ShapeFault::WrongCount { expected: 4, found: 3 }))
    );
    let five = Value::Array(vec![Value::from(1); 5]);
    assert_eq!(
        decode_decimal(&five),
        Err(Failure::Shape(ShapeFault::WrongCount { expected: 4, found: 5 }))
    );
    assert_eq!(
        decode_decimal(&Value::Array(vec![])),
        Err(Failure::Shape(ShapeFault::WrongCount { expected: 4, found: 0 }))
    );
    let not_array = Value::from(4);
    assert_eq!(
        decode_decimal(&not_array),
        Err(mismatch(Expected::DecimalParts, not_array.clone()))
    );
}

#[test]
fn decimal_names_the_offending_element() {
    let ok = Value::from(1);
    let bad = Value::from("x");
    assert_eq!(
        decode_decimal(&decimal_array(bad.clone(), ok.clone(), ok.clone(), ok.clone())),
        Err(mismatch(Expected::DecimalPrecision, bad.clone()))
    );
    assert_eq!(
        decode_decimal(&decimal_array(ok.clone(), bad.clone(), ok.clone(), ok.clone())),
        Err(mismatch(Expected::DecimalScale, bad.clone()))
    );
    assert_eq!(
        decode_decimal(&decimal_array(ok.clone(), ok.clone(), bad.clone(), ok.clone())),
        Err(mismatch(Expected::DecimalHigh, bad.clone()))
    );
    assert_eq!(
        decode_decimal(&decimal_array(ok.clone(), ok.clone(), ok.clone(), bad.clone())),
        Err(mismatch(Expected::DecimalLow, bad.clone()))
    );
    let float = Value::F64(1.0);
    assert_eq!(
        decode_decimal(&decimal_array(float.clone(), bad.clone(), ok.clone(), ok.clone())),
        Err(mismatch(Expected::DecimalPrecision, float.clone()))
    );
}

#[test]
fn decimal_precision_and_scale_fit_eight_bits() {
    let ok = Value::from(1);
    assert_eq!(
        decode_decimal(&decimal_array(Value::from(256), ok.clone(), ok.clone(), ok.clone())),
        Err(Failure::Range { target: Target::DecimalPrecision, value: 256 })
    );
    assert_eq!(
        decode_decimal(&decimal_array(ok.clone(), Value::from(u64::MAX), ok.clone(), ok.clone())),
        Err(Failure::Range { target: Target::DecimalScale, value: u64::MAX as i128 })
    );
    assert_eq!(
        decode_decimal(&decimal_array(Value::from(-1), ok.clone(), ok.clone(), ok.clone())),
        Err(Failure::Range { target: Target::DecimalPrecision, value: -1 })
    );
    assert_eq!(
        decode_decimal(&decimal_array(ok.clone(), Value::from(i64::MIN), ok.clone(), ok.clone())),
        Err(Failure::Range { target: Target::DecimalScale, value: i64::MIN as i128 })
    );
    assert_eq!(
        decode_decimal(&decimal_array(Value::from(255), Value::from(255), ok.clone(), ok.clone())),
        Ok(Decimal { precision: 255, scale: 255, value: (1i128 << 64) + 1 })
    );
}

#[test]
fn decimal_halves_fit_sixty_four_bits() {
    let ok = Value::from(1);
    assert_eq!(
        decode_decimal(&decimal_array(ok.clone(), ok.clone(), Value::from(u64::MAX), ok.clone())),
        Err(Failure::Range { target: Target::DecimalHigh, value: u64::MAX as i128 })
    );
    assert_eq!(
        decode_decimal(&decimal_array(ok.clone(), ok.clone(), ok.clone(), Value::from(1u64 << 63))),
        Err(Failure::Range { target: Target::DecimalLow, value: 1i128 << 63 })
    );
}

#[test]
fn decimal_reports_the_first_failure() {
    let bad = Value::Nil;
    assert_eq!(
        decode_decimal(&decimal_array(Value::from(300), bad.clone(), bad.clone(), bad.clone())),
        Err(Failure::Range { target: Target::DecimalPrecision, value: 300 })
    );
    assert_eq!(
        decode_decimal(&decimal_array(Value::from(3), Value::from(2), bad.clone(), bad.clone())),
        Err(mismatch(Expected::DecimalHigh, bad.clone()))
    );
}
