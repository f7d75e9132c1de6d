use wast_testgen::float_bits::{
    f32_is_canonical_nan, f32_is_infinite, f32_is_nan, f32_is_quiet_nan, f32_is_sign_negative,
    f64_is_canonical_nan, f64_is_infinite, f64_is_nan, f64_is_quiet_nan, f64_is_sign_negative,
};
use wast_testgen::value::{
    is_nan, value_literals, wabt2rust_type, wabt2rust_type_destructure, wabt2rust_value,
    wabt2rust_value_bare, Float32, Float64, Value,
};

fn single(bits: u32) -> Value {
    Value::F32(Float32 { bits, decimal: format!("{:?}", f32::from_bits(bits)) })
}

fn double(bits: u64) -> Value {
    Value::F64(Float64 { bits, decimal: format!("{:?}", f64::from_bits(bits)) })
}

const SINGLE_PATTERNS: [u32; 16] = [
    0x0000_0000,
    0x8000_0000,
    0x3F80_0000,
    0x3FC0_0000,
    0xBFC0_0000,
    0x0000_0001,
    0x7F7F_FFFF,
    0x7F80_0000,
    0xFF80_0000,
    0x7FC0_0000,
    0xFFC0_0000,
    0x7FA0_0000,
    0x7F80_0001,
    0xFFFF_FFFF,
    0x7FC0_0001,
    0x0040_0000,
];

const DOUBLE_PATTERNS: [u64; 16] = [
    0x0000_0000_0000_0000,
    0x8000_0000_0000_0000,
    0x3FF0_0000_0000_0000,
    0x3FF8_0000_0000_0000,
    0xBFF8_0000_0000_0000,
    0x0000_0000_0000_0001,
    0x7FEF_FFFF_FFFF_FFFF,
    0x7FF0_0000_0000_0000,
    0xFFF0_0000_0000_0000,
    0x7FF8_0000_0000_0000,
    0xFFF8_0000_0000_0000,
    0x7FF4_0000_0000_0000,
    0x7FF0_0000_0000_0001,
    0xFFFF_FFFF_FFFF_FFFF,
    0x8FF8_0000_0000_0000,
    0x0008_0000_0000_0000,
];

#[test]
fn type_names() {
    assert_eq!(wabt2rust_type(&Value::I32(1)), "i32");
    assert_eq!(wabt2rust_type(&Value::I64(1)), "i64");
    assert_eq!(wabt2rust_type(&single(0)), "f32");
    assert_eq!(wabt2rust_type(&double(0)), "f64");
}

#[test]
fn type_destructure_patterns() {
    assert_eq!(wabt2rust_type_destructure(&Value::I32(1), "result"), "Value::I32(result)");
    assert_eq!(wabt2rust_type_destructure(&Value::I64(1), "expected"), "Value::I64(expected)");
    assert_eq!(wabt2rust_type_destructure(&single(0), "result"), "Value::F32(result)");
    assert_eq!(wabt2rust_type_destructure(&double(0), ""), "Value::F64()");
}

#[test]
fn integers_are_cast_to_their_width() {
    assert_eq!(wabt2rust_value(&Value::I32(5)), "Value::I32(5 as i32)");
    assert_eq!(wabt2rust_value(&Value::I32(0)), "Value::I32(0 as i32)");
    assert_eq!(wabt2rust_value(&Value::I32(-1)), "Value::I32(-1 as i32)");
    assert_eq!(wabt2rust_value(&Value::I32(i32::MIN)), "Value::I32(-2147483648 as i32)");
    assert_eq!(wabt2rust_value(&Value::I32(i32::MAX)), "Value::I32(2147483647 as i32)");
    assert_eq!(wabt2rust_value(&Value::I64(10)), "Value::I64(10 as i64)");
    assert_eq!(
        wabt2rust_value(&Value::I64(i64::MIN)),
        "Value::I64(-9223372036854775808 as i64)"
    );
    assert_eq!(
        wabt2rust_value(&Value::I64(i64::MAX)),
        "Value::I64(9223372036854775807 as i64)"
    );
}

#[test]
fn bare_integers() {
    assert_eq!(wabt2rust_value_bare(&Value::I32(5)), "5 as i32");
    assert_eq!(wabt2rust_value_bare(&Value::I32(-120)), "-120 as i32");
    assert_eq!(wabt2rust_value_bare(&Value::I64(1000000007)), "1000000007 as i64");
    assert_eq!(wabt2rust_value_bare(&Value::I64(i64::MIN)), "-9223372036854775808 as i64");
}

#[test]
fn integers_agree_with_the_standard_formatter() {
    for i in [0i64, 1, 9, 10, 11, 99, 100, 101, -1, -9, -10, -100, 4294967296, i64::MAX, i64::MIN] {
        assert_eq!(wabt2rust_value_bare(&Value::I64(i)), format!("{:?} as i64", i));
        assert_eq!(wabt2rust_value(&Value::I64(i)), format!("Value::I64({:?} as i64)", i));
    }
    for i in [0i32, 7, 10, 12345, -1, -10, -12345, i32::MAX, i32::MIN] {
        assert_eq!(wabt2rust_value_bare(&Value::I32(i)), format!("{:?} as i32", i));
        assert_eq!(wabt2rust_value(&Value::I32(i)), format!("Value::I32({:?} as i32)", i));
    }
}

#[test]
fn infinities_are_named_constants() {
    assert_eq!(wabt2rust_value(&single(0x7F80_0000)), "Value::F32(f32::INFINITY)");
    assert_eq!(wabt2rust_value(&single(0xFF80_0000)), "Value::F32(f32::NEG_INFINITY)");
    assert_eq!(wabt2rust_value(&double(0x7FF0_0000_0000_0000)), "Value::F64(f64::INFINITY)");
    assert_eq!(wabt2rust_value(&double(0xFFF0_0000_0000_0000)), "Value::F64(f64::NEG_INFINITY)");
    assert_eq!(wabt2rust_value_bare(&single(0x7F80_0000)), "f32::INFINITY");
    assert_eq!(wabt2rust_value_bare(&single(0xFF80_0000)), "f32::NEG_INFINITY");
    assert_eq!(wabt2rust_value_bare(&double(0x7FF0_0000_0000_0000)), "f64::INFINITY");
    assert_eq!(wabt2rust_value_bare(&double(0xFFF0_0000_0000_0000)), "f64::NEG_INFINITY");
}

#[test]
fn nans_are_rebuilt_from_their_bits() {
    assert_eq!(wabt2rust_value(&single(0x7FC0_0000)), "Value::F32(f32::from_bits(2143289344))");
    assert_eq!(wabt2rust_value(&single(0xFFC0_0000)), "Value::F32(f32::from_bits(4290772992))");
    assert_eq!(wabt2rust_value(&single(0x7FA0_0000)), "Value::F32(f32::from_bits(2141192192))");
    assert_eq!(wabt2rust_value(&single(0x7F80_0001)), "Value::F32(f32::from_bits(2139095041))");
    assert_eq!(wabt2rust_value(&single(0xFFFF_FFFF)), "Value::F32(f32::from_bits(4294967295))");
    assert_eq!(
        wabt2rust_value(&double(0x7FF8_0000_0000_0000)),
        "Value::F64(f64::from_bits(9221120237041090560))"
    );
    assert_eq!(
        wabt2rust_value(&double(0xFFFF_FFFF_FFFF_FFFF)),
        "Value::F64(f64::from_bits(18446744073709551615))"
    );
    assert_eq!(wabt2rust_value_bare(&single(0x7FC0_0000)), "f32::from_bits(2143289344)");
    assert_eq!(
        wabt2rust_value_bare(&double(0x7FF0_0000_0000_0001)),
        "f64::from_bits(9218868437227405313)"
    );
}

#[test]
fn nan_literals_read_back_to_the_same_bits() {
    for bits in SINGLE_PATTERNS {
        if f32::from_bits(bits).is_nan() {
            let text = wabt2rust_value_bare(&single(bits));
            let digits = text.strip_prefix("f32::from_bits(").unwrap().strip_suffix(")").unwrap();
            assert_eq!(digits.parse::<u32>().unwrap(), bits);
        }
    }
    for bits in DOUBLE_PATTERNS {
        if f64::from_bits(bits).is_nan() {
            let text = wabt2rust_value_bare(&double(bits));
            let digits = text.strip_prefix("f64::from_bits(").unwrap().strip_suffix(")").unwrap();
            assert_eq!(digits.parse::<u64>().unwrap(), bits);
        }
    }
}

#[test]
fn finite_floats_are_written_by_their_decimal_text() {
    assert_eq!(wabt2rust_value(&single(0x3FC0_0000)), "Value::F32((1.5f32))");
    assert_eq!(wabt2rust_value(&single(0x8000_0000)), "Value::F32((-0.0f32))");
    assert_eq!(wabt2rust_value(&single(0x0000_0000)), "Value::F32((0.0f32))");
    assert_eq!(wabt2rust_value(&double(0x3FF8_0000_0000_0000)), "Value::F64((1.5f64))");
    assert_eq!(wabt2rust_value(&double(0xBFF8_0000_0000_0000)), "Value::F64((-1.5f64))");
    assert_eq!(wabt2rust_value_bare(&single(0x3FC0_0000)), "1.5");
    assert_eq!(wabt2rust_value_bare(&double(0x8000_0000_0000_0000)), "-0.0");
    let given = Value::F32(Float32 { bits: 0x3F80_0000, decimal: String::from("1.0") });
    assert_eq!(wabt2rust_value(&given), "Value::F32((1.0f32))");
    assert_eq!(wabt2rust_value_bare(&given), "1.0");
}

#[test]
fn finite_literals_read_back_to_the_same_bits() {
    for bits in SINGLE_PATTERNS {
        let value = f32::from_bits(bits);
        if value.is_finite() {
            let text = wabt2rust_value_bare(&single(bits));
            assert_eq!(text.parse::<f32>().unwrap().to_bits(), bits);
        }
    }
    for bits in DOUBLE_PATTERNS {
        let value = f64::from_bits(bits);
        if value.is_finite() {
            let text = wabt2rust_value_bare(&double(bits));
            assert_eq!(text.parse::<f64>().unwrap().to_bits(), bits);
        }
    }
}

#[test]
fn only_float_nans_are_nan() {
    assert!(!is_nan(&Value::I32(0x7FC0_0000)));
    assert!(!is_nan(&Value::I64(0x7FF8_0000_0000_0000)));
    assert!(is_nan(&single(0x7FC0_0000)));
    assert!(is_nan(&single(0xFF80_0001)));
    assert!(!is_nan(&single(0x7F80_0000)));
    assert!(!is_nan(&single(0x3F80_0000)));
    assert!(is_nan(&double(0x7FF8_0000_0000_0000)));
    assert!(is_nan(&double(0xFFF0_0000_0000_0001)));
    assert!(!is_nan(&double(0xFFF0_0000_0000_0000)));
    assert!(!is_nan(&double(0)));
}

#[test]
fn classification_agrees_with_the_floats() {
    for bits in SINGLE_PATTERNS {
        let value = f32::from_bits(bits);
        assert_eq!(f32_is_nan(bits), value.is_nan(), "{:#x}", bits);
        assert_eq!(f32_is_infinite(bits), value.is_infinite(), "{:#x}", bits);
        assert_eq!(f32_is_sign_negative(bits), value.is_sign_negative(), "{:#x}", bits);
        assert_eq!(
            f32_is_quiet_nan(bits),
            value.is_nan() && (bits & (1 << 22)) == (1 << 22),
            "{:#x}",
            bits
        );
    }
    for bits in DOUBLE_PATTERNS {
        let value = f64::from_bits(bits);
        assert_eq!(f64_is_nan(bits), value.is_nan(), "{:#x}", bits);
        assert_eq!(f64_is_infinite(bits), value.is_infinite(), "{:#x}", bits);
        assert_eq!(f64_is_sign_negative(bits), value.is_sign_negative(), "{:#x}", bits);
        assert_eq!(
            f64_is_quiet_nan(bits),
            value.is_nan() && (bits & (1 << 51)) == (1 << 51),
            "{:#x}",
            bits
        );
    }
}

#[test]
fn quiet_nan_goes_by_the_top_mantissa_bit() {
    assert!(f32_is_quiet_nan(0x7FC0_0000));
    assert!(f32_is_quiet_nan(0xFFC0_0000));
    assert!(f32_is_quiet_nan(0x7FC0_0001));
    assert!(f32_is_quiet_nan(0x7FFF_FFFF));
    assert!(!f32_is_quiet_nan(0x7FA0_0000));
    assert!(!f32_is_quiet_nan(0x7F80_0001));
    assert!(!f32_is_quiet_nan(0x7FBF_FFFF));
    assert!(!f32_is_quiet_nan(0x3FC0_0000));
    assert!(!f32_is_quiet_nan(0x7F80_0000));
    assert!(f64_is_quiet_nan(0x7FF8_0000_0000_0000));
    assert!(f64_is_quiet_nan(0xFFF8_0000_0000_0001));
    assert!(!f64_is_quiet_nan(0x7FF4_0000_0000_0000));
    assert!(!f64_is_quiet_nan(0x7FF7_FFFF_FFFF_FFFF));
    assert!(!f64_is_quiet_nan(0x3FF8_0000_0000_0000));
    assert!(!f64_is_quiet_nan(0x7FF0_0000_0000_0000));
}

#[test]
fn canonical_nan_is_one_pattern_per_sign() {
    assert!(f32_is_canonical_nan(0x7FC0_0000));
    assert!(f32_is_canonical_nan(0xFFC0_0000));
    assert!(!f32_is_canonical_nan(0x7FC0_0001));
    assert!(!f32_is_canonical_nan(0x7FA0_0000));
    assert!(!f32_is_canonical_nan(0x7F80_0000));
    assert!(!f32_is_canonical_nan(0x0040_0000));
    assert!(!f32_is_canonical_nan(0));
    assert!(f64_is_canonical_nan(0x7FF8_0000_0000_0000));
    assert!(f64_is_canonical_nan(0xFFF8_0000_0000_0000));
    assert!(!f64_is_canonical_nan(0x8FF8_0000_0000_0000));
    assert!(!f64_is_canonical_nan(0x7FF8_0000_0000_0001));
    assert!(!f64_is_canonical_nan(0x7FF0_0000_0000_0000));
    assert!(!f64_is_canonical_nan(0));
    for bits in SINGLE_PATTERNS {
        let flipped = bits ^ 0b1_00000000_01111111111111111111111;
        assert_eq!(f32_is_canonical_nan(bits), flipped == 0xFFFF_FFFF || flipped == 0x7FFF_FFFF);
    }
}

#[test]
fn literals_of_a_list_keep_its_order() {
    let values = vec![Value::I32(2), single(0x7FC0_0000), Value::I64(-3), double(0x3FF8_0000_0000_0000)];
    assert_eq!(
        value_literals(&values),
        vec![
            "Value::I32(2 as i32)",
            "Value::F32(f32::from_bits(2143289344))",
            "Value::I64(-3 as i64)",
            "Value::F64((1.5f64))",
        ]
    );
    assert!(value_literals(&Vec::new()).is_empty());
}
