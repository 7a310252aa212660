use wasm_bridge::value::{
    coerce_value, host_int_of, to_host_value, to_typed_value, ConversionError, HostFloat,
    HostValue, TypedValue, ValueKind,
};

fn host_i(i: i128) -> HostValue {
    host_int_of(i < 0, i.unsigned_abs())
}

#[test]
fn round_trip_every_scalar_kind() {
    let cases = vec![
        (host_i(-5), ValueKind::I32),
        (host_i(i32::MAX as i128), ValueKind::I32),
        (host_i(i64::MIN as i128), ValueKind::I64),
        (HostValue::Float(HostFloat::Single(1.5f32.to_bits())), ValueKind::F32),
        (HostValue::Float(HostFloat::Double((-2.25f64).to_bits())), ValueKind::F64),
    ];
    for (h, k) in cases {
        let t = to_typed_value(&h, k).unwrap();
        assert_eq!(t.kind(), k);
        assert_eq!(to_host_value(t), h);
    }
}

#[test]
fn typed_values_become_host_values() {
    assert_eq!(to_host_value(TypedValue::I32(-7)), host_i(-7));
    assert_eq!(to_host_value(TypedValue::I64(i64::MIN)), host_i(i64::MIN as i128));
    assert_eq!(
        to_host_value(TypedValue::V128(u128::MAX)),
        HostValue::Int { negative: false, magnitude: u128::MAX }
    );
    assert_eq!(
        f64::from_bits(match to_host_value(TypedValue::F64(0.5f64.to_bits())) {
            HostValue::Float(HostFloat::Double(b)) => b,
            _ => panic!("not a double"),
        }),
        0.5
    );
}

#[test]
fn integer_overflow_is_rejected() {
    assert_eq!(
        to_typed_value(&host_i(i32::MAX as i128 + 1), ValueKind::I32),
        Err(ConversionError::Overflow { expected: ValueKind::I32 })
    );
    assert_eq!(to_typed_value(&host_i(i32::MIN as i128), ValueKind::I32), Ok(TypedValue::I32(i32::MIN)));
    assert_eq!(
        to_typed_value(&host_i(i32::MIN as i128 - 1), ValueKind::I32),
        Err(ConversionError::Overflow { expected: ValueKind::I32 })
    );
    assert_eq!(
        to_typed_value(&host_i(-1), ValueKind::V128),
        Err(ConversionError::Overflow { expected: ValueKind::V128 })
    );
    assert_eq!(to_typed_value(&host_i(3), ValueKind::V128), Ok(TypedValue::V128(3)));
}

#[test]
fn kind_mismatch_is_rejected() {
    assert_eq!(
        to_typed_value(&HostValue::Other, ValueKind::F64),
        Err(ConversionError::TypeMismatch { expected: ValueKind::F64 })
    );
    assert_eq!(
        to_typed_value(&host_i(1), ValueKind::F32),
        Err(ConversionError::TypeMismatch { expected: ValueKind::F32 })
    );
    assert_eq!(
        to_typed_value(&HostValue::Float(HostFloat::Double(0)), ValueKind::I64),
        Err(ConversionError::TypeMismatch { expected: ValueKind::I64 })
    );
    assert_eq!(
        to_typed_value(&HostValue::Nothing, ValueKind::I32),
        Err(ConversionError::TypeMismatch { expected: ValueKind::I32 })
    );
}

#[test]
fn pretagged_values_are_used_as_they_are() {
    let h = HostValue::Typed(TypedValue::I64(9));
    assert_eq!(coerce_value(&h, ValueKind::I64, false), Ok(TypedValue::I64(9)));
    assert_eq!(coerce_value(&h, ValueKind::I32, false), Ok(TypedValue::I64(9)));
    assert_eq!(coerce_value(&h, ValueKind::I64, true), Ok(TypedValue::I64(9)));
    assert_eq!(
        coerce_value(&h, ValueKind::I32, true),
        Err(ConversionError::TypeMismatch { expected: ValueKind::I32 })
    );
}

#[test]
fn negative_zero_is_canonical() {
    assert_eq!(host_int_of(true, 0), HostValue::Int { negative: false, magnitude: 0 });
}
