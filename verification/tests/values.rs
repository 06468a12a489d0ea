//! Tests for the payload model: every value kind classifies as the
//! host-facing type accessor says.
use netidx_bridge::value::{Event, EventType, Value, ValueType};

#[test]
fn integer_kinds() {
    assert_eq!(Value::U32(1).kind(), ValueType::Integer);
    assert_eq!(Value::V32(1).kind(), ValueType::Integer);
    assert_eq!(Value::I32(-1).kind(), ValueType::Integer);
    assert_eq!(Value::Z32(-1).kind(), ValueType::Integer);
    assert_eq!(Value::U64(1).kind(), ValueType::Integer);
    assert_eq!(Value::V64(1).kind(), ValueType::Integer);
    assert_eq!(Value::I64(-1).kind(), ValueType::Integer);
    assert_eq!(Value::Z64(-1).kind(), ValueType::Integer);
}

#[test]
fn float_kinds() {
    assert_eq!(Value::F32Bits(0x4048_F5C3).kind(), ValueType::Float);
    assert_eq!(Value::F64Bits(0x4009_21FB_5444_2D18).kind(), ValueType::Float);
}

#[test]
fn float_bits_round_trip() {
    // the model carries raw IEEE-754 bits; the host layer converts
    let bits = (3.14_f32).to_bits();
    if let Value::F32Bits(b) = Value::F32Bits(bits) {
        assert_eq!(f32::from_bits(b), 3.14_f32);
    } else {
        unreachable!();
    }
}

#[test]
fn scalar_kinds() {
    assert_eq!(Value::Null.kind(), ValueType::Null);
    assert_eq!(Value::True.kind(), ValueType::Boolean);
    assert_eq!(Value::False.kind(), ValueType::Boolean);
    assert_eq!(Value::Text("hi".to_string()).kind(), ValueType::String);
    assert_eq!(Value::Bytes(vec![1, 2, 3]).kind(), ValueType::Buffer);
    assert_eq!(Value::Duration { secs: 1, nanos: 500_000_000 }.kind(), ValueType::Duration);
    assert_eq!(Value::DateTime { secs: 1_700_000_000, nanos: 0 }.kind(), ValueType::DateTime);
}

#[test]
fn result_and_array_kinds() {
    assert_eq!(Value::ResultOk.kind(), ValueType::Result);
    assert_eq!(Value::ResultError("boom".to_string()).kind(), ValueType::Result);
    let nested = Value::Array(vec![Value::U32(1), Value::Array(vec![Value::Null])]);
    assert_eq!(nested.kind(), ValueType::Array);
}

#[test]
fn event_kinds() {
    assert_eq!(Event::Unsubscribed.kind(), EventType::Unsubscribed);
    assert_eq!(Event::Update(Value::Null).kind(), EventType::Update);
}

#[test]
fn values_compare_structurally() {
    assert_eq!(Value::Text("a".to_string()), Value::Text("a".to_string()));
    assert_ne!(Value::Text("a".to_string()), Value::Text("b".to_string()));
    assert_ne!(Value::U32(1), Value::V32(1));
}
