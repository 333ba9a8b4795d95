use serde_traitobject::errors::{DecodeError, DecodeIssue, EncodeError};
use serde_traitobject::fingerprint::type_fingerprint;
use serde_traitobject::registry::Registry;
use serde_traitobject::wire::{
    deserialize_value, serialize_value, PolymorphicValue, TypeShape, Value,
};

fn registry_with(base: u64, interface: u64, concrete: u64, layout: usize) -> (Registry, u64) {
    let mut reg = Registry::new(base);
    let addr = reg.register(interface, concrete, layout).unwrap();
    (reg, addr)
}

fn hello_setup() -> (Registry, u64, TypeShape, Value, Vec<u8>) {
    let iface = type_fingerprint(b"Hello");
    let conc = type_fingerprint(b"Greeter");
    let (reg, addr) = registry_with(0x4000, iface, conc, 2);
    let shape = TypeShape::Dynamic { interface: iface };
    let v = Value::Polymorphic {
        inner: PolymorphicValue { dispatch: addr, data: vec![0x11, 0x22] },
    };
    let bytes = serialize_value(&shape, &v, &reg).unwrap();
    (reg, addr, shape, v, bytes)
}

fn expect_recoverable(r: Result<Value, DecodeIssue>, error: DecodeError) {
    assert_eq!(r, Err(DecodeIssue::Error { error }));
}

#[test]
fn encode_shape_mismatch() {
    let reg = Registry::new(0x1000);
    let r = serialize_value(
        &TypeShape::Sized { size: 2 },
        &Value::Sequence { elems: vec![] },
        &reg,
    );
    assert_eq!(r, Err(EncodeError::ShapeMismatch));
}

#[test]
fn encode_wrong_size_for_sized() {
    let reg = Registry::new(0x1000);
    let r = serialize_value(
        &TypeShape::Sized { size: 4 },
        &Value::Sized { bytes: vec![1, 2, 3] },
        &reg,
    );
    assert_eq!(r, Err(EncodeError::WrongSize));
}

#[test]
fn encode_wrong_size_for_sequence_element() {
    let reg = Registry::new(0x1000);
    let r = serialize_value(
        &TypeShape::Sequence { elem: 2 },
        &Value::Sequence { elems: vec![vec![1, 2], vec![3]] },
        &reg,
    );
    assert_eq!(r, Err(EncodeError::WrongSize));
}

#[test]
fn encode_unknown_dispatch() {
    let iface = type_fingerprint(b"Hello");
    let (reg, addr) = registry_with(0x4000, iface, type_fingerprint(b"Greeter"), 2);
    let v = Value::Polymorphic {
        inner: PolymorphicValue { dispatch: addr + 1, data: vec![1, 2] },
    };
    let r = serialize_value(&TypeShape::Dynamic { interface: iface }, &v, &reg);
    assert_eq!(r, Err(EncodeError::UnknownDispatch));
}

#[test]
fn encode_interface_mismatch() {
    let iface = type_fingerprint(b"Hello");
    let other = type_fingerprint(b"Other");
    let (reg, addr) = registry_with(0x4000, iface, type_fingerprint(b"Greeter"), 2);
    let v = Value::Polymorphic {
        inner: PolymorphicValue { dispatch: addr, data: vec![1, 2] },
    };
    let r = serialize_value(&TypeShape::Dynamic { interface: other }, &v, &reg);
    assert_eq!(r, Err(EncodeError::InterfaceMismatch));
}

#[test]
fn encode_layout_mismatch() {
    let iface = type_fingerprint(b"Hello");
    let (reg, addr) = registry_with(0x4000, iface, type_fingerprint(b"Greeter"), 2);
    let v = Value::Polymorphic {
        inner: PolymorphicValue { dispatch: addr, data: vec![1, 2, 3] },
    };
    let r = serialize_value(&TypeShape::Dynamic { interface: iface }, &v, &reg);
    assert_eq!(r, Err(EncodeError::LayoutMismatch));
}

#[test]
fn decode_truncated_sized() {
    let reg = Registry::new(0x1000);
    let r = deserialize_value(&TypeShape::Sized { size: 4 }, &[1, 2, 3], &reg);
    expect_recoverable(r, DecodeError::Truncated);
}

#[test]
fn decode_trailing_sized() {
    let reg = Registry::new(0x1000);
    let r = deserialize_value(&TypeShape::Sized { size: 2 }, &[1, 2, 3], &reg);
    expect_recoverable(r, DecodeError::Trailing);
}

#[test]
fn decode_truncated_sequence_header() {
    let reg = Registry::new(0x1000);
    let r = deserialize_value(&TypeShape::Sequence { elem: 2 }, &[3, 0, 0], &reg);
    expect_recoverable(r, DecodeError::Truncated);
}

#[test]
fn decode_truncated_sequence_body() {
    let reg = Registry::new(0x1000);
    let input = vec![2, 0, 0, 0, 0, 0, 0, 0, 1, 2, 3];
    let r = deserialize_value(&TypeShape::Sequence { elem: 2 }, &input, &reg);
    expect_recoverable(r, DecodeError::Truncated);
}

#[test]
fn decode_trailing_sequence() {
    let reg = Registry::new(0x1000);
    let input = vec![1, 0, 0, 0, 0, 0, 0, 0, 1, 2, 3];
    let r = deserialize_value(&TypeShape::Sequence { elem: 2 }, &input, &reg);
    expect_recoverable(r, DecodeError::Trailing);
}

#[test]
fn decode_truncated_envelope() {
    let (reg, _, shape, _, bytes) = hello_setup();
    let r = deserialize_value(&shape, &bytes[..47], &reg);
    expect_recoverable(r, DecodeError::Truncated);
}

#[test]
fn decode_truncated_payload() {
    let (reg, _, shape, _, bytes) = hello_setup();
    let r = deserialize_value(&shape, &bytes[..49], &reg);
    expect_recoverable(r, DecodeError::Truncated);
}

#[test]
fn decode_trailing_envelope() {
    let (reg, _, shape, _, mut bytes) = hello_setup();
    bytes.push(0);
    let r = deserialize_value(&shape, &bytes, &reg);
    expect_recoverable(r, DecodeError::Trailing);
}

// A corrupted build fingerprint is rejected before the reference is even
// resolved.
#[test]
fn decode_build_mismatch() {
    let (reg, _, shape, _, mut bytes) = hello_setup();
    bytes[0] ^= 0xff;
    let r = deserialize_value(&shape, &bytes, &reg);
    expect_recoverable(r, DecodeError::BuildMismatch);
}

#[test]
fn decode_interface_mismatch() {
    let (reg, _, shape, _, mut bytes) = hello_setup();
    bytes[16] ^= 0xff;
    let r = deserialize_value(&shape, &bytes, &reg);
    expect_recoverable(r, DecodeError::InterfaceMismatch);
}

// A corrupted offset resolves to no registered table.
#[test]
fn decode_unknown_reference() {
    let (reg, _, shape, _, mut bytes) = hello_setup();
    bytes[24] ^= 0x01;
    let r = deserialize_value(&shape, &bytes, &reg);
    expect_recoverable(r, DecodeError::UnknownReference);
}

#[test]
fn decode_payload_size_mismatch() {
    let (reg, _, shape, _, mut bytes) = hello_setup();
    bytes[40] ^= 0x01;
    let r = deserialize_value(&shape, &bytes, &reg);
    expect_recoverable(r, DecodeError::PayloadSize);
}

// A corrupted concrete-type fingerprint passes every recoverable check and
// is caught only by the final consistency confirmation, which is fatal.
#[test]
fn decode_inconsistency_is_fatal() {
    let (reg, _, shape, _, mut bytes) = hello_setup();
    bytes[32] ^= 0x01;
    let r = deserialize_value(&shape, &bytes, &reg);
    assert_eq!(r, Err(DecodeIssue::Inconsistency));
}

// The build fingerprint is checked ahead of everything else in the
// envelope: corrupt both it and the interface, and the build mismatch is
// what is reported.
#[test]
fn build_check_comes_first() {
    let (reg, _, shape, _, mut bytes) = hello_setup();
    bytes[0] ^= 0xff;
    bytes[16] ^= 0xff;
    let r = deserialize_value(&shape, &bytes, &reg);
    expect_recoverable(r, DecodeError::BuildMismatch);
}
