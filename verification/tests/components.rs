use serde_traitobject::convenience::{Any, Arc, Box, Display, Error, Fn, FnMut, FnOnce, Rc};
use serde_traitobject::fingerprint::{build_fingerprint, type_fingerprint};
use serde_traitobject::registry::{Registry, TABLE_STRIDE};
use serde_traitobject::relref::RelativeReference;
use serde_traitobject::wire::{serialize_value, PolymorphicValue, TypeShape, Value};
use serde_traitobject::{deserialize, serialize};

// FNV-1a of the empty input is the offset basis; the other values are the
// published test vectors of the function.
#[test]
fn type_fingerprint_exact_values() {
    assert_eq!(type_fingerprint(b""), 0xcbf2_9ce4_8422_2325);
    assert_eq!(type_fingerprint(b"a"), 0xaf63_dc4c_8601_ec8c);
    assert_eq!(type_fingerprint(b"Hello"), 0x63f0_bfac_f2c0_0f6b);
}

// The build fingerprint is a constant of the binary: the same at every
// call, with a known value for this wire-format tag.
#[test]
fn build_fingerprint_stable() {
    let first = build_fingerprint();
    let second = build_fingerprint();
    assert_eq!(first, second);
    assert_eq!(first, 0x69e0_27e4_d175_7277_b806_e999_04fe_6793);
}

// Fingerprints of a representative set of distinct type names are pairwise
// distinct.
#[test]
fn fingerprints_pairwise_distinct() {
    let names: Vec<Vec<u8>> = (0..20u32)
        .map(|i| format!("Type{}", i).into_bytes())
        .collect();
    let mut fps: Vec<u64> = names.iter().map(|n| type_fingerprint(n)).collect();
    fps.push(Any::fingerprint());
    fps.push(Error::fingerprint());
    fps.push(Display::fingerprint());
    fps.push(serde_traitobject::convenience::Debug::fingerprint());
    fps.push(FnOnce::fingerprint());
    fps.push(FnMut::fingerprint());
    fps.push(Fn::fingerprint());
    for i in 0..fps.len() {
        for j in 0..i {
            assert_ne!(fps[i], fps[j], "collision between {} and {}", i, j);
        }
    }
}

#[test]
fn interface_fingerprints_match_names() {
    assert_eq!(Any::fingerprint(), type_fingerprint(b"Any"));
    assert_eq!(Error::fingerprint(), type_fingerprint(b"Error"));
    assert_eq!(Display::fingerprint(), type_fingerprint(b"Display"));
    assert_eq!(serde_traitobject::convenience::Debug::fingerprint(), type_fingerprint(b"Debug"));
    assert_eq!(FnOnce::fingerprint(), type_fingerprint(b"FnOnce"));
    assert_eq!(FnMut::fingerprint(), type_fingerprint(b"FnMut"));
    assert_eq!(Fn::fingerprint(), type_fingerprint(b"Fn"));
}

#[test]
fn relative_reference_round_trip() {
    let anchor = 0x5000u64;
    let dispatch = 0x5040u64;
    let r = RelativeReference::encode(dispatch, anchor);
    assert_eq!(r.offset, 0x40);
    assert_eq!(r.decode(anchor), dispatch);
}

// A dispatch table below the anchor still round-trips: the offset wraps as
// a two's-complement displacement.
#[test]
fn relative_reference_negative_displacement() {
    let anchor = u64::MAX - 10;
    let dispatch = 5u64;
    let r = RelativeReference::encode(dispatch, anchor);
    assert_eq!(r.decode(anchor), dispatch);
    let below = RelativeReference::encode(0x1000, 0x2000);
    assert_eq!(below.offset, (0x1000u64).wrapping_sub(0x2000));
    assert_eq!(below.decode(0x2000), 0x1000);
}

// The same displacement resolves correctly under another invocation's
// anchor.
#[test]
fn relative_reference_rebased() {
    let r = RelativeReference::encode(0x1040, 0x1000);
    assert_eq!(r.decode(0x9000), 0x9040);
}

#[test]
fn registry_assigns_strided_addresses() {
    let mut reg = Registry::new(0x1000);
    assert_eq!(reg.len(), 1);
    assert_eq!(reg.anchor(), 0x1000);
    let a = reg.register(1, 2, 3).unwrap();
    let b = reg.register(4, 5, 6).unwrap();
    assert_eq!(a, 0x1000 + TABLE_STRIDE);
    assert_eq!(b, 0x1000 + 2 * TABLE_STRIDE);
    assert_eq!(reg.len(), 3);
    let table = reg.resolve(b).unwrap();
    assert_eq!((table.interface, table.concrete, table.layout), (4, 5, 6));
    assert!(reg.resolve(b + 1).is_none());
}

// Registration fails exactly when the next table would fall outside the
// address space.
#[test]
fn registry_register_out_of_space() {
    let mut reg = Registry::new(u64::MAX - TABLE_STRIDE);
    assert_eq!(reg.register(1, 1, 1), Some(u64::MAX));
    assert_eq!(reg.register(2, 2, 2), None);
    assert_eq!(reg.len(), 2);
}

#[test]
fn erased_payload_round_trip() {
    let mut out: Vec<u8> = Vec::new();
    serde_traitobject::erased::serialize_erased(&[9, 8, 7], &mut out);
    assert_eq!(out, vec![3, 0, 0, 0, 0, 0, 0, 0, 9, 8, 7]);
    let (data, next) = serde_traitobject::erased::deserialize_erased(&out, 0, 3).unwrap();
    assert_eq!(data, vec![9, 8, 7]);
    assert_eq!(next, 11);
    assert!(serde_traitobject::erased::deserialize_erased(&out, 0, 2).is_err());
}

fn hello_box(reg_base: u64) -> (Registry, TypeShape, Value) {
    let iface = type_fingerprint(b"Hello");
    let mut reg = Registry::new(reg_base);
    let addr = reg.register(iface, type_fingerprint(b"Greeter"), 2).unwrap();
    let shape = TypeShape::Dynamic { interface: iface };
    let v = Value::Polymorphic {
        inner: PolymorphicValue { dispatch: addr, data: vec![4, 5] },
    };
    (reg, shape, v)
}

// A shared-owner wrapper and its clone serialize to the same bytes as the
// exclusive-owner wrapper of the same value.
#[test]
fn shared_owners_serialize_like_exclusive() {
    let (reg, shape, v) = hello_box(0x3000);
    let via_box = serialize(&Box::new(shape, v.clone()), &reg).unwrap();
    let rc = Rc::new(shape, v.clone());
    let rc_clone = rc.clone();
    assert_eq!(serialize(&rc, &reg).unwrap(), via_box);
    assert_eq!(serialize(&rc_clone, &reg).unwrap(), via_box);
    let arc = Arc::new(shape, v.clone());
    let arc_clone = arc.clone();
    assert_eq!(serialize(&arc, &reg).unwrap(), via_box);
    assert_eq!(serialize(&arc_clone, &reg).unwrap(), via_box);
}

#[test]
fn shared_owners_deserialize() {
    let (reg, shape, v) = hello_box(0x3000);
    let bytes = serialize_value(&shape, &v, &reg).unwrap();
    let rc: Rc = deserialize(&shape, &bytes, &reg).unwrap();
    assert_eq!(serialize(&rc, &reg).unwrap(), bytes);
    let arc: Arc = deserialize(&shape, &bytes, &reg).unwrap();
    assert_eq!(serialize(&arc, &reg).unwrap(), bytes);
}

// The erasing conversions all hand back the same polymorphic value; the
// thread markers live in the type system alone.
#[test]
fn into_any_family() {
    let (_, shape, v) = hello_box(0x3000);
    let expect = match &v {
        Value::Polymorphic { inner } => inner.clone(),
        _ => unreachable!(),
    };
    assert_eq!(Box::new(shape, v.clone()).into_any(), expect);
    assert_eq!(Box::new(shape, v.clone()).into_any_send(), expect);
    assert_eq!(Box::new(shape, v.clone()).into_any_sync(), expect);
    assert_eq!(Box::new(shape, v.clone()).into_any_send_sync(), expect);
}

// An erased value is narrowed again by comparing concrete fingerprints, as
// a downcast would.
#[test]
fn downcast_by_concrete_fingerprint() {
    let (reg, shape, v) = hello_box(0x3000);
    let bytes = serialize(&Box::new(shape, v), &reg).unwrap();
    let back: Box = deserialize(&shape, &bytes, &reg).unwrap();
    let poly = back.into_any();
    let table = reg.resolve(poly.dispatch).unwrap();
    assert_eq!(table.concrete, type_fingerprint(b"Greeter"));
    assert_ne!(table.concrete, type_fingerprint(b"Message"));
    assert_eq!(poly.data, vec![4, 5]);
}

#[test]
fn wrapper_accessors() {
    let (_, shape, v) = hello_box(0x3000);
    let b = Box::new(shape, v.clone());
    assert_eq!(b.shape(), shape);
    assert_eq!(b.as_ref(), &v);
    let rc = Rc::new(shape, v.clone());
    assert_eq!(rc.shape(), shape);
    assert_eq!(rc.as_ref(), &v);
    let arc = Arc::new(shape, v.clone());
    assert_eq!(arc.shape(), shape);
    assert_eq!(arc.as_ref(), &v);
}
