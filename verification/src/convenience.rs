//! Ownership wrappers and named capability interfaces.
//!
//! The wrappers pair a value with the shape of the static type it is
//! handled under and route serialization through the wire protocol: `Box`
//! owns its value exclusively, `Rc` shares it within one thread by
//! reference counting, `Arc` shares it across threads with atomic counting.
//! Otherwise they behave like the ownership primitives they mirror.
//!
//! The unit types at the end name the capability interfaces commonly
//! erased to — any value, errors, printable and debuggable values, and the
//! three calling conventions of callable values — each with the
//! fingerprint its name hashes to.

use vstd::prelude::*;

use crate::errors::{DecodeIssue, EncodeError};
use crate::fingerprint::{fingerprint_of, type_fingerprint};
use crate::registry::Registry;
use crate::wire::{
    deserialize_value, serialize_value, PolymorphicValue, TypeShape, Value, ValueView,
};
use crate::{Deserialize, Serialize};

verus! {

/// Relies on `std::rc::Rc`'s `Deref`: borrows the shared value, whose view
/// is the `Rc`'s view.
#[verifier::external_body]
fn rc_borrow(rc: &std::rc::Rc<Value>) -> (r: &Value)
    ensures
        r@ == rc@,
{
    &**rc
}

/// Relies on `std::rc::Rc::clone`: returns a new counted handle to the
/// same allocation, so both handles view the same value.
#[verifier::external_body]
fn rc_clone(rc: &std::rc::Rc<Value>) -> (r: std::rc::Rc<Value>)
    ensures
        r@ == rc@,
{
    std::rc::Rc::clone(rc)
}

/// Relies on `std::sync::Arc`'s `Deref`: borrows the shared value, whose
/// view is the `Arc`'s view.
#[verifier::external_body]
fn arc_borrow(arc: &std::sync::Arc<Value>) -> (r: &Value)
    ensures
        r@ == arc@,
{
    &**arc
}

/// Relies on `std::sync::Arc::clone`: returns a new atomically counted
/// handle to the same allocation, so both handles view the same value.
#[verifier::external_body]
fn arc_clone(arc: &std::sync::Arc<Value>) -> (r: std::sync::Arc<Value>)
    ensures
        r@ == arc@,
{
    std::sync::Arc::clone(arc)
}

/// Exclusive-owner wrapper: one owner, moves transfer ownership, and
/// (de)serialization routes through the wire protocol under the carried
/// shape.
pub struct Box {
    shape: TypeShape,
    value: Value,
}

impl Box {
    /// Wraps `value`, to be serialized under the static shape `shape`.
    pub fn new(shape: TypeShape, value: Value) -> (r: Box)
        ensures
            r.shape_spec() == shape,
            r.value_spec() == value@,
    {
        Box { shape, value }
    }

    /// Borrows the contained value.
    pub fn as_ref(&self) -> (r: &Value)
        ensures
            r@ == self.value_spec(),
    {
        &self.value
    }

    /// The static shape this wrapper serializes under.
    pub fn shape(&self) -> (r: TypeShape)
        ensures
            r == self.shape_spec(),
    {
        self.shape
    }

    /// Unwraps into the ordinary exclusive-ownership primitive, shedding
    /// the serialization wrapper.
    pub fn into_box(self) -> (r: std::boxed::Box<Value>)
        ensures
            r@ == self.value_spec(),
    {
        std::boxed::Box::new(self.value)
    }

    /// Erases to the bare polymorphic value, ready to be viewed under the
    /// broadest interface.
    pub fn into_any(self) -> (r: PolymorphicValue)
        requires
            self.value_spec() matches ValueView::Polymorphic { .. },
        ensures
            (ValueView::Polymorphic { dispatch: r@.dispatch, data: r@.data }) == self.value_spec(),
    {
        match self.value {
            Value::Polymorphic { inner } => inner,
            _ => vstd::pervasive::unreached(),
        }
    }

    /// As `into_any`, for a value shared with other threads.  The thread
    /// marker lives in the type system alone; the value is the same.
    pub fn into_any_send(self) -> (r: PolymorphicValue)
        requires
            self.value_spec() matches ValueView::Polymorphic { .. },
        ensures
            (ValueView::Polymorphic { dispatch: r@.dispatch, data: r@.data }) == self.value_spec(),
    {
        self.into_any()
    }

    /// As `into_any`, for a value referenced from other threads.
    pub fn into_any_sync(self) -> (r: PolymorphicValue)
        requires
            self.value_spec() matches ValueView::Polymorphic { .. },
        ensures
            (ValueView::Polymorphic { dispatch: r@.dispatch, data: r@.data }) == self.value_spec(),
    {
        self.into_any()
    }

    /// As `into_any`, for a value both shared with and referenced from
    /// other threads.
    pub fn into_any_send_sync(self) -> (r: PolymorphicValue)
        requires
            self.value_spec() matches ValueView::Polymorphic { .. },
        ensures
            (ValueView::Polymorphic { dispatch: r@.dispatch, data: r@.data }) == self.value_spec(),
    {
        self.into_any()
    }
}

impl Clone for Box {
    /// Copies the value: the clone views the same shape and value.
    fn clone(&self) -> (r: Self)
        ensures
            r.shape_spec() == self.shape_spec(),
            r.value_spec() == self.value_spec(),
    {
        Box { shape: self.shape, value: self.value.clone() }
    }
}

impl Serialize for Box {
    closed spec fn shape_spec(&self) -> TypeShape {
        self.shape
    }

    closed spec fn value_spec(&self) -> ValueView {
        self.value@
    }

    fn serialize(&self, reg: &Registry) -> Result<Vec<u8>, EncodeError> {
        serialize_value(&self.shape, &self.value, reg)
    }
}

impl Deserialize for Box {
    fn deserialize(shape: &TypeShape, input: &[u8], reg: &Registry) -> Result<Box, DecodeIssue> {
        match deserialize_value(shape, input, reg) {
            Ok(value) => Ok(Box { shape: *shape, value }),
            Err(issue) => Err(issue),
        }
    }
}

/// Shared-owner wrapper for one thread: reference-counted, cloning shares
/// the value, and (de)serialization routes through the wire protocol under
/// the carried shape.
pub struct Rc {
    shape: TypeShape,
    value: std::rc::Rc<Value>,
}

impl Rc {
    /// Wraps `value` in a fresh shared allocation, to be serialized under
    /// the static shape `shape`.
    pub fn new(shape: TypeShape, value: Value) -> (r: Rc)
        ensures
            r.shape_spec() == shape,
            r.value_spec() == value@,
    {
        Rc { shape, value: std::rc::Rc::new(value) }
    }

    /// Borrows the shared value.
    pub fn as_ref(&self) -> (r: &Value)
        ensures
            r@ == self.value_spec(),
    {
        rc_borrow(&self.value)
    }

    /// The static shape this wrapper serializes under.
    pub fn shape(&self) -> (r: TypeShape)
        ensures
            r == self.shape_spec(),
    {
        self.shape
    }
}

impl Clone for Rc {
    /// Shares the value: the clone views the same shape and value.
    fn clone(&self) -> (r: Self)
        ensures
            r.shape_spec() == self.shape_spec(),
            r.value_spec() == self.value_spec(),
    {
        Rc { shape: self.shape, value: rc_clone(&self.value) }
    }
}

impl Serialize for Rc {
    closed spec fn shape_spec(&self) -> TypeShape {
        self.shape
    }

    closed spec fn value_spec(&self) -> ValueView {
        self.value@
    }

    fn serialize(&self, reg: &Registry) -> Result<Vec<u8>, EncodeError> {
        serialize_value(&self.shape, rc_borrow(&self.value), reg)
    }
}

impl Deserialize for Rc {
    fn deserialize(shape: &TypeShape, input: &[u8], reg: &Registry) -> Result<Rc, DecodeIssue> {
        match deserialize_value(shape, input, reg) {
            Ok(value) => Ok(Rc { shape: *shape, value: std::rc::Rc::new(value) }),
            Err(issue) => Err(issue),
        }
    }
}

/// Shared-owner wrapper for use across threads: atomically
/// reference-counted, cloning shares the value, and (de)serialization
/// routes through the wire protocol under the carried shape.
pub struct Arc {
    shape: TypeShape,
    value: std::sync::Arc<Value>,
}

impl Arc {
    /// Wraps `value` in a fresh shared allocation, to be serialized under
    /// the static shape `shape`.
    pub fn new(shape: TypeShape, value: Value) -> (r: Arc)
        ensures
            r.shape_spec() == shape,
            r.value_spec() == value@,
    {
        Arc { shape, value: std::sync::Arc::new(value) }
    }

    /// Borrows the shared value.
    pub fn as_ref(&self) -> (r: &Value)
        ensures
            r@ == self.value_spec(),
    {
        arc_borrow(&self.value)
    }

    /// The static shape this wrapper serializes under.
    pub fn shape(&self) -> (r: TypeShape)
        ensures
            r == self.shape_spec(),
    {
        self.shape
    }
}

impl Clone for Arc {
    /// Shares the value: the clone views the same shape and value.
    fn clone(&self) -> (r: Self)
        ensures
            r.shape_spec() == self.shape_spec(),
            r.value_spec() == self.value_spec(),
    {
        Arc { shape: self.shape, value: arc_clone(&self.value) }
    }
}

impl Serialize for Arc {
    closed spec fn shape_spec(&self) -> TypeShape {
        self.shape
    }

    closed spec fn value_spec(&self) -> ValueView {
        self.value@
    }

    fn serialize(&self, reg: &Registry) -> Result<Vec<u8>, EncodeError> {
        serialize_value(&self.shape, arc_borrow(&self.value), reg)
    }
}

impl Deserialize for Arc {
    fn deserialize(shape: &TypeShape, input: &[u8], reg: &Registry) -> Result<Arc, DecodeIssue> {
        match deserialize_value(shape, input, reg) {
            Ok(value) => Ok(Arc { shape: *shape, value: std::sync::Arc::new(value) }),
            Err(issue) => Err(issue),
        }
    }
}

/// The broadest capability interface: any value at all, later narrowed by
/// its concrete-type fingerprint.
pub struct Any;

impl Any {
    /// Fingerprint of the interface named "Any".
    pub open spec fn spec_fingerprint() -> u64 {
        fingerprint_of(seq![0x41u8, 0x6eu8, 0x79u8])
    }

    /// Computes the fingerprint of this interface.
    pub fn fingerprint() -> (r: u64)
        ensures
            r == Any::spec_fingerprint(),
    {
        let name: [u8; 3] = [0x41, 0x6e, 0x79];
        proof {
            assert(name@ =~= seq![0x41u8, 0x6eu8, 0x79u8]);
        }
        type_fingerprint(name.as_slice())
    }
}

/// The capability interface of error values.
pub struct Error;

impl Error {
    /// Fingerprint of the interface named "Error".
    pub open spec fn spec_fingerprint() -> u64 {
        fingerprint_of(seq![0x45u8, 0x72u8, 0x72u8, 0x6fu8, 0x72u8])
    }

    /// Computes the fingerprint of this interface.
    pub fn fingerprint() -> (r: u64)
        ensures
            r == Error::spec_fingerprint(),
    {
        let name: [u8; 5] = [0x45, 0x72, 0x72, 0x6f, 0x72];
        proof {
            assert(name@ =~= seq![0x45u8, 0x72u8, 0x72u8, 0x6fu8, 0x72u8]);
        }
        type_fingerprint(name.as_slice())
    }
}

/// The capability interface of values printable for people.
pub struct Display;

impl Display {
    /// Fingerprint of the interface named "Display".
    pub open spec fn spec_fingerprint() -> u64 {
        fingerprint_of(seq![0x44u8, 0x69u8, 0x73u8, 0x70u8, 0x6cu8, 0x61u8, 0x79u8])
    }

    /// Computes the fingerprint of this interface.
    pub fn fingerprint() -> (r: u64)
        ensures
            r == Display::spec_fingerprint(),
    {
        let name: [u8; 7] = [0x44, 0x69, 0x73, 0x70, 0x6c, 0x61, 0x79];
        proof {
            assert(name@ =~= seq![0x44u8, 0x69u8, 0x73u8, 0x70u8, 0x6cu8, 0x61u8, 0x79u8]);
        }
        type_fingerprint(name.as_slice())
    }
}

/// The capability interface of values printable for debugging, and nothing
/// more.
pub struct Debug;

impl Debug {
    /// Fingerprint of the interface named "Debug".
    pub open spec fn spec_fingerprint() -> u64 {
        fingerprint_of(seq![0x44u8, 0x65u8, 0x62u8, 0x75u8, 0x67u8])
    }

    /// Computes the fingerprint of this interface.
    pub fn fingerprint() -> (r: u64)
        ensures
            r == Debug::spec_fingerprint(),
    {
        let name: [u8; 5] = [0x44, 0x65, 0x62, 0x75, 0x67];
        proof {
            assert(name@ =~= seq![0x44u8, 0x65u8, 0x62u8, 0x75u8, 0x67u8]);
        }
        type_fingerprint(name.as_slice())
    }
}

/// The capability interface of values callable once, consuming themselves.
pub struct FnOnce;

impl FnOnce {
    /// Fingerprint of the interface named "FnOnce".
    pub open spec fn spec_fingerprint() -> u64 {
        fingerprint_of(seq![0x46u8, 0x6eu8, 0x4fu8, 0x6eu8, 0x63u8, 0x65u8])
    }

    /// Computes the fingerprint of this interface.
    pub fn fingerprint() -> (r: u64)
        ensures
            r == FnOnce::spec_fingerprint(),
    {
        let name: [u8; 6] = [0x46, 0x6e, 0x4f, 0x6e, 0x63, 0x65];
        proof {
            assert(name@ =~= seq![0x46u8, 0x6eu8, 0x4fu8, 0x6eu8, 0x63u8, 0x65u8]);
        }
        type_fingerprint(name.as_slice())
    }
}

/// The capability interface of values callable repeatedly with mutable
/// state.
pub struct FnMut;

impl FnMut {
    /// Fingerprint of the interface named "FnMut".
    pub open spec fn spec_fingerprint() -> u64 {
        fingerprint_of(seq![0x46u8, 0x6eu8, 0x4du8, 0x75u8, 0x74u8])
    }

    /// Computes the fingerprint of this interface.
    pub fn fingerprint() -> (r: u64)
        ensures
            r == FnMut::spec_fingerprint(),
    {
        let name: [u8; 5] = [0x46, 0x6e, 0x4d, 0x75, 0x74];
        proof {
            assert(name@ =~= seq![0x46u8, 0x6eu8, 0x4du8, 0x75u8, 0x74u8]);
        }
        type_fingerprint(name.as_slice())
    }
}

/// The capability interface of values callable repeatedly by shared
/// reference.
pub struct Fn;

impl Fn {
    /// Fingerprint of the interface named "Fn".
    pub open spec fn spec_fingerprint() -> u64 {
        fingerprint_of(seq![0x46u8, 0x6eu8])
    }

    /// Computes the fingerprint of this interface.
    pub fn fingerprint() -> (r: u64)
        ensures
            r == Fn::spec_fingerprint(),
    {
        let name: [u8; 2] = [0x46, 0x6e];
        proof {
            assert(name@ =~= seq![0x46u8, 0x6eu8]);
        }
        type_fingerprint(name.as_slice())
    }
}

} // verus!
