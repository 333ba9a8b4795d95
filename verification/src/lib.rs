//! Serialization of dynamically dispatched values across invocations of one
//! binary.
//!
//! A polymorphic value is known at runtime only as a pair of an opaque
//! payload and a dispatch table implementing an abstract interface for one
//! concrete type.  The payload bytes travel easily; a dispatch-table pointer
//! is an in-process address with no meaning elsewhere.  This crate models
//! dispatch tables as entries of an explicit registry with synthetic
//! addresses, and makes a dispatch-table reference portable by re-expressing
//! it relative to a fixed anchor table, guarded by a build fingerprint and
//! type fingerprints.
//!
//! Values are serialized under one of three shapes fixed by the static type
//! at the call site: a concrete fixed-size value, a sequence of fixed-size
//! elements, or a dynamically dispatched value, which alone travels in a
//! validated envelope.  The `laws` module proves the protocol's guarantees
//! for all values: round-tripping is the identity, envelopes survive a
//! change of load address between invocations of the same binary, and an
//! envelope of another interface is rejected recoverably.

use vstd::prelude::*;

pub mod chunks;
pub mod codec;
pub mod convenience;
pub mod erased;
pub mod errors;
pub mod fingerprint;
pub mod laws;
pub mod registry;
pub mod relref;
pub mod wire;

verus! {

use crate::errors::{DecodeIssue, EncodeError};
use crate::registry::Registry;
use crate::wire::{conforms, decode_spec, encode_error_spec, encode_spec, TypeShape, ValueView};

/// A value that can be serialized under a static shape.
///
/// Implementors carry a value together with the shape of the static type it
/// is handled under; `serialize` routes through the specializing serializer
/// of the `wire` module.
pub trait Serialize {
    /// The static shape this value serializes under.
    spec fn shape_spec(&self) -> TypeShape;

    /// The mathematical value being serialized.
    spec fn value_spec(&self) -> ValueView;

    /// Serializes the contained value: exactly its wire form when it
    /// conforms to its shape, and the error naming the first failed
    /// conformance check otherwise.
    fn serialize(&self, reg: &Registry) -> (r: Result<Vec<u8>, EncodeError>)
        requires
            reg.wf(),
        ensures
            match r {
                Ok(out) => conforms(self.value_spec(), self.shape_spec(), reg@) && out@
                    == encode_spec(self.shape_spec(), self.value_spec(), reg@),
                Err(e) => !conforms(self.value_spec(), self.shape_spec(), reg@) && e
                    == encode_error_spec(self.shape_spec(), self.value_spec(), reg@),
            },
    ;
}

/// A value that can be deserialized under a static shape.
pub trait Deserialize: Serialize + Sized {
    /// Deserializes one value of shape `shape` from all of `input`:
    /// exactly the value `input` is the wire form of, a recoverable error
    /// for malformed or incompatible input, or the fatal
    /// `DecodeIssue::Inconsistency` the caller must abort on.
    fn deserialize(shape: &TypeShape, input: &[u8], reg: &Registry) -> (r: Result<
        Self,
        DecodeIssue,
    >)
        requires
            reg.wf(),
        ensures
            match r {
                Ok(v) => v.shape_spec() == *shape && decode_spec(*shape, input@, reg@) == Ok::<
                    ValueView,
                    DecodeIssue,
                >(v.value_spec()),
                Err(issue) => decode_spec(*shape, input@, reg@) == Err::<
                    ValueView,
                    DecodeIssue,
                >(issue),
            },
    ;
}

/// Serializes a value by reference, routing through its shape's strategy.
pub fn serialize<T: Serialize>(t: &T, reg: &Registry) -> (r: Result<Vec<u8>, EncodeError>)
    requires
        reg.wf(),
    ensures
        match r {
            Ok(out) => conforms(t.value_spec(), t.shape_spec(), reg@) && out@ == encode_spec(
                t.shape_spec(),
                t.value_spec(),
                reg@,
            ),
            Err(e) => !conforms(t.value_spec(), t.shape_spec(), reg@) && e == encode_error_spec(
                t.shape_spec(),
                t.value_spec(),
                reg@,
            ),
        },
{
    t.serialize(reg)
}

/// Deserializes one value of shape `shape` from all of `input`.
pub fn deserialize<T: Deserialize>(shape: &TypeShape, input: &[u8], reg: &Registry) -> (r: Result<
    T,
    DecodeIssue,
>)
    requires
        reg.wf(),
    ensures
        match r {
            Ok(v) => v.shape_spec() == *shape && decode_spec(*shape, input@, reg@) == Ok::<
                ValueView,
                DecodeIssue,
            >(v.value_spec()),
            Err(issue) => decode_spec(*shape, input@, reg@) == Err::<ValueView, DecodeIssue>(issue),
        },
{
    T::deserialize(shape, input, reg)
}

} // verus!
