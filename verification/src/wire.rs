//! The specializing (de)serializer: the wire protocol.
//!
//! A value is handled under one of three mutually exclusive shapes, fixed by
//! the static type at the call site, never by inspecting bytes:
//!
//! * a concrete fixed-size value travels as its bytes alone, with no
//!   envelope;
//! * a variable-length sequence of fixed-size elements travels as a count
//!   followed by the elements, with no envelope;
//! * a dynamically dispatched value travels as the envelope
//!   `(relative reference, concrete-type fingerprint, erased payload)`, in
//!   that order — the reference must come first, because only the resolved
//!   dispatch table tells the reader how large a slot the payload needs.
//!
//! The reference part of the envelope carries the build fingerprint and the
//! interface fingerprint ahead of the offset; both are validated before the
//! offset is resolved, so an envelope from an incompatible binary or of
//! another interface is rejected before any table is looked up.  Resolving
//! the offset and trusting the resulting table's layout *before* the
//! concrete-type fingerprint is confirmed is a deliberate, documented
//! boundary of the design: the confirmation can only happen after the
//! payload has been read, and a failure of it is reported as fatal
//! (`DecodeIssue::Inconsistency`) rather than as an ordinary error.

use vstd::prelude::*;

use crate::chunks::{concat_elems, lemma_concat_push, split_elems, uniform};
use crate::codec::{
    append_bytes, append_u128, append_u64, copy_range, read_u128, read_u64, u128_le, u128_of_le,
    u64_le, u64_of_le,
};
use crate::erased::{deserialize_erased, erased_wire, serialize_erased};
use crate::errors::{DecodeError, DecodeIssue, EncodeError};
use crate::fingerprint::{build_fingerprint, spec_build_fingerprint};
use crate::registry::{spec_find, DispatchTable, Registry};
use crate::relref::RelativeReference;

verus! {

/// The shape of the static type being serialized or deserialized, selected
/// at the call site.
#[derive(Clone, Copy, PartialEq, Eq, Structural, Debug)]
pub enum TypeShape {
    /// A concrete value of exactly `size` bytes.
    Sized { size: usize },
    /// A variable-length sequence of elements of exactly `elem` bytes each.
    Sequence { elem: usize },
    /// A dynamically dispatched value of the interface with this
    /// fingerprint.
    Dynamic { interface: u64 },
}

/// A polymorphic value: an opaque payload and the address of the dispatch
/// table implementing its interface for its concrete type.
#[derive(PartialEq, Debug)]
pub struct PolymorphicValue {
    /// Address of the dispatch table in this invocation.
    pub dispatch: u64,
    /// The concrete value's payload bytes, opaque to this layer.
    pub data: Vec<u8>,
}

/// Mathematical image of a `PolymorphicValue`.
pub struct PolyView {
    pub dispatch: u64,
    pub data: Seq<u8>,
}

impl View for PolymorphicValue {
    type V = PolyView;

    open spec fn view(&self) -> PolyView {
        PolyView { dispatch: self.dispatch, data: self.data@ }
    }
}

/// A runtime value of one of the three shapes.
#[derive(PartialEq, Debug)]
pub enum Value {
    /// A concrete fixed-size value: its bytes.
    Sized { bytes: Vec<u8> },
    /// A sequence of fixed-size elements.
    Sequence { elems: Vec<Vec<u8>> },
    /// A dynamically dispatched value.
    Polymorphic { inner: PolymorphicValue },
}

/// Mathematical image of a `Value`.
pub enum ValueView {
    Sized { bytes: Seq<u8> },
    Sequence { elems: Seq<Seq<u8>> },
    Polymorphic { dispatch: u64, data: Seq<u8> },
}

impl View for Value {
    type V = ValueView;

    open spec fn view(&self) -> ValueView {
        match self {
            Value::Sized { bytes } => ValueView::Sized { bytes: bytes@ },
            Value::Sequence { elems } => ValueView::Sequence {
                elems: elems@.map_values(|e: Vec<u8>| e@),
            },
            Value::Polymorphic { inner } => ValueView::Polymorphic {
                dispatch: inner.dispatch,
                data: inner.data@,
            },
        }
    }
}

/// The value fits the shape: its variant is the shape's variant, its sizes
/// are the shape's sizes, and a polymorphic value's dispatch address names a
/// table of this invocation that implements the shape's interface and whose
/// layout is the payload's length.
pub open spec fn conforms(v: ValueView, t: TypeShape, tables: Seq<DispatchTable>) -> bool {
    match t {
        TypeShape::Sized { size } => v matches ValueView::Sized { bytes } && bytes.len() == size,
        TypeShape::Sequence { elem } => v matches ValueView::Sequence { elems } && uniform(
            elems,
            elem as int,
        ),
        TypeShape::Dynamic { interface } => v matches ValueView::Polymorphic { dispatch, data }
            && match spec_find(tables, dispatch) {
            Some(tbl) => tbl.interface == interface && data.len() == tbl.layout,
            None => false,
        },
    }
}

impl Clone for PolymorphicValue {
    /// The clone views the same dispatch address and payload.
    fn clone(&self) -> (r: Self)
        ensures
            r@ == self@,
    {
        let r = PolymorphicValue {
            dispatch: self.dispatch,
            data: copy_range(self.data.as_slice(), 0, self.data.len()),
        };
        proof {
            assert(r.data@ =~= self.data@);
        }
        r
    }
}

impl Clone for Value {
    /// The clone views the same value.
    fn clone(&self) -> (r: Self)
        ensures
            r@ == self@,
    {
        match self {
            Value::Sized { bytes } => {
                let copy = copy_range(bytes.as_slice(), 0, bytes.len());
                proof {
                    assert(copy@ =~= bytes@);
                }
                Value::Sized { bytes: copy }
            },
            Value::Sequence { elems } => {
                let n = elems.len();
                let mut copies: Vec<Vec<u8>> = Vec::new();
                let mut i: usize = 0;
                while i < n
                    invariant
                        i <= n == elems@.len(),
                        copies@.len() == i,
                        forall|j: int| 0 <= j < i ==> (#[trigger] copies@[j])@ == elems@[j]@,
                    decreases n - i,
                {
                    let e = copy_range(elems[i].as_slice(), 0, elems[i].len());
                    proof {
                        assert(e@ =~= elems@[i as int]@);
                    }
                    copies.push(e);
                    i = i + 1;
                }
                let r = Value::Sequence { elems: copies };
                proof {
                    let rv = (match r@ {
                        ValueView::Sequence { elems } => elems,
                        _ => Seq::empty(),
                    });
                    let sv = (match self@ {
                        ValueView::Sequence { elems } => elems,
                        _ => Seq::empty(),
                    });
                    assert forall|j: int| 0 <= j < n implies rv[j] == sv[j] by {
                        assert(rv[j] == copies@[j]@ && sv[j] == elems@[j]@);
                    }
                    assert(rv =~= sv);
                }
                r
            },
            Value::Polymorphic { inner } => Value::Polymorphic { inner: inner.clone() },
        }
    }
}

/// The value is small enough to exist at runtime: a sequence's element
/// count fits the platform's word.  Every value built by executable code
/// satisfies this; only a purely mathematical value can fail it.
pub open spec fn representable(v: ValueView) -> bool {
    match v {
        ValueView::Sequence { elems } => elems.len() <= usize::MAX,
        _ => true,
    }
}

/// Wire form of the reference part of an envelope: build fingerprint,
/// interface fingerprint, relative offset — the validation data ahead of
/// the raw displacement.
pub open spec fn reference_wire(interface: u64, offset: u64) -> Seq<u8> {
    u128_le(spec_build_fingerprint()) + u64_le(interface) + u64_le(offset)
}

/// Wire form of a whole envelope: reference part, concrete-type
/// fingerprint, erased payload, in this fixed order.
pub open spec fn envelope_wire(interface: u64, offset: u64, concrete: u64, data: Seq<u8>) -> Seq<
    u8,
> {
    reference_wire(interface, offset) + u64_le(concrete) + erased_wire(data)
}

/// The bytes a conforming value serializes to under shape `t`.
pub open spec fn encode_spec(t: TypeShape, v: ValueView, tables: Seq<DispatchTable>) -> Seq<u8>
    recommends
        conforms(v, t, tables),
{
    match v {
        ValueView::Sized { bytes } => bytes,
        ValueView::Sequence { elems } => u64_le(elems.len() as u64) + concat_elems(elems),
        ValueView::Polymorphic { dispatch, data } => match spec_find(tables, dispatch) {
            Some(tbl) => envelope_wire(
                tbl.interface,
                RelativeReference::spec_encode(dispatch, tables[0].addr),
                tbl.concrete,
                data,
            ),
            None => Seq::empty(),
        },
    }
}

/// The error a non-conforming value is refused with, by the first check
/// that fails: shape, then table lookup, then interface, then sizes.
pub open spec fn encode_error_spec(t: TypeShape, v: ValueView, tables: Seq<DispatchTable>) -> EncodeError
    recommends
        !conforms(v, t, tables),
{
    match t {
        TypeShape::Sized { size } => match v {
            ValueView::Sized { bytes } => EncodeError::WrongSize,
            _ => EncodeError::ShapeMismatch,
        },
        TypeShape::Sequence { elem } => match v {
            ValueView::Sequence { elems } => EncodeError::WrongSize,
            _ => EncodeError::ShapeMismatch,
        },
        TypeShape::Dynamic { interface } => match v {
            ValueView::Polymorphic { dispatch, data } => match spec_find(tables, dispatch) {
                None => EncodeError::UnknownDispatch,
                Some(tbl) => if tbl.interface != interface {
                    EncodeError::InterfaceMismatch
                } else {
                    EncodeError::LayoutMismatch
                },
            },
            _ => EncodeError::ShapeMismatch,
        },
    }
}

/// Serializes `v` under the static shape `t`, against the dispatch tables
/// of this invocation.
///
/// Returns the exact wire bytes of `v` when `v` conforms to `t`, and the
/// error naming the first failed conformance check otherwise.
pub fn serialize_value(t: &TypeShape, v: &Value, reg: &Registry) -> (r: Result<
    Vec<u8>,
    EncodeError,
>)
    requires
        reg.wf(),
    ensures
        match r {
            Ok(out) => conforms(v@, *t, reg@) && out@ == encode_spec(*t, v@, reg@),
            Err(e) => !conforms(v@, *t, reg@) && e == encode_error_spec(*t, v@, reg@),
        },
{
    match t {
        TypeShape::Sized { size } => match v {
            Value::Sized { bytes } => {
                if bytes.len() != *size {
                    Err(EncodeError::WrongSize)
                } else {
                    Ok(copy_range(bytes.as_slice(), 0, bytes.len()))
                }
            },
            _ => Err(EncodeError::ShapeMismatch),
        },
        TypeShape::Sequence { elem } => match v {
            Value::Sequence { elems } => {
                let ghost ve = (match v@ {
                    ValueView::Sequence { elems } => elems,
                    _ => Seq::empty(),
                });
                proof {
                    assert forall|j: int| 0 <= j < elems@.len() implies ve[j] == elems@[j]@ by {}
                }
                let esize: usize = *elem;
                let n = elems.len();
                let mut out: Vec<u8> = Vec::new();
                append_u64(&mut out, n as u64);
                let mut i: usize = 0;
                proof {
                    assert(ve.take(0) =~= Seq::<Seq<u8>>::empty());
                    assert(out@ =~= u64_le(n as u64) + concat_elems(ve.take(0)));
                }
                while i < n
                    invariant
                        i <= n == ve.len(),
                        ve == (match v@ {
                            ValueView::Sequence { elems } => elems,
                            _ => Seq::empty(),
                        }),
                        v@ matches ValueView::Sequence { .. },
                        *t == (TypeShape::Sequence { elem: esize }),
                        forall|j: int| 0 <= j < n ==> ve[j] == (#[trigger] elems@[j])@,
                        n == elems@.len(),
                        forall|j: int| 0 <= j < i ==> (#[trigger] ve[j]).len() == esize,
                        out@ == u64_le(n as u64) + concat_elems(ve.take(i as int)),
                    decreases n - i,
                {
                    proof {
                        assert(ve[i as int] == elems@[i as int]@);
                    }
                    if elems[i].len() != esize {
                        proof {
                            assert(ve[i as int].len() != esize);
                            assert(!uniform(ve, esize as int));
                        }
                        return Err(EncodeError::WrongSize);
                    }
                    append_bytes(&mut out, elems[i].as_slice());
                    proof {
                        lemma_concat_push(ve, i as int);
                    }
                    i = i + 1;
                }
                proof {
                    assert(ve.take(n as int) =~= ve);
                }
                Ok(out)
            },
            _ => Err(EncodeError::ShapeMismatch),
        },
        TypeShape::Dynamic { interface } => match v {
            Value::Polymorphic { inner } => match reg.resolve(inner.dispatch) {
                None => Err(EncodeError::UnknownDispatch),
                Some(tbl) => {
                    if tbl.interface != *interface {
                        Err(EncodeError::InterfaceMismatch)
                    } else if inner.data.len() != tbl.layout {
                        Err(EncodeError::LayoutMismatch)
                    } else {
                        let mut out: Vec<u8> = Vec::new();
                        append_u128(&mut out, build_fingerprint());
                        append_u64(&mut out, tbl.interface);
                        let reference = RelativeReference::encode(inner.dispatch, reg.anchor());
                        append_u64(&mut out, reference.offset);
                        append_u64(&mut out, tbl.concrete);
                        serialize_erased(inner.data.as_slice(), &mut out);
                        proof {
                            assert(out@ =~= encode_spec(*t, v@, reg@));
                        }
                        Ok(out)
                    }
                },
            },
            _ => Err(EncodeError::ShapeMismatch),
        },
    }
}

/// Shorthand for a recoverable decode outcome.
pub open spec fn recoverable(error: DecodeError) -> Result<ValueView, DecodeIssue> {
    Err(DecodeIssue::Error { error })
}

/// The outcome of decoding `input` under shape `t` against the dispatch
/// tables of this invocation, stated declaratively over the wire grammar
/// and the validation protocol.
///
/// For the dynamic shape the checks run in the protocol's fixed order:
/// build fingerprint, interface fingerprint, reference resolution, payload,
/// and only then the concrete-type confirmation, whose failure is the fatal
/// `DecodeIssue::Inconsistency`.
pub open spec fn decode_spec(t: TypeShape, input: Seq<u8>, tables: Seq<DispatchTable>) -> Result<
    ValueView,
    DecodeIssue,
>
    recommends
        1 <= tables.len(),
{
    match t {
        TypeShape::Sized { size } => {
            if input.len() < size {
                recoverable(DecodeError::Truncated)
            } else if input.len() > size {
                recoverable(DecodeError::Trailing)
            } else {
                Ok(ValueView::Sized { bytes: input })
            }
        },
        TypeShape::Sequence { elem } => {
            if input.len() < 8 {
                recoverable(DecodeError::Truncated)
            } else {
                let n = u64_of_le(input.subrange(0, 8)) as int;
                if 8 + n * elem > input.len() {
                    recoverable(DecodeError::Truncated)
                } else if 8 + n * elem < input.len() {
                    recoverable(DecodeError::Trailing)
                } else if n > usize::MAX {
                    recoverable(DecodeError::Truncated)
                } else {
                    Ok(ValueView::Sequence { elems: split_elems(input.skip(8), elem as int, n) })
                }
            }
        },
        TypeShape::Dynamic { interface } => {
            if input.len() < 48 {
                recoverable(DecodeError::Truncated)
            } else if u128_of_le(input.subrange(0, 16)) != spec_build_fingerprint() {
                recoverable(DecodeError::BuildMismatch)
            } else if u64_of_le(input.subrange(16, 24)) != interface {
                recoverable(DecodeError::InterfaceMismatch)
            } else {
                let reference = RelativeReference { offset: u64_of_le(input.subrange(24, 32)) };
                let addr = reference.spec_decode(tables[0].addr);
                match spec_find(tables, addr) {
                    None => recoverable(DecodeError::UnknownReference),
                    Some(tbl) => {
                        let plen = u64_of_le(input.subrange(40, 48)) as int;
                        if plen != tbl.layout {
                            recoverable(DecodeError::PayloadSize)
                        } else if 48 + plen > input.len() {
                            recoverable(DecodeError::Truncated)
                        } else if 48 + plen < input.len() {
                            recoverable(DecodeError::Trailing)
                        } else if u64_of_le(input.subrange(32, 40)) != tbl.concrete {
                            Err(DecodeIssue::Inconsistency)
                        } else {
                            Ok(ValueView::Polymorphic { dispatch: addr, data: input.skip(48) })
                        }
                    },
                }
            }
        },
    }
}

/// Deserializes one value of the static shape `t` from `input`, consuming
/// all of it, against the dispatch tables of this invocation.
///
/// Returns exactly what `decode_spec` prescribes: the unique value whose
/// wire form `input` is, a recoverable error for malformed or incompatible
/// input, or the fatal `DecodeIssue::Inconsistency` the caller must abort
/// on.
pub fn deserialize_value(t: &TypeShape, input: &[u8], reg: &Registry) -> (r: Result<
    Value,
    DecodeIssue,
>)
    requires
        reg.wf(),
    ensures
        match r {
            Ok(out) => decode_spec(*t, input@, reg@) == Ok::<ValueView, DecodeIssue>(out@),
            Err(issue) => decode_spec(*t, input@, reg@) == Err::<ValueView, DecodeIssue>(issue),
        },
{
    let len = input.len();
    match t {
        TypeShape::Sized { size } => {
            if len < *size {
                Err(DecodeIssue::Error { error: DecodeError::Truncated })
            } else if len > *size {
                Err(DecodeIssue::Error { error: DecodeError::Trailing })
            } else {
                let bytes = copy_range(input, 0, len);
                proof {
                    assert(input@.subrange(0, len as int) =~= input@);
                }
                Ok(Value::Sized { bytes })
            }
        },
        TypeShape::Sequence { elem } => {
            if len < 8 {
                return Err(DecodeIssue::Error { error: DecodeError::Truncated });
            }
            let esize: usize = *elem;
            let count = read_u64(input, 0);
            let total: Option<u64> = match count.checked_mul(esize as u64) {
                None => None,
                Some(p) => p.checked_add(8),
            };
            match total {
                None => Err(DecodeIssue::Error { error: DecodeError::Truncated }),
                Some(total) => {
                    if total > len as u64 {
                        Err(DecodeIssue::Error { error: DecodeError::Truncated })
                    } else if total < len as u64 {
                        Err(DecodeIssue::Error { error: DecodeError::Trailing })
                    } else if count > usize::MAX as u64 {
                        Err(DecodeIssue::Error { error: DecodeError::Truncated })
                    } else {
                        let n = count as usize;
                        let mut elems: Vec<Vec<u8>> = Vec::new();
                        let mut i: usize = 0;
                        while i < n
                            invariant
                                i <= n,
                                n == count,
                                8 + n * esize == len <= usize::MAX,
                                len == input@.len(),
                                elems@.len() == i,
                                forall|j: int|
                                    0 <= j < i ==> (#[trigger] elems@[j])@ == input@.subrange(
                                        8 + j * esize,
                                        8 + j * esize + esize,
                                    ),
                            decreases n - i,
                        {
                            proof {
                                assert(i * esize + esize <= n * esize) by (nonlinear_arith)
                                    requires
                                        i < n,
                                        0 <= esize,
                                ;
                                assert(0 <= i * esize) by (nonlinear_arith)
                                    requires
                                        0 <= i,
                                        0 <= esize,
                                ;
                            }
                            let start = 8 + i * esize;
                            let e = copy_range(input, start, start + esize);
                            elems.push(e);
                            i = i + 1;
                        }
                        let out = Value::Sequence { elems };
                        proof {
                            let ghost tail = input@.skip(8);
                            let ghost res = split_elems(tail, esize as int, n as int);
                            assert(tail.len() == n * esize);
                            assert forall|j: int| 0 <= j < n implies (#[trigger] elems@[j])@
                                == res[j] by {
                                assert(0 <= j * esize && (j + 1) * esize <= n * esize)
                                    by (nonlinear_arith)
                                    requires
                                        0 <= j < n,
                                        0 <= esize,
                                ;
                                assert((j + 1) * esize == j * esize + esize) by (nonlinear_arith);
                                assert(res[j] == tail.subrange(j * esize, j * esize + esize));
                                assert(tail.subrange(j * esize, j * esize + esize)
                                    =~= input@.subrange(8 + j * esize, 8 + j * esize + esize));
                            }
                            assert(out@ matches ValueView::Sequence { elems: oe } && oe =~= res);
                        }
                        Ok(out)
                    }
                },
            }
        },
        TypeShape::Dynamic { interface } => {
            if len < 48 {
                return Err(DecodeIssue::Error { error: DecodeError::Truncated });
            }
            let build = read_u128(input, 0);
            if build != build_fingerprint() {
                return Err(DecodeIssue::Error { error: DecodeError::BuildMismatch });
            }
            let iface = read_u64(input, 16);
            if iface != *interface {
                return Err(DecodeIssue::Error { error: DecodeError::InterfaceMismatch });
            }
            let offset = read_u64(input, 24);
            let reference = RelativeReference { offset };
            let addr = reference.decode(reg.anchor());
            match reg.resolve(addr) {
                None => Err(DecodeIssue::Error { error: DecodeError::UnknownReference }),
                Some(tbl) => {
                    let concrete = read_u64(input, 32);
                    match deserialize_erased(input, 40, tbl.layout) {
                        Err(e) => Err(DecodeIssue::Error { error: e }),
                        Ok((data, next)) => {
                            if next != len {
                                Err(DecodeIssue::Error { error: DecodeError::Trailing })
                            } else if concrete != tbl.concrete {
                                Err(DecodeIssue::Inconsistency)
                            } else {
                                proof {
                                    assert(input@.subrange(48, 48 + tbl.layout as int)
                                        =~= input@.skip(48));
                                }
                                Ok(
                                    Value::Polymorphic {
                                        inner: PolymorphicValue { dispatch: addr, data },
                                    },
                                )
                            }
                        },
                    }
                },
            }
        },
    }
}

} // verus!
