//! The protocol's guarantees, proved once and for all values.
//!
//! Each lemma here is a statement about every conforming value and every
//! well-formed registry, not about chosen examples: round-tripping is the
//! identity, envelopes survive a change of load address between invocations
//! of the same binary, an envelope of another interface is rejected
//! recoverably, and each shape serializes to exactly its prescribed wire
//! form.

use vstd::prelude::*;

use crate::chunks::{concat_elems, lemma_split_concat, split_elems, uniform};
use crate::codec::{
    lemma_u128_le_identity, lemma_u64_le_identity, u128_le, u128_of_le, u64_le, u64_of_le,
};
use crate::erased::erased_wire;
use crate::errors::{DecodeError, DecodeIssue};
use crate::fingerprint::spec_build_fingerprint;
use crate::registry::{
    lemma_find_in_registry, same_binary_layout, spec_find, tables_wf, DispatchTable, TABLE_STRIDE,
};
use crate::relref::RelativeReference;
use crate::wire::{
    conforms, decode_spec, encode_spec, envelope_wire, recoverable, representable,
    TypeShape, ValueView,
};

verus! {

/// Decomposes an envelope's wire form into its fields.
proof fn lemma_envelope_fields(interface: u64, offset: u64, concrete: u64, data: Seq<u8>)
    ensures
        envelope_wire(interface, offset, concrete, data).len() == 48 + data.len(),
        envelope_wire(interface, offset, concrete, data).subrange(0, 16) == u128_le(
            spec_build_fingerprint(),
        ),
        envelope_wire(interface, offset, concrete, data).subrange(16, 24) == u64_le(interface),
        envelope_wire(interface, offset, concrete, data).subrange(24, 32) == u64_le(offset),
        envelope_wire(interface, offset, concrete, data).subrange(32, 40) == u64_le(concrete),
        envelope_wire(interface, offset, concrete, data).subrange(40, 48) == u64_le(
            data.len() as u64,
        ),
        envelope_wire(interface, offset, concrete, data).skip(48) == data,
{
    let e = envelope_wire(interface, offset, concrete, data);
    assert(u128_le(spec_build_fingerprint()).len() == 16);
    assert(e.subrange(0, 16) =~= u128_le(spec_build_fingerprint()));
    assert(e.subrange(16, 24) =~= u64_le(interface));
    assert(e.subrange(24, 32) =~= u64_le(offset));
    assert(e.subrange(32, 40) =~= u64_le(concrete));
    assert(e.subrange(40, 48) =~= u64_le(data.len() as u64));
    assert(e.skip(48) =~= data);
}

/// Round trip: deserializing what a conforming value serialized to, under
/// the same shape and against the same registry, yields the value back —
/// every field is restored and no validation check fires.
pub proof fn lemma_round_trip(t: TypeShape, v: ValueView, tables: Seq<DispatchTable>)
    requires
        conforms(v, t, tables),
        representable(v),
    ensures
        decode_spec(t, encode_spec(t, v, tables), tables) == Ok::<ValueView, DecodeIssue>(v),
{
    let input = encode_spec(t, v, tables);
    match t {
        TypeShape::Sized { size } => {
        },
        TypeShape::Sequence { elem } => {
            let elems = (match v {
                ValueView::Sequence { elems } => elems,
                _ => Seq::empty(),
            });
            let n = elems.len() as u64;
            lemma_split_concat(elems, elem as int);
            assert(input.subrange(0, 8) =~= u64_le(n));
            lemma_u64_le_identity(n);
            assert(input.skip(8) =~= concat_elems(elems));
        },
        TypeShape::Dynamic { interface } => {
            let (dispatch, data) = (match v {
                ValueView::Polymorphic { dispatch, data } => (dispatch, data),
                _ => (0u64, Seq::empty()),
            });
            let tbl = (match spec_find(tables, dispatch) {
                Some(tbl) => tbl,
                None => DispatchTable { addr: 0, interface: 0, concrete: 0, layout: 0 },
            });
            let anchor = tables[0].addr;
            let offset = RelativeReference::spec_encode(dispatch, anchor);
            lemma_envelope_fields(tbl.interface, offset, tbl.concrete, data);
            lemma_u128_le_identity(spec_build_fingerprint());
            lemma_u64_le_identity(tbl.interface);
            lemma_u64_le_identity(offset);
            lemma_u64_le_identity(tbl.concrete);
            lemma_u64_le_identity(data.len() as u64);
            RelativeReference::lemma_round_trip(dispatch, anchor);
        },
    }
}

/// Cross-invocation stability: an envelope produced in one invocation
/// decodes, in any invocation of the same binary, to the same payload under
/// the corresponding dispatch table — the table at the same position, which
/// implements the same interface for the same concrete type with the same
/// layout, and therefore behaves identically.
pub proof fn lemma_cross_invocation_stability(
    interface: u64,
    dispatch: u64,
    data: Seq<u8>,
    a: Seq<DispatchTable>,
    b: Seq<DispatchTable>,
    i: int,
)
    requires
        tables_wf(a),
        tables_wf(b),
        same_binary_layout(a, b),
        0 <= i < a.len(),
        a[i].addr == dispatch,
        conforms(
            ValueView::Polymorphic { dispatch, data },
            TypeShape::Dynamic { interface },
            a,
        ),
    ensures
        decode_spec(
            TypeShape::Dynamic { interface },
            encode_spec(TypeShape::Dynamic { interface }, ValueView::Polymorphic { dispatch, data }, a),
            b,
        ) == Ok::<ValueView, DecodeIssue>(ValueView::Polymorphic { dispatch: b[i].addr, data }),
        b[i].interface == interface,
        b[i].concrete == a[i].concrete,
        b[i].layout == a[i].layout,
{
    lemma_find_in_registry(a, i);
    let tbl = a[i];
    let anchor_a = a[0].addr;
    let anchor_b = b[0].addr;
    assert(TABLE_STRIDE * i <= TABLE_STRIDE * (a.len() - 1) && 0 <= TABLE_STRIDE * i)
        by (nonlinear_arith)
        requires
            0 <= i < a.len(),
    ;
    let offset = RelativeReference::spec_encode(dispatch, anchor_a);
    assert(offset == TABLE_STRIDE * i);
    let input = encode_spec(
        TypeShape::Dynamic { interface },
        ValueView::Polymorphic { dispatch, data },
        a,
    );
    lemma_envelope_fields(tbl.interface, offset, tbl.concrete, data);
    lemma_u128_le_identity(spec_build_fingerprint());
    lemma_u64_le_identity(tbl.interface);
    lemma_u64_le_identity(offset);
    lemma_u64_le_identity(tbl.concrete);
    lemma_u64_le_identity(data.len() as u64);
    assert(TABLE_STRIDE * i <= TABLE_STRIDE * (b.len() - 1)) by (nonlinear_arith)
        requires
            0 <= i < b.len(),
    ;
    let addr_b = (RelativeReference { offset }).spec_decode(anchor_b);
    assert(addr_b == b[i].addr);
    lemma_find_in_registry(b, i);
}

/// Type-mismatch rejection: an envelope written under one interface,
/// deserialized under a different one, is refused with the recoverable
/// interface-mismatch error — before any dispatch table is resolved, never
/// fatally.
pub proof fn lemma_interface_mismatch_rejected(
    written: u64,
    requested: u64,
    v: ValueView,
    tables: Seq<DispatchTable>,
)
    requires
        conforms(v, TypeShape::Dynamic { interface: written }, tables),
        requested != written,
    ensures
        decode_spec(
            TypeShape::Dynamic { interface: requested },
            encode_spec(TypeShape::Dynamic { interface: written }, v, tables),
            tables,
        ) == recoverable(DecodeError::InterfaceMismatch),
{
    let (dispatch, data) = (match v {
        ValueView::Polymorphic { dispatch, data } => (dispatch, data),
        _ => (0u64, Seq::empty()),
    });
    let tbl = (match spec_find(tables, dispatch) {
        Some(tbl) => tbl,
        None => DispatchTable { addr: 0, interface: 0, concrete: 0, layout: 0 },
    });
    let offset = RelativeReference::spec_encode(dispatch, tables[0].addr);
    lemma_envelope_fields(tbl.interface, offset, tbl.concrete, data);
    lemma_u128_le_identity(spec_build_fingerprint());
    lemma_u64_le_identity(tbl.interface);
}

/// Shape selection: a fixed-size value serializes to its bytes alone; a
/// sequence to a count followed by the elements; a polymorphic value to
/// exactly the three-field envelope — reference, concrete fingerprint,
/// erased payload — of 48 bytes plus the payload.  No shape borrows
/// another's framing.
pub proof fn lemma_shape_selection(t: TypeShape, v: ValueView, tables: Seq<DispatchTable>)
    requires
        conforms(v, t, tables),
    ensures
        t matches TypeShape::Sized { size } ==> (v matches ValueView::Sized { bytes }
            && encode_spec(t, v, tables) == bytes && encode_spec(t, v, tables).len() == size),
        t matches TypeShape::Sequence { elem } ==> (v matches ValueView::Sequence { elems }
            && encode_spec(t, v, tables) == u64_le(elems.len() as u64) + concat_elems(elems)
            && encode_spec(t, v, tables).len() == 8 + elems.len() * elem),
        t matches TypeShape::Dynamic { interface } ==> (v matches ValueView::Polymorphic {
            dispatch,
            data,
        } && spec_find(tables, dispatch) matches Some(tbl) && encode_spec(t, v, tables)
            == envelope_wire(
            interface,
            RelativeReference::spec_encode(dispatch, tables[0].addr),
            tbl.concrete,
            data,
        ) && encode_spec(t, v, tables).len() == 48 + tbl.layout),
{
    match t {
        TypeShape::Sized { size } => {
        },
        TypeShape::Sequence { elem } => {
            let elems = (match v {
                ValueView::Sequence { elems } => elems,
                _ => Seq::empty(),
            });
            lemma_split_concat(elems, elem as int);
        },
        TypeShape::Dynamic { interface } => {
            let (dispatch, data) = (match v {
                ValueView::Polymorphic { dispatch, data } => (dispatch, data),
                _ => (0u64, Seq::empty()),
            });
            let tbl = (match spec_find(tables, dispatch) {
                Some(tbl) => tbl,
                None => DispatchTable { addr: 0, interface: 0, concrete: 0, layout: 0 },
            });
            lemma_envelope_fields(
                tbl.interface,
                RelativeReference::spec_encode(dispatch, tables[0].addr),
                tbl.concrete,
                data,
            );
        },
    }
}

/// Nested polymorphism: when the erased payload of a polymorphic value is
/// itself a serialized polymorphic value, both envelope layers round-trip —
/// the outer decode restores the inner envelope bytes, and decoding those
/// restores the inner value.
pub proof fn lemma_nested_round_trip(
    outer_interface: u64,
    outer_dispatch: u64,
    inner_interface: u64,
    inner_dispatch: u64,
    inner_data: Seq<u8>,
    tables: Seq<DispatchTable>,
)
    requires
        conforms(
            ValueView::Polymorphic { dispatch: inner_dispatch, data: inner_data },
            TypeShape::Dynamic { interface: inner_interface },
            tables,
        ),
        conforms(
            ValueView::Polymorphic {
                dispatch: outer_dispatch,
                data: encode_spec(
                    TypeShape::Dynamic { interface: inner_interface },
                    ValueView::Polymorphic { dispatch: inner_dispatch, data: inner_data },
                    tables,
                ),
            },
            TypeShape::Dynamic { interface: outer_interface },
            tables,
        ),
    ensures
        decode_spec(
            TypeShape::Dynamic { interface: outer_interface },
            encode_spec(
                TypeShape::Dynamic { interface: outer_interface },
                ValueView::Polymorphic {
                    dispatch: outer_dispatch,
                    data: encode_spec(
                        TypeShape::Dynamic { interface: inner_interface },
                        ValueView::Polymorphic { dispatch: inner_dispatch, data: inner_data },
                        tables,
                    ),
                },
                tables,
            ),
            tables,
        ) == Ok::<ValueView, DecodeIssue>(
            ValueView::Polymorphic {
                dispatch: outer_dispatch,
                data: encode_spec(
                    TypeShape::Dynamic { interface: inner_interface },
                    ValueView::Polymorphic { dispatch: inner_dispatch, data: inner_data },
                    tables,
                ),
            },
        ),
        decode_spec(
            TypeShape::Dynamic { interface: inner_interface },
            encode_spec(
                TypeShape::Dynamic { interface: inner_interface },
                ValueView::Polymorphic { dispatch: inner_dispatch, data: inner_data },
                tables,
            ),
            tables,
        ) == Ok::<ValueView, DecodeIssue>(
            ValueView::Polymorphic { dispatch: inner_dispatch, data: inner_data },
        ),
{
    lemma_round_trip(
        TypeShape::Dynamic { interface: outer_interface },
        ValueView::Polymorphic {
            dispatch: outer_dispatch,
            data: encode_spec(
                TypeShape::Dynamic { interface: inner_interface },
                ValueView::Polymorphic { dispatch: inner_dispatch, data: inner_data },
                tables,
            ),
        },
        tables,
    );
    lemma_round_trip(
        TypeShape::Dynamic { interface: inner_interface },
        ValueView::Polymorphic { dispatch: inner_dispatch, data: inner_data },
        tables,
    );
}

} // verus!
