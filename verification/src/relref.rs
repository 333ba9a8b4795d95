//! Relative dispatch-table references.
//!
//! A dispatch-table address is meaningless outside the process that produced
//! it.  Re-expressed as the displacement from the process's anchor table, it
//! becomes stable across invocations of the same binary: whenever the whole
//! table block moves as one (position-independent loading of an identical
//! image), displacements are preserved, so decoding against the new anchor
//! lands on the corresponding table.
//!
//! `decode` is deliberately unchecked at this layer: it produces a raw
//! address that must pass the validation of the wire protocol before any use.

use vstd::prelude::*;

verus! {

/// A dispatch-table address re-expressed relative to an anchor table.
///
/// `offset` is the two's-complement encoding of the signed displacement
/// `target - anchor`; all arithmetic on it is modulo 2^64.
#[derive(Clone, Copy, PartialEq, Eq, Structural, Debug)]
pub struct RelativeReference {
    pub offset: u64,
}

impl RelativeReference {
    /// The displacement stored for target address `dispatch` under anchor
    /// address `anchor`.
    pub open spec fn spec_encode(dispatch: u64, anchor: u64) -> u64 {
        dispatch.wrapping_sub(anchor)
    }

    /// The raw address a displacement resolves to under anchor address
    /// `anchor`.
    pub open spec fn spec_decode(self, anchor: u64) -> u64 {
        anchor.wrapping_add(self.offset)
    }

    /// Re-expresses the dispatch-table address `dispatch` relative to the
    /// current process's anchor address.  Pure; cannot fail.
    pub fn encode(dispatch: u64, anchor: u64) -> (r: RelativeReference)
        ensures
            r.offset == RelativeReference::spec_encode(dispatch, anchor),
    {
        RelativeReference { offset: dispatch.wrapping_sub(anchor) }
    }

    /// Resolves the displacement against the current process's anchor
    /// address.
    ///
    /// Unchecked: the result is a raw address, valid only if this reference
    /// was produced by a compatible invocation; callers must validate it (by
    /// registry lookup and the fingerprint checks of the wire protocol)
    /// before treating it as a dispatch table.
    pub fn decode(self, anchor: u64) -> (a: u64)
        ensures
            a == self.spec_decode(anchor),
    {
        anchor.wrapping_add(self.offset)
    }

    /// Encoding an address and decoding it in the same process yields the
    /// address back, wherever anchor and target lie.
    pub proof fn lemma_round_trip(dispatch: u64, anchor: u64)
        ensures
            (RelativeReference { offset: RelativeReference::spec_encode(dispatch, anchor) })
                .spec_decode(anchor) == dispatch,
    {
    }

    /// Decoding in another invocation yields that invocation's address for
    /// the same table, provided the displacement from the anchor is the same
    /// there — the invariant that holds when both invocations run an
    /// identical memory layout of one binary.
    pub proof fn lemma_cross_invocation(
        dispatch_a: u64,
        anchor_a: u64,
        dispatch_b: u64,
        anchor_b: u64,
    )
        requires
            RelativeReference::spec_encode(dispatch_a, anchor_a)
                == RelativeReference::spec_encode(dispatch_b, anchor_b),
        ensures
            (RelativeReference { offset: RelativeReference::spec_encode(dispatch_a, anchor_a) })
                .spec_decode(anchor_b) == dispatch_b,
    {
    }
}

} // verus!
