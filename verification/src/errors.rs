//! Error taxonomy of the wire protocol.
//!
//! Encoding fails only when the value handed in does not fit the static
//! shape being serialized.  Decoding distinguishes recoverable errors —
//! malformed bytes, an incompatible binary, a payload of the wrong interface
//! — from the one internal consistency violation that must end the process:
//! by the time it is detected, a dispatch table of possibly wrong layout has
//! already sized the slot the payload was read into.

use vstd::prelude::*;

verus! {

/// Why a value could not be serialized under a given shape.
#[derive(Clone, Copy, PartialEq, Eq, Structural, Debug)]
pub enum EncodeError {
    /// The value's runtime shape is not the shape being serialized.
    ShapeMismatch,
    /// A fixed-size value, or a sequence element, whose byte length
    /// disagrees with the static type's size.
    WrongSize,
    /// The polymorphic value's dispatch address belongs to no table of this
    /// invocation.
    UnknownDispatch,
    /// The dispatch table does not implement the interface being serialized.
    InterfaceMismatch,
    /// The payload's length disagrees with the dispatch table's layout.
    LayoutMismatch,
}

/// A recoverable decode error: report it to the caller and carry on.
#[derive(Clone, Copy, PartialEq, Eq, Structural, Debug)]
pub enum DecodeError {
    /// The input ends before the value does.
    Truncated,
    /// Bytes remain after the value.
    Trailing,
    /// The envelope was produced by a differently laid out binary.
    BuildMismatch,
    /// The envelope carries a value of another interface than the one being
    /// deserialized.
    InterfaceMismatch,
    /// The relative reference resolves to no dispatch table of this
    /// invocation.
    UnknownReference,
    /// The erased payload's recorded length disagrees with the dispatch
    /// table's layout.
    PayloadSize,
}

/// How a decode call ended short of a value.
#[derive(Clone, Copy, PartialEq, Eq, Structural, Debug)]
pub enum DecodeIssue {
    /// An ordinary, recoverable decode error.
    Error { error: DecodeError },
    /// The concrete-type fingerprint recorded in the envelope disagrees with
    /// the one the resolved dispatch table vouches for.  The table that
    /// sized and filled the payload slot may belong to another type, so no
    /// further trust in in-process state is warranted: the caller must treat
    /// this as fatal and abort rather than handle it as an ordinary error.
    Inconsistency,
}

} // verus!
