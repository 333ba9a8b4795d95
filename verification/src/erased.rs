//! The erased value codec.
//!
//! Code holding only an abstract interface cannot name the concrete type of
//! a payload; it can still ask the value to write itself, and later read the
//! bytes back into a slot whose size it learned from the dispatch table.  An
//! erased payload is self-delimiting on the wire: its byte length, then the
//! bytes.  Reading fails, recoverably, when the recorded length disagrees
//! with the slot the caller allocated or the input runs out.

use vstd::prelude::*;

use crate::codec::{append_bytes, append_u64, copy_range, read_u64, u64_le, u64_of_le};
use crate::errors::DecodeError;

verus! {

/// The wire form of an erased payload: its length, then its bytes.
pub open spec fn erased_wire(data: Seq<u8>) -> Seq<u8> {
    u64_le(data.len() as u64) + data
}

/// Serializes the payload of a concrete value through its codec entry,
/// without knowledge of the concrete type: length, then bytes.
pub fn serialize_erased(data: &[u8], out: &mut Vec<u8>)
    ensures
        final(out)@ == old(out)@ + erased_wire(data@),
{
    append_u64(out, data.len() as u64);
    append_bytes(out, data);
    proof {
        assert(out@ =~= old(out)@ + erased_wire(data@));
    }
}

/// Deserializes an erased payload from `src` at `pos` into a fresh,
/// fully initialized slot of exactly `slot` bytes, returning the slot and
/// the position after the payload.
///
/// Succeeds exactly when the recorded length equals `slot` and the input
/// holds that many bytes; on failure nothing is allocated.
pub fn deserialize_erased(src: &[u8], pos: usize, slot: usize) -> (r: Result<
    (Vec<u8>, usize),
    DecodeError,
>)
    requires
        pos <= src@.len(),
    ensures
        match r {
            Ok((data, next)) => {
                &&& pos + 8 <= src@.len()
                &&& u64_of_le(src@.subrange(pos as int, pos as int + 8)) == slot
                &&& pos + 8 + slot <= src@.len()
                &&& data@ == src@.subrange(pos as int + 8, pos as int + 8 + slot)
                &&& next == pos + 8 + slot
            },
            Err(DecodeError::Truncated) => pos + 8 > src@.len() || (u64_of_le(
                src@.subrange(pos as int, pos as int + 8),
            ) == slot && pos + 8 + slot > src@.len()),
            Err(DecodeError::PayloadSize) => pos + 8 <= src@.len() && u64_of_le(
                src@.subrange(pos as int, pos as int + 8),
            ) != slot,
            Err(_) => false,
        },
{
    let n = src.len();
    if n - pos < 8 {
        return Err(DecodeError::Truncated);
    }
    let recorded = read_u64(src, pos);
    if recorded != slot as u64 {
        return Err(DecodeError::PayloadSize);
    }
    if n - (pos + 8) < slot {
        return Err(DecodeError::Truncated);
    }
    let data = copy_range(src, pos + 8, pos + 8 + slot);
    Ok((data, pos + 8 + slot))
}

} // verus!
