//! Byte-level primitives of the structured encoding layer.
//!
//! The wire protocol writes unsigned integers in little-endian order with a
//! fixed width.  These are the only primitive fields the protocol needs: the
//! build fingerprint (16 bytes), type fingerprints (8 bytes), the relative
//! offset (8 bytes, two's complement), and lengths (8 bytes).

use vstd::prelude::*;

verus! {

/// The 8 little-endian bytes of `x`.
pub open spec fn u64_le(x: u64) -> Seq<u8> {
    seq![
        (x & 0xff) as u8,
        ((x >> 8) & 0xff) as u8,
        ((x >> 16) & 0xff) as u8,
        ((x >> 24) & 0xff) as u8,
        ((x >> 32) & 0xff) as u8,
        ((x >> 40) & 0xff) as u8,
        ((x >> 48) & 0xff) as u8,
        ((x >> 56) & 0xff) as u8,
    ]
}

/// The value read little-endian from 8 bytes.
pub open spec fn u64_of_le(s: Seq<u8>) -> u64
    recommends
        s.len() == 8,
{
    (s[0] as u64) | ((s[1] as u64) << 8) | ((s[2] as u64) << 16) | ((s[3] as u64) << 24)
        | ((s[4] as u64) << 32) | ((s[5] as u64) << 40) | ((s[6] as u64) << 48)
        | ((s[7] as u64) << 56)
}

/// The 16 little-endian bytes of `x`.
pub open spec fn u128_le(x: u128) -> Seq<u8> {
    u64_le(x as u64) + u64_le((x >> 64) as u64)
}

/// The value read little-endian from 16 bytes.
pub open spec fn u128_of_le(s: Seq<u8>) -> u128
    recommends
        s.len() == 16,
{
    (u64_of_le(s.subrange(0, 8)) as u128) | ((u64_of_le(s.subrange(8, 16)) as u128) << 64)
}

/// Reading back the little-endian bytes of `x` yields `x` again.
pub proof fn lemma_u64_le_identity(x: u64)
    ensures
        u64_of_le(u64_le(x)) == x,
{
    assert(x == ((x & 0xff) | (((x >> 8) & 0xff) << 8) | (((x >> 16) & 0xff) << 16) | (((x
        >> 24) & 0xff) << 24) | (((x >> 32) & 0xff) << 32) | (((x >> 40) & 0xff) << 40) | (((x
        >> 48) & 0xff) << 48) | (((x >> 56) & 0xff) << 56))) by (bit_vector);
    assert(((x & 0xff) as u8) as u64 == (x & 0xff)) by (bit_vector);
    assert((((x >> 8) & 0xff) as u8) as u64 == ((x >> 8) & 0xff)) by (bit_vector);
    assert((((x >> 16) & 0xff) as u8) as u64 == ((x >> 16) & 0xff)) by (bit_vector);
    assert((((x >> 24) & 0xff) as u8) as u64 == ((x >> 24) & 0xff)) by (bit_vector);
    assert((((x >> 32) & 0xff) as u8) as u64 == ((x >> 32) & 0xff)) by (bit_vector);
    assert((((x >> 40) & 0xff) as u8) as u64 == ((x >> 40) & 0xff)) by (bit_vector);
    assert((((x >> 48) & 0xff) as u8) as u64 == ((x >> 48) & 0xff)) by (bit_vector);
    assert((((x >> 56) & 0xff) as u8) as u64 == ((x >> 56) & 0xff)) by (bit_vector);
}

/// Reading back the little-endian bytes of a `u128` yields it again.
pub proof fn lemma_u128_le_identity(x: u128)
    ensures
        u128_of_le(u128_le(x)) == x,
{
    let lo = x as u64;
    let hi = (x >> 64) as u64;
    assert(u128_le(x).subrange(0, 8) =~= u64_le(lo));
    assert(u128_le(x).subrange(8, 16) =~= u64_le(hi));
    lemma_u64_le_identity(lo);
    lemma_u64_le_identity(hi);
    assert(((x as u64) as u128) | ((((x >> 64) as u64) as u128) << 64) == x) by (bit_vector);
}

/// Appends the 8 little-endian bytes of `x` to `out`.
pub fn append_u64(out: &mut Vec<u8>, x: u64)
    ensures
        final(out)@ == old(out)@ + u64_le(x),
{
    out.push((x & 0xff) as u8);
    out.push(((x >> 8) & 0xff) as u8);
    out.push(((x >> 16) & 0xff) as u8);
    out.push(((x >> 24) & 0xff) as u8);
    out.push(((x >> 32) & 0xff) as u8);
    out.push(((x >> 40) & 0xff) as u8);
    out.push(((x >> 48) & 0xff) as u8);
    out.push(((x >> 56) & 0xff) as u8);
    proof {
        assert(out@ =~= old(out)@ + u64_le(x));
    }
}

/// Appends the 16 little-endian bytes of `x` to `out`.
pub fn append_u128(out: &mut Vec<u8>, x: u128)
    ensures
        final(out)@ == old(out)@ + u128_le(x),
{
    append_u64(out, x as u64);
    append_u64(out, (x >> 64) as u64);
    proof {
        assert(out@ =~= old(out)@ + u128_le(x));
    }
}

/// Reads the `u64` stored little-endian at `pos`.
pub fn read_u64(s: &[u8], pos: usize) -> (r: u64)
    requires
        pos + 8 <= s@.len(),
    ensures
        r == u64_of_le(s@.subrange(pos as int, pos as int + 8)),
{
    let r = (s[pos] as u64) | ((s[pos + 1] as u64) << 8) | ((s[pos + 2] as u64) << 16) | ((s[pos
        + 3] as u64) << 24) | ((s[pos + 4] as u64) << 32) | ((s[pos + 5] as u64) << 40) | ((s[pos
        + 6] as u64) << 48) | ((s[pos + 7] as u64) << 56);
    proof {
        let sub = s@.subrange(pos as int, pos as int + 8);
        assert(sub[0] == s@[pos as int]);
        assert(sub[1] == s@[pos as int + 1]);
        assert(sub[2] == s@[pos as int + 2]);
        assert(sub[3] == s@[pos as int + 3]);
        assert(sub[4] == s@[pos as int + 4]);
        assert(sub[5] == s@[pos as int + 5]);
        assert(sub[6] == s@[pos as int + 6]);
        assert(sub[7] == s@[pos as int + 7]);
    }
    r
}

/// Copies the bytes of `s` between `from` and `to` into a fresh vector.
pub fn copy_range(s: &[u8], from: usize, to: usize) -> (v: Vec<u8>)
    requires
        from <= to <= s@.len(),
    ensures
        v@ == s@.subrange(from as int, to as int),
{
    let mut v: Vec<u8> = Vec::new();
    let mut i: usize = from;
    while i < to
        invariant
            from <= i <= to <= s@.len(),
            v@ == s@.subrange(from as int, i as int),
        decreases to - i,
    {
        v.push(s[i]);
        proof {
            assert(v@ =~= s@.subrange(from as int, i as int + 1));
        }
        i = i + 1;
    }
    proof {
        assert(v@ =~= s@.subrange(from as int, to as int));
    }
    v
}

/// Appends all bytes of `s` to `out`.
pub fn append_bytes(out: &mut Vec<u8>, s: &[u8])
    ensures
        final(out)@ == old(out)@ + s@,
{
    let mut i: usize = 0;
    proof {
        assert(out@ =~= old(out)@ + s@.subrange(0, 0));
    }
    while i < s.len()
        invariant
            i <= s@.len(),
            out@ == old(out)@ + s@.subrange(0, i as int),
        decreases s@.len() - i,
    {
        out.push(s[i]);
        proof {
            assert(out@ =~= old(out)@ + s@.subrange(0, i as int + 1));
        }
        i = i + 1;
    }
    proof {
        assert(s@.subrange(0, s@.len() as int) =~= s@);
    }
}

/// Reads the `u128` stored little-endian at `pos`.
pub fn read_u128(s: &[u8], pos: usize) -> (r: u128)
    requires
        pos + 16 <= s@.len(),
    ensures
        r == u128_of_le(s@.subrange(pos as int, pos as int + 16)),
{
    let lo = read_u64(s, pos);
    let n = s.len();
    assert(pos + 8 <= n);
    let hi = read_u64(s, pos + 8);
    proof {
        let sub = s@.subrange(pos as int, pos as int + 16);
        assert(sub.subrange(0, 8) =~= s@.subrange(pos as int, pos as int + 8));
        assert(sub.subrange(8, 16) =~= s@.subrange(pos as int + 8, pos as int + 16));
    }
    (lo as u128) | ((hi as u128) << 64)
}

} // verus!
