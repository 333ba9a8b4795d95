//! Build and type fingerprints.
//!
//! A type fingerprint is a 64-bit near-unique identifier of a type, computed
//! deterministically from the type's name, so that two invocations of the
//! same binary agree on it while distinct types collide only with negligible
//! probability.  A build fingerprint is a 128-bit identifier of one compiled
//! binary layout, constant across all invocations of that binary.  Both are
//! FNV-1a hashes, which depend on nothing process-relative.

use vstd::prelude::*;

verus! {

/// Offset basis of 64-bit FNV-1a.
pub const FNV64_BASIS: u64 = 0xcbf2_9ce4_8422_2325;

/// Prime of 64-bit FNV-1a.
pub const FNV64_PRIME: u64 = 0x0000_0100_0000_01b3;

/// Offset basis of 128-bit FNV-1a.
pub const FNV128_BASIS: u128 = 0x6c62_272e_07bb_0142_62b8_2175_6295_c58d;

/// Prime of 128-bit FNV-1a.
pub const FNV128_PRIME: u128 = 0x0000_0000_0100_0000_0000_0000_0000_013b;

/// One step of 64-bit FNV-1a: absorb byte `b` into state `h`.
pub open spec fn fnv64_step(h: u64, b: u8) -> u64 {
    (h ^ (b as u64)).wrapping_mul(FNV64_PRIME)
}

/// 64-bit FNV-1a state after absorbing all of `s` into state `h`.
pub open spec fn fnv64_from(h: u64, s: Seq<u8>) -> u64
    decreases s.len(),
{
    if s.len() == 0 {
        h
    } else {
        fnv64_from(fnv64_step(h, s[0]), s.drop_first())
    }
}

/// The fingerprint of the type whose name is `name`: 64-bit FNV-1a of the
/// name's bytes.
pub open spec fn fingerprint_of(name: Seq<u8>) -> u64 {
    fnv64_from(FNV64_BASIS, name)
}

/// One step of 128-bit FNV-1a: absorb byte `b` into state `h`.
pub open spec fn fnv128_step(h: u128, b: u8) -> u128 {
    (h ^ (b as u128)).wrapping_mul(FNV128_PRIME)
}

/// 128-bit FNV-1a state after absorbing all of `s` into state `h`.
pub open spec fn fnv128_from(h: u128, s: Seq<u8>) -> u128
    decreases s.len(),
{
    if s.len() == 0 {
        h
    } else {
        fnv128_from(fnv128_step(h, s[0]), s.drop_first())
    }
}

/// The identity of the compiled binary this code belongs to.  A real build
/// injects a tag at link time; here it is the crate's own wire-format tag,
/// which changes exactly when the format (and hence the binary layout this
/// crate promises compatibility for) changes.
pub open spec fn spec_build_tag() -> Seq<u8> {
    seq![0x76u8, 0x74u8, 0x77u8, 0x31u8]
}

/// The 128-bit fingerprint of this compiled binary: FNV-1a of the build tag.
pub open spec fn spec_build_fingerprint() -> u128 {
    fnv128_from(FNV128_BASIS, spec_build_tag())
}

/// Computes the fingerprint of the type named `name`.
///
/// Deterministic: the result depends on the name's bytes alone, never on the
/// memory layout of the running process.
pub fn type_fingerprint(name: &[u8]) -> (r: u64)
    ensures
        r == fingerprint_of(name@),
{
    let ghost all = name@;
    let mut h: u64 = FNV64_BASIS;
    let mut i: usize = 0;
    proof {
        assert(all.skip(0) =~= all);
    }
    while i < name.len()
        invariant
            i <= all.len(),
            all == name@,
            fnv64_from(h, all.skip(i as int)) == fingerprint_of(all),
        decreases all.len() - i,
    {
        proof {
            assert(all.skip(i as int).drop_first() =~= all.skip(i as int + 1));
            assert(all.skip(i as int)[0] == all[i as int]);
        }
        h = (h ^ (name[i] as u64)).wrapping_mul(FNV64_PRIME);
        i = i + 1;
    }
    proof {
        assert(all.skip(all.len() as int) =~= Seq::<u8>::empty());
    }
    h
}

/// Returns the build fingerprint of the running binary.
///
/// Deterministic per process and constant across repeated calls: the result
/// is a pure function of the compiled-in build tag.
pub fn build_fingerprint() -> (r: u128)
    ensures
        r == spec_build_fingerprint(),
{
    let tag: [u8; 4] = [0x76, 0x74, 0x77, 0x31];
    let mut h: u128 = FNV128_BASIS;
    let mut i: usize = 0;
    proof {
        assert(spec_build_tag().skip(0) =~= spec_build_tag());
    }
    while i < 4
        invariant
            i <= 4,
            tag@ =~= spec_build_tag(),
            fnv128_from(h, spec_build_tag().skip(i as int)) == spec_build_fingerprint(),
        decreases 4 - i,
    {
        proof {
            let s = spec_build_tag();
            assert(s.skip(i as int).drop_first() =~= s.skip(i as int + 1));
            assert(s.skip(i as int)[0] == s[i as int]);
        }
        h = (h ^ (tag[i] as u128)).wrapping_mul(FNV128_PRIME);
        i = i + 1;
    }
    proof {
        assert(spec_build_tag().skip(4) =~= Seq::<u8>::empty());
    }
    h
}

} // verus!
