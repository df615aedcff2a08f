//! Namespacing of caller keys by region.
//!
//! Every record of the engine lives under a namespaced key: the four
//! big-endian bytes of its region identifier followed by the caller's key
//! bytes. The prefix has fixed width, so key bytes can never spill across the
//! region boundary, and two distinct `(region, key)` pairs can never collide
//! on the same slot — proved below.

use vstd::prelude::*;

use crate::bytes::{lemma_u32_be_injective, spec_u32_be, u32_to_be};

verus! {

/// The region identifier reserved for confidential full-block payloads.
/// Every other value names a generic caller-defined namespace.
pub const FULL_BLOCK_REGION: u32 = 11;

/// The engine slot that holds `key` of `region`.
pub open spec fn spec_region_key(region: u32, key: Seq<u8>) -> Seq<u8> {
    spec_u32_be(region) + key
}

/// Build the namespaced engine key for `key` of `region`.
pub fn region_key(region: u32, key: &Vec<u8>) -> (r: Vec<u8>)
    ensures
        r@ == spec_region_key(region, key@),
{
    let mut r = u32_to_be(region);
    let mut i: usize = 0;
    while i < key.len()
        invariant
            i <= key.len(),
            r@ == spec_u32_be(region) + key@.subrange(0, i as int),
        decreases key.len() - i,
    {
        r.push(key[i]);
        assert(r@ =~= spec_u32_be(region) + key@.subrange(0, i + 1 as int));
        i = i + 1;
    }
    assert(key@.subrange(0, key@.len() as int) =~= key@);
    r
}

/// Namespacing is injective: two distinct `(region, key)` pairs always map to
/// distinct engine slots, so regions are wholly isolated from one another.
pub proof fn lemma_region_key_injective(r1: u32, k1: Seq<u8>, r2: u32, k2: Seq<u8>)
    requires
        spec_region_key(r1, k1) == spec_region_key(r2, k2),
    ensures
        r1 == r2,
        k1 == k2,
{
    let s1 = spec_region_key(r1, k1);
    let s2 = spec_region_key(r2, k2);
    assert(s1.len() == 4 + k1.len());
    assert(s2.len() == 4 + k2.len());
    assert(spec_u32_be(r1) =~= s1.subrange(0, 4));
    assert(spec_u32_be(r2) =~= s2.subrange(0, 4));
    lemma_u32_be_injective(r1, r2);
    assert(k1 =~= s1.subrange(4, s1.len() as int));
    assert(k2 =~= s2.subrange(4, s2.len() as int));
}

} // verus!
