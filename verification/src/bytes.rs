//! Fixed-width big-endian encoding of 32-bit values.
//!
//! The region prefix of every namespaced key and the length prefix of a
//! full-block record are both written this way, so both inherit injectivity
//! from the round trip proved here.

use vstd::prelude::*;

verus! {

/// The four big-endian bytes of a 32-bit value.
pub open spec fn spec_u32_be(n: u32) -> Seq<u8> {
    seq![
        ((n / 0x1000000) % 0x100) as u8,
        ((n / 0x10000) % 0x100) as u8,
        ((n / 0x100) % 0x100) as u8,
        (n % 0x100) as u8,
    ]
}

/// The value read back from four big-endian bytes.
pub open spec fn spec_be_u32(b: Seq<u8>) -> int
    recommends
        b.len() == 4,
{
    b[0] * 0x1000000 + b[1] * 0x10000 + b[2] * 0x100 + b[3]
}

/// Reading back the four bytes of a value yields the value.
pub proof fn lemma_u32_be_round_trip(n: u32)
    ensures
        spec_be_u32(spec_u32_be(n)) == n,
{
    assert(((n / 0x1000000) % 0x100) * 0x1000000 + ((n / 0x10000) % 0x100) * 0x10000 + ((n
        / 0x100) % 0x100) * 0x100 + n % 0x100 == n) by (bit_vector);
}

/// Two values with the same four bytes are the same value.
pub proof fn lemma_u32_be_injective(a: u32, b: u32)
    requires
        spec_u32_be(a) == spec_u32_be(b),
    ensures
        a == b,
{
    lemma_u32_be_round_trip(a);
    lemma_u32_be_round_trip(b);
}

/// Four bytes are exactly the encoding of the value read from them.
pub proof fn lemma_u32_be_of_spec_be(b: Seq<u8>, n: u32)
    requires
        b.len() == 4,
        n == spec_be_u32(b),
    ensures
        spec_u32_be(n) == b,
{
    let b0 = b[0];
    let b1 = b[1];
    let b2 = b[2];
    let b3 = b[3];
    assert((n / 0x1000000) % 0x100 == b0 && (n / 0x10000) % 0x100 == b1 && (n / 0x100) % 0x100
        == b2 && n % 0x100 == b3) by (bit_vector)
        requires
            n == b0 as u32 * 0x1000000 + b1 as u32 * 0x10000 + b2 as u32 * 0x100 + b3 as u32,
    ;
    assert(spec_u32_be(n) =~= b);
}

/// Write the four big-endian bytes of `n`.
pub fn u32_to_be(n: u32) -> (r: Vec<u8>)
    ensures
        r@ == spec_u32_be(n),
{
    let mut r: Vec<u8> = Vec::new();
    r.push(((n / 0x1000000) % 0x100) as u8);
    r.push(((n / 0x10000) % 0x100) as u8);
    r.push(((n / 0x100) % 0x100) as u8);
    r.push((n % 0x100) as u8);
    assert(r@ =~= spec_u32_be(n));
    r
}

/// Read a value from its four big-endian bytes.
pub fn be_to_u32(b0: u8, b1: u8, b2: u8, b3: u8) -> (r: u32)
    ensures
        r == spec_be_u32(seq![b0, b1, b2, b3]),
{
    (b0 as u32) * 0x1000000 + (b1 as u32) * 0x10000 + (b2 as u32) * 0x100 + (b3 as u32)
}

} // verus!
