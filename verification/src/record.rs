//! The durable form of a confidential full-block record.
//!
//! A full block reaches disk only as ciphertext together with the opaque key
//! reference the gateway issued for it, framed into one engine value so the
//! pair is written — and therefore observable — only as a whole: the four
//! big-endian bytes of the key reference's length, the key reference, then
//! the ciphertext.

use vstd::prelude::*;

use crate::bytes::{be_to_u32, lemma_u32_be_round_trip, spec_be_u32, spec_u32_be, u32_to_be};

verus! {

/// The framed engine value holding `ciphertext` and `key_reference`.
pub open spec fn spec_record_bytes(ciphertext: Seq<u8>, key_reference: Seq<u8>) -> Seq<u8>
    recommends
        key_reference.len() <= u32::MAX,
{
    spec_u32_be(key_reference.len() as u32) + key_reference + ciphertext
}

/// Equal frames hold equal parts: the frame determines the ciphertext and the
/// key reference, so nothing else can decode out of a stored record.
pub proof fn lemma_record_bytes_injective(c1: Seq<u8>, k1: Seq<u8>, c2: Seq<u8>, k2: Seq<u8>)
    requires
        k1.len() <= u32::MAX,
        k2.len() <= u32::MAX,
        spec_record_bytes(c1, k1) == spec_record_bytes(c2, k2),
    ensures
        c1 == c2,
        k1 == k2,
{
    let s1 = spec_record_bytes(c1, k1);
    let s2 = spec_record_bytes(c2, k2);
    assert(spec_u32_be(k1.len() as u32) =~= s1.subrange(0, 4));
    assert(spec_u32_be(k2.len() as u32) =~= s2.subrange(0, 4));
    lemma_u32_be_round_trip(k1.len() as u32);
    lemma_u32_be_round_trip(k2.len() as u32);
    assert(spec_be_u32(s1.subrange(0, 4)) == k1.len());
    assert(spec_be_u32(s2.subrange(0, 4)) == k2.len());
    assert(k1 =~= s1.subrange(4, 4 + k1.len() as int));
    assert(k2 =~= s2.subrange(4, 4 + k2.len() as int));
    assert(c1 =~= s1.subrange(4 + k1.len() as int, s1.len() as int));
    assert(c2 =~= s2.subrange(4 + k2.len() as int, s2.len() as int));
}

/// Frame a record for the engine. None exactly when the key reference is too
/// long for its four-byte length prefix.
pub fn encode_record(ciphertext: &Vec<u8>, key_reference: &Vec<u8>) -> (r: Option<Vec<u8>>)
    ensures
        key_reference@.len() <= u32::MAX ==> (r matches Some(b) && b@ == spec_record_bytes(
            ciphertext@,
            key_reference@,
        )),
        key_reference@.len() > u32::MAX ==> r is None,
{
    if key_reference.len() as u64 > u32::MAX as u64 {
        return None;
    }
    let mut b = u32_to_be(key_reference.len() as u32);
    let mut i: usize = 0;
    while i < key_reference.len()
        invariant
            i <= key_reference.len(),
            key_reference@.len() <= u32::MAX,
            b@ == spec_u32_be(key_reference@.len() as u32) + key_reference@.subrange(0, i as int),
        decreases key_reference.len() - i,
    {
        b.push(key_reference[i]);
        assert(b@ =~= spec_u32_be(key_reference@.len() as u32) + key_reference@.subrange(
            0,
            i + 1 as int,
        ));
        i = i + 1;
    }
    assert(key_reference@.subrange(0, key_reference@.len() as int) =~= key_reference@);
    let mut j: usize = 0;
    while j < ciphertext.len()
        invariant
            j <= ciphertext.len(),
            key_reference@.len() <= u32::MAX,
            b@ == spec_u32_be(key_reference@.len() as u32) + key_reference@ + ciphertext@.subrange(
                0,
                j as int,
            ),
        decreases ciphertext.len() - j,
    {
        b.push(ciphertext[j]);
        assert(b@ =~= spec_u32_be(key_reference@.len() as u32) + key_reference@
            + ciphertext@.subrange(0, j + 1 as int));
        j = j + 1;
    }
    assert(ciphertext@.subrange(0, ciphertext@.len() as int) =~= ciphertext@);
    Some(b)
}

/// Open a stored frame back into `(ciphertext, key_reference)`. None exactly
/// when the bytes are not the frame of any record — a corrupt value.
pub fn decode_record(bytes: &Vec<u8>) -> (r: Option<(Vec<u8>, Vec<u8>)>)
    ensures
        match r {
            Some(parts) => parts.1@.len() <= u32::MAX && bytes@ == spec_record_bytes(
                parts.0@,
                parts.1@,
            ),
            None => forall|c: Seq<u8>, k: Seq<u8>|
                k.len() <= u32::MAX ==> bytes@ != spec_record_bytes(c, k),
        },
{
    if bytes.len() < 4 {
        proof {
            assert forall|c: Seq<u8>, k: Seq<u8>|
                k.len() <= u32::MAX implies bytes@ != spec_record_bytes(c, k) by {
                assert(spec_record_bytes(c, k).len() >= 4);
            }
        }
        return None;
    }
    let len32 = be_to_u32(bytes[0], bytes[1], bytes[2], bytes[3]);
    proof {
        assert(seq![bytes@[0], bytes@[1], bytes@[2], bytes@[3]] =~= bytes@.subrange(0, 4));
    }
    let rest = bytes.len() - 4;
    if (rest as u64) < (len32 as u64) {
        proof {
            assert forall|c: Seq<u8>, k: Seq<u8>|
                k.len() <= u32::MAX implies bytes@ != spec_record_bytes(c, k) by {
                if bytes@ == spec_record_bytes(c, k) {
                    assert(spec_u32_be(k.len() as u32) =~= bytes@.subrange(0, 4));
                    lemma_u32_be_round_trip(k.len() as u32);
                    assert(len32 == k.len());
                    assert(bytes@.len() == 4 + k.len() + c.len());
                }
            }
        }
        return None;
    }
    let len = len32 as usize;
    let n = bytes.len();
    assert(4 + len <= n);
    let mut key_reference: Vec<u8> = Vec::new();
    let mut i: usize = 4;
    while i < 4 + len
        invariant
            4 <= i <= 4 + len,
            4 + len <= n == bytes@.len(),
            key_reference@ == bytes@.subrange(4, i as int),
        decreases 4 + len - i,
    {
        key_reference.push(bytes[i]);
        assert(key_reference@ =~= bytes@.subrange(4, i + 1 as int));
        i = i + 1;
    }
    let mut ciphertext: Vec<u8> = Vec::new();
    let mut j: usize = 4 + len;
    while j < bytes.len()
        invariant
            4 + len <= j <= n == bytes@.len(),
            ciphertext@ == bytes@.subrange(4 + len as int, j as int),
        decreases bytes@.len() - j,
    {
        ciphertext.push(bytes[j]);
        assert(ciphertext@ =~= bytes@.subrange(4 + len as int, j + 1 as int));
        j = j + 1;
    }
    proof {
        assert(spec_u32_be(len32) =~= bytes@.subrange(0, 4)) by {
            crate::bytes::lemma_u32_be_of_spec_be(bytes@.subrange(0, 4), len32);
        }
        assert(bytes@ =~= spec_record_bytes(ciphertext@, key_reference@));
    }
    Some((ciphertext, key_reference))
}

} // verus!
