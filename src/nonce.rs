//! Per-record nonce: the connection's IV with its last eight bytes XORed
//! against the big-endian record sequence number.

use vstd::prelude::*;

verus! {

/// The eight big-endian bytes of `x`.
pub open spec fn u64_be(x: u64) -> Seq<u8> {
    seq![
        (x >> 56u64) as u8,
        (x >> 48u64) as u8,
        (x >> 40u64) as u8,
        (x >> 32u64) as u8,
        (x >> 24u64) as u8,
        (x >> 16u64) as u8,
        (x >> 8u64) as u8,
        x as u8,
    ]
}

/// The nonce of record `seq`: `iv` with bytes 4..12 XORed with `u64_be(seq)`.
pub open spec fn nonce_of(iv: Seq<u8>, seq: u64) -> Seq<u8> {
    Seq::new(12, |i: int| if i < 4 { iv[i] } else { iv[i] ^ u64_be(seq)[i - 4] })
}

/// Derives the nonce of record `seq` from the connection's IV.
pub fn derive_nonce(iv: &[u8; 12], seq: u64) -> (r: [u8; 12])
    ensures
        r@ == nonce_of(iv@, seq),
{
    let mut n: [u8; 12] = *iv;
    n[4] = iv[4] ^ ((seq >> 56u64) as u8);
    n[5] = iv[5] ^ ((seq >> 48u64) as u8);
    n[6] = iv[6] ^ ((seq >> 40u64) as u8);
    n[7] = iv[7] ^ ((seq >> 32u64) as u8);
    n[8] = iv[8] ^ ((seq >> 24u64) as u8);
    n[9] = iv[9] ^ ((seq >> 16u64) as u8);
    n[10] = iv[10] ^ ((seq >> 8u64) as u8);
    n[11] = iv[11] ^ (seq as u8);
    assert(n@ =~= nonce_of(iv@, seq));
    n
}

proof fn lemma_xor_cancel(a: u8, x: u8, y: u8)
    by (bit_vector)
    requires
        a ^ x == a ^ y,
    ensures
        x == y,
{
}

proof fn lemma_be_bytes_injective(a: u64, b: u64)
    by (bit_vector)
    requires
        (a >> 56u64) as u8 == (b >> 56u64) as u8,
        (a >> 48u64) as u8 == (b >> 48u64) as u8,
        (a >> 40u64) as u8 == (b >> 40u64) as u8,
        (a >> 32u64) as u8 == (b >> 32u64) as u8,
        (a >> 24u64) as u8 == (b >> 24u64) as u8,
        (a >> 16u64) as u8 == (b >> 16u64) as u8,
        (a >> 8u64) as u8 == (b >> 8u64) as u8,
        a as u8 == b as u8,
    ensures
        a == b,
{
}

/// Two records of one connection with different sequence numbers never share
/// a nonce; in particular the nonces of `seq` and `seq + 1` differ.
pub proof fn lemma_nonce_distinct(iv: Seq<u8>, s1: u64, s2: u64)
    requires
        iv.len() == 12,
        s1 != s2,
    ensures
        nonce_of(iv, s1) != nonce_of(iv, s2),
{
    if nonce_of(iv, s1) == nonce_of(iv, s2) {
        let b1 = u64_be(s1);
        let b2 = u64_be(s2);
        assert forall|k: int| 0 <= k < 8 implies b1[k] == b2[k] by {
            assert(nonce_of(iv, s1)[k + 4] == nonce_of(iv, s2)[k + 4]);
            lemma_xor_cancel(iv[k + 4], b1[k], b2[k]);
        }
        assert(b1[0] == b2[0] && b1[1] == b2[1] && b1[2] == b2[2] && b1[3] == b2[3]);
        assert(b1[4] == b2[4] && b1[5] == b2[5] && b1[6] == b2[6] && b1[7] == b2[7]);
        lemma_be_bytes_injective(s1, s2);
    }
}

} // verus!
