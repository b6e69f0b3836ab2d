//! The little-endian reading of byte sequences as natural numbers, and the
//! inverse fixed-width encoding. Digest contracts are stated over these.

use vstd::prelude::*;

verus! {

/// The value of a byte sequence read as a little-endian integer:
/// the first byte is the least significant.
pub open spec fn le_val(s: Seq<u8>) -> nat
    decreases s.len(),
{
    if s.len() == 0 {
        0
    } else {
        s[0] as nat + 256 * le_val(s.drop_first())
    }
}

/// The `len`-byte little-endian encoding of `n` (mod 256^len).
pub open spec fn le_bytes(n: nat, len: nat) -> Seq<u8>
    decreases len,
{
    if len == 0 {
        Seq::empty()
    } else {
        seq![(n % 256) as u8] + le_bytes(n / 256, (len - 1) as nat)
    }
}

/// 256 raised to the power `n`: the number of distinct `n`-byte buffers.
pub open spec fn pow256(n: nat) -> nat
    decreases n,
{
    if n == 0 {
        1
    } else {
        256 * pow256((n - 1) as nat)
    }
}

/// A sequence of `len` bytes always reads below 256^len.
pub proof fn lemma_le_val_bound(s: Seq<u8>)
    ensures
        le_val(s) < pow256(s.len()),
    decreases s.len(),
{
    if s.len() > 0 {
        lemma_le_val_bound(s.drop_first());
    }
}

pub proof fn lemma_pow256_mono(m: nat, n: nat)
    requires
        m <= n,
    ensures
        pow256(m) <= pow256(n),
    decreases n,
{
    if m < n {
        lemma_pow256_mono(m, (n - 1) as nat);
    }
}

/// Reading a buffer and re-encoding it at its own width gives the buffer back.
pub proof fn lemma_le_bytes_of_le_val(s: Seq<u8>)
    ensures
        le_bytes(le_val(s), s.len()) == s,
    decreases s.len(),
{
    if s.len() > 0 {
        let a = s[0] as nat;
        let b = le_val(s.drop_first());
        assert((a + 256 * b) % 256 == a) by (nonlinear_arith)
            requires
                a < 256,
        ;
        assert((a + 256 * b) / 256 == b) by (nonlinear_arith)
            requires
                a < 256,
        ;
        lemma_le_bytes_of_le_val(s.drop_first());
        assert(le_bytes(le_val(s), s.len()) =~= s);
    }
}

/// At a fixed width, the little-endian reading determines the bytes:
/// two equal-length buffers with the same value are the same buffer.
pub proof fn lemma_le_val_injective(s1: Seq<u8>, s2: Seq<u8>)
    requires
        s1.len() == s2.len(),
        le_val(s1) == le_val(s2),
    ensures
        s1 == s2,
{
    lemma_le_bytes_of_le_val(s1);
    lemma_le_bytes_of_le_val(s2);
}

/// Appending a zero byte at the most-significant end keeps the value.
pub proof fn lemma_le_val_push_zero(s: Seq<u8>)
    ensures
        le_val(s.push(0)) == le_val(s),
    decreases s.len(),
{
    if s.len() == 0 {
        assert(s.push(0).drop_first() =~= Seq::<u8>::empty());
        assert(le_val(s.push(0)) == s.push(0)[0] as nat + 256 * le_val(s.push(0).drop_first()));
        assert(s.push(0)[0] == 0);
    } else {
        assert(s.push(0).drop_first() =~= s.drop_first().push(0));
        lemma_le_val_push_zero(s.drop_first());
        assert(le_val(s.push(0)) == s.push(0)[0] as nat + 256 * le_val(s.push(0).drop_first()));
        assert(s.push(0)[0] == s[0]);
    }
}

} // verus!
