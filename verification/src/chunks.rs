//! Partitioning a byte buffer into consecutive chunks of at most 31 bytes,
//! each read as a little-endian value. The algebraic backend hashes exactly
//! this ordered sequence of values.

use crate::bytes_le::{le_val, lemma_le_val_injective};
use vstd::arithmetic::div_mod::{
    lemma_div_is_ordered, lemma_div_multiples_vanish_fancy, lemma_div_plus_one,
    lemma_fundamental_div_mod, lemma_mod_division_less_than_divisor,
};
use vstd::prelude::*;

verus! {

/// The number of bytes a full chunk holds: the largest width whose
/// zero-extended little-endian value always lies below the field modulus.
pub const CHUNK_LEN: usize = 31;

/// How many chunks a buffer of `len` bytes parts into: `len / 31`, rounded up.
pub open spec fn n_chunks(len: nat) -> nat {
    (len + 30) / 31
}

/// Where the chunk starting at `i` ends in a buffer of length `len`:
/// 31 bytes on, or at the end of the buffer.
pub open spec fn chunk_end(i: int, len: int) -> int {
    if i + 31 <= len {
        i + 31
    } else {
        len
    }
}

/// The little-endian values of the consecutive chunks of `s`, in order.
pub open spec fn chunk_vals(s: Seq<u8>) -> Seq<nat> {
    Seq::new(
        n_chunks(s.len()),
        |k: int| le_val(s.subrange(31 * k, chunk_end(31 * k, s.len() as int))),
    )
}

/// The chunk counts the encoder owes: none for an empty buffer, one for
/// 1 to 31 bytes, two for 32 bytes — in general `len / 31` rounded up.
pub proof fn lemma_chunk_count(s: Seq<u8>)
    ensures
        chunk_vals(s).len() == (s.len() + 30) / 31,
        s.len() == 0 ==> chunk_vals(s).len() == 0,
        1 <= s.len() <= 31 ==> chunk_vals(s).len() == 1,
        s.len() == 32 ==> chunk_vals(s).len() == 2,
{
    let len = s.len() as int;
    if len == 0 {
        lemma_div_multiples_vanish_fancy(0, 30, 31);
        assert(31 * 0 + 30 == len + 30);
    } else if len <= 31 {
        lemma_div_multiples_vanish_fancy(1, len - 1, 31);
        assert(31 * 1 + (len - 1) == len + 30);
    } else if len == 32 {
        lemma_div_multiples_vanish_fancy(2, 0, 31);
        assert(31 * 2 + 0 == len + 30);
    }
}

/// The encoding loses nothing: two buffers of the same length with the same
/// chunk values are the same buffer. Moving a byte from one chunk to another
/// therefore always changes the element sequence the algebraic backend hashes.
pub proof fn lemma_chunk_vals_injective(s1: Seq<u8>, s2: Seq<u8>)
    requires
        s1.len() == s2.len(),
        chunk_vals(s1) == chunk_vals(s2),
    ensures
        s1 == s2,
{
    let len = s1.len() as int;
    assert forall|n: int| 0 <= n < len implies s1[n] == s2[n] by {
        let k = n / 31;
        lemma_fundamental_div_mod(n, 31);
        lemma_mod_division_less_than_divisor(n, 31);
        assert(31 * k <= n < 31 * k + 31);
        assert(k < n_chunks(len as nat)) by {
            lemma_div_is_ordered(n, len - 1, 31);
            lemma_div_plus_one(len - 1, 31);
            assert(31 + (len - 1) == len + 30);
        }
        let e = chunk_end(31 * k, len);
        let c1 = s1.subrange(31 * k, e);
        let c2 = s2.subrange(31 * k, e);
        assert(chunk_vals(s1)[k] == le_val(c1));
        assert(chunk_vals(s2)[k] == le_val(c2));
        lemma_le_val_injective(c1, c2);
        assert(s1[n] == c1[n - 31 * k]);
        assert(s2[n] == c2[n - 31 * k]);
    }
    assert(s1 =~= s2);
}

/// Extending a prefix that holds whole chunks by one more chunk appends
/// exactly that chunk's value to the encoded sequence.
pub proof fn lemma_chunk_vals_snoc(s: Seq<u8>, i: int)
    requires
        0 <= i < s.len(),
        i % 31 == 0,
    ensures
        chunk_vals(s.take(chunk_end(i, s.len() as int))) == chunk_vals(s.take(i)).push(
            le_val(s.subrange(i, chunk_end(i, s.len() as int))),
        ),
{
    let len = s.len() as int;
    let end = chunk_end(i, len);
    let q = i / 31;
    lemma_fundamental_div_mod(i, 31);
    assert(i == 31 * q);
    let r = end - i;
    assert(1 <= r <= 31);
    assert(n_chunks(i as nat) == q) by {
        lemma_div_multiples_vanish_fancy(q, 30, 31);
        assert(31 * q + 30 == i + 30);
    }
    assert(n_chunks(end as nat) == q + 1) by {
        lemma_div_multiples_vanish_fancy(q + 1, r - 1, 31);
        assert(31 * (q + 1) + (r - 1) == end + 30);
    }
    let lhs = chunk_vals(s.take(end));
    let rhs = chunk_vals(s.take(i)).push(le_val(s.subrange(i, end)));
    assert forall|k: int| 0 <= k < lhs.len() implies lhs[k] == rhs[k] by {
        if k < q {
            assert(31 * (k + 1) <= 31 * q);
            assert(chunk_end(31 * k, end) == 31 * k + 31);
            assert(chunk_end(31 * k, i) == 31 * k + 31);
            assert(s.take(end).subrange(31 * k, 31 * k + 31) =~= s.subrange(31 * k, 31 * k + 31));
            assert(s.take(i).subrange(31 * k, 31 * k + 31) =~= s.subrange(31 * k, 31 * k + 31));
        } else {
            assert(k == q);
            assert(chunk_end(31 * q, end) == end);
            assert(s.take(end).subrange(i, end) =~= s.subrange(i, end));
        }
    }
    assert(lhs =~= rhs);
}

} // verus!
