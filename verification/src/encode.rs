//! The byte-to-field encoder: parts a byte buffer into consecutive chunks of
//! at most 31 bytes and maps each, in order, to one field element.

use crate::bytes_le::{le_val, lemma_le_val_bound, lemma_le_val_push_zero, lemma_pow256_mono, pow256};
use crate::chunks::{chunk_end, chunk_vals, lemma_chunk_vals_snoc, n_chunks, CHUNK_LEN};
use crate::field::{fr_from_le, fr_modulus, fr_val, lemma_pow256_31_lt_modulus};
use crate::HashError;
use vstd::prelude::*;

verus! {

/// Converts a byte buffer into the ordered field elements the algebraic
/// backend hashes: each chunk of at most 31 bytes is zero-extended to 32
/// bytes, read as a little-endian integer, and taken into the field. A chunk
/// out of range for the field would be reported as `HashError::Encoding`;
/// the 31-byte chunk width keeps every chunk in range, so the result is in
/// fact always `Ok`. An empty buffer yields an empty sequence of elements.
pub fn bytes_into_frs(bytes: &[u8]) -> (r: Result<Vec<poseidon_rs::Fr>, HashError>)
    ensures
        r is Ok,
        r matches Ok(frs) ==> frs@.map_values(|f: poseidon_rs::Fr| fr_val(f)) == chunk_vals(
            bytes@,
        ),
        r matches Ok(frs) ==> frs@.len() == n_chunks(bytes@.len()),
{
    let ghost gval = |f: poseidon_rs::Fr| fr_val(f);
    let mut frs: Vec<poseidon_rs::Fr> = Vec::new();
    let mut i: usize = 0;
    proof {
        assert(frs@.map_values(gval) =~= chunk_vals(bytes@.take(0)));
    }
    while i < bytes.len()
        invariant
            i <= bytes@.len(),
            i % 31 == 0 || i == bytes@.len(),
            frs@.map_values(gval) == chunk_vals(bytes@.take(i as int)),
            gval == (|f: poseidon_rs::Fr| fr_val(f)),
        decreases bytes@.len() - i,
    {
        let end: usize = if bytes.len() - i < CHUNK_LEN {
            bytes.len()
        } else {
            i + CHUNK_LEN
        };
        assert(end as int == chunk_end(i as int, bytes@.len() as int));
        let mut buf: Vec<u8> = Vec::new();
        let mut j: usize = i;
        while j < end
            invariant
                i <= j <= end,
                end <= bytes@.len(),
                buf@ == bytes@.subrange(i as int, j as int),
            decreases end - j,
        {
            let b = bytes[j];
            buf.push(b);
            j += 1;
            proof {
                assert(buf@ =~= bytes@.subrange(i as int, j as int));
            }
        }
        let ghost chunk = bytes@.subrange(i as int, end as int);
        proof {
            lemma_le_val_bound(buf@);
            lemma_pow256_mono(buf@.len(), 31);
            lemma_pow256_31_lt_modulus();
        }
        while buf.len() < 32
            invariant
                buf@.len() <= 32,
                le_val(buf@) == le_val(chunk),
                le_val(buf@) < fr_modulus(),
            decreases 32 - buf@.len(),
        {
            proof {
                lemma_le_val_push_zero(buf@);
            }
            buf.push(0u8);
        }
        match fr_from_le(buf.as_slice()) {
            Some(f) => {
                frs.push(f);
                proof {
                    lemma_chunk_vals_snoc(bytes@, i as int);
                    assert(frs@.map_values(gval) =~= chunk_vals(bytes@.take(end as int)));
                }
            },
            None => {
                // unreachable: the chunk value was shown to lie below the modulus
                return Err(HashError::Encoding);
            },
        }
        proof {
            if end < bytes@.len() {
                assert((i + 31) % 31 == 0) by (nonlinear_arith)
                    requires
                        i % 31 == 0,
                ;
            }
        }
        i = end;
    }
    proof {
        assert(bytes@.take(i as int) =~= bytes@);
    }
    Ok(frs)
}

} // verus!
