//! The hasher capability and its backends: the poseidon algebraic hash over
//! field elements, and five byte-oriented hash functions, each wrapping one
//! cryptographic primitive configured for a 32-byte output.

use crate::bytes_le::{le_bytes, le_val, lemma_le_bytes_of_le_val};
use crate::chunks::{chunk_vals, n_chunks};
use crate::encode::bytes_into_frs;
use crate::field::{fr_to_le_bytes, poseidon_hash, poseidon_of, POSEIDON_MAX_ELEMS};
use crate::{digest_matches, HashError, HASH_LEN};
use vstd::prelude::*;

verus! {

/// The hashing capability the surrounding tree structure relies on:
/// parameterless construction that never fails, and a deterministic digest
/// of one complete byte buffer with a uniform 32-byte output.
pub trait Hasher: Sized {
    /// The model of this backend's digest: what `digest` returns, as a
    /// function of the input bytes alone.
    spec fn spec_digest(&self, bytes: Seq<u8>) -> Result<Seq<u8>, HashError>;

    fn new() -> (r: Self);

    fn digest(&self, bytes: &[u8]) -> (r: Result<crate::Hash, HashError>)
        ensures
            digest_matches(r, self.spec_digest(bytes@)),
            r matches Ok(h) ==> h@.len() == HASH_LEN,
    ;
}

/// Determinism: a backend's digest result is a function of the input bytes
/// alone, so any two results that meet `digest`'s contract on the same input
/// agree — byte for byte on success, and on the error otherwise.
pub proof fn lemma_digest_deterministic<H: Hasher>(
    h: &H,
    bytes: Seq<u8>,
    r1: Result<crate::Hash, HashError>,
    r2: Result<crate::Hash, HashError>,
)
    requires
        digest_matches(r1, h.spec_digest(bytes)),
        digest_matches(r2, h.spec_digest(bytes)),
    ensures
        r1 is Ok <==> r2 is Ok,
        r1 is Ok ==> r1->Ok_0@ == r2->Ok_0@,
        r1 is Err ==> r1->Err_0 == r2->Err_0,
{
}

/// What the BLAKE2s primitive at its 32-byte output size digests a byte
/// buffer to: a function of the input bytes alone.
pub uninterp spec fn blake2s_of(bytes: Seq<u8>) -> Seq<u8>;

/// What the BLAKE2b primitive at its 32-byte output size digests a byte
/// buffer to: a function of the input bytes alone.
pub uninterp spec fn blake2b_of(bytes: Seq<u8>) -> Seq<u8>;

/// What the BLAKE3 tree hash digests a byte buffer to: a function of the
/// input bytes alone.
pub uninterp spec fn blake3_of(bytes: Seq<u8>) -> Seq<u8>;

/// What SHA-256 digests a byte buffer to: a function of the input bytes
/// alone.
pub uninterp spec fn sha2_of(bytes: Seq<u8>) -> Seq<u8>;

/// What SHA3-256 digests a byte buffer to: a function of the input bytes
/// alone.
pub uninterp spec fn sha3_of(bytes: Seq<u8>) -> Seq<u8>;

/// Relies on `blake2_rfc::blake2s::blake2s` asked for 32 bytes and no key:
/// the unkeyed BLAKE2s-256 digest of the whole buffer, fed in one update.
#[verifier::external_body]
fn blake2s_hash(bytes: &[u8]) -> (r: crate::Hash)
    ensures
        r@ == blake2s_of(bytes@),
{
    let d = blake2_rfc::blake2s::blake2s(HASH_LEN, &[], bytes);
    let mut out = [0u8; 32];
    out.copy_from_slice(d.as_bytes());
    out
}

/// Relies on `blake2_rfc::blake2b::blake2b` asked for 32 bytes and no key:
/// the unkeyed BLAKE2b-256 digest of the whole buffer, fed in one update.
#[verifier::external_body]
fn blake2b_hash(bytes: &[u8]) -> (r: crate::Hash)
    ensures
        r@ == blake2b_of(bytes@),
{
    let d = blake2_rfc::blake2b::blake2b(HASH_LEN, &[], bytes);
    let mut out = [0u8; 32];
    out.copy_from_slice(d.as_bytes());
    out
}

/// Relies on `blake3::hash`: the BLAKE3 digest of the whole buffer, 32 bytes.
#[verifier::external_body]
fn blake3_hash(bytes: &[u8]) -> (r: crate::Hash)
    ensures
        r@ == blake3_of(bytes@),
{
    let d = blake3::hash(bytes);
    let mut out = [0u8; 32];
    out.copy_from_slice(d.as_bytes());
    out
}

/// Relies on `sha2::Sha256` through `digest::Digest::digest`: the SHA-256
/// digest of the whole buffer, 32 bytes.
#[verifier::external_body]
fn sha2_hash(bytes: &[u8]) -> (r: crate::Hash)
    ensures
        r@ == sha2_of(bytes@),
{
    let d = <sha2::Sha256 as digest::Digest>::digest(bytes);
    let mut out = [0u8; 32];
    out.copy_from_slice(d.as_slice());
    out
}

/// Relies on `sha3::Sha3_256` through `digest::Digest::digest`: the SHA3-256
/// digest of the whole buffer, 32 bytes.
#[verifier::external_body]
fn sha3_hash(bytes: &[u8]) -> (r: crate::Hash)
    ensures
        r@ == sha3_of(bytes@),
{
    let d = <sha3::Sha3_256 as digest::Digest>::digest(bytes);
    let mut out = [0u8; 32];
    out.copy_from_slice(d.as_slice());
    out
}

/// A hasher using the poseidon algebraic hash over field elements.
///
/// Its digest encodes the buffer as field elements (31-byte chunks), hashes
/// the ordered sequence with poseidon, and serializes the resulting element
/// as 32 little-endian bytes. An empty buffer — and any buffer of more than
/// 16 chunks, that is more than 496 bytes — is rejected by the primitive and
/// reported as `HashError::Primitive`.
#[derive(Clone, Debug)]
pub struct Poseidon;

impl Hasher for Poseidon {
    open spec fn spec_digest(&self, bytes: Seq<u8>) -> Result<Seq<u8>, HashError> {
        if 1 <= n_chunks(bytes.len()) && n_chunks(bytes.len()) <= POSEIDON_MAX_ELEMS {
            Ok(le_bytes(poseidon_of(chunk_vals(bytes)), 32))
        } else {
            Err(HashError::Primitive)
        }
    }

    fn new() -> (r: Self)
        ensures
            r == Poseidon,
    {
        Poseidon
    }

    fn digest(&self, bytes: &[u8]) -> (r: Result<crate::Hash, HashError>)
        ensures
            r is Ok <==> 1 <= n_chunks(bytes@.len()) <= POSEIDON_MAX_ELEMS,
            r matches Ok(h) ==> le_val(h@) == poseidon_of(chunk_vals(bytes@)),
            r matches Err(e) ==> e == HashError::Primitive,
            bytes@.len() == 0 ==> r is Err,
    {
        let frs = match bytes_into_frs(bytes) {
            Ok(frs) => frs,
            Err(e) => {
                return Err(e);
            },
        };
        let f = match poseidon_hash(frs) {
            Some(f) => f,
            None => {
                return Err(HashError::Primitive);
            },
        };
        match fr_to_le_bytes(&f) {
            Some(out) => {
                proof {
                    lemma_le_bytes_of_le_val(out@);
                }
                Ok(out)
            },
            None => Err(HashError::Serialization),
        }
    }
}

/// A hasher using the `Blake2s` hash function.
#[derive(Clone, Debug)]
pub struct Blake2s;

impl Hasher for Blake2s {
    open spec fn spec_digest(&self, bytes: Seq<u8>) -> Result<Seq<u8>, HashError> {
        Ok(blake2s_of(bytes))
    }

    fn new() -> (r: Self)
        ensures
            r == Blake2s,
    {
        Blake2s
    }

    fn digest(&self, bytes: &[u8]) -> (r: Result<crate::Hash, HashError>)
        ensures
            r is Ok,
            r matches Ok(h) ==> h@ == blake2s_of(bytes@),
    {
        Ok(blake2s_hash(bytes))
    }
}

/// A hasher using the `Blake2b` hash function.
#[derive(Clone, Debug)]
pub struct Blake2b;

impl Hasher for Blake2b {
    open spec fn spec_digest(&self, bytes: Seq<u8>) -> Result<Seq<u8>, HashError> {
        Ok(blake2b_of(bytes))
    }

    fn new() -> (r: Self)
        ensures
            r == Blake2b,
    {
        Blake2b
    }

    fn digest(&self, bytes: &[u8]) -> (r: Result<crate::Hash, HashError>)
        ensures
            r is Ok,
            r matches Ok(h) ==> h@ == blake2b_of(bytes@),
    {
        Ok(blake2b_hash(bytes))
    }
}

/// A hasher using the `Blake3` hash function.
#[derive(Clone, Debug)]
pub struct Blake3;

impl Hasher for Blake3 {
    open spec fn spec_digest(&self, bytes: Seq<u8>) -> Result<Seq<u8>, HashError> {
        Ok(blake3_of(bytes))
    }

    fn new() -> (r: Self)
        ensures
            r == Blake3,
    {
        Blake3
    }

    fn digest(&self, bytes: &[u8]) -> (r: Result<crate::Hash, HashError>)
        ensures
            r is Ok,
            r matches Ok(h) ==> h@ == blake3_of(bytes@),
    {
        Ok(blake3_hash(bytes))
    }
}

/// A hasher using the `SHA2` hash function.
#[derive(Clone, Debug)]
pub struct Sha2;

impl Hasher for Sha2 {
    open spec fn spec_digest(&self, bytes: Seq<u8>) -> Result<Seq<u8>, HashError> {
        Ok(sha2_of(bytes))
    }

    fn new() -> (r: Self)
        ensures
            r == Sha2,
    {
        Sha2
    }

    fn digest(&self, bytes: &[u8]) -> (r: Result<crate::Hash, HashError>)
        ensures
            r is Ok,
            r matches Ok(h) ==> h@ == sha2_of(bytes@),
    {
        Ok(sha2_hash(bytes))
    }
}

/// A hasher using the `SHA3` hash function.
#[derive(Clone, Debug)]
pub struct Sha3;

impl Hasher for Sha3 {
    open spec fn spec_digest(&self, bytes: Seq<u8>) -> Result<Seq<u8>, HashError> {
        Ok(sha3_of(bytes))
    }

    fn new() -> (r: Self)
        ensures
            r == Sha3,
    {
        Sha3
    }

    fn digest(&self, bytes: &[u8]) -> (r: Result<crate::Hash, HashError>)
        ensures
            r is Ok,
            r matches Ok(h) ==> h@ == sha3_of(bytes@),
    {
        Ok(sha3_hash(bytes))
    }
}

} // verus!
