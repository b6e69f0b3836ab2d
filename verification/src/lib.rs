//! A pluggable digest abstraction: one `Hasher` capability with a uniform
//! 32-byte output contract, implemented by an algebraic (field-based) backend
//! and five byte-oriented backends, each wrapping one cryptographic primitive.

use vstd::prelude::*;

pub mod bytes_le;
pub mod chunks;
pub mod encode;
pub mod field;
pub mod hasher;

verus! {

/// Number of bytes in every digest, whatever the backend.
pub const HASH_LEN: usize = 32;

/// The fixed-size digest container shared by every backend.
pub type Hash = [u8; HASH_LEN];

/// The distinguishable ways a digest computation can fail.
#[derive(Clone, Copy, Debug, PartialEq, Eq, Structural)]
pub enum HashError {
    /// A byte chunk does not encode a valid field element.
    Encoding,
    /// The algebraic hash primitive rejected its input.
    Primitive,
    /// A field element could not be written to the 32-byte buffer.
    Serialization,
}

/// Whether an executable digest result agrees with a model-level one:
/// success with the same bytes, or failure with the same error.
pub open spec fn digest_matches(r: Result<Hash, HashError>, model: Result<Seq<u8>, HashError>) -> bool {
    match (r, model) {
        (Ok(h), Ok(b)) => h@ == b,
        (Err(e), Err(m)) => e == m,
        _ => false,
    }
}

} // verus!
