//! The boundary to the algebraic hash primitive: the field element type of
//! the poseidon crate, names for the values it carries, and the three calls
//! the digest pipeline makes into it.

use crate::bytes_le::le_val;
use ff_ce::{PrimeField, PrimeFieldRepr};
use vstd::prelude::*;

verus! {

#[verifier::external_type_specification]
#[verifier::external_body]
pub struct ExFr(poseidon_rs::Fr);

/// The canonical integer a field element stands for: what its canonical
/// 32-byte little-endian representation reads as. Always below the modulus.
pub uninterp spec fn fr_val(f: poseidon_rs::Fr) -> nat;

/// The field element value the poseidon primitive digests an ordered
/// sequence of field element values to: a function of that sequence alone.
pub uninterp spec fn poseidon_of(elems: Seq<nat>) -> nat;

/// The modulus of the prime field the poseidon primitive works in.
pub open spec fn fr_modulus() -> nat {
    21888242871839275222246405745257275088548364400416034343698204186575808495617nat
}

/// The most field elements one poseidon invocation accepts.
pub const POSEIDON_MAX_ELEMS: usize = 16;

/// A value of at most 31 bytes always lies below the field modulus: that is
/// why the encoder parts its input at 31 bytes.
pub proof fn lemma_pow256_31_lt_modulus()
    ensures
        crate::bytes_le::pow256(31) < fr_modulus(),
{
    assert(crate::bytes_le::pow256(31)
        == 0x100000000000000000000000000000000000000000000000000000000000000nat) by {
        reveal_with_fuel(crate::bytes_le::pow256, 32);
    }
}

/// Relies on ff's `FrRepr::read_le`, which fills four limbs from a 32-byte
/// buffer read as a little-endian integer, and on `Fr::from_repr`, which
/// accepts exactly the integers below the field modulus and yields the
/// element standing for that integer.
#[verifier::external_body]
pub(crate) fn fr_from_le(b: &[u8]) -> (r: Option<poseidon_rs::Fr>)
    requires
        b@.len() == 32,
    ensures
        r is Some <==> le_val(b@) < fr_modulus(),
        r matches Some(f) ==> fr_val(f) == le_val(b@),
{
    let mut repr = poseidon_rs::FrRepr::from(0u64);
    if repr.read_le(b).is_err() {
        return None;
    }
    match poseidon_rs::Fr::from_repr(repr) {
        Ok(f) => Some(f),
        Err(_) => None,
    }
}

/// Relies on `poseidon_rs::Poseidon::hash`, run with the fixed constants its
/// `new` loads: it rejects exactly an empty or longer-than-16 input, and on
/// the inputs it accepts it returns a field element determined by the input
/// elements alone.
#[verifier::external_body]
pub(crate) fn poseidon_hash(frs: Vec<poseidon_rs::Fr>) -> (r: Option<poseidon_rs::Fr>)
    ensures
        r is Some <==> 1 <= frs@.len() <= POSEIDON_MAX_ELEMS,
        r matches Some(f) ==> fr_val(f) == poseidon_of(
            frs@.map_values(|x: poseidon_rs::Fr| fr_val(x)),
        ),
        r matches Some(f) ==> fr_val(f) < fr_modulus(),
{
    let p = poseidon_rs::Poseidon::new();
    match p.hash(frs) {
        Ok(f) => Some(f),
        Err(_) => None,
    }
}

/// Relies on ff's `Fr::into_repr`, the canonical (reduced) representation of
/// the element, and `FrRepr::write_le`, which writes it as exactly 32
/// little-endian bytes; std's `Write` for a 32-byte slice takes all of them.
#[verifier::external_body]
pub(crate) fn fr_to_le_bytes(f: &poseidon_rs::Fr) -> (r: Option<[u8; 32]>)
    ensures
        r is Some,
        r matches Some(out) ==> le_val(out@) == fr_val(*f) && le_val(out@) < fr_modulus(),
{
    let repr = f.into_repr();
    let mut out = [0u8; 32];
    match repr.write_le(&mut out[..]) {
        Ok(()) => Some(out),
        Err(_) => None,
    }
}

} // verus!
