use ff_ce::{PrimeField, PrimeFieldRepr};
use monotree_hasher::encode::bytes_into_frs;
use monotree_hasher::hasher::{Blake2b, Blake2s, Blake3, Hasher, Poseidon, Sha2, Sha3};
use monotree_hasher::HashError;

fn unhex(s: &str) -> Vec<u8> {
    let b = s.as_bytes();
    let mut out = Vec::new();
    let mut i = 0;
    while i < b.len() {
        let hi = (b[i] as char).to_digit(16).unwrap();
        let lo = (b[i + 1] as char).to_digit(16).unwrap();
        out.push((hi * 16 + lo) as u8);
        i += 2;
    }
    out
}

fn check_deterministic<H: Hasher>(h: &H, input: &[u8]) {
    assert_eq!(h.digest(input), h.digest(input));
}

#[test]
fn determinism_all_backends() {
    let input = b"monotree";
    check_deterministic(&Poseidon::new(), input);
    check_deterministic(&Blake2s::new(), input);
    check_deterministic(&Blake2b::new(), input);
    check_deterministic(&Blake3::new(), input);
    check_deterministic(&Sha2::new(), input);
    check_deterministic(&Sha3::new(), input);
    check_deterministic(&Poseidon::new(), &[]);
    check_deterministic(&Sha2::new(), &[]);
}

#[test]
fn digest_width_all_backends() {
    let input = b"fixed width";
    assert_eq!(Poseidon::new().digest(input).unwrap().len(), 32);
    assert_eq!(Blake2s::new().digest(input).unwrap().len(), 32);
    assert_eq!(Blake2b::new().digest(input).unwrap().len(), 32);
    assert_eq!(Blake3::new().digest(input).unwrap().len(), 32);
    assert_eq!(Sha2::new().digest(input).unwrap().len(), 32);
    assert_eq!(Sha3::new().digest(input).unwrap().len(), 32);
}

#[test]
fn empty_input_blake2s() {
    let expected = unhex("69217a3079908094e11121d042354a7c1f55b6482ca1a51e1b250dfd1ed0eef9");
    assert_eq!(Blake2s::new().digest(&[]).unwrap().to_vec(), expected);
}

#[test]
fn empty_input_blake2b() {
    let expected = unhex("0e5751c026e543b2e8ab2eb06099daa1d1e5df47778f7787faab45cdf12fe3a8");
    assert_eq!(Blake2b::new().digest(&[]).unwrap().to_vec(), expected);
}

#[test]
fn empty_input_blake3() {
    let expected = unhex("af1349b9f5f9a1a6a0404dea36dcc9499bcb25c9adc112b7cc9a93cae41f3262");
    assert_eq!(Blake3::new().digest(&[]).unwrap().to_vec(), expected);
}

#[test]
fn empty_input_sha2() {
    let expected = unhex("e3b0c44298fc1c149afbf4c8996fb92427ae41e4649b934ca495991b7852b855");
    assert_eq!(Sha2::new().digest(&[]).unwrap().to_vec(), expected);
}

#[test]
fn empty_input_sha3() {
    let expected = unhex("a7ffc6f8bf1ed76651c14756a061d662f580ff4de43b49fa82d80a4b80f8434a");
    assert_eq!(Sha3::new().digest(&[]).unwrap().to_vec(), expected);
}

#[test]
fn empty_input_poseidon_is_error() {
    // the algebraic primitive rejects an empty element sequence
    assert_eq!(Poseidon::new().digest(&[]), Err(HashError::Primitive));
}

fn check_tiny_inputs_distinct<H: Hasher>(h: &H) {
    let d0 = h.digest(&[0x00]).unwrap();
    let d1 = h.digest(&[0x01]).unwrap();
    let de = h.digest(&[]).unwrap();
    assert_ne!(d0, d1);
    assert_ne!(d0, de);
    assert_ne!(d1, de);
}

#[test]
fn tiny_inputs_distinct_blake2s() {
    check_tiny_inputs_distinct(&Blake2s::new());
}

#[test]
fn tiny_inputs_distinct_blake2b() {
    check_tiny_inputs_distinct(&Blake2b::new());
}

#[test]
fn tiny_inputs_distinct_blake3() {
    check_tiny_inputs_distinct(&Blake3::new());
}

#[test]
fn tiny_inputs_distinct_sha2() {
    check_tiny_inputs_distinct(&Sha2::new());
}

#[test]
fn tiny_inputs_distinct_sha3() {
    check_tiny_inputs_distinct(&Sha3::new());
}

#[test]
fn tiny_inputs_distinct_poseidon() {
    // the empty buffer is rejected by this backend, so only the two
    // one-byte digests can be compared
    let h = Poseidon::new();
    assert_ne!(h.digest(&[0x00]).unwrap(), h.digest(&[0x01]).unwrap());
}

#[test]
fn chunk_order_sensitivity_poseidon() {
    // move a byte from the first chunk into the second: same multiset of
    // bytes, different chunk sequence
    let h = Poseidon::new();
    let mut a = vec![0u8; 62];
    a[0] = 1;
    let mut b = vec![0u8; 62];
    b[31] = 1;
    assert_ne!(h.digest(&a).unwrap(), h.digest(&b).unwrap());
}

#[test]
fn cross_backend_independence() {
    let input = b"monotree";
    let digests = [
        Poseidon::new().digest(input).unwrap(),
        Blake2s::new().digest(input).unwrap(),
        Blake2b::new().digest(input).unwrap(),
        Blake3::new().digest(input).unwrap(),
        Sha2::new().digest(input).unwrap(),
        Sha3::new().digest(input).unwrap(),
    ];
    for i in 0..digests.len() {
        for j in 0..digests.len() {
            if i != j {
                assert_ne!(digests[i], digests[j]);
            }
        }
    }
}

#[test]
fn chunk_count_empty() {
    assert_eq!(bytes_into_frs(&[]).unwrap().len(), 0);
}

#[test]
fn chunk_count_31_bytes() {
    assert_eq!(bytes_into_frs(&[0xab; 31]).unwrap().len(), 1);
}

#[test]
fn chunk_count_32_bytes() {
    assert_eq!(bytes_into_frs(&[0xab; 32]).unwrap().len(), 2);
}

#[test]
fn encoder_single_byte_is_field_one() {
    let frs = bytes_into_frs(&[1u8]).unwrap();
    assert_eq!(frs.len(), 1);
    assert_eq!(frs[0], poseidon_rs::Fr::from_str("1").unwrap());
}

#[test]
fn encoder_little_endian_placement() {
    // the second byte of a chunk carries weight 256
    let frs = bytes_into_frs(&[0u8, 1u8]).unwrap();
    assert_eq!(frs.len(), 1);
    assert_eq!(frs[0], poseidon_rs::Fr::from_str("256").unwrap());
}

#[test]
fn poseidon_digest_matches_primitive() {
    // the full pipeline on one byte equals a direct run of the primitive
    // on the field element 1, serialized little-endian
    let p = poseidon_rs::Poseidon::new();
    let f = p.hash(vec![poseidon_rs::Fr::from_str("1").unwrap()]).unwrap();
    let mut expected = [0u8; 32];
    f.into_repr().write_le(&mut expected[..]).unwrap();
    assert_eq!(Poseidon::new().digest(&[1u8]).unwrap(), expected);
}

#[test]
fn poseidon_largest_accepted_input() {
    // 496 bytes part into 16 chunks, the most the primitive accepts
    let h = Poseidon::new();
    assert!(h.digest(&[7u8; 496]).is_ok());
    assert_eq!(h.digest(&[7u8; 497]), Err(HashError::Primitive));
}

#[test]
fn poseidon_31_byte_boundary_digest() {
    let h = Poseidon::new();
    assert!(h.digest(&[0xff; 31]).is_ok());
    assert!(h.digest(&[0xff; 32]).is_ok());
    assert_ne!(h.digest(&[0xff; 31]).unwrap(), h.digest(&[0xff; 32]).unwrap());
}
