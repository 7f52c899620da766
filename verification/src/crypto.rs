//! The cryptographic primitives that the ledger calls, each behind a contract
//! that is taken on trust.
//!
//! Every function here is deterministic, so its result is given a name: a
//! specification function without a body, of which nothing is known but that
//! equal arguments give equal results.

use vstd::prelude::*;

verus! {

/// The BLAKE2s digest of `data`.
pub uninterp spec fn blake2s_digest(data: Seq<u8>) -> [u8; 32];

/// What the pseudorandom function gives for `input` under `seed`, if it gives
/// anything.
pub uninterp spec fn prf_output(seed: [u8; 32], input: [u8; 32]) -> Option<[u8; 32]>;

/// The two coordinates, each a field element in its canonical encoding, of the
/// curve point that `point` encodes in compressed form; `None` where `point`
/// encodes no point of the group.
pub uninterp spec fn point_coordinates(point: [u8; 32]) -> Option<([u8; 32], [u8; 32])>;

/// The field elements, each in its canonical encoding, into which `bytes` are
/// packed when they enter a statement as public input.
pub uninterp spec fn packed_field_elements(bytes: [u8; 32]) -> Option<Seq<[u8; 32]>>;

/// The canonical encoding of `value` as a field element.
pub uninterp spec fn scalar_field_element(value: u64) -> Option<[u8; 32]>;

/// Whether the proof system accepts `proof` for the statement of the
/// verification key `vk` on the public inputs `inputs`.
pub uninterp spec fn groth16_accepts(vk: Seq<u8>, proof: [u8; 192], inputs: Seq<[u8; 32]>) -> bool;

/// Calls `blake2::Blake2s::digest`. The contract claims only that the digest is
/// a function of the bytes hashed.
#[verifier::external_body]
pub(crate) fn blake2s(data: &Vec<u8>) -> (digest: [u8; 32])
    ensures
        digest == blake2s_digest(data@),
{
    <blake2::Blake2s as blake2::Digest>::digest(data).into()
}

/// Calls `ark_crypto_primitives::prf::Blake2s::evaluate`. The contract claims
/// only that the output is a function of seed and input.
#[verifier::external_body]
pub(crate) fn prf(seed: &[u8; 32], input: &[u8; 32]) -> (out: Option<[u8; 32]>)
    ensures
        out == prf_output(*seed, *input),
{
    <ark_crypto_primitives::prf::Blake2s as ark_crypto_primitives::PRF>::evaluate(seed, input).ok()
}

/// Calls `deserialize` of `ark_ed_on_bls12_381::EdwardsAffine` and `serialize`
/// of its two coordinates. The contract claims only that the coordinates are a
/// function of the encoded point.
#[verifier::external_body]
pub(crate) fn decode_point(point: &[u8; 32]) -> (xy: Option<([u8; 32], [u8; 32])>)
    ensures
        xy == point_coordinates(*point),
{
    let p = <ark_ed_on_bls12_381::EdwardsAffine as ark_serialize::CanonicalDeserialize>::deserialize(
        &point[..],
    ).ok()?;
    let (mut x, mut y) = ([0u8; 32], [0u8; 32]);
    ark_serialize::CanonicalSerialize::serialize(&p.x, &mut x[..]).ok()?;
    ark_serialize::CanonicalSerialize::serialize(&p.y, &mut y[..]).ok()?;
    Some((x, y))
}

/// Calls `ark_ff::ToConstraintField::to_field_elements` on the bytes, for the
/// base field of the curve, and `serialize` on each element. The contract
/// claims only that the elements are a function of the bytes.
#[verifier::external_body]
pub(crate) fn pack_bytes(bytes: &[u8; 32]) -> (out: Option<Vec<[u8; 32]>>)
    ensures
        match out {
            Some(elements) => packed_field_elements(*bytes) == Some(elements@),
            None => packed_field_elements(*bytes) is None,
        },
{
    let elements: Vec<ark_ed_on_bls12_381::Fq> = ark_ff::ToConstraintField::to_field_elements(
        &bytes[..],
    )?;
    elements.iter().map(|e| {
        let mut b = [0u8; 32];
        ark_serialize::CanonicalSerialize::serialize(e, &mut b[..]).ok().map(|_| b)
    }).collect()
}

/// Calls `From<u64>` of `ark_ed_on_bls12_381::Fq` and `serialize` on the
/// element. The contract claims only that the encoding is a function of the
/// value.
#[verifier::external_body]
pub(crate) fn encode_scalar(value: u64) -> (out: Option<[u8; 32]>)
    ensures
        out == scalar_field_element(value),
{
    let mut out = [0u8; 32];
    let element = ark_ed_on_bls12_381::Fq::from(value);
    ark_serialize::CanonicalSerialize::serialize(&element, &mut out[..]).ok()?;
    Some(out)
}

/// Calls `ark_groth16::verify_proof` over BLS12-381, on the verification key,
/// the proof and the public inputs decoded from their canonical encodings.
/// Whatever fails to decode or to verify is not accepted. The contract claims
/// only that the verdict is a function of the three.
#[verifier::external_body]
pub(crate) fn groth16_verify(vk: &Vec<u8>, proof: &[u8; 192], inputs: &Vec<[u8; 32]>) -> (ok: bool)
    ensures
        ok == groth16_accepts(vk@, *proof, inputs@),
{
    let decoded = (
        <ark_groth16::VerifyingKey<ark_bls12_381::Bls12_381> as ark_serialize::CanonicalDeserialize>::deserialize(&vk[..]),
        <ark_groth16::Proof<ark_bls12_381::Bls12_381> as ark_serialize::CanonicalDeserialize>::deserialize(&proof[..]),
        inputs.iter().map(|e| <ark_bls12_381::Fr as ark_serialize::CanonicalDeserialize>::deserialize(&e[..])).collect::<Result<Vec<_>, _>>(),
    );
    match decoded {
        (Ok(vk), Ok(proof), Ok(inputs)) => ark_groth16::verify_proof(&ark_groth16::prepare_verifying_key(&vk), &proof, &inputs).unwrap_or(false),
        _ => false,
    }
}

} // verus!
