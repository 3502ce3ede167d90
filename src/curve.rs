//! BLS12-381 point encodings and the curve operations the verifier needs.
//!
//! Points travel through the library as their uncompressed big-endian
//! encodings: 96 bytes for G1, 192 bytes for G2; scalars as 32 big-endian
//! bytes. The arithmetic itself is done by the Soroban host; decoding checks
//! use arkworks.
use ark_serialize::CanonicalDeserialize;
use ark_serialize::Valid;
use soroban_sdk::crypto::bls12_381::{Fr, G1Affine, G2Affine};
use soroban_sdk::{BytesN, Env};
use vstd::prelude::*;

verus! {

/// Soroban's `Env`, the handle through which the host's curve operations are
/// called; opaque here.
#[verifier::external_type_specification]
#[verifier::external_body]
pub struct ExEnv(soroban_sdk::Env);

/// An uncompressed G1 encoding.
pub type G1Bytes = [u8; 96];

/// An uncompressed G2 encoding.
pub type G2Bytes = [u8; 192];

/// A scalar of the field Fr, big-endian; the host reduces it modulo the group order.
pub type ScalarBytes = [u8; 32];

/// The bytes decode to a G1 point that lies on the curve and in the prime-order subgroup.
pub uninterp spec fn g1_decodes(p: Seq<u8>) -> bool;

/// The bytes decode to a G2 point that lies on the curve and in the prime-order subgroup.
pub uninterp spec fn g2_decodes(p: Seq<u8>) -> bool;

/// Encoding of the sum of two G1 points.
pub uninterp spec fn g1_sum(a: Seq<u8>, b: Seq<u8>) -> Seq<u8>;

/// Encoding of a G1 point multiplied by a scalar.
pub uninterp spec fn g1_scaled(p: Seq<u8>, s: Seq<u8>) -> Seq<u8>;

/// Encoding of the negation of a G1 point.
pub uninterp spec fn g1_negated(p: Seq<u8>) -> Seq<u8>;

/// Whether the product of the pairings of the paired points is the identity.
pub uninterp spec fn pairing_is_identity(g1s: Seq<Seq<u8>>, g2s: Seq<Seq<u8>>) -> bool;

/// The three flag bits of the first byte are well formed: compression and sort
/// flags unset, and the infinity flag set only when every other bit is zero.
pub open spec fn flags_ok(p: Seq<u8>) -> bool {
    p.len() > 0 && ((p[0] & 0xe0u8) == 0u8 || (p[0] == 0x40u8 && forall|i: int|
        1 <= i < p.len() ==> #[trigger] p[i] == 0u8))
}

/// An encoding that every host curve operation accepts.
pub open spec fn g1_valid(p: Seq<u8>) -> bool {
    flags_ok(p) && g1_decodes(p)
}

pub open spec fn g2_valid(p: Seq<u8>) -> bool {
    flags_ok(p) && g2_decodes(p)
}

pub open spec fn g1_views(ps: Seq<G1Bytes>) -> Seq<Seq<u8>> {
    ps.map_values(|p: G1Bytes| p@)
}

pub open spec fn g2_views(ps: Seq<G2Bytes>) -> Seq<Seq<u8>> {
    ps.map_values(|p: G2Bytes| p@)
}

/// Checks the flag bits of an encoding.
pub fn check_flags(p: &[u8]) -> (r: bool)
    ensures
        r == flags_ok(p@),
{
    if p.len() == 0 {
        return false;
    }
    let first = p[0];
    if first & 0xe0u8 == 0u8 {
        return true;
    }
    if first != 0x40u8 {
        return false;
    }
    assert(0x40u8 & 0xe0u8 == 0x40u8) by (bit_vector);
    let mut i: usize = 1;
    while i < p.len()
        invariant
            1 <= i <= p@.len(),
            p@[0] == 0x40u8,
            (p@[0] & 0xe0u8) != 0u8,
            forall|j: int| 1 <= j < i ==> p@[j] == 0u8,
        decreases p@.len() - i,
    {
        if p[i] != 0u8 {
            assert(p@[i as int] != 0u8);
            return false;
        }
        i = i + 1;
    }
    true
}

/// Relies on ark_bls12_381's uncompressed G1 decoding and `Valid::check`
/// (on the curve and in the subgroup).
#[verifier::external_body]
fn g1_decode_check(p: &G1Bytes) -> (r: bool)
    ensures
        r == g1_decodes(p@),
{
    match ark_bls12_381::G1Affine::deserialize_uncompressed_unchecked(&p[..]) {
        Ok(q) => q.check().is_ok(),
        Err(_) => false,
    }
}

/// Relies on ark_bls12_381's uncompressed G2 decoding and `Valid::check`
/// (on the curve and in the subgroup).
#[verifier::external_body]
fn g2_decode_check(p: &G2Bytes) -> (r: bool)
    ensures
        r == g2_decodes(p@),
{
    match ark_bls12_381::G2Affine::deserialize_uncompressed_unchecked(&p[..]) {
        Ok(q) => q.check().is_ok(),
        Err(_) => false,
    }
}

/// Whether the host accepts this G1 encoding in every curve operation.
pub fn is_valid_g1(p: &G1Bytes) -> (r: bool)
    ensures
        r == g1_valid(p@),
{
    check_flags(p) && g1_decode_check(p)
}

/// Whether the host accepts this G2 encoding in every curve operation.
pub fn is_valid_g2(p: &G2Bytes) -> (r: bool)
    ensures
        r == g2_valid(p@),
{
    check_flags(p) && g2_decode_check(p)
}

/// Relies on soroban_sdk's `Bls12_381::g1_add`: the host traps only on encodings
/// that do not decode to a point on the curve; the sum of two subgroup points
/// stays in the subgroup.
#[verifier::external_body]
pub(crate) fn g1_add(env: &Env, a: &G1Bytes, b: &G1Bytes) -> (r: G1Bytes)
    requires
        g1_valid(a@),
        g1_valid(b@),
    ensures
        r@ == g1_sum(a@, b@),
        g1_valid(r@),
{
    let pa = G1Affine::from_array(env, a);
    let pb = G1Affine::from_array(env, b);
    env.crypto().bls12_381().g1_add(&pa, &pb).to_array()
}

/// Relies on soroban_sdk's `Bls12_381::g1_mul`: the host traps on points outside
/// the subgroup and reduces the scalar modulo the group order.
#[verifier::external_body]
pub(crate) fn g1_mul(env: &Env, p: &G1Bytes, s: &ScalarBytes) -> (r: G1Bytes)
    requires
        g1_valid(p@),
    ensures
        r@ == g1_scaled(p@, s@),
        g1_valid(r@),
{
    let pp = G1Affine::from_array(env, p);
    let fs = Fr::from_bytes(BytesN::from_array(env, s));
    env.crypto().bls12_381().g1_mul(&pp, &fs).to_array()
}

/// Relies on soroban_sdk's `Neg for G1Affine`, which replaces y by p - y and
/// keeps a zero y (the point at infinity) as it is.
#[verifier::external_body]
pub(crate) fn g1_neg(env: &Env, p: &G1Bytes) -> (r: G1Bytes)
    requires
        g1_valid(p@),
    ensures
        r@ == g1_negated(p@),
        g1_valid(r@),
{
    (-G1Affine::from_array(env, p)).to_array()
}

/// Relies on soroban_sdk's `Bls12_381::pairing_check`: it traps on vectors of
/// different or zero length and on points outside the subgroups.
#[verifier::external_body]
pub(crate) fn pairing_check(env: &Env, g1s: &Vec<G1Bytes>, g2s: &Vec<G2Bytes>) -> (r: bool)
    requires
        g1s@.len() == g2s@.len(),
        g1s@.len() > 0,
        forall|i: int| 0 <= i < g1s@.len() ==> g1_valid(#[trigger] g1s@[i]@),
        forall|i: int| 0 <= i < g2s@.len() ==> g2_valid(#[trigger] g2s@[i]@),
    ensures
        r == pairing_is_identity(g1_views(g1s@), g2_views(g2s@)),
{
    let mut g1_points = soroban_sdk::Vec::new(env);
    for p in g1s.iter() {
        g1_points.push_back(G1Affine::from_array(env, p));
    }
    let mut g2_points = soroban_sdk::Vec::new(env);
    for p in g2s.iter() {
        g2_points.push_back(G2Affine::from_array(env, p));
    }
    env.crypto().bls12_381().pairing_check(g1_points, g2_points)
}

} // verus!
