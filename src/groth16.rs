//! Groth16 verification over BLS12-381.
use crate::curve::{
    g1_add, g1_mul, g1_neg, g1_negated, g1_scaled, g1_sum, g1_valid, g1_views,
    g2_valid, g2_views, is_valid_g1, is_valid_g2, pairing_check, pairing_is_identity, G1Bytes,
    G2Bytes, ScalarBytes,
};
use soroban_sdk::Env;
use vstd::prelude::*;

verus! {

/// A Groth16 verification key; `ic` holds one generator per public input, plus one.
pub struct VerificationKey {
    pub alpha: G1Bytes,
    pub beta: G2Bytes,
    pub gamma: G2Bytes,
    pub delta: G2Bytes,
    pub ic: Vec<G1Bytes>,
}

/// A Groth16 proof.
pub struct Groth16Proof {
    pub a: G1Bytes,
    pub b: G2Bytes,
    pub c: G1Bytes,
}

/// The public inputs do not match the verification key in number.
#[derive(Clone, Copy, Debug, PartialEq, Eq, Structural)]
pub enum VerifyError {
    MalformedProof,
}

/// `ic[0] + sum of signals[i] * ic[i + 1]` over the first `n` signals.
pub open spec fn linear_combination(ic: Seq<G1Bytes>, signals: Seq<ScalarBytes>, n: nat) -> Seq<u8>
    decreases n,
{
    if n == 0 {
        ic[0]@
    } else {
        g1_sum(
            linear_combination(ic, signals, (n - 1) as nat),
            g1_scaled(ic[n as int]@, signals[n - 1]@),
        )
    }
}

/// Every point of the key and of the proof is an encoding that the host accepts.
pub open spec fn points_valid(vk: VerificationKey, proof: Groth16Proof) -> bool {
    &&& g1_valid(vk.alpha@)
    &&& g2_valid(vk.beta@)
    &&& g2_valid(vk.gamma@)
    &&& g2_valid(vk.delta@)
    &&& forall|i: int| 0 <= i < vk.ic@.len() ==> g1_valid(#[trigger] vk.ic@[i]@)
    &&& g1_valid(proof.a@)
    &&& g2_valid(proof.b@)
    &&& g1_valid(proof.c@)
}

/// The Groth16 pairing equation `e(-A, B) e(alpha, beta) e(vk_x, gamma) e(C, delta) = 1`.
pub open spec fn pairing_equation_holds(
    vk: VerificationKey,
    proof: Groth16Proof,
    signals: Seq<ScalarBytes>,
) -> bool {
    pairing_is_identity(
        seq![
            g1_negated(proof.a@),
            vk.alpha@,
            linear_combination(vk.ic@, signals, signals.len()),
            proof.c@,
        ],
        seq![proof.b@, vk.beta@, vk.gamma@, vk.delta@],
    )
}

/// What `verify_groth16` answers: a count mismatch is malformed; otherwise the
/// proof is accepted exactly when all points are valid and the equation holds.
pub open spec fn groth16_outcome(
    vk: VerificationKey,
    proof: Groth16Proof,
    signals: Seq<ScalarBytes>,
) -> Result<bool, VerifyError> {
    if signals.len() + 1 != vk.ic@.len() {
        Err(VerifyError::MalformedProof)
    } else {
        Ok(points_valid(vk, proof) && pairing_equation_holds(vk, proof, signals))
    }
}

fn all_valid_g1(ps: &Vec<G1Bytes>) -> (r: bool)
    ensures
        r == forall|i: int| 0 <= i < ps@.len() ==> g1_valid(#[trigger] ps@[i]@),
{
    let mut i: usize = 0;
    while i < ps.len()
        invariant
            i <= ps@.len(),
            forall|j: int| 0 <= j < i ==> g1_valid(#[trigger] ps@[j]@),
        decreases ps@.len() - i,
    {
        if !is_valid_g1(&ps[i]) {
            return false;
        }
        i = i + 1;
    }
    true
}

/// Checks every point of the key and the proof before any curve arithmetic.
pub fn check_points(vk: &VerificationKey, proof: &Groth16Proof) -> (r: bool)
    ensures
        r == points_valid(*vk, *proof),
{
    is_valid_g1(&vk.alpha) && is_valid_g2(&vk.beta) && is_valid_g2(&vk.gamma)
        && is_valid_g2(&vk.delta) && all_valid_g1(&vk.ic) && is_valid_g1(&proof.a)
        && is_valid_g2(&proof.b) && is_valid_g1(&proof.c)
}

/// Folds the public inputs into `ic[0] + sum of signals[i] * ic[i + 1]`.
pub fn fold_public_inputs(env: &Env, ic: &Vec<G1Bytes>, signals: &Vec<ScalarBytes>) -> (r: G1Bytes)
    requires
        signals@.len() + 1 == ic@.len(),
        forall|i: int| 0 <= i < ic@.len() ==> g1_valid(#[trigger] ic@[i]@),
    ensures
        r@ == linear_combination(ic@, signals@, signals@.len()),
        g1_valid(r@),
{
    let mut acc: G1Bytes = ic[0];
    let mut i: usize = 0;
    while i < signals.len()
        invariant
            signals@.len() + 1 == ic@.len(),
            forall|j: int| 0 <= j < ic@.len() ==> g1_valid(#[trigger] ic@[j]@),
            i <= signals@.len(),
            acc@ == linear_combination(ic@, signals@, i as nat),
            g1_valid(acc@),
        decreases signals@.len() - i,
    {
        let prod = g1_mul(env, &ic[i + 1], &signals[i]);
        acc = g1_add(env, &acc, &prod);
        i = i + 1;
    }
    acc
}

/// Verifies a Groth16 proof against a key and its public inputs, in order.
///
/// A count of public inputs other than `ic.len() - 1` is `MalformedProof`. A
/// point that is not a valid encoding is rejected (`Ok(false)`) before any
/// pairing is attempted.
pub fn verify_groth16(
    env: &Env,
    vk: &VerificationKey,
    proof: &Groth16Proof,
    pub_signals: &Vec<ScalarBytes>,
) -> (r: Result<bool, VerifyError>)
    ensures
        r == groth16_outcome(*vk, *proof, pub_signals@),
{
    if vk.ic.len() == 0 || pub_signals.len() != vk.ic.len() - 1 {
        return Err(VerifyError::MalformedProof);
    }
    if !check_points(vk, proof) {
        return Ok(false);
    }
    let vk_x = fold_public_inputs(env, &vk.ic, pub_signals);
    let neg_a = g1_neg(env, &proof.a);
    let g1s: Vec<G1Bytes> = vec![neg_a, vk.alpha, vk_x, proof.c];
    let g2s: Vec<G2Bytes> = vec![proof.b, vk.beta, vk.gamma, vk.delta];
    proof {
        assert(g1_views(g1s@) =~= seq![
            g1_negated(proof.a@),
            vk.alpha@,
            linear_combination(vk.ic@, pub_signals@, pub_signals@.len()),
            proof.c@,
        ]);
        assert(g2_views(g2s@) =~= seq![proof.b@, vk.beta@, vk.gamma@, vk.delta@]);
    }
    Ok(pairing_check(env, &g1s, &g2s))
}

} // verus!
