use soroban_sdk::crypto::bls12_381::{Fr, G1Affine};
use soroban_sdk::{Bytes, BytesN, Env};
use zk_games::curve::{check_flags, is_valid_g1, is_valid_g2};
use zk_games::groth16::{verify_groth16, Groth16Proof, VerificationKey, VerifyError};

const DST: &[u8] = b"ZKGAMES-TEST-V01-CS01-with-BLS12381G1_XMD:SHA-256_SSWU_RO_";

fn g1(env: &Env, msg: &[u8]) -> [u8; 96] {
    env.crypto()
        .bls12_381()
        .hash_to_g1(&Bytes::from_slice(env, msg), &Bytes::from_slice(env, DST))
        .to_array()
}

fn g2(env: &Env, msg: &[u8]) -> [u8; 192] {
    env.crypto()
        .bls12_381()
        .hash_to_g2(&Bytes::from_slice(env, msg), &Bytes::from_slice(env, DST))
        .to_array()
}

fn scalar(v: u8) -> [u8; 32] {
    let mut s = [0u8; 32];
    s[31] = v;
    s
}

/// A key and a proof that satisfy the pairing equation for `signals`.
fn instance(env: &Env, signals: &[[u8; 32]]) -> (VerificationKey, Groth16Proof) {
    let bls = env.crypto().bls12_381();
    let p = g1(env, b"alpha");
    let q = g2(env, b"beta");
    let mut ic = vec![g1(env, b"ic0")];
    let mut vk_x = G1Affine::from_array(env, &ic[0]);
    for (i, s) in signals.iter().enumerate() {
        let gen = g1(env, format!("ic{}", i + 1).as_bytes());
        ic.push(gen);
        let prod = bls.g1_mul(
            &G1Affine::from_array(env, &gen),
            &Fr::from_bytes(BytesN::from_array(env, s)),
        );
        vk_x = bls.g1_add(&vk_x, &prod);
    }
    let c = (-vk_x).to_array();
    let vk = VerificationKey { alpha: p, beta: q, gamma: q, delta: q, ic };
    let proof = Groth16Proof { a: p, b: q, c };
    (vk, proof)
}

#[test]
fn genuine_proof_is_accepted() {
    let env = Env::default();
    let signals = vec![scalar(7), scalar(1)];
    let (vk, proof) = instance(&env, &signals);
    assert_eq!(verify_groth16(&env, &vk, &proof, &signals), Ok(true));
}

#[test]
fn genuine_proof_without_inputs_is_accepted() {
    let env = Env::default();
    let (vk, proof) = instance(&env, &[]);
    assert_eq!(verify_groth16(&env, &vk, &proof, &vec![]), Ok(true));
}

#[test]
fn changed_public_input_is_rejected() {
    let env = Env::default();
    let signals = vec![scalar(7), scalar(1)];
    let (vk, proof) = instance(&env, &signals);
    let mut changed = signals.clone();
    changed[1][31] ^= 1;
    assert_eq!(verify_groth16(&env, &vk, &proof, &changed), Ok(false));
}

#[test]
fn changed_proof_point_is_rejected() {
    let env = Env::default();
    let signals = vec![scalar(3)];
    let (vk, proof) = instance(&env, &signals);
    let mut bad_a = Groth16Proof { a: proof.a, b: proof.b, c: proof.c };
    bad_a.a[95] ^= 1;
    assert_eq!(verify_groth16(&env, &vk, &bad_a, &signals), Ok(false));
    let mut bad_c = Groth16Proof { a: proof.a, b: proof.b, c: proof.c };
    bad_c.c[60] ^= 1;
    assert_eq!(verify_groth16(&env, &vk, &bad_c, &signals), Ok(false));
}

#[test]
fn swapped_proof_points_are_rejected() {
    let env = Env::default();
    let signals = vec![scalar(3)];
    let (vk, proof) = instance(&env, &signals);
    let swapped = Groth16Proof { a: proof.c, b: proof.b, c: proof.a };
    assert_eq!(verify_groth16(&env, &vk, &swapped, &signals), Ok(false));
}

#[test]
fn wrong_input_count_is_malformed() {
    let env = Env::default();
    let signals = vec![scalar(7), scalar(1)];
    let (vk, proof) = instance(&env, &signals);
    assert_eq!(
        verify_groth16(&env, &vk, &proof, &vec![scalar(7)]),
        Err(VerifyError::MalformedProof)
    );
    assert_eq!(
        verify_groth16(&env, &vk, &proof, &vec![scalar(7), scalar(1), scalar(2)]),
        Err(VerifyError::MalformedProof)
    );
}

#[test]
fn empty_key_is_malformed() {
    let env = Env::default();
    let vk = VerificationKey { alpha: [0; 96], beta: [0; 192], gamma: [0; 192], delta: [0; 192], ic: vec![] };
    let proof = Groth16Proof { a: [0; 96], b: [0; 192], c: [0; 96] };
    assert_eq!(verify_groth16(&env, &vk, &proof, &vec![]), Err(VerifyError::MalformedProof));
}

#[test]
fn invalid_points_are_rejected_without_trapping() {
    let env = Env::default();
    let vk = VerificationKey { alpha: [0; 96], beta: [0; 192], gamma: [0; 192], delta: [0; 192], ic: vec![[0; 96]] };
    let proof = Groth16Proof { a: [0; 96], b: [0; 192], c: [0; 96] };
    assert_eq!(verify_groth16(&env, &vk, &proof, &vec![]), Ok(false));
}

#[test]
fn point_encodings_are_checked() {
    let env = Env::default();
    let p = g1(&env, b"point");
    let q = g2(&env, b"point");
    assert!(is_valid_g1(&p));
    assert!(is_valid_g2(&q));
    let mut infinity = [0u8; 96];
    infinity[0] = 0x40;
    assert!(is_valid_g1(&infinity));
    let mut compressed = p;
    compressed[0] |= 0x80;
    assert!(!is_valid_g1(&compressed));
    let mut sorted = p;
    sorted[0] |= 0x20;
    assert!(!is_valid_g1(&sorted));
    assert!(!is_valid_g1(&[0u8; 96]));
}

#[test]
fn flag_bits() {
    assert!(check_flags(&[0x00, 1, 2]));
    assert!(check_flags(&[0x1f, 1, 2]));
    assert!(check_flags(&[0x40, 0, 0]));
    assert!(!check_flags(&[0x40, 0, 1]));
    assert!(!check_flags(&[0x41, 0, 0]));
    assert!(!check_flags(&[0x80]));
    assert!(!check_flags(&[0x20]));
    assert!(!check_flags(&[]));
}
