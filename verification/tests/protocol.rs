use rogue_bls::aggregate::{sum_g1, sum_g2};
use rogue_bls::bls::{bls_sign, bls_verify, encode_message};
use rogue_bls::group::{keygen, Scalar};
use rogue_bls::pok::{generator_for, pok_prove, pok_verify, POK_SEED};

#[test]
fn generator_is_deterministic() {
    let a = generator_for(POK_SEED, 7);
    let b = generator_for(POK_SEED, 7);
    assert!(a.same_point(&b));
}

#[test]
fn generators_are_collinear() {
    let g0 = generator_for(POK_SEED, 0);
    for i in 1..6u64 {
        let gi = generator_for(POK_SEED, i as usize);
        let scaled = g0.scale(&Scalar::from_u64(i + 1));
        assert!(gi.same_point(&scaled));
    }
}

#[test]
fn distinct_indices_give_distinct_generators() {
    let g0 = generator_for(POK_SEED, 0);
    let g1 = generator_for(POK_SEED, 1);
    assert!(!g0.same_point(&g1));
}

#[test]
fn pok_round_trip() {
    let secret = Scalar::from_u64(7);
    let pk = keygen(&secret);
    let proof = pok_prove(&secret, POK_SEED, 2);
    assert!(pok_verify(&pk, POK_SEED, 2, &proof));
}

#[test]
fn pok_rejects_wrong_index() {
    let secret = Scalar::from_u64(7);
    let pk = keygen(&secret);
    let proof = pok_prove(&secret, POK_SEED, 2);
    assert!(!pok_verify(&pk, POK_SEED, 3, &proof));
}

#[test]
fn pok_rejects_wrong_secret() {
    let secret = Scalar::from_u64(7);
    let other = Scalar::from_u64(8);
    let proof = pok_prove(&secret, POK_SEED, 0);
    assert!(!pok_verify(&keygen(&other), POK_SEED, 0, &proof));
}

#[test]
fn pok_rescaling_moves_proofs_between_indices() {
    // the documented weakness: a proof for index 1 verifies at index 4
    // after rescaling by the public ratio (4+1)·(1+1)⁻¹
    let secret = Scalar::from_u64(11);
    let pk = keygen(&secret);
    let proof = pok_prove(&secret, POK_SEED, 1);
    let ratio = Scalar::from_u64(5).times(&Scalar::from_u64(2).invert().unwrap());
    let moved = proof.scale(&ratio);
    assert!(pok_verify(&pk, POK_SEED, 4, &moved));
    assert!(!pok_verify(&pk, POK_SEED, 4, &proof));
}

#[test]
fn zero_scalar_has_no_inverse() {
    assert!(Scalar::from_u64(0).invert().is_none());
    assert!(Scalar::from_u64(2).invert().is_some());
}

#[test]
fn message_encoding_is_deterministic() {
    let a = encode_message(b"intldds");
    let b = encode_message(b"intldds");
    assert!(a.same_point(&b));
    let c = encode_message(b"intldd");
    assert!(!a.same_point(&c));
}

#[test]
fn signature_round_trip() {
    let secret = Scalar::from_u64(42);
    let pk = keygen(&secret);
    let sig = bls_sign(&secret, b"intldds");
    assert!(bls_verify(&pk, &sig, b"intldds"));
}

#[test]
fn signature_rejects_wrong_message() {
    let secret = Scalar::from_u64(42);
    let pk = keygen(&secret);
    let sig = bls_sign(&secret, b"intldds");
    assert!(!bls_verify(&pk, &sig, b"intldd"));
    assert!(!bls_verify(&pk, &sig, b""));
}

#[test]
fn signature_rejects_wrong_key() {
    let secret = Scalar::from_u64(42);
    let sig = bls_sign(&secret, b"intldds");
    assert!(!bls_verify(&keygen(&Scalar::from_u64(43)), &sig, b"intldds"));
}

#[test]
fn aggregation_is_linear() {
    // secrets {2, 3, 5}: the sum of the three signatures verifies against
    // the sum of the three public keys for the same message
    let msg = b"intldds";
    let secrets = [2u64, 3, 5];
    let mut keys = Vec::new();
    let mut sigs = Vec::new();
    for &s in secrets.iter() {
        let secret = Scalar::from_u64(s);
        keys.push(keygen(&secret));
        sigs.push(bls_sign(&secret, msg));
    }
    let agg_key = sum_g1(&keys);
    let agg_sig = sum_g2(&sigs);
    assert!(bls_verify(&agg_key, &agg_sig, msg));
    // the aggregate key is the key of the summed secrets
    assert!(agg_key.same_point(&keygen(&Scalar::from_u64(10))));
    // and the aggregate does not verify a message nobody signed
    assert!(!bls_verify(&agg_key, &agg_sig, b"other"));
}

#[test]
fn empty_aggregate_is_identity_signature_of_nothing() {
    let keys: Vec<rogue_bls::group::G1Point> = Vec::new();
    let sigs: Vec<rogue_bls::group::G2Point> = Vec::new();
    let agg_key = sum_g1(&keys);
    let agg_sig = sum_g2(&sigs);
    // the identity key "signs" every message with the identity signature
    assert!(bls_verify(&agg_key, &agg_sig, b"anything"));
    assert!(agg_key.same_point(&keygen(&Scalar::from_u64(0))));
}
