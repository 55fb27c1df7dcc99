use rogue_bls::aggregate::execute_rogue_key_attack;
use rogue_bls::bls::{bls_sign, bls_verify};
use rogue_bls::group::{keygen, Scalar};
use rogue_bls::pok::{pok_prove, pok_verify, POK_SEED};
use rogue_bls::registry::{Registry, RegistryEntry};
use rogue_bls::Error;

use ark_ec::{AffineRepr, CurveGroup};
use ark_serialize::CanonicalSerialize;
use ark_std::rand::SeedableRng;
use ark_std::UniformRand;

fn honest_registry(secrets: &[u64]) -> Registry {
    let mut entries = Vec::new();
    for (i, &s) in secrets.iter().enumerate() {
        let secret = Scalar::from_u64(s);
        let key = keygen(&secret);
        let proof = pok_prove(&secret, POK_SEED, i);
        entries.push(RegistryEntry::new(key, proof));
    }
    Registry::from_entries(entries)
}

/// The registry's binary form, produced independently of the library with
/// the arkworks primitives alone.
fn honest_blob(secrets: &[u64]) -> Vec<u8> {
    let mut entries: Vec<(ark_bls12_381::G1Affine, ark_bls12_381::G2Affine)> = Vec::new();
    for (i, &s) in secrets.iter().enumerate() {
        let sk = ark_bls12_381::Fr::from(s);
        let pk = (ark_bls12_381::G1Affine::generator() * sk).into_affine();
        let rng = &mut ark_std::rand::rngs::StdRng::seed_from_u64(20399u64);
        let base = ark_bls12_381::G2Affine::rand(rng);
        let shifted = base * ark_bls12_381::Fr::from(i as u64 + 1);
        let proof = (shifted * sk).into_affine();
        entries.push((pk, proof));
    }
    let mut bytes = Vec::new();
    entries.serialize_uncompressed(&mut bytes).unwrap();
    bytes
}

#[test]
fn honest_registry_verifies_whole() {
    let reg = honest_registry(&[2, 3, 5]);
    assert_eq!(reg.verify_all(POK_SEED), Ok(()));
}

#[test]
fn tampered_registry_reports_offending_index() {
    let mut entries = Vec::new();
    for (i, &s) in [2u64, 3, 5].iter().enumerate() {
        let secret = Scalar::from_u64(s);
        let key = keygen(&secret);
        // the middle entry's proof is made for the wrong index
        let index = if i == 1 { 2 } else { i };
        entries.push(RegistryEntry::new(key, pok_prove(&secret, POK_SEED, index)));
    }
    let reg = Registry::from_entries(entries);
    assert_eq!(reg.verify_all(POK_SEED), Err(Error::PokVerificationFailure(1)));
}

#[test]
fn rogue_key_attack_succeeds_end_to_end() {
    // honest registry from secrets [2, 3, 5]; attacker secret 100 at index 3
    let reg = honest_registry(&[2, 3, 5]);
    let attacker = Scalar::from_u64(100);
    let outcome = execute_rogue_key_attack(&reg, &attacker, b"intldds", POK_SEED).unwrap();

    // the aggregate key collapses to 100 · G1_generator
    assert!(outcome.aggregate_key.same_point(&keygen(&Scalar::from_u64(100))));
    // the forged proof of knowledge verifies at the new index
    assert!(pok_verify(&outcome.rogue_key, POK_SEED, 3, &outcome.forged_proof));
    // the forged aggregate signature is the attacker's own signature
    assert!(outcome
        .forged_signature
        .same_point(&bls_sign(&attacker, b"intldds")));
    // and it verifies against the aggregate key
    assert!(bls_verify(&outcome.aggregate_key, &outcome.forged_signature, b"intldds"));
    assert!(outcome.signature_verified);
}

#[test]
fn rogue_key_attack_from_binary_registry() {
    let bytes = honest_blob(&[2, 3, 5]);
    let reg = Registry::from_bytes(&bytes).unwrap();
    assert_eq!(reg.len(), 3);
    assert_eq!(reg.verify_all(POK_SEED), Ok(()));
    let outcome =
        execute_rogue_key_attack(&reg, &Scalar::from_u64(100), b"intldds", POK_SEED).unwrap();
    assert!(outcome.signature_verified);
    assert!(outcome.aggregate_key.same_point(&keygen(&Scalar::from_u64(100))));
}

#[test]
fn attack_on_invalid_registry_is_refused() {
    let secret = Scalar::from_u64(2);
    let entries = vec![RegistryEntry::new(
        keygen(&secret),
        pok_prove(&secret, POK_SEED, 5),
    )];
    let reg = Registry::from_entries(entries);
    let r = execute_rogue_key_attack(&reg, &Scalar::from_u64(100), b"intldds", POK_SEED);
    assert_eq!(r.err(), Some(Error::PokVerificationFailure(0)));
}

#[test]
fn truncated_blob_is_rejected_whole() {
    let bytes = honest_blob(&[2, 3, 5]);
    let truncated = &bytes[..bytes.len() - 1];
    assert!(matches!(Registry::from_bytes(truncated), Err(Error::Deserialization)));
    let short = &bytes[..5];
    assert!(matches!(Registry::from_bytes(short), Err(Error::Deserialization)));
}

#[test]
fn parsing_is_deterministic() {
    let bytes = honest_blob(&[2, 3]);
    let a = Registry::from_bytes(&bytes).unwrap();
    let b = Registry::from_bytes(&bytes).unwrap();
    assert_eq!(a.len(), b.len());
    for i in 0..a.len() {
        assert!(a.entry(i).key.same_point(&b.entry(i).key));
        assert!(a.entry(i).proof.same_point(&b.entry(i).proof));
    }
}

#[test]
fn empty_and_garbage_blobs_are_rejected() {
    assert!(matches!(Registry::from_bytes(&[]), Err(Error::Deserialization)));
    let garbage = [0xffu8; 7];
    assert!(matches!(Registry::from_bytes(&garbage), Err(Error::Deserialization)));
}

#[test]
fn attack_on_empty_registry_collapses_to_self_signature() {
    let reg = Registry::from_entries(Vec::new());
    let attacker = Scalar::from_u64(100);
    let outcome = execute_rogue_key_attack(&reg, &attacker, b"intldds", POK_SEED).unwrap();
    assert!(outcome.rogue_key.same_point(&keygen(&attacker)));
    assert!(outcome.signature_verified);
}
