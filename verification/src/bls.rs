//! The hash-to-curve message encoder and the BLS-style signature protocol.
//!
//! A message is encoded as a G2 point by the standardized expand-then-map
//! construction (a SHA-256 field hasher over a fixed domain-separation tag,
//! then the Wahby–Boneh map); a signature is that point scaled by the
//! signer's secret; verification is a two-pair multi-pairing check.

use vstd::prelude::*;
use crate::field::{in_field, lemma_mul_fr_comm, lemma_verify_equation, mul_fr};
use crate::group::{
    g1_generator_point, g2_mul, g2_neg, hash_dlog, hash_to_g2, pairing_product_is_identity,
    G1Point, G2Point, Scalar,
};

verus! {

/// A signature on `msg` under public key `pk` is exactly the encoded
/// message point scaled by the key's secret exponent.
pub open spec fn signature_valid(pk: int, sig_exp: int, msg: Seq<u8>) -> bool {
    sig_exp == mul_fr(pk, hash_dlog(msg))
}

/// The deterministic G2 encoding of a message.
pub fn encode_message(msg: &[u8]) -> (r: G2Point)
    ensures
        r@ == hash_dlog(msg@),
        r.wf(),
{
    hash_to_g2(msg)
}

/// A BLS signature: the encoded message point scaled by the secret.
pub fn bls_sign(secret: &Scalar, msg: &[u8]) -> (r: G2Point)
    requires
        secret.wf(),
    ensures
        signature_valid(secret@, r@, msg@),
        r.wf(),
{
    let point = hash_to_g2(msg);
    let r = g2_mul(&point, secret);
    proof {
        lemma_mul_fr_comm(hash_dlog(msg@), secret@);
    }
    r
}

/// Whether `sig` is a signature on `msg` under `pk`: the multi-pairing
/// product over the pairs (pk, −Encode(msg)) and (G1_generator, sig) must
/// be the GT identity.
pub fn bls_verify(pk: &G1Point, sig: &G2Point, msg: &[u8]) -> (r: bool)
    requires
        pk.wf(),
        sig.wf(),
    ensures
        r <==> signature_valid(pk@, sig@, msg@),
{
    let point = hash_to_g2(msg);
    let neg_point = g2_neg(&point);
    let g1_gen = g1_generator_point();
    let r = pairing_product_is_identity(pk, &neg_point, &g1_gen, sig);
    proof {
        lemma_verify_equation(pk@, hash_dlog(msg@), sig@);
    }
    r
}

/// Signature round trip: a signature produced from a secret verifies
/// against that secret's public key for the message it signed.
pub proof fn lemma_signature_round_trip(secret: int, msg: Seq<u8>)
    requires
        in_field(secret),
    ensures
        signature_valid(secret, mul_fr(secret, hash_dlog(msg)), msg),
{
}

} // verus!
