//! Per-index generator derivation and the proof-of-knowledge protocol.
//!
//! `generator_for` scales one fixed seed-derived G2 base point by the scalar
//! `index + 1`, so all per-index generators are collinear: scalar multiples
//! of one another along the same ratios as their shifted indices.  That
//! collinearity is a deliberate structural property of this design — the
//! aggregation module exploits it — not an incidental detail.

use vstd::prelude::*;
use crate::field::{
    in_field, lemma_cancel_invertible, lemma_mul_fr_comm, lemma_mul_reduce, lemma_one_mul,
    lemma_reduce_bounds, lemma_rescale, lemma_verify_equation, mul_fr,
};
use crate::group::{
    g1_generator_point, g2_mul, g2_neg, pairing_product_is_identity, scalar_from_u64,
    seeded_g2_dlog, seeded_g2_point, G1Point, G2Point, Scalar,
};

verus! {

/// The fixed seed from which the proof-of-knowledge base point is derived.
pub const POK_SEED: u64 = 20399;

/// The exponent of the per-index generator: the seed-derived base point's
/// exponent scaled by `index + 1`.
pub open spec fn generator_exp(seed: u64, index: int) -> int {
    mul_fr(seeded_g2_dlog(seed), index + 1)
}

/// A proof of knowledge for public key `pk` at `index` is exactly the
/// per-index generator scaled by the key's secret exponent.
pub open spec fn pok_valid(seed: u64, pk: int, index: int, proof_exp: int) -> bool {
    proof_exp == mul_fr(pk, generator_exp(seed, index))
}

/// The deterministic per-index generator: the seed-derived G2 base point
/// scaled by `index + 1`.
pub fn generator_for(seed: u64, index: usize) -> (r: G2Point)
    requires
        index < u64::MAX,
    ensures
        r@ == generator_exp(seed, index as int),
        r.wf(),
{
    let base = seeded_g2_point(seed);
    let shift = scalar_from_u64(index as u64 + 1);
    g2_mul(&base, &shift)
}

/// A proof of knowledge binding `secret` to `index`: the per-index
/// generator scaled by the secret.
pub fn pok_prove(secret: &Scalar, seed: u64, index: usize) -> (r: G2Point)
    requires
        secret.wf(),
        index < u64::MAX,
    ensures
        pok_valid(seed, secret@, index as int, r@),
        r.wf(),
{
    let gen = generator_for(seed, index);
    let r = g2_mul(&gen, secret);
    proof {
        lemma_mul_fr_comm(generator_exp(seed, index as int), secret@);
    }
    r
}

/// Whether `proof` binds `pk` to `index`: the multi-pairing product over
/// the pairs (pk, −generator_for(index)) and (G1_generator, proof) must be
/// the GT identity, which holds exactly when proof and pk share one
/// discrete logarithm relative to the per-index generator and the G1
/// generator respectively.
pub fn pok_verify(pk: &G1Point, seed: u64, index: usize, proof: &G2Point) -> (r: bool)
    requires
        pk.wf(),
        proof.wf(),
        index < u64::MAX,
    ensures
        r <==> pok_valid(seed, pk@, index as int, proof@),
{
    let gen = generator_for(seed, index);
    let neg_gen = g2_neg(&gen);
    let g1_gen = g1_generator_point();
    let r = pairing_product_is_identity(pk, &neg_gen, &g1_gen, proof);
    proof {
        lemma_verify_equation(pk@, generator_exp(seed, index as int), proof@);
    }
    r
}

/// Determinism and collinearity of the per-index generators: the generator
/// for any index is the generator for index 0 scaled by `index + 1`.  (That
/// each call of `generator_for` returns the same point for the same seed
/// and index is its contract: the result's exponent is a function of the
/// two arguments alone.)
pub proof fn lemma_generator_collinear(seed: u64, index: int)
    ensures
        generator_exp(seed, index) == mul_fr(index + 1, generator_exp(seed, 0)),
{
    let base = seeded_g2_dlog(seed);
    lemma_one_mul(base);
    lemma_mul_fr_comm(base, index + 1);
    lemma_mul_reduce(index + 1, base);
}

/// Proof-of-knowledge round trip: a proof produced from a secret verifies
/// against that secret's public key at the index it was produced for.
pub proof fn lemma_pok_round_trip(seed: u64, secret: int, index: int)
    requires
        in_field(secret),
    ensures
        pok_valid(seed, secret, index, mul_fr(secret, generator_exp(seed, index))),
{
}

/// Index binding against unrelated generators: for an invertible secret, a
/// proof made against one generator exponent never verifies against a
/// generator of a different exponent.  Under an independent per-index
/// derivation this would bind every proof to its index; under this
/// design's collinear derivation the generators are publicly related, and
/// `lemma_index_rescaling` below defeats the binding.
pub proof fn lemma_pok_index_binding(seed: u64, secret: int, inv: int, index: int, other: int)
    requires
        in_field(secret),
        mul_fr(secret, inv) == 1,
        generator_exp(seed, index) != generator_exp(seed, other),
    ensures
        !pok_valid(seed, secret, index, mul_fr(secret, generator_exp(seed, other))),
{
    let base = seeded_g2_dlog(seed);
    lemma_reduce_bounds(base * (index + 1));
    lemma_reduce_bounds(base * (other + 1));
    lemma_cancel_invertible(
        secret,
        inv,
        generator_exp(seed, index),
        generator_exp(seed, other),
    );
}

/// A registered proof does not transfer between indices as it stands: for
/// an invertible secret, a proof bound to one index fails verification at
/// any index whose generator exponent differs.  (Rescaling it first is
/// another matter: see `lemma_index_rescaling`.)
pub proof fn lemma_proof_not_transferable(
    seed: u64,
    secret: int,
    inv: int,
    index: int,
    other: int,
    proof_exp: int,
)
    requires
        in_field(secret),
        mul_fr(secret, inv) == 1,
        pok_valid(seed, secret, other, proof_exp),
        generator_exp(seed, index) != generator_exp(seed, other),
    ensures
        !pok_valid(seed, secret, index, proof_exp),
{
    lemma_pok_index_binding(seed, secret, inv, index, other);
}

/// Index binding and its failure: a proof for one index, rescaled by the
/// public ratio `(other + 1) · (index + 1)⁻¹`, verifies at the other
/// index.  The per-index generators being collinear, registered proofs can
/// be moved between indices by anyone — the structural weakness this
/// library reproduces.  (With independently derived generators no such
/// public ratio would relate them.)
pub proof fn lemma_index_rescaling(
    seed: u64,
    pk: int,
    index: int,
    other: int,
    proof_exp: int,
    inv: int,
)
    requires
        pok_valid(seed, pk, index, proof_exp),
        mul_fr(index + 1, inv) == 1,
    ensures
        pok_valid(seed, pk, other, mul_fr(proof_exp, mul_fr(other + 1, inv))),
{
    let base = seeded_g2_dlog(seed);
    lemma_rescale(pk, base, index + 1, other + 1, inv);
}

} // verus!
