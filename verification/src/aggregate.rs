//! Aggregation and the forge algebra: additive combination of keys, proofs
//! and signatures across a registry, and the rogue-key construction that
//! the collinear per-index generators admit.
//!
//! The construction needs only the attacker's own secret and the public
//! registry: the rogue key is chosen so that the aggregate key collapses to
//! the attacker's, the forged proof of knowledge rescales each registered
//! proof to the new index and cancels it, and the forged aggregate
//! signature is then simply the attacker's own signature.

use vstd::prelude::*;
use crate::bls::{bls_sign, bls_verify, signature_valid};
use crate::field::{
    lemma_mul_fr_dist, lemma_mul_fr_comm, lemma_mul_reduce, lemma_mul_sub_dist,
    lemma_reduce_bounds, lemma_rescale, lemma_sub_add_cancel, lemma_sub_then_sub,
    lemma_sum_fr_take_all, lemma_sum_fr_take_step, mul_fr, sub_fr, sum_fr,
};
use crate::group::{
    g1_add, g1_identity, g1_neg, g2_add, g2_identity, g2_mul, g2_neg, hash_dlog, keygen,
    scalar_from_u64, scalar_inverse, scalar_mul, G1Point, G2Point, Scalar,
};
use crate::pok::{generator_exp, pok_prove, pok_valid, pok_verify};
use crate::registry::{entry_pok_valid, registry_keys, registry_valid, Registry};
use crate::Error;

verus! {

/// The exponents of a run of G1 points, in order.
pub open spec fn g1_exps(points: Seq<G1Point>) -> Seq<int> {
    points.map_values(|p: G1Point| p@)
}

/// The exponents of a run of G2 points, in order.
pub open spec fn g2_exps(points: Seq<G2Point>) -> Seq<int> {
    points.map_values(|p: G2Point| p@)
}

/// The sum of a run of G1 points; an aggregate public key.
pub fn sum_g1(points: &Vec<G1Point>) -> (r: G1Point)
    ensures
        r@ == sum_fr(g1_exps(points@)),
        r.wf(),
{
    let ghost exps = g1_exps(points@);
    let n = points.len();
    let mut acc = g1_identity();
    let mut k: usize = 0;
    while k < n
        invariant
            k <= n,
            n == points@.len(),
            exps == g1_exps(points@),
            acc.wf(),
            acc@ == sum_fr(exps.take(k as int)),
        decreases n - k,
    {
        acc = g1_add(&acc, &points[k]);
        proof {
            lemma_sum_fr_take_step(exps, k as int);
        }
        k = k + 1;
    }
    proof {
        lemma_sum_fr_take_all(exps);
    }
    acc
}

/// The sum of a run of G2 points; an aggregate signature.
pub fn sum_g2(points: &Vec<G2Point>) -> (r: G2Point)
    ensures
        r@ == sum_fr(g2_exps(points@)),
        r.wf(),
{
    let ghost exps = g2_exps(points@);
    let n = points.len();
    let mut acc = g2_identity();
    let mut k: usize = 0;
    while k < n
        invariant
            k <= n,
            n == points@.len(),
            exps == g2_exps(points@),
            acc.wf(),
            acc@ == sum_fr(exps.take(k as int)),
        decreases n - k,
    {
        acc = g2_add(&acc, &points[k]);
        proof {
            lemma_sum_fr_take_step(exps, k as int);
        }
        k = k + 1;
    }
    proof {
        lemma_sum_fr_take_all(exps);
    }
    acc
}

/// The sum of a registry's public keys.
pub fn aggregate_keys(reg: &Registry) -> (r: G1Point)
    requires
        reg.wf(),
    ensures
        r@ == sum_fr(registry_keys(reg@)),
        r.wf(),
{
    let ghost keys = registry_keys(reg@);
    let n = reg.len();
    let mut acc = g1_identity();
    let mut k: usize = 0;
    while k < n
        invariant
            k <= n,
            n == reg@.len(),
            reg.wf(),
            keys == registry_keys(reg@),
            acc.wf(),
            acc@ == sum_fr(keys.take(k as int)),
        decreases n - k,
    {
        let e = reg.entry(k);
        proof {
            assert(e.key@ == keys[k as int]);
        }
        acc = g1_add(&acc, &e.key);
        proof {
            lemma_sum_fr_take_step(keys, k as int);
        }
        k = k + 1;
    }
    proof {
        lemma_sum_fr_take_all(keys);
    }
    acc
}

/// The rogue public key for a registry: the attacker's own key minus every
/// registered key, so that the aggregate of all keys collapses to the
/// attacker's alone.
pub fn rogue_public_key(secret: &Scalar, reg: &Registry) -> (r: G1Point)
    requires
        secret.wf(),
        reg.wf(),
    ensures
        r@ == sub_fr(secret@, sum_fr(registry_keys(reg@))),
        r.wf(),
{
    let ghost keys = registry_keys(reg@);
    let n = reg.len();
    let mut acc = keygen(secret);
    proof {
        lemma_reduce_bounds(secret@);
        assert(acc@ == sub_fr(secret@, sum_fr(keys.take(0))));
    }
    let mut k: usize = 0;
    while k < n
        invariant
            k <= n,
            n == reg@.len(),
            reg.wf(),
            secret.wf(),
            keys == registry_keys(reg@),
            acc.wf(),
            acc@ == sub_fr(secret@, sum_fr(keys.take(k as int))),
        decreases n - k,
    {
        let e = reg.entry(k);
        proof {
            assert(e.key@ == keys[k as int]);
        }
        acc = g1_add(&acc, &g1_neg(&e.key));
        proof {
            lemma_sub_then_sub(secret@, sum_fr(keys.take(k as int)), keys[k as int]);
            lemma_sum_fr_take_step(keys, k as int);
        }
        k = k + 1;
    }
    proof {
        lemma_sum_fr_take_all(keys);
    }
    acc
}

/// The forged proof of knowledge for the rogue key at index `reg.len()`:
/// the attacker's own proof at that index, minus each registered proof
/// rescaled there by the public ratio of shifted indices.  Each inversion
/// is of a nonzero scalar, so the construction always succeeds; against a
/// registry of valid proofs it yields exactly the rogue key's proof.
pub fn forge_proof(secret: &Scalar, reg: &Registry, seed: u64) -> (r: Result<G2Point, Error>)
    requires
        secret.wf(),
        reg.wf(),
        reg@.len() < u64::MAX,
    ensures
        r is Ok,
        r matches Ok(p) ==> p.wf() && (registry_valid(seed, reg@) ==> p@ == mul_fr(
            sub_fr(secret@, sum_fr(registry_keys(reg@))),
            generator_exp(seed, reg@.len() as int),
        )),
{
    let ghost keys = registry_keys(reg@);
    let ghost gen_new = generator_exp(seed, reg@.len() as int);
    let n = reg.len();
    let mut acc = pok_prove(secret, seed, n);
    proof {
        lemma_reduce_bounds(secret@);
        lemma_mul_reduce(sub_fr(secret@, sum_fr(keys.take(0))), gen_new);
    }
    let mut k: usize = 0;
    while k < n
        invariant
            k <= n,
            n == reg@.len(),
            n < u64::MAX,
            reg.wf(),
            secret.wf(),
            keys == registry_keys(reg@),
            gen_new == generator_exp(seed, n as int),
            acc.wf(),
            registry_valid(seed, reg@) ==> acc@ == mul_fr(
                sub_fr(secret@, sum_fr(keys.take(k as int))),
                gen_new,
            ),
        decreases n - k,
    {
        let shift = scalar_from_u64(k as u64 + 1);
        let inv = match scalar_inverse(&shift) {
            Some(inv) => inv,
            None => {
                return Err(Error::ScalarInversion);
            },
        };
        let scale = scalar_mul(&scalar_from_u64(n as u64 + 1), &inv);
        let e = reg.entry(k);
        proof {
            assert(e.key@ == keys[k as int] && e.proof@ == reg@[k as int].1);
        }
        let term = g2_mul(&e.proof, &scale);
        acc = g2_add(&acc, &g2_neg(&term));
        proof {
            if registry_valid(seed, reg@) {
                assert(entry_pok_valid(seed, k as int, reg@[k as int]));
                let pk = keys[k as int];
                let base = crate::group::seeded_g2_dlog(seed);
                lemma_rescale(pk, base, k as int + 1, n as int + 1, inv@);
                let s_k = sum_fr(keys.take(k as int));
                lemma_mul_sub_dist(secret@, s_k, gen_new);
                lemma_sub_then_sub(mul_fr(secret@, gen_new), mul_fr(s_k, gen_new), mul_fr(pk, gen_new));
                lemma_mul_fr_dist(s_k, pk, gen_new);
                lemma_sum_fr_take_step(keys, k as int);
                lemma_mul_sub_dist(secret@, sum_fr(keys.take(k as int + 1)), gen_new);
            }
        }
        k = k + 1;
    }
    proof {
        lemma_sum_fr_take_all(keys);
    }
    Ok(acc)
}

/// What the rogue-key attack publishes, and the verifier's verdict on it.
pub struct AttackOutcome {
    /// The registry entry key published for the new index.
    pub rogue_key: G1Point,
    /// The proof of knowledge published beside it.
    pub forged_proof: G2Point,
    /// The published aggregate signature: the attacker's own signature.
    pub forged_signature: G2Point,
    /// The aggregate of all registry keys including the rogue one.
    pub aggregate_key: G1Point,
    /// The final aggregate signature check, reported rather than fatal.
    pub signature_verified: bool,
}

/// The whole attack path: check the registry, append the rogue entry at
/// the next index, and verify the forged aggregate signature.  Against any
/// valid registry the attack provably succeeds: the aggregate key
/// collapses to the attacker's secret, the forged proof verifies at the
/// new index, and the final signature check passes.
pub fn execute_rogue_key_attack(
    reg: &Registry,
    secret: &Scalar,
    msg: &[u8],
    seed: u64,
) -> (r: Result<AttackOutcome, Error>)
    requires
        secret.wf(),
        reg.wf(),
        reg@.len() < u64::MAX,
    ensures
        r is Ok <==> registry_valid(seed, reg@),
        r matches Ok(o) ==> ({
            &&& o.rogue_key@ == sub_fr(secret@, sum_fr(registry_keys(reg@)))
            &&& pok_valid(seed, o.rogue_key@, reg@.len() as int, o.forged_proof@)
            &&& o.aggregate_key@ == secret@
            &&& signature_valid(secret@, o.forged_signature@, msg@)
            &&& o.signature_verified
            &&& o.rogue_key.wf()
            &&& o.forged_proof.wf()
            &&& o.forged_signature.wf()
            &&& o.aggregate_key.wf()
        }),
        r matches Err(e) ==> exists|i: int|
            0 <= i < reg@.len() && e == Error::PokVerificationFailure(i as usize)
                && !entry_pok_valid(seed, i, reg@[i]) && (forall|j: int|
                0 <= j < i ==> entry_pok_valid(seed, j, reg@[j])),
{
    match reg.verify_all(seed) {
        Ok(()) => {},
        Err(e) => {
            return Err(e);
        },
    }
    let rogue_key = rogue_public_key(secret, reg);
    let forged_proof = match forge_proof(secret, reg, seed) {
        Ok(p) => p,
        Err(e) => {
            return Err(e);
        },
    };
    let n = reg.len();
    // the forged entry passes the same check any verifier would run on it
    if !pok_verify(&rogue_key, seed, n, &forged_proof) {
        return Err(Error::PokVerificationFailure(n));
    }
    let honest_sum = aggregate_keys(reg);
    let aggregate_key = g1_add(&rogue_key, &honest_sum);
    proof {
        lemma_sub_add_cancel(secret@, sum_fr(registry_keys(reg@)));
        lemma_reduce_bounds(secret@);
    }
    let forged_signature = bls_sign(secret, msg);
    let signature_verified = bls_verify(&aggregate_key, &forged_signature, msg);
    proof {
        lemma_mul_fr_comm(secret@, hash_dlog(msg@));
    }
    Ok(AttackOutcome { rogue_key, forged_proof, forged_signature, aggregate_key, signature_verified })
}

/// Aggregation linearity: when every signature in a run signs one message
/// under the corresponding key, the sum of the signatures is a valid
/// signature on that message under the sum of the keys.
pub proof fn lemma_aggregation_linearity(keys: Seq<int>, sigs: Seq<int>, msg: Seq<u8>)
    requires
        keys.len() == sigs.len(),
        forall|k: int| 0 <= k < sigs.len() ==> signature_valid(keys[k], #[trigger] sigs[k], msg),
    ensures
        signature_valid(sum_fr(keys), sum_fr(sigs), msg),
    decreases sigs.len(),
{
    let h = hash_dlog(msg);
    if sigs.len() == 0 {
        assert(sum_fr(keys) == 0 && sum_fr(sigs) == 0);
        vstd::arithmetic::div_mod::lemma_small_mod(0nat, crate::field::group_order() as nat);
    } else {
        assert(forall|k: int|
            0 <= k < sigs.len() - 1 ==> signature_valid(
                keys.drop_last()[k],
                #[trigger] sigs.drop_last()[k],
                msg,
            ));
        lemma_aggregation_linearity(keys.drop_last(), sigs.drop_last(), msg);
        assert(sigs.last() == mul_fr(keys.last(), h));
        lemma_mul_fr_dist(sum_fr(keys.drop_last()), keys.last(), h);
    }
}

} // verus!
