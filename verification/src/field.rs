//! The mathematical model of the scalar field Fr of BLS12-381.
//!
//! Every group element of G1, G2 or GT in this library is modelled by its
//! discrete logarithm with respect to the standard generator of its group,
//! an integer in `[0, group_order())`.  The spec functions here are the
//! arithmetic of those exponents: addition, negation and multiplication
//! modulo the group order, together with the lemmas the protocol proofs need.

use vstd::prelude::*;
use vstd::arithmetic::div_mod::{
    lemma_add_mod_noop, lemma_add_mod_noop_right, lemma_mod_bound, lemma_mod_multiples_vanish,
    lemma_mod_twice, lemma_mul_mod_noop_general, lemma_small_mod, lemma_sub_mod_noop_right,
};

verus! {

/// The prime order r of the groups G1, G2 and GT of BLS12-381, which is also
/// the order of the scalar field Fr.
pub open spec fn group_order() -> int {
    0x73eda753299d7d483339d80809a1d805int * 0x1_0000_0000_0000_0000_0000_0000_0000_0000int
        + 0x53bda402fffe5bfeffffffff00000001int
}

/// `a` is a canonical exponent: reduced modulo the group order.
pub open spec fn in_field(a: int) -> bool {
    0 <= a < group_order()
}

/// Reduction modulo the group order.
pub open spec fn reduce(a: int) -> int {
    a % group_order()
}

/// Exponent addition: the model of adding two group elements.
pub open spec fn add_fr(a: int, b: int) -> int {
    (a + b) % group_order()
}

/// Exponent negation: the model of negating a group element.
pub open spec fn neg_fr(a: int) -> int {
    (-a) % group_order()
}

/// Exponent subtraction: the model of subtracting one group element from
/// another.
pub open spec fn sub_fr(a: int, b: int) -> int {
    (a - b) % group_order()
}

/// Exponent multiplication: the model of a scalar multiplication, and of the
/// exponent a pairing contributes to a product in GT.
pub open spec fn mul_fr(a: int, b: int) -> int {
    (a * b) % group_order()
}

/// The sum of a sequence of exponents: the model of aggregating a run of
/// group elements by addition.
pub open spec fn sum_fr(s: Seq<int>) -> int
    decreases s.len(),
{
    if s.len() == 0 {
        0
    } else {
        add_fr(sum_fr(s.drop_last()), s.last())
    }
}

pub proof fn lemma_reduce_bounds(a: int)
    ensures
        in_field(reduce(a)),
        in_field(a) ==> reduce(a) == a,
{
    lemma_mod_bound(a, group_order());
    if in_field(a) {
        lemma_small_mod(a as nat, group_order() as nat);
    }
}

/// Either argument of a multiplication may be reduced first without changing
/// the product.
pub proof fn lemma_mul_reduce(a: int, b: int)
    ensures
        mul_fr(reduce(a), b) == mul_fr(a, b),
        mul_fr(a, reduce(b)) == mul_fr(a, b),
{
    lemma_mul_mod_noop_general(a, b, group_order());
}

/// Multiplying by the exponent 1 only reduces.
pub proof fn lemma_one_mul(a: int)
    ensures
        mul_fr(1, a) == reduce(a),
        mul_fr(a, 1) == reduce(a),
        in_field(a) ==> mul_fr(1, a) == a && mul_fr(a, 1) == a,
{
    lemma_reduce_bounds(a);
}

pub proof fn lemma_mul_fr_comm(a: int, b: int)
    ensures
        mul_fr(a, b) == mul_fr(b, a),
{
}

pub proof fn lemma_mul_fr_assoc(a: int, b: int, c: int)
    ensures
        mul_fr(mul_fr(a, b), c) == mul_fr(a, mul_fr(b, c)),
{
    lemma_mul_mod_noop_general(a * b, c, group_order());
    lemma_mul_mod_noop_general(a, b * c, group_order());
    assert((a * b) * c == a * (b * c)) by (nonlinear_arith);
}

/// An invertible exponent may be cancelled: scaling two different
/// canonical exponents by it keeps them different.
pub proof fn lemma_cancel_invertible(secret: int, inv: int, g: int, h: int)
    requires
        mul_fr(secret, inv) == 1,
        in_field(g),
        in_field(h),
        g != h,
    ensures
        mul_fr(secret, g) != mul_fr(secret, h),
{
    if mul_fr(secret, g) == mul_fr(secret, h) {
        lemma_mul_fr_comm(secret, inv);
        lemma_mul_fr_assoc(inv, secret, g);
        lemma_mul_fr_assoc(inv, secret, h);
        lemma_mul_reduce(mul_fr(inv, secret), g);
        lemma_mul_reduce(mul_fr(inv, secret), h);
        lemma_one_mul(g);
        lemma_one_mul(h);
        assert(mul_fr(inv, mul_fr(secret, g)) == mul_fr(inv, mul_fr(secret, h)));
        assert(g == h);
    }
}

/// Multiplication distributes over exponent addition.
pub proof fn lemma_mul_fr_dist(a: int, b: int, c: int)
    ensures
        mul_fr(add_fr(a, b), c) == add_fr(mul_fr(a, c), mul_fr(b, c)),
{
    lemma_mul_mod_noop_general(a + b, c, group_order());
    assert((a + b) * c == a * c + b * c) by (nonlinear_arith);
    lemma_add_mod_noop(a * c, b * c, group_order());
}

/// Multiplication distributes over exponent subtraction.
pub proof fn lemma_mul_sub_dist(a: int, b: int, c: int)
    ensures
        mul_fr(sub_fr(a, b), c) == sub_fr(mul_fr(a, c), mul_fr(b, c)),
{
    let r = group_order();
    lemma_mul_mod_noop_general(a - b, c, r);
    assert((a - b) * c == a * c - b * c) by (nonlinear_arith);
    lemma_sub_mod_noop_right(a * c, b * c, r);
    lemma_mod_twice(b * c, r);
    lemma_sub_mod_noop_right((a * c) % r, b * c, r);
    vstd::arithmetic::div_mod::lemma_sub_mod_noop(a * c, b * c, r);
}

/// Subtracting one more term folds into the subtrahend.
pub proof fn lemma_sub_then_sub(a: int, b: int, c: int)
    ensures
        add_fr(sub_fr(a, b), neg_fr(c)) == sub_fr(a, add_fr(b, c)),
{
    let r = group_order();
    lemma_add_mod_noop(a - b, -c, r);
    lemma_mod_twice(a - b, r);
    lemma_mod_twice(-c, r);
    lemma_sub_mod_noop_right(a, b + c, r);
}

/// Adding back what was subtracted restores the reduced value: the model of
/// the aggregate key collapsing onto the attacker's own key.
pub proof fn lemma_sub_add_cancel(a: int, b: int)
    ensures
        add_fr(sub_fr(a, b), b) == reduce(a),
{
    let r = group_order();
    lemma_add_mod_noop(a - b, b, r);
    lemma_add_mod_noop_right((a - b) % r, b, r);
}

/// A difference of canonical exponents vanishes modulo the order only when
/// they are equal.
pub proof fn lemma_small_difference_zero(a: int, b: int)
    requires
        in_field(a),
        in_field(b),
    ensures
        sub_fr(a, b) == 0 <==> a == b,
{
    let r = group_order();
    if a >= b {
        lemma_small_mod((a - b) as nat, r as nat);
    } else {
        lemma_mod_multiples_vanish(1, a - b, r);
        lemma_small_mod((a - b + r) as nat, r as nat);
    }
}

/// The two-pair pairing product used by every verification in this library
/// is the GT identity exactly when the second pair's exponent product equals
/// that of the first pair, the first G2 point entering negated.
pub proof fn lemma_verify_equation(pk: int, gen: int, proof_exp: int)
    requires
        in_field(proof_exp),
    ensures
        add_fr(mul_fr(pk, neg_fr(gen)), mul_fr(1, proof_exp)) == 0 <==> proof_exp == mul_fr(
            pk,
            gen,
        ),
{
    let r = group_order();
    lemma_one_mul(proof_exp);
    // pk · (−gen) reduces to the negation of pk · gen
    lemma_mul_mod_noop_general(pk, -gen, r);
    assert(pk * (-gen) == -(pk * gen)) by (nonlinear_arith);
    // fold the outer addition into a single difference
    lemma_add_mod_noop_right(proof_exp, -(pk * gen), r);
    lemma_sub_mod_noop_right(proof_exp, pk * gen, r);
    lemma_reduce_bounds(pk * gen);
    lemma_small_difference_zero(proof_exp, mul_fr(pk, gen));
    assert(add_fr(mul_fr(pk, neg_fr(gen)), proof_exp) == add_fr(proof_exp, mul_fr(pk, neg_fr(gen))));
}

/// Rescaling a proof from one index to another: multiplying a proof made
/// against the exponent `base·k` by `n·inv`, where `inv` inverts `k`, yields
/// the proof against the exponent `base·n`.
pub proof fn lemma_rescale(pk: int, base: int, k: int, n: int, inv: int)
    requires
        mul_fr(k, inv) == 1,
    ensures
        mul_fr(mul_fr(pk, mul_fr(base, k)), mul_fr(n, inv)) == mul_fr(pk, mul_fr(base, n)),
{
    let r = group_order();
    // strip the inner reductions on both sides
    lemma_mul_mod_noop_general(pk, base * k, r);
    lemma_mul_mod_noop_general(pk * (base * k), n * inv, r);
    lemma_mul_mod_noop_general(pk, base * n, r);
    // regroup so that k·inv stands alone
    assert((pk * (base * k)) * (n * inv) == (pk * (base * n)) * (k * inv)) by (nonlinear_arith);
    lemma_mul_mod_noop_general(pk * (base * n), k * inv, r);
    lemma_one_mul(pk * (base * n));
}

/// Extending a prefix by one element adds that element to the prefix sum:
/// the shape of every aggregation loop in this library.
pub proof fn lemma_sum_fr_take_step(s: Seq<int>, k: int)
    requires
        0 <= k < s.len(),
    ensures
        sum_fr(s.take(k + 1)) == add_fr(sum_fr(s.take(k)), s[k]),
{
    let t = s.take(k + 1);
    assert(t.drop_last() =~= s.take(k));
    assert(t.last() == s[k]);
}

/// The whole sequence is its own full prefix.
pub proof fn lemma_sum_fr_take_all(s: Seq<int>)
    ensures
        sum_fr(s.take(s.len() as int)) == sum_fr(s),
{
    assert(s.take(s.len() as int) =~= s);
}

} // verus!
