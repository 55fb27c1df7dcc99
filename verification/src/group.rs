//! Group elements of BLS12-381 and the scalar field, as the library holds
//! them, together with the trusted arithmetic on them.
//!
//! The model: G1, G2 and GT are cyclic of the prime order `group_order()`,
//! so an element is determined by its discrete logarithm with respect to the
//! standard generator of its group.  The uninterpreted functions `g1_dlog`,
//! `g2_dlog` and `scalar_repr` name those exponents; every trusted operation
//! below states how it moves them, and the protocol modules reason purely in
//! the exponent arithmetic of `crate::field`.

use vstd::prelude::*;
use crate::field::{add_fr, in_field, mul_fr, neg_fr};
use ark_ec::AffineRepr;
use ark_ec::hashing::HashToCurve;
use ark_ec::CurveGroup;
use ark_ec::pairing::Pairing;
use ark_ff::Field;
use ark_std::UniformRand;
use ark_std::Zero;
use ark_std::rand::SeedableRng;

verus! {

/// The canonical integer representative of a scalar field element.
pub uninterp spec fn scalar_repr(s: Scalar) -> int;

/// The discrete logarithm of a G1 element with respect to the standard G1
/// generator.
pub uninterp spec fn g1_dlog(p: G1Point) -> int;

/// The discrete logarithm of a G2 element with respect to the standard G2
/// generator.
pub uninterp spec fn g2_dlog(p: G2Point) -> int;

/// The discrete logarithm of the G2 point that a fresh `StdRng` seeded with
/// `seed` yields: a fixed unknown, but a function of the seed alone.
pub uninterp spec fn seeded_g2_dlog(seed: u64) -> int;

/// The exponent of the hash-to-curve image of `msg` under this library's
/// fixed domain-separation tag: a function of the message alone.
pub uninterp spec fn hash_dlog(msg: Seq<u8>) -> int;

/// An element of the scalar field Fr: a secret key or a blinding factor.
/// Opaque to the verifier; `scalar_repr` names its model.
#[verifier::external_body]
pub struct Scalar {
    pub(crate) inner: ark_bls12_381::Fr,
}

/// An element of G1; public keys live here.  Opaque to the verifier;
/// `g1_dlog` names its model.
#[verifier::external_body]
pub struct G1Point {
    pub(crate) point: ark_bls12_381::G1Affine,
}

/// An element of G2; per-index generators, proofs of knowledge,
/// hash-to-curve outputs and signatures live here.  Opaque to the verifier;
/// `g2_dlog` names its model.
#[verifier::external_body]
pub struct G2Point {
    pub(crate) point: ark_bls12_381::G2Affine,
}

impl View for Scalar {
    type V = int;

    open spec fn view(&self) -> int {
        scalar_repr(*self)
    }
}

impl View for G1Point {
    type V = int;

    open spec fn view(&self) -> int {
        g1_dlog(*self)
    }
}

impl View for G2Point {
    type V = int;

    open spec fn view(&self) -> int {
        g2_dlog(*self)
    }
}

impl Scalar {
    pub open spec fn wf(self) -> bool {
        in_field(self@)
    }
}

impl G1Point {
    pub open spec fn wf(self) -> bool {
        in_field(self@)
    }
}

impl G2Point {
    pub open spec fn wf(self) -> bool {
        in_field(self@)
    }
}

/// Relies on `ark_ff::Fp::from::<u64>`: embeds an integer below the field
/// order into Fr, so the representative is the integer itself.
#[verifier::external_body]
pub(crate) fn scalar_from_u64(x: u64) -> (r: Scalar)
    ensures
        scalar_repr(r) == x as int,
        r.wf(),
{
    Scalar { inner: ark_bls12_381::Fr::from(x) }
}

/// Relies on `core::ops::Mul` for `ark_ff::Fp`: field multiplication, so
/// the representatives multiply modulo the field order.
#[verifier::external_body]
pub(crate) fn scalar_mul(a: &Scalar, b: &Scalar) -> (r: Scalar)
    ensures
        scalar_repr(r) == mul_fr(scalar_repr(*a), scalar_repr(*b)),
        r.wf(),
{
    Scalar { inner: a.inner * b.inner }
}

/// Relies on `ark_ff::Field::inverse` for `ark_ff::Fp`: returns `None`
/// exactly on the zero element, else the multiplicative inverse.
#[verifier::external_body]
pub(crate) fn scalar_inverse(a: &Scalar) -> (r: Option<Scalar>)
    requires
        a.wf(),
    ensures
        r is Some <==> scalar_repr(*a) != 0,
        r matches Some(w) ==> w.wf() && mul_fr(scalar_repr(*a), scalar_repr(w)) == 1,
{
    a.inner.inverse().map(|w| Scalar { inner: w })
}

/// Relies on `ark_ec::AffineRepr::generator` for G1: the standard
/// generator, whose discrete logarithm with respect to itself is 1.
#[verifier::external_body]
pub(crate) fn g1_generator_point() -> (r: G1Point)
    ensures
        g1_dlog(r) == 1,
        r.wf(),
{
    G1Point { point: ark_bls12_381::G1Affine::generator() }
}

/// Relies on `ark_ec::AffineRepr::zero` for G1: the identity element, of
/// discrete logarithm 0.
#[verifier::external_body]
pub(crate) fn g1_identity() -> (r: G1Point)
    ensures
        g1_dlog(r) == 0,
        r.wf(),
{
    G1Point { point: ark_bls12_381::G1Affine::zero() }
}

/// Relies on `ark_ec::AffineRepr::zero` for G2: the identity element, of
/// discrete logarithm 0.
#[verifier::external_body]
pub(crate) fn g2_identity() -> (r: G2Point)
    ensures
        g2_dlog(r) == 0,
        r.wf(),
{
    G2Point { point: ark_bls12_381::G2Affine::zero() }
}

/// Relies on `rand::SeedableRng::seed_from_u64` for `StdRng` and
/// `ark_std::UniformRand` for affine G2 points: the sampled subgroup
/// element is a deterministic function of the seed.
#[verifier::external_body]
pub(crate) fn seeded_g2_point(seed: u64) -> (r: G2Point)
    ensures
        g2_dlog(r) == seeded_g2_dlog(seed),
        r.wf(),
{
    let rng = &mut ark_std::rand::rngs::StdRng::seed_from_u64(seed);
    G2Point { point: ark_bls12_381::G2Affine::rand(rng) }
}

/// Relies on `MapToCurveBasedHasher::hash` over a SHA-256
/// `DefaultFieldHasher` and the `WBMap` for G2 of BLS12-381, under the
/// fixed domain-separation tag: the resulting subgroup element is a
/// deterministic function of the message alone.  The construction's error
/// paths depend only on the curve constants, never on the message, and do
/// not arise for these parameters.
#[verifier::external_body]
pub(crate) fn hash_to_g2(msg: &[u8]) -> (r: G2Point)
    ensures
        g2_dlog(r) == hash_dlog(msg@),
        r.wf(),
{
    let hasher = ark_ec::hashing::map_to_curve_hasher::MapToCurveBasedHasher::<
        ark_bls12_381::G2Projective,
        ark_ff::field_hashers::DefaultFieldHasher<sha2::Sha256, 128>,
        ark_ec::hashing::curve_maps::wb::WBMap<ark_bls12_381::g2::Config>,
    >::new(&[1, 3, 3, 7]).unwrap();
    G2Point { point: hasher.hash(msg).unwrap() }
}

/// Relies on `core::ops::Mul<Fr>` for affine G1 points: scalar
/// multiplication, which multiplies the exponent by the scalar.
#[verifier::external_body]
pub(crate) fn g1_mul(p: &G1Point, s: &Scalar) -> (r: G1Point)
    ensures
        g1_dlog(r) == mul_fr(g1_dlog(*p), scalar_repr(*s)),
        r.wf(),
{
    G1Point { point: (p.point * s.inner).into_affine() }
}

/// Relies on `core::ops::Mul<Fr>` for affine G2 points: scalar
/// multiplication, which multiplies the exponent by the scalar.
#[verifier::external_body]
pub(crate) fn g2_mul(p: &G2Point, s: &Scalar) -> (r: G2Point)
    ensures
        g2_dlog(r) == mul_fr(g2_dlog(*p), scalar_repr(*s)),
        r.wf(),
{
    G2Point { point: (p.point * s.inner).into_affine() }
}

/// Relies on `core::ops::Add` for affine G1 points: group addition, which
/// adds the exponents.
#[verifier::external_body]
pub(crate) fn g1_add(a: &G1Point, b: &G1Point) -> (r: G1Point)
    ensures
        g1_dlog(r) == add_fr(g1_dlog(*a), g1_dlog(*b)),
        r.wf(),
{
    G1Point { point: (a.point + b.point).into_affine() }
}

/// Relies on `core::ops::Add` for affine G2 points: group addition, which
/// adds the exponents.
#[verifier::external_body]
pub(crate) fn g2_add(a: &G2Point, b: &G2Point) -> (r: G2Point)
    ensures
        g2_dlog(r) == add_fr(g2_dlog(*a), g2_dlog(*b)),
        r.wf(),
{
    G2Point { point: (a.point + b.point).into_affine() }
}

/// Relies on `core::ops::Neg` for affine G1 points: group negation, which
/// negates the exponent.
#[verifier::external_body]
pub(crate) fn g1_neg(a: &G1Point) -> (r: G1Point)
    ensures
        g1_dlog(r) == neg_fr(g1_dlog(*a)),
        r.wf(),
{
    G1Point { point: -a.point }
}

/// Relies on `core::ops::Neg` for affine G2 points: group negation, which
/// negates the exponent.
#[verifier::external_body]
pub(crate) fn g2_neg(a: &G2Point) -> (r: G2Point)
    ensures
        g2_dlog(r) == neg_fr(g2_dlog(*a)),
        r.wf(),
{
    G2Point { point: -a.point }
}

/// Relies on `ark_ec::pairing::Pairing::multi_pairing` for Bls12_381 and
/// `Zero::is_zero` on its output: e(A1,B1)·e(A2,B2) is the GT identity
/// exactly when the exponent a1·b1 + a2·b2 vanishes modulo the group order,
/// the pairing being bilinear and non-degenerate.
#[verifier::external_body]
pub(crate) fn pairing_product_is_identity(
    a1: &G1Point,
    b1: &G2Point,
    a2: &G1Point,
    b2: &G2Point,
) -> (r: bool)
    ensures
        r <==> add_fr(
            mul_fr(g1_dlog(*a1), g2_dlog(*b1)),
            mul_fr(g1_dlog(*a2), g2_dlog(*b2)),
        ) == 0,
{
    ark_bls12_381::Bls12_381::multi_pairing(
        [a1.point, a2.point],
        [b1.point, b2.point],
    ).is_zero()
}

/// Relies on `PartialEq` for affine G1 points: equal points have equal
/// discrete logarithms, the exponent map being injective on the group.
#[verifier::external_body]
pub(crate) fn g1_eq(a: &G1Point, b: &G1Point) -> (r: bool)
    requires
        a.wf(),
        b.wf(),
    ensures
        r <==> g1_dlog(*a) == g1_dlog(*b),
{
    a.point == b.point
}

/// Relies on `PartialEq` for affine G2 points: equal points have equal
/// discrete logarithms, the exponent map being injective on the group.
#[verifier::external_body]
pub(crate) fn g2_eq(a: &G2Point, b: &G2Point) -> (r: bool)
    requires
        a.wf(),
        b.wf(),
    ensures
        r <==> g2_dlog(*a) == g2_dlog(*b),
{
    a.point == b.point
}

impl Scalar {
    /// The scalar with integer value `x`.
    pub fn from_u64(x: u64) -> (r: Scalar)
        ensures
            r@ == x as int,
            r.wf(),
    {
        scalar_from_u64(x)
    }

    /// Field multiplication.
    pub fn times(&self, other: &Scalar) -> (r: Scalar)
        ensures
            r@ == mul_fr(self@, other@),
            r.wf(),
    {
        scalar_mul(self, other)
    }

    /// The multiplicative inverse; `None` exactly for the zero scalar.
    pub fn invert(&self) -> (r: Option<Scalar>)
        requires
            self.wf(),
        ensures
            r is Some <==> self@ != 0,
            r matches Some(w) ==> w.wf() && mul_fr(self@, w@) == 1,
    {
        scalar_inverse(self)
    }
}

impl G1Point {
    /// Whether two G1 elements are the same point, which in the model is
    /// equality of exponents.
    pub fn same_point(&self, other: &G1Point) -> (r: bool)
        requires
            self.wf(),
            other.wf(),
        ensures
            r <==> self@ == other@,
    {
        g1_eq(self, other)
    }

    /// Group addition.
    pub fn add_point(&self, other: &G1Point) -> (r: G1Point)
        ensures
            r@ == add_fr(self@, other@),
            r.wf(),
    {
        g1_add(self, other)
    }

    /// Group negation.
    pub fn negate(&self) -> (r: G1Point)
        ensures
            r@ == neg_fr(self@),
            r.wf(),
    {
        g1_neg(self)
    }

    /// Scalar multiplication.
    pub fn scale(&self, s: &Scalar) -> (r: G1Point)
        ensures
            r@ == mul_fr(self@, s@),
            r.wf(),
    {
        g1_mul(self, s)
    }
}

impl G2Point {
    /// Whether two G2 elements are the same point, which in the model is
    /// equality of exponents.
    pub fn same_point(&self, other: &G2Point) -> (r: bool)
        requires
            self.wf(),
            other.wf(),
        ensures
            r <==> self@ == other@,
    {
        g2_eq(self, other)
    }

    /// Group addition.
    pub fn add_point(&self, other: &G2Point) -> (r: G2Point)
        ensures
            r@ == add_fr(self@, other@),
            r.wf(),
    {
        g2_add(self, other)
    }

    /// Group negation.
    pub fn negate(&self) -> (r: G2Point)
        ensures
            r@ == neg_fr(self@),
            r.wf(),
    {
        g2_neg(self)
    }

    /// Scalar multiplication.
    pub fn scale(&self, s: &Scalar) -> (r: G2Point)
        ensures
            r@ == mul_fr(self@, s@),
            r.wf(),
    {
        g2_mul(self, s)
    }
}

/// The public key belonging to a secret scalar: `secret · G1_generator`.
pub fn keygen(secret: &Scalar) -> (r: G1Point)
    requires
        secret.wf(),
    ensures
        r@ == secret@,
        r.wf(),
{
    let g = g1_generator_point();
    let pk = g1_mul(&g, secret);
    proof {
        crate::field::lemma_one_mul(secret@);
    }
    pk
}

} // verus!
