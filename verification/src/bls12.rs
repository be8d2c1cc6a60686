//! The boundary to the `pairing` crate's BLS12-381 engine.
//!
//! Nothing in this module is proved. Each function below makes one call into
//! the engine, and its contract gives a name to the value that the call
//! returns, so that the rest of the crate can say exactly which engine
//! operations a result is made of. The engine's values are opaque here: two of
//! them are equal when they agree field for field.

use ff::PrimeField;
use group::{CurveAffine, CurveProjective};
use pairing::bls12_381::{Bls12, Fq12, Fr, FrRepr, G1Affine, G1Prepared, G2Affine, G2Prepared, G1};
use pairing::{Engine, PairingCurveAffine};
use vstd::prelude::*;

verus! {

/// A scalar: an element of the prime field whose order is that of the groups.
#[verifier::external_type_specification]
#[verifier::external_body]
pub struct ExFr(pairing::bls12_381::Fr);

/// The canonical integer representation of a scalar.
#[verifier::external_type_specification]
#[verifier::external_body]
pub struct ExFrRepr(pairing::bls12_381::FrRepr);

/// A point of the short group in affine coordinates.
#[verifier::external_type_specification]
#[verifier::external_body]
pub struct ExG1Affine(pairing::bls12_381::G1Affine);

/// A point of the short group in projective coordinates.
#[verifier::external_type_specification]
#[verifier::external_body]
pub struct ExG1(pairing::bls12_381::G1);

/// A point of the long group in affine coordinates.
#[verifier::external_type_specification]
#[verifier::external_body]
pub struct ExG2Affine(pairing::bls12_381::G2Affine);

/// A short-group point in the form the Miller loop takes.
#[verifier::external_type_specification]
#[verifier::external_body]
pub struct ExG1Prepared(pairing::bls12_381::G1Prepared);

/// A long-group point in the form the Miller loop takes.
#[verifier::external_type_specification]
#[verifier::external_body]
pub struct ExG2Prepared(pairing::bls12_381::G2Prepared);

/// An element of the field that holds the pairing's target group.
#[verifier::external_type_specification]
#[verifier::external_body]
pub struct ExFq12(pairing::bls12_381::Fq12);

/// The additive inverse of a long-group point.
pub uninterp spec fn g2_negated(p: G2Affine) -> G2Affine;

/// The prepared form of a short-group point.
pub uninterp spec fn g1_prepared(p: G1Affine) -> G1Prepared;

/// The prepared form of a long-group point.
pub uninterp spec fn g2_prepared(p: G2Affine) -> G2Prepared;

/// The projective form of an affine short-group point.
pub uninterp spec fn g1_projective(p: G1Affine) -> G1;

/// The affine form of a projective short-group point.
pub uninterp spec fn g1_affine(p: G1) -> G1Affine;

/// The canonical integer representation of a scalar.
pub uninterp spec fn scalar_repr(s: Fr) -> FrRepr;

/// A short-group point multiplied by a scalar in canonical representation.
pub uninterp spec fn g1_scaled(p: G1Affine, k: FrRepr) -> G1;

/// The sum of two projective short-group points, in the coordinates that the
/// engine's addition leaves.
pub uninterp spec fn g1_sum(a: G1, b: G1) -> G1;

/// The value of the Miller loop over a list of prepared pairs.
pub uninterp spec fn miller_loop_value(pairs: Seq<(G1Prepared, G2Prepared)>) -> Fq12;

/// The final exponentiation of a Miller loop value, where the engine can
/// compute it.
pub uninterp spec fn final_exponentiation_value(f: Fq12) -> Option<Fq12>;

/// The pairing of two points: the final exponentiation of the Miller loop
/// over the one pair, where the engine can compute it.
pub open spec fn pairing_value(p: G1Affine, q: G2Affine) -> Option<Fq12> {
    final_exponentiation_value(miller_loop_value(seq![(g1_prepared(p), g2_prepared(q))]))
}

/// The pairs behind a list of references to prepared points.
pub open spec fn pairs_of(pairs: Seq<(&G1Prepared, &G2Prepared)>) -> Seq<(G1Prepared, G2Prepared)> {
    Seq::new(pairs.len(), |i: int| (*pairs[i].0, *pairs[i].1))
}

/// `CurveAffine::negate` on `G2Affine`: it replaces the `y` coordinate of a
/// finite point by its negative and leaves the point at infinity alone. The
/// field's negation sends a non-zero reduced element `y` to `modulus - y` and
/// zero to itself, so negating the result gives the first point back,
/// coordinate for coordinate; the second clause says so.
#[verifier::external_body]
pub(crate) fn negate_g2(p: &mut G2Affine)
    ensures
        *final(p) == g2_negated(*old(p)),
        g2_negated(*final(p)) == *old(p),
{
    p.negate();
}

/// `PairingCurveAffine::prepare` on `G1Affine`.
#[verifier::external_body]
pub(crate) fn prepare_g1(p: &G1Affine) -> (r: G1Prepared)
    ensures
        r == g1_prepared(*p),
{
    p.prepare()
}

/// `PairingCurveAffine::prepare` on `G2Affine`.
#[verifier::external_body]
pub(crate) fn prepare_g2(p: &G2Affine) -> (r: G2Prepared)
    ensures
        r == g2_prepared(*p),
{
    p.prepare()
}

/// `CurveAffine::into_projective` on `G1Affine`.
#[verifier::external_body]
pub(crate) fn into_projective(p: &G1Affine) -> (r: G1)
    ensures
        r == g1_projective(*p),
{
    p.into_projective()
}

/// `CurveProjective::into_affine` on `G1`.
#[verifier::external_body]
pub(crate) fn into_affine(p: &G1) -> (r: G1Affine)
    ensures
        r == g1_affine(*p),
{
    p.into_affine()
}

/// `PrimeField::into_repr` on `Fr`.
#[verifier::external_body]
pub(crate) fn into_repr(s: &Fr) -> (r: FrRepr)
    ensures
        r == scalar_repr(*s),
{
    s.into_repr()
}

/// `CurveAffine::mul` on `G1Affine`, by a scalar in canonical representation.
#[verifier::external_body]
pub(crate) fn scale_g1(p: &G1Affine, k: FrRepr) -> (r: G1)
    ensures
        r == g1_scaled(*p, k),
{
    p.mul(k)
}

/// `CurveProjective::add_assign` on `G1`.
#[verifier::external_body]
pub(crate) fn add_assign_g1(acc: &mut G1, other: &G1)
    ensures
        *final(acc) == g1_sum(*old(acc), *other),
{
    acc.add_assign(other);
}

/// `Engine::miller_loop` on `Bls12`, over the pairs in the order given.
#[verifier::external_body]
pub(crate) fn miller_loop(pairs: &Vec<(&G1Prepared, &G2Prepared)>) -> (r: Fq12)
    ensures
        r == miller_loop_value(pairs_of(pairs@)),
{
    Bls12::miller_loop(pairs.iter())
}

/// `Engine::final_exponentiation` on `Bls12`. It gives nothing when its
/// argument has no inverse.
#[verifier::external_body]
pub(crate) fn final_exponentiation(f: &Fq12) -> (r: Option<Fq12>)
    ensures
        r == final_exponentiation_value(*f),
{
    Bls12::final_exponentiation(f)
}

/// `Engine::pairing` on `Bls12`: it prepares the two points, runs the Miller
/// loop over the one pair and unwraps the final exponentiation, so it panics
/// where the final exponentiation gives nothing. Those arguments are left out.
#[verifier::external_body]
pub(crate) fn full_pairing(p: &G1Affine, q: &G2Affine) -> (r: Fq12)
    requires
        pairing_value(*p, *q) is Some,
    ensures
        Some(r) == pairing_value(*p, *q),
{
    Bls12::pairing(*p, *q)
}

/// `PartialEq::eq` on `Fq12`, which the engine derives: two elements are equal
/// when all their coefficients are.
#[verifier::external_body]
pub(crate) fn target_eq(a: &Fq12, b: &Fq12) -> (r: bool)
    ensures
        r == (*a == *b),
{
    a == b
}

} // verus!
