//! The key preparer: what can be computed of a key before any proof is seen.

use crate::bls12::{
    final_exponentiation, full_pairing, g2_negated, g2_prepared, miller_loop, negate_g2,
    pairing_value, pairs_of, prepare_g1, prepare_g2,
};
use crate::data::{PreparedVerifyingKey, PreparedVerifyingKeyView, VerifyingKey, VerifyingKeyView};
use pairing::bls12_381::{Fq12, G1Affine, G1Prepared, G2Affine, G2Prepared};
use vstd::prelude::*;

verus! {

/// The negated long-group element in prepared form.
pub open spec fn negated_prepared(p: G2Affine) -> G2Prepared {
    g2_prepared(g2_negated(p))
}

/// The prepared key that belongs to a key and a value for the pairing of its
/// `alpha` with its `beta`.
pub open spec fn prepared_key_with(vk: VerifyingKeyView, alpha_beta: Fq12) -> PreparedVerifyingKeyView {
    PreparedVerifyingKeyView {
        alpha_g1_beta_g2: alpha_beta,
        neg_gamma_g2: negated_prepared(vk.gamma_g2),
        neg_delta_g2: negated_prepared(vk.delta_g2),
        neg_theta_g2: match vk.theta_g2 {
            Some(theta) => Some(negated_prepared(theta)),
            None => None,
        },
        ic: vk.ic,
    }
}

/// Whether the engine can pair the key's `alpha` with its `beta`.
pub open spec fn can_prepare(vk: VerifyingKeyView) -> bool {
    pairing_value(vk.alpha_g1, vk.beta_g2) is Some
}

/// The prepared form of a key.
pub open spec fn prepared_key(vk: VerifyingKeyView) -> PreparedVerifyingKeyView
    recommends
        can_prepare(vk),
{
    prepared_key_with(vk, pairing_value(vk.alpha_g1, vk.beta_g2).unwrap())
}

/// Negates a long-group point and prepares the result.
fn negate_and_prepare(p: &G2Affine) -> (r: G2Prepared)
    ensures
        r == negated_prepared(*p),
{
    let mut negated = *p;
    negate_g2(&mut negated);
    prepare_g2(&negated)
}

/// Negates a long-group point twice. Negation is its own inverse, so the
/// point comes back unchanged: a check on the negation that the prepared key
/// is built on.
pub fn negation_round_trip(p: &G2Affine) -> (r: G2Affine)
    ensures
        r == *p,
{
    let mut q = *p;
    negate_g2(&mut q);
    negate_g2(&mut q);
    q
}

/// Copies a list of points, element by element.
fn copy_points(points: &Vec<G1Affine>) -> (r: Vec<G1Affine>)
    ensures
        r@ == points@,
{
    let mut r: Vec<G1Affine> = Vec::with_capacity(points.len());
    let mut i: usize = 0;
    while i < points.len()
        invariant
            i <= points.len(),
            r@ == points@.take(i as int),
        decreases points.len() - i,
    {
        r.push(points[i]);
        assert(points@.take(i + 1) == points@.take(i as int).push(points@[i as int]));
        i += 1;
    }
    assert(points@.take(points@.len() as int) == points@);
    r
}

/// Builds the prepared key from a key and the pairing of its `alpha` with its
/// `beta`.
fn assemble(vk: &VerifyingKey, alpha_beta: Fq12) -> (pvk: PreparedVerifyingKey)
    ensures
        pvk@ == prepared_key_with(vk@, alpha_beta),
{
    PreparedVerifyingKey {
        alpha_g1_beta_g2: alpha_beta,
        neg_gamma_g2: negate_and_prepare(&vk.gamma_g2),
        neg_delta_g2: negate_and_prepare(&vk.delta_g2),
        neg_theta_g2: match &vk.theta_g2 {
            Some(theta) => Some(negate_and_prepare(theta)),
            None => None,
        },
        ic: copy_points(&vk.ic),
    }
}

/// Prepares a key for verification: pairs `alpha` with `beta`, negates and
/// prepares `gamma`, `delta` and `theta`, and copies the input coefficients.
///
/// The engine's pairing panics where its final exponentiation gives nothing,
/// so the key must be one whose `alpha` and `beta` it can pair;
/// [`try_prepare_verifying_key`] asks nothing of the key.
pub fn prepare_verifying_key(vk: &VerifyingKey) -> (pvk: PreparedVerifyingKey)
    requires
        can_prepare(vk@),
    ensures
        pvk@ == prepared_key(vk@),
{
    let alpha_beta = full_pairing(&vk.alpha_g1, &vk.beta_g2);
    assemble(vk, alpha_beta)
}

/// Prepares a key where the engine can pair its `alpha` with its `beta`, and
/// gives nothing where it cannot.
pub fn try_prepare_verifying_key(vk: &VerifyingKey) -> (r: Option<PreparedVerifyingKey>)
    ensures
        r is Some <==> can_prepare(vk@),
        r matches Some(pvk) ==> pvk@ == prepared_key(vk@),
{
    let alpha = prepare_g1(&vk.alpha_g1);
    let beta = prepare_g2(&vk.beta_g2);
    let mut pair: Vec<(&G1Prepared, &G2Prepared)> = Vec::with_capacity(1);
    pair.push((&alpha, &beta));
    assert(pairs_of(pair@) == seq![(alpha, beta)]);
    match final_exponentiation(&miller_loop(&pair)) {
        Some(alpha_beta) => Some(assemble(vk, alpha_beta)),
        None => None,
    }
}

/// Preparing is a function of the key's value: equal keys have equal
/// prepared keys.
pub proof fn lemma_prepare_deterministic(vk1: VerifyingKey, vk2: VerifyingKey)
    requires
        vk1@ == vk2@,
    ensures
        can_prepare(vk1@) == can_prepare(vk2@),
        prepared_key(vk1@) == prepared_key(vk2@),
{
}

} // verus!
