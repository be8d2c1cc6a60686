//! The proof verifier: one accumulation of the public inputs, one batched
//! Miller loop, one final exponentiation, one comparison.
//!
//! The textbook check `e(A, B) = e(alpha, beta) * e(inputs, gamma) *
//! e(C, delta) * e(D, theta)` needs a final exponentiation for each pairing.
//! With the key's elements negated beforehand it reads `e(A, B) *
//! e(inputs, -gamma) * e(C, -delta) * e(D, -theta) = e(alpha, beta)`: the
//! left side is one Miller loop over all pairs and one final exponentiation,
//! the right side is known from the prepared key.

use crate::bls12::{
    add_assign_g1, final_exponentiation, final_exponentiation_value, g1_affine, g1_prepared,
    g1_projective, g1_scaled, g1_sum, g2_prepared, into_affine, into_projective, into_repr,
    miller_loop, miller_loop_value, pairs_of, prepare_g1, prepare_g2, scalar_repr, scale_g1,
    target_eq,
};
use crate::data::{PreparedVerifyingKey, PreparedVerifyingKeyView, Proof};
use crate::error::VerificationError;
use pairing::bls12_381::{Fq12, Fr, G1Affine, G1Prepared, G2Prepared, G1};
use vstd::prelude::*;

verus! {

/// The accumulator after the first `count` public inputs: the constant
/// coefficient `ic[0]`, and for each input `inputs[k]` with `k < count` the
/// coefficient `ic[k + 1]` scaled by it, added in the order of the inputs.
pub open spec fn accumulated(ic: Seq<G1Affine>, inputs: Seq<Fr>, count: nat) -> G1
    recommends
        count <= inputs.len(),
        inputs.len() + 1 == ic.len(),
    decreases count,
{
    if count == 0 {
        g1_projective(ic[0])
    } else {
        g1_sum(
            accumulated(ic, inputs, (count - 1) as nat),
            g1_scaled(ic[count as int], scalar_repr(inputs[count - 1])),
        )
    }
}

/// The affine point that stands for all public inputs in the pairing check.
pub open spec fn input_point(ic: Seq<G1Affine>, inputs: Seq<Fr>) -> G1Affine
    recommends
        inputs.len() + 1 == ic.len(),
{
    g1_affine(accumulated(ic, inputs, inputs.len()))
}

/// The pairs that go into the Miller loop, in order: the proof's `a` with its
/// `b`, the input point with `-gamma`, the proof's `c` with `-delta`, and,
/// where proof and key both have the optional term, `d` with `-theta`.
pub open spec fn pairing_batch(pvk: PreparedVerifyingKeyView, proof: Proof, inputs: G1Affine) -> Seq<
    (G1Prepared, G2Prepared),
> {
    let three = seq![
        (g1_prepared(proof.a), g2_prepared(proof.b)),
        (g1_prepared(inputs), pvk.neg_gamma_g2),
        (g1_prepared(proof.c), pvk.neg_delta_g2),
    ];
    match (proof.d, pvk.neg_theta_g2) {
        (Some(d), Some(neg_theta)) => three.push((g1_prepared(d), neg_theta)),
        _ => three,
    }
}

/// What becomes of the outcome of the final exponentiation: no outcome is an
/// error, and an outcome is the verdict that it equals the expected value.
pub open spec fn verdict_of(outcome: Option<Fq12>, expected: Fq12) -> Result<bool, VerificationError> {
    match outcome {
        Some(value) => Ok(value == expected),
        None => Err(VerificationError::PairingComputationFailed),
    }
}

/// Whether the number of public inputs is the one that the key accepts.
pub open spec fn arity_matches(pvk: PreparedVerifyingKeyView, inputs: Seq<Fr>) -> bool {
    inputs.len() + 1 == pvk.ic.len()
}

/// Whether the optional fourth term is in both the key and the proof, or in
/// neither.
pub open spec fn optional_term_matches(pvk: PreparedVerifyingKeyView, proof: Proof) -> bool {
    (proof.d is Some) == (pvk.neg_theta_g2 is Some)
}

/// The result of verifying a proof against a prepared key and public inputs.
pub open spec fn verification_result(
    pvk: PreparedVerifyingKeyView,
    proof: Proof,
    inputs: Seq<Fr>,
) -> Result<bool, VerificationError> {
    if !arity_matches(pvk, inputs) {
        Err(VerificationError::MalformedVerifyingKey)
    } else if !optional_term_matches(pvk, proof) {
        Err(VerificationError::OptionalTermMismatch)
    } else {
        verdict_of(
            final_exponentiation_value(
                miller_loop_value(pairing_batch(pvk, proof, input_point(pvk.ic, inputs))),
            ),
            pvk.alpha_g1_beta_g2,
        )
    }
}

/// Folds the public inputs into one projective point: starts from the
/// constant coefficient and adds each further coefficient scaled by its input.
pub fn accumulate_inputs(ic: &Vec<G1Affine>, public_inputs: &[Fr]) -> (acc: G1)
    requires
        public_inputs@.len() + 1 == ic@.len(),
    ensures
        acc == accumulated(ic@, public_inputs@, public_inputs@.len()),
{
    let mut acc = into_projective(&ic[0]);
    let mut k: usize = 0;
    while k < public_inputs.len()
        invariant
            k <= public_inputs@.len(),
            public_inputs@.len() + 1 == ic@.len(),
            acc == accumulated(ic@, public_inputs@, k as nat),
        decreases public_inputs@.len() - k,
    {
        let term = scale_g1(&ic[k + 1], into_repr(&public_inputs[k]));
        add_assign_g1(&mut acc, &term);
        k += 1;
    }
    acc
}

/// Turns the outcome of the final exponentiation into the result of the
/// verification.
pub fn verdict(outcome: Option<Fq12>, expected: &Fq12) -> (r: Result<bool, VerificationError>)
    ensures
        r == verdict_of(outcome, *expected),
{
    match outcome {
        Some(value) => Ok(target_eq(&value, expected)),
        None => Err(VerificationError::PairingComputationFailed),
    }
}

/// Verifies a proof against a prepared key and the public inputs of the
/// statement.
///
/// `Ok(true)` says that the proof is valid and `Ok(false)` that it is not. An
/// error says that no verdict was reached: the inputs do not fit the key, the
/// optional term is in only one of key and proof, or the engine could not
/// finish the final exponentiation.
pub fn verify_proof(pvk: &PreparedVerifyingKey, proof: &Proof, public_inputs: &[Fr]) -> (r: Result<
    bool,
    VerificationError,
>)
    ensures
        r == verification_result(pvk@, *proof, public_inputs@),
        r == Err::<bool, VerificationError>(VerificationError::MalformedVerifyingKey)
            <==> !arity_matches(pvk@, public_inputs@),
        r == Err::<bool, VerificationError>(VerificationError::OptionalTermMismatch) <==> arity_matches(
            pvk@,
            public_inputs@,
        ) && !optional_term_matches(pvk@, *proof),
        r is Ok ==> arity_matches(pvk@, public_inputs@) && optional_term_matches(pvk@, *proof),
{
    if pvk.ic.len() == 0 || public_inputs.len() != pvk.ic.len() - 1 {
        return Err(VerificationError::MalformedVerifyingKey);
    }
    if proof.d.is_some() != pvk.neg_theta_g2.is_some() {
        return Err(VerificationError::OptionalTermMismatch);
    }
    let acc = accumulate_inputs(&pvk.ic, public_inputs);

    let acc_prepared = prepare_g1(&into_affine(&acc));
    let a_prepared = prepare_g1(&proof.a);
    let b_prepared = prepare_g2(&proof.b);
    let c_prepared = prepare_g1(&proof.c);
    let d_prepared = match &proof.d {
        Some(d) => Some(prepare_g1(d)),
        None => None,
    };

    let mut pairings: Vec<(&G1Prepared, &G2Prepared)> = Vec::with_capacity(4);
    pairings.push((&a_prepared, &b_prepared));
    pairings.push((&acc_prepared, &pvk.neg_gamma_g2));
    pairings.push((&c_prepared, &pvk.neg_delta_g2));
    match (&d_prepared, &pvk.neg_theta_g2) {
        (Some(d_prepared), Some(neg_theta)) => {
            pairings.push((d_prepared, neg_theta));
        },
        _ => {},
    }
    assert(pairs_of(pairings@) == pairing_batch(
        pvk@,
        *proof,
        input_point(pvk.ic@, public_inputs@),
    ));

    verdict(final_exponentiation(&miller_loop(&pairings)), &pvk.alpha_g1_beta_g2)
}

/// The result of a verification is a function of the values of its
/// arguments: equal prepared keys, equal proofs and equal public inputs get
/// the same result.
pub proof fn lemma_verification_deterministic(
    pvk1: PreparedVerifyingKey,
    pvk2: PreparedVerifyingKey,
    proof1: Proof,
    proof2: Proof,
    inputs1: Seq<Fr>,
    inputs2: Seq<Fr>,
)
    requires
        pvk1@ == pvk2@,
        proof1 == proof2,
        inputs1 == inputs2,
    ensures
        verification_result(pvk1@, proof1, inputs1) == verification_result(pvk2@, proof2, inputs2),
{
}

/// The public inputs enter the result only through the affine point that
/// they accumulate to: two statements for one proof, under keys that differ
/// at most in their input coefficients, get the same result when their input
/// points are equal.
pub proof fn lemma_result_depends_on_input_point(
    pvk1: PreparedVerifyingKeyView,
    pvk2: PreparedVerifyingKeyView,
    proof: Proof,
    inputs1: Seq<Fr>,
    inputs2: Seq<Fr>,
)
    requires
        pvk1.alpha_g1_beta_g2 == pvk2.alpha_g1_beta_g2,
        pvk1.neg_gamma_g2 == pvk2.neg_gamma_g2,
        pvk1.neg_delta_g2 == pvk2.neg_delta_g2,
        pvk1.neg_theta_g2 == pvk2.neg_theta_g2,
        arity_matches(pvk1, inputs1),
        arity_matches(pvk2, inputs2),
        input_point(pvk1.ic, inputs1) == input_point(pvk2.ic, inputs2),
    ensures
        verification_result(pvk1, proof, inputs1) == verification_result(pvk2, proof, inputs2),
{
}

} // verus!
