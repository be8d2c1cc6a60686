//! The values that verification works on: keys, prepared keys and proofs.

use pairing::bls12_381::{Fq12, G1Affine, G2Affine, G2Prepared};
use vstd::prelude::*;

verus! {

/// The public parameters of one circuit, as the setup produced them.
///
/// `ic` holds one coefficient for the constant input and one for each public
/// input, so a key accepts exactly `ic.len() - 1` public inputs.
#[derive(Debug)]
pub struct VerifyingKey {
    pub alpha_g1: G1Affine,
    pub beta_g2: G2Affine,
    pub gamma_g2: G2Affine,
    pub delta_g2: G2Affine,
    pub theta_g2: Option<G2Affine>,
    pub ic: Vec<G1Affine>,
}

/// A verifying key as a mathematical value.
pub struct VerifyingKeyView {
    pub alpha_g1: G1Affine,
    pub beta_g2: G2Affine,
    pub gamma_g2: G2Affine,
    pub delta_g2: G2Affine,
    pub theta_g2: Option<G2Affine>,
    pub ic: Seq<G1Affine>,
}

impl View for VerifyingKey {
    type V = VerifyingKeyView;

    open spec fn view(&self) -> VerifyingKeyView {
        VerifyingKeyView {
            alpha_g1: self.alpha_g1,
            beta_g2: self.beta_g2,
            gamma_g2: self.gamma_g2,
            delta_g2: self.delta_g2,
            theta_g2: self.theta_g2,
            ic: self.ic@,
        }
    }
}

/// What verification needs of a key, computed once: the pairing of `alpha`
/// with `beta`, and the negated long-group elements in prepared form.
#[derive(Debug)]
pub struct PreparedVerifyingKey {
    pub alpha_g1_beta_g2: Fq12,
    pub neg_gamma_g2: G2Prepared,
    pub neg_delta_g2: G2Prepared,
    pub neg_theta_g2: Option<G2Prepared>,
    pub ic: Vec<G1Affine>,
}

/// A prepared verifying key as a mathematical value.
pub struct PreparedVerifyingKeyView {
    pub alpha_g1_beta_g2: Fq12,
    pub neg_gamma_g2: G2Prepared,
    pub neg_delta_g2: G2Prepared,
    pub neg_theta_g2: Option<G2Prepared>,
    pub ic: Seq<G1Affine>,
}

impl View for PreparedVerifyingKey {
    type V = PreparedVerifyingKeyView;

    open spec fn view(&self) -> PreparedVerifyingKeyView {
        PreparedVerifyingKeyView {
            alpha_g1_beta_g2: self.alpha_g1_beta_g2,
            neg_gamma_g2: self.neg_gamma_g2,
            neg_delta_g2: self.neg_delta_g2,
            neg_theta_g2: self.neg_theta_g2,
            ic: self.ic@,
        }
    }
}

/// A Groth16 proof: three group elements, and a fourth where the proof system
/// is used with the optional `theta` term of the key.
#[derive(Debug)]
pub struct Proof {
    pub a: G1Affine,
    pub b: G2Affine,
    pub c: G1Affine,
    pub d: Option<G1Affine>,
}

} // verus!
