//! KZG polynomial commitments over the toy curve: `C = f(tau) * G1`, and an opening at
//! `z` is the commitment to `(f(x) - f(z)) / (x - z)`, checked by
//! `e(C - f(z) * G1, G2) == e(proof, tau * G2 - z * G2)`.
use crate::field::ScalarField;
use crate::pairing::{pairing, pairing_defined, spairing};
use crate::poly::{fpow, sdivide, seval, strim, DensePolynomial};
use crate::poly_laws::{lemma_divide_linear, lemma_linear_trimmed};
use crate::tiny_field::{G1Point, G2Point};
use crate::g2_multiples::lemma_g2_multiples_defined;
use vstd::prelude::*;

verus! {

broadcast use ScalarField::group_scalar_field;

/// A polynomial commitment scheme.
pub trait PolyCommit: Sized {
    type Field;

    type Polynomial;

    type Commitment;

    type Proof;

    /// The inputs on which `setup` is defined.
    spec fn setup_defined(max_degree: usize, tau: Self::Field) -> bool;

    /// The polynomials that `commit` accepts.
    spec fn commit_defined(&self, poly: &Self::Polynomial) -> bool;

    /// The polynomials that `open` accepts.
    spec fn open_defined(&self, poly: &Self::Polynomial) -> bool;

    /// The inputs on which `verify` is defined.
    spec fn verify_defined(
        &self,
        commitment: &Self::Commitment,
        point: Self::Field,
        value: Self::Field,
        proof: &Self::Proof,
    ) -> bool;

    fn setup(max_degree: usize, tau: Self::Field) -> Self
        requires
            Self::setup_defined(max_degree, tau),
    ;

    fn commit(&self, poly: &Self::Polynomial) -> Self::Commitment
        requires
            self.commit_defined(poly),
    ;

    fn open(&self, poly: &Self::Polynomial, point: Self::Field) -> (Self::Field, Self::Proof)
        requires
            self.open_defined(poly),
    ;

    fn verify(
        &self,
        commitment: &Self::Commitment,
        point: Self::Field,
        value: Self::Field,
        proof: &Self::Proof,
    ) -> bool
        requires
            self.verify_defined(commitment, point, value, proof),
    ;
}

/// The structured reference string: `tau^i * G1` for `i <= max_degree`, `G2` and `tau * G2`.
#[derive(Debug, Clone)]
pub struct SRS {
    pub g1_powers: Vec<G1Point>,
    pub g2: G2Point,
    pub g2_tau: G2Point,
}

#[derive(Debug, Clone)]
pub struct KZG10 {
    pub srs: SRS,
}

/// `sum_{j < i, coeffs[j] != 0} coeffs[j] * powers[j]`, added in the order of `j`.
pub open spec fn scommit_steps(powers: Seq<G1Point>, coeffs: Seq<ScalarField>, i: nat) -> G1Point
    decreases i,
{
    if i == 0 {
        G1Point::Infinity
    } else {
        let acc = scommit_steps(powers, coeffs, (i - 1) as nat);
        let c = coeffs[i - 1];
        if c == ScalarField::szero() {
            acc
        } else {
            acc.sadd(powers[i - 1].smul(c.val()))
        }
    }
}

/// The commitment to the polynomial with coefficients `coeffs`.
pub open spec fn scommit(powers: Seq<G1Point>, coeffs: Seq<ScalarField>) -> G1Point {
    scommit_steps(powers, coeffs, coeffs.len())
}

/// The coefficients of `x - z`.
pub open spec fn slinear_divisor(z: ScalarField) -> Seq<ScalarField> {
    seq![z.sneg(), ScalarField::sone()]
}

/// The opening proof at `z`: the commitment to the quotient by `x - z`.
pub open spec fn sopen_proof(powers: Seq<G1Point>, coeffs: Seq<ScalarField>, z: ScalarField) -> G1Point {
    scommit(powers, sdivide(coeffs, strim(slinear_divisor(z))).0)
}

/// The verification equation, as the two pairings that it compares.
pub open spec fn sverify_sides(srs: SRS, commitment: G1Point, point: ScalarField, value: ScalarField, proof: G1Point) -> (
    crate::pairing::GT,
    crate::pairing::GT,
) {
    let left_g1 = commitment.ssub(G1Point::sgenerator().smul(value.val()));
    let right_g2 = srs.g2_tau.ssub(srs.g2.smul(point.val()));
    (spairing(left_g1, srs.g2), spairing(proof, right_g2))
}

pub open spec fn sverify_defined(srs: SRS, commitment: G1Point, point: ScalarField, value: ScalarField, proof: G1Point) -> bool {
    let left_g1 = commitment.ssub(G1Point::sgenerator().smul(value.val()));
    &&& srs.g2.mul_defined(point.val())
    &&& srs.g2_tau.add_defined(srs.g2.smul(point.val()).sneg())
    &&& pairing_defined(left_g1, srs.g2)
    &&& pairing_defined(proof, srs.g2_tau.ssub(srs.g2.smul(point.val())))
}

/// `srs` is the reference string that `setup(max_degree, tau)` builds: the powers
/// `tau^i G` for `i <= max_degree`, the generator `H` of G2 and `tau H`.
pub open spec fn is_setup_srs(srs: SRS, max_degree: nat, tau: ScalarField) -> bool {
    &&& srs.g1_powers@ == Seq::new(
        max_degree + 1,
        |i: int| G1Point::sgenerator().smul(fpow(tau, i as nat).val()),
    )
    &&& srs.g2 == G2Point::sgenerator()
    &&& srs.g2_tau == G2Point::sgenerator().smul(tau.val())
    &&& tau.canon()
}

/// The opening proof at `z` commits to the quotient `q = (f - f(z)) / (x - z)`: at every
/// `x`, `f(x) == q(x) * (x - z) + f(z)`.
pub proof fn lemma_open_quotient(f: Seq<ScalarField>, z: ScalarField, x: ScalarField)
    ensures
        seval(f, x) == seval(sdivide(f, strim(slinear_divisor(z))).0, x).smul(x.ssub(z)).sadd(
            seval(f, z),
        ),
{
    lemma_linear_trimmed(z);
    lemma_divide_linear(f, z, x);
}

impl PolyCommit for KZG10 {
    type Field = ScalarField;

    type Polynomial = DensePolynomial;

    type Commitment = G1Point;

    type Proof = G1Point;

    open spec fn setup_defined(max_degree: usize, tau: ScalarField) -> bool {
        max_degree < usize::MAX
    }

    open spec fn commit_defined(&self, poly: &DensePolynomial) -> bool {
        poly@.len() <= self.srs.g1_powers@.len()
    }

    open spec fn open_defined(&self, poly: &DensePolynomial) -> bool {
        poly@.len() <= self.srs.g1_powers@.len() + 1
    }

    open spec fn verify_defined(
        &self,
        commitment: &G1Point,
        point: ScalarField,
        value: ScalarField,
        proof: &G1Point,
    ) -> bool {
        sverify_defined(self.srs, *commitment, point, value, *proof)
    }

    fn setup(max_degree: usize, tau: ScalarField) -> (r: Self)
        ensures
            r.srs.g1_powers@ == Seq::new(
                (max_degree + 1) as nat,
                |i: int| G1Point::sgenerator().smul(fpow(tau, i as nat).val()),
            ),
            r.srs.g2 == G2Point::sgenerator(),
            r.srs.g2_tau == G2Point::sgenerator().smul(tau.val()),
            is_setup_srs(r.srs, max_degree as nat, tau),
    {
        let g1 = G1Point::generator();
        let g2 = G2Point::generator();

        let mut g1_powers: Vec<G1Point> = Vec::new();
        let mut tau_power = ScalarField::one();
        let mut i: usize = 0;
        while i < max_degree + 1
            invariant
                max_degree < usize::MAX,
                i <= max_degree + 1,
                g1 == G1Point::sgenerator(),
                tau_power == fpow(tau, i as nat),
                g1_powers@ =~= Seq::new(
                    i as nat,
                    |j: int| G1Point::sgenerator().smul(fpow(tau, j as nat).val()),
                ),
            decreases max_degree + 1 - i,
        {
            g1_powers.push(g1.scalar_mul_fr(tau_power));
            tau_power = tau_power.mul(&tau);
            i = i + 1;
        }

        proof {
            use_type_invariant(tau);
            lemma_g2_multiples_defined();
            assert(G2Point::sgenerator().mul_defined(tau.val()));
        }
        let g2_tau = g2.scalar_mul_fr(tau);
        let srs = SRS { g1_powers, g2, g2_tau };
        KZG10 { srs }
    }

    fn commit(&self, poly: &DensePolynomial) -> (r: G1Point)
        ensures
            r == scommit(self.srs.g1_powers@, poly@),
    {
        if poly.is_zero() {
            return G1Point::Infinity;
        }
        let coeffs = poly.coeffs();
        let mut acc = G1Point::Infinity;
        let mut i: usize = 0;
        while i < coeffs.len()
            invariant
                i <= coeffs.len(),
                coeffs@ == poly@,
                coeffs.len() <= self.srs.g1_powers@.len(),
                acc == scommit_steps(self.srs.g1_powers@, poly@, i as nat),
            decreases coeffs.len() - i,
        {
            let coeff = coeffs[i];
            if !coeff.is_zero() {
                let term = self.srs.g1_powers[i].scalar_mul_fr(coeff);
                acc = acc.add(&term);
            } else {
                proof {
                    use_type_invariant(&coeff);
                    ScalarField::lemma_val_eq(coeff, ScalarField::szero());
                }
            }
            i = i + 1;
        }
        acc
    }

    fn open(&self, poly: &DensePolynomial, point: ScalarField) -> (r: (ScalarField, G1Point))
        ensures
            r.0 == seval(poly@, point),
            r.1 == sopen_proof(self.srs.g1_powers@, poly@, point),
    {
        let value = poly.evaluate(&point);
        let divisor = DensePolynomial::from_coefficients_vec(vec![point.neg(), ScalarField::one()]);
        let (quotient, _remainder) = poly.divide_with_q_and_r(&divisor);
        proof {
            crate::poly::lemma_sdivide_len(poly@, divisor@);
        }
        let proof = self.commit(&quotient);
        (value, proof)
    }

    fn verify(
        &self,
        commitment: &G1Point,
        point: ScalarField,
        value: ScalarField,
        proof: &G1Point,
    ) -> (r: bool)
        ensures
            r == (sverify_sides(self.srs, *commitment, point, value, *proof).0 == sverify_sides(
                self.srs,
                *commitment,
                point,
                value,
                *proof,
            ).1),
    {
        let g1 = G1Point::generator();
        let g1_value = g1.scalar_mul_fr(value);
        let left_g1 = commitment.sub(&g1_value);

        let g2_point = self.srs.g2.scalar_mul_fr(point);
        let right_g2 = self.srs.g2_tau.sub(&g2_point);

        let left = pairing(&left_g1, &self.srs.g2);
        let right = pairing(proof, &right_g2);
        left == right
    }
}

} // verus!
