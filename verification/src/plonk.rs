//! A minimal PLONK over KZG: a witness vector `T` on the multiplicative subgroup
//! `Omega = {1, w, ..., w^(n-1)}`, addition and multiplication gates selected by `S` on
//! `Omega_gates = {1, w^3, w^6, ...}`, and copy constraints given by a permutation.
use crate::field::ScalarField;
use crate::kzg::{is_setup_srs, scommit, sopen_proof, sverify_defined, PolyCommit, KZG10, SRS};
use crate::kzg_laws::lemma_kzg_complete;
use crate::pcs_gadgets::{
    lemma_interpolate_eval, lemma_vanishing_eval, lemma_vanishing_zero_iff, sroots_prod, distinct, find_root_of_unity, has_primitive_root, interpolate, is_primitive_root,
    lemma_interpolate_len, lemma_sprod_len, lemma_vanishing_monic, multiplicative_domain,
    kzg_complete, shift_by_omega, sinterpolate, skzg_ok, sprefix_prod, smult_domain, svanishing, svanishing_steps,
    PrescribedPermutationCheck, PrescribedPermutationProof,
};
use crate::poly::{
    lemma_sdivide_len, lemma_strim, poly_mul_coeffs, sadd_coeffs, sdivide, seval, sprod, sshift,
    ssub_coeffs, strim, DensePolynomial,
};
use crate::poly_laws::{
    lemma_divide, lemma_eval_add, lemma_eval_constant, lemma_eval_mul, lemma_eval_shift, lemma_eval_sub,
    lemma_fpow_cube, lemma_fpow_succ, lemma_root_count, lemma_seval_canon, lemma_seval_strim,
};
use crate::tiny_field::{G1Point, G2Point};
use ark_std::rand::RngCore;
use vstd::prelude::*;

verus! {

broadcast use ScalarField::group_scalar_field;

#[derive(Debug, Clone)]
pub struct Plonk<Fr, PCS: PolyCommit> {
    pub witness: Vec<Fr>,
    pub selector: Vec<Fr>,
    pub perm: Vec<u64>,
    pub pcs: PCS,
    pub omega: Fr,
}

#[derive(Debug, Clone, Copy)]
pub struct GateCheckProof {
    pub q_commit: G1Point,
    pub r: ScalarField,
    pub q_eval_r: ScalarField,
    pub q_proof_r: G1Point,
}

#[derive(Debug, Clone, Copy)]
pub struct PlonkKZG10Proof {
    pub gate_proof: GateCheckProof,
    pub wire_proof: PrescribedPermutationProof,
    pub t_eval_wr: ScalarField,
    pub t_proof_wr: G1Point,
    pub t_eval_w2r: ScalarField,
    pub t_proof_w2r: G1Point,
}

/// The constraint polynomial
/// `G(x) = S(x) * (T(x) + T(w x)) + (1 - S(x)) * T(x) * T(w x) - T(w^2 x)`.
pub open spec fn sgate_poly(t: Seq<ScalarField>, s: Seq<ScalarField>, omega: ScalarField) -> Seq<ScalarField> {
    let t_omega = strim(sshift(t, omega));
    let t_omega2 = strim(sshift(t, omega.smul(omega)));
    let one_minus_s = strim(ssub_coeffs(seq![ScalarField::sone()], s));
    let g1 = strim(sprod(s, strim(sadd_coeffs(t, t_omega))));
    let g2 = strim(sadd_coeffs(g1, strim(sprod(one_minus_s, strim(sprod(t, t_omega))))));
    strim(sadd_coeffs(g2, strim(ssub_coeffs(seq![], t_omega2))))
}

/// `s * (t_r + t_wr) + (1 - s) * t_r * t_wr - t_w2r`: the constraint polynomial at `r`, from the
/// selector's value and the openings of `T`.
pub open spec fn sgate_eval(s: ScalarField, t_r: ScalarField, t_wr: ScalarField, t_w2r: ScalarField) -> ScalarField {
    s.smul(t_r.sadd(t_wr)).sadd(ScalarField::sone().ssub(s).smul(t_r).smul(t_wr)).ssub(t_w2r)
}

/// `prod_{j < k} (r - domain[j])`.
pub open spec fn sdiff_prod(r: ScalarField, domain: Seq<ScalarField>, k: nat) -> ScalarField
    decreases k,
{
    if k == 0 {
        ScalarField::sone()
    } else {
        sdiff_prod(r, domain, (k - 1) as nat).smul(r.ssub(domain[k - 1]))
    }
}

proof fn lemma_gate_lens(t: Seq<ScalarField>, s: Seq<ScalarField>, omega: ScalarField)
    ensures
        strim(sshift(t, omega)).len() <= t.len(),
        strim(sshift(t, omega.smul(omega))).len() <= t.len(),
        strim(ssub_coeffs(seq![ScalarField::sone()], s)).len() <= s.len() + 1,
        strim(sadd_coeffs(t, strim(sshift(t, omega)))).len() <= t.len(),
        strim(sprod(t, strim(sshift(t, omega)))).len() <= 2 * t.len(),
        sgate_poly(t, s, omega).len() <= s.len() + 2 * t.len() + 1,
{
    let t_omega = strim(sshift(t, omega));
    let t_omega2 = strim(sshift(t, omega.smul(omega)));
    lemma_strim(sshift(t, omega));
    lemma_strim(sshift(t, omega.smul(omega)));
    let one_minus_s = strim(ssub_coeffs(seq![ScalarField::sone()], s));
    lemma_strim(ssub_coeffs(seq![ScalarField::sone()], s));
    lemma_strim(sadd_coeffs(t, t_omega));
    let a1 = strim(sadd_coeffs(t, t_omega));
    lemma_sprod_len(s, a1);
    let g1 = strim(sprod(s, a1));
    lemma_sprod_len(t, t_omega);
    let tt = strim(sprod(t, t_omega));
    lemma_sprod_len(one_minus_s, tt);
    lemma_strim(sadd_coeffs(g1, strim(sprod(one_minus_s, tt))));
    let g2 = strim(sadd_coeffs(g1, strim(sprod(one_minus_s, tt))));
    lemma_strim(ssub_coeffs(seq![], t_omega2));
    lemma_strim(sadd_coeffs(g2, strim(ssub_coeffs(seq![], t_omega2))));
}

/// The constraint polynomial at `x` is the constraint on the values of `S` and `T` there:
/// `G(x) == S(x) (T(x) + T(w x)) + (1 - S(x)) T(x) T(w x) - T(w^2 x)`.
pub proof fn lemma_gate_poly_eval(t: Seq<ScalarField>, s: Seq<ScalarField>, omega: ScalarField, x: ScalarField)
    ensures
        seval(sgate_poly(t, s, omega), x) == sgate_eval(
            seval(s, x),
            seval(t, x),
            seval(t, omega.smul(x)),
            seval(t, omega.smul(omega).smul(x)),
        ),
{
    let one = seq![ScalarField::sone()];
    let t_omega = strim(sshift(t, omega));
    let t_omega2 = strim(sshift(t, omega.smul(omega)));
    let one_minus_s = strim(ssub_coeffs(one, s));
    let a1 = strim(sadd_coeffs(t, t_omega));
    let g1 = strim(sprod(s, a1));
    let tt = strim(sprod(t, t_omega));
    let g1b = strim(sprod(one_minus_s, tt));
    let g2 = strim(sadd_coeffs(g1, g1b));
    let neg = strim(ssub_coeffs(seq![], t_omega2));
    lemma_seval_strim(sshift(t, omega), x);
    lemma_eval_shift(t, omega, x);
    lemma_seval_strim(sshift(t, omega.smul(omega)), x);
    lemma_eval_shift(t, omega.smul(omega), x);
    vstd::arithmetic::div_mod::lemma_small_mod(1, 17);
    lemma_eval_constant(ScalarField::sone(), x);
    lemma_eval_sub(one, s, x);
    lemma_eval_add(t, t_omega, x);
    lemma_eval_mul(s, a1, x);
    lemma_eval_mul(t, t_omega, x);
    lemma_eval_mul(one_minus_s, tt, x);
    lemma_eval_add(g1, g1b, x);
    lemma_eval_sub(seq![], t_omega2, x);
    lemma_eval_add(g2, neg, x);
    let (sx, tx, twx) = (seval(s, x), seval(t, x), seval(t, omega.smul(x)));
    ScalarField::lemma_mul_assoc_sub(ScalarField::sone().ssub(sx), tx, twx);
    ScalarField::lemma_mul_assoc_sub(seval(g2, x), seval(t, omega.smul(omega).smul(x)), tx);
}

/// `S * (T + T(w x)) + (1 - S) * T * T(w x) - T(w^2 x)`, built by formula.
fn gate_polynomial(t_poly: &DensePolynomial, s_poly: &DensePolynomial, omega: ScalarField) -> (r:
    DensePolynomial)
    requires
        s_poly@.len() + 2 * t_poly@.len() + 4 <= usize::MAX,
    ensures
        r@ == sgate_poly(t_poly@, s_poly@, omega),
{
    proof {
        lemma_gate_lens(t_poly@, s_poly@, omega);
    }
    let t_omega = shift_by_omega(t_poly, omega);
    let t_omega2 = shift_by_omega(t_poly, omega.mul(&omega));
    let one = DensePolynomial::from_coefficients_vec(vec![ScalarField::one()]);
    proof {
        assert(ScalarField::sone() != ScalarField::szero()) by {
            assert(ScalarField::sone().val() == 1);
        }
        lemma_strim(seq![ScalarField::sone()]);
    }
    assert(one@ == seq![ScalarField::sone()]);
    let one_minus_s = one.sub(s_poly);
    assert(one_minus_s@ == strim(ssub_coeffs(seq![ScalarField::sone()], s_poly@)));
    let mut gate_poly = s_poly.naive_mul(&t_poly.add(&t_omega));
    let tt = t_poly.naive_mul(&t_omega);
    assert(one_minus_s@.len() <= s_poly@.len() + 1);
    assert(tt@.len() <= 2 * t_poly@.len());
    gate_poly = gate_poly.add(&one_minus_s.naive_mul(&tt));
    let neg = t_omega2.neg();
    assert(neg@ == strim(ssub_coeffs(seq![], strim(sshift(t_poly@, omega.smul(omega))))));
    gate_poly = gate_poly.add(&neg);
    gate_poly
}

/// The vanishing polynomial `prod_{a in domain} (x - a)`, by coefficient products.
fn vanishing_poly(domain: &[ScalarField]) -> (r: DensePolynomial)
    requires
        domain.len() + 3 <= usize::MAX,
    ensures
        r@ == svanishing(domain@),
{
    let mut coeffs: Vec<ScalarField> = Vec::new();
    coeffs.push(ScalarField::one());
    proof {
        assert(coeffs@ =~= svanishing_steps(domain@, 0));
    }
    let mut i: usize = 0;
    while i < domain.len()
        invariant
            i <= domain.len(),
            domain.len() + 3 <= usize::MAX,
            coeffs@ == svanishing_steps(domain@, i as nat),
        decreases domain.len() - i,
    {
        let x = domain[i];
        let mut factor: Vec<ScalarField> = Vec::new();
        factor.push(x.neg());
        factor.push(ScalarField::one());
        proof {
            lemma_vanishing_monic(domain@, i as nat);
            assert(ScalarField::sone() != ScalarField::szero()) by {
                assert(ScalarField::sone().val() == 1);
            }
            lemma_strim(factor@);
            assert(factor@ =~= seq![domain@[i as int].sneg(), ScalarField::sone()]);
        }
        coeffs = poly_mul_coeffs(coeffs.as_slice(), factor.as_slice());
        i = i + 1;
    }
    proof {
        lemma_vanishing_monic(domain@, domain@.len());
        lemma_strim(coeffs@);
    }
    DensePolynomial::from_coefficients_vec(coeffs)
}

/// `RngCore::next_u64` on a fresh `ark_std::test_rng()`: a fixed-seed generator, or the
/// thread's generator when `ark_std` is built with `getrandom` and `DETERMINISTIC_TEST_RNG`
/// is not set.  The value depends on the build and the environment, so nothing is stated of
/// it.
#[verifier::external_body]
fn draw_random_u64() -> u64 {
    let mut rng = ark_std::test_rng();
    rng.next_u64()
}

/// Whether `x` occurs in `v`.
fn contains(v: &Vec<ScalarField>, x: ScalarField) -> (r: bool)
    ensures
        r == v@.contains(x),
{
    let mut i: usize = 0;
    while i < v.len()
        invariant
            i <= v.len(),
            forall|j: int| 0 <= j < i ==> v@[j] != x,
        decreases v.len() - i,
    {
        if v[i] == x {
            assert(v@[i as int] == x);
            return true;
        }
        i = i + 1;
    }
    false
}

impl Plonk<ScalarField, KZG10> {
    /// `Omega`: the powers of `omega`, one per witness value.
    pub open spec fn t_domain(self) -> Seq<ScalarField> {
        smult_domain(self.witness@.len(), self.omega)
    }

    /// `Omega_gates`: the powers of `omega^3`, one per gate.
    pub open spec fn gate_domain(self) -> Seq<ScalarField> {
        smult_domain(self.selector@.len(), self.omega.smul(self.omega).smul(self.omega))
    }

    /// `T(x)`: the witness interpolated over `Omega`.
    pub open spec fn st(self) -> Seq<ScalarField> {
        sinterpolate(self.t_domain(), self.witness@)
    }

    /// `S(x)`: the selector interpolated over `Omega_gates`.
    pub open spec fn ss(self) -> Seq<ScalarField> {
        sinterpolate(self.gate_domain(), self.selector@)
    }

    /// The quotient `G(x) / Z_gates(x)` of the constraint polynomial.
    pub open spec fn sq(self) -> Seq<ScalarField> {
        sdivide(sgate_poly(self.st(), self.ss(), self.omega), svanishing(self.gate_domain())).0
    }

    /// The witness values read through the permutation: `T(W(y))` on `Omega`.
    pub open spec fn tw_evals(self) -> Seq<ScalarField> {
        Seq::new(self.witness@.len(), |i: int| self.witness@[self.perm@[i] as int])
    }

    /// `W(y)` on `Omega`.
    pub open spec fn w_values(self) -> Seq<ScalarField> {
        Seq::new(self.perm@.len(), |i: int| self.t_domain()[self.perm@[i] as int])
    }

    /// The proof that `prove` builds.
    pub open spec fn sprove(self, r: ScalarField, beta: ScalarField, gamma: ScalarField) -> PlonkKZG10Proof {
        let srs = self.pcs.srs;
        let powers = srs.g1_powers@;
        let t = self.st();
        let q = self.sq();
        let omega_r = r.smul(self.omega);
        let omega2_r = r.smul(self.omega).smul(self.omega);
        PlonkKZG10Proof {
            gate_proof: GateCheckProof {
                q_commit: scommit(powers, q),
                r,
                q_eval_r: seval(q, r),
                q_proof_r: sopen_proof(powers, q, r),
            },
            wire_proof: PrescribedPermutationCheck::sprove(
                srs,
                t,
                sinterpolate(self.t_domain(), self.tw_evals()),
                self.t_domain(),
                self.w_values(),
                beta,
                gamma,
                r,
            ),
            t_eval_wr: seval(t, omega_r),
            t_proof_wr: sopen_proof(powers, t, omega_r),
            t_eval_w2r: seval(t, omega2_r),
            t_proof_w2r: sopen_proof(powers, t, omega2_r),
        }
    }

    /// The inputs on which `prove` runs: one permutation entry per witness value, each a
    /// valid index; distinct points in both domains; an SRS long enough for `T` and the
    /// constraint quotient; a permutation check that runs; and lengths that fit in memory.
    pub open spec fn prove_defined(self, beta: ScalarField, gamma: ScalarField) -> bool {
        let n = self.witness@.len();
        let powers = self.pcs.srs.g1_powers@;
        &&& self.perm@.len() == n
        &&& forall|i: int| 0 <= i < n ==> #[trigger] self.perm@[i] < n
        &&& distinct(self.t_domain())
        &&& distinct(self.gate_domain())
        &&& self.selector@.len() + 4 * n + 8 <= usize::MAX
        &&& self.st().len() <= powers.len() + 1
        &&& self.sq().len() <= powers.len()
        &&& PrescribedPermutationCheck::prove_defined(
            self.pcs.srs,
            self.st(),
            sinterpolate(self.t_domain(), self.tw_evals()),
            self.t_domain(),
            self.w_values(),
            beta,
            gamma,
        )
    }

    /// The plonk instance with the reference string of trapdoor `tau`.
    pub open spec fn new_state(
        witness: Seq<ScalarField>,
        selector: Seq<ScalarField>,
        perm: Seq<u64>,
        tau: ScalarField,
        srs: SRS,
        omega: ScalarField,
    ) -> bool {
        &&& is_setup_srs(srs, (witness.len() * 3) as nat, tau)
        &&& is_primitive_root(omega, perm.len())
        &&& forall|c: nat|
            c < omega.val() ==> !#[trigger] is_primitive_root(ScalarField::from_int(c as int), perm.len())
    }

    /// A plonk instance whose reference string has trapdoor `tau`.
    pub fn new_with_tau(
        witness: Vec<ScalarField>,
        selector: Vec<ScalarField>,
        perm: Vec<u64>,
        tau: ScalarField,
    ) -> (r: Self)
        requires
            witness.len() >= selector.len() * 3,
            witness.len() == perm.len(),
            witness.len() * 3 < usize::MAX,
            has_primitive_root(perm.len() as nat),
        ensures
            r.witness@ == witness@,
            r.selector@ == selector@,
            r.perm@ == perm@,
            Plonk::new_state(witness@, selector@, perm@, tau, r.pcs.srs, r.omega),
    {
        let pcs = KZG10::setup(witness.len() * 3, tau);
        let omega = find_root_of_unity(perm.len());
        Plonk { witness, selector, perm, pcs, omega }
    }

    /// A plonk instance; the trapdoor `tau` is drawn at random and known to neither the
    /// prover nor the verifier.
    pub fn new(witness: Vec<ScalarField>, selector: Vec<ScalarField>, perm: Vec<u64>) -> (r: Self)
        requires
            witness.len() >= selector.len() * 3,
            witness.len() == perm.len(),
            witness.len() * 3 < usize::MAX,
            has_primitive_root(perm.len() as nat),
        ensures
            r.witness@ == witness@,
            r.selector@ == selector@,
            r.perm@ == perm@,
            exists|tau: ScalarField| Plonk::new_state(witness@, selector@, perm@, tau, r.pcs.srs, r.omega),
    {
        let tau = ScalarField::from_u64(draw_random_u64());
        Plonk::new_with_tau(witness, selector, perm, tau)
    }

    /// Every gate holds: gate `i` relates the witness values `3i`, `3i + 1` and `3i + 2` by
    /// addition (selector one) or multiplication (selector zero).
    pub open spec fn gates_satisfied(self) -> bool {
        forall|i: int|
            0 <= i < self.selector@.len() ==> #[trigger] sgate_eval(
                self.selector@[i],
                self.witness@[3 * i],
                self.witness@[3 * i + 1],
                self.witness@[3 * i + 2],
            ) == ScalarField::szero()
    }

    /// At the point of `Omega_gates` of gate `i`, the constraint polynomial takes that gate's value.
    proof fn lemma_gate_poly_at(self, i: int)
        requires
            self.witness@.len() >= 3 * self.selector@.len(),
            0 <= i < self.selector@.len(),
            distinct(self.t_domain()),
            distinct(self.gate_domain()),
            forall|j: int| 0 <= j < self.witness@.len() ==> #[trigger] self.witness@[j].canon(),
            forall|j: int| 0 <= j < self.selector@.len() ==> #[trigger] self.selector@[j].canon(),
        ensures
            seval(sgate_poly(self.st(), self.ss(), self.omega), self.gate_domain()[i]) == sgate_eval(
                self.selector@[i],
                self.witness@[3 * i],
                self.witness@[3 * i + 1],
                self.witness@[3 * i + 2],
            ),
    {
        let w = self.omega;
        let td = self.t_domain();
        let gd = self.gate_domain();
        let y = gd[i];
        let k = (3 * i) as nat;
        lemma_fpow_cube(w, i as nat);
        assert(y == td[k as int]);
        lemma_fpow_succ(w, k);
        lemma_fpow_succ(w, k + 1);
        ScalarField::lemma_mul_assoc_sub(w, w, y);
        assert(w.smul(y) == td[k as int + 1]);
        assert(w.smul(w).smul(y) == td[k as int + 2]);
        assert forall|j: int| 0 <= j < td.len() implies #[trigger] td[j].canon() by {
        }
        assert forall|j: int| 0 <= j < gd.len() implies #[trigger] gd[j].canon() by {
        }
        lemma_gate_poly_eval(self.st(), self.ss(), w, y);
        lemma_interpolate_eval(gd, self.selector@, i);
        lemma_interpolate_eval(td, self.witness@, k as int);
        lemma_interpolate_eval(td, self.witness@, k as int + 1);
        lemma_interpolate_eval(td, self.witness@, k as int + 2);
    }

    /// `sdiff_prod` is the value of the vanishing polynomial.
    proof fn lemma_diff_prod(r: ScalarField, domain: Seq<ScalarField>, k: nat)
        ensures
            sdiff_prod(r, domain, k) == sroots_prod(domain, k, r),
        decreases k,
    {
        if k > 0 {
            Self::lemma_diff_prod(r, domain, (k - 1) as nat);
        }
    }

    /// With `omega` a primitive `n`-th root of unity, as `new` picks it, `Omega` and
    /// `Omega_gates` are made of distinct points.
    pub proof fn lemma_domains_distinct(self)
        requires
            is_primitive_root(self.omega, self.witness@.len()),
            self.witness@.len() >= 3 * self.selector@.len(),
        ensures
            distinct(self.t_domain()),
            distinct(self.gate_domain()),
    {
        let w = self.omega;
        let n = self.witness@.len();
        crate::pcs_gadgets::lemma_primitive_root_distinct(w, n);
        let gd = self.gate_domain();
        assert forall|i: int, j: int| 0 <= i < j < gd.len() implies #[trigger] gd[i] != #[trigger] gd[j] by {
            lemma_fpow_cube(w, i as nat);
            lemma_fpow_cube(w, j as nat);
            crate::pcs_gadgets::lemma_powers_differ(w, n, (3 * i) as nat, (3 * j) as nat);
        }
    }

    /// The openings of the proof that `prove` builds at `r` give the value of the constraint
    /// polynomial there: `G(r) == S(r) (T(r) + T(w r)) + (1 - S(r)) T(r) T(w r) - T(w^2 r)`
    /// with `T(r)`, `T(w r)` and `T(w^2 r)` the proof's openings.
    pub proof fn lemma_gate_openings(self, r: ScalarField, beta: ScalarField, gamma: ScalarField)
        ensures
            ({
                let p = self.sprove(r, beta, gamma);
                seval(sgate_poly(self.st(), self.ss(), self.omega), r) == sgate_eval(
                    seval(self.ss(), r),
                    p.wire_proof.f_eval_r,
                    p.t_eval_wr,
                    p.t_eval_w2r,
                )
            }),
    {
        let w = self.omega;
        lemma_gate_poly_eval(self.st(), self.ss(), w, r);
        ScalarField::lemma_mul_comm_one(r, w);
        ScalarField::lemma_mul_assoc_sub(w, w, r);
        ScalarField::lemma_mul_assoc_sub(w, r, w);
        ScalarField::lemma_mul_comm_one(w.smul(r), w);
    }

    /// For a circuit whose gates all hold, the honest proof passes the constraint equation at
    /// every challenge `r`: `G(r) == q(r) * Z_gates(r)`, with `G(r)` computed from the openings
    /// of `T` at `r`, `w r` and `w^2 r`.
    pub proof fn lemma_honest_gate_equation(self, r: ScalarField, beta: ScalarField, gamma: ScalarField)
        requires
            self.witness@.len() >= 3 * self.selector@.len(),
            distinct(self.t_domain()),
            distinct(self.gate_domain()),
            forall|j: int| 0 <= j < self.witness@.len() ==> #[trigger] self.witness@[j].canon(),
            forall|j: int| 0 <= j < self.selector@.len() ==> #[trigger] self.selector@[j].canon(),
            self.gates_satisfied(),
        ensures
            ({
                let p = self.sprove(r, beta, gamma);
                let gd = self.gate_domain();
                sgate_eval(seval(self.ss(), r), p.wire_proof.f_eval_r, p.t_eval_wr, p.t_eval_w2r)
                    == p.gate_proof.q_eval_r.smul(sdiff_prod(r, gd, gd.len()))
            }),
    {
        let w = self.omega;
        let gd = self.gate_domain();
        let g = sgate_poly(self.st(), self.ss(), w);
        let zg = svanishing(gd);
        let (q, rem) = sdivide(g, zg);
        assert forall|j: int| 0 <= j < gd.len() implies #[trigger] gd[j].canon() by {
        }
        lemma_vanishing_monic(gd, gd.len());
        vstd::arithmetic::div_mod::lemma_small_mod(0, 17);
        vstd::arithmetic::div_mod::lemma_small_mod(1, 17);
        assert(zg.last().val() % 17 != 0);
        lemma_divide(g, zg, r);
        assert forall|j: int| 0 <= j < gd.len() implies #[trigger] seval(rem, gd[j]) == ScalarField::szero() by {
            let y = gd[j];
            self.lemma_gate_poly_at(j);
            assert(sgate_eval(self.selector@[j], self.witness@[3 * j], self.witness@[3 * j + 1], self.witness@[3 * j + 2])
                == ScalarField::szero());
            lemma_vanishing_zero_iff(gd, y);
            assert(gd.contains(y));
            lemma_divide(g, zg, y);
            let u = seval(q, y);
            assert(u.val() * ScalarField::szero().val() == 0) by (nonlinear_arith)
                requires
                    ScalarField::szero().val() == 0,
            ;
            lemma_seval_canon(rem, y);
            vstd::arithmetic::div_mod::lemma_small_mod(seval(rem, y).val(), 17);
            ScalarField::lemma_val_eq(seval(rem, y), ScalarField::szero());
        }
        lemma_root_count(rem, gd, r);
        let tq = seval(q, r).smul(seval(zg, r));
        vstd::arithmetic::div_mod::lemma_small_mod(tq.val(), 17);
        ScalarField::lemma_val_eq(seval(g, r), tq);
        lemma_vanishing_eval(gd, gd.len(), r);
        Self::lemma_diff_prod(r, gd, gd.len());
        // The openings are at r w and r w w, the constraint polynomial's at w r and w w r.
        lemma_gate_poly_eval(self.st(), self.ss(), w, r);
        ScalarField::lemma_mul_comm_one(r, w);
        ScalarField::lemma_mul_assoc_sub(w, w, r);
        ScalarField::lemma_mul_assoc_sub(w, r, w);
        ScalarField::lemma_mul_comm_one(w.smul(r), w);
    }

    /// Completeness of PLONK: for an instance that `new` builds (its reference string is that
    /// of `setup` for some trapdoor), where the gates all hold, `W` permutes `Omega` and each
    /// witness value equals the one its permutation entry points to, the proof that `prove`
    /// builds at a challenge `r` off `Omega_gates` can be verified (every pairing that
    /// `verify` computes is defined) and passes `verify`.
    pub proof fn lemma_complete(self, r: ScalarField, beta: ScalarField, gamma: ScalarField)
        requires
            exists|tau: ScalarField|
                Plonk::new_state(self.witness@, self.selector@, self.perm@, tau, self.pcs.srs, self.omega),
            self.prove_defined(beta, gamma),
            self.witness@.len() > 0,
            self.witness@.len() >= 3 * self.selector@.len(),
            self.omega.canon(),
            crate::poly::fpow(self.omega, self.witness@.len()) == ScalarField::sone(),
            forall|j: int| 0 <= j < self.witness@.len() ==> #[trigger] self.witness@[j].canon(),
            forall|j: int| 0 <= j < self.selector@.len() ==> #[trigger] self.selector@[j].canon(),
            self.gates_satisfied(),
            self.w_values().to_multiset() == self.t_domain().to_multiset(),
            forall|j: int|
                0 <= j < self.witness@.len() ==> #[trigger] self.witness@[self.perm@[j] as int] == self.witness@[j],
            r.canon(),
            !self.gate_domain().contains(r),
        ensures
            self.verify_defined(self.sprove(r, beta, gamma), r),
            self.sverify(self.sprove(r, beta, gamma), r),
    {
        let tau = choose|tau: ScalarField|
            Plonk::new_state(self.witness@, self.selector@, self.perm@, tau, self.pcs.srs, self.omega);
        lemma_kzg_complete(self.pcs.srs, (self.witness@.len() * 3) as nat, tau);
        self.lemma_complete_given_kzg(r, beta, gamma);
    }

    /// PLONK is complete over every reference string on which honest KZG openings verify.
    pub(crate) proof fn lemma_complete_given_kzg(self, r: ScalarField, beta: ScalarField, gamma: ScalarField)
        requires
            kzg_complete(self.pcs.srs),
            self.prove_defined(beta, gamma),
            self.witness@.len() > 0,
            self.witness@.len() >= 3 * self.selector@.len(),
            self.omega.canon(),
            crate::poly::fpow(self.omega, self.witness@.len()) == ScalarField::sone(),
            forall|j: int| 0 <= j < self.witness@.len() ==> #[trigger] self.witness@[j].canon(),
            forall|j: int| 0 <= j < self.selector@.len() ==> #[trigger] self.selector@[j].canon(),
            self.gates_satisfied(),
            self.w_values().to_multiset() == self.t_domain().to_multiset(),
            forall|j: int|
                0 <= j < self.witness@.len() ==> #[trigger] self.witness@[self.perm@[j] as int] == self.witness@[j],
            r.canon(),
            !self.gate_domain().contains(r),
        ensures
            self.verify_defined(self.sprove(r, beta, gamma), r),
            self.sverify(self.sprove(r, beta, gamma), r),
    {
        let srs = self.pcs.srs;
        let powers = srs.g1_powers@;
        let n = self.witness@.len();
        let w = self.omega;
        let td = self.t_domain();
        let gd = self.gate_domain();
        let t = self.st();
        let g = sinterpolate(td, self.tw_evals());
        self.lemma_honest_gate_equation(r, beta, gamma);
        // the difference product is the vanishing polynomial at r, not zero off the domain
        assert forall|j: int| 0 <= j < gd.len() implies #[trigger] gd[j].canon() by {
        }
        Self::lemma_diff_prod(r, gd, gd.len());
        lemma_vanishing_eval(gd, gd.len(), r);
        lemma_vanishing_zero_iff(gd, r);
        // the copy constraints: T(Omega[i]) == g(W(Omega[i]))
        assert forall|j: int| 0 <= j < td.len() implies #[trigger] td[j].canon() by {
        }
        assert forall|j: int| 0 <= j < n implies #[trigger] self.tw_evals()[j].canon() by {
            assert(self.witness@[self.perm@[j] as int].canon());
        }
        assert forall|i: int| 0 <= i < n implies #[trigger] seval(t, smult_domain(n, w)[i]) == seval(
            g,
            self.w_values()[i],
        ) by {
            let k = self.perm@[i] as int;
            lemma_interpolate_eval(td, self.witness@, i);
            lemma_interpolate_eval(td, self.tw_evals(), k);
            assert(self.witness@[self.perm@[k] as int] == self.witness@[k]);
        }
        PrescribedPermutationCheck::lemma_complete_given_kzg(
            srs,
            t,
            g,
            n,
            w,
            self.w_values(),
            beta,
            gamma,
            r,
        );
        let wr = r.smul(w);
        let w2r = r.smul(w).smul(w);
        assert(wr.canon() && w2r.canon());
        assert(skzg_ok(srs, scommit(powers, t), wr, seval(t, wr), sopen_proof(powers, t, wr)));
        assert(skzg_ok(srs, scommit(powers, t), w2r, seval(t, w2r), sopen_proof(powers, t, w2r)));
        let q = self.sq();
        assert(skzg_ok(srs, scommit(powers, q), r, seval(q, r), sopen_proof(powers, q, r)));
        assert(self.verify_domain() == td);
    }

    /// The remainder of the constraint polynomial `G` by the vanishing polynomial of
    /// `Omega_gates`.
    pub open spec fn srem(self) -> Seq<ScalarField> {
        sdivide(sgate_poly(self.st(), self.ss(), self.omega), svanishing(self.gate_domain())).1
    }

    /// The verifier rejects the proof that `prover` builds for the same gates (selector and
    /// `omega`) at every challenge `r` where the remainder of the prover's constraint
    /// polynomial does not vanish: there its check of the gates fails.  With `prover == self`, a
    /// circuit is rejected wherever its own remainder does not vanish.
    #[verifier::rlimit(40)]
    pub proof fn lemma_rejects_where_remainder_nonzero(
        self,
        prover: Self,
        r: ScalarField,
        beta: ScalarField,
        gamma: ScalarField,
    )
        requires
            prover.selector@ == self.selector@,
            prover.omega == self.omega,
            r.canon(),
            seval(prover.srem(), r) != ScalarField::szero(),
        ensures
            !self.sverify(prover.sprove(r, beta, gamma), r),
    {
        let w = self.omega;
        let gd = self.gate_domain();
        assert(prover.gate_domain() == gd);
        assert(prover.ss() == self.ss());
        let g = sgate_poly(prover.st(), self.ss(), w);
        let zg = svanishing(gd);
        let (q, rem) = sdivide(g, zg);
        lemma_vanishing_monic(gd, gd.len());
        vstd::arithmetic::div_mod::lemma_small_mod(0, 17);
        vstd::arithmetic::div_mod::lemma_small_mod(1, 17);
        assert(zg.last().val() % 17 != 0);
        lemma_divide(g, zg, r);
        lemma_vanishing_eval(gd, gd.len(), r);
        Self::lemma_diff_prod(r, gd, gd.len());
        lemma_gate_poly_eval(prover.st(), self.ss(), w, r);
        ScalarField::lemma_mul_comm_one(r, w);
        ScalarField::lemma_mul_assoc_sub(w, w, r);
        ScalarField::lemma_mul_assoc_sub(w, r, w);
        ScalarField::lemma_mul_comm_one(w.smul(r), w);
        let qz = seval(q, r).smul(seval(zg, r));
        let e = seval(rem, r);
        lemma_seval_canon(rem, r);
        if self.sverify(prover.sprove(r, beta, gamma), r) {
            // G(r) == q(r) Z(r) and G(r) == q(r) Z(r) + rem(r), so rem(r) == 0
            assert(seval(g, r) == qz);
            Self::lemma_add_cancel(qz, e);
        }
    }

    /// `x + e == x` only for `e == 0`.
    proof fn lemma_add_cancel(x: ScalarField, e: ScalarField)
        requires
            e.canon(),
            x.sadd(e) == x,
        ensures
            e == ScalarField::szero(),
    {
        let (a, b) = (x.val(), e.val());
        assert((a + b) % 17 == a % 17);
        vstd::arithmetic::div_mod::lemma_small_mod(0, 17);
        vstd::arithmetic::div_mod::lemma_fundamental_div_mod(a as int, 17);
        vstd::arithmetic::div_mod::lemma_fundamental_div_mod((a + b) as int, 17);
        vstd::arithmetic::div_mod::lemma_mod_sub_multiples_vanish(b as int, 17);
        assert(b == 0) by {
            vstd::arithmetic::div_mod::lemma_sub_mod_noop((a + b) as int, a as int, 17);
            vstd::arithmetic::div_mod::lemma_small_mod(b as nat, 17);
        }
        ScalarField::lemma_val_eq(e, ScalarField::szero());
    }

    /// The verifier rejects, at every challenge, a proof that `prover` builds over the same
    /// domain `Omega` when the wiring's ratios
    /// `(T(x) + beta W(x) + gamma) / (T(W(x)) + beta x + gamma)` over `Omega` do not multiply to
    /// one: the permutation check's last running product is their product.
    pub proof fn lemma_rejects_wrong_wiring(
        self,
        prover: Self,
        r: ScalarField,
        beta: ScalarField,
        gamma: ScalarField,
    )
        requires
            prover.witness@.len() == self.perm@.len(),
            prover.witness@.len() > 0,
            prover.omega == self.omega,
            self.omega.canon(),
            distinct(prover.t_domain()),
            prover.w_values().len() == prover.witness@.len(),
            sprefix_prod(
                PrescribedPermutationCheck::sratios(
                    prover.st(),
                    sinterpolate(prover.t_domain(), prover.tw_evals()),
                    prover.t_domain(),
                    prover.w_values(),
                    beta,
                    gamma,
                ),
                (prover.witness@.len() - 1) as nat,
            ) != ScalarField::sone(),
        ensures
            !self.sverify(prover.sprove(r, beta, gamma), r),
    {
        assert(self.verify_domain() == prover.t_domain());
        let p = prover.sprove(r, beta, gamma);
        PrescribedPermutationCheck::lemma_rejects_wrong_product(
            prover.pcs.srs,
            self.pcs.srs,
            prover.st(),
            sinterpolate(prover.t_domain(), prover.tw_evals()),
            prover.witness@.len(),
            self.omega,
            prover.w_values(),
            beta,
            gamma,
            r,
        );
        assert(!PrescribedPermutationCheck::sverify(self.pcs.srs, self.verify_domain(), p.wire_proof));
    }

    /// At the point of `Omega_gates` of gate `i`, the remainder takes that gate's value.
    proof fn lemma_rem_at_gate(self, i: int)
        requires
            self.witness@.len() >= 3 * self.selector@.len(),
            0 <= i < self.selector@.len(),
            distinct(self.t_domain()),
            distinct(self.gate_domain()),
            forall|j: int| 0 <= j < self.witness@.len() ==> #[trigger] self.witness@[j].canon(),
            forall|j: int| 0 <= j < self.selector@.len() ==> #[trigger] self.selector@[j].canon(),
        ensures
            seval(self.srem(), self.gate_domain()[i]) == sgate_eval(
                self.selector@[i],
                self.witness@[3 * i],
                self.witness@[3 * i + 1],
                self.witness@[3 * i + 2],
            ),
    {
        let w = self.omega;
        let gd = self.gate_domain();
        let g = sgate_poly(self.st(), self.ss(), w);
        let zg = svanishing(gd);
        let (q, rem) = sdivide(g, zg);
        let y = gd[i];
        assert forall|j: int| 0 <= j < gd.len() implies #[trigger] gd[j].canon() by {
        }
        self.lemma_gate_poly_at(i);
        lemma_vanishing_monic(gd, gd.len());
        vstd::arithmetic::div_mod::lemma_small_mod(0, 17);
        vstd::arithmetic::div_mod::lemma_small_mod(1, 17);
        assert(zg.last().val() % 17 != 0);
        lemma_divide(g, zg, y);
        lemma_vanishing_zero_iff(gd, y);
        assert(gd.contains(y));
        let u = seval(q, y);
        assert(u.val() * ScalarField::szero().val() == 0) by (nonlinear_arith)
            requires
                ScalarField::szero().val() == 0,
        ;
        lemma_seval_canon(rem, y);
        assert(seval(zg, y) == ScalarField::szero());
        assert(u.smul(seval(zg, y)) == ScalarField::szero());
        ScalarField::lemma_from_val(seval(rem, y));
        assert(ScalarField::szero().sadd(seval(rem, y)) == seval(rem, y));
        assert(self.srem() == rem);
    }

    /// Where exactly one gate does not hold, the remainder vanishes at the other points of
    /// `Omega_gates` and nowhere else: it is not zero at any point off `Omega_gates`.
    pub proof fn lemma_single_failing_gate_remainder(self, i: int, r: ScalarField)
        requires
            self.witness@.len() >= 3 * self.selector@.len(),
            0 <= i < self.selector@.len(),
            distinct(self.t_domain()),
            distinct(self.gate_domain()),
            forall|j: int| 0 <= j < self.witness@.len() ==> #[trigger] self.witness@[j].canon(),
            forall|j: int| 0 <= j < self.selector@.len() ==> #[trigger] self.selector@[j].canon(),
            sgate_eval(self.selector@[i], self.witness@[3 * i], self.witness@[3 * i + 1], self.witness@[3 * i + 2])
                != ScalarField::szero(),
            forall|j: int|
                0 <= j < self.selector@.len() && j != i ==> #[trigger] sgate_eval(
                    self.selector@[j],
                    self.witness@[3 * j],
                    self.witness@[3 * j + 1],
                    self.witness@[3 * j + 2],
                ) == ScalarField::szero(),
            r.canon(),
            !self.gate_domain().contains(r),
        ensures
            seval(self.srem(), r) != ScalarField::szero(),
    {
        let gd = self.gate_domain();
        self.lemma_failing_gate_remainder(i);
        if seval(self.srem(), r) == ScalarField::szero() {
            let pts = gd.remove(i).push(r);
            assert forall|k: int| 0 <= k < pts.len() implies #[trigger] seval(self.srem(), pts[k])
                == ScalarField::szero() by {
                if k < pts.len() - 1 {
                    let j = if k < i { k } else { k + 1 };
                    assert(pts[k] == gd[j]);
                    self.lemma_rem_at_gate(j);
                }
            }
            assert forall|k: int| 0 <= k < pts.len() implies #[trigger] pts[k].canon() by {
            }
            assert forall|a: int, b: int| 0 <= a < b < pts.len() implies pts[a] != pts[b] by {
                if b == pts.len() - 1 {
                    let ja = if a < i { a } else { a + 1 };
                    assert(pts[a] == gd[ja]);
                } else {
                    let ja = if a < i { a } else { a + 1 };
                    let jb = if b < i { b } else { b + 1 };
                    assert(pts[a] == gd[ja] && pts[b] == gd[jb]);
                }
            }
            assert(distinct(pts));
            assert(pts.len() == gd.len());
        }
    }

    /// A proof built by a circuit with the same gates in which exactly one gate does not hold
    /// is rejected at every challenge off `Omega_gates`.
    pub proof fn lemma_rejects_single_failing_gate(
        self,
        prover: Self,
        i: int,
        r: ScalarField,
        beta: ScalarField,
        gamma: ScalarField,
    )
        requires
            prover.selector@ == self.selector@,
            prover.omega == self.omega,
            prover.witness@.len() >= 3 * prover.selector@.len(),
            0 <= i < prover.selector@.len(),
            distinct(prover.t_domain()),
            distinct(prover.gate_domain()),
            forall|j: int| 0 <= j < prover.witness@.len() ==> #[trigger] prover.witness@[j].canon(),
            forall|j: int| 0 <= j < prover.selector@.len() ==> #[trigger] prover.selector@[j].canon(),
            sgate_eval(
                prover.selector@[i],
                prover.witness@[3 * i],
                prover.witness@[3 * i + 1],
                prover.witness@[3 * i + 2],
            ) != ScalarField::szero(),
            forall|j: int|
                0 <= j < prover.selector@.len() && j != i ==> #[trigger] sgate_eval(
                    prover.selector@[j],
                    prover.witness@[3 * j],
                    prover.witness@[3 * j + 1],
                    prover.witness@[3 * j + 2],
                ) == ScalarField::szero(),
            r.canon(),
            !self.gate_domain().contains(r),
        ensures
            !self.sverify(prover.sprove(r, beta, gamma), r),
    {
        assert(prover.gate_domain() == self.gate_domain());
        prover.lemma_single_failing_gate_remainder(i, r);
        self.lemma_rejects_where_remainder_nonzero(prover, r, beta, gamma);
    }

    /// A gate that does not hold leaves a remainder that is not zero at its point of
    /// `Omega_gates`, so that the remainder has fewer roots than there are gates: every list
    /// of distinct roots is shorter than `Omega_gates`.
    pub proof fn lemma_failing_gate_remainder(self, i: int)
        requires
            self.witness@.len() >= 3 * self.selector@.len(),
            0 <= i < self.selector@.len(),
            distinct(self.t_domain()),
            distinct(self.gate_domain()),
            forall|j: int| 0 <= j < self.witness@.len() ==> #[trigger] self.witness@[j].canon(),
            forall|j: int| 0 <= j < self.selector@.len() ==> #[trigger] self.selector@[j].canon(),
            sgate_eval(self.selector@[i], self.witness@[3 * i], self.witness@[3 * i + 1], self.witness@[3 * i + 2])
                != ScalarField::szero(),
        ensures
            seval(self.srem(), self.gate_domain()[i]) != ScalarField::szero(),
            forall|pts: Seq<ScalarField>|
                distinct(pts) && (forall|k: int| 0 <= k < pts.len() ==> #[trigger] pts[k].canon()) && (forall|
                    k: int,
                |
                    0 <= k < pts.len() ==> #[trigger] seval(self.srem(), pts[k]) == ScalarField::szero())
                    ==> pts.len() < self.gate_domain().len(),
    {
        let w = self.omega;
        let gd = self.gate_domain();
        let g = sgate_poly(self.st(), self.ss(), w);
        let zg = svanishing(gd);
        let (q, rem) = sdivide(g, zg);
        let y = gd[i];
        assert forall|j: int| 0 <= j < gd.len() implies #[trigger] gd[j].canon() by {
        }
        self.lemma_gate_poly_at(i);
        lemma_vanishing_monic(gd, gd.len());
        vstd::arithmetic::div_mod::lemma_small_mod(0, 17);
        vstd::arithmetic::div_mod::lemma_small_mod(1, 17);
        assert(zg.last().val() % 17 != 0);
        lemma_divide(g, zg, y);
        lemma_vanishing_zero_iff(gd, y);
        assert(gd.contains(y));
        let u = seval(q, y);
        assert(u.val() * ScalarField::szero().val() == 0) by (nonlinear_arith)
            requires
                ScalarField::szero().val() == 0,
        ;
        lemma_seval_canon(rem, y);
        assert(seval(zg, y) == ScalarField::szero());
        assert(u.smul(seval(zg, y)) == ScalarField::szero());
        ScalarField::lemma_from_val(seval(rem, y));
        assert(ScalarField::szero().sadd(seval(rem, y)) == seval(rem, y));
        assert(seval(g, y) == seval(rem, y));
        assert(self.srem() == rem);
        assert forall|pts: Seq<ScalarField>|
            distinct(pts) && (forall|k: int| 0 <= k < pts.len() ==> #[trigger] pts[k].canon()) && (forall|
                k: int,
            |
                0 <= k < pts.len() ==> #[trigger] seval(self.srem(), pts[k]) == ScalarField::szero())
                implies pts.len() < gd.len() by {
            if pts.len() >= gd.len() {
                lemma_root_count(rem, pts, y);
            }
        }
    }

    /// `Omega` as the verifier builds it: one point per permutation entry.
    pub open spec fn verify_domain(self) -> Seq<ScalarField> {
        smult_domain(self.perm@.len(), self.omega)
    }

    /// The verifier's checks, in order.
    pub open spec fn sverify(self, p: PlonkKZG10Proof, r: ScalarField) -> bool {
        let srs = self.pcs.srs;
        let gd = self.gate_domain();
        let omega = self.omega;
        let z = sdiff_prod(r, gd, gd.len());
        &&& !gd.contains(r)
        &&& p.gate_proof.r == r
        &&& p.wire_proof.product.r == r
        &&& skzg_ok(srs, p.wire_proof.f_commit, r.smul(omega), p.t_eval_wr, p.t_proof_wr)
        &&& skzg_ok(srs, p.wire_proof.f_commit, r.smul(omega).smul(omega), p.t_eval_w2r, p.t_proof_w2r)
        &&& z != ScalarField::szero()
        &&& sgate_eval(seval(self.ss(), r), p.wire_proof.f_eval_r, p.t_eval_wr, p.t_eval_w2r)
            == p.gate_proof.q_eval_r.smul(z)
        &&& skzg_ok(srs, p.gate_proof.q_commit, r, p.gate_proof.q_eval_r, p.gate_proof.q_proof_r)
        &&& PrescribedPermutationCheck::sverify(srs, self.verify_domain(), p.wire_proof)
    }

    /// Each step of `verify` runs where the checks before it pass.
    pub open spec fn verify_defined(self, p: PlonkKZG10Proof, r: ScalarField) -> bool {
        let srs = self.pcs.srs;
        let gd = self.gate_domain();
        let omega = self.omega;
        let z = sdiff_prod(r, gd, gd.len());
        let pre = !gd.contains(r) && p.gate_proof.r == r && p.wire_proof.product.r == r;
        let ok1 = pre && skzg_ok(srs, p.wire_proof.f_commit, r.smul(omega), p.t_eval_wr, p.t_proof_wr);
        let ok2 = ok1 && skzg_ok(
            srs,
            p.wire_proof.f_commit,
            r.smul(omega).smul(omega),
            p.t_eval_w2r,
            p.t_proof_w2r,
        );
        let ok3 = ok2 && z != ScalarField::szero() && sgate_eval(
            seval(self.ss(), r),
            p.wire_proof.f_eval_r,
            p.t_eval_wr,
            p.t_eval_w2r,
        ) == p.gate_proof.q_eval_r.smul(z);
        let ok4 = ok3 && skzg_ok(srs, p.gate_proof.q_commit, r, p.gate_proof.q_eval_r, p.gate_proof.q_proof_r);
        &&& self.selector@.len() + 3 <= usize::MAX
        &&& self.perm@.len() < usize::MAX
        &&& pre ==> sverify_defined(srs, p.wire_proof.f_commit, r.smul(omega), p.t_eval_wr, p.t_proof_wr)
        &&& ok1 ==> sverify_defined(
            srs,
            p.wire_proof.f_commit,
            r.smul(omega).smul(omega),
            p.t_eval_w2r,
            p.t_proof_w2r,
        )
        &&& ok2 ==> distinct(gd)
        &&& ok3 ==> sverify_defined(srs, p.gate_proof.q_commit, r, p.gate_proof.q_eval_r, p.gate_proof.q_proof_r)
        &&& ok4 ==> PrescribedPermutationCheck::verify_defined(srs, self.verify_domain(), p.wire_proof)
    }

    pub fn prove(
        &self,
        r: ScalarField,
        alpha: ScalarField,
        beta: ScalarField,
        gamma: ScalarField,
    ) -> (proof: PlonkKZG10Proof)
        requires
            self.prove_defined(beta, gamma),
        ensures
            proof == self.sprove(r, beta, gamma),
    {
        // Gate constraint over Omega_gates:
        //   S(y) * (T(y) + T(wy)) + (1 - S(y)) * T(y) * T(wy) - T(w^2 y) = 0.
        // Permutation constraint over Omega: T(y) = T(W(y)), by the prescribed permutation
        // check with beta and gamma.
        let _ = alpha;
        let witness = &self.witness;
        let selector = &self.selector;
        let perm = &self.perm;
        let pcs = &self.pcs;
        let omega = self.omega;
        let n = witness.len();
        let t_domain = multiplicative_domain(n, omega);

        // T(x): the witness interpolated over Omega.
        let t_poly = interpolate(t_domain.as_slice(), witness.as_slice());
        proof {
            lemma_interpolate_len(t_domain@, witness@);
        }
        // Open T at wr and w^2 r for the constraint (T(r) comes from the wire proof).
        let omega_r = r.mul(&omega);
        let omega2_r = r.mul(&omega).mul(&omega);
        let (t_eval_wr, t_proof_wr) = pcs.open(&t_poly, omega_r);
        let (t_eval_w2r, t_proof_w2r) = pcs.open(&t_poly, omega2_r);

        // Omega_gates = {1, w^3, w^6, ...}, one point per selector value; the constraint
        // polynomial is built by formula, as its degree can exceed the size of Omega_gates.
        let gate_domain = multiplicative_domain(selector.len(), omega.mul(&omega).mul(&omega));
        let s_poly = interpolate(gate_domain.as_slice(), selector.as_slice());
        proof {
            lemma_interpolate_len(gate_domain@, selector@);
        }
        let gate_poly = gate_polynomial(&t_poly, &s_poly, omega);
        let z_gate = vanishing_poly(gate_domain.as_slice());
        proof {
            lemma_vanishing_monic(gate_domain@, gate_domain@.len());
        }
        let (q, _rem) = gate_poly.divide_with_q_and_r(&z_gate);
        let q_commit = pcs.commit(&q);
        let (q_eval_r, q_proof_r) = pcs.open(&q, r);
        let gate_proof = GateCheckProof { q_commit, r, q_eval_r, q_proof_r };

        // Wires: prescribed permutation check of T against T(W).
        let mut tw_evals: Vec<ScalarField> = Vec::new();
        let mut i: usize = 0;
        while i < n
            invariant
                n == witness.len(),
                n == perm.len(),
                witness@ == self.witness@,
                perm@ == self.perm@,
                forall|j: int| 0 <= j < n ==> #[trigger] perm@[j] < n,
                i <= n,
                tw_evals@ =~= self.tw_evals().subrange(0, i as int),
            decreases n - i,
        {
            let idx = perm[i] as usize;
            tw_evals.push(witness[idx]);
            i = i + 1;
        }
        assert(tw_evals@ =~= self.tw_evals());
        let tw_poly = interpolate(t_domain.as_slice(), tw_evals.as_slice());
        let mut w_values: Vec<ScalarField> = Vec::new();
        let mut i: usize = 0;
        while i < n
            invariant
                n == witness.len(),
                n == perm.len(),
                n == t_domain.len(),
                witness@ == self.witness@,
                perm@ == self.perm@,
                t_domain@ == self.t_domain(),
                forall|j: int| 0 <= j < n ==> #[trigger] perm@[j] < n,
                i <= n,
                w_values@ =~= self.w_values().subrange(0, i as int),
            decreases n - i,
        {
            let idx = perm[i] as usize;
            w_values.push(t_domain[idx]);
            i = i + 1;
        }
        assert(w_values@ =~= self.w_values());
        let wire_proof = PrescribedPermutationCheck::prove(
            pcs,
            &t_poly,
            &tw_poly,
            t_domain.as_slice(),
            w_values.as_slice(),
            beta,
            gamma,
            r,
        );

        PlonkKZG10Proof { gate_proof, wire_proof, t_eval_wr, t_proof_wr, t_eval_w2r, t_proof_w2r }
    }

    pub fn verify(
        &self,
        proof: &PlonkKZG10Proof,
        r: ScalarField,
        alpha: ScalarField,
        beta: ScalarField,
        gamma: ScalarField,
    ) -> (ok: bool)
        requires
            self.verify_defined(*proof, r),
        ensures
            ok == self.sverify(*proof, r),
    {
        // At r: S(r) * (T(r) + T(wr)) + (1 - S(r)) * T(r) * T(wr) - T(w^2 r)
        //   == Q_gate(r) * Z_gates(r), and the prescribed permutation check of T against W.
        let _ = (alpha, beta, gamma);
        let witness_len = self.perm.len();
        let omega = self.omega;
        let t_domain = multiplicative_domain(witness_len, omega);
        let gate_domain = multiplicative_domain(self.selector.len(), omega.mul(&omega).mul(&omega));

        if contains(&gate_domain, r) {
            return false;
        }
        if proof.gate_proof.r != r {
            return false;
        }
        if proof.wire_proof.product.r != r {
            return false;
        }
        let omega_r = r.mul(&omega);
        let omega2_r = r.mul(&omega).mul(&omega);
        // T(r) is provided by the wire proof (f = T in the permutation check).
        let t_eval_r = proof.wire_proof.f_eval_r;
        // T(wr) and T(w^2 r) are checked against the commitment to T in the wire proof.
        if !self.pcs.verify(&proof.wire_proof.f_commit, omega_r, proof.t_eval_wr, &proof.t_proof_wr) {
            return false;
        }
        let t_eval_wr = proof.t_eval_wr;
        if !self.pcs.verify(
            &proof.wire_proof.f_commit,
            omega2_r,
            proof.t_eval_w2r,
            &proof.t_proof_w2r,
        ) {
            return false;
        }
        let t_eval_w2r = proof.t_eval_w2r;
        let s_poly = interpolate(gate_domain.as_slice(), self.selector.as_slice());
        let s_eval = s_poly.evaluate(&r);
        let one = ScalarField::one();
        let gate_eval_r = s_eval.mul(&t_eval_r.add(&t_eval_wr)).add(
            &one.sub(&s_eval).mul(&t_eval_r).mul(&t_eval_wr),
        ).sub(&t_eval_w2r);
        // Z_gates(r): the vanishing polynomial of Omega_gates at r.
        let mut z_gate_eval_r = ScalarField::one();
        let mut k: usize = 0;
        while k < gate_domain.len()
            invariant
                k <= gate_domain.len(),
                z_gate_eval_r == sdiff_prod(r, gate_domain@, k as nat),
            decreases gate_domain.len() - k,
        {
            z_gate_eval_r = z_gate_eval_r.mul(&r.sub(&gate_domain[k]));
            k = k + 1;
        }
        if z_gate_eval_r == ScalarField::zero() {
            return false;
        }
        if gate_eval_r != proof.gate_proof.q_eval_r.mul(&z_gate_eval_r) {
            return false;
        }
        if !self.pcs.verify(
            &proof.gate_proof.q_commit,
            r,
            proof.gate_proof.q_eval_r,
            &proof.gate_proof.q_proof_r,
        ) {
            return false;
        }
        if !PrescribedPermutationCheck::verify(&self.pcs, t_domain.as_slice(), &proof.wire_proof) {
            return false;
        }
        true
    }

}

} // verus!
