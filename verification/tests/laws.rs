use babyplonk::field::{ScalarField, TinyFp};
use babyplonk::kzg::{PolyCommit, KZG10};
use babyplonk::pcs_gadgets::{
    interpolate, linear_domain, multiplicative_domain, subgroup_vanishing_poly, vanishing_poly,
    PrescribedPermutationCheck, ProductCheck, ZeroTest,
};
use babyplonk::pairing::{pairing, GT};
use babyplonk::plonk::Plonk;
use babyplonk::poly::DensePolynomial;
use babyplonk::tiny_field::{Fp2, G1Point, G2Point};

fn fr(v: u64) -> ScalarField {
    ScalarField::from(v)
}

fn poly(c: &[u64]) -> DensePolynomial {
    DensePolynomial::from_coefficients_vec(c.iter().map(|v| fr(*v)).collect())
}

fn pow(x: ScalarField, n: u64) -> ScalarField {
    let mut r = ScalarField::one();
    for _ in 0..n {
        r = r.mul(&x);
    }
    r
}

#[test]
fn g1_addition_commutes_and_has_inverses() {
    let g = G1Point::generator();
    let pts = [g, g.double(), g.double().add(&g), G1Point::Affine { x: TinyFp::from(48u64), y: TinyFp::from(0u64) }];
    for a in pts.iter() {
        assert_eq!(a.add(&G1Point::Infinity), *a);
        assert_eq!(G1Point::Infinity.add(a), *a);
        assert_eq!(a.add(&a.negate()), G1Point::Infinity);
        assert_eq!(a.sub(a), G1Point::Infinity);
        assert_eq!(a.add(a), a.double());
        for b in pts.iter() {
            assert_eq!(a.add(b), b.add(a));
        }
    }
}

#[test]
fn g1_small_multiples_are_repeated_additions() {
    let g = G1Point::generator().double();
    assert_eq!(g.scalar_mul(0), G1Point::Infinity);
    assert_eq!(g.scalar_mul(1), g);
    assert_eq!(g.scalar_mul(2), g.add(&g));
    assert_eq!(g.scalar_mul(3), g.add(&g).add(&g));
}

#[test]
fn g2_identity_inverse_and_small_multiples() {
    let g = G2Point::generator();
    let h = g.add(&g);
    for a in [g, h].iter() {
        assert_eq!(a.add(&G2Point::Infinity), *a);
        assert_eq!(G2Point::Infinity.add(a), *a);
        assert_eq!(a.add(&a.negate()), G2Point::Infinity);
        assert_eq!(a.sub(a), G2Point::Infinity);
        assert_eq!(a.add(a), a.double());
    }
    assert_eq!(g.scala_mul(TinyFp::from(0u64)), G2Point::Infinity);
    assert_eq!(g.scala_mul(TinyFp::from(1u64)), g);
    assert_eq!(g.scala_mul(TinyFp::from(2u64)), h);
    assert_eq!(g.scala_mul(TinyFp::from(3u64)), g.add(&h));
    assert_eq!(g.scala_mul(TinyFp::from(3u64)), h.add(&g));
    let k = h.add(&g);
    for a in [g, h, k].iter() {
        for b in [g, h, k].iter() {
            assert_eq!(a.add(b), b.add(a));
        }
    }
}

#[test]
fn fp2_inverse_cancels() {
    for (a, b) in [(1u64, 0u64), (3, 5), (0, 7), (100, 1)] {
        let x = Fp2::new(TinyFp::from(a), TinyFp::from(b));
        let inv = x.inverse().unwrap();
        assert_eq!(x.mul(&inv), Fp2::one());
    }
    // 10^2 == -1, so 10 + i has norm zero and no inverse.
    assert!(Fp2::new(TinyFp::from(10u64), TinyFp::from(1u64)).inverse().is_none());
}

#[test]
fn evaluation_respects_sum_difference_and_product() {
    let a = poly(&[3, 7, 2]);
    let b = poly(&[16, 0, 15, 4]);
    for x in 0..17u64 {
        let x = fr(x);
        let (ea, eb) = (a.evaluate(&x), b.evaluate(&x));
        assert_eq!(a.add(&b).evaluate(&x), ea.add(&eb));
        assert_eq!(a.sub(&b).evaluate(&x), ea.sub(&eb));
        assert_eq!(a.naive_mul(&b).evaluate(&x), ea.mul(&eb));
    }
    // Cancelling leading terms are trimmed away.
    assert_eq!(poly(&[1, 2, 3]).sub(&poly(&[0, 2, 3])).coeffs().len(), 1);
}

#[test]
fn division_reconstructs_the_dividend() {
    let f = poly(&[5, 1, 0, 9, 3, 11]);
    let d = poly(&[2, 13, 6]);
    let (q, r) = f.divide_with_q_and_r(&d);
    assert!(r.coeffs().len() < d.coeffs().len());
    for x in 0..17u64 {
        let x = fr(x);
        assert_eq!(f.evaluate(&x), q.evaluate(&x).mul(&d.evaluate(&x)).add(&r.evaluate(&x)));
    }
}

#[test]
fn kzg_opening_quotient_is_the_difference_quotient() {
    let f = poly(&[3, 7, 2, 9]);
    let z = fr(11);
    let divisor = poly(&[z.neg().value(), 1]);
    let (q, _) = f.divide_with_q_and_r(&divisor);
    let fz = f.evaluate(&z);
    for x in 0..17u64 {
        let x = fr(x);
        assert_eq!(f.evaluate(&x), q.evaluate(&x).mul(&x.sub(&z)).add(&fz));
    }
    // The opening of KZG10 commits to that quotient.
    let kzg = KZG10::setup(8, fr(5));
    let (value, proof) = kzg.open(&f, z);
    assert_eq!(value, fz);
    assert_eq!(proof, kzg.commit(&q));
}

#[test]
fn vanishing_polynomial_is_zero_exactly_on_its_domain() {
    let domain = linear_domain(9, 2);
    let z = vanishing_poly(&domain);
    for x in 0..17u64 {
        let x = fr(x);
        assert_eq!(z.evaluate(&x).is_zero(), domain.contains(&x));
    }
}

#[test]
fn subgroup_vanishing_polynomial_is_x_pow_n_minus_one() {
    let omega = fr(4);
    let z = subgroup_vanishing_poly(4);
    for x in 0..17u64 {
        let x = fr(x);
        assert_eq!(z.evaluate(&x), pow(x, 4).sub(&ScalarField::one()));
    }
    for y in multiplicative_domain(4, omega).iter() {
        assert!(z.evaluate(y).is_zero());
    }
}

#[test]
fn interpolation_passes_through_its_points() {
    let domain = vec![fr(0), fr(3), fr(5), fr(16), fr(8)];
    let values = vec![fr(4), fr(4), fr(0), fr(12), fr(1)];
    let p = interpolate(&domain, &values);
    for i in 0..domain.len() {
        assert_eq!(p.evaluate(&domain[i]), values[i]);
    }
}

#[test]
fn zero_test_equation_holds_at_every_challenge() {
    let kzg = KZG10::setup(8, fr(5));
    let domain = linear_domain(4, 1);
    let f = poly(&[2, 3]).naive_mul(&vanishing_poly(&domain));
    let z = vanishing_poly(&domain);
    for r in 0..17u64 {
        let p = ZeroTest::prove(&kzg, &f, &domain, fr(r));
        assert_eq!(p.f_eval, p.q_eval.mul(&z.evaluate(&p.r)));
    }
}

#[test]
fn product_check_equations_hold_at_every_challenge() {
    let kzg = KZG10::setup(8, fr(5));
    let omega = fr(4);
    let domain = multiplicative_domain(4, omega);
    // 2 * 3 * 5 * 6^-1 * ... chosen so that the product over the domain is one.
    let vals = vec![fr(2), fr(3), fr(5), fr(2).mul(&fr(3)).mul(&fr(5)).inverse().unwrap()];
    let f = interpolate(&domain, &vals);
    for r in 0..17u64 {
        let p = ProductCheck::prove(&kzg, &f, &domain, fr(r));
        assert_eq!(p.last_eval, ScalarField::one());
        let lhs = p.t_eval_wr.sub(&p.t_eval_r.mul(&p.f_eval_wr));
        let rhs = p.q_eval_r.mul(&pow(p.r, 4).sub(&ScalarField::one()));
        assert_eq!(lhs, rhs);
    }
}

#[test]
fn permutation_check_equations_hold_at_every_challenge() {
    let kzg = KZG10::setup(8, fr(5));
    let omega = fr(4);
    let domain = multiplicative_domain(4, omega);
    let w_values = vec![domain[3], domain[1], domain[2], domain[0]];
    let g = interpolate(&domain, &[fr(2), fr(4), fr(7), fr(8)]);
    let f_vals: Vec<ScalarField> = w_values.iter().map(|w| g.evaluate(w)).collect();
    let f = interpolate(&domain, &f_vals);
    let (beta, gamma) = (0..17u64)
        .flat_map(|b| (0..17u64).map(move |c| (fr(b), fr(c))))
        .find(|(beta, gamma)| domain.iter().all(|y| !g.evaluate(y).add(&beta.mul(y)).add(gamma).is_zero()))
        .unwrap();
    for r in 0..17u64 {
        let p = PrescribedPermutationCheck::prove(&kzg, &f, &g, &domain, &w_values, beta, gamma, fr(r)).product;
        assert_eq!(p.last_eval, ScalarField::one());
        let lhs = p.t_eval_wr.sub(&p.t_eval_r.mul(&p.f_eval_wr));
        let rhs = p.q_eval_r.mul(&pow(p.r, 4).sub(&ScalarField::one()));
        assert_eq!(lhs, rhs);
    }
}

#[test]
fn plonk_gate_equation_holds_at_every_challenge() {
    let witness = vec![fr(2), fr(3), fr(5), fr(5), fr(4), fr(20), fr(0), fr(0)];
    let selector = vec![ScalarField::one(), ScalarField::zero()];
    let mut perm: Vec<u64> = (0..witness.len() as u64).collect();
    perm[2] = 3;
    perm[3] = 2;
    let plonk = Plonk::new_with_tau(witness.clone(), selector.clone(), perm, fr(5));
    let omega = plonk.omega;
    let gate_domain = multiplicative_domain(selector.len(), omega.mul(&omega).mul(&omega));
    let s_poly = interpolate(&gate_domain, &selector);
    let t_domain = multiplicative_domain(witness.len(), omega);
    let (beta, gamma) = (0..17u64)
        .flat_map(|b| (0..17u64).map(move |c| (fr(b), fr(c))))
        .find(|(beta, gamma)| {
            (0..witness.len()).all(|i| {
                !witness[plonk.perm[i] as usize].add(&beta.mul(&t_domain[i])).add(gamma).is_zero()
            })
        })
        .unwrap();
    for r in 0..17u64 {
        let r = fr(r);
        let p = plonk.prove(r, fr(0), beta, gamma);
        let s = s_poly.evaluate(&r);
        let (t_r, t_wr, t_w2r) = (p.wire_proof.f_eval_r, p.t_eval_wr, p.t_eval_w2r);
        let gate = s
            .mul(&t_r.add(&t_wr))
            .add(&ScalarField::one().sub(&s).mul(&t_r).mul(&t_wr))
            .sub(&t_w2r);
        let z = gate_domain.iter().fold(ScalarField::one(), |acc, g| acc.mul(&r.sub(g)));
        assert_eq!(gate, p.gate_proof.q_eval_r.mul(&z));
    }
}

#[test]
fn field_inverses_exist_exactly_for_nonzero_elements() {
    assert!(TinyFp::from(0u64).inverse().is_none());
    assert!(ScalarField::from(17u64).inverse().is_none());
    for v in 1..101u64 {
        let x = TinyFp::from(v);
        assert_eq!(x.mul(&x.inverse().unwrap()), TinyFp::one());
    }
    for v in 1..17u64 {
        let x = ScalarField::from(v);
        assert_eq!(x.mul(&x.inverse().unwrap()), ScalarField::one());
    }
}

#[test]
fn g1_operations_stay_on_the_curve() {
    let g = G1Point::generator();
    let pts: Vec<G1Point> = (0..20u64).map(|k| g.scalar_mul(k)).collect();
    for a in pts.iter() {
        assert!(a.is_on_curve());
        assert!(a.double().is_on_curve());
        assert!(a.negate().is_on_curve());
        for b in pts.iter() {
            assert!(a.add(b).is_on_curve());
        }
    }
    // Another point of the curve, outside the generator's group: (48, 0) has order two.
    let t = G1Point::Affine { x: TinyFp::from(48u64), y: TinyFp::from(0u64) };
    assert!(t.is_on_curve());
    assert!(t.add(&g).is_on_curve());
}

#[test]
fn gt_pow_laws_hold_for_a_pairing_value() {
    let x = pairing(&G1Point::generator(), &G2Point::generator());
    assert_eq!(x.pow(0), GT::one());
    assert_eq!(x.pow(1), x);
    assert_eq!(x.pow(7), x.pow(3).mul(&x.pow(4)));
    assert_eq!(x.pow(12), x.pow(3).pow(4));
    assert_eq!(x.pow(17), GT::one());
    assert_ne!(x, GT::one());
}

#[test]
fn g2_multiples_below_the_order_are_defined() {
    let h = G2Point::generator();
    let mut acc = G2Point::Infinity;
    for t in 0..17u64 {
        let m = h.scalar_mul_fr(ScalarField::from(t));
        if t <= 2 {
            assert_eq!(m, acc);
        }
        assert!(m.is_on_curve());
        acc = acc.add(&h);
    }
    assert_eq!(h.scalar_mul_fr(fr(16)), G2Point::Affine {
        x: Fp2::new(TinyFp::from(93u64), TinyFp::from(48u64)),
        y: Fp2::new(TinyFp::from(94u64), TinyFp::from(99u64)),
    });
}

#[test]
fn product_check_rejects_values_whose_product_is_not_one() {
    let kzg = KZG10::setup(8, fr(5));
    let omega = fr(4);
    let domain = multiplicative_domain(4, omega);
    // 2 * 3 * 5 * 6 = 180 = 10 (mod 17)
    let f = interpolate(&domain, &[fr(2), fr(3), fr(5), fr(6)]);
    for r in [2u64, 3, 7, 11] {
        let proof = ProductCheck::prove(&kzg, &f, &domain, fr(r));
        assert_eq!(proof.last_eval, fr(10));
        assert!(!ProductCheck::verify(&kzg, &domain, &proof));
    }
}

#[test]
fn pairing_is_bilinear_on_all_scalar_pairs() {
    let g1 = G1Point::generator();
    let g2 = G2Point::generator();
    let e = pairing(&g1, &g2);
    for a in 0..17u64 {
        for b in [0u64, 1, 7, 11, 16] {
            let p = g1.scalar_mul(a);
            let q = g2.scalar_mul_fr(fr(b));
            assert_eq!(pairing(&p, &q), e.pow(a * b), "a = {a}, b = {b}");
        }
    }
}

#[test]
fn pairing_is_additive_in_the_first_argument() {
    let g1 = G1Point::generator();
    let g2 = G2Point::generator();
    for (a, b, c) in [(13u64, 11u64, 9u64), (4, 13, 16), (8, 9, 5)] {
        let q = g2.scalar_mul_fr(fr(c));
        let sum = g1.scalar_mul(a).add(&g1.scalar_mul(b));
        assert_eq!(
            pairing(&sum, &q),
            pairing(&g1.scalar_mul(a), &q).mul(&pairing(&g1.scalar_mul(b), &q))
        );
    }
}

#[test]
fn kzg_honest_openings_verify_for_every_trapdoor() {
    let polys = [poly(&[3, 7, 2]), poly(&[0, 0, 0, 16]), poly(&[5]), poly(&[1, 2, 3, 4, 5, 6, 7, 8, 9])];
    for tau in 0..17u64 {
        let kzg = KZG10::setup(8, fr(tau));
        for f in polys.iter() {
            let c = kzg.commit(f);
            for z in [0u64, 1, 5, 11, 16] {
                let (v, pi) = kzg.open(f, fr(z));
                assert_eq!(v, f.evaluate(&fr(z)));
                assert!(kzg.verify(&c, fr(z), v, &pi), "tau = {tau}, z = {z}");
            }
        }
    }
}

#[test]
fn pairing_is_bilinear_for_large_g1_scalars() {
    let g1 = G1Point::generator();
    let g2 = G2Point::generator();
    let e = pairing(&g1, &g2);
    for a in [17u64, 20, 100, 1000, 123456789, u64::MAX] {
        assert_eq!(g1.scalar_mul(a), g1.scalar_mul(a % 17));
        for b in [1u64, 3, 16] {
            let q = g2.scalar_mul_fr(fr(b));
            assert_eq!(pairing(&g1.scalar_mul(a), &q), e.pow((a % 17) * b), "a = {a}, b = {b}");
        }
    }
}

#[test]
fn pairing_is_additive_in_the_second_argument() {
    let g1 = G1Point::generator();
    let g2 = G2Point::generator();
    for (a, b, c) in [(2u64, 3u64, 4u64), (13, 9, 12), (5, 16, 16), (6, 9, 8), (11, 1, 16), (7, 10, 5), (1, 1, 15), (16, 8, 8), (3, 0, 6)] {
        let p = g1.scalar_mul(a);
        let q1 = g2.scalar_mul_fr(fr(b));
        let q2 = g2.scalar_mul_fr(fr(c));
        let sum = q1.add(&q2);
        assert_eq!(pairing(&p, &sum), pairing(&p, &q1).mul(&pairing(&p, &q2)), "a = {a}, b = {b}, c = {c}");
    }
}

#[test]
fn pairing_is_bilinear_for_residues_of_the_base_field() {
    let g1 = G1Point::generator();
    let g2 = G2Point::generator();
    let e = pairing(&g1, &g2);
    for b in 0..101u64 {
        if [34u64, 51, 68, 77, 94, 98].contains(&b) {
            continue;
        }
        let q = g2.scala_mul(TinyFp::from(b));
        for a in [1u64, 2, 5, 16, 40] {
            let p = g1.scalar_mul(a);
            assert_eq!(pairing(&p, &q), e.pow((a % 17) * (b % 17)), "a = {a}, b = {b}");
        }
    }
}

#[test]
fn kzg_rejects_every_wrong_value_for_every_trapdoor() {
    let polys = [poly(&[3, 7, 2]), poly(&[0, 0, 0, 16]), poly(&[1, 2, 3, 4, 5, 6, 7, 8, 9])];
    for tau in [0u64, 1, 5, 11, 16] {
        let kzg = KZG10::setup(8, fr(tau));
        for f in polys.iter() {
            let c = kzg.commit(f);
            for z in [0u64, 5, 16] {
                let (v, pi) = kzg.open(f, fr(z));
                for d in 1..17u64 {
                    let wrong = v.add(&fr(d));
                    assert!(!kzg.verify(&c, fr(z), wrong, &pi), "tau = {tau}, z = {z}, d = {d}");
                }
            }
        }
    }
}
