use ark_std::rand::RngCore;
use ark_std::test_rng;
use babyplonk::field::ScalarField;
use babyplonk::pcs_gadgets::{interpolate, multiplicative_domain, shift_by_omega};
use babyplonk::plonk::Plonk;
use babyplonk::poly::DensePolynomial;

fn rand_fr(rng: &mut impl RngCore) -> ScalarField {
    ScalarField::from(rng.next_u64())
}

#[test]
fn test_minimal_plonk_add_mul() {
    // domain size 8 (divides 16), 2 gates -> 6 wire values + 2 padding
    let witness = vec![
        ScalarField::from(2u64),  // a
        ScalarField::from(3u64),  // b
        ScalarField::from(5u64),  // c = a + b
        ScalarField::from(5u64),  // d = c
        ScalarField::from(4u64),  // e
        ScalarField::from(20u64), // f = d * e = 20
        ScalarField::zero(),
        ScalarField::zero(),
    ];
    // selector on gate domain: [1 (add), 0 (mul)]
    let selector = vec![ScalarField::one(), ScalarField::zero()];
    // identity permutation over 8 points, with c and d swapped
    let mut perm: Vec<u64> = (0..witness.len() as u64).collect();
    perm[2] = 3;
    perm[3] = 2;

    let plonk = Plonk::new(witness.clone(), selector.clone(), perm.clone());
    let mut rng = test_rng();
    let t_domain = multiplicative_domain(witness.len(), plonk.omega);
    let gate_domain =
        multiplicative_domain(selector.len(), plonk.omega.mul(&plonk.omega).mul(&plonk.omega));
    let r = loop {
        let candidate = rand_fr(&mut rng);
        if !t_domain.contains(&candidate) && !gate_domain.contains(&candidate) {
            break candidate;
        }
    };
    let (beta, gamma) = loop {
        let beta = rand_fr(&mut rng);
        let gamma = rand_fr(&mut rng);
        let ok = (0..witness.len()).all(|i| {
            let y = t_domain[i];
            let gv = witness[perm[i] as usize];
            !gv.add(&beta.mul(&y)).add(&gamma).is_zero()
        });
        if ok {
            break (beta, gamma);
        }
    };
    let alpha = rand_fr(&mut rng);

    let proof = plonk.prove(r, alpha, beta, gamma);
    assert!(plonk.verify(&proof, r, alpha, beta, gamma));

    // a fake witness for the add gate must fail
    let mut plonk_fake_add_gate_witness = plonk.clone();
    plonk_fake_add_gate_witness.witness[0] = ScalarField::one();
    let proof = plonk_fake_add_gate_witness.prove(r, alpha, beta, gamma);
    assert!(!plonk.verify(&proof, r, alpha, beta, gamma));

    // a fake witness for the mul gate must fail
    let mut plonk_fake_mul_gate_witness = plonk.clone();
    plonk_fake_mul_gate_witness.witness[5] = ScalarField::from(2u64);
    let proof = plonk_fake_mul_gate_witness.prove(r, alpha, beta, gamma);
    assert!(!plonk.verify(&proof, r, alpha, beta, gamma));

    // a fake selector for the add gate must fail
    let mut plonk_fake_add_gate_selector = plonk.clone();
    plonk_fake_add_gate_selector.selector[0] = ScalarField::zero();
    let proof = plonk_fake_add_gate_selector.prove(r, alpha, beta, gamma);
    assert!(!plonk.verify(&proof, r, alpha, beta, gamma));

    // a fake selector for the mul gate must fail
    let mut plonk_fake_add_gate_selector = plonk.clone();
    plonk_fake_add_gate_selector.selector[1] = ScalarField::one();
    let proof = plonk_fake_add_gate_selector.prove(r, alpha, beta, gamma);
    assert!(!plonk.verify(&proof, r, alpha, beta, gamma));

    // a fake permutation must fail
    let mut plonk_fake_perm = plonk.clone();
    plonk_fake_perm.perm[5] = 1;
    let proof = plonk_fake_perm.prove(r, alpha, beta, gamma);
    assert!(!plonk.verify(&proof, r, alpha, beta, gamma));
}

#[test]
fn test_tw_poly_identity_mapping() {
    let witness = vec![
        ScalarField::from(2u64),
        ScalarField::from(20u64),
        ScalarField::from(5u64),
        ScalarField::from(4u64),
        ScalarField::from(5u64),
        ScalarField::from(20u64),
        ScalarField::zero(),
        ScalarField::zero(),
    ];
    let selector = vec![ScalarField::one(), ScalarField::zero()];
    let perm: Vec<u64> = (0..witness.len() as u64).collect();
    let plonk = Plonk::new(witness, selector, perm);

    let omega = plonk.omega;
    let t_domain = multiplicative_domain(plonk.perm.len(), omega);
    let t_poly = interpolate(&t_domain, &plonk.witness);
    let tw_poly = t_poly.clone();
    for y in t_domain.iter() {
        assert_eq!(t_poly.evaluate(y), tw_poly.evaluate(y));
    }
    let mut rng = test_rng();
    let _ = loop {
        let beta = rand_fr(&mut rng);
        let gamma = rand_fr(&mut rng);
        let ok = t_domain
            .iter()
            .all(|y| !tw_poly.evaluate(y).add(&beta.mul(y)).add(&gamma).is_zero());
        if ok {
            break (beta, gamma);
        }
    };
}

#[test]
fn test_gate_eval_openings_match_gate_poly() {
    let witness = vec![
        ScalarField::from(2u64),
        ScalarField::from(3u64),
        ScalarField::from(5u64),
        ScalarField::from(4u64),
        ScalarField::from(5u64),
        ScalarField::from(3u64),
        ScalarField::zero(),
        ScalarField::zero(),
    ];
    let selector = vec![ScalarField::one(), ScalarField::zero()];
    let perm: Vec<u64> = (0..witness.len() as u64).collect();

    let plonk = Plonk::new(witness, selector, perm);
    let mut rng = test_rng();
    let r = rand_fr(&mut rng);
    let omega = plonk.omega;
    let t_domain = multiplicative_domain(plonk.perm.len(), omega);
    let t_poly = interpolate(&t_domain, &plonk.witness);
    let tw_poly = t_poly.clone();
    let (beta, gamma) = loop {
        let beta = rand_fr(&mut rng);
        let gamma = rand_fr(&mut rng);
        let ok = t_domain
            .iter()
            .all(|y| !tw_poly.evaluate(y).add(&beta.mul(y)).add(&gamma).is_zero());
        if ok {
            break (beta, gamma);
        }
    };
    let alpha = rand_fr(&mut rng);
    let proof = plonk.prove(r, alpha, beta, gamma);

    let gate_domain =
        multiplicative_domain(plonk.selector.len(), omega.mul(&omega).mul(&omega));
    let s_poly = interpolate(&gate_domain, &plonk.selector);
    // The constraint polynomial is built by formula, not by interpolating a few samples
    // on Omega_gates, because its degree can exceed the size of that domain.
    let t_w = shift_by_omega(&t_poly, omega);
    let t_w2 = shift_by_omega(&t_poly, omega.mul(&omega));
    let one = DensePolynomial::from_coefficients_vec(vec![ScalarField::one()]);
    let one_minus_s = one.sub(&s_poly);
    let mut gate_poly = s_poly.naive_mul(&t_poly.add(&t_w));
    gate_poly = gate_poly.add(&one_minus_s.naive_mul(&t_poly.naive_mul(&t_w)));
    gate_poly = gate_poly.add(&t_w2.neg());
    let gate_eval_poly = gate_poly.evaluate(&r);
    let gate_eval_open = {
        let s_eval = s_poly.evaluate(&r);
        s_eval
            .mul(&proof.wire_proof.f_eval_r.add(&proof.t_eval_wr))
            .add(&ScalarField::one().sub(&s_eval).mul(&proof.wire_proof.f_eval_r).mul(&proof.t_eval_wr))
            .sub(&proof.t_eval_w2r)
    };
    assert_eq!(gate_eval_poly, gate_eval_open);
}
