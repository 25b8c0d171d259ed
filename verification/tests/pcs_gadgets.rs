use ark_std::rand::RngCore;
use ark_std::test_rng;
use babyplonk::field::ScalarField;
use babyplonk::kzg::{PolyCommit, KZG10};
use babyplonk::pcs_gadgets::{
    interpolate, linear_domain, multiplicative_domain, vanishing_poly, PrescribedPermutationCheck,
    ProductCheck, ZeroTest,
};
use babyplonk::poly::DensePolynomial;

fn rand_fr(rng: &mut impl RngCore) -> ScalarField {
    ScalarField::from(rng.next_u64())
}

#[test]
fn test_zero_test_prove_verify() {
    let kzg = KZG10::setup(8, ScalarField::from(5u64));
    let domain = linear_domain(4, 1);
    let z = vanishing_poly(&domain);
    let q = DensePolynomial::from_coefficients_vec(vec![
        ScalarField::from(2u64),
        ScalarField::from(3u64),
    ]);
    let f = q.naive_mul(&z);
    let mut rng = test_rng();
    let r = rand_fr(&mut rng);
    let proof = ZeroTest::prove(&kzg, &f, &domain, r);
    assert!(ZeroTest::verify(&kzg, &domain, &proof));

    let mut false_proof = proof;
    false_proof.r = ScalarField::from(6u64);
    assert!(!ZeroTest::verify(&kzg, &domain, &false_proof));
}

#[test]
fn test_product_check_prove_verify() {
    let kzg = KZG10::setup(8, ScalarField::from(5u64));
    let omega = ScalarField::from(4u64);
    let domain = multiplicative_domain(4, omega);
    let f_vals = vec![
        ScalarField::from(2u64),
        ScalarField::from(3u64),
        ScalarField::from(5u64),
        ScalarField::from(6u64),
    ];
    let prod = f_vals.iter().cloned().fold(ScalarField::one(), |acc, v| acc.mul(&v));
    let inv_prod = prod.inverse().unwrap();
    let f_vals = vec![f_vals[0], f_vals[1], f_vals[2], f_vals[3].mul(&inv_prod)];
    let f = interpolate(&domain, &f_vals);
    let mut rng = test_rng();
    let r = rand_fr(&mut rng);
    let proof = ProductCheck::prove(&kzg, &f, &domain, r);
    assert!(ProductCheck::verify(&kzg, &domain, &proof));

    let mut false_proof = proof;
    false_proof.last_eval = ScalarField::from(6u64);
    assert!(!ProductCheck::verify(&kzg, &domain, &false_proof));
}

#[test]
fn test_prescribed_permutation_check_prove_verify_success() {
    let kzg = KZG10::setup(8, ScalarField::from(5u64));
    let omega = ScalarField::from(4u64);
    let domain = multiplicative_domain(4, omega);
    let w_values = vec![domain[3], domain[1], domain[2], domain[0]];
    let g_vals = vec![
        ScalarField::from(2u64),
        ScalarField::from(4u64),
        ScalarField::from(7u64),
        ScalarField::from(8u64),
    ];
    let g = interpolate(&domain, &g_vals);
    let mut f_vals = Vec::with_capacity(domain.len());
    for i in 0..domain.len() {
        let wy = w_values[i];
        f_vals.push(g.evaluate(&wy));
    }
    let f = interpolate(&domain, &f_vals);

    let mut rng = test_rng();
    let r = rand_fr(&mut rng);
    let (beta, gamma) = loop {
        let beta = rand_fr(&mut rng);
        let gamma = rand_fr(&mut rng);
        let ok = domain
            .iter()
            .all(|y| !g.evaluate(y).add(&beta.mul(y)).add(&gamma).is_zero());
        if ok {
            break (beta, gamma);
        }
    };
    let proof =
        PrescribedPermutationCheck::prove(&kzg, &f, &g, &domain, &w_values, beta, gamma, r);
    assert!(PrescribedPermutationCheck::verify(&kzg, &domain, &proof));

    let mut false_proof = proof;
    false_proof.product.last_eval = ScalarField::from(6u64);
    assert!(!PrescribedPermutationCheck::verify(&kzg, &domain, &false_proof));
}
