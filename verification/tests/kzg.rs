use babyplonk::field::ScalarField;
use babyplonk::kzg::{PolyCommit, KZG10};
use babyplonk::poly::DensePolynomial;

#[test]
fn test_kzg10_open_and_verify_success() {
    let tau = ScalarField::from(5u64);
    let kzg = KZG10::setup(8, tau);
    let poly = DensePolynomial::from_coefficients_vec(vec![
        ScalarField::from(3u64),
        ScalarField::from(7u64),
        ScalarField::from(2u64),
    ]);
    let point = ScalarField::from(11u64);

    let commitment = kzg.commit(&poly);
    let (value, proof) = kzg.open(&poly, point);
    assert!(kzg.verify(&commitment, point, value, &proof));
}

#[test]
fn test_kzg10_open_and_verify_failure() {
    let tau = ScalarField::from(5u64);
    let kzg = KZG10::setup(8, tau);
    let poly = DensePolynomial::from_coefficients_vec(vec![
        ScalarField::from(3u64),
        ScalarField::from(7u64),
        ScalarField::from(2u64),
    ]);
    let point = ScalarField::from(11u64);

    let commitment = kzg.commit(&poly);
    let (value, proof) = kzg.open(&poly, point);
    let wrong_value = value.add(&ScalarField::from(10u64));

    assert!(!kzg.verify(&commitment, point, wrong_value, &proof));
}
