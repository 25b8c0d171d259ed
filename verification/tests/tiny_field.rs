use babyplonk::field::{TinyFp, PRIME};
use babyplonk::tiny_field::{Fp2, G1Point, G2Point};

fn fp(v: u64) -> TinyFp {
    TinyFp::from(v)
}

fn fp2(a: u64, b: u64) -> Fp2 {
    Fp2::new(fp(a), fp(b))
}

#[test]
fn test_fp_works() {
    let a = TinyFp::from(100u64);
    let b = TinyFp::from(2u64);
    assert_eq!(a.add(&b), TinyFp::from(102 % PRIME));

    let a = TinyFp::from(100u64);
    let b = TinyFp::from(2u64);
    assert_eq!(a.sub(&b), TinyFp::from(98 % PRIME));

    let a = TinyFp::from(100u64);
    let b = TinyFp::from(2u64);
    assert_eq!(b.sub(&a), TinyFp::from((2 - 100 + PRIME as i64) as u64));

    let a = TinyFp::from(100u64);
    let b = TinyFp::from(2u64);
    assert_eq!(a.mul(&b), TinyFp::from(200 % PRIME));

    let a = TinyFp::from(60u64);
    let b = TinyFp::from(2u64);
    assert_eq!(a.div(&b), TinyFp::from(30 % PRIME));
}

#[test]
fn test_g1_add_double_expected() {
    let g = G1Point::generator();
    let g2 = g.add(&g);
    assert_eq!(g2, G1Point::Affine { x: fp(68), y: fp(74) });

    let g3 = g2.add(&g);
    assert_eq!(g3, G1Point::Affine { x: fp(26), y: fp(45) });

    assert_eq!(g.double(), g2);
}

#[test]
fn test_g1_negate_sub_identity() {
    let g = G1Point::generator();
    assert_eq!(g.add(&G1Point::Infinity), g);
    assert_eq!(G1Point::Infinity.add(&g), g);
    assert_eq!(g.add(&g.negate()), G1Point::Infinity);
    assert_eq!(g.sub(&g), G1Point::Infinity);
}

#[test]
fn test_g1_double_y_zero_is_infinity() {
    let p = G1Point::Affine { x: fp(48), y: fp(0) };
    assert_eq!(p.double(), G1Point::Infinity);
}

#[test]
fn test_g2_generator_on_curve() {
    let g = G2Point::generator();
    assert!(g.is_on_curve());
}

#[test]
fn test_g2_add_double_expected() {
    let g = G2Point::generator();
    let g2 = g.add(&g);
    assert_eq!(g2, G2Point::Affine { x: fp2(38, 33), y: fp2(61, 75) });

    let g3 = g2.add(&g);
    assert_eq!(g3, G2Point::Affine { x: fp2(19, 91), y: fp2(88, 44) });

    assert_eq!(g.double(), g2);
}

#[test]
fn test_g2_negate_sub_identity() {
    let g = G2Point::generator();
    assert_eq!(g.add(&G2Point::Infinity), g);
    assert_eq!(G2Point::Infinity.add(&g), g);
    assert_eq!(g.add(&g.negate()), G2Point::Infinity);
    assert_eq!(g.sub(&g), G2Point::Infinity);
}

#[test]
fn test_g2_scalar_mul_matches_add() {
    let g = G2Point::generator();
    let g2 = g.add(&g);
    let g3 = g2.add(&g);
    assert_eq!(g.scala_mul(fp(2)), g2);
    assert_eq!(g.scala_mul(fp(3)), g3);
}
