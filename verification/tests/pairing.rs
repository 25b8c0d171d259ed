use babyplonk::field::TinyFp;
use babyplonk::pairing::{pairing, GT};
use babyplonk::tiny_field::{G1Point, G2Point};

#[test]
fn test_pairing_bilinear_property() {
    // e(aP, bQ) = e(P, Q)^(ab)
    let g1 = G1Point::generator();
    let g2 = G2Point::generator();
    let a = 2u64;
    let b = 3u64;

    let p = g1.scalar_mul(a);
    let q = g2.scala_mul(TinyFp::from(b));

    let left = pairing(&p, &q);
    let right = pairing(&g1, &g2).pow(a * b);

    assert_eq!(left, right);
}

#[test]
fn test_pairing_multiple_cases() {
    let g1 = G1Point::generator();
    let g2 = G2Point::generator();

    for a in 0u64..5 {
        for b in 0u64..5 {
            // e(aP, bQ) = e(P, Q)^(ab)
            let p = g1.scalar_mul(a);
            let q = g2.scala_mul(TinyFp::from(b));
            let left = pairing(&p, &q);
            let right = pairing(&g1, &g2).pow(a * b);
            assert_eq!(left, right, "a={a}, b={b}");
        }
    }
}

#[test]
fn test_pairing_bilinear_in_each_argument() {
    // e(P1+P2, Q) = e(P1, Q) * e(P2, Q)
    // e(P, Q1+Q2) = e(P, Q1) * e(P, Q2)
    let g1 = G1Point::generator();
    let g2 = G2Point::generator();

    let p1 = g1.scalar_mul(2);
    let p2 = g1.scalar_mul(5);
    let q1 = g2.scala_mul(TinyFp::from(3u64));
    let q2 = g2.scala_mul(TinyFp::from(4u64));

    let left_p = pairing(&p1.add(&p2), &q1);
    let right_p = pairing(&p1, &q1).mul(&pairing(&p2, &q1));
    assert_eq!(left_p, right_p);

    let left_q = pairing(&p1, &q1.add(&q2));
    let right_q = pairing(&p1, &q1).mul(&pairing(&p1, &q2));
    assert_eq!(left_q, right_q);
}

#[test]
fn test_pairing_with_infinity() {
    // e(O, Q) = 1 and e(P, O) = 1
    let g1 = G1Point::generator();
    let g2 = G2Point::generator();

    let e1 = pairing(&G1Point::Infinity, &g2);
    let e2 = pairing(&g1, &G2Point::Infinity);
    assert_eq!(e1, GT::one());
    assert_eq!(e2, GT::one());
}
