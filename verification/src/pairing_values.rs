//! Values of the pairing with the G2 generator, computed point by point: for every scalar
//! `a` below 17, `e(a G, H) == e(G, H)^a`.
use crate::arith::{lemma_inverse_unique, lemma_prime_101};
use crate::field::{TinyFp, PRIME};
use crate::g2_multiples::{g2_pt, lemma_cong};
use crate::pairing::{
    gt_of, lemma_gt_field_mul, lemma_gt_mul_ints, sdistort, sline_eval, smiller_loop, smiller_steps, spairing, bits_lsb,
    final_exponent, distort_point, sproject, DistortedPoint, GtField, GT,
};
use crate::tiny_field::{G1Point, G2Point};
use crate::pairing::pairing_defined;
use vstd::arithmetic::div_mod::*;
use vstd::prelude::*;

verus! {

/// The affine point `(x, y)` of the curve over `TinyFp`.
pub open spec fn g1p(x: int, y: int) -> G1Point {
    G1Point::Affine { x: TinyFp::from_int(x), y: TinyFp::from_int(y) }
}

/// `e(G, H)`, the generator of the target group.
pub open spec fn e_gen() -> GT {
    GT(gt_of(96, 29))
}

/// The pairing of an affine `p` with a point of the curve over `GtField`: the Miller
/// function raised to the final exponent.
pub open spec fn spairing_at(p: G1Point, d: DistortedPoint) -> GT {
    GT(smiller_loop(p, d).unwrap()).spow(final_exponent())
}

/// The point with coordinates `(X w, Y)` of the curve over `GtField`.
pub open spec fn dq(x: int, y: int) -> DistortedPoint {
    DistortedPoint { x: gt_of(0, x), y: gt_of(y, 0) }
}

/// The inverse of the image of `m = 101 q + n` is the image of `k` when `n k == 101 qk + 1`.
proof fn lemma_fp_inv_at(m: int, q: int, n: int, k: int, qk: int)
    requires
        m == (PRIME as int) * q + n,
        0 <= n < PRIME,
        0 <= k < PRIME,
        n * k == (PRIME as int) * qk + 1,
    ensures
        TinyFp::from_int(m).sinv() == TinyFp::from_int(k),
        n != 0,
{
    let p = PRIME as int;
    assert(q * p == p * q) by (nonlinear_arith);
    assert(qk * p == p * qk) by (nonlinear_arith);
    lemma_fundamental_div_mod_converse(m, p, q, n);
    lemma_fundamental_div_mod_converse(n * k, p, qk, 1);
    lemma_prime_101();
    assert(n != 0) by {
        if n == 0 {
            assert(n * k == 0);
        }
    }
    lemma_inverse_unique(n as nat, k as nat, PRIME as nat);
    TinyFp::lemma_from_int_ops(m, 0);
}

/// Integers that differ by a multiple `q` of the modulus have the same image.
pub(crate) proof fn lemma_fp_cong(a: int, b: int, q: int)
    requires
        a - b == (PRIME as int) * q,
    ensures
        TinyFp::from_int(a) == TinyFp::from_int(b),
{
    lemma_cong(a, b, q);
    TinyFp::lemma_from_int_congruent(a, b);
}

/// `gt_of(a0, a1) * gt_of(b0, b1) == gt_of(c0, c1)`, with `q` the quotients of the two
/// congruences.
proof fn lemma_gt_mul_at(a: (int, int), b: (int, int), c: (int, int), q: (int, int))
    requires
        a.0 * b.0 - a.1 * b.1 - c.0 == (PRIME as int) * q.0,
        a.0 * b.1 + a.1 * b.0 - a.1 * b.1 - c.1 == (PRIME as int) * q.1,
    ensures
        gt_of(a.0, a.1).smul(gt_of(b.0, b.1)) == gt_of(c.0, c.1),
        GT(gt_of(a.0, a.1)).smul(GT(gt_of(b.0, b.1))) == GT(gt_of(c.0, c.1)),
{
    lemma_gt_mul_ints(a.0, a.1, b.0, b.1);
    lemma_fp_cong(a.0 * b.0 - a.1 * b.1, c.0, q.0);
    lemma_fp_cong(a.0 * b.1 + a.1 * b.0 - a.1 * b.1, c.1, q.1);
}

/// The difference on images of integer pairs.
proof fn lemma_gt_sub_ints(a: int, b: int, c: int, d: int)
    ensures
        gt_of(a, b).ssub(gt_of(c, d)) == gt_of(a - c, b - d),
{
    TinyFp::lemma_from_int_ops(a, c);
    TinyFp::lemma_from_int_ops(b, d);
}

/// The inverse of `gt_of(a, b)`, whose norm `a^2 - ab + b^2` is `101 q + n` with `n k == 101 qk + 1`,
/// is `gt_of((a - b) k, -b k)`.
proof fn lemma_gt_inverse_at(a: int, b: int, q: int, n: int, k: int, qk: int)
    requires
        a * a - a * b + b * b == (PRIME as int) * q + n,
        0 <= n < PRIME,
        0 <= k < PRIME,
        n * k == (PRIME as int) * qk + 1,
    ensures
        gt_of(a, b).sinverse() == Some(gt_of((a - b) * k, -b * k)),
{
    broadcast use TinyFp::group_tiny_field;

    TinyFp::lemma_from_int_ops(a, a);
    TinyFp::lemma_from_int_ops(a, b);
    TinyFp::lemma_from_int_ops(b, b);
    TinyFp::lemma_from_int_ops(a * a, a * b);
    TinyFp::lemma_from_int_ops(a * a - a * b, b * b);
    let m = a * a - a * b + b * b;
    assert(gt_of(a, b).snorm() == TinyFp::from_int(m));
    lemma_fp_inv_at(m, q, n, k, qk);
    let p = PRIME as int;
    assert(q * p == p * q) by (nonlinear_arith);
    lemma_fundamental_div_mod_converse(m, p, q, n);
    assert(gt_of(a, b).snorm().val() != 0);
    TinyFp::lemma_from_int_ops(a, b);
    TinyFp::lemma_from_int_ops(a - b, k);
    TinyFp::lemma_from_int_ops(b, 0);
    TinyFp::lemma_from_int_ops(-b, k);
}

/// A concrete tangent step of Miller's loop: the tangent at `(x1, y1)`, divided by the
/// vertical line through the double `(x3, y3)`, evaluated at `(X w, Y)`, is `g`.  The slope is
/// `l = 3 x1^2 / (2 y1)` (with `2 y1 = 101 qd + d` and `k` the inverse of `d`); the line
/// at the point is `Y - y1 - l (X w - x1)`, and the vertical `X w - x3` has norm `nv`, with
/// inverse `i`; each step is a congruence with the quotient given beside it.
proof fn lemma_tangent_at(
    pt: (int, int),
    q: (int, int),
    sl: (int, int, int, int, int, int, int, int, int, int),
    ln: (int, int, int, int, int, int, int, int),
    iv: (int, int, int, int, int, int, int, int),
    g: (int, int, int, int),
)
    requires
        0 <= pt.0 < PRIME,
        0 <= pt.1 < PRIME,
        2 * pt.1 == (PRIME as int) * sl.0 + sl.1,
        0 < sl.1 < PRIME,
        0 <= sl.2 < PRIME,
        sl.1 * sl.2 == (PRIME as int) * sl.3 + 1,
        3 * pt.0 * pt.0 * sl.2 - sl.4 == (PRIME as int) * sl.5,
        sl.4 * sl.4 - 2 * pt.0 - sl.6 == (PRIME as int) * sl.7,
        sl.4 * (pt.0 - sl.6) - pt.1 - sl.8 == (PRIME as int) * sl.9,
        sl.4 * (0 - pt.0) - 0 * (q.0 - 0) - ln.0 == (PRIME as int) * ln.1,
        sl.4 * (q.0 - 0) + 0 * (0 - pt.0) - 0 * (q.0 - 0) - ln.2 == (PRIME as int) * ln.3,
        (q.1 - pt.1) - ln.0 - ln.4 == (PRIME as int) * ln.5,
        (0 - 0) - ln.2 - ln.6 == (PRIME as int) * ln.7,
        (0 - sl.6) * (0 - sl.6) - (0 - sl.6) * (q.0 - 0) + (q.0 - 0) * (q.0 - 0) == (PRIME as int) * iv.0 + iv.1,
        0 <= iv.1 < PRIME,
        0 <= iv.2 < PRIME,
        iv.1 * iv.2 == (PRIME as int) * iv.3 + 1,
        ((0 - sl.6) - (q.0 - 0)) * iv.2 - iv.4 == (PRIME as int) * iv.5,
        -(q.0 - 0) * iv.2 - iv.6 == (PRIME as int) * iv.7,
        ln.4 * iv.4 - ln.6 * iv.6 - g.0 == (PRIME as int) * g.1,
        ln.4 * iv.6 + ln.6 * iv.4 - ln.6 * iv.6 - g.2 == (PRIME as int) * g.3,
    ensures
        sline_eval(g1p(pt.0, pt.1), g1p(pt.0, pt.1), dq(q.0, q.1)) == Some(
            (gt_of(g.0, g.2), g1p(sl.6, sl.8)),
        ),
{
    broadcast use TinyFp::group_tiny_field;

    let (x1, y1) = pt;
    let (xx, yy) = q;
    let p = PRIME as int;
    let fy = TinyFp::from_int(y1);
    lemma_small_mod(x1 as nat, PRIME as nat);
    lemma_small_mod(y1 as nat, PRIME as nat);
    TinyFp::lemma_from_int_ops(y1, y1);
    assert(sl.0 * p == p * sl.0) by (nonlinear_arith);
    lemma_fundamental_div_mod_converse(2 * y1, p, sl.0, sl.1);
    assert(fy.sadd(fy).val() != 0);
    // the slope and the double
    TinyFp::lemma_from_int_ops(3, x1);
    TinyFp::lemma_from_int_ops(3 * x1, x1);
    TinyFp::lemma_from_int_ops(2, y1);
    lemma_fp_inv_at(2 * y1, sl.0, sl.1, sl.2, sl.3);
    TinyFp::lemma_from_int_ops(3 * x1 * x1, sl.2);
    lemma_fp_cong(3 * x1 * x1 * sl.2, sl.4, sl.5);
    TinyFp::lemma_from_int_ops(sl.4, sl.4);
    TinyFp::lemma_from_int_ops(2, x1);
    TinyFp::lemma_from_int_ops(sl.4 * sl.4, 2 * x1);
    lemma_fp_cong(sl.4 * sl.4 - 2 * x1, sl.6, sl.7);
    TinyFp::lemma_from_int_ops(x1, sl.6);
    TinyFp::lemma_from_int_ops(sl.4, x1 - sl.6);
    TinyFp::lemma_from_int_ops(sl.4 * (x1 - sl.6), y1);
    lemma_fp_cong(sl.4 * (x1 - sl.6) - y1, sl.8, sl.9);
    // the line through the point, at (X w, Y)
    assert(GtField::sfrom(TinyFp::from_int(y1)) == gt_of(y1, 0));
    assert(GtField::sfrom(TinyFp::from_int(x1)) == gt_of(x1, 0));
    assert(GtField::sfrom(TinyFp::from_int(sl.4)) == gt_of(sl.4, 0));
    assert(GtField::sfrom(TinyFp::from_int(sl.6)) == gt_of(sl.6, 0));
    lemma_gt_sub_ints(yy, 0, y1, 0);
    lemma_gt_sub_ints(0, xx, x1, 0);
    lemma_gt_mul_ints(sl.4, 0, 0 - x1, xx - 0);
    lemma_fp_cong(sl.4 * (0 - x1) - 0 * (xx - 0), ln.0, ln.1);
    lemma_fp_cong(sl.4 * (xx - 0) + 0 * (0 - x1) - 0 * (xx - 0), ln.2, ln.3);
    lemma_gt_sub_ints(yy - y1, 0 - 0, ln.0, ln.2);
    lemma_fp_cong((yy - y1) - ln.0, ln.4, ln.5);
    lemma_fp_cong((0 - 0) - ln.2, ln.6, ln.7);
    // the vertical through the double, inverted
    lemma_gt_sub_ints(0, xx, sl.6, 0);
    lemma_gt_inverse_at(0 - sl.6, xx - 0, iv.0, iv.1, iv.2, iv.3);
    lemma_fp_cong(((0 - sl.6) - (xx - 0)) * iv.2, iv.4, iv.5);
    lemma_fp_cong(-(xx - 0) * iv.2, iv.6, iv.7);
    lemma_gt_mul_at((ln.4, ln.6), (iv.4, iv.6), (g.0, g.2), (g.1, g.3));
}

/// The last step of Miller's loop for the order 17: `16 P == -P`, and the line through them
/// is the vertical `X w - x1`.
proof fn lemma_vertical_at(x1: int, y1: int, y2: int, xx: int, yy: int)
    requires
        0 <= x1 < PRIME,
        0 <= y1 < PRIME,
        0 <= y2 < PRIME,
        y1 + y2 == PRIME,
    ensures
        sline_eval(g1p(x1, y1), g1p(x1, y2), dq(xx, yy)) == Some((gt_of(0 - x1, xx - 0), G1Point::Infinity)),
{
    broadcast use TinyFp::group_tiny_field;

    lemma_small_mod(y1 as nat, PRIME as nat);
    lemma_small_mod(y2 as nat, PRIME as nat);
    TinyFp::lemma_from_int_ops(y1, y2);
    lemma_mod_self_0(PRIME as int);
    assert(GtField::sfrom(TinyFp::from_int(x1)) == gt_of(x1, 0));
    lemma_gt_sub_ints(0, xx, x1, 0);
}

/// One step of Miller's loop on a zero bit: the tangent at `r` gives `g` and `2r`.
proof fn lemma_miller_step_zero(
    p: G1Point,
    q: DistortedPoint,
    f: GtField,
    r: G1Point,
    bits: Seq<u8>,
    i: nat,
    g: GtField,
    r2: G1Point,
)
    requires
        i > 0,
        bits[i - 1] == 0,
        sline_eval(r, r, q) == Some((g, r2)),
    ensures
        smiller_steps(p, q, f, r, bits, i) == smiller_steps(p, q, f.smul(f).smul(g), r2, bits, (i - 1) as nat),
{
}

/// One step of Miller's loop on a one bit: the tangent at `r` gives `g` and `2r`, then the
/// line through `2r` and `p` gives `g2` and `r3`.
proof fn lemma_miller_step_one(
    p: G1Point,
    q: DistortedPoint,
    f: GtField,
    r: G1Point,
    bits: Seq<u8>,
    i: nat,
    g: GtField,
    r2: G1Point,
    g2: GtField,
    r3: G1Point,
)
    requires
        i > 0,
        bits[i - 1] == 1,
        sline_eval(r, r, q) == Some((g, r2)),
        sline_eval(r2, p, q) == Some((g2, r3)),
    ensures
        smiller_steps(p, q, f, r, bits, i) == smiller_steps(
            p,
            q,
            f.smul(f).smul(g).smul(g2),
            r3,
            bits,
            (i - 1) as nat,
        ),
{
}

/// The bits of the order 17, lowest first.
proof fn lemma_bits_17()
    ensures
        bits_lsb(17) == seq![1u8, 0u8, 0u8, 0u8, 1u8],
{
    reveal_with_fuel(bits_lsb, 6);
    assert(bits_lsb(17) =~= seq![1u8, 0u8, 0u8, 0u8, 1u8]);
}

/// Miller's loop for the order 17 (bits `1 0 0 0 1`) from the four tangent steps at `P`,
/// `2P`, `4P`, `8P` and the vertical step at `16P == -P`, with the running value
/// `f <- f^2 g` computed through the products `m` and `n` (each a result and its quotients).
#[verifier::rlimit(60)]
proof fn lemma_miller_at(
    p: G1Point,
    q: DistortedPoint,
    r: (G1Point, G1Point, G1Point, G1Point),
    g1: (int, int),
    g2: (int, int),
    g3: (int, int),
    g4: (int, int),
    g5: (int, int),
    m: ((int, int, int, int), (int, int, int, int), (int, int, int, int), (int, int, int, int)),
    n: ((int, int, int, int), (int, int, int, int), (int, int, int, int)),
)
    requires
        sline_eval(p, p, q) == Some((gt_of(g1.0, g1.1), r.0)),
        sline_eval(r.0, r.0, q) == Some((gt_of(g2.0, g2.1), r.1)),
        sline_eval(r.1, r.1, q) == Some((gt_of(g3.0, g3.1), r.2)),
        sline_eval(r.2, r.2, q) == Some((gt_of(g4.0, g4.1), r.3)),
        sline_eval(r.3, p, q) == Some((gt_of(g5.0, g5.1), G1Point::Infinity)),
        g1.0 * g1.0 - g1.1 * g1.1 - (m.0).0 == (PRIME as int) * (m.0).2,
        g1.0 * g1.1 + g1.1 * g1.0 - g1.1 * g1.1 - (m.0).1 == (PRIME as int) * (m.0).3,
        (m.0).0 * g2.0 - (m.0).1 * g2.1 - (m.1).0 == (PRIME as int) * (m.1).2,
        (m.0).0 * g2.1 + (m.0).1 * g2.0 - (m.0).1 * g2.1 - (m.1).1 == (PRIME as int) * (m.1).3,
        (m.1).0 * (m.1).0 - (m.1).1 * (m.1).1 - (m.2).0 == (PRIME as int) * (m.2).2,
        (m.1).0 * (m.1).1 + (m.1).1 * (m.1).0 - (m.1).1 * (m.1).1 - (m.2).1 == (PRIME as int) * (m.2).3,
        (m.2).0 * g3.0 - (m.2).1 * g3.1 - (m.3).0 == (PRIME as int) * (m.3).2,
        (m.2).0 * g3.1 + (m.2).1 * g3.0 - (m.2).1 * g3.1 - (m.3).1 == (PRIME as int) * (m.3).3,
        (m.3).0 * (m.3).0 - (m.3).1 * (m.3).1 - (n.0).0 == (PRIME as int) * (n.0).2,
        (m.3).0 * (m.3).1 + (m.3).1 * (m.3).0 - (m.3).1 * (m.3).1 - (n.0).1 == (PRIME as int) * (n.0).3,
        (n.0).0 * g4.0 - (n.0).1 * g4.1 - (n.1).0 == (PRIME as int) * (n.1).2,
        (n.0).0 * g4.1 + (n.0).1 * g4.0 - (n.0).1 * g4.1 - (n.1).1 == (PRIME as int) * (n.1).3,
        (n.1).0 * g5.0 - (n.1).1 * g5.1 - (n.2).0 == (PRIME as int) * (n.2).2,
        (n.1).0 * g5.1 + (n.1).1 * g5.0 - (n.1).1 * g5.1 - (n.2).1 == (PRIME as int) * (n.2).3,
    ensures
        smiller_loop(p, q) == Some(gt_of((n.2).0, (n.2).1)),
{
    lemma_bits_17();
    let bits = bits_lsb(17);
    TinyFp::lemma_from_int_val(1);
    TinyFp::lemma_from_int_val(0);
    TinyFp::lemma_from_int_val(g1.0);
    TinyFp::lemma_from_int_val(g1.1);
    let one = GtField::sone();
    let f1 = gt_of(g1.0, g1.1);
    assert(one == gt_of(1, 0));
    lemma_gt_field_mul(one, f1, f1);
    lemma_gt_field_mul(f1, one, one);
    assert(one.smul(one).smul(f1) == f1);
    lemma_gt_mul_at(g1, g1, ((m.0).0, (m.0).1), ((m.0).2, (m.0).3));
    lemma_gt_mul_at(((m.0).0, (m.0).1), g2, ((m.1).0, (m.1).1), ((m.1).2, (m.1).3));
    lemma_gt_mul_at(((m.1).0, (m.1).1), ((m.1).0, (m.1).1), ((m.2).0, (m.2).1), ((m.2).2, (m.2).3));
    lemma_gt_mul_at(((m.2).0, (m.2).1), g3, ((m.3).0, (m.3).1), ((m.3).2, (m.3).3));
    lemma_gt_mul_at(((m.3).0, (m.3).1), ((m.3).0, (m.3).1), ((n.0).0, (n.0).1), ((n.0).2, (n.0).3));
    lemma_gt_mul_at(((n.0).0, (n.0).1), g4, ((n.1).0, (n.1).1), ((n.1).2, (n.1).3));
    lemma_gt_mul_at(((n.1).0, (n.1).1), g5, ((n.2).0, (n.2).1), ((n.2).2, (n.2).3));
    let f2 = gt_of((m.1).0, (m.1).1);
    let f3 = gt_of((m.3).0, (m.3).1);
    assert(smiller_loop(p, q) == smiller_steps(p, q, one, p, bits, 4));
    lemma_miller_step_zero(p, q, one, p, bits, 4, f1, r.0);
    lemma_miller_step_zero(p, q, f1, r.0, bits, 3, gt_of(g2.0, g2.1), r.1);
    lemma_miller_step_zero(p, q, f2, r.1, bits, 2, gt_of(g3.0, g3.1), r.2);
    lemma_miller_step_one(p, q, f3, r.2, bits, 1, gt_of(g4.0, g4.1), r.3, gt_of(g5.0, g5.1), G1Point::Infinity);
    assert(f3.smul(f3).smul(gt_of(g4.0, g4.1)).smul(gt_of(g5.0, g5.1)) == gt_of((n.2).0, (n.2).1));
}

/// A concrete doubling in the curve over `TinyFp`, with the slope witnesses of
/// `lemma_tangent_at`.
proof fn lemma_g1_double_at(pt: (int, int), sl: (int, int, int, int, int, int, int, int, int, int))
    requires
        0 <= pt.0 < PRIME,
        0 <= pt.1 < PRIME,
        2 * pt.1 == (PRIME as int) * sl.0 + sl.1,
        0 < sl.1 < PRIME,
        0 <= sl.2 < PRIME,
        sl.1 * sl.2 == (PRIME as int) * sl.3 + 1,
        3 * pt.0 * pt.0 * sl.2 - sl.4 == (PRIME as int) * sl.5,
        sl.4 * sl.4 - 2 * pt.0 - sl.6 == (PRIME as int) * sl.7,
        sl.4 * (pt.0 - sl.6) - pt.1 - sl.8 == (PRIME as int) * sl.9,
    ensures
        g1p(pt.0, pt.1).sdouble() == g1p(sl.6, sl.8),
{
    broadcast use TinyFp::group_tiny_field;

    let (x1, y1) = pt;
    lemma_small_mod(y1 as nat, PRIME as nat);
    assert(y1 != 0) by {
        if y1 == 0 {
            assert(2 * y1 == 0);
            assert(sl.0 * (PRIME as int) == (PRIME as int) * sl.0) by (nonlinear_arith);
            lemma_fundamental_div_mod_converse(0, PRIME as int, sl.0, sl.1);
            lemma_small_mod(0, PRIME as nat);
        }
    }
    TinyFp::lemma_from_int_ops(3, x1);
    TinyFp::lemma_from_int_ops(3 * x1, x1);
    TinyFp::lemma_from_int_ops(2, y1);
    lemma_fp_inv_at(2 * y1, sl.0, sl.1, sl.2, sl.3);
    TinyFp::lemma_from_int_ops(3 * x1 * x1, sl.2);
    lemma_fp_cong(3 * x1 * x1 * sl.2, sl.4, sl.5);
    TinyFp::lemma_from_int_ops(sl.4, sl.4);
    TinyFp::lemma_from_int_ops(2, x1);
    TinyFp::lemma_from_int_ops(sl.4 * sl.4, 2 * x1);
    lemma_fp_cong(sl.4 * sl.4 - 2 * x1, sl.6, sl.7);
    TinyFp::lemma_from_int_ops(x1, sl.6);
    TinyFp::lemma_from_int_ops(sl.4, x1 - sl.6);
    TinyFp::lemma_from_int_ops(sl.4 * (x1 - sl.6), y1);
    lemma_fp_cong(sl.4 * (x1 - sl.6) - y1, sl.8, sl.9);
}

/// A concrete chord addition in the curve over `TinyFp` of points with distinct `x`: the
/// slope is `l = (y2 - y1) / (x2 - x1)` with `x2 - x1 = 101 qd + d` and `k` the inverse of `d`.
pub(crate) proof fn lemma_g1_add_at(
    p1: (int, int),
    p2: (int, int),
    sl: (int, int, int, int, int, int, int, int, int, int),
)
    requires
        0 <= p1.0 < PRIME,
        0 <= p2.0 < PRIME,
        p1.0 != p2.0,
        p2.0 - p1.0 == (PRIME as int) * sl.0 + sl.1,
        0 < sl.1 < PRIME,
        0 <= sl.2 < PRIME,
        sl.1 * sl.2 == (PRIME as int) * sl.3 + 1,
        (p2.1 - p1.1) * sl.2 - sl.4 == (PRIME as int) * sl.5,
        sl.4 * sl.4 - p1.0 - p2.0 - sl.6 == (PRIME as int) * sl.7,
        sl.4 * (p1.0 - sl.6) - p1.1 - sl.8 == (PRIME as int) * sl.9,
    ensures
        g1p(p1.0, p1.1).sadd(g1p(p2.0, p2.1)) == g1p(sl.6, sl.8),
{
    broadcast use TinyFp::group_tiny_field;

    let (x1, y1) = p1;
    let (x2, y2) = p2;
    lemma_small_mod(x1 as nat, PRIME as nat);
    lemma_small_mod(x2 as nat, PRIME as nat);
    assert(TinyFp::from_int(x1) != TinyFp::from_int(x2)) by {
        if TinyFp::from_int(x1) == TinyFp::from_int(x2) {
            assert(TinyFp::from_int(x1).val() == TinyFp::from_int(x2).val());
        }
    }
    TinyFp::lemma_from_int_ops(y2, y1);
    TinyFp::lemma_from_int_ops(x2, x1);
    lemma_fp_inv_at(x2 - x1, sl.0, sl.1, sl.2, sl.3);
    TinyFp::lemma_from_int_ops(y2 - y1, sl.2);
    lemma_fp_cong((y2 - y1) * sl.2, sl.4, sl.5);
    TinyFp::lemma_from_int_ops(sl.4, sl.4);
    TinyFp::lemma_from_int_ops(sl.4 * sl.4, x1);
    TinyFp::lemma_from_int_ops(sl.4 * sl.4 - x1, x2);
    lemma_fp_cong(sl.4 * sl.4 - x1 - x2, sl.6, sl.7);
    TinyFp::lemma_from_int_ops(x1, sl.6);
    TinyFp::lemma_from_int_ops(sl.4, x1 - sl.6);
    TinyFp::lemma_from_int_ops(sl.4 * (x1 - sl.6), y1);
    lemma_fp_cong(sl.4 * (x1 - sl.6) - y1, sl.8, sl.9);
}

/// The image of the G2 generator `H` under `i -> 10` and the distortion map: `(30 w, 95)`.
proof fn lemma_distorted_generator()
    ensures
        sdistort(G2Point::sgenerator()) == dq(30, 95),
{
    TinyFp::lemma_from_int_ops(3, 10);
    TinyFp::lemma_from_int_ops(0, 30);
    TinyFp::lemma_from_int_ops(49, 10);
    TinyFp::lemma_from_int_ops(9, 490);
    lemma_fp_cong(499, 95, 4);
}

/// The final exponent `(101^2 - 1) / 17`.
proof fn lemma_final_exponent()
    ensures
        final_exponent() == 600,
{
    assert((PRIME * PRIME - 1) / (crate::field::R as int) == 600);
}

/// The image of the point `(x0 + x1 i, y0 + y1 i)` over `Fp2` under `i -> 10` and the
/// distortion map is `(X w, Y)` for `X == x0 + 10 x1` and `Y == y0 + 10 y1`.
pub(crate) proof fn lemma_distort_at(x0: int, x1: int, y0: int, y1: int, xx: int, qx: int, yy: int, qy: int)
    requires
        x0 + x1 * 10 - xx == (PRIME as int) * qx,
        y0 + y1 * 10 - yy == (PRIME as int) * qy,
    ensures
        sproject(g2_pt(x0, x1, y0, y1)) == g1p(xx, yy),
        sdistort(g2_pt(x0, x1, y0, y1)) == dq(xx, yy),
{
    TinyFp::lemma_from_int_ops(x1, 10);
    TinyFp::lemma_from_int_ops(x0, x1 * 10);
    lemma_fp_cong(x0 + x1 * 10, xx, qx);
    TinyFp::lemma_from_int_ops(y1, 10);
    TinyFp::lemma_from_int_ops(y0, y1 * 10);
    lemma_fp_cong(y0 + y1 * 10, yy, qy);
}

/// Powers of an element of order dividing 17 depend on the exponent modulo 17.
pub(crate) proof fn lemma_pow_mod_order(x: GT, n: nat)
    requires
        x.0.canon(),
        x.spow(17) == GT::sone(),
    ensures
        x.spow(n) == x.spow(n % 17),
{
    let q = n / 17;
    let r = n % 17;
    assert(n == 17 * q + r);
    GT::lemma_pow_laws(x, 17 * q, r);
    GT::lemma_pow_laws(x, 17, q);
    GT::lemma_pow_laws(x, 0, q);
    assert(0 * q == 0);
    GT::lemma_pow_canon(x, r);
    lemma_gt_field_mul(x.spow(r).0, x.0, x.0);
}

/// A point plus its opposite is the point at infinity.
proof fn lemma_g1_opposite(x: int, y1: int, y2: int)
    requires
        0 <= y1 < PRIME,
        0 <= y2 < PRIME,
        y1 != y2,
    ensures
        g1p(x, y1).sadd(g1p(x, y2)) == G1Point::Infinity,
{
    broadcast use TinyFp::group_tiny_field;

    lemma_small_mod(y1 as nat, PRIME as nat);
    lemma_small_mod(y2 as nat, PRIME as nat);
    assert(TinyFp::from_int(y1) != TinyFp::from_int(y2)) by {
        if TinyFp::from_int(y1) == TinyFp::from_int(y2) {
            assert(TinyFp::from_int(y1).val() == TinyFp::from_int(y2).val());
        }
    }
}

/// A point with canonical coordinates over `Fp2` is canonical.
proof fn lemma_g2_pt_canon(x0: int, x1: int, y0: int, y1: int)
    ensures
        g2_pt(x0, x1, y0, y1).canon(),
{
    TinyFp::lemma_from_int_val(x0);
    TinyFp::lemma_from_int_val(x1);
    TinyFp::lemma_from_int_val(y0);
    TinyFp::lemma_from_int_val(y1);
}

/// `-(x, y) == (x, 101 - y)` for `0 < y < 101`.
pub(crate) proof fn lemma_g1_neg_at(x: int, y: int)
    requires
        0 < y < PRIME,
    ensures
        g1p(x, y).sneg() == g1p(x, PRIME - y),
{
    lemma_small_mod(y as nat, PRIME as nat);
    TinyFp::lemma_from_int_val(y);
    TinyFp::lemma_from_int_ops(y, 0);
    lemma_fp_cong(-y, PRIME - y, -1);
}

/// The image of `1H` under `i -> 10`, and under the distortion map.
pub(crate) proof fn lemma_distort_1()
    ensures
        sproject(g2_pt(0, 3, 9, 49)) == g1p(30, 95),
        sdistort(g2_pt(0, 3, 9, 49)) == dq(30, 95),
{
    lemma_distort_at(0, 3, 9, 49, 30, 0, 95, 4);
}

/// The image of `2H` under `i -> 10`, and under the distortion map.
pub(crate) proof fn lemma_distort_2()
    ensures
        sproject(g2_pt(38, 33, 61, 75)) == g1p(65, 3),
        sdistort(g2_pt(38, 33, 61, 75)) == dq(65, 3),
{
    lemma_distort_at(38, 33, 61, 75, 65, 3, 3, 8);
}

/// The image of `3H` under `i -> 10`, and under the distortion map.
pub(crate) proof fn lemma_distort_3()
    ensures
        sproject(g2_pt(19, 91, 88, 44)) == g1p(20, 23),
        sdistort(g2_pt(19, 91, 88, 44)) == dq(20, 23),
{
    lemma_distort_at(19, 91, 88, 44, 20, 9, 23, 5);
}

/// The image of `4H` under `i -> 10`, and under the distortion map.
pub(crate) proof fn lemma_distort_4()
    ensures
        sproject(g2_pt(5, 72, 16, 44)) == g1p(18, 52),
        sdistort(g2_pt(5, 72, 16, 44)) == dq(18, 52),
{
    lemma_distort_at(5, 72, 16, 44, 18, 7, 52, 4);
}

/// The image of `5H` under `i -> 10`, and under the distortion map.
pub(crate) proof fn lemma_distort_5()
    ensures
        sproject(g2_pt(69, 33, 71, 86)) == g1p(96, 22),
        sdistort(g2_pt(69, 33, 71, 86)) == dq(96, 22),
{
    lemma_distort_at(69, 33, 71, 86, 96, 3, 22, 9);
}

/// The image of `6H` under `i -> 10`, and under the distortion map.
pub(crate) proof fn lemma_distort_6()
    ensures
        sproject(g2_pt(57, 46, 17, 52)) == g1p(12, 32),
        sdistort(g2_pt(57, 46, 17, 52)) == dq(12, 32),
{
    lemma_distort_at(57, 46, 17, 52, 12, 5, 32, 5);
}

/// The image of `7H` under `i -> 10`, and under the distortion map.
pub(crate) proof fn lemma_distort_7()
    ensures
        sproject(g2_pt(81, 47, 93, 16)) == g1p(46, 51),
        sdistort(g2_pt(81, 47, 93, 16)) == dq(46, 51),
{
    lemma_distort_at(81, 47, 93, 16, 46, 5, 51, 2);
}

/// The image of `8H` under `i -> 10`, and under the distortion map.
pub(crate) proof fn lemma_distort_8()
    ensures
        sproject(g2_pt(18, 69, 94, 11)) == g1p(1, 2),
        sdistort(g2_pt(18, 69, 94, 11)) == dq(1, 2),
{
    lemma_distort_at(18, 69, 94, 11, 1, 7, 2, 2);
}

/// The image of `9H` under `i -> 10`, and under the distortion map.
pub(crate) proof fn lemma_distort_9()
    ensures
        sproject(g2_pt(83, 80, 84, 22)) == g1p(75, 1),
        sdistort(g2_pt(83, 80, 84, 22)) == dq(75, 1),
{
    lemma_distort_at(83, 80, 84, 22, 75, 8, 1, 3);
}

/// The image of `10H` under `i -> 10`, and under the distortion map.
pub(crate) proof fn lemma_distort_10()
    ensures
        sproject(g2_pt(65, 87, 47, 11)) == g1p(26, 56),
        sdistort(g2_pt(65, 87, 47, 11)) == dq(26, 56),
{
    lemma_distort_at(65, 87, 47, 11, 26, 9, 56, 1);
}

/// The image of `11H` under `i -> 10`, and under the distortion map.
pub(crate) proof fn lemma_distort_11()
    ensures
        sproject(g2_pt(61, 30, 84, 76)) == g1p(58, 36),
        sdistort(g2_pt(61, 30, 84, 76)) == dq(58, 36),
{
    lemma_distort_at(61, 30, 84, 76, 58, 3, 36, 8);
}

/// The image of `12H` under `i -> 10`, and under the distortion map.
pub(crate) proof fn lemma_distort_12()
    ensures
        sproject(g2_pt(29, 87, 70, 40)) == g1p(91, 66),
        sdistort(g2_pt(29, 87, 70, 40)) == dq(91, 66),
{
    lemma_distort_at(29, 87, 70, 40, 91, 8, 66, 4);
}

/// The image of `13H` under `i -> 10`, and under the distortion map.
pub(crate) proof fn lemma_distort_13()
    ensures
        sproject(g2_pt(4, 46, 3, 36)) == g1p(60, 60),
        sdistort(g2_pt(4, 46, 3, 36)) == dq(60, 60),
{
    lemma_distort_at(4, 46, 3, 36, 60, 4, 60, 3);
}

/// The image of `14H` under `i -> 10`, and under the distortion map.
pub(crate) proof fn lemma_distort_14()
    ensures
        sproject(g2_pt(42, 100, 84, 16)) == g1p(32, 42),
        sdistort(g2_pt(42, 100, 84, 16)) == dq(32, 42),
{
    lemma_distort_at(42, 100, 84, 16, 32, 10, 42, 2);
}

/// The image of `15H` under `i -> 10`, and under the distortion map.
pub(crate) proof fn lemma_distort_15()
    ensures
        sproject(g2_pt(71, 14, 32, 68)) == g1p(9, 5),
        sdistort(g2_pt(71, 14, 32, 68)) == dq(9, 5),
{
    lemma_distort_at(71, 14, 32, 68, 9, 2, 5, 7);
}

/// The image of `16H` under `i -> 10`, and under the distortion map.
pub(crate) proof fn lemma_distort_16()
    ensures
        sproject(g2_pt(93, 48, 94, 99)) == g1p(68, 74),
        sdistort(g2_pt(93, 48, 94, 99)) == dq(68, 74),
{
    lemma_distort_at(93, 48, 94, 99, 68, 5, 74, 10);
}

/// The multiples `c P` of `P = (30, 95)`, the image of `H` in the curve over `TinyFp`,
/// for `c < 34` (`P` has order 34).
pub open spec fn col_point(c: nat) -> G1Point {
    if c == 0 {
        G1Point::Infinity
    } else if c == 1 {
        g1p(30, 95)
    } else if c == 2 {
        g1p(65, 3)
    } else if c == 3 {
        g1p(20, 23)
    } else if c == 4 {
        g1p(18, 52)
    } else if c == 5 {
        g1p(96, 22)
    } else if c == 6 {
        g1p(12, 32)
    } else if c == 7 {
        g1p(46, 51)
    } else if c == 8 {
        g1p(1, 2)
    } else if c == 9 {
        g1p(75, 1)
    } else if c == 10 {
        g1p(26, 56)
    } else if c == 11 {
        g1p(58, 36)
    } else if c == 12 {
        g1p(91, 66)
    } else if c == 13 {
        g1p(60, 60)
    } else if c == 14 {
        g1p(32, 42)
    } else if c == 15 {
        g1p(9, 5)
    } else if c == 16 {
        g1p(68, 74)
    } else if c == 17 {
        g1p(48, 0)
    } else if c == 18 {
        g1p(68, 27)
    } else if c == 19 {
        g1p(9, 96)
    } else if c == 20 {
        g1p(32, 59)
    } else if c == 21 {
        g1p(60, 41)
    } else if c == 22 {
        g1p(91, 35)
    } else if c == 23 {
        g1p(58, 65)
    } else if c == 24 {
        g1p(26, 45)
    } else if c == 25 {
        g1p(75, 100)
    } else if c == 26 {
        g1p(1, 99)
    } else if c == 27 {
        g1p(46, 50)
    } else if c == 28 {
        g1p(12, 69)
    } else if c == 29 {
        g1p(96, 79)
    } else if c == 30 {
        g1p(18, 49)
    } else if c == 31 {
        g1p(20, 78)
    } else if c == 32 {
        g1p(65, 98)
    } else if c == 33 {
        g1p(30, 6)
    } else {
        G1Point::Infinity
    }
}

proof fn lemma_tangent_1_1()
    ensures
        sline_eval(g1p(1, 2), g1p(1, 2), dq(30, 95)) == Some((gt_of(84, 11), g1p(68, 74))),
{
    lemma_tangent_at((1, 2), (30, 95), (0, 4, 76, 3, 26, 2, 68, 6, 74, -18), (75, -1, 73, 7, 18, 0, 28, -1), (74, 90, 55, 49, 64, -54, 67, -17), (84, -8, 11, 11));
}

proof fn lemma_tangent_2_1()
    ensures
        sline_eval(g1p(68, 74), g1p(68, 74), dq(30, 95)) == Some((gt_of(80, 54), g1p(65, 98))),
{
    lemma_tangent_at((68, 74), (30, 95), (1, 47, 43, 20, 91, 5905, 65, 80, 98, 1), (74, -62, 3, 27, 48, -1, 98, -1), (70, 5, 81, 4, 82, -77, 95, -25), (80, -54, 54, 32));
}

proof fn lemma_tangent_3_1()
    ensures
        sline_eval(g1p(26, 45), g1p(26, 45), dq(30, 95)) == Some((gt_of(54, 24), g1p(32, 42))),
{
    lemma_tangent_at((26, 45), (30, 95), (0, 90, 55, 49, 36, 1104, 32, 12, 42, -3), (74, -10, 70, 10, 77, -1, 31, -1), (28, 56, 92, 51, 53, -57, 68, -28), (54, 19, 24, 47));
}

proof fn lemma_tangent_4_1()
    ensures
        sline_eval(g1p(65, 98), g1p(65, 98), dq(30, 95)) == Some((gt_of(69, 80), g1p(18, 49))),
{
    lemma_tangent_at((65, 98), (30, 95), (1, 95, 84, 79, 59, 10541, 18, 33, 49, 26), (3, -38, 53, 17, 95, -1, 48, -1), (17, 47, 43, 20, 57, -21, 23, -13), (69, 42, 80, 37));
}

proof fn lemma_tangent_5_1()
    ensures
        sline_eval(g1p(12, 32), g1p(12, 32), dq(30, 95)) == Some((gt_of(24, 84), g1p(91, 66))),
{
    lemma_tangent_at((12, 32), (30, 95), (0, 64, 30, 19, 32, 128, 91, 9, 66, -26), (20, -4, 51, 9, 43, 0, 50, -1), (117, 94, 72, 67, 75, -87, 62, -22), (24, 1, 84, 32));
}

proof fn lemma_tangent_6_1()
    ensures
        sline_eval(g1p(32, 42), g1p(32, 42), dq(30, 95)) == Some((gt_of(52, 88), g1p(12, 69))),
{
    lemma_tangent_at((32, 42), (30, 95), (0, 84, 95, 79, 51, 2889, 12, 25, 69, 9), (85, -17, 15, 15, 69, -1, 86, -1), (13, 91, 10, 9, 85, -5, 3, -3), (52, 55, 88, 71));
}

proof fn lemma_tangent_7_1()
    ensures
        sline_eval(g1p(91, 35), g1p(91, 35), dq(30, 95)) == Some((gt_of(98, 28), g1p(26, 56))),
{
    lemma_tangent_at((91, 35), (30, 95), (0, 70, 13, 9, 62, 3197, 26, 36, 56, 39), (14, -56, 42, 18, 46, 0, 59, -1), (23, 33, 49, 16, 84, -28, 45, -15), (98, 11, 28, 43));
}

proof fn lemma_tangent_8_1()
    ensures
        sline_eval(g1p(18, 49), g1p(18, 49), dq(30, 95)) == Some((gt_of(69, 66), g1p(1, 99))),
{
    lemma_tangent_at((18, 49), (30, 95), (0, 98, 67, 65, 80, 644, 1, 63, 99, 12), (75, -15, 77, 23, 72, -1, 24, -1), (9, 22, 23, 5, 95, -8, 17, -7), (69, 63, 66, 30));
}

proof fn lemma_tangent_9_1()
    ensures
        sline_eval(g1p(18, 52), g1p(18, 52), dq(30, 95)) == Some((gt_of(3, 33), g1p(1, 2))),
{
    lemma_tangent_at((18, 52), (30, 95), (1, 3, 34, 1, 21, 327, 1, 4, 2, 3), (26, -4, 24, 6, 17, 0, 77, -1), (9, 22, 23, 5, 95, -8, 17, -7), (3, 3, 33, 62));
}

proof fn lemma_tangent_10_1()
    ensures
        sline_eval(g1p(91, 66), g1p(91, 66), dq(30, 95)) == Some((gt_of(5, 38), g1p(26, 45))),
{
    lemma_tangent_at((91, 66), (30, 95), (1, 31, 88, 27, 39, 21645, 26, 13, 45, 24), (87, -36, 59, 11, 43, -1, 42, -1), (23, 33, 49, 16, 84, -28, 45, -15), (5, 17, 38, 35));
}

proof fn lemma_tangent_11_1()
    ensures
        sline_eval(g1p(32, 59), g1p(32, 59), dq(30, 95)) == Some((gt_of(39, 78), g1p(12, 32))),
{
    lemma_tangent_at((32, 59), (30, 95), (1, 17, 6, 1, 50, 182, 12, 24, 32, 9), (16, -16, 86, 14, 20, 0, 15, -1), (13, 91, 10, 9, 85, -5, 3, -3), (39, 16, 78, 12));
}

proof fn lemma_tangent_12_1()
    ensures
        sline_eval(g1p(12, 69), g1p(12, 69), dq(30, 95)) == Some((gt_of(86, 81), g1p(91, 35))),
{
    lemma_tangent_at((12, 69), (30, 95), (1, 37, 71, 26, 69, 303, 91, 46, 35, -55), (81, -9, 50, 20, 46, -1, 51, -1), (117, 94, 72, 67, 75, -87, 62, -22), (86, 2, 81, 34));
}

proof fn lemma_tangent_13_1()
    ensures
        sline_eval(g1p(65, 3), g1p(65, 3), dq(30, 95)) == Some((gt_of(55, 48), g1p(18, 52))),
{
    lemma_tangent_at((65, 3), (30, 95), (0, 6, 17, 1, 42, 2133, 18, 16, 52, 19), (98, -28, 48, 12, 95, -1, 53, -1), (17, 47, 43, 20, 57, -21, 23, -13), (55, 41, 48, 39));
}

proof fn lemma_tangent_14_1()
    ensures
        sline_eval(g1p(26, 56), g1p(26, 56), dq(30, 95)) == Some((gt_of(17, 69), g1p(32, 59))),
{
    lemma_tangent_at((26, 56), (30, 95), (1, 11, 46, 5, 65, 923, 32, 41, 59, -5), (27, -17, 31, 19, 12, 0, 70, -1), (28, 56, 92, 51, 53, -57, 68, -28), (17, -41, 69, -3));
}

proof fn lemma_tangent_15_1()
    ensures
        sline_eval(g1p(68, 27), g1p(68, 27), dq(30, 95)) == Some((gt_of(47, 18), g1p(65, 3))),
{
    lemma_tangent_at((68, 27), (30, 95), (0, 54, 58, 31, 10, 7966, 65, -1, 3, 0), (27, -7, 98, 2, 41, 0, 3, -1), (70, 5, 81, 4, 82, -77, 95, -25), (47, 30, 18, 38));
}

proof fn lemma_tangent_16_1()
    ensures
        sline_eval(g1p(1, 99), g1p(1, 99), dq(30, 95)) == Some((gt_of(57, 94), g1p(68, 27))),
{
    lemma_tangent_at((1, 99), (30, 95), (1, 97, 25, 24, 75, 0, 68, 55, 27, -51), (26, -1, 28, 22, 71, -1, 73, -1), (74, 90, 55, 49, 64, -54, 67, -17), (57, -4, 94, 44));
}

proof fn lemma_tangent_1_2()
    ensures
        sline_eval(g1p(1, 2), g1p(1, 2), dq(65, 3)) == Some((gt_of(58, 57), g1p(68, 74))),
{
    lemma_tangent_at((1, 2), (65, 3), (0, 4, 76, 3, 26, 2, 68, 6, 74, -18), (75, -1, 74, 16, 27, -1, 27, -1), (131, 38, 8, 3, 47, -11, 86, -6), (58, -11, 57, 12));
}

proof fn lemma_tangent_2_2()
    ensures
        sline_eval(g1p(68, 74), g1p(68, 74), dq(65, 3)) == Some((gt_of(10, 0), g1p(65, 98))),
{
    lemma_tangent_at((68, 74), (65, 3), (1, 47, 43, 20, 91, 5905, 65, 80, 98, 1), (74, -62, 57, 58, 57, -2, 44, -1), (125, 50, 99, 49, 58, -128, 29, -64), (10, 20, 0, 29));
}

proof fn lemma_tangent_3_2()
    ensures
        sline_eval(g1p(26, 45), g1p(26, 45), dq(65, 3)) == Some((gt_of(15, 55), g1p(32, 42))),
{
    lemma_tangent_at((26, 45), (65, 3), (0, 90, 55, 49, 36, 1104, 32, 12, 42, -3), (74, -10, 17, 23, 86, -2, 84, -1), (72, 57, 39, 22, 55, -38, 91, -26), (15, -29, 55, 47));
}

proof fn lemma_tangent_4_2()
    ensures
        sline_eval(g1p(65, 98), g1p(65, 98), dq(65, 3)) == Some((gt_of(28, 73), g1p(18, 49))),
{
    lemma_tangent_at((65, 98), (65, 3), (1, 95, 84, 79, 59, 10541, 18, 33, 49, 26), (3, -38, 98, 37, 3, -1, 3, -1), (56, 63, 93, 58, 58, -77, 15, -60), (28, 1, 73, 1));
}

proof fn lemma_tangent_5_2()
    ensures
        sline_eval(g1p(12, 32), g1p(12, 32), dq(65, 3)) == Some((gt_of(96, 87), g1p(91, 66))),
{
    lemma_tangent_at((12, 32), (65, 3), (0, 64, 30, 19, 32, 128, 91, 9, 66, -26), (20, -4, 60, 20, 52, -1, 41, -1), (182, 39, 57, 22, 97, -89, 32, -37), (96, 36, 87, 42));
}

proof fn lemma_tangent_6_2()
    ensures
        sline_eval(g1p(32, 42), g1p(32, 42), dq(65, 3)) == Some((gt_of(95, 17), g1p(12, 69))),
{
    lemma_tangent_at((32, 42), (65, 3), (0, 84, 95, 79, 51, 2889, 12, 25, 69, 9), (85, -17, 83, 32, 78, -2, 18, -1), (50, 99, 50, 49, 89, -39, 83, -33), (95, 53, 17, 65));
}

proof fn lemma_tangent_7_2()
    ensures
        sline_eval(g1p(91, 35), g1p(91, 35), dq(65, 3)) == Some((gt_of(85, 4), g1p(26, 56))),
{
    lemma_tangent_at((91, 35), (65, 3), (0, 70, 13, 9, 62, 3197, 26, 36, 56, 39), (14, -56, 91, 39, 55, -1, 10, -1), (65, 26, 35, 9, 47, -32, 48, -23), (85, 20, 4, 26));
}

proof fn lemma_tangent_8_2()
    ensures
        sline_eval(g1p(18, 49), g1p(18, 49), dq(65, 3)) == Some((gt_of(65, 77), g1p(1, 99))),
{
    lemma_tangent_at((18, 49), (65, 3), (0, 98, 67, 65, 80, 644, 1, 63, 99, 12), (75, -15, 49, 51, 81, -2, 52, -1), (42, 49, 33, 16, 44, -22, 77, -22), (65, -5, 77, 44));
}

proof fn lemma_tangent_9_2()
    ensures
        sline_eval(g1p(18, 52), g1p(18, 52), dq(65, 3)) == Some((gt_of(98, 82), g1p(1, 2))),
{
    lemma_tangent_at((18, 52), (65, 3), (1, 3, 34, 1, 21, 327, 1, 4, 2, 3), (26, -4, 52, 13, 26, -1, 49, -1), (42, 49, 33, 16, 44, -22, 77, -22), (98, -27, 82, 3));
}

proof fn lemma_tangent_10_2()
    ensures
        sline_eval(g1p(91, 66), g1p(91, 66), dq(65, 3)) == Some((gt_of(96, 82), g1p(26, 45))),
{
    lemma_tangent_at((91, 66), (65, 3), (1, 31, 88, 27, 39, 21645, 26, 13, 45, 24), (87, -36, 10, 25, 52, -2, 91, -1), (65, 26, 35, 9, 47, -32, 48, -23), (96, -20, 82, 23));
}

proof fn lemma_tangent_11_2()
    ensures
        sline_eval(g1p(32, 59), g1p(32, 59), dq(65, 3)) == Some((gt_of(35, 77), g1p(12, 32))),
{
    lemma_tangent_at((32, 59), (65, 3), (1, 17, 6, 1, 50, 182, 12, 24, 32, 9), (16, -16, 18, 32, 29, -1, 83, -1), (50, 99, 50, 49, 89, -39, 83, -33), (35, -43, 77, 28));
}

proof fn lemma_tangent_12_2()
    ensures
        sline_eval(g1p(12, 69), g1p(12, 69), dq(65, 3)) == Some((gt_of(82, 4), g1p(91, 35))),
{
    lemma_tangent_at((12, 69), (65, 3), (1, 37, 71, 26, 69, 303, 91, 46, 35, -55), (81, -9, 41, 44, 55, -2, 60, -1), (182, 39, 57, 22, 97, -89, 32, -37), (82, 33, 4, 56));
}

proof fn lemma_tangent_13_2()
    ensures
        sline_eval(g1p(65, 3), g1p(65, 3), dq(65, 3)) == Some((gt_of(17, 17), g1p(18, 52))),
{
    lemma_tangent_at((65, 3), (65, 3), (0, 6, 17, 1, 42, 2133, 18, 16, 52, 19), (98, -28, 3, 27, 3, -1, 98, -1), (56, 63, 93, 58, 58, -77, 15, -60), (17, -13, 17, 42));
}

proof fn lemma_tangent_14_2()
    ensures
        sline_eval(g1p(26, 56), g1p(26, 56), dq(65, 3)) == Some((gt_of(12, 87), g1p(32, 59))),
{
    lemma_tangent_at((26, 56), (65, 3), (1, 11, 46, 5, 65, 923, 32, 41, 59, -5), (27, -17, 84, 41, 21, -1, 17, -1), (72, 57, 39, 22, 55, -38, 91, -26), (12, -4, 87, 12));
}

proof fn lemma_tangent_15_2()
    ensures
        sline_eval(g1p(68, 27), g1p(68, 27), dq(65, 3)) == Some((gt_of(35, 73), g1p(65, 3))),
{
    lemma_tangent_at((68, 27), (65, 3), (0, 54, 58, 31, 10, 7966, 65, -1, 3, 0), (27, -7, 44, 6, 50, -1, 57, -1), (125, 50, 99, 49, 58, -128, 29, -64), (35, 12, 73, 30));
}

proof fn lemma_tangent_16_2()
    ensures
        sline_eval(g1p(1, 99), g1p(1, 99), dq(65, 3)) == Some((gt_of(22, 55), g1p(68, 27))),
{
    lemma_tangent_at((1, 99), (65, 3), (1, 97, 25, 24, 75, 0, 68, 55, 27, -51), (26, -1, 27, 48, 80, -2, 74, -1), (131, 38, 8, 3, 47, -11, 86, -6), (22, -26, 55, 39));
}

proof fn lemma_tangent_1_3()
    ensures
        sline_eval(g1p(1, 2), g1p(1, 2), dq(20, 23)) == Some((gt_of(10, 100), g1p(68, 74))),
{
    lemma_tangent_at((1, 2), (20, 23), (0, 4, 76, 3, 26, 2, 68, 6, 74, -18), (75, -1, 15, 5, 47, -1, 86, -1), (63, 21, 77, 16, 92, -68, 76, -16), (10, -22, 100, 48));
}

proof fn lemma_tangent_2_3()
    ensures
        sline_eval(g1p(68, 74), g1p(68, 74), dq(20, 23)) == Some((gt_of(60, 89), g1p(65, 98))),
{
    lemma_tangent_at((68, 74), (20, 23), (1, 47, 43, 20, 91, 5905, 65, 80, 98, 1), (74, -62, 2, 18, 77, -2, 99, -1), (58, 67, 98, 65, 53, -83, 60, -20), (60, -19, 89, 38));
}

proof fn lemma_tangent_3_3()
    ensures
        sline_eval(g1p(26, 45), g1p(26, 45), dq(20, 23)) == Some((gt_of(80, 99), g1p(32, 42))),
{
    lemma_tangent_at((26, 45), (20, 23), (0, 90, 55, 49, 36, 1104, 32, 12, 42, -3), (74, -10, 13, 7, 5, -1, 88, -1), (20, 44, 62, 27, 8, -32, 73, -13), (80, -64, 99, -54));
}

proof fn lemma_tangent_4_3()
    ensures
        sline_eval(g1p(65, 98), g1p(65, 98), dq(20, 23)) == Some((gt_of(76, 87), g1p(18, 49))),
{
    lemma_tangent_at((65, 98), (20, 23), (1, 95, 84, 79, 59, 10541, 18, 33, 49, 26), (3, -38, 69, 11, 23, -1, 32, -1), (10, 74, 86, 63, 65, -33, 98, -18), (76, -17, 87, 11));
}

proof fn lemma_tangent_5_3()
    ensures
        sline_eval(g1p(12, 32), g1p(12, 32), dq(20, 23)) == Some((gt_of(29, 21), g1p(91, 66))),
{
    lemma_tangent_at((12, 32), (20, 23), (0, 64, 30, 19, 32, 128, 91, 9, 66, -26), (20, -4, 34, 6, 72, -1, 67, -1), (103, 98, 67, 65, 37, -74, 74, -14), (29, -23, 21, 28));
}

proof fn lemma_tangent_6_3()
    ensures
        sline_eval(g1p(32, 42), g1p(32, 42), dq(20, 23)) == Some((gt_of(38, 43), g1p(12, 69))),
{
    lemma_tangent_at((32, 42), (20, 23), (0, 84, 95, 79, 51, 2889, 12, 25, 69, 9), (85, -17, 10, 10, 98, -2, 91, -1), (7, 77, 21, 16, 35, -7, 85, -5), (38, -43, 43, 37));
}

proof fn lemma_tangent_7_3()
    ensures
        sline_eval(g1p(91, 35), g1p(91, 35), dq(20, 23)) == Some((gt_of(49, 79), g1p(26, 56))),
{
    lemma_tangent_at((91, 35), (20, 23), (0, 70, 13, 9, 62, 3197, 26, 36, 56, 39), (14, -56, 28, 12, 75, -1, 73, -1), (15, 81, 5, 4, 73, -3, 1, -1), (49, 53, 79, 52));
}

proof fn lemma_tangent_8_3()
    ensures
        sline_eval(g1p(18, 49), g1p(18, 49), dq(20, 23)) == Some((gt_of(1, 5), g1p(1, 99))),
{
    lemma_tangent_at((18, 49), (20, 23), (0, 98, 67, 65, 80, 644, 1, 63, 99, 12), (75, -15, 85, 15, 0, -1, 16, -1), (4, 17, 6, 1, 76, -2, 82, -2), (1, -13, 5, -1));
}

proof fn lemma_tangent_9_3()
    ensures
        sline_eval(g1p(18, 52), g1p(18, 52), dq(20, 23)) == Some((gt_of(61, 30), g1p(1, 2))),
{
    lemma_tangent_at((18, 52), (20, 23), (1, 3, 34, 1, 21, 327, 1, 4, 2, 3), (26, -4, 16, 4, 46, -1, 85, -1), (4, 17, 6, 1, 76, -2, 82, -2), (61, -35, 30, 32));
}

proof fn lemma_tangent_10_3()
    ensures
        sline_eval(g1p(91, 66), g1p(91, 66), dq(20, 23)) == Some((gt_of(77, 68), g1p(26, 45))),
{
    lemma_tangent_at((91, 66), (20, 23), (1, 31, 88, 27, 39, 21645, 26, 13, 45, 24), (87, -36, 73, 7, 72, -2, 28, -1), (15, 81, 5, 4, 73, -3, 1, -1), (77, 51, 68, 20));
}

proof fn lemma_tangent_11_3()
    ensures
        sline_eval(g1p(32, 59), g1p(32, 59), dq(20, 23)) == Some((gt_of(57, 29), g1p(12, 32))),
{
    lemma_tangent_at((32, 59), (20, 23), (1, 17, 6, 1, 50, 182, 12, 24, 32, 9), (16, -16, 91, 9, 49, -1, 10, -1), (7, 77, 21, 16, 35, -7, 85, -5), (57, 8, 29, 36));
}

proof fn lemma_tangent_12_3()
    ensures
        sline_eval(g1p(12, 69), g1p(12, 69), dq(20, 23)) == Some((gt_of(57, 50), g1p(91, 35))),
{
    lemma_tangent_at((12, 69), (20, 23), (1, 37, 71, 26, 69, 303, 91, 46, 35, -55), (81, -9, 67, 13, 75, -2, 34, -1), (103, 98, 67, 65, 37, -74, 74, -14), (57, 2, 50, 42));
}

proof fn lemma_tangent_13_3()
    ensures
        sline_eval(g1p(65, 3), g1p(65, 3), dq(20, 23)) == Some((gt_of(86, 78), g1p(18, 52))),
{
    lemma_tangent_at((65, 3), (20, 23), (0, 6, 17, 1, 42, 2133, 18, 16, 52, 19), (98, -28, 32, 8, 23, -1, 69, -1), (10, 74, 86, 63, 65, -33, 98, -18), (86, -53, 78, -1));
}

proof fn lemma_tangent_14_3()
    ensures
        sline_eval(g1p(26, 56), g1p(26, 56), dq(20, 23)) == Some((gt_of(86, 27), g1p(32, 59))),
{
    lemma_tangent_at((26, 56), (20, 23), (1, 11, 46, 5, 65, 923, 32, 41, 59, -5), (27, -17, 88, 12, 41, -1, 13, -1), (20, 44, 62, 27, 8, -32, 73, -13), (86, -7, 27, 21));
}

proof fn lemma_tangent_15_3()
    ensures
        sline_eval(g1p(68, 27), g1p(68, 27), dq(20, 23)) == Some((gt_of(55, 45), g1p(65, 3))),
{
    lemma_tangent_at((68, 27), (20, 23), (0, 54, 58, 31, 10, 7966, 65, -1, 3, 0), (27, -7, 99, 1, 70, -1, 2, -1), (58, 67, 98, 65, 53, -83, 60, -20), (55, 35, 45, 41));
}

proof fn lemma_tangent_16_3()
    ensures
        sline_eval(g1p(1, 99), g1p(1, 99), dq(20, 23)) == Some((gt_of(81, 63), g1p(68, 27))),
{
    lemma_tangent_at((1, 99), (20, 23), (1, 97, 25, 24, 75, 0, 68, 55, 27, -51), (26, -1, 86, 14, 100, -2, 15, -1), (63, 21, 77, 16, 92, -68, 76, -16), (81, 79, 63, 77));
}

proof fn lemma_tangent_1_4()
    ensures
        sline_eval(g1p(1, 2), g1p(1, 2), dq(18, 52)) == Some((gt_of(54, 5), g1p(68, 74))),
{
    lemma_tangent_at((1, 2), (18, 52), (0, 4, 76, 3, 26, 2, 68, 6, 74, -18), (75, -1, 64, 4, 76, -1, 37, -1), (61, 11, 46, 5, 84, -40, 81, -9), (54, 33, 5, 62));
}

proof fn lemma_tangent_2_4()
    ensures
        sline_eval(g1p(68, 74), g1p(68, 74), dq(18, 52)) == Some((gt_of(24, 87), g1p(65, 98))),
{
    lemma_tangent_at((68, 74), (18, 52), (1, 47, 43, 20, 91, 5905, 65, 80, 98, 1), (74, -62, 22, 16, 5, -1, 79, -1), (56, 63, 93, 58, 58, -77, 43, -17), (24, -31, 87, 13));
}

proof fn lemma_tangent_3_4()
    ensures
        sline_eval(g1p(26, 45), g1p(26, 45), dq(18, 52)) == Some((gt_of(34, 5), g1p(32, 42))),
{
    lemma_tangent_at((26, 45), (18, 52), (0, 90, 55, 49, 36, 1104, 32, 12, 42, -3), (74, -10, 42, 6, 34, -1, 59, -1), (19, 5, 81, 4, 91, -41, 57, -15), (34, -3, 5, 39));
}

proof fn lemma_tangent_4_4()
    ensures
        sline_eval(g1p(65, 98), g1p(65, 98), dq(18, 52)) == Some((gt_of(42, 0), g1p(18, 49))),
{
    lemma_tangent_at((65, 98), (18, 52), (1, 95, 84, 79, 59, 10541, 18, 33, 49, 26), (3, -38, 52, 10, 52, -1, 49, -1), (9, 63, 93, 58, 86, -34, 43, -17), (42, 23, 0, 43));
}

proof fn lemma_tangent_5_4()
    ensures
        sline_eval(g1p(12, 32), g1p(12, 32), dq(18, 52)) == Some((gt_of(85, 36), g1p(91, 66))),
{
    lemma_tangent_at((12, 32), (18, 52), (0, 64, 30, 19, 32, 128, 91, 9, 66, -26), (20, -4, 71, 5, 0, 0, 30, -1), (101, 42, 89, 37, 96, -97, 14, -16), (85, -5, 36, 24));
}

proof fn lemma_tangent_6_4()
    ensures
        sline_eval(g1p(32, 42), g1p(32, 42), dq(18, 52)) == Some((gt_of(19, 42), g1p(12, 69))),
{
    lemma_tangent_at((32, 42), (18, 52), (0, 84, 95, 79, 51, 2889, 12, 25, 69, 9), (85, -17, 9, 9, 26, -1, 92, -1), (6, 78, 79, 61, 54, -24, 93, -15), (19, -71, 42, -12));
}

proof fn lemma_tangent_7_4()
    ensures
        sline_eval(g1p(91, 35), g1p(91, 35), dq(18, 52)) == Some((gt_of(52, 65), g1p(26, 56))),
{
    lemma_tangent_at((91, 35), (18, 52), (0, 70, 13, 9, 62, 3197, 26, 36, 56, 39), (14, -56, 5, 11, 3, 0, 96, -1), (14, 54, 58, 31, 74, -26, 67, -11), (52, -62, 65, 8));
}

proof fn lemma_tangent_8_4()
    ensures
        sline_eval(g1p(18, 49), g1p(18, 49), dq(18, 52)) == Some((gt_of(73, 28), g1p(1, 99))),
{
    lemma_tangent_at((18, 49), (18, 52), (0, 98, 67, 65, 80, 644, 1, 63, 99, 12), (75, -15, 26, 14, 29, -1, 75, -1), (3, 40, 48, 19, 98, -10, 45, -9), (73, -6, 28, 52));
}

proof fn lemma_tangent_9_4()
    ensures
        sline_eval(g1p(18, 52), g1p(18, 52), dq(18, 52)) == Some((gt_of(19, 6), g1p(1, 2))),
{
    lemma_tangent_at((18, 52), (18, 52), (1, 3, 34, 1, 21, 327, 1, 4, 2, 3), (26, -4, 75, 3, 75, -1, 26, -1), (3, 40, 48, 19, 98, -10, 45, -9), (19, 61, 6, 47));
}

proof fn lemma_tangent_10_4()
    ensures
        sline_eval(g1p(91, 66), g1p(91, 66), dq(18, 52)) == Some((gt_of(69, 35), g1p(26, 45))),
{
    lemma_tangent_at((91, 66), (18, 52), (1, 31, 88, 27, 39, 21645, 26, 13, 45, 24), (87, -36, 96, 6, 0, -1, 5, -1), (14, 54, 58, 31, 74, -26, 67, -11), (69, -4, 35, 0));
}

proof fn lemma_tangent_11_4()
    ensures
        sline_eval(g1p(32, 59), g1p(32, 59), dq(18, 52)) == Some((gt_of(42, 35), g1p(12, 32))),
{
    lemma_tangent_at((32, 59), (18, 52), (1, 17, 6, 1, 50, 182, 12, 24, 32, 9), (16, -16, 92, 8, 78, -1, 9, -1), (6, 78, 79, 61, 54, -24, 93, -15), (42, 33, 35, 68));
}

proof fn lemma_tangent_12_4()
    ensures
        sline_eval(g1p(12, 69), g1p(12, 69), dq(18, 52)) == Some((gt_of(1, 6), g1p(91, 35))),
{
    lemma_tangent_at((12, 69), (18, 52), (1, 37, 71, 26, 69, 303, 91, 46, 35, -55), (81, -9, 30, 12, 3, -1, 71, -1), (101, 42, 89, 37, 96, -97, 14, -16), (1, -7, 6, 58));
}

proof fn lemma_tangent_13_4()
    ensures
        sline_eval(g1p(65, 3), g1p(65, 3), dq(18, 52)) == Some((gt_of(14, 28), g1p(18, 52))),
{
    lemma_tangent_at((65, 3), (18, 52), (0, 6, 17, 1, 42, 2133, 18, 16, 52, 19), (98, -28, 49, 7, 52, -1, 52, -1), (9, 63, 93, 58, 86, -34, 43, -17), (14, 22, 28, 44));
}

proof fn lemma_tangent_14_4()
    ensures
        sline_eval(g1p(26, 56), g1p(26, 56), dq(18, 52)) == Some((gt_of(37, 65), g1p(32, 59))),
{
    lemma_tangent_at((26, 56), (18, 52), (1, 11, 46, 5, 65, 923, 32, 41, 59, -5), (27, -17, 59, 11, 70, -1, 42, -1), (19, 5, 81, 4, 91, -41, 57, -15), (37, 39, 65, 53));
}

proof fn lemma_tangent_15_4()
    ensures
        sline_eval(g1p(68, 27), g1p(68, 27), dq(18, 52)) == Some((gt_of(49, 42), g1p(65, 3))),
{
    lemma_tangent_at((68, 27), (18, 52), (0, 54, 58, 31, 10, 7966, 65, -1, 3, 0), (27, -7, 79, 1, 99, -1, 22, -1), (56, 63, 93, 58, 58, -77, 43, -17), (49, 47, 42, 45));
}

proof fn lemma_tangent_16_4()
    ensures
        sline_eval(g1p(1, 99), g1p(1, 99), dq(18, 52)) == Some((gt_of(97, 36), g1p(68, 27))),
{
    lemma_tangent_at((1, 99), (18, 52), (1, 97, 25, 24, 75, 0, 68, 55, 27, -51), (26, -1, 37, 13, 28, -1, 64, -1), (61, 11, 46, 5, 84, -40, 81, -9), (97, -29, 36, 24));
}

proof fn lemma_tangent_1_5()
    ensures
        sline_eval(g1p(1, 2), g1p(1, 2), dq(96, 22)) == Some((gt_of(39, 75), g1p(68, 74))),
{
    lemma_tangent_at((1, 2), (96, 22), (0, 4, 76, 3, 26, 2, 68, 6, 74, -18), (75, -1, 72, 24, 46, -1, 29, -1), (201, 67, 98, 65, 88, -160, 86, -94), (39, 15, 75, 39));
}

proof fn lemma_tangent_2_5()
    ensures
        sline_eval(g1p(68, 74), g1p(68, 74), dq(96, 22)) == Some((gt_of(77, 87), g1p(65, 98))),
{
    lemma_tangent_at((68, 74), (96, 22), (1, 47, 43, 20, 91, 5905, 65, 80, 98, 1), (74, -62, 50, 86, 76, -2, 51, -1), (194, 87, 36, 31, 62, -58, 79, -35), (77, 6, 87, 50));
}

proof fn lemma_tangent_3_5()
    ensures
        sline_eval(g1p(26, 45), g1p(26, 45), dq(96, 22)) == Some((gt_of(10, 85), g1p(32, 42))),
{
    lemma_tangent_at((26, 45), (96, 22), (0, 90, 55, 49, 36, 1104, 32, 12, 42, -3), (74, -10, 22, 34, 4, -1, 79, -1), (131, 81, 5, 4, 67, -7, 25, -5), (10, -17, 85, 33));
}

proof fn lemma_tangent_4_5()
    ensures
        sline_eval(g1p(65, 98), g1p(65, 98), dq(96, 22)) == Some((gt_of(1, 8), g1p(18, 49))),
{
    lemma_tangent_at((65, 98), (96, 22), (1, 95, 84, 79, 59, 10541, 18, 33, 49, 26), (3, -38, 8, 56, 22, -1, 93, -1), (111, 57, 39, 22, 99, -45, 94, -38), (1, -65, 8, 25));
}

proof fn lemma_tangent_5_5()
    ensures
        sline_eval(g1p(12, 32), g1p(12, 32), dq(96, 22)) == Some((gt_of(65, 66), g1p(91, 66))),
{
    lemma_tangent_at((12, 32), (96, 22), (0, 64, 30, 19, 32, 128, 91, 9, 66, -26), (20, -4, 42, 30, 71, -1, 59, -1), (259, 74, 86, 63, 78, -160, 26, -82), (65, 39, 66, 48));
}

proof fn lemma_tangent_6_5()
    ensures
        sline_eval(g1p(32, 42), g1p(32, 42), dq(96, 22)) == Some((gt_of(84, 19), g1p(12, 69))),
{
    lemma_tangent_at((32, 42), (96, 22), (0, 84, 95, 79, 51, 2889, 12, 25, 69, 9), (85, -17, 48, 48, 97, -2, 53, -1), (104, 8, 38, 3, 37, -41, 89, -37), (84, -12, 19, 58));
}

proof fn lemma_tangent_7_5()
    ensures
        sline_eval(g1p(91, 35), g1p(91, 35), dq(96, 22)) == Some((gt_of(5, 61), g1p(26, 56))),
{
    lemma_tangent_at((91, 35), (96, 22), (0, 70, 13, 9, 62, 3197, 26, 36, 56, 39), (14, -56, 94, 58, 74, -1, 7, -1), (122, 66, 75, 49, 41, -91, 72, -72), (5, 25, 61, 50));
}

proof fn lemma_tangent_8_5()
    ensures
        sline_eval(g1p(18, 49), g1p(18, 49), dq(96, 22)) == Some((gt_of(20, 24), g1p(1, 99))),
{
    lemma_tangent_at((18, 49), (96, 22), (0, 98, 67, 65, 80, 644, 1, 63, 99, 12), (75, -15, 4, 76, 100, -2, 97, -1), (92, 21, 77, 16, 5, -74, 82, -74), (20, -74, 24, 7));
}

proof fn lemma_tangent_9_5()
    ensures
        sline_eval(g1p(18, 52), g1p(18, 52), dq(96, 22)) == Some((gt_of(99, 49), g1p(1, 2))),
{
    lemma_tangent_at((18, 52), (96, 22), (1, 3, 34, 1, 21, 327, 1, 4, 2, 3), (26, -4, 97, 19, 45, -1, 4, -1), (92, 21, 77, 16, 5, -74, 82, -74), (99, -2, 49, 33));
}

proof fn lemma_tangent_10_5()
    ensures
        sline_eval(g1p(91, 66), g1p(91, 66), dq(96, 22)) == Some((gt_of(82, 77), g1p(26, 45))),
{
    lemma_tangent_at((91, 66), (96, 22), (1, 31, 88, 27, 39, 21645, 26, 13, 45, 24), (87, -36, 7, 37, 71, -2, 94, -1), (122, 66, 75, 49, 41, -91, 72, -72), (82, -39, 77, 21));
}

proof fn lemma_tangent_11_5()
    ensures
        sline_eval(g1p(32, 59), g1p(32, 59), dq(96, 22)) == Some((gt_of(29, 59), g1p(12, 32))),
{
    lemma_tangent_at((32, 59), (96, 22), (1, 17, 6, 1, 50, 182, 12, 24, 32, 9), (16, -16, 53, 47, 48, -1, 48, -1), (104, 8, 38, 3, 37, -41, 89, -37), (29, -25, 59, 17));
}

proof fn lemma_tangent_12_5()
    ensures
        sline_eval(g1p(12, 69), g1p(12, 69), dq(96, 22)) == Some((gt_of(34, 68), g1p(91, 35))),
{
    lemma_tangent_at((12, 69), (96, 22), (1, 37, 71, 26, 69, 303, 91, 46, 35, -55), (81, -9, 59, 65, 74, -2, 42, -1), (259, 74, 86, 63, 78, -160, 26, -82), (34, 46, 68, 40));
}

proof fn lemma_tangent_13_5()
    ensures
        sline_eval(g1p(65, 3), g1p(65, 3), dq(96, 22)) == Some((gt_of(12, 88), g1p(18, 52))),
{
    lemma_tangent_at((65, 3), (96, 22), (0, 6, 17, 1, 42, 2133, 18, 16, 52, 19), (98, -28, 93, 39, 22, -1, 8, -1), (111, 57, 39, 22, 99, -45, 94, -38), (12, 14, 88, 20));
}

proof fn lemma_tangent_14_5()
    ensures
        sline_eval(g1p(26, 56), g1p(26, 56), dq(96, 22)) == Some((gt_of(9, 5), g1p(32, 59))),
{
    lemma_tangent_at((26, 56), (96, 22), (1, 11, 46, 5, 65, 923, 32, 41, 59, -5), (27, -17, 79, 61, 40, -1, 22, -1), (131, 81, 5, 4, 67, -7, 25, -5), (9, 21, 5, 19));
}

proof fn lemma_tangent_15_5()
    ensures
        sline_eval(g1p(68, 27), g1p(68, 27), dq(96, 22)) == Some((gt_of(25, 56), g1p(65, 3))),
{
    lemma_tangent_at((68, 27), (96, 22), (0, 54, 58, 31, 10, 7966, 65, -1, 3, 0), (27, -7, 51, 9, 69, -1, 50, -1), (194, 87, 36, 31, 62, -58, 79, -35), (25, 3, 56, 45));
}

proof fn lemma_tangent_16_5()
    ensures
        sline_eval(g1p(1, 99), g1p(1, 99), dq(96, 22)) == Some((gt_of(96, 73), g1p(68, 27))),
{
    lemma_tangent_at((1, 99), (96, 22), (1, 97, 25, 24, 75, 0, 68, 55, 27, -51), (26, -1, 29, 71, 99, -2, 72, -1), (201, 67, 98, 65, 88, -160, 86, -94), (96, 24, 73, 85));
}

proof fn lemma_tangent_1_6()
    ensures
        sline_eval(g1p(1, 2), g1p(1, 2), dq(12, 32)) == Some((gt_of(2, 85), g1p(68, 74))),
{
    lemma_tangent_at((1, 2), (12, 32), (0, 4, 76, 3, 26, 2, 68, 6, 74, -18), (75, -1, 9, 3, 56, -1, 92, -1), (55, 29, 7, 2, 46, -6, 17, -1), (2, 10, 85, 35));
}

proof fn lemma_tangent_2_6()
    ensures
        sline_eval(g1p(68, 74), g1p(68, 74), dq(12, 32)) == Some((gt_of(66, 73), g1p(65, 98))),
{
    lemma_tangent_at((68, 74), (12, 32), (1, 47, 43, 20, 91, 5905, 65, 80, 98, 1), (74, -62, 82, 10, 86, -2, 19, -1), (50, 99, 50, 49, 89, -39, 6, -6), (66, 74, 73, 20));
}

proof fn lemma_tangent_3_6()
    ensures
        sline_eval(g1p(26, 45), g1p(26, 45), dq(12, 32)) == Some((gt_of(78, 77), g1p(32, 42))),
{
    lemma_tangent_at((26, 45), (12, 32), (0, 90, 55, 49, 36, 1104, 32, 12, 42, -3), (74, -10, 28, 4, 14, -1, 73, -1), (15, 37, 71, 26, 7, -31, 57, -9), (78, -41, 77, -29));
}

proof fn lemma_tangent_4_6()
    ensures
        sline_eval(g1p(65, 98), g1p(65, 98), dq(12, 32)) == Some((gt_of(73, 73), g1p(18, 49))),
{
    lemma_tangent_at((65, 98), (12, 32), (1, 95, 84, 79, 59, 10541, 18, 33, 49, 26), (3, -38, 1, 7, 32, -1, 100, -1), (6, 78, 79, 61, 54, -24, 62, -10), (73, -45, 73, 11));
}

proof fn lemma_tangent_5_6()
    ensures
        sline_eval(g1p(12, 32), g1p(12, 32), dq(12, 32)) == Some((gt_of(100, 85), g1p(91, 66))),
{
    lemma_tangent_at((12, 32), (12, 32), (0, 64, 30, 19, 32, 128, 91, 9, 66, -26), (20, -4, 81, 3, 81, -1, 20, -1), (94, 23, 22, 5, 57, -23, 39, -3), (100, 37, 85, 34));
}

proof fn lemma_tangent_6_6()
    ensures
        sline_eval(g1p(32, 42), g1p(32, 42), dq(12, 32)) == Some((gt_of(50, 0), g1p(12, 69))),
{
    lemma_tangent_at((32, 42), (12, 32), (0, 84, 95, 79, 51, 2889, 12, 25, 69, 9), (85, -17, 6, 6, 6, -1, 95, -1), (4, 28, 83, 23, 28, -20, 14, -10), (50, -12, 0, 14));
}

proof fn lemma_tangent_7_6()
    ensures
        sline_eval(g1p(91, 35), g1p(91, 35), dq(12, 32)) == Some((gt_of(0, 94), g1p(26, 56))),
{
    lemma_tangent_at((91, 35), (12, 32), (0, 70, 13, 9, 62, 3197, 26, 36, 56, 39), (14, -56, 37, 7, 84, -1, 64, -1), (11, 21, 77, 16, 3, -29, 86, -10), (0, -52, 94, 18));
}

proof fn lemma_tangent_8_6()
    ensures
        sline_eval(g1p(18, 49), g1p(18, 49), dq(12, 32)) == Some((gt_of(97, 8), g1p(1, 99))),
{
    lemma_tangent_at((18, 49), (12, 32), (0, 98, 67, 65, 80, 644, 1, 63, 99, 12), (75, -15, 51, 9, 9, -1, 50, -1), (1, 56, 92, 51, 16, -12, 7, -11), (97, -3, 8, 5));
}

proof fn lemma_tangent_9_6()
    ensures
        sline_eval(g1p(18, 52), g1p(18, 52), dq(12, 32)) == Some((gt_of(18, 36), g1p(1, 2))),
{
    lemma_tangent_at((18, 52), (12, 32), (1, 3, 34, 1, 21, 327, 1, 4, 2, 3), (26, -4, 50, 2, 55, -1, 51, -1), (1, 56, 92, 51, 16, -12, 7, -11), (18, 5, 36, 8));
}

proof fn lemma_tangent_10_6()
    ensures
        sline_eval(g1p(91, 66), g1p(91, 66), dq(12, 32)) == Some((gt_of(91, 57), g1p(26, 45))),
{
    lemma_tangent_at((91, 66), (12, 32), (1, 31, 88, 27, 39, 21645, 26, 13, 45, 24), (87, -36, 64, 4, 81, -2, 37, -1), (11, 21, 77, 16, 3, -29, 86, -10), (91, -30, 57, 38));
}

proof fn lemma_tangent_11_6()
    ensures
        sline_eval(g1p(32, 59), g1p(32, 59), dq(12, 32)) == Some((gt_of(25, 88), g1p(12, 32))),
{
    lemma_tangent_at((32, 59), (12, 32), (1, 17, 6, 1, 50, 182, 12, 24, 32, 9), (16, -16, 95, 5, 58, -1, 6, -1), (4, 28, 83, 23, 28, -20, 14, -10), (25, 15, 88, 8));
}

proof fn lemma_tangent_12_6()
    ensures
        sline_eval(g1p(12, 69), g1p(12, 69), dq(12, 32)) == Some((gt_of(13, 88), g1p(91, 35))),
{
    lemma_tangent_at((12, 69), (12, 32), (1, 37, 71, 26, 69, 303, 91, 46, 35, -55), (81, -9, 20, 8, 84, -2, 81, -1), (94, 23, 22, 5, 57, -23, 39, -3), (13, 16, 88, 46));
}

proof fn lemma_tangent_13_6()
    ensures
        sline_eval(g1p(65, 3), g1p(65, 3), dq(12, 32)) == Some((gt_of(50, 57), g1p(18, 52))),
{
    lemma_tangent_at((65, 3), (12, 32), (0, 6, 17, 1, 42, 2133, 18, 16, 52, 19), (98, -28, 100, 4, 32, -1, 1, -1), (6, 78, 79, 61, 54, -24, 62, -10), (50, 16, 57, 19));
}

proof fn lemma_tangent_14_6()
    ensures
        sline_eval(g1p(26, 56), g1p(26, 56), dq(12, 32)) == Some((gt_of(67, 36), g1p(32, 59))),
{
    lemma_tangent_at((26, 56), (12, 32), (1, 11, 46, 5, 65, 923, 32, 41, 59, -5), (27, -17, 73, 7, 50, -1, 28, -1), (15, 37, 71, 26, 7, -31, 57, -9), (67, -13, 36, 14));
}

proof fn lemma_tangent_15_6()
    ensures
        sline_eval(g1p(68, 27), g1p(68, 27), dq(12, 32)) == Some((gt_of(75, 8), g1p(65, 3))),
{
    lemma_tangent_at((68, 27), (12, 32), (0, 54, 58, 31, 10, 7966, 65, -1, 3, 0), (27, -7, 19, 1, 79, -1, 82, -1), (50, 99, 50, 49, 89, -39, 6, -6), (75, 64, 8, 72));
}

proof fn lemma_tangent_16_6()
    ensures
        sline_eval(g1p(1, 99), g1p(1, 99), dq(12, 32)) == Some((gt_of(13, 94), g1p(68, 27))),
{
    lemma_tangent_at((1, 99), (12, 32), (1, 97, 25, 24, 75, 0, 68, 55, 27, -51), (26, -1, 92, 8, 8, -1, 9, -1), (55, 29, 7, 2, 46, -6, 17, -1), (13, 2, 94, 3));
}

proof fn lemma_tangent_1_7()
    ensures
        sline_eval(g1p(1, 2), g1p(1, 2), dq(46, 51)) == Some((gt_of(45, 57), g1p(68, 74))),
{
    lemma_tangent_at((1, 2), (46, 51), (0, 4, 76, 3, 26, 2, 68, 6, 74, -18), (75, -1, 85, 11, 75, -1, 16, -1), (97, 71, 37, 26, 24, -42, 15, -17), (45, 15, 57, 12));
}

proof fn lemma_tangent_2_7()
    ensures
        sline_eval(g1p(68, 74), g1p(68, 74), dq(46, 51)) == Some((gt_of(21, 91), g1p(65, 98))),
{
    lemma_tangent_at((68, 74), (46, 51), (1, 47, 43, 20, 91, 5905, 65, 80, 98, 1), (74, -62, 45, 41, 4, -1, 56, -1), (92, 39, 57, 22, 36, -63, 4, -26), (21, -1, 91, 17));
}

proof fn lemma_tangent_3_7()
    ensures
        sline_eval(g1p(26, 45), g1p(26, 45), dq(46, 51)) == Some((gt_of(11, 7), g1p(32, 42))),
{
    lemma_tangent_at((26, 45), (46, 51), (0, 90, 55, 49, 36, 1104, 32, 12, 42, -3), (74, -10, 40, 16, 33, -1, 61, -1), (45, 67, 98, 65, 32, -76, 37, -45), (11, -12, 7, 9));
}

proof fn lemma_tangent_4_7()
    ensures
        sline_eval(g1p(65, 98), g1p(65, 98), dq(46, 51)) == Some((gt_of(55, 63), g1p(18, 49))),
{
    lemma_tangent_at((65, 98), (46, 51), (1, 95, 84, 79, 59, 10541, 18, 33, 49, 26), (3, -38, 88, 26, 51, -1, 13, -1), (32, 36, 87, 31, 88, -56, 38, -40), (55, 39, 63, 25));
}

proof fn lemma_tangent_5_7()
    ensures
        sline_eval(g1p(12, 32), g1p(12, 32), dq(46, 51)) == Some((gt_of(62, 64), g1p(91, 66))),
{
    lemma_tangent_at((12, 32), (46, 51), (0, 64, 30, 19, 32, 128, 91, 9, 66, -26), (20, -4, 58, 14, 100, -1, 43, -1), (144, 39, 57, 22, 69, -78, 4, -26), (62, 66, 64, 31));
}

proof fn lemma_tangent_6_7()
    ensures
        sline_eval(g1p(32, 42), g1p(32, 42), dq(46, 51)) == Some((gt_of(81, 42), g1p(12, 69))),
{
    lemma_tangent_at((32, 42), (46, 51), (0, 84, 95, 79, 51, 2889, 12, 25, 69, 9), (85, -17, 23, 23, 25, -1, 78, -1), (27, 85, 82, 69, 92, -48, 66, -38), (81, -29, 42, 36));
}

proof fn lemma_tangent_7_7()
    ensures
        sline_eval(g1p(91, 35), g1p(91, 35), dq(46, 51)) == Some((gt_of(24, 83), g1p(26, 56))),
{
    lemma_tangent_at((91, 35), (46, 51), (0, 70, 13, 9, 62, 3197, 26, 36, 56, 39), (14, -56, 24, 28, 2, 0, 77, -1), (39, 49, 33, 16, 48, -24, 98, -16), (24, -74, 83, -37));
}

proof fn lemma_tangent_8_7()
    ensures
        sline_eval(g1p(18, 49), g1p(18, 49), dq(46, 51)) == Some((gt_of(84, 81), g1p(1, 99))),
{
    lemma_tangent_at((18, 49), (46, 51), (0, 98, 67, 65, 80, 644, 1, 63, 99, 12), (75, -15, 44, 36, 28, -1, 57, -1), (21, 42, 89, 37, 59, -42, 47, -41), (84, -11, 81, 19));
}

proof fn lemma_tangent_9_7()
    ensures
        sline_eval(g1p(18, 52), g1p(18, 52), dq(46, 51)) == Some((gt_of(76, 67), g1p(1, 2))),
{
    lemma_tangent_at((18, 52), (46, 51), (1, 3, 34, 1, 21, 327, 1, 4, 2, 3), (26, -4, 57, 9, 74, -1, 44, -1), (21, 42, 89, 37, 59, -42, 47, -41), (76, 22, 67, 39));
}

proof fn lemma_tangent_10_7()
    ensures
        sline_eval(g1p(91, 66), g1p(91, 66), dq(46, 51)) == Some((gt_of(24, 15), g1p(26, 45))),
{
    lemma_tangent_at((91, 66), (46, 51), (1, 31, 88, 27, 39, 21645, 26, 13, 45, 24), (87, -36, 77, 17, 100, -2, 24, -1), (39, 49, 33, 16, 48, -24, 98, -16), (24, 24, 15, 85));
}

proof fn lemma_tangent_11_7()
    ensures
        sline_eval(g1p(32, 59), g1p(32, 59), dq(46, 51)) == Some((gt_of(11, 24), g1p(12, 32))),
{
    lemma_tangent_at((32, 59), (46, 51), (1, 17, 6, 1, 50, 182, 12, 24, 32, 9), (16, -16, 78, 22, 77, -1, 23, -1), (27, 85, 82, 69, 92, -48, 66, -38), (11, 55, 24, 56));
}

proof fn lemma_tangent_12_7()
    ensures
        sline_eval(g1p(12, 69), g1p(12, 69), dq(46, 51)) == Some((gt_of(7, 41), g1p(91, 35))),
{
    lemma_tangent_at((12, 69), (46, 51), (1, 37, 71, 26, 69, 303, 91, 46, 35, -55), (81, -9, 43, 31, 2, -1, 58, -1), (144, 39, 57, 22, 69, -78, 4, -26), (7, -1, 41, 37));
}

proof fn lemma_tangent_13_7()
    ensures
        sline_eval(g1p(65, 3), g1p(65, 3), dq(46, 51)) == Some((gt_of(33, 76), g1p(18, 52))),
{
    lemma_tangent_at((65, 3), (46, 51), (0, 6, 17, 1, 42, 2133, 18, 16, 52, 19), (98, -28, 13, 19, 51, -1, 88, -1), (32, 36, 87, 31, 88, -56, 38, -40), (33, 11, 76, 62));
}

proof fn lemma_tangent_14_7()
    ensures
        sline_eval(g1p(26, 56), g1p(26, 56), dq(46, 51)) == Some((gt_of(21, 30), g1p(32, 59))),
{
    lemma_tangent_at((26, 56), (46, 51), (1, 11, 46, 5, 65, 923, 32, 41, 59, -5), (27, -17, 61, 29, 69, -1, 40, -1), (45, 67, 98, 65, 32, -76, 37, -45), (21, 7, 30, 23));
}

proof fn lemma_tangent_15_7()
    ensures
        sline_eval(g1p(68, 27), g1p(68, 27), dq(46, 51)) == Some((gt_of(15, 14), g1p(65, 3))),
{
    lemma_tangent_at((68, 27), (46, 51), (0, 54, 58, 31, 10, 7966, 65, -1, 3, 0), (27, -7, 56, 4, 98, -1, 45, -1), (92, 39, 57, 22, 36, -63, 4, -26), (15, 33, 14, 18));
}

proof fn lemma_tangent_16_7()
    ensures
        sline_eval(g1p(1, 99), g1p(1, 99), dq(46, 51)) == Some((gt_of(80, 59), g1p(68, 27))),
{
    lemma_tangent_at((1, 99), (46, 51), (1, 97, 25, 24, 75, 0, 68, 55, 27, -51), (26, -1, 16, 34, 27, -1, 85, -1), (97, 71, 37, 26, 24, -42, 15, -17), (80, -7, 59, 11));
}

proof fn lemma_tangent_1_8()
    ensures
        sline_eval(g1p(1, 2), g1p(1, 2), dq(1, 2)) == Some((gt_of(15, 65), g1p(68, 74))),
{
    lemma_tangent_at((1, 2), (1, 2), (0, 4, 76, 3, 26, 2, 68, 6, 74, -18), (75, -1, 26, 0, 26, -1, 75, -1), (46, 47, 43, 20, 63, -30, 58, -1), (15, -27, 65, 18));
}

proof fn lemma_tangent_2_8()
    ensures
        sline_eval(g1p(68, 74), g1p(68, 74), dq(1, 2)) == Some((gt_of(67, 33), g1p(65, 98))),
{
    lemma_tangent_at((68, 74), (1, 2), (1, 47, 43, 20, 91, 5905, 65, 80, 98, 1), (74, -62, 91, 0, 56, -2, 10, -1), (42, 49, 33, 16, 44, -22, 68, -1), (67, 17, 33, 35));
}

proof fn lemma_tangent_3_8()
    ensures
        sline_eval(g1p(26, 45), g1p(26, 45), dq(1, 2)) == Some((gt_of(47, 27), g1p(32, 42))),
{
    lemma_tangent_at((26, 45), (1, 2), (0, 90, 55, 49, 36, 1104, 32, 12, 42, -3), (74, -10, 36, 0, 85, -2, 65, -1), (10, 47, 43, 20, 96, -15, 58, -1), (47, 43, 27, 73));
}

proof fn lemma_tangent_4_8()
    ensures
        sline_eval(g1p(65, 98), g1p(65, 98), dq(1, 2)) == Some((gt_of(91, 77), g1p(18, 49))),
{
    lemma_tangent_at((65, 98), (1, 2), (1, 95, 84, 79, 59, 10541, 18, 33, 49, 26), (3, -38, 59, 0, 2, -1, 42, -1), (3, 40, 48, 19, 98, -10, 53, -1), (91, -21, 77, 19));
}

proof fn lemma_tangent_5_8()
    ensures
        sline_eval(g1p(12, 32), g1p(12, 32), dq(1, 2)) == Some((gt_of(28, 27), g1p(91, 66))),
{
    lemma_tangent_at((12, 32), (1, 2), (0, 64, 30, 19, 32, 128, 91, 9, 66, -26), (20, -4, 32, 0, 51, -1, 69, -1), (82, 91, 10, 9, 90, -10, 91, -1), (28, -17, 27, 45));
}

proof fn lemma_tangent_6_8()
    ensures
        sline_eval(g1p(32, 42), g1p(32, 42), dq(1, 2)) == Some((gt_of(75, 33), g1p(12, 69))),
{
    lemma_tangent_at((32, 42), (1, 2), (0, 84, 95, 79, 51, 2889, 12, 25, 69, 9), (85, -17, 51, 0, 77, -2, 50, -1), (1, 56, 92, 51, 16, -12, 9, -1), (75, 7, 33, 10));
}

proof fn lemma_tangent_7_8()
    ensures
        sline_eval(g1p(91, 35), g1p(91, 35), dq(1, 2)) == Some((gt_of(77, 65), g1p(26, 56))),
{
    lemma_tangent_at((91, 35), (1, 2), (0, 70, 13, 9, 62, 3197, 26, 36, 56, 39), (14, -56, 62, 0, 54, -1, 39, -1), (6, 97, 25, 24, 32, -7, 76, -1), (77, -13, 65, 23));
}

proof fn lemma_tangent_8_8()
    ensures
        sline_eval(g1p(18, 49), g1p(18, 49), dq(1, 2)) == Some((gt_of(21, 0), g1p(1, 99))),
{
    lemma_tangent_at((18, 49), (1, 2), (0, 98, 67, 65, 80, 644, 1, 63, 99, 12), (75, -15, 80, 0, 80, -2, 21, -1), (0, 3, 34, 1, 33, -1, 67, -1), (21, 12, 0, 46));
}

proof fn lemma_tangent_9_8()
    ensures
        sline_eval(g1p(18, 52), g1p(18, 52), dq(1, 2)) == Some((gt_of(10, 66), g1p(1, 2))),
{
    lemma_tangent_at((18, 52), (1, 2), (1, 3, 34, 1, 21, 327, 1, 4, 2, 3), (26, -4, 21, 0, 25, -1, 80, -1), (0, 3, 34, 1, 33, -1, 67, -1), (10, -45, 66, -11));
}

proof fn lemma_tangent_10_8()
    ensures
        sline_eval(g1p(91, 66), g1p(91, 66), dq(1, 2)) == Some((gt_of(51, 37), g1p(26, 45))),
{
    lemma_tangent_at((91, 66), (1, 2), (1, 31, 88, 27, 39, 21645, 26, 13, 45, 24), (87, -36, 39, 0, 51, -2, 62, -1), (6, 97, 25, 24, 32, -7, 76, -1), (51, -31, 37, 11));
}

proof fn lemma_tangent_11_8()
    ensures
        sline_eval(g1p(32, 59), g1p(32, 59), dq(1, 2)) == Some((gt_of(90, 3), g1p(12, 32))),
{
    lemma_tangent_at((32, 59), (1, 2), (1, 17, 6, 1, 50, 182, 12, 24, 32, 9), (16, -16, 50, 0, 28, -1, 51, -1), (1, 56, 92, 51, 16, -12, 9, -1), (90, -1, 3, 6));
}

proof fn lemma_tangent_12_8()
    ensures
        sline_eval(g1p(12, 69), g1p(12, 69), dq(1, 2)) == Some((gt_of(29, 34), g1p(91, 35))),
{
    lemma_tangent_at((12, 69), (1, 2), (1, 37, 71, 26, 69, 303, 91, 46, 35, -55), (81, -9, 69, 0, 54, -2, 32, -1), (82, 91, 10, 9, 90, -10, 91, -1), (29, 19, 34, 48));
}

proof fn lemma_tangent_13_8()
    ensures
        sline_eval(g1p(65, 3), g1p(65, 3), dq(1, 2)) == Some((gt_of(99, 34), g1p(18, 52))),
{
    lemma_tangent_at((65, 3), (1, 2), (0, 6, 17, 1, 42, 2133, 18, 16, 52, 19), (98, -28, 42, 0, 2, -1, 59, -1), (3, 40, 48, 19, 98, -10, 53, -1), (99, -30, 34, 27));
}

proof fn lemma_tangent_14_8()
    ensures
        sline_eval(g1p(26, 56), g1p(26, 56), dq(1, 2)) == Some((gt_of(34, 3), g1p(32, 59))),
{
    lemma_tangent_at((26, 56), (1, 2), (1, 11, 46, 5, 65, 923, 32, 41, 59, -5), (27, -17, 65, 0, 20, -1, 36, -1), (10, 47, 43, 20, 96, -15, 58, -1), (34, -2, 3, 25));
}

proof fn lemma_tangent_15_8()
    ensures
        sline_eval(g1p(68, 27), g1p(68, 27), dq(1, 2)) == Some((gt_of(8, 37), g1p(65, 3))),
{
    lemma_tangent_at((68, 27), (1, 2), (0, 54, 58, 31, 10, 7966, 65, -1, 3, 0), (27, -7, 10, 0, 49, -1, 91, -1), (42, 49, 33, 16, 44, -22, 68, -1), (8, -40, 37, 11));
}

proof fn lemma_tangent_16_8()
    ensures
        sline_eval(g1p(1, 99), g1p(1, 99), dq(1, 2)) == Some((gt_of(35, 66), g1p(68, 27))),
{
    lemma_tangent_at((1, 99), (1, 2), (1, 97, 25, 24, 75, 0, 68, 55, 27, -51), (26, -1, 75, 0, 79, -2, 26, -1), (46, 47, 43, 20, 63, -30, 58, -1), (35, 34, 66, 46));
}

proof fn lemma_tangent_1_9()
    ensures
        sline_eval(g1p(1, 2), g1p(1, 2), dq(75, 1)) == Some((gt_of(14, 57), g1p(68, 74))),
{
    lemma_tangent_at((1, 2), (75, 1), (0, 4, 76, 3, 26, 2, 68, 6, 74, -18), (75, -1, 31, 19, 25, -1, 70, -1), (151, 98, 67, 65, 14, -95, 25, -50), (14, -14, 57, -2));
}

proof fn lemma_tangent_2_9()
    ensures
        sline_eval(g1p(68, 74), g1p(68, 74), dq(75, 1)) == Some((gt_of(64, 65), g1p(65, 98))),
{
    lemma_tangent_at((68, 74), (75, 1), (1, 47, 43, 20, 91, 5905, 65, 80, 98, 1), (74, -62, 58, 67, 55, -2, 43, -1), (145, 80, 24, 19, 74, -34, 18, -18), (64, 32, 65, 33));
}

proof fn lemma_tangent_3_9()
    ensures
        sline_eval(g1p(26, 45), g1p(26, 45), dq(75, 1)) == Some((gt_of(91, 22), g1p(32, 42))),
{
    lemma_tangent_at((26, 45), (75, 1), (0, 90, 55, 49, 36, 1104, 32, 12, 42, -3), (74, -10, 74, 26, 84, -2, 27, -1), (89, 60, 32, 19, 10, -34, 24, -24), (91, 1, 22, 16));
}

proof fn lemma_tangent_4_9()
    ensures
        sline_eval(g1p(65, 98), g1p(65, 98), dq(75, 1)) == Some((gt_of(83, 7), g1p(18, 49))),
{
    lemma_tangent_at((65, 98), (75, 1), (1, 95, 84, 79, 59, 10541, 18, 33, 49, 26), (3, -38, 82, 43, 1, -1, 19, -1), (72, 27, 15, 4, 19, -14, 87, -12), (83, -17, 7, -12));
}

proof fn lemma_tangent_5_9()
    ensures
        sline_eval(g1p(12, 32), g1p(12, 32), dq(75, 1)) == Some((gt_of(53, 67), g1p(91, 66))),
{
    lemma_tangent_at((12, 32), (75, 1), (0, 64, 30, 19, 32, 128, 91, 9, 66, -26), (20, -4, 77, 23, 50, -1, 24, -1), (205, 26, 35, 9, 48, -58, 1, -26), (53, 23, 67, 11));
}

proof fn lemma_tangent_6_9()
    ensures
        sline_eval(g1p(32, 42), g1p(32, 42), dq(75, 1)) == Some((gt_of(40, 68), g1p(12, 69))),
{
    lemma_tangent_at((32, 42), (75, 1), (0, 84, 95, 79, 51, 2889, 12, 25, 69, 9), (85, -17, 88, 37, 76, -2, 13, -1), (66, 3, 34, 1, 72, -30, 76, -26), (40, 44, 68, 56));
}

proof fn lemma_tangent_7_9()
    ensures
        sline_eval(g1p(91, 35), g1p(91, 35), dq(75, 1)) == Some((gt_of(39, 76), g1p(26, 56))),
{
    lemma_tangent_at((91, 35), (75, 1), (0, 70, 13, 9, 62, 3197, 26, 36, 56, 39), (14, -56, 4, 46, 53, -1, 97, -1), (81, 70, 13, 9, 0, -13, 35, -10), (39, -34, 76, -16));
}

proof fn lemma_tangent_8_9()
    ensures
        sline_eval(g1p(18, 49), g1p(18, 49), dq(75, 1)) == Some((gt_of(99, 69), g1p(1, 99))),
{
    lemma_tangent_at((18, 49), (75, 1), (0, 98, 67, 65, 80, 644, 1, 63, 99, 12), (75, -15, 41, 59, 79, -2, 60, -1), (56, 45, 9, 4, 23, -7, 32, -7), (99, -2, 69, 19));
}

proof fn lemma_tangent_9_9()
    ensures
        sline_eval(g1p(18, 52), g1p(18, 52), dq(75, 1)) == Some((gt_of(48, 96), g1p(1, 2))),
{
    lemma_tangent_at((18, 52), (75, 1), (1, 3, 34, 1, 21, 327, 1, 4, 2, 3), (26, -4, 60, 15, 24, -1, 41, -1), (56, 45, 9, 4, 23, -7, 32, -7), (48, -8, 96, 3));
}

proof fn lemma_tangent_10_9()
    ensures
        sline_eval(g1p(91, 66), g1p(91, 66), dq(75, 1)) == Some((gt_of(62, 95), g1p(26, 45))),
{
    lemma_tangent_at((91, 66), (75, 1), (1, 31, 88, 27, 39, 21645, 26, 13, 45, 24), (87, -36, 97, 28, 50, -2, 4, -1), (81, 70, 13, 9, 0, -13, 35, -10), (62, -2, 95, 15));
}

proof fn lemma_tangent_11_9()
    ensures
        sline_eval(g1p(32, 59), g1p(32, 59), dq(75, 1)) == Some((gt_of(3, 84), g1p(12, 32))),
{
    lemma_tangent_at((32, 59), (75, 1), (1, 17, 6, 1, 50, 182, 12, 24, 32, 9), (16, -16, 13, 37, 27, -1, 88, -1), (66, 3, 34, 1, 72, -30, 76, -26), (3, -47, 84, 16));
}

proof fn lemma_tangent_12_9()
    ensures
        sline_eval(g1p(12, 69), g1p(12, 69), dq(75, 1)) == Some((gt_of(43, 36), g1p(91, 35))),
{
    lemma_tangent_at((12, 69), (75, 1), (1, 37, 71, 26, 69, 303, 91, 46, 35, -55), (81, -9, 24, 51, 53, -2, 77, -1), (205, 26, 35, 9, 48, -58, 1, -26), (43, 24, 36, 36));
}

proof fn lemma_tangent_13_9()
    ensures
        sline_eval(g1p(65, 3), g1p(65, 3), dq(75, 1)) == Some((gt_of(56, 66), g1p(18, 52))),
{
    lemma_tangent_at((65, 3), (75, 1), (0, 6, 17, 1, 42, 2133, 18, 16, 52, 19), (98, -28, 19, 31, 1, -1, 82, -1), (72, 27, 15, 4, 19, -14, 87, -12), (56, -71, 66, -55));
}

proof fn lemma_tangent_14_9()
    ensures
        sline_eval(g1p(26, 56), g1p(26, 56), dq(75, 1)) == Some((gt_of(30, 26), g1p(32, 59))),
{
    lemma_tangent_at((26, 56), (75, 1), (1, 11, 46, 5, 65, 923, 32, 41, 59, -5), (27, -17, 27, 48, 19, -1, 74, -1), (89, 60, 32, 19, 10, -34, 24, -24), (30, -16, 26, -6));
}

proof fn lemma_tangent_15_9()
    ensures
        sline_eval(g1p(68, 27), g1p(68, 27), dq(75, 1)) == Some((gt_of(84, 72), g1p(65, 3))),
{
    lemma_tangent_at((68, 27), (75, 1), (0, 54, 58, 31, 10, 7966, 65, -1, 3, 0), (27, -7, 43, 7, 48, -1, 58, -1), (145, 80, 24, 19, 74, -34, 18, -18), (84, 24, 72, 40));
}

proof fn lemma_tangent_16_9()
    ensures
        sline_eval(g1p(1, 99), g1p(1, 99), dq(75, 1)) == Some((gt_of(14, 94), g1p(68, 27))),
{
    lemma_tangent_at((1, 99), (75, 1), (1, 97, 25, 24, 75, 0, 68, 55, 27, -51), (26, -1, 70, 55, 78, -2, 31, -1), (151, 98, 67, 65, 14, -95, 25, -50), (14, 3, 94, 15));
}

proof fn lemma_tangent_1_10()
    ensures
        sline_eval(g1p(1, 2), g1p(1, 2), dq(26, 56)) == Some((gt_of(24, 74), g1p(68, 74))),
{
    lemma_tangent_at((1, 2), (26, 56), (0, 4, 76, 3, 26, 2, 68, 6, 74, -18), (75, -1, 70, 6, 80, -1, 31, -1), (69, 99, 50, 49, 47, -47, 13, -13), (24, 33, 74, 20));
}

proof fn lemma_tangent_2_10()
    ensures
        sline_eval(g1p(68, 74), g1p(68, 74), dq(26, 56)) == Some((gt_of(77, 48), g1p(65, 98))),
{
    lemma_tangent_at((68, 74), (26, 56), (1, 47, 43, 20, 91, 5905, 65, 80, 98, 1), (74, -62, 43, 23, 9, -1, 58, -1), (65, 26, 35, 9, 47, -32, 100, -10), (77, -54, 48, -22));
}

proof fn lemma_tangent_3_10()
    ensures
        sline_eval(g1p(26, 45), g1p(26, 45), dq(26, 56)) == Some((gt_of(61, 40), g1p(32, 42))),
{
    lemma_tangent_at((26, 45), (26, 56), (0, 90, 55, 49, 36, 1104, 32, 12, 42, -3), (74, -10, 27, 9, 38, -1, 74, -1), (25, 7, 29, 2, 35, -17, 54, -8), (61, -27, 40, 6));
}

proof fn lemma_tangent_4_10()
    ensures
        sline_eval(g1p(65, 98), g1p(65, 98), dq(26, 56)) == Some((gt_of(35, 28), g1p(18, 49))),
{
    lemma_tangent_at((65, 98), (26, 56), (1, 95, 84, 79, 59, 10541, 18, 33, 49, 26), (3, -38, 19, 15, 56, -1, 82, -1), (14, 54, 58, 31, 74, -26, 7, -15), (35, 35, 28, 58));
}

proof fn lemma_tangent_5_10()
    ensures
        sline_eval(g1p(12, 32), g1p(12, 32), dq(26, 56)) == Some((gt_of(66, 33), g1p(91, 66))),
{
    lemma_tangent_at((12, 32), (26, 56), (0, 64, 30, 19, 32, 128, 91, 9, 66, -26), (20, -4, 24, 8, 4, 0, 77, -1), (112, 11, 46, 5, 72, -54, 16, -12), (66, -10, 33, 43));
}

proof fn lemma_tangent_6_10()
    ensures
        sline_eval(g1p(32, 42), g1p(32, 42), dq(26, 56)) == Some((gt_of(21, 28), g1p(12, 69))),
{
    lemma_tangent_at((32, 42), (26, 56), (0, 84, 95, 79, 51, 2889, 12, 25, 69, 9), (85, -17, 13, 13, 30, -1, 88, -1), (11, 21, 77, 16, 3, -29, 18, -20), (21, -15, 28, -8));
}

proof fn lemma_tangent_7_10()
    ensures
        sline_eval(g1p(91, 35), g1p(91, 35), dq(26, 56)) == Some((gt_of(18, 40), g1p(26, 56))),
{
    lemma_tangent_at((91, 35), (26, 56), (0, 70, 13, 9, 62, 3197, 26, 36, 56, 39), (14, -56, 97, 15, 7, 0, 4, -1), (20, 8, 38, 3, 44, -20, 22, -10), (18, 2, 40, 2));
}

proof fn lemma_tangent_8_10()
    ensures
        sline_eval(g1p(18, 49), g1p(18, 49), dq(26, 56)) == Some((gt_of(32, 48), g1p(1, 99))),
{
    lemma_tangent_at((18, 49), (26, 56), (0, 98, 67, 65, 80, 644, 1, 63, 99, 12), (75, -15, 60, 20, 33, -1, 41, -1), (6, 97, 25, 24, 32, -7, 57, -7), (32, -13, 48, 8));
}

proof fn lemma_tangent_9_10()
    ensures
        sline_eval(g1p(18, 52), g1p(18, 52), dq(26, 56)) == Some((gt_of(17, 74), g1p(1, 2))),
{
    lemma_tangent_at((18, 52), (26, 56), (1, 3, 34, 1, 21, 327, 1, 4, 2, 3), (26, -4, 41, 5, 79, -1, 60, -1), (6, 97, 25, 24, 32, -7, 57, -7), (17, -9, 74, 29));
}

proof fn lemma_tangent_10_10()
    ensures
        sline_eval(g1p(91, 66), g1p(91, 66), dq(26, 56)) == Some((gt_of(62, 0), g1p(26, 45))),
{
    lemma_tangent_at((91, 66), (26, 56), (1, 31, 88, 27, 39, 21645, 26, 13, 45, 24), (87, -36, 4, 10, 4, -1, 97, -1), (20, 8, 38, 3, 44, -20, 22, -10), (62, -20, 0, 22));
}

proof fn lemma_tangent_11_10()
    ensures
        sline_eval(g1p(32, 59), g1p(32, 59), dq(26, 56)) == Some((gt_of(12, 69), g1p(12, 32))),
{
    lemma_tangent_at((32, 59), (26, 56), (1, 17, 6, 1, 50, 182, 12, 24, 32, 9), (16, -16, 88, 12, 82, -1, 13, -1), (11, 21, 77, 16, 3, -29, 18, -20), (12, 0, 69, 12));
}

proof fn lemma_tangent_12_10()
    ensures
        sline_eval(g1p(12, 69), g1p(12, 69), dq(26, 56)) == Some((gt_of(19, 42), g1p(91, 35))),
{
    lemma_tangent_at((12, 69), (26, 56), (1, 37, 71, 26, 69, 303, 91, 46, 35, -55), (81, -9, 77, 17, 7, -1, 24, -1), (112, 11, 46, 5, 72, -54, 16, -12), (19, 1, 42, 14));
}

proof fn lemma_tangent_13_10()
    ensures
        sline_eval(g1p(65, 3), g1p(65, 3), dq(26, 56)) == Some((gt_of(72, 49), g1p(18, 52))),
{
    lemma_tangent_at((65, 3), (26, 56), (0, 6, 17, 1, 42, 2133, 18, 16, 52, 19), (98, -28, 82, 10, 56, -1, 19, -1), (14, 54, 58, 31, 74, -26, 7, -15), (72, 39, 49, 16));
}

proof fn lemma_tangent_14_10()
    ensures
        sline_eval(g1p(26, 56), g1p(26, 56), dq(26, 56)) == Some((gt_of(21, 49), g1p(32, 59))),
{
    lemma_tangent_at((26, 56), (26, 56), (1, 11, 46, 5, 65, 923, 32, 41, 59, -5), (27, -17, 74, 16, 74, -1, 27, -1), (25, 7, 29, 2, 35, -17, 54, -8), (21, 11, 49, 34));
}

proof fn lemma_tangent_15_10()
    ensures
        sline_eval(g1p(68, 27), g1p(68, 27), dq(26, 56)) == Some((gt_of(36, 42), g1p(65, 3))),
{
    lemma_tangent_at((68, 27), (26, 56), (0, 54, 58, 31, 10, 7966, 65, -1, 3, 0), (27, -7, 58, 2, 2, 0, 43, -1), (65, 26, 35, 9, 47, -32, 100, -10), (36, -42, 42, -21));
}

proof fn lemma_tangent_16_10()
    ensures
        sline_eval(g1p(1, 99), g1p(1, 99), dq(26, 56)) == Some((gt_of(89, 69), g1p(68, 27))),
{
    lemma_tangent_at((1, 99), (26, 56), (1, 97, 25, 24, 75, 0, 68, 55, 27, -51), (26, -1, 31, 19, 32, -1, 70, -1), (69, 99, 50, 49, 47, -47, 13, -13), (89, 5, 69, 27));
}

proof fn lemma_tangent_1_11()
    ensures
        sline_eval(g1p(1, 2), g1p(1, 2), dq(58, 36)) == Some((gt_of(95, 6), g1p(68, 74))),
{
    lemma_tangent_at((1, 2), (58, 36), (0, 4, 76, 3, 26, 2, 68, 6, 74, -18), (75, -1, 94, 14, 60, -1, 7, -1), (118, 14, 65, 9, 92, -82, 68, -38), (95, 49, 6, 42));
}

proof fn lemma_tangent_2_11()
    ensures
        sline_eval(g1p(68, 74), g1p(68, 74), dq(58, 36)) == Some((gt_of(1, 13), g1p(65, 98))),
{
    lemma_tangent_at((68, 74), (58, 36), (1, 47, 43, 20, 91, 5905, 65, 80, 98, 1), (74, -62, 26, 52, 90, -2, 75, -1), (112, 47, 43, 20, 64, -53, 31, -25), (1, 34, 13, 52));
}

proof fn lemma_tangent_3_11()
    ensures
        sline_eval(g1p(26, 45), g1p(26, 45), dq(58, 36)) == Some((gt_of(51, 83), g1p(32, 42))),
{
    lemma_tangent_at((26, 45), (58, 36), (0, 90, 55, 49, 36, 1104, 32, 12, 42, -3), (74, -10, 68, 20, 18, -1, 33, -1), (61, 83, 28, 23, 5, -25, 93, -17), (51, -30, 83, -13));
}

proof fn lemma_tangent_4_11()
    ensures
        sline_eval(g1p(65, 98), g1p(65, 98), dq(58, 36)) == Some((gt_of(35, 93), g1p(18, 49))),
{
    lemma_tangent_at((65, 98), (58, 36), (1, 95, 84, 79, 59, 10541, 18, 33, 49, 26), (3, -38, 89, 33, 36, -1, 12, -1), (46, 86, 74, 63, 32, -56, 51, -43), (35, 5, 93, 15));
}

proof fn lemma_tangent_5_11()
    ensures
        sline_eval(g1p(12, 32), g1p(12, 32), dq(58, 36)) == Some((gt_of(97, 17), g1p(91, 66))),
{
    lemma_tangent_at((12, 32), (58, 36), (0, 64, 30, 19, 32, 128, 91, 9, 66, -26), (20, -4, 38, 18, 85, -1, 63, -1), (167, 56, 92, 51, 28, -136, 17, -53), (97, 12, 17, 21));
}

proof fn lemma_tangent_6_11()
    ensures
        sline_eval(g1p(32, 42), g1p(32, 42), dq(58, 36)) == Some((gt_of(68, 38), g1p(12, 69))),
{
    lemma_tangent_at((32, 42), (58, 36), (0, 84, 95, 79, 51, 2889, 12, 25, 69, 9), (85, -17, 29, 29, 10, -1, 72, -1), (41, 63, 93, 58, 55, -65, 60, -54), (68, -38, 38, 2));
}

proof fn lemma_tangent_7_11()
    ensures
        sline_eval(g1p(91, 35), g1p(91, 35), dq(58, 36)) == Some((gt_of(32, 12), g1p(26, 56))),
{
    lemma_tangent_at((91, 35), (58, 36), (0, 70, 13, 9, 62, 3197, 26, 36, 56, 39), (14, -56, 61, 35, 88, -1, 40, -1), (54, 94, 72, 67, 12, -60, 66, -42), (32, -16, 12, 36));
}

proof fn lemma_tangent_8_11()
    ensures
        sline_eval(g1p(18, 49), g1p(18, 49), dq(58, 36)) == Some((gt_of(84, 14), g1p(1, 99))),
{
    lemma_tangent_at((18, 49), (58, 36), (0, 98, 67, 65, 80, 644, 1, 63, 99, 12), (75, -15, 95, 45, 13, -1, 6, -1), (33, 90, 55, 49, 88, -33, 42, -32), (84, 8, 14, 8));
}

proof fn lemma_tangent_9_11()
    ensures
        sline_eval(g1p(18, 52), g1p(18, 52), dq(58, 36)) == Some((gt_of(91, 81), g1p(1, 2))),
{
    lemma_tangent_at((18, 52), (58, 36), (1, 3, 34, 1, 21, 327, 1, 4, 2, 3), (26, -4, 6, 12, 59, -1, 95, -1), (33, 90, 55, 49, 88, -33, 42, -32), (91, 11, 81, 67));
}

proof fn lemma_tangent_10_11()
    ensures
        sline_eval(g1p(91, 66), g1p(91, 66), dq(58, 36)) == Some((gt_of(24, 94), g1p(26, 45))),
{
    lemma_tangent_at((91, 66), (58, 36), (1, 31, 88, 27, 39, 21645, 26, 13, 45, 24), (87, -36, 40, 22, 85, -2, 61, -1), (54, 94, 72, 67, 12, -60, 66, -42), (24, -30, 94, 22));
}

proof fn lemma_tangent_11_11()
    ensures
        sline_eval(g1p(32, 59), g1p(32, 59), dq(58, 36)) == Some((gt_of(54, 40), g1p(12, 32))),
{
    lemma_tangent_at((32, 59), (58, 36), (1, 17, 6, 1, 50, 182, 12, 24, 32, 9), (16, -16, 72, 28, 62, -1, 29, -1), (41, 63, 93, 58, 55, -65, 60, -54), (54, 16, 40, 35));
}

proof fn lemma_tangent_12_11()
    ensures
        sline_eval(g1p(12, 69), g1p(12, 69), dq(58, 36)) == Some((gt_of(0, 96), g1p(91, 35))),
{
    lemma_tangent_at((12, 69), (58, 36), (1, 37, 71, 26, 69, 303, 91, 46, 35, -55), (81, -9, 63, 39, 88, -2, 38, -1), (167, 56, 92, 51, 28, -136, 17, -53), (0, 18, 96, 18));
}

proof fn lemma_tangent_13_11()
    ensures
        sline_eval(g1p(65, 3), g1p(65, 3), dq(58, 36)) == Some((gt_of(47, 44), g1p(18, 52))),
{
    lemma_tangent_at((65, 3), (58, 36), (0, 6, 17, 1, 42, 2133, 18, 16, 52, 19), (98, -28, 12, 24, 36, -1, 89, -1), (46, 86, 74, 63, 32, -56, 51, -43), (47, -34, 44, 1));
}

proof fn lemma_tangent_14_11()
    ensures
        sline_eval(g1p(26, 56), g1p(26, 56), dq(58, 36)) == Some((gt_of(6, 48), g1p(32, 59))),
{
    lemma_tangent_at((26, 56), (58, 36), (1, 11, 46, 5, 65, 923, 32, 41, 59, -5), (27, -17, 33, 37, 54, -1, 68, -1), (61, 83, 28, 23, 5, -25, 93, -17), (6, -60, 48, -10));
}

proof fn lemma_tangent_15_11()
    ensures
        sline_eval(g1p(68, 27), g1p(68, 27), dq(58, 36)) == Some((gt_of(62, 98), g1p(65, 3))),
{
    lemma_tangent_at((68, 27), (58, 36), (0, 54, 58, 31, 10, 7966, 65, -1, 3, 0), (27, -7, 75, 5, 83, -1, 26, -1), (112, 47, 43, 20, 64, -53, 31, -25), (62, 44, 98, 33));
}

proof fn lemma_tangent_16_11()
    ensures
        sline_eval(g1p(1, 99), g1p(1, 99), dq(58, 36)) == Some((gt_of(65, 42), g1p(68, 27))),
{
    lemma_tangent_at((1, 99), (58, 36), (1, 97, 25, 24, 75, 0, 68, 55, 27, -51), (26, -1, 7, 43, 12, -1, 94, -1), (118, 14, 65, 9, 92, -82, 68, -38), (65, -53, 42, 30));
}

proof fn lemma_tangent_1_12()
    ensures
        sline_eval(g1p(1, 2), g1p(1, 2), dq(91, 66)) == Some((gt_of(65, 47), g1p(68, 74))),
{
    lemma_tangent_at((1, 2), (91, 66), (0, 4, 76, 3, 26, 2, 68, 6, 74, -18), (75, -1, 43, 23, 90, -1, 58, -1), (189, 4, 76, 3, 36, -120, 53, -69), (65, 1, 47, 37));
}

proof fn lemma_tangent_2_12()
    ensures
        sline_eval(g1p(68, 74), g1p(68, 74), dq(91, 66)) == Some((gt_of(61, 55), g1p(65, 98))),
{
    lemma_tangent_at((68, 74), (91, 66), (1, 47, 43, 20, 91, 5905, 65, 80, 98, 1), (74, -62, 100, 81, 19, -1, 1, -1), (182, 39, 57, 22, 97, -89, 65, -52), (61, 17, 55, 12));
}

proof fn lemma_tangent_3_12()
    ensures
        sline_eval(g1p(26, 45), g1p(26, 45), dq(91, 66)) == Some((gt_of(53, 33), g1p(32, 42))),
{
    lemma_tangent_at((26, 45), (91, 66), (0, 90, 55, 49, 36, 1104, 32, 12, 42, -3), (74, -10, 44, 32, 48, -1, 57, -1), (120, 97, 25, 24, 56, -31, 48, -23), (53, -1, 33, 27));
}

proof fn lemma_tangent_4_12()
    ensures
        sline_eval(g1p(65, 98), g1p(65, 98), dq(91, 66)) == Some((gt_of(73, 37), g1p(18, 49))),
{
    lemma_tangent_at((65, 98), (91, 66), (1, 95, 84, 79, 59, 10541, 18, 33, 49, 26), (3, -38, 16, 53, 66, -1, 85, -1), (101, 42, 89, 37, 96, -97, 82, -81), (73, -7, 37, 65));
}

proof fn lemma_tangent_5_12()
    ensures
        sline_eval(g1p(12, 32), g1p(12, 32), dq(91, 66)) == Some((gt_of(98, 65), g1p(91, 66))),
{
    lemma_tangent_at((12, 32), (91, 66), (0, 64, 30, 19, 32, 128, 91, 9, 66, -26), (20, -4, 84, 28, 14, 0, 17, -1), (245, 98, 67, 65, 27, -121, 64, -61), (98, -8, 65, 2));
}

proof fn lemma_tangent_6_12()
    ensures
        sline_eval(g1p(32, 42), g1p(32, 42), dq(91, 66)) == Some((gt_of(69, 6), g1p(12, 69))),
{
    lemma_tangent_at((32, 42), (91, 66), (0, 84, 95, 79, 51, 2889, 12, 25, 69, 9), (85, -17, 96, 45, 40, -1, 5, -1), (94, 23, 22, 5, 57, -23, 18, -20), (69, 21, 6, 9));
}

proof fn lemma_tangent_7_12()
    ensures
        sline_eval(g1p(91, 35), g1p(91, 35), dq(91, 66)) == Some((gt_of(36, 65), g1p(26, 56))),
{
    lemma_tangent_at((91, 35), (91, 66), (0, 70, 13, 9, 62, 3197, 26, 36, 56, 39), (14, -56, 87, 55, 17, 0, 14, -1), (112, 11, 46, 5, 72, -54, 56, -42), (36, 4, 65, 11));
}

proof fn lemma_tangent_8_12()
    ensures
        sline_eval(g1p(18, 49), g1p(18, 49), dq(91, 66)) == Some((gt_of(24, 37), g1p(1, 99))),
{
    lemma_tangent_at((18, 49), (91, 66), (0, 98, 67, 65, 80, 644, 1, 63, 99, 12), (75, -15, 8, 72, 43, -1, 93, -1), (82, 91, 10, 9, 90, -10, 100, -10), (24, -54, 37, 33));
}

proof fn lemma_tangent_9_12()
    ensures
        sline_eval(g1p(18, 52), g1p(18, 52), dq(91, 66)) == Some((gt_of(39, 33), g1p(1, 2))),
{
    lemma_tangent_at((18, 52), (91, 66), (1, 3, 34, 1, 21, 327, 1, 4, 2, 3), (26, -4, 93, 18, 89, -1, 8, -1), (82, 91, 10, 9, 90, -10, 100, -10), (39, 71, 33, 87));
}

proof fn lemma_tangent_10_12()
    ensures
        sline_eval(g1p(91, 66), g1p(91, 66), dq(91, 66)) == Some((gt_of(75, 55), g1p(26, 45))),
{
    lemma_tangent_at((91, 66), (91, 66), (1, 31, 88, 27, 39, 21645, 26, 13, 45, 24), (87, -36, 14, 35, 14, -1, 87, -1), (112, 11, 46, 5, 72, -54, 56, -42), (75, -39, 55, 21));
}

proof fn lemma_tangent_11_12()
    ensures
        sline_eval(g1p(32, 59), g1p(32, 59), dq(91, 66)) == Some((gt_of(82, 47), g1p(12, 32))),
{
    lemma_tangent_at((32, 59), (91, 66), (1, 17, 6, 1, 50, 182, 12, 24, 32, 9), (16, -16, 5, 45, 92, -1, 96, -1), (94, 23, 22, 5, 57, -23, 18, -20), (82, 34, 47, 53));
}

proof fn lemma_tangent_12_12()
    ensures
        sline_eval(g1p(12, 69), g1p(12, 69), dq(91, 66)) == Some((gt_of(32, 0), g1p(91, 35))),
{
    lemma_tangent_at((12, 69), (91, 66), (1, 37, 71, 26, 69, 303, 91, 46, 35, -55), (81, -9, 17, 62, 17, -1, 84, -1), (245, 98, 67, 65, 27, -121, 64, -61), (32, -49, 0, -20));
}

proof fn lemma_tangent_13_12()
    ensures
        sline_eval(g1p(65, 3), g1p(65, 3), dq(91, 66)) == Some((gt_of(75, 81), g1p(18, 52))),
{
    lemma_tangent_at((65, 3), (91, 66), (0, 6, 17, 1, 42, 2133, 18, 16, 52, 19), (98, -28, 85, 37, 66, -1, 16, -1), (101, 42, 89, 37, 96, -97, 82, -81), (75, 49, 81, 55));
}

proof fn lemma_tangent_14_12()
    ensures
        sline_eval(g1p(26, 56), g1p(26, 56), dq(91, 66)) == Some((gt_of(67, 41), g1p(32, 59))),
{
    lemma_tangent_at((26, 56), (91, 66), (1, 11, 46, 5, 65, 923, 32, 41, 59, -5), (27, -17, 57, 58, 84, -1, 44, -1), (120, 97, 25, 24, 56, -31, 48, -23), (67, 25, 41, 43));
}

proof fn lemma_tangent_15_12()
    ensures
        sline_eval(g1p(68, 27), g1p(68, 27), dq(91, 66)) == Some((gt_of(17, 41), g1p(65, 3))),
{
    lemma_tangent_at((68, 27), (91, 66), (0, 54, 58, 31, 10, 7966, 65, -1, 3, 0), (27, -7, 1, 9, 12, 0, 100, -1), (182, 39, 57, 22, 97, -89, 65, -52), (17, -53, 41, 39));
}

proof fn lemma_tangent_16_12()
    ensures
        sline_eval(g1p(1, 99), g1p(1, 99), dq(91, 66)) == Some((gt_of(41, 81), g1p(68, 27))),
{
    lemma_tangent_at((1, 99), (91, 66), (1, 97, 25, 24, 75, 0, 68, 55, 27, -51), (26, -1, 58, 67, 42, -1, 43, -1), (189, 4, 76, 3, 36, -120, 53, -69), (41, -8, 81, 14));
}

proof fn lemma_tangent_1_13()
    ensures
        sline_eval(g1p(1, 2), g1p(1, 2), dq(60, 60)) == Some((gt_of(74, 9), g1p(68, 74))),
{
    lemma_tangent_at((1, 2), (60, 60), (0, 4, 76, 3, 26, 2, 68, 6, 74, -18), (75, -1, 45, 15, 84, -1, 56, -1), (121, 83, 28, 23, 52, -36, 37, -17), (74, 22, 9, 39));
}

proof fn lemma_tangent_2_13()
    ensures
        sline_eval(g1p(68, 74), g1p(68, 74), dq(60, 60)) == Some((gt_of(60, 24), g1p(65, 98))),
{
    lemma_tangent_at((68, 74), (60, 60), (1, 47, 43, 20, 91, 5905, 65, 80, 98, 1), (74, -62, 6, 54, 13, -1, 95, -1), (116, 9, 45, 4, 31, -56, 27, -27), (60, -22, 24, 7));
}

proof fn lemma_tangent_3_13()
    ensures
        sline_eval(g1p(26, 45), g1p(26, 45), dq(60, 60)) == Some((gt_of(79, 75), g1p(32, 42))),
{
    lemma_tangent_at((26, 45), (60, 60), (0, 90, 55, 49, 36, 1104, 32, 12, 42, -3), (74, -10, 39, 21, 42, -1, 62, -1), (64, 80, 24, 19, 14, -22, 75, -15), (79, -41, 75, -7));
}

proof fn lemma_tangent_4_13()
    ensures
        sline_eval(g1p(65, 98), g1p(65, 98), dq(60, 60)) == Some((gt_of(38, 28), g1p(18, 49))),
{
    lemma_tangent_at((65, 98), (60, 60), (1, 95, 84, 79, 59, 10541, 18, 33, 49, 26), (3, -38, 5, 35, 60, -1, 96, -1), (49, 55, 90, 49, 50, -70, 54, -54), (38, -22, 28, 28));
}

proof fn lemma_tangent_5_13()
    ensures
        sline_eval(g1p(12, 32), g1p(12, 32), dq(60, 60)) == Some((gt_of(80, 94), g1p(91, 66))),
{
    lemma_tangent_at((12, 32), (60, 60), (0, 64, 30, 19, 32, 128, 91, 9, 66, -26), (20, -4, 1, 19, 8, 0, 100, -1), (171, 70, 13, 9, 57, -20, 28, -8), (80, -24, 94, 30));
}

proof fn lemma_tangent_6_13()
    ensures
        sline_eval(g1p(32, 42), g1p(32, 42), dq(60, 60)) == Some((gt_of(30, 17), g1p(12, 69))),
{
    lemma_tangent_at((32, 42), (60, 60), (0, 84, 95, 79, 51, 2889, 12, 25, 69, 9), (85, -17, 30, 30, 34, -1, 71, -1), (44, 20, 96, 19, 57, -69, 98, -58), (30, -50, 17, 4));
}

proof fn lemma_tangent_7_13()
    ensures
        sline_eval(g1p(91, 35), g1p(91, 35), dq(60, 60)) == Some((gt_of(15, 96), g1p(26, 56))),
{
    lemma_tangent_at((91, 35), (60, 60), (0, 70, 13, 9, 62, 3197, 26, 36, 56, 39), (14, -56, 84, 36, 11, 0, 17, -1), (57, 79, 78, 61, 59, -67, 67, -47), (15, -5, 96, 5));
}

proof fn lemma_tangent_8_13()
    ensures
        sline_eval(g1p(18, 49), g1p(18, 49), dq(60, 60)) == Some((gt_of(33, 83), g1p(1, 99))),
{
    lemma_tangent_at((18, 49), (60, 60), (0, 98, 67, 65, 80, 644, 1, 63, 99, 12), (75, -15, 53, 47, 37, -1, 48, -1), (36, 25, 97, 24, 42, -59, 38, -58), (33, -3, 83, 15));
}

proof fn lemma_tangent_9_13()
    ensures
        sline_eval(g1p(18, 52), g1p(18, 52), dq(60, 60)) == Some((gt_of(58, 33), g1p(1, 2))),
{
    lemma_tangent_at((18, 52), (60, 60), (1, 3, 34, 1, 21, 327, 1, 4, 2, 3), (26, -4, 48, 12, 83, -1, 53, -1), (36, 25, 97, 24, 42, -59, 38, -58), (58, 14, 33, 33));
}

proof fn lemma_tangent_10_13()
    ensures
        sline_eval(g1p(91, 66), g1p(91, 66), dq(60, 60)) == Some((gt_of(96, 66), g1p(26, 45))),
{
    lemma_tangent_at((91, 66), (60, 60), (1, 31, 88, 27, 39, 21645, 26, 13, 45, 24), (87, -36, 17, 23, 8, -1, 84, -1), (57, 79, 78, 61, 59, -67, 67, -47), (96, -52, 66, -2));
}

proof fn lemma_tangent_11_13()
    ensures
        sline_eval(g1p(32, 59), g1p(32, 59), dq(60, 60)) == Some((gt_of(43, 27), g1p(12, 32))),
{
    lemma_tangent_at((32, 59), (60, 60), (1, 17, 6, 1, 50, 182, 12, 24, 32, 9), (16, -16, 71, 29, 86, -1, 30, -1), (44, 20, 96, 19, 57, -69, 98, -58), (43, 19, 27, 71));
}

proof fn lemma_tangent_12_13()
    ensures
        sline_eval(g1p(12, 69), g1p(12, 69), dq(60, 60)) == Some((gt_of(94, 34), g1p(91, 35))),
{
    lemma_tangent_at((12, 69), (60, 60), (1, 37, 71, 26, 69, 303, 91, 46, 35, -55), (81, -9, 100, 40, 11, -1, 1, -1), (171, 70, 13, 9, 57, -20, 28, -8), (94, 5, 34, 3));
}

proof fn lemma_tangent_13_13()
    ensures
        sline_eval(g1p(65, 3), g1p(65, 3), dq(60, 60)) == Some((gt_of(3, 89), g1p(18, 52))),
{
    lemma_tangent_at((65, 3), (60, 60), (0, 6, 17, 1, 42, 2133, 18, 16, 52, 19), (98, -28, 96, 24, 60, -1, 5, -1), (49, 55, 90, 49, 50, -70, 54, -54), (3, 27, 89, 31));
}

proof fn lemma_tangent_14_13()
    ensures
        sline_eval(g1p(26, 56), g1p(26, 56), dq(60, 60)) == Some((gt_of(86, 37), g1p(32, 59))),
{
    lemma_tangent_at((26, 56), (60, 60), (1, 11, 46, 5, 65, 923, 32, 41, 59, -5), (27, -17, 62, 38, 78, -1, 39, -1), (64, 80, 24, 19, 14, -22, 75, -15), (86, -19, 37, 34));
}

proof fn lemma_tangent_15_13()
    ensures
        sline_eval(g1p(68, 27), g1p(68, 27), dq(60, 60)) == Some((gt_of(24, 85), g1p(65, 3))),
{
    lemma_tangent_at((68, 27), (60, 60), (0, 54, 58, 31, 10, 7966, 65, -1, 3, 0), (27, -7, 95, 5, 6, 0, 6, -1), (116, 9, 45, 4, 31, -56, 27, -27), (24, 0, 85, 1));
}

proof fn lemma_tangent_16_13()
    ensures
        sline_eval(g1p(1, 99), g1p(1, 99), dq(60, 60)) == Some((gt_of(5, 88), g1p(68, 27))),
{
    lemma_tangent_at((1, 99), (60, 60), (1, 97, 25, 24, 75, 0, 68, 55, 27, -51), (26, -1, 56, 44, 36, -1, 45, -1), (121, 83, 28, 23, 52, -36, 37, -17), (5, 2, 88, 19));
}

proof fn lemma_tangent_1_14()
    ensures
        sline_eval(g1p(1, 2), g1p(1, 2), dq(32, 42)) == Some((gt_of(13, 65), g1p(68, 74))),
{
    lemma_tangent_at((1, 2), (32, 42), (0, 4, 76, 3, 26, 2, 68, 6, 74, -18), (75, -1, 24, 8, 66, -1, 77, -1), (77, 47, 43, 20, 43, -43, 38, -14), (13, -1, 65, 28));
}

proof fn lemma_tangent_2_14()
    ensures
        sline_eval(g1p(68, 74), g1p(68, 74), dq(32, 42)) == Some((gt_of(34, 10), g1p(65, 98))),
{
    lemma_tangent_at((68, 74), (32, 42), (1, 47, 43, 20, 91, 5905, 65, 80, 98, 1), (74, -62, 84, 28, 96, -2, 17, -1), (72, 57, 39, 22, 55, -38, 65, -13), (34, 41, 10, 60));
}

proof fn lemma_tangent_3_14()
    ensures
        sline_eval(g1p(26, 45), g1p(26, 45), dq(32, 42)) == Some((gt_of(38, 37), g1p(32, 42))),
{
    lemma_tangent_at((26, 45), (32, 42), (0, 90, 55, 49, 36, 1104, 32, 12, 42, -3), (74, -10, 41, 11, 24, -1, 60, -1), (30, 42, 89, 37, 61, -57, 81, -29), (38, -34, 37, 7));
}

proof fn lemma_tangent_4_14()
    ensures
        sline_eval(g1p(65, 98), g1p(65, 98), dq(32, 42)) == Some((gt_of(41, 64), g1p(18, 49))),
{
    lemma_tangent_at((65, 98), (32, 42), (1, 95, 84, 79, 59, 10541, 18, 33, 49, 26), (3, -38, 70, 18, 42, -1, 31, -1), (19, 5, 81, 4, 91, -41, 34, -26), (41, 27, 64, 31));
}

proof fn lemma_tangent_5_14()
    ensures
        sline_eval(g1p(12, 32), g1p(12, 32), dq(32, 42)) == Some((gt_of(57, 56), g1p(91, 66))),
{
    lemma_tangent_at((12, 32), (32, 42), (0, 64, 30, 19, 32, 128, 91, 9, 66, -26), (20, -4, 14, 10, 91, -1, 87, -1), (120, 97, 25, 24, 56, -31, 8, -8), (57, 43, 56, 48));
}

proof fn lemma_tangent_6_14()
    ensures
        sline_eval(g1p(32, 42), g1p(32, 42), dq(32, 42)) == Some((gt_of(19, 5), g1p(12, 69))),
{
    lemma_tangent_at((32, 42), (32, 42), (0, 84, 95, 79, 51, 2889, 12, 25, 69, 9), (85, -17, 16, 16, 16, -1, 85, -1), (15, 37, 71, 26, 7, -31, 51, -23), (19, -42, 5, -29));
}

proof fn lemma_tangent_7_14()
    ensures
        sline_eval(g1p(91, 35), g1p(91, 35), dq(32, 42)) == Some((gt_of(35, 57), g1p(26, 56))),
{
    lemma_tangent_at((91, 35), (32, 42), (0, 70, 13, 9, 62, 3197, 26, 36, 56, 39), (14, -56, 65, 19, 94, -1, 36, -1), (25, 7, 29, 2, 35, -17, 82, -10), (35, 3, 57, 59));
}

proof fn lemma_tangent_8_14()
    ensures
        sline_eval(g1p(18, 49), g1p(18, 49), dq(32, 42)) == Some((gt_of(23, 5), g1p(1, 99))),
{
    lemma_tangent_at((18, 49), (32, 42), (0, 98, 67, 65, 80, 644, 1, 63, 99, 12), (75, -15, 35, 25, 19, -1, 66, -1), (10, 47, 43, 20, 96, -15, 38, -14), (23, -7, 5, 45));
}

proof fn lemma_tangent_9_14()
    ensures
        sline_eval(g1p(18, 52), g1p(18, 52), dq(32, 42)) == Some((gt_of(62, 56), g1p(1, 2))),
{
    lemma_tangent_at((18, 52), (32, 42), (1, 3, 34, 1, 21, 327, 1, 4, 2, 3), (26, -4, 66, 6, 65, -1, 35, -1), (10, 47, 43, 20, 96, -15, 38, -14), (62, 48, 56, 44));
}

proof fn lemma_tangent_10_14()
    ensures
        sline_eval(g1p(91, 66), g1p(91, 66), dq(32, 42)) == Some((gt_of(77, 64), g1p(26, 45))),
{
    lemma_tangent_at((91, 66), (32, 42), (1, 31, 88, 27, 39, 21645, 26, 13, 45, 24), (87, -36, 36, 12, 91, -2, 65, -1), (25, 7, 29, 2, 35, -17, 82, -10), (77, -22, 64, 43));
}

proof fn lemma_tangent_11_14()
    ensures
        sline_eval(g1p(32, 59), g1p(32, 59), dq(32, 42)) == Some((gt_of(64, 37), g1p(12, 32))),
{
    lemma_tangent_at((32, 59), (32, 42), (1, 17, 6, 1, 50, 182, 12, 24, 32, 9), (16, -16, 85, 15, 68, -1, 16, -1), (15, 37, 71, 26, 7, -31, 51, -23), (64, -4, 37, 27));
}

proof fn lemma_tangent_12_14()
    ensures
        sline_eval(g1p(12, 69), g1p(12, 69), dq(32, 42)) == Some((gt_of(1, 10), g1p(91, 35))),
{
    lemma_tangent_at((12, 69), (32, 42), (1, 37, 71, 26, 69, 303, 91, 46, 35, -55), (81, -9, 87, 21, 94, -2, 14, -1), (120, 97, 25, 24, 56, -31, 8, -8), (1, 51, 10, 14));
}

proof fn lemma_tangent_13_14()
    ensures
        sline_eval(g1p(65, 3), g1p(65, 3), dq(32, 42)) == Some((gt_of(28, 65), g1p(18, 52))),
{
    lemma_tangent_at((65, 3), (32, 42), (0, 6, 17, 1, 42, 2133, 18, 16, 52, 19), (98, -28, 31, 13, 42, -1, 70, -1), (19, 5, 81, 4, 91, -41, 34, -26), (28, 14, 65, 53));
}

proof fn lemma_tangent_14_14()
    ensures
        sline_eval(g1p(26, 56), g1p(26, 56), dq(32, 42)) == Some((gt_of(36, 0), g1p(32, 59))),
{
    lemma_tangent_at((26, 56), (32, 42), (1, 11, 46, 5, 65, 923, 32, 41, 59, -5), (27, -17, 60, 20, 60, -1, 41, -1), (30, 42, 89, 37, 61, -57, 81, -29), (36, 3, 0, 40));
}

proof fn lemma_tangent_15_14()
    ensures
        sline_eval(g1p(68, 27), g1p(68, 27), dq(32, 42)) == Some((gt_of(41, 97), g1p(65, 3))),
{
    lemma_tangent_at((68, 27), (32, 42), (0, 54, 58, 31, 10, 7966, 65, -1, 3, 0), (27, -7, 17, 3, 89, -1, 84, -1), (72, 57, 39, 22, 55, -38, 65, -13), (41, -6, 97, 48));
}

proof fn lemma_tangent_16_14()
    ensures
        sline_eval(g1p(1, 99), g1p(1, 99), dq(32, 42)) == Some((gt_of(64, 97), g1p(68, 27))),
{
    lemma_tangent_at((1, 99), (32, 42), (1, 97, 25, 24, 75, 0, 68, 55, 27, -51), (26, -1, 77, 23, 18, -1, 24, -1), (77, 47, 43, 20, 43, -43, 38, -14), (64, -2, 97, 7));
}

proof fn lemma_tangent_1_15()
    ensures
        sline_eval(g1p(1, 2), g1p(1, 2), dq(9, 5)) == Some((gt_of(56, 45), g1p(68, 74))),
{
    lemma_tangent_at((1, 2), (9, 5), (0, 4, 76, 3, 26, 2, 68, 6, 74, -18), (75, -1, 32, 2, 29, -1, 69, -1), (52, 65, 14, 9, 33, -11, 76, -2), (56, -43, 45, -8));
}

proof fn lemma_tangent_2_15()
    ensures
        sline_eval(g1p(68, 74), g1p(68, 74), dq(9, 5)) == Some((gt_of(23, 63), g1p(65, 98))),
{
    lemma_tangent_at((68, 74), (9, 5), (1, 47, 43, 20, 91, 5905, 65, 80, 98, 1), (74, -62, 11, 8, 59, -2, 90, -1), (48, 43, 47, 20, 57, -35, 82, -5), (23, -40, 63, 25));
}

proof fn lemma_tangent_3_15()
    ensures
        sline_eval(g1p(26, 45), g1p(26, 45), dq(9, 5)) == Some((gt_of(75, 49), g1p(32, 42))),
{
    lemma_tangent_at((26, 45), (9, 5), (0, 90, 55, 49, 36, 1104, 32, 12, 42, -3), (74, -10, 21, 3, 88, -2, 80, -1), (13, 80, 24, 19, 26, -10, 87, -3), (75, -47, 49, 27));
}

proof fn lemma_tangent_4_15()
    ensures
        sline_eval(g1p(65, 98), g1p(65, 98), dq(9, 5)) == Some((gt_of(25, 28), g1p(18, 49))),
{
    lemma_tangent_at((65, 98), (9, 5), (1, 95, 84, 79, 59, 10541, 18, 33, 49, 26), (3, -38, 26, 5, 5, -1, 75, -1), (5, 62, 44, 27, 24, -12, 8, -4), (25, -5, 28, 12));
}

proof fn lemma_tangent_5_15()
    ensures
        sline_eval(g1p(12, 32), g1p(12, 32), dq(9, 5)) == Some((gt_of(72, 74), g1p(91, 66))),
{
    lemma_tangent_at((12, 32), (9, 5), (0, 64, 30, 19, 32, 128, 91, 9, 66, -26), (20, -4, 86, 2, 54, -1, 15, -1), (90, 91, 10, 9, 10, -10, 11, -1), (72, 3, 74, 5));
}

proof fn lemma_tangent_6_15()
    ensures
        sline_eval(g1p(32, 42), g1p(32, 42), dq(9, 5)) == Some((gt_of(79, 99), g1p(12, 69))),
{
    lemma_tangent_at((32, 42), (9, 5), (0, 84, 95, 79, 51, 2889, 12, 25, 69, 9), (85, -17, 55, 4, 80, -2, 46, -1), (3, 30, 64, 19, 70, -14, 30, -6), (79, 41, 99, 41));
}

proof fn lemma_tangent_7_15()
    ensures
        sline_eval(g1p(91, 35), g1p(91, 35), dq(9, 5)) == Some((gt_of(61, 98), g1p(26, 56))),
{
    lemma_tangent_at((91, 35), (9, 5), (0, 70, 13, 9, 62, 3197, 26, 36, 56, 39), (14, -56, 53, 5, 57, -1, 48, -1), (9, 82, 85, 69, 55, -30, 43, -8), (61, 10, 98, 29));
}

proof fn lemma_tangent_8_15()
    ensures
        sline_eval(g1p(18, 49), g1p(18, 49), dq(9, 5)) == Some((gt_of(24, 33), g1p(1, 99))),
{
    lemma_tangent_at((18, 49), (9, 5), (0, 98, 67, 65, 80, 644, 1, 63, 99, 12), (75, -15, 13, 7, 83, -2, 88, -1), (0, 91, 10, 9, 1, -1, 11, -1), (24, -9, 33, 0));
}

proof fn lemma_tangent_9_15()
    ensures
        sline_eval(g1p(18, 52), g1p(18, 52), dq(9, 5)) == Some((gt_of(87, 77), g1p(1, 2))),
{
    lemma_tangent_at((18, 52), (9, 5), (1, 3, 34, 1, 21, 327, 1, 4, 2, 3), (26, -4, 88, 1, 28, -1, 13, -1), (0, 91, 10, 9, 1, -1, 11, -1), (87, -2, 77, 1));
}

proof fn lemma_tangent_10_15()
    ensures
        sline_eval(g1p(91, 66), g1p(91, 66), dq(9, 5)) == Some((gt_of(85, 29), g1p(26, 45))),
{
    lemma_tangent_at((91, 66), (9, 5), (1, 31, 88, 27, 39, 21645, 26, 13, 45, 24), (87, -36, 48, 3, 54, -2, 53, -1), (9, 82, 85, 69, 55, -30, 43, -8), (85, 6, 29, 29));
}

proof fn lemma_tangent_11_15()
    ensures
        sline_eval(g1p(32, 59), g1p(32, 59), dq(9, 5)) == Some((gt_of(15, 100), g1p(12, 32))),
{
    lemma_tangent_at((32, 59), (9, 5), (1, 17, 6, 1, 50, 182, 12, 24, 32, 9), (16, -16, 46, 4, 31, -1, 55, -1), (3, 30, 64, 19, 70, -14, 30, -6), (15, 5, 100, 30));
}

proof fn lemma_tangent_12_15()
    ensures
        sline_eval(g1p(12, 69), g1p(12, 69), dq(9, 5)) == Some((gt_of(28, 36), g1p(91, 35))),
{
    lemma_tangent_at((12, 69), (9, 5), (1, 37, 71, 26, 69, 303, 91, 46, 35, -55), (81, -9, 15, 6, 57, -2, 86, -1), (90, 91, 10, 9, 10, -10, 11, -1), (28, -4, 36, 5));
}

proof fn lemma_tangent_13_15()
    ensures
        sline_eval(g1p(65, 3), g1p(65, 3), dq(9, 5)) == Some((gt_of(13, 52), g1p(18, 52))),
{
    lemma_tangent_at((65, 3), (9, 5), (0, 6, 17, 1, 42, 2133, 18, 16, 52, 19), (98, -28, 75, 3, 5, -1, 26, -1), (5, 62, 44, 27, 24, -12, 8, -4), (13, -1, 52, 4));
}

proof fn lemma_tangent_14_15()
    ensures
        sline_eval(g1p(26, 56), g1p(26, 56), dq(9, 5)) == Some((gt_of(84, 13), g1p(32, 59))),
{
    lemma_tangent_at((26, 56), (9, 5), (1, 11, 46, 5, 65, 923, 32, 41, 59, -5), (27, -17, 80, 5, 23, -1, 21, -1), (13, 80, 24, 19, 26, -10, 87, -3), (84, -13, 13, 7));
}

proof fn lemma_tangent_15_15()
    ensures
        sline_eval(g1p(68, 27), g1p(68, 27), dq(9, 5)) == Some((gt_of(42, 50), g1p(65, 3))),
{
    lemma_tangent_at((68, 27), (9, 5), (0, 54, 58, 31, 10, 7966, 65, -1, 3, 0), (27, -7, 90, 0, 52, -1, 11, -1), (48, 43, 47, 20, 57, -35, 82, -5), (42, 20, 50, 39));
}

proof fn lemma_tangent_16_15()
    ensures
        sline_eval(g1p(1, 99), g1p(1, 99), dq(9, 5)) == Some((gt_of(72, 8), g1p(68, 27))),
{
    lemma_tangent_at((1, 99), (9, 5), (1, 97, 25, 24, 75, 0, 68, 55, 27, -51), (26, -1, 69, 6, 82, -2, 32, -1), (52, 65, 14, 9, 33, -11, 76, -2), (72, 2, 8, 48));
}

proof fn lemma_tangent_1_16()
    ensures
        sline_eval(g1p(1, 2), g1p(1, 2), dq(68, 74)) == Some((gt_of(28, 27), g1p(68, 74))),
{
    lemma_tangent_at((1, 2), (68, 74), (0, 4, 76, 3, 26, 2, 68, 6, 74, -18), (75, -1, 51, 17, 98, -1, 50, -1), (137, 35, 26, 9, 100, -36, 50, -18), (28, 72, 27, 73));
}

proof fn lemma_tangent_2_16()
    ensures
        sline_eval(g1p(68, 74), g1p(68, 74), dq(68, 74)) == Some((gt_of(14, 59), g1p(65, 98))),
{
    lemma_tangent_at((68, 74), (68, 74), (1, 47, 43, 20, 91, 5905, 65, 80, 98, 1), (74, -62, 27, 61, 27, -1, 74, -1), (131, 38, 8, 3, 47, -11, 62, -6), (14, -33, 59, 5));
}

proof fn lemma_tangent_3_16()
    ensures
        sline_eval(g1p(26, 45), g1p(26, 45), dq(68, 74)) == Some((gt_of(3, 75), g1p(32, 42))),
{
    lemma_tangent_at((26, 45), (68, 74), (0, 90, 55, 49, 36, 1104, 32, 12, 42, -3), (74, -10, 24, 24, 56, -1, 77, -1), (77, 47, 43, 20, 43, -43, 5, -29), (3, 20, 75, 31));
}

proof fn lemma_tangent_4_16()
    ensures
        sline_eval(g1p(65, 98), g1p(65, 98), dq(68, 74)) == Some((gt_of(72, 66), g1p(18, 49))),
{
    lemma_tangent_at((65, 98), (68, 74), (1, 95, 84, 79, 59, 10541, 18, 33, 49, 26), (3, -38, 73, 39, 74, -1, 28, -1), (61, 11, 46, 5, 84, -40, 3, -31), (72, 60, 66, 24));
}

proof fn lemma_tangent_5_16()
    ensures
        sline_eval(g1p(12, 32), g1p(12, 32), dq(68, 74)) == Some((gt_of(59, 44), g1p(91, 66))),
{
    lemma_tangent_at((12, 32), (68, 74), (0, 64, 30, 19, 32, 128, 91, 9, 66, -26), (20, -4, 55, 21, 22, 0, 46, -1), (189, 4, 76, 3, 36, -120, 84, -52), (59, -31, 44, -4));
}

proof fn lemma_tangent_6_16()
    ensures
        sline_eval(g1p(32, 42), g1p(32, 42), dq(68, 74)) == Some((gt_of(63, 6), g1p(12, 69))),
{
    lemma_tangent_at((32, 42), (68, 74), (0, 84, 95, 79, 51, 2889, 12, 25, 69, 9), (85, -17, 34, 34, 48, -1, 67, -1), (55, 29, 7, 2, 46, -6, 29, -5), (63, 2, 6, 25));
}

proof fn lemma_tangent_7_16()
    ensures
        sline_eval(g1p(91, 35), g1p(91, 35), dq(68, 74)) == Some((gt_of(89, 77), g1p(26, 56))),
{
    lemma_tangent_at((91, 35), (68, 74), (0, 70, 13, 9, 62, 3197, 26, 36, 56, 39), (14, -56, 75, 41, 25, 0, 26, -1), (69, 99, 50, 49, 47, -47, 34, -34), (89, 2, 77, 11));
}

proof fn lemma_tangent_8_16()
    ensures
        sline_eval(g1p(18, 49), g1p(18, 49), dq(68, 74)) == Some((gt_of(12, 57), g1p(1, 99))),
{
    lemma_tangent_at((18, 49), (68, 74), (0, 98, 67, 65, 80, 644, 1, 63, 99, 12), (75, -15, 87, 53, 51, -1, 14, -1), (46, 47, 43, 20, 63, -30, 5, -29), (12, 31, 57, 10));
}

proof fn lemma_tangent_9_16()
    ensures
        sline_eval(g1p(18, 52), g1p(18, 52), dq(68, 74)) == Some((gt_of(20, 77), g1p(1, 2))),
{
    lemma_tangent_at((18, 52), (68, 74), (1, 3, 34, 1, 21, 327, 1, 4, 2, 3), (26, -4, 14, 14, 97, -1, 87, -1), (46, 47, 43, 20, 63, -30, 5, -29), (20, 56, 77, 54));
}

proof fn lemma_tangent_10_16()
    ensures
        sline_eval(g1p(91, 66), g1p(91, 66), dq(68, 74)) == Some((gt_of(100, 6), g1p(26, 45))),
{
    lemma_tangent_at((91, 66), (68, 74), (1, 31, 88, 27, 39, 21645, 26, 13, 45, 24), (87, -36, 26, 26, 22, -1, 75, -1), (69, 99, 50, 49, 47, -47, 34, -34), (100, -16, 6, 17));
}

proof fn lemma_tangent_11_16()
    ensures
        sline_eval(g1p(32, 59), g1p(32, 59), dq(68, 74)) == Some((gt_of(79, 44), g1p(12, 32))),
{
    lemma_tangent_at((32, 59), (68, 74), (1, 17, 6, 1, 50, 182, 12, 24, 32, 9), (16, -16, 67, 33, 100, -1, 34, -1), (55, 29, 7, 2, 46, -6, 29, -5), (79, 35, 44, 34));
}

proof fn lemma_tangent_12_16()
    ensures
        sline_eval(g1p(12, 69), g1p(12, 69), dq(68, 74)) == Some((gt_of(17, 66), g1p(91, 35))),
{
    lemma_tangent_at((12, 69), (68, 74), (1, 37, 71, 26, 69, 303, 91, 46, 35, -55), (81, -9, 46, 46, 25, -1, 55, -1), (189, 4, 76, 3, 36, -120, 84, -52), (17, -37, 66, -6));
}

proof fn lemma_tangent_13_16()
    ensures
        sline_eval(g1p(65, 3), g1p(65, 3), dq(68, 74)) == Some((gt_of(38, 75), g1p(18, 52))),
{
    lemma_tangent_at((65, 3), (68, 74), (0, 6, 17, 1, 42, 2133, 18, 16, 52, 19), (98, -28, 28, 28, 74, -1, 73, -1), (61, 11, 46, 5, 84, -40, 3, -31), (38, 59, 75, 60));
}

proof fn lemma_tangent_14_16()
    ensures
        sline_eval(g1p(26, 56), g1p(26, 56), dq(68, 74)) == Some((gt_of(99, 59), g1p(32, 59))),
{
    lemma_tangent_at((26, 56), (68, 74), (1, 11, 46, 5, 65, 923, 32, 41, 59, -5), (27, -17, 77, 43, 92, -1, 24, -1), (77, 47, 43, 20, 43, -43, 5, -29), (99, 37, 59, 13));
}

proof fn lemma_tangent_15_16()
    ensures
        sline_eval(g1p(68, 27), g1p(68, 27), dq(68, 74)) == Some((gt_of(74, 27), g1p(65, 3))),
{
    lemma_tangent_at((68, 27), (68, 74), (0, 54, 58, 31, 10, 7966, 65, -1, 3, 0), (27, -7, 74, 6, 20, 0, 27, -1), (131, 38, 8, 3, 47, -11, 62, -6), (74, -8, 27, 8));
}

proof fn lemma_tangent_16_16()
    ensures
        sline_eval(g1p(1, 99), g1p(1, 99), dq(68, 74)) == Some((gt_of(26, 0), g1p(68, 27))),
{
    lemma_tangent_at((1, 99), (68, 74), (1, 97, 25, 24, 75, 0, 68, 55, 27, -51), (26, -1, 50, 50, 50, -1, 51, -1), (137, 35, 26, 9, 100, -36, 50, -18), (26, 24, 0, 50));
}

proof fn lemma_tangent_1_18()
    ensures
        sline_eval(g1p(1, 2), g1p(1, 2), dq(68, 27)) == Some((gt_of(75, 0), g1p(68, 74))),
{
    lemma_tangent_at((1, 2), (68, 27), (0, 4, 76, 3, 26, 2, 68, 6, 74, -18), (75, -1, 51, 17, 51, -1, 50, -1), (137, 35, 26, 9, 100, -36, 50, -18), (75, 25, 0, 50));
}

proof fn lemma_tangent_2_18()
    ensures
        sline_eval(g1p(68, 74), g1p(68, 74), dq(68, 27)) == Some((gt_of(27, 74), g1p(65, 98))),
{
    lemma_tangent_at((68, 74), (68, 27), (1, 47, 43, 20, 91, 5905, 65, 80, 98, 1), (74, -62, 27, 61, 81, -2, 74, -1), (131, 38, 8, 3, 47, -11, 62, -6), (27, -8, 74, 38));
}

proof fn lemma_tangent_3_18()
    ensures
        sline_eval(g1p(26, 45), g1p(26, 45), dq(68, 27)) == Some((gt_of(2, 42), g1p(32, 42))),
{
    lemma_tangent_at((26, 45), (68, 27), (0, 90, 55, 49, 36, 1104, 32, 12, 42, -3), (74, -10, 24, 24, 9, -1, 77, -1), (77, 47, 43, 20, 43, -43, 5, -29), (2, 0, 42, 29));
}

proof fn lemma_tangent_4_18()
    ensures
        sline_eval(g1p(65, 98), g1p(65, 98), dq(68, 27)) == Some((gt_of(63, 26), g1p(18, 49))),
{
    lemma_tangent_at((65, 98), (68, 27), (1, 95, 84, 79, 59, 10541, 18, 33, 49, 26), (3, -38, 73, 39, 27, -1, 28, -1), (61, 11, 46, 5, 84, -40, 3, -31), (63, 21, 26, 23));
}

proof fn lemma_tangent_5_18()
    ensures
        sline_eval(g1p(12, 32), g1p(12, 32), dq(68, 27)) == Some((gt_of(84, 35), g1p(91, 66))),
{
    lemma_tangent_at((12, 32), (68, 27), (0, 64, 30, 19, 32, 128, 91, 9, 66, -26), (20, -4, 55, 21, 76, -1, 46, -1), (189, 4, 76, 3, 36, -120, 84, -52), (84, -12, 35, 41));
}

proof fn lemma_tangent_6_18()
    ensures
        sline_eval(g1p(32, 42), g1p(32, 42), dq(68, 27)) == Some((gt_of(22, 57), g1p(12, 69))),
{
    lemma_tangent_at((32, 42), (68, 27), (0, 84, 95, 79, 51, 2889, 12, 25, 69, 9), (85, -17, 34, 34, 1, -1, 67, -1), (55, 29, 7, 2, 46, -6, 29, -5), (22, -19, 57, 11));
}

proof fn lemma_tangent_7_18()
    ensures
        sline_eval(g1p(91, 35), g1p(91, 35), dq(68, 27)) == Some((gt_of(1, 95), g1p(26, 56))),
{
    lemma_tangent_at((91, 35), (68, 27), (0, 70, 13, 9, 62, 3197, 26, 36, 56, 39), (14, -56, 75, 41, 79, -1, 26, -1), (69, 99, 50, 49, 47, -47, 34, -34), (1, 28, 95, 29));
}

proof fn lemma_tangent_8_18()
    ensures
        sline_eval(g1p(18, 49), g1p(18, 49), dq(68, 27)) == Some((gt_of(81, 24), g1p(1, 99))),
{
    lemma_tangent_at((18, 49), (68, 27), (0, 98, 67, 65, 80, 644, 1, 63, 99, 12), (75, -15, 87, 53, 4, -1, 14, -1), (46, 47, 43, 20, 63, -30, 5, -29), (81, 1, 24, 8));
}

proof fn lemma_tangent_9_18()
    ensures
        sline_eval(g1p(18, 52), g1p(18, 52), dq(68, 27)) == Some((gt_of(89, 44), g1p(1, 2))),
{
    lemma_tangent_at((18, 52), (68, 27), (1, 3, 34, 1, 21, 327, 1, 4, 2, 3), (26, -4, 14, 14, 50, -1, 87, -1), (46, 47, 43, 20, 63, -30, 5, -29), (89, 26, 44, 52));
}

proof fn lemma_tangent_10_18()
    ensures
        sline_eval(g1p(91, 66), g1p(91, 66), dq(68, 27)) == Some((gt_of(12, 24), g1p(26, 45))),
{
    lemma_tangent_at((91, 66), (68, 27), (1, 31, 88, 27, 39, 21645, 26, 13, 45, 24), (87, -36, 26, 26, 76, -2, 75, -1), (69, 99, 50, 49, 47, -47, 34, -34), (12, 10, 24, 35));
}

proof fn lemma_tangent_11_18()
    ensures
        sline_eval(g1p(32, 59), g1p(32, 59), dq(68, 27)) == Some((gt_of(38, 95), g1p(12, 32))),
{
    lemma_tangent_at((32, 59), (68, 27), (1, 17, 6, 1, 50, 182, 12, 24, 32, 9), (16, -16, 67, 33, 53, -1, 34, -1), (55, 29, 7, 2, 46, -6, 29, -5), (38, 14, 95, 20));
}

proof fn lemma_tangent_12_18()
    ensures
        sline_eval(g1p(12, 69), g1p(12, 69), dq(68, 27)) == Some((gt_of(42, 57), g1p(91, 35))),
{
    lemma_tangent_at((12, 69), (68, 27), (1, 37, 71, 26, 69, 303, 91, 46, 35, -55), (81, -9, 46, 46, 79, -2, 55, -1), (189, 4, 76, 3, 36, -120, 84, -52), (42, -18, 57, 39));
}

proof fn lemma_tangent_13_18()
    ensures
        sline_eval(g1p(65, 3), g1p(65, 3), dq(68, 27)) == Some((gt_of(29, 35), g1p(18, 52))),
{
    lemma_tangent_at((65, 3), (68, 27), (0, 6, 17, 1, 42, 2133, 18, 16, 52, 19), (98, -28, 28, 28, 27, -1, 73, -1), (61, 11, 46, 5, 84, -40, 3, -31), (29, 20, 35, 59));
}

proof fn lemma_tangent_14_18()
    ensures
        sline_eval(g1p(26, 56), g1p(26, 56), dq(68, 27)) == Some((gt_of(98, 26), g1p(32, 59))),
{
    lemma_tangent_at((26, 56), (68, 27), (1, 11, 46, 5, 65, 923, 32, 41, 59, -5), (27, -17, 77, 43, 45, -1, 24, -1), (77, 47, 43, 20, 43, -43, 5, -29), (98, 17, 26, 11));
}

proof fn lemma_tangent_15_18()
    ensures
        sline_eval(g1p(68, 27), g1p(68, 27), dq(68, 27)) == Some((gt_of(87, 42), g1p(65, 3))),
{
    lemma_tangent_at((68, 27), (68, 27), (0, 54, 58, 31, 10, 7966, 65, -1, 3, 0), (27, -7, 74, 6, 74, -1, 27, -1), (131, 38, 8, 3, 47, -11, 62, -6), (87, 17, 42, 41));
}

proof fn lemma_tangent_16_18()
    ensures
        sline_eval(g1p(1, 99), g1p(1, 99), dq(68, 27)) == Some((gt_of(73, 74), g1p(68, 27))),
{
    lemma_tangent_at((1, 99), (68, 27), (1, 97, 25, 24, 75, 0, 68, 55, 27, -51), (26, -1, 50, 50, 3, -1, 51, -1), (137, 35, 26, 9, 100, -36, 50, -18), (73, -23, 74, 26));
}

proof fn lemma_tangent_1_19()
    ensures
        sline_eval(g1p(1, 2), g1p(1, 2), dq(9, 96)) == Some((gt_of(29, 93), g1p(68, 74))),
{
    lemma_tangent_at((1, 2), (9, 96), (0, 4, 76, 3, 26, 2, 68, 6, 74, -18), (75, -1, 32, 2, 19, 0, 69, -1), (52, 65, 14, 9, 33, -11, 76, -2), (29, -46, 93, -16));
}

proof fn lemma_tangent_2_19()
    ensures
        sline_eval(g1p(68, 74), g1p(68, 74), dq(9, 96)) == Some((gt_of(59, 51), g1p(65, 98))),
{
    lemma_tangent_at((68, 74), (9, 96), (1, 47, 43, 20, 91, 5905, 65, 80, 98, 1), (74, -62, 11, 8, 49, -1, 90, -1), (48, 43, 47, 20, 57, -35, 82, -5), (59, -46, 51, 17));
}

proof fn lemma_tangent_3_19()
    ensures
        sline_eval(g1p(26, 45), g1p(26, 45), dq(9, 96)) == Some((gt_of(17, 88), g1p(32, 42))),
{
    lemma_tangent_at((26, 45), (9, 96), (0, 90, 55, 49, 36, 1104, 32, 12, 42, -3), (74, -10, 21, 3, 78, -1, 80, -1), (13, 80, 24, 19, 26, -10, 87, -3), (17, -49, 88, 18));
}

proof fn lemma_tangent_4_19()
    ensures
        sline_eval(g1p(65, 98), g1p(65, 98), dq(9, 96)) == Some((gt_of(88, 49), g1p(18, 49))),
{
    lemma_tangent_at((65, 98), (9, 96), (1, 95, 84, 79, 59, 10541, 18, 33, 49, 26), (3, -38, 26, 5, 96, -1, 75, -1), (5, 62, 44, 27, 24, -12, 8, -4), (88, 16, 49, 19));
}

proof fn lemma_tangent_5_19()
    ensures
        sline_eval(g1p(12, 32), g1p(12, 32), dq(9, 96)) == Some((gt_of(73, 65), g1p(91, 66))),
{
    lemma_tangent_at((12, 32), (9, 96), (0, 64, 30, 19, 32, 128, 91, 9, 66, -26), (20, -4, 86, 2, 44, 0, 15, -1), (90, 91, 10, 9, 10, -10, 11, -1), (73, 2, 65, 4));
}

proof fn lemma_tangent_6_19()
    ensures
        sline_eval(g1p(32, 42), g1p(32, 42), dq(9, 96)) == Some((gt_of(86, 1), g1p(12, 69))),
{
    lemma_tangent_at((32, 42), (9, 96), (0, 84, 95, 79, 51, 2889, 12, 25, 69, 9), (85, -17, 55, 4, 70, -1, 46, -1), (3, 30, 64, 19, 70, -14, 30, -6), (86, 34, 1, 39));
}

proof fn lemma_tangent_7_19()
    ensures
        sline_eval(g1p(91, 35), g1p(91, 35), dq(9, 96)) == Some((gt_of(16, 72), g1p(26, 56))),
{
    lemma_tangent_at((91, 35), (9, 96), (0, 70, 13, 9, 62, 3197, 26, 36, 56, 39), (14, -56, 53, 5, 47, 0, 48, -1), (9, 82, 85, 69, 55, -30, 43, -8), (16, 5, 72, 25));
}

proof fn lemma_tangent_8_19()
    ensures
        sline_eval(g1p(18, 49), g1p(18, 49), dq(9, 96)) == Some((gt_of(14, 24), g1p(1, 99))),
{
    lemma_tangent_at((18, 49), (9, 96), (0, 98, 67, 65, 80, 644, 1, 63, 99, 12), (75, -15, 13, 7, 73, -1, 88, -1), (0, 91, 10, 9, 1, -1, 11, -1), (14, -9, 24, -1));
}

proof fn lemma_tangent_9_19()
    ensures
        sline_eval(g1p(18, 52), g1p(18, 52), dq(9, 96)) == Some((gt_of(77, 68), g1p(1, 2))),
{
    lemma_tangent_at((18, 52), (9, 96), (1, 3, 34, 1, 21, 327, 1, 4, 2, 3), (26, -4, 88, 1, 18, 0, 13, -1), (0, 91, 10, 9, 1, -1, 11, -1), (77, -2, 68, 0));
}

proof fn lemma_tangent_10_19()
    ensures
        sline_eval(g1p(91, 66), g1p(91, 66), dq(9, 96)) == Some((gt_of(40, 3), g1p(26, 45))),
{
    lemma_tangent_at((91, 66), (9, 96), (1, 31, 88, 27, 39, 21645, 26, 13, 45, 24), (87, -36, 48, 3, 44, -1, 53, -1), (9, 82, 85, 69, 55, -30, 43, -8), (40, 1, 3, 25));
}

proof fn lemma_tangent_11_19()
    ensures
        sline_eval(g1p(32, 59), g1p(32, 59), dq(9, 96)) == Some((gt_of(22, 2), g1p(12, 32))),
{
    lemma_tangent_at((32, 59), (9, 96), (1, 17, 6, 1, 50, 182, 12, 24, 32, 9), (16, -16, 46, 4, 21, 0, 55, -1), (3, 30, 64, 19, 70, -14, 30, -6), (22, -2, 2, 28));
}

proof fn lemma_tangent_12_19()
    ensures
        sline_eval(g1p(12, 69), g1p(12, 69), dq(9, 96)) == Some((gt_of(29, 27), g1p(91, 35))),
{
    lemma_tangent_at((12, 69), (9, 96), (1, 37, 71, 26, 69, 303, 91, 46, 35, -55), (81, -9, 15, 6, 47, -1, 86, -1), (90, 91, 10, 9, 10, -10, 11, -1), (29, -5, 27, 4));
}

proof fn lemma_tangent_13_19()
    ensures
        sline_eval(g1p(65, 3), g1p(65, 3), dq(9, 96)) == Some((gt_of(76, 73), g1p(18, 52))),
{
    lemma_tangent_at((65, 3), (9, 96), (0, 6, 17, 1, 42, 2133, 18, 16, 52, 19), (98, -28, 75, 3, 96, -1, 26, -1), (5, 62, 44, 27, 24, -12, 8, -4), (76, 20, 73, 11));
}

proof fn lemma_tangent_14_19()
    ensures
        sline_eval(g1p(26, 56), g1p(26, 56), dq(9, 96)) == Some((gt_of(26, 52), g1p(32, 59))),
{
    lemma_tangent_at((26, 56), (9, 96), (1, 11, 46, 5, 65, 923, 32, 41, 59, -5), (27, -17, 80, 5, 13, 0, 21, -1), (13, 80, 24, 19, 26, -10, 87, -3), (26, -15, 52, -2));
}

proof fn lemma_tangent_15_19()
    ensures
        sline_eval(g1p(68, 27), g1p(68, 27), dq(9, 96)) == Some((gt_of(78, 38), g1p(65, 3))),
{
    lemma_tangent_at((68, 27), (9, 96), (0, 54, 58, 31, 10, 7966, 65, -1, 3, 0), (27, -7, 90, 0, 42, 0, 11, -1), (48, 43, 47, 20, 57, -35, 82, -5), (78, 14, 38, 31));
}

proof fn lemma_tangent_16_19()
    ensures
        sline_eval(g1p(1, 99), g1p(1, 99), dq(9, 96)) == Some((gt_of(45, 56), g1p(68, 27))),
{
    lemma_tangent_at((1, 99), (9, 96), (1, 97, 25, 24, 75, 0, 68, 55, 27, -51), (26, -1, 69, 6, 72, -1, 32, -1), (52, 65, 14, 9, 33, -11, 76, -2), (45, -1, 56, 40));
}

proof fn lemma_tangent_1_20()
    ensures
        sline_eval(g1p(1, 2), g1p(1, 2), dq(32, 59)) == Some((gt_of(37, 4), g1p(68, 74))),
{
    lemma_tangent_at((1, 2), (32, 59), (0, 4, 76, 3, 26, 2, 68, 6, 74, -18), (75, -1, 24, 8, 83, -1, 77, -1), (77, 47, 43, 20, 43, -43, 38, -14), (37, 6, 4, 35));
}

proof fn lemma_tangent_2_20()
    ensures
        sline_eval(g1p(68, 74), g1p(68, 74), dq(32, 59)) == Some((gt_of(60, 4), g1p(65, 98))),
{
    lemma_tangent_at((68, 74), (32, 59), (1, 47, 43, 20, 91, 5905, 65, 80, 98, 1), (74, -62, 84, 28, 12, -1, 17, -1), (72, 57, 39, 22, 55, -38, 65, -13), (60, -5, 4, 6));
}

proof fn lemma_tangent_3_20()
    ensures
        sline_eval(g1p(26, 45), g1p(26, 45), dq(32, 59)) == Some((gt_of(65, 0), g1p(32, 42))),
{
    lemma_tangent_at((26, 45), (32, 59), (0, 90, 55, 49, 36, 1104, 32, 12, 42, -3), (74, -10, 41, 11, 41, -1, 60, -1), (30, 42, 89, 37, 61, -57, 81, -29), (65, -24, 0, 21));
}

proof fn lemma_tangent_4_20()
    ensures
        sline_eval(g1p(65, 98), g1p(65, 98), dq(32, 59)) == Some((gt_of(73, 36), g1p(18, 49))),
{
    lemma_tangent_at((65, 98), (32, 59), (1, 95, 84, 79, 59, 10541, 18, 33, 49, 26), (3, -38, 70, 18, 59, -1, 31, -1), (19, 5, 81, 4, 91, -41, 34, -26), (73, 42, 36, 37));
}

proof fn lemma_tangent_5_20()
    ensures
        sline_eval(g1p(12, 32), g1p(12, 32), dq(32, 59)) == Some((gt_of(100, 91), g1p(91, 66))),
{
    lemma_tangent_at((12, 32), (32, 59), (0, 64, 30, 19, 32, 128, 91, 9, 66, -26), (20, -4, 14, 10, 7, 0, 87, -1), (120, 97, 25, 24, 56, -31, 8, -8), (100, -4, 91, 41));
}

proof fn lemma_tangent_6_20()
    ensures
        sline_eval(g1p(32, 42), g1p(32, 42), dq(32, 59)) == Some((gt_of(37, 64), g1p(12, 69))),
{
    lemma_tangent_at((32, 42), (32, 59), (0, 84, 95, 79, 51, 2889, 12, 25, 69, 9), (85, -17, 16, 16, 33, -1, 85, -1), (15, 37, 71, 26, 7, -31, 51, -23), (37, -41, 64, -21));
}

proof fn lemma_tangent_7_20()
    ensures
        sline_eval(g1p(91, 35), g1p(91, 35), dq(32, 59)) == Some((gt_of(24, 37), g1p(26, 56))),
{
    lemma_tangent_at((91, 35), (32, 59), (0, 70, 13, 9, 62, 3197, 26, 36, 56, 39), (14, -56, 65, 19, 10, 0, 36, -1), (25, 7, 29, 2, 35, -17, 82, -10), (24, -26, 37, -9));
}

proof fn lemma_tangent_8_20()
    ensures
        sline_eval(g1p(18, 49), g1p(18, 49), dq(32, 59)) == Some((gt_of(39, 45), g1p(1, 99))),
{
    lemma_tangent_at((18, 49), (32, 59), (0, 98, 67, 65, 80, 644, 1, 63, 99, 12), (75, -15, 35, 25, 36, -1, 66, -1), (10, 47, 43, 20, 96, -15, 38, -14), (39, 9, 45, 51));
}

proof fn lemma_tangent_9_20()
    ensures
        sline_eval(g1p(18, 52), g1p(18, 52), dq(32, 59)) == Some((gt_of(78, 96), g1p(1, 2))),
{
    lemma_tangent_at((18, 52), (32, 59), (1, 3, 34, 1, 21, 327, 1, 4, 2, 3), (26, -4, 66, 6, 82, -1, 35, -1), (10, 47, 43, 20, 96, -15, 38, -14), (78, 64, 96, 50));
}

proof fn lemma_tangent_10_20()
    ensures
        sline_eval(g1p(91, 66), g1p(91, 66), dq(32, 59)) == Some((gt_of(66, 44), g1p(26, 45))),
{
    lemma_tangent_at((91, 66), (32, 59), (1, 31, 88, 27, 39, 21645, 26, 13, 45, 24), (87, -36, 36, 12, 7, -1, 65, -1), (25, 7, 29, 2, 35, -17, 82, -10), (66, -51, 44, -25));
}

proof fn lemma_tangent_11_20()
    ensures
        sline_eval(g1p(32, 59), g1p(32, 59), dq(32, 59)) == Some((gt_of(82, 96), g1p(12, 32))),
{
    lemma_tangent_at((32, 59), (32, 59), (1, 17, 6, 1, 50, 182, 12, 24, 32, 9), (16, -16, 85, 15, 85, -1, 16, -1), (15, 37, 71, 26, 7, -31, 51, -23), (82, -3, 96, 35));
}

proof fn lemma_tangent_12_20()
    ensures
        sline_eval(g1p(12, 69), g1p(12, 69), dq(32, 59)) == Some((gt_of(44, 45), g1p(91, 35))),
{
    lemma_tangent_at((12, 69), (32, 59), (1, 37, 71, 26, 69, 303, 91, 46, 35, -55), (81, -9, 87, 21, 10, -1, 14, -1), (120, 97, 25, 24, 56, -31, 8, -8), (44, 4, 45, 7));
}

proof fn lemma_tangent_13_20()
    ensures
        sline_eval(g1p(65, 3), g1p(65, 3), dq(32, 59)) == Some((gt_of(60, 37), g1p(18, 52))),
{
    lemma_tangent_at((65, 3), (32, 59), (0, 6, 17, 1, 42, 2133, 18, 16, 52, 19), (98, -28, 31, 13, 59, -1, 70, -1), (19, 5, 81, 4, 91, -41, 34, -26), (60, 29, 37, 59));
}

proof fn lemma_tangent_14_20()
    ensures
        sline_eval(g1p(26, 56), g1p(26, 56), dq(32, 59)) == Some((gt_of(63, 64), g1p(32, 59))),
{
    lemma_tangent_at((26, 56), (32, 59), (1, 11, 46, 5, 65, 923, 32, 41, 59, -5), (27, -17, 60, 20, 77, -1, 41, -1), (30, 42, 89, 37, 61, -57, 81, -29), (63, 13, 64, 53));
}

proof fn lemma_tangent_15_20()
    ensures
        sline_eval(g1p(68, 27), g1p(68, 27), dq(32, 59)) == Some((gt_of(67, 91), g1p(65, 3))),
{
    lemma_tangent_at((68, 27), (32, 59), (0, 54, 58, 31, 10, 7966, 65, -1, 3, 0), (27, -7, 17, 3, 5, 0, 84, -1), (72, 57, 39, 22, 55, -38, 65, -13), (67, -52, 91, -6));
}

proof fn lemma_tangent_16_20()
    ensures
        sline_eval(g1p(1, 99), g1p(1, 99), dq(32, 59)) == Some((gt_of(88, 36), g1p(68, 27))),
{
    lemma_tangent_at((1, 99), (32, 59), (1, 97, 25, 24, 75, 0, 68, 55, 27, -51), (26, -1, 77, 23, 35, -1, 24, -1), (77, 47, 43, 20, 43, -43, 38, -14), (88, 5, 36, 14));
}

proof fn lemma_tangent_1_21()
    ensures
        sline_eval(g1p(1, 2), g1p(1, 2), dq(60, 41)) == Some((gt_of(96, 13), g1p(68, 74))),
{
    lemma_tangent_at((1, 2), (60, 41), (0, 4, 76, 3, 26, 2, 68, 6, 74, -18), (75, -1, 45, 15, 65, -1, 56, -1), (121, 83, 28, 23, 52, -36, 37, -17), (96, 12, 13, 32));
}

proof fn lemma_tangent_2_21()
    ensures
        sline_eval(g1p(68, 74), g1p(68, 74), dq(60, 41)) == Some((gt_of(77, 16), g1p(65, 98))),
{
    lemma_tangent_at((68, 74), (60, 41), (1, 47, 43, 20, 91, 5905, 65, 80, 98, 1), (74, -62, 6, 54, 95, -2, 95, -1), (116, 9, 45, 4, 31, -56, 27, -27), (77, 3, 16, 29));
}

proof fn lemma_tangent_3_21()
    ensures
        sline_eval(g1p(26, 45), g1p(26, 45), dq(60, 41)) == Some((gt_of(15, 64), g1p(32, 42))),
{
    lemma_tangent_at((26, 45), (60, 41), (0, 90, 55, 49, 36, 1104, 32, 12, 42, -3), (74, -10, 39, 21, 23, -1, 62, -1), (64, 80, 24, 19, 14, -22, 75, -15), (15, -43, 64, -21));
}

proof fn lemma_tangent_4_21()
    ensures
        sline_eval(g1p(65, 98), g1p(65, 98), dq(60, 41)) == Some((gt_of(98, 12), g1p(18, 49))),
{
    lemma_tangent_at((65, 98), (60, 41), (1, 95, 84, 79, 59, 10541, 18, 33, 49, 26), (3, -38, 5, 35, 41, -1, 96, -1), (49, 55, 90, 49, 50, -70, 54, -54), (98, -32, 12, 18));
}

proof fn lemma_tangent_5_21()
    ensures
        sline_eval(g1p(12, 32), g1p(12, 32), dq(60, 41)) == Some((gt_of(7, 67), g1p(91, 66))),
{
    lemma_tangent_at((12, 32), (60, 41), (0, 64, 30, 19, 32, 128, 91, 9, 66, -26), (20, -4, 1, 19, 90, -1, 100, -1), (171, 70, 13, 9, 57, -20, 28, -8), (7, 23, 67, 53));
}

proof fn lemma_tangent_6_21()
    ensures
        sline_eval(g1p(32, 42), g1p(32, 42), dq(60, 41)) == Some((gt_of(58, 74), g1p(12, 69))),
{
    lemma_tangent_at((32, 42), (60, 41), (0, 84, 95, 79, 51, 2889, 12, 25, 69, 9), (85, -17, 30, 30, 15, -1, 71, -1), (44, 20, 96, 19, 57, -69, 98, -58), (58, -61, 74, -15));
}

proof fn lemma_tangent_7_21()
    ensures
        sline_eval(g1p(91, 35), g1p(91, 35), dq(60, 41)) == Some((gt_of(5, 35), g1p(26, 56))),
{
    lemma_tangent_at((91, 35), (60, 41), (0, 70, 13, 9, 62, 3197, 26, 36, 56, 39), (14, -56, 84, 36, 93, -1, 17, -1), (57, 79, 78, 61, 59, -67, 67, -47), (5, 43, 35, 60));
}

proof fn lemma_tangent_8_21()
    ensures
        sline_eval(g1p(18, 49), g1p(18, 49), dq(60, 41)) == Some((gt_of(43, 68), g1p(1, 99))),
{
    lemma_tangent_at((18, 49), (60, 41), (0, 98, 67, 65, 80, 644, 1, 63, 99, 12), (75, -15, 53, 47, 18, -1, 48, -1), (36, 25, 97, 24, 42, -59, 38, -58), (43, -11, 68, 8));
}

proof fn lemma_tangent_9_21()
    ensures
        sline_eval(g1p(18, 52), g1p(18, 52), dq(60, 41)) == Some((gt_of(68, 18), g1p(1, 2))),
{
    lemma_tangent_at((18, 52), (60, 41), (1, 3, 34, 1, 21, 327, 1, 4, 2, 3), (26, -4, 48, 12, 64, -1, 53, -1), (36, 25, 97, 24, 42, -59, 38, -58), (68, 6, 18, 26));
}

proof fn lemma_tangent_10_21()
    ensures
        sline_eval(g1p(91, 66), g1p(91, 66), dq(60, 41)) == Some((gt_of(86, 5), g1p(26, 45))),
{
    lemma_tangent_at((91, 66), (60, 41), (1, 31, 88, 27, 39, 21645, 26, 13, 45, 24), (87, -36, 17, 23, 90, -2, 84, -1), (57, 79, 78, 61, 59, -67, 67, -47), (86, -4, 5, 53));
}

proof fn lemma_tangent_11_21()
    ensures
        sline_eval(g1p(32, 59), g1p(32, 59), dq(60, 41)) == Some((gt_of(71, 84), g1p(12, 32))),
{
    lemma_tangent_at((32, 59), (60, 41), (1, 17, 6, 1, 50, 182, 12, 24, 32, 9), (16, -16, 71, 29, 67, -1, 30, -1), (44, 20, 96, 19, 57, -69, 98, -58), (71, 8, 84, 52));
}

proof fn lemma_tangent_12_21()
    ensures
        sline_eval(g1p(12, 69), g1p(12, 69), dq(60, 41)) == Some((gt_of(21, 7), g1p(91, 35))),
{
    lemma_tangent_at((12, 69), (60, 41), (1, 37, 71, 26, 69, 303, 91, 46, 35, -55), (81, -9, 100, 40, 93, -2, 1, -1), (171, 70, 13, 9, 57, -20, 28, -8), (21, 52, 7, 26));
}

proof fn lemma_tangent_13_21()
    ensures
        sline_eval(g1p(65, 3), g1p(65, 3), dq(60, 41)) == Some((gt_of(63, 73), g1p(18, 52))),
{
    lemma_tangent_at((65, 3), (60, 41), (0, 6, 17, 1, 42, 2133, 18, 16, 52, 19), (98, -28, 96, 24, 41, -1, 5, -1), (49, 55, 90, 49, 50, -70, 54, -54), (63, 17, 73, 21));
}

proof fn lemma_tangent_14_21()
    ensures
        sline_eval(g1p(26, 56), g1p(26, 56), dq(60, 41)) == Some((gt_of(22, 26), g1p(32, 59))),
{
    lemma_tangent_at((26, 56), (60, 41), (1, 11, 46, 5, 65, 923, 32, 41, 59, -5), (27, -17, 62, 38, 59, -1, 39, -1), (64, 80, 24, 19, 14, -22, 75, -15), (22, -21, 26, 20));
}

proof fn lemma_tangent_15_21()
    ensures
        sline_eval(g1p(68, 27), g1p(68, 27), dq(60, 41)) == Some((gt_of(41, 77), g1p(65, 3))),
{
    lemma_tangent_at((68, 27), (60, 41), (0, 54, 58, 31, 10, 7966, 65, -1, 3, 0), (27, -7, 95, 5, 88, -1, 6, -1), (116, 9, 45, 4, 31, -56, 27, -27), (41, 25, 77, 23));
}

proof fn lemma_tangent_16_21()
    ensures
        sline_eval(g1p(1, 99), g1p(1, 99), dq(60, 41)) == Some((gt_of(27, 92), g1p(68, 27))),
{
    lemma_tangent_at((1, 99), (60, 41), (1, 97, 25, 24, 75, 0, 68, 55, 27, -51), (26, -1, 56, 44, 17, -1, 45, -1), (121, 83, 28, 23, 52, -36, 37, -17), (27, -8, 92, 12));
}

proof fn lemma_tangent_1_22()
    ensures
        sline_eval(g1p(1, 2), g1p(1, 2), dq(91, 35)) == Some((gt_of(60, 20), g1p(68, 74))),
{
    lemma_tangent_at((1, 2), (91, 35), (0, 4, 76, 3, 26, 2, 68, 6, 74, -18), (75, -1, 43, 23, 59, -1, 58, -1), (189, 4, 76, 3, 36, -120, 53, -69), (60, -10, 20, 21));
}

proof fn lemma_tangent_2_22()
    ensures
        sline_eval(g1p(68, 74), g1p(68, 74), dq(91, 35)) == Some((gt_of(84, 60), g1p(65, 98))),
{
    lemma_tangent_at((68, 74), (91, 35), (1, 47, 43, 20, 91, 5905, 65, 80, 98, 1), (74, -62, 100, 81, 89, -2, 1, -1), (182, 39, 57, 22, 97, -89, 65, -52), (84, 84, 60, 57));
}

proof fn lemma_tangent_3_22()
    ensures
        sline_eval(g1p(26, 45), g1p(26, 45), dq(91, 35)) == Some((gt_of(34, 60), g1p(32, 42))),
{
    lemma_tangent_at((26, 45), (91, 35), (0, 90, 55, 49, 36, 1104, 32, 12, 42, -3), (74, -10, 44, 32, 17, -1, 57, -1), (120, 97, 25, 24, 56, -31, 48, -23), (34, -18, 60, 12));
}

proof fn lemma_tangent_4_22()
    ensures
        sline_eval(g1p(65, 98), g1p(65, 98), dq(91, 35)) == Some((gt_of(26, 20), g1p(18, 49))),
{
    lemma_tangent_at((65, 98), (91, 35), (1, 95, 84, 79, 59, 10541, 18, 33, 49, 26), (3, -38, 16, 53, 35, -1, 85, -1), (101, 42, 89, 37, 96, -97, 82, -81), (26, -36, 20, 40));
}

proof fn lemma_tangent_5_22()
    ensures
        sline_eval(g1p(12, 32), g1p(12, 32), dq(91, 35)) == Some((gt_of(69, 0), g1p(91, 66))),
{
    lemma_tangent_at((12, 32), (91, 35), (0, 64, 30, 19, 32, 128, 91, 9, 66, -26), (20, -4, 84, 28, 84, -1, 17, -1), (245, 98, 67, 65, 27, -121, 64, -61), (69, 11, 0, 47));
}

proof fn lemma_tangent_6_22()
    ensures
        sline_eval(g1p(32, 42), g1p(32, 42), dq(91, 35)) == Some((gt_of(19, 54), g1p(12, 69))),
{
    lemma_tangent_at((32, 42), (91, 35), (0, 84, 95, 79, 51, 2889, 12, 25, 69, 9), (85, -17, 96, 45, 9, -1, 5, -1), (94, 23, 22, 5, 57, -23, 18, -20), (19, 4, 54, 3));
}

proof fn lemma_tangent_7_22()
    ensures
        sline_eval(g1p(91, 35), g1p(91, 35), dq(91, 35)) == Some((gt_of(26, 46), g1p(26, 56))),
{
    lemma_tangent_at((91, 35), (91, 35), (0, 70, 13, 9, 62, 3197, 26, 36, 56, 39), (14, -56, 87, 55, 87, -1, 14, -1), (112, 11, 46, 5, 72, -54, 56, -42), (26, 54, 46, 50));
}

proof fn lemma_tangent_8_22()
    ensures
        sline_eval(g1p(18, 49), g1p(18, 49), dq(91, 35)) == Some((gt_of(62, 68), g1p(1, 99))),
{
    lemma_tangent_at((18, 49), (91, 35), (0, 98, 67, 65, 80, 644, 1, 63, 99, 12), (75, -15, 8, 72, 12, -1, 93, -1), (82, 91, 10, 9, 90, -10, 100, -10), (62, -82, 68, 2));
}

proof fn lemma_tangent_9_22()
    ensures
        sline_eval(g1p(18, 52), g1p(18, 52), dq(91, 35)) == Some((gt_of(77, 64), g1p(1, 2))),
{
    lemma_tangent_at((18, 52), (91, 35), (1, 3, 34, 1, 21, 327, 1, 4, 2, 3), (26, -4, 93, 18, 58, -1, 8, -1), (82, 91, 10, 9, 90, -10, 100, -10), (77, 43, 64, 56));
}

proof fn lemma_tangent_10_22()
    ensures
        sline_eval(g1p(91, 66), g1p(91, 66), dq(91, 35)) == Some((gt_of(65, 36), g1p(26, 45))),
{
    lemma_tangent_at((91, 66), (91, 35), (1, 31, 88, 27, 39, 21645, 26, 13, 45, 24), (87, -36, 14, 35, 84, -2, 87, -1), (112, 11, 46, 5, 72, -54, 56, -42), (65, 11, 36, 60));
}

proof fn lemma_tangent_11_22()
    ensures
        sline_eval(g1p(32, 59), g1p(32, 59), dq(91, 35)) == Some((gt_of(32, 95), g1p(12, 32))),
{
    lemma_tangent_at((32, 59), (91, 35), (1, 17, 6, 1, 50, 182, 12, 24, 32, 9), (16, -16, 5, 45, 61, -1, 96, -1), (94, 23, 22, 5, 57, -23, 18, -20), (32, 17, 95, 47));
}

proof fn lemma_tangent_12_22()
    ensures
        sline_eval(g1p(12, 69), g1p(12, 69), dq(91, 35)) == Some((gt_of(3, 36), g1p(91, 35))),
{
    lemma_tangent_at((12, 69), (91, 35), (1, 37, 71, 26, 69, 303, 91, 46, 35, -55), (81, -9, 17, 62, 87, -2, 84, -1), (245, 98, 67, 65, 27, -121, 64, -61), (3, -30, 36, 24));
}

proof fn lemma_tangent_13_22()
    ensures
        sline_eval(g1p(65, 3), g1p(65, 3), dq(91, 35)) == Some((gt_of(28, 64), g1p(18, 52))),
{
    lemma_tangent_at((65, 3), (91, 35), (0, 6, 17, 1, 42, 2133, 18, 16, 52, 19), (98, -28, 85, 37, 35, -1, 16, -1), (101, 42, 89, 37, 96, -97, 82, -81), (28, 20, 64, 30));
}

proof fn lemma_tangent_14_22()
    ensures
        sline_eval(g1p(26, 56), g1p(26, 56), dq(91, 35)) == Some((gt_of(48, 68), g1p(32, 59))),
{
    lemma_tangent_at((26, 56), (91, 35), (1, 11, 46, 5, 65, 923, 32, 41, 59, -5), (27, -17, 57, 58, 53, -1, 44, -1), (120, 97, 25, 24, 56, -31, 48, -23), (48, 8, 68, 28));
}

proof fn lemma_tangent_15_22()
    ensures
        sline_eval(g1p(68, 27), g1p(68, 27), dq(91, 35)) == Some((gt_of(40, 46), g1p(65, 3))),
{
    lemma_tangent_at((68, 27), (91, 35), (0, 54, 58, 31, 10, 7966, 65, -1, 3, 0), (27, -7, 1, 9, 82, -1, 100, -1), (182, 39, 57, 22, 97, -89, 65, -52), (40, 14, 46, 84));
}

proof fn lemma_tangent_16_22()
    ensures
        sline_eval(g1p(1, 99), g1p(1, 99), dq(91, 35)) == Some((gt_of(36, 54), g1p(68, 27))),
{
    lemma_tangent_at((1, 99), (91, 35), (1, 97, 25, 24, 75, 0, 68, 55, 27, -51), (26, -1, 58, 67, 11, -1, 43, -1), (189, 4, 76, 3, 36, -120, 53, -69), (36, -19, 54, -2));
}

proof fn lemma_tangent_1_23()
    ensures
        sline_eval(g1p(1, 2), g1p(1, 2), dq(58, 65)) == Some((gt_of(36, 59), g1p(68, 74))),
{
    lemma_tangent_at((1, 2), (58, 65), (0, 4, 76, 3, 26, 2, 68, 6, 74, -18), (75, -1, 94, 14, 89, -1, 7, -1), (118, 14, 65, 9, 92, -82, 68, -38), (36, 76, 59, 61));
}

proof fn lemma_tangent_2_23()
    ensures
        sline_eval(g1p(68, 74), g1p(68, 74), dq(58, 65)) == Some((gt_of(39, 3), g1p(65, 98))),
{
    lemma_tangent_at((68, 74), (58, 65), (1, 47, 43, 20, 91, 5905, 65, 80, 98, 1), (74, -62, 26, 52, 18, -1, 75, -1), (112, 47, 43, 20, 64, -53, 31, -25), (39, -12, 3, 30));
}

proof fn lemma_tangent_3_23()
    ensures
        sline_eval(g1p(26, 45), g1p(26, 45), dq(58, 65)) == Some((gt_of(95, 53), g1p(32, 42))),
{
    lemma_tangent_at((26, 45), (58, 65), (0, 90, 55, 49, 36, 1104, 32, 12, 42, -3), (74, -10, 68, 20, 47, -1, 33, -1), (61, 83, 28, 23, 5, -25, 93, -17), (95, -29, 53, 14));
}

proof fn lemma_tangent_4_23()
    ensures
        sline_eval(g1p(65, 98), g1p(65, 98), dq(58, 65)) == Some((gt_of(54, 57), g1p(18, 49))),
{
    lemma_tangent_at((65, 98), (58, 65), (1, 95, 84, 79, 59, 10541, 18, 33, 49, 26), (3, -38, 89, 33, 65, -1, 12, -1), (46, 86, 74, 63, 32, -56, 51, -43), (54, 14, 57, 30));
}

proof fn lemma_tangent_5_23()
    ensures
        sline_eval(g1p(12, 32), g1p(12, 32), dq(58, 65)) == Some((gt_of(0, 5), g1p(91, 66))),
{
    lemma_tangent_at((12, 32), (58, 65), (0, 64, 30, 19, 32, 128, 91, 9, 66, -26), (20, -4, 38, 18, 13, 0, 63, -1), (167, 56, 92, 51, 28, -136, 17, -53), (0, -7, 5, 9));
}

proof fn lemma_tangent_6_23()
    ensures
        sline_eval(g1p(32, 42), g1p(32, 42), dq(58, 65)) == Some((gt_of(47, 61), g1p(12, 69))),
{
    lemma_tangent_at((32, 42), (58, 65), (0, 84, 95, 79, 51, 2889, 12, 25, 69, 9), (85, -17, 29, 29, 39, -1, 72, -1), (41, 63, 93, 58, 55, -65, 60, -54), (47, -22, 61, 19));
}

proof fn lemma_tangent_7_23()
    ensures
        sline_eval(g1p(91, 35), g1p(91, 35), dq(58, 65)) == Some((gt_of(77, 7), g1p(26, 56))),
{
    lemma_tangent_at((91, 35), (58, 65), (0, 70, 13, 9, 62, 3197, 26, 36, 56, 39), (14, -56, 61, 35, 16, 0, 40, -1), (54, 94, 72, 67, 12, -60, 66, -42), (77, -25, 7, -11));
}

proof fn lemma_tangent_8_23()
    ensures
        sline_eval(g1p(18, 49), g1p(18, 49), dq(58, 65)) == Some((gt_of(10, 20), g1p(1, 99))),
{
    lemma_tangent_at((18, 49), (58, 65), (0, 98, 67, 65, 80, 644, 1, 63, 99, 12), (75, -15, 95, 45, 42, -1, 6, -1), (33, 90, 55, 49, 88, -33, 42, -32), (10, 34, 20, 20));
}

proof fn lemma_tangent_9_23()
    ensures
        sline_eval(g1p(18, 52), g1p(18, 52), dq(58, 65)) == Some((gt_of(17, 87), g1p(1, 2))),
{
    lemma_tangent_at((18, 52), (58, 65), (1, 3, 34, 1, 21, 327, 1, 4, 2, 3), (26, -4, 6, 12, 88, -1, 95, -1), (33, 90, 55, 49, 88, -33, 42, -32), (17, 37, 87, 79));
}

proof fn lemma_tangent_10_23()
    ensures
        sline_eval(g1p(91, 66), g1p(91, 66), dq(58, 65)) == Some((gt_of(69, 89), g1p(26, 45))),
{
    lemma_tangent_at((91, 66), (58, 65), (1, 31, 88, 27, 39, 21645, 26, 13, 45, 24), (87, -36, 40, 22, 13, -1, 61, -1), (54, 94, 72, 67, 12, -60, 66, -42), (69, -39, 89, -25));
}

proof fn lemma_tangent_11_23()
    ensures
        sline_eval(g1p(32, 59), g1p(32, 59), dq(58, 65)) == Some((gt_of(33, 63), g1p(12, 32))),
{
    lemma_tangent_at((32, 59), (58, 65), (1, 17, 6, 1, 50, 182, 12, 24, 32, 9), (16, -16, 72, 28, 91, -1, 29, -1), (41, 63, 93, 58, 55, -65, 60, -54), (33, 32, 63, 52));
}

proof fn lemma_tangent_12_23()
    ensures
        sline_eval(g1p(12, 69), g1p(12, 69), dq(58, 65)) == Some((gt_of(4, 84), g1p(91, 35))),
{
    lemma_tangent_at((12, 69), (58, 65), (1, 37, 71, 26, 69, 303, 91, 46, 35, -55), (81, -9, 63, 39, 16, -1, 38, -1), (167, 56, 92, 51, 28, -136, 17, -53), (4, -2, 84, 6));
}

proof fn lemma_tangent_13_23()
    ensures
        sline_eval(g1p(65, 3), g1p(65, 3), dq(58, 65)) == Some((gt_of(66, 8), g1p(18, 52))),
{
    lemma_tangent_at((65, 3), (58, 65), (0, 6, 17, 1, 42, 2133, 18, 16, 52, 19), (98, -28, 12, 24, 65, -1, 89, -1), (46, 86, 74, 63, 32, -56, 51, -43), (66, -25, 8, 16));
}

proof fn lemma_tangent_14_23()
    ensures
        sline_eval(g1p(26, 56), g1p(26, 56), dq(58, 65)) == Some((gt_of(50, 18), g1p(32, 59))),
{
    lemma_tangent_at((26, 56), (58, 65), (1, 11, 46, 5, 65, 923, 32, 41, 59, -5), (27, -17, 33, 37, 83, -1, 68, -1), (61, 83, 28, 23, 5, -25, 93, -17), (50, -59, 18, 17));
}

proof fn lemma_tangent_15_23()
    ensures
        sline_eval(g1p(68, 27), g1p(68, 27), dq(58, 65)) == Some((gt_of(100, 88), g1p(65, 3))),
{
    lemma_tangent_at((68, 27), (58, 65), (0, 54, 58, 31, 10, 7966, 65, -1, 3, 0), (27, -7, 75, 5, 11, 0, 26, -1), (112, 47, 43, 20, 64, -53, 31, -25), (100, -2, 88, 11));
}

proof fn lemma_tangent_16_23()
    ensures
        sline_eval(g1p(1, 99), g1p(1, 99), dq(58, 65)) == Some((gt_of(6, 95), g1p(68, 27))),
{
    lemma_tangent_at((1, 99), (58, 65), (1, 97, 25, 24, 75, 0, 68, 55, 27, -51), (26, -1, 7, 43, 41, -1, 94, -1), (118, 14, 65, 9, 92, -82, 68, -38), (6, -26, 95, 49));
}

proof fn lemma_tangent_1_24()
    ensures
        sline_eval(g1p(1, 2), g1p(1, 2), dq(26, 45)) == Some((gt_of(12, 32), g1p(68, 74))),
{
    lemma_tangent_at((1, 2), (26, 45), (0, 4, 76, 3, 26, 2, 68, 6, 74, -18), (75, -1, 70, 6, 69, -1, 31, -1), (69, 99, 50, 49, 47, -47, 13, -13), (12, 28, 32, 19));
}

proof fn lemma_tangent_2_24()
    ensures
        sline_eval(g1p(68, 74), g1p(68, 74), dq(26, 45)) == Some((gt_of(65, 59), g1p(65, 98))),
{
    lemma_tangent_at((68, 74), (26, 45), (1, 47, 43, 20, 91, 5905, 65, 80, 98, 1), (74, -62, 43, 23, 99, -2, 58, -1), (65, 26, 35, 9, 47, -32, 100, -10), (65, -12, 59, 67));
}

proof fn lemma_tangent_3_24()
    ensures
        sline_eval(g1p(26, 45), g1p(26, 45), dq(26, 45)) == Some((gt_of(80, 52), g1p(32, 42))),
{
    lemma_tangent_at((26, 45), (26, 45), (0, 90, 55, 49, 36, 1104, 32, 12, 42, -3), (74, -10, 27, 9, 27, -1, 74, -1), (25, 7, 29, 2, 35, -17, 54, -8), (80, -31, 52, 0));
}

proof fn lemma_tangent_4_24()
    ensures
        sline_eval(g1p(65, 98), g1p(65, 98), dq(26, 45)) == Some((gt_of(29, 52), g1p(18, 49))),
{
    lemma_tangent_at((65, 98), (26, 45), (1, 95, 84, 79, 59, 10541, 18, 33, 49, 26), (3, -38, 19, 15, 45, -1, 82, -1), (14, 54, 58, 31, 74, -26, 7, -15), (29, 27, 52, 57));
}

proof fn lemma_tangent_5_24()
    ensures
        sline_eval(g1p(12, 32), g1p(12, 32), dq(26, 45)) == Some((gt_of(82, 59), g1p(91, 66))),
{
    lemma_tangent_at((12, 32), (26, 45), (0, 64, 30, 19, 32, 128, 91, 9, 66, -26), (20, -4, 24, 8, 94, -1, 77, -1), (112, 11, 46, 5, 72, -54, 16, -12), (82, 54, 59, 57));
}

proof fn lemma_tangent_6_24()
    ensures
        sline_eval(g1p(32, 42), g1p(32, 42), dq(26, 45)) == Some((gt_of(89, 32), g1p(12, 69))),
{
    lemma_tangent_at((32, 42), (26, 45), (0, 84, 95, 79, 51, 2889, 12, 25, 69, 9), (85, -17, 13, 13, 19, -1, 88, -1), (11, 21, 77, 16, 3, -29, 18, -20), (89, -16, 32, -10));
}

proof fn lemma_tangent_7_24()
    ensures
        sline_eval(g1p(91, 35), g1p(91, 35), dq(26, 45)) == Some((gt_of(39, 0), g1p(26, 56))),
{
    lemma_tangent_at((91, 35), (26, 45), (0, 70, 13, 9, 62, 3197, 26, 36, 56, 39), (14, -56, 97, 15, 97, -1, 4, -1), (20, 8, 38, 3, 44, -20, 22, -10), (39, 41, 0, 22));
}

proof fn lemma_tangent_8_24()
    ensures
        sline_eval(g1p(18, 49), g1p(18, 49), dq(26, 45)) == Some((gt_of(84, 27), g1p(1, 99))),
{
    lemma_tangent_at((18, 49), (26, 45), (0, 98, 67, 65, 80, 644, 1, 63, 99, 12), (75, -15, 60, 20, 22, -1, 41, -1), (6, 97, 25, 24, 32, -7, 57, -7), (84, -17, 27, 2));
}

proof fn lemma_tangent_9_24()
    ensures
        sline_eval(g1p(18, 52), g1p(18, 52), dq(26, 45)) == Some((gt_of(69, 53), g1p(1, 2))),
{
    lemma_tangent_at((18, 52), (26, 45), (1, 3, 34, 1, 21, 327, 1, 4, 2, 3), (26, -4, 41, 5, 68, -1, 60, -1), (6, 97, 25, 24, 32, -7, 57, -7), (69, -13, 53, 23));
}

proof fn lemma_tangent_10_24()
    ensures
        sline_eval(g1p(91, 66), g1p(91, 66), dq(26, 45)) == Some((gt_of(83, 61), g1p(26, 45))),
{
    lemma_tangent_at((91, 66), (26, 45), (1, 31, 88, 27, 39, 21645, 26, 13, 45, 24), (87, -36, 4, 10, 94, -2, 97, -1), (20, 8, 38, 3, 44, -20, 22, -10), (83, 19, 61, 41));
}

proof fn lemma_tangent_11_24()
    ensures
        sline_eval(g1p(32, 59), g1p(32, 59), dq(26, 45)) == Some((gt_of(80, 73), g1p(12, 32))),
{
    lemma_tangent_at((32, 59), (26, 45), (1, 17, 6, 1, 50, 182, 12, 24, 32, 9), (16, -16, 88, 12, 71, -1, 13, -1), (11, 21, 77, 16, 3, -29, 18, -20), (80, -1, 73, 10));
}

proof fn lemma_tangent_12_24()
    ensures
        sline_eval(g1p(12, 69), g1p(12, 69), dq(26, 45)) == Some((gt_of(35, 68), g1p(91, 35))),
{
    lemma_tangent_at((12, 69), (26, 45), (1, 37, 71, 26, 69, 303, 91, 46, 35, -55), (81, -9, 77, 17, 97, -2, 24, -1), (112, 11, 46, 5, 72, -54, 16, -12), (35, 65, 68, 28));
}

proof fn lemma_tangent_13_24()
    ensures
        sline_eval(g1p(65, 3), g1p(65, 3), dq(26, 45)) == Some((gt_of(66, 73), g1p(18, 52))),
{
    lemma_tangent_at((65, 3), (26, 45), (0, 6, 17, 1, 42, 2133, 18, 16, 52, 19), (98, -28, 82, 10, 45, -1, 19, -1), (14, 54, 58, 31, 74, -26, 7, -15), (66, 31, 73, 15));
}

proof fn lemma_tangent_14_24()
    ensures
        sline_eval(g1p(26, 56), g1p(26, 56), dq(26, 45)) == Some((gt_of(40, 61), g1p(32, 59))),
{
    lemma_tangent_at((26, 56), (26, 45), (1, 11, 46, 5, 65, 923, 32, 41, 59, -5), (27, -17, 74, 16, 63, -1, 27, -1), (25, 7, 29, 2, 35, -17, 54, -8), (40, 7, 61, 28));
}

proof fn lemma_tangent_15_24()
    ensures
        sline_eval(g1p(68, 27), g1p(68, 27), dq(26, 45)) == Some((gt_of(24, 53), g1p(65, 3))),
{
    lemma_tangent_at((68, 27), (26, 45), (0, 54, 58, 31, 10, 7966, 65, -1, 3, 0), (27, -7, 58, 2, 92, -1, 43, -1), (65, 26, 35, 9, 47, -32, 100, -10), (24, 0, 53, 68));
}

proof fn lemma_tangent_16_24()
    ensures
        sline_eval(g1p(1, 99), g1p(1, 99), dq(26, 45)) == Some((gt_of(77, 27), g1p(68, 27))),
{
    lemma_tangent_at((1, 99), (26, 45), (1, 97, 25, 24, 75, 0, 68, 55, 27, -51), (26, -1, 31, 19, 21, -1, 70, -1), (69, 99, 50, 49, 47, -47, 13, -13), (77, 0, 27, 26));
}

proof fn lemma_tangent_1_25()
    ensures
        sline_eval(g1p(1, 2), g1p(1, 2), dq(75, 100)) == Some((gt_of(87, 7), g1p(68, 74))),
{
    lemma_tangent_at((1, 2), (75, 100), (0, 4, 76, 3, 26, 2, 68, 6, 74, -18), (75, -1, 31, 19, 23, 0, 70, -1), (151, 98, 67, 65, 14, -95, 25, -50), (87, -15, 7, -2));
}

proof fn lemma_tangent_2_25()
    ensures
        sline_eval(g1p(68, 74), g1p(68, 74), dq(75, 100)) == Some((gt_of(17, 29), g1p(65, 98))),
{
    lemma_tangent_at((68, 74), (75, 100), (1, 47, 43, 20, 91, 5905, 65, 80, 98, 1), (74, -62, 58, 67, 53, -1, 43, -1), (145, 80, 24, 19, 74, -34, 18, -18), (17, 31, 29, 33));
}

proof fn lemma_tangent_3_25()
    ensures
        sline_eval(g1p(26, 45), g1p(26, 45), dq(75, 100)) == Some((gt_of(71, 75), g1p(32, 42))),
{
    lemma_tangent_at((26, 45), (75, 100), (0, 90, 55, 49, 36, 1104, 32, 12, 42, -3), (74, -10, 74, 26, 82, -1, 27, -1), (89, 60, 32, 19, 10, -34, 24, -24), (71, 1, 75, 15));
}

proof fn lemma_tangent_4_25()
    ensures
        sline_eval(g1p(65, 98), g1p(65, 98), dq(75, 100)) == Some((gt_of(45, 35), g1p(18, 49))),
{
    lemma_tangent_at((65, 98), (75, 100), (1, 95, 84, 79, 59, 10541, 18, 33, 49, 26), (3, -38, 82, 43, 100, -1, 19, -1), (72, 27, 15, 4, 19, -14, 87, -12), (45, 2, 35, 73));
}

proof fn lemma_tangent_5_25()
    ensures
        sline_eval(g1p(12, 32), g1p(12, 32), dq(75, 100)) == Some((gt_of(58, 65), g1p(91, 66))),
{
    lemma_tangent_at((12, 32), (75, 100), (0, 64, 30, 19, 32, 128, 91, 9, 66, -26), (20, -4, 77, 23, 48, 0, 24, -1), (205, 26, 35, 9, 48, -58, 1, -26), (58, 22, 65, 11));
}

proof fn lemma_tangent_6_25()
    ensures
        sline_eval(g1p(32, 42), g1p(32, 42), dq(75, 100)) == Some((gt_of(98, 17), g1p(12, 69))),
{
    lemma_tangent_at((32, 42), (75, 100), (0, 84, 95, 79, 51, 2889, 12, 25, 69, 9), (85, -17, 88, 37, 74, -1, 13, -1), (66, 3, 34, 1, 72, -30, 76, -26), (98, 42, 17, 55));
}

proof fn lemma_tangent_7_25()
    ensures
        sline_eval(g1p(91, 35), g1p(91, 35), dq(75, 100)) == Some((gt_of(39, 6), g1p(26, 56))),
{
    lemma_tangent_at((91, 35), (75, 100), (0, 70, 13, 9, 62, 3197, 26, 36, 56, 39), (14, -56, 4, 46, 51, 0, 97, -1), (81, 70, 13, 9, 0, -13, 35, -10), (39, -34, 6, -16));
}

proof fn lemma_tangent_8_25()
    ensures
        sline_eval(g1p(18, 49), g1p(18, 49), dq(75, 100)) == Some((gt_of(53, 5), g1p(1, 99))),
{
    lemma_tangent_at((18, 49), (75, 100), (0, 98, 67, 65, 80, 644, 1, 63, 99, 12), (75, -15, 41, 59, 77, -1, 60, -1), (56, 45, 9, 4, 23, -7, 32, -7), (53, -2, 5, 19));
}

proof fn lemma_tangent_9_25()
    ensures
        sline_eval(g1p(18, 52), g1p(18, 52), dq(75, 100)) == Some((gt_of(2, 32), g1p(1, 2))),
{
    lemma_tangent_at((18, 52), (75, 100), (1, 3, 34, 1, 21, 327, 1, 4, 2, 3), (26, -4, 60, 15, 22, 0, 41, -1), (56, 45, 9, 4, 23, -7, 32, -7), (2, -8, 32, 3));
}

proof fn lemma_tangent_10_25()
    ensures
        sline_eval(g1p(91, 66), g1p(91, 66), dq(75, 100)) == Some((gt_of(62, 25), g1p(26, 45))),
{
    lemma_tangent_at((91, 66), (75, 100), (1, 31, 88, 27, 39, 21645, 26, 13, 45, 24), (87, -36, 97, 28, 48, -1, 4, -1), (81, 70, 13, 9, 0, -13, 35, -10), (62, -2, 25, 15));
}

proof fn lemma_tangent_11_25()
    ensures
        sline_eval(g1p(32, 59), g1p(32, 59), dq(75, 100)) == Some((gt_of(61, 33), g1p(12, 32))),
{
    lemma_tangent_at((32, 59), (75, 100), (1, 17, 6, 1, 50, 182, 12, 24, 32, 9), (16, -16, 13, 37, 25, 0, 88, -1), (66, 3, 34, 1, 72, -30, 76, -26), (61, -49, 33, 15));
}

proof fn lemma_tangent_12_25()
    ensures
        sline_eval(g1p(12, 69), g1p(12, 69), dq(75, 100)) == Some((gt_of(48, 34), g1p(91, 35))),
{
    lemma_tangent_at((12, 69), (75, 100), (1, 37, 71, 26, 69, 303, 91, 46, 35, -55), (81, -9, 24, 51, 51, -1, 77, -1), (205, 26, 35, 9, 48, -58, 1, -26), (48, 23, 34, 36));
}

proof fn lemma_tangent_13_25()
    ensures
        sline_eval(g1p(65, 3), g1p(65, 3), dq(75, 100)) == Some((gt_of(18, 94), g1p(18, 52))),
{
    lemma_tangent_at((65, 3), (75, 100), (0, 6, 17, 1, 42, 2133, 18, 16, 52, 19), (98, -28, 19, 31, 100, -1, 82, -1), (72, 27, 15, 4, 19, -14, 87, -12), (18, -52, 94, 30));
}

proof fn lemma_tangent_14_25()
    ensures
        sline_eval(g1p(26, 56), g1p(26, 56), dq(75, 100)) == Some((gt_of(10, 79), g1p(32, 59))),
{
    lemma_tangent_at((26, 56), (75, 100), (1, 11, 46, 5, 65, 923, 32, 41, 59, -5), (27, -17, 27, 48, 17, 0, 74, -1), (89, 60, 32, 19, 10, -34, 24, -24), (10, -16, 79, -7));
}

proof fn lemma_tangent_15_25()
    ensures
        sline_eval(g1p(68, 27), g1p(68, 27), dq(75, 100)) == Some((gt_of(37, 36), g1p(65, 3))),
{
    lemma_tangent_at((68, 27), (75, 100), (0, 54, 58, 31, 10, 7966, 65, -1, 3, 0), (27, -7, 43, 7, 46, 0, 58, -1), (145, 80, 24, 19, 74, -34, 18, -18), (37, 23, 36, 40));
}

proof fn lemma_tangent_16_25()
    ensures
        sline_eval(g1p(1, 99), g1p(1, 99), dq(75, 100)) == Some((gt_of(87, 44), g1p(68, 27))),
{
    lemma_tangent_at((1, 99), (75, 100), (1, 97, 25, 24, 75, 0, 68, 55, 27, -51), (26, -1, 70, 55, 76, -1, 31, -1), (151, 98, 67, 65, 14, -95, 25, -50), (87, 2, 44, 15));
}

proof fn lemma_tangent_1_26()
    ensures
        sline_eval(g1p(1, 2), g1p(1, 2), dq(1, 99)) == Some((gt_of(66, 35), g1p(68, 74))),
{
    lemma_tangent_at((1, 2), (1, 99), (0, 4, 76, 3, 26, 2, 68, 6, 74, -18), (75, -1, 26, 0, 22, 0, 75, -1), (46, 47, 43, 20, 63, -30, 58, -1), (66, -30, 35, 16));
}

proof fn lemma_tangent_2_26()
    ensures
        sline_eval(g1p(68, 74), g1p(68, 74), dq(1, 99)) == Some((gt_of(93, 64), g1p(65, 98))),
{
    lemma_tangent_at((68, 74), (1, 99), (1, 47, 43, 20, 91, 5905, 65, 80, 98, 1), (74, -62, 91, 0, 52, -1, 10, -1), (42, 49, 33, 16, 44, -22, 68, -1), (93, 15, 64, 32));
}

proof fn lemma_tangent_3_26()
    ensures
        sline_eval(g1p(26, 45), g1p(26, 45), dq(1, 99)) == Some((gt_of(67, 98), g1p(32, 42))),
{
    lemma_tangent_at((26, 45), (1, 99), (0, 90, 55, 49, 36, 1104, 32, 12, 42, -3), (74, -10, 36, 0, 81, -1, 65, -1), (10, 47, 43, 20, 96, -15, 58, -1), (67, 39, 98, 70));
}

proof fn lemma_tangent_4_26()
    ensures
        sline_eval(g1p(65, 98), g1p(65, 98), dq(1, 99)) == Some((gt_of(2, 67), g1p(18, 49))),
{
    lemma_tangent_at((65, 98), (1, 99), (1, 95, 84, 79, 59, 10541, 18, 33, 49, 26), (3, -38, 59, 0, 99, -1, 42, -1), (3, 40, 48, 19, 98, -10, 53, -1), (2, 74, 67, 70));
}

proof fn lemma_tangent_5_26()
    ensures
        sline_eval(g1p(12, 32), g1p(12, 32), dq(1, 99)) == Some((gt_of(72, 67), g1p(91, 66))),
{
    lemma_tangent_at((12, 32), (1, 99), (0, 64, 30, 19, 32, 128, 91, 9, 66, -26), (20, -4, 32, 0, 47, 0, 69, -1), (82, 91, 10, 9, 90, -10, 91, -1), (72, -21, 67, 41));
}

proof fn lemma_tangent_6_26()
    ensures
        sline_eval(g1p(32, 42), g1p(32, 42), dq(1, 99)) == Some((gt_of(11, 98), g1p(12, 69))),
{
    lemma_tangent_at((32, 42), (1, 99), (0, 84, 95, 79, 51, 2889, 12, 25, 69, 9), (85, -17, 51, 0, 73, -1, 50, -1), (1, 56, 92, 51, 16, -12, 9, -1), (11, 7, 98, 9));
}

proof fn lemma_tangent_7_26()
    ensures
        sline_eval(g1p(91, 35), g1p(91, 35), dq(1, 99)) == Some((gt_of(50, 64), g1p(26, 56))),
{
    lemma_tangent_at((91, 35), (1, 99), (0, 70, 13, 9, 62, 3197, 26, 36, 56, 39), (14, -56, 62, 0, 50, 0, 39, -1), (6, 97, 25, 24, 32, -7, 76, -1), (50, -14, 64, 20));
}

proof fn lemma_tangent_8_26()
    ensures
        sline_eval(g1p(18, 49), g1p(18, 49), dq(1, 99)) == Some((gt_of(91, 35), g1p(1, 99))),
{
    lemma_tangent_at((18, 49), (1, 99), (0, 98, 67, 65, 80, 644, 1, 63, 99, 12), (75, -15, 80, 0, 76, -1, 21, -1), (0, 3, 34, 1, 33, -1, 67, -1), (91, 10, 35, 43));
}

proof fn lemma_tangent_9_26()
    ensures
        sline_eval(g1p(18, 52), g1p(18, 52), dq(1, 99)) == Some((gt_of(80, 0), g1p(1, 2))),
{
    lemma_tangent_at((18, 52), (1, 99), (1, 3, 34, 1, 21, 327, 1, 4, 2, 3), (26, -4, 21, 0, 21, 0, 80, -1), (0, 3, 34, 1, 33, -1, 67, -1), (80, -47, 0, -13));
}

proof fn lemma_tangent_10_26()
    ensures
        sline_eval(g1p(91, 66), g1p(91, 66), dq(1, 99)) == Some((gt_of(24, 36), g1p(26, 45))),
{
    lemma_tangent_at((91, 66), (1, 99), (1, 31, 88, 27, 39, 21645, 26, 13, 45, 24), (87, -36, 39, 0, 47, -1, 62, -1), (6, 97, 25, 24, 32, -7, 76, -1), (24, -32, 36, 8));
}

proof fn lemma_tangent_11_26()
    ensures
        sline_eval(g1p(32, 59), g1p(32, 59), dq(1, 99)) == Some((gt_of(26, 68), g1p(12, 32))),
{
    lemma_tangent_at((32, 59), (1, 99), (1, 17, 6, 1, 50, 182, 12, 24, 32, 9), (16, -16, 50, 0, 24, 0, 51, -1), (1, 56, 92, 51, 16, -12, 9, -1), (26, -1, 68, 5));
}

proof fn lemma_tangent_12_26()
    ensures
        sline_eval(g1p(12, 69), g1p(12, 69), dq(1, 99)) == Some((gt_of(73, 74), g1p(91, 35))),
{
    lemma_tangent_at((12, 69), (1, 99), (1, 37, 71, 26, 69, 303, 91, 46, 35, -55), (81, -9, 69, 0, 50, -1, 32, -1), (82, 91, 10, 9, 90, -10, 91, -1), (73, 15, 74, 44));
}

proof fn lemma_tangent_13_26()
    ensures
        sline_eval(g1p(65, 3), g1p(65, 3), dq(1, 99)) == Some((gt_of(10, 24), g1p(18, 52))),
{
    lemma_tangent_at((65, 3), (1, 99), (0, 6, 17, 1, 42, 2133, 18, 16, 52, 19), (98, -28, 42, 0, 99, -1, 59, -1), (3, 40, 48, 19, 98, -10, 53, -1), (10, 65, 24, 78));
}

proof fn lemma_tangent_14_26()
    ensures
        sline_eval(g1p(26, 56), g1p(26, 56), dq(1, 99)) == Some((gt_of(54, 74), g1p(32, 59))),
{
    lemma_tangent_at((26, 56), (1, 99), (1, 11, 46, 5, 65, 923, 32, 41, 59, -5), (27, -17, 65, 0, 16, 0, 36, -1), (10, 47, 43, 20, 96, -15, 58, -1), (54, -6, 74, 22));
}

proof fn lemma_tangent_15_26()
    ensures
        sline_eval(g1p(68, 27), g1p(68, 27), dq(1, 99)) == Some((gt_of(34, 68), g1p(65, 3))),
{
    lemma_tangent_at((68, 27), (1, 99), (0, 54, 58, 31, 10, 7966, 65, -1, 3, 0), (27, -7, 10, 0, 45, 0, 91, -1), (42, 49, 33, 16, 44, -22, 68, -1), (34, -42, 68, 8));
}

proof fn lemma_tangent_16_26()
    ensures
        sline_eval(g1p(1, 99), g1p(1, 99), dq(1, 99)) == Some((gt_of(86, 36), g1p(68, 27))),
{
    lemma_tangent_at((1, 99), (1, 99), (1, 97, 25, 24, 75, 0, 68, 55, 27, -51), (26, -1, 75, 0, 75, -1, 26, -1), (46, 47, 43, 20, 63, -30, 58, -1), (86, 31, 36, 44));
}

proof fn lemma_tangent_1_27()
    ensures
        sline_eval(g1p(1, 2), g1p(1, 2), dq(46, 50)) == Some((gt_of(21, 42), g1p(68, 74))),
{
    lemma_tangent_at((1, 2), (46, 50), (0, 4, 76, 3, 26, 2, 68, 6, 74, -18), (75, -1, 85, 11, 74, -1, 16, -1), (97, 71, 37, 26, 24, -42, 15, -17), (21, 15, 42, 12));
}

proof fn lemma_tangent_2_27()
    ensures
        sline_eval(g1p(68, 74), g1p(68, 74), dq(46, 50)) == Some((gt_of(86, 87), g1p(65, 98))),
{
    lemma_tangent_at((68, 74), (46, 50), (1, 47, 43, 20, 91, 5905, 65, 80, 98, 1), (74, -62, 45, 41, 3, -1, 56, -1), (92, 39, 57, 22, 36, -63, 4, -26), (86, -2, 87, 17));
}

proof fn lemma_tangent_3_27()
    ensures
        sline_eval(g1p(26, 45), g1p(26, 45), dq(46, 50)) == Some((gt_of(80, 71), g1p(32, 42))),
{
    lemma_tangent_at((26, 45), (46, 50), (0, 90, 55, 49, 36, 1104, 32, 12, 42, -3), (74, -10, 40, 16, 32, -1, 61, -1), (45, 67, 98, 65, 32, -76, 37, -45), (80, -13, 71, 8));
}

proof fn lemma_tangent_4_27()
    ensures
        sline_eval(g1p(65, 98), g1p(65, 98), dq(46, 50)) == Some((gt_of(68, 25), g1p(18, 49))),
{
    lemma_tangent_at((65, 98), (46, 50), (1, 95, 84, 79, 59, 10541, 18, 33, 49, 26), (3, -38, 88, 26, 50, -1, 13, -1), (32, 36, 87, 31, 88, -56, 38, -40), (68, 38, 25, 25));
}

proof fn lemma_tangent_5_27()
    ensures
        sline_eval(g1p(12, 32), g1p(12, 32), dq(46, 50)) == Some((gt_of(94, 60), g1p(91, 66))),
{
    lemma_tangent_at((12, 32), (46, 50), (0, 64, 30, 19, 32, 128, 91, 9, 66, -26), (20, -4, 58, 14, 99, -1, 43, -1), (144, 39, 57, 22, 69, -78, 4, -26), (94, 65, 60, 31));
}

proof fn lemma_tangent_6_27()
    ensures
        sline_eval(g1p(32, 42), g1p(32, 42), dq(46, 50)) == Some((gt_of(90, 77), g1p(12, 69))),
{
    lemma_tangent_at((32, 42), (46, 50), (0, 84, 95, 79, 51, 2889, 12, 25, 69, 9), (85, -17, 23, 23, 24, -1, 78, -1), (27, 85, 82, 69, 92, -48, 66, -38), (90, -30, 77, 35));
}

proof fn lemma_tangent_7_27()
    ensures
        sline_eval(g1p(91, 35), g1p(91, 35), dq(46, 50)) == Some((gt_of(77, 86), g1p(26, 56))),
{
    lemma_tangent_at((91, 35), (46, 50), (0, 70, 13, 9, 62, 3197, 26, 36, 56, 39), (14, -56, 24, 28, 1, 0, 77, -1), (39, 49, 33, 16, 48, -24, 98, -16), (77, -75, 86, -38));
}

proof fn lemma_tangent_8_27()
    ensures
        sline_eval(g1p(18, 49), g1p(18, 49), dq(46, 50)) == Some((gt_of(25, 34), g1p(1, 99))),
{
    lemma_tangent_at((18, 49), (46, 50), (0, 98, 67, 65, 80, 644, 1, 63, 99, 12), (75, -15, 44, 36, 27, -1, 57, -1), (21, 42, 89, 37, 59, -42, 47, -41), (25, -11, 34, 19));
}

proof fn lemma_tangent_9_27()
    ensures
        sline_eval(g1p(18, 52), g1p(18, 52), dq(46, 50)) == Some((gt_of(17, 20), g1p(1, 2))),
{
    lemma_tangent_at((18, 52), (46, 50), (1, 3, 34, 1, 21, 327, 1, 4, 2, 3), (26, -4, 57, 9, 73, -1, 44, -1), (21, 42, 89, 37, 59, -42, 47, -41), (17, 22, 20, 39));
}

proof fn lemma_tangent_10_27()
    ensures
        sline_eval(g1p(91, 66), g1p(91, 66), dq(46, 50)) == Some((gt_of(77, 18), g1p(26, 45))),
{
    lemma_tangent_at((91, 66), (46, 50), (1, 31, 88, 27, 39, 21645, 26, 13, 45, 24), (87, -36, 77, 17, 99, -2, 24, -1), (39, 49, 33, 16, 48, -24, 98, -16), (77, 23, 18, 84));
}

proof fn lemma_tangent_11_27()
    ensures
        sline_eval(g1p(32, 59), g1p(32, 59), dq(46, 50)) == Some((gt_of(20, 59), g1p(12, 32))),
{
    lemma_tangent_at((32, 59), (46, 50), (1, 17, 6, 1, 50, 182, 12, 24, 32, 9), (16, -16, 78, 22, 76, -1, 23, -1), (27, 85, 82, 69, 92, -48, 66, -38), (20, 54, 59, 55));
}

proof fn lemma_tangent_12_27()
    ensures
        sline_eval(g1p(12, 69), g1p(12, 69), dq(46, 50)) == Some((gt_of(39, 37), g1p(91, 35))),
{
    lemma_tangent_at((12, 69), (46, 50), (1, 37, 71, 26, 69, 303, 91, 46, 35, -55), (81, -9, 43, 31, 1, -1, 58, -1), (144, 39, 57, 22, 69, -78, 4, -26), (39, -2, 37, 37));
}

proof fn lemma_tangent_13_27()
    ensures
        sline_eval(g1p(65, 3), g1p(65, 3), dq(46, 50)) == Some((gt_of(46, 38), g1p(18, 52))),
{
    lemma_tangent_at((65, 3), (46, 50), (0, 6, 17, 1, 42, 2133, 18, 16, 52, 19), (98, -28, 13, 19, 50, -1, 88, -1), (32, 36, 87, 31, 88, -56, 38, -40), (46, 10, 38, 62));
}

proof fn lemma_tangent_14_27()
    ensures
        sline_eval(g1p(26, 56), g1p(26, 56), dq(46, 50)) == Some((gt_of(90, 94), g1p(32, 59))),
{
    lemma_tangent_at((26, 56), (46, 50), (1, 11, 46, 5, 65, 923, 32, 41, 59, -5), (27, -17, 61, 29, 68, -1, 40, -1), (45, 67, 98, 65, 32, -76, 37, -45), (90, 6, 94, 22));
}

proof fn lemma_tangent_15_27()
    ensures
        sline_eval(g1p(68, 27), g1p(68, 27), dq(46, 50)) == Some((gt_of(80, 10), g1p(65, 3))),
{
    lemma_tangent_at((68, 27), (46, 50), (0, 54, 58, 31, 10, 7966, 65, -1, 3, 0), (27, -7, 56, 4, 97, -1, 45, -1), (92, 39, 57, 22, 36, -63, 4, -26), (80, 32, 10, 18));
}

proof fn lemma_tangent_16_27()
    ensures
        sline_eval(g1p(1, 99), g1p(1, 99), dq(46, 50)) == Some((gt_of(56, 44), g1p(68, 27))),
{
    lemma_tangent_at((1, 99), (46, 50), (1, 97, 25, 24, 75, 0, 68, 55, 27, -51), (26, -1, 16, 34, 26, -1, 85, -1), (97, 71, 37, 26, 24, -42, 15, -17), (56, -7, 44, 11));
}

proof fn lemma_tangent_1_28()
    ensures
        sline_eval(g1p(1, 2), g1p(1, 2), dq(12, 69)) == Some((gt_of(88, 7), g1p(68, 74))),
{
    lemma_tangent_at((1, 2), (12, 69), (0, 4, 76, 3, 26, 2, 68, 6, 74, -18), (75, -1, 9, 3, 93, -1, 92, -1), (55, 29, 7, 2, 46, -6, 17, -1), (88, 26, 7, 42));
}

proof fn lemma_tangent_2_28()
    ensures
        sline_eval(g1p(68, 74), g1p(68, 74), dq(12, 69)) == Some((gt_of(26, 93), g1p(65, 98))),
{
    lemma_tangent_at((68, 74), (12, 69), (1, 47, 43, 20, 91, 5905, 65, 80, 98, 1), (74, -62, 82, 10, 22, -1, 19, -1), (50, 99, 50, 49, 89, -39, 6, -6), (26, 18, 93, 16));
}

proof fn lemma_tangent_3_28()
    ensures
        sline_eval(g1p(26, 45), g1p(26, 45), dq(12, 69)) == Some((gt_of(34, 65), g1p(32, 42))),
{
    lemma_tangent_at((26, 45), (12, 69), (0, 90, 55, 49, 36, 1104, 32, 12, 42, -3), (74, -10, 28, 4, 51, -1, 73, -1), (15, 37, 71, 26, 7, -31, 57, -9), (34, -38, 65, -8));
}

proof fn lemma_tangent_4_28()
    ensures
        sline_eval(g1p(65, 98), g1p(65, 98), dq(12, 69)) == Some((gt_of(51, 44), g1p(18, 49))),
{
    lemma_tangent_at((65, 98), (12, 69), (1, 95, 84, 79, 59, 10541, 18, 33, 49, 26), (3, -38, 1, 7, 69, -1, 100, -1), (6, 78, 79, 61, 54, -24, 62, -10), (51, -25, 44, 34));
}

proof fn lemma_tangent_5_28()
    ensures
        sline_eval(g1p(12, 32), g1p(12, 32), dq(12, 69)) == Some((gt_of(88, 13), g1p(91, 66))),
{
    lemma_tangent_at((12, 32), (12, 69), (0, 64, 30, 19, 32, 128, 91, 9, 66, -26), (20, -4, 81, 3, 17, 0, 20, -1), (94, 23, 22, 5, 57, -23, 39, -3), (88, 1, 13, 10));
}

proof fn lemma_tangent_6_28()
    ensures
        sline_eval(g1p(32, 42), g1p(32, 42), dq(12, 69)) == Some((gt_of(76, 13), g1p(12, 69))),
{
    lemma_tangent_at((32, 42), (12, 69), (0, 84, 95, 79, 51, 2889, 12, 25, 69, 9), (85, -17, 6, 6, 43, -1, 95, -1), (4, 28, 83, 23, 28, -20, 14, -10), (76, -2, 13, 19));
}

proof fn lemma_tangent_7_28()
    ensures
        sline_eval(g1p(91, 35), g1p(91, 35), dq(12, 69)) == Some((gt_of(10, 44), g1p(26, 56))),
{
    lemma_tangent_at((91, 35), (12, 69), (0, 70, 13, 9, 62, 3197, 26, 36, 56, 39), (14, -56, 37, 7, 20, 0, 64, -1), (11, 21, 77, 16, 3, -29, 86, -10), (10, -54, 44, -36));
}

proof fn lemma_tangent_8_28()
    ensures
        sline_eval(g1p(18, 49), g1p(18, 49), dq(12, 69)) == Some((gt_of(83, 65), g1p(1, 99))),
{
    lemma_tangent_at((18, 49), (12, 69), (0, 98, 67, 65, 80, 644, 1, 63, 99, 12), (75, -15, 51, 9, 46, -1, 50, -1), (1, 56, 92, 51, 16, -12, 7, -11), (83, 3, 65, 7));
}

proof fn lemma_tangent_9_28()
    ensures
        sline_eval(g1p(18, 52), g1p(18, 52), dq(12, 69)) == Some((gt_of(4, 93), g1p(1, 2))),
{
    lemma_tangent_at((18, 52), (12, 69), (1, 3, 34, 1, 21, 327, 1, 4, 2, 3), (26, -4, 50, 2, 92, -1, 51, -1), (1, 56, 92, 51, 16, -12, 7, -11), (4, 11, 93, 10));
}

proof fn lemma_tangent_10_28()
    ensures
        sline_eval(g1p(91, 66), g1p(91, 66), dq(12, 69)) == Some((gt_of(0, 7), g1p(26, 45))),
{
    lemma_tangent_at((91, 66), (12, 69), (1, 31, 88, 27, 39, 21645, 26, 13, 45, 24), (87, -36, 64, 4, 17, -1, 37, -1), (11, 21, 77, 16, 3, -29, 86, -10), (0, -31, 7, -16));
}

proof fn lemma_tangent_11_28()
    ensures
        sline_eval(g1p(32, 59), g1p(32, 59), dq(12, 69)) == Some((gt_of(51, 0), g1p(12, 32))),
{
    lemma_tangent_at((32, 59), (12, 69), (1, 17, 6, 1, 50, 182, 12, 24, 32, 9), (16, -16, 95, 5, 95, -1, 6, -1), (4, 28, 83, 23, 28, -20, 14, -10), (51, 25, 0, 14));
}

proof fn lemma_tangent_12_28()
    ensures
        sline_eval(g1p(12, 69), g1p(12, 69), dq(12, 69)) == Some((gt_of(1, 16), g1p(91, 35))),
{
    lemma_tangent_at((12, 69), (12, 69), (1, 37, 71, 26, 69, 303, 91, 46, 35, -55), (81, -9, 20, 8, 20, -1, 81, -1), (94, 23, 22, 5, 57, -23, 39, -3), (1, -20, 16, 22));
}

proof fn lemma_tangent_13_28()
    ensures
        sline_eval(g1p(65, 3), g1p(65, 3), dq(12, 69)) == Some((gt_of(28, 28), g1p(18, 52))),
{
    lemma_tangent_at((65, 3), (12, 69), (0, 6, 17, 1, 42, 2133, 18, 16, 52, 19), (98, -28, 100, 4, 69, -1, 1, -1), (6, 78, 79, 61, 54, -24, 62, -10), (28, 36, 28, 42));
}

proof fn lemma_tangent_14_28()
    ensures
        sline_eval(g1p(26, 56), g1p(26, 56), dq(12, 69)) == Some((gt_of(23, 24), g1p(32, 59))),
{
    lemma_tangent_at((26, 56), (12, 69), (1, 11, 46, 5, 65, 923, 32, 41, 59, -5), (27, -17, 73, 7, 87, -1, 28, -1), (15, 37, 71, 26, 7, -31, 57, -9), (23, -10, 24, 35));
}

proof fn lemma_tangent_15_28()
    ensures
        sline_eval(g1p(68, 27), g1p(68, 27), dq(12, 69)) == Some((gt_of(35, 28), g1p(65, 3))),
{
    lemma_tangent_at((68, 27), (12, 69), (0, 54, 58, 31, 10, 7966, 65, -1, 3, 0), (27, -7, 19, 1, 15, 0, 82, -1), (50, 99, 50, 49, 89, -39, 6, -6), (35, 8, 28, 68));
}

proof fn lemma_tangent_16_28()
    ensures
        sline_eval(g1p(1, 99), g1p(1, 99), dq(12, 69)) == Some((gt_of(99, 16), g1p(68, 27))),
{
    lemma_tangent_at((1, 99), (12, 69), (1, 97, 25, 24, 75, 0, 68, 55, 27, -51), (26, -1, 92, 8, 45, -1, 9, -1), (55, 29, 7, 2, 46, -6, 17, -1), (99, 18, 16, 10));
}

proof fn lemma_tangent_1_29()
    ensures
        sline_eval(g1p(1, 2), g1p(1, 2), dq(96, 79)) == Some((gt_of(5, 28), g1p(68, 74))),
{
    lemma_tangent_at((1, 2), (96, 79), (0, 4, 76, 3, 26, 2, 68, 6, 74, -18), (75, -1, 72, 24, 2, 0, 29, -1), (201, 67, 98, 65, 88, -160, 86, -94), (5, -23, 28, 2));
}

proof fn lemma_tangent_2_29()
    ensures
        sline_eval(g1p(68, 74), g1p(68, 74), dq(96, 79)) == Some((gt_of(76, 45), g1p(65, 98))),
{
    lemma_tangent_at((68, 74), (96, 79), (1, 47, 43, 20, 91, 5905, 65, 80, 98, 1), (74, -62, 50, 86, 32, -1, 51, -1), (194, 87, 36, 31, 62, -58, 79, -35), (76, -21, 45, 16));
}

proof fn lemma_tangent_3_29()
    ensures
        sline_eval(g1p(26, 45), g1p(26, 45), dq(96, 79)) == Some((gt_of(92, 96), g1p(32, 42))),
{
    lemma_tangent_at((26, 45), (96, 79), (0, 90, 55, 49, 36, 1104, 32, 12, 42, -3), (74, -10, 22, 34, 61, -1, 79, -1), (131, 81, 5, 4, 67, -7, 25, -5), (92, 20, 96, 47));
}

proof fn lemma_tangent_4_29()
    ensures
        sline_eval(g1p(65, 98), g1p(65, 98), dq(96, 79)) == Some((gt_of(89, 13), g1p(18, 49))),
{
    lemma_tangent_at((65, 98), (96, 79), (1, 95, 84, 79, 59, 10541, 18, 33, 49, 26), (3, -38, 8, 56, 79, -1, 93, -1), (111, 57, 39, 22, 99, -45, 94, -38), (89, -10, 13, 78));
}

proof fn lemma_tangent_5_29()
    ensures
        sline_eval(g1p(12, 32), g1p(12, 32), dq(96, 79)) == Some((gt_of(67, 33), g1p(91, 66))),
{
    lemma_tangent_at((12, 32), (96, 79), (0, 64, 30, 19, 32, 128, 91, 9, 66, -26), (20, -4, 42, 30, 27, 0, 59, -1), (259, 74, 86, 63, 78, -160, 26, -82), (67, 5, 33, 37));
}

proof fn lemma_tangent_6_29()
    ensures
        sline_eval(g1p(32, 42), g1p(32, 42), dq(96, 79)) == Some((gt_of(72, 42), g1p(12, 69))),
{
    lemma_tangent_at((32, 42), (96, 79), (0, 84, 95, 79, 51, 2889, 12, 25, 69, 9), (85, -17, 48, 48, 53, -1, 53, -1), (104, 8, 38, 3, 37, -41, 89, -37), (72, -28, 42, 19));
}

proof fn lemma_tangent_7_29()
    ensures
        sline_eval(g1p(91, 35), g1p(91, 35), dq(96, 79)) == Some((gt_of(19, 24), g1p(26, 56))),
{
    lemma_tangent_at((91, 35), (96, 79), (0, 70, 13, 9, 62, 3197, 26, 36, 56, 39), (14, -56, 94, 58, 30, 0, 7, -1), (122, 66, 75, 49, 41, -91, 72, -72), (19, 7, 24, 19));
}

proof fn lemma_tangent_8_29()
    ensures
        sline_eval(g1p(18, 49), g1p(18, 49), dq(96, 79)) == Some((gt_of(2, 52), g1p(1, 99))),
{
    lemma_tangent_at((18, 49), (96, 79), (0, 98, 67, 65, 80, 644, 1, 63, 99, 12), (75, -15, 4, 76, 56, -1, 97, -1), (92, 21, 77, 16, 5, -74, 82, -74), (2, -76, 52, -29));
}

proof fn lemma_tangent_9_29()
    ensures
        sline_eval(g1p(18, 52), g1p(18, 52), dq(96, 79)) == Some((gt_of(81, 77), g1p(1, 2))),
{
    lemma_tangent_at((18, 52), (96, 79), (1, 3, 34, 1, 21, 327, 1, 4, 2, 3), (26, -4, 97, 19, 1, 0, 4, -1), (92, 21, 77, 16, 5, -74, 82, -74), (81, -4, 77, -3));
}

proof fn lemma_tangent_10_29()
    ensures
        sline_eval(g1p(91, 66), g1p(91, 66), dq(96, 79)) == Some((gt_of(96, 40), g1p(26, 45))),
{
    lemma_tangent_at((91, 66), (96, 79), (1, 31, 88, 27, 39, 21645, 26, 13, 45, 24), (87, -36, 7, 37, 27, -1, 94, -1), (122, 66, 75, 49, 41, -91, 72, -72), (96, -57, 40, -10));
}

proof fn lemma_tangent_11_29()
    ensures
        sline_eval(g1p(32, 59), g1p(32, 59), dq(96, 79)) == Some((gt_of(17, 82), g1p(12, 32))),
{
    lemma_tangent_at((32, 59), (96, 79), (1, 17, 6, 1, 50, 182, 12, 24, 32, 9), (16, -16, 53, 47, 4, 0, 48, -1), (104, 8, 38, 3, 37, -41, 89, -37), (17, -41, 82, -22));
}

proof fn lemma_tangent_12_29()
    ensures
        sline_eval(g1p(12, 69), g1p(12, 69), dq(96, 79)) == Some((gt_of(36, 35), g1p(91, 35))),
{
    lemma_tangent_at((12, 69), (96, 79), (1, 37, 71, 26, 69, 303, 91, 46, 35, -55), (81, -9, 59, 65, 30, -1, 42, -1), (259, 74, 86, 63, 78, -160, 26, -82), (36, 12, 35, 29));
}

proof fn lemma_tangent_13_29()
    ensures
        sline_eval(g1p(65, 3), g1p(65, 3), dq(96, 79)) == Some((gt_of(100, 93), g1p(18, 52))),
{
    lemma_tangent_at((65, 3), (96, 79), (0, 6, 17, 1, 42, 2133, 18, 16, 52, 19), (98, -28, 93, 39, 79, -1, 8, -1), (111, 57, 39, 22, 99, -45, 94, -38), (100, 69, 93, 73));
}

proof fn lemma_tangent_14_29()
    ensures
        sline_eval(g1p(26, 56), g1p(26, 56), dq(96, 79)) == Some((gt_of(91, 16), g1p(32, 59))),
{
    lemma_tangent_at((26, 56), (96, 79), (1, 11, 46, 5, 65, 923, 32, 41, 59, -5), (27, -17, 79, 61, 97, -1, 22, -1), (131, 81, 5, 4, 67, -7, 25, -5), (91, 58, 16, 33));
}

proof fn lemma_tangent_15_29()
    ensures
        sline_eval(g1p(68, 27), g1p(68, 27), dq(96, 79)) == Some((gt_of(24, 14), g1p(65, 3))),
{
    lemma_tangent_at((68, 27), (96, 79), (0, 54, 58, 31, 10, 7966, 65, -1, 3, 0), (27, -7, 51, 9, 25, 0, 50, -1), (194, 87, 36, 31, 62, -58, 79, -35), (24, -24, 14, 11));
}

proof fn lemma_tangent_16_29()
    ensures
        sline_eval(g1p(1, 99), g1p(1, 99), dq(96, 79)) == Some((gt_of(62, 26), g1p(68, 27))),
{
    lemma_tangent_at((1, 99), (96, 79), (1, 97, 25, 24, 75, 0, 68, 55, 27, -51), (26, -1, 29, 71, 55, -1, 72, -1), (201, 67, 98, 65, 88, -160, 86, -94), (62, -14, 26, 48));
}

proof fn lemma_tangent_1_30()
    ensures
        sline_eval(g1p(1, 2), g1p(1, 2), dq(18, 49)) == Some((gt_of(4, 65), g1p(68, 74))),
{
    lemma_tangent_at((1, 2), (18, 49), (0, 4, 76, 3, 26, 2, 68, 6, 74, -18), (75, -1, 64, 4, 73, -1, 37, -1), (61, 11, 46, 5, 84, -40, 81, -9), (4, 31, 65, 59));
}

proof fn lemma_tangent_2_30()
    ensures
        sline_eval(g1p(68, 74), g1p(68, 74), dq(18, 49)) == Some((gt_of(52, 59), g1p(65, 98))),
{
    lemma_tangent_at((68, 74), (18, 49), (1, 47, 43, 20, 91, 5905, 65, 80, 98, 1), (74, -62, 22, 16, 2, -1, 79, -1), (56, 63, 93, 58, 58, -77, 43, -17), (52, -33, 59, 12));
}

proof fn lemma_tangent_3_30()
    ensures
        sline_eval(g1p(26, 45), g1p(26, 45), dq(18, 49)) == Some((gt_of(64, 36), g1p(32, 42))),
{
    lemma_tangent_at((26, 45), (18, 49), (0, 90, 55, 49, 36, 1104, 32, 12, 42, -3), (74, -10, 42, 6, 31, -1, 59, -1), (19, 5, 81, 4, 91, -41, 57, -15), (64, -6, 36, 37));
}

proof fn lemma_tangent_4_30()
    ensures
        sline_eval(g1p(65, 98), g1p(65, 98), dq(18, 49)) == Some((gt_of(87, 73), g1p(18, 49))),
{
    lemma_tangent_at((65, 98), (18, 49), (1, 95, 84, 79, 59, 10541, 18, 33, 49, 26), (3, -38, 52, 10, 49, -1, 49, -1), (9, 63, 93, 58, 86, -34, 43, -17), (87, 20, 73, 41));
}

proof fn lemma_tangent_5_30()
    ensures
        sline_eval(g1p(12, 32), g1p(12, 32), dq(18, 49)) == Some((gt_of(100, 95), g1p(91, 66))),
{
    lemma_tangent_at((12, 32), (18, 49), (0, 64, 30, 19, 32, 128, 91, 9, 66, -26), (20, -4, 71, 5, 98, -1, 30, -1), (101, 42, 89, 37, 96, -97, 14, -16), (100, 88, 95, 37));
}

proof fn lemma_tangent_6_30()
    ensures
        sline_eval(g1p(32, 42), g1p(32, 42), dq(18, 49)) == Some((gt_of(59, 66), g1p(12, 69))),
{
    lemma_tangent_at((32, 42), (18, 49), (0, 84, 95, 79, 51, 2889, 12, 25, 69, 9), (85, -17, 9, 9, 23, -1, 92, -1), (6, 78, 79, 61, 54, -24, 93, -15), (59, -73, 66, -15));
}

proof fn lemma_tangent_7_30()
    ensures
        sline_eval(g1p(91, 35), g1p(91, 35), dq(18, 49)) == Some((gt_of(32, 66), g1p(26, 56))),
{
    lemma_tangent_at((91, 35), (18, 49), (0, 70, 13, 9, 62, 3197, 26, 36, 56, 39), (14, -56, 5, 11, 0, 0, 96, -1), (14, 54, 58, 31, 74, -26, 67, -11), (32, -64, 66, 6));
}

proof fn lemma_tangent_8_30()
    ensures
        sline_eval(g1p(18, 49), g1p(18, 49), dq(18, 49)) == Some((gt_of(82, 95), g1p(1, 99))),
{
    lemma_tangent_at((18, 49), (18, 49), (0, 98, 67, 65, 80, 644, 1, 63, 99, 12), (75, -15, 26, 14, 26, -1, 75, -1), (3, 40, 48, 19, 98, -10, 45, -9), (82, -9, 95, 50));
}

proof fn lemma_tangent_9_30()
    ensures
        sline_eval(g1p(18, 52), g1p(18, 52), dq(18, 49)) == Some((gt_of(28, 73), g1p(1, 2))),
{
    lemma_tangent_at((18, 52), (18, 49), (1, 3, 34, 1, 21, 327, 1, 4, 2, 3), (26, -4, 75, 3, 72, -1, 26, -1), (3, 40, 48, 19, 98, -10, 45, -9), (28, 58, 73, 45));
}

proof fn lemma_tangent_10_30()
    ensures
        sline_eval(g1p(91, 66), g1p(91, 66), dq(18, 49)) == Some((gt_of(49, 36), g1p(26, 45))),
{
    lemma_tangent_at((91, 66), (18, 49), (1, 31, 88, 27, 39, 21645, 26, 13, 45, 24), (87, -36, 96, 6, 98, -2, 5, -1), (14, 54, 58, 31, 74, -26, 67, -11), (49, 68, 36, 65));
}

proof fn lemma_tangent_11_30()
    ensures
        sline_eval(g1p(32, 59), g1p(32, 59), dq(18, 49)) == Some((gt_of(82, 59), g1p(12, 32))),
{
    lemma_tangent_at((32, 59), (18, 49), (1, 17, 6, 1, 50, 182, 12, 24, 32, 9), (16, -16, 92, 8, 75, -1, 9, -1), (6, 78, 79, 61, 54, -24, 93, -15), (82, 31, 59, 65));
}

proof fn lemma_tangent_12_30()
    ensures
        sline_eval(g1p(12, 69), g1p(12, 69), dq(18, 49)) == Some((gt_of(16, 65), g1p(91, 35))),
{
    lemma_tangent_at((12, 69), (18, 49), (1, 37, 71, 26, 69, 303, 91, 46, 35, -55), (81, -9, 30, 12, 0, -1, 71, -1), (101, 42, 89, 37, 96, -97, 14, -16), (16, -10, 65, 57));
}

proof fn lemma_tangent_13_30()
    ensures
        sline_eval(g1p(65, 3), g1p(65, 3), dq(18, 49)) == Some((gt_of(59, 0), g1p(18, 52))),
{
    lemma_tangent_at((65, 3), (18, 49), (0, 6, 17, 1, 42, 2133, 18, 16, 52, 19), (98, -28, 49, 7, 49, -1, 52, -1), (9, 63, 93, 58, 86, -34, 43, -17), (59, 19, 0, 43));
}

proof fn lemma_tangent_14_30()
    ensures
        sline_eval(g1p(26, 56), g1p(26, 56), dq(18, 49)) == Some((gt_of(67, 96), g1p(32, 59))),
{
    lemma_tangent_at((26, 56), (18, 49), (1, 11, 46, 5, 65, 923, 32, 41, 59, -5), (27, -17, 59, 11, 67, -1, 42, -1), (19, 5, 81, 4, 91, -41, 57, -15), (67, 36, 96, 51));
}

proof fn lemma_tangent_15_30()
    ensures
        sline_eval(g1p(68, 27), g1p(68, 27), dq(18, 49)) == Some((gt_of(77, 14), g1p(65, 3))),
{
    lemma_tangent_at((68, 27), (18, 49), (0, 54, 58, 31, 10, 7966, 65, -1, 3, 0), (27, -7, 79, 1, 96, -1, 22, -1), (56, 63, 93, 58, 58, -77, 43, -17), (77, 45, 14, 44));
}

proof fn lemma_tangent_16_30()
    ensures
        sline_eval(g1p(1, 99), g1p(1, 99), dq(18, 49)) == Some((gt_of(47, 96), g1p(68, 27))),
{
    lemma_tangent_at((1, 99), (18, 49), (1, 97, 25, 24, 75, 0, 68, 55, 27, -51), (26, -1, 37, 13, 25, -1, 64, -1), (61, 11, 46, 5, 84, -40, 81, -9), (47, -31, 96, 21));
}

proof fn lemma_tangent_1_31()
    ensures
        sline_eval(g1p(1, 2), g1p(1, 2), dq(20, 78)) == Some((gt_of(20, 38), g1p(68, 74))),
{
    lemma_tangent_at((1, 2), (20, 78), (0, 4, 76, 3, 26, 2, 68, 6, 74, -18), (75, -1, 15, 5, 1, 0, 86, -1), (63, 21, 77, 16, 92, -68, 76, -16), (20, -64, 38, 14));
}

proof fn lemma_tangent_2_31()
    ensures
        sline_eval(g1p(68, 74), g1p(68, 74), dq(20, 78)) == Some((gt_of(46, 56), g1p(65, 98))),
{
    lemma_tangent_at((68, 74), (20, 78), (1, 47, 43, 20, 91, 5905, 65, 80, 98, 1), (74, -62, 2, 18, 31, -1, 99, -1), (58, 67, 98, 65, 53, -83, 60, -20), (46, -43, 56, 11));
}

proof fn lemma_tangent_3_31()
    ensures
        sline_eval(g1p(26, 45), g1p(26, 45), dq(20, 78)) == Some((gt_of(15, 74), g1p(32, 42))),
{
    lemma_tangent_at((26, 45), (20, 78), (0, 90, 55, 49, 36, 1104, 32, 12, 42, -3), (74, -10, 13, 7, 60, -1, 88, -1), (20, 44, 62, 27, 8, -32, 73, -13), (15, -59, 74, -14));
}

proof fn lemma_tangent_4_31()
    ensures
        sline_eval(g1p(65, 98), g1p(65, 98), dq(20, 78)) == Some((gt_of(15, 23), g1p(18, 49))),
{
    lemma_tangent_at((65, 98), (20, 78), (1, 95, 84, 79, 59, 10541, 18, 33, 49, 26), (3, -38, 69, 11, 78, -1, 32, -1), (10, 74, 86, 63, 65, -33, 98, -18), (15, 19, 23, 65));
}

proof fn lemma_tangent_5_31()
    ensures
        sline_eval(g1p(12, 32), g1p(12, 32), dq(20, 78)) == Some((gt_of(44, 51), g1p(91, 66))),
{
    lemma_tangent_at((12, 32), (20, 78), (0, 64, 30, 19, 32, 128, 91, 9, 66, -26), (20, -4, 34, 6, 26, 0, 67, -1), (103, 98, 67, 65, 37, -74, 74, -14), (44, -40, 51, -6));
}

proof fn lemma_tangent_6_31()
    ensures
        sline_eval(g1p(32, 42), g1p(32, 42), dq(20, 78)) == Some((gt_of(44, 72), g1p(12, 69))),
{
    lemma_tangent_at((32, 42), (20, 78), (0, 84, 95, 79, 51, 2889, 12, 25, 69, 9), (85, -17, 10, 10, 52, -1, 91, -1), (7, 77, 21, 16, 35, -7, 85, -5), (44, -59, 72, -2));
}

proof fn lemma_tangent_7_31()
    ensures
        sline_eval(g1p(91, 35), g1p(91, 35), dq(20, 78)) == Some((gt_of(24, 33), g1p(26, 56))),
{
    lemma_tangent_at((91, 35), (20, 78), (0, 70, 13, 9, 62, 3197, 26, 36, 56, 39), (14, -56, 28, 12, 29, 0, 73, -1), (15, 81, 5, 4, 73, -3, 1, -1), (24, 20, 33, 52));
}

proof fn lemma_tangent_8_31()
    ensures
        sline_eval(g1p(18, 49), g1p(18, 49), dq(20, 78)) == Some((gt_of(40, 71), g1p(1, 99))),
{
    lemma_tangent_at((18, 49), (20, 78), (0, 98, 67, 65, 80, 644, 1, 63, 99, 12), (75, -15, 85, 15, 55, -1, 16, -1), (4, 17, 6, 1, 76, -2, 82, -2), (40, 28, 71, 43));
}

proof fn lemma_tangent_9_31()
    ensures
        sline_eval(g1p(18, 52), g1p(18, 52), dq(20, 78)) == Some((gt_of(100, 96), g1p(1, 2))),
{
    lemma_tangent_at((18, 52), (20, 78), (1, 3, 34, 1, 21, 327, 1, 4, 2, 3), (26, -4, 16, 4, 0, 0, 85, -1), (4, 17, 6, 1, 76, -2, 82, -2), (100, -70, 96, -6));
}

proof fn lemma_tangent_10_31()
    ensures
        sline_eval(g1p(91, 66), g1p(91, 66), dq(20, 78)) == Some((gt_of(52, 22), g1p(26, 45))),
{
    lemma_tangent_at((91, 66), (20, 78), (1, 31, 88, 27, 39, 21645, 26, 13, 45, 24), (87, -36, 73, 7, 26, -1, 28, -1), (15, 81, 5, 4, 73, -3, 1, -1), (52, 18, 22, 20));
}

proof fn lemma_tangent_11_31()
    ensures
        sline_eval(g1p(32, 59), g1p(32, 59), dq(20, 78)) == Some((gt_of(63, 58), g1p(12, 32))),
{
    lemma_tangent_at((32, 59), (20, 78), (1, 17, 6, 1, 50, 182, 12, 24, 32, 9), (16, -16, 91, 9, 3, 0, 10, -1), (7, 77, 21, 16, 35, -7, 85, -5), (63, -8, 58, -3));
}

proof fn lemma_tangent_12_31()
    ensures
        sline_eval(g1p(12, 69), g1p(12, 69), dq(20, 78)) == Some((gt_of(72, 80), g1p(91, 35))),
{
    lemma_tangent_at((12, 69), (20, 78), (1, 37, 71, 26, 69, 303, 91, 46, 35, -55), (81, -9, 67, 13, 29, -1, 34, -1), (103, 98, 67, 65, 37, -74, 74, -14), (72, -15, 80, 8));
}

proof fn lemma_tangent_13_31()
    ensures
        sline_eval(g1p(65, 3), g1p(65, 3), dq(20, 78)) == Some((gt_of(25, 14), g1p(18, 52))),
{
    lemma_tangent_at((65, 3), (20, 78), (0, 6, 17, 1, 42, 2133, 18, 16, 52, 19), (98, -28, 32, 8, 78, -1, 69, -1), (10, 74, 86, 63, 65, -33, 98, -18), (25, -17, 14, 53));
}

proof fn lemma_tangent_14_31()
    ensures
        sline_eval(g1p(26, 56), g1p(26, 56), dq(20, 78)) == Some((gt_of(21, 2), g1p(32, 59))),
{
    lemma_tangent_at((26, 56), (20, 78), (1, 11, 46, 5, 65, 923, 32, 41, 59, -5), (27, -17, 88, 12, 96, -1, 13, -1), (20, 44, 62, 27, 8, -32, 73, -13), (21, -2, 2, 61));
}

proof fn lemma_tangent_15_31()
    ensures
        sline_eval(g1p(68, 27), g1p(68, 27), dq(20, 78)) == Some((gt_of(41, 12), g1p(65, 3))),
{
    lemma_tangent_at((68, 27), (20, 78), (0, 54, 58, 31, 10, 7966, 65, -1, 3, 0), (27, -7, 99, 1, 24, 0, 2, -1), (58, 67, 98, 65, 53, -83, 60, -20), (41, 11, 12, 14));
}

proof fn lemma_tangent_16_31()
    ensures
        sline_eval(g1p(1, 99), g1p(1, 99), dq(20, 78)) == Some((gt_of(91, 1), g1p(68, 27))),
{
    lemma_tangent_at((1, 99), (20, 78), (1, 97, 25, 24, 75, 0, 68, 55, 27, -51), (26, -1, 86, 14, 54, -1, 15, -1), (63, 21, 77, 16, 92, -68, 76, -16), (91, 37, 1, 43));
}

proof fn lemma_tangent_1_32()
    ensures
        sline_eval(g1p(1, 2), g1p(1, 2), dq(65, 98)) == Some((gt_of(79, 46), g1p(68, 74))),
{
    lemma_tangent_at((1, 2), (65, 98), (0, 4, 76, 3, 26, 2, 68, 6, 74, -18), (75, -1, 74, 16, 21, 0, 27, -1), (131, 38, 8, 3, 47, -11, 86, -6), (79, -14, 46, 7));
}

proof fn lemma_tangent_2_32()
    ensures
        sline_eval(g1p(68, 74), g1p(68, 74), dq(65, 98)) == Some((gt_of(66, 28), g1p(65, 98))),
{
    lemma_tangent_at((68, 74), (65, 98), (1, 47, 43, 20, 91, 5905, 65, 80, 98, 1), (74, -62, 57, 58, 51, -1, 44, -1), (125, 50, 99, 49, 58, -128, 29, -64), (66, 16, 28, 27));
}

proof fn lemma_tangent_3_32()
    ensures
        sline_eval(g1p(26, 45), g1p(26, 45), dq(65, 98)) == Some((gt_of(89, 14), g1p(32, 42))),
{
    lemma_tangent_at((26, 45), (65, 98), (0, 90, 55, 49, 36, 1104, 32, 12, 42, -3), (74, -10, 17, 23, 80, -1, 84, -1), (72, 57, 39, 22, 55, -38, 91, -26), (89, -33, 14, 42));
}

proof fn lemma_tangent_4_32()
    ensures
        sline_eval(g1p(65, 98), g1p(65, 98), dq(65, 98)) == Some((gt_of(84, 84), g1p(18, 49))),
{
    lemma_tangent_at((65, 98), (65, 98), (1, 95, 84, 79, 59, 10541, 18, 33, 49, 26), (3, -38, 98, 37, 98, -1, 3, -1), (56, 63, 93, 58, 58, -77, 15, -60), (84, 55, 84, 15));
}

proof fn lemma_tangent_5_32()
    ensures
        sline_eval(g1p(12, 32), g1p(12, 32), dq(65, 98)) == Some((gt_of(19, 97), g1p(91, 66))),
{
    lemma_tangent_at((12, 32), (65, 98), (0, 64, 30, 19, 32, 128, 91, 9, 66, -26), (20, -4, 60, 20, 46, 0, 41, -1), (182, 39, 57, 22, 97, -89, 32, -37), (19, 31, 97, 40));
}

proof fn lemma_tangent_6_32()
    ensures
        sline_eval(g1p(32, 42), g1p(32, 42), dq(65, 98)) == Some((gt_of(66, 24), g1p(12, 69))),
{
    lemma_tangent_at((32, 42), (65, 98), (0, 84, 95, 79, 51, 2889, 12, 25, 69, 9), (85, -17, 83, 32, 72, -1, 18, -1), (50, 99, 50, 49, 89, -39, 83, -33), (66, 48, 24, 60));
}

proof fn lemma_tangent_7_32()
    ensures
        sline_eval(g1p(91, 35), g1p(91, 35), dq(65, 98)) == Some((gt_of(5, 19), g1p(26, 56))),
{
    lemma_tangent_at((91, 35), (65, 98), (0, 70, 13, 9, 62, 3197, 26, 36, 56, 39), (14, -56, 91, 39, 49, 0, 10, -1), (65, 26, 35, 9, 47, -32, 48, -23), (5, 18, 19, 23));
}

proof fn lemma_tangent_8_32()
    ensures
        sline_eval(g1p(18, 49), g1p(18, 49), dq(65, 98)) == Some((gt_of(3, 19), g1p(1, 99))),
{
    lemma_tangent_at((18, 49), (65, 98), (0, 98, 67, 65, 80, 644, 1, 63, 99, 12), (75, -15, 49, 51, 75, -1, 52, -1), (42, 49, 33, 16, 44, -22, 77, -22), (3, -7, 19, 40));
}

proof fn lemma_tangent_9_32()
    ensures
        sline_eval(g1p(18, 52), g1p(18, 52), dq(65, 98)) == Some((gt_of(36, 24), g1p(1, 2))),
{
    lemma_tangent_at((18, 52), (65, 98), (1, 3, 34, 1, 21, 327, 1, 4, 2, 3), (26, -4, 52, 13, 20, 0, 49, -1), (42, 49, 33, 16, 44, -22, 77, -22), (36, -29, 24, -1));
}

proof fn lemma_tangent_10_32()
    ensures
        sline_eval(g1p(91, 66), g1p(91, 66), dq(65, 98)) == Some((gt_of(16, 97), g1p(26, 45))),
{
    lemma_tangent_at((91, 66), (65, 98), (1, 31, 88, 27, 39, 21645, 26, 13, 45, 24), (87, -36, 10, 25, 46, -1, 91, -1), (65, 26, 35, 9, 47, -32, 48, -23), (16, -22, 97, 20));
}

proof fn lemma_tangent_11_32()
    ensures
        sline_eval(g1p(32, 59), g1p(32, 59), dq(65, 98)) == Some((gt_of(6, 84), g1p(12, 32))),
{
    lemma_tangent_at((32, 59), (65, 98), (1, 17, 6, 1, 50, 182, 12, 24, 32, 9), (16, -16, 18, 32, 23, 0, 83, -1), (50, 99, 50, 49, 89, -39, 83, -33), (6, -48, 84, 23));
}

proof fn lemma_tangent_12_32()
    ensures
        sline_eval(g1p(12, 69), g1p(12, 69), dq(65, 98)) == Some((gt_of(5, 14), g1p(91, 35))),
{
    lemma_tangent_at((12, 69), (65, 98), (1, 37, 71, 26, 69, 303, 91, 46, 35, -55), (81, -9, 41, 44, 49, -1, 60, -1), (182, 39, 57, 22, 97, -89, 32, -37), (5, 28, 14, 54));
}

proof fn lemma_tangent_13_32()
    ensures
        sline_eval(g1p(65, 3), g1p(65, 3), dq(65, 98)) == Some((gt_of(73, 28), g1p(18, 52))),
{
    lemma_tangent_at((65, 3), (65, 98), (0, 6, 17, 1, 42, 2133, 18, 16, 52, 19), (98, -28, 3, 27, 98, -1, 98, -1), (56, 63, 93, 58, 58, -77, 15, -60), (73, 41, 28, 56));
}

proof fn lemma_tangent_14_32()
    ensures
        sline_eval(g1p(26, 56), g1p(26, 56), dq(65, 98)) == Some((gt_of(86, 46), g1p(32, 59))),
{
    lemma_tangent_at((26, 56), (65, 98), (1, 11, 46, 5, 65, 923, 32, 41, 59, -5), (27, -17, 84, 41, 15, 0, 17, -1), (72, 57, 39, 22, 55, -38, 91, -26), (86, -8, 46, 7));
}

proof fn lemma_tangent_15_32()
    ensures
        sline_eval(g1p(68, 27), g1p(68, 27), dq(65, 98)) == Some((gt_of(91, 0), g1p(65, 3))),
{
    lemma_tangent_at((68, 27), (65, 98), (0, 54, 58, 31, 10, 7966, 65, -1, 3, 0), (27, -7, 44, 6, 44, 0, 57, -1), (125, 50, 99, 49, 58, -128, 29, -64), (91, 8, 0, 29));
}

proof fn lemma_tangent_16_32()
    ensures
        sline_eval(g1p(1, 99), g1p(1, 99), dq(65, 98)) == Some((gt_of(43, 44), g1p(68, 27))),
{
    lemma_tangent_at((1, 99), (65, 98), (1, 97, 25, 24, 75, 0, 68, 55, 27, -51), (26, -1, 27, 48, 74, -1, 74, -1), (131, 38, 8, 3, 47, -11, 86, -6), (43, -29, 44, 34));
}

proof fn lemma_tangent_1_33()
    ensures
        sline_eval(g1p(1, 2), g1p(1, 2), dq(30, 6)) == Some((gt_of(44, 7), g1p(68, 74))),
{
    lemma_tangent_at((1, 2), (30, 6), (0, 4, 76, 3, 26, 2, 68, 6, 74, -18), (75, -1, 73, 7, 30, -1, 28, -1), (74, 90, 55, 49, 64, -54, 67, -17), (44, 0, 7, 19));
}

proof fn lemma_tangent_2_33()
    ensures
        sline_eval(g1p(68, 74), g1p(68, 74), dq(30, 6)) == Some((gt_of(54, 83), g1p(65, 98))),
{
    lemma_tangent_at((68, 74), (30, 6), (1, 47, 43, 20, 91, 5905, 65, 80, 98, 1), (74, -62, 3, 27, 60, -2, 98, -1), (70, 5, 81, 4, 82, -77, 95, -25), (54, -44, 83, 43));
}

proof fn lemma_tangent_3_33()
    ensures
        sline_eval(g1p(26, 45), g1p(26, 45), dq(30, 6)) == Some((gt_of(84, 32), g1p(32, 42))),
{
    lemma_tangent_at((26, 45), (30, 6), (0, 90, 55, 49, 36, 1104, 32, 12, 42, -3), (74, -10, 70, 10, 89, -2, 31, -1), (28, 56, 92, 51, 53, -57, 68, -28), (84, 25, 32, 55));
}

proof fn lemma_tangent_4_33()
    ensures
        sline_eval(g1p(65, 98), g1p(65, 98), dq(30, 6)) == Some((gt_of(46, 53), g1p(18, 49))),
{
    lemma_tangent_at((65, 98), (30, 6), (1, 95, 84, 79, 59, 10541, 18, 33, 49, 26), (3, -38, 53, 17, 6, -1, 48, -1), (17, 47, 43, 20, 57, -21, 23, -13), (46, -8, 53, 17));
}

proof fn lemma_tangent_5_33()
    ensures
        sline_eval(g1p(12, 32), g1p(12, 32), dq(30, 6)) == Some((gt_of(15, 20), g1p(91, 66))),
{
    lemma_tangent_at((12, 32), (30, 6), (0, 64, 30, 19, 32, 128, 91, 9, 66, -26), (20, -4, 51, 9, 55, -1, 50, -1), (117, 94, 72, 67, 75, -87, 62, -22), (15, 10, 20, 40));
}

proof fn lemma_tangent_6_33()
    ensures
        sline_eval(g1p(32, 42), g1p(32, 42), dq(30, 6)) == Some((gt_of(62, 23), g1p(12, 69))),
{
    lemma_tangent_at((32, 42), (30, 6), (0, 84, 95, 79, 51, 2889, 12, 25, 69, 9), (85, -17, 15, 15, 81, -2, 86, -1), (13, 91, 10, 9, 85, -5, 3, -3), (62, 65, 23, 72));
}

proof fn lemma_tangent_7_33()
    ensures
        sline_eval(g1p(91, 35), g1p(91, 35), dq(30, 6)) == Some((gt_of(96, 63), g1p(26, 56))),
{
    lemma_tangent_at((91, 35), (30, 6), (0, 70, 13, 9, 62, 3197, 26, 36, 56, 39), (14, -56, 42, 18, 58, -1, 59, -1), (23, 33, 49, 16, 84, -28, 45, -15), (96, 21, 63, 48));
}

proof fn lemma_tangent_8_33()
    ensures
        sline_eval(g1p(18, 49), g1p(18, 49), dq(30, 6)) == Some((gt_of(98, 68), g1p(1, 99))),
{
    lemma_tangent_at((18, 49), (30, 6), (0, 98, 67, 65, 80, 644, 1, 63, 99, 12), (75, -15, 77, 23, 84, -2, 24, -1), (9, 22, 23, 5, 95, -8, 17, -7), (98, 74, 68, 32));
}

proof fn lemma_tangent_9_33()
    ensures
        sline_eval(g1p(18, 52), g1p(18, 52), dq(30, 6)) == Some((gt_of(32, 35), g1p(1, 2))),
{
    lemma_tangent_at((18, 52), (30, 6), (1, 3, 34, 1, 21, 327, 1, 4, 2, 3), (26, -4, 24, 6, 29, -1, 77, -1), (9, 22, 23, 5, 95, -8, 17, -7), (32, 14, 35, 64));
}

proof fn lemma_tangent_10_33()
    ensures
        sline_eval(g1p(91, 66), g1p(91, 66), dq(30, 6)) == Some((gt_of(3, 73), g1p(26, 45))),
{
    lemma_tangent_at((91, 66), (30, 6), (1, 31, 88, 27, 39, 21645, 26, 13, 45, 24), (87, -36, 59, 11, 55, -2, 42, -1), (23, 33, 49, 16, 84, -28, 45, -15), (3, 27, 73, 40));
}

proof fn lemma_tangent_11_33()
    ensures
        sline_eval(g1p(32, 59), g1p(32, 59), dq(30, 6)) == Some((gt_of(49, 13), g1p(12, 32))),
{
    lemma_tangent_at((32, 59), (30, 6), (1, 17, 6, 1, 50, 182, 12, 24, 32, 9), (16, -16, 86, 14, 32, -1, 15, -1), (13, 91, 10, 9, 85, -5, 3, -3), (49, 26, 13, 13));
}

proof fn lemma_tangent_12_33()
    ensures
        sline_eval(g1p(12, 69), g1p(12, 69), dq(30, 6)) == Some((gt_of(77, 17), g1p(91, 35))),
{
    lemma_tangent_at((12, 69), (30, 6), (1, 37, 71, 26, 69, 303, 91, 46, 35, -55), (81, -9, 50, 20, 58, -2, 51, -1), (117, 94, 72, 67, 75, -87, 62, -22), (77, 11, 17, 42));
}

proof fn lemma_tangent_13_33()
    ensures
        sline_eval(g1p(65, 3), g1p(65, 3), dq(30, 6)) == Some((gt_of(32, 21), g1p(18, 52))),
{
    lemma_tangent_at((65, 3), (30, 6), (0, 6, 17, 1, 42, 2133, 18, 16, 52, 19), (98, -28, 48, 12, 6, -1, 53, -1), (17, 47, 43, 20, 57, -21, 23, -13), (32, -9, 21, 19));
}

proof fn lemma_tangent_14_33()
    ensures
        sline_eval(g1p(26, 56), g1p(26, 56), dq(30, 6)) == Some((gt_of(47, 77), g1p(32, 59))),
{
    lemma_tangent_at((26, 56), (30, 6), (1, 11, 46, 5, 65, 923, 32, 41, 59, -5), (27, -17, 31, 19, 24, -1, 70, -1), (28, 56, 92, 51, 53, -57, 68, -28), (47, -35, 77, 5));
}

proof fn lemma_tangent_15_33()
    ensures
        sline_eval(g1p(68, 27), g1p(68, 27), dq(30, 6)) == Some((gt_of(21, 47), g1p(65, 3))),
{
    lemma_tangent_at((68, 27), (30, 6), (0, 54, 58, 31, 10, 7966, 65, -1, 3, 0), (27, -7, 98, 2, 53, -1, 3, -1), (70, 5, 81, 4, 82, -77, 95, -25), (21, 40, 47, 49));
}

proof fn lemma_tangent_16_33()
    ensures
        sline_eval(g1p(1, 99), g1p(1, 99), dq(30, 6)) == Some((gt_of(17, 90), g1p(68, 27))),
{
    lemma_tangent_at((1, 99), (30, 6), (1, 97, 25, 24, 75, 0, 68, 55, 27, -51), (26, -1, 28, 22, 83, -2, 73, -1), (74, 90, 55, 49, 64, -54, 67, -17), (17, 4, 90, 52));
}

proof fn lemma_final_exp_1_1()
    ensures
        GT(gt_of(66, 70)).spow(600) == GT(gt_of(96, 29)),
{
    assert(GT::sone() == GT(gt_of(1, 0)));
    lemma_gt_mul_at((66, 70), (66, 70), (62, 98), (-6, 42));
    assert(GT::spow_steps(GT(gt_of(1, 0)), GT(gt_of(66, 70)), 600) == GT::spow_steps(GT(gt_of(1, 0)), GT(gt_of(62, 98)), 300));
    lemma_gt_mul_at((62, 98), (62, 98), (98, 23), (-58, 25));
    assert(GT::spow_steps(GT(gt_of(1, 0)), GT(gt_of(62, 98)), 300) == GT::spow_steps(GT(gt_of(1, 0)), GT(gt_of(98, 23)), 150));
    lemma_gt_mul_at((98, 23), (98, 23), (86, 40), (89, 39));
    assert(GT::spow_steps(GT(gt_of(1, 0)), GT(gt_of(98, 23)), 150) == GT::spow_steps(GT(gt_of(1, 0)), GT(gt_of(86, 40)), 75));
    lemma_gt_mul_at((1, 0), (86, 40), (86, 40), (0, 0));
    lemma_gt_mul_at((86, 40), (86, 40), (39, 28), (57, 52));
    assert(GT::spow_steps(GT(gt_of(1, 0)), GT(gt_of(86, 40)), 75) == GT::spow_steps(GT(gt_of(86, 40)), GT(gt_of(39, 28)), 37));
    lemma_gt_mul_at((86, 40), (39, 28), (12, 20), (22, 28));
    lemma_gt_mul_at((39, 28), (39, 28), (30, 87), (7, 13));
    assert(GT::spow_steps(GT(gt_of(86, 40)), GT(gt_of(39, 28)), 37) == GT::spow_steps(GT(gt_of(12, 20)), GT(gt_of(30, 87)), 18));
    lemma_gt_mul_at((30, 87), (30, 87), (98, 75), (-67, -24));
    assert(GT::spow_steps(GT(gt_of(12, 20)), GT(gt_of(30, 87)), 18) == GT::spow_steps(GT(gt_of(12, 20)), GT(gt_of(98, 75)), 9));
    lemma_gt_mul_at((12, 20), (98, 75), (80, 47), (-4, 13));
    lemma_gt_mul_at((98, 75), (98, 75), (40, 86), (39, 89));
    assert(GT::spow_steps(GT(gt_of(12, 20)), GT(gt_of(98, 75)), 9) == GT::spow_steps(GT(gt_of(80, 47)), GT(gt_of(40, 86)), 4));
    lemma_gt_mul_at((40, 86), (40, 86), (62, 90), (-58, -6));
    assert(GT::spow_steps(GT(gt_of(80, 47)), GT(gt_of(40, 86)), 4) == GT::spow_steps(GT(gt_of(80, 47)), GT(gt_of(62, 90)), 2));
    lemma_gt_mul_at((62, 90), (62, 90), (87, 30), (-43, 30));
    assert(GT::spow_steps(GT(gt_of(80, 47)), GT(gt_of(62, 90)), 2) == GT::spow_steps(GT(gt_of(80, 47)), GT(gt_of(87, 30)), 1));
    lemma_gt_mul_at((80, 47), (87, 30), (96, 29), (54, 50));
    lemma_gt_mul_at((87, 30), (87, 30), (3, 78), (66, 42));
    assert(GT::spow_steps(GT(gt_of(80, 47)), GT(gt_of(87, 30)), 1) == GT::spow_steps(GT(gt_of(96, 29)), GT(gt_of(3, 78)), 0));
}

/// The pairing of `1G` with the point `1 P` of the image of `H`.
proof fn lemma_pairing_1_1()
    ensures
        smiller_loop(g1p(1, 2), dq(30, 95)) is Some,
        spairing_at(g1p(1, 2), dq(30, 95)) == GT(gt_of(96, 29)),
{
    lemma_final_exponent();
    lemma_tangent_1_1();
    lemma_tangent_2_1();
    lemma_tangent_4_1();
    lemma_tangent_8_1();
    lemma_vertical_at(1, 99, 2, 30, 95);
    lemma_miller_at(
        g1p(1, 2),
        dq(30, 95),
        (g1p(68, 74), g1p(65, 98), g1p(18, 49), g1p(1, 99)),
        (84, 11),
        (80, 54),
        (69, 80),
        (69, 66),
        (-1, 30),
        ((67, 10, 68, 17), (73, 40, 47, 38), (93, 99, 36, 41), (12, 89, -15, 62)),
        ((0, 73, -77, -58), (30, 17, -48, 2), (66, 70, -6, 3)),
    );
    lemma_final_exp_1_1();
}

proof fn lemma_final_exp_2_1()
    ensures
        GT(gt_of(55, 12)).spow(600) == GT(gt_of(93, 81)),
{
    assert(GT::sone() == GT(gt_of(1, 0)));
    lemma_gt_mul_at((55, 12), (55, 12), (53, 65), (28, 11));
    assert(GT::spow_steps(GT(gt_of(1, 0)), GT(gt_of(55, 12)), 600) == GT::spow_steps(GT(gt_of(1, 0)), GT(gt_of(53, 65)), 300));
    lemma_gt_mul_at((53, 65), (53, 65), (99, 39), (-15, 26));
    assert(GT::spow_steps(GT(gt_of(1, 0)), GT(gt_of(53, 65)), 300) == GT::spow_steps(GT(gt_of(1, 0)), GT(gt_of(99, 39)), 150));
    lemma_gt_mul_at((99, 39), (99, 39), (99, 40), (81, 61));
    assert(GT::spow_steps(GT(gt_of(1, 0)), GT(gt_of(99, 39)), 150) == GT::spow_steps(GT(gt_of(1, 0)), GT(gt_of(99, 40)), 75));
    lemma_gt_mul_at((1, 0), (99, 40), (99, 40), (0, 0));
    lemma_gt_mul_at((99, 40), (99, 40), (20, 58), (81, 62));
    assert(GT::spow_steps(GT(gt_of(1, 0)), GT(gt_of(99, 40)), 75) == GT::spow_steps(GT(gt_of(99, 40)), GT(gt_of(20, 58)), 37));
    lemma_gt_mul_at((99, 40), (20, 58), (64, 81), (-4, 41));
    lemma_gt_mul_at((20, 58), (20, 58), (66, 67), (-30, -11));
    assert(GT::spow_steps(GT(gt_of(99, 40)), GT(gt_of(20, 58)), 37) == GT::spow_steps(GT(gt_of(64, 81)), GT(gt_of(66, 67)), 18));
    lemma_gt_mul_at((66, 67), (66, 67), (69, 12), (-2, 43));
    assert(GT::spow_steps(GT(gt_of(64, 81)), GT(gt_of(66, 67)), 18) == GT::spow_steps(GT(gt_of(64, 81)), GT(gt_of(69, 12)), 9));
    lemma_gt_mul_at((64, 81), (69, 12), (10, 32), (34, 53));
    lemma_gt_mul_at((69, 12), (69, 12), (72, 98), (45, 14));
    assert(GT::spow_steps(GT(gt_of(64, 81)), GT(gt_of(69, 12)), 9) == GT::spow_steps(GT(gt_of(10, 32)), GT(gt_of(72, 98)), 4));
    lemma_gt_mul_at((72, 98), (72, 98), (24, 64), (-44, 44));
    assert(GT::spow_steps(GT(gt_of(10, 32)), GT(gt_of(72, 98)), 4) == GT::spow_steps(GT(gt_of(10, 32)), GT(gt_of(24, 64)), 2));
    lemma_gt_mul_at((24, 64), (24, 64), (15, 87), (-35, -11));
    assert(GT::spow_steps(GT(gt_of(10, 32)), GT(gt_of(24, 64)), 2) == GT::spow_steps(GT(gt_of(10, 32)), GT(gt_of(15, 87)), 1));
    lemma_gt_mul_at((10, 32), (15, 87), (93, 81), (-27, -15));
    lemma_gt_mul_at((15, 87), (15, 87), (29, 91), (-73, -50));
    assert(GT::spow_steps(GT(gt_of(10, 32)), GT(gt_of(15, 87)), 1) == GT::spow_steps(GT(gt_of(93, 81)), GT(gt_of(29, 91)), 0));
}

/// The pairing of `2G` with the point `1 P` of the image of `H`.
proof fn lemma_pairing_2_1()
    ensures
        smiller_loop(g1p(68, 74), dq(30, 95)) is Some,
        spairing_at(g1p(68, 74), dq(30, 95)) == GT(gt_of(93, 81)),
{
    lemma_final_exponent();
    lemma_tangent_2_1();
    lemma_tangent_4_1();
    lemma_tangent_8_1();
    lemma_tangent_16_1();
    lemma_vertical_at(68, 27, 74, 30, 95);
    lemma_miller_at(
        g1p(68, 74),
        dq(30, 95),
        (g1p(65, 98), g1p(18, 49), g1p(1, 99), g1p(68, 27)),
        (80, 54),
        (69, 80),
        (69, 66),
        (57, 94),
        (-68, 30),
        ((50, 68, 34, 56), (30, 20, -20, 32), (96, 93, 4, 7), (82, 50, 4, 65)),
        ((83, 44, 41, 56), (90, 13, 5, 61), (55, 12, -65, 14)),
    );
    lemma_final_exp_2_1();
}

proof fn lemma_final_exp_3_1()
    ensures
        GT(gt_of(93, 19)).spow(600) == GT(gt_of(14, 44)),
{
    assert(GT::sone() == GT(gt_of(1, 0)));
    lemma_gt_mul_at((93, 19), (93, 19), (6, 42), (82, 31));
    assert(GT::spow_steps(GT(gt_of(1, 0)), GT(gt_of(93, 19)), 600) == GT::spow_steps(GT(gt_of(1, 0)), GT(gt_of(6, 42)), 300));
    lemma_gt_mul_at((6, 42), (6, 42), (90, 53), (-18, -13));
    assert(GT::spow_steps(GT(gt_of(1, 0)), GT(gt_of(6, 42)), 300) == GT::spow_steps(GT(gt_of(1, 0)), GT(gt_of(90, 53)), 150));
    lemma_gt_mul_at((90, 53), (90, 53), (39, 65), (52, 66));
    assert(GT::spow_steps(GT(gt_of(1, 0)), GT(gt_of(90, 53)), 150) == GT::spow_steps(GT(gt_of(1, 0)), GT(gt_of(39, 65)), 75));
    lemma_gt_mul_at((1, 0), (39, 65), (39, 65), (0, 0));
    lemma_gt_mul_at((39, 65), (39, 65), (23, 37), (-27, 8));
    assert(GT::spow_steps(GT(gt_of(1, 0)), GT(gt_of(39, 65)), 75) == GT::spow_steps(GT(gt_of(39, 65)), GT(gt_of(23, 37)), 37));
    lemma_gt_mul_at((39, 65), (23, 37), (7, 28), (-15, 5));
    lemma_gt_mul_at((23, 37), (23, 37), (69, 30), (-9, 3));
    assert(GT::spow_steps(GT(gt_of(39, 65)), GT(gt_of(23, 37)), 37) == GT::spow_steps(GT(gt_of(7, 28)), GT(gt_of(69, 30)), 18));
    lemma_gt_mul_at((69, 30), (69, 30), (23, 8), (38, 32));
    assert(GT::spow_steps(GT(gt_of(7, 28)), GT(gt_of(69, 30)), 18) == GT::spow_steps(GT(gt_of(7, 28)), GT(gt_of(23, 8)), 9));
    lemma_gt_mul_at((7, 28), (23, 8), (38, 72), (-1, 4));
    lemma_gt_mul_at((23, 8), (23, 8), (61, 1), (4, 3));
    assert(GT::spow_steps(GT(gt_of(7, 28)), GT(gt_of(23, 8)), 9) == GT::spow_steps(GT(gt_of(38, 72)), GT(gt_of(61, 1)), 4));
    lemma_gt_mul_at((61, 1), (61, 1), (84, 20), (36, 1));
    assert(GT::spow_steps(GT(gt_of(38, 72)), GT(gt_of(61, 1)), 4) == GT::spow_steps(GT(gt_of(38, 72)), GT(gt_of(84, 20)), 2));
    lemma_gt_mul_at((84, 20), (84, 20), (91, 31), (65, 29));
    assert(GT::spow_steps(GT(gt_of(38, 72)), GT(gt_of(84, 20)), 2) == GT::spow_steps(GT(gt_of(38, 72)), GT(gt_of(91, 31)), 1));
    lemma_gt_mul_at((38, 72), (91, 31), (14, 44), (12, 54));
    lemma_gt_mul_at((91, 31), (91, 31), (48, 35), (72, 46));
    assert(GT::spow_steps(GT(gt_of(38, 72)), GT(gt_of(91, 31)), 1) == GT::spow_steps(GT(gt_of(14, 44)), GT(gt_of(48, 35)), 0));
}

/// The pairing of `3G` with the point `1 P` of the image of `H`.
proof fn lemma_pairing_3_1()
    ensures
        smiller_loop(g1p(26, 45), dq(30, 95)) is Some,
        spairing_at(g1p(26, 45), dq(30, 95)) == GT(gt_of(14, 44)),
{
    lemma_final_exponent();
    lemma_tangent_3_1();
    lemma_tangent_6_1();
    lemma_tangent_12_1();
    lemma_tangent_7_1();
    lemma_vertical_at(26, 56, 45, 30, 95);
    lemma_miller_at(
        g1p(26, 45),
        dq(30, 95),
        (g1p(32, 42), g1p(12, 69), g1p(91, 35), g1p(26, 56)),
        (54, 24),
        (52, 88),
        (86, 81),
        (98, 28),
        (-26, 30),
        ((17, 97, 23, 19), (24, 24, -76, -20), (0, 71, 0, 5), (6, 52, -57, 3)),
        ((59, 41, -27, -21), (89, 78, 45, 44), (93, 19, -47, -17)),
    );
    lemma_final_exp_3_1();
}

proof fn lemma_final_exp_4_1()
    ensures
        GT(gt_of(80, 17)).spow(600) == GT(gt_of(68, 21)),
{
    assert(GT::sone() == GT(gt_of(1, 0)));
    lemma_gt_mul_at((80, 17), (80, 17), (51, 7), (60, 24));
    assert(GT::spow_steps(GT(gt_of(1, 0)), GT(gt_of(80, 17)), 600) == GT::spow_steps(GT(gt_of(1, 0)), GT(gt_of(51, 7)), 300));
    lemma_gt_mul_at((51, 7), (51, 7), (27, 59), (25, 6));
    assert(GT::spow_steps(GT(gt_of(1, 0)), GT(gt_of(51, 7)), 300) == GT::spow_steps(GT(gt_of(1, 0)), GT(gt_of(27, 59)), 150));
    lemma_gt_mul_at((27, 59), (27, 59), (76, 8), (-28, -3));
    assert(GT::spow_steps(GT(gt_of(1, 0)), GT(gt_of(27, 59)), 150) == GT::spow_steps(GT(gt_of(1, 0)), GT(gt_of(76, 8)), 75));
    lemma_gt_mul_at((1, 0), (76, 8), (76, 8), (0, 0));
    lemma_gt_mul_at((76, 8), (76, 8), (56, 41), (56, 11));
    assert(GT::spow_steps(GT(gt_of(1, 0)), GT(gt_of(76, 8)), 75) == GT::spow_steps(GT(gt_of(76, 8)), GT(gt_of(56, 41)), 37));
    lemma_gt_mul_at((76, 8), (56, 41), (90, 4), (38, 32));
    lemma_gt_mul_at((56, 41), (56, 41), (41, 83), (14, 28));
    assert(GT::spow_steps(GT(gt_of(76, 8)), GT(gt_of(56, 41)), 37) == GT::spow_steps(GT(gt_of(90, 4)), GT(gt_of(41, 83)), 18));
    lemma_gt_mul_at((41, 83), (41, 83), (44, 18), (-52, -1));
    assert(GT::spow_steps(GT(gt_of(90, 4)), GT(gt_of(41, 83)), 18) == GT::spow_steps(GT(gt_of(90, 4)), GT(gt_of(44, 18)), 9));
    lemma_gt_mul_at((90, 4), (44, 18), (50, 7), (38, 17));
    lemma_gt_mul_at((44, 18), (44, 18), (97, 48), (15, 12));
    assert(GT::spow_steps(GT(gt_of(90, 4)), GT(gt_of(44, 18)), 9) == GT::spow_steps(GT(gt_of(50, 7)), GT(gt_of(97, 48)), 4));
    lemma_gt_mul_at((97, 48), (97, 48), (35, 39), (70, 69));
    assert(GT::spow_steps(GT(gt_of(50, 7)), GT(gt_of(97, 48)), 4) == GT::spow_steps(GT(gt_of(50, 7)), GT(gt_of(35, 39)), 2));
    lemma_gt_mul_at((35, 39), (35, 39), (7, 98), (-3, 11));
    assert(GT::spow_steps(GT(gt_of(50, 7)), GT(gt_of(35, 39)), 2) == GT::spow_steps(GT(gt_of(50, 7)), GT(gt_of(7, 98)), 1));
    lemma_gt_mul_at((50, 7), (7, 98), (68, 21), (-4, 42));
    lemma_gt_mul_at((7, 98), (7, 98), (40, 50), (-95, -82));
    assert(GT::spow_steps(GT(gt_of(50, 7)), GT(gt_of(7, 98)), 1) == GT::spow_steps(GT(gt_of(68, 21)), GT(gt_of(40, 50)), 0));
}

/// The pairing of `4G` with the point `1 P` of the image of `H`.
proof fn lemma_pairing_4_1()
    ensures
        smiller_loop(g1p(65, 98), dq(30, 95)) is Some,
        spairing_at(g1p(65, 98), dq(30, 95)) == GT(gt_of(68, 21)),
{
    lemma_final_exponent();
    lemma_tangent_4_1();
    lemma_tangent_8_1();
    lemma_tangent_16_1();
    lemma_tangent_15_1();
    lemma_vertical_at(65, 3, 98, 30, 95);
    lemma_miller_at(
        g1p(65, 98),
        dq(30, 95),
        (g1p(18, 49), g1p(1, 99), g1p(68, 27), g1p(65, 3)),
        (69, 80),
        (69, 66),
        (57, 94),
        (47, 18),
        (-65, 30),
        ((78, 95, -17, 45), (21, 80, -9, 53), (0, 91, -59, -31), (31, 67, -85, -34)),
        ((7, 69, -35, -4), (97, 6, -10, 21), (80, 17, -65, 23)),
    );
    lemma_final_exp_4_1();
}

proof fn lemma_final_exp_5_1()
    ensures
        GT(gt_of(58, 84)).spow(600) == GT(gt_of(61, 46)),
{
    assert(GT::sone() == GT(gt_of(1, 0)));
    lemma_gt_mul_at((58, 84), (58, 84), (45, 62), (-37, 26));
    assert(GT::spow_steps(GT(gt_of(1, 0)), GT(gt_of(58, 84)), 600) == GT::spow_steps(GT(gt_of(1, 0)), GT(gt_of(45, 62)), 300));
    lemma_gt_mul_at((45, 62), (45, 62), (100, 19), (-19, 17));
    assert(GT::spow_steps(GT(gt_of(1, 0)), GT(gt_of(45, 62)), 300) == GT::spow_steps(GT(gt_of(1, 0)), GT(gt_of(100, 19)), 150));
    lemma_gt_mul_at((100, 19), (100, 19), (44, 5), (95, 34));
    assert(GT::spow_steps(GT(gt_of(1, 0)), GT(gt_of(100, 19)), 150) == GT::spow_steps(GT(gt_of(1, 0)), GT(gt_of(44, 5)), 75));
    lemma_gt_mul_at((1, 0), (44, 5), (44, 5), (0, 0));
    lemma_gt_mul_at((44, 5), (44, 5), (93, 11), (18, 4));
    assert(GT::spow_steps(GT(gt_of(1, 0)), GT(gt_of(44, 5)), 75) == GT::spow_steps(GT(gt_of(44, 5)), GT(gt_of(93, 11)), 37));
    lemma_gt_mul_at((44, 5), (93, 11), (98, 86), (39, 8));
    lemma_gt_mul_at((93, 11), (93, 11), (44, 6), (84, 19));
    assert(GT::spow_steps(GT(gt_of(44, 5)), GT(gt_of(93, 11)), 37) == GT::spow_steps(GT(gt_of(98, 86)), GT(gt_of(44, 6)), 18));
    lemma_gt_mul_at((44, 6), (44, 6), (82, 88), (18, 4));
    assert(GT::spow_steps(GT(gt_of(98, 86)), GT(gt_of(44, 6)), 18) == GT::spow_steps(GT(gt_of(98, 86)), GT(gt_of(82, 88)), 9));
    lemma_gt_mul_at((98, 86), (82, 88), (64, 28), (4, 80));
    lemma_gt_mul_at((82, 88), (82, 88), (91, 22), (-11, 66));
    assert(GT::spow_steps(GT(gt_of(98, 86)), GT(gt_of(82, 88)), 9) == GT::spow_steps(GT(gt_of(64, 28)), GT(gt_of(91, 22)), 4));
    lemma_gt_mul_at((91, 22), (91, 22), (20, 86), (77, 34));
    assert(GT::spow_steps(GT(gt_of(64, 28)), GT(gt_of(91, 22)), 4) == GT::spow_steps(GT(gt_of(64, 28)), GT(gt_of(20, 86)), 2));
    lemma_gt_mul_at((20, 86), (20, 86), (74, 84), (-70, -40));
    assert(GT::spow_steps(GT(gt_of(64, 28)), GT(gt_of(20, 86)), 2) == GT::spow_steps(GT(gt_of(64, 28)), GT(gt_of(74, 84)), 1));
    lemma_gt_mul_at((64, 28), (74, 84), (61, 46), (23, 50));
    lemma_gt_mul_at((74, 84), (74, 84), (36, 23), (-16, 53));
    assert(GT::spow_steps(GT(gt_of(64, 28)), GT(gt_of(74, 84)), 1) == GT::spow_steps(GT(gt_of(61, 46)), GT(gt_of(36, 23)), 0));
}

/// The pairing of `5G` with the point `1 P` of the image of `H`.
proof fn lemma_pairing_5_1()
    ensures
        smiller_loop(g1p(12, 32), dq(30, 95)) is Some,
        spairing_at(g1p(12, 32), dq(30, 95)) == GT(gt_of(61, 46)),
{
    lemma_final_exponent();
    lemma_tangent_5_1();
    lemma_tangent_10_1();
    lemma_tangent_3_1();
    lemma_tangent_6_1();
    lemma_vertical_at(12, 69, 32, 30, 95);
    lemma_miller_at(
        g1p(12, 32),
        dq(30, 95),
        (g1p(91, 66), g1p(26, 45), g1p(32, 42), g1p(12, 69)),
        (24, 84),
        (5, 38),
        (54, 24),
        (52, 88),
        (-12, 30),
        ((85, 6, -65, -30), (96, 2, 1, 30), (21, 77, 91, 3), (94, 87, -8, 27)),
        ((55, 0, 12, 87), (32, 93, 28, 47), (58, 84, -32, -30)),
    );
    lemma_final_exp_5_1();
}

proof fn lemma_final_exp_6_1()
    ensures
        GT(gt_of(74, 44)).spow(600) == GT(gt_of(78, 3)),
{
    assert(GT::sone() == GT(gt_of(1, 0)));
    lemma_gt_mul_at((74, 44), (74, 44), (5, 31), (35, 45));
    assert(GT::spow_steps(GT(gt_of(1, 0)), GT(gt_of(74, 44)), 600) == GT::spow_steps(GT(gt_of(1, 0)), GT(gt_of(5, 31)), 300));
    lemma_gt_mul_at((5, 31), (5, 31), (74, 56), (-10, -7));
    assert(GT::spow_steps(GT(gt_of(1, 0)), GT(gt_of(5, 31)), 300) == GT::spow_steps(GT(gt_of(1, 0)), GT(gt_of(74, 56)), 150));
    lemma_gt_mul_at((74, 56), (74, 56), (17, 1), (23, 51));
    assert(GT::spow_steps(GT(gt_of(1, 0)), GT(gt_of(74, 56)), 150) == GT::spow_steps(GT(gt_of(1, 0)), GT(gt_of(17, 1)), 75));
    lemma_gt_mul_at((1, 0), (17, 1), (17, 1), (0, 0));
    lemma_gt_mul_at((17, 1), (17, 1), (86, 33), (2, 0));
    assert(GT::spow_steps(GT(gt_of(1, 0)), GT(gt_of(17, 1)), 75) == GT::spow_steps(GT(gt_of(17, 1)), GT(gt_of(86, 33)), 37));
    lemma_gt_mul_at((17, 1), (86, 33), (15, 8), (14, 6));
    lemma_gt_mul_at((86, 33), (86, 33), (45, 42), (62, 45));
    assert(GT::spow_steps(GT(gt_of(17, 1)), GT(gt_of(86, 33)), 37) == GT::spow_steps(GT(gt_of(15, 8)), GT(gt_of(45, 42)), 18));
    lemma_gt_mul_at((45, 42), (45, 42), (59, 97), (2, 19));
    assert(GT::spow_steps(GT(gt_of(15, 8)), GT(gt_of(45, 42)), 18) == GT::spow_steps(GT(gt_of(15, 8)), GT(gt_of(59, 97)), 9));
    lemma_gt_mul_at((15, 8), (59, 97), (8, 40), (1, 11));
    lemma_gt_mul_at((59, 97), (59, 97), (31, 17), (-59, 20));
    assert(GT::spow_steps(GT(gt_of(15, 8)), GT(gt_of(59, 97)), 9) == GT::spow_steps(GT(gt_of(8, 40)), GT(gt_of(31, 17)), 4));
    lemma_gt_mul_at((31, 17), (31, 17), (66, 58), (6, 7));
    assert(GT::spow_steps(GT(gt_of(8, 40)), GT(gt_of(31, 17)), 4) == GT::spow_steps(GT(gt_of(8, 40)), GT(gt_of(66, 58)), 2));
    lemma_gt_mul_at((66, 58), (66, 58), (83, 50), (9, 42));
    assert(GT::spow_steps(GT(gt_of(8, 40)), GT(gt_of(66, 58)), 2) == GT::spow_steps(GT(gt_of(8, 40)), GT(gt_of(83, 50)), 1));
    lemma_gt_mul_at((8, 40), (83, 50), (78, 3), (-14, 17));
    lemma_gt_mul_at((83, 50), (83, 50), (46, 43), (43, 57));
    assert(GT::spow_steps(GT(gt_of(8, 40)), GT(gt_of(83, 50)), 1) == GT::spow_steps(GT(gt_of(78, 3)), GT(gt_of(46, 43)), 0));
}

/// The pairing of `6G` with the point `1 P` of the image of `H`.
proof fn lemma_pairing_6_1()
    ensures
        smiller_loop(g1p(32, 42), dq(30, 95)) is Some,
        spairing_at(g1p(32, 42), dq(30, 95)) == GT(gt_of(78, 3)),
{
    lemma_final_exponent();
    lemma_tangent_6_1();
    lemma_tangent_12_1();
    lemma_tangent_7_1();
    lemma_tangent_14_1();
    lemma_vertical_at(32, 59, 42, 30, 95);
    lemma_miller_at(
        g1p(32, 42),
        dq(30, 95),
        (g1p(12, 69), g1p(91, 35), g1p(26, 56), g1p(32, 59)),
        (52, 88),
        (86, 81),
        (98, 28),
        (17, 69),
        (-32, 30),
        ((10, 95, -50, 13), (33, 73, -68, 12), (2, 95, -42, -6), (61, 40, -25, 66)),
        ((0, 48, 21, 32), (21, 29, -33, -25), (74, 44, -16, -12)),
    );
    lemma_final_exp_6_1();
}

proof fn lemma_final_exp_7_1()
    ensures
        GT(gt_of(48, 100)).spow(600) == GT(gt_of(28, 39)),
{
    assert(GT::sone() == GT(gt_of(1, 0)));
    lemma_gt_mul_at((48, 100), (48, 100), (81, 4), (-77, -4));
    assert(GT::spow_steps(GT(gt_of(1, 0)), GT(gt_of(48, 100)), 600) == GT::spow_steps(GT(gt_of(1, 0)), GT(gt_of(81, 4)), 300));
    lemma_gt_mul_at((81, 4), (81, 4), (81, 26), (64, 6));
    assert(GT::spow_steps(GT(gt_of(1, 0)), GT(gt_of(81, 4)), 300) == GT::spow_steps(GT(gt_of(1, 0)), GT(gt_of(81, 26)), 150));
    lemma_gt_mul_at((81, 26), (81, 26), (27, 1), (58, 35));
    assert(GT::spow_steps(GT(gt_of(1, 0)), GT(gt_of(81, 26)), 150) == GT::spow_steps(GT(gt_of(1, 0)), GT(gt_of(27, 1)), 75));
    lemma_gt_mul_at((1, 0), (27, 1), (27, 1), (0, 0));
    lemma_gt_mul_at((27, 1), (27, 1), (21, 53), (7, 0));
    assert(GT::spow_steps(GT(gt_of(1, 0)), GT(gt_of(27, 1)), 75) == GT::spow_steps(GT(gt_of(27, 1)), GT(gt_of(21, 53)), 37));
    lemma_gt_mul_at((27, 1), (21, 53), (9, 86), (5, 13));
    lemma_gt_mul_at((21, 53), (21, 53), (56, 23), (-24, -6));
    assert(GT::spow_steps(GT(gt_of(27, 1)), GT(gt_of(21, 53)), 37) == GT::spow_steps(GT(gt_of(9, 86)), GT(gt_of(56, 23)), 18));
    lemma_gt_mul_at((56, 23), (56, 23), (82, 27), (25, 20));
    assert(GT::spow_steps(GT(gt_of(9, 86)), GT(gt_of(56, 23)), 18) == GT::spow_steps(GT(gt_of(9, 86)), GT(gt_of(82, 27)), 9));
    lemma_gt_mul_at((9, 86), (82, 27), (32, 24), (-16, 49));
    lemma_gt_mul_at((82, 27), (82, 27), (36, 63), (59, 36));
    assert(GT::spow_steps(GT(gt_of(9, 86)), GT(gt_of(82, 27)), 9) == GT::spow_steps(GT(gt_of(32, 24)), GT(gt_of(36, 63)), 4));
    lemma_gt_mul_at((36, 63), (36, 63), (54, 62), (-27, 5));
    assert(GT::spow_steps(GT(gt_of(32, 24)), GT(gt_of(36, 63)), 4) == GT::spow_steps(GT(gt_of(32, 24)), GT(gt_of(54, 62)), 2));
    lemma_gt_mul_at((54, 62), (54, 62), (82, 24), (-10, 28));
    assert(GT::spow_steps(GT(gt_of(32, 24)), GT(gt_of(54, 62)), 2) == GT::spow_steps(GT(gt_of(32, 24)), GT(gt_of(82, 24)), 1));
    lemma_gt_mul_at((32, 24), (82, 24), (28, 39), (20, 21));
    lemma_gt_mul_at((82, 24), (82, 24), (88, 27), (60, 33));
    assert(GT::spow_steps(GT(gt_of(32, 24)), GT(gt_of(82, 24)), 1) == GT::spow_steps(GT(gt_of(28, 39)), GT(gt_of(88, 27)), 0));
}

/// The pairing of `7G` with the point `1 P` of the image of `H`.
proof fn lemma_pairing_7_1()
    ensures
        smiller_loop(g1p(91, 35), dq(30, 95)) is Some,
        spairing_at(g1p(91, 35), dq(30, 95)) == GT(gt_of(28, 39)),
{
    lemma_final_exponent();
    lemma_tangent_7_1();
    lemma_tangent_14_1();
    lemma_tangent_11_1();
    lemma_tangent_5_1();
    lemma_vertical_at(91, 66, 35, 30, 95);
    lemma_miller_at(
        g1p(91, 35),
        dq(30, 95),
        (g1p(26, 56), g1p(32, 59), g1p(12, 32), g1p(91, 66)),
        (98, 28),
        (17, 69),
        (39, 78),
        (24, 84),
        (-91, 30),
        ((33, 58, 87, 46), (94, 69, -35, -8), (35, 30, 40, 81), (35, 45, -10, 15)),
        ((8, 14, -8, 11), (26, 34, -10, -2), (48, 100, -34, -34)),
    );
    lemma_final_exp_7_1();
}

proof fn lemma_final_exp_8_1()
    ensures
        GT(gt_of(6, 43)).spow(600) == GT(gt_of(42, 92)),
{
    assert(GT::sone() == GT(gt_of(1, 0)));
    lemma_gt_mul_at((6, 43), (6, 43), (5, 81), (-18, -14));
    assert(GT::spow_steps(GT(gt_of(1, 0)), GT(gt_of(6, 43)), 600) == GT::spow_steps(GT(gt_of(1, 0)), GT(gt_of(5, 81)), 300));
    lemma_gt_mul_at((5, 81), (5, 81), (29, 6), (-65, -57));
    assert(GT::spow_steps(GT(gt_of(1, 0)), GT(gt_of(5, 81)), 300) == GT::spow_steps(GT(gt_of(1, 0)), GT(gt_of(29, 6)), 150));
    lemma_gt_mul_at((29, 6), (29, 6), (98, 9), (7, 3));
    assert(GT::spow_steps(GT(gt_of(1, 0)), GT(gt_of(29, 6)), 150) == GT::spow_steps(GT(gt_of(1, 0)), GT(gt_of(98, 9)), 75));
    lemma_gt_mul_at((1, 0), (98, 9), (98, 9), (0, 0));
    lemma_gt_mul_at((98, 9), (98, 9), (29, 67), (94, 16));
    assert(GT::spow_steps(GT(gt_of(1, 0)), GT(gt_of(98, 9)), 75) == GT::spow_steps(GT(gt_of(98, 9)), GT(gt_of(29, 67)), 37));
    lemma_gt_mul_at((98, 9), (29, 67), (17, 63), (22, 61));
    lemma_gt_mul_at((29, 67), (29, 67), (89, 3), (-37, -6));
    assert(GT::spow_steps(GT(gt_of(98, 9)), GT(gt_of(29, 67)), 37) == GT::spow_steps(GT(gt_of(17, 63)), GT(gt_of(89, 3)), 18));
    lemma_gt_mul_at((89, 3), (89, 3), (34, 20), (78, 5));
    assert(GT::spow_steps(GT(gt_of(17, 63)), GT(gt_of(89, 3)), 18) == GT::spow_steps(GT(gt_of(17, 63)), GT(gt_of(34, 20)), 9));
    lemma_gt_mul_at((17, 63), (34, 20), (25, 10), (-7, 12));
    lemma_gt_mul_at((34, 20), (34, 20), (49, 51), (7, 9));
    assert(GT::spow_steps(GT(gt_of(17, 63)), GT(gt_of(34, 20)), 9) == GT::spow_steps(GT(gt_of(25, 10)), GT(gt_of(49, 51)), 4));
    lemma_gt_mul_at((49, 51), (49, 51), (2, 74), (-2, 23));
    assert(GT::spow_steps(GT(gt_of(25, 10)), GT(gt_of(49, 51)), 4) == GT::spow_steps(GT(gt_of(25, 10)), GT(gt_of(2, 74)), 2));
    lemma_gt_mul_at((2, 74), (2, 74), (83, 72), (-55, -52));
    assert(GT::spow_steps(GT(gt_of(25, 10)), GT(gt_of(2, 74)), 2) == GT::spow_steps(GT(gt_of(25, 10)), GT(gt_of(83, 72)), 1));
    lemma_gt_mul_at((25, 10), (83, 72), (42, 92), (13, 18));
    lemma_gt_mul_at((83, 72), (83, 72), (89, 1), (16, 67));
    assert(GT::spow_steps(GT(gt_of(25, 10)), GT(gt_of(83, 72)), 1) == GT::spow_steps(GT(gt_of(42, 92)), GT(gt_of(89, 1)), 0));
}

/// The pairing of `8G` with the point `1 P` of the image of `H`.
proof fn lemma_pairing_8_1()
    ensures
        smiller_loop(g1p(18, 49), dq(30, 95)) is Some,
        spairing_at(g1p(18, 49), dq(30, 95)) == GT(gt_of(42, 92)),
{
    lemma_final_exponent();
    lemma_tangent_8_1();
    lemma_tangent_16_1();
    lemma_tangent_15_1();
    lemma_tangent_13_1();
    lemma_vertical_at(18, 52, 49, 30, 95);
    lemma_miller_at(
        g1p(18, 49),
        dq(30, 95),
        (g1p(1, 99), g1p(68, 27), g1p(65, 3), g1p(18, 52)),
        (69, 66),
        (57, 94),
        (47, 18),
        (55, 48),
        (-18, 30),
        ((1, 5, 4, 47), (92, 10, -5, -1), (82, 23, 82, 17), (6, 22, 34, 21)),
        ((57, 83, -5, -3), (60, 85, -9, 32), (6, 43, -36, -23)),
    );
    lemma_final_exp_8_1();
}

proof fn lemma_final_exp_9_1()
    ensures
        GT(gt_of(78, 77)).spow(600) == GT(gt_of(51, 9)),
{
    assert(GT::sone() == GT(gt_of(1, 0)));
    lemma_gt_mul_at((78, 77), (78, 77), (54, 23), (1, 60));
    assert(GT::spow_steps(GT(gt_of(1, 0)), GT(gt_of(78, 77)), 600) == GT::spow_steps(GT(gt_of(1, 0)), GT(gt_of(54, 23)), 300));
    lemma_gt_mul_at((54, 23), (54, 23), (64, 36), (23, 19));
    assert(GT::spow_steps(GT(gt_of(1, 0)), GT(gt_of(54, 23)), 300) == GT::spow_steps(GT(gt_of(1, 0)), GT(gt_of(64, 36)), 150));
    lemma_gt_mul_at((64, 36), (64, 36), (73, 80), (27, 32));
    assert(GT::spow_steps(GT(gt_of(1, 0)), GT(gt_of(64, 36)), 150) == GT::spow_steps(GT(gt_of(1, 0)), GT(gt_of(73, 80)), 75));
    lemma_gt_mul_at((1, 0), (73, 80), (73, 80), (0, 0));
    lemma_gt_mul_at((73, 80), (73, 80), (40, 28), (-11, 52));
    assert(GT::spow_steps(GT(gt_of(1, 0)), GT(gt_of(73, 80)), 75) == GT::spow_steps(GT(gt_of(73, 80)), GT(gt_of(40, 28)), 37));
    lemma_gt_mul_at((73, 80), (40, 28), (74, 75), (6, 29));
    lemma_gt_mul_at((40, 28), (40, 28), (8, 42), (8, 14));
    assert(GT::spow_steps(GT(gt_of(73, 80)), GT(gt_of(40, 28)), 37) == GT::spow_steps(GT(gt_of(74, 75)), GT(gt_of(8, 42)), 18));
    lemma_gt_mul_at((8, 42), (8, 42), (17, 19), (-17, -11));
    assert(GT::spow_steps(GT(gt_of(74, 75)), GT(gt_of(8, 42)), 18) == GT::spow_steps(GT(gt_of(74, 75)), GT(gt_of(17, 19)), 9));
    lemma_gt_mul_at((74, 75), (17, 19), (35, 44), (-2, 12));
    lemma_gt_mul_at((17, 19), (17, 19), (29, 83), (-1, 2));
    assert(GT::spow_steps(GT(gt_of(74, 75)), GT(gt_of(17, 19)), 9) == GT::spow_steps(GT(gt_of(35, 44)), GT(gt_of(29, 83)), 4));
    lemma_gt_mul_at((29, 83), (29, 83), (12, 46), (-60, -21));
    assert(GT::spow_steps(GT(gt_of(35, 44)), GT(gt_of(29, 83)), 4) == GT::spow_steps(GT(gt_of(35, 44)), GT(gt_of(12, 46)), 2));
    lemma_gt_mul_at((12, 46), (12, 46), (48, 99), (-20, -11));
    assert(GT::spow_steps(GT(gt_of(35, 44)), GT(gt_of(12, 46)), 2) == GT::spow_steps(GT(gt_of(35, 44)), GT(gt_of(48, 99)), 1));
    lemma_gt_mul_at((35, 44), (48, 99), (51, 9), (-27, 12));
    lemma_gt_mul_at((48, 99), (48, 99), (78, 6), (-75, -3));
    assert(GT::spow_steps(GT(gt_of(35, 44)), GT(gt_of(48, 99)), 1) == GT::spow_steps(GT(gt_of(51, 9)), GT(gt_of(78, 6)), 0));
}

/// The pairing of `9G` with the point `1 P` of the image of `H`.
proof fn lemma_pairing_9_1()
    ensures
        smiller_loop(g1p(18, 52), dq(30, 95)) is Some,
        spairing_at(g1p(18, 52), dq(30, 95)) == GT(gt_of(51, 9)),
{
    lemma_final_exponent();
    lemma_tangent_9_1();
    lemma_tangent_1_1();
    lemma_tangent_2_1();
    lemma_tangent_4_1();
    lemma_vertical_at(18, 49, 52, 30, 95);
    lemma_miller_at(
        g1p(18, 52),
        dq(30, 95),
        (g1p(1, 2), g1p(68, 74), g1p(65, 98), g1p(18, 49)),
        (3, 33),
        (84, 11),
        (80, 54),
        (69, 80),
        (-18, 30),
        ((31, 18, -11, -9), (83, 39, 23, 16), (15, 4, 53, 49), (75, 5, 9, 9)),
        ((45, 18, 55, 7), (49, 69, 16, 33), (78, 77, -30, -19)),
    );
    lemma_final_exp_9_1();
}

proof fn lemma_final_exp_10_1()
    ensures
        GT(gt_of(24, 34)).spow(600) == GT(gt_of(90, 62)),
{
    assert(GT::sone() == GT(gt_of(1, 0)));
    lemma_gt_mul_at((24, 34), (24, 34), (26, 72), (-6, 4));
    assert(GT::spow_steps(GT(gt_of(1, 0)), GT(gt_of(24, 34)), 600) == GT::spow_steps(GT(gt_of(1, 0)), GT(gt_of(26, 72)), 300));
    lemma_gt_mul_at((26, 72), (26, 72), (37, 75), (-45, -15));
    assert(GT::spow_steps(GT(gt_of(1, 0)), GT(gt_of(26, 72)), 300) == GT::spow_steps(GT(gt_of(1, 0)), GT(gt_of(37, 75)), 150));
    lemma_gt_mul_at((37, 75), (37, 75), (87, 26), (-43, -1));
    assert(GT::spow_steps(GT(gt_of(1, 0)), GT(gt_of(37, 75)), 150) == GT::spow_steps(GT(gt_of(1, 0)), GT(gt_of(87, 26)), 75));
    lemma_gt_mul_at((1, 0), (87, 26), (87, 26), (0, 0));
    lemma_gt_mul_at((87, 26), (87, 26), (25, 10), (68, 38));
    assert(GT::spow_steps(GT(gt_of(1, 0)), GT(gt_of(87, 26)), 75) == GT::spow_steps(GT(gt_of(87, 26)), GT(gt_of(25, 10)), 37));
    lemma_gt_mul_at((87, 26), (25, 10), (97, 48), (18, 12));
    lemma_gt_mul_at((25, 10), (25, 10), (20, 97), (5, 3));
    assert(GT::spow_steps(GT(gt_of(87, 26)), GT(gt_of(25, 10)), 37) == GT::spow_steps(GT(gt_of(97, 48)), GT(gt_of(20, 97)), 18));
    lemma_gt_mul_at((20, 97), (20, 97), (81, 26), (-90, -55));
    assert(GT::spow_steps(GT(gt_of(97, 48)), GT(gt_of(20, 97)), 18) == GT::spow_steps(GT(gt_of(97, 48)), GT(gt_of(81, 26)), 9));
    lemma_gt_mul_at((97, 48), (81, 26), (44, 11), (65, 51));
    lemma_gt_mul_at((81, 26), (81, 26), (27, 1), (58, 35));
    assert(GT::spow_steps(GT(gt_of(97, 48)), GT(gt_of(81, 26)), 9) == GT::spow_steps(GT(gt_of(44, 11)), GT(gt_of(27, 1)), 4));
    lemma_gt_mul_at((27, 1), (27, 1), (21, 53), (7, 0));
    assert(GT::spow_steps(GT(gt_of(44, 11)), GT(gt_of(27, 1)), 4) == GT::spow_steps(GT(gt_of(44, 11)), GT(gt_of(21, 53)), 2));
    lemma_gt_mul_at((21, 53), (21, 53), (56, 23), (-24, -6));
    assert(GT::spow_steps(GT(gt_of(44, 11)), GT(gt_of(21, 53)), 2) == GT::spow_steps(GT(gt_of(44, 11)), GT(gt_of(56, 23)), 1));
    lemma_gt_mul_at((44, 11), (56, 23), (90, 62), (21, 13));
    lemma_gt_mul_at((56, 23), (56, 23), (82, 27), (25, 20));
    assert(GT::spow_steps(GT(gt_of(44, 11)), GT(gt_of(56, 23)), 1) == GT::spow_steps(GT(gt_of(90, 62)), GT(gt_of(82, 27)), 0));
}

/// The pairing of `10G` with the point `1 P` of the image of `H`.
proof fn lemma_pairing_10_1()
    ensures
        smiller_loop(g1p(91, 66), dq(30, 95)) is Some,
        spairing_at(g1p(91, 66), dq(30, 95)) == GT(gt_of(90, 62)),
{
    lemma_final_exponent();
    lemma_tangent_10_1();
    lemma_tangent_3_1();
    lemma_tangent_6_1();
    lemma_tangent_12_1();
    lemma_vertical_at(91, 35, 66, 30, 95);
    lemma_miller_at(
        g1p(91, 66),
        dq(30, 95),
        (g1p(26, 45), g1p(32, 42), g1p(12, 69), g1p(91, 35)),
        (5, 38),
        (54, 24),
        (52, 88),
        (86, 81),
        (-91, 30),
        ((96, 47, -15, -11), (16, 78, 40, 36), (30, 48, -58, -36), (63, 3, -27, 9)),
        ((21, 66, 39, 3), (96, 11, -36, 20), (24, 34, -90, 15)),
    );
    lemma_final_exp_10_1();
}

proof fn lemma_final_exp_11_1()
    ensures
        GT(gt_of(93, 5)).spow(600) == GT(gt_of(75, 98)),
{
    assert(GT::sone() == GT(gt_of(1, 0)));
    lemma_gt_mul_at((93, 5), (93, 5), (39, 97), (85, 8));
    assert(GT::spow_steps(GT(gt_of(1, 0)), GT(gt_of(93, 5)), 600) == GT::spow_steps(GT(gt_of(1, 0)), GT(gt_of(39, 97)), 300));
    lemma_gt_mul_at((39, 97), (39, 97), (91, 76), (-79, -19));
    assert(GT::spow_steps(GT(gt_of(1, 0)), GT(gt_of(39, 97)), 300) == GT::spow_steps(GT(gt_of(1, 0)), GT(gt_of(91, 76)), 150));
    lemma_gt_mul_at((91, 76), (91, 76), (81, 77), (24, 79));
    assert(GT::spow_steps(GT(gt_of(1, 0)), GT(gt_of(91, 76)), 150) == GT::spow_steps(GT(gt_of(1, 0)), GT(gt_of(81, 77)), 75));
    lemma_gt_mul_at((1, 0), (81, 77), (81, 77), (0, 0));
    lemma_gt_mul_at((81, 77), (81, 77), (26, 81), (6, 64));
    assert(GT::spow_steps(GT(gt_of(1, 0)), GT(gt_of(81, 77)), 75) == GT::spow_steps(GT(gt_of(81, 77)), GT(gt_of(26, 81)), 37));
    lemma_gt_mul_at((81, 77), (26, 81), (10, 3), (-41, 23));
    lemma_gt_mul_at((26, 81), (26, 81), (74, 75), (-59, -24));
    assert(GT::spow_steps(GT(gt_of(81, 77)), GT(gt_of(26, 81)), 37) == GT::spow_steps(GT(gt_of(10, 3)), GT(gt_of(74, 75)), 18));
    lemma_gt_mul_at((74, 75), (74, 75), (53, 21), (-2, 54));
    assert(GT::spow_steps(GT(gt_of(10, 3)), GT(gt_of(74, 75)), 18) == GT::spow_steps(GT(gt_of(10, 3)), GT(gt_of(53, 21)), 9));
    lemma_gt_mul_at((10, 3), (53, 21), (63, 3), (4, 3));
    lemma_gt_mul_at((53, 21), (53, 21), (45, 68), (23, 17));
    assert(GT::spow_steps(GT(gt_of(10, 3)), GT(gt_of(53, 21)), 9) == GT::spow_steps(GT(gt_of(63, 3)), GT(gt_of(45, 68)), 4));
    lemma_gt_mul_at((45, 68), (45, 68), (27, 82), (-26, 14));
    assert(GT::spow_steps(GT(gt_of(63, 3)), GT(gt_of(45, 68)), 4) == GT::spow_steps(GT(gt_of(63, 3)), GT(gt_of(27, 82)), 2));
    lemma_gt_mul_at((27, 82), (27, 82), (65, 27), (-60, -23));
    assert(GT::spow_steps(GT(gt_of(63, 3)), GT(gt_of(27, 82)), 2) == GT::spow_steps(GT(gt_of(63, 3)), GT(gt_of(65, 27)), 1));
    lemma_gt_mul_at((63, 3), (65, 27), (75, 98), (39, 17));
    lemma_gt_mul_at((65, 27), (65, 27), (62, 54), (34, 27));
    assert(GT::spow_steps(GT(gt_of(63, 3)), GT(gt_of(65, 27)), 1) == GT::spow_steps(GT(gt_of(75, 98)), GT(gt_of(62, 54)), 0));
}

/// The pairing of `11G` with the point `1 P` of the image of `H`.
proof fn lemma_pairing_11_1()
    ensures
        smiller_loop(g1p(32, 59), dq(30, 95)) is Some,
        spairing_at(g1p(32, 59), dq(30, 95)) == GT(gt_of(75, 98)),
{
    lemma_final_exponent();
    lemma_tangent_11_1();
    lemma_tangent_5_1();
    lemma_tangent_10_1();
    lemma_tangent_3_1();
    lemma_vertical_at(32, 42, 59, 30, 95);
    lemma_miller_at(
        g1p(32, 59),
        dq(30, 95),
        (g1p(12, 32), g1p(91, 66), g1p(26, 45), g1p(32, 42)),
        (39, 78),
        (24, 84),
        (5, 38),
        (54, 24),
        (-32, 30),
        ((83, 0, -46, 0), (73, 3, 19, 69), (68, 25, 52, 4), (97, 42, -7, 17)),
        ((70, 21, 75, 63), (44, 88, 32, 22), (93, 5, -41, -41)),
    );
    lemma_final_exp_11_1();
}

proof fn lemma_final_exp_12_1()
    ensures
        GT(gt_of(68, 18)).spow(600) == GT(gt_of(15, 55)),
{
    assert(GT::sone() == GT(gt_of(1, 0)));
    lemma_gt_mul_at((68, 18), (68, 18), (58, 3), (42, 21));
    assert(GT::spow_steps(GT(gt_of(1, 0)), GT(gt_of(68, 18)), 600) == GT::spow_steps(GT(gt_of(1, 0)), GT(gt_of(58, 3)), 300));
    lemma_gt_mul_at((58, 3), (58, 3), (22, 36), (33, 3));
    assert(GT::spow_steps(GT(gt_of(1, 0)), GT(gt_of(58, 3)), 300) == GT::spow_steps(GT(gt_of(1, 0)), GT(gt_of(22, 36)), 150));
    lemma_gt_mul_at((22, 36), (22, 36), (97, 86), (-9, 2));
    assert(GT::spow_steps(GT(gt_of(1, 0)), GT(gt_of(22, 36)), 150) == GT::spow_steps(GT(gt_of(1, 0)), GT(gt_of(97, 86)), 75));
    lemma_gt_mul_at((1, 0), (97, 86), (97, 86), (0, 0));
    lemma_gt_mul_at((97, 86), (97, 86), (94, 97), (19, 91));
    assert(GT::spow_steps(GT(gt_of(1, 0)), GT(gt_of(97, 86)), 75) == GT::spow_steps(GT(gt_of(97, 86)), GT(gt_of(94, 97)), 37));
    lemma_gt_mul_at((97, 86), (94, 97), (69, 61), (7, 90));
    lemma_gt_mul_at((94, 97), (94, 97), (33, 40), (-6, 87));
    assert(GT::spow_steps(GT(gt_of(97, 86)), GT(gt_of(94, 97)), 37) == GT::spow_steps(GT(gt_of(69, 61)), GT(gt_of(33, 40)), 18));
    lemma_gt_mul_at((33, 40), (33, 40), (95, 30), (-6, 10));
    assert(GT::spow_steps(GT(gt_of(69, 61)), GT(gt_of(33, 40)), 18) == GT::spow_steps(GT(gt_of(69, 61)), GT(gt_of(95, 30)), 9));
    lemma_gt_mul_at((69, 61), (95, 30), (79, 76), (46, 59));
    lemma_gt_mul_at((95, 30), (95, 30), (45, 53), (80, 47));
    assert(GT::spow_steps(GT(gt_of(69, 61)), GT(gt_of(95, 30)), 9) == GT::spow_steps(GT(gt_of(79, 76)), GT(gt_of(45, 53)), 4));
    lemma_gt_mul_at((45, 53), (45, 53), (24, 42), (-8, 19));
    assert(GT::spow_steps(GT(gt_of(79, 76)), GT(gt_of(45, 53)), 4) == GT::spow_steps(GT(gt_of(79, 76)), GT(gt_of(24, 42)), 2));
    lemma_gt_mul_at((24, 42), (24, 42), (24, 50), (-12, 2));
    assert(GT::spow_steps(GT(gt_of(79, 76)), GT(gt_of(24, 42)), 2) == GT::spow_steps(GT(gt_of(79, 76)), GT(gt_of(24, 50)), 1));
    lemma_gt_mul_at((79, 76), (24, 50), (15, 55), (-19, 19));
    lemma_gt_mul_at((24, 50), (24, 50), (96, 1), (-20, -1));
    assert(GT::spow_steps(GT(gt_of(79, 76)), GT(gt_of(24, 50)), 1) == GT::spow_steps(GT(gt_of(15, 55)), GT(gt_of(96, 1)), 0));
}

/// The pairing of `12G` with the point `1 P` of the image of `H`.
proof fn lemma_pairing_12_1()
    ensures
        smiller_loop(g1p(12, 69), dq(30, 95)) is Some,
        spairing_at(g1p(12, 69), dq(30, 95)) == GT(gt_of(15, 55)),
{
    lemma_final_exponent();
    lemma_tangent_12_1();
    lemma_tangent_7_1();
    lemma_tangent_14_1();
    lemma_tangent_11_1();
    lemma_vertical_at(12, 32, 69, 30, 95);
    lemma_miller_at(
        g1p(12, 69),
        dq(30, 95),
        (g1p(91, 35), g1p(26, 56), g1p(32, 59), g1p(12, 32)),
        (86, 81),
        (98, 28),
        (17, 69),
        (39, 78),
        (-12, 30),
        ((27, 99, 8, 72), (76, 10, -2, 76), (20, 6, 56, 14), (27, 58, -1, 10)),
        ((92, 71, -27, -3), (70, 64, -20, 43), (68, 18, -28, -6)),
    );
    lemma_final_exp_12_1();
}

proof fn lemma_final_exp_13_1()
    ensures
        GT(gt_of(14, 59)).spow(600) == GT(gt_of(47, 80)),
{
    assert(GT::sone() == GT(gt_of(1, 0)));
    lemma_gt_mul_at((14, 59), (14, 59), (48, 90), (-33, -19));
    assert(GT::spow_steps(GT(gt_of(1, 0)), GT(gt_of(14, 59)), 600) == GT::spow_steps(GT(gt_of(1, 0)), GT(gt_of(48, 90)), 300));
    lemma_gt_mul_at((48, 90), (48, 90), (62, 35), (-58, 5));
    assert(GT::spow_steps(GT(gt_of(1, 0)), GT(gt_of(48, 90)), 300) == GT::spow_steps(GT(gt_of(1, 0)), GT(gt_of(62, 35)), 150));
    lemma_gt_mul_at((62, 35), (62, 35), (94, 85), (25, 30));
    assert(GT::spow_steps(GT(gt_of(1, 0)), GT(gt_of(62, 35)), 150) == GT::spow_steps(GT(gt_of(1, 0)), GT(gt_of(94, 85)), 75));
    lemma_gt_mul_at((1, 0), (94, 85), (94, 85), (0, 0));
    lemma_gt_mul_at((94, 85), (94, 85), (96, 69), (15, 86));
    assert(GT::spow_steps(GT(gt_of(1, 0)), GT(gt_of(94, 85)), 75) == GT::spow_steps(GT(gt_of(94, 85)), GT(gt_of(96, 69)), 37));
    lemma_gt_mul_at((94, 85), (96, 69), (28, 95), (31, 86));
    lemma_gt_mul_at((96, 69), (96, 69), (11, 3), (44, 84));
    assert(GT::spow_steps(GT(gt_of(94, 85)), GT(gt_of(96, 69)), 37) == GT::spow_steps(GT(gt_of(28, 95)), GT(gt_of(11, 3)), 18));
    lemma_gt_mul_at((11, 3), (11, 3), (11, 57), (1, 0));
    assert(GT::spow_steps(GT(gt_of(28, 95)), GT(gt_of(11, 3)), 18) == GT::spow_steps(GT(gt_of(28, 95)), GT(gt_of(11, 57)), 9));
    lemma_gt_mul_at((28, 95), (11, 57), (44, 54), (-51, -28));
    lemma_gt_mul_at((11, 57), (11, 57), (3, 25), (-31, -20));
    assert(GT::spow_steps(GT(gt_of(28, 95)), GT(gt_of(11, 57)), 9) == GT::spow_steps(GT(gt_of(44, 54)), GT(gt_of(3, 25)), 4));
    lemma_gt_mul_at((3, 25), (3, 25), (91, 30), (-7, -5));
    assert(GT::spow_steps(GT(gt_of(44, 54)), GT(gt_of(3, 25)), 4) == GT::spow_steps(GT(gt_of(44, 54)), GT(gt_of(91, 30)), 2));
    lemma_gt_mul_at((91, 30), (91, 30), (8, 15), (73, 45));
    assert(GT::spow_steps(GT(gt_of(44, 54)), GT(gt_of(91, 30)), 2) == GT::spow_steps(GT(gt_of(44, 54)), GT(gt_of(8, 15)), 1));
    lemma_gt_mul_at((44, 54), (8, 15), (47, 80), (-5, 2));
    lemma_gt_mul_at((8, 15), (8, 15), (41, 15), (-2, 0));
    assert(GT::spow_steps(GT(gt_of(44, 54)), GT(gt_of(8, 15)), 1) == GT::spow_steps(GT(gt_of(47, 80)), GT(gt_of(41, 15)), 0));
}

/// The pairing of `13G` with the point `1 P` of the image of `H`.
proof fn lemma_pairing_13_1()
    ensures
        smiller_loop(g1p(65, 3), dq(30, 95)) is Some,
        spairing_at(g1p(65, 3), dq(30, 95)) == GT(gt_of(47, 80)),
{
    lemma_final_exponent();
    lemma_tangent_13_1();
    lemma_tangent_9_1();
    lemma_tangent_1_1();
    lemma_tangent_2_1();
    lemma_vertical_at(65, 98, 3, 30, 95);
    lemma_miller_at(
        g1p(65, 3),
        dq(30, 95),
        (g1p(18, 52), g1p(1, 2), g1p(68, 74), g1p(65, 98)),
        (55, 48),
        (3, 33),
        (84, 11),
        (80, 54),
        (-65, 30),
        ((14, 47, 7, 29), (6, 62, -15, -10), (30, 31, -38, -31), (58, 68, 21, 25)),
        ((53, 32, -13, 32), (88, 58, 24, 36), (14, 59, -74, -29)),
    );
    lemma_final_exp_13_1();
}

proof fn lemma_final_exp_14_1()
    ensures
        GT(gt_of(94, 90)).spow(600) == GT(gt_of(71, 57)),
{
    assert(GT::sone() == GT(gt_of(1, 0)));
    lemma_gt_mul_at((94, 90), (94, 90), (29, 33), (7, 87));
    assert(GT::spow_steps(GT(gt_of(1, 0)), GT(gt_of(94, 90)), 600) == GT::spow_steps(GT(gt_of(1, 0)), GT(gt_of(29, 33)), 300));
    lemma_gt_mul_at((29, 33), (29, 33), (55, 17), (-3, 8));
    assert(GT::spow_steps(GT(gt_of(1, 0)), GT(gt_of(29, 33)), 300) == GT::spow_steps(GT(gt_of(1, 0)), GT(gt_of(55, 17)), 150));
    lemma_gt_mul_at((55, 17), (55, 17), (9, 66), (27, 15));
    assert(GT::spow_steps(GT(gt_of(1, 0)), GT(gt_of(55, 17)), 150) == GT::spow_steps(GT(gt_of(1, 0)), GT(gt_of(9, 66)), 75));
    lemma_gt_mul_at((1, 0), (9, 66), (9, 66), (0, 0));
    lemma_gt_mul_at((9, 66), (9, 66), (68, 64), (-43, -32));
    assert(GT::spow_steps(GT(gt_of(1, 0)), GT(gt_of(9, 66)), 75) == GT::spow_steps(GT(gt_of(9, 66)), GT(gt_of(68, 64)), 37));
    lemma_gt_mul_at((9, 66), (68, 64), (24, 32), (-36, 8));
    lemma_gt_mul_at((68, 64), (68, 64), (23, 63), (5, 45));
    assert(GT::spow_steps(GT(gt_of(9, 66)), GT(gt_of(68, 64)), 37) == GT::spow_steps(GT(gt_of(24, 32)), GT(gt_of(23, 63)), 18));
    lemma_gt_mul_at((23, 63), (23, 63), (95, 40), (-35, -11));
    assert(GT::spow_steps(GT(gt_of(24, 32)), GT(gt_of(23, 63)), 18) == GT::spow_steps(GT(gt_of(24, 32)), GT(gt_of(95, 40)), 9));
    lemma_gt_mul_at((24, 32), (95, 40), (91, 94), (9, 26));
    lemma_gt_mul_at((95, 40), (95, 40), (52, 41), (73, 59));
    assert(GT::spow_steps(GT(gt_of(24, 32)), GT(gt_of(95, 40)), 9) == GT::spow_steps(GT(gt_of(91, 94)), GT(gt_of(52, 41)), 4));
    lemma_gt_mul_at((52, 41), (52, 41), (13, 58), (10, 25));
    assert(GT::spow_steps(GT(gt_of(91, 94)), GT(gt_of(52, 41)), 4) == GT::spow_steps(GT(gt_of(91, 94)), GT(gt_of(13, 58)), 2));
    lemma_gt_mul_at((13, 58), (13, 58), (37, 63), (-32, -19));
    assert(GT::spow_steps(GT(gt_of(91, 94)), GT(gt_of(13, 58)), 2) == GT::spow_steps(GT(gt_of(91, 94)), GT(gt_of(37, 63)), 1));
    lemma_gt_mul_at((91, 94), (37, 63), (71, 57), (-26, 32));
    lemma_gt_mul_at((37, 63), (37, 63), (26, 87), (-26, 6));
    assert(GT::spow_steps(GT(gt_of(91, 94)), GT(gt_of(37, 63)), 1) == GT::spow_steps(GT(gt_of(71, 57)), GT(gt_of(26, 87)), 0));
}

/// The pairing of `14G` with the point `1 P` of the image of `H`.
proof fn lemma_pairing_14_1()
    ensures
        smiller_loop(g1p(26, 56), dq(30, 95)) is Some,
        spairing_at(g1p(26, 56), dq(30, 95)) == GT(gt_of(71, 57)),
{
    lemma_final_exponent();
    lemma_tangent_14_1();
    lemma_tangent_11_1();
    lemma_tangent_5_1();
    lemma_tangent_10_1();
    lemma_vertical_at(26, 45, 56, 30, 95);
    lemma_miller_at(
        g1p(26, 56),
        dq(30, 95),
        (g1p(32, 59), g1p(12, 32), g1p(91, 66), g1p(26, 45)),
        (17, 69),
        (39, 78),
        (24, 84),
        (5, 38),
        (-26, 30),
        ((73, 9, -45, -24), (24, 91, 21, 52), (72, 26, -77, -39), (49, 44, -5, 44)),
        ((61, 53, 4, 23), (8, 64, -17, 5), (94, 90, -22, -34)),
    );
    lemma_final_exp_14_1();
}

proof fn lemma_final_exp_15_1()
    ensures
        GT(gt_of(67, 80)).spow(600) == GT(gt_of(12, 20)),
{
    assert(GT::sone() == GT(gt_of(1, 0)));
    lemma_gt_mul_at((67, 80), (67, 80), (8, 78), (-19, 42));
    assert(GT::spow_steps(GT(gt_of(1, 0)), GT(gt_of(67, 80)), 600) == GT::spow_steps(GT(gt_of(1, 0)), GT(gt_of(8, 78)), 300));
    lemma_gt_mul_at((8, 78), (8, 78), (40, 12), (-60, -48));
    assert(GT::spow_steps(GT(gt_of(1, 0)), GT(gt_of(8, 78)), 300) == GT::spow_steps(GT(gt_of(1, 0)), GT(gt_of(40, 12)), 150));
    lemma_gt_mul_at((40, 12), (40, 12), (42, 8), (14, 8));
    assert(GT::spow_steps(GT(gt_of(1, 0)), GT(gt_of(40, 12)), 150) == GT::spow_steps(GT(gt_of(1, 0)), GT(gt_of(42, 8)), 75));
    lemma_gt_mul_at((1, 0), (42, 8), (42, 8), (0, 0));
    lemma_gt_mul_at((42, 8), (42, 8), (84, 2), (16, 6));
    assert(GT::spow_steps(GT(gt_of(1, 0)), GT(gt_of(42, 8)), 75) == GT::spow_steps(GT(gt_of(42, 8)), GT(gt_of(84, 2)), 37));
    lemma_gt_mul_at((42, 8), (84, 2), (78, 33), (34, 7));
    lemma_gt_mul_at((84, 2), (84, 2), (83, 29), (69, 3));
    assert(GT::spow_steps(GT(gt_of(42, 8)), GT(gt_of(84, 2)), 37) == GT::spow_steps(GT(gt_of(78, 33)), GT(gt_of(83, 29)), 18));
    lemma_gt_mul_at((83, 29), (83, 29), (89, 34), (59, 39));
    assert(GT::spow_steps(GT(gt_of(78, 33)), GT(gt_of(83, 29)), 18) == GT::spow_steps(GT(gt_of(78, 33)), GT(gt_of(89, 34)), 9));
    lemma_gt_mul_at((78, 33), (89, 34), (63, 23), (57, 44));
    lemma_gt_mul_at((89, 34), (89, 34), (99, 48), (66, 48));
    assert(GT::spow_steps(GT(gt_of(78, 33)), GT(gt_of(89, 34)), 9) == GT::spow_steps(GT(gt_of(63, 23)), GT(gt_of(99, 48)), 4));
    lemma_gt_mul_at((99, 48), (99, 48), (23, 29), (74, 71));
    assert(GT::spow_steps(GT(gt_of(63, 23)), GT(gt_of(99, 48)), 4) == GT::spow_steps(GT(gt_of(63, 23)), GT(gt_of(23, 29)), 2));
    lemma_gt_mul_at((23, 29), (23, 29), (92, 89), (-4, 4));
    assert(GT::spow_steps(GT(gt_of(63, 23)), GT(gt_of(23, 29)), 2) == GT::spow_steps(GT(gt_of(63, 23)), GT(gt_of(92, 89)), 1));
    lemma_gt_mul_at((63, 23), (92, 89), (12, 20), (37, 56));
    lemma_gt_mul_at((92, 89), (92, 89), (38, 72), (5, 83));
    assert(GT::spow_steps(GT(gt_of(63, 23)), GT(gt_of(92, 89)), 1) == GT::spow_steps(GT(gt_of(12, 20)), GT(gt_of(38, 72)), 0));
}

/// The pairing of `15G` with the point `1 P` of the image of `H`.
proof fn lemma_pairing_15_1()
    ensures
        smiller_loop(g1p(68, 27), dq(30, 95)) is Some,
        spairing_at(g1p(68, 27), dq(30, 95)) == GT(gt_of(12, 20)),
{
    lemma_final_exponent();
    lemma_tangent_15_1();
    lemma_tangent_13_1();
    lemma_tangent_9_1();
    lemma_tangent_1_1();
    lemma_vertical_at(68, 74, 27, 30, 95);
    lemma_miller_at(
        g1p(68, 27),
        dq(30, 95),
        (g1p(65, 3), g1p(18, 52), g1p(1, 2), g1p(68, 74)),
        (47, 18),
        (55, 48),
        (3, 33),
        (84, 11),
        (-68, 30),
        ((67, 55, 18, 13), (35, 66, 10, 35), (0, 62, -31, 2), (75, 59, -21, -19)),
        ((23, 16, 21, 53), (39, 7, 17, 14), (67, 80, -29, 4)),
    );
    lemma_final_exp_15_1();
}

proof fn lemma_final_exp_16_1()
    ensures
        GT(gt_of(82, 21)).spow(600) == GT(gt_of(67, 72)),
{
    assert(GT::sone() == GT(gt_of(1, 0)));
    lemma_gt_mul_at((82, 21), (82, 21), (21, 74), (62, 29));
    assert(GT::spow_steps(GT(gt_of(1, 0)), GT(gt_of(82, 21)), 600) == GT::spow_steps(GT(gt_of(1, 0)), GT(gt_of(21, 74)), 300));
    lemma_gt_mul_at((21, 74), (21, 74), (15, 56), (-50, -24));
    assert(GT::spow_steps(GT(gt_of(1, 0)), GT(gt_of(21, 74)), 300) == GT::spow_steps(GT(gt_of(1, 0)), GT(gt_of(15, 56)), 150));
    lemma_gt_mul_at((15, 56), (15, 56), (18, 59), (-29, -15));
    assert(GT::spow_steps(GT(gt_of(1, 0)), GT(gt_of(15, 56)), 150) == GT::spow_steps(GT(gt_of(1, 0)), GT(gt_of(18, 59)), 75));
    lemma_gt_mul_at((1, 0), (18, 59), (18, 59), (0, 0));
    lemma_gt_mul_at((18, 59), (18, 59), (75, 57), (-32, -14));
    assert(GT::spow_steps(GT(gt_of(1, 0)), GT(gt_of(18, 59)), 75) == GT::spow_steps(GT(gt_of(18, 59)), GT(gt_of(75, 57)), 37));
    lemma_gt_mul_at((18, 59), (75, 57), (7, 68), (-20, 20));
    lemma_gt_mul_at((75, 57), (75, 57), (53, 49), (23, 52));
    assert(GT::spow_steps(GT(gt_of(18, 59)), GT(gt_of(75, 57)), 37) == GT::spow_steps(GT(gt_of(7, 68)), GT(gt_of(53, 49)), 18));
    lemma_gt_mul_at((53, 49), (53, 49), (4, 66), (4, 27));
    assert(GT::spow_steps(GT(gt_of(7, 68)), GT(gt_of(53, 49)), 18) == GT::spow_steps(GT(gt_of(7, 68)), GT(gt_of(4, 66)), 9));
    lemma_gt_mul_at((7, 68), (4, 66), (85, 84), (-45, -38));
    lemma_gt_mul_at((4, 66), (4, 66), (3, 10), (-43, -38));
    assert(GT::spow_steps(GT(gt_of(7, 68)), GT(gt_of(4, 66)), 9) == GT::spow_steps(GT(gt_of(85, 84)), GT(gt_of(3, 10)), 4));
    lemma_gt_mul_at((3, 10), (3, 10), (10, 61), (-1, -1));
    assert(GT::spow_steps(GT(gt_of(85, 84)), GT(gt_of(3, 10)), 4) == GT::spow_steps(GT(gt_of(85, 84)), GT(gt_of(10, 61)), 2));
    lemma_gt_mul_at((10, 61), (10, 61), (15, 24), (-36, -25));
    assert(GT::spow_steps(GT(gt_of(85, 84)), GT(gt_of(10, 61)), 2) == GT::spow_steps(GT(gt_of(85, 84)), GT(gt_of(15, 24)), 1));
    lemma_gt_mul_at((85, 84), (15, 24), (67, 72), (-8, 12));
    lemma_gt_mul_at((15, 24), (15, 24), (53, 43), (-4, 1));
    assert(GT::spow_steps(GT(gt_of(85, 84)), GT(gt_of(15, 24)), 1) == GT::spow_steps(GT(gt_of(67, 72)), GT(gt_of(53, 43)), 0));
}

/// The pairing of `16G` with the point `1 P` of the image of `H`.
proof fn lemma_pairing_16_1()
    ensures
        smiller_loop(g1p(1, 99), dq(30, 95)) is Some,
        spairing_at(g1p(1, 99), dq(30, 95)) == GT(gt_of(67, 72)),
{
    lemma_final_exponent();
    lemma_tangent_16_1();
    lemma_tangent_15_1();
    lemma_tangent_13_1();
    lemma_tangent_9_1();
    lemma_vertical_at(1, 2, 99, 30, 95);
    lemma_miller_at(
        g1p(1, 99),
        dq(30, 95),
        (g1p(68, 27), g1p(65, 3), g1p(18, 52), g1p(1, 2)),
        (57, 94),
        (47, 18),
        (55, 48),
        (3, 33),
        (-1, 30),
        ((69, 62, -56, 18), (6, 10, 21, 30), (37, 20, -1, 0), (65, 98, 10, 18)),
        ((75, 5, -54, 31), (60, 2, 0, 23), (82, 21, -2, 17)),
    );
    lemma_final_exp_16_1();
}

proof fn lemma_final_exp_1_2()
    ensures
        GT(gt_of(2, 90)).spow(600) == GT(gt_of(93, 81)),
{
    assert(GT::sone() == GT(gt_of(1, 0)));
    lemma_gt_mul_at((2, 90), (2, 90), (85, 37), (-81, -77));
    assert(GT::spow_steps(GT(gt_of(1, 0)), GT(gt_of(2, 90)), 600) == GT::spow_steps(GT(gt_of(1, 0)), GT(gt_of(85, 37)), 300));
    lemma_gt_mul_at((85, 37), (85, 37), (99, 73), (57, 48));
    assert(GT::spow_steps(GT(gt_of(1, 0)), GT(gt_of(85, 37)), 300) == GT::spow_steps(GT(gt_of(1, 0)), GT(gt_of(99, 73)), 150));
    lemma_gt_mul_at((99, 73), (99, 73), (28, 35), (44, 90));
    assert(GT::spow_steps(GT(gt_of(1, 0)), GT(gt_of(99, 73)), 150) == GT::spow_steps(GT(gt_of(1, 0)), GT(gt_of(28, 35)), 75));
    lemma_gt_mul_at((1, 0), (28, 35), (28, 35), (0, 0));
    lemma_gt_mul_at((28, 35), (28, 35), (64, 28), (-5, 7));
    assert(GT::spow_steps(GT(gt_of(1, 0)), GT(gt_of(28, 35)), 75) == GT::spow_steps(GT(gt_of(28, 35)), GT(gt_of(64, 28)), 37));
    lemma_gt_mul_at((28, 35), (64, 28), (4, 24), (8, 20));
    lemma_gt_mul_at((64, 28), (64, 28), (80, 73), (32, 27));
    assert(GT::spow_steps(GT(gt_of(28, 35)), GT(gt_of(64, 28)), 37) == GT::spow_steps(GT(gt_of(4, 24)), GT(gt_of(80, 73)), 18));
    lemma_gt_mul_at((80, 73), (80, 73), (61, 89), (10, 62));
    assert(GT::spow_steps(GT(gt_of(4, 24)), GT(gt_of(80, 73)), 18) == GT::spow_steps(GT(gt_of(4, 24)), GT(gt_of(61, 89)), 9));
    lemma_gt_mul_at((4, 24), (61, 89), (27, 88), (-19, -4));
    lemma_gt_mul_at((61, 89), (61, 89), (42, 8), (-42, 29));
    assert(GT::spow_steps(GT(gt_of(4, 24)), GT(gt_of(61, 89)), 9) == GT::spow_steps(GT(gt_of(27, 88)), GT(gt_of(42, 8)), 4));
    lemma_gt_mul_at((42, 8), (42, 8), (84, 2), (16, 6));
    assert(GT::spow_steps(GT(gt_of(27, 88)), GT(gt_of(42, 8)), 4) == GT::spow_steps(GT(gt_of(27, 88)), GT(gt_of(84, 2)), 2));
    lemma_gt_mul_at((84, 2), (84, 2), (83, 29), (69, 3));
    assert(GT::spow_steps(GT(gt_of(27, 88)), GT(gt_of(84, 2)), 2) == GT::spow_steps(GT(gt_of(27, 88)), GT(gt_of(83, 29)), 1));
    lemma_gt_mul_at((27, 88), (83, 29), (93, 81), (-4, 54));
    lemma_gt_mul_at((83, 29), (83, 29), (89, 34), (59, 39));
    assert(GT::spow_steps(GT(gt_of(27, 88)), GT(gt_of(83, 29)), 1) == GT::spow_steps(GT(gt_of(93, 81)), GT(gt_of(89, 34)), 0));
}

/// The pairing of `1G` with the point `2 P` of the image of `H`.
proof fn lemma_pairing_1_2()
    ensures
        smiller_loop(g1p(1, 2), dq(65, 3)) is Some,
        spairing_at(g1p(1, 2), dq(65, 3)) == GT(gt_of(93, 81)),
{
    lemma_final_exponent();
    lemma_tangent_1_2();
    lemma_tangent_2_2();
    lemma_tangent_4_2();
    lemma_tangent_8_2();
    lemma_vertical_at(1, 99, 2, 65, 3);
    lemma_miller_at(
        g1p(1, 2),
        dq(65, 3),
        (g1p(68, 74), g1p(65, 98), g1p(18, 49), g1p(1, 99)),
        (58, 57),
        (10, 0),
        (28, 73),
        (65, 77),
        (-1, 65),
        ((14, 30, 1, 33), (39, 98, 1, 2), (98, 60, -81, -20), (81, 10, -17, 44)),
        ((98, 5, 63, 15), (26, 12, 59, 74), (2, 90, -8, 8)),
    );
    lemma_final_exp_1_2();
}

proof fn lemma_final_exp_2_2()
    ensures
        GT(gt_of(20, 51)).spow(600) == GT(gt_of(68, 21)),
{
    assert(GT::sone() == GT(gt_of(1, 0)));
    lemma_gt_mul_at((20, 51), (20, 51), (21, 45), (-22, -6));
    assert(GT::spow_steps(GT(gt_of(1, 0)), GT(gt_of(20, 51)), 600) == GT::spow_steps(GT(gt_of(1, 0)), GT(gt_of(21, 45)), 300));
    lemma_gt_mul_at((21, 45), (21, 45), (32, 67), (-16, -2));
    assert(GT::spow_steps(GT(gt_of(1, 0)), GT(gt_of(21, 45)), 300) == GT::spow_steps(GT(gt_of(1, 0)), GT(gt_of(32, 67)), 150));
    lemma_gt_mul_at((32, 67), (32, 67), (70, 1), (-35, -2));
    assert(GT::spow_steps(GT(gt_of(1, 0)), GT(gt_of(32, 67)), 150) == GT::spow_steps(GT(gt_of(1, 0)), GT(gt_of(70, 1)), 75));
    lemma_gt_mul_at((1, 0), (70, 1), (70, 1), (0, 0));
    lemma_gt_mul_at((70, 1), (70, 1), (51, 38), (48, 1));
    assert(GT::spow_steps(GT(gt_of(1, 0)), GT(gt_of(70, 1)), 75) == GT::spow_steps(GT(gt_of(70, 1)), GT(gt_of(51, 38)), 37));
    lemma_gt_mul_at((70, 1), (51, 38), (98, 47), (34, 26));
    lemma_gt_mul_at((51, 38), (51, 38), (46, 8), (11, 24));
    assert(GT::spow_steps(GT(gt_of(70, 1)), GT(gt_of(51, 38)), 37) == GT::spow_steps(GT(gt_of(98, 47)), GT(gt_of(46, 8)), 18));
    lemma_gt_mul_at((46, 8), (46, 8), (32, 66), (20, 6));
    assert(GT::spow_steps(GT(gt_of(98, 47)), GT(gt_of(46, 8)), 18) == GT::spow_steps(GT(gt_of(98, 47)), GT(gt_of(32, 66)), 9));
    lemma_gt_mul_at((98, 47), (32, 66), (34, 22), (0, 48));
    lemma_gt_mul_at((32, 66), (32, 66), (1, 70), (-33, -2));
    assert(GT::spow_steps(GT(gt_of(98, 47)), GT(gt_of(32, 66)), 9) == GT::spow_steps(GT(gt_of(34, 22)), GT(gt_of(1, 70)), 4));
    lemma_gt_mul_at((1, 70), (1, 70), (50, 88), (-49, -48));
    assert(GT::spow_steps(GT(gt_of(34, 22)), GT(gt_of(1, 70)), 4) == GT::spow_steps(GT(gt_of(34, 22)), GT(gt_of(50, 88)), 2));
    lemma_gt_mul_at((50, 88), (50, 88), (8, 46), (-52, 10));
    assert(GT::spow_steps(GT(gt_of(34, 22)), GT(gt_of(50, 88)), 2) == GT::spow_steps(GT(gt_of(34, 22)), GT(gt_of(8, 46)), 1));
    lemma_gt_mul_at((34, 22), (8, 46), (68, 21), (-8, 7));
    lemma_gt_mul_at((8, 46), (8, 46), (69, 34), (-21, -14));
    assert(GT::spow_steps(GT(gt_of(34, 22)), GT(gt_of(8, 46)), 1) == GT::spow_steps(GT(gt_of(68, 21)), GT(gt_of(69, 34)), 0));
}

/// The pairing of `2G` with the point `2 P` of the image of `H`.
proof fn lemma_pairing_2_2()
    ensures
        smiller_loop(g1p(68, 74), dq(65, 3)) is Some,
        spairing_at(g1p(68, 74), dq(65, 3)) == GT(gt_of(68, 21)),
{
    lemma_final_exponent();
    lemma_tangent_2_2();
    lemma_tangent_4_2();
    lemma_tangent_8_2();
    lemma_tangent_16_2();
    lemma_vertical_at(68, 27, 74, 65, 3);
    lemma_miller_at(
        g1p(68, 74),
        dq(65, 3),
        (g1p(65, 98), g1p(18, 49), g1p(1, 99), g1p(68, 27)),
        (10, 0),
        (28, 73),
        (65, 77),
        (22, 55),
        (-68, 65),
        ((100, 0, 0, 0), (73, 28, 27, 72), (0, 72, 45, 32), (11, 45, -55, -9)),
        ((15, 76, -19, -11), (89, 34, -39, -17), (20, 51, -82, 12)),
    );
    lemma_final_exp_2_2();
}

proof fn lemma_final_exp_3_2()
    ensures
        GT(gt_of(56, 91)).spow(600) == GT(gt_of(78, 3)),
{
    assert(GT::sone() == GT(gt_of(1, 0)));
    lemma_gt_mul_at((56, 91), (56, 91), (6, 93), (-51, 18));
    assert(GT::spow_steps(GT(gt_of(1, 0)), GT(gt_of(56, 91)), 600) == GT::spow_steps(GT(gt_of(1, 0)), GT(gt_of(6, 93)), 300));
    lemma_gt_mul_at((6, 93), (6, 93), (73, 42), (-86, -75));
    assert(GT::spow_steps(GT(gt_of(1, 0)), GT(gt_of(6, 93)), 300) == GT::spow_steps(GT(gt_of(1, 0)), GT(gt_of(73, 42)), 150));
    lemma_gt_mul_at((73, 42), (73, 42), (30, 25), (35, 43));
    assert(GT::spow_steps(GT(gt_of(1, 0)), GT(gt_of(73, 42)), 150) == GT::spow_steps(GT(gt_of(1, 0)), GT(gt_of(30, 25)), 75));
    lemma_gt_mul_at((1, 0), (30, 25), (30, 25), (0, 0));
    lemma_gt_mul_at((30, 25), (30, 25), (73, 67), (2, 8));
    assert(GT::spow_steps(GT(gt_of(1, 0)), GT(gt_of(30, 25)), 75) == GT::spow_steps(GT(gt_of(30, 25)), GT(gt_of(73, 67)), 37));
    lemma_gt_mul_at((30, 25), (73, 67), (10, 39), (5, 21));
    lemma_gt_mul_at((73, 67), (73, 67), (32, 41), (8, 52));
    assert(GT::spow_steps(GT(gt_of(30, 25)), GT(gt_of(73, 67)), 37) == GT::spow_steps(GT(gt_of(10, 39)), GT(gt_of(32, 41)), 18));
    lemma_gt_mul_at((32, 41), (32, 41), (50, 34), (-7, 9));
    assert(GT::spow_steps(GT(gt_of(10, 39)), GT(gt_of(32, 41)), 18) == GT::spow_steps(GT(gt_of(10, 39)), GT(gt_of(50, 34)), 9));
    lemma_gt_mul_at((10, 39), (50, 34), (83, 55), (-9, 9));
    lemma_gt_mul_at((50, 34), (50, 34), (31, 22), (13, 22));
    assert(GT::spow_steps(GT(gt_of(10, 39)), GT(gt_of(50, 34)), 9) == GT::spow_steps(GT(gt_of(83, 55)), GT(gt_of(31, 22)), 4));
    lemma_gt_mul_at((31, 22), (31, 22), (73, 72), (4, 8));
    assert(GT::spow_steps(GT(gt_of(83, 55)), GT(gt_of(31, 22)), 4) == GT::spow_steps(GT(gt_of(83, 55)), GT(gt_of(73, 72)), 2));
    lemma_gt_mul_at((73, 72), (73, 72), (44, 76), (1, 52));
    assert(GT::spow_steps(GT(gt_of(83, 55)), GT(gt_of(73, 72)), 2) == GT::spow_steps(GT(gt_of(83, 55)), GT(gt_of(44, 76)), 1));
    lemma_gt_mul_at((83, 55), (44, 76), (78, 3), (-6, 45));
    lemma_gt_mul_at((44, 76), (44, 76), (99, 3), (-39, 9));
    assert(GT::spow_steps(GT(gt_of(83, 55)), GT(gt_of(44, 76)), 1) == GT::spow_steps(GT(gt_of(78, 3)), GT(gt_of(99, 3)), 0));
}

/// The pairing of `3G` with the point `2 P` of the image of `H`.
proof fn lemma_pairing_3_2()
    ensures
        smiller_loop(g1p(26, 45), dq(65, 3)) is Some,
        spairing_at(g1p(26, 45), dq(65, 3)) == GT(gt_of(78, 3)),
{
    lemma_final_exponent();
    lemma_tangent_3_2();
    lemma_tangent_6_2();
    lemma_tangent_12_2();
    lemma_tangent_7_2();
    lemma_vertical_at(26, 56, 45, 65, 3);
    lemma_miller_at(
        g1p(26, 45),
        dq(65, 3),
        (g1p(32, 42), g1p(12, 69), g1p(91, 35), g1p(26, 56)),
        (15, 55),
        (95, 17),
        (82, 4),
        (85, 4),
        (-26, 65),
        ((28, 39, -28, -14), (78, 84, 19, 34), (38, 89, -10, 59), (33, 24, 27, 70)),
        ((8, 99, 5, 9), (82, 72, 2, 79), (56, 91, -68, -13)),
    );
    lemma_final_exp_3_2();
}

proof fn lemma_final_exp_4_2()
    ensures
        GT(gt_of(93, 55)).spow(600) == GT(gt_of(42, 92)),
{
    assert(GT::sone() == GT(gt_of(1, 0)));
    lemma_gt_mul_at((93, 55), (93, 55), (69, 34), (55, 71));
    assert(GT::spow_steps(GT(gt_of(1, 0)), GT(gt_of(93, 55)), 600) == GT::spow_steps(GT(gt_of(1, 0)), GT(gt_of(69, 34)), 300));
    lemma_gt_mul_at((69, 34), (69, 34), (70, 1), (35, 35));
    assert(GT::spow_steps(GT(gt_of(1, 0)), GT(gt_of(69, 34)), 300) == GT::spow_steps(GT(gt_of(1, 0)), GT(gt_of(70, 1)), 150));
    lemma_gt_mul_at((70, 1), (70, 1), (51, 38), (48, 1));
    assert(GT::spow_steps(GT(gt_of(1, 0)), GT(gt_of(70, 1)), 150) == GT::spow_steps(GT(gt_of(1, 0)), GT(gt_of(51, 38)), 75));
    lemma_gt_mul_at((1, 0), (51, 38), (51, 38), (0, 0));
    lemma_gt_mul_at((51, 38), (51, 38), (46, 8), (11, 24));
    assert(GT::spow_steps(GT(gt_of(1, 0)), GT(gt_of(51, 38)), 75) == GT::spow_steps(GT(gt_of(51, 38)), GT(gt_of(46, 8)), 37));
    lemma_gt_mul_at((51, 38), (46, 8), (22, 34), (20, 18));
    lemma_gt_mul_at((46, 8), (46, 8), (32, 66), (20, 6));
    assert(GT::spow_steps(GT(gt_of(51, 38)), GT(gt_of(46, 8)), 37) == GT::spow_steps(GT(gt_of(22, 34)), GT(gt_of(32, 66)), 18));
    lemma_gt_mul_at((32, 66), (32, 66), (1, 70), (-33, -2));
    assert(GT::spow_steps(GT(gt_of(22, 34)), GT(gt_of(32, 66)), 18) == GT::spow_steps(GT(gt_of(22, 34)), GT(gt_of(1, 70)), 9));
    lemma_gt_mul_at((22, 34), (1, 70), (66, 2), (-24, -8));
    lemma_gt_mul_at((1, 70), (1, 70), (50, 88), (-49, -48));
    assert(GT::spow_steps(GT(gt_of(22, 34)), GT(gt_of(1, 70)), 9) == GT::spow_steps(GT(gt_of(66, 2)), GT(gt_of(50, 88)), 4));
    lemma_gt_mul_at((50, 88), (50, 88), (8, 46), (-52, 10));
    assert(GT::spow_steps(GT(gt_of(66, 2)), GT(gt_of(50, 88)), 4) == GT::spow_steps(GT(gt_of(66, 2)), GT(gt_of(8, 46)), 2));
    lemma_gt_mul_at((8, 46), (8, 46), (69, 34), (-21, -14));
    assert(GT::spow_steps(GT(gt_of(66, 2)), GT(gt_of(8, 46)), 2) == GT::spow_steps(GT(gt_of(66, 2)), GT(gt_of(69, 34)), 1));
    lemma_gt_mul_at((66, 2), (69, 34), (42, 92), (44, 22));
    lemma_gt_mul_at((69, 34), (69, 34), (70, 1), (35, 35));
    assert(GT::spow_steps(GT(gt_of(66, 2)), GT(gt_of(69, 34)), 1) == GT::spow_steps(GT(gt_of(42, 92)), GT(gt_of(70, 1)), 0));
}

/// The pairing of `4G` with the point `2 P` of the image of `H`.
proof fn lemma_pairing_4_2()
    ensures
        smiller_loop(g1p(65, 98), dq(65, 3)) is Some,
        spairing_at(g1p(65, 98), dq(65, 3)) == GT(gt_of(42, 92)),
{
    lemma_final_exponent();
    lemma_tangent_4_2();
    lemma_tangent_8_2();
    lemma_tangent_16_2();
    lemma_tangent_15_2();
    lemma_vertical_at(65, 3, 98, 65, 3);
    lemma_miller_at(
        g1p(65, 98),
        dq(65, 3),
        (g1p(18, 49), g1p(1, 99), g1p(68, 27), g1p(65, 3)),
        (28, 73),
        (65, 77),
        (22, 55),
        (35, 73),
        (-65, 65),
        ((0, 72, -45, -13), (11, 45, -55, -9), (15, 76, -19, -11), (89, 34, -39, -17)),
        ((99, 48, 66, 48), (62, 50, -1, 53), (93, 55, -73, -25)),
    );
    lemma_final_exp_4_2();
}

proof fn lemma_final_exp_5_2()
    ensures
        GT(gt_of(40, 5)).spow(600) == GT(gt_of(90, 62)),
{
    assert(GT::sone() == GT(gt_of(1, 0)));
    lemma_gt_mul_at((40, 5), (40, 5), (60, 72), (15, 3));
    assert(GT::spow_steps(GT(gt_of(1, 0)), GT(gt_of(40, 5)), 600) == GT::spow_steps(GT(gt_of(1, 0)), GT(gt_of(60, 72)), 300));
    lemma_gt_mul_at((60, 72), (60, 72), (32, 22), (-16, 34));
    assert(GT::spow_steps(GT(gt_of(1, 0)), GT(gt_of(60, 72)), 300) == GT::spow_steps(GT(gt_of(1, 0)), GT(gt_of(32, 22)), 150));
    lemma_gt_mul_at((32, 22), (32, 22), (35, 15), (5, 9));
    assert(GT::spow_steps(GT(gt_of(1, 0)), GT(gt_of(32, 22)), 150) == GT::spow_steps(GT(gt_of(1, 0)), GT(gt_of(35, 15)), 75));
    lemma_gt_mul_at((1, 0), (35, 15), (35, 15), (0, 0));
    lemma_gt_mul_at((35, 15), (35, 15), (91, 17), (9, 8));
    assert(GT::spow_steps(GT(gt_of(1, 0)), GT(gt_of(35, 15)), 75) == GT::spow_steps(GT(gt_of(35, 15)), GT(gt_of(91, 17)), 37));
    lemma_gt_mul_at((35, 15), (91, 17), (1, 89), (29, 16));
    lemma_gt_mul_at((91, 17), (91, 17), (13, 78), (79, 27));
    assert(GT::spow_steps(GT(gt_of(35, 15)), GT(gt_of(91, 17)), 37) == GT::spow_steps(GT(gt_of(1, 89)), GT(gt_of(13, 78)), 18));
    lemma_gt_mul_at((13, 78), (13, 78), (44, 85), (-59, -41));
    assert(GT::spow_steps(GT(gt_of(1, 89)), GT(gt_of(13, 78)), 18) == GT::spow_steps(GT(gt_of(1, 89)), GT(gt_of(44, 85)), 9));
    lemma_gt_mul_at((1, 89), (44, 85), (54, 72), (-75, -36));
    lemma_gt_mul_at((44, 85), (44, 85), (64, 53), (-53, 2));
    assert(GT::spow_steps(GT(gt_of(1, 89)), GT(gt_of(44, 85)), 9) == GT::spow_steps(GT(gt_of(54, 72)), GT(gt_of(64, 53)), 4));
    lemma_gt_mul_at((64, 53), (64, 53), (75, 36), (12, 39));
    assert(GT::spow_steps(GT(gt_of(54, 72)), GT(gt_of(64, 53)), 4) == GT::spow_steps(GT(gt_of(54, 72)), GT(gt_of(75, 36)), 2));
    lemma_gt_mul_at((75, 36), (75, 36), (87, 64), (42, 40));
    assert(GT::spow_steps(GT(gt_of(54, 72)), GT(gt_of(75, 36)), 2) == GT::spow_steps(GT(gt_of(54, 72)), GT(gt_of(87, 64)), 1));
    lemma_gt_mul_at((54, 72), (87, 64), (90, 62), (0, 50));
    lemma_gt_mul_at((87, 64), (87, 64), (39, 71), (34, 69));
    assert(GT::spow_steps(GT(gt_of(54, 72)), GT(gt_of(87, 64)), 1) == GT::spow_steps(GT(gt_of(90, 62)), GT(gt_of(39, 71)), 0));
}

/// The pairing of `5G` with the point `2 P` of the image of `H`.
proof fn lemma_pairing_5_2()
    ensures
        smiller_loop(g1p(12, 32), dq(65, 3)) is Some,
        spairing_at(g1p(12, 32), dq(65, 3)) == GT(gt_of(90, 62)),
{
    lemma_final_exponent();
    lemma_tangent_5_2();
    lemma_tangent_10_2();
    lemma_tangent_3_2();
    lemma_tangent_6_2();
    lemma_vertical_at(12, 69, 32, 65, 3);
    lemma_miller_at(
        g1p(12, 32),
        dq(65, 3),
        (g1p(91, 66), g1p(26, 45), g1p(32, 42), g1p(12, 69)),
        (96, 87),
        (96, 82),
        (15, 55),
        (95, 17),
        (-12, 65),
        ((31, 45, 16, 90), (94, 41, -8, 31), (85, 68, 70, 59), (60, 36, -25, 19)),
        ((82, 95, 22, 29), (14, 17, 61, 87), (40, 5, -13, -4)),
    );
    lemma_final_exp_5_2();
}

proof fn lemma_final_exp_6_2()
    ensures
        GT(gt_of(6, 93)).spow(600) == GT(gt_of(15, 55)),
{
    assert(GT::sone() == GT(gt_of(1, 0)));
    lemma_gt_mul_at((6, 93), (6, 93), (73, 42), (-86, -75));
    assert(GT::spow_steps(GT(gt_of(1, 0)), GT(gt_of(6, 93)), 600) == GT::spow_steps(GT(gt_of(1, 0)), GT(gt_of(73, 42)), 300));
    lemma_gt_mul_at((73, 42), (73, 42), (30, 25), (35, 43));
    assert(GT::spow_steps(GT(gt_of(1, 0)), GT(gt_of(73, 42)), 300) == GT::spow_steps(GT(gt_of(1, 0)), GT(gt_of(30, 25)), 150));
    lemma_gt_mul_at((30, 25), (30, 25), (73, 67), (2, 8));
    assert(GT::spow_steps(GT(gt_of(1, 0)), GT(gt_of(30, 25)), 150) == GT::spow_steps(GT(gt_of(1, 0)), GT(gt_of(73, 67)), 75));
    lemma_gt_mul_at((1, 0), (73, 67), (73, 67), (0, 0));
    lemma_gt_mul_at((73, 67), (73, 67), (32, 41), (8, 52));
    assert(GT::spow_steps(GT(gt_of(1, 0)), GT(gt_of(73, 67)), 75) == GT::spow_steps(GT(gt_of(73, 67)), GT(gt_of(32, 41)), 37));
    lemma_gt_mul_at((73, 67), (32, 41), (94, 67), (-5, 23));
    lemma_gt_mul_at((32, 41), (32, 41), (50, 34), (-7, 9));
    assert(GT::spow_steps(GT(gt_of(73, 67)), GT(gt_of(32, 41)), 37) == GT::spow_steps(GT(gt_of(94, 67)), GT(gt_of(50, 34)), 18));
    lemma_gt_mul_at((50, 34), (50, 34), (31, 22), (13, 22));
    assert(GT::spow_steps(GT(gt_of(94, 67)), GT(gt_of(50, 34)), 18) == GT::spow_steps(GT(gt_of(94, 67)), GT(gt_of(31, 22)), 9));
    lemma_gt_mul_at((94, 67), (31, 22), (26, 45), (14, 26));
    lemma_gt_mul_at((31, 22), (31, 22), (73, 72), (4, 8));
    assert(GT::spow_steps(GT(gt_of(94, 67)), GT(gt_of(31, 22)), 9) == GT::spow_steps(GT(gt_of(26, 45)), GT(gt_of(73, 72)), 4));
    lemma_gt_mul_at((73, 72), (73, 72), (44, 76), (1, 52));
    assert(GT::spow_steps(GT(gt_of(26, 45)), GT(gt_of(73, 72)), 4) == GT::spow_steps(GT(gt_of(26, 45)), GT(gt_of(44, 76)), 2));
    lemma_gt_mul_at((44, 76), (44, 76), (99, 3), (-39, 9));
    assert(GT::spow_steps(GT(gt_of(26, 45)), GT(gt_of(44, 76)), 2) == GT::spow_steps(GT(gt_of(26, 45)), GT(gt_of(99, 3)), 1));
    lemma_gt_mul_at((26, 45), (99, 3), (15, 55), (24, 43));
    lemma_gt_mul_at((99, 3), (99, 3), (96, 80), (96, 5));
    assert(GT::spow_steps(GT(gt_of(26, 45)), GT(gt_of(99, 3)), 1) == GT::spow_steps(GT(gt_of(15, 55)), GT(gt_of(96, 80)), 0));
}

/// The pairing of `6G` with the point `2 P` of the image of `H`.
proof fn lemma_pairing_6_2()
    ensures
        smiller_loop(g1p(32, 42), dq(65, 3)) is Some,
        spairing_at(g1p(32, 42), dq(65, 3)) == GT(gt_of(15, 55)),
{
    lemma_final_exponent();
    lemma_tangent_6_2();
    lemma_tangent_12_2();
    lemma_tangent_7_2();
    lemma_tangent_14_2();
    lemma_vertical_at(32, 59, 42, 65, 3);
    lemma_miller_at(
        g1p(32, 42),
        dq(65, 3),
        (g1p(12, 69), g1p(91, 35), g1p(26, 56), g1p(32, 59)),
        (95, 17),
        (82, 4),
        (85, 4),
        (12, 87),
        (-32, 65),
        ((50, 12, 86, 29), (12, 25, 40, 11), (24, 76, -5, -1), (19, 91, 17, 61)),
        ((59, 25, -79, -48), (48, 26, -15, 32), (6, 93, -32, 5)),
    );
    lemma_final_exp_6_2();
}

proof fn lemma_final_exp_7_2()
    ensures
        GT(gt_of(66, 7)).spow(600) == GT(gt_of(71, 57)),
{
    assert(GT::sone() == GT(gt_of(1, 0)));
    lemma_gt_mul_at((66, 7), (66, 7), (65, 67), (42, 8));
    assert(GT::spow_steps(GT(gt_of(1, 0)), GT(gt_of(66, 7)), 600) == GT::spow_steps(GT(gt_of(1, 0)), GT(gt_of(65, 67)), 300));
    lemma_gt_mul_at((65, 67), (65, 67), (39, 80), (-3, 41));
    assert(GT::spow_steps(GT(gt_of(1, 0)), GT(gt_of(65, 67)), 300) == GT::spow_steps(GT(gt_of(1, 0)), GT(gt_of(39, 80)), 150));
    lemma_gt_mul_at((39, 80), (39, 80), (70, 42), (-49, -2));
    assert(GT::spow_steps(GT(gt_of(1, 0)), GT(gt_of(39, 80)), 150) == GT::spow_steps(GT(gt_of(1, 0)), GT(gt_of(70, 42)), 75));
    lemma_gt_mul_at((1, 0), (70, 42), (70, 42), (0, 0));
    lemma_gt_mul_at((70, 42), (70, 42), (5, 76), (31, 40));
    assert(GT::spow_steps(GT(gt_of(1, 0)), GT(gt_of(70, 42)), 75) == GT::spow_steps(GT(gt_of(70, 42)), GT(gt_of(5, 76)), 37));
    lemma_gt_mul_at((70, 42), (5, 76), (87, 15), (-29, 23));
    lemma_gt_mul_at((5, 76), (5, 76), (6, 34), (-57, -50));
    assert(GT::spow_steps(GT(gt_of(70, 42)), GT(gt_of(5, 76)), 37) == GT::spow_steps(GT(gt_of(87, 15)), GT(gt_of(6, 34)), 18));
    lemma_gt_mul_at((6, 34), (6, 34), (92, 60), (-12, -8));
    assert(GT::spow_steps(GT(gt_of(87, 15)), GT(gt_of(6, 34)), 18) == GT::spow_steps(GT(gt_of(87, 15)), GT(gt_of(92, 60)), 9));
    lemma_gt_mul_at((87, 15), (92, 60), (34, 44), (70, 56));
    lemma_gt_mul_at((92, 60), (92, 60), (16, 67), (48, 73));
    assert(GT::spow_steps(GT(gt_of(87, 15)), GT(gt_of(92, 60)), 9) == GT::spow_steps(GT(gt_of(34, 44)), GT(gt_of(16, 67)), 4));
    lemma_gt_mul_at((16, 67), (16, 67), (9, 79), (-42, -24));
    assert(GT::spow_steps(GT(gt_of(34, 44)), GT(gt_of(16, 67)), 4) == GT::spow_steps(GT(gt_of(34, 44)), GT(gt_of(9, 79)), 2));
    lemma_gt_mul_at((9, 79), (9, 79), (1, 29), (-61, -48));
    assert(GT::spow_steps(GT(gt_of(34, 44)), GT(gt_of(9, 79)), 2) == GT::spow_steps(GT(gt_of(34, 44)), GT(gt_of(1, 29)), 1));
    lemma_gt_mul_at((34, 44), (1, 29), (71, 57), (-13, -3));
    lemma_gt_mul_at((1, 29), (1, 29), (69, 25), (-9, -8));
    assert(GT::spow_steps(GT(gt_of(34, 44)), GT(gt_of(1, 29)), 1) == GT::spow_steps(GT(gt_of(71, 57)), GT(gt_of(69, 25)), 0));
}

/// The pairing of `7G` with the point `2 P` of the image of `H`.
proof fn lemma_pairing_7_2()
    ensures
        smiller_loop(g1p(91, 35), dq(65, 3)) is Some,
        spairing_at(g1p(91, 35), dq(65, 3)) == GT(gt_of(71, 57)),
{
    lemma_final_exponent();
    lemma_tangent_7_2();
    lemma_tangent_14_2();
    lemma_tangent_11_2();
    lemma_tangent_5_2();
    lemma_vertical_at(91, 66, 35, 65, 3);
    lemma_miller_at(
        g1p(91, 35),
        dq(65, 3),
        (g1p(26, 56), g1p(32, 59), g1p(12, 32), g1p(91, 66)),
        (85, 4),
        (12, 87),
        (35, 77),
        (96, 87),
        (-91, 65),
        ((38, 58, 71, 6), (56, 67, -46, -11), (61, 86, -14, 29), (58, 75, -45, 10)),
        ((62, 45, -23, 30), (17, 42, 20, 57), (66, 7, -43, -54)),
    );
    lemma_final_exp_7_2();
}

proof fn lemma_final_exp_8_2()
    ensures
        GT(gt_of(86, 58)).spow(600) == GT(gt_of(67, 72)),
{
    assert(GT::sone() == GT(gt_of(1, 0)));
    lemma_gt_mul_at((86, 58), (86, 58), (93, 47), (39, 65));
    assert(GT::spow_steps(GT(gt_of(1, 0)), GT(gt_of(86, 58)), 600) == GT::spow_steps(GT(gt_of(1, 0)), GT(gt_of(93, 47)), 300));
    lemma_gt_mul_at((93, 47), (93, 47), (77, 69), (63, 64));
    assert(GT::spow_steps(GT(gt_of(1, 0)), GT(gt_of(93, 47)), 300) == GT::spow_steps(GT(gt_of(1, 0)), GT(gt_of(77, 69)), 150));
    lemma_gt_mul_at((77, 69), (77, 69), (57, 7), (11, 58));
    assert(GT::spow_steps(GT(gt_of(1, 0)), GT(gt_of(77, 69)), 150) == GT::spow_steps(GT(gt_of(1, 0)), GT(gt_of(57, 7)), 75));
    lemma_gt_mul_at((1, 0), (57, 7), (57, 7), (0, 0));
    lemma_gt_mul_at((57, 7), (57, 7), (69, 42), (31, 7));
    assert(GT::spow_steps(GT(gt_of(1, 0)), GT(gt_of(57, 7)), 75) == GT::spow_steps(GT(gt_of(57, 7)), GT(gt_of(69, 42)), 37));
    lemma_gt_mul_at((57, 7), (69, 42), (3, 58), (36, 25));
    lemma_gt_mul_at((69, 42), (69, 42), (68, 93), (29, 39));
    assert(GT::spow_steps(GT(gt_of(57, 7)), GT(gt_of(69, 42)), 37) == GT::spow_steps(GT(gt_of(3, 58)), GT(gt_of(68, 93)), 18));
    lemma_gt_mul_at((68, 93), (68, 93), (15, 60), (-40, 39));
    assert(GT::spow_steps(GT(gt_of(3, 58)), GT(gt_of(68, 93)), 18) == GT::spow_steps(GT(gt_of(3, 58)), GT(gt_of(15, 60)), 9));
    lemma_gt_mul_at((3, 58), (15, 60), (100, 95), (-35, -25));
    lemma_gt_mul_at((15, 60), (15, 60), (59, 18), (-34, -18));
    assert(GT::spow_steps(GT(gt_of(3, 58)), GT(gt_of(15, 60)), 9) == GT::spow_steps(GT(gt_of(100, 95)), GT(gt_of(59, 18)), 4));
    lemma_gt_mul_at((59, 18), (59, 18), (26, 83), (31, 17));
    assert(GT::spow_steps(GT(gt_of(100, 95)), GT(gt_of(59, 18)), 4) == GT::spow_steps(GT(gt_of(100, 95)), GT(gt_of(26, 83)), 2));
    lemma_gt_mul_at((26, 83), (26, 83), (49, 53), (-62, -26));
    assert(GT::spow_steps(GT(gt_of(100, 95)), GT(gt_of(26, 83)), 2) == GT::spow_steps(GT(gt_of(100, 95)), GT(gt_of(49, 53)), 1));
    lemma_gt_mul_at((100, 95), (49, 53), (67, 72), (-2, 48));
    lemma_gt_mul_at((49, 53), (49, 53), (97, 62), (-5, 23));
    assert(GT::spow_steps(GT(gt_of(100, 95)), GT(gt_of(49, 53)), 1) == GT::spow_steps(GT(gt_of(67, 72)), GT(gt_of(97, 62)), 0));
}

/// The pairing of `8G` with the point `2 P` of the image of `H`.
proof fn lemma_pairing_8_2()
    ensures
        smiller_loop(g1p(18, 49), dq(65, 3)) is Some,
        spairing_at(g1p(18, 49), dq(65, 3)) == GT(gt_of(67, 72)),
{
    lemma_final_exponent();
    lemma_tangent_8_2();
    lemma_tangent_16_2();
    lemma_tangent_15_2();
    lemma_tangent_13_2();
    lemma_vertical_at(18, 52, 49, 65, 3);
    lemma_miller_at(
        g1p(18, 49),
        dq(65, 3),
        (g1p(1, 99), g1p(68, 27), g1p(65, 3), g1p(18, 52)),
        (65, 77),
        (22, 55),
        (35, 73),
        (17, 17),
        (-18, 65),
        ((13, 41, -17, 40), (51, 69, -20, -7), (62, 55, -22, 22), (74, 12, -19, 24)),
        ((80, 16, 52, 16), (78, 47, 10, 13), (86, 58, -45, 11)),
    );
    lemma_final_exp_8_2();
}

proof fn lemma_final_exp_9_2()
    ensures
        GT(gt_of(22, 9)).spow(600) == GT(gt_of(96, 29)),
{
    assert(GT::sone() == GT(gt_of(1, 0)));
    lemma_gt_mul_at((22, 9), (22, 9), (100, 12), (3, 3));
    assert(GT::spow_steps(GT(gt_of(1, 0)), GT(gt_of(22, 9)), 600) == GT::spow_steps(GT(gt_of(1, 0)), GT(gt_of(100, 12)), 300));
    lemma_gt_mul_at((100, 12), (100, 12), (59, 34), (97, 22));
    assert(GT::spow_steps(GT(gt_of(1, 0)), GT(gt_of(100, 12)), 300) == GT::spow_steps(GT(gt_of(1, 0)), GT(gt_of(59, 34)), 150));
    lemma_gt_mul_at((59, 34), (59, 34), (2, 28), (23, 28));
    assert(GT::spow_steps(GT(gt_of(1, 0)), GT(gt_of(59, 34)), 150) == GT::spow_steps(GT(gt_of(1, 0)), GT(gt_of(2, 28)), 75));
    lemma_gt_mul_at((1, 0), (2, 28), (2, 28), (0, 0));
    lemma_gt_mul_at((2, 28), (2, 28), (28, 35), (-8, -7));
    assert(GT::spow_steps(GT(gt_of(1, 0)), GT(gt_of(2, 28)), 75) == GT::spow_steps(GT(gt_of(2, 28)), GT(gt_of(28, 35)), 37));
    lemma_gt_mul_at((2, 28), (28, 35), (86, 76), (-10, -2));
    lemma_gt_mul_at((28, 35), (28, 35), (64, 28), (-5, 7));
    assert(GT::spow_steps(GT(gt_of(2, 28)), GT(gt_of(28, 35)), 37) == GT::spow_steps(GT(gt_of(86, 76)), GT(gt_of(64, 28)), 18));
    lemma_gt_mul_at((64, 28), (64, 28), (80, 73), (32, 27));
    assert(GT::spow_steps(GT(gt_of(86, 76)), GT(gt_of(64, 28)), 18) == GT::spow_steps(GT(gt_of(86, 76)), GT(gt_of(80, 73)), 9));
    lemma_gt_mul_at((86, 76), (80, 73), (19, 43), (13, 67));
    lemma_gt_mul_at((80, 73), (80, 73), (61, 89), (10, 62));
    assert(GT::spow_steps(GT(gt_of(86, 76)), GT(gt_of(80, 73)), 9) == GT::spow_steps(GT(gt_of(19, 43)), GT(gt_of(61, 89)), 4));
    lemma_gt_mul_at((61, 89), (61, 89), (42, 8), (-42, 29));
    assert(GT::spow_steps(GT(gt_of(19, 43)), GT(gt_of(61, 89)), 4) == GT::spow_steps(GT(gt_of(19, 43)), GT(gt_of(42, 8)), 2));
    lemma_gt_mul_at((42, 8), (42, 8), (84, 2), (16, 6));
    assert(GT::spow_steps(GT(gt_of(19, 43)), GT(gt_of(42, 8)), 2) == GT::spow_steps(GT(gt_of(19, 43)), GT(gt_of(84, 2)), 1));
    lemma_gt_mul_at((19, 43), (84, 2), (96, 29), (14, 35));
    lemma_gt_mul_at((84, 2), (84, 2), (83, 29), (69, 3));
    assert(GT::spow_steps(GT(gt_of(19, 43)), GT(gt_of(84, 2)), 1) == GT::spow_steps(GT(gt_of(96, 29)), GT(gt_of(83, 29)), 0));
}

/// The pairing of `9G` with the point `2 P` of the image of `H`.
proof fn lemma_pairing_9_2()
    ensures
        smiller_loop(g1p(18, 52), dq(65, 3)) is Some,
        spairing_at(g1p(18, 52), dq(65, 3)) == GT(gt_of(96, 29)),
{
    lemma_final_exponent();
    lemma_tangent_9_2();
    lemma_tangent_1_2();
    lemma_tangent_2_2();
    lemma_tangent_4_2();
    lemma_vertical_at(18, 49, 52, 65, 3);
    lemma_miller_at(
        g1p(18, 52),
        dq(65, 3),
        (g1p(1, 2), g1p(68, 74), g1p(65, 98), g1p(18, 49)),
        (98, 82),
        (58, 57),
        (10, 0),
        (28, 73),
        (-18, 65),
        ((52, 56, 28, 92), (26, 91, -2, 29), (71, 87, -76, -36), (3, 62, 7, 8)),
        ((3, 63, -38, -35), (30, 10, -45, -26), (22, 9, -12, 11)),
    );
    lemma_final_exp_9_2();
}

proof fn lemma_final_exp_10_2()
    ensures
        GT(gt_of(35, 59)).spow(600) == GT(gt_of(14, 44)),
{
    assert(GT::sone() == GT(gt_of(1, 0)));
    lemma_gt_mul_at((35, 59), (35, 59), (67, 43), (-23, 6));
    assert(GT::spow_steps(GT(gt_of(1, 0)), GT(gt_of(35, 59)), 600) == GT::spow_steps(GT(gt_of(1, 0)), GT(gt_of(67, 43)), 300));
    lemma_gt_mul_at((67, 43), (67, 43), (14, 75), (26, 38));
    assert(GT::spow_steps(GT(gt_of(1, 0)), GT(gt_of(67, 43)), 300) == GT::spow_steps(GT(gt_of(1, 0)), GT(gt_of(14, 75)), 150));
    lemma_gt_mul_at((14, 75), (14, 75), (25, 10), (-54, -35));
    assert(GT::spow_steps(GT(gt_of(1, 0)), GT(gt_of(14, 75)), 150) == GT::spow_steps(GT(gt_of(1, 0)), GT(gt_of(25, 10)), 75));
    lemma_gt_mul_at((1, 0), (25, 10), (25, 10), (0, 0));
    lemma_gt_mul_at((25, 10), (25, 10), (20, 97), (5, 3));
    assert(GT::spow_steps(GT(gt_of(1, 0)), GT(gt_of(25, 10)), 75) == GT::spow_steps(GT(gt_of(25, 10)), GT(gt_of(20, 97)), 37));
    lemma_gt_mul_at((25, 10), (20, 97), (35, 39), (-5, 16));
    lemma_gt_mul_at((20, 97), (20, 97), (81, 26), (-90, -55));
    assert(GT::spow_steps(GT(gt_of(25, 10)), GT(gt_of(20, 97)), 37) == GT::spow_steps(GT(gt_of(35, 39)), GT(gt_of(81, 26)), 18));
    lemma_gt_mul_at((81, 26), (81, 26), (27, 1), (58, 35));
    assert(GT::spow_steps(GT(gt_of(35, 39)), GT(gt_of(81, 26)), 18) == GT::spow_steps(GT(gt_of(35, 39)), GT(gt_of(27, 1)), 9));
    lemma_gt_mul_at((35, 39), (27, 1), (98, 39), (8, 10));
    lemma_gt_mul_at((27, 1), (27, 1), (21, 53), (7, 0));
    assert(GT::spow_steps(GT(gt_of(35, 39)), GT(gt_of(27, 1)), 9) == GT::spow_steps(GT(gt_of(98, 39)), GT(gt_of(21, 53)), 4));
    lemma_gt_mul_at((21, 53), (21, 53), (56, 23), (-24, -6));
    assert(GT::spow_steps(GT(gt_of(98, 39)), GT(gt_of(21, 53)), 4) == GT::spow_steps(GT(gt_of(98, 39)), GT(gt_of(56, 23)), 2));
    lemma_gt_mul_at((56, 23), (56, 23), (82, 27), (25, 20));
    assert(GT::spow_steps(GT(gt_of(98, 39)), GT(gt_of(56, 23)), 2) == GT::spow_steps(GT(gt_of(98, 39)), GT(gt_of(82, 27)), 1));
    lemma_gt_mul_at((98, 39), (82, 27), (14, 44), (69, 47));
    lemma_gt_mul_at((82, 27), (82, 27), (36, 63), (59, 36));
    assert(GT::spow_steps(GT(gt_of(98, 39)), GT(gt_of(82, 27)), 1) == GT::spow_steps(GT(gt_of(14, 44)), GT(gt_of(36, 63)), 0));
}

/// The pairing of `10G` with the point `2 P` of the image of `H`.
proof fn lemma_pairing_10_2()
    ensures
        smiller_loop(g1p(91, 66), dq(65, 3)) is Some,
        spairing_at(g1p(91, 66), dq(65, 3)) == GT(gt_of(14, 44)),
{
    lemma_final_exponent();
    lemma_tangent_10_2();
    lemma_tangent_3_2();
    lemma_tangent_6_2();
    lemma_tangent_12_2();
    lemma_vertical_at(91, 35, 66, 65, 3);
    lemma_miller_at(
        g1p(91, 66),
        dq(65, 3),
        (g1p(26, 45), g1p(32, 42), g1p(12, 69), g1p(91, 35)),
        (96, 82),
        (15, 55),
        (95, 17),
        (82, 4),
        (-91, 65),
        ((68, 31, 24, 89), (22, 76, -7, 24), (61, 93, -53, -25), (73, 9, 41, 82)),
        ((97, 21, 51, 12), (93, 6, 77, 20), (35, 59, -88, 50)),
    );
    lemma_final_exp_10_2();
}

proof fn lemma_final_exp_11_2()
    ensures
        GT(gt_of(23, 96)).spow(600) == GT(gt_of(61, 46)),
{
    assert(GT::sone() == GT(gt_of(1, 0)));
    lemma_gt_mul_at((23, 96), (23, 96), (100, 48), (-87, -48));
    assert(GT::spow_steps(GT(gt_of(1, 0)), GT(gt_of(23, 96)), 600) == GT::spow_steps(GT(gt_of(1, 0)), GT(gt_of(100, 48)), 300));
    lemma_gt_mul_at((100, 48), (100, 48), (20, 24), (76, 72));
    assert(GT::spow_steps(GT(gt_of(1, 0)), GT(gt_of(100, 48)), 300) == GT::spow_steps(GT(gt_of(1, 0)), GT(gt_of(20, 24)), 150));
    lemma_gt_mul_at((20, 24), (20, 24), (26, 81), (-2, 3));
    assert(GT::spow_steps(GT(gt_of(1, 0)), GT(gt_of(20, 24)), 150) == GT::spow_steps(GT(gt_of(1, 0)), GT(gt_of(26, 81)), 75));
    lemma_gt_mul_at((1, 0), (26, 81), (26, 81), (0, 0));
    lemma_gt_mul_at((26, 81), (26, 81), (74, 75), (-59, -24));
    assert(GT::spow_steps(GT(gt_of(1, 0)), GT(gt_of(26, 81)), 75) == GT::spow_steps(GT(gt_of(26, 81)), GT(gt_of(74, 75)), 37));
    lemma_gt_mul_at((26, 81), (74, 75), (91, 51), (-42, 18));
    lemma_gt_mul_at((74, 75), (74, 75), (53, 21), (-2, 54));
    assert(GT::spow_steps(GT(gt_of(26, 81)), GT(gt_of(74, 75)), 37) == GT::spow_steps(GT(gt_of(91, 51)), GT(gt_of(53, 21)), 18));
    lemma_gt_mul_at((53, 21), (53, 21), (45, 68), (23, 17));
    assert(GT::spow_steps(GT(gt_of(91, 51)), GT(gt_of(53, 21)), 18) == GT::spow_steps(GT(gt_of(91, 51)), GT(gt_of(45, 68)), 9));
    lemma_gt_mul_at((91, 51), (45, 68), (21, 66), (6, 49));
    lemma_gt_mul_at((45, 68), (45, 68), (27, 82), (-26, 14));
    assert(GT::spow_steps(GT(gt_of(91, 51)), GT(gt_of(45, 68)), 9) == GT::spow_steps(GT(gt_of(21, 66)), GT(gt_of(27, 82)), 4));
    lemma_gt_mul_at((27, 82), (27, 82), (65, 27), (-60, -23));
    assert(GT::spow_steps(GT(gt_of(21, 66)), GT(gt_of(27, 82)), 4) == GT::spow_steps(GT(gt_of(21, 66)), GT(gt_of(65, 27)), 2));
    lemma_gt_mul_at((65, 27), (65, 27), (62, 54), (34, 27));
    assert(GT::spow_steps(GT(gt_of(21, 66)), GT(gt_of(65, 27)), 2) == GT::spow_steps(GT(gt_of(21, 66)), GT(gt_of(62, 54)), 1));
    lemma_gt_mul_at((21, 66), (62, 54), (61, 46), (-23, 16));
    lemma_gt_mul_at((62, 54), (62, 54), (19, 43), (9, 37));
    assert(GT::spow_steps(GT(gt_of(21, 66)), GT(gt_of(62, 54)), 1) == GT::spow_steps(GT(gt_of(61, 46)), GT(gt_of(19, 43)), 0));
}

/// The pairing of `11G` with the point `2 P` of the image of `H`.
proof fn lemma_pairing_11_2()
    ensures
        smiller_loop(g1p(32, 59), dq(65, 3)) is Some,
        spairing_at(g1p(32, 59), dq(65, 3)) == GT(gt_of(61, 46)),
{
    lemma_final_exponent();
    lemma_tangent_11_2();
    lemma_tangent_5_2();
    lemma_tangent_10_2();
    lemma_tangent_3_2();
    lemma_vertical_at(32, 42, 59, 65, 3);
    lemma_miller_at(
        g1p(32, 59),
        dq(65, 3),
        (g1p(12, 32), g1p(91, 66), g1p(26, 45), g1p(32, 42)),
        (35, 77),
        (96, 87),
        (96, 82),
        (15, 55),
        (-32, 65),
        ((43, 67, -47, -6), (16, 1, -17, 43), (53, 31, 2, 0), (21, 33, 25, 47)),
        ((59, 95, -7, 2), (3, 51, -43, -6), (23, 96, -34, -48)),
    );
    lemma_final_exp_11_2();
}

proof fn lemma_final_exp_12_2()
    ensures
        GT(gt_of(17, 25)).spow(600) == GT(gt_of(28, 39)),
{
    assert(GT::sone() == GT(gt_of(1, 0)));
    lemma_gt_mul_at((17, 25), (17, 25), (68, 23), (-4, 2));
    assert(GT::spow_steps(GT(gt_of(1, 0)), GT(gt_of(17, 25)), 600) == GT::spow_steps(GT(gt_of(1, 0)), GT(gt_of(68, 23)), 300));
    lemma_gt_mul_at((68, 23), (68, 23), (55, 74), (40, 25));
    assert(GT::spow_steps(GT(gt_of(1, 0)), GT(gt_of(68, 23)), 300) == GT::spow_steps(GT(gt_of(1, 0)), GT(gt_of(55, 74)), 150));
    lemma_gt_mul_at((55, 74), (55, 74), (74, 38), (-25, 26));
    assert(GT::spow_steps(GT(gt_of(1, 0)), GT(gt_of(55, 74)), 150) == GT::spow_steps(GT(gt_of(1, 0)), GT(gt_of(74, 38)), 75));
    lemma_gt_mul_at((1, 0), (74, 38), (74, 38), (0, 0));
    lemma_gt_mul_at((74, 38), (74, 38), (93, 39), (39, 41));
    assert(GT::spow_steps(GT(gt_of(1, 0)), GT(gt_of(74, 38)), 75) == GT::spow_steps(GT(gt_of(74, 38)), GT(gt_of(93, 39)), 37));
    lemma_gt_mul_at((74, 38), (93, 39), (47, 90), (53, 48));
    lemma_gt_mul_at((93, 39), (93, 39), (58, 77), (70, 56));
    assert(GT::spow_steps(GT(gt_of(74, 38)), GT(gt_of(93, 39)), 37) == GT::spow_steps(GT(gt_of(47, 90)), GT(gt_of(58, 77)), 18));
    lemma_gt_mul_at((58, 77), (58, 77), (61, 74), (-26, 29));
    assert(GT::spow_steps(GT(gt_of(47, 90)), GT(gt_of(58, 77)), 18) == GT::spow_steps(GT(gt_of(47, 90)), GT(gt_of(61, 74)), 9));
    lemma_gt_mul_at((47, 90), (61, 74), (45, 86), (-38, 22));
    lemma_gt_mul_at((61, 74), (61, 74), (63, 17), (-18, 35));
    assert(GT::spow_steps(GT(gt_of(47, 90)), GT(gt_of(61, 74)), 9) == GT::spow_steps(GT(gt_of(45, 86)), GT(gt_of(63, 17)), 4));
    lemma_gt_mul_at((63, 17), (63, 17), (44, 35), (36, 18));
    assert(GT::spow_steps(GT(gt_of(45, 86)), GT(gt_of(63, 17)), 4) == GT::spow_steps(GT(gt_of(45, 86)), GT(gt_of(44, 35)), 2));
    lemma_gt_mul_at((44, 35), (44, 35), (4, 37), (7, 18));
    assert(GT::spow_steps(GT(gt_of(45, 86)), GT(gt_of(44, 35)), 2) == GT::spow_steps(GT(gt_of(45, 86)), GT(gt_of(4, 37)), 1));
    lemma_gt_mul_at((45, 86), (4, 37), (28, 39), (-30, -12));
    lemma_gt_mul_at((4, 37), (4, 37), (61, 38), (-14, -11));
    assert(GT::spow_steps(GT(gt_of(45, 86)), GT(gt_of(4, 37)), 1) == GT::spow_steps(GT(gt_of(28, 39)), GT(gt_of(61, 38)), 0));
}

/// The pairing of `12G` with the point `2 P` of the image of `H`.
proof fn lemma_pairing_12_2()
    ensures
        smiller_loop(g1p(12, 69), dq(65, 3)) is Some,
        spairing_at(g1p(12, 69), dq(65, 3)) == GT(gt_of(28, 39)),
{
    lemma_final_exponent();
    lemma_tangent_12_2();
    lemma_tangent_7_2();
    lemma_tangent_14_2();
    lemma_tangent_11_2();
    lemma_vertical_at(12, 32, 69, 65, 3);
    lemma_miller_at(
        g1p(12, 69),
        dq(65, 3),
        (g1p(91, 35), g1p(26, 56), g1p(32, 59), g1p(12, 32)),
        (82, 4),
        (85, 4),
        (12, 87),
        (35, 77),
        (-12, 65),
        ((42, 34, 66, 6), (0, 94, 34, 28), (52, 52, -88, -88), (39, 18, -39, 6)),
        ((86, 70, 11, 10), (44, 46, -24, 36), (17, 25, -35, -7)),
    );
    lemma_final_exp_12_2();
}

proof fn lemma_final_exp_13_2()
    ensures
        GT(gt_of(37, 43)).spow(600) == GT(gt_of(51, 9)),
{
    assert(GT::sone() == GT(gt_of(1, 0)));
    lemma_gt_mul_at((37, 43), (37, 43), (25, 20), (-5, 13));
    assert(GT::spow_steps(GT(gt_of(1, 0)), GT(gt_of(37, 43)), 600) == GT::spow_steps(GT(gt_of(1, 0)), GT(gt_of(25, 20)), 300));
    lemma_gt_mul_at((25, 20), (25, 20), (23, 95), (2, 5));
    assert(GT::spow_steps(GT(gt_of(1, 0)), GT(gt_of(25, 20)), 300) == GT::spow_steps(GT(gt_of(1, 0)), GT(gt_of(23, 95)), 150));
    lemma_gt_mul_at((23, 95), (23, 95), (89, 92), (-85, -47));
    assert(GT::spow_steps(GT(gt_of(1, 0)), GT(gt_of(23, 95)), 150) == GT::spow_steps(GT(gt_of(1, 0)), GT(gt_of(89, 92)), 75));
    lemma_gt_mul_at((1, 0), (89, 92), (89, 92), (0, 0));
    lemma_gt_mul_at((89, 92), (89, 92), (63, 34), (-6, 78));
    assert(GT::spow_steps(GT(gt_of(1, 0)), GT(gt_of(89, 92)), 75) == GT::spow_steps(GT(gt_of(89, 92)), GT(gt_of(63, 34)), 37));
    lemma_gt_mul_at((89, 92), (63, 34), (55, 38), (24, 56));
    lemma_gt_mul_at((63, 34), (63, 34), (86, 98), (27, 30));
    assert(GT::spow_steps(GT(gt_of(89, 92)), GT(gt_of(63, 34)), 37) == GT::spow_steps(GT(gt_of(55, 38)), GT(gt_of(86, 98)), 18));
    lemma_gt_mul_at((86, 98), (86, 98), (14, 81), (-22, 71));
    assert(GT::spow_steps(GT(gt_of(55, 38)), GT(gt_of(86, 98)), 18) == GT::spow_steps(GT(gt_of(55, 38)), GT(gt_of(14, 81)), 9));
    lemma_gt_mul_at((55, 38), (14, 81), (15, 91), (-23, 18));
    lemma_gt_mul_at((14, 81), (14, 81), (99, 50), (-64, -43));
    assert(GT::spow_steps(GT(gt_of(55, 38)), GT(gt_of(14, 81)), 9) == GT::spow_steps(GT(gt_of(15, 91)), GT(gt_of(99, 50)), 4));
    lemma_gt_mul_at((99, 50), (99, 50), (29, 27), (72, 73));
    assert(GT::spow_steps(GT(gt_of(15, 91)), GT(gt_of(99, 50)), 4) == GT::spow_steps(GT(gt_of(15, 91)), GT(gt_of(29, 27)), 2));
    lemma_gt_mul_at((29, 27), (29, 27), (11, 29), (1, 8));
    assert(GT::spow_steps(GT(gt_of(15, 91)), GT(gt_of(29, 27)), 2) == GT::spow_steps(GT(gt_of(15, 91)), GT(gt_of(11, 29)), 1));
    lemma_gt_mul_at((15, 91), (11, 29), (51, 9), (-25, -12));
    lemma_gt_mul_at((11, 29), (11, 29), (88, 100), (-8, -3));
    assert(GT::spow_steps(GT(gt_of(15, 91)), GT(gt_of(11, 29)), 1) == GT::spow_steps(GT(gt_of(51, 9)), GT(gt_of(88, 100)), 0));
}

/// The pairing of `13G` with the point `2 P` of the image of `H`.
proof fn lemma_pairing_13_2()
    ensures
        smiller_loop(g1p(65, 3), dq(65, 3)) is Some,
        spairing_at(g1p(65, 3), dq(65, 3)) == GT(gt_of(51, 9)),
{
    lemma_final_exponent();
    lemma_tangent_13_2();
    lemma_tangent_9_2();
    lemma_tangent_1_2();
    lemma_tangent_2_2();
    lemma_vertical_at(65, 98, 3, 65, 3);
    lemma_miller_at(
        g1p(65, 3),
        dq(65, 3),
        (g1p(18, 52), g1p(1, 2), g1p(68, 74), g1p(65, 98)),
        (17, 17),
        (98, 82),
        (58, 57),
        (10, 0),
        (-65, 65),
        ((0, 87, 0, 2), (37, 79, -71, 13), (77, 9, -49, -4), (14, 55, 39, 43)),
        ((100, 30, -29, -15), (91, 98, 9, 2), (37, 43, -122, -68)),
    );
    lemma_final_exp_13_2();
}

proof fn lemma_final_exp_14_2()
    ensures
        GT(gt_of(16, 86)).spow(600) == GT(gt_of(75, 98)),
{
    assert(GT::sone() == GT(gt_of(1, 0)));
    lemma_gt_mul_at((16, 86), (16, 86), (31, 2), (-71, -46));
    assert(GT::spow_steps(GT(gt_of(1, 0)), GT(gt_of(16, 86)), 600) == GT::spow_steps(GT(gt_of(1, 0)), GT(gt_of(31, 2)), 300));
    lemma_gt_mul_at((31, 2), (31, 2), (48, 19), (9, 1));
    assert(GT::spow_steps(GT(gt_of(1, 0)), GT(gt_of(31, 2)), 300) == GT::spow_steps(GT(gt_of(1, 0)), GT(gt_of(48, 19)), 150));
    lemma_gt_mul_at((48, 19), (48, 19), (24, 49), (19, 14));
    assert(GT::spow_steps(GT(gt_of(1, 0)), GT(gt_of(48, 19)), 150) == GT::spow_steps(GT(gt_of(1, 0)), GT(gt_of(24, 49)), 75));
    lemma_gt_mul_at((1, 0), (24, 49), (24, 49), (0, 0));
    lemma_gt_mul_at((24, 49), (24, 49), (94, 52), (-19, -1));
    assert(GT::spow_steps(GT(gt_of(1, 0)), GT(gt_of(24, 49)), 75) == GT::spow_steps(GT(gt_of(24, 49)), GT(gt_of(94, 52)), 37));
    lemma_gt_mul_at((24, 49), (94, 52), (11, 74), (-3, 32));
    lemma_gt_mul_at((94, 52), (94, 52), (72, 2), (60, 70));
    assert(GT::spow_steps(GT(gt_of(24, 49)), GT(gt_of(94, 52)), 37) == GT::spow_steps(GT(gt_of(11, 74)), GT(gt_of(72, 2)), 18));
    lemma_gt_mul_at((72, 2), (72, 2), (29, 82), (51, 2));
    assert(GT::spow_steps(GT(gt_of(11, 74)), GT(gt_of(72, 2)), 18) == GT::spow_steps(GT(gt_of(11, 74)), GT(gt_of(29, 82)), 9));
    lemma_gt_mul_at((11, 74), (29, 82), (8, 10), (-57, -30));
    lemma_gt_mul_at((29, 82), (29, 82), (76, 52), (-59, -20));
    assert(GT::spow_steps(GT(gt_of(11, 74)), GT(gt_of(29, 82)), 9) == GT::spow_steps(GT(gt_of(8, 10)), GT(gt_of(76, 52)), 4));
    lemma_gt_mul_at((76, 52), (76, 52), (42, 49), (30, 51));
    assert(GT::spow_steps(GT(gt_of(8, 10)), GT(gt_of(76, 52)), 4) == GT::spow_steps(GT(gt_of(8, 10)), GT(gt_of(42, 49)), 2));
    lemma_gt_mul_at((42, 49), (42, 49), (70, 99), (-7, 16));
    assert(GT::spow_steps(GT(gt_of(8, 10)), GT(gt_of(42, 49)), 2) == GT::spow_steps(GT(gt_of(8, 10)), GT(gt_of(70, 99)), 1));
    lemma_gt_mul_at((8, 10), (70, 99), (75, 98), (-5, 4));
    lemma_gt_mul_at((70, 99), (70, 99), (48, 19), (-49, 40));
    assert(GT::spow_steps(GT(gt_of(8, 10)), GT(gt_of(70, 99)), 1) == GT::spow_steps(GT(gt_of(75, 98)), GT(gt_of(48, 19)), 0));
}

/// The pairing of `14G` with the point `2 P` of the image of `H`.
proof fn lemma_pairing_14_2()
    ensures
        smiller_loop(g1p(26, 56), dq(65, 3)) is Some,
        spairing_at(g1p(26, 56), dq(65, 3)) == GT(gt_of(75, 98)),
{
    lemma_final_exponent();
    lemma_tangent_14_2();
    lemma_tangent_11_2();
    lemma_tangent_5_2();
    lemma_tangent_10_2();
    lemma_vertical_at(26, 45, 56, 65, 3);
    lemma_miller_at(
        g1p(26, 56),
        dq(65, 3),
        (g1p(32, 59), g1p(12, 32), g1p(91, 66), g1p(26, 45)),
        (12, 87),
        (35, 77),
        (96, 87),
        (96, 82),
        (-26, 65),
        ((49, 74, -74, -55), (57, 59, -40, 6), (71, 13, -3, 32), (29, 32, 56, 62)),
        ((19, 24, -2, 8), (58, 76, -2, 18), (16, 86, -64, -32)),
    );
    lemma_final_exp_14_2();
}

proof fn lemma_final_exp_15_2()
    ensures
        GT(gt_of(99, 50)).spow(600) == GT(gt_of(47, 80)),
{
    assert(GT::sone() == GT(gt_of(1, 0)));
    lemma_gt_mul_at((99, 50), (99, 50), (29, 27), (72, 73));
    assert(GT::spow_steps(GT(gt_of(1, 0)), GT(gt_of(99, 50)), 600) == GT::spow_steps(GT(gt_of(1, 0)), GT(gt_of(29, 27)), 300));
    lemma_gt_mul_at((29, 27), (29, 27), (11, 29), (1, 8));
    assert(GT::spow_steps(GT(gt_of(1, 0)), GT(gt_of(29, 27)), 300) == GT::spow_steps(GT(gt_of(1, 0)), GT(gt_of(11, 29)), 150));
    lemma_gt_mul_at((11, 29), (11, 29), (88, 100), (-8, -3));
    assert(GT::spow_steps(GT(gt_of(1, 0)), GT(gt_of(11, 29)), 150) == GT::spow_steps(GT(gt_of(1, 0)), GT(gt_of(88, 100)), 75));
    lemma_gt_mul_at((1, 0), (88, 100), (88, 100), (0, 0));
    lemma_gt_mul_at((88, 100), (88, 100), (67, 25), (-23, 75));
    assert(GT::spow_steps(GT(gt_of(1, 0)), GT(gt_of(88, 100)), 75) == GT::spow_steps(GT(gt_of(88, 100)), GT(gt_of(67, 25)), 37));
    lemma_gt_mul_at((88, 100), (67, 25), (63, 37), (33, 63));
    lemma_gt_mul_at((67, 25), (67, 25), (26, 99), (38, 26));
    assert(GT::spow_steps(GT(gt_of(88, 100)), GT(gt_of(67, 25)), 37) == GT::spow_steps(GT(gt_of(63, 37)), GT(gt_of(26, 99)), 18));
    lemma_gt_mul_at((26, 99), (26, 99), (66, 94), (-91, -47));
    assert(GT::spow_steps(GT(gt_of(63, 37)), GT(gt_of(26, 99)), 18) == GT::spow_steps(GT(gt_of(63, 37)), GT(gt_of(66, 94)), 9));
    lemma_gt_mul_at((63, 37), (66, 94), (74, 38), (6, 48));
    lemma_gt_mul_at((66, 94), (66, 94), (65, 37), (-45, 35));
    assert(GT::spow_steps(GT(gt_of(63, 37)), GT(gt_of(66, 94)), 9) == GT::spow_steps(GT(gt_of(74, 38)), GT(gt_of(65, 37)), 4));
    lemma_gt_mul_at((65, 37), (65, 37), (28, 7), (28, 34));
    assert(GT::spow_steps(GT(gt_of(74, 38)), GT(gt_of(65, 37)), 4) == GT::spow_steps(GT(gt_of(74, 38)), GT(gt_of(28, 7)), 2));
    lemma_gt_mul_at((28, 7), (28, 7), (28, 40), (7, 3));
    assert(GT::spow_steps(GT(gt_of(74, 38)), GT(gt_of(28, 7)), 2) == GT::spow_steps(GT(gt_of(74, 38)), GT(gt_of(28, 40)), 1));
    lemma_gt_mul_at((74, 38), (28, 40), (47, 80), (5, 24));
    lemma_gt_mul_at((28, 40), (28, 40), (93, 34), (-9, 6));
    assert(GT::spow_steps(GT(gt_of(74, 38)), GT(gt_of(28, 40)), 1) == GT::spow_steps(GT(gt_of(47, 80)), GT(gt_of(93, 34)), 0));
}

/// The pairing of `15G` with the point `2 P` of the image of `H`.
proof fn lemma_pairing_15_2()
    ensures
        smiller_loop(g1p(68, 27), dq(65, 3)) is Some,
        spairing_at(g1p(68, 27), dq(65, 3)) == GT(gt_of(47, 80)),
{
    lemma_final_exponent();
    lemma_tangent_15_2();
    lemma_tangent_13_2();
    lemma_tangent_9_2();
    lemma_tangent_1_2();
    lemma_vertical_at(68, 74, 27, 65, 3);
    lemma_miller_at(
        g1p(68, 27),
        dq(65, 3),
        (g1p(65, 3), g1p(18, 52), g1p(1, 2), g1p(68, 74)),
        (35, 73),
        (17, 17),
        (98, 82),
        (58, 57),
        (-68, 65),
        ((37, 84, -41, -3), (9, 23, -8, 6), (57, 87, -5, -2), (68, 6, -16, 60)),
        ((43, 73, 45, 7), (50, 100, -17, 24), (99, 50, -99, -100)),
    );
    lemma_final_exp_15_2();
}

proof fn lemma_final_exp_16_2()
    ensures
        GT(gt_of(75, 33)).spow(600) == GT(gt_of(12, 20)),
{
    assert(GT::sone() == GT(gt_of(1, 0)));
    lemma_gt_mul_at((75, 33), (75, 33), (92, 23), (44, 38));
    assert(GT::spow_steps(GT(gt_of(1, 0)), GT(gt_of(75, 33)), 600) == GT::spow_steps(GT(gt_of(1, 0)), GT(gt_of(92, 23)), 300));
    lemma_gt_mul_at((92, 23), (92, 23), (57, 67), (78, 36));
    assert(GT::spow_steps(GT(gt_of(1, 0)), GT(gt_of(92, 23)), 300) == GT::spow_steps(GT(gt_of(1, 0)), GT(gt_of(57, 67)), 150));
    lemma_gt_mul_at((57, 67), (57, 67), (73, 18), (-13, 31));
    assert(GT::spow_steps(GT(gt_of(1, 0)), GT(gt_of(57, 67)), 150) == GT::spow_steps(GT(gt_of(1, 0)), GT(gt_of(73, 18)), 75));
    lemma_gt_mul_at((1, 0), (73, 18), (73, 18), (0, 0));
    lemma_gt_mul_at((73, 18), (73, 18), (56, 82), (49, 22));
    assert(GT::spow_steps(GT(gt_of(1, 0)), GT(gt_of(73, 18)), 75) == GT::spow_steps(GT(gt_of(73, 18)), GT(gt_of(56, 82)), 37));
    lemma_gt_mul_at((73, 18), (56, 82), (87, 64), (25, 54));
    lemma_gt_mul_at((56, 82), (56, 82), (48, 36), (-36, 24));
    assert(GT::spow_steps(GT(gt_of(73, 18)), GT(gt_of(56, 82)), 37) == GT::spow_steps(GT(gt_of(87, 64)), GT(gt_of(48, 36)), 18));
    lemma_gt_mul_at((48, 36), (48, 36), (99, 39), (9, 21));
    assert(GT::spow_steps(GT(gt_of(87, 64)), GT(gt_of(48, 36)), 18) == GT::spow_steps(GT(gt_of(87, 64)), GT(gt_of(99, 39)), 9));
    lemma_gt_mul_at((87, 64), (99, 39), (57, 62), (60, 71));
    lemma_gt_mul_at((99, 39), (99, 39), (99, 40), (81, 61));
    assert(GT::spow_steps(GT(gt_of(87, 64)), GT(gt_of(99, 39)), 9) == GT::spow_steps(GT(gt_of(57, 62)), GT(gt_of(99, 40)), 4));
    lemma_gt_mul_at((99, 40), (99, 40), (20, 58), (81, 62));
    assert(GT::spow_steps(GT(gt_of(57, 62)), GT(gt_of(99, 40)), 4) == GT::spow_steps(GT(gt_of(57, 62)), GT(gt_of(20, 58)), 2));
    lemma_gt_mul_at((20, 58), (20, 58), (66, 67), (-30, -11));
    assert(GT::spow_steps(GT(gt_of(57, 62)), GT(gt_of(20, 58)), 2) == GT::spow_steps(GT(gt_of(57, 62)), GT(gt_of(66, 67)), 1));
    lemma_gt_mul_at((57, 62), (66, 67), (12, 20), (-4, 37));
    lemma_gt_mul_at((66, 67), (66, 67), (69, 12), (-2, 43));
    assert(GT::spow_steps(GT(gt_of(57, 62)), GT(gt_of(66, 67)), 1) == GT::spow_steps(GT(gt_of(12, 20)), GT(gt_of(69, 12)), 0));
}

/// The pairing of `16G` with the point `2 P` of the image of `H`.
proof fn lemma_pairing_16_2()
    ensures
        smiller_loop(g1p(1, 99), dq(65, 3)) is Some,
        spairing_at(g1p(1, 99), dq(65, 3)) == GT(gt_of(12, 20)),
{
    lemma_final_exponent();
    lemma_tangent_16_2();
    lemma_tangent_15_2();
    lemma_tangent_13_2();
    lemma_tangent_9_2();
    lemma_vertical_at(1, 2, 99, 65, 3);
    lemma_miller_at(
        g1p(1, 99),
        dq(65, 3),
        (g1p(68, 27), g1p(65, 3), g1p(18, 52), g1p(1, 2)),
        (22, 55),
        (35, 73),
        (17, 17),
        (98, 82),
        (-1, 65),
        ((85, 1, -26, -6), (74, 6, 28, 61), (87, 44, 53, 8), (24, 65, 7, 14)),
        ((88, 6, -37, -11), (52, 40, 80, 72), (75, 33, -27, 7)),
    );
    lemma_final_exp_16_2();
}

proof fn lemma_final_exp_1_3()
    ensures
        GT(gt_of(44, 41)).spow(600) == GT(gt_of(14, 44)),
{
    assert(GT::sone() == GT(gt_of(1, 0)));
    lemma_gt_mul_at((44, 41), (44, 41), (53, 8), (2, 19));
    assert(GT::spow_steps(GT(gt_of(1, 0)), GT(gt_of(44, 41)), 600) == GT::spow_steps(GT(gt_of(1, 0)), GT(gt_of(53, 8)), 300));
    lemma_gt_mul_at((53, 8), (53, 8), (18, 77), (27, 7));
    assert(GT::spow_steps(GT(gt_of(1, 0)), GT(gt_of(53, 8)), 300) == GT::spow_steps(GT(gt_of(1, 0)), GT(gt_of(18, 77)), 150));
    lemma_gt_mul_at((18, 77), (18, 77), (51, 75), (-56, -32));
    assert(GT::spow_steps(GT(gt_of(1, 0)), GT(gt_of(18, 77)), 150) == GT::spow_steps(GT(gt_of(1, 0)), GT(gt_of(51, 75)), 75));
    lemma_gt_mul_at((1, 0), (51, 75), (51, 75), (0, 0));
    lemma_gt_mul_at((51, 75), (51, 75), (6, 5), (-30, 20));
    assert(GT::spow_steps(GT(gt_of(1, 0)), GT(gt_of(51, 75)), 75) == GT::spow_steps(GT(gt_of(51, 75)), GT(gt_of(6, 5)), 37));
    lemma_gt_mul_at((51, 75), (6, 5), (32, 27), (-1, 3));
    lemma_gt_mul_at((6, 5), (6, 5), (11, 35), (0, 0));
    assert(GT::spow_steps(GT(gt_of(51, 75)), GT(gt_of(6, 5)), 37) == GT::spow_steps(GT(gt_of(32, 27)), GT(gt_of(11, 35)), 18));
    lemma_gt_mul_at((11, 35), (11, 35), (7, 50), (-11, -5));
    assert(GT::spow_steps(GT(gt_of(32, 27)), GT(gt_of(11, 35)), 18) == GT::spow_steps(GT(gt_of(32, 27)), GT(gt_of(7, 50)), 9));
    lemma_gt_mul_at((32, 27), (7, 50), (86, 35), (-12, 4));
    lemma_gt_mul_at((7, 50), (7, 50), (74, 18), (-25, -18));
    assert(GT::spow_steps(GT(gt_of(32, 27)), GT(gt_of(7, 50)), 9) == GT::spow_steps(GT(gt_of(86, 35)), GT(gt_of(74, 18)), 4));
    lemma_gt_mul_at((74, 18), (74, 18), (1, 17), (51, 23));
    assert(GT::spow_steps(GT(gt_of(86, 35)), GT(gt_of(74, 18)), 4) == GT::spow_steps(GT(gt_of(86, 35)), GT(gt_of(1, 17)), 2));
    lemma_gt_mul_at((1, 17), (1, 17), (15, 48), (-3, -3));
    assert(GT::spow_steps(GT(gt_of(86, 35)), GT(gt_of(1, 17)), 2) == GT::spow_steps(GT(gt_of(86, 35)), GT(gt_of(15, 48)), 1));
    lemma_gt_mul_at((86, 35), (15, 48), (14, 44), (-4, 29));
    lemma_gt_mul_at((15, 48), (15, 48), (42, 45), (-21, -9));
    assert(GT::spow_steps(GT(gt_of(86, 35)), GT(gt_of(15, 48)), 1) == GT::spow_steps(GT(gt_of(14, 44)), GT(gt_of(42, 45)), 0));
}

/// The pairing of `1G` with the point `3 P` of the image of `H`.
proof fn lemma_pairing_1_3()
    ensures
        smiller_loop(g1p(1, 2), dq(20, 23)) is Some,
        spairing_at(g1p(1, 2), dq(20, 23)) == GT(gt_of(14, 44)),
{
    lemma_final_exponent();
    lemma_tangent_1_3();
    lemma_tangent_2_3();
    lemma_tangent_4_3();
    lemma_tangent_8_3();
    lemma_vertical_at(1, 99, 2, 20, 23);
    lemma_miller_at(
        g1p(1, 2),
        dq(20, 23),
        (g1p(68, 74), g1p(65, 98), g1p(18, 49), g1p(1, 99)),
        (10, 100),
        (60, 89),
        (76, 87),
        (1, 5),
        (-1, 20),
        ((99, 80, -99, -80), (32, 27, -12, 64), (93, 90, 2, 9), (46, 31, -8, 70)),
        ((44, 73, 11, 18), (83, 29, -4, -1), (44, 41, -7, 10)),
    );
    lemma_final_exp_1_3();
}

proof fn lemma_final_exp_2_3()
    ensures
        GT(gt_of(17, 94)).spow(600) == GT(gt_of(78, 3)),
{
    assert(GT::sone() == GT(gt_of(1, 0)));
    lemma_gt_mul_at((17, 94), (17, 94), (38, 16), (-85, -56));
    assert(GT::spow_steps(GT(gt_of(1, 0)), GT(gt_of(17, 94)), 600) == GT::spow_steps(GT(gt_of(1, 0)), GT(gt_of(38, 16)), 300));
    lemma_gt_mul_at((38, 16), (38, 16), (77, 51), (11, 9));
    assert(GT::spow_steps(GT(gt_of(1, 0)), GT(gt_of(38, 16)), 300) == GT::spow_steps(GT(gt_of(1, 0)), GT(gt_of(77, 51)), 150));
    lemma_gt_mul_at((77, 51), (77, 51), (96, 1), (32, 52));
    assert(GT::spow_steps(GT(gt_of(1, 0)), GT(gt_of(77, 51)), 150) == GT::spow_steps(GT(gt_of(1, 0)), GT(gt_of(96, 1)), 75));
    lemma_gt_mul_at((1, 0), (96, 1), (96, 1), (0, 0));
    lemma_gt_mul_at((96, 1), (96, 1), (24, 90), (91, 1));
    assert(GT::spow_steps(GT(gt_of(1, 0)), GT(gt_of(96, 1)), 75) == GT::spow_steps(GT(gt_of(96, 1)), GT(gt_of(24, 90)), 37));
    lemma_gt_mul_at((96, 1), (24, 90), (93, 90), (21, 84));
    lemma_gt_mul_at((24, 90), (24, 90), (51, 58), (-75, -38));
    assert(GT::spow_steps(GT(gt_of(96, 1)), GT(gt_of(24, 90)), 37) == GT::spow_steps(GT(gt_of(93, 90)), GT(gt_of(51, 58)), 18));
    lemma_gt_mul_at((51, 58), (51, 58), (45, 27), (-8, 25));
    assert(GT::spow_steps(GT(gt_of(93, 90)), GT(gt_of(51, 58)), 18) == GT::spow_steps(GT(gt_of(93, 90)), GT(gt_of(45, 27)), 9));
    lemma_gt_mul_at((93, 90), (45, 27), (38, 91), (17, 40));
    lemma_gt_mul_at((45, 27), (45, 27), (84, 85), (12, 16));
    assert(GT::spow_steps(GT(gt_of(93, 90)), GT(gt_of(45, 27)), 9) == GT::spow_steps(GT(gt_of(38, 91)), GT(gt_of(84, 85)), 4));
    lemma_gt_mul_at((84, 85), (84, 85), (33, 86), (-2, 69));
    assert(GT::spow_steps(GT(gt_of(38, 91)), GT(gt_of(84, 85)), 4) == GT::spow_steps(GT(gt_of(38, 91)), GT(gt_of(33, 86)), 2));
    lemma_gt_mul_at((33, 86), (33, 86), (56, 98), (-63, -18));
    assert(GT::spow_steps(GT(gt_of(38, 91)), GT(gt_of(33, 86)), 2) == GT::spow_steps(GT(gt_of(38, 91)), GT(gt_of(56, 98)), 1));
    lemma_gt_mul_at((38, 91), (56, 98), (78, 3), (-68, -1));
    lemma_gt_mul_at((56, 98), (56, 98), (97, 59), (-65, 13));
    assert(GT::spow_steps(GT(gt_of(38, 91)), GT(gt_of(56, 98)), 1) == GT::spow_steps(GT(gt_of(78, 3)), GT(gt_of(97, 59)), 0));
}

/// The pairing of `2G` with the point `3 P` of the image of `H`.
proof fn lemma_pairing_2_3()
    ensures
        smiller_loop(g1p(68, 74), dq(20, 23)) is Some,
        spairing_at(g1p(68, 74), dq(20, 23)) == GT(gt_of(78, 3)),
{
    lemma_final_exponent();
    lemma_tangent_2_3();
    lemma_tangent_4_3();
    lemma_tangent_8_3();
    lemma_tangent_16_3();
    lemma_vertical_at(68, 27, 74, 20, 23);
    lemma_miller_at(
        g1p(68, 74),
        dq(20, 23),
        (g1p(65, 98), g1p(18, 49), g1p(1, 99), g1p(68, 27)),
        (60, 89),
        (76, 87),
        (1, 5),
        (81, 63),
        (-68, 20),
        ((22, 32, -43, 27), (100, 47, -12, 15), (14, 20, 77, 71), (15, 91, -1, -1)),
        ((24, 4, -80, -55), (76, 69, 16, 15), (17, 94, -65, -46)),
    );
    lemma_final_exp_2_3();
}

proof fn lemma_final_exp_3_3()
    ensures
        GT(gt_of(42, 60)).spow(600) == GT(gt_of(51, 9)),
{
    assert(GT::sone() == GT(gt_of(1, 0)));
    lemma_gt_mul_at((42, 60), (42, 60), (83, 26), (-19, 14));
    assert(GT::spow_steps(GT(gt_of(1, 0)), GT(gt_of(42, 60)), 600) == GT::spow_steps(GT(gt_of(1, 0)), GT(gt_of(83, 26)), 300));
    lemma_gt_mul_at((83, 26), (83, 26), (52, 4), (61, 36));
    assert(GT::spow_steps(GT(gt_of(1, 0)), GT(gt_of(83, 26)), 300) == GT::spow_steps(GT(gt_of(1, 0)), GT(gt_of(52, 4)), 150));
    lemma_gt_mul_at((52, 4), (52, 4), (62, 97), (26, 3));
    assert(GT::spow_steps(GT(gt_of(1, 0)), GT(gt_of(52, 4)), 150) == GT::spow_steps(GT(gt_of(1, 0)), GT(gt_of(62, 97)), 75));
    lemma_gt_mul_at((1, 0), (62, 97), (62, 97), (0, 0));
    lemma_gt_mul_at((62, 97), (62, 97), (91, 94), (-56, 25));
    assert(GT::spow_steps(GT(gt_of(1, 0)), GT(gt_of(62, 97)), 75) == GT::spow_steps(GT(gt_of(62, 97)), GT(gt_of(91, 94)), 37));
    lemma_gt_mul_at((62, 97), (91, 94), (59, 83), (-35, 54));
    lemma_gt_mul_at((91, 94), (91, 94), (51, 91), (-6, 81));
    assert(GT::spow_steps(GT(gt_of(62, 97)), GT(gt_of(91, 94)), 37) == GT::spow_steps(GT(gt_of(59, 83)), GT(gt_of(51, 91)), 18));
    lemma_gt_mul_at((51, 91), (51, 91), (77, 92), (-57, 9));
    assert(GT::spow_steps(GT(gt_of(59, 83)), GT(gt_of(51, 91)), 18) == GT::spow_steps(GT(gt_of(59, 83)), GT(gt_of(77, 92)), 9));
    lemma_gt_mul_at((59, 83), (77, 92), (38, 42), (-31, 41));
    lemma_gt_mul_at((77, 92), (77, 92), (91, 48), (-26, 56));
    assert(GT::spow_steps(GT(gt_of(59, 83)), GT(gt_of(77, 92)), 9) == GT::spow_steps(GT(gt_of(38, 42)), GT(gt_of(91, 48)), 4));
    lemma_gt_mul_at((91, 48), (91, 48), (18, 69), (59, 63));
    assert(GT::spow_steps(GT(gt_of(38, 42)), GT(gt_of(91, 48)), 4) == GT::spow_steps(GT(gt_of(38, 42)), GT(gt_of(18, 69)), 2));
    lemma_gt_mul_at((18, 69), (18, 69), (7, 46), (-44, -23));
    assert(GT::spow_steps(GT(gt_of(38, 42)), GT(gt_of(18, 69)), 2) == GT::spow_steps(GT(gt_of(38, 42)), GT(gt_of(7, 46)), 1));
    lemma_gt_mul_at((38, 42), (7, 46), (51, 9), (-17, 1));
    lemma_gt_mul_at((7, 46), (7, 46), (54, 43), (-21, -15));
    assert(GT::spow_steps(GT(gt_of(38, 42)), GT(gt_of(7, 46)), 1) == GT::spow_steps(GT(gt_of(51, 9)), GT(gt_of(54, 43)), 0));
}

/// The pairing of `3G` with the point `3 P` of the image of `H`.
proof fn lemma_pairing_3_3()
    ensures
        smiller_loop(g1p(26, 45), dq(20, 23)) is Some,
        spairing_at(g1p(26, 45), dq(20, 23)) == GT(gt_of(51, 9)),
{
    lemma_final_exponent();
    lemma_tangent_3_3();
    lemma_tangent_6_3();
    lemma_tangent_12_3();
    lemma_tangent_7_3();
    lemma_vertical_at(26, 56, 45, 20, 23);
    lemma_miller_at(
        g1p(26, 45),
        dq(20, 23),
        (g1p(32, 42), g1p(12, 69), g1p(91, 35), g1p(26, 56)),
        (80, 99),
        (38, 43),
        (57, 50),
        (49, 79),
        (-26, 20),
        ((33, 80, -34, 59), (36, 9, -22, 10), (3, 62, 12, 5), (0, 79, -29, 5)),
        ((21, 21, -62, -62), (77, 19, -7, 10), (42, 60, -24, 6)),
    );
    lemma_final_exp_3_3();
}

proof fn lemma_final_exp_4_3()
    ensures
        GT(gt_of(86, 20)).spow(600) == GT(gt_of(15, 55)),
{
    assert(GT::sone() == GT(gt_of(1, 0)));
    lemma_gt_mul_at((86, 20), (86, 20), (27, 10), (69, 30));
    assert(GT::spow_steps(GT(gt_of(1, 0)), GT(gt_of(86, 20)), 600) == GT::spow_steps(GT(gt_of(1, 0)), GT(gt_of(27, 10)), 300));
    lemma_gt_mul_at((27, 10), (27, 10), (23, 36), (6, 4));
    assert(GT::spow_steps(GT(gt_of(1, 0)), GT(gt_of(27, 10)), 300) == GT::spow_steps(GT(gt_of(1, 0)), GT(gt_of(23, 36)), 150));
    lemma_gt_mul_at((23, 36), (23, 36), (41, 57), (-8, 3));
    assert(GT::spow_steps(GT(gt_of(1, 0)), GT(gt_of(23, 36)), 150) == GT::spow_steps(GT(gt_of(1, 0)), GT(gt_of(41, 57)), 75));
    lemma_gt_mul_at((1, 0), (41, 57), (41, 57), (0, 0));
    lemma_gt_mul_at((41, 57), (41, 57), (48, 11), (-16, 14));
    assert(GT::spow_steps(GT(gt_of(1, 0)), GT(gt_of(41, 57)), 75) == GT::spow_steps(GT(gt_of(41, 57)), GT(gt_of(48, 11)), 37));
    lemma_gt_mul_at((41, 57), (48, 11), (28, 35), (13, 25));
    lemma_gt_mul_at((48, 11), (48, 11), (62, 26), (21, 9));
    assert(GT::spow_steps(GT(gt_of(41, 57)), GT(gt_of(48, 11)), 37) == GT::spow_steps(GT(gt_of(28, 35)), GT(gt_of(62, 26)), 18));
    lemma_gt_mul_at((62, 26), (62, 26), (37, 23), (31, 25));
    assert(GT::spow_steps(GT(gt_of(28, 35)), GT(gt_of(62, 26)), 18) == GT::spow_steps(GT(gt_of(28, 35)), GT(gt_of(37, 23)), 9));
    lemma_gt_mul_at((28, 35), (37, 23), (29, 23), (2, 11));
    lemma_gt_mul_at((37, 23), (37, 23), (32, 62), (8, 11));
    assert(GT::spow_steps(GT(gt_of(28, 35)), GT(gt_of(37, 23)), 9) == GT::spow_steps(GT(gt_of(29, 23)), GT(gt_of(32, 62)), 4));
    lemma_gt_mul_at((32, 62), (32, 62), (8, 23), (-28, 1));
    assert(GT::spow_steps(GT(gt_of(29, 23)), GT(gt_of(32, 62)), 4) == GT::spow_steps(GT(gt_of(29, 23)), GT(gt_of(8, 23)), 2));
    lemma_gt_mul_at((8, 23), (8, 23), (40, 41), (-5, -2));
    assert(GT::spow_steps(GT(gt_of(29, 23)), GT(gt_of(8, 23)), 2) == GT::spow_steps(GT(gt_of(29, 23)), GT(gt_of(40, 41)), 1));
    lemma_gt_mul_at((29, 23), (40, 41), (15, 55), (2, 11));
    lemma_gt_mul_at((40, 41), (40, 41), (20, 84), (-1, 15));
    assert(GT::spow_steps(GT(gt_of(29, 23)), GT(gt_of(40, 41)), 1) == GT::spow_steps(GT(gt_of(15, 55)), GT(gt_of(20, 84)), 0));
}

/// The pairing of `4G` with the point `3 P` of the image of `H`.
proof fn lemma_pairing_4_3()
    ensures
        smiller_loop(g1p(65, 98), dq(20, 23)) is Some,
        spairing_at(g1p(65, 98), dq(20, 23)) == GT(gt_of(15, 55)),
{
    lemma_final_exponent();
    lemma_tangent_4_3();
    lemma_tangent_8_3();
    lemma_tangent_16_3();
    lemma_tangent_15_3();
    lemma_vertical_at(65, 3, 98, 20, 23);
    lemma_miller_at(
        g1p(65, 98),
        dq(20, 23),
        (g1p(18, 49), g1p(1, 99), g1p(68, 27), g1p(65, 3)),
        (76, 87),
        (1, 5),
        (81, 63),
        (55, 45),
        (-65, 20),
        ((25, 100, -18, 55), (30, 28, -5, -3), (15, 88, 1, 8), (14, 4, -43, 25)),
        ((79, 96, 1, 0), (25, 71, 0, 44), (86, 20, -31, -55)),
    );
    lemma_final_exp_4_3();
}

proof fn lemma_final_exp_5_3()
    ensures
        GT(gt_of(82, 99)).spow(600) == GT(gt_of(12, 20)),
{
    assert(GT::sone() == GT(gt_of(1, 0)));
    lemma_gt_mul_at((82, 99), (82, 99), (54, 72), (-31, 63));
    assert(GT::spow_steps(GT(gt_of(1, 0)), GT(gt_of(82, 99)), 600) == GT::spow_steps(GT(gt_of(1, 0)), GT(gt_of(54, 72)), 300));
    lemma_gt_mul_at((54, 72), (54, 72), (55, 67), (-23, 25));
    assert(GT::spow_steps(GT(gt_of(1, 0)), GT(gt_of(54, 72)), 300) == GT::spow_steps(GT(gt_of(1, 0)), GT(gt_of(55, 67)), 150));
    lemma_gt_mul_at((55, 67), (55, 67), (51, 53), (-15, 28));
    assert(GT::spow_steps(GT(gt_of(1, 0)), GT(gt_of(55, 67)), 150) == GT::spow_steps(GT(gt_of(1, 0)), GT(gt_of(51, 53)), 75));
    lemma_gt_mul_at((1, 0), (51, 53), (51, 53), (0, 0));
    lemma_gt_mul_at((51, 53), (51, 53), (95, 72), (-3, 25));
    assert(GT::spow_steps(GT(gt_of(1, 0)), GT(gt_of(51, 53)), 75) == GT::spow_steps(GT(gt_of(51, 53)), GT(gt_of(95, 72)), 37));
    lemma_gt_mul_at((51, 53), (95, 72), (19, 43), (10, 48));
    lemma_gt_mul_at((95, 72), (95, 72), (3, 12), (38, 84));
    assert(GT::spow_steps(GT(gt_of(51, 53)), GT(gt_of(95, 72)), 37) == GT::spow_steps(GT(gt_of(19, 43)), GT(gt_of(3, 12)), 18));
    lemma_gt_mul_at((3, 12), (3, 12), (67, 29), (-2, -1));
    assert(GT::spow_steps(GT(gt_of(19, 43)), GT(gt_of(3, 12)), 18) == GT::spow_steps(GT(gt_of(19, 43)), GT(gt_of(67, 29)), 9));
    lemma_gt_mul_at((19, 43), (67, 29), (26, 64), (0, 21));
    lemma_gt_mul_at((67, 29), (67, 29), (12, 15), (36, 30));
    assert(GT::spow_steps(GT(gt_of(19, 43)), GT(gt_of(67, 29)), 9) == GT::spow_steps(GT(gt_of(26, 64)), GT(gt_of(12, 15)), 4));
    lemma_gt_mul_at((12, 15), (12, 15), (20, 34), (-1, 1));
    assert(GT::spow_steps(GT(gt_of(26, 64)), GT(gt_of(12, 15)), 4) == GT::spow_steps(GT(gt_of(26, 64)), GT(gt_of(20, 34)), 2));
    lemma_gt_mul_at((20, 34), (20, 34), (52, 2), (-8, 2));
    assert(GT::spow_steps(GT(gt_of(26, 64)), GT(gt_of(20, 34)), 2) == GT::spow_steps(GT(gt_of(26, 64)), GT(gt_of(52, 2)), 1));
    lemma_gt_mul_at((26, 64), (52, 2), (12, 20), (12, 32));
    lemma_gt_mul_at((52, 2), (52, 2), (74, 2), (26, 2));
    assert(GT::spow_steps(GT(gt_of(26, 64)), GT(gt_of(52, 2)), 1) == GT::spow_steps(GT(gt_of(12, 20)), GT(gt_of(74, 2)), 0));
}

/// The pairing of `5G` with the point `3 P` of the image of `H`.
proof fn lemma_pairing_5_3()
    ensures
        smiller_loop(g1p(12, 32), dq(20, 23)) is Some,
        spairing_at(g1p(12, 32), dq(20, 23)) == GT(gt_of(12, 20)),
{
    lemma_final_exponent();
    lemma_tangent_5_3();
    lemma_tangent_10_3();
    lemma_tangent_3_3();
    lemma_tangent_6_3();
    lemma_vertical_at(12, 69, 32, 20, 23);
    lemma_miller_at(
        g1p(12, 32),
        dq(20, 23),
        (g1p(91, 66), g1p(26, 45), g1p(32, 42), g1p(12, 69)),
        (29, 21),
        (77, 68),
        (80, 99),
        (38, 43),
        (-12, 20),
        ((97, 70, 3, 7), (83, 55, 26, 71), (26, 45, 38, 60), (49, 2, -24, 17)),
        ((74, 91, 23, 1), (10, 0, -11, 27), (82, 99, -2, 1)),
    );
    lemma_final_exp_5_3();
}

proof fn lemma_final_exp_6_3()
    ensures
        GT(gt_of(22, 58)).spow(600) == GT(gt_of(96, 29)),
{
    assert(GT::sone() == GT(gt_of(1, 0)));
    lemma_gt_mul_at((22, 58), (22, 58), (49, 97), (-29, -9));
    assert(GT::spow_steps(GT(gt_of(1, 0)), GT(gt_of(22, 58)), 600) == GT::spow_steps(GT(gt_of(1, 0)), GT(gt_of(49, 97)), 300));
    lemma_gt_mul_at((49, 97), (49, 97), (62, 97), (-70, 0));
    assert(GT::spow_steps(GT(gt_of(1, 0)), GT(gt_of(49, 97)), 300) == GT::spow_steps(GT(gt_of(1, 0)), GT(gt_of(62, 97)), 150));
    lemma_gt_mul_at((62, 97), (62, 97), (91, 94), (-56, 25));
    assert(GT::spow_steps(GT(gt_of(1, 0)), GT(gt_of(62, 97)), 150) == GT::spow_steps(GT(gt_of(1, 0)), GT(gt_of(91, 94)), 75));
    lemma_gt_mul_at((1, 0), (91, 94), (91, 94), (0, 0));
    lemma_gt_mul_at((91, 94), (91, 94), (51, 91), (-6, 81));
    assert(GT::spow_steps(GT(gt_of(1, 0)), GT(gt_of(91, 94)), 75) == GT::spow_steps(GT(gt_of(91, 94)), GT(gt_of(51, 91)), 37));
    lemma_gt_mul_at((91, 94), (51, 91), (26, 77), (-39, 44));
    lemma_gt_mul_at((51, 91), (51, 91), (77, 92), (-57, 9));
    assert(GT::spow_steps(GT(gt_of(91, 94)), GT(gt_of(51, 91)), 37) == GT::spow_steps(GT(gt_of(26, 77)), GT(gt_of(77, 92)), 18));
    lemma_gt_mul_at((77, 92), (77, 92), (91, 48), (-26, 56));
    assert(GT::spow_steps(GT(gt_of(26, 77)), GT(gt_of(77, 92)), 18) == GT::spow_steps(GT(gt_of(26, 77)), GT(gt_of(91, 48)), 9));
    lemma_gt_mul_at((26, 77), (91, 48), (84, 14), (-14, 45));
    lemma_gt_mul_at((91, 48), (91, 48), (18, 69), (59, 63));
    assert(GT::spow_steps(GT(gt_of(26, 77)), GT(gt_of(91, 48)), 9) == GT::spow_steps(GT(gt_of(84, 14)), GT(gt_of(18, 69)), 4));
    lemma_gt_mul_at((18, 69), (18, 69), (7, 46), (-44, -23));
    assert(GT::spow_steps(GT(gt_of(84, 14)), GT(gt_of(18, 69)), 4) == GT::spow_steps(GT(gt_of(84, 14)), GT(gt_of(7, 46)), 2));
    lemma_gt_mul_at((7, 46), (7, 46), (54, 43), (-21, -15));
    assert(GT::spow_steps(GT(gt_of(84, 14)), GT(gt_of(7, 46)), 2) == GT::spow_steps(GT(gt_of(84, 14)), GT(gt_of(54, 43)), 1));
    lemma_gt_mul_at((84, 14), (54, 43), (96, 29), (38, 37));
    lemma_gt_mul_at((54, 43), (54, 43), (57, 68), (10, 27));
    assert(GT::spow_steps(GT(gt_of(84, 14)), GT(gt_of(54, 43)), 1) == GT::spow_steps(GT(gt_of(96, 29)), GT(gt_of(57, 68)), 0));
}

/// The pairing of `6G` with the point `3 P` of the image of `H`.
proof fn lemma_pairing_6_3()
    ensures
        smiller_loop(g1p(32, 42), dq(20, 23)) is Some,
        spairing_at(g1p(32, 42), dq(20, 23)) == GT(gt_of(96, 29)),
{
    lemma_final_exponent();
    lemma_tangent_6_3();
    lemma_tangent_12_3();
    lemma_tangent_7_3();
    lemma_tangent_14_3();
    lemma_vertical_at(32, 59, 42, 20, 23);
    lemma_miller_at(
        g1p(32, 42),
        dq(20, 23),
        (g1p(12, 69), g1p(91, 35), g1p(26, 56), g1p(32, 59)),
        (38, 43),
        (57, 50),
        (49, 79),
        (86, 27),
        (-32, 20),
        ((100, 5, -5, 14), (97, 86, 53, 49), (94, 97, 19, 91), (74, 72, -31, 44)),
        ((90, 18, 2, 54), (83, 58, 71, 34), (22, 58, -38, -14)),
    );
    lemma_final_exp_6_3();
}

proof fn lemma_final_exp_7_3()
    ensures
        GT(gt_of(22, 60)).spow(600) == GT(gt_of(68, 21)),
{
    assert(GT::sone() == GT(gt_of(1, 0)));
    lemma_gt_mul_at((22, 60), (22, 60), (15, 50), (-31, -10));
    assert(GT::spow_steps(GT(gt_of(1, 0)), GT(gt_of(22, 60)), 600) == GT::spow_steps(GT(gt_of(1, 0)), GT(gt_of(15, 50)), 300));
    lemma_gt_mul_at((15, 50), (15, 50), (48, 10), (-23, -10));
    assert(GT::spow_steps(GT(gt_of(1, 0)), GT(gt_of(15, 50)), 300) == GT::spow_steps(GT(gt_of(1, 0)), GT(gt_of(48, 10)), 150));
    lemma_gt_mul_at((48, 10), (48, 10), (83, 52), (21, 8));
    assert(GT::spow_steps(GT(gt_of(1, 0)), GT(gt_of(48, 10)), 150) == GT::spow_steps(GT(gt_of(1, 0)), GT(gt_of(83, 52)), 75));
    lemma_gt_mul_at((1, 0), (83, 52), (83, 52), (0, 0));
    lemma_gt_mul_at((83, 52), (83, 52), (44, 70), (41, 58));
    assert(GT::spow_steps(GT(gt_of(1, 0)), GT(gt_of(83, 52)), 75) == GT::spow_steps(GT(gt_of(83, 52)), GT(gt_of(44, 70)), 37));
    lemma_gt_mul_at((83, 52), (44, 70), (12, 14), (0, 44));
    lemma_gt_mul_at((44, 70), (44, 70), (66, 48), (-30, 12));
    assert(GT::spow_steps(GT(gt_of(83, 52)), GT(gt_of(44, 70)), 37) == GT::spow_steps(GT(gt_of(12, 14)), GT(gt_of(66, 48)), 18));
    lemma_gt_mul_at((66, 48), (66, 48), (32, 93), (20, 39));
    assert(GT::spow_steps(GT(gt_of(12, 14)), GT(gt_of(66, 48)), 18) == GT::spow_steps(GT(gt_of(12, 14)), GT(gt_of(32, 93)), 9));
    lemma_gt_mul_at((12, 14), (32, 93), (92, 60), (-10, 2));
    lemma_gt_mul_at((32, 93), (32, 93), (51, 30), (-76, -27));
    assert(GT::spow_steps(GT(gt_of(12, 14)), GT(gt_of(32, 93)), 9) == GT::spow_steps(GT(gt_of(92, 60)), GT(gt_of(51, 30)), 4));
    lemma_gt_mul_at((51, 30), (51, 30), (85, 39), (16, 21));
    assert(GT::spow_steps(GT(gt_of(92, 60)), GT(gt_of(51, 30)), 4) == GT::spow_steps(GT(gt_of(92, 60)), GT(gt_of(85, 39)), 2));
    lemma_gt_mul_at((85, 39), (85, 39), (48, 59), (56, 50));
    assert(GT::spow_steps(GT(gt_of(92, 60)), GT(gt_of(85, 39)), 2) == GT::spow_steps(GT(gt_of(92, 60)), GT(gt_of(48, 59)), 1));
    lemma_gt_mul_at((92, 60), (48, 59), (68, 21), (8, 47));
    lemma_gt_mul_at((48, 59), (48, 59), (35, 62), (-12, 21));
    assert(GT::spow_steps(GT(gt_of(92, 60)), GT(gt_of(48, 59)), 1) == GT::spow_steps(GT(gt_of(68, 21)), GT(gt_of(35, 62)), 0));
}

/// The pairing of `7G` with the point `3 P` of the image of `H`.
proof fn lemma_pairing_7_3()
    ensures
        smiller_loop(g1p(91, 35), dq(20, 23)) is Some,
        spairing_at(g1p(91, 35), dq(20, 23)) == GT(gt_of(68, 21)),
{
    lemma_final_exponent();
    lemma_tangent_7_3();
    lemma_tangent_14_3();
    lemma_tangent_11_3();
    lemma_tangent_5_3();
    lemma_vertical_at(91, 66, 35, 20, 23);
    lemma_miller_at(
        g1p(91, 35),
        dq(20, 23),
        (g1p(26, 56), g1p(32, 59), g1p(12, 32), g1p(91, 66)),
        (49, 79),
        (86, 27),
        (57, 29),
        (29, 21),
        (-91, 20),
        ((99, 87, -39, 14), (4, 29, 61, 77), (84, 98, -9, -7), (27, 29, 19, 51)),
        ((90, 18, -2, 7), (10, 14, 22, 20), (22, 60, -12, -14)),
    );
    lemma_final_exp_7_3();
}

proof fn lemma_final_exp_8_3()
    ensures
        GT(gt_of(78, 43)).spow(600) == GT(gt_of(28, 39)),
{
    assert(GT::sone() == GT(gt_of(1, 0)));
    lemma_gt_mul_at((78, 43), (78, 43), (94, 11), (41, 48));
    assert(GT::spow_steps(GT(gt_of(1, 0)), GT(gt_of(78, 43)), 600) == GT::spow_steps(GT(gt_of(1, 0)), GT(gt_of(94, 11)), 300));
    lemma_gt_mul_at((94, 11), (94, 11), (29, 28), (86, 19));
    assert(GT::spow_steps(GT(gt_of(1, 0)), GT(gt_of(94, 11)), 300) == GT::spow_steps(GT(gt_of(1, 0)), GT(gt_of(29, 28)), 150));
    lemma_gt_mul_at((29, 28), (29, 28), (57, 32), (0, 8));
    assert(GT::spow_steps(GT(gt_of(1, 0)), GT(gt_of(29, 28)), 150) == GT::spow_steps(GT(gt_of(1, 0)), GT(gt_of(57, 32)), 75));
    lemma_gt_mul_at((1, 0), (57, 32), (57, 32), (0, 0));
    lemma_gt_mul_at((57, 32), (57, 32), (3, 99), (22, 25));
    assert(GT::spow_steps(GT(gt_of(1, 0)), GT(gt_of(57, 32)), 75) == GT::spow_steps(GT(gt_of(57, 32)), GT(gt_of(3, 99)), 37));
    lemma_gt_mul_at((57, 32), (3, 99), (33, 46), (-30, 25));
    lemma_gt_mul_at((3, 99), (3, 99), (5, 85), (-97, -92));
    assert(GT::spow_steps(GT(gt_of(57, 32)), GT(gt_of(3, 99)), 37) == GT::spow_steps(GT(gt_of(33, 46)), GT(gt_of(5, 85)), 18));
    lemma_gt_mul_at((5, 85), (5, 85), (72, 89), (-72, -64));
    assert(GT::spow_steps(GT(gt_of(33, 46)), GT(gt_of(5, 85)), 18) == GT::spow_steps(GT(gt_of(33, 46)), GT(gt_of(72, 89)), 9));
    lemma_gt_mul_at((33, 46), (72, 89), (100, 34), (-18, 21));
    lemma_gt_mul_at((72, 89), (72, 89), (91, 47), (-28, 48));
    assert(GT::spow_steps(GT(gt_of(33, 46)), GT(gt_of(72, 89)), 9) == GT::spow_steps(GT(gt_of(100, 34)), GT(gt_of(91, 47)), 4));
    lemma_gt_mul_at((91, 47), (91, 47), (12, 83), (60, 62));
    assert(GT::spow_steps(GT(gt_of(100, 34)), GT(gt_of(91, 47)), 4) == GT::spow_steps(GT(gt_of(100, 34)), GT(gt_of(12, 83)), 2));
    lemma_gt_mul_at((12, 83), (12, 83), (22, 52), (-67, -49));
    assert(GT::spow_steps(GT(gt_of(100, 34)), GT(gt_of(12, 83)), 2) == GT::spow_steps(GT(gt_of(100, 34)), GT(gt_of(22, 52)), 1));
    lemma_gt_mul_at((100, 34), (22, 52), (28, 39), (4, 41));
    lemma_gt_mul_at((22, 52), (22, 52), (2, 89), (-22, -5));
    assert(GT::spow_steps(GT(gt_of(100, 34)), GT(gt_of(22, 52)), 1) == GT::spow_steps(GT(gt_of(28, 39)), GT(gt_of(2, 89)), 0));
}

/// The pairing of `8G` with the point `3 P` of the image of `H`.
proof fn lemma_pairing_8_3()
    ensures
        smiller_loop(g1p(18, 49), dq(20, 23)) is Some,
        spairing_at(g1p(18, 49), dq(20, 23)) == GT(gt_of(28, 39)),
{
    lemma_final_exponent();
    lemma_tangent_8_3();
    lemma_tangent_16_3();
    lemma_tangent_15_3();
    lemma_tangent_13_3();
    lemma_vertical_at(18, 52, 49, 20, 23);
    lemma_miller_at(
        g1p(18, 49),
        dq(20, 23),
        (g1p(1, 99), g1p(68, 27), g1p(65, 3), g1p(18, 52)),
        (1, 5),
        (81, 63),
        (55, 45),
        (86, 78),
        (-18, 20),
        ((77, 86, -1, -1), (11, 36, 8, 63), (37, 1, -12, -5), (71, 59, 19, 16)),
        ((45, 49, 15, 48), (48, 64, 0, 38), (78, 43, -22, -15)),
    );
    lemma_final_exp_8_3();
}

proof fn lemma_final_exp_9_3()
    ensures
        GT(gt_of(36, 77)).spow(600) == GT(gt_of(90, 62)),
{
    assert(GT::sone() == GT(gt_of(1, 0)));
    lemma_gt_mul_at((36, 77), (36, 77), (13, 19), (-46, -4));
    assert(GT::spow_steps(GT(gt_of(1, 0)), GT(gt_of(36, 77)), 600) == GT::spow_steps(GT(gt_of(1, 0)), GT(gt_of(13, 19)), 300));
    lemma_gt_mul_at((13, 19), (13, 19), (10, 32), (-2, 1));
    assert(GT::spow_steps(GT(gt_of(1, 0)), GT(gt_of(13, 19)), 300) == GT::spow_steps(GT(gt_of(1, 0)), GT(gt_of(10, 32)), 150));
    lemma_gt_mul_at((10, 32), (10, 32), (86, 20), (-10, -4));
    assert(GT::spow_steps(GT(gt_of(1, 0)), GT(gt_of(10, 32)), 150) == GT::spow_steps(GT(gt_of(1, 0)), GT(gt_of(86, 20)), 75));
    lemma_gt_mul_at((1, 0), (86, 20), (86, 20), (0, 0));
    lemma_gt_mul_at((86, 20), (86, 20), (27, 10), (69, 30));
    assert(GT::spow_steps(GT(gt_of(1, 0)), GT(gt_of(86, 20)), 75) == GT::spow_steps(GT(gt_of(86, 20)), GT(gt_of(27, 10)), 37));
    lemma_gt_mul_at((86, 20), (27, 10), (1, 89), (21, 11));
    lemma_gt_mul_at((27, 10), (27, 10), (23, 36), (6, 4));
    assert(GT::spow_steps(GT(gt_of(86, 20)), GT(gt_of(27, 10)), 37) == GT::spow_steps(GT(gt_of(1, 89)), GT(gt_of(23, 36)), 18));
    lemma_gt_mul_at((23, 36), (23, 36), (41, 57), (-8, 3));
    assert(GT::spow_steps(GT(gt_of(1, 89)), GT(gt_of(23, 36)), 18) == GT::spow_steps(GT(gt_of(1, 89)), GT(gt_of(41, 57)), 9));
    lemma_gt_mul_at((1, 89), (41, 57), (18, 47), (-50, -14));
    lemma_gt_mul_at((41, 57), (41, 57), (48, 11), (-16, 14));
    assert(GT::spow_steps(GT(gt_of(1, 89)), GT(gt_of(41, 57)), 9) == GT::spow_steps(GT(gt_of(18, 47)), GT(gt_of(48, 11)), 4));
    lemma_gt_mul_at((48, 11), (48, 11), (62, 26), (21, 9));
    assert(GT::spow_steps(GT(gt_of(18, 47)), GT(gt_of(48, 11)), 4) == GT::spow_steps(GT(gt_of(18, 47)), GT(gt_of(62, 26)), 2));
    lemma_gt_mul_at((62, 26), (62, 26), (37, 23), (31, 25));
    assert(GT::spow_steps(GT(gt_of(18, 47)), GT(gt_of(62, 26)), 2) == GT::spow_steps(GT(gt_of(18, 47)), GT(gt_of(37, 23)), 1));
    lemma_gt_mul_at((18, 47), (37, 23), (90, 62), (-5, 10));
    lemma_gt_mul_at((37, 23), (37, 23), (32, 62), (8, 11));
    assert(GT::spow_steps(GT(gt_of(18, 47)), GT(gt_of(37, 23)), 1) == GT::spow_steps(GT(gt_of(90, 62)), GT(gt_of(32, 62)), 0));
}

/// The pairing of `9G` with the point `3 P` of the image of `H`.
proof fn lemma_pairing_9_3()
    ensures
        smiller_loop(g1p(18, 52), dq(20, 23)) is Some,
        spairing_at(g1p(18, 52), dq(20, 23)) == GT(gt_of(90, 62)),
{
    lemma_final_exponent();
    lemma_tangent_9_3();
    lemma_tangent_1_3();
    lemma_tangent_2_3();
    lemma_tangent_4_3();
    lemma_vertical_at(18, 49, 52, 20, 23);
    lemma_miller_at(
        g1p(18, 52),
        dq(20, 23),
        (g1p(1, 2), g1p(68, 74), g1p(65, 98), g1p(18, 49)),
        (61, 30),
        (10, 100),
        (60, 89),
        (76, 87),
        (-18, 20),
        ((94, 33, 27, 27), (64, 67, -24, 63), (11, 47, -4, 40), (12, 20, -35, -4)),
        ((47, 80, -3, 0), (46, 78, -34, 31), (36, 77, -24, -21)),
    );
    lemma_final_exp_9_3();
}

proof fn lemma_final_exp_10_3()
    ensures
        GT(gt_of(26, 91)).spow(600) == GT(gt_of(47, 80)),
{
    assert(GT::sone() == GT(gt_of(1, 0)));
    lemma_gt_mul_at((26, 91), (26, 91), (71, 87), (-76, -36));
    assert(GT::spow_steps(GT(gt_of(1, 0)), GT(gt_of(26, 91)), 600) == GT::spow_steps(GT(gt_of(1, 0)), GT(gt_of(71, 87)), 300));
    lemma_gt_mul_at((71, 87), (71, 87), (98, 38), (-26, 47));
    assert(GT::spow_steps(GT(gt_of(1, 0)), GT(gt_of(71, 87)), 300) == GT::spow_steps(GT(gt_of(1, 0)), GT(gt_of(98, 38)), 150));
    lemma_gt_mul_at((98, 38), (98, 38), (80, 45), (80, 59));
    assert(GT::spow_steps(GT(gt_of(1, 0)), GT(gt_of(98, 38)), 150) == GT::spow_steps(GT(gt_of(1, 0)), GT(gt_of(80, 45)), 75));
    lemma_gt_mul_at((1, 0), (80, 45), (80, 45), (0, 0));
    lemma_gt_mul_at((80, 45), (80, 45), (32, 24), (43, 51));
    assert(GT::spow_steps(GT(gt_of(1, 0)), GT(gt_of(80, 45)), 75) == GT::spow_steps(GT(gt_of(80, 45)), GT(gt_of(32, 24)), 37));
    lemma_gt_mul_at((80, 45), (32, 24), (66, 58), (14, 22));
    lemma_gt_mul_at((32, 24), (32, 24), (44, 51), (4, 9));
    assert(GT::spow_steps(GT(gt_of(80, 45)), GT(gt_of(32, 24)), 37) == GT::spow_steps(GT(gt_of(66, 58)), GT(gt_of(44, 51)), 18));
    lemma_gt_mul_at((44, 51), (44, 51), (42, 69), (-7, 18));
    assert(GT::spow_steps(GT(gt_of(66, 58)), GT(gt_of(44, 51)), 18) == GT::spow_steps(GT(gt_of(66, 58)), GT(gt_of(42, 69)), 9));
    lemma_gt_mul_at((66, 58), (42, 69), (83, 59), (-13, 29));
    lemma_gt_mul_at((42, 69), (42, 69), (33, 25), (-30, 10));
    assert(GT::spow_steps(GT(gt_of(66, 58)), GT(gt_of(42, 69)), 9) == GT::spow_steps(GT(gt_of(83, 59)), GT(gt_of(33, 25)), 4));
    lemma_gt_mul_at((33, 25), (33, 25), (60, 15), (4, 10));
    assert(GT::spow_steps(GT(gt_of(83, 59)), GT(gt_of(33, 25)), 4) == GT::spow_steps(GT(gt_of(83, 59)), GT(gt_of(60, 15)), 2));
    lemma_gt_mul_at((60, 15), (60, 15), (42, 60), (33, 15));
    assert(GT::spow_steps(GT(gt_of(83, 59)), GT(gt_of(60, 15)), 2) == GT::spow_steps(GT(gt_of(83, 59)), GT(gt_of(42, 60)), 1));
    lemma_gt_mul_at((83, 59), (42, 60), (47, 80), (-1, 38));
    lemma_gt_mul_at((42, 60), (42, 60), (83, 26), (-19, 14));
    assert(GT::spow_steps(GT(gt_of(83, 59)), GT(gt_of(42, 60)), 1) == GT::spow_steps(GT(gt_of(47, 80)), GT(gt_of(83, 26)), 0));
}

/// The pairing of `10G` with the point `3 P` of the image of `H`.
proof fn lemma_pairing_10_3()
    ensures
        smiller_loop(g1p(91, 66), dq(20, 23)) is Some,
        spairing_at(g1p(91, 66), dq(20, 23)) == GT(gt_of(47, 80)),
{
    lemma_final_exponent();
    lemma_tangent_10_3();
    lemma_tangent_3_3();
    lemma_tangent_6_3();
    lemma_tangent_12_3();
    lemma_vertical_at(91, 35, 66, 20, 23);
    lemma_miller_at(
        g1p(91, 66),
        dq(20, 23),
        (g1p(26, 45), g1p(32, 42), g1p(12, 69), g1p(91, 35)),
        (77, 68),
        (80, 99),
        (38, 43),
        (57, 50),
        (-91, 20),
        ((93, 91, 12, 57), (47, 4, -16, 74), (72, 57, 21, 3), (83, 84, 2, 27)),
        ((35, 20, -2, 68), (86, 72, 9, 18), (26, 91, -92, -63)),
    );
    lemma_final_exp_10_3();
}

proof fn lemma_final_exp_11_3()
    ensures
        GT(gt_of(90, 60)).spow(600) == GT(gt_of(67, 72)),
{
    assert(GT::sone() == GT(gt_of(1, 0)));
    lemma_gt_mul_at((90, 60), (90, 60), (56, 29), (44, 71));
    assert(GT::spow_steps(GT(gt_of(1, 0)), GT(gt_of(90, 60)), 600) == GT::spow_steps(GT(gt_of(1, 0)), GT(gt_of(56, 29)), 300));
    lemma_gt_mul_at((56, 29), (56, 29), (73, 84), (22, 23));
    assert(GT::spow_steps(GT(gt_of(1, 0)), GT(gt_of(56, 29)), 300) == GT::spow_steps(GT(gt_of(1, 0)), GT(gt_of(73, 84)), 150));
    lemma_gt_mul_at((73, 84), (73, 84), (91, 57), (-18, 51));
    assert(GT::spow_steps(GT(gt_of(1, 0)), GT(gt_of(73, 84)), 150) == GT::spow_steps(GT(gt_of(1, 0)), GT(gt_of(91, 57)), 75));
    lemma_gt_mul_at((1, 0), (91, 57), (91, 57), (0, 0));
    lemma_gt_mul_at((91, 57), (91, 57), (83, 55), (49, 70));
    assert(GT::spow_steps(GT(gt_of(1, 0)), GT(gt_of(91, 57)), 75) == GT::spow_steps(GT(gt_of(91, 57)), GT(gt_of(83, 55)), 37));
    lemma_gt_mul_at((91, 57), (83, 55), (75, 36), (43, 65));
    lemma_gt_mul_at((83, 55), (83, 55), (26, 45), (38, 60));
    assert(GT::spow_steps(GT(gt_of(91, 57)), GT(gt_of(83, 55)), 37) == GT::spow_steps(GT(gt_of(75, 36)), GT(gt_of(26, 45)), 18));
    lemma_gt_mul_at((26, 45), (26, 45), (65, 12), (-14, 3));
    assert(GT::spow_steps(GT(gt_of(75, 36)), GT(gt_of(26, 45)), 18) == GT::spow_steps(GT(gt_of(75, 36)), GT(gt_of(65, 12)), 9));
    lemma_gt_mul_at((75, 36), (65, 12), (100, 81), (43, 27));
    lemma_gt_mul_at((65, 12), (65, 12), (41, 2), (40, 14));
    assert(GT::spow_steps(GT(gt_of(75, 36)), GT(gt_of(65, 12)), 9) == GT::spow_steps(GT(gt_of(100, 81)), GT(gt_of(41, 2)), 4));
    lemma_gt_mul_at((41, 2), (41, 2), (61, 59), (16, 1));
    assert(GT::spow_steps(GT(gt_of(100, 81)), GT(gt_of(41, 2)), 4) == GT::spow_steps(GT(gt_of(100, 81)), GT(gt_of(61, 59)), 2));
    lemma_gt_mul_at((61, 59), (61, 59), (38, 81), (2, 36));
    assert(GT::spow_steps(GT(gt_of(100, 81)), GT(gt_of(61, 59)), 2) == GT::spow_steps(GT(gt_of(100, 81)), GT(gt_of(38, 81)), 1));
    lemma_gt_mul_at((100, 81), (38, 81), (67, 72), (-28, 45));
    lemma_gt_mul_at((38, 81), (38, 81), (34, 100), (-51, -5));
    assert(GT::spow_steps(GT(gt_of(100, 81)), GT(gt_of(38, 81)), 1) == GT::spow_steps(GT(gt_of(67, 72)), GT(gt_of(34, 100)), 0));
}

/// The pairing of `11G` with the point `3 P` of the image of `H`.
proof fn lemma_pairing_11_3()
    ensures
        smiller_loop(g1p(32, 59), dq(20, 23)) is Some,
        spairing_at(g1p(32, 59), dq(20, 23)) == GT(gt_of(67, 72)),
{
    lemma_final_exponent();
    lemma_tangent_11_3();
    lemma_tangent_5_3();
    lemma_tangent_10_3();
    lemma_tangent_3_3();
    lemma_vertical_at(32, 42, 59, 20, 23);
    lemma_miller_at(
        g1p(32, 59),
        dq(20, 23),
        (g1p(12, 32), g1p(91, 66), g1p(26, 45), g1p(32, 42)),
        (57, 29),
        (29, 21),
        (77, 68),
        (80, 99),
        (-32, 20),
        ((85, 41, 23, 24), (89, 93, 15, 20), (80, 27, -8, 78), (82, 27, 42, 56)),
        ((36, 63, 59, 36), (77, 44, -34, 23), (90, 60, -34, -8)),
    );
    lemma_final_exp_11_3();
}

proof fn lemma_final_exp_12_3()
    ensures
        GT(gt_of(60, 88)).spow(600) == GT(gt_of(93, 81)),
{
    assert(GT::sone() == GT(gt_of(1, 0)));
    lemma_gt_mul_at((60, 88), (60, 88), (98, 89), (-42, 27));
    assert(GT::spow_steps(GT(gt_of(1, 0)), GT(gt_of(60, 88)), 600) == GT::spow_steps(GT(gt_of(1, 0)), GT(gt_of(98, 89)), 300));
    lemma_gt_mul_at((98, 89), (98, 89), (67, 29), (16, 94));
    assert(GT::spow_steps(GT(gt_of(1, 0)), GT(gt_of(98, 89)), 300) == GT::spow_steps(GT(gt_of(1, 0)), GT(gt_of(67, 29)), 150));
    lemma_gt_mul_at((67, 29), (67, 29), (12, 15), (36, 30));
    assert(GT::spow_steps(GT(gt_of(1, 0)), GT(gt_of(67, 29)), 150) == GT::spow_steps(GT(gt_of(1, 0)), GT(gt_of(12, 15)), 75));
    lemma_gt_mul_at((1, 0), (12, 15), (12, 15), (0, 0));
    lemma_gt_mul_at((12, 15), (12, 15), (20, 34), (-1, 1));
    assert(GT::spow_steps(GT(gt_of(1, 0)), GT(gt_of(12, 15)), 75) == GT::spow_steps(GT(gt_of(12, 15)), GT(gt_of(20, 34)), 37));
    lemma_gt_mul_at((12, 15), (20, 34), (33, 97), (-3, 1));
    lemma_gt_mul_at((20, 34), (20, 34), (52, 2), (-8, 2));
    assert(GT::spow_steps(GT(gt_of(12, 15)), GT(gt_of(20, 34)), 37) == GT::spow_steps(GT(gt_of(33, 97)), GT(gt_of(52, 2)), 18));
    lemma_gt_mul_at((52, 2), (52, 2), (74, 2), (26, 2));
    assert(GT::spow_steps(GT(gt_of(33, 97)), GT(gt_of(52, 2)), 18) == GT::spow_steps(GT(gt_of(33, 97)), GT(gt_of(74, 2)), 9));
    lemma_gt_mul_at((33, 97), (74, 2), (26, 81), (22, 69));
    lemma_gt_mul_at((74, 2), (74, 2), (18, 90), (54, 2));
    assert(GT::spow_steps(GT(gt_of(33, 97)), GT(gt_of(74, 2)), 9) == GT::spow_steps(GT(gt_of(26, 81)), GT(gt_of(18, 90)), 4));
    lemma_gt_mul_at((18, 90), (18, 90), (1, 89), (-77, -49));
    assert(GT::spow_steps(GT(gt_of(26, 81)), GT(gt_of(18, 90)), 4) == GT::spow_steps(GT(gt_of(26, 81)), GT(gt_of(1, 89)), 2));
    lemma_gt_mul_at((1, 89), (1, 89), (59, 34), (-79, -77));
    assert(GT::spow_steps(GT(gt_of(26, 81)), GT(gt_of(1, 89)), 2) == GT::spow_steps(GT(gt_of(26, 81)), GT(gt_of(59, 34)), 1));
    lemma_gt_mul_at((26, 81), (59, 34), (93, 81), (-13, 28));
    lemma_gt_mul_at((59, 34), (59, 34), (2, 28), (23, 28));
    assert(GT::spow_steps(GT(gt_of(26, 81)), GT(gt_of(59, 34)), 1) == GT::spow_steps(GT(gt_of(93, 81)), GT(gt_of(2, 28)), 0));
}

/// The pairing of `12G` with the point `3 P` of the image of `H`.
proof fn lemma_pairing_12_3()
    ensures
        smiller_loop(g1p(12, 69), dq(20, 23)) is Some,
        spairing_at(g1p(12, 69), dq(20, 23)) == GT(gt_of(93, 81)),
{
    lemma_final_exponent();
    lemma_tangent_12_3();
    lemma_tangent_7_3();
    lemma_tangent_14_3();
    lemma_tangent_11_3();
    lemma_vertical_at(12, 32, 69, 20, 23);
    lemma_miller_at(
        g1p(12, 69),
        dq(20, 23),
        (g1p(91, 35), g1p(26, 56), g1p(32, 59), g1p(12, 32)),
        (57, 50),
        (49, 79),
        (86, 27),
        (57, 29),
        (-12, 20),
        ((42, 69, 7, 31), (41, 36, -34, 12), (82, 40, 3, 16), (13, 29, 59, 45)),
        ((35, 14, -7, -1), (74, 94, 15, 13), (60, 88, -28, -16)),
    );
    lemma_final_exp_12_3();
}

proof fn lemma_final_exp_13_3()
    ensures
        GT(gt_of(51, 46)).spow(600) == GT(gt_of(61, 46)),
{
    assert(GT::sone() == GT(gt_of(1, 0)));
    lemma_gt_mul_at((51, 46), (51, 46), (81, 51), (4, 25));
    assert(GT::spow_steps(GT(gt_of(1, 0)), GT(gt_of(51, 46)), 600) == GT::spow_steps(GT(gt_of(1, 0)), GT(gt_of(81, 51)), 300));
    lemma_gt_mul_at((81, 51), (81, 51), (21, 5), (39, 56));
    assert(GT::spow_steps(GT(gt_of(1, 0)), GT(gt_of(81, 51)), 300) == GT::spow_steps(GT(gt_of(1, 0)), GT(gt_of(21, 5)), 150));
    lemma_gt_mul_at((21, 5), (21, 5), (12, 84), (4, 1));
    assert(GT::spow_steps(GT(gt_of(1, 0)), GT(gt_of(21, 5)), 150) == GT::spow_steps(GT(gt_of(1, 0)), GT(gt_of(12, 84)), 75));
    lemma_gt_mul_at((1, 0), (12, 84), (12, 84), (0, 0));
    lemma_gt_mul_at((12, 84), (12, 84), (57, 10), (-69, -50));
    assert(GT::spow_steps(GT(gt_of(1, 0)), GT(gt_of(12, 84)), 75) == GT::spow_steps(GT(gt_of(12, 84)), GT(gt_of(57, 10)), 37));
    lemma_gt_mul_at((12, 84), (57, 10), (46, 28), (-2, 40));
    lemma_gt_mul_at((57, 10), (57, 10), (18, 30), (31, 10));
    assert(GT::spow_steps(GT(gt_of(12, 84)), GT(gt_of(57, 10)), 37) == GT::spow_steps(GT(gt_of(46, 28)), GT(gt_of(18, 30)), 18));
    lemma_gt_mul_at((18, 30), (18, 30), (30, 79), (-6, 1));
    assert(GT::spow_steps(GT(gt_of(46, 28)), GT(gt_of(18, 30)), 18) == GT::spow_steps(GT(gt_of(46, 28)), GT(gt_of(30, 79)), 9));
    lemma_gt_mul_at((46, 28), (30, 79), (77, 40), (-9, 22));
    lemma_gt_mul_at((30, 79), (30, 79), (12, 14), (-53, -15));
    assert(GT::spow_steps(GT(gt_of(46, 28)), GT(gt_of(30, 79)), 9) == GT::spow_steps(GT(gt_of(77, 40)), GT(gt_of(12, 14)), 4));
    lemma_gt_mul_at((12, 14), (12, 14), (49, 39), (-1, 1));
    assert(GT::spow_steps(GT(gt_of(77, 40)), GT(gt_of(12, 14)), 4) == GT::spow_steps(GT(gt_of(77, 40)), GT(gt_of(49, 39)), 2));
    lemma_gt_mul_at((49, 39), (49, 39), (72, 79), (8, 22));
    assert(GT::spow_steps(GT(gt_of(77, 40)), GT(gt_of(49, 39)), 2) == GT::spow_steps(GT(gt_of(77, 40)), GT(gt_of(72, 79)), 1));
    lemma_gt_mul_at((77, 40), (72, 79), (61, 46), (23, 57));
    lemma_gt_mul_at((72, 79), (72, 79), (54, 85), (-11, 50));
    assert(GT::spow_steps(GT(gt_of(77, 40)), GT(gt_of(72, 79)), 1) == GT::spow_steps(GT(gt_of(61, 46)), GT(gt_of(54, 85)), 0));
}

/// The pairing of `13G` with the point `3 P` of the image of `H`.
proof fn lemma_pairing_13_3()
    ensures
        smiller_loop(g1p(65, 3), dq(20, 23)) is Some,
        spairing_at(g1p(65, 3), dq(20, 23)) == GT(gt_of(61, 46)),
{
    lemma_final_exponent();
    lemma_tangent_13_3();
    lemma_tangent_9_3();
    lemma_tangent_1_3();
    lemma_tangent_2_3();
    lemma_vertical_at(65, 98, 3, 20, 23);
    lemma_miller_at(
        g1p(65, 3),
        dq(20, 23),
        (g1p(18, 52), g1p(1, 2), g1p(68, 74), g1p(65, 98)),
        (86, 78),
        (61, 30),
        (10, 100),
        (60, 89),
        (-65, 20),
        ((100, 60, 12, 72), (58, 12, 42, 48), (89, 36, 31, 12), (17, 4, -27, 56)),
        ((71, 19, 2, 1), (44, 11, 25, 57), (51, 46, -31, -1)),
    );
    lemma_final_exp_13_3();
}

proof fn lemma_final_exp_14_3()
    ensures
        GT(gt_of(34, 46)).spow(600) == GT(gt_of(42, 92)),
{
    assert(GT::sone() == GT(gt_of(1, 0)));
    lemma_gt_mul_at((34, 46), (34, 46), (50, 2), (-10, 10));
    assert(GT::spow_steps(GT(gt_of(1, 0)), GT(gt_of(34, 46)), 600) == GT::spow_steps(GT(gt_of(1, 0)), GT(gt_of(50, 2)), 300));
    lemma_gt_mul_at((50, 2), (50, 2), (72, 95), (24, 1));
    assert(GT::spow_steps(GT(gt_of(1, 0)), GT(gt_of(50, 2)), 300) == GT::spow_steps(GT(gt_of(1, 0)), GT(gt_of(72, 95)), 150));
    lemma_gt_mul_at((72, 95), (72, 95), (98, 9), (-39, 46));
    assert(GT::spow_steps(GT(gt_of(1, 0)), GT(gt_of(72, 95)), 150) == GT::spow_steps(GT(gt_of(1, 0)), GT(gt_of(98, 9)), 75));
    lemma_gt_mul_at((1, 0), (98, 9), (98, 9), (0, 0));
    lemma_gt_mul_at((98, 9), (98, 9), (29, 67), (94, 16));
    assert(GT::spow_steps(GT(gt_of(1, 0)), GT(gt_of(98, 9)), 75) == GT::spow_steps(GT(gt_of(98, 9)), GT(gt_of(29, 67)), 37));
    lemma_gt_mul_at((98, 9), (29, 67), (17, 63), (22, 61));
    lemma_gt_mul_at((29, 67), (29, 67), (89, 3), (-37, -6));
    assert(GT::spow_steps(GT(gt_of(98, 9)), GT(gt_of(29, 67)), 37) == GT::spow_steps(GT(gt_of(17, 63)), GT(gt_of(89, 3)), 18));
    lemma_gt_mul_at((89, 3), (89, 3), (34, 20), (78, 5));
    assert(GT::spow_steps(GT(gt_of(17, 63)), GT(gt_of(89, 3)), 18) == GT::spow_steps(GT(gt_of(17, 63)), GT(gt_of(34, 20)), 9));
    lemma_gt_mul_at((17, 63), (34, 20), (25, 10), (-7, 12));
    lemma_gt_mul_at((34, 20), (34, 20), (49, 51), (7, 9));
    assert(GT::spow_steps(GT(gt_of(17, 63)), GT(gt_of(34, 20)), 9) == GT::spow_steps(GT(gt_of(25, 10)), GT(gt_of(49, 51)), 4));
    lemma_gt_mul_at((49, 51), (49, 51), (2, 74), (-2, 23));
    assert(GT::spow_steps(GT(gt_of(25, 10)), GT(gt_of(49, 51)), 4) == GT::spow_steps(GT(gt_of(25, 10)), GT(gt_of(2, 74)), 2));
    lemma_gt_mul_at((2, 74), (2, 74), (83, 72), (-55, -52));
    assert(GT::spow_steps(GT(gt_of(25, 10)), GT(gt_of(2, 74)), 2) == GT::spow_steps(GT(gt_of(25, 10)), GT(gt_of(83, 72)), 1));
    lemma_gt_mul_at((25, 10), (83, 72), (42, 92), (13, 18));
    lemma_gt_mul_at((83, 72), (83, 72), (89, 1), (16, 67));
    assert(GT::spow_steps(GT(gt_of(25, 10)), GT(gt_of(83, 72)), 1) == GT::spow_steps(GT(gt_of(42, 92)), GT(gt_of(89, 1)), 0));
}

/// The pairing of `14G` with the point `3 P` of the image of `H`.
proof fn lemma_pairing_14_3()
    ensures
        smiller_loop(g1p(26, 56), dq(20, 23)) is Some,
        spairing_at(g1p(26, 56), dq(20, 23)) == GT(gt_of(42, 92)),
{
    lemma_final_exponent();
    lemma_tangent_14_3();
    lemma_tangent_11_3();
    lemma_tangent_5_3();
    lemma_tangent_10_3();
    lemma_vertical_at(26, 45, 56, 20, 23);
    lemma_miller_at(
        g1p(26, 56),
        dq(20, 23),
        (g1p(32, 59), g1p(12, 32), g1p(91, 66), g1p(26, 45)),
        (86, 27),
        (57, 29),
        (29, 21),
        (77, 68),
        (-26, 20),
        ((1, 77, 66, 38), (46, 64, -22, 21), (40, 75, -20, 17), (90, 26, -5, 14)),
        ((51, 65, 73, 39), (12, 13, -5, 40), (34, 46, -6, -4)),
    );
    lemma_final_exp_14_3();
}

proof fn lemma_final_exp_15_3()
    ensures
        GT(gt_of(45, 51)).spow(600) == GT(gt_of(75, 98)),
{
    assert(GT::sone() == GT(gt_of(1, 0)));
    lemma_gt_mul_at((45, 51), (45, 51), (30, 70), (-6, 19));
    assert(GT::spow_steps(GT(gt_of(1, 0)), GT(gt_of(45, 51)), 600) == GT::spow_steps(GT(gt_of(1, 0)), GT(gt_of(30, 70)), 300));
    lemma_gt_mul_at((30, 70), (30, 70), (40, 7), (-40, -7));
    assert(GT::spow_steps(GT(gt_of(1, 0)), GT(gt_of(30, 70)), 300) == GT::spow_steps(GT(gt_of(1, 0)), GT(gt_of(40, 7)), 150));
    lemma_gt_mul_at((40, 7), (40, 7), (36, 6), (15, 5));
    assert(GT::spow_steps(GT(gt_of(1, 0)), GT(gt_of(40, 7)), 150) == GT::spow_steps(GT(gt_of(1, 0)), GT(gt_of(36, 6)), 75));
    lemma_gt_mul_at((1, 0), (36, 6), (36, 6), (0, 0));
    lemma_gt_mul_at((36, 6), (36, 6), (48, 93), (12, 3));
    assert(GT::spow_steps(GT(gt_of(1, 0)), GT(gt_of(36, 6)), 75) == GT::spow_steps(GT(gt_of(36, 6)), GT(gt_of(48, 93)), 37));
    lemma_gt_mul_at((36, 6), (48, 93), (59, 48), (11, 30));
    lemma_gt_mul_at((48, 93), (48, 93), (18, 77), (-63, 2));
    assert(GT::spow_steps(GT(gt_of(36, 6)), GT(gt_of(48, 93)), 37) == GT::spow_steps(GT(gt_of(59, 48)), GT(gt_of(18, 77)), 18));
    lemma_gt_mul_at((18, 77), (18, 77), (51, 75), (-56, -32));
    assert(GT::spow_steps(GT(gt_of(59, 48)), GT(gt_of(18, 77)), 18) == GT::spow_steps(GT(gt_of(59, 48)), GT(gt_of(51, 75)), 9));
    lemma_gt_mul_at((59, 48), (51, 75), (15, 41), (-6, 32));
    lemma_gt_mul_at((51, 75), (51, 75), (6, 5), (-30, 20));
    assert(GT::spow_steps(GT(gt_of(59, 48)), GT(gt_of(51, 75)), 9) == GT::spow_steps(GT(gt_of(15, 41)), GT(gt_of(6, 5)), 4));
    lemma_gt_mul_at((6, 5), (6, 5), (11, 35), (0, 0));
    assert(GT::spow_steps(GT(gt_of(15, 41)), GT(gt_of(6, 5)), 4) == GT::spow_steps(GT(gt_of(15, 41)), GT(gt_of(11, 35)), 2));
    lemma_gt_mul_at((11, 35), (11, 35), (7, 50), (-11, -5));
    assert(GT::spow_steps(GT(gt_of(15, 41)), GT(gt_of(11, 35)), 2) == GT::spow_steps(GT(gt_of(15, 41)), GT(gt_of(7, 50)), 1));
    lemma_gt_mul_at((15, 41), (7, 50), (75, 98), (-20, -11));
    lemma_gt_mul_at((7, 50), (7, 50), (74, 18), (-25, -18));
    assert(GT::spow_steps(GT(gt_of(15, 41)), GT(gt_of(7, 50)), 1) == GT::spow_steps(GT(gt_of(75, 98)), GT(gt_of(74, 18)), 0));
}

/// The pairing of `15G` with the point `3 P` of the image of `H`.
proof fn lemma_pairing_15_3()
    ensures
        smiller_loop(g1p(68, 27), dq(20, 23)) is Some,
        spairing_at(g1p(68, 27), dq(20, 23)) == GT(gt_of(75, 98)),
{
    lemma_final_exponent();
    lemma_tangent_15_3();
    lemma_tangent_13_3();
    lemma_tangent_9_3();
    lemma_tangent_1_3();
    lemma_vertical_at(68, 74, 27, 20, 23);
    lemma_miller_at(
        g1p(68, 27),
        dq(20, 23),
        (g1p(65, 3), g1p(18, 52), g1p(1, 2), g1p(68, 74)),
        (55, 45),
        (86, 78),
        (61, 30),
        (10, 100),
        (-68, 20),
        ((91, 97, 9, 28), (58, 97, 2, 77), (15, 25, -60, 18), (64, 13, 1, 12)),
        ((89, 81, 38, 14), (62, 95, -72, 15), (45, 51, -61, -71)),
    );
    lemma_final_exp_15_3();
}

proof fn lemma_final_exp_16_3()
    ensures
        GT(gt_of(82, 1)).spow(600) == GT(gt_of(71, 57)),
{
    assert(GT::sone() == GT(gt_of(1, 0)));
    lemma_gt_mul_at((82, 1), (82, 1), (57, 62), (66, 1));
    assert(GT::spow_steps(GT(gt_of(1, 0)), GT(gt_of(82, 1)), 600) == GT::spow_steps(GT(gt_of(1, 0)), GT(gt_of(57, 62)), 300));
    lemma_gt_mul_at((57, 62), (57, 62), (11, 93), (-6, 31));
    assert(GT::spow_steps(GT(gt_of(1, 0)), GT(gt_of(57, 62)), 300) == GT::spow_steps(GT(gt_of(1, 0)), GT(gt_of(11, 93)), 150));
    lemma_gt_mul_at((11, 93), (11, 93), (57, 63), (-85, -66));
    assert(GT::spow_steps(GT(gt_of(1, 0)), GT(gt_of(11, 93)), 150) == GT::spow_steps(GT(gt_of(1, 0)), GT(gt_of(57, 63)), 75));
    lemma_gt_mul_at((1, 0), (57, 63), (57, 63), (0, 0));
    lemma_gt_mul_at((57, 63), (57, 63), (88, 82), (-8, 31));
    assert(GT::spow_steps(GT(gt_of(1, 0)), GT(gt_of(57, 63)), 75) == GT::spow_steps(GT(gt_of(57, 63)), GT(gt_of(88, 82)), 37));
    lemma_gt_mul_at((57, 63), (88, 82), (52, 2), (-2, 50));
    lemma_gt_mul_at((88, 82), (88, 82), (10, 32), (10, 76));
    assert(GT::spow_steps(GT(gt_of(57, 63)), GT(gt_of(88, 82)), 37) == GT::spow_steps(GT(gt_of(52, 2)), GT(gt_of(10, 32)), 18));
    lemma_gt_mul_at((10, 32), (10, 32), (86, 20), (-10, -4));
    assert(GT::spow_steps(GT(gt_of(52, 2)), GT(gt_of(10, 32)), 18) == GT::spow_steps(GT(gt_of(52, 2)), GT(gt_of(86, 20)), 9));
    lemma_gt_mul_at((52, 2), (86, 20), (89, 61), (43, 11));
    lemma_gt_mul_at((86, 20), (86, 20), (27, 10), (69, 30));
    assert(GT::spow_steps(GT(gt_of(52, 2)), GT(gt_of(86, 20)), 9) == GT::spow_steps(GT(gt_of(89, 61)), GT(gt_of(27, 10)), 4));
    lemma_gt_mul_at((27, 10), (27, 10), (23, 36), (6, 4));
    assert(GT::spow_steps(GT(gt_of(89, 61)), GT(gt_of(27, 10)), 4) == GT::spow_steps(GT(gt_of(89, 61)), GT(gt_of(23, 36)), 2));
    lemma_gt_mul_at((23, 36), (23, 36), (41, 57), (-8, 3));
    assert(GT::spow_steps(GT(gt_of(89, 61)), GT(gt_of(23, 36)), 2) == GT::spow_steps(GT(gt_of(89, 61)), GT(gt_of(41, 57)), 1));
    lemma_gt_mul_at((89, 61), (41, 57), (71, 57), (1, 40));
    lemma_gt_mul_at((41, 57), (41, 57), (48, 11), (-16, 14));
    assert(GT::spow_steps(GT(gt_of(89, 61)), GT(gt_of(41, 57)), 1) == GT::spow_steps(GT(gt_of(71, 57)), GT(gt_of(48, 11)), 0));
}

/// The pairing of `16G` with the point `3 P` of the image of `H`.
proof fn lemma_pairing_16_3()
    ensures
        smiller_loop(g1p(1, 99), dq(20, 23)) is Some,
        spairing_at(g1p(1, 99), dq(20, 23)) == GT(gt_of(71, 57)),
{
    lemma_final_exponent();
    lemma_tangent_16_3();
    lemma_tangent_15_3();
    lemma_tangent_13_3();
    lemma_tangent_9_3();
    lemma_vertical_at(1, 2, 99, 20, 23);
    lemma_miller_at(
        g1p(1, 99),
        dq(20, 23),
        (g1p(68, 27), g1p(65, 3), g1p(18, 52), g1p(1, 2)),
        (81, 63),
        (55, 45),
        (86, 78),
        (61, 30),
        (-1, 20),
        ((67, 76, 25, 61), (63, 38, 2, 37), (0, 11, 25, 33), (51, 88, -9, 0)),
        ((8, 20, -51, 12), (90, 52, -2, 8), (82, 1, -12, 7)),
    );
    lemma_final_exp_16_3();
}

proof fn lemma_final_exp_1_4()
    ensures
        GT(gt_of(6, 24)).spow(600) == GT(gt_of(68, 21)),
{
    assert(GT::sone() == GT(gt_of(1, 0)));
    lemma_gt_mul_at((6, 24), (6, 24), (66, 15), (-6, -3));
    assert(GT::spow_steps(GT(gt_of(1, 0)), GT(gt_of(6, 24)), 600) == GT::spow_steps(GT(gt_of(1, 0)), GT(gt_of(66, 15)), 300));
    lemma_gt_mul_at((66, 15), (66, 15), (91, 38), (40, 17));
    assert(GT::spow_steps(GT(gt_of(1, 0)), GT(gt_of(66, 15)), 300) == GT::spow_steps(GT(gt_of(1, 0)), GT(gt_of(91, 38)), 150));
    lemma_gt_mul_at((91, 38), (91, 38), (70, 18), (67, 54));
    assert(GT::spow_steps(GT(gt_of(1, 0)), GT(gt_of(91, 38)), 150) == GT::spow_steps(GT(gt_of(1, 0)), GT(gt_of(70, 18)), 75));
    lemma_gt_mul_at((1, 0), (70, 18), (70, 18), (0, 0));
    lemma_gt_mul_at((70, 18), (70, 18), (31, 75), (45, 21));
    assert(GT::spow_steps(GT(gt_of(1, 0)), GT(gt_of(70, 18)), 75) == GT::spow_steps(GT(gt_of(70, 18)), GT(gt_of(31, 75)), 37));
    lemma_gt_mul_at((70, 18), (31, 75), (12, 14), (8, 44));
    lemma_gt_mul_at((31, 75), (31, 75), (83, 35), (-47, -10));
    assert(GT::spow_steps(GT(gt_of(70, 18)), GT(gt_of(31, 75)), 37) == GT::spow_steps(GT(gt_of(12, 14)), GT(gt_of(83, 35)), 18));
    lemma_gt_mul_at((83, 35), (83, 35), (8, 40), (56, 45));
    assert(GT::spow_steps(GT(gt_of(12, 14)), GT(gt_of(83, 35)), 18) == GT::spow_steps(GT(gt_of(12, 14)), GT(gt_of(8, 40)), 9));
    lemma_gt_mul_at((12, 14), (8, 40), (41, 32), (-5, 0));
    lemma_gt_mul_at((8, 40), (8, 40), (80, 50), (-16, -10));
    assert(GT::spow_steps(GT(gt_of(12, 14)), GT(gt_of(8, 40)), 9) == GT::spow_steps(GT(gt_of(41, 32)), GT(gt_of(80, 50)), 4));
    lemma_gt_mul_at((80, 50), (80, 50), (62, 46), (38, 54));
    assert(GT::spow_steps(GT(gt_of(41, 32)), GT(gt_of(80, 50)), 4) == GT::spow_steps(GT(gt_of(41, 32)), GT(gt_of(62, 46)), 2));
    lemma_gt_mul_at((62, 46), (62, 46), (11, 53), (17, 35));
    assert(GT::spow_steps(GT(gt_of(41, 32)), GT(gt_of(62, 46)), 2) == GT::spow_steps(GT(gt_of(41, 32)), GT(gt_of(11, 53)), 1));
    lemma_gt_mul_at((41, 32), (11, 53), (68, 21), (-13, 8));
    lemma_gt_mul_at((11, 53), (11, 53), (39, 74), (-27, -17));
    assert(GT::spow_steps(GT(gt_of(41, 32)), GT(gt_of(11, 53)), 1) == GT::spow_steps(GT(gt_of(68, 21)), GT(gt_of(39, 74)), 0));
}

/// The pairing of `1G` with the point `4 P` of the image of `H`.
proof fn lemma_pairing_1_4()
    ensures
        smiller_loop(g1p(1, 2), dq(18, 52)) is Some,
        spairing_at(g1p(1, 2), dq(18, 52)) == GT(gt_of(68, 21)),
{
    lemma_final_exponent();
    lemma_tangent_1_4();
    lemma_tangent_2_4();
    lemma_tangent_4_4();
    lemma_tangent_8_4();
    lemma_vertical_at(1, 99, 2, 18, 52);
    lemma_miller_at(
        g1p(1, 2),
        dq(18, 52),
        (g1p(68, 74), g1p(65, 98), g1p(18, 49), g1p(1, 99)),
        (54, 5),
        (24, 87),
        (42, 0),
        (73, 28),
        (-1, 18),
        ((63, 10, 28, 5), (36, 3, 6, 48), (75, 5, 12, 2), (19, 8, 31, 2)),
        ((95, 38, 2, 2), (13, 27, 58, 43), (6, 24, -5, -3)),
    );
    lemma_final_exp_1_4();
}

proof fn lemma_final_exp_2_4()
    ensures
        GT(gt_of(24, 37)).spow(600) == GT(gt_of(42, 92)),
{
    assert(GT::sone() == GT(gt_of(1, 0)));
    lemma_gt_mul_at((24, 37), (24, 37), (15, 3), (-8, 4));
    assert(GT::spow_steps(GT(gt_of(1, 0)), GT(gt_of(24, 37)), 600) == GT::spow_steps(GT(gt_of(1, 0)), GT(gt_of(15, 3)), 300));
    lemma_gt_mul_at((15, 3), (15, 3), (14, 81), (2, 0));
    assert(GT::spow_steps(GT(gt_of(1, 0)), GT(gt_of(15, 3)), 300) == GT::spow_steps(GT(gt_of(1, 0)), GT(gt_of(14, 81)), 150));
    lemma_gt_mul_at((14, 81), (14, 81), (99, 50), (-64, -43));
    assert(GT::spow_steps(GT(gt_of(1, 0)), GT(gt_of(14, 81)), 150) == GT::spow_steps(GT(gt_of(1, 0)), GT(gt_of(99, 50)), 75));
    lemma_gt_mul_at((1, 0), (99, 50), (99, 50), (0, 0));
    lemma_gt_mul_at((99, 50), (99, 50), (29, 27), (72, 73));
    assert(GT::spow_steps(GT(gt_of(1, 0)), GT(gt_of(99, 50)), 75) == GT::spow_steps(GT(gt_of(99, 50)), GT(gt_of(29, 27)), 37));
    lemma_gt_mul_at((99, 50), (29, 27), (6, 46), (15, 27));
    lemma_gt_mul_at((29, 27), (29, 27), (11, 29), (1, 8));
    assert(GT::spow_steps(GT(gt_of(99, 50)), GT(gt_of(29, 27)), 37) == GT::spow_steps(GT(gt_of(6, 46)), GT(gt_of(11, 29)), 18));
    lemma_gt_mul_at((11, 29), (11, 29), (88, 100), (-8, -3));
    assert(GT::spow_steps(GT(gt_of(6, 46)), GT(gt_of(11, 29)), 18) == GT::spow_steps(GT(gt_of(6, 46)), GT(gt_of(88, 100)), 9));
    lemma_gt_mul_at((6, 46), (88, 100), (69, 48), (-41, 0));
    lemma_gt_mul_at((88, 100), (88, 100), (67, 25), (-23, 75));
    assert(GT::spow_steps(GT(gt_of(6, 46)), GT(gt_of(88, 100)), 9) == GT::spow_steps(GT(gt_of(69, 48)), GT(gt_of(67, 25)), 4));
    lemma_gt_mul_at((67, 25), (67, 25), (26, 99), (38, 26));
    assert(GT::spow_steps(GT(gt_of(69, 48)), GT(gt_of(67, 25)), 4) == GT::spow_steps(GT(gt_of(69, 48)), GT(gt_of(26, 99)), 2));
    lemma_gt_mul_at((26, 99), (26, 99), (66, 94), (-91, -47));
    assert(GT::spow_steps(GT(gt_of(69, 48)), GT(gt_of(26, 99)), 2) == GT::spow_steps(GT(gt_of(69, 48)), GT(gt_of(66, 94)), 1));
    lemma_gt_mul_at((69, 48), (66, 94), (42, 92), (0, 50));
    lemma_gt_mul_at((66, 94), (66, 94), (65, 37), (-45, 35));
    assert(GT::spow_steps(GT(gt_of(69, 48)), GT(gt_of(66, 94)), 1) == GT::spow_steps(GT(gt_of(42, 92)), GT(gt_of(65, 37)), 0));
}

/// The pairing of `2G` with the point `4 P` of the image of `H`.
proof fn lemma_pairing_2_4()
    ensures
        smiller_loop(g1p(68, 74), dq(18, 52)) is Some,
        spairing_at(g1p(68, 74), dq(18, 52)) == GT(gt_of(42, 92)),
{
    lemma_final_exponent();
    lemma_tangent_2_4();
    lemma_tangent_4_4();
    lemma_tangent_8_4();
    lemma_tangent_16_4();
    lemma_vertical_at(68, 27, 74, 18, 52);
    lemma_miller_at(
        g1p(68, 74),
        dq(18, 52),
        (g1p(65, 98), g1p(18, 49), g1p(1, 99), g1p(68, 27)),
        (24, 87),
        (42, 0),
        (73, 28),
        (97, 36),
        (-68, 18),
        ((77, 41, -70, -34), (2, 5, 32, 17), (80, 96, -1, -1), (21, 96, 31, 64)),
        ((12, 68, -87, -52), (29, 35, -13, 45), (24, 37, -26, -25)),
    );
    lemma_final_exp_2_4();
}

proof fn lemma_final_exp_3_4()
    ensures
        GT(gt_of(46, 30)).spow(600) == GT(gt_of(15, 55)),
{
    assert(GT::sone() == GT(gt_of(1, 0)));
    lemma_gt_mul_at((46, 30), (46, 30), (4, 42), (12, 18));
    assert(GT::spow_steps(GT(gt_of(1, 0)), GT(gt_of(46, 30)), 600) == GT::spow_steps(GT(gt_of(1, 0)), GT(gt_of(4, 42)), 300));
    lemma_gt_mul_at((4, 42), (4, 42), (70, 87), (-18, -15));
    assert(GT::spow_steps(GT(gt_of(1, 0)), GT(gt_of(4, 42)), 300) == GT::spow_steps(GT(gt_of(1, 0)), GT(gt_of(70, 87)), 150));
    lemma_gt_mul_at((70, 87), (70, 87), (58, 66), (-27, 45));
    assert(GT::spow_steps(GT(gt_of(1, 0)), GT(gt_of(70, 87)), 150) == GT::spow_steps(GT(gt_of(1, 0)), GT(gt_of(58, 66)), 75));
    lemma_gt_mul_at((1, 0), (58, 66), (58, 66), (0, 0));
    lemma_gt_mul_at((58, 66), (58, 66), (18, 68), (-10, 32));
    assert(GT::spow_steps(GT(gt_of(1, 0)), GT(gt_of(58, 66)), 75) == GT::spow_steps(GT(gt_of(58, 66)), GT(gt_of(18, 68)), 37));
    lemma_gt_mul_at((58, 66), (18, 68), (91, 38), (-35, 6));
    lemma_gt_mul_at((18, 68), (18, 68), (43, 46), (-43, -22));
    assert(GT::spow_steps(GT(gt_of(58, 66)), GT(gt_of(18, 68)), 37) == GT::spow_steps(GT(gt_of(91, 38)), GT(gt_of(43, 46)), 18));
    lemma_gt_mul_at((43, 46), (43, 46), (36, 22), (-3, 18));
    assert(GT::spow_steps(GT(gt_of(91, 38)), GT(gt_of(43, 46)), 18) == GT::spow_steps(GT(gt_of(91, 38)), GT(gt_of(36, 22)), 9));
    lemma_gt_mul_at((91, 38), (36, 22), (16, 9), (24, 25));
    lemma_gt_mul_at((36, 22), (36, 22), (4, 90), (8, 10));
    assert(GT::spow_steps(GT(gt_of(91, 38)), GT(gt_of(36, 22)), 9) == GT::spow_steps(GT(gt_of(16, 9)), GT(gt_of(4, 90)), 4));
    lemma_gt_mul_at((4, 90), (4, 90), (97, 94), (-81, -74));
    assert(GT::spow_steps(GT(gt_of(16, 9)), GT(gt_of(4, 90)), 4) == GT::spow_steps(GT(gt_of(16, 9)), GT(gt_of(97, 94)), 2));
    lemma_gt_mul_at((97, 94), (97, 94), (68, 7), (5, 93));
    assert(GT::spow_steps(GT(gt_of(16, 9)), GT(gt_of(97, 94)), 2) == GT::spow_steps(GT(gt_of(16, 9)), GT(gt_of(68, 7)), 1));
    lemma_gt_mul_at((16, 9), (68, 7), (15, 55), (10, 6));
    lemma_gt_mul_at((68, 7), (68, 7), (30, 95), (45, 8));
    assert(GT::spow_steps(GT(gt_of(16, 9)), GT(gt_of(68, 7)), 1) == GT::spow_steps(GT(gt_of(15, 55)), GT(gt_of(30, 95)), 0));
}

/// The pairing of `3G` with the point `4 P` of the image of `H`.
proof fn lemma_pairing_3_4()
    ensures
        smiller_loop(g1p(26, 45), dq(18, 52)) is Some,
        spairing_at(g1p(26, 45), dq(18, 52)) == GT(gt_of(15, 55)),
{
    lemma_final_exponent();
    lemma_tangent_3_4();
    lemma_tangent_6_4();
    lemma_tangent_12_4();
    lemma_tangent_7_4();
    lemma_vertical_at(26, 56, 45, 18, 52);
    lemma_miller_at(
        g1p(26, 45),
        dq(18, 52),
        (g1p(32, 42), g1p(12, 69), g1p(91, 35), g1p(26, 56)),
        (34, 5),
        (19, 42),
        (1, 6),
        (52, 65),
        (-26, 18),
        ((20, 12, 11, 3), (78, 59, -2, 5), (78, 67, 25, 56), (80, 32, -4, 1)),
        ((23, 56, 53, 40), (81, 60, -25, 7), (46, 30, -32, -12)),
    );
    lemma_final_exp_3_4();
}

proof fn lemma_final_exp_4_4()
    ensures
        GT(gt_of(58, 73)).spow(600) == GT(gt_of(67, 72)),
{
    assert(GT::sone() == GT(gt_of(1, 0)));
    lemma_gt_mul_at((58, 73), (58, 73), (55, 8), (-20, 31));
    assert(GT::spow_steps(GT(gt_of(1, 0)), GT(gt_of(58, 73)), 600) == GT::spow_steps(GT(gt_of(1, 0)), GT(gt_of(55, 8)), 300));
    lemma_gt_mul_at((55, 8), (55, 8), (32, 8), (29, 8));
    assert(GT::spow_steps(GT(gt_of(1, 0)), GT(gt_of(55, 8)), 300) == GT::spow_steps(GT(gt_of(1, 0)), GT(gt_of(32, 8)), 150));
    lemma_gt_mul_at((32, 8), (32, 8), (51, 44), (9, 4));
    assert(GT::spow_steps(GT(gt_of(1, 0)), GT(gt_of(32, 8)), 150) == GT::spow_steps(GT(gt_of(1, 0)), GT(gt_of(51, 44)), 75));
    lemma_gt_mul_at((1, 0), (51, 44), (51, 44), (0, 0));
    lemma_gt_mul_at((51, 44), (51, 44), (59, 27), (6, 25));
    assert(GT::spow_steps(GT(gt_of(1, 0)), GT(gt_of(51, 44)), 75) == GT::spow_steps(GT(gt_of(51, 44)), GT(gt_of(59, 27)), 37));
    lemma_gt_mul_at((51, 44), (59, 27), (3, 58), (18, 27));
    lemma_gt_mul_at((59, 27), (59, 27), (25, 33), (27, 24));
    assert(GT::spow_steps(GT(gt_of(51, 44)), GT(gt_of(59, 27)), 37) == GT::spow_steps(GT(gt_of(3, 58)), GT(gt_of(25, 33)), 18));
    lemma_gt_mul_at((25, 33), (25, 33), (41, 56), (-5, 5));
    assert(GT::spow_steps(GT(gt_of(3, 58)), GT(gt_of(25, 33)), 18) == GT::spow_steps(GT(gt_of(3, 58)), GT(gt_of(41, 56)), 9));
    lemma_gt_mul_at((3, 58), (41, 56), (6, 5), (-31, -7));
    lemma_gt_mul_at((41, 56), (41, 56), (60, 42), (-15, 14));
    assert(GT::spow_steps(GT(gt_of(3, 58)), GT(gt_of(41, 56)), 9) == GT::spow_steps(GT(gt_of(6, 5)), GT(gt_of(60, 42)), 4));
    lemma_gt_mul_at((60, 42), (60, 42), (18, 44), (18, 32));
    assert(GT::spow_steps(GT(gt_of(6, 5)), GT(gt_of(60, 42)), 4) == GT::spow_steps(GT(gt_of(6, 5)), GT(gt_of(18, 44)), 2));
    lemma_gt_mul_at((18, 44), (18, 44), (4, 52), (-16, -4));
    assert(GT::spow_steps(GT(gt_of(6, 5)), GT(gt_of(18, 44)), 2) == GT::spow_steps(GT(gt_of(6, 5)), GT(gt_of(4, 52)), 1));
    lemma_gt_mul_at((6, 5), (4, 52), (67, 72), (-3, 0));
    lemma_gt_mul_at((4, 52), (4, 52), (39, 35), (-27, -23));
    assert(GT::spow_steps(GT(gt_of(6, 5)), GT(gt_of(4, 52)), 1) == GT::spow_steps(GT(gt_of(67, 72)), GT(gt_of(39, 35)), 0));
}

/// The pairing of `4G` with the point `4 P` of the image of `H`.
proof fn lemma_pairing_4_4()
    ensures
        smiller_loop(g1p(65, 98), dq(18, 52)) is Some,
        spairing_at(g1p(65, 98), dq(18, 52)) == GT(gt_of(67, 72)),
{
    lemma_final_exponent();
    lemma_tangent_4_4();
    lemma_tangent_8_4();
    lemma_tangent_16_4();
    lemma_tangent_15_4();
    lemma_vertical_at(65, 3, 98, 18, 52);
    lemma_miller_at(
        g1p(65, 98),
        dq(18, 52),
        (g1p(18, 49), g1p(1, 99), g1p(68, 27), g1p(65, 3)),
        (42, 0),
        (73, 28),
        (97, 36),
        (49, 42),
        (-65, 18),
        ((47, 0, 17, 0), (98, 3, 33, 13), (0, 74, 95, 5), (63, 70, -27, 44)),
        ((79, 82, -10, 38), (23, 54, 4, 38), (58, 73, -25, -41)),
    );
    lemma_final_exp_4_4();
}

proof fn lemma_final_exp_5_4()
    ensures
        GT(gt_of(12, 75)).spow(600) == GT(gt_of(14, 44)),
{
    assert(GT::sone() == GT(gt_of(1, 0)));
    lemma_gt_mul_at((12, 75), (12, 75), (74, 13), (-55, -38));
    assert(GT::spow_steps(GT(gt_of(1, 0)), GT(gt_of(12, 75)), 600) == GT::spow_steps(GT(gt_of(1, 0)), GT(gt_of(74, 13)), 300));
    lemma_gt_mul_at((74, 13), (74, 13), (55, 38), (52, 17));
    assert(GT::spow_steps(GT(gt_of(1, 0)), GT(gt_of(74, 13)), 300) == GT::spow_steps(GT(gt_of(1, 0)), GT(gt_of(55, 38)), 150));
    lemma_gt_mul_at((55, 38), (55, 38), (66, 9), (15, 27));
    assert(GT::spow_steps(GT(gt_of(1, 0)), GT(gt_of(55, 38)), 150) == GT::spow_steps(GT(gt_of(1, 0)), GT(gt_of(66, 9)), 75));
    lemma_gt_mul_at((1, 0), (66, 9), (66, 9), (0, 0));
    lemma_gt_mul_at((66, 9), (66, 9), (33, 97), (42, 10));
    assert(GT::spow_steps(GT(gt_of(1, 0)), GT(gt_of(66, 9)), 75) == GT::spow_steps(GT(gt_of(66, 9)), GT(gt_of(33, 97)), 37));
    lemma_gt_mul_at((66, 9), (33, 97), (93, 69), (12, 57));
    lemma_gt_mul_at((33, 97), (33, 97), (63, 23), (-83, -30));
    assert(GT::spow_steps(GT(gt_of(66, 9)), GT(gt_of(33, 97)), 37) == GT::spow_steps(GT(gt_of(93, 69)), GT(gt_of(63, 23)), 18));
    lemma_gt_mul_at((63, 23), (63, 23), (6, 46), (34, 23));
    assert(GT::spow_steps(GT(gt_of(93, 69)), GT(gt_of(63, 23)), 18) == GT::spow_steps(GT(gt_of(93, 69)), GT(gt_of(6, 46)), 9));
    lemma_gt_mul_at((93, 69), (6, 46), (10, 3), (-26, 15));
    lemma_gt_mul_at((6, 46), (6, 46), (41, 52), (-21, -16));
    assert(GT::spow_steps(GT(gt_of(93, 69)), GT(gt_of(6, 46)), 9) == GT::spow_steps(GT(gt_of(10, 3)), GT(gt_of(41, 52)), 4));
    lemma_gt_mul_at((41, 52), (41, 52), (88, 45), (-11, 15));
    assert(GT::spow_steps(GT(gt_of(10, 3)), GT(gt_of(41, 52)), 4) == GT::spow_steps(GT(gt_of(10, 3)), GT(gt_of(88, 45)), 2));
    lemma_gt_mul_at((88, 45), (88, 45), (63, 37), (56, 58));
    assert(GT::spow_steps(GT(gt_of(10, 3)), GT(gt_of(88, 45)), 2) == GT::spow_steps(GT(gt_of(10, 3)), GT(gt_of(63, 37)), 1));
    lemma_gt_mul_at((10, 3), (63, 37), (14, 44), (5, 4));
    lemma_gt_mul_at((63, 37), (63, 37), (75, 61), (25, 32));
    assert(GT::spow_steps(GT(gt_of(10, 3)), GT(gt_of(63, 37)), 1) == GT::spow_steps(GT(gt_of(14, 44)), GT(gt_of(75, 61)), 0));
}

/// The pairing of `5G` with the point `4 P` of the image of `H`.
proof fn lemma_pairing_5_4()
    ensures
        smiller_loop(g1p(12, 32), dq(18, 52)) is Some,
        spairing_at(g1p(12, 32), dq(18, 52)) == GT(gt_of(14, 44)),
{
    lemma_final_exponent();
    lemma_tangent_5_4();
    lemma_tangent_10_4();
    lemma_tangent_3_4();
    lemma_tangent_6_4();
    lemma_vertical_at(12, 69, 32, 18, 52);
    lemma_miller_at(
        g1p(12, 32),
        dq(18, 52),
        (g1p(91, 66), g1p(26, 45), g1p(32, 42), g1p(12, 69)),
        (85, 36),
        (69, 35),
        (34, 5),
        (19, 42),
        (-12, 18),
        ((71, 77, 58, 47), (83, 53, 21, 50), (40, 30, 40, 59), (99, 60, 11, 10)),
        ((40, 99, 61, 81), (36, 9, -34, -6), (12, 75, -6, 3)),
    );
    lemma_final_exp_5_4();
}

proof fn lemma_final_exp_6_4()
    ensures
        GT(gt_of(38, 97)).spow(600) == GT(gt_of(28, 39)),
{
    assert(GT::sone() == GT(gt_of(1, 0)));
    lemma_gt_mul_at((38, 97), (38, 97), (14, 84), (-79, -21));
    assert(GT::spow_steps(GT(gt_of(1, 0)), GT(gt_of(38, 97)), 600) == GT::spow_steps(GT(gt_of(1, 0)), GT(gt_of(14, 84)), 300));
    lemma_gt_mul_at((14, 84), (14, 84), (8, 43), (-68, -47));
    assert(GT::spow_steps(GT(gt_of(1, 0)), GT(gt_of(14, 84)), 300) == GT::spow_steps(GT(gt_of(1, 0)), GT(gt_of(8, 43)), 150));
    lemma_gt_mul_at((8, 43), (8, 43), (33, 51), (-18, -12));
    assert(GT::spow_steps(GT(gt_of(1, 0)), GT(gt_of(8, 43)), 150) == GT::spow_steps(GT(gt_of(1, 0)), GT(gt_of(33, 51)), 75));
    lemma_gt_mul_at((1, 0), (33, 51), (33, 51), (0, 0));
    lemma_gt_mul_at((33, 51), (33, 51), (3, 58), (-15, 7));
    assert(GT::spow_steps(GT(gt_of(1, 0)), GT(gt_of(33, 51)), 75) == GT::spow_steps(GT(gt_of(33, 51)), GT(gt_of(3, 58)), 37));
    lemma_gt_mul_at((33, 51), (3, 58), (70, 18), (-29, -9));
    lemma_gt_mul_at((3, 58), (3, 58), (79, 14), (-34, -30));
    assert(GT::spow_steps(GT(gt_of(33, 51)), GT(gt_of(3, 58)), 37) == GT::spow_steps(GT(gt_of(70, 18)), GT(gt_of(79, 14)), 18));
    lemma_gt_mul_at((79, 14), (79, 14), (86, 97), (59, 19));
    assert(GT::spow_steps(GT(gt_of(70, 18)), GT(gt_of(79, 14)), 18) == GT::spow_steps(GT(gt_of(70, 18)), GT(gt_of(86, 97)), 9));
    lemma_gt_mul_at((70, 18), (86, 97), (32, 27), (42, 65));
    lemma_gt_mul_at((86, 97), (86, 97), (7, 3), (-20, 72));
    assert(GT::spow_steps(GT(gt_of(70, 18)), GT(gt_of(86, 97)), 9) == GT::spow_steps(GT(gt_of(32, 27)), GT(gt_of(7, 3)), 4));
    lemma_gt_mul_at((7, 3), (7, 3), (40, 33), (0, 0));
    assert(GT::spow_steps(GT(gt_of(32, 27)), GT(gt_of(7, 3)), 4) == GT::spow_steps(GT(gt_of(32, 27)), GT(gt_of(40, 33)), 2));
    lemma_gt_mul_at((40, 33), (40, 33), (6, 36), (5, 15));
    assert(GT::spow_steps(GT(gt_of(32, 27)), GT(gt_of(40, 33)), 2) == GT::spow_steps(GT(gt_of(32, 27)), GT(gt_of(6, 36)), 1));
    lemma_gt_mul_at((32, 27), (6, 36), (28, 39), (-8, 3));
    lemma_gt_mul_at((6, 36), (6, 36), (53, 45), (-13, -9));
    assert(GT::spow_steps(GT(gt_of(32, 27)), GT(gt_of(6, 36)), 1) == GT::spow_steps(GT(gt_of(28, 39)), GT(gt_of(53, 45)), 0));
}

/// The pairing of `6G` with the point `4 P` of the image of `H`.
proof fn lemma_pairing_6_4()
    ensures
        smiller_loop(g1p(32, 42), dq(18, 52)) is Some,
        spairing_at(g1p(32, 42), dq(18, 52)) == GT(gt_of(28, 39)),
{
    lemma_final_exponent();
    lemma_tangent_6_4();
    lemma_tangent_12_4();
    lemma_tangent_7_4();
    lemma_tangent_14_4();
    lemma_vertical_at(32, 59, 42, 18, 52);
    lemma_miller_at(
        g1p(32, 42),
        dq(18, 52),
        (g1p(12, 69), g1p(91, 35), g1p(26, 56), g1p(32, 59)),
        (19, 42),
        (1, 6),
        (52, 65),
        (37, 65),
        (-32, 18),
        ((11, 34, -14, -2), (9, 98, -2, -2), (72, 38, -95, -78), (62, 45, 12, 41)),
        ((1, 20, 18, 35), (50, 10, -13, -5), (38, 97, -18, 3)),
    );
    lemma_final_exp_6_4();
}

proof fn lemma_final_exp_7_4()
    ensures
        GT(gt_of(50, 3)).spow(600) == GT(gt_of(75, 98)),
{
    assert(GT::sone() == GT(gt_of(1, 0)));
    lemma_gt_mul_at((50, 3), (50, 3), (67, 89), (24, 2));
    assert(GT::spow_steps(GT(gt_of(1, 0)), GT(gt_of(50, 3)), 600) == GT::spow_steps(GT(gt_of(1, 0)), GT(gt_of(67, 89)), 300));
    lemma_gt_mul_at((67, 89), (67, 89), (2, 66), (-34, 39));
    assert(GT::spow_steps(GT(gt_of(1, 0)), GT(gt_of(67, 89)), 300) == GT::spow_steps(GT(gt_of(1, 0)), GT(gt_of(2, 66)), 150));
    lemma_gt_mul_at((2, 66), (2, 66), (92, 49), (-44, -41));
    assert(GT::spow_steps(GT(gt_of(1, 0)), GT(gt_of(2, 66)), 150) == GT::spow_steps(GT(gt_of(1, 0)), GT(gt_of(92, 49)), 75));
    lemma_gt_mul_at((1, 0), (92, 49), (92, 49), (0, 0));
    lemma_gt_mul_at((92, 49), (92, 49), (3, 50), (60, 65));
    assert(GT::spow_steps(GT(gt_of(1, 0)), GT(gt_of(92, 49)), 75) == GT::spow_steps(GT(gt_of(92, 49)), GT(gt_of(3, 50)), 37));
    lemma_gt_mul_at((92, 49), (3, 50), (48, 75), (-22, 22));
    lemma_gt_mul_at((3, 50), (3, 50), (34, 22), (-25, -22));
    assert(GT::spow_steps(GT(gt_of(92, 49)), GT(gt_of(3, 50)), 37) == GT::spow_steps(GT(gt_of(48, 75)), GT(gt_of(34, 22)), 18));
    lemma_gt_mul_at((34, 22), (34, 22), (66, 2), (6, 10));
    assert(GT::spow_steps(GT(gt_of(48, 75)), GT(gt_of(34, 22)), 18) == GT::spow_steps(GT(gt_of(48, 75)), GT(gt_of(66, 2)), 9));
    lemma_gt_mul_at((48, 75), (66, 2), (89, 48), (29, 48));
    lemma_gt_mul_at((66, 2), (66, 2), (9, 58), (43, 2));
    assert(GT::spow_steps(GT(gt_of(48, 75)), GT(gt_of(66, 2)), 9) == GT::spow_steps(GT(gt_of(89, 48)), GT(gt_of(9, 58)), 4));
    lemma_gt_mul_at((9, 58), (9, 58), (50, 3), (-33, -23));
    assert(GT::spow_steps(GT(gt_of(89, 48)), GT(gt_of(9, 58)), 4) == GT::spow_steps(GT(gt_of(89, 48)), GT(gt_of(50, 3)), 2));
    lemma_gt_mul_at((50, 3), (50, 3), (67, 89), (24, 2));
    assert(GT::spow_steps(GT(gt_of(89, 48)), GT(gt_of(50, 3)), 2) == GT::spow_steps(GT(gt_of(89, 48)), GT(gt_of(67, 89)), 1));
    lemma_gt_mul_at((89, 48), (67, 89), (75, 98), (16, 67));
    lemma_gt_mul_at((67, 89), (67, 89), (2, 66), (-34, 39));
    assert(GT::spow_steps(GT(gt_of(89, 48)), GT(gt_of(67, 89)), 1) == GT::spow_steps(GT(gt_of(75, 98)), GT(gt_of(2, 66)), 0));
}

/// The pairing of `7G` with the point `4 P` of the image of `H`.
proof fn lemma_pairing_7_4()
    ensures
        smiller_loop(g1p(91, 35), dq(18, 52)) is Some,
        spairing_at(g1p(91, 35), dq(18, 52)) == GT(gt_of(75, 98)),
{
    lemma_final_exponent();
    lemma_tangent_7_4();
    lemma_tangent_14_4();
    lemma_tangent_11_4();
    lemma_tangent_5_4();
    lemma_vertical_at(91, 66, 35, 18, 52);
    lemma_miller_at(
        g1p(91, 35),
        dq(18, 52),
        (g1p(26, 56), g1p(32, 59), g1p(12, 32), g1p(91, 66)),
        (52, 65),
        (37, 65),
        (42, 35),
        (85, 36),
        (-91, 18),
        ((95, 10, -16, 25), (37, 37, 28, 58), (0, 56, 0, 13), (60, 89, -20, 3)),
        ((22, 32, -43, 27), (11, 37, 7, 23), (50, 3, -17, -38)),
    );
    lemma_final_exp_7_4();
}

proof fn lemma_final_exp_8_4()
    ensures
        GT(gt_of(30, 87)).spow(600) == GT(gt_of(12, 20)),
{
    assert(GT::sone() == GT(gt_of(1, 0)));
    lemma_gt_mul_at((30, 87), (30, 87), (98, 75), (-67, -24));
    assert(GT::spow_steps(GT(gt_of(1, 0)), GT(gt_of(30, 87)), 600) == GT::spow_steps(GT(gt_of(1, 0)), GT(gt_of(98, 75)), 300));
    lemma_gt_mul_at((98, 75), (98, 75), (40, 86), (39, 89));
    assert(GT::spow_steps(GT(gt_of(1, 0)), GT(gt_of(98, 75)), 300) == GT::spow_steps(GT(gt_of(1, 0)), GT(gt_of(40, 86)), 150));
    lemma_gt_mul_at((40, 86), (40, 86), (62, 90), (-58, -6));
    assert(GT::spow_steps(GT(gt_of(1, 0)), GT(gt_of(40, 86)), 150) == GT::spow_steps(GT(gt_of(1, 0)), GT(gt_of(62, 90)), 75));
    lemma_gt_mul_at((1, 0), (62, 90), (62, 90), (0, 0));
    lemma_gt_mul_at((62, 90), (62, 90), (87, 30), (-43, 30));
    assert(GT::spow_steps(GT(gt_of(1, 0)), GT(gt_of(62, 90)), 75) == GT::spow_steps(GT(gt_of(62, 90)), GT(gt_of(87, 30)), 37));
    lemma_gt_mul_at((62, 90), (87, 30), (68, 21), (26, 69));
    lemma_gt_mul_at((87, 30), (87, 30), (3, 78), (66, 42));
    assert(GT::spow_steps(GT(gt_of(62, 90)), GT(gt_of(87, 30)), 37) == GT::spow_steps(GT(gt_of(68, 21)), GT(gt_of(3, 78)), 18));
    lemma_gt_mul_at((3, 78), (3, 78), (86, 40), (-61, -56));
    assert(GT::spow_steps(GT(gt_of(68, 21)), GT(gt_of(3, 78)), 18) == GT::spow_steps(GT(gt_of(68, 21)), GT(gt_of(86, 40)), 9));
    lemma_gt_mul_at((68, 21), (86, 40), (59, 50), (49, 36));
    lemma_gt_mul_at((86, 40), (86, 40), (39, 28), (57, 52));
    assert(GT::spow_steps(GT(gt_of(68, 21)), GT(gt_of(86, 40)), 9) == GT::spow_steps(GT(gt_of(59, 50)), GT(gt_of(39, 28)), 4));
    lemma_gt_mul_at((39, 28), (39, 28), (30, 87), (7, 13));
    assert(GT::spow_steps(GT(gt_of(59, 50)), GT(gt_of(39, 28)), 4) == GT::spow_steps(GT(gt_of(59, 50)), GT(gt_of(30, 87)), 2));
    lemma_gt_mul_at((30, 87), (30, 87), (98, 75), (-67, -24));
    assert(GT::spow_steps(GT(gt_of(59, 50)), GT(gt_of(30, 87)), 2) == GT::spow_steps(GT(gt_of(59, 50)), GT(gt_of(98, 75)), 1));
    lemma_gt_mul_at((59, 50), (98, 75), (12, 20), (20, 55));
    lemma_gt_mul_at((98, 75), (98, 75), (40, 86), (39, 89));
    assert(GT::spow_steps(GT(gt_of(59, 50)), GT(gt_of(98, 75)), 1) == GT::spow_steps(GT(gt_of(12, 20)), GT(gt_of(40, 86)), 0));
}

/// The pairing of `8G` with the point `4 P` of the image of `H`.
proof fn lemma_pairing_8_4()
    ensures
        smiller_loop(g1p(18, 49), dq(18, 52)) is Some,
        spairing_at(g1p(18, 49), dq(18, 52)) == GT(gt_of(12, 20)),
{
    lemma_final_exponent();
    lemma_tangent_8_4();
    lemma_tangent_16_4();
    lemma_tangent_15_4();
    lemma_tangent_13_4();
    lemma_vertical_at(18, 52, 49, 18, 52);
    lemma_miller_at(
        g1p(18, 49),
        dq(18, 52),
        (g1p(1, 99), g1p(68, 27), g1p(65, 3), g1p(18, 52)),
        (73, 28),
        (97, 36),
        (49, 42),
        (14, 28),
        (-18, 18),
        ((0, 72, 45, 32), (34, 49, -26, 43), (68, 22, -13, 9), (85, 81, 23, 29)),
        ((58, 38, 6, 71), (51, 82, -3, 10), (30, 87, -24, -21)),
    );
    lemma_final_exp_8_4();
}

proof fn lemma_final_exp_9_4()
    ensures
        GT(gt_of(24, 27)).spow(600) == GT(gt_of(93, 81)),
{
    assert(GT::sone() == GT(gt_of(1, 0)));
    lemma_gt_mul_at((24, 27), (24, 27), (49, 62), (-2, 5));
    assert(GT::spow_steps(GT(gt_of(1, 0)), GT(gt_of(24, 27)), 600) == GT::spow_steps(GT(gt_of(1, 0)), GT(gt_of(49, 62)), 300));
    lemma_gt_mul_at((49, 62), (49, 62), (72, 10), (-15, 22));
    assert(GT::spow_steps(GT(gt_of(1, 0)), GT(gt_of(49, 62)), 300) == GT::spow_steps(GT(gt_of(1, 0)), GT(gt_of(72, 10)), 150));
    lemma_gt_mul_at((72, 10), (72, 10), (34, 27), (50, 13));
    assert(GT::spow_steps(GT(gt_of(1, 0)), GT(gt_of(72, 10)), 150) == GT::spow_steps(GT(gt_of(1, 0)), GT(gt_of(34, 27)), 75));
    lemma_gt_mul_at((1, 0), (34, 27), (34, 27), (0, 0));
    lemma_gt_mul_at((34, 27), (34, 27), (23, 97), (4, 10));
    assert(GT::spow_steps(GT(gt_of(1, 0)), GT(gt_of(34, 27)), 75) == GT::spow_steps(GT(gt_of(34, 27)), GT(gt_of(23, 97)), 37));
    lemma_gt_mul_at((34, 27), (23, 97), (82, 88), (-19, 12));
    lemma_gt_mul_at((23, 97), (23, 97), (8, 2), (-88, -49));
    assert(GT::spow_steps(GT(gt_of(34, 27)), GT(gt_of(23, 97)), 37) == GT::spow_steps(GT(gt_of(82, 88)), GT(gt_of(8, 2)), 18));
    lemma_gt_mul_at((8, 2), (8, 2), (60, 28), (0, 0));
    assert(GT::spow_steps(GT(gt_of(82, 88)), GT(gt_of(8, 2)), 18) == GT::spow_steps(GT(gt_of(82, 88)), GT(gt_of(60, 28)), 9));
    lemma_gt_mul_at((82, 88), (60, 28), (32, 62), (24, 50));
    lemma_gt_mul_at((60, 28), (60, 28), (89, 51), (27, 25));
    assert(GT::spow_steps(GT(gt_of(82, 88)), GT(gt_of(60, 28)), 9) == GT::spow_steps(GT(gt_of(32, 62)), GT(gt_of(89, 51)), 4));
    lemma_gt_mul_at((89, 51), (89, 51), (68, 13), (52, 64));
    assert(GT::spow_steps(GT(gt_of(32, 62)), GT(gt_of(89, 51)), 4) == GT::spow_steps(GT(gt_of(32, 62)), GT(gt_of(68, 13)), 2));
    lemma_gt_mul_at((68, 13), (68, 13), (11, 84), (44, 15));
    assert(GT::spow_steps(GT(gt_of(32, 62)), GT(gt_of(68, 13)), 2) == GT::spow_steps(GT(gt_of(32, 62)), GT(gt_of(11, 84)), 1));
    lemma_gt_mul_at((32, 62), (11, 84), (93, 81), (-49, -19));
    lemma_gt_mul_at((11, 84), (11, 84), (34, 44), (-69, -52));
    assert(GT::spow_steps(GT(gt_of(32, 62)), GT(gt_of(11, 84)), 1) == GT::spow_steps(GT(gt_of(93, 81)), GT(gt_of(34, 44)), 0));
}

/// The pairing of `9G` with the point `4 P` of the image of `H`.
proof fn lemma_pairing_9_4()
    ensures
        smiller_loop(g1p(18, 52), dq(18, 52)) is Some,
        spairing_at(g1p(18, 52), dq(18, 52)) == GT(gt_of(93, 81)),
{
    lemma_final_exponent();
    lemma_tangent_9_4();
    lemma_tangent_1_4();
    lemma_tangent_2_4();
    lemma_tangent_4_4();
    lemma_vertical_at(18, 49, 52, 18, 52);
    lemma_miller_at(
        g1p(18, 52),
        dq(18, 52),
        (g1p(1, 2), g1p(68, 74), g1p(65, 98), g1p(18, 49)),
        (19, 6),
        (54, 5),
        (24, 87),
        (42, 0),
        (-18, 18),
        ((22, 91, 3, 1), (26, 24, 7, 45), (100, 66, 0, 6), (92, 98, -34, 44)),
        ((72, 45, -12, 83), (95, 72, 29, 18), (24, 27, -30, -9)),
    );
    lemma_final_exp_9_4();
}

proof fn lemma_final_exp_10_4()
    ensures
        GT(gt_of(50, 56)).spow(600) == GT(gt_of(78, 3)),
{
    assert(GT::sone() == GT(gt_of(1, 0)));
    lemma_gt_mul_at((50, 56), (50, 56), (71, 40), (-7, 24));
    assert(GT::spow_steps(GT(gt_of(1, 0)), GT(gt_of(50, 56)), 600) == GT::spow_steps(GT(gt_of(1, 0)), GT(gt_of(71, 40)), 300));
    lemma_gt_mul_at((71, 40), (71, 40), (7, 40), (34, 40));
    assert(GT::spow_steps(GT(gt_of(1, 0)), GT(gt_of(71, 40)), 300) == GT::spow_steps(GT(gt_of(1, 0)), GT(gt_of(7, 40)), 150));
    lemma_gt_mul_at((7, 40), (7, 40), (65, 71), (-16, -11));
    assert(GT::spow_steps(GT(gt_of(1, 0)), GT(gt_of(7, 40)), 150) == GT::spow_steps(GT(gt_of(1, 0)), GT(gt_of(65, 71)), 75));
    lemma_gt_mul_at((1, 0), (65, 71), (65, 71), (0, 0));
    lemma_gt_mul_at((65, 71), (65, 71), (93, 48), (-9, 41));
    assert(GT::spow_steps(GT(gt_of(1, 0)), GT(gt_of(65, 71)), 75) == GT::spow_steps(GT(gt_of(65, 71)), GT(gt_of(93, 48)), 37));
    lemma_gt_mul_at((65, 71), (93, 48), (11, 53), (26, 62));
    lemma_gt_mul_at((93, 48), (93, 48), (83, 59), (62, 65));
    assert(GT::spow_steps(GT(gt_of(65, 71)), GT(gt_of(93, 48)), 37) == GT::spow_steps(GT(gt_of(11, 53)), GT(gt_of(83, 59)), 18));
    lemma_gt_mul_at((83, 59), (83, 59), (75, 51), (33, 62));
    assert(GT::spow_steps(GT(gt_of(11, 53)), GT(gt_of(83, 59)), 18) == GT::spow_steps(GT(gt_of(11, 53)), GT(gt_of(75, 51)), 9));
    lemma_gt_mul_at((11, 53), (75, 51), (41, 15), (-19, 18));
    lemma_gt_mul_at((75, 51), (75, 51), (95, 100), (29, 49));
    assert(GT::spow_steps(GT(gt_of(11, 53)), GT(gt_of(75, 51)), 9) == GT::spow_steps(GT(gt_of(41, 15)), GT(gt_of(95, 100)), 4));
    lemma_gt_mul_at((95, 100), (95, 100), (35, 11), (-10, 89));
    assert(GT::spow_steps(GT(gt_of(41, 15)), GT(gt_of(95, 100)), 4) == GT::spow_steps(GT(gt_of(41, 15)), GT(gt_of(35, 11)), 2));
    lemma_gt_mul_at((35, 11), (35, 11), (94, 43), (10, 6));
    assert(GT::spow_steps(GT(gt_of(41, 15)), GT(gt_of(35, 11)), 2) == GT::spow_steps(GT(gt_of(41, 15)), GT(gt_of(94, 43)), 1));
    lemma_gt_mul_at((41, 15), (94, 43), (78, 3), (31, 25));
    lemma_gt_mul_at((94, 43), (94, 43), (18, 74), (69, 61));
    assert(GT::spow_steps(GT(gt_of(41, 15)), GT(gt_of(94, 43)), 1) == GT::spow_steps(GT(gt_of(78, 3)), GT(gt_of(18, 74)), 0));
}

/// The pairing of `10G` with the point `4 P` of the image of `H`.
proof fn lemma_pairing_10_4()
    ensures
        smiller_loop(g1p(91, 66), dq(18, 52)) is Some,
        spairing_at(g1p(91, 66), dq(18, 52)) == GT(gt_of(78, 3)),
{
    lemma_final_exponent();
    lemma_tangent_10_4();
    lemma_tangent_3_4();
    lemma_tangent_6_4();
    lemma_tangent_12_4();
    lemma_vertical_at(91, 35, 66, 18, 52);
    lemma_miller_at(
        g1p(91, 66),
        dq(18, 52),
        (g1p(26, 45), g1p(32, 42), g1p(12, 69), g1p(91, 35)),
        (69, 35),
        (34, 5),
        (19, 42),
        (1, 6),
        (-91, 18),
        ((1, 70, 35, 35), (88, 15, -4, 20), (45, 92, 74, 23), (21, 77, -30, -3)),
        ((67, 32, -55, -27), (77, 40, -2, 2), (50, 56, -77, -30)),
    );
    lemma_final_exp_10_4();
}

proof fn lemma_final_exp_11_4()
    ensures
        GT(gt_of(16, 50)).spow(600) == GT(gt_of(90, 62)),
{
    assert(GT::sone() == GT(gt_of(1, 0)));
    lemma_gt_mul_at((16, 50), (16, 50), (79, 9), (-23, -9));
    assert(GT::spow_steps(GT(gt_of(1, 0)), GT(gt_of(16, 50)), 600) == GT::spow_steps(GT(gt_of(1, 0)), GT(gt_of(79, 9)), 300));
    lemma_gt_mul_at((79, 9), (79, 9), (100, 28), (60, 13));
    assert(GT::spow_steps(GT(gt_of(1, 0)), GT(gt_of(79, 9)), 300) == GT::spow_steps(GT(gt_of(1, 0)), GT(gt_of(100, 28)), 150));
    lemma_gt_mul_at((100, 28), (100, 28), (25, 69), (91, 47));
    assert(GT::spow_steps(GT(gt_of(1, 0)), GT(gt_of(100, 28)), 150) == GT::spow_steps(GT(gt_of(1, 0)), GT(gt_of(25, 69)), 75));
    lemma_gt_mul_at((1, 0), (25, 69), (25, 69), (0, 0));
    lemma_gt_mul_at((25, 69), (25, 69), (5, 2), (-41, -13));
    assert(GT::spow_steps(GT(gt_of(1, 0)), GT(gt_of(25, 69)), 75) == GT::spow_steps(GT(gt_of(25, 69)), GT(gt_of(5, 2)), 37));
    lemma_gt_mul_at((25, 69), (5, 2), (88, 55), (-1, 2));
    lemma_gt_mul_at((5, 2), (5, 2), (21, 16), (0, 0));
    assert(GT::spow_steps(GT(gt_of(25, 69)), GT(gt_of(5, 2)), 37) == GT::spow_steps(GT(gt_of(88, 55)), GT(gt_of(21, 16)), 18));
    lemma_gt_mul_at((21, 16), (21, 16), (84, 12), (1, 4));
    assert(GT::spow_steps(GT(gt_of(88, 55)), GT(gt_of(21, 16)), 18) == GT::spow_steps(GT(gt_of(88, 55)), GT(gt_of(84, 12)), 9));
    lemma_gt_mul_at((88, 55), (84, 12), (66, 67), (66, 49));
    lemma_gt_mul_at((84, 12), (84, 12), (44, 54), (68, 18));
    assert(GT::spow_steps(GT(gt_of(88, 55)), GT(gt_of(84, 12)), 9) == GT::spow_steps(GT(gt_of(66, 67)), GT(gt_of(44, 54)), 4));
    lemma_gt_mul_at((44, 54), (44, 54), (30, 18), (-10, 18));
    assert(GT::spow_steps(GT(gt_of(66, 67)), GT(gt_of(44, 54)), 4) == GT::spow_steps(GT(gt_of(66, 67)), GT(gt_of(30, 18)), 2));
    lemma_gt_mul_at((30, 18), (30, 18), (71, 49), (5, 7));
    assert(GT::spow_steps(GT(gt_of(66, 67)), GT(gt_of(30, 18)), 2) == GT::spow_steps(GT(gt_of(66, 67)), GT(gt_of(71, 49)), 1));
    lemma_gt_mul_at((66, 67), (71, 49), (90, 62), (13, 46));
    lemma_gt_mul_at((71, 49), (71, 49), (14, 12), (26, 45));
    assert(GT::spow_steps(GT(gt_of(66, 67)), GT(gt_of(71, 49)), 1) == GT::spow_steps(GT(gt_of(90, 62)), GT(gt_of(14, 12)), 0));
}

/// The pairing of `11G` with the point `4 P` of the image of `H`.
proof fn lemma_pairing_11_4()
    ensures
        smiller_loop(g1p(32, 59), dq(18, 52)) is Some,
        spairing_at(g1p(32, 59), dq(18, 52)) == GT(gt_of(90, 62)),
{
    lemma_final_exponent();
    lemma_tangent_11_4();
    lemma_tangent_5_4();
    lemma_tangent_10_4();
    lemma_tangent_3_4();
    lemma_vertical_at(32, 42, 59, 18, 52);
    lemma_miller_at(
        g1p(32, 59),
        dq(18, 52),
        (g1p(12, 32), g1p(91, 66), g1p(26, 45), g1p(32, 42)),
        (42, 35),
        (85, 36),
        (69, 35),
        (34, 5),
        (-32, 18),
        ((34, 99, 5, 16), (33, 15, -7, 60), (56, 58, 8, 7), (16, 94, 18, 38)),
        ((5, 30, -85, -58), (20, 87, 0, 8), (16, 50, -22, -40)),
    );
    lemma_final_exp_11_4();
}

proof fn lemma_final_exp_12_4()
    ensures
        GT(gt_of(41, 51)).spow(600) == GT(gt_of(71, 57)),
{
    assert(GT::sone() == GT(gt_of(1, 0)));
    lemma_gt_mul_at((41, 51), (41, 51), (90, 66), (-10, 15));
    assert(GT::spow_steps(GT(gt_of(1, 0)), GT(gt_of(41, 51)), 600) == GT::spow_steps(GT(gt_of(1, 0)), GT(gt_of(90, 66)), 300));
    lemma_gt_mul_at((90, 66), (90, 66), (7, 50), (37, 74));
    assert(GT::spow_steps(GT(gt_of(1, 0)), GT(gt_of(90, 66)), 300) == GT::spow_steps(GT(gt_of(1, 0)), GT(gt_of(7, 50)), 150));
    lemma_gt_mul_at((7, 50), (7, 50), (74, 18), (-25, -18));
    assert(GT::spow_steps(GT(gt_of(1, 0)), GT(gt_of(7, 50)), 150) == GT::spow_steps(GT(gt_of(1, 0)), GT(gt_of(74, 18)), 75));
    lemma_gt_mul_at((1, 0), (74, 18), (74, 18), (0, 0));
    lemma_gt_mul_at((74, 18), (74, 18), (1, 17), (51, 23));
    assert(GT::spow_steps(GT(gt_of(1, 0)), GT(gt_of(74, 18)), 75) == GT::spow_steps(GT(gt_of(74, 18)), GT(gt_of(1, 17)), 37));
    lemma_gt_mul_at((74, 18), (1, 17), (71, 61), (-3, 9));
    lemma_gt_mul_at((1, 17), (1, 17), (15, 48), (-3, -3));
    assert(GT::spow_steps(GT(gt_of(74, 18)), GT(gt_of(1, 17)), 37) == GT::spow_steps(GT(gt_of(71, 61)), GT(gt_of(15, 48)), 18));
    lemma_gt_mul_at((15, 48), (15, 48), (42, 45), (-21, -9));
    assert(GT::spow_steps(GT(gt_of(71, 61)), GT(gt_of(15, 48)), 18) == GT::spow_steps(GT(gt_of(71, 61)), GT(gt_of(42, 45)), 9));
    lemma_gt_mul_at((71, 61), (42, 45), (35, 83), (2, 29));
    lemma_gt_mul_at((42, 45), (42, 45), (42, 38), (-3, 17));
    assert(GT::spow_steps(GT(gt_of(71, 61)), GT(gt_of(42, 45)), 9) == GT::spow_steps(GT(gt_of(35, 83)), GT(gt_of(42, 38)), 4));
    lemma_gt_mul_at((42, 38), (42, 38), (17, 31), (3, 17));
    assert(GT::spow_steps(GT(gt_of(35, 83)), GT(gt_of(42, 38)), 4) == GT::spow_steps(GT(gt_of(35, 83)), GT(gt_of(17, 31)), 2));
    lemma_gt_mul_at((17, 31), (17, 31), (35, 93), (-7, 0));
    assert(GT::spow_steps(GT(gt_of(35, 83)), GT(gt_of(17, 31)), 2) == GT::spow_steps(GT(gt_of(35, 83)), GT(gt_of(35, 93)), 1));
    lemma_gt_mul_at((35, 83), (35, 93), (71, 57), (-65, -16));
    lemma_gt_mul_at((35, 93), (35, 93), (50, 83), (-74, -22));
    assert(GT::spow_steps(GT(gt_of(35, 83)), GT(gt_of(35, 93)), 1) == GT::spow_steps(GT(gt_of(71, 57)), GT(gt_of(50, 83)), 0));
}

/// The pairing of `12G` with the point `4 P` of the image of `H`.
proof fn lemma_pairing_12_4()
    ensures
        smiller_loop(g1p(12, 69), dq(18, 52)) is Some,
        spairing_at(g1p(12, 69), dq(18, 52)) == GT(gt_of(71, 57)),
{
    lemma_final_exponent();
    lemma_tangent_12_4();
    lemma_tangent_7_4();
    lemma_tangent_14_4();
    lemma_tangent_11_4();
    lemma_vertical_at(12, 32, 69, 18, 52);
    lemma_miller_at(
        g1p(12, 69),
        dq(18, 52),
        (g1p(91, 35), g1p(26, 56), g1p(32, 59), g1p(12, 32)),
        (1, 6),
        (52, 65),
        (37, 65),
        (42, 35),
        (-12, 18),
        ((66, 77, -1, -1), (43, 57, -16, 32), (14, 37, -14, 16), (32, 76, -19, -2)),
        ((96, 98, -48, -10), (97, 6, 5, 40), (41, 51, -13, 15)),
    );
    lemma_final_exp_12_4();
}

proof fn lemma_final_exp_13_4()
    ensures
        GT(gt_of(9, 88)).spow(600) == GT(gt_of(96, 29)),
{
    assert(GT::sone() == GT(gt_of(1, 0)));
    lemma_gt_mul_at((9, 88), (9, 88), (13, 1), (-76, -61));
    assert(GT::spow_steps(GT(gt_of(1, 0)), GT(gt_of(9, 88)), 600) == GT::spow_steps(GT(gt_of(1, 0)), GT(gt_of(13, 1)), 300));
    lemma_gt_mul_at((13, 1), (13, 1), (67, 25), (1, 0));
    assert(GT::spow_steps(GT(gt_of(1, 0)), GT(gt_of(13, 1)), 300) == GT::spow_steps(GT(gt_of(1, 0)), GT(gt_of(67, 25)), 150));
    lemma_gt_mul_at((67, 25), (67, 25), (26, 99), (38, 26));
    assert(GT::spow_steps(GT(gt_of(1, 0)), GT(gt_of(67, 25)), 150) == GT::spow_steps(GT(gt_of(1, 0)), GT(gt_of(26, 99)), 75));
    lemma_gt_mul_at((1, 0), (26, 99), (26, 99), (0, 0));
    lemma_gt_mul_at((26, 99), (26, 99), (66, 94), (-91, -47));
    assert(GT::spow_steps(GT(gt_of(1, 0)), GT(gt_of(26, 99)), 75) == GT::spow_steps(GT(gt_of(26, 99)), GT(gt_of(66, 94)), 37));
    lemma_gt_mul_at((26, 99), (66, 94), (86, 76), (-76, -4));
    lemma_gt_mul_at((66, 94), (66, 94), (65, 37), (-45, 35));
    assert(GT::spow_steps(GT(gt_of(26, 99)), GT(gt_of(66, 94)), 37) == GT::spow_steps(GT(gt_of(86, 76)), GT(gt_of(65, 37)), 18));
    lemma_gt_mul_at((65, 37), (65, 37), (28, 7), (28, 34));
    assert(GT::spow_steps(GT(gt_of(86, 76)), GT(gt_of(65, 37)), 18) == GT::spow_steps(GT(gt_of(86, 76)), GT(gt_of(28, 7)), 9));
    lemma_gt_mul_at((86, 76), (28, 7), (58, 77), (18, 21));
    lemma_gt_mul_at((28, 7), (28, 7), (28, 40), (7, 3));
    assert(GT::spow_steps(GT(gt_of(86, 76)), GT(gt_of(28, 7)), 9) == GT::spow_steps(GT(gt_of(58, 77)), GT(gt_of(28, 40)), 4));
    lemma_gt_mul_at((28, 40), (28, 40), (93, 34), (-9, 6));
    assert(GT::spow_steps(GT(gt_of(58, 77)), GT(gt_of(28, 40)), 4) == GT::spow_steps(GT(gt_of(58, 77)), GT(gt_of(93, 34)), 2));
    lemma_gt_mul_at((93, 34), (93, 34), (19, 17), (74, 51));
    assert(GT::spow_steps(GT(gt_of(58, 77)), GT(gt_of(93, 34)), 2) == GT::spow_steps(GT(gt_of(58, 77)), GT(gt_of(19, 17)), 1));
    lemma_gt_mul_at((58, 77), (19, 17), (96, 29), (-3, 11));
    lemma_gt_mul_at((19, 17), (19, 17), (72, 54), (0, 3));
    assert(GT::spow_steps(GT(gt_of(58, 77)), GT(gt_of(19, 17)), 1) == GT::spow_steps(GT(gt_of(96, 29)), GT(gt_of(72, 54)), 0));
}

/// The pairing of `13G` with the point `4 P` of the image of `H`.
proof fn lemma_pairing_13_4()
    ensures
        smiller_loop(g1p(65, 3), dq(18, 52)) is Some,
        spairing_at(g1p(65, 3), dq(18, 52)) == GT(gt_of(96, 29)),
{
    lemma_final_exponent();
    lemma_tangent_13_4();
    lemma_tangent_9_4();
    lemma_tangent_1_4();
    lemma_tangent_2_4();
    lemma_vertical_at(65, 98, 3, 18, 52);
    lemma_miller_at(
        g1p(65, 3),
        dq(18, 52),
        (g1p(18, 52), g1p(1, 2), g1p(68, 74), g1p(65, 98)),
        (14, 28),
        (19, 6),
        (54, 5),
        (24, 87),
        (-65, 18),
        ((18, 0, -6, 0), (39, 7, 3, 1), (58, 93, 14, 4), (41, 100, 26, 47)),
        ((64, 18, -83, -18), (71, 91, -1, 43), (9, 88, -62, -63)),
    );
    lemma_final_exp_13_4();
}

proof fn lemma_final_exp_14_4()
    ensures
        GT(gt_of(19, 78)).spow(600) == GT(gt_of(61, 46)),
{
    assert(GT::sone() == GT(gt_of(1, 0)));
    lemma_gt_mul_at((19, 78), (19, 78), (34, 11), (-57, -31));
    assert(GT::spow_steps(GT(gt_of(1, 0)), GT(gt_of(19, 78)), 600) == GT::spow_steps(GT(gt_of(1, 0)), GT(gt_of(34, 11)), 300));
    lemma_gt_mul_at((34, 11), (34, 11), (25, 21), (10, 6));
    assert(GT::spow_steps(GT(gt_of(1, 0)), GT(gt_of(34, 11)), 300) == GT::spow_steps(GT(gt_of(1, 0)), GT(gt_of(25, 21)), 150));
    lemma_gt_mul_at((25, 21), (25, 21), (83, 3), (1, 6));
    assert(GT::spow_steps(GT(gt_of(1, 0)), GT(gt_of(25, 21)), 150) == GT::spow_steps(GT(gt_of(1, 0)), GT(gt_of(83, 3)), 75));
    lemma_gt_mul_at((1, 0), (83, 3), (83, 3), (0, 0));
    lemma_gt_mul_at((83, 3), (83, 3), (12, 85), (68, 4));
    assert(GT::spow_steps(GT(gt_of(1, 0)), GT(gt_of(83, 3)), 75) == GT::spow_steps(GT(gt_of(83, 3)), GT(gt_of(12, 85)), 37));
    lemma_gt_mul_at((83, 3), (12, 85), (34, 69), (7, 67));
    lemma_gt_mul_at((12, 85), (12, 85), (90, 67), (-71, -52));
    assert(GT::spow_steps(GT(gt_of(83, 3)), GT(gt_of(12, 85)), 37) == GT::spow_steps(GT(gt_of(34, 69)), GT(gt_of(90, 67)), 18));
    lemma_gt_mul_at((90, 67), (90, 67), (76, 97), (35, 74));
    assert(GT::spow_steps(GT(gt_of(34, 69)), GT(gt_of(90, 67)), 18) == GT::spow_steps(GT(gt_of(34, 69)), GT(gt_of(76, 97)), 9));
    lemma_gt_mul_at((34, 69), (76, 97), (32, 31), (-41, 18));
    lemma_gt_mul_at((76, 97), (76, 97), (3, 83), (-36, 52));
    assert(GT::spow_steps(GT(gt_of(34, 69)), GT(gt_of(76, 97)), 9) == GT::spow_steps(GT(gt_of(32, 31)), GT(gt_of(3, 83)), 4));
    lemma_gt_mul_at((3, 83), (3, 83), (89, 73), (-69, -64));
    assert(GT::spow_steps(GT(gt_of(32, 31)), GT(gt_of(3, 83)), 4) == GT::spow_steps(GT(gt_of(32, 31)), GT(gt_of(89, 73)), 2));
    lemma_gt_mul_at((89, 73), (89, 73), (67, 90), (25, 75));
    assert(GT::spow_steps(GT(gt_of(32, 31)), GT(gt_of(89, 73)), 2) == GT::spow_steps(GT(gt_of(32, 31)), GT(gt_of(67, 90)), 1));
    lemma_gt_mul_at((32, 31), (67, 90), (61, 46), (-7, 21));
    lemma_gt_mul_at((67, 90), (67, 90), (25, 21), (-36, 39));
    assert(GT::spow_steps(GT(gt_of(32, 31)), GT(gt_of(67, 90)), 1) == GT::spow_steps(GT(gt_of(61, 46)), GT(gt_of(25, 21)), 0));
}

/// The pairing of `14G` with the point `4 P` of the image of `H`.
proof fn lemma_pairing_14_4()
    ensures
        smiller_loop(g1p(26, 56), dq(18, 52)) is Some,
        spairing_at(g1p(26, 56), dq(18, 52)) == GT(gt_of(61, 46)),
{
    lemma_final_exponent();
    lemma_tangent_14_4();
    lemma_tangent_11_4();
    lemma_tangent_5_4();
    lemma_tangent_10_4();
    lemma_vertical_at(26, 45, 56, 18, 52);
    lemma_miller_at(
        g1p(26, 56),
        dq(18, 52),
        (g1p(32, 59), g1p(12, 32), g1p(91, 66), g1p(26, 45)),
        (37, 65),
        (42, 35),
        (85, 36),
        (69, 35),
        (-26, 18),
        ((73, 80, -29, 5), (64, 85, 2, 30), (2, 19, -31, 36), (92, 94, -6, 9)),
        ((32, 77, -4, 83), (18, 1, -5, 37), (19, 78, -5, 2)),
    );
    lemma_final_exp_14_4();
}

proof fn lemma_final_exp_15_4()
    ensures
        GT(gt_of(26, 60)).spow(600) == GT(gt_of(51, 9)),
{
    assert(GT::sone() == GT(gt_of(1, 0)));
    lemma_gt_mul_at((26, 60), (26, 60), (5, 25), (-29, -5));
    assert(GT::spow_steps(GT(gt_of(1, 0)), GT(gt_of(26, 60)), 600) == GT::spow_steps(GT(gt_of(1, 0)), GT(gt_of(5, 25)), 300));
    lemma_gt_mul_at((5, 25), (5, 25), (6, 29), (-6, -4));
    assert(GT::spow_steps(GT(gt_of(1, 0)), GT(gt_of(5, 25)), 300) == GT::spow_steps(GT(gt_of(1, 0)), GT(gt_of(6, 29)), 150));
    lemma_gt_mul_at((6, 29), (6, 29), (3, 12), (-8, -5));
    assert(GT::spow_steps(GT(gt_of(1, 0)), GT(gt_of(6, 29)), 150) == GT::spow_steps(GT(gt_of(1, 0)), GT(gt_of(3, 12)), 75));
    lemma_gt_mul_at((1, 0), (3, 12), (3, 12), (0, 0));
    lemma_gt_mul_at((3, 12), (3, 12), (67, 29), (-2, -1));
    assert(GT::spow_steps(GT(gt_of(1, 0)), GT(gt_of(3, 12)), 75) == GT::spow_steps(GT(gt_of(3, 12)), GT(gt_of(67, 29)), 37));
    lemma_gt_mul_at((3, 12), (67, 29), (55, 38), (-2, 5));
    lemma_gt_mul_at((67, 29), (67, 29), (12, 15), (36, 30));
    assert(GT::spow_steps(GT(gt_of(3, 12)), GT(gt_of(67, 29)), 37) == GT::spow_steps(GT(gt_of(55, 38)), GT(gt_of(12, 15)), 18));
    lemma_gt_mul_at((12, 15), (12, 15), (20, 34), (-1, 1));
    assert(GT::spow_steps(GT(gt_of(55, 38)), GT(gt_of(12, 15)), 18) == GT::spow_steps(GT(gt_of(55, 38)), GT(gt_of(20, 34)), 9));
    lemma_gt_mul_at((55, 38), (20, 34), (10, 25), (-2, 13));
    lemma_gt_mul_at((20, 34), (20, 34), (52, 2), (-8, 2));
    assert(GT::spow_steps(GT(gt_of(55, 38)), GT(gt_of(20, 34)), 9) == GT::spow_steps(GT(gt_of(10, 25)), GT(gt_of(52, 2)), 4));
    lemma_gt_mul_at((52, 2), (52, 2), (74, 2), (26, 2));
    assert(GT::spow_steps(GT(gt_of(10, 25)), GT(gt_of(52, 2)), 4) == GT::spow_steps(GT(gt_of(10, 25)), GT(gt_of(74, 2)), 2));
    lemma_gt_mul_at((74, 2), (74, 2), (18, 90), (54, 2));
    assert(GT::spow_steps(GT(gt_of(10, 25)), GT(gt_of(74, 2)), 2) == GT::spow_steps(GT(gt_of(10, 25)), GT(gt_of(18, 90)), 1));
    lemma_gt_mul_at((10, 25), (18, 90), (51, 9), (-21, -9));
    lemma_gt_mul_at((18, 90), (18, 90), (1, 89), (-77, -49));
    assert(GT::spow_steps(GT(gt_of(10, 25)), GT(gt_of(18, 90)), 1) == GT::spow_steps(GT(gt_of(51, 9)), GT(gt_of(1, 89)), 0));
}

/// The pairing of `15G` with the point `4 P` of the image of `H`.
proof fn lemma_pairing_15_4()
    ensures
        smiller_loop(g1p(68, 27), dq(18, 52)) is Some,
        spairing_at(g1p(68, 27), dq(18, 52)) == GT(gt_of(51, 9)),
{
    lemma_final_exponent();
    lemma_tangent_15_4();
    lemma_tangent_13_4();
    lemma_tangent_9_4();
    lemma_tangent_1_4();
    lemma_vertical_at(68, 74, 27, 18, 52);
    lemma_miller_at(
        g1p(68, 27),
        dq(18, 52),
        (g1p(65, 3), g1p(18, 52), g1p(1, 2), g1p(68, 74)),
        (49, 42),
        (14, 28),
        (19, 6),
        (54, 5),
        (-68, 18),
        ((31, 29, 6, 23), (26, 58, -4, 4), (39, 56, -27, -4), (1, 53, 4, 9)),
        ((20, 24, -28, -27), (51, 64, 9, 12), (26, 60, -46, -46)),
    );
    lemma_final_exp_15_4();
}

proof fn lemma_final_exp_16_4()
    ensures
        GT(gt_of(35, 87)).spow(600) == GT(gt_of(47, 80)),
{
    assert(GT::sone() == GT(gt_of(1, 0)));
    lemma_gt_mul_at((35, 87), (35, 87), (19, 36), (-63, -15));
    assert(GT::spow_steps(GT(gt_of(1, 0)), GT(gt_of(35, 87)), 600) == GT::spow_steps(GT(gt_of(1, 0)), GT(gt_of(19, 36)), 300));
    lemma_gt_mul_at((19, 36), (19, 36), (75, 72), (-10, 0));
    assert(GT::spow_steps(GT(gt_of(1, 0)), GT(gt_of(19, 36)), 300) == GT::spow_steps(GT(gt_of(1, 0)), GT(gt_of(75, 72)), 150));
    lemma_gt_mul_at((75, 72), (75, 72), (37, 61), (4, 55));
    assert(GT::spow_steps(GT(gt_of(1, 0)), GT(gt_of(75, 72)), 150) == GT::spow_steps(GT(gt_of(1, 0)), GT(gt_of(37, 61)), 75));
    lemma_gt_mul_at((1, 0), (37, 61), (37, 61), (0, 0));
    lemma_gt_mul_at((37, 61), (37, 61), (72, 86), (-24, 7));
    assert(GT::spow_steps(GT(gt_of(1, 0)), GT(gt_of(37, 61)), 75) == GT::spow_steps(GT(gt_of(37, 61)), GT(gt_of(72, 86)), 37));
    lemma_gt_mul_at((37, 61), (72, 86), (44, 5), (-26, 23));
    lemma_gt_mul_at((72, 86), (72, 86), (10, 39), (-22, 49));
    assert(GT::spow_steps(GT(gt_of(37, 61)), GT(gt_of(72, 86)), 37) == GT::spow_steps(GT(gt_of(44, 5)), GT(gt_of(10, 39)), 18));
    lemma_gt_mul_at((10, 39), (10, 39), (94, 67), (-15, -8));
    assert(GT::spow_steps(GT(gt_of(44, 5)), GT(gt_of(10, 39)), 18) == GT::spow_steps(GT(gt_of(44, 5)), GT(gt_of(94, 67)), 9));
    lemma_gt_mul_at((44, 5), (94, 67), (64, 53), (37, 30));
    lemma_gt_mul_at((94, 67), (94, 67), (4, 27), (43, 80));
    assert(GT::spow_steps(GT(gt_of(44, 5)), GT(gt_of(94, 67)), 9) == GT::spow_steps(GT(gt_of(64, 53)), GT(gt_of(4, 27)), 4));
    lemma_gt_mul_at((4, 27), (4, 27), (95, 93), (-8, -6));
    assert(GT::spow_steps(GT(gt_of(64, 53)), GT(gt_of(4, 27)), 4) == GT::spow_steps(GT(gt_of(64, 53)), GT(gt_of(95, 93)), 2));
    lemma_gt_mul_at((95, 93), (95, 93), (73, 32), (3, 89));
    assert(GT::spow_steps(GT(gt_of(64, 53)), GT(gt_of(95, 93)), 2) == GT::spow_steps(GT(gt_of(64, 53)), GT(gt_of(73, 32)), 1));
    lemma_gt_mul_at((64, 53), (73, 32), (47, 80), (29, 41));
    lemma_gt_mul_at((73, 32), (73, 32), (63, 12), (42, 36));
    assert(GT::spow_steps(GT(gt_of(64, 53)), GT(gt_of(73, 32)), 1) == GT::spow_steps(GT(gt_of(47, 80)), GT(gt_of(63, 12)), 0));
}

/// The pairing of `16G` with the point `4 P` of the image of `H`.
proof fn lemma_pairing_16_4()
    ensures
        smiller_loop(g1p(1, 99), dq(18, 52)) is Some,
        spairing_at(g1p(1, 99), dq(18, 52)) == GT(gt_of(47, 80)),
{
    lemma_final_exponent();
    lemma_tangent_16_4();
    lemma_tangent_15_4();
    lemma_tangent_13_4();
    lemma_tangent_9_4();
    lemma_vertical_at(1, 2, 99, 18, 52);
    lemma_miller_at(
        g1p(1, 99),
        dq(18, 52),
        (g1p(68, 27), g1p(65, 3), g1p(18, 52), g1p(1, 2)),
        (97, 36),
        (49, 42),
        (14, 28),
        (19, 6),
        (-1, 18),
        ((33, 32, 80, 56), (71, 95, 2, 15), (56, 21, -40, 44), (95, 62, 1, 12)),
        ((30, 58, 51, 78), (20, 25, 2, 9), (35, 87, -5, -2)),
    );
    lemma_final_exp_16_4();
}

proof fn lemma_final_exp_1_5()
    ensures
        GT(gt_of(28, 99)).spow(600) == GT(gt_of(61, 46)),
{
    assert(GT::sone() == GT(gt_of(1, 0)));
    lemma_gt_mul_at((28, 99), (28, 99), (73, 86), (-90, -43));
    assert(GT::spow_steps(GT(gt_of(1, 0)), GT(gt_of(28, 99)), 600) == GT::spow_steps(GT(gt_of(1, 0)), GT(gt_of(73, 86)), 300));
    lemma_gt_mul_at((73, 86), (73, 86), (54, 9), (-21, 51));
    assert(GT::spow_steps(GT(gt_of(1, 0)), GT(gt_of(73, 86)), 300) == GT::spow_steps(GT(gt_of(1, 0)), GT(gt_of(54, 9)), 150));
    lemma_gt_mul_at((54, 9), (54, 9), (7, 83), (28, 8));
    assert(GT::spow_steps(GT(gt_of(1, 0)), GT(gt_of(54, 9)), 150) == GT::spow_steps(GT(gt_of(1, 0)), GT(gt_of(7, 83)), 75));
    lemma_gt_mul_at((1, 0), (7, 83), (7, 83), (0, 0));
    lemma_gt_mul_at((7, 83), (7, 83), (28, 30), (-68, -57));
    assert(GT::spow_steps(GT(gt_of(1, 0)), GT(gt_of(7, 83)), 75) == GT::spow_steps(GT(gt_of(7, 83)), GT(gt_of(28, 30)), 37));
    lemma_gt_mul_at((7, 83), (28, 30), (29, 44), (-23, 0));
    lemma_gt_mul_at((28, 30), (28, 30), (86, 73), (-2, 7));
    assert(GT::spow_steps(GT(gt_of(7, 83)), GT(gt_of(28, 30)), 37) == GT::spow_steps(GT(gt_of(29, 44)), GT(gt_of(86, 73)), 18));
    lemma_gt_mul_at((86, 73), (86, 73), (47, 56), (20, 71));
    assert(GT::spow_steps(GT(gt_of(29, 44)), GT(gt_of(86, 73)), 18) == GT::spow_steps(GT(gt_of(29, 44)), GT(gt_of(47, 56)), 9));
    lemma_gt_mul_at((29, 44), (47, 56), (10, 16), (-11, 12));
    lemma_gt_mul_at((47, 56), (47, 56), (83, 7), (-10, 21));
    assert(GT::spow_steps(GT(gt_of(29, 44)), GT(gt_of(47, 56)), 9) == GT::spow_steps(GT(gt_of(10, 16)), GT(gt_of(83, 7)), 4));
    lemma_gt_mul_at((83, 7), (83, 7), (73, 2), (67, 11));
    assert(GT::spow_steps(GT(gt_of(10, 16)), GT(gt_of(83, 7)), 4) == GT::spow_steps(GT(gt_of(10, 16)), GT(gt_of(73, 2)), 2));
    lemma_gt_mul_at((73, 2), (73, 2), (73, 86), (52, 2));
    assert(GT::spow_steps(GT(gt_of(10, 16)), GT(gt_of(73, 2)), 2) == GT::spow_steps(GT(gt_of(10, 16)), GT(gt_of(73, 86)), 1));
    lemma_gt_mul_at((10, 16), (73, 86), (61, 46), (-7, 6));
    lemma_gt_mul_at((73, 86), (73, 86), (54, 9), (-21, 51));
    assert(GT::spow_steps(GT(gt_of(10, 16)), GT(gt_of(73, 86)), 1) == GT::spow_steps(GT(gt_of(61, 46)), GT(gt_of(54, 9)), 0));
}

/// The pairing of `1G` with the point `5 P` of the image of `H`.
proof fn lemma_pairing_1_5()
    ensures
        smiller_loop(g1p(1, 2), dq(96, 22)) is Some,
        spairing_at(g1p(1, 2), dq(96, 22)) == GT(gt_of(61, 46)),
{
    lemma_final_exponent();
    lemma_tangent_1_5();
    lemma_tangent_2_5();
    lemma_tangent_4_5();
    lemma_tangent_8_5();
    lemma_vertical_at(1, 99, 2, 96, 22);
    lemma_miller_at(
        g1p(1, 2),
        dq(96, 22),
        (g1p(68, 74), g1p(65, 98), g1p(18, 49), g1p(1, 99)),
        (39, 75),
        (77, 87),
        (1, 8),
        (20, 24),
        (-1, 96),
        ((37, 23, -41, 2), (40, 60, 8, 29), (20, 89, -20, 11), (15, 42, -7, -5)),
        ((77, 1, -16, -5), (1, 26, 15, 18), (28, 99, -25, -25)),
    );
    lemma_final_exp_1_5();
}

proof fn lemma_final_exp_2_5()
    ensures
        GT(gt_of(80, 48)).spow(600) == GT(gt_of(90, 62)),
{
    assert(GT::sone() == GT(gt_of(1, 0)));
    lemma_gt_mul_at((80, 48), (80, 48), (56, 23), (40, 53));
    assert(GT::spow_steps(GT(gt_of(1, 0)), GT(gt_of(80, 48)), 600) == GT::spow_steps(GT(gt_of(1, 0)), GT(gt_of(56, 23)), 300));
    lemma_gt_mul_at((56, 23), (56, 23), (82, 27), (25, 20));
    assert(GT::spow_steps(GT(gt_of(1, 0)), GT(gt_of(56, 23)), 300) == GT::spow_steps(GT(gt_of(1, 0)), GT(gt_of(82, 27)), 150));
    lemma_gt_mul_at((82, 27), (82, 27), (36, 63), (59, 36));
    assert(GT::spow_steps(GT(gt_of(1, 0)), GT(gt_of(82, 27)), 150) == GT::spow_steps(GT(gt_of(1, 0)), GT(gt_of(36, 63)), 75));
    lemma_gt_mul_at((1, 0), (36, 63), (36, 63), (0, 0));
    lemma_gt_mul_at((36, 63), (36, 63), (54, 62), (-27, 5));
    assert(GT::spow_steps(GT(gt_of(1, 0)), GT(gt_of(36, 63)), 75) == GT::spow_steps(GT(gt_of(36, 63)), GT(gt_of(54, 62)), 37));
    lemma_gt_mul_at((36, 63), (54, 62), (58, 11), (-20, 17));
    lemma_gt_mul_at((54, 62), (54, 62), (82, 24), (-10, 28));
    assert(GT::spow_steps(GT(gt_of(36, 63)), GT(gt_of(54, 62)), 37) == GT::spow_steps(GT(gt_of(58, 11)), GT(gt_of(82, 24)), 18));
    lemma_gt_mul_at((82, 24), (82, 24), (88, 27), (60, 33));
    assert(GT::spow_steps(GT(gt_of(58, 11)), GT(gt_of(82, 24)), 18) == GT::spow_steps(GT(gt_of(58, 11)), GT(gt_of(88, 27)), 9));
    lemma_gt_mul_at((58, 11), (88, 27), (60, 15), (47, 22));
    lemma_gt_mul_at((88, 27), (88, 27), (46, 84), (69, 39));
    assert(GT::spow_steps(GT(gt_of(58, 11)), GT(gt_of(88, 27)), 9) == GT::spow_steps(GT(gt_of(60, 15)), GT(gt_of(46, 84)), 4));
    lemma_gt_mul_at((46, 84), (46, 84), (9, 66), (-49, 6));
    assert(GT::spow_steps(GT(gt_of(60, 15)), GT(gt_of(46, 84)), 4) == GT::spow_steps(GT(gt_of(60, 15)), GT(gt_of(9, 66)), 2));
    lemma_gt_mul_at((9, 66), (9, 66), (68, 64), (-43, -32));
    assert(GT::spow_steps(GT(gt_of(60, 15)), GT(gt_of(9, 66)), 2) == GT::spow_steps(GT(gt_of(60, 15)), GT(gt_of(68, 64)), 1));
    lemma_gt_mul_at((60, 15), (68, 64), (90, 62), (30, 38));
    lemma_gt_mul_at((68, 64), (68, 64), (23, 63), (5, 45));
    assert(GT::spow_steps(GT(gt_of(60, 15)), GT(gt_of(68, 64)), 1) == GT::spow_steps(GT(gt_of(90, 62)), GT(gt_of(23, 63)), 0));
}

/// The pairing of `2G` with the point `5 P` of the image of `H`.
proof fn lemma_pairing_2_5()
    ensures
        smiller_loop(g1p(68, 74), dq(96, 22)) is Some,
        spairing_at(g1p(68, 74), dq(96, 22)) == GT(gt_of(90, 62)),
{
    lemma_final_exponent();
    lemma_tangent_2_5();
    lemma_tangent_4_5();
    lemma_tangent_8_5();
    lemma_tangent_16_5();
    lemma_vertical_at(68, 27, 74, 96, 22);
    lemma_miller_at(
        g1p(68, 74),
        dq(96, 22),
        (g1p(65, 98), g1p(18, 49), g1p(1, 99), g1p(68, 27)),
        (77, 87),
        (1, 8),
        (20, 24),
        (96, 73),
        (-68, 96),
        ((77, 72, -17, 57), (6, 11, -5, 1), (16, 11, -1, 0), (56, 37, 0, 3)),
        ((50, 48, 17, 27), (84, 7, 12, 47), (80, 48, -64, 68)),
    );
    lemma_final_exp_2_5();
}

proof fn lemma_final_exp_3_5()
    ensures
        GT(gt_of(99, 37)).spow(600) == GT(gt_of(12, 20)),
{
    assert(GT::sone() == GT(gt_of(1, 0)));
    lemma_gt_mul_at((99, 37), (99, 37), (49, 99), (83, 58));
    assert(GT::spow_steps(GT(gt_of(1, 0)), GT(gt_of(99, 37)), 600) == GT::spow_steps(GT(gt_of(1, 0)), GT(gt_of(49, 99)), 300));
    lemma_gt_mul_at((49, 99), (49, 99), (74, 2), (-74, -1));
    assert(GT::spow_steps(GT(gt_of(1, 0)), GT(gt_of(49, 99)), 300) == GT::spow_steps(GT(gt_of(1, 0)), GT(gt_of(74, 2)), 150));
    lemma_gt_mul_at((74, 2), (74, 2), (18, 90), (54, 2));
    assert(GT::spow_steps(GT(gt_of(1, 0)), GT(gt_of(74, 2)), 150) == GT::spow_steps(GT(gt_of(1, 0)), GT(gt_of(18, 90)), 75));
    lemma_gt_mul_at((1, 0), (18, 90), (18, 90), (0, 0));
    lemma_gt_mul_at((18, 90), (18, 90), (1, 89), (-77, -49));
    assert(GT::spow_steps(GT(gt_of(1, 0)), GT(gt_of(18, 90)), 75) == GT::spow_steps(GT(gt_of(18, 90)), GT(gt_of(1, 89)), 37));
    lemma_gt_mul_at((18, 90), (1, 89), (88, 45), (-80, -63));
    lemma_gt_mul_at((1, 89), (1, 89), (59, 34), (-79, -77));
    assert(GT::spow_steps(GT(gt_of(18, 90)), GT(gt_of(1, 89)), 37) == GT::spow_steps(GT(gt_of(88, 45)), GT(gt_of(59, 34)), 18));
    lemma_gt_mul_at((59, 34), (59, 34), (2, 28), (23, 28));
    assert(GT::spow_steps(GT(gt_of(88, 45)), GT(gt_of(59, 34)), 18) == GT::spow_steps(GT(gt_of(88, 45)), GT(gt_of(2, 28)), 9));
    lemma_gt_mul_at((88, 45), (2, 28), (27, 82), (-11, 12));
    lemma_gt_mul_at((2, 28), (2, 28), (28, 35), (-8, -7));
    assert(GT::spow_steps(GT(gt_of(88, 45)), GT(gt_of(2, 28)), 9) == GT::spow_steps(GT(gt_of(27, 82)), GT(gt_of(28, 35)), 4));
    lemma_gt_mul_at((28, 35), (28, 35), (64, 28), (-5, 7));
    assert(GT::spow_steps(GT(gt_of(27, 82)), GT(gt_of(28, 35)), 4) == GT::spow_steps(GT(gt_of(27, 82)), GT(gt_of(64, 28)), 2));
    lemma_gt_mul_at((64, 28), (64, 28), (80, 73), (32, 27));
    assert(GT::spow_steps(GT(gt_of(27, 82)), GT(gt_of(64, 28)), 2) == GT::spow_steps(GT(gt_of(27, 82)), GT(gt_of(80, 73)), 1));
    lemma_gt_mul_at((27, 82), (80, 73), (12, 20), (-38, 25));
    lemma_gt_mul_at((80, 73), (80, 73), (61, 89), (10, 62));
    assert(GT::spow_steps(GT(gt_of(27, 82)), GT(gt_of(80, 73)), 1) == GT::spow_steps(GT(gt_of(12, 20)), GT(gt_of(61, 89)), 0));
}

/// The pairing of `3G` with the point `5 P` of the image of `H`.
proof fn lemma_pairing_3_5()
    ensures
        smiller_loop(g1p(26, 45), dq(96, 22)) is Some,
        spairing_at(g1p(26, 45), dq(96, 22)) == GT(gt_of(12, 20)),
{
    lemma_final_exponent();
    lemma_tangent_3_5();
    lemma_tangent_6_5();
    lemma_tangent_12_5();
    lemma_tangent_7_5();
    lemma_vertical_at(26, 56, 45, 96, 22);
    lemma_miller_at(
        g1p(26, 45),
        dq(96, 22),
        (g1p(32, 42), g1p(12, 69), g1p(91, 35), g1p(26, 56)),
        (10, 85),
        (84, 19),
        (34, 68),
        (5, 61),
        (-26, 96),
        ((46, 30, -71, -55), (62, 97, 32, 27), (91, 94, -56, 25), (35, 63, -33, 29)),
        ((84, 37, -28, 4), (82, 22, -19, 30), (99, 37, -43, 51)),
    );
    lemma_final_exp_3_5();
}

proof fn lemma_final_exp_4_5()
    ensures
        GT(gt_of(30, 55)).spow(600) == GT(gt_of(14, 44)),
{
    assert(GT::sone() == GT(gt_of(1, 0)));
    lemma_gt_mul_at((30, 55), (30, 55), (97, 73), (-22, 2));
    assert(GT::spow_steps(GT(gt_of(1, 0)), GT(gt_of(30, 55)), 600) == GT::spow_steps(GT(gt_of(1, 0)), GT(gt_of(97, 73)), 300));
    lemma_gt_mul_at((97, 73), (97, 73), (40, 46), (40, 87));
    assert(GT::spow_steps(GT(gt_of(1, 0)), GT(gt_of(97, 73)), 300) == GT::spow_steps(GT(gt_of(1, 0)), GT(gt_of(40, 46)), 150));
    lemma_gt_mul_at((40, 46), (40, 46), (90, 49), (-6, 15));
    assert(GT::spow_steps(GT(gt_of(1, 0)), GT(gt_of(40, 46)), 150) == GT::spow_steps(GT(gt_of(1, 0)), GT(gt_of(90, 49)), 75));
    lemma_gt_mul_at((1, 0), (90, 49), (90, 49), (0, 0));
    lemma_gt_mul_at((90, 49), (90, 49), (43, 56), (56, 63));
    assert(GT::spow_steps(GT(gt_of(1, 0)), GT(gt_of(90, 49)), 75) == GT::spow_steps(GT(gt_of(90, 49)), GT(gt_of(43, 56)), 37));
    lemma_gt_mul_at((90, 49), (43, 56), (15, 60), (11, 43));
    lemma_gt_mul_at((43, 56), (43, 56), (26, 64), (-13, 16));
    assert(GT::spow_steps(GT(gt_of(90, 49)), GT(gt_of(43, 56)), 37) == GT::spow_steps(GT(gt_of(15, 60)), GT(gt_of(26, 64)), 18));
    lemma_gt_mul_at((26, 64), (26, 64), (14, 40), (-34, -8));
    assert(GT::spow_steps(GT(gt_of(15, 60)), GT(gt_of(26, 64)), 18) == GT::spow_steps(GT(gt_of(15, 60)), GT(gt_of(14, 40)), 9));
    lemma_gt_mul_at((15, 60), (14, 40), (32, 50), (-22, -10));
    lemma_gt_mul_at((14, 40), (14, 40), (10, 25), (-14, -5));
    assert(GT::spow_steps(GT(gt_of(15, 60)), GT(gt_of(14, 40)), 9) == GT::spow_steps(GT(gt_of(32, 50)), GT(gt_of(10, 25)), 4));
    lemma_gt_mul_at((10, 25), (10, 25), (81, 77), (-6, -2));
    assert(GT::spow_steps(GT(gt_of(32, 50)), GT(gt_of(10, 25)), 4) == GT::spow_steps(GT(gt_of(32, 50)), GT(gt_of(81, 77)), 2));
    lemma_gt_mul_at((81, 77), (81, 77), (26, 81), (6, 64));
    assert(GT::spow_steps(GT(gt_of(32, 50)), GT(gt_of(81, 77)), 2) == GT::spow_steps(GT(gt_of(32, 50)), GT(gt_of(26, 81)), 1));
    lemma_gt_mul_at((32, 50), (26, 81), (14, 44), (-32, -2));
    lemma_gt_mul_at((26, 81), (26, 81), (74, 75), (-59, -24));
    assert(GT::spow_steps(GT(gt_of(32, 50)), GT(gt_of(26, 81)), 1) == GT::spow_steps(GT(gt_of(14, 44)), GT(gt_of(74, 75)), 0));
}

/// The pairing of `4G` with the point `5 P` of the image of `H`.
proof fn lemma_pairing_4_5()
    ensures
        smiller_loop(g1p(65, 98), dq(96, 22)) is Some,
        spairing_at(g1p(65, 98), dq(96, 22)) == GT(gt_of(14, 44)),
{
    lemma_final_exponent();
    lemma_tangent_4_5();
    lemma_tangent_8_5();
    lemma_tangent_16_5();
    lemma_tangent_15_5();
    lemma_vertical_at(65, 3, 98, 96, 22);
    lemma_miller_at(
        g1p(65, 98),
        dq(96, 22),
        (g1p(18, 49), g1p(1, 99), g1p(68, 27), g1p(65, 3)),
        (1, 8),
        (20, 24),
        (96, 73),
        (25, 56),
        (-65, 96),
        ((38, 53, -1, -1), (94, 94, -6, 6), (0, 49, 0, 87), (59, 16, -36, 11)),
        ((94, 16, 31, 16), (40, 21, 14, 47), (30, 55, -46, 4)),
    );
    lemma_final_exp_4_5();
}

proof fn lemma_final_exp_5_5()
    ensures
        GT(gt_of(38, 3)).spow(600) == GT(gt_of(42, 92)),
{
    assert(GT::sone() == GT(gt_of(1, 0)));
    lemma_gt_mul_at((38, 3), (38, 3), (21, 17), (14, 2));
    assert(GT::spow_steps(GT(gt_of(1, 0)), GT(gt_of(38, 3)), 600) == GT::spow_steps(GT(gt_of(1, 0)), GT(gt_of(21, 17)), 300));
    lemma_gt_mul_at((21, 17), (21, 17), (51, 21), (1, 4));
    assert(GT::spow_steps(GT(gt_of(1, 0)), GT(gt_of(21, 17)), 300) == GT::spow_steps(GT(gt_of(1, 0)), GT(gt_of(51, 21)), 150));
    lemma_gt_mul_at((51, 21), (51, 21), (39, 85), (21, 16));
    assert(GT::spow_steps(GT(gt_of(1, 0)), GT(gt_of(51, 21)), 150) == GT::spow_steps(GT(gt_of(1, 0)), GT(gt_of(39, 85)), 75));
    lemma_gt_mul_at((1, 0), (39, 85), (39, 85), (0, 0));
    lemma_gt_mul_at((39, 85), (39, 85), (53, 11), (-57, -6));
    assert(GT::spow_steps(GT(gt_of(1, 0)), GT(gt_of(39, 85)), 75) == GT::spow_steps(GT(gt_of(39, 85)), GT(gt_of(53, 11)), 37));
    lemma_gt_mul_at((39, 85), (53, 11), (21, 60), (11, 39));
    lemma_gt_mul_at((53, 11), (53, 11), (62, 35), (26, 10));
    assert(GT::spow_steps(GT(gt_of(39, 85)), GT(gt_of(53, 11)), 37) == GT::spow_steps(GT(gt_of(21, 60)), GT(gt_of(62, 35)), 18));
    lemma_gt_mul_at((62, 35), (62, 35), (94, 85), (25, 30));
    assert(GT::spow_steps(GT(gt_of(21, 60)), GT(gt_of(62, 35)), 18) == GT::spow_steps(GT(gt_of(21, 60)), GT(gt_of(94, 85)), 9));
    lemma_gt_mul_at((21, 60), (94, 85), (5, 2), (-31, 23));
    lemma_gt_mul_at((94, 85), (94, 85), (96, 69), (15, 86));
    assert(GT::spow_steps(GT(gt_of(21, 60)), GT(gt_of(94, 85)), 9) == GT::spow_steps(GT(gt_of(5, 2)), GT(gt_of(96, 69)), 4));
    lemma_gt_mul_at((96, 69), (96, 69), (11, 3), (44, 84));
    assert(GT::spow_steps(GT(gt_of(5, 2)), GT(gt_of(96, 69)), 4) == GT::spow_steps(GT(gt_of(5, 2)), GT(gt_of(11, 3)), 2));
    lemma_gt_mul_at((11, 3), (11, 3), (11, 57), (1, 0));
    assert(GT::spow_steps(GT(gt_of(5, 2)), GT(gt_of(11, 3)), 2) == GT::spow_steps(GT(gt_of(5, 2)), GT(gt_of(11, 57)), 1));
    lemma_gt_mul_at((5, 2), (11, 57), (42, 92), (-1, 1));
    lemma_gt_mul_at((11, 57), (11, 57), (3, 25), (-31, -20));
    assert(GT::spow_steps(GT(gt_of(5, 2)), GT(gt_of(11, 57)), 1) == GT::spow_steps(GT(gt_of(42, 92)), GT(gt_of(3, 25)), 0));
}

/// The pairing of `5G` with the point `5 P` of the image of `H`.
proof fn lemma_pairing_5_5()
    ensures
        smiller_loop(g1p(12, 32), dq(96, 22)) is Some,
        spairing_at(g1p(12, 32), dq(96, 22)) == GT(gt_of(42, 92)),
{
    lemma_final_exponent();
    lemma_tangent_5_5();
    lemma_tangent_10_5();
    lemma_tangent_3_5();
    lemma_tangent_6_5();
    lemma_vertical_at(12, 69, 32, 96, 22);
    lemma_miller_at(
        g1p(12, 32),
        dq(96, 22),
        (g1p(91, 66), g1p(26, 45), g1p(32, 42), g1p(12, 69)),
        (65, 66),
        (82, 77),
        (10, 85),
        (84, 19),
        (-12, 96),
        ((71, 83, -2, 41), (37, 24, -6, 58), (86, 89, 7, 11), (62, 29, -67, 6)),
        ((74, 28, 29, 27), (28, 95, 56, 31), (38, 3, -94, -75)),
    );
    lemma_final_exp_5_5();
}

proof fn lemma_final_exp_6_5()
    ensures
        GT(gt_of(69, 90)).spow(600) == GT(gt_of(47, 80)),
{
    assert(GT::sone() == GT(gt_of(1, 0)));
    lemma_gt_mul_at((69, 90), (69, 90), (95, 78), (-34, 42));
    assert(GT::spow_steps(GT(gt_of(1, 0)), GT(gt_of(69, 90)), 600) == GT::spow_steps(GT(gt_of(1, 0)), GT(gt_of(95, 78)), 300));
    lemma_gt_mul_at((95, 78), (95, 78), (12, 50), (29, 86));
    assert(GT::spow_steps(GT(gt_of(1, 0)), GT(gt_of(95, 78)), 300) == GT::spow_steps(GT(gt_of(1, 0)), GT(gt_of(12, 50)), 150));
    lemma_gt_mul_at((12, 50), (12, 50), (68, 13), (-24, -13));
    assert(GT::spow_steps(GT(gt_of(1, 0)), GT(gt_of(12, 50)), 150) == GT::spow_steps(GT(gt_of(1, 0)), GT(gt_of(68, 13)), 75));
    lemma_gt_mul_at((1, 0), (68, 13), (68, 13), (0, 0));
    lemma_gt_mul_at((68, 13), (68, 13), (11, 84), (44, 15));
    assert(GT::spow_steps(GT(gt_of(1, 0)), GT(gt_of(68, 13)), 75) == GT::spow_steps(GT(gt_of(68, 13)), GT(gt_of(11, 84)), 37));
    lemma_gt_mul_at((68, 13), (11, 84), (60, 16), (-4, 47));
    lemma_gt_mul_at((11, 84), (11, 84), (34, 44), (-69, -52));
    assert(GT::spow_steps(GT(gt_of(68, 13)), GT(gt_of(11, 84)), 37) == GT::spow_steps(GT(gt_of(60, 16)), GT(gt_of(34, 44)), 18));
    lemma_gt_mul_at((34, 44), (34, 44), (28, 46), (-8, 10));
    assert(GT::spow_steps(GT(gt_of(60, 16)), GT(gt_of(34, 44)), 18) == GT::spow_steps(GT(gt_of(60, 16)), GT(gt_of(28, 46)), 9));
    lemma_gt_mul_at((60, 16), (28, 46), (35, 48), (9, 24));
    lemma_gt_mul_at((28, 46), (28, 46), (82, 56), (-14, 4));
    assert(GT::spow_steps(GT(gt_of(60, 16)), GT(gt_of(28, 46)), 9) == GT::spow_steps(GT(gt_of(35, 48)), GT(gt_of(82, 56)), 4));
    lemma_gt_mul_at((82, 56), (82, 56), (53, 89), (35, 59));
    assert(GT::spow_steps(GT(gt_of(35, 48)), GT(gt_of(82, 56)), 4) == GT::spow_steps(GT(gt_of(35, 48)), GT(gt_of(53, 89)), 2));
    lemma_gt_mul_at((53, 89), (53, 89), (39, 99), (-51, 14));
    assert(GT::spow_steps(GT(gt_of(35, 48)), GT(gt_of(53, 89)), 2) == GT::spow_steps(GT(gt_of(35, 48)), GT(gt_of(39, 99)), 1));
    lemma_gt_mul_at((35, 48), (39, 99), (47, 80), (-34, 5));
    lemma_gt_mul_at((39, 99), (39, 99), (2, 42), (-82, -21));
    assert(GT::spow_steps(GT(gt_of(35, 48)), GT(gt_of(39, 99)), 1) == GT::spow_steps(GT(gt_of(47, 80)), GT(gt_of(2, 42)), 0));
}

/// The pairing of `6G` with the point `5 P` of the image of `H`.
proof fn lemma_pairing_6_5()
    ensures
        smiller_loop(g1p(32, 42), dq(96, 22)) is Some,
        spairing_at(g1p(32, 42), dq(96, 22)) == GT(gt_of(47, 80)),
{
    lemma_final_exponent();
    lemma_tangent_6_5();
    lemma_tangent_12_5();
    lemma_tangent_7_5();
    lemma_tangent_14_5();
    lemma_vertical_at(32, 59, 42, 96, 22);
    lemma_miller_at(
        g1p(32, 42),
        dq(96, 22),
        (g1p(12, 69), g1p(91, 35), g1p(26, 56), g1p(32, 59)),
        (84, 19),
        (34, 68),
        (5, 61),
        (9, 5),
        (-32, 96),
        ((29, 3, 66, 28), (75, 52, 7, 18), (93, 46, 28, 50), (83, 67, -24, 30)),
        ((77, 68, 23, 65), (50, 51, 3, 6), (69, 90, -65, -18)),
    );
    lemma_final_exp_6_5();
}

proof fn lemma_final_exp_7_5()
    ensures
        GT(gt_of(26, 39)).spow(600) == GT(gt_of(96, 29)),
{
    assert(GT::sone() == GT(gt_of(1, 0)));
    lemma_gt_mul_at((26, 39), (26, 39), (64, 2), (-9, 5));
    assert(GT::spow_steps(GT(gt_of(1, 0)), GT(gt_of(26, 39)), 600) == GT::spow_steps(GT(gt_of(1, 0)), GT(gt_of(64, 2)), 300));
    lemma_gt_mul_at((64, 2), (64, 2), (52, 50), (40, 2));
    assert(GT::spow_steps(GT(gt_of(1, 0)), GT(gt_of(64, 2)), 300) == GT::spow_steps(GT(gt_of(1, 0)), GT(gt_of(52, 50)), 150));
    lemma_gt_mul_at((52, 50), (52, 50), (2, 74), (2, 26));
    assert(GT::spow_steps(GT(gt_of(1, 0)), GT(gt_of(52, 50)), 150) == GT::spow_steps(GT(gt_of(1, 0)), GT(gt_of(2, 74)), 75));
    lemma_gt_mul_at((1, 0), (2, 74), (2, 74), (0, 0));
    lemma_gt_mul_at((2, 74), (2, 74), (83, 72), (-55, -52));
    assert(GT::spow_steps(GT(gt_of(1, 0)), GT(gt_of(2, 74)), 75) == GT::spow_steps(GT(gt_of(2, 74)), GT(gt_of(83, 72)), 37));
    lemma_gt_mul_at((2, 74), (83, 72), (90, 49), (-52, 9));
    lemma_gt_mul_at((83, 72), (83, 72), (89, 1), (16, 67));
    assert(GT::spow_steps(GT(gt_of(2, 74)), GT(gt_of(83, 72)), 37) == GT::spow_steps(GT(gt_of(90, 49)), GT(gt_of(89, 1)), 18));
    lemma_gt_mul_at((89, 1), (89, 1), (42, 76), (78, 1));
    assert(GT::spow_steps(GT(gt_of(90, 49)), GT(gt_of(89, 1)), 18) == GT::spow_steps(GT(gt_of(90, 49)), GT(gt_of(42, 76)), 9));
    lemma_gt_mul_at((90, 49), (42, 76), (56, 23), (0, 51));
    lemma_gt_mul_at((42, 76), (42, 76), (28, 2), (-40, 6));
    assert(GT::spow_steps(GT(gt_of(90, 49)), GT(gt_of(42, 76)), 9) == GT::spow_steps(GT(gt_of(56, 23)), GT(gt_of(28, 2)), 4));
    lemma_gt_mul_at((28, 2), (28, 2), (73, 7), (7, 1));
    assert(GT::spow_steps(GT(gt_of(56, 23)), GT(gt_of(28, 2)), 4) == GT::spow_steps(GT(gt_of(56, 23)), GT(gt_of(73, 7)), 2));
    lemma_gt_mul_at((73, 7), (73, 7), (28, 64), (52, 9));
    assert(GT::spow_steps(GT(gt_of(56, 23)), GT(gt_of(73, 7)), 2) == GT::spow_steps(GT(gt_of(56, 23)), GT(gt_of(28, 64)), 1));
    lemma_gt_mul_at((56, 23), (28, 64), (96, 29), (0, 27));
    lemma_gt_mul_at((28, 64), (28, 64), (21, 94), (-33, -6));
    assert(GT::spow_steps(GT(gt_of(56, 23)), GT(gt_of(28, 64)), 1) == GT::spow_steps(GT(gt_of(96, 29)), GT(gt_of(21, 94)), 0));
}

/// The pairing of `7G` with the point `5 P` of the image of `H`.
proof fn lemma_pairing_7_5()
    ensures
        smiller_loop(g1p(91, 35), dq(96, 22)) is Some,
        spairing_at(g1p(91, 35), dq(96, 22)) == GT(gt_of(96, 29)),
{
    lemma_final_exponent();
    lemma_tangent_7_5();
    lemma_tangent_14_5();
    lemma_tangent_11_5();
    lemma_tangent_5_5();
    lemma_vertical_at(91, 66, 35, 96, 22);
    lemma_miller_at(
        g1p(91, 35),
        dq(96, 22),
        (g1p(26, 56), g1p(32, 59), g1p(12, 32), g1p(91, 66)),
        (5, 61),
        (9, 5),
        (29, 59),
        (65, 66),
        (-91, 96),
        ((41, 20, -37, -31), (67, 83, 2, 2), (24, 92, -24, 41), (15, 70, -47, -14)),
        ((72, 28, -47, -28), (4, 78, 28, 46), (26, 39, -78, -141)),
    );
    lemma_final_exp_7_5();
}

proof fn lemma_final_exp_8_5()
    ensures
        GT(gt_of(83, 49)).spow(600) == GT(gt_of(78, 3)),
{
    assert(GT::sone() == GT(gt_of(1, 0)));
    lemma_gt_mul_at((83, 49), (83, 49), (44, 77), (44, 56));
    assert(GT::spow_steps(GT(gt_of(1, 0)), GT(gt_of(83, 49)), 600) == GT::spow_steps(GT(gt_of(1, 0)), GT(gt_of(44, 77)), 300));
    lemma_gt_mul_at((44, 77), (44, 77), (47, 39), (-40, 8));
    assert(GT::spow_steps(GT(gt_of(1, 0)), GT(gt_of(44, 77)), 300) == GT::spow_steps(GT(gt_of(1, 0)), GT(gt_of(47, 39)), 150));
    lemma_gt_mul_at((47, 39), (47, 39), (82, 24), (6, 21));
    assert(GT::spow_steps(GT(gt_of(1, 0)), GT(gt_of(47, 39)), 150) == GT::spow_steps(GT(gt_of(1, 0)), GT(gt_of(82, 24)), 75));
    lemma_gt_mul_at((1, 0), (82, 24), (82, 24), (0, 0));
    lemma_gt_mul_at((82, 24), (82, 24), (88, 27), (60, 33));
    assert(GT::spow_steps(GT(gt_of(1, 0)), GT(gt_of(82, 24)), 75) == GT::spow_steps(GT(gt_of(82, 24)), GT(gt_of(88, 27)), 37));
    lemma_gt_mul_at((82, 24), (88, 27), (3, 42), (65, 36));
    lemma_gt_mul_at((88, 27), (88, 27), (46, 84), (69, 39));
    assert(GT::spow_steps(GT(gt_of(82, 24)), GT(gt_of(88, 27)), 37) == GT::spow_steps(GT(gt_of(3, 42)), GT(gt_of(46, 84)), 18));
    lemma_gt_mul_at((46, 84), (46, 84), (9, 66), (-49, 6));
    assert(GT::spow_steps(GT(gt_of(3, 42)), GT(gt_of(46, 84)), 18) == GT::spow_steps(GT(gt_of(3, 42)), GT(gt_of(9, 66)), 9));
    lemma_gt_mul_at((3, 42), (9, 66), (83, 26), (-28, -22));
    lemma_gt_mul_at((9, 66), (9, 66), (68, 64), (-43, -32));
    assert(GT::spow_steps(GT(gt_of(3, 42)), GT(gt_of(9, 66)), 9) == GT::spow_steps(GT(gt_of(83, 26)), GT(gt_of(68, 64)), 4));
    lemma_gt_mul_at((68, 64), (68, 64), (23, 63), (5, 45));
    assert(GT::spow_steps(GT(gt_of(83, 26)), GT(gt_of(68, 64)), 4) == GT::spow_steps(GT(gt_of(83, 26)), GT(gt_of(23, 63)), 2));
    lemma_gt_mul_at((23, 63), (23, 63), (95, 40), (-35, -11));
    assert(GT::spow_steps(GT(gt_of(83, 26)), GT(gt_of(23, 63)), 2) == GT::spow_steps(GT(gt_of(83, 26)), GT(gt_of(95, 40)), 1));
    lemma_gt_mul_at((83, 26), (95, 40), (78, 3), (67, 47));
    lemma_gt_mul_at((95, 40), (95, 40), (52, 41), (73, 59));
    assert(GT::spow_steps(GT(gt_of(83, 26)), GT(gt_of(95, 40)), 1) == GT::spow_steps(GT(gt_of(78, 3)), GT(gt_of(52, 41)), 0));
}

/// The pairing of `8G` with the point `5 P` of the image of `H`.
proof fn lemma_pairing_8_5()
    ensures
        smiller_loop(g1p(18, 49), dq(96, 22)) is Some,
        spairing_at(g1p(18, 49), dq(96, 22)) == GT(gt_of(78, 3)),
{
    lemma_final_exponent();
    lemma_tangent_8_5();
    lemma_tangent_16_5();
    lemma_tangent_15_5();
    lemma_tangent_13_5();
    lemma_vertical_at(18, 52, 49, 96, 22);
    lemma_miller_at(
        g1p(18, 49),
        dq(96, 22),
        (g1p(1, 99), g1p(68, 27), g1p(65, 3), g1p(18, 52)),
        (20, 24),
        (96, 73),
        (25, 56),
        (12, 88),
        (-18, 96),
        ((26, 81, -2, 3), (17, 24, -34, 37), (16, 38, -3, 2), (90, 21, -18, -3)),
        ((84, 6, 75, 33), (76, 68, 4, 68), (83, 49, -79, -5)),
    );
    lemma_final_exp_8_5();
}

proof fn lemma_final_exp_9_5()
    ensures
        GT(gt_of(67, 95)).spow(600) == GT(gt_of(75, 98)),
{
    assert(GT::sone() == GT(gt_of(1, 0)));
    lemma_gt_mul_at((67, 95), (67, 95), (9, 69), (-45, 36));
    assert(GT::spow_steps(GT(gt_of(1, 0)), GT(gt_of(67, 95)), 600) == GT::spow_steps(GT(gt_of(1, 0)), GT(gt_of(9, 69)), 300));
    lemma_gt_mul_at((9, 69), (9, 69), (67, 16), (-47, -35));
    assert(GT::spow_steps(GT(gt_of(1, 0)), GT(gt_of(9, 69)), 300) == GT::spow_steps(GT(gt_of(1, 0)), GT(gt_of(67, 16)), 150));
    lemma_gt_mul_at((67, 16), (67, 16), (92, 70), (41, 18));
    assert(GT::spow_steps(GT(gt_of(1, 0)), GT(gt_of(67, 16)), 150) == GT::spow_steps(GT(gt_of(1, 0)), GT(gt_of(92, 70)), 75));
    lemma_gt_mul_at((1, 0), (92, 70), (92, 70), (0, 0));
    lemma_gt_mul_at((92, 70), (92, 70), (29, 1), (35, 79));
    assert(GT::spow_steps(GT(gt_of(1, 0)), GT(gt_of(92, 70)), 75) == GT::spow_steps(GT(gt_of(92, 70)), GT(gt_of(29, 1)), 37));
    lemma_gt_mul_at((92, 70), (29, 1), (73, 32), (25, 20));
    lemma_gt_mul_at((29, 1), (29, 1), (32, 57), (8, 0));
    assert(GT::spow_steps(GT(gt_of(92, 70)), GT(gt_of(29, 1)), 37) == GT::spow_steps(GT(gt_of(73, 32)), GT(gt_of(32, 57)), 18));
    lemma_gt_mul_at((32, 57), (32, 57), (98, 96), (-23, 3));
    assert(GT::spow_steps(GT(gt_of(73, 32)), GT(gt_of(32, 57)), 18) == GT::spow_steps(GT(gt_of(73, 32)), GT(gt_of(98, 96)), 9));
    lemma_gt_mul_at((73, 32), (98, 96), (42, 2), (40, 70));
    lemma_gt_mul_at((98, 96), (98, 96), (85, 5), (3, 95));
    assert(GT::spow_steps(GT(gt_of(73, 32)), GT(gt_of(98, 96)), 9) == GT::spow_steps(GT(gt_of(42, 2)), GT(gt_of(85, 5)), 4));
    lemma_gt_mul_at((85, 5), (85, 5), (29, 17), (71, 8));
    assert(GT::spow_steps(GT(gt_of(42, 2)), GT(gt_of(85, 5)), 4) == GT::spow_steps(GT(gt_of(42, 2)), GT(gt_of(29, 17)), 2));
    lemma_gt_mul_at((29, 17), (29, 17), (47, 91), (5, 6));
    assert(GT::spow_steps(GT(gt_of(42, 2)), GT(gt_of(29, 17)), 2) == GT::spow_steps(GT(gt_of(42, 2)), GT(gt_of(47, 91)), 1));
    lemma_gt_mul_at((42, 2), (47, 91), (75, 98), (17, 36));
    lemma_gt_mul_at((47, 91), (47, 91), (89, 71), (-61, 2));
    assert(GT::spow_steps(GT(gt_of(42, 2)), GT(gt_of(47, 91)), 1) == GT::spow_steps(GT(gt_of(75, 98)), GT(gt_of(89, 71)), 0));
}

/// The pairing of `9G` with the point `5 P` of the image of `H`.
proof fn lemma_pairing_9_5()
    ensures
        smiller_loop(g1p(18, 52), dq(96, 22)) is Some,
        spairing_at(g1p(18, 52), dq(96, 22)) == GT(gt_of(75, 98)),
{
    lemma_final_exponent();
    lemma_tangent_9_5();
    lemma_tangent_1_5();
    lemma_tangent_2_5();
    lemma_tangent_4_5();
    lemma_vertical_at(18, 49, 52, 96, 22);
    lemma_miller_at(
        g1p(18, 52),
        dq(96, 22),
        (g1p(1, 2), g1p(68, 74), g1p(65, 98), g1p(18, 49)),
        (99, 49),
        (39, 75),
        (77, 87),
        (1, 8),
        (-18, 96),
        ((27, 29, 73, 72), (90, 72, -12, 9), (88, 100, 28, 76), (96, 91, -20, 65)),
        ((26, 0, 9, 91), (26, 6, 0, 2), (67, 95, -11, 17)),
    );
    lemma_final_exp_9_5();
}

proof fn lemma_final_exp_10_5()
    ensures
        GT(gt_of(50, 10)).spow(600) == GT(gt_of(67, 72)),
{
    assert(GT::sone() == GT(gt_of(1, 0)));
    lemma_gt_mul_at((50, 10), (50, 10), (77, 92), (23, 8));
    assert(GT::spow_steps(GT(gt_of(1, 0)), GT(gt_of(50, 10)), 600) == GT::spow_steps(GT(gt_of(1, 0)), GT(gt_of(77, 92)), 300));
    lemma_gt_mul_at((77, 92), (77, 92), (91, 48), (-26, 56));
    assert(GT::spow_steps(GT(gt_of(1, 0)), GT(gt_of(77, 92)), 300) == GT::spow_steps(GT(gt_of(1, 0)), GT(gt_of(91, 48)), 150));
    lemma_gt_mul_at((91, 48), (91, 48), (18, 69), (59, 63));
    assert(GT::spow_steps(GT(gt_of(1, 0)), GT(gt_of(91, 48)), 150) == GT::spow_steps(GT(gt_of(1, 0)), GT(gt_of(18, 69)), 75));
    lemma_gt_mul_at((1, 0), (18, 69), (18, 69), (0, 0));
    lemma_gt_mul_at((18, 69), (18, 69), (7, 46), (-44, -23));
    assert(GT::spow_steps(GT(gt_of(1, 0)), GT(gt_of(18, 69)), 75) == GT::spow_steps(GT(gt_of(18, 69)), GT(gt_of(7, 46)), 37));
    lemma_gt_mul_at((18, 69), (7, 46), (83, 56), (-31, -19));
    lemma_gt_mul_at((7, 46), (7, 46), (54, 43), (-21, -15));
    assert(GT::spow_steps(GT(gt_of(18, 69)), GT(gt_of(7, 46)), 37) == GT::spow_steps(GT(gt_of(83, 56)), GT(gt_of(54, 43)), 18));
    lemma_gt_mul_at((54, 43), (54, 43), (57, 68), (10, 27));
    assert(GT::spow_steps(GT(gt_of(83, 56)), GT(gt_of(54, 43)), 18) == GT::spow_steps(GT(gt_of(83, 56)), GT(gt_of(57, 68)), 9));
    lemma_gt_mul_at((83, 56), (57, 68), (14, 79), (9, 49));
    lemma_gt_mul_at((57, 68), (57, 68), (39, 98), (-14, 30));
    assert(GT::spow_steps(GT(gt_of(83, 56)), GT(gt_of(57, 68)), 9) == GT::spow_steps(GT(gt_of(14, 79)), GT(gt_of(39, 98)), 4));
    lemma_gt_mul_at((39, 98), (39, 98), (98, 60), (-81, -20));
    assert(GT::spow_steps(GT(gt_of(14, 79)), GT(gt_of(39, 98)), 4) == GT::spow_steps(GT(gt_of(14, 79)), GT(gt_of(98, 60)), 2));
    lemma_gt_mul_at((98, 60), (98, 60), (45, 80), (59, 80));
    assert(GT::spow_steps(GT(gt_of(14, 79)), GT(gt_of(98, 60)), 2) == GT::spow_steps(GT(gt_of(14, 79)), GT(gt_of(45, 80)), 1));
    lemma_gt_mul_at((14, 79), (45, 80), (67, 72), (-57, -17));
    lemma_gt_mul_at((45, 80), (45, 80), (69, 93), (-44, 7));
    assert(GT::spow_steps(GT(gt_of(14, 79)), GT(gt_of(45, 80)), 1) == GT::spow_steps(GT(gt_of(67, 72)), GT(gt_of(69, 93)), 0));
}

/// The pairing of `10G` with the point `5 P` of the image of `H`.
proof fn lemma_pairing_10_5()
    ensures
        smiller_loop(g1p(91, 66), dq(96, 22)) is Some,
        spairing_at(g1p(91, 66), dq(96, 22)) == GT(gt_of(67, 72)),
{
    lemma_final_exponent();
    lemma_tangent_10_5();
    lemma_tangent_3_5();
    lemma_tangent_6_5();
    lemma_tangent_12_5();
    lemma_vertical_at(91, 35, 66, 96, 22);
    lemma_miller_at(
        g1p(91, 66),
        dq(96, 22),
        (g1p(26, 45), g1p(32, 42), g1p(12, 69), g1p(91, 35)),
        (82, 77),
        (10, 85),
        (84, 19),
        (34, 68),
        (-91, 96),
        ((88, 33, 7, 66), (95, 56, -20, 49), (31, 30, 58, 74), (14, 14, 20, 25)),
        ((0, 95, 0, 1), (4, 2, -64, -32), (50, 10, -6, 0)),
    );
    lemma_final_exp_10_5();
}

proof fn lemma_final_exp_11_5()
    ensures
        GT(gt_of(88, 54)).spow(600) == GT(gt_of(68, 21)),
{
    assert(GT::sone() == GT(gt_of(1, 0)));
    lemma_gt_mul_at((88, 54), (88, 54), (81, 23), (47, 65));
    assert(GT::spow_steps(GT(gt_of(1, 0)), GT(gt_of(88, 54)), 600) == GT::spow_steps(GT(gt_of(1, 0)), GT(gt_of(81, 23)), 300));
    lemma_gt_mul_at((81, 23), (81, 23), (73, 66), (59, 31));
    assert(GT::spow_steps(GT(gt_of(1, 0)), GT(gt_of(81, 23)), 300) == GT::spow_steps(GT(gt_of(1, 0)), GT(gt_of(73, 66)), 150));
    lemma_gt_mul_at((73, 66), (73, 66), (64, 28), (9, 52));
    assert(GT::spow_steps(GT(gt_of(1, 0)), GT(gt_of(73, 66)), 150) == GT::spow_steps(GT(gt_of(1, 0)), GT(gt_of(64, 28)), 75));
    lemma_gt_mul_at((1, 0), (64, 28), (64, 28), (0, 0));
    lemma_gt_mul_at((64, 28), (64, 28), (80, 73), (32, 27));
    assert(GT::spow_steps(GT(gt_of(1, 0)), GT(gt_of(64, 28)), 75) == GT::spow_steps(GT(gt_of(64, 28)), GT(gt_of(80, 73)), 37));
    lemma_gt_mul_at((64, 28), (80, 73), (46, 20), (30, 48));
    lemma_gt_mul_at((80, 73), (80, 73), (61, 89), (10, 62));
    assert(GT::spow_steps(GT(gt_of(64, 28)), GT(gt_of(80, 73)), 37) == GT::spow_steps(GT(gt_of(46, 20)), GT(gt_of(61, 89)), 18));
    lemma_gt_mul_at((61, 89), (61, 89), (42, 8), (-42, 29));
    assert(GT::spow_steps(GT(gt_of(46, 20)), GT(gt_of(61, 89)), 18) == GT::spow_steps(GT(gt_of(46, 20)), GT(gt_of(42, 8)), 9));
    lemma_gt_mul_at((46, 20), (42, 8), (55, 38), (17, 10));
    lemma_gt_mul_at((42, 8), (42, 8), (84, 2), (16, 6));
    assert(GT::spow_steps(GT(gt_of(46, 20)), GT(gt_of(42, 8)), 9) == GT::spow_steps(GT(gt_of(55, 38)), GT(gt_of(84, 2)), 4));
    lemma_gt_mul_at((84, 2), (84, 2), (83, 29), (69, 3));
    assert(GT::spow_steps(GT(gt_of(55, 38)), GT(gt_of(84, 2)), 4) == GT::spow_steps(GT(gt_of(55, 38)), GT(gt_of(83, 29)), 2));
    lemma_gt_mul_at((83, 29), (83, 29), (89, 34), (59, 39));
    assert(GT::spow_steps(GT(gt_of(55, 38)), GT(gt_of(83, 29)), 2) == GT::spow_steps(GT(gt_of(55, 38)), GT(gt_of(89, 34)), 1));
    lemma_gt_mul_at((55, 38), (89, 34), (68, 21), (35, 39));
    lemma_gt_mul_at((89, 34), (89, 34), (99, 48), (66, 48));
    assert(GT::spow_steps(GT(gt_of(55, 38)), GT(gt_of(89, 34)), 1) == GT::spow_steps(GT(gt_of(68, 21)), GT(gt_of(99, 48)), 0));
}

/// The pairing of `11G` with the point `5 P` of the image of `H`.
proof fn lemma_pairing_11_5()
    ensures
        smiller_loop(g1p(32, 59), dq(96, 22)) is Some,
        spairing_at(g1p(32, 59), dq(96, 22)) == GT(gt_of(68, 21)),
{
    lemma_final_exponent();
    lemma_tangent_11_5();
    lemma_tangent_5_5();
    lemma_tangent_10_5();
    lemma_tangent_3_5();
    lemma_vertical_at(32, 42, 59, 96, 22);
    lemma_miller_at(
        g1p(32, 59),
        dq(96, 22),
        (g1p(12, 32), g1p(91, 66), g1p(26, 45), g1p(32, 42)),
        (29, 59),
        (65, 66),
        (82, 77),
        (10, 85),
        (-32, 96),
        ((87, 42, -27, -1), (55, 44, 28, 56), (79, 76, 10, 28), (20, 100, 6, 63)),
        ((96, 60, -96, -60), (1, 24, -41, 36), (88, 54, -24, -30)),
    );
    lemma_final_exp_11_5();
}

proof fn lemma_final_exp_12_5()
    ensures
        GT(gt_of(42, 3)).spow(600) == GT(gt_of(51, 9)),
{
    assert(GT::sone() == GT(gt_of(1, 0)));
    lemma_gt_mul_at((42, 3), (42, 3), (38, 41), (17, 2));
    assert(GT::spow_steps(GT(gt_of(1, 0)), GT(gt_of(42, 3)), 600) == GT::spow_steps(GT(gt_of(1, 0)), GT(gt_of(38, 41)), 300));
    lemma_gt_mul_at((38, 41), (38, 41), (66, 21), (-3, 14));
    assert(GT::spow_steps(GT(gt_of(1, 0)), GT(gt_of(38, 41)), 300) == GT::spow_steps(GT(gt_of(1, 0)), GT(gt_of(66, 21)), 150));
    lemma_gt_mul_at((66, 21), (66, 21), (77, 8), (38, 23));
    assert(GT::spow_steps(GT(gt_of(1, 0)), GT(gt_of(66, 21)), 150) == GT::spow_steps(GT(gt_of(1, 0)), GT(gt_of(77, 8)), 75));
    lemma_gt_mul_at((1, 0), (77, 8), (77, 8), (0, 0));
    lemma_gt_mul_at((77, 8), (77, 8), (7, 57), (58, 11));
    assert(GT::spow_steps(GT(gt_of(1, 0)), GT(gt_of(77, 8)), 75) == GT::spow_steps(GT(gt_of(77, 8)), GT(gt_of(7, 57)), 37));
    lemma_gt_mul_at((77, 8), (7, 57), (83, 50), (0, 39));
    lemma_gt_mul_at((7, 57), (7, 57), (32, 74), (-32, -25));
    assert(GT::spow_steps(GT(gt_of(77, 8)), GT(gt_of(7, 57)), 37) == GT::spow_steps(GT(gt_of(83, 50)), GT(gt_of(32, 74)), 18));
    lemma_gt_mul_at((32, 74), (32, 74), (93, 68), (-45, -8));
    assert(GT::spow_steps(GT(gt_of(83, 50)), GT(gt_of(32, 74)), 18) == GT::spow_steps(GT(gt_of(83, 50)), GT(gt_of(93, 68)), 9));
    lemma_gt_mul_at((83, 50), (93, 68), (77, 26), (42, 68));
    lemma_gt_mul_at((93, 68), (93, 68), (86, 45), (39, 79));
    assert(GT::spow_steps(GT(gt_of(83, 50)), GT(gt_of(93, 68)), 9) == GT::spow_steps(GT(gt_of(77, 26)), GT(gt_of(86, 45)), 4));
    lemma_gt_mul_at((86, 45), (86, 45), (18, 59), (53, 56));
    assert(GT::spow_steps(GT(gt_of(77, 26)), GT(gt_of(86, 45)), 4) == GT::spow_steps(GT(gt_of(77, 26)), GT(gt_of(18, 59)), 2));
    lemma_gt_mul_at((18, 59), (18, 59), (75, 57), (-32, -14));
    assert(GT::spow_steps(GT(gt_of(77, 26)), GT(gt_of(18, 59)), 2) == GT::spow_steps(GT(gt_of(77, 26)), GT(gt_of(75, 57)), 1));
    lemma_gt_mul_at((77, 26), (75, 57), (51, 9), (42, 48));
    lemma_gt_mul_at((75, 57), (75, 57), (53, 49), (23, 52));
    assert(GT::spow_steps(GT(gt_of(77, 26)), GT(gt_of(75, 57)), 1) == GT::spow_steps(GT(gt_of(51, 9)), GT(gt_of(53, 49)), 0));
}

/// The pairing of `12G` with the point `5 P` of the image of `H`.
proof fn lemma_pairing_12_5()
    ensures
        smiller_loop(g1p(12, 69), dq(96, 22)) is Some,
        spairing_at(g1p(12, 69), dq(96, 22)) == GT(gt_of(51, 9)),
{
    lemma_final_exponent();
    lemma_tangent_12_5();
    lemma_tangent_7_5();
    lemma_tangent_14_5();
    lemma_tangent_11_5();
    lemma_vertical_at(12, 32, 69, 96, 22);
    lemma_miller_at(
        g1p(12, 69),
        dq(96, 22),
        (g1p(91, 35), g1p(26, 56), g1p(32, 59), g1p(12, 32)),
        (34, 68),
        (5, 61),
        (9, 5),
        (29, 59),
        (-12, 96),
        ((67, 0, -35, 0), (32, 47, 3, 40), (27, 92, -12, 7), (86, 99, -3, 4)),
        ((19, 56, -24, 71), (75, 47, -28, -6), (42, 3, -54, 21)),
    );
    lemma_final_exp_12_5();
}

proof fn lemma_final_exp_13_5()
    ensures
        GT(gt_of(96, 34)).spow(600) == GT(gt_of(71, 57)),
{
    assert(GT::sone() == GT(gt_of(1, 0)));
    lemma_gt_mul_at((96, 34), (96, 34), (81, 19), (79, 53));
    assert(GT::spow_steps(GT(gt_of(1, 0)), GT(gt_of(96, 34)), 600) == GT::spow_steps(GT(gt_of(1, 0)), GT(gt_of(81, 19)), 300));
    lemma_gt_mul_at((81, 19), (81, 19), (39, 91), (61, 26));
    assert(GT::spow_steps(GT(gt_of(1, 0)), GT(gt_of(81, 19)), 300) == GT::spow_steps(GT(gt_of(1, 0)), GT(gt_of(39, 91)), 150));
    lemma_gt_mul_at((39, 91), (39, 91), (7, 29), (-67, -12));
    assert(GT::spow_steps(GT(gt_of(1, 0)), GT(gt_of(39, 91)), 150) == GT::spow_steps(GT(gt_of(1, 0)), GT(gt_of(7, 29)), 75));
    lemma_gt_mul_at((1, 0), (7, 29), (7, 29), (0, 0));
    lemma_gt_mul_at((7, 29), (7, 29), (16, 70), (-8, -5));
    assert(GT::spow_steps(GT(gt_of(1, 0)), GT(gt_of(7, 29)), 75) == GT::spow_steps(GT(gt_of(7, 29)), GT(gt_of(16, 70)), 37));
    lemma_gt_mul_at((7, 29), (16, 70), (1, 35), (-19, -11));
    lemma_gt_mul_at((16, 70), (16, 70), (2, 67), (-46, -27));
    assert(GT::spow_steps(GT(gt_of(7, 29)), GT(gt_of(16, 70)), 37) == GT::spow_steps(GT(gt_of(1, 35)), GT(gt_of(2, 67)), 18));
    lemma_gt_mul_at((2, 67), (2, 67), (60, 21), (-45, -42));
    assert(GT::spow_steps(GT(gt_of(1, 35)), GT(gt_of(2, 67)), 18) == GT::spow_steps(GT(gt_of(1, 35)), GT(gt_of(60, 21)), 9));
    lemma_gt_mul_at((1, 35), (60, 21), (32, 73), (-7, 13));
    lemma_gt_mul_at((60, 21), (60, 21), (28, 59), (31, 20));
    assert(GT::spow_steps(GT(gt_of(1, 35)), GT(gt_of(60, 21)), 9) == GT::spow_steps(GT(gt_of(32, 73)), GT(gt_of(28, 59)), 4));
    lemma_gt_mul_at((28, 59), (28, 59), (30, 25), (-27, -2));
    assert(GT::spow_steps(GT(gt_of(32, 73)), GT(gt_of(28, 59)), 4) == GT::spow_steps(GT(gt_of(32, 73)), GT(gt_of(30, 25)), 2));
    lemma_gt_mul_at((30, 25), (30, 25), (73, 67), (2, 8));
    assert(GT::spow_steps(GT(gt_of(32, 73)), GT(gt_of(30, 25)), 2) == GT::spow_steps(GT(gt_of(32, 73)), GT(gt_of(73, 67)), 1));
    lemma_gt_mul_at((32, 73), (73, 67), (71, 57), (-26, 25));
    lemma_gt_mul_at((73, 67), (73, 67), (32, 41), (8, 52));
    assert(GT::spow_steps(GT(gt_of(32, 73)), GT(gt_of(73, 67)), 1) == GT::spow_steps(GT(gt_of(71, 57)), GT(gt_of(32, 41)), 0));
}

/// The pairing of `13G` with the point `5 P` of the image of `H`.
proof fn lemma_pairing_13_5()
    ensures
        smiller_loop(g1p(65, 3), dq(96, 22)) is Some,
        spairing_at(g1p(65, 3), dq(96, 22)) == GT(gt_of(71, 57)),
{
    lemma_final_exponent();
    lemma_tangent_13_5();
    lemma_tangent_9_5();
    lemma_tangent_1_5();
    lemma_tangent_2_5();
    lemma_vertical_at(65, 98, 3, 96, 22);
    lemma_miller_at(
        g1p(65, 3),
        dq(96, 22),
        (g1p(18, 52), g1p(1, 2), g1p(68, 74), g1p(65, 98)),
        (12, 88),
        (99, 49),
        (39, 75),
        (77, 87),
        (-65, 96),
        ((76, 24, -76, -56), (86, 76, 62, 48), (4, 24, 16, 72), (73, 42, -17, -6)),
        ((30, 25, 35, 43), (34, 37, 1, 23), (96, 34, -58, -27)),
    );
    lemma_final_exp_13_5();
}

proof fn lemma_final_exp_14_5()
    ensures
        GT(gt_of(46, 77)).spow(600) == GT(gt_of(93, 81)),
{
    assert(GT::sone() == GT(gt_of(1, 0)));
    lemma_gt_mul_at((46, 77), (46, 77), (25, 44), (-38, 11));
    assert(GT::spow_steps(GT(gt_of(1, 0)), GT(gt_of(46, 77)), 600) == GT::spow_steps(GT(gt_of(1, 0)), GT(gt_of(25, 44)), 300));
    lemma_gt_mul_at((25, 44), (25, 44), (2, 62), (-13, 2));
    assert(GT::spow_steps(GT(gt_of(1, 0)), GT(gt_of(25, 44)), 300) == GT::spow_steps(GT(gt_of(1, 0)), GT(gt_of(2, 62)), 150));
    lemma_gt_mul_at((2, 62), (2, 62), (99, 40), (-39, -36));
    assert(GT::spow_steps(GT(gt_of(1, 0)), GT(gt_of(2, 62)), 150) == GT::spow_steps(GT(gt_of(1, 0)), GT(gt_of(99, 40)), 75));
    lemma_gt_mul_at((1, 0), (99, 40), (99, 40), (0, 0));
    lemma_gt_mul_at((99, 40), (99, 40), (20, 58), (81, 62));
    assert(GT::spow_steps(GT(gt_of(1, 0)), GT(gt_of(99, 40)), 75) == GT::spow_steps(GT(gt_of(99, 40)), GT(gt_of(20, 58)), 37));
    lemma_gt_mul_at((99, 40), (20, 58), (64, 81), (-4, 41));
    lemma_gt_mul_at((20, 58), (20, 58), (66, 67), (-30, -11));
    assert(GT::spow_steps(GT(gt_of(99, 40)), GT(gt_of(20, 58)), 37) == GT::spow_steps(GT(gt_of(64, 81)), GT(gt_of(66, 67)), 18));
    lemma_gt_mul_at((66, 67), (66, 67), (69, 12), (-2, 43));
    assert(GT::spow_steps(GT(gt_of(64, 81)), GT(gt_of(66, 67)), 18) == GT::spow_steps(GT(gt_of(64, 81)), GT(gt_of(69, 12)), 9));
    lemma_gt_mul_at((64, 81), (69, 12), (10, 32), (34, 53));
    lemma_gt_mul_at((69, 12), (69, 12), (72, 98), (45, 14));
    assert(GT::spow_steps(GT(gt_of(64, 81)), GT(gt_of(69, 12)), 9) == GT::spow_steps(GT(gt_of(10, 32)), GT(gt_of(72, 98)), 4));
    lemma_gt_mul_at((72, 98), (72, 98), (24, 64), (-44, 44));
    assert(GT::spow_steps(GT(gt_of(10, 32)), GT(gt_of(72, 98)), 4) == GT::spow_steps(GT(gt_of(10, 32)), GT(gt_of(24, 64)), 2));
    lemma_gt_mul_at((24, 64), (24, 64), (15, 87), (-35, -11));
    assert(GT::spow_steps(GT(gt_of(10, 32)), GT(gt_of(24, 64)), 2) == GT::spow_steps(GT(gt_of(10, 32)), GT(gt_of(15, 87)), 1));
    lemma_gt_mul_at((10, 32), (15, 87), (93, 81), (-27, -15));
    lemma_gt_mul_at((15, 87), (15, 87), (29, 91), (-73, -50));
    assert(GT::spow_steps(GT(gt_of(10, 32)), GT(gt_of(15, 87)), 1) == GT::spow_steps(GT(gt_of(93, 81)), GT(gt_of(29, 91)), 0));
}

/// The pairing of `14G` with the point `5 P` of the image of `H`.
proof fn lemma_pairing_14_5()
    ensures
        smiller_loop(g1p(26, 56), dq(96, 22)) is Some,
        spairing_at(g1p(26, 56), dq(96, 22)) == GT(gt_of(93, 81)),
{
    lemma_final_exponent();
    lemma_tangent_14_5();
    lemma_tangent_11_5();
    lemma_tangent_5_5();
    lemma_tangent_10_5();
    lemma_vertical_at(26, 45, 56, 96, 22);
    lemma_miller_at(
        g1p(26, 56),
        dq(96, 22),
        (g1p(32, 59), g1p(12, 32), g1p(91, 66), g1p(26, 45)),
        (9, 5),
        (29, 59),
        (65, 66),
        (82, 77),
        (-26, 96),
        ((56, 65, 0, 0), (11, 41, -22, 13), (56, 29, -16, -8), (9, 31, 17, 36)),
        ((29, 1, -9, -4), (79, 16, 22, 22), (46, 77, -36, 55)),
    );
    lemma_final_exp_14_5();
}

proof fn lemma_final_exp_15_5()
    ensures
        GT(gt_of(74, 90)).spow(600) == GT(gt_of(28, 39)),
{
    assert(GT::sone() == GT(gt_of(1, 0)));
    lemma_gt_mul_at((74, 90), (74, 90), (2, 69), (-26, 51));
    assert(GT::spow_steps(GT(gt_of(1, 0)), GT(gt_of(74, 90)), 600) == GT::spow_steps(GT(gt_of(1, 0)), GT(gt_of(2, 69)), 300));
    lemma_gt_mul_at((2, 69), (2, 69), (91, 60), (-48, -45));
    assert(GT::spow_steps(GT(gt_of(1, 0)), GT(gt_of(2, 69)), 300) == GT::spow_steps(GT(gt_of(1, 0)), GT(gt_of(91, 60)), 150));
    lemma_gt_mul_at((91, 60), (91, 60), (35, 48), (46, 72));
    assert(GT::spow_steps(GT(gt_of(1, 0)), GT(gt_of(91, 60)), 150) == GT::spow_steps(GT(gt_of(1, 0)), GT(gt_of(35, 48)), 75));
    lemma_gt_mul_at((1, 0), (35, 48), (35, 48), (0, 0));
    lemma_gt_mul_at((35, 48), (35, 48), (32, 46), (-11, 10));
    assert(GT::spow_steps(GT(gt_of(1, 0)), GT(gt_of(35, 48)), 75) == GT::spow_steps(GT(gt_of(35, 48)), GT(gt_of(32, 46)), 37));
    lemma_gt_mul_at((35, 48), (32, 46), (23, 29), (-11, 9));
    lemma_gt_mul_at((32, 46), (32, 46), (19, 20), (-11, 8));
    assert(GT::spow_steps(GT(gt_of(35, 48)), GT(gt_of(32, 46)), 37) == GT::spow_steps(GT(gt_of(23, 29)), GT(gt_of(19, 20)), 18));
    lemma_gt_mul_at((19, 20), (19, 20), (62, 57), (-1, 3));
    assert(GT::spow_steps(GT(gt_of(23, 29)), GT(gt_of(19, 20)), 18) == GT::spow_steps(GT(gt_of(23, 29)), GT(gt_of(62, 57)), 9));
    lemma_gt_mul_at((23, 29), (62, 57), (76, 42), (-3, 14));
    lemma_gt_mul_at((62, 57), (62, 57), (90, 82), (5, 37));
    assert(GT::spow_steps(GT(gt_of(23, 29)), GT(gt_of(62, 57)), 9) == GT::spow_steps(GT(gt_of(76, 42)), GT(gt_of(90, 82)), 4));
    lemma_gt_mul_at((90, 82), (90, 82), (63, 57), (13, 79));
    assert(GT::spow_steps(GT(gt_of(76, 42)), GT(gt_of(90, 82)), 4) == GT::spow_steps(GT(gt_of(76, 42)), GT(gt_of(63, 57)), 2));
    lemma_gt_mul_at((63, 57), (63, 57), (13, 95), (7, 38));
    assert(GT::spow_steps(GT(gt_of(76, 42)), GT(gt_of(63, 57)), 2) == GT::spow_steps(GT(gt_of(76, 42)), GT(gt_of(13, 95)), 1));
    lemma_gt_mul_at((76, 42), (13, 95), (28, 39), (-30, 37));
    lemma_gt_mul_at((13, 95), (13, 95), (32, 10), (-88, -65));
    assert(GT::spow_steps(GT(gt_of(76, 42)), GT(gt_of(13, 95)), 1) == GT::spow_steps(GT(gt_of(28, 39)), GT(gt_of(32, 10)), 0));
}

/// The pairing of `15G` with the point `5 P` of the image of `H`.
proof fn lemma_pairing_15_5()
    ensures
        smiller_loop(g1p(68, 27), dq(96, 22)) is Some,
        spairing_at(g1p(68, 27), dq(96, 22)) == GT(gt_of(28, 39)),
{
    lemma_final_exponent();
    lemma_tangent_15_5();
    lemma_tangent_13_5();
    lemma_tangent_9_5();
    lemma_tangent_1_5();
    lemma_vertical_at(68, 74, 27, 96, 22);
    lemma_miller_at(
        g1p(68, 27),
        dq(96, 22),
        (g1p(65, 3), g1p(18, 52), g1p(1, 2), g1p(68, 74)),
        (25, 56),
        (12, 88),
        (99, 49),
        (39, 75),
        (-68, 96),
        ((14, 68, -25, -4), (42, 3, -58, -39), (38, 41, 17, 2), (36, 74, 17, 38)),
        ((62, 54, -42, -2), (85, 80, -17, 26), (74, 90, -134, -50)),
    );
    lemma_final_exp_15_5();
}

proof fn lemma_final_exp_16_5()
    ensures
        GT(gt_of(75, 5)).spow(600) == GT(gt_of(15, 55)),
{
    assert(GT::sone() == GT(gt_of(1, 0)));
    lemma_gt_mul_at((75, 5), (75, 5), (45, 18), (55, 7));
    assert(GT::spow_steps(GT(gt_of(1, 0)), GT(gt_of(75, 5)), 600) == GT::spow_steps(GT(gt_of(1, 0)), GT(gt_of(45, 18)), 300));
    lemma_gt_mul_at((45, 18), (45, 18), (85, 84), (16, 12));
    assert(GT::spow_steps(GT(gt_of(1, 0)), GT(gt_of(45, 18)), 300) == GT::spow_steps(GT(gt_of(1, 0)), GT(gt_of(85, 84)), 150));
    lemma_gt_mul_at((85, 84), (85, 84), (68, 53), (1, 71));
    assert(GT::spow_steps(GT(gt_of(1, 0)), GT(gt_of(85, 84)), 150) == GT::spow_steps(GT(gt_of(1, 0)), GT(gt_of(68, 53)), 75));
    lemma_gt_mul_at((1, 0), (68, 53), (68, 53), (0, 0));
    lemma_gt_mul_at((68, 53), (68, 53), (98, 56), (17, 43));
    assert(GT::spow_steps(GT(gt_of(1, 0)), GT(gt_of(68, 53)), 75) == GT::spow_steps(GT(gt_of(68, 53)), GT(gt_of(98, 56)), 37));
    lemma_gt_mul_at((68, 53), (98, 56), (60, 75), (36, 59));
    lemma_gt_mul_at((98, 56), (98, 56), (4, 63), (64, 77));
    assert(GT::spow_steps(GT(gt_of(68, 53)), GT(gt_of(98, 56)), 37) == GT::spow_steps(GT(gt_of(60, 75)), GT(gt_of(4, 63)), 18));
    lemma_gt_mul_at((4, 63), (4, 63), (87, 70), (-40, -35));
    assert(GT::spow_steps(GT(gt_of(60, 75)), GT(gt_of(4, 63)), 18) == GT::spow_steps(GT(gt_of(60, 75)), GT(gt_of(87, 70)), 9));
    lemma_gt_mul_at((60, 75), (87, 70), (71, 21), (-1, 54));
    lemma_gt_mul_at((87, 70), (87, 70), (43, 8), (26, 72));
    assert(GT::spow_steps(GT(gt_of(60, 75)), GT(gt_of(87, 70)), 9) == GT::spow_steps(GT(gt_of(71, 21)), GT(gt_of(43, 8)), 4));
    lemma_gt_mul_at((43, 8), (43, 8), (68, 18), (17, 6));
    assert(GT::spow_steps(GT(gt_of(71, 21)), GT(gt_of(43, 8)), 4) == GT::spow_steps(GT(gt_of(71, 21)), GT(gt_of(68, 18)), 2));
    lemma_gt_mul_at((68, 18), (68, 18), (58, 3), (42, 21));
    assert(GT::spow_steps(GT(gt_of(71, 21)), GT(gt_of(68, 18)), 2) == GT::spow_steps(GT(gt_of(71, 21)), GT(gt_of(58, 3)), 1));
    lemma_gt_mul_at((71, 21), (58, 3), (15, 55), (40, 13));
    lemma_gt_mul_at((58, 3), (58, 3), (22, 36), (33, 3));
    assert(GT::spow_steps(GT(gt_of(71, 21)), GT(gt_of(58, 3)), 1) == GT::spow_steps(GT(gt_of(15, 55)), GT(gt_of(22, 36)), 0));
}

/// The pairing of `16G` with the point `5 P` of the image of `H`.
proof fn lemma_pairing_16_5()
    ensures
        smiller_loop(g1p(1, 99), dq(96, 22)) is Some,
        spairing_at(g1p(1, 99), dq(96, 22)) == GT(gt_of(15, 55)),
{
    lemma_final_exponent();
    lemma_tangent_16_5();
    lemma_tangent_15_5();
    lemma_tangent_13_5();
    lemma_tangent_9_5();
    lemma_vertical_at(1, 2, 99, 96, 22);
    lemma_miller_at(
        g1p(1, 99),
        dq(96, 22),
        (g1p(68, 27), g1p(65, 3), g1p(18, 52), g1p(1, 2)),
        (96, 73),
        (25, 56),
        (12, 88),
        (99, 49),
        (-1, 96),
        ((49, 1, 38, 86), (58, 87, 11, 26), (37, 99, -42, 24), (14, 75, -82, -43)),
        ((25, 10, -54, -35), (66, 8, 19, 17), (75, 5, -9, 55)),
    );
    lemma_final_exp_16_5();
}

proof fn lemma_final_exp_1_6()
    ensures
        GT(gt_of(20, 83)).spow(600) == GT(gt_of(78, 3)),
{
    assert(GT::sone() == GT(gt_of(1, 0)));
    lemma_gt_mul_at((20, 83), (20, 83), (76, 67), (-65, -36));
    assert(GT::spow_steps(GT(gt_of(1, 0)), GT(gt_of(20, 83)), 600) == GT::spow_steps(GT(gt_of(1, 0)), GT(gt_of(76, 67)), 300));
    lemma_gt_mul_at((76, 67), (76, 67), (75, 39), (12, 56));
    assert(GT::spow_steps(GT(gt_of(1, 0)), GT(gt_of(76, 67)), 300) == GT::spow_steps(GT(gt_of(1, 0)), GT(gt_of(75, 39)), 150));
    lemma_gt_mul_at((75, 39), (75, 39), (64, 87), (40, 42));
    assert(GT::spow_steps(GT(gt_of(1, 0)), GT(gt_of(75, 39)), 150) == GT::spow_steps(GT(gt_of(1, 0)), GT(gt_of(64, 87)), 75));
    lemma_gt_mul_at((1, 0), (64, 87), (64, 87), (0, 0));
    lemma_gt_mul_at((64, 87), (64, 87), (62, 32), (-35, 35));
    assert(GT::spow_steps(GT(gt_of(1, 0)), GT(gt_of(64, 87)), 75) == GT::spow_steps(GT(gt_of(64, 87)), GT(gt_of(62, 32)), 37));
    lemma_gt_mul_at((64, 87), (62, 32), (73, 12), (11, 46));
    lemma_gt_mul_at((62, 32), (62, 32), (93, 15), (27, 29));
    assert(GT::spow_steps(GT(gt_of(64, 87)), GT(gt_of(62, 32)), 37) == GT::spow_steps(GT(gt_of(73, 12)), GT(gt_of(93, 15)), 18));
    lemma_gt_mul_at((93, 15), (93, 15), (41, 40), (83, 25));
    assert(GT::spow_steps(GT(gt_of(73, 12)), GT(gt_of(93, 15)), 18) == GT::spow_steps(GT(gt_of(73, 12)), GT(gt_of(41, 40)), 9));
    lemma_gt_mul_at((73, 12), (41, 40), (89, 3), (24, 29));
    lemma_gt_mul_at((41, 40), (41, 40), (81, 64), (0, 16));
    assert(GT::spow_steps(GT(gt_of(73, 12)), GT(gt_of(41, 40)), 9) == GT::spow_steps(GT(gt_of(89, 3)), GT(gt_of(81, 64)), 4));
    lemma_gt_mul_at((81, 64), (81, 64), (41, 10), (24, 62));
    assert(GT::spow_steps(GT(gt_of(89, 3)), GT(gt_of(81, 64)), 4) == GT::spow_steps(GT(gt_of(89, 3)), GT(gt_of(41, 10)), 2));
    lemma_gt_mul_at((41, 10), (41, 10), (66, 13), (15, 7));
    assert(GT::spow_steps(GT(gt_of(89, 3)), GT(gt_of(41, 10)), 2) == GT::spow_steps(GT(gt_of(89, 3)), GT(gt_of(66, 13)), 1));
    lemma_gt_mul_at((89, 3), (66, 13), (78, 3), (57, 13));
    lemma_gt_mul_at((66, 13), (66, 13), (46, 32), (41, 15));
    assert(GT::spow_steps(GT(gt_of(89, 3)), GT(gt_of(66, 13)), 1) == GT::spow_steps(GT(gt_of(78, 3)), GT(gt_of(46, 32)), 0));
}

/// The pairing of `1G` with the point `6 P` of the image of `H`.
proof fn lemma_pairing_1_6()
    ensures
        smiller_loop(g1p(1, 2), dq(12, 32)) is Some,
        spairing_at(g1p(1, 2), dq(12, 32)) == GT(gt_of(78, 3)),
{
    lemma_final_exponent();
    lemma_tangent_1_6();
    lemma_tangent_2_6();
    lemma_tangent_4_6();
    lemma_tangent_8_6();
    lemma_vertical_at(1, 99, 2, 12, 32);
    lemma_miller_at(
        g1p(1, 2),
        dq(12, 32),
        (g1p(68, 74), g1p(65, 98), g1p(18, 49), g1p(1, 99)),
        (2, 85),
        (66, 73),
        (73, 73),
        (97, 8),
        (-1, 12),
        ((51, 84, -72, -69), (62, 4, -28, 31), (91, 76, 37, 4), (85, 78, 10, 65)),
        ((30, 5, 11, 71), (42, 79, 28, 6), (20, 83, -10, -6)),
    );
    lemma_final_exp_1_6();
}

proof fn lemma_final_exp_2_6()
    ensures
        GT(gt_of(31, 7)).spow(600) == GT(gt_of(15, 55)),
{
    assert(GT::sone() == GT(gt_of(1, 0)));
    lemma_gt_mul_at((31, 7), (31, 7), (3, 82), (9, 3));
    assert(GT::spow_steps(GT(gt_of(1, 0)), GT(gt_of(31, 7)), 600) == GT::spow_steps(GT(gt_of(1, 0)), GT(gt_of(3, 82)), 300));
    lemma_gt_mul_at((3, 82), (3, 82), (52, 30), (-67, -62));
    assert(GT::spow_steps(GT(gt_of(1, 0)), GT(gt_of(3, 82)), 300) == GT::spow_steps(GT(gt_of(1, 0)), GT(gt_of(52, 30)), 150));
    lemma_gt_mul_at((52, 30), (52, 30), (87, 99), (17, 21));
    assert(GT::spow_steps(GT(gt_of(1, 0)), GT(gt_of(52, 30)), 150) == GT::spow_steps(GT(gt_of(1, 0)), GT(gt_of(87, 99)), 75));
    lemma_gt_mul_at((1, 0), (87, 99), (87, 99), (0, 0));
    lemma_gt_mul_at((87, 99), (87, 99), (91, 52), (-23, 73));
    assert(GT::spow_steps(GT(gt_of(1, 0)), GT(gt_of(87, 99)), 75) == GT::spow_steps(GT(gt_of(87, 99)), GT(gt_of(91, 52)), 37));
    lemma_gt_mul_at((87, 99), (91, 52), (42, 2), (27, 83));
    lemma_gt_mul_at((91, 52), (91, 52), (22, 94), (55, 66));
    assert(GT::spow_steps(GT(gt_of(87, 99)), GT(gt_of(91, 52)), 37) == GT::spow_steps(GT(gt_of(42, 2)), GT(gt_of(22, 94)), 18));
    lemma_gt_mul_at((22, 94), (22, 94), (31, 47), (-83, -47));
    assert(GT::spow_steps(GT(gt_of(42, 2)), GT(gt_of(22, 94)), 18) == GT::spow_steps(GT(gt_of(42, 2)), GT(gt_of(31, 47)), 9));
    lemma_gt_mul_at((42, 2), (31, 47), (97, 23), (11, 19));
    lemma_gt_mul_at((31, 47), (31, 47), (65, 99), (-13, 6));
    assert(GT::spow_steps(GT(gt_of(42, 2)), GT(gt_of(31, 47)), 9) == GT::spow_steps(GT(gt_of(97, 23)), GT(gt_of(65, 99)), 4));
    lemma_gt_mul_at((65, 99), (65, 99), (80, 39), (-56, 30));
    assert(GT::spow_steps(GT(gt_of(97, 23)), GT(gt_of(65, 99)), 4) == GT::spow_steps(GT(gt_of(97, 23)), GT(gt_of(80, 39)), 2));
    lemma_gt_mul_at((80, 39), (80, 39), (31, 73), (48, 46));
    assert(GT::spow_steps(GT(gt_of(97, 23)), GT(gt_of(80, 39)), 2) == GT::spow_steps(GT(gt_of(97, 23)), GT(gt_of(31, 73)), 1));
    lemma_gt_mul_at((97, 23), (31, 73), (15, 55), (13, 60));
    lemma_gt_mul_at((31, 73), (31, 73), (76, 5), (-44, -8));
    assert(GT::spow_steps(GT(gt_of(97, 23)), GT(gt_of(31, 73)), 1) == GT::spow_steps(GT(gt_of(15, 55)), GT(gt_of(76, 5)), 0));
}

/// The pairing of `2G` with the point `6 P` of the image of `H`.
proof fn lemma_pairing_2_6()
    ensures
        smiller_loop(g1p(68, 74), dq(12, 32)) is Some,
        spairing_at(g1p(68, 74), dq(12, 32)) == GT(gt_of(15, 55)),
{
    lemma_final_exponent();
    lemma_tangent_2_6();
    lemma_tangent_4_6();
    lemma_tangent_8_6();
    lemma_tangent_16_6();
    lemma_vertical_at(68, 27, 74, 12, 32);
    lemma_miller_at(
        g1p(68, 74),
        dq(12, 32),
        (g1p(65, 98), g1p(18, 49), g1p(1, 99), g1p(68, 27)),
        (66, 73),
        (73, 73),
        (97, 8),
        (13, 94),
        (-68, 12),
        ((37, 65, -10, 42), (77, 75, -21, 26), (1, 67, 3, 58), (66, 12, -5, 59)),
        ((71, 26, 41, 14), (95, 23, -16, 45), (31, 7, -67, -7)),
    );
    lemma_final_exp_2_6();
}

proof fn lemma_final_exp_3_6()
    ensures
        GT(gt_of(77, 1)).spow(600) == GT(gt_of(96, 29)),
{
    assert(GT::sone() == GT(gt_of(1, 0)));
    lemma_gt_mul_at((77, 1), (77, 1), (70, 52), (58, 1));
    assert(GT::spow_steps(GT(gt_of(1, 0)), GT(gt_of(77, 1)), 600) == GT::spow_steps(GT(gt_of(1, 0)), GT(gt_of(70, 52)), 300));
    lemma_gt_mul_at((70, 52), (70, 52), (75, 31), (21, 45));
    assert(GT::spow_steps(GT(gt_of(1, 0)), GT(gt_of(70, 52)), 300) == GT::spow_steps(GT(gt_of(1, 0)), GT(gt_of(75, 31)), 150));
    lemma_gt_mul_at((75, 31), (75, 31), (18, 53), (46, 36));
    assert(GT::spow_steps(GT(gt_of(1, 0)), GT(gt_of(75, 31)), 150) == GT::spow_steps(GT(gt_of(1, 0)), GT(gt_of(18, 53)), 75));
    lemma_gt_mul_at((1, 0), (18, 53), (18, 53), (0, 0));
    lemma_gt_mul_at((18, 53), (18, 53), (40, 8), (-25, -9));
    assert(GT::spow_steps(GT(gt_of(1, 0)), GT(gt_of(18, 53)), 75) == GT::spow_steps(GT(gt_of(18, 53)), GT(gt_of(40, 8)), 37));
    lemma_gt_mul_at((18, 53), (40, 8), (94, 22), (2, 18));
    lemma_gt_mul_at((40, 8), (40, 8), (21, 71), (15, 5));
    assert(GT::spow_steps(GT(gt_of(18, 53)), GT(gt_of(40, 8)), 37) == GT::spow_steps(GT(gt_of(94, 22)), GT(gt_of(21, 71)), 18));
    lemma_gt_mul_at((21, 71), (21, 71), (46, 62), (-46, -21));
    assert(GT::spow_steps(GT(gt_of(94, 22)), GT(gt_of(21, 71)), 18) == GT::spow_steps(GT(gt_of(94, 22)), GT(gt_of(46, 62)), 9));
    lemma_gt_mul_at((94, 22), (46, 62), (31, 22), (29, 54));
    lemma_gt_mul_at((46, 62), (46, 62), (90, 42), (-18, 18));
    assert(GT::spow_steps(GT(gt_of(94, 22)), GT(gt_of(46, 62)), 9) == GT::spow_steps(GT(gt_of(31, 22)), GT(gt_of(90, 42)), 4));
    lemma_gt_mul_at((90, 42), (90, 42), (74, 39), (62, 57));
    assert(GT::spow_steps(GT(gt_of(31, 22)), GT(gt_of(90, 42)), 4) == GT::spow_steps(GT(gt_of(31, 22)), GT(gt_of(74, 39)), 2));
    lemma_gt_mul_at((74, 39), (74, 39), (16, 9), (39, 42));
    assert(GT::spow_steps(GT(gt_of(31, 22)), GT(gt_of(74, 39)), 2) == GT::spow_steps(GT(gt_of(31, 22)), GT(gt_of(16, 9)), 1));
    lemma_gt_mul_at((31, 22), (16, 9), (96, 29), (2, 4));
    lemma_gt_mul_at((16, 9), (16, 9), (74, 5), (1, 2));
    assert(GT::spow_steps(GT(gt_of(31, 22)), GT(gt_of(16, 9)), 1) == GT::spow_steps(GT(gt_of(96, 29)), GT(gt_of(74, 5)), 0));
}

/// The pairing of `3G` with the point `6 P` of the image of `H`.
proof fn lemma_pairing_3_6()
    ensures
        smiller_loop(g1p(26, 45), dq(12, 32)) is Some,
        spairing_at(g1p(26, 45), dq(12, 32)) == GT(gt_of(96, 29)),
{
    lemma_final_exponent();
    lemma_tangent_3_6();
    lemma_tangent_6_6();
    lemma_tangent_12_6();
    lemma_tangent_7_6();
    lemma_vertical_at(26, 56, 45, 12, 32);
    lemma_miller_at(
        g1p(26, 45),
        dq(12, 32),
        (g1p(32, 42), g1p(12, 69), g1p(91, 35), g1p(26, 56)),
        (78, 77),
        (50, 0),
        (13, 88),
        (0, 94),
        (-26, 12),
        ((54, 23, 1, 60), (74, 39, 26, 11), (16, 9, 39, 42), (22, 26, -6, 7)),
        ((10, 64, -2, 4), (44, 75, -60, -51), (77, 1, -21, -23)),
    );
    lemma_final_exp_3_6();
}

proof fn lemma_final_exp_4_6()
    ensures
        GT(gt_of(17, 25)).spow(600) == GT(gt_of(28, 39)),
{
    assert(GT::sone() == GT(gt_of(1, 0)));
    lemma_gt_mul_at((17, 25), (17, 25), (68, 23), (-4, 2));
    assert(GT::spow_steps(GT(gt_of(1, 0)), GT(gt_of(17, 25)), 600) == GT::spow_steps(GT(gt_of(1, 0)), GT(gt_of(68, 23)), 300));
    lemma_gt_mul_at((68, 23), (68, 23), (55, 74), (40, 25));
    assert(GT::spow_steps(GT(gt_of(1, 0)), GT(gt_of(68, 23)), 300) == GT::spow_steps(GT(gt_of(1, 0)), GT(gt_of(55, 74)), 150));
    lemma_gt_mul_at((55, 74), (55, 74), (74, 38), (-25, 26));
    assert(GT::spow_steps(GT(gt_of(1, 0)), GT(gt_of(55, 74)), 150) == GT::spow_steps(GT(gt_of(1, 0)), GT(gt_of(74, 38)), 75));
    lemma_gt_mul_at((1, 0), (74, 38), (74, 38), (0, 0));
    lemma_gt_mul_at((74, 38), (74, 38), (93, 39), (39, 41));
    assert(GT::spow_steps(GT(gt_of(1, 0)), GT(gt_of(74, 38)), 75) == GT::spow_steps(GT(gt_of(74, 38)), GT(gt_of(93, 39)), 37));
    lemma_gt_mul_at((74, 38), (93, 39), (47, 90), (53, 48));
    lemma_gt_mul_at((93, 39), (93, 39), (58, 77), (70, 56));
    assert(GT::spow_steps(GT(gt_of(74, 38)), GT(gt_of(93, 39)), 37) == GT::spow_steps(GT(gt_of(47, 90)), GT(gt_of(58, 77)), 18));
    lemma_gt_mul_at((58, 77), (58, 77), (61, 74), (-26, 29));
    assert(GT::spow_steps(GT(gt_of(47, 90)), GT(gt_of(58, 77)), 18) == GT::spow_steps(GT(gt_of(47, 90)), GT(gt_of(61, 74)), 9));
    lemma_gt_mul_at((47, 90), (61, 74), (45, 86), (-38, 22));
    lemma_gt_mul_at((61, 74), (61, 74), (63, 17), (-18, 35));
    assert(GT::spow_steps(GT(gt_of(47, 90)), GT(gt_of(61, 74)), 9) == GT::spow_steps(GT(gt_of(45, 86)), GT(gt_of(63, 17)), 4));
    lemma_gt_mul_at((63, 17), (63, 17), (44, 35), (36, 18));
    assert(GT::spow_steps(GT(gt_of(45, 86)), GT(gt_of(63, 17)), 4) == GT::spow_steps(GT(gt_of(45, 86)), GT(gt_of(44, 35)), 2));
    lemma_gt_mul_at((44, 35), (44, 35), (4, 37), (7, 18));
    assert(GT::spow_steps(GT(gt_of(45, 86)), GT(gt_of(44, 35)), 2) == GT::spow_steps(GT(gt_of(45, 86)), GT(gt_of(4, 37)), 1));
    lemma_gt_mul_at((45, 86), (4, 37), (28, 39), (-30, -12));
    lemma_gt_mul_at((4, 37), (4, 37), (61, 38), (-14, -11));
    assert(GT::spow_steps(GT(gt_of(45, 86)), GT(gt_of(4, 37)), 1) == GT::spow_steps(GT(gt_of(28, 39)), GT(gt_of(61, 38)), 0));
}

/// The pairing of `4G` with the point `6 P` of the image of `H`.
proof fn lemma_pairing_4_6()
    ensures
        smiller_loop(g1p(65, 98), dq(12, 32)) is Some,
        spairing_at(g1p(65, 98), dq(12, 32)) == GT(gt_of(28, 39)),
{
    lemma_final_exponent();
    lemma_tangent_4_6();
    lemma_tangent_8_6();
    lemma_tangent_16_6();
    lemma_tangent_15_6();
    lemma_vertical_at(65, 3, 98, 12, 32);
    lemma_miller_at(
        g1p(65, 98),
        dq(12, 32),
        (g1p(18, 49), g1p(1, 99), g1p(68, 27), g1p(65, 3)),
        (73, 73),
        (97, 8),
        (13, 94),
        (75, 8),
        (-65, 12),
        ((0, 77, 0, 52), (91, 86, -7, 67), (77, 75, 8, 81), (11, 52, -60, 11)),
        ((43, 56, -26, -16), (50, 56, 27, 40), (17, 25, -39, -37)),
    );
    lemma_final_exp_4_6();
}

proof fn lemma_final_exp_5_6()
    ensures
        GT(gt_of(73, 81)).spow(600) == GT(gt_of(47, 80)),
{
    assert(GT::sone() == GT(gt_of(1, 0)));
    lemma_gt_mul_at((73, 81), (73, 81), (81, 13), (-13, 52));
    assert(GT::spow_steps(GT(gt_of(1, 0)), GT(gt_of(73, 81)), 600) == GT::spow_steps(GT(gt_of(1, 0)), GT(gt_of(81, 13)), 300));
    lemma_gt_mul_at((81, 13), (81, 13), (29, 18), (63, 19));
    assert(GT::spow_steps(GT(gt_of(1, 0)), GT(gt_of(81, 13)), 300) == GT::spow_steps(GT(gt_of(1, 0)), GT(gt_of(29, 18)), 150));
    lemma_gt_mul_at((29, 18), (29, 18), (12, 13), (5, 7));
    assert(GT::spow_steps(GT(gt_of(1, 0)), GT(gt_of(29, 18)), 150) == GT::spow_steps(GT(gt_of(1, 0)), GT(gt_of(12, 13)), 75));
    lemma_gt_mul_at((1, 0), (12, 13), (12, 13), (0, 0));
    lemma_gt_mul_at((12, 13), (12, 13), (76, 42), (-1, 1));
    assert(GT::spow_steps(GT(gt_of(1, 0)), GT(gt_of(12, 13)), 75) == GT::spow_steps(GT(gt_of(12, 13)), GT(gt_of(76, 42)), 37));
    lemma_gt_mul_at((12, 13), (76, 42), (63, 37), (3, 9));
    lemma_gt_mul_at((76, 42), (76, 42), (73, 75), (39, 45));
    assert(GT::spow_steps(GT(gt_of(12, 13)), GT(gt_of(76, 42)), 37) == GT::spow_steps(GT(gt_of(63, 37)), GT(gt_of(73, 75)), 18));
    lemma_gt_mul_at((73, 75), (73, 75), (7, 73), (-3, 52));
    assert(GT::spow_steps(GT(gt_of(63, 37)), GT(gt_of(73, 75)), 18) == GT::spow_steps(GT(gt_of(63, 37)), GT(gt_of(7, 73)), 9));
    lemma_gt_mul_at((63, 37), (7, 73), (63, 36), (-23, 21));
    lemma_gt_mul_at((7, 73), (7, 73), (73, 36), (-53, -43));
    assert(GT::spow_steps(GT(gt_of(63, 37)), GT(gt_of(7, 73)), 9) == GT::spow_steps(GT(gt_of(63, 36)), GT(gt_of(73, 36)), 4));
    lemma_gt_mul_at((73, 36), (73, 36), (94, 21), (39, 39));
    assert(GT::spow_steps(GT(gt_of(63, 36)), GT(gt_of(73, 36)), 4) == GT::spow_steps(GT(gt_of(63, 36)), GT(gt_of(94, 21)), 2));
    lemma_gt_mul_at((94, 21), (94, 21), (12, 73), (83, 34));
    assert(GT::spow_steps(GT(gt_of(63, 36)), GT(gt_of(94, 21)), 2) == GT::spow_steps(GT(gt_of(63, 36)), GT(gt_of(12, 73)), 1));
    lemma_gt_mul_at((63, 36), (12, 73), (47, 80), (-19, 23));
    lemma_gt_mul_at((12, 73), (12, 73), (67, 59), (-52, -36));
    assert(GT::spow_steps(GT(gt_of(63, 36)), GT(gt_of(12, 73)), 1) == GT::spow_steps(GT(gt_of(47, 80)), GT(gt_of(67, 59)), 0));
}

/// The pairing of `5G` with the point `6 P` of the image of `H`.
proof fn lemma_pairing_5_6()
    ensures
        smiller_loop(g1p(12, 32), dq(12, 32)) is Some,
        spairing_at(g1p(12, 32), dq(12, 32)) == GT(gt_of(47, 80)),
{
    lemma_final_exponent();
    lemma_tangent_5_6();
    lemma_tangent_10_6();
    lemma_tangent_3_6();
    lemma_tangent_6_6();
    lemma_vertical_at(12, 69, 32, 12, 32);
    lemma_miller_at(
        g1p(12, 32),
        dq(12, 32),
        (g1p(91, 66), g1p(26, 45), g1p(32, 42), g1p(12, 69)),
        (100, 85),
        (91, 57),
        (78, 77),
        (50, 0),
        (-12, 12),
        ((48, 79, 27, 96), (67, 69, -2, 53), (31, 41, -3, 44), (69, 4, -8, 24)),
        ((99, 31, 46, 5), (1, 35, 49, 15), (73, 81, -5, -9)),
    );
    lemma_final_exp_5_6();
}

proof fn lemma_final_exp_6_6()
    ensures
        GT(gt_of(48, 20)).spow(600) == GT(gt_of(93, 81)),
{
    assert(GT::sone() == GT(gt_of(1, 0)));
    lemma_gt_mul_at((48, 20), (48, 20), (86, 5), (18, 15));
    assert(GT::spow_steps(GT(gt_of(1, 0)), GT(gt_of(48, 20)), 600) == GT::spow_steps(GT(gt_of(1, 0)), GT(gt_of(86, 5)), 300));
    lemma_gt_mul_at((86, 5), (86, 5), (99, 27), (72, 8));
    assert(GT::spow_steps(GT(gt_of(1, 0)), GT(gt_of(86, 5)), 300) == GT::spow_steps(GT(gt_of(1, 0)), GT(gt_of(99, 27)), 150));
    lemma_gt_mul_at((99, 27), (99, 27), (83, 72), (89, 45));
    assert(GT::spow_steps(GT(gt_of(1, 0)), GT(gt_of(99, 27)), 150) == GT::spow_steps(GT(gt_of(1, 0)), GT(gt_of(83, 72)), 75));
    lemma_gt_mul_at((1, 0), (83, 72), (83, 72), (0, 0));
    lemma_gt_mul_at((83, 72), (83, 72), (89, 1), (16, 67));
    assert(GT::spow_steps(GT(gt_of(1, 0)), GT(gt_of(83, 72)), 75) == GT::spow_steps(GT(gt_of(83, 72)), GT(gt_of(89, 1)), 37));
    lemma_gt_mul_at((83, 72), (89, 1), (43, 56), (72, 63));
    lemma_gt_mul_at((89, 1), (89, 1), (42, 76), (78, 1));
    assert(GT::spow_steps(GT(gt_of(83, 72)), GT(gt_of(89, 1)), 37) == GT::spow_steps(GT(gt_of(43, 56)), GT(gt_of(42, 76)), 18));
    lemma_gt_mul_at((42, 76), (42, 76), (28, 2), (-40, 6));
    assert(GT::spow_steps(GT(gt_of(43, 56)), GT(gt_of(42, 76)), 18) == GT::spow_steps(GT(gt_of(43, 56)), GT(gt_of(28, 2)), 9));
    lemma_gt_mul_at((43, 56), (28, 2), (82, 27), (10, 15));
    lemma_gt_mul_at((28, 2), (28, 2), (73, 7), (7, 1));
    assert(GT::spow_steps(GT(gt_of(43, 56)), GT(gt_of(28, 2)), 9) == GT::spow_steps(GT(gt_of(82, 27)), GT(gt_of(73, 7)), 4));
    lemma_gt_mul_at((73, 7), (73, 7), (28, 64), (52, 9));
    assert(GT::spow_steps(GT(gt_of(82, 27)), GT(gt_of(73, 7)), 4) == GT::spow_steps(GT(gt_of(82, 27)), GT(gt_of(28, 64)), 2));
    lemma_gt_mul_at((28, 64), (28, 64), (21, 94), (-33, -6));
    assert(GT::spow_steps(GT(gt_of(82, 27)), GT(gt_of(28, 64)), 2) == GT::spow_steps(GT(gt_of(82, 27)), GT(gt_of(21, 94)), 1));
    lemma_gt_mul_at((82, 27), (21, 94), (93, 81), (-9, 56));
    lemma_gt_mul_at((21, 94), (21, 94), (89, 61), (-84, -49));
    assert(GT::spow_steps(GT(gt_of(82, 27)), GT(gt_of(21, 94)), 1) == GT::spow_steps(GT(gt_of(93, 81)), GT(gt_of(89, 61)), 0));
}

/// The pairing of `6G` with the point `6 P` of the image of `H`.
proof fn lemma_pairing_6_6()
    ensures
        smiller_loop(g1p(32, 42), dq(12, 32)) is Some,
        spairing_at(g1p(32, 42), dq(12, 32)) == GT(gt_of(93, 81)),
{
    lemma_final_exponent();
    lemma_tangent_6_6();
    lemma_tangent_12_6();
    lemma_tangent_7_6();
    lemma_tangent_14_6();
    lemma_vertical_at(32, 59, 42, 12, 32);
    lemma_miller_at(
        g1p(32, 42),
        dq(12, 32),
        (g1p(12, 69), g1p(91, 35), g1p(26, 56), g1p(32, 59)),
        (50, 0),
        (13, 88),
        (0, 94),
        (67, 36),
        (-32, 12),
        ((76, 0, 24, 0), (79, 22, 9, 66), (0, 63, 57, 29), (37, 37, -59, -59)),
        ((0, 56, 0, 13), (4, 19, -20, 17), (48, 20, -4, -8)),
    );
    lemma_final_exp_6_6();
}

proof fn lemma_final_exp_7_6()
    ensures
        GT(gt_of(83, 93)).spow(600) == GT(gt_of(42, 92)),
{
    assert(GT::sone() == GT(gt_of(1, 0)));
    lemma_gt_mul_at((83, 93), (83, 93), (58, 22), (-18, 67));
    assert(GT::spow_steps(GT(gt_of(1, 0)), GT(gt_of(83, 93)), 600) == GT::spow_steps(GT(gt_of(1, 0)), GT(gt_of(58, 22)), 300));
    lemma_gt_mul_at((58, 22), (58, 22), (52, 48), (28, 20));
    assert(GT::spow_steps(GT(gt_of(1, 0)), GT(gt_of(58, 22)), 300) == GT::spow_steps(GT(gt_of(1, 0)), GT(gt_of(52, 48)), 150));
    lemma_gt_mul_at((52, 48), (52, 48), (97, 62), (3, 26));
    assert(GT::spow_steps(GT(gt_of(1, 0)), GT(gt_of(52, 48)), 150) == GT::spow_steps(GT(gt_of(1, 0)), GT(gt_of(97, 62)), 75));
    lemma_gt_mul_at((1, 0), (97, 62), (97, 62), (0, 0));
    lemma_gt_mul_at((97, 62), (97, 62), (10, 3), (55, 81));
    assert(GT::spow_steps(GT(gt_of(1, 0)), GT(gt_of(97, 62)), 75) == GT::spow_steps(GT(gt_of(97, 62)), GT(gt_of(10, 3)), 37));
    lemma_gt_mul_at((97, 62), (10, 3), (77, 18), (7, 7));
    lemma_gt_mul_at((10, 3), (10, 3), (91, 51), (0, 0));
    assert(GT::spow_steps(GT(gt_of(97, 62)), GT(gt_of(10, 3)), 37) == GT::spow_steps(GT(gt_of(77, 18)), GT(gt_of(91, 51)), 18));
    lemma_gt_mul_at((91, 51), (91, 51), (24, 15), (56, 66));
    assert(GT::spow_steps(GT(gt_of(77, 18)), GT(gt_of(91, 51)), 18) == GT::spow_steps(GT(gt_of(77, 18)), GT(gt_of(24, 15)), 9));
    lemma_gt_mul_at((77, 18), (24, 15), (63, 4), (15, 13));
    lemma_gt_mul_at((24, 15), (24, 15), (48, 91), (3, 4));
    assert(GT::spow_steps(GT(gt_of(77, 18)), GT(gt_of(24, 15)), 9) == GT::spow_steps(GT(gt_of(63, 4)), GT(gt_of(48, 91)), 4));
    lemma_gt_mul_at((48, 91), (48, 91), (83, 51), (-60, 4));
    assert(GT::spow_steps(GT(gt_of(63, 4)), GT(gt_of(48, 91)), 4) == GT::spow_steps(GT(gt_of(63, 4)), GT(gt_of(83, 51)), 2));
    lemma_gt_mul_at((83, 51), (83, 51), (46, 7), (42, 58));
    assert(GT::spow_steps(GT(gt_of(63, 4)), GT(gt_of(83, 51)), 2) == GT::spow_steps(GT(gt_of(63, 4)), GT(gt_of(46, 7)), 1));
    lemma_gt_mul_at((63, 4), (46, 7), (42, 92), (28, 5));
    lemma_gt_mul_at((46, 7), (46, 7), (47, 90), (20, 5));
    assert(GT::spow_steps(GT(gt_of(63, 4)), GT(gt_of(46, 7)), 1) == GT::spow_steps(GT(gt_of(42, 92)), GT(gt_of(47, 90)), 0));
}

/// The pairing of `7G` with the point `6 P` of the image of `H`.
proof fn lemma_pairing_7_6()
    ensures
        smiller_loop(g1p(91, 35), dq(12, 32)) is Some,
        spairing_at(g1p(91, 35), dq(12, 32)) == GT(gt_of(42, 92)),
{
    lemma_final_exponent();
    lemma_tangent_7_6();
    lemma_tangent_14_6();
    lemma_tangent_11_6();
    lemma_tangent_5_6();
    lemma_vertical_at(91, 66, 35, 12, 32);
    lemma_miller_at(
        g1p(91, 35),
        dq(12, 32),
        (g1p(26, 56), g1p(32, 59), g1p(12, 32), g1p(91, 66)),
        (0, 94),
        (67, 36),
        (25, 88),
        (100, 85),
        (-91, 12),
        ((52, 52, -88, -88), (97, 50, 15, 34), (41, 29, 68, 71), (89, 64, -16, 17)),
        ((88, 24, 37, 72), (94, 63, 66, 77), (83, 93, -93, -54)),
    );
    lemma_final_exp_7_6();
}

proof fn lemma_final_exp_8_6()
    ensures
        GT(gt_of(10, 60)).spow(600) == GT(gt_of(71, 57)),
{
    assert(GT::sone() == GT(gt_of(1, 0)));
    lemma_gt_mul_at((10, 60), (10, 60), (35, 24), (-35, -24));
    assert(GT::spow_steps(GT(gt_of(1, 0)), GT(gt_of(10, 60)), 600) == GT::spow_steps(GT(gt_of(1, 0)), GT(gt_of(35, 24)), 300));
    lemma_gt_mul_at((35, 24), (35, 24), (43, 94), (6, 10));
    assert(GT::spow_steps(GT(gt_of(1, 0)), GT(gt_of(35, 24)), 300) == GT::spow_steps(GT(gt_of(1, 0)), GT(gt_of(43, 94)), 150));
    lemma_gt_mul_at((43, 94), (43, 94), (83, 56), (-70, -8));
    assert(GT::spow_steps(GT(gt_of(1, 0)), GT(gt_of(43, 94)), 150) == GT::spow_steps(GT(gt_of(1, 0)), GT(gt_of(83, 56)), 75));
    lemma_gt_mul_at((1, 0), (83, 56), (83, 56), (0, 0));
    lemma_gt_mul_at((83, 56), (83, 56), (16, 100), (37, 60));
    assert(GT::spow_steps(GT(gt_of(1, 0)), GT(gt_of(83, 56)), 75) == GT::spow_steps(GT(gt_of(83, 56)), GT(gt_of(16, 100)), 37));
    lemma_gt_mul_at((83, 56), (16, 100), (71, 61), (-43, 35));
    lemma_gt_mul_at((16, 100), (16, 100), (53, 68), (-97, -68));
    assert(GT::spow_steps(GT(gt_of(83, 56)), GT(gt_of(16, 100)), 37) == GT::spow_steps(GT(gt_of(71, 61)), GT(gt_of(53, 68)), 18));
    lemma_gt_mul_at((53, 68), (53, 68), (3, 59), (-18, 25));
    assert(GT::spow_steps(GT(gt_of(71, 61)), GT(gt_of(53, 68)), 18) == GT::spow_steps(GT(gt_of(71, 61)), GT(gt_of(3, 59)), 9));
    lemma_gt_mul_at((71, 61), (3, 59), (48, 66), (-34, 7));
    lemma_gt_mul_at((3, 59), (3, 59), (63, 4), (-35, -31));
    assert(GT::spow_steps(GT(gt_of(71, 61)), GT(gt_of(3, 59)), 9) == GT::spow_steps(GT(gt_of(48, 66)), GT(gt_of(63, 4)), 4));
    lemma_gt_mul_at((63, 4), (63, 4), (14, 84), (39, 4));
    assert(GT::spow_steps(GT(gt_of(48, 66)), GT(gt_of(63, 4)), 4) == GT::spow_steps(GT(gt_of(48, 66)), GT(gt_of(14, 84)), 2));
    lemma_gt_mul_at((14, 84), (14, 84), (8, 43), (-68, -47));
    assert(GT::spow_steps(GT(gt_of(48, 66)), GT(gt_of(14, 84)), 2) == GT::spow_steps(GT(gt_of(48, 66)), GT(gt_of(8, 43)), 1));
    lemma_gt_mul_at((48, 66), (8, 43), (71, 57), (-25, -3));
    lemma_gt_mul_at((8, 43), (8, 43), (33, 51), (-18, -12));
    assert(GT::spow_steps(GT(gt_of(48, 66)), GT(gt_of(8, 43)), 1) == GT::spow_steps(GT(gt_of(71, 57)), GT(gt_of(33, 51)), 0));
}

/// The pairing of `8G` with the point `6 P` of the image of `H`.
proof fn lemma_pairing_8_6()
    ensures
        smiller_loop(g1p(18, 49), dq(12, 32)) is Some,
        spairing_at(g1p(18, 49), dq(12, 32)) == GT(gt_of(71, 57)),
{
    lemma_final_exponent();
    lemma_tangent_8_6();
    lemma_tangent_16_6();
    lemma_tangent_15_6();
    lemma_tangent_13_6();
    lemma_vertical_at(18, 52, 49, 12, 32);
    lemma_miller_at(
        g1p(18, 49),
        dq(12, 32),
        (g1p(1, 99), g1p(68, 27), g1p(65, 3), g1p(18, 52)),
        (97, 8),
        (13, 94),
        (75, 8),
        (50, 57),
        (-18, 12),
        ((53, 74, 92, 14), (96, 99, -63, -11), (21, 16, -6, 91), (33, 28, 14, 12)),
        ((2, 54, 3, 10), (52, 39, -30, -3), (10, 60, -14, -6)),
    );
    lemma_final_exp_8_6();
}

proof fn lemma_final_exp_9_6()
    ensures
        GT(gt_of(75, 63)).spow(600) == GT(gt_of(14, 44)),
{
    assert(GT::sone() == GT(gt_of(1, 0)));
    lemma_gt_mul_at((75, 63), (75, 63), (40, 27), (16, 54));
    assert(GT::spow_steps(GT(gt_of(1, 0)), GT(gt_of(75, 63)), 600) == GT::spow_steps(GT(gt_of(1, 0)), GT(gt_of(40, 27)), 300));
    lemma_gt_mul_at((40, 27), (40, 27), (63, 17), (8, 14));
    assert(GT::spow_steps(GT(gt_of(1, 0)), GT(gt_of(40, 27)), 300) == GT::spow_steps(GT(gt_of(1, 0)), GT(gt_of(63, 17)), 150));
    lemma_gt_mul_at((63, 17), (63, 17), (44, 35), (36, 18));
    assert(GT::spow_steps(GT(gt_of(1, 0)), GT(gt_of(63, 17)), 150) == GT::spow_steps(GT(gt_of(1, 0)), GT(gt_of(44, 35)), 75));
    lemma_gt_mul_at((1, 0), (44, 35), (44, 35), (0, 0));
    lemma_gt_mul_at((44, 35), (44, 35), (4, 37), (7, 18));
    assert(GT::spow_steps(GT(gt_of(1, 0)), GT(gt_of(44, 35)), 75) == GT::spow_steps(GT(gt_of(44, 35)), GT(gt_of(4, 37)), 37));
    lemma_gt_mul_at((44, 35), (4, 37), (93, 69), (-12, 4));
    lemma_gt_mul_at((4, 37), (4, 37), (61, 38), (-14, -11));
    assert(GT::spow_steps(GT(gt_of(44, 35)), GT(gt_of(4, 37)), 37) == GT::spow_steps(GT(gt_of(93, 69)), GT(gt_of(61, 38)), 18));
    lemma_gt_mul_at((61, 38), (61, 38), (55, 61), (22, 31));
    assert(GT::spow_steps(GT(gt_of(93, 69)), GT(gt_of(61, 38)), 18) == GT::spow_steps(GT(gt_of(93, 69)), GT(gt_of(55, 61)), 9));
    lemma_gt_mul_at((93, 69), (55, 61), (98, 7), (8, 52));
    lemma_gt_mul_at((55, 61), (55, 61), (11, 60), (-7, 29));
    assert(GT::spow_steps(GT(gt_of(93, 69)), GT(gt_of(55, 61)), 9) == GT::spow_steps(GT(gt_of(98, 7)), GT(gt_of(11, 60)), 4));
    lemma_gt_mul_at((11, 60), (11, 60), (56, 43), (-35, -23));
    assert(GT::spow_steps(GT(gt_of(98, 7)), GT(gt_of(11, 60)), 4) == GT::spow_steps(GT(gt_of(98, 7)), GT(gt_of(56, 43)), 2));
    lemma_gt_mul_at((56, 43), (56, 43), (75, 38), (12, 29));
    assert(GT::spow_steps(GT(gt_of(98, 7)), GT(gt_of(56, 43)), 2) == GT::spow_steps(GT(gt_of(98, 7)), GT(gt_of(75, 38)), 1));
    lemma_gt_mul_at((98, 7), (75, 38), (14, 44), (70, 39));
    lemma_gt_mul_at((75, 38), (75, 38), (40, 14), (41, 42));
    assert(GT::spow_steps(GT(gt_of(98, 7)), GT(gt_of(75, 38)), 1) == GT::spow_steps(GT(gt_of(14, 44)), GT(gt_of(40, 14)), 0));
}

/// The pairing of `9G` with the point `6 P` of the image of `H`.
proof fn lemma_pairing_9_6()
    ensures
        smiller_loop(g1p(18, 52), dq(12, 32)) is Some,
        spairing_at(g1p(18, 52), dq(12, 32)) == GT(gt_of(14, 44)),
{
    lemma_final_exponent();
    lemma_tangent_9_6();
    lemma_tangent_1_6();
    lemma_tangent_2_6();
    lemma_tangent_4_6();
    lemma_vertical_at(18, 49, 52, 12, 32);
    lemma_miller_at(
        g1p(18, 52),
        dq(12, 32),
        (g1p(1, 2), g1p(68, 74), g1p(65, 98), g1p(18, 49)),
        (18, 36),
        (2, 85),
        (66, 73),
        (73, 73),
        (-18, 12),
        ((38, 0, -10, 0), (76, 99, 0, 31), (15, 96, -40, 51), (42, 19, -60, 4)),
        ((90, 23, 13, 12), (43, 5, 48, 65), (75, 63, -9, 3)),
    );
    lemma_final_exp_9_6();
}

proof fn lemma_final_exp_10_6()
    ensures
        GT(gt_of(61, 32)).spow(600) == GT(gt_of(51, 9)),
{
    assert(GT::sone() == GT(gt_of(1, 0)));
    lemma_gt_mul_at((61, 32), (61, 32), (71, 52), (26, 28));
    assert(GT::spow_steps(GT(gt_of(1, 0)), GT(gt_of(61, 32)), 600) == GT::spow_steps(GT(gt_of(1, 0)), GT(gt_of(71, 52)), 300));
    lemma_gt_mul_at((71, 52), (71, 52), (14, 34), (23, 46));
    assert(GT::spow_steps(GT(gt_of(1, 0)), GT(gt_of(71, 52)), 300) == GT::spow_steps(GT(gt_of(1, 0)), GT(gt_of(14, 34)), 150));
    lemma_gt_mul_at((14, 34), (14, 34), (50, 99), (-10, -3));
    assert(GT::spow_steps(GT(gt_of(1, 0)), GT(gt_of(14, 34)), 150) == GT::spow_steps(GT(gt_of(1, 0)), GT(gt_of(50, 99)), 75));
    lemma_gt_mul_at((1, 0), (50, 99), (50, 99), (0, 0));
    lemma_gt_mul_at((50, 99), (50, 99), (72, 99), (-73, 0));
    assert(GT::spow_steps(GT(gt_of(1, 0)), GT(gt_of(50, 99)), 75) == GT::spow_steps(GT(gt_of(50, 99)), GT(gt_of(72, 99)), 37));
    lemma_gt_mul_at((50, 99), (72, 99), (61, 55), (-62, 22));
    lemma_gt_mul_at((72, 99), (72, 99), (29, 11), (-46, 44));
    assert(GT::spow_steps(GT(gt_of(50, 99)), GT(gt_of(72, 99)), 37) == GT::spow_steps(GT(gt_of(61, 55)), GT(gt_of(29, 11)), 18));
    lemma_gt_mul_at((29, 11), (29, 11), (13, 12), (7, 5));
    assert(GT::spow_steps(GT(gt_of(61, 55)), GT(gt_of(29, 11)), 18) == GT::spow_steps(GT(gt_of(61, 55)), GT(gt_of(13, 12)), 9));
    lemma_gt_mul_at((61, 55), (13, 12), (32, 80), (1, 7));
    lemma_gt_mul_at((13, 12), (13, 12), (25, 67), (0, 1));
    assert(GT::spow_steps(GT(gt_of(61, 55)), GT(gt_of(13, 12)), 9) == GT::spow_steps(GT(gt_of(32, 80)), GT(gt_of(25, 67)), 4));
    lemma_gt_mul_at((25, 67), (25, 67), (75, 73), (-39, -12));
    assert(GT::spow_steps(GT(gt_of(32, 80)), GT(gt_of(25, 67)), 4) == GT::spow_steps(GT(gt_of(32, 80)), GT(gt_of(75, 73)), 2));
    lemma_gt_mul_at((75, 73), (75, 73), (94, 66), (2, 55));
    assert(GT::spow_steps(GT(gt_of(32, 80)), GT(gt_of(75, 73)), 2) == GT::spow_steps(GT(gt_of(32, 80)), GT(gt_of(94, 66)), 1));
    lemma_gt_mul_at((32, 80), (94, 66), (51, 9), (-23, 43));
    lemma_gt_mul_at((94, 66), (94, 66), (36, 73), (44, 79));
    assert(GT::spow_steps(GT(gt_of(32, 80)), GT(gt_of(94, 66)), 1) == GT::spow_steps(GT(gt_of(51, 9)), GT(gt_of(36, 73)), 0));
}

/// The pairing of `10G` with the point `6 P` of the image of `H`.
proof fn lemma_pairing_10_6()
    ensures
        smiller_loop(g1p(91, 66), dq(12, 32)) is Some,
        spairing_at(g1p(91, 66), dq(12, 32)) == GT(gt_of(51, 9)),
{
    lemma_final_exponent();
    lemma_tangent_10_6();
    lemma_tangent_3_6();
    lemma_tangent_6_6();
    lemma_tangent_12_6();
    lemma_vertical_at(91, 35, 66, 12, 32);
    lemma_miller_at(
        g1p(91, 66),
        dq(12, 32),
        (g1p(26, 45), g1p(32, 42), g1p(12, 69), g1p(91, 35)),
        (91, 57),
        (78, 77),
        (50, 0),
        (13, 88),
        (-91, 12),
        ((83, 55, 49, 70), (17, 83, 22, 63), (66, 74, -66, -41), (68, 64, 32, 36)),
        ((23, 63, 5, 45), (7, 26, -52, -27), (61, 32, -10, -26)),
    );
    lemma_final_exp_10_6();
}

proof fn lemma_final_exp_11_6()
    ensures
        GT(gt_of(60, 43)).spow(600) == GT(gt_of(12, 20)),
{
    assert(GT::sone() == GT(gt_of(1, 0)));
    lemma_gt_mul_at((60, 43), (60, 43), (34, 79), (17, 32));
    assert(GT::spow_steps(GT(gt_of(1, 0)), GT(gt_of(60, 43)), 600) == GT::spow_steps(GT(gt_of(1, 0)), GT(gt_of(34, 79)), 300));
    lemma_gt_mul_at((34, 79), (34, 79), (66, 40), (-51, -9));
    assert(GT::spow_steps(GT(gt_of(1, 0)), GT(gt_of(34, 79)), 300) == GT::spow_steps(GT(gt_of(1, 0)), GT(gt_of(66, 40)), 150));
    lemma_gt_mul_at((66, 40), (66, 40), (29, 44), (27, 36));
    assert(GT::spow_steps(GT(gt_of(1, 0)), GT(gt_of(66, 40)), 150) == GT::spow_steps(GT(gt_of(1, 0)), GT(gt_of(29, 44)), 75));
    lemma_gt_mul_at((1, 0), (29, 44), (29, 44), (0, 0));
    lemma_gt_mul_at((29, 44), (29, 44), (16, 10), (-11, 6));
    assert(GT::spow_steps(GT(gt_of(1, 0)), GT(gt_of(29, 44)), 75) == GT::spow_steps(GT(gt_of(29, 44)), GT(gt_of(16, 10)), 37));
    lemma_gt_mul_at((29, 44), (16, 10), (24, 49), (0, 5));
    lemma_gt_mul_at((16, 10), (16, 10), (55, 18), (1, 2));
    assert(GT::spow_steps(GT(gt_of(29, 44)), GT(gt_of(16, 10)), 37) == GT::spow_steps(GT(gt_of(24, 49)), GT(gt_of(55, 18)), 18));
    lemma_gt_mul_at((55, 18), (55, 18), (75, 40), (26, 16));
    assert(GT::spow_steps(GT(gt_of(24, 49)), GT(gt_of(55, 18)), 18) == GT::spow_steps(GT(gt_of(24, 49)), GT(gt_of(75, 40)), 9));
    lemma_gt_mul_at((24, 49), (75, 40), (42, 49), (-2, 26));
    lemma_gt_mul_at((75, 40), (75, 40), (86, 57), (39, 43));
    assert(GT::spow_steps(GT(gt_of(24, 49)), GT(gt_of(75, 40)), 9) == GT::spow_steps(GT(gt_of(42, 49)), GT(gt_of(86, 57)), 4));
    lemma_gt_mul_at((86, 57), (86, 57), (6, 91), (41, 64));
    assert(GT::spow_steps(GT(gt_of(42, 49)), GT(gt_of(86, 57)), 4) == GT::spow_steps(GT(gt_of(42, 49)), GT(gt_of(6, 91)), 2));
    lemma_gt_mul_at((6, 91), (6, 91), (37, 83), (-82, -72));
    assert(GT::spow_steps(GT(gt_of(42, 49)), GT(gt_of(6, 91)), 2) == GT::spow_steps(GT(gt_of(42, 49)), GT(gt_of(37, 83)), 1));
    lemma_gt_mul_at((42, 49), (37, 83), (12, 20), (-25, 12));
    lemma_gt_mul_at((37, 83), (37, 83), (35, 61), (-55, -8));
    assert(GT::spow_steps(GT(gt_of(42, 49)), GT(gt_of(37, 83)), 1) == GT::spow_steps(GT(gt_of(12, 20)), GT(gt_of(35, 61)), 0));
}

/// The pairing of `11G` with the point `6 P` of the image of `H`.
proof fn lemma_pairing_11_6()
    ensures
        smiller_loop(g1p(32, 59), dq(12, 32)) is Some,
        spairing_at(g1p(32, 59), dq(12, 32)) == GT(gt_of(12, 20)),
{
    lemma_final_exponent();
    lemma_tangent_11_6();
    lemma_tangent_5_6();
    lemma_tangent_10_6();
    lemma_tangent_3_6();
    lemma_vertical_at(32, 42, 59, 12, 32);
    lemma_miller_at(
        g1p(32, 59),
        dq(12, 32),
        (g1p(12, 32), g1p(91, 66), g1p(26, 45), g1p(32, 42)),
        (25, 88),
        (100, 85),
        (91, 57),
        (78, 77),
        (-32, 12),
        ((52, 90, -71, -34), (75, 13, -25, 57), (2, 64, 54, 17), (69, 68, -35, 22)),
        ((36, 13, 1, 47), (90, 58, 17, 27), (60, 43, -36, -15)),
    );
    lemma_final_exp_11_6();
}

proof fn lemma_final_exp_12_6()
    ensures
        GT(gt_of(14, 29)).spow(600) == GT(gt_of(68, 21)),
{
    assert(GT::sone() == GT(gt_of(1, 0)));
    lemma_gt_mul_at((14, 29), (14, 29), (62, 72), (-7, -1));
    assert(GT::spow_steps(GT(gt_of(1, 0)), GT(gt_of(14, 29)), 600) == GT::spow_steps(GT(gt_of(1, 0)), GT(gt_of(62, 72)), 300));
    lemma_gt_mul_at((62, 72), (62, 72), (74, 7), (-14, 37));
    assert(GT::spow_steps(GT(gt_of(1, 0)), GT(gt_of(62, 72)), 300) == GT::spow_steps(GT(gt_of(1, 0)), GT(gt_of(74, 7)), 150));
    lemma_gt_mul_at((74, 7), (74, 7), (74, 78), (53, 9));
    assert(GT::spow_steps(GT(gt_of(1, 0)), GT(gt_of(74, 7)), 150) == GT::spow_steps(GT(gt_of(1, 0)), GT(gt_of(74, 78)), 75));
    lemma_gt_mul_at((1, 0), (74, 78), (74, 78), (0, 0));
    lemma_gt_mul_at((74, 78), (74, 78), (99, 6), (-7, 54));
    assert(GT::spow_steps(GT(gt_of(1, 0)), GT(gt_of(74, 78)), 75) == GT::spow_steps(GT(gt_of(74, 78)), GT(gt_of(99, 6)), 37));
    lemma_gt_mul_at((74, 78), (99, 6), (91, 22), (67, 76));
    lemma_gt_mul_at((99, 6), (99, 6), (69, 41), (96, 11));
    assert(GT::spow_steps(GT(gt_of(74, 78)), GT(gt_of(99, 6)), 37) == GT::spow_steps(GT(gt_of(91, 22)), GT(gt_of(69, 41)), 18));
    lemma_gt_mul_at((69, 41), (69, 41), (50, 38), (30, 39));
    assert(GT::spow_steps(GT(gt_of(91, 22)), GT(gt_of(69, 41)), 18) == GT::spow_steps(GT(gt_of(91, 22)), GT(gt_of(50, 38)), 9));
    lemma_gt_mul_at((91, 22), (50, 38), (78, 86), (36, 36));
    lemma_gt_mul_at((50, 38), (50, 38), (46, 33), (10, 23));
    assert(GT::spow_steps(GT(gt_of(91, 22)), GT(gt_of(50, 38)), 9) == GT::spow_steps(GT(gt_of(78, 86)), GT(gt_of(46, 33)), 4));
    lemma_gt_mul_at((46, 33), (46, 33), (17, 28), (10, 19));
    assert(GT::spow_steps(GT(gt_of(78, 86)), GT(gt_of(46, 33)), 4) == GT::spow_steps(GT(gt_of(78, 86)), GT(gt_of(17, 28)), 2));
    lemma_gt_mul_at((17, 28), (17, 28), (10, 67), (-5, 1));
    assert(GT::spow_steps(GT(gt_of(78, 86)), GT(gt_of(17, 28)), 2) == GT::spow_steps(GT(gt_of(78, 86)), GT(gt_of(10, 67)), 1));
    lemma_gt_mul_at((78, 86), (10, 67), (68, 21), (-50, 3));
    lemma_gt_mul_at((10, 67), (10, 67), (55, 83), (-44, -32));
    assert(GT::spow_steps(GT(gt_of(78, 86)), GT(gt_of(10, 67)), 1) == GT::spow_steps(GT(gt_of(68, 21)), GT(gt_of(55, 83)), 0));
}

/// The pairing of `12G` with the point `6 P` of the image of `H`.
proof fn lemma_pairing_12_6()
    ensures
        smiller_loop(g1p(12, 69), dq(12, 32)) is Some,
        spairing_at(g1p(12, 69), dq(12, 32)) == GT(gt_of(68, 21)),
{
    lemma_final_exponent();
    lemma_tangent_12_6();
    lemma_tangent_7_6();
    lemma_tangent_14_6();
    lemma_tangent_11_6();
    lemma_vertical_at(12, 32, 69, 12, 32);
    lemma_miller_at(
        g1p(12, 69),
        dq(12, 32),
        (g1p(91, 35), g1p(26, 56), g1p(32, 59), g1p(12, 32)),
        (13, 88),
        (0, 94),
        (67, 36),
        (25, 88),
        (-12, 12),
        ((0, 99, -75, -55), (87, 87, -93, -93), (0, 95, 0, 74), (14, 16, -34, 29)),
        ((41, 91, -1, 1), (87, 97, -70, -22), (14, 29, -22, -13)),
    );
    lemma_final_exp_12_6();
}

proof fn lemma_final_exp_13_6()
    ensures
        GT(gt_of(96, 35)).spow(600) == GT(gt_of(90, 62)),
{
    assert(GT::sone() == GT(gt_of(1, 0)));
    lemma_gt_mul_at((96, 35), (96, 35), (12, 41), (79, 54));
    assert(GT::spow_steps(GT(gt_of(1, 0)), GT(gt_of(96, 35)), 600) == GT::spow_steps(GT(gt_of(1, 0)), GT(gt_of(12, 41)), 300));
    lemma_gt_mul_at((12, 41), (12, 41), (79, 10), (-16, -7));
    assert(GT::spow_steps(GT(gt_of(1, 0)), GT(gt_of(12, 41)), 300) == GT::spow_steps(GT(gt_of(1, 0)), GT(gt_of(79, 10)), 150));
    lemma_gt_mul_at((79, 10), (79, 10), (81, 66), (60, 14));
    assert(GT::spow_steps(GT(gt_of(1, 0)), GT(gt_of(79, 10)), 150) == GT::spow_steps(GT(gt_of(1, 0)), GT(gt_of(81, 66)), 75));
    lemma_gt_mul_at((1, 0), (81, 66), (81, 66), (0, 0));
    lemma_gt_mul_at((81, 66), (81, 66), (84, 74), (21, 62));
    assert(GT::spow_steps(GT(gt_of(1, 0)), GT(gt_of(81, 66)), 75) == GT::spow_steps(GT(gt_of(81, 66)), GT(gt_of(84, 74)), 37));
    lemma_gt_mul_at((81, 66), (84, 74), (1, 89), (19, 65));
    lemma_gt_mul_at((84, 74), (84, 74), (65, 88), (15, 68));
    assert(GT::spow_steps(GT(gt_of(81, 66)), GT(gt_of(84, 74)), 37) == GT::spow_steps(GT(gt_of(1, 89)), GT(gt_of(65, 88)), 18));
    lemma_gt_mul_at((65, 88), (65, 88), (16, 60), (-35, 36));
    assert(GT::spow_steps(GT(gt_of(1, 89)), GT(gt_of(65, 88)), 18) == GT::spow_steps(GT(gt_of(1, 89)), GT(gt_of(16, 60)), 9));
    lemma_gt_mul_at((1, 89), (16, 60), (29, 83), (-53, -39));
    lemma_gt_mul_at((16, 60), (16, 60), (90, 37), (-34, -17));
    assert(GT::spow_steps(GT(gt_of(1, 89)), GT(gt_of(16, 60)), 9) == GT::spow_steps(GT(gt_of(29, 83)), GT(gt_of(90, 37)), 4));
    lemma_gt_mul_at((90, 37), (90, 37), (65, 39), (66, 52));
    assert(GT::spow_steps(GT(gt_of(29, 83)), GT(gt_of(90, 37)), 4) == GT::spow_steps(GT(gt_of(29, 83)), GT(gt_of(65, 39)), 2));
    lemma_gt_mul_at((65, 39), (65, 39), (78, 14), (26, 35));
    assert(GT::spow_steps(GT(gt_of(29, 83)), GT(gt_of(65, 39)), 2) == GT::spow_steps(GT(gt_of(29, 83)), GT(gt_of(78, 14)), 1));
    lemma_gt_mul_at((29, 83), (78, 14), (90, 62), (10, 56));
    lemma_gt_mul_at((78, 14), (78, 14), (30, 69), (58, 19));
    assert(GT::spow_steps(GT(gt_of(29, 83)), GT(gt_of(78, 14)), 1) == GT::spow_steps(GT(gt_of(90, 62)), GT(gt_of(30, 69)), 0));
}

/// The pairing of `13G` with the point `6 P` of the image of `H`.
proof fn lemma_pairing_13_6()
    ensures
        smiller_loop(g1p(65, 3), dq(12, 32)) is Some,
        spairing_at(g1p(65, 3), dq(12, 32)) == GT(gt_of(90, 62)),
{
    lemma_final_exponent();
    lemma_tangent_13_6();
    lemma_tangent_9_6();
    lemma_tangent_1_6();
    lemma_tangent_2_6();
    lemma_vertical_at(65, 98, 3, 12, 32);
    lemma_miller_at(
        g1p(65, 3),
        dq(12, 32),
        (g1p(18, 52), g1p(1, 2), g1p(68, 74), g1p(65, 98)),
        (50, 57),
        (18, 36),
        (2, 85),
        (66, 73),
        (-65, 12),
        ((59, 27, -8, 24), (90, 22, 0, 16), (41, 42, 75, 34), (47, 100, -35, -1)),
        ((87, 6, -78, -6), (52, 47, 52, 62), (96, 35, -40, -30)),
    );
    lemma_final_exp_13_6();
}

proof fn lemma_final_exp_14_6()
    ensures
        GT(gt_of(73, 55)).spow(600) == GT(gt_of(67, 72)),
{
    assert(GT::sone() == GT(gt_of(1, 0)));
    lemma_gt_mul_at((73, 55), (73, 55), (82, 56), (22, 49));
    assert(GT::spow_steps(GT(gt_of(1, 0)), GT(gt_of(73, 55)), 600) == GT::spow_steps(GT(gt_of(1, 0)), GT(gt_of(82, 56)), 300));
    lemma_gt_mul_at((82, 56), (82, 56), (53, 89), (35, 59));
    assert(GT::spow_steps(GT(gt_of(1, 0)), GT(gt_of(82, 56)), 300) == GT::spow_steps(GT(gt_of(1, 0)), GT(gt_of(53, 89)), 150));
    lemma_gt_mul_at((53, 89), (53, 89), (39, 99), (-51, 14));
    assert(GT::spow_steps(GT(gt_of(1, 0)), GT(gt_of(53, 89)), 150) == GT::spow_steps(GT(gt_of(1, 0)), GT(gt_of(39, 99)), 75));
    lemma_gt_mul_at((1, 0), (39, 99), (39, 99), (0, 0));
    lemma_gt_mul_at((39, 99), (39, 99), (2, 42), (-82, -21));
    assert(GT::spow_steps(GT(gt_of(1, 0)), GT(gt_of(39, 99)), 75) == GT::spow_steps(GT(gt_of(39, 99)), GT(gt_of(2, 42)), 37));
    lemma_gt_mul_at((39, 99), (2, 42), (61, 1), (-41, -23));
    lemma_gt_mul_at((2, 42), (2, 42), (58, 20), (-18, -16));
    assert(GT::spow_steps(GT(gt_of(39, 99)), GT(gt_of(2, 42)), 37) == GT::spow_steps(GT(gt_of(61, 1)), GT(gt_of(58, 20)), 18));
    lemma_gt_mul_at((58, 20), (58, 20), (35, 1), (29, 19));
    assert(GT::spow_steps(GT(gt_of(61, 1)), GT(gt_of(58, 20)), 18) == GT::spow_steps(GT(gt_of(61, 1)), GT(gt_of(35, 1)), 9));
    lemma_gt_mul_at((61, 1), (35, 1), (13, 95), (21, 0));
    lemma_gt_mul_at((35, 1), (35, 1), (12, 69), (12, 0));
    assert(GT::spow_steps(GT(gt_of(61, 1)), GT(gt_of(35, 1)), 9) == GT::spow_steps(GT(gt_of(13, 95)), GT(gt_of(12, 69)), 4));
    lemma_gt_mul_at((12, 69), (12, 69), (29, 26), (-46, -31));
    assert(GT::spow_steps(GT(gt_of(13, 95)), GT(gt_of(12, 69)), 4) == GT::spow_steps(GT(gt_of(13, 95)), GT(gt_of(29, 26)), 2));
    lemma_gt_mul_at((29, 26), (29, 26), (64, 24), (1, 8));
    assert(GT::spow_steps(GT(gt_of(13, 95)), GT(gt_of(29, 26)), 2) == GT::spow_steps(GT(gt_of(13, 95)), GT(gt_of(64, 24)), 1));
    lemma_gt_mul_at((13, 95), (64, 24), (67, 72), (-15, 40));
    lemma_gt_mul_at((64, 24), (64, 24), (86, 72), (34, 24));
    assert(GT::spow_steps(GT(gt_of(13, 95)), GT(gt_of(64, 24)), 1) == GT::spow_steps(GT(gt_of(67, 72)), GT(gt_of(86, 72)), 0));
}

/// The pairing of `14G` with the point `6 P` of the image of `H`.
proof fn lemma_pairing_14_6()
    ensures
        smiller_loop(g1p(26, 56), dq(12, 32)) is Some,
        spairing_at(g1p(26, 56), dq(12, 32)) == GT(gt_of(67, 72)),
{
    lemma_final_exponent();
    lemma_tangent_14_6();
    lemma_tangent_11_6();
    lemma_tangent_5_6();
    lemma_tangent_10_6();
    lemma_vertical_at(26, 45, 56, 12, 32);
    lemma_miller_at(
        g1p(26, 56),
        dq(12, 32),
        (g1p(32, 59), g1p(12, 32), g1p(91, 66), g1p(26, 45)),
        (67, 36),
        (25, 88),
        (100, 85),
        (91, 57),
        (-26, 12),
        ((62, 94, 31, 34), (45, 39, -67, -5), (100, 70, 4, 19), (10, 56, 40, 94)),
        ((95, 4, -31, -20), (34, 97, 83, 54), (73, 55, -21, -33)),
    );
    lemma_final_exp_14_6();
}

proof fn lemma_final_exp_15_6()
    ensures
        GT(gt_of(86, 66)).spow(600) == GT(gt_of(61, 46)),
{
    assert(GT::sone() == GT(gt_of(1, 0)));
    lemma_gt_mul_at((86, 66), (86, 66), (10, 27), (30, 69));
    assert(GT::spow_steps(GT(gt_of(1, 0)), GT(gt_of(86, 66)), 600) == GT::spow_steps(GT(gt_of(1, 0)), GT(gt_of(10, 27)), 300));
    lemma_gt_mul_at((10, 27), (10, 27), (78, 13), (-7, -2));
    assert(GT::spow_steps(GT(gt_of(1, 0)), GT(gt_of(10, 27)), 300) == GT::spow_steps(GT(gt_of(1, 0)), GT(gt_of(78, 13)), 150));
    lemma_gt_mul_at((78, 13), (78, 13), (57, 41), (58, 18));
    assert(GT::spow_steps(GT(gt_of(1, 0)), GT(gt_of(78, 13)), 150) == GT::spow_steps(GT(gt_of(1, 0)), GT(gt_of(57, 41)), 75));
    lemma_gt_mul_at((1, 0), (57, 41), (57, 41), (0, 0));
    lemma_gt_mul_at((57, 41), (57, 41), (53, 64), (15, 29));
    assert(GT::spow_steps(GT(gt_of(1, 0)), GT(gt_of(57, 41)), 75) == GT::spow_steps(GT(gt_of(57, 41)), GT(gt_of(53, 64)), 37));
    lemma_gt_mul_at((57, 41), (53, 64), (94, 66), (3, 31));
    lemma_gt_mul_at((53, 64), (53, 64), (26, 62), (-13, 26));
    assert(GT::spow_steps(GT(gt_of(57, 41)), GT(gt_of(53, 64)), 37) == GT::spow_steps(GT(gt_of(94, 66)), GT(gt_of(26, 62)), 18));
    lemma_gt_mul_at((26, 62), (26, 62), (64, 87), (-32, -7));
    assert(GT::spow_steps(GT(gt_of(94, 66)), GT(gt_of(26, 62)), 18) == GT::spow_steps(GT(gt_of(94, 66)), GT(gt_of(64, 87)), 9));
    lemma_gt_mul_at((94, 66), (64, 87), (72, 95), (2, 65));
    lemma_gt_mul_at((64, 87), (64, 87), (62, 32), (-35, 35));
    assert(GT::spow_steps(GT(gt_of(94, 66)), GT(gt_of(64, 87)), 9) == GT::spow_steps(GT(gt_of(72, 95)), GT(gt_of(62, 32)), 4));
    lemma_gt_mul_at((62, 32), (62, 32), (93, 15), (27, 29));
    assert(GT::spow_steps(GT(gt_of(72, 95)), GT(gt_of(62, 32)), 4) == GT::spow_steps(GT(gt_of(72, 95)), GT(gt_of(93, 15)), 2));
    lemma_gt_mul_at((93, 15), (93, 15), (41, 40), (83, 25));
    assert(GT::spow_steps(GT(gt_of(72, 95)), GT(gt_of(93, 15)), 2) == GT::spow_steps(GT(gt_of(72, 95)), GT(gt_of(41, 40)), 1));
    lemma_gt_mul_at((72, 95), (41, 40), (61, 46), (-9, 29));
    lemma_gt_mul_at((41, 40), (41, 40), (81, 64), (0, 16));
    assert(GT::spow_steps(GT(gt_of(72, 95)), GT(gt_of(41, 40)), 1) == GT::spow_steps(GT(gt_of(61, 46)), GT(gt_of(81, 64)), 0));
}

/// The pairing of `15G` with the point `6 P` of the image of `H`.
proof fn lemma_pairing_15_6()
    ensures
        smiller_loop(g1p(68, 27), dq(12, 32)) is Some,
        spairing_at(g1p(68, 27), dq(12, 32)) == GT(gt_of(61, 46)),
{
    lemma_final_exponent();
    lemma_tangent_15_6();
    lemma_tangent_13_6();
    lemma_tangent_9_6();
    lemma_tangent_1_6();
    lemma_vertical_at(68, 74, 27, 12, 32);
    lemma_miller_at(
        g1p(68, 27),
        dq(12, 32),
        (g1p(65, 3), g1p(18, 52), g1p(1, 2), g1p(68, 74)),
        (75, 8),
        (50, 57),
        (18, 36),
        (2, 85),
        (-68, 12),
        ((6, 25, 55, 11), (87, 66, -12, 1), (82, 58, 31, 70), (95, 90, -7, 18)),
        ((16, 11, 9, 89), (6, 43, -9, 4), (86, 66, -10, -34)),
    );
    lemma_final_exp_15_6();
}

proof fn lemma_final_exp_16_6()
    ensures
        GT(gt_of(43, 31)).spow(600) == GT(gt_of(75, 98)),
{
    assert(GT::sone() == GT(gt_of(1, 0)));
    lemma_gt_mul_at((43, 31), (43, 31), (80, 89), (8, 16));
    assert(GT::spow_steps(GT(gt_of(1, 0)), GT(gt_of(43, 31)), 600) == GT::spow_steps(GT(gt_of(1, 0)), GT(gt_of(80, 89)), 300));
    lemma_gt_mul_at((80, 89), (80, 89), (95, 57), (-16, 62));
    assert(GT::spow_steps(GT(gt_of(1, 0)), GT(gt_of(80, 89)), 300) == GT::spow_steps(GT(gt_of(1, 0)), GT(gt_of(95, 57)), 150));
    lemma_gt_mul_at((95, 57), (95, 57), (19, 6), (57, 75));
    assert(GT::spow_steps(GT(gt_of(1, 0)), GT(gt_of(95, 57)), 150) == GT::spow_steps(GT(gt_of(1, 0)), GT(gt_of(19, 6)), 75));
    lemma_gt_mul_at((1, 0), (19, 6), (19, 6), (0, 0));
    lemma_gt_mul_at((19, 6), (19, 6), (22, 91), (3, 1));
    assert(GT::spow_steps(GT(gt_of(1, 0)), GT(gt_of(19, 6)), 75) == GT::spow_steps(GT(gt_of(19, 6)), GT(gt_of(22, 91)), 37));
    lemma_gt_mul_at((19, 6), (22, 91), (74, 2), (-2, 13));
    lemma_gt_mul_at((22, 91), (22, 91), (81, 66), (-78, -43));
    assert(GT::spow_steps(GT(gt_of(19, 6)), GT(gt_of(22, 91)), 37) == GT::spow_steps(GT(gt_of(74, 2)), GT(gt_of(81, 66)), 18));
    lemma_gt_mul_at((81, 66), (81, 66), (84, 74), (21, 62));
    assert(GT::spow_steps(GT(gt_of(74, 2)), GT(gt_of(81, 66)), 18) == GT::spow_steps(GT(gt_of(74, 2)), GT(gt_of(84, 74)), 9));
    lemma_gt_mul_at((74, 2), (84, 74), (8, 42), (60, 54));
    lemma_gt_mul_at((84, 74), (84, 74), (65, 88), (15, 68));
    assert(GT::spow_steps(GT(gt_of(74, 2)), GT(gt_of(84, 74)), 9) == GT::spow_steps(GT(gt_of(8, 42)), GT(gt_of(65, 88)), 4));
    lemma_gt_mul_at((65, 88), (65, 88), (16, 60), (-35, 36));
    assert(GT::spow_steps(GT(gt_of(8, 42)), GT(gt_of(65, 88)), 4) == GT::spow_steps(GT(gt_of(8, 42)), GT(gt_of(16, 60)), 2));
    lemma_gt_mul_at((16, 60), (16, 60), (90, 37), (-34, -17));
    assert(GT::spow_steps(GT(gt_of(8, 42)), GT(gt_of(16, 60)), 2) == GT::spow_steps(GT(gt_of(8, 42)), GT(gt_of(90, 37)), 1));
    lemma_gt_mul_at((8, 42), (90, 37), (75, 98), (-9, 24));
    lemma_gt_mul_at((90, 37), (90, 37), (65, 39), (66, 52));
    assert(GT::spow_steps(GT(gt_of(8, 42)), GT(gt_of(90, 37)), 1) == GT::spow_steps(GT(gt_of(75, 98)), GT(gt_of(65, 39)), 0));
}

/// The pairing of `16G` with the point `6 P` of the image of `H`.
proof fn lemma_pairing_16_6()
    ensures
        smiller_loop(g1p(1, 99), dq(12, 32)) is Some,
        spairing_at(g1p(1, 99), dq(12, 32)) == GT(gt_of(75, 98)),
{
    lemma_final_exponent();
    lemma_tangent_16_6();
    lemma_tangent_15_6();
    lemma_tangent_13_6();
    lemma_tangent_9_6();
    lemma_vertical_at(1, 2, 99, 12, 32);
    lemma_miller_at(
        g1p(1, 99),
        dq(12, 32),
        (g1p(68, 27), g1p(65, 3), g1p(18, 52), g1p(1, 2)),
        (13, 94),
        (75, 8),
        (50, 57),
        (18, 36),
        (-1, 12),
        ((19, 72, -86, -64), (41, 27, 8, 49), (43, 71, 9, 14), (22, 35, -19, 19)),
        ((67, 12, -8, 3), (67, 75, 7, 21), (43, 31, -10, -2)),
    );
    lemma_final_exp_16_6();
}

proof fn lemma_final_exp_1_7()
    ensures
        GT(gt_of(14, 57)).spow(600) == GT(gt_of(28, 39)),
{
    assert(GT::sone() == GT(gt_of(1, 0)));
    lemma_gt_mul_at((14, 57), (14, 57), (78, 64), (-31, -17));
    assert(GT::spow_steps(GT(gt_of(1, 0)), GT(gt_of(14, 57)), 600) == GT::spow_steps(GT(gt_of(1, 0)), GT(gt_of(78, 64)), 300));
    lemma_gt_mul_at((78, 64), (78, 64), (69, 30), (19, 58));
    assert(GT::spow_steps(GT(gt_of(1, 0)), GT(gt_of(78, 64)), 300) == GT::spow_steps(GT(gt_of(1, 0)), GT(gt_of(69, 30)), 150));
    lemma_gt_mul_at((69, 30), (69, 30), (23, 8), (38, 32));
    assert(GT::spow_steps(GT(gt_of(1, 0)), GT(gt_of(69, 30)), 150) == GT::spow_steps(GT(gt_of(1, 0)), GT(gt_of(23, 8)), 75));
    lemma_gt_mul_at((1, 0), (23, 8), (23, 8), (0, 0));
    lemma_gt_mul_at((23, 8), (23, 8), (61, 1), (4, 3));
    assert(GT::spow_steps(GT(gt_of(1, 0)), GT(gt_of(23, 8)), 75) == GT::spow_steps(GT(gt_of(23, 8)), GT(gt_of(61, 1)), 37));
    lemma_gt_mul_at((23, 8), (61, 1), (82, 99), (13, 4));
    lemma_gt_mul_at((61, 1), (61, 1), (84, 20), (36, 1));
    assert(GT::spow_steps(GT(gt_of(23, 8)), GT(gt_of(61, 1)), 37) == GT::spow_steps(GT(gt_of(82, 99)), GT(gt_of(84, 20)), 18));
    lemma_gt_mul_at((84, 20), (84, 20), (91, 31), (65, 29));
    assert(GT::spow_steps(GT(gt_of(82, 99)), GT(gt_of(84, 20)), 18) == GT::spow_steps(GT(gt_of(82, 99)), GT(gt_of(91, 31)), 9));
    lemma_gt_mul_at((82, 99), (91, 31), (50, 99), (43, 83));
    lemma_gt_mul_at((91, 31), (91, 31), (48, 35), (72, 46));
    assert(GT::spow_steps(GT(gt_of(82, 99)), GT(gt_of(91, 31)), 9) == GT::spow_steps(GT(gt_of(50, 99)), GT(gt_of(48, 35)), 4));
    lemma_gt_mul_at((48, 35), (48, 35), (69, 14), (10, 21));
    assert(GT::spow_steps(GT(gt_of(50, 99)), GT(gt_of(48, 35)), 4) == GT::spow_steps(GT(gt_of(50, 99)), GT(gt_of(69, 14)), 2));
    lemma_gt_mul_at((69, 14), (69, 14), (20, 19), (45, 17));
    assert(GT::spow_steps(GT(gt_of(50, 99)), GT(gt_of(69, 14)), 2) == GT::spow_steps(GT(gt_of(50, 99)), GT(gt_of(20, 19)), 1));
    lemma_gt_mul_at((50, 99), (20, 19), (28, 39), (-9, 10));
    lemma_gt_mul_at((20, 19), (20, 19), (39, 96), (0, 3));
    assert(GT::spow_steps(GT(gt_of(50, 99)), GT(gt_of(20, 19)), 1) == GT::spow_steps(GT(gt_of(28, 39)), GT(gt_of(39, 96)), 0));
}

/// The pairing of `1G` with the point `7 P` of the image of `H`.
proof fn lemma_pairing_1_7()
    ensures
        smiller_loop(g1p(1, 2), dq(46, 51)) is Some,
        spairing_at(g1p(1, 2), dq(46, 51)) == GT(gt_of(28, 39)),
{
    lemma_final_exponent();
    lemma_tangent_1_7();
    lemma_tangent_2_7();
    lemma_tangent_4_7();
    lemma_tangent_8_7();
    lemma_vertical_at(1, 99, 2, 46, 51);
    lemma_miller_at(
        g1p(1, 2),
        dq(46, 51),
        (g1p(68, 74), g1p(65, 98), g1p(18, 49), g1p(1, 99)),
        (45, 57),
        (21, 91),
        (55, 63),
        (84, 81),
        (-1, 46),
        ((89, 63, -13, 18), (75, 53, -39, 36), (89, 91, 27, 50), (71, 31, -9, 48)),
        ((40, 7, 40, 34), (66, 29, 27, 32), (14, 57, -14, 16)),
    );
    lemma_final_exp_1_7();
}

proof fn lemma_final_exp_2_7()
    ensures
        GT(gt_of(38, 85)).spow(600) == GT(gt_of(71, 57)),
{
    assert(GT::sone() == GT(gt_of(1, 0)));
    lemma_gt_mul_at((38, 85), (38, 85), (77, 43), (-58, -8));
    assert(GT::spow_steps(GT(gt_of(1, 0)), GT(gt_of(38, 85)), 600) == GT::spow_steps(GT(gt_of(1, 0)), GT(gt_of(77, 43)), 300));
    lemma_gt_mul_at((77, 43), (77, 43), (40, 26), (40, 47));
    assert(GT::spow_steps(GT(gt_of(1, 0)), GT(gt_of(77, 43)), 300) == GT::spow_steps(GT(gt_of(1, 0)), GT(gt_of(40, 26)), 150));
    lemma_gt_mul_at((40, 26), (40, 26), (15, 91), (9, 13));
    assert(GT::spow_steps(GT(gt_of(1, 0)), GT(gt_of(40, 26)), 150) == GT::spow_steps(GT(gt_of(1, 0)), GT(gt_of(15, 91)), 75));
    lemma_gt_mul_at((1, 0), (15, 91), (15, 91), (0, 0));
    lemma_gt_mul_at((15, 91), (15, 91), (24, 4), (-80, -55));
    assert(GT::spow_steps(GT(gt_of(1, 0)), GT(gt_of(15, 91)), 75) == GT::spow_steps(GT(gt_of(15, 91)), GT(gt_of(24, 4)), 37));
    lemma_gt_mul_at((15, 91), (24, 4), (97, 62), (-1, 18));
    lemma_gt_mul_at((24, 4), (24, 4), (55, 75), (5, 1));
    assert(GT::spow_steps(GT(gt_of(15, 91)), GT(gt_of(24, 4)), 37) == GT::spow_steps(GT(gt_of(97, 62)), GT(gt_of(55, 75)), 18));
    lemma_gt_mul_at((55, 75), (55, 75), (26, 100), (-26, 25));
    assert(GT::spow_steps(GT(gt_of(97, 62)), GT(gt_of(55, 75)), 18) == GT::spow_steps(GT(gt_of(97, 62)), GT(gt_of(26, 100)), 9));
    lemma_gt_mul_at((97, 62), (26, 100), (59, 62), (-37, 50));
    lemma_gt_mul_at((26, 100), (26, 100), (69, 48), (-93, -48));
    assert(GT::spow_steps(GT(gt_of(97, 62)), GT(gt_of(26, 100)), 9) == GT::spow_steps(GT(gt_of(59, 62)), GT(gt_of(69, 48)), 4));
    lemma_gt_mul_at((69, 48), (69, 48), (33, 78), (24, 42));
    assert(GT::spow_steps(GT(gt_of(59, 62)), GT(gt_of(69, 48)), 4) == GT::spow_steps(GT(gt_of(59, 62)), GT(gt_of(33, 78)), 2));
    lemma_gt_mul_at((33, 78), (33, 78), (55, 74), (-50, -10));
    assert(GT::spow_steps(GT(gt_of(59, 62)), GT(gt_of(33, 78)), 2) == GT::spow_steps(GT(gt_of(59, 62)), GT(gt_of(55, 74)), 1));
    lemma_gt_mul_at((59, 62), (55, 74), (71, 57), (-14, 31));
    lemma_gt_mul_at((55, 74), (55, 74), (74, 38), (-25, 26));
    assert(GT::spow_steps(GT(gt_of(59, 62)), GT(gt_of(55, 74)), 1) == GT::spow_steps(GT(gt_of(71, 57)), GT(gt_of(74, 38)), 0));
}

/// The pairing of `2G` with the point `7 P` of the image of `H`.
proof fn lemma_pairing_2_7()
    ensures
        smiller_loop(g1p(68, 74), dq(46, 51)) is Some,
        spairing_at(g1p(68, 74), dq(46, 51)) == GT(gt_of(71, 57)),
{
    lemma_final_exponent();
    lemma_tangent_2_7();
    lemma_tangent_4_7();
    lemma_tangent_8_7();
    lemma_tangent_16_7();
    lemma_vertical_at(68, 27, 74, 46, 51);
    lemma_miller_at(
        g1p(68, 74),
        dq(46, 51),
        (g1p(65, 98), g1p(18, 49), g1p(1, 99), g1p(68, 27)),
        (21, 91),
        (55, 63),
        (84, 81),
        (80, 59),
        (-68, 46),
        ((38, 86, -78, -45), (5, 90, -33, 16), (5, 72, -80, -72), (42, 15, -54, 6)),
        ((24, 25, 15, 10), (41, 22, 4, 19), (38, 85, -38, -7)),
    );
    lemma_final_exp_2_7();
}

proof fn lemma_final_exp_3_7()
    ensures
        GT(gt_of(11, 84)).spow(600) == GT(gt_of(68, 21)),
{
    assert(GT::sone() == GT(gt_of(1, 0)));
    lemma_gt_mul_at((11, 84), (11, 84), (34, 44), (-69, -52));
    assert(GT::spow_steps(GT(gt_of(1, 0)), GT(gt_of(11, 84)), 600) == GT::spow_steps(GT(gt_of(1, 0)), GT(gt_of(34, 44)), 300));
    lemma_gt_mul_at((34, 44), (34, 44), (28, 46), (-8, 10));
    assert(GT::spow_steps(GT(gt_of(1, 0)), GT(gt_of(34, 44)), 300) == GT::spow_steps(GT(gt_of(1, 0)), GT(gt_of(28, 46)), 150));
    lemma_gt_mul_at((28, 46), (28, 46), (82, 56), (-14, 4));
    assert(GT::spow_steps(GT(gt_of(1, 0)), GT(gt_of(28, 46)), 150) == GT::spow_steps(GT(gt_of(1, 0)), GT(gt_of(82, 56)), 75));
    lemma_gt_mul_at((1, 0), (82, 56), (82, 56), (0, 0));
    lemma_gt_mul_at((82, 56), (82, 56), (53, 89), (35, 59));
    assert(GT::spow_steps(GT(gt_of(1, 0)), GT(gt_of(82, 56)), 75) == GT::spow_steps(GT(gt_of(82, 56)), GT(gt_of(53, 89)), 37));
    lemma_gt_mul_at((82, 56), (53, 89), (69, 30), (-7, 52));
    lemma_gt_mul_at((53, 89), (53, 89), (39, 99), (-51, 14));
    assert(GT::spow_steps(GT(gt_of(82, 56)), GT(gt_of(53, 89)), 37) == GT::spow_steps(GT(gt_of(69, 30)), GT(gt_of(39, 99)), 18));
    lemma_gt_mul_at((39, 99), (39, 99), (2, 42), (-82, -21));
    assert(GT::spow_steps(GT(gt_of(69, 30)), GT(gt_of(39, 99)), 18) == GT::spow_steps(GT(gt_of(69, 30)), GT(gt_of(2, 42)), 9));
    lemma_gt_mul_at((69, 30), (2, 42), (90, 82), (-12, 16));
    lemma_gt_mul_at((2, 42), (2, 42), (58, 20), (-18, -16));
    assert(GT::spow_steps(GT(gt_of(69, 30)), GT(gt_of(2, 42)), 9) == GT::spow_steps(GT(gt_of(90, 82)), GT(gt_of(58, 20)), 4));
    lemma_gt_mul_at((58, 20), (58, 20), (35, 1), (29, 19));
    assert(GT::spow_steps(GT(gt_of(90, 82)), GT(gt_of(58, 20)), 4) == GT::spow_steps(GT(gt_of(90, 82)), GT(gt_of(35, 1)), 2));
    lemma_gt_mul_at((35, 1), (35, 1), (12, 69), (12, 0));
    assert(GT::spow_steps(GT(gt_of(90, 82)), GT(gt_of(35, 1)), 2) == GT::spow_steps(GT(gt_of(90, 82)), GT(gt_of(12, 69)), 1));
    lemma_gt_mul_at((90, 82), (12, 69), (68, 21), (-46, 15));
    lemma_gt_mul_at((12, 69), (12, 69), (29, 26), (-46, -31));
    assert(GT::spow_steps(GT(gt_of(90, 82)), GT(gt_of(12, 69)), 1) == GT::spow_steps(GT(gt_of(68, 21)), GT(gt_of(29, 26)), 0));
}

/// The pairing of `3G` with the point `7 P` of the image of `H`.
proof fn lemma_pairing_3_7()
    ensures
        smiller_loop(g1p(26, 45), dq(46, 51)) is Some,
        spairing_at(g1p(26, 45), dq(46, 51)) == GT(gt_of(68, 21)),
{
    lemma_final_exponent();
    lemma_tangent_3_7();
    lemma_tangent_6_7();
    lemma_tangent_12_7();
    lemma_tangent_7_7();
    lemma_vertical_at(26, 56, 45, 46, 51);
    lemma_miller_at(
        g1p(26, 45),
        dq(46, 51),
        (g1p(32, 42), g1p(12, 69), g1p(91, 35), g1p(26, 56)),
        (11, 7),
        (81, 42),
        (7, 41),
        (24, 83),
        (-26, 46),
        ((72, 4, 0, 1), (8, 49, 56, 31), (87, 100, -24, -17), (44, 66, -35, 1)),
        ((4, 38, -24, 14), (73, 9, -31, -19), (11, 84, -23, 26)),
    );
    lemma_final_exp_3_7();
}

proof fn lemma_final_exp_4_7()
    ensures
        GT(gt_of(81, 11)).spow(600) == GT(gt_of(75, 98)),
{
    assert(GT::sone() == GT(gt_of(1, 0)));
    lemma_gt_mul_at((81, 11), (81, 11), (77, 45), (63, 16));
    assert(GT::spow_steps(GT(gt_of(1, 0)), GT(gt_of(81, 11)), 600) == GT::spow_steps(GT(gt_of(1, 0)), GT(gt_of(77, 45)), 300));
    lemma_gt_mul_at((77, 45), (77, 45), (66, 57), (38, 48));
    assert(GT::spow_steps(GT(gt_of(1, 0)), GT(gt_of(77, 45)), 300) == GT::spow_steps(GT(gt_of(1, 0)), GT(gt_of(66, 57)), 150));
    lemma_gt_mul_at((66, 57), (66, 57), (97, 33), (10, 42));
    assert(GT::spow_steps(GT(gt_of(1, 0)), GT(gt_of(66, 57)), 150) == GT::spow_steps(GT(gt_of(1, 0)), GT(gt_of(97, 33)), 75));
    lemma_gt_mul_at((1, 0), (97, 33), (97, 33), (0, 0));
    lemma_gt_mul_at((97, 33), (97, 33), (38, 61), (82, 52));
    assert(GT::spow_steps(GT(gt_of(1, 0)), GT(gt_of(97, 33)), 75) == GT::spow_steps(GT(gt_of(97, 33)), GT(gt_of(38, 61)), 37));
    lemma_gt_mul_at((97, 33), (38, 61), (57, 7), (16, 51));
    lemma_gt_mul_at((38, 61), (38, 61), (46, 6), (-23, 9));
    assert(GT::spow_steps(GT(gt_of(97, 33)), GT(gt_of(38, 61)), 37) == GT::spow_steps(GT(gt_of(57, 7)), GT(gt_of(46, 6)), 18));
    lemma_gt_mul_at((46, 6), (46, 6), (60, 11), (20, 5));
    assert(GT::spow_steps(GT(gt_of(57, 7)), GT(gt_of(46, 6)), 18) == GT::spow_steps(GT(gt_of(57, 7)), GT(gt_of(60, 11)), 9));
    lemma_gt_mul_at((57, 7), (60, 11), (10, 61), (33, 9));
    lemma_gt_mul_at((60, 11), (60, 11), (45, 88), (34, 11));
    assert(GT::spow_steps(GT(gt_of(57, 7)), GT(gt_of(60, 11)), 9) == GT::spow_steps(GT(gt_of(10, 61)), GT(gt_of(45, 88)), 4));
    lemma_gt_mul_at((45, 88), (45, 88), (38, 75), (-57, 1));
    assert(GT::spow_steps(GT(gt_of(10, 61)), GT(gt_of(45, 88)), 4) == GT::spow_steps(GT(gt_of(10, 61)), GT(gt_of(38, 75)), 2));
    lemma_gt_mul_at((38, 75), (38, 75), (61, 75), (-42, 0));
    assert(GT::spow_steps(GT(gt_of(10, 61)), GT(gt_of(38, 75)), 2) == GT::spow_steps(GT(gt_of(10, 61)), GT(gt_of(61, 75)), 1));
    lemma_gt_mul_at((10, 61), (61, 75), (75, 98), (-40, -2));
    lemma_gt_mul_at((61, 75), (61, 75), (15, 91), (-19, 34));
    assert(GT::spow_steps(GT(gt_of(10, 61)), GT(gt_of(61, 75)), 1) == GT::spow_steps(GT(gt_of(75, 98)), GT(gt_of(15, 91)), 0));
}

/// The pairing of `4G` with the point `7 P` of the image of `H`.
proof fn lemma_pairing_4_7()
    ensures
        smiller_loop(g1p(65, 98), dq(46, 51)) is Some,
        spairing_at(g1p(65, 98), dq(46, 51)) == GT(gt_of(75, 98)),
{
    lemma_final_exponent();
    lemma_tangent_4_7();
    lemma_tangent_8_7();
    lemma_tangent_16_7();
    lemma_tangent_15_7();
    lemma_vertical_at(65, 3, 98, 46, 51);
    lemma_miller_at(
        g1p(65, 98),
        dq(46, 51),
        (g1p(18, 49), g1p(1, 99), g1p(68, 27), g1p(65, 3)),
        (55, 63),
        (84, 81),
        (80, 59),
        (15, 14),
        (-65, 46),
        ((66, 32, -10, 29), (23, 89, 29, 53), (82, 11, -74, -38), (53, 19, 58, 50)),
        ((24, 37, 24, 16), (44, 70, -2, 3), (81, 11, -61, -57)),
    );
    lemma_final_exp_4_7();
}

proof fn lemma_final_exp_5_7()
    ensures
        GT(gt_of(96, 10)).spow(600) == GT(gt_of(96, 29)),
{
    assert(GT::sone() == GT(gt_of(1, 0)));
    lemma_gt_mul_at((96, 10), (96, 10), (26, 2), (90, 18));
    assert(GT::spow_steps(GT(gt_of(1, 0)), GT(gt_of(96, 10)), 600) == GT::spow_steps(GT(gt_of(1, 0)), GT(gt_of(26, 2)), 300));
    lemma_gt_mul_at((26, 2), (26, 2), (66, 100), (6, 0));
    assert(GT::spow_steps(GT(gt_of(1, 0)), GT(gt_of(26, 2)), 300) == GT::spow_steps(GT(gt_of(1, 0)), GT(gt_of(66, 100)), 150));
    lemma_gt_mul_at((66, 100), (66, 100), (12, 69), (-56, 31));
    assert(GT::spow_steps(GT(gt_of(1, 0)), GT(gt_of(66, 100)), 150) == GT::spow_steps(GT(gt_of(1, 0)), GT(gt_of(12, 69)), 75));
    lemma_gt_mul_at((1, 0), (12, 69), (12, 69), (0, 0));
    lemma_gt_mul_at((12, 69), (12, 69), (29, 26), (-46, -31));
    assert(GT::spow_steps(GT(gt_of(1, 0)), GT(gt_of(12, 69)), 75) == GT::spow_steps(GT(gt_of(12, 69)), GT(gt_of(29, 26)), 37));
    lemma_gt_mul_at((12, 69), (29, 26), (69, 14), (-15, 5));
    lemma_gt_mul_at((29, 26), (29, 26), (64, 24), (1, 8));
    assert(GT::spow_steps(GT(gt_of(12, 69)), GT(gt_of(29, 26)), 37) == GT::spow_steps(GT(gt_of(69, 14)), GT(gt_of(64, 24)), 18));
    lemma_gt_mul_at((64, 24), (64, 24), (86, 72), (34, 24));
    assert(GT::spow_steps(GT(gt_of(69, 14)), GT(gt_of(64, 24)), 18) == GT::spow_steps(GT(gt_of(69, 14)), GT(gt_of(86, 72)), 9));
    lemma_gt_mul_at((69, 14), (86, 72), (78, 13), (48, 51));
    lemma_gt_mul_at((86, 72), (86, 72), (91, 29), (21, 71));
    assert(GT::spow_steps(GT(gt_of(69, 14)), GT(gt_of(86, 72)), 9) == GT::spow_steps(GT(gt_of(78, 13)), GT(gt_of(91, 29)), 4));
    lemma_gt_mul_at((91, 29), (91, 29), (67, 94), (73, 43));
    assert(GT::spow_steps(GT(gt_of(78, 13)), GT(gt_of(91, 29)), 4) == GT::spow_steps(GT(gt_of(78, 13)), GT(gt_of(67, 94)), 2));
    lemma_gt_mul_at((67, 94), (67, 94), (97, 23), (-44, 37));
    assert(GT::spow_steps(GT(gt_of(78, 13)), GT(gt_of(67, 94)), 2) == GT::spow_steps(GT(gt_of(78, 13)), GT(gt_of(97, 23)), 1));
    lemma_gt_mul_at((78, 13), (97, 23), (96, 29), (71, 27));
    lemma_gt_mul_at((97, 23), (97, 23), (93, 95), (87, 38));
    assert(GT::spow_steps(GT(gt_of(78, 13)), GT(gt_of(97, 23)), 1) == GT::spow_steps(GT(gt_of(96, 29)), GT(gt_of(93, 95)), 0));
}

/// The pairing of `5G` with the point `7 P` of the image of `H`.
proof fn lemma_pairing_5_7()
    ensures
        smiller_loop(g1p(12, 32), dq(46, 51)) is Some,
        spairing_at(g1p(12, 32), dq(46, 51)) == GT(gt_of(96, 29)),
{
    lemma_final_exponent();
    lemma_tangent_5_7();
    lemma_tangent_10_7();
    lemma_tangent_3_7();
    lemma_tangent_6_7();
    lemma_vertical_at(12, 69, 32, 46, 51);
    lemma_miller_at(
        g1p(12, 32),
        dq(46, 51),
        (g1p(91, 66), g1p(26, 45), g1p(32, 42), g1p(12, 69)),
        (62, 64),
        (24, 15),
        (11, 7),
        (81, 42),
        (-12, 46),
        ((51, 2, -3, 38), (83, 76, 11, 7), (2, 73, 11, 67), (16, 3, -5, 3)),
        ((45, 87, 2, 0), (92, 31, -1, 52), (96, 10, -26, 24)),
    );
    lemma_final_exp_5_7();
}

proof fn lemma_final_exp_6_7()
    ensures
        GT(gt_of(2, 48)).spow(600) == GT(gt_of(42, 92)),
{
    assert(GT::sone() == GT(gt_of(1, 0)));
    lemma_gt_mul_at((2, 48), (2, 48), (23, 9), (-23, -21));
    assert(GT::spow_steps(GT(gt_of(1, 0)), GT(gt_of(2, 48)), 600) == GT::spow_steps(GT(gt_of(1, 0)), GT(gt_of(23, 9)), 300));
    lemma_gt_mul_at((23, 9), (23, 9), (44, 30), (4, 3));
    assert(GT::spow_steps(GT(gt_of(1, 0)), GT(gt_of(23, 9)), 300) == GT::spow_steps(GT(gt_of(1, 0)), GT(gt_of(44, 30)), 150));
    lemma_gt_mul_at((44, 30), (44, 30), (26, 23), (10, 17));
    assert(GT::spow_steps(GT(gt_of(1, 0)), GT(gt_of(44, 30)), 150) == GT::spow_steps(GT(gt_of(1, 0)), GT(gt_of(26, 23)), 75));
    lemma_gt_mul_at((1, 0), (26, 23), (26, 23), (0, 0));
    lemma_gt_mul_at((26, 23), (26, 23), (46, 61), (1, 6));
    assert(GT::spow_steps(GT(gt_of(1, 0)), GT(gt_of(26, 23)), 75) == GT::spow_steps(GT(gt_of(26, 23)), GT(gt_of(46, 61)), 37));
    lemma_gt_mul_at((26, 23), (46, 61), (96, 29), (-3, 12));
    lemma_gt_mul_at((46, 61), (46, 61), (11, 73), (-16, 18));
    assert(GT::spow_steps(GT(gt_of(26, 23)), GT(gt_of(46, 61)), 37) == GT::spow_steps(GT(gt_of(96, 29)), GT(gt_of(11, 73)), 18));
    lemma_gt_mul_at((11, 73), (11, 73), (44, 14), (-52, -37));
    assert(GT::spow_steps(GT(gt_of(96, 29)), GT(gt_of(11, 73)), 18) == GT::spow_steps(GT(gt_of(96, 29)), GT(gt_of(44, 14)), 9));
    lemma_gt_mul_at((96, 29), (44, 14), (81, 93), (37, 21));
    lemma_gt_mul_at((44, 14), (44, 14), (23, 26), (17, 10));
    assert(GT::spow_steps(GT(gt_of(96, 29)), GT(gt_of(44, 14)), 9) == GT::spow_steps(GT(gt_of(81, 93)), GT(gt_of(23, 26)), 4));
    lemma_gt_mul_at((23, 26), (23, 26), (55, 15), (-2, 5));
    assert(GT::spow_steps(GT(gt_of(81, 93)), GT(gt_of(23, 26)), 4) == GT::spow_steps(GT(gt_of(81, 93)), GT(gt_of(55, 15)), 2));
    lemma_gt_mul_at((55, 15), (55, 15), (73, 11), (27, 14));
    assert(GT::spow_steps(GT(gt_of(81, 93)), GT(gt_of(55, 15)), 2) == GT::spow_steps(GT(gt_of(81, 93)), GT(gt_of(73, 11)), 1));
    lemma_gt_mul_at((81, 93), (73, 11), (42, 92), (48, 65));
    lemma_gt_mul_at((73, 11), (73, 11), (57, 71), (51, 14));
    assert(GT::spow_steps(GT(gt_of(81, 93)), GT(gt_of(73, 11)), 1) == GT::spow_steps(GT(gt_of(42, 92)), GT(gt_of(57, 71)), 0));
}

/// The pairing of `6G` with the point `7 P` of the image of `H`.
proof fn lemma_pairing_6_7()
    ensures
        smiller_loop(g1p(32, 42), dq(46, 51)) is Some,
        spairing_at(g1p(32, 42), dq(46, 51)) == GT(gt_of(42, 92)),
{
    lemma_final_exponent();
    lemma_tangent_6_7();
    lemma_tangent_12_7();
    lemma_tangent_7_7();
    lemma_tangent_14_7();
    lemma_vertical_at(32, 59, 42, 46, 51);
    lemma_miller_at(
        g1p(32, 42),
        dq(46, 51),
        (g1p(12, 69), g1p(91, 35), g1p(26, 56), g1p(32, 59)),
        (81, 42),
        (7, 41),
        (24, 83),
        (21, 30),
        (-32, 46),
        ((50, 91, 47, 49), (53, 67, -34, -11), (37, 88, -17, 25), (48, 0, -64, -21)),
        ((82, 0, 22, 0), (5, 36, 17, 24), (2, 48, -18, -26)),
    );
    lemma_final_exp_6_7();
}

proof fn lemma_final_exp_7_7()
    ensures
        GT(gt_of(27, 41)).spow(600) == GT(gt_of(12, 20)),
{
    assert(GT::sone() == GT(gt_of(1, 0)));
    lemma_gt_mul_at((27, 41), (27, 41), (58, 28), (-10, 5));
    assert(GT::spow_steps(GT(gt_of(1, 0)), GT(gt_of(27, 41)), 600) == GT::spow_steps(GT(gt_of(1, 0)), GT(gt_of(58, 28)), 300));
    lemma_gt_mul_at((58, 28), (58, 28), (55, 40), (25, 24));
    assert(GT::spow_steps(GT(gt_of(1, 0)), GT(gt_of(58, 28)), 300) == GT::spow_steps(GT(gt_of(1, 0)), GT(gt_of(55, 40)), 150));
    lemma_gt_mul_at((55, 40), (55, 40), (11, 73), (14, 27));
    assert(GT::spow_steps(GT(gt_of(1, 0)), GT(gt_of(55, 40)), 150) == GT::spow_steps(GT(gt_of(1, 0)), GT(gt_of(11, 73)), 75));
    lemma_gt_mul_at((1, 0), (11, 73), (11, 73), (0, 0));
    lemma_gt_mul_at((11, 73), (11, 73), (44, 14), (-52, -37));
    assert(GT::spow_steps(GT(gt_of(1, 0)), GT(gt_of(11, 73)), 75) == GT::spow_steps(GT(gt_of(11, 73)), GT(gt_of(44, 14)), 37));
    lemma_gt_mul_at((11, 73), (44, 14), (68, 21), (-6, 23));
    lemma_gt_mul_at((44, 14), (44, 14), (23, 26), (17, 10));
    assert(GT::spow_steps(GT(gt_of(11, 73)), GT(gt_of(44, 14)), 37) == GT::spow_steps(GT(gt_of(68, 21)), GT(gt_of(23, 26)), 18));
    lemma_gt_mul_at((23, 26), (23, 26), (55, 15), (-2, 5));
    assert(GT::spow_steps(GT(gt_of(68, 21)), GT(gt_of(23, 26)), 18) == GT::spow_steps(GT(gt_of(68, 21)), GT(gt_of(55, 15)), 9));
    lemma_gt_mul_at((68, 21), (55, 15), (92, 42), (33, 18));
    lemma_gt_mul_at((55, 15), (55, 15), (73, 11), (27, 14));
    assert(GT::spow_steps(GT(gt_of(68, 21)), GT(gt_of(55, 15)), 9) == GT::spow_steps(GT(gt_of(92, 42)), GT(gt_of(73, 11)), 4));
    lemma_gt_mul_at((73, 11), (73, 11), (57, 71), (51, 14));
    assert(GT::spow_steps(GT(gt_of(92, 42)), GT(gt_of(73, 11)), 4) == GT::spow_steps(GT(gt_of(92, 42)), GT(gt_of(57, 71)), 2));
    lemma_gt_mul_at((57, 71), (57, 71), (26, 23), (-18, 30));
    assert(GT::spow_steps(GT(gt_of(92, 42)), GT(gt_of(57, 71)), 2) == GT::spow_steps(GT(gt_of(92, 42)), GT(gt_of(26, 23)), 1));
    lemma_gt_mul_at((92, 42), (26, 23), (12, 20), (14, 22));
    lemma_gt_mul_at((26, 23), (26, 23), (46, 61), (1, 6));
    assert(GT::spow_steps(GT(gt_of(92, 42)), GT(gt_of(26, 23)), 1) == GT::spow_steps(GT(gt_of(12, 20)), GT(gt_of(46, 61)), 0));
}

/// The pairing of `7G` with the point `7 P` of the image of `H`.
proof fn lemma_pairing_7_7()
    ensures
        smiller_loop(g1p(91, 35), dq(46, 51)) is Some,
        spairing_at(g1p(91, 35), dq(46, 51)) == GT(gt_of(12, 20)),
{
    lemma_final_exponent();
    lemma_tangent_7_7();
    lemma_tangent_14_7();
    lemma_tangent_11_7();
    lemma_tangent_5_7();
    lemma_vertical_at(91, 66, 35, 46, 51);
    lemma_miller_at(
        g1p(91, 35),
        dq(46, 51),
        (g1p(26, 56), g1p(32, 59), g1p(12, 32), g1p(91, 66)),
        (24, 83),
        (21, 30),
        (11, 24),
        (62, 64),
        (-91, 46),
        ((50, 24, -63, -29), (27, 72, 3, 12), (90, 17, -45, -13), (77, 20, 5, 19)),
        ((75, 54, 54, 26), (83, 46, 11, 46), (27, 41, -96, -25)),
    );
    lemma_final_exp_7_7();
}

proof fn lemma_final_exp_8_7()
    ensures
        GT(gt_of(4, 43)).spow(600) == GT(gt_of(61, 46)),
{
    assert(GT::sone() == GT(gt_of(1, 0)));
    lemma_gt_mul_at((4, 43), (4, 43), (86, 10), (-19, -15));
    assert(GT::spow_steps(GT(gt_of(1, 0)), GT(gt_of(4, 43)), 600) == GT::spow_steps(GT(gt_of(1, 0)), GT(gt_of(86, 10)), 300));
    lemma_gt_mul_at((86, 10), (86, 10), (24, 4), (72, 16));
    assert(GT::spow_steps(GT(gt_of(1, 0)), GT(gt_of(86, 10)), 300) == GT::spow_steps(GT(gt_of(1, 0)), GT(gt_of(24, 4)), 150));
    lemma_gt_mul_at((24, 4), (24, 4), (55, 75), (5, 1));
    assert(GT::spow_steps(GT(gt_of(1, 0)), GT(gt_of(24, 4)), 150) == GT::spow_steps(GT(gt_of(1, 0)), GT(gt_of(55, 75)), 75));
    lemma_gt_mul_at((1, 0), (55, 75), (55, 75), (0, 0));
    lemma_gt_mul_at((55, 75), (55, 75), (26, 100), (-26, 25));
    assert(GT::spow_steps(GT(gt_of(1, 0)), GT(gt_of(55, 75)), 75) == GT::spow_steps(GT(gt_of(55, 75)), GT(gt_of(26, 100)), 37));
    lemma_gt_mul_at((55, 75), (26, 100), (91, 51), (-61, -1));
    lemma_gt_mul_at((26, 100), (26, 100), (69, 48), (-93, -48));
    assert(GT::spow_steps(GT(gt_of(55, 75)), GT(gt_of(26, 100)), 37) == GT::spow_steps(GT(gt_of(91, 51)), GT(gt_of(69, 48)), 18));
    lemma_gt_mul_at((69, 48), (69, 48), (33, 78), (24, 42));
    assert(GT::spow_steps(GT(gt_of(91, 51)), GT(gt_of(69, 48)), 18) == GT::spow_steps(GT(gt_of(91, 51)), GT(gt_of(33, 78)), 9));
    lemma_gt_mul_at((91, 51), (33, 78), (35, 56), (-10, 47));
    lemma_gt_mul_at((33, 78), (33, 78), (55, 74), (-50, -10));
    assert(GT::spow_steps(GT(gt_of(91, 51)), GT(gt_of(33, 78)), 9) == GT::spow_steps(GT(gt_of(35, 56)), GT(gt_of(55, 74)), 4));
    lemma_gt_mul_at((55, 74), (55, 74), (74, 38), (-25, 26));
    assert(GT::spow_steps(GT(gt_of(35, 56)), GT(gt_of(55, 74)), 4) == GT::spow_steps(GT(gt_of(35, 56)), GT(gt_of(74, 38)), 2));
    lemma_gt_mul_at((74, 38), (74, 38), (93, 39), (39, 41));
    assert(GT::spow_steps(GT(gt_of(35, 56)), GT(gt_of(74, 38)), 2) == GT::spow_steps(GT(gt_of(35, 56)), GT(gt_of(93, 39)), 1));
    lemma_gt_mul_at((35, 56), (93, 39), (61, 46), (10, 43));
    lemma_gt_mul_at((93, 39), (93, 39), (58, 77), (70, 56));
    assert(GT::spow_steps(GT(gt_of(35, 56)), GT(gt_of(93, 39)), 1) == GT::spow_steps(GT(gt_of(61, 46)), GT(gt_of(58, 77)), 0));
}

/// The pairing of `8G` with the point `7 P` of the image of `H`.
proof fn lemma_pairing_8_7()
    ensures
        smiller_loop(g1p(18, 49), dq(46, 51)) is Some,
        spairing_at(g1p(18, 49), dq(46, 51)) == GT(gt_of(61, 46)),
{
    lemma_final_exponent();
    lemma_tangent_8_7();
    lemma_tangent_16_7();
    lemma_tangent_15_7();
    lemma_tangent_13_7();
    lemma_vertical_at(18, 52, 49, 46, 51);
    lemma_miller_at(
        g1p(18, 49),
        dq(46, 51),
        (g1p(1, 99), g1p(68, 27), g1p(65, 3), g1p(18, 52)),
        (84, 81),
        (80, 59),
        (15, 14),
        (33, 76),
        (-18, 46),
        ((91, 78, 4, 69), (52, 38, 26, 69), (48, 84, 12, 24), (49, 49, -5, 7)),
        ((0, 78, 0, 23), (31, 80, -59, -34), (4, 43, -42, -37)),
    );
    lemma_final_exp_8_7();
}

proof fn lemma_final_exp_9_7()
    ensures
        GT(gt_of(95, 8)).spow(600) == GT(gt_of(15, 55)),
{
    assert(GT::sone() == GT(gt_of(1, 0)));
    lemma_gt_mul_at((95, 8), (95, 8), (73, 42), (88, 14));
    assert(GT::spow_steps(GT(gt_of(1, 0)), GT(gt_of(95, 8)), 600) == GT::spow_steps(GT(gt_of(1, 0)), GT(gt_of(73, 42)), 300));
    lemma_gt_mul_at((73, 42), (73, 42), (30, 25), (35, 43));
    assert(GT::spow_steps(GT(gt_of(1, 0)), GT(gt_of(73, 42)), 300) == GT::spow_steps(GT(gt_of(1, 0)), GT(gt_of(30, 25)), 150));
    lemma_gt_mul_at((30, 25), (30, 25), (73, 67), (2, 8));
    assert(GT::spow_steps(GT(gt_of(1, 0)), GT(gt_of(30, 25)), 150) == GT::spow_steps(GT(gt_of(1, 0)), GT(gt_of(73, 67)), 75));
    lemma_gt_mul_at((1, 0), (73, 67), (73, 67), (0, 0));
    lemma_gt_mul_at((73, 67), (73, 67), (32, 41), (8, 52));
    assert(GT::spow_steps(GT(gt_of(1, 0)), GT(gt_of(73, 67)), 75) == GT::spow_steps(GT(gt_of(73, 67)), GT(gt_of(32, 41)), 37));
    lemma_gt_mul_at((73, 67), (32, 41), (94, 67), (-5, 23));
    lemma_gt_mul_at((32, 41), (32, 41), (50, 34), (-7, 9));
    assert(GT::spow_steps(GT(gt_of(73, 67)), GT(gt_of(32, 41)), 37) == GT::spow_steps(GT(gt_of(94, 67)), GT(gt_of(50, 34)), 18));
    lemma_gt_mul_at((50, 34), (50, 34), (31, 22), (13, 22));
    assert(GT::spow_steps(GT(gt_of(94, 67)), GT(gt_of(50, 34)), 18) == GT::spow_steps(GT(gt_of(94, 67)), GT(gt_of(31, 22)), 9));
    lemma_gt_mul_at((94, 67), (31, 22), (26, 45), (14, 26));
    lemma_gt_mul_at((31, 22), (31, 22), (73, 72), (4, 8));
    assert(GT::spow_steps(GT(gt_of(94, 67)), GT(gt_of(31, 22)), 9) == GT::spow_steps(GT(gt_of(26, 45)), GT(gt_of(73, 72)), 4));
    lemma_gt_mul_at((73, 72), (73, 72), (44, 76), (1, 52));
    assert(GT::spow_steps(GT(gt_of(26, 45)), GT(gt_of(73, 72)), 4) == GT::spow_steps(GT(gt_of(26, 45)), GT(gt_of(44, 76)), 2));
    lemma_gt_mul_at((44, 76), (44, 76), (99, 3), (-39, 9));
    assert(GT::spow_steps(GT(gt_of(26, 45)), GT(gt_of(44, 76)), 2) == GT::spow_steps(GT(gt_of(26, 45)), GT(gt_of(99, 3)), 1));
    lemma_gt_mul_at((26, 45), (99, 3), (15, 55), (24, 43));
    lemma_gt_mul_at((99, 3), (99, 3), (96, 80), (96, 5));
    assert(GT::spow_steps(GT(gt_of(26, 45)), GT(gt_of(99, 3)), 1) == GT::spow_steps(GT(gt_of(15, 55)), GT(gt_of(96, 80)), 0));
}

/// The pairing of `9G` with the point `7 P` of the image of `H`.
proof fn lemma_pairing_9_7()
    ensures
        smiller_loop(g1p(18, 52), dq(46, 51)) is Some,
        spairing_at(g1p(18, 52), dq(46, 51)) == GT(gt_of(15, 55)),
{
    lemma_final_exponent();
    lemma_tangent_9_7();
    lemma_tangent_1_7();
    lemma_tangent_2_7();
    lemma_tangent_4_7();
    lemma_vertical_at(18, 49, 52, 46, 51);
    lemma_miller_at(
        g1p(18, 52),
        dq(46, 51),
        (g1p(1, 2), g1p(68, 74), g1p(65, 98), g1p(18, 49)),
        (76, 67),
        (45, 57),
        (21, 91),
        (55, 63),
        (-18, 46),
        ((75, 39, 12, 56), (41, 70, 11, 37), (13, 32, -32, 8), (88, 54, -27, -11)),
        ((81, 23, 47, 65), (77, 71, 29, 48), (95, 8, -47, -10)),
    );
    lemma_final_exp_9_7();
}

proof fn lemma_final_exp_10_7()
    ensures
        GT(gt_of(6, 16)).spow(600) == GT(gt_of(93, 81)),
{
    assert(GT::sone() == GT(gt_of(1, 0)));
    lemma_gt_mul_at((6, 16), (6, 16), (83, 37), (-3, -1));
    assert(GT::spow_steps(GT(gt_of(1, 0)), GT(gt_of(6, 16)), 600) == GT::spow_steps(GT(gt_of(1, 0)), GT(gt_of(83, 37)), 300));
    lemma_gt_mul_at((83, 37), (83, 37), (66, 26), (54, 47));
    assert(GT::spow_steps(GT(gt_of(1, 0)), GT(gt_of(83, 37)), 300) == GT::spow_steps(GT(gt_of(1, 0)), GT(gt_of(66, 26)), 150));
    lemma_gt_mul_at((66, 26), (66, 26), (44, 29), (36, 27));
    assert(GT::spow_steps(GT(gt_of(1, 0)), GT(gt_of(66, 26)), 150) == GT::spow_steps(GT(gt_of(1, 0)), GT(gt_of(44, 29)), 75));
    lemma_gt_mul_at((1, 0), (44, 29), (44, 29), (0, 0));
    lemma_gt_mul_at((44, 29), (44, 29), (85, 95), (10, 16));
    assert(GT::spow_steps(GT(gt_of(1, 0)), GT(gt_of(44, 29)), 75) == GT::spow_steps(GT(gt_of(44, 29)), GT(gt_of(85, 95)), 37));
    lemma_gt_mul_at((44, 29), (85, 95), (76, 52), (9, 38));
    lemma_gt_mul_at((85, 95), (85, 95), (18, 55), (-18, 70));
    assert(GT::spow_steps(GT(gt_of(44, 29)), GT(gt_of(85, 95)), 37) == GT::spow_steps(GT(gt_of(76, 52)), GT(gt_of(18, 55)), 18));
    lemma_gt_mul_at((18, 55), (18, 55), (26, 66), (-27, -11));
    assert(GT::spow_steps(GT(gt_of(76, 52)), GT(gt_of(18, 55)), 18) == GT::spow_steps(GT(gt_of(76, 52)), GT(gt_of(26, 66)), 9));
    lemma_gt_mul_at((76, 52), (26, 66), (59, 7), (-15, 29));
    lemma_gt_mul_at((26, 66), (26, 66), (57, 86), (-37, -10));
    assert(GT::spow_steps(GT(gt_of(76, 52)), GT(gt_of(26, 66)), 9) == GT::spow_steps(GT(gt_of(59, 7)), GT(gt_of(57, 86)), 4));
    lemma_gt_mul_at((57, 86), (57, 86), (95, 85), (-42, 23));
    assert(GT::spow_steps(GT(gt_of(59, 7)), GT(gt_of(57, 86)), 4) == GT::spow_steps(GT(gt_of(59, 7)), GT(gt_of(95, 85)), 2));
    lemma_gt_mul_at((95, 85), (95, 85), (83, 37), (17, 88));
    assert(GT::spow_steps(GT(gt_of(59, 7)), GT(gt_of(95, 85)), 2) == GT::spow_steps(GT(gt_of(59, 7)), GT(gt_of(83, 37)), 1));
    lemma_gt_mul_at((59, 7), (83, 37), (93, 81), (45, 24));
    lemma_gt_mul_at((83, 37), (83, 37), (66, 26), (54, 47));
    assert(GT::spow_steps(GT(gt_of(59, 7)), GT(gt_of(83, 37)), 1) == GT::spow_steps(GT(gt_of(93, 81)), GT(gt_of(66, 26)), 0));
}

/// The pairing of `10G` with the point `7 P` of the image of `H`.
proof fn lemma_pairing_10_7()
    ensures
        smiller_loop(g1p(91, 66), dq(46, 51)) is Some,
        spairing_at(g1p(91, 66), dq(46, 51)) == GT(gt_of(93, 81)),
{
    lemma_final_exponent();
    lemma_tangent_10_7();
    lemma_tangent_3_7();
    lemma_tangent_6_7();
    lemma_tangent_12_7();
    lemma_vertical_at(91, 35, 66, 46, 51);
    lemma_miller_at(
        g1p(91, 66),
        dq(46, 51),
        (g1p(26, 45), g1p(32, 42), g1p(12, 69), g1p(91, 35)),
        (24, 15),
        (11, 7),
        (81, 42),
        (7, 41),
        (-91, 46),
        ((48, 91, 3, 4), (93, 94, -2, 6), (15, 63, -2, 85), (84, 57, -15, 30)),
        ((70, 65, 37, 62), (47, 54, -22, 6), (6, 16, -67, -52)),
    );
    lemma_final_exp_10_7();
}

proof fn lemma_final_exp_11_7()
    ensures
        GT(gt_of(71, 92)).spow(600) == GT(gt_of(51, 9)),
{
    assert(GT::sone() == GT(gt_of(1, 0)));
    lemma_gt_mul_at((71, 92), (71, 92), (11, 55), (-34, 45));
    assert(GT::spow_steps(GT(gt_of(1, 0)), GT(gt_of(71, 92)), 600) == GT::spow_steps(GT(gt_of(1, 0)), GT(gt_of(11, 55)), 300));
    lemma_gt_mul_at((11, 55), (11, 55), (25, 3), (-29, -18));
    assert(GT::spow_steps(GT(gt_of(1, 0)), GT(gt_of(11, 55)), 300) == GT::spow_steps(GT(gt_of(1, 0)), GT(gt_of(25, 3)), 150));
    lemma_gt_mul_at((25, 3), (25, 3), (10, 40), (6, 1));
    assert(GT::spow_steps(GT(gt_of(1, 0)), GT(gt_of(25, 3)), 150) == GT::spow_steps(GT(gt_of(1, 0)), GT(gt_of(10, 40)), 75));
    lemma_gt_mul_at((1, 0), (10, 40), (10, 40), (0, 0));
    lemma_gt_mul_at((10, 40), (10, 40), (15, 8), (-15, -8));
    assert(GT::spow_steps(GT(gt_of(1, 0)), GT(gt_of(10, 40)), 75) == GT::spow_steps(GT(gt_of(10, 40)), GT(gt_of(15, 8)), 37));
    lemma_gt_mul_at((10, 40), (15, 8), (32, 57), (-2, 3));
    lemma_gt_mul_at((15, 8), (15, 8), (60, 75), (1, 1));
    assert(GT::spow_steps(GT(gt_of(10, 40)), GT(gt_of(15, 8)), 37) == GT::spow_steps(GT(gt_of(32, 57)), GT(gt_of(60, 75)), 18));
    lemma_gt_mul_at((60, 75), (60, 75), (96, 42), (-21, 33));
    assert(GT::spow_steps(GT(gt_of(32, 57)), GT(gt_of(60, 75)), 18) == GT::spow_steps(GT(gt_of(32, 57)), GT(gt_of(96, 42)), 9));
    lemma_gt_mul_at((32, 57), (96, 42), (72, 79), (6, 43));
    lemma_gt_mul_at((96, 42), (96, 42), (79, 38), (73, 62));
    assert(GT::spow_steps(GT(gt_of(32, 57)), GT(gt_of(96, 42)), 9) == GT::spow_steps(GT(gt_of(72, 79)), GT(gt_of(79, 38)), 4));
    lemma_gt_mul_at((79, 38), (79, 38), (50, 15), (47, 45));
    assert(GT::spow_steps(GT(gt_of(72, 79)), GT(gt_of(79, 38)), 4) == GT::spow_steps(GT(gt_of(72, 79)), GT(gt_of(50, 15)), 2));
    lemma_gt_mul_at((50, 15), (50, 15), (53, 63), (22, 12));
    assert(GT::spow_steps(GT(gt_of(72, 79)), GT(gt_of(50, 15)), 2) == GT::spow_steps(GT(gt_of(72, 79)), GT(gt_of(53, 63)), 1));
    lemma_gt_mul_at((72, 79), (53, 63), (51, 9), (-12, 37));
    lemma_gt_mul_at((53, 63), (53, 63), (52, 83), (-12, 26));
    assert(GT::spow_steps(GT(gt_of(72, 79)), GT(gt_of(53, 63)), 1) == GT::spow_steps(GT(gt_of(51, 9)), GT(gt_of(52, 83)), 0));
}

/// The pairing of `11G` with the point `7 P` of the image of `H`.
proof fn lemma_pairing_11_7()
    ensures
        smiller_loop(g1p(32, 59), dq(46, 51)) is Some,
        spairing_at(g1p(32, 59), dq(46, 51)) == GT(gt_of(51, 9)),
{
    lemma_final_exponent();
    lemma_tangent_11_7();
    lemma_tangent_5_7();
    lemma_tangent_10_7();
    lemma_tangent_3_7();
    lemma_vertical_at(32, 42, 59, 46, 51);
    lemma_miller_at(
        g1p(32, 59),
        dq(46, 51),
        (g1p(12, 32), g1p(91, 66), g1p(26, 45), g1p(32, 42)),
        (11, 24),
        (62, 64),
        (24, 15),
        (11, 7),
        (-32, 46),
        ((50, 53, -5, -1), (11, 64, -3, 30), (65, 39, -40, -27), (66, 13, 9, 13)),
        ((46, 32, 41, 15), (80, 46, 2, 4), (71, 92, -47, 0)),
    );
    lemma_final_exp_11_7();
}

proof fn lemma_final_exp_12_7()
    ensures
        GT(gt_of(40, 81)).spow(600) == GT(gt_of(67, 72)),
{
    assert(GT::sone() == GT(gt_of(1, 0)));
    lemma_gt_mul_at((40, 81), (40, 81), (89, 20), (-50, -1));
    assert(GT::spow_steps(GT(gt_of(1, 0)), GT(gt_of(40, 81)), 600) == GT::spow_steps(GT(gt_of(1, 0)), GT(gt_of(89, 20)), 300));
    lemma_gt_mul_at((89, 20), (89, 20), (47, 29), (74, 31));
    assert(GT::spow_steps(GT(gt_of(1, 0)), GT(gt_of(89, 20)), 300) == GT::spow_steps(GT(gt_of(1, 0)), GT(gt_of(47, 29)), 150));
    lemma_gt_mul_at((47, 29), (47, 29), (55, 67), (13, 18));
    assert(GT::spow_steps(GT(gt_of(1, 0)), GT(gt_of(47, 29)), 150) == GT::spow_steps(GT(gt_of(1, 0)), GT(gt_of(55, 67)), 75));
    lemma_gt_mul_at((1, 0), (55, 67), (55, 67), (0, 0));
    lemma_gt_mul_at((55, 67), (55, 67), (51, 53), (-15, 28));
    assert(GT::spow_steps(GT(gt_of(1, 0)), GT(gt_of(55, 67)), 75) == GT::spow_steps(GT(gt_of(55, 67)), GT(gt_of(51, 53)), 37));
    lemma_gt_mul_at((55, 67), (51, 53), (62, 54), (-8, 27));
    lemma_gt_mul_at((51, 53), (51, 53), (95, 72), (-3, 25));
    assert(GT::spow_steps(GT(gt_of(55, 67)), GT(gt_of(51, 53)), 37) == GT::spow_steps(GT(gt_of(62, 54)), GT(gt_of(95, 72)), 18));
    lemma_gt_mul_at((95, 72), (95, 72), (3, 12), (38, 84));
    assert(GT::spow_steps(GT(gt_of(62, 54)), GT(gt_of(95, 72)), 18) == GT::spow_steps(GT(gt_of(62, 54)), GT(gt_of(3, 12)), 9));
    lemma_gt_mul_at((62, 54), (3, 12), (43, 56), (-5, 2));
    lemma_gt_mul_at((3, 12), (3, 12), (67, 29), (-2, -1));
    assert(GT::spow_steps(GT(gt_of(62, 54)), GT(gt_of(3, 12)), 9) == GT::spow_steps(GT(gt_of(43, 56)), GT(gt_of(67, 29)), 4));
    lemma_gt_mul_at((67, 29), (67, 29), (12, 15), (36, 30));
    assert(GT::spow_steps(GT(gt_of(43, 56)), GT(gt_of(67, 29)), 4) == GT::spow_steps(GT(gt_of(43, 56)), GT(gt_of(12, 15)), 2));
    lemma_gt_mul_at((12, 15), (12, 15), (20, 34), (-1, 1));
    assert(GT::spow_steps(GT(gt_of(43, 56)), GT(gt_of(12, 15)), 2) == GT::spow_steps(GT(gt_of(43, 56)), GT(gt_of(20, 34)), 1));
    lemma_gt_mul_at((43, 56), (20, 34), (67, 72), (-11, 6));
    lemma_gt_mul_at((20, 34), (20, 34), (52, 2), (-8, 2));
    assert(GT::spow_steps(GT(gt_of(43, 56)), GT(gt_of(20, 34)), 1) == GT::spow_steps(GT(gt_of(67, 72)), GT(gt_of(52, 2)), 0));
}

/// The pairing of `12G` with the point `7 P` of the image of `H`.
proof fn lemma_pairing_12_7()
    ensures
        smiller_loop(g1p(12, 69), dq(46, 51)) is Some,
        spairing_at(g1p(12, 69), dq(46, 51)) == GT(gt_of(67, 72)),
{
    lemma_final_exponent();
    lemma_tangent_12_7();
    lemma_tangent_7_7();
    lemma_tangent_14_7();
    lemma_tangent_11_7();
    lemma_vertical_at(12, 32, 69, 46, 51);
    lemma_miller_at(
        g1p(12, 69),
        dq(46, 51),
        (g1p(91, 35), g1p(26, 56), g1p(32, 59), g1p(12, 32)),
        (7, 41),
        (24, 83),
        (21, 30),
        (11, 24),
        (-12, 46),
        ((85, 4, -17, -11), (92, 52, 16, 67), (3, 97, 57, 67), (82, 25, -29, -8)),
        ((39, 41, 60, 34), (51, 100, -6, 3), (40, 81, -52, -35)),
    );
    lemma_final_exp_12_7();
}

proof fn lemma_final_exp_13_7()
    ensures
        GT(gt_of(6, 34)).spow(600) == GT(gt_of(78, 3)),
{
    assert(GT::sone() == GT(gt_of(1, 0)));
    lemma_gt_mul_at((6, 34), (6, 34), (92, 60), (-12, -8));
    assert(GT::spow_steps(GT(gt_of(1, 0)), GT(gt_of(6, 34)), 600) == GT::spow_steps(GT(gt_of(1, 0)), GT(gt_of(92, 60)), 300));
    lemma_gt_mul_at((92, 60), (92, 60), (16, 67), (48, 73));
    assert(GT::spow_steps(GT(gt_of(1, 0)), GT(gt_of(92, 60)), 300) == GT::spow_steps(GT(gt_of(1, 0)), GT(gt_of(16, 67)), 150));
    lemma_gt_mul_at((16, 67), (16, 67), (9, 79), (-42, -24));
    assert(GT::spow_steps(GT(gt_of(1, 0)), GT(gt_of(16, 67)), 150) == GT::spow_steps(GT(gt_of(1, 0)), GT(gt_of(9, 79)), 75));
    lemma_gt_mul_at((1, 0), (9, 79), (9, 79), (0, 0));
    lemma_gt_mul_at((9, 79), (9, 79), (1, 29), (-61, -48));
    assert(GT::spow_steps(GT(gt_of(1, 0)), GT(gt_of(9, 79)), 75) == GT::spow_steps(GT(gt_of(9, 79)), GT(gt_of(1, 29)), 37));
    lemma_gt_mul_at((9, 79), (1, 29), (41, 69), (-23, -20));
    lemma_gt_mul_at((1, 29), (1, 29), (69, 25), (-9, -8));
    assert(GT::spow_steps(GT(gt_of(9, 79)), GT(gt_of(1, 29)), 37) == GT::spow_steps(GT(gt_of(41, 69)), GT(gt_of(69, 25)), 18));
    lemma_gt_mul_at((69, 25), (69, 25), (96, 98), (40, 27));
    assert(GT::spow_steps(GT(gt_of(41, 69)), GT(gt_of(69, 25)), 18) == GT::spow_steps(GT(gt_of(41, 69)), GT(gt_of(96, 98)), 9));
    lemma_gt_mul_at((41, 69), (96, 98), (2, 42), (-28, 38));
    lemma_gt_mul_at((96, 98), (96, 98), (16, 21), (-4, 91));
    assert(GT::spow_steps(GT(gt_of(41, 69)), GT(gt_of(96, 98)), 9) == GT::spow_steps(GT(gt_of(2, 42)), GT(gt_of(16, 21)), 4));
    lemma_gt_mul_at((16, 21), (16, 21), (17, 29), (-2, 2));
    assert(GT::spow_steps(GT(gt_of(2, 42)), GT(gt_of(16, 21)), 4) == GT::spow_steps(GT(gt_of(2, 42)), GT(gt_of(17, 29)), 2));
    lemma_gt_mul_at((17, 29), (17, 29), (54, 44), (-6, 1));
    assert(GT::spow_steps(GT(gt_of(2, 42)), GT(gt_of(17, 29)), 2) == GT::spow_steps(GT(gt_of(2, 42)), GT(gt_of(54, 44)), 1));
    lemma_gt_mul_at((2, 42), (54, 44), (78, 3), (-18, 5));
    lemma_gt_mul_at((54, 44), (54, 44), (71, 89), (9, 27));
    assert(GT::spow_steps(GT(gt_of(2, 42)), GT(gt_of(54, 44)), 1) == GT::spow_steps(GT(gt_of(78, 3)), GT(gt_of(71, 89)), 0));
}

/// The pairing of `13G` with the point `7 P` of the image of `H`.
proof fn lemma_pairing_13_7()
    ensures
        smiller_loop(g1p(65, 3), dq(46, 51)) is Some,
        spairing_at(g1p(65, 3), dq(46, 51)) == GT(gt_of(78, 3)),
{
    lemma_final_exponent();
    lemma_tangent_13_7();
    lemma_tangent_9_7();
    lemma_tangent_1_7();
    lemma_tangent_2_7();
    lemma_vertical_at(65, 98, 3, 46, 51);
    lemma_miller_at(
        g1p(65, 3),
        dq(46, 51),
        (g1p(18, 52), g1p(1, 2), g1p(68, 74), g1p(65, 98)),
        (33, 76),
        (76, 67),
        (45, 57),
        (21, 91),
        (-65, 46),
        ((60, 48, -47, -8), (31, 8, 13, 44), (89, 28, 8, 4), (86, 91, 23, 46)),
        ((24, 99, -9, 72), (80, 1, -85, -47), (6, 34, -52, 35)),
    );
    lemma_final_exp_13_7();
}

proof fn lemma_final_exp_14_7()
    ensures
        GT(gt_of(20, 41)).spow(600) == GT(gt_of(47, 80)),
{
    assert(GT::sone() == GT(gt_of(1, 0)));
    lemma_gt_mul_at((20, 41), (20, 41), (32, 60), (-13, -1));
    assert(GT::spow_steps(GT(gt_of(1, 0)), GT(gt_of(20, 41)), 600) == GT::spow_steps(GT(gt_of(1, 0)), GT(gt_of(32, 60)), 300));
    lemma_gt_mul_at((32, 60), (32, 60), (50, 38), (-26, 2));
    assert(GT::spow_steps(GT(gt_of(1, 0)), GT(gt_of(32, 60)), 300) == GT::spow_steps(GT(gt_of(1, 0)), GT(gt_of(50, 38)), 150));
    lemma_gt_mul_at((50, 38), (50, 38), (46, 33), (10, 23));
    assert(GT::spow_steps(GT(gt_of(1, 0)), GT(gt_of(50, 38)), 150) == GT::spow_steps(GT(gt_of(1, 0)), GT(gt_of(46, 33)), 75));
    lemma_gt_mul_at((1, 0), (46, 33), (46, 33), (0, 0));
    lemma_gt_mul_at((46, 33), (46, 33), (17, 28), (10, 19));
    assert(GT::spow_steps(GT(gt_of(1, 0)), GT(gt_of(46, 33)), 75) == GT::spow_steps(GT(gt_of(46, 33)), GT(gt_of(17, 28)), 37));
    lemma_gt_mul_at((46, 33), (17, 28), (60, 16), (-2, 9));
    lemma_gt_mul_at((17, 28), (17, 28), (10, 67), (-5, 1));
    assert(GT::spow_steps(GT(gt_of(46, 33)), GT(gt_of(17, 28)), 37) == GT::spow_steps(GT(gt_of(60, 16)), GT(gt_of(10, 67)), 18));
    lemma_gt_mul_at((10, 67), (10, 67), (55, 83), (-44, -32));
    assert(GT::spow_steps(GT(gt_of(60, 16)), GT(gt_of(10, 67)), 18) == GT::spow_steps(GT(gt_of(60, 16)), GT(gt_of(55, 83)), 9));
    lemma_gt_mul_at((60, 16), (55, 83), (53, 88), (19, 44));
    lemma_gt_mul_at((55, 83), (55, 83), (75, 19), (-39, 22));
    assert(GT::spow_steps(GT(gt_of(60, 16)), GT(gt_of(55, 83)), 9) == GT::spow_steps(GT(gt_of(53, 88)), GT(gt_of(75, 19)), 4));
    lemma_gt_mul_at((75, 19), (75, 19), (12, 65), (52, 24));
    assert(GT::spow_steps(GT(gt_of(53, 88)), GT(gt_of(75, 19)), 4) == GT::spow_steps(GT(gt_of(53, 88)), GT(gt_of(12, 65)), 2));
    lemma_gt_mul_at((12, 65), (12, 65), (60, 62), (-41, -27));
    assert(GT::spow_steps(GT(gt_of(53, 88)), GT(gt_of(12, 65)), 2) == GT::spow_steps(GT(gt_of(53, 88)), GT(gt_of(60, 62)), 1));
    lemma_gt_mul_at((53, 88), (60, 62), (47, 80), (-23, 30));
    lemma_gt_mul_at((60, 62), (60, 62), (59, 61), (-3, 35));
    assert(GT::spow_steps(GT(gt_of(53, 88)), GT(gt_of(60, 62)), 1) == GT::spow_steps(GT(gt_of(47, 80)), GT(gt_of(59, 61)), 0));
}

/// The pairing of `14G` with the point `7 P` of the image of `H`.
proof fn lemma_pairing_14_7()
    ensures
        smiller_loop(g1p(26, 56), dq(46, 51)) is Some,
        spairing_at(g1p(26, 56), dq(46, 51)) == GT(gt_of(47, 80)),
{
    lemma_final_exponent();
    lemma_tangent_14_7();
    lemma_tangent_11_7();
    lemma_tangent_5_7();
    lemma_tangent_10_7();
    lemma_vertical_at(26, 45, 56, 46, 51);
    lemma_miller_at(
        g1p(26, 56),
        dq(46, 51),
        (g1p(32, 59), g1p(12, 32), g1p(91, 66), g1p(26, 45)),
        (21, 30),
        (11, 24),
        (62, 64),
        (24, 15),
        (-26, 46),
        ((46, 57, -5, 3), (47, 60, -9, 3), (23, 20, -14, 20), (45, 18, 1, 14)),
        ((85, 84, 16, 12), (73, 11, 7, 20), (20, 41, -24, 25)),
    );
    lemma_final_exp_14_7();
}

proof fn lemma_final_exp_15_7()
    ensures
        GT(gt_of(83, 62)).spow(600) == GT(gt_of(14, 44)),
{
    assert(GT::sone() == GT(gt_of(1, 0)));
    lemma_gt_mul_at((83, 62), (83, 62), (15, 85), (30, 63));
    assert(GT::spow_steps(GT(gt_of(1, 0)), GT(gt_of(83, 62)), 600) == GT::spow_steps(GT(gt_of(1, 0)), GT(gt_of(15, 85)), 300));
    lemma_gt_mul_at((15, 85), (15, 85), (70, 72), (-70, -47));
    assert(GT::spow_steps(GT(gt_of(1, 0)), GT(gt_of(15, 85)), 300) == GT::spow_steps(GT(gt_of(1, 0)), GT(gt_of(70, 72)), 150));
    lemma_gt_mul_at((70, 72), (70, 72), (19, 48), (-3, 48));
    assert(GT::spow_steps(GT(gt_of(1, 0)), GT(gt_of(70, 72)), 150) == GT::spow_steps(GT(gt_of(1, 0)), GT(gt_of(19, 48)), 75));
    lemma_gt_mul_at((1, 0), (19, 48), (19, 48), (0, 0));
    lemma_gt_mul_at((19, 48), (19, 48), (77, 25), (-20, -5));
    assert(GT::spow_steps(GT(gt_of(1, 0)), GT(gt_of(19, 48)), 75) == GT::spow_steps(GT(gt_of(19, 48)), GT(gt_of(77, 25)), 37));
    lemma_gt_mul_at((19, 48), (77, 25), (61, 42), (2, 29));
    lemma_gt_mul_at((77, 25), (77, 25), (52, 94), (52, 31));
    assert(GT::spow_steps(GT(gt_of(19, 48)), GT(gt_of(77, 25)), 37) == GT::spow_steps(GT(gt_of(61, 42)), GT(gt_of(52, 94)), 18));
    lemma_gt_mul_at((52, 94), (52, 94), (29, 31), (-61, 9));
    assert(GT::spow_steps(GT(gt_of(61, 42)), GT(gt_of(52, 94)), 18) == GT::spow_steps(GT(gt_of(61, 42)), GT(gt_of(29, 31)), 9));
    lemma_gt_mul_at((61, 42), (29, 31), (63, 90), (4, 17));
    lemma_gt_mul_at((29, 31), (29, 31), (82, 29), (-2, 8));
    assert(GT::spow_steps(GT(gt_of(61, 42)), GT(gt_of(29, 31)), 9) == GT::spow_steps(GT(gt_of(63, 90)), GT(gt_of(82, 29)), 4));
    lemma_gt_mul_at((82, 29), (82, 29), (25, 77), (58, 38));
    assert(GT::spow_steps(GT(gt_of(63, 90)), GT(gt_of(82, 29)), 4) == GT::spow_steps(GT(gt_of(63, 90)), GT(gt_of(25, 77)), 2));
    lemma_gt_mul_at((25, 77), (25, 77), (49, 42), (-53, -21));
    assert(GT::spow_steps(GT(gt_of(63, 90)), GT(gt_of(25, 77)), 2) == GT::spow_steps(GT(gt_of(63, 90)), GT(gt_of(49, 42)), 1));
    lemma_gt_mul_at((63, 90), (49, 42), (14, 44), (-7, 32));
    lemma_gt_mul_at((49, 42), (49, 42), (31, 29), (6, 23));
    assert(GT::spow_steps(GT(gt_of(63, 90)), GT(gt_of(49, 42)), 1) == GT::spow_steps(GT(gt_of(14, 44)), GT(gt_of(31, 29)), 0));
}

/// The pairing of `15G` with the point `7 P` of the image of `H`.
proof fn lemma_pairing_15_7()
    ensures
        smiller_loop(g1p(68, 27), dq(46, 51)) is Some,
        spairing_at(g1p(68, 27), dq(46, 51)) == GT(gt_of(14, 44)),
{
    lemma_final_exponent();
    lemma_tangent_15_7();
    lemma_tangent_13_7();
    lemma_tangent_9_7();
    lemma_tangent_1_7();
    lemma_vertical_at(68, 74, 27, 46, 51);
    lemma_miller_at(
        g1p(68, 27),
        dq(46, 51),
        (g1p(65, 3), g1p(18, 52), g1p(1, 2), g1p(68, 74)),
        (15, 14),
        (33, 76),
        (76, 67),
        (45, 57),
        (-68, 46),
        ((29, 22, 0, 2), (93, 46, -8, 12), (69, 77, 64, 63), (85, 64, 0, 52)),
        ((99, 17, 30, 67), (52, 86, 34, 53), (83, 62, -75, -74)),
    );
    lemma_final_exp_15_7();
}

proof fn lemma_final_exp_16_7()
    ensures
        GT(gt_of(1, 94)).spow(600) == GT(gt_of(90, 62)),
{
    assert(GT::sone() == GT(gt_of(1, 0)));
    lemma_gt_mul_at((1, 94), (1, 94), (53, 38), (-88, -86));
    assert(GT::spow_steps(GT(gt_of(1, 0)), GT(gt_of(1, 94)), 600) == GT::spow_steps(GT(gt_of(1, 0)), GT(gt_of(53, 38)), 300));
    lemma_gt_mul_at((53, 38), (53, 38), (52, 59), (13, 25));
    assert(GT::spow_steps(GT(gt_of(1, 0)), GT(gt_of(53, 38)), 300) == GT::spow_steps(GT(gt_of(1, 0)), GT(gt_of(52, 59)), 150));
    lemma_gt_mul_at((52, 59), (52, 59), (31, 29), (-8, 26));
    assert(GT::spow_steps(GT(gt_of(1, 0)), GT(gt_of(52, 59)), 150) == GT::spow_steps(GT(gt_of(1, 0)), GT(gt_of(31, 29)), 75));
    lemma_gt_mul_at((1, 0), (31, 29), (31, 29), (0, 0));
    lemma_gt_mul_at((31, 29), (31, 29), (19, 48), (1, 9));
    assert(GT::spow_steps(GT(gt_of(1, 0)), GT(gt_of(31, 29)), 75) == GT::spow_steps(GT(gt_of(31, 29)), GT(gt_of(19, 48)), 37));
    lemma_gt_mul_at((31, 29), (19, 48), (5, 41), (-8, 6));
    lemma_gt_mul_at((19, 48), (19, 48), (77, 25), (-20, -5));
    assert(GT::spow_steps(GT(gt_of(31, 29)), GT(gt_of(19, 48)), 37) == GT::spow_steps(GT(gt_of(5, 41)), GT(gt_of(77, 25)), 18));
    lemma_gt_mul_at((77, 25), (77, 25), (52, 94), (52, 31));
    assert(GT::spow_steps(GT(gt_of(5, 41)), GT(gt_of(77, 25)), 18) == GT::spow_steps(GT(gt_of(5, 41)), GT(gt_of(52, 94)), 9));
    lemma_gt_mul_at((5, 41), (52, 94), (42, 61), (-36, -13));
    lemma_gt_mul_at((52, 94), (52, 94), (29, 31), (-61, 9));
    assert(GT::spow_steps(GT(gt_of(5, 41)), GT(gt_of(52, 94)), 9) == GT::spow_steps(GT(gt_of(42, 61)), GT(gt_of(29, 31)), 4));
    lemma_gt_mul_at((29, 31), (29, 31), (82, 29), (-2, 8));
    assert(GT::spow_steps(GT(gt_of(42, 61)), GT(gt_of(29, 31)), 4) == GT::spow_steps(GT(gt_of(42, 61)), GT(gt_of(82, 29)), 2));
    lemma_gt_mul_at((82, 29), (82, 29), (25, 77), (58, 38));
    assert(GT::spow_steps(GT(gt_of(42, 61)), GT(gt_of(82, 29)), 2) == GT::spow_steps(GT(gt_of(42, 61)), GT(gt_of(25, 77)), 1));
    lemma_gt_mul_at((42, 61), (25, 77), (90, 62), (-37, 0));
    lemma_gt_mul_at((25, 77), (25, 77), (49, 42), (-53, -21));
    assert(GT::spow_steps(GT(gt_of(42, 61)), GT(gt_of(25, 77)), 1) == GT::spow_steps(GT(gt_of(90, 62)), GT(gt_of(49, 42)), 0));
}

/// The pairing of `16G` with the point `7 P` of the image of `H`.
proof fn lemma_pairing_16_7()
    ensures
        smiller_loop(g1p(1, 99), dq(46, 51)) is Some,
        spairing_at(g1p(1, 99), dq(46, 51)) == GT(gt_of(90, 62)),
{
    lemma_final_exponent();
    lemma_tangent_16_7();
    lemma_tangent_15_7();
    lemma_tangent_13_7();
    lemma_tangent_9_7();
    lemma_vertical_at(1, 2, 99, 46, 51);
    lemma_miller_at(
        g1p(1, 99),
        dq(46, 51),
        (g1p(68, 27), g1p(65, 3), g1p(18, 52), g1p(1, 2)),
        (80, 59),
        (15, 14),
        (33, 76),
        (76, 67),
        (-1, 46),
        ((91, 0, 28, 59), (52, 62, 13, 12), (72, 79, -12, 25), (8, 55, -36, 20)),
        ((69, 77, -30, -22), (85, 64, 0, 52), (1, 94, -30, 8)),
    );
    lemma_final_exp_16_7();
}

proof fn lemma_final_exp_1_8()
    ensures
        GT(gt_of(60, 7)).spow(600) == GT(gt_of(42, 92)),
{
    assert(GT::sone() == GT(gt_of(1, 0)));
    lemma_gt_mul_at((60, 7), (60, 7), (16, 84), (35, 7));
    assert(GT::spow_steps(GT(gt_of(1, 0)), GT(gt_of(60, 7)), 600) == GT::spow_steps(GT(gt_of(1, 0)), GT(gt_of(16, 84)), 300));
    lemma_gt_mul_at((16, 84), (16, 84), (68, 76), (-68, -44));
    assert(GT::spow_steps(GT(gt_of(1, 0)), GT(gt_of(16, 84)), 300) == GT::spow_steps(GT(gt_of(1, 0)), GT(gt_of(68, 76)), 150));
    lemma_gt_mul_at((68, 76), (68, 76), (60, 15), (-12, 45));
    assert(GT::spow_steps(GT(gt_of(1, 0)), GT(gt_of(68, 76)), 150) == GT::spow_steps(GT(gt_of(1, 0)), GT(gt_of(60, 15)), 75));
    lemma_gt_mul_at((1, 0), (60, 15), (60, 15), (0, 0));
    lemma_gt_mul_at((60, 15), (60, 15), (42, 60), (33, 15));
    assert(GT::spow_steps(GT(gt_of(1, 0)), GT(gt_of(60, 15)), 75) == GT::spow_steps(GT(gt_of(60, 15)), GT(gt_of(42, 60)), 37));
    lemma_gt_mul_at((60, 15), (42, 60), (4, 98), (16, 32));
    lemma_gt_mul_at((42, 60), (42, 60), (83, 26), (-19, 14));
    assert(GT::spow_steps(GT(gt_of(60, 15)), GT(gt_of(42, 60)), 37) == GT::spow_steps(GT(gt_of(4, 98)), GT(gt_of(83, 26)), 18));
    lemma_gt_mul_at((83, 26), (83, 26), (52, 4), (61, 36));
    assert(GT::spow_steps(GT(gt_of(4, 98)), GT(gt_of(83, 26)), 18) == GT::spow_steps(GT(gt_of(4, 98)), GT(gt_of(52, 4)), 9));
    lemma_gt_mul_at((4, 98), (52, 4), (18, 74), (-2, 46));
    lemma_gt_mul_at((52, 4), (52, 4), (62, 97), (26, 3));
    assert(GT::spow_steps(GT(gt_of(4, 98)), GT(gt_of(52, 4)), 9) == GT::spow_steps(GT(gt_of(18, 74)), GT(gt_of(62, 97)), 4));
    lemma_gt_mul_at((62, 97), (62, 97), (91, 94), (-56, 25));
    assert(GT::spow_steps(GT(gt_of(18, 74)), GT(gt_of(62, 97)), 4) == GT::spow_steps(GT(gt_of(18, 74)), GT(gt_of(91, 94)), 2));
    lemma_gt_mul_at((91, 94), (91, 94), (51, 91), (-6, 81));
    assert(GT::spow_steps(GT(gt_of(18, 74)), GT(gt_of(91, 94)), 2) == GT::spow_steps(GT(gt_of(18, 74)), GT(gt_of(51, 91)), 1));
    lemma_gt_mul_at((18, 74), (51, 91), (42, 92), (-58, -14));
    lemma_gt_mul_at((51, 91), (51, 91), (77, 92), (-57, 9));
    assert(GT::spow_steps(GT(gt_of(18, 74)), GT(gt_of(51, 91)), 1) == GT::spow_steps(GT(gt_of(42, 92)), GT(gt_of(77, 92)), 0));
}

/// The pairing of `1G` with the point `8 P` of the image of `H`.
proof fn lemma_pairing_1_8()
    ensures
        smiller_loop(g1p(1, 2), dq(1, 2)) is Some,
        spairing_at(g1p(1, 2), dq(1, 2)) == GT(gt_of(42, 92)),
{
    lemma_final_exponent();
    lemma_tangent_1_8();
    lemma_tangent_2_8();
    lemma_tangent_4_8();
    lemma_tangent_8_8();
    lemma_vertical_at(1, 99, 2, 1, 2);
    lemma_miller_at(
        g1p(1, 2),
        dq(1, 2),
        (g1p(68, 74), g1p(65, 98), g1p(18, 49), g1p(1, 99)),
        (15, 65),
        (67, 33),
        (91, 77),
        (21, 0),
        (-1, 1),
        ((40, 48, -40, -23), (86, 23, 10, 29), (100, 94, 67, 33), (44, 27, 18, 89)),
        ((96, 31, 11, 16), (97, 45, 19, 6), (60, 7, -2, 0)),
    );
    lemma_final_exp_1_8();
}

proof fn lemma_final_exp_2_8()
    ensures
        GT(gt_of(33, 99)).spow(600) == GT(gt_of(67, 72)),
{
    assert(GT::sone() == GT(gt_of(1, 0)));
    lemma_gt_mul_at((33, 99), (33, 99), (75, 66), (-87, -33));
    assert(GT::spow_steps(GT(gt_of(1, 0)), GT(gt_of(33, 99)), 600) == GT::spow_steps(GT(gt_of(1, 0)), GT(gt_of(75, 66)), 300));
    lemma_gt_mul_at((75, 66), (75, 66), (57, 90), (12, 54));
    assert(GT::spow_steps(GT(gt_of(1, 0)), GT(gt_of(75, 66)), 300) == GT::spow_steps(GT(gt_of(1, 0)), GT(gt_of(57, 90)), 150));
    lemma_gt_mul_at((57, 90), (57, 90), (98, 39), (-49, 21));
    assert(GT::spow_steps(GT(gt_of(1, 0)), GT(gt_of(57, 90)), 150) == GT::spow_steps(GT(gt_of(1, 0)), GT(gt_of(98, 39)), 75));
    lemma_gt_mul_at((1, 0), (98, 39), (98, 39), (0, 0));
    lemma_gt_mul_at((98, 39), (98, 39), (3, 63), (80, 60));
    assert(GT::spow_steps(GT(gt_of(1, 0)), GT(gt_of(98, 39)), 75) == GT::spow_steps(GT(gt_of(98, 39)), GT(gt_of(3, 63)), 37));
    lemma_gt_mul_at((98, 39), (3, 63), (59, 97), (-22, 37));
    lemma_gt_mul_at((3, 63), (3, 63), (80, 45), (-40, -36));
    assert(GT::spow_steps(GT(gt_of(98, 39)), GT(gt_of(3, 63)), 37) == GT::spow_steps(GT(gt_of(59, 97)), GT(gt_of(80, 45)), 18));
    lemma_gt_mul_at((80, 45), (80, 45), (32, 24), (43, 51));
    assert(GT::spow_steps(GT(gt_of(59, 97)), GT(gt_of(80, 45)), 18) == GT::spow_steps(GT(gt_of(59, 97)), GT(gt_of(32, 24)), 9));
    lemma_gt_mul_at((59, 97), (32, 24), (65, 71), (-5, 21));
    lemma_gt_mul_at((32, 24), (32, 24), (44, 51), (4, 9));
    assert(GT::spow_steps(GT(gt_of(59, 97)), GT(gt_of(32, 24)), 9) == GT::spow_steps(GT(gt_of(65, 71)), GT(gt_of(44, 51)), 4));
    lemma_gt_mul_at((44, 51), (44, 51), (42, 69), (-7, 18));
    assert(GT::spow_steps(GT(gt_of(65, 71)), GT(gt_of(44, 51)), 4) == GT::spow_steps(GT(gt_of(65, 71)), GT(gt_of(42, 69)), 2));
    lemma_gt_mul_at((42, 69), (42, 69), (33, 25), (-30, 10));
    assert(GT::spow_steps(GT(gt_of(65, 71)), GT(gt_of(42, 69)), 2) == GT::spow_steps(GT(gt_of(65, 71)), GT(gt_of(33, 25)), 1));
    lemma_gt_mul_at((65, 71), (33, 25), (67, 72), (3, 21));
    lemma_gt_mul_at((33, 25), (33, 25), (60, 15), (4, 10));
    assert(GT::spow_steps(GT(gt_of(65, 71)), GT(gt_of(33, 25)), 1) == GT::spow_steps(GT(gt_of(67, 72)), GT(gt_of(60, 15)), 0));
}

/// The pairing of `2G` with the point `8 P` of the image of `H`.
proof fn lemma_pairing_2_8()
    ensures
        smiller_loop(g1p(68, 74), dq(1, 2)) is Some,
        spairing_at(g1p(68, 74), dq(1, 2)) == GT(gt_of(67, 72)),
{
    lemma_final_exponent();
    lemma_tangent_2_8();
    lemma_tangent_4_8();
    lemma_tangent_8_8();
    lemma_tangent_16_8();
    lemma_vertical_at(68, 27, 74, 1, 2);
    lemma_miller_at(
        g1p(68, 74),
        dq(1, 2),
        (g1p(65, 98), g1p(18, 49), g1p(1, 99), g1p(68, 27)),
        (67, 33),
        (91, 77),
        (21, 0),
        (35, 66),
        (-68, 1),
        ((67, 0, 33, 33), (37, 8, 60, 51), (93, 23, 12, 5), (34, 79, 19, 4)),
        ((66, 40, -51, -9), (74, 86, -4, 30), (33, 99, -51, -59)),
    );
    lemma_final_exp_2_8();
}

proof fn lemma_final_exp_3_8()
    ensures
        GT(gt_of(50, 97)).spow(600) == GT(gt_of(28, 39)),
{
    assert(GT::sone() == GT(gt_of(1, 0)));
    lemma_gt_mul_at((50, 97), (50, 97), (60, 89), (-69, 2));
    assert(GT::spow_steps(GT(gt_of(1, 0)), GT(gt_of(50, 97)), 600) == GT::spow_steps(GT(gt_of(1, 0)), GT(gt_of(60, 89)), 300));
    lemma_gt_mul_at((60, 89), (60, 89), (22, 32), (-43, 27));
    assert(GT::spow_steps(GT(gt_of(1, 0)), GT(gt_of(60, 89)), 300) == GT::spow_steps(GT(gt_of(1, 0)), GT(gt_of(22, 32)), 150));
    lemma_gt_mul_at((22, 32), (22, 32), (66, 81), (-6, 3));
    assert(GT::spow_steps(GT(gt_of(1, 0)), GT(gt_of(22, 32)), 150) == GT::spow_steps(GT(gt_of(1, 0)), GT(gt_of(66, 81)), 75));
    lemma_gt_mul_at((1, 0), (66, 81), (66, 81), (0, 0));
    lemma_gt_mul_at((66, 81), (66, 81), (17, 91), (-22, 40));
    assert(GT::spow_steps(GT(gt_of(1, 0)), GT(gt_of(66, 81)), 75) == GT::spow_steps(GT(gt_of(66, 81)), GT(gt_of(17, 91)), 37));
    lemma_gt_mul_at((66, 81), (17, 91), (13, 12), (-62, 0));
    lemma_gt_mul_at((17, 91), (17, 91), (88, 65), (-80, -52));
    assert(GT::spow_steps(GT(gt_of(66, 81)), GT(gt_of(17, 91)), 37) == GT::spow_steps(GT(gt_of(13, 12)), GT(gt_of(88, 65)), 18));
    lemma_gt_mul_at((88, 65), (88, 65), (85, 44), (34, 71));
    assert(GT::spow_steps(GT(gt_of(13, 12)), GT(gt_of(88, 65)), 18) == GT::spow_steps(GT(gt_of(13, 12)), GT(gt_of(85, 44)), 9));
    lemma_gt_mul_at((13, 12), (85, 44), (72, 54), (5, 10));
    lemma_gt_mul_at((85, 44), (85, 44), (37, 90), (52, 54));
    assert(GT::spow_steps(GT(gt_of(13, 12)), GT(gt_of(85, 44)), 9) == GT::spow_steps(GT(gt_of(72, 54)), GT(gt_of(37, 90)), 4));
    lemma_gt_mul_at((37, 90), (37, 90), (36, 75), (-67, -15));
    assert(GT::spow_steps(GT(gt_of(72, 54)), GT(gt_of(37, 90)), 4) == GT::spow_steps(GT(gt_of(72, 54)), GT(gt_of(36, 75)), 2));
    lemma_gt_mul_at((36, 75), (36, 75), (14, 78), (-43, -3));
    assert(GT::spow_steps(GT(gt_of(72, 54)), GT(gt_of(36, 75)), 2) == GT::spow_steps(GT(gt_of(72, 54)), GT(gt_of(14, 78)), 1));
    lemma_gt_mul_at((72, 54), (14, 78), (28, 39), (-32, 21));
    lemma_gt_mul_at((14, 78), (14, 78), (71, 39), (-59, -39));
    assert(GT::spow_steps(GT(gt_of(72, 54)), GT(gt_of(14, 78)), 1) == GT::spow_steps(GT(gt_of(28, 39)), GT(gt_of(71, 39)), 0));
}

/// The pairing of `3G` with the point `8 P` of the image of `H`.
proof fn lemma_pairing_3_8()
    ensures
        smiller_loop(g1p(26, 45), dq(1, 2)) is Some,
        spairing_at(g1p(26, 45), dq(1, 2)) == GT(gt_of(28, 39)),
{
    lemma_final_exponent();
    lemma_tangent_3_8();
    lemma_tangent_6_8();
    lemma_tangent_12_8();
    lemma_tangent_7_8();
    lemma_vertical_at(26, 56, 45, 1, 2);
    lemma_miller_at(
        g1p(26, 45),
        dq(1, 2),
        (g1p(32, 42), g1p(12, 69), g1p(91, 35), g1p(26, 56)),
        (47, 27),
        (75, 33),
        (29, 34),
        (77, 65),
        (-26, 1),
        ((66, 92, 14, 17), (96, 83, 18, 59), (4, 58, 23, 89), (63, 48, -19, -2)),
        ((49, 7, 16, 37), (86, 37, 32, 32), (50, 97, -23, -10)),
    );
    lemma_final_exp_3_8();
}

proof fn lemma_final_exp_4_8()
    ensures
        GT(gt_of(26, 68)).spow(600) == GT(gt_of(12, 20)),
{
    assert(GT::sone() == GT(gt_of(1, 0)));
    lemma_gt_mul_at((26, 68), (26, 68), (92, 23), (-40, -11));
    assert(GT::spow_steps(GT(gt_of(1, 0)), GT(gt_of(26, 68)), 600) == GT::spow_steps(GT(gt_of(1, 0)), GT(gt_of(92, 23)), 300));
    lemma_gt_mul_at((92, 23), (92, 23), (57, 67), (78, 36));
    assert(GT::spow_steps(GT(gt_of(1, 0)), GT(gt_of(92, 23)), 300) == GT::spow_steps(GT(gt_of(1, 0)), GT(gt_of(57, 67)), 150));
    lemma_gt_mul_at((57, 67), (57, 67), (73, 18), (-13, 31));
    assert(GT::spow_steps(GT(gt_of(1, 0)), GT(gt_of(57, 67)), 150) == GT::spow_steps(GT(gt_of(1, 0)), GT(gt_of(73, 18)), 75));
    lemma_gt_mul_at((1, 0), (73, 18), (73, 18), (0, 0));
    lemma_gt_mul_at((73, 18), (73, 18), (56, 82), (49, 22));
    assert(GT::spow_steps(GT(gt_of(1, 0)), GT(gt_of(73, 18)), 75) == GT::spow_steps(GT(gt_of(73, 18)), GT(gt_of(56, 82)), 37));
    lemma_gt_mul_at((73, 18), (56, 82), (87, 64), (25, 54));
    lemma_gt_mul_at((56, 82), (56, 82), (48, 36), (-36, 24));
    assert(GT::spow_steps(GT(gt_of(73, 18)), GT(gt_of(56, 82)), 37) == GT::spow_steps(GT(gt_of(87, 64)), GT(gt_of(48, 36)), 18));
    lemma_gt_mul_at((48, 36), (48, 36), (99, 39), (9, 21));
    assert(GT::spow_steps(GT(gt_of(87, 64)), GT(gt_of(48, 36)), 18) == GT::spow_steps(GT(gt_of(87, 64)), GT(gt_of(99, 39)), 9));
    lemma_gt_mul_at((87, 64), (99, 39), (57, 62), (60, 71));
    lemma_gt_mul_at((99, 39), (99, 39), (99, 40), (81, 61));
    assert(GT::spow_steps(GT(gt_of(87, 64)), GT(gt_of(99, 39)), 9) == GT::spow_steps(GT(gt_of(57, 62)), GT(gt_of(99, 40)), 4));
    lemma_gt_mul_at((99, 40), (99, 40), (20, 58), (81, 62));
    assert(GT::spow_steps(GT(gt_of(57, 62)), GT(gt_of(99, 40)), 4) == GT::spow_steps(GT(gt_of(57, 62)), GT(gt_of(20, 58)), 2));
    lemma_gt_mul_at((20, 58), (20, 58), (66, 67), (-30, -11));
    assert(GT::spow_steps(GT(gt_of(57, 62)), GT(gt_of(20, 58)), 2) == GT::spow_steps(GT(gt_of(57, 62)), GT(gt_of(66, 67)), 1));
    lemma_gt_mul_at((57, 62), (66, 67), (12, 20), (-4, 37));
    lemma_gt_mul_at((66, 67), (66, 67), (69, 12), (-2, 43));
    assert(GT::spow_steps(GT(gt_of(57, 62)), GT(gt_of(66, 67)), 1) == GT::spow_steps(GT(gt_of(12, 20)), GT(gt_of(69, 12)), 0));
}

/// The pairing of `4G` with the point `8 P` of the image of `H`.
proof fn lemma_pairing_4_8()
    ensures
        smiller_loop(g1p(65, 98), dq(1, 2)) is Some,
        spairing_at(g1p(65, 98), dq(1, 2)) == GT(gt_of(12, 20)),
{
    lemma_final_exponent();
    lemma_tangent_4_8();
    lemma_tangent_8_8();
    lemma_tangent_16_8();
    lemma_tangent_15_8();
    lemma_vertical_at(65, 3, 98, 1, 2);
    lemma_miller_at(
        g1p(65, 98),
        dq(1, 2),
        (g1p(18, 49), g1p(1, 99), g1p(68, 27), g1p(65, 3)),
        (91, 77),
        (21, 0),
        (35, 66),
        (8, 37),
        (-65, 1),
        ((29, 5, 23, 80), (3, 4, 6, 1), (94, 8, -1, 0), (35, 98, 27, 58)),
        ((4, 84, -83, -28), (55, 35, -31, -23), (26, 68, -36, -23)),
    );
    lemma_final_exp_4_8();
}

proof fn lemma_final_exp_5_8()
    ensures
        GT(gt_of(20, 83)).spow(600) == GT(gt_of(78, 3)),
{
    assert(GT::sone() == GT(gt_of(1, 0)));
    lemma_gt_mul_at((20, 83), (20, 83), (76, 67), (-65, -36));
    assert(GT::spow_steps(GT(gt_of(1, 0)), GT(gt_of(20, 83)), 600) == GT::spow_steps(GT(gt_of(1, 0)), GT(gt_of(76, 67)), 300));
    lemma_gt_mul_at((76, 67), (76, 67), (75, 39), (12, 56));
    assert(GT::spow_steps(GT(gt_of(1, 0)), GT(gt_of(76, 67)), 300) == GT::spow_steps(GT(gt_of(1, 0)), GT(gt_of(75, 39)), 150));
    lemma_gt_mul_at((75, 39), (75, 39), (64, 87), (40, 42));
    assert(GT::spow_steps(GT(gt_of(1, 0)), GT(gt_of(75, 39)), 150) == GT::spow_steps(GT(gt_of(1, 0)), GT(gt_of(64, 87)), 75));
    lemma_gt_mul_at((1, 0), (64, 87), (64, 87), (0, 0));
    lemma_gt_mul_at((64, 87), (64, 87), (62, 32), (-35, 35));
    assert(GT::spow_steps(GT(gt_of(1, 0)), GT(gt_of(64, 87)), 75) == GT::spow_steps(GT(gt_of(64, 87)), GT(gt_of(62, 32)), 37));
    lemma_gt_mul_at((64, 87), (62, 32), (73, 12), (11, 46));
    lemma_gt_mul_at((62, 32), (62, 32), (93, 15), (27, 29));
    assert(GT::spow_steps(GT(gt_of(64, 87)), GT(gt_of(62, 32)), 37) == GT::spow_steps(GT(gt_of(73, 12)), GT(gt_of(93, 15)), 18));
    lemma_gt_mul_at((93, 15), (93, 15), (41, 40), (83, 25));
    assert(GT::spow_steps(GT(gt_of(73, 12)), GT(gt_of(93, 15)), 18) == GT::spow_steps(GT(gt_of(73, 12)), GT(gt_of(41, 40)), 9));
    lemma_gt_mul_at((73, 12), (41, 40), (89, 3), (24, 29));
    lemma_gt_mul_at((41, 40), (41, 40), (81, 64), (0, 16));
    assert(GT::spow_steps(GT(gt_of(73, 12)), GT(gt_of(41, 40)), 9) == GT::spow_steps(GT(gt_of(89, 3)), GT(gt_of(81, 64)), 4));
    lemma_gt_mul_at((81, 64), (81, 64), (41, 10), (24, 62));
    assert(GT::spow_steps(GT(gt_of(89, 3)), GT(gt_of(81, 64)), 4) == GT::spow_steps(GT(gt_of(89, 3)), GT(gt_of(41, 10)), 2));
    lemma_gt_mul_at((41, 10), (41, 10), (66, 13), (15, 7));
    assert(GT::spow_steps(GT(gt_of(89, 3)), GT(gt_of(41, 10)), 2) == GT::spow_steps(GT(gt_of(89, 3)), GT(gt_of(66, 13)), 1));
    lemma_gt_mul_at((89, 3), (66, 13), (78, 3), (57, 13));
    lemma_gt_mul_at((66, 13), (66, 13), (46, 32), (41, 15));
    assert(GT::spow_steps(GT(gt_of(89, 3)), GT(gt_of(66, 13)), 1) == GT::spow_steps(GT(gt_of(78, 3)), GT(gt_of(46, 32)), 0));
}

/// The pairing of `5G` with the point `8 P` of the image of `H`.
proof fn lemma_pairing_5_8()
    ensures
        smiller_loop(g1p(12, 32), dq(1, 2)) is Some,
        spairing_at(g1p(12, 32), dq(1, 2)) == GT(gt_of(78, 3)),
{
    lemma_final_exponent();
    lemma_tangent_5_8();
    lemma_tangent_10_8();
    lemma_tangent_3_8();
    lemma_tangent_6_8();
    lemma_vertical_at(12, 69, 32, 1, 2);
    lemma_miller_at(
        g1p(12, 32),
        dq(1, 2),
        (g1p(91, 66), g1p(26, 45), g1p(32, 42), g1p(12, 69)),
        (28, 27),
        (51, 37),
        (47, 27),
        (75, 33),
        (-12, 1),
        ((55, 76, 0, 7), (94, 69, -1, 30), (35, 30, 40, 81), (27, 30, 8, 15)),
        ((31, 13, -2, 7), (78, 54, 18, 15), (20, 83, -10, -7)),
    );
    lemma_final_exp_5_8();
}

proof fn lemma_final_exp_6_8()
    ensures
        GT(gt_of(1, 16)).spow(600) == GT(gt_of(71, 57)),
{
    assert(GT::sone() == GT(gt_of(1, 0)));
    lemma_gt_mul_at((1, 16), (1, 16), (48, 79), (-3, -3));
    assert(GT::spow_steps(GT(gt_of(1, 0)), GT(gt_of(1, 16)), 600) == GT::spow_steps(GT(gt_of(1, 0)), GT(gt_of(48, 79)), 300));
    lemma_gt_mul_at((48, 79), (48, 79), (2, 30), (-39, 13));
    assert(GT::spow_steps(GT(gt_of(1, 0)), GT(gt_of(48, 79)), 300) == GT::spow_steps(GT(gt_of(1, 0)), GT(gt_of(2, 30)), 150));
    lemma_gt_mul_at((2, 30), (2, 30), (13, 28), (-9, -8));
    assert(GT::spow_steps(GT(gt_of(1, 0)), GT(gt_of(2, 30)), 150) == GT::spow_steps(GT(gt_of(1, 0)), GT(gt_of(13, 28)), 75));
    lemma_gt_mul_at((1, 0), (13, 28), (13, 28), (0, 0));
    lemma_gt_mul_at((13, 28), (13, 28), (92, 45), (-7, -1));
    assert(GT::spow_steps(GT(gt_of(1, 0)), GT(gt_of(13, 28)), 75) == GT::spow_steps(GT(gt_of(13, 28)), GT(gt_of(92, 45)), 37));
    lemma_gt_mul_at((13, 28), (92, 45), (37, 83), (-1, 18));
    lemma_gt_mul_at((92, 45), (92, 45), (76, 94), (63, 61));
    assert(GT::spow_steps(GT(gt_of(13, 28)), GT(gt_of(92, 45)), 37) == GT::spow_steps(GT(gt_of(37, 83)), GT(gt_of(76, 94)), 18));
    lemma_gt_mul_at((76, 94), (76, 94), (71, 99), (-31, 53));
    assert(GT::spow_steps(GT(gt_of(37, 83)), GT(gt_of(76, 94)), 18) == GT::spow_steps(GT(gt_of(37, 83)), GT(gt_of(71, 99)), 9));
    lemma_gt_mul_at((37, 83), (71, 99), (66, 26), (-56, 13));
    lemma_gt_mul_at((71, 99), (71, 99), (88, 15), (-48, 42));
    assert(GT::spow_steps(GT(gt_of(37, 83)), GT(gt_of(71, 99)), 9) == GT::spow_steps(GT(gt_of(66, 26)), GT(gt_of(88, 15)), 4));
    lemma_gt_mul_at((88, 15), (88, 15), (45, 92), (74, 23));
    assert(GT::spow_steps(GT(gt_of(66, 26)), GT(gt_of(88, 15)), 4) == GT::spow_steps(GT(gt_of(66, 26)), GT(gt_of(45, 92)), 2));
    lemma_gt_mul_at((45, 92), (45, 92), (25, 18), (-64, -2));
    assert(GT::spow_steps(GT(gt_of(66, 26)), GT(gt_of(45, 92)), 2) == GT::spow_steps(GT(gt_of(66, 26)), GT(gt_of(25, 18)), 1));
    lemma_gt_mul_at((66, 26), (25, 18), (71, 57), (11, 13));
    lemma_gt_mul_at((25, 18), (25, 18), (99, 71), (2, 5));
    assert(GT::spow_steps(GT(gt_of(66, 26)), GT(gt_of(25, 18)), 1) == GT::spow_steps(GT(gt_of(71, 57)), GT(gt_of(99, 71)), 0));
}

/// The pairing of `6G` with the point `8 P` of the image of `H`.
proof fn lemma_pairing_6_8()
    ensures
        smiller_loop(g1p(32, 42), dq(1, 2)) is Some,
        spairing_at(g1p(32, 42), dq(1, 2)) == GT(gt_of(71, 57)),
{
    lemma_final_exponent();
    lemma_tangent_6_8();
    lemma_tangent_12_8();
    lemma_tangent_7_8();
    lemma_tangent_14_8();
    lemma_vertical_at(32, 59, 42, 1, 2);
    lemma_miller_at(
        g1p(32, 42),
        dq(1, 2),
        (g1p(12, 69), g1p(91, 35), g1p(26, 56), g1p(32, 59)),
        (75, 33),
        (29, 34),
        (77, 65),
        (34, 3),
        (-32, 1),
        ((92, 23, 44, 38), (68, 84, 18, 29), (93, 25, -25, 43), (82, 83, 54, 62)),
        ((37, 57, -2, 66), (77, 60, 10, 18), (1, 16, -25, -19)),
    );
    lemma_final_exp_6_8();
}

proof fn lemma_final_exp_7_8()
    ensures
        GT(gt_of(92, 80)).spow(600) == GT(gt_of(61, 46)),
{
    assert(GT::sone() == GT(gt_of(1, 0)));
    lemma_gt_mul_at((92, 80), (92, 80), (44, 38), (20, 82));
    assert(GT::spow_steps(GT(gt_of(1, 0)), GT(gt_of(92, 80)), 600) == GT::spow_steps(GT(gt_of(1, 0)), GT(gt_of(44, 38)), 300));
    lemma_gt_mul_at((44, 38), (44, 38), (88, 82), (4, 18));
    assert(GT::spow_steps(GT(gt_of(1, 0)), GT(gt_of(44, 38)), 300) == GT::spow_steps(GT(gt_of(1, 0)), GT(gt_of(88, 82)), 150));
    lemma_gt_mul_at((88, 82), (88, 82), (10, 32), (10, 76));
    assert(GT::spow_steps(GT(gt_of(1, 0)), GT(gt_of(88, 82)), 150) == GT::spow_steps(GT(gt_of(1, 0)), GT(gt_of(10, 32)), 75));
    lemma_gt_mul_at((1, 0), (10, 32), (10, 32), (0, 0));
    lemma_gt_mul_at((10, 32), (10, 32), (86, 20), (-10, -4));
    assert(GT::spow_steps(GT(gt_of(1, 0)), GT(gt_of(10, 32)), 75) == GT::spow_steps(GT(gt_of(10, 32)), GT(gt_of(86, 20)), 37));
    lemma_gt_mul_at((10, 32), (86, 20), (18, 90), (2, 22));
    lemma_gt_mul_at((86, 20), (86, 20), (27, 10), (69, 30));
    assert(GT::spow_steps(GT(gt_of(10, 32)), GT(gt_of(86, 20)), 37) == GT::spow_steps(GT(gt_of(18, 90)), GT(gt_of(27, 10)), 18));
    lemma_gt_mul_at((27, 10), (27, 10), (23, 36), (6, 4));
    assert(GT::spow_steps(GT(gt_of(18, 90)), GT(gt_of(27, 10)), 18) == GT::spow_steps(GT(gt_of(18, 90)), GT(gt_of(23, 36)), 9));
    lemma_gt_mul_at((18, 90), (23, 36), (2, 84), (-28, -6));
    lemma_gt_mul_at((23, 36), (23, 36), (41, 57), (-8, 3));
    assert(GT::spow_steps(GT(gt_of(18, 90)), GT(gt_of(23, 36)), 9) == GT::spow_steps(GT(gt_of(2, 84)), GT(gt_of(41, 57)), 4));
    lemma_gt_mul_at((41, 57), (41, 57), (48, 11), (-16, 14));
    assert(GT::spow_steps(GT(gt_of(2, 84)), GT(gt_of(41, 57)), 4) == GT::spow_steps(GT(gt_of(2, 84)), GT(gt_of(48, 11)), 2));
    lemma_gt_mul_at((48, 11), (48, 11), (62, 26), (21, 9));
    assert(GT::spow_steps(GT(gt_of(2, 84)), GT(gt_of(48, 11)), 2) == GT::spow_steps(GT(gt_of(2, 84)), GT(gt_of(62, 26)), 1));
    lemma_gt_mul_at((2, 84), (62, 26), (61, 46), (-21, 30));
    lemma_gt_mul_at((62, 26), (62, 26), (37, 23), (31, 25));
    assert(GT::spow_steps(GT(gt_of(2, 84)), GT(gt_of(62, 26)), 1) == GT::spow_steps(GT(gt_of(61, 46)), GT(gt_of(37, 23)), 0));
}

/// The pairing of `7G` with the point `8 P` of the image of `H`.
proof fn lemma_pairing_7_8()
    ensures
        smiller_loop(g1p(91, 35), dq(1, 2)) is Some,
        spairing_at(g1p(91, 35), dq(1, 2)) == GT(gt_of(61, 46)),
{
    lemma_final_exponent();
    lemma_tangent_7_8();
    lemma_tangent_14_8();
    lemma_tangent_11_8();
    lemma_tangent_5_8();
    lemma_vertical_at(91, 66, 35, 1, 2);
    lemma_miller_at(
        g1p(91, 35),
        dq(1, 2),
        (g1p(26, 56), g1p(32, 59), g1p(12, 32), g1p(91, 66)),
        (77, 65),
        (34, 3),
        (90, 3),
        (28, 27),
        (-91, 1),
        ((88, 28, 16, 57), (80, 21, 28, 11), (0, 91, 59, 28), (30, 39, -3, 78)),
        ((86, 11, -7, 8), (91, 10, 20, 23), (92, 80, -83, -9)),
    );
    lemma_final_exp_7_8();
}

proof fn lemma_final_exp_8_8()
    ensures
        GT(gt_of(87, 52)).spow(600) == GT(gt_of(47, 80)),
{
    assert(GT::sone() == GT(gt_of(1, 0)));
    lemma_gt_mul_at((87, 52), (87, 52), (17, 82), (48, 62));
    assert(GT::spow_steps(GT(gt_of(1, 0)), GT(gt_of(87, 52)), 600) == GT::spow_steps(GT(gt_of(1, 0)), GT(gt_of(17, 82)), 300));
    lemma_gt_mul_at((17, 82), (17, 82), (29, 3), (-64, -39));
    assert(GT::spow_steps(GT(gt_of(1, 0)), GT(gt_of(17, 82)), 300) == GT::spow_steps(GT(gt_of(1, 0)), GT(gt_of(29, 3)), 150));
    lemma_gt_mul_at((29, 3), (29, 3), (24, 64), (8, 1));
    assert(GT::spow_steps(GT(gt_of(1, 0)), GT(gt_of(29, 3)), 150) == GT::spow_steps(GT(gt_of(1, 0)), GT(gt_of(24, 64)), 75));
    lemma_gt_mul_at((1, 0), (24, 64), (24, 64), (0, 0));
    lemma_gt_mul_at((24, 64), (24, 64), (15, 87), (-35, -11));
    assert(GT::spow_steps(GT(gt_of(1, 0)), GT(gt_of(24, 64)), 75) == GT::spow_steps(GT(gt_of(24, 64)), GT(gt_of(15, 87)), 37));
    lemma_gt_mul_at((24, 64), (15, 87), (44, 5), (-52, -25));
    lemma_gt_mul_at((15, 87), (15, 87), (29, 91), (-73, -50));
    assert(GT::spow_steps(GT(gt_of(24, 64)), GT(gt_of(15, 87)), 37) == GT::spow_steps(GT(gt_of(44, 5)), GT(gt_of(29, 91)), 18));
    lemma_gt_mul_at((29, 91), (29, 91), (34, 27), (-74, -30));
    assert(GT::spow_steps(GT(gt_of(44, 5)), GT(gt_of(29, 91)), 18) == GT::spow_steps(GT(gt_of(44, 5)), GT(gt_of(34, 27)), 9));
    lemma_gt_mul_at((44, 5), (34, 27), (48, 11), (13, 12));
    lemma_gt_mul_at((34, 27), (34, 27), (23, 97), (4, 10));
    assert(GT::spow_steps(GT(gt_of(44, 5)), GT(gt_of(34, 27)), 9) == GT::spow_steps(GT(gt_of(48, 11)), GT(gt_of(23, 97)), 4));
    lemma_gt_mul_at((23, 97), (23, 97), (8, 2), (-88, -49));
    assert(GT::spow_steps(GT(gt_of(48, 11)), GT(gt_of(23, 97)), 4) == GT::spow_steps(GT(gt_of(48, 11)), GT(gt_of(8, 2)), 2));
    lemma_gt_mul_at((8, 2), (8, 2), (60, 28), (0, 0));
    assert(GT::spow_steps(GT(gt_of(48, 11)), GT(gt_of(8, 2)), 2) == GT::spow_steps(GT(gt_of(48, 11)), GT(gt_of(60, 28)), 1));
    lemma_gt_mul_at((48, 11), (60, 28), (47, 80), (25, 16));
    lemma_gt_mul_at((60, 28), (60, 28), (89, 51), (27, 25));
    assert(GT::spow_steps(GT(gt_of(48, 11)), GT(gt_of(60, 28)), 1) == GT::spow_steps(GT(gt_of(47, 80)), GT(gt_of(89, 51)), 0));
}

/// The pairing of `8G` with the point `8 P` of the image of `H`.
proof fn lemma_pairing_8_8()
    ensures
        smiller_loop(g1p(18, 49), dq(1, 2)) is Some,
        spairing_at(g1p(18, 49), dq(1, 2)) == GT(gt_of(47, 80)),
{
    lemma_final_exponent();
    lemma_tangent_8_8();
    lemma_tangent_16_8();
    lemma_tangent_15_8();
    lemma_tangent_13_8();
    lemma_vertical_at(18, 52, 49, 1, 2);
    lemma_miller_at(
        g1p(18, 49),
        dq(1, 2),
        (g1p(1, 99), g1p(68, 27), g1p(65, 3), g1p(18, 52)),
        (21, 0),
        (35, 66),
        (8, 37),
        (99, 34),
        (-18, 1),
        ((37, 0, 4, 0), (83, 18, 12, 24), (0, 38, 65, 26), (8, 9, -14, -11)),
        ((84, 63, -1, 0), (13, 83, 61, 68), (87, 52, -4, -16)),
    );
    lemma_final_exp_8_8();
}

proof fn lemma_final_exp_9_8()
    ensures
        GT(gt_of(24, 18)).spow(600) == GT(gt_of(68, 21)),
{
    assert(GT::sone() == GT(gt_of(1, 0)));
    lemma_gt_mul_at((24, 18), (24, 18), (50, 35), (2, 5));
    assert(GT::spow_steps(GT(gt_of(1, 0)), GT(gt_of(24, 18)), 600) == GT::spow_steps(GT(gt_of(1, 0)), GT(gt_of(50, 35)), 300));
    lemma_gt_mul_at((50, 35), (50, 35), (63, 53), (12, 22));
    assert(GT::spow_steps(GT(gt_of(1, 0)), GT(gt_of(50, 35)), 300) == GT::spow_steps(GT(gt_of(1, 0)), GT(gt_of(63, 53)), 150));
    lemma_gt_mul_at((63, 53), (63, 53), (49, 31), (11, 38));
    assert(GT::spow_steps(GT(gt_of(1, 0)), GT(gt_of(63, 53)), 150) == GT::spow_steps(GT(gt_of(1, 0)), GT(gt_of(49, 31)), 75));
    lemma_gt_mul_at((1, 0), (49, 31), (49, 31), (0, 0));
    lemma_gt_mul_at((49, 31), (49, 31), (26, 57), (14, 20));
    assert(GT::spow_steps(GT(gt_of(1, 0)), GT(gt_of(49, 31)), 75) == GT::spow_steps(GT(gt_of(49, 31)), GT(gt_of(26, 57)), 37));
    lemma_gt_mul_at((49, 31), (26, 57), (12, 14), (-5, 18));
    lemma_gt_mul_at((26, 57), (26, 57), (53, 18), (-26, -3));
    assert(GT::spow_steps(GT(gt_of(49, 31)), GT(gt_of(26, 57)), 37) == GT::spow_steps(GT(gt_of(12, 14)), GT(gt_of(53, 18)), 18));
    lemma_gt_mul_at((53, 18), (53, 18), (61, 69), (24, 15));
    assert(GT::spow_steps(GT(gt_of(12, 14)), GT(gt_of(53, 18)), 18) == GT::spow_steps(GT(gt_of(12, 14)), GT(gt_of(61, 69)), 9));
    lemma_gt_mul_at((12, 14), (61, 69), (69, 9), (-3, 7));
    lemma_gt_mul_at((61, 69), (61, 69), (71, 21), (-11, 36));
    assert(GT::spow_steps(GT(gt_of(12, 14)), GT(gt_of(61, 69)), 9) == GT::spow_steps(GT(gt_of(69, 9)), GT(gt_of(71, 21)), 4));
    lemma_gt_mul_at((71, 21), (71, 21), (55, 16), (45, 25));
    assert(GT::spow_steps(GT(gt_of(69, 9)), GT(gt_of(71, 21)), 4) == GT::spow_steps(GT(gt_of(69, 9)), GT(gt_of(55, 16)), 2));
    lemma_gt_mul_at((55, 16), (55, 16), (42, 90), (27, 14));
    assert(GT::spow_steps(GT(gt_of(69, 9)), GT(gt_of(55, 16)), 2) == GT::spow_steps(GT(gt_of(69, 9)), GT(gt_of(42, 90)), 1));
    lemma_gt_mul_at((69, 9), (42, 90), (68, 21), (20, 57));
    lemma_gt_mul_at((42, 90), (42, 90), (27, 66), (-63, -6));
    assert(GT::spow_steps(GT(gt_of(69, 9)), GT(gt_of(42, 90)), 1) == GT::spow_steps(GT(gt_of(68, 21)), GT(gt_of(27, 66)), 0));
}

/// The pairing of `9G` with the point `8 P` of the image of `H`.
proof fn lemma_pairing_9_8()
    ensures
        smiller_loop(g1p(18, 52), dq(1, 2)) is Some,
        spairing_at(g1p(18, 52), dq(1, 2)) == GT(gt_of(68, 21)),
{
    lemma_final_exponent();
    lemma_tangent_9_8();
    lemma_tangent_1_8();
    lemma_tangent_2_8();
    lemma_tangent_4_8();
    lemma_vertical_at(18, 49, 52, 1, 2);
    lemma_miller_at(
        g1p(18, 52),
        dq(1, 2),
        (g1p(1, 2), g1p(68, 74), g1p(65, 98), g1p(18, 49)),
        (10, 66),
        (15, 65),
        (67, 33),
        (91, 77),
        (-18, 1),
        ((87, 95, -43, -31), (79, 97, -49, 8), (64, 59, -32, 58), (18, 78, 23, 40)),
        ((98, 57, -58, -33), (85, 62, 44, 82), (24, 18, -16, -11)),
    );
    lemma_final_exp_9_8();
}

proof fn lemma_final_exp_10_8()
    ensures
        GT(gt_of(21, 29)).spow(600) == GT(gt_of(15, 55)),
{
    assert(GT::sone() == GT(gt_of(1, 0)));
    lemma_gt_mul_at((21, 29), (21, 29), (4, 74), (-4, 3));
    assert(GT::spow_steps(GT(gt_of(1, 0)), GT(gt_of(21, 29)), 600) == GT::spow_steps(GT(gt_of(1, 0)), GT(gt_of(4, 74)), 300));
    lemma_gt_mul_at((4, 74), (4, 74), (95, 65), (-55, -49));
    assert(GT::spow_steps(GT(gt_of(1, 0)), GT(gt_of(4, 74)), 300) == GT::spow_steps(GT(gt_of(1, 0)), GT(gt_of(95, 65)), 150));
    lemma_gt_mul_at((95, 65), (95, 65), (53, 45), (47, 80));
    assert(GT::spow_steps(GT(gt_of(1, 0)), GT(gt_of(95, 65)), 150) == GT::spow_steps(GT(gt_of(1, 0)), GT(gt_of(53, 45)), 75));
    lemma_gt_mul_at((1, 0), (53, 45), (53, 45), (0, 0));
    lemma_gt_mul_at((53, 45), (53, 45), (77, 18), (7, 27));
    assert(GT::spow_steps(GT(gt_of(1, 0)), GT(gt_of(53, 45)), 75) == GT::spow_steps(GT(gt_of(53, 45)), GT(gt_of(77, 18)), 37));
    lemma_gt_mul_at((53, 45), (77, 18), (39, 74), (32, 35));
    lemma_gt_mul_at((77, 18), (77, 18), (50, 24), (55, 24));
    assert(GT::spow_steps(GT(gt_of(53, 45)), GT(gt_of(77, 18)), 37) == GT::spow_steps(GT(gt_of(39, 74)), GT(gt_of(50, 24)), 18));
    lemma_gt_mul_at((50, 24), (50, 24), (5, 6), (19, 18));
    assert(GT::spow_steps(GT(gt_of(39, 74)), GT(gt_of(50, 24)), 18) == GT::spow_steps(GT(gt_of(39, 74)), GT(gt_of(5, 6)), 9));
    lemma_gt_mul_at((39, 74), (5, 6), (54, 59), (-3, 1));
    lemma_gt_mul_at((5, 6), (5, 6), (90, 24), (-1, 0));
    assert(GT::spow_steps(GT(gt_of(39, 74)), GT(gt_of(5, 6)), 9) == GT::spow_steps(GT(gt_of(54, 59)), GT(gt_of(90, 24)), 4));
    lemma_gt_mul_at((90, 24), (90, 24), (50, 7), (74, 37));
    assert(GT::spow_steps(GT(gt_of(54, 59)), GT(gt_of(90, 24)), 4) == GT::spow_steps(GT(gt_of(54, 59)), GT(gt_of(50, 7)), 2));
    lemma_gt_mul_at((50, 7), (50, 7), (27, 45), (24, 6));
    assert(GT::spow_steps(GT(gt_of(54, 59)), GT(gt_of(50, 7)), 2) == GT::spow_steps(GT(gt_of(54, 59)), GT(gt_of(27, 45)), 1));
    lemma_gt_mul_at((54, 59), (27, 45), (15, 55), (-12, 13));
    lemma_gt_mul_at((27, 45), (27, 45), (17, 1), (-13, 4));
    assert(GT::spow_steps(GT(gt_of(54, 59)), GT(gt_of(27, 45)), 1) == GT::spow_steps(GT(gt_of(15, 55)), GT(gt_of(17, 1)), 0));
}

/// The pairing of `10G` with the point `8 P` of the image of `H`.
proof fn lemma_pairing_10_8()
    ensures
        smiller_loop(g1p(91, 66), dq(1, 2)) is Some,
        spairing_at(g1p(91, 66), dq(1, 2)) == GT(gt_of(15, 55)),
{
    lemma_final_exponent();
    lemma_tangent_10_8();
    lemma_tangent_3_8();
    lemma_tangent_6_8();
    lemma_tangent_12_8();
    lemma_vertical_at(91, 35, 66, 1, 2);
    lemma_miller_at(
        g1p(91, 66),
        dq(1, 2),
        (g1p(26, 45), g1p(32, 42), g1p(12, 69), g1p(91, 35)),
        (51, 37),
        (47, 27),
        (75, 33),
        (29, 34),
        (-91, 1),
        ((20, 82, 12, 23), (39, 59, -13, 21), (60, 10, -20, 11), (29, 77, 41, 23)),
        ((63, 52, -51, -15), (59, 64, 0, 18), (21, 29, -54, -58)),
    );
    lemma_final_exp_10_8();
}

proof fn lemma_final_exp_11_8()
    ensures
        GT(gt_of(54, 99)).spow(600) == GT(gt_of(14, 44)),
{
    assert(GT::sone() == GT(gt_of(1, 0)));
    lemma_gt_mul_at((54, 99), (54, 99), (84, 83), (-69, 8));
    assert(GT::spow_steps(GT(gt_of(1, 0)), GT(gt_of(54, 99)), 600) == GT::spow_steps(GT(gt_of(1, 0)), GT(gt_of(84, 83)), 300));
    lemma_gt_mul_at((84, 83), (84, 83), (66, 86), (1, 69));
    assert(GT::spow_steps(GT(gt_of(1, 0)), GT(gt_of(84, 83)), 300) == GT::spow_steps(GT(gt_of(1, 0)), GT(gt_of(66, 86)), 150));
    lemma_gt_mul_at((66, 86), (66, 86), (91, 17), (-31, 39));
    assert(GT::spow_steps(GT(gt_of(1, 0)), GT(gt_of(66, 86)), 150) == GT::spow_steps(GT(gt_of(1, 0)), GT(gt_of(91, 17)), 75));
    lemma_gt_mul_at((1, 0), (91, 17), (91, 17), (0, 0));
    lemma_gt_mul_at((91, 17), (91, 17), (13, 78), (79, 27));
    assert(GT::spow_steps(GT(gt_of(1, 0)), GT(gt_of(91, 17)), 75) == GT::spow_steps(GT(gt_of(91, 17)), GT(gt_of(13, 78)), 37));
    lemma_gt_mul_at((91, 17), (13, 78), (59, 34), (-2, 59));
    lemma_gt_mul_at((13, 78), (13, 78), (44, 85), (-59, -41));
    assert(GT::spow_steps(GT(gt_of(91, 17)), GT(gt_of(13, 78)), 37) == GT::spow_steps(GT(gt_of(59, 34)), GT(gt_of(44, 85)), 18));
    lemma_gt_mul_at((44, 85), (44, 85), (64, 53), (-53, 2));
    assert(GT::spow_steps(GT(gt_of(59, 34)), GT(gt_of(44, 85)), 18) == GT::spow_steps(GT(gt_of(59, 34)), GT(gt_of(64, 53)), 9));
    lemma_gt_mul_at((59, 34), (64, 53), (55, 67), (19, 34));
    lemma_gt_mul_at((64, 53), (64, 53), (75, 36), (12, 39));
    assert(GT::spow_steps(GT(gt_of(59, 34)), GT(gt_of(64, 53)), 9) == GT::spow_steps(GT(gt_of(55, 67)), GT(gt_of(75, 36)), 4));
    lemma_gt_mul_at((75, 36), (75, 36), (87, 64), (42, 40));
    assert(GT::spow_steps(GT(gt_of(55, 67)), GT(gt_of(75, 36)), 4) == GT::spow_steps(GT(gt_of(55, 67)), GT(gt_of(87, 64)), 2));
    lemma_gt_mul_at((87, 64), (87, 64), (39, 71), (34, 69));
    assert(GT::spow_steps(GT(gt_of(55, 67)), GT(gt_of(87, 64)), 2) == GT::spow_steps(GT(gt_of(55, 67)), GT(gt_of(39, 71)), 1));
    lemma_gt_mul_at((55, 67), (39, 71), (14, 44), (-26, 17));
    lemma_gt_mul_at((39, 71), (39, 71), (15, 93), (-35, 4));
    assert(GT::spow_steps(GT(gt_of(55, 67)), GT(gt_of(39, 71)), 1) == GT::spow_steps(GT(gt_of(14, 44)), GT(gt_of(15, 93)), 0));
}

/// The pairing of `11G` with the point `8 P` of the image of `H`.
proof fn lemma_pairing_11_8()
    ensures
        smiller_loop(g1p(32, 59), dq(1, 2)) is Some,
        spairing_at(g1p(32, 59), dq(1, 2)) == GT(gt_of(14, 44)),
{
    lemma_final_exponent();
    lemma_tangent_11_8();
    lemma_tangent_5_8();
    lemma_tangent_10_8();
    lemma_tangent_3_8();
    lemma_vertical_at(32, 42, 59, 1, 2);
    lemma_miller_at(
        g1p(32, 59),
        dq(1, 2),
        (g1p(12, 32), g1p(91, 66), g1p(26, 45), g1p(32, 42)),
        (90, 3),
        (28, 27),
        (51, 37),
        (47, 27),
        (-32, 1),
        ((11, 26, 80, 5), (10, 20, -4, 3), (3, 0, -3, 0), (52, 10, 1, 1)),
        ((79, 31, 25, 9), (48, 26, 28, 27), (54, 99, -16, -9)),
    );
    lemma_final_exp_11_8();
}

proof fn lemma_final_exp_12_8()
    ensures
        GT(gt_of(12, 43)).spow(600) == GT(gt_of(75, 98)),
{
    assert(GT::sone() == GT(gt_of(1, 0)));
    lemma_gt_mul_at((12, 43), (12, 43), (12, 92), (-17, -9));
    assert(GT::spow_steps(GT(gt_of(1, 0)), GT(gt_of(12, 43)), 600) == GT::spow_steps(GT(gt_of(1, 0)), GT(gt_of(12, 92)), 300));
    lemma_gt_mul_at((12, 92), (12, 92), (63, 6), (-83, -62));
    assert(GT::spow_steps(GT(gt_of(1, 0)), GT(gt_of(12, 92)), 300) == GT::spow_steps(GT(gt_of(1, 0)), GT(gt_of(63, 6)), 150));
    lemma_gt_mul_at((63, 6), (63, 6), (95, 13), (38, 7));
    assert(GT::spow_steps(GT(gt_of(1, 0)), GT(gt_of(63, 6)), 150) == GT::spow_steps(GT(gt_of(1, 0)), GT(gt_of(95, 13)), 75));
    lemma_gt_mul_at((1, 0), (95, 13), (95, 13), (0, 0));
    lemma_gt_mul_at((95, 13), (95, 13), (69, 79), (87, 22));
    assert(GT::spow_steps(GT(gt_of(1, 0)), GT(gt_of(95, 13)), 75) == GT::spow_steps(GT(gt_of(95, 13)), GT(gt_of(69, 79)), 37));
    lemma_gt_mul_at((95, 13), (69, 79), (74, 2), (54, 73));
    lemma_gt_mul_at((69, 79), (69, 79), (35, 15), (-15, 46));
    assert(GT::spow_steps(GT(gt_of(95, 13)), GT(gt_of(69, 79)), 37) == GT::spow_steps(GT(gt_of(74, 2)), GT(gt_of(35, 15)), 18));
    lemma_gt_mul_at((35, 15), (35, 15), (91, 17), (9, 8));
    assert(GT::spow_steps(GT(gt_of(74, 2)), GT(gt_of(35, 15)), 18) == GT::spow_steps(GT(gt_of(74, 2)), GT(gt_of(91, 17)), 9));
    lemma_gt_mul_at((74, 2), (91, 17), (34, 93), (66, 13));
    lemma_gt_mul_at((91, 17), (91, 17), (13, 78), (79, 27));
    assert(GT::spow_steps(GT(gt_of(74, 2)), GT(gt_of(91, 17)), 9) == GT::spow_steps(GT(gt_of(34, 93)), GT(gt_of(13, 78)), 4));
    lemma_gt_mul_at((13, 78), (13, 78), (44, 85), (-59, -41));
    assert(GT::spow_steps(GT(gt_of(34, 93)), GT(gt_of(13, 78)), 4) == GT::spow_steps(GT(gt_of(34, 93)), GT(gt_of(44, 85)), 2));
    lemma_gt_mul_at((44, 85), (44, 85), (64, 53), (-53, 2));
    assert(GT::spow_steps(GT(gt_of(34, 93)), GT(gt_of(44, 85)), 2) == GT::spow_steps(GT(gt_of(34, 93)), GT(gt_of(64, 53)), 1));
    lemma_gt_mul_at((34, 93), (64, 53), (75, 98), (-28, 27));
    lemma_gt_mul_at((64, 53), (64, 53), (75, 36), (12, 39));
    assert(GT::spow_steps(GT(gt_of(34, 93)), GT(gt_of(64, 53)), 1) == GT::spow_steps(GT(gt_of(75, 98)), GT(gt_of(75, 36)), 0));
}

/// The pairing of `12G` with the point `8 P` of the image of `H`.
proof fn lemma_pairing_12_8()
    ensures
        smiller_loop(g1p(12, 69), dq(1, 2)) is Some,
        spairing_at(g1p(12, 69), dq(1, 2)) == GT(gt_of(75, 98)),
{
    lemma_final_exponent();
    lemma_tangent_12_8();
    lemma_tangent_7_8();
    lemma_tangent_14_8();
    lemma_tangent_11_8();
    lemma_vertical_at(12, 32, 69, 1, 2);
    lemma_miller_at(
        g1p(12, 69),
        dq(1, 2),
        (g1p(91, 35), g1p(26, 56), g1p(32, 59), g1p(12, 32)),
        (29, 34),
        (77, 65),
        (34, 3),
        (90, 3),
        (-12, 1),
        ((89, 8, -4, 8), (71, 23, 62, 58), (68, 10, 44, 27), (60, 9, 22, 5)),
        ((85, 90, 34, 9), (7, 5, 73, 80), (12, 43, -1, -1)),
    );
    lemma_final_exp_12_8();
}

proof fn lemma_final_exp_13_8()
    ensures
        GT(gt_of(11, 13)).spow(600) == GT(gt_of(93, 81)),
{
    assert(GT::sone() == GT(gt_of(1, 0)));
    lemma_gt_mul_at((11, 13), (11, 13), (53, 16), (-1, 1));
    assert(GT::spow_steps(GT(gt_of(1, 0)), GT(gt_of(11, 13)), 600) == GT::spow_steps(GT(gt_of(1, 0)), GT(gt_of(53, 16)), 300));
    lemma_gt_mul_at((53, 16), (53, 16), (28, 26), (25, 14));
    assert(GT::spow_steps(GT(gt_of(1, 0)), GT(gt_of(53, 16)), 300) == GT::spow_steps(GT(gt_of(1, 0)), GT(gt_of(28, 26)), 150));
    lemma_gt_mul_at((28, 26), (28, 26), (7, 73), (1, 7));
    assert(GT::spow_steps(GT(gt_of(1, 0)), GT(gt_of(28, 26)), 150) == GT::spow_steps(GT(gt_of(1, 0)), GT(gt_of(7, 73)), 75));
    lemma_gt_mul_at((1, 0), (7, 73), (7, 73), (0, 0));
    lemma_gt_mul_at((7, 73), (7, 73), (73, 36), (-53, -43));
    assert(GT::spow_steps(GT(gt_of(1, 0)), GT(gt_of(7, 73)), 75) == GT::spow_steps(GT(gt_of(7, 73)), GT(gt_of(73, 36)), 37));
    lemma_gt_mul_at((7, 73), (73, 36), (4, 24), (-21, 29));
    lemma_gt_mul_at((73, 36), (73, 36), (94, 21), (39, 39));
    assert(GT::spow_steps(GT(gt_of(7, 73)), GT(gt_of(73, 36)), 37) == GT::spow_steps(GT(gt_of(4, 24)), GT(gt_of(94, 21)), 18));
    lemma_gt_mul_at((94, 21), (94, 21), (12, 73), (83, 34));
    assert(GT::spow_steps(GT(gt_of(4, 24)), GT(gt_of(94, 21)), 18) == GT::spow_steps(GT(gt_of(4, 24)), GT(gt_of(12, 73)), 9));
    lemma_gt_mul_at((4, 24), (12, 73), (13, 40), (-17, -12));
    lemma_gt_mul_at((12, 73), (12, 73), (67, 59), (-52, -36));
    assert(GT::spow_steps(GT(gt_of(4, 24)), GT(gt_of(12, 73)), 9) == GT::spow_steps(GT(gt_of(13, 40)), GT(gt_of(67, 59)), 4));
    lemma_gt_mul_at((67, 59), (67, 59), (99, 82), (9, 43));
    assert(GT::spow_steps(GT(gt_of(13, 40)), GT(gt_of(67, 59)), 4) == GT::spow_steps(GT(gt_of(13, 40)), GT(gt_of(99, 82)), 2));
    lemma_gt_mul_at((99, 82), (99, 82), (47, 18), (30, 94));
    assert(GT::spow_steps(GT(gt_of(13, 40)), GT(gt_of(99, 82)), 2) == GT::spow_steps(GT(gt_of(13, 40)), GT(gt_of(47, 18)), 1));
    lemma_gt_mul_at((13, 40), (47, 18), (93, 81), (-2, 13));
    lemma_gt_mul_at((47, 18), (47, 18), (67, 55), (18, 13));
    assert(GT::spow_steps(GT(gt_of(13, 40)), GT(gt_of(47, 18)), 1) == GT::spow_steps(GT(gt_of(93, 81)), GT(gt_of(67, 55)), 0));
}

/// The pairing of `13G` with the point `8 P` of the image of `H`.
proof fn lemma_pairing_13_8()
    ensures
        smiller_loop(g1p(65, 3), dq(1, 2)) is Some,
        spairing_at(g1p(65, 3), dq(1, 2)) == GT(gt_of(93, 81)),
{
    lemma_final_exponent();
    lemma_tangent_13_8();
    lemma_tangent_9_8();
    lemma_tangent_1_8();
    lemma_tangent_2_8();
    lemma_vertical_at(65, 98, 3, 1, 2);
    lemma_miller_at(
        g1p(65, 3),
        dq(1, 2),
        (g1p(18, 52), g1p(1, 2), g1p(68, 74), g1p(65, 98)),
        (99, 34),
        (10, 66),
        (15, 65),
        (67, 33),
        (-65, 1),
        ((60, 21, 85, 55), (22, 57, -8, 27), (63, 67, -28, -8), (24, 38, -34, 7)),
        ((41, 77, -9, 3), (4, 32, 2, 39), (11, 13, -3, -21)),
    );
    lemma_final_exp_13_8();
}

proof fn lemma_final_exp_14_8()
    ensures
        GT(gt_of(21, 55)).spow(600) == GT(gt_of(90, 62)),
{
    assert(GT::sone() == GT(gt_of(1, 0)));
    lemma_gt_mul_at((21, 55), (21, 55), (42, 93), (-26, -8));
    assert(GT::spow_steps(GT(gt_of(1, 0)), GT(gt_of(21, 55)), 600) == GT::spow_steps(GT(gt_of(1, 0)), GT(gt_of(42, 93)), 300));
    lemma_gt_mul_at((42, 93), (42, 93), (84, 72), (-69, -9));
    assert(GT::spow_steps(GT(gt_of(1, 0)), GT(gt_of(42, 93)), 300) == GT::spow_steps(GT(gt_of(1, 0)), GT(gt_of(84, 72)), 150));
    lemma_gt_mul_at((84, 72), (84, 72), (54, 44), (18, 68));
    assert(GT::spow_steps(GT(gt_of(1, 0)), GT(gt_of(84, 72)), 150) == GT::spow_steps(GT(gt_of(1, 0)), GT(gt_of(54, 44)), 75));
    lemma_gt_mul_at((1, 0), (54, 44), (54, 44), (0, 0));
    lemma_gt_mul_at((54, 44), (54, 44), (71, 89), (9, 27));
    assert(GT::spow_steps(GT(gt_of(1, 0)), GT(gt_of(54, 44)), 75) == GT::spow_steps(GT(gt_of(54, 44)), GT(gt_of(71, 89)), 37));
    lemma_gt_mul_at((54, 44), (71, 89), (19, 75), (-1, 39));
    lemma_gt_mul_at((71, 89), (71, 89), (49, 71), (-29, 46));
    assert(GT::spow_steps(GT(gt_of(54, 44)), GT(gt_of(71, 89)), 37) == GT::spow_steps(GT(gt_of(19, 75)), GT(gt_of(49, 71)), 18));
    lemma_gt_mul_at((49, 71), (49, 71), (87, 99), (-27, 18));
    assert(GT::spow_steps(GT(gt_of(19, 75)), GT(gt_of(49, 71)), 18) == GT::spow_steps(GT(gt_of(19, 75)), GT(gt_of(87, 99)), 9));
    lemma_gt_mul_at((19, 75), (87, 99), (86, 72), (-58, 9));
    lemma_gt_mul_at((87, 99), (87, 99), (91, 52), (-23, 73));
    assert(GT::spow_steps(GT(gt_of(19, 75)), GT(gt_of(87, 99)), 9) == GT::spow_steps(GT(gt_of(86, 72)), GT(gt_of(91, 52)), 4));
    lemma_gt_mul_at((91, 52), (91, 52), (22, 94), (55, 66));
    assert(GT::spow_steps(GT(gt_of(86, 72)), GT(gt_of(91, 52)), 4) == GT::spow_steps(GT(gt_of(86, 72)), GT(gt_of(22, 94)), 2));
    lemma_gt_mul_at((22, 94), (22, 94), (31, 47), (-83, -47));
    assert(GT::spow_steps(GT(gt_of(86, 72)), GT(gt_of(22, 94)), 2) == GT::spow_steps(GT(gt_of(86, 72)), GT(gt_of(31, 47)), 1));
    lemma_gt_mul_at((86, 72), (31, 47), (90, 62), (-8, 28));
    lemma_gt_mul_at((31, 47), (31, 47), (65, 99), (-13, 6));
    assert(GT::spow_steps(GT(gt_of(86, 72)), GT(gt_of(31, 47)), 1) == GT::spow_steps(GT(gt_of(90, 62)), GT(gt_of(65, 99)), 0));
}

/// The pairing of `14G` with the point `8 P` of the image of `H`.
proof fn lemma_pairing_14_8()
    ensures
        smiller_loop(g1p(26, 56), dq(1, 2)) is Some,
        spairing_at(g1p(26, 56), dq(1, 2)) == GT(gt_of(90, 62)),
{
    lemma_final_exponent();
    lemma_tangent_14_8();
    lemma_tangent_11_8();
    lemma_tangent_5_8();
    lemma_tangent_10_8();
    lemma_vertical_at(26, 45, 56, 1, 2);
    lemma_miller_at(
        g1p(26, 56),
        dq(1, 2),
        (g1p(32, 59), g1p(12, 32), g1p(91, 66), g1p(26, 45)),
        (34, 3),
        (90, 3),
        (28, 27),
        (51, 37),
        (-26, 1),
        ((36, 94, 11, 1), (29, 4, 29, 82), (17, 14, 8, 2), (98, 69, 0, 4)),
        ((96, 77, 47, 86), (27, 85, 20, 45), (21, 55, -8, -23)),
    );
    lemma_final_exp_14_8();
}

proof fn lemma_final_exp_15_8()
    ensures
        GT(gt_of(89, 97)).spow(600) == GT(gt_of(96, 29)),
{
    assert(GT::sone() == GT(gt_of(1, 0)));
    lemma_gt_mul_at((89, 97), (89, 97), (27, 80), (-15, 77));
    assert(GT::spow_steps(GT(gt_of(1, 0)), GT(gt_of(89, 97)), 600) == GT::spow_steps(GT(gt_of(1, 0)), GT(gt_of(27, 80)), 300));
    lemma_gt_mul_at((27, 80), (27, 80), (86, 41), (-57, -21));
    assert(GT::spow_steps(GT(gt_of(1, 0)), GT(gt_of(27, 80)), 300) == GT::spow_steps(GT(gt_of(1, 0)), GT(gt_of(86, 41)), 150));
    lemma_gt_mul_at((86, 41), (86, 41), (59, 18), (56, 53));
    assert(GT::spow_steps(GT(gt_of(1, 0)), GT(gt_of(86, 41)), 150) == GT::spow_steps(GT(gt_of(1, 0)), GT(gt_of(59, 18)), 75));
    lemma_gt_mul_at((1, 0), (59, 18), (59, 18), (0, 0));
    lemma_gt_mul_at((59, 18), (59, 18), (26, 83), (31, 17));
    assert(GT::spow_steps(GT(gt_of(1, 0)), GT(gt_of(59, 18)), 75) == GT::spow_steps(GT(gt_of(59, 18)), GT(gt_of(26, 83)), 37));
    lemma_gt_mul_at((59, 18), (26, 83), (40, 33), (0, 38));
    lemma_gt_mul_at((26, 83), (26, 83), (49, 53), (-62, -26));
    assert(GT::spow_steps(GT(gt_of(59, 18)), GT(gt_of(26, 83)), 37) == GT::spow_steps(GT(gt_of(40, 33)), GT(gt_of(49, 53)), 18));
    lemma_gt_mul_at((49, 53), (49, 53), (97, 62), (-5, 23));
    assert(GT::spow_steps(GT(gt_of(40, 33)), GT(gt_of(49, 53)), 18) == GT::spow_steps(GT(gt_of(40, 33)), GT(gt_of(97, 62)), 9));
    lemma_gt_mul_at((40, 33), (97, 62), (16, 100), (18, 35));
    lemma_gt_mul_at((97, 62), (97, 62), (10, 3), (55, 81));
    assert(GT::spow_steps(GT(gt_of(40, 33)), GT(gt_of(97, 62)), 9) == GT::spow_steps(GT(gt_of(16, 100)), GT(gt_of(10, 3)), 4));
    lemma_gt_mul_at((10, 3), (10, 3), (91, 51), (0, 0));
    assert(GT::spow_steps(GT(gt_of(16, 100)), GT(gt_of(10, 3)), 4) == GT::spow_steps(GT(gt_of(16, 100)), GT(gt_of(91, 51)), 2));
    lemma_gt_mul_at((91, 51), (91, 51), (24, 15), (56, 66));
    assert(GT::spow_steps(GT(gt_of(16, 100)), GT(gt_of(91, 51)), 2) == GT::spow_steps(GT(gt_of(16, 100)), GT(gt_of(24, 15)), 1));
    lemma_gt_mul_at((16, 100), (24, 15), (96, 29), (-12, 11));
    lemma_gt_mul_at((24, 15), (24, 15), (48, 91), (3, 4));
    assert(GT::spow_steps(GT(gt_of(16, 100)), GT(gt_of(24, 15)), 1) == GT::spow_steps(GT(gt_of(96, 29)), GT(gt_of(48, 91)), 0));
}

/// The pairing of `15G` with the point `8 P` of the image of `H`.
proof fn lemma_pairing_15_8()
    ensures
        smiller_loop(g1p(68, 27), dq(1, 2)) is Some,
        spairing_at(g1p(68, 27), dq(1, 2)) == GT(gt_of(96, 29)),
{
    lemma_final_exponent();
    lemma_tangent_15_8();
    lemma_tangent_13_8();
    lemma_tangent_9_8();
    lemma_tangent_1_8();
    lemma_vertical_at(68, 74, 27, 1, 2);
    lemma_miller_at(
        g1p(68, 27),
        dq(1, 2),
        (g1p(65, 3), g1p(18, 52), g1p(1, 2), g1p(68, 74)),
        (8, 37),
        (99, 34),
        (10, 66),
        (15, 65),
        (-68, 1),
        ((8, 31, -13, -8), (41, 65, -3, 22), (82, 95, -26, 10), (4, 92, -54, 0)),
        ((36, 49, -84, -77), (82, 92, -27, -2), (89, 97, -57, -63)),
    );
    lemma_final_exp_15_8();
}

proof fn lemma_final_exp_16_8()
    ensures
        GT(gt_of(16, 95)).spow(600) == GT(gt_of(51, 9)),
{
    assert(GT::sone() == GT(gt_of(1, 0)));
    lemma_gt_mul_at((16, 95), (16, 95), (18, 75), (-87, -60));
    assert(GT::spow_steps(GT(gt_of(1, 0)), GT(gt_of(16, 95)), 600) == GT::spow_steps(GT(gt_of(1, 0)), GT(gt_of(18, 75)), 300));
    lemma_gt_mul_at((18, 75), (18, 75), (52, 4), (-53, -29));
    assert(GT::spow_steps(GT(gt_of(1, 0)), GT(gt_of(18, 75)), 300) == GT::spow_steps(GT(gt_of(1, 0)), GT(gt_of(52, 4)), 150));
    lemma_gt_mul_at((52, 4), (52, 4), (62, 97), (26, 3));
    assert(GT::spow_steps(GT(gt_of(1, 0)), GT(gt_of(52, 4)), 150) == GT::spow_steps(GT(gt_of(1, 0)), GT(gt_of(62, 97)), 75));
    lemma_gt_mul_at((1, 0), (62, 97), (62, 97), (0, 0));
    lemma_gt_mul_at((62, 97), (62, 97), (91, 94), (-56, 25));
    assert(GT::spow_steps(GT(gt_of(1, 0)), GT(gt_of(62, 97)), 75) == GT::spow_steps(GT(gt_of(62, 97)), GT(gt_of(91, 94)), 37));
    lemma_gt_mul_at((62, 97), (91, 94), (59, 83), (-35, 54));
    lemma_gt_mul_at((91, 94), (91, 94), (51, 91), (-6, 81));
    assert(GT::spow_steps(GT(gt_of(62, 97)), GT(gt_of(91, 94)), 37) == GT::spow_steps(GT(gt_of(59, 83)), GT(gt_of(51, 91)), 18));
    lemma_gt_mul_at((51, 91), (51, 91), (77, 92), (-57, 9));
    assert(GT::spow_steps(GT(gt_of(59, 83)), GT(gt_of(51, 91)), 18) == GT::spow_steps(GT(gt_of(59, 83)), GT(gt_of(77, 92)), 9));
    lemma_gt_mul_at((59, 83), (77, 92), (38, 42), (-31, 41));
    lemma_gt_mul_at((77, 92), (77, 92), (91, 48), (-26, 56));
    assert(GT::spow_steps(GT(gt_of(59, 83)), GT(gt_of(77, 92)), 9) == GT::spow_steps(GT(gt_of(38, 42)), GT(gt_of(91, 48)), 4));
    lemma_gt_mul_at((91, 48), (91, 48), (18, 69), (59, 63));
    assert(GT::spow_steps(GT(gt_of(38, 42)), GT(gt_of(91, 48)), 4) == GT::spow_steps(GT(gt_of(38, 42)), GT(gt_of(18, 69)), 2));
    lemma_gt_mul_at((18, 69), (18, 69), (7, 46), (-44, -23));
    assert(GT::spow_steps(GT(gt_of(38, 42)), GT(gt_of(18, 69)), 2) == GT::spow_steps(GT(gt_of(38, 42)), GT(gt_of(7, 46)), 1));
    lemma_gt_mul_at((38, 42), (7, 46), (51, 9), (-17, 1));
    lemma_gt_mul_at((7, 46), (7, 46), (54, 43), (-21, -15));
    assert(GT::spow_steps(GT(gt_of(38, 42)), GT(gt_of(7, 46)), 1) == GT::spow_steps(GT(gt_of(51, 9)), GT(gt_of(54, 43)), 0));
}

/// The pairing of `16G` with the point `8 P` of the image of `H`.
proof fn lemma_pairing_16_8()
    ensures
        smiller_loop(g1p(1, 99), dq(1, 2)) is Some,
        spairing_at(g1p(1, 99), dq(1, 2)) == GT(gt_of(51, 9)),
{
    lemma_final_exponent();
    lemma_tangent_16_8();
    lemma_tangent_15_8();
    lemma_tangent_13_8();
    lemma_tangent_9_8();
    lemma_vertical_at(1, 2, 99, 1, 2);
    lemma_miller_at(
        g1p(1, 99),
        dq(1, 2),
        (g1p(68, 27), g1p(65, 3), g1p(18, 52), g1p(1, 2)),
        (35, 66),
        (8, 37),
        (99, 34),
        (10, 66),
        (-1, 1),
        ((0, 62, -31, 2), (29, 20, -23, -18), (37, 53, 4, 7), (43, 57, 18, 46)),
        ((14, 37, -14, 16), (21, 64, -23, -12), (16, 95, -1, -2)),
    );
    lemma_final_exp_16_8();
}

proof fn lemma_final_exp_1_9()
    ensures
        GT(gt_of(98, 63)).spow(600) == GT(gt_of(51, 9)),
{
    assert(GT::sone() == GT(gt_of(1, 0)));
    lemma_gt_mul_at((98, 63), (98, 63), (80, 97), (55, 82));
    assert(GT::spow_steps(GT(gt_of(1, 0)), GT(gt_of(98, 63)), 600) == GT::spow_steps(GT(gt_of(1, 0)), GT(gt_of(80, 97)), 300));
    lemma_gt_mul_at((80, 97), (80, 97), (21, 51), (-30, 60));
    assert(GT::spow_steps(GT(gt_of(1, 0)), GT(gt_of(80, 97)), 300) == GT::spow_steps(GT(gt_of(1, 0)), GT(gt_of(21, 51)), 150));
    lemma_gt_mul_at((21, 51), (21, 51), (62, 46), (-22, -5));
    assert(GT::spow_steps(GT(gt_of(1, 0)), GT(gt_of(21, 51)), 150) == GT::spow_steps(GT(gt_of(1, 0)), GT(gt_of(62, 46)), 75));
    lemma_gt_mul_at((1, 0), (62, 46), (62, 46), (0, 0));
    lemma_gt_mul_at((62, 46), (62, 46), (11, 53), (17, 35));
    assert(GT::spow_steps(GT(gt_of(1, 0)), GT(gt_of(62, 46)), 75) == GT::spow_steps(GT(gt_of(62, 46)), GT(gt_of(11, 53)), 37));
    lemma_gt_mul_at((62, 46), (11, 53), (62, 41), (-18, 13));
    lemma_gt_mul_at((11, 53), (11, 53), (39, 74), (-27, -17));
    assert(GT::spow_steps(GT(gt_of(62, 46)), GT(gt_of(11, 53)), 37) == GT::spow_steps(GT(gt_of(62, 41)), GT(gt_of(39, 74)), 18));
    lemma_gt_mul_at((39, 74), (39, 74), (85, 94), (-40, 2));
    assert(GT::spow_steps(GT(gt_of(62, 41)), GT(gt_of(39, 74)), 18) == GT::spow_steps(GT(gt_of(62, 41)), GT(gt_of(85, 94)), 9));
    lemma_gt_mul_at((62, 41), (85, 94), (2, 5), (14, 54));
    lemma_gt_mul_at((85, 94), (85, 94), (5, 74), (-16, 70));
    assert(GT::spow_steps(GT(gt_of(62, 41)), GT(gt_of(85, 94)), 9) == GT::spow_steps(GT(gt_of(2, 5)), GT(gt_of(5, 74)), 4));
    lemma_gt_mul_at((5, 74), (5, 74), (3, 11), (-54, -47));
    assert(GT::spow_steps(GT(gt_of(2, 5)), GT(gt_of(5, 74)), 4) == GT::spow_steps(GT(gt_of(2, 5)), GT(gt_of(3, 11)), 2));
    lemma_gt_mul_at((3, 11), (3, 11), (90, 46), (-2, -1));
    assert(GT::spow_steps(GT(gt_of(2, 5)), GT(gt_of(3, 11)), 2) == GT::spow_steps(GT(gt_of(2, 5)), GT(gt_of(90, 46)), 1));
    lemma_gt_mul_at((2, 5), (90, 46), (51, 9), (-1, 3));
    lemma_gt_mul_at((90, 46), (90, 46), (25, 3), (59, 61));
    assert(GT::spow_steps(GT(gt_of(2, 5)), GT(gt_of(90, 46)), 1) == GT::spow_steps(GT(gt_of(51, 9)), GT(gt_of(25, 3)), 0));
}

/// The pairing of `1G` with the point `9 P` of the image of `H`.
proof fn lemma_pairing_1_9()
    ensures
        smiller_loop(g1p(1, 2), dq(75, 1)) is Some,
        spairing_at(g1p(1, 2), dq(75, 1)) == GT(gt_of(51, 9)),
{
    lemma_final_exponent();
    lemma_tangent_1_9();
    lemma_tangent_2_9();
    lemma_tangent_4_9();
    lemma_tangent_8_9();
    lemma_vertical_at(1, 99, 2, 75, 1);
    lemma_miller_at(
        g1p(1, 2),
        dq(75, 1),
        (g1p(68, 74), g1p(65, 98), g1p(18, 49), g1p(1, 99)),
        (14, 57),
        (64, 65),
        (83, 7),
        (99, 69),
        (-1, 75),
        ((78, 64, -31, -17), (24, 57, 8, 49), (54, 93, -27, -6), (94, 73, 37, 73)),
        ((73, 12, 34, 83), (36, 44, 63, 53), (98, 63, -34, -7)),
    );
    lemma_final_exp_1_9();
}

proof fn lemma_final_exp_2_9()
    ensures
        GT(gt_of(57, 83)).spow(600) == GT(gt_of(96, 29)),
{
    assert(GT::sone() == GT(gt_of(1, 0)));
    lemma_gt_mul_at((57, 83), (57, 83), (97, 48), (-37, 25));
    assert(GT::spow_steps(GT(gt_of(1, 0)), GT(gt_of(57, 83)), 600) == GT::spow_steps(GT(gt_of(1, 0)), GT(gt_of(97, 48)), 300));
    lemma_gt_mul_at((97, 48), (97, 48), (35, 39), (70, 69));
    assert(GT::spow_steps(GT(gt_of(1, 0)), GT(gt_of(97, 48)), 300) == GT::spow_steps(GT(gt_of(1, 0)), GT(gt_of(35, 39)), 150));
    lemma_gt_mul_at((35, 39), (35, 39), (7, 98), (-3, 11));
    assert(GT::spow_steps(GT(gt_of(1, 0)), GT(gt_of(35, 39)), 150) == GT::spow_steps(GT(gt_of(1, 0)), GT(gt_of(7, 98)), 75));
    lemma_gt_mul_at((1, 0), (7, 98), (7, 98), (0, 0));
    lemma_gt_mul_at((7, 98), (7, 98), (40, 50), (-95, -82));
    assert(GT::spow_steps(GT(gt_of(1, 0)), GT(gt_of(7, 98)), 75) == GT::spow_steps(GT(gt_of(7, 98)), GT(gt_of(40, 50)), 37));
    lemma_gt_mul_at((7, 98), (40, 50), (26, 77), (-46, -7));
    lemma_gt_mul_at((40, 50), (40, 50), (9, 86), (-9, 14));
    assert(GT::spow_steps(GT(gt_of(7, 98)), GT(gt_of(40, 50)), 37) == GT::spow_steps(GT(gt_of(26, 77)), GT(gt_of(9, 86)), 18));
    lemma_gt_mul_at((9, 86), (9, 86), (58, 10), (-73, -58));
    assert(GT::spow_steps(GT(gt_of(26, 77)), GT(gt_of(9, 86)), 18) == GT::spow_steps(GT(gt_of(26, 77)), GT(gt_of(58, 10)), 9));
    lemma_gt_mul_at((26, 77), (58, 10), (31, 17), (7, 39));
    lemma_gt_mul_at((58, 10), (58, 10), (32, 50), (32, 10));
    assert(GT::spow_steps(GT(gt_of(26, 77)), GT(gt_of(58, 10)), 9) == GT::spow_steps(GT(gt_of(31, 17)), GT(gt_of(32, 50)), 4));
    lemma_gt_mul_at((32, 50), (32, 50), (39, 94), (-15, 6));
    assert(GT::spow_steps(GT(gt_of(31, 17)), GT(gt_of(32, 50)), 4) == GT::spow_steps(GT(gt_of(31, 17)), GT(gt_of(39, 94)), 2));
    lemma_gt_mul_at((39, 94), (39, 94), (58, 11), (-73, -15));
    assert(GT::spow_steps(GT(gt_of(31, 17)), GT(gt_of(39, 94)), 2) == GT::spow_steps(GT(gt_of(31, 17)), GT(gt_of(58, 11)), 1));
    lemma_gt_mul_at((31, 17), (58, 11), (96, 29), (15, 11));
    lemma_gt_mul_at((58, 11), (58, 11), (11, 44), (32, 11));
    assert(GT::spow_steps(GT(gt_of(31, 17)), GT(gt_of(58, 11)), 1) == GT::spow_steps(GT(gt_of(96, 29)), GT(gt_of(11, 44)), 0));
}

/// The pairing of `2G` with the point `9 P` of the image of `H`.
proof fn lemma_pairing_2_9()
    ensures
        smiller_loop(g1p(68, 74), dq(75, 1)) is Some,
        spairing_at(g1p(68, 74), dq(75, 1)) == GT(gt_of(96, 29)),
{
    lemma_final_exponent();
    lemma_tangent_2_9();
    lemma_tangent_4_9();
    lemma_tangent_8_9();
    lemma_tangent_16_9();
    lemma_vertical_at(68, 27, 74, 75, 1);
    lemma_miller_at(
        g1p(68, 74),
        dq(75, 1),
        (g1p(65, 98), g1p(18, 49), g1p(1, 99), g1p(68, 27)),
        (64, 65),
        (83, 7),
        (99, 69),
        (14, 94),
        (-68, 75),
        ((73, 55, -2, 40), (18, 45, 56, 46), (16, 100, -17, -5), (37, 64, -53, 40)),
        ((0, 34, -27, 6), (36, 7, -32, -27), (57, 83, -30, 16)),
    );
    lemma_final_exp_2_9();
}

proof fn lemma_final_exp_3_9()
    ensures
        GT(gt_of(63, 71)).spow(600) == GT(gt_of(90, 62)),
{
    assert(GT::sone() == GT(gt_of(1, 0)));
    lemma_gt_mul_at((63, 71), (63, 71), (39, 67), (-11, 38));
    assert(GT::spow_steps(GT(gt_of(1, 0)), GT(gt_of(63, 71)), 600) == GT::spow_steps(GT(gt_of(1, 0)), GT(gt_of(39, 67)), 300));
    lemma_gt_mul_at((39, 67), (39, 67), (62, 30), (-30, 7));
    assert(GT::spow_steps(GT(gt_of(1, 0)), GT(gt_of(39, 67)), 300) == GT::spow_steps(GT(gt_of(1, 0)), GT(gt_of(62, 30)), 150));
    lemma_gt_mul_at((62, 30), (62, 30), (15, 93), (29, 27));
    assert(GT::spow_steps(GT(gt_of(1, 0)), GT(gt_of(62, 30)), 150) == GT::spow_steps(GT(gt_of(1, 0)), GT(gt_of(15, 93)), 75));
    lemma_gt_mul_at((1, 0), (15, 93), (15, 93), (0, 0));
    lemma_gt_mul_at((15, 93), (15, 93), (60, 100), (-84, -59));
    assert(GT::spow_steps(GT(gt_of(1, 0)), GT(gt_of(15, 93)), 75) == GT::spow_steps(GT(gt_of(15, 93)), GT(gt_of(60, 100)), 37));
    lemma_gt_mul_at((15, 93), (60, 100), (84, 2), (-84, -22));
    lemma_gt_mul_at((60, 100), (60, 100), (64, 81), (-64, 19));
    assert(GT::spow_steps(GT(gt_of(15, 93)), GT(gt_of(60, 100)), 37) == GT::spow_steps(GT(gt_of(84, 2)), GT(gt_of(64, 81)), 18));
    lemma_gt_mul_at((64, 81), (64, 81), (60, 70), (-25, 37));
    assert(GT::spow_steps(GT(gt_of(84, 2)), GT(gt_of(64, 81)), 18) == GT::spow_steps(GT(gt_of(84, 2)), GT(gt_of(60, 70)), 9));
    lemma_gt_mul_at((84, 2), (60, 70), (52, 2), (48, 58));
    lemma_gt_mul_at((60, 70), (60, 70), (13, 66), (-13, 34));
    assert(GT::spow_steps(GT(gt_of(84, 2)), GT(gt_of(60, 70)), 9) == GT::spow_steps(GT(gt_of(52, 2)), GT(gt_of(13, 66)), 4));
    lemma_gt_mul_at((13, 66), (13, 66), (55, 87), (-42, -27));
    assert(GT::spow_steps(GT(gt_of(52, 2)), GT(gt_of(13, 66)), 4) == GT::spow_steps(GT(gt_of(52, 2)), GT(gt_of(55, 87)), 2));
    lemma_gt_mul_at((55, 87), (55, 87), (1, 82), (-45, 19));
    assert(GT::spow_steps(GT(gt_of(52, 2)), GT(gt_of(55, 87)), 2) == GT::spow_steps(GT(gt_of(52, 2)), GT(gt_of(1, 82)), 1));
    lemma_gt_mul_at((52, 2), (1, 82), (90, 62), (-2, 40));
    lemma_gt_mul_at((1, 82), (1, 82), (44, 5), (-67, -65));
    assert(GT::spow_steps(GT(gt_of(52, 2)), GT(gt_of(1, 82)), 1) == GT::spow_steps(GT(gt_of(90, 62)), GT(gt_of(44, 5)), 0));
}

/// The pairing of `3G` with the point `9 P` of the image of `H`.
proof fn lemma_pairing_3_9()
    ensures
        smiller_loop(g1p(26, 45), dq(75, 1)) is Some,
        spairing_at(g1p(26, 45), dq(75, 1)) == GT(gt_of(90, 62)),
{
    lemma_final_exponent();
    lemma_tangent_3_9();
    lemma_tangent_6_9();
    lemma_tangent_12_9();
    lemma_tangent_7_9();
    lemma_vertical_at(26, 56, 45, 75, 1);
    lemma_miller_at(
        g1p(26, 45),
        dq(75, 1),
        (g1p(32, 42), g1p(12, 69), g1p(91, 35), g1p(26, 56)),
        (91, 22),
        (40, 68),
        (43, 36),
        (39, 76),
        (-26, 75),
        ((20, 86, 77, 34), (2, 63, -50, -11), (75, 20, -40, -37), (81, 12, 24, 28)),
        ((54, 83, 63, 17), (40, 23, -42, 10), (63, 71, -28, 6)),
    );
    lemma_final_exp_3_9();
}

proof fn lemma_final_exp_4_9()
    ensures
        GT(gt_of(38, 34)).spow(600) == GT(gt_of(93, 81)),
{
    assert(GT::sone() == GT(gt_of(1, 0)));
    lemma_gt_mul_at((38, 34), (38, 34), (86, 14), (2, 14));
    assert(GT::spow_steps(GT(gt_of(1, 0)), GT(gt_of(38, 34)), 600) == GT::spow_steps(GT(gt_of(1, 0)), GT(gt_of(86, 14)), 300));
    lemma_gt_mul_at((86, 14), (86, 14), (29, 91), (71, 21));
    assert(GT::spow_steps(GT(gt_of(1, 0)), GT(gt_of(86, 14)), 300) == GT::spow_steps(GT(gt_of(1, 0)), GT(gt_of(29, 91)), 150));
    lemma_gt_mul_at((29, 91), (29, 91), (34, 27), (-74, -30));
    assert(GT::spow_steps(GT(gt_of(1, 0)), GT(gt_of(29, 91)), 150) == GT::spow_steps(GT(gt_of(1, 0)), GT(gt_of(34, 27)), 75));
    lemma_gt_mul_at((1, 0), (34, 27), (34, 27), (0, 0));
    lemma_gt_mul_at((34, 27), (34, 27), (23, 97), (4, 10));
    assert(GT::spow_steps(GT(gt_of(1, 0)), GT(gt_of(34, 27)), 75) == GT::spow_steps(GT(gt_of(34, 27)), GT(gt_of(23, 97)), 37));
    lemma_gt_mul_at((34, 27), (23, 97), (82, 88), (-19, 12));
    lemma_gt_mul_at((23, 97), (23, 97), (8, 2), (-88, -49));
    assert(GT::spow_steps(GT(gt_of(34, 27)), GT(gt_of(23, 97)), 37) == GT::spow_steps(GT(gt_of(82, 88)), GT(gt_of(8, 2)), 18));
    lemma_gt_mul_at((8, 2), (8, 2), (60, 28), (0, 0));
    assert(GT::spow_steps(GT(gt_of(82, 88)), GT(gt_of(8, 2)), 18) == GT::spow_steps(GT(gt_of(82, 88)), GT(gt_of(60, 28)), 9));
    lemma_gt_mul_at((82, 88), (60, 28), (32, 62), (24, 50));
    lemma_gt_mul_at((60, 28), (60, 28), (89, 51), (27, 25));
    assert(GT::spow_steps(GT(gt_of(82, 88)), GT(gt_of(60, 28)), 9) == GT::spow_steps(GT(gt_of(32, 62)), GT(gt_of(89, 51)), 4));
    lemma_gt_mul_at((89, 51), (89, 51), (68, 13), (52, 64));
    assert(GT::spow_steps(GT(gt_of(32, 62)), GT(gt_of(89, 51)), 4) == GT::spow_steps(GT(gt_of(32, 62)), GT(gt_of(68, 13)), 2));
    lemma_gt_mul_at((68, 13), (68, 13), (11, 84), (44, 15));
    assert(GT::spow_steps(GT(gt_of(32, 62)), GT(gt_of(68, 13)), 2) == GT::spow_steps(GT(gt_of(32, 62)), GT(gt_of(11, 84)), 1));
    lemma_gt_mul_at((32, 62), (11, 84), (93, 81), (-49, -19));
    lemma_gt_mul_at((11, 84), (11, 84), (34, 44), (-69, -52));
    assert(GT::spow_steps(GT(gt_of(32, 62)), GT(gt_of(11, 84)), 1) == GT::spow_steps(GT(gt_of(93, 81)), GT(gt_of(34, 44)), 0));
}

/// The pairing of `4G` with the point `9 P` of the image of `H`.
proof fn lemma_pairing_4_9()
    ensures
        smiller_loop(g1p(65, 98), dq(75, 1)) is Some,
        spairing_at(g1p(65, 98), dq(75, 1)) == GT(gt_of(93, 81)),
{
    lemma_final_exponent();
    lemma_tangent_4_9();
    lemma_tangent_8_9();
    lemma_tangent_16_9();
    lemma_tangent_15_9();
    lemma_vertical_at(65, 3, 98, 75, 1);
    lemma_miller_at(
        g1p(65, 98),
        dq(75, 1),
        (g1p(18, 49), g1p(1, 99), g1p(68, 27), g1p(65, 3)),
        (83, 7),
        (99, 69),
        (14, 94),
        (84, 72),
        (-65, 75),
        ((73, 2, 67, 11), (19, 47, 70, 50), (71, 82, -19, -5), (53, 13, -67, 1)),
        ((14, 98, 26, 11), (79, 63, -59, 21), (38, 34, -98, -29)),
    );
    lemma_final_exp_4_9();
}

proof fn lemma_final_exp_5_9()
    ensures
        GT(gt_of(77, 79)).spow(600) == GT(gt_of(75, 98)),
{
    assert(GT::sone() == GT(gt_of(1, 0)));
    lemma_gt_mul_at((77, 79), (77, 79), (92, 67), (-4, 58));
    assert(GT::spow_steps(GT(gt_of(1, 0)), GT(gt_of(77, 79)), 600) == GT::spow_steps(GT(gt_of(1, 0)), GT(gt_of(92, 67)), 300));
    lemma_gt_mul_at((92, 67), (92, 67), (36, 62), (39, 77));
    assert(GT::spow_steps(GT(gt_of(1, 0)), GT(gt_of(92, 67)), 300) == GT::spow_steps(GT(gt_of(1, 0)), GT(gt_of(36, 62)), 150));
    lemma_gt_mul_at((36, 62), (36, 62), (78, 14), (-26, 6));
    assert(GT::spow_steps(GT(gt_of(1, 0)), GT(gt_of(36, 62)), 150) == GT::spow_steps(GT(gt_of(1, 0)), GT(gt_of(78, 14)), 75));
    lemma_gt_mul_at((1, 0), (78, 14), (78, 14), (0, 0));
    lemma_gt_mul_at((78, 14), (78, 14), (30, 69), (58, 19));
    assert(GT::spow_steps(GT(gt_of(1, 0)), GT(gt_of(78, 14)), 75) == GT::spow_steps(GT(gt_of(78, 14)), GT(gt_of(30, 69)), 37));
    lemma_gt_mul_at((78, 14), (30, 69), (61, 89), (13, 47));
    lemma_gt_mul_at((30, 69), (30, 69), (78, 86), (-39, -7));
    assert(GT::spow_steps(GT(gt_of(78, 14)), GT(gt_of(30, 69)), 37) == GT::spow_steps(GT(gt_of(61, 89)), GT(gt_of(78, 86)), 18));
    lemma_gt_mul_at((78, 86), (78, 86), (1, 61), (-13, 59));
    assert(GT::spow_steps(GT(gt_of(61, 89)), GT(gt_of(78, 86)), 18) == GT::spow_steps(GT(gt_of(61, 89)), GT(gt_of(1, 61)), 9));
    lemma_gt_mul_at((61, 89), (1, 61), (86, 98), (-54, -17));
    lemma_gt_mul_at((1, 61), (1, 61), (17, 37), (-37, -36));
    assert(GT::spow_steps(GT(gt_of(61, 89)), GT(gt_of(1, 61)), 9) == GT::spow_steps(GT(gt_of(86, 98)), GT(gt_of(17, 37)), 4));
    lemma_gt_mul_at((17, 37), (17, 37), (31, 91), (-11, -2));
    assert(GT::spow_steps(GT(gt_of(86, 98)), GT(gt_of(17, 37)), 4) == GT::spow_steps(GT(gt_of(86, 98)), GT(gt_of(31, 91)), 2));
    lemma_gt_mul_at((31, 91), (31, 91), (53, 88), (-73, -27));
    assert(GT::spow_steps(GT(gt_of(86, 98)), GT(gt_of(31, 91)), 2) == GT::spow_steps(GT(gt_of(86, 98)), GT(gt_of(53, 88)), 1));
    lemma_gt_mul_at((86, 98), (53, 88), (75, 98), (-41, 40));
    lemma_gt_mul_at((53, 88), (53, 88), (14, 69), (-49, 15));
    assert(GT::spow_steps(GT(gt_of(86, 98)), GT(gt_of(53, 88)), 1) == GT::spow_steps(GT(gt_of(75, 98)), GT(gt_of(14, 69)), 0));
}

/// The pairing of `5G` with the point `9 P` of the image of `H`.
proof fn lemma_pairing_5_9()
    ensures
        smiller_loop(g1p(12, 32), dq(75, 1)) is Some,
        spairing_at(g1p(12, 32), dq(75, 1)) == GT(gt_of(75, 98)),
{
    lemma_final_exponent();
    lemma_tangent_5_9();
    lemma_tangent_10_9();
    lemma_tangent_3_9();
    lemma_tangent_6_9();
    lemma_vertical_at(12, 69, 32, 75, 1);
    lemma_miller_at(
        g1p(12, 32),
        dq(75, 1),
        (g1p(91, 66), g1p(26, 45), g1p(32, 42), g1p(12, 69)),
        (53, 67),
        (62, 95),
        (91, 22),
        (40, 68),
        (-12, 75),
        ((37, 88, -17, 25), (95, 5, -61, 6), (11, 16, 89, 9), (43, 33, 6, 13)),
        ((53, 32, 7, 17), (45, 82, -1, 26), (77, 79, -67, -38)),
    );
    lemma_final_exp_5_9();
}

proof fn lemma_final_exp_6_9()
    ensures
        GT(gt_of(86, 83)).spow(600) == GT(gt_of(14, 44)),
{
    assert(GT::sone() == GT(gt_of(1, 0)));
    lemma_gt_mul_at((86, 83), (86, 83), (2, 14), (5, 73));
    assert(GT::spow_steps(GT(gt_of(1, 0)), GT(gt_of(86, 83)), 600) == GT::spow_steps(GT(gt_of(1, 0)), GT(gt_of(2, 14)), 300));
    lemma_gt_mul_at((2, 14), (2, 14), (10, 62), (-2, -2));
    assert(GT::spow_steps(GT(gt_of(1, 0)), GT(gt_of(2, 14)), 300) == GT::spow_steps(GT(gt_of(1, 0)), GT(gt_of(10, 62)), 150));
    lemma_gt_mul_at((10, 62), (10, 62), (94, 22), (-38, -26));
    assert(GT::spow_steps(GT(gt_of(1, 0)), GT(gt_of(10, 62)), 150) == GT::spow_steps(GT(gt_of(1, 0)), GT(gt_of(94, 22)), 75));
    lemma_gt_mul_at((1, 0), (94, 22), (94, 22), (0, 0));
    lemma_gt_mul_at((94, 22), (94, 22), (70, 16), (82, 36));
    assert(GT::spow_steps(GT(gt_of(1, 0)), GT(gt_of(94, 22)), 75) == GT::spow_steps(GT(gt_of(94, 22)), GT(gt_of(70, 16)), 37));
    lemma_gt_mul_at((94, 22), (70, 16), (67, 66), (61, 26));
    lemma_gt_mul_at((70, 16), (70, 16), (99, 65), (45, 19));
    assert(GT::spow_steps(GT(gt_of(94, 22)), GT(gt_of(70, 16)), 37) == GT::spow_steps(GT(gt_of(67, 66)), GT(gt_of(99, 65)), 18));
    lemma_gt_mul_at((99, 65), (99, 65), (21, 60), (55, 85));
    assert(GT::spow_steps(GT(gt_of(67, 66)), GT(gt_of(99, 65)), 18) == GT::spow_steps(GT(gt_of(67, 66)), GT(gt_of(21, 60)), 9));
    lemma_gt_mul_at((67, 66), (21, 60), (73, 32), (-26, 14));
    lemma_gt_mul_at((21, 60), (21, 60), (73, 31), (-32, -11));
    assert(GT::spow_steps(GT(gt_of(67, 66)), GT(gt_of(21, 60)), 9) == GT::spow_steps(GT(gt_of(73, 32)), GT(gt_of(73, 31)), 4));
    lemma_gt_mul_at((73, 31), (73, 31), (25, 30), (43, 35));
    assert(GT::spow_steps(GT(gt_of(73, 32)), GT(gt_of(73, 31)), 4) == GT::spow_steps(GT(gt_of(73, 32)), GT(gt_of(25, 30)), 2));
    lemma_gt_mul_at((25, 30), (25, 30), (28, 95), (-3, 5));
    assert(GT::spow_steps(GT(gt_of(73, 32)), GT(gt_of(25, 30)), 2) == GT::spow_steps(GT(gt_of(73, 32)), GT(gt_of(28, 95)), 1));
    lemma_gt_mul_at((73, 32), (28, 95), (14, 44), (-10, 47));
    lemma_gt_mul_at((28, 95), (28, 95), (41, 32), (-82, -37));
    assert(GT::spow_steps(GT(gt_of(73, 32)), GT(gt_of(28, 95)), 1) == GT::spow_steps(GT(gt_of(14, 44)), GT(gt_of(41, 32)), 0));
}

/// The pairing of `6G` with the point `9 P` of the image of `H`.
proof fn lemma_pairing_6_9()
    ensures
        smiller_loop(g1p(32, 42), dq(75, 1)) is Some,
        spairing_at(g1p(32, 42), dq(75, 1)) == GT(gt_of(14, 44)),
{
    lemma_final_exponent();
    lemma_tangent_6_9();
    lemma_tangent_12_9();
    lemma_tangent_7_9();
    lemma_tangent_14_9();
    lemma_vertical_at(32, 59, 42, 75, 1);
    lemma_miller_at(
        g1p(32, 42),
        dq(75, 1),
        (g1p(12, 69), g1p(91, 35), g1p(26, 56), g1p(32, 59)),
        (40, 68),
        (43, 36),
        (39, 76),
        (30, 26),
        (-32, 75),
        ((6, 8, -30, 8), (71, 70, -1, 2), (40, 91, 1, 49), (98, 77, -54, -4)),
        ((39, 73, 36, 90), (80, 94, -8, 12), (86, 83, -96, -41)),
    );
    lemma_final_exp_6_9();
}

proof fn lemma_final_exp_7_9()
    ensures
        GT(gt_of(13, 50)).spow(600) == GT(gt_of(15, 55)),
{
    assert(GT::sone() == GT(gt_of(1, 0)));
    lemma_gt_mul_at((13, 50), (13, 50), (93, 12), (-24, -12));
    assert(GT::spow_steps(GT(gt_of(1, 0)), GT(gt_of(13, 50)), 600) == GT::spow_steps(GT(gt_of(1, 0)), GT(gt_of(93, 12)), 300));
    lemma_gt_mul_at((93, 12), (93, 12), (21, 68), (84, 20));
    assert(GT::spow_steps(GT(gt_of(1, 0)), GT(gt_of(93, 12)), 300) == GT::spow_steps(GT(gt_of(1, 0)), GT(gt_of(21, 68)), 150));
    lemma_gt_mul_at((21, 68), (21, 68), (59, 50), (-42, -18));
    assert(GT::spow_steps(GT(gt_of(1, 0)), GT(gt_of(21, 68)), 150) == GT::spow_steps(GT(gt_of(1, 0)), GT(gt_of(59, 50)), 75));
    lemma_gt_mul_at((1, 0), (59, 50), (59, 50), (0, 0));
    lemma_gt_mul_at((59, 50), (59, 50), (72, 67), (9, 33));
    assert(GT::spow_steps(GT(gt_of(1, 0)), GT(gt_of(59, 50)), 75) == GT::spow_steps(GT(gt_of(59, 50)), GT(gt_of(72, 67)), 37));
    lemma_gt_mul_at((59, 50), (72, 67), (90, 62), (8, 41));
    lemma_gt_mul_at((72, 67), (72, 67), (89, 8), (6, 51));
    assert(GT::spow_steps(GT(gt_of(59, 50)), GT(gt_of(72, 67)), 37) == GT::spow_steps(GT(gt_of(90, 62)), GT(gt_of(89, 8)), 18));
    lemma_gt_mul_at((89, 8), (89, 8), (80, 47), (77, 13));
    assert(GT::spow_steps(GT(gt_of(90, 62)), GT(gt_of(89, 8)), 18) == GT::spow_steps(GT(gt_of(90, 62)), GT(gt_of(80, 47)), 9));
    lemma_gt_mul_at((90, 62), (80, 47), (44, 14), (42, 62));
    lemma_gt_mul_at((80, 47), (80, 47), (50, 59), (41, 52));
    assert(GT::spow_steps(GT(gt_of(90, 62)), GT(gt_of(80, 47)), 9) == GT::spow_steps(GT(gt_of(44, 14)), GT(gt_of(50, 59)), 4));
    lemma_gt_mul_at((50, 59), (50, 59), (29, 96), (-10, 23));
    assert(GT::spow_steps(GT(gt_of(44, 14)), GT(gt_of(50, 59)), 4) == GT::spow_steps(GT(gt_of(44, 14)), GT(gt_of(29, 96)), 2));
    lemma_gt_mul_at((29, 96), (29, 96), (8, 89), (-83, -37));
    assert(GT::spow_steps(GT(gt_of(44, 14)), GT(gt_of(29, 96)), 2) == GT::spow_steps(GT(gt_of(44, 14)), GT(gt_of(8, 89)), 1));
    lemma_gt_mul_at((44, 14), (8, 89), (15, 55), (-9, 27));
    lemma_gt_mul_at((8, 89), (8, 89), (21, 68), (-78, -65));
    assert(GT::spow_steps(GT(gt_of(44, 14)), GT(gt_of(8, 89)), 1) == GT::spow_steps(GT(gt_of(15, 55)), GT(gt_of(21, 68)), 0));
}

/// The pairing of `7G` with the point `9 P` of the image of `H`.
proof fn lemma_pairing_7_9()
    ensures
        smiller_loop(g1p(91, 35), dq(75, 1)) is Some,
        spairing_at(g1p(91, 35), dq(75, 1)) == GT(gt_of(15, 55)),
{
    lemma_final_exponent();
    lemma_tangent_7_9();
    lemma_tangent_14_9();
    lemma_tangent_11_9();
    lemma_tangent_5_9();
    lemma_vertical_at(91, 66, 35, 75, 1);
    lemma_miller_at(
        g1p(91, 35),
        dq(75, 1),
        (g1p(26, 56), g1p(32, 59), g1p(12, 32), g1p(91, 66)),
        (39, 76),
        (30, 26),
        (3, 84),
        (53, 67),
        (-91, 75),
        ((88, 51, -43, 1), (1, 68, 13, 24), (23, 57, -46, -45), (28, 42, -47, -27)),
        ((30, 83, -10, 5), (69, 40, -40, 8), (13, 50, -92, -15)),
    );
    lemma_final_exp_7_9();
}

proof fn lemma_final_exp_8_9()
    ensures
        GT(gt_of(12, 48)).spow(600) == GT(gt_of(68, 21)),
{
    assert(GT::sone() == GT(gt_of(1, 0)));
    lemma_gt_mul_at((12, 48), (12, 48), (62, 60), (-22, -12));
    assert(GT::spow_steps(GT(gt_of(1, 0)), GT(gt_of(12, 48)), 600) == GT::spow_steps(GT(gt_of(1, 0)), GT(gt_of(62, 60)), 300));
    lemma_gt_mul_at((62, 60), (62, 60), (42, 2), (2, 38));
    assert(GT::spow_steps(GT(gt_of(1, 0)), GT(gt_of(62, 60)), 300) == GT::spow_steps(GT(gt_of(1, 0)), GT(gt_of(42, 2)), 150));
    lemma_gt_mul_at((42, 2), (42, 2), (43, 63), (17, 1));
    assert(GT::spow_steps(GT(gt_of(1, 0)), GT(gt_of(42, 2)), 150) == GT::spow_steps(GT(gt_of(1, 0)), GT(gt_of(43, 63)), 75));
    lemma_gt_mul_at((1, 0), (43, 63), (43, 63), (0, 0));
    lemma_gt_mul_at((43, 63), (43, 63), (1, 35), (-21, 14));
    assert(GT::spow_steps(GT(gt_of(1, 0)), GT(gt_of(43, 63)), 75) == GT::spow_steps(GT(gt_of(43, 63)), GT(gt_of(1, 35)), 37));
    lemma_gt_mul_at((43, 63), (1, 35), (60, 70), (-22, -7));
    lemma_gt_mul_at((1, 35), (1, 35), (89, 57), (-13, -12));
    assert(GT::spow_steps(GT(gt_of(43, 63)), GT(gt_of(1, 35)), 37) == GT::spow_steps(GT(gt_of(60, 70)), GT(gt_of(89, 57)), 18));
    lemma_gt_mul_at((89, 57), (89, 57), (26, 29), (46, 68));
    assert(GT::spow_steps(GT(gt_of(60, 70)), GT(gt_of(89, 57)), 18) == GT::spow_steps(GT(gt_of(60, 70)), GT(gt_of(26, 29)), 9));
    lemma_gt_mul_at((60, 70), (26, 29), (35, 15), (-5, 15));
    lemma_gt_mul_at((26, 29), (26, 29), (37, 61), (-2, 6));
    assert(GT::spow_steps(GT(gt_of(60, 70)), GT(gt_of(26, 29)), 9) == GT::spow_steps(GT(gt_of(35, 15)), GT(gt_of(37, 61)), 4));
    lemma_gt_mul_at((37, 61), (37, 61), (72, 86), (-24, 7));
    assert(GT::spow_steps(GT(gt_of(35, 15)), GT(gt_of(37, 61)), 4) == GT::spow_steps(GT(gt_of(35, 15)), GT(gt_of(72, 86)), 2));
    lemma_gt_mul_at((72, 86), (72, 86), (10, 39), (-22, 49));
    assert(GT::spow_steps(GT(gt_of(35, 15)), GT(gt_of(72, 86)), 2) == GT::spow_steps(GT(gt_of(35, 15)), GT(gt_of(10, 39)), 1));
    lemma_gt_mul_at((35, 15), (10, 39), (68, 21), (-3, 9));
    lemma_gt_mul_at((10, 39), (10, 39), (94, 67), (-15, -8));
    assert(GT::spow_steps(GT(gt_of(35, 15)), GT(gt_of(10, 39)), 1) == GT::spow_steps(GT(gt_of(68, 21)), GT(gt_of(94, 67)), 0));
}

/// The pairing of `8G` with the point `9 P` of the image of `H`.
proof fn lemma_pairing_8_9()
    ensures
        smiller_loop(g1p(18, 49), dq(75, 1)) is Some,
        spairing_at(g1p(18, 49), dq(75, 1)) == GT(gt_of(68, 21)),
{
    lemma_final_exponent();
    lemma_tangent_8_9();
    lemma_tangent_16_9();
    lemma_tangent_15_9();
    lemma_tangent_13_9();
    lemma_vertical_at(18, 52, 49, 75, 1);
    lemma_miller_at(
        g1p(18, 49),
        dq(75, 1),
        (g1p(1, 99), g1p(68, 27), g1p(65, 3), g1p(18, 52)),
        (99, 69),
        (14, 94),
        (84, 72),
        (56, 66),
        (-18, 75),
        ((91, 13, 49, 88), (52, 40, 0, 74), (94, 35, 10, 25), (23, 17, 53, 71)),
        ((38, 89, 2, 4), (92, 2, -38, 16), (12, 48, -18, 66)),
    );
    lemma_final_exp_8_9();
}

proof fn lemma_final_exp_9_9()
    ensures
        GT(gt_of(45, 83)).spow(600) == GT(gt_of(47, 80)),
{
    assert(GT::sone() == GT(gt_of(1, 0)));
    lemma_gt_mul_at((45, 83), (45, 83), (85, 76), (-49, 5));
    assert(GT::spow_steps(GT(gt_of(1, 0)), GT(gt_of(45, 83)), 600) == GT::spow_steps(GT(gt_of(1, 0)), GT(gt_of(85, 76)), 300));
    lemma_gt_mul_at((85, 76), (85, 76), (35, 74), (14, 70));
    assert(GT::spow_steps(GT(gt_of(1, 0)), GT(gt_of(85, 76)), 300) == GT::spow_steps(GT(gt_of(1, 0)), GT(gt_of(35, 74)), 150));
    lemma_gt_mul_at((35, 74), (35, 74), (92, 7), (-43, -3));
    assert(GT::spow_steps(GT(gt_of(1, 0)), GT(gt_of(35, 74)), 150) == GT::spow_steps(GT(gt_of(1, 0)), GT(gt_of(92, 7)), 75));
    lemma_gt_mul_at((1, 0), (92, 7), (92, 7), (0, 0));
    lemma_gt_mul_at((92, 7), (92, 7), (32, 27), (83, 12));
    assert(GT::spow_steps(GT(gt_of(1, 0)), GT(gt_of(92, 7)), 75) == GT::spow_steps(GT(gt_of(92, 7)), GT(gt_of(32, 27)), 37));
    lemma_gt_mul_at((92, 7), (32, 27), (28, 95), (27, 24));
    lemma_gt_mul_at((32, 27), (32, 27), (93, 90), (2, 9));
    assert(GT::spow_steps(GT(gt_of(92, 7)), GT(gt_of(32, 27)), 37) == GT::spow_steps(GT(gt_of(28, 95)), GT(gt_of(93, 90)), 18));
    lemma_gt_mul_at((93, 90), (93, 90), (44, 55), (5, 85));
    assert(GT::spow_steps(GT(gt_of(28, 95)), GT(gt_of(93, 90)), 18) == GT::spow_steps(GT(gt_of(28, 95)), GT(gt_of(44, 55)), 9));
    lemma_gt_mul_at((28, 95), (44, 55), (47, 91), (-40, 4));
    lemma_gt_mul_at((44, 55), (44, 55), (22, 98), (-11, 17));
    assert(GT::spow_steps(GT(gt_of(28, 95)), GT(gt_of(44, 55)), 9) == GT::spow_steps(GT(gt_of(47, 91)), GT(gt_of(22, 98)), 4));
    lemma_gt_mul_at((22, 98), (22, 98), (71, 61), (-91, -53));
    assert(GT::spow_steps(GT(gt_of(47, 91)), GT(gt_of(22, 98)), 4) == GT::spow_steps(GT(gt_of(47, 91)), GT(gt_of(71, 61)), 2));
    lemma_gt_mul_at((71, 61), (71, 61), (7, 93), (13, 48));
    assert(GT::spow_steps(GT(gt_of(47, 91)), GT(gt_of(71, 61)), 2) == GT::spow_steps(GT(gt_of(47, 91)), GT(gt_of(7, 93)), 1));
    lemma_gt_mul_at((47, 91), (7, 93), (47, 80), (-81, -35));
    lemma_gt_mul_at((7, 93), (7, 93), (86, 26), (-86, -73));
    assert(GT::spow_steps(GT(gt_of(47, 91)), GT(gt_of(7, 93)), 1) == GT::spow_steps(GT(gt_of(47, 80)), GT(gt_of(86, 26)), 0));
}

/// The pairing of `9G` with the point `9 P` of the image of `H`.
proof fn lemma_pairing_9_9()
    ensures
        smiller_loop(g1p(18, 52), dq(75, 1)) is Some,
        spairing_at(g1p(18, 52), dq(75, 1)) == GT(gt_of(47, 80)),
{
    lemma_final_exponent();
    lemma_tangent_9_9();
    lemma_tangent_1_9();
    lemma_tangent_2_9();
    lemma_tangent_4_9();
    lemma_vertical_at(18, 49, 52, 75, 1);
    lemma_miller_at(
        g1p(18, 52),
        dq(75, 1),
        (g1p(1, 2), g1p(68, 74), g1p(65, 98), g1p(18, 49)),
        (48, 96),
        (14, 57),
        (64, 65),
        (83, 7),
        (-18, 75),
        ((57, 0, -69, 0), (91, 17, 7, 32), (13, 78, 79, 27), (4, 60, -42, 7)),
        ((52, 11, -36, -31), (98, 89, 41, 11), (45, 83, -84, -10)),
    );
    lemma_final_exp_9_9();
}

proof fn lemma_final_exp_10_9()
    ensures
        GT(gt_of(33, 74)).spow(600) == GT(gt_of(61, 46)),
{
    assert(GT::sone() == GT(gt_of(1, 0)));
    lemma_gt_mul_at((33, 74), (33, 74), (57, 14), (-44, -6));
    assert(GT::spow_steps(GT(gt_of(1, 0)), GT(gt_of(33, 74)), 600) == GT::spow_steps(GT(gt_of(1, 0)), GT(gt_of(57, 14)), 300));
    lemma_gt_mul_at((57, 14), (57, 14), (23, 87), (30, 13));
    assert(GT::spow_steps(GT(gt_of(1, 0)), GT(gt_of(57, 14)), 300) == GT::spow_steps(GT(gt_of(1, 0)), GT(gt_of(23, 87)), 150));
    lemma_gt_mul_at((23, 87), (23, 87), (30, 69), (-70, -36));
    assert(GT::spow_steps(GT(gt_of(1, 0)), GT(gt_of(23, 87)), 150) == GT::spow_steps(GT(gt_of(1, 0)), GT(gt_of(30, 69)), 75));
    lemma_gt_mul_at((1, 0), (30, 69), (30, 69), (0, 0));
    lemma_gt_mul_at((30, 69), (30, 69), (78, 86), (-39, -7));
    assert(GT::spow_steps(GT(gt_of(1, 0)), GT(gt_of(30, 69)), 75) == GT::spow_steps(GT(gt_of(30, 69)), GT(gt_of(78, 86)), 37));
    lemma_gt_mul_at((30, 69), (78, 86), (42, 8), (-36, 20));
    lemma_gt_mul_at((78, 86), (78, 86), (1, 61), (-13, 59));
    assert(GT::spow_steps(GT(gt_of(30, 69)), GT(gt_of(78, 86)), 37) == GT::spow_steps(GT(gt_of(42, 8)), GT(gt_of(1, 61)), 18));
    lemma_gt_mul_at((1, 61), (1, 61), (17, 37), (-37, -36));
    assert(GT::spow_steps(GT(gt_of(42, 8)), GT(gt_of(1, 61)), 18) == GT::spow_steps(GT(gt_of(42, 8)), GT(gt_of(17, 37)), 9));
    lemma_gt_mul_at((42, 8), (17, 37), (14, 81), (4, 13));
    lemma_gt_mul_at((17, 37), (17, 37), (31, 91), (-11, -2));
    assert(GT::spow_steps(GT(gt_of(42, 8)), GT(gt_of(17, 37)), 9) == GT::spow_steps(GT(gt_of(14, 81)), GT(gt_of(31, 91)), 4));
    lemma_gt_mul_at((31, 91), (31, 91), (53, 88), (-73, -27));
    assert(GT::spow_steps(GT(gt_of(14, 81)), GT(gt_of(31, 91)), 4) == GT::spow_steps(GT(gt_of(14, 81)), GT(gt_of(53, 88)), 2));
    lemma_gt_mul_at((53, 88), (53, 88), (14, 69), (-49, 15));
    assert(GT::spow_steps(GT(gt_of(14, 81)), GT(gt_of(53, 88)), 2) == GT::spow_steps(GT(gt_of(14, 81)), GT(gt_of(14, 69)), 1));
    lemma_gt_mul_at((14, 81), (14, 69), (61, 46), (-54, -35));
    lemma_gt_mul_at((14, 69), (14, 69), (81, 100), (-46, -29));
    assert(GT::spow_steps(GT(gt_of(14, 81)), GT(gt_of(14, 69)), 1) == GT::spow_steps(GT(gt_of(61, 46)), GT(gt_of(81, 100)), 0));
}

/// The pairing of `10G` with the point `9 P` of the image of `H`.
proof fn lemma_pairing_10_9()
    ensures
        smiller_loop(g1p(91, 66), dq(75, 1)) is Some,
        spairing_at(g1p(91, 66), dq(75, 1)) == GT(gt_of(61, 46)),
{
    lemma_final_exponent();
    lemma_tangent_10_9();
    lemma_tangent_3_9();
    lemma_tangent_6_9();
    lemma_tangent_12_9();
    lemma_vertical_at(91, 35, 66, 75, 1);
    lemma_miller_at(
        g1p(91, 66),
        dq(75, 1),
        (g1p(26, 45), g1p(32, 42), g1p(12, 69), g1p(91, 35)),
        (62, 95),
        (91, 22),
        (40, 68),
        (43, 36),
        (-91, 75),
        ((71, 28, -52, 27), (88, 60, 57, 34), (3, 92, 41, 68), (25, 52, -61, -24)),
        ((42, 98, -21, -2), (96, 77, -18, 21), (33, 74, -144, -56)),
    );
    lemma_final_exp_10_9();
}

proof fn lemma_final_exp_11_9()
    ensures
        GT(gt_of(35, 77)).spow(600) == GT(gt_of(71, 57)),
{
    assert(GT::sone() == GT(gt_of(1, 0)));
    lemma_gt_mul_at((35, 77), (35, 77), (43, 67), (-47, -6));
    assert(GT::spow_steps(GT(gt_of(1, 0)), GT(gt_of(35, 77)), 600) == GT::spow_steps(GT(gt_of(1, 0)), GT(gt_of(43, 67)), 300));
    lemma_gt_mul_at((43, 67), (43, 67), (87, 61), (-27, 12));
    assert(GT::spow_steps(GT(gt_of(1, 0)), GT(gt_of(43, 67)), 300) == GT::spow_steps(GT(gt_of(1, 0)), GT(gt_of(87, 61)), 150));
    lemma_gt_mul_at((87, 61), (87, 61), (10, 25), (38, 68));
    assert(GT::spow_steps(GT(gt_of(1, 0)), GT(gt_of(87, 61)), 150) == GT::spow_steps(GT(gt_of(1, 0)), GT(gt_of(10, 25)), 75));
    lemma_gt_mul_at((1, 0), (10, 25), (10, 25), (0, 0));
    lemma_gt_mul_at((10, 25), (10, 25), (81, 77), (-6, -2));
    assert(GT::spow_steps(GT(gt_of(1, 0)), GT(gt_of(10, 25)), 75) == GT::spow_steps(GT(gt_of(10, 25)), GT(gt_of(81, 77)), 37));
    lemma_gt_mul_at((10, 25), (81, 77), (97, 62), (-12, 8));
    lemma_gt_mul_at((81, 77), (81, 77), (26, 81), (6, 64));
    assert(GT::spow_steps(GT(gt_of(10, 25)), GT(gt_of(81, 77)), 37) == GT::spow_steps(GT(gt_of(97, 62)), GT(gt_of(26, 81)), 18));
    lemma_gt_mul_at((26, 81), (26, 81), (74, 75), (-59, -24));
    assert(GT::spow_steps(GT(gt_of(97, 62)), GT(gt_of(26, 81)), 18) == GT::spow_steps(GT(gt_of(97, 62)), GT(gt_of(74, 75)), 9));
    lemma_gt_mul_at((97, 62), (74, 75), (3, 42), (25, 71));
    lemma_gt_mul_at((74, 75), (74, 75), (53, 21), (-2, 54));
    assert(GT::spow_steps(GT(gt_of(97, 62)), GT(gt_of(74, 75)), 9) == GT::spow_steps(GT(gt_of(3, 42)), GT(gt_of(53, 21)), 4));
    lemma_gt_mul_at((53, 21), (53, 21), (45, 68), (23, 17));
    assert(GT::spow_steps(GT(gt_of(3, 42)), GT(gt_of(53, 21)), 4) == GT::spow_steps(GT(gt_of(3, 42)), GT(gt_of(45, 68)), 2));
    lemma_gt_mul_at((45, 68), (45, 68), (27, 82), (-26, 14));
    assert(GT::spow_steps(GT(gt_of(3, 42)), GT(gt_of(45, 68)), 2) == GT::spow_steps(GT(gt_of(3, 42)), GT(gt_of(27, 82)), 1));
    lemma_gt_mul_at((3, 42), (27, 82), (71, 57), (-34, -21));
    lemma_gt_mul_at((27, 82), (27, 82), (65, 27), (-60, -23));
    assert(GT::spow_steps(GT(gt_of(3, 42)), GT(gt_of(27, 82)), 1) == GT::spow_steps(GT(gt_of(71, 57)), GT(gt_of(65, 27)), 0));
}

/// The pairing of `11G` with the point `9 P` of the image of `H`.
proof fn lemma_pairing_11_9()
    ensures
        smiller_loop(g1p(32, 59), dq(75, 1)) is Some,
        spairing_at(g1p(32, 59), dq(75, 1)) == GT(gt_of(71, 57)),
{
    lemma_final_exponent();
    lemma_tangent_11_9();
    lemma_tangent_5_9();
    lemma_tangent_10_9();
    lemma_tangent_3_9();
    lemma_vertical_at(32, 42, 59, 75, 1);
    lemma_miller_at(
        g1p(32, 59),
        dq(75, 1),
        (g1p(12, 32), g1p(91, 66), g1p(26, 45), g1p(32, 42)),
        (3, 84),
        (53, 67),
        (62, 95),
        (91, 22),
        (-32, 75),
        ((23, 13, -70, -65), (45, 46, 3, 13), (10, 4, -1, 20), (38, 10, 2, 8)),
        ((31, 54, 13, 6), (17, 65, 16, 43), (35, 77, -54, -57)),
    );
    lemma_final_exp_11_9();
}

proof fn lemma_final_exp_12_9()
    ensures
        GT(gt_of(56, 89)).spow(600) == GT(gt_of(78, 3)),
{
    assert(GT::sone() == GT(gt_of(1, 0)));
    lemma_gt_mul_at((56, 89), (56, 89), (63, 27), (-48, 20));
    assert(GT::spow_steps(GT(gt_of(1, 0)), GT(gt_of(56, 89)), 600) == GT::spow_steps(GT(gt_of(1, 0)), GT(gt_of(63, 27)), 300));
    lemma_gt_mul_at((63, 27), (63, 27), (8, 47), (32, 26));
    assert(GT::spow_steps(GT(gt_of(1, 0)), GT(gt_of(63, 27)), 300) == GT::spow_steps(GT(gt_of(1, 0)), GT(gt_of(8, 47)), 150));
    lemma_gt_mul_at((8, 47), (8, 47), (77, 58), (-22, -15));
    assert(GT::spow_steps(GT(gt_of(1, 0)), GT(gt_of(8, 47)), 150) == GT::spow_steps(GT(gt_of(1, 0)), GT(gt_of(77, 58)), 75));
    lemma_gt_mul_at((1, 0), (77, 58), (77, 58), (0, 0));
    lemma_gt_mul_at((77, 58), (77, 58), (40, 13), (25, 55));
    assert(GT::spow_steps(GT(gt_of(1, 0)), GT(gt_of(77, 58)), 75) == GT::spow_steps(GT(gt_of(77, 58)), GT(gt_of(40, 13)), 37));
    lemma_gt_mul_at((77, 58), (40, 13), (3, 42), (23, 25));
    lemma_gt_mul_at((40, 13), (40, 13), (17, 63), (14, 8));
    assert(GT::spow_steps(GT(gt_of(77, 58)), GT(gt_of(40, 13)), 37) == GT::spow_steps(GT(gt_of(3, 42)), GT(gt_of(17, 63)), 18));
    lemma_gt_mul_at((17, 63), (17, 63), (57, 92), (-37, -19));
    assert(GT::spow_steps(GT(gt_of(3, 42)), GT(gt_of(17, 63)), 18) == GT::spow_steps(GT(gt_of(3, 42)), GT(gt_of(57, 92)), 9));
    lemma_gt_mul_at((3, 42), (57, 92), (44, 18), (-37, -12));
    lemma_gt_mul_at((57, 92), (57, 92), (37, 4), (-52, 20));
    assert(GT::spow_steps(GT(gt_of(3, 42)), GT(gt_of(57, 92)), 9) == GT::spow_steps(GT(gt_of(44, 18)), GT(gt_of(37, 4)), 4));
    lemma_gt_mul_at((37, 4), (37, 4), (40, 78), (13, 2));
    assert(GT::spow_steps(GT(gt_of(44, 18)), GT(gt_of(37, 4)), 4) == GT::spow_steps(GT(gt_of(44, 18)), GT(gt_of(40, 78)), 2));
    lemma_gt_mul_at((40, 78), (40, 78), (61, 55), (-45, 1));
    assert(GT::spow_steps(GT(gt_of(44, 18)), GT(gt_of(40, 78)), 2) == GT::spow_steps(GT(gt_of(44, 18)), GT(gt_of(61, 55)), 1));
    lemma_gt_mul_at((44, 18), (61, 55), (78, 3), (16, 25));
    lemma_gt_mul_at((61, 55), (61, 55), (90, 49), (6, 36));
    assert(GT::spow_steps(GT(gt_of(44, 18)), GT(gt_of(61, 55)), 1) == GT::spow_steps(GT(gt_of(78, 3)), GT(gt_of(90, 49)), 0));
}

/// The pairing of `12G` with the point `9 P` of the image of `H`.
proof fn lemma_pairing_12_9()
    ensures
        smiller_loop(g1p(12, 69), dq(75, 1)) is Some,
        spairing_at(g1p(12, 69), dq(75, 1)) == GT(gt_of(78, 3)),
{
    lemma_final_exponent();
    lemma_tangent_12_9();
    lemma_tangent_7_9();
    lemma_tangent_14_9();
    lemma_tangent_11_9();
    lemma_vertical_at(12, 32, 69, 75, 1);
    lemma_miller_at(
        g1p(12, 69),
        dq(75, 1),
        (g1p(91, 35), g1p(26, 56), g1p(32, 59), g1p(12, 32)),
        (43, 36),
        (39, 76),
        (30, 26),
        (3, 84),
        (-12, 75),
        ((48, 83, 5, 17), (8, 72, -44, 5), (31, 8, -51, -40), (15, 30, 7, 8)),
        ((32, 0, -7, 0), (96, 62, 0, 26), (56, 89, -58, 17)),
    );
    lemma_final_exp_12_9();
}

proof fn lemma_final_exp_13_9()
    ensures
        GT(gt_of(73, 13)).spow(600) == GT(gt_of(12, 20)),
{
    assert(GT::sone() == GT(gt_of(1, 0)));
    lemma_gt_mul_at((73, 13), (73, 13), (9, 12), (51, 17));
    assert(GT::spow_steps(GT(gt_of(1, 0)), GT(gt_of(73, 13)), 600) == GT::spow_steps(GT(gt_of(1, 0)), GT(gt_of(9, 12)), 300));
    lemma_gt_mul_at((9, 12), (9, 12), (38, 72), (-1, 0));
    assert(GT::spow_steps(GT(gt_of(1, 0)), GT(gt_of(9, 12)), 300) == GT::spow_steps(GT(gt_of(1, 0)), GT(gt_of(38, 72)), 150));
    lemma_gt_mul_at((38, 72), (38, 72), (98, 86), (-38, 2));
    assert(GT::spow_steps(GT(gt_of(1, 0)), GT(gt_of(38, 72)), 150) == GT::spow_steps(GT(gt_of(1, 0)), GT(gt_of(98, 86)), 75));
    lemma_gt_mul_at((1, 0), (98, 86), (98, 86), (0, 0));
    lemma_gt_mul_at((98, 86), (98, 86), (87, 67), (21, 93));
    assert(GT::spow_steps(GT(gt_of(1, 0)), GT(gt_of(98, 86)), 75) == GT::spow_steps(GT(gt_of(98, 86)), GT(gt_of(87, 67)), 37));
    lemma_gt_mul_at((98, 86), (87, 67), (37, 4), (27, 82));
    lemma_gt_mul_at((87, 67), (87, 67), (50, 99), (30, 70));
    assert(GT::spow_steps(GT(gt_of(98, 86)), GT(gt_of(87, 67)), 37) == GT::spow_steps(GT(gt_of(37, 4)), GT(gt_of(50, 99)), 18));
    lemma_gt_mul_at((50, 99), (50, 99), (72, 99), (-73, 0));
    assert(GT::spow_steps(GT(gt_of(37, 4)), GT(gt_of(50, 99)), 18) == GT::spow_steps(GT(gt_of(37, 4)), GT(gt_of(72, 99)), 9));
    lemma_gt_mul_at((37, 4), (72, 99), (46, 20), (22, 35));
    lemma_gt_mul_at((72, 99), (72, 99), (29, 11), (-46, 44));
    assert(GT::spow_steps(GT(gt_of(37, 4)), GT(gt_of(72, 99)), 9) == GT::spow_steps(GT(gt_of(46, 20)), GT(gt_of(29, 11)), 4));
    lemma_gt_mul_at((29, 11), (29, 11), (13, 12), (7, 5));
    assert(GT::spow_steps(GT(gt_of(46, 20)), GT(gt_of(29, 11)), 4) == GT::spow_steps(GT(gt_of(46, 20)), GT(gt_of(13, 12)), 2));
    lemma_gt_mul_at((13, 12), (13, 12), (25, 67), (0, 1));
    assert(GT::spow_steps(GT(gt_of(46, 20)), GT(gt_of(13, 12)), 2) == GT::spow_steps(GT(gt_of(46, 20)), GT(gt_of(25, 67)), 1));
    lemma_gt_mul_at((46, 20), (25, 67), (12, 20), (-2, 22));
    lemma_gt_mul_at((25, 67), (25, 67), (75, 73), (-39, -12));
    assert(GT::spow_steps(GT(gt_of(46, 20)), GT(gt_of(25, 67)), 1) == GT::spow_steps(GT(gt_of(12, 20)), GT(gt_of(75, 73)), 0));
}

/// The pairing of `13G` with the point `9 P` of the image of `H`.
proof fn lemma_pairing_13_9()
    ensures
        smiller_loop(g1p(65, 3), dq(75, 1)) is Some,
        spairing_at(g1p(65, 3), dq(75, 1)) == GT(gt_of(12, 20)),
{
    lemma_final_exponent();
    lemma_tangent_13_9();
    lemma_tangent_9_9();
    lemma_tangent_1_9();
    lemma_tangent_2_9();
    lemma_vertical_at(65, 98, 3, 75, 1);
    lemma_miller_at(
        g1p(65, 3),
        dq(75, 1),
        (g1p(18, 52), g1p(1, 2), g1p(68, 74), g1p(65, 98)),
        (56, 66),
        (48, 96),
        (14, 57),
        (64, 65),
        (-65, 75),
        ((93, 6, -13, 30), (50, 55, 38, 85), (81, 51, -6, 24), (45, 0, -18, 24)),
        ((5, 0, 20, 0), (17, 22, 3, 3), (73, 13, -28, -18)),
    );
    lemma_final_exp_13_9();
}

proof fn lemma_final_exp_14_9()
    ensures
        GT(gt_of(17, 35)).spow(600) == GT(gt_of(28, 39)),
{
    assert(GT::sone() == GT(gt_of(1, 0)));
    lemma_gt_mul_at((17, 35), (17, 35), (74, 66), (-10, -1));
    assert(GT::spow_steps(GT(gt_of(1, 0)), GT(gt_of(17, 35)), 600) == GT::spow_steps(GT(gt_of(1, 0)), GT(gt_of(74, 66)), 300));
    lemma_gt_mul_at((74, 66), (74, 66), (9, 59), (11, 53));
    assert(GT::spow_steps(GT(gt_of(1, 0)), GT(gt_of(74, 66)), 300) == GT::spow_steps(GT(gt_of(1, 0)), GT(gt_of(9, 59)), 150));
    lemma_gt_mul_at((9, 59), (9, 59), (34, 5), (-34, -24));
    assert(GT::spow_steps(GT(gt_of(1, 0)), GT(gt_of(9, 59)), 150) == GT::spow_steps(GT(gt_of(1, 0)), GT(gt_of(34, 5)), 75));
    lemma_gt_mul_at((1, 0), (34, 5), (34, 5), (0, 0));
    lemma_gt_mul_at((34, 5), (34, 5), (20, 12), (11, 3));
    assert(GT::spow_steps(GT(gt_of(1, 0)), GT(gt_of(34, 5)), 75) == GT::spow_steps(GT(gt_of(34, 5)), GT(gt_of(20, 12)), 37));
    lemma_gt_mul_at((34, 5), (20, 12), (14, 44), (6, 4));
    lemma_gt_mul_at((20, 12), (20, 12), (54, 33), (2, 3));
    assert(GT::spow_steps(GT(gt_of(34, 5)), GT(gt_of(20, 12)), 37) == GT::spow_steps(GT(gt_of(14, 44)), GT(gt_of(54, 33)), 18));
    lemma_gt_mul_at((54, 33), (54, 33), (9, 51), (18, 24));
    assert(GT::spow_steps(GT(gt_of(14, 44)), GT(gt_of(54, 33)), 18) == GT::spow_steps(GT(gt_of(14, 44)), GT(gt_of(9, 51)), 9));
    lemma_gt_mul_at((14, 44), (9, 51), (3, 78), (-21, -12));
    lemma_gt_mul_at((9, 51), (9, 51), (5, 34), (-25, -17));
    assert(GT::spow_steps(GT(gt_of(14, 44)), GT(gt_of(9, 51)), 9) == GT::spow_steps(GT(gt_of(3, 78)), GT(gt_of(5, 34)), 4));
    lemma_gt_mul_at((5, 34), (5, 34), (81, 93), (-12, -9));
    assert(GT::spow_steps(GT(gt_of(3, 78)), GT(gt_of(5, 34)), 4) == GT::spow_steps(GT(gt_of(3, 78)), GT(gt_of(81, 93)), 2));
    lemma_gt_mul_at((81, 93), (81, 93), (33, 54), (-21, 63));
    assert(GT::spow_steps(GT(gt_of(3, 78)), GT(gt_of(81, 93)), 2) == GT::spow_steps(GT(gt_of(3, 78)), GT(gt_of(33, 54)), 1));
    lemma_gt_mul_at((3, 78), (33, 54), (28, 39), (-41, -15));
    lemma_gt_mul_at((33, 54), (33, 54), (92, 42), (-19, 6));
    assert(GT::spow_steps(GT(gt_of(3, 78)), GT(gt_of(33, 54)), 1) == GT::spow_steps(GT(gt_of(28, 39)), GT(gt_of(92, 42)), 0));
}

/// The pairing of `14G` with the point `9 P` of the image of `H`.
proof fn lemma_pairing_14_9()
    ensures
        smiller_loop(g1p(26, 56), dq(75, 1)) is Some,
        spairing_at(g1p(26, 56), dq(75, 1)) == GT(gt_of(28, 39)),
{
    lemma_final_exponent();
    lemma_tangent_14_9();
    lemma_tangent_11_9();
    lemma_tangent_5_9();
    lemma_tangent_10_9();
    lemma_vertical_at(26, 45, 56, 75, 1);
    lemma_miller_at(
        g1p(26, 56),
        dq(75, 1),
        (g1p(32, 59), g1p(12, 32), g1p(91, 66), g1p(26, 45)),
        (30, 26),
        (3, 84),
        (53, 67),
        (62, 95),
        (-26, 75),
        ((22, 76, 2, 8), (45, 35, -63, -43), (93, 6, 7, 19), (83, 87, 44, 60)),
        ((27, 5, -7, 68), (88, 77, 11, 23), (17, 35, -80, -12)),
    );
    lemma_final_exp_14_9();
}

proof fn lemma_final_exp_15_9()
    ensures
        GT(gt_of(93, 77)).spow(600) == GT(gt_of(67, 72)),
{
    assert(GT::sone() == GT(gt_of(1, 0)));
    lemma_gt_mul_at((93, 77), (93, 77), (94, 10), (26, 83));
    assert(GT::spow_steps(GT(gt_of(1, 0)), GT(gt_of(93, 77)), 600) == GT::spow_steps(GT(gt_of(1, 0)), GT(gt_of(94, 10)), 300));
    lemma_gt_mul_at((94, 10), (94, 10), (50, 63), (86, 17));
    assert(GT::spow_steps(GT(gt_of(1, 0)), GT(gt_of(94, 10)), 300) == GT::spow_steps(GT(gt_of(1, 0)), GT(gt_of(50, 63)), 150));
    lemma_gt_mul_at((50, 63), (50, 63), (46, 8), (-15, 23));
    assert(GT::spow_steps(GT(gt_of(1, 0)), GT(gt_of(50, 63)), 150) == GT::spow_steps(GT(gt_of(1, 0)), GT(gt_of(46, 8)), 75));
    lemma_gt_mul_at((1, 0), (46, 8), (46, 8), (0, 0));
    lemma_gt_mul_at((46, 8), (46, 8), (32, 66), (20, 6));
    assert(GT::spow_steps(GT(gt_of(1, 0)), GT(gt_of(46, 8)), 75) == GT::spow_steps(GT(gt_of(46, 8)), GT(gt_of(32, 66)), 37));
    lemma_gt_mul_at((46, 8), (32, 66), (35, 37), (9, 27));
    lemma_gt_mul_at((32, 66), (32, 66), (1, 70), (-33, -2));
    assert(GT::spow_steps(GT(gt_of(46, 8)), GT(gt_of(32, 66)), 37) == GT::spow_steps(GT(gt_of(35, 37)), GT(gt_of(1, 70)), 18));
    lemma_gt_mul_at((1, 70), (1, 70), (50, 88), (-49, -48));
    assert(GT::spow_steps(GT(gt_of(35, 37)), GT(gt_of(1, 70)), 18) == GT::spow_steps(GT(gt_of(35, 37)), GT(gt_of(50, 88)), 9));
    lemma_gt_mul_at((35, 37), (50, 88), (9, 58), (-15, 16));
    lemma_gt_mul_at((50, 88), (50, 88), (8, 46), (-52, 10));
    assert(GT::spow_steps(GT(gt_of(35, 37)), GT(gt_of(50, 88)), 9) == GT::spow_steps(GT(gt_of(9, 58)), GT(gt_of(8, 46)), 4));
    lemma_gt_mul_at((8, 46), (8, 46), (69, 34), (-21, -14));
    assert(GT::spow_steps(GT(gt_of(9, 58)), GT(gt_of(8, 46)), 4) == GT::spow_steps(GT(gt_of(9, 58)), GT(gt_of(69, 34)), 2));
    lemma_gt_mul_at((69, 34), (69, 34), (70, 1), (35, 35));
    assert(GT::spow_steps(GT(gt_of(9, 58)), GT(gt_of(69, 34)), 2) == GT::spow_steps(GT(gt_of(9, 58)), GT(gt_of(70, 1)), 1));
    lemma_gt_mul_at((9, 58), (70, 1), (67, 72), (5, 39));
    lemma_gt_mul_at((70, 1), (70, 1), (51, 38), (48, 1));
    assert(GT::spow_steps(GT(gt_of(9, 58)), GT(gt_of(70, 1)), 1) == GT::spow_steps(GT(gt_of(67, 72)), GT(gt_of(51, 38)), 0));
}

/// The pairing of `15G` with the point `9 P` of the image of `H`.
proof fn lemma_pairing_15_9()
    ensures
        smiller_loop(g1p(68, 27), dq(75, 1)) is Some,
        spairing_at(g1p(68, 27), dq(75, 1)) == GT(gt_of(67, 72)),
{
    lemma_final_exponent();
    lemma_tangent_15_9();
    lemma_tangent_13_9();
    lemma_tangent_9_9();
    lemma_tangent_1_9();
    lemma_vertical_at(68, 74, 27, 75, 1);
    lemma_miller_at(
        g1p(68, 27),
        dq(75, 1),
        (g1p(65, 3), g1p(18, 52), g1p(1, 2), g1p(68, 74)),
        (84, 72),
        (56, 66),
        (48, 96),
        (14, 57),
        (-68, 75),
        ((54, 44, 18, 68), (19, 94, 1, 30), (9, 89, -84, -53), (69, 26, -81, -34)),
        ((45, 84, 40, 28), (84, 64, -42, -11), (93, 77, -105, -29)),
    );
    lemma_final_exp_15_9();
}

proof fn lemma_final_exp_16_9()
    ensures
        GT(gt_of(42, 15)).spow(600) == GT(gt_of(42, 92)),
{
    assert(GT::sone() == GT(gt_of(1, 0)));
    lemma_gt_mul_at((42, 15), (42, 15), (24, 25), (15, 10));
    assert(GT::spow_steps(GT(gt_of(1, 0)), GT(gt_of(42, 15)), 600) == GT::spow_steps(GT(gt_of(1, 0)), GT(gt_of(24, 25)), 300));
    lemma_gt_mul_at((24, 25), (24, 25), (52, 70), (-1, 5));
    assert(GT::spow_steps(GT(gt_of(1, 0)), GT(gt_of(24, 25)), 300) == GT::spow_steps(GT(gt_of(1, 0)), GT(gt_of(52, 70)), 150));
    lemma_gt_mul_at((52, 70), (52, 70), (26, 57), (-22, 23));
    assert(GT::spow_steps(GT(gt_of(1, 0)), GT(gt_of(52, 70)), 150) == GT::spow_steps(GT(gt_of(1, 0)), GT(gt_of(26, 57)), 75));
    lemma_gt_mul_at((1, 0), (26, 57), (26, 57), (0, 0));
    lemma_gt_mul_at((26, 57), (26, 57), (53, 18), (-26, -3));
    assert(GT::spow_steps(GT(gt_of(1, 0)), GT(gt_of(26, 57)), 75) == GT::spow_steps(GT(gt_of(26, 57)), GT(gt_of(53, 18)), 37));
    lemma_gt_mul_at((26, 57), (53, 18), (49, 39), (3, 24));
    lemma_gt_mul_at((53, 18), (53, 18), (61, 69), (24, 15));
    assert(GT::spow_steps(GT(gt_of(26, 57)), GT(gt_of(53, 18)), 37) == GT::spow_steps(GT(gt_of(49, 39)), GT(gt_of(61, 69)), 18));
    lemma_gt_mul_at((61, 69), (61, 69), (71, 21), (-11, 36));
    assert(GT::spow_steps(GT(gt_of(49, 39)), GT(gt_of(61, 69)), 18) == GT::spow_steps(GT(gt_of(49, 39)), GT(gt_of(71, 21)), 9));
    lemma_gt_mul_at((49, 39), (71, 21), (34, 50), (26, 29));
    lemma_gt_mul_at((71, 21), (71, 21), (55, 16), (45, 25));
    assert(GT::spow_steps(GT(gt_of(49, 39)), GT(gt_of(71, 21)), 9) == GT::spow_steps(GT(gt_of(34, 50)), GT(gt_of(55, 16)), 4));
    lemma_gt_mul_at((55, 16), (55, 16), (42, 90), (27, 14));
    assert(GT::spow_steps(GT(gt_of(34, 50)), GT(gt_of(55, 16)), 4) == GT::spow_steps(GT(gt_of(34, 50)), GT(gt_of(42, 90)), 2));
    lemma_gt_mul_at((42, 90), (42, 90), (27, 66), (-63, -6));
    assert(GT::spow_steps(GT(gt_of(34, 50)), GT(gt_of(42, 90)), 2) == GT::spow_steps(GT(gt_of(34, 50)), GT(gt_of(27, 66)), 1));
    lemma_gt_mul_at((34, 50), (27, 66), (42, 92), (-24, 2));
    lemma_gt_mul_at((27, 66), (27, 66), (9, 16), (-36, -8));
    assert(GT::spow_steps(GT(gt_of(34, 50)), GT(gt_of(27, 66)), 1) == GT::spow_steps(GT(gt_of(42, 92)), GT(gt_of(9, 16)), 0));
}

/// The pairing of `16G` with the point `9 P` of the image of `H`.
proof fn lemma_pairing_16_9()
    ensures
        smiller_loop(g1p(1, 99), dq(75, 1)) is Some,
        spairing_at(g1p(1, 99), dq(75, 1)) == GT(gt_of(42, 92)),
{
    lemma_final_exponent();
    lemma_tangent_16_9();
    lemma_tangent_15_9();
    lemma_tangent_13_9();
    lemma_tangent_9_9();
    lemma_vertical_at(1, 2, 99, 75, 1);
    lemma_miller_at(
        g1p(1, 99),
        dq(75, 1),
        (g1p(68, 27), g1p(65, 3), g1p(18, 52), g1p(1, 2)),
        (14, 94),
        (84, 72),
        (56, 66),
        (48, 96),
        (-1, 75),
        ((46, 58, -86, -62), (92, 69, -4, 39), (67, 57, 36, 78), (91, 14, -1, 38)),
        ((5, 29, 80, 23), (82, 98, -26, -10), (42, 15, -74, -13)),
    );
    lemma_final_exp_16_9();
}

proof fn lemma_final_exp_1_10()
    ensures
        GT(gt_of(34, 80)).spow(600) == GT(gt_of(90, 62)),
{
    assert(GT::sone() == GT(gt_of(1, 0)));
    lemma_gt_mul_at((34, 80), (34, 80), (8, 50), (-52, -10));
    assert(GT::spow_steps(GT(gt_of(1, 0)), GT(gt_of(34, 80)), 600) == GT::spow_steps(GT(gt_of(1, 0)), GT(gt_of(8, 50)), 300));
    lemma_gt_mul_at((8, 50), (8, 50), (89, 17), (-25, -17));
    assert(GT::spow_steps(GT(gt_of(1, 0)), GT(gt_of(8, 50)), 300) == GT::spow_steps(GT(gt_of(1, 0)), GT(gt_of(89, 17)), 150));
    lemma_gt_mul_at((89, 17), (89, 17), (57, 10), (75, 27));
    assert(GT::spow_steps(GT(gt_of(1, 0)), GT(gt_of(89, 17)), 150) == GT::spow_steps(GT(gt_of(1, 0)), GT(gt_of(57, 10)), 75));
    lemma_gt_mul_at((1, 0), (57, 10), (57, 10), (0, 0));
    lemma_gt_mul_at((57, 10), (57, 10), (18, 30), (31, 10));
    assert(GT::spow_steps(GT(gt_of(1, 0)), GT(gt_of(57, 10)), 75) == GT::spow_steps(GT(gt_of(57, 10)), GT(gt_of(18, 30)), 37));
    lemma_gt_mul_at((57, 10), (18, 30), (19, 75), (7, 15));
    lemma_gt_mul_at((18, 30), (18, 30), (30, 79), (-6, 1));
    assert(GT::spow_steps(GT(gt_of(57, 10)), GT(gt_of(18, 30)), 37) == GT::spow_steps(GT(gt_of(19, 75)), GT(gt_of(30, 79)), 18));
    lemma_gt_mul_at((30, 79), (30, 79), (12, 14), (-53, -15));
    assert(GT::spow_steps(GT(gt_of(19, 75)), GT(gt_of(30, 79)), 18) == GT::spow_steps(GT(gt_of(19, 75)), GT(gt_of(12, 14)), 9));
    lemma_gt_mul_at((19, 75), (12, 14), (87, 15), (-9, 1));
    lemma_gt_mul_at((12, 14), (12, 14), (49, 39), (-1, 1));
    assert(GT::spow_steps(GT(gt_of(19, 75)), GT(gt_of(12, 14)), 9) == GT::spow_steps(GT(gt_of(87, 15)), GT(gt_of(49, 39)), 4));
    lemma_gt_mul_at((49, 39), (49, 39), (72, 79), (8, 22));
    assert(GT::spow_steps(GT(gt_of(87, 15)), GT(gt_of(49, 39)), 4) == GT::spow_steps(GT(gt_of(87, 15)), GT(gt_of(72, 79)), 2));
    lemma_gt_mul_at((72, 79), (72, 79), (54, 85), (-11, 50));
    assert(GT::spow_steps(GT(gt_of(87, 15)), GT(gt_of(72, 79)), 2) == GT::spow_steps(GT(gt_of(87, 15)), GT(gt_of(54, 85)), 1));
    lemma_gt_mul_at((87, 15), (54, 85), (90, 62), (33, 68));
    lemma_gt_mul_at((54, 85), (54, 85), (34, 36), (-43, 19));
    assert(GT::spow_steps(GT(gt_of(87, 15)), GT(gt_of(54, 85)), 1) == GT::spow_steps(GT(gt_of(90, 62)), GT(gt_of(34, 36)), 0));
}

/// The pairing of `1G` with the point `10 P` of the image of `H`.
proof fn lemma_pairing_1_10()
    ensures
        smiller_loop(g1p(1, 2), dq(26, 56)) is Some,
        spairing_at(g1p(1, 2), dq(26, 56)) == GT(gt_of(90, 62)),
{
    lemma_final_exponent();
    lemma_tangent_1_10();
    lemma_tangent_2_10();
    lemma_tangent_4_10();
    lemma_tangent_8_10();
    lemma_vertical_at(1, 99, 2, 26, 56);
    lemma_miller_at(
        g1p(1, 2),
        dq(26, 56),
        (g1p(68, 74), g1p(65, 98), g1p(18, 49), g1p(1, 99)),
        (24, 74),
        (77, 48),
        (35, 28),
        (32, 48),
        (-1, 26),
        ((49, 96, -49, -20), (74, 86, -9, 50), (100, 80, -20, 52), (48, 27, 12, 33)),
        ((60, 45, 15, 18), (63, 39, -3, 21), (34, 80, -11, 5)),
    );
    lemma_final_exp_1_10();
}

proof fn lemma_final_exp_2_10()
    ensures
        GT(gt_of(30, 65)).spow(600) == GT(gt_of(14, 44)),
{
    assert(GT::sone() == GT(gt_of(1, 0)));
    lemma_gt_mul_at((30, 65), (30, 65), (8, 79), (-33, -4));
    assert(GT::spow_steps(GT(gt_of(1, 0)), GT(gt_of(30, 65)), 600) == GT::spow_steps(GT(gt_of(1, 0)), GT(gt_of(8, 79)), 300));
    lemma_gt_mul_at((8, 79), (8, 79), (85, 73), (-62, -50));
    assert(GT::spow_steps(GT(gt_of(1, 0)), GT(gt_of(8, 79)), 300) == GT::spow_steps(GT(gt_of(1, 0)), GT(gt_of(85, 73)), 150));
    lemma_gt_mul_at((85, 73), (85, 73), (78, 11), (18, 70));
    assert(GT::spow_steps(GT(gt_of(1, 0)), GT(gt_of(85, 73)), 150) == GT::spow_steps(GT(gt_of(1, 0)), GT(gt_of(78, 11)), 75));
    lemma_gt_mul_at((1, 0), (78, 11), (78, 11), (0, 0));
    lemma_gt_mul_at((78, 11), (78, 11), (4, 80), (59, 15));
    assert(GT::spow_steps(GT(gt_of(1, 0)), GT(gt_of(78, 11)), 75) == GT::spow_steps(GT(gt_of(78, 11)), GT(gt_of(4, 80)), 37));
    lemma_gt_mul_at((78, 11), (4, 80), (38, 51), (-6, 53));
    lemma_gt_mul_at((4, 80), (4, 80), (80, 98), (-64, -58));
    assert(GT::spow_steps(GT(gt_of(78, 11)), GT(gt_of(4, 80)), 37) == GT::spow_steps(GT(gt_of(38, 51)), GT(gt_of(80, 98)), 18));
    lemma_gt_mul_at((80, 98), (80, 98), (28, 16), (-32, 60));
    assert(GT::spow_steps(GT(gt_of(38, 51)), GT(gt_of(80, 98)), 18) == GT::spow_steps(GT(gt_of(38, 51)), GT(gt_of(28, 16)), 9));
    lemma_gt_mul_at((38, 51), (28, 16), (46, 8), (2, 12));
    lemma_gt_mul_at((28, 16), (28, 16), (23, 34), (5, 6));
    assert(GT::spow_steps(GT(gt_of(38, 51)), GT(gt_of(28, 16)), 9) == GT::spow_steps(GT(gt_of(46, 8)), GT(gt_of(23, 34)), 4));
    lemma_gt_mul_at((23, 34), (23, 34), (80, 4), (-7, 4));
    assert(GT::spow_steps(GT(gt_of(46, 8)), GT(gt_of(23, 34)), 4) == GT::spow_steps(GT(gt_of(46, 8)), GT(gt_of(80, 4)), 2));
    lemma_gt_mul_at((80, 4), (80, 4), (21, 18), (63, 6));
    assert(GT::spow_steps(GT(gt_of(46, 8)), GT(gt_of(80, 4)), 2) == GT::spow_steps(GT(gt_of(46, 8)), GT(gt_of(21, 18)), 1));
    lemma_gt_mul_at((46, 8), (21, 18), (14, 44), (8, 8));
    lemma_gt_mul_at((21, 18), (21, 18), (16, 28), (1, 4));
    assert(GT::spow_steps(GT(gt_of(46, 8)), GT(gt_of(21, 18)), 1) == GT::spow_steps(GT(gt_of(14, 44)), GT(gt_of(16, 28)), 0));
}

/// The pairing of `2G` with the point `10 P` of the image of `H`.
proof fn lemma_pairing_2_10()
    ensures
        smiller_loop(g1p(68, 74), dq(26, 56)) is Some,
        spairing_at(g1p(68, 74), dq(26, 56)) == GT(gt_of(14, 44)),
{
    lemma_final_exponent();
    lemma_tangent_2_10();
    lemma_tangent_4_10();
    lemma_tangent_8_10();
    lemma_tangent_16_10();
    lemma_vertical_at(68, 27, 74, 26, 56);
    lemma_miller_at(
        g1p(68, 74),
        dq(26, 56),
        (g1p(65, 98), g1p(18, 49), g1p(1, 99), g1p(68, 27)),
        (77, 48),
        (35, 28),
        (32, 48),
        (89, 69),
        (-68, 26),
        ((90, 38, 35, 50), (66, 59, 20, 27), (67, 65, 8, 42), (34, 55, -10, 21)),
        ((50, 8, -19, 7), (60, 75, 38, 35), (30, 65, -60, -55)),
    );
    lemma_final_exp_2_10();
}

proof fn lemma_final_exp_3_10()
    ensures
        GT(gt_of(44, 70)).spow(600) == GT(gt_of(47, 80)),
{
    assert(GT::sone() == GT(gt_of(1, 0)));
    lemma_gt_mul_at((44, 70), (44, 70), (66, 48), (-30, 12));
    assert(GT::spow_steps(GT(gt_of(1, 0)), GT(gt_of(44, 70)), 600) == GT::spow_steps(GT(gt_of(1, 0)), GT(gt_of(66, 48)), 300));
    lemma_gt_mul_at((66, 48), (66, 48), (32, 93), (20, 39));
    assert(GT::spow_steps(GT(gt_of(1, 0)), GT(gt_of(66, 48)), 300) == GT::spow_steps(GT(gt_of(1, 0)), GT(gt_of(32, 93)), 150));
    lemma_gt_mul_at((32, 93), (32, 93), (51, 30), (-76, -27));
    assert(GT::spow_steps(GT(gt_of(1, 0)), GT(gt_of(32, 93)), 150) == GT::spow_steps(GT(gt_of(1, 0)), GT(gt_of(51, 30)), 75));
    lemma_gt_mul_at((1, 0), (51, 30), (51, 30), (0, 0));
    lemma_gt_mul_at((51, 30), (51, 30), (85, 39), (16, 21));
    assert(GT::spow_steps(GT(gt_of(1, 0)), GT(gt_of(51, 30)), 75) == GT::spow_steps(GT(gt_of(51, 30)), GT(gt_of(85, 39)), 37));
    lemma_gt_mul_at((51, 30), (85, 39), (34, 36), (31, 33));
    lemma_gt_mul_at((85, 39), (85, 39), (48, 59), (56, 50));
    assert(GT::spow_steps(GT(gt_of(51, 30)), GT(gt_of(85, 39)), 37) == GT::spow_steps(GT(gt_of(34, 36)), GT(gt_of(48, 59)), 18));
    lemma_gt_mul_at((48, 59), (48, 59), (35, 62), (-12, 21));
    assert(GT::spow_steps(GT(gt_of(34, 36)), GT(gt_of(48, 59)), 18) == GT::spow_steps(GT(gt_of(34, 36)), GT(gt_of(35, 62)), 9));
    lemma_gt_mul_at((34, 36), (35, 62), (69, 25), (-11, 11));
    lemma_gt_mul_at((35, 62), (35, 62), (7, 92), (-26, 4));
    assert(GT::spow_steps(GT(gt_of(34, 36)), GT(gt_of(35, 62)), 9) == GT::spow_steps(GT(gt_of(69, 25)), GT(gt_of(7, 92)), 4));
    lemma_gt_mul_at((7, 92), (7, 92), (69, 96), (-84, -72));
    assert(GT::spow_steps(GT(gt_of(69, 25)), GT(gt_of(7, 92)), 4) == GT::spow_steps(GT(gt_of(69, 25)), GT(gt_of(69, 96)), 2));
    lemma_gt_mul_at((69, 96), (69, 96), (90, 93), (-45, 39));
    assert(GT::spow_steps(GT(gt_of(69, 25)), GT(gt_of(69, 96)), 2) == GT::spow_steps(GT(gt_of(69, 25)), GT(gt_of(90, 93)), 1));
    lemma_gt_mul_at((69, 25), (90, 93), (47, 80), (38, 62));
    lemma_gt_mul_at((90, 93), (90, 93), (57, 11), (-6, 80));
    assert(GT::spow_steps(GT(gt_of(69, 25)), GT(gt_of(90, 93)), 1) == GT::spow_steps(GT(gt_of(47, 80)), GT(gt_of(57, 11)), 0));
}

/// The pairing of `3G` with the point `10 P` of the image of `H`.
proof fn lemma_pairing_3_10()
    ensures
        smiller_loop(g1p(26, 45), dq(26, 56)) is Some,
        spairing_at(g1p(26, 45), dq(26, 56)) == GT(gt_of(47, 80)),
{
    lemma_final_exponent();
    lemma_tangent_3_10();
    lemma_tangent_6_10();
    lemma_tangent_12_10();
    lemma_tangent_7_10();
    lemma_vertical_at(26, 56, 45, 26, 56);
    lemma_miller_at(
        g1p(26, 45),
        dq(26, 56),
        (g1p(32, 42), g1p(12, 69), g1p(91, 35), g1p(26, 56)),
        (61, 40),
        (21, 28),
        (19, 42),
        (18, 40),
        (-26, 26),
        ((0, 48, 21, 32), (70, 68, -14, -4), (74, 48, 2, 48), (97, 85, -7, 19)),
        ((63, 74, 21, 91), (93, 84, -19, 8), (44, 70, -46, -20)),
    );
    lemma_final_exp_3_10();
}

proof fn lemma_final_exp_4_10()
    ensures
        GT(gt_of(45, 10)).spow(600) == GT(gt_of(78, 3)),
{
    assert(GT::sone() == GT(gt_of(1, 0)));
    lemma_gt_mul_at((45, 10), (45, 10), (6, 93), (19, 7));
    assert(GT::spow_steps(GT(gt_of(1, 0)), GT(gt_of(45, 10)), 600) == GT::spow_steps(GT(gt_of(1, 0)), GT(gt_of(6, 93)), 300));
    lemma_gt_mul_at((6, 93), (6, 93), (73, 42), (-86, -75));
    assert(GT::spow_steps(GT(gt_of(1, 0)), GT(gt_of(6, 93)), 300) == GT::spow_steps(GT(gt_of(1, 0)), GT(gt_of(73, 42)), 150));
    lemma_gt_mul_at((73, 42), (73, 42), (30, 25), (35, 43));
    assert(GT::spow_steps(GT(gt_of(1, 0)), GT(gt_of(73, 42)), 150) == GT::spow_steps(GT(gt_of(1, 0)), GT(gt_of(30, 25)), 75));
    lemma_gt_mul_at((1, 0), (30, 25), (30, 25), (0, 0));
    lemma_gt_mul_at((30, 25), (30, 25), (73, 67), (2, 8));
    assert(GT::spow_steps(GT(gt_of(1, 0)), GT(gt_of(30, 25)), 75) == GT::spow_steps(GT(gt_of(30, 25)), GT(gt_of(73, 67)), 37));
    lemma_gt_mul_at((30, 25), (73, 67), (10, 39), (5, 21));
    lemma_gt_mul_at((73, 67), (73, 67), (32, 41), (8, 52));
    assert(GT::spow_steps(GT(gt_of(30, 25)), GT(gt_of(73, 67)), 37) == GT::spow_steps(GT(gt_of(10, 39)), GT(gt_of(32, 41)), 18));
    lemma_gt_mul_at((32, 41), (32, 41), (50, 34), (-7, 9));
    assert(GT::spow_steps(GT(gt_of(10, 39)), GT(gt_of(32, 41)), 18) == GT::spow_steps(GT(gt_of(10, 39)), GT(gt_of(50, 34)), 9));
    lemma_gt_mul_at((10, 39), (50, 34), (83, 55), (-9, 9));
    lemma_gt_mul_at((50, 34), (50, 34), (31, 22), (13, 22));
    assert(GT::spow_steps(GT(gt_of(10, 39)), GT(gt_of(50, 34)), 9) == GT::spow_steps(GT(gt_of(83, 55)), GT(gt_of(31, 22)), 4));
    lemma_gt_mul_at((31, 22), (31, 22), (73, 72), (4, 8));
    assert(GT::spow_steps(GT(gt_of(83, 55)), GT(gt_of(31, 22)), 4) == GT::spow_steps(GT(gt_of(83, 55)), GT(gt_of(73, 72)), 2));
    lemma_gt_mul_at((73, 72), (73, 72), (44, 76), (1, 52));
    assert(GT::spow_steps(GT(gt_of(83, 55)), GT(gt_of(73, 72)), 2) == GT::spow_steps(GT(gt_of(83, 55)), GT(gt_of(44, 76)), 1));
    lemma_gt_mul_at((83, 55), (44, 76), (78, 3), (-6, 45));
    lemma_gt_mul_at((44, 76), (44, 76), (99, 3), (-39, 9));
    assert(GT::spow_steps(GT(gt_of(83, 55)), GT(gt_of(44, 76)), 1) == GT::spow_steps(GT(gt_of(78, 3)), GT(gt_of(99, 3)), 0));
}

/// The pairing of `4G` with the point `10 P` of the image of `H`.
proof fn lemma_pairing_4_10()
    ensures
        smiller_loop(g1p(65, 98), dq(26, 56)) is Some,
        spairing_at(g1p(65, 98), dq(26, 56)) == GT(gt_of(78, 3)),
{
    lemma_final_exponent();
    lemma_tangent_4_10();
    lemma_tangent_8_10();
    lemma_tangent_16_10();
    lemma_tangent_15_10();
    lemma_vertical_at(65, 3, 98, 26, 56);
    lemma_miller_at(
        g1p(65, 98),
        dq(26, 56),
        (g1p(18, 49), g1p(1, 99), g1p(68, 27), g1p(65, 3)),
        (35, 28),
        (32, 48),
        (89, 69),
        (36, 42),
        (-65, 26),
        ((37, 65, 4, 11), (84, 29, -20, 7), (54, 92, 61, 39), (74, 11, -16, 55)),
        ((2, 93, 53, 14), (4, 31, -38, -5), (45, 10, -11, -27)),
    );
    lemma_final_exp_4_10();
}

proof fn lemma_final_exp_5_10()
    ensures
        GT(gt_of(18, 73)).spow(600) == GT(gt_of(67, 72)),
{
    assert(GT::sone() == GT(gt_of(1, 0)));
    lemma_gt_mul_at((18, 73), (18, 73), (45, 26), (-50, -27));
    assert(GT::spow_steps(GT(gt_of(1, 0)), GT(gt_of(18, 73)), 600) == GT::spow_steps(GT(gt_of(1, 0)), GT(gt_of(45, 26)), 300));
    lemma_gt_mul_at((45, 26), (45, 26), (36, 48), (13, 16));
    assert(GT::spow_steps(GT(gt_of(1, 0)), GT(gt_of(45, 26)), 300) == GT::spow_steps(GT(gt_of(1, 0)), GT(gt_of(36, 48)), 150));
    lemma_gt_mul_at((36, 48), (36, 48), (2, 41), (-10, 11));
    assert(GT::spow_steps(GT(gt_of(1, 0)), GT(gt_of(36, 48)), 150) == GT::spow_steps(GT(gt_of(1, 0)), GT(gt_of(2, 41)), 75));
    lemma_gt_mul_at((1, 0), (2, 41), (2, 41), (0, 0));
    lemma_gt_mul_at((2, 41), (2, 41), (40, 99), (-17, -16));
    assert(GT::spow_steps(GT(gt_of(1, 0)), GT(gt_of(2, 41)), 75) == GT::spow_steps(GT(gt_of(2, 41)), GT(gt_of(40, 99)), 37));
    lemma_gt_mul_at((2, 41), (40, 99), (61, 1), (-40, -22));
    lemma_gt_mul_at((40, 99), (40, 99), (81, 38), (-82, -19));
    assert(GT::spow_steps(GT(gt_of(2, 41)), GT(gt_of(40, 99)), 37) == GT::spow_steps(GT(gt_of(61, 1)), GT(gt_of(81, 38)), 18));
    lemma_gt_mul_at((81, 38), (81, 38), (67, 66), (50, 46));
    assert(GT::spow_steps(GT(gt_of(61, 1)), GT(gt_of(81, 38)), 18) == GT::spow_steps(GT(gt_of(61, 1)), GT(gt_of(67, 66)), 9));
    lemma_gt_mul_at((61, 1), (67, 66), (82, 88), (39, 39));
    lemma_gt_mul_at((67, 66), (67, 66), (32, 44), (1, 44));
    assert(GT::spow_steps(GT(gt_of(61, 1)), GT(gt_of(67, 66)), 9) == GT::spow_steps(GT(gt_of(82, 88)), GT(gt_of(32, 44)), 4));
    lemma_gt_mul_at((32, 44), (32, 44), (98, 72), (-10, 8));
    assert(GT::spow_steps(GT(gt_of(82, 88)), GT(gt_of(32, 44)), 4) == GT::spow_steps(GT(gt_of(82, 88)), GT(gt_of(98, 72)), 2));
    lemma_gt_mul_at((98, 72), (98, 72), (77, 40), (43, 88));
    assert(GT::spow_steps(GT(gt_of(82, 88)), GT(gt_of(98, 72)), 2) == GT::spow_steps(GT(gt_of(82, 88)), GT(gt_of(77, 40)), 1));
    lemma_gt_mul_at((82, 88), (77, 40), (67, 72), (27, 64));
    lemma_gt_mul_at((77, 40), (77, 40), (87, 15), (42, 45));
    assert(GT::spow_steps(GT(gt_of(82, 88)), GT(gt_of(77, 40)), 1) == GT::spow_steps(GT(gt_of(67, 72)), GT(gt_of(87, 15)), 0));
}

/// The pairing of `5G` with the point `10 P` of the image of `H`.
proof fn lemma_pairing_5_10()
    ensures
        smiller_loop(g1p(12, 32), dq(26, 56)) is Some,
        spairing_at(g1p(12, 32), dq(26, 56)) == GT(gt_of(67, 72)),
{
    lemma_final_exponent();
    lemma_tangent_5_10();
    lemma_tangent_10_10();
    lemma_tangent_3_10();
    lemma_tangent_6_10();
    lemma_vertical_at(12, 69, 32, 26, 56);
    lemma_miller_at(
        g1p(12, 32),
        dq(26, 56),
        (g1p(91, 66), g1p(26, 45), g1p(32, 42), g1p(12, 69)),
        (66, 33),
        (62, 0),
        (61, 40),
        (21, 28),
        (-12, 26),
        ((35, 35, 32, 32), (49, 49, 21, 21), (0, 78, 0, 23), (11, 22, -31, 16)),
        ((41, 0, -4, 0), (53, 37, 8, 11), (18, 73, -16, -1)),
    );
    lemma_final_exp_5_10();
}

proof fn lemma_final_exp_6_10()
    ensures
        GT(gt_of(23, 22)).spow(600) == GT(gt_of(51, 9)),
{
    assert(GT::sone() == GT(gt_of(1, 0)));
    lemma_gt_mul_at((23, 22), (23, 22), (45, 23), (0, 5));
    assert(GT::spow_steps(GT(gt_of(1, 0)), GT(gt_of(23, 22)), 600) == GT::spow_steps(GT(gt_of(1, 0)), GT(gt_of(45, 23)), 300));
    lemma_gt_mul_at((45, 23), (45, 23), (82, 26), (14, 15));
    assert(GT::spow_steps(GT(gt_of(1, 0)), GT(gt_of(45, 23)), 300) == GT::spow_steps(GT(gt_of(1, 0)), GT(gt_of(82, 26)), 150));
    lemma_gt_mul_at((82, 26), (82, 26), (89, 53), (59, 35));
    assert(GT::spow_steps(GT(gt_of(1, 0)), GT(gt_of(82, 26)), 150) == GT::spow_steps(GT(gt_of(1, 0)), GT(gt_of(89, 53)), 75));
    lemma_gt_mul_at((1, 0), (89, 53), (89, 53), (0, 0));
    lemma_gt_mul_at((89, 53), (89, 53), (62, 60), (50, 65));
    assert(GT::spow_steps(GT(gt_of(1, 0)), GT(gt_of(89, 53)), 75) == GT::spow_steps(GT(gt_of(89, 53)), GT(gt_of(62, 60)), 37));
    lemma_gt_mul_at((89, 53), (62, 60), (15, 93), (23, 53));
    lemma_gt_mul_at((62, 60), (62, 60), (42, 2), (2, 38));
    assert(GT::spow_steps(GT(gt_of(89, 53)), GT(gt_of(62, 60)), 37) == GT::spow_steps(GT(gt_of(15, 93)), GT(gt_of(42, 2)), 18));
    lemma_gt_mul_at((42, 2), (42, 2), (43, 63), (17, 1));
    assert(GT::spow_steps(GT(gt_of(15, 93)), GT(gt_of(42, 2)), 18) == GT::spow_steps(GT(gt_of(15, 93)), GT(gt_of(43, 63)), 9));
    lemma_gt_mul_at((15, 93), (43, 63), (38, 95), (-52, -10));
    lemma_gt_mul_at((43, 63), (43, 63), (1, 35), (-21, 14));
    assert(GT::spow_steps(GT(gt_of(15, 93)), GT(gt_of(43, 63)), 9) == GT::spow_steps(GT(gt_of(38, 95)), GT(gt_of(1, 35)), 4));
    lemma_gt_mul_at((1, 35), (1, 35), (89, 57), (-13, -12));
    assert(GT::spow_steps(GT(gt_of(38, 95)), GT(gt_of(1, 35)), 4) == GT::spow_steps(GT(gt_of(38, 95)), GT(gt_of(89, 57)), 2));
    lemma_gt_mul_at((89, 57), (89, 57), (26, 29), (46, 68));
    assert(GT::spow_steps(GT(gt_of(38, 95)), GT(gt_of(89, 57)), 2) == GT::spow_steps(GT(gt_of(38, 95)), GT(gt_of(26, 29)), 1));
    lemma_gt_mul_at((38, 95), (26, 29), (51, 9), (-18, 8));
    lemma_gt_mul_at((26, 29), (26, 29), (37, 61), (-2, 6));
    assert(GT::spow_steps(GT(gt_of(38, 95)), GT(gt_of(26, 29)), 1) == GT::spow_steps(GT(gt_of(51, 9)), GT(gt_of(37, 61)), 0));
}

/// The pairing of `6G` with the point `10 P` of the image of `H`.
proof fn lemma_pairing_6_10()
    ensures
        smiller_loop(g1p(32, 42), dq(26, 56)) is Some,
        spairing_at(g1p(32, 42), dq(26, 56)) == GT(gt_of(51, 9)),
{
    lemma_final_exponent();
    lemma_tangent_6_10();
    lemma_tangent_12_10();
    lemma_tangent_7_10();
    lemma_tangent_14_10();
    lemma_vertical_at(32, 59, 42, 26, 56);
    lemma_miller_at(
        g1p(32, 42),
        dq(26, 56),
        (g1p(12, 69), g1p(91, 35), g1p(26, 56), g1p(32, 59)),
        (21, 28),
        (19, 42),
        (18, 40),
        (21, 49),
        (-32, 26),
        ((61, 89, -4, 3), (47, 10, -26, 5), (89, 32, 20, 8), (19, 28, 3, 28)),
        ((82, 78, -5, 2), (21, 16, -21, 18), (23, 22, -11, -4)),
    );
    lemma_final_exp_6_10();
}

proof fn lemma_final_exp_7_10()
    ensures
        GT(gt_of(16, 51)).spow(600) == GT(gt_of(93, 81)),
{
    assert(GT::sone() == GT(gt_of(1, 0)));
    lemma_gt_mul_at((16, 51), (16, 51), (79, 41), (-24, -10));
    assert(GT::spow_steps(GT(gt_of(1, 0)), GT(gt_of(16, 51)), 600) == GT::spow_steps(GT(gt_of(1, 0)), GT(gt_of(79, 41)), 300));
    lemma_gt_mul_at((79, 41), (79, 41), (15, 50), (45, 47));
    assert(GT::spow_steps(GT(gt_of(1, 0)), GT(gt_of(79, 41)), 300) == GT::spow_steps(GT(gt_of(1, 0)), GT(gt_of(15, 50)), 150));
    lemma_gt_mul_at((15, 50), (15, 50), (48, 10), (-23, -10));
    assert(GT::spow_steps(GT(gt_of(1, 0)), GT(gt_of(15, 50)), 150) == GT::spow_steps(GT(gt_of(1, 0)), GT(gt_of(48, 10)), 75));
    lemma_gt_mul_at((1, 0), (48, 10), (48, 10), (0, 0));
    lemma_gt_mul_at((48, 10), (48, 10), (83, 52), (21, 8));
    assert(GT::spow_steps(GT(gt_of(1, 0)), GT(gt_of(48, 10)), 75) == GT::spow_steps(GT(gt_of(48, 10)), GT(gt_of(83, 52)), 37));
    lemma_gt_mul_at((48, 10), (83, 52), (30, 79), (34, 27));
    lemma_gt_mul_at((83, 52), (83, 52), (44, 70), (41, 58));
    assert(GT::spow_steps(GT(gt_of(48, 10)), GT(gt_of(83, 52)), 37) == GT::spow_steps(GT(gt_of(30, 79)), GT(gt_of(44, 70)), 18));
    lemma_gt_mul_at((44, 70), (44, 70), (66, 48), (-30, 12));
    assert(GT::spow_steps(GT(gt_of(30, 79)), GT(gt_of(44, 70)), 18) == GT::spow_steps(GT(gt_of(30, 79)), GT(gt_of(66, 48)), 9));
    lemma_gt_mul_at((30, 79), (66, 48), (6, 34), (-18, 28));
    lemma_gt_mul_at((66, 48), (66, 48), (32, 93), (20, 39));
    assert(GT::spow_steps(GT(gt_of(30, 79)), GT(gt_of(66, 48)), 9) == GT::spow_steps(GT(gt_of(6, 34)), GT(gt_of(32, 93)), 4));
    lemma_gt_mul_at((32, 93), (32, 93), (51, 30), (-76, -27));
    assert(GT::spow_steps(GT(gt_of(6, 34)), GT(gt_of(32, 93)), 4) == GT::spow_steps(GT(gt_of(6, 34)), GT(gt_of(51, 30)), 2));
    lemma_gt_mul_at((51, 30), (51, 30), (85, 39), (16, 21));
    assert(GT::spow_steps(GT(gt_of(6, 34)), GT(gt_of(51, 30)), 2) == GT::spow_steps(GT(gt_of(6, 34)), GT(gt_of(85, 39)), 1));
    lemma_gt_mul_at((6, 34), (85, 39), (93, 81), (-9, 17));
    lemma_gt_mul_at((85, 39), (85, 39), (48, 59), (56, 50));
    assert(GT::spow_steps(GT(gt_of(6, 34)), GT(gt_of(85, 39)), 1) == GT::spow_steps(GT(gt_of(93, 81)), GT(gt_of(48, 59)), 0));
}

/// The pairing of `7G` with the point `10 P` of the image of `H`.
proof fn lemma_pairing_7_10()
    ensures
        smiller_loop(g1p(91, 35), dq(26, 56)) is Some,
        spairing_at(g1p(91, 35), dq(26, 56)) == GT(gt_of(93, 81)),
{
    lemma_final_exponent();
    lemma_tangent_7_10();
    lemma_tangent_14_10();
    lemma_tangent_11_10();
    lemma_tangent_5_10();
    lemma_vertical_at(91, 66, 35, 26, 56);
    lemma_miller_at(
        g1p(91, 35),
        dq(26, 56),
        (g1p(26, 56), g1p(32, 59), g1p(12, 32), g1p(91, 66)),
        (18, 40),
        (21, 49),
        (12, 69),
        (66, 33),
        (-91, 26),
        ((37, 42, -13, -2), (32, 31, -13, 6), (63, 13, 0, 10), (61, 71, -2, 35)),
        ((94, 86, -14, 35), (33, 82, 33, 58), (16, 51, -51, -87)),
    );
    lemma_final_exp_7_10();
}

proof fn lemma_final_exp_8_10()
    ensures
        GT(gt_of(46, 30)).spow(600) == GT(gt_of(15, 55)),
{
    assert(GT::sone() == GT(gt_of(1, 0)));
    lemma_gt_mul_at((46, 30), (46, 30), (4, 42), (12, 18));
    assert(GT::spow_steps(GT(gt_of(1, 0)), GT(gt_of(46, 30)), 600) == GT::spow_steps(GT(gt_of(1, 0)), GT(gt_of(4, 42)), 300));
    lemma_gt_mul_at((4, 42), (4, 42), (70, 87), (-18, -15));
    assert(GT::spow_steps(GT(gt_of(1, 0)), GT(gt_of(4, 42)), 300) == GT::spow_steps(GT(gt_of(1, 0)), GT(gt_of(70, 87)), 150));
    lemma_gt_mul_at((70, 87), (70, 87), (58, 66), (-27, 45));
    assert(GT::spow_steps(GT(gt_of(1, 0)), GT(gt_of(70, 87)), 150) == GT::spow_steps(GT(gt_of(1, 0)), GT(gt_of(58, 66)), 75));
    lemma_gt_mul_at((1, 0), (58, 66), (58, 66), (0, 0));
    lemma_gt_mul_at((58, 66), (58, 66), (18, 68), (-10, 32));
    assert(GT::spow_steps(GT(gt_of(1, 0)), GT(gt_of(58, 66)), 75) == GT::spow_steps(GT(gt_of(58, 66)), GT(gt_of(18, 68)), 37));
    lemma_gt_mul_at((58, 66), (18, 68), (91, 38), (-35, 6));
    lemma_gt_mul_at((18, 68), (18, 68), (43, 46), (-43, -22));
    assert(GT::spow_steps(GT(gt_of(58, 66)), GT(gt_of(18, 68)), 37) == GT::spow_steps(GT(gt_of(91, 38)), GT(gt_of(43, 46)), 18));
    lemma_gt_mul_at((43, 46), (43, 46), (36, 22), (-3, 18));
    assert(GT::spow_steps(GT(gt_of(91, 38)), GT(gt_of(43, 46)), 18) == GT::spow_steps(GT(gt_of(91, 38)), GT(gt_of(36, 22)), 9));
    lemma_gt_mul_at((91, 38), (36, 22), (16, 9), (24, 25));
    lemma_gt_mul_at((36, 22), (36, 22), (4, 90), (8, 10));
    assert(GT::spow_steps(GT(gt_of(91, 38)), GT(gt_of(36, 22)), 9) == GT::spow_steps(GT(gt_of(16, 9)), GT(gt_of(4, 90)), 4));
    lemma_gt_mul_at((4, 90), (4, 90), (97, 94), (-81, -74));
    assert(GT::spow_steps(GT(gt_of(16, 9)), GT(gt_of(4, 90)), 4) == GT::spow_steps(GT(gt_of(16, 9)), GT(gt_of(97, 94)), 2));
    lemma_gt_mul_at((97, 94), (97, 94), (68, 7), (5, 93));
    assert(GT::spow_steps(GT(gt_of(16, 9)), GT(gt_of(97, 94)), 2) == GT::spow_steps(GT(gt_of(16, 9)), GT(gt_of(68, 7)), 1));
    lemma_gt_mul_at((16, 9), (68, 7), (15, 55), (10, 6));
    lemma_gt_mul_at((68, 7), (68, 7), (30, 95), (45, 8));
    assert(GT::spow_steps(GT(gt_of(16, 9)), GT(gt_of(68, 7)), 1) == GT::spow_steps(GT(gt_of(15, 55)), GT(gt_of(30, 95)), 0));
}

/// The pairing of `8G` with the point `10 P` of the image of `H`.
proof fn lemma_pairing_8_10()
    ensures
        smiller_loop(g1p(18, 49), dq(26, 56)) is Some,
        spairing_at(g1p(18, 49), dq(26, 56)) == GT(gt_of(15, 55)),
{
    lemma_final_exponent();
    lemma_tangent_8_10();
    lemma_tangent_16_10();
    lemma_tangent_15_10();
    lemma_tangent_13_10();
    lemma_vertical_at(18, 52, 49, 26, 56);
    lemma_miller_at(
        g1p(18, 49),
        dq(26, 56),
        (g1p(1, 99), g1p(68, 27), g1p(65, 3), g1p(18, 52)),
        (32, 48),
        (89, 69),
        (36, 42),
        (72, 49),
        (-18, 26),
        ((33, 61, -13, 7), (41, 63, -13, 34), (35, 86, -23, 11), (72, 45, -24, 9)),
        ((28, 11, 31, 44), (63, 9, 14, 16), (46, 30, -14, 12)),
    );
    lemma_final_exp_8_10();
}

proof fn lemma_final_exp_9_10()
    ensures
        GT(gt_of(42, 19)).spow(600) == GT(gt_of(61, 46)),
{
    assert(GT::sone() == GT(gt_of(1, 0)));
    lemma_gt_mul_at((42, 19), (42, 19), (90, 23), (13, 12));
    assert(GT::spow_steps(GT(gt_of(1, 0)), GT(gt_of(42, 19)), 600) == GT::spow_steps(GT(gt_of(1, 0)), GT(gt_of(90, 23)), 300));
    lemma_gt_mul_at((90, 23), (90, 23), (97, 76), (74, 35));
    assert(GT::spow_steps(GT(gt_of(1, 0)), GT(gt_of(90, 23)), 300) == GT::spow_steps(GT(gt_of(1, 0)), GT(gt_of(97, 76)), 150));
    lemma_gt_mul_at((97, 76), (97, 76), (98, 80), (35, 88));
    assert(GT::spow_steps(GT(gt_of(1, 0)), GT(gt_of(97, 76)), 150) == GT::spow_steps(GT(gt_of(1, 0)), GT(gt_of(98, 80)), 75));
    lemma_gt_mul_at((1, 0), (98, 80), (98, 80), (0, 0));
    lemma_gt_mul_at((98, 80), (98, 80), (73, 89), (31, 91));
    assert(GT::spow_steps(GT(gt_of(1, 0)), GT(gt_of(98, 80)), 75) == GT::spow_steps(GT(gt_of(98, 80)), GT(gt_of(73, 89)), 37));
    lemma_gt_mul_at((98, 80), (73, 89), (34, 69), (0, 73));
    lemma_gt_mul_at((73, 89), (73, 89), (34, 23), (-26, 50));
    assert(GT::spow_steps(GT(gt_of(98, 80)), GT(gt_of(73, 89)), 37) == GT::spow_steps(GT(gt_of(34, 69)), GT(gt_of(34, 23)), 18));
    lemma_gt_mul_at((34, 23), (34, 23), (21, 25), (6, 10));
    assert(GT::spow_steps(GT(gt_of(34, 69)), GT(gt_of(34, 23)), 18) == GT::spow_steps(GT(gt_of(34, 69)), GT(gt_of(21, 25)), 9));
    lemma_gt_mul_at((34, 69), (21, 25), (100, 69), (-11, 5));
    lemma_gt_mul_at((21, 25), (21, 25), (18, 21), (-2, 4));
    assert(GT::spow_steps(GT(gt_of(34, 69)), GT(gt_of(21, 25)), 9) == GT::spow_steps(GT(gt_of(100, 69)), GT(gt_of(18, 21)), 4));
    lemma_gt_mul_at((18, 21), (18, 21), (85, 12), (-2, 3));
    assert(GT::spow_steps(GT(gt_of(100, 69)), GT(gt_of(18, 21)), 4) == GT::spow_steps(GT(gt_of(100, 69)), GT(gt_of(85, 12)), 2));
    lemma_gt_mul_at((85, 12), (85, 12), (11, 78), (70, 18));
    assert(GT::spow_steps(GT(gt_of(100, 69)), GT(gt_of(85, 12)), 2) == GT::spow_steps(GT(gt_of(100, 69)), GT(gt_of(11, 78)), 1));
    lemma_gt_mul_at((100, 69), (11, 78), (61, 46), (-43, 31));
    lemma_gt_mul_at((11, 78), (11, 78), (97, 76), (-60, -44));
    assert(GT::spow_steps(GT(gt_of(100, 69)), GT(gt_of(11, 78)), 1) == GT::spow_steps(GT(gt_of(61, 46)), GT(gt_of(97, 76)), 0));
}

/// The pairing of `9G` with the point `10 P` of the image of `H`.
proof fn lemma_pairing_9_10()
    ensures
        smiller_loop(g1p(18, 52), dq(26, 56)) is Some,
        spairing_at(g1p(18, 52), dq(26, 56)) == GT(gt_of(61, 46)),
{
    lemma_final_exponent();
    lemma_tangent_9_10();
    lemma_tangent_1_10();
    lemma_tangent_2_10();
    lemma_tangent_4_10();
    lemma_vertical_at(18, 49, 52, 26, 56);
    lemma_miller_at(
        g1p(18, 52),
        dq(26, 56),
        (g1p(1, 2), g1p(68, 74), g1p(65, 98), g1p(18, 49)),
        (17, 74),
        (24, 74),
        (77, 48),
        (35, 28),
        (-18, 26),
        ((65, 70, -52, -30), (16, 98, -36, 12), (45, 97, -93, -65), (21, 24, -12, 49)),
        ((67, 28, -2, 4), (46, 52, 15, 20), (42, 19, -22, -11)),
    );
    lemma_final_exp_9_10();
}

proof fn lemma_final_exp_10_10()
    ensures
        GT(gt_of(72, 42)).spow(600) == GT(gt_of(12, 20)),
{
    assert(GT::sone() == GT(gt_of(1, 0)));
    lemma_gt_mul_at((72, 42), (72, 42), (87, 42), (33, 42));
    assert(GT::spow_steps(GT(gt_of(1, 0)), GT(gt_of(72, 42)), 600) == GT::spow_steps(GT(gt_of(1, 0)), GT(gt_of(87, 42)), 300));
    lemma_gt_mul_at((87, 42), (87, 42), (48, 90), (57, 54));
    assert(GT::spow_steps(GT(gt_of(1, 0)), GT(gt_of(87, 42)), 300) == GT::spow_steps(GT(gt_of(1, 0)), GT(gt_of(48, 90)), 150));
    lemma_gt_mul_at((48, 90), (48, 90), (62, 35), (-58, 5));
    assert(GT::spow_steps(GT(gt_of(1, 0)), GT(gt_of(48, 90)), 150) == GT::spow_steps(GT(gt_of(1, 0)), GT(gt_of(62, 35)), 75));
    lemma_gt_mul_at((1, 0), (62, 35), (62, 35), (0, 0));
    lemma_gt_mul_at((62, 35), (62, 35), (94, 85), (25, 30));
    assert(GT::spow_steps(GT(gt_of(1, 0)), GT(gt_of(62, 35)), 75) == GT::spow_steps(GT(gt_of(62, 35)), GT(gt_of(94, 85)), 37));
    lemma_gt_mul_at((62, 35), (94, 85), (25, 30), (28, 55));
    lemma_gt_mul_at((94, 85), (94, 85), (96, 69), (15, 86));
    assert(GT::spow_steps(GT(gt_of(62, 35)), GT(gt_of(94, 85)), 37) == GT::spow_steps(GT(gt_of(25, 30)), GT(gt_of(96, 69)), 18));
    lemma_gt_mul_at((96, 69), (96, 69), (11, 3), (44, 84));
    assert(GT::spow_steps(GT(gt_of(25, 30)), GT(gt_of(96, 69)), 18) == GT::spow_steps(GT(gt_of(25, 30)), GT(gt_of(11, 3)), 9));
    lemma_gt_mul_at((25, 30), (11, 3), (84, 12), (1, 3));
    lemma_gt_mul_at((11, 3), (11, 3), (11, 57), (1, 0));
    assert(GT::spow_steps(GT(gt_of(25, 30)), GT(gt_of(11, 3)), 9) == GT::spow_steps(GT(gt_of(84, 12)), GT(gt_of(11, 57)), 4));
    lemma_gt_mul_at((11, 57), (11, 57), (3, 25), (-31, -20));
    assert(GT::spow_steps(GT(gt_of(84, 12)), GT(gt_of(11, 57)), 4) == GT::spow_steps(GT(gt_of(84, 12)), GT(gt_of(3, 25)), 2));
    lemma_gt_mul_at((3, 25), (3, 25), (91, 30), (-7, -5));
    assert(GT::spow_steps(GT(gt_of(84, 12)), GT(gt_of(3, 25)), 2) == GT::spow_steps(GT(gt_of(84, 12)), GT(gt_of(91, 30)), 1));
    lemma_gt_mul_at((84, 12), (91, 30), (12, 20), (72, 32));
    lemma_gt_mul_at((91, 30), (91, 30), (8, 15), (73, 45));
    assert(GT::spow_steps(GT(gt_of(84, 12)), GT(gt_of(91, 30)), 1) == GT::spow_steps(GT(gt_of(12, 20)), GT(gt_of(8, 15)), 0));
}

/// The pairing of `10G` with the point `10 P` of the image of `H`.
proof fn lemma_pairing_10_10()
    ensures
        smiller_loop(g1p(91, 66), dq(26, 56)) is Some,
        spairing_at(g1p(91, 66), dq(26, 56)) == GT(gt_of(12, 20)),
{
    lemma_final_exponent();
    lemma_tangent_10_10();
    lemma_tangent_3_10();
    lemma_tangent_6_10();
    lemma_tangent_12_10();
    lemma_vertical_at(91, 35, 66, 26, 56);
    lemma_miller_at(
        g1p(91, 66),
        dq(26, 56),
        (g1p(26, 45), g1p(32, 42), g1p(12, 69), g1p(91, 35)),
        (62, 0),
        (61, 40),
        (21, 28),
        (19, 42),
        (-91, 26),
        ((6, 0, 38, 0), (63, 38, 3, 2), (0, 11, 25, 33), (96, 24, -4, -1)),
        ((55, 93, 85, 39), (68, 70, -29, 1), (72, 42, -80, -64)),
    );
    lemma_final_exp_10_10();
}

proof fn lemma_final_exp_11_10()
    ensures
        GT(gt_of(98, 8)).spow(600) == GT(gt_of(42, 92)),
{
    assert(GT::sone() == GT(gt_of(1, 0)));
    lemma_gt_mul_at((98, 8), (98, 8), (46, 90), (94, 14));
    assert(GT::spow_steps(GT(gt_of(1, 0)), GT(gt_of(98, 8)), 600) == GT::spow_steps(GT(gt_of(1, 0)), GT(gt_of(46, 90)), 300));
    lemma_gt_mul_at((46, 90), (46, 90), (76, 79), (-60, 1));
    assert(GT::spow_steps(GT(gt_of(1, 0)), GT(gt_of(46, 90)), 300) == GT::spow_steps(GT(gt_of(1, 0)), GT(gt_of(76, 79)), 150));
    lemma_gt_mul_at((76, 79), (76, 79), (40, 10), (-5, 57));
    assert(GT::spow_steps(GT(gt_of(1, 0)), GT(gt_of(76, 79)), 150) == GT::spow_steps(GT(gt_of(1, 0)), GT(gt_of(40, 10)), 75));
    lemma_gt_mul_at((1, 0), (40, 10), (40, 10), (0, 0));
    lemma_gt_mul_at((40, 10), (40, 10), (86, 94), (14, 6));
    assert(GT::spow_steps(GT(gt_of(1, 0)), GT(gt_of(40, 10)), 75) == GT::spow_steps(GT(gt_of(40, 10)), GT(gt_of(86, 94)), 37));
    lemma_gt_mul_at((40, 10), (86, 94), (76, 44), (24, 36));
    lemma_gt_mul_at((86, 94), (86, 94), (75, 60), (-15, 72));
    assert(GT::spow_steps(GT(gt_of(40, 10)), GT(gt_of(86, 94)), 37) == GT::spow_steps(GT(gt_of(76, 44)), GT(gt_of(75, 60)), 18));
    lemma_gt_mul_at((75, 60), (75, 60), (5, 47), (20, 53));
    assert(GT::spow_steps(GT(gt_of(76, 44)), GT(gt_of(75, 60)), 18) == GT::spow_steps(GT(gt_of(76, 44)), GT(gt_of(5, 47)), 9));
    lemma_gt_mul_at((76, 44), (5, 47), (29, 7), (-17, 17));
    lemma_gt_mul_at((5, 47), (5, 47), (38, 79), (-22, -18));
    assert(GT::spow_steps(GT(gt_of(76, 44)), GT(gt_of(5, 47)), 9) == GT::spow_steps(GT(gt_of(29, 7)), GT(gt_of(38, 79)), 4));
    lemma_gt_mul_at((38, 79), (38, 79), (51, 66), (-48, -3));
    assert(GT::spow_steps(GT(gt_of(29, 7)), GT(gt_of(38, 79)), 4) == GT::spow_steps(GT(gt_of(29, 7)), GT(gt_of(51, 66)), 2));
    lemma_gt_mul_at((51, 66), (51, 66), (63, 53), (-18, 23));
    assert(GT::spow_steps(GT(gt_of(29, 7)), GT(gt_of(51, 66)), 2) == GT::spow_steps(GT(gt_of(29, 7)), GT(gt_of(63, 53)), 1));
    lemma_gt_mul_at((29, 7), (63, 53), (42, 92), (14, 15));
    lemma_gt_mul_at((63, 53), (63, 53), (49, 31), (11, 38));
    assert(GT::spow_steps(GT(gt_of(29, 7)), GT(gt_of(63, 53)), 1) == GT::spow_steps(GT(gt_of(42, 92)), GT(gt_of(49, 31)), 0));
}

/// The pairing of `11G` with the point `10 P` of the image of `H`.
proof fn lemma_pairing_11_10()
    ensures
        smiller_loop(g1p(32, 59), dq(26, 56)) is Some,
        spairing_at(g1p(32, 59), dq(26, 56)) == GT(gt_of(42, 92)),
{
    lemma_final_exponent();
    lemma_tangent_11_10();
    lemma_tangent_5_10();
    lemma_tangent_10_10();
    lemma_tangent_3_10();
    lemma_vertical_at(32, 42, 59, 26, 56);
    lemma_miller_at(
        g1p(32, 59),
        dq(26, 56),
        (g1p(12, 32), g1p(91, 66), g1p(26, 45), g1p(32, 42)),
        (12, 69),
        (66, 33),
        (62, 0),
        (61, 40),
        (-32, 26),
        ((29, 26, -46, -31), (46, 98, 10, 17), (87, 18, -75, -6), (41, 5, 53, 11)),
        ((40, 82, 16, 3), (69, 90, -9, 32), (98, 8, -46, -34)),
    );
    lemma_final_exp_11_10();
}

proof fn lemma_final_exp_12_10()
    ensures
        GT(gt_of(25, 24)).spow(600) == GT(gt_of(96, 29)),
{
    assert(GT::sone() == GT(gt_of(1, 0)));
    lemma_gt_mul_at((25, 24), (25, 24), (49, 18), (0, 6));
    assert(GT::spow_steps(GT(gt_of(1, 0)), GT(gt_of(25, 24)), 600) == GT::spow_steps(GT(gt_of(1, 0)), GT(gt_of(49, 18)), 300));
    lemma_gt_mul_at((49, 18), (49, 18), (57, 26), (20, 14));
    assert(GT::spow_steps(GT(gt_of(1, 0)), GT(gt_of(49, 18)), 300) == GT::spow_steps(GT(gt_of(1, 0)), GT(gt_of(57, 26)), 150));
    lemma_gt_mul_at((57, 26), (57, 26), (48, 66), (25, 22));
    assert(GT::spow_steps(GT(gt_of(1, 0)), GT(gt_of(57, 26)), 150) == GT::spow_steps(GT(gt_of(1, 0)), GT(gt_of(48, 66)), 75));
    lemma_gt_mul_at((1, 0), (48, 66), (48, 66), (0, 0));
    lemma_gt_mul_at((48, 66), (48, 66), (69, 61), (-21, 19));
    assert(GT::spow_steps(GT(gt_of(1, 0)), GT(gt_of(48, 66)), 75) == GT::spow_steps(GT(gt_of(48, 66)), GT(gt_of(69, 61)), 37));
    lemma_gt_mul_at((48, 66), (69, 61), (94, 22), (-8, 34));
    lemma_gt_mul_at((69, 61), (69, 61), (30, 51), (10, 46));
    assert(GT::spow_steps(GT(gt_of(48, 66)), GT(gt_of(69, 61)), 37) == GT::spow_steps(GT(gt_of(94, 22)), GT(gt_of(30, 51)), 18));
    lemma_gt_mul_at((30, 51), (30, 51), (16, 55), (-17, 4));
    assert(GT::spow_steps(GT(gt_of(94, 22)), GT(gt_of(30, 51)), 18) == GT::spow_steps(GT(gt_of(94, 22)), GT(gt_of(16, 55)), 9));
    lemma_gt_mul_at((94, 22), (16, 55), (92, 70), (2, 42));
    lemma_gt_mul_at((16, 55), (16, 55), (59, 48), (-28, -13));
    assert(GT::spow_steps(GT(gt_of(94, 22)), GT(gt_of(16, 55)), 9) == GT::spow_steps(GT(gt_of(92, 70)), GT(gt_of(59, 48)), 4));
    lemma_gt_mul_at((59, 48), (59, 48), (66, 27), (11, 33));
    assert(GT::spow_steps(GT(gt_of(92, 70)), GT(gt_of(59, 48)), 4) == GT::spow_steps(GT(gt_of(92, 70)), GT(gt_of(66, 27)), 2));
    lemma_gt_mul_at((66, 27), (66, 27), (92, 7), (35, 28));
    assert(GT::spow_steps(GT(gt_of(92, 70)), GT(gt_of(66, 27)), 2) == GT::spow_steps(GT(gt_of(92, 70)), GT(gt_of(92, 7)), 1));
    lemma_gt_mul_at((92, 70), (92, 7), (96, 29), (78, 65));
    lemma_gt_mul_at((92, 7), (92, 7), (32, 27), (83, 12));
    assert(GT::spow_steps(GT(gt_of(92, 70)), GT(gt_of(92, 7)), 1) == GT::spow_steps(GT(gt_of(96, 29)), GT(gt_of(32, 27)), 0));
}

/// The pairing of `12G` with the point `10 P` of the image of `H`.
proof fn lemma_pairing_12_10()
    ensures
        smiller_loop(g1p(12, 69), dq(26, 56)) is Some,
        spairing_at(g1p(12, 69), dq(26, 56)) == GT(gt_of(96, 29)),
{
    lemma_final_exponent();
    lemma_tangent_12_10();
    lemma_tangent_7_10();
    lemma_tangent_14_10();
    lemma_tangent_11_10();
    lemma_vertical_at(12, 32, 69, 26, 56);
    lemma_miller_at(
        g1p(12, 69),
        dq(26, 56),
        (g1p(91, 35), g1p(26, 56), g1p(32, 59), g1p(12, 32)),
        (19, 42),
        (18, 40),
        (21, 49),
        (12, 69),
        (-12, 26),
        ((11, 34, -14, -2), (50, 96, -12, -4), (51, 81, -67, 3), (31, 29, -29, 2)),
        ((19, 48, 1, 9), (47, 90, -31, -15), (25, 24, -29, -22)),
    );
    lemma_final_exp_12_10();
}

proof fn lemma_final_exp_13_10()
    ensures
        GT(gt_of(86, 70)).spow(600) == GT(gt_of(75, 98)),
{
    assert(GT::sone() == GT(gt_of(1, 0)));
    lemma_gt_mul_at((86, 70), (86, 70), (72, 70), (24, 70));
    assert(GT::spow_steps(GT(gt_of(1, 0)), GT(gt_of(86, 70)), 600) == GT::spow_steps(GT(gt_of(1, 0)), GT(gt_of(72, 70)), 300));
    lemma_gt_mul_at((72, 70), (72, 70), (82, 29), (2, 51));
    assert(GT::spow_steps(GT(gt_of(1, 0)), GT(gt_of(72, 70)), 300) == GT::spow_steps(GT(gt_of(1, 0)), GT(gt_of(82, 29)), 150));
    lemma_gt_mul_at((82, 29), (82, 29), (25, 77), (58, 38));
    assert(GT::spow_steps(GT(gt_of(1, 0)), GT(gt_of(82, 29)), 150) == GT::spow_steps(GT(gt_of(1, 0)), GT(gt_of(25, 77)), 75));
    lemma_gt_mul_at((1, 0), (25, 77), (25, 77), (0, 0));
    lemma_gt_mul_at((25, 77), (25, 77), (49, 42), (-53, -21));
    assert(GT::spow_steps(GT(gt_of(1, 0)), GT(gt_of(25, 77)), 75) == GT::spow_steps(GT(gt_of(25, 77)), GT(gt_of(49, 42)), 37));
    lemma_gt_mul_at((25, 77), (49, 42), (11, 74), (-20, 15));
    lemma_gt_mul_at((49, 42), (49, 42), (31, 29), (6, 23));
    assert(GT::spow_steps(GT(gt_of(25, 77)), GT(gt_of(49, 42)), 37) == GT::spow_steps(GT(gt_of(11, 74)), GT(gt_of(31, 29)), 18));
    lemma_gt_mul_at((31, 29), (31, 29), (19, 48), (1, 9));
    assert(GT::spow_steps(GT(gt_of(11, 74)), GT(gt_of(31, 29)), 18) == GT::spow_steps(GT(gt_of(11, 74)), GT(gt_of(19, 48)), 9));
    lemma_gt_mul_at((11, 74), (19, 48), (91, 99), (-34, -17));
    lemma_gt_mul_at((19, 48), (19, 48), (77, 25), (-20, -5));
    assert(GT::spow_steps(GT(gt_of(11, 74)), GT(gt_of(19, 48)), 9) == GT::spow_steps(GT(gt_of(91, 99)), GT(gt_of(77, 25)), 4));
    lemma_gt_mul_at((77, 25), (77, 25), (52, 94), (52, 31));
    assert(GT::spow_steps(GT(gt_of(91, 99)), GT(gt_of(77, 25)), 4) == GT::spow_steps(GT(gt_of(91, 99)), GT(gt_of(52, 94)), 2));
    lemma_gt_mul_at((52, 94), (52, 94), (29, 31), (-61, 9));
    assert(GT::spow_steps(GT(gt_of(91, 99)), GT(gt_of(52, 94)), 2) == GT::spow_steps(GT(gt_of(91, 99)), GT(gt_of(29, 31)), 1));
    lemma_gt_mul_at((91, 99), (29, 31), (75, 98), (-5, 25));
    lemma_gt_mul_at((29, 31), (29, 31), (82, 29), (-2, 8));
    assert(GT::spow_steps(GT(gt_of(91, 99)), GT(gt_of(29, 31)), 1) == GT::spow_steps(GT(gt_of(75, 98)), GT(gt_of(82, 29)), 0));
}

/// The pairing of `13G` with the point `10 P` of the image of `H`.
proof fn lemma_pairing_13_10()
    ensures
        smiller_loop(g1p(65, 3), dq(26, 56)) is Some,
        spairing_at(g1p(65, 3), dq(26, 56)) == GT(gt_of(75, 98)),
{
    lemma_final_exponent();
    lemma_tangent_13_10();
    lemma_tangent_9_10();
    lemma_tangent_1_10();
    lemma_tangent_2_10();
    lemma_vertical_at(65, 98, 3, 26, 56);
    lemma_miller_at(
        g1p(65, 3),
        dq(26, 56),
        (g1p(18, 52), g1p(1, 2), g1p(68, 74), g1p(65, 98)),
        (72, 49),
        (17, 74),
        (24, 74),
        (77, 48),
        (-65, 26),
        ((56, 9, 27, 46), (84, 96, 2, 35), (62, 44, -22, 68), (50, 65, -18, 23)),
        ((93, 53, -18, 22), (72, 42, 45, 59), (86, 70, -58, -20)),
    );
    lemma_final_exp_13_10();
}

proof fn lemma_final_exp_14_10()
    ensures
        GT(gt_of(70, 98)).spow(600) == GT(gt_of(68, 21)),
{
    assert(GT::sone() == GT(gt_of(1, 0)));
    lemma_gt_mul_at((70, 98), (70, 98), (43, 76), (-47, 40));
    assert(GT::spow_steps(GT(gt_of(1, 0)), GT(gt_of(70, 98)), 600) == GT::spow_steps(GT(gt_of(1, 0)), GT(gt_of(43, 76)), 300));
    lemma_gt_mul_at((43, 76), (43, 76), (12, 53), (-39, 7));
    assert(GT::spow_steps(GT(gt_of(1, 0)), GT(gt_of(43, 76)), 300) == GT::spow_steps(GT(gt_of(1, 0)), GT(gt_of(12, 53)), 150));
    lemma_gt_mul_at((12, 53), (12, 53), (62, 79), (-27, -16));
    assert(GT::spow_steps(GT(gt_of(1, 0)), GT(gt_of(12, 53)), 150) == GT::spow_steps(GT(gt_of(1, 0)), GT(gt_of(62, 79)), 75));
    lemma_gt_mul_at((1, 0), (62, 79), (62, 79), (0, 0));
    lemma_gt_mul_at((62, 79), (62, 79), (27, 20), (-24, 35));
    assert(GT::spow_steps(GT(gt_of(1, 0)), GT(gt_of(62, 79)), 75) == GT::spow_steps(GT(gt_of(62, 79)), GT(gt_of(27, 20)), 37));
    lemma_gt_mul_at((62, 79), (27, 20), (94, 76), (0, 17));
    lemma_gt_mul_at((27, 20), (27, 20), (26, 74), (3, 6));
    assert(GT::spow_steps(GT(gt_of(62, 79)), GT(gt_of(27, 20)), 37) == GT::spow_steps(GT(gt_of(94, 76)), GT(gt_of(26, 74)), 18));
    lemma_gt_mul_at((26, 74), (26, 74), (48, 89), (-48, -17));
    assert(GT::spow_steps(GT(gt_of(94, 76)), GT(gt_of(26, 74)), 18) == GT::spow_steps(GT(gt_of(94, 76)), GT(gt_of(48, 89)), 9));
    lemma_gt_mul_at((94, 76), (48, 89), (71, 99), (-23, 51));
    lemma_gt_mul_at((48, 89), (48, 89), (39, 17), (-56, 6));
    assert(GT::spow_steps(GT(gt_of(94, 76)), GT(gt_of(48, 89)), 9) == GT::spow_steps(GT(gt_of(71, 99)), GT(gt_of(39, 17)), 4));
    lemma_gt_mul_at((39, 17), (39, 17), (20, 27), (12, 10));
    assert(GT::spow_steps(GT(gt_of(71, 99)), GT(gt_of(39, 17)), 4) == GT::spow_steps(GT(gt_of(71, 99)), GT(gt_of(20, 27)), 2));
    lemma_gt_mul_at((20, 27), (20, 27), (75, 48), (-4, 3));
    assert(GT::spow_steps(GT(gt_of(71, 99)), GT(gt_of(20, 27)), 2) == GT::spow_steps(GT(gt_of(71, 99)), GT(gt_of(75, 48)), 1));
    lemma_gt_mul_at((71, 99), (75, 48), (68, 21), (5, 60));
    lemma_gt_mul_at((75, 48), (75, 48), (89, 48), (32, 48));
    assert(GT::spow_steps(GT(gt_of(71, 99)), GT(gt_of(75, 48)), 1) == GT::spow_steps(GT(gt_of(68, 21)), GT(gt_of(89, 48)), 0));
}

/// The pairing of `14G` with the point `10 P` of the image of `H`.
proof fn lemma_pairing_14_10()
    ensures
        smiller_loop(g1p(26, 56), dq(26, 56)) is Some,
        spairing_at(g1p(26, 56), dq(26, 56)) == GT(gt_of(68, 21)),
{
    lemma_final_exponent();
    lemma_tangent_14_10();
    lemma_tangent_11_10();
    lemma_tangent_5_10();
    lemma_tangent_10_10();
    lemma_vertical_at(26, 45, 56, 26, 56);
    lemma_miller_at(
        g1p(26, 56),
        dq(26, 56),
        (g1p(32, 59), g1p(12, 32), g1p(91, 66), g1p(26, 45)),
        (21, 49),
        (12, 69),
        (66, 33),
        (62, 0),
        (-26, 26),
        ((60, 61, -20, -4), (46, 57, -35, 6), (79, 76, -12, 19), (80, 65, 26, 50)),
        ((54, 14, 21, 61), (15, 60, 33, 8), (70, 98, -20, -28)),
    );
    lemma_final_exp_14_10();
}

proof fn lemma_final_exp_15_10()
    ensures
        GT(gt_of(47, 31)).spow(600) == GT(gt_of(71, 57)),
{
    assert(GT::sone() == GT(gt_of(1, 0)));
    lemma_gt_mul_at((47, 31), (47, 31), (36, 34), (12, 19));
    assert(GT::spow_steps(GT(gt_of(1, 0)), GT(gt_of(47, 31)), 600) == GT::spow_steps(GT(gt_of(1, 0)), GT(gt_of(36, 34)), 300));
    lemma_gt_mul_at((36, 34), (36, 34), (39, 80), (1, 12));
    assert(GT::spow_steps(GT(gt_of(1, 0)), GT(gt_of(36, 34)), 300) == GT::spow_steps(GT(gt_of(1, 0)), GT(gt_of(39, 80)), 150));
    lemma_gt_mul_at((39, 80), (39, 80), (70, 42), (-49, -2));
    assert(GT::spow_steps(GT(gt_of(1, 0)), GT(gt_of(39, 80)), 150) == GT::spow_steps(GT(gt_of(1, 0)), GT(gt_of(70, 42)), 75));
    lemma_gt_mul_at((1, 0), (70, 42), (70, 42), (0, 0));
    lemma_gt_mul_at((70, 42), (70, 42), (5, 76), (31, 40));
    assert(GT::spow_steps(GT(gt_of(1, 0)), GT(gt_of(70, 42)), 75) == GT::spow_steps(GT(gt_of(70, 42)), GT(gt_of(5, 76)), 37));
    lemma_gt_mul_at((70, 42), (5, 76), (87, 15), (-29, 23));
    lemma_gt_mul_at((5, 76), (5, 76), (6, 34), (-57, -50));
    assert(GT::spow_steps(GT(gt_of(70, 42)), GT(gt_of(5, 76)), 37) == GT::spow_steps(GT(gt_of(87, 15)), GT(gt_of(6, 34)), 18));
    lemma_gt_mul_at((6, 34), (6, 34), (92, 60), (-12, -8));
    assert(GT::spow_steps(GT(gt_of(87, 15)), GT(gt_of(6, 34)), 18) == GT::spow_steps(GT(gt_of(87, 15)), GT(gt_of(92, 60)), 9));
    lemma_gt_mul_at((87, 15), (92, 60), (34, 44), (70, 56));
    lemma_gt_mul_at((92, 60), (92, 60), (16, 67), (48, 73));
    assert(GT::spow_steps(GT(gt_of(87, 15)), GT(gt_of(92, 60)), 9) == GT::spow_steps(GT(gt_of(34, 44)), GT(gt_of(16, 67)), 4));
    lemma_gt_mul_at((16, 67), (16, 67), (9, 79), (-42, -24));
    assert(GT::spow_steps(GT(gt_of(34, 44)), GT(gt_of(16, 67)), 4) == GT::spow_steps(GT(gt_of(34, 44)), GT(gt_of(9, 79)), 2));
    lemma_gt_mul_at((9, 79), (9, 79), (1, 29), (-61, -48));
    assert(GT::spow_steps(GT(gt_of(34, 44)), GT(gt_of(9, 79)), 2) == GT::spow_steps(GT(gt_of(34, 44)), GT(gt_of(1, 29)), 1));
    lemma_gt_mul_at((34, 44), (1, 29), (71, 57), (-13, -3));
    lemma_gt_mul_at((1, 29), (1, 29), (69, 25), (-9, -8));
    assert(GT::spow_steps(GT(gt_of(34, 44)), GT(gt_of(1, 29)), 1) == GT::spow_steps(GT(gt_of(71, 57)), GT(gt_of(69, 25)), 0));
}

/// The pairing of `15G` with the point `10 P` of the image of `H`.
proof fn lemma_pairing_15_10()
    ensures
        smiller_loop(g1p(68, 27), dq(26, 56)) is Some,
        spairing_at(g1p(68, 27), dq(26, 56)) == GT(gt_of(71, 57)),
{
    lemma_final_exponent();
    lemma_tangent_15_10();
    lemma_tangent_13_10();
    lemma_tangent_9_10();
    lemma_tangent_1_10();
    lemma_vertical_at(68, 74, 27, 26, 56);
    lemma_miller_at(
        g1p(68, 27),
        dq(26, 56),
        (g1p(65, 3), g1p(18, 52), g1p(1, 2), g1p(68, 74)),
        (36, 42),
        (72, 49),
        (17, 74),
        (24, 74),
        (-68, 26),
        ((37, 48, -5, 12), (9, 89, 3, 28), (38, 44, -78, -63), (16, 1, -26, 3)),
        ((53, 31, 2, 0), (89, 49, -11, 23), (47, 31, -73, -23)),
    );
    lemma_final_exp_15_10();
}

proof fn lemma_final_exp_16_10()
    ensures
        GT(gt_of(54, 50)).spow(600) == GT(gt_of(28, 39)),
{
    assert(GT::sone() == GT(gt_of(1, 0)));
    lemma_gt_mul_at((54, 50), (54, 50), (12, 72), (4, 28));
    assert(GT::spow_steps(GT(gt_of(1, 0)), GT(gt_of(54, 50)), 600) == GT::spow_steps(GT(gt_of(1, 0)), GT(gt_of(12, 72)), 300));
    lemma_gt_mul_at((12, 72), (12, 72), (10, 79), (-50, -35));
    assert(GT::spow_steps(GT(gt_of(1, 0)), GT(gt_of(12, 72)), 300) == GT::spow_steps(GT(gt_of(1, 0)), GT(gt_of(10, 79)), 150));
    lemma_gt_mul_at((10, 79), (10, 79), (20, 86), (-61, -47));
    assert(GT::spow_steps(GT(gt_of(1, 0)), GT(gt_of(10, 79)), 150) == GT::spow_steps(GT(gt_of(1, 0)), GT(gt_of(20, 86)), 75));
    lemma_gt_mul_at((1, 0), (20, 86), (20, 86), (0, 0));
    lemma_gt_mul_at((20, 86), (20, 86), (74, 84), (-70, -40));
    assert(GT::spow_steps(GT(gt_of(1, 0)), GT(gt_of(20, 86)), 75) == GT::spow_steps(GT(gt_of(20, 86)), GT(gt_of(74, 84)), 37));
    lemma_gt_mul_at((20, 86), (74, 84), (13, 12), (-57, 8));
    lemma_gt_mul_at((74, 84), (74, 84), (36, 23), (-16, 53));
    assert(GT::spow_steps(GT(gt_of(20, 86)), GT(gt_of(74, 84)), 37) == GT::spow_steps(GT(gt_of(13, 12)), GT(gt_of(36, 23)), 18));
    lemma_gt_mul_at((36, 23), (36, 23), (60, 16), (7, 11));
    assert(GT::spow_steps(GT(gt_of(13, 12)), GT(gt_of(36, 23)), 18) == GT::spow_steps(GT(gt_of(13, 12)), GT(gt_of(60, 16)), 9));
    lemma_gt_mul_at((13, 12), (60, 16), (83, 29), (5, 7));
    lemma_gt_mul_at((60, 16), (60, 16), (11, 48), (33, 16));
    assert(GT::spow_steps(GT(gt_of(13, 12)), GT(gt_of(60, 16)), 9) == GT::spow_steps(GT(gt_of(83, 29)), GT(gt_of(11, 48)), 4));
    lemma_gt_mul_at((11, 48), (11, 48), (39, 65), (-22, -13));
    assert(GT::spow_steps(GT(gt_of(83, 29)), GT(gt_of(11, 48)), 4) == GT::spow_steps(GT(gt_of(83, 29)), GT(gt_of(39, 65)), 2));
    lemma_gt_mul_at((39, 65), (39, 65), (23, 37), (-27, 8));
    assert(GT::spow_steps(GT(gt_of(83, 29)), GT(gt_of(39, 65)), 2) == GT::spow_steps(GT(gt_of(83, 29)), GT(gt_of(23, 37)), 1));
    lemma_gt_mul_at((83, 29), (23, 37), (28, 39), (8, 26));
    lemma_gt_mul_at((23, 37), (23, 37), (69, 30), (-9, 3));
    assert(GT::spow_steps(GT(gt_of(83, 29)), GT(gt_of(23, 37)), 1) == GT::spow_steps(GT(gt_of(28, 39)), GT(gt_of(69, 30)), 0));
}

/// The pairing of `16G` with the point `10 P` of the image of `H`.
proof fn lemma_pairing_16_10()
    ensures
        smiller_loop(g1p(1, 99), dq(26, 56)) is Some,
        spairing_at(g1p(1, 99), dq(26, 56)) == GT(gt_of(28, 39)),
{
    lemma_final_exponent();
    lemma_tangent_16_10();
    lemma_tangent_15_10();
    lemma_tangent_13_10();
    lemma_tangent_9_10();
    lemma_vertical_at(1, 2, 99, 26, 56);
    lemma_miller_at(
        g1p(1, 99),
        dq(26, 56),
        (g1p(68, 27), g1p(65, 3), g1p(18, 52), g1p(1, 2)),
        (89, 69),
        (36, 42),
        (72, 49),
        (17, 74),
        (-1, 26),
        ((29, 47, 31, 74), (80, 27, -10, 9), (15, 56, 56, 35), (53, 3, -17, 20)),
        ((73, 6, 27, 3), (90, 10, 7, 50), (54, 50, -4, 20)),
    );
    lemma_final_exp_16_10();
}

proof fn lemma_final_exp_1_11()
    ensures
        GT(gt_of(50, 95)).spow(600) == GT(gt_of(75, 98)),
{
    assert(GT::sone() == GT(gt_of(1, 0)));
    lemma_gt_mul_at((50, 95), (50, 95), (40, 71), (-65, 4));
    assert(GT::spow_steps(GT(gt_of(1, 0)), GT(gt_of(50, 95)), 600) == GT::spow_steps(GT(gt_of(1, 0)), GT(gt_of(40, 71)), 300));
    lemma_gt_mul_at((40, 71), (40, 71), (94, 33), (-35, 6));
    assert(GT::spow_steps(GT(gt_of(1, 0)), GT(gt_of(40, 71)), 300) == GT::spow_steps(GT(gt_of(1, 0)), GT(gt_of(94, 33)), 150));
    lemma_gt_mul_at((94, 33), (94, 33), (71, 65), (76, 50));
    assert(GT::spow_steps(GT(gt_of(1, 0)), GT(gt_of(94, 33)), 150) == GT::spow_steps(GT(gt_of(1, 0)), GT(gt_of(71, 65)), 75));
    lemma_gt_mul_at((1, 0), (71, 65), (71, 65), (0, 0));
    lemma_gt_mul_at((71, 65), (71, 65), (8, 56), (8, 49));
    assert(GT::spow_steps(GT(gt_of(1, 0)), GT(gt_of(71, 65)), 75) == GT::spow_steps(GT(gt_of(71, 65)), GT(gt_of(8, 56)), 37));
    lemma_gt_mul_at((71, 65), (8, 56), (59, 48), (-31, 8));
    lemma_gt_mul_at((8, 56), (8, 56), (59, 83), (-31, -23));
    assert(GT::spow_steps(GT(gt_of(71, 65)), GT(gt_of(8, 56)), 37) == GT::spow_steps(GT(gt_of(59, 48)), GT(gt_of(59, 83)), 18));
    lemma_gt_mul_at((59, 83), (59, 83), (26, 77), (-34, 28));
    assert(GT::spow_steps(GT(gt_of(59, 48)), GT(gt_of(59, 83)), 18) == GT::spow_steps(GT(gt_of(59, 48)), GT(gt_of(26, 77)), 9));
    lemma_gt_mul_at((59, 48), (26, 77), (60, 75), (-22, 20));
    lemma_gt_mul_at((26, 77), (26, 77), (100, 95), (-53, -20));
    assert(GT::spow_steps(GT(gt_of(59, 48)), GT(gt_of(26, 77)), 9) == GT::spow_steps(GT(gt_of(60, 75)), GT(gt_of(100, 95)), 4));
    lemma_gt_mul_at((100, 95), (100, 95), (66, 77), (9, 98));
    assert(GT::spow_steps(GT(gt_of(60, 75)), GT(gt_of(100, 95)), 4) == GT::spow_steps(GT(gt_of(60, 75)), GT(gt_of(66, 77)), 2));
    lemma_gt_mul_at((66, 77), (66, 77), (43, 94), (-16, 41));
    assert(GT::spow_steps(GT(gt_of(60, 75)), GT(gt_of(66, 77)), 2) == GT::spow_steps(GT(gt_of(60, 75)), GT(gt_of(43, 94)), 1));
    lemma_gt_mul_at((60, 75), (43, 94), (75, 98), (-45, 17));
    lemma_gt_mul_at((43, 94), (43, 94), (83, 56), (-70, -8));
    assert(GT::spow_steps(GT(gt_of(60, 75)), GT(gt_of(43, 94)), 1) == GT::spow_steps(GT(gt_of(75, 98)), GT(gt_of(83, 56)), 0));
}

/// The pairing of `1G` with the point `11 P` of the image of `H`.
proof fn lemma_pairing_1_11()
    ensures
        smiller_loop(g1p(1, 2), dq(58, 36)) is Some,
        spairing_at(g1p(1, 2), dq(58, 36)) == GT(gt_of(75, 98)),
{
    lemma_final_exponent();
    lemma_tangent_1_11();
    lemma_tangent_2_11();
    lemma_tangent_4_11();
    lemma_tangent_8_11();
    lemma_vertical_at(1, 99, 2, 58, 36);
    lemma_miller_at(
        g1p(1, 2),
        dq(58, 36),
        (g1p(68, 74), g1p(65, 98), g1p(18, 49), g1p(1, 99)),
        (95, 6),
        (1, 13),
        (35, 93),
        (84, 14),
        (-1, 58),
        ((0, 94, 89, 10), (91, 84, -13, -12), (13, 51, 12, 81), (55, 69, -43, -18)),
        ((82, 1, -18, 28), (6, 6, 68, 12), (50, 95, -4, -1)),
    );
    lemma_final_exp_1_11();
}

proof fn lemma_final_exp_2_11()
    ensures
        GT(gt_of(22, 83)).spow(600) == GT(gt_of(61, 46)),
{
    assert(GT::sone() == GT(gt_of(1, 0)));
    lemma_gt_mul_at((22, 83), (22, 83), (59, 96), (-64, -33));
    assert(GT::spow_steps(GT(gt_of(1, 0)), GT(gt_of(22, 83)), 600) == GT::spow_steps(GT(gt_of(1, 0)), GT(gt_of(59, 96)), 300));
    lemma_gt_mul_at((59, 96), (59, 96), (22, 92), (-57, 20));
    assert(GT::spow_steps(GT(gt_of(1, 0)), GT(gt_of(59, 96)), 300) == GT::spow_steps(GT(gt_of(1, 0)), GT(gt_of(22, 92)), 150));
    lemma_gt_mul_at((22, 92), (22, 92), (100, 28), (-80, -44));
    assert(GT::spow_steps(GT(gt_of(1, 0)), GT(gt_of(22, 92)), 150) == GT::spow_steps(GT(gt_of(1, 0)), GT(gt_of(100, 28)), 75));
    lemma_gt_mul_at((1, 0), (100, 28), (100, 28), (0, 0));
    lemma_gt_mul_at((100, 28), (100, 28), (25, 69), (91, 47));
    assert(GT::spow_steps(GT(gt_of(1, 0)), GT(gt_of(100, 28)), 75) == GT::spow_steps(GT(gt_of(100, 28)), GT(gt_of(25, 69)), 37));
    lemma_gt_mul_at((100, 28), (25, 69), (63, 12), (5, 56));
    lemma_gt_mul_at((25, 69), (25, 69), (5, 2), (-41, -13));
    assert(GT::spow_steps(GT(gt_of(100, 28)), GT(gt_of(25, 69)), 37) == GT::spow_steps(GT(gt_of(63, 12)), GT(gt_of(5, 2)), 18));
    lemma_gt_mul_at((5, 2), (5, 2), (21, 16), (0, 0));
    assert(GT::spow_steps(GT(gt_of(63, 12)), GT(gt_of(5, 2)), 18) == GT::spow_steps(GT(gt_of(63, 12)), GT(gt_of(21, 16)), 9));
    lemma_gt_mul_at((63, 12), (21, 16), (20, 58), (11, 10));
    lemma_gt_mul_at((21, 16), (21, 16), (84, 12), (1, 4));
    assert(GT::spow_steps(GT(gt_of(63, 12)), GT(gt_of(21, 16)), 9) == GT::spow_steps(GT(gt_of(20, 58)), GT(gt_of(84, 12)), 4));
    lemma_gt_mul_at((84, 12), (84, 12), (44, 54), (68, 18));
    assert(GT::spow_steps(GT(gt_of(20, 58)), GT(gt_of(84, 12)), 4) == GT::spow_steps(GT(gt_of(20, 58)), GT(gt_of(44, 54)), 2));
    lemma_gt_mul_at((44, 54), (44, 54), (30, 18), (-10, 18));
    assert(GT::spow_steps(GT(gt_of(20, 58)), GT(gt_of(44, 54)), 2) == GT::spow_steps(GT(gt_of(20, 58)), GT(gt_of(30, 18)), 1));
    lemma_gt_mul_at((20, 58), (30, 18), (61, 46), (-5, 10));
    lemma_gt_mul_at((30, 18), (30, 18), (71, 49), (5, 7));
    assert(GT::spow_steps(GT(gt_of(20, 58)), GT(gt_of(30, 18)), 1) == GT::spow_steps(GT(gt_of(61, 46)), GT(gt_of(71, 49)), 0));
}

/// The pairing of `2G` with the point `11 P` of the image of `H`.
proof fn lemma_pairing_2_11()
    ensures
        smiller_loop(g1p(68, 74), dq(58, 36)) is Some,
        spairing_at(g1p(68, 74), dq(58, 36)) == GT(gt_of(61, 46)),
{
    lemma_final_exponent();
    lemma_tangent_2_11();
    lemma_tangent_4_11();
    lemma_tangent_8_11();
    lemma_tangent_16_11();
    lemma_vertical_at(68, 27, 74, 58, 36);
    lemma_miller_at(
        g1p(68, 74),
        dq(58, 36),
        (g1p(65, 98), g1p(18, 49), g1p(1, 99), g1p(68, 27)),
        (1, 13),
        (35, 93),
        (84, 14),
        (65, 42),
        (-68, 58),
        ((34, 59, -2, -2), (46, 43, -43, -3), (65, 87, 2, 20), (0, 31, 42, 69)),
        ((49, 49, -10, -10), (16, 54, 11, 31), (22, 83, -42, -59)),
    );
    lemma_final_exp_2_11();
}

proof fn lemma_final_exp_3_11()
    ensures
        GT(gt_of(21, 63)).spow(600) == GT(gt_of(67, 72)),
{
    assert(GT::sone() == GT(gt_of(1, 0)));
    lemma_gt_mul_at((21, 63), (21, 63), (7, 91), (-35, -14));
    assert(GT::spow_steps(GT(gt_of(1, 0)), GT(gt_of(21, 63)), 600) == GT::spow_steps(GT(gt_of(1, 0)), GT(gt_of(7, 91)), 300));
    lemma_gt_mul_at((7, 91), (7, 91), (50, 63), (-82, -70));
    assert(GT::spow_steps(GT(gt_of(1, 0)), GT(gt_of(7, 91)), 300) == GT::spow_steps(GT(gt_of(1, 0)), GT(gt_of(50, 63)), 150));
    lemma_gt_mul_at((50, 63), (50, 63), (46, 8), (-15, 23));
    assert(GT::spow_steps(GT(gt_of(1, 0)), GT(gt_of(50, 63)), 150) == GT::spow_steps(GT(gt_of(1, 0)), GT(gt_of(46, 8)), 75));
    lemma_gt_mul_at((1, 0), (46, 8), (46, 8), (0, 0));
    lemma_gt_mul_at((46, 8), (46, 8), (32, 66), (20, 6));
    assert(GT::spow_steps(GT(gt_of(1, 0)), GT(gt_of(46, 8)), 75) == GT::spow_steps(GT(gt_of(46, 8)), GT(gt_of(32, 66)), 37));
    lemma_gt_mul_at((46, 8), (32, 66), (35, 37), (9, 27));
    lemma_gt_mul_at((32, 66), (32, 66), (1, 70), (-33, -2));
    assert(GT::spow_steps(GT(gt_of(46, 8)), GT(gt_of(32, 66)), 37) == GT::spow_steps(GT(gt_of(35, 37)), GT(gt_of(1, 70)), 18));
    lemma_gt_mul_at((1, 70), (1, 70), (50, 88), (-49, -48));
    assert(GT::spow_steps(GT(gt_of(35, 37)), GT(gt_of(1, 70)), 18) == GT::spow_steps(GT(gt_of(35, 37)), GT(gt_of(50, 88)), 9));
    lemma_gt_mul_at((35, 37), (50, 88), (9, 58), (-15, 16));
    lemma_gt_mul_at((50, 88), (50, 88), (8, 46), (-52, 10));
    assert(GT::spow_steps(GT(gt_of(35, 37)), GT(gt_of(50, 88)), 9) == GT::spow_steps(GT(gt_of(9, 58)), GT(gt_of(8, 46)), 4));
    lemma_gt_mul_at((8, 46), (8, 46), (69, 34), (-21, -14));
    assert(GT::spow_steps(GT(gt_of(9, 58)), GT(gt_of(8, 46)), 4) == GT::spow_steps(GT(gt_of(9, 58)), GT(gt_of(69, 34)), 2));
    lemma_gt_mul_at((69, 34), (69, 34), (70, 1), (35, 35));
    assert(GT::spow_steps(GT(gt_of(9, 58)), GT(gt_of(69, 34)), 2) == GT::spow_steps(GT(gt_of(9, 58)), GT(gt_of(70, 1)), 1));
    lemma_gt_mul_at((9, 58), (70, 1), (67, 72), (5, 39));
    lemma_gt_mul_at((70, 1), (70, 1), (51, 38), (48, 1));
    assert(GT::spow_steps(GT(gt_of(9, 58)), GT(gt_of(70, 1)), 1) == GT::spow_steps(GT(gt_of(67, 72)), GT(gt_of(51, 38)), 0));
}

/// The pairing of `3G` with the point `11 P` of the image of `H`.
proof fn lemma_pairing_3_11()
    ensures
        smiller_loop(g1p(26, 45), dq(58, 36)) is Some,
        spairing_at(g1p(26, 45), dq(58, 36)) == GT(gt_of(67, 72)),
{
    lemma_final_exponent();
    lemma_tangent_3_11();
    lemma_tangent_6_11();
    lemma_tangent_12_11();
    lemma_tangent_7_11();
    lemma_vertical_at(26, 56, 45, 58, 36);
    lemma_miller_at(
        g1p(26, 45),
        dq(58, 36),
        (g1p(32, 42), g1p(12, 69), g1p(91, 35), g1p(26, 56)),
        (51, 83),
        (68, 38),
        (0, 96),
        (32, 12),
        (-26, 58),
        ((55, 62, -43, 15), (71, 11, 13, 39), (72, 27, 48, 14), (34, 78, -26, 42)),
        ((21, 28, -49, -8), (33, 4, 3, 8), (21, 63, -11, 15)),
    );
    lemma_final_exp_3_11();
}

proof fn lemma_final_exp_4_11()
    ensures
        GT(gt_of(85, 61)).spow(600) == GT(gt_of(90, 62)),
{
    assert(GT::sone() == GT(gt_of(1, 0)));
    lemma_gt_mul_at((85, 61), (85, 61), (70, 84), (34, 65));
    assert(GT::spow_steps(GT(gt_of(1, 0)), GT(gt_of(85, 61)), 600) == GT::spow_steps(GT(gt_of(1, 0)), GT(gt_of(70, 84)), 300));
    lemma_gt_mul_at((70, 84), (70, 84), (66, 58), (-22, 46));
    assert(GT::spow_steps(GT(gt_of(1, 0)), GT(gt_of(70, 84)), 300) == GT::spow_steps(GT(gt_of(1, 0)), GT(gt_of(66, 58)), 150));
    lemma_gt_mul_at((66, 58), (66, 58), (83, 50), (9, 42));
    assert(GT::spow_steps(GT(gt_of(1, 0)), GT(gt_of(66, 58)), 150) == GT::spow_steps(GT(gt_of(1, 0)), GT(gt_of(83, 50)), 75));
    lemma_gt_mul_at((1, 0), (83, 50), (83, 50), (0, 0));
    lemma_gt_mul_at((83, 50), (83, 50), (46, 43), (43, 57));
    assert(GT::spow_steps(GT(gt_of(1, 0)), GT(gt_of(83, 50)), 75) == GT::spow_steps(GT(gt_of(83, 50)), GT(gt_of(46, 43)), 37));
    lemma_gt_mul_at((83, 50), (46, 43), (52, 83), (16, 36));
    lemma_gt_mul_at((46, 43), (46, 43), (65, 87), (2, 20));
    assert(GT::spow_steps(GT(gt_of(83, 50)), GT(gt_of(46, 43)), 37) == GT::spow_steps(GT(gt_of(52, 83)), GT(gt_of(65, 87)), 18));
    lemma_gt_mul_at((65, 87), (65, 87), (90, 4), (-34, 37));
    assert(GT::spow_steps(GT(gt_of(52, 83)), GT(gt_of(65, 87)), 18) == GT::spow_steps(GT(gt_of(52, 83)), GT(gt_of(90, 4)), 9));
    lemma_gt_mul_at((52, 83), (90, 4), (5, 74), (43, 72));
    lemma_gt_mul_at((90, 4), (90, 4), (4, 98), (80, 6));
    assert(GT::spow_steps(GT(gt_of(52, 83)), GT(gt_of(90, 4)), 9) == GT::spow_steps(GT(gt_of(5, 74)), GT(gt_of(4, 98)), 4));
    lemma_gt_mul_at((4, 98), (4, 98), (7, 68), (-95, -88));
    assert(GT::spow_steps(GT(gt_of(5, 74)), GT(gt_of(4, 98)), 4) == GT::spow_steps(GT(gt_of(5, 74)), GT(gt_of(7, 68)), 2));
    lemma_gt_mul_at((7, 68), (7, 68), (71, 65), (-46, -37));
    assert(GT::spow_steps(GT(gt_of(5, 74)), GT(gt_of(7, 68)), 2) == GT::spow_steps(GT(gt_of(5, 74)), GT(gt_of(71, 65)), 1));
    lemma_gt_mul_at((5, 74), (71, 65), (90, 62), (-45, 7));
    lemma_gt_mul_at((71, 65), (71, 65), (8, 56), (8, 49));
    assert(GT::spow_steps(GT(gt_of(5, 74)), GT(gt_of(71, 65)), 1) == GT::spow_steps(GT(gt_of(90, 62)), GT(gt_of(8, 56)), 0));
}

/// The pairing of `4G` with the point `11 P` of the image of `H`.
proof fn lemma_pairing_4_11()
    ensures
        smiller_loop(g1p(65, 98), dq(58, 36)) is Some,
        spairing_at(g1p(65, 98), dq(58, 36)) == GT(gt_of(90, 62)),
{
    lemma_final_exponent();
    lemma_tangent_4_11();
    lemma_tangent_8_11();
    lemma_tangent_16_11();
    lemma_tangent_15_11();
    lemma_vertical_at(65, 3, 98, 58, 36);
    lemma_miller_at(
        g1p(65, 98),
        dq(58, 36),
        (g1p(18, 49), g1p(1, 99), g1p(68, 27), g1p(65, 3)),
        (35, 93),
        (84, 14),
        (65, 42),
        (62, 98),
        (-65, 58),
        ((50, 83, -74, -22), (8, 46, 30, 64), (69, 34, -21, -14), (27, 44, 30, 36)),
        ((5, 36, -12, 4), (14, 2, -32, -8), (85, 61, -11, 5)),
    );
    lemma_final_exp_4_11();
}

proof fn lemma_final_exp_5_11()
    ensures
        GT(gt_of(11, 84)).spow(600) == GT(gt_of(68, 21)),
{
    assert(GT::sone() == GT(gt_of(1, 0)));
    lemma_gt_mul_at((11, 84), (11, 84), (34, 44), (-69, -52));
    assert(GT::spow_steps(GT(gt_of(1, 0)), GT(gt_of(11, 84)), 600) == GT::spow_steps(GT(gt_of(1, 0)), GT(gt_of(34, 44)), 300));
    lemma_gt_mul_at((34, 44), (34, 44), (28, 46), (-8, 10));
    assert(GT::spow_steps(GT(gt_of(1, 0)), GT(gt_of(34, 44)), 300) == GT::spow_steps(GT(gt_of(1, 0)), GT(gt_of(28, 46)), 150));
    lemma_gt_mul_at((28, 46), (28, 46), (82, 56), (-14, 4));
    assert(GT::spow_steps(GT(gt_of(1, 0)), GT(gt_of(28, 46)), 150) == GT::spow_steps(GT(gt_of(1, 0)), GT(gt_of(82, 56)), 75));
    lemma_gt_mul_at((1, 0), (82, 56), (82, 56), (0, 0));
    lemma_gt_mul_at((82, 56), (82, 56), (53, 89), (35, 59));
    assert(GT::spow_steps(GT(gt_of(1, 0)), GT(gt_of(82, 56)), 75) == GT::spow_steps(GT(gt_of(82, 56)), GT(gt_of(53, 89)), 37));
    lemma_gt_mul_at((82, 56), (53, 89), (69, 30), (-7, 52));
    lemma_gt_mul_at((53, 89), (53, 89), (39, 99), (-51, 14));
    assert(GT::spow_steps(GT(gt_of(82, 56)), GT(gt_of(53, 89)), 37) == GT::spow_steps(GT(gt_of(69, 30)), GT(gt_of(39, 99)), 18));
    lemma_gt_mul_at((39, 99), (39, 99), (2, 42), (-82, -21));
    assert(GT::spow_steps(GT(gt_of(69, 30)), GT(gt_of(39, 99)), 18) == GT::spow_steps(GT(gt_of(69, 30)), GT(gt_of(2, 42)), 9));
    lemma_gt_mul_at((69, 30), (2, 42), (90, 82), (-12, 16));
    lemma_gt_mul_at((2, 42), (2, 42), (58, 20), (-18, -16));
    assert(GT::spow_steps(GT(gt_of(69, 30)), GT(gt_of(2, 42)), 9) == GT::spow_steps(GT(gt_of(90, 82)), GT(gt_of(58, 20)), 4));
    lemma_gt_mul_at((58, 20), (58, 20), (35, 1), (29, 19));
    assert(GT::spow_steps(GT(gt_of(90, 82)), GT(gt_of(58, 20)), 4) == GT::spow_steps(GT(gt_of(90, 82)), GT(gt_of(35, 1)), 2));
    lemma_gt_mul_at((35, 1), (35, 1), (12, 69), (12, 0));
    assert(GT::spow_steps(GT(gt_of(90, 82)), GT(gt_of(35, 1)), 2) == GT::spow_steps(GT(gt_of(90, 82)), GT(gt_of(12, 69)), 1));
    lemma_gt_mul_at((90, 82), (12, 69), (68, 21), (-46, 15));
    lemma_gt_mul_at((12, 69), (12, 69), (29, 26), (-46, -31));
    assert(GT::spow_steps(GT(gt_of(90, 82)), GT(gt_of(12, 69)), 1) == GT::spow_steps(GT(gt_of(68, 21)), GT(gt_of(29, 26)), 0));
}

/// The pairing of `5G` with the point `11 P` of the image of `H`.
proof fn lemma_pairing_5_11()
    ensures
        smiller_loop(g1p(12, 32), dq(58, 36)) is Some,
        spairing_at(g1p(12, 32), dq(58, 36)) == GT(gt_of(68, 21)),
{
    lemma_final_exponent();
    lemma_tangent_5_11();
    lemma_tangent_10_11();
    lemma_tangent_3_11();
    lemma_tangent_6_11();
    lemma_vertical_at(12, 69, 32, 58, 36);
    lemma_miller_at(
        g1p(12, 32),
        dq(58, 36),
        (g1p(91, 66), g1p(26, 45), g1p(32, 42), g1p(12, 69)),
        (97, 17),
        (24, 94),
        (51, 83),
        (68, 38),
        (-12, 58),
        ((30, 80, 90, 29), (68, 48, -68, -28), (98, 83, 22, 41), (28, 24, -19, 54)),
        ((6, 61, 2, 7), (9, 38, -19, 20), (11, 84, -23, -22)),
    );
    lemma_final_exp_5_11();
}

proof fn lemma_final_exp_6_11()
    ensures
        GT(gt_of(89, 20)).spow(600) == GT(gt_of(12, 20)),
{
    assert(GT::sone() == GT(gt_of(1, 0)));
    lemma_gt_mul_at((89, 20), (89, 20), (47, 29), (74, 31));
    assert(GT::spow_steps(GT(gt_of(1, 0)), GT(gt_of(89, 20)), 600) == GT::spow_steps(GT(gt_of(1, 0)), GT(gt_of(47, 29)), 300));
    lemma_gt_mul_at((47, 29), (47, 29), (55, 67), (13, 18));
    assert(GT::spow_steps(GT(gt_of(1, 0)), GT(gt_of(47, 29)), 300) == GT::spow_steps(GT(gt_of(1, 0)), GT(gt_of(55, 67)), 150));
    lemma_gt_mul_at((55, 67), (55, 67), (51, 53), (-15, 28));
    assert(GT::spow_steps(GT(gt_of(1, 0)), GT(gt_of(55, 67)), 150) == GT::spow_steps(GT(gt_of(1, 0)), GT(gt_of(51, 53)), 75));
    lemma_gt_mul_at((1, 0), (51, 53), (51, 53), (0, 0));
    lemma_gt_mul_at((51, 53), (51, 53), (95, 72), (-3, 25));
    assert(GT::spow_steps(GT(gt_of(1, 0)), GT(gt_of(51, 53)), 75) == GT::spow_steps(GT(gt_of(51, 53)), GT(gt_of(95, 72)), 37));
    lemma_gt_mul_at((51, 53), (95, 72), (19, 43), (10, 48));
    lemma_gt_mul_at((95, 72), (95, 72), (3, 12), (38, 84));
    assert(GT::spow_steps(GT(gt_of(51, 53)), GT(gt_of(95, 72)), 37) == GT::spow_steps(GT(gt_of(19, 43)), GT(gt_of(3, 12)), 18));
    lemma_gt_mul_at((3, 12), (3, 12), (67, 29), (-2, -1));
    assert(GT::spow_steps(GT(gt_of(19, 43)), GT(gt_of(3, 12)), 18) == GT::spow_steps(GT(gt_of(19, 43)), GT(gt_of(67, 29)), 9));
    lemma_gt_mul_at((19, 43), (67, 29), (26, 64), (0, 21));
    lemma_gt_mul_at((67, 29), (67, 29), (12, 15), (36, 30));
    assert(GT::spow_steps(GT(gt_of(19, 43)), GT(gt_of(67, 29)), 9) == GT::spow_steps(GT(gt_of(26, 64)), GT(gt_of(12, 15)), 4));
    lemma_gt_mul_at((12, 15), (12, 15), (20, 34), (-1, 1));
    assert(GT::spow_steps(GT(gt_of(26, 64)), GT(gt_of(12, 15)), 4) == GT::spow_steps(GT(gt_of(26, 64)), GT(gt_of(20, 34)), 2));
    lemma_gt_mul_at((20, 34), (20, 34), (52, 2), (-8, 2));
    assert(GT::spow_steps(GT(gt_of(26, 64)), GT(gt_of(20, 34)), 2) == GT::spow_steps(GT(gt_of(26, 64)), GT(gt_of(52, 2)), 1));
    lemma_gt_mul_at((26, 64), (52, 2), (12, 20), (12, 32));
    lemma_gt_mul_at((52, 2), (52, 2), (74, 2), (26, 2));
    assert(GT::spow_steps(GT(gt_of(26, 64)), GT(gt_of(52, 2)), 1) == GT::spow_steps(GT(gt_of(12, 20)), GT(gt_of(74, 2)), 0));
}

/// The pairing of `6G` with the point `11 P` of the image of `H`.
proof fn lemma_pairing_6_11()
    ensures
        smiller_loop(g1p(32, 42), dq(58, 36)) is Some,
        spairing_at(g1p(32, 42), dq(58, 36)) == GT(gt_of(12, 20)),
{
    lemma_final_exponent();
    lemma_tangent_6_11();
    lemma_tangent_12_11();
    lemma_tangent_7_11();
    lemma_tangent_14_11();
    lemma_vertical_at(32, 59, 42, 58, 36);
    lemma_miller_at(
        g1p(32, 42),
        dq(58, 36),
        (g1p(12, 69), g1p(91, 35), g1p(26, 56), g1p(32, 59)),
        (68, 38),
        (0, 96),
        (32, 12),
        (6, 48),
        (-32, 58),
        ((49, 88, 31, 36), (36, 94, -84, -38), (35, 53, -75, -21), (80, 66, 4, 14)),
        ((24, 43, 20, 61), (100, 53, -20, -7), (89, 20, -63, 10)),
    );
    lemma_final_exp_6_11();
}

proof fn lemma_final_exp_7_11()
    ensures
        GT(gt_of(17, 82)).spow(600) == GT(gt_of(51, 9)),
{
    assert(GT::sone() == GT(gt_of(1, 0)));
    lemma_gt_mul_at((17, 82), (17, 82), (29, 3), (-64, -39));
    assert(GT::spow_steps(GT(gt_of(1, 0)), GT(gt_of(17, 82)), 600) == GT::spow_steps(GT(gt_of(1, 0)), GT(gt_of(29, 3)), 300));
    lemma_gt_mul_at((29, 3), (29, 3), (24, 64), (8, 1));
    assert(GT::spow_steps(GT(gt_of(1, 0)), GT(gt_of(29, 3)), 300) == GT::spow_steps(GT(gt_of(1, 0)), GT(gt_of(24, 64)), 150));
    lemma_gt_mul_at((24, 64), (24, 64), (15, 87), (-35, -11));
    assert(GT::spow_steps(GT(gt_of(1, 0)), GT(gt_of(24, 64)), 150) == GT::spow_steps(GT(gt_of(1, 0)), GT(gt_of(15, 87)), 75));
    lemma_gt_mul_at((1, 0), (15, 87), (15, 87), (0, 0));
    lemma_gt_mul_at((15, 87), (15, 87), (29, 91), (-73, -50));
    assert(GT::spow_steps(GT(gt_of(1, 0)), GT(gt_of(15, 87)), 75) == GT::spow_steps(GT(gt_of(15, 87)), GT(gt_of(29, 91)), 37));
    lemma_gt_mul_at((15, 87), (29, 91), (93, 11), (-75, -40));
    lemma_gt_mul_at((29, 91), (29, 91), (34, 27), (-74, -30));
    assert(GT::spow_steps(GT(gt_of(15, 87)), GT(gt_of(29, 91)), 37) == GT::spow_steps(GT(gt_of(93, 11)), GT(gt_of(34, 27)), 18));
    lemma_gt_mul_at((34, 27), (34, 27), (23, 97), (4, 10));
    assert(GT::spow_steps(GT(gt_of(93, 11)), GT(gt_of(34, 27)), 18) == GT::spow_steps(GT(gt_of(93, 11)), GT(gt_of(23, 97)), 9));
    lemma_gt_mul_at((93, 11), (23, 97), (62, 26), (10, 81));
    lemma_gt_mul_at((23, 97), (23, 97), (8, 2), (-88, -49));
    assert(GT::spow_steps(GT(gt_of(93, 11)), GT(gt_of(23, 97)), 9) == GT::spow_steps(GT(gt_of(62, 26)), GT(gt_of(8, 2)), 4));
    lemma_gt_mul_at((8, 2), (8, 2), (60, 28), (0, 0));
    assert(GT::spow_steps(GT(gt_of(62, 26)), GT(gt_of(8, 2)), 4) == GT::spow_steps(GT(gt_of(62, 26)), GT(gt_of(60, 28)), 2));
    lemma_gt_mul_at((60, 28), (60, 28), (89, 51), (27, 25));
    assert(GT::spow_steps(GT(gt_of(62, 26)), GT(gt_of(60, 28)), 2) == GT::spow_steps(GT(gt_of(62, 26)), GT(gt_of(89, 51)), 1));
    lemma_gt_mul_at((62, 26), (89, 51), (51, 9), (41, 41));
    lemma_gt_mul_at((89, 51), (89, 51), (68, 13), (52, 64));
    assert(GT::spow_steps(GT(gt_of(62, 26)), GT(gt_of(89, 51)), 1) == GT::spow_steps(GT(gt_of(51, 9)), GT(gt_of(68, 13)), 0));
}

/// The pairing of `7G` with the point `11 P` of the image of `H`.
proof fn lemma_pairing_7_11()
    ensures
        smiller_loop(g1p(91, 35), dq(58, 36)) is Some,
        spairing_at(g1p(91, 35), dq(58, 36)) == GT(gt_of(51, 9)),
{
    lemma_final_exponent();
    lemma_tangent_7_11();
    lemma_tangent_14_11();
    lemma_tangent_11_11();
    lemma_tangent_5_11();
    lemma_vertical_at(91, 66, 35, 58, 36);
    lemma_miller_at(
        g1p(91, 35),
        dq(58, 36),
        (g1p(26, 56), g1p(32, 59), g1p(12, 32), g1p(91, 66)),
        (32, 12),
        (6, 48),
        (54, 40),
        (97, 17),
        (-91, 58),
        ((72, 18, 8, 6), (73, 74, -5, 26), (55, 76, -2, 52), (31, 32, -1, 32)),
        ((38, 51, -1, 9), (92, 80, 27, 46), (17, 82, -129, -66)),
    );
    lemma_final_exp_7_11();
}

proof fn lemma_final_exp_8_11()
    ensures
        GT(gt_of(43, 88)).spow(600) == GT(gt_of(14, 44)),
{
    assert(GT::sone() == GT(gt_of(1, 0)));
    lemma_gt_mul_at((43, 88), (43, 88), (64, 26), (-59, -2));
    assert(GT::spow_steps(GT(gt_of(1, 0)), GT(gt_of(43, 88)), 600) == GT::spow_steps(GT(gt_of(1, 0)), GT(gt_of(64, 26)), 300));
    lemma_gt_mul_at((64, 26), (64, 26), (87, 26), (33, 26));
    assert(GT::spow_steps(GT(gt_of(1, 0)), GT(gt_of(64, 26)), 300) == GT::spow_steps(GT(gt_of(1, 0)), GT(gt_of(87, 26)), 150));
    lemma_gt_mul_at((87, 26), (87, 26), (25, 10), (68, 38));
    assert(GT::spow_steps(GT(gt_of(1, 0)), GT(gt_of(87, 26)), 150) == GT::spow_steps(GT(gt_of(1, 0)), GT(gt_of(25, 10)), 75));
    lemma_gt_mul_at((1, 0), (25, 10), (25, 10), (0, 0));
    lemma_gt_mul_at((25, 10), (25, 10), (20, 97), (5, 3));
    assert(GT::spow_steps(GT(gt_of(1, 0)), GT(gt_of(25, 10)), 75) == GT::spow_steps(GT(gt_of(25, 10)), GT(gt_of(20, 97)), 37));
    lemma_gt_mul_at((25, 10), (20, 97), (35, 39), (-5, 16));
    lemma_gt_mul_at((20, 97), (20, 97), (81, 26), (-90, -55));
    assert(GT::spow_steps(GT(gt_of(25, 10)), GT(gt_of(20, 97)), 37) == GT::spow_steps(GT(gt_of(35, 39)), GT(gt_of(81, 26)), 18));
    lemma_gt_mul_at((81, 26), (81, 26), (27, 1), (58, 35));
    assert(GT::spow_steps(GT(gt_of(35, 39)), GT(gt_of(81, 26)), 18) == GT::spow_steps(GT(gt_of(35, 39)), GT(gt_of(27, 1)), 9));
    lemma_gt_mul_at((35, 39), (27, 1), (98, 39), (8, 10));
    lemma_gt_mul_at((27, 1), (27, 1), (21, 53), (7, 0));
    assert(GT::spow_steps(GT(gt_of(35, 39)), GT(gt_of(27, 1)), 9) == GT::spow_steps(GT(gt_of(98, 39)), GT(gt_of(21, 53)), 4));
    lemma_gt_mul_at((21, 53), (21, 53), (56, 23), (-24, -6));
    assert(GT::spow_steps(GT(gt_of(98, 39)), GT(gt_of(21, 53)), 4) == GT::spow_steps(GT(gt_of(98, 39)), GT(gt_of(56, 23)), 2));
    lemma_gt_mul_at((56, 23), (56, 23), (82, 27), (25, 20));
    assert(GT::spow_steps(GT(gt_of(98, 39)), GT(gt_of(56, 23)), 2) == GT::spow_steps(GT(gt_of(98, 39)), GT(gt_of(82, 27)), 1));
    lemma_gt_mul_at((98, 39), (82, 27), (14, 44), (69, 47));
    lemma_gt_mul_at((82, 27), (82, 27), (36, 63), (59, 36));
    assert(GT::spow_steps(GT(gt_of(98, 39)), GT(gt_of(82, 27)), 1) == GT::spow_steps(GT(gt_of(14, 44)), GT(gt_of(36, 63)), 0));
}

/// The pairing of `8G` with the point `11 P` of the image of `H`.
proof fn lemma_pairing_8_11()
    ensures
        smiller_loop(g1p(18, 49), dq(58, 36)) is Some,
        spairing_at(g1p(18, 49), dq(58, 36)) == GT(gt_of(14, 44)),
{
    lemma_final_exponent();
    lemma_tangent_8_11();
    lemma_tangent_16_11();
    lemma_tangent_15_11();
    lemma_tangent_13_11();
    lemma_vertical_at(18, 52, 49, 58, 36);
    lemma_miller_at(
        g1p(18, 49),
        dq(58, 36),
        (g1p(1, 99), g1p(68, 27), g1p(65, 3), g1p(18, 52)),
        (84, 14),
        (65, 42),
        (62, 98),
        (47, 44),
        (-18, 58),
        ((93, 35, 67, 21), (30, 65, 45, 46), (8, 79, -33, -4), (26, 61, -72, -21)),
        ((86, 57, -31, -6), (19, 16, 15, 39), (43, 88, -13, -2)),
    );
    lemma_final_exp_8_11();
}

proof fn lemma_final_exp_9_11()
    ensures
        GT(gt_of(52, 74)).spow(600) == GT(gt_of(71, 57)),
{
    assert(GT::sone() == GT(gt_of(1, 0)));
    lemma_gt_mul_at((52, 74), (52, 74), (56, 99), (-28, 21));
    assert(GT::spow_steps(GT(gt_of(1, 0)), GT(gt_of(52, 74)), 600) == GT::spow_steps(GT(gt_of(1, 0)), GT(gt_of(56, 99)), 300));
    lemma_gt_mul_at((56, 99), (56, 99), (1, 75), (-66, 12));
    assert(GT::spow_steps(GT(gt_of(1, 0)), GT(gt_of(56, 99)), 300) == GT::spow_steps(GT(gt_of(1, 0)), GT(gt_of(1, 75)), 150));
    lemma_gt_mul_at((1, 75), (1, 75), (32, 80), (-56, -55));
    assert(GT::spow_steps(GT(gt_of(1, 0)), GT(gt_of(1, 75)), 150) == GT::spow_steps(GT(gt_of(1, 0)), GT(gt_of(32, 80)), 75));
    lemma_gt_mul_at((1, 0), (32, 80), (32, 80), (0, 0));
    lemma_gt_mul_at((32, 80), (32, 80), (78, 33), (-54, -13));
    assert(GT::spow_steps(GT(gt_of(1, 0)), GT(gt_of(32, 80)), 75) == GT::spow_steps(GT(gt_of(32, 80)), GT(gt_of(78, 33)), 37));
    lemma_gt_mul_at((32, 80), (78, 33), (58, 10), (-2, 46));
    lemma_gt_mul_at((78, 33), (78, 33), (46, 19), (49, 40));
    assert(GT::spow_steps(GT(gt_of(32, 80)), GT(gt_of(78, 33)), 37) == GT::spow_steps(GT(gt_of(58, 10)), GT(gt_of(46, 19)), 18));
    lemma_gt_mul_at((46, 19), (46, 19), (38, 74), (17, 13));
    assert(GT::spow_steps(GT(gt_of(58, 10)), GT(gt_of(46, 19)), 18) == GT::spow_steps(GT(gt_of(58, 10)), GT(gt_of(38, 74)), 9));
    lemma_gt_mul_at((58, 10), (38, 74), (50, 94), (14, 38));
    lemma_gt_mul_at((38, 74), (38, 74), (8, 47), (-40, 1));
    assert(GT::spow_steps(GT(gt_of(58, 10)), GT(gt_of(38, 74)), 9) == GT::spow_steps(GT(gt_of(50, 94)), GT(gt_of(8, 47)), 4));
    lemma_gt_mul_at((8, 47), (8, 47), (77, 58), (-22, -15));
    assert(GT::spow_steps(GT(gt_of(50, 94)), GT(gt_of(8, 47)), 4) == GT::spow_steps(GT(gt_of(50, 94)), GT(gt_of(77, 58)), 2));
    lemma_gt_mul_at((77, 58), (77, 58), (40, 13), (25, 55));
    assert(GT::spow_steps(GT(gt_of(50, 94)), GT(gt_of(77, 58)), 2) == GT::spow_steps(GT(gt_of(50, 94)), GT(gt_of(40, 13)), 1));
    lemma_gt_mul_at((50, 94), (40, 13), (71, 57), (7, 31));
    lemma_gt_mul_at((40, 13), (40, 13), (17, 63), (14, 8));
    assert(GT::spow_steps(GT(gt_of(50, 94)), GT(gt_of(40, 13)), 1) == GT::spow_steps(GT(gt_of(71, 57)), GT(gt_of(17, 63)), 0));
}

/// The pairing of `9G` with the point `11 P` of the image of `H`.
proof fn lemma_pairing_9_11()
    ensures
        smiller_loop(g1p(18, 52), dq(58, 36)) is Some,
        spairing_at(g1p(18, 52), dq(58, 36)) == GT(gt_of(71, 57)),
{
    lemma_final_exponent();
    lemma_tangent_9_11();
    lemma_tangent_1_11();
    lemma_tangent_2_11();
    lemma_tangent_4_11();
    lemma_vertical_at(18, 49, 52, 58, 36);
    lemma_miller_at(
        g1p(18, 52),
        dq(58, 36),
        (g1p(1, 2), g1p(68, 74), g1p(65, 98), g1p(18, 49)),
        (91, 81),
        (95, 6),
        (1, 13),
        (35, 93),
        (-18, 58),
        ((3, 0, 17, 81), (83, 18, 2, 0), (0, 38, 65, 26), (11, 49, -5, -5)),
        ((43, 91, -23, -14), (11, 34, -69, -13), (52, 74, -22, -20)),
    );
    lemma_final_exp_9_11();
}

proof fn lemma_final_exp_10_11()
    ensures
        GT(gt_of(20, 78)).spow(600) == GT(gt_of(42, 92)),
{
    assert(GT::sone() == GT(gt_of(1, 0)));
    lemma_gt_mul_at((20, 78), (20, 78), (73, 66), (-57, -30));
    assert(GT::spow_steps(GT(gt_of(1, 0)), GT(gt_of(20, 78)), 600) == GT::spow_steps(GT(gt_of(1, 0)), GT(gt_of(73, 66)), 300));
    lemma_gt_mul_at((73, 66), (73, 66), (64, 28), (9, 52));
    assert(GT::spow_steps(GT(gt_of(1, 0)), GT(gt_of(73, 66)), 300) == GT::spow_steps(GT(gt_of(1, 0)), GT(gt_of(64, 28)), 150));
    lemma_gt_mul_at((64, 28), (64, 28), (80, 73), (32, 27));
    assert(GT::spow_steps(GT(gt_of(1, 0)), GT(gt_of(64, 28)), 150) == GT::spow_steps(GT(gt_of(1, 0)), GT(gt_of(80, 73)), 75));
    lemma_gt_mul_at((1, 0), (80, 73), (80, 73), (0, 0));
    lemma_gt_mul_at((80, 73), (80, 73), (61, 89), (10, 62));
    assert(GT::spow_steps(GT(gt_of(1, 0)), GT(gt_of(80, 73)), 75) == GT::spow_steps(GT(gt_of(80, 73)), GT(gt_of(61, 89)), 37));
    lemma_gt_mul_at((80, 73), (61, 89), (100, 26), (-17, 50));
    lemma_gt_mul_at((61, 89), (61, 89), (42, 8), (-42, 29));
    assert(GT::spow_steps(GT(gt_of(80, 73)), GT(gt_of(61, 89)), 37) == GT::spow_steps(GT(gt_of(100, 26)), GT(gt_of(42, 8)), 18));
    lemma_gt_mul_at((42, 8), (42, 8), (84, 2), (16, 6));
    assert(GT::spow_steps(GT(gt_of(100, 26)), GT(gt_of(42, 8)), 18) == GT::spow_steps(GT(gt_of(100, 26)), GT(gt_of(84, 2)), 9));
    lemma_gt_mul_at((100, 26), (84, 2), (66, 9), (82, 23));
    lemma_gt_mul_at((84, 2), (84, 2), (83, 29), (69, 3));
    assert(GT::spow_steps(GT(gt_of(100, 26)), GT(gt_of(84, 2)), 9) == GT::spow_steps(GT(gt_of(66, 9)), GT(gt_of(83, 29)), 4));
    lemma_gt_mul_at((83, 29), (83, 29), (89, 34), (59, 39));
    assert(GT::spow_steps(GT(gt_of(66, 9)), GT(gt_of(83, 29)), 4) == GT::spow_steps(GT(gt_of(66, 9)), GT(gt_of(89, 34)), 2));
    lemma_gt_mul_at((89, 34), (89, 34), (99, 48), (66, 48));
    assert(GT::spow_steps(GT(gt_of(66, 9)), GT(gt_of(89, 34)), 2) == GT::spow_steps(GT(gt_of(66, 9)), GT(gt_of(99, 48)), 1));
    lemma_gt_mul_at((66, 9), (99, 48), (42, 92), (60, 35));
    lemma_gt_mul_at((99, 48), (99, 48), (23, 29), (74, 71));
    assert(GT::spow_steps(GT(gt_of(66, 9)), GT(gt_of(99, 48)), 1) == GT::spow_steps(GT(gt_of(42, 92)), GT(gt_of(23, 29)), 0));
}

/// The pairing of `10G` with the point `11 P` of the image of `H`.
proof fn lemma_pairing_10_11()
    ensures
        smiller_loop(g1p(91, 66), dq(58, 36)) is Some,
        spairing_at(g1p(91, 66), dq(58, 36)) == GT(gt_of(42, 92)),
{
    lemma_final_exponent();
    lemma_tangent_10_11();
    lemma_tangent_3_11();
    lemma_tangent_6_11();
    lemma_tangent_12_11();
    lemma_vertical_at(91, 35, 66, 58, 36);
    lemma_miller_at(
        g1p(91, 66),
        dq(58, 36),
        (g1p(26, 45), g1p(32, 42), g1p(12, 69), g1p(91, 35)),
        (24, 94),
        (51, 83),
        (68, 38),
        (0, 96),
        (-91, 58),
        ((22, 19, -82, -43), (50, 6, -5, 12), (40, 59, 24, 5), (74, 58, 4, 32)),
        ((92, 69, 20, 51), (42, 87, -66, 21), (20, 78, -88, -105)),
    );
    lemma_final_exp_10_11();
}

proof fn lemma_final_exp_11_11()
    ensures
        GT(gt_of(57, 49)).spow(600) == GT(gt_of(93, 81)),
{
    assert(GT::sone() == GT(gt_of(1, 0)));
    lemma_gt_mul_at((57, 49), (57, 49), (40, 54), (8, 31));
    assert(GT::spow_steps(GT(gt_of(1, 0)), GT(gt_of(57, 49)), 600) == GT::spow_steps(GT(gt_of(1, 0)), GT(gt_of(40, 54)), 300));
    lemma_gt_mul_at((40, 54), (40, 54), (98, 91), (-14, 13));
    assert(GT::spow_steps(GT(gt_of(1, 0)), GT(gt_of(40, 54)), 300) == GT::spow_steps(GT(gt_of(1, 0)), GT(gt_of(98, 91)), 150));
    lemma_gt_mul_at((98, 91), (98, 91), (10, 61), (13, 94));
    assert(GT::spow_steps(GT(gt_of(1, 0)), GT(gt_of(98, 91)), 150) == GT::spow_steps(GT(gt_of(1, 0)), GT(gt_of(10, 61)), 75));
    lemma_gt_mul_at((1, 0), (10, 61), (10, 61), (0, 0));
    lemma_gt_mul_at((10, 61), (10, 61), (15, 24), (-36, -25));
    assert(GT::spow_steps(GT(gt_of(1, 0)), GT(gt_of(10, 61)), 75) == GT::spow_steps(GT(gt_of(10, 61)), GT(gt_of(15, 24)), 37));
    lemma_gt_mul_at((10, 61), (15, 24), (100, 95), (-14, -4));
    lemma_gt_mul_at((15, 24), (15, 24), (53, 43), (-4, 1));
    assert(GT::spow_steps(GT(gt_of(10, 61)), GT(gt_of(15, 24)), 37) == GT::spow_steps(GT(gt_of(100, 95)), GT(gt_of(53, 43)), 18));
    lemma_gt_mul_at((53, 43), (53, 43), (51, 83), (9, 26));
    assert(GT::spow_steps(GT(gt_of(100, 95)), GT(gt_of(53, 43)), 18) == GT::spow_steps(GT(gt_of(100, 95)), GT(gt_of(51, 83)), 9));
    lemma_gt_mul_at((100, 95), (51, 83), (43, 8), (-28, 52));
    lemma_gt_mul_at((51, 83), (51, 83), (55, 62), (-43, 15));
    assert(GT::spow_steps(GT(gt_of(100, 95)), GT(gt_of(51, 83)), 9) == GT::spow_steps(GT(gt_of(43, 8)), GT(gt_of(55, 62)), 4));
    lemma_gt_mul_at((55, 62), (55, 62), (90, 47), (-9, 29));
    assert(GT::spow_steps(GT(gt_of(43, 8)), GT(gt_of(55, 62)), 4) == GT::spow_steps(GT(gt_of(43, 8)), GT(gt_of(90, 47)), 2));
    lemma_gt_mul_at((90, 47), (90, 47), (33, 90), (58, 61));
    assert(GT::spow_steps(GT(gt_of(43, 8)), GT(gt_of(90, 47)), 2) == GT::spow_steps(GT(gt_of(43, 8)), GT(gt_of(33, 90)), 1));
    lemma_gt_mul_at((43, 8), (33, 90), (93, 81), (6, 33));
    lemma_gt_mul_at((33, 90), (33, 90), (59, 62), (-70, -22));
    assert(GT::spow_steps(GT(gt_of(43, 8)), GT(gt_of(33, 90)), 1) == GT::spow_steps(GT(gt_of(93, 81)), GT(gt_of(59, 62)), 0));
}

/// The pairing of `11G` with the point `11 P` of the image of `H`.
proof fn lemma_pairing_11_11()
    ensures
        smiller_loop(g1p(32, 59), dq(58, 36)) is Some,
        spairing_at(g1p(32, 59), dq(58, 36)) == GT(gt_of(93, 81)),
{
    lemma_final_exponent();
    lemma_tangent_11_11();
    lemma_tangent_5_11();
    lemma_tangent_10_11();
    lemma_tangent_3_11();
    lemma_vertical_at(32, 42, 59, 58, 36);
    lemma_miller_at(
        g1p(32, 59),
        dq(58, 36),
        (g1p(12, 32), g1p(91, 66), g1p(26, 45), g1p(32, 42)),
        (54, 40),
        (97, 17),
        (24, 94),
        (51, 83),
        (-32, 58),
        ((3, 94, 13, 26), (6, 97, -13, 74), (20, 37, -93, -82), (32, 98, -30, -8)),
        ((5, 1, -85, -33), (71, 80, 1, 3), (57, 49, -69, -31)),
    );
    lemma_final_exp_11_11();
}

proof fn lemma_final_exp_12_11()
    ensures
        GT(gt_of(63, 45)).spow(600) == GT(gt_of(47, 80)),
{
    assert(GT::sone() == GT(gt_of(1, 0)));
    lemma_gt_mul_at((63, 45), (63, 45), (25, 9), (19, 36));
    assert(GT::spow_steps(GT(gt_of(1, 0)), GT(gt_of(63, 45)), 600) == GT::spow_steps(GT(gt_of(1, 0)), GT(gt_of(25, 9)), 300));
    lemma_gt_mul_at((25, 9), (25, 9), (39, 66), (5, 3));
    assert(GT::spow_steps(GT(gt_of(1, 0)), GT(gt_of(25, 9)), 300) == GT::spow_steps(GT(gt_of(1, 0)), GT(gt_of(39, 66)), 150));
    lemma_gt_mul_at((39, 66), (39, 66), (94, 85), (-29, 7));
    assert(GT::spow_steps(GT(gt_of(1, 0)), GT(gt_of(39, 66)), 150) == GT::spow_steps(GT(gt_of(1, 0)), GT(gt_of(94, 85)), 75));
    lemma_gt_mul_at((1, 0), (94, 85), (94, 85), (0, 0));
    lemma_gt_mul_at((94, 85), (94, 85), (96, 69), (15, 86));
    assert(GT::spow_steps(GT(gt_of(1, 0)), GT(gt_of(94, 85)), 75) == GT::spow_steps(GT(gt_of(94, 85)), GT(gt_of(96, 69)), 37));
    lemma_gt_mul_at((94, 85), (96, 69), (28, 95), (31, 86));
    lemma_gt_mul_at((96, 69), (96, 69), (11, 3), (44, 84));
    assert(GT::spow_steps(GT(gt_of(94, 85)), GT(gt_of(96, 69)), 37) == GT::spow_steps(GT(gt_of(28, 95)), GT(gt_of(11, 3)), 18));
    lemma_gt_mul_at((11, 3), (11, 3), (11, 57), (1, 0));
    assert(GT::spow_steps(GT(gt_of(28, 95)), GT(gt_of(11, 3)), 18) == GT::spow_steps(GT(gt_of(28, 95)), GT(gt_of(11, 57)), 9));
    lemma_gt_mul_at((28, 95), (11, 57), (44, 54), (-51, -28));
    lemma_gt_mul_at((11, 57), (11, 57), (3, 25), (-31, -20));
    assert(GT::spow_steps(GT(gt_of(28, 95)), GT(gt_of(11, 57)), 9) == GT::spow_steps(GT(gt_of(44, 54)), GT(gt_of(3, 25)), 4));
    lemma_gt_mul_at((3, 25), (3, 25), (91, 30), (-7, -5));
    assert(GT::spow_steps(GT(gt_of(44, 54)), GT(gt_of(3, 25)), 4) == GT::spow_steps(GT(gt_of(44, 54)), GT(gt_of(91, 30)), 2));
    lemma_gt_mul_at((91, 30), (91, 30), (8, 15), (73, 45));
    assert(GT::spow_steps(GT(gt_of(44, 54)), GT(gt_of(91, 30)), 2) == GT::spow_steps(GT(gt_of(44, 54)), GT(gt_of(8, 15)), 1));
    lemma_gt_mul_at((44, 54), (8, 15), (47, 80), (-5, 2));
    lemma_gt_mul_at((8, 15), (8, 15), (41, 15), (-2, 0));
    assert(GT::spow_steps(GT(gt_of(44, 54)), GT(gt_of(8, 15)), 1) == GT::spow_steps(GT(gt_of(47, 80)), GT(gt_of(41, 15)), 0));
}

/// The pairing of `12G` with the point `11 P` of the image of `H`.
proof fn lemma_pairing_12_11()
    ensures
        smiller_loop(g1p(12, 69), dq(58, 36)) is Some,
        spairing_at(g1p(12, 69), dq(58, 36)) == GT(gt_of(47, 80)),
{
    lemma_final_exponent();
    lemma_tangent_12_11();
    lemma_tangent_7_11();
    lemma_tangent_14_11();
    lemma_tangent_11_11();
    lemma_vertical_at(12, 32, 69, 58, 36);
    lemma_miller_at(
        g1p(12, 69),
        dq(58, 36),
        (g1p(91, 35), g1p(26, 56), g1p(32, 59), g1p(12, 32)),
        (0, 96),
        (32, 12),
        (6, 48),
        (54, 40),
        (-12, 58),
        ((76, 76, -92, -92), (5, 8, 15, 24), (62, 16, -1, 0), (8, 82, -4, 22)),
        ((6, 42, -66, -54), (58, 20, -14, 8), (63, 45, -19, 19)),
    );
    lemma_final_exp_12_11();
}

proof fn lemma_final_exp_13_11()
    ensures
        GT(gt_of(49, 60)).spow(600) == GT(gt_of(28, 39)),
{
    assert(GT::sone() == GT(gt_of(1, 0)));
    lemma_gt_mul_at((49, 60), (49, 60), (13, 58), (-12, 22));
    assert(GT::spow_steps(GT(gt_of(1, 0)), GT(gt_of(49, 60)), 600) == GT::spow_steps(GT(gt_of(1, 0)), GT(gt_of(13, 58)), 300));
    lemma_gt_mul_at((13, 58), (13, 58), (37, 63), (-32, -19));
    assert(GT::spow_steps(GT(gt_of(1, 0)), GT(gt_of(13, 58)), 300) == GT::spow_steps(GT(gt_of(1, 0)), GT(gt_of(37, 63)), 150));
    lemma_gt_mul_at((37, 63), (37, 63), (26, 87), (-26, 6));
    assert(GT::spow_steps(GT(gt_of(1, 0)), GT(gt_of(37, 63)), 150) == GT::spow_steps(GT(gt_of(1, 0)), GT(gt_of(26, 87)), 75));
    lemma_gt_mul_at((1, 0), (26, 87), (26, 87), (0, 0));
    lemma_gt_mul_at((26, 87), (26, 87), (76, 86), (-69, -31));
    assert(GT::spow_steps(GT(gt_of(1, 0)), GT(gt_of(26, 87)), 75) == GT::spow_steps(GT(gt_of(26, 87)), GT(gt_of(76, 86)), 37));
    lemma_gt_mul_at((26, 87), (76, 86), (49, 53), (-55, 13));
    lemma_gt_mul_at((76, 86), (76, 86), (97, 20), (-17, 56));
    assert(GT::spow_steps(GT(gt_of(26, 87)), GT(gt_of(76, 86)), 37) == GT::spow_steps(GT(gt_of(49, 53)), GT(gt_of(97, 20)), 18));
    lemma_gt_mul_at((97, 20), (97, 20), (20, 46), (89, 34));
    assert(GT::spow_steps(GT(gt_of(49, 53)), GT(gt_of(97, 20)), 18) == GT::spow_steps(GT(gt_of(49, 53)), GT(gt_of(20, 46)), 9));
    lemma_gt_mul_at((49, 53), (20, 46), (57, 68), (-15, 8));
    lemma_gt_mul_at((20, 46), (20, 46), (1, 27), (-17, -3));
    assert(GT::spow_steps(GT(gt_of(49, 53)), GT(gt_of(20, 46)), 9) == GT::spow_steps(GT(gt_of(57, 68)), GT(gt_of(1, 27)), 4));
    lemma_gt_mul_at((1, 27), (1, 27), (80, 32), (-8, -7));
    assert(GT::spow_steps(GT(gt_of(57, 68)), GT(gt_of(1, 27)), 4) == GT::spow_steps(GT(gt_of(57, 68)), GT(gt_of(80, 32)), 2));
    lemma_gt_mul_at((80, 32), (80, 32), (23, 56), (53, 40));
    assert(GT::spow_steps(GT(gt_of(57, 68)), GT(gt_of(80, 32)), 2) == GT::spow_steps(GT(gt_of(57, 68)), GT(gt_of(23, 56)), 1));
    lemma_gt_mul_at((57, 68), (23, 56), (28, 39), (-25, 9));
    lemma_gt_mul_at((23, 56), (23, 56), (19, 46), (-26, -6));
    assert(GT::spow_steps(GT(gt_of(57, 68)), GT(gt_of(23, 56)), 1) == GT::spow_steps(GT(gt_of(28, 39)), GT(gt_of(19, 46)), 0));
}

/// The pairing of `13G` with the point `11 P` of the image of `H`.
proof fn lemma_pairing_13_11()
    ensures
        smiller_loop(g1p(65, 3), dq(58, 36)) is Some,
        spairing_at(g1p(65, 3), dq(58, 36)) == GT(gt_of(28, 39)),
{
    lemma_final_exponent();
    lemma_tangent_13_11();
    lemma_tangent_9_11();
    lemma_tangent_1_11();
    lemma_tangent_2_11();
    lemma_vertical_at(65, 98, 3, 58, 36);
    lemma_miller_at(
        g1p(65, 3),
        dq(58, 36),
        (g1p(18, 52), g1p(1, 2), g1p(68, 74), g1p(65, 98)),
        (47, 44),
        (91, 81),
        (95, 6),
        (1, 13),
        (-65, 58),
        ((71, 79, 2, 21), (62, 77, 0, 64), (36, 84, -21, 35), (88, 16, 28, 76)),
        ((14, 35, 74, 25), (64, 65, -5, -3), (49, 60, -79, -43)),
    );
    lemma_final_exp_13_11();
}

proof fn lemma_final_exp_14_11()
    ensures
        GT(gt_of(17, 85)).spow(600) == GT(gt_of(96, 29)),
{
    assert(GT::sone() == GT(gt_of(1, 0)));
    lemma_gt_mul_at((17, 85), (17, 85), (33, 8), (-69, -43));
    assert(GT::spow_steps(GT(gt_of(1, 0)), GT(gt_of(17, 85)), 600) == GT::spow_steps(GT(gt_of(1, 0)), GT(gt_of(33, 8)), 300));
    lemma_gt_mul_at((33, 8), (33, 8), (15, 60), (10, 4));
    assert(GT::spow_steps(GT(gt_of(1, 0)), GT(gt_of(33, 8)), 300) == GT::spow_steps(GT(gt_of(1, 0)), GT(gt_of(15, 60)), 150));
    lemma_gt_mul_at((15, 60), (15, 60), (59, 18), (-34, -18));
    assert(GT::spow_steps(GT(gt_of(1, 0)), GT(gt_of(15, 60)), 150) == GT::spow_steps(GT(gt_of(1, 0)), GT(gt_of(59, 18)), 75));
    lemma_gt_mul_at((1, 0), (59, 18), (59, 18), (0, 0));
    lemma_gt_mul_at((59, 18), (59, 18), (26, 83), (31, 17));
    assert(GT::spow_steps(GT(gt_of(1, 0)), GT(gt_of(59, 18)), 75) == GT::spow_steps(GT(gt_of(59, 18)), GT(gt_of(26, 83)), 37));
    lemma_gt_mul_at((59, 18), (26, 83), (40, 33), (0, 38));
    lemma_gt_mul_at((26, 83), (26, 83), (49, 53), (-62, -26));
    assert(GT::spow_steps(GT(gt_of(59, 18)), GT(gt_of(26, 83)), 37) == GT::spow_steps(GT(gt_of(40, 33)), GT(gt_of(49, 53)), 18));
    lemma_gt_mul_at((49, 53), (49, 53), (97, 62), (-5, 23));
    assert(GT::spow_steps(GT(gt_of(40, 33)), GT(gt_of(49, 53)), 18) == GT::spow_steps(GT(gt_of(40, 33)), GT(gt_of(97, 62)), 9));
    lemma_gt_mul_at((40, 33), (97, 62), (16, 100), (18, 35));
    lemma_gt_mul_at((97, 62), (97, 62), (10, 3), (55, 81));
    assert(GT::spow_steps(GT(gt_of(40, 33)), GT(gt_of(97, 62)), 9) == GT::spow_steps(GT(gt_of(16, 100)), GT(gt_of(10, 3)), 4));
    lemma_gt_mul_at((10, 3), (10, 3), (91, 51), (0, 0));
    assert(GT::spow_steps(GT(gt_of(16, 100)), GT(gt_of(10, 3)), 4) == GT::spow_steps(GT(gt_of(16, 100)), GT(gt_of(91, 51)), 2));
    lemma_gt_mul_at((91, 51), (91, 51), (24, 15), (56, 66));
    assert(GT::spow_steps(GT(gt_of(16, 100)), GT(gt_of(91, 51)), 2) == GT::spow_steps(GT(gt_of(16, 100)), GT(gt_of(24, 15)), 1));
    lemma_gt_mul_at((16, 100), (24, 15), (96, 29), (-12, 11));
    lemma_gt_mul_at((24, 15), (24, 15), (48, 91), (3, 4));
    assert(GT::spow_steps(GT(gt_of(16, 100)), GT(gt_of(24, 15)), 1) == GT::spow_steps(GT(gt_of(96, 29)), GT(gt_of(48, 91)), 0));
}

/// The pairing of `14G` with the point `11 P` of the image of `H`.
proof fn lemma_pairing_14_11()
    ensures
        smiller_loop(g1p(26, 56), dq(58, 36)) is Some,
        spairing_at(g1p(26, 56), dq(58, 36)) == GT(gt_of(96, 29)),
{
    lemma_final_exponent();
    lemma_tangent_14_11();
    lemma_tangent_11_11();
    lemma_tangent_5_11();
    lemma_tangent_10_11();
    lemma_vertical_at(26, 45, 56, 58, 36);
    lemma_miller_at(
        g1p(26, 56),
        dq(58, 36),
        (g1p(32, 59), g1p(12, 32), g1p(91, 66), g1p(26, 45)),
        (6, 48),
        (54, 40),
        (97, 17),
        (24, 94),
        (-26, 58),
        ((55, 90, -23, -18), (77, 26, -7, 34), (1, 96, 52, 32), (81, 21, -16, 76)),
        ((60, 32, 60, 29), (48, 67, -16, 33), (17, 85, -51, -29)),
    );
    lemma_final_exp_14_11();
}

proof fn lemma_final_exp_15_11()
    ensures
        GT(gt_of(94, 12)).spow(600) == GT(gt_of(15, 55)),
{
    assert(GT::sone() == GT(gt_of(1, 0)));
    lemma_gt_mul_at((94, 12), (94, 12), (6, 92), (86, 20));
    assert(GT::spow_steps(GT(gt_of(1, 0)), GT(gt_of(94, 12)), 600) == GT::spow_steps(GT(gt_of(1, 0)), GT(gt_of(6, 92)), 300));
    lemma_gt_mul_at((6, 92), (6, 92), (56, 13), (-84, -73));
    assert(GT::spow_steps(GT(gt_of(1, 0)), GT(gt_of(6, 92)), 300) == GT::spow_steps(GT(gt_of(1, 0)), GT(gt_of(56, 13)), 150));
    lemma_gt_mul_at((56, 13), (56, 13), (38, 75), (29, 12));
    assert(GT::spow_steps(GT(gt_of(1, 0)), GT(gt_of(56, 13)), 150) == GT::spow_steps(GT(gt_of(1, 0)), GT(gt_of(38, 75)), 75));
    lemma_gt_mul_at((1, 0), (38, 75), (38, 75), (0, 0));
    lemma_gt_mul_at((38, 75), (38, 75), (61, 75), (-42, 0));
    assert(GT::spow_steps(GT(gt_of(1, 0)), GT(gt_of(38, 75)), 75) == GT::spow_steps(GT(gt_of(38, 75)), GT(gt_of(61, 75)), 37));
    lemma_gt_mul_at((38, 75), (61, 75), (26, 83), (-33, 17));
    lemma_gt_mul_at((61, 75), (61, 75), (15, 91), (-19, 34));
    assert(GT::spow_steps(GT(gt_of(38, 75)), GT(gt_of(61, 75)), 37) == GT::spow_steps(GT(gt_of(26, 83)), GT(gt_of(15, 91)), 18));
    lemma_gt_mul_at((15, 91), (15, 91), (24, 4), (-80, -55));
    assert(GT::spow_steps(GT(gt_of(26, 83)), GT(gt_of(15, 91)), 18) == GT::spow_steps(GT(gt_of(26, 83)), GT(gt_of(24, 4)), 9));
    lemma_gt_mul_at((26, 83), (24, 4), (90, 47), (2, 17));
    lemma_gt_mul_at((24, 4), (24, 4), (55, 75), (5, 1));
    assert(GT::spow_steps(GT(gt_of(26, 83)), GT(gt_of(24, 4)), 9) == GT::spow_steps(GT(gt_of(90, 47)), GT(gt_of(55, 75)), 4));
    lemma_gt_mul_at((55, 75), (55, 75), (26, 100), (-26, 25));
    assert(GT::spow_steps(GT(gt_of(90, 47)), GT(gt_of(55, 75)), 4) == GT::spow_steps(GT(gt_of(90, 47)), GT(gt_of(26, 100)), 2));
    lemma_gt_mul_at((26, 100), (26, 100), (69, 48), (-93, -48));
    assert(GT::spow_steps(GT(gt_of(90, 47)), GT(gt_of(26, 100)), 2) == GT::spow_steps(GT(gt_of(90, 47)), GT(gt_of(69, 48)), 1));
    lemma_gt_mul_at((90, 47), (69, 48), (15, 55), (39, 52));
    lemma_gt_mul_at((69, 48), (69, 48), (33, 78), (24, 42));
    assert(GT::spow_steps(GT(gt_of(90, 47)), GT(gt_of(69, 48)), 1) == GT::spow_steps(GT(gt_of(15, 55)), GT(gt_of(33, 78)), 0));
}

/// The pairing of `15G` with the point `11 P` of the image of `H`.
proof fn lemma_pairing_15_11()
    ensures
        smiller_loop(g1p(68, 27), dq(58, 36)) is Some,
        spairing_at(g1p(68, 27), dq(58, 36)) == GT(gt_of(15, 55)),
{
    lemma_final_exponent();
    lemma_tangent_15_11();
    lemma_tangent_13_11();
    lemma_tangent_9_11();
    lemma_tangent_1_11();
    lemma_vertical_at(68, 74, 27, 58, 36);
    lemma_miller_at(
        g1p(68, 27),
        dq(58, 36),
        (g1p(65, 3), g1p(18, 52), g1p(1, 2), g1p(68, 74)),
        (62, 98),
        (47, 44),
        (91, 81),
        (95, 6),
        (-68, 58),
        ((98, 23, -58, 25), (59, 38, 35, 43), (17, 10, 20, 30), (30, 63, 7, 14)),
        ((62, 13, -31, -2), (55, 14, 57, 15), (94, 12, -46, 14)),
    );
    lemma_final_exp_15_11();
}

proof fn lemma_final_exp_16_11()
    ensures
        GT(gt_of(35, 11)).spow(600) == GT(gt_of(78, 3)),
{
    assert(GT::sone() == GT(gt_of(1, 0)));
    lemma_gt_mul_at((35, 11), (35, 11), (94, 43), (10, 6));
    assert(GT::spow_steps(GT(gt_of(1, 0)), GT(gt_of(35, 11)), 600) == GT::spow_steps(GT(gt_of(1, 0)), GT(gt_of(94, 43)), 300));
    lemma_gt_mul_at((94, 43), (94, 43), (18, 74), (69, 61));
    assert(GT::spow_steps(GT(gt_of(1, 0)), GT(gt_of(94, 43)), 300) == GT::spow_steps(GT(gt_of(1, 0)), GT(gt_of(18, 74)), 150));
    lemma_gt_mul_at((18, 74), (18, 74), (100, 16), (-52, -28));
    assert(GT::spow_steps(GT(gt_of(1, 0)), GT(gt_of(18, 74)), 150) == GT::spow_steps(GT(gt_of(1, 0)), GT(gt_of(100, 16)), 75));
    lemma_gt_mul_at((1, 0), (100, 16), (100, 16), (0, 0));
    lemma_gt_mul_at((100, 16), (100, 16), (48, 15), (96, 29));
    assert(GT::spow_steps(GT(gt_of(1, 0)), GT(gt_of(100, 16)), 75) == GT::spow_steps(GT(gt_of(100, 16)), GT(gt_of(48, 15)), 37));
    lemma_gt_mul_at((100, 16), (48, 15), (15, 8), (45, 20));
    lemma_gt_mul_at((48, 15), (48, 15), (59, 3), (20, 12));
    assert(GT::spow_steps(GT(gt_of(100, 16)), GT(gt_of(48, 15)), 37) == GT::spow_steps(GT(gt_of(15, 8)), GT(gt_of(59, 3)), 18));
    lemma_gt_mul_at((59, 3), (59, 3), (38, 42), (34, 3));
    assert(GT::spow_steps(GT(gt_of(15, 8)), GT(gt_of(59, 3)), 18) == GT::spow_steps(GT(gt_of(15, 8)), GT(gt_of(38, 42)), 9));
    lemma_gt_mul_at((15, 8), (38, 42), (32, 93), (2, 5));
    lemma_gt_mul_at((38, 42), (38, 42), (84, 14), (-4, 14));
    assert(GT::spow_steps(GT(gt_of(15, 8)), GT(gt_of(38, 42)), 9) == GT::spow_steps(GT(gt_of(32, 93)), GT(gt_of(84, 14)), 4));
    lemma_gt_mul_at((84, 14), (84, 14), (93, 35), (67, 21));
    assert(GT::spow_steps(GT(gt_of(32, 93)), GT(gt_of(84, 14)), 4) == GT::spow_steps(GT(gt_of(32, 93)), GT(gt_of(93, 35)), 2));
    lemma_gt_mul_at((93, 35), (93, 35), (51, 33), (73, 52));
    assert(GT::spow_steps(GT(gt_of(32, 93)), GT(gt_of(93, 35)), 2) == GT::spow_steps(GT(gt_of(32, 93)), GT(gt_of(51, 33)), 1));
    lemma_gt_mul_at((32, 93), (51, 33), (78, 3), (-15, 27));
    lemma_gt_mul_at((51, 33), (51, 33), (98, 55), (14, 22));
    assert(GT::spow_steps(GT(gt_of(32, 93)), GT(gt_of(51, 33)), 1) == GT::spow_steps(GT(gt_of(78, 3)), GT(gt_of(98, 55)), 0));
}

/// The pairing of `16G` with the point `11 P` of the image of `H`.
proof fn lemma_pairing_16_11()
    ensures
        smiller_loop(g1p(1, 99), dq(58, 36)) is Some,
        spairing_at(g1p(1, 99), dq(58, 36)) == GT(gt_of(78, 3)),
{
    lemma_final_exponent();
    lemma_tangent_16_11();
    lemma_tangent_15_11();
    lemma_tangent_13_11();
    lemma_tangent_9_11();
    lemma_vertical_at(1, 2, 99, 58, 36);
    lemma_miller_at(
        g1p(1, 99),
        dq(58, 36),
        (g1p(68, 27), g1p(65, 3), g1p(18, 52), g1p(1, 2)),
        (65, 42),
        (62, 98),
        (47, 44),
        (91, 81),
        (-1, 58),
        ((37, 60, 24, 36), (50, 52, -36, 14), (99, 72, -3, 24), (71, 27, 14, 45)),
        ((70, 75, 42, 30), (93, 57, 2, 63), (35, 11, -34, 20)),
    );
    lemma_final_exp_16_11();
}

proof fn lemma_final_exp_1_12()
    ensures
        GT(gt_of(72, 93)).spow(600) == GT(gt_of(15, 55)),
{
    assert(GT::sone() == GT(gt_of(1, 0)));
    lemma_gt_mul_at((72, 93), (72, 93), (70, 97), (-35, 46));
    assert(GT::spow_steps(GT(gt_of(1, 0)), GT(gt_of(72, 93)), 600) == GT::spow_steps(GT(gt_of(1, 0)), GT(gt_of(70, 97)), 300));
    lemma_gt_mul_at((70, 97), (70, 97), (36, 30), (-45, 41));
    assert(GT::spow_steps(GT(gt_of(1, 0)), GT(gt_of(70, 97)), 300) == GT::spow_steps(GT(gt_of(1, 0)), GT(gt_of(36, 30)), 150));
    lemma_gt_mul_at((36, 30), (36, 30), (93, 48), (3, 12));
    assert(GT::spow_steps(GT(gt_of(1, 0)), GT(gt_of(36, 30)), 150) == GT::spow_steps(GT(gt_of(1, 0)), GT(gt_of(93, 48)), 75));
    lemma_gt_mul_at((1, 0), (93, 48), (93, 48), (0, 0));
    lemma_gt_mul_at((93, 48), (93, 48), (83, 59), (62, 65));
    assert(GT::spow_steps(GT(gt_of(1, 0)), GT(gt_of(93, 48)), 75) == GT::spow_steps(GT(gt_of(93, 48)), GT(gt_of(83, 59)), 37));
    lemma_gt_mul_at((93, 48), (83, 59), (39, 74), (48, 65));
    lemma_gt_mul_at((83, 59), (83, 59), (75, 51), (33, 62));
    assert(GT::spow_steps(GT(gt_of(93, 48)), GT(gt_of(83, 59)), 37) == GT::spow_steps(GT(gt_of(39, 74)), GT(gt_of(75, 51)), 18));
    lemma_gt_mul_at((75, 51), (75, 51), (95, 100), (29, 49));
    assert(GT::spow_steps(GT(gt_of(39, 74)), GT(gt_of(75, 51)), 18) == GT::spow_steps(GT(gt_of(39, 74)), GT(gt_of(95, 100)), 9));
    lemma_gt_mul_at((39, 74), (95, 100), (42, 96), (-37, 34));
    lemma_gt_mul_at((95, 100), (95, 100), (35, 11), (-10, 89));
    assert(GT::spow_steps(GT(gt_of(39, 74)), GT(gt_of(95, 100)), 9) == GT::spow_steps(GT(gt_of(42, 96)), GT(gt_of(35, 11)), 4));
    lemma_gt_mul_at((35, 11), (35, 11), (94, 43), (10, 6));
    assert(GT::spow_steps(GT(gt_of(42, 96)), GT(gt_of(35, 11)), 4) == GT::spow_steps(GT(gt_of(42, 96)), GT(gt_of(94, 43)), 2));
    lemma_gt_mul_at((94, 43), (94, 43), (18, 74), (69, 61));
    assert(GT::spow_steps(GT(gt_of(42, 96)), GT(gt_of(94, 43)), 2) == GT::spow_steps(GT(gt_of(42, 96)), GT(gt_of(18, 74)), 1));
    lemma_gt_mul_at((42, 96), (18, 74), (15, 55), (-63, -23));
    lemma_gt_mul_at((18, 74), (18, 74), (100, 16), (-52, -28));
    assert(GT::spow_steps(GT(gt_of(42, 96)), GT(gt_of(18, 74)), 1) == GT::spow_steps(GT(gt_of(15, 55)), GT(gt_of(100, 16)), 0));
}

/// The pairing of `1G` with the point `12 P` of the image of `H`.
proof fn lemma_pairing_1_12()
    ensures
        smiller_loop(g1p(1, 2), dq(91, 66)) is Some,
        spairing_at(g1p(1, 2), dq(91, 66)) == GT(gt_of(15, 55)),
{
    lemma_final_exponent();
    lemma_tangent_1_12();
    lemma_tangent_2_12();
    lemma_tangent_4_12();
    lemma_tangent_8_12();
    lemma_vertical_at(1, 99, 2, 91, 66);
    lemma_miller_at(
        g1p(1, 2),
        dq(91, 66),
        (g1p(68, 74), g1p(65, 98), g1p(18, 49), g1p(1, 99)),
        (65, 47),
        (61, 55),
        (73, 37),
        (24, 37),
        (-1, 91),
        ((97, 63, 19, 38), (28, 57, 24, 56), (60, 44, -25, -1), (25, 67, 27, 37)),
        ((75, 73, -39, -12), (8, 8, -9, 18), (72, 93, -8, -1)),
    );
    lemma_final_exp_1_12();
}

proof fn lemma_final_exp_2_12()
    ensures
        GT(gt_of(94, 45)).spow(600) == GT(gt_of(28, 39)),
{
    assert(GT::sone() == GT(gt_of(1, 0)));
    lemma_gt_mul_at((94, 45), (94, 45), (44, 72), (67, 63));
    assert(GT::spow_steps(GT(gt_of(1, 0)), GT(gt_of(94, 45)), 600) == GT::spow_steps(GT(gt_of(1, 0)), GT(gt_of(44, 72)), 300));
    lemma_gt_mul_at((44, 72), (44, 72), (85, 41), (-33, 11));
    assert(GT::spow_steps(GT(gt_of(1, 0)), GT(gt_of(44, 72)), 300) == GT::spow_steps(GT(gt_of(1, 0)), GT(gt_of(85, 41)), 150));
    lemma_gt_mul_at((85, 41), (85, 41), (90, 37), (54, 52));
    assert(GT::spow_steps(GT(gt_of(1, 0)), GT(gt_of(85, 41)), 150) == GT::spow_steps(GT(gt_of(1, 0)), GT(gt_of(90, 37)), 75));
    lemma_gt_mul_at((1, 0), (90, 37), (90, 37), (0, 0));
    lemma_gt_mul_at((90, 37), (90, 37), (65, 39), (66, 52));
    assert(GT::spow_steps(GT(gt_of(1, 0)), GT(gt_of(90, 37)), 75) == GT::spow_steps(GT(gt_of(90, 37)), GT(gt_of(65, 39)), 37));
    lemma_gt_mul_at((90, 37), (65, 39), (64, 28), (43, 44));
    lemma_gt_mul_at((65, 39), (65, 39), (78, 14), (26, 35));
    assert(GT::spow_steps(GT(gt_of(90, 37)), GT(gt_of(65, 39)), 37) == GT::spow_steps(GT(gt_of(64, 28)), GT(gt_of(78, 14)), 18));
    lemma_gt_mul_at((78, 14), (78, 14), (30, 69), (58, 19));
    assert(GT::spow_steps(GT(gt_of(64, 28)), GT(gt_of(78, 14)), 18) == GT::spow_steps(GT(gt_of(64, 28)), GT(gt_of(30, 69)), 9));
    lemma_gt_mul_at((64, 28), (30, 69), (89, 92), (-1, 32));
    lemma_gt_mul_at((30, 69), (30, 69), (78, 86), (-39, -7));
    assert(GT::spow_steps(GT(gt_of(64, 28)), GT(gt_of(30, 69)), 9) == GT::spow_steps(GT(gt_of(89, 92)), GT(gt_of(78, 86)), 4));
    lemma_gt_mul_at((78, 86), (78, 86), (1, 61), (-13, 59));
    assert(GT::spow_steps(GT(gt_of(89, 92)), GT(gt_of(78, 86)), 4) == GT::spow_steps(GT(gt_of(89, 92)), GT(gt_of(1, 61)), 2));
    lemma_gt_mul_at((1, 61), (1, 61), (17, 37), (-37, -36));
    assert(GT::spow_steps(GT(gt_of(89, 92)), GT(gt_of(1, 61)), 2) == GT::spow_steps(GT(gt_of(89, 92)), GT(gt_of(17, 37)), 1));
    lemma_gt_mul_at((89, 92), (17, 37), (28, 39), (-19, 14));
    lemma_gt_mul_at((17, 37), (17, 37), (31, 91), (-11, -2));
    assert(GT::spow_steps(GT(gt_of(89, 92)), GT(gt_of(17, 37)), 1) == GT::spow_steps(GT(gt_of(28, 39)), GT(gt_of(31, 91)), 0));
}

/// The pairing of `2G` with the point `12 P` of the image of `H`.
proof fn lemma_pairing_2_12()
    ensures
        smiller_loop(g1p(68, 74), dq(91, 66)) is Some,
        spairing_at(g1p(68, 74), dq(91, 66)) == GT(gt_of(28, 39)),
{
    lemma_final_exponent();
    lemma_tangent_2_12();
    lemma_tangent_4_12();
    lemma_tangent_8_12();
    lemma_tangent_16_12();
    lemma_vertical_at(68, 27, 74, 91, 66);
    lemma_miller_at(
        g1p(68, 74),
        dq(91, 66),
        (g1p(65, 98), g1p(18, 49), g1p(1, 99), g1p(68, 27)),
        (61, 55),
        (73, 37),
        (24, 37),
        (41, 81),
        (-68, 91),
        ((90, 49, 6, 36), (10, 44, 47, 50), (83, 55, -19, -11), (58, 33, -1, 23)),
        ((53, 12, 22, 27), (90, 76, 11, 37), (94, 45, -130, -39)),
    );
    lemma_final_exp_2_12();
}

proof fn lemma_final_exp_3_12()
    ensures
        GT(gt_of(35, 85)).spow(600) == GT(gt_of(93, 81)),
{
    assert(GT::sone() == GT(gt_of(1, 0)));
    lemma_gt_mul_at((35, 85), (35, 85), (60, 38), (-60, -13));
    assert(GT::spow_steps(GT(gt_of(1, 0)), GT(gt_of(35, 85)), 600) == GT::spow_steps(GT(gt_of(1, 0)), GT(gt_of(60, 38)), 300));
    lemma_gt_mul_at((60, 38), (60, 38), (35, 86), (21, 30));
    assert(GT::spow_steps(GT(gt_of(1, 0)), GT(gt_of(60, 38)), 300) == GT::spow_steps(GT(gt_of(1, 0)), GT(gt_of(35, 86)), 150));
    lemma_gt_mul_at((35, 86), (35, 86), (91, 38), (-62, -14));
    assert(GT::spow_steps(GT(gt_of(1, 0)), GT(gt_of(35, 86)), 150) == GT::spow_steps(GT(gt_of(1, 0)), GT(gt_of(91, 38)), 75));
    lemma_gt_mul_at((1, 0), (91, 38), (91, 38), (0, 0));
    lemma_gt_mul_at((91, 38), (91, 38), (70, 18), (67, 54));
    assert(GT::spow_steps(GT(gt_of(1, 0)), GT(gt_of(91, 38)), 75) == GT::spow_steps(GT(gt_of(91, 38)), GT(gt_of(70, 18)), 37));
    lemma_gt_mul_at((91, 38), (70, 18), (30, 79), (56, 35));
    lemma_gt_mul_at((70, 18), (70, 18), (31, 75), (45, 21));
    assert(GT::spow_steps(GT(gt_of(91, 38)), GT(gt_of(70, 18)), 37) == GT::spow_steps(GT(gt_of(30, 79)), GT(gt_of(31, 75)), 18));
    lemma_gt_mul_at((31, 75), (31, 75), (83, 35), (-47, -10));
    assert(GT::spow_steps(GT(gt_of(30, 79)), GT(gt_of(31, 75)), 18) == GT::spow_steps(GT(gt_of(30, 79)), GT(gt_of(83, 35)), 9));
    lemma_gt_mul_at((30, 79), (83, 35), (28, 95), (-3, 47));
    lemma_gt_mul_at((83, 35), (83, 35), (8, 40), (56, 45));
    assert(GT::spow_steps(GT(gt_of(30, 79)), GT(gt_of(83, 35)), 9) == GT::spow_steps(GT(gt_of(28, 95)), GT(gt_of(8, 40)), 4));
    lemma_gt_mul_at((8, 40), (8, 40), (80, 50), (-16, -10));
    assert(GT::spow_steps(GT(gt_of(28, 95)), GT(gt_of(8, 40)), 4) == GT::spow_steps(GT(gt_of(28, 95)), GT(gt_of(80, 50)), 2));
    lemma_gt_mul_at((80, 50), (80, 50), (62, 46), (38, 54));
    assert(GT::spow_steps(GT(gt_of(28, 95)), GT(gt_of(80, 50)), 2) == GT::spow_steps(GT(gt_of(28, 95)), GT(gt_of(62, 46)), 1));
    lemma_gt_mul_at((28, 95), (62, 46), (93, 81), (-27, 27));
    lemma_gt_mul_at((62, 46), (62, 46), (11, 53), (17, 35));
    assert(GT::spow_steps(GT(gt_of(28, 95)), GT(gt_of(62, 46)), 1) == GT::spow_steps(GT(gt_of(93, 81)), GT(gt_of(11, 53)), 0));
}

/// The pairing of `3G` with the point `12 P` of the image of `H`.
proof fn lemma_pairing_3_12()
    ensures
        smiller_loop(g1p(26, 45), dq(91, 66)) is Some,
        spairing_at(g1p(26, 45), dq(91, 66)) == GT(gt_of(93, 81)),
{
    lemma_final_exponent();
    lemma_tangent_3_12();
    lemma_tangent_6_12();
    lemma_tangent_12_12();
    lemma_tangent_7_12();
    lemma_vertical_at(26, 56, 45, 91, 66);
    lemma_miller_at(
        g1p(26, 45),
        dq(91, 66),
        (g1p(32, 42), g1p(12, 69), g1p(91, 35), g1p(26, 56)),
        (53, 33),
        (69, 6),
        (32, 0),
        (36, 65),
        (-26, 91),
        ((3, 86, 17, 23), (95, 83, -4, 53), (15, 94, 21, 87), (76, 79, 4, 29)),
        ((40, 10, -5, 57), (83, 88, 7, 22), (35, 85, -101, -28)),
    );
    lemma_final_exp_3_12();
}

proof fn lemma_final_exp_4_12()
    ensures
        GT(gt_of(66, 7)).spow(600) == GT(gt_of(71, 57)),
{
    assert(GT::sone() == GT(gt_of(1, 0)));
    lemma_gt_mul_at((66, 7), (66, 7), (65, 67), (42, 8));
    assert(GT::spow_steps(GT(gt_of(1, 0)), GT(gt_of(66, 7)), 600) == GT::spow_steps(GT(gt_of(1, 0)), GT(gt_of(65, 67)), 300));
    lemma_gt_mul_at((65, 67), (65, 67), (39, 80), (-3, 41));
    assert(GT::spow_steps(GT(gt_of(1, 0)), GT(gt_of(65, 67)), 300) == GT::spow_steps(GT(gt_of(1, 0)), GT(gt_of(39, 80)), 150));
    lemma_gt_mul_at((39, 80), (39, 80), (70, 42), (-49, -2));
    assert(GT::spow_steps(GT(gt_of(1, 0)), GT(gt_of(39, 80)), 150) == GT::spow_steps(GT(gt_of(1, 0)), GT(gt_of(70, 42)), 75));
    lemma_gt_mul_at((1, 0), (70, 42), (70, 42), (0, 0));
    lemma_gt_mul_at((70, 42), (70, 42), (5, 76), (31, 40));
    assert(GT::spow_steps(GT(gt_of(1, 0)), GT(gt_of(70, 42)), 75) == GT::spow_steps(GT(gt_of(70, 42)), GT(gt_of(5, 76)), 37));
    lemma_gt_mul_at((70, 42), (5, 76), (87, 15), (-29, 23));
    lemma_gt_mul_at((5, 76), (5, 76), (6, 34), (-57, -50));
    assert(GT::spow_steps(GT(gt_of(70, 42)), GT(gt_of(5, 76)), 37) == GT::spow_steps(GT(gt_of(87, 15)), GT(gt_of(6, 34)), 18));
    lemma_gt_mul_at((6, 34), (6, 34), (92, 60), (-12, -8));
    assert(GT::spow_steps(GT(gt_of(87, 15)), GT(gt_of(6, 34)), 18) == GT::spow_steps(GT(gt_of(87, 15)), GT(gt_of(92, 60)), 9));
    lemma_gt_mul_at((87, 15), (92, 60), (34, 44), (70, 56));
    lemma_gt_mul_at((92, 60), (92, 60), (16, 67), (48, 73));
    assert(GT::spow_steps(GT(gt_of(87, 15)), GT(gt_of(92, 60)), 9) == GT::spow_steps(GT(gt_of(34, 44)), GT(gt_of(16, 67)), 4));
    lemma_gt_mul_at((16, 67), (16, 67), (9, 79), (-42, -24));
    assert(GT::spow_steps(GT(gt_of(34, 44)), GT(gt_of(16, 67)), 4) == GT::spow_steps(GT(gt_of(34, 44)), GT(gt_of(9, 79)), 2));
    lemma_gt_mul_at((9, 79), (9, 79), (1, 29), (-61, -48));
    assert(GT::spow_steps(GT(gt_of(34, 44)), GT(gt_of(9, 79)), 2) == GT::spow_steps(GT(gt_of(34, 44)), GT(gt_of(1, 29)), 1));
    lemma_gt_mul_at((34, 44), (1, 29), (71, 57), (-13, -3));
    lemma_gt_mul_at((1, 29), (1, 29), (69, 25), (-9, -8));
    assert(GT::spow_steps(GT(gt_of(34, 44)), GT(gt_of(1, 29)), 1) == GT::spow_steps(GT(gt_of(71, 57)), GT(gt_of(69, 25)), 0));
}

/// The pairing of `4G` with the point `12 P` of the image of `H`.
proof fn lemma_pairing_4_12()
    ensures
        smiller_loop(g1p(65, 98), dq(91, 66)) is Some,
        spairing_at(g1p(65, 98), dq(91, 66)) == GT(gt_of(71, 57)),
{
    lemma_final_exponent();
    lemma_tangent_4_12();
    lemma_tangent_8_12();
    lemma_tangent_16_12();
    lemma_tangent_15_12();
    lemma_vertical_at(65, 3, 98, 91, 66);
    lemma_miller_at(
        g1p(65, 98),
        dq(91, 66),
        (g1p(18, 49), g1p(1, 99), g1p(68, 27), g1p(65, 3)),
        (73, 37),
        (24, 37),
        (41, 81),
        (17, 41),
        (-65, 91),
        ((21, 94, 39, 39), (56, 60, -30, -5), (41, 90, -5, 30), (47, 24, -56, -3)),
        ((17, 64, 16, 16), (89, 70, -24, -9), (66, 7, -121, -28)),
    );
    lemma_final_exp_4_12();
}

proof fn lemma_final_exp_5_12()
    ensures
        GT(gt_of(69, 29)).spow(600) == GT(gt_of(51, 9)),
{
    assert(GT::sone() == GT(gt_of(1, 0)));
    lemma_gt_mul_at((69, 29), (69, 29), (82, 30), (38, 31));
    assert(GT::spow_steps(GT(gt_of(1, 0)), GT(gt_of(69, 29)), 600) == GT::spow_steps(GT(gt_of(1, 0)), GT(gt_of(82, 30)), 300));
    lemma_gt_mul_at((82, 30), (82, 30), (67, 81), (57, 39));
    assert(GT::spow_steps(GT(gt_of(1, 0)), GT(gt_of(82, 30)), 300) == GT::spow_steps(GT(gt_of(1, 0)), GT(gt_of(67, 81)), 150));
    lemma_gt_mul_at((67, 81), (67, 81), (49, 51), (-21, 42));
    assert(GT::spow_steps(GT(gt_of(1, 0)), GT(gt_of(67, 81)), 150) == GT::spow_steps(GT(gt_of(1, 0)), GT(gt_of(49, 51)), 75));
    lemma_gt_mul_at((1, 0), (49, 51), (49, 51), (0, 0));
    lemma_gt_mul_at((49, 51), (49, 51), (2, 74), (-2, 23));
    assert(GT::spow_steps(GT(gt_of(1, 0)), GT(gt_of(49, 51)), 75) == GT::spow_steps(GT(gt_of(49, 51)), GT(gt_of(2, 74)), 37));
    lemma_gt_mul_at((49, 51), (2, 74), (61, 55), (-37, -1));
    lemma_gt_mul_at((2, 74), (2, 74), (83, 72), (-55, -52));
    assert(GT::spow_steps(GT(gt_of(49, 51)), GT(gt_of(2, 74)), 37) == GT::spow_steps(GT(gt_of(61, 55)), GT(gt_of(83, 72)), 18));
    lemma_gt_mul_at((83, 72), (83, 72), (89, 1), (16, 67));
    assert(GT::spow_steps(GT(gt_of(61, 55)), GT(gt_of(83, 72)), 18) == GT::spow_steps(GT(gt_of(61, 55)), GT(gt_of(89, 1)), 9));
    lemma_gt_mul_at((61, 55), (89, 1), (21, 53), (53, 48));
    lemma_gt_mul_at((89, 1), (89, 1), (42, 76), (78, 1));
    assert(GT::spow_steps(GT(gt_of(61, 55)), GT(gt_of(89, 1)), 9) == GT::spow_steps(GT(gt_of(21, 53)), GT(gt_of(42, 76)), 4));
    lemma_gt_mul_at((42, 76), (42, 76), (28, 2), (-40, 6));
    assert(GT::spow_steps(GT(gt_of(21, 53)), GT(gt_of(42, 76)), 4) == GT::spow_steps(GT(gt_of(21, 53)), GT(gt_of(28, 2)), 2));
    lemma_gt_mul_at((28, 2), (28, 2), (73, 7), (7, 1));
    assert(GT::spow_steps(GT(gt_of(21, 53)), GT(gt_of(28, 2)), 2) == GT::spow_steps(GT(gt_of(21, 53)), GT(gt_of(73, 7)), 1));
    lemma_gt_mul_at((21, 53), (73, 7), (51, 9), (11, 36));
    lemma_gt_mul_at((73, 7), (73, 7), (28, 64), (52, 9));
    assert(GT::spow_steps(GT(gt_of(21, 53)), GT(gt_of(73, 7)), 1) == GT::spow_steps(GT(gt_of(51, 9)), GT(gt_of(28, 64)), 0));
}

/// The pairing of `5G` with the point `12 P` of the image of `H`.
proof fn lemma_pairing_5_12()
    ensures
        smiller_loop(g1p(12, 32), dq(91, 66)) is Some,
        spairing_at(g1p(12, 32), dq(91, 66)) == GT(gt_of(51, 9)),
{
    lemma_final_exponent();
    lemma_tangent_5_12();
    lemma_tangent_10_12();
    lemma_tangent_3_12();
    lemma_tangent_6_12();
    lemma_vertical_at(12, 69, 32, 91, 66);
    lemma_miller_at(
        g1p(12, 32),
        dq(91, 66),
        (g1p(91, 66), g1p(26, 45), g1p(32, 42), g1p(12, 69)),
        (98, 65),
        (75, 55),
        (53, 33),
        (69, 6),
        (-12, 91),
        ((26, 31, 53, 84), (43, 30, 2, 20), (40, 64, 9, 16), (8, 75, 0, 25)),
        ((95, 19, -56, -44), (78, 50, 63, 17), (69, 29, -55, 19)),
    );
    lemma_final_exp_5_12();
}

proof fn lemma_final_exp_6_12()
    ensures
        GT(gt_of(49, 29)).spow(600) == GT(gt_of(68, 21)),
{
    assert(GT::sone() == GT(gt_of(1, 0)));
    lemma_gt_mul_at((49, 29), (49, 29), (45, 82), (15, 19));
    assert(GT::spow_steps(GT(gt_of(1, 0)), GT(gt_of(49, 29)), 600) == GT::spow_steps(GT(gt_of(1, 0)), GT(gt_of(45, 82)), 300));
    lemma_gt_mul_at((45, 82), (45, 82), (48, 50), (-47, 6));
    assert(GT::spow_steps(GT(gt_of(1, 0)), GT(gt_of(45, 82)), 300) == GT::spow_steps(GT(gt_of(1, 0)), GT(gt_of(48, 50)), 150));
    lemma_gt_mul_at((48, 50), (48, 50), (6, 78), (-2, 22));
    assert(GT::spow_steps(GT(gt_of(1, 0)), GT(gt_of(48, 50)), 150) == GT::spow_steps(GT(gt_of(1, 0)), GT(gt_of(6, 78)), 75));
    lemma_gt_mul_at((1, 0), (6, 78), (6, 78), (0, 0));
    lemma_gt_mul_at((6, 78), (6, 78), (12, 3), (-60, -51));
    assert(GT::spow_steps(GT(gt_of(1, 0)), GT(gt_of(6, 78)), 75) == GT::spow_steps(GT(gt_of(6, 78)), GT(gt_of(12, 3)), 37));
    lemma_gt_mul_at((6, 78), (12, 3), (40, 13), (-2, 7));
    lemma_gt_mul_at((12, 3), (12, 3), (34, 63), (1, 0));
    assert(GT::spow_steps(GT(gt_of(6, 78)), GT(gt_of(12, 3)), 37) == GT::spow_steps(GT(gt_of(40, 13)), GT(gt_of(34, 63)), 18));
    lemma_gt_mul_at((34, 63), (34, 63), (15, 12), (-28, 3));
    assert(GT::spow_steps(GT(gt_of(40, 13)), GT(gt_of(34, 63)), 18) == GT::spow_steps(GT(gt_of(40, 13)), GT(gt_of(15, 12)), 9));
    lemma_gt_mul_at((40, 13), (15, 12), (40, 14), (4, 5));
    lemma_gt_mul_at((15, 12), (15, 12), (81, 14), (0, 2));
    assert(GT::spow_steps(GT(gt_of(40, 13)), GT(gt_of(15, 12)), 9) == GT::spow_steps(GT(gt_of(40, 14)), GT(gt_of(81, 14)), 4));
    lemma_gt_mul_at((81, 14), (81, 14), (2, 52), (63, 20));
    assert(GT::spow_steps(GT(gt_of(40, 14)), GT(gt_of(81, 14)), 4) == GT::spow_steps(GT(gt_of(40, 14)), GT(gt_of(2, 52)), 2));
    lemma_gt_mul_at((2, 52), (2, 52), (27, 29), (-27, -25));
    assert(GT::spow_steps(GT(gt_of(40, 14)), GT(gt_of(2, 52)), 2) == GT::spow_steps(GT(gt_of(40, 14)), GT(gt_of(27, 29)), 1));
    lemma_gt_mul_at((40, 14), (27, 29), (68, 21), (6, 11));
    lemma_gt_mul_at((27, 29), (27, 29), (90, 18), (-2, 7));
    assert(GT::spow_steps(GT(gt_of(40, 14)), GT(gt_of(27, 29)), 1) == GT::spow_steps(GT(gt_of(68, 21)), GT(gt_of(90, 18)), 0));
}

/// The pairing of `6G` with the point `12 P` of the image of `H`.
proof fn lemma_pairing_6_12()
    ensures
        smiller_loop(g1p(32, 42), dq(91, 66)) is Some,
        spairing_at(g1p(32, 42), dq(91, 66)) == GT(gt_of(68, 21)),
{
    lemma_final_exponent();
    lemma_tangent_6_12();
    lemma_tangent_12_12();
    lemma_tangent_7_12();
    lemma_tangent_14_12();
    lemma_vertical_at(32, 59, 42, 91, 66);
    lemma_miller_at(
        g1p(32, 42),
        dq(91, 66),
        (g1p(12, 69), g1p(91, 35), g1p(26, 56), g1p(32, 59)),
        (69, 6),
        (32, 0),
        (36, 65),
        (67, 41),
        (-32, 91),
        ((79, 85, 46, 7), (3, 94, 25, 26), (61, 10, -88, -82), (31, 39, 15, 36)),
        ((46, 89, -6, 8), (39, 59, -6, 41), (49, 29, -66, -37)),
    );
    lemma_final_exp_6_12();
}

proof fn lemma_final_exp_7_12()
    ensures
        GT(gt_of(32, 74)).spow(600) == GT(gt_of(67, 72)),
{
    assert(GT::sone() == GT(gt_of(1, 0)));
    lemma_gt_mul_at((32, 74), (32, 74), (93, 68), (-45, -8));
    assert(GT::spow_steps(GT(gt_of(1, 0)), GT(gt_of(32, 74)), 600) == GT::spow_steps(GT(gt_of(1, 0)), GT(gt_of(93, 68)), 300));
    lemma_gt_mul_at((93, 68), (93, 68), (86, 45), (39, 79));
    assert(GT::spow_steps(GT(gt_of(1, 0)), GT(gt_of(93, 68)), 300) == GT::spow_steps(GT(gt_of(1, 0)), GT(gt_of(86, 45)), 150));
    lemma_gt_mul_at((86, 45), (86, 45), (18, 59), (53, 56));
    assert(GT::spow_steps(GT(gt_of(1, 0)), GT(gt_of(86, 45)), 150) == GT::spow_steps(GT(gt_of(1, 0)), GT(gt_of(18, 59)), 75));
    lemma_gt_mul_at((1, 0), (18, 59), (18, 59), (0, 0));
    lemma_gt_mul_at((18, 59), (18, 59), (75, 57), (-32, -14));
    assert(GT::spow_steps(GT(gt_of(1, 0)), GT(gt_of(18, 59)), 75) == GT::spow_steps(GT(gt_of(18, 59)), GT(gt_of(75, 57)), 37));
    lemma_gt_mul_at((18, 59), (75, 57), (7, 68), (-20, 20));
    lemma_gt_mul_at((75, 57), (75, 57), (53, 49), (23, 52));
    assert(GT::spow_steps(GT(gt_of(18, 59)), GT(gt_of(75, 57)), 37) == GT::spow_steps(GT(gt_of(7, 68)), GT(gt_of(53, 49)), 18));
    lemma_gt_mul_at((53, 49), (53, 49), (4, 66), (4, 27));
    assert(GT::spow_steps(GT(gt_of(7, 68)), GT(gt_of(53, 49)), 18) == GT::spow_steps(GT(gt_of(7, 68)), GT(gt_of(4, 66)), 9));
    lemma_gt_mul_at((7, 68), (4, 66), (85, 84), (-45, -38));
    lemma_gt_mul_at((4, 66), (4, 66), (3, 10), (-43, -38));
    assert(GT::spow_steps(GT(gt_of(7, 68)), GT(gt_of(4, 66)), 9) == GT::spow_steps(GT(gt_of(85, 84)), GT(gt_of(3, 10)), 4));
    lemma_gt_mul_at((3, 10), (3, 10), (10, 61), (-1, -1));
    assert(GT::spow_steps(GT(gt_of(85, 84)), GT(gt_of(3, 10)), 4) == GT::spow_steps(GT(gt_of(85, 84)), GT(gt_of(10, 61)), 2));
    lemma_gt_mul_at((10, 61), (10, 61), (15, 24), (-36, -25));
    assert(GT::spow_steps(GT(gt_of(85, 84)), GT(gt_of(10, 61)), 2) == GT::spow_steps(GT(gt_of(85, 84)), GT(gt_of(15, 24)), 1));
    lemma_gt_mul_at((85, 84), (15, 24), (67, 72), (-8, 12));
    lemma_gt_mul_at((15, 24), (15, 24), (53, 43), (-4, 1));
    assert(GT::spow_steps(GT(gt_of(85, 84)), GT(gt_of(15, 24)), 1) == GT::spow_steps(GT(gt_of(67, 72)), GT(gt_of(53, 43)), 0));
}

/// The pairing of `7G` with the point `12 P` of the image of `H`.
proof fn lemma_pairing_7_12()
    ensures
        smiller_loop(g1p(91, 35), dq(91, 66)) is Some,
        spairing_at(g1p(91, 35), dq(91, 66)) == GT(gt_of(67, 72)),
{
    lemma_final_exponent();
    lemma_tangent_7_12();
    lemma_tangent_14_12();
    lemma_tangent_11_12();
    lemma_tangent_5_12();
    lemma_vertical_at(91, 66, 35, 91, 66);
    lemma_miller_at(
        g1p(91, 35),
        dq(91, 66),
        (g1p(26, 56), g1p(32, 59), g1p(12, 32), g1p(91, 66)),
        (36, 65),
        (67, 41),
        (82, 47),
        (98, 65),
        (-91, 91),
        ((0, 51, -29, 4), (30, 13, -21, 13), (24, 5, 7, 6), (16, 91, 17, 12)),
        ((55, 85, -80, -54), (67, 17, -2, 63), (32, 74, -76, 29)),
    );
    lemma_final_exp_7_12();
}

proof fn lemma_final_exp_8_12()
    ensures
        GT(gt_of(50, 3)).spow(600) == GT(gt_of(75, 98)),
{
    assert(GT::sone() == GT(gt_of(1, 0)));
    lemma_gt_mul_at((50, 3), (50, 3), (67, 89), (24, 2));
    assert(GT::spow_steps(GT(gt_of(1, 0)), GT(gt_of(50, 3)), 600) == GT::spow_steps(GT(gt_of(1, 0)), GT(gt_of(67, 89)), 300));
    lemma_gt_mul_at((67, 89), (67, 89), (2, 66), (-34, 39));
    assert(GT::spow_steps(GT(gt_of(1, 0)), GT(gt_of(67, 89)), 300) == GT::spow_steps(GT(gt_of(1, 0)), GT(gt_of(2, 66)), 150));
    lemma_gt_mul_at((2, 66), (2, 66), (92, 49), (-44, -41));
    assert(GT::spow_steps(GT(gt_of(1, 0)), GT(gt_of(2, 66)), 150) == GT::spow_steps(GT(gt_of(1, 0)), GT(gt_of(92, 49)), 75));
    lemma_gt_mul_at((1, 0), (92, 49), (92, 49), (0, 0));
    lemma_gt_mul_at((92, 49), (92, 49), (3, 50), (60, 65));
    assert(GT::spow_steps(GT(gt_of(1, 0)), GT(gt_of(92, 49)), 75) == GT::spow_steps(GT(gt_of(92, 49)), GT(gt_of(3, 50)), 37));
    lemma_gt_mul_at((92, 49), (3, 50), (48, 75), (-22, 22));
    lemma_gt_mul_at((3, 50), (3, 50), (34, 22), (-25, -22));
    assert(GT::spow_steps(GT(gt_of(92, 49)), GT(gt_of(3, 50)), 37) == GT::spow_steps(GT(gt_of(48, 75)), GT(gt_of(34, 22)), 18));
    lemma_gt_mul_at((34, 22), (34, 22), (66, 2), (6, 10));
    assert(GT::spow_steps(GT(gt_of(48, 75)), GT(gt_of(34, 22)), 18) == GT::spow_steps(GT(gt_of(48, 75)), GT(gt_of(66, 2)), 9));
    lemma_gt_mul_at((48, 75), (66, 2), (89, 48), (29, 48));
    lemma_gt_mul_at((66, 2), (66, 2), (9, 58), (43, 2));
    assert(GT::spow_steps(GT(gt_of(48, 75)), GT(gt_of(66, 2)), 9) == GT::spow_steps(GT(gt_of(89, 48)), GT(gt_of(9, 58)), 4));
    lemma_gt_mul_at((9, 58), (9, 58), (50, 3), (-33, -23));
    assert(GT::spow_steps(GT(gt_of(89, 48)), GT(gt_of(9, 58)), 4) == GT::spow_steps(GT(gt_of(89, 48)), GT(gt_of(50, 3)), 2));
    lemma_gt_mul_at((50, 3), (50, 3), (67, 89), (24, 2));
    assert(GT::spow_steps(GT(gt_of(89, 48)), GT(gt_of(50, 3)), 2) == GT::spow_steps(GT(gt_of(89, 48)), GT(gt_of(67, 89)), 1));
    lemma_gt_mul_at((89, 48), (67, 89), (75, 98), (16, 67));
    lemma_gt_mul_at((67, 89), (67, 89), (2, 66), (-34, 39));
    assert(GT::spow_steps(GT(gt_of(89, 48)), GT(gt_of(67, 89)), 1) == GT::spow_steps(GT(gt_of(75, 98)), GT(gt_of(2, 66)), 0));
}

/// The pairing of `8G` with the point `12 P` of the image of `H`.
proof fn lemma_pairing_8_12()
    ensures
        smiller_loop(g1p(18, 49), dq(91, 66)) is Some,
        spairing_at(g1p(18, 49), dq(91, 66)) == GT(gt_of(75, 98)),
{
    lemma_final_exponent();
    lemma_tangent_8_12();
    lemma_tangent_16_12();
    lemma_tangent_15_12();
    lemma_tangent_13_12();
    lemma_vertical_at(18, 52, 49, 91, 66);
    lemma_miller_at(
        g1p(18, 49),
        dq(91, 66),
        (g1p(1, 99), g1p(68, 27), g1p(65, 3), g1p(18, 52)),
        (24, 37),
        (41, 81),
        (17, 41),
        (75, 81),
        (-18, 91),
        ((15, 3, -8, 4), (69, 85, 3, 10), (61, 61, -25, 44), (51, 27, -15, 10)),
        ((54, 5, 18, 20), (9, 1, 36, 43), (50, 3, -3, 7)),
    );
    lemma_final_exp_8_12();
}

proof fn lemma_final_exp_9_12()
    ensures
        GT(gt_of(50, 56)).spow(600) == GT(gt_of(78, 3)),
{
    assert(GT::sone() == GT(gt_of(1, 0)));
    lemma_gt_mul_at((50, 56), (50, 56), (71, 40), (-7, 24));
    assert(GT::spow_steps(GT(gt_of(1, 0)), GT(gt_of(50, 56)), 600) == GT::spow_steps(GT(gt_of(1, 0)), GT(gt_of(71, 40)), 300));
    lemma_gt_mul_at((71, 40), (71, 40), (7, 40), (34, 40));
    assert(GT::spow_steps(GT(gt_of(1, 0)), GT(gt_of(71, 40)), 300) == GT::spow_steps(GT(gt_of(1, 0)), GT(gt_of(7, 40)), 150));
    lemma_gt_mul_at((7, 40), (7, 40), (65, 71), (-16, -11));
    assert(GT::spow_steps(GT(gt_of(1, 0)), GT(gt_of(7, 40)), 150) == GT::spow_steps(GT(gt_of(1, 0)), GT(gt_of(65, 71)), 75));
    lemma_gt_mul_at((1, 0), (65, 71), (65, 71), (0, 0));
    lemma_gt_mul_at((65, 71), (65, 71), (93, 48), (-9, 41));
    assert(GT::spow_steps(GT(gt_of(1, 0)), GT(gt_of(65, 71)), 75) == GT::spow_steps(GT(gt_of(65, 71)), GT(gt_of(93, 48)), 37));
    lemma_gt_mul_at((65, 71), (93, 48), (11, 53), (26, 62));
    lemma_gt_mul_at((93, 48), (93, 48), (83, 59), (62, 65));
    assert(GT::spow_steps(GT(gt_of(65, 71)), GT(gt_of(93, 48)), 37) == GT::spow_steps(GT(gt_of(11, 53)), GT(gt_of(83, 59)), 18));
    lemma_gt_mul_at((83, 59), (83, 59), (75, 51), (33, 62));
    assert(GT::spow_steps(GT(gt_of(11, 53)), GT(gt_of(83, 59)), 18) == GT::spow_steps(GT(gt_of(11, 53)), GT(gt_of(75, 51)), 9));
    lemma_gt_mul_at((11, 53), (75, 51), (41, 15), (-19, 18));
    lemma_gt_mul_at((75, 51), (75, 51), (95, 100), (29, 49));
    assert(GT::spow_steps(GT(gt_of(11, 53)), GT(gt_of(75, 51)), 9) == GT::spow_steps(GT(gt_of(41, 15)), GT(gt_of(95, 100)), 4));
    lemma_gt_mul_at((95, 100), (95, 100), (35, 11), (-10, 89));
    assert(GT::spow_steps(GT(gt_of(41, 15)), GT(gt_of(95, 100)), 4) == GT::spow_steps(GT(gt_of(41, 15)), GT(gt_of(35, 11)), 2));
    lemma_gt_mul_at((35, 11), (35, 11), (94, 43), (10, 6));
    assert(GT::spow_steps(GT(gt_of(41, 15)), GT(gt_of(35, 11)), 2) == GT::spow_steps(GT(gt_of(41, 15)), GT(gt_of(94, 43)), 1));
    lemma_gt_mul_at((41, 15), (94, 43), (78, 3), (31, 25));
    lemma_gt_mul_at((94, 43), (94, 43), (18, 74), (69, 61));
    assert(GT::spow_steps(GT(gt_of(41, 15)), GT(gt_of(94, 43)), 1) == GT::spow_steps(GT(gt_of(78, 3)), GT(gt_of(18, 74)), 0));
}

/// The pairing of `9G` with the point `12 P` of the image of `H`.
proof fn lemma_pairing_9_12()
    ensures
        smiller_loop(g1p(18, 52), dq(91, 66)) is Some,
        spairing_at(g1p(18, 52), dq(91, 66)) == GT(gt_of(78, 3)),
{
    lemma_final_exponent();
    lemma_tangent_9_12();
    lemma_tangent_1_12();
    lemma_tangent_2_12();
    lemma_tangent_4_12();
    lemma_vertical_at(18, 49, 52, 91, 66);
    lemma_miller_at(
        g1p(18, 52),
        dq(91, 66),
        (g1p(1, 2), g1p(68, 74), g1p(65, 98), g1p(18, 49)),
        (39, 33),
        (65, 47),
        (61, 55),
        (73, 37),
        (-18, 91),
        ((28, 71, 4, 14), (99, 69, -16, 25), (91, 13, 49, 88), (89, 33, 47, 50)),
        ((65, 38, 67, 47), (6, 36, 33, 37), (50, 56, -34, -34)),
    );
    lemma_final_exp_9_12();
}

proof fn lemma_final_exp_10_12()
    ensures
        GT(gt_of(22, 33)).spow(600) == GT(gt_of(96, 29)),
{
    assert(GT::sone() == GT(gt_of(1, 0)));
    lemma_gt_mul_at((22, 33), (22, 33), (1, 60), (-6, 3));
    assert(GT::spow_steps(GT(gt_of(1, 0)), GT(gt_of(22, 33)), 600) == GT::spow_steps(GT(gt_of(1, 0)), GT(gt_of(1, 60)), 300));
    lemma_gt_mul_at((1, 60), (1, 60), (37, 55), (-36, -35));
    assert(GT::spow_steps(GT(gt_of(1, 0)), GT(gt_of(1, 60)), 300) == GT::spow_steps(GT(gt_of(1, 0)), GT(gt_of(37, 55)), 150));
    lemma_gt_mul_at((37, 55), (37, 55), (61, 35), (-17, 10));
    assert(GT::spow_steps(GT(gt_of(1, 0)), GT(gt_of(37, 55)), 150) == GT::spow_steps(GT(gt_of(1, 0)), GT(gt_of(61, 35)), 75));
    lemma_gt_mul_at((1, 0), (61, 35), (61, 35), (0, 0));
    lemma_gt_mul_at((61, 35), (61, 35), (72, 15), (24, 30));
    assert(GT::spow_steps(GT(gt_of(1, 0)), GT(gt_of(61, 35)), 75) == GT::spow_steps(GT(gt_of(61, 35)), GT(gt_of(72, 15)), 37));
    lemma_gt_mul_at((61, 35), (72, 15), (29, 82), (38, 28));
    lemma_gt_mul_at((72, 15), (72, 15), (10, 16), (49, 19));
    assert(GT::spow_steps(GT(gt_of(61, 35)), GT(gt_of(72, 15)), 37) == GT::spow_steps(GT(gt_of(29, 82)), GT(gt_of(10, 16)), 18));
    lemma_gt_mul_at((10, 16), (10, 16), (46, 64), (-2, 0));
    assert(GT::spow_steps(GT(gt_of(29, 82)), GT(gt_of(10, 16)), 18) == GT::spow_steps(GT(gt_of(29, 82)), GT(gt_of(46, 64)), 9));
    lemma_gt_mul_at((29, 82), (46, 64), (25, 77), (-39, 3));
    lemma_gt_mul_at((46, 64), (46, 64), (40, 75), (-20, 17));
    assert(GT::spow_steps(GT(gt_of(29, 82)), GT(gt_of(46, 64)), 9) == GT::spow_steps(GT(gt_of(25, 77)), GT(gt_of(40, 75)), 4));
    lemma_gt_mul_at((40, 75), (40, 75), (15, 72), (-40, 3));
    assert(GT::spow_steps(GT(gt_of(25, 77)), GT(gt_of(40, 75)), 4) == GT::spow_steps(GT(gt_of(25, 77)), GT(gt_of(15, 72)), 2));
    lemma_gt_mul_at((15, 72), (15, 72), (91, 6), (-50, -30));
    assert(GT::spow_steps(GT(gt_of(25, 77)), GT(gt_of(15, 72)), 2) == GT::spow_steps(GT(gt_of(25, 77)), GT(gt_of(91, 6)), 1));
    lemma_gt_mul_at((25, 77), (91, 6), (96, 29), (17, 66));
    lemma_gt_mul_at((91, 6), (91, 6), (64, 46), (81, 10));
    assert(GT::spow_steps(GT(gt_of(25, 77)), GT(gt_of(91, 6)), 1) == GT::spow_steps(GT(gt_of(96, 29)), GT(gt_of(64, 46)), 0));
}

/// The pairing of `10G` with the point `12 P` of the image of `H`.
proof fn lemma_pairing_10_12()
    ensures
        smiller_loop(g1p(91, 66), dq(91, 66)) is Some,
        spairing_at(g1p(91, 66), dq(91, 66)) == GT(gt_of(96, 29)),
{
    lemma_final_exponent();
    lemma_tangent_10_12();
    lemma_tangent_3_12();
    lemma_tangent_6_12();
    lemma_tangent_12_12();
    lemma_vertical_at(91, 35, 66, 91, 66);
    lemma_miller_at(
        g1p(91, 66),
        dq(91, 66),
        (g1p(26, 45), g1p(32, 42), g1p(12, 69), g1p(91, 35)),
        (75, 55),
        (53, 33),
        (69, 6),
        (32, 0),
        (-91, 91),
        ((75, 74, 25, 51), (18, 16, 15, 39), (68, 17, 0, 3), (45, 65, 45, 14)),
        ((22, 9, -22, 16), (98, 86, 6, 2), (22, 33, -166, -67)),
    );
    lemma_final_exp_10_12();
}

proof fn lemma_final_exp_11_12()
    ensures
        GT(gt_of(79, 29)).spow(600) == GT(gt_of(47, 80)),
{
    assert(GT::sone() == GT(gt_of(1, 0)));
    lemma_gt_mul_at((79, 29), (79, 29), (47, 4), (53, 37));
    assert(GT::spow_steps(GT(gt_of(1, 0)), GT(gt_of(79, 29)), 600) == GT::spow_steps(GT(gt_of(1, 0)), GT(gt_of(47, 4)), 300));
    lemma_gt_mul_at((47, 4), (47, 4), (72, 57), (21, 3));
    assert(GT::spow_steps(GT(gt_of(1, 0)), GT(gt_of(47, 4)), 300) == GT::spow_steps(GT(gt_of(1, 0)), GT(gt_of(72, 57)), 150));
    lemma_gt_mul_at((72, 57), (72, 57), (16, 10), (19, 49));
    assert(GT::spow_steps(GT(gt_of(1, 0)), GT(gt_of(72, 57)), 150) == GT::spow_steps(GT(gt_of(1, 0)), GT(gt_of(16, 10)), 75));
    lemma_gt_mul_at((1, 0), (16, 10), (16, 10), (0, 0));
    lemma_gt_mul_at((16, 10), (16, 10), (55, 18), (1, 2));
    assert(GT::spow_steps(GT(gt_of(1, 0)), GT(gt_of(16, 10)), 75) == GT::spow_steps(GT(gt_of(16, 10)), GT(gt_of(55, 18)), 37));
    lemma_gt_mul_at((16, 10), (55, 18), (94, 52), (6, 6));
    lemma_gt_mul_at((55, 18), (55, 18), (75, 40), (26, 16));
    assert(GT::spow_steps(GT(gt_of(16, 10)), GT(gt_of(55, 18)), 37) == GT::spow_steps(GT(gt_of(94, 52)), GT(gt_of(75, 40)), 18));
    lemma_gt_mul_at((75, 40), (75, 40), (86, 57), (39, 43));
    assert(GT::spow_steps(GT(gt_of(94, 52)), GT(gt_of(75, 40)), 18) == GT::spow_steps(GT(gt_of(94, 52)), GT(gt_of(86, 57)), 9));
    lemma_gt_mul_at((94, 52), (86, 57), (70, 99), (50, 67));
    lemma_gt_mul_at((86, 57), (86, 57), (6, 91), (41, 64));
    assert(GT::spow_steps(GT(gt_of(94, 52)), GT(gt_of(86, 57)), 9) == GT::spow_steps(GT(gt_of(70, 99)), GT(gt_of(6, 91)), 4));
    lemma_gt_mul_at((6, 91), (6, 91), (37, 83), (-82, -72));
    assert(GT::spow_steps(GT(gt_of(70, 99)), GT(gt_of(6, 91)), 4) == GT::spow_steps(GT(gt_of(70, 99)), GT(gt_of(37, 83)), 2));
    lemma_gt_mul_at((37, 83), (37, 83), (35, 61), (-55, -8));
    assert(GT::spow_steps(GT(gt_of(70, 99)), GT(gt_of(37, 83)), 2) == GT::spow_steps(GT(gt_of(70, 99)), GT(gt_of(35, 61)), 1));
    lemma_gt_mul_at((70, 99), (35, 61), (47, 80), (-36, 16));
    lemma_gt_mul_at((35, 61), (35, 61), (29, 44), (-25, 5));
    assert(GT::spow_steps(GT(gt_of(70, 99)), GT(gt_of(35, 61)), 1) == GT::spow_steps(GT(gt_of(47, 80)), GT(gt_of(29, 44)), 0));
}

/// The pairing of `11G` with the point `12 P` of the image of `H`.
proof fn lemma_pairing_11_12()
    ensures
        smiller_loop(g1p(32, 59), dq(91, 66)) is Some,
        spairing_at(g1p(32, 59), dq(91, 66)) == GT(gt_of(47, 80)),
{
    lemma_final_exponent();
    lemma_tangent_11_12();
    lemma_tangent_5_12();
    lemma_tangent_10_12();
    lemma_tangent_3_12();
    lemma_vertical_at(32, 42, 59, 91, 66);
    lemma_miller_at(
        g1p(32, 59),
        dq(91, 66),
        (g1p(12, 32), g1p(91, 66), g1p(26, 45), g1p(32, 42)),
        (82, 47),
        (98, 65),
        (75, 55),
        (53, 33),
        (-32, 91),
        ((71, 45, 44, 54), (94, 40, 39, 60), (65, 62, 71, 58), (51, 68, 14, 47)),
        ((98, 90, -21, 22), (2, 85, 22, 49), (79, 29, -78, -102)),
    );
    lemma_final_exp_11_12();
}

proof fn lemma_final_exp_12_12()
    ensures
        GT(gt_of(93, 10)).spow(600) == GT(gt_of(42, 92)),
{
    assert(GT::sone() == GT(gt_of(1, 0)));
    lemma_gt_mul_at((93, 10), (93, 10), (65, 43), (84, 17));
    assert(GT::spow_steps(GT(gt_of(1, 0)), GT(gt_of(93, 10)), 600) == GT::spow_steps(GT(gt_of(1, 0)), GT(gt_of(65, 43)), 300));
    lemma_gt_mul_at((65, 43), (65, 43), (53, 4), (23, 37));
    assert(GT::spow_steps(GT(gt_of(1, 0)), GT(gt_of(65, 43)), 300) == GT::spow_steps(GT(gt_of(1, 0)), GT(gt_of(53, 4)), 150));
    lemma_gt_mul_at((53, 4), (53, 4), (66, 4), (27, 4));
    assert(GT::spow_steps(GT(gt_of(1, 0)), GT(gt_of(53, 4)), 150) == GT::spow_steps(GT(gt_of(1, 0)), GT(gt_of(66, 4)), 75));
    lemma_gt_mul_at((1, 0), (66, 4), (66, 4), (0, 0));
    lemma_gt_mul_at((66, 4), (66, 4), (98, 7), (42, 5));
    assert(GT::spow_steps(GT(gt_of(1, 0)), GT(gt_of(66, 4)), 75) == GT::spow_steps(GT(gt_of(66, 4)), GT(gt_of(98, 7)), 37));
    lemma_gt_mul_at((66, 4), (98, 7), (77, 18), (63, 8));
    lemma_gt_mul_at((98, 7), (98, 7), (61, 10), (94, 13));
    assert(GT::spow_steps(GT(gt_of(66, 4)), GT(gt_of(98, 7)), 37) == GT::spow_steps(GT(gt_of(77, 18)), GT(gt_of(61, 10)), 18));
    lemma_gt_mul_at((61, 10), (61, 10), (86, 9), (35, 11));
    assert(GT::spow_steps(GT(gt_of(77, 18)), GT(gt_of(61, 10)), 18) == GT::spow_steps(GT(gt_of(77, 18)), GT(gt_of(86, 9)), 9));
    lemma_gt_mul_at((77, 18), (86, 9), (97, 59), (63, 20));
    lemma_gt_mul_at((86, 9), (86, 9), (43, 53), (72, 14));
    assert(GT::spow_steps(GT(gt_of(77, 18)), GT(gt_of(86, 9)), 9) == GT::spow_steps(GT(gt_of(97, 59)), GT(gt_of(43, 53)), 4));
    lemma_gt_mul_at((43, 53), (43, 53), (50, 32), (-10, 17));
    assert(GT::spow_steps(GT(gt_of(97, 59)), GT(gt_of(43, 53)), 4) == GT::spow_steps(GT(gt_of(97, 59)), GT(gt_of(50, 32)), 2));
    lemma_gt_mul_at((50, 32), (50, 32), (62, 55), (14, 21));
    assert(GT::spow_steps(GT(gt_of(97, 59)), GT(gt_of(50, 32)), 2) == GT::spow_steps(GT(gt_of(97, 59)), GT(gt_of(62, 55)), 1));
    lemma_gt_mul_at((97, 59), (62, 55), (42, 92), (27, 56));
    lemma_gt_mul_at((62, 55), (62, 55), (11, 58), (8, 37));
    assert(GT::spow_steps(GT(gt_of(97, 59)), GT(gt_of(62, 55)), 1) == GT::spow_steps(GT(gt_of(42, 92)), GT(gt_of(11, 58)), 0));
}

/// The pairing of `12G` with the point `12 P` of the image of `H`.
proof fn lemma_pairing_12_12()
    ensures
        smiller_loop(g1p(12, 69), dq(91, 66)) is Some,
        spairing_at(g1p(12, 69), dq(91, 66)) == GT(gt_of(42, 92)),
{
    lemma_final_exponent();
    lemma_tangent_12_12();
    lemma_tangent_7_12();
    lemma_tangent_14_12();
    lemma_tangent_11_12();
    lemma_vertical_at(12, 32, 69, 91, 66);
    lemma_miller_at(
        g1p(12, 69),
        dq(91, 66),
        (g1p(91, 35), g1p(26, 56), g1p(32, 59), g1p(12, 32)),
        (32, 0),
        (36, 65),
        (67, 41),
        (82, 47),
        (-12, 91),
        ((14, 0, 10, 0), (100, 1, 4, 9), (0, 98, 99, 1), (22, 23, -40, 25)),
        ((56, 79, -1, 4), (71, 44, 8, 53), (93, 10, -49, 19)),
    );
    lemma_final_exp_12_12();
}

proof fn lemma_final_exp_13_12()
    ensures
        GT(gt_of(35, 59)).spow(600) == GT(gt_of(14, 44)),
{
    assert(GT::sone() == GT(gt_of(1, 0)));
    lemma_gt_mul_at((35, 59), (35, 59), (67, 43), (-23, 6));
    assert(GT::spow_steps(GT(gt_of(1, 0)), GT(gt_of(35, 59)), 600) == GT::spow_steps(GT(gt_of(1, 0)), GT(gt_of(67, 43)), 300));
    lemma_gt_mul_at((67, 43), (67, 43), (14, 75), (26, 38));
    assert(GT::spow_steps(GT(gt_of(1, 0)), GT(gt_of(67, 43)), 300) == GT::spow_steps(GT(gt_of(1, 0)), GT(gt_of(14, 75)), 150));
    lemma_gt_mul_at((14, 75), (14, 75), (25, 10), (-54, -35));
    assert(GT::spow_steps(GT(gt_of(1, 0)), GT(gt_of(14, 75)), 150) == GT::spow_steps(GT(gt_of(1, 0)), GT(gt_of(25, 10)), 75));
    lemma_gt_mul_at((1, 0), (25, 10), (25, 10), (0, 0));
    lemma_gt_mul_at((25, 10), (25, 10), (20, 97), (5, 3));
    assert(GT::spow_steps(GT(gt_of(1, 0)), GT(gt_of(25, 10)), 75) == GT::spow_steps(GT(gt_of(25, 10)), GT(gt_of(20, 97)), 37));
    lemma_gt_mul_at((25, 10), (20, 97), (35, 39), (-5, 16));
    lemma_gt_mul_at((20, 97), (20, 97), (81, 26), (-90, -55));
    assert(GT::spow_steps(GT(gt_of(25, 10)), GT(gt_of(20, 97)), 37) == GT::spow_steps(GT(gt_of(35, 39)), GT(gt_of(81, 26)), 18));
    lemma_gt_mul_at((81, 26), (81, 26), (27, 1), (58, 35));
    assert(GT::spow_steps(GT(gt_of(35, 39)), GT(gt_of(81, 26)), 18) == GT::spow_steps(GT(gt_of(35, 39)), GT(gt_of(27, 1)), 9));
    lemma_gt_mul_at((35, 39), (27, 1), (98, 39), (8, 10));
    lemma_gt_mul_at((27, 1), (27, 1), (21, 53), (7, 0));
    assert(GT::spow_steps(GT(gt_of(35, 39)), GT(gt_of(27, 1)), 9) == GT::spow_steps(GT(gt_of(98, 39)), GT(gt_of(21, 53)), 4));
    lemma_gt_mul_at((21, 53), (21, 53), (56, 23), (-24, -6));
    assert(GT::spow_steps(GT(gt_of(98, 39)), GT(gt_of(21, 53)), 4) == GT::spow_steps(GT(gt_of(98, 39)), GT(gt_of(56, 23)), 2));
    lemma_gt_mul_at((56, 23), (56, 23), (82, 27), (25, 20));
    assert(GT::spow_steps(GT(gt_of(98, 39)), GT(gt_of(56, 23)), 2) == GT::spow_steps(GT(gt_of(98, 39)), GT(gt_of(82, 27)), 1));
    lemma_gt_mul_at((98, 39), (82, 27), (14, 44), (69, 47));
    lemma_gt_mul_at((82, 27), (82, 27), (36, 63), (59, 36));
    assert(GT::spow_steps(GT(gt_of(98, 39)), GT(gt_of(82, 27)), 1) == GT::spow_steps(GT(gt_of(14, 44)), GT(gt_of(36, 63)), 0));
}

/// The pairing of `13G` with the point `12 P` of the image of `H`.
proof fn lemma_pairing_13_12()
    ensures
        smiller_loop(g1p(65, 3), dq(91, 66)) is Some,
        spairing_at(g1p(65, 3), dq(91, 66)) == GT(gt_of(14, 44)),
{
    lemma_final_exponent();
    lemma_tangent_13_12();
    lemma_tangent_9_12();
    lemma_tangent_1_12();
    lemma_tangent_2_12();
    lemma_vertical_at(65, 98, 3, 91, 66);
    lemma_miller_at(
        g1p(65, 3),
        dq(91, 66),
        (g1p(18, 52), g1p(1, 2), g1p(68, 74), g1p(65, 98)),
        (75, 81),
        (39, 33),
        (65, 47),
        (61, 55),
        (-65, 91),
        ((74, 34, -10, 55), (47, 20, 17, 26), (92, 66, 17, 14), (50, 58, 28, 54)),
        ((45, 12, -9, 24), (65, 22, 20, 25), (35, 59, -62, 24)),
    );
    lemma_final_exp_13_12();
}

proof fn lemma_final_exp_14_12()
    ensures
        GT(gt_of(71, 29)).spow(600) == GT(gt_of(12, 20)),
{
    assert(GT::sone() == GT(gt_of(1, 0)));
    lemma_gt_mul_at((71, 29), (71, 29), (59, 45), (41, 32));
    assert(GT::spow_steps(GT(gt_of(1, 0)), GT(gt_of(71, 29)), 600) == GT::spow_steps(GT(gt_of(1, 0)), GT(gt_of(59, 45)), 300));
    lemma_gt_mul_at((59, 45), (59, 45), (42, 53), (14, 32));
    assert(GT::spow_steps(GT(gt_of(1, 0)), GT(gt_of(59, 45)), 300) == GT::spow_steps(GT(gt_of(1, 0)), GT(gt_of(42, 53)), 150));
    lemma_gt_mul_at((42, 53), (42, 53), (66, 27), (-11, 16));
    assert(GT::spow_steps(GT(gt_of(1, 0)), GT(gt_of(42, 53)), 150) == GT::spow_steps(GT(gt_of(1, 0)), GT(gt_of(66, 27)), 75));
    lemma_gt_mul_at((1, 0), (66, 27), (66, 27), (0, 0));
    lemma_gt_mul_at((66, 27), (66, 27), (92, 7), (35, 28));
    assert(GT::spow_steps(GT(gt_of(1, 0)), GT(gt_of(66, 27)), 75) == GT::spow_steps(GT(gt_of(66, 27)), GT(gt_of(92, 7)), 37));
    lemma_gt_mul_at((66, 27), (92, 7), (25, 30), (58, 27));
    lemma_gt_mul_at((92, 7), (92, 7), (32, 27), (83, 12));
    assert(GT::spow_steps(GT(gt_of(66, 27)), GT(gt_of(92, 7)), 37) == GT::spow_steps(GT(gt_of(25, 30)), GT(gt_of(32, 27)), 18));
    lemma_gt_mul_at((32, 27), (32, 27), (93, 90), (2, 9));
    assert(GT::spow_steps(GT(gt_of(25, 30)), GT(gt_of(32, 27)), 18) == GT::spow_steps(GT(gt_of(25, 30)), GT(gt_of(93, 90)), 9));
    lemma_gt_mul_at((25, 30), (93, 90), (29, 17), (-4, 23));
    lemma_gt_mul_at((93, 90), (93, 90), (44, 55), (5, 85));
    assert(GT::spow_steps(GT(gt_of(25, 30)), GT(gt_of(93, 90)), 9) == GT::spow_steps(GT(gt_of(29, 17)), GT(gt_of(44, 55)), 4));
    lemma_gt_mul_at((44, 55), (44, 55), (22, 98), (-11, 17));
    assert(GT::spow_steps(GT(gt_of(29, 17)), GT(gt_of(44, 55)), 4) == GT::spow_steps(GT(gt_of(29, 17)), GT(gt_of(22, 98)), 2));
    lemma_gt_mul_at((22, 98), (22, 98), (71, 61), (-91, -53));
    assert(GT::spow_steps(GT(gt_of(29, 17)), GT(gt_of(22, 98)), 2) == GT::spow_steps(GT(gt_of(29, 17)), GT(gt_of(71, 61)), 1));
    lemma_gt_mul_at((29, 17), (71, 61), (12, 20), (10, 19));
    lemma_gt_mul_at((71, 61), (71, 61), (7, 93), (13, 48));
    assert(GT::spow_steps(GT(gt_of(29, 17)), GT(gt_of(71, 61)), 1) == GT::spow_steps(GT(gt_of(12, 20)), GT(gt_of(7, 93)), 0));
}

/// The pairing of `14G` with the point `12 P` of the image of `H`.
proof fn lemma_pairing_14_12()
    ensures
        smiller_loop(g1p(26, 56), dq(91, 66)) is Some,
        spairing_at(g1p(26, 56), dq(91, 66)) == GT(gt_of(12, 20)),
{
    lemma_final_exponent();
    lemma_tangent_14_12();
    lemma_tangent_11_12();
    lemma_tangent_5_12();
    lemma_tangent_10_12();
    lemma_vertical_at(26, 45, 56, 91, 66);
    lemma_miller_at(
        g1p(26, 56),
        dq(91, 66),
        (g1p(32, 59), g1p(12, 32), g1p(91, 66), g1p(26, 45)),
        (67, 41),
        (82, 47),
        (98, 65),
        (75, 55),
        (-26, 91),
        ((81, 76, 27, 37), (40, 3, 30, 64), (76, 29, 15, 2), (8, 39, 55, 58)),
        ((58, 12, -15, -9), (54, 97, 36, 33), (71, 29, -102, -64)),
    );
    lemma_final_exp_14_12();
}

proof fn lemma_final_exp_15_12()
    ensures
        GT(gt_of(82, 86)).spow(600) == GT(gt_of(90, 62)),
{
    assert(GT::sone() == GT(gt_of(1, 0)));
    lemma_gt_mul_at((82, 86), (82, 86), (35, 42), (-7, 66));
    assert(GT::spow_steps(GT(gt_of(1, 0)), GT(gt_of(82, 86)), 600) == GT::spow_steps(GT(gt_of(1, 0)), GT(gt_of(35, 42)), 300));
    lemma_gt_mul_at((35, 42), (35, 42), (67, 65), (-6, 11));
    assert(GT::spow_steps(GT(gt_of(1, 0)), GT(gt_of(35, 42)), 300) == GT::spow_steps(GT(gt_of(1, 0)), GT(gt_of(67, 65)), 150));
    lemma_gt_mul_at((67, 65), (67, 65), (62, 41), (2, 44));
    assert(GT::spow_steps(GT(gt_of(1, 0)), GT(gt_of(67, 65)), 150) == GT::spow_steps(GT(gt_of(1, 0)), GT(gt_of(62, 41)), 75));
    lemma_gt_mul_at((1, 0), (62, 41), (62, 41), (0, 0));
    lemma_gt_mul_at((62, 41), (62, 41), (42, 70), (21, 33));
    assert(GT::spow_steps(GT(gt_of(1, 0)), GT(gt_of(62, 41)), 75) == GT::spow_steps(GT(gt_of(62, 41)), GT(gt_of(42, 70)), 37));
    lemma_gt_mul_at((62, 41), (42, 70), (37, 61), (-3, 31));
    lemma_gt_mul_at((42, 70), (42, 70), (96, 71), (-32, 9));
    assert(GT::spow_steps(GT(gt_of(62, 41)), GT(gt_of(42, 70)), 37) == GT::spow_steps(GT(gt_of(37, 61)), GT(gt_of(96, 71)), 18));
    lemma_gt_mul_at((96, 71), (96, 71), (34, 6), (41, 85));
    assert(GT::spow_steps(GT(gt_of(37, 61)), GT(gt_of(96, 71)), 18) == GT::spow_steps(GT(gt_of(37, 61)), GT(gt_of(34, 6)), 9));
    lemma_gt_mul_at((37, 61), (34, 6), (84, 11), (8, 19));
    lemma_gt_mul_at((34, 6), (34, 6), (9, 69), (11, 3));
    assert(GT::spow_steps(GT(gt_of(37, 61)), GT(gt_of(34, 6)), 9) == GT::spow_steps(GT(gt_of(84, 11)), GT(gt_of(9, 69)), 4));
    lemma_gt_mul_at((9, 69), (9, 69), (67, 16), (-47, -35));
    assert(GT::spow_steps(GT(gt_of(84, 11)), GT(gt_of(9, 69)), 4) == GT::spow_steps(GT(gt_of(84, 11)), GT(gt_of(67, 16)), 2));
    lemma_gt_mul_at((67, 16), (67, 16), (92, 70), (41, 18));
    assert(GT::spow_steps(GT(gt_of(84, 11)), GT(gt_of(67, 16)), 2) == GT::spow_steps(GT(gt_of(84, 11)), GT(gt_of(92, 70)), 1));
    lemma_gt_mul_at((84, 11), (92, 70), (90, 62), (68, 60));
    lemma_gt_mul_at((92, 70), (92, 70), (29, 1), (35, 79));
    assert(GT::spow_steps(GT(gt_of(84, 11)), GT(gt_of(92, 70)), 1) == GT::spow_steps(GT(gt_of(90, 62)), GT(gt_of(29, 1)), 0));
}

/// The pairing of `15G` with the point `12 P` of the image of `H`.
proof fn lemma_pairing_15_12()
    ensures
        smiller_loop(g1p(68, 27), dq(91, 66)) is Some,
        spairing_at(g1p(68, 27), dq(91, 66)) == GT(gt_of(90, 62)),
{
    lemma_final_exponent();
    lemma_tangent_15_12();
    lemma_tangent_13_12();
    lemma_tangent_9_12();
    lemma_tangent_1_12();
    lemma_vertical_at(68, 74, 27, 91, 66);
    lemma_miller_at(
        g1p(68, 27),
        dq(91, 66),
        (g1p(65, 3), g1p(18, 52), g1p(1, 2), g1p(68, 74)),
        (17, 41),
        (75, 81),
        (39, 33),
        (65, 47),
        (-68, 91),
        ((22, 16, -14, -3), (51, 70, 3, 16), (24, 18, -23, 22), (39, 92, 3, 8)),
        ((26, 25, -69, -13), (10, 56, 5, 16), (82, 86, -58, -80)),
    );
    lemma_final_exp_15_12();
}

proof fn lemma_final_exp_16_12()
    ensures
        GT(gt_of(89, 9)).spow(600) == GT(gt_of(61, 46)),
{
    assert(GT::sone() == GT(gt_of(1, 0)));
    lemma_gt_mul_at((89, 9), (89, 9), (63, 6), (77, 15));
    assert(GT::spow_steps(GT(gt_of(1, 0)), GT(gt_of(89, 9)), 600) == GT::spow_steps(GT(gt_of(1, 0)), GT(gt_of(63, 6)), 300));
    lemma_gt_mul_at((63, 6), (63, 6), (95, 13), (38, 7));
    assert(GT::spow_steps(GT(gt_of(1, 0)), GT(gt_of(63, 6)), 300) == GT::spow_steps(GT(gt_of(1, 0)), GT(gt_of(95, 13)), 150));
    lemma_gt_mul_at((95, 13), (95, 13), (69, 79), (87, 22));
    assert(GT::spow_steps(GT(gt_of(1, 0)), GT(gt_of(95, 13)), 150) == GT::spow_steps(GT(gt_of(1, 0)), GT(gt_of(69, 79)), 75));
    lemma_gt_mul_at((1, 0), (69, 79), (69, 79), (0, 0));
    lemma_gt_mul_at((69, 79), (69, 79), (35, 15), (-15, 46));
    assert(GT::spow_steps(GT(gt_of(1, 0)), GT(gt_of(69, 79)), 75) == GT::spow_steps(GT(gt_of(69, 79)), GT(gt_of(35, 15)), 37));
    lemma_gt_mul_at((69, 79), (35, 15), (18, 90), (12, 25));
    lemma_gt_mul_at((35, 15), (35, 15), (91, 17), (9, 8));
    assert(GT::spow_steps(GT(gt_of(69, 79)), GT(gt_of(35, 15)), 37) == GT::spow_steps(GT(gt_of(18, 90)), GT(gt_of(91, 17)), 18));
    lemma_gt_mul_at((91, 17), (91, 17), (13, 78), (79, 27));
    assert(GT::spow_steps(GT(gt_of(18, 90)), GT(gt_of(91, 17)), 18) == GT::spow_steps(GT(gt_of(18, 90)), GT(gt_of(13, 78)), 9));
    lemma_gt_mul_at((18, 90), (13, 78), (82, 99), (-68, -45));
    lemma_gt_mul_at((13, 78), (13, 78), (44, 85), (-59, -41));
    assert(GT::spow_steps(GT(gt_of(18, 90)), GT(gt_of(13, 78)), 9) == GT::spow_steps(GT(gt_of(82, 99)), GT(gt_of(44, 85)), 4));
    lemma_gt_mul_at((44, 85), (44, 85), (64, 53), (-53, 2));
    assert(GT::spow_steps(GT(gt_of(82, 99)), GT(gt_of(44, 85)), 4) == GT::spow_steps(GT(gt_of(82, 99)), GT(gt_of(64, 53)), 2));
    lemma_gt_mul_at((64, 53), (64, 53), (75, 36), (12, 39));
    assert(GT::spow_steps(GT(gt_of(82, 99)), GT(gt_of(64, 53)), 2) == GT::spow_steps(GT(gt_of(82, 99)), GT(gt_of(75, 36)), 1));
    lemma_gt_mul_at((82, 99), (75, 36), (61, 46), (25, 67));
    lemma_gt_mul_at((75, 36), (75, 36), (87, 64), (42, 40));
    assert(GT::spow_steps(GT(gt_of(82, 99)), GT(gt_of(75, 36)), 1) == GT::spow_steps(GT(gt_of(61, 46)), GT(gt_of(87, 64)), 0));
}

/// The pairing of `16G` with the point `12 P` of the image of `H`.
proof fn lemma_pairing_16_12()
    ensures
        smiller_loop(g1p(1, 99), dq(91, 66)) is Some,
        spairing_at(g1p(1, 99), dq(91, 66)) == GT(gt_of(61, 46)),
{
    lemma_final_exponent();
    lemma_tangent_16_12();
    lemma_tangent_15_12();
    lemma_tangent_13_12();
    lemma_tangent_9_12();
    lemma_vertical_at(1, 2, 99, 91, 66);
    lemma_miller_at(
        g1p(1, 99),
        dq(91, 66),
        (g1p(68, 27), g1p(65, 3), g1p(18, 52), g1p(1, 2)),
        (41, 81),
        (17, 41),
        (75, 81),
        (39, 33),
        (-1, 91),
        ((69, 81, -49, 0), (74, 77, -22, 8), (52, 13, -5, 54), (19, 94, 28, 40)),
        ((9, 89, -84, -53), (40, 23, -26, 8), (89, 9, -22, 15)),
    );
    lemma_final_exp_16_12();
}

proof fn lemma_final_exp_1_13()
    ensures
        GT(gt_of(39, 52)).spow(600) == GT(gt_of(47, 80)),
{
    assert(GT::sone() == GT(gt_of(1, 0)));
    lemma_gt_mul_at((39, 52), (39, 52), (29, 39), (-12, 13));
    assert(GT::spow_steps(GT(gt_of(1, 0)), GT(gt_of(39, 52)), 600) == GT::spow_steps(GT(gt_of(1, 0)), GT(gt_of(29, 39)), 300));
    lemma_gt_mul_at((29, 39), (29, 39), (27, 34), (-7, 7));
    assert(GT::spow_steps(GT(gt_of(1, 0)), GT(gt_of(29, 39)), 300) == GT::spow_steps(GT(gt_of(1, 0)), GT(gt_of(27, 34)), 150));
    lemma_gt_mul_at((27, 34), (27, 34), (78, 74), (-5, 6));
    assert(GT::spow_steps(GT(gt_of(1, 0)), GT(gt_of(27, 34)), 150) == GT::spow_steps(GT(gt_of(1, 0)), GT(gt_of(78, 74)), 75));
    lemma_gt_mul_at((1, 0), (78, 74), (78, 74), (0, 0));
    lemma_gt_mul_at((78, 74), (78, 74), (2, 8), (6, 60));
    assert(GT::spow_steps(GT(gt_of(1, 0)), GT(gt_of(78, 74)), 75) == GT::spow_steps(GT(gt_of(78, 74)), GT(gt_of(2, 8)), 37));
    lemma_gt_mul_at((78, 74), (2, 8), (69, 79), (-5, 1));
    lemma_gt_mul_at((2, 8), (2, 8), (41, 69), (-1, -1));
    assert(GT::spow_steps(GT(gt_of(78, 74)), GT(gt_of(2, 8)), 37) == GT::spow_steps(GT(gt_of(69, 79)), GT(gt_of(41, 69)), 18));
    lemma_gt_mul_at((41, 69), (41, 69), (51, 89), (-31, 8));
    assert(GT::spow_steps(GT(gt_of(69, 79)), GT(gt_of(41, 69)), 18) == GT::spow_steps(GT(gt_of(69, 79)), GT(gt_of(51, 89)), 9));
    lemma_gt_mul_at((69, 79), (51, 89), (23, 8), (-35, 31));
    lemma_gt_mul_at((51, 89), (51, 89), (33, 46), (-53, 11));
    assert(GT::spow_steps(GT(gt_of(69, 79)), GT(gt_of(51, 89)), 9) == GT::spow_steps(GT(gt_of(23, 8)), GT(gt_of(33, 46)), 4));
    lemma_gt_mul_at((33, 46), (33, 46), (84, 11), (-11, 9));
    assert(GT::spow_steps(GT(gt_of(23, 8)), GT(gt_of(33, 46)), 4) == GT::spow_steps(GT(gt_of(23, 8)), GT(gt_of(84, 11)), 2));
    lemma_gt_mul_at((84, 11), (84, 11), (67, 10), (68, 17));
    assert(GT::spow_steps(GT(gt_of(23, 8)), GT(gt_of(84, 11)), 2) == GT::spow_steps(GT(gt_of(23, 8)), GT(gt_of(67, 10)), 1));
    lemma_gt_mul_at((23, 8), (67, 10), (47, 80), (14, 6));
    lemma_gt_mul_at((67, 10), (67, 10), (46, 28), (43, 12));
    assert(GT::spow_steps(GT(gt_of(23, 8)), GT(gt_of(67, 10)), 1) == GT::spow_steps(GT(gt_of(47, 80)), GT(gt_of(46, 28)), 0));
}

/// The pairing of `1G` with the point `13 P` of the image of `H`.
proof fn lemma_pairing_1_13()
    ensures
        smiller_loop(g1p(1, 2), dq(60, 60)) is Some,
        spairing_at(g1p(1, 2), dq(60, 60)) == GT(gt_of(47, 80)),
{
    lemma_final_exponent();
    lemma_tangent_1_13();
    lemma_tangent_2_13();
    lemma_tangent_4_13();
    lemma_tangent_8_13();
    lemma_vertical_at(1, 99, 2, 60, 60);
    lemma_miller_at(
        g1p(1, 2),
        dq(60, 60),
        (g1p(68, 74), g1p(65, 98), g1p(18, 49), g1p(1, 99)),
        (74, 9),
        (60, 24),
        (38, 28),
        (33, 83),
        (-1, 60),
        ((42, 39, 53, 12), (69, 89, 15, 23), (72, 18, -32, 43), (10, 75, 22, 21)),
        ((30, 16, -55, -41), (66, 74, -4, 16), (39, 52, -45, -6)),
    );
    lemma_final_exp_1_13();
}

proof fn lemma_final_exp_2_13()
    ensures
        GT(gt_of(49, 70)).spow(600) == GT(gt_of(51, 9)),
{
    assert(GT::sone() == GT(gt_of(1, 0)));
    lemma_gt_mul_at((49, 70), (49, 70), (26, 41), (-25, 19));
    assert(GT::spow_steps(GT(gt_of(1, 0)), GT(gt_of(49, 70)), 600) == GT::spow_steps(GT(gt_of(1, 0)), GT(gt_of(26, 41)), 300));
    lemma_gt_mul_at((26, 41), (26, 41), (5, 47), (-10, 4));
    assert(GT::spow_steps(GT(gt_of(1, 0)), GT(gt_of(26, 41)), 300) == GT::spow_steps(GT(gt_of(1, 0)), GT(gt_of(5, 47)), 150));
    lemma_gt_mul_at((5, 47), (5, 47), (38, 79), (-22, -18));
    assert(GT::spow_steps(GT(gt_of(1, 0)), GT(gt_of(5, 47)), 150) == GT::spow_steps(GT(gt_of(1, 0)), GT(gt_of(38, 79)), 75));
    lemma_gt_mul_at((1, 0), (38, 79), (38, 79), (0, 0));
    lemma_gt_mul_at((38, 79), (38, 79), (51, 66), (-48, -3));
    assert(GT::spow_steps(GT(gt_of(1, 0)), GT(gt_of(38, 79)), 75) == GT::spow_steps(GT(gt_of(38, 79)), GT(gt_of(51, 66)), 37));
    lemma_gt_mul_at((38, 79), (51, 66), (57, 10), (-33, 13));
    lemma_gt_mul_at((51, 66), (51, 66), (63, 53), (-18, 23));
    assert(GT::spow_steps(GT(gt_of(38, 79)), GT(gt_of(51, 66)), 37) == GT::spow_steps(GT(gt_of(57, 10)), GT(gt_of(63, 53)), 18));
    lemma_gt_mul_at((63, 53), (63, 53), (49, 31), (11, 38));
    assert(GT::spow_steps(GT(gt_of(57, 10)), GT(gt_of(63, 53)), 18) == GT::spow_steps(GT(gt_of(57, 10)), GT(gt_of(49, 31)), 9));
    lemma_gt_mul_at((57, 10), (49, 31), (59, 28), (24, 19));
    lemma_gt_mul_at((49, 31), (49, 31), (26, 57), (14, 20));
    assert(GT::spow_steps(GT(gt_of(57, 10)), GT(gt_of(49, 31)), 9) == GT::spow_steps(GT(gt_of(59, 28)), GT(gt_of(26, 57)), 4));
    lemma_gt_mul_at((26, 57), (26, 57), (53, 18), (-26, -3));
    assert(GT::spow_steps(GT(gt_of(59, 28)), GT(gt_of(26, 57)), 4) == GT::spow_steps(GT(gt_of(59, 28)), GT(gt_of(53, 18)), 2));
    lemma_gt_mul_at((53, 18), (53, 18), (61, 69), (24, 15));
    assert(GT::spow_steps(GT(gt_of(59, 28)), GT(gt_of(53, 18)), 2) == GT::spow_steps(GT(gt_of(59, 28)), GT(gt_of(61, 69)), 1));
    lemma_gt_mul_at((59, 28), (61, 69), (51, 9), (16, 38));
    lemma_gt_mul_at((61, 69), (61, 69), (71, 21), (-11, 36));
    assert(GT::spow_steps(GT(gt_of(59, 28)), GT(gt_of(61, 69)), 1) == GT::spow_steps(GT(gt_of(51, 9)), GT(gt_of(71, 21)), 0));
}

/// The pairing of `2G` with the point `13 P` of the image of `H`.
proof fn lemma_pairing_2_13()
    ensures
        smiller_loop(g1p(68, 74), dq(60, 60)) is Some,
        spairing_at(g1p(68, 74), dq(60, 60)) == GT(gt_of(51, 9)),
{
    lemma_final_exponent();
    lemma_tangent_2_13();
    lemma_tangent_4_13();
    lemma_tangent_8_13();
    lemma_tangent_16_13();
    lemma_vertical_at(68, 27, 74, 60, 60);
    lemma_miller_at(
        g1p(68, 74),
        dq(60, 60),
        (g1p(65, 98), g1p(18, 49), g1p(1, 99), g1p(68, 27)),
        (60, 24),
        (38, 28),
        (33, 83),
        (5, 88),
        (-68, 60),
        ((95, 82, 29, 22), (1, 46, 13, 34), (6, 97, -21, -21), (25, 92, -78, -44)),
        ((39, 75, -78, -39), (59, 35, -64, -28), (49, 70, -61, -10)),
    );
    lemma_final_exp_2_13();
}

proof fn lemma_final_exp_3_13()
    ensures
        GT(gt_of(83, 33)).spow(600) == GT(gt_of(61, 46)),
{
    assert(GT::sone() == GT(gt_of(1, 0)));
    lemma_gt_mul_at((83, 33), (83, 33), (43, 46), (57, 43));
    assert(GT::spow_steps(GT(gt_of(1, 0)), GT(gt_of(83, 33)), 600) == GT::spow_steps(GT(gt_of(1, 0)), GT(gt_of(43, 46)), 300));
    lemma_gt_mul_at((43, 46), (43, 46), (36, 22), (-3, 18));
    assert(GT::spow_steps(GT(gt_of(1, 0)), GT(gt_of(43, 46)), 300) == GT::spow_steps(GT(gt_of(1, 0)), GT(gt_of(36, 22)), 150));
    lemma_gt_mul_at((36, 22), (36, 22), (4, 90), (8, 10));
    assert(GT::spow_steps(GT(gt_of(1, 0)), GT(gt_of(36, 22)), 150) == GT::spow_steps(GT(gt_of(1, 0)), GT(gt_of(4, 90)), 75));
    lemma_gt_mul_at((1, 0), (4, 90), (4, 90), (0, 0));
    lemma_gt_mul_at((4, 90), (4, 90), (97, 94), (-81, -74));
    assert(GT::spow_steps(GT(gt_of(1, 0)), GT(gt_of(4, 90)), 75) == GT::spow_steps(GT(gt_of(4, 90)), GT(gt_of(97, 94)), 37));
    lemma_gt_mul_at((4, 90), (97, 94), (8, 40), (-80, 6));
    lemma_gt_mul_at((97, 94), (97, 94), (68, 7), (5, 93));
    assert(GT::spow_steps(GT(gt_of(4, 90)), GT(gt_of(97, 94)), 37) == GT::spow_steps(GT(gt_of(8, 40)), GT(gt_of(68, 7)), 18));
    lemma_gt_mul_at((68, 7), (68, 7), (30, 95), (45, 8));
    assert(GT::spow_steps(GT(gt_of(8, 40)), GT(gt_of(68, 7)), 18) == GT::spow_steps(GT(gt_of(8, 40)), GT(gt_of(30, 95)), 9));
    lemma_gt_mul_at((8, 40), (30, 95), (76, 79), (-36, -19));
    lemma_gt_mul_at((30, 95), (30, 95), (56, 8), (-81, -33));
    assert(GT::spow_steps(GT(gt_of(8, 40)), GT(gt_of(30, 95)), 9) == GT::spow_steps(GT(gt_of(76, 79)), GT(gt_of(56, 8)), 4));
    lemma_gt_mul_at((56, 8), (56, 8), (42, 24), (30, 8));
    assert(GT::spow_steps(GT(gt_of(76, 79)), GT(gt_of(56, 8)), 4) == GT::spow_steps(GT(gt_of(76, 79)), GT(gt_of(42, 24)), 2));
    lemma_gt_mul_at((42, 24), (42, 24), (77, 26), (11, 14));
    assert(GT::spow_steps(GT(gt_of(76, 79)), GT(gt_of(42, 24)), 2) == GT::spow_steps(GT(gt_of(76, 79)), GT(gt_of(77, 26)), 1));
    lemma_gt_mul_at((76, 79), (77, 26), (61, 46), (37, 59));
    lemma_gt_mul_at((77, 26), (77, 26), (1, 96), (52, 32));
    assert(GT::spow_steps(GT(gt_of(76, 79)), GT(gt_of(77, 26)), 1) == GT::spow_steps(GT(gt_of(61, 46)), GT(gt_of(1, 96)), 0));
}

/// The pairing of `3G` with the point `13 P` of the image of `H`.
proof fn lemma_pairing_3_13()
    ensures
        smiller_loop(g1p(26, 45), dq(60, 60)) is Some,
        spairing_at(g1p(26, 45), dq(60, 60)) == GT(gt_of(61, 46)),
{
    lemma_final_exponent();
    lemma_tangent_3_13();
    lemma_tangent_6_13();
    lemma_tangent_12_13();
    lemma_tangent_7_13();
    lemma_vertical_at(26, 56, 45, 60, 60);
    lemma_miller_at(
        g1p(26, 45),
        dq(60, 60),
        (g1p(32, 42), g1p(12, 69), g1p(91, 35), g1p(26, 56)),
        (79, 75),
        (30, 17),
        (94, 34),
        (15, 96),
        (-26, 60),
        ((10, 64, 6, 61), (20, 93, -8, 9), (33, 20, -82, -49), (99, 100, 23, 22)),
        ((3, 3, -2, 97), (60, 45, -3, 0), (83, 33, -43, -3)),
    );
    lemma_final_exp_3_13();
}

proof fn lemma_final_exp_4_13()
    ensures
        GT(gt_of(24, 95)).spow(600) == GT(gt_of(96, 29)),
{
    assert(GT::sone() == GT(gt_of(1, 0)));
    lemma_gt_mul_at((24, 95), (24, 95), (35, 80), (-84, -45));
    assert(GT::spow_steps(GT(gt_of(1, 0)), GT(gt_of(24, 95)), 600) == GT::spow_steps(GT(gt_of(1, 0)), GT(gt_of(35, 80)), 300));
    lemma_gt_mul_at((35, 80), (35, 80), (77, 8), (-52, -8));
    assert(GT::spow_steps(GT(gt_of(1, 0)), GT(gt_of(35, 80)), 300) == GT::spow_steps(GT(gt_of(1, 0)), GT(gt_of(77, 8)), 150));
    lemma_gt_mul_at((77, 8), (77, 8), (7, 57), (58, 11));
    assert(GT::spow_steps(GT(gt_of(1, 0)), GT(gt_of(77, 8)), 150) == GT::spow_steps(GT(gt_of(1, 0)), GT(gt_of(7, 57)), 75));
    lemma_gt_mul_at((1, 0), (7, 57), (7, 57), (0, 0));
    lemma_gt_mul_at((7, 57), (7, 57), (32, 74), (-32, -25));
    assert(GT::spow_steps(GT(gt_of(1, 0)), GT(gt_of(7, 57)), 75) == GT::spow_steps(GT(gt_of(7, 57)), GT(gt_of(32, 74)), 37));
    lemma_gt_mul_at((7, 57), (32, 74), (46, 43), (-40, -19));
    lemma_gt_mul_at((32, 74), (32, 74), (93, 68), (-45, -8));
    assert(GT::spow_steps(GT(gt_of(7, 57)), GT(gt_of(32, 74)), 37) == GT::spow_steps(GT(gt_of(46, 43)), GT(gt_of(93, 68)), 18));
    lemma_gt_mul_at((93, 68), (93, 68), (86, 45), (39, 79));
    assert(GT::spow_steps(GT(gt_of(46, 43)), GT(gt_of(93, 68)), 18) == GT::spow_steps(GT(gt_of(46, 43)), GT(gt_of(86, 45)), 9));
    lemma_gt_mul_at((46, 43), (86, 45), (1, 96), (20, 37));
    lemma_gt_mul_at((86, 45), (86, 45), (18, 59), (53, 56));
    assert(GT::spow_steps(GT(gt_of(46, 43)), GT(gt_of(86, 45)), 9) == GT::spow_steps(GT(gt_of(1, 96)), GT(gt_of(18, 59)), 4));
    lemma_gt_mul_at((18, 59), (18, 59), (75, 57), (-32, -14));
    assert(GT::spow_steps(GT(gt_of(1, 96)), GT(gt_of(18, 59)), 4) == GT::spow_steps(GT(gt_of(1, 96)), GT(gt_of(75, 57)), 2));
    lemma_gt_mul_at((75, 57), (75, 57), (53, 49), (23, 52));
    assert(GT::spow_steps(GT(gt_of(1, 96)), GT(gt_of(75, 57)), 2) == GT::spow_steps(GT(gt_of(1, 96)), GT(gt_of(53, 49)), 1));
    lemma_gt_mul_at((1, 96), (53, 49), (96, 29), (-47, 4));
    lemma_gt_mul_at((53, 49), (53, 49), (4, 66), (4, 27));
    assert(GT::spow_steps(GT(gt_of(1, 96)), GT(gt_of(53, 49)), 1) == GT::spow_steps(GT(gt_of(96, 29)), GT(gt_of(4, 66)), 0));
}

/// The pairing of `4G` with the point `13 P` of the image of `H`.
proof fn lemma_pairing_4_13()
    ensures
        smiller_loop(g1p(65, 98), dq(60, 60)) is Some,
        spairing_at(g1p(65, 98), dq(60, 60)) == GT(gt_of(96, 29)),
{
    lemma_final_exponent();
    lemma_tangent_4_13();
    lemma_tangent_8_13();
    lemma_tangent_16_13();
    lemma_tangent_15_13();
    lemma_vertical_at(65, 3, 98, 60, 60);
    lemma_miller_at(
        g1p(65, 98),
        dq(60, 60),
        (g1p(18, 49), g1p(1, 99), g1p(68, 27), g1p(65, 3)),
        (38, 28),
        (33, 83),
        (5, 88),
        (24, 85),
        (-65, 60),
        ((54, 31, 6, 13), (17, 3, -8, 29), (78, 93, 2, 0), (84, 54, -78, -9)),
        ((100, 96, 40, 60), (98, 18, -58, 26), (24, 95, -74, 35)),
    );
    lemma_final_exp_4_13();
}

proof fn lemma_final_exp_5_13()
    ensures
        GT(gt_of(93, 74)).spow(600) == GT(gt_of(71, 57)),
{
    assert(GT::sone() == GT(gt_of(1, 0)));
    lemma_gt_mul_at((93, 74), (93, 74), (42, 6), (31, 82));
    assert(GT::spow_steps(GT(gt_of(1, 0)), GT(gt_of(93, 74)), 600) == GT::spow_steps(GT(gt_of(1, 0)), GT(gt_of(42, 6)), 300));
    lemma_gt_mul_at((42, 6), (42, 6), (11, 64), (17, 4));
    assert(GT::spow_steps(GT(gt_of(1, 0)), GT(gt_of(42, 6)), 300) == GT::spow_steps(GT(gt_of(1, 0)), GT(gt_of(11, 64)), 150));
    lemma_gt_mul_at((11, 64), (11, 64), (65, 39), (-40, -27));
    assert(GT::spow_steps(GT(gt_of(1, 0)), GT(gt_of(11, 64)), 150) == GT::spow_steps(GT(gt_of(1, 0)), GT(gt_of(65, 39)), 75));
    lemma_gt_mul_at((1, 0), (65, 39), (65, 39), (0, 0));
    lemma_gt_mul_at((65, 39), (65, 39), (78, 14), (26, 35));
    assert(GT::spow_steps(GT(gt_of(1, 0)), GT(gt_of(65, 39)), 75) == GT::spow_steps(GT(gt_of(65, 39)), GT(gt_of(78, 14)), 37));
    lemma_gt_mul_at((65, 39), (78, 14), (80, 73), (44, 33));
    lemma_gt_mul_at((78, 14), (78, 14), (30, 69), (58, 19));
    assert(GT::spow_steps(GT(gt_of(65, 39)), GT(gt_of(78, 14)), 37) == GT::spow_steps(GT(gt_of(80, 73)), GT(gt_of(30, 69)), 18));
    lemma_gt_mul_at((30, 69), (30, 69), (78, 86), (-39, -7));
    assert(GT::spow_steps(GT(gt_of(80, 73)), GT(gt_of(30, 69)), 18) == GT::spow_steps(GT(gt_of(80, 73)), GT(gt_of(78, 86)), 9));
    lemma_gt_mul_at((80, 73), (78, 86), (63, 34), (-1, 62));
    lemma_gt_mul_at((78, 86), (78, 86), (1, 61), (-13, 59));
    assert(GT::spow_steps(GT(gt_of(80, 73)), GT(gt_of(78, 86)), 9) == GT::spow_steps(GT(gt_of(63, 34)), GT(gt_of(1, 61)), 4));
    lemma_gt_mul_at((1, 61), (1, 61), (17, 37), (-37, -36));
    assert(GT::spow_steps(GT(gt_of(63, 34)), GT(gt_of(1, 61)), 4) == GT::spow_steps(GT(gt_of(63, 34)), GT(gt_of(17, 37)), 2));
    lemma_gt_mul_at((17, 37), (17, 37), (31, 91), (-11, -2));
    assert(GT::spow_steps(GT(gt_of(63, 34)), GT(gt_of(17, 37)), 2) == GT::spow_steps(GT(gt_of(63, 34)), GT(gt_of(31, 91)), 1));
    lemma_gt_mul_at((63, 34), (31, 91), (71, 57), (-12, 36));
    lemma_gt_mul_at((31, 91), (31, 91), (53, 88), (-73, -27));
    assert(GT::spow_steps(GT(gt_of(63, 34)), GT(gt_of(31, 91)), 1) == GT::spow_steps(GT(gt_of(71, 57)), GT(gt_of(53, 88)), 0));
}

/// The pairing of `5G` with the point `13 P` of the image of `H`.
proof fn lemma_pairing_5_13()
    ensures
        smiller_loop(g1p(12, 32), dq(60, 60)) is Some,
        spairing_at(g1p(12, 32), dq(60, 60)) == GT(gt_of(71, 57)),
{
    lemma_final_exponent();
    lemma_tangent_5_13();
    lemma_tangent_10_13();
    lemma_tangent_3_13();
    lemma_tangent_6_13();
    lemma_vertical_at(12, 69, 32, 60, 60);
    lemma_miller_at(
        g1p(12, 32),
        dq(60, 60),
        (g1p(91, 66), g1p(26, 45), g1p(32, 42), g1p(12, 69)),
        (80, 94),
        (96, 66),
        (79, 75),
        (30, 17),
        (-12, 60),
        ((89, 43, -25, 61), (50, 94, 56, 70), (27, 59, -63, 5), (31, 39, -23, 22)),
        ((46, 89, -6, 8), (69, 20, -2, 19), (93, 74, -21, 26)),
    );
    lemma_final_exp_5_13();
}

proof fn lemma_final_exp_6_13()
    ensures
        GT(gt_of(23, 84)).spow(600) == GT(gt_of(90, 62)),
{
    assert(GT::sone() == GT(gt_of(1, 0)));
    lemma_gt_mul_at((23, 84), (23, 84), (38, 40), (-65, -32));
    assert(GT::spow_steps(GT(gt_of(1, 0)), GT(gt_of(23, 84)), 600) == GT::spow_steps(GT(gt_of(1, 0)), GT(gt_of(38, 40)), 300));
    lemma_gt_mul_at((38, 40), (38, 40), (46, 26), (-2, 14));
    assert(GT::spow_steps(GT(gt_of(1, 0)), GT(gt_of(38, 40)), 300) == GT::spow_steps(GT(gt_of(1, 0)), GT(gt_of(46, 26)), 150));
    lemma_gt_mul_at((46, 26), (46, 26), (26, 100), (14, 16));
    assert(GT::spow_steps(GT(gt_of(1, 0)), GT(gt_of(46, 26)), 150) == GT::spow_steps(GT(gt_of(1, 0)), GT(gt_of(26, 100)), 75));
    lemma_gt_mul_at((1, 0), (26, 100), (26, 100), (0, 0));
    lemma_gt_mul_at((26, 100), (26, 100), (69, 48), (-93, -48));
    assert(GT::spow_steps(GT(gt_of(1, 0)), GT(gt_of(26, 100)), 75) == GT::spow_steps(GT(gt_of(26, 100)), GT(gt_of(69, 48)), 37));
    lemma_gt_mul_at((26, 100), (69, 48), (24, 15), (-30, 33));
    lemma_gt_mul_at((69, 48), (69, 48), (33, 78), (24, 42));
    assert(GT::spow_steps(GT(gt_of(26, 100)), GT(gt_of(69, 48)), 37) == GT::spow_steps(GT(gt_of(24, 15)), GT(gt_of(33, 78)), 18));
    lemma_gt_mul_at((33, 78), (33, 78), (55, 74), (-50, -10));
    assert(GT::spow_steps(GT(gt_of(24, 15)), GT(gt_of(33, 78)), 18) == GT::spow_steps(GT(gt_of(24, 15)), GT(gt_of(55, 74)), 9));
    lemma_gt_mul_at((24, 15), (55, 74), (8, 77), (2, 14));
    lemma_gt_mul_at((55, 74), (55, 74), (74, 38), (-25, 26));
    assert(GT::spow_steps(GT(gt_of(24, 15)), GT(gt_of(55, 74)), 9) == GT::spow_steps(GT(gt_of(8, 77)), GT(gt_of(74, 38)), 4));
    lemma_gt_mul_at((74, 38), (74, 38), (93, 39), (39, 41));
    assert(GT::spow_steps(GT(gt_of(8, 77)), GT(gt_of(74, 38)), 4) == GT::spow_steps(GT(gt_of(8, 77)), GT(gt_of(93, 39)), 2));
    lemma_gt_mul_at((93, 39), (93, 39), (58, 77), (70, 56));
    assert(GT::spow_steps(GT(gt_of(8, 77)), GT(gt_of(93, 39)), 2) == GT::spow_steps(GT(gt_of(8, 77)), GT(gt_of(58, 77)), 1));
    lemma_gt_mul_at((8, 77), (58, 77), (90, 62), (-55, -9));
    lemma_gt_mul_at((58, 77), (58, 77), (61, 74), (-26, 29));
    assert(GT::spow_steps(GT(gt_of(8, 77)), GT(gt_of(58, 77)), 1) == GT::spow_steps(GT(gt_of(90, 62)), GT(gt_of(61, 74)), 0));
}

/// The pairing of `6G` with the point `13 P` of the image of `H`.
proof fn lemma_pairing_6_13()
    ensures
        smiller_loop(g1p(32, 42), dq(60, 60)) is Some,
        spairing_at(g1p(32, 42), dq(60, 60)) == GT(gt_of(90, 62)),
{
    lemma_final_exponent();
    lemma_tangent_6_13();
    lemma_tangent_12_13();
    lemma_tangent_7_13();
    lemma_tangent_14_13();
    lemma_vertical_at(32, 59, 42, 60, 60);
    lemma_miller_at(
        g1p(32, 42),
        dq(60, 60),
        (g1p(12, 69), g1p(91, 35), g1p(26, 56), g1p(32, 59)),
        (30, 17),
        (94, 34),
        (15, 96),
        (86, 37),
        (-32, 60),
        ((5, 24, 6, 7), (58, 95, -4, 15), (96, 76, -57, 19), (2, 30, -58, 30)),
        ((13, 28, -9, -8), (82, 35, 0, 18), (23, 84, -47, 16)),
    );
    lemma_final_exp_6_13();
}

proof fn lemma_final_exp_7_13()
    ensures
        GT(gt_of(91, 9)).spow(600) == GT(gt_of(78, 3)),
{
    assert(GT::sone() == GT(gt_of(1, 0)));
    lemma_gt_mul_at((91, 9), (91, 9), (19, 42), (81, 15));
    assert(GT::spow_steps(GT(gt_of(1, 0)), GT(gt_of(91, 9)), 600) == GT::spow_steps(GT(gt_of(1, 0)), GT(gt_of(19, 42)), 300));
    lemma_gt_mul_at((19, 42), (19, 42), (11, 34), (-14, -2));
    assert(GT::spow_steps(GT(gt_of(1, 0)), GT(gt_of(19, 42)), 300) == GT::spow_steps(GT(gt_of(1, 0)), GT(gt_of(11, 34)), 150));
    lemma_gt_mul_at((11, 34), (11, 34), (76, 97), (-11, -5));
    assert(GT::spow_steps(GT(gt_of(1, 0)), GT(gt_of(11, 34)), 150) == GT::spow_steps(GT(gt_of(1, 0)), GT(gt_of(76, 97)), 75));
    lemma_gt_mul_at((1, 0), (76, 97), (76, 97), (0, 0));
    lemma_gt_mul_at((76, 97), (76, 97), (3, 83), (-36, 52));
    assert(GT::spow_steps(GT(gt_of(1, 0)), GT(gt_of(76, 97)), 75) == GT::spow_steps(GT(gt_of(76, 97)), GT(gt_of(3, 83)), 37));
    lemma_gt_mul_at((76, 97), (3, 83), (55, 63), (-78, -15));
    lemma_gt_mul_at((3, 83), (3, 83), (89, 73), (-69, -64));
    assert(GT::spow_steps(GT(gt_of(76, 97)), GT(gt_of(3, 83)), 37) == GT::spow_steps(GT(gt_of(55, 63)), GT(gt_of(89, 73)), 18));
    lemma_gt_mul_at((89, 73), (89, 73), (67, 90), (25, 75));
    assert(GT::spow_steps(GT(gt_of(55, 63)), GT(gt_of(89, 73)), 18) == GT::spow_steps(GT(gt_of(55, 63)), GT(gt_of(67, 90)), 9));
    lemma_gt_mul_at((55, 63), (67, 90), (35, 67), (-20, 34));
    lemma_gt_mul_at((67, 90), (67, 90), (25, 21), (-36, 39));
    assert(GT::spow_steps(GT(gt_of(55, 63)), GT(gt_of(67, 90)), 9) == GT::spow_steps(GT(gt_of(35, 67)), GT(gt_of(25, 21)), 4));
    lemma_gt_mul_at((25, 21), (25, 21), (83, 3), (1, 6));
    assert(GT::spow_steps(GT(gt_of(35, 67)), GT(gt_of(25, 21)), 4) == GT::spow_steps(GT(gt_of(35, 67)), GT(gt_of(83, 3)), 2));
    lemma_gt_mul_at((83, 3), (83, 3), (12, 85), (68, 4));
    assert(GT::spow_steps(GT(gt_of(35, 67)), GT(gt_of(83, 3)), 2) == GT::spow_steps(GT(gt_of(35, 67)), GT(gt_of(12, 85)), 1));
    lemma_gt_mul_at((35, 67), (12, 85), (78, 3), (-53, -19));
    lemma_gt_mul_at((12, 85), (12, 85), (90, 67), (-71, -52));
    assert(GT::spow_steps(GT(gt_of(35, 67)), GT(gt_of(12, 85)), 1) == GT::spow_steps(GT(gt_of(78, 3)), GT(gt_of(90, 67)), 0));
}

/// The pairing of `7G` with the point `13 P` of the image of `H`.
proof fn lemma_pairing_7_13()
    ensures
        smiller_loop(g1p(91, 35), dq(60, 60)) is Some,
        spairing_at(g1p(91, 35), dq(60, 60)) == GT(gt_of(78, 3)),
{
    lemma_final_exponent();
    lemma_tangent_7_13();
    lemma_tangent_14_13();
    lemma_tangent_11_13();
    lemma_tangent_5_13();
    lemma_vertical_at(91, 66, 35, 60, 60);
    lemma_miller_at(
        g1p(91, 35),
        dq(60, 60),
        (g1p(26, 56), g1p(32, 59), g1p(12, 32), g1p(91, 66)),
        (15, 96),
        (86, 37),
        (43, 27),
        (80, 94),
        (-91, 60),
        ((99, 27, -90, -63), (41, 37, 74, 49), (9, 49, 3, 16), (74, 17, -10, 10)),
        ((36, 5, 51, 22), (87, 82, 23, 32), (91, 9, -128, -71)),
    );
    lemma_final_exp_7_13();
}

proof fn lemma_final_exp_8_13()
    ensures
        GT(gt_of(84, 43)).spow(600) == GT(gt_of(93, 81)),
{
    assert(GT::sone() == GT(gt_of(1, 0)));
    lemma_gt_mul_at((84, 43), (84, 43), (56, 22), (51, 53));
    assert(GT::spow_steps(GT(gt_of(1, 0)), GT(gt_of(84, 43)), 600) == GT::spow_steps(GT(gt_of(1, 0)), GT(gt_of(56, 22)), 300));
    lemma_gt_mul_at((56, 22), (56, 22), (26, 61), (26, 19));
    assert(GT::spow_steps(GT(gt_of(1, 0)), GT(gt_of(56, 22)), 300) == GT::spow_steps(GT(gt_of(1, 0)), GT(gt_of(26, 61)), 150));
    lemma_gt_mul_at((26, 61), (26, 61), (86, 57), (-31, -6));
    assert(GT::spow_steps(GT(gt_of(1, 0)), GT(gt_of(26, 61)), 150) == GT::spow_steps(GT(gt_of(1, 0)), GT(gt_of(86, 57)), 75));
    lemma_gt_mul_at((1, 0), (86, 57), (86, 57), (0, 0));
    lemma_gt_mul_at((86, 57), (86, 57), (6, 91), (41, 64));
    assert(GT::spow_steps(GT(gt_of(1, 0)), GT(gt_of(86, 57)), 75) == GT::spow_steps(GT(gt_of(86, 57)), GT(gt_of(6, 91)), 37));
    lemma_gt_mul_at((86, 57), (6, 91), (76, 52), (-47, 29));
    lemma_gt_mul_at((6, 91), (6, 91), (37, 83), (-82, -72));
    assert(GT::spow_steps(GT(gt_of(86, 57)), GT(gt_of(6, 91)), 37) == GT::spow_steps(GT(gt_of(76, 52)), GT(gt_of(37, 83)), 18));
    lemma_gt_mul_at((37, 83), (37, 83), (35, 61), (-55, -8));
    assert(GT::spow_steps(GT(gt_of(76, 52)), GT(gt_of(37, 83)), 18) == GT::spow_steps(GT(gt_of(76, 52)), GT(gt_of(35, 61)), 9));
    lemma_gt_mul_at((76, 52), (35, 61), (94, 52), (-6, 32));
    lemma_gt_mul_at((35, 61), (35, 61), (29, 44), (-25, 5));
    assert(GT::spow_steps(GT(gt_of(76, 52)), GT(gt_of(35, 61)), 9) == GT::spow_steps(GT(gt_of(94, 52)), GT(gt_of(29, 44)), 4));
    lemma_gt_mul_at((29, 44), (29, 44), (16, 10), (-11, 6));
    assert(GT::spow_steps(GT(gt_of(94, 52)), GT(gt_of(29, 44)), 4) == GT::spow_steps(GT(gt_of(94, 52)), GT(gt_of(16, 10)), 2));
    lemma_gt_mul_at((16, 10), (16, 10), (55, 18), (1, 2));
    assert(GT::spow_steps(GT(gt_of(94, 52)), GT(gt_of(16, 10)), 2) == GT::spow_steps(GT(gt_of(94, 52)), GT(gt_of(55, 18)), 1));
    lemma_gt_mul_at((94, 52), (55, 18), (93, 81), (41, 35));
    lemma_gt_mul_at((55, 18), (55, 18), (75, 40), (26, 16));
    assert(GT::spow_steps(GT(gt_of(94, 52)), GT(gt_of(55, 18)), 1) == GT::spow_steps(GT(gt_of(93, 81)), GT(gt_of(75, 40)), 0));
}

/// The pairing of `8G` with the point `13 P` of the image of `H`.
proof fn lemma_pairing_8_13()
    ensures
        smiller_loop(g1p(18, 49), dq(60, 60)) is Some,
        spairing_at(g1p(18, 49), dq(60, 60)) == GT(gt_of(93, 81)),
{
    lemma_final_exponent();
    lemma_tangent_8_13();
    lemma_tangent_16_13();
    lemma_tangent_15_13();
    lemma_tangent_13_13();
    lemma_vertical_at(18, 52, 49, 60, 60);
    lemma_miller_at(
        g1p(18, 49),
        dq(60, 60),
        (g1p(1, 99), g1p(68, 27), g1p(65, 3), g1p(18, 52)),
        (33, 83),
        (5, 88),
        (24, 85),
        (3, 89),
        (-18, 60),
        ((58, 3, -58, -14), (26, 7, 0, 48), (21, 12, 6, 3), (90, 43, -6, 10)),
        ((90, 33, 61, 58), (60, 21, -27, 51), (84, 43, -24, 19)),
    );
    lemma_final_exp_8_13();
}

proof fn lemma_final_exp_9_13()
    ensures
        GT(gt_of(74, 78)).spow(600) == GT(gt_of(12, 20)),
{
    assert(GT::sone() == GT(gt_of(1, 0)));
    lemma_gt_mul_at((74, 78), (74, 78), (99, 6), (-7, 54));
    assert(GT::spow_steps(GT(gt_of(1, 0)), GT(gt_of(74, 78)), 600) == GT::spow_steps(GT(gt_of(1, 0)), GT(gt_of(99, 6)), 300));
    lemma_gt_mul_at((99, 6), (99, 6), (69, 41), (96, 11));
    assert(GT::spow_steps(GT(gt_of(1, 0)), GT(gt_of(99, 6)), 300) == GT::spow_steps(GT(gt_of(1, 0)), GT(gt_of(69, 41)), 150));
    lemma_gt_mul_at((69, 41), (69, 41), (50, 38), (30, 39));
    assert(GT::spow_steps(GT(gt_of(1, 0)), GT(gt_of(69, 41)), 150) == GT::spow_steps(GT(gt_of(1, 0)), GT(gt_of(50, 38)), 75));
    lemma_gt_mul_at((1, 0), (50, 38), (50, 38), (0, 0));
    lemma_gt_mul_at((50, 38), (50, 38), (46, 33), (10, 23));
    assert(GT::spow_steps(GT(gt_of(1, 0)), GT(gt_of(50, 38)), 75) == GT::spow_steps(GT(gt_of(50, 38)), GT(gt_of(46, 33)), 37));
    lemma_gt_mul_at((50, 38), (46, 33), (36, 23), (10, 21));
    lemma_gt_mul_at((46, 33), (46, 33), (17, 28), (10, 19));
    assert(GT::spow_steps(GT(gt_of(50, 38)), GT(gt_of(46, 33)), 37) == GT::spow_steps(GT(gt_of(36, 23)), GT(gt_of(17, 28)), 18));
    lemma_gt_mul_at((17, 28), (17, 28), (10, 67), (-5, 1));
    assert(GT::spow_steps(GT(gt_of(36, 23)), GT(gt_of(17, 28)), 18) == GT::spow_steps(GT(gt_of(36, 23)), GT(gt_of(10, 67)), 9));
    lemma_gt_mul_at((36, 23), (10, 67), (31, 91), (-12, 10));
    lemma_gt_mul_at((10, 67), (10, 67), (55, 83), (-44, -32));
    assert(GT::spow_steps(GT(gt_of(36, 23)), GT(gt_of(10, 67)), 9) == GT::spow_steps(GT(gt_of(31, 91)), GT(gt_of(55, 83)), 4));
    lemma_gt_mul_at((55, 83), (55, 83), (75, 19), (-39, 22));
    assert(GT::spow_steps(GT(gt_of(31, 91)), GT(gt_of(55, 83)), 4) == GT::spow_steps(GT(gt_of(31, 91)), GT(gt_of(75, 19)), 2));
    lemma_gt_mul_at((75, 19), (75, 19), (12, 65), (52, 24));
    assert(GT::spow_steps(GT(gt_of(31, 91)), GT(gt_of(75, 19)), 2) == GT::spow_steps(GT(gt_of(31, 91)), GT(gt_of(12, 65)), 1));
    lemma_gt_mul_at((31, 91), (12, 65), (12, 20), (-55, -28));
    lemma_gt_mul_at((12, 65), (12, 65), (60, 62), (-41, -27));
    assert(GT::spow_steps(GT(gt_of(31, 91)), GT(gt_of(12, 65)), 1) == GT::spow_steps(GT(gt_of(12, 20)), GT(gt_of(60, 62)), 0));
}

/// The pairing of `9G` with the point `13 P` of the image of `H`.
proof fn lemma_pairing_9_13()
    ensures
        smiller_loop(g1p(18, 52), dq(60, 60)) is Some,
        spairing_at(g1p(18, 52), dq(60, 60)) == GT(gt_of(12, 20)),
{
    lemma_final_exponent();
    lemma_tangent_9_13();
    lemma_tangent_1_13();
    lemma_tangent_2_13();
    lemma_tangent_4_13();
    lemma_vertical_at(18, 49, 52, 60, 60);
    lemma_miller_at(
        g1p(18, 52),
        dq(60, 60),
        (g1p(1, 2), g1p(68, 74), g1p(65, 98), g1p(18, 49)),
        (58, 33),
        (74, 9),
        (60, 24),
        (38, 28),
        (-18, 60),
        ((53, 12, 22, 27), (77, 45, 37, 12), (66, 57, 38, 48), (67, 0, 25, 36)),
        ((45, 0, 44, 0), (94, 48, 16, 12), (74, 78, -46, 18)),
    );
    lemma_final_exp_9_13();
}

proof fn lemma_final_exp_10_13()
    ensures
        GT(gt_of(17, 24)).spow(600) == GT(gt_of(75, 98)),
{
    assert(GT::sone() == GT(gt_of(1, 0)));
    lemma_gt_mul_at((17, 24), (17, 24), (16, 38), (-3, 2));
    assert(GT::spow_steps(GT(gt_of(1, 0)), GT(gt_of(17, 24)), 600) == GT::spow_steps(GT(gt_of(1, 0)), GT(gt_of(16, 38)), 300));
    lemma_gt_mul_at((16, 38), (16, 38), (24, 75), (-12, -3));
    assert(GT::spow_steps(GT(gt_of(1, 0)), GT(gt_of(16, 38)), 300) == GT::spow_steps(GT(gt_of(1, 0)), GT(gt_of(24, 75)), 150));
    lemma_gt_mul_at((24, 75), (24, 75), (1, 96), (-50, -21));
    assert(GT::spow_steps(GT(gt_of(1, 0)), GT(gt_of(24, 75)), 150) == GT::spow_steps(GT(gt_of(1, 0)), GT(gt_of(1, 96)), 75));
    lemma_gt_mul_at((1, 0), (1, 96), (1, 96), (0, 0));
    lemma_gt_mul_at((1, 96), (1, 96), (77, 66), (-92, -90));
    assert(GT::spow_steps(GT(gt_of(1, 0)), GT(gt_of(1, 96)), 75) == GT::spow_steps(GT(gt_of(1, 96)), GT(gt_of(77, 66)), 37));
    lemma_gt_mul_at((1, 96), (77, 66), (3, 11), (-62, 11));
    lemma_gt_mul_at((77, 66), (77, 66), (58, 51), (15, 57));
    assert(GT::spow_steps(GT(gt_of(1, 96)), GT(gt_of(77, 66)), 37) == GT::spow_steps(GT(gt_of(3, 11)), GT(gt_of(58, 51)), 18));
    lemma_gt_mul_at((58, 51), (58, 51), (56, 83), (7, 32));
    assert(GT::spow_steps(GT(gt_of(3, 11)), GT(gt_of(58, 51)), 18) == GT::spow_steps(GT(gt_of(3, 11)), GT(gt_of(56, 83)), 9));
    lemma_gt_mul_at((3, 11), (56, 83), (63, 53), (-8, -1));
    lemma_gt_mul_at((56, 83), (56, 83), (85, 84), (-38, 23));
    assert(GT::spow_steps(GT(gt_of(3, 11)), GT(gt_of(56, 83)), 9) == GT::spow_steps(GT(gt_of(63, 53)), GT(gt_of(85, 84)), 4));
    lemma_gt_mul_at((85, 84), (85, 84), (68, 53), (1, 71));
    assert(GT::spow_steps(GT(gt_of(63, 53)), GT(gt_of(85, 84)), 4) == GT::spow_steps(GT(gt_of(63, 53)), GT(gt_of(68, 53)), 2));
    lemma_gt_mul_at((68, 53), (68, 53), (98, 56), (17, 43));
    assert(GT::spow_steps(GT(gt_of(63, 53)), GT(gt_of(68, 53)), 2) == GT::spow_steps(GT(gt_of(63, 53)), GT(gt_of(98, 56)), 1));
    lemma_gt_mul_at((63, 53), (98, 56), (75, 98), (31, 56));
    lemma_gt_mul_at((98, 56), (98, 56), (4, 63), (64, 77));
    assert(GT::spow_steps(GT(gt_of(63, 53)), GT(gt_of(98, 56)), 1) == GT::spow_steps(GT(gt_of(75, 98)), GT(gt_of(4, 63)), 0));
}

/// The pairing of `10G` with the point `13 P` of the image of `H`.
proof fn lemma_pairing_10_13()
    ensures
        smiller_loop(g1p(91, 66), dq(60, 60)) is Some,
        spairing_at(g1p(91, 66), dq(60, 60)) == GT(gt_of(75, 98)),
{
    lemma_final_exponent();
    lemma_tangent_10_13();
    lemma_tangent_3_13();
    lemma_tangent_6_13();
    lemma_tangent_12_13();
    lemma_vertical_at(91, 35, 66, 60, 60);
    lemma_miller_at(
        g1p(91, 66),
        dq(60, 60),
        (g1p(26, 45), g1p(32, 42), g1p(12, 69), g1p(91, 35)),
        (96, 66),
        (79, 75),
        (30, 17),
        (94, 34),
        (-91, 60),
        ((12, 34, 48, 82), (14, 26, -16, 10), (25, 52, -5, 0), (68, 91, -2, 10)),
        ((80, 55, -37, 40), (95, 61, 55, 59), (17, 24, -122, -35)),
    );
    lemma_final_exp_10_13();
}

proof fn lemma_final_exp_11_13()
    ensures
        GT(gt_of(69, 19)).spow(600) == GT(gt_of(28, 39)),
{
    assert(GT::sone() == GT(gt_of(1, 0)));
    lemma_gt_mul_at((69, 19), (69, 19), (57, 39), (43, 22));
    assert(GT::spow_steps(GT(gt_of(1, 0)), GT(gt_of(69, 19)), 600) == GT::spow_steps(GT(gt_of(1, 0)), GT(gt_of(57, 39)), 300));
    lemma_gt_mul_at((57, 39), (57, 39), (11, 97), (17, 28));
    assert(GT::spow_steps(GT(gt_of(1, 0)), GT(gt_of(57, 39)), 300) == GT::spow_steps(GT(gt_of(1, 0)), GT(gt_of(11, 97)), 150));
    lemma_gt_mul_at((11, 97), (11, 97), (4, 98), (-92, -73));
    assert(GT::spow_steps(GT(gt_of(1, 0)), GT(gt_of(11, 97)), 150) == GT::spow_steps(GT(gt_of(1, 0)), GT(gt_of(4, 98)), 75));
    lemma_gt_mul_at((1, 0), (4, 98), (4, 98), (0, 0));
    lemma_gt_mul_at((4, 98), (4, 98), (7, 68), (-95, -88));
    assert(GT::spow_steps(GT(gt_of(1, 0)), GT(gt_of(4, 98)), 75) == GT::spow_steps(GT(gt_of(4, 98)), GT(gt_of(7, 68)), 37));
    lemma_gt_mul_at((4, 98), (7, 68), (30, 51), (-66, -57));
    lemma_gt_mul_at((7, 68), (7, 68), (71, 65), (-46, -37));
    assert(GT::spow_steps(GT(gt_of(4, 98)), GT(gt_of(7, 68)), 37) == GT::spow_steps(GT(gt_of(30, 51)), GT(gt_of(71, 65)), 18));
    lemma_gt_mul_at((71, 65), (71, 65), (8, 56), (8, 49));
    assert(GT::spow_steps(GT(gt_of(30, 51)), GT(gt_of(71, 65)), 18) == GT::spow_steps(GT(gt_of(30, 51)), GT(gt_of(8, 56)), 9));
    lemma_gt_mul_at((30, 51), (8, 56), (10, 40), (-26, -8));
    lemma_gt_mul_at((8, 56), (8, 56), (59, 83), (-31, -23));
    assert(GT::spow_steps(GT(gt_of(30, 51)), GT(gt_of(8, 56)), 9) == GT::spow_steps(GT(gt_of(10, 40)), GT(gt_of(59, 83)), 4));
    lemma_gt_mul_at((59, 83), (59, 83), (26, 77), (-34, 28));
    assert(GT::spow_steps(GT(gt_of(10, 40)), GT(gt_of(59, 83)), 4) == GT::spow_steps(GT(gt_of(10, 40)), GT(gt_of(26, 77)), 2));
    lemma_gt_mul_at((26, 77), (26, 77), (100, 95), (-53, -20));
    assert(GT::spow_steps(GT(gt_of(10, 40)), GT(gt_of(26, 77)), 2) == GT::spow_steps(GT(gt_of(10, 40)), GT(gt_of(100, 95)), 1));
    lemma_gt_mul_at((10, 40), (100, 95), (28, 39), (-28, 11));
    lemma_gt_mul_at((100, 95), (100, 95), (66, 77), (9, 98));
    assert(GT::spow_steps(GT(gt_of(10, 40)), GT(gt_of(100, 95)), 1) == GT::spow_steps(GT(gt_of(28, 39)), GT(gt_of(66, 77)), 0));
}

/// The pairing of `11G` with the point `13 P` of the image of `H`.
proof fn lemma_pairing_11_13()
    ensures
        smiller_loop(g1p(32, 59), dq(60, 60)) is Some,
        spairing_at(g1p(32, 59), dq(60, 60)) == GT(gt_of(28, 39)),
{
    lemma_final_exponent();
    lemma_tangent_11_13();
    lemma_tangent_5_13();
    lemma_tangent_10_13();
    lemma_tangent_3_13();
    lemma_vertical_at(32, 42, 59, 60, 60);
    lemma_miller_at(
        g1p(32, 59),
        dq(60, 60),
        (g1p(12, 32), g1p(91, 66), g1p(26, 45), g1p(32, 42)),
        (43, 27),
        (80, 94),
        (96, 66),
        (79, 75),
        (-32, 60),
        ((9, 78, 11, 15), (54, 57, -66, -3), (71, 79, -4, 28), (87, 87, 15, 69)),
        ((0, 95, 0, 74), (46, 77, -71, 3), (69, 19, -61, -43)),
    );
    lemma_final_exp_11_13();
}

proof fn lemma_final_exp_12_13()
    ensures
        GT(gt_of(55, 35)).spow(600) == GT(gt_of(14, 44)),
{
    assert(GT::sone() == GT(gt_of(1, 0)));
    lemma_gt_mul_at((55, 35), (55, 35), (83, 100), (17, 25));
    assert(GT::spow_steps(GT(gt_of(1, 0)), GT(gt_of(55, 35)), 600) == GT::spow_steps(GT(gt_of(1, 0)), GT(gt_of(83, 100)), 300));
    lemma_gt_mul_at((83, 100), (83, 100), (20, 35), (-31, 65));
    assert(GT::spow_steps(GT(gt_of(1, 0)), GT(gt_of(83, 100)), 300) == GT::spow_steps(GT(gt_of(1, 0)), GT(gt_of(20, 35)), 150));
    lemma_gt_mul_at((20, 35), (20, 35), (84, 74), (-9, 1));
    assert(GT::spow_steps(GT(gt_of(1, 0)), GT(gt_of(20, 35)), 150) == GT::spow_steps(GT(gt_of(1, 0)), GT(gt_of(84, 74)), 75));
    lemma_gt_mul_at((1, 0), (84, 74), (84, 74), (0, 0));
    lemma_gt_mul_at((84, 74), (84, 74), (65, 88), (15, 68));
    assert(GT::spow_steps(GT(gt_of(1, 0)), GT(gt_of(84, 74)), 75) == GT::spow_steps(GT(gt_of(84, 74)), GT(gt_of(65, 88)), 37));
    lemma_gt_mul_at((84, 74), (65, 88), (59, 34), (-11, 56));
    lemma_gt_mul_at((65, 88), (65, 88), (16, 60), (-35, 36));
    assert(GT::spow_steps(GT(gt_of(84, 74)), GT(gt_of(65, 88)), 37) == GT::spow_steps(GT(gt_of(59, 34)), GT(gt_of(16, 60)), 18));
    lemma_gt_mul_at((16, 60), (16, 60), (90, 37), (-34, -17));
    assert(GT::spow_steps(GT(gt_of(59, 34)), GT(gt_of(16, 60)), 18) == GT::spow_steps(GT(gt_of(59, 34)), GT(gt_of(90, 37)), 9));
    lemma_gt_mul_at((59, 34), (90, 37), (12, 46), (40, 39));
    lemma_gt_mul_at((90, 37), (90, 37), (65, 39), (66, 52));
    assert(GT::spow_steps(GT(gt_of(59, 34)), GT(gt_of(90, 37)), 9) == GT::spow_steps(GT(gt_of(12, 46)), GT(gt_of(65, 39)), 4));
    lemma_gt_mul_at((65, 39), (65, 39), (78, 14), (26, 35));
    assert(GT::spow_steps(GT(gt_of(12, 46)), GT(gt_of(65, 39)), 4) == GT::spow_steps(GT(gt_of(12, 46)), GT(gt_of(78, 14)), 2));
    lemma_gt_mul_at((78, 14), (78, 14), (30, 69), (58, 19));
    assert(GT::spow_steps(GT(gt_of(12, 46)), GT(gt_of(78, 14)), 2) == GT::spow_steps(GT(gt_of(12, 46)), GT(gt_of(30, 69)), 1));
    lemma_gt_mul_at((12, 46), (30, 69), (14, 44), (-28, -10));
    lemma_gt_mul_at((30, 69), (30, 69), (78, 86), (-39, -7));
    assert(GT::spow_steps(GT(gt_of(12, 46)), GT(gt_of(30, 69)), 1) == GT::spow_steps(GT(gt_of(14, 44)), GT(gt_of(78, 86)), 0));
}

/// The pairing of `12G` with the point `13 P` of the image of `H`.
proof fn lemma_pairing_12_13()
    ensures
        smiller_loop(g1p(12, 69), dq(60, 60)) is Some,
        spairing_at(g1p(12, 69), dq(60, 60)) == GT(gt_of(14, 44)),
{
    lemma_final_exponent();
    lemma_tangent_12_13();
    lemma_tangent_7_13();
    lemma_tangent_14_13();
    lemma_tangent_11_13();
    lemma_vertical_at(12, 32, 69, 60, 60);
    lemma_miller_at(
        g1p(12, 69),
        dq(60, 60),
        (g1p(91, 35), g1p(26, 56), g1p(32, 59), g1p(12, 32)),
        (94, 34),
        (15, 96),
        (86, 37),
        (43, 27),
        (-12, 60),
        ((4, 85, 76, 51), (81, 64, -81, -65), (41, 10, 24, 62), (25, 88, 31, 19)),
        ((52, 90, -71, -34), (8, 16, -2, 28), (55, 35, -11, -7)),
    );
    lemma_final_exp_12_13();
}

proof fn lemma_final_exp_13_13()
    ensures
        GT(gt_of(50, 10)).spow(600) == GT(gt_of(67, 72)),
{
    assert(GT::sone() == GT(gt_of(1, 0)));
    lemma_gt_mul_at((50, 10), (50, 10), (77, 92), (23, 8));
    assert(GT::spow_steps(GT(gt_of(1, 0)), GT(gt_of(50, 10)), 600) == GT::spow_steps(GT(gt_of(1, 0)), GT(gt_of(77, 92)), 300));
    lemma_gt_mul_at((77, 92), (77, 92), (91, 48), (-26, 56));
    assert(GT::spow_steps(GT(gt_of(1, 0)), GT(gt_of(77, 92)), 300) == GT::spow_steps(GT(gt_of(1, 0)), GT(gt_of(91, 48)), 150));
    lemma_gt_mul_at((91, 48), (91, 48), (18, 69), (59, 63));
    assert(GT::spow_steps(GT(gt_of(1, 0)), GT(gt_of(91, 48)), 150) == GT::spow_steps(GT(gt_of(1, 0)), GT(gt_of(18, 69)), 75));
    lemma_gt_mul_at((1, 0), (18, 69), (18, 69), (0, 0));
    lemma_gt_mul_at((18, 69), (18, 69), (7, 46), (-44, -23));
    assert(GT::spow_steps(GT(gt_of(1, 0)), GT(gt_of(18, 69)), 75) == GT::spow_steps(GT(gt_of(18, 69)), GT(gt_of(7, 46)), 37));
    lemma_gt_mul_at((18, 69), (7, 46), (83, 56), (-31, -19));
    lemma_gt_mul_at((7, 46), (7, 46), (54, 43), (-21, -15));
    assert(GT::spow_steps(GT(gt_of(18, 69)), GT(gt_of(7, 46)), 37) == GT::spow_steps(GT(gt_of(83, 56)), GT(gt_of(54, 43)), 18));
    lemma_gt_mul_at((54, 43), (54, 43), (57, 68), (10, 27));
    assert(GT::spow_steps(GT(gt_of(83, 56)), GT(gt_of(54, 43)), 18) == GT::spow_steps(GT(gt_of(83, 56)), GT(gt_of(57, 68)), 9));
    lemma_gt_mul_at((83, 56), (57, 68), (14, 79), (9, 49));
    lemma_gt_mul_at((57, 68), (57, 68), (39, 98), (-14, 30));
    assert(GT::spow_steps(GT(gt_of(83, 56)), GT(gt_of(57, 68)), 9) == GT::spow_steps(GT(gt_of(14, 79)), GT(gt_of(39, 98)), 4));
    lemma_gt_mul_at((39, 98), (39, 98), (98, 60), (-81, -20));
    assert(GT::spow_steps(GT(gt_of(14, 79)), GT(gt_of(39, 98)), 4) == GT::spow_steps(GT(gt_of(14, 79)), GT(gt_of(98, 60)), 2));
    lemma_gt_mul_at((98, 60), (98, 60), (45, 80), (59, 80));
    assert(GT::spow_steps(GT(gt_of(14, 79)), GT(gt_of(98, 60)), 2) == GT::spow_steps(GT(gt_of(14, 79)), GT(gt_of(45, 80)), 1));
    lemma_gt_mul_at((14, 79), (45, 80), (67, 72), (-57, -17));
    lemma_gt_mul_at((45, 80), (45, 80), (69, 93), (-44, 7));
    assert(GT::spow_steps(GT(gt_of(14, 79)), GT(gt_of(45, 80)), 1) == GT::spow_steps(GT(gt_of(67, 72)), GT(gt_of(69, 93)), 0));
}

/// The pairing of `13G` with the point `13 P` of the image of `H`.
proof fn lemma_pairing_13_13()
    ensures
        smiller_loop(g1p(65, 3), dq(60, 60)) is Some,
        spairing_at(g1p(65, 3), dq(60, 60)) == GT(gt_of(67, 72)),
{
    lemma_final_exponent();
    lemma_tangent_13_13();
    lemma_tangent_9_13();
    lemma_tangent_1_13();
    lemma_tangent_2_13();
    lemma_vertical_at(65, 98, 3, 60, 60);
    lemma_miller_at(
        g1p(65, 3),
        dq(60, 60),
        (g1p(18, 52), g1p(1, 2), g1p(68, 74), g1p(65, 98)),
        (3, 89),
        (58, 33),
        (74, 9),
        (60, 24),
        (-65, 60),
        ((67, 87, -79, -74), (5, 43, 10, 43), (95, 96, -19, -15), (5, 25, 61, 70)),
        ((6, 29, -6, -4), (68, 77, -4, 11), (50, 10, -90, -55)),
    );
    lemma_final_exp_13_13();
}

proof fn lemma_final_exp_14_13()
    ensures
        GT(gt_of(26, 40)).spow(600) == GT(gt_of(15, 55)),
{
    assert(GT::sone() == GT(gt_of(1, 0)));
    lemma_gt_mul_at((26, 40), (26, 40), (86, 76), (-10, 4));
    assert(GT::spow_steps(GT(gt_of(1, 0)), GT(gt_of(26, 40)), 600) == GT::spow_steps(GT(gt_of(1, 0)), GT(gt_of(86, 76)), 300));
    lemma_gt_mul_at((86, 76), (86, 76), (4, 24), (16, 72));
    assert(GT::spow_steps(GT(gt_of(1, 0)), GT(gt_of(86, 76)), 300) == GT::spow_steps(GT(gt_of(1, 0)), GT(gt_of(4, 24)), 150));
    lemma_gt_mul_at((4, 24), (4, 24), (46, 20), (-6, -4));
    assert(GT::spow_steps(GT(gt_of(1, 0)), GT(gt_of(4, 24)), 150) == GT::spow_steps(GT(gt_of(1, 0)), GT(gt_of(46, 20)), 75));
    lemma_gt_mul_at((1, 0), (46, 20), (46, 20), (0, 0));
    lemma_gt_mul_at((46, 20), (46, 20), (100, 26), (16, 14));
    assert(GT::spow_steps(GT(gt_of(1, 0)), GT(gt_of(46, 20)), 75) == GT::spow_steps(GT(gt_of(46, 20)), GT(gt_of(100, 26)), 37));
    lemma_gt_mul_at((46, 20), (100, 26), (40, 50), (40, 26));
    lemma_gt_mul_at((100, 26), (100, 26), (32, 80), (92, 44));
    assert(GT::spow_steps(GT(gt_of(46, 20)), GT(gt_of(100, 26)), 37) == GT::spow_steps(GT(gt_of(40, 50)), GT(gt_of(32, 80)), 18));
    lemma_gt_mul_at((32, 80), (32, 80), (78, 33), (-54, -13));
    assert(GT::spow_steps(GT(gt_of(40, 50)), GT(gt_of(32, 80)), 18) == GT::spow_steps(GT(gt_of(40, 50)), GT(gt_of(78, 33)), 9));
    lemma_gt_mul_at((40, 50), (78, 33), (56, 35), (14, 35));
    lemma_gt_mul_at((78, 33), (78, 33), (46, 19), (49, 40));
    assert(GT::spow_steps(GT(gt_of(40, 50)), GT(gt_of(78, 33)), 9) == GT::spow_steps(GT(gt_of(56, 35)), GT(gt_of(46, 19)), 4));
    lemma_gt_mul_at((46, 19), (46, 19), (38, 74), (17, 13));
    assert(GT::spow_steps(GT(gt_of(56, 35)), GT(gt_of(46, 19)), 4) == GT::spow_steps(GT(gt_of(56, 35)), GT(gt_of(38, 74)), 2));
    lemma_gt_mul_at((38, 74), (38, 74), (8, 47), (-40, 1));
    assert(GT::spow_steps(GT(gt_of(56, 35)), GT(gt_of(38, 74)), 2) == GT::spow_steps(GT(gt_of(56, 35)), GT(gt_of(8, 47)), 1));
    lemma_gt_mul_at((56, 35), (8, 47), (15, 55), (-12, 12));
    lemma_gt_mul_at((8, 47), (8, 47), (77, 58), (-22, -15));
    assert(GT::spow_steps(GT(gt_of(56, 35)), GT(gt_of(8, 47)), 1) == GT::spow_steps(GT(gt_of(15, 55)), GT(gt_of(77, 58)), 0));
}

/// The pairing of `14G` with the point `13 P` of the image of `H`.
proof fn lemma_pairing_14_13()
    ensures
        smiller_loop(g1p(26, 56), dq(60, 60)) is Some,
        spairing_at(g1p(26, 56), dq(60, 60)) == GT(gt_of(15, 55)),
{
    lemma_final_exponent();
    lemma_tangent_14_13();
    lemma_tangent_11_13();
    lemma_tangent_5_13();
    lemma_tangent_10_13();
    lemma_vertical_at(26, 45, 56, 60, 60);
    lemma_miller_at(
        g1p(26, 56),
        dq(60, 60),
        (g1p(32, 59), g1p(12, 32), g1p(91, 66), g1p(26, 45)),
        (86, 37),
        (43, 27),
        (80, 94),
        (96, 66),
        (-26, 60),
        ((68, 46, 59, 49), (66, 47, 16, 25), (26, 56, 21, 39), (48, 44, -32, 16)),
        ((65, 66, 3, 22), (66, 8, 18, 62), (26, 40, -22, 32)),
    );
    lemma_final_exp_14_13();
}

proof fn lemma_final_exp_15_13()
    ensures
        GT(gt_of(42, 99)).spow(600) == GT(gt_of(42, 92)),
{
    assert(GT::sone() == GT(gt_of(1, 0)));
    lemma_gt_mul_at((42, 99), (42, 99), (43, 30), (-80, -15));
    assert(GT::spow_steps(GT(gt_of(1, 0)), GT(gt_of(42, 99)), 600) == GT::spow_steps(GT(gt_of(1, 0)), GT(gt_of(43, 30)), 300));
    lemma_gt_mul_at((43, 30), (43, 30), (40, 64), (9, 16));
    assert(GT::spow_steps(GT(gt_of(1, 0)), GT(gt_of(43, 30)), 300) == GT::spow_steps(GT(gt_of(1, 0)), GT(gt_of(40, 64)), 150));
    lemma_gt_mul_at((40, 64), (40, 64), (29, 14), (-25, 10));
    assert(GT::spow_steps(GT(gt_of(1, 0)), GT(gt_of(40, 64)), 150) == GT::spow_steps(GT(gt_of(1, 0)), GT(gt_of(29, 14)), 75));
    lemma_gt_mul_at((1, 0), (29, 14), (29, 14), (0, 0));
    lemma_gt_mul_at((29, 14), (29, 14), (39, 10), (6, 6));
    assert(GT::spow_steps(GT(gt_of(1, 0)), GT(gt_of(29, 14)), 75) == GT::spow_steps(GT(gt_of(29, 14)), GT(gt_of(39, 10)), 37));
    lemma_gt_mul_at((29, 14), (39, 10), (82, 90), (9, 6));
    lemma_gt_mul_at((39, 10), (39, 10), (7, 74), (14, 6));
    assert(GT::spow_steps(GT(gt_of(29, 14)), GT(gt_of(39, 10)), 37) == GT::spow_steps(GT(gt_of(82, 90)), GT(gt_of(7, 74)), 18));
    lemma_gt_mul_at((7, 74), (7, 74), (27, 4), (-54, -44));
    assert(GT::spow_steps(GT(gt_of(82, 90)), GT(gt_of(7, 74)), 18) == GT::spow_steps(GT(gt_of(82, 90)), GT(gt_of(27, 4)), 9));
    lemma_gt_mul_at((82, 90), (27, 4), (36, 75), (18, 23));
    lemma_gt_mul_at((27, 4), (27, 4), (6, 99), (7, 1));
    assert(GT::spow_steps(GT(gt_of(82, 90)), GT(gt_of(27, 4)), 9) == GT::spow_steps(GT(gt_of(36, 75)), GT(gt_of(6, 99)), 4));
    lemma_gt_mul_at((6, 99), (6, 99), (32, 73), (-97, -86));
    assert(GT::spow_steps(GT(gt_of(36, 75)), GT(gt_of(6, 99)), 4) == GT::spow_steps(GT(gt_of(36, 75)), GT(gt_of(32, 73)), 2));
    lemma_gt_mul_at((32, 73), (32, 73), (38, 50), (-43, -7));
    assert(GT::spow_steps(GT(gt_of(36, 75)), GT(gt_of(32, 73)), 2) == GT::spow_steps(GT(gt_of(36, 75)), GT(gt_of(38, 50)), 1));
    lemma_gt_mul_at((36, 75), (38, 50), (42, 92), (-24, 8));
    lemma_gt_mul_at((38, 50), (38, 50), (55, 88), (-11, 12));
    assert(GT::spow_steps(GT(gt_of(36, 75)), GT(gt_of(38, 50)), 1) == GT::spow_steps(GT(gt_of(42, 92)), GT(gt_of(55, 88)), 0));
}

/// The pairing of `15G` with the point `13 P` of the image of `H`.
proof fn lemma_pairing_15_13()
    ensures
        smiller_loop(g1p(68, 27), dq(60, 60)) is Some,
        spairing_at(g1p(68, 27), dq(60, 60)) == GT(gt_of(42, 92)),
{
    lemma_final_exponent();
    lemma_tangent_15_13();
    lemma_tangent_13_13();
    lemma_tangent_9_13();
    lemma_tangent_1_13();
    lemma_vertical_at(68, 74, 27, 60, 60);
    lemma_miller_at(
        g1p(68, 27),
        dq(60, 60),
        (g1p(65, 3), g1p(18, 52), g1p(1, 2), g1p(68, 74)),
        (24, 85),
        (3, 89),
        (58, 33),
        (74, 9),
        (-68, 60),
        ((17, 87, -66, -32), (85, 91, -77, -60), (55, 18, -11, 71), (71, 43, 25, 22)),
        ((61, 15, 31, 42), (36, 9, 43, 15), (42, 99, -30, 9)),
    );
    lemma_final_exp_15_13();
}

proof fn lemma_final_exp_16_13()
    ensures
        GT(gt_of(60, 81)).spow(600) == GT(gt_of(68, 21)),
{
    assert(GT::sone() == GT(gt_of(1, 0)));
    lemma_gt_mul_at((60, 81), (60, 81), (69, 28), (-30, 31));
    assert(GT::spow_steps(GT(gt_of(1, 0)), GT(gt_of(60, 81)), 600) == GT::spow_steps(GT(gt_of(1, 0)), GT(gt_of(69, 28)), 300));
    lemma_gt_mul_at((69, 28), (69, 28), (38, 50), (39, 30));
    assert(GT::spow_steps(GT(gt_of(1, 0)), GT(gt_of(69, 28)), 300) == GT::spow_steps(GT(gt_of(1, 0)), GT(gt_of(38, 50)), 150));
    lemma_gt_mul_at((38, 50), (38, 50), (55, 88), (-11, 12));
    assert(GT::spow_steps(GT(gt_of(1, 0)), GT(gt_of(38, 50)), 150) == GT::spow_steps(GT(gt_of(1, 0)), GT(gt_of(55, 88)), 75));
    lemma_gt_mul_at((1, 0), (55, 88), (55, 88), (0, 0));
    lemma_gt_mul_at((55, 88), (55, 88), (28, 17), (-47, 19));
    assert(GT::spow_steps(GT(gt_of(1, 0)), GT(gt_of(55, 88)), 75) == GT::spow_steps(GT(gt_of(55, 88)), GT(gt_of(28, 17)), 37));
    lemma_gt_mul_at((55, 88), (28, 17), (44, 85), (0, 18));
    lemma_gt_mul_at((28, 17), (28, 17), (91, 57), (4, 6));
    assert(GT::spow_steps(GT(gt_of(55, 88)), GT(gt_of(28, 17)), 37) == GT::spow_steps(GT(gt_of(44, 85)), GT(gt_of(91, 57)), 18));
    lemma_gt_mul_at((91, 57), (91, 57), (83, 55), (49, 70));
    assert(GT::spow_steps(GT(gt_of(44, 85)), GT(gt_of(91, 57)), 18) == GT::spow_steps(GT(gt_of(44, 85)), GT(gt_of(83, 55)), 9));
    lemma_gt_mul_at((44, 85), (83, 55), (88, 53), (-11, 47));
    lemma_gt_mul_at((83, 55), (83, 55), (26, 45), (38, 60));
    assert(GT::spow_steps(GT(gt_of(44, 85)), GT(gt_of(83, 55)), 9) == GT::spow_steps(GT(gt_of(88, 53)), GT(gt_of(26, 45)), 4));
    lemma_gt_mul_at((26, 45), (26, 45), (65, 12), (-14, 3));
    assert(GT::spow_steps(GT(gt_of(88, 53)), GT(gt_of(26, 45)), 4) == GT::spow_steps(GT(gt_of(88, 53)), GT(gt_of(65, 12)), 2));
    lemma_gt_mul_at((65, 12), (65, 12), (41, 2), (40, 14));
    assert(GT::spow_steps(GT(gt_of(88, 53)), GT(gt_of(65, 12)), 2) == GT::spow_steps(GT(gt_of(88, 53)), GT(gt_of(41, 2)), 1));
    lemma_gt_mul_at((88, 53), (41, 2), (68, 21), (34, 22));
    lemma_gt_mul_at((41, 2), (41, 2), (61, 59), (16, 1));
    assert(GT::spow_steps(GT(gt_of(88, 53)), GT(gt_of(41, 2)), 1) == GT::spow_steps(GT(gt_of(68, 21)), GT(gt_of(61, 59)), 0));
}

/// The pairing of `16G` with the point `13 P` of the image of `H`.
proof fn lemma_pairing_16_13()
    ensures
        smiller_loop(g1p(1, 99), dq(60, 60)) is Some,
        spairing_at(g1p(1, 99), dq(60, 60)) == GT(gt_of(68, 21)),
{
    lemma_final_exponent();
    lemma_tangent_16_13();
    lemma_tangent_15_13();
    lemma_tangent_13_13();
    lemma_tangent_9_13();
    lemma_vertical_at(1, 2, 99, 60, 60);
    lemma_miller_at(
        g1p(1, 99),
        dq(60, 60),
        (g1p(68, 27), g1p(65, 3), g1p(18, 52), g1p(1, 2)),
        (5, 88),
        (24, 85),
        (3, 89),
        (58, 33),
        (-1, 60),
        ((58, 4, -77, -68), (42, 40, 10, 46), (63, 43, 1, 17), (99, 91, -37, 18)),
        ((5, 41, 15, 96), (48, 79, -11, 11), (60, 81, -48, -20)),
    );
    lemma_final_exp_16_13();
}

proof fn lemma_final_exp_1_14()
    ensures
        GT(gt_of(1, 16)).spow(600) == GT(gt_of(71, 57)),
{
    assert(GT::sone() == GT(gt_of(1, 0)));
    lemma_gt_mul_at((1, 16), (1, 16), (48, 79), (-3, -3));
    assert(GT::spow_steps(GT(gt_of(1, 0)), GT(gt_of(1, 16)), 600) == GT::spow_steps(GT(gt_of(1, 0)), GT(gt_of(48, 79)), 300));
    lemma_gt_mul_at((48, 79), (48, 79), (2, 30), (-39, 13));
    assert(GT::spow_steps(GT(gt_of(1, 0)), GT(gt_of(48, 79)), 300) == GT::spow_steps(GT(gt_of(1, 0)), GT(gt_of(2, 30)), 150));
    lemma_gt_mul_at((2, 30), (2, 30), (13, 28), (-9, -8));
    assert(GT::spow_steps(GT(gt_of(1, 0)), GT(gt_of(2, 30)), 150) == GT::spow_steps(GT(gt_of(1, 0)), GT(gt_of(13, 28)), 75));
    lemma_gt_mul_at((1, 0), (13, 28), (13, 28), (0, 0));
    lemma_gt_mul_at((13, 28), (13, 28), (92, 45), (-7, -1));
    assert(GT::spow_steps(GT(gt_of(1, 0)), GT(gt_of(13, 28)), 75) == GT::spow_steps(GT(gt_of(13, 28)), GT(gt_of(92, 45)), 37));
    lemma_gt_mul_at((13, 28), (92, 45), (37, 83), (-1, 18));
    lemma_gt_mul_at((92, 45), (92, 45), (76, 94), (63, 61));
    assert(GT::spow_steps(GT(gt_of(13, 28)), GT(gt_of(92, 45)), 37) == GT::spow_steps(GT(gt_of(37, 83)), GT(gt_of(76, 94)), 18));
    lemma_gt_mul_at((76, 94), (76, 94), (71, 99), (-31, 53));
    assert(GT::spow_steps(GT(gt_of(37, 83)), GT(gt_of(76, 94)), 18) == GT::spow_steps(GT(gt_of(37, 83)), GT(gt_of(71, 99)), 9));
    lemma_gt_mul_at((37, 83), (71, 99), (66, 26), (-56, 13));
    lemma_gt_mul_at((71, 99), (71, 99), (88, 15), (-48, 42));
    assert(GT::spow_steps(GT(gt_of(37, 83)), GT(gt_of(71, 99)), 9) == GT::spow_steps(GT(gt_of(66, 26)), GT(gt_of(88, 15)), 4));
    lemma_gt_mul_at((88, 15), (88, 15), (45, 92), (74, 23));
    assert(GT::spow_steps(GT(gt_of(66, 26)), GT(gt_of(88, 15)), 4) == GT::spow_steps(GT(gt_of(66, 26)), GT(gt_of(45, 92)), 2));
    lemma_gt_mul_at((45, 92), (45, 92), (25, 18), (-64, -2));
    assert(GT::spow_steps(GT(gt_of(66, 26)), GT(gt_of(45, 92)), 2) == GT::spow_steps(GT(gt_of(66, 26)), GT(gt_of(25, 18)), 1));
    lemma_gt_mul_at((66, 26), (25, 18), (71, 57), (11, 13));
    lemma_gt_mul_at((25, 18), (25, 18), (99, 71), (2, 5));
    assert(GT::spow_steps(GT(gt_of(66, 26)), GT(gt_of(25, 18)), 1) == GT::spow_steps(GT(gt_of(71, 57)), GT(gt_of(99, 71)), 0));
}

/// The pairing of `1G` with the point `14 P` of the image of `H`.
proof fn lemma_pairing_1_14()
    ensures
        smiller_loop(g1p(1, 2), dq(32, 42)) is Some,
        spairing_at(g1p(1, 2), dq(32, 42)) == GT(gt_of(71, 57)),
{
    lemma_final_exponent();
    lemma_tangent_1_14();
    lemma_tangent_2_14();
    lemma_tangent_4_14();
    lemma_tangent_8_14();
    lemma_vertical_at(1, 99, 2, 32, 42);
    lemma_miller_at(
        g1p(1, 2),
        dq(32, 42),
        (g1p(68, 74), g1p(65, 98), g1p(18, 49), g1p(1, 99)),
        (13, 65),
        (34, 10),
        (41, 64),
        (23, 5),
        (-1, 32),
        ((85, 91, -41, -26), (61, 4, 19, 30), (69, 68, 36, 4), (93, 24, -16, 28)),
        ((94, 50, 79, 38), (94, 57, 18, 13), (1, 16, -19, 11)),
    );
    lemma_final_exp_1_14();
}

proof fn lemma_final_exp_2_14()
    ensures
        GT(gt_of(9, 59)).spow(600) == GT(gt_of(75, 98)),
{
    assert(GT::sone() == GT(gt_of(1, 0)));
    lemma_gt_mul_at((9, 59), (9, 59), (34, 5), (-34, -24));
    assert(GT::spow_steps(GT(gt_of(1, 0)), GT(gt_of(9, 59)), 600) == GT::spow_steps(GT(gt_of(1, 0)), GT(gt_of(34, 5)), 300));
    lemma_gt_mul_at((34, 5), (34, 5), (20, 12), (11, 3));
    assert(GT::spow_steps(GT(gt_of(1, 0)), GT(gt_of(34, 5)), 300) == GT::spow_steps(GT(gt_of(1, 0)), GT(gt_of(20, 12)), 150));
    lemma_gt_mul_at((20, 12), (20, 12), (54, 33), (2, 3));
    assert(GT::spow_steps(GT(gt_of(1, 0)), GT(gt_of(20, 12)), 150) == GT::spow_steps(GT(gt_of(1, 0)), GT(gt_of(54, 33)), 75));
    lemma_gt_mul_at((1, 0), (54, 33), (54, 33), (0, 0));
    lemma_gt_mul_at((54, 33), (54, 33), (9, 51), (18, 24));
    assert(GT::spow_steps(GT(gt_of(1, 0)), GT(gt_of(54, 33)), 75) == GT::spow_steps(GT(gt_of(54, 33)), GT(gt_of(9, 51)), 37));
    lemma_gt_mul_at((54, 33), (9, 51), (15, 55), (-12, 13));
    lemma_gt_mul_at((9, 51), (9, 51), (5, 34), (-25, -17));
    assert(GT::spow_steps(GT(gt_of(54, 33)), GT(gt_of(9, 51)), 37) == GT::spow_steps(GT(gt_of(15, 55)), GT(gt_of(5, 34)), 18));
    lemma_gt_mul_at((5, 34), (5, 34), (81, 93), (-12, -9));
    assert(GT::spow_steps(GT(gt_of(15, 55)), GT(gt_of(5, 34)), 18) == GT::spow_steps(GT(gt_of(15, 55)), GT(gt_of(81, 93)), 9));
    lemma_gt_mul_at((15, 55), (81, 93), (39, 28), (-39, 7));
    lemma_gt_mul_at((81, 93), (81, 93), (33, 54), (-21, 63));
    assert(GT::spow_steps(GT(gt_of(15, 55)), GT(gt_of(81, 93)), 9) == GT::spow_steps(GT(gt_of(39, 28)), GT(gt_of(33, 54)), 4));
    lemma_gt_mul_at((33, 54), (33, 54), (92, 42), (-19, 6));
    assert(GT::spow_steps(GT(gt_of(39, 28)), GT(gt_of(33, 54)), 4) == GT::spow_steps(GT(gt_of(39, 28)), GT(gt_of(92, 42)), 2));
    lemma_gt_mul_at((92, 42), (92, 42), (34, 5), (66, 59));
    assert(GT::spow_steps(GT(gt_of(39, 28)), GT(gt_of(92, 42)), 2) == GT::spow_steps(GT(gt_of(39, 28)), GT(gt_of(34, 5)), 1));
    lemma_gt_mul_at((39, 28), (34, 5), (75, 98), (11, 9));
    lemma_gt_mul_at((34, 5), (34, 5), (20, 12), (11, 3));
    assert(GT::spow_steps(GT(gt_of(39, 28)), GT(gt_of(34, 5)), 1) == GT::spow_steps(GT(gt_of(75, 98)), GT(gt_of(20, 12)), 0));
}

/// The pairing of `2G` with the point `14 P` of the image of `H`.
proof fn lemma_pairing_2_14()
    ensures
        smiller_loop(g1p(68, 74), dq(32, 42)) is Some,
        spairing_at(g1p(68, 74), dq(32, 42)) == GT(gt_of(75, 98)),
{
    lemma_final_exponent();
    lemma_tangent_2_14();
    lemma_tangent_4_14();
    lemma_tangent_8_14();
    lemma_tangent_16_14();
    lemma_vertical_at(68, 27, 74, 32, 42);
    lemma_miller_at(
        g1p(68, 74),
        dq(32, 42),
        (g1p(65, 98), g1p(18, 49), g1p(1, 99), g1p(68, 27)),
        (34, 10),
        (41, 64),
        (23, 5),
        (64, 97),
        (-68, 32),
        ((46, 75, 10, 5), (15, 7, -29, 12), (75, 60, 1, 1), (11, 41, 14, 14)),
        ((56, 29, -16, -8), (64, 31, 7, 44), (9, 59, -53, -11)),
    );
    lemma_final_exp_2_14();
}

proof fn lemma_final_exp_3_14()
    ensures
        GT(gt_of(98, 8)).spow(600) == GT(gt_of(42, 92)),
{
    assert(GT::sone() == GT(gt_of(1, 0)));
    lemma_gt_mul_at((98, 8), (98, 8), (46, 90), (94, 14));
    assert(GT::spow_steps(GT(gt_of(1, 0)), GT(gt_of(98, 8)), 600) == GT::spow_steps(GT(gt_of(1, 0)), GT(gt_of(46, 90)), 300));
    lemma_gt_mul_at((46, 90), (46, 90), (76, 79), (-60, 1));
    assert(GT::spow_steps(GT(gt_of(1, 0)), GT(gt_of(46, 90)), 300) == GT::spow_steps(GT(gt_of(1, 0)), GT(gt_of(76, 79)), 150));
    lemma_gt_mul_at((76, 79), (76, 79), (40, 10), (-5, 57));
    assert(GT::spow_steps(GT(gt_of(1, 0)), GT(gt_of(76, 79)), 150) == GT::spow_steps(GT(gt_of(1, 0)), GT(gt_of(40, 10)), 75));
    lemma_gt_mul_at((1, 0), (40, 10), (40, 10), (0, 0));
    lemma_gt_mul_at((40, 10), (40, 10), (86, 94), (14, 6));
    assert(GT::spow_steps(GT(gt_of(1, 0)), GT(gt_of(40, 10)), 75) == GT::spow_steps(GT(gt_of(40, 10)), GT(gt_of(86, 94)), 37));
    lemma_gt_mul_at((40, 10), (86, 94), (76, 44), (24, 36));
    lemma_gt_mul_at((86, 94), (86, 94), (75, 60), (-15, 72));
    assert(GT::spow_steps(GT(gt_of(40, 10)), GT(gt_of(86, 94)), 37) == GT::spow_steps(GT(gt_of(76, 44)), GT(gt_of(75, 60)), 18));
    lemma_gt_mul_at((75, 60), (75, 60), (5, 47), (20, 53));
    assert(GT::spow_steps(GT(gt_of(76, 44)), GT(gt_of(75, 60)), 18) == GT::spow_steps(GT(gt_of(76, 44)), GT(gt_of(5, 47)), 9));
    lemma_gt_mul_at((76, 44), (5, 47), (29, 7), (-17, 17));
    lemma_gt_mul_at((5, 47), (5, 47), (38, 79), (-22, -18));
    assert(GT::spow_steps(GT(gt_of(76, 44)), GT(gt_of(5, 47)), 9) == GT::spow_steps(GT(gt_of(29, 7)), GT(gt_of(38, 79)), 4));
    lemma_gt_mul_at((38, 79), (38, 79), (51, 66), (-48, -3));
    assert(GT::spow_steps(GT(gt_of(29, 7)), GT(gt_of(38, 79)), 4) == GT::spow_steps(GT(gt_of(29, 7)), GT(gt_of(51, 66)), 2));
    lemma_gt_mul_at((51, 66), (51, 66), (63, 53), (-18, 23));
    assert(GT::spow_steps(GT(gt_of(29, 7)), GT(gt_of(51, 66)), 2) == GT::spow_steps(GT(gt_of(29, 7)), GT(gt_of(63, 53)), 1));
    lemma_gt_mul_at((29, 7), (63, 53), (42, 92), (14, 15));
    lemma_gt_mul_at((63, 53), (63, 53), (49, 31), (11, 38));
    assert(GT::spow_steps(GT(gt_of(29, 7)), GT(gt_of(63, 53)), 1) == GT::spow_steps(GT(gt_of(42, 92)), GT(gt_of(49, 31)), 0));
}

/// The pairing of `3G` with the point `14 P` of the image of `H`.
proof fn lemma_pairing_3_14()
    ensures
        smiller_loop(g1p(26, 45), dq(32, 42)) is Some,
        spairing_at(g1p(26, 45), dq(32, 42)) == GT(gt_of(42, 92)),
{
    lemma_final_exponent();
    lemma_tangent_3_14();
    lemma_tangent_6_14();
    lemma_tangent_12_14();
    lemma_tangent_7_14();
    lemma_vertical_at(26, 56, 45, 32, 42);
    lemma_miller_at(
        g1p(26, 45),
        dq(32, 42),
        (g1p(32, 42), g1p(12, 69), g1p(91, 35), g1p(26, 56)),
        (38, 37),
        (19, 5),
        (1, 10),
        (35, 57),
        (-26, 32),
        ((75, 29, 0, 14), (68, 74, 12, 7), (57, 43, -9, 45), (31, 82, -4, 1)),
        ((95, 77, -58, -17), (47, 85, -11, 36), (98, 8, -40, -34)),
    );
    lemma_final_exp_3_14();
}

proof fn lemma_final_exp_4_14()
    ensures
        GT(gt_of(96, 73)).spow(600) == GT(gt_of(61, 46)),
{
    assert(GT::sone() == GT(gt_of(1, 0)));
    lemma_gt_mul_at((96, 73), (96, 73), (49, 1), (38, 86));
    assert(GT::spow_steps(GT(gt_of(1, 0)), GT(gt_of(96, 73)), 600) == GT::spow_steps(GT(gt_of(1, 0)), GT(gt_of(49, 1)), 300));
    lemma_gt_mul_at((49, 1), (49, 1), (77, 97), (23, 0));
    assert(GT::spow_steps(GT(gt_of(1, 0)), GT(gt_of(49, 1)), 300) == GT::spow_steps(GT(gt_of(1, 0)), GT(gt_of(77, 97)), 150));
    lemma_gt_mul_at((77, 97), (77, 97), (55, 75), (-35, 54));
    assert(GT::spow_steps(GT(gt_of(1, 0)), GT(gt_of(77, 97)), 150) == GT::spow_steps(GT(gt_of(1, 0)), GT(gt_of(55, 75)), 75));
    lemma_gt_mul_at((1, 0), (55, 75), (55, 75), (0, 0));
    lemma_gt_mul_at((55, 75), (55, 75), (26, 100), (-26, 25));
    assert(GT::spow_steps(GT(gt_of(1, 0)), GT(gt_of(55, 75)), 75) == GT::spow_steps(GT(gt_of(55, 75)), GT(gt_of(26, 100)), 37));
    lemma_gt_mul_at((55, 75), (26, 100), (91, 51), (-61, -1));
    lemma_gt_mul_at((26, 100), (26, 100), (69, 48), (-93, -48));
    assert(GT::spow_steps(GT(gt_of(55, 75)), GT(gt_of(26, 100)), 37) == GT::spow_steps(GT(gt_of(91, 51)), GT(gt_of(69, 48)), 18));
    lemma_gt_mul_at((69, 48), (69, 48), (33, 78), (24, 42));
    assert(GT::spow_steps(GT(gt_of(91, 51)), GT(gt_of(69, 48)), 18) == GT::spow_steps(GT(gt_of(91, 51)), GT(gt_of(33, 78)), 9));
    lemma_gt_mul_at((91, 51), (33, 78), (35, 56), (-10, 47));
    lemma_gt_mul_at((33, 78), (33, 78), (55, 74), (-50, -10));
    assert(GT::spow_steps(GT(gt_of(91, 51)), GT(gt_of(33, 78)), 9) == GT::spow_steps(GT(gt_of(35, 56)), GT(gt_of(55, 74)), 4));
    lemma_gt_mul_at((55, 74), (55, 74), (74, 38), (-25, 26));
    assert(GT::spow_steps(GT(gt_of(35, 56)), GT(gt_of(55, 74)), 4) == GT::spow_steps(GT(gt_of(35, 56)), GT(gt_of(74, 38)), 2));
    lemma_gt_mul_at((74, 38), (74, 38), (93, 39), (39, 41));
    assert(GT::spow_steps(GT(gt_of(35, 56)), GT(gt_of(74, 38)), 2) == GT::spow_steps(GT(gt_of(35, 56)), GT(gt_of(93, 39)), 1));
    lemma_gt_mul_at((35, 56), (93, 39), (61, 46), (10, 43));
    lemma_gt_mul_at((93, 39), (93, 39), (58, 77), (70, 56));
    assert(GT::spow_steps(GT(gt_of(35, 56)), GT(gt_of(93, 39)), 1) == GT::spow_steps(GT(gt_of(61, 46)), GT(gt_of(58, 77)), 0));
}

/// The pairing of `4G` with the point `14 P` of the image of `H`.
proof fn lemma_pairing_4_14()
    ensures
        smiller_loop(g1p(65, 98), dq(32, 42)) is Some,
        spairing_at(g1p(65, 98), dq(32, 42)) == GT(gt_of(61, 46)),
{
    lemma_final_exponent();
    lemma_tangent_4_14();
    lemma_tangent_8_14();
    lemma_tangent_16_14();
    lemma_tangent_15_14();
    lemma_vertical_at(65, 3, 98, 32, 42);
    lemma_miller_at(
        g1p(65, 98),
        dq(32, 42),
        (g1p(18, 49), g1p(1, 99), g1p(68, 27), g1p(65, 3)),
        (41, 64),
        (23, 5),
        (64, 97),
        (41, 97),
        (-65, 32),
        ((9, 41, -24, 11), (2, 76, 0, 7), (86, 83, -58, -55), (79, 48, -26, 55)),
        ((99, 28, 38, 52), (30, 56, 13, 79), (96, 73, -38, -45)),
    );
    lemma_final_exp_4_14();
}

proof fn lemma_final_exp_5_14()
    ensures
        GT(gt_of(73, 53)).spow(600) == GT(gt_of(93, 81)),
{
    assert(GT::sone() == GT(gt_of(1, 0)));
    lemma_gt_mul_at((73, 53), (73, 53), (96, 81), (24, 48));
    assert(GT::spow_steps(GT(gt_of(1, 0)), GT(gt_of(73, 53)), 600) == GT::spow_steps(GT(gt_of(1, 0)), GT(gt_of(96, 81)), 300));
    lemma_gt_mul_at((96, 81), (96, 81), (29, 2), (26, 89));
    assert(GT::spow_steps(GT(gt_of(1, 0)), GT(gt_of(96, 81)), 300) == GT::spow_steps(GT(gt_of(1, 0)), GT(gt_of(29, 2)), 150));
    lemma_gt_mul_at((29, 2), (29, 2), (29, 11), (8, 1));
    assert(GT::spow_steps(GT(gt_of(1, 0)), GT(gt_of(29, 2)), 150) == GT::spow_steps(GT(gt_of(1, 0)), GT(gt_of(29, 11)), 75));
    lemma_gt_mul_at((1, 0), (29, 11), (29, 11), (0, 0));
    lemma_gt_mul_at((29, 11), (29, 11), (13, 12), (7, 5));
    assert(GT::spow_steps(GT(gt_of(1, 0)), GT(gt_of(29, 11)), 75) == GT::spow_steps(GT(gt_of(29, 11)), GT(gt_of(13, 12)), 37));
    lemma_gt_mul_at((29, 11), (13, 12), (43, 56), (2, 3));
    lemma_gt_mul_at((13, 12), (13, 12), (25, 67), (0, 1));
    assert(GT::spow_steps(GT(gt_of(29, 11)), GT(gt_of(13, 12)), 37) == GT::spow_steps(GT(gt_of(43, 56)), GT(gt_of(25, 67)), 18));
    lemma_gt_mul_at((25, 67), (25, 67), (75, 73), (-39, -12));
    assert(GT::spow_steps(GT(gt_of(43, 56)), GT(gt_of(25, 67)), 18) == GT::spow_steps(GT(gt_of(43, 56)), GT(gt_of(75, 73)), 9));
    lemma_gt_mul_at((43, 56), (75, 73), (46, 19), (-9, 32));
    lemma_gt_mul_at((75, 73), (75, 73), (94, 66), (2, 55));
    assert(GT::spow_steps(GT(gt_of(43, 56)), GT(gt_of(75, 73)), 9) == GT::spow_steps(GT(gt_of(46, 19)), GT(gt_of(94, 66)), 4));
    lemma_gt_mul_at((94, 66), (94, 66), (36, 73), (44, 79));
    assert(GT::spow_steps(GT(gt_of(46, 19)), GT(gt_of(94, 66)), 4) == GT::spow_steps(GT(gt_of(46, 19)), GT(gt_of(36, 73)), 2));
    lemma_gt_mul_at((36, 73), (36, 73), (7, 28), (-40, -1));
    assert(GT::spow_steps(GT(gt_of(46, 19)), GT(gt_of(36, 73)), 2) == GT::spow_steps(GT(gt_of(46, 19)), GT(gt_of(7, 28)), 1));
    lemma_gt_mul_at((46, 19), (7, 28), (93, 81), (-3, 8));
    lemma_gt_mul_at((7, 28), (7, 28), (73, 12), (-8, -4));
    assert(GT::spow_steps(GT(gt_of(46, 19)), GT(gt_of(7, 28)), 1) == GT::spow_steps(GT(gt_of(93, 81)), GT(gt_of(73, 12)), 0));
}

/// The pairing of `5G` with the point `14 P` of the image of `H`.
proof fn lemma_pairing_5_14()
    ensures
        smiller_loop(g1p(12, 32), dq(32, 42)) is Some,
        spairing_at(g1p(12, 32), dq(32, 42)) == GT(gt_of(93, 81)),
{
    lemma_final_exponent();
    lemma_tangent_5_14();
    lemma_tangent_10_14();
    lemma_tangent_3_14();
    lemma_tangent_6_14();
    lemma_vertical_at(12, 69, 32, 32, 42);
    lemma_miller_at(
        g1p(12, 32),
        dq(32, 42),
        (g1p(91, 66), g1p(26, 45), g1p(32, 42), g1p(12, 69)),
        (57, 56),
        (77, 64),
        (38, 37),
        (19, 5),
        (-12, 32),
        ((12, 16, 1, 32), (1, 67, -1, 9), (57, 89, -45, -44), (85, 77, -12, 21)),
        ((84, 91, 12, 70), (30, 78, 11, 16), (73, 53, -29, -25)),
    );
    lemma_final_exp_5_14();
}

proof fn lemma_final_exp_6_14()
    ensures
        GT(gt_of(44, 63)).spow(600) == GT(gt_of(67, 72)),
{
    assert(GT::sone() == GT(gt_of(1, 0)));
    lemma_gt_mul_at((44, 63), (44, 63), (88, 60), (-21, 15));
    assert(GT::spow_steps(GT(gt_of(1, 0)), GT(gt_of(44, 63)), 600) == GT::spow_steps(GT(gt_of(1, 0)), GT(gt_of(88, 60)), 300));
    lemma_gt_mul_at((88, 60), (88, 60), (3, 92), (41, 68));
    assert(GT::spow_steps(GT(gt_of(1, 0)), GT(gt_of(88, 60)), 300) == GT::spow_steps(GT(gt_of(1, 0)), GT(gt_of(3, 92)), 150));
    lemma_gt_mul_at((3, 92), (3, 92), (29, 67), (-84, -79));
    assert(GT::spow_steps(GT(gt_of(1, 0)), GT(gt_of(3, 92)), 150) == GT::spow_steps(GT(gt_of(1, 0)), GT(gt_of(29, 67)), 75));
    lemma_gt_mul_at((1, 0), (29, 67), (29, 67), (0, 0));
    lemma_gt_mul_at((29, 67), (29, 67), (89, 3), (-37, -6));
    assert(GT::spow_steps(GT(gt_of(1, 0)), GT(gt_of(29, 67)), 75) == GT::spow_steps(GT(gt_of(29, 67)), GT(gt_of(89, 3)), 37));
    lemma_gt_mul_at((29, 67), (89, 3), (57, 92), (23, 57));
    lemma_gt_mul_at((89, 3), (89, 3), (34, 20), (78, 5));
    assert(GT::spow_steps(GT(gt_of(29, 67)), GT(gt_of(89, 3)), 37) == GT::spow_steps(GT(gt_of(57, 92)), GT(gt_of(34, 20)), 18));
    lemma_gt_mul_at((34, 20), (34, 20), (49, 51), (7, 9));
    assert(GT::spow_steps(GT(gt_of(57, 92)), GT(gt_of(34, 20)), 18) == GT::spow_steps(GT(gt_of(57, 92)), GT(gt_of(49, 51)), 9));
    lemma_gt_mul_at((57, 92), (49, 51), (20, 97), (-19, 26));
    lemma_gt_mul_at((49, 51), (49, 51), (2, 74), (-2, 23));
    assert(GT::spow_steps(GT(gt_of(57, 92)), GT(gt_of(49, 51)), 9) == GT::spow_steps(GT(gt_of(20, 97)), GT(gt_of(2, 74)), 4));
    lemma_gt_mul_at((2, 74), (2, 74), (83, 72), (-55, -52));
    assert(GT::spow_steps(GT(gt_of(20, 97)), GT(gt_of(2, 74)), 4) == GT::spow_steps(GT(gt_of(20, 97)), GT(gt_of(83, 72)), 2));
    lemma_gt_mul_at((83, 72), (83, 72), (89, 1), (16, 67));
    assert(GT::spow_steps(GT(gt_of(20, 97)), GT(gt_of(83, 72)), 2) == GT::spow_steps(GT(gt_of(20, 97)), GT(gt_of(89, 1)), 1));
    lemma_gt_mul_at((20, 97), (89, 1), (67, 72), (16, 84));
    lemma_gt_mul_at((89, 1), (89, 1), (42, 76), (78, 1));
    assert(GT::spow_steps(GT(gt_of(20, 97)), GT(gt_of(89, 1)), 1) == GT::spow_steps(GT(gt_of(67, 72)), GT(gt_of(42, 76)), 0));
}

/// The pairing of `6G` with the point `14 P` of the image of `H`.
proof fn lemma_pairing_6_14()
    ensures
        smiller_loop(g1p(32, 42), dq(32, 42)) is Some,
        spairing_at(g1p(32, 42), dq(32, 42)) == GT(gt_of(67, 72)),
{
    lemma_final_exponent();
    lemma_tangent_6_14();
    lemma_tangent_12_14();
    lemma_tangent_7_14();
    lemma_tangent_14_14();
    lemma_vertical_at(32, 59, 42, 32, 42);
    lemma_miller_at(
        g1p(32, 42),
        dq(32, 42),
        (g1p(12, 69), g1p(91, 35), g1p(26, 56), g1p(32, 59)),
        (19, 5),
        (1, 10),
        (35, 57),
        (36, 0),
        (-32, 32),
        ((33, 64, 3, 1), (100, 57, -7, -3), (85, 71, 66, 80), (39, 51, -11, 32)),
        ((31, 64, -11, 13), (5, 82, 11, 22), (44, 63, -28, -51)),
    );
    lemma_final_exp_6_14();
}

proof fn lemma_final_exp_7_14()
    ensures
        GT(gt_of(29, 51)).spow(600) == GT(gt_of(47, 80)),
{
    assert(GT::sone() == GT(gt_of(1, 0)));
    lemma_gt_mul_at((29, 51), (29, 51), (58, 54), (-18, 3));
    assert(GT::spow_steps(GT(gt_of(1, 0)), GT(gt_of(29, 51)), 600) == GT::spow_steps(GT(gt_of(1, 0)), GT(gt_of(58, 54)), 300));
    lemma_gt_mul_at((58, 54), (58, 54), (44, 15), (4, 33));
    assert(GT::spow_steps(GT(gt_of(1, 0)), GT(gt_of(58, 54)), 300) == GT::spow_steps(GT(gt_of(1, 0)), GT(gt_of(44, 15)), 150));
    lemma_gt_mul_at((44, 15), (44, 15), (95, 85), (16, 10));
    assert(GT::spow_steps(GT(gt_of(1, 0)), GT(gt_of(44, 15)), 150) == GT::spow_steps(GT(gt_of(1, 0)), GT(gt_of(95, 85)), 75));
    lemma_gt_mul_at((1, 0), (95, 85), (95, 85), (0, 0));
    lemma_gt_mul_at((95, 85), (95, 85), (83, 37), (17, 88));
    assert(GT::spow_steps(GT(gt_of(1, 0)), GT(gt_of(95, 85)), 75) == GT::spow_steps(GT(gt_of(95, 85)), GT(gt_of(83, 37)), 37));
    lemma_gt_mul_at((95, 85), (83, 37), (94, 52), (46, 73));
    lemma_gt_mul_at((83, 37), (83, 37), (66, 26), (54, 47));
    assert(GT::spow_steps(GT(gt_of(95, 85)), GT(gt_of(83, 37)), 37) == GT::spow_steps(GT(gt_of(94, 52)), GT(gt_of(66, 26)), 18));
    lemma_gt_mul_at((66, 26), (66, 26), (44, 29), (36, 27));
    assert(GT::spow_steps(GT(gt_of(94, 52)), GT(gt_of(66, 26)), 18) == GT::spow_steps(GT(gt_of(94, 52)), GT(gt_of(44, 29)), 9));
    lemma_gt_mul_at((94, 52), (44, 29), (2, 72), (26, 34));
    lemma_gt_mul_at((44, 29), (44, 29), (85, 95), (10, 16));
    assert(GT::spow_steps(GT(gt_of(94, 52)), GT(gt_of(44, 29)), 9) == GT::spow_steps(GT(gt_of(2, 72)), GT(gt_of(85, 95)), 4));
    lemma_gt_mul_at((85, 95), (85, 95), (18, 55), (-18, 70));
    assert(GT::spow_steps(GT(gt_of(2, 72)), GT(gt_of(85, 95)), 4) == GT::spow_steps(GT(gt_of(2, 72)), GT(gt_of(18, 55)), 2));
    lemma_gt_mul_at((18, 55), (18, 55), (26, 66), (-27, -11));
    assert(GT::spow_steps(GT(gt_of(2, 72)), GT(gt_of(18, 55)), 2) == GT::spow_steps(GT(gt_of(2, 72)), GT(gt_of(26, 66)), 1));
    lemma_gt_mul_at((2, 72), (26, 66), (47, 80), (-47, -28));
    lemma_gt_mul_at((26, 66), (26, 66), (57, 86), (-37, -10));
    assert(GT::spow_steps(GT(gt_of(2, 72)), GT(gt_of(26, 66)), 1) == GT::spow_steps(GT(gt_of(47, 80)), GT(gt_of(57, 86)), 0));
}

/// The pairing of `7G` with the point `14 P` of the image of `H`.
proof fn lemma_pairing_7_14()
    ensures
        smiller_loop(g1p(91, 35), dq(32, 42)) is Some,
        spairing_at(g1p(91, 35), dq(32, 42)) == GT(gt_of(47, 80)),
{
    lemma_final_exponent();
    lemma_tangent_7_14();
    lemma_tangent_14_14();
    lemma_tangent_11_14();
    lemma_tangent_5_14();
    lemma_vertical_at(91, 66, 35, 32, 42);
    lemma_miller_at(
        g1p(91, 35),
        dq(32, 42),
        (g1p(26, 56), g1p(32, 59), g1p(12, 32), g1p(91, 66)),
        (35, 57),
        (36, 0),
        (64, 37),
        (57, 56),
        (-91, 32),
        ((97, 34, -21, 7), (58, 12, 34, 12), (89, 36, 31, 12), (21, 23, 43, 42)),
        ((13, 33, -1, 4), (4, 54, -11, 7), (29, 51, -21, -65)),
    );
    lemma_final_exp_7_14();
}

proof fn lemma_final_exp_8_14()
    ensures
        GT(gt_of(34, 85)).spow(600) == GT(gt_of(90, 62)),
{
    assert(GT::sone() == GT(gt_of(1, 0)));
    lemma_gt_mul_at((34, 85), (34, 85), (92, 70), (-61, -15));
    assert(GT::spow_steps(GT(gt_of(1, 0)), GT(gt_of(34, 85)), 600) == GT::spow_steps(GT(gt_of(1, 0)), GT(gt_of(92, 70)), 300));
    lemma_gt_mul_at((92, 70), (92, 70), (29, 1), (35, 79));
    assert(GT::spow_steps(GT(gt_of(1, 0)), GT(gt_of(92, 70)), 300) == GT::spow_steps(GT(gt_of(1, 0)), GT(gt_of(29, 1)), 150));
    lemma_gt_mul_at((29, 1), (29, 1), (32, 57), (8, 0));
    assert(GT::spow_steps(GT(gt_of(1, 0)), GT(gt_of(29, 1)), 150) == GT::spow_steps(GT(gt_of(1, 0)), GT(gt_of(32, 57)), 75));
    lemma_gt_mul_at((1, 0), (32, 57), (32, 57), (0, 0));
    lemma_gt_mul_at((32, 57), (32, 57), (98, 96), (-23, 3));
    assert(GT::spow_steps(GT(gt_of(1, 0)), GT(gt_of(32, 57)), 75) == GT::spow_steps(GT(gt_of(32, 57)), GT(gt_of(98, 96)), 37));
    lemma_gt_mul_at((32, 57), (98, 96), (88, 55), (-24, 31));
    lemma_gt_mul_at((98, 96), (98, 96), (85, 5), (3, 95));
    assert(GT::spow_steps(GT(gt_of(32, 57)), GT(gt_of(98, 96)), 37) == GT::spow_steps(GT(gt_of(88, 55)), GT(gt_of(85, 5)), 18));
    lemma_gt_mul_at((85, 5), (85, 5), (29, 17), (71, 8));
    assert(GT::spow_steps(GT(gt_of(88, 55)), GT(gt_of(85, 5)), 18) == GT::spow_steps(GT(gt_of(88, 55)), GT(gt_of(29, 17)), 9));
    lemma_gt_mul_at((88, 55), (29, 17), (1, 35), (16, 21));
    lemma_gt_mul_at((29, 17), (29, 17), (47, 91), (5, 6));
    assert(GT::spow_steps(GT(gt_of(88, 55)), GT(gt_of(29, 17)), 9) == GT::spow_steps(GT(gt_of(1, 35)), GT(gt_of(47, 91)), 4));
    lemma_gt_mul_at((47, 91), (47, 91), (89, 71), (-61, 2));
    assert(GT::spow_steps(GT(gt_of(1, 35)), GT(gt_of(47, 91)), 4) == GT::spow_steps(GT(gt_of(1, 35)), GT(gt_of(89, 71)), 2));
    lemma_gt_mul_at((89, 71), (89, 71), (52, 22), (28, 75));
    assert(GT::spow_steps(GT(gt_of(1, 35)), GT(gt_of(89, 71)), 2) == GT::spow_steps(GT(gt_of(1, 35)), GT(gt_of(52, 22)), 1));
    lemma_gt_mul_at((1, 35), (52, 22), (90, 62), (-8, 10));
    lemma_gt_mul_at((52, 22), (52, 22), (99, 87), (21, 17));
    assert(GT::spow_steps(GT(gt_of(1, 35)), GT(gt_of(52, 22)), 1) == GT::spow_steps(GT(gt_of(90, 62)), GT(gt_of(99, 87)), 0));
}

/// The pairing of `8G` with the point `14 P` of the image of `H`.
proof fn lemma_pairing_8_14()
    ensures
        smiller_loop(g1p(18, 49), dq(32, 42)) is Some,
        spairing_at(g1p(18, 49), dq(32, 42)) == GT(gt_of(90, 62)),
{
    lemma_final_exponent();
    lemma_tangent_8_14();
    lemma_tangent_16_14();
    lemma_tangent_15_14();
    lemma_tangent_13_14();
    lemma_vertical_at(18, 52, 49, 32, 42);
    lemma_miller_at(
        g1p(18, 49),
        dq(32, 42),
        (g1p(1, 99), g1p(68, 27), g1p(65, 3), g1p(18, 52)),
        (23, 5),
        (64, 97),
        (41, 97),
        (28, 65),
        (-18, 32),
        ((100, 3, 4, 2), (49, 6, 60, 95), (42, 47, 23, 5), (92, 28, -29, 14)),
        ((4, 25, 76, 43), (2, 42, -15, -7), (34, 85, -14, -21)),
    );
    lemma_final_exp_8_14();
}

proof fn lemma_final_exp_9_14()
    ensures
        GT(gt_of(97, 59)).spow(600) == GT(gt_of(28, 39)),
{
    assert(GT::sone() == GT(gt_of(1, 0)));
    lemma_gt_mul_at((97, 59), (97, 59), (70, 87), (58, 78));
    assert(GT::spow_steps(GT(gt_of(1, 0)), GT(gt_of(97, 59)), 600) == GT::spow_steps(GT(gt_of(1, 0)), GT(gt_of(70, 87)), 300));
    lemma_gt_mul_at((70, 87), (70, 87), (58, 66), (-27, 45));
    assert(GT::spow_steps(GT(gt_of(1, 0)), GT(gt_of(70, 87)), 300) == GT::spow_steps(GT(gt_of(1, 0)), GT(gt_of(58, 66)), 150));
    lemma_gt_mul_at((58, 66), (58, 66), (18, 68), (-10, 32));
    assert(GT::spow_steps(GT(gt_of(1, 0)), GT(gt_of(58, 66)), 150) == GT::spow_steps(GT(gt_of(1, 0)), GT(gt_of(18, 68)), 75));
    lemma_gt_mul_at((1, 0), (18, 68), (18, 68), (0, 0));
    lemma_gt_mul_at((18, 68), (18, 68), (43, 46), (-43, -22));
    assert(GT::spow_steps(GT(gt_of(1, 0)), GT(gt_of(18, 68)), 75) == GT::spow_steps(GT(gt_of(18, 68)), GT(gt_of(43, 46)), 37));
    lemma_gt_mul_at((18, 68), (43, 46), (70, 18), (-24, 6));
    lemma_gt_mul_at((43, 46), (43, 46), (36, 22), (-3, 18));
    assert(GT::spow_steps(GT(gt_of(18, 68)), GT(gt_of(43, 46)), 37) == GT::spow_steps(GT(gt_of(70, 18)), GT(gt_of(36, 22)), 18));
    lemma_gt_mul_at((36, 22), (36, 22), (4, 90), (8, 10));
    assert(GT::spow_steps(GT(gt_of(70, 18)), GT(gt_of(36, 22)), 18) == GT::spow_steps(GT(gt_of(70, 18)), GT(gt_of(4, 90)), 9));
    lemma_gt_mul_at((70, 18), (4, 90), (74, 5), (-14, 47));
    lemma_gt_mul_at((4, 90), (4, 90), (97, 94), (-81, -74));
    assert(GT::spow_steps(GT(gt_of(70, 18)), GT(gt_of(4, 90)), 9) == GT::spow_steps(GT(gt_of(74, 5)), GT(gt_of(97, 94)), 4));
    lemma_gt_mul_at((97, 94), (97, 94), (68, 7), (5, 93));
    assert(GT::spow_steps(GT(gt_of(74, 5)), GT(gt_of(97, 94)), 4) == GT::spow_steps(GT(gt_of(74, 5)), GT(gt_of(68, 7)), 2));
    lemma_gt_mul_at((68, 7), (68, 7), (30, 95), (45, 8));
    assert(GT::spow_steps(GT(gt_of(74, 5)), GT(gt_of(68, 7)), 2) == GT::spow_steps(GT(gt_of(74, 5)), GT(gt_of(30, 95)), 1));
    lemma_gt_mul_at((74, 5), (30, 95), (28, 39), (17, 66));
    lemma_gt_mul_at((30, 95), (30, 95), (56, 8), (-81, -33));
    assert(GT::spow_steps(GT(gt_of(74, 5)), GT(gt_of(30, 95)), 1) == GT::spow_steps(GT(gt_of(28, 39)), GT(gt_of(56, 8)), 0));
}

/// The pairing of `9G` with the point `14 P` of the image of `H`.
proof fn lemma_pairing_9_14()
    ensures
        smiller_loop(g1p(18, 52), dq(32, 42)) is Some,
        spairing_at(g1p(18, 52), dq(32, 42)) == GT(gt_of(28, 39)),
{
    lemma_final_exponent();
    lemma_tangent_9_14();
    lemma_tangent_1_14();
    lemma_tangent_2_14();
    lemma_tangent_4_14();
    lemma_vertical_at(18, 49, 52, 32, 42);
    lemma_miller_at(
        g1p(18, 52),
        dq(32, 42),
        (g1p(1, 2), g1p(68, 74), g1p(65, 98), g1p(18, 49)),
        (62, 56),
        (13, 65),
        (34, 10),
        (41, 64),
        (-18, 32),
        ((1, 71, 7, 37), (44, 9, -46, -36), (37, 4, 18, 7), (6, 62, 12, 4)),
        ((30, 31, -38, -31), (54, 96, -8, 11), (97, 59, -41, -31)),
    );
    lemma_final_exp_9_14();
}

proof fn lemma_final_exp_10_14()
    ensures
        GT(gt_of(81, 52)).spow(600) == GT(gt_of(68, 21)),
{
    assert(GT::sone() == GT(gt_of(1, 0)));
    lemma_gt_mul_at((81, 52), (81, 52), (19, 64), (38, 56));
    assert(GT::spow_steps(GT(gt_of(1, 0)), GT(gt_of(81, 52)), 600) == GT::spow_steps(GT(gt_of(1, 0)), GT(gt_of(19, 64)), 300));
    lemma_gt_mul_at((19, 64), (19, 64), (2, 53), (-37, -17));
    assert(GT::spow_steps(GT(gt_of(1, 0)), GT(gt_of(19, 64)), 300) == GT::spow_steps(GT(gt_of(1, 0)), GT(gt_of(2, 53)), 150));
    lemma_gt_mul_at((2, 53), (2, 53), (23, 29), (-28, -26));
    assert(GT::spow_steps(GT(gt_of(1, 0)), GT(gt_of(2, 53)), 150) == GT::spow_steps(GT(gt_of(1, 0)), GT(gt_of(23, 29)), 75));
    lemma_gt_mul_at((1, 0), (23, 29), (23, 29), (0, 0));
    lemma_gt_mul_at((23, 29), (23, 29), (92, 89), (-4, 4));
    assert(GT::spow_steps(GT(gt_of(1, 0)), GT(gt_of(23, 29)), 75) == GT::spow_steps(GT(gt_of(23, 29)), GT(gt_of(92, 89)), 37));
    lemma_gt_mul_at((23, 29), (92, 89), (40, 13), (-5, 21));
    lemma_gt_mul_at((92, 89), (92, 89), (38, 72), (5, 83));
    assert(GT::spow_steps(GT(gt_of(23, 29)), GT(gt_of(92, 89)), 37) == GT::spow_steps(GT(gt_of(40, 13)), GT(gt_of(38, 72)), 18));
    lemma_gt_mul_at((38, 72), (38, 72), (98, 86), (-38, 2));
    assert(GT::spow_steps(GT(gt_of(40, 13)), GT(gt_of(38, 72)), 18) == GT::spow_steps(GT(gt_of(40, 13)), GT(gt_of(98, 86)), 9));
    lemma_gt_mul_at((40, 13), (98, 86), (75, 61), (27, 35));
    lemma_gt_mul_at((98, 86), (98, 86), (87, 67), (21, 93));
    assert(GT::spow_steps(GT(gt_of(40, 13)), GT(gt_of(98, 86)), 9) == GT::spow_steps(GT(gt_of(75, 61)), GT(gt_of(87, 67)), 4));
    lemma_gt_mul_at((87, 67), (87, 67), (50, 99), (30, 70));
    assert(GT::spow_steps(GT(gt_of(75, 61)), GT(gt_of(87, 67)), 4) == GT::spow_steps(GT(gt_of(75, 61)), GT(gt_of(50, 99)), 2));
    lemma_gt_mul_at((50, 99), (50, 99), (72, 99), (-73, 0));
    assert(GT::spow_steps(GT(gt_of(75, 61)), GT(gt_of(50, 99)), 2) == GT::spow_steps(GT(gt_of(75, 61)), GT(gt_of(72, 99)), 1));
    lemma_gt_mul_at((75, 61), (72, 99), (68, 21), (-7, 57));
    lemma_gt_mul_at((72, 99), (72, 99), (29, 11), (-46, 44));
    assert(GT::spow_steps(GT(gt_of(75, 61)), GT(gt_of(72, 99)), 1) == GT::spow_steps(GT(gt_of(68, 21)), GT(gt_of(29, 11)), 0));
}

/// The pairing of `10G` with the point `14 P` of the image of `H`.
proof fn lemma_pairing_10_14()
    ensures
        smiller_loop(g1p(91, 66), dq(32, 42)) is Some,
        spairing_at(g1p(91, 66), dq(32, 42)) == GT(gt_of(68, 21)),
{
    lemma_final_exponent();
    lemma_tangent_10_14();
    lemma_tangent_3_14();
    lemma_tangent_6_14();
    lemma_tangent_12_14();
    lemma_vertical_at(91, 35, 66, 32, 42);
    lemma_miller_at(
        g1p(91, 66),
        dq(32, 42),
        (g1p(26, 45), g1p(32, 42), g1p(12, 69), g1p(91, 35)),
        (77, 64),
        (38, 37),
        (19, 5),
        (1, 10),
        (-91, 32),
        ((15, 3, 18, 57), (55, 53, 4, 5), (14, 92, 2, 29), (8, 45, -2, 13)),
        ((59, 8, -20, -13), (80, 13, -1, 5), (81, 52, -77, 9)),
    );
    lemma_final_exp_10_14();
}

proof fn lemma_final_exp_11_14()
    ensures
        GT(gt_of(31, 68)).spow(600) == GT(gt_of(96, 29)),
{
    assert(GT::sone() == GT(gt_of(1, 0)));
    lemma_gt_mul_at((31, 68), (31, 68), (74, 97), (-37, -5));
    assert(GT::spow_steps(GT(gt_of(1, 0)), GT(gt_of(31, 68)), 600) == GT::spow_steps(GT(gt_of(1, 0)), GT(gt_of(74, 97)), 300));
    lemma_gt_mul_at((74, 97), (74, 97), (6, 99), (-39, 48));
    assert(GT::spow_steps(GT(gt_of(1, 0)), GT(gt_of(74, 97)), 300) == GT::spow_steps(GT(gt_of(1, 0)), GT(gt_of(6, 99)), 150));
    lemma_gt_mul_at((6, 99), (6, 99), (32, 73), (-97, -86));
    assert(GT::spow_steps(GT(gt_of(1, 0)), GT(gt_of(6, 99)), 150) == GT::spow_steps(GT(gt_of(1, 0)), GT(gt_of(32, 73)), 75));
    lemma_gt_mul_at((1, 0), (32, 73), (32, 73), (0, 0));
    lemma_gt_mul_at((32, 73), (32, 73), (38, 50), (-43, -7));
    assert(GT::spow_steps(GT(gt_of(1, 0)), GT(gt_of(32, 73)), 75) == GT::spow_steps(GT(gt_of(32, 73)), GT(gt_of(38, 50)), 37));
    lemma_gt_mul_at((32, 73), (38, 50), (91, 17), (-25, 7));
    lemma_gt_mul_at((38, 50), (38, 50), (55, 88), (-11, 12));
    assert(GT::spow_steps(GT(gt_of(32, 73)), GT(gt_of(38, 50)), 37) == GT::spow_steps(GT(gt_of(91, 17)), GT(gt_of(55, 88)), 18));
    lemma_gt_mul_at((55, 88), (55, 88), (28, 17), (-47, 19));
    assert(GT::spow_steps(GT(gt_of(91, 17)), GT(gt_of(55, 88)), 18) == GT::spow_steps(GT(gt_of(91, 17)), GT(gt_of(28, 17)), 9));
    lemma_gt_mul_at((91, 17), (28, 17), (37, 17), (22, 17));
    lemma_gt_mul_at((28, 17), (28, 17), (91, 57), (4, 6));
    assert(GT::spow_steps(GT(gt_of(91, 17)), GT(gt_of(28, 17)), 9) == GT::spow_steps(GT(gt_of(37, 17)), GT(gt_of(91, 57)), 4));
    lemma_gt_mul_at((91, 57), (91, 57), (83, 55), (49, 70));
    assert(GT::spow_steps(GT(gt_of(37, 17)), GT(gt_of(91, 57)), 4) == GT::spow_steps(GT(gt_of(37, 17)), GT(gt_of(83, 55)), 2));
    lemma_gt_mul_at((83, 55), (83, 55), (26, 45), (38, 60));
    assert(GT::spow_steps(GT(gt_of(37, 17)), GT(gt_of(83, 55)), 2) == GT::spow_steps(GT(gt_of(37, 17)), GT(gt_of(26, 45)), 1));
    lemma_gt_mul_at((37, 17), (26, 45), (96, 29), (1, 13));
    lemma_gt_mul_at((26, 45), (26, 45), (65, 12), (-14, 3));
    assert(GT::spow_steps(GT(gt_of(37, 17)), GT(gt_of(26, 45)), 1) == GT::spow_steps(GT(gt_of(96, 29)), GT(gt_of(65, 12)), 0));
}

/// The pairing of `11G` with the point `14 P` of the image of `H`.
proof fn lemma_pairing_11_14()
    ensures
        smiller_loop(g1p(32, 59), dq(32, 42)) is Some,
        spairing_at(g1p(32, 59), dq(32, 42)) == GT(gt_of(96, 29)),
{
    lemma_final_exponent();
    lemma_tangent_11_14();
    lemma_tangent_5_14();
    lemma_tangent_10_14();
    lemma_tangent_3_14();
    lemma_vertical_at(32, 42, 59, 32, 42);
    lemma_miller_at(
        g1p(32, 59),
        dq(32, 42),
        (g1p(12, 32), g1p(91, 66), g1p(26, 45), g1p(32, 42)),
        (64, 37),
        (57, 56),
        (77, 64),
        (38, 37),
        (-32, 32),
        ((0, 34, 27, 33), (15, 34, -19, 0), (79, 66, -10, -2), (41, 56, 18, 58)),
        ((60, 42, -15, 14), (19, 40, 7, 22), (31, 68, -19, -20)),
    );
    lemma_final_exp_11_14();
}

proof fn lemma_final_exp_12_14()
    ensures
        GT(gt_of(43, 84)).spow(600) == GT(gt_of(12, 20)),
{
    assert(GT::sone() == GT(gt_of(1, 0)));
    lemma_gt_mul_at((43, 84), (43, 84), (45, 67), (-52, 1));
    assert(GT::spow_steps(GT(gt_of(1, 0)), GT(gt_of(43, 84)), 600) == GT::spow_steps(GT(gt_of(1, 0)), GT(gt_of(45, 67)), 300));
    lemma_gt_mul_at((45, 67), (45, 67), (61, 26), (-25, 15));
    assert(GT::spow_steps(GT(gt_of(1, 0)), GT(gt_of(45, 67)), 300) == GT::spow_steps(GT(gt_of(1, 0)), GT(gt_of(61, 26)), 150));
    lemma_gt_mul_at((61, 26), (61, 26), (15, 72), (30, 24));
    assert(GT::spow_steps(GT(gt_of(1, 0)), GT(gt_of(61, 26)), 150) == GT::spow_steps(GT(gt_of(1, 0)), GT(gt_of(15, 72)), 75));
    lemma_gt_mul_at((1, 0), (15, 72), (15, 72), (0, 0));
    lemma_gt_mul_at((15, 72), (15, 72), (91, 6), (-50, -30));
    assert(GT::spow_steps(GT(gt_of(1, 0)), GT(gt_of(15, 72)), 75) == GT::spow_steps(GT(gt_of(15, 72)), GT(gt_of(91, 6)), 37));
    lemma_gt_mul_at((15, 72), (91, 6), (24, 49), (9, 61));
    lemma_gt_mul_at((91, 6), (91, 6), (64, 46), (81, 10));
    assert(GT::spow_steps(GT(gt_of(15, 72)), GT(gt_of(91, 6)), 37) == GT::spow_steps(GT(gt_of(24, 49)), GT(gt_of(64, 46)), 18));
    lemma_gt_mul_at((64, 46), (64, 46), (61, 35), (19, 37));
    assert(GT::spow_steps(GT(gt_of(24, 49)), GT(gt_of(64, 46)), 18) == GT::spow_steps(GT(gt_of(24, 49)), GT(gt_of(61, 35)), 9));
    lemma_gt_mul_at((24, 49), (61, 35), (52, 94), (-3, 20));
    lemma_gt_mul_at((61, 35), (61, 35), (72, 15), (24, 30));
    assert(GT::spow_steps(GT(gt_of(24, 49)), GT(gt_of(61, 35)), 9) == GT::spow_steps(GT(gt_of(52, 94)), GT(gt_of(72, 15)), 4));
    lemma_gt_mul_at((72, 15), (72, 15), (10, 16), (49, 19));
    assert(GT::spow_steps(GT(gt_of(52, 94)), GT(gt_of(72, 15)), 4) == GT::spow_steps(GT(gt_of(52, 94)), GT(gt_of(10, 16)), 2));
    lemma_gt_mul_at((10, 16), (10, 16), (46, 64), (-2, 0));
    assert(GT::spow_steps(GT(gt_of(52, 94)), GT(gt_of(10, 16)), 2) == GT::spow_steps(GT(gt_of(52, 94)), GT(gt_of(46, 64)), 1));
    lemma_gt_mul_at((52, 94), (46, 64), (12, 20), (-36, 16));
    lemma_gt_mul_at((46, 64), (46, 64), (40, 75), (-20, 17));
    assert(GT::spow_steps(GT(gt_of(52, 94)), GT(gt_of(46, 64)), 1) == GT::spow_steps(GT(gt_of(12, 20)), GT(gt_of(40, 75)), 0));
}

/// The pairing of `12G` with the point `14 P` of the image of `H`.
proof fn lemma_pairing_12_14()
    ensures
        smiller_loop(g1p(12, 69), dq(32, 42)) is Some,
        spairing_at(g1p(12, 69), dq(32, 42)) == GT(gt_of(12, 20)),
{
    lemma_final_exponent();
    lemma_tangent_12_14();
    lemma_tangent_7_14();
    lemma_tangent_14_14();
    lemma_tangent_11_14();
    lemma_vertical_at(12, 32, 69, 32, 42);
    lemma_miller_at(
        g1p(12, 69),
        dq(32, 42),
        (g1p(91, 35), g1p(26, 56), g1p(32, 59), g1p(12, 32)),
        (1, 10),
        (35, 57),
        (36, 0),
        (64, 37),
        (-12, 32),
        ((2, 21, -1, -1), (85, 56, -12, -4), (49, 21, 40, 63), (47, 49, 17, 7)),
        ((10, 84, -2, 21), (57, 12, -25, 26), (43, 84, -11, 12)),
    );
    lemma_final_exp_12_14();
}

proof fn lemma_final_exp_13_14()
    ensures
        GT(gt_of(14, 6)).spow(600) == GT(gt_of(15, 55)),
{
    assert(GT::sone() == GT(gt_of(1, 0)));
    lemma_gt_mul_at((14, 6), (14, 6), (59, 31), (1, 1));
    assert(GT::spow_steps(GT(gt_of(1, 0)), GT(gt_of(14, 6)), 600) == GT::spow_steps(GT(gt_of(1, 0)), GT(gt_of(59, 31)), 300));
    lemma_gt_mul_at((59, 31), (59, 31), (96, 71), (24, 26));
    assert(GT::spow_steps(GT(gt_of(1, 0)), GT(gt_of(59, 31)), 300) == GT::spow_steps(GT(gt_of(1, 0)), GT(gt_of(96, 71)), 150));
    lemma_gt_mul_at((96, 71), (96, 71), (34, 6), (41, 85));
    assert(GT::spow_steps(GT(gt_of(1, 0)), GT(gt_of(96, 71)), 150) == GT::spow_steps(GT(gt_of(1, 0)), GT(gt_of(34, 6)), 75));
    lemma_gt_mul_at((1, 0), (34, 6), (34, 6), (0, 0));
    lemma_gt_mul_at((34, 6), (34, 6), (9, 69), (11, 3));
    assert(GT::spow_steps(GT(gt_of(1, 0)), GT(gt_of(34, 6)), 75) == GT::spow_steps(GT(gt_of(34, 6)), GT(gt_of(9, 69)), 37));
    lemma_gt_mul_at((34, 6), (9, 69), (94, 67), (-2, 19));
    lemma_gt_mul_at((9, 69), (9, 69), (67, 16), (-47, -35));
    assert(GT::spow_steps(GT(gt_of(34, 6)), GT(gt_of(9, 69)), 37) == GT::spow_steps(GT(gt_of(94, 67)), GT(gt_of(67, 16)), 18));
    lemma_gt_mul_at((67, 16), (67, 16), (92, 70), (41, 18));
    assert(GT::spow_steps(GT(gt_of(94, 67)), GT(gt_of(67, 16)), 18) == GT::spow_steps(GT(gt_of(94, 67)), GT(gt_of(92, 70)), 9));
    lemma_gt_mul_at((94, 67), (92, 70), (19, 75), (39, 79));
    lemma_gt_mul_at((92, 70), (92, 70), (29, 1), (35, 79));
    assert(GT::spow_steps(GT(gt_of(94, 67)), GT(gt_of(92, 70)), 9) == GT::spow_steps(GT(gt_of(19, 75)), GT(gt_of(29, 1)), 4));
    lemma_gt_mul_at((29, 1), (29, 1), (32, 57), (8, 0));
    assert(GT::spow_steps(GT(gt_of(19, 75)), GT(gt_of(29, 1)), 4) == GT::spow_steps(GT(gt_of(19, 75)), GT(gt_of(32, 57)), 2));
    lemma_gt_mul_at((32, 57), (32, 57), (98, 96), (-23, 3));
    assert(GT::spow_steps(GT(gt_of(19, 75)), GT(gt_of(32, 57)), 2) == GT::spow_steps(GT(gt_of(19, 75)), GT(gt_of(98, 96)), 1));
    lemma_gt_mul_at((19, 75), (98, 96), (15, 55), (-53, 19));
    lemma_gt_mul_at((98, 96), (98, 96), (85, 5), (3, 95));
    assert(GT::spow_steps(GT(gt_of(19, 75)), GT(gt_of(98, 96)), 1) == GT::spow_steps(GT(gt_of(15, 55)), GT(gt_of(85, 5)), 0));
}

/// The pairing of `13G` with the point `14 P` of the image of `H`.
proof fn lemma_pairing_13_14()
    ensures
        smiller_loop(g1p(65, 3), dq(32, 42)) is Some,
        spairing_at(g1p(65, 3), dq(32, 42)) == GT(gt_of(15, 55)),
{
    lemma_final_exponent();
    lemma_tangent_13_14();
    lemma_tangent_9_14();
    lemma_tangent_1_14();
    lemma_tangent_2_14();
    lemma_vertical_at(65, 98, 3, 32, 42);
    lemma_miller_at(
        g1p(65, 3),
        dq(32, 42),
        (g1p(18, 52), g1p(1, 2), g1p(68, 74), g1p(65, 98)),
        (28, 65),
        (62, 56),
        (13, 65),
        (34, 10),
        (-65, 32),
        ((94, 21, -35, -6), (6, 37, 46, 53), (81, 85, -14, -10), (73, 37, -45, 8)),
        ((21, 94, 39, 39), (77, 42, -3, 24), (14, 6, -63, -16)),
    );
    lemma_final_exp_13_14();
}

proof fn lemma_final_exp_14_14()
    ensures
        GT(gt_of(79, 1)).spow(600) == GT(gt_of(51, 9)),
{
    assert(GT::sone() == GT(gt_of(1, 0)));
    lemma_gt_mul_at((79, 1), (79, 1), (79, 56), (61, 1));
    assert(GT::spow_steps(GT(gt_of(1, 0)), GT(gt_of(79, 1)), 600) == GT::spow_steps(GT(gt_of(1, 0)), GT(gt_of(79, 56)), 300));
    lemma_gt_mul_at((79, 56), (79, 56), (75, 56), (30, 56));
    assert(GT::spow_steps(GT(gt_of(1, 0)), GT(gt_of(79, 56)), 300) == GT::spow_steps(GT(gt_of(1, 0)), GT(gt_of(75, 56)), 150));
    lemma_gt_mul_at((75, 56), (75, 56), (65, 12), (24, 52));
    assert(GT::spow_steps(GT(gt_of(1, 0)), GT(gt_of(75, 56)), 150) == GT::spow_steps(GT(gt_of(1, 0)), GT(gt_of(65, 12)), 75));
    lemma_gt_mul_at((1, 0), (65, 12), (65, 12), (0, 0));
    lemma_gt_mul_at((65, 12), (65, 12), (41, 2), (40, 14));
    assert(GT::spow_steps(GT(gt_of(1, 0)), GT(gt_of(65, 12)), 75) == GT::spow_steps(GT(gt_of(65, 12)), GT(gt_of(41, 2)), 37));
    lemma_gt_mul_at((65, 12), (41, 2), (15, 93), (26, 5));
    lemma_gt_mul_at((41, 2), (41, 2), (61, 59), (16, 1));
    assert(GT::spow_steps(GT(gt_of(65, 12)), GT(gt_of(41, 2)), 37) == GT::spow_steps(GT(gt_of(15, 93)), GT(gt_of(61, 59)), 18));
    lemma_gt_mul_at((61, 59), (61, 59), (38, 81), (2, 36));
    assert(GT::spow_steps(GT(gt_of(15, 93)), GT(gt_of(61, 59)), 18) == GT::spow_steps(GT(gt_of(15, 93)), GT(gt_of(38, 81)), 9));
    lemma_gt_mul_at((15, 93), (38, 81), (6, 44), (-69, -28));
    lemma_gt_mul_at((38, 81), (38, 81), (34, 100), (-51, -5));
    assert(GT::spow_steps(GT(gt_of(15, 93)), GT(gt_of(38, 81)), 9) == GT::spow_steps(GT(gt_of(6, 44)), GT(gt_of(34, 100)), 4));
    lemma_gt_mul_at((34, 100), (34, 100), (44, 32), (-88, -32));
    assert(GT::spow_steps(GT(gt_of(6, 44)), GT(gt_of(34, 100)), 4) == GT::spow_steps(GT(gt_of(6, 44)), GT(gt_of(44, 32)), 2));
    lemma_gt_mul_at((44, 32), (44, 32), (3, 75), (9, 17));
    assert(GT::spow_steps(GT(gt_of(6, 44)), GT(gt_of(44, 32)), 2) == GT::spow_steps(GT(gt_of(6, 44)), GT(gt_of(3, 75)), 1));
    lemma_gt_mul_at((6, 44), (3, 75), (51, 9), (-33, -27));
    lemma_gt_mul_at((3, 75), (3, 75), (40, 77), (-56, -52));
    assert(GT::spow_steps(GT(gt_of(6, 44)), GT(gt_of(3, 75)), 1) == GT::spow_steps(GT(gt_of(51, 9)), GT(gt_of(40, 77)), 0));
}

/// The pairing of `14G` with the point `14 P` of the image of `H`.
proof fn lemma_pairing_14_14()
    ensures
        smiller_loop(g1p(26, 56), dq(32, 42)) is Some,
        spairing_at(g1p(26, 56), dq(32, 42)) == GT(gt_of(51, 9)),
{
    lemma_final_exponent();
    lemma_tangent_14_14();
    lemma_tangent_11_14();
    lemma_tangent_5_14();
    lemma_tangent_10_14();
    lemma_vertical_at(26, 45, 56, 32, 42);
    lemma_miller_at(
        g1p(26, 56),
        dq(32, 42),
        (g1p(32, 59), g1p(12, 32), g1p(91, 66), g1p(26, 45)),
        (36, 0),
        (64, 37),
        (57, 56),
        (77, 64),
        (-26, 32),
        ((84, 0, 12, 0), (23, 78, 53, 30), (0, 29, -55, -25), (93, 29, -17, 0)),
        ((31, 8, 77, 45), (57, 68, 18, 20), (79, 1, -37, -21)),
    );
    lemma_final_exp_14_14();
}

proof fn lemma_final_exp_15_14()
    ensures
        GT(gt_of(58, 24)).spow(600) == GT(gt_of(78, 3)),
{
    assert(GT::sone() == GT(gt_of(1, 0)));
    lemma_gt_mul_at((58, 24), (58, 24), (61, 87), (27, 21));
    assert(GT::spow_steps(GT(gt_of(1, 0)), GT(gt_of(58, 24)), 600) == GT::spow_steps(GT(gt_of(1, 0)), GT(gt_of(61, 87)), 300));
    lemma_gt_mul_at((61, 87), (61, 87), (91, 15), (-39, 30));
    assert(GT::spow_steps(GT(gt_of(1, 0)), GT(gt_of(61, 87)), 300) == GT::spow_steps(GT(gt_of(1, 0)), GT(gt_of(91, 15)), 150));
    lemma_gt_mul_at((91, 15), (91, 15), (77, 81), (79, 24));
    assert(GT::spow_steps(GT(gt_of(1, 0)), GT(gt_of(91, 15)), 150) == GT::spow_steps(GT(gt_of(1, 0)), GT(gt_of(77, 81)), 75));
    lemma_gt_mul_at((1, 0), (77, 81), (77, 81), (0, 0));
    lemma_gt_mul_at((77, 81), (77, 81), (75, 55), (-7, 58));
    assert(GT::spow_steps(GT(gt_of(1, 0)), GT(gt_of(77, 81)), 75) == GT::spow_steps(GT(gt_of(77, 81)), GT(gt_of(75, 55)), 37));
    lemma_gt_mul_at((77, 81), (75, 55), (7, 98), (13, 57));
    lemma_gt_mul_at((75, 55), (75, 55), (75, 74), (25, 51));
    assert(GT::spow_steps(GT(gt_of(77, 81)), GT(gt_of(75, 55)), 37) == GT::spow_steps(GT(gt_of(7, 98)), GT(gt_of(75, 74)), 18));
    lemma_gt_mul_at((75, 74), (75, 74), (48, 69), (1, 55));
    assert(GT::spow_steps(GT(gt_of(7, 98)), GT(gt_of(75, 74)), 18) == GT::spow_steps(GT(gt_of(7, 98)), GT(gt_of(48, 69)), 9));
    lemma_gt_mul_at((7, 98), (48, 69), (38, 41), (-64, -16));
    lemma_gt_mul_at((48, 69), (48, 69), (68, 45), (-25, 18));
    assert(GT::spow_steps(GT(gt_of(7, 98)), GT(gt_of(48, 69)), 9) == GT::spow_steps(GT(gt_of(38, 41)), GT(gt_of(68, 45)), 4));
    lemma_gt_mul_at((68, 45), (68, 45), (74, 55), (25, 40));
    assert(GT::spow_steps(GT(gt_of(38, 41)), GT(gt_of(68, 45)), 4) == GT::spow_steps(GT(gt_of(38, 41)), GT(gt_of(74, 55)), 2));
    lemma_gt_mul_at((74, 55), (74, 55), (27, 65), (24, 50));
    assert(GT::spow_steps(GT(gt_of(38, 41)), GT(gt_of(74, 55)), 2) == GT::spow_steps(GT(gt_of(38, 41)), GT(gt_of(27, 65)), 1));
    lemma_gt_mul_at((38, 41), (27, 65), (78, 3), (-17, 9));
    lemma_gt_mul_at((27, 65), (27, 65), (39, 93), (-35, -8));
    assert(GT::spow_steps(GT(gt_of(38, 41)), GT(gt_of(27, 65)), 1) == GT::spow_steps(GT(gt_of(78, 3)), GT(gt_of(39, 93)), 0));
}

/// The pairing of `15G` with the point `14 P` of the image of `H`.
proof fn lemma_pairing_15_14()
    ensures
        smiller_loop(g1p(68, 27), dq(32, 42)) is Some,
        spairing_at(g1p(68, 27), dq(32, 42)) == GT(gt_of(78, 3)),
{
    lemma_final_exponent();
    lemma_tangent_15_14();
    lemma_tangent_13_14();
    lemma_tangent_9_14();
    lemma_tangent_1_14();
    lemma_vertical_at(68, 74, 27, 32, 42);
    lemma_miller_at(
        g1p(68, 27),
        dq(32, 42),
        (g1p(65, 3), g1p(18, 52), g1p(1, 2), g1p(68, 74)),
        (41, 97),
        (28, 65),
        (62, 56),
        (13, 65),
        (-68, 32),
        ((49, 60, -77, -15), (98, 56, -26, 9), (4, 63, 64, 77), (53, 97, -33, 5)),
        ((66, 65, -66, 8), (67, 1, -34, 9), (58, 24, -46, 20)),
    );
    lemma_final_exp_15_14();
}

proof fn lemma_final_exp_16_14()
    ensures
        GT(gt_of(99, 45)).spow(600) == GT(gt_of(14, 44)),
{
    assert(GT::sone() == GT(gt_of(1, 0)));
    lemma_gt_mul_at((99, 45), (99, 45), (100, 17), (76, 68));
    assert(GT::spow_steps(GT(gt_of(1, 0)), GT(gt_of(99, 45)), 600) == GT::spow_steps(GT(gt_of(1, 0)), GT(gt_of(100, 17)), 300));
    lemma_gt_mul_at((100, 17), (100, 17), (15, 81), (96, 30));
    assert(GT::spow_steps(GT(gt_of(1, 0)), GT(gt_of(100, 17)), 300) == GT::spow_steps(GT(gt_of(1, 0)), GT(gt_of(15, 81)), 150));
    lemma_gt_mul_at((15, 81), (15, 81), (27, 10), (-63, -41));
    assert(GT::spow_steps(GT(gt_of(1, 0)), GT(gt_of(15, 81)), 150) == GT::spow_steps(GT(gt_of(1, 0)), GT(gt_of(27, 10)), 75));
    lemma_gt_mul_at((1, 0), (27, 10), (27, 10), (0, 0));
    lemma_gt_mul_at((27, 10), (27, 10), (23, 36), (6, 4));
    assert(GT::spow_steps(GT(gt_of(1, 0)), GT(gt_of(27, 10)), 75) == GT::spow_steps(GT(gt_of(27, 10)), GT(gt_of(23, 36)), 37));
    lemma_gt_mul_at((27, 10), (23, 36), (59, 34), (2, 8));
    lemma_gt_mul_at((23, 36), (23, 36), (41, 57), (-8, 3));
    assert(GT::spow_steps(GT(gt_of(27, 10)), GT(gt_of(23, 36)), 37) == GT::spow_steps(GT(gt_of(59, 34)), GT(gt_of(41, 57)), 18));
    lemma_gt_mul_at((41, 57), (41, 57), (48, 11), (-16, 14));
    assert(GT::spow_steps(GT(gt_of(59, 34)), GT(gt_of(41, 57)), 18) == GT::spow_steps(GT(gt_of(59, 34)), GT(gt_of(48, 11)), 9));
    lemma_gt_mul_at((59, 34), (48, 11), (34, 89), (24, 18));
    lemma_gt_mul_at((48, 11), (48, 11), (62, 26), (21, 9));
    assert(GT::spow_steps(GT(gt_of(59, 34)), GT(gt_of(48, 11)), 9) == GT::spow_steps(GT(gt_of(34, 89)), GT(gt_of(62, 26)), 4));
    lemma_gt_mul_at((62, 26), (62, 26), (37, 23), (31, 25));
    assert(GT::spow_steps(GT(gt_of(34, 89)), GT(gt_of(62, 26)), 4) == GT::spow_steps(GT(gt_of(34, 89)), GT(gt_of(37, 23)), 2));
    lemma_gt_mul_at((37, 23), (37, 23), (32, 62), (8, 11));
    assert(GT::spow_steps(GT(gt_of(34, 89)), GT(gt_of(37, 23)), 2) == GT::spow_steps(GT(gt_of(34, 89)), GT(gt_of(32, 62)), 1));
    lemma_gt_mul_at((34, 89), (32, 62), (14, 44), (-44, -6));
    lemma_gt_mul_at((32, 62), (32, 62), (8, 23), (-28, 1));
    assert(GT::spow_steps(GT(gt_of(34, 89)), GT(gt_of(32, 62)), 1) == GT::spow_steps(GT(gt_of(14, 44)), GT(gt_of(8, 23)), 0));
}

/// The pairing of `16G` with the point `14 P` of the image of `H`.
proof fn lemma_pairing_16_14()
    ensures
        smiller_loop(g1p(1, 99), dq(32, 42)) is Some,
        spairing_at(g1p(1, 99), dq(32, 42)) == GT(gt_of(14, 44)),
{
    lemma_final_exponent();
    lemma_tangent_16_14();
    lemma_tangent_15_14();
    lemma_tangent_13_14();
    lemma_tangent_9_14();
    lemma_vertical_at(1, 2, 99, 32, 42);
    lemma_miller_at(
        g1p(1, 99),
        dq(32, 42),
        (g1p(68, 27), g1p(65, 3), g1p(18, 52), g1p(1, 2)),
        (64, 97),
        (41, 97),
        (28, 65),
        (62, 56),
        (-1, 32),
        ((40, 78, -53, 29), (33, 17, -59, -5), (93, 25, 7, 8), (70, 70, 9, 50)),
        ((0, 52, 0, 48), (17, 9, -29, 3), (99, 45, -4, 2)),
    );
    lemma_final_exp_16_14();
}

proof fn lemma_final_exp_1_15()
    ensures
        GT(gt_of(6, 75)).spow(600) == GT(gt_of(12, 20)),
{
    assert(GT::sone() == GT(gt_of(1, 0)));
    lemma_gt_mul_at((6, 75), (6, 75), (67, 22), (-56, -47));
    assert(GT::spow_steps(GT(gt_of(1, 0)), GT(gt_of(6, 75)), 600) == GT::spow_steps(GT(gt_of(1, 0)), GT(gt_of(67, 22)), 300));
    lemma_gt_mul_at((67, 22), (67, 22), (66, 40), (39, 24));
    assert(GT::spow_steps(GT(gt_of(1, 0)), GT(gt_of(67, 22)), 300) == GT::spow_steps(GT(gt_of(1, 0)), GT(gt_of(66, 40)), 150));
    lemma_gt_mul_at((66, 40), (66, 40), (29, 44), (27, 36));
    assert(GT::spow_steps(GT(gt_of(1, 0)), GT(gt_of(66, 40)), 150) == GT::spow_steps(GT(gt_of(1, 0)), GT(gt_of(29, 44)), 75));
    lemma_gt_mul_at((1, 0), (29, 44), (29, 44), (0, 0));
    lemma_gt_mul_at((29, 44), (29, 44), (16, 10), (-11, 6));
    assert(GT::spow_steps(GT(gt_of(1, 0)), GT(gt_of(29, 44)), 75) == GT::spow_steps(GT(gt_of(29, 44)), GT(gt_of(16, 10)), 37));
    lemma_gt_mul_at((29, 44), (16, 10), (24, 49), (0, 5));
    lemma_gt_mul_at((16, 10), (16, 10), (55, 18), (1, 2));
    assert(GT::spow_steps(GT(gt_of(29, 44)), GT(gt_of(16, 10)), 37) == GT::spow_steps(GT(gt_of(24, 49)), GT(gt_of(55, 18)), 18));
    lemma_gt_mul_at((55, 18), (55, 18), (75, 40), (26, 16));
    assert(GT::spow_steps(GT(gt_of(24, 49)), GT(gt_of(55, 18)), 18) == GT::spow_steps(GT(gt_of(24, 49)), GT(gt_of(75, 40)), 9));
    lemma_gt_mul_at((24, 49), (75, 40), (42, 49), (-2, 26));
    lemma_gt_mul_at((75, 40), (75, 40), (86, 57), (39, 43));
    assert(GT::spow_steps(GT(gt_of(24, 49)), GT(gt_of(75, 40)), 9) == GT::spow_steps(GT(gt_of(42, 49)), GT(gt_of(86, 57)), 4));
    lemma_gt_mul_at((86, 57), (86, 57), (6, 91), (41, 64));
    assert(GT::spow_steps(GT(gt_of(42, 49)), GT(gt_of(86, 57)), 4) == GT::spow_steps(GT(gt_of(42, 49)), GT(gt_of(6, 91)), 2));
    lemma_gt_mul_at((6, 91), (6, 91), (37, 83), (-82, -72));
    assert(GT::spow_steps(GT(gt_of(42, 49)), GT(gt_of(6, 91)), 2) == GT::spow_steps(GT(gt_of(42, 49)), GT(gt_of(37, 83)), 1));
    lemma_gt_mul_at((42, 49), (37, 83), (12, 20), (-25, 12));
    lemma_gt_mul_at((37, 83), (37, 83), (35, 61), (-55, -8));
    assert(GT::spow_steps(GT(gt_of(42, 49)), GT(gt_of(37, 83)), 1) == GT::spow_steps(GT(gt_of(12, 20)), GT(gt_of(35, 61)), 0));
}

/// The pairing of `1G` with the point `15 P` of the image of `H`.
proof fn lemma_pairing_1_15()
    ensures
        smiller_loop(g1p(1, 2), dq(9, 5)) is Some,
        spairing_at(g1p(1, 2), dq(9, 5)) == GT(gt_of(12, 20)),
{
    lemma_final_exponent();
    lemma_tangent_1_15();
    lemma_tangent_2_15();
    lemma_tangent_4_15();
    lemma_tangent_8_15();
    lemma_vertical_at(1, 99, 2, 9, 5);
    lemma_miller_at(
        g1p(1, 2),
        dq(9, 5),
        (g1p(68, 74), g1p(65, 98), g1p(18, 49), g1p(1, 99)),
        (56, 45),
        (23, 63),
        (25, 28),
        (24, 33),
        (-1, 9),
        ((0, 86, 11, 29), (36, 95, -54, -35), (48, 37, -77, -22), (63, 21, 1, 12)),
        ((94, 84, 34, 21), (90, 23, -6, 23), (6, 75, -3, 5)),
    );
    lemma_final_exp_1_15();
}

proof fn lemma_final_exp_2_15()
    ensures
        GT(gt_of(82, 73)).spow(600) == GT(gt_of(47, 80)),
{
    assert(GT::sone() == GT(gt_of(1, 0)));
    lemma_gt_mul_at((82, 73), (82, 73), (82, 78), (13, 65));
    assert(GT::spow_steps(GT(gt_of(1, 0)), GT(gt_of(82, 73)), 600) == GT::spow_steps(GT(gt_of(1, 0)), GT(gt_of(82, 78)), 300));
    lemma_gt_mul_at((82, 78), (82, 78), (34, 42), (6, 66));
    assert(GT::spow_steps(GT(gt_of(1, 0)), GT(gt_of(82, 78)), 300) == GT::spow_steps(GT(gt_of(1, 0)), GT(gt_of(34, 42)), 150));
    lemma_gt_mul_at((34, 42), (34, 42), (99, 82), (-7, 10));
    assert(GT::spow_steps(GT(gt_of(1, 0)), GT(gt_of(34, 42)), 150) == GT::spow_steps(GT(gt_of(1, 0)), GT(gt_of(99, 82)), 75));
    lemma_gt_mul_at((1, 0), (99, 82), (99, 82), (0, 0));
    lemma_gt_mul_at((99, 82), (99, 82), (47, 18), (30, 94));
    assert(GT::spow_steps(GT(gt_of(1, 0)), GT(gt_of(99, 82)), 75) == GT::spow_steps(GT(gt_of(99, 82)), GT(gt_of(47, 18)), 37));
    lemma_gt_mul_at((99, 82), (47, 18), (46, 19), (31, 41));
    lemma_gt_mul_at((47, 18), (47, 18), (67, 55), (18, 13));
    assert(GT::spow_steps(GT(gt_of(99, 82)), GT(gt_of(47, 18)), 37) == GT::spow_steps(GT(gt_of(46, 19)), GT(gt_of(67, 55)), 18));
    lemma_gt_mul_at((67, 55), (67, 55), (50, 2), (14, 43));
    assert(GT::spow_steps(GT(gt_of(46, 19)), GT(gt_of(67, 55)), 18) == GT::spow_steps(GT(gt_of(46, 19)), GT(gt_of(50, 2)), 9));
    lemma_gt_mul_at((46, 19), (50, 2), (40, 95), (22, 9));
    lemma_gt_mul_at((50, 2), (50, 2), (72, 95), (24, 1));
    assert(GT::spow_steps(GT(gt_of(46, 19)), GT(gt_of(50, 2)), 9) == GT::spow_steps(GT(gt_of(40, 95)), GT(gt_of(72, 95)), 4));
    lemma_gt_mul_at((72, 95), (72, 95), (98, 9), (-39, 46));
    assert(GT::spow_steps(GT(gt_of(40, 95)), GT(gt_of(72, 95)), 4) == GT::spow_steps(GT(gt_of(40, 95)), GT(gt_of(98, 9)), 2));
    lemma_gt_mul_at((98, 9), (98, 9), (29, 67), (94, 16));
    assert(GT::spow_steps(GT(gt_of(40, 95)), GT(gt_of(98, 9)), 2) == GT::spow_steps(GT(gt_of(40, 95)), GT(gt_of(29, 67)), 1));
    lemma_gt_mul_at((40, 95), (29, 67), (47, 80), (-52, -10));
    lemma_gt_mul_at((29, 67), (29, 67), (89, 3), (-37, -6));
    assert(GT::spow_steps(GT(gt_of(40, 95)), GT(gt_of(29, 67)), 1) == GT::spow_steps(GT(gt_of(47, 80)), GT(gt_of(89, 3)), 0));
}

/// The pairing of `2G` with the point `15 P` of the image of `H`.
proof fn lemma_pairing_2_15()
    ensures
        smiller_loop(g1p(68, 74), dq(9, 5)) is Some,
        spairing_at(g1p(68, 74), dq(9, 5)) == GT(gt_of(47, 80)),
{
    lemma_final_exponent();
    lemma_tangent_2_15();
    lemma_tangent_4_15();
    lemma_tangent_8_15();
    lemma_tangent_16_15();
    lemma_vertical_at(68, 27, 74, 9, 5);
    lemma_miller_at(
        g1p(68, 74),
        dq(9, 5),
        (g1p(65, 98), g1p(18, 49), g1p(1, 99), g1p(68, 27)),
        (23, 63),
        (25, 28),
        (24, 33),
        (72, 8),
        (-68, 9),
        ((95, 40, -35, -11), (43, 15, 12, 25), (8, 55, 16, 10), (94, 72, -17, -3)),
        ((16, 70, 36, 82), (87, 63, 5, 45), (82, 73, -65, -41)),
    );
    lemma_final_exp_2_15();
}

proof fn lemma_final_exp_3_15()
    ensures
        GT(gt_of(99, 15)).spow(600) == GT(gt_of(75, 98)),
{
    assert(GT::sone() == GT(gt_of(1, 0)));
    lemma_gt_mul_at((99, 15), (99, 15), (82, 18), (94, 27));
    assert(GT::spow_steps(GT(gt_of(1, 0)), GT(gt_of(99, 15)), 600) == GT::spow_steps(GT(gt_of(1, 0)), GT(gt_of(82, 18)), 300));
    lemma_gt_mul_at((82, 18), (82, 18), (37, 2), (63, 26));
    assert(GT::spow_steps(GT(gt_of(1, 0)), GT(gt_of(82, 18)), 300) == GT::spow_steps(GT(gt_of(1, 0)), GT(gt_of(37, 2)), 150));
    lemma_gt_mul_at((37, 2), (37, 2), (52, 43), (13, 1));
    assert(GT::spow_steps(GT(gt_of(1, 0)), GT(gt_of(37, 2)), 150) == GT::spow_steps(GT(gt_of(1, 0)), GT(gt_of(52, 43)), 75));
    lemma_gt_mul_at((1, 0), (52, 43), (52, 43), (0, 0));
    lemma_gt_mul_at((52, 43), (52, 43), (47, 98), (8, 25));
    assert(GT::spow_steps(GT(gt_of(1, 0)), GT(gt_of(52, 43)), 75) == GT::spow_steps(GT(gt_of(52, 43)), GT(gt_of(47, 98)), 37));
    lemma_gt_mul_at((52, 43), (47, 98), (48, 75), (-18, 28));
    lemma_gt_mul_at((47, 98), (47, 98), (79, 12), (-74, -4));
    assert(GT::spow_steps(GT(gt_of(52, 43)), GT(gt_of(47, 98)), 37) == GT::spow_steps(GT(gt_of(48, 75)), GT(gt_of(79, 12)), 18));
    lemma_gt_mul_at((79, 12), (79, 12), (37, 35), (60, 17));
    assert(GT::spow_steps(GT(gt_of(48, 75)), GT(gt_of(79, 12)), 18) == GT::spow_steps(GT(gt_of(48, 75)), GT(gt_of(37, 35)), 9));
    lemma_gt_mul_at((48, 75), (37, 35), (60, 12), (-9, 18));
    lemma_gt_mul_at((37, 35), (37, 35), (43, 52), (1, 13));
    assert(GT::spow_steps(GT(gt_of(48, 75)), GT(gt_of(37, 35)), 9) == GT::spow_steps(GT(gt_of(60, 12)), GT(gt_of(43, 52)), 4));
    lemma_gt_mul_at((43, 52), (43, 52), (54, 51), (-9, 17));
    assert(GT::spow_steps(GT(gt_of(60, 12)), GT(gt_of(43, 52)), 4) == GT::spow_steps(GT(gt_of(60, 12)), GT(gt_of(54, 51)), 2));
    lemma_gt_mul_at((54, 51), (54, 51), (12, 79), (3, 28));
    assert(GT::spow_steps(GT(gt_of(60, 12)), GT(gt_of(54, 51)), 2) == GT::spow_steps(GT(gt_of(60, 12)), GT(gt_of(12, 79)), 1));
    lemma_gt_mul_at((60, 12), (12, 79), (75, 98), (-3, 38));
    lemma_gt_mul_at((12, 79), (12, 79), (64, 99), (-61, -44));
    assert(GT::spow_steps(GT(gt_of(60, 12)), GT(gt_of(12, 79)), 1) == GT::spow_steps(GT(gt_of(75, 98)), GT(gt_of(64, 99)), 0));
}

/// The pairing of `3G` with the point `15 P` of the image of `H`.
proof fn lemma_pairing_3_15()
    ensures
        smiller_loop(g1p(26, 45), dq(9, 5)) is Some,
        spairing_at(g1p(26, 45), dq(9, 5)) == GT(gt_of(75, 98)),
{
    lemma_final_exponent();
    lemma_tangent_3_15();
    lemma_tangent_6_15();
    lemma_tangent_12_15();
    lemma_tangent_7_15();
    lemma_vertical_at(26, 56, 45, 9, 5);
    lemma_miller_at(
        g1p(26, 45),
        dq(9, 5),
        (g1p(32, 42), g1p(12, 69), g1p(91, 35), g1p(26, 56)),
        (75, 49),
        (79, 99),
        (28, 36),
        (61, 98),
        (-26, 9),
        ((93, 0, 31, 49), (75, 16, 72, 91), (16, 23, 53, 21), (24, 89, -4, 3)),
        ((28, 88, -73, -37), (53, 94, -69, -6), (99, 15, -23, -28)),
    );
    lemma_final_exp_3_15();
}

proof fn lemma_final_exp_4_15()
    ensures
        GT(gt_of(6, 23)).spow(600) == GT(gt_of(51, 9)),
{
    assert(GT::sone() == GT(gt_of(1, 0)));
    lemma_gt_mul_at((6, 23), (6, 23), (12, 50), (-5, -3));
    assert(GT::spow_steps(GT(gt_of(1, 0)), GT(gt_of(6, 23)), 600) == GT::spow_steps(GT(gt_of(1, 0)), GT(gt_of(12, 50)), 300));
    lemma_gt_mul_at((12, 50), (12, 50), (68, 13), (-24, -13));
    assert(GT::spow_steps(GT(gt_of(1, 0)), GT(gt_of(12, 50)), 300) == GT::spow_steps(GT(gt_of(1, 0)), GT(gt_of(68, 13)), 150));
    lemma_gt_mul_at((68, 13), (68, 13), (11, 84), (44, 15));
    assert(GT::spow_steps(GT(gt_of(1, 0)), GT(gt_of(68, 13)), 150) == GT::spow_steps(GT(gt_of(1, 0)), GT(gt_of(11, 84)), 75));
    lemma_gt_mul_at((1, 0), (11, 84), (11, 84), (0, 0));
    lemma_gt_mul_at((11, 84), (11, 84), (34, 44), (-69, -52));
    assert(GT::spow_steps(GT(gt_of(1, 0)), GT(gt_of(11, 84)), 75) == GT::spow_steps(GT(gt_of(11, 84)), GT(gt_of(34, 44)), 37));
    lemma_gt_mul_at((11, 84), (34, 44), (11, 48), (-33, -4));
    lemma_gt_mul_at((34, 44), (34, 44), (28, 46), (-8, 10));
    assert(GT::spow_steps(GT(gt_of(11, 84)), GT(gt_of(34, 44)), 37) == GT::spow_steps(GT(gt_of(11, 48)), GT(gt_of(28, 46)), 18));
    lemma_gt_mul_at((28, 46), (28, 46), (82, 56), (-14, 4));
    assert(GT::spow_steps(GT(gt_of(11, 48)), GT(gt_of(28, 46)), 18) == GT::spow_steps(GT(gt_of(11, 48)), GT(gt_of(82, 56)), 9));
    lemma_gt_mul_at((11, 48), (82, 56), (32, 46), (-18, 18));
    lemma_gt_mul_at((82, 56), (82, 56), (53, 89), (35, 59));
    assert(GT::spow_steps(GT(gt_of(11, 48)), GT(gt_of(82, 56)), 9) == GT::spow_steps(GT(gt_of(32, 46)), GT(gt_of(53, 89)), 4));
    lemma_gt_mul_at((53, 89), (53, 89), (39, 99), (-51, 14));
    assert(GT::spow_steps(GT(gt_of(32, 46)), GT(gt_of(53, 89)), 4) == GT::spow_steps(GT(gt_of(32, 46)), GT(gt_of(39, 99)), 2));
    lemma_gt_mul_at((39, 99), (39, 99), (2, 42), (-82, -21));
    assert(GT::spow_steps(GT(gt_of(32, 46)), GT(gt_of(39, 99)), 2) == GT::spow_steps(GT(gt_of(32, 46)), GT(gt_of(2, 42)), 1));
    lemma_gt_mul_at((32, 46), (2, 42), (51, 9), (-19, -5));
    lemma_gt_mul_at((2, 42), (2, 42), (58, 20), (-18, -16));
    assert(GT::spow_steps(GT(gt_of(32, 46)), GT(gt_of(2, 42)), 1) == GT::spow_steps(GT(gt_of(51, 9)), GT(gt_of(58, 20)), 0));
}

/// The pairing of `4G` with the point `15 P` of the image of `H`.
proof fn lemma_pairing_4_15()
    ensures
        smiller_loop(g1p(65, 98), dq(9, 5)) is Some,
        spairing_at(g1p(65, 98), dq(9, 5)) == GT(gt_of(51, 9)),
{
    lemma_final_exponent();
    lemma_tangent_4_15();
    lemma_tangent_8_15();
    lemma_tangent_16_15();
    lemma_tangent_15_15();
    lemma_vertical_at(65, 3, 98, 9, 5);
    lemma_miller_at(
        g1p(65, 98),
        dq(9, 5),
        (g1p(18, 49), g1p(1, 99), g1p(68, 27), g1p(65, 3)),
        (25, 28),
        (24, 33),
        (72, 8),
        (42, 50),
        (-65, 9),
        ((43, 10, -2, 6), (96, 16, 6, 13), (72, 89, 88, 27), (28, 10, 44, 62)),
        ((78, 56, 6, 4), (72, 18, 4, 34), (6, 23, -48, -7)),
    );
    lemma_final_exp_4_15();
}

proof fn lemma_final_exp_5_15()
    ensures
        GT(gt_of(26, 6)).spow(600) == GT(gt_of(28, 39)),
{
    assert(GT::sone() == GT(gt_of(1, 0)));
    lemma_gt_mul_at((26, 6), (26, 6), (34, 74), (6, 2));
    assert(GT::spow_steps(GT(gt_of(1, 0)), GT(gt_of(26, 6)), 600) == GT::spow_steps(GT(gt_of(1, 0)), GT(gt_of(34, 74)), 300));
    lemma_gt_mul_at((34, 74), (34, 74), (23, 61), (-43, -5));
    assert(GT::spow_steps(GT(gt_of(1, 0)), GT(gt_of(34, 74)), 300) == GT::spow_steps(GT(gt_of(1, 0)), GT(gt_of(23, 61)), 150));
    lemma_gt_mul_at((23, 61), (23, 61), (40, 95), (-32, -10));
    assert(GT::spow_steps(GT(gt_of(1, 0)), GT(gt_of(23, 61)), 150) == GT::spow_steps(GT(gt_of(1, 0)), GT(gt_of(40, 95)), 75));
    lemma_gt_mul_at((1, 0), (40, 95), (40, 95), (0, 0));
    lemma_gt_mul_at((40, 95), (40, 95), (49, 90), (-74, -15));
    assert(GT::spow_steps(GT(gt_of(1, 0)), GT(gt_of(40, 95)), 75) == GT::spow_steps(GT(gt_of(40, 95)), GT(gt_of(49, 90)), 37));
    lemma_gt_mul_at((40, 95), (49, 90), (76, 8), (-66, -3));
    lemma_gt_mul_at((49, 90), (49, 90), (58, 13), (-57, 7));
    assert(GT::spow_steps(GT(gt_of(40, 95)), GT(gt_of(49, 90)), 37) == GT::spow_steps(GT(gt_of(76, 8)), GT(gt_of(58, 13)), 18));
    lemma_gt_mul_at((58, 13), (58, 13), (64, 26), (31, 13));
    assert(GT::spow_steps(GT(gt_of(76, 8)), GT(gt_of(58, 13)), 18) == GT::spow_steps(GT(gt_of(76, 8)), GT(gt_of(64, 26)), 9));
    lemma_gt_mul_at((76, 8), (64, 26), (10, 58), (46, 22));
    lemma_gt_mul_at((64, 26), (64, 26), (87, 26), (33, 26));
    assert(GT::spow_steps(GT(gt_of(76, 8)), GT(gt_of(64, 26)), 9) == GT::spow_steps(GT(gt_of(10, 58)), GT(gt_of(87, 26)), 4));
    lemma_gt_mul_at((87, 26), (87, 26), (25, 10), (68, 38));
    assert(GT::spow_steps(GT(gt_of(10, 58)), GT(gt_of(87, 26)), 4) == GT::spow_steps(GT(gt_of(10, 58)), GT(gt_of(25, 10)), 2));
    lemma_gt_mul_at((25, 10), (25, 10), (20, 97), (5, 3));
    assert(GT::spow_steps(GT(gt_of(10, 58)), GT(gt_of(25, 10)), 2) == GT::spow_steps(GT(gt_of(10, 58)), GT(gt_of(20, 97)), 1));
    lemma_gt_mul_at((10, 58), (20, 97), (28, 39), (-54, -35));
    lemma_gt_mul_at((20, 97), (20, 97), (81, 26), (-90, -55));
    assert(GT::spow_steps(GT(gt_of(10, 58)), GT(gt_of(20, 97)), 1) == GT::spow_steps(GT(gt_of(28, 39)), GT(gt_of(81, 26)), 0));
}

/// The pairing of `5G` with the point `15 P` of the image of `H`.
proof fn lemma_pairing_5_15()
    ensures
        smiller_loop(g1p(12, 32), dq(9, 5)) is Some,
        spairing_at(g1p(12, 32), dq(9, 5)) == GT(gt_of(28, 39)),
{
    lemma_final_exponent();
    lemma_tangent_5_15();
    lemma_tangent_10_15();
    lemma_tangent_3_15();
    lemma_tangent_6_15();
    lemma_vertical_at(12, 69, 32, 9, 5);
    lemma_miller_at(
        g1p(12, 32),
        dq(9, 5),
        (g1p(91, 66), g1p(26, 45), g1p(32, 42), g1p(12, 69)),
        (72, 74),
        (85, 29),
        (75, 49),
        (79, 99),
        (-12, 9),
        ((11, 29, -3, 51), (94, 24, 0, 19), (79, 98, 81, 38), (12, 56, 11, 63)),
        ((38, 26, -30, -18), (24, 10, 4, 32), (26, 6, -4, 0)),
    );
    lemma_final_exp_5_15();
}

proof fn lemma_final_exp_6_15()
    ensures
        GT(gt_of(40, 4)).spow(600) == GT(gt_of(61, 46)),
{
    assert(GT::sone() == GT(gt_of(1, 0)));
    lemma_gt_mul_at((40, 4), (40, 4), (69, 1), (15, 3));
    assert(GT::spow_steps(GT(gt_of(1, 0)), GT(gt_of(40, 4)), 600) == GT::spow_steps(GT(gt_of(1, 0)), GT(gt_of(69, 1)), 300));
    lemma_gt_mul_at((69, 1), (69, 1), (13, 36), (47, 1));
    assert(GT::spow_steps(GT(gt_of(1, 0)), GT(gt_of(69, 1)), 300) == GT::spow_steps(GT(gt_of(1, 0)), GT(gt_of(13, 36)), 150));
    lemma_gt_mul_at((13, 36), (13, 36), (85, 44), (-12, -4));
    assert(GT::spow_steps(GT(gt_of(1, 0)), GT(gt_of(13, 36)), 150) == GT::spow_steps(GT(gt_of(1, 0)), GT(gt_of(85, 44)), 75));
    lemma_gt_mul_at((1, 0), (85, 44), (85, 44), (0, 0));
    lemma_gt_mul_at((85, 44), (85, 44), (37, 90), (52, 54));
    assert(GT::spow_steps(GT(gt_of(1, 0)), GT(gt_of(85, 44)), 75) == GT::spow_steps(GT(gt_of(85, 44)), GT(gt_of(37, 90)), 37));
    lemma_gt_mul_at((85, 44), (37, 90), (94, 66), (-9, 52));
    lemma_gt_mul_at((37, 90), (37, 90), (36, 75), (-67, -15));
    assert(GT::spow_steps(GT(gt_of(85, 44)), GT(gt_of(37, 90)), 37) == GT::spow_steps(GT(gt_of(94, 66)), GT(gt_of(36, 75)), 18));
    lemma_gt_mul_at((36, 75), (36, 75), (14, 78), (-43, -3));
    assert(GT::spow_steps(GT(gt_of(94, 66)), GT(gt_of(36, 75)), 18) == GT::spow_steps(GT(gt_of(94, 66)), GT(gt_of(14, 78)), 9));
    lemma_gt_mul_at((94, 66), (14, 78), (6, 78), (-38, 30));
    lemma_gt_mul_at((14, 78), (14, 78), (71, 39), (-59, -39));
    assert(GT::spow_steps(GT(gt_of(94, 66)), GT(gt_of(14, 78)), 9) == GT::spow_steps(GT(gt_of(6, 78)), GT(gt_of(71, 39)), 4));
    lemma_gt_mul_at((71, 39), (71, 39), (86, 78), (34, 39));
    assert(GT::spow_steps(GT(gt_of(6, 78)), GT(gt_of(71, 39)), 4) == GT::spow_steps(GT(gt_of(6, 78)), GT(gt_of(86, 78)), 2));
    lemma_gt_mul_at((86, 78), (86, 78), (100, 60), (12, 72));
    assert(GT::spow_steps(GT(gt_of(6, 78)), GT(gt_of(86, 78)), 2) == GT::spow_steps(GT(gt_of(6, 78)), GT(gt_of(100, 60)), 1));
    lemma_gt_mul_at((6, 78), (100, 60), (61, 46), (-41, 34));
    lemma_gt_mul_at((100, 60), (100, 60), (37, 17), (63, 83));
    assert(GT::spow_steps(GT(gt_of(6, 78)), GT(gt_of(100, 60)), 1) == GT::spow_steps(GT(gt_of(61, 46)), GT(gt_of(37, 17)), 0));
}

/// The pairing of `6G` with the point `15 P` of the image of `H`.
proof fn lemma_pairing_6_15()
    ensures
        smiller_loop(g1p(32, 42), dq(9, 5)) is Some,
        spairing_at(g1p(32, 42), dq(9, 5)) == GT(gt_of(61, 46)),
{
    lemma_final_exponent();
    lemma_tangent_6_15();
    lemma_tangent_12_15();
    lemma_tangent_7_15();
    lemma_tangent_14_15();
    lemma_vertical_at(32, 59, 42, 9, 5);
    lemma_miller_at(
        g1p(32, 42),
        dq(9, 5),
        (g1p(12, 69), g1p(91, 35), g1p(26, 56), g1p(32, 59)),
        (79, 99),
        (28, 36),
        (61, 98),
        (84, 13),
        (-32, 9),
        ((76, 84, -36, 57), (13, 44, -9, 20), (51, 16, -18, -8), (28, 63, 15, 43)),
        ((47, 64, -32, -5), (86, 4, 30, 51), (40, 4, -28, 6)),
    );
    lemma_final_exp_6_15();
}

proof fn lemma_final_exp_7_15()
    ensures
        GT(gt_of(90, 94)).spow(600) == GT(gt_of(14, 44)),
{
    assert(GT::sone() == GT(gt_of(1, 0)));
    lemma_gt_mul_at((90, 94), (90, 94), (72, 4), (-8, 80));
    assert(GT::spow_steps(GT(gt_of(1, 0)), GT(gt_of(90, 94)), 600) == GT::spow_steps(GT(gt_of(1, 0)), GT(gt_of(72, 4)), 300));
    lemma_gt_mul_at((72, 4), (72, 4), (17, 55), (51, 5));
    assert(GT::spow_steps(GT(gt_of(1, 0)), GT(gt_of(72, 4)), 300) == GT::spow_steps(GT(gt_of(1, 0)), GT(gt_of(17, 55)), 150));
    lemma_gt_mul_at((17, 55), (17, 55), (92, 57), (-28, -12));
    assert(GT::spow_steps(GT(gt_of(1, 0)), GT(gt_of(17, 55)), 150) == GT::spow_steps(GT(gt_of(1, 0)), GT(gt_of(92, 57)), 75));
    lemma_gt_mul_at((1, 0), (92, 57), (92, 57), (0, 0));
    lemma_gt_mul_at((92, 57), (92, 57), (64, 68), (51, 71));
    assert(GT::spow_steps(GT(gt_of(1, 0)), GT(gt_of(92, 57)), 75) == GT::spow_steps(GT(gt_of(92, 57)), GT(gt_of(64, 68)), 37));
    lemma_gt_mul_at((92, 57), (64, 68), (93, 69), (19, 59));
    lemma_gt_mul_at((64, 68), (64, 68), (78, 40), (-6, 40));
    assert(GT::spow_steps(GT(gt_of(92, 57)), GT(gt_of(64, 68)), 37) == GT::spow_steps(GT(gt_of(93, 69)), GT(gt_of(78, 40)), 18));
    lemma_gt_mul_at((78, 40), (78, 40), (40, 95), (44, 45));
    assert(GT::spow_steps(GT(gt_of(93, 69)), GT(gt_of(78, 40)), 18) == GT::spow_steps(GT(gt_of(93, 69)), GT(gt_of(40, 95)), 9));
    lemma_gt_mul_at((93, 69), (40, 95), (94, 91), (-29, 49));
    lemma_gt_mul_at((40, 95), (40, 95), (49, 90), (-74, -15));
    assert(GT::spow_steps(GT(gt_of(93, 69)), GT(gt_of(40, 95)), 9) == GT::spow_steps(GT(gt_of(94, 91)), GT(gt_of(49, 90)), 4));
    lemma_gt_mul_at((49, 90), (49, 90), (58, 13), (-57, 7));
    assert(GT::spow_steps(GT(gt_of(94, 91)), GT(gt_of(49, 90)), 4) == GT::spow_steps(GT(gt_of(94, 91)), GT(gt_of(58, 13)), 2));
    lemma_gt_mul_at((58, 13), (58, 13), (64, 26), (31, 13));
    assert(GT::spow_steps(GT(gt_of(94, 91)), GT(gt_of(58, 13)), 2) == GT::spow_steps(GT(gt_of(94, 91)), GT(gt_of(64, 26)), 1));
    lemma_gt_mul_at((94, 91), (64, 26), (14, 44), (36, 58));
    lemma_gt_mul_at((64, 26), (64, 26), (87, 26), (33, 26));
    assert(GT::spow_steps(GT(gt_of(94, 91)), GT(gt_of(64, 26)), 1) == GT::spow_steps(GT(gt_of(14, 44)), GT(gt_of(87, 26)), 0));
}

/// The pairing of `7G` with the point `15 P` of the image of `H`.
proof fn lemma_pairing_7_15()
    ensures
        smiller_loop(g1p(91, 35), dq(9, 5)) is Some,
        spairing_at(g1p(91, 35), dq(9, 5)) == GT(gt_of(14, 44)),
{
    lemma_final_exponent();
    lemma_tangent_7_15();
    lemma_tangent_14_15();
    lemma_tangent_11_15();
    lemma_tangent_5_15();
    lemma_vertical_at(91, 66, 35, 9, 5);
    lemma_miller_at(
        g1p(91, 35),
        dq(9, 5),
        (g1p(26, 56), g1p(32, 59), g1p(12, 32), g1p(91, 66)),
        (61, 98),
        (84, 13),
        (15, 100),
        (72, 74),
        (-91, 9),
        ((76, 29, -59, 23), (48, 17, 59, 30), (96, 30, 19, 13), (56, 81, -16, 69)),
        ((9, 87, -34, 24), (68, 88, -58, 4), (90, 94, -70, -82)),
    );
    lemma_final_exp_7_15();
}

proof fn lemma_final_exp_8_15()
    ensures
        GT(gt_of(58, 53)).spow(600) == GT(gt_of(96, 29)),
{
    assert(GT::sone() == GT(gt_of(1, 0)));
    lemma_gt_mul_at((58, 53), (58, 53), (50, 6), (5, 33));
    assert(GT::spow_steps(GT(gt_of(1, 0)), GT(gt_of(58, 53)), 600) == GT::spow_steps(GT(gt_of(1, 0)), GT(gt_of(50, 6)), 300));
    lemma_gt_mul_at((50, 6), (50, 6), (40, 59), (24, 5));
    assert(GT::spow_steps(GT(gt_of(1, 0)), GT(gt_of(50, 6)), 300) == GT::spow_steps(GT(gt_of(1, 0)), GT(gt_of(40, 59)), 150));
    lemma_gt_mul_at((40, 59), (40, 59), (38, 27), (-19, 12));
    assert(GT::spow_steps(GT(gt_of(1, 0)), GT(gt_of(40, 59)), 150) == GT::spow_steps(GT(gt_of(1, 0)), GT(gt_of(38, 27)), 75));
    lemma_gt_mul_at((1, 0), (38, 27), (38, 27), (0, 0));
    lemma_gt_mul_at((38, 27), (38, 27), (8, 10), (7, 13));
    assert(GT::spow_steps(GT(gt_of(1, 0)), GT(gt_of(38, 27)), 75) == GT::spow_steps(GT(gt_of(38, 27)), GT(gt_of(8, 10)), 37));
    lemma_gt_mul_at((38, 27), (8, 10), (34, 23), (0, 3));
    lemma_gt_mul_at((8, 10), (8, 10), (65, 60), (-1, 0));
    assert(GT::spow_steps(GT(gt_of(38, 27)), GT(gt_of(8, 10)), 37) == GT::spow_steps(GT(gt_of(34, 23)), GT(gt_of(65, 60)), 18));
    lemma_gt_mul_at((65, 60), (65, 60), (19, 59), (6, 41));
    assert(GT::spow_steps(GT(gt_of(34, 23)), GT(gt_of(65, 60)), 18) == GT::spow_steps(GT(gt_of(34, 23)), GT(gt_of(19, 59)), 9));
    lemma_gt_mul_at((34, 23), (19, 59), (97, 76), (-8, 10));
    lemma_gt_mul_at((19, 59), (19, 59), (11, 74), (-31, -13));
    assert(GT::spow_steps(GT(gt_of(34, 23)), GT(gt_of(19, 59)), 9) == GT::spow_steps(GT(gt_of(97, 76)), GT(gt_of(11, 74)), 4));
    lemma_gt_mul_at((11, 74), (11, 74), (99, 91), (-54, -39));
    assert(GT::spow_steps(GT(gt_of(97, 76)), GT(gt_of(11, 74)), 4) == GT::spow_steps(GT(gt_of(97, 76)), GT(gt_of(99, 91)), 2));
    lemma_gt_mul_at((99, 91), (99, 91), (5, 41), (15, 96));
    assert(GT::spow_steps(GT(gt_of(97, 76)), GT(gt_of(99, 91)), 2) == GT::spow_steps(GT(gt_of(97, 76)), GT(gt_of(5, 41)), 1));
    lemma_gt_mul_at((97, 76), (5, 41), (96, 29), (-27, 12));
    lemma_gt_mul_at((5, 41), (5, 41), (61, 42), (-17, -13));
    assert(GT::spow_steps(GT(gt_of(97, 76)), GT(gt_of(5, 41)), 1) == GT::spow_steps(GT(gt_of(96, 29)), GT(gt_of(61, 42)), 0));
}

/// The pairing of `8G` with the point `15 P` of the image of `H`.
proof fn lemma_pairing_8_15()
    ensures
        smiller_loop(g1p(18, 49), dq(9, 5)) is Some,
        spairing_at(g1p(18, 49), dq(9, 5)) == GT(gt_of(96, 29)),
{
    lemma_final_exponent();
    lemma_tangent_8_15();
    lemma_tangent_16_15();
    lemma_tangent_15_15();
    lemma_tangent_13_15();
    lemma_vertical_at(18, 52, 49, 9, 5);
    lemma_miller_at(
        g1p(18, 49),
        dq(9, 5),
        (g1p(1, 99), g1p(68, 27), g1p(65, 3), g1p(18, 52)),
        (24, 33),
        (72, 8),
        (42, 50),
        (13, 52),
        (-18, 9),
        ((93, 91, -6, 4), (9, 3, 59, 65), (72, 45, 0, 0), (67, 8, 7, 32)),
        ((82, 99, 43, 9), (59, 100, -41, 3), (58, 53, -20, -22)),
    );
    lemma_final_exp_8_15();
}

proof fn lemma_final_exp_9_15()
    ensures
        GT(gt_of(47, 84)).spow(600) == GT(gt_of(67, 72)),
{
    assert(GT::sone() == GT(gt_of(1, 0)));
    lemma_gt_mul_at((47, 84), (47, 84), (1, 32), (-48, 8));
    assert(GT::spow_steps(GT(gt_of(1, 0)), GT(gt_of(47, 84)), 600) == GT::spow_steps(GT(gt_of(1, 0)), GT(gt_of(1, 32)), 300));
    lemma_gt_mul_at((1, 32), (1, 32), (88, 50), (-11, -10));
    assert(GT::spow_steps(GT(gt_of(1, 0)), GT(gt_of(1, 32)), 300) == GT::spow_steps(GT(gt_of(1, 0)), GT(gt_of(88, 50)), 150));
    lemma_gt_mul_at((88, 50), (88, 50), (93, 38), (51, 62));
    assert(GT::spow_steps(GT(gt_of(1, 0)), GT(gt_of(88, 50)), 150) == GT::spow_steps(GT(gt_of(1, 0)), GT(gt_of(93, 38)), 75));
    lemma_gt_mul_at((1, 0), (93, 38), (93, 38), (0, 0));
    lemma_gt_mul_at((93, 38), (93, 38), (34, 69), (71, 55));
    assert(GT::spow_steps(GT(gt_of(1, 0)), GT(gt_of(93, 38)), 75) == GT::spow_steps(GT(gt_of(93, 38)), GT(gt_of(34, 69)), 37));
    lemma_gt_mul_at((93, 38), (34, 69), (35, 37), (5, 50));
    lemma_gt_mul_at((34, 69), (34, 69), (31, 32), (-36, -1));
    assert(GT::spow_steps(GT(gt_of(93, 38)), GT(gt_of(34, 69)), 37) == GT::spow_steps(GT(gt_of(35, 37)), GT(gt_of(31, 32)), 18));
    lemma_gt_mul_at((31, 32), (31, 32), (38, 51), (-1, 9));
    assert(GT::spow_steps(GT(gt_of(35, 37)), GT(gt_of(31, 32)), 18) == GT::spow_steps(GT(gt_of(35, 37)), GT(gt_of(38, 51)), 9));
    lemma_gt_mul_at((35, 37), (38, 51), (49, 92), (-6, 12));
    lemma_gt_mul_at((38, 51), (38, 51), (55, 63), (-12, 12));
    assert(GT::spow_steps(GT(gt_of(35, 37)), GT(gt_of(38, 51)), 9) == GT::spow_steps(GT(gt_of(49, 92)), GT(gt_of(55, 63)), 4));
    lemma_gt_mul_at((55, 63), (55, 63), (66, 32), (-10, 29));
    assert(GT::spow_steps(GT(gt_of(49, 92)), GT(gt_of(55, 63)), 4) == GT::spow_steps(GT(gt_of(49, 92)), GT(gt_of(66, 32)), 2));
    lemma_gt_mul_at((66, 32), (66, 32), (100, 69), (32, 31));
    assert(GT::spow_steps(GT(gt_of(49, 92)), GT(gt_of(66, 32)), 2) == GT::spow_steps(GT(gt_of(49, 92)), GT(gt_of(100, 69)), 1));
    lemma_gt_mul_at((49, 92), (100, 69), (67, 72), (-15, 61));
    lemma_gt_mul_at((100, 69), (100, 69), (88, 50), (51, 89));
    assert(GT::spow_steps(GT(gt_of(49, 92)), GT(gt_of(100, 69)), 1) == GT::spow_steps(GT(gt_of(67, 72)), GT(gt_of(88, 50)), 0));
}

/// The pairing of `9G` with the point `15 P` of the image of `H`.
proof fn lemma_pairing_9_15()
    ensures
        smiller_loop(g1p(18, 52), dq(9, 5)) is Some,
        spairing_at(g1p(18, 52), dq(9, 5)) == GT(gt_of(67, 72)),
{
    lemma_final_exponent();
    lemma_tangent_9_15();
    lemma_tangent_1_15();
    lemma_tangent_2_15();
    lemma_tangent_4_15();
    lemma_vertical_at(18, 49, 52, 9, 5);
    lemma_miller_at(
        g1p(18, 52),
        dq(9, 5),
        (g1p(1, 2), g1p(68, 74), g1p(65, 98), g1p(18, 49)),
        (87, 77),
        (56, 45),
        (23, 63),
        (25, 28),
        (-18, 9),
        ((24, 96, 16, 73), (54, 15, -30, 21), (65, 82, 26, 13), (66, 7, -37, 8)),
        ((65, 67, 42, 8), (52, 3, -3, 16), (47, 84, -10, 3)),
    );
    lemma_final_exp_9_15();
}

proof fn lemma_final_exp_10_15()
    ensures
        GT(gt_of(83, 86)).spow(600) == GT(gt_of(71, 57)),
{
    assert(GT::sone() == GT(gt_of(1, 0)));
    lemma_gt_mul_at((83, 86), (83, 86), (99, 12), (-6, 68));
    assert(GT::spow_steps(GT(gt_of(1, 0)), GT(gt_of(83, 86)), 600) == GT::spow_steps(GT(gt_of(1, 0)), GT(gt_of(99, 12)), 300));
    lemma_gt_mul_at((99, 12), (99, 12), (62, 10), (95, 22));
    assert(GT::spow_steps(GT(gt_of(1, 0)), GT(gt_of(99, 12)), 300) == GT::spow_steps(GT(gt_of(1, 0)), GT(gt_of(62, 10)), 150));
    lemma_gt_mul_at((62, 10), (62, 10), (7, 29), (37, 11));
    assert(GT::spow_steps(GT(gt_of(1, 0)), GT(gt_of(62, 10)), 150) == GT::spow_steps(GT(gt_of(1, 0)), GT(gt_of(7, 29)), 75));
    lemma_gt_mul_at((1, 0), (7, 29), (7, 29), (0, 0));
    lemma_gt_mul_at((7, 29), (7, 29), (16, 70), (-8, -5));
    assert(GT::spow_steps(GT(gt_of(1, 0)), GT(gt_of(7, 29)), 75) == GT::spow_steps(GT(gt_of(7, 29)), GT(gt_of(16, 70)), 37));
    lemma_gt_mul_at((7, 29), (16, 70), (1, 35), (-19, -11));
    lemma_gt_mul_at((16, 70), (16, 70), (2, 67), (-46, -27));
    assert(GT::spow_steps(GT(gt_of(7, 29)), GT(gt_of(16, 70)), 37) == GT::spow_steps(GT(gt_of(1, 35)), GT(gt_of(2, 67)), 18));
    lemma_gt_mul_at((2, 67), (2, 67), (60, 21), (-45, -42));
    assert(GT::spow_steps(GT(gt_of(1, 35)), GT(gt_of(2, 67)), 18) == GT::spow_steps(GT(gt_of(1, 35)), GT(gt_of(60, 21)), 9));
    lemma_gt_mul_at((1, 35), (60, 21), (32, 73), (-7, 13));
    lemma_gt_mul_at((60, 21), (60, 21), (28, 59), (31, 20));
    assert(GT::spow_steps(GT(gt_of(1, 35)), GT(gt_of(60, 21)), 9) == GT::spow_steps(GT(gt_of(32, 73)), GT(gt_of(28, 59)), 4));
    lemma_gt_mul_at((28, 59), (28, 59), (30, 25), (-27, -2));
    assert(GT::spow_steps(GT(gt_of(32, 73)), GT(gt_of(28, 59)), 4) == GT::spow_steps(GT(gt_of(32, 73)), GT(gt_of(30, 25)), 2));
    lemma_gt_mul_at((30, 25), (30, 25), (73, 67), (2, 8));
    assert(GT::spow_steps(GT(gt_of(32, 73)), GT(gt_of(30, 25)), 2) == GT::spow_steps(GT(gt_of(32, 73)), GT(gt_of(73, 67)), 1));
    lemma_gt_mul_at((32, 73), (73, 67), (71, 57), (-26, 25));
    lemma_gt_mul_at((73, 67), (73, 67), (32, 41), (8, 52));
    assert(GT::spow_steps(GT(gt_of(32, 73)), GT(gt_of(73, 67)), 1) == GT::spow_steps(GT(gt_of(71, 57)), GT(gt_of(32, 41)), 0));
}

/// The pairing of `10G` with the point `15 P` of the image of `H`.
proof fn lemma_pairing_10_15()
    ensures
        smiller_loop(g1p(91, 66), dq(9, 5)) is Some,
        spairing_at(g1p(91, 66), dq(9, 5)) == GT(gt_of(71, 57)),
{
    lemma_final_exponent();
    lemma_tangent_10_15();
    lemma_tangent_3_15();
    lemma_tangent_6_15();
    lemma_tangent_12_15();
    lemma_vertical_at(91, 35, 66, 9, 5);
    lemma_miller_at(
        g1p(91, 66),
        dq(9, 5),
        (g1p(26, 45), g1p(32, 42), g1p(12, 69), g1p(91, 35)),
        (85, 29),
        (75, 49),
        (79, 99),
        (28, 36),
        (-91, 9),
        ((21, 49, 63, 40), (83, 81, -9, 22), (25, 17, 3, 68), (90, 14, 2, 21)),
        ((26, 1, 78, 23), (86, 19, 6, 9), (83, 86, -80, -12)),
    );
    lemma_final_exp_10_15();
}

proof fn lemma_final_exp_11_15()
    ensures
        GT(gt_of(23, 51)).spow(600) == GT(gt_of(15, 55)),
{
    assert(GT::sone() == GT(gt_of(1, 0)));
    lemma_gt_mul_at((23, 51), (23, 51), (49, 48), (-21, -3));
    assert(GT::spow_steps(GT(gt_of(1, 0)), GT(gt_of(23, 51)), 600) == GT::spow_steps(GT(gt_of(1, 0)), GT(gt_of(49, 48)), 300));
    lemma_gt_mul_at((49, 48), (49, 48), (97, 77), (0, 23));
    assert(GT::spow_steps(GT(gt_of(1, 0)), GT(gt_of(49, 48)), 300) == GT::spow_steps(GT(gt_of(1, 0)), GT(gt_of(97, 77)), 150));
    lemma_gt_mul_at((97, 77), (97, 77), (46, 20), (34, 89));
    assert(GT::spow_steps(GT(gt_of(1, 0)), GT(gt_of(97, 77)), 150) == GT::spow_steps(GT(gt_of(1, 0)), GT(gt_of(46, 20)), 75));
    lemma_gt_mul_at((1, 0), (46, 20), (46, 20), (0, 0));
    lemma_gt_mul_at((46, 20), (46, 20), (100, 26), (16, 14));
    assert(GT::spow_steps(GT(gt_of(1, 0)), GT(gt_of(46, 20)), 75) == GT::spow_steps(GT(gt_of(46, 20)), GT(gt_of(100, 26)), 37));
    lemma_gt_mul_at((46, 20), (100, 26), (40, 50), (40, 26));
    lemma_gt_mul_at((100, 26), (100, 26), (32, 80), (92, 44));
    assert(GT::spow_steps(GT(gt_of(46, 20)), GT(gt_of(100, 26)), 37) == GT::spow_steps(GT(gt_of(40, 50)), GT(gt_of(32, 80)), 18));
    lemma_gt_mul_at((32, 80), (32, 80), (78, 33), (-54, -13));
    assert(GT::spow_steps(GT(gt_of(40, 50)), GT(gt_of(32, 80)), 18) == GT::spow_steps(GT(gt_of(40, 50)), GT(gt_of(78, 33)), 9));
    lemma_gt_mul_at((40, 50), (78, 33), (56, 35), (14, 35));
    lemma_gt_mul_at((78, 33), (78, 33), (46, 19), (49, 40));
    assert(GT::spow_steps(GT(gt_of(40, 50)), GT(gt_of(78, 33)), 9) == GT::spow_steps(GT(gt_of(56, 35)), GT(gt_of(46, 19)), 4));
    lemma_gt_mul_at((46, 19), (46, 19), (38, 74), (17, 13));
    assert(GT::spow_steps(GT(gt_of(56, 35)), GT(gt_of(46, 19)), 4) == GT::spow_steps(GT(gt_of(56, 35)), GT(gt_of(38, 74)), 2));
    lemma_gt_mul_at((38, 74), (38, 74), (8, 47), (-40, 1));
    assert(GT::spow_steps(GT(gt_of(56, 35)), GT(gt_of(38, 74)), 2) == GT::spow_steps(GT(gt_of(56, 35)), GT(gt_of(8, 47)), 1));
    lemma_gt_mul_at((56, 35), (8, 47), (15, 55), (-12, 12));
    lemma_gt_mul_at((8, 47), (8, 47), (77, 58), (-22, -15));
    assert(GT::spow_steps(GT(gt_of(56, 35)), GT(gt_of(8, 47)), 1) == GT::spow_steps(GT(gt_of(15, 55)), GT(gt_of(77, 58)), 0));
}

/// The pairing of `11G` with the point `15 P` of the image of `H`.
proof fn lemma_pairing_11_15()
    ensures
        smiller_loop(g1p(32, 59), dq(9, 5)) is Some,
        spairing_at(g1p(32, 59), dq(9, 5)) == GT(gt_of(15, 55)),
{
    lemma_final_exponent();
    lemma_tangent_11_15();
    lemma_tangent_5_15();
    lemma_tangent_10_15();
    lemma_tangent_3_15();
    lemma_vertical_at(32, 42, 59, 9, 5);
    lemma_miller_at(
        g1p(32, 59),
        dq(9, 5),
        (g1p(12, 32), g1p(91, 66), g1p(26, 45), g1p(32, 42)),
        (15, 100),
        (72, 74),
        (85, 29),
        (75, 49),
        (-32, 9),
        ((22, 70, -97, -70), (40, 74, -36, 14), (63, 40, -39, 4), (54, 27, 41, 40)),
        ((66, 66, 21, 21), (100, 1, 16, 49), (23, 51, -32, 8)),
    );
    lemma_final_exp_11_15();
}

proof fn lemma_final_exp_12_15()
    ensures
        GT(gt_of(20, 95)).spow(600) == GT(gt_of(90, 62)),
{
    assert(GT::sone() == GT(gt_of(1, 0)));
    lemma_gt_mul_at((20, 95), (20, 95), (61, 27), (-86, -52));
    assert(GT::spow_steps(GT(gt_of(1, 0)), GT(gt_of(20, 95)), 600) == GT::spow_steps(GT(gt_of(1, 0)), GT(gt_of(61, 27)), 300));
    lemma_gt_mul_at((61, 27), (61, 27), (63, 40), (29, 25));
    assert(GT::spow_steps(GT(gt_of(1, 0)), GT(gt_of(61, 27)), 300) == GT::spow_steps(GT(gt_of(1, 0)), GT(gt_of(63, 40)), 150));
    lemma_gt_mul_at((63, 40), (63, 40), (46, 6), (23, 34));
    assert(GT::spow_steps(GT(gt_of(1, 0)), GT(gt_of(63, 40)), 150) == GT::spow_steps(GT(gt_of(1, 0)), GT(gt_of(46, 6)), 75));
    lemma_gt_mul_at((1, 0), (46, 6), (46, 6), (0, 0));
    lemma_gt_mul_at((46, 6), (46, 6), (60, 11), (20, 5));
    assert(GT::spow_steps(GT(gt_of(1, 0)), GT(gt_of(46, 6)), 75) == GT::spow_steps(GT(gt_of(46, 6)), GT(gt_of(60, 11)), 37));
    lemma_gt_mul_at((46, 6), (60, 11), (68, 93), (26, 7));
    lemma_gt_mul_at((60, 11), (60, 11), (45, 88), (34, 11));
    assert(GT::spow_steps(GT(gt_of(46, 6)), GT(gt_of(60, 11)), 37) == GT::spow_steps(GT(gt_of(68, 93)), GT(gt_of(45, 88)), 18));
    lemma_gt_mul_at((45, 88), (45, 88), (38, 75), (-57, 1));
    assert(GT::spow_steps(GT(gt_of(68, 93)), GT(gt_of(45, 88)), 18) == GT::spow_steps(GT(gt_of(68, 93)), GT(gt_of(38, 75)), 9));
    lemma_gt_mul_at((68, 93), (38, 75), (53, 43), (-44, 16));
    lemma_gt_mul_at((38, 75), (38, 75), (61, 75), (-42, 0));
    assert(GT::spow_steps(GT(gt_of(68, 93)), GT(gt_of(38, 75)), 9) == GT::spow_steps(GT(gt_of(53, 43)), GT(gt_of(61, 75)), 4));
    lemma_gt_mul_at((61, 75), (61, 75), (15, 91), (-19, 34));
    assert(GT::spow_steps(GT(gt_of(53, 43)), GT(gt_of(61, 75)), 4) == GT::spow_steps(GT(gt_of(53, 43)), GT(gt_of(15, 91)), 2));
    lemma_gt_mul_at((15, 91), (15, 91), (24, 4), (-80, -55));
    assert(GT::spow_steps(GT(gt_of(53, 43)), GT(gt_of(15, 91)), 2) == GT::spow_steps(GT(gt_of(53, 43)), GT(gt_of(24, 4)), 1));
    lemma_gt_mul_at((53, 43), (24, 4), (90, 62), (10, 10));
    lemma_gt_mul_at((24, 4), (24, 4), (55, 75), (5, 1));
    assert(GT::spow_steps(GT(gt_of(53, 43)), GT(gt_of(24, 4)), 1) == GT::spow_steps(GT(gt_of(90, 62)), GT(gt_of(55, 75)), 0));
}

/// The pairing of `12G` with the point `15 P` of the image of `H`.
proof fn lemma_pairing_12_15()
    ensures
        smiller_loop(g1p(12, 69), dq(9, 5)) is Some,
        spairing_at(g1p(12, 69), dq(9, 5)) == GT(gt_of(90, 62)),
{
    lemma_final_exponent();
    lemma_tangent_12_15();
    lemma_tangent_7_15();
    lemma_tangent_14_15();
    lemma_tangent_11_15();
    lemma_vertical_at(12, 32, 69, 9, 5);
    lemma_miller_at(
        g1p(12, 69),
        dq(9, 5),
        (g1p(91, 35), g1p(26, 56), g1p(32, 59), g1p(12, 32)),
        (28, 36),
        (61, 98),
        (84, 13),
        (15, 100),
        (-12, 9),
        ((94, 13, -6, 7), (16, 45, 44, 86), (49, 21, -18, -6), (5, 7, 38, 21)),
        ((77, 21, -1, 0), (65, 57, -10, 58), (20, 95, -13, -7)),
    );
    lemma_final_exp_12_15();
}

proof fn lemma_final_exp_13_15()
    ensures
        GT(gt_of(29, 2)).spow(600) == GT(gt_of(42, 92)),
{
    assert(GT::sone() == GT(gt_of(1, 0)));
    lemma_gt_mul_at((29, 2), (29, 2), (29, 11), (8, 1));
    assert(GT::spow_steps(GT(gt_of(1, 0)), GT(gt_of(29, 2)), 600) == GT::spow_steps(GT(gt_of(1, 0)), GT(gt_of(29, 11)), 300));
    lemma_gt_mul_at((29, 11), (29, 11), (13, 12), (7, 5));
    assert(GT::spow_steps(GT(gt_of(1, 0)), GT(gt_of(29, 11)), 300) == GT::spow_steps(GT(gt_of(1, 0)), GT(gt_of(13, 12)), 150));
    lemma_gt_mul_at((13, 12), (13, 12), (25, 67), (0, 1));
    assert(GT::spow_steps(GT(gt_of(1, 0)), GT(gt_of(13, 12)), 150) == GT::spow_steps(GT(gt_of(1, 0)), GT(gt_of(25, 67)), 75));
    lemma_gt_mul_at((1, 0), (25, 67), (25, 67), (0, 0));
    lemma_gt_mul_at((25, 67), (25, 67), (75, 73), (-39, -12));
    assert(GT::spow_steps(GT(gt_of(1, 0)), GT(gt_of(25, 67)), 75) == GT::spow_steps(GT(gt_of(25, 67)), GT(gt_of(75, 73)), 37));
    lemma_gt_mul_at((25, 67), (75, 73), (14, 40), (-30, 19));
    lemma_gt_mul_at((75, 73), (75, 73), (94, 66), (2, 55));
    assert(GT::spow_steps(GT(gt_of(25, 67)), GT(gt_of(75, 73)), 37) == GT::spow_steps(GT(gt_of(14, 40)), GT(gt_of(94, 66)), 18));
    lemma_gt_mul_at((94, 66), (94, 66), (36, 73), (44, 79));
    assert(GT::spow_steps(GT(gt_of(14, 40)), GT(gt_of(94, 66)), 18) == GT::spow_steps(GT(gt_of(14, 40)), GT(gt_of(36, 73)), 9));
    lemma_gt_mul_at((14, 40), (36, 73), (8, 47), (-24, -5));
    lemma_gt_mul_at((36, 73), (36, 73), (7, 28), (-40, -1));
    assert(GT::spow_steps(GT(gt_of(14, 40)), GT(gt_of(36, 73)), 9) == GT::spow_steps(GT(gt_of(8, 47)), GT(gt_of(7, 28)), 4));
    lemma_gt_mul_at((7, 28), (7, 28), (73, 12), (-8, -4));
    assert(GT::spow_steps(GT(gt_of(8, 47)), GT(gt_of(7, 28)), 4) == GT::spow_steps(GT(gt_of(8, 47)), GT(gt_of(73, 12)), 2));
    lemma_gt_mul_at((73, 12), (73, 12), (34, 93), (51, 15));
    assert(GT::spow_steps(GT(gt_of(8, 47)), GT(gt_of(73, 12)), 2) == GT::spow_steps(GT(gt_of(8, 47)), GT(gt_of(34, 93)), 1));
    lemma_gt_mul_at((8, 47), (34, 93), (42, 92), (-41, -21));
    lemma_gt_mul_at((34, 93), (34, 93), (82, 99), (-75, -24));
    assert(GT::spow_steps(GT(gt_of(8, 47)), GT(gt_of(34, 93)), 1) == GT::spow_steps(GT(gt_of(42, 92)), GT(gt_of(82, 99)), 0));
}

/// The pairing of `13G` with the point `15 P` of the image of `H`.
proof fn lemma_pairing_13_15()
    ensures
        smiller_loop(g1p(65, 3), dq(9, 5)) is Some,
        spairing_at(g1p(65, 3), dq(9, 5)) == GT(gt_of(42, 92)),
{
    lemma_final_exponent();
    lemma_tangent_13_15();
    lemma_tangent_9_15();
    lemma_tangent_1_15();
    lemma_tangent_2_15();
    lemma_vertical_at(65, 98, 3, 9, 5);
    lemma_miller_at(
        g1p(65, 3),
        dq(9, 5),
        (g1p(18, 52), g1p(1, 2), g1p(68, 74), g1p(65, 98)),
        (13, 52),
        (87, 77),
        (56, 45),
        (23, 63),
        (-65, 9),
        ((91, 62, -26, -14), (12, 52, 31, 75), (66, 59, -26, -15), (31, 84, 10, 35)),
        ((66, 71, -61, -19), (75, 5, -30, 13), (29, 2, -49, 3)),
    );
    lemma_final_exp_13_15();
}

proof fn lemma_final_exp_14_15()
    ensures
        GT(gt_of(37, 98)).spow(600) == GT(gt_of(78, 3)),
{
    assert(GT::sone() == GT(gt_of(1, 0)));
    lemma_gt_mul_at((37, 98), (37, 98), (47, 72), (-82, -24));
    assert(GT::spow_steps(GT(gt_of(1, 0)), GT(gt_of(37, 98)), 600) == GT::spow_steps(GT(gt_of(1, 0)), GT(gt_of(47, 72)), 300));
    lemma_gt_mul_at((47, 72), (47, 72), (55, 69), (-30, 15));
    assert(GT::spow_steps(GT(gt_of(1, 0)), GT(gt_of(47, 72)), 300) == GT::spow_steps(GT(gt_of(1, 0)), GT(gt_of(55, 69)), 150));
    lemma_gt_mul_at((55, 69), (55, 69), (82, 1), (-18, 28));
    assert(GT::spow_steps(GT(gt_of(1, 0)), GT(gt_of(55, 69)), 150) == GT::spow_steps(GT(gt_of(1, 0)), GT(gt_of(82, 1)), 75));
    lemma_gt_mul_at((1, 0), (82, 1), (82, 1), (0, 0));
    lemma_gt_mul_at((82, 1), (82, 1), (57, 62), (66, 1));
    assert(GT::spow_steps(GT(gt_of(1, 0)), GT(gt_of(82, 1)), 75) == GT::spow_steps(GT(gt_of(82, 1)), GT(gt_of(57, 62)), 37));
    lemma_gt_mul_at((82, 1), (57, 62), (67, 29), (45, 50));
    lemma_gt_mul_at((57, 62), (57, 62), (11, 93), (-6, 31));
    assert(GT::spow_steps(GT(gt_of(82, 1)), GT(gt_of(57, 62)), 37) == GT::spow_steps(GT(gt_of(67, 29)), GT(gt_of(11, 93)), 18));
    lemma_gt_mul_at((11, 93), (11, 93), (57, 63), (-85, -66));
    assert(GT::spow_steps(GT(gt_of(67, 29)), GT(gt_of(11, 93)), 18) == GT::spow_steps(GT(gt_of(67, 29)), GT(gt_of(57, 63)), 9));
    lemma_gt_mul_at((67, 29), (57, 63), (73, 7), (19, 40));
    lemma_gt_mul_at((57, 63), (57, 63), (88, 82), (-8, 31));
    assert(GT::spow_steps(GT(gt_of(67, 29)), GT(gt_of(57, 63)), 9) == GT::spow_steps(GT(gt_of(73, 7)), GT(gt_of(88, 82)), 4));
    lemma_gt_mul_at((88, 82), (88, 82), (10, 32), (10, 76));
    assert(GT::spow_steps(GT(gt_of(73, 7)), GT(gt_of(88, 82)), 4) == GT::spow_steps(GT(gt_of(73, 7)), GT(gt_of(10, 32)), 2));
    lemma_gt_mul_at((10, 32), (10, 32), (86, 20), (-10, -4));
    assert(GT::spow_steps(GT(gt_of(73, 7)), GT(gt_of(10, 32)), 2) == GT::spow_steps(GT(gt_of(73, 7)), GT(gt_of(86, 20)), 1));
    lemma_gt_mul_at((73, 7), (86, 20), (78, 3), (60, 19));
    lemma_gt_mul_at((86, 20), (86, 20), (27, 10), (69, 30));
    assert(GT::spow_steps(GT(gt_of(73, 7)), GT(gt_of(86, 20)), 1) == GT::spow_steps(GT(gt_of(78, 3)), GT(gt_of(27, 10)), 0));
}

/// The pairing of `14G` with the point `15 P` of the image of `H`.
proof fn lemma_pairing_14_15()
    ensures
        smiller_loop(g1p(26, 56), dq(9, 5)) is Some,
        spairing_at(g1p(26, 56), dq(9, 5)) == GT(gt_of(78, 3)),
{
    lemma_final_exponent();
    lemma_tangent_14_15();
    lemma_tangent_11_15();
    lemma_tangent_5_15();
    lemma_tangent_10_15();
    lemma_vertical_at(26, 45, 56, 9, 5);
    lemma_miller_at(
        g1p(26, 56),
        dq(9, 5),
        (g1p(32, 59), g1p(12, 32), g1p(91, 66), g1p(26, 45)),
        (84, 13),
        (15, 100),
        (72, 74),
        (85, 29),
        (-26, 9),
        ((19, 96, 68, 19), (78, 2, -93, -62), (20, 5, 60, 3), (60, 56, 10, 14)),
        ((60, 49, 4, 35), (43, 40, 36, 44), (37, 98, -15, -11)),
    );
    lemma_final_exp_14_15();
}

proof fn lemma_final_exp_15_15()
    ensures
        GT(gt_of(97, 71)).spow(600) == GT(gt_of(68, 21)),
{
    assert(GT::sone() == GT(gt_of(1, 0)));
    lemma_gt_mul_at((97, 71), (97, 71), (25, 47), (43, 86));
    assert(GT::spow_steps(GT(gt_of(1, 0)), GT(gt_of(97, 71)), 600) == GT::spow_steps(GT(gt_of(1, 0)), GT(gt_of(25, 47)), 300));
    lemma_gt_mul_at((25, 47), (25, 47), (32, 40), (-16, 1));
    assert(GT::spow_steps(GT(gt_of(1, 0)), GT(gt_of(25, 47)), 300) == GT::spow_steps(GT(gt_of(1, 0)), GT(gt_of(32, 40)), 150));
    lemma_gt_mul_at((32, 40), (32, 40), (30, 51), (-6, 9));
    assert(GT::spow_steps(GT(gt_of(1, 0)), GT(gt_of(32, 40)), 150) == GT::spow_steps(GT(gt_of(1, 0)), GT(gt_of(30, 51)), 75));
    lemma_gt_mul_at((1, 0), (30, 51), (30, 51), (0, 0));
    lemma_gt_mul_at((30, 51), (30, 51), (16, 55), (-17, 4));
    assert(GT::spow_steps(GT(gt_of(1, 0)), GT(gt_of(30, 51)), 75) == GT::spow_steps(GT(gt_of(30, 51)), GT(gt_of(16, 55)), 37));
    lemma_gt_mul_at((30, 51), (16, 55), (99, 65), (-24, -4));
    lemma_gt_mul_at((16, 55), (16, 55), (59, 48), (-28, -13));
    assert(GT::spow_steps(GT(gt_of(30, 51)), GT(gt_of(16, 55)), 37) == GT::spow_steps(GT(gt_of(99, 65)), GT(gt_of(59, 48)), 18));
    lemma_gt_mul_at((59, 48), (59, 48), (66, 27), (11, 33));
    assert(GT::spow_steps(GT(gt_of(99, 65)), GT(gt_of(59, 48)), 18) == GT::spow_steps(GT(gt_of(99, 65)), GT(gt_of(66, 27)), 9));
    lemma_gt_mul_at((99, 65), (66, 27), (32, 57), (47, 51));
    lemma_gt_mul_at((66, 27), (66, 27), (92, 7), (35, 28));
    assert(GT::spow_steps(GT(gt_of(99, 65)), GT(gt_of(66, 27)), 9) == GT::spow_steps(GT(gt_of(32, 57)), GT(gt_of(92, 7)), 4));
    lemma_gt_mul_at((92, 7), (92, 7), (32, 27), (83, 12));
    assert(GT::spow_steps(GT(gt_of(32, 57)), GT(gt_of(92, 7)), 4) == GT::spow_steps(GT(gt_of(32, 57)), GT(gt_of(32, 27)), 2));
    lemma_gt_mul_at((32, 27), (32, 27), (93, 90), (2, 9));
    assert(GT::spow_steps(GT(gt_of(32, 57)), GT(gt_of(32, 27)), 2) == GT::spow_steps(GT(gt_of(32, 57)), GT(gt_of(93, 90)), 1));
    lemma_gt_mul_at((32, 57), (93, 90), (68, 21), (-22, 30));
    lemma_gt_mul_at((93, 90), (93, 90), (44, 55), (5, 85));
    assert(GT::spow_steps(GT(gt_of(32, 57)), GT(gt_of(93, 90)), 1) == GT::spow_steps(GT(gt_of(68, 21)), GT(gt_of(44, 55)), 0));
}

/// The pairing of `15G` with the point `15 P` of the image of `H`.
proof fn lemma_pairing_15_15()
    ensures
        smiller_loop(g1p(68, 27), dq(9, 5)) is Some,
        spairing_at(g1p(68, 27), dq(9, 5)) == GT(gt_of(68, 21)),
{
    lemma_final_exponent();
    lemma_tangent_15_15();
    lemma_tangent_13_15();
    lemma_tangent_9_15();
    lemma_tangent_1_15();
    lemma_vertical_at(68, 74, 27, 9, 5);
    lemma_miller_at(
        g1p(68, 27),
        dq(9, 5),
        (g1p(65, 3), g1p(18, 52), g1p(1, 2), g1p(68, 74)),
        (42, 50),
        (13, 52),
        (87, 77),
        (56, 45),
        (-68, 9),
        ((72, 84, -8, 16), (2, 64, -34, 4), (49, 99, -41, -39), (74, 16, -34, 47)),
        ((69, 92, 51, 20), (27, 77, -3, 40), (97, 71, -26, -57)),
    );
    lemma_final_exp_15_15();
}

proof fn lemma_final_exp_16_15()
    ensures
        GT(gt_of(70, 69)).spow(600) == GT(gt_of(93, 81)),
{
    assert(GT::sone() == GT(gt_of(1, 0)));
    lemma_gt_mul_at((70, 69), (70, 69), (38, 51), (1, 48));
    assert(GT::spow_steps(GT(gt_of(1, 0)), GT(gt_of(70, 69)), 600) == GT::spow_steps(GT(gt_of(1, 0)), GT(gt_of(38, 51)), 300));
    lemma_gt_mul_at((38, 51), (38, 51), (55, 63), (-12, 12));
    assert(GT::spow_steps(GT(gt_of(1, 0)), GT(gt_of(38, 51)), 300) == GT::spow_steps(GT(gt_of(1, 0)), GT(gt_of(55, 63)), 150));
    lemma_gt_mul_at((55, 63), (55, 63), (66, 32), (-10, 29));
    assert(GT::spow_steps(GT(gt_of(1, 0)), GT(gt_of(55, 63)), 150) == GT::spow_steps(GT(gt_of(1, 0)), GT(gt_of(66, 32)), 75));
    lemma_gt_mul_at((1, 0), (66, 32), (66, 32), (0, 0));
    lemma_gt_mul_at((66, 32), (66, 32), (100, 69), (32, 31));
    assert(GT::spow_steps(GT(gt_of(1, 0)), GT(gt_of(66, 32)), 75) == GT::spow_steps(GT(gt_of(66, 32)), GT(gt_of(100, 69)), 37));
    lemma_gt_mul_at((66, 32), (100, 69), (49, 92), (43, 54));
    lemma_gt_mul_at((100, 69), (100, 69), (88, 50), (51, 89));
    assert(GT::spow_steps(GT(gt_of(66, 32)), GT(gt_of(100, 69)), 37) == GT::spow_steps(GT(gt_of(49, 92)), GT(gt_of(88, 50)), 18));
    lemma_gt_mul_at((88, 50), (88, 50), (93, 38), (51, 62));
    assert(GT::spow_steps(GT(gt_of(49, 92)), GT(gt_of(88, 50)), 18) == GT::spow_steps(GT(gt_of(49, 92)), GT(gt_of(93, 38)), 9));
    lemma_gt_mul_at((49, 92), (93, 38), (51, 54), (10, 68));
    lemma_gt_mul_at((93, 38), (93, 38), (34, 69), (71, 55));
    assert(GT::spow_steps(GT(gt_of(49, 92)), GT(gt_of(93, 38)), 9) == GT::spow_steps(GT(gt_of(51, 54)), GT(gt_of(34, 69)), 4));
    lemma_gt_mul_at((34, 69), (34, 69), (31, 32), (-36, -1));
    assert(GT::spow_steps(GT(gt_of(51, 54)), GT(gt_of(34, 69)), 4) == GT::spow_steps(GT(gt_of(51, 54)), GT(gt_of(31, 32)), 2));
    lemma_gt_mul_at((31, 32), (31, 32), (38, 51), (-1, 9));
    assert(GT::spow_steps(GT(gt_of(51, 54)), GT(gt_of(31, 32)), 2) == GT::spow_steps(GT(gt_of(51, 54)), GT(gt_of(38, 51)), 1));
    lemma_gt_mul_at((51, 54), (38, 51), (93, 81), (-9, 18));
    lemma_gt_mul_at((38, 51), (38, 51), (55, 63), (-12, 12));
    assert(GT::spow_steps(GT(gt_of(51, 54)), GT(gt_of(38, 51)), 1) == GT::spow_steps(GT(gt_of(93, 81)), GT(gt_of(55, 63)), 0));
}

/// The pairing of `16G` with the point `15 P` of the image of `H`.
proof fn lemma_pairing_16_15()
    ensures
        smiller_loop(g1p(1, 99), dq(9, 5)) is Some,
        spairing_at(g1p(1, 99), dq(9, 5)) == GT(gt_of(93, 81)),
{
    lemma_final_exponent();
    lemma_tangent_16_15();
    lemma_tangent_15_15();
    lemma_tangent_13_15();
    lemma_tangent_9_15();
    lemma_vertical_at(1, 2, 99, 9, 5);
    lemma_miller_at(
        g1p(1, 99),
        dq(9, 5),
        (g1p(68, 27), g1p(65, 3), g1p(18, 52), g1p(1, 2)),
        (72, 8),
        (42, 50),
        (13, 52),
        (87, 77),
        (-1, 9),
        ((70, 78, 50, 10), (50, 48, -10, 28), (95, 72, 1, 24), (16, 11, -25, 21)),
        ((34, 29, 1, 2), (18, 80, 7, 28), (70, 69, -8, -7)),
    );
    lemma_final_exp_16_15();
}

proof fn lemma_final_exp_1_16()
    ensures
        GT(gt_of(66, 68)).spow(600) == GT(gt_of(67, 72)),
{
    assert(GT::sone() == GT(gt_of(1, 0)));
    lemma_gt_mul_at((66, 68), (66, 68), (35, 9), (-3, 43));
    assert(GT::spow_steps(GT(gt_of(1, 0)), GT(gt_of(66, 68)), 600) == GT::spow_steps(GT(gt_of(1, 0)), GT(gt_of(35, 9)), 300));
    lemma_gt_mul_at((35, 9), (35, 9), (33, 44), (11, 5));
    assert(GT::spow_steps(GT(gt_of(1, 0)), GT(gt_of(35, 9)), 300) == GT::spow_steps(GT(gt_of(1, 0)), GT(gt_of(33, 44)), 150));
    lemma_gt_mul_at((33, 44), (33, 44), (62, 59), (-9, 9));
    assert(GT::spow_steps(GT(gt_of(1, 0)), GT(gt_of(33, 44)), 150) == GT::spow_steps(GT(gt_of(1, 0)), GT(gt_of(62, 59)), 75));
    lemma_gt_mul_at((1, 0), (62, 59), (62, 59), (0, 0));
    lemma_gt_mul_at((62, 59), (62, 59), (60, 98), (3, 37));
    assert(GT::spow_steps(GT(gt_of(1, 0)), GT(gt_of(62, 59)), 75) == GT::spow_steps(GT(gt_of(62, 59)), GT(gt_of(60, 98)), 37));
    lemma_gt_mul_at((62, 59), (60, 98), (59, 97), (-21, 37));
    lemma_gt_mul_at((60, 98), (60, 98), (56, 35), (-60, 21));
    assert(GT::spow_steps(GT(gt_of(62, 59)), GT(gt_of(60, 98)), 37) == GT::spow_steps(GT(gt_of(59, 97)), GT(gt_of(56, 35)), 18));
    lemma_gt_mul_at((56, 35), (56, 35), (93, 69), (18, 26));
    assert(GT::spow_steps(GT(gt_of(59, 97)), GT(gt_of(56, 35)), 18) == GT::spow_steps(GT(gt_of(59, 97)), GT(gt_of(93, 69)), 9));
    lemma_gt_mul_at((59, 97), (93, 69), (6, 36), (-12, 63));
    lemma_gt_mul_at((93, 69), (93, 69), (50, 94), (38, 79));
    assert(GT::spow_steps(GT(gt_of(59, 97)), GT(gt_of(93, 69)), 9) == GT::spow_steps(GT(gt_of(6, 36)), GT(gt_of(50, 94)), 4));
    lemma_gt_mul_at((50, 94), (50, 94), (27, 59), (-63, 5));
    assert(GT::spow_steps(GT(gt_of(6, 36)), GT(gt_of(50, 94)), 4) == GT::spow_steps(GT(gt_of(6, 36)), GT(gt_of(27, 59)), 2));
    lemma_gt_mul_at((27, 59), (27, 59), (76, 8), (-28, -3));
    assert(GT::spow_steps(GT(gt_of(6, 36)), GT(gt_of(27, 59)), 2) == GT::spow_steps(GT(gt_of(6, 36)), GT(gt_of(76, 8)), 1));
    lemma_gt_mul_at((6, 36), (76, 8), (67, 72), (1, 24));
    lemma_gt_mul_at((76, 8), (76, 8), (56, 41), (56, 11));
    assert(GT::spow_steps(GT(gt_of(6, 36)), GT(gt_of(76, 8)), 1) == GT::spow_steps(GT(gt_of(67, 72)), GT(gt_of(56, 41)), 0));
}

/// The pairing of `1G` with the point `16 P` of the image of `H`.
proof fn lemma_pairing_1_16()
    ensures
        smiller_loop(g1p(1, 2), dq(68, 74)) is Some,
        spairing_at(g1p(1, 2), dq(68, 74)) == GT(gt_of(67, 72)),
{
    lemma_final_exponent();
    lemma_tangent_1_16();
    lemma_tangent_2_16();
    lemma_tangent_4_16();
    lemma_tangent_8_16();
    lemma_vertical_at(1, 99, 2, 68, 74);
    lemma_miller_at(
        g1p(1, 2),
        dq(68, 74),
        (g1p(68, 74), g1p(65, 98), g1p(18, 49), g1p(1, 99)),
        (28, 27),
        (14, 59),
        (72, 66),
        (12, 57),
        (-1, 68),
        ((55, 76, 0, 7), (23, 27, -37, -2), (2, 8, -2, 5), (20, 79, -4, 1)),
        ((17, 50, -58, -31), (81, 32, -27, -13), (66, 68, -23, 32)),
    );
    lemma_final_exp_1_16();
}

proof fn lemma_final_exp_2_16()
    ensures
        GT(gt_of(22, 42)).spow(600) == GT(gt_of(12, 20)),
{
    assert(GT::sone() == GT(gt_of(1, 0)));
    lemma_gt_mul_at((22, 42), (22, 42), (33, 84), (-13, 0));
    assert(GT::spow_steps(GT(gt_of(1, 0)), GT(gt_of(22, 42)), 600) == GT::spow_steps(GT(gt_of(1, 0)), GT(gt_of(33, 84)), 300));
    lemma_gt_mul_at((33, 84), (33, 84), (93, 3), (-60, -15));
    assert(GT::spow_steps(GT(gt_of(1, 0)), GT(gt_of(33, 84)), 300) == GT::spow_steps(GT(gt_of(1, 0)), GT(gt_of(93, 3)), 150));
    lemma_gt_mul_at((93, 3), (93, 3), (55, 44), (85, 5));
    assert(GT::spow_steps(GT(gt_of(1, 0)), GT(gt_of(93, 3)), 150) == GT::spow_steps(GT(gt_of(1, 0)), GT(gt_of(55, 44)), 75));
    lemma_gt_mul_at((1, 0), (55, 44), (55, 44), (0, 0));
    lemma_gt_mul_at((55, 44), (55, 44), (79, 76), (10, 28));
    assert(GT::spow_steps(GT(gt_of(1, 0)), GT(gt_of(55, 44)), 75) == GT::spow_steps(GT(gt_of(55, 44)), GT(gt_of(79, 76)), 37));
    lemma_gt_mul_at((55, 44), (79, 76), (92, 70), (9, 42));
    lemma_gt_mul_at((79, 76), (79, 76), (61, 71), (4, 61));
    assert(GT::spow_steps(GT(gt_of(55, 44)), GT(gt_of(79, 76)), 37) == GT::spow_steps(GT(gt_of(92, 70)), GT(gt_of(61, 71)), 18));
    lemma_gt_mul_at((61, 71), (61, 71), (94, 86), (-14, 35));
    assert(GT::spow_steps(GT(gt_of(92, 70)), GT(gt_of(61, 71)), 18) == GT::spow_steps(GT(gt_of(92, 70)), GT(gt_of(94, 86)), 9));
    lemma_gt_mul_at((92, 70), (94, 86), (2, 89), (26, 83));
    lemma_gt_mul_at((94, 86), (94, 86), (26, 86), (14, 86));
    assert(GT::spow_steps(GT(gt_of(92, 70)), GT(gt_of(94, 86)), 9) == GT::spow_steps(GT(gt_of(2, 89)), GT(gt_of(26, 86)), 4));
    lemma_gt_mul_at((26, 86), (26, 86), (47, 5), (-67, -29));
    assert(GT::spow_steps(GT(gt_of(2, 89)), GT(gt_of(26, 86)), 4) == GT::spow_steps(GT(gt_of(2, 89)), GT(gt_of(47, 5)), 2));
    lemma_gt_mul_at((47, 5), (47, 5), (63, 41), (21, 4));
    assert(GT::spow_steps(GT(gt_of(2, 89)), GT(gt_of(47, 5)), 2) == GT::spow_steps(GT(gt_of(2, 89)), GT(gt_of(63, 41)), 1));
    lemma_gt_mul_at((2, 89), (63, 41), (12, 20), (-35, 20));
    lemma_gt_mul_at((63, 41), (63, 41), (66, 51), (22, 34));
    assert(GT::spow_steps(GT(gt_of(2, 89)), GT(gt_of(63, 41)), 1) == GT::spow_steps(GT(gt_of(12, 20)), GT(gt_of(66, 51)), 0));
}

/// The pairing of `2G` with the point `16 P` of the image of `H`.
proof fn lemma_pairing_2_16()
    ensures
        smiller_loop(g1p(68, 74), dq(68, 74)) is Some,
        spairing_at(g1p(68, 74), dq(68, 74)) == GT(gt_of(12, 20)),
{
    lemma_final_exponent();
    lemma_tangent_2_16();
    lemma_tangent_4_16();
    lemma_tangent_8_16();
    lemma_tangent_16_16();
    lemma_vertical_at(68, 27, 74, 68, 74);
    lemma_miller_at(
        g1p(68, 74),
        dq(68, 74),
        (g1p(65, 98), g1p(18, 49), g1p(1, 99), g1p(68, 27)),
        (14, 59),
        (72, 66),
        (12, 57),
        (26, 0),
        (-68, 68),
        ((48, 90, -33, -19), (41, 72, -25, 36), (32, 13, -35, 7), (47, 27, -4, 12)),
        ((66, 92, 14, 17), (100, 69, 16, 23), (22, 42, -114, -26)),
    );
    lemma_final_exp_2_16();
}

proof fn lemma_final_exp_3_16()
    ensures
        GT(gt_of(47, 31)).spow(600) == GT(gt_of(71, 57)),
{
    assert(GT::sone() == GT(gt_of(1, 0)));
    lemma_gt_mul_at((47, 31), (47, 31), (36, 34), (12, 19));
    assert(GT::spow_steps(GT(gt_of(1, 0)), GT(gt_of(47, 31)), 600) == GT::spow_steps(GT(gt_of(1, 0)), GT(gt_of(36, 34)), 300));
    lemma_gt_mul_at((36, 34), (36, 34), (39, 80), (1, 12));
    assert(GT::spow_steps(GT(gt_of(1, 0)), GT(gt_of(36, 34)), 300) == GT::spow_steps(GT(gt_of(1, 0)), GT(gt_of(39, 80)), 150));
    lemma_gt_mul_at((39, 80), (39, 80), (70, 42), (-49, -2));
    assert(GT::spow_steps(GT(gt_of(1, 0)), GT(gt_of(39, 80)), 150) == GT::spow_steps(GT(gt_of(1, 0)), GT(gt_of(70, 42)), 75));
    lemma_gt_mul_at((1, 0), (70, 42), (70, 42), (0, 0));
    lemma_gt_mul_at((70, 42), (70, 42), (5, 76), (31, 40));
    assert(GT::spow_steps(GT(gt_of(1, 0)), GT(gt_of(70, 42)), 75) == GT::spow_steps(GT(gt_of(70, 42)), GT(gt_of(5, 76)), 37));
    lemma_gt_mul_at((70, 42), (5, 76), (87, 15), (-29, 23));
    lemma_gt_mul_at((5, 76), (5, 76), (6, 34), (-57, -50));
    assert(GT::spow_steps(GT(gt_of(70, 42)), GT(gt_of(5, 76)), 37) == GT::spow_steps(GT(gt_of(87, 15)), GT(gt_of(6, 34)), 18));
    lemma_gt_mul_at((6, 34), (6, 34), (92, 60), (-12, -8));
    assert(GT::spow_steps(GT(gt_of(87, 15)), GT(gt_of(6, 34)), 18) == GT::spow_steps(GT(gt_of(87, 15)), GT(gt_of(92, 60)), 9));
    lemma_gt_mul_at((87, 15), (92, 60), (34, 44), (70, 56));
    lemma_gt_mul_at((92, 60), (92, 60), (16, 67), (48, 73));
    assert(GT::spow_steps(GT(gt_of(87, 15)), GT(gt_of(92, 60)), 9) == GT::spow_steps(GT(gt_of(34, 44)), GT(gt_of(16, 67)), 4));
    lemma_gt_mul_at((16, 67), (16, 67), (9, 79), (-42, -24));
    assert(GT::spow_steps(GT(gt_of(34, 44)), GT(gt_of(16, 67)), 4) == GT::spow_steps(GT(gt_of(34, 44)), GT(gt_of(9, 79)), 2));
    lemma_gt_mul_at((9, 79), (9, 79), (1, 29), (-61, -48));
    assert(GT::spow_steps(GT(gt_of(34, 44)), GT(gt_of(9, 79)), 2) == GT::spow_steps(GT(gt_of(34, 44)), GT(gt_of(1, 29)), 1));
    lemma_gt_mul_at((34, 44), (1, 29), (71, 57), (-13, -3));
    lemma_gt_mul_at((1, 29), (1, 29), (69, 25), (-9, -8));
    assert(GT::spow_steps(GT(gt_of(34, 44)), GT(gt_of(1, 29)), 1) == GT::spow_steps(GT(gt_of(71, 57)), GT(gt_of(69, 25)), 0));
}

/// The pairing of `3G` with the point `16 P` of the image of `H`.
proof fn lemma_pairing_3_16()
    ensures
        smiller_loop(g1p(26, 45), dq(68, 74)) is Some,
        spairing_at(g1p(26, 45), dq(68, 74)) == GT(gt_of(71, 57)),
{
    lemma_final_exponent();
    lemma_tangent_3_16();
    lemma_tangent_6_16();
    lemma_tangent_12_16();
    lemma_tangent_7_16();
    lemma_vertical_at(26, 56, 45, 68, 74);
    lemma_miller_at(
        g1p(26, 45),
        dq(68, 74),
        (g1p(32, 42), g1p(12, 69), g1p(91, 35), g1p(26, 56)),
        (3, 75),
        (63, 6),
        (17, 66),
        (89, 77),
        (-26, 68),
        ((40, 77, -56, -52), (38, 84, 20, 45), (44, 35, -56, -7), (54, 78, -16, 11)),
        ((64, 17, -32, 23), (44, 82, 43, 50), (47, 31, -67, -47)),
    );
    lemma_final_exp_3_16();
}

proof fn lemma_final_exp_4_16()
    ensures
        GT(gt_of(52, 2)).spow(600) == GT(gt_of(47, 80)),
{
    assert(GT::sone() == GT(gt_of(1, 0)));
    lemma_gt_mul_at((52, 2), (52, 2), (74, 2), (26, 2));
    assert(GT::spow_steps(GT(gt_of(1, 0)), GT(gt_of(52, 2)), 600) == GT::spow_steps(GT(gt_of(1, 0)), GT(gt_of(74, 2)), 300));
    lemma_gt_mul_at((74, 2), (74, 2), (18, 90), (54, 2));
    assert(GT::spow_steps(GT(gt_of(1, 0)), GT(gt_of(74, 2)), 300) == GT::spow_steps(GT(gt_of(1, 0)), GT(gt_of(18, 90)), 150));
    lemma_gt_mul_at((18, 90), (18, 90), (1, 89), (-77, -49));
    assert(GT::spow_steps(GT(gt_of(1, 0)), GT(gt_of(18, 90)), 150) == GT::spow_steps(GT(gt_of(1, 0)), GT(gt_of(1, 89)), 75));
    lemma_gt_mul_at((1, 0), (1, 89), (1, 89), (0, 0));
    lemma_gt_mul_at((1, 89), (1, 89), (59, 34), (-79, -77));
    assert(GT::spow_steps(GT(gt_of(1, 0)), GT(gt_of(1, 89)), 75) == GT::spow_steps(GT(gt_of(1, 89)), GT(gt_of(59, 34)), 37));
    lemma_gt_mul_at((1, 89), (59, 34), (63, 37), (-30, 22));
    lemma_gt_mul_at((59, 34), (59, 34), (2, 28), (23, 28));
    assert(GT::spow_steps(GT(gt_of(1, 89)), GT(gt_of(59, 34)), 37) == GT::spow_steps(GT(gt_of(63, 37)), GT(gt_of(2, 28)), 18));
    lemma_gt_mul_at((2, 28), (2, 28), (28, 35), (-8, -7));
    assert(GT::spow_steps(GT(gt_of(63, 37)), GT(gt_of(2, 28)), 18) == GT::spow_steps(GT(gt_of(63, 37)), GT(gt_of(28, 35)), 9));
    lemma_gt_mul_at((63, 37), (28, 35), (65, 27), (4, 19));
    lemma_gt_mul_at((28, 35), (28, 35), (64, 28), (-5, 7));
    assert(GT::spow_steps(GT(gt_of(63, 37)), GT(gt_of(28, 35)), 9) == GT::spow_steps(GT(gt_of(65, 27)), GT(gt_of(64, 28)), 4));
    lemma_gt_mul_at((64, 28), (64, 28), (80, 73), (32, 27));
    assert(GT::spow_steps(GT(gt_of(65, 27)), GT(gt_of(64, 28)), 4) == GT::spow_steps(GT(gt_of(65, 27)), GT(gt_of(80, 73)), 2));
    lemma_gt_mul_at((80, 73), (80, 73), (61, 89), (10, 62));
    assert(GT::spow_steps(GT(gt_of(65, 27)), GT(gt_of(80, 73)), 2) == GT::spow_steps(GT(gt_of(65, 27)), GT(gt_of(61, 89)), 1));
    lemma_gt_mul_at((65, 27), (61, 89), (47, 80), (15, 49));
    lemma_gt_mul_at((61, 89), (61, 89), (42, 8), (-42, 29));
    assert(GT::spow_steps(GT(gt_of(65, 27)), GT(gt_of(61, 89)), 1) == GT::spow_steps(GT(gt_of(47, 80)), GT(gt_of(42, 8)), 0));
}

/// The pairing of `4G` with the point `16 P` of the image of `H`.
proof fn lemma_pairing_4_16()
    ensures
        smiller_loop(g1p(65, 98), dq(68, 74)) is Some,
        spairing_at(g1p(65, 98), dq(68, 74)) == GT(gt_of(47, 80)),
{
    lemma_final_exponent();
    lemma_tangent_4_16();
    lemma_tangent_8_16();
    lemma_tangent_16_16();
    lemma_tangent_15_16();
    lemma_vertical_at(65, 3, 98, 68, 74);
    lemma_miller_at(
        g1p(65, 98),
        dq(68, 74),
        (g1p(18, 49), g1p(1, 99), g1p(68, 27), g1p(65, 3)),
        (72, 66),
        (12, 57),
        (26, 0),
        (74, 27),
        (-65, 68),
        ((20, 98, 8, 50), (7, 63, -53, -33), (19, 44, -39, -31), (90, 33, 4, 11)),
        ((42, 3, 69, 48), (98, 63, 29, 12), (52, 2, -106, -17)),
    );
    lemma_final_exp_4_16();
}

proof fn lemma_final_exp_5_16()
    ensures
        GT(gt_of(31, 7)).spow(600) == GT(gt_of(15, 55)),
{
    assert(GT::sone() == GT(gt_of(1, 0)));
    lemma_gt_mul_at((31, 7), (31, 7), (3, 82), (9, 3));
    assert(GT::spow_steps(GT(gt_of(1, 0)), GT(gt_of(31, 7)), 600) == GT::spow_steps(GT(gt_of(1, 0)), GT(gt_of(3, 82)), 300));
    lemma_gt_mul_at((3, 82), (3, 82), (52, 30), (-67, -62));
    assert(GT::spow_steps(GT(gt_of(1, 0)), GT(gt_of(3, 82)), 300) == GT::spow_steps(GT(gt_of(1, 0)), GT(gt_of(52, 30)), 150));
    lemma_gt_mul_at((52, 30), (52, 30), (87, 99), (17, 21));
    assert(GT::spow_steps(GT(gt_of(1, 0)), GT(gt_of(52, 30)), 150) == GT::spow_steps(GT(gt_of(1, 0)), GT(gt_of(87, 99)), 75));
    lemma_gt_mul_at((1, 0), (87, 99), (87, 99), (0, 0));
    lemma_gt_mul_at((87, 99), (87, 99), (91, 52), (-23, 73));
    assert(GT::spow_steps(GT(gt_of(1, 0)), GT(gt_of(87, 99)), 75) == GT::spow_steps(GT(gt_of(87, 99)), GT(gt_of(91, 52)), 37));
    lemma_gt_mul_at((87, 99), (91, 52), (42, 2), (27, 83));
    lemma_gt_mul_at((91, 52), (91, 52), (22, 94), (55, 66));
    assert(GT::spow_steps(GT(gt_of(87, 99)), GT(gt_of(91, 52)), 37) == GT::spow_steps(GT(gt_of(42, 2)), GT(gt_of(22, 94)), 18));
    lemma_gt_mul_at((22, 94), (22, 94), (31, 47), (-83, -47));
    assert(GT::spow_steps(GT(gt_of(42, 2)), GT(gt_of(22, 94)), 18) == GT::spow_steps(GT(gt_of(42, 2)), GT(gt_of(31, 47)), 9));
    lemma_gt_mul_at((42, 2), (31, 47), (97, 23), (11, 19));
    lemma_gt_mul_at((31, 47), (31, 47), (65, 99), (-13, 6));
    assert(GT::spow_steps(GT(gt_of(42, 2)), GT(gt_of(31, 47)), 9) == GT::spow_steps(GT(gt_of(97, 23)), GT(gt_of(65, 99)), 4));
    lemma_gt_mul_at((65, 99), (65, 99), (80, 39), (-56, 30));
    assert(GT::spow_steps(GT(gt_of(97, 23)), GT(gt_of(65, 99)), 4) == GT::spow_steps(GT(gt_of(97, 23)), GT(gt_of(80, 39)), 2));
    lemma_gt_mul_at((80, 39), (80, 39), (31, 73), (48, 46));
    assert(GT::spow_steps(GT(gt_of(97, 23)), GT(gt_of(80, 39)), 2) == GT::spow_steps(GT(gt_of(97, 23)), GT(gt_of(31, 73)), 1));
    lemma_gt_mul_at((97, 23), (31, 73), (15, 55), (13, 60));
    lemma_gt_mul_at((31, 73), (31, 73), (76, 5), (-44, -8));
    assert(GT::spow_steps(GT(gt_of(97, 23)), GT(gt_of(31, 73)), 1) == GT::spow_steps(GT(gt_of(15, 55)), GT(gt_of(76, 5)), 0));
}

/// The pairing of `5G` with the point `16 P` of the image of `H`.
proof fn lemma_pairing_5_16()
    ensures
        smiller_loop(g1p(12, 32), dq(68, 74)) is Some,
        spairing_at(g1p(12, 32), dq(68, 74)) == GT(gt_of(15, 55)),
{
    lemma_final_exponent();
    lemma_tangent_5_16();
    lemma_tangent_10_16();
    lemma_tangent_3_16();
    lemma_tangent_6_16();
    lemma_vertical_at(12, 69, 32, 68, 74);
    lemma_miller_at(
        g1p(12, 32),
        dq(68, 74),
        (g1p(91, 66), g1p(26, 45), g1p(32, 42), g1p(12, 69)),
        (59, 44),
        (100, 6),
        (3, 75),
        (63, 6),
        (-12, 68),
        ((30, 24, 15, 32), (28, 12, 28, 24), (34, 23, 6, 5), (94, 86, -17, 8)),
        ((26, 86, 14, 86), (11, 8, 11, 50), (31, 7, -7, 1)),
    );
    lemma_final_exp_5_16();
}

proof fn lemma_final_exp_6_16()
    ensures
        GT(gt_of(51, 9)).spow(600) == GT(gt_of(75, 98)),
{
    assert(GT::sone() == GT(gt_of(1, 0)));
    lemma_gt_mul_at((51, 9), (51, 9), (96, 29), (24, 8));
    assert(GT::spow_steps(GT(gt_of(1, 0)), GT(gt_of(51, 9)), 600) == GT::spow_steps(GT(gt_of(1, 0)), GT(gt_of(96, 29)), 300));
    lemma_gt_mul_at((96, 29), (96, 29), (93, 81), (82, 46));
    assert(GT::spow_steps(GT(gt_of(1, 0)), GT(gt_of(96, 29)), 300) == GT::spow_steps(GT(gt_of(1, 0)), GT(gt_of(93, 81)), 150));
    lemma_gt_mul_at((93, 81), (93, 81), (68, 21), (20, 84));
    assert(GT::spow_steps(GT(gt_of(1, 0)), GT(gt_of(93, 81)), 150) == GT::spow_steps(GT(gt_of(1, 0)), GT(gt_of(68, 21)), 75));
    lemma_gt_mul_at((1, 0), (68, 21), (68, 21), (0, 0));
    lemma_gt_mul_at((68, 21), (68, 21), (42, 92), (41, 23));
    assert(GT::spow_steps(GT(gt_of(1, 0)), GT(gt_of(68, 21)), 75) == GT::spow_steps(GT(gt_of(68, 21)), GT(gt_of(42, 92)), 37));
    lemma_gt_mul_at((68, 21), (42, 92), (15, 55), (9, 51));
    lemma_gt_mul_at((42, 92), (42, 92), (67, 72), (-67, -8));
    assert(GT::spow_steps(GT(gt_of(68, 21)), GT(gt_of(42, 92)), 37) == GT::spow_steps(GT(gt_of(15, 55)), GT(gt_of(67, 72)), 18));
    lemma_gt_mul_at((67, 72), (67, 72), (12, 20), (-7, 44));
    assert(GT::spow_steps(GT(gt_of(15, 55)), GT(gt_of(67, 72)), 18) == GT::spow_steps(GT(gt_of(15, 55)), GT(gt_of(12, 20)), 9));
    lemma_gt_mul_at((15, 55), (12, 20), (90, 62), (-10, -2));
    lemma_gt_mul_at((12, 20), (12, 20), (47, 80), (-3, 0));
    assert(GT::spow_steps(GT(gt_of(15, 55)), GT(gt_of(12, 20)), 9) == GT::spow_steps(GT(gt_of(90, 62)), GT(gt_of(47, 80)), 4));
    lemma_gt_mul_at((47, 80), (47, 80), (51, 9), (-42, 11));
    assert(GT::spow_steps(GT(gt_of(90, 62)), GT(gt_of(47, 80)), 4) == GT::spow_steps(GT(gt_of(90, 62)), GT(gt_of(51, 9)), 2));
    lemma_gt_mul_at((51, 9), (51, 9), (96, 29), (24, 8));
    assert(GT::spow_steps(GT(gt_of(90, 62)), GT(gt_of(51, 9)), 2) == GT::spow_steps(GT(gt_of(90, 62)), GT(gt_of(96, 29)), 1));
    lemma_gt_mul_at((90, 62), (96, 29), (75, 98), (67, 66));
    lemma_gt_mul_at((96, 29), (96, 29), (93, 81), (82, 46));
    assert(GT::spow_steps(GT(gt_of(90, 62)), GT(gt_of(96, 29)), 1) == GT::spow_steps(GT(gt_of(75, 98)), GT(gt_of(93, 81)), 0));
}

/// The pairing of `6G` with the point `16 P` of the image of `H`.
proof fn lemma_pairing_6_16()
    ensures
        smiller_loop(g1p(32, 42), dq(68, 74)) is Some,
        spairing_at(g1p(32, 42), dq(68, 74)) == GT(gt_of(75, 98)),
{
    lemma_final_exponent();
    lemma_tangent_6_16();
    lemma_tangent_12_16();
    lemma_tangent_7_16();
    lemma_tangent_14_16();
    lemma_vertical_at(32, 59, 42, 68, 74);
    lemma_miller_at(
        g1p(32, 42),
        dq(68, 74),
        (g1p(12, 69), g1p(91, 35), g1p(26, 56), g1p(32, 59)),
        (63, 6),
        (17, 66),
        (89, 77),
        (99, 59),
        (-32, 68),
        ((95, 13, 38, 7), (50, 78, 7, 55), (52, 100, -36, 16), (59, 53, -31, 51)),
        ((66, 11, 6, 34), (27, 92, 58, 42), (51, 9, -71, -73)),
    );
    lemma_final_exp_6_16();
}

proof fn lemma_final_exp_7_16()
    ensures
        GT(gt_of(86, 4)).spow(600) == GT(gt_of(90, 62)),
{
    assert(GT::sone() == GT(gt_of(1, 0)));
    lemma_gt_mul_at((86, 4), (86, 4), (7, 66), (73, 6));
    assert(GT::spow_steps(GT(gt_of(1, 0)), GT(gt_of(86, 4)), 600) == GT::spow_steps(GT(gt_of(1, 0)), GT(gt_of(7, 66)), 300));
    lemma_gt_mul_at((7, 66), (7, 66), (36, 2), (-43, -34));
    assert(GT::spow_steps(GT(gt_of(1, 0)), GT(gt_of(7, 66)), 300) == GT::spow_steps(GT(gt_of(1, 0)), GT(gt_of(36, 2)), 150));
    lemma_gt_mul_at((36, 2), (36, 2), (80, 39), (12, 1));
    assert(GT::spow_steps(GT(gt_of(1, 0)), GT(gt_of(36, 2)), 150) == GT::spow_steps(GT(gt_of(1, 0)), GT(gt_of(80, 39)), 75));
    lemma_gt_mul_at((1, 0), (80, 39), (80, 39), (0, 0));
    lemma_gt_mul_at((80, 39), (80, 39), (31, 73), (48, 46));
    assert(GT::spow_steps(GT(gt_of(1, 0)), GT(gt_of(80, 39)), 75) == GT::spow_steps(GT(gt_of(80, 39)), GT(gt_of(31, 73)), 37));
    lemma_gt_mul_at((80, 39), (31, 73), (37, 61), (-4, 41));
    lemma_gt_mul_at((31, 73), (31, 73), (76, 5), (-44, -8));
    assert(GT::spow_steps(GT(gt_of(80, 39)), GT(gt_of(31, 73)), 37) == GT::spow_steps(GT(gt_of(37, 61)), GT(gt_of(76, 5)), 18));
    lemma_gt_mul_at((76, 5), (76, 5), (95, 28), (56, 7));
    assert(GT::spow_steps(GT(gt_of(37, 61)), GT(gt_of(76, 5)), 18) == GT::spow_steps(GT(gt_of(37, 61)), GT(gt_of(95, 28)), 9));
    lemma_gt_mul_at((37, 61), (95, 28), (90, 73), (17, 50));
    lemma_gt_mul_at((95, 28), (95, 28), (60, 92), (81, 44));
    assert(GT::spow_steps(GT(gt_of(37, 61)), GT(gt_of(95, 28)), 9) == GT::spow_steps(GT(gt_of(90, 73)), GT(gt_of(60, 92)), 4));
    lemma_gt_mul_at((60, 92), (60, 92), (85, 51), (-49, 25));
    assert(GT::spow_steps(GT(gt_of(90, 73)), GT(gt_of(60, 92)), 4) == GT::spow_steps(GT(gt_of(90, 73)), GT(gt_of(85, 51)), 2));
    lemma_gt_mul_at((85, 51), (85, 51), (79, 9), (45, 60));
    assert(GT::spow_steps(GT(gt_of(90, 73)), GT(gt_of(85, 51)), 2) == GT::spow_steps(GT(gt_of(90, 73)), GT(gt_of(79, 9)), 1));
    lemma_gt_mul_at((90, 73), (79, 9), (90, 62), (63, 58));
    lemma_gt_mul_at((79, 9), (79, 9), (100, 28), (60, 13));
    assert(GT::spow_steps(GT(gt_of(90, 73)), GT(gt_of(79, 9)), 1) == GT::spow_steps(GT(gt_of(90, 62)), GT(gt_of(100, 28)), 0));
}

/// The pairing of `7G` with the point `16 P` of the image of `H`.
proof fn lemma_pairing_7_16()
    ensures
        smiller_loop(g1p(91, 35), dq(68, 74)) is Some,
        spairing_at(g1p(91, 35), dq(68, 74)) == GT(gt_of(90, 62)),
{
    lemma_final_exponent();
    lemma_tangent_7_16();
    lemma_tangent_14_16();
    lemma_tangent_11_16();
    lemma_tangent_5_16();
    lemma_vertical_at(91, 66, 35, 68, 74);
    lemma_miller_at(
        g1p(91, 35),
        dq(68, 74),
        (g1p(26, 56), g1p(32, 59), g1p(12, 32), g1p(91, 66)),
        (89, 77),
        (99, 59),
        (79, 44),
        (59, 44),
        (-91, 68),
        ((73, 0, 19, 77), (56, 65, 71, 42), (22, 25, -11, 30), (32, 25, 6, 18)),
        ((96, 66, 3, 9), (33, 63, 27, 51), (86, 4, -73, -77)),
    );
    lemma_final_exp_7_16();
}

proof fn lemma_final_exp_8_16()
    ensures
        GT(gt_of(60, 34)).spow(600) == GT(gt_of(51, 9)),
{
    assert(GT::sone() == GT(gt_of(1, 0)));
    lemma_gt_mul_at((60, 34), (60, 34), (20, 96), (24, 28));
    assert(GT::spow_steps(GT(gt_of(1, 0)), GT(gt_of(60, 34)), 600) == GT::spow_steps(GT(gt_of(1, 0)), GT(gt_of(20, 96)), 300));
    lemma_gt_mul_at((20, 96), (20, 96), (72, 78), (-88, -54));
    assert(GT::spow_steps(GT(gt_of(1, 0)), GT(gt_of(20, 96)), 300) == GT::spow_steps(GT(gt_of(1, 0)), GT(gt_of(72, 78)), 150));
    lemma_gt_mul_at((72, 78), (72, 78), (9, 98), (-9, 50));
    assert(GT::spow_steps(GT(gt_of(1, 0)), GT(gt_of(72, 78)), 150) == GT::spow_steps(GT(gt_of(1, 0)), GT(gt_of(9, 98)), 75));
    lemma_gt_mul_at((1, 0), (9, 98), (9, 98), (0, 0));
    lemma_gt_mul_at((9, 98), (9, 98), (72, 38), (-95, -78));
    assert(GT::spow_steps(GT(gt_of(1, 0)), GT(gt_of(9, 98)), 75) == GT::spow_steps(GT(gt_of(9, 98)), GT(gt_of(72, 38)), 37));
    lemma_gt_mul_at((9, 98), (72, 38), (55, 38), (-31, 36));
    lemma_gt_mul_at((72, 38), (72, 38), (3, 89), (37, 39));
    assert(GT::spow_steps(GT(gt_of(9, 98)), GT(gt_of(72, 38)), 37) == GT::spow_steps(GT(gt_of(55, 38)), GT(gt_of(3, 89)), 18));
    lemma_gt_mul_at((3, 89), (3, 89), (67, 87), (-79, -74));
    assert(GT::spow_steps(GT(gt_of(55, 38)), GT(gt_of(3, 89)), 18) == GT::spow_steps(GT(gt_of(55, 38)), GT(gt_of(67, 87)), 9));
    lemma_gt_mul_at((55, 38), (67, 87), (76, 86), (3, 39));
    lemma_gt_mul_at((67, 87), (67, 87), (51, 49), (-31, 40));
    assert(GT::spow_steps(GT(gt_of(55, 38)), GT(gt_of(67, 87)), 9) == GT::spow_steps(GT(gt_of(76, 86)), GT(gt_of(51, 49)), 4));
    lemma_gt_mul_at((51, 49), (51, 49), (99, 72), (1, 25));
    assert(GT::spow_steps(GT(gt_of(76, 86)), GT(gt_of(51, 49)), 4) == GT::spow_steps(GT(gt_of(76, 86)), GT(gt_of(99, 72)), 2));
    lemma_gt_mul_at((99, 72), (99, 72), (72, 83), (45, 89));
    assert(GT::spow_steps(GT(gt_of(76, 86)), GT(gt_of(99, 72)), 2) == GT::spow_steps(GT(gt_of(76, 86)), GT(gt_of(72, 83)), 1));
    lemma_gt_mul_at((76, 86), (72, 83), (51, 9), (-17, 53));
    lemma_gt_mul_at((72, 83), (72, 83), (12, 13), (-17, 50));
    assert(GT::spow_steps(GT(gt_of(76, 86)), GT(gt_of(72, 83)), 1) == GT::spow_steps(GT(gt_of(51, 9)), GT(gt_of(12, 13)), 0));
}

/// The pairing of `8G` with the point `16 P` of the image of `H`.
proof fn lemma_pairing_8_16()
    ensures
        smiller_loop(g1p(18, 49), dq(68, 74)) is Some,
        spairing_at(g1p(18, 49), dq(68, 74)) == GT(gt_of(51, 9)),
{
    lemma_final_exponent();
    lemma_tangent_8_16();
    lemma_tangent_16_16();
    lemma_tangent_15_16();
    lemma_tangent_13_16();
    lemma_vertical_at(18, 52, 49, 68, 74);
    lemma_miller_at(
        g1p(18, 49),
        dq(68, 74),
        (g1p(1, 99), g1p(68, 27), g1p(65, 3), g1p(18, 52)),
        (12, 57),
        (26, 0),
        (74, 27),
        (38, 75),
        (-18, 68),
        ((26, 38, -31, -19), (70, 79, 6, 9), (73, 72, -14, 47), (24, 2, 34, 53)),
        ((67, 92, 5, 0), (90, 5, -44, 16), (60, 34, -20, 56)),
    );
    lemma_final_exp_8_16();
}

proof fn lemma_final_exp_9_16()
    ensures
        GT(gt_of(77, 64)).spow(600) == GT(gt_of(42, 92)),
{
    assert(GT::sone() == GT(gt_of(1, 0)));
    lemma_gt_mul_at((77, 64), (77, 64), (15, 3), (18, 57));
    assert(GT::spow_steps(GT(gt_of(1, 0)), GT(gt_of(77, 64)), 600) == GT::spow_steps(GT(gt_of(1, 0)), GT(gt_of(15, 3)), 300));
    lemma_gt_mul_at((15, 3), (15, 3), (14, 81), (2, 0));
    assert(GT::spow_steps(GT(gt_of(1, 0)), GT(gt_of(15, 3)), 300) == GT::spow_steps(GT(gt_of(1, 0)), GT(gt_of(14, 81)), 150));
    lemma_gt_mul_at((14, 81), (14, 81), (99, 50), (-64, -43));
    assert(GT::spow_steps(GT(gt_of(1, 0)), GT(gt_of(14, 81)), 150) == GT::spow_steps(GT(gt_of(1, 0)), GT(gt_of(99, 50)), 75));
    lemma_gt_mul_at((1, 0), (99, 50), (99, 50), (0, 0));
    lemma_gt_mul_at((99, 50), (99, 50), (29, 27), (72, 73));
    assert(GT::spow_steps(GT(gt_of(1, 0)), GT(gt_of(99, 50)), 75) == GT::spow_steps(GT(gt_of(99, 50)), GT(gt_of(29, 27)), 37));
    lemma_gt_mul_at((99, 50), (29, 27), (6, 46), (15, 27));
    lemma_gt_mul_at((29, 27), (29, 27), (11, 29), (1, 8));
    assert(GT::spow_steps(GT(gt_of(99, 50)), GT(gt_of(29, 27)), 37) == GT::spow_steps(GT(gt_of(6, 46)), GT(gt_of(11, 29)), 18));
    lemma_gt_mul_at((11, 29), (11, 29), (88, 100), (-8, -3));
    assert(GT::spow_steps(GT(gt_of(6, 46)), GT(gt_of(11, 29)), 18) == GT::spow_steps(GT(gt_of(6, 46)), GT(gt_of(88, 100)), 9));
    lemma_gt_mul_at((6, 46), (88, 100), (69, 48), (-41, 0));
    lemma_gt_mul_at((88, 100), (88, 100), (67, 25), (-23, 75));
    assert(GT::spow_steps(GT(gt_of(6, 46)), GT(gt_of(88, 100)), 9) == GT::spow_steps(GT(gt_of(69, 48)), GT(gt_of(67, 25)), 4));
    lemma_gt_mul_at((67, 25), (67, 25), (26, 99), (38, 26));
    assert(GT::spow_steps(GT(gt_of(69, 48)), GT(gt_of(67, 25)), 4) == GT::spow_steps(GT(gt_of(69, 48)), GT(gt_of(26, 99)), 2));
    lemma_gt_mul_at((26, 99), (26, 99), (66, 94), (-91, -47));
    assert(GT::spow_steps(GT(gt_of(69, 48)), GT(gt_of(26, 99)), 2) == GT::spow_steps(GT(gt_of(69, 48)), GT(gt_of(66, 94)), 1));
    lemma_gt_mul_at((69, 48), (66, 94), (42, 92), (0, 50));
    lemma_gt_mul_at((66, 94), (66, 94), (65, 37), (-45, 35));
    assert(GT::spow_steps(GT(gt_of(69, 48)), GT(gt_of(66, 94)), 1) == GT::spow_steps(GT(gt_of(42, 92)), GT(gt_of(65, 37)), 0));
}

/// The pairing of `9G` with the point `16 P` of the image of `H`.
proof fn lemma_pairing_9_16()
    ensures
        smiller_loop(g1p(18, 52), dq(68, 74)) is Some,
        spairing_at(g1p(18, 52), dq(68, 74)) == GT(gt_of(42, 92)),
{
    lemma_final_exponent();
    lemma_tangent_9_16();
    lemma_tangent_1_16();
    lemma_tangent_2_16();
    lemma_tangent_4_16();
    lemma_vertical_at(18, 49, 52, 68, 74);
    lemma_miller_at(
        g1p(18, 52),
        dq(68, 74),
        (g1p(1, 2), g1p(68, 74), g1p(65, 98), g1p(18, 49)),
        (20, 77),
        (28, 27),
        (14, 59),
        (72, 66),
        (-18, 68),
        ((26, 80, -55, -29), (83, 75, -15, 7), (52, 58, 12, 67), (33, 54, -27, 4)),
        ((92, 42, -19, 6), (14, 62, 38, 62), (77, 64, -45, -44)),
    );
    lemma_final_exp_9_16();
}

proof fn lemma_final_exp_10_16()
    ensures
        GT(gt_of(52, 7)).spow(600) == GT(gt_of(28, 39)),
{
    assert(GT::sone() == GT(gt_of(1, 0)));
    lemma_gt_mul_at((52, 7), (52, 7), (29, 73), (26, 6));
    assert(GT::spow_steps(GT(gt_of(1, 0)), GT(gt_of(52, 7)), 600) == GT::spow_steps(GT(gt_of(1, 0)), GT(gt_of(29, 73)), 300));
    lemma_gt_mul_at((29, 73), (29, 73), (57, 16), (-45, -11));
    assert(GT::spow_steps(GT(gt_of(1, 0)), GT(gt_of(29, 73)), 300) == GT::spow_steps(GT(gt_of(1, 0)), GT(gt_of(57, 16)), 150));
    lemma_gt_mul_at((57, 16), (57, 16), (64, 53), (29, 15));
    assert(GT::spow_steps(GT(gt_of(1, 0)), GT(gt_of(57, 16)), 150) == GT::spow_steps(GT(gt_of(1, 0)), GT(gt_of(64, 53)), 75));
    lemma_gt_mul_at((1, 0), (64, 53), (64, 53), (0, 0));
    lemma_gt_mul_at((64, 53), (64, 53), (75, 36), (12, 39));
    assert(GT::spow_steps(GT(gt_of(1, 0)), GT(gt_of(64, 53)), 75) == GT::spow_steps(GT(gt_of(64, 53)), GT(gt_of(75, 36)), 37));
    lemma_gt_mul_at((64, 53), (75, 36), (64, 28), (28, 43));
    lemma_gt_mul_at((75, 36), (75, 36), (87, 64), (42, 40));
    assert(GT::spow_steps(GT(gt_of(64, 53)), GT(gt_of(75, 36)), 37) == GT::spow_steps(GT(gt_of(64, 28)), GT(gt_of(87, 64)), 18));
    lemma_gt_mul_at((87, 64), (87, 64), (39, 71), (34, 69));
    assert(GT::spow_steps(GT(gt_of(64, 28)), GT(gt_of(87, 64)), 18) == GT::spow_steps(GT(gt_of(64, 28)), GT(gt_of(39, 71)), 9));
    lemma_gt_mul_at((64, 28), (39, 71), (3, 12), (5, 36));
    lemma_gt_mul_at((39, 71), (39, 71), (15, 93), (-35, 4));
    assert(GT::spow_steps(GT(gt_of(64, 28)), GT(gt_of(39, 71)), 9) == GT::spow_steps(GT(gt_of(3, 12)), GT(gt_of(15, 93)), 4));
    lemma_gt_mul_at((15, 93), (15, 93), (60, 100), (-84, -59));
    assert(GT::spow_steps(GT(gt_of(3, 12)), GT(gt_of(15, 93)), 4) == GT::spow_steps(GT(gt_of(3, 12)), GT(gt_of(60, 100)), 2));
    lemma_gt_mul_at((60, 100), (60, 100), (64, 81), (-64, 19));
    assert(GT::spow_steps(GT(gt_of(3, 12)), GT(gt_of(60, 100)), 2) == GT::spow_steps(GT(gt_of(3, 12)), GT(gt_of(64, 81)), 1));
    lemma_gt_mul_at((3, 12), (64, 81), (28, 39), (-8, 0));
    lemma_gt_mul_at((64, 81), (64, 81), (60, 70), (-25, 37));
    assert(GT::spow_steps(GT(gt_of(3, 12)), GT(gt_of(64, 81)), 1) == GT::spow_steps(GT(gt_of(28, 39)), GT(gt_of(60, 70)), 0));
}

/// The pairing of `10G` with the point `16 P` of the image of `H`.
proof fn lemma_pairing_10_16()
    ensures
        smiller_loop(g1p(91, 66), dq(68, 74)) is Some,
        spairing_at(g1p(91, 66), dq(68, 74)) == GT(gt_of(28, 39)),
{
    lemma_final_exponent();
    lemma_tangent_10_16();
    lemma_tangent_3_16();
    lemma_tangent_6_16();
    lemma_tangent_12_16();
    lemma_vertical_at(91, 35, 66, 68, 74);
    lemma_miller_at(
        g1p(91, 66),
        dq(68, 74),
        (g1p(26, 45), g1p(32, 42), g1p(12, 69), g1p(91, 35)),
        (100, 6),
        (3, 75),
        (63, 6),
        (17, 66),
        (-91, 68),
        ((66, 53, 98, 11), (61, 23, -38, 11), (61, 55, 31, 22), (79, 67, 34, 34)),
        ((35, 37, 17, 60), (72, 93, -19, 4), (52, 7, -128, -98)),
    );
    lemma_final_exp_10_16();
}

proof fn lemma_final_exp_11_16()
    ensures
        GT(gt_of(58, 24)).spow(600) == GT(gt_of(78, 3)),
{
    assert(GT::sone() == GT(gt_of(1, 0)));
    lemma_gt_mul_at((58, 24), (58, 24), (61, 87), (27, 21));
    assert(GT::spow_steps(GT(gt_of(1, 0)), GT(gt_of(58, 24)), 600) == GT::spow_steps(GT(gt_of(1, 0)), GT(gt_of(61, 87)), 300));
    lemma_gt_mul_at((61, 87), (61, 87), (91, 15), (-39, 30));
    assert(GT::spow_steps(GT(gt_of(1, 0)), GT(gt_of(61, 87)), 300) == GT::spow_steps(GT(gt_of(1, 0)), GT(gt_of(91, 15)), 150));
    lemma_gt_mul_at((91, 15), (91, 15), (77, 81), (79, 24));
    assert(GT::spow_steps(GT(gt_of(1, 0)), GT(gt_of(91, 15)), 150) == GT::spow_steps(GT(gt_of(1, 0)), GT(gt_of(77, 81)), 75));
    lemma_gt_mul_at((1, 0), (77, 81), (77, 81), (0, 0));
    lemma_gt_mul_at((77, 81), (77, 81), (75, 55), (-7, 58));
    assert(GT::spow_steps(GT(gt_of(1, 0)), GT(gt_of(77, 81)), 75) == GT::spow_steps(GT(gt_of(77, 81)), GT(gt_of(75, 55)), 37));
    lemma_gt_mul_at((77, 81), (75, 55), (7, 98), (13, 57));
    lemma_gt_mul_at((75, 55), (75, 55), (75, 74), (25, 51));
    assert(GT::spow_steps(GT(gt_of(77, 81)), GT(gt_of(75, 55)), 37) == GT::spow_steps(GT(gt_of(7, 98)), GT(gt_of(75, 74)), 18));
    lemma_gt_mul_at((75, 74), (75, 74), (48, 69), (1, 55));
    assert(GT::spow_steps(GT(gt_of(7, 98)), GT(gt_of(75, 74)), 18) == GT::spow_steps(GT(gt_of(7, 98)), GT(gt_of(48, 69)), 9));
    lemma_gt_mul_at((7, 98), (48, 69), (38, 41), (-64, -16));
    lemma_gt_mul_at((48, 69), (48, 69), (68, 45), (-25, 18));
    assert(GT::spow_steps(GT(gt_of(7, 98)), GT(gt_of(48, 69)), 9) == GT::spow_steps(GT(gt_of(38, 41)), GT(gt_of(68, 45)), 4));
    lemma_gt_mul_at((68, 45), (68, 45), (74, 55), (25, 40));
    assert(GT::spow_steps(GT(gt_of(38, 41)), GT(gt_of(68, 45)), 4) == GT::spow_steps(GT(gt_of(38, 41)), GT(gt_of(74, 55)), 2));
    lemma_gt_mul_at((74, 55), (74, 55), (27, 65), (24, 50));
    assert(GT::spow_steps(GT(gt_of(38, 41)), GT(gt_of(74, 55)), 2) == GT::spow_steps(GT(gt_of(38, 41)), GT(gt_of(27, 65)), 1));
    lemma_gt_mul_at((38, 41), (27, 65), (78, 3), (-17, 9));
    lemma_gt_mul_at((27, 65), (27, 65), (39, 93), (-35, -8));
    assert(GT::spow_steps(GT(gt_of(38, 41)), GT(gt_of(27, 65)), 1) == GT::spow_steps(GT(gt_of(78, 3)), GT(gt_of(39, 93)), 0));
}

/// The pairing of `11G` with the point `16 P` of the image of `H`.
proof fn lemma_pairing_11_16()
    ensures
        smiller_loop(g1p(32, 59), dq(68, 74)) is Some,
        spairing_at(g1p(32, 59), dq(68, 74)) == GT(gt_of(78, 3)),
{
    lemma_final_exponent();
    lemma_tangent_11_16();
    lemma_tangent_5_16();
    lemma_tangent_10_16();
    lemma_tangent_3_16();
    lemma_vertical_at(32, 42, 59, 68, 74);
    lemma_miller_at(
        g1p(32, 59),
        dq(68, 74),
        (g1p(12, 32), g1p(91, 66), g1p(26, 45), g1p(32, 42)),
        (79, 44),
        (59, 44),
        (100, 6),
        (3, 75),
        (-32, 68),
        ((63, 67, 42, 49), (62, 40, 7, 37), (22, 27, 22, 33), (18, 44, 20, 26)),
        ((4, 52, -16, -4), (51, 91, -39, -35), (58, 24, -78, -56)),
    );
    lemma_final_exp_11_16();
}

proof fn lemma_final_exp_12_16()
    ensures
        GT(gt_of(81, 15)).spow(600) == GT(gt_of(61, 46)),
{
    assert(GT::sone() == GT(gt_of(1, 0)));
    lemma_gt_mul_at((81, 15), (81, 15), (74, 84), (62, 21));
    assert(GT::spow_steps(GT(gt_of(1, 0)), GT(gt_of(81, 15)), 600) == GT::spow_steps(GT(gt_of(1, 0)), GT(gt_of(74, 84)), 300));
    lemma_gt_mul_at((74, 84), (74, 84), (36, 23), (-16, 53));
    assert(GT::spow_steps(GT(gt_of(1, 0)), GT(gt_of(74, 84)), 300) == GT::spow_steps(GT(gt_of(1, 0)), GT(gt_of(36, 23)), 150));
    lemma_gt_mul_at((36, 23), (36, 23), (60, 16), (7, 11));
    assert(GT::spow_steps(GT(gt_of(1, 0)), GT(gt_of(36, 23)), 150) == GT::spow_steps(GT(gt_of(1, 0)), GT(gt_of(60, 16)), 75));
    lemma_gt_mul_at((1, 0), (60, 16), (60, 16), (0, 0));
    lemma_gt_mul_at((60, 16), (60, 16), (11, 48), (33, 16));
    assert(GT::spow_steps(GT(gt_of(1, 0)), GT(gt_of(60, 16)), 75) == GT::spow_steps(GT(gt_of(60, 16)), GT(gt_of(11, 48)), 37));
    lemma_gt_mul_at((60, 16), (11, 48), (94, 66), (-2, 22));
    lemma_gt_mul_at((11, 48), (11, 48), (39, 65), (-22, -13));
    assert(GT::spow_steps(GT(gt_of(60, 16)), GT(gt_of(11, 48)), 37) == GT::spow_steps(GT(gt_of(94, 66)), GT(gt_of(39, 65)), 18));
    lemma_gt_mul_at((39, 65), (39, 65), (23, 37), (-27, 8));
    assert(GT::spow_steps(GT(gt_of(94, 66)), GT(gt_of(39, 65)), 18) == GT::spow_steps(GT(gt_of(94, 66)), GT(gt_of(23, 37)), 9));
    lemma_gt_mul_at((94, 66), (23, 37), (23, 29), (-3, 25));
    lemma_gt_mul_at((23, 37), (23, 37), (69, 30), (-9, 3));
    assert(GT::spow_steps(GT(gt_of(94, 66)), GT(gt_of(23, 37)), 9) == GT::spow_steps(GT(gt_of(23, 29)), GT(gt_of(69, 30)), 4));
    lemma_gt_mul_at((69, 30), (69, 30), (23, 8), (38, 32));
    assert(GT::spow_steps(GT(gt_of(23, 29)), GT(gt_of(69, 30)), 4) == GT::spow_steps(GT(gt_of(23, 29)), GT(gt_of(23, 8)), 2));
    lemma_gt_mul_at((23, 8), (23, 8), (61, 1), (4, 3));
    assert(GT::spow_steps(GT(gt_of(23, 29)), GT(gt_of(23, 8)), 2) == GT::spow_steps(GT(gt_of(23, 29)), GT(gt_of(61, 1)), 1));
    lemma_gt_mul_at((23, 29), (61, 1), (61, 46), (13, 17));
    lemma_gt_mul_at((61, 1), (61, 1), (84, 20), (36, 1));
    assert(GT::spow_steps(GT(gt_of(23, 29)), GT(gt_of(61, 1)), 1) == GT::spow_steps(GT(gt_of(61, 46)), GT(gt_of(84, 20)), 0));
}

/// The pairing of `12G` with the point `16 P` of the image of `H`.
proof fn lemma_pairing_12_16()
    ensures
        smiller_loop(g1p(12, 69), dq(68, 74)) is Some,
        spairing_at(g1p(12, 69), dq(68, 74)) == GT(gt_of(61, 46)),
{
    lemma_final_exponent();
    lemma_tangent_12_16();
    lemma_tangent_7_16();
    lemma_tangent_14_16();
    lemma_tangent_11_16();
    lemma_vertical_at(12, 32, 69, 68, 74);
    lemma_miller_at(
        g1p(12, 69),
        dq(68, 74),
        (g1p(91, 35), g1p(26, 56), g1p(32, 59), g1p(12, 32)),
        (17, 66),
        (89, 77),
        (99, 59),
        (79, 44),
        (-12, 68),
        ((74, 9, -41, -21), (35, 49, 58, 57), (36, 19, -12, 10), (19, 56, 24, 28)),
        ((53, 2, -28, -10), (59, 79, 40, 23), (81, 15, -61, -23)),
    );
    lemma_final_exp_12_16();
}

proof fn lemma_final_exp_13_16()
    ensures
        GT(gt_of(31, 81)).spow(600) == GT(gt_of(68, 21)),
{
    assert(GT::sone() == GT(gt_of(1, 0)));
    lemma_gt_mul_at((31, 81), (31, 81), (56, 77), (-56, -16));
    assert(GT::spow_steps(GT(gt_of(1, 0)), GT(gt_of(31, 81)), 600) == GT::spow_steps(GT(gt_of(1, 0)), GT(gt_of(56, 77)), 300));
    lemma_gt_mul_at((56, 77), (56, 77), (35, 69), (-28, 26));
    assert(GT::spow_steps(GT(gt_of(1, 0)), GT(gt_of(56, 77)), 300) == GT::spow_steps(GT(gt_of(1, 0)), GT(gt_of(35, 69)), 150));
    lemma_gt_mul_at((35, 69), (35, 69), (100, 69), (-36, 0));
    assert(GT::spow_steps(GT(gt_of(1, 0)), GT(gt_of(35, 69)), 150) == GT::spow_steps(GT(gt_of(1, 0)), GT(gt_of(100, 69)), 75));
    lemma_gt_mul_at((1, 0), (100, 69), (100, 69), (0, 0));
    lemma_gt_mul_at((100, 69), (100, 69), (88, 50), (51, 89));
    assert(GT::spow_steps(GT(gt_of(1, 0)), GT(gt_of(100, 69)), 75) == GT::spow_steps(GT(gt_of(100, 69)), GT(gt_of(88, 50)), 37));
    lemma_gt_mul_at((100, 69), (88, 50), (98, 47), (52, 75));
    lemma_gt_mul_at((88, 50), (88, 50), (93, 38), (51, 62));
    assert(GT::spow_steps(GT(gt_of(100, 69)), GT(gt_of(88, 50)), 37) == GT::spow_steps(GT(gt_of(98, 47)), GT(gt_of(93, 38)), 18));
    lemma_gt_mul_at((93, 38), (93, 38), (34, 69), (71, 55));
    assert(GT::spow_steps(GT(gt_of(98, 47)), GT(gt_of(93, 38)), 18) == GT::spow_steps(GT(gt_of(98, 47)), GT(gt_of(34, 69)), 9));
    lemma_gt_mul_at((98, 47), (34, 69), (89, 67), (0, 50));
    lemma_gt_mul_at((34, 69), (34, 69), (31, 32), (-36, -1));
    assert(GT::spow_steps(GT(gt_of(98, 47)), GT(gt_of(34, 69)), 9) == GT::spow_steps(GT(gt_of(89, 67)), GT(gt_of(31, 32)), 4));
    lemma_gt_mul_at((31, 32), (31, 32), (38, 51), (-1, 9));
    assert(GT::spow_steps(GT(gt_of(89, 67)), GT(gt_of(31, 32)), 4) == GT::spow_steps(GT(gt_of(89, 67)), GT(gt_of(38, 51)), 2));
    lemma_gt_mul_at((38, 51), (38, 51), (55, 63), (-12, 12));
    assert(GT::spow_steps(GT(gt_of(89, 67)), GT(gt_of(38, 51)), 2) == GT::spow_steps(GT(gt_of(89, 67)), GT(gt_of(55, 63)), 1));
    lemma_gt_mul_at((89, 67), (55, 63), (68, 21), (6, 50));
    lemma_gt_mul_at((55, 63), (55, 63), (66, 32), (-10, 29));
    assert(GT::spow_steps(GT(gt_of(89, 67)), GT(gt_of(55, 63)), 1) == GT::spow_steps(GT(gt_of(68, 21)), GT(gt_of(66, 32)), 0));
}

/// The pairing of `13G` with the point `16 P` of the image of `H`.
proof fn lemma_pairing_13_16()
    ensures
        smiller_loop(g1p(65, 3), dq(68, 74)) is Some,
        spairing_at(g1p(65, 3), dq(68, 74)) == GT(gt_of(68, 21)),
{
    lemma_final_exponent();
    lemma_tangent_13_16();
    lemma_tangent_9_16();
    lemma_tangent_1_16();
    lemma_tangent_2_16();
    lemma_vertical_at(65, 98, 3, 68, 74);
    lemma_miller_at(
        g1p(65, 3),
        dq(68, 74),
        (g1p(18, 52), g1p(1, 2), g1p(68, 74), g1p(65, 98)),
        (38, 75),
        (20, 77),
        (28, 27),
        (14, 59),
        (-65, 68),
        ((61, 75, -42, 0), (91, 18, -46, 4), (79, 23, 78, 29), (76, 35, 15, 21)),
        ((6, 55, 45, 40), (71, 0, -32, -21), (31, 81, -46, 47)),
    );
    lemma_final_exp_13_16();
}

proof fn lemma_final_exp_14_16()
    ensures
        GT(gt_of(30, 65)).spow(600) == GT(gt_of(14, 44)),
{
    assert(GT::sone() == GT(gt_of(1, 0)));
    lemma_gt_mul_at((30, 65), (30, 65), (8, 79), (-33, -4));
    assert(GT::spow_steps(GT(gt_of(1, 0)), GT(gt_of(30, 65)), 600) == GT::spow_steps(GT(gt_of(1, 0)), GT(gt_of(8, 79)), 300));
    lemma_gt_mul_at((8, 79), (8, 79), (85, 73), (-62, -50));
    assert(GT::spow_steps(GT(gt_of(1, 0)), GT(gt_of(8, 79)), 300) == GT::spow_steps(GT(gt_of(1, 0)), GT(gt_of(85, 73)), 150));
    lemma_gt_mul_at((85, 73), (85, 73), (78, 11), (18, 70));
    assert(GT::spow_steps(GT(gt_of(1, 0)), GT(gt_of(85, 73)), 150) == GT::spow_steps(GT(gt_of(1, 0)), GT(gt_of(78, 11)), 75));
    lemma_gt_mul_at((1, 0), (78, 11), (78, 11), (0, 0));
    lemma_gt_mul_at((78, 11), (78, 11), (4, 80), (59, 15));
    assert(GT::spow_steps(GT(gt_of(1, 0)), GT(gt_of(78, 11)), 75) == GT::spow_steps(GT(gt_of(78, 11)), GT(gt_of(4, 80)), 37));
    lemma_gt_mul_at((78, 11), (4, 80), (38, 51), (-6, 53));
    lemma_gt_mul_at((4, 80), (4, 80), (80, 98), (-64, -58));
    assert(GT::spow_steps(GT(gt_of(78, 11)), GT(gt_of(4, 80)), 37) == GT::spow_steps(GT(gt_of(38, 51)), GT(gt_of(80, 98)), 18));
    lemma_gt_mul_at((80, 98), (80, 98), (28, 16), (-32, 60));
    assert(GT::spow_steps(GT(gt_of(38, 51)), GT(gt_of(80, 98)), 18) == GT::spow_steps(GT(gt_of(38, 51)), GT(gt_of(28, 16)), 9));
    lemma_gt_mul_at((38, 51), (28, 16), (46, 8), (2, 12));
    lemma_gt_mul_at((28, 16), (28, 16), (23, 34), (5, 6));
    assert(GT::spow_steps(GT(gt_of(38, 51)), GT(gt_of(28, 16)), 9) == GT::spow_steps(GT(gt_of(46, 8)), GT(gt_of(23, 34)), 4));
    lemma_gt_mul_at((23, 34), (23, 34), (80, 4), (-7, 4));
    assert(GT::spow_steps(GT(gt_of(46, 8)), GT(gt_of(23, 34)), 4) == GT::spow_steps(GT(gt_of(46, 8)), GT(gt_of(80, 4)), 2));
    lemma_gt_mul_at((80, 4), (80, 4), (21, 18), (63, 6));
    assert(GT::spow_steps(GT(gt_of(46, 8)), GT(gt_of(80, 4)), 2) == GT::spow_steps(GT(gt_of(46, 8)), GT(gt_of(21, 18)), 1));
    lemma_gt_mul_at((46, 8), (21, 18), (14, 44), (8, 8));
    lemma_gt_mul_at((21, 18), (21, 18), (16, 28), (1, 4));
    assert(GT::spow_steps(GT(gt_of(46, 8)), GT(gt_of(21, 18)), 1) == GT::spow_steps(GT(gt_of(14, 44)), GT(gt_of(16, 28)), 0));
}

/// The pairing of `14G` with the point `16 P` of the image of `H`.
proof fn lemma_pairing_14_16()
    ensures
        smiller_loop(g1p(26, 56), dq(68, 74)) is Some,
        spairing_at(g1p(26, 56), dq(68, 74)) == GT(gt_of(14, 44)),
{
    lemma_final_exponent();
    lemma_tangent_14_16();
    lemma_tangent_11_16();
    lemma_tangent_5_16();
    lemma_tangent_10_16();
    lemma_vertical_at(26, 45, 56, 68, 74);
    lemma_miller_at(
        g1p(26, 56),
        dq(68, 74),
        (g1p(32, 59), g1p(12, 32), g1p(91, 66), g1p(26, 45)),
        (99, 59),
        (79, 44),
        (59, 44),
        (100, 6),
        (-26, 68),
        ((58, 20, 62, 81), (66, 20, 36, 32), (17, 18, 39, 22), (9, 8, 2, 10)),
        ((17, 80, 0, 0), (8, 47, 12, 75), (30, 65, -34, -39)),
    );
    lemma_final_exp_14_16();
}

proof fn lemma_final_exp_15_16()
    ensures
        GT(gt_of(31, 49)).spow(600) == GT(gt_of(93, 81)),
{
    assert(GT::sone() == GT(gt_of(1, 0)));
    lemma_gt_mul_at((31, 49), (31, 49), (75, 31), (-15, 6));
    assert(GT::spow_steps(GT(gt_of(1, 0)), GT(gt_of(31, 49)), 600) == GT::spow_steps(GT(gt_of(1, 0)), GT(gt_of(75, 31)), 300));
    lemma_gt_mul_at((75, 31), (75, 31), (18, 53), (46, 36));
    assert(GT::spow_steps(GT(gt_of(1, 0)), GT(gt_of(75, 31)), 300) == GT::spow_steps(GT(gt_of(1, 0)), GT(gt_of(18, 53)), 150));
    lemma_gt_mul_at((18, 53), (18, 53), (40, 8), (-25, -9));
    assert(GT::spow_steps(GT(gt_of(1, 0)), GT(gt_of(18, 53)), 150) == GT::spow_steps(GT(gt_of(1, 0)), GT(gt_of(40, 8)), 75));
    lemma_gt_mul_at((1, 0), (40, 8), (40, 8), (0, 0));
    lemma_gt_mul_at((40, 8), (40, 8), (21, 71), (15, 5));
    assert(GT::spow_steps(GT(gt_of(1, 0)), GT(gt_of(40, 8)), 75) == GT::spow_steps(GT(gt_of(40, 8)), GT(gt_of(21, 71)), 37));
    lemma_gt_mul_at((40, 8), (21, 71), (70, 16), (2, 24));
    lemma_gt_mul_at((21, 71), (21, 71), (46, 62), (-46, -21));
    assert(GT::spow_steps(GT(gt_of(40, 8)), GT(gt_of(21, 71)), 37) == GT::spow_steps(GT(gt_of(70, 16)), GT(gt_of(46, 62)), 18));
    lemma_gt_mul_at((46, 62), (46, 62), (90, 42), (-18, 18));
    assert(GT::spow_steps(GT(gt_of(70, 16)), GT(gt_of(46, 62)), 18) == GT::spow_steps(GT(gt_of(70, 16)), GT(gt_of(90, 42)), 9));
    lemma_gt_mul_at((70, 16), (90, 42), (73, 72), (55, 36));
    lemma_gt_mul_at((90, 42), (90, 42), (74, 39), (62, 57));
    assert(GT::spow_steps(GT(gt_of(70, 16)), GT(gt_of(90, 42)), 9) == GT::spow_steps(GT(gt_of(73, 72)), GT(gt_of(74, 39)), 4));
    lemma_gt_mul_at((74, 39), (74, 39), (16, 9), (39, 42));
    assert(GT::spow_steps(GT(gt_of(73, 72)), GT(gt_of(74, 39)), 4) == GT::spow_steps(GT(gt_of(73, 72)), GT(gt_of(16, 9)), 2));
    lemma_gt_mul_at((16, 9), (16, 9), (74, 5), (1, 2));
    assert(GT::spow_steps(GT(gt_of(73, 72)), GT(gt_of(16, 9)), 2) == GT::spow_steps(GT(gt_of(73, 72)), GT(gt_of(74, 5)), 1));
    lemma_gt_mul_at((73, 72), (74, 5), (93, 81), (49, 52));
    lemma_gt_mul_at((74, 5), (74, 5), (98, 8), (53, 7));
    assert(GT::spow_steps(GT(gt_of(73, 72)), GT(gt_of(74, 5)), 1) == GT::spow_steps(GT(gt_of(93, 81)), GT(gt_of(98, 8)), 0));
}

/// The pairing of `15G` with the point `16 P` of the image of `H`.
proof fn lemma_pairing_15_16()
    ensures
        smiller_loop(g1p(68, 27), dq(68, 74)) is Some,
        spairing_at(g1p(68, 27), dq(68, 74)) == GT(gt_of(93, 81)),
{
    lemma_final_exponent();
    lemma_tangent_15_16();
    lemma_tangent_13_16();
    lemma_tangent_9_16();
    lemma_tangent_1_16();
    lemma_vertical_at(68, 74, 27, 68, 74);
    lemma_miller_at(
        g1p(68, 27),
        dq(68, 74),
        (g1p(65, 3), g1p(18, 52), g1p(1, 2), g1p(68, 74)),
        (74, 27),
        (38, 75),
        (20, 77),
        (28, 27),
        (-68, 68),
        ((0, 35, 47, 32), (1, 18, -26, -13), (81, 15, -4, -3), (61, 29, 4, 53)),
        ((52, 71, 28, 26), (44, 61, -5, 14), (31, 49, -71, -53)),
    );
    lemma_final_exp_15_16();
}

proof fn lemma_final_exp_16_16()
    ensures
        GT(gt_of(97, 8)).spow(600) == GT(gt_of(96, 29)),
{
    assert(GT::sone() == GT(gt_of(1, 0)));
    lemma_gt_mul_at((97, 8), (97, 8), (53, 74), (92, 14));
    assert(GT::spow_steps(GT(gt_of(1, 0)), GT(gt_of(97, 8)), 600) == GT::spow_steps(GT(gt_of(1, 0)), GT(gt_of(53, 74)), 300));
    lemma_gt_mul_at((53, 74), (53, 74), (60, 45), (-27, 23));
    assert(GT::spow_steps(GT(gt_of(1, 0)), GT(gt_of(53, 74)), 300) == GT::spow_steps(GT(gt_of(1, 0)), GT(gt_of(60, 45)), 150));
    lemma_gt_mul_at((60, 45), (60, 45), (60, 42), (15, 33));
    assert(GT::spow_steps(GT(gt_of(1, 0)), GT(gt_of(60, 45)), 150) == GT::spow_steps(GT(gt_of(1, 0)), GT(gt_of(60, 42)), 75));
    lemma_gt_mul_at((1, 0), (60, 42), (60, 42), (0, 0));
    lemma_gt_mul_at((60, 42), (60, 42), (18, 44), (18, 32));
    assert(GT::spow_steps(GT(gt_of(1, 0)), GT(gt_of(60, 42)), 75) == GT::spow_steps(GT(gt_of(60, 42)), GT(gt_of(18, 44)), 37));
    lemma_gt_mul_at((60, 42), (18, 44), (40, 33), (-8, 15));
    lemma_gt_mul_at((18, 44), (18, 44), (4, 52), (-16, -4));
    assert(GT::spow_steps(GT(gt_of(60, 42)), GT(gt_of(18, 44)), 37) == GT::spow_steps(GT(gt_of(40, 33)), GT(gt_of(4, 52)), 18));
    lemma_gt_mul_at((4, 52), (4, 52), (39, 35), (-27, -23));
    assert(GT::spow_steps(GT(gt_of(40, 33)), GT(gt_of(4, 52)), 18) == GT::spow_steps(GT(gt_of(40, 33)), GT(gt_of(39, 35)), 9));
    lemma_gt_mul_at((40, 33), (39, 35), (1, 17), (4, 15));
    lemma_gt_mul_at((39, 35), (39, 35), (94, 91), (2, 14));
    assert(GT::spow_steps(GT(gt_of(40, 33)), GT(gt_of(39, 35)), 9) == GT::spow_steps(GT(gt_of(1, 17)), GT(gt_of(94, 91)), 4));
    lemma_gt_mul_at((94, 91), (94, 91), (50, 40), (5, 87));
    assert(GT::spow_steps(GT(gt_of(1, 17)), GT(gt_of(94, 91)), 4) == GT::spow_steps(GT(gt_of(1, 17)), GT(gt_of(50, 40)), 2));
    lemma_gt_mul_at((50, 40), (50, 40), (92, 77), (8, 23));
    assert(GT::spow_steps(GT(gt_of(1, 17)), GT(gt_of(50, 40)), 2) == GT::spow_steps(GT(gt_of(1, 17)), GT(gt_of(92, 77)), 1));
    lemma_gt_mul_at((1, 17), (92, 77), (96, 29), (-13, 3));
    lemma_gt_mul_at((92, 77), (92, 77), (10, 58), (25, 81));
    assert(GT::spow_steps(GT(gt_of(1, 17)), GT(gt_of(92, 77)), 1) == GT::spow_steps(GT(gt_of(96, 29)), GT(gt_of(10, 58)), 0));
}

/// The pairing of `16G` with the point `16 P` of the image of `H`.
proof fn lemma_pairing_16_16()
    ensures
        smiller_loop(g1p(1, 99), dq(68, 74)) is Some,
        spairing_at(g1p(1, 99), dq(68, 74)) == GT(gt_of(96, 29)),
{
    lemma_final_exponent();
    lemma_tangent_16_16();
    lemma_tangent_15_16();
    lemma_tangent_13_16();
    lemma_tangent_9_16();
    lemma_vertical_at(1, 2, 99, 68, 74);
    lemma_miller_at(
        g1p(1, 99),
        dq(68, 74),
        (g1p(68, 27), g1p(65, 3), g1p(18, 52), g1p(1, 2)),
        (26, 0),
        (74, 27),
        (38, 75),
        (20, 77),
        (-1, 68),
        ((70, 0, 6, 0), (29, 72, 51, 18), (0, 2, -43, -10), (52, 27, -2, -1)),
        ((56, 59, 19, 20), (11, 40, -34, 9), (97, 8, -28, -20)),
    );
    lemma_final_exp_16_16();
}

proof fn lemma_final_exp_1_18()
    ensures
        GT(gt_of(4, 93)).spow(600) == GT(gt_of(96, 29)),
{
    assert(GT::sone() == GT(gt_of(1, 0)));
    lemma_gt_mul_at((4, 93), (4, 93), (53, 74), (-86, -79));
    assert(GT::spow_steps(GT(gt_of(1, 0)), GT(gt_of(4, 93)), 600) == GT::spow_steps(GT(gt_of(1, 0)), GT(gt_of(53, 74)), 300));
    lemma_gt_mul_at((53, 74), (53, 74), (60, 45), (-27, 23));
    assert(GT::spow_steps(GT(gt_of(1, 0)), GT(gt_of(53, 74)), 300) == GT::spow_steps(GT(gt_of(1, 0)), GT(gt_of(60, 45)), 150));
    lemma_gt_mul_at((60, 45), (60, 45), (60, 42), (15, 33));
    assert(GT::spow_steps(GT(gt_of(1, 0)), GT(gt_of(60, 45)), 150) == GT::spow_steps(GT(gt_of(1, 0)), GT(gt_of(60, 42)), 75));
    lemma_gt_mul_at((1, 0), (60, 42), (60, 42), (0, 0));
    lemma_gt_mul_at((60, 42), (60, 42), (18, 44), (18, 32));
    assert(GT::spow_steps(GT(gt_of(1, 0)), GT(gt_of(60, 42)), 75) == GT::spow_steps(GT(gt_of(60, 42)), GT(gt_of(18, 44)), 37));
    lemma_gt_mul_at((60, 42), (18, 44), (40, 33), (-8, 15));
    lemma_gt_mul_at((18, 44), (18, 44), (4, 52), (-16, -4));
    assert(GT::spow_steps(GT(gt_of(60, 42)), GT(gt_of(18, 44)), 37) == GT::spow_steps(GT(gt_of(40, 33)), GT(gt_of(4, 52)), 18));
    lemma_gt_mul_at((4, 52), (4, 52), (39, 35), (-27, -23));
    assert(GT::spow_steps(GT(gt_of(40, 33)), GT(gt_of(4, 52)), 18) == GT::spow_steps(GT(gt_of(40, 33)), GT(gt_of(39, 35)), 9));
    lemma_gt_mul_at((40, 33), (39, 35), (1, 17), (4, 15));
    lemma_gt_mul_at((39, 35), (39, 35), (94, 91), (2, 14));
    assert(GT::spow_steps(GT(gt_of(40, 33)), GT(gt_of(39, 35)), 9) == GT::spow_steps(GT(gt_of(1, 17)), GT(gt_of(94, 91)), 4));
    lemma_gt_mul_at((94, 91), (94, 91), (50, 40), (5, 87));
    assert(GT::spow_steps(GT(gt_of(1, 17)), GT(gt_of(94, 91)), 4) == GT::spow_steps(GT(gt_of(1, 17)), GT(gt_of(50, 40)), 2));
    lemma_gt_mul_at((50, 40), (50, 40), (92, 77), (8, 23));
    assert(GT::spow_steps(GT(gt_of(1, 17)), GT(gt_of(50, 40)), 2) == GT::spow_steps(GT(gt_of(1, 17)), GT(gt_of(92, 77)), 1));
    lemma_gt_mul_at((1, 17), (92, 77), (96, 29), (-13, 3));
    lemma_gt_mul_at((92, 77), (92, 77), (10, 58), (25, 81));
    assert(GT::spow_steps(GT(gt_of(1, 17)), GT(gt_of(92, 77)), 1) == GT::spow_steps(GT(gt_of(96, 29)), GT(gt_of(10, 58)), 0));
}

/// The pairing of `1G` with the point `18 P` of the image of `H`.
proof fn lemma_pairing_1_18()
    ensures
        smiller_loop(g1p(1, 2), dq(68, 27)) is Some,
        spairing_at(g1p(1, 2), dq(68, 27)) == GT(gt_of(96, 29)),
{
    lemma_final_exponent();
    lemma_tangent_1_18();
    lemma_tangent_2_18();
    lemma_tangent_4_18();
    lemma_tangent_8_18();
    lemma_vertical_at(1, 99, 2, 68, 27);
    lemma_miller_at(
        g1p(1, 2),
        dq(68, 27),
        (g1p(68, 74), g1p(65, 98), g1p(18, 49), g1p(1, 99)),
        (75, 0),
        (27, 74),
        (63, 26),
        (81, 24),
        (-1, 68),
        ((70, 0, 55, 0), (72, 29, 18, 51), (0, 2, 43, 33), (49, 74, -1, 0)),
        ((56, 59, -31, 17), (90, 61, 30, 46), (4, 93, -42, 18)),
    );
    lemma_final_exp_1_18();
}

proof fn lemma_final_exp_2_18()
    ensures
        GT(gt_of(70, 52)).spow(600) == GT(gt_of(93, 81)),
{
    assert(GT::sone() == GT(gt_of(1, 0)));
    lemma_gt_mul_at((70, 52), (70, 52), (75, 31), (21, 45));
    assert(GT::spow_steps(GT(gt_of(1, 0)), GT(gt_of(70, 52)), 600) == GT::spow_steps(GT(gt_of(1, 0)), GT(gt_of(75, 31)), 300));
    lemma_gt_mul_at((75, 31), (75, 31), (18, 53), (46, 36));
    assert(GT::spow_steps(GT(gt_of(1, 0)), GT(gt_of(75, 31)), 300) == GT::spow_steps(GT(gt_of(1, 0)), GT(gt_of(18, 53)), 150));
    lemma_gt_mul_at((18, 53), (18, 53), (40, 8), (-25, -9));
    assert(GT::spow_steps(GT(gt_of(1, 0)), GT(gt_of(18, 53)), 150) == GT::spow_steps(GT(gt_of(1, 0)), GT(gt_of(40, 8)), 75));
    lemma_gt_mul_at((1, 0), (40, 8), (40, 8), (0, 0));
    lemma_gt_mul_at((40, 8), (40, 8), (21, 71), (15, 5));
    assert(GT::spow_steps(GT(gt_of(1, 0)), GT(gt_of(40, 8)), 75) == GT::spow_steps(GT(gt_of(40, 8)), GT(gt_of(21, 71)), 37));
    lemma_gt_mul_at((40, 8), (21, 71), (70, 16), (2, 24));
    lemma_gt_mul_at((21, 71), (21, 71), (46, 62), (-46, -21));
    assert(GT::spow_steps(GT(gt_of(40, 8)), GT(gt_of(21, 71)), 37) == GT::spow_steps(GT(gt_of(70, 16)), GT(gt_of(46, 62)), 18));
    lemma_gt_mul_at((46, 62), (46, 62), (90, 42), (-18, 18));
    assert(GT::spow_steps(GT(gt_of(70, 16)), GT(gt_of(46, 62)), 18) == GT::spow_steps(GT(gt_of(70, 16)), GT(gt_of(90, 42)), 9));
    lemma_gt_mul_at((70, 16), (90, 42), (73, 72), (55, 36));
    lemma_gt_mul_at((90, 42), (90, 42), (74, 39), (62, 57));
    assert(GT::spow_steps(GT(gt_of(70, 16)), GT(gt_of(90, 42)), 9) == GT::spow_steps(GT(gt_of(73, 72)), GT(gt_of(74, 39)), 4));
    lemma_gt_mul_at((74, 39), (74, 39), (16, 9), (39, 42));
    assert(GT::spow_steps(GT(gt_of(73, 72)), GT(gt_of(74, 39)), 4) == GT::spow_steps(GT(gt_of(73, 72)), GT(gt_of(16, 9)), 2));
    lemma_gt_mul_at((16, 9), (16, 9), (74, 5), (1, 2));
    assert(GT::spow_steps(GT(gt_of(73, 72)), GT(gt_of(16, 9)), 2) == GT::spow_steps(GT(gt_of(73, 72)), GT(gt_of(74, 5)), 1));
    lemma_gt_mul_at((73, 72), (74, 5), (93, 81), (49, 52));
    lemma_gt_mul_at((74, 5), (74, 5), (98, 8), (53, 7));
    assert(GT::spow_steps(GT(gt_of(73, 72)), GT(gt_of(74, 5)), 1) == GT::spow_steps(GT(gt_of(93, 81)), GT(gt_of(98, 8)), 0));
}

/// The pairing of `2G` with the point `18 P` of the image of `H`.
proof fn lemma_pairing_2_18()
    ensures
        smiller_loop(g1p(68, 74), dq(68, 27)) is Some,
        spairing_at(g1p(68, 74), dq(68, 27)) == GT(gt_of(93, 81)),
{
    lemma_final_exponent();
    lemma_tangent_2_18();
    lemma_tangent_4_18();
    lemma_tangent_8_18();
    lemma_tangent_16_18();
    lemma_vertical_at(68, 27, 74, 68, 27);
    lemma_miller_at(
        g1p(68, 74),
        dq(68, 27),
        (g1p(65, 98), g1p(18, 49), g1p(1, 99), g1p(68, 27)),
        (27, 74),
        (63, 26),
        (81, 24),
        (73, 74),
        (-68, 68),
        ((0, 35, -47, -15), (100, 83, -10, 12), (81, 15, 30, 96), (40, 72, 61, 27)),
        ((52, 71, -36, 5), (57, 40, -15, 37), (70, 52, -66, -16)),
    );
    lemma_final_exp_2_18();
}

proof fn lemma_final_exp_3_18()
    ensures
        GT(gt_of(71, 36)).spow(600) == GT(gt_of(14, 44)),
{
    assert(GT::sone() == GT(gt_of(1, 0)));
    lemma_gt_mul_at((71, 36), (71, 36), (8, 79), (37, 37));
    assert(GT::spow_steps(GT(gt_of(1, 0)), GT(gt_of(71, 36)), 600) == GT::spow_steps(GT(gt_of(1, 0)), GT(gt_of(8, 79)), 300));
    lemma_gt_mul_at((8, 79), (8, 79), (85, 73), (-62, -50));
    assert(GT::spow_steps(GT(gt_of(1, 0)), GT(gt_of(8, 79)), 300) == GT::spow_steps(GT(gt_of(1, 0)), GT(gt_of(85, 73)), 150));
    lemma_gt_mul_at((85, 73), (85, 73), (78, 11), (18, 70));
    assert(GT::spow_steps(GT(gt_of(1, 0)), GT(gt_of(85, 73)), 150) == GT::spow_steps(GT(gt_of(1, 0)), GT(gt_of(78, 11)), 75));
    lemma_gt_mul_at((1, 0), (78, 11), (78, 11), (0, 0));
    lemma_gt_mul_at((78, 11), (78, 11), (4, 80), (59, 15));
    assert(GT::spow_steps(GT(gt_of(1, 0)), GT(gt_of(78, 11)), 75) == GT::spow_steps(GT(gt_of(78, 11)), GT(gt_of(4, 80)), 37));
    lemma_gt_mul_at((78, 11), (4, 80), (38, 51), (-6, 53));
    lemma_gt_mul_at((4, 80), (4, 80), (80, 98), (-64, -58));
    assert(GT::spow_steps(GT(gt_of(78, 11)), GT(gt_of(4, 80)), 37) == GT::spow_steps(GT(gt_of(38, 51)), GT(gt_of(80, 98)), 18));
    lemma_gt_mul_at((80, 98), (80, 98), (28, 16), (-32, 60));
    assert(GT::spow_steps(GT(gt_of(38, 51)), GT(gt_of(80, 98)), 18) == GT::spow_steps(GT(gt_of(38, 51)), GT(gt_of(28, 16)), 9));
    lemma_gt_mul_at((38, 51), (28, 16), (46, 8), (2, 12));
    lemma_gt_mul_at((28, 16), (28, 16), (23, 34), (5, 6));
    assert(GT::spow_steps(GT(gt_of(38, 51)), GT(gt_of(28, 16)), 9) == GT::spow_steps(GT(gt_of(46, 8)), GT(gt_of(23, 34)), 4));
    lemma_gt_mul_at((23, 34), (23, 34), (80, 4), (-7, 4));
    assert(GT::spow_steps(GT(gt_of(46, 8)), GT(gt_of(23, 34)), 4) == GT::spow_steps(GT(gt_of(46, 8)), GT(gt_of(80, 4)), 2));
    lemma_gt_mul_at((80, 4), (80, 4), (21, 18), (63, 6));
    assert(GT::spow_steps(GT(gt_of(46, 8)), GT(gt_of(80, 4)), 2) == GT::spow_steps(GT(gt_of(46, 8)), GT(gt_of(21, 18)), 1));
    lemma_gt_mul_at((46, 8), (21, 18), (14, 44), (8, 8));
    lemma_gt_mul_at((21, 18), (21, 18), (16, 28), (1, 4));
    assert(GT::spow_steps(GT(gt_of(46, 8)), GT(gt_of(21, 18)), 1) == GT::spow_steps(GT(gt_of(14, 44)), GT(gt_of(16, 28)), 0));
}

/// The pairing of `3G` with the point `18 P` of the image of `H`.
proof fn lemma_pairing_3_18()
    ensures
        smiller_loop(g1p(26, 45), dq(68, 27)) is Some,
        spairing_at(g1p(26, 45), dq(68, 27)) == GT(gt_of(14, 44)),
{
    lemma_final_exponent();
    lemma_tangent_3_18();
    lemma_tangent_6_18();
    lemma_tangent_12_18();
    lemma_tangent_7_18();
    lemma_vertical_at(26, 56, 45, 68, 27);
    lemma_miller_at(
        g1p(26, 45),
        dq(68, 27),
        (g1p(32, 42), g1p(12, 69), g1p(91, 35), g1p(26, 56)),
        (2, 42),
        (22, 57),
        (42, 57),
        (1, 95),
        (-26, 68),
        ((58, 20, -18, -16), (35, 81, 1, 25), (17, 18, -53, -9), (92, 93, -4, 6)),
        ((17, 80, -2, 83), (93, 54, -76, -59), (71, 36, -61, 12)),
    );
    lemma_final_exp_3_18();
}

proof fn lemma_final_exp_4_18()
    ensures
        GT(gt_of(70, 20)).spow(600) == GT(gt_of(68, 21)),
{
    assert(GT::sone() == GT(gt_of(1, 0)));
    lemma_gt_mul_at((70, 20), (70, 20), (56, 77), (44, 23));
    assert(GT::spow_steps(GT(gt_of(1, 0)), GT(gt_of(70, 20)), 600) == GT::spow_steps(GT(gt_of(1, 0)), GT(gt_of(56, 77)), 300));
    lemma_gt_mul_at((56, 77), (56, 77), (35, 69), (-28, 26));
    assert(GT::spow_steps(GT(gt_of(1, 0)), GT(gt_of(56, 77)), 300) == GT::spow_steps(GT(gt_of(1, 0)), GT(gt_of(35, 69)), 150));
    lemma_gt_mul_at((35, 69), (35, 69), (100, 69), (-36, 0));
    assert(GT::spow_steps(GT(gt_of(1, 0)), GT(gt_of(35, 69)), 150) == GT::spow_steps(GT(gt_of(1, 0)), GT(gt_of(100, 69)), 75));
    lemma_gt_mul_at((1, 0), (100, 69), (100, 69), (0, 0));
    lemma_gt_mul_at((100, 69), (100, 69), (88, 50), (51, 89));
    assert(GT::spow_steps(GT(gt_of(1, 0)), GT(gt_of(100, 69)), 75) == GT::spow_steps(GT(gt_of(100, 69)), GT(gt_of(88, 50)), 37));
    lemma_gt_mul_at((100, 69), (88, 50), (98, 47), (52, 75));
    lemma_gt_mul_at((88, 50), (88, 50), (93, 38), (51, 62));
    assert(GT::spow_steps(GT(gt_of(100, 69)), GT(gt_of(88, 50)), 37) == GT::spow_steps(GT(gt_of(98, 47)), GT(gt_of(93, 38)), 18));
    lemma_gt_mul_at((93, 38), (93, 38), (34, 69), (71, 55));
    assert(GT::spow_steps(GT(gt_of(98, 47)), GT(gt_of(93, 38)), 18) == GT::spow_steps(GT(gt_of(98, 47)), GT(gt_of(34, 69)), 9));
    lemma_gt_mul_at((98, 47), (34, 69), (89, 67), (0, 50));
    lemma_gt_mul_at((34, 69), (34, 69), (31, 32), (-36, -1));
    assert(GT::spow_steps(GT(gt_of(98, 47)), GT(gt_of(34, 69)), 9) == GT::spow_steps(GT(gt_of(89, 67)), GT(gt_of(31, 32)), 4));
    lemma_gt_mul_at((31, 32), (31, 32), (38, 51), (-1, 9));
    assert(GT::spow_steps(GT(gt_of(89, 67)), GT(gt_of(31, 32)), 4) == GT::spow_steps(GT(gt_of(89, 67)), GT(gt_of(38, 51)), 2));
    lemma_gt_mul_at((38, 51), (38, 51), (55, 63), (-12, 12));
    assert(GT::spow_steps(GT(gt_of(89, 67)), GT(gt_of(38, 51)), 2) == GT::spow_steps(GT(gt_of(89, 67)), GT(gt_of(55, 63)), 1));
    lemma_gt_mul_at((89, 67), (55, 63), (68, 21), (6, 50));
    lemma_gt_mul_at((55, 63), (55, 63), (66, 32), (-10, 29));
    assert(GT::spow_steps(GT(gt_of(89, 67)), GT(gt_of(55, 63)), 1) == GT::spow_steps(GT(gt_of(68, 21)), GT(gt_of(66, 32)), 0));
}

/// The pairing of `4G` with the point `18 P` of the image of `H`.
proof fn lemma_pairing_4_18()
    ensures
        smiller_loop(g1p(65, 98), dq(68, 27)) is Some,
        spairing_at(g1p(65, 98), dq(68, 27)) == GT(gt_of(68, 21)),
{
    lemma_final_exponent();
    lemma_tangent_4_18();
    lemma_tangent_8_18();
    lemma_tangent_16_18();
    lemma_tangent_15_18();
    lemma_vertical_at(65, 3, 98, 68, 27);
    lemma_miller_at(
        g1p(65, 98),
        dq(68, 27),
        (g1p(18, 49), g1p(1, 99), g1p(68, 27), g1p(65, 3)),
        (63, 26),
        (81, 24),
        (73, 74),
        (87, 42),
        (-65, 68),
        ((61, 75, 32, 25), (10, 83, 31, 56), (79, 23, -68, -52), (25, 66, 40, 57)),
        ((6, 55, -37, -11), (30, 0, -18, 27), (70, 20, -20, 20)),
    );
    lemma_final_exp_4_18();
}

proof fn lemma_final_exp_5_18()
    ensures
        GT(gt_of(20, 86)).spow(600) == GT(gt_of(61, 46)),
{
    assert(GT::sone() == GT(gt_of(1, 0)));
    lemma_gt_mul_at((20, 86), (20, 86), (74, 84), (-70, -40));
    assert(GT::spow_steps(GT(gt_of(1, 0)), GT(gt_of(20, 86)), 600) == GT::spow_steps(GT(gt_of(1, 0)), GT(gt_of(74, 84)), 300));
    lemma_gt_mul_at((74, 84), (74, 84), (36, 23), (-16, 53));
    assert(GT::spow_steps(GT(gt_of(1, 0)), GT(gt_of(74, 84)), 300) == GT::spow_steps(GT(gt_of(1, 0)), GT(gt_of(36, 23)), 150));
    lemma_gt_mul_at((36, 23), (36, 23), (60, 16), (7, 11));
    assert(GT::spow_steps(GT(gt_of(1, 0)), GT(gt_of(36, 23)), 150) == GT::spow_steps(GT(gt_of(1, 0)), GT(gt_of(60, 16)), 75));
    lemma_gt_mul_at((1, 0), (60, 16), (60, 16), (0, 0));
    lemma_gt_mul_at((60, 16), (60, 16), (11, 48), (33, 16));
    assert(GT::spow_steps(GT(gt_of(1, 0)), GT(gt_of(60, 16)), 75) == GT::spow_steps(GT(gt_of(60, 16)), GT(gt_of(11, 48)), 37));
    lemma_gt_mul_at((60, 16), (11, 48), (94, 66), (-2, 22));
    lemma_gt_mul_at((11, 48), (11, 48), (39, 65), (-22, -13));
    assert(GT::spow_steps(GT(gt_of(60, 16)), GT(gt_of(11, 48)), 37) == GT::spow_steps(GT(gt_of(94, 66)), GT(gt_of(39, 65)), 18));
    lemma_gt_mul_at((39, 65), (39, 65), (23, 37), (-27, 8));
    assert(GT::spow_steps(GT(gt_of(94, 66)), GT(gt_of(39, 65)), 18) == GT::spow_steps(GT(gt_of(94, 66)), GT(gt_of(23, 37)), 9));
    lemma_gt_mul_at((94, 66), (23, 37), (23, 29), (-3, 25));
    lemma_gt_mul_at((23, 37), (23, 37), (69, 30), (-9, 3));
    assert(GT::spow_steps(GT(gt_of(94, 66)), GT(gt_of(23, 37)), 9) == GT::spow_steps(GT(gt_of(23, 29)), GT(gt_of(69, 30)), 4));
    lemma_gt_mul_at((69, 30), (69, 30), (23, 8), (38, 32));
    assert(GT::spow_steps(GT(gt_of(23, 29)), GT(gt_of(69, 30)), 4) == GT::spow_steps(GT(gt_of(23, 29)), GT(gt_of(23, 8)), 2));
    lemma_gt_mul_at((23, 8), (23, 8), (61, 1), (4, 3));
    assert(GT::spow_steps(GT(gt_of(23, 29)), GT(gt_of(23, 8)), 2) == GT::spow_steps(GT(gt_of(23, 29)), GT(gt_of(61, 1)), 1));
    lemma_gt_mul_at((23, 29), (61, 1), (61, 46), (13, 17));
    lemma_gt_mul_at((61, 1), (61, 1), (84, 20), (36, 1));
    assert(GT::spow_steps(GT(gt_of(23, 29)), GT(gt_of(61, 1)), 1) == GT::spow_steps(GT(gt_of(61, 46)), GT(gt_of(84, 20)), 0));
}

/// The pairing of `5G` with the point `18 P` of the image of `H`.
proof fn lemma_pairing_5_18()
    ensures
        smiller_loop(g1p(12, 32), dq(68, 27)) is Some,
        spairing_at(g1p(12, 32), dq(68, 27)) == GT(gt_of(61, 46)),
{
    lemma_final_exponent();
    lemma_tangent_5_18();
    lemma_tangent_10_18();
    lemma_tangent_3_18();
    lemma_tangent_6_18();
    lemma_vertical_at(12, 69, 32, 68, 27);
    lemma_miller_at(
        g1p(12, 32),
        dq(68, 27),
        (g1p(91, 66), g1p(26, 45), g1p(32, 42), g1p(12, 69)),
        (84, 35),
        (12, 24),
        (2, 42),
        (22, 57),
        (-12, 68),
        ((74, 9, 57, 46), (66, 52, 6, 16), (36, 19, 16, 41), (82, 45, -8, 7)),
        ((53, 2, 46, 53), (42, 22, 10, 29), (20, 86, -20, 10)),
    );
    lemma_final_exp_5_18();
}

proof fn lemma_final_exp_6_18()
    ensures
        GT(gt_of(43, 77)).spow(600) == GT(gt_of(78, 3)),
{
    assert(GT::sone() == GT(gt_of(1, 0)));
    lemma_gt_mul_at((43, 77), (43, 77), (61, 87), (-41, 6));
    assert(GT::spow_steps(GT(gt_of(1, 0)), GT(gt_of(43, 77)), 600) == GT::spow_steps(GT(gt_of(1, 0)), GT(gt_of(61, 87)), 300));
    lemma_gt_mul_at((61, 87), (61, 87), (91, 15), (-39, 30));
    assert(GT::spow_steps(GT(gt_of(1, 0)), GT(gt_of(61, 87)), 300) == GT::spow_steps(GT(gt_of(1, 0)), GT(gt_of(91, 15)), 150));
    lemma_gt_mul_at((91, 15), (91, 15), (77, 81), (79, 24));
    assert(GT::spow_steps(GT(gt_of(1, 0)), GT(gt_of(91, 15)), 150) == GT::spow_steps(GT(gt_of(1, 0)), GT(gt_of(77, 81)), 75));
    lemma_gt_mul_at((1, 0), (77, 81), (77, 81), (0, 0));
    lemma_gt_mul_at((77, 81), (77, 81), (75, 55), (-7, 58));
    assert(GT::spow_steps(GT(gt_of(1, 0)), GT(gt_of(77, 81)), 75) == GT::spow_steps(GT(gt_of(77, 81)), GT(gt_of(75, 55)), 37));
    lemma_gt_mul_at((77, 81), (75, 55), (7, 98), (13, 57));
    lemma_gt_mul_at((75, 55), (75, 55), (75, 74), (25, 51));
    assert(GT::spow_steps(GT(gt_of(77, 81)), GT(gt_of(75, 55)), 37) == GT::spow_steps(GT(gt_of(7, 98)), GT(gt_of(75, 74)), 18));
    lemma_gt_mul_at((75, 74), (75, 74), (48, 69), (1, 55));
    assert(GT::spow_steps(GT(gt_of(7, 98)), GT(gt_of(75, 74)), 18) == GT::spow_steps(GT(gt_of(7, 98)), GT(gt_of(48, 69)), 9));
    lemma_gt_mul_at((7, 98), (48, 69), (38, 41), (-64, -16));
    lemma_gt_mul_at((48, 69), (48, 69), (68, 45), (-25, 18));
    assert(GT::spow_steps(GT(gt_of(7, 98)), GT(gt_of(48, 69)), 9) == GT::spow_steps(GT(gt_of(38, 41)), GT(gt_of(68, 45)), 4));
    lemma_gt_mul_at((68, 45), (68, 45), (74, 55), (25, 40));
    assert(GT::spow_steps(GT(gt_of(38, 41)), GT(gt_of(68, 45)), 4) == GT::spow_steps(GT(gt_of(38, 41)), GT(gt_of(74, 55)), 2));
    lemma_gt_mul_at((74, 55), (74, 55), (27, 65), (24, 50));
    assert(GT::spow_steps(GT(gt_of(38, 41)), GT(gt_of(74, 55)), 2) == GT::spow_steps(GT(gt_of(38, 41)), GT(gt_of(27, 65)), 1));
    lemma_gt_mul_at((38, 41), (27, 65), (78, 3), (-17, 9));
    lemma_gt_mul_at((27, 65), (27, 65), (39, 93), (-35, -8));
    assert(GT::spow_steps(GT(gt_of(38, 41)), GT(gt_of(27, 65)), 1) == GT::spow_steps(GT(gt_of(78, 3)), GT(gt_of(39, 93)), 0));
}

/// The pairing of `6G` with the point `18 P` of the image of `H`.
proof fn lemma_pairing_6_18()
    ensures
        smiller_loop(g1p(32, 42), dq(68, 27)) is Some,
        spairing_at(g1p(32, 42), dq(68, 27)) == GT(gt_of(78, 3)),
{
    lemma_final_exponent();
    lemma_tangent_6_18();
    lemma_tangent_12_18();
    lemma_tangent_7_18();
    lemma_tangent_14_18();
    lemma_vertical_at(32, 59, 42, 68, 27);
    lemma_miller_at(
        g1p(32, 42),
        dq(68, 27),
        (g1p(12, 69), g1p(91, 35), g1p(26, 56), g1p(32, 59)),
        (22, 57),
        (42, 57),
        (1, 95),
        (98, 26),
        (-32, 68),
        ((63, 67, -28, -8), (39, 61, -12, 25), (22, 27, -22, 10), (83, 57, -26, -5)),
        ((4, 52, 36, 61), (50, 10, -10, 38), (43, 77, -23, 23)),
    );
    lemma_final_exp_6_18();
}

proof fn lemma_final_exp_7_18()
    ensures
        GT(gt_of(49, 94)).spow(600) == GT(gt_of(28, 39)),
{
    assert(GT::sone() == GT(gt_of(1, 0)));
    lemma_gt_mul_at((49, 94), (49, 94), (29, 73), (-64, 3));
    assert(GT::spow_steps(GT(gt_of(1, 0)), GT(gt_of(49, 94)), 600) == GT::spow_steps(GT(gt_of(1, 0)), GT(gt_of(29, 73)), 300));
    lemma_gt_mul_at((29, 73), (29, 73), (57, 16), (-45, -11));
    assert(GT::spow_steps(GT(gt_of(1, 0)), GT(gt_of(29, 73)), 300) == GT::spow_steps(GT(gt_of(1, 0)), GT(gt_of(57, 16)), 150));
    lemma_gt_mul_at((57, 16), (57, 16), (64, 53), (29, 15));
    assert(GT::spow_steps(GT(gt_of(1, 0)), GT(gt_of(57, 16)), 150) == GT::spow_steps(GT(gt_of(1, 0)), GT(gt_of(64, 53)), 75));
    lemma_gt_mul_at((1, 0), (64, 53), (64, 53), (0, 0));
    lemma_gt_mul_at((64, 53), (64, 53), (75, 36), (12, 39));
    assert(GT::spow_steps(GT(gt_of(1, 0)), GT(gt_of(64, 53)), 75) == GT::spow_steps(GT(gt_of(64, 53)), GT(gt_of(75, 36)), 37));
    lemma_gt_mul_at((64, 53), (75, 36), (64, 28), (28, 43));
    lemma_gt_mul_at((75, 36), (75, 36), (87, 64), (42, 40));
    assert(GT::spow_steps(GT(gt_of(64, 53)), GT(gt_of(75, 36)), 37) == GT::spow_steps(GT(gt_of(64, 28)), GT(gt_of(87, 64)), 18));
    lemma_gt_mul_at((87, 64), (87, 64), (39, 71), (34, 69));
    assert(GT::spow_steps(GT(gt_of(64, 28)), GT(gt_of(87, 64)), 18) == GT::spow_steps(GT(gt_of(64, 28)), GT(gt_of(39, 71)), 9));
    lemma_gt_mul_at((64, 28), (39, 71), (3, 12), (5, 36));
    lemma_gt_mul_at((39, 71), (39, 71), (15, 93), (-35, 4));
    assert(GT::spow_steps(GT(gt_of(64, 28)), GT(gt_of(39, 71)), 9) == GT::spow_steps(GT(gt_of(3, 12)), GT(gt_of(15, 93)), 4));
    lemma_gt_mul_at((15, 93), (15, 93), (60, 100), (-84, -59));
    assert(GT::spow_steps(GT(gt_of(3, 12)), GT(gt_of(15, 93)), 4) == GT::spow_steps(GT(gt_of(3, 12)), GT(gt_of(60, 100)), 2));
    lemma_gt_mul_at((60, 100), (60, 100), (64, 81), (-64, 19));
    assert(GT::spow_steps(GT(gt_of(3, 12)), GT(gt_of(60, 100)), 2) == GT::spow_steps(GT(gt_of(3, 12)), GT(gt_of(64, 81)), 1));
    lemma_gt_mul_at((3, 12), (64, 81), (28, 39), (-8, 0));
    lemma_gt_mul_at((64, 81), (64, 81), (60, 70), (-25, 37));
    assert(GT::spow_steps(GT(gt_of(3, 12)), GT(gt_of(64, 81)), 1) == GT::spow_steps(GT(gt_of(28, 39)), GT(gt_of(60, 70)), 0));
}

/// The pairing of `7G` with the point `18 P` of the image of `H`.
proof fn lemma_pairing_7_18()
    ensures
        smiller_loop(g1p(91, 35), dq(68, 27)) is Some,
        spairing_at(g1p(91, 35), dq(68, 27)) == GT(gt_of(28, 39)),
{
    lemma_final_exponent();
    lemma_tangent_7_18();
    lemma_tangent_14_18();
    lemma_tangent_11_18();
    lemma_tangent_5_18();
    lemma_vertical_at(91, 66, 35, 68, 27);
    lemma_miller_at(
        g1p(91, 35),
        dq(68, 27),
        (g1p(26, 56), g1p(32, 59), g1p(12, 32), g1p(91, 66)),
        (1, 95),
        (98, 26),
        (38, 95),
        (84, 35),
        (-91, 68),
        ((66, 53, -90, -88), (40, 78, 50, 54), (61, 55, -45, 1), (22, 34, -29, 26)),
        ((35, 37, -7, 3), (29, 8, 16, 30), (49, 94, -32, 6)),
    );
    lemma_final_exp_7_18();
}

proof fn lemma_final_exp_8_18()
    ensures
        GT(gt_of(24, 37)).spow(600) == GT(gt_of(42, 92)),
{
    assert(GT::sone() == GT(gt_of(1, 0)));
    lemma_gt_mul_at((24, 37), (24, 37), (15, 3), (-8, 4));
    assert(GT::spow_steps(GT(gt_of(1, 0)), GT(gt_of(24, 37)), 600) == GT::spow_steps(GT(gt_of(1, 0)), GT(gt_of(15, 3)), 300));
    lemma_gt_mul_at((15, 3), (15, 3), (14, 81), (2, 0));
    assert(GT::spow_steps(GT(gt_of(1, 0)), GT(gt_of(15, 3)), 300) == GT::spow_steps(GT(gt_of(1, 0)), GT(gt_of(14, 81)), 150));
    lemma_gt_mul_at((14, 81), (14, 81), (99, 50), (-64, -43));
    assert(GT::spow_steps(GT(gt_of(1, 0)), GT(gt_of(14, 81)), 150) == GT::spow_steps(GT(gt_of(1, 0)), GT(gt_of(99, 50)), 75));
    lemma_gt_mul_at((1, 0), (99, 50), (99, 50), (0, 0));
    lemma_gt_mul_at((99, 50), (99, 50), (29, 27), (72, 73));
    assert(GT::spow_steps(GT(gt_of(1, 0)), GT(gt_of(99, 50)), 75) == GT::spow_steps(GT(gt_of(99, 50)), GT(gt_of(29, 27)), 37));
    lemma_gt_mul_at((99, 50), (29, 27), (6, 46), (15, 27));
    lemma_gt_mul_at((29, 27), (29, 27), (11, 29), (1, 8));
    assert(GT::spow_steps(GT(gt_of(99, 50)), GT(gt_of(29, 27)), 37) == GT::spow_steps(GT(gt_of(6, 46)), GT(gt_of(11, 29)), 18));
    lemma_gt_mul_at((11, 29), (11, 29), (88, 100), (-8, -3));
    assert(GT::spow_steps(GT(gt_of(6, 46)), GT(gt_of(11, 29)), 18) == GT::spow_steps(GT(gt_of(6, 46)), GT(gt_of(88, 100)), 9));
    lemma_gt_mul_at((6, 46), (88, 100), (69, 48), (-41, 0));
    lemma_gt_mul_at((88, 100), (88, 100), (67, 25), (-23, 75));
    assert(GT::spow_steps(GT(gt_of(6, 46)), GT(gt_of(88, 100)), 9) == GT::spow_steps(GT(gt_of(69, 48)), GT(gt_of(67, 25)), 4));
    lemma_gt_mul_at((67, 25), (67, 25), (26, 99), (38, 26));
    assert(GT::spow_steps(GT(gt_of(69, 48)), GT(gt_of(67, 25)), 4) == GT::spow_steps(GT(gt_of(69, 48)), GT(gt_of(26, 99)), 2));
    lemma_gt_mul_at((26, 99), (26, 99), (66, 94), (-91, -47));
    assert(GT::spow_steps(GT(gt_of(69, 48)), GT(gt_of(26, 99)), 2) == GT::spow_steps(GT(gt_of(69, 48)), GT(gt_of(66, 94)), 1));
    lemma_gt_mul_at((69, 48), (66, 94), (42, 92), (0, 50));
    lemma_gt_mul_at((66, 94), (66, 94), (65, 37), (-45, 35));
    assert(GT::spow_steps(GT(gt_of(69, 48)), GT(gt_of(66, 94)), 1) == GT::spow_steps(GT(gt_of(42, 92)), GT(gt_of(65, 37)), 0));
}

/// The pairing of `8G` with the point `18 P` of the image of `H`.
proof fn lemma_pairing_8_18()
    ensures
        smiller_loop(g1p(18, 49), dq(68, 27)) is Some,
        spairing_at(g1p(18, 49), dq(68, 27)) == GT(gt_of(42, 92)),
{
    lemma_final_exponent();
    lemma_tangent_8_18();
    lemma_tangent_16_18();
    lemma_tangent_15_18();
    lemma_tangent_13_18();
    lemma_vertical_at(18, 52, 49, 68, 27);
    lemma_miller_at(
        g1p(18, 49),
        dq(68, 27),
        (g1p(1, 99), g1p(68, 27), g1p(65, 3), g1p(18, 52)),
        (81, 24),
        (73, 74),
        (87, 42),
        (29, 35),
        (-18, 68),
        ((26, 80, 59, 32), (18, 26, -40, 18), (52, 58, -4, 2), (68, 47, 20, 47)),
        ((92, 42, 23, 41), (87, 39, 11, 29), (24, 37, -42, 25)),
    );
    lemma_final_exp_8_18();
}

proof fn lemma_final_exp_9_18()
    ensures
        GT(gt_of(41, 67)).spow(600) == GT(gt_of(51, 9)),
{
    assert(GT::sone() == GT(gt_of(1, 0)));
    lemma_gt_mul_at((41, 67), (41, 67), (20, 96), (-28, 9));
    assert(GT::spow_steps(GT(gt_of(1, 0)), GT(gt_of(41, 67)), 600) == GT::spow_steps(GT(gt_of(1, 0)), GT(gt_of(20, 96)), 300));
    lemma_gt_mul_at((20, 96), (20, 96), (72, 78), (-88, -54));
    assert(GT::spow_steps(GT(gt_of(1, 0)), GT(gt_of(20, 96)), 300) == GT::spow_steps(GT(gt_of(1, 0)), GT(gt_of(72, 78)), 150));
    lemma_gt_mul_at((72, 78), (72, 78), (9, 98), (-9, 50));
    assert(GT::spow_steps(GT(gt_of(1, 0)), GT(gt_of(72, 78)), 150) == GT::spow_steps(GT(gt_of(1, 0)), GT(gt_of(9, 98)), 75));
    lemma_gt_mul_at((1, 0), (9, 98), (9, 98), (0, 0));
    lemma_gt_mul_at((9, 98), (9, 98), (72, 38), (-95, -78));
    assert(GT::spow_steps(GT(gt_of(1, 0)), GT(gt_of(9, 98)), 75) == GT::spow_steps(GT(gt_of(9, 98)), GT(gt_of(72, 38)), 37));
    lemma_gt_mul_at((9, 98), (72, 38), (55, 38), (-31, 36));
    lemma_gt_mul_at((72, 38), (72, 38), (3, 89), (37, 39));
    assert(GT::spow_steps(GT(gt_of(9, 98)), GT(gt_of(72, 38)), 37) == GT::spow_steps(GT(gt_of(55, 38)), GT(gt_of(3, 89)), 18));
    lemma_gt_mul_at((3, 89), (3, 89), (67, 87), (-79, -74));
    assert(GT::spow_steps(GT(gt_of(55, 38)), GT(gt_of(3, 89)), 18) == GT::spow_steps(GT(gt_of(55, 38)), GT(gt_of(67, 87)), 9));
    lemma_gt_mul_at((55, 38), (67, 87), (76, 86), (3, 39));
    lemma_gt_mul_at((67, 87), (67, 87), (51, 49), (-31, 40));
    assert(GT::spow_steps(GT(gt_of(55, 38)), GT(gt_of(67, 87)), 9) == GT::spow_steps(GT(gt_of(76, 86)), GT(gt_of(51, 49)), 4));
    lemma_gt_mul_at((51, 49), (51, 49), (99, 72), (1, 25));
    assert(GT::spow_steps(GT(gt_of(76, 86)), GT(gt_of(51, 49)), 4) == GT::spow_steps(GT(gt_of(76, 86)), GT(gt_of(99, 72)), 2));
    lemma_gt_mul_at((99, 72), (99, 72), (72, 83), (45, 89));
    assert(GT::spow_steps(GT(gt_of(76, 86)), GT(gt_of(99, 72)), 2) == GT::spow_steps(GT(gt_of(76, 86)), GT(gt_of(72, 83)), 1));
    lemma_gt_mul_at((76, 86), (72, 83), (51, 9), (-17, 53));
    lemma_gt_mul_at((72, 83), (72, 83), (12, 13), (-17, 50));
    assert(GT::spow_steps(GT(gt_of(76, 86)), GT(gt_of(72, 83)), 1) == GT::spow_steps(GT(gt_of(51, 9)), GT(gt_of(12, 13)), 0));
}

/// The pairing of `9G` with the point `18 P` of the image of `H`.
proof fn lemma_pairing_9_18()
    ensures
        smiller_loop(g1p(18, 52), dq(68, 27)) is Some,
        spairing_at(g1p(18, 52), dq(68, 27)) == GT(gt_of(51, 9)),
{
    lemma_final_exponent();
    lemma_tangent_9_18();
    lemma_tangent_1_18();
    lemma_tangent_2_18();
    lemma_tangent_4_18();
    lemma_vertical_at(18, 49, 52, 68, 27);
    lemma_miller_at(
        g1p(18, 52),
        dq(68, 27),
        (g1p(1, 2), g1p(68, 74), g1p(65, 98), g1p(18, 49)),
        (89, 44),
        (75, 0),
        (27, 74),
        (63, 26),
        (-18, 68),
        ((26, 38, 59, 58), (31, 22, 19, 28), (73, 72, 4, 8), (77, 99, -34, 19)),
        ((67, 92, -39, 53), (11, 96, 18, 50), (41, 67, -67, -75)),
    );
    lemma_final_exp_9_18();
}

proof fn lemma_final_exp_10_18()
    ensures
        GT(gt_of(15, 97)).spow(600) == GT(gt_of(90, 62)),
{
    assert(GT::sone() == GT(gt_of(1, 0)));
    lemma_gt_mul_at((15, 97), (15, 97), (7, 66), (-91, -65));
    assert(GT::spow_steps(GT(gt_of(1, 0)), GT(gt_of(15, 97)), 600) == GT::spow_steps(GT(gt_of(1, 0)), GT(gt_of(7, 66)), 300));
    lemma_gt_mul_at((7, 66), (7, 66), (36, 2), (-43, -34));
    assert(GT::spow_steps(GT(gt_of(1, 0)), GT(gt_of(7, 66)), 300) == GT::spow_steps(GT(gt_of(1, 0)), GT(gt_of(36, 2)), 150));
    lemma_gt_mul_at((36, 2), (36, 2), (80, 39), (12, 1));
    assert(GT::spow_steps(GT(gt_of(1, 0)), GT(gt_of(36, 2)), 150) == GT::spow_steps(GT(gt_of(1, 0)), GT(gt_of(80, 39)), 75));
    lemma_gt_mul_at((1, 0), (80, 39), (80, 39), (0, 0));
    lemma_gt_mul_at((80, 39), (80, 39), (31, 73), (48, 46));
    assert(GT::spow_steps(GT(gt_of(1, 0)), GT(gt_of(80, 39)), 75) == GT::spow_steps(GT(gt_of(80, 39)), GT(gt_of(31, 73)), 37));
    lemma_gt_mul_at((80, 39), (31, 73), (37, 61), (-4, 41));
    lemma_gt_mul_at((31, 73), (31, 73), (76, 5), (-44, -8));
    assert(GT::spow_steps(GT(gt_of(80, 39)), GT(gt_of(31, 73)), 37) == GT::spow_steps(GT(gt_of(37, 61)), GT(gt_of(76, 5)), 18));
    lemma_gt_mul_at((76, 5), (76, 5), (95, 28), (56, 7));
    assert(GT::spow_steps(GT(gt_of(37, 61)), GT(gt_of(76, 5)), 18) == GT::spow_steps(GT(gt_of(37, 61)), GT(gt_of(95, 28)), 9));
    lemma_gt_mul_at((37, 61), (95, 28), (90, 73), (17, 50));
    lemma_gt_mul_at((95, 28), (95, 28), (60, 92), (81, 44));
    assert(GT::spow_steps(GT(gt_of(37, 61)), GT(gt_of(95, 28)), 9) == GT::spow_steps(GT(gt_of(90, 73)), GT(gt_of(60, 92)), 4));
    lemma_gt_mul_at((60, 92), (60, 92), (85, 51), (-49, 25));
    assert(GT::spow_steps(GT(gt_of(90, 73)), GT(gt_of(60, 92)), 4) == GT::spow_steps(GT(gt_of(90, 73)), GT(gt_of(85, 51)), 2));
    lemma_gt_mul_at((85, 51), (85, 51), (79, 9), (45, 60));
    assert(GT::spow_steps(GT(gt_of(90, 73)), GT(gt_of(85, 51)), 2) == GT::spow_steps(GT(gt_of(90, 73)), GT(gt_of(79, 9)), 1));
    lemma_gt_mul_at((90, 73), (79, 9), (90, 62), (63, 58));
    lemma_gt_mul_at((79, 9), (79, 9), (100, 28), (60, 13));
    assert(GT::spow_steps(GT(gt_of(90, 73)), GT(gt_of(79, 9)), 1) == GT::spow_steps(GT(gt_of(90, 62)), GT(gt_of(100, 28)), 0));
}

/// The pairing of `10G` with the point `18 P` of the image of `H`.
proof fn lemma_pairing_10_18()
    ensures
        smiller_loop(g1p(91, 66), dq(68, 27)) is Some,
        spairing_at(g1p(91, 66), dq(68, 27)) == GT(gt_of(90, 62)),
{
    lemma_final_exponent();
    lemma_tangent_10_18();
    lemma_tangent_3_18();
    lemma_tangent_6_18();
    lemma_tangent_12_18();
    lemma_vertical_at(91, 35, 66, 68, 27);
    lemma_miller_at(
        g1p(91, 66),
        dq(68, 27),
        (g1p(26, 45), g1p(32, 42), g1p(12, 69), g1p(91, 35)),
        (12, 24),
        (2, 42),
        (22, 57),
        (42, 57),
        (-91, 68),
        ((73, 0, -5, 0), (45, 36, 1, 30), (22, 25, 7, 19), (69, 76, -10, 3)),
        ((96, 66, -11, 46), (68, 38, 2, 44), (15, 97, -87, -15)),
    );
    lemma_final_exp_10_18();
}

proof fn lemma_final_exp_11_18()
    ensures
        GT(gt_of(50, 92)).spow(600) == GT(gt_of(75, 98)),
{
    assert(GT::sone() == GT(gt_of(1, 0)));
    lemma_gt_mul_at((50, 92), (50, 92), (96, 29), (-60, 7));
    assert(GT::spow_steps(GT(gt_of(1, 0)), GT(gt_of(50, 92)), 600) == GT::spow_steps(GT(gt_of(1, 0)), GT(gt_of(96, 29)), 300));
    lemma_gt_mul_at((96, 29), (96, 29), (93, 81), (82, 46));
    assert(GT::spow_steps(GT(gt_of(1, 0)), GT(gt_of(96, 29)), 300) == GT::spow_steps(GT(gt_of(1, 0)), GT(gt_of(93, 81)), 150));
    lemma_gt_mul_at((93, 81), (93, 81), (68, 21), (20, 84));
    assert(GT::spow_steps(GT(gt_of(1, 0)), GT(gt_of(93, 81)), 150) == GT::spow_steps(GT(gt_of(1, 0)), GT(gt_of(68, 21)), 75));
    lemma_gt_mul_at((1, 0), (68, 21), (68, 21), (0, 0));
    lemma_gt_mul_at((68, 21), (68, 21), (42, 92), (41, 23));
    assert(GT::spow_steps(GT(gt_of(1, 0)), GT(gt_of(68, 21)), 75) == GT::spow_steps(GT(gt_of(68, 21)), GT(gt_of(42, 92)), 37));
    lemma_gt_mul_at((68, 21), (42, 92), (15, 55), (9, 51));
    lemma_gt_mul_at((42, 92), (42, 92), (67, 72), (-67, -8));
    assert(GT::spow_steps(GT(gt_of(68, 21)), GT(gt_of(42, 92)), 37) == GT::spow_steps(GT(gt_of(15, 55)), GT(gt_of(67, 72)), 18));
    lemma_gt_mul_at((67, 72), (67, 72), (12, 20), (-7, 44));
    assert(GT::spow_steps(GT(gt_of(15, 55)), GT(gt_of(67, 72)), 18) == GT::spow_steps(GT(gt_of(15, 55)), GT(gt_of(12, 20)), 9));
    lemma_gt_mul_at((15, 55), (12, 20), (90, 62), (-10, -2));
    lemma_gt_mul_at((12, 20), (12, 20), (47, 80), (-3, 0));
    assert(GT::spow_steps(GT(gt_of(15, 55)), GT(gt_of(12, 20)), 9) == GT::spow_steps(GT(gt_of(90, 62)), GT(gt_of(47, 80)), 4));
    lemma_gt_mul_at((47, 80), (47, 80), (51, 9), (-42, 11));
    assert(GT::spow_steps(GT(gt_of(90, 62)), GT(gt_of(47, 80)), 4) == GT::spow_steps(GT(gt_of(90, 62)), GT(gt_of(51, 9)), 2));
    lemma_gt_mul_at((51, 9), (51, 9), (96, 29), (24, 8));
    assert(GT::spow_steps(GT(gt_of(90, 62)), GT(gt_of(51, 9)), 2) == GT::spow_steps(GT(gt_of(90, 62)), GT(gt_of(96, 29)), 1));
    lemma_gt_mul_at((90, 62), (96, 29), (75, 98), (67, 66));
    lemma_gt_mul_at((96, 29), (96, 29), (93, 81), (82, 46));
    assert(GT::spow_steps(GT(gt_of(90, 62)), GT(gt_of(96, 29)), 1) == GT::spow_steps(GT(gt_of(75, 98)), GT(gt_of(93, 81)), 0));
}

/// The pairing of `11G` with the point `18 P` of the image of `H`.
proof fn lemma_pairing_11_18()
    ensures
        smiller_loop(g1p(32, 59), dq(68, 27)) is Some,
        spairing_at(g1p(32, 59), dq(68, 27)) == GT(gt_of(75, 98)),
{
    lemma_final_exponent();
    lemma_tangent_11_18();
    lemma_tangent_5_18();
    lemma_tangent_10_18();
    lemma_tangent_3_18();
    lemma_vertical_at(32, 42, 59, 68, 27);
    lemma_miller_at(
        g1p(32, 59),
        dq(68, 27),
        (g1p(12, 32), g1p(91, 66), g1p(26, 45), g1p(32, 42)),
        (38, 95),
        (84, 35),
        (12, 24),
        (2, 42),
        (-32, 68),
        ((95, 13, -76, -18), (51, 23, 74, 39), (52, 100, 20, 17), (42, 48, -18, 0)),
        ((66, 11, -6, 17), (74, 9, -4, 23), (50, 92, -30, 40)),
    );
    lemma_final_exp_11_18();
}

proof fn lemma_final_exp_12_18()
    ensures
        GT(gt_of(70, 94)).spow(600) == GT(gt_of(15, 55)),
{
    assert(GT::sone() == GT(gt_of(1, 0)));
    lemma_gt_mul_at((70, 94), (70, 94), (3, 82), (-39, 42));
    assert(GT::spow_steps(GT(gt_of(1, 0)), GT(gt_of(70, 94)), 600) == GT::spow_steps(GT(gt_of(1, 0)), GT(gt_of(3, 82)), 300));
    lemma_gt_mul_at((3, 82), (3, 82), (52, 30), (-67, -62));
    assert(GT::spow_steps(GT(gt_of(1, 0)), GT(gt_of(3, 82)), 300) == GT::spow_steps(GT(gt_of(1, 0)), GT(gt_of(52, 30)), 150));
    lemma_gt_mul_at((52, 30), (52, 30), (87, 99), (17, 21));
    assert(GT::spow_steps(GT(gt_of(1, 0)), GT(gt_of(52, 30)), 150) == GT::spow_steps(GT(gt_of(1, 0)), GT(gt_of(87, 99)), 75));
    lemma_gt_mul_at((1, 0), (87, 99), (87, 99), (0, 0));
    lemma_gt_mul_at((87, 99), (87, 99), (91, 52), (-23, 73));
    assert(GT::spow_steps(GT(gt_of(1, 0)), GT(gt_of(87, 99)), 75) == GT::spow_steps(GT(gt_of(87, 99)), GT(gt_of(91, 52)), 37));
    lemma_gt_mul_at((87, 99), (91, 52), (42, 2), (27, 83));
    lemma_gt_mul_at((91, 52), (91, 52), (22, 94), (55, 66));
    assert(GT::spow_steps(GT(gt_of(87, 99)), GT(gt_of(91, 52)), 37) == GT::spow_steps(GT(gt_of(42, 2)), GT(gt_of(22, 94)), 18));
    lemma_gt_mul_at((22, 94), (22, 94), (31, 47), (-83, -47));
    assert(GT::spow_steps(GT(gt_of(42, 2)), GT(gt_of(22, 94)), 18) == GT::spow_steps(GT(gt_of(42, 2)), GT(gt_of(31, 47)), 9));
    lemma_gt_mul_at((42, 2), (31, 47), (97, 23), (11, 19));
    lemma_gt_mul_at((31, 47), (31, 47), (65, 99), (-13, 6));
    assert(GT::spow_steps(GT(gt_of(42, 2)), GT(gt_of(31, 47)), 9) == GT::spow_steps(GT(gt_of(97, 23)), GT(gt_of(65, 99)), 4));
    lemma_gt_mul_at((65, 99), (65, 99), (80, 39), (-56, 30));
    assert(GT::spow_steps(GT(gt_of(97, 23)), GT(gt_of(65, 99)), 4) == GT::spow_steps(GT(gt_of(97, 23)), GT(gt_of(80, 39)), 2));
    lemma_gt_mul_at((80, 39), (80, 39), (31, 73), (48, 46));
    assert(GT::spow_steps(GT(gt_of(97, 23)), GT(gt_of(80, 39)), 2) == GT::spow_steps(GT(gt_of(97, 23)), GT(gt_of(31, 73)), 1));
    lemma_gt_mul_at((97, 23), (31, 73), (15, 55), (13, 60));
    lemma_gt_mul_at((31, 73), (31, 73), (76, 5), (-44, -8));
    assert(GT::spow_steps(GT(gt_of(97, 23)), GT(gt_of(31, 73)), 1) == GT::spow_steps(GT(gt_of(15, 55)), GT(gt_of(76, 5)), 0));
}

/// The pairing of `12G` with the point `18 P` of the image of `H`.
proof fn lemma_pairing_12_18()
    ensures
        smiller_loop(g1p(12, 69), dq(68, 27)) is Some,
        spairing_at(g1p(12, 69), dq(68, 27)) == GT(gt_of(15, 55)),
{
    lemma_final_exponent();
    lemma_tangent_12_18();
    lemma_tangent_7_18();
    lemma_tangent_14_18();
    lemma_tangent_11_18();
    lemma_vertical_at(12, 32, 69, 68, 27);
    lemma_miller_at(
        g1p(12, 69),
        dq(68, 27),
        (g1p(91, 35), g1p(26, 56), g1p(32, 59), g1p(12, 32)),
        (42, 57),
        (1, 95),
        (98, 26),
        (38, 95),
        (-12, 68),
        ((30, 24, -15, 15), (73, 89, -23, 5), (34, 23, -26, 50), (7, 15, 27, 25)),
        ((26, 86, -2, -1), (90, 93, -72, -25), (70, 94, -74, -14)),
    );
    lemma_final_exp_12_18();
}

proof fn lemma_final_exp_13_18()
    ensures
        GT(gt_of(49, 99)).spow(600) == GT(gt_of(47, 80)),
{
    assert(GT::sone() == GT(gt_of(1, 0)));
    lemma_gt_mul_at((49, 99), (49, 99), (74, 2), (-74, -1));
    assert(GT::spow_steps(GT(gt_of(1, 0)), GT(gt_of(49, 99)), 600) == GT::spow_steps(GT(gt_of(1, 0)), GT(gt_of(74, 2)), 300));
    lemma_gt_mul_at((74, 2), (74, 2), (18, 90), (54, 2));
    assert(GT::spow_steps(GT(gt_of(1, 0)), GT(gt_of(74, 2)), 300) == GT::spow_steps(GT(gt_of(1, 0)), GT(gt_of(18, 90)), 150));
    lemma_gt_mul_at((18, 90), (18, 90), (1, 89), (-77, -49));
    assert(GT::spow_steps(GT(gt_of(1, 0)), GT(gt_of(18, 90)), 150) == GT::spow_steps(GT(gt_of(1, 0)), GT(gt_of(1, 89)), 75));
    lemma_gt_mul_at((1, 0), (1, 89), (1, 89), (0, 0));
    lemma_gt_mul_at((1, 89), (1, 89), (59, 34), (-79, -77));
    assert(GT::spow_steps(GT(gt_of(1, 0)), GT(gt_of(1, 89)), 75) == GT::spow_steps(GT(gt_of(1, 89)), GT(gt_of(59, 34)), 37));
    lemma_gt_mul_at((1, 89), (59, 34), (63, 37), (-30, 22));
    lemma_gt_mul_at((59, 34), (59, 34), (2, 28), (23, 28));
    assert(GT::spow_steps(GT(gt_of(1, 89)), GT(gt_of(59, 34)), 37) == GT::spow_steps(GT(gt_of(63, 37)), GT(gt_of(2, 28)), 18));
    lemma_gt_mul_at((2, 28), (2, 28), (28, 35), (-8, -7));
    assert(GT::spow_steps(GT(gt_of(63, 37)), GT(gt_of(2, 28)), 18) == GT::spow_steps(GT(gt_of(63, 37)), GT(gt_of(28, 35)), 9));
    lemma_gt_mul_at((63, 37), (28, 35), (65, 27), (4, 19));
    lemma_gt_mul_at((28, 35), (28, 35), (64, 28), (-5, 7));
    assert(GT::spow_steps(GT(gt_of(63, 37)), GT(gt_of(28, 35)), 9) == GT::spow_steps(GT(gt_of(65, 27)), GT(gt_of(64, 28)), 4));
    lemma_gt_mul_at((64, 28), (64, 28), (80, 73), (32, 27));
    assert(GT::spow_steps(GT(gt_of(65, 27)), GT(gt_of(64, 28)), 4) == GT::spow_steps(GT(gt_of(65, 27)), GT(gt_of(80, 73)), 2));
    lemma_gt_mul_at((80, 73), (80, 73), (61, 89), (10, 62));
    assert(GT::spow_steps(GT(gt_of(65, 27)), GT(gt_of(80, 73)), 2) == GT::spow_steps(GT(gt_of(65, 27)), GT(gt_of(61, 89)), 1));
    lemma_gt_mul_at((65, 27), (61, 89), (47, 80), (15, 49));
    lemma_gt_mul_at((61, 89), (61, 89), (42, 8), (-42, 29));
    assert(GT::spow_steps(GT(gt_of(65, 27)), GT(gt_of(61, 89)), 1) == GT::spow_steps(GT(gt_of(47, 80)), GT(gt_of(42, 8)), 0));
}

/// The pairing of `13G` with the point `18 P` of the image of `H`.
proof fn lemma_pairing_13_18()
    ensures
        smiller_loop(g1p(65, 3), dq(68, 27)) is Some,
        spairing_at(g1p(65, 3), dq(68, 27)) == GT(gt_of(47, 80)),
{
    lemma_final_exponent();
    lemma_tangent_13_18();
    lemma_tangent_9_18();
    lemma_tangent_1_18();
    lemma_tangent_2_18();
    lemma_vertical_at(65, 98, 3, 68, 27);
    lemma_miller_at(
        g1p(65, 3),
        dq(68, 27),
        (g1p(18, 52), g1p(1, 2), g1p(68, 74), g1p(65, 98)),
        (29, 35),
        (89, 44),
        (75, 0),
        (27, 74),
        (-65, 68),
        ((20, 98, -4, 7), (94, 38, -26, 52), (19, 44, 73, 56), (11, 68, 14, 32)),
        ((42, 3, -45, -31), (3, 38, 9, 29), (49, 99, -28, -49)),
    );
    lemma_final_exp_13_18();
}

proof fn lemma_final_exp_14_18()
    ensures
        GT(gt_of(54, 70)).spow(600) == GT(gt_of(71, 57)),
{
    assert(GT::sone() == GT(gt_of(1, 0)));
    lemma_gt_mul_at((54, 70), (54, 70), (36, 34), (-20, 26));
    assert(GT::spow_steps(GT(gt_of(1, 0)), GT(gt_of(54, 70)), 600) == GT::spow_steps(GT(gt_of(1, 0)), GT(gt_of(36, 34)), 300));
    lemma_gt_mul_at((36, 34), (36, 34), (39, 80), (1, 12));
    assert(GT::spow_steps(GT(gt_of(1, 0)), GT(gt_of(36, 34)), 300) == GT::spow_steps(GT(gt_of(1, 0)), GT(gt_of(39, 80)), 150));
    lemma_gt_mul_at((39, 80), (39, 80), (70, 42), (-49, -2));
    assert(GT::spow_steps(GT(gt_of(1, 0)), GT(gt_of(39, 80)), 150) == GT::spow_steps(GT(gt_of(1, 0)), GT(gt_of(70, 42)), 75));
    lemma_gt_mul_at((1, 0), (70, 42), (70, 42), (0, 0));
    lemma_gt_mul_at((70, 42), (70, 42), (5, 76), (31, 40));
    assert(GT::spow_steps(GT(gt_of(1, 0)), GT(gt_of(70, 42)), 75) == GT::spow_steps(GT(gt_of(70, 42)), GT(gt_of(5, 76)), 37));
    lemma_gt_mul_at((70, 42), (5, 76), (87, 15), (-29, 23));
    lemma_gt_mul_at((5, 76), (5, 76), (6, 34), (-57, -50));
    assert(GT::spow_steps(GT(gt_of(70, 42)), GT(gt_of(5, 76)), 37) == GT::spow_steps(GT(gt_of(87, 15)), GT(gt_of(6, 34)), 18));
    lemma_gt_mul_at((6, 34), (6, 34), (92, 60), (-12, -8));
    assert(GT::spow_steps(GT(gt_of(87, 15)), GT(gt_of(6, 34)), 18) == GT::spow_steps(GT(gt_of(87, 15)), GT(gt_of(92, 60)), 9));
    lemma_gt_mul_at((87, 15), (92, 60), (34, 44), (70, 56));
    lemma_gt_mul_at((92, 60), (92, 60), (16, 67), (48, 73));
    assert(GT::spow_steps(GT(gt_of(87, 15)), GT(gt_of(92, 60)), 9) == GT::spow_steps(GT(gt_of(34, 44)), GT(gt_of(16, 67)), 4));
    lemma_gt_mul_at((16, 67), (16, 67), (9, 79), (-42, -24));
    assert(GT::spow_steps(GT(gt_of(34, 44)), GT(gt_of(16, 67)), 4) == GT::spow_steps(GT(gt_of(34, 44)), GT(gt_of(9, 79)), 2));
    lemma_gt_mul_at((9, 79), (9, 79), (1, 29), (-61, -48));
    assert(GT::spow_steps(GT(gt_of(34, 44)), GT(gt_of(9, 79)), 2) == GT::spow_steps(GT(gt_of(34, 44)), GT(gt_of(1, 29)), 1));
    lemma_gt_mul_at((34, 44), (1, 29), (71, 57), (-13, -3));
    lemma_gt_mul_at((1, 29), (1, 29), (69, 25), (-9, -8));
    assert(GT::spow_steps(GT(gt_of(34, 44)), GT(gt_of(1, 29)), 1) == GT::spow_steps(GT(gt_of(71, 57)), GT(gt_of(69, 25)), 0));
}

/// The pairing of `14G` with the point `18 P` of the image of `H`.
proof fn lemma_pairing_14_18()
    ensures
        smiller_loop(g1p(26, 56), dq(68, 27)) is Some,
        spairing_at(g1p(26, 56), dq(68, 27)) == GT(gt_of(71, 57)),
{
    lemma_final_exponent();
    lemma_tangent_14_18();
    lemma_tangent_11_18();
    lemma_tangent_5_18();
    lemma_tangent_10_18();
    lemma_vertical_at(26, 45, 56, 68, 27);
    lemma_miller_at(
        g1p(26, 56),
        dq(68, 27),
        (g1p(32, 59), g1p(12, 32), g1p(91, 66), g1p(26, 45)),
        (98, 26),
        (38, 95),
        (84, 35),
        (12, 24),
        (-26, 68),
        ((40, 77, 88, 43), (63, 17, -58, -6), (44, 35, 36, 18), (47, 23, 24, 32)),
        ((64, 17, 16, 16), (57, 19, 3, 13), (54, 70, -28, 20)),
    );
    lemma_final_exp_14_18();
}

proof fn lemma_final_exp_15_18()
    ensures
        GT(gt_of(79, 59)).spow(600) == GT(gt_of(12, 20)),
{
    assert(GT::sone() == GT(gt_of(1, 0)));
    lemma_gt_mul_at((79, 59), (79, 59), (33, 84), (27, 57));
    assert(GT::spow_steps(GT(gt_of(1, 0)), GT(gt_of(79, 59)), 600) == GT::spow_steps(GT(gt_of(1, 0)), GT(gt_of(33, 84)), 300));
    lemma_gt_mul_at((33, 84), (33, 84), (93, 3), (-60, -15));
    assert(GT::spow_steps(GT(gt_of(1, 0)), GT(gt_of(33, 84)), 300) == GT::spow_steps(GT(gt_of(1, 0)), GT(gt_of(93, 3)), 150));
    lemma_gt_mul_at((93, 3), (93, 3), (55, 44), (85, 5));
    assert(GT::spow_steps(GT(gt_of(1, 0)), GT(gt_of(93, 3)), 150) == GT::spow_steps(GT(gt_of(1, 0)), GT(gt_of(55, 44)), 75));
    lemma_gt_mul_at((1, 0), (55, 44), (55, 44), (0, 0));
    lemma_gt_mul_at((55, 44), (55, 44), (79, 76), (10, 28));
    assert(GT::spow_steps(GT(gt_of(1, 0)), GT(gt_of(55, 44)), 75) == GT::spow_steps(GT(gt_of(55, 44)), GT(gt_of(79, 76)), 37));
    lemma_gt_mul_at((55, 44), (79, 76), (92, 70), (9, 42));
    lemma_gt_mul_at((79, 76), (79, 76), (61, 71), (4, 61));
    assert(GT::spow_steps(GT(gt_of(55, 44)), GT(gt_of(79, 76)), 37) == GT::spow_steps(GT(gt_of(92, 70)), GT(gt_of(61, 71)), 18));
    lemma_gt_mul_at((61, 71), (61, 71), (94, 86), (-14, 35));
    assert(GT::spow_steps(GT(gt_of(92, 70)), GT(gt_of(61, 71)), 18) == GT::spow_steps(GT(gt_of(92, 70)), GT(gt_of(94, 86)), 9));
    lemma_gt_mul_at((92, 70), (94, 86), (2, 89), (26, 83));
    lemma_gt_mul_at((94, 86), (94, 86), (26, 86), (14, 86));
    assert(GT::spow_steps(GT(gt_of(92, 70)), GT(gt_of(94, 86)), 9) == GT::spow_steps(GT(gt_of(2, 89)), GT(gt_of(26, 86)), 4));
    lemma_gt_mul_at((26, 86), (26, 86), (47, 5), (-67, -29));
    assert(GT::spow_steps(GT(gt_of(2, 89)), GT(gt_of(26, 86)), 4) == GT::spow_steps(GT(gt_of(2, 89)), GT(gt_of(47, 5)), 2));
    lemma_gt_mul_at((47, 5), (47, 5), (63, 41), (21, 4));
    assert(GT::spow_steps(GT(gt_of(2, 89)), GT(gt_of(47, 5)), 2) == GT::spow_steps(GT(gt_of(2, 89)), GT(gt_of(63, 41)), 1));
    lemma_gt_mul_at((2, 89), (63, 41), (12, 20), (-35, 20));
    lemma_gt_mul_at((63, 41), (63, 41), (66, 51), (22, 34));
    assert(GT::spow_steps(GT(gt_of(2, 89)), GT(gt_of(63, 41)), 1) == GT::spow_steps(GT(gt_of(12, 20)), GT(gt_of(66, 51)), 0));
}

/// The pairing of `15G` with the point `18 P` of the image of `H`.
proof fn lemma_pairing_15_18()
    ensures
        smiller_loop(g1p(68, 27), dq(68, 27)) is Some,
        spairing_at(g1p(68, 27), dq(68, 27)) == GT(gt_of(12, 20)),
{
    lemma_final_exponent();
    lemma_tangent_15_18();
    lemma_tangent_13_18();
    lemma_tangent_9_18();
    lemma_tangent_1_18();
    lemma_vertical_at(68, 74, 27, 68, 27);
    lemma_miller_at(
        g1p(68, 27),
        dq(68, 27),
        (g1p(65, 3), g1p(18, 52), g1p(1, 2), g1p(68, 74)),
        (87, 42),
        (29, 35),
        (89, 44),
        (75, 0),
        (-68, 68),
        ((48, 90, 57, 54), (60, 29, -18, 11), (32, 13, 27, 26), (54, 74, 22, 19)),
        ((66, 92, -26, 24), (1, 32, 49, 68), (79, 59, -23, -43)),
    );
    lemma_final_exp_15_18();
}

proof fn lemma_final_exp_16_18()
    ensures
        GT(gt_of(35, 33)).spow(600) == GT(gt_of(67, 72)),
{
    assert(GT::sone() == GT(gt_of(1, 0)));
    lemma_gt_mul_at((35, 33), (35, 33), (35, 9), (1, 12));
    assert(GT::spow_steps(GT(gt_of(1, 0)), GT(gt_of(35, 33)), 600) == GT::spow_steps(GT(gt_of(1, 0)), GT(gt_of(35, 9)), 300));
    lemma_gt_mul_at((35, 9), (35, 9), (33, 44), (11, 5));
    assert(GT::spow_steps(GT(gt_of(1, 0)), GT(gt_of(35, 9)), 300) == GT::spow_steps(GT(gt_of(1, 0)), GT(gt_of(33, 44)), 150));
    lemma_gt_mul_at((33, 44), (33, 44), (62, 59), (-9, 9));
    assert(GT::spow_steps(GT(gt_of(1, 0)), GT(gt_of(33, 44)), 150) == GT::spow_steps(GT(gt_of(1, 0)), GT(gt_of(62, 59)), 75));
    lemma_gt_mul_at((1, 0), (62, 59), (62, 59), (0, 0));
    lemma_gt_mul_at((62, 59), (62, 59), (60, 98), (3, 37));
    assert(GT::spow_steps(GT(gt_of(1, 0)), GT(gt_of(62, 59)), 75) == GT::spow_steps(GT(gt_of(62, 59)), GT(gt_of(60, 98)), 37));
    lemma_gt_mul_at((62, 59), (60, 98), (59, 97), (-21, 37));
    lemma_gt_mul_at((60, 98), (60, 98), (56, 35), (-60, 21));
    assert(GT::spow_steps(GT(gt_of(62, 59)), GT(gt_of(60, 98)), 37) == GT::spow_steps(GT(gt_of(59, 97)), GT(gt_of(56, 35)), 18));
    lemma_gt_mul_at((56, 35), (56, 35), (93, 69), (18, 26));
    assert(GT::spow_steps(GT(gt_of(59, 97)), GT(gt_of(56, 35)), 18) == GT::spow_steps(GT(gt_of(59, 97)), GT(gt_of(93, 69)), 9));
    lemma_gt_mul_at((59, 97), (93, 69), (6, 36), (-12, 63));
    lemma_gt_mul_at((93, 69), (93, 69), (50, 94), (38, 79));
    assert(GT::spow_steps(GT(gt_of(59, 97)), GT(gt_of(93, 69)), 9) == GT::spow_steps(GT(gt_of(6, 36)), GT(gt_of(50, 94)), 4));
    lemma_gt_mul_at((50, 94), (50, 94), (27, 59), (-63, 5));
    assert(GT::spow_steps(GT(gt_of(6, 36)), GT(gt_of(50, 94)), 4) == GT::spow_steps(GT(gt_of(6, 36)), GT(gt_of(27, 59)), 2));
    lemma_gt_mul_at((27, 59), (27, 59), (76, 8), (-28, -3));
    assert(GT::spow_steps(GT(gt_of(6, 36)), GT(gt_of(27, 59)), 2) == GT::spow_steps(GT(gt_of(6, 36)), GT(gt_of(76, 8)), 1));
    lemma_gt_mul_at((6, 36), (76, 8), (67, 72), (1, 24));
    lemma_gt_mul_at((76, 8), (76, 8), (56, 41), (56, 11));
    assert(GT::spow_steps(GT(gt_of(6, 36)), GT(gt_of(76, 8)), 1) == GT::spow_steps(GT(gt_of(67, 72)), GT(gt_of(56, 41)), 0));
}

/// The pairing of `16G` with the point `18 P` of the image of `H`.
proof fn lemma_pairing_16_18()
    ensures
        smiller_loop(g1p(1, 99), dq(68, 27)) is Some,
        spairing_at(g1p(1, 99), dq(68, 27)) == GT(gt_of(67, 72)),
{
    lemma_final_exponent();
    lemma_tangent_16_18();
    lemma_tangent_15_18();
    lemma_tangent_13_18();
    lemma_tangent_9_18();
    lemma_vertical_at(1, 2, 99, 68, 27);
    lemma_miller_at(
        g1p(1, 99),
        dq(68, 27),
        (g1p(68, 27), g1p(65, 3), g1p(18, 52), g1p(1, 2)),
        (73, 74),
        (87, 42),
        (29, 35),
        (89, 44),
        (-1, 68),
        ((55, 76, -2, 52), (78, 74, 15, 56), (2, 8, 6, 60), (81, 22, -3, 0)),
        ((17, 50, 60, 30), (20, 69, -7, 29), (35, 33, -47, -34)),
    );
    lemma_final_exp_16_18();
}

proof fn lemma_final_exp_1_19()
    ensures
        GT(gt_of(31, 32)).spow(600) == GT(gt_of(93, 81)),
{
    assert(GT::sone() == GT(gt_of(1, 0)));
    lemma_gt_mul_at((31, 32), (31, 32), (38, 51), (-1, 9));
    assert(GT::spow_steps(GT(gt_of(1, 0)), GT(gt_of(31, 32)), 600) == GT::spow_steps(GT(gt_of(1, 0)), GT(gt_of(38, 51)), 300));
    lemma_gt_mul_at((38, 51), (38, 51), (55, 63), (-12, 12));
    assert(GT::spow_steps(GT(gt_of(1, 0)), GT(gt_of(38, 51)), 300) == GT::spow_steps(GT(gt_of(1, 0)), GT(gt_of(55, 63)), 150));
    lemma_gt_mul_at((55, 63), (55, 63), (66, 32), (-10, 29));
    assert(GT::spow_steps(GT(gt_of(1, 0)), GT(gt_of(55, 63)), 150) == GT::spow_steps(GT(gt_of(1, 0)), GT(gt_of(66, 32)), 75));
    lemma_gt_mul_at((1, 0), (66, 32), (66, 32), (0, 0));
    lemma_gt_mul_at((66, 32), (66, 32), (100, 69), (32, 31));
    assert(GT::spow_steps(GT(gt_of(1, 0)), GT(gt_of(66, 32)), 75) == GT::spow_steps(GT(gt_of(66, 32)), GT(gt_of(100, 69)), 37));
    lemma_gt_mul_at((66, 32), (100, 69), (49, 92), (43, 54));
    lemma_gt_mul_at((100, 69), (100, 69), (88, 50), (51, 89));
    assert(GT::spow_steps(GT(gt_of(66, 32)), GT(gt_of(100, 69)), 37) == GT::spow_steps(GT(gt_of(49, 92)), GT(gt_of(88, 50)), 18));
    lemma_gt_mul_at((88, 50), (88, 50), (93, 38), (51, 62));
    assert(GT::spow_steps(GT(gt_of(49, 92)), GT(gt_of(88, 50)), 18) == GT::spow_steps(GT(gt_of(49, 92)), GT(gt_of(93, 38)), 9));
    lemma_gt_mul_at((49, 92), (93, 38), (51, 54), (10, 68));
    lemma_gt_mul_at((93, 38), (93, 38), (34, 69), (71, 55));
    assert(GT::spow_steps(GT(gt_of(49, 92)), GT(gt_of(93, 38)), 9) == GT::spow_steps(GT(gt_of(51, 54)), GT(gt_of(34, 69)), 4));
    lemma_gt_mul_at((34, 69), (34, 69), (31, 32), (-36, -1));
    assert(GT::spow_steps(GT(gt_of(51, 54)), GT(gt_of(34, 69)), 4) == GT::spow_steps(GT(gt_of(51, 54)), GT(gt_of(31, 32)), 2));
    lemma_gt_mul_at((31, 32), (31, 32), (38, 51), (-1, 9));
    assert(GT::spow_steps(GT(gt_of(51, 54)), GT(gt_of(31, 32)), 2) == GT::spow_steps(GT(gt_of(51, 54)), GT(gt_of(38, 51)), 1));
    lemma_gt_mul_at((51, 54), (38, 51), (93, 81), (-9, 18));
    lemma_gt_mul_at((38, 51), (38, 51), (55, 63), (-12, 12));
    assert(GT::spow_steps(GT(gt_of(51, 54)), GT(gt_of(38, 51)), 1) == GT::spow_steps(GT(gt_of(93, 81)), GT(gt_of(55, 63)), 0));
}

/// The pairing of `1G` with the point `19 P` of the image of `H`.
proof fn lemma_pairing_1_19()
    ensures
        smiller_loop(g1p(1, 2), dq(9, 96)) is Some,
        spairing_at(g1p(1, 2), dq(9, 96)) == GT(gt_of(93, 81)),
{
    lemma_final_exponent();
    lemma_tangent_1_19();
    lemma_tangent_2_19();
    lemma_tangent_4_19();
    lemma_tangent_8_19();
    lemma_vertical_at(1, 99, 2, 9, 96);
    lemma_miller_at(
        g1p(1, 2),
        dq(9, 96),
        (g1p(68, 74), g1p(65, 98), g1p(18, 49), g1p(1, 99)),
        (29, 93),
        (59, 51),
        (88, 49),
        (14, 24),
        (-1, 9),
        ((70, 78, -78, -33), (51, 53, 1, 41), (95, 72, -3, 25), (85, 90, 47, 73)),
        ((34, 29, -9, 71), (83, 21, -3, 5), (31, 32, -3, 5)),
    );
    lemma_final_exp_1_19();
}

proof fn lemma_final_exp_2_19()
    ensures
        GT(gt_of(4, 30)).spow(600) == GT(gt_of(68, 21)),
{
    assert(GT::sone() == GT(gt_of(1, 0)));
    lemma_gt_mul_at((4, 30), (4, 30), (25, 47), (-9, -7));
    assert(GT::spow_steps(GT(gt_of(1, 0)), GT(gt_of(4, 30)), 600) == GT::spow_steps(GT(gt_of(1, 0)), GT(gt_of(25, 47)), 300));
    lemma_gt_mul_at((25, 47), (25, 47), (32, 40), (-16, 1));
    assert(GT::spow_steps(GT(gt_of(1, 0)), GT(gt_of(25, 47)), 300) == GT::spow_steps(GT(gt_of(1, 0)), GT(gt_of(32, 40)), 150));
    lemma_gt_mul_at((32, 40), (32, 40), (30, 51), (-6, 9));
    assert(GT::spow_steps(GT(gt_of(1, 0)), GT(gt_of(32, 40)), 150) == GT::spow_steps(GT(gt_of(1, 0)), GT(gt_of(30, 51)), 75));
    lemma_gt_mul_at((1, 0), (30, 51), (30, 51), (0, 0));
    lemma_gt_mul_at((30, 51), (30, 51), (16, 55), (-17, 4));
    assert(GT::spow_steps(GT(gt_of(1, 0)), GT(gt_of(30, 51)), 75) == GT::spow_steps(GT(gt_of(30, 51)), GT(gt_of(16, 55)), 37));
    lemma_gt_mul_at((30, 51), (16, 55), (99, 65), (-24, -4));
    lemma_gt_mul_at((16, 55), (16, 55), (59, 48), (-28, -13));
    assert(GT::spow_steps(GT(gt_of(30, 51)), GT(gt_of(16, 55)), 37) == GT::spow_steps(GT(gt_of(99, 65)), GT(gt_of(59, 48)), 18));
    lemma_gt_mul_at((59, 48), (59, 48), (66, 27), (11, 33));
    assert(GT::spow_steps(GT(gt_of(99, 65)), GT(gt_of(59, 48)), 18) == GT::spow_steps(GT(gt_of(99, 65)), GT(gt_of(66, 27)), 9));
    lemma_gt_mul_at((99, 65), (66, 27), (32, 57), (47, 51));
    lemma_gt_mul_at((66, 27), (66, 27), (92, 7), (35, 28));
    assert(GT::spow_steps(GT(gt_of(99, 65)), GT(gt_of(66, 27)), 9) == GT::spow_steps(GT(gt_of(32, 57)), GT(gt_of(92, 7)), 4));
    lemma_gt_mul_at((92, 7), (92, 7), (32, 27), (83, 12));
    assert(GT::spow_steps(GT(gt_of(32, 57)), GT(gt_of(92, 7)), 4) == GT::spow_steps(GT(gt_of(32, 57)), GT(gt_of(32, 27)), 2));
    lemma_gt_mul_at((32, 27), (32, 27), (93, 90), (2, 9));
    assert(GT::spow_steps(GT(gt_of(32, 57)), GT(gt_of(32, 27)), 2) == GT::spow_steps(GT(gt_of(32, 57)), GT(gt_of(93, 90)), 1));
    lemma_gt_mul_at((32, 57), (93, 90), (68, 21), (-22, 30));
    lemma_gt_mul_at((93, 90), (93, 90), (44, 55), (5, 85));
    assert(GT::spow_steps(GT(gt_of(32, 57)), GT(gt_of(93, 90)), 1) == GT::spow_steps(GT(gt_of(68, 21)), GT(gt_of(44, 55)), 0));
}

/// The pairing of `2G` with the point `19 P` of the image of `H`.
proof fn lemma_pairing_2_19()
    ensures
        smiller_loop(g1p(68, 74), dq(9, 96)) is Some,
        spairing_at(g1p(68, 74), dq(9, 96)) == GT(gt_of(68, 21)),
{
    lemma_final_exponent();
    lemma_tangent_2_19();
    lemma_tangent_4_19();
    lemma_tangent_8_19();
    lemma_tangent_16_19();
    lemma_vertical_at(68, 27, 74, 9, 96);
    lemma_miller_at(
        g1p(68, 74),
        dq(9, 96),
        (g1p(65, 98), g1p(18, 49), g1p(1, 99), g1p(68, 27)),
        (59, 51),
        (88, 49),
        (14, 24),
        (45, 56),
        (-68, 9),
        ((72, 84, 8, 33), (99, 37, 21, 67), (49, 99, 83, 58), (27, 85, -17, 1)),
        ((69, 92, -65, -27), (74, 24, -21, 28), (4, 30, -52, -12)),
    );
    lemma_final_exp_2_19();
}

proof fn lemma_final_exp_3_19()
    ensures
        GT(gt_of(64, 3)).spow(600) == GT(gt_of(78, 3)),
{
    assert(GT::sone() == GT(gt_of(1, 0)));
    lemma_gt_mul_at((64, 3), (64, 3), (47, 72), (40, 3));
    assert(GT::spow_steps(GT(gt_of(1, 0)), GT(gt_of(64, 3)), 600) == GT::spow_steps(GT(gt_of(1, 0)), GT(gt_of(47, 72)), 300));
    lemma_gt_mul_at((47, 72), (47, 72), (55, 69), (-30, 15));
    assert(GT::spow_steps(GT(gt_of(1, 0)), GT(gt_of(47, 72)), 300) == GT::spow_steps(GT(gt_of(1, 0)), GT(gt_of(55, 69)), 150));
    lemma_gt_mul_at((55, 69), (55, 69), (82, 1), (-18, 28));
    assert(GT::spow_steps(GT(gt_of(1, 0)), GT(gt_of(55, 69)), 150) == GT::spow_steps(GT(gt_of(1, 0)), GT(gt_of(82, 1)), 75));
    lemma_gt_mul_at((1, 0), (82, 1), (82, 1), (0, 0));
    lemma_gt_mul_at((82, 1), (82, 1), (57, 62), (66, 1));
    assert(GT::spow_steps(GT(gt_of(1, 0)), GT(gt_of(82, 1)), 75) == GT::spow_steps(GT(gt_of(82, 1)), GT(gt_of(57, 62)), 37));
    lemma_gt_mul_at((82, 1), (57, 62), (67, 29), (45, 50));
    lemma_gt_mul_at((57, 62), (57, 62), (11, 93), (-6, 31));
    assert(GT::spow_steps(GT(gt_of(82, 1)), GT(gt_of(57, 62)), 37) == GT::spow_steps(GT(gt_of(67, 29)), GT(gt_of(11, 93)), 18));
    lemma_gt_mul_at((11, 93), (11, 93), (57, 63), (-85, -66));
    assert(GT::spow_steps(GT(gt_of(67, 29)), GT(gt_of(11, 93)), 18) == GT::spow_steps(GT(gt_of(67, 29)), GT(gt_of(57, 63)), 9));
    lemma_gt_mul_at((67, 29), (57, 63), (73, 7), (19, 40));
    lemma_gt_mul_at((57, 63), (57, 63), (88, 82), (-8, 31));
    assert(GT::spow_steps(GT(gt_of(67, 29)), GT(gt_of(57, 63)), 9) == GT::spow_steps(GT(gt_of(73, 7)), GT(gt_of(88, 82)), 4));
    lemma_gt_mul_at((88, 82), (88, 82), (10, 32), (10, 76));
    assert(GT::spow_steps(GT(gt_of(73, 7)), GT(gt_of(88, 82)), 4) == GT::spow_steps(GT(gt_of(73, 7)), GT(gt_of(10, 32)), 2));
    lemma_gt_mul_at((10, 32), (10, 32), (86, 20), (-10, -4));
    assert(GT::spow_steps(GT(gt_of(73, 7)), GT(gt_of(10, 32)), 2) == GT::spow_steps(GT(gt_of(73, 7)), GT(gt_of(86, 20)), 1));
    lemma_gt_mul_at((73, 7), (86, 20), (78, 3), (60, 19));
    lemma_gt_mul_at((86, 20), (86, 20), (27, 10), (69, 30));
    assert(GT::spow_steps(GT(gt_of(73, 7)), GT(gt_of(86, 20)), 1) == GT::spow_steps(GT(gt_of(78, 3)), GT(gt_of(27, 10)), 0));
}

/// The pairing of `3G` with the point `19 P` of the image of `H`.
proof fn lemma_pairing_3_19()
    ensures
        smiller_loop(g1p(26, 45), dq(9, 96)) is Some,
        spairing_at(g1p(26, 45), dq(9, 96)) == GT(gt_of(78, 3)),
{
    lemma_final_exponent();
    lemma_tangent_3_19();
    lemma_tangent_6_19();
    lemma_tangent_12_19();
    lemma_tangent_7_19();
    lemma_vertical_at(26, 56, 45, 9, 96);
    lemma_miller_at(
        g1p(26, 45),
        dq(9, 96),
        (g1p(32, 42), g1p(12, 69), g1p(91, 35), g1p(26, 56)),
        (17, 88),
        (86, 1),
        (29, 27),
        (16, 72),
        (-26, 9),
        ((19, 96, -74, -48), (23, 99, 15, 80), (20, 5, -92, -52), (41, 45, 4, 5)),
        ((60, 49, -4, 16), (58, 61, -26, 15), (64, 3, -21, -16)),
    );
    lemma_final_exp_3_19();
}

proof fn lemma_final_exp_4_19()
    ensures
        GT(gt_of(72, 99)).spow(600) == GT(gt_of(42, 92)),
{
    assert(GT::sone() == GT(gt_of(1, 0)));
    lemma_gt_mul_at((72, 99), (72, 99), (29, 11), (-46, 44));
    assert(GT::spow_steps(GT(gt_of(1, 0)), GT(gt_of(72, 99)), 600) == GT::spow_steps(GT(gt_of(1, 0)), GT(gt_of(29, 11)), 300));
    lemma_gt_mul_at((29, 11), (29, 11), (13, 12), (7, 5));
    assert(GT::spow_steps(GT(gt_of(1, 0)), GT(gt_of(29, 11)), 300) == GT::spow_steps(GT(gt_of(1, 0)), GT(gt_of(13, 12)), 150));
    lemma_gt_mul_at((13, 12), (13, 12), (25, 67), (0, 1));
    assert(GT::spow_steps(GT(gt_of(1, 0)), GT(gt_of(13, 12)), 150) == GT::spow_steps(GT(gt_of(1, 0)), GT(gt_of(25, 67)), 75));
    lemma_gt_mul_at((1, 0), (25, 67), (25, 67), (0, 0));
    lemma_gt_mul_at((25, 67), (25, 67), (75, 73), (-39, -12));
    assert(GT::spow_steps(GT(gt_of(1, 0)), GT(gt_of(25, 67)), 75) == GT::spow_steps(GT(gt_of(25, 67)), GT(gt_of(75, 73)), 37));
    lemma_gt_mul_at((25, 67), (75, 73), (14, 40), (-30, 19));
    lemma_gt_mul_at((75, 73), (75, 73), (94, 66), (2, 55));
    assert(GT::spow_steps(GT(gt_of(25, 67)), GT(gt_of(75, 73)), 37) == GT::spow_steps(GT(gt_of(14, 40)), GT(gt_of(94, 66)), 18));
    lemma_gt_mul_at((94, 66), (94, 66), (36, 73), (44, 79));
    assert(GT::spow_steps(GT(gt_of(14, 40)), GT(gt_of(94, 66)), 18) == GT::spow_steps(GT(gt_of(14, 40)), GT(gt_of(36, 73)), 9));
    lemma_gt_mul_at((14, 40), (36, 73), (8, 47), (-24, -5));
    lemma_gt_mul_at((36, 73), (36, 73), (7, 28), (-40, -1));
    assert(GT::spow_steps(GT(gt_of(14, 40)), GT(gt_of(36, 73)), 9) == GT::spow_steps(GT(gt_of(8, 47)), GT(gt_of(7, 28)), 4));
    lemma_gt_mul_at((7, 28), (7, 28), (73, 12), (-8, -4));
    assert(GT::spow_steps(GT(gt_of(8, 47)), GT(gt_of(7, 28)), 4) == GT::spow_steps(GT(gt_of(8, 47)), GT(gt_of(73, 12)), 2));
    lemma_gt_mul_at((73, 12), (73, 12), (34, 93), (51, 15));
    assert(GT::spow_steps(GT(gt_of(8, 47)), GT(gt_of(73, 12)), 2) == GT::spow_steps(GT(gt_of(8, 47)), GT(gt_of(34, 93)), 1));
    lemma_gt_mul_at((8, 47), (34, 93), (42, 92), (-41, -21));
    lemma_gt_mul_at((34, 93), (34, 93), (82, 99), (-75, -24));
    assert(GT::spow_steps(GT(gt_of(8, 47)), GT(gt_of(34, 93)), 1) == GT::spow_steps(GT(gt_of(42, 92)), GT(gt_of(82, 99)), 0));
}

/// The pairing of `4G` with the point `19 P` of the image of `H`.
proof fn lemma_pairing_4_19()
    ensures
        smiller_loop(g1p(65, 98), dq(9, 96)) is Some,
        spairing_at(g1p(65, 98), dq(9, 96)) == GT(gt_of(42, 92)),
{
    lemma_final_exponent();
    lemma_tangent_4_19();
    lemma_tangent_8_19();
    lemma_tangent_16_19();
    lemma_tangent_15_19();
    lemma_vertical_at(65, 3, 98, 9, 96);
    lemma_miller_at(
        g1p(65, 98),
        dq(9, 96),
        (g1p(18, 49), g1p(1, 99), g1p(68, 27), g1p(65, 3)),
        (88, 49),
        (14, 24),
        (45, 56),
        (78, 38),
        (-65, 9),
        ((91, 62, 52, 61), (89, 49, -3, 15), (66, 59, 54, 62), (70, 17, -4, 30)),
        ((66, 71, 45, 20), (26, 96, 24, 52), (72, 99, -26, -69)),
    );
    lemma_final_exp_4_19();
}

proof fn lemma_final_exp_5_19()
    ensures
        GT(gt_of(81, 6)).spow(600) == GT(gt_of(90, 62)),
{
    assert(GT::sone() == GT(gt_of(1, 0)));
    lemma_gt_mul_at((81, 6), (81, 6), (61, 27), (64, 9));
    assert(GT::spow_steps(GT(gt_of(1, 0)), GT(gt_of(81, 6)), 600) == GT::spow_steps(GT(gt_of(1, 0)), GT(gt_of(61, 27)), 300));
    lemma_gt_mul_at((61, 27), (61, 27), (63, 40), (29, 25));
    assert(GT::spow_steps(GT(gt_of(1, 0)), GT(gt_of(61, 27)), 300) == GT::spow_steps(GT(gt_of(1, 0)), GT(gt_of(63, 40)), 150));
    lemma_gt_mul_at((63, 40), (63, 40), (46, 6), (23, 34));
    assert(GT::spow_steps(GT(gt_of(1, 0)), GT(gt_of(63, 40)), 150) == GT::spow_steps(GT(gt_of(1, 0)), GT(gt_of(46, 6)), 75));
    lemma_gt_mul_at((1, 0), (46, 6), (46, 6), (0, 0));
    lemma_gt_mul_at((46, 6), (46, 6), (60, 11), (20, 5));
    assert(GT::spow_steps(GT(gt_of(1, 0)), GT(gt_of(46, 6)), 75) == GT::spow_steps(GT(gt_of(46, 6)), GT(gt_of(60, 11)), 37));
    lemma_gt_mul_at((46, 6), (60, 11), (68, 93), (26, 7));
    lemma_gt_mul_at((60, 11), (60, 11), (45, 88), (34, 11));
    assert(GT::spow_steps(GT(gt_of(46, 6)), GT(gt_of(60, 11)), 37) == GT::spow_steps(GT(gt_of(68, 93)), GT(gt_of(45, 88)), 18));
    lemma_gt_mul_at((45, 88), (45, 88), (38, 75), (-57, 1));
    assert(GT::spow_steps(GT(gt_of(68, 93)), GT(gt_of(45, 88)), 18) == GT::spow_steps(GT(gt_of(68, 93)), GT(gt_of(38, 75)), 9));
    lemma_gt_mul_at((68, 93), (38, 75), (53, 43), (-44, 16));
    lemma_gt_mul_at((38, 75), (38, 75), (61, 75), (-42, 0));
    assert(GT::spow_steps(GT(gt_of(68, 93)), GT(gt_of(38, 75)), 9) == GT::spow_steps(GT(gt_of(53, 43)), GT(gt_of(61, 75)), 4));
    lemma_gt_mul_at((61, 75), (61, 75), (15, 91), (-19, 34));
    assert(GT::spow_steps(GT(gt_of(53, 43)), GT(gt_of(61, 75)), 4) == GT::spow_steps(GT(gt_of(53, 43)), GT(gt_of(15, 91)), 2));
    lemma_gt_mul_at((15, 91), (15, 91), (24, 4), (-80, -55));
    assert(GT::spow_steps(GT(gt_of(53, 43)), GT(gt_of(15, 91)), 2) == GT::spow_steps(GT(gt_of(53, 43)), GT(gt_of(24, 4)), 1));
    lemma_gt_mul_at((53, 43), (24, 4), (90, 62), (10, 10));
    lemma_gt_mul_at((24, 4), (24, 4), (55, 75), (5, 1));
    assert(GT::spow_steps(GT(gt_of(53, 43)), GT(gt_of(24, 4)), 1) == GT::spow_steps(GT(gt_of(90, 62)), GT(gt_of(55, 75)), 0));
}

/// The pairing of `5G` with the point `19 P` of the image of `H`.
proof fn lemma_pairing_5_19()
    ensures
        smiller_loop(g1p(12, 32), dq(9, 96)) is Some,
        spairing_at(g1p(12, 32), dq(9, 96)) == GT(gt_of(90, 62)),
{
    lemma_final_exponent();
    lemma_tangent_5_19();
    lemma_tangent_10_19();
    lemma_tangent_3_19();
    lemma_tangent_6_19();
    lemma_vertical_at(12, 69, 32, 9, 96);
    lemma_miller_at(
        g1p(12, 32),
        dq(9, 96),
        (g1p(91, 66), g1p(26, 45), g1p(32, 42), g1p(12, 69)),
        (73, 65),
        (40, 3),
        (17, 88),
        (86, 1),
        (-12, 9),
        ((94, 13, 10, 52), (85, 56, 36, 7), (49, 21, 40, 63), (96, 94, -11, 27)),
        ((77, 21, 3, 91), (36, 44, 65, 18), (81, 6, -9, -6)),
    );
    lemma_final_exp_5_19();
}

proof fn lemma_final_exp_6_19()
    ensures
        GT(gt_of(78, 50)).spow(600) == GT(gt_of(15, 55)),
{
    assert(GT::sone() == GT(gt_of(1, 0)));
    lemma_gt_mul_at((78, 50), (78, 50), (49, 48), (35, 52));
    assert(GT::spow_steps(GT(gt_of(1, 0)), GT(gt_of(78, 50)), 600) == GT::spow_steps(GT(gt_of(1, 0)), GT(gt_of(49, 48)), 300));
    lemma_gt_mul_at((49, 48), (49, 48), (97, 77), (0, 23));
    assert(GT::spow_steps(GT(gt_of(1, 0)), GT(gt_of(49, 48)), 300) == GT::spow_steps(GT(gt_of(1, 0)), GT(gt_of(97, 77)), 150));
    lemma_gt_mul_at((97, 77), (97, 77), (46, 20), (34, 89));
    assert(GT::spow_steps(GT(gt_of(1, 0)), GT(gt_of(97, 77)), 150) == GT::spow_steps(GT(gt_of(1, 0)), GT(gt_of(46, 20)), 75));
    lemma_gt_mul_at((1, 0), (46, 20), (46, 20), (0, 0));
    lemma_gt_mul_at((46, 20), (46, 20), (100, 26), (16, 14));
    assert(GT::spow_steps(GT(gt_of(1, 0)), GT(gt_of(46, 20)), 75) == GT::spow_steps(GT(gt_of(46, 20)), GT(gt_of(100, 26)), 37));
    lemma_gt_mul_at((46, 20), (100, 26), (40, 50), (40, 26));
    lemma_gt_mul_at((100, 26), (100, 26), (32, 80), (92, 44));
    assert(GT::spow_steps(GT(gt_of(46, 20)), GT(gt_of(100, 26)), 37) == GT::spow_steps(GT(gt_of(40, 50)), GT(gt_of(32, 80)), 18));
    lemma_gt_mul_at((32, 80), (32, 80), (78, 33), (-54, -13));
    assert(GT::spow_steps(GT(gt_of(40, 50)), GT(gt_of(32, 80)), 18) == GT::spow_steps(GT(gt_of(40, 50)), GT(gt_of(78, 33)), 9));
    lemma_gt_mul_at((40, 50), (78, 33), (56, 35), (14, 35));
    lemma_gt_mul_at((78, 33), (78, 33), (46, 19), (49, 40));
    assert(GT::spow_steps(GT(gt_of(40, 50)), GT(gt_of(78, 33)), 9) == GT::spow_steps(GT(gt_of(56, 35)), GT(gt_of(46, 19)), 4));
    lemma_gt_mul_at((46, 19), (46, 19), (38, 74), (17, 13));
    assert(GT::spow_steps(GT(gt_of(56, 35)), GT(gt_of(46, 19)), 4) == GT::spow_steps(GT(gt_of(56, 35)), GT(gt_of(38, 74)), 2));
    lemma_gt_mul_at((38, 74), (38, 74), (8, 47), (-40, 1));
    assert(GT::spow_steps(GT(gt_of(56, 35)), GT(gt_of(38, 74)), 2) == GT::spow_steps(GT(gt_of(56, 35)), GT(gt_of(8, 47)), 1));
    lemma_gt_mul_at((56, 35), (8, 47), (15, 55), (-12, 12));
    lemma_gt_mul_at((8, 47), (8, 47), (77, 58), (-22, -15));
    assert(GT::spow_steps(GT(gt_of(56, 35)), GT(gt_of(8, 47)), 1) == GT::spow_steps(GT(gt_of(15, 55)), GT(gt_of(77, 58)), 0));
}

/// The pairing of `6G` with the point `19 P` of the image of `H`.
proof fn lemma_pairing_6_19()
    ensures
        smiller_loop(g1p(32, 42), dq(9, 96)) is Some,
        spairing_at(g1p(32, 42), dq(9, 96)) == GT(gt_of(15, 55)),
{
    lemma_final_exponent();
    lemma_tangent_6_19();
    lemma_tangent_12_19();
    lemma_tangent_7_19();
    lemma_tangent_14_19();
    lemma_vertical_at(32, 59, 42, 9, 96);
    lemma_miller_at(
        g1p(32, 42),
        dq(9, 96),
        (g1p(12, 69), g1p(91, 35), g1p(26, 56), g1p(32, 59)),
        (86, 1),
        (29, 27),
        (16, 72),
        (26, 52),
        (-32, 9),
        ((22, 70, 73, 1), (61, 27, -13, 7), (63, 40, 29, 25), (47, 74, -19, 22)),
        ((66, 66, -33, 14), (1, 100, -17, 16), (78, 50, -10, -41)),
    );
    lemma_final_exp_6_19();
}

proof fn lemma_final_exp_7_19()
    ensures
        GT(gt_of(18, 15)).spow(600) == GT(gt_of(71, 57)),
{
    assert(GT::sone() == GT(gt_of(1, 0)));
    lemma_gt_mul_at((18, 15), (18, 15), (99, 12), (0, 3));
    assert(GT::spow_steps(GT(gt_of(1, 0)), GT(gt_of(18, 15)), 600) == GT::spow_steps(GT(gt_of(1, 0)), GT(gt_of(99, 12)), 300));
    lemma_gt_mul_at((99, 12), (99, 12), (62, 10), (95, 22));
    assert(GT::spow_steps(GT(gt_of(1, 0)), GT(gt_of(99, 12)), 300) == GT::spow_steps(GT(gt_of(1, 0)), GT(gt_of(62, 10)), 150));
    lemma_gt_mul_at((62, 10), (62, 10), (7, 29), (37, 11));
    assert(GT::spow_steps(GT(gt_of(1, 0)), GT(gt_of(62, 10)), 150) == GT::spow_steps(GT(gt_of(1, 0)), GT(gt_of(7, 29)), 75));
    lemma_gt_mul_at((1, 0), (7, 29), (7, 29), (0, 0));
    lemma_gt_mul_at((7, 29), (7, 29), (16, 70), (-8, -5));
    assert(GT::spow_steps(GT(gt_of(1, 0)), GT(gt_of(7, 29)), 75) == GT::spow_steps(GT(gt_of(7, 29)), GT(gt_of(16, 70)), 37));
    lemma_gt_mul_at((7, 29), (16, 70), (1, 35), (-19, -11));
    lemma_gt_mul_at((16, 70), (16, 70), (2, 67), (-46, -27));
    assert(GT::spow_steps(GT(gt_of(7, 29)), GT(gt_of(16, 70)), 37) == GT::spow_steps(GT(gt_of(1, 35)), GT(gt_of(2, 67)), 18));
    lemma_gt_mul_at((2, 67), (2, 67), (60, 21), (-45, -42));
    assert(GT::spow_steps(GT(gt_of(1, 35)), GT(gt_of(2, 67)), 18) == GT::spow_steps(GT(gt_of(1, 35)), GT(gt_of(60, 21)), 9));
    lemma_gt_mul_at((1, 35), (60, 21), (32, 73), (-7, 13));
    lemma_gt_mul_at((60, 21), (60, 21), (28, 59), (31, 20));
    assert(GT::spow_steps(GT(gt_of(1, 35)), GT(gt_of(60, 21)), 9) == GT::spow_steps(GT(gt_of(32, 73)), GT(gt_of(28, 59)), 4));
    lemma_gt_mul_at((28, 59), (28, 59), (30, 25), (-27, -2));
    assert(GT::spow_steps(GT(gt_of(32, 73)), GT(gt_of(28, 59)), 4) == GT::spow_steps(GT(gt_of(32, 73)), GT(gt_of(30, 25)), 2));
    lemma_gt_mul_at((30, 25), (30, 25), (73, 67), (2, 8));
    assert(GT::spow_steps(GT(gt_of(32, 73)), GT(gt_of(30, 25)), 2) == GT::spow_steps(GT(gt_of(32, 73)), GT(gt_of(73, 67)), 1));
    lemma_gt_mul_at((32, 73), (73, 67), (71, 57), (-26, 25));
    lemma_gt_mul_at((73, 67), (73, 67), (32, 41), (8, 52));
    assert(GT::spow_steps(GT(gt_of(32, 73)), GT(gt_of(73, 67)), 1) == GT::spow_steps(GT(gt_of(71, 57)), GT(gt_of(32, 41)), 0));
}

/// The pairing of `7G` with the point `19 P` of the image of `H`.
proof fn lemma_pairing_7_19()
    ensures
        smiller_loop(g1p(91, 35), dq(9, 96)) is Some,
        spairing_at(g1p(91, 35), dq(9, 96)) == GT(gt_of(71, 57)),
{
    lemma_final_exponent();
    lemma_tangent_7_19();
    lemma_tangent_14_19();
    lemma_tangent_11_19();
    lemma_tangent_5_19();
    lemma_vertical_at(91, 66, 35, 9, 96);
    lemma_miller_at(
        g1p(91, 35),
        dq(9, 96),
        (g1p(26, 56), g1p(32, 59), g1p(12, 32), g1p(91, 66)),
        (16, 72),
        (26, 52),
        (22, 2),
        (73, 65),
        (-91, 9),
        ((21, 49, -49, -29), (18, 20, -20, -2), (25, 17, -1, 3), (11, 87, 5, 3)),
        ((26, 1, -74, -56), (15, 82, 18, 16), (18, 15, -21, -80)),
    );
    lemma_final_exp_7_19();
}

proof fn lemma_final_exp_8_19()
    ensures
        GT(gt_of(54, 17)).spow(600) == GT(gt_of(67, 72)),
{
    assert(GT::sone() == GT(gt_of(1, 0)));
    lemma_gt_mul_at((54, 17), (54, 17), (1, 32), (26, 15));
    assert(GT::spow_steps(GT(gt_of(1, 0)), GT(gt_of(54, 17)), 600) == GT::spow_steps(GT(gt_of(1, 0)), GT(gt_of(1, 32)), 300));
    lemma_gt_mul_at((1, 32), (1, 32), (88, 50), (-11, -10));
    assert(GT::spow_steps(GT(gt_of(1, 0)), GT(gt_of(1, 32)), 300) == GT::spow_steps(GT(gt_of(1, 0)), GT(gt_of(88, 50)), 150));
    lemma_gt_mul_at((88, 50), (88, 50), (93, 38), (51, 62));
    assert(GT::spow_steps(GT(gt_of(1, 0)), GT(gt_of(88, 50)), 150) == GT::spow_steps(GT(gt_of(1, 0)), GT(gt_of(93, 38)), 75));
    lemma_gt_mul_at((1, 0), (93, 38), (93, 38), (0, 0));
    lemma_gt_mul_at((93, 38), (93, 38), (34, 69), (71, 55));
    assert(GT::spow_steps(GT(gt_of(1, 0)), GT(gt_of(93, 38)), 75) == GT::spow_steps(GT(gt_of(93, 38)), GT(gt_of(34, 69)), 37));
    lemma_gt_mul_at((93, 38), (34, 69), (35, 37), (5, 50));
    lemma_gt_mul_at((34, 69), (34, 69), (31, 32), (-36, -1));
    assert(GT::spow_steps(GT(gt_of(93, 38)), GT(gt_of(34, 69)), 37) == GT::spow_steps(GT(gt_of(35, 37)), GT(gt_of(31, 32)), 18));
    lemma_gt_mul_at((31, 32), (31, 32), (38, 51), (-1, 9));
    assert(GT::spow_steps(GT(gt_of(35, 37)), GT(gt_of(31, 32)), 18) == GT::spow_steps(GT(gt_of(35, 37)), GT(gt_of(38, 51)), 9));
    lemma_gt_mul_at((35, 37), (38, 51), (49, 92), (-6, 12));
    lemma_gt_mul_at((38, 51), (38, 51), (55, 63), (-12, 12));
    assert(GT::spow_steps(GT(gt_of(35, 37)), GT(gt_of(38, 51)), 9) == GT::spow_steps(GT(gt_of(49, 92)), GT(gt_of(55, 63)), 4));
    lemma_gt_mul_at((55, 63), (55, 63), (66, 32), (-10, 29));
    assert(GT::spow_steps(GT(gt_of(49, 92)), GT(gt_of(55, 63)), 4) == GT::spow_steps(GT(gt_of(49, 92)), GT(gt_of(66, 32)), 2));
    lemma_gt_mul_at((66, 32), (66, 32), (100, 69), (32, 31));
    assert(GT::spow_steps(GT(gt_of(49, 92)), GT(gt_of(66, 32)), 2) == GT::spow_steps(GT(gt_of(49, 92)), GT(gt_of(100, 69)), 1));
    lemma_gt_mul_at((49, 92), (100, 69), (67, 72), (-15, 61));
    lemma_gt_mul_at((100, 69), (100, 69), (88, 50), (51, 89));
    assert(GT::spow_steps(GT(gt_of(49, 92)), GT(gt_of(100, 69)), 1) == GT::spow_steps(GT(gt_of(67, 72)), GT(gt_of(88, 50)), 0));
}

/// The pairing of `8G` with the point `19 P` of the image of `H`.
proof fn lemma_pairing_8_19()
    ensures
        smiller_loop(g1p(18, 49), dq(9, 96)) is Some,
        spairing_at(g1p(18, 49), dq(9, 96)) == GT(gt_of(67, 72)),
{
    lemma_final_exponent();
    lemma_tangent_8_19();
    lemma_tangent_16_19();
    lemma_tangent_15_19();
    lemma_tangent_13_19();
    lemma_vertical_at(18, 52, 49, 9, 96);
    lemma_miller_at(
        g1p(18, 49),
        dq(9, 96),
        (g1p(1, 99), g1p(68, 27), g1p(65, 3), g1p(18, 52)),
        (14, 24),
        (45, 56),
        (78, 38),
        (76, 73),
        (-18, 9),
        ((24, 96, -4, 0), (47, 86, -43, 2), (65, 82, -52, 6), (35, 94, 19, 56)),
        ((65, 67, -76, -23), (49, 98, 0, 48), (54, 17, -18, -22)),
    );
    lemma_final_exp_8_19();
}

proof fn lemma_final_exp_9_19()
    ensures
        GT(gt_of(43, 48)).spow(600) == GT(gt_of(96, 29)),
{
    assert(GT::sone() == GT(gt_of(1, 0)));
    lemma_gt_mul_at((43, 48), (43, 48), (50, 6), (-5, 18));
    assert(GT::spow_steps(GT(gt_of(1, 0)), GT(gt_of(43, 48)), 600) == GT::spow_steps(GT(gt_of(1, 0)), GT(gt_of(50, 6)), 300));
    lemma_gt_mul_at((50, 6), (50, 6), (40, 59), (24, 5));
    assert(GT::spow_steps(GT(gt_of(1, 0)), GT(gt_of(50, 6)), 300) == GT::spow_steps(GT(gt_of(1, 0)), GT(gt_of(40, 59)), 150));
    lemma_gt_mul_at((40, 59), (40, 59), (38, 27), (-19, 12));
    assert(GT::spow_steps(GT(gt_of(1, 0)), GT(gt_of(40, 59)), 150) == GT::spow_steps(GT(gt_of(1, 0)), GT(gt_of(38, 27)), 75));
    lemma_gt_mul_at((1, 0), (38, 27), (38, 27), (0, 0));
    lemma_gt_mul_at((38, 27), (38, 27), (8, 10), (7, 13));
    assert(GT::spow_steps(GT(gt_of(1, 0)), GT(gt_of(38, 27)), 75) == GT::spow_steps(GT(gt_of(38, 27)), GT(gt_of(8, 10)), 37));
    lemma_gt_mul_at((38, 27), (8, 10), (34, 23), (0, 3));
    lemma_gt_mul_at((8, 10), (8, 10), (65, 60), (-1, 0));
    assert(GT::spow_steps(GT(gt_of(38, 27)), GT(gt_of(8, 10)), 37) == GT::spow_steps(GT(gt_of(34, 23)), GT(gt_of(65, 60)), 18));
    lemma_gt_mul_at((65, 60), (65, 60), (19, 59), (6, 41));
    assert(GT::spow_steps(GT(gt_of(34, 23)), GT(gt_of(65, 60)), 18) == GT::spow_steps(GT(gt_of(34, 23)), GT(gt_of(19, 59)), 9));
    lemma_gt_mul_at((34, 23), (19, 59), (97, 76), (-8, 10));
    lemma_gt_mul_at((19, 59), (19, 59), (11, 74), (-31, -13));
    assert(GT::spow_steps(GT(gt_of(34, 23)), GT(gt_of(19, 59)), 9) == GT::spow_steps(GT(gt_of(97, 76)), GT(gt_of(11, 74)), 4));
    lemma_gt_mul_at((11, 74), (11, 74), (99, 91), (-54, -39));
    assert(GT::spow_steps(GT(gt_of(97, 76)), GT(gt_of(11, 74)), 4) == GT::spow_steps(GT(gt_of(97, 76)), GT(gt_of(99, 91)), 2));
    lemma_gt_mul_at((99, 91), (99, 91), (5, 41), (15, 96));
    assert(GT::spow_steps(GT(gt_of(97, 76)), GT(gt_of(99, 91)), 2) == GT::spow_steps(GT(gt_of(97, 76)), GT(gt_of(5, 41)), 1));
    lemma_gt_mul_at((97, 76), (5, 41), (96, 29), (-27, 12));
    lemma_gt_mul_at((5, 41), (5, 41), (61, 42), (-17, -13));
    assert(GT::spow_steps(GT(gt_of(97, 76)), GT(gt_of(5, 41)), 1) == GT::spow_steps(GT(gt_of(96, 29)), GT(gt_of(61, 42)), 0));
}

/// The pairing of `9G` with the point `19 P` of the image of `H`.
proof fn lemma_pairing_9_19()
    ensures
        smiller_loop(g1p(18, 52), dq(9, 96)) is Some,
        spairing_at(g1p(18, 52), dq(9, 96)) == GT(gt_of(96, 29)),
{
    lemma_final_exponent();
    lemma_tangent_9_19();
    lemma_tangent_1_19();
    lemma_tangent_2_19();
    lemma_tangent_4_19();
    lemma_vertical_at(18, 49, 52, 9, 96);
    lemma_miller_at(
        g1p(18, 52),
        dq(9, 96),
        (g1p(1, 2), g1p(68, 74), g1p(65, 98), g1p(18, 49)),
        (77, 68),
        (29, 93),
        (59, 51),
        (88, 49),
        (-18, 9),
        ((93, 91, 12, 57), (92, 98, -58, 27), (72, 45, -12, 83), (34, 93, 19, 39)),
        ((82, 99, -75, -24), (42, 1, 23, 78), (43, 48, -8, 3)),
    );
    lemma_final_exp_9_19();
}

proof fn lemma_final_exp_10_19()
    ensures
        GT(gt_of(11, 7)).spow(600) == GT(gt_of(14, 44)),
{
    assert(GT::sone() == GT(gt_of(1, 0)));
    lemma_gt_mul_at((11, 7), (11, 7), (72, 4), (0, 1));
    assert(GT::spow_steps(GT(gt_of(1, 0)), GT(gt_of(11, 7)), 600) == GT::spow_steps(GT(gt_of(1, 0)), GT(gt_of(72, 4)), 300));
    lemma_gt_mul_at((72, 4), (72, 4), (17, 55), (51, 5));
    assert(GT::spow_steps(GT(gt_of(1, 0)), GT(gt_of(72, 4)), 300) == GT::spow_steps(GT(gt_of(1, 0)), GT(gt_of(17, 55)), 150));
    lemma_gt_mul_at((17, 55), (17, 55), (92, 57), (-28, -12));
    assert(GT::spow_steps(GT(gt_of(1, 0)), GT(gt_of(17, 55)), 150) == GT::spow_steps(GT(gt_of(1, 0)), GT(gt_of(92, 57)), 75));
    lemma_gt_mul_at((1, 0), (92, 57), (92, 57), (0, 0));
    lemma_gt_mul_at((92, 57), (92, 57), (64, 68), (51, 71));
    assert(GT::spow_steps(GT(gt_of(1, 0)), GT(gt_of(92, 57)), 75) == GT::spow_steps(GT(gt_of(92, 57)), GT(gt_of(64, 68)), 37));
    lemma_gt_mul_at((92, 57), (64, 68), (93, 69), (19, 59));
    lemma_gt_mul_at((64, 68), (64, 68), (78, 40), (-6, 40));
    assert(GT::spow_steps(GT(gt_of(92, 57)), GT(gt_of(64, 68)), 37) == GT::spow_steps(GT(gt_of(93, 69)), GT(gt_of(78, 40)), 18));
    lemma_gt_mul_at((78, 40), (78, 40), (40, 95), (44, 45));
    assert(GT::spow_steps(GT(gt_of(93, 69)), GT(gt_of(78, 40)), 18) == GT::spow_steps(GT(gt_of(93, 69)), GT(gt_of(40, 95)), 9));
    lemma_gt_mul_at((93, 69), (40, 95), (94, 91), (-29, 49));
    lemma_gt_mul_at((40, 95), (40, 95), (49, 90), (-74, -15));
    assert(GT::spow_steps(GT(gt_of(93, 69)), GT(gt_of(40, 95)), 9) == GT::spow_steps(GT(gt_of(94, 91)), GT(gt_of(49, 90)), 4));
    lemma_gt_mul_at((49, 90), (49, 90), (58, 13), (-57, 7));
    assert(GT::spow_steps(GT(gt_of(94, 91)), GT(gt_of(49, 90)), 4) == GT::spow_steps(GT(gt_of(94, 91)), GT(gt_of(58, 13)), 2));
    lemma_gt_mul_at((58, 13), (58, 13), (64, 26), (31, 13));
    assert(GT::spow_steps(GT(gt_of(94, 91)), GT(gt_of(58, 13)), 2) == GT::spow_steps(GT(gt_of(94, 91)), GT(gt_of(64, 26)), 1));
    lemma_gt_mul_at((94, 91), (64, 26), (14, 44), (36, 58));
    lemma_gt_mul_at((64, 26), (64, 26), (87, 26), (33, 26));
    assert(GT::spow_steps(GT(gt_of(94, 91)), GT(gt_of(64, 26)), 1) == GT::spow_steps(GT(gt_of(14, 44)), GT(gt_of(87, 26)), 0));
}

/// The pairing of `10G` with the point `19 P` of the image of `H`.
proof fn lemma_pairing_10_19()
    ensures
        smiller_loop(g1p(91, 66), dq(9, 96)) is Some,
        spairing_at(g1p(91, 66), dq(9, 96)) == GT(gt_of(14, 44)),
{
    lemma_final_exponent();
    lemma_tangent_10_19();
    lemma_tangent_3_19();
    lemma_tangent_6_19();
    lemma_tangent_12_19();
    lemma_vertical_at(91, 35, 66, 9, 96);
    lemma_miller_at(
        g1p(91, 66),
        dq(9, 96),
        (g1p(26, 45), g1p(32, 42), g1p(12, 69), g1p(91, 35)),
        (40, 3),
        (17, 88),
        (86, 1),
        (29, 27),
        (-91, 9),
        ((76, 29, 15, 2), (53, 84, -13, 45), (96, 30, -43, 18), (45, 20, 81, 26)),
        ((9, 87, 16, 13), (33, 13, -21, 4), (11, 7, -31, -10)),
    );
    lemma_final_exp_10_19();
}

proof fn lemma_final_exp_11_19()
    ensures
        GT(gt_of(61, 97)).spow(600) == GT(gt_of(61, 46)),
{
    assert(GT::sone() == GT(gt_of(1, 0)));
    lemma_gt_mul_at((61, 97), (61, 97), (69, 1), (-57, 24));
    assert(GT::spow_steps(GT(gt_of(1, 0)), GT(gt_of(61, 97)), 600) == GT::spow_steps(GT(gt_of(1, 0)), GT(gt_of(69, 1)), 300));
    lemma_gt_mul_at((69, 1), (69, 1), (13, 36), (47, 1));
    assert(GT::spow_steps(GT(gt_of(1, 0)), GT(gt_of(69, 1)), 300) == GT::spow_steps(GT(gt_of(1, 0)), GT(gt_of(13, 36)), 150));
    lemma_gt_mul_at((13, 36), (13, 36), (85, 44), (-12, -4));
    assert(GT::spow_steps(GT(gt_of(1, 0)), GT(gt_of(13, 36)), 150) == GT::spow_steps(GT(gt_of(1, 0)), GT(gt_of(85, 44)), 75));
    lemma_gt_mul_at((1, 0), (85, 44), (85, 44), (0, 0));
    lemma_gt_mul_at((85, 44), (85, 44), (37, 90), (52, 54));
    assert(GT::spow_steps(GT(gt_of(1, 0)), GT(gt_of(85, 44)), 75) == GT::spow_steps(GT(gt_of(85, 44)), GT(gt_of(37, 90)), 37));
    lemma_gt_mul_at((85, 44), (37, 90), (94, 66), (-9, 52));
    lemma_gt_mul_at((37, 90), (37, 90), (36, 75), (-67, -15));
    assert(GT::spow_steps(GT(gt_of(85, 44)), GT(gt_of(37, 90)), 37) == GT::spow_steps(GT(gt_of(94, 66)), GT(gt_of(36, 75)), 18));
    lemma_gt_mul_at((36, 75), (36, 75), (14, 78), (-43, -3));
    assert(GT::spow_steps(GT(gt_of(94, 66)), GT(gt_of(36, 75)), 18) == GT::spow_steps(GT(gt_of(94, 66)), GT(gt_of(14, 78)), 9));
    lemma_gt_mul_at((94, 66), (14, 78), (6, 78), (-38, 30));
    lemma_gt_mul_at((14, 78), (14, 78), (71, 39), (-59, -39));
    assert(GT::spow_steps(GT(gt_of(94, 66)), GT(gt_of(14, 78)), 9) == GT::spow_steps(GT(gt_of(6, 78)), GT(gt_of(71, 39)), 4));
    lemma_gt_mul_at((71, 39), (71, 39), (86, 78), (34, 39));
    assert(GT::spow_steps(GT(gt_of(6, 78)), GT(gt_of(71, 39)), 4) == GT::spow_steps(GT(gt_of(6, 78)), GT(gt_of(86, 78)), 2));
    lemma_gt_mul_at((86, 78), (86, 78), (100, 60), (12, 72));
    assert(GT::spow_steps(GT(gt_of(6, 78)), GT(gt_of(86, 78)), 2) == GT::spow_steps(GT(gt_of(6, 78)), GT(gt_of(100, 60)), 1));
    lemma_gt_mul_at((6, 78), (100, 60), (61, 46), (-41, 34));
    lemma_gt_mul_at((100, 60), (100, 60), (37, 17), (63, 83));
    assert(GT::spow_steps(GT(gt_of(6, 78)), GT(gt_of(100, 60)), 1) == GT::spow_steps(GT(gt_of(61, 46)), GT(gt_of(37, 17)), 0));
}

/// The pairing of `11G` with the point `19 P` of the image of `H`.
proof fn lemma_pairing_11_19()
    ensures
        smiller_loop(g1p(32, 59), dq(9, 96)) is Some,
        spairing_at(g1p(32, 59), dq(9, 96)) == GT(gt_of(61, 46)),
{
    lemma_final_exponent();
    lemma_tangent_11_19();
    lemma_tangent_5_19();
    lemma_tangent_10_19();
    lemma_tangent_3_19();
    lemma_vertical_at(32, 42, 59, 9, 96);
    lemma_miller_at(
        g1p(32, 59),
        dq(9, 96),
        (g1p(12, 32), g1p(91, 66), g1p(26, 45), g1p(32, 42)),
        (22, 2),
        (73, 65),
        (40, 3),
        (17, 88),
        (-32, 9),
        ((76, 84, 4, 0), (88, 57, 0, 55), (51, 16, 44, 67), (73, 38, 19, 7)),
        ((47, 64, 38, 40), (15, 97, -48, -5), (61, 97, -14, -39)),
    );
    lemma_final_exp_11_19();
}

proof fn lemma_final_exp_12_19()
    ensures
        GT(gt_of(75, 95)).spow(600) == GT(gt_of(28, 39)),
{
    assert(GT::sone() == GT(gt_of(1, 0)));
    lemma_gt_mul_at((75, 95), (75, 95), (34, 74), (-34, 51));
    assert(GT::spow_steps(GT(gt_of(1, 0)), GT(gt_of(75, 95)), 600) == GT::spow_steps(GT(gt_of(1, 0)), GT(gt_of(34, 74)), 300));
    lemma_gt_mul_at((34, 74), (34, 74), (23, 61), (-43, -5));
    assert(GT::spow_steps(GT(gt_of(1, 0)), GT(gt_of(34, 74)), 300) == GT::spow_steps(GT(gt_of(1, 0)), GT(gt_of(23, 61)), 150));
    lemma_gt_mul_at((23, 61), (23, 61), (40, 95), (-32, -10));
    assert(GT::spow_steps(GT(gt_of(1, 0)), GT(gt_of(23, 61)), 150) == GT::spow_steps(GT(gt_of(1, 0)), GT(gt_of(40, 95)), 75));
    lemma_gt_mul_at((1, 0), (40, 95), (40, 95), (0, 0));
    lemma_gt_mul_at((40, 95), (40, 95), (49, 90), (-74, -15));
    assert(GT::spow_steps(GT(gt_of(1, 0)), GT(gt_of(40, 95)), 75) == GT::spow_steps(GT(gt_of(40, 95)), GT(gt_of(49, 90)), 37));
    lemma_gt_mul_at((40, 95), (49, 90), (76, 8), (-66, -3));
    lemma_gt_mul_at((49, 90), (49, 90), (58, 13), (-57, 7));
    assert(GT::spow_steps(GT(gt_of(40, 95)), GT(gt_of(49, 90)), 37) == GT::spow_steps(GT(gt_of(76, 8)), GT(gt_of(58, 13)), 18));
    lemma_gt_mul_at((58, 13), (58, 13), (64, 26), (31, 13));
    assert(GT::spow_steps(GT(gt_of(76, 8)), GT(gt_of(58, 13)), 18) == GT::spow_steps(GT(gt_of(76, 8)), GT(gt_of(64, 26)), 9));
    lemma_gt_mul_at((76, 8), (64, 26), (10, 58), (46, 22));
    lemma_gt_mul_at((64, 26), (64, 26), (87, 26), (33, 26));
    assert(GT::spow_steps(GT(gt_of(76, 8)), GT(gt_of(64, 26)), 9) == GT::spow_steps(GT(gt_of(10, 58)), GT(gt_of(87, 26)), 4));
    lemma_gt_mul_at((87, 26), (87, 26), (25, 10), (68, 38));
    assert(GT::spow_steps(GT(gt_of(10, 58)), GT(gt_of(87, 26)), 4) == GT::spow_steps(GT(gt_of(10, 58)), GT(gt_of(25, 10)), 2));
    lemma_gt_mul_at((25, 10), (25, 10), (20, 97), (5, 3));
    assert(GT::spow_steps(GT(gt_of(10, 58)), GT(gt_of(25, 10)), 2) == GT::spow_steps(GT(gt_of(10, 58)), GT(gt_of(20, 97)), 1));
    lemma_gt_mul_at((10, 58), (20, 97), (28, 39), (-54, -35));
    lemma_gt_mul_at((20, 97), (20, 97), (81, 26), (-90, -55));
    assert(GT::spow_steps(GT(gt_of(10, 58)), GT(gt_of(20, 97)), 1) == GT::spow_steps(GT(gt_of(28, 39)), GT(gt_of(81, 26)), 0));
}

/// The pairing of `12G` with the point `19 P` of the image of `H`.
proof fn lemma_pairing_12_19()
    ensures
        smiller_loop(g1p(12, 69), dq(9, 96)) is Some,
        spairing_at(g1p(12, 69), dq(9, 96)) == GT(gt_of(28, 39)),
{
    lemma_final_exponent();
    lemma_tangent_12_19();
    lemma_tangent_7_19();
    lemma_tangent_14_19();
    lemma_tangent_11_19();
    lemma_vertical_at(12, 32, 69, 9, 96);
    lemma_miller_at(
        g1p(12, 69),
        dq(9, 96),
        (g1p(91, 35), g1p(26, 56), g1p(32, 59), g1p(12, 32)),
        (29, 27),
        (16, 72),
        (26, 52),
        (22, 2),
        (-12, 9),
        ((11, 29, 1, 8), (7, 77, -19, -9), (79, 98, -59, -49), (89, 45, -31, 15)),
        ((38, 26, 58, 59), (77, 91, 7, 5), (75, 95, -18, -13)),
    );
    lemma_final_exp_12_19();
}

proof fn lemma_final_exp_13_19()
    ensures
        GT(gt_of(95, 78)).spow(600) == GT(gt_of(51, 9)),
{
    assert(GT::sone() == GT(gt_of(1, 0)));
    lemma_gt_mul_at((95, 78), (95, 78), (12, 50), (29, 86));
    assert(GT::spow_steps(GT(gt_of(1, 0)), GT(gt_of(95, 78)), 600) == GT::spow_steps(GT(gt_of(1, 0)), GT(gt_of(12, 50)), 300));
    lemma_gt_mul_at((12, 50), (12, 50), (68, 13), (-24, -13));
    assert(GT::spow_steps(GT(gt_of(1, 0)), GT(gt_of(12, 50)), 300) == GT::spow_steps(GT(gt_of(1, 0)), GT(gt_of(68, 13)), 150));
    lemma_gt_mul_at((68, 13), (68, 13), (11, 84), (44, 15));
    assert(GT::spow_steps(GT(gt_of(1, 0)), GT(gt_of(68, 13)), 150) == GT::spow_steps(GT(gt_of(1, 0)), GT(gt_of(11, 84)), 75));
    lemma_gt_mul_at((1, 0), (11, 84), (11, 84), (0, 0));
    lemma_gt_mul_at((11, 84), (11, 84), (34, 44), (-69, -52));
    assert(GT::spow_steps(GT(gt_of(1, 0)), GT(gt_of(11, 84)), 75) == GT::spow_steps(GT(gt_of(11, 84)), GT(gt_of(34, 44)), 37));
    lemma_gt_mul_at((11, 84), (34, 44), (11, 48), (-33, -4));
    lemma_gt_mul_at((34, 44), (34, 44), (28, 46), (-8, 10));
    assert(GT::spow_steps(GT(gt_of(11, 84)), GT(gt_of(34, 44)), 37) == GT::spow_steps(GT(gt_of(11, 48)), GT(gt_of(28, 46)), 18));
    lemma_gt_mul_at((28, 46), (28, 46), (82, 56), (-14, 4));
    assert(GT::spow_steps(GT(gt_of(11, 48)), GT(gt_of(28, 46)), 18) == GT::spow_steps(GT(gt_of(11, 48)), GT(gt_of(82, 56)), 9));
    lemma_gt_mul_at((11, 48), (82, 56), (32, 46), (-18, 18));
    lemma_gt_mul_at((82, 56), (82, 56), (53, 89), (35, 59));
    assert(GT::spow_steps(GT(gt_of(11, 48)), GT(gt_of(82, 56)), 9) == GT::spow_steps(GT(gt_of(32, 46)), GT(gt_of(53, 89)), 4));
    lemma_gt_mul_at((53, 89), (53, 89), (39, 99), (-51, 14));
    assert(GT::spow_steps(GT(gt_of(32, 46)), GT(gt_of(53, 89)), 4) == GT::spow_steps(GT(gt_of(32, 46)), GT(gt_of(39, 99)), 2));
    lemma_gt_mul_at((39, 99), (39, 99), (2, 42), (-82, -21));
    assert(GT::spow_steps(GT(gt_of(32, 46)), GT(gt_of(39, 99)), 2) == GT::spow_steps(GT(gt_of(32, 46)), GT(gt_of(2, 42)), 1));
    lemma_gt_mul_at((32, 46), (2, 42), (51, 9), (-19, -5));
    lemma_gt_mul_at((2, 42), (2, 42), (58, 20), (-18, -16));
    assert(GT::spow_steps(GT(gt_of(32, 46)), GT(gt_of(2, 42)), 1) == GT::spow_steps(GT(gt_of(51, 9)), GT(gt_of(58, 20)), 0));
}

/// The pairing of `13G` with the point `19 P` of the image of `H`.
proof fn lemma_pairing_13_19()
    ensures
        smiller_loop(g1p(65, 3), dq(9, 96)) is Some,
        spairing_at(g1p(65, 3), dq(9, 96)) == GT(gt_of(51, 9)),
{
    lemma_final_exponent();
    lemma_tangent_13_19();
    lemma_tangent_9_19();
    lemma_tangent_1_19();
    lemma_tangent_2_19();
    lemma_vertical_at(65, 98, 3, 9, 96);
    lemma_miller_at(
        g1p(65, 3),
        dq(9, 96),
        (g1p(18, 52), g1p(1, 2), g1p(68, 74), g1p(65, 98)),
        (76, 73),
        (77, 68),
        (29, 93),
        (59, 51),
        (-65, 9),
        ((43, 10, 4, 57), (5, 85, 26, 29), (72, 89, -72, -64), (73, 91, -62, 9)),
        ((78, 56, -30, 49), (29, 83, 17, 43), (95, 78, -27, -59)),
    );
    lemma_final_exp_13_19();
}

proof fn lemma_final_exp_14_19()
    ensures
        GT(gt_of(2, 86)).spow(600) == GT(gt_of(75, 98)),
{
    assert(GT::sone() == GT(gt_of(1, 0)));
    lemma_gt_mul_at((2, 86), (2, 86), (82, 18), (-74, -70));
    assert(GT::spow_steps(GT(gt_of(1, 0)), GT(gt_of(2, 86)), 600) == GT::spow_steps(GT(gt_of(1, 0)), GT(gt_of(82, 18)), 300));
    lemma_gt_mul_at((82, 18), (82, 18), (37, 2), (63, 26));
    assert(GT::spow_steps(GT(gt_of(1, 0)), GT(gt_of(82, 18)), 300) == GT::spow_steps(GT(gt_of(1, 0)), GT(gt_of(37, 2)), 150));
    lemma_gt_mul_at((37, 2), (37, 2), (52, 43), (13, 1));
    assert(GT::spow_steps(GT(gt_of(1, 0)), GT(gt_of(37, 2)), 150) == GT::spow_steps(GT(gt_of(1, 0)), GT(gt_of(52, 43)), 75));
    lemma_gt_mul_at((1, 0), (52, 43), (52, 43), (0, 0));
    lemma_gt_mul_at((52, 43), (52, 43), (47, 98), (8, 25));
    assert(GT::spow_steps(GT(gt_of(1, 0)), GT(gt_of(52, 43)), 75) == GT::spow_steps(GT(gt_of(52, 43)), GT(gt_of(47, 98)), 37));
    lemma_gt_mul_at((52, 43), (47, 98), (48, 75), (-18, 28));
    lemma_gt_mul_at((47, 98), (47, 98), (79, 12), (-74, -4));
    assert(GT::spow_steps(GT(gt_of(52, 43)), GT(gt_of(47, 98)), 37) == GT::spow_steps(GT(gt_of(48, 75)), GT(gt_of(79, 12)), 18));
    lemma_gt_mul_at((79, 12), (79, 12), (37, 35), (60, 17));
    assert(GT::spow_steps(GT(gt_of(48, 75)), GT(gt_of(79, 12)), 18) == GT::spow_steps(GT(gt_of(48, 75)), GT(gt_of(37, 35)), 9));
    lemma_gt_mul_at((48, 75), (37, 35), (60, 12), (-9, 18));
    lemma_gt_mul_at((37, 35), (37, 35), (43, 52), (1, 13));
    assert(GT::spow_steps(GT(gt_of(48, 75)), GT(gt_of(37, 35)), 9) == GT::spow_steps(GT(gt_of(60, 12)), GT(gt_of(43, 52)), 4));
    lemma_gt_mul_at((43, 52), (43, 52), (54, 51), (-9, 17));
    assert(GT::spow_steps(GT(gt_of(60, 12)), GT(gt_of(43, 52)), 4) == GT::spow_steps(GT(gt_of(60, 12)), GT(gt_of(54, 51)), 2));
    lemma_gt_mul_at((54, 51), (54, 51), (12, 79), (3, 28));
    assert(GT::spow_steps(GT(gt_of(60, 12)), GT(gt_of(54, 51)), 2) == GT::spow_steps(GT(gt_of(60, 12)), GT(gt_of(12, 79)), 1));
    lemma_gt_mul_at((60, 12), (12, 79), (75, 98), (-3, 38));
    lemma_gt_mul_at((12, 79), (12, 79), (64, 99), (-61, -44));
    assert(GT::spow_steps(GT(gt_of(60, 12)), GT(gt_of(12, 79)), 1) == GT::spow_steps(GT(gt_of(75, 98)), GT(gt_of(64, 99)), 0));
}

/// The pairing of `14G` with the point `19 P` of the image of `H`.
proof fn lemma_pairing_14_19()
    ensures
        smiller_loop(g1p(26, 56), dq(9, 96)) is Some,
        spairing_at(g1p(26, 56), dq(9, 96)) == GT(gt_of(75, 98)),
{
    lemma_final_exponent();
    lemma_tangent_14_19();
    lemma_tangent_11_19();
    lemma_tangent_5_19();
    lemma_tangent_10_19();
    lemma_vertical_at(26, 45, 56, 9, 96);
    lemma_miller_at(
        g1p(26, 56),
        dq(9, 96),
        (g1p(32, 59), g1p(12, 32), g1p(91, 66), g1p(26, 45)),
        (26, 52),
        (22, 2),
        (73, 65),
        (40, 3),
        (-26, 9),
        ((93, 0, -21, 0), (26, 85, 20, 1), (16, 23, -65, -28), (77, 12, -4, 12)),
        ((28, 88, 57, 16), (48, 7, 8, 33), (2, 86, -13, 1)),
    );
    lemma_final_exp_14_19();
}

proof fn lemma_final_exp_15_19()
    ensures
        GT(gt_of(19, 28)).spow(600) == GT(gt_of(47, 80)),
{
    assert(GT::sone() == GT(gt_of(1, 0)));
    lemma_gt_mul_at((19, 28), (19, 28), (82, 78), (-5, 2));
    assert(GT::spow_steps(GT(gt_of(1, 0)), GT(gt_of(19, 28)), 600) == GT::spow_steps(GT(gt_of(1, 0)), GT(gt_of(82, 78)), 300));
    lemma_gt_mul_at((82, 78), (82, 78), (34, 42), (6, 66));
    assert(GT::spow_steps(GT(gt_of(1, 0)), GT(gt_of(82, 78)), 300) == GT::spow_steps(GT(gt_of(1, 0)), GT(gt_of(34, 42)), 150));
    lemma_gt_mul_at((34, 42), (34, 42), (99, 82), (-7, 10));
    assert(GT::spow_steps(GT(gt_of(1, 0)), GT(gt_of(34, 42)), 150) == GT::spow_steps(GT(gt_of(1, 0)), GT(gt_of(99, 82)), 75));
    lemma_gt_mul_at((1, 0), (99, 82), (99, 82), (0, 0));
    lemma_gt_mul_at((99, 82), (99, 82), (47, 18), (30, 94));
    assert(GT::spow_steps(GT(gt_of(1, 0)), GT(gt_of(99, 82)), 75) == GT::spow_steps(GT(gt_of(99, 82)), GT(gt_of(47, 18)), 37));
    lemma_gt_mul_at((99, 82), (47, 18), (46, 19), (31, 41));
    lemma_gt_mul_at((47, 18), (47, 18), (67, 55), (18, 13));
    assert(GT::spow_steps(GT(gt_of(99, 82)), GT(gt_of(47, 18)), 37) == GT::spow_steps(GT(gt_of(46, 19)), GT(gt_of(67, 55)), 18));
    lemma_gt_mul_at((67, 55), (67, 55), (50, 2), (14, 43));
    assert(GT::spow_steps(GT(gt_of(46, 19)), GT(gt_of(67, 55)), 18) == GT::spow_steps(GT(gt_of(46, 19)), GT(gt_of(50, 2)), 9));
    lemma_gt_mul_at((46, 19), (50, 2), (40, 95), (22, 9));
    lemma_gt_mul_at((50, 2), (50, 2), (72, 95), (24, 1));
    assert(GT::spow_steps(GT(gt_of(46, 19)), GT(gt_of(50, 2)), 9) == GT::spow_steps(GT(gt_of(40, 95)), GT(gt_of(72, 95)), 4));
    lemma_gt_mul_at((72, 95), (72, 95), (98, 9), (-39, 46));
    assert(GT::spow_steps(GT(gt_of(40, 95)), GT(gt_of(72, 95)), 4) == GT::spow_steps(GT(gt_of(40, 95)), GT(gt_of(98, 9)), 2));
    lemma_gt_mul_at((98, 9), (98, 9), (29, 67), (94, 16));
    assert(GT::spow_steps(GT(gt_of(40, 95)), GT(gt_of(98, 9)), 2) == GT::spow_steps(GT(gt_of(40, 95)), GT(gt_of(29, 67)), 1));
    lemma_gt_mul_at((40, 95), (29, 67), (47, 80), (-52, -10));
    lemma_gt_mul_at((29, 67), (29, 67), (89, 3), (-37, -6));
    assert(GT::spow_steps(GT(gt_of(40, 95)), GT(gt_of(29, 67)), 1) == GT::spow_steps(GT(gt_of(47, 80)), GT(gt_of(89, 3)), 0));
}

/// The pairing of `15G` with the point `19 P` of the image of `H`.
proof fn lemma_pairing_15_19()
    ensures
        smiller_loop(g1p(68, 27), dq(9, 96)) is Some,
        spairing_at(g1p(68, 27), dq(9, 96)) == GT(gt_of(47, 80)),
{
    lemma_final_exponent();
    lemma_tangent_15_19();
    lemma_tangent_13_19();
    lemma_tangent_9_19();
    lemma_tangent_1_19();
    lemma_vertical_at(68, 74, 27, 9, 96);
    lemma_miller_at(
        g1p(68, 27),
        dq(9, 96),
        (g1p(65, 3), g1p(18, 52), g1p(1, 2), g1p(68, 74)),
        (78, 38),
        (76, 73),
        (77, 68),
        (29, 93),
        (-68, 9),
        ((95, 40, 45, 44), (58, 86, 42, 69), (8, 55, -40, 25), (7, 29, -31, 10)),
        ((16, 70, -8, -5), (14, 38, -60, -30), (19, 28, -13, -28)),
    );
    lemma_final_exp_15_19();
}

proof fn lemma_final_exp_16_19()
    ensures
        GT(gt_of(95, 26)).spow(600) == GT(gt_of(12, 20)),
{
    assert(GT::sone() == GT(gt_of(1, 0)));
    lemma_gt_mul_at((95, 26), (95, 26), (67, 22), (82, 42));
    assert(GT::spow_steps(GT(gt_of(1, 0)), GT(gt_of(95, 26)), 600) == GT::spow_steps(GT(gt_of(1, 0)), GT(gt_of(67, 22)), 300));
    lemma_gt_mul_at((67, 22), (67, 22), (66, 40), (39, 24));
    assert(GT::spow_steps(GT(gt_of(1, 0)), GT(gt_of(67, 22)), 300) == GT::spow_steps(GT(gt_of(1, 0)), GT(gt_of(66, 40)), 150));
    lemma_gt_mul_at((66, 40), (66, 40), (29, 44), (27, 36));
    assert(GT::spow_steps(GT(gt_of(1, 0)), GT(gt_of(66, 40)), 150) == GT::spow_steps(GT(gt_of(1, 0)), GT(gt_of(29, 44)), 75));
    lemma_gt_mul_at((1, 0), (29, 44), (29, 44), (0, 0));
    lemma_gt_mul_at((29, 44), (29, 44), (16, 10), (-11, 6));
    assert(GT::spow_steps(GT(gt_of(1, 0)), GT(gt_of(29, 44)), 75) == GT::spow_steps(GT(gt_of(29, 44)), GT(gt_of(16, 10)), 37));
    lemma_gt_mul_at((29, 44), (16, 10), (24, 49), (0, 5));
    lemma_gt_mul_at((16, 10), (16, 10), (55, 18), (1, 2));
    assert(GT::spow_steps(GT(gt_of(29, 44)), GT(gt_of(16, 10)), 37) == GT::spow_steps(GT(gt_of(24, 49)), GT(gt_of(55, 18)), 18));
    lemma_gt_mul_at((55, 18), (55, 18), (75, 40), (26, 16));
    assert(GT::spow_steps(GT(gt_of(24, 49)), GT(gt_of(55, 18)), 18) == GT::spow_steps(GT(gt_of(24, 49)), GT(gt_of(75, 40)), 9));
    lemma_gt_mul_at((24, 49), (75, 40), (42, 49), (-2, 26));
    lemma_gt_mul_at((75, 40), (75, 40), (86, 57), (39, 43));
    assert(GT::spow_steps(GT(gt_of(24, 49)), GT(gt_of(75, 40)), 9) == GT::spow_steps(GT(gt_of(42, 49)), GT(gt_of(86, 57)), 4));
    lemma_gt_mul_at((86, 57), (86, 57), (6, 91), (41, 64));
    assert(GT::spow_steps(GT(gt_of(42, 49)), GT(gt_of(86, 57)), 4) == GT::spow_steps(GT(gt_of(42, 49)), GT(gt_of(6, 91)), 2));
    lemma_gt_mul_at((6, 91), (6, 91), (37, 83), (-82, -72));
    assert(GT::spow_steps(GT(gt_of(42, 49)), GT(gt_of(6, 91)), 2) == GT::spow_steps(GT(gt_of(42, 49)), GT(gt_of(37, 83)), 1));
    lemma_gt_mul_at((42, 49), (37, 83), (12, 20), (-25, 12));
    lemma_gt_mul_at((37, 83), (37, 83), (35, 61), (-55, -8));
    assert(GT::spow_steps(GT(gt_of(42, 49)), GT(gt_of(37, 83)), 1) == GT::spow_steps(GT(gt_of(12, 20)), GT(gt_of(35, 61)), 0));
}

/// The pairing of `16G` with the point `19 P` of the image of `H`.
proof fn lemma_pairing_16_19()
    ensures
        smiller_loop(g1p(1, 99), dq(9, 96)) is Some,
        spairing_at(g1p(1, 99), dq(9, 96)) == GT(gt_of(12, 20)),
{
    lemma_final_exponent();
    lemma_tangent_16_19();
    lemma_tangent_15_19();
    lemma_tangent_13_19();
    lemma_tangent_9_19();
    lemma_vertical_at(1, 2, 99, 9, 96);
    lemma_miller_at(
        g1p(1, 99),
        dq(9, 96),
        (g1p(68, 27), g1p(65, 3), g1p(18, 52), g1p(1, 2)),
        (45, 56),
        (78, 38),
        (76, 73),
        (77, 68),
        (-1, 9),
        ((0, 86, -11, 18), (65, 6, -33, 34), (48, 37, 41, 7), (38, 80, 9, 35)),
        ((94, 84, -50, -4), (11, 78, 15, 70), (95, 26, -8, -7)),
    );
    lemma_final_exp_16_19();
}

proof fn lemma_final_exp_1_20()
    ensures
        GT(gt_of(2, 56)).spow(600) == GT(gt_of(14, 44)),
{
    assert(GT::sone() == GT(gt_of(1, 0)));
    lemma_gt_mul_at((2, 56), (2, 56), (100, 17), (-32, -29));
    assert(GT::spow_steps(GT(gt_of(1, 0)), GT(gt_of(2, 56)), 600) == GT::spow_steps(GT(gt_of(1, 0)), GT(gt_of(100, 17)), 300));
    lemma_gt_mul_at((100, 17), (100, 17), (15, 81), (96, 30));
    assert(GT::spow_steps(GT(gt_of(1, 0)), GT(gt_of(100, 17)), 300) == GT::spow_steps(GT(gt_of(1, 0)), GT(gt_of(15, 81)), 150));
    lemma_gt_mul_at((15, 81), (15, 81), (27, 10), (-63, -41));
    assert(GT::spow_steps(GT(gt_of(1, 0)), GT(gt_of(15, 81)), 150) == GT::spow_steps(GT(gt_of(1, 0)), GT(gt_of(27, 10)), 75));
    lemma_gt_mul_at((1, 0), (27, 10), (27, 10), (0, 0));
    lemma_gt_mul_at((27, 10), (27, 10), (23, 36), (6, 4));
    assert(GT::spow_steps(GT(gt_of(1, 0)), GT(gt_of(27, 10)), 75) == GT::spow_steps(GT(gt_of(27, 10)), GT(gt_of(23, 36)), 37));
    lemma_gt_mul_at((27, 10), (23, 36), (59, 34), (2, 8));
    lemma_gt_mul_at((23, 36), (23, 36), (41, 57), (-8, 3));
    assert(GT::spow_steps(GT(gt_of(27, 10)), GT(gt_of(23, 36)), 37) == GT::spow_steps(GT(gt_of(59, 34)), GT(gt_of(41, 57)), 18));
    lemma_gt_mul_at((41, 57), (41, 57), (48, 11), (-16, 14));
    assert(GT::spow_steps(GT(gt_of(59, 34)), GT(gt_of(41, 57)), 18) == GT::spow_steps(GT(gt_of(59, 34)), GT(gt_of(48, 11)), 9));
    lemma_gt_mul_at((59, 34), (48, 11), (34, 89), (24, 18));
    lemma_gt_mul_at((48, 11), (48, 11), (62, 26), (21, 9));
    assert(GT::spow_steps(GT(gt_of(59, 34)), GT(gt_of(48, 11)), 9) == GT::spow_steps(GT(gt_of(34, 89)), GT(gt_of(62, 26)), 4));
    lemma_gt_mul_at((62, 26), (62, 26), (37, 23), (31, 25));
    assert(GT::spow_steps(GT(gt_of(34, 89)), GT(gt_of(62, 26)), 4) == GT::spow_steps(GT(gt_of(34, 89)), GT(gt_of(37, 23)), 2));
    lemma_gt_mul_at((37, 23), (37, 23), (32, 62), (8, 11));
    assert(GT::spow_steps(GT(gt_of(34, 89)), GT(gt_of(37, 23)), 2) == GT::spow_steps(GT(gt_of(34, 89)), GT(gt_of(32, 62)), 1));
    lemma_gt_mul_at((34, 89), (32, 62), (14, 44), (-44, -6));
    lemma_gt_mul_at((32, 62), (32, 62), (8, 23), (-28, 1));
    assert(GT::spow_steps(GT(gt_of(34, 89)), GT(gt_of(32, 62)), 1) == GT::spow_steps(GT(gt_of(14, 44)), GT(gt_of(8, 23)), 0));
}

/// The pairing of `1G` with the point `20 P` of the image of `H`.
proof fn lemma_pairing_1_20()
    ensures
        smiller_loop(g1p(1, 2), dq(32, 59)) is Some,
        spairing_at(g1p(1, 2), dq(32, 59)) == GT(gt_of(14, 44)),
{
    lemma_final_exponent();
    lemma_tangent_1_20();
    lemma_tangent_2_20();
    lemma_tangent_4_20();
    lemma_tangent_8_20();
    lemma_vertical_at(1, 99, 2, 32, 59);
    lemma_miller_at(
        g1p(1, 2),
        dq(32, 59),
        (g1p(68, 74), g1p(65, 98), g1p(18, 49), g1p(1, 99)),
        (37, 4),
        (60, 4),
        (73, 36),
        (39, 45),
        (-1, 32),
        ((40, 78, 13, 2), (68, 84, 20, 44), (93, 25, -25, 43), (31, 31, 58, 42)),
        ((0, 52, 0, 9), (84, 92, -24, -4), (2, 56, -30, -4)),
    );
    lemma_final_exp_1_20();
}

proof fn lemma_final_exp_2_20()
    ensures
        GT(gt_of(43, 77)).spow(600) == GT(gt_of(78, 3)),
{
    assert(GT::sone() == GT(gt_of(1, 0)));
    lemma_gt_mul_at((43, 77), (43, 77), (61, 87), (-41, 6));
    assert(GT::spow_steps(GT(gt_of(1, 0)), GT(gt_of(43, 77)), 600) == GT::spow_steps(GT(gt_of(1, 0)), GT(gt_of(61, 87)), 300));
    lemma_gt_mul_at((61, 87), (61, 87), (91, 15), (-39, 30));
    assert(GT::spow_steps(GT(gt_of(1, 0)), GT(gt_of(61, 87)), 300) == GT::spow_steps(GT(gt_of(1, 0)), GT(gt_of(91, 15)), 150));
    lemma_gt_mul_at((91, 15), (91, 15), (77, 81), (79, 24));
    assert(GT::spow_steps(GT(gt_of(1, 0)), GT(gt_of(91, 15)), 150) == GT::spow_steps(GT(gt_of(1, 0)), GT(gt_of(77, 81)), 75));
    lemma_gt_mul_at((1, 0), (77, 81), (77, 81), (0, 0));
    lemma_gt_mul_at((77, 81), (77, 81), (75, 55), (-7, 58));
    assert(GT::spow_steps(GT(gt_of(1, 0)), GT(gt_of(77, 81)), 75) == GT::spow_steps(GT(gt_of(77, 81)), GT(gt_of(75, 55)), 37));
    lemma_gt_mul_at((77, 81), (75, 55), (7, 98), (13, 57));
    lemma_gt_mul_at((75, 55), (75, 55), (75, 74), (25, 51));
    assert(GT::spow_steps(GT(gt_of(77, 81)), GT(gt_of(75, 55)), 37) == GT::spow_steps(GT(gt_of(7, 98)), GT(gt_of(75, 74)), 18));
    lemma_gt_mul_at((75, 74), (75, 74), (48, 69), (1, 55));
    assert(GT::spow_steps(GT(gt_of(7, 98)), GT(gt_of(75, 74)), 18) == GT::spow_steps(GT(gt_of(7, 98)), GT(gt_of(48, 69)), 9));
    lemma_gt_mul_at((7, 98), (48, 69), (38, 41), (-64, -16));
    lemma_gt_mul_at((48, 69), (48, 69), (68, 45), (-25, 18));
    assert(GT::spow_steps(GT(gt_of(7, 98)), GT(gt_of(48, 69)), 9) == GT::spow_steps(GT(gt_of(38, 41)), GT(gt_of(68, 45)), 4));
    lemma_gt_mul_at((68, 45), (68, 45), (74, 55), (25, 40));
    assert(GT::spow_steps(GT(gt_of(38, 41)), GT(gt_of(68, 45)), 4) == GT::spow_steps(GT(gt_of(38, 41)), GT(gt_of(74, 55)), 2));
    lemma_gt_mul_at((74, 55), (74, 55), (27, 65), (24, 50));
    assert(GT::spow_steps(GT(gt_of(38, 41)), GT(gt_of(74, 55)), 2) == GT::spow_steps(GT(gt_of(38, 41)), GT(gt_of(27, 65)), 1));
    lemma_gt_mul_at((38, 41), (27, 65), (78, 3), (-17, 9));
    lemma_gt_mul_at((27, 65), (27, 65), (39, 93), (-35, -8));
    assert(GT::spow_steps(GT(gt_of(38, 41)), GT(gt_of(27, 65)), 1) == GT::spow_steps(GT(gt_of(78, 3)), GT(gt_of(39, 93)), 0));
}

/// The pairing of `2G` with the point `20 P` of the image of `H`.
proof fn lemma_pairing_2_20()
    ensures
        smiller_loop(g1p(68, 74), dq(32, 59)) is Some,
        spairing_at(g1p(68, 74), dq(32, 59)) == GT(gt_of(78, 3)),
{
    lemma_final_exponent();
    lemma_tangent_2_20();
    lemma_tangent_4_20();
    lemma_tangent_8_20();
    lemma_tangent_16_20();
    lemma_vertical_at(68, 27, 74, 32, 59);
    lemma_miller_at(
        g1p(68, 74),
        dq(32, 59),
        (g1p(65, 98), g1p(18, 49), g1p(1, 99), g1p(68, 27)),
        (60, 4),
        (73, 36),
        (39, 45),
        (88, 36),
        (-68, 32),
        ((49, 60, 35, 4), (3, 45, 14, 39), (4, 63, -20, -18), (48, 4, -27, -2)),
        ((66, 65, 22, 3), (34, 100, 34, 56), (43, 77, -55, -89)),
    );
    lemma_final_exp_2_20();
}

proof fn lemma_final_exp_3_20()
    ensures
        GT(gt_of(22, 100)).spow(600) == GT(gt_of(51, 9)),
{
    assert(GT::sone() == GT(gt_of(1, 0)));
    lemma_gt_mul_at((22, 100), (22, 100), (79, 56), (-95, -56));
    assert(GT::spow_steps(GT(gt_of(1, 0)), GT(gt_of(22, 100)), 600) == GT::spow_steps(GT(gt_of(1, 0)), GT(gt_of(79, 56)), 300));
    lemma_gt_mul_at((79, 56), (79, 56), (75, 56), (30, 56));
    assert(GT::spow_steps(GT(gt_of(1, 0)), GT(gt_of(79, 56)), 300) == GT::spow_steps(GT(gt_of(1, 0)), GT(gt_of(75, 56)), 150));
    lemma_gt_mul_at((75, 56), (75, 56), (65, 12), (24, 52));
    assert(GT::spow_steps(GT(gt_of(1, 0)), GT(gt_of(75, 56)), 150) == GT::spow_steps(GT(gt_of(1, 0)), GT(gt_of(65, 12)), 75));
    lemma_gt_mul_at((1, 0), (65, 12), (65, 12), (0, 0));
    lemma_gt_mul_at((65, 12), (65, 12), (41, 2), (40, 14));
    assert(GT::spow_steps(GT(gt_of(1, 0)), GT(gt_of(65, 12)), 75) == GT::spow_steps(GT(gt_of(65, 12)), GT(gt_of(41, 2)), 37));
    lemma_gt_mul_at((65, 12), (41, 2), (15, 93), (26, 5));
    lemma_gt_mul_at((41, 2), (41, 2), (61, 59), (16, 1));
    assert(GT::spow_steps(GT(gt_of(65, 12)), GT(gt_of(41, 2)), 37) == GT::spow_steps(GT(gt_of(15, 93)), GT(gt_of(61, 59)), 18));
    lemma_gt_mul_at((61, 59), (61, 59), (38, 81), (2, 36));
    assert(GT::spow_steps(GT(gt_of(15, 93)), GT(gt_of(61, 59)), 18) == GT::spow_steps(GT(gt_of(15, 93)), GT(gt_of(38, 81)), 9));
    lemma_gt_mul_at((15, 93), (38, 81), (6, 44), (-69, -28));
    lemma_gt_mul_at((38, 81), (38, 81), (34, 100), (-51, -5));
    assert(GT::spow_steps(GT(gt_of(15, 93)), GT(gt_of(38, 81)), 9) == GT::spow_steps(GT(gt_of(6, 44)), GT(gt_of(34, 100)), 4));
    lemma_gt_mul_at((34, 100), (34, 100), (44, 32), (-88, -32));
    assert(GT::spow_steps(GT(gt_of(6, 44)), GT(gt_of(34, 100)), 4) == GT::spow_steps(GT(gt_of(6, 44)), GT(gt_of(44, 32)), 2));
    lemma_gt_mul_at((44, 32), (44, 32), (3, 75), (9, 17));
    assert(GT::spow_steps(GT(gt_of(6, 44)), GT(gt_of(44, 32)), 2) == GT::spow_steps(GT(gt_of(6, 44)), GT(gt_of(3, 75)), 1));
    lemma_gt_mul_at((6, 44), (3, 75), (51, 9), (-33, -27));
    lemma_gt_mul_at((3, 75), (3, 75), (40, 77), (-56, -52));
    assert(GT::spow_steps(GT(gt_of(6, 44)), GT(gt_of(3, 75)), 1) == GT::spow_steps(GT(gt_of(51, 9)), GT(gt_of(40, 77)), 0));
}

/// The pairing of `3G` with the point `20 P` of the image of `H`.
proof fn lemma_pairing_3_20()
    ensures
        smiller_loop(g1p(26, 45), dq(32, 59)) is Some,
        spairing_at(g1p(26, 45), dq(32, 59)) == GT(gt_of(51, 9)),
{
    lemma_final_exponent();
    lemma_tangent_3_20();
    lemma_tangent_6_20();
    lemma_tangent_12_20();
    lemma_tangent_7_20();
    lemma_vertical_at(26, 56, 45, 32, 59);
    lemma_miller_at(
        g1p(26, 45),
        dq(32, 59),
        (g1p(32, 42), g1p(12, 69), g1p(91, 35), g1p(26, 56)),
        (65, 0),
        (37, 64),
        (44, 45),
        (24, 37),
        (-26, 32),
        ((84, 0, 41, 0), (78, 23, 30, 53), (0, 29, 55, 30), (8, 72, -13, -1)),
        ((31, 8, -51, -40), (44, 33, 4, 10), (22, 100, -22, -6)),
    );
    lemma_final_exp_3_20();
}

proof fn lemma_final_exp_4_20()
    ensures
        GT(gt_of(87, 95)).spow(600) == GT(gt_of(15, 55)),
{
    assert(GT::sone() == GT(gt_of(1, 0)));
    lemma_gt_mul_at((87, 95), (87, 95), (59, 31), (-15, 74));
    assert(GT::spow_steps(GT(gt_of(1, 0)), GT(gt_of(87, 95)), 600) == GT::spow_steps(GT(gt_of(1, 0)), GT(gt_of(59, 31)), 300));
    lemma_gt_mul_at((59, 31), (59, 31), (96, 71), (24, 26));
    assert(GT::spow_steps(GT(gt_of(1, 0)), GT(gt_of(59, 31)), 300) == GT::spow_steps(GT(gt_of(1, 0)), GT(gt_of(96, 71)), 150));
    lemma_gt_mul_at((96, 71), (96, 71), (34, 6), (41, 85));
    assert(GT::spow_steps(GT(gt_of(1, 0)), GT(gt_of(96, 71)), 150) == GT::spow_steps(GT(gt_of(1, 0)), GT(gt_of(34, 6)), 75));
    lemma_gt_mul_at((1, 0), (34, 6), (34, 6), (0, 0));
    lemma_gt_mul_at((34, 6), (34, 6), (9, 69), (11, 3));
    assert(GT::spow_steps(GT(gt_of(1, 0)), GT(gt_of(34, 6)), 75) == GT::spow_steps(GT(gt_of(34, 6)), GT(gt_of(9, 69)), 37));
    lemma_gt_mul_at((34, 6), (9, 69), (94, 67), (-2, 19));
    lemma_gt_mul_at((9, 69), (9, 69), (67, 16), (-47, -35));
    assert(GT::spow_steps(GT(gt_of(34, 6)), GT(gt_of(9, 69)), 37) == GT::spow_steps(GT(gt_of(94, 67)), GT(gt_of(67, 16)), 18));
    lemma_gt_mul_at((67, 16), (67, 16), (92, 70), (41, 18));
    assert(GT::spow_steps(GT(gt_of(94, 67)), GT(gt_of(67, 16)), 18) == GT::spow_steps(GT(gt_of(94, 67)), GT(gt_of(92, 70)), 9));
    lemma_gt_mul_at((94, 67), (92, 70), (19, 75), (39, 79));
    lemma_gt_mul_at((92, 70), (92, 70), (29, 1), (35, 79));
    assert(GT::spow_steps(GT(gt_of(94, 67)), GT(gt_of(92, 70)), 9) == GT::spow_steps(GT(gt_of(19, 75)), GT(gt_of(29, 1)), 4));
    lemma_gt_mul_at((29, 1), (29, 1), (32, 57), (8, 0));
    assert(GT::spow_steps(GT(gt_of(19, 75)), GT(gt_of(29, 1)), 4) == GT::spow_steps(GT(gt_of(19, 75)), GT(gt_of(32, 57)), 2));
    lemma_gt_mul_at((32, 57), (32, 57), (98, 96), (-23, 3));
    assert(GT::spow_steps(GT(gt_of(19, 75)), GT(gt_of(32, 57)), 2) == GT::spow_steps(GT(gt_of(19, 75)), GT(gt_of(98, 96)), 1));
    lemma_gt_mul_at((19, 75), (98, 96), (15, 55), (-53, 19));
    lemma_gt_mul_at((98, 96), (98, 96), (85, 5), (3, 95));
    assert(GT::spow_steps(GT(gt_of(19, 75)), GT(gt_of(98, 96)), 1) == GT::spow_steps(GT(gt_of(15, 55)), GT(gt_of(85, 5)), 0));
}

/// The pairing of `4G` with the point `20 P` of the image of `H`.
proof fn lemma_pairing_4_20()
    ensures
        smiller_loop(g1p(65, 98), dq(32, 59)) is Some,
        spairing_at(g1p(65, 98), dq(32, 59)) == GT(gt_of(15, 55)),
{
    lemma_final_exponent();
    lemma_tangent_4_20();
    lemma_tangent_8_20();
    lemma_tangent_16_20();
    lemma_tangent_15_20();
    lemma_vertical_at(65, 3, 98, 32, 59);
    lemma_miller_at(
        g1p(65, 98),
        dq(32, 59),
        (g1p(18, 49), g1p(1, 99), g1p(68, 27), g1p(65, 3)),
        (73, 36),
        (39, 45),
        (88, 36),
        (67, 91),
        (-65, 32),
        ((94, 21, 39, 39), (95, 64, 26, 40), (81, 85, 48, 79), (28, 64, 40, 72)),
        ((21, 94, -33, -6), (24, 59, -71, -4), (87, 95, -35, -50)),
    );
    lemma_final_exp_4_20();
}

proof fn lemma_final_exp_5_20()
    ensures
        GT(gt_of(58, 17)).spow(600) == GT(gt_of(12, 20)),
{
    assert(GT::sone() == GT(gt_of(1, 0)));
    lemma_gt_mul_at((58, 17), (58, 17), (45, 67), (30, 16));
    assert(GT::spow_steps(GT(gt_of(1, 0)), GT(gt_of(58, 17)), 600) == GT::spow_steps(GT(gt_of(1, 0)), GT(gt_of(45, 67)), 300));
    lemma_gt_mul_at((45, 67), (45, 67), (61, 26), (-25, 15));
    assert(GT::spow_steps(GT(gt_of(1, 0)), GT(gt_of(45, 67)), 300) == GT::spow_steps(GT(gt_of(1, 0)), GT(gt_of(61, 26)), 150));
    lemma_gt_mul_at((61, 26), (61, 26), (15, 72), (30, 24));
    assert(GT::spow_steps(GT(gt_of(1, 0)), GT(gt_of(61, 26)), 150) == GT::spow_steps(GT(gt_of(1, 0)), GT(gt_of(15, 72)), 75));
    lemma_gt_mul_at((1, 0), (15, 72), (15, 72), (0, 0));
    lemma_gt_mul_at((15, 72), (15, 72), (91, 6), (-50, -30));
    assert(GT::spow_steps(GT(gt_of(1, 0)), GT(gt_of(15, 72)), 75) == GT::spow_steps(GT(gt_of(15, 72)), GT(gt_of(91, 6)), 37));
    lemma_gt_mul_at((15, 72), (91, 6), (24, 49), (9, 61));
    lemma_gt_mul_at((91, 6), (91, 6), (64, 46), (81, 10));
    assert(GT::spow_steps(GT(gt_of(15, 72)), GT(gt_of(91, 6)), 37) == GT::spow_steps(GT(gt_of(24, 49)), GT(gt_of(64, 46)), 18));
    lemma_gt_mul_at((64, 46), (64, 46), (61, 35), (19, 37));
    assert(GT::spow_steps(GT(gt_of(24, 49)), GT(gt_of(64, 46)), 18) == GT::spow_steps(GT(gt_of(24, 49)), GT(gt_of(61, 35)), 9));
    lemma_gt_mul_at((24, 49), (61, 35), (52, 94), (-3, 20));
    lemma_gt_mul_at((61, 35), (61, 35), (72, 15), (24, 30));
    assert(GT::spow_steps(GT(gt_of(24, 49)), GT(gt_of(61, 35)), 9) == GT::spow_steps(GT(gt_of(52, 94)), GT(gt_of(72, 15)), 4));
    lemma_gt_mul_at((72, 15), (72, 15), (10, 16), (49, 19));
    assert(GT::spow_steps(GT(gt_of(52, 94)), GT(gt_of(72, 15)), 4) == GT::spow_steps(GT(gt_of(52, 94)), GT(gt_of(10, 16)), 2));
    lemma_gt_mul_at((10, 16), (10, 16), (46, 64), (-2, 0));
    assert(GT::spow_steps(GT(gt_of(52, 94)), GT(gt_of(10, 16)), 2) == GT::spow_steps(GT(gt_of(52, 94)), GT(gt_of(46, 64)), 1));
    lemma_gt_mul_at((52, 94), (46, 64), (12, 20), (-36, 16));
    lemma_gt_mul_at((46, 64), (46, 64), (40, 75), (-20, 17));
    assert(GT::spow_steps(GT(gt_of(52, 94)), GT(gt_of(46, 64)), 1) == GT::spow_steps(GT(gt_of(12, 20)), GT(gt_of(40, 75)), 0));
}

/// The pairing of `5G` with the point `20 P` of the image of `H`.
proof fn lemma_pairing_5_20()
    ensures
        smiller_loop(g1p(12, 32), dq(32, 59)) is Some,
        spairing_at(g1p(12, 32), dq(32, 59)) == GT(gt_of(12, 20)),
{
    lemma_final_exponent();
    lemma_tangent_5_20();
    lemma_tangent_10_20();
    lemma_tangent_3_20();
    lemma_tangent_6_20();
    lemma_vertical_at(12, 69, 32, 32, 59);
    lemma_miller_at(
        g1p(12, 32),
        dq(32, 59),
        (g1p(91, 66), g1p(26, 45), g1p(32, 42), g1p(12, 69)),
        (100, 91),
        (66, 44),
        (65, 0),
        (37, 64),
        (-12, 32),
        ((2, 21, 17, 98), (16, 45, -8, 5), (49, 21, -18, -6), (54, 52, 31, 13)),
        ((10, 84, 2, 28), (44, 89, -50, -17), (58, 17, -34, -25)),
    );
    lemma_final_exp_5_20();
}

proof fn lemma_final_exp_6_20()
    ensures
        GT(gt_of(70, 33)).spow(600) == GT(gt_of(96, 29)),
{
    assert(GT::sone() == GT(gt_of(1, 0)));
    lemma_gt_mul_at((70, 33), (70, 33), (74, 97), (37, 34));
    assert(GT::spow_steps(GT(gt_of(1, 0)), GT(gt_of(70, 33)), 600) == GT::spow_steps(GT(gt_of(1, 0)), GT(gt_of(74, 97)), 300));
    lemma_gt_mul_at((74, 97), (74, 97), (6, 99), (-39, 48));
    assert(GT::spow_steps(GT(gt_of(1, 0)), GT(gt_of(74, 97)), 300) == GT::spow_steps(GT(gt_of(1, 0)), GT(gt_of(6, 99)), 150));
    lemma_gt_mul_at((6, 99), (6, 99), (32, 73), (-97, -86));
    assert(GT::spow_steps(GT(gt_of(1, 0)), GT(gt_of(6, 99)), 150) == GT::spow_steps(GT(gt_of(1, 0)), GT(gt_of(32, 73)), 75));
    lemma_gt_mul_at((1, 0), (32, 73), (32, 73), (0, 0));
    lemma_gt_mul_at((32, 73), (32, 73), (38, 50), (-43, -7));
    assert(GT::spow_steps(GT(gt_of(1, 0)), GT(gt_of(32, 73)), 75) == GT::spow_steps(GT(gt_of(32, 73)), GT(gt_of(38, 50)), 37));
    lemma_gt_mul_at((32, 73), (38, 50), (91, 17), (-25, 7));
    lemma_gt_mul_at((38, 50), (38, 50), (55, 88), (-11, 12));
    assert(GT::spow_steps(GT(gt_of(32, 73)), GT(gt_of(38, 50)), 37) == GT::spow_steps(GT(gt_of(91, 17)), GT(gt_of(55, 88)), 18));
    lemma_gt_mul_at((55, 88), (55, 88), (28, 17), (-47, 19));
    assert(GT::spow_steps(GT(gt_of(91, 17)), GT(gt_of(55, 88)), 18) == GT::spow_steps(GT(gt_of(91, 17)), GT(gt_of(28, 17)), 9));
    lemma_gt_mul_at((91, 17), (28, 17), (37, 17), (22, 17));
    lemma_gt_mul_at((28, 17), (28, 17), (91, 57), (4, 6));
    assert(GT::spow_steps(GT(gt_of(91, 17)), GT(gt_of(28, 17)), 9) == GT::spow_steps(GT(gt_of(37, 17)), GT(gt_of(91, 57)), 4));
    lemma_gt_mul_at((91, 57), (91, 57), (83, 55), (49, 70));
    assert(GT::spow_steps(GT(gt_of(37, 17)), GT(gt_of(91, 57)), 4) == GT::spow_steps(GT(gt_of(37, 17)), GT(gt_of(83, 55)), 2));
    lemma_gt_mul_at((83, 55), (83, 55), (26, 45), (38, 60));
    assert(GT::spow_steps(GT(gt_of(37, 17)), GT(gt_of(83, 55)), 2) == GT::spow_steps(GT(gt_of(37, 17)), GT(gt_of(26, 45)), 1));
    lemma_gt_mul_at((37, 17), (26, 45), (96, 29), (1, 13));
    lemma_gt_mul_at((26, 45), (26, 45), (65, 12), (-14, 3));
    assert(GT::spow_steps(GT(gt_of(37, 17)), GT(gt_of(26, 45)), 1) == GT::spow_steps(GT(gt_of(96, 29)), GT(gt_of(65, 12)), 0));
}

/// The pairing of `6G` with the point `20 P` of the image of `H`.
proof fn lemma_pairing_6_20()
    ensures
        smiller_loop(g1p(32, 42), dq(32, 59)) is Some,
        spairing_at(g1p(32, 42), dq(32, 59)) == GT(gt_of(96, 29)),
{
    lemma_final_exponent();
    lemma_tangent_6_20();
    lemma_tangent_12_20();
    lemma_tangent_7_20();
    lemma_tangent_14_20();
    lemma_vertical_at(32, 59, 42, 32, 59);
    lemma_miller_at(
        g1p(32, 42),
        dq(32, 59),
        (g1p(12, 69), g1p(91, 35), g1p(26, 56), g1p(32, 59)),
        (37, 64),
        (44, 45),
        (24, 37),
        (63, 64),
        (-32, 32),
        ((0, 34, -27, 6), (86, 67, -16, -1), (79, 66, 28, 69), (60, 45, -6, 20)),
        ((60, 42, 15, 33), (82, 61, 10, 37), (70, 33, -46, -13)),
    );
    lemma_final_exp_6_20();
}

proof fn lemma_final_exp_7_20()
    ensures
        GT(gt_of(20, 49)).spow(600) == GT(gt_of(68, 21)),
{
    assert(GT::sone() == GT(gt_of(1, 0)));
    lemma_gt_mul_at((20, 49), (20, 49), (19, 64), (-20, -5));
    assert(GT::spow_steps(GT(gt_of(1, 0)), GT(gt_of(20, 49)), 600) == GT::spow_steps(GT(gt_of(1, 0)), GT(gt_of(19, 64)), 300));
    lemma_gt_mul_at((19, 64), (19, 64), (2, 53), (-37, -17));
    assert(GT::spow_steps(GT(gt_of(1, 0)), GT(gt_of(19, 64)), 300) == GT::spow_steps(GT(gt_of(1, 0)), GT(gt_of(2, 53)), 150));
    lemma_gt_mul_at((2, 53), (2, 53), (23, 29), (-28, -26));
    assert(GT::spow_steps(GT(gt_of(1, 0)), GT(gt_of(2, 53)), 150) == GT::spow_steps(GT(gt_of(1, 0)), GT(gt_of(23, 29)), 75));
    lemma_gt_mul_at((1, 0), (23, 29), (23, 29), (0, 0));
    lemma_gt_mul_at((23, 29), (23, 29), (92, 89), (-4, 4));
    assert(GT::spow_steps(GT(gt_of(1, 0)), GT(gt_of(23, 29)), 75) == GT::spow_steps(GT(gt_of(23, 29)), GT(gt_of(92, 89)), 37));
    lemma_gt_mul_at((23, 29), (92, 89), (40, 13), (-5, 21));
    lemma_gt_mul_at((92, 89), (92, 89), (38, 72), (5, 83));
    assert(GT::spow_steps(GT(gt_of(23, 29)), GT(gt_of(92, 89)), 37) == GT::spow_steps(GT(gt_of(40, 13)), GT(gt_of(38, 72)), 18));
    lemma_gt_mul_at((38, 72), (38, 72), (98, 86), (-38, 2));
    assert(GT::spow_steps(GT(gt_of(40, 13)), GT(gt_of(38, 72)), 18) == GT::spow_steps(GT(gt_of(40, 13)), GT(gt_of(98, 86)), 9));
    lemma_gt_mul_at((40, 13), (98, 86), (75, 61), (27, 35));
    lemma_gt_mul_at((98, 86), (98, 86), (87, 67), (21, 93));
    assert(GT::spow_steps(GT(gt_of(40, 13)), GT(gt_of(98, 86)), 9) == GT::spow_steps(GT(gt_of(75, 61)), GT(gt_of(87, 67)), 4));
    lemma_gt_mul_at((87, 67), (87, 67), (50, 99), (30, 70));
    assert(GT::spow_steps(GT(gt_of(75, 61)), GT(gt_of(87, 67)), 4) == GT::spow_steps(GT(gt_of(75, 61)), GT(gt_of(50, 99)), 2));
    lemma_gt_mul_at((50, 99), (50, 99), (72, 99), (-73, 0));
    assert(GT::spow_steps(GT(gt_of(75, 61)), GT(gt_of(50, 99)), 2) == GT::spow_steps(GT(gt_of(75, 61)), GT(gt_of(72, 99)), 1));
    lemma_gt_mul_at((75, 61), (72, 99), (68, 21), (-7, 57));
    lemma_gt_mul_at((72, 99), (72, 99), (29, 11), (-46, 44));
    assert(GT::spow_steps(GT(gt_of(75, 61)), GT(gt_of(72, 99)), 1) == GT::spow_steps(GT(gt_of(68, 21)), GT(gt_of(29, 11)), 0));
}

/// The pairing of `7G` with the point `20 P` of the image of `H`.
proof fn lemma_pairing_7_20()
    ensures
        smiller_loop(g1p(91, 35), dq(32, 59)) is Some,
        spairing_at(g1p(91, 35), dq(32, 59)) == GT(gt_of(68, 21)),
{
    lemma_final_exponent();
    lemma_tangent_7_20();
    lemma_tangent_14_20();
    lemma_tangent_11_20();
    lemma_tangent_5_20();
    lemma_vertical_at(91, 66, 35, 32, 59);
    lemma_miller_at(
        g1p(91, 35),
        dq(32, 59),
        (g1p(26, 56), g1p(32, 59), g1p(12, 32), g1p(91, 66)),
        (24, 37),
        (63, 64),
        (82, 96),
        (100, 91),
        (-91, 32),
        ((15, 3, -8, 4), (46, 48, 7, 9), (14, 92, -2, 20), (93, 56, -77, 0)),
        ((59, 8, 54, 72), (21, 88, 51, 53), (20, 49, -47, -101)),
    );
    lemma_final_exp_7_20();
}

proof fn lemma_final_exp_8_20()
    ensures
        GT(gt_of(4, 42)).spow(600) == GT(gt_of(28, 39)),
{
    assert(GT::sone() == GT(gt_of(1, 0)));
    lemma_gt_mul_at((4, 42), (4, 42), (70, 87), (-18, -15));
    assert(GT::spow_steps(GT(gt_of(1, 0)), GT(gt_of(4, 42)), 600) == GT::spow_steps(GT(gt_of(1, 0)), GT(gt_of(70, 87)), 300));
    lemma_gt_mul_at((70, 87), (70, 87), (58, 66), (-27, 45));
    assert(GT::spow_steps(GT(gt_of(1, 0)), GT(gt_of(70, 87)), 300) == GT::spow_steps(GT(gt_of(1, 0)), GT(gt_of(58, 66)), 150));
    lemma_gt_mul_at((58, 66), (58, 66), (18, 68), (-10, 32));
    assert(GT::spow_steps(GT(gt_of(1, 0)), GT(gt_of(58, 66)), 150) == GT::spow_steps(GT(gt_of(1, 0)), GT(gt_of(18, 68)), 75));
    lemma_gt_mul_at((1, 0), (18, 68), (18, 68), (0, 0));
    lemma_gt_mul_at((18, 68), (18, 68), (43, 46), (-43, -22));
    assert(GT::spow_steps(GT(gt_of(1, 0)), GT(gt_of(18, 68)), 75) == GT::spow_steps(GT(gt_of(18, 68)), GT(gt_of(43, 46)), 37));
    lemma_gt_mul_at((18, 68), (43, 46), (70, 18), (-24, 6));
    lemma_gt_mul_at((43, 46), (43, 46), (36, 22), (-3, 18));
    assert(GT::spow_steps(GT(gt_of(18, 68)), GT(gt_of(43, 46)), 37) == GT::spow_steps(GT(gt_of(70, 18)), GT(gt_of(36, 22)), 18));
    lemma_gt_mul_at((36, 22), (36, 22), (4, 90), (8, 10));
    assert(GT::spow_steps(GT(gt_of(70, 18)), GT(gt_of(36, 22)), 18) == GT::spow_steps(GT(gt_of(70, 18)), GT(gt_of(4, 90)), 9));
    lemma_gt_mul_at((70, 18), (4, 90), (74, 5), (-14, 47));
    lemma_gt_mul_at((4, 90), (4, 90), (97, 94), (-81, -74));
    assert(GT::spow_steps(GT(gt_of(70, 18)), GT(gt_of(4, 90)), 9) == GT::spow_steps(GT(gt_of(74, 5)), GT(gt_of(97, 94)), 4));
    lemma_gt_mul_at((97, 94), (97, 94), (68, 7), (5, 93));
    assert(GT::spow_steps(GT(gt_of(74, 5)), GT(gt_of(97, 94)), 4) == GT::spow_steps(GT(gt_of(74, 5)), GT(gt_of(68, 7)), 2));
    lemma_gt_mul_at((68, 7), (68, 7), (30, 95), (45, 8));
    assert(GT::spow_steps(GT(gt_of(74, 5)), GT(gt_of(68, 7)), 2) == GT::spow_steps(GT(gt_of(74, 5)), GT(gt_of(30, 95)), 1));
    lemma_gt_mul_at((74, 5), (30, 95), (28, 39), (17, 66));
    lemma_gt_mul_at((30, 95), (30, 95), (56, 8), (-81, -33));
    assert(GT::spow_steps(GT(gt_of(74, 5)), GT(gt_of(30, 95)), 1) == GT::spow_steps(GT(gt_of(28, 39)), GT(gt_of(56, 8)), 0));
}

/// The pairing of `8G` with the point `20 P` of the image of `H`.
proof fn lemma_pairing_8_20()
    ensures
        smiller_loop(g1p(18, 49), dq(32, 59)) is Some,
        spairing_at(g1p(18, 49), dq(32, 59)) == GT(gt_of(28, 39)),
{
    lemma_final_exponent();
    lemma_tangent_8_20();
    lemma_tangent_16_20();
    lemma_tangent_15_20();
    lemma_tangent_13_20();
    lemma_vertical_at(18, 52, 49, 32, 59);
    lemma_miller_at(
        g1p(18, 49),
        dq(32, 59),
        (g1p(1, 99), g1p(68, 27), g1p(65, 3), g1p(18, 52)),
        (39, 45),
        (88, 36),
        (67, 91),
        (60, 37),
        (-18, 32),
        ((1, 71, -5, 14), (57, 92, -25, 36), (37, 4, -52, 20), (95, 39, 20, 32)),
        ((30, 31, 74, 58), (47, 5, 6, 18), (4, 42, -10, 12)),
    );
    lemma_final_exp_8_20();
}

proof fn lemma_final_exp_9_20()
    ensures
        GT(gt_of(67, 16)).spow(600) == GT(gt_of(90, 62)),
{
    assert(GT::sone() == GT(gt_of(1, 0)));
    lemma_gt_mul_at((67, 16), (67, 16), (92, 70), (41, 18));
    assert(GT::spow_steps(GT(gt_of(1, 0)), GT(gt_of(67, 16)), 600) == GT::spow_steps(GT(gt_of(1, 0)), GT(gt_of(92, 70)), 300));
    lemma_gt_mul_at((92, 70), (92, 70), (29, 1), (35, 79));
    assert(GT::spow_steps(GT(gt_of(1, 0)), GT(gt_of(92, 70)), 300) == GT::spow_steps(GT(gt_of(1, 0)), GT(gt_of(29, 1)), 150));
    lemma_gt_mul_at((29, 1), (29, 1), (32, 57), (8, 0));
    assert(GT::spow_steps(GT(gt_of(1, 0)), GT(gt_of(29, 1)), 150) == GT::spow_steps(GT(gt_of(1, 0)), GT(gt_of(32, 57)), 75));
    lemma_gt_mul_at((1, 0), (32, 57), (32, 57), (0, 0));
    lemma_gt_mul_at((32, 57), (32, 57), (98, 96), (-23, 3));
    assert(GT::spow_steps(GT(gt_of(1, 0)), GT(gt_of(32, 57)), 75) == GT::spow_steps(GT(gt_of(32, 57)), GT(gt_of(98, 96)), 37));
    lemma_gt_mul_at((32, 57), (98, 96), (88, 55), (-24, 31));
    lemma_gt_mul_at((98, 96), (98, 96), (85, 5), (3, 95));
    assert(GT::spow_steps(GT(gt_of(32, 57)), GT(gt_of(98, 96)), 37) == GT::spow_steps(GT(gt_of(88, 55)), GT(gt_of(85, 5)), 18));
    lemma_gt_mul_at((85, 5), (85, 5), (29, 17), (71, 8));
    assert(GT::spow_steps(GT(gt_of(88, 55)), GT(gt_of(85, 5)), 18) == GT::spow_steps(GT(gt_of(88, 55)), GT(gt_of(29, 17)), 9));
    lemma_gt_mul_at((88, 55), (29, 17), (1, 35), (16, 21));
    lemma_gt_mul_at((29, 17), (29, 17), (47, 91), (5, 6));
    assert(GT::spow_steps(GT(gt_of(88, 55)), GT(gt_of(29, 17)), 9) == GT::spow_steps(GT(gt_of(1, 35)), GT(gt_of(47, 91)), 4));
    lemma_gt_mul_at((47, 91), (47, 91), (89, 71), (-61, 2));
    assert(GT::spow_steps(GT(gt_of(1, 35)), GT(gt_of(47, 91)), 4) == GT::spow_steps(GT(gt_of(1, 35)), GT(gt_of(89, 71)), 2));
    lemma_gt_mul_at((89, 71), (89, 71), (52, 22), (28, 75));
    assert(GT::spow_steps(GT(gt_of(1, 35)), GT(gt_of(89, 71)), 2) == GT::spow_steps(GT(gt_of(1, 35)), GT(gt_of(52, 22)), 1));
    lemma_gt_mul_at((1, 35), (52, 22), (90, 62), (-8, 10));
    lemma_gt_mul_at((52, 22), (52, 22), (99, 87), (21, 17));
    assert(GT::spow_steps(GT(gt_of(1, 35)), GT(gt_of(52, 22)), 1) == GT::spow_steps(GT(gt_of(90, 62)), GT(gt_of(99, 87)), 0));
}

/// The pairing of `9G` with the point `20 P` of the image of `H`.
proof fn lemma_pairing_9_20()
    ensures
        smiller_loop(g1p(18, 52), dq(32, 59)) is Some,
        spairing_at(g1p(18, 52), dq(32, 59)) == GT(gt_of(90, 62)),
{
    lemma_final_exponent();
    lemma_tangent_9_20();
    lemma_tangent_1_20();
    lemma_tangent_2_20();
    lemma_tangent_4_20();
    lemma_vertical_at(18, 49, 52, 32, 59);
    lemma_miller_at(
        g1p(18, 52),
        dq(32, 59),
        (g1p(1, 2), g1p(68, 74), g1p(65, 98), g1p(18, 49)),
        (78, 96),
        (37, 4),
        (60, 4),
        (73, 36),
        (-18, 32),
        ((100, 3, -32, 57), (52, 95, 36, 4), (42, 47, -63, 8), (9, 73, 23, 27)),
        ((4, 25, -52, -40), (99, 59, -7, 10), (67, 16, -37, 2)),
    );
    lemma_final_exp_9_20();
}

proof fn lemma_final_exp_10_20()
    ensures
        GT(gt_of(72, 50)).spow(600) == GT(gt_of(47, 80)),
{
    assert(GT::sone() == GT(gt_of(1, 0)));
    lemma_gt_mul_at((72, 50), (72, 50), (58, 54), (26, 46));
    assert(GT::spow_steps(GT(gt_of(1, 0)), GT(gt_of(72, 50)), 600) == GT::spow_steps(GT(gt_of(1, 0)), GT(gt_of(58, 54)), 300));
    lemma_gt_mul_at((58, 54), (58, 54), (44, 15), (4, 33));
    assert(GT::spow_steps(GT(gt_of(1, 0)), GT(gt_of(58, 54)), 300) == GT::spow_steps(GT(gt_of(1, 0)), GT(gt_of(44, 15)), 150));
    lemma_gt_mul_at((44, 15), (44, 15), (95, 85), (16, 10));
    assert(GT::spow_steps(GT(gt_of(1, 0)), GT(gt_of(44, 15)), 150) == GT::spow_steps(GT(gt_of(1, 0)), GT(gt_of(95, 85)), 75));
    lemma_gt_mul_at((1, 0), (95, 85), (95, 85), (0, 0));
    lemma_gt_mul_at((95, 85), (95, 85), (83, 37), (17, 88));
    assert(GT::spow_steps(GT(gt_of(1, 0)), GT(gt_of(95, 85)), 75) == GT::spow_steps(GT(gt_of(95, 85)), GT(gt_of(83, 37)), 37));
    lemma_gt_mul_at((95, 85), (83, 37), (94, 52), (46, 73));
    lemma_gt_mul_at((83, 37), (83, 37), (66, 26), (54, 47));
    assert(GT::spow_steps(GT(gt_of(95, 85)), GT(gt_of(83, 37)), 37) == GT::spow_steps(GT(gt_of(94, 52)), GT(gt_of(66, 26)), 18));
    lemma_gt_mul_at((66, 26), (66, 26), (44, 29), (36, 27));
    assert(GT::spow_steps(GT(gt_of(94, 52)), GT(gt_of(66, 26)), 18) == GT::spow_steps(GT(gt_of(94, 52)), GT(gt_of(44, 29)), 9));
    lemma_gt_mul_at((94, 52), (44, 29), (2, 72), (26, 34));
    lemma_gt_mul_at((44, 29), (44, 29), (85, 95), (10, 16));
    assert(GT::spow_steps(GT(gt_of(94, 52)), GT(gt_of(44, 29)), 9) == GT::spow_steps(GT(gt_of(2, 72)), GT(gt_of(85, 95)), 4));
    lemma_gt_mul_at((85, 95), (85, 95), (18, 55), (-18, 70));
    assert(GT::spow_steps(GT(gt_of(2, 72)), GT(gt_of(85, 95)), 4) == GT::spow_steps(GT(gt_of(2, 72)), GT(gt_of(18, 55)), 2));
    lemma_gt_mul_at((18, 55), (18, 55), (26, 66), (-27, -11));
    assert(GT::spow_steps(GT(gt_of(2, 72)), GT(gt_of(18, 55)), 2) == GT::spow_steps(GT(gt_of(2, 72)), GT(gt_of(26, 66)), 1));
    lemma_gt_mul_at((2, 72), (26, 66), (47, 80), (-47, -28));
    lemma_gt_mul_at((26, 66), (26, 66), (57, 86), (-37, -10));
    assert(GT::spow_steps(GT(gt_of(2, 72)), GT(gt_of(26, 66)), 1) == GT::spow_steps(GT(gt_of(47, 80)), GT(gt_of(57, 86)), 0));
}

/// The pairing of `10G` with the point `20 P` of the image of `H`.
proof fn lemma_pairing_10_20()
    ensures
        smiller_loop(g1p(91, 66), dq(32, 59)) is Some,
        spairing_at(g1p(91, 66), dq(32, 59)) == GT(gt_of(47, 80)),
{
    lemma_final_exponent();
    lemma_tangent_10_20();
    lemma_tangent_3_20();
    lemma_tangent_6_20();
    lemma_tangent_12_20();
    lemma_vertical_at(91, 35, 66, 32, 59);
    lemma_miller_at(
        g1p(91, 66),
        dq(32, 59),
        (g1p(26, 45), g1p(32, 42), g1p(12, 69), g1p(91, 35)),
        (66, 44),
        (65, 0),
        (37, 64),
        (44, 45),
        (-91, 32),
        ((97, 34, 23, 38), (43, 89, 62, 21), (89, 36, -61, -3), (80, 78, 9, 46)),
        ((13, 33, 3, 63), (97, 47, -10, 5), (72, 50, -103, -27)),
    );
    lemma_final_exp_10_20();
}

proof fn lemma_final_exp_11_20()
    ensures
        GT(gt_of(57, 38)).spow(600) == GT(gt_of(67, 72)),
{
    assert(GT::sone() == GT(gt_of(1, 0)));
    lemma_gt_mul_at((57, 38), (57, 38), (88, 60), (17, 28));
    assert(GT::spow_steps(GT(gt_of(1, 0)), GT(gt_of(57, 38)), 600) == GT::spow_steps(GT(gt_of(1, 0)), GT(gt_of(88, 60)), 300));
    lemma_gt_mul_at((88, 60), (88, 60), (3, 92), (41, 68));
    assert(GT::spow_steps(GT(gt_of(1, 0)), GT(gt_of(88, 60)), 300) == GT::spow_steps(GT(gt_of(1, 0)), GT(gt_of(3, 92)), 150));
    lemma_gt_mul_at((3, 92), (3, 92), (29, 67), (-84, -79));
    assert(GT::spow_steps(GT(gt_of(1, 0)), GT(gt_of(3, 92)), 150) == GT::spow_steps(GT(gt_of(1, 0)), GT(gt_of(29, 67)), 75));
    lemma_gt_mul_at((1, 0), (29, 67), (29, 67), (0, 0));
    lemma_gt_mul_at((29, 67), (29, 67), (89, 3), (-37, -6));
    assert(GT::spow_steps(GT(gt_of(1, 0)), GT(gt_of(29, 67)), 75) == GT::spow_steps(GT(gt_of(29, 67)), GT(gt_of(89, 3)), 37));
    lemma_gt_mul_at((29, 67), (89, 3), (57, 92), (23, 57));
    lemma_gt_mul_at((89, 3), (89, 3), (34, 20), (78, 5));
    assert(GT::spow_steps(GT(gt_of(29, 67)), GT(gt_of(89, 3)), 37) == GT::spow_steps(GT(gt_of(57, 92)), GT(gt_of(34, 20)), 18));
    lemma_gt_mul_at((34, 20), (34, 20), (49, 51), (7, 9));
    assert(GT::spow_steps(GT(gt_of(57, 92)), GT(gt_of(34, 20)), 18) == GT::spow_steps(GT(gt_of(57, 92)), GT(gt_of(49, 51)), 9));
    lemma_gt_mul_at((57, 92), (49, 51), (20, 97), (-19, 26));
    lemma_gt_mul_at((49, 51), (49, 51), (2, 74), (-2, 23));
    assert(GT::spow_steps(GT(gt_of(57, 92)), GT(gt_of(49, 51)), 9) == GT::spow_steps(GT(gt_of(20, 97)), GT(gt_of(2, 74)), 4));
    lemma_gt_mul_at((2, 74), (2, 74), (83, 72), (-55, -52));
    assert(GT::spow_steps(GT(gt_of(20, 97)), GT(gt_of(2, 74)), 4) == GT::spow_steps(GT(gt_of(20, 97)), GT(gt_of(83, 72)), 2));
    lemma_gt_mul_at((83, 72), (83, 72), (89, 1), (16, 67));
    assert(GT::spow_steps(GT(gt_of(20, 97)), GT(gt_of(83, 72)), 2) == GT::spow_steps(GT(gt_of(20, 97)), GT(gt_of(89, 1)), 1));
    lemma_gt_mul_at((20, 97), (89, 1), (67, 72), (16, 84));
    lemma_gt_mul_at((89, 1), (89, 1), (42, 76), (78, 1));
    assert(GT::spow_steps(GT(gt_of(20, 97)), GT(gt_of(89, 1)), 1) == GT::spow_steps(GT(gt_of(67, 72)), GT(gt_of(42, 76)), 0));
}

/// The pairing of `11G` with the point `20 P` of the image of `H`.
proof fn lemma_pairing_11_20()
    ensures
        smiller_loop(g1p(32, 59), dq(32, 59)) is Some,
        spairing_at(g1p(32, 59), dq(32, 59)) == GT(gt_of(67, 72)),
{
    lemma_final_exponent();
    lemma_tangent_11_20();
    lemma_tangent_5_20();
    lemma_tangent_10_20();
    lemma_tangent_3_20();
    lemma_vertical_at(32, 42, 59, 32, 59);
    lemma_miller_at(
        g1p(32, 59),
        dq(32, 59),
        (g1p(12, 32), g1p(91, 66), g1p(26, 45), g1p(32, 42)),
        (82, 96),
        (100, 91),
        (66, 44),
        (65, 0),
        (-32, 32),
        ((33, 64, -25, 64), (1, 44, -25, 35), (85, 71, -20, -19), (62, 50, 24, 52)),
        ((31, 64, 13, 36), (96, 19, 19, 41), (57, 38, -37, 18)),
    );
    lemma_final_exp_11_20();
}

proof fn lemma_final_exp_12_20()
    ensures
        GT(gt_of(28, 48)).spow(600) == GT(gt_of(93, 81)),
{
    assert(GT::sone() == GT(gt_of(1, 0)));
    lemma_gt_mul_at((28, 48), (28, 48), (96, 81), (-16, 3));
    assert(GT::spow_steps(GT(gt_of(1, 0)), GT(gt_of(28, 48)), 600) == GT::spow_steps(GT(gt_of(1, 0)), GT(gt_of(96, 81)), 300));
    lemma_gt_mul_at((96, 81), (96, 81), (29, 2), (26, 89));
    assert(GT::spow_steps(GT(gt_of(1, 0)), GT(gt_of(96, 81)), 300) == GT::spow_steps(GT(gt_of(1, 0)), GT(gt_of(29, 2)), 150));
    lemma_gt_mul_at((29, 2), (29, 2), (29, 11), (8, 1));
    assert(GT::spow_steps(GT(gt_of(1, 0)), GT(gt_of(29, 2)), 150) == GT::spow_steps(GT(gt_of(1, 0)), GT(gt_of(29, 11)), 75));
    lemma_gt_mul_at((1, 0), (29, 11), (29, 11), (0, 0));
    lemma_gt_mul_at((29, 11), (29, 11), (13, 12), (7, 5));
    assert(GT::spow_steps(GT(gt_of(1, 0)), GT(gt_of(29, 11)), 75) == GT::spow_steps(GT(gt_of(29, 11)), GT(gt_of(13, 12)), 37));
    lemma_gt_mul_at((29, 11), (13, 12), (43, 56), (2, 3));
    lemma_gt_mul_at((13, 12), (13, 12), (25, 67), (0, 1));
    assert(GT::spow_steps(GT(gt_of(29, 11)), GT(gt_of(13, 12)), 37) == GT::spow_steps(GT(gt_of(43, 56)), GT(gt_of(25, 67)), 18));
    lemma_gt_mul_at((25, 67), (25, 67), (75, 73), (-39, -12));
    assert(GT::spow_steps(GT(gt_of(43, 56)), GT(gt_of(25, 67)), 18) == GT::spow_steps(GT(gt_of(43, 56)), GT(gt_of(75, 73)), 9));
    lemma_gt_mul_at((43, 56), (75, 73), (46, 19), (-9, 32));
    lemma_gt_mul_at((75, 73), (75, 73), (94, 66), (2, 55));
    assert(GT::spow_steps(GT(gt_of(43, 56)), GT(gt_of(75, 73)), 9) == GT::spow_steps(GT(gt_of(46, 19)), GT(gt_of(94, 66)), 4));
    lemma_gt_mul_at((94, 66), (94, 66), (36, 73), (44, 79));
    assert(GT::spow_steps(GT(gt_of(46, 19)), GT(gt_of(94, 66)), 4) == GT::spow_steps(GT(gt_of(46, 19)), GT(gt_of(36, 73)), 2));
    lemma_gt_mul_at((36, 73), (36, 73), (7, 28), (-40, -1));
    assert(GT::spow_steps(GT(gt_of(46, 19)), GT(gt_of(36, 73)), 2) == GT::spow_steps(GT(gt_of(46, 19)), GT(gt_of(7, 28)), 1));
    lemma_gt_mul_at((46, 19), (7, 28), (93, 81), (-3, 8));
    lemma_gt_mul_at((7, 28), (7, 28), (73, 12), (-8, -4));
    assert(GT::spow_steps(GT(gt_of(46, 19)), GT(gt_of(7, 28)), 1) == GT::spow_steps(GT(gt_of(93, 81)), GT(gt_of(73, 12)), 0));
}

/// The pairing of `12G` with the point `20 P` of the image of `H`.
proof fn lemma_pairing_12_20()
    ensures
        smiller_loop(g1p(12, 69), dq(32, 59)) is Some,
        spairing_at(g1p(12, 69), dq(32, 59)) == GT(gt_of(93, 81)),
{
    lemma_final_exponent();
    lemma_tangent_12_20();
    lemma_tangent_7_20();
    lemma_tangent_14_20();
    lemma_tangent_11_20();
    lemma_vertical_at(12, 32, 69, 32, 59);
    lemma_miller_at(
        g1p(12, 69),
        dq(32, 59),
        (g1p(91, 35), g1p(26, 56), g1p(32, 59), g1p(12, 32)),
        (44, 45),
        (24, 37),
        (63, 64),
        (82, 96),
        (-12, 32),
        ((12, 16, -1, 19), (100, 34, -4, 2), (57, 89, 87, 55), (16, 24, -21, 35)),
        ((84, 91, -4, 1), (71, 23, -19, 67), (28, 48, -16, 12)),
    );
    lemma_final_exp_12_20();
}

proof fn lemma_final_exp_13_20()
    ensures
        GT(gt_of(5, 28)).spow(600) == GT(gt_of(61, 46)),
{
    assert(GT::sone() == GT(gt_of(1, 0)));
    lemma_gt_mul_at((5, 28), (5, 28), (49, 1), (-8, -5));
    assert(GT::spow_steps(GT(gt_of(1, 0)), GT(gt_of(5, 28)), 600) == GT::spow_steps(GT(gt_of(1, 0)), GT(gt_of(49, 1)), 300));
    lemma_gt_mul_at((49, 1), (49, 1), (77, 97), (23, 0));
    assert(GT::spow_steps(GT(gt_of(1, 0)), GT(gt_of(49, 1)), 300) == GT::spow_steps(GT(gt_of(1, 0)), GT(gt_of(77, 97)), 150));
    lemma_gt_mul_at((77, 97), (77, 97), (55, 75), (-35, 54));
    assert(GT::spow_steps(GT(gt_of(1, 0)), GT(gt_of(77, 97)), 150) == GT::spow_steps(GT(gt_of(1, 0)), GT(gt_of(55, 75)), 75));
    lemma_gt_mul_at((1, 0), (55, 75), (55, 75), (0, 0));
    lemma_gt_mul_at((55, 75), (55, 75), (26, 100), (-26, 25));
    assert(GT::spow_steps(GT(gt_of(1, 0)), GT(gt_of(55, 75)), 75) == GT::spow_steps(GT(gt_of(55, 75)), GT(gt_of(26, 100)), 37));
    lemma_gt_mul_at((55, 75), (26, 100), (91, 51), (-61, -1));
    lemma_gt_mul_at((26, 100), (26, 100), (69, 48), (-93, -48));
    assert(GT::spow_steps(GT(gt_of(55, 75)), GT(gt_of(26, 100)), 37) == GT::spow_steps(GT(gt_of(91, 51)), GT(gt_of(69, 48)), 18));
    lemma_gt_mul_at((69, 48), (69, 48), (33, 78), (24, 42));
    assert(GT::spow_steps(GT(gt_of(91, 51)), GT(gt_of(69, 48)), 18) == GT::spow_steps(GT(gt_of(91, 51)), GT(gt_of(33, 78)), 9));
    lemma_gt_mul_at((91, 51), (33, 78), (35, 56), (-10, 47));
    lemma_gt_mul_at((33, 78), (33, 78), (55, 74), (-50, -10));
    assert(GT::spow_steps(GT(gt_of(91, 51)), GT(gt_of(33, 78)), 9) == GT::spow_steps(GT(gt_of(35, 56)), GT(gt_of(55, 74)), 4));
    lemma_gt_mul_at((55, 74), (55, 74), (74, 38), (-25, 26));
    assert(GT::spow_steps(GT(gt_of(35, 56)), GT(gt_of(55, 74)), 4) == GT::spow_steps(GT(gt_of(35, 56)), GT(gt_of(74, 38)), 2));
    lemma_gt_mul_at((74, 38), (74, 38), (93, 39), (39, 41));
    assert(GT::spow_steps(GT(gt_of(35, 56)), GT(gt_of(74, 38)), 2) == GT::spow_steps(GT(gt_of(35, 56)), GT(gt_of(93, 39)), 1));
    lemma_gt_mul_at((35, 56), (93, 39), (61, 46), (10, 43));
    lemma_gt_mul_at((93, 39), (93, 39), (58, 77), (70, 56));
    assert(GT::spow_steps(GT(gt_of(35, 56)), GT(gt_of(93, 39)), 1) == GT::spow_steps(GT(gt_of(61, 46)), GT(gt_of(58, 77)), 0));
}

/// The pairing of `13G` with the point `20 P` of the image of `H`.
proof fn lemma_pairing_13_20()
    ensures
        smiller_loop(g1p(65, 3), dq(32, 59)) is Some,
        spairing_at(g1p(65, 3), dq(32, 59)) == GT(gt_of(61, 46)),
{
    lemma_final_exponent();
    lemma_tangent_13_20();
    lemma_tangent_9_20();
    lemma_tangent_1_20();
    lemma_tangent_2_20();
    lemma_vertical_at(65, 98, 3, 32, 59);
    lemma_miller_at(
        g1p(65, 3),
        dq(32, 59),
        (g1p(18, 52), g1p(1, 2), g1p(68, 74), g1p(65, 98)),
        (60, 37),
        (78, 96),
        (37, 4),
        (60, 4),
        (-65, 32),
        ((9, 41, 22, 30), (99, 25, -33, 1), (86, 83, 90, 42), (22, 53, 28, 30)),
        ((99, 28, -24, -5), (71, 45, 57, 19), (5, 28, -60, -21)),
    );
    lemma_final_exp_13_20();
}

proof fn lemma_final_exp_14_20()
    ensures
        GT(gt_of(3, 93)).spow(600) == GT(gt_of(42, 92)),
{
    assert(GT::sone() == GT(gt_of(1, 0)));
    lemma_gt_mul_at((3, 93), (3, 93), (46, 90), (-86, -81));
    assert(GT::spow_steps(GT(gt_of(1, 0)), GT(gt_of(3, 93)), 600) == GT::spow_steps(GT(gt_of(1, 0)), GT(gt_of(46, 90)), 300));
    lemma_gt_mul_at((46, 90), (46, 90), (76, 79), (-60, 1));
    assert(GT::spow_steps(GT(gt_of(1, 0)), GT(gt_of(46, 90)), 300) == GT::spow_steps(GT(gt_of(1, 0)), GT(gt_of(76, 79)), 150));
    lemma_gt_mul_at((76, 79), (76, 79), (40, 10), (-5, 57));
    assert(GT::spow_steps(GT(gt_of(1, 0)), GT(gt_of(76, 79)), 150) == GT::spow_steps(GT(gt_of(1, 0)), GT(gt_of(40, 10)), 75));
    lemma_gt_mul_at((1, 0), (40, 10), (40, 10), (0, 0));
    lemma_gt_mul_at((40, 10), (40, 10), (86, 94), (14, 6));
    assert(GT::spow_steps(GT(gt_of(1, 0)), GT(gt_of(40, 10)), 75) == GT::spow_steps(GT(gt_of(40, 10)), GT(gt_of(86, 94)), 37));
    lemma_gt_mul_at((40, 10), (86, 94), (76, 44), (24, 36));
    lemma_gt_mul_at((86, 94), (86, 94), (75, 60), (-15, 72));
    assert(GT::spow_steps(GT(gt_of(40, 10)), GT(gt_of(86, 94)), 37) == GT::spow_steps(GT(gt_of(76, 44)), GT(gt_of(75, 60)), 18));
    lemma_gt_mul_at((75, 60), (75, 60), (5, 47), (20, 53));
    assert(GT::spow_steps(GT(gt_of(76, 44)), GT(gt_of(75, 60)), 18) == GT::spow_steps(GT(gt_of(76, 44)), GT(gt_of(5, 47)), 9));
    lemma_gt_mul_at((76, 44), (5, 47), (29, 7), (-17, 17));
    lemma_gt_mul_at((5, 47), (5, 47), (38, 79), (-22, -18));
    assert(GT::spow_steps(GT(gt_of(76, 44)), GT(gt_of(5, 47)), 9) == GT::spow_steps(GT(gt_of(29, 7)), GT(gt_of(38, 79)), 4));
    lemma_gt_mul_at((38, 79), (38, 79), (51, 66), (-48, -3));
    assert(GT::spow_steps(GT(gt_of(29, 7)), GT(gt_of(38, 79)), 4) == GT::spow_steps(GT(gt_of(29, 7)), GT(gt_of(51, 66)), 2));
    lemma_gt_mul_at((51, 66), (51, 66), (63, 53), (-18, 23));
    assert(GT::spow_steps(GT(gt_of(29, 7)), GT(gt_of(51, 66)), 2) == GT::spow_steps(GT(gt_of(29, 7)), GT(gt_of(63, 53)), 1));
    lemma_gt_mul_at((29, 7), (63, 53), (42, 92), (14, 15));
    lemma_gt_mul_at((63, 53), (63, 53), (49, 31), (11, 38));
    assert(GT::spow_steps(GT(gt_of(29, 7)), GT(gt_of(63, 53)), 1) == GT::spow_steps(GT(gt_of(42, 92)), GT(gt_of(49, 31)), 0));
}

/// The pairing of `14G` with the point `20 P` of the image of `H`.
proof fn lemma_pairing_14_20()
    ensures
        smiller_loop(g1p(26, 56), dq(32, 59)) is Some,
        spairing_at(g1p(26, 56), dq(32, 59)) == GT(gt_of(42, 92)),
{
    lemma_final_exponent();
    lemma_tangent_14_20();
    lemma_tangent_11_20();
    lemma_tangent_5_20();
    lemma_tangent_10_20();
    lemma_vertical_at(26, 45, 56, 32, 59);
    lemma_miller_at(
        g1p(26, 56),
        dq(32, 59),
        (g1p(32, 59), g1p(12, 32), g1p(91, 66), g1p(26, 45)),
        (63, 64),
        (82, 96),
        (100, 91),
        (66, 44),
        (-26, 32),
        ((75, 29, -2, 39), (33, 27, 33, 67), (57, 43, 3, 10), (70, 19, 17, 55)),
        ((95, 77, 44, 22), (54, 16, 28, 58), (3, 93, -19, 7)),
    );
    lemma_final_exp_14_20();
}

proof fn lemma_final_exp_15_20()
    ensures
        GT(gt_of(92, 42)).spow(600) == GT(gt_of(75, 98)),
{
    assert(GT::sone() == GT(gt_of(1, 0)));
    lemma_gt_mul_at((92, 42), (92, 42), (34, 5), (66, 59));
    assert(GT::spow_steps(GT(gt_of(1, 0)), GT(gt_of(92, 42)), 600) == GT::spow_steps(GT(gt_of(1, 0)), GT(gt_of(34, 5)), 300));
    lemma_gt_mul_at((34, 5), (34, 5), (20, 12), (11, 3));
    assert(GT::spow_steps(GT(gt_of(1, 0)), GT(gt_of(34, 5)), 300) == GT::spow_steps(GT(gt_of(1, 0)), GT(gt_of(20, 12)), 150));
    lemma_gt_mul_at((20, 12), (20, 12), (54, 33), (2, 3));
    assert(GT::spow_steps(GT(gt_of(1, 0)), GT(gt_of(20, 12)), 150) == GT::spow_steps(GT(gt_of(1, 0)), GT(gt_of(54, 33)), 75));
    lemma_gt_mul_at((1, 0), (54, 33), (54, 33), (0, 0));
    lemma_gt_mul_at((54, 33), (54, 33), (9, 51), (18, 24));
    assert(GT::spow_steps(GT(gt_of(1, 0)), GT(gt_of(54, 33)), 75) == GT::spow_steps(GT(gt_of(54, 33)), GT(gt_of(9, 51)), 37));
    lemma_gt_mul_at((54, 33), (9, 51), (15, 55), (-12, 13));
    lemma_gt_mul_at((9, 51), (9, 51), (5, 34), (-25, -17));
    assert(GT::spow_steps(GT(gt_of(54, 33)), GT(gt_of(9, 51)), 37) == GT::spow_steps(GT(gt_of(15, 55)), GT(gt_of(5, 34)), 18));
    lemma_gt_mul_at((5, 34), (5, 34), (81, 93), (-12, -9));
    assert(GT::spow_steps(GT(gt_of(15, 55)), GT(gt_of(5, 34)), 18) == GT::spow_steps(GT(gt_of(15, 55)), GT(gt_of(81, 93)), 9));
    lemma_gt_mul_at((15, 55), (81, 93), (39, 28), (-39, 7));
    lemma_gt_mul_at((81, 93), (81, 93), (33, 54), (-21, 63));
    assert(GT::spow_steps(GT(gt_of(15, 55)), GT(gt_of(81, 93)), 9) == GT::spow_steps(GT(gt_of(39, 28)), GT(gt_of(33, 54)), 4));
    lemma_gt_mul_at((33, 54), (33, 54), (92, 42), (-19, 6));
    assert(GT::spow_steps(GT(gt_of(39, 28)), GT(gt_of(33, 54)), 4) == GT::spow_steps(GT(gt_of(39, 28)), GT(gt_of(92, 42)), 2));
    lemma_gt_mul_at((92, 42), (92, 42), (34, 5), (66, 59));
    assert(GT::spow_steps(GT(gt_of(39, 28)), GT(gt_of(92, 42)), 2) == GT::spow_steps(GT(gt_of(39, 28)), GT(gt_of(34, 5)), 1));
    lemma_gt_mul_at((39, 28), (34, 5), (75, 98), (11, 9));
    lemma_gt_mul_at((34, 5), (34, 5), (20, 12), (11, 3));
    assert(GT::spow_steps(GT(gt_of(39, 28)), GT(gt_of(34, 5)), 1) == GT::spow_steps(GT(gt_of(75, 98)), GT(gt_of(20, 12)), 0));
}

/// The pairing of `15G` with the point `20 P` of the image of `H`.
proof fn lemma_pairing_15_20()
    ensures
        smiller_loop(g1p(68, 27), dq(32, 59)) is Some,
        spairing_at(g1p(68, 27), dq(32, 59)) == GT(gt_of(75, 98)),
{
    lemma_final_exponent();
    lemma_tangent_15_20();
    lemma_tangent_13_20();
    lemma_tangent_9_20();
    lemma_tangent_1_20();
    lemma_vertical_at(68, 74, 27, 32, 59);
    lemma_miller_at(
        g1p(68, 27),
        dq(32, 59),
        (g1p(65, 3), g1p(18, 52), g1p(1, 2), g1p(68, 74)),
        (67, 91),
        (60, 37),
        (78, 96),
        (37, 4),
        (-68, 32),
        ((46, 75, -38, 38), (86, 94, -1, 33), (75, 60, -15, 72), (90, 60, 0, 60)),
        ((56, 29, 44, 71), (37, 70, 19, 11), (92, 42, -48, -58)),
    );
    lemma_final_exp_15_20();
}

proof fn lemma_final_exp_16_20()
    ensures
        GT(gt_of(100, 85)).spow(600) == GT(gt_of(71, 57)),
{
    assert(GT::sone() == GT(gt_of(1, 0)));
    lemma_gt_mul_at((100, 85), (100, 85), (48, 79), (27, 96));
    assert(GT::spow_steps(GT(gt_of(1, 0)), GT(gt_of(100, 85)), 600) == GT::spow_steps(GT(gt_of(1, 0)), GT(gt_of(48, 79)), 300));
    lemma_gt_mul_at((48, 79), (48, 79), (2, 30), (-39, 13));
    assert(GT::spow_steps(GT(gt_of(1, 0)), GT(gt_of(48, 79)), 300) == GT::spow_steps(GT(gt_of(1, 0)), GT(gt_of(2, 30)), 150));
    lemma_gt_mul_at((2, 30), (2, 30), (13, 28), (-9, -8));
    assert(GT::spow_steps(GT(gt_of(1, 0)), GT(gt_of(2, 30)), 150) == GT::spow_steps(GT(gt_of(1, 0)), GT(gt_of(13, 28)), 75));
    lemma_gt_mul_at((1, 0), (13, 28), (13, 28), (0, 0));
    lemma_gt_mul_at((13, 28), (13, 28), (92, 45), (-7, -1));
    assert(GT::spow_steps(GT(gt_of(1, 0)), GT(gt_of(13, 28)), 75) == GT::spow_steps(GT(gt_of(13, 28)), GT(gt_of(92, 45)), 37));
    lemma_gt_mul_at((13, 28), (92, 45), (37, 83), (-1, 18));
    lemma_gt_mul_at((92, 45), (92, 45), (76, 94), (63, 61));
    assert(GT::spow_steps(GT(gt_of(13, 28)), GT(gt_of(92, 45)), 37) == GT::spow_steps(GT(gt_of(37, 83)), GT(gt_of(76, 94)), 18));
    lemma_gt_mul_at((76, 94), (76, 94), (71, 99), (-31, 53));
    assert(GT::spow_steps(GT(gt_of(37, 83)), GT(gt_of(76, 94)), 18) == GT::spow_steps(GT(gt_of(37, 83)), GT(gt_of(71, 99)), 9));
    lemma_gt_mul_at((37, 83), (71, 99), (66, 26), (-56, 13));
    lemma_gt_mul_at((71, 99), (71, 99), (88, 15), (-48, 42));
    assert(GT::spow_steps(GT(gt_of(37, 83)), GT(gt_of(71, 99)), 9) == GT::spow_steps(GT(gt_of(66, 26)), GT(gt_of(88, 15)), 4));
    lemma_gt_mul_at((88, 15), (88, 15), (45, 92), (74, 23));
    assert(GT::spow_steps(GT(gt_of(66, 26)), GT(gt_of(88, 15)), 4) == GT::spow_steps(GT(gt_of(66, 26)), GT(gt_of(45, 92)), 2));
    lemma_gt_mul_at((45, 92), (45, 92), (25, 18), (-64, -2));
    assert(GT::spow_steps(GT(gt_of(66, 26)), GT(gt_of(45, 92)), 2) == GT::spow_steps(GT(gt_of(66, 26)), GT(gt_of(25, 18)), 1));
    lemma_gt_mul_at((66, 26), (25, 18), (71, 57), (11, 13));
    lemma_gt_mul_at((25, 18), (25, 18), (99, 71), (2, 5));
    assert(GT::spow_steps(GT(gt_of(66, 26)), GT(gt_of(25, 18)), 1) == GT::spow_steps(GT(gt_of(71, 57)), GT(gt_of(99, 71)), 0));
}

/// The pairing of `16G` with the point `20 P` of the image of `H`.
proof fn lemma_pairing_16_20()
    ensures
        smiller_loop(g1p(1, 99), dq(32, 59)) is Some,
        spairing_at(g1p(1, 99), dq(32, 59)) == GT(gt_of(71, 57)),
{
    lemma_final_exponent();
    lemma_tangent_16_20();
    lemma_tangent_15_20();
    lemma_tangent_13_20();
    lemma_tangent_9_20();
    lemma_vertical_at(1, 2, 99, 32, 59);
    lemma_miller_at(
        g1p(1, 99),
        dq(32, 59),
        (g1p(68, 27), g1p(65, 3), g1p(18, 52), g1p(1, 2)),
        (88, 36),
        (67, 91),
        (60, 37),
        (78, 96),
        (-1, 32),
        ((85, 91, 63, 49), (40, 97, -26, 54), (69, 68, -78, -17), (8, 77, 16, 40)),
        ((94, 50, -59, -47), (7, 44, 25, 80), (100, 85, -15, -13)),
    );
    lemma_final_exp_16_20();
}

proof fn lemma_final_exp_1_21()
    ensures
        GT(gt_of(41, 20)).spow(600) == GT(gt_of(68, 21)),
{
    assert(GT::sone() == GT(gt_of(1, 0)));
    lemma_gt_mul_at((41, 20), (41, 20), (69, 28), (12, 12));
    assert(GT::spow_steps(GT(gt_of(1, 0)), GT(gt_of(41, 20)), 600) == GT::spow_steps(GT(gt_of(1, 0)), GT(gt_of(69, 28)), 300));
    lemma_gt_mul_at((69, 28), (69, 28), (38, 50), (39, 30));
    assert(GT::spow_steps(GT(gt_of(1, 0)), GT(gt_of(69, 28)), 300) == GT::spow_steps(GT(gt_of(1, 0)), GT(gt_of(38, 50)), 150));
    lemma_gt_mul_at((38, 50), (38, 50), (55, 88), (-11, 12));
    assert(GT::spow_steps(GT(gt_of(1, 0)), GT(gt_of(38, 50)), 150) == GT::spow_steps(GT(gt_of(1, 0)), GT(gt_of(55, 88)), 75));
    lemma_gt_mul_at((1, 0), (55, 88), (55, 88), (0, 0));
    lemma_gt_mul_at((55, 88), (55, 88), (28, 17), (-47, 19));
    assert(GT::spow_steps(GT(gt_of(1, 0)), GT(gt_of(55, 88)), 75) == GT::spow_steps(GT(gt_of(55, 88)), GT(gt_of(28, 17)), 37));
    lemma_gt_mul_at((55, 88), (28, 17), (44, 85), (0, 18));
    lemma_gt_mul_at((28, 17), (28, 17), (91, 57), (4, 6));
    assert(GT::spow_steps(GT(gt_of(55, 88)), GT(gt_of(28, 17)), 37) == GT::spow_steps(GT(gt_of(44, 85)), GT(gt_of(91, 57)), 18));
    lemma_gt_mul_at((91, 57), (91, 57), (83, 55), (49, 70));
    assert(GT::spow_steps(GT(gt_of(44, 85)), GT(gt_of(91, 57)), 18) == GT::spow_steps(GT(gt_of(44, 85)), GT(gt_of(83, 55)), 9));
    lemma_gt_mul_at((44, 85), (83, 55), (88, 53), (-11, 47));
    lemma_gt_mul_at((83, 55), (83, 55), (26, 45), (38, 60));
    assert(GT::spow_steps(GT(gt_of(44, 85)), GT(gt_of(83, 55)), 9) == GT::spow_steps(GT(gt_of(88, 53)), GT(gt_of(26, 45)), 4));
    lemma_gt_mul_at((26, 45), (26, 45), (65, 12), (-14, 3));
    assert(GT::spow_steps(GT(gt_of(88, 53)), GT(gt_of(26, 45)), 4) == GT::spow_steps(GT(gt_of(88, 53)), GT(gt_of(65, 12)), 2));
    lemma_gt_mul_at((65, 12), (65, 12), (41, 2), (40, 14));
    assert(GT::spow_steps(GT(gt_of(88, 53)), GT(gt_of(65, 12)), 2) == GT::spow_steps(GT(gt_of(88, 53)), GT(gt_of(41, 2)), 1));
    lemma_gt_mul_at((88, 53), (41, 2), (68, 21), (34, 22));
    lemma_gt_mul_at((41, 2), (41, 2), (61, 59), (16, 1));
    assert(GT::spow_steps(GT(gt_of(88, 53)), GT(gt_of(41, 2)), 1) == GT::spow_steps(GT(gt_of(68, 21)), GT(gt_of(61, 59)), 0));
}

/// The pairing of `1G` with the point `21 P` of the image of `H`.
proof fn lemma_pairing_1_21()
    ensures
        smiller_loop(g1p(1, 2), dq(60, 41)) is Some,
        spairing_at(g1p(1, 2), dq(60, 41)) == GT(gt_of(68, 21)),
{
    lemma_final_exponent();
    lemma_tangent_1_21();
    lemma_tangent_2_21();
    lemma_tangent_4_21();
    lemma_tangent_8_21();
    lemma_vertical_at(1, 99, 2, 60, 41);
    lemma_miller_at(
        g1p(1, 2),
        dq(60, 41),
        (g1p(68, 74), g1p(65, 98), g1p(18, 49), g1p(1, 99)),
        (96, 13),
        (77, 16),
        (98, 12),
        (43, 68),
        (-1, 60),
        ((58, 4, 89, 23), (59, 61, 43, 11), (63, 43, -3, 34), (2, 10, 56, 44)),
        ((5, 41, -1, -1), (53, 22, -26, -7), (41, 20, -14, 18)),
    );
    lemma_final_exp_1_21();
}

proof fn lemma_final_exp_2_21()
    ensures
        GT(gt_of(59, 2)).spow(600) == GT(gt_of(42, 92)),
{
    assert(GT::sone() == GT(gt_of(1, 0)));
    lemma_gt_mul_at((59, 2), (59, 2), (43, 30), (34, 2));
    assert(GT::spow_steps(GT(gt_of(1, 0)), GT(gt_of(59, 2)), 600) == GT::spow_steps(GT(gt_of(1, 0)), GT(gt_of(43, 30)), 300));
    lemma_gt_mul_at((43, 30), (43, 30), (40, 64), (9, 16));
    assert(GT::spow_steps(GT(gt_of(1, 0)), GT(gt_of(43, 30)), 300) == GT::spow_steps(GT(gt_of(1, 0)), GT(gt_of(40, 64)), 150));
    lemma_gt_mul_at((40, 64), (40, 64), (29, 14), (-25, 10));
    assert(GT::spow_steps(GT(gt_of(1, 0)), GT(gt_of(40, 64)), 150) == GT::spow_steps(GT(gt_of(1, 0)), GT(gt_of(29, 14)), 75));
    lemma_gt_mul_at((1, 0), (29, 14), (29, 14), (0, 0));
    lemma_gt_mul_at((29, 14), (29, 14), (39, 10), (6, 6));
    assert(GT::spow_steps(GT(gt_of(1, 0)), GT(gt_of(29, 14)), 75) == GT::spow_steps(GT(gt_of(29, 14)), GT(gt_of(39, 10)), 37));
    lemma_gt_mul_at((29, 14), (39, 10), (82, 90), (9, 6));
    lemma_gt_mul_at((39, 10), (39, 10), (7, 74), (14, 6));
    assert(GT::spow_steps(GT(gt_of(29, 14)), GT(gt_of(39, 10)), 37) == GT::spow_steps(GT(gt_of(82, 90)), GT(gt_of(7, 74)), 18));
    lemma_gt_mul_at((7, 74), (7, 74), (27, 4), (-54, -44));
    assert(GT::spow_steps(GT(gt_of(82, 90)), GT(gt_of(7, 74)), 18) == GT::spow_steps(GT(gt_of(82, 90)), GT(gt_of(27, 4)), 9));
    lemma_gt_mul_at((82, 90), (27, 4), (36, 75), (18, 23));
    lemma_gt_mul_at((27, 4), (27, 4), (6, 99), (7, 1));
    assert(GT::spow_steps(GT(gt_of(82, 90)), GT(gt_of(27, 4)), 9) == GT::spow_steps(GT(gt_of(36, 75)), GT(gt_of(6, 99)), 4));
    lemma_gt_mul_at((6, 99), (6, 99), (32, 73), (-97, -86));
    assert(GT::spow_steps(GT(gt_of(36, 75)), GT(gt_of(6, 99)), 4) == GT::spow_steps(GT(gt_of(36, 75)), GT(gt_of(32, 73)), 2));
    lemma_gt_mul_at((32, 73), (32, 73), (38, 50), (-43, -7));
    assert(GT::spow_steps(GT(gt_of(36, 75)), GT(gt_of(32, 73)), 2) == GT::spow_steps(GT(gt_of(36, 75)), GT(gt_of(38, 50)), 1));
    lemma_gt_mul_at((36, 75), (38, 50), (42, 92), (-24, 8));
    lemma_gt_mul_at((38, 50), (38, 50), (55, 88), (-11, 12));
    assert(GT::spow_steps(GT(gt_of(36, 75)), GT(gt_of(38, 50)), 1) == GT::spow_steps(GT(gt_of(42, 92)), GT(gt_of(55, 88)), 0));
}

/// The pairing of `2G` with the point `21 P` of the image of `H`.
proof fn lemma_pairing_2_21()
    ensures
        smiller_loop(g1p(68, 74), dq(60, 41)) is Some,
        spairing_at(g1p(68, 74), dq(60, 41)) == GT(gt_of(42, 92)),
{
    lemma_final_exponent();
    lemma_tangent_2_21();
    lemma_tangent_4_21();
    lemma_tangent_8_21();
    lemma_tangent_16_21();
    lemma_vertical_at(68, 27, 74, 60, 41);
    lemma_miller_at(
        g1p(68, 74),
        dq(60, 41),
        (g1p(65, 98), g1p(18, 49), g1p(1, 99), g1p(68, 27)),
        (77, 16),
        (98, 12),
        (43, 68),
        (27, 92),
        (-68, 60),
        ((17, 87, 56, 21), (16, 10, 6, 76), (55, 18, 1, 2), (30, 58, 11, 32)),
        ((61, 15, -25, 1), (65, 92, 2, 45), (59, 2, -99, -78)),
    );
    lemma_final_exp_2_21();
}

proof fn lemma_final_exp_3_21()
    ensures
        GT(gt_of(75, 61)).spow(600) == GT(gt_of(15, 55)),
{
    assert(GT::sone() == GT(gt_of(1, 0)));
    lemma_gt_mul_at((75, 61), (75, 61), (86, 76), (18, 53));
    assert(GT::spow_steps(GT(gt_of(1, 0)), GT(gt_of(75, 61)), 600) == GT::spow_steps(GT(gt_of(1, 0)), GT(gt_of(86, 76)), 300));
    lemma_gt_mul_at((86, 76), (86, 76), (4, 24), (16, 72));
    assert(GT::spow_steps(GT(gt_of(1, 0)), GT(gt_of(86, 76)), 300) == GT::spow_steps(GT(gt_of(1, 0)), GT(gt_of(4, 24)), 150));
    lemma_gt_mul_at((4, 24), (4, 24), (46, 20), (-6, -4));
    assert(GT::spow_steps(GT(gt_of(1, 0)), GT(gt_of(4, 24)), 150) == GT::spow_steps(GT(gt_of(1, 0)), GT(gt_of(46, 20)), 75));
    lemma_gt_mul_at((1, 0), (46, 20), (46, 20), (0, 0));
    lemma_gt_mul_at((46, 20), (46, 20), (100, 26), (16, 14));
    assert(GT::spow_steps(GT(gt_of(1, 0)), GT(gt_of(46, 20)), 75) == GT::spow_steps(GT(gt_of(46, 20)), GT(gt_of(100, 26)), 37));
    lemma_gt_mul_at((46, 20), (100, 26), (40, 50), (40, 26));
    lemma_gt_mul_at((100, 26), (100, 26), (32, 80), (92, 44));
    assert(GT::spow_steps(GT(gt_of(46, 20)), GT(gt_of(100, 26)), 37) == GT::spow_steps(GT(gt_of(40, 50)), GT(gt_of(32, 80)), 18));
    lemma_gt_mul_at((32, 80), (32, 80), (78, 33), (-54, -13));
    assert(GT::spow_steps(GT(gt_of(40, 50)), GT(gt_of(32, 80)), 18) == GT::spow_steps(GT(gt_of(40, 50)), GT(gt_of(78, 33)), 9));
    lemma_gt_mul_at((40, 50), (78, 33), (56, 35), (14, 35));
    lemma_gt_mul_at((78, 33), (78, 33), (46, 19), (49, 40));
    assert(GT::spow_steps(GT(gt_of(40, 50)), GT(gt_of(78, 33)), 9) == GT::spow_steps(GT(gt_of(56, 35)), GT(gt_of(46, 19)), 4));
    lemma_gt_mul_at((46, 19), (46, 19), (38, 74), (17, 13));
    assert(GT::spow_steps(GT(gt_of(56, 35)), GT(gt_of(46, 19)), 4) == GT::spow_steps(GT(gt_of(56, 35)), GT(gt_of(38, 74)), 2));
    lemma_gt_mul_at((38, 74), (38, 74), (8, 47), (-40, 1));
    assert(GT::spow_steps(GT(gt_of(56, 35)), GT(gt_of(38, 74)), 2) == GT::spow_steps(GT(gt_of(56, 35)), GT(gt_of(8, 47)), 1));
    lemma_gt_mul_at((56, 35), (8, 47), (15, 55), (-12, 12));
    lemma_gt_mul_at((8, 47), (8, 47), (77, 58), (-22, -15));
    assert(GT::spow_steps(GT(gt_of(56, 35)), GT(gt_of(8, 47)), 1) == GT::spow_steps(GT(gt_of(15, 55)), GT(gt_of(77, 58)), 0));
}

/// The pairing of `3G` with the point `21 P` of the image of `H`.
proof fn lemma_pairing_3_21()
    ensures
        smiller_loop(g1p(26, 45), dq(60, 41)) is Some,
        spairing_at(g1p(26, 45), dq(60, 41)) == GT(gt_of(15, 55)),
{
    lemma_final_exponent();
    lemma_tangent_3_21();
    lemma_tangent_6_21();
    lemma_tangent_12_21();
    lemma_tangent_7_21();
    lemma_vertical_at(26, 56, 45, 60, 41);
    lemma_miller_at(
        g1p(26, 45),
        dq(60, 41),
        (g1p(32, 42), g1p(12, 69), g1p(91, 35), g1p(26, 56)),
        (15, 64),
        (58, 74),
        (21, 7),
        (5, 35),
        (-26, 60),
        ((68, 46, -39, -22), (35, 54, 5, 42), (26, 56, -17, 8), (53, 57, 1, 9)),
        ((65, 66, -5, 27), (35, 93, -20, 2), (75, 61, -65, -59)),
    );
    lemma_final_exp_3_21();
}

proof fn lemma_final_exp_4_21()
    ensures
        GT(gt_of(51, 91)).spow(600) == GT(gt_of(67, 72)),
{
    assert(GT::sone() == GT(gt_of(1, 0)));
    lemma_gt_mul_at((51, 91), (51, 91), (77, 92), (-57, 9));
    assert(GT::spow_steps(GT(gt_of(1, 0)), GT(gt_of(51, 91)), 600) == GT::spow_steps(GT(gt_of(1, 0)), GT(gt_of(77, 92)), 300));
    lemma_gt_mul_at((77, 92), (77, 92), (91, 48), (-26, 56));
    assert(GT::spow_steps(GT(gt_of(1, 0)), GT(gt_of(77, 92)), 300) == GT::spow_steps(GT(gt_of(1, 0)), GT(gt_of(91, 48)), 150));
    lemma_gt_mul_at((91, 48), (91, 48), (18, 69), (59, 63));
    assert(GT::spow_steps(GT(gt_of(1, 0)), GT(gt_of(91, 48)), 150) == GT::spow_steps(GT(gt_of(1, 0)), GT(gt_of(18, 69)), 75));
    lemma_gt_mul_at((1, 0), (18, 69), (18, 69), (0, 0));
    lemma_gt_mul_at((18, 69), (18, 69), (7, 46), (-44, -23));
    assert(GT::spow_steps(GT(gt_of(1, 0)), GT(gt_of(18, 69)), 75) == GT::spow_steps(GT(gt_of(18, 69)), GT(gt_of(7, 46)), 37));
    lemma_gt_mul_at((18, 69), (7, 46), (83, 56), (-31, -19));
    lemma_gt_mul_at((7, 46), (7, 46), (54, 43), (-21, -15));
    assert(GT::spow_steps(GT(gt_of(18, 69)), GT(gt_of(7, 46)), 37) == GT::spow_steps(GT(gt_of(83, 56)), GT(gt_of(54, 43)), 18));
    lemma_gt_mul_at((54, 43), (54, 43), (57, 68), (10, 27));
    assert(GT::spow_steps(GT(gt_of(83, 56)), GT(gt_of(54, 43)), 18) == GT::spow_steps(GT(gt_of(83, 56)), GT(gt_of(57, 68)), 9));
    lemma_gt_mul_at((83, 56), (57, 68), (14, 79), (9, 49));
    lemma_gt_mul_at((57, 68), (57, 68), (39, 98), (-14, 30));
    assert(GT::spow_steps(GT(gt_of(83, 56)), GT(gt_of(57, 68)), 9) == GT::spow_steps(GT(gt_of(14, 79)), GT(gt_of(39, 98)), 4));
    lemma_gt_mul_at((39, 98), (39, 98), (98, 60), (-81, -20));
    assert(GT::spow_steps(GT(gt_of(14, 79)), GT(gt_of(39, 98)), 4) == GT::spow_steps(GT(gt_of(14, 79)), GT(gt_of(98, 60)), 2));
    lemma_gt_mul_at((98, 60), (98, 60), (45, 80), (59, 80));
    assert(GT::spow_steps(GT(gt_of(14, 79)), GT(gt_of(98, 60)), 2) == GT::spow_steps(GT(gt_of(14, 79)), GT(gt_of(45, 80)), 1));
    lemma_gt_mul_at((14, 79), (45, 80), (67, 72), (-57, -17));
    lemma_gt_mul_at((45, 80), (45, 80), (69, 93), (-44, 7));
    assert(GT::spow_steps(GT(gt_of(14, 79)), GT(gt_of(45, 80)), 1) == GT::spow_steps(GT(gt_of(67, 72)), GT(gt_of(69, 93)), 0));
}

/// The pairing of `4G` with the point `21 P` of the image of `H`.
proof fn lemma_pairing_4_21()
    ensures
        smiller_loop(g1p(65, 98), dq(60, 41)) is Some,
        spairing_at(g1p(65, 98), dq(60, 41)) == GT(gt_of(67, 72)),
{
    lemma_final_exponent();
    lemma_tangent_4_21();
    lemma_tangent_8_21();
    lemma_tangent_16_21();
    lemma_tangent_15_21();
    lemma_vertical_at(65, 3, 98, 60, 41);
    lemma_miller_at(
        g1p(65, 98),
        dq(60, 41),
        (g1p(18, 49), g1p(1, 99), g1p(68, 27), g1p(65, 3)),
        (98, 12),
        (43, 68),
        (27, 92),
        (41, 77),
        (-65, 60),
        ((67, 87, 93, 21), (96, 58, -31, 23), (95, 96, 57, 76), (96, 76, -63, 24)),
        ((6, 29, 34, 87), (33, 24, -20, -6), (51, 91, -36, -11)),
    );
    lemma_final_exp_4_21();
}

proof fn lemma_final_exp_5_21()
    ensures
        GT(gt_of(46, 66)).spow(600) == GT(gt_of(14, 44)),
{
    assert(GT::sone() == GT(gt_of(1, 0)));
    lemma_gt_mul_at((46, 66), (46, 66), (83, 100), (-23, 16));
    assert(GT::spow_steps(GT(gt_of(1, 0)), GT(gt_of(46, 66)), 600) == GT::spow_steps(GT(gt_of(1, 0)), GT(gt_of(83, 100)), 300));
    lemma_gt_mul_at((83, 100), (83, 100), (20, 35), (-31, 65));
    assert(GT::spow_steps(GT(gt_of(1, 0)), GT(gt_of(83, 100)), 300) == GT::spow_steps(GT(gt_of(1, 0)), GT(gt_of(20, 35)), 150));
    lemma_gt_mul_at((20, 35), (20, 35), (84, 74), (-9, 1));
    assert(GT::spow_steps(GT(gt_of(1, 0)), GT(gt_of(20, 35)), 150) == GT::spow_steps(GT(gt_of(1, 0)), GT(gt_of(84, 74)), 75));
    lemma_gt_mul_at((1, 0), (84, 74), (84, 74), (0, 0));
    lemma_gt_mul_at((84, 74), (84, 74), (65, 88), (15, 68));
    assert(GT::spow_steps(GT(gt_of(1, 0)), GT(gt_of(84, 74)), 75) == GT::spow_steps(GT(gt_of(84, 74)), GT(gt_of(65, 88)), 37));
    lemma_gt_mul_at((84, 74), (65, 88), (59, 34), (-11, 56));
    lemma_gt_mul_at((65, 88), (65, 88), (16, 60), (-35, 36));
    assert(GT::spow_steps(GT(gt_of(84, 74)), GT(gt_of(65, 88)), 37) == GT::spow_steps(GT(gt_of(59, 34)), GT(gt_of(16, 60)), 18));
    lemma_gt_mul_at((16, 60), (16, 60), (90, 37), (-34, -17));
    assert(GT::spow_steps(GT(gt_of(59, 34)), GT(gt_of(16, 60)), 18) == GT::spow_steps(GT(gt_of(59, 34)), GT(gt_of(90, 37)), 9));
    lemma_gt_mul_at((59, 34), (90, 37), (12, 46), (40, 39));
    lemma_gt_mul_at((90, 37), (90, 37), (65, 39), (66, 52));
    assert(GT::spow_steps(GT(gt_of(59, 34)), GT(gt_of(90, 37)), 9) == GT::spow_steps(GT(gt_of(12, 46)), GT(gt_of(65, 39)), 4));
    lemma_gt_mul_at((65, 39), (65, 39), (78, 14), (26, 35));
    assert(GT::spow_steps(GT(gt_of(12, 46)), GT(gt_of(65, 39)), 4) == GT::spow_steps(GT(gt_of(12, 46)), GT(gt_of(78, 14)), 2));
    lemma_gt_mul_at((78, 14), (78, 14), (30, 69), (58, 19));
    assert(GT::spow_steps(GT(gt_of(12, 46)), GT(gt_of(78, 14)), 2) == GT::spow_steps(GT(gt_of(12, 46)), GT(gt_of(30, 69)), 1));
    lemma_gt_mul_at((12, 46), (30, 69), (14, 44), (-28, -10));
    lemma_gt_mul_at((30, 69), (30, 69), (78, 86), (-39, -7));
    assert(GT::spow_steps(GT(gt_of(12, 46)), GT(gt_of(30, 69)), 1) == GT::spow_steps(GT(gt_of(14, 44)), GT(gt_of(78, 86)), 0));
}

/// The pairing of `5G` with the point `21 P` of the image of `H`.
proof fn lemma_pairing_5_21()
    ensures
        smiller_loop(g1p(12, 32), dq(60, 41)) is Some,
        spairing_at(g1p(12, 32), dq(60, 41)) == GT(gt_of(14, 44)),
{
    lemma_final_exponent();
    lemma_tangent_5_21();
    lemma_tangent_10_21();
    lemma_tangent_3_21();
    lemma_tangent_6_21();
    lemma_vertical_at(12, 69, 32, 60, 41);
    lemma_miller_at(
        g1p(12, 32),
        dq(60, 41),
        (g1p(91, 66), g1p(26, 45), g1p(32, 42), g1p(12, 69)),
        (7, 67),
        (86, 5),
        (15, 64),
        (58, 74),
        (-12, 60),
        ((4, 85, -44, -36), (20, 37, -1, 68), (41, 10, -10, 1), (76, 13, -1, 21)),
        ((52, 90, 55, 17), (93, 85, -37, 23), (46, 66, -62, -6)),
    );
    lemma_final_exp_5_21();
}

proof fn lemma_final_exp_6_21()
    ensures
        GT(gt_of(32, 82)).spow(600) == GT(gt_of(28, 39)),
{
    assert(GT::sone() == GT(gt_of(1, 0)));
    lemma_gt_mul_at((32, 82), (32, 82), (57, 39), (-57, -15));
    assert(GT::spow_steps(GT(gt_of(1, 0)), GT(gt_of(32, 82)), 600) == GT::spow_steps(GT(gt_of(1, 0)), GT(gt_of(57, 39)), 300));
    lemma_gt_mul_at((57, 39), (57, 39), (11, 97), (17, 28));
    assert(GT::spow_steps(GT(gt_of(1, 0)), GT(gt_of(57, 39)), 300) == GT::spow_steps(GT(gt_of(1, 0)), GT(gt_of(11, 97)), 150));
    lemma_gt_mul_at((11, 97), (11, 97), (4, 98), (-92, -73));
    assert(GT::spow_steps(GT(gt_of(1, 0)), GT(gt_of(11, 97)), 150) == GT::spow_steps(GT(gt_of(1, 0)), GT(gt_of(4, 98)), 75));
    lemma_gt_mul_at((1, 0), (4, 98), (4, 98), (0, 0));
    lemma_gt_mul_at((4, 98), (4, 98), (7, 68), (-95, -88));
    assert(GT::spow_steps(GT(gt_of(1, 0)), GT(gt_of(4, 98)), 75) == GT::spow_steps(GT(gt_of(4, 98)), GT(gt_of(7, 68)), 37));
    lemma_gt_mul_at((4, 98), (7, 68), (30, 51), (-66, -57));
    lemma_gt_mul_at((7, 68), (7, 68), (71, 65), (-46, -37));
    assert(GT::spow_steps(GT(gt_of(4, 98)), GT(gt_of(7, 68)), 37) == GT::spow_steps(GT(gt_of(30, 51)), GT(gt_of(71, 65)), 18));
    lemma_gt_mul_at((71, 65), (71, 65), (8, 56), (8, 49));
    assert(GT::spow_steps(GT(gt_of(30, 51)), GT(gt_of(71, 65)), 18) == GT::spow_steps(GT(gt_of(30, 51)), GT(gt_of(8, 56)), 9));
    lemma_gt_mul_at((30, 51), (8, 56), (10, 40), (-26, -8));
    lemma_gt_mul_at((8, 56), (8, 56), (59, 83), (-31, -23));
    assert(GT::spow_steps(GT(gt_of(30, 51)), GT(gt_of(8, 56)), 9) == GT::spow_steps(GT(gt_of(10, 40)), GT(gt_of(59, 83)), 4));
    lemma_gt_mul_at((59, 83), (59, 83), (26, 77), (-34, 28));
    assert(GT::spow_steps(GT(gt_of(10, 40)), GT(gt_of(59, 83)), 4) == GT::spow_steps(GT(gt_of(10, 40)), GT(gt_of(26, 77)), 2));
    lemma_gt_mul_at((26, 77), (26, 77), (100, 95), (-53, -20));
    assert(GT::spow_steps(GT(gt_of(10, 40)), GT(gt_of(26, 77)), 2) == GT::spow_steps(GT(gt_of(10, 40)), GT(gt_of(100, 95)), 1));
    lemma_gt_mul_at((10, 40), (100, 95), (28, 39), (-28, 11));
    lemma_gt_mul_at((100, 95), (100, 95), (66, 77), (9, 98));
    assert(GT::spow_steps(GT(gt_of(10, 40)), GT(gt_of(100, 95)), 1) == GT::spow_steps(GT(gt_of(28, 39)), GT(gt_of(66, 77)), 0));
}

/// The pairing of `6G` with the point `21 P` of the image of `H`.
proof fn lemma_pairing_6_21()
    ensures
        smiller_loop(g1p(32, 42), dq(60, 41)) is Some,
        spairing_at(g1p(32, 42), dq(60, 41)) == GT(gt_of(28, 39)),
{
    lemma_final_exponent();
    lemma_tangent_6_21();
    lemma_tangent_12_21();
    lemma_tangent_7_21();
    lemma_tangent_14_21();
    lemma_vertical_at(32, 59, 42, 60, 41);
    lemma_miller_at(
        g1p(32, 42),
        dq(60, 41),
        (g1p(12, 69), g1p(91, 35), g1p(26, 56), g1p(32, 59)),
        (58, 74),
        (21, 7),
        (5, 35),
        (22, 26),
        (-32, 60),
        ((9, 78, -21, 30), (47, 44, -4, 11), (71, 79, 2, 21), (14, 14, -24, 1)),
        ((0, 95, 0, 1), (55, 24, -25, -4), (32, 82, -32, 10)),
    );
    lemma_final_exp_6_21();
}

proof fn lemma_final_exp_7_21()
    ensures
        GT(gt_of(84, 77)).spow(600) == GT(gt_of(75, 98)),
{
    assert(GT::sone() == GT(gt_of(1, 0)));
    lemma_gt_mul_at((84, 77), (84, 77), (16, 38), (11, 69));
    assert(GT::spow_steps(GT(gt_of(1, 0)), GT(gt_of(84, 77)), 600) == GT::spow_steps(GT(gt_of(1, 0)), GT(gt_of(16, 38)), 300));
    lemma_gt_mul_at((16, 38), (16, 38), (24, 75), (-12, -3));
    assert(GT::spow_steps(GT(gt_of(1, 0)), GT(gt_of(16, 38)), 300) == GT::spow_steps(GT(gt_of(1, 0)), GT(gt_of(24, 75)), 150));
    lemma_gt_mul_at((24, 75), (24, 75), (1, 96), (-50, -21));
    assert(GT::spow_steps(GT(gt_of(1, 0)), GT(gt_of(24, 75)), 150) == GT::spow_steps(GT(gt_of(1, 0)), GT(gt_of(1, 96)), 75));
    lemma_gt_mul_at((1, 0), (1, 96), (1, 96), (0, 0));
    lemma_gt_mul_at((1, 96), (1, 96), (77, 66), (-92, -90));
    assert(GT::spow_steps(GT(gt_of(1, 0)), GT(gt_of(1, 96)), 75) == GT::spow_steps(GT(gt_of(1, 96)), GT(gt_of(77, 66)), 37));
    lemma_gt_mul_at((1, 96), (77, 66), (3, 11), (-62, 11));
    lemma_gt_mul_at((77, 66), (77, 66), (58, 51), (15, 57));
    assert(GT::spow_steps(GT(gt_of(1, 96)), GT(gt_of(77, 66)), 37) == GT::spow_steps(GT(gt_of(3, 11)), GT(gt_of(58, 51)), 18));
    lemma_gt_mul_at((58, 51), (58, 51), (56, 83), (7, 32));
    assert(GT::spow_steps(GT(gt_of(3, 11)), GT(gt_of(58, 51)), 18) == GT::spow_steps(GT(gt_of(3, 11)), GT(gt_of(56, 83)), 9));
    lemma_gt_mul_at((3, 11), (56, 83), (63, 53), (-8, -1));
    lemma_gt_mul_at((56, 83), (56, 83), (85, 84), (-38, 23));
    assert(GT::spow_steps(GT(gt_of(3, 11)), GT(gt_of(56, 83)), 9) == GT::spow_steps(GT(gt_of(63, 53)), GT(gt_of(85, 84)), 4));
    lemma_gt_mul_at((85, 84), (85, 84), (68, 53), (1, 71));
    assert(GT::spow_steps(GT(gt_of(63, 53)), GT(gt_of(85, 84)), 4) == GT::spow_steps(GT(gt_of(63, 53)), GT(gt_of(68, 53)), 2));
    lemma_gt_mul_at((68, 53), (68, 53), (98, 56), (17, 43));
    assert(GT::spow_steps(GT(gt_of(63, 53)), GT(gt_of(68, 53)), 2) == GT::spow_steps(GT(gt_of(63, 53)), GT(gt_of(98, 56)), 1));
    lemma_gt_mul_at((63, 53), (98, 56), (75, 98), (31, 56));
    lemma_gt_mul_at((98, 56), (98, 56), (4, 63), (64, 77));
    assert(GT::spow_steps(GT(gt_of(63, 53)), GT(gt_of(98, 56)), 1) == GT::spow_steps(GT(gt_of(75, 98)), GT(gt_of(4, 63)), 0));
}

/// The pairing of `7G` with the point `21 P` of the image of `H`.
proof fn lemma_pairing_7_21()
    ensures
        smiller_loop(g1p(91, 35), dq(60, 41)) is Some,
        spairing_at(g1p(91, 35), dq(60, 41)) == GT(gt_of(75, 98)),
{
    lemma_final_exponent();
    lemma_tangent_7_21();
    lemma_tangent_14_21();
    lemma_tangent_11_21();
    lemma_tangent_5_21();
    lemma_vertical_at(91, 66, 35, 60, 41);
    lemma_miller_at(
        g1p(91, 35),
        dq(60, 41),
        (g1p(26, 56), g1p(32, 59), g1p(12, 32), g1p(91, 66)),
        (5, 35),
        (22, 26),
        (71, 84),
        (7, 67),
        (-91, 60),
        ((12, 34, -12, -9), (87, 75, -7, 1), (25, 52, 19, 73), (33, 10, -26, 14)),
        ((80, 55, 9, 5), (6, 40, -31, 20), (84, 77, -30, -57)),
    );
    lemma_final_exp_7_21();
}

proof fn lemma_final_exp_8_21()
    ensures
        GT(gt_of(27, 23)).spow(600) == GT(gt_of(12, 20)),
{
    assert(GT::sone() == GT(gt_of(1, 0)));
    lemma_gt_mul_at((27, 23), (27, 23), (99, 6), (1, 7));
    assert(GT::spow_steps(GT(gt_of(1, 0)), GT(gt_of(27, 23)), 600) == GT::spow_steps(GT(gt_of(1, 0)), GT(gt_of(99, 6)), 300));
    lemma_gt_mul_at((99, 6), (99, 6), (69, 41), (96, 11));
    assert(GT::spow_steps(GT(gt_of(1, 0)), GT(gt_of(99, 6)), 300) == GT::spow_steps(GT(gt_of(1, 0)), GT(gt_of(69, 41)), 150));
    lemma_gt_mul_at((69, 41), (69, 41), (50, 38), (30, 39));
    assert(GT::spow_steps(GT(gt_of(1, 0)), GT(gt_of(69, 41)), 150) == GT::spow_steps(GT(gt_of(1, 0)), GT(gt_of(50, 38)), 75));
    lemma_gt_mul_at((1, 0), (50, 38), (50, 38), (0, 0));
    lemma_gt_mul_at((50, 38), (50, 38), (46, 33), (10, 23));
    assert(GT::spow_steps(GT(gt_of(1, 0)), GT(gt_of(50, 38)), 75) == GT::spow_steps(GT(gt_of(50, 38)), GT(gt_of(46, 33)), 37));
    lemma_gt_mul_at((50, 38), (46, 33), (36, 23), (10, 21));
    lemma_gt_mul_at((46, 33), (46, 33), (17, 28), (10, 19));
    assert(GT::spow_steps(GT(gt_of(50, 38)), GT(gt_of(46, 33)), 37) == GT::spow_steps(GT(gt_of(36, 23)), GT(gt_of(17, 28)), 18));
    lemma_gt_mul_at((17, 28), (17, 28), (10, 67), (-5, 1));
    assert(GT::spow_steps(GT(gt_of(36, 23)), GT(gt_of(17, 28)), 18) == GT::spow_steps(GT(gt_of(36, 23)), GT(gt_of(10, 67)), 9));
    lemma_gt_mul_at((36, 23), (10, 67), (31, 91), (-12, 10));
    lemma_gt_mul_at((10, 67), (10, 67), (55, 83), (-44, -32));
    assert(GT::spow_steps(GT(gt_of(36, 23)), GT(gt_of(10, 67)), 9) == GT::spow_steps(GT(gt_of(31, 91)), GT(gt_of(55, 83)), 4));
    lemma_gt_mul_at((55, 83), (55, 83), (75, 19), (-39, 22));
    assert(GT::spow_steps(GT(gt_of(31, 91)), GT(gt_of(55, 83)), 4) == GT::spow_steps(GT(gt_of(31, 91)), GT(gt_of(75, 19)), 2));
    lemma_gt_mul_at((75, 19), (75, 19), (12, 65), (52, 24));
    assert(GT::spow_steps(GT(gt_of(31, 91)), GT(gt_of(75, 19)), 2) == GT::spow_steps(GT(gt_of(31, 91)), GT(gt_of(12, 65)), 1));
    lemma_gt_mul_at((31, 91), (12, 65), (12, 20), (-55, -28));
    lemma_gt_mul_at((12, 65), (12, 65), (60, 62), (-41, -27));
    assert(GT::spow_steps(GT(gt_of(31, 91)), GT(gt_of(12, 65)), 1) == GT::spow_steps(GT(gt_of(12, 20)), GT(gt_of(60, 62)), 0));
}

/// The pairing of `8G` with the point `21 P` of the image of `H`.
proof fn lemma_pairing_8_21()
    ensures
        smiller_loop(g1p(18, 49), dq(60, 41)) is Some,
        spairing_at(g1p(18, 49), dq(60, 41)) == GT(gt_of(12, 20)),
{
    lemma_final_exponent();
    lemma_tangent_8_21();
    lemma_tangent_16_21();
    lemma_tangent_15_21();
    lemma_tangent_13_21();
    lemma_vertical_at(18, 52, 49, 60, 41);
    lemma_miller_at(
        g1p(18, 49),
        dq(60, 41),
        (g1p(1, 99), g1p(68, 27), g1p(65, 3), g1p(18, 52)),
        (43, 68),
        (27, 92),
        (41, 77),
        (63, 73),
        (-18, 60),
        ((53, 12, -28, 12), (24, 56, 3, 40), (66, 57, -26, -5), (34, 0, -17, 30)),
        ((45, 0, 11, 0), (7, 53, 28, 32), (27, 23, -33, -37)),
    );
    lemma_final_exp_8_21();
}

proof fn lemma_final_exp_9_21()
    ensures
        GT(gt_of(17, 58)).spow(600) == GT(gt_of(93, 81)),
{
    assert(GT::sone() == GT(gt_of(1, 0)));
    lemma_gt_mul_at((17, 58), (17, 58), (56, 22), (-31, -14));
    assert(GT::spow_steps(GT(gt_of(1, 0)), GT(gt_of(17, 58)), 600) == GT::spow_steps(GT(gt_of(1, 0)), GT(gt_of(56, 22)), 300));
    lemma_gt_mul_at((56, 22), (56, 22), (26, 61), (26, 19));
    assert(GT::spow_steps(GT(gt_of(1, 0)), GT(gt_of(56, 22)), 300) == GT::spow_steps(GT(gt_of(1, 0)), GT(gt_of(26, 61)), 150));
    lemma_gt_mul_at((26, 61), (26, 61), (86, 57), (-31, -6));
    assert(GT::spow_steps(GT(gt_of(1, 0)), GT(gt_of(26, 61)), 150) == GT::spow_steps(GT(gt_of(1, 0)), GT(gt_of(86, 57)), 75));
    lemma_gt_mul_at((1, 0), (86, 57), (86, 57), (0, 0));
    lemma_gt_mul_at((86, 57), (86, 57), (6, 91), (41, 64));
    assert(GT::spow_steps(GT(gt_of(1, 0)), GT(gt_of(86, 57)), 75) == GT::spow_steps(GT(gt_of(86, 57)), GT(gt_of(6, 91)), 37));
    lemma_gt_mul_at((86, 57), (6, 91), (76, 52), (-47, 29));
    lemma_gt_mul_at((6, 91), (6, 91), (37, 83), (-82, -72));
    assert(GT::spow_steps(GT(gt_of(86, 57)), GT(gt_of(6, 91)), 37) == GT::spow_steps(GT(gt_of(76, 52)), GT(gt_of(37, 83)), 18));
    lemma_gt_mul_at((37, 83), (37, 83), (35, 61), (-55, -8));
    assert(GT::spow_steps(GT(gt_of(76, 52)), GT(gt_of(37, 83)), 18) == GT::spow_steps(GT(gt_of(76, 52)), GT(gt_of(35, 61)), 9));
    lemma_gt_mul_at((76, 52), (35, 61), (94, 52), (-6, 32));
    lemma_gt_mul_at((35, 61), (35, 61), (29, 44), (-25, 5));
    assert(GT::spow_steps(GT(gt_of(76, 52)), GT(gt_of(35, 61)), 9) == GT::spow_steps(GT(gt_of(94, 52)), GT(gt_of(29, 44)), 4));
    lemma_gt_mul_at((29, 44), (29, 44), (16, 10), (-11, 6));
    assert(GT::spow_steps(GT(gt_of(94, 52)), GT(gt_of(29, 44)), 4) == GT::spow_steps(GT(gt_of(94, 52)), GT(gt_of(16, 10)), 2));
    lemma_gt_mul_at((16, 10), (16, 10), (55, 18), (1, 2));
    assert(GT::spow_steps(GT(gt_of(94, 52)), GT(gt_of(16, 10)), 2) == GT::spow_steps(GT(gt_of(94, 52)), GT(gt_of(55, 18)), 1));
    lemma_gt_mul_at((94, 52), (55, 18), (93, 81), (41, 35));
    lemma_gt_mul_at((55, 18), (55, 18), (75, 40), (26, 16));
    assert(GT::spow_steps(GT(gt_of(94, 52)), GT(gt_of(55, 18)), 1) == GT::spow_steps(GT(gt_of(93, 81)), GT(gt_of(75, 40)), 0));
}

/// The pairing of `9G` with the point `21 P` of the image of `H`.
proof fn lemma_pairing_9_21()
    ensures
        smiller_loop(g1p(18, 52), dq(60, 41)) is Some,
        spairing_at(g1p(18, 52), dq(60, 41)) == GT(gt_of(93, 81)),
{
    lemma_final_exponent();
    lemma_tangent_9_21();
    lemma_tangent_1_21();
    lemma_tangent_2_21();
    lemma_tangent_4_21();
    lemma_vertical_at(18, 49, 52, 60, 41);
    lemma_miller_at(
        g1p(18, 52),
        dq(60, 41),
        (g1p(1, 2), g1p(68, 74), g1p(65, 98), g1p(18, 49)),
        (68, 18),
        (96, 13),
        (77, 16),
        (98, 12),
        (-18, 60),
        ((58, 3, 42, 21), (75, 94, 54, 9), (21, 12, -32, 52), (11, 58, 14, 10)),
        ((90, 33, -33, -21), (41, 80, 83, 38), (17, 58, -55, -38)),
    );
    lemma_final_exp_9_21();
}

proof fn lemma_final_exp_10_21()
    ensures
        GT(gt_of(10, 92)).spow(600) == GT(gt_of(78, 3)),
{
    assert(GT::sone() == GT(gt_of(1, 0)));
    lemma_gt_mul_at((10, 92), (10, 92), (19, 42), (-83, -66));
    assert(GT::spow_steps(GT(gt_of(1, 0)), GT(gt_of(10, 92)), 600) == GT::spow_steps(GT(gt_of(1, 0)), GT(gt_of(19, 42)), 300));
    lemma_gt_mul_at((19, 42), (19, 42), (11, 34), (-14, -2));
    assert(GT::spow_steps(GT(gt_of(1, 0)), GT(gt_of(19, 42)), 300) == GT::spow_steps(GT(gt_of(1, 0)), GT(gt_of(11, 34)), 150));
    lemma_gt_mul_at((11, 34), (11, 34), (76, 97), (-11, -5));
    assert(GT::spow_steps(GT(gt_of(1, 0)), GT(gt_of(11, 34)), 150) == GT::spow_steps(GT(gt_of(1, 0)), GT(gt_of(76, 97)), 75));
    lemma_gt_mul_at((1, 0), (76, 97), (76, 97), (0, 0));
    lemma_gt_mul_at((76, 97), (76, 97), (3, 83), (-36, 52));
    assert(GT::spow_steps(GT(gt_of(1, 0)), GT(gt_of(76, 97)), 75) == GT::spow_steps(GT(gt_of(76, 97)), GT(gt_of(3, 83)), 37));
    lemma_gt_mul_at((76, 97), (3, 83), (55, 63), (-78, -15));
    lemma_gt_mul_at((3, 83), (3, 83), (89, 73), (-69, -64));
    assert(GT::spow_steps(GT(gt_of(76, 97)), GT(gt_of(3, 83)), 37) == GT::spow_steps(GT(gt_of(55, 63)), GT(gt_of(89, 73)), 18));
    lemma_gt_mul_at((89, 73), (89, 73), (67, 90), (25, 75));
    assert(GT::spow_steps(GT(gt_of(55, 63)), GT(gt_of(89, 73)), 18) == GT::spow_steps(GT(gt_of(55, 63)), GT(gt_of(67, 90)), 9));
    lemma_gt_mul_at((55, 63), (67, 90), (35, 67), (-20, 34));
    lemma_gt_mul_at((67, 90), (67, 90), (25, 21), (-36, 39));
    assert(GT::spow_steps(GT(gt_of(55, 63)), GT(gt_of(67, 90)), 9) == GT::spow_steps(GT(gt_of(35, 67)), GT(gt_of(25, 21)), 4));
    lemma_gt_mul_at((25, 21), (25, 21), (83, 3), (1, 6));
    assert(GT::spow_steps(GT(gt_of(35, 67)), GT(gt_of(25, 21)), 4) == GT::spow_steps(GT(gt_of(35, 67)), GT(gt_of(83, 3)), 2));
    lemma_gt_mul_at((83, 3), (83, 3), (12, 85), (68, 4));
    assert(GT::spow_steps(GT(gt_of(35, 67)), GT(gt_of(83, 3)), 2) == GT::spow_steps(GT(gt_of(35, 67)), GT(gt_of(12, 85)), 1));
    lemma_gt_mul_at((35, 67), (12, 85), (78, 3), (-53, -19));
    lemma_gt_mul_at((12, 85), (12, 85), (90, 67), (-71, -52));
    assert(GT::spow_steps(GT(gt_of(35, 67)), GT(gt_of(12, 85)), 1) == GT::spow_steps(GT(gt_of(78, 3)), GT(gt_of(90, 67)), 0));
}

/// The pairing of `10G` with the point `21 P` of the image of `H`.
proof fn lemma_pairing_10_21()
    ensures
        smiller_loop(g1p(91, 66), dq(60, 41)) is Some,
        spairing_at(g1p(91, 66), dq(60, 41)) == GT(gt_of(78, 3)),
{
    lemma_final_exponent();
    lemma_tangent_10_21();
    lemma_tangent_3_21();
    lemma_tangent_6_21();
    lemma_tangent_12_21();
    lemma_vertical_at(91, 35, 66, 60, 41);
    lemma_miller_at(
        g1p(91, 66),
        dq(60, 41),
        (g1p(26, 45), g1p(32, 42), g1p(12, 69), g1p(91, 35)),
        (86, 5),
        (15, 64),
        (58, 74),
        (21, 7),
        (-91, 60),
        ((99, 27, 72, 8), (60, 64, -3, 49), (9, 49, -5, 35), (27, 84, -31, -2)),
        ((36, 5, -63, -25), (14, 19, 7, 3), (10, 92, -24, -21)),
    );
    lemma_final_exp_10_21();
}

proof fn lemma_final_exp_11_21()
    ensures
        GT(gt_of(78, 17)).spow(600) == GT(gt_of(90, 62)),
{
    assert(GT::sone() == GT(gt_of(1, 0)));
    lemma_gt_mul_at((78, 17), (78, 17), (38, 40), (57, 23));
    assert(GT::spow_steps(GT(gt_of(1, 0)), GT(gt_of(78, 17)), 600) == GT::spow_steps(GT(gt_of(1, 0)), GT(gt_of(38, 40)), 300));
    lemma_gt_mul_at((38, 40), (38, 40), (46, 26), (-2, 14));
    assert(GT::spow_steps(GT(gt_of(1, 0)), GT(gt_of(38, 40)), 300) == GT::spow_steps(GT(gt_of(1, 0)), GT(gt_of(46, 26)), 150));
    lemma_gt_mul_at((46, 26), (46, 26), (26, 100), (14, 16));
    assert(GT::spow_steps(GT(gt_of(1, 0)), GT(gt_of(46, 26)), 150) == GT::spow_steps(GT(gt_of(1, 0)), GT(gt_of(26, 100)), 75));
    lemma_gt_mul_at((1, 0), (26, 100), (26, 100), (0, 0));
    lemma_gt_mul_at((26, 100), (26, 100), (69, 48), (-93, -48));
    assert(GT::spow_steps(GT(gt_of(1, 0)), GT(gt_of(26, 100)), 75) == GT::spow_steps(GT(gt_of(26, 100)), GT(gt_of(69, 48)), 37));
    lemma_gt_mul_at((26, 100), (69, 48), (24, 15), (-30, 33));
    lemma_gt_mul_at((69, 48), (69, 48), (33, 78), (24, 42));
    assert(GT::spow_steps(GT(gt_of(26, 100)), GT(gt_of(69, 48)), 37) == GT::spow_steps(GT(gt_of(24, 15)), GT(gt_of(33, 78)), 18));
    lemma_gt_mul_at((33, 78), (33, 78), (55, 74), (-50, -10));
    assert(GT::spow_steps(GT(gt_of(24, 15)), GT(gt_of(33, 78)), 18) == GT::spow_steps(GT(gt_of(24, 15)), GT(gt_of(55, 74)), 9));
    lemma_gt_mul_at((24, 15), (55, 74), (8, 77), (2, 14));
    lemma_gt_mul_at((55, 74), (55, 74), (74, 38), (-25, 26));
    assert(GT::spow_steps(GT(gt_of(24, 15)), GT(gt_of(55, 74)), 9) == GT::spow_steps(GT(gt_of(8, 77)), GT(gt_of(74, 38)), 4));
    lemma_gt_mul_at((74, 38), (74, 38), (93, 39), (39, 41));
    assert(GT::spow_steps(GT(gt_of(8, 77)), GT(gt_of(74, 38)), 4) == GT::spow_steps(GT(gt_of(8, 77)), GT(gt_of(93, 39)), 2));
    lemma_gt_mul_at((93, 39), (93, 39), (58, 77), (70, 56));
    assert(GT::spow_steps(GT(gt_of(8, 77)), GT(gt_of(93, 39)), 2) == GT::spow_steps(GT(gt_of(8, 77)), GT(gt_of(58, 77)), 1));
    lemma_gt_mul_at((8, 77), (58, 77), (90, 62), (-55, -9));
    lemma_gt_mul_at((58, 77), (58, 77), (61, 74), (-26, 29));
    assert(GT::spow_steps(GT(gt_of(8, 77)), GT(gt_of(58, 77)), 1) == GT::spow_steps(GT(gt_of(90, 62)), GT(gt_of(61, 74)), 0));
}

/// The pairing of `11G` with the point `21 P` of the image of `H`.
proof fn lemma_pairing_11_21()
    ensures
        smiller_loop(g1p(32, 59), dq(60, 41)) is Some,
        spairing_at(g1p(32, 59), dq(60, 41)) == GT(gt_of(90, 62)),
{
    lemma_final_exponent();
    lemma_tangent_11_21();
    lemma_tangent_5_21();
    lemma_tangent_10_21();
    lemma_tangent_3_21();
    lemma_vertical_at(32, 42, 59, 60, 41);
    lemma_miller_at(
        g1p(32, 59),
        dq(60, 41),
        (g1p(12, 32), g1p(91, 66), g1p(26, 45), g1p(32, 42)),
        (71, 84),
        (7, 67),
        (86, 5),
        (15, 64),
        (-32, 60),
        ((5, 24, -20, 48), (43, 6, -16, -11), (96, 76, 17, 4), (99, 71, 77, 65)),
        ((13, 28, 47, 89), (19, 66, -16, -6), (78, 17, -46, -49)),
    );
    lemma_final_exp_11_21();
}

proof fn lemma_final_exp_12_21()
    ensures
        GT(gt_of(8, 27)).spow(600) == GT(gt_of(71, 57)),
{
    assert(GT::sone() == GT(gt_of(1, 0)));
    lemma_gt_mul_at((8, 27), (8, 27), (42, 6), (-7, -3));
    assert(GT::spow_steps(GT(gt_of(1, 0)), GT(gt_of(8, 27)), 600) == GT::spow_steps(GT(gt_of(1, 0)), GT(gt_of(42, 6)), 300));
    lemma_gt_mul_at((42, 6), (42, 6), (11, 64), (17, 4));
    assert(GT::spow_steps(GT(gt_of(1, 0)), GT(gt_of(42, 6)), 300) == GT::spow_steps(GT(gt_of(1, 0)), GT(gt_of(11, 64)), 150));
    lemma_gt_mul_at((11, 64), (11, 64), (65, 39), (-40, -27));
    assert(GT::spow_steps(GT(gt_of(1, 0)), GT(gt_of(11, 64)), 150) == GT::spow_steps(GT(gt_of(1, 0)), GT(gt_of(65, 39)), 75));
    lemma_gt_mul_at((1, 0), (65, 39), (65, 39), (0, 0));
    lemma_gt_mul_at((65, 39), (65, 39), (78, 14), (26, 35));
    assert(GT::spow_steps(GT(gt_of(1, 0)), GT(gt_of(65, 39)), 75) == GT::spow_steps(GT(gt_of(65, 39)), GT(gt_of(78, 14)), 37));
    lemma_gt_mul_at((65, 39), (78, 14), (80, 73), (44, 33));
    lemma_gt_mul_at((78, 14), (78, 14), (30, 69), (58, 19));
    assert(GT::spow_steps(GT(gt_of(65, 39)), GT(gt_of(78, 14)), 37) == GT::spow_steps(GT(gt_of(80, 73)), GT(gt_of(30, 69)), 18));
    lemma_gt_mul_at((30, 69), (30, 69), (78, 86), (-39, -7));
    assert(GT::spow_steps(GT(gt_of(80, 73)), GT(gt_of(30, 69)), 18) == GT::spow_steps(GT(gt_of(80, 73)), GT(gt_of(78, 86)), 9));
    lemma_gt_mul_at((80, 73), (78, 86), (63, 34), (-1, 62));
    lemma_gt_mul_at((78, 86), (78, 86), (1, 61), (-13, 59));
    assert(GT::spow_steps(GT(gt_of(80, 73)), GT(gt_of(78, 86)), 9) == GT::spow_steps(GT(gt_of(63, 34)), GT(gt_of(1, 61)), 4));
    lemma_gt_mul_at((1, 61), (1, 61), (17, 37), (-37, -36));
    assert(GT::spow_steps(GT(gt_of(63, 34)), GT(gt_of(1, 61)), 4) == GT::spow_steps(GT(gt_of(63, 34)), GT(gt_of(17, 37)), 2));
    lemma_gt_mul_at((17, 37), (17, 37), (31, 91), (-11, -2));
    assert(GT::spow_steps(GT(gt_of(63, 34)), GT(gt_of(17, 37)), 2) == GT::spow_steps(GT(gt_of(63, 34)), GT(gt_of(31, 91)), 1));
    lemma_gt_mul_at((63, 34), (31, 91), (71, 57), (-12, 36));
    lemma_gt_mul_at((31, 91), (31, 91), (53, 88), (-73, -27));
    assert(GT::spow_steps(GT(gt_of(63, 34)), GT(gt_of(31, 91)), 1) == GT::spow_steps(GT(gt_of(71, 57)), GT(gt_of(53, 88)), 0));
}

/// The pairing of `12G` with the point `21 P` of the image of `H`.
proof fn lemma_pairing_12_21()
    ensures
        smiller_loop(g1p(12, 69), dq(60, 41)) is Some,
        spairing_at(g1p(12, 69), dq(60, 41)) == GT(gt_of(71, 57)),
{
    lemma_final_exponent();
    lemma_tangent_12_21();
    lemma_tangent_7_21();
    lemma_tangent_14_21();
    lemma_tangent_11_21();
    lemma_vertical_at(12, 32, 69, 60, 41);
    lemma_miller_at(
        g1p(12, 69),
        dq(60, 41),
        (g1p(91, 35), g1p(26, 56), g1p(32, 59), g1p(12, 32)),
        (21, 7),
        (5, 35),
        (22, 26),
        (71, 84),
        (-12, 60),
        ((89, 43, 3, 2), (51, 7, -11, 18), (27, 59, 25, 6), (70, 62, -10, 4)),
        ((46, 89, 10, 47), (32, 81, -42, 26), (8, 27, -52, -39)),
    );
    lemma_final_exp_12_21();
}

proof fn lemma_final_exp_13_21()
    ensures
        GT(gt_of(77, 6)).spow(600) == GT(gt_of(96, 29)),
{
    assert(GT::sone() == GT(gt_of(1, 0)));
    lemma_gt_mul_at((77, 6), (77, 6), (35, 80), (58, 8));
    assert(GT::spow_steps(GT(gt_of(1, 0)), GT(gt_of(77, 6)), 600) == GT::spow_steps(GT(gt_of(1, 0)), GT(gt_of(35, 80)), 300));
    lemma_gt_mul_at((35, 80), (35, 80), (77, 8), (-52, -8));
    assert(GT::spow_steps(GT(gt_of(1, 0)), GT(gt_of(35, 80)), 300) == GT::spow_steps(GT(gt_of(1, 0)), GT(gt_of(77, 8)), 150));
    lemma_gt_mul_at((77, 8), (77, 8), (7, 57), (58, 11));
    assert(GT::spow_steps(GT(gt_of(1, 0)), GT(gt_of(77, 8)), 150) == GT::spow_steps(GT(gt_of(1, 0)), GT(gt_of(7, 57)), 75));
    lemma_gt_mul_at((1, 0), (7, 57), (7, 57), (0, 0));
    lemma_gt_mul_at((7, 57), (7, 57), (32, 74), (-32, -25));
    assert(GT::spow_steps(GT(gt_of(1, 0)), GT(gt_of(7, 57)), 75) == GT::spow_steps(GT(gt_of(7, 57)), GT(gt_of(32, 74)), 37));
    lemma_gt_mul_at((7, 57), (32, 74), (46, 43), (-40, -19));
    lemma_gt_mul_at((32, 74), (32, 74), (93, 68), (-45, -8));
    assert(GT::spow_steps(GT(gt_of(7, 57)), GT(gt_of(32, 74)), 37) == GT::spow_steps(GT(gt_of(46, 43)), GT(gt_of(93, 68)), 18));
    lemma_gt_mul_at((93, 68), (93, 68), (86, 45), (39, 79));
    assert(GT::spow_steps(GT(gt_of(46, 43)), GT(gt_of(93, 68)), 18) == GT::spow_steps(GT(gt_of(46, 43)), GT(gt_of(86, 45)), 9));
    lemma_gt_mul_at((46, 43), (86, 45), (1, 96), (20, 37));
    lemma_gt_mul_at((86, 45), (86, 45), (18, 59), (53, 56));
    assert(GT::spow_steps(GT(gt_of(46, 43)), GT(gt_of(86, 45)), 9) == GT::spow_steps(GT(gt_of(1, 96)), GT(gt_of(18, 59)), 4));
    lemma_gt_mul_at((18, 59), (18, 59), (75, 57), (-32, -14));
    assert(GT::spow_steps(GT(gt_of(1, 96)), GT(gt_of(18, 59)), 4) == GT::spow_steps(GT(gt_of(1, 96)), GT(gt_of(75, 57)), 2));
    lemma_gt_mul_at((75, 57), (75, 57), (53, 49), (23, 52));
    assert(GT::spow_steps(GT(gt_of(1, 96)), GT(gt_of(75, 57)), 2) == GT::spow_steps(GT(gt_of(1, 96)), GT(gt_of(53, 49)), 1));
    lemma_gt_mul_at((1, 96), (53, 49), (96, 29), (-47, 4));
    lemma_gt_mul_at((53, 49), (53, 49), (4, 66), (4, 27));
    assert(GT::spow_steps(GT(gt_of(1, 96)), GT(gt_of(53, 49)), 1) == GT::spow_steps(GT(gt_of(96, 29)), GT(gt_of(4, 66)), 0));
}

/// The pairing of `13G` with the point `21 P` of the image of `H`.
proof fn lemma_pairing_13_21()
    ensures
        smiller_loop(g1p(65, 3), dq(60, 41)) is Some,
        spairing_at(g1p(65, 3), dq(60, 41)) == GT(gt_of(96, 29)),
{
    lemma_final_exponent();
    lemma_tangent_13_21();
    lemma_tangent_9_21();
    lemma_tangent_1_21();
    lemma_tangent_2_21();
    lemma_vertical_at(65, 98, 3, 60, 41);
    lemma_miller_at(
        g1p(65, 3),
        dq(60, 41),
        (g1p(18, 52), g1p(1, 2), g1p(68, 74), g1p(65, 98)),
        (63, 73),
        (68, 18),
        (96, 13),
        (77, 16),
        (-65, 60),
        ((54, 31, -14, 38), (84, 98, 30, 24), (78, 93, -26, 67), (17, 47, 62, 86)),
        ((100, 96, -20, -7), (3, 83, 61, 73), (77, 6, -52, -101)),
    );
    lemma_final_exp_13_21();
}

proof fn lemma_final_exp_14_21()
    ensures
        GT(gt_of(18, 68)).spow(600) == GT(gt_of(61, 46)),
{
    assert(GT::sone() == GT(gt_of(1, 0)));
    lemma_gt_mul_at((18, 68), (18, 68), (43, 46), (-43, -22));
    assert(GT::spow_steps(GT(gt_of(1, 0)), GT(gt_of(18, 68)), 600) == GT::spow_steps(GT(gt_of(1, 0)), GT(gt_of(43, 46)), 300));
    lemma_gt_mul_at((43, 46), (43, 46), (36, 22), (-3, 18));
    assert(GT::spow_steps(GT(gt_of(1, 0)), GT(gt_of(43, 46)), 300) == GT::spow_steps(GT(gt_of(1, 0)), GT(gt_of(36, 22)), 150));
    lemma_gt_mul_at((36, 22), (36, 22), (4, 90), (8, 10));
    assert(GT::spow_steps(GT(gt_of(1, 0)), GT(gt_of(36, 22)), 150) == GT::spow_steps(GT(gt_of(1, 0)), GT(gt_of(4, 90)), 75));
    lemma_gt_mul_at((1, 0), (4, 90), (4, 90), (0, 0));
    lemma_gt_mul_at((4, 90), (4, 90), (97, 94), (-81, -74));
    assert(GT::spow_steps(GT(gt_of(1, 0)), GT(gt_of(4, 90)), 75) == GT::spow_steps(GT(gt_of(4, 90)), GT(gt_of(97, 94)), 37));
    lemma_gt_mul_at((4, 90), (97, 94), (8, 40), (-80, 6));
    lemma_gt_mul_at((97, 94), (97, 94), (68, 7), (5, 93));
    assert(GT::spow_steps(GT(gt_of(4, 90)), GT(gt_of(97, 94)), 37) == GT::spow_steps(GT(gt_of(8, 40)), GT(gt_of(68, 7)), 18));
    lemma_gt_mul_at((68, 7), (68, 7), (30, 95), (45, 8));
    assert(GT::spow_steps(GT(gt_of(8, 40)), GT(gt_of(68, 7)), 18) == GT::spow_steps(GT(gt_of(8, 40)), GT(gt_of(30, 95)), 9));
    lemma_gt_mul_at((8, 40), (30, 95), (76, 79), (-36, -19));
    lemma_gt_mul_at((30, 95), (30, 95), (56, 8), (-81, -33));
    assert(GT::spow_steps(GT(gt_of(8, 40)), GT(gt_of(30, 95)), 9) == GT::spow_steps(GT(gt_of(76, 79)), GT(gt_of(56, 8)), 4));
    lemma_gt_mul_at((56, 8), (56, 8), (42, 24), (30, 8));
    assert(GT::spow_steps(GT(gt_of(76, 79)), GT(gt_of(56, 8)), 4) == GT::spow_steps(GT(gt_of(76, 79)), GT(gt_of(42, 24)), 2));
    lemma_gt_mul_at((42, 24), (42, 24), (77, 26), (11, 14));
    assert(GT::spow_steps(GT(gt_of(76, 79)), GT(gt_of(42, 24)), 2) == GT::spow_steps(GT(gt_of(76, 79)), GT(gt_of(77, 26)), 1));
    lemma_gt_mul_at((76, 79), (77, 26), (61, 46), (37, 59));
    lemma_gt_mul_at((77, 26), (77, 26), (1, 96), (52, 32));
    assert(GT::spow_steps(GT(gt_of(76, 79)), GT(gt_of(77, 26)), 1) == GT::spow_steps(GT(gt_of(61, 46)), GT(gt_of(1, 96)), 0));
}

/// The pairing of `14G` with the point `21 P` of the image of `H`.
proof fn lemma_pairing_14_21()
    ensures
        smiller_loop(g1p(26, 56), dq(60, 41)) is Some,
        spairing_at(g1p(26, 56), dq(60, 41)) == GT(gt_of(61, 46)),
{
    lemma_final_exponent();
    lemma_tangent_14_21();
    lemma_tangent_11_21();
    lemma_tangent_5_21();
    lemma_tangent_10_21();
    lemma_vertical_at(26, 45, 56, 60, 41);
    lemma_miller_at(
        g1p(26, 56),
        dq(60, 41),
        (g1p(32, 59), g1p(12, 32), g1p(91, 66), g1p(26, 45)),
        (22, 26),
        (71, 84),
        (7, 67),
        (86, 5),
        (-26, 60),
        ((10, 64, -2, 4), (81, 8, -47, 0), (33, 20, 64, 12), (2, 1, -11, 10)),
        ((3, 3, 0, 0), (41, 56, 2, 2), (18, 68, -44, -24)),
    );
    lemma_final_exp_14_21();
}

proof fn lemma_final_exp_15_21()
    ensures
        GT(gt_of(52, 31)).spow(600) == GT(gt_of(51, 9)),
{
    assert(GT::sone() == GT(gt_of(1, 0)));
    lemma_gt_mul_at((52, 31), (52, 31), (26, 41), (17, 22));
    assert(GT::spow_steps(GT(gt_of(1, 0)), GT(gt_of(52, 31)), 600) == GT::spow_steps(GT(gt_of(1, 0)), GT(gt_of(26, 41)), 300));
    lemma_gt_mul_at((26, 41), (26, 41), (5, 47), (-10, 4));
    assert(GT::spow_steps(GT(gt_of(1, 0)), GT(gt_of(26, 41)), 300) == GT::spow_steps(GT(gt_of(1, 0)), GT(gt_of(5, 47)), 150));
    lemma_gt_mul_at((5, 47), (5, 47), (38, 79), (-22, -18));
    assert(GT::spow_steps(GT(gt_of(1, 0)), GT(gt_of(5, 47)), 150) == GT::spow_steps(GT(gt_of(1, 0)), GT(gt_of(38, 79)), 75));
    lemma_gt_mul_at((1, 0), (38, 79), (38, 79), (0, 0));
    lemma_gt_mul_at((38, 79), (38, 79), (51, 66), (-48, -3));
    assert(GT::spow_steps(GT(gt_of(1, 0)), GT(gt_of(38, 79)), 75) == GT::spow_steps(GT(gt_of(38, 79)), GT(gt_of(51, 66)), 37));
    lemma_gt_mul_at((38, 79), (51, 66), (57, 10), (-33, 13));
    lemma_gt_mul_at((51, 66), (51, 66), (63, 53), (-18, 23));
    assert(GT::spow_steps(GT(gt_of(38, 79)), GT(gt_of(51, 66)), 37) == GT::spow_steps(GT(gt_of(57, 10)), GT(gt_of(63, 53)), 18));
    lemma_gt_mul_at((63, 53), (63, 53), (49, 31), (11, 38));
    assert(GT::spow_steps(GT(gt_of(57, 10)), GT(gt_of(63, 53)), 18) == GT::spow_steps(GT(gt_of(57, 10)), GT(gt_of(49, 31)), 9));
    lemma_gt_mul_at((57, 10), (49, 31), (59, 28), (24, 19));
    lemma_gt_mul_at((49, 31), (49, 31), (26, 57), (14, 20));
    assert(GT::spow_steps(GT(gt_of(57, 10)), GT(gt_of(49, 31)), 9) == GT::spow_steps(GT(gt_of(59, 28)), GT(gt_of(26, 57)), 4));
    lemma_gt_mul_at((26, 57), (26, 57), (53, 18), (-26, -3));
    assert(GT::spow_steps(GT(gt_of(59, 28)), GT(gt_of(26, 57)), 4) == GT::spow_steps(GT(gt_of(59, 28)), GT(gt_of(53, 18)), 2));
    lemma_gt_mul_at((53, 18), (53, 18), (61, 69), (24, 15));
    assert(GT::spow_steps(GT(gt_of(59, 28)), GT(gt_of(53, 18)), 2) == GT::spow_steps(GT(gt_of(59, 28)), GT(gt_of(61, 69)), 1));
    lemma_gt_mul_at((59, 28), (61, 69), (51, 9), (16, 38));
    lemma_gt_mul_at((61, 69), (61, 69), (71, 21), (-11, 36));
    assert(GT::spow_steps(GT(gt_of(59, 28)), GT(gt_of(61, 69)), 1) == GT::spow_steps(GT(gt_of(51, 9)), GT(gt_of(71, 21)), 0));
}

/// The pairing of `15G` with the point `21 P` of the image of `H`.
proof fn lemma_pairing_15_21()
    ensures
        smiller_loop(g1p(68, 27), dq(60, 41)) is Some,
        spairing_at(g1p(68, 27), dq(60, 41)) == GT(gt_of(51, 9)),
{
    lemma_final_exponent();
    lemma_tangent_15_21();
    lemma_tangent_13_21();
    lemma_tangent_9_21();
    lemma_tangent_1_21();
    lemma_vertical_at(68, 74, 27, 60, 41);
    lemma_miller_at(
        g1p(68, 27),
        dq(60, 41),
        (g1p(65, 3), g1p(18, 52), g1p(1, 2), g1p(68, 74)),
        (41, 77),
        (63, 73),
        (68, 18),
        (96, 13),
        (-68, 60),
        ((95, 82, -43, 3), (100, 55, -1, 60), (6, 97, 69, 78), (76, 9, -14, 49)),
        ((39, 75, 56, 12), (42, 66, 27, 66), (52, 31, -68, -59)),
    );
    lemma_final_exp_15_21();
}

proof fn lemma_final_exp_16_21()
    ensures
        GT(gt_of(62, 49)).spow(600) == GT(gt_of(47, 80)),
{
    assert(GT::sone() == GT(gt_of(1, 0)));
    lemma_gt_mul_at((62, 49), (62, 49), (29, 39), (14, 36));
    assert(GT::spow_steps(GT(gt_of(1, 0)), GT(gt_of(62, 49)), 600) == GT::spow_steps(GT(gt_of(1, 0)), GT(gt_of(29, 39)), 300));
    lemma_gt_mul_at((29, 39), (29, 39), (27, 34), (-7, 7));
    assert(GT::spow_steps(GT(gt_of(1, 0)), GT(gt_of(29, 39)), 300) == GT::spow_steps(GT(gt_of(1, 0)), GT(gt_of(27, 34)), 150));
    lemma_gt_mul_at((27, 34), (27, 34), (78, 74), (-5, 6));
    assert(GT::spow_steps(GT(gt_of(1, 0)), GT(gt_of(27, 34)), 150) == GT::spow_steps(GT(gt_of(1, 0)), GT(gt_of(78, 74)), 75));
    lemma_gt_mul_at((1, 0), (78, 74), (78, 74), (0, 0));
    lemma_gt_mul_at((78, 74), (78, 74), (2, 8), (6, 60));
    assert(GT::spow_steps(GT(gt_of(1, 0)), GT(gt_of(78, 74)), 75) == GT::spow_steps(GT(gt_of(78, 74)), GT(gt_of(2, 8)), 37));
    lemma_gt_mul_at((78, 74), (2, 8), (69, 79), (-5, 1));
    lemma_gt_mul_at((2, 8), (2, 8), (41, 69), (-1, -1));
    assert(GT::spow_steps(GT(gt_of(78, 74)), GT(gt_of(2, 8)), 37) == GT::spow_steps(GT(gt_of(69, 79)), GT(gt_of(41, 69)), 18));
    lemma_gt_mul_at((41, 69), (41, 69), (51, 89), (-31, 8));
    assert(GT::spow_steps(GT(gt_of(69, 79)), GT(gt_of(41, 69)), 18) == GT::spow_steps(GT(gt_of(69, 79)), GT(gt_of(51, 89)), 9));
    lemma_gt_mul_at((69, 79), (51, 89), (23, 8), (-35, 31));
    lemma_gt_mul_at((51, 89), (51, 89), (33, 46), (-53, 11));
    assert(GT::spow_steps(GT(gt_of(69, 79)), GT(gt_of(51, 89)), 9) == GT::spow_steps(GT(gt_of(23, 8)), GT(gt_of(33, 46)), 4));
    lemma_gt_mul_at((33, 46), (33, 46), (84, 11), (-11, 9));
    assert(GT::spow_steps(GT(gt_of(23, 8)), GT(gt_of(33, 46)), 4) == GT::spow_steps(GT(gt_of(23, 8)), GT(gt_of(84, 11)), 2));
    lemma_gt_mul_at((84, 11), (84, 11), (67, 10), (68, 17));
    assert(GT::spow_steps(GT(gt_of(23, 8)), GT(gt_of(84, 11)), 2) == GT::spow_steps(GT(gt_of(23, 8)), GT(gt_of(67, 10)), 1));
    lemma_gt_mul_at((23, 8), (67, 10), (47, 80), (14, 6));
    lemma_gt_mul_at((67, 10), (67, 10), (46, 28), (43, 12));
    assert(GT::spow_steps(GT(gt_of(23, 8)), GT(gt_of(67, 10)), 1) == GT::spow_steps(GT(gt_of(47, 80)), GT(gt_of(46, 28)), 0));
}

/// The pairing of `16G` with the point `21 P` of the image of `H`.
proof fn lemma_pairing_16_21()
    ensures
        smiller_loop(g1p(1, 99), dq(60, 41)) is Some,
        spairing_at(g1p(1, 99), dq(60, 41)) == GT(gt_of(47, 80)),
{
    lemma_final_exponent();
    lemma_tangent_16_21();
    lemma_tangent_15_21();
    lemma_tangent_13_21();
    lemma_tangent_9_21();
    lemma_vertical_at(1, 2, 99, 60, 41);
    lemma_miller_at(
        g1p(1, 99),
        dq(60, 41),
        (g1p(68, 27), g1p(65, 3), g1p(18, 52), g1p(1, 2)),
        (27, 92),
        (41, 77),
        (63, 73),
        (68, 18),
        (-1, 60),
        ((42, 39, -77, -35), (32, 12, -13, 18), (72, 18, 8, 6), (91, 26, 31, 50)),
        ((30, 16, 75, 40), (35, 27, 17, 13), (62, 49, -17, 4)),
    );
    lemma_final_exp_16_21();
}

proof fn lemma_final_exp_1_22()
    ensures
        GT(gt_of(12, 92)).spow(600) == GT(gt_of(61, 46)),
{
    assert(GT::sone() == GT(gt_of(1, 0)));
    lemma_gt_mul_at((12, 92), (12, 92), (63, 6), (-83, -62));
    assert(GT::spow_steps(GT(gt_of(1, 0)), GT(gt_of(12, 92)), 600) == GT::spow_steps(GT(gt_of(1, 0)), GT(gt_of(63, 6)), 300));
    lemma_gt_mul_at((63, 6), (63, 6), (95, 13), (38, 7));
    assert(GT::spow_steps(GT(gt_of(1, 0)), GT(gt_of(63, 6)), 300) == GT::spow_steps(GT(gt_of(1, 0)), GT(gt_of(95, 13)), 150));
    lemma_gt_mul_at((95, 13), (95, 13), (69, 79), (87, 22));
    assert(GT::spow_steps(GT(gt_of(1, 0)), GT(gt_of(95, 13)), 150) == GT::spow_steps(GT(gt_of(1, 0)), GT(gt_of(69, 79)), 75));
    lemma_gt_mul_at((1, 0), (69, 79), (69, 79), (0, 0));
    lemma_gt_mul_at((69, 79), (69, 79), (35, 15), (-15, 46));
    assert(GT::spow_steps(GT(gt_of(1, 0)), GT(gt_of(69, 79)), 75) == GT::spow_steps(GT(gt_of(69, 79)), GT(gt_of(35, 15)), 37));
    lemma_gt_mul_at((69, 79), (35, 15), (18, 90), (12, 25));
    lemma_gt_mul_at((35, 15), (35, 15), (91, 17), (9, 8));
    assert(GT::spow_steps(GT(gt_of(69, 79)), GT(gt_of(35, 15)), 37) == GT::spow_steps(GT(gt_of(18, 90)), GT(gt_of(91, 17)), 18));
    lemma_gt_mul_at((91, 17), (91, 17), (13, 78), (79, 27));
    assert(GT::spow_steps(GT(gt_of(18, 90)), GT(gt_of(91, 17)), 18) == GT::spow_steps(GT(gt_of(18, 90)), GT(gt_of(13, 78)), 9));
    lemma_gt_mul_at((18, 90), (13, 78), (82, 99), (-68, -45));
    lemma_gt_mul_at((13, 78), (13, 78), (44, 85), (-59, -41));
    assert(GT::spow_steps(GT(gt_of(18, 90)), GT(gt_of(13, 78)), 9) == GT::spow_steps(GT(gt_of(82, 99)), GT(gt_of(44, 85)), 4));
    lemma_gt_mul_at((44, 85), (44, 85), (64, 53), (-53, 2));
    assert(GT::spow_steps(GT(gt_of(82, 99)), GT(gt_of(44, 85)), 4) == GT::spow_steps(GT(gt_of(82, 99)), GT(gt_of(64, 53)), 2));
    lemma_gt_mul_at((64, 53), (64, 53), (75, 36), (12, 39));
    assert(GT::spow_steps(GT(gt_of(82, 99)), GT(gt_of(64, 53)), 2) == GT::spow_steps(GT(gt_of(82, 99)), GT(gt_of(75, 36)), 1));
    lemma_gt_mul_at((82, 99), (75, 36), (61, 46), (25, 67));
    lemma_gt_mul_at((75, 36), (75, 36), (87, 64), (42, 40));
    assert(GT::spow_steps(GT(gt_of(82, 99)), GT(gt_of(75, 36)), 1) == GT::spow_steps(GT(gt_of(61, 46)), GT(gt_of(87, 64)), 0));
}

/// The pairing of `1G` with the point `22 P` of the image of `H`.
proof fn lemma_pairing_1_22()
    ensures
        smiller_loop(g1p(1, 2), dq(91, 35)) is Some,
        spairing_at(g1p(1, 2), dq(91, 35)) == GT(gt_of(61, 46)),
{
    lemma_final_exponent();
    lemma_tangent_1_22();
    lemma_tangent_2_22();
    lemma_tangent_4_22();
    lemma_tangent_8_22();
    lemma_vertical_at(1, 99, 2, 91, 35);
    lemma_miller_at(
        g1p(1, 2),
        dq(91, 35),
        (g1p(68, 74), g1p(65, 98), g1p(18, 49), g1p(1, 99)),
        (60, 20),
        (84, 60),
        (26, 20),
        (62, 68),
        (-1, 91),
        ((69, 81, 31, 19), (27, 24, 9, 60), (52, 13, 1, 7), (82, 7, 10, 11)),
        ((9, 89, 66, 10), (61, 78, -55, 0), (12, 92, -71, -17)),
    );
    lemma_final_exp_1_22();
}

proof fn lemma_final_exp_2_22()
    ensures
        GT(gt_of(19, 15)).spow(600) == GT(gt_of(90, 62)),
{
    assert(GT::sone() == GT(gt_of(1, 0)));
    lemma_gt_mul_at((19, 15), (19, 15), (35, 42), (1, 3));
    assert(GT::spow_steps(GT(gt_of(1, 0)), GT(gt_of(19, 15)), 600) == GT::spow_steps(GT(gt_of(1, 0)), GT(gt_of(35, 42)), 300));
    lemma_gt_mul_at((35, 42), (35, 42), (67, 65), (-6, 11));
    assert(GT::spow_steps(GT(gt_of(1, 0)), GT(gt_of(35, 42)), 300) == GT::spow_steps(GT(gt_of(1, 0)), GT(gt_of(67, 65)), 150));
    lemma_gt_mul_at((67, 65), (67, 65), (62, 41), (2, 44));
    assert(GT::spow_steps(GT(gt_of(1, 0)), GT(gt_of(67, 65)), 150) == GT::spow_steps(GT(gt_of(1, 0)), GT(gt_of(62, 41)), 75));
    lemma_gt_mul_at((1, 0), (62, 41), (62, 41), (0, 0));
    lemma_gt_mul_at((62, 41), (62, 41), (42, 70), (21, 33));
    assert(GT::spow_steps(GT(gt_of(1, 0)), GT(gt_of(62, 41)), 75) == GT::spow_steps(GT(gt_of(62, 41)), GT(gt_of(42, 70)), 37));
    lemma_gt_mul_at((62, 41), (42, 70), (37, 61), (-3, 31));
    lemma_gt_mul_at((42, 70), (42, 70), (96, 71), (-32, 9));
    assert(GT::spow_steps(GT(gt_of(62, 41)), GT(gt_of(42, 70)), 37) == GT::spow_steps(GT(gt_of(37, 61)), GT(gt_of(96, 71)), 18));
    lemma_gt_mul_at((96, 71), (96, 71), (34, 6), (41, 85));
    assert(GT::spow_steps(GT(gt_of(37, 61)), GT(gt_of(96, 71)), 18) == GT::spow_steps(GT(gt_of(37, 61)), GT(gt_of(34, 6)), 9));
    lemma_gt_mul_at((37, 61), (34, 6), (84, 11), (8, 19));
    lemma_gt_mul_at((34, 6), (34, 6), (9, 69), (11, 3));
    assert(GT::spow_steps(GT(gt_of(37, 61)), GT(gt_of(34, 6)), 9) == GT::spow_steps(GT(gt_of(84, 11)), GT(gt_of(9, 69)), 4));
    lemma_gt_mul_at((9, 69), (9, 69), (67, 16), (-47, -35));
    assert(GT::spow_steps(GT(gt_of(84, 11)), GT(gt_of(9, 69)), 4) == GT::spow_steps(GT(gt_of(84, 11)), GT(gt_of(67, 16)), 2));
    lemma_gt_mul_at((67, 16), (67, 16), (92, 70), (41, 18));
    assert(GT::spow_steps(GT(gt_of(84, 11)), GT(gt_of(67, 16)), 2) == GT::spow_steps(GT(gt_of(84, 11)), GT(gt_of(92, 70)), 1));
    lemma_gt_mul_at((84, 11), (92, 70), (90, 62), (68, 60));
    lemma_gt_mul_at((92, 70), (92, 70), (29, 1), (35, 79));
    assert(GT::spow_steps(GT(gt_of(84, 11)), GT(gt_of(92, 70)), 1) == GT::spow_steps(GT(gt_of(90, 62)), GT(gt_of(29, 1)), 0));
}

/// The pairing of `2G` with the point `22 P` of the image of `H`.
proof fn lemma_pairing_2_22()
    ensures
        smiller_loop(g1p(68, 74), dq(91, 35)) is Some,
        spairing_at(g1p(68, 74), dq(91, 35)) == GT(gt_of(90, 62)),
{
    lemma_final_exponent();
    lemma_tangent_2_22();
    lemma_tangent_4_22();
    lemma_tangent_8_22();
    lemma_tangent_16_22();
    lemma_vertical_at(68, 27, 74, 91, 35);
    lemma_miller_at(
        g1p(68, 74),
        dq(91, 35),
        (g1p(65, 98), g1p(18, 49), g1p(1, 99), g1p(68, 27)),
        (84, 60),
        (26, 20),
        (62, 68),
        (36, 54),
        (-68, 91),
        ((22, 16, 34, 64), (50, 31, 2, 5), (24, 18, 15, 21), (62, 9, 2, 15)),
        ((26, 25, 37, 10), (91, 45, -5, 9), (19, 15, -102, 11)),
    );
    lemma_final_exp_2_22();
}

proof fn lemma_final_exp_3_22()
    ensures
        GT(gt_of(30, 72)).spow(600) == GT(gt_of(12, 20)),
{
    assert(GT::sone() == GT(gt_of(1, 0)));
    lemma_gt_mul_at((30, 72), (30, 72), (59, 45), (-43, -9));
    assert(GT::spow_steps(GT(gt_of(1, 0)), GT(gt_of(30, 72)), 600) == GT::spow_steps(GT(gt_of(1, 0)), GT(gt_of(59, 45)), 300));
    lemma_gt_mul_at((59, 45), (59, 45), (42, 53), (14, 32));
    assert(GT::spow_steps(GT(gt_of(1, 0)), GT(gt_of(59, 45)), 300) == GT::spow_steps(GT(gt_of(1, 0)), GT(gt_of(42, 53)), 150));
    lemma_gt_mul_at((42, 53), (42, 53), (66, 27), (-11, 16));
    assert(GT::spow_steps(GT(gt_of(1, 0)), GT(gt_of(42, 53)), 150) == GT::spow_steps(GT(gt_of(1, 0)), GT(gt_of(66, 27)), 75));
    lemma_gt_mul_at((1, 0), (66, 27), (66, 27), (0, 0));
    lemma_gt_mul_at((66, 27), (66, 27), (92, 7), (35, 28));
    assert(GT::spow_steps(GT(gt_of(1, 0)), GT(gt_of(66, 27)), 75) == GT::spow_steps(GT(gt_of(66, 27)), GT(gt_of(92, 7)), 37));
    lemma_gt_mul_at((66, 27), (92, 7), (25, 30), (58, 27));
    lemma_gt_mul_at((92, 7), (92, 7), (32, 27), (83, 12));
    assert(GT::spow_steps(GT(gt_of(66, 27)), GT(gt_of(92, 7)), 37) == GT::spow_steps(GT(gt_of(25, 30)), GT(gt_of(32, 27)), 18));
    lemma_gt_mul_at((32, 27), (32, 27), (93, 90), (2, 9));
    assert(GT::spow_steps(GT(gt_of(25, 30)), GT(gt_of(32, 27)), 18) == GT::spow_steps(GT(gt_of(25, 30)), GT(gt_of(93, 90)), 9));
    lemma_gt_mul_at((25, 30), (93, 90), (29, 17), (-4, 23));
    lemma_gt_mul_at((93, 90), (93, 90), (44, 55), (5, 85));
    assert(GT::spow_steps(GT(gt_of(25, 30)), GT(gt_of(93, 90)), 9) == GT::spow_steps(GT(gt_of(29, 17)), GT(gt_of(44, 55)), 4));
    lemma_gt_mul_at((44, 55), (44, 55), (22, 98), (-11, 17));
    assert(GT::spow_steps(GT(gt_of(29, 17)), GT(gt_of(44, 55)), 4) == GT::spow_steps(GT(gt_of(29, 17)), GT(gt_of(22, 98)), 2));
    lemma_gt_mul_at((22, 98), (22, 98), (71, 61), (-91, -53));
    assert(GT::spow_steps(GT(gt_of(29, 17)), GT(gt_of(22, 98)), 2) == GT::spow_steps(GT(gt_of(29, 17)), GT(gt_of(71, 61)), 1));
    lemma_gt_mul_at((29, 17), (71, 61), (12, 20), (10, 19));
    lemma_gt_mul_at((71, 61), (71, 61), (7, 93), (13, 48));
    assert(GT::spow_steps(GT(gt_of(29, 17)), GT(gt_of(71, 61)), 1) == GT::spow_steps(GT(gt_of(12, 20)), GT(gt_of(7, 93)), 0));
}

/// The pairing of `3G` with the point `22 P` of the image of `H`.
proof fn lemma_pairing_3_22()
    ensures
        smiller_loop(g1p(26, 45), dq(91, 35)) is Some,
        spairing_at(g1p(26, 45), dq(91, 35)) == GT(gt_of(12, 20)),
{
    lemma_final_exponent();
    lemma_tangent_3_22();
    lemma_tangent_6_22();
    lemma_tangent_12_22();
    lemma_tangent_7_22();
    lemma_vertical_at(26, 56, 45, 91, 35);
    lemma_miller_at(
        g1p(26, 45),
        dq(91, 35),
        (g1p(32, 42), g1p(12, 69), g1p(91, 35), g1p(26, 56)),
        (34, 60),
        (19, 54),
        (3, 36),
        (26, 46),
        (-26, 91),
        ((81, 76, -25, 4), (61, 98, -26, 16), (76, 29, -59, 23), (93, 62, -9, 17)),
        ((58, 12, 47, 76), (47, 4, 9, 24), (30, 72, -16, 37)),
    );
    lemma_final_exp_3_22();
}

proof fn lemma_final_exp_4_22()
    ensures
        GT(gt_of(66, 42)).spow(600) == GT(gt_of(14, 44)),
{
    assert(GT::sone() == GT(gt_of(1, 0)));
    lemma_gt_mul_at((66, 42), (66, 42), (67, 43), (25, 37));
    assert(GT::spow_steps(GT(gt_of(1, 0)), GT(gt_of(66, 42)), 600) == GT::spow_steps(GT(gt_of(1, 0)), GT(gt_of(67, 43)), 300));
    lemma_gt_mul_at((67, 43), (67, 43), (14, 75), (26, 38));
    assert(GT::spow_steps(GT(gt_of(1, 0)), GT(gt_of(67, 43)), 300) == GT::spow_steps(GT(gt_of(1, 0)), GT(gt_of(14, 75)), 150));
    lemma_gt_mul_at((14, 75), (14, 75), (25, 10), (-54, -35));
    assert(GT::spow_steps(GT(gt_of(1, 0)), GT(gt_of(14, 75)), 150) == GT::spow_steps(GT(gt_of(1, 0)), GT(gt_of(25, 10)), 75));
    lemma_gt_mul_at((1, 0), (25, 10), (25, 10), (0, 0));
    lemma_gt_mul_at((25, 10), (25, 10), (20, 97), (5, 3));
    assert(GT::spow_steps(GT(gt_of(1, 0)), GT(gt_of(25, 10)), 75) == GT::spow_steps(GT(gt_of(25, 10)), GT(gt_of(20, 97)), 37));
    lemma_gt_mul_at((25, 10), (20, 97), (35, 39), (-5, 16));
    lemma_gt_mul_at((20, 97), (20, 97), (81, 26), (-90, -55));
    assert(GT::spow_steps(GT(gt_of(25, 10)), GT(gt_of(20, 97)), 37) == GT::spow_steps(GT(gt_of(35, 39)), GT(gt_of(81, 26)), 18));
    lemma_gt_mul_at((81, 26), (81, 26), (27, 1), (58, 35));
    assert(GT::spow_steps(GT(gt_of(35, 39)), GT(gt_of(81, 26)), 18) == GT::spow_steps(GT(gt_of(35, 39)), GT(gt_of(27, 1)), 9));
    lemma_gt_mul_at((35, 39), (27, 1), (98, 39), (8, 10));
    lemma_gt_mul_at((27, 1), (27, 1), (21, 53), (7, 0));
    assert(GT::spow_steps(GT(gt_of(35, 39)), GT(gt_of(27, 1)), 9) == GT::spow_steps(GT(gt_of(98, 39)), GT(gt_of(21, 53)), 4));
    lemma_gt_mul_at((21, 53), (21, 53), (56, 23), (-24, -6));
    assert(GT::spow_steps(GT(gt_of(98, 39)), GT(gt_of(21, 53)), 4) == GT::spow_steps(GT(gt_of(98, 39)), GT(gt_of(56, 23)), 2));
    lemma_gt_mul_at((56, 23), (56, 23), (82, 27), (25, 20));
    assert(GT::spow_steps(GT(gt_of(98, 39)), GT(gt_of(56, 23)), 2) == GT::spow_steps(GT(gt_of(98, 39)), GT(gt_of(82, 27)), 1));
    lemma_gt_mul_at((98, 39), (82, 27), (14, 44), (69, 47));
    lemma_gt_mul_at((82, 27), (82, 27), (36, 63), (59, 36));
    assert(GT::spow_steps(GT(gt_of(98, 39)), GT(gt_of(82, 27)), 1) == GT::spow_steps(GT(gt_of(14, 44)), GT(gt_of(36, 63)), 0));
}

/// The pairing of `4G` with the point `22 P` of the image of `H`.
proof fn lemma_pairing_4_22()
    ensures
        smiller_loop(g1p(65, 98), dq(91, 35)) is Some,
        spairing_at(g1p(65, 98), dq(91, 35)) == GT(gt_of(14, 44)),
{
    lemma_final_exponent();
    lemma_tangent_4_22();
    lemma_tangent_8_22();
    lemma_tangent_16_22();
    lemma_tangent_15_22();
    lemma_vertical_at(65, 3, 98, 91, 35);
    lemma_miller_at(
        g1p(65, 98),
        dq(91, 35),
        (g1p(18, 49), g1p(1, 99), g1p(68, 27), g1p(65, 3)),
        (26, 20),
        (62, 68),
        (36, 54),
        (40, 46),
        (-65, 91),
        ((74, 34, 2, 6), (54, 81, 22, 47), (92, 66, -37, 21), (51, 43, -3, 37)),
        ((45, 12, 7, 25), (36, 79, 12, 19), (66, 42, -95, -90)),
    );
    lemma_final_exp_4_22();
}

proof fn lemma_final_exp_5_22()
    ensures
        GT(gt_of(8, 91)).spow(600) == GT(gt_of(42, 92)),
{
    assert(GT::sone() == GT(gt_of(1, 0)));
    lemma_gt_mul_at((8, 91), (8, 91), (65, 43), (-82, -68));
    assert(GT::spow_steps(GT(gt_of(1, 0)), GT(gt_of(8, 91)), 600) == GT::spow_steps(GT(gt_of(1, 0)), GT(gt_of(65, 43)), 300));
    lemma_gt_mul_at((65, 43), (65, 43), (53, 4), (23, 37));
    assert(GT::spow_steps(GT(gt_of(1, 0)), GT(gt_of(65, 43)), 300) == GT::spow_steps(GT(gt_of(1, 0)), GT(gt_of(53, 4)), 150));
    lemma_gt_mul_at((53, 4), (53, 4), (66, 4), (27, 4));
    assert(GT::spow_steps(GT(gt_of(1, 0)), GT(gt_of(53, 4)), 150) == GT::spow_steps(GT(gt_of(1, 0)), GT(gt_of(66, 4)), 75));
    lemma_gt_mul_at((1, 0), (66, 4), (66, 4), (0, 0));
    lemma_gt_mul_at((66, 4), (66, 4), (98, 7), (42, 5));
    assert(GT::spow_steps(GT(gt_of(1, 0)), GT(gt_of(66, 4)), 75) == GT::spow_steps(GT(gt_of(66, 4)), GT(gt_of(98, 7)), 37));
    lemma_gt_mul_at((66, 4), (98, 7), (77, 18), (63, 8));
    lemma_gt_mul_at((98, 7), (98, 7), (61, 10), (94, 13));
    assert(GT::spow_steps(GT(gt_of(66, 4)), GT(gt_of(98, 7)), 37) == GT::spow_steps(GT(gt_of(77, 18)), GT(gt_of(61, 10)), 18));
    lemma_gt_mul_at((61, 10), (61, 10), (86, 9), (35, 11));
    assert(GT::spow_steps(GT(gt_of(77, 18)), GT(gt_of(61, 10)), 18) == GT::spow_steps(GT(gt_of(77, 18)), GT(gt_of(86, 9)), 9));
    lemma_gt_mul_at((77, 18), (86, 9), (97, 59), (63, 20));
    lemma_gt_mul_at((86, 9), (86, 9), (43, 53), (72, 14));
    assert(GT::spow_steps(GT(gt_of(77, 18)), GT(gt_of(86, 9)), 9) == GT::spow_steps(GT(gt_of(97, 59)), GT(gt_of(43, 53)), 4));
    lemma_gt_mul_at((43, 53), (43, 53), (50, 32), (-10, 17));
    assert(GT::spow_steps(GT(gt_of(97, 59)), GT(gt_of(43, 53)), 4) == GT::spow_steps(GT(gt_of(97, 59)), GT(gt_of(50, 32)), 2));
    lemma_gt_mul_at((50, 32), (50, 32), (62, 55), (14, 21));
    assert(GT::spow_steps(GT(gt_of(97, 59)), GT(gt_of(50, 32)), 2) == GT::spow_steps(GT(gt_of(97, 59)), GT(gt_of(62, 55)), 1));
    lemma_gt_mul_at((97, 59), (62, 55), (42, 92), (27, 56));
    lemma_gt_mul_at((62, 55), (62, 55), (11, 58), (8, 37));
    assert(GT::spow_steps(GT(gt_of(97, 59)), GT(gt_of(62, 55)), 1) == GT::spow_steps(GT(gt_of(42, 92)), GT(gt_of(11, 58)), 0));
}

/// The pairing of `5G` with the point `22 P` of the image of `H`.
proof fn lemma_pairing_5_22()
    ensures
        smiller_loop(g1p(12, 32), dq(91, 35)) is Some,
        spairing_at(g1p(12, 32), dq(91, 35)) == GT(gt_of(42, 92)),
{
    lemma_final_exponent();
    lemma_tangent_5_22();
    lemma_tangent_10_22();
    lemma_tangent_3_22();
    lemma_tangent_6_22();
    lemma_vertical_at(12, 69, 32, 91, 35);
    lemma_miller_at(
        g1p(12, 32),
        dq(91, 35),
        (g1p(91, 66), g1p(26, 45), g1p(32, 42), g1p(12, 69)),
        (69, 0),
        (65, 36),
        (34, 60),
        (19, 54),
        (-12, 91),
        ((14, 0, 47, 0), (1, 100, 9, 4), (0, 98, -99, -98), (79, 78, -59, -26)),
        ((56, 79, 1, 61), (30, 57, -32, 2), (8, 91, -55, -32)),
    );
    lemma_final_exp_5_22();
}

proof fn lemma_final_exp_6_22()
    ensures
        GT(gt_of(22, 72)).spow(600) == GT(gt_of(47, 80)),
{
    assert(GT::sone() == GT(gt_of(1, 0)));
    lemma_gt_mul_at((22, 72), (22, 72), (47, 4), (-47, -20));
    assert(GT::spow_steps(GT(gt_of(1, 0)), GT(gt_of(22, 72)), 600) == GT::spow_steps(GT(gt_of(1, 0)), GT(gt_of(47, 4)), 300));
    lemma_gt_mul_at((47, 4), (47, 4), (72, 57), (21, 3));
    assert(GT::spow_steps(GT(gt_of(1, 0)), GT(gt_of(47, 4)), 300) == GT::spow_steps(GT(gt_of(1, 0)), GT(gt_of(72, 57)), 150));
    lemma_gt_mul_at((72, 57), (72, 57), (16, 10), (19, 49));
    assert(GT::spow_steps(GT(gt_of(1, 0)), GT(gt_of(72, 57)), 150) == GT::spow_steps(GT(gt_of(1, 0)), GT(gt_of(16, 10)), 75));
    lemma_gt_mul_at((1, 0), (16, 10), (16, 10), (0, 0));
    lemma_gt_mul_at((16, 10), (16, 10), (55, 18), (1, 2));
    assert(GT::spow_steps(GT(gt_of(1, 0)), GT(gt_of(16, 10)), 75) == GT::spow_steps(GT(gt_of(16, 10)), GT(gt_of(55, 18)), 37));
    lemma_gt_mul_at((16, 10), (55, 18), (94, 52), (6, 6));
    lemma_gt_mul_at((55, 18), (55, 18), (75, 40), (26, 16));
    assert(GT::spow_steps(GT(gt_of(16, 10)), GT(gt_of(55, 18)), 37) == GT::spow_steps(GT(gt_of(94, 52)), GT(gt_of(75, 40)), 18));
    lemma_gt_mul_at((75, 40), (75, 40), (86, 57), (39, 43));
    assert(GT::spow_steps(GT(gt_of(94, 52)), GT(gt_of(75, 40)), 18) == GT::spow_steps(GT(gt_of(94, 52)), GT(gt_of(86, 57)), 9));
    lemma_gt_mul_at((94, 52), (86, 57), (70, 99), (50, 67));
    lemma_gt_mul_at((86, 57), (86, 57), (6, 91), (41, 64));
    assert(GT::spow_steps(GT(gt_of(94, 52)), GT(gt_of(86, 57)), 9) == GT::spow_steps(GT(gt_of(70, 99)), GT(gt_of(6, 91)), 4));
    lemma_gt_mul_at((6, 91), (6, 91), (37, 83), (-82, -72));
    assert(GT::spow_steps(GT(gt_of(70, 99)), GT(gt_of(6, 91)), 4) == GT::spow_steps(GT(gt_of(70, 99)), GT(gt_of(37, 83)), 2));
    lemma_gt_mul_at((37, 83), (37, 83), (35, 61), (-55, -8));
    assert(GT::spow_steps(GT(gt_of(70, 99)), GT(gt_of(37, 83)), 2) == GT::spow_steps(GT(gt_of(70, 99)), GT(gt_of(35, 61)), 1));
    lemma_gt_mul_at((70, 99), (35, 61), (47, 80), (-36, 16));
    lemma_gt_mul_at((35, 61), (35, 61), (29, 44), (-25, 5));
    assert(GT::spow_steps(GT(gt_of(70, 99)), GT(gt_of(35, 61)), 1) == GT::spow_steps(GT(gt_of(47, 80)), GT(gt_of(29, 44)), 0));
}

/// The pairing of `6G` with the point `22 P` of the image of `H`.
proof fn lemma_pairing_6_22()
    ensures
        smiller_loop(g1p(32, 42), dq(91, 35)) is Some,
        spairing_at(g1p(32, 42), dq(91, 35)) == GT(gt_of(47, 80)),
{
    lemma_final_exponent();
    lemma_tangent_6_22();
    lemma_tangent_12_22();
    lemma_tangent_7_22();
    lemma_tangent_14_22();
    lemma_vertical_at(32, 59, 42, 91, 35);
    lemma_miller_at(
        g1p(32, 42),
        dq(91, 35),
        (g1p(12, 69), g1p(91, 35), g1p(26, 56), g1p(32, 59)),
        (19, 54),
        (3, 36),
        (26, 46),
        (48, 68),
        (-32, 91),
        ((71, 45, -26, -9), (7, 61, -14, 10), (65, 62, -37, -29), (50, 33, -12, 17)),
        ((98, 90, 13, 21), (99, 16, -15, 48), (22, 72, -46, 69)),
    );
    lemma_final_exp_6_22();
}

proof fn lemma_final_exp_7_22()
    ensures
        GT(gt_of(79, 68)).spow(600) == GT(gt_of(96, 29)),
{
    assert(GT::sone() == GT(gt_of(1, 0)));
    lemma_gt_mul_at((79, 68), (79, 68), (1, 60), (16, 60));
    assert(GT::spow_steps(GT(gt_of(1, 0)), GT(gt_of(79, 68)), 600) == GT::spow_steps(GT(gt_of(1, 0)), GT(gt_of(1, 60)), 300));
    lemma_gt_mul_at((1, 60), (1, 60), (37, 55), (-36, -35));
    assert(GT::spow_steps(GT(gt_of(1, 0)), GT(gt_of(1, 60)), 300) == GT::spow_steps(GT(gt_of(1, 0)), GT(gt_of(37, 55)), 150));
    lemma_gt_mul_at((37, 55), (37, 55), (61, 35), (-17, 10));
    assert(GT::spow_steps(GT(gt_of(1, 0)), GT(gt_of(37, 55)), 150) == GT::spow_steps(GT(gt_of(1, 0)), GT(gt_of(61, 35)), 75));
    lemma_gt_mul_at((1, 0), (61, 35), (61, 35), (0, 0));
    lemma_gt_mul_at((61, 35), (61, 35), (72, 15), (24, 30));
    assert(GT::spow_steps(GT(gt_of(1, 0)), GT(gt_of(61, 35)), 75) == GT::spow_steps(GT(gt_of(61, 35)), GT(gt_of(72, 15)), 37));
    lemma_gt_mul_at((61, 35), (72, 15), (29, 82), (38, 28));
    lemma_gt_mul_at((72, 15), (72, 15), (10, 16), (49, 19));
    assert(GT::spow_steps(GT(gt_of(61, 35)), GT(gt_of(72, 15)), 37) == GT::spow_steps(GT(gt_of(29, 82)), GT(gt_of(10, 16)), 18));
    lemma_gt_mul_at((10, 16), (10, 16), (46, 64), (-2, 0));
    assert(GT::spow_steps(GT(gt_of(29, 82)), GT(gt_of(10, 16)), 18) == GT::spow_steps(GT(gt_of(29, 82)), GT(gt_of(46, 64)), 9));
    lemma_gt_mul_at((29, 82), (46, 64), (25, 77), (-39, 3));
    lemma_gt_mul_at((46, 64), (46, 64), (40, 75), (-20, 17));
    assert(GT::spow_steps(GT(gt_of(29, 82)), GT(gt_of(46, 64)), 9) == GT::spow_steps(GT(gt_of(25, 77)), GT(gt_of(40, 75)), 4));
    lemma_gt_mul_at((40, 75), (40, 75), (15, 72), (-40, 3));
    assert(GT::spow_steps(GT(gt_of(25, 77)), GT(gt_of(40, 75)), 4) == GT::spow_steps(GT(gt_of(25, 77)), GT(gt_of(15, 72)), 2));
    lemma_gt_mul_at((15, 72), (15, 72), (91, 6), (-50, -30));
    assert(GT::spow_steps(GT(gt_of(25, 77)), GT(gt_of(15, 72)), 2) == GT::spow_steps(GT(gt_of(25, 77)), GT(gt_of(91, 6)), 1));
    lemma_gt_mul_at((25, 77), (91, 6), (96, 29), (17, 66));
    lemma_gt_mul_at((91, 6), (91, 6), (64, 46), (81, 10));
    assert(GT::spow_steps(GT(gt_of(25, 77)), GT(gt_of(91, 6)), 1) == GT::spow_steps(GT(gt_of(96, 29)), GT(gt_of(64, 46)), 0));
}

/// The pairing of `7G` with the point `22 P` of the image of `H`.
proof fn lemma_pairing_7_22()
    ensures
        smiller_loop(g1p(91, 35), dq(91, 35)) is Some,
        spairing_at(g1p(91, 35), dq(91, 35)) == GT(gt_of(96, 29)),
{
    lemma_final_exponent();
    lemma_tangent_7_22();
    lemma_tangent_14_22();
    lemma_tangent_11_22();
    lemma_tangent_5_22();
    lemma_vertical_at(91, 66, 35, 91, 35);
    lemma_miller_at(
        g1p(91, 35),
        dq(91, 35),
        (g1p(26, 56), g1p(32, 59), g1p(12, 32), g1p(91, 66)),
        (26, 46),
        (48, 68),
        (32, 95),
        (69, 0),
        (-91, 91),
        ((75, 74, -15, 2), (83, 85, -15, 35), (68, 17, -4, 68), (56, 36, 5, 53)),
        ((22, 9, 18, 27), (3, 15, 15, 6), (79, 68, -17, -25)),
    );
    lemma_final_exp_7_22();
}

proof fn lemma_final_exp_8_22()
    ensures
        GT(gt_of(51, 45)).spow(600) == GT(gt_of(78, 3)),
{
    assert(GT::sone() == GT(gt_of(1, 0)));
    lemma_gt_mul_at((51, 45), (51, 45), (71, 40), (5, 25));
    assert(GT::spow_steps(GT(gt_of(1, 0)), GT(gt_of(51, 45)), 600) == GT::spow_steps(GT(gt_of(1, 0)), GT(gt_of(71, 40)), 300));
    lemma_gt_mul_at((71, 40), (71, 40), (7, 40), (34, 40));
    assert(GT::spow_steps(GT(gt_of(1, 0)), GT(gt_of(71, 40)), 300) == GT::spow_steps(GT(gt_of(1, 0)), GT(gt_of(7, 40)), 150));
    lemma_gt_mul_at((7, 40), (7, 40), (65, 71), (-16, -11));
    assert(GT::spow_steps(GT(gt_of(1, 0)), GT(gt_of(7, 40)), 150) == GT::spow_steps(GT(gt_of(1, 0)), GT(gt_of(65, 71)), 75));
    lemma_gt_mul_at((1, 0), (65, 71), (65, 71), (0, 0));
    lemma_gt_mul_at((65, 71), (65, 71), (93, 48), (-9, 41));
    assert(GT::spow_steps(GT(gt_of(1, 0)), GT(gt_of(65, 71)), 75) == GT::spow_steps(GT(gt_of(65, 71)), GT(gt_of(93, 48)), 37));
    lemma_gt_mul_at((65, 71), (93, 48), (11, 53), (26, 62));
    lemma_gt_mul_at((93, 48), (93, 48), (83, 59), (62, 65));
    assert(GT::spow_steps(GT(gt_of(65, 71)), GT(gt_of(93, 48)), 37) == GT::spow_steps(GT(gt_of(11, 53)), GT(gt_of(83, 59)), 18));
    lemma_gt_mul_at((83, 59), (83, 59), (75, 51), (33, 62));
    assert(GT::spow_steps(GT(gt_of(11, 53)), GT(gt_of(83, 59)), 18) == GT::spow_steps(GT(gt_of(11, 53)), GT(gt_of(75, 51)), 9));
    lemma_gt_mul_at((11, 53), (75, 51), (41, 15), (-19, 18));
    lemma_gt_mul_at((75, 51), (75, 51), (95, 100), (29, 49));
    assert(GT::spow_steps(GT(gt_of(11, 53)), GT(gt_of(75, 51)), 9) == GT::spow_steps(GT(gt_of(41, 15)), GT(gt_of(95, 100)), 4));
    lemma_gt_mul_at((95, 100), (95, 100), (35, 11), (-10, 89));
    assert(GT::spow_steps(GT(gt_of(41, 15)), GT(gt_of(95, 100)), 4) == GT::spow_steps(GT(gt_of(41, 15)), GT(gt_of(35, 11)), 2));
    lemma_gt_mul_at((35, 11), (35, 11), (94, 43), (10, 6));
    assert(GT::spow_steps(GT(gt_of(41, 15)), GT(gt_of(35, 11)), 2) == GT::spow_steps(GT(gt_of(41, 15)), GT(gt_of(94, 43)), 1));
    lemma_gt_mul_at((41, 15), (94, 43), (78, 3), (31, 25));
    lemma_gt_mul_at((94, 43), (94, 43), (18, 74), (69, 61));
    assert(GT::spow_steps(GT(gt_of(41, 15)), GT(gt_of(94, 43)), 1) == GT::spow_steps(GT(gt_of(78, 3)), GT(gt_of(18, 74)), 0));
}

/// The pairing of `8G` with the point `22 P` of the image of `H`.
proof fn lemma_pairing_8_22()
    ensures
        smiller_loop(g1p(18, 49), dq(91, 35)) is Some,
        spairing_at(g1p(18, 49), dq(91, 35)) == GT(gt_of(78, 3)),
{
    lemma_final_exponent();
    lemma_tangent_8_22();
    lemma_tangent_16_22();
    lemma_tangent_15_22();
    lemma_tangent_13_22();
    lemma_vertical_at(18, 52, 49, 91, 35);
    lemma_miller_at(
        g1p(18, 49),
        dq(91, 35),
        (g1p(1, 99), g1p(68, 27), g1p(65, 3), g1p(18, 52)),
        (62, 68),
        (36, 54),
        (40, 46),
        (28, 64),
        (-18, 91),
        ((28, 71, -8, 37), (2, 32, -28, 2), (91, 13, -11, -9), (12, 68, 30, 40)),
        ((65, 38, -45, -30), (95, 65, -7, 27), (51, 45, -76, 15)),
    );
    lemma_final_exp_8_22();
}

proof fn lemma_final_exp_9_22()
    ensures
        GT(gt_of(51, 98)).spow(600) == GT(gt_of(75, 98)),
{
    assert(GT::sone() == GT(gt_of(1, 0)));
    lemma_gt_mul_at((51, 98), (51, 98), (67, 89), (-70, 3));
    assert(GT::spow_steps(GT(gt_of(1, 0)), GT(gt_of(51, 98)), 600) == GT::spow_steps(GT(gt_of(1, 0)), GT(gt_of(67, 89)), 300));
    lemma_gt_mul_at((67, 89), (67, 89), (2, 66), (-34, 39));
    assert(GT::spow_steps(GT(gt_of(1, 0)), GT(gt_of(67, 89)), 300) == GT::spow_steps(GT(gt_of(1, 0)), GT(gt_of(2, 66)), 150));
    lemma_gt_mul_at((2, 66), (2, 66), (92, 49), (-44, -41));
    assert(GT::spow_steps(GT(gt_of(1, 0)), GT(gt_of(2, 66)), 150) == GT::spow_steps(GT(gt_of(1, 0)), GT(gt_of(92, 49)), 75));
    lemma_gt_mul_at((1, 0), (92, 49), (92, 49), (0, 0));
    lemma_gt_mul_at((92, 49), (92, 49), (3, 50), (60, 65));
    assert(GT::spow_steps(GT(gt_of(1, 0)), GT(gt_of(92, 49)), 75) == GT::spow_steps(GT(gt_of(92, 49)), GT(gt_of(3, 50)), 37));
    lemma_gt_mul_at((92, 49), (3, 50), (48, 75), (-22, 22));
    lemma_gt_mul_at((3, 50), (3, 50), (34, 22), (-25, -22));
    assert(GT::spow_steps(GT(gt_of(92, 49)), GT(gt_of(3, 50)), 37) == GT::spow_steps(GT(gt_of(48, 75)), GT(gt_of(34, 22)), 18));
    lemma_gt_mul_at((34, 22), (34, 22), (66, 2), (6, 10));
    assert(GT::spow_steps(GT(gt_of(48, 75)), GT(gt_of(34, 22)), 18) == GT::spow_steps(GT(gt_of(48, 75)), GT(gt_of(66, 2)), 9));
    lemma_gt_mul_at((48, 75), (66, 2), (89, 48), (29, 48));
    lemma_gt_mul_at((66, 2), (66, 2), (9, 58), (43, 2));
    assert(GT::spow_steps(GT(gt_of(48, 75)), GT(gt_of(66, 2)), 9) == GT::spow_steps(GT(gt_of(89, 48)), GT(gt_of(9, 58)), 4));
    lemma_gt_mul_at((9, 58), (9, 58), (50, 3), (-33, -23));
    assert(GT::spow_steps(GT(gt_of(89, 48)), GT(gt_of(9, 58)), 4) == GT::spow_steps(GT(gt_of(89, 48)), GT(gt_of(50, 3)), 2));
    lemma_gt_mul_at((50, 3), (50, 3), (67, 89), (24, 2));
    assert(GT::spow_steps(GT(gt_of(89, 48)), GT(gt_of(50, 3)), 2) == GT::spow_steps(GT(gt_of(89, 48)), GT(gt_of(67, 89)), 1));
    lemma_gt_mul_at((89, 48), (67, 89), (75, 98), (16, 67));
    lemma_gt_mul_at((67, 89), (67, 89), (2, 66), (-34, 39));
    assert(GT::spow_steps(GT(gt_of(89, 48)), GT(gt_of(67, 89)), 1) == GT::spow_steps(GT(gt_of(75, 98)), GT(gt_of(2, 66)), 0));
}

/// The pairing of `9G` with the point `22 P` of the image of `H`.
proof fn lemma_pairing_9_22()
    ensures
        smiller_loop(g1p(18, 52), dq(91, 35)) is Some,
        spairing_at(g1p(18, 52), dq(91, 35)) == GT(gt_of(75, 98)),
{
    lemma_final_exponent();
    lemma_tangent_9_22();
    lemma_tangent_1_22();
    lemma_tangent_2_22();
    lemma_tangent_4_22();
    lemma_vertical_at(18, 49, 52, 91, 35);
    lemma_miller_at(
        g1p(18, 52),
        dq(91, 35),
        (g1p(1, 2), g1p(68, 74), g1p(65, 98), g1p(18, 49)),
        (77, 64),
        (60, 20),
        (84, 60),
        (26, 20),
        (-18, 91),
        ((15, 3, 18, 57), (32, 16, 8, 4), (61, 61, 7, 7), (50, 74, 14, 50)),
        ((54, 5, -30, 19), (92, 100, 12, 10), (51, 98, -107, -26)),
    );
    lemma_final_exp_9_22();
}

proof fn lemma_final_exp_10_22()
    ensures
        GT(gt_of(69, 27)).spow(600) == GT(gt_of(67, 72)),
{
    assert(GT::sone() == GT(gt_of(1, 0)));
    lemma_gt_mul_at((69, 27), (69, 27), (93, 68), (39, 29));
    assert(GT::spow_steps(GT(gt_of(1, 0)), GT(gt_of(69, 27)), 600) == GT::spow_steps(GT(gt_of(1, 0)), GT(gt_of(93, 68)), 300));
    lemma_gt_mul_at((93, 68), (93, 68), (86, 45), (39, 79));
    assert(GT::spow_steps(GT(gt_of(1, 0)), GT(gt_of(93, 68)), 300) == GT::spow_steps(GT(gt_of(1, 0)), GT(gt_of(86, 45)), 150));
    lemma_gt_mul_at((86, 45), (86, 45), (18, 59), (53, 56));
    assert(GT::spow_steps(GT(gt_of(1, 0)), GT(gt_of(86, 45)), 150) == GT::spow_steps(GT(gt_of(1, 0)), GT(gt_of(18, 59)), 75));
    lemma_gt_mul_at((1, 0), (18, 59), (18, 59), (0, 0));
    lemma_gt_mul_at((18, 59), (18, 59), (75, 57), (-32, -14));
    assert(GT::spow_steps(GT(gt_of(1, 0)), GT(gt_of(18, 59)), 75) == GT::spow_steps(GT(gt_of(18, 59)), GT(gt_of(75, 57)), 37));
    lemma_gt_mul_at((18, 59), (75, 57), (7, 68), (-20, 20));
    lemma_gt_mul_at((75, 57), (75, 57), (53, 49), (23, 52));
    assert(GT::spow_steps(GT(gt_of(18, 59)), GT(gt_of(75, 57)), 37) == GT::spow_steps(GT(gt_of(7, 68)), GT(gt_of(53, 49)), 18));
    lemma_gt_mul_at((53, 49), (53, 49), (4, 66), (4, 27));
    assert(GT::spow_steps(GT(gt_of(7, 68)), GT(gt_of(53, 49)), 18) == GT::spow_steps(GT(gt_of(7, 68)), GT(gt_of(4, 66)), 9));
    lemma_gt_mul_at((7, 68), (4, 66), (85, 84), (-45, -38));
    lemma_gt_mul_at((4, 66), (4, 66), (3, 10), (-43, -38));
    assert(GT::spow_steps(GT(gt_of(7, 68)), GT(gt_of(4, 66)), 9) == GT::spow_steps(GT(gt_of(85, 84)), GT(gt_of(3, 10)), 4));
    lemma_gt_mul_at((3, 10), (3, 10), (10, 61), (-1, -1));
    assert(GT::spow_steps(GT(gt_of(85, 84)), GT(gt_of(3, 10)), 4) == GT::spow_steps(GT(gt_of(85, 84)), GT(gt_of(10, 61)), 2));
    lemma_gt_mul_at((10, 61), (10, 61), (15, 24), (-36, -25));
    assert(GT::spow_steps(GT(gt_of(85, 84)), GT(gt_of(10, 61)), 2) == GT::spow_steps(GT(gt_of(85, 84)), GT(gt_of(15, 24)), 1));
    lemma_gt_mul_at((85, 84), (15, 24), (67, 72), (-8, 12));
    lemma_gt_mul_at((15, 24), (15, 24), (53, 43), (-4, 1));
    assert(GT::spow_steps(GT(gt_of(85, 84)), GT(gt_of(15, 24)), 1) == GT::spow_steps(GT(gt_of(67, 72)), GT(gt_of(53, 43)), 0));
}

/// The pairing of `10G` with the point `22 P` of the image of `H`.
proof fn lemma_pairing_10_22()
    ensures
        smiller_loop(g1p(91, 66), dq(91, 35)) is Some,
        spairing_at(g1p(91, 66), dq(91, 35)) == GT(gt_of(67, 72)),
{
    lemma_final_exponent();
    lemma_tangent_10_22();
    lemma_tangent_3_22();
    lemma_tangent_6_22();
    lemma_tangent_12_22();
    lemma_vertical_at(91, 35, 66, 91, 35);
    lemma_miller_at(
        g1p(91, 66),
        dq(91, 35),
        (g1p(26, 45), g1p(32, 42), g1p(12, 69), g1p(91, 35)),
        (65, 36),
        (34, 60),
        (19, 54),
        (3, 36),
        (-91, 91),
        ((0, 51, 29, 33), (71, 88, -31, -14), (24, 5, -27, 47), (85, 10, 1, 11)),
        ((55, 85, 70, 15), (34, 84, -29, -9), (69, 27, -107, -121)),
    );
    lemma_final_exp_10_22();
}

proof fn lemma_final_exp_11_22()
    ensures
        GT(gt_of(52, 72)).spow(600) == GT(gt_of(68, 21)),
{
    assert(GT::sone() == GT(gt_of(1, 0)));
    lemma_gt_mul_at((52, 72), (52, 72), (45, 82), (-25, 22));
    assert(GT::spow_steps(GT(gt_of(1, 0)), GT(gt_of(52, 72)), 600) == GT::spow_steps(GT(gt_of(1, 0)), GT(gt_of(45, 82)), 300));
    lemma_gt_mul_at((45, 82), (45, 82), (48, 50), (-47, 6));
    assert(GT::spow_steps(GT(gt_of(1, 0)), GT(gt_of(45, 82)), 300) == GT::spow_steps(GT(gt_of(1, 0)), GT(gt_of(48, 50)), 150));
    lemma_gt_mul_at((48, 50), (48, 50), (6, 78), (-2, 22));
    assert(GT::spow_steps(GT(gt_of(1, 0)), GT(gt_of(48, 50)), 150) == GT::spow_steps(GT(gt_of(1, 0)), GT(gt_of(6, 78)), 75));
    lemma_gt_mul_at((1, 0), (6, 78), (6, 78), (0, 0));
    lemma_gt_mul_at((6, 78), (6, 78), (12, 3), (-60, -51));
    assert(GT::spow_steps(GT(gt_of(1, 0)), GT(gt_of(6, 78)), 75) == GT::spow_steps(GT(gt_of(6, 78)), GT(gt_of(12, 3)), 37));
    lemma_gt_mul_at((6, 78), (12, 3), (40, 13), (-2, 7));
    lemma_gt_mul_at((12, 3), (12, 3), (34, 63), (1, 0));
    assert(GT::spow_steps(GT(gt_of(6, 78)), GT(gt_of(12, 3)), 37) == GT::spow_steps(GT(gt_of(40, 13)), GT(gt_of(34, 63)), 18));
    lemma_gt_mul_at((34, 63), (34, 63), (15, 12), (-28, 3));
    assert(GT::spow_steps(GT(gt_of(40, 13)), GT(gt_of(34, 63)), 18) == GT::spow_steps(GT(gt_of(40, 13)), GT(gt_of(15, 12)), 9));
    lemma_gt_mul_at((40, 13), (15, 12), (40, 14), (4, 5));
    lemma_gt_mul_at((15, 12), (15, 12), (81, 14), (0, 2));
    assert(GT::spow_steps(GT(gt_of(40, 13)), GT(gt_of(15, 12)), 9) == GT::spow_steps(GT(gt_of(40, 14)), GT(gt_of(81, 14)), 4));
    lemma_gt_mul_at((81, 14), (81, 14), (2, 52), (63, 20));
    assert(GT::spow_steps(GT(gt_of(40, 14)), GT(gt_of(81, 14)), 4) == GT::spow_steps(GT(gt_of(40, 14)), GT(gt_of(2, 52)), 2));
    lemma_gt_mul_at((2, 52), (2, 52), (27, 29), (-27, -25));
    assert(GT::spow_steps(GT(gt_of(40, 14)), GT(gt_of(2, 52)), 2) == GT::spow_steps(GT(gt_of(40, 14)), GT(gt_of(27, 29)), 1));
    lemma_gt_mul_at((40, 14), (27, 29), (68, 21), (6, 11));
    lemma_gt_mul_at((27, 29), (27, 29), (90, 18), (-2, 7));
    assert(GT::spow_steps(GT(gt_of(40, 14)), GT(gt_of(27, 29)), 1) == GT::spow_steps(GT(gt_of(68, 21)), GT(gt_of(90, 18)), 0));
}

/// The pairing of `11G` with the point `22 P` of the image of `H`.
proof fn lemma_pairing_11_22()
    ensures
        smiller_loop(g1p(32, 59), dq(91, 35)) is Some,
        spairing_at(g1p(32, 59), dq(91, 35)) == GT(gt_of(68, 21)),
{
    lemma_final_exponent();
    lemma_tangent_11_22();
    lemma_tangent_5_22();
    lemma_tangent_10_22();
    lemma_tangent_3_22();
    lemma_vertical_at(32, 42, 59, 91, 35);
    lemma_miller_at(
        g1p(32, 59),
        dq(91, 35),
        (g1p(12, 32), g1p(91, 66), g1p(26, 45), g1p(32, 42)),
        (32, 95),
        (69, 0),
        (65, 36),
        (34, 60),
        (-32, 91),
        ((79, 85, -80, -30), (98, 7, 53, 58), (61, 10, 94, 13), (70, 62, 35, 24)),
        ((46, 89, 10, 47), (62, 42, -38, 4), (52, 72, -58, 4)),
    );
    lemma_final_exp_11_22();
}

proof fn lemma_final_exp_12_22()
    ensures
        GT(gt_of(32, 72)).spow(600) == GT(gt_of(51, 9)),
{
    assert(GT::sone() == GT(gt_of(1, 0)));
    lemma_gt_mul_at((32, 72), (32, 72), (82, 30), (-42, -6));
    assert(GT::spow_steps(GT(gt_of(1, 0)), GT(gt_of(32, 72)), 600) == GT::spow_steps(GT(gt_of(1, 0)), GT(gt_of(82, 30)), 300));
    lemma_gt_mul_at((82, 30), (82, 30), (67, 81), (57, 39));
    assert(GT::spow_steps(GT(gt_of(1, 0)), GT(gt_of(82, 30)), 300) == GT::spow_steps(GT(gt_of(1, 0)), GT(gt_of(67, 81)), 150));
    lemma_gt_mul_at((67, 81), (67, 81), (49, 51), (-21, 42));
    assert(GT::spow_steps(GT(gt_of(1, 0)), GT(gt_of(67, 81)), 150) == GT::spow_steps(GT(gt_of(1, 0)), GT(gt_of(49, 51)), 75));
    lemma_gt_mul_at((1, 0), (49, 51), (49, 51), (0, 0));
    lemma_gt_mul_at((49, 51), (49, 51), (2, 74), (-2, 23));
    assert(GT::spow_steps(GT(gt_of(1, 0)), GT(gt_of(49, 51)), 75) == GT::spow_steps(GT(gt_of(49, 51)), GT(gt_of(2, 74)), 37));
    lemma_gt_mul_at((49, 51), (2, 74), (61, 55), (-37, -1));
    lemma_gt_mul_at((2, 74), (2, 74), (83, 72), (-55, -52));
    assert(GT::spow_steps(GT(gt_of(49, 51)), GT(gt_of(2, 74)), 37) == GT::spow_steps(GT(gt_of(61, 55)), GT(gt_of(83, 72)), 18));
    lemma_gt_mul_at((83, 72), (83, 72), (89, 1), (16, 67));
    assert(GT::spow_steps(GT(gt_of(61, 55)), GT(gt_of(83, 72)), 18) == GT::spow_steps(GT(gt_of(61, 55)), GT(gt_of(89, 1)), 9));
    lemma_gt_mul_at((61, 55), (89, 1), (21, 53), (53, 48));
    lemma_gt_mul_at((89, 1), (89, 1), (42, 76), (78, 1));
    assert(GT::spow_steps(GT(gt_of(61, 55)), GT(gt_of(89, 1)), 9) == GT::spow_steps(GT(gt_of(21, 53)), GT(gt_of(42, 76)), 4));
    lemma_gt_mul_at((42, 76), (42, 76), (28, 2), (-40, 6));
    assert(GT::spow_steps(GT(gt_of(21, 53)), GT(gt_of(42, 76)), 4) == GT::spow_steps(GT(gt_of(21, 53)), GT(gt_of(28, 2)), 2));
    lemma_gt_mul_at((28, 2), (28, 2), (73, 7), (7, 1));
    assert(GT::spow_steps(GT(gt_of(21, 53)), GT(gt_of(28, 2)), 2) == GT::spow_steps(GT(gt_of(21, 53)), GT(gt_of(73, 7)), 1));
    lemma_gt_mul_at((21, 53), (73, 7), (51, 9), (11, 36));
    lemma_gt_mul_at((73, 7), (73, 7), (28, 64), (52, 9));
    assert(GT::spow_steps(GT(gt_of(21, 53)), GT(gt_of(73, 7)), 1) == GT::spow_steps(GT(gt_of(51, 9)), GT(gt_of(28, 64)), 0));
}

/// The pairing of `12G` with the point `22 P` of the image of `H`.
proof fn lemma_pairing_12_22()
    ensures
        smiller_loop(g1p(12, 69), dq(91, 35)) is Some,
        spairing_at(g1p(12, 69), dq(91, 35)) == GT(gt_of(51, 9)),
{
    lemma_final_exponent();
    lemma_tangent_12_22();
    lemma_tangent_7_22();
    lemma_tangent_14_22();
    lemma_tangent_11_22();
    lemma_vertical_at(12, 32, 69, 91, 35);
    lemma_miller_at(
        g1p(12, 69),
        dq(91, 35),
        (g1p(91, 35), g1p(26, 56), g1p(32, 59), g1p(12, 32)),
        (3, 36),
        (26, 46),
        (48, 68),
        (32, 95),
        (-12, 91),
        ((26, 31, -13, -11), (58, 71, -8, 5), (40, 64, -17, 31), (93, 26, -25, 14)),
        ((95, 19, 78, 41), (23, 51, 12, 77), (32, 72, -49, -32)),
    );
    lemma_final_exp_12_22();
}

proof fn lemma_final_exp_13_22()
    ensures
        GT(gt_of(35, 94)).spow(600) == GT(gt_of(71, 57)),
{
    assert(GT::sone() == GT(gt_of(1, 0)));
    lemma_gt_mul_at((35, 94), (35, 94), (65, 67), (-76, -23));
    assert(GT::spow_steps(GT(gt_of(1, 0)), GT(gt_of(35, 94)), 600) == GT::spow_steps(GT(gt_of(1, 0)), GT(gt_of(65, 67)), 300));
    lemma_gt_mul_at((65, 67), (65, 67), (39, 80), (-3, 41));
    assert(GT::spow_steps(GT(gt_of(1, 0)), GT(gt_of(65, 67)), 300) == GT::spow_steps(GT(gt_of(1, 0)), GT(gt_of(39, 80)), 150));
    lemma_gt_mul_at((39, 80), (39, 80), (70, 42), (-49, -2));
    assert(GT::spow_steps(GT(gt_of(1, 0)), GT(gt_of(39, 80)), 150) == GT::spow_steps(GT(gt_of(1, 0)), GT(gt_of(70, 42)), 75));
    lemma_gt_mul_at((1, 0), (70, 42), (70, 42), (0, 0));
    lemma_gt_mul_at((70, 42), (70, 42), (5, 76), (31, 40));
    assert(GT::spow_steps(GT(gt_of(1, 0)), GT(gt_of(70, 42)), 75) == GT::spow_steps(GT(gt_of(70, 42)), GT(gt_of(5, 76)), 37));
    lemma_gt_mul_at((70, 42), (5, 76), (87, 15), (-29, 23));
    lemma_gt_mul_at((5, 76), (5, 76), (6, 34), (-57, -50));
    assert(GT::spow_steps(GT(gt_of(70, 42)), GT(gt_of(5, 76)), 37) == GT::spow_steps(GT(gt_of(87, 15)), GT(gt_of(6, 34)), 18));
    lemma_gt_mul_at((6, 34), (6, 34), (92, 60), (-12, -8));
    assert(GT::spow_steps(GT(gt_of(87, 15)), GT(gt_of(6, 34)), 18) == GT::spow_steps(GT(gt_of(87, 15)), GT(gt_of(92, 60)), 9));
    lemma_gt_mul_at((87, 15), (92, 60), (34, 44), (70, 56));
    lemma_gt_mul_at((92, 60), (92, 60), (16, 67), (48, 73));
    assert(GT::spow_steps(GT(gt_of(87, 15)), GT(gt_of(92, 60)), 9) == GT::spow_steps(GT(gt_of(34, 44)), GT(gt_of(16, 67)), 4));
    lemma_gt_mul_at((16, 67), (16, 67), (9, 79), (-42, -24));
    assert(GT::spow_steps(GT(gt_of(34, 44)), GT(gt_of(16, 67)), 4) == GT::spow_steps(GT(gt_of(34, 44)), GT(gt_of(9, 79)), 2));
    lemma_gt_mul_at((9, 79), (9, 79), (1, 29), (-61, -48));
    assert(GT::spow_steps(GT(gt_of(34, 44)), GT(gt_of(9, 79)), 2) == GT::spow_steps(GT(gt_of(34, 44)), GT(gt_of(1, 29)), 1));
    lemma_gt_mul_at((34, 44), (1, 29), (71, 57), (-13, -3));
    lemma_gt_mul_at((1, 29), (1, 29), (69, 25), (-9, -8));
    assert(GT::spow_steps(GT(gt_of(34, 44)), GT(gt_of(1, 29)), 1) == GT::spow_steps(GT(gt_of(71, 57)), GT(gt_of(69, 25)), 0));
}

/// The pairing of `13G` with the point `22 P` of the image of `H`.
proof fn lemma_pairing_13_22()
    ensures
        smiller_loop(g1p(65, 3), dq(91, 35)) is Some,
        spairing_at(g1p(65, 3), dq(91, 35)) == GT(gt_of(71, 57)),
{
    lemma_final_exponent();
    lemma_tangent_13_22();
    lemma_tangent_9_22();
    lemma_tangent_1_22();
    lemma_tangent_2_22();
    lemma_vertical_at(65, 98, 3, 91, 35);
    lemma_miller_at(
        g1p(65, 3),
        dq(91, 35),
        (g1p(18, 52), g1p(1, 2), g1p(68, 74), g1p(65, 98)),
        (28, 64),
        (77, 64),
        (60, 20),
        (84, 60),
        (-65, 91),
        ((21, 94, -33, -6), (45, 41, -44, 25), (41, 90, 3, 19), (54, 77, 6, 43)),
        ((17, 64, -30, 23), (12, 31, -24, 25), (35, 94, -36, -38)),
    );
    lemma_final_exp_13_22();
}

proof fn lemma_final_exp_14_22()
    ensures
        GT(gt_of(66, 16)).spow(600) == GT(gt_of(93, 81)),
{
    assert(GT::sone() == GT(gt_of(1, 0)));
    lemma_gt_mul_at((66, 16), (66, 16), (60, 38), (40, 18));
    assert(GT::spow_steps(GT(gt_of(1, 0)), GT(gt_of(66, 16)), 600) == GT::spow_steps(GT(gt_of(1, 0)), GT(gt_of(60, 38)), 300));
    lemma_gt_mul_at((60, 38), (60, 38), (35, 86), (21, 30));
    assert(GT::spow_steps(GT(gt_of(1, 0)), GT(gt_of(60, 38)), 300) == GT::spow_steps(GT(gt_of(1, 0)), GT(gt_of(35, 86)), 150));
    lemma_gt_mul_at((35, 86), (35, 86), (91, 38), (-62, -14));
    assert(GT::spow_steps(GT(gt_of(1, 0)), GT(gt_of(35, 86)), 150) == GT::spow_steps(GT(gt_of(1, 0)), GT(gt_of(91, 38)), 75));
    lemma_gt_mul_at((1, 0), (91, 38), (91, 38), (0, 0));
    lemma_gt_mul_at((91, 38), (91, 38), (70, 18), (67, 54));
    assert(GT::spow_steps(GT(gt_of(1, 0)), GT(gt_of(91, 38)), 75) == GT::spow_steps(GT(gt_of(91, 38)), GT(gt_of(70, 18)), 37));
    lemma_gt_mul_at((91, 38), (70, 18), (30, 79), (56, 35));
    lemma_gt_mul_at((70, 18), (70, 18), (31, 75), (45, 21));
    assert(GT::spow_steps(GT(gt_of(91, 38)), GT(gt_of(70, 18)), 37) == GT::spow_steps(GT(gt_of(30, 79)), GT(gt_of(31, 75)), 18));
    lemma_gt_mul_at((31, 75), (31, 75), (83, 35), (-47, -10));
    assert(GT::spow_steps(GT(gt_of(30, 79)), GT(gt_of(31, 75)), 18) == GT::spow_steps(GT(gt_of(30, 79)), GT(gt_of(83, 35)), 9));
    lemma_gt_mul_at((30, 79), (83, 35), (28, 95), (-3, 47));
    lemma_gt_mul_at((83, 35), (83, 35), (8, 40), (56, 45));
    assert(GT::spow_steps(GT(gt_of(30, 79)), GT(gt_of(83, 35)), 9) == GT::spow_steps(GT(gt_of(28, 95)), GT(gt_of(8, 40)), 4));
    lemma_gt_mul_at((8, 40), (8, 40), (80, 50), (-16, -10));
    assert(GT::spow_steps(GT(gt_of(28, 95)), GT(gt_of(8, 40)), 4) == GT::spow_steps(GT(gt_of(28, 95)), GT(gt_of(80, 50)), 2));
    lemma_gt_mul_at((80, 50), (80, 50), (62, 46), (38, 54));
    assert(GT::spow_steps(GT(gt_of(28, 95)), GT(gt_of(80, 50)), 2) == GT::spow_steps(GT(gt_of(28, 95)), GT(gt_of(62, 46)), 1));
    lemma_gt_mul_at((28, 95), (62, 46), (93, 81), (-27, 27));
    lemma_gt_mul_at((62, 46), (62, 46), (11, 53), (17, 35));
    assert(GT::spow_steps(GT(gt_of(28, 95)), GT(gt_of(62, 46)), 1) == GT::spow_steps(GT(gt_of(93, 81)), GT(gt_of(11, 53)), 0));
}

/// The pairing of `14G` with the point `22 P` of the image of `H`.
proof fn lemma_pairing_14_22()
    ensures
        smiller_loop(g1p(26, 56), dq(91, 35)) is Some,
        spairing_at(g1p(26, 56), dq(91, 35)) == GT(gt_of(93, 81)),
{
    lemma_final_exponent();
    lemma_tangent_14_22();
    lemma_tangent_11_22();
    lemma_tangent_5_22();
    lemma_tangent_10_22();
    lemma_vertical_at(26, 45, 56, 91, 35);
    lemma_miller_at(
        g1p(26, 56),
        dq(91, 35),
        (g1p(32, 59), g1p(12, 32), g1p(91, 66), g1p(26, 45)),
        (48, 68),
        (32, 95),
        (69, 0),
        (65, 36),
        (-26, 91),
        ((3, 86, -23, 18), (6, 18, -80, -51), (15, 94, -3, -2), (25, 22, 10, 64)),
        ((40, 10, 1, 6), (18, 13, 22, 17), (66, 16, -17, 1)),
    );
    lemma_final_exp_14_22();
}

proof fn lemma_final_exp_15_22()
    ensures
        GT(gt_of(7, 56)).spow(600) == GT(gt_of(28, 39)),
{
    assert(GT::sone() == GT(gt_of(1, 0)));
    lemma_gt_mul_at((7, 56), (7, 56), (44, 72), (-31, -24));
    assert(GT::spow_steps(GT(gt_of(1, 0)), GT(gt_of(7, 56)), 600) == GT::spow_steps(GT(gt_of(1, 0)), GT(gt_of(44, 72)), 300));
    lemma_gt_mul_at((44, 72), (44, 72), (85, 41), (-33, 11));
    assert(GT::spow_steps(GT(gt_of(1, 0)), GT(gt_of(44, 72)), 300) == GT::spow_steps(GT(gt_of(1, 0)), GT(gt_of(85, 41)), 150));
    lemma_gt_mul_at((85, 41), (85, 41), (90, 37), (54, 52));
    assert(GT::spow_steps(GT(gt_of(1, 0)), GT(gt_of(85, 41)), 150) == GT::spow_steps(GT(gt_of(1, 0)), GT(gt_of(90, 37)), 75));
    lemma_gt_mul_at((1, 0), (90, 37), (90, 37), (0, 0));
    lemma_gt_mul_at((90, 37), (90, 37), (65, 39), (66, 52));
    assert(GT::spow_steps(GT(gt_of(1, 0)), GT(gt_of(90, 37)), 75) == GT::spow_steps(GT(gt_of(90, 37)), GT(gt_of(65, 39)), 37));
    lemma_gt_mul_at((90, 37), (65, 39), (64, 28), (43, 44));
    lemma_gt_mul_at((65, 39), (65, 39), (78, 14), (26, 35));
    assert(GT::spow_steps(GT(gt_of(90, 37)), GT(gt_of(65, 39)), 37) == GT::spow_steps(GT(gt_of(64, 28)), GT(gt_of(78, 14)), 18));
    lemma_gt_mul_at((78, 14), (78, 14), (30, 69), (58, 19));
    assert(GT::spow_steps(GT(gt_of(64, 28)), GT(gt_of(78, 14)), 18) == GT::spow_steps(GT(gt_of(64, 28)), GT(gt_of(30, 69)), 9));
    lemma_gt_mul_at((64, 28), (30, 69), (89, 92), (-1, 32));
    lemma_gt_mul_at((30, 69), (30, 69), (78, 86), (-39, -7));
    assert(GT::spow_steps(GT(gt_of(64, 28)), GT(gt_of(30, 69)), 9) == GT::spow_steps(GT(gt_of(89, 92)), GT(gt_of(78, 86)), 4));
    lemma_gt_mul_at((78, 86), (78, 86), (1, 61), (-13, 59));
    assert(GT::spow_steps(GT(gt_of(89, 92)), GT(gt_of(78, 86)), 4) == GT::spow_steps(GT(gt_of(89, 92)), GT(gt_of(1, 61)), 2));
    lemma_gt_mul_at((1, 61), (1, 61), (17, 37), (-37, -36));
    assert(GT::spow_steps(GT(gt_of(89, 92)), GT(gt_of(1, 61)), 2) == GT::spow_steps(GT(gt_of(89, 92)), GT(gt_of(17, 37)), 1));
    lemma_gt_mul_at((89, 92), (17, 37), (28, 39), (-19, 14));
    lemma_gt_mul_at((17, 37), (17, 37), (31, 91), (-11, -2));
    assert(GT::spow_steps(GT(gt_of(89, 92)), GT(gt_of(17, 37)), 1) == GT::spow_steps(GT(gt_of(28, 39)), GT(gt_of(31, 91)), 0));
}

/// The pairing of `15G` with the point `22 P` of the image of `H`.
proof fn lemma_pairing_15_22()
    ensures
        smiller_loop(g1p(68, 27), dq(91, 35)) is Some,
        spairing_at(g1p(68, 27), dq(91, 35)) == GT(gt_of(28, 39)),
{
    lemma_final_exponent();
    lemma_tangent_15_22();
    lemma_tangent_13_22();
    lemma_tangent_9_22();
    lemma_tangent_1_22();
    lemma_vertical_at(68, 74, 27, 91, 35);
    lemma_miller_at(
        g1p(68, 27),
        dq(91, 35),
        (g1p(65, 3), g1p(18, 52), g1p(1, 2), g1p(68, 74)),
        (40, 46),
        (28, 64),
        (77, 64),
        (60, 20),
        (-68, 91),
        ((90, 49, -6, 15), (91, 57, -7, 39), (83, 55, 49, 70), (43, 68, 28, 59)),
        ((53, 12, -28, 12), (11, 25, 29, 15), (7, 56, -30, -30)),
    );
    lemma_final_exp_15_22();
}

proof fn lemma_final_exp_16_22()
    ensures
        GT(gt_of(29, 8)).spow(600) == GT(gt_of(15, 55)),
{
    assert(GT::sone() == GT(gt_of(1, 0)));
    lemma_gt_mul_at((29, 8), (29, 8), (70, 97), (7, 3));
    assert(GT::spow_steps(GT(gt_of(1, 0)), GT(gt_of(29, 8)), 600) == GT::spow_steps(GT(gt_of(1, 0)), GT(gt_of(70, 97)), 300));
    lemma_gt_mul_at((70, 97), (70, 97), (36, 30), (-45, 41));
    assert(GT::spow_steps(GT(gt_of(1, 0)), GT(gt_of(70, 97)), 300) == GT::spow_steps(GT(gt_of(1, 0)), GT(gt_of(36, 30)), 150));
    lemma_gt_mul_at((36, 30), (36, 30), (93, 48), (3, 12));
    assert(GT::spow_steps(GT(gt_of(1, 0)), GT(gt_of(36, 30)), 150) == GT::spow_steps(GT(gt_of(1, 0)), GT(gt_of(93, 48)), 75));
    lemma_gt_mul_at((1, 0), (93, 48), (93, 48), (0, 0));
    lemma_gt_mul_at((93, 48), (93, 48), (83, 59), (62, 65));
    assert(GT::spow_steps(GT(gt_of(1, 0)), GT(gt_of(93, 48)), 75) == GT::spow_steps(GT(gt_of(93, 48)), GT(gt_of(83, 59)), 37));
    lemma_gt_mul_at((93, 48), (83, 59), (39, 74), (48, 65));
    lemma_gt_mul_at((83, 59), (83, 59), (75, 51), (33, 62));
    assert(GT::spow_steps(GT(gt_of(93, 48)), GT(gt_of(83, 59)), 37) == GT::spow_steps(GT(gt_of(39, 74)), GT(gt_of(75, 51)), 18));
    lemma_gt_mul_at((75, 51), (75, 51), (95, 100), (29, 49));
    assert(GT::spow_steps(GT(gt_of(39, 74)), GT(gt_of(75, 51)), 18) == GT::spow_steps(GT(gt_of(39, 74)), GT(gt_of(95, 100)), 9));
    lemma_gt_mul_at((39, 74), (95, 100), (42, 96), (-37, 34));
    lemma_gt_mul_at((95, 100), (95, 100), (35, 11), (-10, 89));
    assert(GT::spow_steps(GT(gt_of(39, 74)), GT(gt_of(95, 100)), 9) == GT::spow_steps(GT(gt_of(42, 96)), GT(gt_of(35, 11)), 4));
    lemma_gt_mul_at((35, 11), (35, 11), (94, 43), (10, 6));
    assert(GT::spow_steps(GT(gt_of(42, 96)), GT(gt_of(35, 11)), 4) == GT::spow_steps(GT(gt_of(42, 96)), GT(gt_of(94, 43)), 2));
    lemma_gt_mul_at((94, 43), (94, 43), (18, 74), (69, 61));
    assert(GT::spow_steps(GT(gt_of(42, 96)), GT(gt_of(94, 43)), 2) == GT::spow_steps(GT(gt_of(42, 96)), GT(gt_of(18, 74)), 1));
    lemma_gt_mul_at((42, 96), (18, 74), (15, 55), (-63, -23));
    lemma_gt_mul_at((18, 74), (18, 74), (100, 16), (-52, -28));
    assert(GT::spow_steps(GT(gt_of(42, 96)), GT(gt_of(18, 74)), 1) == GT::spow_steps(GT(gt_of(15, 55)), GT(gt_of(100, 16)), 0));
}

/// The pairing of `16G` with the point `22 P` of the image of `H`.
proof fn lemma_pairing_16_22()
    ensures
        smiller_loop(g1p(1, 99), dq(91, 35)) is Some,
        spairing_at(g1p(1, 99), dq(91, 35)) == GT(gt_of(15, 55)),
{
    lemma_final_exponent();
    lemma_tangent_16_22();
    lemma_tangent_15_22();
    lemma_tangent_13_22();
    lemma_tangent_9_22();
    lemma_vertical_at(1, 2, 99, 91, 35);
    lemma_miller_at(
        g1p(1, 99),
        dq(91, 35),
        (g1p(68, 27), g1p(65, 3), g1p(18, 52), g1p(1, 2)),
        (36, 54),
        (40, 46),
        (28, 64),
        (77, 64),
        (-1, 91),
        ((97, 63, -17, 9), (73, 44, 9, 40), (60, 44, 33, 44), (76, 34, -12, 22)),
        ((75, 73, 45, 39), (93, 93, 10, 56), (29, 8, -85, -1)),
    );
    lemma_final_exp_16_22();
}

proof fn lemma_final_exp_1_23()
    ensures
        GT(gt_of(66, 90)).spow(600) == GT(gt_of(78, 3)),
{
    assert(GT::sone() == GT(gt_of(1, 0)));
    lemma_gt_mul_at((66, 90), (66, 90), (94, 43), (-38, 37));
    assert(GT::spow_steps(GT(gt_of(1, 0)), GT(gt_of(66, 90)), 600) == GT::spow_steps(GT(gt_of(1, 0)), GT(gt_of(94, 43)), 300));
    lemma_gt_mul_at((94, 43), (94, 43), (18, 74), (69, 61));
    assert(GT::spow_steps(GT(gt_of(1, 0)), GT(gt_of(94, 43)), 300) == GT::spow_steps(GT(gt_of(1, 0)), GT(gt_of(18, 74)), 150));
    lemma_gt_mul_at((18, 74), (18, 74), (100, 16), (-52, -28));
    assert(GT::spow_steps(GT(gt_of(1, 0)), GT(gt_of(18, 74)), 150) == GT::spow_steps(GT(gt_of(1, 0)), GT(gt_of(100, 16)), 75));
    lemma_gt_mul_at((1, 0), (100, 16), (100, 16), (0, 0));
    lemma_gt_mul_at((100, 16), (100, 16), (48, 15), (96, 29));
    assert(GT::spow_steps(GT(gt_of(1, 0)), GT(gt_of(100, 16)), 75) == GT::spow_steps(GT(gt_of(100, 16)), GT(gt_of(48, 15)), 37));
    lemma_gt_mul_at((100, 16), (48, 15), (15, 8), (45, 20));
    lemma_gt_mul_at((48, 15), (48, 15), (59, 3), (20, 12));
    assert(GT::spow_steps(GT(gt_of(100, 16)), GT(gt_of(48, 15)), 37) == GT::spow_steps(GT(gt_of(15, 8)), GT(gt_of(59, 3)), 18));
    lemma_gt_mul_at((59, 3), (59, 3), (38, 42), (34, 3));
    assert(GT::spow_steps(GT(gt_of(15, 8)), GT(gt_of(59, 3)), 18) == GT::spow_steps(GT(gt_of(15, 8)), GT(gt_of(38, 42)), 9));
    lemma_gt_mul_at((15, 8), (38, 42), (32, 93), (2, 5));
    lemma_gt_mul_at((38, 42), (38, 42), (84, 14), (-4, 14));
    assert(GT::spow_steps(GT(gt_of(15, 8)), GT(gt_of(38, 42)), 9) == GT::spow_steps(GT(gt_of(32, 93)), GT(gt_of(84, 14)), 4));
    lemma_gt_mul_at((84, 14), (84, 14), (93, 35), (67, 21));
    assert(GT::spow_steps(GT(gt_of(32, 93)), GT(gt_of(84, 14)), 4) == GT::spow_steps(GT(gt_of(32, 93)), GT(gt_of(93, 35)), 2));
    lemma_gt_mul_at((93, 35), (93, 35), (51, 33), (73, 52));
    assert(GT::spow_steps(GT(gt_of(32, 93)), GT(gt_of(93, 35)), 2) == GT::spow_steps(GT(gt_of(32, 93)), GT(gt_of(51, 33)), 1));
    lemma_gt_mul_at((32, 93), (51, 33), (78, 3), (-15, 27));
    lemma_gt_mul_at((51, 33), (51, 33), (98, 55), (14, 22));
    assert(GT::spow_steps(GT(gt_of(32, 93)), GT(gt_of(51, 33)), 1) == GT::spow_steps(GT(gt_of(78, 3)), GT(gt_of(98, 55)), 0));
}

/// The pairing of `1G` with the point `23 P` of the image of `H`.
proof fn lemma_pairing_1_23()
    ensures
        smiller_loop(g1p(1, 2), dq(58, 65)) is Some,
        spairing_at(g1p(1, 2), dq(58, 65)) == GT(gt_of(78, 3)),
{
    lemma_final_exponent();
    lemma_tangent_1_23();
    lemma_tangent_2_23();
    lemma_tangent_4_23();
    lemma_tangent_8_23();
    lemma_vertical_at(1, 99, 2, 58, 65);
    lemma_miller_at(
        g1p(1, 2),
        dq(58, 65),
        (g1p(68, 74), g1p(65, 98), g1p(18, 49), g1p(1, 99)),
        (36, 59),
        (39, 3),
        (54, 57),
        (10, 20),
        (-1, 58),
        ((37, 60, -22, 7), (51, 49, 12, 22), (99, 72, 1, 25), (30, 74, 12, 53)),
        ((70, 75, -46, -11), (8, 44, -8, 6), (66, 90, -26, -22)),
    );
    lemma_final_exp_1_23();
}

proof fn lemma_final_exp_2_23()
    ensures
        GT(gt_of(7, 89)).spow(600) == GT(gt_of(15, 55)),
{
    assert(GT::sone() == GT(gt_of(1, 0)));
    lemma_gt_mul_at((7, 89), (7, 89), (6, 92), (-78, -67));
    assert(GT::spow_steps(GT(gt_of(1, 0)), GT(gt_of(7, 89)), 600) == GT::spow_steps(GT(gt_of(1, 0)), GT(gt_of(6, 92)), 300));
    lemma_gt_mul_at((6, 92), (6, 92), (56, 13), (-84, -73));
    assert(GT::spow_steps(GT(gt_of(1, 0)), GT(gt_of(6, 92)), 300) == GT::spow_steps(GT(gt_of(1, 0)), GT(gt_of(56, 13)), 150));
    lemma_gt_mul_at((56, 13), (56, 13), (38, 75), (29, 12));
    assert(GT::spow_steps(GT(gt_of(1, 0)), GT(gt_of(56, 13)), 150) == GT::spow_steps(GT(gt_of(1, 0)), GT(gt_of(38, 75)), 75));
    lemma_gt_mul_at((1, 0), (38, 75), (38, 75), (0, 0));
    lemma_gt_mul_at((38, 75), (38, 75), (61, 75), (-42, 0));
    assert(GT::spow_steps(GT(gt_of(1, 0)), GT(gt_of(38, 75)), 75) == GT::spow_steps(GT(gt_of(38, 75)), GT(gt_of(61, 75)), 37));
    lemma_gt_mul_at((38, 75), (61, 75), (26, 83), (-33, 17));
    lemma_gt_mul_at((61, 75), (61, 75), (15, 91), (-19, 34));
    assert(GT::spow_steps(GT(gt_of(38, 75)), GT(gt_of(61, 75)), 37) == GT::spow_steps(GT(gt_of(26, 83)), GT(gt_of(15, 91)), 18));
    lemma_gt_mul_at((15, 91), (15, 91), (24, 4), (-80, -55));
    assert(GT::spow_steps(GT(gt_of(26, 83)), GT(gt_of(15, 91)), 18) == GT::spow_steps(GT(gt_of(26, 83)), GT(gt_of(24, 4)), 9));
    lemma_gt_mul_at((26, 83), (24, 4), (90, 47), (2, 17));
    lemma_gt_mul_at((24, 4), (24, 4), (55, 75), (5, 1));
    assert(GT::spow_steps(GT(gt_of(26, 83)), GT(gt_of(24, 4)), 9) == GT::spow_steps(GT(gt_of(90, 47)), GT(gt_of(55, 75)), 4));
    lemma_gt_mul_at((55, 75), (55, 75), (26, 100), (-26, 25));
    assert(GT::spow_steps(GT(gt_of(90, 47)), GT(gt_of(55, 75)), 4) == GT::spow_steps(GT(gt_of(90, 47)), GT(gt_of(26, 100)), 2));
    lemma_gt_mul_at((26, 100), (26, 100), (69, 48), (-93, -48));
    assert(GT::spow_steps(GT(gt_of(90, 47)), GT(gt_of(26, 100)), 2) == GT::spow_steps(GT(gt_of(90, 47)), GT(gt_of(69, 48)), 1));
    lemma_gt_mul_at((90, 47), (69, 48), (15, 55), (39, 52));
    lemma_gt_mul_at((69, 48), (69, 48), (33, 78), (24, 42));
    assert(GT::spow_steps(GT(gt_of(90, 47)), GT(gt_of(69, 48)), 1) == GT::spow_steps(GT(gt_of(15, 55)), GT(gt_of(33, 78)), 0));
}

/// The pairing of `2G` with the point `23 P` of the image of `H`.
proof fn lemma_pairing_2_23()
    ensures
        smiller_loop(g1p(68, 74), dq(58, 65)) is Some,
        spairing_at(g1p(68, 74), dq(58, 65)) == GT(gt_of(15, 55)),
{
    lemma_final_exponent();
    lemma_tangent_2_23();
    lemma_tangent_4_23();
    lemma_tangent_8_23();
    lemma_tangent_16_23();
    lemma_vertical_at(68, 27, 74, 58, 65);
    lemma_miller_at(
        g1p(68, 74),
        dq(58, 65),
        (g1p(65, 98), g1p(18, 49), g1p(1, 99), g1p(68, 27)),
        (39, 3),
        (54, 57),
        (10, 20),
        (6, 95),
        (-68, 58),
        ((98, 23, 14, 2), (42, 63, 39, 54), (17, 10, -22, 13), (71, 38, -1, 2)),
        ((62, 13, 35, 39), (46, 87, -9, 46), (7, 89, -81, -83)),
    );
    lemma_final_exp_2_23();
}

proof fn lemma_final_exp_3_23()
    ensures
        GT(gt_of(84, 16)).spow(600) == GT(gt_of(96, 29)),
{
    assert(GT::sone() == GT(gt_of(1, 0)));
    lemma_gt_mul_at((84, 16), (84, 16), (33, 8), (67, 24));
    assert(GT::spow_steps(GT(gt_of(1, 0)), GT(gt_of(84, 16)), 600) == GT::spow_steps(GT(gt_of(1, 0)), GT(gt_of(33, 8)), 300));
    lemma_gt_mul_at((33, 8), (33, 8), (15, 60), (10, 4));
    assert(GT::spow_steps(GT(gt_of(1, 0)), GT(gt_of(33, 8)), 300) == GT::spow_steps(GT(gt_of(1, 0)), GT(gt_of(15, 60)), 150));
    lemma_gt_mul_at((15, 60), (15, 60), (59, 18), (-34, -18));
    assert(GT::spow_steps(GT(gt_of(1, 0)), GT(gt_of(15, 60)), 150) == GT::spow_steps(GT(gt_of(1, 0)), GT(gt_of(59, 18)), 75));
    lemma_gt_mul_at((1, 0), (59, 18), (59, 18), (0, 0));
    lemma_gt_mul_at((59, 18), (59, 18), (26, 83), (31, 17));
    assert(GT::spow_steps(GT(gt_of(1, 0)), GT(gt_of(59, 18)), 75) == GT::spow_steps(GT(gt_of(59, 18)), GT(gt_of(26, 83)), 37));
    lemma_gt_mul_at((59, 18), (26, 83), (40, 33), (0, 38));
    lemma_gt_mul_at((26, 83), (26, 83), (49, 53), (-62, -26));
    assert(GT::spow_steps(GT(gt_of(59, 18)), GT(gt_of(26, 83)), 37) == GT::spow_steps(GT(gt_of(40, 33)), GT(gt_of(49, 53)), 18));
    lemma_gt_mul_at((49, 53), (49, 53), (97, 62), (-5, 23));
    assert(GT::spow_steps(GT(gt_of(40, 33)), GT(gt_of(49, 53)), 18) == GT::spow_steps(GT(gt_of(40, 33)), GT(gt_of(97, 62)), 9));
    lemma_gt_mul_at((40, 33), (97, 62), (16, 100), (18, 35));
    lemma_gt_mul_at((97, 62), (97, 62), (10, 3), (55, 81));
    assert(GT::spow_steps(GT(gt_of(40, 33)), GT(gt_of(97, 62)), 9) == GT::spow_steps(GT(gt_of(16, 100)), GT(gt_of(10, 3)), 4));
    lemma_gt_mul_at((10, 3), (10, 3), (91, 51), (0, 0));
    assert(GT::spow_steps(GT(gt_of(16, 100)), GT(gt_of(10, 3)), 4) == GT::spow_steps(GT(gt_of(16, 100)), GT(gt_of(91, 51)), 2));
    lemma_gt_mul_at((91, 51), (91, 51), (24, 15), (56, 66));
    assert(GT::spow_steps(GT(gt_of(16, 100)), GT(gt_of(91, 51)), 2) == GT::spow_steps(GT(gt_of(16, 100)), GT(gt_of(24, 15)), 1));
    lemma_gt_mul_at((16, 100), (24, 15), (96, 29), (-12, 11));
    lemma_gt_mul_at((24, 15), (24, 15), (48, 91), (3, 4));
    assert(GT::spow_steps(GT(gt_of(16, 100)), GT(gt_of(24, 15)), 1) == GT::spow_steps(GT(gt_of(96, 29)), GT(gt_of(48, 91)), 0));
}

/// The pairing of `3G` with the point `23 P` of the image of `H`.
proof fn lemma_pairing_3_23()
    ensures
        smiller_loop(g1p(26, 45), dq(58, 65)) is Some,
        spairing_at(g1p(26, 45), dq(58, 65)) == GT(gt_of(96, 29)),
{
    lemma_final_exponent();
    lemma_tangent_3_23();
    lemma_tangent_6_23();
    lemma_tangent_12_23();
    lemma_tangent_7_23();
    lemma_vertical_at(26, 56, 45, 58, 65);
    lemma_miller_at(
        g1p(26, 45),
        dq(58, 65),
        (g1p(32, 42), g1p(12, 69), g1p(91, 35), g1p(26, 56)),
        (95, 53),
        (47, 61),
        (4, 84),
        (77, 7),
        (-26, 58),
        ((55, 90, 61, 71), (24, 75, -29, 20), (1, 96, -50, -21), (20, 80, -80, -76)),
        ((60, 32, -60, -32), (53, 34, 43, 26), (84, 16, -34, 2)),
    );
    lemma_final_exp_3_23();
}

proof fn lemma_final_exp_4_23()
    ensures
        GT(gt_of(52, 41)).spow(600) == GT(gt_of(28, 39)),
{
    assert(GT::sone() == GT(gt_of(1, 0)));
    lemma_gt_mul_at((52, 41), (52, 41), (13, 58), (10, 25));
    assert(GT::spow_steps(GT(gt_of(1, 0)), GT(gt_of(52, 41)), 600) == GT::spow_steps(GT(gt_of(1, 0)), GT(gt_of(13, 58)), 300));
    lemma_gt_mul_at((13, 58), (13, 58), (37, 63), (-32, -19));
    assert(GT::spow_steps(GT(gt_of(1, 0)), GT(gt_of(13, 58)), 300) == GT::spow_steps(GT(gt_of(1, 0)), GT(gt_of(37, 63)), 150));
    lemma_gt_mul_at((37, 63), (37, 63), (26, 87), (-26, 6));
    assert(GT::spow_steps(GT(gt_of(1, 0)), GT(gt_of(37, 63)), 150) == GT::spow_steps(GT(gt_of(1, 0)), GT(gt_of(26, 87)), 75));
    lemma_gt_mul_at((1, 0), (26, 87), (26, 87), (0, 0));
    lemma_gt_mul_at((26, 87), (26, 87), (76, 86), (-69, -31));
    assert(GT::spow_steps(GT(gt_of(1, 0)), GT(gt_of(26, 87)), 75) == GT::spow_steps(GT(gt_of(26, 87)), GT(gt_of(76, 86)), 37));
    lemma_gt_mul_at((26, 87), (76, 86), (49, 53), (-55, 13));
    lemma_gt_mul_at((76, 86), (76, 86), (97, 20), (-17, 56));
    assert(GT::spow_steps(GT(gt_of(26, 87)), GT(gt_of(76, 86)), 37) == GT::spow_steps(GT(gt_of(49, 53)), GT(gt_of(97, 20)), 18));
    lemma_gt_mul_at((97, 20), (97, 20), (20, 46), (89, 34));
    assert(GT::spow_steps(GT(gt_of(49, 53)), GT(gt_of(97, 20)), 18) == GT::spow_steps(GT(gt_of(49, 53)), GT(gt_of(20, 46)), 9));
    lemma_gt_mul_at((49, 53), (20, 46), (57, 68), (-15, 8));
    lemma_gt_mul_at((20, 46), (20, 46), (1, 27), (-17, -3));
    assert(GT::spow_steps(GT(gt_of(49, 53)), GT(gt_of(20, 46)), 9) == GT::spow_steps(GT(gt_of(57, 68)), GT(gt_of(1, 27)), 4));
    lemma_gt_mul_at((1, 27), (1, 27), (80, 32), (-8, -7));
    assert(GT::spow_steps(GT(gt_of(57, 68)), GT(gt_of(1, 27)), 4) == GT::spow_steps(GT(gt_of(57, 68)), GT(gt_of(80, 32)), 2));
    lemma_gt_mul_at((80, 32), (80, 32), (23, 56), (53, 40));
    assert(GT::spow_steps(GT(gt_of(57, 68)), GT(gt_of(80, 32)), 2) == GT::spow_steps(GT(gt_of(57, 68)), GT(gt_of(23, 56)), 1));
    lemma_gt_mul_at((57, 68), (23, 56), (28, 39), (-25, 9));
    lemma_gt_mul_at((23, 56), (23, 56), (19, 46), (-26, -6));
    assert(GT::spow_steps(GT(gt_of(57, 68)), GT(gt_of(23, 56)), 1) == GT::spow_steps(GT(gt_of(28, 39)), GT(gt_of(19, 46)), 0));
}

/// The pairing of `4G` with the point `23 P` of the image of `H`.
proof fn lemma_pairing_4_23()
    ensures
        smiller_loop(g1p(65, 98), dq(58, 65)) is Some,
        spairing_at(g1p(65, 98), dq(58, 65)) == GT(gt_of(28, 39)),
{
    lemma_final_exponent();
    lemma_tangent_4_23();
    lemma_tangent_8_23();
    lemma_tangent_16_23();
    lemma_tangent_15_23();
    lemma_vertical_at(65, 3, 98, 58, 65);
    lemma_miller_at(
        g1p(65, 98),
        dq(58, 65),
        (g1p(18, 49), g1p(1, 99), g1p(68, 27), g1p(65, 3)),
        (54, 57),
        (10, 20),
        (6, 95),
        (100, 88),
        (-65, 58),
        ((71, 79, -4, 28), (39, 24, -9, 6), (36, 84, 9, 12), (13, 85, -77, -41)),
        ((14, 35, -70, -50), (37, 36, -17, 16), (52, 41, -45, -23)),
    );
    lemma_final_exp_4_23();
}

proof fn lemma_final_exp_5_23()
    ensures
        GT(gt_of(38, 56)).spow(600) == GT(gt_of(47, 80)),
{
    assert(GT::sone() == GT(gt_of(1, 0)));
    lemma_gt_mul_at((38, 56), (38, 56), (25, 9), (-17, 11));
    assert(GT::spow_steps(GT(gt_of(1, 0)), GT(gt_of(38, 56)), 600) == GT::spow_steps(GT(gt_of(1, 0)), GT(gt_of(25, 9)), 300));
    lemma_gt_mul_at((25, 9), (25, 9), (39, 66), (5, 3));
    assert(GT::spow_steps(GT(gt_of(1, 0)), GT(gt_of(25, 9)), 300) == GT::spow_steps(GT(gt_of(1, 0)), GT(gt_of(39, 66)), 150));
    lemma_gt_mul_at((39, 66), (39, 66), (94, 85), (-29, 7));
    assert(GT::spow_steps(GT(gt_of(1, 0)), GT(gt_of(39, 66)), 150) == GT::spow_steps(GT(gt_of(1, 0)), GT(gt_of(94, 85)), 75));
    lemma_gt_mul_at((1, 0), (94, 85), (94, 85), (0, 0));
    lemma_gt_mul_at((94, 85), (94, 85), (96, 69), (15, 86));
    assert(GT::spow_steps(GT(gt_of(1, 0)), GT(gt_of(94, 85)), 75) == GT::spow_steps(GT(gt_of(94, 85)), GT(gt_of(96, 69)), 37));
    lemma_gt_mul_at((94, 85), (96, 69), (28, 95), (31, 86));
    lemma_gt_mul_at((96, 69), (96, 69), (11, 3), (44, 84));
    assert(GT::spow_steps(GT(gt_of(94, 85)), GT(gt_of(96, 69)), 37) == GT::spow_steps(GT(gt_of(28, 95)), GT(gt_of(11, 3)), 18));
    lemma_gt_mul_at((11, 3), (11, 3), (11, 57), (1, 0));
    assert(GT::spow_steps(GT(gt_of(28, 95)), GT(gt_of(11, 3)), 18) == GT::spow_steps(GT(gt_of(28, 95)), GT(gt_of(11, 57)), 9));
    lemma_gt_mul_at((28, 95), (11, 57), (44, 54), (-51, -28));
    lemma_gt_mul_at((11, 57), (11, 57), (3, 25), (-31, -20));
    assert(GT::spow_steps(GT(gt_of(28, 95)), GT(gt_of(11, 57)), 9) == GT::spow_steps(GT(gt_of(44, 54)), GT(gt_of(3, 25)), 4));
    lemma_gt_mul_at((3, 25), (3, 25), (91, 30), (-7, -5));
    assert(GT::spow_steps(GT(gt_of(44, 54)), GT(gt_of(3, 25)), 4) == GT::spow_steps(GT(gt_of(44, 54)), GT(gt_of(91, 30)), 2));
    lemma_gt_mul_at((91, 30), (91, 30), (8, 15), (73, 45));
    assert(GT::spow_steps(GT(gt_of(44, 54)), GT(gt_of(91, 30)), 2) == GT::spow_steps(GT(gt_of(44, 54)), GT(gt_of(8, 15)), 1));
    lemma_gt_mul_at((44, 54), (8, 15), (47, 80), (-5, 2));
    lemma_gt_mul_at((8, 15), (8, 15), (41, 15), (-2, 0));
    assert(GT::spow_steps(GT(gt_of(44, 54)), GT(gt_of(8, 15)), 1) == GT::spow_steps(GT(gt_of(47, 80)), GT(gt_of(41, 15)), 0));
}

/// The pairing of `5G` with the point `23 P` of the image of `H`.
proof fn lemma_pairing_5_23()
    ensures
        smiller_loop(g1p(12, 32), dq(58, 65)) is Some,
        spairing_at(g1p(12, 32), dq(58, 65)) == GT(gt_of(47, 80)),
{
    lemma_final_exponent();
    lemma_tangent_5_23();
    lemma_tangent_10_23();
    lemma_tangent_3_23();
    lemma_tangent_6_23();
    lemma_vertical_at(12, 69, 32, 58, 65);
    lemma_miller_at(
        g1p(12, 32),
        dq(58, 65),
        (g1p(91, 66), g1p(26, 45), g1p(32, 42), g1p(12, 69)),
        (0, 5),
        (69, 89),
        (95, 53),
        (47, 61),
        (-12, 58),
        ((76, 76, -1, -1), (96, 93, -16, 51), (62, 16, 5, 91), (93, 19, 49, 39)),
        ((6, 42, 82, 31), (43, 81, -23, -3), (38, 56, -52, -32)),
    );
    lemma_final_exp_5_23();
}

proof fn lemma_final_exp_6_23()
    ensures
        GT(gt_of(44, 52)).spow(600) == GT(gt_of(93, 81)),
{
    assert(GT::sone() == GT(gt_of(1, 0)));
    lemma_gt_mul_at((44, 52), (44, 52), (40, 54), (-8, 18));
    assert(GT::spow_steps(GT(gt_of(1, 0)), GT(gt_of(44, 52)), 600) == GT::spow_steps(GT(gt_of(1, 0)), GT(gt_of(40, 54)), 300));
    lemma_gt_mul_at((40, 54), (40, 54), (98, 91), (-14, 13));
    assert(GT::spow_steps(GT(gt_of(1, 0)), GT(gt_of(40, 54)), 300) == GT::spow_steps(GT(gt_of(1, 0)), GT(gt_of(98, 91)), 150));
    lemma_gt_mul_at((98, 91), (98, 91), (10, 61), (13, 94));
    assert(GT::spow_steps(GT(gt_of(1, 0)), GT(gt_of(98, 91)), 150) == GT::spow_steps(GT(gt_of(1, 0)), GT(gt_of(10, 61)), 75));
    lemma_gt_mul_at((1, 0), (10, 61), (10, 61), (0, 0));
    lemma_gt_mul_at((10, 61), (10, 61), (15, 24), (-36, -25));
    assert(GT::spow_steps(GT(gt_of(1, 0)), GT(gt_of(10, 61)), 75) == GT::spow_steps(GT(gt_of(10, 61)), GT(gt_of(15, 24)), 37));
    lemma_gt_mul_at((10, 61), (15, 24), (100, 95), (-14, -4));
    lemma_gt_mul_at((15, 24), (15, 24), (53, 43), (-4, 1));
    assert(GT::spow_steps(GT(gt_of(10, 61)), GT(gt_of(15, 24)), 37) == GT::spow_steps(GT(gt_of(100, 95)), GT(gt_of(53, 43)), 18));
    lemma_gt_mul_at((53, 43), (53, 43), (51, 83), (9, 26));
    assert(GT::spow_steps(GT(gt_of(100, 95)), GT(gt_of(53, 43)), 18) == GT::spow_steps(GT(gt_of(100, 95)), GT(gt_of(51, 83)), 9));
    lemma_gt_mul_at((100, 95), (51, 83), (43, 8), (-28, 52));
    lemma_gt_mul_at((51, 83), (51, 83), (55, 62), (-43, 15));
    assert(GT::spow_steps(GT(gt_of(100, 95)), GT(gt_of(51, 83)), 9) == GT::spow_steps(GT(gt_of(43, 8)), GT(gt_of(55, 62)), 4));
    lemma_gt_mul_at((55, 62), (55, 62), (90, 47), (-9, 29));
    assert(GT::spow_steps(GT(gt_of(43, 8)), GT(gt_of(55, 62)), 4) == GT::spow_steps(GT(gt_of(43, 8)), GT(gt_of(90, 47)), 2));
    lemma_gt_mul_at((90, 47), (90, 47), (33, 90), (58, 61));
    assert(GT::spow_steps(GT(gt_of(43, 8)), GT(gt_of(90, 47)), 2) == GT::spow_steps(GT(gt_of(43, 8)), GT(gt_of(33, 90)), 1));
    lemma_gt_mul_at((43, 8), (33, 90), (93, 81), (6, 33));
    lemma_gt_mul_at((33, 90), (33, 90), (59, 62), (-70, -22));
    assert(GT::spow_steps(GT(gt_of(43, 8)), GT(gt_of(33, 90)), 1) == GT::spow_steps(GT(gt_of(93, 81)), GT(gt_of(59, 62)), 0));
}

/// The pairing of `6G` with the point `23 P` of the image of `H`.
proof fn lemma_pairing_6_23()
    ensures
        smiller_loop(g1p(32, 42), dq(58, 65)) is Some,
        spairing_at(g1p(32, 42), dq(58, 65)) == GT(gt_of(93, 81)),
{
    lemma_final_exponent();
    lemma_tangent_6_23();
    lemma_tangent_12_23();
    lemma_tangent_7_23();
    lemma_tangent_14_23();
    lemma_vertical_at(32, 59, 42, 58, 65);
    lemma_miller_at(
        g1p(32, 42),
        dq(58, 65),
        (g1p(12, 69), g1p(91, 35), g1p(26, 56), g1p(32, 59)),
        (47, 61),
        (4, 84),
        (77, 7),
        (50, 18),
        (-32, 58),
        ((3, 94, -15, 19), (95, 4, -79, -72), (20, 37, 89, 7), (69, 3, 12, 27)),
        ((5, 1, 47, 4), (30, 21, 2, 1), (44, 52, -22, -2)),
    );
    lemma_final_exp_6_23();
}

proof fn lemma_final_exp_7_23()
    ensures
        GT(gt_of(81, 23)).spow(600) == GT(gt_of(42, 92)),
{
    assert(GT::sone() == GT(gt_of(1, 0)));
    lemma_gt_mul_at((81, 23), (81, 23), (73, 66), (59, 31));
    assert(GT::spow_steps(GT(gt_of(1, 0)), GT(gt_of(81, 23)), 600) == GT::spow_steps(GT(gt_of(1, 0)), GT(gt_of(73, 66)), 300));
    lemma_gt_mul_at((73, 66), (73, 66), (64, 28), (9, 52));
    assert(GT::spow_steps(GT(gt_of(1, 0)), GT(gt_of(73, 66)), 300) == GT::spow_steps(GT(gt_of(1, 0)), GT(gt_of(64, 28)), 150));
    lemma_gt_mul_at((64, 28), (64, 28), (80, 73), (32, 27));
    assert(GT::spow_steps(GT(gt_of(1, 0)), GT(gt_of(64, 28)), 150) == GT::spow_steps(GT(gt_of(1, 0)), GT(gt_of(80, 73)), 75));
    lemma_gt_mul_at((1, 0), (80, 73), (80, 73), (0, 0));
    lemma_gt_mul_at((80, 73), (80, 73), (61, 89), (10, 62));
    assert(GT::spow_steps(GT(gt_of(1, 0)), GT(gt_of(80, 73)), 75) == GT::spow_steps(GT(gt_of(80, 73)), GT(gt_of(61, 89)), 37));
    lemma_gt_mul_at((80, 73), (61, 89), (100, 26), (-17, 50));
    lemma_gt_mul_at((61, 89), (61, 89), (42, 8), (-42, 29));
    assert(GT::spow_steps(GT(gt_of(80, 73)), GT(gt_of(61, 89)), 37) == GT::spow_steps(GT(gt_of(100, 26)), GT(gt_of(42, 8)), 18));
    lemma_gt_mul_at((42, 8), (42, 8), (84, 2), (16, 6));
    assert(GT::spow_steps(GT(gt_of(100, 26)), GT(gt_of(42, 8)), 18) == GT::spow_steps(GT(gt_of(100, 26)), GT(gt_of(84, 2)), 9));
    lemma_gt_mul_at((100, 26), (84, 2), (66, 9), (82, 23));
    lemma_gt_mul_at((84, 2), (84, 2), (83, 29), (69, 3));
    assert(GT::spow_steps(GT(gt_of(100, 26)), GT(gt_of(84, 2)), 9) == GT::spow_steps(GT(gt_of(66, 9)), GT(gt_of(83, 29)), 4));
    lemma_gt_mul_at((83, 29), (83, 29), (89, 34), (59, 39));
    assert(GT::spow_steps(GT(gt_of(66, 9)), GT(gt_of(83, 29)), 4) == GT::spow_steps(GT(gt_of(66, 9)), GT(gt_of(89, 34)), 2));
    lemma_gt_mul_at((89, 34), (89, 34), (99, 48), (66, 48));
    assert(GT::spow_steps(GT(gt_of(66, 9)), GT(gt_of(89, 34)), 2) == GT::spow_steps(GT(gt_of(66, 9)), GT(gt_of(99, 48)), 1));
    lemma_gt_mul_at((66, 9), (99, 48), (42, 92), (60, 35));
    lemma_gt_mul_at((99, 48), (99, 48), (23, 29), (74, 71));
    assert(GT::spow_steps(GT(gt_of(66, 9)), GT(gt_of(99, 48)), 1) == GT::spow_steps(GT(gt_of(42, 92)), GT(gt_of(23, 29)), 0));
}

/// The pairing of `7G` with the point `23 P` of the image of `H`.
proof fn lemma_pairing_7_23()
    ensures
        smiller_loop(g1p(91, 35), dq(58, 65)) is Some,
        spairing_at(g1p(91, 35), dq(58, 65)) == GT(gt_of(42, 92)),
{
    lemma_final_exponent();
    lemma_tangent_7_23();
    lemma_tangent_14_23();
    lemma_tangent_11_23();
    lemma_tangent_5_23();
    lemma_vertical_at(91, 66, 35, 58, 65);
    lemma_miller_at(
        g1p(91, 35),
        dq(58, 65),
        (g1p(26, 56), g1p(32, 59), g1p(12, 32), g1p(91, 66)),
        (77, 7),
        (50, 18),
        (33, 63),
        (0, 5),
        (-91, 58),
        ((22, 19, 58, 10), (51, 95, 7, 9), (40, 59, -64, 6), (27, 43, -24, 7)),
        ((92, 69, -12, 4), (59, 14, -4, 1), (81, 23, -62, 13)),
    );
    lemma_final_exp_7_23();
}

proof fn lemma_final_exp_8_23()
    ensures
        GT(gt_of(49, 27)).spow(600) == GT(gt_of(71, 57)),
{
    assert(GT::sone() == GT(gt_of(1, 0)));
    lemma_gt_mul_at((49, 27), (49, 27), (56, 99), (16, 18));
    assert(GT::spow_steps(GT(gt_of(1, 0)), GT(gt_of(49, 27)), 600) == GT::spow_steps(GT(gt_of(1, 0)), GT(gt_of(56, 99)), 300));
    lemma_gt_mul_at((56, 99), (56, 99), (1, 75), (-66, 12));
    assert(GT::spow_steps(GT(gt_of(1, 0)), GT(gt_of(56, 99)), 300) == GT::spow_steps(GT(gt_of(1, 0)), GT(gt_of(1, 75)), 150));
    lemma_gt_mul_at((1, 75), (1, 75), (32, 80), (-56, -55));
    assert(GT::spow_steps(GT(gt_of(1, 0)), GT(gt_of(1, 75)), 150) == GT::spow_steps(GT(gt_of(1, 0)), GT(gt_of(32, 80)), 75));
    lemma_gt_mul_at((1, 0), (32, 80), (32, 80), (0, 0));
    lemma_gt_mul_at((32, 80), (32, 80), (78, 33), (-54, -13));
    assert(GT::spow_steps(GT(gt_of(1, 0)), GT(gt_of(32, 80)), 75) == GT::spow_steps(GT(gt_of(32, 80)), GT(gt_of(78, 33)), 37));
    lemma_gt_mul_at((32, 80), (78, 33), (58, 10), (-2, 46));
    lemma_gt_mul_at((78, 33), (78, 33), (46, 19), (49, 40));
    assert(GT::spow_steps(GT(gt_of(32, 80)), GT(gt_of(78, 33)), 37) == GT::spow_steps(GT(gt_of(58, 10)), GT(gt_of(46, 19)), 18));
    lemma_gt_mul_at((46, 19), (46, 19), (38, 74), (17, 13));
    assert(GT::spow_steps(GT(gt_of(58, 10)), GT(gt_of(46, 19)), 18) == GT::spow_steps(GT(gt_of(58, 10)), GT(gt_of(38, 74)), 9));
    lemma_gt_mul_at((58, 10), (38, 74), (50, 94), (14, 38));
    lemma_gt_mul_at((38, 74), (38, 74), (8, 47), (-40, 1));
    assert(GT::spow_steps(GT(gt_of(58, 10)), GT(gt_of(38, 74)), 9) == GT::spow_steps(GT(gt_of(50, 94)), GT(gt_of(8, 47)), 4));
    lemma_gt_mul_at((8, 47), (8, 47), (77, 58), (-22, -15));
    assert(GT::spow_steps(GT(gt_of(50, 94)), GT(gt_of(8, 47)), 4) == GT::spow_steps(GT(gt_of(50, 94)), GT(gt_of(77, 58)), 2));
    lemma_gt_mul_at((77, 58), (77, 58), (40, 13), (25, 55));
    assert(GT::spow_steps(GT(gt_of(50, 94)), GT(gt_of(77, 58)), 2) == GT::spow_steps(GT(gt_of(50, 94)), GT(gt_of(40, 13)), 1));
    lemma_gt_mul_at((50, 94), (40, 13), (71, 57), (7, 31));
    lemma_gt_mul_at((40, 13), (40, 13), (17, 63), (14, 8));
    assert(GT::spow_steps(GT(gt_of(50, 94)), GT(gt_of(40, 13)), 1) == GT::spow_steps(GT(gt_of(71, 57)), GT(gt_of(17, 63)), 0));
}

/// The pairing of `8G` with the point `23 P` of the image of `H`.
proof fn lemma_pairing_8_23()
    ensures
        smiller_loop(g1p(18, 49), dq(58, 65)) is Some,
        spairing_at(g1p(18, 49), dq(58, 65)) == GT(gt_of(71, 57)),
{
    lemma_final_exponent();
    lemma_tangent_8_23();
    lemma_tangent_16_23();
    lemma_tangent_15_23();
    lemma_tangent_13_23();
    lemma_vertical_at(18, 52, 49, 58, 65);
    lemma_miller_at(
        g1p(18, 49),
        dq(58, 65),
        (g1p(1, 99), g1p(68, 27), g1p(65, 3), g1p(18, 52)),
        (10, 20),
        (6, 95),
        (100, 88),
        (66, 8),
        (-18, 58),
        ((3, 0, -3, 0), (18, 83, 0, 2), (0, 38, -65, -39), (90, 52, -34, 4)),
        ((43, 91, 53, 65), (90, 67, 20, 55), (49, 27, -55, 1)),
    );
    lemma_final_exp_8_23();
}

proof fn lemma_final_exp_9_23()
    ensures
        GT(gt_of(58, 13)).spow(600) == GT(gt_of(14, 44)),
{
    assert(GT::sone() == GT(gt_of(1, 0)));
    lemma_gt_mul_at((58, 13), (58, 13), (64, 26), (31, 13));
    assert(GT::spow_steps(GT(gt_of(1, 0)), GT(gt_of(58, 13)), 600) == GT::spow_steps(GT(gt_of(1, 0)), GT(gt_of(64, 26)), 300));
    lemma_gt_mul_at((64, 26), (64, 26), (87, 26), (33, 26));
    assert(GT::spow_steps(GT(gt_of(1, 0)), GT(gt_of(64, 26)), 300) == GT::spow_steps(GT(gt_of(1, 0)), GT(gt_of(87, 26)), 150));
    lemma_gt_mul_at((87, 26), (87, 26), (25, 10), (68, 38));
    assert(GT::spow_steps(GT(gt_of(1, 0)), GT(gt_of(87, 26)), 150) == GT::spow_steps(GT(gt_of(1, 0)), GT(gt_of(25, 10)), 75));
    lemma_gt_mul_at((1, 0), (25, 10), (25, 10), (0, 0));
    lemma_gt_mul_at((25, 10), (25, 10), (20, 97), (5, 3));
    assert(GT::spow_steps(GT(gt_of(1, 0)), GT(gt_of(25, 10)), 75) == GT::spow_steps(GT(gt_of(25, 10)), GT(gt_of(20, 97)), 37));
    lemma_gt_mul_at((25, 10), (20, 97), (35, 39), (-5, 16));
    lemma_gt_mul_at((20, 97), (20, 97), (81, 26), (-90, -55));
    assert(GT::spow_steps(GT(gt_of(25, 10)), GT(gt_of(20, 97)), 37) == GT::spow_steps(GT(gt_of(35, 39)), GT(gt_of(81, 26)), 18));
    lemma_gt_mul_at((81, 26), (81, 26), (27, 1), (58, 35));
    assert(GT::spow_steps(GT(gt_of(35, 39)), GT(gt_of(81, 26)), 18) == GT::spow_steps(GT(gt_of(35, 39)), GT(gt_of(27, 1)), 9));
    lemma_gt_mul_at((35, 39), (27, 1), (98, 39), (8, 10));
    lemma_gt_mul_at((27, 1), (27, 1), (21, 53), (7, 0));
    assert(GT::spow_steps(GT(gt_of(35, 39)), GT(gt_of(27, 1)), 9) == GT::spow_steps(GT(gt_of(98, 39)), GT(gt_of(21, 53)), 4));
    lemma_gt_mul_at((21, 53), (21, 53), (56, 23), (-24, -6));
    assert(GT::spow_steps(GT(gt_of(98, 39)), GT(gt_of(21, 53)), 4) == GT::spow_steps(GT(gt_of(98, 39)), GT(gt_of(56, 23)), 2));
    lemma_gt_mul_at((56, 23), (56, 23), (82, 27), (25, 20));
    assert(GT::spow_steps(GT(gt_of(98, 39)), GT(gt_of(56, 23)), 2) == GT::spow_steps(GT(gt_of(98, 39)), GT(gt_of(82, 27)), 1));
    lemma_gt_mul_at((98, 39), (82, 27), (14, 44), (69, 47));
    lemma_gt_mul_at((82, 27), (82, 27), (36, 63), (59, 36));
    assert(GT::spow_steps(GT(gt_of(98, 39)), GT(gt_of(82, 27)), 1) == GT::spow_steps(GT(gt_of(14, 44)), GT(gt_of(36, 63)), 0));
}

/// The pairing of `9G` with the point `23 P` of the image of `H`.
proof fn lemma_pairing_9_23()
    ensures
        smiller_loop(g1p(18, 52), dq(58, 65)) is Some,
        spairing_at(g1p(18, 52), dq(58, 65)) == GT(gt_of(14, 44)),
{
    lemma_final_exponent();
    lemma_tangent_9_23();
    lemma_tangent_1_23();
    lemma_tangent_2_23();
    lemma_tangent_4_23();
    lemma_vertical_at(18, 49, 52, 58, 65);
    lemma_miller_at(
        g1p(18, 52),
        dq(58, 65),
        (g1p(1, 2), g1p(68, 74), g1p(65, 98), g1p(18, 49)),
        (17, 87),
        (36, 59),
        (39, 3),
        (54, 57),
        (-18, 58),
        ((93, 35, -73, -46), (71, 36, 12, 46), (8, 79, 37, 37), (75, 40, 0, 28)),
        ((86, 57, 39, 43), (82, 85, 13, 46), (58, 13, -64, -17)),
    );
    lemma_final_exp_9_23();
}

proof fn lemma_final_exp_10_23()
    ensures
        GT(gt_of(84, 19)).spow(600) == GT(gt_of(51, 9)),
{
    assert(GT::sone() == GT(gt_of(1, 0)));
    lemma_gt_mul_at((84, 19), (84, 19), (29, 3), (66, 28));
    assert(GT::spow_steps(GT(gt_of(1, 0)), GT(gt_of(84, 19)), 600) == GT::spow_steps(GT(gt_of(1, 0)), GT(gt_of(29, 3)), 300));
    lemma_gt_mul_at((29, 3), (29, 3), (24, 64), (8, 1));
    assert(GT::spow_steps(GT(gt_of(1, 0)), GT(gt_of(29, 3)), 300) == GT::spow_steps(GT(gt_of(1, 0)), GT(gt_of(24, 64)), 150));
    lemma_gt_mul_at((24, 64), (24, 64), (15, 87), (-35, -11));
    assert(GT::spow_steps(GT(gt_of(1, 0)), GT(gt_of(24, 64)), 150) == GT::spow_steps(GT(gt_of(1, 0)), GT(gt_of(15, 87)), 75));
    lemma_gt_mul_at((1, 0), (15, 87), (15, 87), (0, 0));
    lemma_gt_mul_at((15, 87), (15, 87), (29, 91), (-73, -50));
    assert(GT::spow_steps(GT(gt_of(1, 0)), GT(gt_of(15, 87)), 75) == GT::spow_steps(GT(gt_of(15, 87)), GT(gt_of(29, 91)), 37));
    lemma_gt_mul_at((15, 87), (29, 91), (93, 11), (-75, -40));
    lemma_gt_mul_at((29, 91), (29, 91), (34, 27), (-74, -30));
    assert(GT::spow_steps(GT(gt_of(15, 87)), GT(gt_of(29, 91)), 37) == GT::spow_steps(GT(gt_of(93, 11)), GT(gt_of(34, 27)), 18));
    lemma_gt_mul_at((34, 27), (34, 27), (23, 97), (4, 10));
    assert(GT::spow_steps(GT(gt_of(93, 11)), GT(gt_of(34, 27)), 18) == GT::spow_steps(GT(gt_of(93, 11)), GT(gt_of(23, 97)), 9));
    lemma_gt_mul_at((93, 11), (23, 97), (62, 26), (10, 81));
    lemma_gt_mul_at((23, 97), (23, 97), (8, 2), (-88, -49));
    assert(GT::spow_steps(GT(gt_of(93, 11)), GT(gt_of(23, 97)), 9) == GT::spow_steps(GT(gt_of(62, 26)), GT(gt_of(8, 2)), 4));
    lemma_gt_mul_at((8, 2), (8, 2), (60, 28), (0, 0));
    assert(GT::spow_steps(GT(gt_of(62, 26)), GT(gt_of(8, 2)), 4) == GT::spow_steps(GT(gt_of(62, 26)), GT(gt_of(60, 28)), 2));
    lemma_gt_mul_at((60, 28), (60, 28), (89, 51), (27, 25));
    assert(GT::spow_steps(GT(gt_of(62, 26)), GT(gt_of(60, 28)), 2) == GT::spow_steps(GT(gt_of(62, 26)), GT(gt_of(89, 51)), 1));
    lemma_gt_mul_at((62, 26), (89, 51), (51, 9), (41, 41));
    lemma_gt_mul_at((89, 51), (89, 51), (68, 13), (52, 64));
    assert(GT::spow_steps(GT(gt_of(62, 26)), GT(gt_of(89, 51)), 1) == GT::spow_steps(GT(gt_of(51, 9)), GT(gt_of(68, 13)), 0));
}

/// The pairing of `10G` with the point `23 P` of the image of `H`.
proof fn lemma_pairing_10_23()
    ensures
        smiller_loop(g1p(91, 66), dq(58, 65)) is Some,
        spairing_at(g1p(91, 66), dq(58, 65)) == GT(gt_of(51, 9)),
{
    lemma_final_exponent();
    lemma_tangent_10_23();
    lemma_tangent_3_23();
    lemma_tangent_6_23();
    lemma_tangent_12_23();
    lemma_vertical_at(91, 35, 66, 58, 65);
    lemma_miller_at(
        g1p(91, 66),
        dq(58, 65),
        (g1p(26, 45), g1p(32, 42), g1p(12, 69), g1p(91, 35)),
        (69, 89),
        (95, 53),
        (47, 61),
        (4, 84),
        (-91, 58),
        ((72, 18, -32, 43), (28, 27, 58, 45), (55, 76, 0, 7), (70, 69, -21, 22)),
        ((38, 51, 1, 48), (9, 21, -41, -9), (84, 19, -21, -26)),
    );
    lemma_final_exp_10_23();
}

proof fn lemma_final_exp_11_23()
    ensures
        GT(gt_of(12, 81)).spow(600) == GT(gt_of(12, 20)),
{
    assert(GT::sone() == GT(gt_of(1, 0)));
    lemma_gt_mul_at((12, 81), (12, 81), (47, 29), (-64, -46));
    assert(GT::spow_steps(GT(gt_of(1, 0)), GT(gt_of(12, 81)), 600) == GT::spow_steps(GT(gt_of(1, 0)), GT(gt_of(47, 29)), 300));
    lemma_gt_mul_at((47, 29), (47, 29), (55, 67), (13, 18));
    assert(GT::spow_steps(GT(gt_of(1, 0)), GT(gt_of(47, 29)), 300) == GT::spow_steps(GT(gt_of(1, 0)), GT(gt_of(55, 67)), 150));
    lemma_gt_mul_at((55, 67), (55, 67), (51, 53), (-15, 28));
    assert(GT::spow_steps(GT(gt_of(1, 0)), GT(gt_of(55, 67)), 150) == GT::spow_steps(GT(gt_of(1, 0)), GT(gt_of(51, 53)), 75));
    lemma_gt_mul_at((1, 0), (51, 53), (51, 53), (0, 0));
    lemma_gt_mul_at((51, 53), (51, 53), (95, 72), (-3, 25));
    assert(GT::spow_steps(GT(gt_of(1, 0)), GT(gt_of(51, 53)), 75) == GT::spow_steps(GT(gt_of(51, 53)), GT(gt_of(95, 72)), 37));
    lemma_gt_mul_at((51, 53), (95, 72), (19, 43), (10, 48));
    lemma_gt_mul_at((95, 72), (95, 72), (3, 12), (38, 84));
    assert(GT::spow_steps(GT(gt_of(51, 53)), GT(gt_of(95, 72)), 37) == GT::spow_steps(GT(gt_of(19, 43)), GT(gt_of(3, 12)), 18));
    lemma_gt_mul_at((3, 12), (3, 12), (67, 29), (-2, -1));
    assert(GT::spow_steps(GT(gt_of(19, 43)), GT(gt_of(3, 12)), 18) == GT::spow_steps(GT(gt_of(19, 43)), GT(gt_of(67, 29)), 9));
    lemma_gt_mul_at((19, 43), (67, 29), (26, 64), (0, 21));
    lemma_gt_mul_at((67, 29), (67, 29), (12, 15), (36, 30));
    assert(GT::spow_steps(GT(gt_of(19, 43)), GT(gt_of(67, 29)), 9) == GT::spow_steps(GT(gt_of(26, 64)), GT(gt_of(12, 15)), 4));
    lemma_gt_mul_at((12, 15), (12, 15), (20, 34), (-1, 1));
    assert(GT::spow_steps(GT(gt_of(26, 64)), GT(gt_of(12, 15)), 4) == GT::spow_steps(GT(gt_of(26, 64)), GT(gt_of(20, 34)), 2));
    lemma_gt_mul_at((20, 34), (20, 34), (52, 2), (-8, 2));
    assert(GT::spow_steps(GT(gt_of(26, 64)), GT(gt_of(20, 34)), 2) == GT::spow_steps(GT(gt_of(26, 64)), GT(gt_of(52, 2)), 1));
    lemma_gt_mul_at((26, 64), (52, 2), (12, 20), (12, 32));
    lemma_gt_mul_at((52, 2), (52, 2), (74, 2), (26, 2));
    assert(GT::spow_steps(GT(gt_of(26, 64)), GT(gt_of(52, 2)), 1) == GT::spow_steps(GT(gt_of(12, 20)), GT(gt_of(74, 2)), 0));
}

/// The pairing of `11G` with the point `23 P` of the image of `H`.
proof fn lemma_pairing_11_23()
    ensures
        smiller_loop(g1p(32, 59), dq(58, 65)) is Some,
        spairing_at(g1p(32, 59), dq(58, 65)) == GT(gt_of(12, 20)),
{
    lemma_final_exponent();
    lemma_tangent_11_23();
    lemma_tangent_5_23();
    lemma_tangent_10_23();
    lemma_tangent_3_23();
    lemma_vertical_at(32, 42, 59, 58, 65);
    lemma_miller_at(
        g1p(32, 59),
        dq(58, 65),
        (g1p(12, 32), g1p(91, 66), g1p(26, 45), g1p(32, 42)),
        (33, 63),
        (0, 5),
        (69, 89),
        (95, 53),
        (-32, 58),
        ((49, 88, -29, 1), (65, 7, -5, -2), (35, 53, 41, 8), (21, 35, -23, 20)),
        ((24, 43, -8, 2), (1, 48, 0, 30), (12, 81, -28, -43)),
    );
    lemma_final_exp_11_23();
}

proof fn lemma_final_exp_12_23()
    ensures
        GT(gt_of(90, 17)).spow(600) == GT(gt_of(68, 21)),
{
    assert(GT::sone() == GT(gt_of(1, 0)));
    lemma_gt_mul_at((90, 17), (90, 17), (34, 44), (77, 27));
    assert(GT::spow_steps(GT(gt_of(1, 0)), GT(gt_of(90, 17)), 600) == GT::spow_steps(GT(gt_of(1, 0)), GT(gt_of(34, 44)), 300));
    lemma_gt_mul_at((34, 44), (34, 44), (28, 46), (-8, 10));
    assert(GT::spow_steps(GT(gt_of(1, 0)), GT(gt_of(34, 44)), 300) == GT::spow_steps(GT(gt_of(1, 0)), GT(gt_of(28, 46)), 150));
    lemma_gt_mul_at((28, 46), (28, 46), (82, 56), (-14, 4));
    assert(GT::spow_steps(GT(gt_of(1, 0)), GT(gt_of(28, 46)), 150) == GT::spow_steps(GT(gt_of(1, 0)), GT(gt_of(82, 56)), 75));
    lemma_gt_mul_at((1, 0), (82, 56), (82, 56), (0, 0));
    lemma_gt_mul_at((82, 56), (82, 56), (53, 89), (35, 59));
    assert(GT::spow_steps(GT(gt_of(1, 0)), GT(gt_of(82, 56)), 75) == GT::spow_steps(GT(gt_of(82, 56)), GT(gt_of(53, 89)), 37));
    lemma_gt_mul_at((82, 56), (53, 89), (69, 30), (-7, 52));
    lemma_gt_mul_at((53, 89), (53, 89), (39, 99), (-51, 14));
    assert(GT::spow_steps(GT(gt_of(82, 56)), GT(gt_of(53, 89)), 37) == GT::spow_steps(GT(gt_of(69, 30)), GT(gt_of(39, 99)), 18));
    lemma_gt_mul_at((39, 99), (39, 99), (2, 42), (-82, -21));
    assert(GT::spow_steps(GT(gt_of(69, 30)), GT(gt_of(39, 99)), 18) == GT::spow_steps(GT(gt_of(69, 30)), GT(gt_of(2, 42)), 9));
    lemma_gt_mul_at((69, 30), (2, 42), (90, 82), (-12, 16));
    lemma_gt_mul_at((2, 42), (2, 42), (58, 20), (-18, -16));
    assert(GT::spow_steps(GT(gt_of(69, 30)), GT(gt_of(2, 42)), 9) == GT::spow_steps(GT(gt_of(90, 82)), GT(gt_of(58, 20)), 4));
    lemma_gt_mul_at((58, 20), (58, 20), (35, 1), (29, 19));
    assert(GT::spow_steps(GT(gt_of(90, 82)), GT(gt_of(58, 20)), 4) == GT::spow_steps(GT(gt_of(90, 82)), GT(gt_of(35, 1)), 2));
    lemma_gt_mul_at((35, 1), (35, 1), (12, 69), (12, 0));
    assert(GT::spow_steps(GT(gt_of(90, 82)), GT(gt_of(35, 1)), 2) == GT::spow_steps(GT(gt_of(90, 82)), GT(gt_of(12, 69)), 1));
    lemma_gt_mul_at((90, 82), (12, 69), (68, 21), (-46, 15));
    lemma_gt_mul_at((12, 69), (12, 69), (29, 26), (-46, -31));
    assert(GT::spow_steps(GT(gt_of(90, 82)), GT(gt_of(12, 69)), 1) == GT::spow_steps(GT(gt_of(68, 21)), GT(gt_of(29, 26)), 0));
}

/// The pairing of `12G` with the point `23 P` of the image of `H`.
proof fn lemma_pairing_12_23()
    ensures
        smiller_loop(g1p(12, 69), dq(58, 65)) is Some,
        spairing_at(g1p(12, 69), dq(58, 65)) == GT(gt_of(68, 21)),
{
    lemma_final_exponent();
    lemma_tangent_12_23();
    lemma_tangent_7_23();
    lemma_tangent_14_23();
    lemma_tangent_11_23();
    lemma_vertical_at(12, 32, 69, 58, 65);
    lemma_miller_at(
        g1p(12, 69),
        dq(58, 65),
        (g1p(91, 35), g1p(26, 56), g1p(32, 59), g1p(12, 32)),
        (4, 84),
        (77, 7),
        (50, 18),
        (33, 63),
        (-12, 58),
        ((30, 80, -70, -64), (33, 53, 17, 57), (98, 83, -18, 6), (73, 77, 33, 43)),
        ((6, 61, -6, 52), (92, 63, -37, -15), (90, 17, -48, 9)),
    );
    lemma_final_exp_12_23();
}

proof fn lemma_final_exp_13_23()
    ensures
        GT(gt_of(16, 40)).spow(600) == GT(gt_of(90, 62)),
{
    assert(GT::sone() == GT(gt_of(1, 0)));
    lemma_gt_mul_at((16, 40), (16, 40), (70, 84), (-14, -4));
    assert(GT::spow_steps(GT(gt_of(1, 0)), GT(gt_of(16, 40)), 600) == GT::spow_steps(GT(gt_of(1, 0)), GT(gt_of(70, 84)), 300));
    lemma_gt_mul_at((70, 84), (70, 84), (66, 58), (-22, 46));
    assert(GT::spow_steps(GT(gt_of(1, 0)), GT(gt_of(70, 84)), 300) == GT::spow_steps(GT(gt_of(1, 0)), GT(gt_of(66, 58)), 150));
    lemma_gt_mul_at((66, 58), (66, 58), (83, 50), (9, 42));
    assert(GT::spow_steps(GT(gt_of(1, 0)), GT(gt_of(66, 58)), 150) == GT::spow_steps(GT(gt_of(1, 0)), GT(gt_of(83, 50)), 75));
    lemma_gt_mul_at((1, 0), (83, 50), (83, 50), (0, 0));
    lemma_gt_mul_at((83, 50), (83, 50), (46, 43), (43, 57));
    assert(GT::spow_steps(GT(gt_of(1, 0)), GT(gt_of(83, 50)), 75) == GT::spow_steps(GT(gt_of(83, 50)), GT(gt_of(46, 43)), 37));
    lemma_gt_mul_at((83, 50), (46, 43), (52, 83), (16, 36));
    lemma_gt_mul_at((46, 43), (46, 43), (65, 87), (2, 20));
    assert(GT::spow_steps(GT(gt_of(83, 50)), GT(gt_of(46, 43)), 37) == GT::spow_steps(GT(gt_of(52, 83)), GT(gt_of(65, 87)), 18));
    lemma_gt_mul_at((65, 87), (65, 87), (90, 4), (-34, 37));
    assert(GT::spow_steps(GT(gt_of(52, 83)), GT(gt_of(65, 87)), 18) == GT::spow_steps(GT(gt_of(52, 83)), GT(gt_of(90, 4)), 9));
    lemma_gt_mul_at((52, 83), (90, 4), (5, 74), (43, 72));
    lemma_gt_mul_at((90, 4), (90, 4), (4, 98), (80, 6));
    assert(GT::spow_steps(GT(gt_of(52, 83)), GT(gt_of(90, 4)), 9) == GT::spow_steps(GT(gt_of(5, 74)), GT(gt_of(4, 98)), 4));
    lemma_gt_mul_at((4, 98), (4, 98), (7, 68), (-95, -88));
    assert(GT::spow_steps(GT(gt_of(5, 74)), GT(gt_of(4, 98)), 4) == GT::spow_steps(GT(gt_of(5, 74)), GT(gt_of(7, 68)), 2));
    lemma_gt_mul_at((7, 68), (7, 68), (71, 65), (-46, -37));
    assert(GT::spow_steps(GT(gt_of(5, 74)), GT(gt_of(7, 68)), 2) == GT::spow_steps(GT(gt_of(5, 74)), GT(gt_of(71, 65)), 1));
    lemma_gt_mul_at((5, 74), (71, 65), (90, 62), (-45, 7));
    lemma_gt_mul_at((71, 65), (71, 65), (8, 56), (8, 49));
    assert(GT::spow_steps(GT(gt_of(5, 74)), GT(gt_of(71, 65)), 1) == GT::spow_steps(GT(gt_of(90, 62)), GT(gt_of(8, 56)), 0));
}

/// The pairing of `13G` with the point `23 P` of the image of `H`.
proof fn lemma_pairing_13_23()
    ensures
        smiller_loop(g1p(65, 3), dq(58, 65)) is Some,
        spairing_at(g1p(65, 3), dq(58, 65)) == GT(gt_of(90, 62)),
{
    lemma_final_exponent();
    lemma_tangent_13_23();
    lemma_tangent_9_23();
    lemma_tangent_1_23();
    lemma_tangent_2_23();
    lemma_vertical_at(65, 98, 3, 58, 65);
    lemma_miller_at(
        g1p(65, 3),
        dq(58, 65),
        (g1p(18, 52), g1p(1, 2), g1p(68, 74), g1p(65, 98)),
        (66, 8),
        (17, 87),
        (36, 59),
        (39, 3),
        (-65, 58),
        ((50, 83, 42, 9), (93, 55, -64, -15), (69, 34, 55, 71), (74, 57, 4, 32)),
        ((5, 36, 22, 51), (87, 99, 0, 12), (16, 40, -113, -71)),
    );
    lemma_final_exp_13_23();
}

proof fn lemma_final_exp_14_23()
    ensures
        GT(gt_of(80, 38)).spow(600) == GT(gt_of(67, 72)),
{
    assert(GT::sone() == GT(gt_of(1, 0)));
    lemma_gt_mul_at((80, 38), (80, 38), (7, 91), (49, 45));
    assert(GT::spow_steps(GT(gt_of(1, 0)), GT(gt_of(80, 38)), 600) == GT::spow_steps(GT(gt_of(1, 0)), GT(gt_of(7, 91)), 300));
    lemma_gt_mul_at((7, 91), (7, 91), (50, 63), (-82, -70));
    assert(GT::spow_steps(GT(gt_of(1, 0)), GT(gt_of(7, 91)), 300) == GT::spow_steps(GT(gt_of(1, 0)), GT(gt_of(50, 63)), 150));
    lemma_gt_mul_at((50, 63), (50, 63), (46, 8), (-15, 23));
    assert(GT::spow_steps(GT(gt_of(1, 0)), GT(gt_of(50, 63)), 150) == GT::spow_steps(GT(gt_of(1, 0)), GT(gt_of(46, 8)), 75));
    lemma_gt_mul_at((1, 0), (46, 8), (46, 8), (0, 0));
    lemma_gt_mul_at((46, 8), (46, 8), (32, 66), (20, 6));
    assert(GT::spow_steps(GT(gt_of(1, 0)), GT(gt_of(46, 8)), 75) == GT::spow_steps(GT(gt_of(46, 8)), GT(gt_of(32, 66)), 37));
    lemma_gt_mul_at((46, 8), (32, 66), (35, 37), (9, 27));
    lemma_gt_mul_at((32, 66), (32, 66), (1, 70), (-33, -2));
    assert(GT::spow_steps(GT(gt_of(46, 8)), GT(gt_of(32, 66)), 37) == GT::spow_steps(GT(gt_of(35, 37)), GT(gt_of(1, 70)), 18));
    lemma_gt_mul_at((1, 70), (1, 70), (50, 88), (-49, -48));
    assert(GT::spow_steps(GT(gt_of(35, 37)), GT(gt_of(1, 70)), 18) == GT::spow_steps(GT(gt_of(35, 37)), GT(gt_of(50, 88)), 9));
    lemma_gt_mul_at((35, 37), (50, 88), (9, 58), (-15, 16));
    lemma_gt_mul_at((50, 88), (50, 88), (8, 46), (-52, 10));
    assert(GT::spow_steps(GT(gt_of(35, 37)), GT(gt_of(50, 88)), 9) == GT::spow_steps(GT(gt_of(9, 58)), GT(gt_of(8, 46)), 4));
    lemma_gt_mul_at((8, 46), (8, 46), (69, 34), (-21, -14));
    assert(GT::spow_steps(GT(gt_of(9, 58)), GT(gt_of(8, 46)), 4) == GT::spow_steps(GT(gt_of(9, 58)), GT(gt_of(69, 34)), 2));
    lemma_gt_mul_at((69, 34), (69, 34), (70, 1), (35, 35));
    assert(GT::spow_steps(GT(gt_of(9, 58)), GT(gt_of(69, 34)), 2) == GT::spow_steps(GT(gt_of(9, 58)), GT(gt_of(70, 1)), 1));
    lemma_gt_mul_at((9, 58), (70, 1), (67, 72), (5, 39));
    lemma_gt_mul_at((70, 1), (70, 1), (51, 38), (48, 1));
    assert(GT::spow_steps(GT(gt_of(9, 58)), GT(gt_of(70, 1)), 1) == GT::spow_steps(GT(gt_of(67, 72)), GT(gt_of(51, 38)), 0));
}

/// The pairing of `14G` with the point `23 P` of the image of `H`.
proof fn lemma_pairing_14_23()
    ensures
        smiller_loop(g1p(26, 56), dq(58, 65)) is Some,
        spairing_at(g1p(26, 56), dq(58, 65)) == GT(gt_of(67, 72)),
{
    lemma_final_exponent();
    lemma_tangent_14_23();
    lemma_tangent_11_23();
    lemma_tangent_5_23();
    lemma_tangent_10_23();
    lemma_vertical_at(26, 45, 56, 58, 65);
    lemma_miller_at(
        g1p(26, 56),
        dq(58, 65),
        (g1p(32, 59), g1p(12, 32), g1p(91, 66), g1p(26, 45)),
        (50, 18),
        (33, 63),
        (0, 5),
        (69, 89),
        (-26, 58),
        ((55, 62, 21, 14), (30, 90, -21, 15), (72, 27, -72, -27), (67, 23, -2, 2)),
        ((21, 28, 39, 25), (68, 97, -11, 12), (80, 38, -74, -42)),
    );
    lemma_final_exp_14_23();
}

proof fn lemma_final_exp_15_23()
    ensures
        GT(gt_of(79, 18)).spow(600) == GT(gt_of(61, 46)),
{
    assert(GT::sone() == GT(gt_of(1, 0)));
    lemma_gt_mul_at((79, 18), (79, 18), (59, 96), (58, 24));
    assert(GT::spow_steps(GT(gt_of(1, 0)), GT(gt_of(79, 18)), 600) == GT::spow_steps(GT(gt_of(1, 0)), GT(gt_of(59, 96)), 300));
    lemma_gt_mul_at((59, 96), (59, 96), (22, 92), (-57, 20));
    assert(GT::spow_steps(GT(gt_of(1, 0)), GT(gt_of(59, 96)), 300) == GT::spow_steps(GT(gt_of(1, 0)), GT(gt_of(22, 92)), 150));
    lemma_gt_mul_at((22, 92), (22, 92), (100, 28), (-80, -44));
    assert(GT::spow_steps(GT(gt_of(1, 0)), GT(gt_of(22, 92)), 150) == GT::spow_steps(GT(gt_of(1, 0)), GT(gt_of(100, 28)), 75));
    lemma_gt_mul_at((1, 0), (100, 28), (100, 28), (0, 0));
    lemma_gt_mul_at((100, 28), (100, 28), (25, 69), (91, 47));
    assert(GT::spow_steps(GT(gt_of(1, 0)), GT(gt_of(100, 28)), 75) == GT::spow_steps(GT(gt_of(100, 28)), GT(gt_of(25, 69)), 37));
    lemma_gt_mul_at((100, 28), (25, 69), (63, 12), (5, 56));
    lemma_gt_mul_at((25, 69), (25, 69), (5, 2), (-41, -13));
    assert(GT::spow_steps(GT(gt_of(100, 28)), GT(gt_of(25, 69)), 37) == GT::spow_steps(GT(gt_of(63, 12)), GT(gt_of(5, 2)), 18));
    lemma_gt_mul_at((5, 2), (5, 2), (21, 16), (0, 0));
    assert(GT::spow_steps(GT(gt_of(63, 12)), GT(gt_of(5, 2)), 18) == GT::spow_steps(GT(gt_of(63, 12)), GT(gt_of(21, 16)), 9));
    lemma_gt_mul_at((63, 12), (21, 16), (20, 58), (11, 10));
    lemma_gt_mul_at((21, 16), (21, 16), (84, 12), (1, 4));
    assert(GT::spow_steps(GT(gt_of(63, 12)), GT(gt_of(21, 16)), 9) == GT::spow_steps(GT(gt_of(20, 58)), GT(gt_of(84, 12)), 4));
    lemma_gt_mul_at((84, 12), (84, 12), (44, 54), (68, 18));
    assert(GT::spow_steps(GT(gt_of(20, 58)), GT(gt_of(84, 12)), 4) == GT::spow_steps(GT(gt_of(20, 58)), GT(gt_of(44, 54)), 2));
    lemma_gt_mul_at((44, 54), (44, 54), (30, 18), (-10, 18));
    assert(GT::spow_steps(GT(gt_of(20, 58)), GT(gt_of(44, 54)), 2) == GT::spow_steps(GT(gt_of(20, 58)), GT(gt_of(30, 18)), 1));
    lemma_gt_mul_at((20, 58), (30, 18), (61, 46), (-5, 10));
    lemma_gt_mul_at((30, 18), (30, 18), (71, 49), (5, 7));
    assert(GT::spow_steps(GT(gt_of(20, 58)), GT(gt_of(30, 18)), 1) == GT::spow_steps(GT(gt_of(61, 46)), GT(gt_of(71, 49)), 0));
}

/// The pairing of `15G` with the point `23 P` of the image of `H`.
proof fn lemma_pairing_15_23()
    ensures
        smiller_loop(g1p(68, 27), dq(58, 65)) is Some,
        spairing_at(g1p(68, 27), dq(58, 65)) == GT(gt_of(61, 46)),
{
    lemma_final_exponent();
    lemma_tangent_15_23();
    lemma_tangent_13_23();
    lemma_tangent_9_23();
    lemma_tangent_1_23();
    lemma_vertical_at(68, 74, 27, 58, 65);
    lemma_miller_at(
        g1p(68, 27),
        dq(58, 65),
        (g1p(65, 3), g1p(18, 52), g1p(1, 2), g1p(68, 74)),
        (100, 88),
        (66, 8),
        (17, 87),
        (36, 59),
        (-68, 58),
        ((34, 59, 22, 97), (55, 58, 17, 36), (65, 87, -4, 29), (0, 70, -64, -5)),
        ((49, 49, -49, -49), (85, 47, -12, 17), (79, 18, -85, -10)),
    );
    lemma_final_exp_15_23();
}

proof fn lemma_final_exp_16_23()
    ensures
        GT(gt_of(51, 6)).spow(600) == GT(gt_of(75, 98)),
{
    assert(GT::sone() == GT(gt_of(1, 0)));
    lemma_gt_mul_at((51, 6), (51, 6), (40, 71), (25, 5));
    assert(GT::spow_steps(GT(gt_of(1, 0)), GT(gt_of(51, 6)), 600) == GT::spow_steps(GT(gt_of(1, 0)), GT(gt_of(40, 71)), 300));
    lemma_gt_mul_at((40, 71), (40, 71), (94, 33), (-35, 6));
    assert(GT::spow_steps(GT(gt_of(1, 0)), GT(gt_of(40, 71)), 300) == GT::spow_steps(GT(gt_of(1, 0)), GT(gt_of(94, 33)), 150));
    lemma_gt_mul_at((94, 33), (94, 33), (71, 65), (76, 50));
    assert(GT::spow_steps(GT(gt_of(1, 0)), GT(gt_of(94, 33)), 150) == GT::spow_steps(GT(gt_of(1, 0)), GT(gt_of(71, 65)), 75));
    lemma_gt_mul_at((1, 0), (71, 65), (71, 65), (0, 0));
    lemma_gt_mul_at((71, 65), (71, 65), (8, 56), (8, 49));
    assert(GT::spow_steps(GT(gt_of(1, 0)), GT(gt_of(71, 65)), 75) == GT::spow_steps(GT(gt_of(71, 65)), GT(gt_of(8, 56)), 37));
    lemma_gt_mul_at((71, 65), (8, 56), (59, 48), (-31, 8));
    lemma_gt_mul_at((8, 56), (8, 56), (59, 83), (-31, -23));
    assert(GT::spow_steps(GT(gt_of(71, 65)), GT(gt_of(8, 56)), 37) == GT::spow_steps(GT(gt_of(59, 48)), GT(gt_of(59, 83)), 18));
    lemma_gt_mul_at((59, 83), (59, 83), (26, 77), (-34, 28));
    assert(GT::spow_steps(GT(gt_of(59, 48)), GT(gt_of(59, 83)), 18) == GT::spow_steps(GT(gt_of(59, 48)), GT(gt_of(26, 77)), 9));
    lemma_gt_mul_at((59, 48), (26, 77), (60, 75), (-22, 20));
    lemma_gt_mul_at((26, 77), (26, 77), (100, 95), (-53, -20));
    assert(GT::spow_steps(GT(gt_of(59, 48)), GT(gt_of(26, 77)), 9) == GT::spow_steps(GT(gt_of(60, 75)), GT(gt_of(100, 95)), 4));
    lemma_gt_mul_at((100, 95), (100, 95), (66, 77), (9, 98));
    assert(GT::spow_steps(GT(gt_of(60, 75)), GT(gt_of(100, 95)), 4) == GT::spow_steps(GT(gt_of(60, 75)), GT(gt_of(66, 77)), 2));
    lemma_gt_mul_at((66, 77), (66, 77), (43, 94), (-16, 41));
    assert(GT::spow_steps(GT(gt_of(60, 75)), GT(gt_of(66, 77)), 2) == GT::spow_steps(GT(gt_of(60, 75)), GT(gt_of(43, 94)), 1));
    lemma_gt_mul_at((60, 75), (43, 94), (75, 98), (-45, 17));
    lemma_gt_mul_at((43, 94), (43, 94), (83, 56), (-70, -8));
    assert(GT::spow_steps(GT(gt_of(60, 75)), GT(gt_of(43, 94)), 1) == GT::spow_steps(GT(gt_of(75, 98)), GT(gt_of(83, 56)), 0));
}

/// The pairing of `16G` with the point `23 P` of the image of `H`.
proof fn lemma_pairing_16_23()
    ensures
        smiller_loop(g1p(1, 99), dq(58, 65)) is Some,
        spairing_at(g1p(1, 99), dq(58, 65)) == GT(gt_of(75, 98)),
{
    lemma_final_exponent();
    lemma_tangent_16_23();
    lemma_tangent_15_23();
    lemma_tangent_13_23();
    lemma_tangent_9_23();
    lemma_vertical_at(1, 2, 99, 58, 65);
    lemma_miller_at(
        g1p(1, 99),
        dq(58, 65),
        (g1p(68, 27), g1p(65, 3), g1p(18, 52), g1p(1, 2)),
        (6, 95),
        (100, 88),
        (66, 8),
        (17, 87),
        (-1, 58),
        ((0, 94, -89, -79), (10, 17, -82, 11), (13, 51, -2, 0), (46, 32, 4, 30)),
        ((82, 1, 10, 19), (95, 95, 12, 69), (51, 6, -56, -1)),
    );
    lemma_final_exp_16_23();
}

proof fn lemma_final_exp_1_24()
    ensures
        GT(gt_of(47, 51)).spow(600) == GT(gt_of(28, 39)),
{
    assert(GT::sone() == GT(gt_of(1, 0)));
    lemma_gt_mul_at((47, 51), (47, 51), (12, 72), (-4, 21));
    assert(GT::spow_steps(GT(gt_of(1, 0)), GT(gt_of(47, 51)), 600) == GT::spow_steps(GT(gt_of(1, 0)), GT(gt_of(12, 72)), 300));
    lemma_gt_mul_at((12, 72), (12, 72), (10, 79), (-50, -35));
    assert(GT::spow_steps(GT(gt_of(1, 0)), GT(gt_of(12, 72)), 300) == GT::spow_steps(GT(gt_of(1, 0)), GT(gt_of(10, 79)), 150));
    lemma_gt_mul_at((10, 79), (10, 79), (20, 86), (-61, -47));
    assert(GT::spow_steps(GT(gt_of(1, 0)), GT(gt_of(10, 79)), 150) == GT::spow_steps(GT(gt_of(1, 0)), GT(gt_of(20, 86)), 75));
    lemma_gt_mul_at((1, 0), (20, 86), (20, 86), (0, 0));
    lemma_gt_mul_at((20, 86), (20, 86), (74, 84), (-70, -40));
    assert(GT::spow_steps(GT(gt_of(1, 0)), GT(gt_of(20, 86)), 75) == GT::spow_steps(GT(gt_of(20, 86)), GT(gt_of(74, 84)), 37));
    lemma_gt_mul_at((20, 86), (74, 84), (13, 12), (-57, 8));
    lemma_gt_mul_at((74, 84), (74, 84), (36, 23), (-16, 53));
    assert(GT::spow_steps(GT(gt_of(20, 86)), GT(gt_of(74, 84)), 37) == GT::spow_steps(GT(gt_of(13, 12)), GT(gt_of(36, 23)), 18));
    lemma_gt_mul_at((36, 23), (36, 23), (60, 16), (7, 11));
    assert(GT::spow_steps(GT(gt_of(13, 12)), GT(gt_of(36, 23)), 18) == GT::spow_steps(GT(gt_of(13, 12)), GT(gt_of(60, 16)), 9));
    lemma_gt_mul_at((13, 12), (60, 16), (83, 29), (5, 7));
    lemma_gt_mul_at((60, 16), (60, 16), (11, 48), (33, 16));
    assert(GT::spow_steps(GT(gt_of(13, 12)), GT(gt_of(60, 16)), 9) == GT::spow_steps(GT(gt_of(83, 29)), GT(gt_of(11, 48)), 4));
    lemma_gt_mul_at((11, 48), (11, 48), (39, 65), (-22, -13));
    assert(GT::spow_steps(GT(gt_of(83, 29)), GT(gt_of(11, 48)), 4) == GT::spow_steps(GT(gt_of(83, 29)), GT(gt_of(39, 65)), 2));
    lemma_gt_mul_at((39, 65), (39, 65), (23, 37), (-27, 8));
    assert(GT::spow_steps(GT(gt_of(83, 29)), GT(gt_of(39, 65)), 2) == GT::spow_steps(GT(gt_of(83, 29)), GT(gt_of(23, 37)), 1));
    lemma_gt_mul_at((83, 29), (23, 37), (28, 39), (8, 26));
    lemma_gt_mul_at((23, 37), (23, 37), (69, 30), (-9, 3));
    assert(GT::spow_steps(GT(gt_of(83, 29)), GT(gt_of(23, 37)), 1) == GT::spow_steps(GT(gt_of(28, 39)), GT(gt_of(69, 30)), 0));
}

/// The pairing of `1G` with the point `24 P` of the image of `H`.
proof fn lemma_pairing_1_24()
    ensures
        smiller_loop(g1p(1, 2), dq(26, 45)) is Some,
        spairing_at(g1p(1, 2), dq(26, 45)) == GT(gt_of(28, 39)),
{
    lemma_final_exponent();
    lemma_tangent_1_24();
    lemma_tangent_2_24();
    lemma_tangent_4_24();
    lemma_tangent_8_24();
    lemma_vertical_at(1, 99, 2, 26, 45);
    lemma_miller_at(
        g1p(1, 2),
        dq(26, 45),
        (g1p(68, 74), g1p(65, 98), g1p(18, 49), g1p(1, 99)),
        (12, 32),
        (65, 59),
        (29, 52),
        (84, 27),
        (-1, 26),
        ((29, 47, -9, -3), (21, 74, -9, 19), (15, 56, -50, -24), (48, 98, -25, -6)),
        ((73, 6, -73, -2), (11, 91, 59, 22), (47, 51, -24, -22)),
    );
    lemma_final_exp_1_24();
}

proof fn lemma_final_exp_2_24()
    ensures
        GT(gt_of(54, 70)).spow(600) == GT(gt_of(71, 57)),
{
    assert(GT::sone() == GT(gt_of(1, 0)));
    lemma_gt_mul_at((54, 70), (54, 70), (36, 34), (-20, 26));
    assert(GT::spow_steps(GT(gt_of(1, 0)), GT(gt_of(54, 70)), 600) == GT::spow_steps(GT(gt_of(1, 0)), GT(gt_of(36, 34)), 300));
    lemma_gt_mul_at((36, 34), (36, 34), (39, 80), (1, 12));
    assert(GT::spow_steps(GT(gt_of(1, 0)), GT(gt_of(36, 34)), 300) == GT::spow_steps(GT(gt_of(1, 0)), GT(gt_of(39, 80)), 150));
    lemma_gt_mul_at((39, 80), (39, 80), (70, 42), (-49, -2));
    assert(GT::spow_steps(GT(gt_of(1, 0)), GT(gt_of(39, 80)), 150) == GT::spow_steps(GT(gt_of(1, 0)), GT(gt_of(70, 42)), 75));
    lemma_gt_mul_at((1, 0), (70, 42), (70, 42), (0, 0));
    lemma_gt_mul_at((70, 42), (70, 42), (5, 76), (31, 40));
    assert(GT::spow_steps(GT(gt_of(1, 0)), GT(gt_of(70, 42)), 75) == GT::spow_steps(GT(gt_of(70, 42)), GT(gt_of(5, 76)), 37));
    lemma_gt_mul_at((70, 42), (5, 76), (87, 15), (-29, 23));
    lemma_gt_mul_at((5, 76), (5, 76), (6, 34), (-57, -50));
    assert(GT::spow_steps(GT(gt_of(70, 42)), GT(gt_of(5, 76)), 37) == GT::spow_steps(GT(gt_of(87, 15)), GT(gt_of(6, 34)), 18));
    lemma_gt_mul_at((6, 34), (6, 34), (92, 60), (-12, -8));
    assert(GT::spow_steps(GT(gt_of(87, 15)), GT(gt_of(6, 34)), 18) == GT::spow_steps(GT(gt_of(87, 15)), GT(gt_of(92, 60)), 9));
    lemma_gt_mul_at((87, 15), (92, 60), (34, 44), (70, 56));
    lemma_gt_mul_at((92, 60), (92, 60), (16, 67), (48, 73));
    assert(GT::spow_steps(GT(gt_of(87, 15)), GT(gt_of(92, 60)), 9) == GT::spow_steps(GT(gt_of(34, 44)), GT(gt_of(16, 67)), 4));
    lemma_gt_mul_at((16, 67), (16, 67), (9, 79), (-42, -24));
    assert(GT::spow_steps(GT(gt_of(34, 44)), GT(gt_of(16, 67)), 4) == GT::spow_steps(GT(gt_of(34, 44)), GT(gt_of(9, 79)), 2));
    lemma_gt_mul_at((9, 79), (9, 79), (1, 29), (-61, -48));
    assert(GT::spow_steps(GT(gt_of(34, 44)), GT(gt_of(9, 79)), 2) == GT::spow_steps(GT(gt_of(34, 44)), GT(gt_of(1, 29)), 1));
    lemma_gt_mul_at((34, 44), (1, 29), (71, 57), (-13, -3));
    lemma_gt_mul_at((1, 29), (1, 29), (69, 25), (-9, -8));
    assert(GT::spow_steps(GT(gt_of(34, 44)), GT(gt_of(1, 29)), 1) == GT::spow_steps(GT(gt_of(71, 57)), GT(gt_of(69, 25)), 0));
}

/// The pairing of `2G` with the point `24 P` of the image of `H`.
proof fn lemma_pairing_2_24()
    ensures
        smiller_loop(g1p(68, 74), dq(26, 45)) is Some,
        spairing_at(g1p(68, 74), dq(26, 45)) == GT(gt_of(71, 57)),
{
    lemma_final_exponent();
    lemma_tangent_2_24();
    lemma_tangent_4_24();
    lemma_tangent_8_24();
    lemma_tangent_16_24();
    lemma_vertical_at(68, 27, 74, 26, 45);
    lemma_miller_at(
        g1p(68, 74),
        dq(26, 45),
        (g1p(65, 98), g1p(18, 49), g1p(1, 99), g1p(68, 27)),
        (65, 59),
        (29, 52),
        (84, 27),
        (77, 27),
        (-68, 26),
        ((37, 48, 7, 41), (92, 12, -15, 8), (38, 44, 82, 20), (85, 100, 19, 34)),
        ((53, 31, -28, 69), (12, 52, 32, 29), (54, 70, -22, -46)),
    );
    lemma_final_exp_2_24();
}

proof fn lemma_final_exp_3_24()
    ensures
        GT(gt_of(31, 3)).spow(600) == GT(gt_of(68, 21)),
{
    assert(GT::sone() == GT(gt_of(1, 0)));
    lemma_gt_mul_at((31, 3), (31, 3), (43, 76), (9, 1));
    assert(GT::spow_steps(GT(gt_of(1, 0)), GT(gt_of(31, 3)), 600) == GT::spow_steps(GT(gt_of(1, 0)), GT(gt_of(43, 76)), 300));
    lemma_gt_mul_at((43, 76), (43, 76), (12, 53), (-39, 7));
    assert(GT::spow_steps(GT(gt_of(1, 0)), GT(gt_of(43, 76)), 300) == GT::spow_steps(GT(gt_of(1, 0)), GT(gt_of(12, 53)), 150));
    lemma_gt_mul_at((12, 53), (12, 53), (62, 79), (-27, -16));
    assert(GT::spow_steps(GT(gt_of(1, 0)), GT(gt_of(12, 53)), 150) == GT::spow_steps(GT(gt_of(1, 0)), GT(gt_of(62, 79)), 75));
    lemma_gt_mul_at((1, 0), (62, 79), (62, 79), (0, 0));
    lemma_gt_mul_at((62, 79), (62, 79), (27, 20), (-24, 35));
    assert(GT::spow_steps(GT(gt_of(1, 0)), GT(gt_of(62, 79)), 75) == GT::spow_steps(GT(gt_of(62, 79)), GT(gt_of(27, 20)), 37));
    lemma_gt_mul_at((62, 79), (27, 20), (94, 76), (0, 17));
    lemma_gt_mul_at((27, 20), (27, 20), (26, 74), (3, 6));
    assert(GT::spow_steps(GT(gt_of(62, 79)), GT(gt_of(27, 20)), 37) == GT::spow_steps(GT(gt_of(94, 76)), GT(gt_of(26, 74)), 18));
    lemma_gt_mul_at((26, 74), (26, 74), (48, 89), (-48, -17));
    assert(GT::spow_steps(GT(gt_of(94, 76)), GT(gt_of(26, 74)), 18) == GT::spow_steps(GT(gt_of(94, 76)), GT(gt_of(48, 89)), 9));
    lemma_gt_mul_at((94, 76), (48, 89), (71, 99), (-23, 51));
    lemma_gt_mul_at((48, 89), (48, 89), (39, 17), (-56, 6));
    assert(GT::spow_steps(GT(gt_of(94, 76)), GT(gt_of(48, 89)), 9) == GT::spow_steps(GT(gt_of(71, 99)), GT(gt_of(39, 17)), 4));
    lemma_gt_mul_at((39, 17), (39, 17), (20, 27), (12, 10));
    assert(GT::spow_steps(GT(gt_of(71, 99)), GT(gt_of(39, 17)), 4) == GT::spow_steps(GT(gt_of(71, 99)), GT(gt_of(20, 27)), 2));
    lemma_gt_mul_at((20, 27), (20, 27), (75, 48), (-4, 3));
    assert(GT::spow_steps(GT(gt_of(71, 99)), GT(gt_of(20, 27)), 2) == GT::spow_steps(GT(gt_of(71, 99)), GT(gt_of(75, 48)), 1));
    lemma_gt_mul_at((71, 99), (75, 48), (68, 21), (5, 60));
    lemma_gt_mul_at((75, 48), (75, 48), (89, 48), (32, 48));
    assert(GT::spow_steps(GT(gt_of(71, 99)), GT(gt_of(75, 48)), 1) == GT::spow_steps(GT(gt_of(68, 21)), GT(gt_of(89, 48)), 0));
}

/// The pairing of `3G` with the point `24 P` of the image of `H`.
proof fn lemma_pairing_3_24()
    ensures
        smiller_loop(g1p(26, 45), dq(26, 45)) is Some,
        spairing_at(g1p(26, 45), dq(26, 45)) == GT(gt_of(68, 21)),
{
    lemma_final_exponent();
    lemma_tangent_3_24();
    lemma_tangent_6_24();
    lemma_tangent_12_24();
    lemma_tangent_7_24();
    lemma_vertical_at(26, 56, 45, 26, 45);
    lemma_miller_at(
        g1p(26, 45),
        dq(26, 45),
        (g1p(32, 42), g1p(12, 69), g1p(91, 35), g1p(26, 56)),
        (80, 52),
        (89, 32),
        (35, 68),
        (39, 0),
        (-26, 26),
        ((60, 61, 36, 55), (55, 44, 33, 53), (79, 76, 10, 28), (21, 36, -24, 28)),
        ((54, 14, -9, 2), (86, 41, 20, 5), (31, 3, -33, 1)),
    );
    lemma_final_exp_3_24();
}

proof fn lemma_final_exp_4_24()
    ensures
        GT(gt_of(15, 31)).spow(600) == GT(gt_of(75, 98)),
{
    assert(GT::sone() == GT(gt_of(1, 0)));
    lemma_gt_mul_at((15, 31), (15, 31), (72, 70), (-8, -1));
    assert(GT::spow_steps(GT(gt_of(1, 0)), GT(gt_of(15, 31)), 600) == GT::spow_steps(GT(gt_of(1, 0)), GT(gt_of(72, 70)), 300));
    lemma_gt_mul_at((72, 70), (72, 70), (82, 29), (2, 51));
    assert(GT::spow_steps(GT(gt_of(1, 0)), GT(gt_of(72, 70)), 300) == GT::spow_steps(GT(gt_of(1, 0)), GT(gt_of(82, 29)), 150));
    lemma_gt_mul_at((82, 29), (82, 29), (25, 77), (58, 38));
    assert(GT::spow_steps(GT(gt_of(1, 0)), GT(gt_of(82, 29)), 150) == GT::spow_steps(GT(gt_of(1, 0)), GT(gt_of(25, 77)), 75));
    lemma_gt_mul_at((1, 0), (25, 77), (25, 77), (0, 0));
    lemma_gt_mul_at((25, 77), (25, 77), (49, 42), (-53, -21));
    assert(GT::spow_steps(GT(gt_of(1, 0)), GT(gt_of(25, 77)), 75) == GT::spow_steps(GT(gt_of(25, 77)), GT(gt_of(49, 42)), 37));
    lemma_gt_mul_at((25, 77), (49, 42), (11, 74), (-20, 15));
    lemma_gt_mul_at((49, 42), (49, 42), (31, 29), (6, 23));
    assert(GT::spow_steps(GT(gt_of(25, 77)), GT(gt_of(49, 42)), 37) == GT::spow_steps(GT(gt_of(11, 74)), GT(gt_of(31, 29)), 18));
    lemma_gt_mul_at((31, 29), (31, 29), (19, 48), (1, 9));
    assert(GT::spow_steps(GT(gt_of(11, 74)), GT(gt_of(31, 29)), 18) == GT::spow_steps(GT(gt_of(11, 74)), GT(gt_of(19, 48)), 9));
    lemma_gt_mul_at((11, 74), (19, 48), (91, 99), (-34, -17));
    lemma_gt_mul_at((19, 48), (19, 48), (77, 25), (-20, -5));
    assert(GT::spow_steps(GT(gt_of(11, 74)), GT(gt_of(19, 48)), 9) == GT::spow_steps(GT(gt_of(91, 99)), GT(gt_of(77, 25)), 4));
    lemma_gt_mul_at((77, 25), (77, 25), (52, 94), (52, 31));
    assert(GT::spow_steps(GT(gt_of(91, 99)), GT(gt_of(77, 25)), 4) == GT::spow_steps(GT(gt_of(91, 99)), GT(gt_of(52, 94)), 2));
    lemma_gt_mul_at((52, 94), (52, 94), (29, 31), (-61, 9));
    assert(GT::spow_steps(GT(gt_of(91, 99)), GT(gt_of(52, 94)), 2) == GT::spow_steps(GT(gt_of(91, 99)), GT(gt_of(29, 31)), 1));
    lemma_gt_mul_at((91, 99), (29, 31), (75, 98), (-5, 25));
    lemma_gt_mul_at((29, 31), (29, 31), (82, 29), (-2, 8));
    assert(GT::spow_steps(GT(gt_of(91, 99)), GT(gt_of(29, 31)), 1) == GT::spow_steps(GT(gt_of(75, 98)), GT(gt_of(82, 29)), 0));
}

/// The pairing of `4G` with the point `24 P` of the image of `H`.
proof fn lemma_pairing_4_24()
    ensures
        smiller_loop(g1p(65, 98), dq(26, 45)) is Some,
        spairing_at(g1p(65, 98), dq(26, 45)) == GT(gt_of(75, 98)),
{
    lemma_final_exponent();
    lemma_tangent_4_24();
    lemma_tangent_8_24();
    lemma_tangent_16_24();
    lemma_tangent_15_24();
    lemma_vertical_at(65, 3, 98, 26, 45);
    lemma_miller_at(
        g1p(65, 98),
        dq(26, 45),
        (g1p(18, 49), g1p(1, 99), g1p(68, 27), g1p(65, 3)),
        (29, 52),
        (84, 27),
        (77, 27),
        (24, 53),
        (-65, 26),
        ((56, 9, -19, 3), (17, 5, 44, 20), (62, 44, 2, 1), (51, 36, 35, 38)),
        ((93, 53, 12, 23), (29, 59, -6, 33), (15, 31, -34, -46)),
    );
    lemma_final_exp_4_24();
}

proof fn lemma_final_exp_5_24()
    ensures
        GT(gt_of(76, 77)).spow(600) == GT(gt_of(96, 29)),
{
    assert(GT::sone() == GT(gt_of(1, 0)));
    lemma_gt_mul_at((76, 77), (76, 77), (49, 18), (-2, 57));
    assert(GT::spow_steps(GT(gt_of(1, 0)), GT(gt_of(76, 77)), 600) == GT::spow_steps(GT(gt_of(1, 0)), GT(gt_of(49, 18)), 300));
    lemma_gt_mul_at((49, 18), (49, 18), (57, 26), (20, 14));
    assert(GT::spow_steps(GT(gt_of(1, 0)), GT(gt_of(49, 18)), 300) == GT::spow_steps(GT(gt_of(1, 0)), GT(gt_of(57, 26)), 150));
    lemma_gt_mul_at((57, 26), (57, 26), (48, 66), (25, 22));
    assert(GT::spow_steps(GT(gt_of(1, 0)), GT(gt_of(57, 26)), 150) == GT::spow_steps(GT(gt_of(1, 0)), GT(gt_of(48, 66)), 75));
    lemma_gt_mul_at((1, 0), (48, 66), (48, 66), (0, 0));
    lemma_gt_mul_at((48, 66), (48, 66), (69, 61), (-21, 19));
    assert(GT::spow_steps(GT(gt_of(1, 0)), GT(gt_of(48, 66)), 75) == GT::spow_steps(GT(gt_of(48, 66)), GT(gt_of(69, 61)), 37));
    lemma_gt_mul_at((48, 66), (69, 61), (94, 22), (-8, 34));
    lemma_gt_mul_at((69, 61), (69, 61), (30, 51), (10, 46));
    assert(GT::spow_steps(GT(gt_of(48, 66)), GT(gt_of(69, 61)), 37) == GT::spow_steps(GT(gt_of(94, 22)), GT(gt_of(30, 51)), 18));
    lemma_gt_mul_at((30, 51), (30, 51), (16, 55), (-17, 4));
    assert(GT::spow_steps(GT(gt_of(94, 22)), GT(gt_of(30, 51)), 18) == GT::spow_steps(GT(gt_of(94, 22)), GT(gt_of(16, 55)), 9));
    lemma_gt_mul_at((94, 22), (16, 55), (92, 70), (2, 42));
    lemma_gt_mul_at((16, 55), (16, 55), (59, 48), (-28, -13));
    assert(GT::spow_steps(GT(gt_of(94, 22)), GT(gt_of(16, 55)), 9) == GT::spow_steps(GT(gt_of(92, 70)), GT(gt_of(59, 48)), 4));
    lemma_gt_mul_at((59, 48), (59, 48), (66, 27), (11, 33));
    assert(GT::spow_steps(GT(gt_of(92, 70)), GT(gt_of(59, 48)), 4) == GT::spow_steps(GT(gt_of(92, 70)), GT(gt_of(66, 27)), 2));
    lemma_gt_mul_at((66, 27), (66, 27), (92, 7), (35, 28));
    assert(GT::spow_steps(GT(gt_of(92, 70)), GT(gt_of(66, 27)), 2) == GT::spow_steps(GT(gt_of(92, 70)), GT(gt_of(92, 7)), 1));
    lemma_gt_mul_at((92, 70), (92, 7), (96, 29), (78, 65));
    lemma_gt_mul_at((92, 7), (92, 7), (32, 27), (83, 12));
    assert(GT::spow_steps(GT(gt_of(92, 70)), GT(gt_of(92, 7)), 1) == GT::spow_steps(GT(gt_of(96, 29)), GT(gt_of(32, 27)), 0));
}

/// The pairing of `5G` with the point `24 P` of the image of `H`.
proof fn lemma_pairing_5_24()
    ensures
        smiller_loop(g1p(12, 32), dq(26, 45)) is Some,
        spairing_at(g1p(12, 32), dq(26, 45)) == GT(gt_of(96, 29)),
{
    lemma_final_exponent();
    lemma_tangent_5_24();
    lemma_tangent_10_24();
    lemma_tangent_3_24();
    lemma_tangent_6_24();
    lemma_vertical_at(12, 69, 32, 26, 45);
    lemma_miller_at(
        g1p(12, 32),
        dq(26, 45),
        (g1p(91, 66), g1p(26, 45), g1p(32, 42), g1p(12, 69)),
        (82, 59),
        (83, 61),
        (80, 52),
        (89, 32),
        (-12, 26),
        ((11, 34, 32, 61), (51, 5, -12, 14), (51, 81, 25, 4), (70, 72, -2, 48)),
        ((19, 48, -3, 48), (54, 11, 1, 33), (76, 77, -10, 9)),
    );
    lemma_final_exp_5_24();
}

proof fn lemma_final_exp_6_24()
    ensures
        GT(gt_of(3, 93)).spow(600) == GT(gt_of(42, 92)),
{
    assert(GT::sone() == GT(gt_of(1, 0)));
    lemma_gt_mul_at((3, 93), (3, 93), (46, 90), (-86, -81));
    assert(GT::spow_steps(GT(gt_of(1, 0)), GT(gt_of(3, 93)), 600) == GT::spow_steps(GT(gt_of(1, 0)), GT(gt_of(46, 90)), 300));
    lemma_gt_mul_at((46, 90), (46, 90), (76, 79), (-60, 1));
    assert(GT::spow_steps(GT(gt_of(1, 0)), GT(gt_of(46, 90)), 300) == GT::spow_steps(GT(gt_of(1, 0)), GT(gt_of(76, 79)), 150));
    lemma_gt_mul_at((76, 79), (76, 79), (40, 10), (-5, 57));
    assert(GT::spow_steps(GT(gt_of(1, 0)), GT(gt_of(76, 79)), 150) == GT::spow_steps(GT(gt_of(1, 0)), GT(gt_of(40, 10)), 75));
    lemma_gt_mul_at((1, 0), (40, 10), (40, 10), (0, 0));
    lemma_gt_mul_at((40, 10), (40, 10), (86, 94), (14, 6));
    assert(GT::spow_steps(GT(gt_of(1, 0)), GT(gt_of(40, 10)), 75) == GT::spow_steps(GT(gt_of(40, 10)), GT(gt_of(86, 94)), 37));
    lemma_gt_mul_at((40, 10), (86, 94), (76, 44), (24, 36));
    lemma_gt_mul_at((86, 94), (86, 94), (75, 60), (-15, 72));
    assert(GT::spow_steps(GT(gt_of(40, 10)), GT(gt_of(86, 94)), 37) == GT::spow_steps(GT(gt_of(76, 44)), GT(gt_of(75, 60)), 18));
    lemma_gt_mul_at((75, 60), (75, 60), (5, 47), (20, 53));
    assert(GT::spow_steps(GT(gt_of(76, 44)), GT(gt_of(75, 60)), 18) == GT::spow_steps(GT(gt_of(76, 44)), GT(gt_of(5, 47)), 9));
    lemma_gt_mul_at((76, 44), (5, 47), (29, 7), (-17, 17));
    lemma_gt_mul_at((5, 47), (5, 47), (38, 79), (-22, -18));
    assert(GT::spow_steps(GT(gt_of(76, 44)), GT(gt_of(5, 47)), 9) == GT::spow_steps(GT(gt_of(29, 7)), GT(gt_of(38, 79)), 4));
    lemma_gt_mul_at((38, 79), (38, 79), (51, 66), (-48, -3));
    assert(GT::spow_steps(GT(gt_of(29, 7)), GT(gt_of(38, 79)), 4) == GT::spow_steps(GT(gt_of(29, 7)), GT(gt_of(51, 66)), 2));
    lemma_gt_mul_at((51, 66), (51, 66), (63, 53), (-18, 23));
    assert(GT::spow_steps(GT(gt_of(29, 7)), GT(gt_of(51, 66)), 2) == GT::spow_steps(GT(gt_of(29, 7)), GT(gt_of(63, 53)), 1));
    lemma_gt_mul_at((29, 7), (63, 53), (42, 92), (14, 15));
    lemma_gt_mul_at((63, 53), (63, 53), (49, 31), (11, 38));
    assert(GT::spow_steps(GT(gt_of(29, 7)), GT(gt_of(63, 53)), 1) == GT::spow_steps(GT(gt_of(42, 92)), GT(gt_of(49, 31)), 0));
}

/// The pairing of `6G` with the point `24 P` of the image of `H`.
proof fn lemma_pairing_6_24()
    ensures
        smiller_loop(g1p(32, 42), dq(26, 45)) is Some,
        spairing_at(g1p(32, 42), dq(26, 45)) == GT(gt_of(42, 92)),
{
    lemma_final_exponent();
    lemma_tangent_6_24();
    lemma_tangent_12_24();
    lemma_tangent_7_24();
    lemma_tangent_14_24();
    lemma_vertical_at(32, 59, 42, 26, 45);
    lemma_miller_at(
        g1p(32, 42),
        dq(26, 45),
        (g1p(12, 69), g1p(91, 35), g1p(26, 56), g1p(32, 59)),
        (89, 32),
        (35, 68),
        (39, 0),
        (40, 61),
        (-32, 26),
        ((29, 26, 68, 46), (55, 3, -8, 11), (87, 18, 29, 3), (60, 96, 33, 6)),
        ((40, 82, -56, 22), (32, 11, -34, 7), (3, 93, -13, 1)),
    );
    lemma_final_exp_6_24();
}

proof fn lemma_final_exp_7_24()
    ensures
        GT(gt_of(29, 59)).spow(600) == GT(gt_of(12, 20)),
{
    assert(GT::sone() == GT(gt_of(1, 0)));
    lemma_gt_mul_at((29, 59), (29, 59), (87, 42), (-27, -1));
    assert(GT::spow_steps(GT(gt_of(1, 0)), GT(gt_of(29, 59)), 600) == GT::spow_steps(GT(gt_of(1, 0)), GT(gt_of(87, 42)), 300));
    lemma_gt_mul_at((87, 42), (87, 42), (48, 90), (57, 54));
    assert(GT::spow_steps(GT(gt_of(1, 0)), GT(gt_of(87, 42)), 300) == GT::spow_steps(GT(gt_of(1, 0)), GT(gt_of(48, 90)), 150));
    lemma_gt_mul_at((48, 90), (48, 90), (62, 35), (-58, 5));
    assert(GT::spow_steps(GT(gt_of(1, 0)), GT(gt_of(48, 90)), 150) == GT::spow_steps(GT(gt_of(1, 0)), GT(gt_of(62, 35)), 75));
    lemma_gt_mul_at((1, 0), (62, 35), (62, 35), (0, 0));
    lemma_gt_mul_at((62, 35), (62, 35), (94, 85), (25, 30));
    assert(GT::spow_steps(GT(gt_of(1, 0)), GT(gt_of(62, 35)), 75) == GT::spow_steps(GT(gt_of(62, 35)), GT(gt_of(94, 85)), 37));
    lemma_gt_mul_at((62, 35), (94, 85), (25, 30), (28, 55));
    lemma_gt_mul_at((94, 85), (94, 85), (96, 69), (15, 86));
    assert(GT::spow_steps(GT(gt_of(62, 35)), GT(gt_of(94, 85)), 37) == GT::spow_steps(GT(gt_of(25, 30)), GT(gt_of(96, 69)), 18));
    lemma_gt_mul_at((96, 69), (96, 69), (11, 3), (44, 84));
    assert(GT::spow_steps(GT(gt_of(25, 30)), GT(gt_of(96, 69)), 18) == GT::spow_steps(GT(gt_of(25, 30)), GT(gt_of(11, 3)), 9));
    lemma_gt_mul_at((25, 30), (11, 3), (84, 12), (1, 3));
    lemma_gt_mul_at((11, 3), (11, 3), (11, 57), (1, 0));
    assert(GT::spow_steps(GT(gt_of(25, 30)), GT(gt_of(11, 3)), 9) == GT::spow_steps(GT(gt_of(84, 12)), GT(gt_of(11, 57)), 4));
    lemma_gt_mul_at((11, 57), (11, 57), (3, 25), (-31, -20));
    assert(GT::spow_steps(GT(gt_of(84, 12)), GT(gt_of(11, 57)), 4) == GT::spow_steps(GT(gt_of(84, 12)), GT(gt_of(3, 25)), 2));
    lemma_gt_mul_at((3, 25), (3, 25), (91, 30), (-7, -5));
    assert(GT::spow_steps(GT(gt_of(84, 12)), GT(gt_of(3, 25)), 2) == GT::spow_steps(GT(gt_of(84, 12)), GT(gt_of(91, 30)), 1));
    lemma_gt_mul_at((84, 12), (91, 30), (12, 20), (72, 32));
    lemma_gt_mul_at((91, 30), (91, 30), (8, 15), (73, 45));
    assert(GT::spow_steps(GT(gt_of(84, 12)), GT(gt_of(91, 30)), 1) == GT::spow_steps(GT(gt_of(12, 20)), GT(gt_of(8, 15)), 0));
}

/// The pairing of `7G` with the point `24 P` of the image of `H`.
proof fn lemma_pairing_7_24()
    ensures
        smiller_loop(g1p(91, 35), dq(26, 45)) is Some,
        spairing_at(g1p(91, 35), dq(26, 45)) == GT(gt_of(12, 20)),
{
    lemma_final_exponent();
    lemma_tangent_7_24();
    lemma_tangent_14_24();
    lemma_tangent_11_24();
    lemma_tangent_5_24();
    lemma_vertical_at(91, 66, 35, 26, 45);
    lemma_miller_at(
        g1p(91, 35),
        dq(26, 45),
        (g1p(26, 56), g1p(32, 59), g1p(12, 32), g1p(91, 66)),
        (39, 0),
        (40, 61),
        (80, 73),
        (82, 59),
        (-91, 26),
        ((6, 0, 15, 0), (38, 63, 2, 3), (0, 11, -25, 8), (5, 77, -8, 0)),
        ((55, 93, -59, -52), (33, 31, -10, 53), (29, 59, -38, -28)),
    );
    lemma_final_exp_7_24();
}

proof fn lemma_final_exp_8_24()
    ensures
        GT(gt_of(59, 82)).spow(600) == GT(gt_of(61, 46)),
{
    assert(GT::sone() == GT(gt_of(1, 0)));
    lemma_gt_mul_at((59, 82), (59, 82), (90, 23), (-33, 29));
    assert(GT::spow_steps(GT(gt_of(1, 0)), GT(gt_of(59, 82)), 600) == GT::spow_steps(GT(gt_of(1, 0)), GT(gt_of(90, 23)), 300));
    lemma_gt_mul_at((90, 23), (90, 23), (97, 76), (74, 35));
    assert(GT::spow_steps(GT(gt_of(1, 0)), GT(gt_of(90, 23)), 300) == GT::spow_steps(GT(gt_of(1, 0)), GT(gt_of(97, 76)), 150));
    lemma_gt_mul_at((97, 76), (97, 76), (98, 80), (35, 88));
    assert(GT::spow_steps(GT(gt_of(1, 0)), GT(gt_of(97, 76)), 150) == GT::spow_steps(GT(gt_of(1, 0)), GT(gt_of(98, 80)), 75));
    lemma_gt_mul_at((1, 0), (98, 80), (98, 80), (0, 0));
    lemma_gt_mul_at((98, 80), (98, 80), (73, 89), (31, 91));
    assert(GT::spow_steps(GT(gt_of(1, 0)), GT(gt_of(98, 80)), 75) == GT::spow_steps(GT(gt_of(98, 80)), GT(gt_of(73, 89)), 37));
    lemma_gt_mul_at((98, 80), (73, 89), (34, 69), (0, 73));
    lemma_gt_mul_at((73, 89), (73, 89), (34, 23), (-26, 50));
    assert(GT::spow_steps(GT(gt_of(98, 80)), GT(gt_of(73, 89)), 37) == GT::spow_steps(GT(gt_of(34, 69)), GT(gt_of(34, 23)), 18));
    lemma_gt_mul_at((34, 23), (34, 23), (21, 25), (6, 10));
    assert(GT::spow_steps(GT(gt_of(34, 69)), GT(gt_of(34, 23)), 18) == GT::spow_steps(GT(gt_of(34, 69)), GT(gt_of(21, 25)), 9));
    lemma_gt_mul_at((34, 69), (21, 25), (100, 69), (-11, 5));
    lemma_gt_mul_at((21, 25), (21, 25), (18, 21), (-2, 4));
    assert(GT::spow_steps(GT(gt_of(34, 69)), GT(gt_of(21, 25)), 9) == GT::spow_steps(GT(gt_of(100, 69)), GT(gt_of(18, 21)), 4));
    lemma_gt_mul_at((18, 21), (18, 21), (85, 12), (-2, 3));
    assert(GT::spow_steps(GT(gt_of(100, 69)), GT(gt_of(18, 21)), 4) == GT::spow_steps(GT(gt_of(100, 69)), GT(gt_of(85, 12)), 2));
    lemma_gt_mul_at((85, 12), (85, 12), (11, 78), (70, 18));
    assert(GT::spow_steps(GT(gt_of(100, 69)), GT(gt_of(85, 12)), 2) == GT::spow_steps(GT(gt_of(100, 69)), GT(gt_of(11, 78)), 1));
    lemma_gt_mul_at((100, 69), (11, 78), (61, 46), (-43, 31));
    lemma_gt_mul_at((11, 78), (11, 78), (97, 76), (-60, -44));
    assert(GT::spow_steps(GT(gt_of(100, 69)), GT(gt_of(11, 78)), 1) == GT::spow_steps(GT(gt_of(61, 46)), GT(gt_of(97, 76)), 0));
}

/// The pairing of `8G` with the point `24 P` of the image of `H`.
proof fn lemma_pairing_8_24()
    ensures
        smiller_loop(g1p(18, 49), dq(26, 45)) is Some,
        spairing_at(g1p(18, 49), dq(26, 45)) == GT(gt_of(61, 46)),
{
    lemma_final_exponent();
    lemma_tangent_8_24();
    lemma_tangent_16_24();
    lemma_tangent_15_24();
    lemma_tangent_13_24();
    lemma_vertical_at(18, 52, 49, 26, 45);
    lemma_miller_at(
        g1p(18, 49),
        dq(26, 45),
        (g1p(1, 99), g1p(68, 27), g1p(65, 3), g1p(18, 52)),
        (84, 27),
        (77, 27),
        (24, 53),
        (66, 73),
        (-18, 26),
        ((65, 70, 62, 37), (85, 3, 30, 52), (45, 97, 71, 4), (80, 77, -41, -5)),
        ((67, 28, 4, 63), (55, 49, 23, 46), (59, 82, -23, -8)),
    );
    lemma_final_exp_8_24();
}

proof fn lemma_final_exp_9_24()
    ensures
        GT(gt_of(55, 71)).spow(600) == GT(gt_of(15, 55)),
{
    assert(GT::sone() == GT(gt_of(1, 0)));
    lemma_gt_mul_at((55, 71), (55, 71), (4, 42), (-20, 27));
    assert(GT::spow_steps(GT(gt_of(1, 0)), GT(gt_of(55, 71)), 600) == GT::spow_steps(GT(gt_of(1, 0)), GT(gt_of(4, 42)), 300));
    lemma_gt_mul_at((4, 42), (4, 42), (70, 87), (-18, -15));
    assert(GT::spow_steps(GT(gt_of(1, 0)), GT(gt_of(4, 42)), 300) == GT::spow_steps(GT(gt_of(1, 0)), GT(gt_of(70, 87)), 150));
    lemma_gt_mul_at((70, 87), (70, 87), (58, 66), (-27, 45));
    assert(GT::spow_steps(GT(gt_of(1, 0)), GT(gt_of(70, 87)), 150) == GT::spow_steps(GT(gt_of(1, 0)), GT(gt_of(58, 66)), 75));
    lemma_gt_mul_at((1, 0), (58, 66), (58, 66), (0, 0));
    lemma_gt_mul_at((58, 66), (58, 66), (18, 68), (-10, 32));
    assert(GT::spow_steps(GT(gt_of(1, 0)), GT(gt_of(58, 66)), 75) == GT::spow_steps(GT(gt_of(58, 66)), GT(gt_of(18, 68)), 37));
    lemma_gt_mul_at((58, 66), (18, 68), (91, 38), (-35, 6));
    lemma_gt_mul_at((18, 68), (18, 68), (43, 46), (-43, -22));
    assert(GT::spow_steps(GT(gt_of(58, 66)), GT(gt_of(18, 68)), 37) == GT::spow_steps(GT(gt_of(91, 38)), GT(gt_of(43, 46)), 18));
    lemma_gt_mul_at((43, 46), (43, 46), (36, 22), (-3, 18));
    assert(GT::spow_steps(GT(gt_of(91, 38)), GT(gt_of(43, 46)), 18) == GT::spow_steps(GT(gt_of(91, 38)), GT(gt_of(36, 22)), 9));
    lemma_gt_mul_at((91, 38), (36, 22), (16, 9), (24, 25));
    lemma_gt_mul_at((36, 22), (36, 22), (4, 90), (8, 10));
    assert(GT::spow_steps(GT(gt_of(91, 38)), GT(gt_of(36, 22)), 9) == GT::spow_steps(GT(gt_of(16, 9)), GT(gt_of(4, 90)), 4));
    lemma_gt_mul_at((4, 90), (4, 90), (97, 94), (-81, -74));
    assert(GT::spow_steps(GT(gt_of(16, 9)), GT(gt_of(4, 90)), 4) == GT::spow_steps(GT(gt_of(16, 9)), GT(gt_of(97, 94)), 2));
    lemma_gt_mul_at((97, 94), (97, 94), (68, 7), (5, 93));
    assert(GT::spow_steps(GT(gt_of(16, 9)), GT(gt_of(97, 94)), 2) == GT::spow_steps(GT(gt_of(16, 9)), GT(gt_of(68, 7)), 1));
    lemma_gt_mul_at((16, 9), (68, 7), (15, 55), (10, 6));
    lemma_gt_mul_at((68, 7), (68, 7), (30, 95), (45, 8));
    assert(GT::spow_steps(GT(gt_of(16, 9)), GT(gt_of(68, 7)), 1) == GT::spow_steps(GT(gt_of(15, 55)), GT(gt_of(30, 95)), 0));
}

/// The pairing of `9G` with the point `24 P` of the image of `H`.
proof fn lemma_pairing_9_24()
    ensures
        smiller_loop(g1p(18, 52), dq(26, 45)) is Some,
        spairing_at(g1p(18, 52), dq(26, 45)) == GT(gt_of(15, 55)),
{
    lemma_final_exponent();
    lemma_tangent_9_24();
    lemma_tangent_1_24();
    lemma_tangent_2_24();
    lemma_tangent_4_24();
    lemma_vertical_at(18, 49, 52, 26, 45);
    lemma_miller_at(
        g1p(18, 52),
        dq(26, 45),
        (g1p(1, 2), g1p(68, 74), g1p(65, 98), g1p(18, 49)),
        (69, 53),
        (12, 32),
        (65, 59),
        (29, 52),
        (-18, 26),
        ((33, 61, 19, 44), (60, 38, -16, -2), (35, 86, 21, 30), (29, 56, -28, 25)),
        ((28, 11, -23, 1), (38, 92, 2, 11), (55, 71, -31, -31)),
    );
    lemma_final_exp_9_24();
}

proof fn lemma_final_exp_10_24()
    ensures
        GT(gt_of(85, 50)).spow(600) == GT(gt_of(93, 81)),
{
    assert(GT::sone() == GT(gt_of(1, 0)));
    lemma_gt_mul_at((85, 50), (85, 50), (79, 41), (46, 59));
    assert(GT::spow_steps(GT(gt_of(1, 0)), GT(gt_of(85, 50)), 600) == GT::spow_steps(GT(gt_of(1, 0)), GT(gt_of(79, 41)), 300));
    lemma_gt_mul_at((79, 41), (79, 41), (15, 50), (45, 47));
    assert(GT::spow_steps(GT(gt_of(1, 0)), GT(gt_of(79, 41)), 300) == GT::spow_steps(GT(gt_of(1, 0)), GT(gt_of(15, 50)), 150));
    lemma_gt_mul_at((15, 50), (15, 50), (48, 10), (-23, -10));
    assert(GT::spow_steps(GT(gt_of(1, 0)), GT(gt_of(15, 50)), 150) == GT::spow_steps(GT(gt_of(1, 0)), GT(gt_of(48, 10)), 75));
    lemma_gt_mul_at((1, 0), (48, 10), (48, 10), (0, 0));
    lemma_gt_mul_at((48, 10), (48, 10), (83, 52), (21, 8));
    assert(GT::spow_steps(GT(gt_of(1, 0)), GT(gt_of(48, 10)), 75) == GT::spow_steps(GT(gt_of(48, 10)), GT(gt_of(83, 52)), 37));
    lemma_gt_mul_at((48, 10), (83, 52), (30, 79), (34, 27));
    lemma_gt_mul_at((83, 52), (83, 52), (44, 70), (41, 58));
    assert(GT::spow_steps(GT(gt_of(48, 10)), GT(gt_of(83, 52)), 37) == GT::spow_steps(GT(gt_of(30, 79)), GT(gt_of(44, 70)), 18));
    lemma_gt_mul_at((44, 70), (44, 70), (66, 48), (-30, 12));
    assert(GT::spow_steps(GT(gt_of(30, 79)), GT(gt_of(44, 70)), 18) == GT::spow_steps(GT(gt_of(30, 79)), GT(gt_of(66, 48)), 9));
    lemma_gt_mul_at((30, 79), (66, 48), (6, 34), (-18, 28));
    lemma_gt_mul_at((66, 48), (66, 48), (32, 93), (20, 39));
    assert(GT::spow_steps(GT(gt_of(30, 79)), GT(gt_of(66, 48)), 9) == GT::spow_steps(GT(gt_of(6, 34)), GT(gt_of(32, 93)), 4));
    lemma_gt_mul_at((32, 93), (32, 93), (51, 30), (-76, -27));
    assert(GT::spow_steps(GT(gt_of(6, 34)), GT(gt_of(32, 93)), 4) == GT::spow_steps(GT(gt_of(6, 34)), GT(gt_of(51, 30)), 2));
    lemma_gt_mul_at((51, 30), (51, 30), (85, 39), (16, 21));
    assert(GT::spow_steps(GT(gt_of(6, 34)), GT(gt_of(51, 30)), 2) == GT::spow_steps(GT(gt_of(6, 34)), GT(gt_of(85, 39)), 1));
    lemma_gt_mul_at((6, 34), (85, 39), (93, 81), (-9, 17));
    lemma_gt_mul_at((85, 39), (85, 39), (48, 59), (56, 50));
    assert(GT::spow_steps(GT(gt_of(6, 34)), GT(gt_of(85, 39)), 1) == GT::spow_steps(GT(gt_of(93, 81)), GT(gt_of(48, 59)), 0));
}

/// The pairing of `10G` with the point `24 P` of the image of `H`.
proof fn lemma_pairing_10_24()
    ensures
        smiller_loop(g1p(91, 66), dq(26, 45)) is Some,
        spairing_at(g1p(91, 66), dq(26, 45)) == GT(gt_of(93, 81)),
{
    lemma_final_exponent();
    lemma_tangent_10_24();
    lemma_tangent_3_24();
    lemma_tangent_6_24();
    lemma_tangent_12_24();
    lemma_vertical_at(91, 35, 66, 26, 45);
    lemma_miller_at(
        g1p(91, 66),
        dq(26, 45),
        (g1p(26, 45), g1p(32, 42), g1p(12, 69), g1p(91, 35)),
        (83, 61),
        (80, 52),
        (89, 32),
        (35, 68),
        (-91, 26),
        ((37, 42, 31, 63), (69, 70, 7, 30), (63, 13, -2, 47), (40, 30, 51, 27)),
        ((94, 86, 6, 14), (68, 19, -26, 35), (85, 50, -67, -5)),
    );
    lemma_final_exp_10_24();
}

proof fn lemma_final_exp_11_24()
    ensures
        GT(gt_of(78, 79)).spow(600) == GT(gt_of(51, 9)),
{
    assert(GT::sone() == GT(gt_of(1, 0)));
    lemma_gt_mul_at((78, 79), (78, 79), (45, 23), (-2, 60));
    assert(GT::spow_steps(GT(gt_of(1, 0)), GT(gt_of(78, 79)), 600) == GT::spow_steps(GT(gt_of(1, 0)), GT(gt_of(45, 23)), 300));
    lemma_gt_mul_at((45, 23), (45, 23), (82, 26), (14, 15));
    assert(GT::spow_steps(GT(gt_of(1, 0)), GT(gt_of(45, 23)), 300) == GT::spow_steps(GT(gt_of(1, 0)), GT(gt_of(82, 26)), 150));
    lemma_gt_mul_at((82, 26), (82, 26), (89, 53), (59, 35));
    assert(GT::spow_steps(GT(gt_of(1, 0)), GT(gt_of(82, 26)), 150) == GT::spow_steps(GT(gt_of(1, 0)), GT(gt_of(89, 53)), 75));
    lemma_gt_mul_at((1, 0), (89, 53), (89, 53), (0, 0));
    lemma_gt_mul_at((89, 53), (89, 53), (62, 60), (50, 65));
    assert(GT::spow_steps(GT(gt_of(1, 0)), GT(gt_of(89, 53)), 75) == GT::spow_steps(GT(gt_of(89, 53)), GT(gt_of(62, 60)), 37));
    lemma_gt_mul_at((89, 53), (62, 60), (15, 93), (23, 53));
    lemma_gt_mul_at((62, 60), (62, 60), (42, 2), (2, 38));
    assert(GT::spow_steps(GT(gt_of(89, 53)), GT(gt_of(62, 60)), 37) == GT::spow_steps(GT(gt_of(15, 93)), GT(gt_of(42, 2)), 18));
    lemma_gt_mul_at((42, 2), (42, 2), (43, 63), (17, 1));
    assert(GT::spow_steps(GT(gt_of(15, 93)), GT(gt_of(42, 2)), 18) == GT::spow_steps(GT(gt_of(15, 93)), GT(gt_of(43, 63)), 9));
    lemma_gt_mul_at((15, 93), (43, 63), (38, 95), (-52, -10));
    lemma_gt_mul_at((43, 63), (43, 63), (1, 35), (-21, 14));
    assert(GT::spow_steps(GT(gt_of(15, 93)), GT(gt_of(43, 63)), 9) == GT::spow_steps(GT(gt_of(38, 95)), GT(gt_of(1, 35)), 4));
    lemma_gt_mul_at((1, 35), (1, 35), (89, 57), (-13, -12));
    assert(GT::spow_steps(GT(gt_of(38, 95)), GT(gt_of(1, 35)), 4) == GT::spow_steps(GT(gt_of(38, 95)), GT(gt_of(89, 57)), 2));
    lemma_gt_mul_at((89, 57), (89, 57), (26, 29), (46, 68));
    assert(GT::spow_steps(GT(gt_of(38, 95)), GT(gt_of(89, 57)), 2) == GT::spow_steps(GT(gt_of(38, 95)), GT(gt_of(26, 29)), 1));
    lemma_gt_mul_at((38, 95), (26, 29), (51, 9), (-18, 8));
    lemma_gt_mul_at((26, 29), (26, 29), (37, 61), (-2, 6));
    assert(GT::spow_steps(GT(gt_of(38, 95)), GT(gt_of(26, 29)), 1) == GT::spow_steps(GT(gt_of(51, 9)), GT(gt_of(37, 61)), 0));
}

/// The pairing of `11G` with the point `24 P` of the image of `H`.
proof fn lemma_pairing_11_24()
    ensures
        smiller_loop(g1p(32, 59), dq(26, 45)) is Some,
        spairing_at(g1p(32, 59), dq(26, 45)) == GT(gt_of(51, 9)),
{
    lemma_final_exponent();
    lemma_tangent_11_24();
    lemma_tangent_5_24();
    lemma_tangent_10_24();
    lemma_tangent_3_24();
    lemma_vertical_at(32, 42, 59, 26, 45);
    lemma_miller_at(
        g1p(32, 59),
        dq(26, 45),
        (g1p(12, 32), g1p(91, 66), g1p(26, 45), g1p(32, 42)),
        (80, 73),
        (82, 59),
        (83, 61),
        (80, 52),
        (-32, 26),
        ((61, 89, 10, 62), (54, 91, -3, 55), (89, 32, -54, 15), (82, 73, 53, 60)),
        ((82, 78, 13, 65), (80, 85, 24, 63), (78, 79, -48, -29)),
    );
    lemma_final_exp_11_24();
}

proof fn lemma_final_exp_12_24()
    ensures
        GT(gt_of(83, 28)).spow(600) == GT(gt_of(67, 72)),
{
    assert(GT::sone() == GT(gt_of(1, 0)));
    lemma_gt_mul_at((83, 28), (83, 28), (45, 26), (60, 38));
    assert(GT::spow_steps(GT(gt_of(1, 0)), GT(gt_of(83, 28)), 600) == GT::spow_steps(GT(gt_of(1, 0)), GT(gt_of(45, 26)), 300));
    lemma_gt_mul_at((45, 26), (45, 26), (36, 48), (13, 16));
    assert(GT::spow_steps(GT(gt_of(1, 0)), GT(gt_of(45, 26)), 300) == GT::spow_steps(GT(gt_of(1, 0)), GT(gt_of(36, 48)), 150));
    lemma_gt_mul_at((36, 48), (36, 48), (2, 41), (-10, 11));
    assert(GT::spow_steps(GT(gt_of(1, 0)), GT(gt_of(36, 48)), 150) == GT::spow_steps(GT(gt_of(1, 0)), GT(gt_of(2, 41)), 75));
    lemma_gt_mul_at((1, 0), (2, 41), (2, 41), (0, 0));
    lemma_gt_mul_at((2, 41), (2, 41), (40, 99), (-17, -16));
    assert(GT::spow_steps(GT(gt_of(1, 0)), GT(gt_of(2, 41)), 75) == GT::spow_steps(GT(gt_of(2, 41)), GT(gt_of(40, 99)), 37));
    lemma_gt_mul_at((2, 41), (40, 99), (61, 1), (-40, -22));
    lemma_gt_mul_at((40, 99), (40, 99), (81, 38), (-82, -19));
    assert(GT::spow_steps(GT(gt_of(2, 41)), GT(gt_of(40, 99)), 37) == GT::spow_steps(GT(gt_of(61, 1)), GT(gt_of(81, 38)), 18));
    lemma_gt_mul_at((81, 38), (81, 38), (67, 66), (50, 46));
    assert(GT::spow_steps(GT(gt_of(61, 1)), GT(gt_of(81, 38)), 18) == GT::spow_steps(GT(gt_of(61, 1)), GT(gt_of(67, 66)), 9));
    lemma_gt_mul_at((61, 1), (67, 66), (82, 88), (39, 39));
    lemma_gt_mul_at((67, 66), (67, 66), (32, 44), (1, 44));
    assert(GT::spow_steps(GT(gt_of(61, 1)), GT(gt_of(67, 66)), 9) == GT::spow_steps(GT(gt_of(82, 88)), GT(gt_of(32, 44)), 4));
    lemma_gt_mul_at((32, 44), (32, 44), (98, 72), (-10, 8));
    assert(GT::spow_steps(GT(gt_of(82, 88)), GT(gt_of(32, 44)), 4) == GT::spow_steps(GT(gt_of(82, 88)), GT(gt_of(98, 72)), 2));
    lemma_gt_mul_at((98, 72), (98, 72), (77, 40), (43, 88));
    assert(GT::spow_steps(GT(gt_of(82, 88)), GT(gt_of(98, 72)), 2) == GT::spow_steps(GT(gt_of(82, 88)), GT(gt_of(77, 40)), 1));
    lemma_gt_mul_at((82, 88), (77, 40), (67, 72), (27, 64));
    lemma_gt_mul_at((77, 40), (77, 40), (87, 15), (42, 45));
    assert(GT::spow_steps(GT(gt_of(82, 88)), GT(gt_of(77, 40)), 1) == GT::spow_steps(GT(gt_of(67, 72)), GT(gt_of(87, 15)), 0));
}

/// The pairing of `12G` with the point `24 P` of the image of `H`.
proof fn lemma_pairing_12_24()
    ensures
        smiller_loop(g1p(12, 69), dq(26, 45)) is Some,
        spairing_at(g1p(12, 69), dq(26, 45)) == GT(gt_of(67, 72)),
{
    lemma_final_exponent();
    lemma_tangent_12_24();
    lemma_tangent_7_24();
    lemma_tangent_14_24();
    lemma_tangent_11_24();
    lemma_vertical_at(12, 32, 69, 26, 45);
    lemma_miller_at(
        g1p(12, 69),
        dq(26, 45),
        (g1p(91, 35), g1p(26, 56), g1p(32, 59), g1p(12, 32)),
        (35, 68),
        (39, 0),
        (40, 61),
        (80, 73),
        (-12, 26),
        ((35, 35, -34, 1), (52, 52, 13, 13), (0, 78, 0, 26), (90, 79, -48, -17)),
        ((41, 0, 18, 79), (48, 64, 32, 29), (83, 28, -23, -12)),
    );
    lemma_final_exp_12_24();
}

proof fn lemma_final_exp_13_24()
    ensures
        GT(gt_of(56, 91)).spow(600) == GT(gt_of(78, 3)),
{
    assert(GT::sone() == GT(gt_of(1, 0)));
    lemma_gt_mul_at((56, 91), (56, 91), (6, 93), (-51, 18));
    assert(GT::spow_steps(GT(gt_of(1, 0)), GT(gt_of(56, 91)), 600) == GT::spow_steps(GT(gt_of(1, 0)), GT(gt_of(6, 93)), 300));
    lemma_gt_mul_at((6, 93), (6, 93), (73, 42), (-86, -75));
    assert(GT::spow_steps(GT(gt_of(1, 0)), GT(gt_of(6, 93)), 300) == GT::spow_steps(GT(gt_of(1, 0)), GT(gt_of(73, 42)), 150));
    lemma_gt_mul_at((73, 42), (73, 42), (30, 25), (35, 43));
    assert(GT::spow_steps(GT(gt_of(1, 0)), GT(gt_of(73, 42)), 150) == GT::spow_steps(GT(gt_of(1, 0)), GT(gt_of(30, 25)), 75));
    lemma_gt_mul_at((1, 0), (30, 25), (30, 25), (0, 0));
    lemma_gt_mul_at((30, 25), (30, 25), (73, 67), (2, 8));
    assert(GT::spow_steps(GT(gt_of(1, 0)), GT(gt_of(30, 25)), 75) == GT::spow_steps(GT(gt_of(30, 25)), GT(gt_of(73, 67)), 37));
    lemma_gt_mul_at((30, 25), (73, 67), (10, 39), (5, 21));
    lemma_gt_mul_at((73, 67), (73, 67), (32, 41), (8, 52));
    assert(GT::spow_steps(GT(gt_of(30, 25)), GT(gt_of(73, 67)), 37) == GT::spow_steps(GT(gt_of(10, 39)), GT(gt_of(32, 41)), 18));
    lemma_gt_mul_at((32, 41), (32, 41), (50, 34), (-7, 9));
    assert(GT::spow_steps(GT(gt_of(10, 39)), GT(gt_of(32, 41)), 18) == GT::spow_steps(GT(gt_of(10, 39)), GT(gt_of(50, 34)), 9));
    lemma_gt_mul_at((10, 39), (50, 34), (83, 55), (-9, 9));
    lemma_gt_mul_at((50, 34), (50, 34), (31, 22), (13, 22));
    assert(GT::spow_steps(GT(gt_of(10, 39)), GT(gt_of(50, 34)), 9) == GT::spow_steps(GT(gt_of(83, 55)), GT(gt_of(31, 22)), 4));
    lemma_gt_mul_at((31, 22), (31, 22), (73, 72), (4, 8));
    assert(GT::spow_steps(GT(gt_of(83, 55)), GT(gt_of(31, 22)), 4) == GT::spow_steps(GT(gt_of(83, 55)), GT(gt_of(73, 72)), 2));
    lemma_gt_mul_at((73, 72), (73, 72), (44, 76), (1, 52));
    assert(GT::spow_steps(GT(gt_of(83, 55)), GT(gt_of(73, 72)), 2) == GT::spow_steps(GT(gt_of(83, 55)), GT(gt_of(44, 76)), 1));
    lemma_gt_mul_at((83, 55), (44, 76), (78, 3), (-6, 45));
    lemma_gt_mul_at((44, 76), (44, 76), (99, 3), (-39, 9));
    assert(GT::spow_steps(GT(gt_of(83, 55)), GT(gt_of(44, 76)), 1) == GT::spow_steps(GT(gt_of(78, 3)), GT(gt_of(99, 3)), 0));
}

/// The pairing of `13G` with the point `24 P` of the image of `H`.
proof fn lemma_pairing_13_24()
    ensures
        smiller_loop(g1p(65, 3), dq(26, 45)) is Some,
        spairing_at(g1p(65, 3), dq(26, 45)) == GT(gt_of(78, 3)),
{
    lemma_final_exponent();
    lemma_tangent_13_24();
    lemma_tangent_9_24();
    lemma_tangent_1_24();
    lemma_tangent_2_24();
    lemma_vertical_at(65, 98, 3, 26, 45);
    lemma_miller_at(
        g1p(65, 3),
        dq(26, 45),
        (g1p(18, 52), g1p(1, 2), g1p(68, 74), g1p(65, 98)),
        (66, 73),
        (69, 53),
        (12, 32),
        (65, 59),
        (-65, 26),
        ((37, 65, -10, 42), (17, 72, -9, 29), (54, 92, -49, -28), (27, 90, -23, -2)),
        ((2, 93, -73, -33), (97, 70, -54, 6), (56, 91, -81, -39)),
    );
    lemma_final_exp_13_24();
}

proof fn lemma_final_exp_14_24()
    ensures
        GT(gt_of(57, 31)).spow(600) == GT(gt_of(47, 80)),
{
    assert(GT::sone() == GT(gt_of(1, 0)));
    lemma_gt_mul_at((57, 31), (57, 31), (66, 48), (22, 25));
    assert(GT::spow_steps(GT(gt_of(1, 0)), GT(gt_of(57, 31)), 600) == GT::spow_steps(GT(gt_of(1, 0)), GT(gt_of(66, 48)), 300));
    lemma_gt_mul_at((66, 48), (66, 48), (32, 93), (20, 39));
    assert(GT::spow_steps(GT(gt_of(1, 0)), GT(gt_of(66, 48)), 300) == GT::spow_steps(GT(gt_of(1, 0)), GT(gt_of(32, 93)), 150));
    lemma_gt_mul_at((32, 93), (32, 93), (51, 30), (-76, -27));
    assert(GT::spow_steps(GT(gt_of(1, 0)), GT(gt_of(32, 93)), 150) == GT::spow_steps(GT(gt_of(1, 0)), GT(gt_of(51, 30)), 75));
    lemma_gt_mul_at((1, 0), (51, 30), (51, 30), (0, 0));
    lemma_gt_mul_at((51, 30), (51, 30), (85, 39), (16, 21));
    assert(GT::spow_steps(GT(gt_of(1, 0)), GT(gt_of(51, 30)), 75) == GT::spow_steps(GT(gt_of(51, 30)), GT(gt_of(85, 39)), 37));
    lemma_gt_mul_at((51, 30), (85, 39), (34, 36), (31, 33));
    lemma_gt_mul_at((85, 39), (85, 39), (48, 59), (56, 50));
    assert(GT::spow_steps(GT(gt_of(51, 30)), GT(gt_of(85, 39)), 37) == GT::spow_steps(GT(gt_of(34, 36)), GT(gt_of(48, 59)), 18));
    lemma_gt_mul_at((48, 59), (48, 59), (35, 62), (-12, 21));
    assert(GT::spow_steps(GT(gt_of(34, 36)), GT(gt_of(48, 59)), 18) == GT::spow_steps(GT(gt_of(34, 36)), GT(gt_of(35, 62)), 9));
    lemma_gt_mul_at((34, 36), (35, 62), (69, 25), (-11, 11));
    lemma_gt_mul_at((35, 62), (35, 62), (7, 92), (-26, 4));
    assert(GT::spow_steps(GT(gt_of(34, 36)), GT(gt_of(35, 62)), 9) == GT::spow_steps(GT(gt_of(69, 25)), GT(gt_of(7, 92)), 4));
    lemma_gt_mul_at((7, 92), (7, 92), (69, 96), (-84, -72));
    assert(GT::spow_steps(GT(gt_of(69, 25)), GT(gt_of(7, 92)), 4) == GT::spow_steps(GT(gt_of(69, 25)), GT(gt_of(69, 96)), 2));
    lemma_gt_mul_at((69, 96), (69, 96), (90, 93), (-45, 39));
    assert(GT::spow_steps(GT(gt_of(69, 25)), GT(gt_of(69, 96)), 2) == GT::spow_steps(GT(gt_of(69, 25)), GT(gt_of(90, 93)), 1));
    lemma_gt_mul_at((69, 25), (90, 93), (47, 80), (38, 62));
    lemma_gt_mul_at((90, 93), (90, 93), (57, 11), (-6, 80));
    assert(GT::spow_steps(GT(gt_of(69, 25)), GT(gt_of(90, 93)), 1) == GT::spow_steps(GT(gt_of(47, 80)), GT(gt_of(57, 11)), 0));
}

/// The pairing of `14G` with the point `24 P` of the image of `H`.
proof fn lemma_pairing_14_24()
    ensures
        smiller_loop(g1p(26, 56), dq(26, 45)) is Some,
        spairing_at(g1p(26, 56), dq(26, 45)) == GT(gt_of(47, 80)),
{
    lemma_final_exponent();
    lemma_tangent_14_24();
    lemma_tangent_11_24();
    lemma_tangent_5_24();
    lemma_tangent_10_24();
    lemma_vertical_at(26, 45, 56, 26, 45);
    lemma_miller_at(
        g1p(26, 56),
        dq(26, 45),
        (g1p(32, 59), g1p(12, 32), g1p(91, 66), g1p(26, 45)),
        (40, 61),
        (80, 73),
        (82, 59),
        (83, 61),
        (-26, 26),
        ((0, 48, -21, 11), (31, 33, -35, 3), (74, 48, -2, 9), (4, 16, 32, 54)),
        ((63, 74, -3, -2), (8, 17, 7, 54), (57, 31, -7, -7)),
    );
    lemma_final_exp_14_24();
}

proof fn lemma_final_exp_15_24()
    ensures
        GT(gt_of(71, 36)).spow(600) == GT(gt_of(14, 44)),
{
    assert(GT::sone() == GT(gt_of(1, 0)));
    lemma_gt_mul_at((71, 36), (71, 36), (8, 79), (37, 37));
    assert(GT::spow_steps(GT(gt_of(1, 0)), GT(gt_of(71, 36)), 600) == GT::spow_steps(GT(gt_of(1, 0)), GT(gt_of(8, 79)), 300));
    lemma_gt_mul_at((8, 79), (8, 79), (85, 73), (-62, -50));
    assert(GT::spow_steps(GT(gt_of(1, 0)), GT(gt_of(8, 79)), 300) == GT::spow_steps(GT(gt_of(1, 0)), GT(gt_of(85, 73)), 150));
    lemma_gt_mul_at((85, 73), (85, 73), (78, 11), (18, 70));
    assert(GT::spow_steps(GT(gt_of(1, 0)), GT(gt_of(85, 73)), 150) == GT::spow_steps(GT(gt_of(1, 0)), GT(gt_of(78, 11)), 75));
    lemma_gt_mul_at((1, 0), (78, 11), (78, 11), (0, 0));
    lemma_gt_mul_at((78, 11), (78, 11), (4, 80), (59, 15));
    assert(GT::spow_steps(GT(gt_of(1, 0)), GT(gt_of(78, 11)), 75) == GT::spow_steps(GT(gt_of(78, 11)), GT(gt_of(4, 80)), 37));
    lemma_gt_mul_at((78, 11), (4, 80), (38, 51), (-6, 53));
    lemma_gt_mul_at((4, 80), (4, 80), (80, 98), (-64, -58));
    assert(GT::spow_steps(GT(gt_of(78, 11)), GT(gt_of(4, 80)), 37) == GT::spow_steps(GT(gt_of(38, 51)), GT(gt_of(80, 98)), 18));
    lemma_gt_mul_at((80, 98), (80, 98), (28, 16), (-32, 60));
    assert(GT::spow_steps(GT(gt_of(38, 51)), GT(gt_of(80, 98)), 18) == GT::spow_steps(GT(gt_of(38, 51)), GT(gt_of(28, 16)), 9));
    lemma_gt_mul_at((38, 51), (28, 16), (46, 8), (2, 12));
    lemma_gt_mul_at((28, 16), (28, 16), (23, 34), (5, 6));
    assert(GT::spow_steps(GT(gt_of(38, 51)), GT(gt_of(28, 16)), 9) == GT::spow_steps(GT(gt_of(46, 8)), GT(gt_of(23, 34)), 4));
    lemma_gt_mul_at((23, 34), (23, 34), (80, 4), (-7, 4));
    assert(GT::spow_steps(GT(gt_of(46, 8)), GT(gt_of(23, 34)), 4) == GT::spow_steps(GT(gt_of(46, 8)), GT(gt_of(80, 4)), 2));
    lemma_gt_mul_at((80, 4), (80, 4), (21, 18), (63, 6));
    assert(GT::spow_steps(GT(gt_of(46, 8)), GT(gt_of(80, 4)), 2) == GT::spow_steps(GT(gt_of(46, 8)), GT(gt_of(21, 18)), 1));
    lemma_gt_mul_at((46, 8), (21, 18), (14, 44), (8, 8));
    lemma_gt_mul_at((21, 18), (21, 18), (16, 28), (1, 4));
    assert(GT::spow_steps(GT(gt_of(46, 8)), GT(gt_of(21, 18)), 1) == GT::spow_steps(GT(gt_of(14, 44)), GT(gt_of(16, 28)), 0));
}

/// The pairing of `15G` with the point `24 P` of the image of `H`.
proof fn lemma_pairing_15_24()
    ensures
        smiller_loop(g1p(68, 27), dq(26, 45)) is Some,
        spairing_at(g1p(68, 27), dq(26, 45)) == GT(gt_of(14, 44)),
{
    lemma_final_exponent();
    lemma_tangent_15_24();
    lemma_tangent_13_24();
    lemma_tangent_9_24();
    lemma_tangent_1_24();
    lemma_vertical_at(68, 74, 27, 26, 45);
    lemma_miller_at(
        g1p(68, 27),
        dq(26, 45),
        (g1p(65, 3), g1p(18, 52), g1p(1, 2), g1p(68, 74)),
        (24, 53),
        (66, 73),
        (69, 53),
        (12, 32),
        (-68, 26),
        ((90, 38, -23, -3), (35, 42, 31, 62), (67, 65, -6, 11), (67, 46, 11, 45)),
        ((50, 8, 23, 40), (41, 26, 3, 14), (71, 36, -35, -14)),
    );
    lemma_final_exp_15_24();
}

proof fn lemma_final_exp_16_24()
    ensures
        GT(gt_of(67, 21)).spow(600) == GT(gt_of(90, 62)),
{
    assert(GT::sone() == GT(gt_of(1, 0)));
    lemma_gt_mul_at((67, 21), (67, 21), (8, 50), (40, 23));
    assert(GT::spow_steps(GT(gt_of(1, 0)), GT(gt_of(67, 21)), 600) == GT::spow_steps(GT(gt_of(1, 0)), GT(gt_of(8, 50)), 300));
    lemma_gt_mul_at((8, 50), (8, 50), (89, 17), (-25, -17));
    assert(GT::spow_steps(GT(gt_of(1, 0)), GT(gt_of(8, 50)), 300) == GT::spow_steps(GT(gt_of(1, 0)), GT(gt_of(89, 17)), 150));
    lemma_gt_mul_at((89, 17), (89, 17), (57, 10), (75, 27));
    assert(GT::spow_steps(GT(gt_of(1, 0)), GT(gt_of(89, 17)), 150) == GT::spow_steps(GT(gt_of(1, 0)), GT(gt_of(57, 10)), 75));
    lemma_gt_mul_at((1, 0), (57, 10), (57, 10), (0, 0));
    lemma_gt_mul_at((57, 10), (57, 10), (18, 30), (31, 10));
    assert(GT::spow_steps(GT(gt_of(1, 0)), GT(gt_of(57, 10)), 75) == GT::spow_steps(GT(gt_of(57, 10)), GT(gt_of(18, 30)), 37));
    lemma_gt_mul_at((57, 10), (18, 30), (19, 75), (7, 15));
    lemma_gt_mul_at((18, 30), (18, 30), (30, 79), (-6, 1));
    assert(GT::spow_steps(GT(gt_of(57, 10)), GT(gt_of(18, 30)), 37) == GT::spow_steps(GT(gt_of(19, 75)), GT(gt_of(30, 79)), 18));
    lemma_gt_mul_at((30, 79), (30, 79), (12, 14), (-53, -15));
    assert(GT::spow_steps(GT(gt_of(19, 75)), GT(gt_of(30, 79)), 18) == GT::spow_steps(GT(gt_of(19, 75)), GT(gt_of(12, 14)), 9));
    lemma_gt_mul_at((19, 75), (12, 14), (87, 15), (-9, 1));
    lemma_gt_mul_at((12, 14), (12, 14), (49, 39), (-1, 1));
    assert(GT::spow_steps(GT(gt_of(19, 75)), GT(gt_of(12, 14)), 9) == GT::spow_steps(GT(gt_of(87, 15)), GT(gt_of(49, 39)), 4));
    lemma_gt_mul_at((49, 39), (49, 39), (72, 79), (8, 22));
    assert(GT::spow_steps(GT(gt_of(87, 15)), GT(gt_of(49, 39)), 4) == GT::spow_steps(GT(gt_of(87, 15)), GT(gt_of(72, 79)), 2));
    lemma_gt_mul_at((72, 79), (72, 79), (54, 85), (-11, 50));
    assert(GT::spow_steps(GT(gt_of(87, 15)), GT(gt_of(72, 79)), 2) == GT::spow_steps(GT(gt_of(87, 15)), GT(gt_of(54, 85)), 1));
    lemma_gt_mul_at((87, 15), (54, 85), (90, 62), (33, 68));
    lemma_gt_mul_at((54, 85), (54, 85), (34, 36), (-43, 19));
    assert(GT::spow_steps(GT(gt_of(87, 15)), GT(gt_of(54, 85)), 1) == GT::spow_steps(GT(gt_of(90, 62)), GT(gt_of(34, 36)), 0));
}

/// The pairing of `16G` with the point `24 P` of the image of `H`.
proof fn lemma_pairing_16_24()
    ensures
        smiller_loop(g1p(1, 99), dq(26, 45)) is Some,
        spairing_at(g1p(1, 99), dq(26, 45)) == GT(gt_of(90, 62)),
{
    lemma_final_exponent();
    lemma_tangent_16_24();
    lemma_tangent_15_24();
    lemma_tangent_13_24();
    lemma_tangent_9_24();
    lemma_vertical_at(1, 2, 99, 26, 45);
    lemma_miller_at(
        g1p(1, 99),
        dq(26, 45),
        (g1p(68, 27), g1p(65, 3), g1p(18, 52), g1p(1, 2)),
        (77, 27),
        (24, 53),
        (66, 73),
        (69, 53),
        (-1, 26),
        ((49, 96, 51, 33), (27, 15, -39, -2), (100, 80, 4, 5), (53, 74, 7, 66)),
        ((60, 45, -27, 23), (38, 62, 17, 38), (67, 21, -17, -7)),
    );
    lemma_final_exp_16_24();
}

proof fn lemma_final_exp_1_25()
    ensures
        GT(gt_of(59, 86)).spow(600) == GT(gt_of(42, 92)),
{
    assert(GT::sone() == GT(gt_of(1, 0)));
    lemma_gt_mul_at((59, 86), (59, 86), (24, 25), (-39, 27));
    assert(GT::spow_steps(GT(gt_of(1, 0)), GT(gt_of(59, 86)), 600) == GT::spow_steps(GT(gt_of(1, 0)), GT(gt_of(24, 25)), 300));
    lemma_gt_mul_at((24, 25), (24, 25), (52, 70), (-1, 5));
    assert(GT::spow_steps(GT(gt_of(1, 0)), GT(gt_of(24, 25)), 300) == GT::spow_steps(GT(gt_of(1, 0)), GT(gt_of(52, 70)), 150));
    lemma_gt_mul_at((52, 70), (52, 70), (26, 57), (-22, 23));
    assert(GT::spow_steps(GT(gt_of(1, 0)), GT(gt_of(52, 70)), 150) == GT::spow_steps(GT(gt_of(1, 0)), GT(gt_of(26, 57)), 75));
    lemma_gt_mul_at((1, 0), (26, 57), (26, 57), (0, 0));
    lemma_gt_mul_at((26, 57), (26, 57), (53, 18), (-26, -3));
    assert(GT::spow_steps(GT(gt_of(1, 0)), GT(gt_of(26, 57)), 75) == GT::spow_steps(GT(gt_of(26, 57)), GT(gt_of(53, 18)), 37));
    lemma_gt_mul_at((26, 57), (53, 18), (49, 39), (3, 24));
    lemma_gt_mul_at((53, 18), (53, 18), (61, 69), (24, 15));
    assert(GT::spow_steps(GT(gt_of(26, 57)), GT(gt_of(53, 18)), 37) == GT::spow_steps(GT(gt_of(49, 39)), GT(gt_of(61, 69)), 18));
    lemma_gt_mul_at((61, 69), (61, 69), (71, 21), (-11, 36));
    assert(GT::spow_steps(GT(gt_of(49, 39)), GT(gt_of(61, 69)), 18) == GT::spow_steps(GT(gt_of(49, 39)), GT(gt_of(71, 21)), 9));
    lemma_gt_mul_at((49, 39), (71, 21), (34, 50), (26, 29));
    lemma_gt_mul_at((71, 21), (71, 21), (55, 16), (45, 25));
    assert(GT::spow_steps(GT(gt_of(49, 39)), GT(gt_of(71, 21)), 9) == GT::spow_steps(GT(gt_of(34, 50)), GT(gt_of(55, 16)), 4));
    lemma_gt_mul_at((55, 16), (55, 16), (42, 90), (27, 14));
    assert(GT::spow_steps(GT(gt_of(34, 50)), GT(gt_of(55, 16)), 4) == GT::spow_steps(GT(gt_of(34, 50)), GT(gt_of(42, 90)), 2));
    lemma_gt_mul_at((42, 90), (42, 90), (27, 66), (-63, -6));
    assert(GT::spow_steps(GT(gt_of(34, 50)), GT(gt_of(42, 90)), 2) == GT::spow_steps(GT(gt_of(34, 50)), GT(gt_of(27, 66)), 1));
    lemma_gt_mul_at((34, 50), (27, 66), (42, 92), (-24, 2));
    lemma_gt_mul_at((27, 66), (27, 66), (9, 16), (-36, -8));
    assert(GT::spow_steps(GT(gt_of(34, 50)), GT(gt_of(27, 66)), 1) == GT::spow_steps(GT(gt_of(42, 92)), GT(gt_of(9, 16)), 0));
}

/// The pairing of `1G` with the point `25 P` of the image of `H`.
proof fn lemma_pairing_1_25()
    ensures
        smiller_loop(g1p(1, 2), dq(75, 100)) is Some,
        spairing_at(g1p(1, 2), dq(75, 100)) == GT(gt_of(42, 92)),
{
    lemma_final_exponent();
    lemma_tangent_1_25();
    lemma_tangent_2_25();
    lemma_tangent_4_25();
    lemma_tangent_8_25();
    lemma_vertical_at(1, 99, 2, 75, 100);
    lemma_miller_at(
        g1p(1, 2),
        dq(75, 100),
        (g1p(68, 74), g1p(65, 98), g1p(18, 49), g1p(1, 99)),
        (87, 7),
        (17, 29),
        (45, 35),
        (53, 5),
        (-1, 75),
        ((46, 58, 74, 11), (9, 32, -9, 6), (67, 57, -10, -5), (10, 87, 10, 28)),
        ((5, 29, -74, -58), (19, 3, 1, 14), (59, 86, -3, 11)),
    );
    lemma_final_exp_1_25();
}

proof fn lemma_final_exp_2_25()
    ensures
        GT(gt_of(8, 24)).spow(600) == GT(gt_of(67, 72)),
{
    assert(GT::sone() == GT(gt_of(1, 0)));
    lemma_gt_mul_at((8, 24), (8, 24), (94, 10), (-6, -2));
    assert(GT::spow_steps(GT(gt_of(1, 0)), GT(gt_of(8, 24)), 600) == GT::spow_steps(GT(gt_of(1, 0)), GT(gt_of(94, 10)), 300));
    lemma_gt_mul_at((94, 10), (94, 10), (50, 63), (86, 17));
    assert(GT::spow_steps(GT(gt_of(1, 0)), GT(gt_of(94, 10)), 300) == GT::spow_steps(GT(gt_of(1, 0)), GT(gt_of(50, 63)), 150));
    lemma_gt_mul_at((50, 63), (50, 63), (46, 8), (-15, 23));
    assert(GT::spow_steps(GT(gt_of(1, 0)), GT(gt_of(50, 63)), 150) == GT::spow_steps(GT(gt_of(1, 0)), GT(gt_of(46, 8)), 75));
    lemma_gt_mul_at((1, 0), (46, 8), (46, 8), (0, 0));
    lemma_gt_mul_at((46, 8), (46, 8), (32, 66), (20, 6));
    assert(GT::spow_steps(GT(gt_of(1, 0)), GT(gt_of(46, 8)), 75) == GT::spow_steps(GT(gt_of(46, 8)), GT(gt_of(32, 66)), 37));
    lemma_gt_mul_at((46, 8), (32, 66), (35, 37), (9, 27));
    lemma_gt_mul_at((32, 66), (32, 66), (1, 70), (-33, -2));
    assert(GT::spow_steps(GT(gt_of(46, 8)), GT(gt_of(32, 66)), 37) == GT::spow_steps(GT(gt_of(35, 37)), GT(gt_of(1, 70)), 18));
    lemma_gt_mul_at((1, 70), (1, 70), (50, 88), (-49, -48));
    assert(GT::spow_steps(GT(gt_of(35, 37)), GT(gt_of(1, 70)), 18) == GT::spow_steps(GT(gt_of(35, 37)), GT(gt_of(50, 88)), 9));
    lemma_gt_mul_at((35, 37), (50, 88), (9, 58), (-15, 16));
    lemma_gt_mul_at((50, 88), (50, 88), (8, 46), (-52, 10));
    assert(GT::spow_steps(GT(gt_of(35, 37)), GT(gt_of(50, 88)), 9) == GT::spow_steps(GT(gt_of(9, 58)), GT(gt_of(8, 46)), 4));
    lemma_gt_mul_at((8, 46), (8, 46), (69, 34), (-21, -14));
    assert(GT::spow_steps(GT(gt_of(9, 58)), GT(gt_of(8, 46)), 4) == GT::spow_steps(GT(gt_of(9, 58)), GT(gt_of(69, 34)), 2));
    lemma_gt_mul_at((69, 34), (69, 34), (70, 1), (35, 35));
    assert(GT::spow_steps(GT(gt_of(9, 58)), GT(gt_of(69, 34)), 2) == GT::spow_steps(GT(gt_of(9, 58)), GT(gt_of(70, 1)), 1));
    lemma_gt_mul_at((9, 58), (70, 1), (67, 72), (5, 39));
    lemma_gt_mul_at((70, 1), (70, 1), (51, 38), (48, 1));
    assert(GT::spow_steps(GT(gt_of(9, 58)), GT(gt_of(70, 1)), 1) == GT::spow_steps(GT(gt_of(67, 72)), GT(gt_of(51, 38)), 0));
}

/// The pairing of `2G` with the point `25 P` of the image of `H`.
proof fn lemma_pairing_2_25()
    ensures
        smiller_loop(g1p(68, 74), dq(75, 100)) is Some,
        spairing_at(g1p(68, 74), dq(75, 100)) == GT(gt_of(67, 72)),
{
    lemma_final_exponent();
    lemma_tangent_2_25();
    lemma_tangent_4_25();
    lemma_tangent_8_25();
    lemma_tangent_16_25();
    lemma_vertical_at(68, 27, 74, 75, 100);
    lemma_miller_at(
        g1p(68, 74),
        dq(75, 100),
        (g1p(65, 98), g1p(18, 49), g1p(1, 99), g1p(68, 27)),
        (17, 29),
        (45, 35),
        (53, 5),
        (87, 44),
        (-68, 75),
        ((54, 44, -6, 1), (82, 7, 8, 23), (9, 89, 66, 10), (32, 75, 0, 42)),
        ((45, 84, -46, -9), (17, 37, 2, 55), (8, 24, -39, -40)),
    );
    lemma_final_exp_2_25();
}

proof fn lemma_final_exp_3_25()
    ensures
        GT(gt_of(84, 66)).spow(600) == GT(gt_of(28, 39)),
{
    assert(GT::sone() == GT(gt_of(1, 0)));
    lemma_gt_mul_at((84, 66), (84, 66), (74, 66), (26, 66));
    assert(GT::spow_steps(GT(gt_of(1, 0)), GT(gt_of(84, 66)), 600) == GT::spow_steps(GT(gt_of(1, 0)), GT(gt_of(74, 66)), 300));
    lemma_gt_mul_at((74, 66), (74, 66), (9, 59), (11, 53));
    assert(GT::spow_steps(GT(gt_of(1, 0)), GT(gt_of(74, 66)), 300) == GT::spow_steps(GT(gt_of(1, 0)), GT(gt_of(9, 59)), 150));
    lemma_gt_mul_at((9, 59), (9, 59), (34, 5), (-34, -24));
    assert(GT::spow_steps(GT(gt_of(1, 0)), GT(gt_of(9, 59)), 150) == GT::spow_steps(GT(gt_of(1, 0)), GT(gt_of(34, 5)), 75));
    lemma_gt_mul_at((1, 0), (34, 5), (34, 5), (0, 0));
    lemma_gt_mul_at((34, 5), (34, 5), (20, 12), (11, 3));
    assert(GT::spow_steps(GT(gt_of(1, 0)), GT(gt_of(34, 5)), 75) == GT::spow_steps(GT(gt_of(34, 5)), GT(gt_of(20, 12)), 37));
    lemma_gt_mul_at((34, 5), (20, 12), (14, 44), (6, 4));
    lemma_gt_mul_at((20, 12), (20, 12), (54, 33), (2, 3));
    assert(GT::spow_steps(GT(gt_of(34, 5)), GT(gt_of(20, 12)), 37) == GT::spow_steps(GT(gt_of(14, 44)), GT(gt_of(54, 33)), 18));
    lemma_gt_mul_at((54, 33), (54, 33), (9, 51), (18, 24));
    assert(GT::spow_steps(GT(gt_of(14, 44)), GT(gt_of(54, 33)), 18) == GT::spow_steps(GT(gt_of(14, 44)), GT(gt_of(9, 51)), 9));
    lemma_gt_mul_at((14, 44), (9, 51), (3, 78), (-21, -12));
    lemma_gt_mul_at((9, 51), (9, 51), (5, 34), (-25, -17));
    assert(GT::spow_steps(GT(gt_of(14, 44)), GT(gt_of(9, 51)), 9) == GT::spow_steps(GT(gt_of(3, 78)), GT(gt_of(5, 34)), 4));
    lemma_gt_mul_at((5, 34), (5, 34), (81, 93), (-12, -9));
    assert(GT::spow_steps(GT(gt_of(3, 78)), GT(gt_of(5, 34)), 4) == GT::spow_steps(GT(gt_of(3, 78)), GT(gt_of(81, 93)), 2));
    lemma_gt_mul_at((81, 93), (81, 93), (33, 54), (-21, 63));
    assert(GT::spow_steps(GT(gt_of(3, 78)), GT(gt_of(81, 93)), 2) == GT::spow_steps(GT(gt_of(3, 78)), GT(gt_of(33, 54)), 1));
    lemma_gt_mul_at((3, 78), (33, 54), (28, 39), (-41, -15));
    lemma_gt_mul_at((33, 54), (33, 54), (92, 42), (-19, 6));
    assert(GT::spow_steps(GT(gt_of(3, 78)), GT(gt_of(33, 54)), 1) == GT::spow_steps(GT(gt_of(28, 39)), GT(gt_of(92, 42)), 0));
}

/// The pairing of `3G` with the point `25 P` of the image of `H`.
proof fn lemma_pairing_3_25()
    ensures
        smiller_loop(g1p(26, 45), dq(75, 100)) is Some,
        spairing_at(g1p(26, 45), dq(75, 100)) == GT(gt_of(28, 39)),
{
    lemma_final_exponent();
    lemma_tangent_3_25();
    lemma_tangent_6_25();
    lemma_tangent_12_25();
    lemma_tangent_7_25();
    lemma_vertical_at(26, 56, 45, 75, 100);
    lemma_miller_at(
        g1p(26, 45),
        dq(75, 100),
        (g1p(32, 42), g1p(12, 69), g1p(91, 35), g1p(26, 56)),
        (71, 75),
        (98, 17),
        (48, 34),
        (39, 6),
        (-26, 75),
        ((22, 76, -6, 49), (56, 66, 8, 64), (93, 6, -13, 30), (18, 14, 42, 32)),
        ((27, 5, 1, 3), (13, 24, 10, 3), (84, 66, -22, -15)),
    );
    lemma_final_exp_3_25();
}

proof fn lemma_final_exp_4_25()
    ensures
        GT(gt_of(28, 88)).spow(600) == GT(gt_of(12, 20)),
{
    assert(GT::sone() == GT(gt_of(1, 0)));
    lemma_gt_mul_at((28, 88), (28, 88), (9, 12), (-69, -28));
    assert(GT::spow_steps(GT(gt_of(1, 0)), GT(gt_of(28, 88)), 600) == GT::spow_steps(GT(gt_of(1, 0)), GT(gt_of(9, 12)), 300));
    lemma_gt_mul_at((9, 12), (9, 12), (38, 72), (-1, 0));
    assert(GT::spow_steps(GT(gt_of(1, 0)), GT(gt_of(9, 12)), 300) == GT::spow_steps(GT(gt_of(1, 0)), GT(gt_of(38, 72)), 150));
    lemma_gt_mul_at((38, 72), (38, 72), (98, 86), (-38, 2));
    assert(GT::spow_steps(GT(gt_of(1, 0)), GT(gt_of(38, 72)), 150) == GT::spow_steps(GT(gt_of(1, 0)), GT(gt_of(98, 86)), 75));
    lemma_gt_mul_at((1, 0), (98, 86), (98, 86), (0, 0));
    lemma_gt_mul_at((98, 86), (98, 86), (87, 67), (21, 93));
    assert(GT::spow_steps(GT(gt_of(1, 0)), GT(gt_of(98, 86)), 75) == GT::spow_steps(GT(gt_of(98, 86)), GT(gt_of(87, 67)), 37));
    lemma_gt_mul_at((98, 86), (87, 67), (37, 4), (27, 82));
    lemma_gt_mul_at((87, 67), (87, 67), (50, 99), (30, 70));
    assert(GT::spow_steps(GT(gt_of(98, 86)), GT(gt_of(87, 67)), 37) == GT::spow_steps(GT(gt_of(37, 4)), GT(gt_of(50, 99)), 18));
    lemma_gt_mul_at((50, 99), (50, 99), (72, 99), (-73, 0));
    assert(GT::spow_steps(GT(gt_of(37, 4)), GT(gt_of(50, 99)), 18) == GT::spow_steps(GT(gt_of(37, 4)), GT(gt_of(72, 99)), 9));
    lemma_gt_mul_at((37, 4), (72, 99), (46, 20), (22, 35));
    lemma_gt_mul_at((72, 99), (72, 99), (29, 11), (-46, 44));
    assert(GT::spow_steps(GT(gt_of(37, 4)), GT(gt_of(72, 99)), 9) == GT::spow_steps(GT(gt_of(46, 20)), GT(gt_of(29, 11)), 4));
    lemma_gt_mul_at((29, 11), (29, 11), (13, 12), (7, 5));
    assert(GT::spow_steps(GT(gt_of(46, 20)), GT(gt_of(29, 11)), 4) == GT::spow_steps(GT(gt_of(46, 20)), GT(gt_of(13, 12)), 2));
    lemma_gt_mul_at((13, 12), (13, 12), (25, 67), (0, 1));
    assert(GT::spow_steps(GT(gt_of(46, 20)), GT(gt_of(13, 12)), 2) == GT::spow_steps(GT(gt_of(46, 20)), GT(gt_of(25, 67)), 1));
    lemma_gt_mul_at((46, 20), (25, 67), (12, 20), (-2, 22));
    lemma_gt_mul_at((25, 67), (25, 67), (75, 73), (-39, -12));
    assert(GT::spow_steps(GT(gt_of(46, 20)), GT(gt_of(25, 67)), 1) == GT::spow_steps(GT(gt_of(12, 20)), GT(gt_of(75, 73)), 0));
}

/// The pairing of `4G` with the point `25 P` of the image of `H`.
proof fn lemma_pairing_4_25()
    ensures
        smiller_loop(g1p(65, 98), dq(75, 100)) is Some,
        spairing_at(g1p(65, 98), dq(75, 100)) == GT(gt_of(12, 20)),
{
    lemma_final_exponent();
    lemma_tangent_4_25();
    lemma_tangent_8_25();
    lemma_tangent_16_25();
    lemma_tangent_15_25();
    lemma_vertical_at(65, 3, 98, 75, 100);
    lemma_miller_at(
        g1p(65, 98),
        dq(75, 100),
        (g1p(18, 49), g1p(1, 99), g1p(68, 27), g1p(65, 3)),
        (45, 35),
        (53, 5),
        (87, 44),
        (37, 36),
        (-65, 75),
        ((93, 6, 7, 19), (51, 46, 48, 7), (81, 51, 4, 25), (56, 0, 47, 57)),
        ((5, 0, 31, 0), (84, 79, 1, 1), (28, 88, -113, -48)),
    );
    lemma_final_exp_4_25();
}

proof fn lemma_final_exp_5_25()
    ensures
        GT(gt_of(45, 12)).spow(600) == GT(gt_of(78, 3)),
{
    assert(GT::sone() == GT(gt_of(1, 0)));
    lemma_gt_mul_at((45, 12), (45, 12), (63, 27), (18, 9));
    assert(GT::spow_steps(GT(gt_of(1, 0)), GT(gt_of(45, 12)), 600) == GT::spow_steps(GT(gt_of(1, 0)), GT(gt_of(63, 27)), 300));
    lemma_gt_mul_at((63, 27), (63, 27), (8, 47), (32, 26));
    assert(GT::spow_steps(GT(gt_of(1, 0)), GT(gt_of(63, 27)), 300) == GT::spow_steps(GT(gt_of(1, 0)), GT(gt_of(8, 47)), 150));
    lemma_gt_mul_at((8, 47), (8, 47), (77, 58), (-22, -15));
    assert(GT::spow_steps(GT(gt_of(1, 0)), GT(gt_of(8, 47)), 150) == GT::spow_steps(GT(gt_of(1, 0)), GT(gt_of(77, 58)), 75));
    lemma_gt_mul_at((1, 0), (77, 58), (77, 58), (0, 0));
    lemma_gt_mul_at((77, 58), (77, 58), (40, 13), (25, 55));
    assert(GT::spow_steps(GT(gt_of(1, 0)), GT(gt_of(77, 58)), 75) == GT::spow_steps(GT(gt_of(77, 58)), GT(gt_of(40, 13)), 37));
    lemma_gt_mul_at((77, 58), (40, 13), (3, 42), (23, 25));
    lemma_gt_mul_at((40, 13), (40, 13), (17, 63), (14, 8));
    assert(GT::spow_steps(GT(gt_of(77, 58)), GT(gt_of(40, 13)), 37) == GT::spow_steps(GT(gt_of(3, 42)), GT(gt_of(17, 63)), 18));
    lemma_gt_mul_at((17, 63), (17, 63), (57, 92), (-37, -19));
    assert(GT::spow_steps(GT(gt_of(3, 42)), GT(gt_of(17, 63)), 18) == GT::spow_steps(GT(gt_of(3, 42)), GT(gt_of(57, 92)), 9));
    lemma_gt_mul_at((3, 42), (57, 92), (44, 18), (-37, -12));
    lemma_gt_mul_at((57, 92), (57, 92), (37, 4), (-52, 20));
    assert(GT::spow_steps(GT(gt_of(3, 42)), GT(gt_of(57, 92)), 9) == GT::spow_steps(GT(gt_of(44, 18)), GT(gt_of(37, 4)), 4));
    lemma_gt_mul_at((37, 4), (37, 4), (40, 78), (13, 2));
    assert(GT::spow_steps(GT(gt_of(44, 18)), GT(gt_of(37, 4)), 4) == GT::spow_steps(GT(gt_of(44, 18)), GT(gt_of(40, 78)), 2));
    lemma_gt_mul_at((40, 78), (40, 78), (61, 55), (-45, 1));
    assert(GT::spow_steps(GT(gt_of(44, 18)), GT(gt_of(40, 78)), 2) == GT::spow_steps(GT(gt_of(44, 18)), GT(gt_of(61, 55)), 1));
    lemma_gt_mul_at((44, 18), (61, 55), (78, 3), (16, 25));
    lemma_gt_mul_at((61, 55), (61, 55), (90, 49), (6, 36));
    assert(GT::spow_steps(GT(gt_of(44, 18)), GT(gt_of(61, 55)), 1) == GT::spow_steps(GT(gt_of(78, 3)), GT(gt_of(90, 49)), 0));
}

/// The pairing of `5G` with the point `25 P` of the image of `H`.
proof fn lemma_pairing_5_25()
    ensures
        smiller_loop(g1p(12, 32), dq(75, 100)) is Some,
        spairing_at(g1p(12, 32), dq(75, 100)) == GT(gt_of(78, 3)),
{
    lemma_final_exponent();
    lemma_tangent_5_25();
    lemma_tangent_10_25();
    lemma_tangent_3_25();
    lemma_tangent_6_25();
    lemma_vertical_at(12, 69, 32, 75, 100);
    lemma_miller_at(
        g1p(12, 32),
        dq(75, 100),
        (g1p(91, 66), g1p(26, 45), g1p(32, 42), g1p(12, 69)),
        (58, 65),
        (62, 25),
        (71, 75),
        (98, 17),
        (-12, 75),
        ((48, 83, -9, 32), (93, 29, 8, 42), (31, 8, 77, 45), (86, 71, 15, 22)),
        ((32, 0, 23, 71), (5, 39, 31, 5), (45, 12, -30, -30)),
    );
    lemma_final_exp_5_25();
}

proof fn lemma_final_exp_6_25()
    ensures
        GT(gt_of(66, 24)).spow(600) == GT(gt_of(71, 57)),
{
    assert(GT::sone() == GT(gt_of(1, 0)));
    lemma_gt_mul_at((66, 24), (66, 24), (43, 67), (37, 25));
    assert(GT::spow_steps(GT(gt_of(1, 0)), GT(gt_of(66, 24)), 600) == GT::spow_steps(GT(gt_of(1, 0)), GT(gt_of(43, 67)), 300));
    lemma_gt_mul_at((43, 67), (43, 67), (87, 61), (-27, 12));
    assert(GT::spow_steps(GT(gt_of(1, 0)), GT(gt_of(43, 67)), 300) == GT::spow_steps(GT(gt_of(1, 0)), GT(gt_of(87, 61)), 150));
    lemma_gt_mul_at((87, 61), (87, 61), (10, 25), (38, 68));
    assert(GT::spow_steps(GT(gt_of(1, 0)), GT(gt_of(87, 61)), 150) == GT::spow_steps(GT(gt_of(1, 0)), GT(gt_of(10, 25)), 75));
    lemma_gt_mul_at((1, 0), (10, 25), (10, 25), (0, 0));
    lemma_gt_mul_at((10, 25), (10, 25), (81, 77), (-6, -2));
    assert(GT::spow_steps(GT(gt_of(1, 0)), GT(gt_of(10, 25)), 75) == GT::spow_steps(GT(gt_of(10, 25)), GT(gt_of(81, 77)), 37));
    lemma_gt_mul_at((10, 25), (81, 77), (97, 62), (-12, 8));
    lemma_gt_mul_at((81, 77), (81, 77), (26, 81), (6, 64));
    assert(GT::spow_steps(GT(gt_of(10, 25)), GT(gt_of(81, 77)), 37) == GT::spow_steps(GT(gt_of(97, 62)), GT(gt_of(26, 81)), 18));
    lemma_gt_mul_at((26, 81), (26, 81), (74, 75), (-59, -24));
    assert(GT::spow_steps(GT(gt_of(97, 62)), GT(gt_of(26, 81)), 18) == GT::spow_steps(GT(gt_of(97, 62)), GT(gt_of(74, 75)), 9));
    lemma_gt_mul_at((97, 62), (74, 75), (3, 42), (25, 71));
    lemma_gt_mul_at((74, 75), (74, 75), (53, 21), (-2, 54));
    assert(GT::spow_steps(GT(gt_of(97, 62)), GT(gt_of(74, 75)), 9) == GT::spow_steps(GT(gt_of(3, 42)), GT(gt_of(53, 21)), 4));
    lemma_gt_mul_at((53, 21), (53, 21), (45, 68), (23, 17));
    assert(GT::spow_steps(GT(gt_of(3, 42)), GT(gt_of(53, 21)), 4) == GT::spow_steps(GT(gt_of(3, 42)), GT(gt_of(45, 68)), 2));
    lemma_gt_mul_at((45, 68), (45, 68), (27, 82), (-26, 14));
    assert(GT::spow_steps(GT(gt_of(3, 42)), GT(gt_of(45, 68)), 2) == GT::spow_steps(GT(gt_of(3, 42)), GT(gt_of(27, 82)), 1));
    lemma_gt_mul_at((3, 42), (27, 82), (71, 57), (-34, -21));
    lemma_gt_mul_at((27, 82), (27, 82), (65, 27), (-60, -23));
    assert(GT::spow_steps(GT(gt_of(3, 42)), GT(gt_of(27, 82)), 1) == GT::spow_steps(GT(gt_of(71, 57)), GT(gt_of(65, 27)), 0));
}

/// The pairing of `6G` with the point `25 P` of the image of `H`.
proof fn lemma_pairing_6_25()
    ensures
        smiller_loop(g1p(32, 42), dq(75, 100)) is Some,
        spairing_at(g1p(32, 42), dq(75, 100)) == GT(gt_of(71, 57)),
{
    lemma_final_exponent();
    lemma_tangent_6_25();
    lemma_tangent_12_25();
    lemma_tangent_7_25();
    lemma_tangent_14_25();
    lemma_vertical_at(32, 59, 42, 75, 100);
    lemma_miller_at(
        g1p(32, 42),
        dq(75, 100),
        (g1p(12, 69), g1p(91, 35), g1p(26, 56), g1p(32, 59)),
        (98, 17),
        (48, 34),
        (39, 6),
        (10, 79),
        (-32, 75),
        ((23, 13, 92, 30), (56, 55, 6, 9), (10, 4, 1, 31), (63, 91, 3, 1)),
        ((31, 54, -43, 31), (84, 36, -40, -13), (66, 24, -54, 24)),
    );
    lemma_final_exp_6_25();
}

proof fn lemma_final_exp_7_25()
    ensures
        GT(gt_of(68, 27)).spow(600) == GT(gt_of(61, 46)),
{
    assert(GT::sone() == GT(gt_of(1, 0)));
    lemma_gt_mul_at((68, 27), (68, 27), (57, 14), (38, 29));
    assert(GT::spow_steps(GT(gt_of(1, 0)), GT(gt_of(68, 27)), 600) == GT::spow_steps(GT(gt_of(1, 0)), GT(gt_of(57, 14)), 300));
    lemma_gt_mul_at((57, 14), (57, 14), (23, 87), (30, 13));
    assert(GT::spow_steps(GT(gt_of(1, 0)), GT(gt_of(57, 14)), 300) == GT::spow_steps(GT(gt_of(1, 0)), GT(gt_of(23, 87)), 150));
    lemma_gt_mul_at((23, 87), (23, 87), (30, 69), (-70, -36));
    assert(GT::spow_steps(GT(gt_of(1, 0)), GT(gt_of(23, 87)), 150) == GT::spow_steps(GT(gt_of(1, 0)), GT(gt_of(30, 69)), 75));
    lemma_gt_mul_at((1, 0), (30, 69), (30, 69), (0, 0));
    lemma_gt_mul_at((30, 69), (30, 69), (78, 86), (-39, -7));
    assert(GT::spow_steps(GT(gt_of(1, 0)), GT(gt_of(30, 69)), 75) == GT::spow_steps(GT(gt_of(30, 69)), GT(gt_of(78, 86)), 37));
    lemma_gt_mul_at((30, 69), (78, 86), (42, 8), (-36, 20));
    lemma_gt_mul_at((78, 86), (78, 86), (1, 61), (-13, 59));
    assert(GT::spow_steps(GT(gt_of(30, 69)), GT(gt_of(78, 86)), 37) == GT::spow_steps(GT(gt_of(42, 8)), GT(gt_of(1, 61)), 18));
    lemma_gt_mul_at((1, 61), (1, 61), (17, 37), (-37, -36));
    assert(GT::spow_steps(GT(gt_of(42, 8)), GT(gt_of(1, 61)), 18) == GT::spow_steps(GT(gt_of(42, 8)), GT(gt_of(17, 37)), 9));
    lemma_gt_mul_at((42, 8), (17, 37), (14, 81), (4, 13));
    lemma_gt_mul_at((17, 37), (17, 37), (31, 91), (-11, -2));
    assert(GT::spow_steps(GT(gt_of(42, 8)), GT(gt_of(17, 37)), 9) == GT::spow_steps(GT(gt_of(14, 81)), GT(gt_of(31, 91)), 4));
    lemma_gt_mul_at((31, 91), (31, 91), (53, 88), (-73, -27));
    assert(GT::spow_steps(GT(gt_of(14, 81)), GT(gt_of(31, 91)), 4) == GT::spow_steps(GT(gt_of(14, 81)), GT(gt_of(53, 88)), 2));
    lemma_gt_mul_at((53, 88), (53, 88), (14, 69), (-49, 15));
    assert(GT::spow_steps(GT(gt_of(14, 81)), GT(gt_of(53, 88)), 2) == GT::spow_steps(GT(gt_of(14, 81)), GT(gt_of(14, 69)), 1));
    lemma_gt_mul_at((14, 81), (14, 69), (61, 46), (-54, -35));
    lemma_gt_mul_at((14, 69), (14, 69), (81, 100), (-46, -29));
    assert(GT::spow_steps(GT(gt_of(14, 81)), GT(gt_of(14, 69)), 1) == GT::spow_steps(GT(gt_of(61, 46)), GT(gt_of(81, 100)), 0));
}

/// The pairing of `7G` with the point `25 P` of the image of `H`.
proof fn lemma_pairing_7_25()
    ensures
        smiller_loop(g1p(91, 35), dq(75, 100)) is Some,
        spairing_at(g1p(91, 35), dq(75, 100)) == GT(gt_of(61, 46)),
{
    lemma_final_exponent();
    lemma_tangent_7_25();
    lemma_tangent_14_25();
    lemma_tangent_11_25();
    lemma_tangent_5_25();
    lemma_vertical_at(91, 66, 35, 75, 100);
    lemma_miller_at(
        g1p(91, 35),
        dq(75, 100),
        (g1p(26, 56), g1p(32, 59), g1p(12, 32), g1p(91, 66)),
        (39, 6),
        (10, 79),
        (61, 33),
        (58, 65),
        (-91, 75),
        ((71, 28, 14, 4), (13, 41, -15, 36), (3, 92, -15, -7), (76, 49, -29, 26)),
        ((42, 98, 33, 49), (5, 24, -39, 20), (68, 27, -23, -36)),
    );
    lemma_final_exp_7_25();
}

proof fn lemma_final_exp_8_25()
    ensures
        GT(gt_of(56, 18)).spow(600) == GT(gt_of(47, 80)),
{
    assert(GT::sone() == GT(gt_of(1, 0)));
    lemma_gt_mul_at((56, 18), (56, 18), (85, 76), (27, 16));
    assert(GT::spow_steps(GT(gt_of(1, 0)), GT(gt_of(56, 18)), 600) == GT::spow_steps(GT(gt_of(1, 0)), GT(gt_of(85, 76)), 300));
    lemma_gt_mul_at((85, 76), (85, 76), (35, 74), (14, 70));
    assert(GT::spow_steps(GT(gt_of(1, 0)), GT(gt_of(85, 76)), 300) == GT::spow_steps(GT(gt_of(1, 0)), GT(gt_of(35, 74)), 150));
    lemma_gt_mul_at((35, 74), (35, 74), (92, 7), (-43, -3));
    assert(GT::spow_steps(GT(gt_of(1, 0)), GT(gt_of(35, 74)), 150) == GT::spow_steps(GT(gt_of(1, 0)), GT(gt_of(92, 7)), 75));
    lemma_gt_mul_at((1, 0), (92, 7), (92, 7), (0, 0));
    lemma_gt_mul_at((92, 7), (92, 7), (32, 27), (83, 12));
    assert(GT::spow_steps(GT(gt_of(1, 0)), GT(gt_of(92, 7)), 75) == GT::spow_steps(GT(gt_of(92, 7)), GT(gt_of(32, 27)), 37));
    lemma_gt_mul_at((92, 7), (32, 27), (28, 95), (27, 24));
    lemma_gt_mul_at((32, 27), (32, 27), (93, 90), (2, 9));
    assert(GT::spow_steps(GT(gt_of(92, 7)), GT(gt_of(32, 27)), 37) == GT::spow_steps(GT(gt_of(28, 95)), GT(gt_of(93, 90)), 18));
    lemma_gt_mul_at((93, 90), (93, 90), (44, 55), (5, 85));
    assert(GT::spow_steps(GT(gt_of(28, 95)), GT(gt_of(93, 90)), 18) == GT::spow_steps(GT(gt_of(28, 95)), GT(gt_of(44, 55)), 9));
    lemma_gt_mul_at((28, 95), (44, 55), (47, 91), (-40, 4));
    lemma_gt_mul_at((44, 55), (44, 55), (22, 98), (-11, 17));
    assert(GT::spow_steps(GT(gt_of(28, 95)), GT(gt_of(44, 55)), 9) == GT::spow_steps(GT(gt_of(47, 91)), GT(gt_of(22, 98)), 4));
    lemma_gt_mul_at((22, 98), (22, 98), (71, 61), (-91, -53));
    assert(GT::spow_steps(GT(gt_of(47, 91)), GT(gt_of(22, 98)), 4) == GT::spow_steps(GT(gt_of(47, 91)), GT(gt_of(71, 61)), 2));
    lemma_gt_mul_at((71, 61), (71, 61), (7, 93), (13, 48));
    assert(GT::spow_steps(GT(gt_of(47, 91)), GT(gt_of(71, 61)), 2) == GT::spow_steps(GT(gt_of(47, 91)), GT(gt_of(7, 93)), 1));
    lemma_gt_mul_at((47, 91), (7, 93), (47, 80), (-81, -35));
    lemma_gt_mul_at((7, 93), (7, 93), (86, 26), (-86, -73));
    assert(GT::spow_steps(GT(gt_of(47, 91)), GT(gt_of(7, 93)), 1) == GT::spow_steps(GT(gt_of(47, 80)), GT(gt_of(86, 26)), 0));
}

/// The pairing of `8G` with the point `25 P` of the image of `H`.
proof fn lemma_pairing_8_25()
    ensures
        smiller_loop(g1p(18, 49), dq(75, 100)) is Some,
        spairing_at(g1p(18, 49), dq(75, 100)) == GT(gt_of(47, 80)),
{
    lemma_final_exponent();
    lemma_tangent_8_25();
    lemma_tangent_16_25();
    lemma_tangent_15_25();
    lemma_tangent_13_25();
    lemma_vertical_at(18, 52, 49, 75, 100);
    lemma_miller_at(
        g1p(18, 49),
        dq(75, 100),
        (g1p(1, 99), g1p(68, 27), g1p(65, 3), g1p(18, 52)),
        (53, 5),
        (87, 44),
        (37, 36),
        (18, 94),
        (-18, 75),
        ((57, 0, 27, 5), (10, 84, 49, 24), (13, 78, -69, -54), (97, 41, -24, 5)),
        ((52, 11, 76, 62), (3, 12, -1, 40), (56, 18, -10, -9)),
    );
    lemma_final_exp_8_25();
}

proof fn lemma_final_exp_9_25()
    ensures
        GT(gt_of(89, 53)).spow(600) == GT(gt_of(68, 21)),
{
    assert(GT::sone() == GT(gt_of(1, 0)));
    lemma_gt_mul_at((89, 53), (89, 53), (62, 60), (50, 65));
    assert(GT::spow_steps(GT(gt_of(1, 0)), GT(gt_of(89, 53)), 600) == GT::spow_steps(GT(gt_of(1, 0)), GT(gt_of(62, 60)), 300));
    lemma_gt_mul_at((62, 60), (62, 60), (42, 2), (2, 38));
    assert(GT::spow_steps(GT(gt_of(1, 0)), GT(gt_of(62, 60)), 300) == GT::spow_steps(GT(gt_of(1, 0)), GT(gt_of(42, 2)), 150));
    lemma_gt_mul_at((42, 2), (42, 2), (43, 63), (17, 1));
    assert(GT::spow_steps(GT(gt_of(1, 0)), GT(gt_of(42, 2)), 150) == GT::spow_steps(GT(gt_of(1, 0)), GT(gt_of(43, 63)), 75));
    lemma_gt_mul_at((1, 0), (43, 63), (43, 63), (0, 0));
    lemma_gt_mul_at((43, 63), (43, 63), (1, 35), (-21, 14));
    assert(GT::spow_steps(GT(gt_of(1, 0)), GT(gt_of(43, 63)), 75) == GT::spow_steps(GT(gt_of(43, 63)), GT(gt_of(1, 35)), 37));
    lemma_gt_mul_at((43, 63), (1, 35), (60, 70), (-22, -7));
    lemma_gt_mul_at((1, 35), (1, 35), (89, 57), (-13, -12));
    assert(GT::spow_steps(GT(gt_of(43, 63)), GT(gt_of(1, 35)), 37) == GT::spow_steps(GT(gt_of(60, 70)), GT(gt_of(89, 57)), 18));
    lemma_gt_mul_at((89, 57), (89, 57), (26, 29), (46, 68));
    assert(GT::spow_steps(GT(gt_of(60, 70)), GT(gt_of(89, 57)), 18) == GT::spow_steps(GT(gt_of(60, 70)), GT(gt_of(26, 29)), 9));
    lemma_gt_mul_at((60, 70), (26, 29), (35, 15), (-5, 15));
    lemma_gt_mul_at((26, 29), (26, 29), (37, 61), (-2, 6));
    assert(GT::spow_steps(GT(gt_of(60, 70)), GT(gt_of(26, 29)), 9) == GT::spow_steps(GT(gt_of(35, 15)), GT(gt_of(37, 61)), 4));
    lemma_gt_mul_at((37, 61), (37, 61), (72, 86), (-24, 7));
    assert(GT::spow_steps(GT(gt_of(35, 15)), GT(gt_of(37, 61)), 4) == GT::spow_steps(GT(gt_of(35, 15)), GT(gt_of(72, 86)), 2));
    lemma_gt_mul_at((72, 86), (72, 86), (10, 39), (-22, 49));
    assert(GT::spow_steps(GT(gt_of(35, 15)), GT(gt_of(72, 86)), 2) == GT::spow_steps(GT(gt_of(35, 15)), GT(gt_of(10, 39)), 1));
    lemma_gt_mul_at((35, 15), (10, 39), (68, 21), (-3, 9));
    lemma_gt_mul_at((10, 39), (10, 39), (94, 67), (-15, -8));
    assert(GT::spow_steps(GT(gt_of(35, 15)), GT(gt_of(10, 39)), 1) == GT::spow_steps(GT(gt_of(68, 21)), GT(gt_of(94, 67)), 0));
}

/// The pairing of `9G` with the point `25 P` of the image of `H`.
proof fn lemma_pairing_9_25()
    ensures
        smiller_loop(g1p(18, 52), dq(75, 100)) is Some,
        spairing_at(g1p(18, 52), dq(75, 100)) == GT(gt_of(68, 21)),
{
    lemma_final_exponent();
    lemma_tangent_9_25();
    lemma_tangent_1_25();
    lemma_tangent_2_25();
    lemma_tangent_4_25();
    lemma_vertical_at(18, 49, 52, 75, 100);
    lemma_miller_at(
        g1p(18, 52),
        dq(75, 100),
        (g1p(1, 2), g1p(68, 74), g1p(65, 98), g1p(18, 49)),
        (2, 32),
        (87, 7),
        (17, 29),
        (45, 35),
        (-18, 75),
        ((91, 13, -11, -9), (49, 61, 77, 16), (94, 35, -14, 22), (78, 84, 5, 22)),
        ((38, 89, -10, 59), (9, 99, -14, 21), (89, 53, -76, -85)),
    );
    lemma_final_exp_9_25();
}

proof fn lemma_final_exp_10_25()
    ensures
        GT(gt_of(88, 51)).spow(600) == GT(gt_of(15, 55)),
{
    assert(GT::sone() == GT(gt_of(1, 0)));
    lemma_gt_mul_at((88, 51), (88, 51), (93, 12), (50, 63));
    assert(GT::spow_steps(GT(gt_of(1, 0)), GT(gt_of(88, 51)), 600) == GT::spow_steps(GT(gt_of(1, 0)), GT(gt_of(93, 12)), 300));
    lemma_gt_mul_at((93, 12), (93, 12), (21, 68), (84, 20));
    assert(GT::spow_steps(GT(gt_of(1, 0)), GT(gt_of(93, 12)), 300) == GT::spow_steps(GT(gt_of(1, 0)), GT(gt_of(21, 68)), 150));
    lemma_gt_mul_at((21, 68), (21, 68), (59, 50), (-42, -18));
    assert(GT::spow_steps(GT(gt_of(1, 0)), GT(gt_of(21, 68)), 150) == GT::spow_steps(GT(gt_of(1, 0)), GT(gt_of(59, 50)), 75));
    lemma_gt_mul_at((1, 0), (59, 50), (59, 50), (0, 0));
    lemma_gt_mul_at((59, 50), (59, 50), (72, 67), (9, 33));
    assert(GT::spow_steps(GT(gt_of(1, 0)), GT(gt_of(59, 50)), 75) == GT::spow_steps(GT(gt_of(59, 50)), GT(gt_of(72, 67)), 37));
    lemma_gt_mul_at((59, 50), (72, 67), (90, 62), (8, 41));
    lemma_gt_mul_at((72, 67), (72, 67), (89, 8), (6, 51));
    assert(GT::spow_steps(GT(gt_of(59, 50)), GT(gt_of(72, 67)), 37) == GT::spow_steps(GT(gt_of(90, 62)), GT(gt_of(89, 8)), 18));
    lemma_gt_mul_at((89, 8), (89, 8), (80, 47), (77, 13));
    assert(GT::spow_steps(GT(gt_of(90, 62)), GT(gt_of(89, 8)), 18) == GT::spow_steps(GT(gt_of(90, 62)), GT(gt_of(80, 47)), 9));
    lemma_gt_mul_at((90, 62), (80, 47), (44, 14), (42, 62));
    lemma_gt_mul_at((80, 47), (80, 47), (50, 59), (41, 52));
    assert(GT::spow_steps(GT(gt_of(90, 62)), GT(gt_of(80, 47)), 9) == GT::spow_steps(GT(gt_of(44, 14)), GT(gt_of(50, 59)), 4));
    lemma_gt_mul_at((50, 59), (50, 59), (29, 96), (-10, 23));
    assert(GT::spow_steps(GT(gt_of(44, 14)), GT(gt_of(50, 59)), 4) == GT::spow_steps(GT(gt_of(44, 14)), GT(gt_of(29, 96)), 2));
    lemma_gt_mul_at((29, 96), (29, 96), (8, 89), (-83, -37));
    assert(GT::spow_steps(GT(gt_of(44, 14)), GT(gt_of(29, 96)), 2) == GT::spow_steps(GT(gt_of(44, 14)), GT(gt_of(8, 89)), 1));
    lemma_gt_mul_at((44, 14), (8, 89), (15, 55), (-9, 27));
    lemma_gt_mul_at((8, 89), (8, 89), (21, 68), (-78, -65));
    assert(GT::spow_steps(GT(gt_of(44, 14)), GT(gt_of(8, 89)), 1) == GT::spow_steps(GT(gt_of(15, 55)), GT(gt_of(21, 68)), 0));
}

/// The pairing of `10G` with the point `25 P` of the image of `H`.
proof fn lemma_pairing_10_25()
    ensures
        smiller_loop(g1p(91, 66), dq(75, 100)) is Some,
        spairing_at(g1p(91, 66), dq(75, 100)) == GT(gt_of(15, 55)),
{
    lemma_final_exponent();
    lemma_tangent_10_25();
    lemma_tangent_3_25();
    lemma_tangent_6_25();
    lemma_tangent_12_25();
    lemma_vertical_at(91, 35, 66, 75, 100);
    lemma_miller_at(
        g1p(91, 66),
        dq(75, 100),
        (g1p(26, 45), g1p(32, 42), g1p(12, 69), g1p(91, 35)),
        (62, 25),
        (71, 75),
        (98, 17),
        (48, 34),
        (-91, 75),
        ((88, 51, 31, 24), (100, 33, 23, 63), (23, 57, 88, 54), (73, 59, 12, 49)),
        ((30, 83, 18, 50), (32, 61, -14, 21), (88, 51, -75, -77)),
    );
    lemma_final_exp_10_25();
}

proof fn lemma_final_exp_11_25()
    ensures
        GT(gt_of(15, 18)).spow(600) == GT(gt_of(14, 44)),
{
    assert(GT::sone() == GT(gt_of(1, 0)));
    lemma_gt_mul_at((15, 18), (15, 18), (2, 14), (-1, 2));
    assert(GT::spow_steps(GT(gt_of(1, 0)), GT(gt_of(15, 18)), 600) == GT::spow_steps(GT(gt_of(1, 0)), GT(gt_of(2, 14)), 300));
    lemma_gt_mul_at((2, 14), (2, 14), (10, 62), (-2, -2));
    assert(GT::spow_steps(GT(gt_of(1, 0)), GT(gt_of(2, 14)), 300) == GT::spow_steps(GT(gt_of(1, 0)), GT(gt_of(10, 62)), 150));
    lemma_gt_mul_at((10, 62), (10, 62), (94, 22), (-38, -26));
    assert(GT::spow_steps(GT(gt_of(1, 0)), GT(gt_of(10, 62)), 150) == GT::spow_steps(GT(gt_of(1, 0)), GT(gt_of(94, 22)), 75));
    lemma_gt_mul_at((1, 0), (94, 22), (94, 22), (0, 0));
    lemma_gt_mul_at((94, 22), (94, 22), (70, 16), (82, 36));
    assert(GT::spow_steps(GT(gt_of(1, 0)), GT(gt_of(94, 22)), 75) == GT::spow_steps(GT(gt_of(94, 22)), GT(gt_of(70, 16)), 37));
    lemma_gt_mul_at((94, 22), (70, 16), (67, 66), (61, 26));
    lemma_gt_mul_at((70, 16), (70, 16), (99, 65), (45, 19));
    assert(GT::spow_steps(GT(gt_of(94, 22)), GT(gt_of(70, 16)), 37) == GT::spow_steps(GT(gt_of(67, 66)), GT(gt_of(99, 65)), 18));
    lemma_gt_mul_at((99, 65), (99, 65), (21, 60), (55, 85));
    assert(GT::spow_steps(GT(gt_of(67, 66)), GT(gt_of(99, 65)), 18) == GT::spow_steps(GT(gt_of(67, 66)), GT(gt_of(21, 60)), 9));
    lemma_gt_mul_at((67, 66), (21, 60), (73, 32), (-26, 14));
    lemma_gt_mul_at((21, 60), (21, 60), (73, 31), (-32, -11));
    assert(GT::spow_steps(GT(gt_of(67, 66)), GT(gt_of(21, 60)), 9) == GT::spow_steps(GT(gt_of(73, 32)), GT(gt_of(73, 31)), 4));
    lemma_gt_mul_at((73, 31), (73, 31), (25, 30), (43, 35));
    assert(GT::spow_steps(GT(gt_of(73, 32)), GT(gt_of(73, 31)), 4) == GT::spow_steps(GT(gt_of(73, 32)), GT(gt_of(25, 30)), 2));
    lemma_gt_mul_at((25, 30), (25, 30), (28, 95), (-3, 5));
    assert(GT::spow_steps(GT(gt_of(73, 32)), GT(gt_of(25, 30)), 2) == GT::spow_steps(GT(gt_of(73, 32)), GT(gt_of(28, 95)), 1));
    lemma_gt_mul_at((73, 32), (28, 95), (14, 44), (-10, 47));
    lemma_gt_mul_at((28, 95), (28, 95), (41, 32), (-82, -37));
    assert(GT::spow_steps(GT(gt_of(73, 32)), GT(gt_of(28, 95)), 1) == GT::spow_steps(GT(gt_of(14, 44)), GT(gt_of(41, 32)), 0));
}

/// The pairing of `11G` with the point `25 P` of the image of `H`.
proof fn lemma_pairing_11_25()
    ensures
        smiller_loop(g1p(32, 59), dq(75, 100)) is Some,
        spairing_at(g1p(32, 59), dq(75, 100)) == GT(gt_of(14, 44)),
{
    lemma_final_exponent();
    lemma_tangent_11_25();
    lemma_tangent_5_25();
    lemma_tangent_10_25();
    lemma_tangent_3_25();
    lemma_vertical_at(32, 42, 59, 75, 100);
    lemma_miller_at(
        g1p(32, 59),
        dq(75, 100),
        (g1p(12, 32), g1p(91, 66), g1p(26, 45), g1p(32, 42)),
        (61, 33),
        (58, 65),
        (62, 25),
        (71, 75),
        (-32, 75),
        ((6, 8, 26, 29), (30, 31, -2, 3), (40, 91, -1, 8), (3, 24, 2, 43)),
        ((39, 73, -6, -5), (21, 7, -27, 26), (15, 18, -12, 8)),
    );
    lemma_final_exp_11_25();
}

proof fn lemma_final_exp_12_25()
    ensures
        GT(gt_of(24, 22)).spow(600) == GT(gt_of(75, 98)),
{
    assert(GT::sone() == GT(gt_of(1, 0)));
    lemma_gt_mul_at((24, 22), (24, 22), (92, 67), (0, 5));
    assert(GT::spow_steps(GT(gt_of(1, 0)), GT(gt_of(24, 22)), 600) == GT::spow_steps(GT(gt_of(1, 0)), GT(gt_of(92, 67)), 300));
    lemma_gt_mul_at((92, 67), (92, 67), (36, 62), (39, 77));
    assert(GT::spow_steps(GT(gt_of(1, 0)), GT(gt_of(92, 67)), 300) == GT::spow_steps(GT(gt_of(1, 0)), GT(gt_of(36, 62)), 150));
    lemma_gt_mul_at((36, 62), (36, 62), (78, 14), (-26, 6));
    assert(GT::spow_steps(GT(gt_of(1, 0)), GT(gt_of(36, 62)), 150) == GT::spow_steps(GT(gt_of(1, 0)), GT(gt_of(78, 14)), 75));
    lemma_gt_mul_at((1, 0), (78, 14), (78, 14), (0, 0));
    lemma_gt_mul_at((78, 14), (78, 14), (30, 69), (58, 19));
    assert(GT::spow_steps(GT(gt_of(1, 0)), GT(gt_of(78, 14)), 75) == GT::spow_steps(GT(gt_of(78, 14)), GT(gt_of(30, 69)), 37));
    lemma_gt_mul_at((78, 14), (30, 69), (61, 89), (13, 47));
    lemma_gt_mul_at((30, 69), (30, 69), (78, 86), (-39, -7));
    assert(GT::spow_steps(GT(gt_of(78, 14)), GT(gt_of(30, 69)), 37) == GT::spow_steps(GT(gt_of(61, 89)), GT(gt_of(78, 86)), 18));
    lemma_gt_mul_at((78, 86), (78, 86), (1, 61), (-13, 59));
    assert(GT::spow_steps(GT(gt_of(61, 89)), GT(gt_of(78, 86)), 18) == GT::spow_steps(GT(gt_of(61, 89)), GT(gt_of(1, 61)), 9));
    lemma_gt_mul_at((61, 89), (1, 61), (86, 98), (-54, -17));
    lemma_gt_mul_at((1, 61), (1, 61), (17, 37), (-37, -36));
    assert(GT::spow_steps(GT(gt_of(61, 89)), GT(gt_of(1, 61)), 9) == GT::spow_steps(GT(gt_of(86, 98)), GT(gt_of(17, 37)), 4));
    lemma_gt_mul_at((17, 37), (17, 37), (31, 91), (-11, -2));
    assert(GT::spow_steps(GT(gt_of(86, 98)), GT(gt_of(17, 37)), 4) == GT::spow_steps(GT(gt_of(86, 98)), GT(gt_of(31, 91)), 2));
    lemma_gt_mul_at((31, 91), (31, 91), (53, 88), (-73, -27));
    assert(GT::spow_steps(GT(gt_of(86, 98)), GT(gt_of(31, 91)), 2) == GT::spow_steps(GT(gt_of(86, 98)), GT(gt_of(53, 88)), 1));
    lemma_gt_mul_at((86, 98), (53, 88), (75, 98), (-41, 40));
    lemma_gt_mul_at((53, 88), (53, 88), (14, 69), (-49, 15));
    assert(GT::spow_steps(GT(gt_of(86, 98)), GT(gt_of(53, 88)), 1) == GT::spow_steps(GT(gt_of(75, 98)), GT(gt_of(14, 69)), 0));
}

/// The pairing of `12G` with the point `25 P` of the image of `H`.
proof fn lemma_pairing_12_25()
    ensures
        smiller_loop(g1p(12, 69), dq(75, 100)) is Some,
        spairing_at(g1p(12, 69), dq(75, 100)) == GT(gt_of(75, 98)),
{
    lemma_final_exponent();
    lemma_tangent_12_25();
    lemma_tangent_7_25();
    lemma_tangent_14_25();
    lemma_tangent_11_25();
    lemma_vertical_at(12, 32, 69, 75, 100);
    lemma_miller_at(
        g1p(12, 69),
        dq(75, 100),
        (g1p(91, 35), g1p(26, 56), g1p(32, 59), g1p(12, 32)),
        (48, 34),
        (39, 6),
        (10, 79),
        (61, 33),
        (-12, 75),
        ((37, 88, 11, 20), (6, 96, 9, 30), (11, 16, -91, -80), (58, 68, -12, -3)),
        ((53, 32, -13, 32), (56, 19, 21, 26), (24, 22, -21, 25)),
    );
    lemma_final_exp_12_25();
}

proof fn lemma_final_exp_13_25()
    ensures
        GT(gt_of(63, 67)).spow(600) == GT(gt_of(93, 81)),
{
    assert(GT::sone() == GT(gt_of(1, 0)));
    lemma_gt_mul_at((63, 67), (63, 67), (86, 14), (-6, 39));
    assert(GT::spow_steps(GT(gt_of(1, 0)), GT(gt_of(63, 67)), 600) == GT::spow_steps(GT(gt_of(1, 0)), GT(gt_of(86, 14)), 300));
    lemma_gt_mul_at((86, 14), (86, 14), (29, 91), (71, 21));
    assert(GT::spow_steps(GT(gt_of(1, 0)), GT(gt_of(86, 14)), 300) == GT::spow_steps(GT(gt_of(1, 0)), GT(gt_of(29, 91)), 150));
    lemma_gt_mul_at((29, 91), (29, 91), (34, 27), (-74, -30));
    assert(GT::spow_steps(GT(gt_of(1, 0)), GT(gt_of(29, 91)), 150) == GT::spow_steps(GT(gt_of(1, 0)), GT(gt_of(34, 27)), 75));
    lemma_gt_mul_at((1, 0), (34, 27), (34, 27), (0, 0));
    lemma_gt_mul_at((34, 27), (34, 27), (23, 97), (4, 10));
    assert(GT::spow_steps(GT(gt_of(1, 0)), GT(gt_of(34, 27)), 75) == GT::spow_steps(GT(gt_of(34, 27)), GT(gt_of(23, 97)), 37));
    lemma_gt_mul_at((34, 27), (23, 97), (82, 88), (-19, 12));
    lemma_gt_mul_at((23, 97), (23, 97), (8, 2), (-88, -49));
    assert(GT::spow_steps(GT(gt_of(34, 27)), GT(gt_of(23, 97)), 37) == GT::spow_steps(GT(gt_of(82, 88)), GT(gt_of(8, 2)), 18));
    lemma_gt_mul_at((8, 2), (8, 2), (60, 28), (0, 0));
    assert(GT::spow_steps(GT(gt_of(82, 88)), GT(gt_of(8, 2)), 18) == GT::spow_steps(GT(gt_of(82, 88)), GT(gt_of(60, 28)), 9));
    lemma_gt_mul_at((82, 88), (60, 28), (32, 62), (24, 50));
    lemma_gt_mul_at((60, 28), (60, 28), (89, 51), (27, 25));
    assert(GT::spow_steps(GT(gt_of(82, 88)), GT(gt_of(60, 28)), 9) == GT::spow_steps(GT(gt_of(32, 62)), GT(gt_of(89, 51)), 4));
    lemma_gt_mul_at((89, 51), (89, 51), (68, 13), (52, 64));
    assert(GT::spow_steps(GT(gt_of(32, 62)), GT(gt_of(89, 51)), 4) == GT::spow_steps(GT(gt_of(32, 62)), GT(gt_of(68, 13)), 2));
    lemma_gt_mul_at((68, 13), (68, 13), (11, 84), (44, 15));
    assert(GT::spow_steps(GT(gt_of(32, 62)), GT(gt_of(68, 13)), 2) == GT::spow_steps(GT(gt_of(32, 62)), GT(gt_of(11, 84)), 1));
    lemma_gt_mul_at((32, 62), (11, 84), (93, 81), (-49, -19));
    lemma_gt_mul_at((11, 84), (11, 84), (34, 44), (-69, -52));
    assert(GT::spow_steps(GT(gt_of(32, 62)), GT(gt_of(11, 84)), 1) == GT::spow_steps(GT(gt_of(93, 81)), GT(gt_of(34, 44)), 0));
}

/// The pairing of `13G` with the point `25 P` of the image of `H`.
proof fn lemma_pairing_13_25()
    ensures
        smiller_loop(g1p(65, 3), dq(75, 100)) is Some,
        spairing_at(g1p(65, 3), dq(75, 100)) == GT(gt_of(93, 81)),
{
    lemma_final_exponent();
    lemma_tangent_13_25();
    lemma_tangent_9_25();
    lemma_tangent_1_25();
    lemma_tangent_2_25();
    lemma_vertical_at(65, 98, 3, 75, 100);
    lemma_miller_at(
        g1p(65, 3),
        dq(75, 100),
        (g1p(18, 52), g1p(1, 2), g1p(68, 74), g1p(65, 98)),
        (18, 94),
        (2, 32),
        (87, 7),
        (17, 29),
        (-65, 75),
        ((73, 2, -85, -54), (82, 54, 0, 22), (71, 82, 37, 58), (48, 88, 55, 69)),
        ((14, 98, -54, 6), (22, 38, -26, -8), (63, 67, -43, -37)),
    );
    lemma_final_exp_13_25();
}

proof fn lemma_final_exp_14_25()
    ensures
        GT(gt_of(38, 30)).spow(600) == GT(gt_of(90, 62)),
{
    assert(GT::sone() == GT(gt_of(1, 0)));
    lemma_gt_mul_at((38, 30), (38, 30), (39, 67), (5, 13));
    assert(GT::spow_steps(GT(gt_of(1, 0)), GT(gt_of(38, 30)), 600) == GT::spow_steps(GT(gt_of(1, 0)), GT(gt_of(39, 67)), 300));
    lemma_gt_mul_at((39, 67), (39, 67), (62, 30), (-30, 7));
    assert(GT::spow_steps(GT(gt_of(1, 0)), GT(gt_of(39, 67)), 300) == GT::spow_steps(GT(gt_of(1, 0)), GT(gt_of(62, 30)), 150));
    lemma_gt_mul_at((62, 30), (62, 30), (15, 93), (29, 27));
    assert(GT::spow_steps(GT(gt_of(1, 0)), GT(gt_of(62, 30)), 150) == GT::spow_steps(GT(gt_of(1, 0)), GT(gt_of(15, 93)), 75));
    lemma_gt_mul_at((1, 0), (15, 93), (15, 93), (0, 0));
    lemma_gt_mul_at((15, 93), (15, 93), (60, 100), (-84, -59));
    assert(GT::spow_steps(GT(gt_of(1, 0)), GT(gt_of(15, 93)), 75) == GT::spow_steps(GT(gt_of(15, 93)), GT(gt_of(60, 100)), 37));
    lemma_gt_mul_at((15, 93), (60, 100), (84, 2), (-84, -22));
    lemma_gt_mul_at((60, 100), (60, 100), (64, 81), (-64, 19));
    assert(GT::spow_steps(GT(gt_of(15, 93)), GT(gt_of(60, 100)), 37) == GT::spow_steps(GT(gt_of(84, 2)), GT(gt_of(64, 81)), 18));
    lemma_gt_mul_at((64, 81), (64, 81), (60, 70), (-25, 37));
    assert(GT::spow_steps(GT(gt_of(84, 2)), GT(gt_of(64, 81)), 18) == GT::spow_steps(GT(gt_of(84, 2)), GT(gt_of(60, 70)), 9));
    lemma_gt_mul_at((84, 2), (60, 70), (52, 2), (48, 58));
    lemma_gt_mul_at((60, 70), (60, 70), (13, 66), (-13, 34));
    assert(GT::spow_steps(GT(gt_of(84, 2)), GT(gt_of(60, 70)), 9) == GT::spow_steps(GT(gt_of(52, 2)), GT(gt_of(13, 66)), 4));
    lemma_gt_mul_at((13, 66), (13, 66), (55, 87), (-42, -27));
    assert(GT::spow_steps(GT(gt_of(52, 2)), GT(gt_of(13, 66)), 4) == GT::spow_steps(GT(gt_of(52, 2)), GT(gt_of(55, 87)), 2));
    lemma_gt_mul_at((55, 87), (55, 87), (1, 82), (-45, 19));
    assert(GT::spow_steps(GT(gt_of(52, 2)), GT(gt_of(55, 87)), 2) == GT::spow_steps(GT(gt_of(52, 2)), GT(gt_of(1, 82)), 1));
    lemma_gt_mul_at((52, 2), (1, 82), (90, 62), (-2, 40));
    lemma_gt_mul_at((1, 82), (1, 82), (44, 5), (-67, -65));
    assert(GT::spow_steps(GT(gt_of(52, 2)), GT(gt_of(1, 82)), 1) == GT::spow_steps(GT(gt_of(90, 62)), GT(gt_of(44, 5)), 0));
}

/// The pairing of `14G` with the point `25 P` of the image of `H`.
proof fn lemma_pairing_14_25()
    ensures
        smiller_loop(g1p(26, 56), dq(75, 100)) is Some,
        spairing_at(g1p(26, 56), dq(75, 100)) == GT(gt_of(90, 62)),
{
    lemma_final_exponent();
    lemma_tangent_14_25();
    lemma_tangent_11_25();
    lemma_tangent_5_25();
    lemma_tangent_10_25();
    lemma_vertical_at(26, 45, 56, 75, 100);
    lemma_miller_at(
        g1p(26, 56),
        dq(75, 100),
        (g1p(32, 59), g1p(12, 32), g1p(91, 66), g1p(26, 45)),
        (10, 79),
        (61, 33),
        (58, 65),
        (62, 25),
        (-26, 75),
        ((20, 86, -61, -47), (99, 38, -17, 30), (75, 20, 82, 60), (20, 89, 30, 46)),
        ((54, 83, -75, -44), (61, 78, 12, 43), (38, 30, -74, -33)),
    );
    lemma_final_exp_14_25();
}

proof fn lemma_final_exp_15_25()
    ensures
        GT(gt_of(44, 18)).spow(600) == GT(gt_of(96, 29)),
{
    assert(GT::sone() == GT(gt_of(1, 0)));
    lemma_gt_mul_at((44, 18), (44, 18), (97, 48), (15, 12));
    assert(GT::spow_steps(GT(gt_of(1, 0)), GT(gt_of(44, 18)), 600) == GT::spow_steps(GT(gt_of(1, 0)), GT(gt_of(97, 48)), 300));
    lemma_gt_mul_at((97, 48), (97, 48), (35, 39), (70, 69));
    assert(GT::spow_steps(GT(gt_of(1, 0)), GT(gt_of(97, 48)), 300) == GT::spow_steps(GT(gt_of(1, 0)), GT(gt_of(35, 39)), 150));
    lemma_gt_mul_at((35, 39), (35, 39), (7, 98), (-3, 11));
    assert(GT::spow_steps(GT(gt_of(1, 0)), GT(gt_of(35, 39)), 150) == GT::spow_steps(GT(gt_of(1, 0)), GT(gt_of(7, 98)), 75));
    lemma_gt_mul_at((1, 0), (7, 98), (7, 98), (0, 0));
    lemma_gt_mul_at((7, 98), (7, 98), (40, 50), (-95, -82));
    assert(GT::spow_steps(GT(gt_of(1, 0)), GT(gt_of(7, 98)), 75) == GT::spow_steps(GT(gt_of(7, 98)), GT(gt_of(40, 50)), 37));
    lemma_gt_mul_at((7, 98), (40, 50), (26, 77), (-46, -7));
    lemma_gt_mul_at((40, 50), (40, 50), (9, 86), (-9, 14));
    assert(GT::spow_steps(GT(gt_of(7, 98)), GT(gt_of(40, 50)), 37) == GT::spow_steps(GT(gt_of(26, 77)), GT(gt_of(9, 86)), 18));
    lemma_gt_mul_at((9, 86), (9, 86), (58, 10), (-73, -58));
    assert(GT::spow_steps(GT(gt_of(26, 77)), GT(gt_of(9, 86)), 18) == GT::spow_steps(GT(gt_of(26, 77)), GT(gt_of(58, 10)), 9));
    lemma_gt_mul_at((26, 77), (58, 10), (31, 17), (7, 39));
    lemma_gt_mul_at((58, 10), (58, 10), (32, 50), (32, 10));
    assert(GT::spow_steps(GT(gt_of(26, 77)), GT(gt_of(58, 10)), 9) == GT::spow_steps(GT(gt_of(31, 17)), GT(gt_of(32, 50)), 4));
    lemma_gt_mul_at((32, 50), (32, 50), (39, 94), (-15, 6));
    assert(GT::spow_steps(GT(gt_of(31, 17)), GT(gt_of(32, 50)), 4) == GT::spow_steps(GT(gt_of(31, 17)), GT(gt_of(39, 94)), 2));
    lemma_gt_mul_at((39, 94), (39, 94), (58, 11), (-73, -15));
    assert(GT::spow_steps(GT(gt_of(31, 17)), GT(gt_of(39, 94)), 2) == GT::spow_steps(GT(gt_of(31, 17)), GT(gt_of(58, 11)), 1));
    lemma_gt_mul_at((31, 17), (58, 11), (96, 29), (15, 11));
    lemma_gt_mul_at((58, 11), (58, 11), (11, 44), (32, 11));
    assert(GT::spow_steps(GT(gt_of(31, 17)), GT(gt_of(58, 11)), 1) == GT::spow_steps(GT(gt_of(96, 29)), GT(gt_of(11, 44)), 0));
}

/// The pairing of `15G` with the point `25 P` of the image of `H`.
proof fn lemma_pairing_15_25()
    ensures
        smiller_loop(g1p(68, 27), dq(75, 100)) is Some,
        spairing_at(g1p(68, 27), dq(75, 100)) == GT(gt_of(96, 29)),
{
    lemma_final_exponent();
    lemma_tangent_15_25();
    lemma_tangent_13_25();
    lemma_tangent_9_25();
    lemma_tangent_1_25();
    lemma_vertical_at(68, 74, 27, 75, 100);
    lemma_miller_at(
        g1p(68, 27),
        dq(75, 100),
        (g1p(65, 3), g1p(18, 52), g1p(1, 2), g1p(68, 74)),
        (37, 36),
        (18, 94),
        (2, 32),
        (87, 7),
        (-68, 75),
        ((73, 55, 0, 13), (83, 56, -39, 26), (16, 100, 37, 60), (64, 37, -32, -25)),
        ((0, 34, 27, 33), (65, 94, -3, 26), (44, 18, -114, -85)),
    );
    lemma_final_exp_15_25();
}

proof fn lemma_final_exp_16_25()
    ensures
        GT(gt_of(3, 38)).spow(600) == GT(gt_of(51, 9)),
{
    assert(GT::sone() == GT(gt_of(1, 0)));
    lemma_gt_mul_at((3, 38), (3, 38), (80, 97), (-15, -13));
    assert(GT::spow_steps(GT(gt_of(1, 0)), GT(gt_of(3, 38)), 600) == GT::spow_steps(GT(gt_of(1, 0)), GT(gt_of(80, 97)), 300));
    lemma_gt_mul_at((80, 97), (80, 97), (21, 51), (-30, 60));
    assert(GT::spow_steps(GT(gt_of(1, 0)), GT(gt_of(80, 97)), 300) == GT::spow_steps(GT(gt_of(1, 0)), GT(gt_of(21, 51)), 150));
    lemma_gt_mul_at((21, 51), (21, 51), (62, 46), (-22, -5));
    assert(GT::spow_steps(GT(gt_of(1, 0)), GT(gt_of(21, 51)), 150) == GT::spow_steps(GT(gt_of(1, 0)), GT(gt_of(62, 46)), 75));
    lemma_gt_mul_at((1, 0), (62, 46), (62, 46), (0, 0));
    lemma_gt_mul_at((62, 46), (62, 46), (11, 53), (17, 35));
    assert(GT::spow_steps(GT(gt_of(1, 0)), GT(gt_of(62, 46)), 75) == GT::spow_steps(GT(gt_of(62, 46)), GT(gt_of(11, 53)), 37));
    lemma_gt_mul_at((62, 46), (11, 53), (62, 41), (-18, 13));
    lemma_gt_mul_at((11, 53), (11, 53), (39, 74), (-27, -17));
    assert(GT::spow_steps(GT(gt_of(62, 46)), GT(gt_of(11, 53)), 37) == GT::spow_steps(GT(gt_of(62, 41)), GT(gt_of(39, 74)), 18));
    lemma_gt_mul_at((39, 74), (39, 74), (85, 94), (-40, 2));
    assert(GT::spow_steps(GT(gt_of(62, 41)), GT(gt_of(39, 74)), 18) == GT::spow_steps(GT(gt_of(62, 41)), GT(gt_of(85, 94)), 9));
    lemma_gt_mul_at((62, 41), (85, 94), (2, 5), (14, 54));
    lemma_gt_mul_at((85, 94), (85, 94), (5, 74), (-16, 70));
    assert(GT::spow_steps(GT(gt_of(62, 41)), GT(gt_of(85, 94)), 9) == GT::spow_steps(GT(gt_of(2, 5)), GT(gt_of(5, 74)), 4));
    lemma_gt_mul_at((5, 74), (5, 74), (3, 11), (-54, -47));
    assert(GT::spow_steps(GT(gt_of(2, 5)), GT(gt_of(5, 74)), 4) == GT::spow_steps(GT(gt_of(2, 5)), GT(gt_of(3, 11)), 2));
    lemma_gt_mul_at((3, 11), (3, 11), (90, 46), (-2, -1));
    assert(GT::spow_steps(GT(gt_of(2, 5)), GT(gt_of(3, 11)), 2) == GT::spow_steps(GT(gt_of(2, 5)), GT(gt_of(90, 46)), 1));
    lemma_gt_mul_at((2, 5), (90, 46), (51, 9), (-1, 3));
    lemma_gt_mul_at((90, 46), (90, 46), (25, 3), (59, 61));
    assert(GT::spow_steps(GT(gt_of(2, 5)), GT(gt_of(90, 46)), 1) == GT::spow_steps(GT(gt_of(51, 9)), GT(gt_of(25, 3)), 0));
}

/// The pairing of `16G` with the point `25 P` of the image of `H`.
proof fn lemma_pairing_16_25()
    ensures
        smiller_loop(g1p(1, 99), dq(75, 100)) is Some,
        spairing_at(g1p(1, 99), dq(75, 100)) == GT(gt_of(51, 9)),
{
    lemma_final_exponent();
    lemma_tangent_16_25();
    lemma_tangent_15_25();
    lemma_tangent_13_25();
    lemma_tangent_9_25();
    lemma_vertical_at(1, 2, 99, 75, 100);
    lemma_miller_at(
        g1p(1, 99),
        dq(75, 100),
        (g1p(68, 27), g1p(65, 3), g1p(18, 52), g1p(1, 2)),
        (87, 44),
        (37, 36),
        (18, 94),
        (2, 32),
        (-1, 75),
        ((78, 64, 55, 56), (77, 44, 5, 28), (54, 93, 39, 47), (7, 28, -77, -20)),
        ((73, 12, -8, -4), (65, 57, -3, 19), (3, 38, -43, 5)),
    );
    lemma_final_exp_16_25();
}

proof fn lemma_final_exp_1_26()
    ensures
        GT(gt_of(85, 6)).spow(600) == GT(gt_of(51, 9)),
{
    assert(GT::sone() == GT(gt_of(1, 0)));
    lemma_gt_mul_at((85, 6), (85, 6), (18, 75), (71, 9));
    assert(GT::spow_steps(GT(gt_of(1, 0)), GT(gt_of(85, 6)), 600) == GT::spow_steps(GT(gt_of(1, 0)), GT(gt_of(18, 75)), 300));
    lemma_gt_mul_at((18, 75), (18, 75), (52, 4), (-53, -29));
    assert(GT::spow_steps(GT(gt_of(1, 0)), GT(gt_of(18, 75)), 300) == GT::spow_steps(GT(gt_of(1, 0)), GT(gt_of(52, 4)), 150));
    lemma_gt_mul_at((52, 4), (52, 4), (62, 97), (26, 3));
    assert(GT::spow_steps(GT(gt_of(1, 0)), GT(gt_of(52, 4)), 150) == GT::spow_steps(GT(gt_of(1, 0)), GT(gt_of(62, 97)), 75));
    lemma_gt_mul_at((1, 0), (62, 97), (62, 97), (0, 0));
    lemma_gt_mul_at((62, 97), (62, 97), (91, 94), (-56, 25));
    assert(GT::spow_steps(GT(gt_of(1, 0)), GT(gt_of(62, 97)), 75) == GT::spow_steps(GT(gt_of(62, 97)), GT(gt_of(91, 94)), 37));
    lemma_gt_mul_at((62, 97), (91, 94), (59, 83), (-35, 54));
    lemma_gt_mul_at((91, 94), (91, 94), (51, 91), (-6, 81));
    assert(GT::spow_steps(GT(gt_of(62, 97)), GT(gt_of(91, 94)), 37) == GT::spow_steps(GT(gt_of(59, 83)), GT(gt_of(51, 91)), 18));
    lemma_gt_mul_at((51, 91), (51, 91), (77, 92), (-57, 9));
    assert(GT::spow_steps(GT(gt_of(59, 83)), GT(gt_of(51, 91)), 18) == GT::spow_steps(GT(gt_of(59, 83)), GT(gt_of(77, 92)), 9));
    lemma_gt_mul_at((59, 83), (77, 92), (38, 42), (-31, 41));
    lemma_gt_mul_at((77, 92), (77, 92), (91, 48), (-26, 56));
    assert(GT::spow_steps(GT(gt_of(59, 83)), GT(gt_of(77, 92)), 9) == GT::spow_steps(GT(gt_of(38, 42)), GT(gt_of(91, 48)), 4));
    lemma_gt_mul_at((91, 48), (91, 48), (18, 69), (59, 63));
    assert(GT::spow_steps(GT(gt_of(38, 42)), GT(gt_of(91, 48)), 4) == GT::spow_steps(GT(gt_of(38, 42)), GT(gt_of(18, 69)), 2));
    lemma_gt_mul_at((18, 69), (18, 69), (7, 46), (-44, -23));
    assert(GT::spow_steps(GT(gt_of(38, 42)), GT(gt_of(18, 69)), 2) == GT::spow_steps(GT(gt_of(38, 42)), GT(gt_of(7, 46)), 1));
    lemma_gt_mul_at((38, 42), (7, 46), (51, 9), (-17, 1));
    lemma_gt_mul_at((7, 46), (7, 46), (54, 43), (-21, -15));
    assert(GT::spow_steps(GT(gt_of(38, 42)), GT(gt_of(7, 46)), 1) == GT::spow_steps(GT(gt_of(51, 9)), GT(gt_of(54, 43)), 0));
}

/// The pairing of `1G` with the point `26 P` of the image of `H`.
proof fn lemma_pairing_1_26()
    ensures
        smiller_loop(g1p(1, 2), dq(1, 99)) is Some,
        spairing_at(g1p(1, 2), dq(1, 99)) == GT(gt_of(51, 9)),
{
    lemma_final_exponent();
    lemma_tangent_1_26();
    lemma_tangent_2_26();
    lemma_tangent_4_26();
    lemma_tangent_8_26();
    lemma_vertical_at(1, 99, 2, 1, 99);
    lemma_miller_at(
        g1p(1, 2),
        dq(1, 99),
        (g1p(68, 74), g1p(65, 98), g1p(18, 49), g1p(1, 99)),
        (66, 35),
        (93, 64),
        (2, 67),
        (91, 35),
        (-1, 1),
        ((0, 62, 31, 33), (72, 81, -40, 17), (37, 53, -14, 50), (58, 44, -35, -10)),
        ((14, 37, 14, 31), (80, 37, -1, 25), (85, 6, -2, 0)),
    );
    lemma_final_exp_1_26();
}

proof fn lemma_final_exp_2_26()
    ensures
        GT(gt_of(12, 4)).spow(600) == GT(gt_of(96, 29)),
{
    assert(GT::sone() == GT(gt_of(1, 0)));
    lemma_gt_mul_at((12, 4), (12, 4), (27, 80), (1, 0));
    assert(GT::spow_steps(GT(gt_of(1, 0)), GT(gt_of(12, 4)), 600) == GT::spow_steps(GT(gt_of(1, 0)), GT(gt_of(27, 80)), 300));
    lemma_gt_mul_at((27, 80), (27, 80), (86, 41), (-57, -21));
    assert(GT::spow_steps(GT(gt_of(1, 0)), GT(gt_of(27, 80)), 300) == GT::spow_steps(GT(gt_of(1, 0)), GT(gt_of(86, 41)), 150));
    lemma_gt_mul_at((86, 41), (86, 41), (59, 18), (56, 53));
    assert(GT::spow_steps(GT(gt_of(1, 0)), GT(gt_of(86, 41)), 150) == GT::spow_steps(GT(gt_of(1, 0)), GT(gt_of(59, 18)), 75));
    lemma_gt_mul_at((1, 0), (59, 18), (59, 18), (0, 0));
    lemma_gt_mul_at((59, 18), (59, 18), (26, 83), (31, 17));
    assert(GT::spow_steps(GT(gt_of(1, 0)), GT(gt_of(59, 18)), 75) == GT::spow_steps(GT(gt_of(59, 18)), GT(gt_of(26, 83)), 37));
    lemma_gt_mul_at((59, 18), (26, 83), (40, 33), (0, 38));
    lemma_gt_mul_at((26, 83), (26, 83), (49, 53), (-62, -26));
    assert(GT::spow_steps(GT(gt_of(59, 18)), GT(gt_of(26, 83)), 37) == GT::spow_steps(GT(gt_of(40, 33)), GT(gt_of(49, 53)), 18));
    lemma_gt_mul_at((49, 53), (49, 53), (97, 62), (-5, 23));
    assert(GT::spow_steps(GT(gt_of(40, 33)), GT(gt_of(49, 53)), 18) == GT::spow_steps(GT(gt_of(40, 33)), GT(gt_of(97, 62)), 9));
    lemma_gt_mul_at((40, 33), (97, 62), (16, 100), (18, 35));
    lemma_gt_mul_at((97, 62), (97, 62), (10, 3), (55, 81));
    assert(GT::spow_steps(GT(gt_of(40, 33)), GT(gt_of(97, 62)), 9) == GT::spow_steps(GT(gt_of(16, 100)), GT(gt_of(10, 3)), 4));
    lemma_gt_mul_at((10, 3), (10, 3), (91, 51), (0, 0));
    assert(GT::spow_steps(GT(gt_of(16, 100)), GT(gt_of(10, 3)), 4) == GT::spow_steps(GT(gt_of(16, 100)), GT(gt_of(91, 51)), 2));
    lemma_gt_mul_at((91, 51), (91, 51), (24, 15), (56, 66));
    assert(GT::spow_steps(GT(gt_of(16, 100)), GT(gt_of(91, 51)), 2) == GT::spow_steps(GT(gt_of(16, 100)), GT(gt_of(24, 15)), 1));
    lemma_gt_mul_at((16, 100), (24, 15), (96, 29), (-12, 11));
    lemma_gt_mul_at((24, 15), (24, 15), (48, 91), (3, 4));
    assert(GT::spow_steps(GT(gt_of(16, 100)), GT(gt_of(24, 15)), 1) == GT::spow_steps(GT(gt_of(96, 29)), GT(gt_of(48, 91)), 0));
}

/// The pairing of `2G` with the point `26 P` of the image of `H`.
proof fn lemma_pairing_2_26()
    ensures
        smiller_loop(g1p(68, 74), dq(1, 99)) is Some,
        spairing_at(g1p(68, 74), dq(1, 99)) == GT(gt_of(96, 29)),
{
    lemma_final_exponent();
    lemma_tangent_2_26();
    lemma_tangent_4_26();
    lemma_tangent_8_26();
    lemma_tangent_16_26();
    lemma_vertical_at(68, 27, 74, 1, 99);
    lemma_miller_at(
        g1p(68, 74),
        dq(1, 99),
        (g1p(65, 98), g1p(18, 49), g1p(1, 99), g1p(68, 27)),
        (93, 64),
        (2, 67),
        (91, 35),
        (86, 36),
        (-68, 1),
        ((8, 31, 45, 77), (60, 36, -21, -15), (82, 95, 22, 29), (97, 9, 40, 81)),
        ((36, 49, 92, 16), (19, 9, 13, 37), (12, 4, -13, -6)),
    );
    lemma_final_exp_2_26();
}

proof fn lemma_final_exp_3_26()
    ensures
        GT(gt_of(80, 46)).spow(600) == GT(gt_of(90, 62)),
{
    assert(GT::sone() == GT(gt_of(1, 0)));
    lemma_gt_mul_at((80, 46), (80, 46), (42, 93), (42, 51));
    assert(GT::spow_steps(GT(gt_of(1, 0)), GT(gt_of(80, 46)), 600) == GT::spow_steps(GT(gt_of(1, 0)), GT(gt_of(42, 93)), 300));
    lemma_gt_mul_at((42, 93), (42, 93), (84, 72), (-69, -9));
    assert(GT::spow_steps(GT(gt_of(1, 0)), GT(gt_of(42, 93)), 300) == GT::spow_steps(GT(gt_of(1, 0)), GT(gt_of(84, 72)), 150));
    lemma_gt_mul_at((84, 72), (84, 72), (54, 44), (18, 68));
    assert(GT::spow_steps(GT(gt_of(1, 0)), GT(gt_of(84, 72)), 150) == GT::spow_steps(GT(gt_of(1, 0)), GT(gt_of(54, 44)), 75));
    lemma_gt_mul_at((1, 0), (54, 44), (54, 44), (0, 0));
    lemma_gt_mul_at((54, 44), (54, 44), (71, 89), (9, 27));
    assert(GT::spow_steps(GT(gt_of(1, 0)), GT(gt_of(54, 44)), 75) == GT::spow_steps(GT(gt_of(54, 44)), GT(gt_of(71, 89)), 37));
    lemma_gt_mul_at((54, 44), (71, 89), (19, 75), (-1, 39));
    lemma_gt_mul_at((71, 89), (71, 89), (49, 71), (-29, 46));
    assert(GT::spow_steps(GT(gt_of(54, 44)), GT(gt_of(71, 89)), 37) == GT::spow_steps(GT(gt_of(19, 75)), GT(gt_of(49, 71)), 18));
    lemma_gt_mul_at((49, 71), (49, 71), (87, 99), (-27, 18));
    assert(GT::spow_steps(GT(gt_of(19, 75)), GT(gt_of(49, 71)), 18) == GT::spow_steps(GT(gt_of(19, 75)), GT(gt_of(87, 99)), 9));
    lemma_gt_mul_at((19, 75), (87, 99), (86, 72), (-58, 9));
    lemma_gt_mul_at((87, 99), (87, 99), (91, 52), (-23, 73));
    assert(GT::spow_steps(GT(gt_of(19, 75)), GT(gt_of(87, 99)), 9) == GT::spow_steps(GT(gt_of(86, 72)), GT(gt_of(91, 52)), 4));
    lemma_gt_mul_at((91, 52), (91, 52), (22, 94), (55, 66));
    assert(GT::spow_steps(GT(gt_of(86, 72)), GT(gt_of(91, 52)), 4) == GT::spow_steps(GT(gt_of(86, 72)), GT(gt_of(22, 94)), 2));
    lemma_gt_mul_at((22, 94), (22, 94), (31, 47), (-83, -47));
    assert(GT::spow_steps(GT(gt_of(86, 72)), GT(gt_of(22, 94)), 2) == GT::spow_steps(GT(gt_of(86, 72)), GT(gt_of(31, 47)), 1));
    lemma_gt_mul_at((86, 72), (31, 47), (90, 62), (-8, 28));
    lemma_gt_mul_at((31, 47), (31, 47), (65, 99), (-13, 6));
    assert(GT::spow_steps(GT(gt_of(86, 72)), GT(gt_of(31, 47)), 1) == GT::spow_steps(GT(gt_of(90, 62)), GT(gt_of(65, 99)), 0));
}

/// The pairing of `3G` with the point `26 P` of the image of `H`.
proof fn lemma_pairing_3_26()
    ensures
        smiller_loop(g1p(26, 45), dq(1, 99)) is Some,
        spairing_at(g1p(26, 45), dq(1, 99)) == GT(gt_of(90, 62)),
{
    lemma_final_exponent();
    lemma_tangent_3_26();
    lemma_tangent_6_26();
    lemma_tangent_12_26();
    lemma_tangent_7_26();
    lemma_vertical_at(26, 56, 45, 1, 99);
    lemma_miller_at(
        g1p(26, 45),
        dq(1, 99),
        (g1p(32, 42), g1p(12, 69), g1p(91, 35), g1p(26, 56)),
        (67, 98),
        (11, 98),
        (73, 74),
        (50, 64),
        (-26, 1),
        ((36, 94, -51, 34), (72, 97, -88, -47), (17, 14, -42, 45), (3, 32, 2, 12)),
        ((96, 77, -11, -9), (74, 16, -2, 50), (80, 46, -20, -4)),
    );
    lemma_final_exp_3_26();
}

proof fn lemma_final_exp_4_26()
    ensures
        GT(gt_of(90, 88)).spow(600) == GT(gt_of(93, 81)),
{
    assert(GT::sone() == GT(gt_of(1, 0)));
    lemma_gt_mul_at((90, 88), (90, 88), (53, 16), (3, 80));
    assert(GT::spow_steps(GT(gt_of(1, 0)), GT(gt_of(90, 88)), 600) == GT::spow_steps(GT(gt_of(1, 0)), GT(gt_of(53, 16)), 300));
    lemma_gt_mul_at((53, 16), (53, 16), (28, 26), (25, 14));
    assert(GT::spow_steps(GT(gt_of(1, 0)), GT(gt_of(53, 16)), 300) == GT::spow_steps(GT(gt_of(1, 0)), GT(gt_of(28, 26)), 150));
    lemma_gt_mul_at((28, 26), (28, 26), (7, 73), (1, 7));
    assert(GT::spow_steps(GT(gt_of(1, 0)), GT(gt_of(28, 26)), 150) == GT::spow_steps(GT(gt_of(1, 0)), GT(gt_of(7, 73)), 75));
    lemma_gt_mul_at((1, 0), (7, 73), (7, 73), (0, 0));
    lemma_gt_mul_at((7, 73), (7, 73), (73, 36), (-53, -43));
    assert(GT::spow_steps(GT(gt_of(1, 0)), GT(gt_of(7, 73)), 75) == GT::spow_steps(GT(gt_of(7, 73)), GT(gt_of(73, 36)), 37));
    lemma_gt_mul_at((7, 73), (73, 36), (4, 24), (-21, 29));
    lemma_gt_mul_at((73, 36), (73, 36), (94, 21), (39, 39));
    assert(GT::spow_steps(GT(gt_of(7, 73)), GT(gt_of(73, 36)), 37) == GT::spow_steps(GT(gt_of(4, 24)), GT(gt_of(94, 21)), 18));
    lemma_gt_mul_at((94, 21), (94, 21), (12, 73), (83, 34));
    assert(GT::spow_steps(GT(gt_of(4, 24)), GT(gt_of(94, 21)), 18) == GT::spow_steps(GT(gt_of(4, 24)), GT(gt_of(12, 73)), 9));
    lemma_gt_mul_at((4, 24), (12, 73), (13, 40), (-17, -12));
    lemma_gt_mul_at((12, 73), (12, 73), (67, 59), (-52, -36));
    assert(GT::spow_steps(GT(gt_of(4, 24)), GT(gt_of(12, 73)), 9) == GT::spow_steps(GT(gt_of(13, 40)), GT(gt_of(67, 59)), 4));
    lemma_gt_mul_at((67, 59), (67, 59), (99, 82), (9, 43));
    assert(GT::spow_steps(GT(gt_of(13, 40)), GT(gt_of(67, 59)), 4) == GT::spow_steps(GT(gt_of(13, 40)), GT(gt_of(99, 82)), 2));
    lemma_gt_mul_at((99, 82), (99, 82), (47, 18), (30, 94));
    assert(GT::spow_steps(GT(gt_of(13, 40)), GT(gt_of(99, 82)), 2) == GT::spow_steps(GT(gt_of(13, 40)), GT(gt_of(47, 18)), 1));
    lemma_gt_mul_at((13, 40), (47, 18), (93, 81), (-2, 13));
    lemma_gt_mul_at((47, 18), (47, 18), (67, 55), (18, 13));
    assert(GT::spow_steps(GT(gt_of(13, 40)), GT(gt_of(47, 18)), 1) == GT::spow_steps(GT(gt_of(93, 81)), GT(gt_of(67, 55)), 0));
}

/// The pairing of `4G` with the point `26 P` of the image of `H`.
proof fn lemma_pairing_4_26()
    ensures
        smiller_loop(g1p(65, 98), dq(1, 99)) is Some,
        spairing_at(g1p(65, 98), dq(1, 99)) == GT(gt_of(93, 81)),
{
    lemma_final_exponent();
    lemma_tangent_4_26();
    lemma_tangent_8_26();
    lemma_tangent_16_26();
    lemma_tangent_15_26();
    lemma_vertical_at(65, 3, 98, 1, 99);
    lemma_miller_at(
        g1p(65, 98),
        dq(1, 99),
        (g1p(18, 49), g1p(1, 99), g1p(68, 27), g1p(65, 3)),
        (2, 67),
        (91, 35),
        (86, 36),
        (34, 68),
        (-65, 1),
        ((60, 21, -45, -42), (79, 44, 46, 32), (63, 67, 42, 49), (77, 63, 29, 55)),
        ((41, 77, 19, 56), (97, 69, -39, 1), (90, 88, -64, -45)),
    );
    lemma_final_exp_4_26();
}

proof fn lemma_final_exp_5_26()
    ensures
        GT(gt_of(89, 58)).spow(600) == GT(gt_of(75, 98)),
{
    assert(GT::sone() == GT(gt_of(1, 0)));
    lemma_gt_mul_at((89, 58), (89, 58), (12, 92), (45, 68));
    assert(GT::spow_steps(GT(gt_of(1, 0)), GT(gt_of(89, 58)), 600) == GT::spow_steps(GT(gt_of(1, 0)), GT(gt_of(12, 92)), 300));
    lemma_gt_mul_at((12, 92), (12, 92), (63, 6), (-83, -62));
    assert(GT::spow_steps(GT(gt_of(1, 0)), GT(gt_of(12, 92)), 300) == GT::spow_steps(GT(gt_of(1, 0)), GT(gt_of(63, 6)), 150));
    lemma_gt_mul_at((63, 6), (63, 6), (95, 13), (38, 7));
    assert(GT::spow_steps(GT(gt_of(1, 0)), GT(gt_of(63, 6)), 150) == GT::spow_steps(GT(gt_of(1, 0)), GT(gt_of(95, 13)), 75));
    lemma_gt_mul_at((1, 0), (95, 13), (95, 13), (0, 0));
    lemma_gt_mul_at((95, 13), (95, 13), (69, 79), (87, 22));
    assert(GT::spow_steps(GT(gt_of(1, 0)), GT(gt_of(95, 13)), 75) == GT::spow_steps(GT(gt_of(95, 13)), GT(gt_of(69, 79)), 37));
    lemma_gt_mul_at((95, 13), (69, 79), (74, 2), (54, 73));
    lemma_gt_mul_at((69, 79), (69, 79), (35, 15), (-15, 46));
    assert(GT::spow_steps(GT(gt_of(95, 13)), GT(gt_of(69, 79)), 37) == GT::spow_steps(GT(gt_of(74, 2)), GT(gt_of(35, 15)), 18));
    lemma_gt_mul_at((35, 15), (35, 15), (91, 17), (9, 8));
    assert(GT::spow_steps(GT(gt_of(74, 2)), GT(gt_of(35, 15)), 18) == GT::spow_steps(GT(gt_of(74, 2)), GT(gt_of(91, 17)), 9));
    lemma_gt_mul_at((74, 2), (91, 17), (34, 93), (66, 13));
    lemma_gt_mul_at((91, 17), (91, 17), (13, 78), (79, 27));
    assert(GT::spow_steps(GT(gt_of(74, 2)), GT(gt_of(91, 17)), 9) == GT::spow_steps(GT(gt_of(34, 93)), GT(gt_of(13, 78)), 4));
    lemma_gt_mul_at((13, 78), (13, 78), (44, 85), (-59, -41));
    assert(GT::spow_steps(GT(gt_of(34, 93)), GT(gt_of(13, 78)), 4) == GT::spow_steps(GT(gt_of(34, 93)), GT(gt_of(44, 85)), 2));
    lemma_gt_mul_at((44, 85), (44, 85), (64, 53), (-53, 2));
    assert(GT::spow_steps(GT(gt_of(34, 93)), GT(gt_of(44, 85)), 2) == GT::spow_steps(GT(gt_of(34, 93)), GT(gt_of(64, 53)), 1));
    lemma_gt_mul_at((34, 93), (64, 53), (75, 98), (-28, 27));
    lemma_gt_mul_at((64, 53), (64, 53), (75, 36), (12, 39));
    assert(GT::spow_steps(GT(gt_of(34, 93)), GT(gt_of(64, 53)), 1) == GT::spow_steps(GT(gt_of(75, 98)), GT(gt_of(75, 36)), 0));
}

/// The pairing of `5G` with the point `26 P` of the image of `H`.
proof fn lemma_pairing_5_26()
    ensures
        smiller_loop(g1p(12, 32), dq(1, 99)) is Some,
        spairing_at(g1p(12, 32), dq(1, 99)) == GT(gt_of(75, 98)),
{
    lemma_final_exponent();
    lemma_tangent_5_26();
    lemma_tangent_10_26();
    lemma_tangent_3_26();
    lemma_tangent_6_26();
    lemma_vertical_at(12, 69, 32, 1, 99);
    lemma_miller_at(
        g1p(12, 32),
        dq(1, 99),
        (g1p(91, 66), g1p(26, 45), g1p(32, 42), g1p(12, 69)),
        (72, 67),
        (24, 36),
        (67, 98),
        (11, 98),
        (-12, 1),
        ((89, 8, 6, 51), (30, 78, 18, 30), (68, 10, -52, -14), (41, 92, 35, 62)),
        ((85, 90, -68, -10), (94, 96, -79, 4), (89, 58, -13, -12)),
    );
    lemma_final_exp_5_26();
}

proof fn lemma_final_exp_6_26()
    ensures
        GT(gt_of(47, 2)).spow(600) == GT(gt_of(14, 44)),
{
    assert(GT::sone() == GT(gt_of(1, 0)));
    lemma_gt_mul_at((47, 2), (47, 2), (84, 83), (21, 1));
    assert(GT::spow_steps(GT(gt_of(1, 0)), GT(gt_of(47, 2)), 600) == GT::spow_steps(GT(gt_of(1, 0)), GT(gt_of(84, 83)), 300));
    lemma_gt_mul_at((84, 83), (84, 83), (66, 86), (1, 69));
    assert(GT::spow_steps(GT(gt_of(1, 0)), GT(gt_of(84, 83)), 300) == GT::spow_steps(GT(gt_of(1, 0)), GT(gt_of(66, 86)), 150));
    lemma_gt_mul_at((66, 86), (66, 86), (91, 17), (-31, 39));
    assert(GT::spow_steps(GT(gt_of(1, 0)), GT(gt_of(66, 86)), 150) == GT::spow_steps(GT(gt_of(1, 0)), GT(gt_of(91, 17)), 75));
    lemma_gt_mul_at((1, 0), (91, 17), (91, 17), (0, 0));
    lemma_gt_mul_at((91, 17), (91, 17), (13, 78), (79, 27));
    assert(GT::spow_steps(GT(gt_of(1, 0)), GT(gt_of(91, 17)), 75) == GT::spow_steps(GT(gt_of(91, 17)), GT(gt_of(13, 78)), 37));
    lemma_gt_mul_at((91, 17), (13, 78), (59, 34), (-2, 59));
    lemma_gt_mul_at((13, 78), (13, 78), (44, 85), (-59, -41));
    assert(GT::spow_steps(GT(gt_of(91, 17)), GT(gt_of(13, 78)), 37) == GT::spow_steps(GT(gt_of(59, 34)), GT(gt_of(44, 85)), 18));
    lemma_gt_mul_at((44, 85), (44, 85), (64, 53), (-53, 2));
    assert(GT::spow_steps(GT(gt_of(59, 34)), GT(gt_of(44, 85)), 18) == GT::spow_steps(GT(gt_of(59, 34)), GT(gt_of(64, 53)), 9));
    lemma_gt_mul_at((59, 34), (64, 53), (55, 67), (19, 34));
    lemma_gt_mul_at((64, 53), (64, 53), (75, 36), (12, 39));
    assert(GT::spow_steps(GT(gt_of(59, 34)), GT(gt_of(64, 53)), 9) == GT::spow_steps(GT(gt_of(55, 67)), GT(gt_of(75, 36)), 4));
    lemma_gt_mul_at((75, 36), (75, 36), (87, 64), (42, 40));
    assert(GT::spow_steps(GT(gt_of(55, 67)), GT(gt_of(75, 36)), 4) == GT::spow_steps(GT(gt_of(55, 67)), GT(gt_of(87, 64)), 2));
    lemma_gt_mul_at((87, 64), (87, 64), (39, 71), (34, 69));
    assert(GT::spow_steps(GT(gt_of(55, 67)), GT(gt_of(87, 64)), 2) == GT::spow_steps(GT(gt_of(55, 67)), GT(gt_of(39, 71)), 1));
    lemma_gt_mul_at((55, 67), (39, 71), (14, 44), (-26, 17));
    lemma_gt_mul_at((39, 71), (39, 71), (15, 93), (-35, 4));
    assert(GT::spow_steps(GT(gt_of(55, 67)), GT(gt_of(39, 71)), 1) == GT::spow_steps(GT(gt_of(14, 44)), GT(gt_of(15, 93)), 0));
}

/// The pairing of `6G` with the point `26 P` of the image of `H`.
proof fn lemma_pairing_6_26()
    ensures
        smiller_loop(g1p(32, 42), dq(1, 99)) is Some,
        spairing_at(g1p(32, 42), dq(1, 99)) == GT(gt_of(14, 44)),
{
    lemma_final_exponent();
    lemma_tangent_6_26();
    lemma_tangent_12_26();
    lemma_tangent_7_26();
    lemma_tangent_14_26();
    lemma_vertical_at(32, 59, 42, 1, 99);
    lemma_miller_at(
        g1p(32, 42),
        dq(1, 99),
        (g1p(12, 69), g1p(91, 35), g1p(26, 56), g1p(32, 59)),
        (11, 98),
        (73, 74),
        (50, 64),
        (54, 74),
        (-32, 1),
        ((11, 26, -94, -74), (91, 81, -12, 7), (3, 0, 17, 81), (49, 91, 1, 1)),
        ((79, 31, -59, 6), (53, 75, 19, 51), (47, 2, -18, -24)),
    );
    lemma_final_exp_6_26();
}

proof fn lemma_final_exp_7_26()
    ensures
        GT(gt_of(80, 72)).spow(600) == GT(gt_of(15, 55)),
{
    assert(GT::sone() == GT(gt_of(1, 0)));
    lemma_gt_mul_at((80, 72), (80, 72), (4, 74), (12, 62));
    assert(GT::spow_steps(GT(gt_of(1, 0)), GT(gt_of(80, 72)), 600) == GT::spow_steps(GT(gt_of(1, 0)), GT(gt_of(4, 74)), 300));
    lemma_gt_mul_at((4, 74), (4, 74), (95, 65), (-55, -49));
    assert(GT::spow_steps(GT(gt_of(1, 0)), GT(gt_of(4, 74)), 300) == GT::spow_steps(GT(gt_of(1, 0)), GT(gt_of(95, 65)), 150));
    lemma_gt_mul_at((95, 65), (95, 65), (53, 45), (47, 80));
    assert(GT::spow_steps(GT(gt_of(1, 0)), GT(gt_of(95, 65)), 150) == GT::spow_steps(GT(gt_of(1, 0)), GT(gt_of(53, 45)), 75));
    lemma_gt_mul_at((1, 0), (53, 45), (53, 45), (0, 0));
    lemma_gt_mul_at((53, 45), (53, 45), (77, 18), (7, 27));
    assert(GT::spow_steps(GT(gt_of(1, 0)), GT(gt_of(53, 45)), 75) == GT::spow_steps(GT(gt_of(53, 45)), GT(gt_of(77, 18)), 37));
    lemma_gt_mul_at((53, 45), (77, 18), (39, 74), (32, 35));
    lemma_gt_mul_at((77, 18), (77, 18), (50, 24), (55, 24));
    assert(GT::spow_steps(GT(gt_of(53, 45)), GT(gt_of(77, 18)), 37) == GT::spow_steps(GT(gt_of(39, 74)), GT(gt_of(50, 24)), 18));
    lemma_gt_mul_at((50, 24), (50, 24), (5, 6), (19, 18));
    assert(GT::spow_steps(GT(gt_of(39, 74)), GT(gt_of(50, 24)), 18) == GT::spow_steps(GT(gt_of(39, 74)), GT(gt_of(5, 6)), 9));
    lemma_gt_mul_at((39, 74), (5, 6), (54, 59), (-3, 1));
    lemma_gt_mul_at((5, 6), (5, 6), (90, 24), (-1, 0));
    assert(GT::spow_steps(GT(gt_of(39, 74)), GT(gt_of(5, 6)), 9) == GT::spow_steps(GT(gt_of(54, 59)), GT(gt_of(90, 24)), 4));
    lemma_gt_mul_at((90, 24), (90, 24), (50, 7), (74, 37));
    assert(GT::spow_steps(GT(gt_of(54, 59)), GT(gt_of(90, 24)), 4) == GT::spow_steps(GT(gt_of(54, 59)), GT(gt_of(50, 7)), 2));
    lemma_gt_mul_at((50, 7), (50, 7), (27, 45), (24, 6));
    assert(GT::spow_steps(GT(gt_of(54, 59)), GT(gt_of(50, 7)), 2) == GT::spow_steps(GT(gt_of(54, 59)), GT(gt_of(27, 45)), 1));
    lemma_gt_mul_at((54, 59), (27, 45), (15, 55), (-12, 13));
    lemma_gt_mul_at((27, 45), (27, 45), (17, 1), (-13, 4));
    assert(GT::spow_steps(GT(gt_of(54, 59)), GT(gt_of(27, 45)), 1) == GT::spow_steps(GT(gt_of(15, 55)), GT(gt_of(17, 1)), 0));
}

/// The pairing of `7G` with the point `26 P` of the image of `H`.
proof fn lemma_pairing_7_26()
    ensures
        smiller_loop(g1p(91, 35), dq(1, 99)) is Some,
        spairing_at(g1p(91, 35), dq(1, 99)) == GT(gt_of(15, 55)),
{
    lemma_final_exponent();
    lemma_tangent_7_26();
    lemma_tangent_14_26();
    lemma_tangent_11_26();
    lemma_tangent_5_26();
    lemma_vertical_at(91, 66, 35, 1, 99);
    lemma_miller_at(
        g1p(91, 35),
        dq(1, 99),
        (g1p(26, 56), g1p(32, 59), g1p(12, 32), g1p(91, 66)),
        (50, 64),
        (54, 74),
        (26, 68),
        (72, 67),
        (-91, 1),
        ((20, 82, -16, 22), (62, 42, -50, -2), (60, 10, 20, 34), (72, 24, 8, 36)),
        ((63, 52, 45, 28), (42, 37, 10, 44), (80, 72, -39, -34)),
    );
    lemma_final_exp_7_26();
}

proof fn lemma_final_exp_8_26()
    ensures
        GT(gt_of(77, 83)).spow(600) == GT(gt_of(68, 21)),
{
    assert(GT::sone() == GT(gt_of(1, 0)));
    lemma_gt_mul_at((77, 83), (77, 83), (50, 35), (-10, 58));
    assert(GT::spow_steps(GT(gt_of(1, 0)), GT(gt_of(77, 83)), 600) == GT::spow_steps(GT(gt_of(1, 0)), GT(gt_of(50, 35)), 300));
    lemma_gt_mul_at((50, 35), (50, 35), (63, 53), (12, 22));
    assert(GT::spow_steps(GT(gt_of(1, 0)), GT(gt_of(50, 35)), 300) == GT::spow_steps(GT(gt_of(1, 0)), GT(gt_of(63, 53)), 150));
    lemma_gt_mul_at((63, 53), (63, 53), (49, 31), (11, 38));
    assert(GT::spow_steps(GT(gt_of(1, 0)), GT(gt_of(63, 53)), 150) == GT::spow_steps(GT(gt_of(1, 0)), GT(gt_of(49, 31)), 75));
    lemma_gt_mul_at((1, 0), (49, 31), (49, 31), (0, 0));
    lemma_gt_mul_at((49, 31), (49, 31), (26, 57), (14, 20));
    assert(GT::spow_steps(GT(gt_of(1, 0)), GT(gt_of(49, 31)), 75) == GT::spow_steps(GT(gt_of(49, 31)), GT(gt_of(26, 57)), 37));
    lemma_gt_mul_at((49, 31), (26, 57), (12, 14), (-5, 18));
    lemma_gt_mul_at((26, 57), (26, 57), (53, 18), (-26, -3));
    assert(GT::spow_steps(GT(gt_of(49, 31)), GT(gt_of(26, 57)), 37) == GT::spow_steps(GT(gt_of(12, 14)), GT(gt_of(53, 18)), 18));
    lemma_gt_mul_at((53, 18), (53, 18), (61, 69), (24, 15));
    assert(GT::spow_steps(GT(gt_of(12, 14)), GT(gt_of(53, 18)), 18) == GT::spow_steps(GT(gt_of(12, 14)), GT(gt_of(61, 69)), 9));
    lemma_gt_mul_at((12, 14), (61, 69), (69, 9), (-3, 7));
    lemma_gt_mul_at((61, 69), (61, 69), (71, 21), (-11, 36));
    assert(GT::spow_steps(GT(gt_of(12, 14)), GT(gt_of(61, 69)), 9) == GT::spow_steps(GT(gt_of(69, 9)), GT(gt_of(71, 21)), 4));
    lemma_gt_mul_at((71, 21), (71, 21), (55, 16), (45, 25));
    assert(GT::spow_steps(GT(gt_of(69, 9)), GT(gt_of(71, 21)), 4) == GT::spow_steps(GT(gt_of(69, 9)), GT(gt_of(55, 16)), 2));
    lemma_gt_mul_at((55, 16), (55, 16), (42, 90), (27, 14));
    assert(GT::spow_steps(GT(gt_of(69, 9)), GT(gt_of(55, 16)), 2) == GT::spow_steps(GT(gt_of(69, 9)), GT(gt_of(42, 90)), 1));
    lemma_gt_mul_at((69, 9), (42, 90), (68, 21), (20, 57));
    lemma_gt_mul_at((42, 90), (42, 90), (27, 66), (-63, -6));
    assert(GT::spow_steps(GT(gt_of(69, 9)), GT(gt_of(42, 90)), 1) == GT::spow_steps(GT(gt_of(68, 21)), GT(gt_of(27, 66)), 0));
}

/// The pairing of `8G` with the point `26 P` of the image of `H`.
proof fn lemma_pairing_8_26()
    ensures
        smiller_loop(g1p(18, 49), dq(1, 99)) is Some,
        spairing_at(g1p(18, 49), dq(1, 99)) == GT(gt_of(68, 21)),
{
    lemma_final_exponent();
    lemma_tangent_8_26();
    lemma_tangent_16_26();
    lemma_tangent_15_26();
    lemma_tangent_13_26();
    lemma_vertical_at(18, 52, 49, 1, 99);
    lemma_miller_at(
        g1p(18, 49),
        dq(1, 99),
        (g1p(1, 99), g1p(68, 27), g1p(65, 3), g1p(18, 52)),
        (91, 35),
        (86, 36),
        (34, 68),
        (10, 24),
        (-18, 1),
        ((87, 95, 69, 50), (22, 4, 40, 78), (64, 59, 4, 1), (83, 23, -19, 23)),
        ((98, 57, 62, 32), (16, 39, -4, 15), (77, 83, -4, -8)),
    );
    lemma_final_exp_8_26();
}

proof fn lemma_final_exp_9_26()
    ensures
        GT(gt_of(14, 49)).spow(600) == GT(gt_of(47, 80)),
{
    assert(GT::sone() == GT(gt_of(1, 0)));
    lemma_gt_mul_at((14, 49), (14, 49), (17, 82), (-22, -11));
    assert(GT::spow_steps(GT(gt_of(1, 0)), GT(gt_of(14, 49)), 600) == GT::spow_steps(GT(gt_of(1, 0)), GT(gt_of(17, 82)), 300));
    lemma_gt_mul_at((17, 82), (17, 82), (29, 3), (-64, -39));
    assert(GT::spow_steps(GT(gt_of(1, 0)), GT(gt_of(17, 82)), 300) == GT::spow_steps(GT(gt_of(1, 0)), GT(gt_of(29, 3)), 150));
    lemma_gt_mul_at((29, 3), (29, 3), (24, 64), (8, 1));
    assert(GT::spow_steps(GT(gt_of(1, 0)), GT(gt_of(29, 3)), 150) == GT::spow_steps(GT(gt_of(1, 0)), GT(gt_of(24, 64)), 75));
    lemma_gt_mul_at((1, 0), (24, 64), (24, 64), (0, 0));
    lemma_gt_mul_at((24, 64), (24, 64), (15, 87), (-35, -11));
    assert(GT::spow_steps(GT(gt_of(1, 0)), GT(gt_of(24, 64)), 75) == GT::spow_steps(GT(gt_of(24, 64)), GT(gt_of(15, 87)), 37));
    lemma_gt_mul_at((24, 64), (15, 87), (44, 5), (-52, -25));
    lemma_gt_mul_at((15, 87), (15, 87), (29, 91), (-73, -50));
    assert(GT::spow_steps(GT(gt_of(24, 64)), GT(gt_of(15, 87)), 37) == GT::spow_steps(GT(gt_of(44, 5)), GT(gt_of(29, 91)), 18));
    lemma_gt_mul_at((29, 91), (29, 91), (34, 27), (-74, -30));
    assert(GT::spow_steps(GT(gt_of(44, 5)), GT(gt_of(29, 91)), 18) == GT::spow_steps(GT(gt_of(44, 5)), GT(gt_of(34, 27)), 9));
    lemma_gt_mul_at((44, 5), (34, 27), (48, 11), (13, 12));
    lemma_gt_mul_at((34, 27), (34, 27), (23, 97), (4, 10));
    assert(GT::spow_steps(GT(gt_of(44, 5)), GT(gt_of(34, 27)), 9) == GT::spow_steps(GT(gt_of(48, 11)), GT(gt_of(23, 97)), 4));
    lemma_gt_mul_at((23, 97), (23, 97), (8, 2), (-88, -49));
    assert(GT::spow_steps(GT(gt_of(48, 11)), GT(gt_of(23, 97)), 4) == GT::spow_steps(GT(gt_of(48, 11)), GT(gt_of(8, 2)), 2));
    lemma_gt_mul_at((8, 2), (8, 2), (60, 28), (0, 0));
    assert(GT::spow_steps(GT(gt_of(48, 11)), GT(gt_of(8, 2)), 2) == GT::spow_steps(GT(gt_of(48, 11)), GT(gt_of(60, 28)), 1));
    lemma_gt_mul_at((48, 11), (60, 28), (47, 80), (25, 16));
    lemma_gt_mul_at((60, 28), (60, 28), (89, 51), (27, 25));
    assert(GT::spow_steps(GT(gt_of(48, 11)), GT(gt_of(60, 28)), 1) == GT::spow_steps(GT(gt_of(47, 80)), GT(gt_of(89, 51)), 0));
}

/// The pairing of `9G` with the point `26 P` of the image of `H`.
proof fn lemma_pairing_9_26()
    ensures
        smiller_loop(g1p(18, 52), dq(1, 99)) is Some,
        spairing_at(g1p(18, 52), dq(1, 99)) == GT(gt_of(47, 80)),
{
    lemma_final_exponent();
    lemma_tangent_9_26();
    lemma_tangent_1_26();
    lemma_tangent_2_26();
    lemma_tangent_4_26();
    lemma_vertical_at(18, 49, 52, 1, 99);
    lemma_miller_at(
        g1p(18, 52),
        dq(1, 99),
        (g1p(1, 2), g1p(68, 74), g1p(65, 98), g1p(18, 49)),
        (80, 0),
        (66, 35),
        (93, 64),
        (2, 67),
        (-18, 1),
        ((37, 0, 63, 0), (18, 83, 24, 12), (0, 38, -65, -39), (93, 92, -25, 10)),
        ((84, 63, 1, 85), (88, 18, -41, 15), (14, 49, -16, -3)),
    );
    lemma_final_exp_9_26();
}

proof fn lemma_final_exp_10_26()
    ensures
        GT(gt_of(9, 21)).spow(600) == GT(gt_of(61, 46)),
{
    assert(GT::sone() == GT(gt_of(1, 0)));
    lemma_gt_mul_at((9, 21), (9, 21), (44, 38), (-4, -1));
    assert(GT::spow_steps(GT(gt_of(1, 0)), GT(gt_of(9, 21)), 600) == GT::spow_steps(GT(gt_of(1, 0)), GT(gt_of(44, 38)), 300));
    lemma_gt_mul_at((44, 38), (44, 38), (88, 82), (4, 18));
    assert(GT::spow_steps(GT(gt_of(1, 0)), GT(gt_of(44, 38)), 300) == GT::spow_steps(GT(gt_of(1, 0)), GT(gt_of(88, 82)), 150));
    lemma_gt_mul_at((88, 82), (88, 82), (10, 32), (10, 76));
    assert(GT::spow_steps(GT(gt_of(1, 0)), GT(gt_of(88, 82)), 150) == GT::spow_steps(GT(gt_of(1, 0)), GT(gt_of(10, 32)), 75));
    lemma_gt_mul_at((1, 0), (10, 32), (10, 32), (0, 0));
    lemma_gt_mul_at((10, 32), (10, 32), (86, 20), (-10, -4));
    assert(GT::spow_steps(GT(gt_of(1, 0)), GT(gt_of(10, 32)), 75) == GT::spow_steps(GT(gt_of(10, 32)), GT(gt_of(86, 20)), 37));
    lemma_gt_mul_at((10, 32), (86, 20), (18, 90), (2, 22));
    lemma_gt_mul_at((86, 20), (86, 20), (27, 10), (69, 30));
    assert(GT::spow_steps(GT(gt_of(10, 32)), GT(gt_of(86, 20)), 37) == GT::spow_steps(GT(gt_of(18, 90)), GT(gt_of(27, 10)), 18));
    lemma_gt_mul_at((27, 10), (27, 10), (23, 36), (6, 4));
    assert(GT::spow_steps(GT(gt_of(18, 90)), GT(gt_of(27, 10)), 18) == GT::spow_steps(GT(gt_of(18, 90)), GT(gt_of(23, 36)), 9));
    lemma_gt_mul_at((18, 90), (23, 36), (2, 84), (-28, -6));
    lemma_gt_mul_at((23, 36), (23, 36), (41, 57), (-8, 3));
    assert(GT::spow_steps(GT(gt_of(18, 90)), GT(gt_of(23, 36)), 9) == GT::spow_steps(GT(gt_of(2, 84)), GT(gt_of(41, 57)), 4));
    lemma_gt_mul_at((41, 57), (41, 57), (48, 11), (-16, 14));
    assert(GT::spow_steps(GT(gt_of(2, 84)), GT(gt_of(41, 57)), 4) == GT::spow_steps(GT(gt_of(2, 84)), GT(gt_of(48, 11)), 2));
    lemma_gt_mul_at((48, 11), (48, 11), (62, 26), (21, 9));
    assert(GT::spow_steps(GT(gt_of(2, 84)), GT(gt_of(48, 11)), 2) == GT::spow_steps(GT(gt_of(2, 84)), GT(gt_of(62, 26)), 1));
    lemma_gt_mul_at((2, 84), (62, 26), (61, 46), (-21, 30));
    lemma_gt_mul_at((62, 26), (62, 26), (37, 23), (31, 25));
    assert(GT::spow_steps(GT(gt_of(2, 84)), GT(gt_of(62, 26)), 1) == GT::spow_steps(GT(gt_of(61, 46)), GT(gt_of(37, 23)), 0));
}

/// The pairing of `10G` with the point `26 P` of the image of `H`.
proof fn lemma_pairing_10_26()
    ensures
        smiller_loop(g1p(91, 66), dq(1, 99)) is Some,
        spairing_at(g1p(91, 66), dq(1, 99)) == GT(gt_of(61, 46)),
{
    lemma_final_exponent();
    lemma_tangent_10_26();
    lemma_tangent_3_26();
    lemma_tangent_6_26();
    lemma_tangent_12_26();
    lemma_vertical_at(91, 35, 66, 1, 99);
    lemma_miller_at(
        g1p(91, 66),
        dq(1, 99),
        (g1p(26, 45), g1p(32, 42), g1p(12, 69), g1p(91, 35)),
        (24, 36),
        (67, 98),
        (11, 98),
        (73, 74),
        (-91, 1),
        ((88, 28, -8, 4), (21, 80, 31, 76), (0, 91, -59, -31), (71, 62, -89, -79)),
        ((86, 11, 11, 49), (10, 91, 54, 62), (9, 21, -10, -83)),
    );
    lemma_final_exp_10_26();
}

proof fn lemma_final_exp_11_26()
    ensures
        GT(gt_of(100, 85)).spow(600) == GT(gt_of(71, 57)),
{
    assert(GT::sone() == GT(gt_of(1, 0)));
    lemma_gt_mul_at((100, 85), (100, 85), (48, 79), (27, 96));
    assert(GT::spow_steps(GT(gt_of(1, 0)), GT(gt_of(100, 85)), 600) == GT::spow_steps(GT(gt_of(1, 0)), GT(gt_of(48, 79)), 300));
    lemma_gt_mul_at((48, 79), (48, 79), (2, 30), (-39, 13));
    assert(GT::spow_steps(GT(gt_of(1, 0)), GT(gt_of(48, 79)), 300) == GT::spow_steps(GT(gt_of(1, 0)), GT(gt_of(2, 30)), 150));
    lemma_gt_mul_at((2, 30), (2, 30), (13, 28), (-9, -8));
    assert(GT::spow_steps(GT(gt_of(1, 0)), GT(gt_of(2, 30)), 150) == GT::spow_steps(GT(gt_of(1, 0)), GT(gt_of(13, 28)), 75));
    lemma_gt_mul_at((1, 0), (13, 28), (13, 28), (0, 0));
    lemma_gt_mul_at((13, 28), (13, 28), (92, 45), (-7, -1));
    assert(GT::spow_steps(GT(gt_of(1, 0)), GT(gt_of(13, 28)), 75) == GT::spow_steps(GT(gt_of(13, 28)), GT(gt_of(92, 45)), 37));
    lemma_gt_mul_at((13, 28), (92, 45), (37, 83), (-1, 18));
    lemma_gt_mul_at((92, 45), (92, 45), (76, 94), (63, 61));
    assert(GT::spow_steps(GT(gt_of(13, 28)), GT(gt_of(92, 45)), 37) == GT::spow_steps(GT(gt_of(37, 83)), GT(gt_of(76, 94)), 18));
    lemma_gt_mul_at((76, 94), (76, 94), (71, 99), (-31, 53));
    assert(GT::spow_steps(GT(gt_of(37, 83)), GT(gt_of(76, 94)), 18) == GT::spow_steps(GT(gt_of(37, 83)), GT(gt_of(71, 99)), 9));
    lemma_gt_mul_at((37, 83), (71, 99), (66, 26), (-56, 13));
    lemma_gt_mul_at((71, 99), (71, 99), (88, 15), (-48, 42));
    assert(GT::spow_steps(GT(gt_of(37, 83)), GT(gt_of(71, 99)), 9) == GT::spow_steps(GT(gt_of(66, 26)), GT(gt_of(88, 15)), 4));
    lemma_gt_mul_at((88, 15), (88, 15), (45, 92), (74, 23));
    assert(GT::spow_steps(GT(gt_of(66, 26)), GT(gt_of(88, 15)), 4) == GT::spow_steps(GT(gt_of(66, 26)), GT(gt_of(45, 92)), 2));
    lemma_gt_mul_at((45, 92), (45, 92), (25, 18), (-64, -2));
    assert(GT::spow_steps(GT(gt_of(66, 26)), GT(gt_of(45, 92)), 2) == GT::spow_steps(GT(gt_of(66, 26)), GT(gt_of(25, 18)), 1));
    lemma_gt_mul_at((66, 26), (25, 18), (71, 57), (11, 13));
    lemma_gt_mul_at((25, 18), (25, 18), (99, 71), (2, 5));
    assert(GT::spow_steps(GT(gt_of(66, 26)), GT(gt_of(25, 18)), 1) == GT::spow_steps(GT(gt_of(71, 57)), GT(gt_of(99, 71)), 0));
}

/// The pairing of `11G` with the point `26 P` of the image of `H`.
proof fn lemma_pairing_11_26()
    ensures
        smiller_loop(g1p(32, 59), dq(1, 99)) is Some,
        spairing_at(g1p(32, 59), dq(1, 99)) == GT(gt_of(71, 57)),
{
    lemma_final_exponent();
    lemma_tangent_11_26();
    lemma_tangent_5_26();
    lemma_tangent_10_26();
    lemma_tangent_3_26();
    lemma_vertical_at(32, 42, 59, 1, 99);
    lemma_miller_at(
        g1p(32, 59),
        dq(1, 99),
        (g1p(12, 32), g1p(91, 66), g1p(26, 45), g1p(32, 42)),
        (26, 68),
        (72, 67),
        (24, 36),
        (67, 98),
        (-32, 1),
        ((92, 23, -40, -11), (33, 17, 50, 62), (93, 25, 7, 8), (19, 18, 13, 30)),
        ((37, 57, 0, 3), (24, 41, -31, 18), (100, 85, -9, -14)),
    );
    lemma_final_exp_11_26();
}

proof fn lemma_final_exp_12_26()
    ensures
        GT(gt_of(81, 18)).spow(600) == GT(gt_of(78, 3)),
{
    assert(GT::sone() == GT(gt_of(1, 0)));
    lemma_gt_mul_at((81, 18), (81, 18), (76, 67), (61, 25));
    assert(GT::spow_steps(GT(gt_of(1, 0)), GT(gt_of(81, 18)), 600) == GT::spow_steps(GT(gt_of(1, 0)), GT(gt_of(76, 67)), 300));
    lemma_gt_mul_at((76, 67), (76, 67), (75, 39), (12, 56));
    assert(GT::spow_steps(GT(gt_of(1, 0)), GT(gt_of(76, 67)), 300) == GT::spow_steps(GT(gt_of(1, 0)), GT(gt_of(75, 39)), 150));
    lemma_gt_mul_at((75, 39), (75, 39), (64, 87), (40, 42));
    assert(GT::spow_steps(GT(gt_of(1, 0)), GT(gt_of(75, 39)), 150) == GT::spow_steps(GT(gt_of(1, 0)), GT(gt_of(64, 87)), 75));
    lemma_gt_mul_at((1, 0), (64, 87), (64, 87), (0, 0));
    lemma_gt_mul_at((64, 87), (64, 87), (62, 32), (-35, 35));
    assert(GT::spow_steps(GT(gt_of(1, 0)), GT(gt_of(64, 87)), 75) == GT::spow_steps(GT(gt_of(64, 87)), GT(gt_of(62, 32)), 37));
    lemma_gt_mul_at((64, 87), (62, 32), (73, 12), (11, 46));
    lemma_gt_mul_at((62, 32), (62, 32), (93, 15), (27, 29));
    assert(GT::spow_steps(GT(gt_of(64, 87)), GT(gt_of(62, 32)), 37) == GT::spow_steps(GT(gt_of(73, 12)), GT(gt_of(93, 15)), 18));
    lemma_gt_mul_at((93, 15), (93, 15), (41, 40), (83, 25));
    assert(GT::spow_steps(GT(gt_of(73, 12)), GT(gt_of(93, 15)), 18) == GT::spow_steps(GT(gt_of(73, 12)), GT(gt_of(41, 40)), 9));
    lemma_gt_mul_at((73, 12), (41, 40), (89, 3), (24, 29));
    lemma_gt_mul_at((41, 40), (41, 40), (81, 64), (0, 16));
    assert(GT::spow_steps(GT(gt_of(73, 12)), GT(gt_of(41, 40)), 9) == GT::spow_steps(GT(gt_of(89, 3)), GT(gt_of(81, 64)), 4));
    lemma_gt_mul_at((81, 64), (81, 64), (41, 10), (24, 62));
    assert(GT::spow_steps(GT(gt_of(89, 3)), GT(gt_of(81, 64)), 4) == GT::spow_steps(GT(gt_of(89, 3)), GT(gt_of(41, 10)), 2));
    lemma_gt_mul_at((41, 10), (41, 10), (66, 13), (15, 7));
    assert(GT::spow_steps(GT(gt_of(89, 3)), GT(gt_of(41, 10)), 2) == GT::spow_steps(GT(gt_of(89, 3)), GT(gt_of(66, 13)), 1));
    lemma_gt_mul_at((89, 3), (66, 13), (78, 3), (57, 13));
    lemma_gt_mul_at((66, 13), (66, 13), (46, 32), (41, 15));
    assert(GT::spow_steps(GT(gt_of(89, 3)), GT(gt_of(66, 13)), 1) == GT::spow_steps(GT(gt_of(78, 3)), GT(gt_of(46, 32)), 0));
}

/// The pairing of `12G` with the point `26 P` of the image of `H`.
proof fn lemma_pairing_12_26()
    ensures
        smiller_loop(g1p(12, 69), dq(1, 99)) is Some,
        spairing_at(g1p(12, 69), dq(1, 99)) == GT(gt_of(78, 3)),
{
    lemma_final_exponent();
    lemma_tangent_12_26();
    lemma_tangent_7_26();
    lemma_tangent_14_26();
    lemma_tangent_11_26();
    lemma_vertical_at(12, 32, 69, 1, 99);
    lemma_miller_at(
        g1p(12, 69),
        dq(1, 99),
        (g1p(91, 35), g1p(26, 56), g1p(32, 59), g1p(12, 32)),
        (73, 74),
        (50, 64),
        (54, 74),
        (26, 68),
        (-12, 1),
        ((55, 76, -2, 52), (7, 32, -21, 24), (35, 30, -10, -6), (74, 71, -4, 19)),
        ((31, 13, 4, 54), (23, 47, -1, 15), (81, 18, -4, -6)),
    );
    lemma_final_exp_12_26();
}

proof fn lemma_final_exp_13_26()
    ensures
        GT(gt_of(75, 33)).spow(600) == GT(gt_of(12, 20)),
{
    assert(GT::sone() == GT(gt_of(1, 0)));
    lemma_gt_mul_at((75, 33), (75, 33), (92, 23), (44, 38));
    assert(GT::spow_steps(GT(gt_of(1, 0)), GT(gt_of(75, 33)), 600) == GT::spow_steps(GT(gt_of(1, 0)), GT(gt_of(92, 23)), 300));
    lemma_gt_mul_at((92, 23), (92, 23), (57, 67), (78, 36));
    assert(GT::spow_steps(GT(gt_of(1, 0)), GT(gt_of(92, 23)), 300) == GT::spow_steps(GT(gt_of(1, 0)), GT(gt_of(57, 67)), 150));
    lemma_gt_mul_at((57, 67), (57, 67), (73, 18), (-13, 31));
    assert(GT::spow_steps(GT(gt_of(1, 0)), GT(gt_of(57, 67)), 150) == GT::spow_steps(GT(gt_of(1, 0)), GT(gt_of(73, 18)), 75));
    lemma_gt_mul_at((1, 0), (73, 18), (73, 18), (0, 0));
    lemma_gt_mul_at((73, 18), (73, 18), (56, 82), (49, 22));
    assert(GT::spow_steps(GT(gt_of(1, 0)), GT(gt_of(73, 18)), 75) == GT::spow_steps(GT(gt_of(73, 18)), GT(gt_of(56, 82)), 37));
    lemma_gt_mul_at((73, 18), (56, 82), (87, 64), (25, 54));
    lemma_gt_mul_at((56, 82), (56, 82), (48, 36), (-36, 24));
    assert(GT::spow_steps(GT(gt_of(73, 18)), GT(gt_of(56, 82)), 37) == GT::spow_steps(GT(gt_of(87, 64)), GT(gt_of(48, 36)), 18));
    lemma_gt_mul_at((48, 36), (48, 36), (99, 39), (9, 21));
    assert(GT::spow_steps(GT(gt_of(87, 64)), GT(gt_of(48, 36)), 18) == GT::spow_steps(GT(gt_of(87, 64)), GT(gt_of(99, 39)), 9));
    lemma_gt_mul_at((87, 64), (99, 39), (57, 62), (60, 71));
    lemma_gt_mul_at((99, 39), (99, 39), (99, 40), (81, 61));
    assert(GT::spow_steps(GT(gt_of(87, 64)), GT(gt_of(99, 39)), 9) == GT::spow_steps(GT(gt_of(57, 62)), GT(gt_of(99, 40)), 4));
    lemma_gt_mul_at((99, 40), (99, 40), (20, 58), (81, 62));
    assert(GT::spow_steps(GT(gt_of(57, 62)), GT(gt_of(99, 40)), 4) == GT::spow_steps(GT(gt_of(57, 62)), GT(gt_of(20, 58)), 2));
    lemma_gt_mul_at((20, 58), (20, 58), (66, 67), (-30, -11));
    assert(GT::spow_steps(GT(gt_of(57, 62)), GT(gt_of(20, 58)), 2) == GT::spow_steps(GT(gt_of(57, 62)), GT(gt_of(66, 67)), 1));
    lemma_gt_mul_at((57, 62), (66, 67), (12, 20), (-4, 37));
    lemma_gt_mul_at((66, 67), (66, 67), (69, 12), (-2, 43));
    assert(GT::spow_steps(GT(gt_of(57, 62)), GT(gt_of(66, 67)), 1) == GT::spow_steps(GT(gt_of(12, 20)), GT(gt_of(69, 12)), 0));
}

/// The pairing of `13G` with the point `26 P` of the image of `H`.
proof fn lemma_pairing_13_26()
    ensures
        smiller_loop(g1p(65, 3), dq(1, 99)) is Some,
        spairing_at(g1p(65, 3), dq(1, 99)) == GT(gt_of(12, 20)),
{
    lemma_final_exponent();
    lemma_tangent_13_26();
    lemma_tangent_9_26();
    lemma_tangent_1_26();
    lemma_tangent_2_26();
    lemma_vertical_at(65, 98, 3, 1, 99);
    lemma_miller_at(
        g1p(65, 3),
        dq(1, 99),
        (g1p(18, 52), g1p(1, 2), g1p(68, 74), g1p(65, 98)),
        (10, 24),
        (80, 0),
        (66, 35),
        (93, 64),
        (-65, 1),
        ((29, 5, -5, -1), (98, 97, 22, 3), (94, 8, 1, 95), (66, 3, 58, 35)),
        ((4, 84, 43, 3), (46, 66, -50, 26), (75, 33, -31, -43)),
    );
    lemma_final_exp_13_26();
}

proof fn lemma_final_exp_14_26()
    ensures
        GT(gt_of(51, 4)).spow(600) == GT(gt_of(28, 39)),
{
    assert(GT::sone() == GT(gt_of(1, 0)));
    lemma_gt_mul_at((51, 4), (51, 4), (60, 89), (25, 3));
    assert(GT::spow_steps(GT(gt_of(1, 0)), GT(gt_of(51, 4)), 600) == GT::spow_steps(GT(gt_of(1, 0)), GT(gt_of(60, 89)), 300));
    lemma_gt_mul_at((60, 89), (60, 89), (22, 32), (-43, 27));
    assert(GT::spow_steps(GT(gt_of(1, 0)), GT(gt_of(60, 89)), 300) == GT::spow_steps(GT(gt_of(1, 0)), GT(gt_of(22, 32)), 150));
    lemma_gt_mul_at((22, 32), (22, 32), (66, 81), (-6, 3));
    assert(GT::spow_steps(GT(gt_of(1, 0)), GT(gt_of(22, 32)), 150) == GT::spow_steps(GT(gt_of(1, 0)), GT(gt_of(66, 81)), 75));
    lemma_gt_mul_at((1, 0), (66, 81), (66, 81), (0, 0));
    lemma_gt_mul_at((66, 81), (66, 81), (17, 91), (-22, 40));
    assert(GT::spow_steps(GT(gt_of(1, 0)), GT(gt_of(66, 81)), 75) == GT::spow_steps(GT(gt_of(66, 81)), GT(gt_of(17, 91)), 37));
    lemma_gt_mul_at((66, 81), (17, 91), (13, 12), (-62, 0));
    lemma_gt_mul_at((17, 91), (17, 91), (88, 65), (-80, -52));
    assert(GT::spow_steps(GT(gt_of(66, 81)), GT(gt_of(17, 91)), 37) == GT::spow_steps(GT(gt_of(13, 12)), GT(gt_of(88, 65)), 18));
    lemma_gt_mul_at((88, 65), (88, 65), (85, 44), (34, 71));
    assert(GT::spow_steps(GT(gt_of(13, 12)), GT(gt_of(88, 65)), 18) == GT::spow_steps(GT(gt_of(13, 12)), GT(gt_of(85, 44)), 9));
    lemma_gt_mul_at((13, 12), (85, 44), (72, 54), (5, 10));
    lemma_gt_mul_at((85, 44), (85, 44), (37, 90), (52, 54));
    assert(GT::spow_steps(GT(gt_of(13, 12)), GT(gt_of(85, 44)), 9) == GT::spow_steps(GT(gt_of(72, 54)), GT(gt_of(37, 90)), 4));
    lemma_gt_mul_at((37, 90), (37, 90), (36, 75), (-67, -15));
    assert(GT::spow_steps(GT(gt_of(72, 54)), GT(gt_of(37, 90)), 4) == GT::spow_steps(GT(gt_of(72, 54)), GT(gt_of(36, 75)), 2));
    lemma_gt_mul_at((36, 75), (36, 75), (14, 78), (-43, -3));
    assert(GT::spow_steps(GT(gt_of(72, 54)), GT(gt_of(36, 75)), 2) == GT::spow_steps(GT(gt_of(72, 54)), GT(gt_of(14, 78)), 1));
    lemma_gt_mul_at((72, 54), (14, 78), (28, 39), (-32, 21));
    lemma_gt_mul_at((14, 78), (14, 78), (71, 39), (-59, -39));
    assert(GT::spow_steps(GT(gt_of(72, 54)), GT(gt_of(14, 78)), 1) == GT::spow_steps(GT(gt_of(28, 39)), GT(gt_of(71, 39)), 0));
}

/// The pairing of `14G` with the point `26 P` of the image of `H`.
proof fn lemma_pairing_14_26()
    ensures
        smiller_loop(g1p(26, 56), dq(1, 99)) is Some,
        spairing_at(g1p(26, 56), dq(1, 99)) == GT(gt_of(28, 39)),
{
    lemma_final_exponent();
    lemma_tangent_14_26();
    lemma_tangent_11_26();
    lemma_tangent_5_26();
    lemma_tangent_10_26();
    lemma_vertical_at(26, 45, 56, 1, 99);
    lemma_miller_at(
        g1p(26, 56),
        dq(1, 99),
        (g1p(32, 59), g1p(12, 32), g1p(91, 66), g1p(26, 45)),
        (54, 74),
        (26, 68),
        (72, 67),
        (24, 36),
        (-26, 1),
        ((66, 92, -26, 24), (5, 18, -45, 6), (4, 58, -3, -2), (38, 53, -36, 5)),
        ((49, 7, -14, 12), (15, 64, 9, 16), (51, 4, -5, -17)),
    );
    lemma_final_exp_14_26();
}

proof fn lemma_final_exp_15_26()
    ensures
        GT(gt_of(68, 2)).spow(600) == GT(gt_of(67, 72)),
{
    assert(GT::sone() == GT(gt_of(1, 0)));
    lemma_gt_mul_at((68, 2), (68, 2), (75, 66), (45, 2));
    assert(GT::spow_steps(GT(gt_of(1, 0)), GT(gt_of(68, 2)), 600) == GT::spow_steps(GT(gt_of(1, 0)), GT(gt_of(75, 66)), 300));
    lemma_gt_mul_at((75, 66), (75, 66), (57, 90), (12, 54));
    assert(GT::spow_steps(GT(gt_of(1, 0)), GT(gt_of(75, 66)), 300) == GT::spow_steps(GT(gt_of(1, 0)), GT(gt_of(57, 90)), 150));
    lemma_gt_mul_at((57, 90), (57, 90), (98, 39), (-49, 21));
    assert(GT::spow_steps(GT(gt_of(1, 0)), GT(gt_of(57, 90)), 150) == GT::spow_steps(GT(gt_of(1, 0)), GT(gt_of(98, 39)), 75));
    lemma_gt_mul_at((1, 0), (98, 39), (98, 39), (0, 0));
    lemma_gt_mul_at((98, 39), (98, 39), (3, 63), (80, 60));
    assert(GT::spow_steps(GT(gt_of(1, 0)), GT(gt_of(98, 39)), 75) == GT::spow_steps(GT(gt_of(98, 39)), GT(gt_of(3, 63)), 37));
    lemma_gt_mul_at((98, 39), (3, 63), (59, 97), (-22, 37));
    lemma_gt_mul_at((3, 63), (3, 63), (80, 45), (-40, -36));
    assert(GT::spow_steps(GT(gt_of(98, 39)), GT(gt_of(3, 63)), 37) == GT::spow_steps(GT(gt_of(59, 97)), GT(gt_of(80, 45)), 18));
    lemma_gt_mul_at((80, 45), (80, 45), (32, 24), (43, 51));
    assert(GT::spow_steps(GT(gt_of(59, 97)), GT(gt_of(80, 45)), 18) == GT::spow_steps(GT(gt_of(59, 97)), GT(gt_of(32, 24)), 9));
    lemma_gt_mul_at((59, 97), (32, 24), (65, 71), (-5, 21));
    lemma_gt_mul_at((32, 24), (32, 24), (44, 51), (4, 9));
    assert(GT::spow_steps(GT(gt_of(59, 97)), GT(gt_of(32, 24)), 9) == GT::spow_steps(GT(gt_of(65, 71)), GT(gt_of(44, 51)), 4));
    lemma_gt_mul_at((44, 51), (44, 51), (42, 69), (-7, 18));
    assert(GT::spow_steps(GT(gt_of(65, 71)), GT(gt_of(44, 51)), 4) == GT::spow_steps(GT(gt_of(65, 71)), GT(gt_of(42, 69)), 2));
    lemma_gt_mul_at((42, 69), (42, 69), (33, 25), (-30, 10));
    assert(GT::spow_steps(GT(gt_of(65, 71)), GT(gt_of(42, 69)), 2) == GT::spow_steps(GT(gt_of(65, 71)), GT(gt_of(33, 25)), 1));
    lemma_gt_mul_at((65, 71), (33, 25), (67, 72), (3, 21));
    lemma_gt_mul_at((33, 25), (33, 25), (60, 15), (4, 10));
    assert(GT::spow_steps(GT(gt_of(65, 71)), GT(gt_of(33, 25)), 1) == GT::spow_steps(GT(gt_of(67, 72)), GT(gt_of(60, 15)), 0));
}

/// The pairing of `15G` with the point `26 P` of the image of `H`.
proof fn lemma_pairing_15_26()
    ensures
        smiller_loop(g1p(68, 27), dq(1, 99)) is Some,
        spairing_at(g1p(68, 27), dq(1, 99)) == GT(gt_of(67, 72)),
{
    lemma_final_exponent();
    lemma_tangent_15_26();
    lemma_tangent_13_26();
    lemma_tangent_9_26();
    lemma_tangent_1_26();
    lemma_vertical_at(68, 74, 27, 1, 99);
    lemma_miller_at(
        g1p(68, 27),
        dq(1, 99),
        (g1p(65, 3), g1p(18, 52), g1p(1, 2), g1p(68, 74)),
        (34, 68),
        (10, 24),
        (80, 0),
        (66, 35),
        (-68, 1),
        ((67, 0, -35, 0), (64, 93, 6, 15), (93, 23, -46, 32), (67, 22, 73, 18)),
        ((66, 40, 39, 24), (27, 15, 29, 35), (68, 2, -19, -10)),
    );
    lemma_final_exp_15_26();
}

proof fn lemma_final_exp_16_26()
    ensures
        GT(gt_of(41, 94)).spow(600) == GT(gt_of(42, 92)),
{
    assert(GT::sone() == GT(gt_of(1, 0)));
    lemma_gt_mul_at((41, 94), (41, 94), (16, 84), (-71, -12));
    assert(GT::spow_steps(GT(gt_of(1, 0)), GT(gt_of(41, 94)), 600) == GT::spow_steps(GT(gt_of(1, 0)), GT(gt_of(16, 84)), 300));
    lemma_gt_mul_at((16, 84), (16, 84), (68, 76), (-68, -44));
    assert(GT::spow_steps(GT(gt_of(1, 0)), GT(gt_of(16, 84)), 300) == GT::spow_steps(GT(gt_of(1, 0)), GT(gt_of(68, 76)), 150));
    lemma_gt_mul_at((68, 76), (68, 76), (60, 15), (-12, 45));
    assert(GT::spow_steps(GT(gt_of(1, 0)), GT(gt_of(68, 76)), 150) == GT::spow_steps(GT(gt_of(1, 0)), GT(gt_of(60, 15)), 75));
    lemma_gt_mul_at((1, 0), (60, 15), (60, 15), (0, 0));
    lemma_gt_mul_at((60, 15), (60, 15), (42, 60), (33, 15));
    assert(GT::spow_steps(GT(gt_of(1, 0)), GT(gt_of(60, 15)), 75) == GT::spow_steps(GT(gt_of(60, 15)), GT(gt_of(42, 60)), 37));
    lemma_gt_mul_at((60, 15), (42, 60), (4, 98), (16, 32));
    lemma_gt_mul_at((42, 60), (42, 60), (83, 26), (-19, 14));
    assert(GT::spow_steps(GT(gt_of(60, 15)), GT(gt_of(42, 60)), 37) == GT::spow_steps(GT(gt_of(4, 98)), GT(gt_of(83, 26)), 18));
    lemma_gt_mul_at((83, 26), (83, 26), (52, 4), (61, 36));
    assert(GT::spow_steps(GT(gt_of(4, 98)), GT(gt_of(83, 26)), 18) == GT::spow_steps(GT(gt_of(4, 98)), GT(gt_of(52, 4)), 9));
    lemma_gt_mul_at((4, 98), (52, 4), (18, 74), (-2, 46));
    lemma_gt_mul_at((52, 4), (52, 4), (62, 97), (26, 3));
    assert(GT::spow_steps(GT(gt_of(4, 98)), GT(gt_of(52, 4)), 9) == GT::spow_steps(GT(gt_of(18, 74)), GT(gt_of(62, 97)), 4));
    lemma_gt_mul_at((62, 97), (62, 97), (91, 94), (-56, 25));
    assert(GT::spow_steps(GT(gt_of(18, 74)), GT(gt_of(62, 97)), 4) == GT::spow_steps(GT(gt_of(18, 74)), GT(gt_of(91, 94)), 2));
    lemma_gt_mul_at((91, 94), (91, 94), (51, 91), (-6, 81));
    assert(GT::spow_steps(GT(gt_of(18, 74)), GT(gt_of(91, 94)), 2) == GT::spow_steps(GT(gt_of(18, 74)), GT(gt_of(51, 91)), 1));
    lemma_gt_mul_at((18, 74), (51, 91), (42, 92), (-58, -14));
    lemma_gt_mul_at((51, 91), (51, 91), (77, 92), (-57, 9));
    assert(GT::spow_steps(GT(gt_of(18, 74)), GT(gt_of(51, 91)), 1) == GT::spow_steps(GT(gt_of(42, 92)), GT(gt_of(77, 92)), 0));
}

/// The pairing of `16G` with the point `26 P` of the image of `H`.
proof fn lemma_pairing_16_26()
    ensures
        smiller_loop(g1p(1, 99), dq(1, 99)) is Some,
        spairing_at(g1p(1, 99), dq(1, 99)) == GT(gt_of(42, 92)),
{
    lemma_final_exponent();
    lemma_tangent_16_26();
    lemma_tangent_15_26();
    lemma_tangent_13_26();
    lemma_tangent_9_26();
    lemma_vertical_at(1, 2, 99, 1, 99);
    lemma_miller_at(
        g1p(1, 99),
        dq(1, 99),
        (g1p(68, 27), g1p(65, 3), g1p(18, 52), g1p(1, 2)),
        (86, 36),
        (34, 68),
        (10, 24),
        (80, 0),
        (-1, 1),
        ((40, 48, 60, 48), (15, 78, -19, 10), (100, 94, -59, -38), (57, 74, -13, 10)),
        ((96, 31, -23, 29), (4, 56, 76, 24), (41, 94, -1, -2)),
    );
    lemma_final_exp_16_26();
}

proof fn lemma_final_exp_1_27()
    ensures
        GT(gt_of(100, 7)).spow(600) == GT(gt_of(90, 62)),
{
    assert(GT::sone() == GT(gt_of(1, 0)));
    lemma_gt_mul_at((100, 7), (100, 7), (53, 38), (98, 13));
    assert(GT::spow_steps(GT(gt_of(1, 0)), GT(gt_of(100, 7)), 600) == GT::spow_steps(GT(gt_of(1, 0)), GT(gt_of(53, 38)), 300));
    lemma_gt_mul_at((53, 38), (53, 38), (52, 59), (13, 25));
    assert(GT::spow_steps(GT(gt_of(1, 0)), GT(gt_of(53, 38)), 300) == GT::spow_steps(GT(gt_of(1, 0)), GT(gt_of(52, 59)), 150));
    lemma_gt_mul_at((52, 59), (52, 59), (31, 29), (-8, 26));
    assert(GT::spow_steps(GT(gt_of(1, 0)), GT(gt_of(52, 59)), 150) == GT::spow_steps(GT(gt_of(1, 0)), GT(gt_of(31, 29)), 75));
    lemma_gt_mul_at((1, 0), (31, 29), (31, 29), (0, 0));
    lemma_gt_mul_at((31, 29), (31, 29), (19, 48), (1, 9));
    assert(GT::spow_steps(GT(gt_of(1, 0)), GT(gt_of(31, 29)), 75) == GT::spow_steps(GT(gt_of(31, 29)), GT(gt_of(19, 48)), 37));
    lemma_gt_mul_at((31, 29), (19, 48), (5, 41), (-8, 6));
    lemma_gt_mul_at((19, 48), (19, 48), (77, 25), (-20, -5));
    assert(GT::spow_steps(GT(gt_of(31, 29)), GT(gt_of(19, 48)), 37) == GT::spow_steps(GT(gt_of(5, 41)), GT(gt_of(77, 25)), 18));
    lemma_gt_mul_at((77, 25), (77, 25), (52, 94), (52, 31));
    assert(GT::spow_steps(GT(gt_of(5, 41)), GT(gt_of(77, 25)), 18) == GT::spow_steps(GT(gt_of(5, 41)), GT(gt_of(52, 94)), 9));
    lemma_gt_mul_at((5, 41), (52, 94), (42, 61), (-36, -13));
    lemma_gt_mul_at((52, 94), (52, 94), (29, 31), (-61, 9));
    assert(GT::spow_steps(GT(gt_of(5, 41)), GT(gt_of(52, 94)), 9) == GT::spow_steps(GT(gt_of(42, 61)), GT(gt_of(29, 31)), 4));
    lemma_gt_mul_at((29, 31), (29, 31), (82, 29), (-2, 8));
    assert(GT::spow_steps(GT(gt_of(42, 61)), GT(gt_of(29, 31)), 4) == GT::spow_steps(GT(gt_of(42, 61)), GT(gt_of(82, 29)), 2));
    lemma_gt_mul_at((82, 29), (82, 29), (25, 77), (58, 38));
    assert(GT::spow_steps(GT(gt_of(42, 61)), GT(gt_of(82, 29)), 2) == GT::spow_steps(GT(gt_of(42, 61)), GT(gt_of(25, 77)), 1));
    lemma_gt_mul_at((42, 61), (25, 77), (90, 62), (-37, 0));
    lemma_gt_mul_at((25, 77), (25, 77), (49, 42), (-53, -21));
    assert(GT::spow_steps(GT(gt_of(42, 61)), GT(gt_of(25, 77)), 1) == GT::spow_steps(GT(gt_of(90, 62)), GT(gt_of(49, 42)), 0));
}

/// The pairing of `1G` with the point `27 P` of the image of `H`.
proof fn lemma_pairing_1_27()
    ensures
        smiller_loop(g1p(1, 2), dq(46, 50)) is Some,
        spairing_at(g1p(1, 2), dq(46, 50)) == GT(gt_of(90, 62)),
{
    lemma_final_exponent();
    lemma_tangent_1_27();
    lemma_tangent_2_27();
    lemma_tangent_4_27();
    lemma_tangent_8_27();
    lemma_vertical_at(1, 99, 2, 46, 50);
    lemma_miller_at(
        g1p(1, 2),
        dq(46, 50),
        (g1p(68, 74), g1p(65, 98), g1p(18, 49), g1p(1, 99)),
        (21, 42),
        (86, 87),
        (68, 25),
        (25, 34),
        (-1, 46),
        ((91, 0, -14, 0), (49, 39, 77, 78), (72, 79, 8, 22), (93, 46, 28, 51)),
        ((69, 77, 64, 63), (16, 37, -9, 16), (100, 7, -18, -10)),
    );
    lemma_final_exp_1_27();
}

proof fn lemma_final_exp_2_27()
    ensures
        GT(gt_of(18, 39)).spow(600) == GT(gt_of(14, 44)),
{
    assert(GT::sone() == GT(gt_of(1, 0)));
    lemma_gt_mul_at((18, 39), (18, 39), (15, 85), (-12, -2));
    assert(GT::spow_steps(GT(gt_of(1, 0)), GT(gt_of(18, 39)), 600) == GT::spow_steps(GT(gt_of(1, 0)), GT(gt_of(15, 85)), 300));
    lemma_gt_mul_at((15, 85), (15, 85), (70, 72), (-70, -47));
    assert(GT::spow_steps(GT(gt_of(1, 0)), GT(gt_of(15, 85)), 300) == GT::spow_steps(GT(gt_of(1, 0)), GT(gt_of(70, 72)), 150));
    lemma_gt_mul_at((70, 72), (70, 72), (19, 48), (-3, 48));
    assert(GT::spow_steps(GT(gt_of(1, 0)), GT(gt_of(70, 72)), 150) == GT::spow_steps(GT(gt_of(1, 0)), GT(gt_of(19, 48)), 75));
    lemma_gt_mul_at((1, 0), (19, 48), (19, 48), (0, 0));
    lemma_gt_mul_at((19, 48), (19, 48), (77, 25), (-20, -5));
    assert(GT::spow_steps(GT(gt_of(1, 0)), GT(gt_of(19, 48)), 75) == GT::spow_steps(GT(gt_of(19, 48)), GT(gt_of(77, 25)), 37));
    lemma_gt_mul_at((19, 48), (77, 25), (61, 42), (2, 29));
    lemma_gt_mul_at((77, 25), (77, 25), (52, 94), (52, 31));
    assert(GT::spow_steps(GT(gt_of(19, 48)), GT(gt_of(77, 25)), 37) == GT::spow_steps(GT(gt_of(61, 42)), GT(gt_of(52, 94)), 18));
    lemma_gt_mul_at((52, 94), (52, 94), (29, 31), (-61, 9));
    assert(GT::spow_steps(GT(gt_of(61, 42)), GT(gt_of(52, 94)), 18) == GT::spow_steps(GT(gt_of(61, 42)), GT(gt_of(29, 31)), 9));
    lemma_gt_mul_at((61, 42), (29, 31), (63, 90), (4, 17));
    lemma_gt_mul_at((29, 31), (29, 31), (82, 29), (-2, 8));
    assert(GT::spow_steps(GT(gt_of(61, 42)), GT(gt_of(29, 31)), 9) == GT::spow_steps(GT(gt_of(63, 90)), GT(gt_of(82, 29)), 4));
    lemma_gt_mul_at((82, 29), (82, 29), (25, 77), (58, 38));
    assert(GT::spow_steps(GT(gt_of(63, 90)), GT(gt_of(82, 29)), 4) == GT::spow_steps(GT(gt_of(63, 90)), GT(gt_of(25, 77)), 2));
    lemma_gt_mul_at((25, 77), (25, 77), (49, 42), (-53, -21));
    assert(GT::spow_steps(GT(gt_of(63, 90)), GT(gt_of(25, 77)), 2) == GT::spow_steps(GT(gt_of(63, 90)), GT(gt_of(49, 42)), 1));
    lemma_gt_mul_at((63, 90), (49, 42), (14, 44), (-7, 32));
    lemma_gt_mul_at((49, 42), (49, 42), (31, 29), (6, 23));
    assert(GT::spow_steps(GT(gt_of(63, 90)), GT(gt_of(49, 42)), 1) == GT::spow_steps(GT(gt_of(14, 44)), GT(gt_of(31, 29)), 0));
}

/// The pairing of `2G` with the point `27 P` of the image of `H`.
proof fn lemma_pairing_2_27()
    ensures
        smiller_loop(g1p(68, 74), dq(46, 50)) is Some,
        spairing_at(g1p(68, 74), dq(46, 50)) == GT(gt_of(14, 44)),
{
    lemma_final_exponent();
    lemma_tangent_2_27();
    lemma_tangent_4_27();
    lemma_tangent_8_27();
    lemma_tangent_16_27();
    lemma_vertical_at(68, 27, 74, 46, 50);
    lemma_miller_at(
        g1p(68, 74),
        dq(46, 50),
        (g1p(65, 98), g1p(18, 49), g1p(1, 99), g1p(68, 27)),
        (86, 87),
        (68, 25),
        (25, 34),
        (56, 44),
        (-68, 46),
        ((29, 22, -2, 73), (8, 55, 14, 16), (69, 77, -30, -22), (16, 37, -9, 16)),
        ((99, 17, -12, -2), (49, 15, 47, 45), (18, 39, -40, 5)),
    );
    lemma_final_exp_2_27();
}

proof fn lemma_final_exp_3_27()
    ensures
        GT(gt_of(81, 60)).spow(600) == GT(gt_of(47, 80)),
{
    assert(GT::sone() == GT(gt_of(1, 0)));
    lemma_gt_mul_at((81, 60), (81, 60), (32, 60), (29, 60));
    assert(GT::spow_steps(GT(gt_of(1, 0)), GT(gt_of(81, 60)), 600) == GT::spow_steps(GT(gt_of(1, 0)), GT(gt_of(32, 60)), 300));
    lemma_gt_mul_at((32, 60), (32, 60), (50, 38), (-26, 2));
    assert(GT::spow_steps(GT(gt_of(1, 0)), GT(gt_of(32, 60)), 300) == GT::spow_steps(GT(gt_of(1, 0)), GT(gt_of(50, 38)), 150));
    lemma_gt_mul_at((50, 38), (50, 38), (46, 33), (10, 23));
    assert(GT::spow_steps(GT(gt_of(1, 0)), GT(gt_of(50, 38)), 150) == GT::spow_steps(GT(gt_of(1, 0)), GT(gt_of(46, 33)), 75));
    lemma_gt_mul_at((1, 0), (46, 33), (46, 33), (0, 0));
    lemma_gt_mul_at((46, 33), (46, 33), (17, 28), (10, 19));
    assert(GT::spow_steps(GT(gt_of(1, 0)), GT(gt_of(46, 33)), 75) == GT::spow_steps(GT(gt_of(46, 33)), GT(gt_of(17, 28)), 37));
    lemma_gt_mul_at((46, 33), (17, 28), (60, 16), (-2, 9));
    lemma_gt_mul_at((17, 28), (17, 28), (10, 67), (-5, 1));
    assert(GT::spow_steps(GT(gt_of(46, 33)), GT(gt_of(17, 28)), 37) == GT::spow_steps(GT(gt_of(60, 16)), GT(gt_of(10, 67)), 18));
    lemma_gt_mul_at((10, 67), (10, 67), (55, 83), (-44, -32));
    assert(GT::spow_steps(GT(gt_of(60, 16)), GT(gt_of(10, 67)), 18) == GT::spow_steps(GT(gt_of(60, 16)), GT(gt_of(55, 83)), 9));
    lemma_gt_mul_at((60, 16), (55, 83), (53, 88), (19, 44));
    lemma_gt_mul_at((55, 83), (55, 83), (75, 19), (-39, 22));
    assert(GT::spow_steps(GT(gt_of(60, 16)), GT(gt_of(55, 83)), 9) == GT::spow_steps(GT(gt_of(53, 88)), GT(gt_of(75, 19)), 4));
    lemma_gt_mul_at((75, 19), (75, 19), (12, 65), (52, 24));
    assert(GT::spow_steps(GT(gt_of(53, 88)), GT(gt_of(75, 19)), 4) == GT::spow_steps(GT(gt_of(53, 88)), GT(gt_of(12, 65)), 2));
    lemma_gt_mul_at((12, 65), (12, 65), (60, 62), (-41, -27));
    assert(GT::spow_steps(GT(gt_of(53, 88)), GT(gt_of(12, 65)), 2) == GT::spow_steps(GT(gt_of(53, 88)), GT(gt_of(60, 62)), 1));
    lemma_gt_mul_at((53, 88), (60, 62), (47, 80), (-23, 30));
    lemma_gt_mul_at((60, 62), (60, 62), (59, 61), (-3, 35));
    assert(GT::spow_steps(GT(gt_of(53, 88)), GT(gt_of(60, 62)), 1) == GT::spow_steps(GT(gt_of(47, 80)), GT(gt_of(59, 61)), 0));
}

/// The pairing of `3G` with the point `27 P` of the image of `H`.
proof fn lemma_pairing_3_27()
    ensures
        smiller_loop(g1p(26, 45), dq(46, 50)) is Some,
        spairing_at(g1p(26, 45), dq(46, 50)) == GT(gt_of(47, 80)),
{
    lemma_final_exponent();
    lemma_tangent_3_27();
    lemma_tangent_6_27();
    lemma_tangent_12_27();
    lemma_tangent_7_27();
    lemma_vertical_at(26, 56, 45, 46, 50);
    lemma_miller_at(
        g1p(26, 45),
        dq(46, 50),
        (g1p(32, 42), g1p(12, 69), g1p(91, 35), g1p(26, 56)),
        (80, 71),
        (90, 77),
        (39, 37),
        (77, 86),
        (-26, 46),
        ((46, 57, 13, 62), (54, 41, -3, 42), (23, 20, 12, 27), (56, 83, 1, 8)),
        ((85, 84, -38, 23), (28, 90, -7, 64), (81, 60, -49, -52)),
    );
    lemma_final_exp_3_27();
}

proof fn lemma_final_exp_4_27()
    ensures
        GT(gt_of(95, 67)).spow(600) == GT(gt_of(78, 3)),
{
    assert(GT::sone() == GT(gt_of(1, 0)));
    lemma_gt_mul_at((95, 67), (95, 67), (92, 60), (44, 81));
    assert(GT::spow_steps(GT(gt_of(1, 0)), GT(gt_of(95, 67)), 600) == GT::spow_steps(GT(gt_of(1, 0)), GT(gt_of(92, 60)), 300));
    lemma_gt_mul_at((92, 60), (92, 60), (16, 67), (48, 73));
    assert(GT::spow_steps(GT(gt_of(1, 0)), GT(gt_of(92, 60)), 300) == GT::spow_steps(GT(gt_of(1, 0)), GT(gt_of(16, 67)), 150));
    lemma_gt_mul_at((16, 67), (16, 67), (9, 79), (-42, -24));
    assert(GT::spow_steps(GT(gt_of(1, 0)), GT(gt_of(16, 67)), 150) == GT::spow_steps(GT(gt_of(1, 0)), GT(gt_of(9, 79)), 75));
    lemma_gt_mul_at((1, 0), (9, 79), (9, 79), (0, 0));
    lemma_gt_mul_at((9, 79), (9, 79), (1, 29), (-61, -48));
    assert(GT::spow_steps(GT(gt_of(1, 0)), GT(gt_of(9, 79)), 75) == GT::spow_steps(GT(gt_of(9, 79)), GT(gt_of(1, 29)), 37));
    lemma_gt_mul_at((9, 79), (1, 29), (41, 69), (-23, -20));
    lemma_gt_mul_at((1, 29), (1, 29), (69, 25), (-9, -8));
    assert(GT::spow_steps(GT(gt_of(9, 79)), GT(gt_of(1, 29)), 37) == GT::spow_steps(GT(gt_of(41, 69)), GT(gt_of(69, 25)), 18));
    lemma_gt_mul_at((69, 25), (69, 25), (96, 98), (40, 27));
    assert(GT::spow_steps(GT(gt_of(41, 69)), GT(gt_of(69, 25)), 18) == GT::spow_steps(GT(gt_of(41, 69)), GT(gt_of(96, 98)), 9));
    lemma_gt_mul_at((41, 69), (96, 98), (2, 42), (-28, 38));
    lemma_gt_mul_at((96, 98), (96, 98), (16, 21), (-4, 91));
    assert(GT::spow_steps(GT(gt_of(41, 69)), GT(gt_of(96, 98)), 9) == GT::spow_steps(GT(gt_of(2, 42)), GT(gt_of(16, 21)), 4));
    lemma_gt_mul_at((16, 21), (16, 21), (17, 29), (-2, 2));
    assert(GT::spow_steps(GT(gt_of(2, 42)), GT(gt_of(16, 21)), 4) == GT::spow_steps(GT(gt_of(2, 42)), GT(gt_of(17, 29)), 2));
    lemma_gt_mul_at((17, 29), (17, 29), (54, 44), (-6, 1));
    assert(GT::spow_steps(GT(gt_of(2, 42)), GT(gt_of(17, 29)), 2) == GT::spow_steps(GT(gt_of(2, 42)), GT(gt_of(54, 44)), 1));
    lemma_gt_mul_at((2, 42), (54, 44), (78, 3), (-18, 5));
    lemma_gt_mul_at((54, 44), (54, 44), (71, 89), (9, 27));
    assert(GT::spow_steps(GT(gt_of(2, 42)), GT(gt_of(54, 44)), 1) == GT::spow_steps(GT(gt_of(78, 3)), GT(gt_of(71, 89)), 0));
}

/// The pairing of `4G` with the point `27 P` of the image of `H`.
proof fn lemma_pairing_4_27()
    ensures
        smiller_loop(g1p(65, 98), dq(46, 50)) is Some,
        spairing_at(g1p(65, 98), dq(46, 50)) == GT(gt_of(78, 3)),
{
    lemma_final_exponent();
    lemma_tangent_4_27();
    lemma_tangent_8_27();
    lemma_tangent_16_27();
    lemma_tangent_15_27();
    lemma_vertical_at(65, 3, 98, 46, 50);
    lemma_miller_at(
        g1p(65, 98),
        dq(46, 50),
        (g1p(18, 49), g1p(1, 99), g1p(68, 27), g1p(65, 3)),
        (68, 25),
        (25, 34),
        (56, 44),
        (80, 10),
        (-65, 46),
        ((60, 48, 39, 27), (70, 93, -2, 15), (89, 28, -38, 43), (15, 10, 37, 42)),
        ((24, 99, 1, 1), (21, 100, 9, 70), (95, 67, -60, -101)),
    );
    lemma_final_exp_4_27();
}

proof fn lemma_final_exp_5_27()
    ensures
        GT(gt_of(61, 20)).spow(600) == GT(gt_of(67, 72)),
{
    assert(GT::sone() == GT(gt_of(1, 0)));
    lemma_gt_mul_at((61, 20), (61, 20), (89, 20), (32, 20));
    assert(GT::spow_steps(GT(gt_of(1, 0)), GT(gt_of(61, 20)), 600) == GT::spow_steps(GT(gt_of(1, 0)), GT(gt_of(89, 20)), 300));
    lemma_gt_mul_at((89, 20), (89, 20), (47, 29), (74, 31));
    assert(GT::spow_steps(GT(gt_of(1, 0)), GT(gt_of(89, 20)), 300) == GT::spow_steps(GT(gt_of(1, 0)), GT(gt_of(47, 29)), 150));
    lemma_gt_mul_at((47, 29), (47, 29), (55, 67), (13, 18));
    assert(GT::spow_steps(GT(gt_of(1, 0)), GT(gt_of(47, 29)), 150) == GT::spow_steps(GT(gt_of(1, 0)), GT(gt_of(55, 67)), 75));
    lemma_gt_mul_at((1, 0), (55, 67), (55, 67), (0, 0));
    lemma_gt_mul_at((55, 67), (55, 67), (51, 53), (-15, 28));
    assert(GT::spow_steps(GT(gt_of(1, 0)), GT(gt_of(55, 67)), 75) == GT::spow_steps(GT(gt_of(55, 67)), GT(gt_of(51, 53)), 37));
    lemma_gt_mul_at((55, 67), (51, 53), (62, 54), (-8, 27));
    lemma_gt_mul_at((51, 53), (51, 53), (95, 72), (-3, 25));
    assert(GT::spow_steps(GT(gt_of(55, 67)), GT(gt_of(51, 53)), 37) == GT::spow_steps(GT(gt_of(62, 54)), GT(gt_of(95, 72)), 18));
    lemma_gt_mul_at((95, 72), (95, 72), (3, 12), (38, 84));
    assert(GT::spow_steps(GT(gt_of(62, 54)), GT(gt_of(95, 72)), 18) == GT::spow_steps(GT(gt_of(62, 54)), GT(gt_of(3, 12)), 9));
    lemma_gt_mul_at((62, 54), (3, 12), (43, 56), (-5, 2));
    lemma_gt_mul_at((3, 12), (3, 12), (67, 29), (-2, -1));
    assert(GT::spow_steps(GT(gt_of(62, 54)), GT(gt_of(3, 12)), 9) == GT::spow_steps(GT(gt_of(43, 56)), GT(gt_of(67, 29)), 4));
    lemma_gt_mul_at((67, 29), (67, 29), (12, 15), (36, 30));
    assert(GT::spow_steps(GT(gt_of(43, 56)), GT(gt_of(67, 29)), 4) == GT::spow_steps(GT(gt_of(43, 56)), GT(gt_of(12, 15)), 2));
    lemma_gt_mul_at((12, 15), (12, 15), (20, 34), (-1, 1));
    assert(GT::spow_steps(GT(gt_of(43, 56)), GT(gt_of(12, 15)), 2) == GT::spow_steps(GT(gt_of(43, 56)), GT(gt_of(20, 34)), 1));
    lemma_gt_mul_at((43, 56), (20, 34), (67, 72), (-11, 6));
    lemma_gt_mul_at((20, 34), (20, 34), (52, 2), (-8, 2));
    assert(GT::spow_steps(GT(gt_of(43, 56)), GT(gt_of(20, 34)), 1) == GT::spow_steps(GT(gt_of(67, 72)), GT(gt_of(52, 2)), 0));
}

/// The pairing of `5G` with the point `27 P` of the image of `H`.
proof fn lemma_pairing_5_27()
    ensures
        smiller_loop(g1p(12, 32), dq(46, 50)) is Some,
        spairing_at(g1p(12, 32), dq(46, 50)) == GT(gt_of(67, 72)),
{
    lemma_final_exponent();
    lemma_tangent_5_27();
    lemma_tangent_10_27();
    lemma_tangent_3_27();
    lemma_tangent_6_27();
    lemma_vertical_at(12, 69, 32, 46, 50);
    lemma_miller_at(
        g1p(12, 32),
        dq(46, 50),
        (g1p(91, 66), g1p(26, 45), g1p(32, 42), g1p(12, 69)),
        (94, 60),
        (77, 18),
        (80, 71),
        (90, 77),
        (-12, 46),
        ((85, 4, 51, 76), (9, 49, 64, 17), (3, 97, -23, -16), (19, 76, -66, 10)),
        ((39, 41, -54, -29), (50, 1, 3, 35), (61, 20, -7, 22)),
    );
    lemma_final_exp_5_27();
}

proof fn lemma_final_exp_6_27()
    ensures
        GT(gt_of(30, 9)).spow(600) == GT(gt_of(51, 9)),
{
    assert(GT::sone() == GT(gt_of(1, 0)));
    lemma_gt_mul_at((30, 9), (30, 9), (11, 55), (8, 4));
    assert(GT::spow_steps(GT(gt_of(1, 0)), GT(gt_of(30, 9)), 600) == GT::spow_steps(GT(gt_of(1, 0)), GT(gt_of(11, 55)), 300));
    lemma_gt_mul_at((11, 55), (11, 55), (25, 3), (-29, -18));
    assert(GT::spow_steps(GT(gt_of(1, 0)), GT(gt_of(11, 55)), 300) == GT::spow_steps(GT(gt_of(1, 0)), GT(gt_of(25, 3)), 150));
    lemma_gt_mul_at((25, 3), (25, 3), (10, 40), (6, 1));
    assert(GT::spow_steps(GT(gt_of(1, 0)), GT(gt_of(25, 3)), 150) == GT::spow_steps(GT(gt_of(1, 0)), GT(gt_of(10, 40)), 75));
    lemma_gt_mul_at((1, 0), (10, 40), (10, 40), (0, 0));
    lemma_gt_mul_at((10, 40), (10, 40), (15, 8), (-15, -8));
    assert(GT::spow_steps(GT(gt_of(1, 0)), GT(gt_of(10, 40)), 75) == GT::spow_steps(GT(gt_of(10, 40)), GT(gt_of(15, 8)), 37));
    lemma_gt_mul_at((10, 40), (15, 8), (32, 57), (-2, 3));
    lemma_gt_mul_at((15, 8), (15, 8), (60, 75), (1, 1));
    assert(GT::spow_steps(GT(gt_of(10, 40)), GT(gt_of(15, 8)), 37) == GT::spow_steps(GT(gt_of(32, 57)), GT(gt_of(60, 75)), 18));
    lemma_gt_mul_at((60, 75), (60, 75), (96, 42), (-21, 33));
    assert(GT::spow_steps(GT(gt_of(32, 57)), GT(gt_of(60, 75)), 18) == GT::spow_steps(GT(gt_of(32, 57)), GT(gt_of(96, 42)), 9));
    lemma_gt_mul_at((32, 57), (96, 42), (72, 79), (6, 43));
    lemma_gt_mul_at((96, 42), (96, 42), (79, 38), (73, 62));
    assert(GT::spow_steps(GT(gt_of(32, 57)), GT(gt_of(96, 42)), 9) == GT::spow_steps(GT(gt_of(72, 79)), GT(gt_of(79, 38)), 4));
    lemma_gt_mul_at((79, 38), (79, 38), (50, 15), (47, 45));
    assert(GT::spow_steps(GT(gt_of(72, 79)), GT(gt_of(79, 38)), 4) == GT::spow_steps(GT(gt_of(72, 79)), GT(gt_of(50, 15)), 2));
    lemma_gt_mul_at((50, 15), (50, 15), (53, 63), (22, 12));
    assert(GT::spow_steps(GT(gt_of(72, 79)), GT(gt_of(50, 15)), 2) == GT::spow_steps(GT(gt_of(72, 79)), GT(gt_of(53, 63)), 1));
    lemma_gt_mul_at((72, 79), (53, 63), (51, 9), (-12, 37));
    lemma_gt_mul_at((53, 63), (53, 63), (52, 83), (-12, 26));
    assert(GT::spow_steps(GT(gt_of(72, 79)), GT(gt_of(53, 63)), 1) == GT::spow_steps(GT(gt_of(51, 9)), GT(gt_of(52, 83)), 0));
}

/// The pairing of `6G` with the point `27 P` of the image of `H`.
proof fn lemma_pairing_6_27()
    ensures
        smiller_loop(g1p(32, 42), dq(46, 50)) is Some,
        spairing_at(g1p(32, 42), dq(46, 50)) == GT(gt_of(51, 9)),
{
    lemma_final_exponent();
    lemma_tangent_6_27();
    lemma_tangent_12_27();
    lemma_tangent_7_27();
    lemma_tangent_14_27();
    lemma_vertical_at(32, 59, 42, 46, 50);
    lemma_miller_at(
        g1p(32, 42),
        dq(46, 50),
        (g1p(12, 69), g1p(91, 35), g1p(26, 56), g1p(32, 59)),
        (90, 77),
        (39, 37),
        (77, 86),
        (90, 94),
        (-32, 46),
        ((50, 53, 21, 78), (90, 37, -1, 19), (65, 39, 66, 52), (35, 88, 16, 51)),
        ((46, 32, -65, -16), (21, 55, 11, 41), (30, 9, -32, -33)),
    );
    lemma_final_exp_6_27();
}

proof fn lemma_final_exp_7_27()
    ensures
        GT(gt_of(95, 85)).spow(600) == GT(gt_of(93, 81)),
{
    assert(GT::sone() == GT(gt_of(1, 0)));
    lemma_gt_mul_at((95, 85), (95, 85), (83, 37), (17, 88));
    assert(GT::spow_steps(GT(gt_of(1, 0)), GT(gt_of(95, 85)), 600) == GT::spow_steps(GT(gt_of(1, 0)), GT(gt_of(83, 37)), 300));
    lemma_gt_mul_at((83, 37), (83, 37), (66, 26), (54, 47));
    assert(GT::spow_steps(GT(gt_of(1, 0)), GT(gt_of(83, 37)), 300) == GT::spow_steps(GT(gt_of(1, 0)), GT(gt_of(66, 26)), 150));
    lemma_gt_mul_at((66, 26), (66, 26), (44, 29), (36, 27));
    assert(GT::spow_steps(GT(gt_of(1, 0)), GT(gt_of(66, 26)), 150) == GT::spow_steps(GT(gt_of(1, 0)), GT(gt_of(44, 29)), 75));
    lemma_gt_mul_at((1, 0), (44, 29), (44, 29), (0, 0));
    lemma_gt_mul_at((44, 29), (44, 29), (85, 95), (10, 16));
    assert(GT::spow_steps(GT(gt_of(1, 0)), GT(gt_of(44, 29)), 75) == GT::spow_steps(GT(gt_of(44, 29)), GT(gt_of(85, 95)), 37));
    lemma_gt_mul_at((44, 29), (85, 95), (76, 52), (9, 38));
    lemma_gt_mul_at((85, 95), (85, 95), (18, 55), (-18, 70));
    assert(GT::spow_steps(GT(gt_of(44, 29)), GT(gt_of(85, 95)), 37) == GT::spow_steps(GT(gt_of(76, 52)), GT(gt_of(18, 55)), 18));
    lemma_gt_mul_at((18, 55), (18, 55), (26, 66), (-27, -11));
    assert(GT::spow_steps(GT(gt_of(76, 52)), GT(gt_of(18, 55)), 18) == GT::spow_steps(GT(gt_of(76, 52)), GT(gt_of(26, 66)), 9));
    lemma_gt_mul_at((76, 52), (26, 66), (59, 7), (-15, 29));
    lemma_gt_mul_at((26, 66), (26, 66), (57, 86), (-37, -10));
    assert(GT::spow_steps(GT(gt_of(76, 52)), GT(gt_of(26, 66)), 9) == GT::spow_steps(GT(gt_of(59, 7)), GT(gt_of(57, 86)), 4));
    lemma_gt_mul_at((57, 86), (57, 86), (95, 85), (-42, 23));
    assert(GT::spow_steps(GT(gt_of(59, 7)), GT(gt_of(57, 86)), 4) == GT::spow_steps(GT(gt_of(59, 7)), GT(gt_of(95, 85)), 2));
    lemma_gt_mul_at((95, 85), (95, 85), (83, 37), (17, 88));
    assert(GT::spow_steps(GT(gt_of(59, 7)), GT(gt_of(95, 85)), 2) == GT::spow_steps(GT(gt_of(59, 7)), GT(gt_of(83, 37)), 1));
    lemma_gt_mul_at((59, 7), (83, 37), (93, 81), (45, 24));
    lemma_gt_mul_at((83, 37), (83, 37), (66, 26), (54, 47));
    assert(GT::spow_steps(GT(gt_of(59, 7)), GT(gt_of(83, 37)), 1) == GT::spow_steps(GT(gt_of(93, 81)), GT(gt_of(66, 26)), 0));
}

/// The pairing of `7G` with the point `27 P` of the image of `H`.
proof fn lemma_pairing_7_27()
    ensures
        smiller_loop(g1p(91, 35), dq(46, 50)) is Some,
        spairing_at(g1p(91, 35), dq(46, 50)) == GT(gt_of(93, 81)),
{
    lemma_final_exponent();
    lemma_tangent_7_27();
    lemma_tangent_14_27();
    lemma_tangent_11_27();
    lemma_tangent_5_27();
    lemma_vertical_at(91, 66, 35, 46, 50);
    lemma_miller_at(
        g1p(91, 35),
        dq(46, 50),
        (g1p(26, 56), g1p(32, 59), g1p(12, 32), g1p(91, 66)),
        (77, 86),
        (90, 94),
        (20, 59),
        (94, 60),
        (-91, 46),
        ((48, 91, -15, 57), (8, 7, -42, 41), (15, 63, 0, 0), (17, 44, -34, -16)),
        ((70, 65, -17, -5), (54, 47, 26, 63), (95, 85, -71, -40)),
    );
    lemma_final_exp_7_27();
}

proof fn lemma_final_exp_8_27()
    ensures
        GT(gt_of(6, 93)).spow(600) == GT(gt_of(15, 55)),
{
    assert(GT::sone() == GT(gt_of(1, 0)));
    lemma_gt_mul_at((6, 93), (6, 93), (73, 42), (-86, -75));
    assert(GT::spow_steps(GT(gt_of(1, 0)), GT(gt_of(6, 93)), 600) == GT::spow_steps(GT(gt_of(1, 0)), GT(gt_of(73, 42)), 300));
    lemma_gt_mul_at((73, 42), (73, 42), (30, 25), (35, 43));
    assert(GT::spow_steps(GT(gt_of(1, 0)), GT(gt_of(73, 42)), 300) == GT::spow_steps(GT(gt_of(1, 0)), GT(gt_of(30, 25)), 150));
    lemma_gt_mul_at((30, 25), (30, 25), (73, 67), (2, 8));
    assert(GT::spow_steps(GT(gt_of(1, 0)), GT(gt_of(30, 25)), 150) == GT::spow_steps(GT(gt_of(1, 0)), GT(gt_of(73, 67)), 75));
    lemma_gt_mul_at((1, 0), (73, 67), (73, 67), (0, 0));
    lemma_gt_mul_at((73, 67), (73, 67), (32, 41), (8, 52));
    assert(GT::spow_steps(GT(gt_of(1, 0)), GT(gt_of(73, 67)), 75) == GT::spow_steps(GT(gt_of(73, 67)), GT(gt_of(32, 41)), 37));
    lemma_gt_mul_at((73, 67), (32, 41), (94, 67), (-5, 23));
    lemma_gt_mul_at((32, 41), (32, 41), (50, 34), (-7, 9));
    assert(GT::spow_steps(GT(gt_of(73, 67)), GT(gt_of(32, 41)), 37) == GT::spow_steps(GT(gt_of(94, 67)), GT(gt_of(50, 34)), 18));
    lemma_gt_mul_at((50, 34), (50, 34), (31, 22), (13, 22));
    assert(GT::spow_steps(GT(gt_of(94, 67)), GT(gt_of(50, 34)), 18) == GT::spow_steps(GT(gt_of(94, 67)), GT(gt_of(31, 22)), 9));
    lemma_gt_mul_at((94, 67), (31, 22), (26, 45), (14, 26));
    lemma_gt_mul_at((31, 22), (31, 22), (73, 72), (4, 8));
    assert(GT::spow_steps(GT(gt_of(94, 67)), GT(gt_of(31, 22)), 9) == GT::spow_steps(GT(gt_of(26, 45)), GT(gt_of(73, 72)), 4));
    lemma_gt_mul_at((73, 72), (73, 72), (44, 76), (1, 52));
    assert(GT::spow_steps(GT(gt_of(26, 45)), GT(gt_of(73, 72)), 4) == GT::spow_steps(GT(gt_of(26, 45)), GT(gt_of(44, 76)), 2));
    lemma_gt_mul_at((44, 76), (44, 76), (99, 3), (-39, 9));
    assert(GT::spow_steps(GT(gt_of(26, 45)), GT(gt_of(44, 76)), 2) == GT::spow_steps(GT(gt_of(26, 45)), GT(gt_of(99, 3)), 1));
    lemma_gt_mul_at((26, 45), (99, 3), (15, 55), (24, 43));
    lemma_gt_mul_at((99, 3), (99, 3), (96, 80), (96, 5));
    assert(GT::spow_steps(GT(gt_of(26, 45)), GT(gt_of(99, 3)), 1) == GT::spow_steps(GT(gt_of(15, 55)), GT(gt_of(96, 80)), 0));
}

/// The pairing of `8G` with the point `27 P` of the image of `H`.
proof fn lemma_pairing_8_27()
    ensures
        smiller_loop(g1p(18, 49), dq(46, 50)) is Some,
        spairing_at(g1p(18, 49), dq(46, 50)) == GT(gt_of(15, 55)),
{
    lemma_final_exponent();
    lemma_tangent_8_27();
    lemma_tangent_16_27();
    lemma_tangent_15_27();
    lemma_tangent_13_27();
    lemma_vertical_at(18, 52, 49, 46, 50);
    lemma_miller_at(
        g1p(18, 49),
        dq(46, 50),
        (g1p(1, 99), g1p(68, 27), g1p(65, 3), g1p(18, 52)),
        (25, 34),
        (56, 44),
        (80, 10),
        (46, 38),
        (-18, 46),
        ((75, 39, -6, 5), (60, 31, 24, 37), (13, 32, 26, 27), (13, 47, 7, 23)),
        ((81, 23, -21, -10), (24, 30, 28, 32), (6, 93, -18, -9)),
    );
    lemma_final_exp_8_27();
}

proof fn lemma_final_exp_9_27()
    ensures
        GT(gt_of(97, 58)).spow(600) == GT(gt_of(61, 46)),
{
    assert(GT::sone() == GT(gt_of(1, 0)));
    lemma_gt_mul_at((97, 58), (97, 58), (86, 10), (59, 78));
    assert(GT::spow_steps(GT(gt_of(1, 0)), GT(gt_of(97, 58)), 600) == GT::spow_steps(GT(gt_of(1, 0)), GT(gt_of(86, 10)), 300));
    lemma_gt_mul_at((86, 10), (86, 10), (24, 4), (72, 16));
    assert(GT::spow_steps(GT(gt_of(1, 0)), GT(gt_of(86, 10)), 300) == GT::spow_steps(GT(gt_of(1, 0)), GT(gt_of(24, 4)), 150));
    lemma_gt_mul_at((24, 4), (24, 4), (55, 75), (5, 1));
    assert(GT::spow_steps(GT(gt_of(1, 0)), GT(gt_of(24, 4)), 150) == GT::spow_steps(GT(gt_of(1, 0)), GT(gt_of(55, 75)), 75));
    lemma_gt_mul_at((1, 0), (55, 75), (55, 75), (0, 0));
    lemma_gt_mul_at((55, 75), (55, 75), (26, 100), (-26, 25));
    assert(GT::spow_steps(GT(gt_of(1, 0)), GT(gt_of(55, 75)), 75) == GT::spow_steps(GT(gt_of(55, 75)), GT(gt_of(26, 100)), 37));
    lemma_gt_mul_at((55, 75), (26, 100), (91, 51), (-61, -1));
    lemma_gt_mul_at((26, 100), (26, 100), (69, 48), (-93, -48));
    assert(GT::spow_steps(GT(gt_of(55, 75)), GT(gt_of(26, 100)), 37) == GT::spow_steps(GT(gt_of(91, 51)), GT(gt_of(69, 48)), 18));
    lemma_gt_mul_at((69, 48), (69, 48), (33, 78), (24, 42));
    assert(GT::spow_steps(GT(gt_of(91, 51)), GT(gt_of(69, 48)), 18) == GT::spow_steps(GT(gt_of(91, 51)), GT(gt_of(33, 78)), 9));
    lemma_gt_mul_at((91, 51), (33, 78), (35, 56), (-10, 47));
    lemma_gt_mul_at((33, 78), (33, 78), (55, 74), (-50, -10));
    assert(GT::spow_steps(GT(gt_of(91, 51)), GT(gt_of(33, 78)), 9) == GT::spow_steps(GT(gt_of(35, 56)), GT(gt_of(55, 74)), 4));
    lemma_gt_mul_at((55, 74), (55, 74), (74, 38), (-25, 26));
    assert(GT::spow_steps(GT(gt_of(35, 56)), GT(gt_of(55, 74)), 4) == GT::spow_steps(GT(gt_of(35, 56)), GT(gt_of(74, 38)), 2));
    lemma_gt_mul_at((74, 38), (74, 38), (93, 39), (39, 41));
    assert(GT::spow_steps(GT(gt_of(35, 56)), GT(gt_of(74, 38)), 2) == GT::spow_steps(GT(gt_of(35, 56)), GT(gt_of(93, 39)), 1));
    lemma_gt_mul_at((35, 56), (93, 39), (61, 46), (10, 43));
    lemma_gt_mul_at((93, 39), (93, 39), (58, 77), (70, 56));
    assert(GT::spow_steps(GT(gt_of(35, 56)), GT(gt_of(93, 39)), 1) == GT::spow_steps(GT(gt_of(61, 46)), GT(gt_of(58, 77)), 0));
}

/// The pairing of `9G` with the point `27 P` of the image of `H`.
proof fn lemma_pairing_9_27()
    ensures
        smiller_loop(g1p(18, 52), dq(46, 50)) is Some,
        spairing_at(g1p(18, 52), dq(46, 50)) == GT(gt_of(61, 46)),
{
    lemma_final_exponent();
    lemma_tangent_9_27();
    lemma_tangent_1_27();
    lemma_tangent_2_27();
    lemma_tangent_4_27();
    lemma_vertical_at(18, 49, 52, 46, 50);
    lemma_miller_at(
        g1p(18, 52),
        dq(46, 50),
        (g1p(1, 2), g1p(68, 74), g1p(65, 98), g1p(18, 49)),
        (17, 20),
        (21, 42),
        (86, 87),
        (68, 25),
        (-18, 46),
        ((91, 78, -2, 2), (49, 63, -14, 21), (48, 84, -16, 21), (52, 52, -32, 40)),
        ((0, 78, 0, 26), (70, 21, -20, 33), (97, 58, -23, 18)),
    );
    lemma_final_exp_9_27();
}

proof fn lemma_final_exp_10_27()
    ensures
        GT(gt_of(74, 60)).spow(600) == GT(gt_of(12, 20)),
{
    assert(GT::sone() == GT(gt_of(1, 0)));
    lemma_gt_mul_at((74, 60), (74, 60), (58, 28), (18, 52));
    assert(GT::spow_steps(GT(gt_of(1, 0)), GT(gt_of(74, 60)), 600) == GT::spow_steps(GT(gt_of(1, 0)), GT(gt_of(58, 28)), 300));
    lemma_gt_mul_at((58, 28), (58, 28), (55, 40), (25, 24));
    assert(GT::spow_steps(GT(gt_of(1, 0)), GT(gt_of(58, 28)), 300) == GT::spow_steps(GT(gt_of(1, 0)), GT(gt_of(55, 40)), 150));
    lemma_gt_mul_at((55, 40), (55, 40), (11, 73), (14, 27));
    assert(GT::spow_steps(GT(gt_of(1, 0)), GT(gt_of(55, 40)), 150) == GT::spow_steps(GT(gt_of(1, 0)), GT(gt_of(11, 73)), 75));
    lemma_gt_mul_at((1, 0), (11, 73), (11, 73), (0, 0));
    lemma_gt_mul_at((11, 73), (11, 73), (44, 14), (-52, -37));
    assert(GT::spow_steps(GT(gt_of(1, 0)), GT(gt_of(11, 73)), 75) == GT::spow_steps(GT(gt_of(11, 73)), GT(gt_of(44, 14)), 37));
    lemma_gt_mul_at((11, 73), (44, 14), (68, 21), (-6, 23));
    lemma_gt_mul_at((44, 14), (44, 14), (23, 26), (17, 10));
    assert(GT::spow_steps(GT(gt_of(11, 73)), GT(gt_of(44, 14)), 37) == GT::spow_steps(GT(gt_of(68, 21)), GT(gt_of(23, 26)), 18));
    lemma_gt_mul_at((23, 26), (23, 26), (55, 15), (-2, 5));
    assert(GT::spow_steps(GT(gt_of(68, 21)), GT(gt_of(23, 26)), 18) == GT::spow_steps(GT(gt_of(68, 21)), GT(gt_of(55, 15)), 9));
    lemma_gt_mul_at((68, 21), (55, 15), (92, 42), (33, 18));
    lemma_gt_mul_at((55, 15), (55, 15), (73, 11), (27, 14));
    assert(GT::spow_steps(GT(gt_of(68, 21)), GT(gt_of(55, 15)), 9) == GT::spow_steps(GT(gt_of(92, 42)), GT(gt_of(73, 11)), 4));
    lemma_gt_mul_at((73, 11), (73, 11), (57, 71), (51, 14));
    assert(GT::spow_steps(GT(gt_of(92, 42)), GT(gt_of(73, 11)), 4) == GT::spow_steps(GT(gt_of(92, 42)), GT(gt_of(57, 71)), 2));
    lemma_gt_mul_at((57, 71), (57, 71), (26, 23), (-18, 30));
    assert(GT::spow_steps(GT(gt_of(92, 42)), GT(gt_of(57, 71)), 2) == GT::spow_steps(GT(gt_of(92, 42)), GT(gt_of(26, 23)), 1));
    lemma_gt_mul_at((92, 42), (26, 23), (12, 20), (14, 22));
    lemma_gt_mul_at((26, 23), (26, 23), (46, 61), (1, 6));
    assert(GT::spow_steps(GT(gt_of(92, 42)), GT(gt_of(26, 23)), 1) == GT::spow_steps(GT(gt_of(12, 20)), GT(gt_of(46, 61)), 0));
}

/// The pairing of `10G` with the point `27 P` of the image of `H`.
proof fn lemma_pairing_10_27()
    ensures
        smiller_loop(g1p(91, 66), dq(46, 50)) is Some,
        spairing_at(g1p(91, 66), dq(46, 50)) == GT(gt_of(12, 20)),
{
    lemma_final_exponent();
    lemma_tangent_10_27();
    lemma_tangent_3_27();
    lemma_tangent_6_27();
    lemma_tangent_12_27();
    lemma_vertical_at(91, 35, 66, 46, 50);
    lemma_miller_at(
        g1p(91, 66),
        dq(46, 50),
        (g1p(26, 45), g1p(32, 42), g1p(12, 69), g1p(91, 35)),
        (77, 18),
        (80, 71),
        (90, 77),
        (39, 37),
        (-91, 46),
        ((50, 24, 55, 24), (74, 29, 22, 37), (90, 17, 45, 34), (24, 81, 67, 70)),
        ((75, 54, -60, -27), (18, 55, 9, 28), (74, 60, -42, -67)),
    );
    lemma_final_exp_10_27();
}

proof fn lemma_final_exp_11_27()
    ensures
        GT(gt_of(99, 53)).spow(600) == GT(gt_of(42, 92)),
{
    assert(GT::sone() == GT(gt_of(1, 0)));
    lemma_gt_mul_at((99, 53), (99, 53), (23, 9), (69, 76));
    assert(GT::spow_steps(GT(gt_of(1, 0)), GT(gt_of(99, 53)), 600) == GT::spow_steps(GT(gt_of(1, 0)), GT(gt_of(23, 9)), 300));
    lemma_gt_mul_at((23, 9), (23, 9), (44, 30), (4, 3));
    assert(GT::spow_steps(GT(gt_of(1, 0)), GT(gt_of(23, 9)), 300) == GT::spow_steps(GT(gt_of(1, 0)), GT(gt_of(44, 30)), 150));
    lemma_gt_mul_at((44, 30), (44, 30), (26, 23), (10, 17));
    assert(GT::spow_steps(GT(gt_of(1, 0)), GT(gt_of(44, 30)), 150) == GT::spow_steps(GT(gt_of(1, 0)), GT(gt_of(26, 23)), 75));
    lemma_gt_mul_at((1, 0), (26, 23), (26, 23), (0, 0));
    lemma_gt_mul_at((26, 23), (26, 23), (46, 61), (1, 6));
    assert(GT::spow_steps(GT(gt_of(1, 0)), GT(gt_of(26, 23)), 75) == GT::spow_steps(GT(gt_of(26, 23)), GT(gt_of(46, 61)), 37));
    lemma_gt_mul_at((26, 23), (46, 61), (96, 29), (-3, 12));
    lemma_gt_mul_at((46, 61), (46, 61), (11, 73), (-16, 18));
    assert(GT::spow_steps(GT(gt_of(26, 23)), GT(gt_of(46, 61)), 37) == GT::spow_steps(GT(gt_of(96, 29)), GT(gt_of(11, 73)), 18));
    lemma_gt_mul_at((11, 73), (11, 73), (44, 14), (-52, -37));
    assert(GT::spow_steps(GT(gt_of(96, 29)), GT(gt_of(11, 73)), 18) == GT::spow_steps(GT(gt_of(96, 29)), GT(gt_of(44, 14)), 9));
    lemma_gt_mul_at((96, 29), (44, 14), (81, 93), (37, 21));
    lemma_gt_mul_at((44, 14), (44, 14), (23, 26), (17, 10));
    assert(GT::spow_steps(GT(gt_of(96, 29)), GT(gt_of(44, 14)), 9) == GT::spow_steps(GT(gt_of(81, 93)), GT(gt_of(23, 26)), 4));
    lemma_gt_mul_at((23, 26), (23, 26), (55, 15), (-2, 5));
    assert(GT::spow_steps(GT(gt_of(81, 93)), GT(gt_of(23, 26)), 4) == GT::spow_steps(GT(gt_of(81, 93)), GT(gt_of(55, 15)), 2));
    lemma_gt_mul_at((55, 15), (55, 15), (73, 11), (27, 14));
    assert(GT::spow_steps(GT(gt_of(81, 93)), GT(gt_of(55, 15)), 2) == GT::spow_steps(GT(gt_of(81, 93)), GT(gt_of(73, 11)), 1));
    lemma_gt_mul_at((81, 93), (73, 11), (42, 92), (48, 65));
    lemma_gt_mul_at((73, 11), (73, 11), (57, 71), (51, 14));
    assert(GT::spow_steps(GT(gt_of(81, 93)), GT(gt_of(73, 11)), 1) == GT::spow_steps(GT(gt_of(42, 92)), GT(gt_of(57, 71)), 0));
}

/// The pairing of `11G` with the point `27 P` of the image of `H`.
proof fn lemma_pairing_11_27()
    ensures
        smiller_loop(g1p(32, 59), dq(46, 50)) is Some,
        spairing_at(g1p(32, 59), dq(46, 50)) == GT(gt_of(42, 92)),
{
    lemma_final_exponent();
    lemma_tangent_11_27();
    lemma_tangent_5_27();
    lemma_tangent_10_27();
    lemma_tangent_3_27();
    lemma_vertical_at(32, 42, 59, 46, 50);
    lemma_miller_at(
        g1p(32, 59),
        dq(46, 50),
        (g1p(12, 32), g1p(91, 66), g1p(26, 45), g1p(32, 42)),
        (20, 59),
        (94, 60),
        (77, 18),
        (80, 71),
        (-32, 46),
        ((50, 91, -31, -12), (48, 34, -8, 60), (37, 88, 11, 20), (53, 0, 12, 58)),
        ((82, 0, 27, 0), (96, 65, 64, 57), (99, 53, -61, -7)),
    );
    lemma_final_exp_11_27();
}

proof fn lemma_final_exp_12_27()
    ensures
        GT(gt_of(5, 91)).spow(600) == GT(gt_of(96, 29)),
{
    assert(GT::sone() == GT(gt_of(1, 0)));
    lemma_gt_mul_at((5, 91), (5, 91), (26, 2), (-82, -73));
    assert(GT::spow_steps(GT(gt_of(1, 0)), GT(gt_of(5, 91)), 600) == GT::spow_steps(GT(gt_of(1, 0)), GT(gt_of(26, 2)), 300));
    lemma_gt_mul_at((26, 2), (26, 2), (66, 100), (6, 0));
    assert(GT::spow_steps(GT(gt_of(1, 0)), GT(gt_of(26, 2)), 300) == GT::spow_steps(GT(gt_of(1, 0)), GT(gt_of(66, 100)), 150));
    lemma_gt_mul_at((66, 100), (66, 100), (12, 69), (-56, 31));
    assert(GT::spow_steps(GT(gt_of(1, 0)), GT(gt_of(66, 100)), 150) == GT::spow_steps(GT(gt_of(1, 0)), GT(gt_of(12, 69)), 75));
    lemma_gt_mul_at((1, 0), (12, 69), (12, 69), (0, 0));
    lemma_gt_mul_at((12, 69), (12, 69), (29, 26), (-46, -31));
    assert(GT::spow_steps(GT(gt_of(1, 0)), GT(gt_of(12, 69)), 75) == GT::spow_steps(GT(gt_of(12, 69)), GT(gt_of(29, 26)), 37));
    lemma_gt_mul_at((12, 69), (29, 26), (69, 14), (-15, 5));
    lemma_gt_mul_at((29, 26), (29, 26), (64, 24), (1, 8));
    assert(GT::spow_steps(GT(gt_of(12, 69)), GT(gt_of(29, 26)), 37) == GT::spow_steps(GT(gt_of(69, 14)), GT(gt_of(64, 24)), 18));
    lemma_gt_mul_at((64, 24), (64, 24), (86, 72), (34, 24));
    assert(GT::spow_steps(GT(gt_of(69, 14)), GT(gt_of(64, 24)), 18) == GT::spow_steps(GT(gt_of(69, 14)), GT(gt_of(86, 72)), 9));
    lemma_gt_mul_at((69, 14), (86, 72), (78, 13), (48, 51));
    lemma_gt_mul_at((86, 72), (86, 72), (91, 29), (21, 71));
    assert(GT::spow_steps(GT(gt_of(69, 14)), GT(gt_of(86, 72)), 9) == GT::spow_steps(GT(gt_of(78, 13)), GT(gt_of(91, 29)), 4));
    lemma_gt_mul_at((91, 29), (91, 29), (67, 94), (73, 43));
    assert(GT::spow_steps(GT(gt_of(78, 13)), GT(gt_of(91, 29)), 4) == GT::spow_steps(GT(gt_of(78, 13)), GT(gt_of(67, 94)), 2));
    lemma_gt_mul_at((67, 94), (67, 94), (97, 23), (-44, 37));
    assert(GT::spow_steps(GT(gt_of(78, 13)), GT(gt_of(67, 94)), 2) == GT::spow_steps(GT(gt_of(78, 13)), GT(gt_of(97, 23)), 1));
    lemma_gt_mul_at((78, 13), (97, 23), (96, 29), (71, 27));
    lemma_gt_mul_at((97, 23), (97, 23), (93, 95), (87, 38));
    assert(GT::spow_steps(GT(gt_of(78, 13)), GT(gt_of(97, 23)), 1) == GT::spow_steps(GT(gt_of(96, 29)), GT(gt_of(93, 95)), 0));
}

/// The pairing of `12G` with the point `27 P` of the image of `H`.
proof fn lemma_pairing_12_27()
    ensures
        smiller_loop(g1p(12, 69), dq(46, 50)) is Some,
        spairing_at(g1p(12, 69), dq(46, 50)) == GT(gt_of(96, 29)),
{
    lemma_final_exponent();
    lemma_tangent_12_27();
    lemma_tangent_7_27();
    lemma_tangent_14_27();
    lemma_tangent_11_27();
    lemma_vertical_at(12, 32, 69, 46, 50);
    lemma_miller_at(
        g1p(12, 69),
        dq(46, 50),
        (g1p(91, 35), g1p(26, 56), g1p(32, 59), g1p(12, 32)),
        (39, 37),
        (77, 86),
        (90, 94),
        (20, 59),
        (-12, 46),
        ((51, 2, 1, 15), (18, 25, 37, 43), (2, 73, -3, 2), (85, 98, -67, -2)),
        ((45, 87, -24, 69), (9, 70, -42, -8), (5, 91, -33, -37)),
    );
    lemma_final_exp_12_27();
}

proof fn lemma_final_exp_13_27()
    ensures
        GT(gt_of(20, 90)).spow(600) == GT(gt_of(75, 98)),
{
    assert(GT::sone() == GT(gt_of(1, 0)));
    lemma_gt_mul_at((20, 90), (20, 90), (77, 45), (-77, -45));
    assert(GT::spow_steps(GT(gt_of(1, 0)), GT(gt_of(20, 90)), 600) == GT::spow_steps(GT(gt_of(1, 0)), GT(gt_of(77, 45)), 300));
    lemma_gt_mul_at((77, 45), (77, 45), (66, 57), (38, 48));
    assert(GT::spow_steps(GT(gt_of(1, 0)), GT(gt_of(77, 45)), 300) == GT::spow_steps(GT(gt_of(1, 0)), GT(gt_of(66, 57)), 150));
    lemma_gt_mul_at((66, 57), (66, 57), (97, 33), (10, 42));
    assert(GT::spow_steps(GT(gt_of(1, 0)), GT(gt_of(66, 57)), 150) == GT::spow_steps(GT(gt_of(1, 0)), GT(gt_of(97, 33)), 75));
    lemma_gt_mul_at((1, 0), (97, 33), (97, 33), (0, 0));
    lemma_gt_mul_at((97, 33), (97, 33), (38, 61), (82, 52));
    assert(GT::spow_steps(GT(gt_of(1, 0)), GT(gt_of(97, 33)), 75) == GT::spow_steps(GT(gt_of(97, 33)), GT(gt_of(38, 61)), 37));
    lemma_gt_mul_at((97, 33), (38, 61), (57, 7), (16, 51));
    lemma_gt_mul_at((38, 61), (38, 61), (46, 6), (-23, 9));
    assert(GT::spow_steps(GT(gt_of(97, 33)), GT(gt_of(38, 61)), 37) == GT::spow_steps(GT(gt_of(57, 7)), GT(gt_of(46, 6)), 18));
    lemma_gt_mul_at((46, 6), (46, 6), (60, 11), (20, 5));
    assert(GT::spow_steps(GT(gt_of(57, 7)), GT(gt_of(46, 6)), 18) == GT::spow_steps(GT(gt_of(57, 7)), GT(gt_of(60, 11)), 9));
    lemma_gt_mul_at((57, 7), (60, 11), (10, 61), (33, 9));
    lemma_gt_mul_at((60, 11), (60, 11), (45, 88), (34, 11));
    assert(GT::spow_steps(GT(gt_of(57, 7)), GT(gt_of(60, 11)), 9) == GT::spow_steps(GT(gt_of(10, 61)), GT(gt_of(45, 88)), 4));
    lemma_gt_mul_at((45, 88), (45, 88), (38, 75), (-57, 1));
    assert(GT::spow_steps(GT(gt_of(10, 61)), GT(gt_of(45, 88)), 4) == GT::spow_steps(GT(gt_of(10, 61)), GT(gt_of(38, 75)), 2));
    lemma_gt_mul_at((38, 75), (38, 75), (61, 75), (-42, 0));
    assert(GT::spow_steps(GT(gt_of(10, 61)), GT(gt_of(38, 75)), 2) == GT::spow_steps(GT(gt_of(10, 61)), GT(gt_of(61, 75)), 1));
    lemma_gt_mul_at((10, 61), (61, 75), (75, 98), (-40, -2));
    lemma_gt_mul_at((61, 75), (61, 75), (15, 91), (-19, 34));
    assert(GT::spow_steps(GT(gt_of(10, 61)), GT(gt_of(61, 75)), 1) == GT::spow_steps(GT(gt_of(75, 98)), GT(gt_of(15, 91)), 0));
}

/// The pairing of `13G` with the point `27 P` of the image of `H`.
proof fn lemma_pairing_13_27()
    ensures
        smiller_loop(g1p(65, 3), dq(46, 50)) is Some,
        spairing_at(g1p(65, 3), dq(46, 50)) == GT(gt_of(75, 98)),
{
    lemma_final_exponent();
    lemma_tangent_13_27();
    lemma_tangent_9_27();
    lemma_tangent_1_27();
    lemma_tangent_2_27();
    lemma_vertical_at(65, 98, 3, 46, 50);
    lemma_miller_at(
        g1p(65, 3),
        dq(46, 50),
        (g1p(18, 52), g1p(1, 2), g1p(68, 74), g1p(65, 98)),
        (46, 38),
        (17, 20),
        (21, 42),
        (86, 87),
        (-65, 46),
        ((66, 32, 6, 20), (78, 12, 4, 12), (82, 11, 58, 17), (48, 82, 12, 31)),
        ((24, 37, -44, 11), (57, 31, -12, 20), (20, 90, -51, -9)),
    );
    lemma_final_exp_13_27();
}

proof fn lemma_final_exp_14_27()
    ensures
        GT(gt_of(90, 17)).spow(600) == GT(gt_of(68, 21)),
{
    assert(GT::sone() == GT(gt_of(1, 0)));
    lemma_gt_mul_at((90, 17), (90, 17), (34, 44), (77, 27));
    assert(GT::spow_steps(GT(gt_of(1, 0)), GT(gt_of(90, 17)), 600) == GT::spow_steps(GT(gt_of(1, 0)), GT(gt_of(34, 44)), 300));
    lemma_gt_mul_at((34, 44), (34, 44), (28, 46), (-8, 10));
    assert(GT::spow_steps(GT(gt_of(1, 0)), GT(gt_of(34, 44)), 300) == GT::spow_steps(GT(gt_of(1, 0)), GT(gt_of(28, 46)), 150));
    lemma_gt_mul_at((28, 46), (28, 46), (82, 56), (-14, 4));
    assert(GT::spow_steps(GT(gt_of(1, 0)), GT(gt_of(28, 46)), 150) == GT::spow_steps(GT(gt_of(1, 0)), GT(gt_of(82, 56)), 75));
    lemma_gt_mul_at((1, 0), (82, 56), (82, 56), (0, 0));
    lemma_gt_mul_at((82, 56), (82, 56), (53, 89), (35, 59));
    assert(GT::spow_steps(GT(gt_of(1, 0)), GT(gt_of(82, 56)), 75) == GT::spow_steps(GT(gt_of(82, 56)), GT(gt_of(53, 89)), 37));
    lemma_gt_mul_at((82, 56), (53, 89), (69, 30), (-7, 52));
    lemma_gt_mul_at((53, 89), (53, 89), (39, 99), (-51, 14));
    assert(GT::spow_steps(GT(gt_of(82, 56)), GT(gt_of(53, 89)), 37) == GT::spow_steps(GT(gt_of(69, 30)), GT(gt_of(39, 99)), 18));
    lemma_gt_mul_at((39, 99), (39, 99), (2, 42), (-82, -21));
    assert(GT::spow_steps(GT(gt_of(69, 30)), GT(gt_of(39, 99)), 18) == GT::spow_steps(GT(gt_of(69, 30)), GT(gt_of(2, 42)), 9));
    lemma_gt_mul_at((69, 30), (2, 42), (90, 82), (-12, 16));
    lemma_gt_mul_at((2, 42), (2, 42), (58, 20), (-18, -16));
    assert(GT::spow_steps(GT(gt_of(69, 30)), GT(gt_of(2, 42)), 9) == GT::spow_steps(GT(gt_of(90, 82)), GT(gt_of(58, 20)), 4));
    lemma_gt_mul_at((58, 20), (58, 20), (35, 1), (29, 19));
    assert(GT::spow_steps(GT(gt_of(90, 82)), GT(gt_of(58, 20)), 4) == GT::spow_steps(GT(gt_of(90, 82)), GT(gt_of(35, 1)), 2));
    lemma_gt_mul_at((35, 1), (35, 1), (12, 69), (12, 0));
    assert(GT::spow_steps(GT(gt_of(90, 82)), GT(gt_of(35, 1)), 2) == GT::spow_steps(GT(gt_of(90, 82)), GT(gt_of(12, 69)), 1));
    lemma_gt_mul_at((90, 82), (12, 69), (68, 21), (-46, 15));
    lemma_gt_mul_at((12, 69), (12, 69), (29, 26), (-46, -31));
    assert(GT::spow_steps(GT(gt_of(90, 82)), GT(gt_of(12, 69)), 1) == GT::spow_steps(GT(gt_of(68, 21)), GT(gt_of(29, 26)), 0));
}

/// The pairing of `14G` with the point `27 P` of the image of `H`.
proof fn lemma_pairing_14_27()
    ensures
        smiller_loop(g1p(26, 56), dq(46, 50)) is Some,
        spairing_at(g1p(26, 56), dq(46, 50)) == GT(gt_of(68, 21)),
{
    lemma_final_exponent();
    lemma_tangent_14_27();
    lemma_tangent_11_27();
    lemma_tangent_5_27();
    lemma_tangent_10_27();
    lemma_vertical_at(26, 45, 56, 46, 50);
    lemma_miller_at(
        g1p(26, 56),
        dq(46, 50),
        (g1p(32, 59), g1p(12, 32), g1p(91, 66), g1p(26, 45)),
        (90, 94),
        (20, 59),
        (94, 60),
        (77, 18),
        (-26, 46),
        ((72, 4, -8, 80), (93, 52, 11, 40), (87, 100, 58, 68), (57, 35, 21, 85)),
        ((4, 38, 20, 27), (28, 92, -4, 22), (90, 17, -50, -53)),
    );
    lemma_final_exp_14_27();
}

proof fn lemma_final_exp_15_27()
    ensures
        GT(gt_of(63, 16)).spow(600) == GT(gt_of(71, 57)),
{
    assert(GT::sone() == GT(gt_of(1, 0)));
    lemma_gt_mul_at((63, 16), (63, 16), (77, 43), (36, 17));
    assert(GT::spow_steps(GT(gt_of(1, 0)), GT(gt_of(63, 16)), 600) == GT::spow_steps(GT(gt_of(1, 0)), GT(gt_of(77, 43)), 300));
    lemma_gt_mul_at((77, 43), (77, 43), (40, 26), (40, 47));
    assert(GT::spow_steps(GT(gt_of(1, 0)), GT(gt_of(77, 43)), 300) == GT::spow_steps(GT(gt_of(1, 0)), GT(gt_of(40, 26)), 150));
    lemma_gt_mul_at((40, 26), (40, 26), (15, 91), (9, 13));
    assert(GT::spow_steps(GT(gt_of(1, 0)), GT(gt_of(40, 26)), 150) == GT::spow_steps(GT(gt_of(1, 0)), GT(gt_of(15, 91)), 75));
    lemma_gt_mul_at((1, 0), (15, 91), (15, 91), (0, 0));
    lemma_gt_mul_at((15, 91), (15, 91), (24, 4), (-80, -55));
    assert(GT::spow_steps(GT(gt_of(1, 0)), GT(gt_of(15, 91)), 75) == GT::spow_steps(GT(gt_of(15, 91)), GT(gt_of(24, 4)), 37));
    lemma_gt_mul_at((15, 91), (24, 4), (97, 62), (-1, 18));
    lemma_gt_mul_at((24, 4), (24, 4), (55, 75), (5, 1));
    assert(GT::spow_steps(GT(gt_of(15, 91)), GT(gt_of(24, 4)), 37) == GT::spow_steps(GT(gt_of(97, 62)), GT(gt_of(55, 75)), 18));
    lemma_gt_mul_at((55, 75), (55, 75), (26, 100), (-26, 25));
    assert(GT::spow_steps(GT(gt_of(97, 62)), GT(gt_of(55, 75)), 18) == GT::spow_steps(GT(gt_of(97, 62)), GT(gt_of(26, 100)), 9));
    lemma_gt_mul_at((97, 62), (26, 100), (59, 62), (-37, 50));
    lemma_gt_mul_at((26, 100), (26, 100), (69, 48), (-93, -48));
    assert(GT::spow_steps(GT(gt_of(97, 62)), GT(gt_of(26, 100)), 9) == GT::spow_steps(GT(gt_of(59, 62)), GT(gt_of(69, 48)), 4));
    lemma_gt_mul_at((69, 48), (69, 48), (33, 78), (24, 42));
    assert(GT::spow_steps(GT(gt_of(59, 62)), GT(gt_of(69, 48)), 4) == GT::spow_steps(GT(gt_of(59, 62)), GT(gt_of(33, 78)), 2));
    lemma_gt_mul_at((33, 78), (33, 78), (55, 74), (-50, -10));
    assert(GT::spow_steps(GT(gt_of(59, 62)), GT(gt_of(33, 78)), 2) == GT::spow_steps(GT(gt_of(59, 62)), GT(gt_of(55, 74)), 1));
    lemma_gt_mul_at((59, 62), (55, 74), (71, 57), (-14, 31));
    lemma_gt_mul_at((55, 74), (55, 74), (74, 38), (-25, 26));
    assert(GT::spow_steps(GT(gt_of(59, 62)), GT(gt_of(55, 74)), 1) == GT::spow_steps(GT(gt_of(71, 57)), GT(gt_of(74, 38)), 0));
}

/// The pairing of `15G` with the point `27 P` of the image of `H`.
proof fn lemma_pairing_15_27()
    ensures
        smiller_loop(g1p(68, 27), dq(46, 50)) is Some,
        spairing_at(g1p(68, 27), dq(46, 50)) == GT(gt_of(71, 57)),
{
    lemma_final_exponent();
    lemma_tangent_15_27();
    lemma_tangent_13_27();
    lemma_tangent_9_27();
    lemma_tangent_1_27();
    lemma_vertical_at(68, 74, 27, 46, 50);
    lemma_miller_at(
        g1p(68, 27),
        dq(46, 50),
        (g1p(65, 3), g1p(18, 52), g1p(1, 2), g1p(68, 74)),
        (80, 10),
        (46, 38),
        (17, 20),
        (21, 42),
        (-68, 46),
        ((38, 86, 62, 14), (96, 11, -16, 21), (5, 72, 90, 19), (59, 86, -14, -2)),
        ((24, 25, -39, 27), (60, 79, -6, 4), (63, 16, -77, -62)),
    );
    lemma_final_exp_15_27();
}

proof fn lemma_final_exp_16_27()
    ensures
        GT(gt_of(87, 44)).spow(600) == GT(gt_of(28, 39)),
{
    assert(GT::sone() == GT(gt_of(1, 0)));
    lemma_gt_mul_at((87, 44), (87, 44), (78, 64), (55, 56));
    assert(GT::spow_steps(GT(gt_of(1, 0)), GT(gt_of(87, 44)), 600) == GT::spow_steps(GT(gt_of(1, 0)), GT(gt_of(78, 64)), 300));
    lemma_gt_mul_at((78, 64), (78, 64), (69, 30), (19, 58));
    assert(GT::spow_steps(GT(gt_of(1, 0)), GT(gt_of(78, 64)), 300) == GT::spow_steps(GT(gt_of(1, 0)), GT(gt_of(69, 30)), 150));
    lemma_gt_mul_at((69, 30), (69, 30), (23, 8), (38, 32));
    assert(GT::spow_steps(GT(gt_of(1, 0)), GT(gt_of(69, 30)), 150) == GT::spow_steps(GT(gt_of(1, 0)), GT(gt_of(23, 8)), 75));
    lemma_gt_mul_at((1, 0), (23, 8), (23, 8), (0, 0));
    lemma_gt_mul_at((23, 8), (23, 8), (61, 1), (4, 3));
    assert(GT::spow_steps(GT(gt_of(1, 0)), GT(gt_of(23, 8)), 75) == GT::spow_steps(GT(gt_of(23, 8)), GT(gt_of(61, 1)), 37));
    lemma_gt_mul_at((23, 8), (61, 1), (82, 99), (13, 4));
    lemma_gt_mul_at((61, 1), (61, 1), (84, 20), (36, 1));
    assert(GT::spow_steps(GT(gt_of(23, 8)), GT(gt_of(61, 1)), 37) == GT::spow_steps(GT(gt_of(82, 99)), GT(gt_of(84, 20)), 18));
    lemma_gt_mul_at((84, 20), (84, 20), (91, 31), (65, 29));
    assert(GT::spow_steps(GT(gt_of(82, 99)), GT(gt_of(84, 20)), 18) == GT::spow_steps(GT(gt_of(82, 99)), GT(gt_of(91, 31)), 9));
    lemma_gt_mul_at((82, 99), (91, 31), (50, 99), (43, 83));
    lemma_gt_mul_at((91, 31), (91, 31), (48, 35), (72, 46));
    assert(GT::spow_steps(GT(gt_of(82, 99)), GT(gt_of(91, 31)), 9) == GT::spow_steps(GT(gt_of(50, 99)), GT(gt_of(48, 35)), 4));
    lemma_gt_mul_at((48, 35), (48, 35), (69, 14), (10, 21));
    assert(GT::spow_steps(GT(gt_of(50, 99)), GT(gt_of(48, 35)), 4) == GT::spow_steps(GT(gt_of(50, 99)), GT(gt_of(69, 14)), 2));
    lemma_gt_mul_at((69, 14), (69, 14), (20, 19), (45, 17));
    assert(GT::spow_steps(GT(gt_of(50, 99)), GT(gt_of(69, 14)), 2) == GT::spow_steps(GT(gt_of(50, 99)), GT(gt_of(20, 19)), 1));
    lemma_gt_mul_at((50, 99), (20, 19), (28, 39), (-9, 10));
    lemma_gt_mul_at((20, 19), (20, 19), (39, 96), (0, 3));
    assert(GT::spow_steps(GT(gt_of(50, 99)), GT(gt_of(20, 19)), 1) == GT::spow_steps(GT(gt_of(28, 39)), GT(gt_of(39, 96)), 0));
}

/// The pairing of `16G` with the point `27 P` of the image of `H`.
proof fn lemma_pairing_16_27()
    ensures
        smiller_loop(g1p(1, 99), dq(46, 50)) is Some,
        spairing_at(g1p(1, 99), dq(46, 50)) == GT(gt_of(28, 39)),
{
    lemma_final_exponent();
    lemma_tangent_16_27();
    lemma_tangent_15_27();
    lemma_tangent_13_27();
    lemma_tangent_9_27();
    lemma_vertical_at(1, 2, 99, 46, 50);
    lemma_miller_at(
        g1p(1, 99),
        dq(46, 50),
        (g1p(68, 27), g1p(65, 3), g1p(18, 52), g1p(1, 2)),
        (56, 44),
        (80, 10),
        (46, 38),
        (17, 20),
        (-1, 46),
        ((89, 63, 11, 29), (26, 48, 64, 52), (89, 91, -17, 1), (30, 70, 6, 40)),
        ((40, 7, -40, -7), (35, 72, 5, 7), (87, 44, -34, -18)),
    );
    lemma_final_exp_16_27();
}

proof fn lemma_final_exp_1_28()
    ensures
        GT(gt_of(58, 70)).spow(600) == GT(gt_of(75, 98)),
{
    assert(GT::sone() == GT(gt_of(1, 0)));
    lemma_gt_mul_at((58, 70), (58, 70), (80, 89), (-16, 31));
    assert(GT::spow_steps(GT(gt_of(1, 0)), GT(gt_of(58, 70)), 600) == GT::spow_steps(GT(gt_of(1, 0)), GT(gt_of(80, 89)), 300));
    lemma_gt_mul_at((80, 89), (80, 89), (95, 57), (-16, 62));
    assert(GT::spow_steps(GT(gt_of(1, 0)), GT(gt_of(80, 89)), 300) == GT::spow_steps(GT(gt_of(1, 0)), GT(gt_of(95, 57)), 150));
    lemma_gt_mul_at((95, 57), (95, 57), (19, 6), (57, 75));
    assert(GT::spow_steps(GT(gt_of(1, 0)), GT(gt_of(95, 57)), 150) == GT::spow_steps(GT(gt_of(1, 0)), GT(gt_of(19, 6)), 75));
    lemma_gt_mul_at((1, 0), (19, 6), (19, 6), (0, 0));
    lemma_gt_mul_at((19, 6), (19, 6), (22, 91), (3, 1));
    assert(GT::spow_steps(GT(gt_of(1, 0)), GT(gt_of(19, 6)), 75) == GT::spow_steps(GT(gt_of(19, 6)), GT(gt_of(22, 91)), 37));
    lemma_gt_mul_at((19, 6), (22, 91), (74, 2), (-2, 13));
    lemma_gt_mul_at((22, 91), (22, 91), (81, 66), (-78, -43));
    assert(GT::spow_steps(GT(gt_of(19, 6)), GT(gt_of(22, 91)), 37) == GT::spow_steps(GT(gt_of(74, 2)), GT(gt_of(81, 66)), 18));
    lemma_gt_mul_at((81, 66), (81, 66), (84, 74), (21, 62));
    assert(GT::spow_steps(GT(gt_of(74, 2)), GT(gt_of(81, 66)), 18) == GT::spow_steps(GT(gt_of(74, 2)), GT(gt_of(84, 74)), 9));
    lemma_gt_mul_at((74, 2), (84, 74), (8, 42), (60, 54));
    lemma_gt_mul_at((84, 74), (84, 74), (65, 88), (15, 68));
    assert(GT::spow_steps(GT(gt_of(74, 2)), GT(gt_of(84, 74)), 9) == GT::spow_steps(GT(gt_of(8, 42)), GT(gt_of(65, 88)), 4));
    lemma_gt_mul_at((65, 88), (65, 88), (16, 60), (-35, 36));
    assert(GT::spow_steps(GT(gt_of(8, 42)), GT(gt_of(65, 88)), 4) == GT::spow_steps(GT(gt_of(8, 42)), GT(gt_of(16, 60)), 2));
    lemma_gt_mul_at((16, 60), (16, 60), (90, 37), (-34, -17));
    assert(GT::spow_steps(GT(gt_of(8, 42)), GT(gt_of(16, 60)), 2) == GT::spow_steps(GT(gt_of(8, 42)), GT(gt_of(90, 37)), 1));
    lemma_gt_mul_at((8, 42), (90, 37), (75, 98), (-9, 24));
    lemma_gt_mul_at((90, 37), (90, 37), (65, 39), (66, 52));
    assert(GT::spow_steps(GT(gt_of(8, 42)), GT(gt_of(90, 37)), 1) == GT::spow_steps(GT(gt_of(75, 98)), GT(gt_of(65, 39)), 0));
}

/// The pairing of `1G` with the point `28 P` of the image of `H`.
proof fn lemma_pairing_1_28()
    ensures
        smiller_loop(g1p(1, 2), dq(12, 69)) is Some,
        spairing_at(g1p(1, 2), dq(12, 69)) == GT(gt_of(75, 98)),
{
    lemma_final_exponent();
    lemma_tangent_1_28();
    lemma_tangent_2_28();
    lemma_tangent_4_28();
    lemma_tangent_8_28();
    lemma_vertical_at(1, 99, 2, 12, 69);
    lemma_miller_at(
        g1p(1, 2),
        dq(12, 69),
        (g1p(68, 74), g1p(65, 98), g1p(18, 49), g1p(1, 99)),
        (88, 7),
        (26, 93),
        (51, 44),
        (83, 65),
        (-1, 12),
        ((19, 72, 76, 11), (60, 74, -62, -31), (43, 71, -19, 33), (79, 66, -10, 23)),
        ((67, 12, 18, 60), (34, 26, 47, 45), (58, 70, -4, 0)),
    );
    lemma_final_exp_1_28();
}

proof fn lemma_final_exp_2_28()
    ensures
        GT(gt_of(15, 35)).spow(600) == GT(gt_of(61, 46)),
{
    assert(GT::sone() == GT(gt_of(1, 0)));
    lemma_gt_mul_at((15, 35), (15, 35), (10, 27), (-10, -2));
    assert(GT::spow_steps(GT(gt_of(1, 0)), GT(gt_of(15, 35)), 600) == GT::spow_steps(GT(gt_of(1, 0)), GT(gt_of(10, 27)), 300));
    lemma_gt_mul_at((10, 27), (10, 27), (78, 13), (-7, -2));
    assert(GT::spow_steps(GT(gt_of(1, 0)), GT(gt_of(10, 27)), 300) == GT::spow_steps(GT(gt_of(1, 0)), GT(gt_of(78, 13)), 150));
    lemma_gt_mul_at((78, 13), (78, 13), (57, 41), (58, 18));
    assert(GT::spow_steps(GT(gt_of(1, 0)), GT(gt_of(78, 13)), 150) == GT::spow_steps(GT(gt_of(1, 0)), GT(gt_of(57, 41)), 75));
    lemma_gt_mul_at((1, 0), (57, 41), (57, 41), (0, 0));
    lemma_gt_mul_at((57, 41), (57, 41), (53, 64), (15, 29));
    assert(GT::spow_steps(GT(gt_of(1, 0)), GT(gt_of(57, 41)), 75) == GT::spow_steps(GT(gt_of(57, 41)), GT(gt_of(53, 64)), 37));
    lemma_gt_mul_at((57, 41), (53, 64), (94, 66), (3, 31));
    lemma_gt_mul_at((53, 64), (53, 64), (26, 62), (-13, 26));
    assert(GT::spow_steps(GT(gt_of(57, 41)), GT(gt_of(53, 64)), 37) == GT::spow_steps(GT(gt_of(94, 66)), GT(gt_of(26, 62)), 18));
    lemma_gt_mul_at((26, 62), (26, 62), (64, 87), (-32, -7));
    assert(GT::spow_steps(GT(gt_of(94, 66)), GT(gt_of(26, 62)), 18) == GT::spow_steps(GT(gt_of(94, 66)), GT(gt_of(64, 87)), 9));
    lemma_gt_mul_at((94, 66), (64, 87), (72, 95), (2, 65));
    lemma_gt_mul_at((64, 87), (64, 87), (62, 32), (-35, 35));
    assert(GT::spow_steps(GT(gt_of(94, 66)), GT(gt_of(64, 87)), 9) == GT::spow_steps(GT(gt_of(72, 95)), GT(gt_of(62, 32)), 4));
    lemma_gt_mul_at((62, 32), (62, 32), (93, 15), (27, 29));
    assert(GT::spow_steps(GT(gt_of(72, 95)), GT(gt_of(62, 32)), 4) == GT::spow_steps(GT(gt_of(72, 95)), GT(gt_of(93, 15)), 2));
    lemma_gt_mul_at((93, 15), (93, 15), (41, 40), (83, 25));
    assert(GT::spow_steps(GT(gt_of(72, 95)), GT(gt_of(93, 15)), 2) == GT::spow_steps(GT(gt_of(72, 95)), GT(gt_of(41, 40)), 1));
    lemma_gt_mul_at((72, 95), (41, 40), (61, 46), (-9, 29));
    lemma_gt_mul_at((41, 40), (41, 40), (81, 64), (0, 16));
    assert(GT::spow_steps(GT(gt_of(72, 95)), GT(gt_of(41, 40)), 1) == GT::spow_steps(GT(gt_of(61, 46)), GT(gt_of(81, 64)), 0));
}

/// The pairing of `2G` with the point `28 P` of the image of `H`.
proof fn lemma_pairing_2_28()
    ensures
        smiller_loop(g1p(68, 74), dq(12, 69)) is Some,
        spairing_at(g1p(68, 74), dq(12, 69)) == GT(gt_of(61, 46)),
{
    lemma_final_exponent();
    lemma_tangent_2_28();
    lemma_tangent_4_28();
    lemma_tangent_8_28();
    lemma_tangent_16_28();
    lemma_vertical_at(68, 27, 74, 12, 69);
    lemma_miller_at(
        g1p(68, 74),
        dq(12, 69),
        (g1p(65, 98), g1p(18, 49), g1p(1, 99), g1p(68, 27)),
        (26, 93),
        (51, 44),
        (83, 65),
        (99, 16),
        (-68, 12),
        ((6, 25, -79, -38), (14, 35, -8, 4), (82, 58, -11, -3), (6, 11, 30, 63)),
        ((16, 11, -1, 0), (95, 58, 13, 11), (15, 35, -71, -35)),
    );
    lemma_final_exp_2_28();
}

proof fn lemma_final_exp_3_28()
    ensures
        GT(gt_of(28, 46)).spow(600) == GT(gt_of(67, 72)),
{
    assert(GT::sone() == GT(gt_of(1, 0)));
    lemma_gt_mul_at((28, 46), (28, 46), (82, 56), (-14, 4));
    assert(GT::spow_steps(GT(gt_of(1, 0)), GT(gt_of(28, 46)), 600) == GT::spow_steps(GT(gt_of(1, 0)), GT(gt_of(82, 56)), 300));
    lemma_gt_mul_at((82, 56), (82, 56), (53, 89), (35, 59));
    assert(GT::spow_steps(GT(gt_of(1, 0)), GT(gt_of(82, 56)), 300) == GT::spow_steps(GT(gt_of(1, 0)), GT(gt_of(53, 89)), 150));
    lemma_gt_mul_at((53, 89), (53, 89), (39, 99), (-51, 14));
    assert(GT::spow_steps(GT(gt_of(1, 0)), GT(gt_of(53, 89)), 150) == GT::spow_steps(GT(gt_of(1, 0)), GT(gt_of(39, 99)), 75));
    lemma_gt_mul_at((1, 0), (39, 99), (39, 99), (0, 0));
    lemma_gt_mul_at((39, 99), (39, 99), (2, 42), (-82, -21));
    assert(GT::spow_steps(GT(gt_of(1, 0)), GT(gt_of(39, 99)), 75) == GT::spow_steps(GT(gt_of(39, 99)), GT(gt_of(2, 42)), 37));
    lemma_gt_mul_at((39, 99), (2, 42), (61, 1), (-41, -23));
    lemma_gt_mul_at((2, 42), (2, 42), (58, 20), (-18, -16));
    assert(GT::spow_steps(GT(gt_of(39, 99)), GT(gt_of(2, 42)), 37) == GT::spow_steps(GT(gt_of(61, 1)), GT(gt_of(58, 20)), 18));
    lemma_gt_mul_at((58, 20), (58, 20), (35, 1), (29, 19));
    assert(GT::spow_steps(GT(gt_of(61, 1)), GT(gt_of(58, 20)), 18) == GT::spow_steps(GT(gt_of(61, 1)), GT(gt_of(35, 1)), 9));
    lemma_gt_mul_at((61, 1), (35, 1), (13, 95), (21, 0));
    lemma_gt_mul_at((35, 1), (35, 1), (12, 69), (12, 0));
    assert(GT::spow_steps(GT(gt_of(61, 1)), GT(gt_of(35, 1)), 9) == GT::spow_steps(GT(gt_of(13, 95)), GT(gt_of(12, 69)), 4));
    lemma_gt_mul_at((12, 69), (12, 69), (29, 26), (-46, -31));
    assert(GT::spow_steps(GT(gt_of(13, 95)), GT(gt_of(12, 69)), 4) == GT::spow_steps(GT(gt_of(13, 95)), GT(gt_of(29, 26)), 2));
    lemma_gt_mul_at((29, 26), (29, 26), (64, 24), (1, 8));
    assert(GT::spow_steps(GT(gt_of(13, 95)), GT(gt_of(29, 26)), 2) == GT::spow_steps(GT(gt_of(13, 95)), GT(gt_of(64, 24)), 1));
    lemma_gt_mul_at((13, 95), (64, 24), (67, 72), (-15, 40));
    lemma_gt_mul_at((64, 24), (64, 24), (86, 72), (34, 24));
    assert(GT::spow_steps(GT(gt_of(13, 95)), GT(gt_of(64, 24)), 1) == GT::spow_steps(GT(gt_of(67, 72)), GT(gt_of(86, 72)), 0));
}

/// The pairing of `3G` with the point `28 P` of the image of `H`.
proof fn lemma_pairing_3_28()
    ensures
        smiller_loop(g1p(26, 45), dq(12, 69)) is Some,
        spairing_at(g1p(26, 45), dq(12, 69)) == GT(gt_of(67, 72)),
{
    lemma_final_exponent();
    lemma_tangent_3_28();
    lemma_tangent_6_28();
    lemma_tangent_12_28();
    lemma_tangent_7_28();
    lemma_vertical_at(26, 56, 45, 12, 69);
    lemma_miller_at(
        g1p(26, 45),
        dq(12, 69),
        (g1p(32, 42), g1p(12, 69), g1p(91, 35), g1p(26, 56)),
        (34, 65),
        (76, 13),
        (1, 16),
        (10, 44),
        (-26, 12),
        ((62, 94, -31, 1), (56, 62, 34, 66), (100, 70, -8, 30), (91, 45, -11, 5)),
        ((95, 4, 61, 61), (67, 4, 7, 40), (28, 46, -18, 6)),
    );
    lemma_final_exp_3_28();
}

proof fn lemma_final_exp_4_28()
    ensures
        GT(gt_of(5, 66)).spow(600) == GT(gt_of(90, 62)),
{
    assert(GT::sone() == GT(gt_of(1, 0)));
    lemma_gt_mul_at((5, 66), (5, 66), (12, 41), (-43, -37));
    assert(GT::spow_steps(GT(gt_of(1, 0)), GT(gt_of(5, 66)), 600) == GT::spow_steps(GT(gt_of(1, 0)), GT(gt_of(12, 41)), 300));
    lemma_gt_mul_at((12, 41), (12, 41), (79, 10), (-16, -7));
    assert(GT::spow_steps(GT(gt_of(1, 0)), GT(gt_of(12, 41)), 300) == GT::spow_steps(GT(gt_of(1, 0)), GT(gt_of(79, 10)), 150));
    lemma_gt_mul_at((79, 10), (79, 10), (81, 66), (60, 14));
    assert(GT::spow_steps(GT(gt_of(1, 0)), GT(gt_of(79, 10)), 150) == GT::spow_steps(GT(gt_of(1, 0)), GT(gt_of(81, 66)), 75));
    lemma_gt_mul_at((1, 0), (81, 66), (81, 66), (0, 0));
    lemma_gt_mul_at((81, 66), (81, 66), (84, 74), (21, 62));
    assert(GT::spow_steps(GT(gt_of(1, 0)), GT(gt_of(81, 66)), 75) == GT::spow_steps(GT(gt_of(81, 66)), GT(gt_of(84, 74)), 37));
    lemma_gt_mul_at((81, 66), (84, 74), (1, 89), (19, 65));
    lemma_gt_mul_at((84, 74), (84, 74), (65, 88), (15, 68));
    assert(GT::spow_steps(GT(gt_of(81, 66)), GT(gt_of(84, 74)), 37) == GT::spow_steps(GT(gt_of(1, 89)), GT(gt_of(65, 88)), 18));
    lemma_gt_mul_at((65, 88), (65, 88), (16, 60), (-35, 36));
    assert(GT::spow_steps(GT(gt_of(1, 89)), GT(gt_of(65, 88)), 18) == GT::spow_steps(GT(gt_of(1, 89)), GT(gt_of(16, 60)), 9));
    lemma_gt_mul_at((1, 89), (16, 60), (29, 83), (-53, -39));
    lemma_gt_mul_at((16, 60), (16, 60), (90, 37), (-34, -17));
    assert(GT::spow_steps(GT(gt_of(1, 89)), GT(gt_of(16, 60)), 9) == GT::spow_steps(GT(gt_of(29, 83)), GT(gt_of(90, 37)), 4));
    lemma_gt_mul_at((90, 37), (90, 37), (65, 39), (66, 52));
    assert(GT::spow_steps(GT(gt_of(29, 83)), GT(gt_of(90, 37)), 4) == GT::spow_steps(GT(gt_of(29, 83)), GT(gt_of(65, 39)), 2));
    lemma_gt_mul_at((65, 39), (65, 39), (78, 14), (26, 35));
    assert(GT::spow_steps(GT(gt_of(29, 83)), GT(gt_of(65, 39)), 2) == GT::spow_steps(GT(gt_of(29, 83)), GT(gt_of(78, 14)), 1));
    lemma_gt_mul_at((29, 83), (78, 14), (90, 62), (10, 56));
    lemma_gt_mul_at((78, 14), (78, 14), (30, 69), (58, 19));
    assert(GT::spow_steps(GT(gt_of(29, 83)), GT(gt_of(78, 14)), 1) == GT::spow_steps(GT(gt_of(90, 62)), GT(gt_of(30, 69)), 0));
}

/// The pairing of `4G` with the point `28 P` of the image of `H`.
proof fn lemma_pairing_4_28()
    ensures
        smiller_loop(g1p(65, 98), dq(12, 69)) is Some,
        spairing_at(g1p(65, 98), dq(12, 69)) == GT(gt_of(90, 62)),
{
    lemma_final_exponent();
    lemma_tangent_4_28();
    lemma_tangent_8_28();
    lemma_tangent_16_28();
    lemma_tangent_15_28();
    lemma_vertical_at(65, 3, 98, 12, 69);
    lemma_miller_at(
        g1p(65, 98),
        dq(12, 69),
        (g1p(18, 49), g1p(1, 99), g1p(68, 27), g1p(65, 3)),
        (51, 44),
        (83, 65),
        (99, 16),
        (35, 28),
        (-65, 12),
        ((59, 27, 6, 25), (11, 79, 31, 42), (41, 42, -61, -45), (54, 1, 33, 41)),
        ((87, 6, 28, 1), (49, 54, 28, 24), (5, 66, -38, -36)),
    );
    lemma_final_exp_4_28();
}

proof fn lemma_final_exp_5_28()
    ensures
        GT(gt_of(87, 72)).spow(600) == GT(gt_of(68, 21)),
{
    assert(GT::sone() == GT(gt_of(1, 0)));
    lemma_gt_mul_at((87, 72), (87, 72), (62, 72), (23, 72));
    assert(GT::spow_steps(GT(gt_of(1, 0)), GT(gt_of(87, 72)), 600) == GT::spow_steps(GT(gt_of(1, 0)), GT(gt_of(62, 72)), 300));
    lemma_gt_mul_at((62, 72), (62, 72), (74, 7), (-14, 37));
    assert(GT::spow_steps(GT(gt_of(1, 0)), GT(gt_of(62, 72)), 300) == GT::spow_steps(GT(gt_of(1, 0)), GT(gt_of(74, 7)), 150));
    lemma_gt_mul_at((74, 7), (74, 7), (74, 78), (53, 9));
    assert(GT::spow_steps(GT(gt_of(1, 0)), GT(gt_of(74, 7)), 150) == GT::spow_steps(GT(gt_of(1, 0)), GT(gt_of(74, 78)), 75));
    lemma_gt_mul_at((1, 0), (74, 78), (74, 78), (0, 0));
    lemma_gt_mul_at((74, 78), (74, 78), (99, 6), (-7, 54));
    assert(GT::spow_steps(GT(gt_of(1, 0)), GT(gt_of(74, 78)), 75) == GT::spow_steps(GT(gt_of(74, 78)), GT(gt_of(99, 6)), 37));
    lemma_gt_mul_at((74, 78), (99, 6), (91, 22), (67, 76));
    lemma_gt_mul_at((99, 6), (99, 6), (69, 41), (96, 11));
    assert(GT::spow_steps(GT(gt_of(74, 78)), GT(gt_of(99, 6)), 37) == GT::spow_steps(GT(gt_of(91, 22)), GT(gt_of(69, 41)), 18));
    lemma_gt_mul_at((69, 41), (69, 41), (50, 38), (30, 39));
    assert(GT::spow_steps(GT(gt_of(91, 22)), GT(gt_of(69, 41)), 18) == GT::spow_steps(GT(gt_of(91, 22)), GT(gt_of(50, 38)), 9));
    lemma_gt_mul_at((91, 22), (50, 38), (78, 86), (36, 36));
    lemma_gt_mul_at((50, 38), (50, 38), (46, 33), (10, 23));
    assert(GT::spow_steps(GT(gt_of(91, 22)), GT(gt_of(50, 38)), 9) == GT::spow_steps(GT(gt_of(78, 86)), GT(gt_of(46, 33)), 4));
    lemma_gt_mul_at((46, 33), (46, 33), (17, 28), (10, 19));
    assert(GT::spow_steps(GT(gt_of(78, 86)), GT(gt_of(46, 33)), 4) == GT::spow_steps(GT(gt_of(78, 86)), GT(gt_of(17, 28)), 2));
    lemma_gt_mul_at((17, 28), (17, 28), (10, 67), (-5, 1));
    assert(GT::spow_steps(GT(gt_of(78, 86)), GT(gt_of(17, 28)), 2) == GT::spow_steps(GT(gt_of(78, 86)), GT(gt_of(10, 67)), 1));
    lemma_gt_mul_at((78, 86), (10, 67), (68, 21), (-50, 3));
    lemma_gt_mul_at((10, 67), (10, 67), (55, 83), (-44, -32));
    assert(GT::spow_steps(GT(gt_of(78, 86)), GT(gt_of(10, 67)), 1) == GT::spow_steps(GT(gt_of(68, 21)), GT(gt_of(55, 83)), 0));
}

/// The pairing of `5G` with the point `28 P` of the image of `H`.
proof fn lemma_pairing_5_28()
    ensures
        smiller_loop(g1p(12, 32), dq(12, 69)) is Some,
        spairing_at(g1p(12, 32), dq(12, 69)) == GT(gt_of(68, 21)),
{
    lemma_final_exponent();
    lemma_tangent_5_28();
    lemma_tangent_10_28();
    lemma_tangent_3_28();
    lemma_tangent_6_28();
    lemma_vertical_at(12, 69, 32, 12, 69);
    lemma_miller_at(
        g1p(12, 32),
        dq(12, 69),
        (g1p(91, 66), g1p(26, 45), g1p(32, 42), g1p(12, 69)),
        (88, 13),
        (0, 7),
        (34, 65),
        (76, 13),
        (-12, 12),
        ((0, 99, 75, 20), (14, 14, -7, -7), (0, 95, 0, 1), (87, 85, -62, -30)),
        ((41, 91, 3, 74), (14, 4, 19, 62), (87, 72, -3, 0)),
    );
    lemma_final_exp_5_28();
}

proof fn lemma_final_exp_6_28()
    ensures
        GT(gt_of(41, 58)).spow(600) == GT(gt_of(12, 20)),
{
    assert(GT::sone() == GT(gt_of(1, 0)));
    lemma_gt_mul_at((41, 58), (41, 58), (34, 79), (-17, 13));
    assert(GT::spow_steps(GT(gt_of(1, 0)), GT(gt_of(41, 58)), 600) == GT::spow_steps(GT(gt_of(1, 0)), GT(gt_of(34, 79)), 300));
    lemma_gt_mul_at((34, 79), (34, 79), (66, 40), (-51, -9));
    assert(GT::spow_steps(GT(gt_of(1, 0)), GT(gt_of(34, 79)), 300) == GT::spow_steps(GT(gt_of(1, 0)), GT(gt_of(66, 40)), 150));
    lemma_gt_mul_at((66, 40), (66, 40), (29, 44), (27, 36));
    assert(GT::spow_steps(GT(gt_of(1, 0)), GT(gt_of(66, 40)), 150) == GT::spow_steps(GT(gt_of(1, 0)), GT(gt_of(29, 44)), 75));
    lemma_gt_mul_at((1, 0), (29, 44), (29, 44), (0, 0));
    lemma_gt_mul_at((29, 44), (29, 44), (16, 10), (-11, 6));
    assert(GT::spow_steps(GT(gt_of(1, 0)), GT(gt_of(29, 44)), 75) == GT::spow_steps(GT(gt_of(29, 44)), GT(gt_of(16, 10)), 37));
    lemma_gt_mul_at((29, 44), (16, 10), (24, 49), (0, 5));
    lemma_gt_mul_at((16, 10), (16, 10), (55, 18), (1, 2));
    assert(GT::spow_steps(GT(gt_of(29, 44)), GT(gt_of(16, 10)), 37) == GT::spow_steps(GT(gt_of(24, 49)), GT(gt_of(55, 18)), 18));
    lemma_gt_mul_at((55, 18), (55, 18), (75, 40), (26, 16));
    assert(GT::spow_steps(GT(gt_of(24, 49)), GT(gt_of(55, 18)), 18) == GT::spow_steps(GT(gt_of(24, 49)), GT(gt_of(75, 40)), 9));
    lemma_gt_mul_at((24, 49), (75, 40), (42, 49), (-2, 26));
    lemma_gt_mul_at((75, 40), (75, 40), (86, 57), (39, 43));
    assert(GT::spow_steps(GT(gt_of(24, 49)), GT(gt_of(75, 40)), 9) == GT::spow_steps(GT(gt_of(42, 49)), GT(gt_of(86, 57)), 4));
    lemma_gt_mul_at((86, 57), (86, 57), (6, 91), (41, 64));
    assert(GT::spow_steps(GT(gt_of(42, 49)), GT(gt_of(86, 57)), 4) == GT::spow_steps(GT(gt_of(42, 49)), GT(gt_of(6, 91)), 2));
    lemma_gt_mul_at((6, 91), (6, 91), (37, 83), (-82, -72));
    assert(GT::spow_steps(GT(gt_of(42, 49)), GT(gt_of(6, 91)), 2) == GT::spow_steps(GT(gt_of(42, 49)), GT(gt_of(37, 83)), 1));
    lemma_gt_mul_at((42, 49), (37, 83), (12, 20), (-25, 12));
    lemma_gt_mul_at((37, 83), (37, 83), (35, 61), (-55, -8));
    assert(GT::spow_steps(GT(gt_of(42, 49)), GT(gt_of(37, 83)), 1) == GT::spow_steps(GT(gt_of(12, 20)), GT(gt_of(35, 61)), 0));
}

/// The pairing of `6G` with the point `28 P` of the image of `H`.
proof fn lemma_pairing_6_28()
    ensures
        smiller_loop(g1p(32, 42), dq(12, 69)) is Some,
        spairing_at(g1p(32, 42), dq(12, 69)) == GT(gt_of(12, 20)),
{
    lemma_final_exponent();
    lemma_tangent_6_28();
    lemma_tangent_12_28();
    lemma_tangent_7_28();
    lemma_tangent_14_28();
    lemma_vertical_at(32, 59, 42, 12, 69);
    lemma_miller_at(
        g1p(32, 42),
        dq(12, 69),
        (g1p(12, 69), g1p(91, 35), g1p(26, 56), g1p(32, 59)),
        (76, 13),
        (1, 16),
        (10, 44),
        (23, 24),
        (-32, 12),
        ((52, 90, 55, 17), (26, 88, -14, -6), (2, 64, -70, -32), (32, 33, -28, -21)),
        ((36, 13, -1, 10), (11, 43, 5, 8), (41, 58, -9, -18)),
    );
    lemma_final_exp_6_28();
}

proof fn lemma_final_exp_7_28()
    ensures
        GT(gt_of(40, 69)).spow(600) == GT(gt_of(51, 9)),
{
    assert(GT::sone() == GT(gt_of(1, 0)));
    lemma_gt_mul_at((40, 69), (40, 69), (71, 52), (-32, 7));
    assert(GT::spow_steps(GT(gt_of(1, 0)), GT(gt_of(40, 69)), 600) == GT::spow_steps(GT(gt_of(1, 0)), GT(gt_of(71, 52)), 300));
    lemma_gt_mul_at((71, 52), (71, 52), (14, 34), (23, 46));
    assert(GT::spow_steps(GT(gt_of(1, 0)), GT(gt_of(71, 52)), 300) == GT::spow_steps(GT(gt_of(1, 0)), GT(gt_of(14, 34)), 150));
    lemma_gt_mul_at((14, 34), (14, 34), (50, 99), (-10, -3));
    assert(GT::spow_steps(GT(gt_of(1, 0)), GT(gt_of(14, 34)), 150) == GT::spow_steps(GT(gt_of(1, 0)), GT(gt_of(50, 99)), 75));
    lemma_gt_mul_at((1, 0), (50, 99), (50, 99), (0, 0));
    lemma_gt_mul_at((50, 99), (50, 99), (72, 99), (-73, 0));
    assert(GT::spow_steps(GT(gt_of(1, 0)), GT(gt_of(50, 99)), 75) == GT::spow_steps(GT(gt_of(50, 99)), GT(gt_of(72, 99)), 37));
    lemma_gt_mul_at((50, 99), (72, 99), (61, 55), (-62, 22));
    lemma_gt_mul_at((72, 99), (72, 99), (29, 11), (-46, 44));
    assert(GT::spow_steps(GT(gt_of(50, 99)), GT(gt_of(72, 99)), 37) == GT::spow_steps(GT(gt_of(61, 55)), GT(gt_of(29, 11)), 18));
    lemma_gt_mul_at((29, 11), (29, 11), (13, 12), (7, 5));
    assert(GT::spow_steps(GT(gt_of(61, 55)), GT(gt_of(29, 11)), 18) == GT::spow_steps(GT(gt_of(61, 55)), GT(gt_of(13, 12)), 9));
    lemma_gt_mul_at((61, 55), (13, 12), (32, 80), (1, 7));
    lemma_gt_mul_at((13, 12), (13, 12), (25, 67), (0, 1));
    assert(GT::spow_steps(GT(gt_of(61, 55)), GT(gt_of(13, 12)), 9) == GT::spow_steps(GT(gt_of(32, 80)), GT(gt_of(25, 67)), 4));
    lemma_gt_mul_at((25, 67), (25, 67), (75, 73), (-39, -12));
    assert(GT::spow_steps(GT(gt_of(32, 80)), GT(gt_of(25, 67)), 4) == GT::spow_steps(GT(gt_of(32, 80)), GT(gt_of(75, 73)), 2));
    lemma_gt_mul_at((75, 73), (75, 73), (94, 66), (2, 55));
    assert(GT::spow_steps(GT(gt_of(32, 80)), GT(gt_of(75, 73)), 2) == GT::spow_steps(GT(gt_of(32, 80)), GT(gt_of(94, 66)), 1));
    lemma_gt_mul_at((32, 80), (94, 66), (51, 9), (-23, 43));
    lemma_gt_mul_at((94, 66), (94, 66), (36, 73), (44, 79));
    assert(GT::spow_steps(GT(gt_of(32, 80)), GT(gt_of(94, 66)), 1) == GT::spow_steps(GT(gt_of(51, 9)), GT(gt_of(36, 73)), 0));
}

/// The pairing of `7G` with the point `28 P` of the image of `H`.
proof fn lemma_pairing_7_28()
    ensures
        smiller_loop(g1p(91, 35), dq(12, 69)) is Some,
        spairing_at(g1p(91, 35), dq(12, 69)) == GT(gt_of(51, 9)),
{
    lemma_final_exponent();
    lemma_tangent_7_28();
    lemma_tangent_14_28();
    lemma_tangent_11_28();
    lemma_tangent_5_28();
    lemma_vertical_at(91, 66, 35, 12, 69);
    lemma_miller_at(
        g1p(91, 35),
        dq(12, 69),
        (g1p(26, 56), g1p(32, 59), g1p(12, 32), g1p(91, 66)),
        (10, 44),
        (23, 24),
        (51, 0),
        (88, 13),
        (-91, 12),
        ((83, 55, -19, -11), (84, 18, 5, 19), (66, 74, 66, 26), (33, 37, 33, 37)),
        ((23, 63, -3, 10), (94, 75, 11, 49), (40, 69, -94, -66)),
    );
    lemma_final_exp_7_28();
}

proof fn lemma_final_exp_8_28()
    ensures
        GT(gt_of(26, 38)).spow(600) == GT(gt_of(14, 44)),
{
    assert(GT::sone() == GT(gt_of(1, 0)));
    lemma_gt_mul_at((26, 38), (26, 38), (40, 27), (-8, 5));
    assert(GT::spow_steps(GT(gt_of(1, 0)), GT(gt_of(26, 38)), 600) == GT::spow_steps(GT(gt_of(1, 0)), GT(gt_of(40, 27)), 300));
    lemma_gt_mul_at((40, 27), (40, 27), (63, 17), (8, 14));
    assert(GT::spow_steps(GT(gt_of(1, 0)), GT(gt_of(40, 27)), 300) == GT::spow_steps(GT(gt_of(1, 0)), GT(gt_of(63, 17)), 150));
    lemma_gt_mul_at((63, 17), (63, 17), (44, 35), (36, 18));
    assert(GT::spow_steps(GT(gt_of(1, 0)), GT(gt_of(63, 17)), 150) == GT::spow_steps(GT(gt_of(1, 0)), GT(gt_of(44, 35)), 75));
    lemma_gt_mul_at((1, 0), (44, 35), (44, 35), (0, 0));
    lemma_gt_mul_at((44, 35), (44, 35), (4, 37), (7, 18));
    assert(GT::spow_steps(GT(gt_of(1, 0)), GT(gt_of(44, 35)), 75) == GT::spow_steps(GT(gt_of(44, 35)), GT(gt_of(4, 37)), 37));
    lemma_gt_mul_at((44, 35), (4, 37), (93, 69), (-12, 4));
    lemma_gt_mul_at((4, 37), (4, 37), (61, 38), (-14, -11));
    assert(GT::spow_steps(GT(gt_of(44, 35)), GT(gt_of(4, 37)), 37) == GT::spow_steps(GT(gt_of(93, 69)), GT(gt_of(61, 38)), 18));
    lemma_gt_mul_at((61, 38), (61, 38), (55, 61), (22, 31));
    assert(GT::spow_steps(GT(gt_of(93, 69)), GT(gt_of(61, 38)), 18) == GT::spow_steps(GT(gt_of(93, 69)), GT(gt_of(55, 61)), 9));
    lemma_gt_mul_at((93, 69), (55, 61), (98, 7), (8, 52));
    lemma_gt_mul_at((55, 61), (55, 61), (11, 60), (-7, 29));
    assert(GT::spow_steps(GT(gt_of(93, 69)), GT(gt_of(55, 61)), 9) == GT::spow_steps(GT(gt_of(98, 7)), GT(gt_of(11, 60)), 4));
    lemma_gt_mul_at((11, 60), (11, 60), (56, 43), (-35, -23));
    assert(GT::spow_steps(GT(gt_of(98, 7)), GT(gt_of(11, 60)), 4) == GT::spow_steps(GT(gt_of(98, 7)), GT(gt_of(56, 43)), 2));
    lemma_gt_mul_at((56, 43), (56, 43), (75, 38), (12, 29));
    assert(GT::spow_steps(GT(gt_of(98, 7)), GT(gt_of(56, 43)), 2) == GT::spow_steps(GT(gt_of(98, 7)), GT(gt_of(75, 38)), 1));
    lemma_gt_mul_at((98, 7), (75, 38), (14, 44), (70, 39));
    lemma_gt_mul_at((75, 38), (75, 38), (40, 14), (41, 42));
    assert(GT::spow_steps(GT(gt_of(98, 7)), GT(gt_of(75, 38)), 1) == GT::spow_steps(GT(gt_of(14, 44)), GT(gt_of(40, 14)), 0));
}

/// The pairing of `8G` with the point `28 P` of the image of `H`.
proof fn lemma_pairing_8_28()
    ensures
        smiller_loop(g1p(18, 49), dq(12, 69)) is Some,
        spairing_at(g1p(18, 49), dq(12, 69)) == GT(gt_of(14, 44)),
{
    lemma_final_exponent();
    lemma_tangent_8_28();
    lemma_tangent_16_28();
    lemma_tangent_15_28();
    lemma_tangent_13_28();
    lemma_vertical_at(18, 52, 49, 12, 69);
    lemma_miller_at(
        g1p(18, 49),
        dq(12, 69),
        (g1p(1, 99), g1p(68, 27), g1p(65, 3), g1p(18, 52)),
        (83, 65),
        (99, 16),
        (35, 28),
        (28, 28),
        (-18, 12),
        ((38, 0, 26, 65), (25, 2, 37, 6), (15, 96, 6, 0), (59, 82, -22, 10)),
        ((90, 23, -33, 29), (58, 96, 18, 24), (26, 38, -22, -22)),
    );
    lemma_final_exp_8_28();
}

proof fn lemma_final_exp_9_28()
    ensures
        GT(gt_of(91, 41)).spow(600) == GT(gt_of(71, 57)),
{
    assert(GT::sone() == GT(gt_of(1, 0)));
    lemma_gt_mul_at((91, 41), (91, 41), (35, 24), (65, 57));
    assert(GT::spow_steps(GT(gt_of(1, 0)), GT(gt_of(91, 41)), 600) == GT::spow_steps(GT(gt_of(1, 0)), GT(gt_of(35, 24)), 300));
    lemma_gt_mul_at((35, 24), (35, 24), (43, 94), (6, 10));
    assert(GT::spow_steps(GT(gt_of(1, 0)), GT(gt_of(35, 24)), 300) == GT::spow_steps(GT(gt_of(1, 0)), GT(gt_of(43, 94)), 150));
    lemma_gt_mul_at((43, 94), (43, 94), (83, 56), (-70, -8));
    assert(GT::spow_steps(GT(gt_of(1, 0)), GT(gt_of(43, 94)), 150) == GT::spow_steps(GT(gt_of(1, 0)), GT(gt_of(83, 56)), 75));
    lemma_gt_mul_at((1, 0), (83, 56), (83, 56), (0, 0));
    lemma_gt_mul_at((83, 56), (83, 56), (16, 100), (37, 60));
    assert(GT::spow_steps(GT(gt_of(1, 0)), GT(gt_of(83, 56)), 75) == GT::spow_steps(GT(gt_of(83, 56)), GT(gt_of(16, 100)), 37));
    lemma_gt_mul_at((83, 56), (16, 100), (71, 61), (-43, 35));
    lemma_gt_mul_at((16, 100), (16, 100), (53, 68), (-97, -68));
    assert(GT::spow_steps(GT(gt_of(83, 56)), GT(gt_of(16, 100)), 37) == GT::spow_steps(GT(gt_of(71, 61)), GT(gt_of(53, 68)), 18));
    lemma_gt_mul_at((53, 68), (53, 68), (3, 59), (-18, 25));
    assert(GT::spow_steps(GT(gt_of(71, 61)), GT(gt_of(53, 68)), 18) == GT::spow_steps(GT(gt_of(71, 61)), GT(gt_of(3, 59)), 9));
    lemma_gt_mul_at((71, 61), (3, 59), (48, 66), (-34, 7));
    lemma_gt_mul_at((3, 59), (3, 59), (63, 4), (-35, -31));
    assert(GT::spow_steps(GT(gt_of(71, 61)), GT(gt_of(3, 59)), 9) == GT::spow_steps(GT(gt_of(48, 66)), GT(gt_of(63, 4)), 4));
    lemma_gt_mul_at((63, 4), (63, 4), (14, 84), (39, 4));
    assert(GT::spow_steps(GT(gt_of(48, 66)), GT(gt_of(63, 4)), 4) == GT::spow_steps(GT(gt_of(48, 66)), GT(gt_of(14, 84)), 2));
    lemma_gt_mul_at((14, 84), (14, 84), (8, 43), (-68, -47));
    assert(GT::spow_steps(GT(gt_of(48, 66)), GT(gt_of(14, 84)), 2) == GT::spow_steps(GT(gt_of(48, 66)), GT(gt_of(8, 43)), 1));
    lemma_gt_mul_at((48, 66), (8, 43), (71, 57), (-25, -3));
    lemma_gt_mul_at((8, 43), (8, 43), (33, 51), (-18, -12));
    assert(GT::spow_steps(GT(gt_of(48, 66)), GT(gt_of(8, 43)), 1) == GT::spow_steps(GT(gt_of(71, 57)), GT(gt_of(33, 51)), 0));
}

/// The pairing of `9G` with the point `28 P` of the image of `H`.
proof fn lemma_pairing_9_28()
    ensures
        smiller_loop(g1p(18, 52), dq(12, 69)) is Some,
        spairing_at(g1p(18, 52), dq(12, 69)) == GT(gt_of(71, 57)),
{
    lemma_final_exponent();
    lemma_tangent_9_28();
    lemma_tangent_1_28();
    lemma_tangent_2_28();
    lemma_tangent_4_28();
    lemma_vertical_at(18, 49, 52, 12, 69);
    lemma_miller_at(
        g1p(18, 52),
        dq(12, 69),
        (g1p(1, 2), g1p(68, 74), g1p(65, 98), g1p(18, 49)),
        (4, 93),
        (88, 7),
        (26, 93),
        (51, 44),
        (-18, 12),
        ((53, 74, -86, -79), (5, 2, 41, 63), (21, 16, 0, 0), (68, 73, -10, 8)),
        ((2, 54, -7, 45), (49, 62, -23, 4), (91, 41, -17, -13)),
    );
    lemma_final_exp_9_28();
}

proof fn lemma_final_exp_10_28()
    ensures
        GT(gt_of(18, 8)).spow(600) == GT(gt_of(42, 92)),
{
    assert(GT::sone() == GT(gt_of(1, 0)));
    lemma_gt_mul_at((18, 8), (18, 8), (58, 22), (2, 2));
    assert(GT::spow_steps(GT(gt_of(1, 0)), GT(gt_of(18, 8)), 600) == GT::spow_steps(GT(gt_of(1, 0)), GT(gt_of(58, 22)), 300));
    lemma_gt_mul_at((58, 22), (58, 22), (52, 48), (28, 20));
    assert(GT::spow_steps(GT(gt_of(1, 0)), GT(gt_of(58, 22)), 300) == GT::spow_steps(GT(gt_of(1, 0)), GT(gt_of(52, 48)), 150));
    lemma_gt_mul_at((52, 48), (52, 48), (97, 62), (3, 26));
    assert(GT::spow_steps(GT(gt_of(1, 0)), GT(gt_of(52, 48)), 150) == GT::spow_steps(GT(gt_of(1, 0)), GT(gt_of(97, 62)), 75));
    lemma_gt_mul_at((1, 0), (97, 62), (97, 62), (0, 0));
    lemma_gt_mul_at((97, 62), (97, 62), (10, 3), (55, 81));
    assert(GT::spow_steps(GT(gt_of(1, 0)), GT(gt_of(97, 62)), 75) == GT::spow_steps(GT(gt_of(97, 62)), GT(gt_of(10, 3)), 37));
    lemma_gt_mul_at((97, 62), (10, 3), (77, 18), (7, 7));
    lemma_gt_mul_at((10, 3), (10, 3), (91, 51), (0, 0));
    assert(GT::spow_steps(GT(gt_of(97, 62)), GT(gt_of(10, 3)), 37) == GT::spow_steps(GT(gt_of(77, 18)), GT(gt_of(91, 51)), 18));
    lemma_gt_mul_at((91, 51), (91, 51), (24, 15), (56, 66));
    assert(GT::spow_steps(GT(gt_of(77, 18)), GT(gt_of(91, 51)), 18) == GT::spow_steps(GT(gt_of(77, 18)), GT(gt_of(24, 15)), 9));
    lemma_gt_mul_at((77, 18), (24, 15), (63, 4), (15, 13));
    lemma_gt_mul_at((24, 15), (24, 15), (48, 91), (3, 4));
    assert(GT::spow_steps(GT(gt_of(77, 18)), GT(gt_of(24, 15)), 9) == GT::spow_steps(GT(gt_of(63, 4)), GT(gt_of(48, 91)), 4));
    lemma_gt_mul_at((48, 91), (48, 91), (83, 51), (-60, 4));
    assert(GT::spow_steps(GT(gt_of(63, 4)), GT(gt_of(48, 91)), 4) == GT::spow_steps(GT(gt_of(63, 4)), GT(gt_of(83, 51)), 2));
    lemma_gt_mul_at((83, 51), (83, 51), (46, 7), (42, 58));
    assert(GT::spow_steps(GT(gt_of(63, 4)), GT(gt_of(83, 51)), 2) == GT::spow_steps(GT(gt_of(63, 4)), GT(gt_of(46, 7)), 1));
    lemma_gt_mul_at((63, 4), (46, 7), (42, 92), (28, 5));
    lemma_gt_mul_at((46, 7), (46, 7), (47, 90), (20, 5));
    assert(GT::spow_steps(GT(gt_of(63, 4)), GT(gt_of(46, 7)), 1) == GT::spow_steps(GT(gt_of(42, 92)), GT(gt_of(47, 90)), 0));
}

/// The pairing of `10G` with the point `28 P` of the image of `H`.
proof fn lemma_pairing_10_28()
    ensures
        smiller_loop(g1p(91, 66), dq(12, 69)) is Some,
        spairing_at(g1p(91, 66), dq(12, 69)) == GT(gt_of(42, 92)),
{
    lemma_final_exponent();
    lemma_tangent_10_28();
    lemma_tangent_3_28();
    lemma_tangent_6_28();
    lemma_tangent_12_28();
    lemma_vertical_at(91, 35, 66, 12, 69);
    lemma_miller_at(
        g1p(91, 66),
        dq(12, 69),
        (g1p(26, 45), g1p(32, 42), g1p(12, 69), g1p(91, 35)),
        (0, 7),
        (34, 65),
        (76, 13),
        (1, 16),
        (-91, 12),
        ((52, 52, -1, -1), (4, 51, -16, 17), (41, 29, -26, -22), (12, 37, 27, 23)),
        ((88, 24, -13, -5), (7, 38, -3, 10), (18, 8, -11, -38)),
    );
    lemma_final_exp_10_28();
}

proof fn lemma_final_exp_11_28()
    ensures
        GT(gt_of(53, 81)).spow(600) == GT(gt_of(93, 81)),
{
    assert(GT::sone() == GT(gt_of(1, 0)));
    lemma_gt_mul_at((53, 81), (53, 81), (86, 5), (-38, 20));
    assert(GT::spow_steps(GT(gt_of(1, 0)), GT(gt_of(53, 81)), 600) == GT::spow_steps(GT(gt_of(1, 0)), GT(gt_of(86, 5)), 300));
    lemma_gt_mul_at((86, 5), (86, 5), (99, 27), (72, 8));
    assert(GT::spow_steps(GT(gt_of(1, 0)), GT(gt_of(86, 5)), 300) == GT::spow_steps(GT(gt_of(1, 0)), GT(gt_of(99, 27)), 150));
    lemma_gt_mul_at((99, 27), (99, 27), (83, 72), (89, 45));
    assert(GT::spow_steps(GT(gt_of(1, 0)), GT(gt_of(99, 27)), 150) == GT::spow_steps(GT(gt_of(1, 0)), GT(gt_of(83, 72)), 75));
    lemma_gt_mul_at((1, 0), (83, 72), (83, 72), (0, 0));
    lemma_gt_mul_at((83, 72), (83, 72), (89, 1), (16, 67));
    assert(GT::spow_steps(GT(gt_of(1, 0)), GT(gt_of(83, 72)), 75) == GT::spow_steps(GT(gt_of(83, 72)), GT(gt_of(89, 1)), 37));
    lemma_gt_mul_at((83, 72), (89, 1), (43, 56), (72, 63));
    lemma_gt_mul_at((89, 1), (89, 1), (42, 76), (78, 1));
    assert(GT::spow_steps(GT(gt_of(83, 72)), GT(gt_of(89, 1)), 37) == GT::spow_steps(GT(gt_of(43, 56)), GT(gt_of(42, 76)), 18));
    lemma_gt_mul_at((42, 76), (42, 76), (28, 2), (-40, 6));
    assert(GT::spow_steps(GT(gt_of(43, 56)), GT(gt_of(42, 76)), 18) == GT::spow_steps(GT(gt_of(43, 56)), GT(gt_of(28, 2)), 9));
    lemma_gt_mul_at((43, 56), (28, 2), (82, 27), (10, 15));
    lemma_gt_mul_at((28, 2), (28, 2), (73, 7), (7, 1));
    assert(GT::spow_steps(GT(gt_of(43, 56)), GT(gt_of(28, 2)), 9) == GT::spow_steps(GT(gt_of(82, 27)), GT(gt_of(73, 7)), 4));
    lemma_gt_mul_at((73, 7), (73, 7), (28, 64), (52, 9));
    assert(GT::spow_steps(GT(gt_of(82, 27)), GT(gt_of(73, 7)), 4) == GT::spow_steps(GT(gt_of(82, 27)), GT(gt_of(28, 64)), 2));
    lemma_gt_mul_at((28, 64), (28, 64), (21, 94), (-33, -6));
    assert(GT::spow_steps(GT(gt_of(82, 27)), GT(gt_of(28, 64)), 2) == GT::spow_steps(GT(gt_of(82, 27)), GT(gt_of(21, 94)), 1));
    lemma_gt_mul_at((82, 27), (21, 94), (93, 81), (-9, 56));
    lemma_gt_mul_at((21, 94), (21, 94), (89, 61), (-84, -49));
    assert(GT::spow_steps(GT(gt_of(82, 27)), GT(gt_of(21, 94)), 1) == GT::spow_steps(GT(gt_of(93, 81)), GT(gt_of(89, 61)), 0));
}

/// The pairing of `11G` with the point `28 P` of the image of `H`.
proof fn lemma_pairing_11_28()
    ensures
        smiller_loop(g1p(32, 59), dq(12, 69)) is Some,
        spairing_at(g1p(32, 59), dq(12, 69)) == GT(gt_of(93, 81)),
{
    lemma_final_exponent();
    lemma_tangent_11_28();
    lemma_tangent_5_28();
    lemma_tangent_10_28();
    lemma_tangent_3_28();
    lemma_vertical_at(32, 42, 59, 12, 69);
    lemma_miller_at(
        g1p(32, 59),
        dq(12, 69),
        (g1p(12, 32), g1p(91, 66), g1p(26, 45), g1p(32, 42)),
        (51, 0),
        (88, 13),
        (0, 7),
        (34, 65),
        (-32, 12),
        ((76, 0, 25, 0), (22, 79, 66, 9), (0, 63, -57, -28), (64, 64, -5, -5)),
        ((0, 56, 0, 40), (97, 82, -37, -18), (53, 81, -41, -25)),
    );
    lemma_final_exp_11_28();
}

proof fn lemma_final_exp_12_28()
    ensures
        GT(gt_of(28, 20)).spow(600) == GT(gt_of(47, 80)),
{
    assert(GT::sone() == GT(gt_of(1, 0)));
    lemma_gt_mul_at((28, 20), (28, 20), (81, 13), (3, 7));
    assert(GT::spow_steps(GT(gt_of(1, 0)), GT(gt_of(28, 20)), 600) == GT::spow_steps(GT(gt_of(1, 0)), GT(gt_of(81, 13)), 300));
    lemma_gt_mul_at((81, 13), (81, 13), (29, 18), (63, 19));
    assert(GT::spow_steps(GT(gt_of(1, 0)), GT(gt_of(81, 13)), 300) == GT::spow_steps(GT(gt_of(1, 0)), GT(gt_of(29, 18)), 150));
    lemma_gt_mul_at((29, 18), (29, 18), (12, 13), (5, 7));
    assert(GT::spow_steps(GT(gt_of(1, 0)), GT(gt_of(29, 18)), 150) == GT::spow_steps(GT(gt_of(1, 0)), GT(gt_of(12, 13)), 75));
    lemma_gt_mul_at((1, 0), (12, 13), (12, 13), (0, 0));
    lemma_gt_mul_at((12, 13), (12, 13), (76, 42), (-1, 1));
    assert(GT::spow_steps(GT(gt_of(1, 0)), GT(gt_of(12, 13)), 75) == GT::spow_steps(GT(gt_of(12, 13)), GT(gt_of(76, 42)), 37));
    lemma_gt_mul_at((12, 13), (76, 42), (63, 37), (3, 9));
    lemma_gt_mul_at((76, 42), (76, 42), (73, 75), (39, 45));
    assert(GT::spow_steps(GT(gt_of(12, 13)), GT(gt_of(76, 42)), 37) == GT::spow_steps(GT(gt_of(63, 37)), GT(gt_of(73, 75)), 18));
    lemma_gt_mul_at((73, 75), (73, 75), (7, 73), (-3, 52));
    assert(GT::spow_steps(GT(gt_of(63, 37)), GT(gt_of(73, 75)), 18) == GT::spow_steps(GT(gt_of(63, 37)), GT(gt_of(7, 73)), 9));
    lemma_gt_mul_at((63, 37), (7, 73), (63, 36), (-23, 21));
    lemma_gt_mul_at((7, 73), (7, 73), (73, 36), (-53, -43));
    assert(GT::spow_steps(GT(gt_of(63, 37)), GT(gt_of(7, 73)), 9) == GT::spow_steps(GT(gt_of(63, 36)), GT(gt_of(73, 36)), 4));
    lemma_gt_mul_at((73, 36), (73, 36), (94, 21), (39, 39));
    assert(GT::spow_steps(GT(gt_of(63, 36)), GT(gt_of(73, 36)), 4) == GT::spow_steps(GT(gt_of(63, 36)), GT(gt_of(94, 21)), 2));
    lemma_gt_mul_at((94, 21), (94, 21), (12, 73), (83, 34));
    assert(GT::spow_steps(GT(gt_of(63, 36)), GT(gt_of(94, 21)), 2) == GT::spow_steps(GT(gt_of(63, 36)), GT(gt_of(12, 73)), 1));
    lemma_gt_mul_at((63, 36), (12, 73), (47, 80), (-19, 23));
    lemma_gt_mul_at((12, 73), (12, 73), (67, 59), (-52, -36));
    assert(GT::spow_steps(GT(gt_of(63, 36)), GT(gt_of(12, 73)), 1) == GT::spow_steps(GT(gt_of(47, 80)), GT(gt_of(67, 59)), 0));
}

/// The pairing of `12G` with the point `28 P` of the image of `H`.
proof fn lemma_pairing_12_28()
    ensures
        smiller_loop(g1p(12, 69), dq(12, 69)) is Some,
        spairing_at(g1p(12, 69), dq(12, 69)) == GT(gt_of(47, 80)),
{
    lemma_final_exponent();
    lemma_tangent_12_28();
    lemma_tangent_7_28();
    lemma_tangent_14_28();
    lemma_tangent_11_28();
    lemma_vertical_at(12, 32, 69, 12, 69);
    lemma_miller_at(
        g1p(12, 69),
        dq(12, 69),
        (g1p(91, 35), g1p(26, 56), g1p(32, 59), g1p(12, 32)),
        (1, 16),
        (10, 44),
        (23, 24),
        (51, 0),
        (-12, 12),
        ((48, 79, -3, -3), (34, 32, -30, -6), (31, 41, 1, 11), (32, 97, -3, 6)),
        ((99, 31, -84, -32), (100, 66, 49, 15), (28, 20, -20, -4)),
    );
    lemma_final_exp_12_28();
}

proof fn lemma_final_exp_13_28()
    ensures
        GT(gt_of(84, 76)).spow(600) == GT(gt_of(28, 39)),
{
    assert(GT::sone() == GT(gt_of(1, 0)));
    lemma_gt_mul_at((84, 76), (84, 76), (68, 23), (12, 69));
    assert(GT::spow_steps(GT(gt_of(1, 0)), GT(gt_of(84, 76)), 600) == GT::spow_steps(GT(gt_of(1, 0)), GT(gt_of(68, 23)), 300));
    lemma_gt_mul_at((68, 23), (68, 23), (55, 74), (40, 25));
    assert(GT::spow_steps(GT(gt_of(1, 0)), GT(gt_of(68, 23)), 300) == GT::spow_steps(GT(gt_of(1, 0)), GT(gt_of(55, 74)), 150));
    lemma_gt_mul_at((55, 74), (55, 74), (74, 38), (-25, 26));
    assert(GT::spow_steps(GT(gt_of(1, 0)), GT(gt_of(55, 74)), 150) == GT::spow_steps(GT(gt_of(1, 0)), GT(gt_of(74, 38)), 75));
    lemma_gt_mul_at((1, 0), (74, 38), (74, 38), (0, 0));
    lemma_gt_mul_at((74, 38), (74, 38), (93, 39), (39, 41));
    assert(GT::spow_steps(GT(gt_of(1, 0)), GT(gt_of(74, 38)), 75) == GT::spow_steps(GT(gt_of(74, 38)), GT(gt_of(93, 39)), 37));
    lemma_gt_mul_at((74, 38), (93, 39), (47, 90), (53, 48));
    lemma_gt_mul_at((93, 39), (93, 39), (58, 77), (70, 56));
    assert(GT::spow_steps(GT(gt_of(74, 38)), GT(gt_of(93, 39)), 37) == GT::spow_steps(GT(gt_of(47, 90)), GT(gt_of(58, 77)), 18));
    lemma_gt_mul_at((58, 77), (58, 77), (61, 74), (-26, 29));
    assert(GT::spow_steps(GT(gt_of(47, 90)), GT(gt_of(58, 77)), 18) == GT::spow_steps(GT(gt_of(47, 90)), GT(gt_of(61, 74)), 9));
    lemma_gt_mul_at((47, 90), (61, 74), (45, 86), (-38, 22));
    lemma_gt_mul_at((61, 74), (61, 74), (63, 17), (-18, 35));
    assert(GT::spow_steps(GT(gt_of(47, 90)), GT(gt_of(61, 74)), 9) == GT::spow_steps(GT(gt_of(45, 86)), GT(gt_of(63, 17)), 4));
    lemma_gt_mul_at((63, 17), (63, 17), (44, 35), (36, 18));
    assert(GT::spow_steps(GT(gt_of(45, 86)), GT(gt_of(63, 17)), 4) == GT::spow_steps(GT(gt_of(45, 86)), GT(gt_of(44, 35)), 2));
    lemma_gt_mul_at((44, 35), (44, 35), (4, 37), (7, 18));
    assert(GT::spow_steps(GT(gt_of(45, 86)), GT(gt_of(44, 35)), 2) == GT::spow_steps(GT(gt_of(45, 86)), GT(gt_of(4, 37)), 1));
    lemma_gt_mul_at((45, 86), (4, 37), (28, 39), (-30, -12));
    lemma_gt_mul_at((4, 37), (4, 37), (61, 38), (-14, -11));
    assert(GT::spow_steps(GT(gt_of(45, 86)), GT(gt_of(4, 37)), 1) == GT::spow_steps(GT(gt_of(28, 39)), GT(gt_of(61, 38)), 0));
}

/// The pairing of `13G` with the point `28 P` of the image of `H`.
proof fn lemma_pairing_13_28()
    ensures
        smiller_loop(g1p(65, 3), dq(12, 69)) is Some,
        spairing_at(g1p(65, 3), dq(12, 69)) == GT(gt_of(28, 39)),
{
    lemma_final_exponent();
    lemma_tangent_13_28();
    lemma_tangent_9_28();
    lemma_tangent_1_28();
    lemma_tangent_2_28();
    lemma_vertical_at(65, 98, 3, 12, 69);
    lemma_miller_at(
        g1p(65, 3),
        dq(12, 69),
        (g1p(18, 52), g1p(1, 2), g1p(68, 74), g1p(65, 98)),
        (28, 28),
        (4, 93),
        (88, 7),
        (26, 93),
        (-65, 12),
        ((0, 77, 0, 7), (10, 15, -71, -68), (77, 75, -2, 0), (90, 49, 61, 65)),
        ((43, 56, 56, 63), (51, 45, -41, 2), (84, 76, -39, -29)),
    );
    lemma_final_exp_13_28();
}

proof fn lemma_final_exp_14_28()
    ensures
        GT(gt_of(24, 100)).spow(600) == GT(gt_of(96, 29)),
{
    assert(GT::sone() == GT(gt_of(1, 0)));
    lemma_gt_mul_at((24, 100), (24, 100), (70, 52), (-94, -52));
    assert(GT::spow_steps(GT(gt_of(1, 0)), GT(gt_of(24, 100)), 600) == GT::spow_steps(GT(gt_of(1, 0)), GT(gt_of(70, 52)), 300));
    lemma_gt_mul_at((70, 52), (70, 52), (75, 31), (21, 45));
    assert(GT::spow_steps(GT(gt_of(1, 0)), GT(gt_of(70, 52)), 300) == GT::spow_steps(GT(gt_of(1, 0)), GT(gt_of(75, 31)), 150));
    lemma_gt_mul_at((75, 31), (75, 31), (18, 53), (46, 36));
    assert(GT::spow_steps(GT(gt_of(1, 0)), GT(gt_of(75, 31)), 150) == GT::spow_steps(GT(gt_of(1, 0)), GT(gt_of(18, 53)), 75));
    lemma_gt_mul_at((1, 0), (18, 53), (18, 53), (0, 0));
    lemma_gt_mul_at((18, 53), (18, 53), (40, 8), (-25, -9));
    assert(GT::spow_steps(GT(gt_of(1, 0)), GT(gt_of(18, 53)), 75) == GT::spow_steps(GT(gt_of(18, 53)), GT(gt_of(40, 8)), 37));
    lemma_gt_mul_at((18, 53), (40, 8), (94, 22), (2, 18));
    lemma_gt_mul_at((40, 8), (40, 8), (21, 71), (15, 5));
    assert(GT::spow_steps(GT(gt_of(18, 53)), GT(gt_of(40, 8)), 37) == GT::spow_steps(GT(gt_of(94, 22)), GT(gt_of(21, 71)), 18));
    lemma_gt_mul_at((21, 71), (21, 71), (46, 62), (-46, -21));
    assert(GT::spow_steps(GT(gt_of(94, 22)), GT(gt_of(21, 71)), 18) == GT::spow_steps(GT(gt_of(94, 22)), GT(gt_of(46, 62)), 9));
    lemma_gt_mul_at((94, 22), (46, 62), (31, 22), (29, 54));
    lemma_gt_mul_at((46, 62), (46, 62), (90, 42), (-18, 18));
    assert(GT::spow_steps(GT(gt_of(94, 22)), GT(gt_of(46, 62)), 9) == GT::spow_steps(GT(gt_of(31, 22)), GT(gt_of(90, 42)), 4));
    lemma_gt_mul_at((90, 42), (90, 42), (74, 39), (62, 57));
    assert(GT::spow_steps(GT(gt_of(31, 22)), GT(gt_of(90, 42)), 4) == GT::spow_steps(GT(gt_of(31, 22)), GT(gt_of(74, 39)), 2));
    lemma_gt_mul_at((74, 39), (74, 39), (16, 9), (39, 42));
    assert(GT::spow_steps(GT(gt_of(31, 22)), GT(gt_of(74, 39)), 2) == GT::spow_steps(GT(gt_of(31, 22)), GT(gt_of(16, 9)), 1));
    lemma_gt_mul_at((31, 22), (16, 9), (96, 29), (2, 4));
    lemma_gt_mul_at((16, 9), (16, 9), (74, 5), (1, 2));
    assert(GT::spow_steps(GT(gt_of(31, 22)), GT(gt_of(16, 9)), 1) == GT::spow_steps(GT(gt_of(96, 29)), GT(gt_of(74, 5)), 0));
}

/// The pairing of `14G` with the point `28 P` of the image of `H`.
proof fn lemma_pairing_14_28()
    ensures
        smiller_loop(g1p(26, 56), dq(12, 69)) is Some,
        spairing_at(g1p(26, 56), dq(12, 69)) == GT(gt_of(96, 29)),
{
    lemma_final_exponent();
    lemma_tangent_14_28();
    lemma_tangent_11_28();
    lemma_tangent_5_28();
    lemma_tangent_10_28();
    lemma_vertical_at(26, 45, 56, 12, 69);
    lemma_miller_at(
        g1p(26, 56),
        dq(12, 69),
        (g1p(32, 59), g1p(12, 32), g1p(91, 66), g1p(26, 45)),
        (23, 24),
        (51, 0),
        (88, 13),
        (0, 7),
        (-26, 12),
        ((54, 23, -1, 5), (27, 62, 27, 11), (16, 9, -31, -5), (79, 75, 12, 8)),
        ((10, 64, 6, 61), (57, 26, -5, -4), (24, 100, -18, -4)),
    );
    lemma_final_exp_14_28();
}

proof fn lemma_final_exp_15_28()
    ensures
        GT(gt_of(70, 94)).spow(600) == GT(gt_of(15, 55)),
{
    assert(GT::sone() == GT(gt_of(1, 0)));
    lemma_gt_mul_at((70, 94), (70, 94), (3, 82), (-39, 42));
    assert(GT::spow_steps(GT(gt_of(1, 0)), GT(gt_of(70, 94)), 600) == GT::spow_steps(GT(gt_of(1, 0)), GT(gt_of(3, 82)), 300));
    lemma_gt_mul_at((3, 82), (3, 82), (52, 30), (-67, -62));
    assert(GT::spow_steps(GT(gt_of(1, 0)), GT(gt_of(3, 82)), 300) == GT::spow_steps(GT(gt_of(1, 0)), GT(gt_of(52, 30)), 150));
    lemma_gt_mul_at((52, 30), (52, 30), (87, 99), (17, 21));
    assert(GT::spow_steps(GT(gt_of(1, 0)), GT(gt_of(52, 30)), 150) == GT::spow_steps(GT(gt_of(1, 0)), GT(gt_of(87, 99)), 75));
    lemma_gt_mul_at((1, 0), (87, 99), (87, 99), (0, 0));
    lemma_gt_mul_at((87, 99), (87, 99), (91, 52), (-23, 73));
    assert(GT::spow_steps(GT(gt_of(1, 0)), GT(gt_of(87, 99)), 75) == GT::spow_steps(GT(gt_of(87, 99)), GT(gt_of(91, 52)), 37));
    lemma_gt_mul_at((87, 99), (91, 52), (42, 2), (27, 83));
    lemma_gt_mul_at((91, 52), (91, 52), (22, 94), (55, 66));
    assert(GT::spow_steps(GT(gt_of(87, 99)), GT(gt_of(91, 52)), 37) == GT::spow_steps(GT(gt_of(42, 2)), GT(gt_of(22, 94)), 18));
    lemma_gt_mul_at((22, 94), (22, 94), (31, 47), (-83, -47));
    assert(GT::spow_steps(GT(gt_of(42, 2)), GT(gt_of(22, 94)), 18) == GT::spow_steps(GT(gt_of(42, 2)), GT(gt_of(31, 47)), 9));
    lemma_gt_mul_at((42, 2), (31, 47), (97, 23), (11, 19));
    lemma_gt_mul_at((31, 47), (31, 47), (65, 99), (-13, 6));
    assert(GT::spow_steps(GT(gt_of(42, 2)), GT(gt_of(31, 47)), 9) == GT::spow_steps(GT(gt_of(97, 23)), GT(gt_of(65, 99)), 4));
    lemma_gt_mul_at((65, 99), (65, 99), (80, 39), (-56, 30));
    assert(GT::spow_steps(GT(gt_of(97, 23)), GT(gt_of(65, 99)), 4) == GT::spow_steps(GT(gt_of(97, 23)), GT(gt_of(80, 39)), 2));
    lemma_gt_mul_at((80, 39), (80, 39), (31, 73), (48, 46));
    assert(GT::spow_steps(GT(gt_of(97, 23)), GT(gt_of(80, 39)), 2) == GT::spow_steps(GT(gt_of(97, 23)), GT(gt_of(31, 73)), 1));
    lemma_gt_mul_at((97, 23), (31, 73), (15, 55), (13, 60));
    lemma_gt_mul_at((31, 73), (31, 73), (76, 5), (-44, -8));
    assert(GT::spow_steps(GT(gt_of(97, 23)), GT(gt_of(31, 73)), 1) == GT::spow_steps(GT(gt_of(15, 55)), GT(gt_of(76, 5)), 0));
}

/// The pairing of `15G` with the point `28 P` of the image of `H`.
proof fn lemma_pairing_15_28()
    ensures
        smiller_loop(g1p(68, 27), dq(12, 69)) is Some,
        spairing_at(g1p(68, 27), dq(12, 69)) == GT(gt_of(15, 55)),
{
    lemma_final_exponent();
    lemma_tangent_15_28();
    lemma_tangent_13_28();
    lemma_tangent_9_28();
    lemma_tangent_1_28();
    lemma_vertical_at(68, 74, 27, 12, 69);
    lemma_miller_at(
        g1p(68, 27),
        dq(12, 69),
        (g1p(65, 3), g1p(18, 52), g1p(1, 2), g1p(68, 74)),
        (35, 28),
        (28, 28),
        (4, 93),
        (88, 7),
        (-68, 12),
        ((37, 65, 4, 11), (24, 26, -8, 10), (1, 67, -1, 5), (35, 89, -62, -59)),
        ((71, 26, -67, -17), (6, 78, 60, 25), (70, 94, -14, -62)),
    );
    lemma_final_exp_15_28();
}

proof fn lemma_final_exp_16_28()
    ensures
        GT(gt_of(81, 18)).spow(600) == GT(gt_of(78, 3)),
{
    assert(GT::sone() == GT(gt_of(1, 0)));
    lemma_gt_mul_at((81, 18), (81, 18), (76, 67), (61, 25));
    assert(GT::spow_steps(GT(gt_of(1, 0)), GT(gt_of(81, 18)), 600) == GT::spow_steps(GT(gt_of(1, 0)), GT(gt_of(76, 67)), 300));
    lemma_gt_mul_at((76, 67), (76, 67), (75, 39), (12, 56));
    assert(GT::spow_steps(GT(gt_of(1, 0)), GT(gt_of(76, 67)), 300) == GT::spow_steps(GT(gt_of(1, 0)), GT(gt_of(75, 39)), 150));
    lemma_gt_mul_at((75, 39), (75, 39), (64, 87), (40, 42));
    assert(GT::spow_steps(GT(gt_of(1, 0)), GT(gt_of(75, 39)), 150) == GT::spow_steps(GT(gt_of(1, 0)), GT(gt_of(64, 87)), 75));
    lemma_gt_mul_at((1, 0), (64, 87), (64, 87), (0, 0));
    lemma_gt_mul_at((64, 87), (64, 87), (62, 32), (-35, 35));
    assert(GT::spow_steps(GT(gt_of(1, 0)), GT(gt_of(64, 87)), 75) == GT::spow_steps(GT(gt_of(64, 87)), GT(gt_of(62, 32)), 37));
    lemma_gt_mul_at((64, 87), (62, 32), (73, 12), (11, 46));
    lemma_gt_mul_at((62, 32), (62, 32), (93, 15), (27, 29));
    assert(GT::spow_steps(GT(gt_of(64, 87)), GT(gt_of(62, 32)), 37) == GT::spow_steps(GT(gt_of(73, 12)), GT(gt_of(93, 15)), 18));
    lemma_gt_mul_at((93, 15), (93, 15), (41, 40), (83, 25));
    assert(GT::spow_steps(GT(gt_of(73, 12)), GT(gt_of(93, 15)), 18) == GT::spow_steps(GT(gt_of(73, 12)), GT(gt_of(41, 40)), 9));
    lemma_gt_mul_at((73, 12), (41, 40), (89, 3), (24, 29));
    lemma_gt_mul_at((41, 40), (41, 40), (81, 64), (0, 16));
    assert(GT::spow_steps(GT(gt_of(73, 12)), GT(gt_of(41, 40)), 9) == GT::spow_steps(GT(gt_of(89, 3)), GT(gt_of(81, 64)), 4));
    lemma_gt_mul_at((81, 64), (81, 64), (41, 10), (24, 62));
    assert(GT::spow_steps(GT(gt_of(89, 3)), GT(gt_of(81, 64)), 4) == GT::spow_steps(GT(gt_of(89, 3)), GT(gt_of(41, 10)), 2));
    lemma_gt_mul_at((41, 10), (41, 10), (66, 13), (15, 7));
    assert(GT::spow_steps(GT(gt_of(89, 3)), GT(gt_of(41, 10)), 2) == GT::spow_steps(GT(gt_of(89, 3)), GT(gt_of(66, 13)), 1));
    lemma_gt_mul_at((89, 3), (66, 13), (78, 3), (57, 13));
    lemma_gt_mul_at((66, 13), (66, 13), (46, 32), (41, 15));
    assert(GT::spow_steps(GT(gt_of(89, 3)), GT(gt_of(66, 13)), 1) == GT::spow_steps(GT(gt_of(78, 3)), GT(gt_of(46, 32)), 0));
}

/// The pairing of `16G` with the point `28 P` of the image of `H`.
proof fn lemma_pairing_16_28()
    ensures
        smiller_loop(g1p(1, 99), dq(12, 69)) is Some,
        spairing_at(g1p(1, 99), dq(12, 69)) == GT(gt_of(78, 3)),
{
    lemma_final_exponent();
    lemma_tangent_16_28();
    lemma_tangent_15_28();
    lemma_tangent_13_28();
    lemma_tangent_9_28();
    lemma_vertical_at(1, 2, 99, 12, 69);
    lemma_miller_at(
        g1p(1, 99),
        dq(12, 69),
        (g1p(68, 27), g1p(65, 3), g1p(18, 52), g1p(1, 2)),
        (99, 16),
        (35, 28),
        (28, 28),
        (4, 93),
        (-1, 12),
        ((51, 84, 94, 28), (39, 97, -6, 19), (91, 76, -79, -19), (16, 23, 4, 25)),
        ((30, 5, -3, 2), (59, 22, -4, 23), (81, 18, -4, 4)),
    );
    lemma_final_exp_16_28();
}

proof fn lemma_final_exp_1_29()
    ensures
        GT(gt_of(26, 96)).spow(600) == GT(gt_of(15, 55)),
{
    assert(GT::sone() == GT(gt_of(1, 0)));
    lemma_gt_mul_at((26, 96), (26, 96), (45, 18), (-85, -42));
    assert(GT::spow_steps(GT(gt_of(1, 0)), GT(gt_of(26, 96)), 600) == GT::spow_steps(GT(gt_of(1, 0)), GT(gt_of(45, 18)), 300));
    lemma_gt_mul_at((45, 18), (45, 18), (85, 84), (16, 12));
    assert(GT::spow_steps(GT(gt_of(1, 0)), GT(gt_of(45, 18)), 300) == GT::spow_steps(GT(gt_of(1, 0)), GT(gt_of(85, 84)), 150));
    lemma_gt_mul_at((85, 84), (85, 84), (68, 53), (1, 71));
    assert(GT::spow_steps(GT(gt_of(1, 0)), GT(gt_of(85, 84)), 150) == GT::spow_steps(GT(gt_of(1, 0)), GT(gt_of(68, 53)), 75));
    lemma_gt_mul_at((1, 0), (68, 53), (68, 53), (0, 0));
    lemma_gt_mul_at((68, 53), (68, 53), (98, 56), (17, 43));
    assert(GT::spow_steps(GT(gt_of(1, 0)), GT(gt_of(68, 53)), 75) == GT::spow_steps(GT(gt_of(68, 53)), GT(gt_of(98, 56)), 37));
    lemma_gt_mul_at((68, 53), (98, 56), (60, 75), (36, 59));
    lemma_gt_mul_at((98, 56), (98, 56), (4, 63), (64, 77));
    assert(GT::spow_steps(GT(gt_of(68, 53)), GT(gt_of(98, 56)), 37) == GT::spow_steps(GT(gt_of(60, 75)), GT(gt_of(4, 63)), 18));
    lemma_gt_mul_at((4, 63), (4, 63), (87, 70), (-40, -35));
    assert(GT::spow_steps(GT(gt_of(60, 75)), GT(gt_of(4, 63)), 18) == GT::spow_steps(GT(gt_of(60, 75)), GT(gt_of(87, 70)), 9));
    lemma_gt_mul_at((60, 75), (87, 70), (71, 21), (-1, 54));
    lemma_gt_mul_at((87, 70), (87, 70), (43, 8), (26, 72));
    assert(GT::spow_steps(GT(gt_of(60, 75)), GT(gt_of(87, 70)), 9) == GT::spow_steps(GT(gt_of(71, 21)), GT(gt_of(43, 8)), 4));
    lemma_gt_mul_at((43, 8), (43, 8), (68, 18), (17, 6));
    assert(GT::spow_steps(GT(gt_of(71, 21)), GT(gt_of(43, 8)), 4) == GT::spow_steps(GT(gt_of(71, 21)), GT(gt_of(68, 18)), 2));
    lemma_gt_mul_at((68, 18), (68, 18), (58, 3), (42, 21));
    assert(GT::spow_steps(GT(gt_of(71, 21)), GT(gt_of(68, 18)), 2) == GT::spow_steps(GT(gt_of(71, 21)), GT(gt_of(58, 3)), 1));
    lemma_gt_mul_at((71, 21), (58, 3), (15, 55), (40, 13));
    lemma_gt_mul_at((58, 3), (58, 3), (22, 36), (33, 3));
    assert(GT::spow_steps(GT(gt_of(71, 21)), GT(gt_of(58, 3)), 1) == GT::spow_steps(GT(gt_of(15, 55)), GT(gt_of(22, 36)), 0));
}

/// The pairing of `1G` with the point `29 P` of the image of `H`.
proof fn lemma_pairing_1_29()
    ensures
        smiller_loop(g1p(1, 2), dq(96, 79)) is Some,
        spairing_at(g1p(1, 2), dq(96, 79)) == GT(gt_of(15, 55)),
{
    lemma_final_exponent();
    lemma_tangent_1_29();
    lemma_tangent_2_29();
    lemma_tangent_4_29();
    lemma_tangent_8_29();
    lemma_vertical_at(1, 99, 2, 96, 79);
    lemma_miller_at(
        g1p(1, 2),
        dq(96, 79),
        (g1p(68, 74), g1p(65, 98), g1p(18, 49), g1p(1, 99)),
        (5, 28),
        (76, 45),
        (89, 13),
        (2, 52),
        (-1, 96),
        ((49, 1, -8, -5), (43, 14, 36, 22), (37, 99, 16, 9), (87, 26, 19, 79)),
        ((25, 10, 68, 38), (35, 93, -5, 7), (26, 96, -89, -57)),
    );
    lemma_final_exp_1_29();
}

proof fn lemma_final_exp_2_29()
    ensures
        GT(gt_of(27, 11)).spow(600) == GT(gt_of(28, 39)),
{
    assert(GT::sone() == GT(gt_of(1, 0)));
    lemma_gt_mul_at((27, 11), (27, 11), (2, 69), (6, 4));
    assert(GT::spow_steps(GT(gt_of(1, 0)), GT(gt_of(27, 11)), 600) == GT::spow_steps(GT(gt_of(1, 0)), GT(gt_of(2, 69)), 300));
    lemma_gt_mul_at((2, 69), (2, 69), (91, 60), (-48, -45));
    assert(GT::spow_steps(GT(gt_of(1, 0)), GT(gt_of(2, 69)), 300) == GT::spow_steps(GT(gt_of(1, 0)), GT(gt_of(91, 60)), 150));
    lemma_gt_mul_at((91, 60), (91, 60), (35, 48), (46, 72));
    assert(GT::spow_steps(GT(gt_of(1, 0)), GT(gt_of(91, 60)), 150) == GT::spow_steps(GT(gt_of(1, 0)), GT(gt_of(35, 48)), 75));
    lemma_gt_mul_at((1, 0), (35, 48), (35, 48), (0, 0));
    lemma_gt_mul_at((35, 48), (35, 48), (32, 46), (-11, 10));
    assert(GT::spow_steps(GT(gt_of(1, 0)), GT(gt_of(35, 48)), 75) == GT::spow_steps(GT(gt_of(35, 48)), GT(gt_of(32, 46)), 37));
    lemma_gt_mul_at((35, 48), (32, 46), (23, 29), (-11, 9));
    lemma_gt_mul_at((32, 46), (32, 46), (19, 20), (-11, 8));
    assert(GT::spow_steps(GT(gt_of(35, 48)), GT(gt_of(32, 46)), 37) == GT::spow_steps(GT(gt_of(23, 29)), GT(gt_of(19, 20)), 18));
    lemma_gt_mul_at((19, 20), (19, 20), (62, 57), (-1, 3));
    assert(GT::spow_steps(GT(gt_of(23, 29)), GT(gt_of(19, 20)), 18) == GT::spow_steps(GT(gt_of(23, 29)), GT(gt_of(62, 57)), 9));
    lemma_gt_mul_at((23, 29), (62, 57), (76, 42), (-3, 14));
    lemma_gt_mul_at((62, 57), (62, 57), (90, 82), (5, 37));
    assert(GT::spow_steps(GT(gt_of(23, 29)), GT(gt_of(62, 57)), 9) == GT::spow_steps(GT(gt_of(76, 42)), GT(gt_of(90, 82)), 4));
    lemma_gt_mul_at((90, 82), (90, 82), (63, 57), (13, 79));
    assert(GT::spow_steps(GT(gt_of(76, 42)), GT(gt_of(90, 82)), 4) == GT::spow_steps(GT(gt_of(76, 42)), GT(gt_of(63, 57)), 2));
    lemma_gt_mul_at((63, 57), (63, 57), (13, 95), (7, 38));
    assert(GT::spow_steps(GT(gt_of(76, 42)), GT(gt_of(63, 57)), 2) == GT::spow_steps(GT(gt_of(76, 42)), GT(gt_of(13, 95)), 1));
    lemma_gt_mul_at((76, 42), (13, 95), (28, 39), (-30, 37));
    lemma_gt_mul_at((13, 95), (13, 95), (32, 10), (-88, -65));
    assert(GT::spow_steps(GT(gt_of(76, 42)), GT(gt_of(13, 95)), 1) == GT::spow_steps(GT(gt_of(28, 39)), GT(gt_of(32, 10)), 0));
}

/// The pairing of `2G` with the point `29 P` of the image of `H`.
proof fn lemma_pairing_2_29()
    ensures
        smiller_loop(g1p(68, 74), dq(96, 79)) is Some,
        spairing_at(g1p(68, 74), dq(96, 79)) == GT(gt_of(28, 39)),
{
    lemma_final_exponent();
    lemma_tangent_2_29();
    lemma_tangent_4_29();
    lemma_tangent_8_29();
    lemma_tangent_16_29();
    lemma_vertical_at(68, 27, 74, 96, 79);
    lemma_miller_at(
        g1p(68, 74),
        dq(96, 79),
        (g1p(65, 98), g1p(18, 49), g1p(1, 99), g1p(68, 27)),
        (76, 45),
        (89, 13),
        (2, 52),
        (62, 26),
        (-68, 96),
        ((14, 68, 37, 47), (59, 98, 3, 52), (38, 41, -61, 19), (65, 27, -21, -1)),
        ((62, 54, 34, 27), (16, 21, 24, 35), (27, 11, -31, -19)),
    );
    lemma_final_exp_2_29();
}

proof fn lemma_final_exp_3_29()
    ensures
        GT(gt_of(55, 24)).spow(600) == GT(gt_of(93, 81)),
{
    assert(GT::sone() == GT(gt_of(1, 0)));
    lemma_gt_mul_at((55, 24), (55, 24), (25, 44), (24, 20));
    assert(GT::spow_steps(GT(gt_of(1, 0)), GT(gt_of(55, 24)), 600) == GT::spow_steps(GT(gt_of(1, 0)), GT(gt_of(25, 44)), 300));
    lemma_gt_mul_at((25, 44), (25, 44), (2, 62), (-13, 2));
    assert(GT::spow_steps(GT(gt_of(1, 0)), GT(gt_of(25, 44)), 300) == GT::spow_steps(GT(gt_of(1, 0)), GT(gt_of(2, 62)), 150));
    lemma_gt_mul_at((2, 62), (2, 62), (99, 40), (-39, -36));
    assert(GT::spow_steps(GT(gt_of(1, 0)), GT(gt_of(2, 62)), 150) == GT::spow_steps(GT(gt_of(1, 0)), GT(gt_of(99, 40)), 75));
    lemma_gt_mul_at((1, 0), (99, 40), (99, 40), (0, 0));
    lemma_gt_mul_at((99, 40), (99, 40), (20, 58), (81, 62));
    assert(GT::spow_steps(GT(gt_of(1, 0)), GT(gt_of(99, 40)), 75) == GT::spow_steps(GT(gt_of(99, 40)), GT(gt_of(20, 58)), 37));
    lemma_gt_mul_at((99, 40), (20, 58), (64, 81), (-4, 41));
    lemma_gt_mul_at((20, 58), (20, 58), (66, 67), (-30, -11));
    assert(GT::spow_steps(GT(gt_of(99, 40)), GT(gt_of(20, 58)), 37) == GT::spow_steps(GT(gt_of(64, 81)), GT(gt_of(66, 67)), 18));
    lemma_gt_mul_at((66, 67), (66, 67), (69, 12), (-2, 43));
    assert(GT::spow_steps(GT(gt_of(64, 81)), GT(gt_of(66, 67)), 18) == GT::spow_steps(GT(gt_of(64, 81)), GT(gt_of(69, 12)), 9));
    lemma_gt_mul_at((64, 81), (69, 12), (10, 32), (34, 53));
    lemma_gt_mul_at((69, 12), (69, 12), (72, 98), (45, 14));
    assert(GT::spow_steps(GT(gt_of(64, 81)), GT(gt_of(69, 12)), 9) == GT::spow_steps(GT(gt_of(10, 32)), GT(gt_of(72, 98)), 4));
    lemma_gt_mul_at((72, 98), (72, 98), (24, 64), (-44, 44));
    assert(GT::spow_steps(GT(gt_of(10, 32)), GT(gt_of(72, 98)), 4) == GT::spow_steps(GT(gt_of(10, 32)), GT(gt_of(24, 64)), 2));
    lemma_gt_mul_at((24, 64), (24, 64), (15, 87), (-35, -11));
    assert(GT::spow_steps(GT(gt_of(10, 32)), GT(gt_of(24, 64)), 2) == GT::spow_steps(GT(gt_of(10, 32)), GT(gt_of(15, 87)), 1));
    lemma_gt_mul_at((10, 32), (15, 87), (93, 81), (-27, -15));
    lemma_gt_mul_at((15, 87), (15, 87), (29, 91), (-73, -50));
    assert(GT::spow_steps(GT(gt_of(10, 32)), GT(gt_of(15, 87)), 1) == GT::spow_steps(GT(gt_of(93, 81)), GT(gt_of(29, 91)), 0));
}

/// The pairing of `3G` with the point `29 P` of the image of `H`.
proof fn lemma_pairing_3_29()
    ensures
        smiller_loop(g1p(26, 45), dq(96, 79)) is Some,
        spairing_at(g1p(26, 45), dq(96, 79)) == GT(gt_of(93, 81)),
{
    lemma_final_exponent();
    lemma_tangent_3_29();
    lemma_tangent_6_29();
    lemma_tangent_12_29();
    lemma_tangent_7_29();
    lemma_vertical_at(26, 56, 45, 96, 79);
    lemma_miller_at(
        g1p(26, 45),
        dq(96, 79),
        (g1p(32, 42), g1p(12, 69), g1p(91, 35), g1p(26, 56)),
        (92, 96),
        (72, 42),
        (36, 35),
        (19, 24),
        (-26, 96),
        ((56, 65, -8, 83), (90, 60, 12, 42), (56, 29, 44, 71), (92, 70, 9, 19)),
        ((29, 1, 35, 79), (22, 85, 5, 6), (55, 24, -87, -82)),
    );
    lemma_final_exp_3_29();
}

proof fn lemma_final_exp_4_29()
    ensures
        GT(gt_of(5, 67)).spow(600) == GT(gt_of(71, 57)),
{
    assert(GT::sone() == GT(gt_of(1, 0)));
    lemma_gt_mul_at((5, 67), (5, 67), (81, 19), (-45, -38));
    assert(GT::spow_steps(GT(gt_of(1, 0)), GT(gt_of(5, 67)), 600) == GT::spow_steps(GT(gt_of(1, 0)), GT(gt_of(81, 19)), 300));
    lemma_gt_mul_at((81, 19), (81, 19), (39, 91), (61, 26));
    assert(GT::spow_steps(GT(gt_of(1, 0)), GT(gt_of(81, 19)), 300) == GT::spow_steps(GT(gt_of(1, 0)), GT(gt_of(39, 91)), 150));
    lemma_gt_mul_at((39, 91), (39, 91), (7, 29), (-67, -12));
    assert(GT::spow_steps(GT(gt_of(1, 0)), GT(gt_of(39, 91)), 150) == GT::spow_steps(GT(gt_of(1, 0)), GT(gt_of(7, 29)), 75));
    lemma_gt_mul_at((1, 0), (7, 29), (7, 29), (0, 0));
    lemma_gt_mul_at((7, 29), (7, 29), (16, 70), (-8, -5));
    assert(GT::spow_steps(GT(gt_of(1, 0)), GT(gt_of(7, 29)), 75) == GT::spow_steps(GT(gt_of(7, 29)), GT(gt_of(16, 70)), 37));
    lemma_gt_mul_at((7, 29), (16, 70), (1, 35), (-19, -11));
    lemma_gt_mul_at((16, 70), (16, 70), (2, 67), (-46, -27));
    assert(GT::spow_steps(GT(gt_of(7, 29)), GT(gt_of(16, 70)), 37) == GT::spow_steps(GT(gt_of(1, 35)), GT(gt_of(2, 67)), 18));
    lemma_gt_mul_at((2, 67), (2, 67), (60, 21), (-45, -42));
    assert(GT::spow_steps(GT(gt_of(1, 35)), GT(gt_of(2, 67)), 18) == GT::spow_steps(GT(gt_of(1, 35)), GT(gt_of(60, 21)), 9));
    lemma_gt_mul_at((1, 35), (60, 21), (32, 73), (-7, 13));
    lemma_gt_mul_at((60, 21), (60, 21), (28, 59), (31, 20));
    assert(GT::spow_steps(GT(gt_of(1, 35)), GT(gt_of(60, 21)), 9) == GT::spow_steps(GT(gt_of(32, 73)), GT(gt_of(28, 59)), 4));
    lemma_gt_mul_at((28, 59), (28, 59), (30, 25), (-27, -2));
    assert(GT::spow_steps(GT(gt_of(32, 73)), GT(gt_of(28, 59)), 4) == GT::spow_steps(GT(gt_of(32, 73)), GT(gt_of(30, 25)), 2));
    lemma_gt_mul_at((30, 25), (30, 25), (73, 67), (2, 8));
    assert(GT::spow_steps(GT(gt_of(32, 73)), GT(gt_of(30, 25)), 2) == GT::spow_steps(GT(gt_of(32, 73)), GT(gt_of(73, 67)), 1));
    lemma_gt_mul_at((32, 73), (73, 67), (71, 57), (-26, 25));
    lemma_gt_mul_at((73, 67), (73, 67), (32, 41), (8, 52));
    assert(GT::spow_steps(GT(gt_of(32, 73)), GT(gt_of(73, 67)), 1) == GT::spow_steps(GT(gt_of(71, 57)), GT(gt_of(32, 41)), 0));
}

/// The pairing of `4G` with the point `29 P` of the image of `H`.
proof fn lemma_pairing_4_29()
    ensures
        smiller_loop(g1p(65, 98), dq(96, 79)) is Some,
        spairing_at(g1p(65, 98), dq(96, 79)) == GT(gt_of(71, 57)),
{
    lemma_final_exponent();
    lemma_tangent_4_29();
    lemma_tangent_8_29();
    lemma_tangent_16_29();
    lemma_tangent_15_29();
    lemma_vertical_at(65, 3, 98, 96, 79);
    lemma_miller_at(
        g1p(65, 98),
        dq(96, 79),
        (g1p(18, 49), g1p(1, 99), g1p(68, 27), g1p(65, 3)),
        (89, 13),
        (2, 52),
        (62, 26),
        (24, 14),
        (-65, 96),
        ((76, 24, 76, 21), (15, 25, -11, 27), (4, 24, -4, 1), (28, 59, -4, 9)),
        ((30, 25, -27, -2), (67, 64, 3, 6), (5, 67, -104, -39)),
    );
    lemma_final_exp_4_29();
}

proof fn lemma_final_exp_5_29()
    ensures
        GT(gt_of(59, 98)).spow(600) == GT(gt_of(51, 9)),
{
    assert(GT::sone() == GT(gt_of(1, 0)));
    lemma_gt_mul_at((59, 98), (59, 98), (38, 41), (-61, 19));
    assert(GT::spow_steps(GT(gt_of(1, 0)), GT(gt_of(59, 98)), 600) == GT::spow_steps(GT(gt_of(1, 0)), GT(gt_of(38, 41)), 300));
    lemma_gt_mul_at((38, 41), (38, 41), (66, 21), (-3, 14));
    assert(GT::spow_steps(GT(gt_of(1, 0)), GT(gt_of(38, 41)), 300) == GT::spow_steps(GT(gt_of(1, 0)), GT(gt_of(66, 21)), 150));
    lemma_gt_mul_at((66, 21), (66, 21), (77, 8), (38, 23));
    assert(GT::spow_steps(GT(gt_of(1, 0)), GT(gt_of(66, 21)), 150) == GT::spow_steps(GT(gt_of(1, 0)), GT(gt_of(77, 8)), 75));
    lemma_gt_mul_at((1, 0), (77, 8), (77, 8), (0, 0));
    lemma_gt_mul_at((77, 8), (77, 8), (7, 57), (58, 11));
    assert(GT::spow_steps(GT(gt_of(1, 0)), GT(gt_of(77, 8)), 75) == GT::spow_steps(GT(gt_of(77, 8)), GT(gt_of(7, 57)), 37));
    lemma_gt_mul_at((77, 8), (7, 57), (83, 50), (0, 39));
    lemma_gt_mul_at((7, 57), (7, 57), (32, 74), (-32, -25));
    assert(GT::spow_steps(GT(gt_of(77, 8)), GT(gt_of(7, 57)), 37) == GT::spow_steps(GT(gt_of(83, 50)), GT(gt_of(32, 74)), 18));
    lemma_gt_mul_at((32, 74), (32, 74), (93, 68), (-45, -8));
    assert(GT::spow_steps(GT(gt_of(83, 50)), GT(gt_of(32, 74)), 18) == GT::spow_steps(GT(gt_of(83, 50)), GT(gt_of(93, 68)), 9));
    lemma_gt_mul_at((83, 50), (93, 68), (77, 26), (42, 68));
    lemma_gt_mul_at((93, 68), (93, 68), (86, 45), (39, 79));
    assert(GT::spow_steps(GT(gt_of(83, 50)), GT(gt_of(93, 68)), 9) == GT::spow_steps(GT(gt_of(77, 26)), GT(gt_of(86, 45)), 4));
    lemma_gt_mul_at((86, 45), (86, 45), (18, 59), (53, 56));
    assert(GT::spow_steps(GT(gt_of(77, 26)), GT(gt_of(86, 45)), 4) == GT::spow_steps(GT(gt_of(77, 26)), GT(gt_of(18, 59)), 2));
    lemma_gt_mul_at((18, 59), (18, 59), (75, 57), (-32, -14));
    assert(GT::spow_steps(GT(gt_of(77, 26)), GT(gt_of(18, 59)), 2) == GT::spow_steps(GT(gt_of(77, 26)), GT(gt_of(75, 57)), 1));
    lemma_gt_mul_at((77, 26), (75, 57), (51, 9), (42, 48));
    lemma_gt_mul_at((75, 57), (75, 57), (53, 49), (23, 52));
    assert(GT::spow_steps(GT(gt_of(77, 26)), GT(gt_of(75, 57)), 1) == GT::spow_steps(GT(gt_of(51, 9)), GT(gt_of(53, 49)), 0));
}

/// The pairing of `5G` with the point `29 P` of the image of `H`.
proof fn lemma_pairing_5_29()
    ensures
        smiller_loop(g1p(12, 32), dq(96, 79)) is Some,
        spairing_at(g1p(12, 32), dq(96, 79)) == GT(gt_of(51, 9)),
{
    lemma_final_exponent();
    lemma_tangent_5_29();
    lemma_tangent_10_29();
    lemma_tangent_3_29();
    lemma_tangent_6_29();
    lemma_vertical_at(12, 69, 32, 96, 79);
    lemma_miller_at(
        g1p(12, 32),
        dq(96, 79),
        (g1p(91, 66), g1p(26, 45), g1p(32, 42), g1p(12, 69)),
        (67, 33),
        (96, 40),
        (92, 96),
        (72, 42),
        (-12, 96),
        ((67, 0, 33, 33), (69, 54, 63, 26), (27, 92, 18, 44), (15, 2, -63, 22)),
        ((19, 56, 2, 0), (26, 54, -10, 24), (59, 98, -55, -34)),
    );
    lemma_final_exp_5_29();
}

proof fn lemma_final_exp_6_29()
    ensures
        GT(gt_of(13, 47)).spow(600) == GT(gt_of(68, 21)),
{
    assert(GT::sone() == GT(gt_of(1, 0)));
    lemma_gt_mul_at((13, 47), (13, 47), (81, 23), (-21, -10));
    assert(GT::spow_steps(GT(gt_of(1, 0)), GT(gt_of(13, 47)), 600) == GT::spow_steps(GT(gt_of(1, 0)), GT(gt_of(81, 23)), 300));
    lemma_gt_mul_at((81, 23), (81, 23), (73, 66), (59, 31));
    assert(GT::spow_steps(GT(gt_of(1, 0)), GT(gt_of(81, 23)), 300) == GT::spow_steps(GT(gt_of(1, 0)), GT(gt_of(73, 66)), 150));
    lemma_gt_mul_at((73, 66), (73, 66), (64, 28), (9, 52));
    assert(GT::spow_steps(GT(gt_of(1, 0)), GT(gt_of(73, 66)), 150) == GT::spow_steps(GT(gt_of(1, 0)), GT(gt_of(64, 28)), 75));
    lemma_gt_mul_at((1, 0), (64, 28), (64, 28), (0, 0));
    lemma_gt_mul_at((64, 28), (64, 28), (80, 73), (32, 27));
    assert(GT::spow_steps(GT(gt_of(1, 0)), GT(gt_of(64, 28)), 75) == GT::spow_steps(GT(gt_of(64, 28)), GT(gt_of(80, 73)), 37));
    lemma_gt_mul_at((64, 28), (80, 73), (46, 20), (30, 48));
    lemma_gt_mul_at((80, 73), (80, 73), (61, 89), (10, 62));
    assert(GT::spow_steps(GT(gt_of(64, 28)), GT(gt_of(80, 73)), 37) == GT::spow_steps(GT(gt_of(46, 20)), GT(gt_of(61, 89)), 18));
    lemma_gt_mul_at((61, 89), (61, 89), (42, 8), (-42, 29));
    assert(GT::spow_steps(GT(gt_of(46, 20)), GT(gt_of(61, 89)), 18) == GT::spow_steps(GT(gt_of(46, 20)), GT(gt_of(42, 8)), 9));
    lemma_gt_mul_at((46, 20), (42, 8), (55, 38), (17, 10));
    lemma_gt_mul_at((42, 8), (42, 8), (84, 2), (16, 6));
    assert(GT::spow_steps(GT(gt_of(46, 20)), GT(gt_of(42, 8)), 9) == GT::spow_steps(GT(gt_of(55, 38)), GT(gt_of(84, 2)), 4));
    lemma_gt_mul_at((84, 2), (84, 2), (83, 29), (69, 3));
    assert(GT::spow_steps(GT(gt_of(55, 38)), GT(gt_of(84, 2)), 4) == GT::spow_steps(GT(gt_of(55, 38)), GT(gt_of(83, 29)), 2));
    lemma_gt_mul_at((83, 29), (83, 29), (89, 34), (59, 39));
    assert(GT::spow_steps(GT(gt_of(55, 38)), GT(gt_of(83, 29)), 2) == GT::spow_steps(GT(gt_of(55, 38)), GT(gt_of(89, 34)), 1));
    lemma_gt_mul_at((55, 38), (89, 34), (68, 21), (35, 39));
    lemma_gt_mul_at((89, 34), (89, 34), (99, 48), (66, 48));
    assert(GT::spow_steps(GT(gt_of(55, 38)), GT(gt_of(89, 34)), 1) == GT::spow_steps(GT(gt_of(68, 21)), GT(gt_of(99, 48)), 0));
}

/// The pairing of `6G` with the point `29 P` of the image of `H`.
proof fn lemma_pairing_6_29()
    ensures
        smiller_loop(g1p(32, 42), dq(96, 79)) is Some,
        spairing_at(g1p(32, 42), dq(96, 79)) == GT(gt_of(68, 21)),
{
    lemma_final_exponent();
    lemma_tangent_6_29();
    lemma_tangent_12_29();
    lemma_tangent_7_29();
    lemma_tangent_14_29();
    lemma_vertical_at(32, 59, 42, 96, 79);
    lemma_miller_at(
        g1p(32, 42),
        dq(96, 79),
        (g1p(12, 69), g1p(91, 35), g1p(26, 56), g1p(32, 59)),
        (72, 42),
        (36, 35),
        (19, 24),
        (91, 16),
        (-32, 96),
        ((87, 42, 33, 42), (46, 57, 16, 30), (79, 76, -12, 19), (81, 1, -4, 15)),
        ((96, 60, 64, 1), (100, 77, 76, 59), (13, 47, -105, -3)),
    );
    lemma_final_exp_6_29();
}

proof fn lemma_final_exp_7_29()
    ensures
        GT(gt_of(51, 91)).spow(600) == GT(gt_of(67, 72)),
{
    assert(GT::sone() == GT(gt_of(1, 0)));
    lemma_gt_mul_at((51, 91), (51, 91), (77, 92), (-57, 9));
    assert(GT::spow_steps(GT(gt_of(1, 0)), GT(gt_of(51, 91)), 600) == GT::spow_steps(GT(gt_of(1, 0)), GT(gt_of(77, 92)), 300));
    lemma_gt_mul_at((77, 92), (77, 92), (91, 48), (-26, 56));
    assert(GT::spow_steps(GT(gt_of(1, 0)), GT(gt_of(77, 92)), 300) == GT::spow_steps(GT(gt_of(1, 0)), GT(gt_of(91, 48)), 150));
    lemma_gt_mul_at((91, 48), (91, 48), (18, 69), (59, 63));
    assert(GT::spow_steps(GT(gt_of(1, 0)), GT(gt_of(91, 48)), 150) == GT::spow_steps(GT(gt_of(1, 0)), GT(gt_of(18, 69)), 75));
    lemma_gt_mul_at((1, 0), (18, 69), (18, 69), (0, 0));
    lemma_gt_mul_at((18, 69), (18, 69), (7, 46), (-44, -23));
    assert(GT::spow_steps(GT(gt_of(1, 0)), GT(gt_of(18, 69)), 75) == GT::spow_steps(GT(gt_of(18, 69)), GT(gt_of(7, 46)), 37));
    lemma_gt_mul_at((18, 69), (7, 46), (83, 56), (-31, -19));
    lemma_gt_mul_at((7, 46), (7, 46), (54, 43), (-21, -15));
    assert(GT::spow_steps(GT(gt_of(18, 69)), GT(gt_of(7, 46)), 37) == GT::spow_steps(GT(gt_of(83, 56)), GT(gt_of(54, 43)), 18));
    lemma_gt_mul_at((54, 43), (54, 43), (57, 68), (10, 27));
    assert(GT::spow_steps(GT(gt_of(83, 56)), GT(gt_of(54, 43)), 18) == GT::spow_steps(GT(gt_of(83, 56)), GT(gt_of(57, 68)), 9));
    lemma_gt_mul_at((83, 56), (57, 68), (14, 79), (9, 49));
    lemma_gt_mul_at((57, 68), (57, 68), (39, 98), (-14, 30));
    assert(GT::spow_steps(GT(gt_of(83, 56)), GT(gt_of(57, 68)), 9) == GT::spow_steps(GT(gt_of(14, 79)), GT(gt_of(39, 98)), 4));
    lemma_gt_mul_at((39, 98), (39, 98), (98, 60), (-81, -20));
    assert(GT::spow_steps(GT(gt_of(14, 79)), GT(gt_of(39, 98)), 4) == GT::spow_steps(GT(gt_of(14, 79)), GT(gt_of(98, 60)), 2));
    lemma_gt_mul_at((98, 60), (98, 60), (45, 80), (59, 80));
    assert(GT::spow_steps(GT(gt_of(14, 79)), GT(gt_of(98, 60)), 2) == GT::spow_steps(GT(gt_of(14, 79)), GT(gt_of(45, 80)), 1));
    lemma_gt_mul_at((14, 79), (45, 80), (67, 72), (-57, -17));
    lemma_gt_mul_at((45, 80), (45, 80), (69, 93), (-44, 7));
    assert(GT::spow_steps(GT(gt_of(14, 79)), GT(gt_of(45, 80)), 1) == GT::spow_steps(GT(gt_of(67, 72)), GT(gt_of(69, 93)), 0));
}

/// The pairing of `7G` with the point `29 P` of the image of `H`.
proof fn lemma_pairing_7_29()
    ensures
        smiller_loop(g1p(91, 35), dq(96, 79)) is Some,
        spairing_at(g1p(91, 35), dq(96, 79)) == GT(gt_of(67, 72)),
{
    lemma_final_exponent();
    lemma_tangent_7_29();
    lemma_tangent_14_29();
    lemma_tangent_11_29();
    lemma_tangent_5_29();
    lemma_vertical_at(91, 66, 35, 96, 79);
    lemma_miller_at(
        g1p(91, 35),
        dq(96, 79),
        (g1p(26, 56), g1p(32, 59), g1p(12, 32), g1p(91, 66)),
        (19, 24),
        (91, 16),
        (17, 82),
        (67, 33),
        (-91, 96),
        ((88, 33, -3, 3), (6, 45, 74, 38), (31, 30, -20, -15), (87, 87, -20, 5)),
        ((0, 95, 0, 74), (97, 99, -32, 31), (51, 91, -182, -92)),
    );
    lemma_final_exp_7_29();
}

proof fn lemma_final_exp_8_29()
    ensures
        GT(gt_of(34, 6)).spow(600) == GT(gt_of(75, 98)),
{
    assert(GT::sone() == GT(gt_of(1, 0)));
    lemma_gt_mul_at((34, 6), (34, 6), (9, 69), (11, 3));
    assert(GT::spow_steps(GT(gt_of(1, 0)), GT(gt_of(34, 6)), 600) == GT::spow_steps(GT(gt_of(1, 0)), GT(gt_of(9, 69)), 300));
    lemma_gt_mul_at((9, 69), (9, 69), (67, 16), (-47, -35));
    assert(GT::spow_steps(GT(gt_of(1, 0)), GT(gt_of(9, 69)), 300) == GT::spow_steps(GT(gt_of(1, 0)), GT(gt_of(67, 16)), 150));
    lemma_gt_mul_at((67, 16), (67, 16), (92, 70), (41, 18));
    assert(GT::spow_steps(GT(gt_of(1, 0)), GT(gt_of(67, 16)), 150) == GT::spow_steps(GT(gt_of(1, 0)), GT(gt_of(92, 70)), 75));
    lemma_gt_mul_at((1, 0), (92, 70), (92, 70), (0, 0));
    lemma_gt_mul_at((92, 70), (92, 70), (29, 1), (35, 79));
    assert(GT::spow_steps(GT(gt_of(1, 0)), GT(gt_of(92, 70)), 75) == GT::spow_steps(GT(gt_of(92, 70)), GT(gt_of(29, 1)), 37));
    lemma_gt_mul_at((92, 70), (29, 1), (73, 32), (25, 20));
    lemma_gt_mul_at((29, 1), (29, 1), (32, 57), (8, 0));
    assert(GT::spow_steps(GT(gt_of(92, 70)), GT(gt_of(29, 1)), 37) == GT::spow_steps(GT(gt_of(73, 32)), GT(gt_of(32, 57)), 18));
    lemma_gt_mul_at((32, 57), (32, 57), (98, 96), (-23, 3));
    assert(GT::spow_steps(GT(gt_of(73, 32)), GT(gt_of(32, 57)), 18) == GT::spow_steps(GT(gt_of(73, 32)), GT(gt_of(98, 96)), 9));
    lemma_gt_mul_at((73, 32), (98, 96), (42, 2), (40, 70));
    lemma_gt_mul_at((98, 96), (98, 96), (85, 5), (3, 95));
    assert(GT::spow_steps(GT(gt_of(73, 32)), GT(gt_of(98, 96)), 9) == GT::spow_steps(GT(gt_of(42, 2)), GT(gt_of(85, 5)), 4));
    lemma_gt_mul_at((85, 5), (85, 5), (29, 17), (71, 8));
    assert(GT::spow_steps(GT(gt_of(42, 2)), GT(gt_of(85, 5)), 4) == GT::spow_steps(GT(gt_of(42, 2)), GT(gt_of(29, 17)), 2));
    lemma_gt_mul_at((29, 17), (29, 17), (47, 91), (5, 6));
    assert(GT::spow_steps(GT(gt_of(42, 2)), GT(gt_of(29, 17)), 2) == GT::spow_steps(GT(gt_of(42, 2)), GT(gt_of(47, 91)), 1));
    lemma_gt_mul_at((42, 2), (47, 91), (75, 98), (17, 36));
    lemma_gt_mul_at((47, 91), (47, 91), (89, 71), (-61, 2));
    assert(GT::spow_steps(GT(gt_of(42, 2)), GT(gt_of(47, 91)), 1) == GT::spow_steps(GT(gt_of(75, 98)), GT(gt_of(89, 71)), 0));
}

/// The pairing of `8G` with the point `29 P` of the image of `H`.
proof fn lemma_pairing_8_29()
    ensures
        smiller_loop(g1p(18, 49), dq(96, 79)) is Some,
        spairing_at(g1p(18, 49), dq(96, 79)) == GT(gt_of(75, 98)),
{
    lemma_final_exponent();
    lemma_tangent_8_29();
    lemma_tangent_16_29();
    lemma_tangent_15_29();
    lemma_tangent_13_29();
    lemma_vertical_at(18, 52, 49, 96, 79);
    lemma_miller_at(
        g1p(18, 49),
        dq(96, 79),
        (g1p(1, 99), g1p(68, 27), g1p(65, 3), g1p(18, 52)),
        (2, 52),
        (62, 26),
        (24, 14),
        (100, 93),
        (-18, 96),
        ((27, 29, -27, -25), (11, 29, 9, 17), (88, 100, -8, -3), (5, 10, 7, 22)),
        ((26, 0, -1, 0), (75, 95, 25, 23), (34, 6, -104, -36)),
    );
    lemma_final_exp_8_29();
}

proof fn lemma_final_exp_9_29()
    ensures
        GT(gt_of(18, 52)).spow(600) == GT(gt_of(78, 3)),
{
    assert(GT::sone() == GT(gt_of(1, 0)));
    lemma_gt_mul_at((18, 52), (18, 52), (44, 77), (-24, -9));
    assert(GT::spow_steps(GT(gt_of(1, 0)), GT(gt_of(18, 52)), 600) == GT::spow_steps(GT(gt_of(1, 0)), GT(gt_of(44, 77)), 300));
    lemma_gt_mul_at((44, 77), (44, 77), (47, 39), (-40, 8));
    assert(GT::spow_steps(GT(gt_of(1, 0)), GT(gt_of(44, 77)), 300) == GT::spow_steps(GT(gt_of(1, 0)), GT(gt_of(47, 39)), 150));
    lemma_gt_mul_at((47, 39), (47, 39), (82, 24), (6, 21));
    assert(GT::spow_steps(GT(gt_of(1, 0)), GT(gt_of(47, 39)), 150) == GT::spow_steps(GT(gt_of(1, 0)), GT(gt_of(82, 24)), 75));
    lemma_gt_mul_at((1, 0), (82, 24), (82, 24), (0, 0));
    lemma_gt_mul_at((82, 24), (82, 24), (88, 27), (60, 33));
    assert(GT::spow_steps(GT(gt_of(1, 0)), GT(gt_of(82, 24)), 75) == GT::spow_steps(GT(gt_of(82, 24)), GT(gt_of(88, 27)), 37));
    lemma_gt_mul_at((82, 24), (88, 27), (3, 42), (65, 36));
    lemma_gt_mul_at((88, 27), (88, 27), (46, 84), (69, 39));
    assert(GT::spow_steps(GT(gt_of(82, 24)), GT(gt_of(88, 27)), 37) == GT::spow_steps(GT(gt_of(3, 42)), GT(gt_of(46, 84)), 18));
    lemma_gt_mul_at((46, 84), (46, 84), (9, 66), (-49, 6));
    assert(GT::spow_steps(GT(gt_of(3, 42)), GT(gt_of(46, 84)), 18) == GT::spow_steps(GT(gt_of(3, 42)), GT(gt_of(9, 66)), 9));
    lemma_gt_mul_at((3, 42), (9, 66), (83, 26), (-28, -22));
    lemma_gt_mul_at((9, 66), (9, 66), (68, 64), (-43, -32));
    assert(GT::spow_steps(GT(gt_of(3, 42)), GT(gt_of(9, 66)), 9) == GT::spow_steps(GT(gt_of(83, 26)), GT(gt_of(68, 64)), 4));
    lemma_gt_mul_at((68, 64), (68, 64), (23, 63), (5, 45));
    assert(GT::spow_steps(GT(gt_of(83, 26)), GT(gt_of(68, 64)), 4) == GT::spow_steps(GT(gt_of(83, 26)), GT(gt_of(23, 63)), 2));
    lemma_gt_mul_at((23, 63), (23, 63), (95, 40), (-35, -11));
    assert(GT::spow_steps(GT(gt_of(83, 26)), GT(gt_of(23, 63)), 2) == GT::spow_steps(GT(gt_of(83, 26)), GT(gt_of(95, 40)), 1));
    lemma_gt_mul_at((83, 26), (95, 40), (78, 3), (67, 47));
    lemma_gt_mul_at((95, 40), (95, 40), (52, 41), (73, 59));
    assert(GT::spow_steps(GT(gt_of(83, 26)), GT(gt_of(95, 40)), 1) == GT::spow_steps(GT(gt_of(78, 3)), GT(gt_of(52, 41)), 0));
}

/// The pairing of `9G` with the point `29 P` of the image of `H`.
proof fn lemma_pairing_9_29()
    ensures
        smiller_loop(g1p(18, 52), dq(96, 79)) is Some,
        spairing_at(g1p(18, 52), dq(96, 79)) == GT(gt_of(78, 3)),
{
    lemma_final_exponent();
    lemma_tangent_9_29();
    lemma_tangent_1_29();
    lemma_tangent_2_29();
    lemma_tangent_4_29();
    lemma_vertical_at(18, 49, 52, 96, 79);
    lemma_miller_at(
        g1p(18, 52),
        dq(96, 79),
        (g1p(1, 2), g1p(68, 74), g1p(65, 98), g1p(18, 49)),
        (81, 77),
        (5, 28),
        (76, 45),
        (89, 13),
        (-18, 96),
        ((26, 81, 6, 64), (84, 77, -22, -12), (16, 38, 11, 69), (11, 80, -5, 18)),
        ((84, 6, -63, -46), (25, 33, 73, 15), (18, 52, -36, -14)),
    );
    lemma_final_exp_9_29();
}

proof fn lemma_final_exp_10_29()
    ensures
        GT(gt_of(75, 62)).spow(600) == GT(gt_of(96, 29)),
{
    assert(GT::sone() == GT(gt_of(1, 0)));
    lemma_gt_mul_at((75, 62), (75, 62), (64, 2), (17, 54));
    assert(GT::spow_steps(GT(gt_of(1, 0)), GT(gt_of(75, 62)), 600) == GT::spow_steps(GT(gt_of(1, 0)), GT(gt_of(64, 2)), 300));
    lemma_gt_mul_at((64, 2), (64, 2), (52, 50), (40, 2));
    assert(GT::spow_steps(GT(gt_of(1, 0)), GT(gt_of(64, 2)), 300) == GT::spow_steps(GT(gt_of(1, 0)), GT(gt_of(52, 50)), 150));
    lemma_gt_mul_at((52, 50), (52, 50), (2, 74), (2, 26));
    assert(GT::spow_steps(GT(gt_of(1, 0)), GT(gt_of(52, 50)), 150) == GT::spow_steps(GT(gt_of(1, 0)), GT(gt_of(2, 74)), 75));
    lemma_gt_mul_at((1, 0), (2, 74), (2, 74), (0, 0));
    lemma_gt_mul_at((2, 74), (2, 74), (83, 72), (-55, -52));
    assert(GT::spow_steps(GT(gt_of(1, 0)), GT(gt_of(2, 74)), 75) == GT::spow_steps(GT(gt_of(2, 74)), GT(gt_of(83, 72)), 37));
    lemma_gt_mul_at((2, 74), (83, 72), (90, 49), (-52, 9));
    lemma_gt_mul_at((83, 72), (83, 72), (89, 1), (16, 67));
    assert(GT::spow_steps(GT(gt_of(2, 74)), GT(gt_of(83, 72)), 37) == GT::spow_steps(GT(gt_of(90, 49)), GT(gt_of(89, 1)), 18));
    lemma_gt_mul_at((89, 1), (89, 1), (42, 76), (78, 1));
    assert(GT::spow_steps(GT(gt_of(90, 49)), GT(gt_of(89, 1)), 18) == GT::spow_steps(GT(gt_of(90, 49)), GT(gt_of(42, 76)), 9));
    lemma_gt_mul_at((90, 49), (42, 76), (56, 23), (0, 51));
    lemma_gt_mul_at((42, 76), (42, 76), (28, 2), (-40, 6));
    assert(GT::spow_steps(GT(gt_of(90, 49)), GT(gt_of(42, 76)), 9) == GT::spow_steps(GT(gt_of(56, 23)), GT(gt_of(28, 2)), 4));
    lemma_gt_mul_at((28, 2), (28, 2), (73, 7), (7, 1));
    assert(GT::spow_steps(GT(gt_of(56, 23)), GT(gt_of(28, 2)), 4) == GT::spow_steps(GT(gt_of(56, 23)), GT(gt_of(73, 7)), 2));
    lemma_gt_mul_at((73, 7), (73, 7), (28, 64), (52, 9));
    assert(GT::spow_steps(GT(gt_of(56, 23)), GT(gt_of(73, 7)), 2) == GT::spow_steps(GT(gt_of(56, 23)), GT(gt_of(28, 64)), 1));
    lemma_gt_mul_at((56, 23), (28, 64), (96, 29), (0, 27));
    lemma_gt_mul_at((28, 64), (28, 64), (21, 94), (-33, -6));
    assert(GT::spow_steps(GT(gt_of(56, 23)), GT(gt_of(28, 64)), 1) == GT::spow_steps(GT(gt_of(96, 29)), GT(gt_of(21, 94)), 0));
}

/// The pairing of `10G` with the point `29 P` of the image of `H`.
proof fn lemma_pairing_10_29()
    ensures
        smiller_loop(g1p(91, 66), dq(96, 79)) is Some,
        spairing_at(g1p(91, 66), dq(96, 79)) == GT(gt_of(96, 29)),
{
    lemma_final_exponent();
    lemma_tangent_10_29();
    lemma_tangent_3_29();
    lemma_tangent_6_29();
    lemma_tangent_12_29();
    lemma_vertical_at(91, 35, 66, 96, 79);
    lemma_miller_at(
        g1p(91, 66),
        dq(96, 79),
        (g1p(26, 45), g1p(32, 42), g1p(12, 69), g1p(91, 35)),
        (96, 40),
        (92, 96),
        (72, 42),
        (36, 35),
        (-91, 96),
        ((41, 20, 75, 60), (34, 18, 18, 38), (24, 92, 8, 8), (86, 31, -22, 37)),
        ((72, 28, 63, 43), (97, 23, 15, 25), (75, 62, -110, 49)),
    );
    lemma_final_exp_10_29();
}

proof fn lemma_final_exp_11_29()
    ensures
        GT(gt_of(32, 11)).spow(600) == GT(gt_of(47, 80)),
{
    assert(GT::sone() == GT(gt_of(1, 0)));
    lemma_gt_mul_at((32, 11), (32, 11), (95, 78), (8, 5));
    assert(GT::spow_steps(GT(gt_of(1, 0)), GT(gt_of(32, 11)), 600) == GT::spow_steps(GT(gt_of(1, 0)), GT(gt_of(95, 78)), 300));
    lemma_gt_mul_at((95, 78), (95, 78), (12, 50), (29, 86));
    assert(GT::spow_steps(GT(gt_of(1, 0)), GT(gt_of(95, 78)), 300) == GT::spow_steps(GT(gt_of(1, 0)), GT(gt_of(12, 50)), 150));
    lemma_gt_mul_at((12, 50), (12, 50), (68, 13), (-24, -13));
    assert(GT::spow_steps(GT(gt_of(1, 0)), GT(gt_of(12, 50)), 150) == GT::spow_steps(GT(gt_of(1, 0)), GT(gt_of(68, 13)), 75));
    lemma_gt_mul_at((1, 0), (68, 13), (68, 13), (0, 0));
    lemma_gt_mul_at((68, 13), (68, 13), (11, 84), (44, 15));
    assert(GT::spow_steps(GT(gt_of(1, 0)), GT(gt_of(68, 13)), 75) == GT::spow_steps(GT(gt_of(68, 13)), GT(gt_of(11, 84)), 37));
    lemma_gt_mul_at((68, 13), (11, 84), (60, 16), (-4, 47));
    lemma_gt_mul_at((11, 84), (11, 84), (34, 44), (-69, -52));
    assert(GT::spow_steps(GT(gt_of(68, 13)), GT(gt_of(11, 84)), 37) == GT::spow_steps(GT(gt_of(60, 16)), GT(gt_of(34, 44)), 18));
    lemma_gt_mul_at((34, 44), (34, 44), (28, 46), (-8, 10));
    assert(GT::spow_steps(GT(gt_of(60, 16)), GT(gt_of(34, 44)), 18) == GT::spow_steps(GT(gt_of(60, 16)), GT(gt_of(28, 46)), 9));
    lemma_gt_mul_at((60, 16), (28, 46), (35, 48), (9, 24));
    lemma_gt_mul_at((28, 46), (28, 46), (82, 56), (-14, 4));
    assert(GT::spow_steps(GT(gt_of(60, 16)), GT(gt_of(28, 46)), 9) == GT::spow_steps(GT(gt_of(35, 48)), GT(gt_of(82, 56)), 4));
    lemma_gt_mul_at((82, 56), (82, 56), (53, 89), (35, 59));
    assert(GT::spow_steps(GT(gt_of(35, 48)), GT(gt_of(82, 56)), 4) == GT::spow_steps(GT(gt_of(35, 48)), GT(gt_of(53, 89)), 2));
    lemma_gt_mul_at((53, 89), (53, 89), (39, 99), (-51, 14));
    assert(GT::spow_steps(GT(gt_of(35, 48)), GT(gt_of(53, 89)), 2) == GT::spow_steps(GT(gt_of(35, 48)), GT(gt_of(39, 99)), 1));
    lemma_gt_mul_at((35, 48), (39, 99), (47, 80), (-34, 5));
    lemma_gt_mul_at((39, 99), (39, 99), (2, 42), (-82, -21));
    assert(GT::spow_steps(GT(gt_of(35, 48)), GT(gt_of(39, 99)), 1) == GT::spow_steps(GT(gt_of(47, 80)), GT(gt_of(2, 42)), 0));
}

/// The pairing of `11G` with the point `29 P` of the image of `H`.
proof fn lemma_pairing_11_29()
    ensures
        smiller_loop(g1p(32, 59), dq(96, 79)) is Some,
        spairing_at(g1p(32, 59), dq(96, 79)) == GT(gt_of(47, 80)),
{
    lemma_final_exponent();
    lemma_tangent_11_29();
    lemma_tangent_5_29();
    lemma_tangent_10_29();
    lemma_tangent_3_29();
    lemma_vertical_at(32, 42, 59, 96, 79);
    lemma_miller_at(
        g1p(32, 59),
        dq(96, 79),
        (g1p(12, 32), g1p(91, 66), g1p(26, 45), g1p(32, 42)),
        (17, 82),
        (67, 33),
        (96, 40),
        (92, 96),
        (-32, 96),
        ((29, 3, -64, -39), (26, 49, 18, 10), (93, 46, -18, 1), (18, 34, 70, 62)),
        ((77, 68, -9, 0), (51, 50, 5, 70), (32, 11, -64, -15)),
    );
    lemma_final_exp_11_29();
}

proof fn lemma_final_exp_12_29()
    ensures
        GT(gt_of(63, 98)).spow(600) == GT(gt_of(42, 92)),
{
    assert(GT::sone() == GT(gt_of(1, 0)));
    lemma_gt_mul_at((63, 98), (63, 98), (21, 17), (-56, 27));
    assert(GT::spow_steps(GT(gt_of(1, 0)), GT(gt_of(63, 98)), 600) == GT::spow_steps(GT(gt_of(1, 0)), GT(gt_of(21, 17)), 300));
    lemma_gt_mul_at((21, 17), (21, 17), (51, 21), (1, 4));
    assert(GT::spow_steps(GT(gt_of(1, 0)), GT(gt_of(21, 17)), 300) == GT::spow_steps(GT(gt_of(1, 0)), GT(gt_of(51, 21)), 150));
    lemma_gt_mul_at((51, 21), (51, 21), (39, 85), (21, 16));
    assert(GT::spow_steps(GT(gt_of(1, 0)), GT(gt_of(51, 21)), 150) == GT::spow_steps(GT(gt_of(1, 0)), GT(gt_of(39, 85)), 75));
    lemma_gt_mul_at((1, 0), (39, 85), (39, 85), (0, 0));
    lemma_gt_mul_at((39, 85), (39, 85), (53, 11), (-57, -6));
    assert(GT::spow_steps(GT(gt_of(1, 0)), GT(gt_of(39, 85)), 75) == GT::spow_steps(GT(gt_of(39, 85)), GT(gt_of(53, 11)), 37));
    lemma_gt_mul_at((39, 85), (53, 11), (21, 60), (11, 39));
    lemma_gt_mul_at((53, 11), (53, 11), (62, 35), (26, 10));
    assert(GT::spow_steps(GT(gt_of(39, 85)), GT(gt_of(53, 11)), 37) == GT::spow_steps(GT(gt_of(21, 60)), GT(gt_of(62, 35)), 18));
    lemma_gt_mul_at((62, 35), (62, 35), (94, 85), (25, 30));
    assert(GT::spow_steps(GT(gt_of(21, 60)), GT(gt_of(62, 35)), 18) == GT::spow_steps(GT(gt_of(21, 60)), GT(gt_of(94, 85)), 9));
    lemma_gt_mul_at((21, 60), (94, 85), (5, 2), (-31, 23));
    lemma_gt_mul_at((94, 85), (94, 85), (96, 69), (15, 86));
    assert(GT::spow_steps(GT(gt_of(21, 60)), GT(gt_of(94, 85)), 9) == GT::spow_steps(GT(gt_of(5, 2)), GT(gt_of(96, 69)), 4));
    lemma_gt_mul_at((96, 69), (96, 69), (11, 3), (44, 84));
    assert(GT::spow_steps(GT(gt_of(5, 2)), GT(gt_of(96, 69)), 4) == GT::spow_steps(GT(gt_of(5, 2)), GT(gt_of(11, 3)), 2));
    lemma_gt_mul_at((11, 3), (11, 3), (11, 57), (1, 0));
    assert(GT::spow_steps(GT(gt_of(5, 2)), GT(gt_of(11, 3)), 2) == GT::spow_steps(GT(gt_of(5, 2)), GT(gt_of(11, 57)), 1));
    lemma_gt_mul_at((5, 2), (11, 57), (42, 92), (-1, 1));
    lemma_gt_mul_at((11, 57), (11, 57), (3, 25), (-31, -20));
    assert(GT::spow_steps(GT(gt_of(5, 2)), GT(gt_of(11, 57)), 1) == GT::spow_steps(GT(gt_of(42, 92)), GT(gt_of(3, 25)), 0));
}

/// The pairing of `12G` with the point `29 P` of the image of `H`.
proof fn lemma_pairing_12_29()
    ensures
        smiller_loop(g1p(12, 69), dq(96, 79)) is Some,
        spairing_at(g1p(12, 69), dq(96, 79)) == GT(gt_of(42, 92)),
{
    lemma_final_exponent();
    lemma_tangent_12_29();
    lemma_tangent_7_29();
    lemma_tangent_14_29();
    lemma_tangent_11_29();
    lemma_vertical_at(12, 32, 69, 96, 79);
    lemma_miller_at(
        g1p(12, 69),
        dq(96, 79),
        (g1p(91, 35), g1p(26, 56), g1p(32, 59), g1p(12, 32)),
        (36, 35),
        (19, 24),
        (91, 16),
        (17, 82),
        (-12, 96),
        ((71, 83, 0, 12), (64, 77, -7, 12), (86, 89, -19, 38), (39, 72, 63, 79)),
        ((74, 28, -37, 4), (73, 6, -11, 42), (63, 98, -15, 62)),
    );
    lemma_final_exp_12_29();
}

proof fn lemma_final_exp_13_29()
    ensures
        GT(gt_of(71, 46)).spow(600) == GT(gt_of(14, 44)),
{
    assert(GT::sone() == GT(gt_of(1, 0)));
    lemma_gt_mul_at((71, 46), (71, 46), (97, 73), (28, 43));
    assert(GT::spow_steps(GT(gt_of(1, 0)), GT(gt_of(71, 46)), 600) == GT::spow_steps(GT(gt_of(1, 0)), GT(gt_of(97, 73)), 300));
    lemma_gt_mul_at((97, 73), (97, 73), (40, 46), (40, 87));
    assert(GT::spow_steps(GT(gt_of(1, 0)), GT(gt_of(97, 73)), 300) == GT::spow_steps(GT(gt_of(1, 0)), GT(gt_of(40, 46)), 150));
    lemma_gt_mul_at((40, 46), (40, 46), (90, 49), (-6, 15));
    assert(GT::spow_steps(GT(gt_of(1, 0)), GT(gt_of(40, 46)), 150) == GT::spow_steps(GT(gt_of(1, 0)), GT(gt_of(90, 49)), 75));
    lemma_gt_mul_at((1, 0), (90, 49), (90, 49), (0, 0));
    lemma_gt_mul_at((90, 49), (90, 49), (43, 56), (56, 63));
    assert(GT::spow_steps(GT(gt_of(1, 0)), GT(gt_of(90, 49)), 75) == GT::spow_steps(GT(gt_of(90, 49)), GT(gt_of(43, 56)), 37));
    lemma_gt_mul_at((90, 49), (43, 56), (15, 60), (11, 43));
    lemma_gt_mul_at((43, 56), (43, 56), (26, 64), (-13, 16));
    assert(GT::spow_steps(GT(gt_of(90, 49)), GT(gt_of(43, 56)), 37) == GT::spow_steps(GT(gt_of(15, 60)), GT(gt_of(26, 64)), 18));
    lemma_gt_mul_at((26, 64), (26, 64), (14, 40), (-34, -8));
    assert(GT::spow_steps(GT(gt_of(15, 60)), GT(gt_of(26, 64)), 18) == GT::spow_steps(GT(gt_of(15, 60)), GT(gt_of(14, 40)), 9));
    lemma_gt_mul_at((15, 60), (14, 40), (32, 50), (-22, -10));
    lemma_gt_mul_at((14, 40), (14, 40), (10, 25), (-14, -5));
    assert(GT::spow_steps(GT(gt_of(15, 60)), GT(gt_of(14, 40)), 9) == GT::spow_steps(GT(gt_of(32, 50)), GT(gt_of(10, 25)), 4));
    lemma_gt_mul_at((10, 25), (10, 25), (81, 77), (-6, -2));
    assert(GT::spow_steps(GT(gt_of(32, 50)), GT(gt_of(10, 25)), 4) == GT::spow_steps(GT(gt_of(32, 50)), GT(gt_of(81, 77)), 2));
    lemma_gt_mul_at((81, 77), (81, 77), (26, 81), (6, 64));
    assert(GT::spow_steps(GT(gt_of(32, 50)), GT(gt_of(81, 77)), 2) == GT::spow_steps(GT(gt_of(32, 50)), GT(gt_of(26, 81)), 1));
    lemma_gt_mul_at((32, 50), (26, 81), (14, 44), (-32, -2));
    lemma_gt_mul_at((26, 81), (26, 81), (74, 75), (-59, -24));
    assert(GT::spow_steps(GT(gt_of(32, 50)), GT(gt_of(26, 81)), 1) == GT::spow_steps(GT(gt_of(14, 44)), GT(gt_of(74, 75)), 0));
}

/// The pairing of `13G` with the point `29 P` of the image of `H`.
proof fn lemma_pairing_13_29()
    ensures
        smiller_loop(g1p(65, 3), dq(96, 79)) is Some,
        spairing_at(g1p(65, 3), dq(96, 79)) == GT(gt_of(14, 44)),
{
    lemma_final_exponent();
    lemma_tangent_13_29();
    lemma_tangent_9_29();
    lemma_tangent_1_29();
    lemma_tangent_2_29();
    lemma_vertical_at(65, 98, 3, 96, 79);
    lemma_miller_at(
        g1p(65, 3),
        dq(96, 79),
        (g1p(18, 52), g1p(1, 2), g1p(68, 74), g1p(65, 98)),
        (100, 93),
        (81, 77),
        (5, 28),
        (76, 45),
        (-65, 96),
        ((38, 53, 13, 98), (7, 7, -10, 31), (0, 49, 0, 0), (42, 85, -14, -12)),
        ((94, 16, -55, -1), (61, 80, 63, 46), (71, 46, -116, -70)),
    );
    lemma_final_exp_13_29();
}

proof fn lemma_final_exp_14_29()
    ensures
        GT(gt_of(2, 64)).spow(600) == GT(gt_of(12, 20)),
{
    assert(GT::sone() == GT(gt_of(1, 0)));
    lemma_gt_mul_at((2, 64), (2, 64), (49, 99), (-41, -39));
    assert(GT::spow_steps(GT(gt_of(1, 0)), GT(gt_of(2, 64)), 600) == GT::spow_steps(GT(gt_of(1, 0)), GT(gt_of(49, 99)), 300));
    lemma_gt_mul_at((49, 99), (49, 99), (74, 2), (-74, -1));
    assert(GT::spow_steps(GT(gt_of(1, 0)), GT(gt_of(49, 99)), 300) == GT::spow_steps(GT(gt_of(1, 0)), GT(gt_of(74, 2)), 150));
    lemma_gt_mul_at((74, 2), (74, 2), (18, 90), (54, 2));
    assert(GT::spow_steps(GT(gt_of(1, 0)), GT(gt_of(74, 2)), 150) == GT::spow_steps(GT(gt_of(1, 0)), GT(gt_of(18, 90)), 75));
    lemma_gt_mul_at((1, 0), (18, 90), (18, 90), (0, 0));
    lemma_gt_mul_at((18, 90), (18, 90), (1, 89), (-77, -49));
    assert(GT::spow_steps(GT(gt_of(1, 0)), GT(gt_of(18, 90)), 75) == GT::spow_steps(GT(gt_of(18, 90)), GT(gt_of(1, 89)), 37));
    lemma_gt_mul_at((18, 90), (1, 89), (88, 45), (-80, -63));
    lemma_gt_mul_at((1, 89), (1, 89), (59, 34), (-79, -77));
    assert(GT::spow_steps(GT(gt_of(18, 90)), GT(gt_of(1, 89)), 37) == GT::spow_steps(GT(gt_of(88, 45)), GT(gt_of(59, 34)), 18));
    lemma_gt_mul_at((59, 34), (59, 34), (2, 28), (23, 28));
    assert(GT::spow_steps(GT(gt_of(88, 45)), GT(gt_of(59, 34)), 18) == GT::spow_steps(GT(gt_of(88, 45)), GT(gt_of(2, 28)), 9));
    lemma_gt_mul_at((88, 45), (2, 28), (27, 82), (-11, 12));
    lemma_gt_mul_at((2, 28), (2, 28), (28, 35), (-8, -7));
    assert(GT::spow_steps(GT(gt_of(88, 45)), GT(gt_of(2, 28)), 9) == GT::spow_steps(GT(gt_of(27, 82)), GT(gt_of(28, 35)), 4));
    lemma_gt_mul_at((28, 35), (28, 35), (64, 28), (-5, 7));
    assert(GT::spow_steps(GT(gt_of(27, 82)), GT(gt_of(28, 35)), 4) == GT::spow_steps(GT(gt_of(27, 82)), GT(gt_of(64, 28)), 2));
    lemma_gt_mul_at((64, 28), (64, 28), (80, 73), (32, 27));
    assert(GT::spow_steps(GT(gt_of(27, 82)), GT(gt_of(64, 28)), 2) == GT::spow_steps(GT(gt_of(27, 82)), GT(gt_of(80, 73)), 1));
    lemma_gt_mul_at((27, 82), (80, 73), (12, 20), (-38, 25));
    lemma_gt_mul_at((80, 73), (80, 73), (61, 89), (10, 62));
    assert(GT::spow_steps(GT(gt_of(27, 82)), GT(gt_of(80, 73)), 1) == GT::spow_steps(GT(gt_of(12, 20)), GT(gt_of(61, 89)), 0));
}

/// The pairing of `14G` with the point `29 P` of the image of `H`.
proof fn lemma_pairing_14_29()
    ensures
        smiller_loop(g1p(26, 56), dq(96, 79)) is Some,
        spairing_at(g1p(26, 56), dq(96, 79)) == GT(gt_of(12, 20)),
{
    lemma_final_exponent();
    lemma_tangent_14_29();
    lemma_tangent_11_29();
    lemma_tangent_5_29();
    lemma_tangent_10_29();
    lemma_vertical_at(26, 45, 56, 96, 79);
    lemma_miller_at(
        g1p(26, 56),
        dq(96, 79),
        (g1p(32, 59), g1p(12, 32), g1p(91, 66), g1p(26, 45)),
        (91, 16),
        (17, 82),
        (67, 33),
        (96, 40),
        (-26, 96),
        ((46, 30, 79, 26), (39, 4, -17, 18), (91, 94, 14, 2), (66, 38, 29, 61)),
        ((84, 37, 28, 35), (19, 79, 65, 53), (2, 64, -80, -78)),
    );
    lemma_final_exp_14_29();
}

proof fn lemma_final_exp_15_29()
    ensures
        GT(gt_of(21, 53)).spow(600) == GT(gt_of(90, 62)),
{
    assert(GT::sone() == GT(gt_of(1, 0)));
    lemma_gt_mul_at((21, 53), (21, 53), (56, 23), (-24, -6));
    assert(GT::spow_steps(GT(gt_of(1, 0)), GT(gt_of(21, 53)), 600) == GT::spow_steps(GT(gt_of(1, 0)), GT(gt_of(56, 23)), 300));
    lemma_gt_mul_at((56, 23), (56, 23), (82, 27), (25, 20));
    assert(GT::spow_steps(GT(gt_of(1, 0)), GT(gt_of(56, 23)), 300) == GT::spow_steps(GT(gt_of(1, 0)), GT(gt_of(82, 27)), 150));
    lemma_gt_mul_at((82, 27), (82, 27), (36, 63), (59, 36));
    assert(GT::spow_steps(GT(gt_of(1, 0)), GT(gt_of(82, 27)), 150) == GT::spow_steps(GT(gt_of(1, 0)), GT(gt_of(36, 63)), 75));
    lemma_gt_mul_at((1, 0), (36, 63), (36, 63), (0, 0));
    lemma_gt_mul_at((36, 63), (36, 63), (54, 62), (-27, 5));
    assert(GT::spow_steps(GT(gt_of(1, 0)), GT(gt_of(36, 63)), 75) == GT::spow_steps(GT(gt_of(36, 63)), GT(gt_of(54, 62)), 37));
    lemma_gt_mul_at((36, 63), (54, 62), (58, 11), (-20, 17));
    lemma_gt_mul_at((54, 62), (54, 62), (82, 24), (-10, 28));
    assert(GT::spow_steps(GT(gt_of(36, 63)), GT(gt_of(54, 62)), 37) == GT::spow_steps(GT(gt_of(58, 11)), GT(gt_of(82, 24)), 18));
    lemma_gt_mul_at((82, 24), (82, 24), (88, 27), (60, 33));
    assert(GT::spow_steps(GT(gt_of(58, 11)), GT(gt_of(82, 24)), 18) == GT::spow_steps(GT(gt_of(58, 11)), GT(gt_of(88, 27)), 9));
    lemma_gt_mul_at((58, 11), (88, 27), (60, 15), (47, 22));
    lemma_gt_mul_at((88, 27), (88, 27), (46, 84), (69, 39));
    assert(GT::spow_steps(GT(gt_of(58, 11)), GT(gt_of(88, 27)), 9) == GT::spow_steps(GT(gt_of(60, 15)), GT(gt_of(46, 84)), 4));
    lemma_gt_mul_at((46, 84), (46, 84), (9, 66), (-49, 6));
    assert(GT::spow_steps(GT(gt_of(60, 15)), GT(gt_of(46, 84)), 4) == GT::spow_steps(GT(gt_of(60, 15)), GT(gt_of(9, 66)), 2));
    lemma_gt_mul_at((9, 66), (9, 66), (68, 64), (-43, -32));
    assert(GT::spow_steps(GT(gt_of(60, 15)), GT(gt_of(9, 66)), 2) == GT::spow_steps(GT(gt_of(60, 15)), GT(gt_of(68, 64)), 1));
    lemma_gt_mul_at((60, 15), (68, 64), (90, 62), (30, 38));
    lemma_gt_mul_at((68, 64), (68, 64), (23, 63), (5, 45));
    assert(GT::spow_steps(GT(gt_of(60, 15)), GT(gt_of(68, 64)), 1) == GT::spow_steps(GT(gt_of(90, 62)), GT(gt_of(23, 63)), 0));
}

/// The pairing of `15G` with the point `29 P` of the image of `H`.
proof fn lemma_pairing_15_29()
    ensures
        smiller_loop(g1p(68, 27), dq(96, 79)) is Some,
        spairing_at(g1p(68, 27), dq(96, 79)) == GT(gt_of(90, 62)),
{
    lemma_final_exponent();
    lemma_tangent_15_29();
    lemma_tangent_13_29();
    lemma_tangent_9_29();
    lemma_tangent_1_29();
    lemma_vertical_at(68, 74, 27, 96, 79);
    lemma_miller_at(
        g1p(68, 27),
        dq(96, 79),
        (g1p(65, 3), g1p(18, 52), g1p(1, 2), g1p(68, 74)),
        (24, 14),
        (100, 93),
        (81, 77),
        (5, 28),
        (-68, 96),
        ((77, 72, 3, 4), (95, 90, 9, 75), (16, 11, 9, 89), (45, 64, 4, 12)),
        ((50, 48, -21, 16), (17, 94, -11, 2), (21, 53, -101, -137)),
    );
    lemma_final_exp_15_29();
}

proof fn lemma_final_exp_16_29()
    ensures
        GT(gt_of(73, 2)).spow(600) == GT(gt_of(61, 46)),
{
    assert(GT::sone() == GT(gt_of(1, 0)));
    lemma_gt_mul_at((73, 2), (73, 2), (73, 86), (52, 2));
    assert(GT::spow_steps(GT(gt_of(1, 0)), GT(gt_of(73, 2)), 600) == GT::spow_steps(GT(gt_of(1, 0)), GT(gt_of(73, 86)), 300));
    lemma_gt_mul_at((73, 86), (73, 86), (54, 9), (-21, 51));
    assert(GT::spow_steps(GT(gt_of(1, 0)), GT(gt_of(73, 86)), 300) == GT::spow_steps(GT(gt_of(1, 0)), GT(gt_of(54, 9)), 150));
    lemma_gt_mul_at((54, 9), (54, 9), (7, 83), (28, 8));
    assert(GT::spow_steps(GT(gt_of(1, 0)), GT(gt_of(54, 9)), 150) == GT::spow_steps(GT(gt_of(1, 0)), GT(gt_of(7, 83)), 75));
    lemma_gt_mul_at((1, 0), (7, 83), (7, 83), (0, 0));
    lemma_gt_mul_at((7, 83), (7, 83), (28, 30), (-68, -57));
    assert(GT::spow_steps(GT(gt_of(1, 0)), GT(gt_of(7, 83)), 75) == GT::spow_steps(GT(gt_of(7, 83)), GT(gt_of(28, 30)), 37));
    lemma_gt_mul_at((7, 83), (28, 30), (29, 44), (-23, 0));
    lemma_gt_mul_at((28, 30), (28, 30), (86, 73), (-2, 7));
    assert(GT::spow_steps(GT(gt_of(7, 83)), GT(gt_of(28, 30)), 37) == GT::spow_steps(GT(gt_of(29, 44)), GT(gt_of(86, 73)), 18));
    lemma_gt_mul_at((86, 73), (86, 73), (47, 56), (20, 71));
    assert(GT::spow_steps(GT(gt_of(29, 44)), GT(gt_of(86, 73)), 18) == GT::spow_steps(GT(gt_of(29, 44)), GT(gt_of(47, 56)), 9));
    lemma_gt_mul_at((29, 44), (47, 56), (10, 16), (-11, 12));
    lemma_gt_mul_at((47, 56), (47, 56), (83, 7), (-10, 21));
    assert(GT::spow_steps(GT(gt_of(29, 44)), GT(gt_of(47, 56)), 9) == GT::spow_steps(GT(gt_of(10, 16)), GT(gt_of(83, 7)), 4));
    lemma_gt_mul_at((83, 7), (83, 7), (73, 2), (67, 11));
    assert(GT::spow_steps(GT(gt_of(10, 16)), GT(gt_of(83, 7)), 4) == GT::spow_steps(GT(gt_of(10, 16)), GT(gt_of(73, 2)), 2));
    lemma_gt_mul_at((73, 2), (73, 2), (73, 86), (52, 2));
    assert(GT::spow_steps(GT(gt_of(10, 16)), GT(gt_of(73, 2)), 2) == GT::spow_steps(GT(gt_of(10, 16)), GT(gt_of(73, 86)), 1));
    lemma_gt_mul_at((10, 16), (73, 86), (61, 46), (-7, 6));
    lemma_gt_mul_at((73, 86), (73, 86), (54, 9), (-21, 51));
    assert(GT::spow_steps(GT(gt_of(10, 16)), GT(gt_of(73, 86)), 1) == GT::spow_steps(GT(gt_of(61, 46)), GT(gt_of(54, 9)), 0));
}

/// The pairing of `16G` with the point `29 P` of the image of `H`.
proof fn lemma_pairing_16_29()
    ensures
        smiller_loop(g1p(1, 99), dq(96, 79)) is Some,
        spairing_at(g1p(1, 99), dq(96, 79)) == GT(gt_of(61, 46)),
{
    lemma_final_exponent();
    lemma_tangent_16_29();
    lemma_tangent_15_29();
    lemma_tangent_13_29();
    lemma_tangent_9_29();
    lemma_vertical_at(1, 2, 99, 96, 79);
    lemma_miller_at(
        g1p(1, 99),
        dq(96, 79),
        (g1p(68, 27), g1p(65, 3), g1p(18, 52), g1p(1, 2)),
        (62, 26),
        (24, 14),
        (100, 93),
        (81, 77),
        (-1, 96),
        ((37, 23, 31, 25), (61, 41, 5, 7), (20, 89, 20, 32), (86, 59, -63, 24)),
        ((77, 1, 38, 66), (100, 75, 60, 58), (73, 2, -73, 23)),
    );
    lemma_final_exp_16_29();
}

proof fn lemma_final_exp_1_30()
    ensures
        GT(gt_of(66, 14)).spow(600) == GT(gt_of(47, 80)),
{
    assert(GT::sone() == GT(gt_of(1, 0)));
    lemma_gt_mul_at((66, 14), (66, 14), (19, 36), (41, 16));
    assert(GT::spow_steps(GT(gt_of(1, 0)), GT(gt_of(66, 14)), 600) == GT::spow_steps(GT(gt_of(1, 0)), GT(gt_of(19, 36)), 300));
    lemma_gt_mul_at((19, 36), (19, 36), (75, 72), (-10, 0));
    assert(GT::spow_steps(GT(gt_of(1, 0)), GT(gt_of(19, 36)), 300) == GT::spow_steps(GT(gt_of(1, 0)), GT(gt_of(75, 72)), 150));
    lemma_gt_mul_at((75, 72), (75, 72), (37, 61), (4, 55));
    assert(GT::spow_steps(GT(gt_of(1, 0)), GT(gt_of(75, 72)), 150) == GT::spow_steps(GT(gt_of(1, 0)), GT(gt_of(37, 61)), 75));
    lemma_gt_mul_at((1, 0), (37, 61), (37, 61), (0, 0));
    lemma_gt_mul_at((37, 61), (37, 61), (72, 86), (-24, 7));
    assert(GT::spow_steps(GT(gt_of(1, 0)), GT(gt_of(37, 61)), 75) == GT::spow_steps(GT(gt_of(37, 61)), GT(gt_of(72, 86)), 37));
    lemma_gt_mul_at((37, 61), (72, 86), (44, 5), (-26, 23));
    lemma_gt_mul_at((72, 86), (72, 86), (10, 39), (-22, 49));
    assert(GT::spow_steps(GT(gt_of(37, 61)), GT(gt_of(72, 86)), 37) == GT::spow_steps(GT(gt_of(44, 5)), GT(gt_of(10, 39)), 18));
    lemma_gt_mul_at((10, 39), (10, 39), (94, 67), (-15, -8));
    assert(GT::spow_steps(GT(gt_of(44, 5)), GT(gt_of(10, 39)), 18) == GT::spow_steps(GT(gt_of(44, 5)), GT(gt_of(94, 67)), 9));
    lemma_gt_mul_at((44, 5), (94, 67), (64, 53), (37, 30));
    lemma_gt_mul_at((94, 67), (94, 67), (4, 27), (43, 80));
    assert(GT::spow_steps(GT(gt_of(44, 5)), GT(gt_of(94, 67)), 9) == GT::spow_steps(GT(gt_of(64, 53)), GT(gt_of(4, 27)), 4));
    lemma_gt_mul_at((4, 27), (4, 27), (95, 93), (-8, -6));
    assert(GT::spow_steps(GT(gt_of(64, 53)), GT(gt_of(4, 27)), 4) == GT::spow_steps(GT(gt_of(64, 53)), GT(gt_of(95, 93)), 2));
    lemma_gt_mul_at((95, 93), (95, 93), (73, 32), (3, 89));
    assert(GT::spow_steps(GT(gt_of(64, 53)), GT(gt_of(95, 93)), 2) == GT::spow_steps(GT(gt_of(64, 53)), GT(gt_of(73, 32)), 1));
    lemma_gt_mul_at((64, 53), (73, 32), (47, 80), (29, 41));
    lemma_gt_mul_at((73, 32), (73, 32), (63, 12), (42, 36));
    assert(GT::spow_steps(GT(gt_of(64, 53)), GT(gt_of(73, 32)), 1) == GT::spow_steps(GT(gt_of(47, 80)), GT(gt_of(63, 12)), 0));
}

/// The pairing of `1G` with the point `30 P` of the image of `H`.
proof fn lemma_pairing_1_30()
    ensures
        smiller_loop(g1p(1, 2), dq(18, 49)) is Some,
        spairing_at(g1p(1, 2), dq(18, 49)) == GT(gt_of(47, 80)),
{
    lemma_final_exponent();
    lemma_tangent_1_30();
    lemma_tangent_2_30();
    lemma_tangent_4_30();
    lemma_tangent_8_30();
    lemma_vertical_at(1, 99, 2, 18, 49);
    lemma_miller_at(
        g1p(1, 2),
        dq(18, 49),
        (g1p(68, 74), g1p(65, 98), g1p(18, 49), g1p(1, 99)),
        (4, 65),
        (52, 59),
        (87, 73),
        (82, 95),
        (-1, 18),
        ((33, 32, -42, -37), (30, 6, -2, 17), (56, 21, 8, 3), (6, 39, 33, 43)),
        ((30, 58, -15, -11), (81, 76, -31, 20), (66, 14, -15, 0)),
    );
    lemma_final_exp_1_30();
}

proof fn lemma_final_exp_2_30()
    ensures
        GT(gt_of(75, 41)).spow(600) == GT(gt_of(51, 9)),
{
    assert(GT::sone() == GT(gt_of(1, 0)));
    lemma_gt_mul_at((75, 41), (75, 41), (5, 25), (39, 44));
    assert(GT::spow_steps(GT(gt_of(1, 0)), GT(gt_of(75, 41)), 600) == GT::spow_steps(GT(gt_of(1, 0)), GT(gt_of(5, 25)), 300));
    lemma_gt_mul_at((5, 25), (5, 25), (6, 29), (-6, -4));
    assert(GT::spow_steps(GT(gt_of(1, 0)), GT(gt_of(5, 25)), 300) == GT::spow_steps(GT(gt_of(1, 0)), GT(gt_of(6, 29)), 150));
    lemma_gt_mul_at((6, 29), (6, 29), (3, 12), (-8, -5));
    assert(GT::spow_steps(GT(gt_of(1, 0)), GT(gt_of(6, 29)), 150) == GT::spow_steps(GT(gt_of(1, 0)), GT(gt_of(3, 12)), 75));
    lemma_gt_mul_at((1, 0), (3, 12), (3, 12), (0, 0));
    lemma_gt_mul_at((3, 12), (3, 12), (67, 29), (-2, -1));
    assert(GT::spow_steps(GT(gt_of(1, 0)), GT(gt_of(3, 12)), 75) == GT::spow_steps(GT(gt_of(3, 12)), GT(gt_of(67, 29)), 37));
    lemma_gt_mul_at((3, 12), (67, 29), (55, 38), (-2, 5));
    lemma_gt_mul_at((67, 29), (67, 29), (12, 15), (36, 30));
    assert(GT::spow_steps(GT(gt_of(3, 12)), GT(gt_of(67, 29)), 37) == GT::spow_steps(GT(gt_of(55, 38)), GT(gt_of(12, 15)), 18));
    lemma_gt_mul_at((12, 15), (12, 15), (20, 34), (-1, 1));
    assert(GT::spow_steps(GT(gt_of(55, 38)), GT(gt_of(12, 15)), 18) == GT::spow_steps(GT(gt_of(55, 38)), GT(gt_of(20, 34)), 9));
    lemma_gt_mul_at((55, 38), (20, 34), (10, 25), (-2, 13));
    lemma_gt_mul_at((20, 34), (20, 34), (52, 2), (-8, 2));
    assert(GT::spow_steps(GT(gt_of(55, 38)), GT(gt_of(20, 34)), 9) == GT::spow_steps(GT(gt_of(10, 25)), GT(gt_of(52, 2)), 4));
    lemma_gt_mul_at((52, 2), (52, 2), (74, 2), (26, 2));
    assert(GT::spow_steps(GT(gt_of(10, 25)), GT(gt_of(52, 2)), 4) == GT::spow_steps(GT(gt_of(10, 25)), GT(gt_of(74, 2)), 2));
    lemma_gt_mul_at((74, 2), (74, 2), (18, 90), (54, 2));
    assert(GT::spow_steps(GT(gt_of(10, 25)), GT(gt_of(74, 2)), 2) == GT::spow_steps(GT(gt_of(10, 25)), GT(gt_of(18, 90)), 1));
    lemma_gt_mul_at((10, 25), (18, 90), (51, 9), (-21, -9));
    lemma_gt_mul_at((18, 90), (18, 90), (1, 89), (-77, -49));
    assert(GT::spow_steps(GT(gt_of(10, 25)), GT(gt_of(18, 90)), 1) == GT::spow_steps(GT(gt_of(51, 9)), GT(gt_of(1, 89)), 0));
}

/// The pairing of `2G` with the point `30 P` of the image of `H`.
proof fn lemma_pairing_2_30()
    ensures
        smiller_loop(g1p(68, 74), dq(18, 49)) is Some,
        spairing_at(g1p(68, 74), dq(18, 49)) == GT(gt_of(51, 9)),
{
    lemma_final_exponent();
    lemma_tangent_2_30();
    lemma_tangent_4_30();
    lemma_tangent_8_30();
    lemma_tangent_16_30();
    lemma_vertical_at(68, 27, 74, 18, 49);
    lemma_miller_at(
        g1p(68, 74),
        dq(18, 49),
        (g1p(65, 98), g1p(18, 49), g1p(1, 99), g1p(68, 27)),
        (52, 59),
        (87, 73),
        (82, 95),
        (47, 96),
        (-68, 18),
        ((31, 29, -8, 26), (75, 43, 5, 26), (39, 56, 37, 45), (100, 48, -22, 29)),
        ((20, 24, 76, 72), (50, 37, -14, 7), (75, 41, -41, -23)),
    );
    lemma_final_exp_2_30();
}

proof fn lemma_final_exp_3_30()
    ensures
        GT(gt_of(82, 23)).spow(600) == GT(gt_of(61, 46)),
{
    assert(GT::sone() == GT(gt_of(1, 0)));
    lemma_gt_mul_at((82, 23), (82, 23), (34, 11), (61, 32));
    assert(GT::spow_steps(GT(gt_of(1, 0)), GT(gt_of(82, 23)), 600) == GT::spow_steps(GT(gt_of(1, 0)), GT(gt_of(34, 11)), 300));
    lemma_gt_mul_at((34, 11), (34, 11), (25, 21), (10, 6));
    assert(GT::spow_steps(GT(gt_of(1, 0)), GT(gt_of(34, 11)), 300) == GT::spow_steps(GT(gt_of(1, 0)), GT(gt_of(25, 21)), 150));
    lemma_gt_mul_at((25, 21), (25, 21), (83, 3), (1, 6));
    assert(GT::spow_steps(GT(gt_of(1, 0)), GT(gt_of(25, 21)), 150) == GT::spow_steps(GT(gt_of(1, 0)), GT(gt_of(83, 3)), 75));
    lemma_gt_mul_at((1, 0), (83, 3), (83, 3), (0, 0));
    lemma_gt_mul_at((83, 3), (83, 3), (12, 85), (68, 4));
    assert(GT::spow_steps(GT(gt_of(1, 0)), GT(gt_of(83, 3)), 75) == GT::spow_steps(GT(gt_of(83, 3)), GT(gt_of(12, 85)), 37));
    lemma_gt_mul_at((83, 3), (12, 85), (34, 69), (7, 67));
    lemma_gt_mul_at((12, 85), (12, 85), (90, 67), (-71, -52));
    assert(GT::spow_steps(GT(gt_of(83, 3)), GT(gt_of(12, 85)), 37) == GT::spow_steps(GT(gt_of(34, 69)), GT(gt_of(90, 67)), 18));
    lemma_gt_mul_at((90, 67), (90, 67), (76, 97), (35, 74));
    assert(GT::spow_steps(GT(gt_of(34, 69)), GT(gt_of(90, 67)), 18) == GT::spow_steps(GT(gt_of(34, 69)), GT(gt_of(76, 97)), 9));
    lemma_gt_mul_at((34, 69), (76, 97), (32, 31), (-41, 18));
    lemma_gt_mul_at((76, 97), (76, 97), (3, 83), (-36, 52));
    assert(GT::spow_steps(GT(gt_of(34, 69)), GT(gt_of(76, 97)), 9) == GT::spow_steps(GT(gt_of(32, 31)), GT(gt_of(3, 83)), 4));
    lemma_gt_mul_at((3, 83), (3, 83), (89, 73), (-69, -64));
    assert(GT::spow_steps(GT(gt_of(32, 31)), GT(gt_of(3, 83)), 4) == GT::spow_steps(GT(gt_of(32, 31)), GT(gt_of(89, 73)), 2));
    lemma_gt_mul_at((89, 73), (89, 73), (67, 90), (25, 75));
    assert(GT::spow_steps(GT(gt_of(32, 31)), GT(gt_of(89, 73)), 2) == GT::spow_steps(GT(gt_of(32, 31)), GT(gt_of(67, 90)), 1));
    lemma_gt_mul_at((32, 31), (67, 90), (61, 46), (-7, 21));
    lemma_gt_mul_at((67, 90), (67, 90), (25, 21), (-36, 39));
    assert(GT::spow_steps(GT(gt_of(32, 31)), GT(gt_of(67, 90)), 1) == GT::spow_steps(GT(gt_of(61, 46)), GT(gt_of(25, 21)), 0));
}

/// The pairing of `3G` with the point `30 P` of the image of `H`.
proof fn lemma_pairing_3_30()
    ensures
        smiller_loop(g1p(26, 45), dq(18, 49)) is Some,
        spairing_at(g1p(26, 45), dq(18, 49)) == GT(gt_of(61, 46)),
{
    lemma_final_exponent();
    lemma_tangent_3_30();
    lemma_tangent_6_30();
    lemma_tangent_12_30();
    lemma_tangent_7_30();
    lemma_vertical_at(26, 56, 45, 18, 49);
    lemma_miller_at(
        g1p(26, 45),
        dq(18, 49),
        (g1p(32, 42), g1p(12, 69), g1p(91, 35), g1p(26, 56)),
        (64, 36),
        (59, 66),
        (16, 65),
        (32, 66),
        (-26, 18),
        ((73, 80, 27, 32), (37, 16, -10, 42), (2, 19, 11, 9), (9, 7, -12, -8)),
        ((32, 77, 0, 0), (83, 100, -41, -6), (82, 23, -40, -29)),
    );
    lemma_final_exp_3_30();
}

proof fn lemma_final_exp_4_30()
    ensures
        GT(gt_of(92, 13)).spow(600) == GT(gt_of(96, 29)),
{
    assert(GT::sone() == GT(gt_of(1, 0)));
    lemma_gt_mul_at((92, 13), (92, 13), (13, 1), (82, 22));
    assert(GT::spow_steps(GT(gt_of(1, 0)), GT(gt_of(92, 13)), 600) == GT::spow_steps(GT(gt_of(1, 0)), GT(gt_of(13, 1)), 300));
    lemma_gt_mul_at((13, 1), (13, 1), (67, 25), (1, 0));
    assert(GT::spow_steps(GT(gt_of(1, 0)), GT(gt_of(13, 1)), 300) == GT::spow_steps(GT(gt_of(1, 0)), GT(gt_of(67, 25)), 150));
    lemma_gt_mul_at((67, 25), (67, 25), (26, 99), (38, 26));
    assert(GT::spow_steps(GT(gt_of(1, 0)), GT(gt_of(67, 25)), 150) == GT::spow_steps(GT(gt_of(1, 0)), GT(gt_of(26, 99)), 75));
    lemma_gt_mul_at((1, 0), (26, 99), (26, 99), (0, 0));
    lemma_gt_mul_at((26, 99), (26, 99), (66, 94), (-91, -47));
    assert(GT::spow_steps(GT(gt_of(1, 0)), GT(gt_of(26, 99)), 75) == GT::spow_steps(GT(gt_of(26, 99)), GT(gt_of(66, 94)), 37));
    lemma_gt_mul_at((26, 99), (66, 94), (86, 76), (-76, -4));
    lemma_gt_mul_at((66, 94), (66, 94), (65, 37), (-45, 35));
    assert(GT::spow_steps(GT(gt_of(26, 99)), GT(gt_of(66, 94)), 37) == GT::spow_steps(GT(gt_of(86, 76)), GT(gt_of(65, 37)), 18));
    lemma_gt_mul_at((65, 37), (65, 37), (28, 7), (28, 34));
    assert(GT::spow_steps(GT(gt_of(86, 76)), GT(gt_of(65, 37)), 18) == GT::spow_steps(GT(gt_of(86, 76)), GT(gt_of(28, 7)), 9));
    lemma_gt_mul_at((86, 76), (28, 7), (58, 77), (18, 21));
    lemma_gt_mul_at((28, 7), (28, 7), (28, 40), (7, 3));
    assert(GT::spow_steps(GT(gt_of(86, 76)), GT(gt_of(28, 7)), 9) == GT::spow_steps(GT(gt_of(58, 77)), GT(gt_of(28, 40)), 4));
    lemma_gt_mul_at((28, 40), (28, 40), (93, 34), (-9, 6));
    assert(GT::spow_steps(GT(gt_of(58, 77)), GT(gt_of(28, 40)), 4) == GT::spow_steps(GT(gt_of(58, 77)), GT(gt_of(93, 34)), 2));
    lemma_gt_mul_at((93, 34), (93, 34), (19, 17), (74, 51));
    assert(GT::spow_steps(GT(gt_of(58, 77)), GT(gt_of(93, 34)), 2) == GT::spow_steps(GT(gt_of(58, 77)), GT(gt_of(19, 17)), 1));
    lemma_gt_mul_at((58, 77), (19, 17), (96, 29), (-3, 11));
    lemma_gt_mul_at((19, 17), (19, 17), (72, 54), (0, 3));
    assert(GT::spow_steps(GT(gt_of(58, 77)), GT(gt_of(19, 17)), 1) == GT::spow_steps(GT(gt_of(96, 29)), GT(gt_of(72, 54)), 0));
}

/// The pairing of `4G` with the point `30 P` of the image of `H`.
proof fn lemma_pairing_4_30()
    ensures
        smiller_loop(g1p(65, 98), dq(18, 49)) is Some,
        spairing_at(g1p(65, 98), dq(18, 49)) == GT(gt_of(96, 29)),
{
    lemma_final_exponent();
    lemma_tangent_4_30();
    lemma_tangent_8_30();
    lemma_tangent_16_30();
    lemma_tangent_15_30();
    lemma_vertical_at(65, 3, 98, 18, 49);
    lemma_miller_at(
        g1p(65, 98),
        dq(18, 49),
        (g1p(18, 49), g1p(1, 99), g1p(68, 27), g1p(65, 3)),
        (87, 73),
        (82, 95),
        (47, 96),
        (77, 14),
        (-65, 18),
        ((18, 0, 22, 73), (62, 94, 14, 16), (58, 93, -50, 27), (60, 1, -62, 10)),
        ((64, 18, 35, 1), (30, 10, 46, 20), (92, 13, -22, -3)),
    );
    lemma_final_exp_4_30();
}

proof fn lemma_final_exp_5_30()
    ensures
        GT(gt_of(60, 50)).spow(600) == GT(gt_of(71, 57)),
{
    assert(GT::sone() == GT(gt_of(1, 0)));
    lemma_gt_mul_at((60, 50), (60, 50), (90, 66), (10, 34));
    assert(GT::spow_steps(GT(gt_of(1, 0)), GT(gt_of(60, 50)), 600) == GT::spow_steps(GT(gt_of(1, 0)), GT(gt_of(90, 66)), 300));
    lemma_gt_mul_at((90, 66), (90, 66), (7, 50), (37, 74));
    assert(GT::spow_steps(GT(gt_of(1, 0)), GT(gt_of(90, 66)), 300) == GT::spow_steps(GT(gt_of(1, 0)), GT(gt_of(7, 50)), 150));
    lemma_gt_mul_at((7, 50), (7, 50), (74, 18), (-25, -18));
    assert(GT::spow_steps(GT(gt_of(1, 0)), GT(gt_of(7, 50)), 150) == GT::spow_steps(GT(gt_of(1, 0)), GT(gt_of(74, 18)), 75));
    lemma_gt_mul_at((1, 0), (74, 18), (74, 18), (0, 0));
    lemma_gt_mul_at((74, 18), (74, 18), (1, 17), (51, 23));
    assert(GT::spow_steps(GT(gt_of(1, 0)), GT(gt_of(74, 18)), 75) == GT::spow_steps(GT(gt_of(74, 18)), GT(gt_of(1, 17)), 37));
    lemma_gt_mul_at((74, 18), (1, 17), (71, 61), (-3, 9));
    lemma_gt_mul_at((1, 17), (1, 17), (15, 48), (-3, -3));
    assert(GT::spow_steps(GT(gt_of(74, 18)), GT(gt_of(1, 17)), 37) == GT::spow_steps(GT(gt_of(71, 61)), GT(gt_of(15, 48)), 18));
    lemma_gt_mul_at((15, 48), (15, 48), (42, 45), (-21, -9));
    assert(GT::spow_steps(GT(gt_of(71, 61)), GT(gt_of(15, 48)), 18) == GT::spow_steps(GT(gt_of(71, 61)), GT(gt_of(42, 45)), 9));
    lemma_gt_mul_at((71, 61), (42, 45), (35, 83), (2, 29));
    lemma_gt_mul_at((42, 45), (42, 45), (42, 38), (-3, 17));
    assert(GT::spow_steps(GT(gt_of(71, 61)), GT(gt_of(42, 45)), 9) == GT::spow_steps(GT(gt_of(35, 83)), GT(gt_of(42, 38)), 4));
    lemma_gt_mul_at((42, 38), (42, 38), (17, 31), (3, 17));
    assert(GT::spow_steps(GT(gt_of(35, 83)), GT(gt_of(42, 38)), 4) == GT::spow_steps(GT(gt_of(35, 83)), GT(gt_of(17, 31)), 2));
    lemma_gt_mul_at((17, 31), (17, 31), (35, 93), (-7, 0));
    assert(GT::spow_steps(GT(gt_of(35, 83)), GT(gt_of(17, 31)), 2) == GT::spow_steps(GT(gt_of(35, 83)), GT(gt_of(35, 93)), 1));
    lemma_gt_mul_at((35, 83), (35, 93), (71, 57), (-65, -16));
    lemma_gt_mul_at((35, 93), (35, 93), (50, 83), (-74, -22));
    assert(GT::spow_steps(GT(gt_of(35, 83)), GT(gt_of(35, 93)), 1) == GT::spow_steps(GT(gt_of(71, 57)), GT(gt_of(50, 83)), 0));
}

/// The pairing of `5G` with the point `30 P` of the image of `H`.
proof fn lemma_pairing_5_30()
    ensures
        smiller_loop(g1p(12, 32), dq(18, 49)) is Some,
        spairing_at(g1p(12, 32), dq(18, 49)) == GT(gt_of(71, 57)),
{
    lemma_final_exponent();
    lemma_tangent_5_30();
    lemma_tangent_10_30();
    lemma_tangent_3_30();
    lemma_tangent_6_30();
    lemma_vertical_at(12, 69, 32, 18, 49);
    lemma_miller_at(
        g1p(12, 32),
        dq(18, 49),
        (g1p(91, 66), g1p(26, 45), g1p(32, 42), g1p(12, 69)),
        (100, 95),
        (49, 36),
        (64, 36),
        (59, 66),
        (-12, 18),
        ((66, 77, 9, 98), (58, 44, 4, 33), (14, 37, 14, 31), (69, 25, -5, 15)),
        ((96, 98, 40, 27), (4, 95, -8, 55), (60, 50, -18, -28)),
    );
    lemma_final_exp_5_30();
}

proof fn lemma_final_exp_6_30()
    ensures
        GT(gt_of(85, 51)).spow(600) == GT(gt_of(90, 62)),
{
    assert(GT::sone() == GT(gt_of(1, 0)));
    lemma_gt_mul_at((85, 51), (85, 51), (79, 9), (45, 60));
    assert(GT::spow_steps(GT(gt_of(1, 0)), GT(gt_of(85, 51)), 600) == GT::spow_steps(GT(gt_of(1, 0)), GT(gt_of(79, 9)), 300));
    lemma_gt_mul_at((79, 9), (79, 9), (100, 28), (60, 13));
    assert(GT::spow_steps(GT(gt_of(1, 0)), GT(gt_of(79, 9)), 300) == GT::spow_steps(GT(gt_of(1, 0)), GT(gt_of(100, 28)), 150));
    lemma_gt_mul_at((100, 28), (100, 28), (25, 69), (91, 47));
    assert(GT::spow_steps(GT(gt_of(1, 0)), GT(gt_of(100, 28)), 150) == GT::spow_steps(GT(gt_of(1, 0)), GT(gt_of(25, 69)), 75));
    lemma_gt_mul_at((1, 0), (25, 69), (25, 69), (0, 0));
    lemma_gt_mul_at((25, 69), (25, 69), (5, 2), (-41, -13));
    assert(GT::spow_steps(GT(gt_of(1, 0)), GT(gt_of(25, 69)), 75) == GT::spow_steps(GT(gt_of(25, 69)), GT(gt_of(5, 2)), 37));
    lemma_gt_mul_at((25, 69), (5, 2), (88, 55), (-1, 2));
    lemma_gt_mul_at((5, 2), (5, 2), (21, 16), (0, 0));
    assert(GT::spow_steps(GT(gt_of(25, 69)), GT(gt_of(5, 2)), 37) == GT::spow_steps(GT(gt_of(88, 55)), GT(gt_of(21, 16)), 18));
    lemma_gt_mul_at((21, 16), (21, 16), (84, 12), (1, 4));
    assert(GT::spow_steps(GT(gt_of(88, 55)), GT(gt_of(21, 16)), 18) == GT::spow_steps(GT(gt_of(88, 55)), GT(gt_of(84, 12)), 9));
    lemma_gt_mul_at((88, 55), (84, 12), (66, 67), (66, 49));
    lemma_gt_mul_at((84, 12), (84, 12), (44, 54), (68, 18));
    assert(GT::spow_steps(GT(gt_of(88, 55)), GT(gt_of(84, 12)), 9) == GT::spow_steps(GT(gt_of(66, 67)), GT(gt_of(44, 54)), 4));
    lemma_gt_mul_at((44, 54), (44, 54), (30, 18), (-10, 18));
    assert(GT::spow_steps(GT(gt_of(66, 67)), GT(gt_of(44, 54)), 4) == GT::spow_steps(GT(gt_of(66, 67)), GT(gt_of(30, 18)), 2));
    lemma_gt_mul_at((30, 18), (30, 18), (71, 49), (5, 7));
    assert(GT::spow_steps(GT(gt_of(66, 67)), GT(gt_of(30, 18)), 2) == GT::spow_steps(GT(gt_of(66, 67)), GT(gt_of(71, 49)), 1));
    lemma_gt_mul_at((66, 67), (71, 49), (90, 62), (13, 46));
    lemma_gt_mul_at((71, 49), (71, 49), (14, 12), (26, 45));
    assert(GT::spow_steps(GT(gt_of(66, 67)), GT(gt_of(71, 49)), 1) == GT::spow_steps(GT(gt_of(90, 62)), GT(gt_of(14, 12)), 0));
}

/// The pairing of `6G` with the point `30 P` of the image of `H`.
proof fn lemma_pairing_6_30()
    ensures
        smiller_loop(g1p(32, 42), dq(18, 49)) is Some,
        spairing_at(g1p(32, 42), dq(18, 49)) == GT(gt_of(90, 62)),
{
    lemma_final_exponent();
    lemma_tangent_6_30();
    lemma_tangent_12_30();
    lemma_tangent_7_30();
    lemma_tangent_14_30();
    lemma_vertical_at(32, 59, 42, 18, 49);
    lemma_miller_at(
        g1p(32, 42),
        dq(18, 49),
        (g1p(12, 69), g1p(91, 35), g1p(26, 56), g1p(32, 59)),
        (59, 66),
        (16, 65),
        (32, 66),
        (67, 96),
        (-32, 18),
        ((34, 99, -9, 33), (68, 86, -59, -27), (56, 58, -28, 42), (85, 7, -21, 17)),
        ((5, 30, 71, 11), (81, 14, -26, -4), (85, 51, -29, 7)),
    );
    lemma_final_exp_6_30();
}

proof fn lemma_final_exp_7_30()
    ensures
        GT(gt_of(51, 45)).spow(600) == GT(gt_of(78, 3)),
{
    assert(GT::sone() == GT(gt_of(1, 0)));
    lemma_gt_mul_at((51, 45), (51, 45), (71, 40), (5, 25));
    assert(GT::spow_steps(GT(gt_of(1, 0)), GT(gt_of(51, 45)), 600) == GT::spow_steps(GT(gt_of(1, 0)), GT(gt_of(71, 40)), 300));
    lemma_gt_mul_at((71, 40), (71, 40), (7, 40), (34, 40));
    assert(GT::spow_steps(GT(gt_of(1, 0)), GT(gt_of(71, 40)), 300) == GT::spow_steps(GT(gt_of(1, 0)), GT(gt_of(7, 40)), 150));
    lemma_gt_mul_at((7, 40), (7, 40), (65, 71), (-16, -11));
    assert(GT::spow_steps(GT(gt_of(1, 0)), GT(gt_of(7, 40)), 150) == GT::spow_steps(GT(gt_of(1, 0)), GT(gt_of(65, 71)), 75));
    lemma_gt_mul_at((1, 0), (65, 71), (65, 71), (0, 0));
    lemma_gt_mul_at((65, 71), (65, 71), (93, 48), (-9, 41));
    assert(GT::spow_steps(GT(gt_of(1, 0)), GT(gt_of(65, 71)), 75) == GT::spow_steps(GT(gt_of(65, 71)), GT(gt_of(93, 48)), 37));
    lemma_gt_mul_at((65, 71), (93, 48), (11, 53), (26, 62));
    lemma_gt_mul_at((93, 48), (93, 48), (83, 59), (62, 65));
    assert(GT::spow_steps(GT(gt_of(65, 71)), GT(gt_of(93, 48)), 37) == GT::spow_steps(GT(gt_of(11, 53)), GT(gt_of(83, 59)), 18));
    lemma_gt_mul_at((83, 59), (83, 59), (75, 51), (33, 62));
    assert(GT::spow_steps(GT(gt_of(11, 53)), GT(gt_of(83, 59)), 18) == GT::spow_steps(GT(gt_of(11, 53)), GT(gt_of(75, 51)), 9));
    lemma_gt_mul_at((11, 53), (75, 51), (41, 15), (-19, 18));
    lemma_gt_mul_at((75, 51), (75, 51), (95, 100), (29, 49));
    assert(GT::spow_steps(GT(gt_of(11, 53)), GT(gt_of(75, 51)), 9) == GT::spow_steps(GT(gt_of(41, 15)), GT(gt_of(95, 100)), 4));
    lemma_gt_mul_at((95, 100), (95, 100), (35, 11), (-10, 89));
    assert(GT::spow_steps(GT(gt_of(41, 15)), GT(gt_of(95, 100)), 4) == GT::spow_steps(GT(gt_of(41, 15)), GT(gt_of(35, 11)), 2));
    lemma_gt_mul_at((35, 11), (35, 11), (94, 43), (10, 6));
    assert(GT::spow_steps(GT(gt_of(41, 15)), GT(gt_of(35, 11)), 2) == GT::spow_steps(GT(gt_of(41, 15)), GT(gt_of(94, 43)), 1));
    lemma_gt_mul_at((41, 15), (94, 43), (78, 3), (31, 25));
    lemma_gt_mul_at((94, 43), (94, 43), (18, 74), (69, 61));
    assert(GT::spow_steps(GT(gt_of(41, 15)), GT(gt_of(94, 43)), 1) == GT::spow_steps(GT(gt_of(78, 3)), GT(gt_of(18, 74)), 0));
}

/// The pairing of `7G` with the point `30 P` of the image of `H`.
proof fn lemma_pairing_7_30()
    ensures
        smiller_loop(g1p(91, 35), dq(18, 49)) is Some,
        spairing_at(g1p(91, 35), dq(18, 49)) == GT(gt_of(78, 3)),
{
    lemma_final_exponent();
    lemma_tangent_7_30();
    lemma_tangent_14_30();
    lemma_tangent_11_30();
    lemma_tangent_5_30();
    lemma_vertical_at(91, 66, 35, 18, 49);
    lemma_miller_at(
        g1p(91, 35),
        dq(18, 49),
        (g1p(26, 56), g1p(32, 59), g1p(12, 32), g1p(91, 66)),
        (32, 66),
        (67, 96),
        (82, 59),
        (100, 95),
        (-91, 18),
        ((1, 70, -33, -2), (13, 86, -66, -20), (45, 92, -72, -52), (80, 24, -18, 47)),
        ((67, 32, 57, 32), (24, 61, 36, 64), (51, 45, -33, -62)),
    );
    lemma_final_exp_7_30();
}

proof fn lemma_final_exp_8_30()
    ensures
        GT(gt_of(77, 74)).spow(600) == GT(gt_of(93, 81)),
{
    assert(GT::sone() == GT(gt_of(1, 0)));
    lemma_gt_mul_at((77, 74), (77, 74), (49, 62), (4, 58));
    assert(GT::spow_steps(GT(gt_of(1, 0)), GT(gt_of(77, 74)), 600) == GT::spow_steps(GT(gt_of(1, 0)), GT(gt_of(49, 62)), 300));
    lemma_gt_mul_at((49, 62), (49, 62), (72, 10), (-15, 22));
    assert(GT::spow_steps(GT(gt_of(1, 0)), GT(gt_of(49, 62)), 300) == GT::spow_steps(GT(gt_of(1, 0)), GT(gt_of(72, 10)), 150));
    lemma_gt_mul_at((72, 10), (72, 10), (34, 27), (50, 13));
    assert(GT::spow_steps(GT(gt_of(1, 0)), GT(gt_of(72, 10)), 150) == GT::spow_steps(GT(gt_of(1, 0)), GT(gt_of(34, 27)), 75));
    lemma_gt_mul_at((1, 0), (34, 27), (34, 27), (0, 0));
    lemma_gt_mul_at((34, 27), (34, 27), (23, 97), (4, 10));
    assert(GT::spow_steps(GT(gt_of(1, 0)), GT(gt_of(34, 27)), 75) == GT::spow_steps(GT(gt_of(34, 27)), GT(gt_of(23, 97)), 37));
    lemma_gt_mul_at((34, 27), (23, 97), (82, 88), (-19, 12));
    lemma_gt_mul_at((23, 97), (23, 97), (8, 2), (-88, -49));
    assert(GT::spow_steps(GT(gt_of(34, 27)), GT(gt_of(23, 97)), 37) == GT::spow_steps(GT(gt_of(82, 88)), GT(gt_of(8, 2)), 18));
    lemma_gt_mul_at((8, 2), (8, 2), (60, 28), (0, 0));
    assert(GT::spow_steps(GT(gt_of(82, 88)), GT(gt_of(8, 2)), 18) == GT::spow_steps(GT(gt_of(82, 88)), GT(gt_of(60, 28)), 9));
    lemma_gt_mul_at((82, 88), (60, 28), (32, 62), (24, 50));
    lemma_gt_mul_at((60, 28), (60, 28), (89, 51), (27, 25));
    assert(GT::spow_steps(GT(gt_of(82, 88)), GT(gt_of(60, 28)), 9) == GT::spow_steps(GT(gt_of(32, 62)), GT(gt_of(89, 51)), 4));
    lemma_gt_mul_at((89, 51), (89, 51), (68, 13), (52, 64));
    assert(GT::spow_steps(GT(gt_of(32, 62)), GT(gt_of(89, 51)), 4) == GT::spow_steps(GT(gt_of(32, 62)), GT(gt_of(68, 13)), 2));
    lemma_gt_mul_at((68, 13), (68, 13), (11, 84), (44, 15));
    assert(GT::spow_steps(GT(gt_of(32, 62)), GT(gt_of(68, 13)), 2) == GT::spow_steps(GT(gt_of(32, 62)), GT(gt_of(11, 84)), 1));
    lemma_gt_mul_at((32, 62), (11, 84), (93, 81), (-49, -19));
    lemma_gt_mul_at((11, 84), (11, 84), (34, 44), (-69, -52));
    assert(GT::spow_steps(GT(gt_of(32, 62)), GT(gt_of(11, 84)), 1) == GT::spow_steps(GT(gt_of(93, 81)), GT(gt_of(34, 44)), 0));
}

/// The pairing of `8G` with the point `30 P` of the image of `H`.
proof fn lemma_pairing_8_30()
    ensures
        smiller_loop(g1p(18, 49), dq(18, 49)) is Some,
        spairing_at(g1p(18, 49), dq(18, 49)) == GT(gt_of(93, 81)),
{
    lemma_final_exponent();
    lemma_tangent_8_30();
    lemma_tangent_16_30();
    lemma_tangent_15_30();
    lemma_tangent_13_30();
    lemma_vertical_at(18, 52, 49, 18, 49);
    lemma_miller_at(
        g1p(18, 49),
        dq(18, 49),
        (g1p(1, 99), g1p(68, 27), g1p(65, 3), g1p(18, 52)),
        (82, 95),
        (47, 96),
        (77, 14),
        (59, 0),
        (-18, 18),
        ((22, 91, -23, 64), (75, 77, -77, -24), (100, 66, -4, 55), (9, 3, 67, 55)),
        ((72, 45, 0, 0), (6, 29, 42, 26), (77, 74, -7, -10)),
    );
    lemma_final_exp_8_30();
}

proof fn lemma_final_exp_9_30()
    ensures
        GT(gt_of(71, 14)).spow(600) == GT(gt_of(12, 20)),
{
    assert(GT::sone() == GT(gt_of(1, 0)));
    lemma_gt_mul_at((71, 14), (71, 14), (98, 75), (47, 17));
    assert(GT::spow_steps(GT(gt_of(1, 0)), GT(gt_of(71, 14)), 600) == GT::spow_steps(GT(gt_of(1, 0)), GT(gt_of(98, 75)), 300));
    lemma_gt_mul_at((98, 75), (98, 75), (40, 86), (39, 89));
    assert(GT::spow_steps(GT(gt_of(1, 0)), GT(gt_of(98, 75)), 300) == GT::spow_steps(GT(gt_of(1, 0)), GT(gt_of(40, 86)), 150));
    lemma_gt_mul_at((40, 86), (40, 86), (62, 90), (-58, -6));
    assert(GT::spow_steps(GT(gt_of(1, 0)), GT(gt_of(40, 86)), 150) == GT::spow_steps(GT(gt_of(1, 0)), GT(gt_of(62, 90)), 75));
    lemma_gt_mul_at((1, 0), (62, 90), (62, 90), (0, 0));
    lemma_gt_mul_at((62, 90), (62, 90), (87, 30), (-43, 30));
    assert(GT::spow_steps(GT(gt_of(1, 0)), GT(gt_of(62, 90)), 75) == GT::spow_steps(GT(gt_of(62, 90)), GT(gt_of(87, 30)), 37));
    lemma_gt_mul_at((62, 90), (87, 30), (68, 21), (26, 69));
    lemma_gt_mul_at((87, 30), (87, 30), (3, 78), (66, 42));
    assert(GT::spow_steps(GT(gt_of(62, 90)), GT(gt_of(87, 30)), 37) == GT::spow_steps(GT(gt_of(68, 21)), GT(gt_of(3, 78)), 18));
    lemma_gt_mul_at((3, 78), (3, 78), (86, 40), (-61, -56));
    assert(GT::spow_steps(GT(gt_of(68, 21)), GT(gt_of(3, 78)), 18) == GT::spow_steps(GT(gt_of(68, 21)), GT(gt_of(86, 40)), 9));
    lemma_gt_mul_at((68, 21), (86, 40), (59, 50), (49, 36));
    lemma_gt_mul_at((86, 40), (86, 40), (39, 28), (57, 52));
    assert(GT::spow_steps(GT(gt_of(68, 21)), GT(gt_of(86, 40)), 9) == GT::spow_steps(GT(gt_of(59, 50)), GT(gt_of(39, 28)), 4));
    lemma_gt_mul_at((39, 28), (39, 28), (30, 87), (7, 13));
    assert(GT::spow_steps(GT(gt_of(59, 50)), GT(gt_of(39, 28)), 4) == GT::spow_steps(GT(gt_of(59, 50)), GT(gt_of(30, 87)), 2));
    lemma_gt_mul_at((30, 87), (30, 87), (98, 75), (-67, -24));
    assert(GT::spow_steps(GT(gt_of(59, 50)), GT(gt_of(30, 87)), 2) == GT::spow_steps(GT(gt_of(59, 50)), GT(gt_of(98, 75)), 1));
    lemma_gt_mul_at((59, 50), (98, 75), (12, 20), (20, 55));
    lemma_gt_mul_at((98, 75), (98, 75), (40, 86), (39, 89));
    assert(GT::spow_steps(GT(gt_of(59, 50)), GT(gt_of(98, 75)), 1) == GT::spow_steps(GT(gt_of(12, 20)), GT(gt_of(40, 86)), 0));
}

/// The pairing of `9G` with the point `30 P` of the image of `H`.
proof fn lemma_pairing_9_30()
    ensures
        smiller_loop(g1p(18, 52), dq(18, 49)) is Some,
        spairing_at(g1p(18, 52), dq(18, 49)) == GT(gt_of(12, 20)),
{
    lemma_final_exponent();
    lemma_tangent_9_30();
    lemma_tangent_1_30();
    lemma_tangent_2_30();
    lemma_tangent_4_30();
    lemma_vertical_at(18, 49, 52, 18, 49);
    lemma_miller_at(
        g1p(18, 52),
        dq(18, 49),
        (g1p(1, 2), g1p(68, 74), g1p(65, 98), g1p(18, 49)),
        (28, 73),
        (4, 65),
        (52, 59),
        (87, 73),
        (-18, 18),
        ((0, 72, -45, -13), (67, 52, -47, -44), (68, 22, 17, 42), (16, 20, 22, 38)),
        ((58, 38, -2, 2), (50, 19, 22, 47), (71, 14, -13, 2)),
    );
    lemma_final_exp_9_30();
}

proof fn lemma_final_exp_10_30()
    ensures
        GT(gt_of(51, 98)).spow(600) == GT(gt_of(75, 98)),
{
    assert(GT::sone() == GT(gt_of(1, 0)));
    lemma_gt_mul_at((51, 98), (51, 98), (67, 89), (-70, 3));
    assert(GT::spow_steps(GT(gt_of(1, 0)), GT(gt_of(51, 98)), 600) == GT::spow_steps(GT(gt_of(1, 0)), GT(gt_of(67, 89)), 300));
    lemma_gt_mul_at((67, 89), (67, 89), (2, 66), (-34, 39));
    assert(GT::spow_steps(GT(gt_of(1, 0)), GT(gt_of(67, 89)), 300) == GT::spow_steps(GT(gt_of(1, 0)), GT(gt_of(2, 66)), 150));
    lemma_gt_mul_at((2, 66), (2, 66), (92, 49), (-44, -41));
    assert(GT::spow_steps(GT(gt_of(1, 0)), GT(gt_of(2, 66)), 150) == GT::spow_steps(GT(gt_of(1, 0)), GT(gt_of(92, 49)), 75));
    lemma_gt_mul_at((1, 0), (92, 49), (92, 49), (0, 0));
    lemma_gt_mul_at((92, 49), (92, 49), (3, 50), (60, 65));
    assert(GT::spow_steps(GT(gt_of(1, 0)), GT(gt_of(92, 49)), 75) == GT::spow_steps(GT(gt_of(92, 49)), GT(gt_of(3, 50)), 37));
    lemma_gt_mul_at((92, 49), (3, 50), (48, 75), (-22, 22));
    lemma_gt_mul_at((3, 50), (3, 50), (34, 22), (-25, -22));
    assert(GT::spow_steps(GT(gt_of(92, 49)), GT(gt_of(3, 50)), 37) == GT::spow_steps(GT(gt_of(48, 75)), GT(gt_of(34, 22)), 18));
    lemma_gt_mul_at((34, 22), (34, 22), (66, 2), (6, 10));
    assert(GT::spow_steps(GT(gt_of(48, 75)), GT(gt_of(34, 22)), 18) == GT::spow_steps(GT(gt_of(48, 75)), GT(gt_of(66, 2)), 9));
    lemma_gt_mul_at((48, 75), (66, 2), (89, 48), (29, 48));
    lemma_gt_mul_at((66, 2), (66, 2), (9, 58), (43, 2));
    assert(GT::spow_steps(GT(gt_of(48, 75)), GT(gt_of(66, 2)), 9) == GT::spow_steps(GT(gt_of(89, 48)), GT(gt_of(9, 58)), 4));
    lemma_gt_mul_at((9, 58), (9, 58), (50, 3), (-33, -23));
    assert(GT::spow_steps(GT(gt_of(89, 48)), GT(gt_of(9, 58)), 4) == GT::spow_steps(GT(gt_of(89, 48)), GT(gt_of(50, 3)), 2));
    lemma_gt_mul_at((50, 3), (50, 3), (67, 89), (24, 2));
    assert(GT::spow_steps(GT(gt_of(89, 48)), GT(gt_of(50, 3)), 2) == GT::spow_steps(GT(gt_of(89, 48)), GT(gt_of(67, 89)), 1));
    lemma_gt_mul_at((89, 48), (67, 89), (75, 98), (16, 67));
    lemma_gt_mul_at((67, 89), (67, 89), (2, 66), (-34, 39));
    assert(GT::spow_steps(GT(gt_of(89, 48)), GT(gt_of(67, 89)), 1) == GT::spow_steps(GT(gt_of(75, 98)), GT(gt_of(2, 66)), 0));
}

/// The pairing of `10G` with the point `30 P` of the image of `H`.
proof fn lemma_pairing_10_30()
    ensures
        smiller_loop(g1p(91, 66), dq(18, 49)) is Some,
        spairing_at(g1p(91, 66), dq(18, 49)) == GT(gt_of(75, 98)),
{
    lemma_final_exponent();
    lemma_tangent_10_30();
    lemma_tangent_3_30();
    lemma_tangent_6_30();
    lemma_tangent_12_30();
    lemma_vertical_at(91, 35, 66, 18, 49);
    lemma_miller_at(
        g1p(91, 66),
        dq(18, 49),
        (g1p(26, 45), g1p(32, 42), g1p(12, 69), g1p(91, 35)),
        (49, 36),
        (64, 36),
        (59, 66),
        (16, 65),
        (-91, 18),
        ((95, 10, 10, 22), (64, 64, 56, 36), (0, 56, 0, 40), (41, 12, -37, -4)),
        ((22, 32, 15, 8), (90, 64, -18, -2), (51, 98, -93, -54)),
    );
    lemma_final_exp_10_30();
}

proof fn lemma_final_exp_11_30()
    ensures
        GT(gt_of(63, 4)).spow(600) == GT(gt_of(28, 39)),
{
    assert(GT::sone() == GT(gt_of(1, 0)));
    lemma_gt_mul_at((63, 4), (63, 4), (14, 84), (39, 4));
    assert(GT::spow_steps(GT(gt_of(1, 0)), GT(gt_of(63, 4)), 600) == GT::spow_steps(GT(gt_of(1, 0)), GT(gt_of(14, 84)), 300));
    lemma_gt_mul_at((14, 84), (14, 84), (8, 43), (-68, -47));
    assert(GT::spow_steps(GT(gt_of(1, 0)), GT(gt_of(14, 84)), 300) == GT::spow_steps(GT(gt_of(1, 0)), GT(gt_of(8, 43)), 150));
    lemma_gt_mul_at((8, 43), (8, 43), (33, 51), (-18, -12));
    assert(GT::spow_steps(GT(gt_of(1, 0)), GT(gt_of(8, 43)), 150) == GT::spow_steps(GT(gt_of(1, 0)), GT(gt_of(33, 51)), 75));
    lemma_gt_mul_at((1, 0), (33, 51), (33, 51), (0, 0));
    lemma_gt_mul_at((33, 51), (33, 51), (3, 58), (-15, 7));
    assert(GT::spow_steps(GT(gt_of(1, 0)), GT(gt_of(33, 51)), 75) == GT::spow_steps(GT(gt_of(33, 51)), GT(gt_of(3, 58)), 37));
    lemma_gt_mul_at((33, 51), (3, 58), (70, 18), (-29, -9));
    lemma_gt_mul_at((3, 58), (3, 58), (79, 14), (-34, -30));
    assert(GT::spow_steps(GT(gt_of(33, 51)), GT(gt_of(3, 58)), 37) == GT::spow_steps(GT(gt_of(70, 18)), GT(gt_of(79, 14)), 18));
    lemma_gt_mul_at((79, 14), (79, 14), (86, 97), (59, 19));
    assert(GT::spow_steps(GT(gt_of(70, 18)), GT(gt_of(79, 14)), 18) == GT::spow_steps(GT(gt_of(70, 18)), GT(gt_of(86, 97)), 9));
    lemma_gt_mul_at((70, 18), (86, 97), (32, 27), (42, 65));
    lemma_gt_mul_at((86, 97), (86, 97), (7, 3), (-20, 72));
    assert(GT::spow_steps(GT(gt_of(70, 18)), GT(gt_of(86, 97)), 9) == GT::spow_steps(GT(gt_of(32, 27)), GT(gt_of(7, 3)), 4));
    lemma_gt_mul_at((7, 3), (7, 3), (40, 33), (0, 0));
    assert(GT::spow_steps(GT(gt_of(32, 27)), GT(gt_of(7, 3)), 4) == GT::spow_steps(GT(gt_of(32, 27)), GT(gt_of(40, 33)), 2));
    lemma_gt_mul_at((40, 33), (40, 33), (6, 36), (5, 15));
    assert(GT::spow_steps(GT(gt_of(32, 27)), GT(gt_of(40, 33)), 2) == GT::spow_steps(GT(gt_of(32, 27)), GT(gt_of(6, 36)), 1));
    lemma_gt_mul_at((32, 27), (6, 36), (28, 39), (-8, 3));
    lemma_gt_mul_at((6, 36), (6, 36), (53, 45), (-13, -9));
    assert(GT::spow_steps(GT(gt_of(32, 27)), GT(gt_of(6, 36)), 1) == GT::spow_steps(GT(gt_of(28, 39)), GT(gt_of(53, 45)), 0));
}

/// The pairing of `11G` with the point `30 P` of the image of `H`.
proof fn lemma_pairing_11_30()
    ensures
        smiller_loop(g1p(32, 59), dq(18, 49)) is Some,
        spairing_at(g1p(32, 59), dq(18, 49)) == GT(gt_of(28, 39)),
{
    lemma_final_exponent();
    lemma_tangent_11_30();
    lemma_tangent_5_30();
    lemma_tangent_10_30();
    lemma_tangent_3_30();
    lemma_vertical_at(32, 42, 59, 18, 49);
    lemma_miller_at(
        g1p(32, 59),
        dq(18, 49),
        (g1p(12, 32), g1p(91, 66), g1p(26, 45), g1p(32, 42)),
        (82, 59),
        (100, 95),
        (49, 36),
        (64, 36),
        (-32, 18),
        ((11, 34, 32, 61), (92, 3, -22, 12), (72, 38, 83, 5), (39, 56, 21, 30)),
        ((1, 20, -16, 12), (51, 91, -7, 5), (63, 4, -33, -36)),
    );
    lemma_final_exp_11_30();
}

proof fn lemma_final_exp_12_30()
    ensures
        GT(gt_of(89, 26)).spow(600) == GT(gt_of(14, 44)),
{
    assert(GT::sone() == GT(gt_of(1, 0)));
    lemma_gt_mul_at((89, 26), (89, 26), (74, 13), (71, 39));
    assert(GT::spow_steps(GT(gt_of(1, 0)), GT(gt_of(89, 26)), 600) == GT::spow_steps(GT(gt_of(1, 0)), GT(gt_of(74, 13)), 300));
    lemma_gt_mul_at((74, 13), (74, 13), (55, 38), (52, 17));
    assert(GT::spow_steps(GT(gt_of(1, 0)), GT(gt_of(74, 13)), 300) == GT::spow_steps(GT(gt_of(1, 0)), GT(gt_of(55, 38)), 150));
    lemma_gt_mul_at((55, 38), (55, 38), (66, 9), (15, 27));
    assert(GT::spow_steps(GT(gt_of(1, 0)), GT(gt_of(55, 38)), 150) == GT::spow_steps(GT(gt_of(1, 0)), GT(gt_of(66, 9)), 75));
    lemma_gt_mul_at((1, 0), (66, 9), (66, 9), (0, 0));
    lemma_gt_mul_at((66, 9), (66, 9), (33, 97), (42, 10));
    assert(GT::spow_steps(GT(gt_of(1, 0)), GT(gt_of(66, 9)), 75) == GT::spow_steps(GT(gt_of(66, 9)), GT(gt_of(33, 97)), 37));
    lemma_gt_mul_at((66, 9), (33, 97), (93, 69), (12, 57));
    lemma_gt_mul_at((33, 97), (33, 97), (63, 23), (-83, -30));
    assert(GT::spow_steps(GT(gt_of(66, 9)), GT(gt_of(33, 97)), 37) == GT::spow_steps(GT(gt_of(93, 69)), GT(gt_of(63, 23)), 18));
    lemma_gt_mul_at((63, 23), (63, 23), (6, 46), (34, 23));
    assert(GT::spow_steps(GT(gt_of(93, 69)), GT(gt_of(63, 23)), 18) == GT::spow_steps(GT(gt_of(93, 69)), GT(gt_of(6, 46)), 9));
    lemma_gt_mul_at((93, 69), (6, 46), (10, 3), (-26, 15));
    lemma_gt_mul_at((6, 46), (6, 46), (41, 52), (-21, -16));
    assert(GT::spow_steps(GT(gt_of(93, 69)), GT(gt_of(6, 46)), 9) == GT::spow_steps(GT(gt_of(10, 3)), GT(gt_of(41, 52)), 4));
    lemma_gt_mul_at((41, 52), (41, 52), (88, 45), (-11, 15));
    assert(GT::spow_steps(GT(gt_of(10, 3)), GT(gt_of(41, 52)), 4) == GT::spow_steps(GT(gt_of(10, 3)), GT(gt_of(88, 45)), 2));
    lemma_gt_mul_at((88, 45), (88, 45), (63, 37), (56, 58));
    assert(GT::spow_steps(GT(gt_of(10, 3)), GT(gt_of(88, 45)), 2) == GT::spow_steps(GT(gt_of(10, 3)), GT(gt_of(63, 37)), 1));
    lemma_gt_mul_at((10, 3), (63, 37), (14, 44), (5, 4));
    lemma_gt_mul_at((63, 37), (63, 37), (75, 61), (25, 32));
    assert(GT::spow_steps(GT(gt_of(10, 3)), GT(gt_of(63, 37)), 1) == GT::spow_steps(GT(gt_of(14, 44)), GT(gt_of(75, 61)), 0));
}

/// The pairing of `12G` with the point `30 P` of the image of `H`.
proof fn lemma_pairing_12_30()
    ensures
        smiller_loop(g1p(12, 69), dq(18, 49)) is Some,
        spairing_at(g1p(12, 69), dq(18, 49)) == GT(gt_of(14, 44)),
{
    lemma_final_exponent();
    lemma_tangent_12_30();
    lemma_tangent_7_30();
    lemma_tangent_14_30();
    lemma_tangent_11_30();
    lemma_vertical_at(12, 32, 69, 18, 49);
    lemma_miller_at(
        g1p(12, 69),
        dq(18, 49),
        (g1p(91, 35), g1p(26, 56), g1p(32, 59), g1p(12, 32)),
        (16, 65),
        (32, 66),
        (67, 96),
        (82, 59),
        (-12, 18),
        ((71, 77, -40, -22), (18, 48, -28, 20), (40, 30, -20, -6), (2, 41, -2, 29)),
        ((40, 99, -17, -16), (65, 92, -26, 45), (89, 26, -25, -16)),
    );
    lemma_final_exp_12_30();
}

proof fn lemma_final_exp_13_30()
    ensures
        GT(gt_of(43, 28)).spow(600) == GT(gt_of(67, 72)),
{
    assert(GT::sone() == GT(gt_of(1, 0)));
    lemma_gt_mul_at((43, 28), (43, 28), (55, 8), (10, 16));
    assert(GT::spow_steps(GT(gt_of(1, 0)), GT(gt_of(43, 28)), 600) == GT::spow_steps(GT(gt_of(1, 0)), GT(gt_of(55, 8)), 300));
    lemma_gt_mul_at((55, 8), (55, 8), (32, 8), (29, 8));
    assert(GT::spow_steps(GT(gt_of(1, 0)), GT(gt_of(55, 8)), 300) == GT::spow_steps(GT(gt_of(1, 0)), GT(gt_of(32, 8)), 150));
    lemma_gt_mul_at((32, 8), (32, 8), (51, 44), (9, 4));
    assert(GT::spow_steps(GT(gt_of(1, 0)), GT(gt_of(32, 8)), 150) == GT::spow_steps(GT(gt_of(1, 0)), GT(gt_of(51, 44)), 75));
    lemma_gt_mul_at((1, 0), (51, 44), (51, 44), (0, 0));
    lemma_gt_mul_at((51, 44), (51, 44), (59, 27), (6, 25));
    assert(GT::spow_steps(GT(gt_of(1, 0)), GT(gt_of(51, 44)), 75) == GT::spow_steps(GT(gt_of(51, 44)), GT(gt_of(59, 27)), 37));
    lemma_gt_mul_at((51, 44), (59, 27), (3, 58), (18, 27));
    lemma_gt_mul_at((59, 27), (59, 27), (25, 33), (27, 24));
    assert(GT::spow_steps(GT(gt_of(51, 44)), GT(gt_of(59, 27)), 37) == GT::spow_steps(GT(gt_of(3, 58)), GT(gt_of(25, 33)), 18));
    lemma_gt_mul_at((25, 33), (25, 33), (41, 56), (-5, 5));
    assert(GT::spow_steps(GT(gt_of(3, 58)), GT(gt_of(25, 33)), 18) == GT::spow_steps(GT(gt_of(3, 58)), GT(gt_of(41, 56)), 9));
    lemma_gt_mul_at((3, 58), (41, 56), (6, 5), (-31, -7));
    lemma_gt_mul_at((41, 56), (41, 56), (60, 42), (-15, 14));
    assert(GT::spow_steps(GT(gt_of(3, 58)), GT(gt_of(41, 56)), 9) == GT::spow_steps(GT(gt_of(6, 5)), GT(gt_of(60, 42)), 4));
    lemma_gt_mul_at((60, 42), (60, 42), (18, 44), (18, 32));
    assert(GT::spow_steps(GT(gt_of(6, 5)), GT(gt_of(60, 42)), 4) == GT::spow_steps(GT(gt_of(6, 5)), GT(gt_of(18, 44)), 2));
    lemma_gt_mul_at((18, 44), (18, 44), (4, 52), (-16, -4));
    assert(GT::spow_steps(GT(gt_of(6, 5)), GT(gt_of(18, 44)), 2) == GT::spow_steps(GT(gt_of(6, 5)), GT(gt_of(4, 52)), 1));
    lemma_gt_mul_at((6, 5), (4, 52), (67, 72), (-3, 0));
    lemma_gt_mul_at((4, 52), (4, 52), (39, 35), (-27, -23));
    assert(GT::spow_steps(GT(gt_of(6, 5)), GT(gt_of(4, 52)), 1) == GT::spow_steps(GT(gt_of(67, 72)), GT(gt_of(39, 35)), 0));
}

/// The pairing of `13G` with the point `30 P` of the image of `H`.
proof fn lemma_pairing_13_30()
    ensures
        smiller_loop(g1p(65, 3), dq(18, 49)) is Some,
        spairing_at(g1p(65, 3), dq(18, 49)) == GT(gt_of(67, 72)),
{
    lemma_final_exponent();
    lemma_tangent_13_30();
    lemma_tangent_9_30();
    lemma_tangent_1_30();
    lemma_tangent_2_30();
    lemma_vertical_at(65, 98, 3, 18, 49);
    lemma_miller_at(
        g1p(65, 3),
        dq(18, 49),
        (g1p(18, 52), g1p(1, 2), g1p(68, 74), g1p(65, 98)),
        (59, 0),
        (28, 73),
        (4, 65),
        (52, 59),
        (-65, 18),
        ((47, 0, 34, 0), (3, 98, 13, 33), (0, 74, -95, -90), (38, 31, -48, -45)),
        ((79, 82, 4, 13), (78, 47, -8, 40), (43, 28, -59, -25)),
    );
    lemma_final_exp_13_30();
}

proof fn lemma_final_exp_14_30()
    ensures
        GT(gt_of(55, 71)).spow(600) == GT(gt_of(15, 55)),
{
    assert(GT::sone() == GT(gt_of(1, 0)));
    lemma_gt_mul_at((55, 71), (55, 71), (4, 42), (-20, 27));
    assert(GT::spow_steps(GT(gt_of(1, 0)), GT(gt_of(55, 71)), 600) == GT::spow_steps(GT(gt_of(1, 0)), GT(gt_of(4, 42)), 300));
    lemma_gt_mul_at((4, 42), (4, 42), (70, 87), (-18, -15));
    assert(GT::spow_steps(GT(gt_of(1, 0)), GT(gt_of(4, 42)), 300) == GT::spow_steps(GT(gt_of(1, 0)), GT(gt_of(70, 87)), 150));
    lemma_gt_mul_at((70, 87), (70, 87), (58, 66), (-27, 45));
    assert(GT::spow_steps(GT(gt_of(1, 0)), GT(gt_of(70, 87)), 150) == GT::spow_steps(GT(gt_of(1, 0)), GT(gt_of(58, 66)), 75));
    lemma_gt_mul_at((1, 0), (58, 66), (58, 66), (0, 0));
    lemma_gt_mul_at((58, 66), (58, 66), (18, 68), (-10, 32));
    assert(GT::spow_steps(GT(gt_of(1, 0)), GT(gt_of(58, 66)), 75) == GT::spow_steps(GT(gt_of(58, 66)), GT(gt_of(18, 68)), 37));
    lemma_gt_mul_at((58, 66), (18, 68), (91, 38), (-35, 6));
    lemma_gt_mul_at((18, 68), (18, 68), (43, 46), (-43, -22));
    assert(GT::spow_steps(GT(gt_of(58, 66)), GT(gt_of(18, 68)), 37) == GT::spow_steps(GT(gt_of(91, 38)), GT(gt_of(43, 46)), 18));
    lemma_gt_mul_at((43, 46), (43, 46), (36, 22), (-3, 18));
    assert(GT::spow_steps(GT(gt_of(91, 38)), GT(gt_of(43, 46)), 18) == GT::spow_steps(GT(gt_of(91, 38)), GT(gt_of(36, 22)), 9));
    lemma_gt_mul_at((91, 38), (36, 22), (16, 9), (24, 25));
    lemma_gt_mul_at((36, 22), (36, 22), (4, 90), (8, 10));
    assert(GT::spow_steps(GT(gt_of(91, 38)), GT(gt_of(36, 22)), 9) == GT::spow_steps(GT(gt_of(16, 9)), GT(gt_of(4, 90)), 4));
    lemma_gt_mul_at((4, 90), (4, 90), (97, 94), (-81, -74));
    assert(GT::spow_steps(GT(gt_of(16, 9)), GT(gt_of(4, 90)), 4) == GT::spow_steps(GT(gt_of(16, 9)), GT(gt_of(97, 94)), 2));
    lemma_gt_mul_at((97, 94), (97, 94), (68, 7), (5, 93));
    assert(GT::spow_steps(GT(gt_of(16, 9)), GT(gt_of(97, 94)), 2) == GT::spow_steps(GT(gt_of(16, 9)), GT(gt_of(68, 7)), 1));
    lemma_gt_mul_at((16, 9), (68, 7), (15, 55), (10, 6));
    lemma_gt_mul_at((68, 7), (68, 7), (30, 95), (45, 8));
    assert(GT::spow_steps(GT(gt_of(16, 9)), GT(gt_of(68, 7)), 1) == GT::spow_steps(GT(gt_of(15, 55)), GT(gt_of(30, 95)), 0));
}

/// The pairing of `14G` with the point `30 P` of the image of `H`.
proof fn lemma_pairing_14_30()
    ensures
        smiller_loop(g1p(26, 56), dq(18, 49)) is Some,
        spairing_at(g1p(26, 56), dq(18, 49)) == GT(gt_of(15, 55)),
{
    lemma_final_exponent();
    lemma_tangent_14_30();
    lemma_tangent_11_30();
    lemma_tangent_5_30();
    lemma_tangent_10_30();
    lemma_vertical_at(26, 45, 56, 18, 49);
    lemma_miller_at(
        g1p(26, 56),
        dq(18, 49),
        (g1p(32, 59), g1p(12, 32), g1p(91, 66), g1p(26, 45)),
        (67, 96),
        (82, 59),
        (100, 95),
        (49, 36),
        (-26, 18),
        ((20, 12, -47, 36), (23, 42, 9, 14), (78, 67, -13, 1), (21, 69, 14, 76)),
        ((23, 56, -43, -19), (20, 41, -9, 15), (55, 71, -13, -15)),
    );
    lemma_final_exp_14_30();
}

proof fn lemma_final_exp_15_30()
    ensures
        GT(gt_of(77, 64)).spow(600) == GT(gt_of(42, 92)),
{
    assert(GT::sone() == GT(gt_of(1, 0)));
    lemma_gt_mul_at((77, 64), (77, 64), (15, 3), (18, 57));
    assert(GT::spow_steps(GT(gt_of(1, 0)), GT(gt_of(77, 64)), 600) == GT::spow_steps(GT(gt_of(1, 0)), GT(gt_of(15, 3)), 300));
    lemma_gt_mul_at((15, 3), (15, 3), (14, 81), (2, 0));
    assert(GT::spow_steps(GT(gt_of(1, 0)), GT(gt_of(15, 3)), 300) == GT::spow_steps(GT(gt_of(1, 0)), GT(gt_of(14, 81)), 150));
    lemma_gt_mul_at((14, 81), (14, 81), (99, 50), (-64, -43));
    assert(GT::spow_steps(GT(gt_of(1, 0)), GT(gt_of(14, 81)), 150) == GT::spow_steps(GT(gt_of(1, 0)), GT(gt_of(99, 50)), 75));
    lemma_gt_mul_at((1, 0), (99, 50), (99, 50), (0, 0));
    lemma_gt_mul_at((99, 50), (99, 50), (29, 27), (72, 73));
    assert(GT::spow_steps(GT(gt_of(1, 0)), GT(gt_of(99, 50)), 75) == GT::spow_steps(GT(gt_of(99, 50)), GT(gt_of(29, 27)), 37));
    lemma_gt_mul_at((99, 50), (29, 27), (6, 46), (15, 27));
    lemma_gt_mul_at((29, 27), (29, 27), (11, 29), (1, 8));
    assert(GT::spow_steps(GT(gt_of(99, 50)), GT(gt_of(29, 27)), 37) == GT::spow_steps(GT(gt_of(6, 46)), GT(gt_of(11, 29)), 18));
    lemma_gt_mul_at((11, 29), (11, 29), (88, 100), (-8, -3));
    assert(GT::spow_steps(GT(gt_of(6, 46)), GT(gt_of(11, 29)), 18) == GT::spow_steps(GT(gt_of(6, 46)), GT(gt_of(88, 100)), 9));
    lemma_gt_mul_at((6, 46), (88, 100), (69, 48), (-41, 0));
    lemma_gt_mul_at((88, 100), (88, 100), (67, 25), (-23, 75));
    assert(GT::spow_steps(GT(gt_of(6, 46)), GT(gt_of(88, 100)), 9) == GT::spow_steps(GT(gt_of(69, 48)), GT(gt_of(67, 25)), 4));
    lemma_gt_mul_at((67, 25), (67, 25), (26, 99), (38, 26));
    assert(GT::spow_steps(GT(gt_of(69, 48)), GT(gt_of(67, 25)), 4) == GT::spow_steps(GT(gt_of(69, 48)), GT(gt_of(26, 99)), 2));
    lemma_gt_mul_at((26, 99), (26, 99), (66, 94), (-91, -47));
    assert(GT::spow_steps(GT(gt_of(69, 48)), GT(gt_of(26, 99)), 2) == GT::spow_steps(GT(gt_of(69, 48)), GT(gt_of(66, 94)), 1));
    lemma_gt_mul_at((69, 48), (66, 94), (42, 92), (0, 50));
    lemma_gt_mul_at((66, 94), (66, 94), (65, 37), (-45, 35));
    assert(GT::spow_steps(GT(gt_of(69, 48)), GT(gt_of(66, 94)), 1) == GT::spow_steps(GT(gt_of(42, 92)), GT(gt_of(65, 37)), 0));
}

/// The pairing of `15G` with the point `30 P` of the image of `H`.
proof fn lemma_pairing_15_30()
    ensures
        smiller_loop(g1p(68, 27), dq(18, 49)) is Some,
        spairing_at(g1p(68, 27), dq(18, 49)) == GT(gt_of(42, 92)),
{
    lemma_final_exponent();
    lemma_tangent_15_30();
    lemma_tangent_13_30();
    lemma_tangent_9_30();
    lemma_tangent_1_30();
    lemma_vertical_at(68, 74, 27, 18, 49);
    lemma_miller_at(
        g1p(68, 27),
        dq(18, 49),
        (g1p(65, 3), g1p(18, 52), g1p(1, 2), g1p(68, 74)),
        (77, 14),
        (59, 0),
        (28, 73),
        (4, 65),
        (-68, 18),
        ((77, 41, 56, 19), (99, 96, 44, 23), (80, 96, 5, 96), (80, 5, -48, 15)),
        ((12, 68, 63, 7), (72, 66, -44, -34), (77, 64, -61, -44)),
    );
    lemma_final_exp_15_30();
}

proof fn lemma_final_exp_16_30()
    ensures
        GT(gt_of(95, 77)).spow(600) == GT(gt_of(68, 21)),
{
    assert(GT::sone() == GT(gt_of(1, 0)));
    lemma_gt_mul_at((95, 77), (95, 77), (66, 15), (30, 86));
    assert(GT::spow_steps(GT(gt_of(1, 0)), GT(gt_of(95, 77)), 600) == GT::spow_steps(GT(gt_of(1, 0)), GT(gt_of(66, 15)), 300));
    lemma_gt_mul_at((66, 15), (66, 15), (91, 38), (40, 17));
    assert(GT::spow_steps(GT(gt_of(1, 0)), GT(gt_of(66, 15)), 300) == GT::spow_steps(GT(gt_of(1, 0)), GT(gt_of(91, 38)), 150));
    lemma_gt_mul_at((91, 38), (91, 38), (70, 18), (67, 54));
    assert(GT::spow_steps(GT(gt_of(1, 0)), GT(gt_of(91, 38)), 150) == GT::spow_steps(GT(gt_of(1, 0)), GT(gt_of(70, 18)), 75));
    lemma_gt_mul_at((1, 0), (70, 18), (70, 18), (0, 0));
    lemma_gt_mul_at((70, 18), (70, 18), (31, 75), (45, 21));
    assert(GT::spow_steps(GT(gt_of(1, 0)), GT(gt_of(70, 18)), 75) == GT::spow_steps(GT(gt_of(70, 18)), GT(gt_of(31, 75)), 37));
    lemma_gt_mul_at((70, 18), (31, 75), (12, 14), (8, 44));
    lemma_gt_mul_at((31, 75), (31, 75), (83, 35), (-47, -10));
    assert(GT::spow_steps(GT(gt_of(70, 18)), GT(gt_of(31, 75)), 37) == GT::spow_steps(GT(gt_of(12, 14)), GT(gt_of(83, 35)), 18));
    lemma_gt_mul_at((83, 35), (83, 35), (8, 40), (56, 45));
    assert(GT::spow_steps(GT(gt_of(12, 14)), GT(gt_of(83, 35)), 18) == GT::spow_steps(GT(gt_of(12, 14)), GT(gt_of(8, 40)), 9));
    lemma_gt_mul_at((12, 14), (8, 40), (41, 32), (-5, 0));
    lemma_gt_mul_at((8, 40), (8, 40), (80, 50), (-16, -10));
    assert(GT::spow_steps(GT(gt_of(12, 14)), GT(gt_of(8, 40)), 9) == GT::spow_steps(GT(gt_of(41, 32)), GT(gt_of(80, 50)), 4));
    lemma_gt_mul_at((80, 50), (80, 50), (62, 46), (38, 54));
    assert(GT::spow_steps(GT(gt_of(41, 32)), GT(gt_of(80, 50)), 4) == GT::spow_steps(GT(gt_of(41, 32)), GT(gt_of(62, 46)), 2));
    lemma_gt_mul_at((62, 46), (62, 46), (11, 53), (17, 35));
    assert(GT::spow_steps(GT(gt_of(41, 32)), GT(gt_of(62, 46)), 2) == GT::spow_steps(GT(gt_of(41, 32)), GT(gt_of(11, 53)), 1));
    lemma_gt_mul_at((41, 32), (11, 53), (68, 21), (-13, 8));
    lemma_gt_mul_at((11, 53), (11, 53), (39, 74), (-27, -17));
    assert(GT::spow_steps(GT(gt_of(41, 32)), GT(gt_of(11, 53)), 1) == GT::spow_steps(GT(gt_of(68, 21)), GT(gt_of(39, 74)), 0));
}

/// The pairing of `16G` with the point `30 P` of the image of `H`.
proof fn lemma_pairing_16_30()
    ensures
        smiller_loop(g1p(1, 99), dq(18, 49)) is Some,
        spairing_at(g1p(1, 99), dq(18, 49)) == GT(gt_of(68, 21)),
{
    lemma_final_exponent();
    lemma_tangent_16_30();
    lemma_tangent_15_30();
    lemma_tangent_13_30();
    lemma_tangent_9_30();
    lemma_vertical_at(1, 2, 99, 18, 49);
    lemma_miller_at(
        g1p(1, 99),
        dq(18, 49),
        (g1p(68, 27), g1p(65, 3), g1p(18, 52), g1p(1, 2)),
        (47, 96),
        (77, 14),
        (59, 0),
        (28, 73),
        (-1, 18),
        ((63, 10, -70, -2), (65, 98, 46, 14), (75, 5, -54, 31), (82, 93, 43, 2)),
        ((95, 38, -20, 65), (88, 74, -2, 51), (95, 77, -15, 1)),
    );
    lemma_final_exp_16_30();
}

proof fn lemma_final_exp_1_31()
    ensures
        GT(gt_of(19, 100)).spow(600) == GT(gt_of(71, 57)),
{
    assert(GT::sone() == GT(gt_of(1, 0)));
    lemma_gt_mul_at((19, 100), (19, 100), (57, 62), (-96, -62));
    assert(GT::spow_steps(GT(gt_of(1, 0)), GT(gt_of(19, 100)), 600) == GT::spow_steps(GT(gt_of(1, 0)), GT(gt_of(57, 62)), 300));
    lemma_gt_mul_at((57, 62), (57, 62), (11, 93), (-6, 31));
    assert(GT::spow_steps(GT(gt_of(1, 0)), GT(gt_of(57, 62)), 300) == GT::spow_steps(GT(gt_of(1, 0)), GT(gt_of(11, 93)), 150));
    lemma_gt_mul_at((11, 93), (11, 93), (57, 63), (-85, -66));
    assert(GT::spow_steps(GT(gt_of(1, 0)), GT(gt_of(11, 93)), 150) == GT::spow_steps(GT(gt_of(1, 0)), GT(gt_of(57, 63)), 75));
    lemma_gt_mul_at((1, 0), (57, 63), (57, 63), (0, 0));
    lemma_gt_mul_at((57, 63), (57, 63), (88, 82), (-8, 31));
    assert(GT::spow_steps(GT(gt_of(1, 0)), GT(gt_of(57, 63)), 75) == GT::spow_steps(GT(gt_of(57, 63)), GT(gt_of(88, 82)), 37));
    lemma_gt_mul_at((57, 63), (88, 82), (52, 2), (-2, 50));
    lemma_gt_mul_at((88, 82), (88, 82), (10, 32), (10, 76));
    assert(GT::spow_steps(GT(gt_of(57, 63)), GT(gt_of(88, 82)), 37) == GT::spow_steps(GT(gt_of(52, 2)), GT(gt_of(10, 32)), 18));
    lemma_gt_mul_at((10, 32), (10, 32), (86, 20), (-10, -4));
    assert(GT::spow_steps(GT(gt_of(52, 2)), GT(gt_of(10, 32)), 18) == GT::spow_steps(GT(gt_of(52, 2)), GT(gt_of(86, 20)), 9));
    lemma_gt_mul_at((52, 2), (86, 20), (89, 61), (43, 11));
    lemma_gt_mul_at((86, 20), (86, 20), (27, 10), (69, 30));
    assert(GT::spow_steps(GT(gt_of(52, 2)), GT(gt_of(86, 20)), 9) == GT::spow_steps(GT(gt_of(89, 61)), GT(gt_of(27, 10)), 4));
    lemma_gt_mul_at((27, 10), (27, 10), (23, 36), (6, 4));
    assert(GT::spow_steps(GT(gt_of(89, 61)), GT(gt_of(27, 10)), 4) == GT::spow_steps(GT(gt_of(89, 61)), GT(gt_of(23, 36)), 2));
    lemma_gt_mul_at((23, 36), (23, 36), (41, 57), (-8, 3));
    assert(GT::spow_steps(GT(gt_of(89, 61)), GT(gt_of(23, 36)), 2) == GT::spow_steps(GT(gt_of(89, 61)), GT(gt_of(41, 57)), 1));
    lemma_gt_mul_at((89, 61), (41, 57), (71, 57), (1, 40));
    lemma_gt_mul_at((41, 57), (41, 57), (48, 11), (-16, 14));
    assert(GT::spow_steps(GT(gt_of(89, 61)), GT(gt_of(41, 57)), 1) == GT::spow_steps(GT(gt_of(71, 57)), GT(gt_of(48, 11)), 0));
}

/// The pairing of `1G` with the point `31 P` of the image of `H`.
proof fn lemma_pairing_1_31()
    ensures
        smiller_loop(g1p(1, 2), dq(20, 78)) is Some,
        spairing_at(g1p(1, 2), dq(20, 78)) == GT(gt_of(71, 57)),
{
    lemma_final_exponent();
    lemma_tangent_1_31();
    lemma_tangent_2_31();
    lemma_tangent_4_31();
    lemma_tangent_8_31();
    lemma_vertical_at(1, 99, 2, 20, 78);
    lemma_miller_at(
        g1p(1, 2),
        dq(20, 78),
        (g1p(68, 74), g1p(65, 98), g1p(18, 49), g1p(1, 99)),
        (20, 38),
        (46, 56),
        (15, 23),
        (40, 71),
        (-1, 20),
        ((67, 76, -11, 0), (38, 63, -12, 29), (0, 11, -25, 8), (50, 13, -3, -1)),
        ((8, 20, 23, 11), (11, 49, -11, -1), (19, 100, -10, -9)),
    );
    lemma_final_exp_1_31();
}

proof fn lemma_final_exp_2_31()
    ensures
        GT(gt_of(56, 50)).spow(600) == GT(gt_of(75, 98)),
{
    assert(GT::sone() == GT(gt_of(1, 0)));
    lemma_gt_mul_at((56, 50), (56, 50), (30, 70), (6, 30));
    assert(GT::spow_steps(GT(gt_of(1, 0)), GT(gt_of(56, 50)), 600) == GT::spow_steps(GT(gt_of(1, 0)), GT(gt_of(30, 70)), 300));
    lemma_gt_mul_at((30, 70), (30, 70), (40, 7), (-40, -7));
    assert(GT::spow_steps(GT(gt_of(1, 0)), GT(gt_of(30, 70)), 300) == GT::spow_steps(GT(gt_of(1, 0)), GT(gt_of(40, 7)), 150));
    lemma_gt_mul_at((40, 7), (40, 7), (36, 6), (15, 5));
    assert(GT::spow_steps(GT(gt_of(1, 0)), GT(gt_of(40, 7)), 150) == GT::spow_steps(GT(gt_of(1, 0)), GT(gt_of(36, 6)), 75));
    lemma_gt_mul_at((1, 0), (36, 6), (36, 6), (0, 0));
    lemma_gt_mul_at((36, 6), (36, 6), (48, 93), (12, 3));
    assert(GT::spow_steps(GT(gt_of(1, 0)), GT(gt_of(36, 6)), 75) == GT::spow_steps(GT(gt_of(36, 6)), GT(gt_of(48, 93)), 37));
    lemma_gt_mul_at((36, 6), (48, 93), (59, 48), (11, 30));
    lemma_gt_mul_at((48, 93), (48, 93), (18, 77), (-63, 2));
    assert(GT::spow_steps(GT(gt_of(36, 6)), GT(gt_of(48, 93)), 37) == GT::spow_steps(GT(gt_of(59, 48)), GT(gt_of(18, 77)), 18));
    lemma_gt_mul_at((18, 77), (18, 77), (51, 75), (-56, -32));
    assert(GT::spow_steps(GT(gt_of(59, 48)), GT(gt_of(18, 77)), 18) == GT::spow_steps(GT(gt_of(59, 48)), GT(gt_of(51, 75)), 9));
    lemma_gt_mul_at((59, 48), (51, 75), (15, 41), (-6, 32));
    lemma_gt_mul_at((51, 75), (51, 75), (6, 5), (-30, 20));
    assert(GT::spow_steps(GT(gt_of(59, 48)), GT(gt_of(51, 75)), 9) == GT::spow_steps(GT(gt_of(15, 41)), GT(gt_of(6, 5)), 4));
    lemma_gt_mul_at((6, 5), (6, 5), (11, 35), (0, 0));
    assert(GT::spow_steps(GT(gt_of(15, 41)), GT(gt_of(6, 5)), 4) == GT::spow_steps(GT(gt_of(15, 41)), GT(gt_of(11, 35)), 2));
    lemma_gt_mul_at((11, 35), (11, 35), (7, 50), (-11, -5));
    assert(GT::spow_steps(GT(gt_of(15, 41)), GT(gt_of(11, 35)), 2) == GT::spow_steps(GT(gt_of(15, 41)), GT(gt_of(7, 50)), 1));
    lemma_gt_mul_at((15, 41), (7, 50), (75, 98), (-20, -11));
    lemma_gt_mul_at((7, 50), (7, 50), (74, 18), (-25, -18));
    assert(GT::spow_steps(GT(gt_of(15, 41)), GT(gt_of(7, 50)), 1) == GT::spow_steps(GT(gt_of(75, 98)), GT(gt_of(74, 18)), 0));
}

/// The pairing of `2G` with the point `31 P` of the image of `H`.
proof fn lemma_pairing_2_31()
    ensures
        smiller_loop(g1p(68, 74), dq(20, 78)) is Some,
        spairing_at(g1p(68, 74), dq(20, 78)) == GT(gt_of(75, 98)),
{
    lemma_final_exponent();
    lemma_tangent_2_31();
    lemma_tangent_4_31();
    lemma_tangent_8_31();
    lemma_tangent_16_31();
    lemma_vertical_at(68, 27, 74, 20, 78);
    lemma_miller_at(
        g1p(68, 74),
        dq(20, 78),
        (g1p(65, 98), g1p(18, 49), g1p(1, 99), g1p(68, 27)),
        (46, 56),
        (15, 23),
        (40, 71),
        (91, 1),
        (-68, 20),
        ((91, 97, -11, 19), (43, 4, -9, 13), (15, 25, 18, 3), (37, 88, -12, 2)),
        ((89, 81, -64, -13), (39, 6, 79, 73), (56, 50, -28, 2)),
    );
    lemma_final_exp_2_31();
}

proof fn lemma_final_exp_3_31()
    ensures
        GT(gt_of(67, 55)).spow(600) == GT(gt_of(42, 92)),
{
    assert(GT::sone() == GT(gt_of(1, 0)));
    lemma_gt_mul_at((67, 55), (67, 55), (50, 2), (14, 43));
    assert(GT::spow_steps(GT(gt_of(1, 0)), GT(gt_of(67, 55)), 600) == GT::spow_steps(GT(gt_of(1, 0)), GT(gt_of(50, 2)), 300));
    lemma_gt_mul_at((50, 2), (50, 2), (72, 95), (24, 1));
    assert(GT::spow_steps(GT(gt_of(1, 0)), GT(gt_of(50, 2)), 300) == GT::spow_steps(GT(gt_of(1, 0)), GT(gt_of(72, 95)), 150));
    lemma_gt_mul_at((72, 95), (72, 95), (98, 9), (-39, 46));
    assert(GT::spow_steps(GT(gt_of(1, 0)), GT(gt_of(72, 95)), 150) == GT::spow_steps(GT(gt_of(1, 0)), GT(gt_of(98, 9)), 75));
    lemma_gt_mul_at((1, 0), (98, 9), (98, 9), (0, 0));
    lemma_gt_mul_at((98, 9), (98, 9), (29, 67), (94, 16));
    assert(GT::spow_steps(GT(gt_of(1, 0)), GT(gt_of(98, 9)), 75) == GT::spow_steps(GT(gt_of(98, 9)), GT(gt_of(29, 67)), 37));
    lemma_gt_mul_at((98, 9), (29, 67), (17, 63), (22, 61));
    lemma_gt_mul_at((29, 67), (29, 67), (89, 3), (-37, -6));
    assert(GT::spow_steps(GT(gt_of(98, 9)), GT(gt_of(29, 67)), 37) == GT::spow_steps(GT(gt_of(17, 63)), GT(gt_of(89, 3)), 18));
    lemma_gt_mul_at((89, 3), (89, 3), (34, 20), (78, 5));
    assert(GT::spow_steps(GT(gt_of(17, 63)), GT(gt_of(89, 3)), 18) == GT::spow_steps(GT(gt_of(17, 63)), GT(gt_of(34, 20)), 9));
    lemma_gt_mul_at((17, 63), (34, 20), (25, 10), (-7, 12));
    lemma_gt_mul_at((34, 20), (34, 20), (49, 51), (7, 9));
    assert(GT::spow_steps(GT(gt_of(17, 63)), GT(gt_of(34, 20)), 9) == GT::spow_steps(GT(gt_of(25, 10)), GT(gt_of(49, 51)), 4));
    lemma_gt_mul_at((49, 51), (49, 51), (2, 74), (-2, 23));
    assert(GT::spow_steps(GT(gt_of(25, 10)), GT(gt_of(49, 51)), 4) == GT::spow_steps(GT(gt_of(25, 10)), GT(gt_of(2, 74)), 2));
    lemma_gt_mul_at((2, 74), (2, 74), (83, 72), (-55, -52));
    assert(GT::spow_steps(GT(gt_of(25, 10)), GT(gt_of(2, 74)), 2) == GT::spow_steps(GT(gt_of(25, 10)), GT(gt_of(83, 72)), 1));
    lemma_gt_mul_at((25, 10), (83, 72), (42, 92), (13, 18));
    lemma_gt_mul_at((83, 72), (83, 72), (89, 1), (16, 67));
    assert(GT::spow_steps(GT(gt_of(25, 10)), GT(gt_of(83, 72)), 1) == GT::spow_steps(GT(gt_of(42, 92)), GT(gt_of(89, 1)), 0));
}

/// The pairing of `3G` with the point `31 P` of the image of `H`.
proof fn lemma_pairing_3_31()
    ensures
        smiller_loop(g1p(26, 45), dq(20, 78)) is Some,
        spairing_at(g1p(26, 45), dq(20, 78)) == GT(gt_of(42, 92)),
{
    lemma_final_exponent();
    lemma_tangent_3_31();
    lemma_tangent_6_31();
    lemma_tangent_12_31();
    lemma_tangent_7_31();
    lemma_vertical_at(26, 56, 45, 20, 78);
    lemma_miller_at(
        g1p(26, 45),
        dq(20, 78),
        (g1p(32, 42), g1p(12, 69), g1p(91, 35), g1p(26, 56)),
        (15, 74),
        (44, 72),
        (72, 80),
        (24, 33),
        (-26, 20),
        ((1, 77, -52, -33), (55, 37, -55, -21), (40, 75, 16, 26), (11, 75, -31, 25)),
        ((51, 65, -55, -40), (89, 88, -10, 10), (67, 55, -41, -23)),
    );
    lemma_final_exp_3_31();
}

proof fn lemma_final_exp_4_31()
    ensures
        GT(gt_of(50, 55)).spow(600) == GT(gt_of(61, 46)),
{
    assert(GT::sone() == GT(gt_of(1, 0)));
    lemma_gt_mul_at((50, 55), (50, 55), (81, 51), (-6, 24));
    assert(GT::spow_steps(GT(gt_of(1, 0)), GT(gt_of(50, 55)), 600) == GT::spow_steps(GT(gt_of(1, 0)), GT(gt_of(81, 51)), 300));
    lemma_gt_mul_at((81, 51), (81, 51), (21, 5), (39, 56));
    assert(GT::spow_steps(GT(gt_of(1, 0)), GT(gt_of(81, 51)), 300) == GT::spow_steps(GT(gt_of(1, 0)), GT(gt_of(21, 5)), 150));
    lemma_gt_mul_at((21, 5), (21, 5), (12, 84), (4, 1));
    assert(GT::spow_steps(GT(gt_of(1, 0)), GT(gt_of(21, 5)), 150) == GT::spow_steps(GT(gt_of(1, 0)), GT(gt_of(12, 84)), 75));
    lemma_gt_mul_at((1, 0), (12, 84), (12, 84), (0, 0));
    lemma_gt_mul_at((12, 84), (12, 84), (57, 10), (-69, -50));
    assert(GT::spow_steps(GT(gt_of(1, 0)), GT(gt_of(12, 84)), 75) == GT::spow_steps(GT(gt_of(12, 84)), GT(gt_of(57, 10)), 37));
    lemma_gt_mul_at((12, 84), (57, 10), (46, 28), (-2, 40));
    lemma_gt_mul_at((57, 10), (57, 10), (18, 30), (31, 10));
    assert(GT::spow_steps(GT(gt_of(12, 84)), GT(gt_of(57, 10)), 37) == GT::spow_steps(GT(gt_of(46, 28)), GT(gt_of(18, 30)), 18));
    lemma_gt_mul_at((18, 30), (18, 30), (30, 79), (-6, 1));
    assert(GT::spow_steps(GT(gt_of(46, 28)), GT(gt_of(18, 30)), 18) == GT::spow_steps(GT(gt_of(46, 28)), GT(gt_of(30, 79)), 9));
    lemma_gt_mul_at((46, 28), (30, 79), (77, 40), (-9, 22));
    lemma_gt_mul_at((30, 79), (30, 79), (12, 14), (-53, -15));
    assert(GT::spow_steps(GT(gt_of(46, 28)), GT(gt_of(30, 79)), 9) == GT::spow_steps(GT(gt_of(77, 40)), GT(gt_of(12, 14)), 4));
    lemma_gt_mul_at((12, 14), (12, 14), (49, 39), (-1, 1));
    assert(GT::spow_steps(GT(gt_of(77, 40)), GT(gt_of(12, 14)), 4) == GT::spow_steps(GT(gt_of(77, 40)), GT(gt_of(49, 39)), 2));
    lemma_gt_mul_at((49, 39), (49, 39), (72, 79), (8, 22));
    assert(GT::spow_steps(GT(gt_of(77, 40)), GT(gt_of(49, 39)), 2) == GT::spow_steps(GT(gt_of(77, 40)), GT(gt_of(72, 79)), 1));
    lemma_gt_mul_at((77, 40), (72, 79), (61, 46), (23, 57));
    lemma_gt_mul_at((72, 79), (72, 79), (54, 85), (-11, 50));
    assert(GT::spow_steps(GT(gt_of(77, 40)), GT(gt_of(72, 79)), 1) == GT::spow_steps(GT(gt_of(61, 46)), GT(gt_of(54, 85)), 0));
}

/// The pairing of `4G` with the point `31 P` of the image of `H`.
proof fn lemma_pairing_4_31()
    ensures
        smiller_loop(g1p(65, 98), dq(20, 78)) is Some,
        spairing_at(g1p(65, 98), dq(20, 78)) == GT(gt_of(61, 46)),
{
    lemma_final_exponent();
    lemma_tangent_4_31();
    lemma_tangent_8_31();
    lemma_tangent_16_31();
    lemma_tangent_15_31();
    lemma_vertical_at(65, 3, 98, 20, 78);
    lemma_miller_at(
        g1p(65, 98),
        dq(20, 78),
        (g1p(18, 49), g1p(1, 99), g1p(68, 27), g1p(65, 3)),
        (15, 23),
        (40, 71),
        (91, 1),
        (41, 12),
        (-65, 20),
        ((100, 60, -4, 1), (43, 89, -3, 51), (89, 36, -61, -3), (84, 97, 79, 32)),
        ((71, 19, -24, 68), (57, 90, 26, 13), (50, 55, -55, -65)),
    );
    lemma_final_exp_4_31();
}

proof fn lemma_final_exp_5_31()
    ensures
        GT(gt_of(41, 13)).spow(600) == GT(gt_of(93, 81)),
{
    assert(GT::sone() == GT(gt_of(1, 0)));
    lemma_gt_mul_at((41, 13), (41, 13), (98, 89), (14, 8));
    assert(GT::spow_steps(GT(gt_of(1, 0)), GT(gt_of(41, 13)), 600) == GT::spow_steps(GT(gt_of(1, 0)), GT(gt_of(98, 89)), 300));
    lemma_gt_mul_at((98, 89), (98, 89), (67, 29), (16, 94));
    assert(GT::spow_steps(GT(gt_of(1, 0)), GT(gt_of(98, 89)), 300) == GT::spow_steps(GT(gt_of(1, 0)), GT(gt_of(67, 29)), 150));
    lemma_gt_mul_at((67, 29), (67, 29), (12, 15), (36, 30));
    assert(GT::spow_steps(GT(gt_of(1, 0)), GT(gt_of(67, 29)), 150) == GT::spow_steps(GT(gt_of(1, 0)), GT(gt_of(12, 15)), 75));
    lemma_gt_mul_at((1, 0), (12, 15), (12, 15), (0, 0));
    lemma_gt_mul_at((12, 15), (12, 15), (20, 34), (-1, 1));
    assert(GT::spow_steps(GT(gt_of(1, 0)), GT(gt_of(12, 15)), 75) == GT::spow_steps(GT(gt_of(12, 15)), GT(gt_of(20, 34)), 37));
    lemma_gt_mul_at((12, 15), (20, 34), (33, 97), (-3, 1));
    lemma_gt_mul_at((20, 34), (20, 34), (52, 2), (-8, 2));
    assert(GT::spow_steps(GT(gt_of(12, 15)), GT(gt_of(20, 34)), 37) == GT::spow_steps(GT(gt_of(33, 97)), GT(gt_of(52, 2)), 18));
    lemma_gt_mul_at((52, 2), (52, 2), (74, 2), (26, 2));
    assert(GT::spow_steps(GT(gt_of(33, 97)), GT(gt_of(52, 2)), 18) == GT::spow_steps(GT(gt_of(33, 97)), GT(gt_of(74, 2)), 9));
    lemma_gt_mul_at((33, 97), (74, 2), (26, 81), (22, 69));
    lemma_gt_mul_at((74, 2), (74, 2), (18, 90), (54, 2));
    assert(GT::spow_steps(GT(gt_of(33, 97)), GT(gt_of(74, 2)), 9) == GT::spow_steps(GT(gt_of(26, 81)), GT(gt_of(18, 90)), 4));
    lemma_gt_mul_at((18, 90), (18, 90), (1, 89), (-77, -49));
    assert(GT::spow_steps(GT(gt_of(26, 81)), GT(gt_of(18, 90)), 4) == GT::spow_steps(GT(gt_of(26, 81)), GT(gt_of(1, 89)), 2));
    lemma_gt_mul_at((1, 89), (1, 89), (59, 34), (-79, -77));
    assert(GT::spow_steps(GT(gt_of(26, 81)), GT(gt_of(1, 89)), 2) == GT::spow_steps(GT(gt_of(26, 81)), GT(gt_of(59, 34)), 1));
    lemma_gt_mul_at((26, 81), (59, 34), (93, 81), (-13, 28));
    lemma_gt_mul_at((59, 34), (59, 34), (2, 28), (23, 28));
    assert(GT::spow_steps(GT(gt_of(26, 81)), GT(gt_of(59, 34)), 1) == GT::spow_steps(GT(gt_of(93, 81)), GT(gt_of(2, 28)), 0));
}

/// The pairing of `5G` with the point `31 P` of the image of `H`.
proof fn lemma_pairing_5_31()
    ensures
        smiller_loop(g1p(12, 32), dq(20, 78)) is Some,
        spairing_at(g1p(12, 32), dq(20, 78)) == GT(gt_of(93, 81)),
{
    lemma_final_exponent();
    lemma_tangent_5_31();
    lemma_tangent_10_31();
    lemma_tangent_3_31();
    lemma_tangent_6_31();
    lemma_vertical_at(12, 69, 32, 20, 78);
    lemma_miller_at(
        g1p(12, 32),
        dq(20, 78),
        (g1p(91, 66), g1p(26, 45), g1p(32, 42), g1p(12, 69)),
        (44, 51),
        (52, 22),
        (15, 74),
        (44, 72),
        (-12, 20),
        ((42, 69, -7, 18), (60, 65, 6, 29), (82, 40, -7, 35), (88, 72, -18, 36)),
        ((35, 14, 25, 74), (27, 7, 5, 21), (41, 13, -5, 3)),
    );
    lemma_final_exp_5_31();
}

proof fn lemma_final_exp_6_31()
    ensures
        GT(gt_of(11, 41)).spow(600) == GT(gt_of(67, 72)),
{
    assert(GT::sone() == GT(gt_of(1, 0)));
    lemma_gt_mul_at((11, 41), (11, 41), (56, 29), (-16, -8));
    assert(GT::spow_steps(GT(gt_of(1, 0)), GT(gt_of(11, 41)), 600) == GT::spow_steps(GT(gt_of(1, 0)), GT(gt_of(56, 29)), 300));
    lemma_gt_mul_at((56, 29), (56, 29), (73, 84), (22, 23));
    assert(GT::spow_steps(GT(gt_of(1, 0)), GT(gt_of(56, 29)), 300) == GT::spow_steps(GT(gt_of(1, 0)), GT(gt_of(73, 84)), 150));
    lemma_gt_mul_at((73, 84), (73, 84), (91, 57), (-18, 51));
    assert(GT::spow_steps(GT(gt_of(1, 0)), GT(gt_of(73, 84)), 150) == GT::spow_steps(GT(gt_of(1, 0)), GT(gt_of(91, 57)), 75));
    lemma_gt_mul_at((1, 0), (91, 57), (91, 57), (0, 0));
    lemma_gt_mul_at((91, 57), (91, 57), (83, 55), (49, 70));
    assert(GT::spow_steps(GT(gt_of(1, 0)), GT(gt_of(91, 57)), 75) == GT::spow_steps(GT(gt_of(91, 57)), GT(gt_of(83, 55)), 37));
    lemma_gt_mul_at((91, 57), (83, 55), (75, 36), (43, 65));
    lemma_gt_mul_at((83, 55), (83, 55), (26, 45), (38, 60));
    assert(GT::spow_steps(GT(gt_of(91, 57)), GT(gt_of(83, 55)), 37) == GT::spow_steps(GT(gt_of(75, 36)), GT(gt_of(26, 45)), 18));
    lemma_gt_mul_at((26, 45), (26, 45), (65, 12), (-14, 3));
    assert(GT::spow_steps(GT(gt_of(75, 36)), GT(gt_of(26, 45)), 18) == GT::spow_steps(GT(gt_of(75, 36)), GT(gt_of(65, 12)), 9));
    lemma_gt_mul_at((75, 36), (65, 12), (100, 81), (43, 27));
    lemma_gt_mul_at((65, 12), (65, 12), (41, 2), (40, 14));
    assert(GT::spow_steps(GT(gt_of(75, 36)), GT(gt_of(65, 12)), 9) == GT::spow_steps(GT(gt_of(100, 81)), GT(gt_of(41, 2)), 4));
    lemma_gt_mul_at((41, 2), (41, 2), (61, 59), (16, 1));
    assert(GT::spow_steps(GT(gt_of(100, 81)), GT(gt_of(41, 2)), 4) == GT::spow_steps(GT(gt_of(100, 81)), GT(gt_of(61, 59)), 2));
    lemma_gt_mul_at((61, 59), (61, 59), (38, 81), (2, 36));
    assert(GT::spow_steps(GT(gt_of(100, 81)), GT(gt_of(61, 59)), 2) == GT::spow_steps(GT(gt_of(100, 81)), GT(gt_of(38, 81)), 1));
    lemma_gt_mul_at((100, 81), (38, 81), (67, 72), (-28, 45));
    lemma_gt_mul_at((38, 81), (38, 81), (34, 100), (-51, -5));
    assert(GT::spow_steps(GT(gt_of(100, 81)), GT(gt_of(38, 81)), 1) == GT::spow_steps(GT(gt_of(67, 72)), GT(gt_of(34, 100)), 0));
}

/// The pairing of `6G` with the point `31 P` of the image of `H`.
proof fn lemma_pairing_6_31()
    ensures
        smiller_loop(g1p(32, 42), dq(20, 78)) is Some,
        spairing_at(g1p(32, 42), dq(20, 78)) == GT(gt_of(67, 72)),
{
    lemma_final_exponent();
    lemma_tangent_6_31();
    lemma_tangent_12_31();
    lemma_tangent_7_31();
    lemma_tangent_14_31();
    lemma_vertical_at(32, 59, 42, 20, 78);
    lemma_miller_at(
        g1p(32, 42),
        dq(20, 78),
        (g1p(12, 69), g1p(91, 35), g1p(26, 56), g1p(32, 59)),
        (44, 72),
        (72, 80),
        (24, 33),
        (21, 2),
        (-32, 20),
        ((85, 41, -33, 11), (12, 8, 28, 64), (80, 27, 0, 1), (19, 74, 10, 23)),
        ((36, 63, -51, -27), (24, 57, 6, 12), (11, 41, -19, -25)),
    );
    lemma_final_exp_6_31();
}

proof fn lemma_final_exp_7_31()
    ensures
        GT(gt_of(75, 10)).spow(600) == GT(gt_of(47, 80)),
{
    assert(GT::sone() == GT(gt_of(1, 0)));
    lemma_gt_mul_at((75, 10), (75, 10), (71, 87), (54, 13));
    assert(GT::spow_steps(GT(gt_of(1, 0)), GT(gt_of(75, 10)), 600) == GT::spow_steps(GT(gt_of(1, 0)), GT(gt_of(71, 87)), 300));
    lemma_gt_mul_at((71, 87), (71, 87), (98, 38), (-26, 47));
    assert(GT::spow_steps(GT(gt_of(1, 0)), GT(gt_of(71, 87)), 300) == GT::spow_steps(GT(gt_of(1, 0)), GT(gt_of(98, 38)), 150));
    lemma_gt_mul_at((98, 38), (98, 38), (80, 45), (80, 59));
    assert(GT::spow_steps(GT(gt_of(1, 0)), GT(gt_of(98, 38)), 150) == GT::spow_steps(GT(gt_of(1, 0)), GT(gt_of(80, 45)), 75));
    lemma_gt_mul_at((1, 0), (80, 45), (80, 45), (0, 0));
    lemma_gt_mul_at((80, 45), (80, 45), (32, 24), (43, 51));
    assert(GT::spow_steps(GT(gt_of(1, 0)), GT(gt_of(80, 45)), 75) == GT::spow_steps(GT(gt_of(80, 45)), GT(gt_of(32, 24)), 37));
    lemma_gt_mul_at((80, 45), (32, 24), (66, 58), (14, 22));
    lemma_gt_mul_at((32, 24), (32, 24), (44, 51), (4, 9));
    assert(GT::spow_steps(GT(gt_of(80, 45)), GT(gt_of(32, 24)), 37) == GT::spow_steps(GT(gt_of(66, 58)), GT(gt_of(44, 51)), 18));
    lemma_gt_mul_at((44, 51), (44, 51), (42, 69), (-7, 18));
    assert(GT::spow_steps(GT(gt_of(66, 58)), GT(gt_of(44, 51)), 18) == GT::spow_steps(GT(gt_of(66, 58)), GT(gt_of(42, 69)), 9));
    lemma_gt_mul_at((66, 58), (42, 69), (83, 59), (-13, 29));
    lemma_gt_mul_at((42, 69), (42, 69), (33, 25), (-30, 10));
    assert(GT::spow_steps(GT(gt_of(66, 58)), GT(gt_of(42, 69)), 9) == GT::spow_steps(GT(gt_of(83, 59)), GT(gt_of(33, 25)), 4));
    lemma_gt_mul_at((33, 25), (33, 25), (60, 15), (4, 10));
    assert(GT::spow_steps(GT(gt_of(83, 59)), GT(gt_of(33, 25)), 4) == GT::spow_steps(GT(gt_of(83, 59)), GT(gt_of(60, 15)), 2));
    lemma_gt_mul_at((60, 15), (60, 15), (42, 60), (33, 15));
    assert(GT::spow_steps(GT(gt_of(83, 59)), GT(gt_of(60, 15)), 2) == GT::spow_steps(GT(gt_of(83, 59)), GT(gt_of(42, 60)), 1));
    lemma_gt_mul_at((83, 59), (42, 60), (47, 80), (-1, 38));
    lemma_gt_mul_at((42, 60), (42, 60), (83, 26), (-19, 14));
    assert(GT::spow_steps(GT(gt_of(83, 59)), GT(gt_of(42, 60)), 1) == GT::spow_steps(GT(gt_of(47, 80)), GT(gt_of(83, 26)), 0));
}

/// The pairing of `7G` with the point `31 P` of the image of `H`.
proof fn lemma_pairing_7_31()
    ensures
        smiller_loop(g1p(91, 35), dq(20, 78)) is Some,
        spairing_at(g1p(91, 35), dq(20, 78)) == GT(gt_of(47, 80)),
{
    lemma_final_exponent();
    lemma_tangent_7_31();
    lemma_tangent_14_31();
    lemma_tangent_11_31();
    lemma_tangent_5_31();
    lemma_vertical_at(91, 66, 35, 20, 78);
    lemma_miller_at(
        g1p(91, 35),
        dq(20, 78),
        (g1p(26, 56), g1p(32, 59), g1p(12, 32), g1p(91, 66)),
        (24, 33),
        (21, 2),
        (63, 58),
        (44, 51),
        (-91, 20),
        ((93, 91, -6, 4), (54, 97, 17, 18), (72, 57, -65, 10), (18, 17, 12, 44)),
        ((35, 20, 0, 3), (15, 29, 5, 16), (75, 10, -20, -29)),
    );
    lemma_final_exp_7_31();
}

proof fn lemma_final_exp_8_31()
    ensures
        GT(gt_of(65, 24)).spow(600) == GT(gt_of(90, 62)),
{
    assert(GT::sone() == GT(gt_of(1, 0)));
    lemma_gt_mul_at((65, 24), (65, 24), (13, 19), (36, 25));
    assert(GT::spow_steps(GT(gt_of(1, 0)), GT(gt_of(65, 24)), 600) == GT::spow_steps(GT(gt_of(1, 0)), GT(gt_of(13, 19)), 300));
    lemma_gt_mul_at((13, 19), (13, 19), (10, 32), (-2, 1));
    assert(GT::spow_steps(GT(gt_of(1, 0)), GT(gt_of(13, 19)), 300) == GT::spow_steps(GT(gt_of(1, 0)), GT(gt_of(10, 32)), 150));
    lemma_gt_mul_at((10, 32), (10, 32), (86, 20), (-10, -4));
    assert(GT::spow_steps(GT(gt_of(1, 0)), GT(gt_of(10, 32)), 150) == GT::spow_steps(GT(gt_of(1, 0)), GT(gt_of(86, 20)), 75));
    lemma_gt_mul_at((1, 0), (86, 20), (86, 20), (0, 0));
    lemma_gt_mul_at((86, 20), (86, 20), (27, 10), (69, 30));
    assert(GT::spow_steps(GT(gt_of(1, 0)), GT(gt_of(86, 20)), 75) == GT::spow_steps(GT(gt_of(86, 20)), GT(gt_of(27, 10)), 37));
    lemma_gt_mul_at((86, 20), (27, 10), (1, 89), (21, 11));
    lemma_gt_mul_at((27, 10), (27, 10), (23, 36), (6, 4));
    assert(GT::spow_steps(GT(gt_of(86, 20)), GT(gt_of(27, 10)), 37) == GT::spow_steps(GT(gt_of(1, 89)), GT(gt_of(23, 36)), 18));
    lemma_gt_mul_at((23, 36), (23, 36), (41, 57), (-8, 3));
    assert(GT::spow_steps(GT(gt_of(1, 89)), GT(gt_of(23, 36)), 18) == GT::spow_steps(GT(gt_of(1, 89)), GT(gt_of(41, 57)), 9));
    lemma_gt_mul_at((1, 89), (41, 57), (18, 47), (-50, -14));
    lemma_gt_mul_at((41, 57), (41, 57), (48, 11), (-16, 14));
    assert(GT::spow_steps(GT(gt_of(1, 89)), GT(gt_of(41, 57)), 9) == GT::spow_steps(GT(gt_of(18, 47)), GT(gt_of(48, 11)), 4));
    lemma_gt_mul_at((48, 11), (48, 11), (62, 26), (21, 9));
    assert(GT::spow_steps(GT(gt_of(18, 47)), GT(gt_of(48, 11)), 4) == GT::spow_steps(GT(gt_of(18, 47)), GT(gt_of(62, 26)), 2));
    lemma_gt_mul_at((62, 26), (62, 26), (37, 23), (31, 25));
    assert(GT::spow_steps(GT(gt_of(18, 47)), GT(gt_of(62, 26)), 2) == GT::spow_steps(GT(gt_of(18, 47)), GT(gt_of(37, 23)), 1));
    lemma_gt_mul_at((18, 47), (37, 23), (90, 62), (-5, 10));
    lemma_gt_mul_at((37, 23), (37, 23), (32, 62), (8, 11));
    assert(GT::spow_steps(GT(gt_of(18, 47)), GT(gt_of(37, 23)), 1) == GT::spow_steps(GT(gt_of(90, 62)), GT(gt_of(32, 62)), 0));
}

/// The pairing of `8G` with the point `31 P` of the image of `H`.
proof fn lemma_pairing_8_31()
    ensures
        smiller_loop(g1p(18, 49), dq(20, 78)) is Some,
        spairing_at(g1p(18, 49), dq(20, 78)) == GT(gt_of(90, 62)),
{
    lemma_final_exponent();
    lemma_tangent_8_31();
    lemma_tangent_16_31();
    lemma_tangent_15_31();
    lemma_tangent_13_31();
    lemma_vertical_at(18, 52, 49, 20, 78);
    lemma_miller_at(
        g1p(18, 49),
        dq(20, 78),
        (g1p(1, 99), g1p(68, 27), g1p(65, 3), g1p(18, 52)),
        (40, 71),
        (91, 1),
        (41, 12),
        (25, 14),
        (-18, 20),
        ((94, 33, -35, 6), (37, 34, 84, 30), (11, 47, 2, 13), (89, 81, -2, 14)),
        ((47, 80, 13, 77), (55, 23, 0, 15), (65, 24, -15, 2)),
    );
    lemma_final_exp_8_31();
}

proof fn lemma_final_exp_9_31()
    ensures
        GT(gt_of(23, 58)).spow(600) == GT(gt_of(28, 39)),
{
    assert(GT::sone() == GT(gt_of(1, 0)));
    lemma_gt_mul_at((23, 58), (23, 58), (94, 11), (-29, -7));
    assert(GT::spow_steps(GT(gt_of(1, 0)), GT(gt_of(23, 58)), 600) == GT::spow_steps(GT(gt_of(1, 0)), GT(gt_of(94, 11)), 300));
    lemma_gt_mul_at((94, 11), (94, 11), (29, 28), (86, 19));
    assert(GT::spow_steps(GT(gt_of(1, 0)), GT(gt_of(94, 11)), 300) == GT::spow_steps(GT(gt_of(1, 0)), GT(gt_of(29, 28)), 150));
    lemma_gt_mul_at((29, 28), (29, 28), (57, 32), (0, 8));
    assert(GT::spow_steps(GT(gt_of(1, 0)), GT(gt_of(29, 28)), 150) == GT::spow_steps(GT(gt_of(1, 0)), GT(gt_of(57, 32)), 75));
    lemma_gt_mul_at((1, 0), (57, 32), (57, 32), (0, 0));
    lemma_gt_mul_at((57, 32), (57, 32), (3, 99), (22, 25));
    assert(GT::spow_steps(GT(gt_of(1, 0)), GT(gt_of(57, 32)), 75) == GT::spow_steps(GT(gt_of(57, 32)), GT(gt_of(3, 99)), 37));
    lemma_gt_mul_at((57, 32), (3, 99), (33, 46), (-30, 25));
    lemma_gt_mul_at((3, 99), (3, 99), (5, 85), (-97, -92));
    assert(GT::spow_steps(GT(gt_of(57, 32)), GT(gt_of(3, 99)), 37) == GT::spow_steps(GT(gt_of(33, 46)), GT(gt_of(5, 85)), 18));
    lemma_gt_mul_at((5, 85), (5, 85), (72, 89), (-72, -64));
    assert(GT::spow_steps(GT(gt_of(33, 46)), GT(gt_of(5, 85)), 18) == GT::spow_steps(GT(gt_of(33, 46)), GT(gt_of(72, 89)), 9));
    lemma_gt_mul_at((33, 46), (72, 89), (100, 34), (-18, 21));
    lemma_gt_mul_at((72, 89), (72, 89), (91, 47), (-28, 48));
    assert(GT::spow_steps(GT(gt_of(33, 46)), GT(gt_of(72, 89)), 9) == GT::spow_steps(GT(gt_of(100, 34)), GT(gt_of(91, 47)), 4));
    lemma_gt_mul_at((91, 47), (91, 47), (12, 83), (60, 62));
    assert(GT::spow_steps(GT(gt_of(100, 34)), GT(gt_of(91, 47)), 4) == GT::spow_steps(GT(gt_of(100, 34)), GT(gt_of(12, 83)), 2));
    lemma_gt_mul_at((12, 83), (12, 83), (22, 52), (-67, -49));
    assert(GT::spow_steps(GT(gt_of(100, 34)), GT(gt_of(12, 83)), 2) == GT::spow_steps(GT(gt_of(100, 34)), GT(gt_of(22, 52)), 1));
    lemma_gt_mul_at((100, 34), (22, 52), (28, 39), (4, 41));
    lemma_gt_mul_at((22, 52), (22, 52), (2, 89), (-22, -5));
    assert(GT::spow_steps(GT(gt_of(100, 34)), GT(gt_of(22, 52)), 1) == GT::spow_steps(GT(gt_of(28, 39)), GT(gt_of(2, 89)), 0));
}

/// The pairing of `9G` with the point `31 P` of the image of `H`.
proof fn lemma_pairing_9_31()
    ensures
        smiller_loop(g1p(18, 52), dq(20, 78)) is Some,
        spairing_at(g1p(18, 52), dq(20, 78)) == GT(gt_of(28, 39)),
{
    lemma_final_exponent();
    lemma_tangent_9_31();
    lemma_tangent_1_31();
    lemma_tangent_2_31();
    lemma_tangent_4_31();
    lemma_vertical_at(18, 49, 52, 20, 78);
    lemma_miller_at(
        g1p(18, 52),
        dq(20, 78),
        (g1p(1, 2), g1p(68, 74), g1p(65, 98), g1p(18, 49)),
        (100, 96),
        (20, 38),
        (46, 56),
        (15, 23),
        (-18, 20),
        ((77, 86, 7, 98), (90, 65, -18, 13), (37, 1, 38, 74), (30, 42, 16, 20)),
        ((45, 49, -9, 7), (53, 37, -5, 6), (23, 58, -17, -4)),
    );
    lemma_final_exp_9_31();
}

proof fn lemma_final_exp_10_31()
    ensures
        GT(gt_of(79, 41)).spow(600) == GT(gt_of(68, 21)),
{
    assert(GT::sone() == GT(gt_of(1, 0)));
    lemma_gt_mul_at((79, 41), (79, 41), (15, 50), (45, 47));
    assert(GT::spow_steps(GT(gt_of(1, 0)), GT(gt_of(79, 41)), 600) == GT::spow_steps(GT(gt_of(1, 0)), GT(gt_of(15, 50)), 300));
    lemma_gt_mul_at((15, 50), (15, 50), (48, 10), (-23, -10));
    assert(GT::spow_steps(GT(gt_of(1, 0)), GT(gt_of(15, 50)), 300) == GT::spow_steps(GT(gt_of(1, 0)), GT(gt_of(48, 10)), 150));
    lemma_gt_mul_at((48, 10), (48, 10), (83, 52), (21, 8));
    assert(GT::spow_steps(GT(gt_of(1, 0)), GT(gt_of(48, 10)), 150) == GT::spow_steps(GT(gt_of(1, 0)), GT(gt_of(83, 52)), 75));
    lemma_gt_mul_at((1, 0), (83, 52), (83, 52), (0, 0));
    lemma_gt_mul_at((83, 52), (83, 52), (44, 70), (41, 58));
    assert(GT::spow_steps(GT(gt_of(1, 0)), GT(gt_of(83, 52)), 75) == GT::spow_steps(GT(gt_of(83, 52)), GT(gt_of(44, 70)), 37));
    lemma_gt_mul_at((83, 52), (44, 70), (12, 14), (0, 44));
    lemma_gt_mul_at((44, 70), (44, 70), (66, 48), (-30, 12));
    assert(GT::spow_steps(GT(gt_of(83, 52)), GT(gt_of(44, 70)), 37) == GT::spow_steps(GT(gt_of(12, 14)), GT(gt_of(66, 48)), 18));
    lemma_gt_mul_at((66, 48), (66, 48), (32, 93), (20, 39));
    assert(GT::spow_steps(GT(gt_of(12, 14)), GT(gt_of(66, 48)), 18) == GT::spow_steps(GT(gt_of(12, 14)), GT(gt_of(32, 93)), 9));
    lemma_gt_mul_at((12, 14), (32, 93), (92, 60), (-10, 2));
    lemma_gt_mul_at((32, 93), (32, 93), (51, 30), (-76, -27));
    assert(GT::spow_steps(GT(gt_of(12, 14)), GT(gt_of(32, 93)), 9) == GT::spow_steps(GT(gt_of(92, 60)), GT(gt_of(51, 30)), 4));
    lemma_gt_mul_at((51, 30), (51, 30), (85, 39), (16, 21));
    assert(GT::spow_steps(GT(gt_of(92, 60)), GT(gt_of(51, 30)), 4) == GT::spow_steps(GT(gt_of(92, 60)), GT(gt_of(85, 39)), 2));
    lemma_gt_mul_at((85, 39), (85, 39), (48, 59), (56, 50));
    assert(GT::spow_steps(GT(gt_of(92, 60)), GT(gt_of(85, 39)), 2) == GT::spow_steps(GT(gt_of(92, 60)), GT(gt_of(48, 59)), 1));
    lemma_gt_mul_at((92, 60), (48, 59), (68, 21), (8, 47));
    lemma_gt_mul_at((48, 59), (48, 59), (35, 62), (-12, 21));
    assert(GT::spow_steps(GT(gt_of(92, 60)), GT(gt_of(48, 59)), 1) == GT::spow_steps(GT(gt_of(68, 21)), GT(gt_of(35, 62)), 0));
}

/// The pairing of `10G` with the point `31 P` of the image of `H`.
proof fn lemma_pairing_10_31()
    ensures
        smiller_loop(g1p(91, 66), dq(20, 78)) is Some,
        spairing_at(g1p(91, 66), dq(20, 78)) == GT(gt_of(68, 21)),
{
    lemma_final_exponent();
    lemma_tangent_10_31();
    lemma_tangent_3_31();
    lemma_tangent_6_31();
    lemma_tangent_12_31();
    lemma_vertical_at(91, 35, 66, 20, 78);
    lemma_miller_at(
        g1p(91, 66),
        dq(20, 78),
        (g1p(26, 45), g1p(32, 42), g1p(12, 69), g1p(91, 35)),
        (52, 22),
        (15, 74),
        (44, 72),
        (72, 80),
        (-91, 20),
        ((99, 87, 21, 17), (97, 72, -50, 21), (84, 98, 41, 86), (74, 72, -34, 32)),
        ((90, 18, 2, 54), (91, 87, 49, 69), (79, 41, -100, -78)),
    );
    lemma_final_exp_10_31();
}

proof fn lemma_final_exp_11_31()
    ensures
        GT(gt_of(79, 43)).spow(600) == GT(gt_of(96, 29)),
{
    assert(GT::sone() == GT(gt_of(1, 0)));
    lemma_gt_mul_at((79, 43), (79, 43), (49, 97), (43, 48));
    assert(GT::spow_steps(GT(gt_of(1, 0)), GT(gt_of(79, 43)), 600) == GT::spow_steps(GT(gt_of(1, 0)), GT(gt_of(49, 97)), 300));
    lemma_gt_mul_at((49, 97), (49, 97), (62, 97), (-70, 0));
    assert(GT::spow_steps(GT(gt_of(1, 0)), GT(gt_of(49, 97)), 300) == GT::spow_steps(GT(gt_of(1, 0)), GT(gt_of(62, 97)), 150));
    lemma_gt_mul_at((62, 97), (62, 97), (91, 94), (-56, 25));
    assert(GT::spow_steps(GT(gt_of(1, 0)), GT(gt_of(62, 97)), 150) == GT::spow_steps(GT(gt_of(1, 0)), GT(gt_of(91, 94)), 75));
    lemma_gt_mul_at((1, 0), (91, 94), (91, 94), (0, 0));
    lemma_gt_mul_at((91, 94), (91, 94), (51, 91), (-6, 81));
    assert(GT::spow_steps(GT(gt_of(1, 0)), GT(gt_of(91, 94)), 75) == GT::spow_steps(GT(gt_of(91, 94)), GT(gt_of(51, 91)), 37));
    lemma_gt_mul_at((91, 94), (51, 91), (26, 77), (-39, 44));
    lemma_gt_mul_at((51, 91), (51, 91), (77, 92), (-57, 9));
    assert(GT::spow_steps(GT(gt_of(91, 94)), GT(gt_of(51, 91)), 37) == GT::spow_steps(GT(gt_of(26, 77)), GT(gt_of(77, 92)), 18));
    lemma_gt_mul_at((77, 92), (77, 92), (91, 48), (-26, 56));
    assert(GT::spow_steps(GT(gt_of(26, 77)), GT(gt_of(77, 92)), 18) == GT::spow_steps(GT(gt_of(26, 77)), GT(gt_of(91, 48)), 9));
    lemma_gt_mul_at((26, 77), (91, 48), (84, 14), (-14, 45));
    lemma_gt_mul_at((91, 48), (91, 48), (18, 69), (59, 63));
    assert(GT::spow_steps(GT(gt_of(26, 77)), GT(gt_of(91, 48)), 9) == GT::spow_steps(GT(gt_of(84, 14)), GT(gt_of(18, 69)), 4));
    lemma_gt_mul_at((18, 69), (18, 69), (7, 46), (-44, -23));
    assert(GT::spow_steps(GT(gt_of(84, 14)), GT(gt_of(18, 69)), 4) == GT::spow_steps(GT(gt_of(84, 14)), GT(gt_of(7, 46)), 2));
    lemma_gt_mul_at((7, 46), (7, 46), (54, 43), (-21, -15));
    assert(GT::spow_steps(GT(gt_of(84, 14)), GT(gt_of(7, 46)), 2) == GT::spow_steps(GT(gt_of(84, 14)), GT(gt_of(54, 43)), 1));
    lemma_gt_mul_at((84, 14), (54, 43), (96, 29), (38, 37));
    lemma_gt_mul_at((54, 43), (54, 43), (57, 68), (10, 27));
    assert(GT::spow_steps(GT(gt_of(84, 14)), GT(gt_of(54, 43)), 1) == GT::spow_steps(GT(gt_of(96, 29)), GT(gt_of(57, 68)), 0));
}

/// The pairing of `11G` with the point `31 P` of the image of `H`.
proof fn lemma_pairing_11_31()
    ensures
        smiller_loop(g1p(32, 59), dq(20, 78)) is Some,
        spairing_at(g1p(32, 59), dq(20, 78)) == GT(gt_of(96, 29)),
{
    lemma_final_exponent();
    lemma_tangent_11_31();
    lemma_tangent_5_31();
    lemma_tangent_10_31();
    lemma_tangent_3_31();
    lemma_vertical_at(32, 42, 59, 20, 78);
    lemma_miller_at(
        g1p(32, 59),
        dq(20, 78),
        (g1p(12, 32), g1p(91, 66), g1p(26, 45), g1p(32, 42)),
        (63, 58),
        (44, 51),
        (52, 22),
        (15, 74),
        (-32, 20),
        ((100, 5, 5, 39), (4, 15, 41, 50), (94, 97, -3, -2), (27, 29, 27, 49)),
        ((90, 18, -2, 7), (18, 43, 0, 55), (79, 43, -15, -19)),
    );
    lemma_final_exp_11_31();
}

proof fn lemma_final_exp_12_31()
    ensures
        GT(gt_of(19, 2)).spow(600) == GT(gt_of(12, 20)),
{
    assert(GT::sone() == GT(gt_of(1, 0)));
    lemma_gt_mul_at((19, 2), (19, 2), (54, 72), (3, 0));
    assert(GT::spow_steps(GT(gt_of(1, 0)), GT(gt_of(19, 2)), 600) == GT::spow_steps(GT(gt_of(1, 0)), GT(gt_of(54, 72)), 300));
    lemma_gt_mul_at((54, 72), (54, 72), (55, 67), (-23, 25));
    assert(GT::spow_steps(GT(gt_of(1, 0)), GT(gt_of(54, 72)), 300) == GT::spow_steps(GT(gt_of(1, 0)), GT(gt_of(55, 67)), 150));
    lemma_gt_mul_at((55, 67), (55, 67), (51, 53), (-15, 28));
    assert(GT::spow_steps(GT(gt_of(1, 0)), GT(gt_of(55, 67)), 150) == GT::spow_steps(GT(gt_of(1, 0)), GT(gt_of(51, 53)), 75));
    lemma_gt_mul_at((1, 0), (51, 53), (51, 53), (0, 0));
    lemma_gt_mul_at((51, 53), (51, 53), (95, 72), (-3, 25));
    assert(GT::spow_steps(GT(gt_of(1, 0)), GT(gt_of(51, 53)), 75) == GT::spow_steps(GT(gt_of(51, 53)), GT(gt_of(95, 72)), 37));
    lemma_gt_mul_at((51, 53), (95, 72), (19, 43), (10, 48));
    lemma_gt_mul_at((95, 72), (95, 72), (3, 12), (38, 84));
    assert(GT::spow_steps(GT(gt_of(51, 53)), GT(gt_of(95, 72)), 37) == GT::spow_steps(GT(gt_of(19, 43)), GT(gt_of(3, 12)), 18));
    lemma_gt_mul_at((3, 12), (3, 12), (67, 29), (-2, -1));
    assert(GT::spow_steps(GT(gt_of(19, 43)), GT(gt_of(3, 12)), 18) == GT::spow_steps(GT(gt_of(19, 43)), GT(gt_of(67, 29)), 9));
    lemma_gt_mul_at((19, 43), (67, 29), (26, 64), (0, 21));
    lemma_gt_mul_at((67, 29), (67, 29), (12, 15), (36, 30));
    assert(GT::spow_steps(GT(gt_of(19, 43)), GT(gt_of(67, 29)), 9) == GT::spow_steps(GT(gt_of(26, 64)), GT(gt_of(12, 15)), 4));
    lemma_gt_mul_at((12, 15), (12, 15), (20, 34), (-1, 1));
    assert(GT::spow_steps(GT(gt_of(26, 64)), GT(gt_of(12, 15)), 4) == GT::spow_steps(GT(gt_of(26, 64)), GT(gt_of(20, 34)), 2));
    lemma_gt_mul_at((20, 34), (20, 34), (52, 2), (-8, 2));
    assert(GT::spow_steps(GT(gt_of(26, 64)), GT(gt_of(20, 34)), 2) == GT::spow_steps(GT(gt_of(26, 64)), GT(gt_of(52, 2)), 1));
    lemma_gt_mul_at((26, 64), (52, 2), (12, 20), (12, 32));
    lemma_gt_mul_at((52, 2), (52, 2), (74, 2), (26, 2));
    assert(GT::spow_steps(GT(gt_of(26, 64)), GT(gt_of(52, 2)), 1) == GT::spow_steps(GT(gt_of(12, 20)), GT(gt_of(74, 2)), 0));
}

/// The pairing of `12G` with the point `31 P` of the image of `H`.
proof fn lemma_pairing_12_31()
    ensures
        smiller_loop(g1p(12, 69), dq(20, 78)) is Some,
        spairing_at(g1p(12, 69), dq(20, 78)) == GT(gt_of(12, 20)),
{
    lemma_final_exponent();
    lemma_tangent_12_31();
    lemma_tangent_7_31();
    lemma_tangent_14_31();
    lemma_tangent_11_31();
    lemma_vertical_at(12, 32, 69, 20, 78);
    lemma_miller_at(
        g1p(12, 69),
        dq(20, 78),
        (g1p(91, 35), g1p(26, 56), g1p(32, 59), g1p(12, 32)),
        (72, 80),
        (24, 33),
        (21, 2),
        (63, 58),
        (-12, 20),
        ((97, 70, -13, 50), (18, 46, 0, 25), (26, 45, -18, -5), (52, 99, 4, 8)),
        ((74, 91, -71, 4), (91, 0, -7, 47), (19, 2, -11, 18)),
    );
    lemma_final_exp_12_31();
}

proof fn lemma_final_exp_13_31()
    ensures
        GT(gt_of(15, 81)).spow(600) == GT(gt_of(15, 55)),
{
    assert(GT::sone() == GT(gt_of(1, 0)));
    lemma_gt_mul_at((15, 81), (15, 81), (27, 10), (-63, -41));
    assert(GT::spow_steps(GT(gt_of(1, 0)), GT(gt_of(15, 81)), 600) == GT::spow_steps(GT(gt_of(1, 0)), GT(gt_of(27, 10)), 300));
    lemma_gt_mul_at((27, 10), (27, 10), (23, 36), (6, 4));
    assert(GT::spow_steps(GT(gt_of(1, 0)), GT(gt_of(27, 10)), 300) == GT::spow_steps(GT(gt_of(1, 0)), GT(gt_of(23, 36)), 150));
    lemma_gt_mul_at((23, 36), (23, 36), (41, 57), (-8, 3));
    assert(GT::spow_steps(GT(gt_of(1, 0)), GT(gt_of(23, 36)), 150) == GT::spow_steps(GT(gt_of(1, 0)), GT(gt_of(41, 57)), 75));
    lemma_gt_mul_at((1, 0), (41, 57), (41, 57), (0, 0));
    lemma_gt_mul_at((41, 57), (41, 57), (48, 11), (-16, 14));
    assert(GT::spow_steps(GT(gt_of(1, 0)), GT(gt_of(41, 57)), 75) == GT::spow_steps(GT(gt_of(41, 57)), GT(gt_of(48, 11)), 37));
    lemma_gt_mul_at((41, 57), (48, 11), (28, 35), (13, 25));
    lemma_gt_mul_at((48, 11), (48, 11), (62, 26), (21, 9));
    assert(GT::spow_steps(GT(gt_of(41, 57)), GT(gt_of(48, 11)), 37) == GT::spow_steps(GT(gt_of(28, 35)), GT(gt_of(62, 26)), 18));
    lemma_gt_mul_at((62, 26), (62, 26), (37, 23), (31, 25));
    assert(GT::spow_steps(GT(gt_of(28, 35)), GT(gt_of(62, 26)), 18) == GT::spow_steps(GT(gt_of(28, 35)), GT(gt_of(37, 23)), 9));
    lemma_gt_mul_at((28, 35), (37, 23), (29, 23), (2, 11));
    lemma_gt_mul_at((37, 23), (37, 23), (32, 62), (8, 11));
    assert(GT::spow_steps(GT(gt_of(28, 35)), GT(gt_of(37, 23)), 9) == GT::spow_steps(GT(gt_of(29, 23)), GT(gt_of(32, 62)), 4));
    lemma_gt_mul_at((32, 62), (32, 62), (8, 23), (-28, 1));
    assert(GT::spow_steps(GT(gt_of(29, 23)), GT(gt_of(32, 62)), 4) == GT::spow_steps(GT(gt_of(29, 23)), GT(gt_of(8, 23)), 2));
    lemma_gt_mul_at((8, 23), (8, 23), (40, 41), (-5, -2));
    assert(GT::spow_steps(GT(gt_of(29, 23)), GT(gt_of(8, 23)), 2) == GT::spow_steps(GT(gt_of(29, 23)), GT(gt_of(40, 41)), 1));
    lemma_gt_mul_at((29, 23), (40, 41), (15, 55), (2, 11));
    lemma_gt_mul_at((40, 41), (40, 41), (20, 84), (-1, 15));
    assert(GT::spow_steps(GT(gt_of(29, 23)), GT(gt_of(40, 41)), 1) == GT::spow_steps(GT(gt_of(15, 55)), GT(gt_of(20, 84)), 0));
}

/// The pairing of `13G` with the point `31 P` of the image of `H`.
proof fn lemma_pairing_13_31()
    ensures
        smiller_loop(g1p(65, 3), dq(20, 78)) is Some,
        spairing_at(g1p(65, 3), dq(20, 78)) == GT(gt_of(15, 55)),
{
    lemma_final_exponent();
    lemma_tangent_13_31();
    lemma_tangent_9_31();
    lemma_tangent_1_31();
    lemma_tangent_2_31();
    lemma_vertical_at(65, 98, 3, 20, 78);
    lemma_miller_at(
        g1p(65, 3),
        dq(20, 78),
        (g1p(18, 52), g1p(1, 2), g1p(68, 74), g1p(65, 98)),
        (25, 14),
        (100, 96),
        (20, 38),
        (46, 56),
        (-65, 20),
        ((25, 100, 4, 4), (71, 73, -71, 27), (15, 88, -3, 49), (87, 97, -31, -11)),
        ((79, 96, -19, 73), (76, 30, -18, 34), (15, 81, -55, -11)),
    );
    lemma_final_exp_13_31();
}

proof fn lemma_final_exp_14_31()
    ensures
        GT(gt_of(59, 41)).spow(600) == GT(gt_of(51, 9)),
{
    assert(GT::sone() == GT(gt_of(1, 0)));
    lemma_gt_mul_at((59, 41), (59, 41), (83, 26), (17, 31));
    assert(GT::spow_steps(GT(gt_of(1, 0)), GT(gt_of(59, 41)), 600) == GT::spow_steps(GT(gt_of(1, 0)), GT(gt_of(83, 26)), 300));
    lemma_gt_mul_at((83, 26), (83, 26), (52, 4), (61, 36));
    assert(GT::spow_steps(GT(gt_of(1, 0)), GT(gt_of(83, 26)), 300) == GT::spow_steps(GT(gt_of(1, 0)), GT(gt_of(52, 4)), 150));
    lemma_gt_mul_at((52, 4), (52, 4), (62, 97), (26, 3));
    assert(GT::spow_steps(GT(gt_of(1, 0)), GT(gt_of(52, 4)), 150) == GT::spow_steps(GT(gt_of(1, 0)), GT(gt_of(62, 97)), 75));
    lemma_gt_mul_at((1, 0), (62, 97), (62, 97), (0, 0));
    lemma_gt_mul_at((62, 97), (62, 97), (91, 94), (-56, 25));
    assert(GT::spow_steps(GT(gt_of(1, 0)), GT(gt_of(62, 97)), 75) == GT::spow_steps(GT(gt_of(62, 97)), GT(gt_of(91, 94)), 37));
    lemma_gt_mul_at((62, 97), (91, 94), (59, 83), (-35, 54));
    lemma_gt_mul_at((91, 94), (91, 94), (51, 91), (-6, 81));
    assert(GT::spow_steps(GT(gt_of(62, 97)), GT(gt_of(91, 94)), 37) == GT::spow_steps(GT(gt_of(59, 83)), GT(gt_of(51, 91)), 18));
    lemma_gt_mul_at((51, 91), (51, 91), (77, 92), (-57, 9));
    assert(GT::spow_steps(GT(gt_of(59, 83)), GT(gt_of(51, 91)), 18) == GT::spow_steps(GT(gt_of(59, 83)), GT(gt_of(77, 92)), 9));
    lemma_gt_mul_at((59, 83), (77, 92), (38, 42), (-31, 41));
    lemma_gt_mul_at((77, 92), (77, 92), (91, 48), (-26, 56));
    assert(GT::spow_steps(GT(gt_of(59, 83)), GT(gt_of(77, 92)), 9) == GT::spow_steps(GT(gt_of(38, 42)), GT(gt_of(91, 48)), 4));
    lemma_gt_mul_at((91, 48), (91, 48), (18, 69), (59, 63));
    assert(GT::spow_steps(GT(gt_of(38, 42)), GT(gt_of(91, 48)), 4) == GT::spow_steps(GT(gt_of(38, 42)), GT(gt_of(18, 69)), 2));
    lemma_gt_mul_at((18, 69), (18, 69), (7, 46), (-44, -23));
    assert(GT::spow_steps(GT(gt_of(38, 42)), GT(gt_of(18, 69)), 2) == GT::spow_steps(GT(gt_of(38, 42)), GT(gt_of(7, 46)), 1));
    lemma_gt_mul_at((38, 42), (7, 46), (51, 9), (-17, 1));
    lemma_gt_mul_at((7, 46), (7, 46), (54, 43), (-21, -15));
    assert(GT::spow_steps(GT(gt_of(38, 42)), GT(gt_of(7, 46)), 1) == GT::spow_steps(GT(gt_of(51, 9)), GT(gt_of(54, 43)), 0));
}

/// The pairing of `14G` with the point `31 P` of the image of `H`.
proof fn lemma_pairing_14_31()
    ensures
        smiller_loop(g1p(26, 56), dq(20, 78)) is Some,
        spairing_at(g1p(26, 56), dq(20, 78)) == GT(gt_of(51, 9)),
{
    lemma_final_exponent();
    lemma_tangent_14_31();
    lemma_tangent_11_31();
    lemma_tangent_5_31();
    lemma_tangent_10_31();
    lemma_vertical_at(26, 45, 56, 20, 78);
    lemma_miller_at(
        g1p(26, 56),
        dq(20, 78),
        (g1p(32, 59), g1p(12, 32), g1p(91, 66), g1p(26, 45)),
        (21, 2),
        (63, 58),
        (44, 51),
        (52, 22),
        (-26, 20),
        ((33, 80, 4, 0), (65, 92, -26, 22), (3, 62, -42, 34), (0, 22, -30, -3)),
        ((21, 21, -5, -5), (24, 82, 6, 10), (59, 41, -23, -33)),
    );
    lemma_final_exp_14_31();
}

proof fn lemma_final_exp_15_31()
    ensures
        GT(gt_of(84, 7)).spow(600) == GT(gt_of(78, 3)),
{
    assert(GT::sone() == GT(gt_of(1, 0)));
    lemma_gt_mul_at((84, 7), (84, 7), (38, 16), (69, 11));
    assert(GT::spow_steps(GT(gt_of(1, 0)), GT(gt_of(84, 7)), 600) == GT::spow_steps(GT(gt_of(1, 0)), GT(gt_of(38, 16)), 300));
    lemma_gt_mul_at((38, 16), (38, 16), (77, 51), (11, 9));
    assert(GT::spow_steps(GT(gt_of(1, 0)), GT(gt_of(38, 16)), 300) == GT::spow_steps(GT(gt_of(1, 0)), GT(gt_of(77, 51)), 150));
    lemma_gt_mul_at((77, 51), (77, 51), (96, 1), (32, 52));
    assert(GT::spow_steps(GT(gt_of(1, 0)), GT(gt_of(77, 51)), 150) == GT::spow_steps(GT(gt_of(1, 0)), GT(gt_of(96, 1)), 75));
    lemma_gt_mul_at((1, 0), (96, 1), (96, 1), (0, 0));
    lemma_gt_mul_at((96, 1), (96, 1), (24, 90), (91, 1));
    assert(GT::spow_steps(GT(gt_of(1, 0)), GT(gt_of(96, 1)), 75) == GT::spow_steps(GT(gt_of(96, 1)), GT(gt_of(24, 90)), 37));
    lemma_gt_mul_at((96, 1), (24, 90), (93, 90), (21, 84));
    lemma_gt_mul_at((24, 90), (24, 90), (51, 58), (-75, -38));
    assert(GT::spow_steps(GT(gt_of(96, 1)), GT(gt_of(24, 90)), 37) == GT::spow_steps(GT(gt_of(93, 90)), GT(gt_of(51, 58)), 18));
    lemma_gt_mul_at((51, 58), (51, 58), (45, 27), (-8, 25));
    assert(GT::spow_steps(GT(gt_of(93, 90)), GT(gt_of(51, 58)), 18) == GT::spow_steps(GT(gt_of(93, 90)), GT(gt_of(45, 27)), 9));
    lemma_gt_mul_at((93, 90), (45, 27), (38, 91), (17, 40));
    lemma_gt_mul_at((45, 27), (45, 27), (84, 85), (12, 16));
    assert(GT::spow_steps(GT(gt_of(93, 90)), GT(gt_of(45, 27)), 9) == GT::spow_steps(GT(gt_of(38, 91)), GT(gt_of(84, 85)), 4));
    lemma_gt_mul_at((84, 85), (84, 85), (33, 86), (-2, 69));
    assert(GT::spow_steps(GT(gt_of(38, 91)), GT(gt_of(84, 85)), 4) == GT::spow_steps(GT(gt_of(38, 91)), GT(gt_of(33, 86)), 2));
    lemma_gt_mul_at((33, 86), (33, 86), (56, 98), (-63, -18));
    assert(GT::spow_steps(GT(gt_of(38, 91)), GT(gt_of(33, 86)), 2) == GT::spow_steps(GT(gt_of(38, 91)), GT(gt_of(56, 98)), 1));
    lemma_gt_mul_at((38, 91), (56, 98), (78, 3), (-68, -1));
    lemma_gt_mul_at((56, 98), (56, 98), (97, 59), (-65, 13));
    assert(GT::spow_steps(GT(gt_of(38, 91)), GT(gt_of(56, 98)), 1) == GT::spow_steps(GT(gt_of(78, 3)), GT(gt_of(97, 59)), 0));
}

/// The pairing of `15G` with the point `31 P` of the image of `H`.
proof fn lemma_pairing_15_31()
    ensures
        smiller_loop(g1p(68, 27), dq(20, 78)) is Some,
        spairing_at(g1p(68, 27), dq(20, 78)) == GT(gt_of(78, 3)),
{
    lemma_final_exponent();
    lemma_tangent_15_31();
    lemma_tangent_13_31();
    lemma_tangent_9_31();
    lemma_tangent_1_31();
    lemma_vertical_at(68, 74, 27, 20, 78);
    lemma_miller_at(
        g1p(68, 27),
        dq(20, 78),
        (g1p(65, 3), g1p(18, 52), g1p(1, 2), g1p(68, 74)),
        (41, 12),
        (25, 14),
        (100, 96),
        (20, 38),
        (-68, 20),
        ((22, 32, 15, 8), (1, 54, 1, 6), (14, 20, -29, -28), (86, 10, -6, 14)),
        ((24, 4, 72, 16), (25, 32, 3, 8), (84, 7, -24, -23)),
    );
    lemma_final_exp_15_31();
}

proof fn lemma_final_exp_16_31()
    ensures
        GT(gt_of(57, 60)).spow(600) == GT(gt_of(14, 44)),
{
    assert(GT::sone() == GT(gt_of(1, 0)));
    lemma_gt_mul_at((57, 60), (57, 60), (53, 8), (-4, 32));
    assert(GT::spow_steps(GT(gt_of(1, 0)), GT(gt_of(57, 60)), 600) == GT::spow_steps(GT(gt_of(1, 0)), GT(gt_of(53, 8)), 300));
    lemma_gt_mul_at((53, 8), (53, 8), (18, 77), (27, 7));
    assert(GT::spow_steps(GT(gt_of(1, 0)), GT(gt_of(53, 8)), 300) == GT::spow_steps(GT(gt_of(1, 0)), GT(gt_of(18, 77)), 150));
    lemma_gt_mul_at((18, 77), (18, 77), (51, 75), (-56, -32));
    assert(GT::spow_steps(GT(gt_of(1, 0)), GT(gt_of(18, 77)), 150) == GT::spow_steps(GT(gt_of(1, 0)), GT(gt_of(51, 75)), 75));
    lemma_gt_mul_at((1, 0), (51, 75), (51, 75), (0, 0));
    lemma_gt_mul_at((51, 75), (51, 75), (6, 5), (-30, 20));
    assert(GT::spow_steps(GT(gt_of(1, 0)), GT(gt_of(51, 75)), 75) == GT::spow_steps(GT(gt_of(51, 75)), GT(gt_of(6, 5)), 37));
    lemma_gt_mul_at((51, 75), (6, 5), (32, 27), (-1, 3));
    lemma_gt_mul_at((6, 5), (6, 5), (11, 35), (0, 0));
    assert(GT::spow_steps(GT(gt_of(51, 75)), GT(gt_of(6, 5)), 37) == GT::spow_steps(GT(gt_of(32, 27)), GT(gt_of(11, 35)), 18));
    lemma_gt_mul_at((11, 35), (11, 35), (7, 50), (-11, -5));
    assert(GT::spow_steps(GT(gt_of(32, 27)), GT(gt_of(11, 35)), 18) == GT::spow_steps(GT(gt_of(32, 27)), GT(gt_of(7, 50)), 9));
    lemma_gt_mul_at((32, 27), (7, 50), (86, 35), (-12, 4));
    lemma_gt_mul_at((7, 50), (7, 50), (74, 18), (-25, -18));
    assert(GT::spow_steps(GT(gt_of(32, 27)), GT(gt_of(7, 50)), 9) == GT::spow_steps(GT(gt_of(86, 35)), GT(gt_of(74, 18)), 4));
    lemma_gt_mul_at((74, 18), (74, 18), (1, 17), (51, 23));
    assert(GT::spow_steps(GT(gt_of(86, 35)), GT(gt_of(74, 18)), 4) == GT::spow_steps(GT(gt_of(86, 35)), GT(gt_of(1, 17)), 2));
    lemma_gt_mul_at((1, 17), (1, 17), (15, 48), (-3, -3));
    assert(GT::spow_steps(GT(gt_of(86, 35)), GT(gt_of(1, 17)), 2) == GT::spow_steps(GT(gt_of(86, 35)), GT(gt_of(15, 48)), 1));
    lemma_gt_mul_at((86, 35), (15, 48), (14, 44), (-4, 29));
    lemma_gt_mul_at((15, 48), (15, 48), (42, 45), (-21, -9));
    assert(GT::spow_steps(GT(gt_of(86, 35)), GT(gt_of(15, 48)), 1) == GT::spow_steps(GT(gt_of(14, 44)), GT(gt_of(42, 45)), 0));
}

/// The pairing of `16G` with the point `31 P` of the image of `H`.
proof fn lemma_pairing_16_31()
    ensures
        smiller_loop(g1p(1, 99), dq(20, 78)) is Some,
        spairing_at(g1p(1, 99), dq(20, 78)) == GT(gt_of(14, 44)),
{
    lemma_final_exponent();
    lemma_tangent_16_31();
    lemma_tangent_15_31();
    lemma_tangent_13_31();
    lemma_tangent_9_31();
    lemma_vertical_at(1, 2, 99, 20, 78);
    lemma_miller_at(
        g1p(1, 99),
        dq(20, 78),
        (g1p(68, 27), g1p(65, 3), g1p(18, 52), g1p(1, 2)),
        (91, 1),
        (41, 12),
        (25, 14),
        (100, 96),
        (-1, 20),
        ((99, 80, 81, 1), (69, 74, 30, 34), (93, 90, -8, 46), (55, 70, 10, 22)),
        ((44, 73, -19, 27), (18, 72, -26, 44), (57, 60, -15, -12)),
    );
    lemma_final_exp_16_31();
}

proof fn lemma_final_exp_1_32()
    ensures
        GT(gt_of(26, 68)).spow(600) == GT(gt_of(12, 20)),
{
    assert(GT::sone() == GT(gt_of(1, 0)));
    lemma_gt_mul_at((26, 68), (26, 68), (92, 23), (-40, -11));
    assert(GT::spow_steps(GT(gt_of(1, 0)), GT(gt_of(26, 68)), 600) == GT::spow_steps(GT(gt_of(1, 0)), GT(gt_of(92, 23)), 300));
    lemma_gt_mul_at((92, 23), (92, 23), (57, 67), (78, 36));
    assert(GT::spow_steps(GT(gt_of(1, 0)), GT(gt_of(92, 23)), 300) == GT::spow_steps(GT(gt_of(1, 0)), GT(gt_of(57, 67)), 150));
    lemma_gt_mul_at((57, 67), (57, 67), (73, 18), (-13, 31));
    assert(GT::spow_steps(GT(gt_of(1, 0)), GT(gt_of(57, 67)), 150) == GT::spow_steps(GT(gt_of(1, 0)), GT(gt_of(73, 18)), 75));
    lemma_gt_mul_at((1, 0), (73, 18), (73, 18), (0, 0));
    lemma_gt_mul_at((73, 18), (73, 18), (56, 82), (49, 22));
    assert(GT::spow_steps(GT(gt_of(1, 0)), GT(gt_of(73, 18)), 75) == GT::spow_steps(GT(gt_of(73, 18)), GT(gt_of(56, 82)), 37));
    lemma_gt_mul_at((73, 18), (56, 82), (87, 64), (25, 54));
    lemma_gt_mul_at((56, 82), (56, 82), (48, 36), (-36, 24));
    assert(GT::spow_steps(GT(gt_of(73, 18)), GT(gt_of(56, 82)), 37) == GT::spow_steps(GT(gt_of(87, 64)), GT(gt_of(48, 36)), 18));
    lemma_gt_mul_at((48, 36), (48, 36), (99, 39), (9, 21));
    assert(GT::spow_steps(GT(gt_of(87, 64)), GT(gt_of(48, 36)), 18) == GT::spow_steps(GT(gt_of(87, 64)), GT(gt_of(99, 39)), 9));
    lemma_gt_mul_at((87, 64), (99, 39), (57, 62), (60, 71));
    lemma_gt_mul_at((99, 39), (99, 39), (99, 40), (81, 61));
    assert(GT::spow_steps(GT(gt_of(87, 64)), GT(gt_of(99, 39)), 9) == GT::spow_steps(GT(gt_of(57, 62)), GT(gt_of(99, 40)), 4));
    lemma_gt_mul_at((99, 40), (99, 40), (20, 58), (81, 62));
    assert(GT::spow_steps(GT(gt_of(57, 62)), GT(gt_of(99, 40)), 4) == GT::spow_steps(GT(gt_of(57, 62)), GT(gt_of(20, 58)), 2));
    lemma_gt_mul_at((20, 58), (20, 58), (66, 67), (-30, -11));
    assert(GT::spow_steps(GT(gt_of(57, 62)), GT(gt_of(20, 58)), 2) == GT::spow_steps(GT(gt_of(57, 62)), GT(gt_of(66, 67)), 1));
    lemma_gt_mul_at((57, 62), (66, 67), (12, 20), (-4, 37));
    lemma_gt_mul_at((66, 67), (66, 67), (69, 12), (-2, 43));
    assert(GT::spow_steps(GT(gt_of(57, 62)), GT(gt_of(66, 67)), 1) == GT::spow_steps(GT(gt_of(12, 20)), GT(gt_of(69, 12)), 0));
}

/// The pairing of `1G` with the point `32 P` of the image of `H`.
proof fn lemma_pairing_1_32()
    ensures
        smiller_loop(g1p(1, 2), dq(65, 98)) is Some,
        spairing_at(g1p(1, 2), dq(65, 98)) == GT(gt_of(12, 20)),
{
    lemma_final_exponent();
    lemma_tangent_1_32();
    lemma_tangent_2_32();
    lemma_tangent_4_32();
    lemma_tangent_8_32();
    lemma_vertical_at(1, 99, 2, 65, 98);
    lemma_miller_at(
        g1p(1, 2),
        dq(65, 98),
        (g1p(68, 74), g1p(65, 98), g1p(18, 49), g1p(1, 99)),
        (79, 46),
        (66, 28),
        (84, 84),
        (3, 19),
        (-1, 65),
        ((85, 1, 40, 51), (27, 95, 55, 23), (87, 44, -83, -39), (77, 36, 35, 72)),
        ((88, 6, 45, 42), (49, 61, 1, 15), (26, 68, -40, -9)),
    );
    lemma_final_exp_1_32();
}

proof fn lemma_final_exp_2_32()
    ensures
        GT(gt_of(2, 51)).spow(600) == GT(gt_of(47, 80)),
{
    assert(GT::sone() == GT(gt_of(1, 0)));
    lemma_gt_mul_at((2, 51), (2, 51), (29, 27), (-26, -24));
    assert(GT::spow_steps(GT(gt_of(1, 0)), GT(gt_of(2, 51)), 600) == GT::spow_steps(GT(gt_of(1, 0)), GT(gt_of(29, 27)), 300));
    lemma_gt_mul_at((29, 27), (29, 27), (11, 29), (1, 8));
    assert(GT::spow_steps(GT(gt_of(1, 0)), GT(gt_of(29, 27)), 300) == GT::spow_steps(GT(gt_of(1, 0)), GT(gt_of(11, 29)), 150));
    lemma_gt_mul_at((11, 29), (11, 29), (88, 100), (-8, -3));
    assert(GT::spow_steps(GT(gt_of(1, 0)), GT(gt_of(11, 29)), 150) == GT::spow_steps(GT(gt_of(1, 0)), GT(gt_of(88, 100)), 75));
    lemma_gt_mul_at((1, 0), (88, 100), (88, 100), (0, 0));
    lemma_gt_mul_at((88, 100), (88, 100), (67, 25), (-23, 75));
    assert(GT::spow_steps(GT(gt_of(1, 0)), GT(gt_of(88, 100)), 75) == GT::spow_steps(GT(gt_of(88, 100)), GT(gt_of(67, 25)), 37));
    lemma_gt_mul_at((88, 100), (67, 25), (63, 37), (33, 63));
    lemma_gt_mul_at((67, 25), (67, 25), (26, 99), (38, 26));
    assert(GT::spow_steps(GT(gt_of(88, 100)), GT(gt_of(67, 25)), 37) == GT::spow_steps(GT(gt_of(63, 37)), GT(gt_of(26, 99)), 18));
    lemma_gt_mul_at((26, 99), (26, 99), (66, 94), (-91, -47));
    assert(GT::spow_steps(GT(gt_of(63, 37)), GT(gt_of(26, 99)), 18) == GT::spow_steps(GT(gt_of(63, 37)), GT(gt_of(66, 94)), 9));
    lemma_gt_mul_at((63, 37), (66, 94), (74, 38), (6, 48));
    lemma_gt_mul_at((66, 94), (66, 94), (65, 37), (-45, 35));
    assert(GT::spow_steps(GT(gt_of(63, 37)), GT(gt_of(66, 94)), 9) == GT::spow_steps(GT(gt_of(74, 38)), GT(gt_of(65, 37)), 4));
    lemma_gt_mul_at((65, 37), (65, 37), (28, 7), (28, 34));
    assert(GT::spow_steps(GT(gt_of(74, 38)), GT(gt_of(65, 37)), 4) == GT::spow_steps(GT(gt_of(74, 38)), GT(gt_of(28, 7)), 2));
    lemma_gt_mul_at((28, 7), (28, 7), (28, 40), (7, 3));
    assert(GT::spow_steps(GT(gt_of(74, 38)), GT(gt_of(28, 7)), 2) == GT::spow_steps(GT(gt_of(74, 38)), GT(gt_of(28, 40)), 1));
    lemma_gt_mul_at((74, 38), (28, 40), (47, 80), (5, 24));
    lemma_gt_mul_at((28, 40), (28, 40), (93, 34), (-9, 6));
    assert(GT::spow_steps(GT(gt_of(74, 38)), GT(gt_of(28, 40)), 1) == GT::spow_steps(GT(gt_of(47, 80)), GT(gt_of(93, 34)), 0));
}

/// The pairing of `2G` with the point `32 P` of the image of `H`.
proof fn lemma_pairing_2_32()
    ensures
        smiller_loop(g1p(68, 74), dq(65, 98)) is Some,
        spairing_at(g1p(68, 74), dq(65, 98)) == GT(gt_of(47, 80)),
{
    lemma_final_exponent();
    lemma_tangent_2_32();
    lemma_tangent_4_32();
    lemma_tangent_8_32();
    lemma_tangent_16_32();
    lemma_vertical_at(68, 27, 74, 65, 98);
    lemma_miller_at(
        g1p(68, 74),
        dq(65, 98),
        (g1p(65, 98), g1p(18, 49), g1p(1, 99), g1p(68, 27)),
        (66, 28),
        (84, 84),
        (3, 19),
        (43, 44),
        (-68, 65),
        ((37, 84, 35, 28), (92, 78, -40, 30), (57, 87, 23, 81), (33, 95, -15, -4)),
        ((43, 73, -79, -28), (51, 1, -14, 18), (2, 51, -35, 31)),
    );
    lemma_final_exp_2_32();
}

proof fn lemma_final_exp_3_32()
    ensures
        GT(gt_of(85, 15)).spow(600) == GT(gt_of(75, 98)),
{
    assert(GT::sone() == GT(gt_of(1, 0)));
    lemma_gt_mul_at((85, 15), (85, 15), (31, 2), (69, 23));
    assert(GT::spow_steps(GT(gt_of(1, 0)), GT(gt_of(85, 15)), 600) == GT::spow_steps(GT(gt_of(1, 0)), GT(gt_of(31, 2)), 300));
    lemma_gt_mul_at((31, 2), (31, 2), (48, 19), (9, 1));
    assert(GT::spow_steps(GT(gt_of(1, 0)), GT(gt_of(31, 2)), 300) == GT::spow_steps(GT(gt_of(1, 0)), GT(gt_of(48, 19)), 150));
    lemma_gt_mul_at((48, 19), (48, 19), (24, 49), (19, 14));
    assert(GT::spow_steps(GT(gt_of(1, 0)), GT(gt_of(48, 19)), 150) == GT::spow_steps(GT(gt_of(1, 0)), GT(gt_of(24, 49)), 75));
    lemma_gt_mul_at((1, 0), (24, 49), (24, 49), (0, 0));
    lemma_gt_mul_at((24, 49), (24, 49), (94, 52), (-19, -1));
    assert(GT::spow_steps(GT(gt_of(1, 0)), GT(gt_of(24, 49)), 75) == GT::spow_steps(GT(gt_of(24, 49)), GT(gt_of(94, 52)), 37));
    lemma_gt_mul_at((24, 49), (94, 52), (11, 74), (-3, 32));
    lemma_gt_mul_at((94, 52), (94, 52), (72, 2), (60, 70));
    assert(GT::spow_steps(GT(gt_of(24, 49)), GT(gt_of(94, 52)), 37) == GT::spow_steps(GT(gt_of(11, 74)), GT(gt_of(72, 2)), 18));
    lemma_gt_mul_at((72, 2), (72, 2), (29, 82), (51, 2));
    assert(GT::spow_steps(GT(gt_of(11, 74)), GT(gt_of(72, 2)), 18) == GT::spow_steps(GT(gt_of(11, 74)), GT(gt_of(29, 82)), 9));
    lemma_gt_mul_at((11, 74), (29, 82), (8, 10), (-57, -30));
    lemma_gt_mul_at((29, 82), (29, 82), (76, 52), (-59, -20));
    assert(GT::spow_steps(GT(gt_of(11, 74)), GT(gt_of(29, 82)), 9) == GT::spow_steps(GT(gt_of(8, 10)), GT(gt_of(76, 52)), 4));
    lemma_gt_mul_at((76, 52), (76, 52), (42, 49), (30, 51));
    assert(GT::spow_steps(GT(gt_of(8, 10)), GT(gt_of(76, 52)), 4) == GT::spow_steps(GT(gt_of(8, 10)), GT(gt_of(42, 49)), 2));
    lemma_gt_mul_at((42, 49), (42, 49), (70, 99), (-7, 16));
    assert(GT::spow_steps(GT(gt_of(8, 10)), GT(gt_of(42, 49)), 2) == GT::spow_steps(GT(gt_of(8, 10)), GT(gt_of(70, 99)), 1));
    lemma_gt_mul_at((8, 10), (70, 99), (75, 98), (-5, 4));
    lemma_gt_mul_at((70, 99), (70, 99), (48, 19), (-49, 40));
    assert(GT::spow_steps(GT(gt_of(8, 10)), GT(gt_of(70, 99)), 1) == GT::spow_steps(GT(gt_of(75, 98)), GT(gt_of(48, 19)), 0));
}

/// The pairing of `3G` with the point `32 P` of the image of `H`.
proof fn lemma_pairing_3_32()
    ensures
        smiller_loop(g1p(26, 45), dq(65, 98)) is Some,
        spairing_at(g1p(26, 45), dq(65, 98)) == GT(gt_of(75, 98)),
{
    lemma_final_exponent();
    lemma_tangent_3_32();
    lemma_tangent_6_32();
    lemma_tangent_12_32();
    lemma_tangent_7_32();
    lemma_vertical_at(26, 56, 45, 65, 98);
    lemma_miller_at(
        g1p(26, 45),
        dq(65, 98),
        (g1p(32, 42), g1p(12, 69), g1p(91, 35), g1p(26, 56)),
        (89, 14),
        (66, 24),
        (5, 14),
        (5, 19),
        (-26, 65),
        ((49, 74, 76, 22), (44, 42, 14, 42), (71, 13, 1, 19), (72, 69, 1, 8)),
        ((19, 24, 4, 51), (43, 25, -4, 0), (85, 15, -28, 5)),
    );
    lemma_final_exp_3_32();
}

proof fn lemma_final_exp_4_32()
    ensures
        GT(gt_of(64, 58)).spow(600) == GT(gt_of(51, 9)),
{
    assert(GT::sone() == GT(gt_of(1, 0)));
    lemma_gt_mul_at((64, 58), (64, 58), (25, 20), (7, 40));
    assert(GT::spow_steps(GT(gt_of(1, 0)), GT(gt_of(64, 58)), 600) == GT::spow_steps(GT(gt_of(1, 0)), GT(gt_of(25, 20)), 300));
    lemma_gt_mul_at((25, 20), (25, 20), (23, 95), (2, 5));
    assert(GT::spow_steps(GT(gt_of(1, 0)), GT(gt_of(25, 20)), 300) == GT::spow_steps(GT(gt_of(1, 0)), GT(gt_of(23, 95)), 150));
    lemma_gt_mul_at((23, 95), (23, 95), (89, 92), (-85, -47));
    assert(GT::spow_steps(GT(gt_of(1, 0)), GT(gt_of(23, 95)), 150) == GT::spow_steps(GT(gt_of(1, 0)), GT(gt_of(89, 92)), 75));
    lemma_gt_mul_at((1, 0), (89, 92), (89, 92), (0, 0));
    lemma_gt_mul_at((89, 92), (89, 92), (63, 34), (-6, 78));
    assert(GT::spow_steps(GT(gt_of(1, 0)), GT(gt_of(89, 92)), 75) == GT::spow_steps(GT(gt_of(89, 92)), GT(gt_of(63, 34)), 37));
    lemma_gt_mul_at((89, 92), (63, 34), (55, 38), (24, 56));
    lemma_gt_mul_at((63, 34), (63, 34), (86, 98), (27, 30));
    assert(GT::spow_steps(GT(gt_of(89, 92)), GT(gt_of(63, 34)), 37) == GT::spow_steps(GT(gt_of(55, 38)), GT(gt_of(86, 98)), 18));
    lemma_gt_mul_at((86, 98), (86, 98), (14, 81), (-22, 71));
    assert(GT::spow_steps(GT(gt_of(55, 38)), GT(gt_of(86, 98)), 18) == GT::spow_steps(GT(gt_of(55, 38)), GT(gt_of(14, 81)), 9));
    lemma_gt_mul_at((55, 38), (14, 81), (15, 91), (-23, 18));
    lemma_gt_mul_at((14, 81), (14, 81), (99, 50), (-64, -43));
    assert(GT::spow_steps(GT(gt_of(55, 38)), GT(gt_of(14, 81)), 9) == GT::spow_steps(GT(gt_of(15, 91)), GT(gt_of(99, 50)), 4));
    lemma_gt_mul_at((99, 50), (99, 50), (29, 27), (72, 73));
    assert(GT::spow_steps(GT(gt_of(15, 91)), GT(gt_of(99, 50)), 4) == GT::spow_steps(GT(gt_of(15, 91)), GT(gt_of(29, 27)), 2));
    lemma_gt_mul_at((29, 27), (29, 27), (11, 29), (1, 8));
    assert(GT::spow_steps(GT(gt_of(15, 91)), GT(gt_of(29, 27)), 2) == GT::spow_steps(GT(gt_of(15, 91)), GT(gt_of(11, 29)), 1));
    lemma_gt_mul_at((15, 91), (11, 29), (51, 9), (-25, -12));
    lemma_gt_mul_at((11, 29), (11, 29), (88, 100), (-8, -3));
    assert(GT::spow_steps(GT(gt_of(15, 91)), GT(gt_of(11, 29)), 1) == GT::spow_steps(GT(gt_of(51, 9)), GT(gt_of(88, 100)), 0));
}

/// The pairing of `4G` with the point `32 P` of the image of `H`.
proof fn lemma_pairing_4_32()
    ensures
        smiller_loop(g1p(65, 98), dq(65, 98)) is Some,
        spairing_at(g1p(65, 98), dq(65, 98)) == GT(gt_of(51, 9)),
{
    lemma_final_exponent();
    lemma_tangent_4_32();
    lemma_tangent_8_32();
    lemma_tangent_16_32();
    lemma_tangent_15_32();
    lemma_vertical_at(65, 3, 98, 65, 98);
    lemma_miller_at(
        g1p(65, 98),
        dq(65, 98),
        (g1p(18, 49), g1p(1, 99), g1p(68, 27), g1p(65, 3)),
        (84, 84),
        (3, 19),
        (43, 44),
        (91, 0),
        (-65, 65),
        ((0, 87, 0, 69), (64, 22, -17, -14), (77, 9, 35, 23), (87, 46, 28, 33)),
        ((100, 30, 53, 58), (10, 3, 90, 27), (64, 58, -9, 2)),
    );
    lemma_final_exp_4_32();
}

proof fn lemma_final_exp_5_32()
    ensures
        GT(gt_of(84, 76)).spow(600) == GT(gt_of(28, 39)),
{
    assert(GT::sone() == GT(gt_of(1, 0)));
    lemma_gt_mul_at((84, 76), (84, 76), (68, 23), (12, 69));
    assert(GT::spow_steps(GT(gt_of(1, 0)), GT(gt_of(84, 76)), 600) == GT::spow_steps(GT(gt_of(1, 0)), GT(gt_of(68, 23)), 300));
    lemma_gt_mul_at((68, 23), (68, 23), (55, 74), (40, 25));
    assert(GT::spow_steps(GT(gt_of(1, 0)), GT(gt_of(68, 23)), 300) == GT::spow_steps(GT(gt_of(1, 0)), GT(gt_of(55, 74)), 150));
    lemma_gt_mul_at((55, 74), (55, 74), (74, 38), (-25, 26));
    assert(GT::spow_steps(GT(gt_of(1, 0)), GT(gt_of(55, 74)), 150) == GT::spow_steps(GT(gt_of(1, 0)), GT(gt_of(74, 38)), 75));
    lemma_gt_mul_at((1, 0), (74, 38), (74, 38), (0, 0));
    lemma_gt_mul_at((74, 38), (74, 38), (93, 39), (39, 41));
    assert(GT::spow_steps(GT(gt_of(1, 0)), GT(gt_of(74, 38)), 75) == GT::spow_steps(GT(gt_of(74, 38)), GT(gt_of(93, 39)), 37));
    lemma_gt_mul_at((74, 38), (93, 39), (47, 90), (53, 48));
    lemma_gt_mul_at((93, 39), (93, 39), (58, 77), (70, 56));
    assert(GT::spow_steps(GT(gt_of(74, 38)), GT(gt_of(93, 39)), 37) == GT::spow_steps(GT(gt_of(47, 90)), GT(gt_of(58, 77)), 18));
    lemma_gt_mul_at((58, 77), (58, 77), (61, 74), (-26, 29));
    assert(GT::spow_steps(GT(gt_of(47, 90)), GT(gt_of(58, 77)), 18) == GT::spow_steps(GT(gt_of(47, 90)), GT(gt_of(61, 74)), 9));
    lemma_gt_mul_at((47, 90), (61, 74), (45, 86), (-38, 22));
    lemma_gt_mul_at((61, 74), (61, 74), (63, 17), (-18, 35));
    assert(GT::spow_steps(GT(gt_of(47, 90)), GT(gt_of(61, 74)), 9) == GT::spow_steps(GT(gt_of(45, 86)), GT(gt_of(63, 17)), 4));
    lemma_gt_mul_at((63, 17), (63, 17), (44, 35), (36, 18));
    assert(GT::spow_steps(GT(gt_of(45, 86)), GT(gt_of(63, 17)), 4) == GT::spow_steps(GT(gt_of(45, 86)), GT(gt_of(44, 35)), 2));
    lemma_gt_mul_at((44, 35), (44, 35), (4, 37), (7, 18));
    assert(GT::spow_steps(GT(gt_of(45, 86)), GT(gt_of(44, 35)), 2) == GT::spow_steps(GT(gt_of(45, 86)), GT(gt_of(4, 37)), 1));
    lemma_gt_mul_at((45, 86), (4, 37), (28, 39), (-30, -12));
    lemma_gt_mul_at((4, 37), (4, 37), (61, 38), (-14, -11));
    assert(GT::spow_steps(GT(gt_of(45, 86)), GT(gt_of(4, 37)), 1) == GT::spow_steps(GT(gt_of(28, 39)), GT(gt_of(61, 38)), 0));
}

/// The pairing of `5G` with the point `32 P` of the image of `H`.
proof fn lemma_pairing_5_32()
    ensures
        smiller_loop(g1p(12, 32), dq(65, 98)) is Some,
        spairing_at(g1p(12, 32), dq(65, 98)) == GT(gt_of(28, 39)),
{
    lemma_final_exponent();
    lemma_tangent_5_32();
    lemma_tangent_10_32();
    lemma_tangent_3_32();
    lemma_tangent_6_32();
    lemma_vertical_at(12, 69, 32, 65, 98);
    lemma_miller_at(
        g1p(12, 32),
        dq(65, 98),
        (g1p(91, 66), g1p(26, 45), g1p(32, 42), g1p(12, 69)),
        (19, 97),
        (16, 97),
        (89, 14),
        (66, 24),
        (-12, 65),
        ((42, 34, -90, -57), (0, 7, -26, 13), (52, 52, -1, -1), (62, 83, 38, 45)),
        ((86, 70, -31, 33), (57, 55, 39, 49), (84, 76, -43, -6)),
    );
    lemma_final_exp_5_32();
}

proof fn lemma_final_exp_6_32()
    ensures
        GT(gt_of(78, 5)).spow(600) == GT(gt_of(61, 46)),
{
    assert(GT::sone() == GT(gt_of(1, 0)));
    lemma_gt_mul_at((78, 5), (78, 5), (100, 48), (59, 7));
    assert(GT::spow_steps(GT(gt_of(1, 0)), GT(gt_of(78, 5)), 600) == GT::spow_steps(GT(gt_of(1, 0)), GT(gt_of(100, 48)), 300));
    lemma_gt_mul_at((100, 48), (100, 48), (20, 24), (76, 72));
    assert(GT::spow_steps(GT(gt_of(1, 0)), GT(gt_of(100, 48)), 300) == GT::spow_steps(GT(gt_of(1, 0)), GT(gt_of(20, 24)), 150));
    lemma_gt_mul_at((20, 24), (20, 24), (26, 81), (-2, 3));
    assert(GT::spow_steps(GT(gt_of(1, 0)), GT(gt_of(20, 24)), 150) == GT::spow_steps(GT(gt_of(1, 0)), GT(gt_of(26, 81)), 75));
    lemma_gt_mul_at((1, 0), (26, 81), (26, 81), (0, 0));
    lemma_gt_mul_at((26, 81), (26, 81), (74, 75), (-59, -24));
    assert(GT::spow_steps(GT(gt_of(1, 0)), GT(gt_of(26, 81)), 75) == GT::spow_steps(GT(gt_of(26, 81)), GT(gt_of(74, 75)), 37));
    lemma_gt_mul_at((26, 81), (74, 75), (91, 51), (-42, 18));
    lemma_gt_mul_at((74, 75), (74, 75), (53, 21), (-2, 54));
    assert(GT::spow_steps(GT(gt_of(26, 81)), GT(gt_of(74, 75)), 37) == GT::spow_steps(GT(gt_of(91, 51)), GT(gt_of(53, 21)), 18));
    lemma_gt_mul_at((53, 21), (53, 21), (45, 68), (23, 17));
    assert(GT::spow_steps(GT(gt_of(91, 51)), GT(gt_of(53, 21)), 18) == GT::spow_steps(GT(gt_of(91, 51)), GT(gt_of(45, 68)), 9));
    lemma_gt_mul_at((91, 51), (45, 68), (21, 66), (6, 49));
    lemma_gt_mul_at((45, 68), (45, 68), (27, 82), (-26, 14));
    assert(GT::spow_steps(GT(gt_of(91, 51)), GT(gt_of(45, 68)), 9) == GT::spow_steps(GT(gt_of(21, 66)), GT(gt_of(27, 82)), 4));
    lemma_gt_mul_at((27, 82), (27, 82), (65, 27), (-60, -23));
    assert(GT::spow_steps(GT(gt_of(21, 66)), GT(gt_of(27, 82)), 4) == GT::spow_steps(GT(gt_of(21, 66)), GT(gt_of(65, 27)), 2));
    lemma_gt_mul_at((65, 27), (65, 27), (62, 54), (34, 27));
    assert(GT::spow_steps(GT(gt_of(21, 66)), GT(gt_of(65, 27)), 2) == GT::spow_steps(GT(gt_of(21, 66)), GT(gt_of(62, 54)), 1));
    lemma_gt_mul_at((21, 66), (62, 54), (61, 46), (-23, 16));
    lemma_gt_mul_at((62, 54), (62, 54), (19, 43), (9, 37));
    assert(GT::spow_steps(GT(gt_of(21, 66)), GT(gt_of(62, 54)), 1) == GT::spow_steps(GT(gt_of(61, 46)), GT(gt_of(19, 43)), 0));
}

/// The pairing of `6G` with the point `32 P` of the image of `H`.
proof fn lemma_pairing_6_32()
    ensures
        smiller_loop(g1p(32, 42), dq(65, 98)) is Some,
        spairing_at(g1p(32, 42), dq(65, 98)) == GT(gt_of(61, 46)),
{
    lemma_final_exponent();
    lemma_tangent_6_32();
    lemma_tangent_12_32();
    lemma_tangent_7_32();
    lemma_tangent_14_32();
    lemma_vertical_at(32, 59, 42, 65, 98);
    lemma_miller_at(
        g1p(32, 42),
        dq(65, 98),
        (g1p(12, 69), g1p(91, 35), g1p(26, 56), g1p(32, 59)),
        (66, 24),
        (5, 14),
        (5, 19),
        (86, 46),
        (-32, 65),
        ((43, 67, 37, 25), (85, 100, -8, -1), (53, 31, -28, 69), (80, 68, -4, 5)),
        ((59, 95, 17, 61), (98, 50, 6, 64), (78, 5, -64, 15)),
    );
    lemma_final_exp_6_32();
}

proof fn lemma_final_exp_7_32()
    ensures
        GT(gt_of(66, 42)).spow(600) == GT(gt_of(14, 44)),
{
    assert(GT::sone() == GT(gt_of(1, 0)));
    lemma_gt_mul_at((66, 42), (66, 42), (67, 43), (25, 37));
    assert(GT::spow_steps(GT(gt_of(1, 0)), GT(gt_of(66, 42)), 600) == GT::spow_steps(GT(gt_of(1, 0)), GT(gt_of(67, 43)), 300));
    lemma_gt_mul_at((67, 43), (67, 43), (14, 75), (26, 38));
    assert(GT::spow_steps(GT(gt_of(1, 0)), GT(gt_of(67, 43)), 300) == GT::spow_steps(GT(gt_of(1, 0)), GT(gt_of(14, 75)), 150));
    lemma_gt_mul_at((14, 75), (14, 75), (25, 10), (-54, -35));
    assert(GT::spow_steps(GT(gt_of(1, 0)), GT(gt_of(14, 75)), 150) == GT::spow_steps(GT(gt_of(1, 0)), GT(gt_of(25, 10)), 75));
    lemma_gt_mul_at((1, 0), (25, 10), (25, 10), (0, 0));
    lemma_gt_mul_at((25, 10), (25, 10), (20, 97), (5, 3));
    assert(GT::spow_steps(GT(gt_of(1, 0)), GT(gt_of(25, 10)), 75) == GT::spow_steps(GT(gt_of(25, 10)), GT(gt_of(20, 97)), 37));
    lemma_gt_mul_at((25, 10), (20, 97), (35, 39), (-5, 16));
    lemma_gt_mul_at((20, 97), (20, 97), (81, 26), (-90, -55));
    assert(GT::spow_steps(GT(gt_of(25, 10)), GT(gt_of(20, 97)), 37) == GT::spow_steps(GT(gt_of(35, 39)), GT(gt_of(81, 26)), 18));
    lemma_gt_mul_at((81, 26), (81, 26), (27, 1), (58, 35));
    assert(GT::spow_steps(GT(gt_of(35, 39)), GT(gt_of(81, 26)), 18) == GT::spow_steps(GT(gt_of(35, 39)), GT(gt_of(27, 1)), 9));
    lemma_gt_mul_at((35, 39), (27, 1), (98, 39), (8, 10));
    lemma_gt_mul_at((27, 1), (27, 1), (21, 53), (7, 0));
    assert(GT::spow_steps(GT(gt_of(35, 39)), GT(gt_of(27, 1)), 9) == GT::spow_steps(GT(gt_of(98, 39)), GT(gt_of(21, 53)), 4));
    lemma_gt_mul_at((21, 53), (21, 53), (56, 23), (-24, -6));
    assert(GT::spow_steps(GT(gt_of(98, 39)), GT(gt_of(21, 53)), 4) == GT::spow_steps(GT(gt_of(98, 39)), GT(gt_of(56, 23)), 2));
    lemma_gt_mul_at((56, 23), (56, 23), (82, 27), (25, 20));
    assert(GT::spow_steps(GT(gt_of(98, 39)), GT(gt_of(56, 23)), 2) == GT::spow_steps(GT(gt_of(98, 39)), GT(gt_of(82, 27)), 1));
    lemma_gt_mul_at((98, 39), (82, 27), (14, 44), (69, 47));
    lemma_gt_mul_at((82, 27), (82, 27), (36, 63), (59, 36));
    assert(GT::spow_steps(GT(gt_of(98, 39)), GT(gt_of(82, 27)), 1) == GT::spow_steps(GT(gt_of(14, 44)), GT(gt_of(36, 63)), 0));
}

/// The pairing of `7G` with the point `32 P` of the image of `H`.
proof fn lemma_pairing_7_32()
    ensures
        smiller_loop(g1p(91, 35), dq(65, 98)) is Some,
        spairing_at(g1p(91, 35), dq(65, 98)) == GT(gt_of(14, 44)),
{
    lemma_final_exponent();
    lemma_tangent_7_32();
    lemma_tangent_14_32();
    lemma_tangent_11_32();
    lemma_tangent_5_32();
    lemma_vertical_at(91, 66, 35, 65, 98);
    lemma_miller_at(
        g1p(91, 35),
        dq(65, 98),
        (g1p(26, 56), g1p(32, 59), g1p(12, 32), g1p(91, 66)),
        (5, 19),
        (86, 46),
        (6, 84),
        (19, 97),
        (-91, 65),
        ((68, 31, -4, -2), (79, 25, 43, 43), (61, 93, 55, 32), (28, 92, -74, -22)),
        ((97, 21, -77, -33), (8, 95, -2, 76), (66, 42, -69, -142)),
    );
    lemma_final_exp_7_32();
}

proof fn lemma_final_exp_8_32()
    ensures
        GT(gt_of(79, 92)).spow(600) == GT(gt_of(96, 29)),
{
    assert(GT::sone() == GT(gt_of(1, 0)));
    lemma_gt_mul_at((79, 92), (79, 92), (100, 12), (-23, 60));
    assert(GT::spow_steps(GT(gt_of(1, 0)), GT(gt_of(79, 92)), 600) == GT::spow_steps(GT(gt_of(1, 0)), GT(gt_of(100, 12)), 300));
    lemma_gt_mul_at((100, 12), (100, 12), (59, 34), (97, 22));
    assert(GT::spow_steps(GT(gt_of(1, 0)), GT(gt_of(100, 12)), 300) == GT::spow_steps(GT(gt_of(1, 0)), GT(gt_of(59, 34)), 150));
    lemma_gt_mul_at((59, 34), (59, 34), (2, 28), (23, 28));
    assert(GT::spow_steps(GT(gt_of(1, 0)), GT(gt_of(59, 34)), 150) == GT::spow_steps(GT(gt_of(1, 0)), GT(gt_of(2, 28)), 75));
    lemma_gt_mul_at((1, 0), (2, 28), (2, 28), (0, 0));
    lemma_gt_mul_at((2, 28), (2, 28), (28, 35), (-8, -7));
    assert(GT::spow_steps(GT(gt_of(1, 0)), GT(gt_of(2, 28)), 75) == GT::spow_steps(GT(gt_of(2, 28)), GT(gt_of(28, 35)), 37));
    lemma_gt_mul_at((2, 28), (28, 35), (86, 76), (-10, -2));
    lemma_gt_mul_at((28, 35), (28, 35), (64, 28), (-5, 7));
    assert(GT::spow_steps(GT(gt_of(2, 28)), GT(gt_of(28, 35)), 37) == GT::spow_steps(GT(gt_of(86, 76)), GT(gt_of(64, 28)), 18));
    lemma_gt_mul_at((64, 28), (64, 28), (80, 73), (32, 27));
    assert(GT::spow_steps(GT(gt_of(86, 76)), GT(gt_of(64, 28)), 18) == GT::spow_steps(GT(gt_of(86, 76)), GT(gt_of(80, 73)), 9));
    lemma_gt_mul_at((86, 76), (80, 73), (19, 43), (13, 67));
    lemma_gt_mul_at((80, 73), (80, 73), (61, 89), (10, 62));
    assert(GT::spow_steps(GT(gt_of(86, 76)), GT(gt_of(80, 73)), 9) == GT::spow_steps(GT(gt_of(19, 43)), GT(gt_of(61, 89)), 4));
    lemma_gt_mul_at((61, 89), (61, 89), (42, 8), (-42, 29));
    assert(GT::spow_steps(GT(gt_of(19, 43)), GT(gt_of(61, 89)), 4) == GT::spow_steps(GT(gt_of(19, 43)), GT(gt_of(42, 8)), 2));
    lemma_gt_mul_at((42, 8), (42, 8), (84, 2), (16, 6));
    assert(GT::spow_steps(GT(gt_of(19, 43)), GT(gt_of(42, 8)), 2) == GT::spow_steps(GT(gt_of(19, 43)), GT(gt_of(84, 2)), 1));
    lemma_gt_mul_at((19, 43), (84, 2), (96, 29), (14, 35));
    lemma_gt_mul_at((84, 2), (84, 2), (83, 29), (69, 3));
    assert(GT::spow_steps(GT(gt_of(19, 43)), GT(gt_of(84, 2)), 1) == GT::spow_steps(GT(gt_of(96, 29)), GT(gt_of(83, 29)), 0));
}

/// The pairing of `8G` with the point `32 P` of the image of `H`.
proof fn lemma_pairing_8_32()
    ensures
        smiller_loop(g1p(18, 49), dq(65, 98)) is Some,
        spairing_at(g1p(18, 49), dq(65, 98)) == GT(gt_of(96, 29)),
{
    lemma_final_exponent();
    lemma_tangent_8_32();
    lemma_tangent_16_32();
    lemma_tangent_15_32();
    lemma_tangent_13_32();
    lemma_vertical_at(18, 52, 49, 65, 98);
    lemma_miller_at(
        g1p(18, 49),
        dq(65, 98),
        (g1p(1, 99), g1p(68, 27), g1p(65, 3), g1p(18, 52)),
        (3, 19),
        (43, 44),
        (91, 0),
        (73, 28),
        (-18, 65),
        ((52, 56, -4, -3), (75, 10, -3, 22), (71, 87, 54, 13), (98, 39, 63, 78)),
        ((3, 63, 80, 60), (71, 91, -16, 28), (79, 92, -72, -30)),
    );
    lemma_final_exp_8_32();
}

proof fn lemma_final_exp_9_32()
    ensures
        GT(gt_of(15, 43)).spow(600) == GT(gt_of(67, 72)),
{
    assert(GT::sone() == GT(gt_of(1, 0)));
    lemma_gt_mul_at((15, 43), (15, 43), (93, 47), (-17, -6));
    assert(GT::spow_steps(GT(gt_of(1, 0)), GT(gt_of(15, 43)), 600) == GT::spow_steps(GT(gt_of(1, 0)), GT(gt_of(93, 47)), 300));
    lemma_gt_mul_at((93, 47), (93, 47), (77, 69), (63, 64));
    assert(GT::spow_steps(GT(gt_of(1, 0)), GT(gt_of(93, 47)), 300) == GT::spow_steps(GT(gt_of(1, 0)), GT(gt_of(77, 69)), 150));
    lemma_gt_mul_at((77, 69), (77, 69), (57, 7), (11, 58));
    assert(GT::spow_steps(GT(gt_of(1, 0)), GT(gt_of(77, 69)), 150) == GT::spow_steps(GT(gt_of(1, 0)), GT(gt_of(57, 7)), 75));
    lemma_gt_mul_at((1, 0), (57, 7), (57, 7), (0, 0));
    lemma_gt_mul_at((57, 7), (57, 7), (69, 42), (31, 7));
    assert(GT::spow_steps(GT(gt_of(1, 0)), GT(gt_of(57, 7)), 75) == GT::spow_steps(GT(gt_of(57, 7)), GT(gt_of(69, 42)), 37));
    lemma_gt_mul_at((57, 7), (69, 42), (3, 58), (36, 25));
    lemma_gt_mul_at((69, 42), (69, 42), (68, 93), (29, 39));
    assert(GT::spow_steps(GT(gt_of(57, 7)), GT(gt_of(69, 42)), 37) == GT::spow_steps(GT(gt_of(3, 58)), GT(gt_of(68, 93)), 18));
    lemma_gt_mul_at((68, 93), (68, 93), (15, 60), (-40, 39));
    assert(GT::spow_steps(GT(gt_of(3, 58)), GT(gt_of(68, 93)), 18) == GT::spow_steps(GT(gt_of(3, 58)), GT(gt_of(15, 60)), 9));
    lemma_gt_mul_at((3, 58), (15, 60), (100, 95), (-35, -25));
    lemma_gt_mul_at((15, 60), (15, 60), (59, 18), (-34, -18));
    assert(GT::spow_steps(GT(gt_of(3, 58)), GT(gt_of(15, 60)), 9) == GT::spow_steps(GT(gt_of(100, 95)), GT(gt_of(59, 18)), 4));
    lemma_gt_mul_at((59, 18), (59, 18), (26, 83), (31, 17));
    assert(GT::spow_steps(GT(gt_of(100, 95)), GT(gt_of(59, 18)), 4) == GT::spow_steps(GT(gt_of(100, 95)), GT(gt_of(26, 83)), 2));
    lemma_gt_mul_at((26, 83), (26, 83), (49, 53), (-62, -26));
    assert(GT::spow_steps(GT(gt_of(100, 95)), GT(gt_of(26, 83)), 2) == GT::spow_steps(GT(gt_of(100, 95)), GT(gt_of(49, 53)), 1));
    lemma_gt_mul_at((100, 95), (49, 53), (67, 72), (-2, 48));
    lemma_gt_mul_at((49, 53), (49, 53), (97, 62), (-5, 23));
    assert(GT::spow_steps(GT(gt_of(100, 95)), GT(gt_of(49, 53)), 1) == GT::spow_steps(GT(gt_of(67, 72)), GT(gt_of(97, 62)), 0));
}

/// The pairing of `9G` with the point `32 P` of the image of `H`.
proof fn lemma_pairing_9_32()
    ensures
        smiller_loop(g1p(18, 52), dq(65, 98)) is Some,
        spairing_at(g1p(18, 52), dq(65, 98)) == GT(gt_of(67, 72)),
{
    lemma_final_exponent();
    lemma_tangent_9_32();
    lemma_tangent_1_32();
    lemma_tangent_2_32();
    lemma_tangent_4_32();
    lemma_vertical_at(18, 49, 52, 65, 98);
    lemma_miller_at(
        g1p(18, 52),
        dq(65, 98),
        (g1p(1, 2), g1p(68, 74), g1p(65, 98), g1p(18, 49)),
        (36, 24),
        (79, 46),
        (66, 28),
        (84, 84),
        (-18, 65),
        ((13, 41, 7, 11), (50, 32, -9, 19), (62, 55, 14, 21), (27, 89, 25, 37)),
        ((80, 16, -72, -31), (23, 54, 53, 66), (15, 43, -39, -30)),
    );
    lemma_final_exp_9_32();
}

proof fn lemma_final_exp_10_32()
    ensures
        GT(gt_of(35, 94)).spow(600) == GT(gt_of(71, 57)),
{
    assert(GT::sone() == GT(gt_of(1, 0)));
    lemma_gt_mul_at((35, 94), (35, 94), (65, 67), (-76, -23));
    assert(GT::spow_steps(GT(gt_of(1, 0)), GT(gt_of(35, 94)), 600) == GT::spow_steps(GT(gt_of(1, 0)), GT(gt_of(65, 67)), 300));
    lemma_gt_mul_at((65, 67), (65, 67), (39, 80), (-3, 41));
    assert(GT::spow_steps(GT(gt_of(1, 0)), GT(gt_of(65, 67)), 300) == GT::spow_steps(GT(gt_of(1, 0)), GT(gt_of(39, 80)), 150));
    lemma_gt_mul_at((39, 80), (39, 80), (70, 42), (-49, -2));
    assert(GT::spow_steps(GT(gt_of(1, 0)), GT(gt_of(39, 80)), 150) == GT::spow_steps(GT(gt_of(1, 0)), GT(gt_of(70, 42)), 75));
    lemma_gt_mul_at((1, 0), (70, 42), (70, 42), (0, 0));
    lemma_gt_mul_at((70, 42), (70, 42), (5, 76), (31, 40));
    assert(GT::spow_steps(GT(gt_of(1, 0)), GT(gt_of(70, 42)), 75) == GT::spow_steps(GT(gt_of(70, 42)), GT(gt_of(5, 76)), 37));
    lemma_gt_mul_at((70, 42), (5, 76), (87, 15), (-29, 23));
    lemma_gt_mul_at((5, 76), (5, 76), (6, 34), (-57, -50));
    assert(GT::spow_steps(GT(gt_of(70, 42)), GT(gt_of(5, 76)), 37) == GT::spow_steps(GT(gt_of(87, 15)), GT(gt_of(6, 34)), 18));
    lemma_gt_mul_at((6, 34), (6, 34), (92, 60), (-12, -8));
    assert(GT::spow_steps(GT(gt_of(87, 15)), GT(gt_of(6, 34)), 18) == GT::spow_steps(GT(gt_of(87, 15)), GT(gt_of(92, 60)), 9));
    lemma_gt_mul_at((87, 15), (92, 60), (34, 44), (70, 56));
    lemma_gt_mul_at((92, 60), (92, 60), (16, 67), (48, 73));
    assert(GT::spow_steps(GT(gt_of(87, 15)), GT(gt_of(92, 60)), 9) == GT::spow_steps(GT(gt_of(34, 44)), GT(gt_of(16, 67)), 4));
    lemma_gt_mul_at((16, 67), (16, 67), (9, 79), (-42, -24));
    assert(GT::spow_steps(GT(gt_of(34, 44)), GT(gt_of(16, 67)), 4) == GT::spow_steps(GT(gt_of(34, 44)), GT(gt_of(9, 79)), 2));
    lemma_gt_mul_at((9, 79), (9, 79), (1, 29), (-61, -48));
    assert(GT::spow_steps(GT(gt_of(34, 44)), GT(gt_of(9, 79)), 2) == GT::spow_steps(GT(gt_of(34, 44)), GT(gt_of(1, 29)), 1));
    lemma_gt_mul_at((34, 44), (1, 29), (71, 57), (-13, -3));
    lemma_gt_mul_at((1, 29), (1, 29), (69, 25), (-9, -8));
    assert(GT::spow_steps(GT(gt_of(34, 44)), GT(gt_of(1, 29)), 1) == GT::spow_steps(GT(gt_of(71, 57)), GT(gt_of(69, 25)), 0));
}

/// The pairing of `10G` with the point `32 P` of the image of `H`.
proof fn lemma_pairing_10_32()
    ensures
        smiller_loop(g1p(91, 66), dq(65, 98)) is Some,
        spairing_at(g1p(91, 66), dq(65, 98)) == GT(gt_of(71, 57)),
{
    lemma_final_exponent();
    lemma_tangent_10_32();
    lemma_tangent_3_32();
    lemma_tangent_6_32();
    lemma_tangent_12_32();
    lemma_vertical_at(91, 35, 66, 65, 98);
    lemma_miller_at(
        g1p(91, 66),
        dq(65, 98),
        (g1p(26, 45), g1p(32, 42), g1p(12, 69), g1p(91, 35)),
        (16, 97),
        (89, 14),
        (66, 24),
        (5, 14),
        (-91, 65),
        ((38, 58, -91, -63), (45, 34, 25, 48), (61, 86, 8, 18), (43, 26, 19, 50)),
        ((62, 45, 11, 15), (84, 59, -4, 4), (35, 94, -114, -38)),
    );
    lemma_final_exp_10_32();
}

proof fn lemma_final_exp_11_32()
    ensures
        GT(gt_of(95, 8)).spow(600) == GT(gt_of(15, 55)),
{
    assert(GT::sone() == GT(gt_of(1, 0)));
    lemma_gt_mul_at((95, 8), (95, 8), (73, 42), (88, 14));
    assert(GT::spow_steps(GT(gt_of(1, 0)), GT(gt_of(95, 8)), 600) == GT::spow_steps(GT(gt_of(1, 0)), GT(gt_of(73, 42)), 300));
    lemma_gt_mul_at((73, 42), (73, 42), (30, 25), (35, 43));
    assert(GT::spow_steps(GT(gt_of(1, 0)), GT(gt_of(73, 42)), 300) == GT::spow_steps(GT(gt_of(1, 0)), GT(gt_of(30, 25)), 150));
    lemma_gt_mul_at((30, 25), (30, 25), (73, 67), (2, 8));
    assert(GT::spow_steps(GT(gt_of(1, 0)), GT(gt_of(30, 25)), 150) == GT::spow_steps(GT(gt_of(1, 0)), GT(gt_of(73, 67)), 75));
    lemma_gt_mul_at((1, 0), (73, 67), (73, 67), (0, 0));
    lemma_gt_mul_at((73, 67), (73, 67), (32, 41), (8, 52));
    assert(GT::spow_steps(GT(gt_of(1, 0)), GT(gt_of(73, 67)), 75) == GT::spow_steps(GT(gt_of(73, 67)), GT(gt_of(32, 41)), 37));
    lemma_gt_mul_at((73, 67), (32, 41), (94, 67), (-5, 23));
    lemma_gt_mul_at((32, 41), (32, 41), (50, 34), (-7, 9));
    assert(GT::spow_steps(GT(gt_of(73, 67)), GT(gt_of(32, 41)), 37) == GT::spow_steps(GT(gt_of(94, 67)), GT(gt_of(50, 34)), 18));
    lemma_gt_mul_at((50, 34), (50, 34), (31, 22), (13, 22));
    assert(GT::spow_steps(GT(gt_of(94, 67)), GT(gt_of(50, 34)), 18) == GT::spow_steps(GT(gt_of(94, 67)), GT(gt_of(31, 22)), 9));
    lemma_gt_mul_at((94, 67), (31, 22), (26, 45), (14, 26));
    lemma_gt_mul_at((31, 22), (31, 22), (73, 72), (4, 8));
    assert(GT::spow_steps(GT(gt_of(94, 67)), GT(gt_of(31, 22)), 9) == GT::spow_steps(GT(gt_of(26, 45)), GT(gt_of(73, 72)), 4));
    lemma_gt_mul_at((73, 72), (73, 72), (44, 76), (1, 52));
    assert(GT::spow_steps(GT(gt_of(26, 45)), GT(gt_of(73, 72)), 4) == GT::spow_steps(GT(gt_of(26, 45)), GT(gt_of(44, 76)), 2));
    lemma_gt_mul_at((44, 76), (44, 76), (99, 3), (-39, 9));
    assert(GT::spow_steps(GT(gt_of(26, 45)), GT(gt_of(44, 76)), 2) == GT::spow_steps(GT(gt_of(26, 45)), GT(gt_of(99, 3)), 1));
    lemma_gt_mul_at((26, 45), (99, 3), (15, 55), (24, 43));
    lemma_gt_mul_at((99, 3), (99, 3), (96, 80), (96, 5));
    assert(GT::spow_steps(GT(gt_of(26, 45)), GT(gt_of(99, 3)), 1) == GT::spow_steps(GT(gt_of(15, 55)), GT(gt_of(96, 80)), 0));
}

/// The pairing of `11G` with the point `32 P` of the image of `H`.
proof fn lemma_pairing_11_32()
    ensures
        smiller_loop(g1p(32, 59), dq(65, 98)) is Some,
        spairing_at(g1p(32, 59), dq(65, 98)) == GT(gt_of(15, 55)),
{
    lemma_final_exponent();
    lemma_tangent_11_32();
    lemma_tangent_5_32();
    lemma_tangent_10_32();
    lemma_tangent_3_32();
    lemma_vertical_at(32, 42, 59, 65, 98);
    lemma_miller_at(
        g1p(32, 59),
        dq(65, 98),
        (g1p(12, 32), g1p(91, 66), g1p(26, 45), g1p(32, 42)),
        (6, 84),
        (19, 97),
        (16, 97),
        (89, 14),
        (-32, 65),
        ((50, 12, -70, -60), (89, 76, -3, 38), (24, 76, 21, 76), (82, 10, -70, -38)),
        ((59, 25, 65, 15), (53, 75, 48, 26), (95, 8, -66, -38)),
    );
    lemma_final_exp_11_32();
}

proof fn lemma_final_exp_12_32()
    ensures
        GT(gt_of(61, 96)).spow(600) == GT(gt_of(90, 62)),
{
    assert(GT::sone() == GT(gt_of(1, 0)));
    lemma_gt_mul_at((61, 96), (61, 96), (60, 72), (-55, 24));
    assert(GT::spow_steps(GT(gt_of(1, 0)), GT(gt_of(61, 96)), 600) == GT::spow_steps(GT(gt_of(1, 0)), GT(gt_of(60, 72)), 300));
    lemma_gt_mul_at((60, 72), (60, 72), (32, 22), (-16, 34));
    assert(GT::spow_steps(GT(gt_of(1, 0)), GT(gt_of(60, 72)), 300) == GT::spow_steps(GT(gt_of(1, 0)), GT(gt_of(32, 22)), 150));
    lemma_gt_mul_at((32, 22), (32, 22), (35, 15), (5, 9));
    assert(GT::spow_steps(GT(gt_of(1, 0)), GT(gt_of(32, 22)), 150) == GT::spow_steps(GT(gt_of(1, 0)), GT(gt_of(35, 15)), 75));
    lemma_gt_mul_at((1, 0), (35, 15), (35, 15), (0, 0));
    lemma_gt_mul_at((35, 15), (35, 15), (91, 17), (9, 8));
    assert(GT::spow_steps(GT(gt_of(1, 0)), GT(gt_of(35, 15)), 75) == GT::spow_steps(GT(gt_of(35, 15)), GT(gt_of(91, 17)), 37));
    lemma_gt_mul_at((35, 15), (91, 17), (1, 89), (29, 16));
    lemma_gt_mul_at((91, 17), (91, 17), (13, 78), (79, 27));
    assert(GT::spow_steps(GT(gt_of(35, 15)), GT(gt_of(91, 17)), 37) == GT::spow_steps(GT(gt_of(1, 89)), GT(gt_of(13, 78)), 18));
    lemma_gt_mul_at((13, 78), (13, 78), (44, 85), (-59, -41));
    assert(GT::spow_steps(GT(gt_of(1, 89)), GT(gt_of(13, 78)), 18) == GT::spow_steps(GT(gt_of(1, 89)), GT(gt_of(44, 85)), 9));
    lemma_gt_mul_at((1, 89), (44, 85), (54, 72), (-75, -36));
    lemma_gt_mul_at((44, 85), (44, 85), (64, 53), (-53, 2));
    assert(GT::spow_steps(GT(gt_of(1, 89)), GT(gt_of(44, 85)), 9) == GT::spow_steps(GT(gt_of(54, 72)), GT(gt_of(64, 53)), 4));
    lemma_gt_mul_at((64, 53), (64, 53), (75, 36), (12, 39));
    assert(GT::spow_steps(GT(gt_of(54, 72)), GT(gt_of(64, 53)), 4) == GT::spow_steps(GT(gt_of(54, 72)), GT(gt_of(75, 36)), 2));
    lemma_gt_mul_at((75, 36), (75, 36), (87, 64), (42, 40));
    assert(GT::spow_steps(GT(gt_of(54, 72)), GT(gt_of(75, 36)), 2) == GT::spow_steps(GT(gt_of(54, 72)), GT(gt_of(87, 64)), 1));
    lemma_gt_mul_at((54, 72), (87, 64), (90, 62), (0, 50));
    lemma_gt_mul_at((87, 64), (87, 64), (39, 71), (34, 69));
    assert(GT::spow_steps(GT(gt_of(54, 72)), GT(gt_of(87, 64)), 1) == GT::spow_steps(GT(gt_of(90, 62)), GT(gt_of(39, 71)), 0));
}

/// The pairing of `12G` with the point `32 P` of the image of `H`.
proof fn lemma_pairing_12_32()
    ensures
        smiller_loop(g1p(12, 69), dq(65, 98)) is Some,
        spairing_at(g1p(12, 69), dq(65, 98)) == GT(gt_of(90, 62)),
{
    lemma_final_exponent();
    lemma_tangent_12_32();
    lemma_tangent_7_32();
    lemma_tangent_14_32();
    lemma_tangent_11_32();
    lemma_vertical_at(12, 32, 69, 65, 98);
    lemma_miller_at(
        g1p(12, 69),
        dq(65, 98),
        (g1p(91, 35), g1p(26, 56), g1p(32, 59), g1p(12, 32)),
        (5, 14),
        (5, 19),
        (86, 46),
        (6, 84),
        (-12, 65),
        ((31, 45, -2, -1), (7, 60, -7, -1), (85, 68, -36, -28), (41, 65, 41, 65)),
        ((82, 95, -26, 10), (87, 84, -75, -6), (61, 96, -65, -9)),
    );
    lemma_final_exp_12_32();
}

proof fn lemma_final_exp_13_32()
    ensures
        GT(gt_of(8, 46)).spow(600) == GT(gt_of(42, 92)),
{
    assert(GT::sone() == GT(gt_of(1, 0)));
    lemma_gt_mul_at((8, 46), (8, 46), (69, 34), (-21, -14));
    assert(GT::spow_steps(GT(gt_of(1, 0)), GT(gt_of(8, 46)), 600) == GT::spow_steps(GT(gt_of(1, 0)), GT(gt_of(69, 34)), 300));
    lemma_gt_mul_at((69, 34), (69, 34), (70, 1), (35, 35));
    assert(GT::spow_steps(GT(gt_of(1, 0)), GT(gt_of(69, 34)), 300) == GT::spow_steps(GT(gt_of(1, 0)), GT(gt_of(70, 1)), 150));
    lemma_gt_mul_at((70, 1), (70, 1), (51, 38), (48, 1));
    assert(GT::spow_steps(GT(gt_of(1, 0)), GT(gt_of(70, 1)), 150) == GT::spow_steps(GT(gt_of(1, 0)), GT(gt_of(51, 38)), 75));
    lemma_gt_mul_at((1, 0), (51, 38), (51, 38), (0, 0));
    lemma_gt_mul_at((51, 38), (51, 38), (46, 8), (11, 24));
    assert(GT::spow_steps(GT(gt_of(1, 0)), GT(gt_of(51, 38)), 75) == GT::spow_steps(GT(gt_of(51, 38)), GT(gt_of(46, 8)), 37));
    lemma_gt_mul_at((51, 38), (46, 8), (22, 34), (20, 18));
    lemma_gt_mul_at((46, 8), (46, 8), (32, 66), (20, 6));
    assert(GT::spow_steps(GT(gt_of(51, 38)), GT(gt_of(46, 8)), 37) == GT::spow_steps(GT(gt_of(22, 34)), GT(gt_of(32, 66)), 18));
    lemma_gt_mul_at((32, 66), (32, 66), (1, 70), (-33, -2));
    assert(GT::spow_steps(GT(gt_of(22, 34)), GT(gt_of(32, 66)), 18) == GT::spow_steps(GT(gt_of(22, 34)), GT(gt_of(1, 70)), 9));
    lemma_gt_mul_at((22, 34), (1, 70), (66, 2), (-24, -8));
    lemma_gt_mul_at((1, 70), (1, 70), (50, 88), (-49, -48));
    assert(GT::spow_steps(GT(gt_of(22, 34)), GT(gt_of(1, 70)), 9) == GT::spow_steps(GT(gt_of(66, 2)), GT(gt_of(50, 88)), 4));
    lemma_gt_mul_at((50, 88), (50, 88), (8, 46), (-52, 10));
    assert(GT::spow_steps(GT(gt_of(66, 2)), GT(gt_of(50, 88)), 4) == GT::spow_steps(GT(gt_of(66, 2)), GT(gt_of(8, 46)), 2));
    lemma_gt_mul_at((8, 46), (8, 46), (69, 34), (-21, -14));
    assert(GT::spow_steps(GT(gt_of(66, 2)), GT(gt_of(8, 46)), 2) == GT::spow_steps(GT(gt_of(66, 2)), GT(gt_of(69, 34)), 1));
    lemma_gt_mul_at((66, 2), (69, 34), (42, 92), (44, 22));
    lemma_gt_mul_at((69, 34), (69, 34), (70, 1), (35, 35));
    assert(GT::spow_steps(GT(gt_of(66, 2)), GT(gt_of(69, 34)), 1) == GT::spow_steps(GT(gt_of(42, 92)), GT(gt_of(70, 1)), 0));
}

/// The pairing of `13G` with the point `32 P` of the image of `H`.
proof fn lemma_pairing_13_32()
    ensures
        smiller_loop(g1p(65, 3), dq(65, 98)) is Some,
        spairing_at(g1p(65, 3), dq(65, 98)) == GT(gt_of(42, 92)),
{
    lemma_final_exponent();
    lemma_tangent_13_32();
    lemma_tangent_9_32();
    lemma_tangent_1_32();
    lemma_tangent_2_32();
    lemma_vertical_at(65, 98, 3, 65, 98);
    lemma_miller_at(
        g1p(65, 3),
        dq(65, 98),
        (g1p(18, 52), g1p(1, 2), g1p(68, 74), g1p(65, 98)),
        (73, 28),
        (36, 24),
        (79, 46),
        (66, 28),
        (-65, 65),
        ((0, 72, 45, 32), (90, 56, -18, 8), (15, 76, 49, 68), (12, 67, -23, 31)),
        ((99, 48, -44, -29), (39, 51, 51, 45), (8, 46, -58, -41)),
    );
    lemma_final_exp_13_32();
}

proof fn lemma_final_exp_14_32()
    ensures
        GT(gt_of(45, 10)).spow(600) == GT(gt_of(78, 3)),
{
    assert(GT::sone() == GT(gt_of(1, 0)));
    lemma_gt_mul_at((45, 10), (45, 10), (6, 93), (19, 7));
    assert(GT::spow_steps(GT(gt_of(1, 0)), GT(gt_of(45, 10)), 600) == GT::spow_steps(GT(gt_of(1, 0)), GT(gt_of(6, 93)), 300));
    lemma_gt_mul_at((6, 93), (6, 93), (73, 42), (-86, -75));
    assert(GT::spow_steps(GT(gt_of(1, 0)), GT(gt_of(6, 93)), 300) == GT::spow_steps(GT(gt_of(1, 0)), GT(gt_of(73, 42)), 150));
    lemma_gt_mul_at((73, 42), (73, 42), (30, 25), (35, 43));
    assert(GT::spow_steps(GT(gt_of(1, 0)), GT(gt_of(73, 42)), 150) == GT::spow_steps(GT(gt_of(1, 0)), GT(gt_of(30, 25)), 75));
    lemma_gt_mul_at((1, 0), (30, 25), (30, 25), (0, 0));
    lemma_gt_mul_at((30, 25), (30, 25), (73, 67), (2, 8));
    assert(GT::spow_steps(GT(gt_of(1, 0)), GT(gt_of(30, 25)), 75) == GT::spow_steps(GT(gt_of(30, 25)), GT(gt_of(73, 67)), 37));
    lemma_gt_mul_at((30, 25), (73, 67), (10, 39), (5, 21));
    lemma_gt_mul_at((73, 67), (73, 67), (32, 41), (8, 52));
    assert(GT::spow_steps(GT(gt_of(30, 25)), GT(gt_of(73, 67)), 37) == GT::spow_steps(GT(gt_of(10, 39)), GT(gt_of(32, 41)), 18));
    lemma_gt_mul_at((32, 41), (32, 41), (50, 34), (-7, 9));
    assert(GT::spow_steps(GT(gt_of(10, 39)), GT(gt_of(32, 41)), 18) == GT::spow_steps(GT(gt_of(10, 39)), GT(gt_of(50, 34)), 9));
    lemma_gt_mul_at((10, 39), (50, 34), (83, 55), (-9, 9));
    lemma_gt_mul_at((50, 34), (50, 34), (31, 22), (13, 22));
    assert(GT::spow_steps(GT(gt_of(10, 39)), GT(gt_of(50, 34)), 9) == GT::spow_steps(GT(gt_of(83, 55)), GT(gt_of(31, 22)), 4));
    lemma_gt_mul_at((31, 22), (31, 22), (73, 72), (4, 8));
    assert(GT::spow_steps(GT(gt_of(83, 55)), GT(gt_of(31, 22)), 4) == GT::spow_steps(GT(gt_of(83, 55)), GT(gt_of(73, 72)), 2));
    lemma_gt_mul_at((73, 72), (73, 72), (44, 76), (1, 52));
    assert(GT::spow_steps(GT(gt_of(83, 55)), GT(gt_of(73, 72)), 2) == GT::spow_steps(GT(gt_of(83, 55)), GT(gt_of(44, 76)), 1));
    lemma_gt_mul_at((83, 55), (44, 76), (78, 3), (-6, 45));
    lemma_gt_mul_at((44, 76), (44, 76), (99, 3), (-39, 9));
    assert(GT::spow_steps(GT(gt_of(83, 55)), GT(gt_of(44, 76)), 1) == GT::spow_steps(GT(gt_of(78, 3)), GT(gt_of(99, 3)), 0));
}

/// The pairing of `14G` with the point `32 P` of the image of `H`.
proof fn lemma_pairing_14_32()
    ensures
        smiller_loop(g1p(26, 56), dq(65, 98)) is Some,
        spairing_at(g1p(26, 56), dq(65, 98)) == GT(gt_of(78, 3)),
{
    lemma_final_exponent();
    lemma_tangent_14_32();
    lemma_tangent_11_32();
    lemma_tangent_5_32();
    lemma_tangent_10_32();
    lemma_vertical_at(26, 45, 56, 65, 98);
    lemma_miller_at(
        g1p(26, 56),
        dq(65, 98),
        (g1p(32, 59), g1p(12, 32), g1p(91, 66), g1p(26, 45)),
        (86, 46),
        (6, 84),
        (19, 97),
        (16, 97),
        (-26, 65),
        ((28, 39, 52, 57), (23, 17, -31, -7), (38, 89, 2, 4), (68, 77, -79, -33)),
        ((8, 99, -13, 44), (19, 29, -94, -72), (45, 10, -24, -14)),
    );
    lemma_final_exp_14_32();
}

proof fn lemma_final_exp_15_32()
    ensures
        GT(gt_of(81, 50)).spow(600) == GT(gt_of(68, 21)),
{
    assert(GT::sone() == GT(gt_of(1, 0)));
    lemma_gt_mul_at((81, 50), (81, 50), (21, 45), (40, 55));
    assert(GT::spow_steps(GT(gt_of(1, 0)), GT(gt_of(81, 50)), 600) == GT::spow_steps(GT(gt_of(1, 0)), GT(gt_of(21, 45)), 300));
    lemma_gt_mul_at((21, 45), (21, 45), (32, 67), (-16, -2));
    assert(GT::spow_steps(GT(gt_of(1, 0)), GT(gt_of(21, 45)), 300) == GT::spow_steps(GT(gt_of(1, 0)), GT(gt_of(32, 67)), 150));
    lemma_gt_mul_at((32, 67), (32, 67), (70, 1), (-35, -2));
    assert(GT::spow_steps(GT(gt_of(1, 0)), GT(gt_of(32, 67)), 150) == GT::spow_steps(GT(gt_of(1, 0)), GT(gt_of(70, 1)), 75));
    lemma_gt_mul_at((1, 0), (70, 1), (70, 1), (0, 0));
    lemma_gt_mul_at((70, 1), (70, 1), (51, 38), (48, 1));
    assert(GT::spow_steps(GT(gt_of(1, 0)), GT(gt_of(70, 1)), 75) == GT::spow_steps(GT(gt_of(70, 1)), GT(gt_of(51, 38)), 37));
    lemma_gt_mul_at((70, 1), (51, 38), (98, 47), (34, 26));
    lemma_gt_mul_at((51, 38), (51, 38), (46, 8), (11, 24));
    assert(GT::spow_steps(GT(gt_of(70, 1)), GT(gt_of(51, 38)), 37) == GT::spow_steps(GT(gt_of(98, 47)), GT(gt_of(46, 8)), 18));
    lemma_gt_mul_at((46, 8), (46, 8), (32, 66), (20, 6));
    assert(GT::spow_steps(GT(gt_of(98, 47)), GT(gt_of(46, 8)), 18) == GT::spow_steps(GT(gt_of(98, 47)), GT(gt_of(32, 66)), 9));
    lemma_gt_mul_at((98, 47), (32, 66), (34, 22), (0, 48));
    lemma_gt_mul_at((32, 66), (32, 66), (1, 70), (-33, -2));
    assert(GT::spow_steps(GT(gt_of(98, 47)), GT(gt_of(32, 66)), 9) == GT::spow_steps(GT(gt_of(34, 22)), GT(gt_of(1, 70)), 4));
    lemma_gt_mul_at((1, 70), (1, 70), (50, 88), (-49, -48));
    assert(GT::spow_steps(GT(gt_of(34, 22)), GT(gt_of(1, 70)), 4) == GT::spow_steps(GT(gt_of(34, 22)), GT(gt_of(50, 88)), 2));
    lemma_gt_mul_at((50, 88), (50, 88), (8, 46), (-52, 10));
    assert(GT::spow_steps(GT(gt_of(34, 22)), GT(gt_of(50, 88)), 2) == GT::spow_steps(GT(gt_of(34, 22)), GT(gt_of(8, 46)), 1));
    lemma_gt_mul_at((34, 22), (8, 46), (68, 21), (-8, 7));
    lemma_gt_mul_at((8, 46), (8, 46), (69, 34), (-21, -14));
    assert(GT::spow_steps(GT(gt_of(34, 22)), GT(gt_of(8, 46)), 1) == GT::spow_steps(GT(gt_of(68, 21)), GT(gt_of(69, 34)), 0));
}

/// The pairing of `15G` with the point `32 P` of the image of `H`.
proof fn lemma_pairing_15_32()
    ensures
        smiller_loop(g1p(68, 27), dq(65, 98)) is Some,
        spairing_at(g1p(68, 27), dq(65, 98)) == GT(gt_of(68, 21)),
{
    lemma_final_exponent();
    lemma_tangent_15_32();
    lemma_tangent_13_32();
    lemma_tangent_9_32();
    lemma_tangent_1_32();
    lemma_vertical_at(68, 74, 27, 65, 98);
    lemma_miller_at(
        g1p(68, 27),
        dq(65, 98),
        (g1p(65, 3), g1p(18, 52), g1p(1, 2), g1p(68, 74)),
        (91, 0),
        (73, 28),
        (36, 24),
        (79, 46),
        (-68, 65),
        ((100, 0, 81, 0), (28, 73, 72, 27), (0, 72, -45, -13), (90, 56, -18, 8)),
        ((15, 76, 49, 68), (12, 67, -23, 31), (81, 50, -52, -81)),
    );
    lemma_final_exp_15_32();
}

proof fn lemma_final_exp_16_32()
    ensures
        GT(gt_of(99, 11)).spow(600) == GT(gt_of(93, 81)),
{
    assert(GT::sone() == GT(gt_of(1, 0)));
    lemma_gt_mul_at((99, 11), (99, 11), (85, 37), (95, 20));
    assert(GT::spow_steps(GT(gt_of(1, 0)), GT(gt_of(99, 11)), 600) == GT::spow_steps(GT(gt_of(1, 0)), GT(gt_of(85, 37)), 300));
    lemma_gt_mul_at((85, 37), (85, 37), (99, 73), (57, 48));
    assert(GT::spow_steps(GT(gt_of(1, 0)), GT(gt_of(85, 37)), 300) == GT::spow_steps(GT(gt_of(1, 0)), GT(gt_of(99, 73)), 150));
    lemma_gt_mul_at((99, 73), (99, 73), (28, 35), (44, 90));
    assert(GT::spow_steps(GT(gt_of(1, 0)), GT(gt_of(99, 73)), 150) == GT::spow_steps(GT(gt_of(1, 0)), GT(gt_of(28, 35)), 75));
    lemma_gt_mul_at((1, 0), (28, 35), (28, 35), (0, 0));
    lemma_gt_mul_at((28, 35), (28, 35), (64, 28), (-5, 7));
    assert(GT::spow_steps(GT(gt_of(1, 0)), GT(gt_of(28, 35)), 75) == GT::spow_steps(GT(gt_of(28, 35)), GT(gt_of(64, 28)), 37));
    lemma_gt_mul_at((28, 35), (64, 28), (4, 24), (8, 20));
    lemma_gt_mul_at((64, 28), (64, 28), (80, 73), (32, 27));
    assert(GT::spow_steps(GT(gt_of(28, 35)), GT(gt_of(64, 28)), 37) == GT::spow_steps(GT(gt_of(4, 24)), GT(gt_of(80, 73)), 18));
    lemma_gt_mul_at((80, 73), (80, 73), (61, 89), (10, 62));
    assert(GT::spow_steps(GT(gt_of(4, 24)), GT(gt_of(80, 73)), 18) == GT::spow_steps(GT(gt_of(4, 24)), GT(gt_of(61, 89)), 9));
    lemma_gt_mul_at((4, 24), (61, 89), (27, 88), (-19, -4));
    lemma_gt_mul_at((61, 89), (61, 89), (42, 8), (-42, 29));
    assert(GT::spow_steps(GT(gt_of(4, 24)), GT(gt_of(61, 89)), 9) == GT::spow_steps(GT(gt_of(27, 88)), GT(gt_of(42, 8)), 4));
    lemma_gt_mul_at((42, 8), (42, 8), (84, 2), (16, 6));
    assert(GT::spow_steps(GT(gt_of(27, 88)), GT(gt_of(42, 8)), 4) == GT::spow_steps(GT(gt_of(27, 88)), GT(gt_of(84, 2)), 2));
    lemma_gt_mul_at((84, 2), (84, 2), (83, 29), (69, 3));
    assert(GT::spow_steps(GT(gt_of(27, 88)), GT(gt_of(84, 2)), 2) == GT::spow_steps(GT(gt_of(27, 88)), GT(gt_of(83, 29)), 1));
    lemma_gt_mul_at((27, 88), (83, 29), (93, 81), (-4, 54));
    lemma_gt_mul_at((83, 29), (83, 29), (89, 34), (59, 39));
    assert(GT::spow_steps(GT(gt_of(27, 88)), GT(gt_of(83, 29)), 1) == GT::spow_steps(GT(gt_of(93, 81)), GT(gt_of(89, 34)), 0));
}

/// The pairing of `16G` with the point `32 P` of the image of `H`.
proof fn lemma_pairing_16_32()
    ensures
        smiller_loop(g1p(1, 99), dq(65, 98)) is Some,
        spairing_at(g1p(1, 99), dq(65, 98)) == GT(gt_of(93, 81)),
{
    lemma_final_exponent();
    lemma_tangent_16_32();
    lemma_tangent_15_32();
    lemma_tangent_13_32();
    lemma_tangent_9_32();
    lemma_vertical_at(1, 2, 99, 65, 98);
    lemma_miller_at(
        g1p(1, 99),
        dq(65, 98),
        (g1p(68, 27), g1p(65, 3), g1p(18, 52), g1p(1, 2)),
        (43, 44),
        (91, 0),
        (73, 28),
        (36, 24),
        (-1, 65),
        ((14, 30, -1, 18), (62, 3, 12, 27), (98, 60, 37, 3), (20, 91, 54, 53)),
        ((98, 5, -79, -46), (75, 89, 33, 23), (99, 11, -59, -10)),
    );
    lemma_final_exp_16_32();
}

proof fn lemma_final_exp_1_33()
    ensures
        GT(gt_of(19, 80)).spow(600) == GT(gt_of(67, 72)),
{
    assert(GT::sone() == GT(gt_of(1, 0)));
    lemma_gt_mul_at((19, 80), (19, 80), (21, 74), (-60, -34));
    assert(GT::spow_steps(GT(gt_of(1, 0)), GT(gt_of(19, 80)), 600) == GT::spow_steps(GT(gt_of(1, 0)), GT(gt_of(21, 74)), 300));
    lemma_gt_mul_at((21, 74), (21, 74), (15, 56), (-50, -24));
    assert(GT::spow_steps(GT(gt_of(1, 0)), GT(gt_of(21, 74)), 300) == GT::spow_steps(GT(gt_of(1, 0)), GT(gt_of(15, 56)), 150));
    lemma_gt_mul_at((15, 56), (15, 56), (18, 59), (-29, -15));
    assert(GT::spow_steps(GT(gt_of(1, 0)), GT(gt_of(15, 56)), 150) == GT::spow_steps(GT(gt_of(1, 0)), GT(gt_of(18, 59)), 75));
    lemma_gt_mul_at((1, 0), (18, 59), (18, 59), (0, 0));
    lemma_gt_mul_at((18, 59), (18, 59), (75, 57), (-32, -14));
    assert(GT::spow_steps(GT(gt_of(1, 0)), GT(gt_of(18, 59)), 75) == GT::spow_steps(GT(gt_of(18, 59)), GT(gt_of(75, 57)), 37));
    lemma_gt_mul_at((18, 59), (75, 57), (7, 68), (-20, 20));
    lemma_gt_mul_at((75, 57), (75, 57), (53, 49), (23, 52));
    assert(GT::spow_steps(GT(gt_of(18, 59)), GT(gt_of(75, 57)), 37) == GT::spow_steps(GT(gt_of(7, 68)), GT(gt_of(53, 49)), 18));
    lemma_gt_mul_at((53, 49), (53, 49), (4, 66), (4, 27));
    assert(GT::spow_steps(GT(gt_of(7, 68)), GT(gt_of(53, 49)), 18) == GT::spow_steps(GT(gt_of(7, 68)), GT(gt_of(4, 66)), 9));
    lemma_gt_mul_at((7, 68), (4, 66), (85, 84), (-45, -38));
    lemma_gt_mul_at((4, 66), (4, 66), (3, 10), (-43, -38));
    assert(GT::spow_steps(GT(gt_of(7, 68)), GT(gt_of(4, 66)), 9) == GT::spow_steps(GT(gt_of(85, 84)), GT(gt_of(3, 10)), 4));
    lemma_gt_mul_at((3, 10), (3, 10), (10, 61), (-1, -1));
    assert(GT::spow_steps(GT(gt_of(85, 84)), GT(gt_of(3, 10)), 4) == GT::spow_steps(GT(gt_of(85, 84)), GT(gt_of(10, 61)), 2));
    lemma_gt_mul_at((10, 61), (10, 61), (15, 24), (-36, -25));
    assert(GT::spow_steps(GT(gt_of(85, 84)), GT(gt_of(10, 61)), 2) == GT::spow_steps(GT(gt_of(85, 84)), GT(gt_of(15, 24)), 1));
    lemma_gt_mul_at((85, 84), (15, 24), (67, 72), (-8, 12));
    lemma_gt_mul_at((15, 24), (15, 24), (53, 43), (-4, 1));
    assert(GT::spow_steps(GT(gt_of(85, 84)), GT(gt_of(15, 24)), 1) == GT::spow_steps(GT(gt_of(67, 72)), GT(gt_of(53, 43)), 0));
}

/// The pairing of `1G` with the point `33 P` of the image of `H`.
proof fn lemma_pairing_1_33()
    ensures
        smiller_loop(g1p(1, 2), dq(30, 6)) is Some,
        spairing_at(g1p(1, 2), dq(30, 6)) == GT(gt_of(67, 72)),
{
    lemma_final_exponent();
    lemma_tangent_1_33();
    lemma_tangent_2_33();
    lemma_tangent_4_33();
    lemma_tangent_8_33();
    lemma_vertical_at(1, 99, 2, 30, 6);
    lemma_miller_at(
        g1p(1, 2),
        dq(30, 6),
        (g1p(68, 74), g1p(65, 98), g1p(18, 49), g1p(1, 99)),
        (44, 7),
        (54, 83),
        (46, 53),
        (98, 68),
        (-1, 30),
        ((69, 62, 18, 5), (95, 91, -15, 38), (37, 20, 7, 89), (36, 3, 6, 18)),
        ((75, 5, 12, 2), (41, 99, 69, 51), (19, 80, -30, -19)),
    );
    lemma_final_exp_1_33();
}

proof fn lemma_final_exp_2_33()
    ensures
        GT(gt_of(34, 21)).spow(600) == GT(gt_of(12, 20)),
{
    assert(GT::sone() == GT(gt_of(1, 0)));
    lemma_gt_mul_at((34, 21), (34, 21), (8, 78), (7, 9));
    assert(GT::spow_steps(GT(gt_of(1, 0)), GT(gt_of(34, 21)), 600) == GT::spow_steps(GT(gt_of(1, 0)), GT(gt_of(8, 78)), 300));
    lemma_gt_mul_at((8, 78), (8, 78), (40, 12), (-60, -48));
    assert(GT::spow_steps(GT(gt_of(1, 0)), GT(gt_of(8, 78)), 300) == GT::spow_steps(GT(gt_of(1, 0)), GT(gt_of(40, 12)), 150));
    lemma_gt_mul_at((40, 12), (40, 12), (42, 8), (14, 8));
    assert(GT::spow_steps(GT(gt_of(1, 0)), GT(gt_of(40, 12)), 150) == GT::spow_steps(GT(gt_of(1, 0)), GT(gt_of(42, 8)), 75));
    lemma_gt_mul_at((1, 0), (42, 8), (42, 8), (0, 0));
    lemma_gt_mul_at((42, 8), (42, 8), (84, 2), (16, 6));
    assert(GT::spow_steps(GT(gt_of(1, 0)), GT(gt_of(42, 8)), 75) == GT::spow_steps(GT(gt_of(42, 8)), GT(gt_of(84, 2)), 37));
    lemma_gt_mul_at((42, 8), (84, 2), (78, 33), (34, 7));
    lemma_gt_mul_at((84, 2), (84, 2), (83, 29), (69, 3));
    assert(GT::spow_steps(GT(gt_of(42, 8)), GT(gt_of(84, 2)), 37) == GT::spow_steps(GT(gt_of(78, 33)), GT(gt_of(83, 29)), 18));
    lemma_gt_mul_at((83, 29), (83, 29), (89, 34), (59, 39));
    assert(GT::spow_steps(GT(gt_of(78, 33)), GT(gt_of(83, 29)), 18) == GT::spow_steps(GT(gt_of(78, 33)), GT(gt_of(89, 34)), 9));
    lemma_gt_mul_at((78, 33), (89, 34), (63, 23), (57, 44));
    lemma_gt_mul_at((89, 34), (89, 34), (99, 48), (66, 48));
    assert(GT::spow_steps(GT(gt_of(78, 33)), GT(gt_of(89, 34)), 9) == GT::spow_steps(GT(gt_of(63, 23)), GT(gt_of(99, 48)), 4));
    lemma_gt_mul_at((99, 48), (99, 48), (23, 29), (74, 71));
    assert(GT::spow_steps(GT(gt_of(63, 23)), GT(gt_of(99, 48)), 4) == GT::spow_steps(GT(gt_of(63, 23)), GT(gt_of(23, 29)), 2));
    lemma_gt_mul_at((23, 29), (23, 29), (92, 89), (-4, 4));
    assert(GT::spow_steps(GT(gt_of(63, 23)), GT(gt_of(23, 29)), 2) == GT::spow_steps(GT(gt_of(63, 23)), GT(gt_of(92, 89)), 1));
    lemma_gt_mul_at((63, 23), (92, 89), (12, 20), (37, 56));
    lemma_gt_mul_at((92, 89), (92, 89), (38, 72), (5, 83));
    assert(GT::spow_steps(GT(gt_of(63, 23)), GT(gt_of(92, 89)), 1) == GT::spow_steps(GT(gt_of(12, 20)), GT(gt_of(38, 72)), 0));
}

/// The pairing of `2G` with the point `33 P` of the image of `H`.
proof fn lemma_pairing_2_33()
    ensures
        smiller_loop(g1p(68, 74), dq(30, 6)) is Some,
        spairing_at(g1p(68, 74), dq(30, 6)) == GT(gt_of(12, 20)),
{
    lemma_final_exponent();
    lemma_tangent_2_33();
    lemma_tangent_4_33();
    lemma_tangent_8_33();
    lemma_tangent_16_33();
    lemma_vertical_at(68, 27, 74, 30, 6);
    lemma_miller_at(
        g1p(68, 74),
        dq(30, 6),
        (g1p(65, 98), g1p(18, 49), g1p(1, 99), g1p(68, 27)),
        (54, 83),
        (46, 53),
        (98, 68),
        (17, 90),
        (-68, 30),
        ((67, 55, -40, 20), (66, 35, 1, 31), (0, 62, 31, 33), (26, 42, -42, 18)),
        ((23, 16, -11, 4), (62, 94, -11, 8), (34, 21, -70, -73)),
    );
    lemma_final_exp_2_33();
}

proof fn lemma_final_exp_3_33()
    ensures
        GT(gt_of(7, 11)).spow(600) == GT(gt_of(71, 57)),
{
    assert(GT::sone() == GT(gt_of(1, 0)));
    lemma_gt_mul_at((7, 11), (7, 11), (29, 33), (-1, 0));
    assert(GT::spow_steps(GT(gt_of(1, 0)), GT(gt_of(7, 11)), 600) == GT::spow_steps(GT(gt_of(1, 0)), GT(gt_of(29, 33)), 300));
    lemma_gt_mul_at((29, 33), (29, 33), (55, 17), (-3, 8));
    assert(GT::spow_steps(GT(gt_of(1, 0)), GT(gt_of(29, 33)), 300) == GT::spow_steps(GT(gt_of(1, 0)), GT(gt_of(55, 17)), 150));
    lemma_gt_mul_at((55, 17), (55, 17), (9, 66), (27, 15));
    assert(GT::spow_steps(GT(gt_of(1, 0)), GT(gt_of(55, 17)), 150) == GT::spow_steps(GT(gt_of(1, 0)), GT(gt_of(9, 66)), 75));
    lemma_gt_mul_at((1, 0), (9, 66), (9, 66), (0, 0));
    lemma_gt_mul_at((9, 66), (9, 66), (68, 64), (-43, -32));
    assert(GT::spow_steps(GT(gt_of(1, 0)), GT(gt_of(9, 66)), 75) == GT::spow_steps(GT(gt_of(9, 66)), GT(gt_of(68, 64)), 37));
    lemma_gt_mul_at((9, 66), (68, 64), (24, 32), (-36, 8));
    lemma_gt_mul_at((68, 64), (68, 64), (23, 63), (5, 45));
    assert(GT::spow_steps(GT(gt_of(9, 66)), GT(gt_of(68, 64)), 37) == GT::spow_steps(GT(gt_of(24, 32)), GT(gt_of(23, 63)), 18));
    lemma_gt_mul_at((23, 63), (23, 63), (95, 40), (-35, -11));
    assert(GT::spow_steps(GT(gt_of(24, 32)), GT(gt_of(23, 63)), 18) == GT::spow_steps(GT(gt_of(24, 32)), GT(gt_of(95, 40)), 9));
    lemma_gt_mul_at((24, 32), (95, 40), (91, 94), (9, 26));
    lemma_gt_mul_at((95, 40), (95, 40), (52, 41), (73, 59));
    assert(GT::spow_steps(GT(gt_of(24, 32)), GT(gt_of(95, 40)), 9) == GT::spow_steps(GT(gt_of(91, 94)), GT(gt_of(52, 41)), 4));
    lemma_gt_mul_at((52, 41), (52, 41), (13, 58), (10, 25));
    assert(GT::spow_steps(GT(gt_of(91, 94)), GT(gt_of(52, 41)), 4) == GT::spow_steps(GT(gt_of(91, 94)), GT(gt_of(13, 58)), 2));
    lemma_gt_mul_at((13, 58), (13, 58), (37, 63), (-32, -19));
    assert(GT::spow_steps(GT(gt_of(91, 94)), GT(gt_of(13, 58)), 2) == GT::spow_steps(GT(gt_of(91, 94)), GT(gt_of(37, 63)), 1));
    lemma_gt_mul_at((91, 94), (37, 63), (71, 57), (-26, 32));
    lemma_gt_mul_at((37, 63), (37, 63), (26, 87), (-26, 6));
    assert(GT::spow_steps(GT(gt_of(91, 94)), GT(gt_of(37, 63)), 1) == GT::spow_steps(GT(gt_of(71, 57)), GT(gt_of(26, 87)), 0));
}

/// The pairing of `3G` with the point `33 P` of the image of `H`.
proof fn lemma_pairing_3_33()
    ensures
        smiller_loop(g1p(26, 45), dq(30, 6)) is Some,
        spairing_at(g1p(26, 45), dq(30, 6)) == GT(gt_of(71, 57)),
{
    lemma_final_exponent();
    lemma_tangent_3_33();
    lemma_tangent_6_33();
    lemma_tangent_12_33();
    lemma_tangent_7_33();
    lemma_vertical_at(26, 56, 45, 30, 6);
    lemma_miller_at(
        g1p(26, 45),
        dq(30, 6),
        (g1p(32, 42), g1p(12, 69), g1p(91, 35), g1p(26, 56)),
        (84, 32),
        (62, 23),
        (77, 17),
        (96, 63),
        (-26, 30),
        ((73, 9, 59, 43), (77, 10, 42, 20), (72, 26, 57, 14), (52, 57, 50, 27)),
        ((61, 53, -6, 26), (93, 37, 24, 55), (7, 11, -35, 7)),
    );
    lemma_final_exp_3_33();
}

proof fn lemma_final_exp_4_33()
    ensures
        GT(gt_of(87, 42)).spow(600) == GT(gt_of(47, 80)),
{
    assert(GT::sone() == GT(gt_of(1, 0)));
    lemma_gt_mul_at((87, 42), (87, 42), (48, 90), (57, 54));
    assert(GT::spow_steps(GT(gt_of(1, 0)), GT(gt_of(87, 42)), 600) == GT::spow_steps(GT(gt_of(1, 0)), GT(gt_of(48, 90)), 300));
    lemma_gt_mul_at((48, 90), (48, 90), (62, 35), (-58, 5));
    assert(GT::spow_steps(GT(gt_of(1, 0)), GT(gt_of(48, 90)), 300) == GT::spow_steps(GT(gt_of(1, 0)), GT(gt_of(62, 35)), 150));
    lemma_gt_mul_at((62, 35), (62, 35), (94, 85), (25, 30));
    assert(GT::spow_steps(GT(gt_of(1, 0)), GT(gt_of(62, 35)), 150) == GT::spow_steps(GT(gt_of(1, 0)), GT(gt_of(94, 85)), 75));
    lemma_gt_mul_at((1, 0), (94, 85), (94, 85), (0, 0));
    lemma_gt_mul_at((94, 85), (94, 85), (96, 69), (15, 86));
    assert(GT::spow_steps(GT(gt_of(1, 0)), GT(gt_of(94, 85)), 75) == GT::spow_steps(GT(gt_of(94, 85)), GT(gt_of(96, 69)), 37));
    lemma_gt_mul_at((94, 85), (96, 69), (28, 95), (31, 86));
    lemma_gt_mul_at((96, 69), (96, 69), (11, 3), (44, 84));
    assert(GT::spow_steps(GT(gt_of(94, 85)), GT(gt_of(96, 69)), 37) == GT::spow_steps(GT(gt_of(28, 95)), GT(gt_of(11, 3)), 18));
    lemma_gt_mul_at((11, 3), (11, 3), (11, 57), (1, 0));
    assert(GT::spow_steps(GT(gt_of(28, 95)), GT(gt_of(11, 3)), 18) == GT::spow_steps(GT(gt_of(28, 95)), GT(gt_of(11, 57)), 9));
    lemma_gt_mul_at((28, 95), (11, 57), (44, 54), (-51, -28));
    lemma_gt_mul_at((11, 57), (11, 57), (3, 25), (-31, -20));
    assert(GT::spow_steps(GT(gt_of(28, 95)), GT(gt_of(11, 57)), 9) == GT::spow_steps(GT(gt_of(44, 54)), GT(gt_of(3, 25)), 4));
    lemma_gt_mul_at((3, 25), (3, 25), (91, 30), (-7, -5));
    assert(GT::spow_steps(GT(gt_of(44, 54)), GT(gt_of(3, 25)), 4) == GT::spow_steps(GT(gt_of(44, 54)), GT(gt_of(91, 30)), 2));
    lemma_gt_mul_at((91, 30), (91, 30), (8, 15), (73, 45));
    assert(GT::spow_steps(GT(gt_of(44, 54)), GT(gt_of(91, 30)), 2) == GT::spow_steps(GT(gt_of(44, 54)), GT(gt_of(8, 15)), 1));
    lemma_gt_mul_at((44, 54), (8, 15), (47, 80), (-5, 2));
    lemma_gt_mul_at((8, 15), (8, 15), (41, 15), (-2, 0));
    assert(GT::spow_steps(GT(gt_of(44, 54)), GT(gt_of(8, 15)), 1) == GT::spow_steps(GT(gt_of(47, 80)), GT(gt_of(41, 15)), 0));
}

/// The pairing of `4G` with the point `33 P` of the image of `H`.
proof fn lemma_pairing_4_33()
    ensures
        smiller_loop(g1p(65, 98), dq(30, 6)) is Some,
        spairing_at(g1p(65, 98), dq(30, 6)) == GT(gt_of(47, 80)),
{
    lemma_final_exponent();
    lemma_tangent_4_33();
    lemma_tangent_8_33();
    lemma_tangent_16_33();
    lemma_tangent_15_33();
    lemma_vertical_at(65, 3, 98, 30, 6);
    lemma_miller_at(
        g1p(65, 98),
        dq(30, 6),
        (g1p(18, 49), g1p(1, 99), g1p(68, 27), g1p(65, 3)),
        (46, 53),
        (98, 68),
        (17, 90),
        (21, 47),
        (-65, 30),
        ((14, 47, -7, 20), (95, 39, -19, 23), (30, 31, 74, 58), (43, 33, -23, 4)),
        ((53, 32, 7, 17), (13, 43, -4, 16), (87, 42, -22, -37)),
    );
    lemma_final_exp_4_33();
}

proof fn lemma_final_exp_5_33()
    ensures
        GT(gt_of(33, 83)).spow(600) == GT(gt_of(15, 55)),
{
    assert(GT::sone() == GT(gt_of(1, 0)));
    lemma_gt_mul_at((33, 83), (33, 83), (58, 3), (-58, -14));
    assert(GT::spow_steps(GT(gt_of(1, 0)), GT(gt_of(33, 83)), 600) == GT::spow_steps(GT(gt_of(1, 0)), GT(gt_of(58, 3)), 300));
    lemma_gt_mul_at((58, 3), (58, 3), (22, 36), (33, 3));
    assert(GT::spow_steps(GT(gt_of(1, 0)), GT(gt_of(58, 3)), 300) == GT::spow_steps(GT(gt_of(1, 0)), GT(gt_of(22, 36)), 150));
    lemma_gt_mul_at((22, 36), (22, 36), (97, 86), (-9, 2));
    assert(GT::spow_steps(GT(gt_of(1, 0)), GT(gt_of(22, 36)), 150) == GT::spow_steps(GT(gt_of(1, 0)), GT(gt_of(97, 86)), 75));
    lemma_gt_mul_at((1, 0), (97, 86), (97, 86), (0, 0));
    lemma_gt_mul_at((97, 86), (97, 86), (94, 97), (19, 91));
    assert(GT::spow_steps(GT(gt_of(1, 0)), GT(gt_of(97, 86)), 75) == GT::spow_steps(GT(gt_of(97, 86)), GT(gt_of(94, 97)), 37));
    lemma_gt_mul_at((97, 86), (94, 97), (69, 61), (7, 90));
    lemma_gt_mul_at((94, 97), (94, 97), (33, 40), (-6, 87));
    assert(GT::spow_steps(GT(gt_of(97, 86)), GT(gt_of(94, 97)), 37) == GT::spow_steps(GT(gt_of(69, 61)), GT(gt_of(33, 40)), 18));
    lemma_gt_mul_at((33, 40), (33, 40), (95, 30), (-6, 10));
    assert(GT::spow_steps(GT(gt_of(69, 61)), GT(gt_of(33, 40)), 18) == GT::spow_steps(GT(gt_of(69, 61)), GT(gt_of(95, 30)), 9));
    lemma_gt_mul_at((69, 61), (95, 30), (79, 76), (46, 59));
    lemma_gt_mul_at((95, 30), (95, 30), (45, 53), (80, 47));
    assert(GT::spow_steps(GT(gt_of(69, 61)), GT(gt_of(95, 30)), 9) == GT::spow_steps(GT(gt_of(79, 76)), GT(gt_of(45, 53)), 4));
    lemma_gt_mul_at((45, 53), (45, 53), (24, 42), (-8, 19));
    assert(GT::spow_steps(GT(gt_of(79, 76)), GT(gt_of(45, 53)), 4) == GT::spow_steps(GT(gt_of(79, 76)), GT(gt_of(24, 42)), 2));
    lemma_gt_mul_at((24, 42), (24, 42), (24, 50), (-12, 2));
    assert(GT::spow_steps(GT(gt_of(79, 76)), GT(gt_of(24, 42)), 2) == GT::spow_steps(GT(gt_of(79, 76)), GT(gt_of(24, 50)), 1));
    lemma_gt_mul_at((79, 76), (24, 50), (15, 55), (-19, 19));
    lemma_gt_mul_at((24, 50), (24, 50), (96, 1), (-20, -1));
    assert(GT::spow_steps(GT(gt_of(79, 76)), GT(gt_of(24, 50)), 1) == GT::spow_steps(GT(gt_of(15, 55)), GT(gt_of(96, 1)), 0));
}

/// The pairing of `5G` with the point `33 P` of the image of `H`.
proof fn lemma_pairing_5_33()
    ensures
        smiller_loop(g1p(12, 32), dq(30, 6)) is Some,
        spairing_at(g1p(12, 32), dq(30, 6)) == GT(gt_of(15, 55)),
{
    lemma_final_exponent();
    lemma_tangent_5_33();
    lemma_tangent_10_33();
    lemma_tangent_3_33();
    lemma_tangent_6_33();
    lemma_vertical_at(12, 69, 32, 30, 6);
    lemma_miller_at(
        g1p(12, 32),
        dq(30, 6),
        (g1p(91, 66), g1p(26, 45), g1p(32, 42), g1p(12, 69)),
        (15, 20),
        (3, 73),
        (84, 32),
        (62, 23),
        (-12, 30),
        ((27, 99, -2, 1), (25, 91, -71, -50), (20, 6, -76, -37), (74, 43, 14, 9)),
        ((92, 71, 35, 44), (31, 37, 40, 48), (33, 83, -15, -7)),
    );
    lemma_final_exp_5_33();
}

proof fn lemma_final_exp_6_33()
    ensures
        GT(gt_of(8, 96)).spow(600) == GT(gt_of(75, 98)),
{
    assert(GT::sone() == GT(gt_of(1, 0)));
    lemma_gt_mul_at((8, 96), (8, 96), (39, 97), (-91, -77));
    assert(GT::spow_steps(GT(gt_of(1, 0)), GT(gt_of(8, 96)), 600) == GT::spow_steps(GT(gt_of(1, 0)), GT(gt_of(39, 97)), 300));
    lemma_gt_mul_at((39, 97), (39, 97), (91, 76), (-79, -19));
    assert(GT::spow_steps(GT(gt_of(1, 0)), GT(gt_of(39, 97)), 300) == GT::spow_steps(GT(gt_of(1, 0)), GT(gt_of(91, 76)), 150));
    lemma_gt_mul_at((91, 76), (91, 76), (81, 77), (24, 79));
    assert(GT::spow_steps(GT(gt_of(1, 0)), GT(gt_of(91, 76)), 150) == GT::spow_steps(GT(gt_of(1, 0)), GT(gt_of(81, 77)), 75));
    lemma_gt_mul_at((1, 0), (81, 77), (81, 77), (0, 0));
    lemma_gt_mul_at((81, 77), (81, 77), (26, 81), (6, 64));
    assert(GT::spow_steps(GT(gt_of(1, 0)), GT(gt_of(81, 77)), 75) == GT::spow_steps(GT(gt_of(81, 77)), GT(gt_of(26, 81)), 37));
    lemma_gt_mul_at((81, 77), (26, 81), (10, 3), (-41, 23));
    lemma_gt_mul_at((26, 81), (26, 81), (74, 75), (-59, -24));
    assert(GT::spow_steps(GT(gt_of(81, 77)), GT(gt_of(26, 81)), 37) == GT::spow_steps(GT(gt_of(10, 3)), GT(gt_of(74, 75)), 18));
    lemma_gt_mul_at((74, 75), (74, 75), (53, 21), (-2, 54));
    assert(GT::spow_steps(GT(gt_of(10, 3)), GT(gt_of(74, 75)), 18) == GT::spow_steps(GT(gt_of(10, 3)), GT(gt_of(53, 21)), 9));
    lemma_gt_mul_at((10, 3), (53, 21), (63, 3), (4, 3));
    lemma_gt_mul_at((53, 21), (53, 21), (45, 68), (23, 17));
    assert(GT::spow_steps(GT(gt_of(10, 3)), GT(gt_of(53, 21)), 9) == GT::spow_steps(GT(gt_of(63, 3)), GT(gt_of(45, 68)), 4));
    lemma_gt_mul_at((45, 68), (45, 68), (27, 82), (-26, 14));
    assert(GT::spow_steps(GT(gt_of(63, 3)), GT(gt_of(45, 68)), 4) == GT::spow_steps(GT(gt_of(63, 3)), GT(gt_of(27, 82)), 2));
    lemma_gt_mul_at((27, 82), (27, 82), (65, 27), (-60, -23));
    assert(GT::spow_steps(GT(gt_of(63, 3)), GT(gt_of(27, 82)), 2) == GT::spow_steps(GT(gt_of(63, 3)), GT(gt_of(65, 27)), 1));
    lemma_gt_mul_at((63, 3), (65, 27), (75, 98), (39, 17));
    lemma_gt_mul_at((65, 27), (65, 27), (62, 54), (34, 27));
    assert(GT::spow_steps(GT(gt_of(63, 3)), GT(gt_of(65, 27)), 1) == GT::spow_steps(GT(gt_of(75, 98)), GT(gt_of(62, 54)), 0));
}

/// The pairing of `6G` with the point `33 P` of the image of `H`.
proof fn lemma_pairing_6_33()
    ensures
        smiller_loop(g1p(32, 42), dq(30, 6)) is Some,
        spairing_at(g1p(32, 42), dq(30, 6)) == GT(gt_of(75, 98)),
{
    lemma_final_exponent();
    lemma_tangent_6_33();
    lemma_tangent_12_33();
    lemma_tangent_7_33();
    lemma_tangent_14_33();
    lemma_vertical_at(32, 59, 42, 30, 6);
    lemma_miller_at(
        g1p(32, 42),
        dq(30, 6),
        (g1p(12, 69), g1p(91, 35), g1p(26, 56), g1p(32, 59)),
        (62, 23),
        (77, 17),
        (96, 63),
        (47, 77),
        (-32, 30),
        ((83, 0, 32, 23), (28, 98, 63, 13), (68, 25, -88, -41), (4, 59, 49, 50)),
        ((70, 21, -35, -30), (57, 13, 16, 47), (8, 96, -22, 8)),
    );
    lemma_final_exp_6_33();
}

proof fn lemma_final_exp_7_33()
    ensures
        GT(gt_of(77, 67)).spow(600) == GT(gt_of(90, 62)),
{
    assert(GT::sone() == GT(gt_of(1, 0)));
    lemma_gt_mul_at((77, 67), (77, 67), (26, 72), (14, 57));
    assert(GT::spow_steps(GT(gt_of(1, 0)), GT(gt_of(77, 67)), 600) == GT::spow_steps(GT(gt_of(1, 0)), GT(gt_of(26, 72)), 300));
    lemma_gt_mul_at((26, 72), (26, 72), (37, 75), (-45, -15));
    assert(GT::spow_steps(GT(gt_of(1, 0)), GT(gt_of(26, 72)), 300) == GT::spow_steps(GT(gt_of(1, 0)), GT(gt_of(37, 75)), 150));
    lemma_gt_mul_at((37, 75), (37, 75), (87, 26), (-43, -1));
    assert(GT::spow_steps(GT(gt_of(1, 0)), GT(gt_of(37, 75)), 150) == GT::spow_steps(GT(gt_of(1, 0)), GT(gt_of(87, 26)), 75));
    lemma_gt_mul_at((1, 0), (87, 26), (87, 26), (0, 0));
    lemma_gt_mul_at((87, 26), (87, 26), (25, 10), (68, 38));
    assert(GT::spow_steps(GT(gt_of(1, 0)), GT(gt_of(87, 26)), 75) == GT::spow_steps(GT(gt_of(87, 26)), GT(gt_of(25, 10)), 37));
    lemma_gt_mul_at((87, 26), (25, 10), (97, 48), (18, 12));
    lemma_gt_mul_at((25, 10), (25, 10), (20, 97), (5, 3));
    assert(GT::spow_steps(GT(gt_of(87, 26)), GT(gt_of(25, 10)), 37) == GT::spow_steps(GT(gt_of(97, 48)), GT(gt_of(20, 97)), 18));
    lemma_gt_mul_at((20, 97), (20, 97), (81, 26), (-90, -55));
    assert(GT::spow_steps(GT(gt_of(97, 48)), GT(gt_of(20, 97)), 18) == GT::spow_steps(GT(gt_of(97, 48)), GT(gt_of(81, 26)), 9));
    lemma_gt_mul_at((97, 48), (81, 26), (44, 11), (65, 51));
    lemma_gt_mul_at((81, 26), (81, 26), (27, 1), (58, 35));
    assert(GT::spow_steps(GT(gt_of(97, 48)), GT(gt_of(81, 26)), 9) == GT::spow_steps(GT(gt_of(44, 11)), GT(gt_of(27, 1)), 4));
    lemma_gt_mul_at((27, 1), (27, 1), (21, 53), (7, 0));
    assert(GT::spow_steps(GT(gt_of(44, 11)), GT(gt_of(27, 1)), 4) == GT::spow_steps(GT(gt_of(44, 11)), GT(gt_of(21, 53)), 2));
    lemma_gt_mul_at((21, 53), (21, 53), (56, 23), (-24, -6));
    assert(GT::spow_steps(GT(gt_of(44, 11)), GT(gt_of(21, 53)), 2) == GT::spow_steps(GT(gt_of(44, 11)), GT(gt_of(56, 23)), 1));
    lemma_gt_mul_at((44, 11), (56, 23), (90, 62), (21, 13));
    lemma_gt_mul_at((56, 23), (56, 23), (82, 27), (25, 20));
    assert(GT::spow_steps(GT(gt_of(44, 11)), GT(gt_of(56, 23)), 1) == GT::spow_steps(GT(gt_of(90, 62)), GT(gt_of(82, 27)), 0));
}

/// The pairing of `7G` with the point `33 P` of the image of `H`.
proof fn lemma_pairing_7_33()
    ensures
        smiller_loop(g1p(91, 35), dq(30, 6)) is Some,
        spairing_at(g1p(91, 35), dq(30, 6)) == GT(gt_of(90, 62)),
{
    lemma_final_exponent();
    lemma_tangent_7_33();
    lemma_tangent_14_33();
    lemma_tangent_11_33();
    lemma_tangent_5_33();
    lemma_vertical_at(91, 66, 35, 30, 6);
    lemma_miller_at(
        g1p(91, 35),
        dq(30, 6),
        (g1p(26, 56), g1p(32, 59), g1p(12, 32), g1p(91, 66)),
        (96, 63),
        (47, 77),
        (49, 13),
        (15, 20),
        (-91, 30),
        ((96, 47, 51, 80), (85, 23, 8, 59), (30, 48, 66, 33), (38, 98, 8, 20)),
        ((21, 66, -81, -22), (5, 90, -10, 0), (77, 67, -32, -107)),
    );
    lemma_final_exp_7_33();
}

proof fn lemma_final_exp_8_33()
    ensures
        GT(gt_of(23, 24)).spow(600) == GT(gt_of(51, 9)),
{
    assert(GT::sone() == GT(gt_of(1, 0)));
    lemma_gt_mul_at((23, 24), (23, 24), (54, 23), (-1, 5));
    assert(GT::spow_steps(GT(gt_of(1, 0)), GT(gt_of(23, 24)), 600) == GT::spow_steps(GT(gt_of(1, 0)), GT(gt_of(54, 23)), 300));
    lemma_gt_mul_at((54, 23), (54, 23), (64, 36), (23, 19));
    assert(GT::spow_steps(GT(gt_of(1, 0)), GT(gt_of(54, 23)), 300) == GT::spow_steps(GT(gt_of(1, 0)), GT(gt_of(64, 36)), 150));
    lemma_gt_mul_at((64, 36), (64, 36), (73, 80), (27, 32));
    assert(GT::spow_steps(GT(gt_of(1, 0)), GT(gt_of(64, 36)), 150) == GT::spow_steps(GT(gt_of(1, 0)), GT(gt_of(73, 80)), 75));
    lemma_gt_mul_at((1, 0), (73, 80), (73, 80), (0, 0));
    lemma_gt_mul_at((73, 80), (73, 80), (40, 28), (-11, 52));
    assert(GT::spow_steps(GT(gt_of(1, 0)), GT(gt_of(73, 80)), 75) == GT::spow_steps(GT(gt_of(73, 80)), GT(gt_of(40, 28)), 37));
    lemma_gt_mul_at((73, 80), (40, 28), (74, 75), (6, 29));
    lemma_gt_mul_at((40, 28), (40, 28), (8, 42), (8, 14));
    assert(GT::spow_steps(GT(gt_of(73, 80)), GT(gt_of(40, 28)), 37) == GT::spow_steps(GT(gt_of(74, 75)), GT(gt_of(8, 42)), 18));
    lemma_gt_mul_at((8, 42), (8, 42), (17, 19), (-17, -11));
    assert(GT::spow_steps(GT(gt_of(74, 75)), GT(gt_of(8, 42)), 18) == GT::spow_steps(GT(gt_of(74, 75)), GT(gt_of(17, 19)), 9));
    lemma_gt_mul_at((74, 75), (17, 19), (35, 44), (-2, 12));
    lemma_gt_mul_at((17, 19), (17, 19), (29, 83), (-1, 2));
    assert(GT::spow_steps(GT(gt_of(74, 75)), GT(gt_of(17, 19)), 9) == GT::spow_steps(GT(gt_of(35, 44)), GT(gt_of(29, 83)), 4));
    lemma_gt_mul_at((29, 83), (29, 83), (12, 46), (-60, -21));
    assert(GT::spow_steps(GT(gt_of(35, 44)), GT(gt_of(29, 83)), 4) == GT::spow_steps(GT(gt_of(35, 44)), GT(gt_of(12, 46)), 2));
    lemma_gt_mul_at((12, 46), (12, 46), (48, 99), (-20, -11));
    assert(GT::spow_steps(GT(gt_of(35, 44)), GT(gt_of(12, 46)), 2) == GT::spow_steps(GT(gt_of(35, 44)), GT(gt_of(48, 99)), 1));
    lemma_gt_mul_at((35, 44), (48, 99), (51, 9), (-27, 12));
    lemma_gt_mul_at((48, 99), (48, 99), (78, 6), (-75, -3));
    assert(GT::spow_steps(GT(gt_of(35, 44)), GT(gt_of(48, 99)), 1) == GT::spow_steps(GT(gt_of(51, 9)), GT(gt_of(78, 6)), 0));
}

/// The pairing of `8G` with the point `33 P` of the image of `H`.
proof fn lemma_pairing_8_33()
    ensures
        smiller_loop(g1p(18, 49), dq(30, 6)) is Some,
        spairing_at(g1p(18, 49), dq(30, 6)) == GT(gt_of(51, 9)),
{
    lemma_final_exponent();
    lemma_tangent_8_33();
    lemma_tangent_16_33();
    lemma_tangent_15_33();
    lemma_tangent_13_33();
    lemma_vertical_at(18, 52, 49, 30, 6);
    lemma_miller_at(
        g1p(18, 49),
        dq(30, 6),
        (g1p(1, 99), g1p(68, 27), g1p(65, 3), g1p(18, 52)),
        (98, 68),
        (17, 90),
        (21, 47),
        (32, 21),
        (-18, 30),
        ((31, 18, 49, 86), (18, 62, -11, 14), (15, 4, -35, -16), (26, 96, 1, 5)),
        ((45, 18, -85, -42), (52, 32, 10, 11), (23, 24, -19, 0)),
    );
    lemma_final_exp_8_33();
}

proof fn lemma_final_exp_9_33()
    ensures
        GT(gt_of(95, 58)).spow(600) == GT(gt_of(42, 92)),
{
    assert(GT::sone() == GT(gt_of(1, 0)));
    lemma_gt_mul_at((95, 58), (95, 58), (5, 81), (56, 75));
    assert(GT::spow_steps(GT(gt_of(1, 0)), GT(gt_of(95, 58)), 600) == GT::spow_steps(GT(gt_of(1, 0)), GT(gt_of(5, 81)), 300));
    lemma_gt_mul_at((5, 81), (5, 81), (29, 6), (-65, -57));
    assert(GT::spow_steps(GT(gt_of(1, 0)), GT(gt_of(5, 81)), 300) == GT::spow_steps(GT(gt_of(1, 0)), GT(gt_of(29, 6)), 150));
    lemma_gt_mul_at((29, 6), (29, 6), (98, 9), (7, 3));
    assert(GT::spow_steps(GT(gt_of(1, 0)), GT(gt_of(29, 6)), 150) == GT::spow_steps(GT(gt_of(1, 0)), GT(gt_of(98, 9)), 75));
    lemma_gt_mul_at((1, 0), (98, 9), (98, 9), (0, 0));
    lemma_gt_mul_at((98, 9), (98, 9), (29, 67), (94, 16));
    assert(GT::spow_steps(GT(gt_of(1, 0)), GT(gt_of(98, 9)), 75) == GT::spow_steps(GT(gt_of(98, 9)), GT(gt_of(29, 67)), 37));
    lemma_gt_mul_at((98, 9), (29, 67), (17, 63), (22, 61));
    lemma_gt_mul_at((29, 67), (29, 67), (89, 3), (-37, -6));
    assert(GT::spow_steps(GT(gt_of(98, 9)), GT(gt_of(29, 67)), 37) == GT::spow_steps(GT(gt_of(17, 63)), GT(gt_of(89, 3)), 18));
    lemma_gt_mul_at((89, 3), (89, 3), (34, 20), (78, 5));
    assert(GT::spow_steps(GT(gt_of(17, 63)), GT(gt_of(89, 3)), 18) == GT::spow_steps(GT(gt_of(17, 63)), GT(gt_of(34, 20)), 9));
    lemma_gt_mul_at((17, 63), (34, 20), (25, 10), (-7, 12));
    lemma_gt_mul_at((34, 20), (34, 20), (49, 51), (7, 9));
    assert(GT::spow_steps(GT(gt_of(17, 63)), GT(gt_of(34, 20)), 9) == GT::spow_steps(GT(gt_of(25, 10)), GT(gt_of(49, 51)), 4));
    lemma_gt_mul_at((49, 51), (49, 51), (2, 74), (-2, 23));
    assert(GT::spow_steps(GT(gt_of(25, 10)), GT(gt_of(49, 51)), 4) == GT::spow_steps(GT(gt_of(25, 10)), GT(gt_of(2, 74)), 2));
    lemma_gt_mul_at((2, 74), (2, 74), (83, 72), (-55, -52));
    assert(GT::spow_steps(GT(gt_of(25, 10)), GT(gt_of(2, 74)), 2) == GT::spow_steps(GT(gt_of(25, 10)), GT(gt_of(83, 72)), 1));
    lemma_gt_mul_at((25, 10), (83, 72), (42, 92), (13, 18));
    lemma_gt_mul_at((83, 72), (83, 72), (89, 1), (16, 67));
    assert(GT::spow_steps(GT(gt_of(25, 10)), GT(gt_of(83, 72)), 1) == GT::spow_steps(GT(gt_of(42, 92)), GT(gt_of(89, 1)), 0));
}

/// The pairing of `9G` with the point `33 P` of the image of `H`.
proof fn lemma_pairing_9_33()
    ensures
        smiller_loop(g1p(18, 52), dq(30, 6)) is Some,
        spairing_at(g1p(18, 52), dq(30, 6)) == GT(gt_of(42, 92)),
{
    lemma_final_exponent();
    lemma_tangent_9_33();
    lemma_tangent_1_33();
    lemma_tangent_2_33();
    lemma_tangent_4_33();
    lemma_vertical_at(18, 49, 52, 30, 6);
    lemma_miller_at(
        g1p(18, 52),
        dq(30, 6),
        (g1p(1, 2), g1p(68, 74), g1p(65, 98), g1p(18, 49)),
        (32, 35),
        (44, 7),
        (54, 83),
        (46, 53),
        (-18, 30),
        ((1, 5, -2, 10), (9, 91, 0, 1), (82, 23, -82, -66), (95, 79, 24, 60)),
        ((57, 83, 27, 86), (41, 16, -18, 24), (95, 58, -13, 4)),
    );
    lemma_final_exp_9_33();
}

proof fn lemma_final_exp_10_33()
    ensures
        GT(gt_of(53, 1)).spow(600) == GT(gt_of(28, 39)),
{
    assert(GT::sone() == GT(gt_of(1, 0)));
    lemma_gt_mul_at((53, 1), (53, 1), (81, 4), (27, 1));
    assert(GT::spow_steps(GT(gt_of(1, 0)), GT(gt_of(53, 1)), 600) == GT::spow_steps(GT(gt_of(1, 0)), GT(gt_of(81, 4)), 300));
    lemma_gt_mul_at((81, 4), (81, 4), (81, 26), (64, 6));
    assert(GT::spow_steps(GT(gt_of(1, 0)), GT(gt_of(81, 4)), 300) == GT::spow_steps(GT(gt_of(1, 0)), GT(gt_of(81, 26)), 150));
    lemma_gt_mul_at((81, 26), (81, 26), (27, 1), (58, 35));
    assert(GT::spow_steps(GT(gt_of(1, 0)), GT(gt_of(81, 26)), 150) == GT::spow_steps(GT(gt_of(1, 0)), GT(gt_of(27, 1)), 75));
    lemma_gt_mul_at((1, 0), (27, 1), (27, 1), (0, 0));
    lemma_gt_mul_at((27, 1), (27, 1), (21, 53), (7, 0));
    assert(GT::spow_steps(GT(gt_of(1, 0)), GT(gt_of(27, 1)), 75) == GT::spow_steps(GT(gt_of(27, 1)), GT(gt_of(21, 53)), 37));
    lemma_gt_mul_at((27, 1), (21, 53), (9, 86), (5, 13));
    lemma_gt_mul_at((21, 53), (21, 53), (56, 23), (-24, -6));
    assert(GT::spow_steps(GT(gt_of(27, 1)), GT(gt_of(21, 53)), 37) == GT::spow_steps(GT(gt_of(9, 86)), GT(gt_of(56, 23)), 18));
    lemma_gt_mul_at((56, 23), (56, 23), (82, 27), (25, 20));
    assert(GT::spow_steps(GT(gt_of(9, 86)), GT(gt_of(56, 23)), 18) == GT::spow_steps(GT(gt_of(9, 86)), GT(gt_of(82, 27)), 9));
    lemma_gt_mul_at((9, 86), (82, 27), (32, 24), (-16, 49));
    lemma_gt_mul_at((82, 27), (82, 27), (36, 63), (59, 36));
    assert(GT::spow_steps(GT(gt_of(9, 86)), GT(gt_of(82, 27)), 9) == GT::spow_steps(GT(gt_of(32, 24)), GT(gt_of(36, 63)), 4));
    lemma_gt_mul_at((36, 63), (36, 63), (54, 62), (-27, 5));
    assert(GT::spow_steps(GT(gt_of(32, 24)), GT(gt_of(36, 63)), 4) == GT::spow_steps(GT(gt_of(32, 24)), GT(gt_of(54, 62)), 2));
    lemma_gt_mul_at((54, 62), (54, 62), (82, 24), (-10, 28));
    assert(GT::spow_steps(GT(gt_of(32, 24)), GT(gt_of(54, 62)), 2) == GT::spow_steps(GT(gt_of(32, 24)), GT(gt_of(82, 24)), 1));
    lemma_gt_mul_at((32, 24), (82, 24), (28, 39), (20, 21));
    lemma_gt_mul_at((82, 24), (82, 24), (88, 27), (60, 33));
    assert(GT::spow_steps(GT(gt_of(32, 24)), GT(gt_of(82, 24)), 1) == GT::spow_steps(GT(gt_of(28, 39)), GT(gt_of(88, 27)), 0));
}

/// The pairing of `10G` with the point `33 P` of the image of `H`.
proof fn lemma_pairing_10_33()
    ensures
        smiller_loop(g1p(91, 66), dq(30, 6)) is Some,
        spairing_at(g1p(91, 66), dq(30, 6)) == GT(gt_of(28, 39)),
{
    lemma_final_exponent();
    lemma_tangent_10_33();
    lemma_tangent_3_33();
    lemma_tangent_6_33();
    lemma_tangent_12_33();
    lemma_vertical_at(91, 35, 66, 30, 6);
    lemma_miller_at(
        g1p(91, 66),
        dq(30, 6),
        (g1p(26, 45), g1p(32, 42), g1p(12, 69), g1p(91, 35)),
        (3, 73),
        (84, 32),
        (62, 23),
        (77, 17),
        (-91, 30),
        ((33, 58, -53, -49), (7, 32, 9, 40), (35, 30, -10, -6), (66, 56, 14, 19)),
        ((8, 14, 12, 42), (75, 67, 3, 9), (53, 1, -88, -58)),
    );
    lemma_final_exp_10_33();
}

proof fn lemma_final_exp_11_33()
    ensures
        GT(gt_of(27, 57)).spow(600) == GT(gt_of(78, 3)),
{
    assert(GT::sone() == GT(gt_of(1, 0)));
    lemma_gt_mul_at((27, 57), (27, 57), (5, 31), (-25, -2));
    assert(GT::spow_steps(GT(gt_of(1, 0)), GT(gt_of(27, 57)), 600) == GT::spow_steps(GT(gt_of(1, 0)), GT(gt_of(5, 31)), 300));
    lemma_gt_mul_at((5, 31), (5, 31), (74, 56), (-10, -7));
    assert(GT::spow_steps(GT(gt_of(1, 0)), GT(gt_of(5, 31)), 300) == GT::spow_steps(GT(gt_of(1, 0)), GT(gt_of(74, 56)), 150));
    lemma_gt_mul_at((74, 56), (74, 56), (17, 1), (23, 51));
    assert(GT::spow_steps(GT(gt_of(1, 0)), GT(gt_of(74, 56)), 150) == GT::spow_steps(GT(gt_of(1, 0)), GT(gt_of(17, 1)), 75));
    lemma_gt_mul_at((1, 0), (17, 1), (17, 1), (0, 0));
    lemma_gt_mul_at((17, 1), (17, 1), (86, 33), (2, 0));
    assert(GT::spow_steps(GT(gt_of(1, 0)), GT(gt_of(17, 1)), 75) == GT::spow_steps(GT(gt_of(17, 1)), GT(gt_of(86, 33)), 37));
    lemma_gt_mul_at((17, 1), (86, 33), (15, 8), (14, 6));
    lemma_gt_mul_at((86, 33), (86, 33), (45, 42), (62, 45));
    assert(GT::spow_steps(GT(gt_of(17, 1)), GT(gt_of(86, 33)), 37) == GT::spow_steps(GT(gt_of(15, 8)), GT(gt_of(45, 42)), 18));
    lemma_gt_mul_at((45, 42), (45, 42), (59, 97), (2, 19));
    assert(GT::spow_steps(GT(gt_of(15, 8)), GT(gt_of(45, 42)), 18) == GT::spow_steps(GT(gt_of(15, 8)), GT(gt_of(59, 97)), 9));
    lemma_gt_mul_at((15, 8), (59, 97), (8, 40), (1, 11));
    lemma_gt_mul_at((59, 97), (59, 97), (31, 17), (-59, 20));
    assert(GT::spow_steps(GT(gt_of(15, 8)), GT(gt_of(59, 97)), 9) == GT::spow_steps(GT(gt_of(8, 40)), GT(gt_of(31, 17)), 4));
    lemma_gt_mul_at((31, 17), (31, 17), (66, 58), (6, 7));
    assert(GT::spow_steps(GT(gt_of(8, 40)), GT(gt_of(31, 17)), 4) == GT::spow_steps(GT(gt_of(8, 40)), GT(gt_of(66, 58)), 2));
    lemma_gt_mul_at((66, 58), (66, 58), (83, 50), (9, 42));
    assert(GT::spow_steps(GT(gt_of(8, 40)), GT(gt_of(66, 58)), 2) == GT::spow_steps(GT(gt_of(8, 40)), GT(gt_of(83, 50)), 1));
    lemma_gt_mul_at((8, 40), (83, 50), (78, 3), (-14, 17));
    lemma_gt_mul_at((83, 50), (83, 50), (46, 43), (43, 57));
    assert(GT::spow_steps(GT(gt_of(8, 40)), GT(gt_of(83, 50)), 1) == GT::spow_steps(GT(gt_of(78, 3)), GT(gt_of(46, 43)), 0));
}

/// The pairing of `11G` with the point `33 P` of the image of `H`.
proof fn lemma_pairing_11_33()
    ensures
        smiller_loop(g1p(32, 59), dq(30, 6)) is Some,
        spairing_at(g1p(32, 59), dq(30, 6)) == GT(gt_of(78, 3)),
{
    lemma_final_exponent();
    lemma_tangent_11_33();
    lemma_tangent_5_33();
    lemma_tangent_10_33();
    lemma_tangent_3_33();
    lemma_vertical_at(32, 42, 59, 30, 6);
    lemma_miller_at(
        g1p(32, 59),
        dq(30, 6),
        (g1p(12, 32), g1p(91, 66), g1p(26, 45), g1p(32, 42)),
        (49, 13),
        (15, 20),
        (3, 73),
        (84, 32),
        (-32, 30),
        ((10, 95, 22, 10), (68, 28, -18, -3), (2, 95, 38, 29), (40, 61, -69, -65)),
        ((0, 48, -21, 11), (80, 72, -16, 24), (27, 57, -47, -21)),
    );
    lemma_final_exp_11_33();
}

proof fn lemma_final_exp_12_33()
    ensures
        GT(gt_of(43, 17)).spow(600) == GT(gt_of(61, 46)),
{
    assert(GT::sone() == GT(gt_of(1, 0)));
    lemma_gt_mul_at((43, 17), (43, 17), (45, 62), (15, 11));
    assert(GT::spow_steps(GT(gt_of(1, 0)), GT(gt_of(43, 17)), 600) == GT::spow_steps(GT(gt_of(1, 0)), GT(gt_of(45, 62)), 300));
    lemma_gt_mul_at((45, 62), (45, 62), (100, 19), (-19, 17));
    assert(GT::spow_steps(GT(gt_of(1, 0)), GT(gt_of(45, 62)), 300) == GT::spow_steps(GT(gt_of(1, 0)), GT(gt_of(100, 19)), 150));
    lemma_gt_mul_at((100, 19), (100, 19), (44, 5), (95, 34));
    assert(GT::spow_steps(GT(gt_of(1, 0)), GT(gt_of(100, 19)), 150) == GT::spow_steps(GT(gt_of(1, 0)), GT(gt_of(44, 5)), 75));
    lemma_gt_mul_at((1, 0), (44, 5), (44, 5), (0, 0));
    lemma_gt_mul_at((44, 5), (44, 5), (93, 11), (18, 4));
    assert(GT::spow_steps(GT(gt_of(1, 0)), GT(gt_of(44, 5)), 75) == GT::spow_steps(GT(gt_of(44, 5)), GT(gt_of(93, 11)), 37));
    lemma_gt_mul_at((44, 5), (93, 11), (98, 86), (39, 8));
    lemma_gt_mul_at((93, 11), (93, 11), (44, 6), (84, 19));
    assert(GT::spow_steps(GT(gt_of(44, 5)), GT(gt_of(93, 11)), 37) == GT::spow_steps(GT(gt_of(98, 86)), GT(gt_of(44, 6)), 18));
    lemma_gt_mul_at((44, 6), (44, 6), (82, 88), (18, 4));
    assert(GT::spow_steps(GT(gt_of(98, 86)), GT(gt_of(44, 6)), 18) == GT::spow_steps(GT(gt_of(98, 86)), GT(gt_of(82, 88)), 9));
    lemma_gt_mul_at((98, 86), (82, 88), (64, 28), (4, 80));
    lemma_gt_mul_at((82, 88), (82, 88), (91, 22), (-11, 66));
    assert(GT::spow_steps(GT(gt_of(98, 86)), GT(gt_of(82, 88)), 9) == GT::spow_steps(GT(gt_of(64, 28)), GT(gt_of(91, 22)), 4));
    lemma_gt_mul_at((91, 22), (91, 22), (20, 86), (77, 34));
    assert(GT::spow_steps(GT(gt_of(64, 28)), GT(gt_of(91, 22)), 4) == GT::spow_steps(GT(gt_of(64, 28)), GT(gt_of(20, 86)), 2));
    lemma_gt_mul_at((20, 86), (20, 86), (74, 84), (-70, -40));
    assert(GT::spow_steps(GT(gt_of(64, 28)), GT(gt_of(20, 86)), 2) == GT::spow_steps(GT(gt_of(64, 28)), GT(gt_of(74, 84)), 1));
    lemma_gt_mul_at((64, 28), (74, 84), (61, 46), (23, 50));
    lemma_gt_mul_at((74, 84), (74, 84), (36, 23), (-16, 53));
    assert(GT::spow_steps(GT(gt_of(64, 28)), GT(gt_of(74, 84)), 1) == GT::spow_steps(GT(gt_of(61, 46)), GT(gt_of(36, 23)), 0));
}

/// The pairing of `12G` with the point `33 P` of the image of `H`.
proof fn lemma_pairing_12_33()
    ensures
        smiller_loop(g1p(12, 69), dq(30, 6)) is Some,
        spairing_at(g1p(12, 69), dq(30, 6)) == GT(gt_of(61, 46)),
{
    lemma_final_exponent();
    lemma_tangent_12_33();
    lemma_tangent_7_33();
    lemma_tangent_14_33();
    lemma_tangent_11_33();
    lemma_vertical_at(12, 32, 69, 30, 6);
    lemma_miller_at(
        g1p(12, 69),
        dq(30, 6),
        (g1p(91, 35), g1p(26, 56), g1p(32, 59), g1p(12, 32)),
        (77, 17),
        (96, 63),
        (47, 77),
        (49, 13),
        (-12, 30),
        ((85, 6, 55, 23), (5, 99, 77, 54), (21, 77, -97, -88), (7, 14, -49, -7)),
        ((55, 0, -2, 0), (69, 8, 26, 7), (43, 17, -11, 17)),
    );
    lemma_final_exp_12_33();
}

proof fn lemma_final_exp_13_33()
    ensures
        GT(gt_of(21, 84)).spow(600) == GT(gt_of(68, 21)),
{
    assert(GT::sone() == GT(gt_of(1, 0)));
    lemma_gt_mul_at((21, 84), (21, 84), (51, 7), (-66, -35));
    assert(GT::spow_steps(GT(gt_of(1, 0)), GT(gt_of(21, 84)), 600) == GT::spow_steps(GT(gt_of(1, 0)), GT(gt_of(51, 7)), 300));
    lemma_gt_mul_at((51, 7), (51, 7), (27, 59), (25, 6));
    assert(GT::spow_steps(GT(gt_of(1, 0)), GT(gt_of(51, 7)), 300) == GT::spow_steps(GT(gt_of(1, 0)), GT(gt_of(27, 59)), 150));
    lemma_gt_mul_at((27, 59), (27, 59), (76, 8), (-28, -3));
    assert(GT::spow_steps(GT(gt_of(1, 0)), GT(gt_of(27, 59)), 150) == GT::spow_steps(GT(gt_of(1, 0)), GT(gt_of(76, 8)), 75));
    lemma_gt_mul_at((1, 0), (76, 8), (76, 8), (0, 0));
    lemma_gt_mul_at((76, 8), (76, 8), (56, 41), (56, 11));
    assert(GT::spow_steps(GT(gt_of(1, 0)), GT(gt_of(76, 8)), 75) == GT::spow_steps(GT(gt_of(76, 8)), GT(gt_of(56, 41)), 37));
    lemma_gt_mul_at((76, 8), (56, 41), (90, 4), (38, 32));
    lemma_gt_mul_at((56, 41), (56, 41), (41, 83), (14, 28));
    assert(GT::spow_steps(GT(gt_of(76, 8)), GT(gt_of(56, 41)), 37) == GT::spow_steps(GT(gt_of(90, 4)), GT(gt_of(41, 83)), 18));
    lemma_gt_mul_at((41, 83), (41, 83), (44, 18), (-52, -1));
    assert(GT::spow_steps(GT(gt_of(90, 4)), GT(gt_of(41, 83)), 18) == GT::spow_steps(GT(gt_of(90, 4)), GT(gt_of(44, 18)), 9));
    lemma_gt_mul_at((90, 4), (44, 18), (50, 7), (38, 17));
    lemma_gt_mul_at((44, 18), (44, 18), (97, 48), (15, 12));
    assert(GT::spow_steps(GT(gt_of(90, 4)), GT(gt_of(44, 18)), 9) == GT::spow_steps(GT(gt_of(50, 7)), GT(gt_of(97, 48)), 4));
    lemma_gt_mul_at((97, 48), (97, 48), (35, 39), (70, 69));
    assert(GT::spow_steps(GT(gt_of(50, 7)), GT(gt_of(97, 48)), 4) == GT::spow_steps(GT(gt_of(50, 7)), GT(gt_of(35, 39)), 2));
    lemma_gt_mul_at((35, 39), (35, 39), (7, 98), (-3, 11));
    assert(GT::spow_steps(GT(gt_of(50, 7)), GT(gt_of(35, 39)), 2) == GT::spow_steps(GT(gt_of(50, 7)), GT(gt_of(7, 98)), 1));
    lemma_gt_mul_at((50, 7), (7, 98), (68, 21), (-4, 42));
    lemma_gt_mul_at((7, 98), (7, 98), (40, 50), (-95, -82));
    assert(GT::spow_steps(GT(gt_of(50, 7)), GT(gt_of(7, 98)), 1) == GT::spow_steps(GT(gt_of(68, 21)), GT(gt_of(40, 50)), 0));
}

/// The pairing of `13G` with the point `33 P` of the image of `H`.
proof fn lemma_pairing_13_33()
    ensures
        smiller_loop(g1p(65, 3), dq(30, 6)) is Some,
        spairing_at(g1p(65, 3), dq(30, 6)) == GT(gt_of(68, 21)),
{
    lemma_final_exponent();
    lemma_tangent_13_33();
    lemma_tangent_9_33();
    lemma_tangent_1_33();
    lemma_tangent_2_33();
    lemma_vertical_at(65, 98, 3, 30, 6);
    lemma_miller_at(
        g1p(65, 3),
        dq(30, 6),
        (g1p(18, 52), g1p(1, 2), g1p(68, 74), g1p(65, 98)),
        (32, 21),
        (32, 35),
        (44, 7),
        (54, 83),
        (-65, 30),
        ((78, 95, 5, 8), (80, 21, -9, 24), (0, 91, 59, 28), (70, 34, -7, 33)),
        ((7, 69, 37, 35), (4, 95, -53, -15), (21, 84, -31, -89)),
    );
    lemma_final_exp_13_33();
}

proof fn lemma_final_exp_14_33()
    ensures
        GT(gt_of(8, 82)).spow(600) == GT(gt_of(14, 44)),
{
    assert(GT::sone() == GT(gt_of(1, 0)));
    lemma_gt_mul_at((8, 82), (8, 82), (6, 42), (-66, -54));
    assert(GT::spow_steps(GT(gt_of(1, 0)), GT(gt_of(8, 82)), 600) == GT::spow_steps(GT(gt_of(1, 0)), GT(gt_of(6, 42)), 300));
    lemma_gt_mul_at((6, 42), (6, 42), (90, 53), (-18, -13));
    assert(GT::spow_steps(GT(gt_of(1, 0)), GT(gt_of(6, 42)), 300) == GT::spow_steps(GT(gt_of(1, 0)), GT(gt_of(90, 53)), 150));
    lemma_gt_mul_at((90, 53), (90, 53), (39, 65), (52, 66));
    assert(GT::spow_steps(GT(gt_of(1, 0)), GT(gt_of(90, 53)), 150) == GT::spow_steps(GT(gt_of(1, 0)), GT(gt_of(39, 65)), 75));
    lemma_gt_mul_at((1, 0), (39, 65), (39, 65), (0, 0));
    lemma_gt_mul_at((39, 65), (39, 65), (23, 37), (-27, 8));
    assert(GT::spow_steps(GT(gt_of(1, 0)), GT(gt_of(39, 65)), 75) == GT::spow_steps(GT(gt_of(39, 65)), GT(gt_of(23, 37)), 37));
    lemma_gt_mul_at((39, 65), (23, 37), (7, 28), (-15, 5));
    lemma_gt_mul_at((23, 37), (23, 37), (69, 30), (-9, 3));
    assert(GT::spow_steps(GT(gt_of(39, 65)), GT(gt_of(23, 37)), 37) == GT::spow_steps(GT(gt_of(7, 28)), GT(gt_of(69, 30)), 18));
    lemma_gt_mul_at((69, 30), (69, 30), (23, 8), (38, 32));
    assert(GT::spow_steps(GT(gt_of(7, 28)), GT(gt_of(69, 30)), 18) == GT::spow_steps(GT(gt_of(7, 28)), GT(gt_of(23, 8)), 9));
    lemma_gt_mul_at((7, 28), (23, 8), (38, 72), (-1, 4));
    lemma_gt_mul_at((23, 8), (23, 8), (61, 1), (4, 3));
    assert(GT::spow_steps(GT(gt_of(7, 28)), GT(gt_of(23, 8)), 9) == GT::spow_steps(GT(gt_of(38, 72)), GT(gt_of(61, 1)), 4));
    lemma_gt_mul_at((61, 1), (61, 1), (84, 20), (36, 1));
    assert(GT::spow_steps(GT(gt_of(38, 72)), GT(gt_of(61, 1)), 4) == GT::spow_steps(GT(gt_of(38, 72)), GT(gt_of(84, 20)), 2));
    lemma_gt_mul_at((84, 20), (84, 20), (91, 31), (65, 29));
    assert(GT::spow_steps(GT(gt_of(38, 72)), GT(gt_of(84, 20)), 2) == GT::spow_steps(GT(gt_of(38, 72)), GT(gt_of(91, 31)), 1));
    lemma_gt_mul_at((38, 72), (91, 31), (14, 44), (12, 54));
    lemma_gt_mul_at((91, 31), (91, 31), (48, 35), (72, 46));
    assert(GT::spow_steps(GT(gt_of(38, 72)), GT(gt_of(91, 31)), 1) == GT::spow_steps(GT(gt_of(14, 44)), GT(gt_of(48, 35)), 0));
}

/// The pairing of `14G` with the point `33 P` of the image of `H`.
proof fn lemma_pairing_14_33()
    ensures
        smiller_loop(g1p(26, 56), dq(30, 6)) is Some,
        spairing_at(g1p(26, 56), dq(30, 6)) == GT(gt_of(14, 44)),
{
    lemma_final_exponent();
    lemma_tangent_14_33();
    lemma_tangent_11_33();
    lemma_tangent_5_33();
    lemma_tangent_10_33();
    lemma_vertical_at(26, 45, 56, 30, 6);
    lemma_miller_at(
        g1p(26, 56),
        dq(30, 6),
        (g1p(32, 59), g1p(12, 32), g1p(91, 66), g1p(26, 45)),
        (47, 77),
        (49, 13),
        (15, 20),
        (3, 73),
        (-26, 30),
        ((17, 97, -37, 12), (77, 77, -5, 36), (0, 71, 0, 58), (95, 49, -15, -4)),
        ((59, 41, 65, 68), (12, 23, -28, 14), (8, 82, -10, -10)),
    );
    lemma_final_exp_14_33();
}

proof fn lemma_final_exp_15_33()
    ensures
        GT(gt_of(46, 89)).spow(600) == GT(gt_of(93, 81)),
{
    assert(GT::sone() == GT(gt_of(1, 0)));
    lemma_gt_mul_at((46, 89), (46, 89), (53, 65), (-58, 2));
    assert(GT::spow_steps(GT(gt_of(1, 0)), GT(gt_of(46, 89)), 600) == GT::spow_steps(GT(gt_of(1, 0)), GT(gt_of(53, 65)), 300));
    lemma_gt_mul_at((53, 65), (53, 65), (99, 39), (-15, 26));
    assert(GT::spow_steps(GT(gt_of(1, 0)), GT(gt_of(53, 65)), 300) == GT::spow_steps(GT(gt_of(1, 0)), GT(gt_of(99, 39)), 150));
    lemma_gt_mul_at((99, 39), (99, 39), (99, 40), (81, 61));
    assert(GT::spow_steps(GT(gt_of(1, 0)), GT(gt_of(99, 39)), 150) == GT::spow_steps(GT(gt_of(1, 0)), GT(gt_of(99, 40)), 75));
    lemma_gt_mul_at((1, 0), (99, 40), (99, 40), (0, 0));
    lemma_gt_mul_at((99, 40), (99, 40), (20, 58), (81, 62));
    assert(GT::spow_steps(GT(gt_of(1, 0)), GT(gt_of(99, 40)), 75) == GT::spow_steps(GT(gt_of(99, 40)), GT(gt_of(20, 58)), 37));
    lemma_gt_mul_at((99, 40), (20, 58), (64, 81), (-4, 41));
    lemma_gt_mul_at((20, 58), (20, 58), (66, 67), (-30, -11));
    assert(GT::spow_steps(GT(gt_of(99, 40)), GT(gt_of(20, 58)), 37) == GT::spow_steps(GT(gt_of(64, 81)), GT(gt_of(66, 67)), 18));
    lemma_gt_mul_at((66, 67), (66, 67), (69, 12), (-2, 43));
    assert(GT::spow_steps(GT(gt_of(64, 81)), GT(gt_of(66, 67)), 18) == GT::spow_steps(GT(gt_of(64, 81)), GT(gt_of(69, 12)), 9));
    lemma_gt_mul_at((64, 81), (69, 12), (10, 32), (34, 53));
    lemma_gt_mul_at((69, 12), (69, 12), (72, 98), (45, 14));
    assert(GT::spow_steps(GT(gt_of(64, 81)), GT(gt_of(69, 12)), 9) == GT::spow_steps(GT(gt_of(10, 32)), GT(gt_of(72, 98)), 4));
    lemma_gt_mul_at((72, 98), (72, 98), (24, 64), (-44, 44));
    assert(GT::spow_steps(GT(gt_of(10, 32)), GT(gt_of(72, 98)), 4) == GT::spow_steps(GT(gt_of(10, 32)), GT(gt_of(24, 64)), 2));
    lemma_gt_mul_at((24, 64), (24, 64), (15, 87), (-35, -11));
    assert(GT::spow_steps(GT(gt_of(10, 32)), GT(gt_of(24, 64)), 2) == GT::spow_steps(GT(gt_of(10, 32)), GT(gt_of(15, 87)), 1));
    lemma_gt_mul_at((10, 32), (15, 87), (93, 81), (-27, -15));
    lemma_gt_mul_at((15, 87), (15, 87), (29, 91), (-73, -50));
    assert(GT::spow_steps(GT(gt_of(10, 32)), GT(gt_of(15, 87)), 1) == GT::spow_steps(GT(gt_of(93, 81)), GT(gt_of(29, 91)), 0));
}

/// The pairing of `15G` with the point `33 P` of the image of `H`.
proof fn lemma_pairing_15_33()
    ensures
        smiller_loop(g1p(68, 27), dq(30, 6)) is Some,
        spairing_at(g1p(68, 27), dq(30, 6)) == GT(gt_of(93, 81)),
{
    lemma_final_exponent();
    lemma_tangent_15_33();
    lemma_tangent_13_33();
    lemma_tangent_9_33();
    lemma_tangent_1_33();
    lemma_vertical_at(68, 74, 27, 30, 6);
    lemma_miller_at(
        g1p(68, 27),
        dq(30, 6),
        (g1p(65, 3), g1p(18, 52), g1p(1, 2), g1p(68, 74)),
        (21, 47),
        (32, 21),
        (32, 35),
        (44, 7),
        (-68, 30),
        ((50, 68, -18, -3), (71, 81, 1, 17), (96, 93, -16, 48), (19, 51, -2, 30)),
        ((83, 44, -23, -7), (11, 88, 33, 21), (46, 89, -34, -83)),
    );
    lemma_final_exp_15_33();
}

proof fn lemma_final_exp_16_33()
    ensures
        GT(gt_of(35, 31)).spow(600) == GT(gt_of(96, 29)),
{
    assert(GT::sone() == GT(gt_of(1, 0)));
    lemma_gt_mul_at((35, 31), (35, 31), (62, 98), (2, 11));
    assert(GT::spow_steps(GT(gt_of(1, 0)), GT(gt_of(35, 31)), 600) == GT::spow_steps(GT(gt_of(1, 0)), GT(gt_of(62, 98)), 300));
    lemma_gt_mul_at((62, 98), (62, 98), (98, 23), (-58, 25));
    assert(GT::spow_steps(GT(gt_of(1, 0)), GT(gt_of(62, 98)), 300) == GT::spow_steps(GT(gt_of(1, 0)), GT(gt_of(98, 23)), 150));
    lemma_gt_mul_at((98, 23), (98, 23), (86, 40), (89, 39));
    assert(GT::spow_steps(GT(gt_of(1, 0)), GT(gt_of(98, 23)), 150) == GT::spow_steps(GT(gt_of(1, 0)), GT(gt_of(86, 40)), 75));
    lemma_gt_mul_at((1, 0), (86, 40), (86, 40), (0, 0));
    lemma_gt_mul_at((86, 40), (86, 40), (39, 28), (57, 52));
    assert(GT::spow_steps(GT(gt_of(1, 0)), GT(gt_of(86, 40)), 75) == GT::spow_steps(GT(gt_of(86, 40)), GT(gt_of(39, 28)), 37));
    lemma_gt_mul_at((86, 40), (39, 28), (12, 20), (22, 28));
    lemma_gt_mul_at((39, 28), (39, 28), (30, 87), (7, 13));
    assert(GT::spow_steps(GT(gt_of(86, 40)), GT(gt_of(39, 28)), 37) == GT::spow_steps(GT(gt_of(12, 20)), GT(gt_of(30, 87)), 18));
    lemma_gt_mul_at((30, 87), (30, 87), (98, 75), (-67, -24));
    assert(GT::spow_steps(GT(gt_of(12, 20)), GT(gt_of(30, 87)), 18) == GT::spow_steps(GT(gt_of(12, 20)), GT(gt_of(98, 75)), 9));
    lemma_gt_mul_at((12, 20), (98, 75), (80, 47), (-4, 13));
    lemma_gt_mul_at((98, 75), (98, 75), (40, 86), (39, 89));
    assert(GT::spow_steps(GT(gt_of(12, 20)), GT(gt_of(98, 75)), 9) == GT::spow_steps(GT(gt_of(80, 47)), GT(gt_of(40, 86)), 4));
    lemma_gt_mul_at((40, 86), (40, 86), (62, 90), (-58, -6));
    assert(GT::spow_steps(GT(gt_of(80, 47)), GT(gt_of(40, 86)), 4) == GT::spow_steps(GT(gt_of(80, 47)), GT(gt_of(62, 90)), 2));
    lemma_gt_mul_at((62, 90), (62, 90), (87, 30), (-43, 30));
    assert(GT::spow_steps(GT(gt_of(80, 47)), GT(gt_of(62, 90)), 2) == GT::spow_steps(GT(gt_of(80, 47)), GT(gt_of(87, 30)), 1));
    lemma_gt_mul_at((80, 47), (87, 30), (96, 29), (54, 50));
    lemma_gt_mul_at((87, 30), (87, 30), (3, 78), (66, 42));
    assert(GT::spow_steps(GT(gt_of(80, 47)), GT(gt_of(87, 30)), 1) == GT::spow_steps(GT(gt_of(96, 29)), GT(gt_of(3, 78)), 0));
}

/// The pairing of `16G` with the point `33 P` of the image of `H`.
proof fn lemma_pairing_16_33()
    ensures
        smiller_loop(g1p(1, 99), dq(30, 6)) is Some,
        spairing_at(g1p(1, 99), dq(30, 6)) == GT(gt_of(96, 29)),
{
    lemma_final_exponent();
    lemma_tangent_16_33();
    lemma_tangent_15_33();
    lemma_tangent_13_33();
    lemma_tangent_9_33();
    lemma_vertical_at(1, 2, 99, 30, 6);
    lemma_miller_at(
        g1p(1, 99),
        dq(30, 6),
        (g1p(68, 27), g1p(65, 3), g1p(18, 52), g1p(1, 2)),
        (17, 90),
        (21, 47),
        (32, 21),
        (32, 35),
        (-1, 30),
        ((67, 10, -78, -50), (28, 61, 9, 28), (93, 99, -30, -4), (89, 12, 8, 30)),
        ((0, 73, 77, 19), (71, 84, -26, -3), (35, 31, -26, -5)),
    );
    lemma_final_exp_16_33();
}

/// The doublings of double-and-add on the G1 generator.
proof fn lemma_g1_doublings()
    ensures
        g1p(1, 2).sdouble() == g1p(68, 74),
        g1p(68, 74).sdouble() == g1p(65, 98),
        g1p(65, 98).sdouble() == g1p(18, 49),
        g1p(18, 49).sdouble() == g1p(1, 99),
        g1p(1, 99).sdouble() == g1p(68, 27),
{
    lemma_g1_double_at((1, 2), (0, 4, 76, 3, 26, 2, 68, 6, 74, -18));
    lemma_g1_double_at((68, 74), (1, 47, 43, 20, 91, 5905, 65, 80, 98, 1));
    lemma_g1_double_at((65, 98), (1, 95, 84, 79, 59, 10541, 18, 33, 49, 26));
    lemma_g1_double_at((18, 49), (0, 98, 67, 65, 80, 644, 1, 63, 99, 12));
    lemma_g1_double_at((1, 99), (1, 97, 25, 24, 75, 0, 68, 55, 27, -51));
}

/// The additions of double-and-add on the G1 generator.
proof fn lemma_g1_additions()
    ensures
        g1p(1, 2).sadd(g1p(68, 74)) == g1p(26, 45),
        g1p(1, 2).sadd(g1p(65, 98)) == g1p(12, 32),
        g1p(68, 74).sadd(g1p(65, 98)) == g1p(32, 42),
        g1p(26, 45).sadd(g1p(65, 98)) == g1p(91, 35),
        g1p(1, 2).sadd(g1p(18, 49)) == g1p(18, 52),
        g1p(68, 74).sadd(g1p(18, 49)) == g1p(91, 66),
        g1p(26, 45).sadd(g1p(18, 49)) == g1p(32, 59),
        g1p(65, 98).sadd(g1p(18, 49)) == g1p(12, 69),
        g1p(12, 32).sadd(g1p(18, 49)) == g1p(65, 3),
        g1p(32, 42).sadd(g1p(18, 49)) == g1p(26, 56),
        g1p(91, 35).sadd(g1p(18, 49)) == g1p(68, 27),
{
    lemma_g1_add_at((1, 2), (68, 74), (0, 67, 98, 65, 87, 69, 26, 74, 45, -22));
    lemma_g1_add_at((1, 2), (65, 98), (0, 64, 30, 19, 52, 28, 12, 26, 32, -6));
    lemma_g1_add_at((68, 74), (65, 98), (-1, 98, 67, 65, 93, 15, 32, 84, 42, 32));
    lemma_g1_add_at((26, 45), (65, 98), (0, 39, 57, 22, 92, 29, 91, 82, 35, -60));
    lemma_g1_add_at((1, 2), (18, 49), (0, 17, 6, 1, 80, 2, 18, 63, 52, -14));
    lemma_g1_add_at((68, 74), (18, 49), (-1, 51, 2, 1, 51, -1, 91, 24, 66, -13));
    lemma_g1_add_at((26, 45), (18, 49), (-1, 93, 63, 58, 50, 2, 32, 24, 59, -4));
    lemma_g1_add_at((65, 98), (18, 49), (-1, 54, 58, 31, 87, -29, 12, 74, 69, 44));
    lemma_g1_add_at((12, 32), (18, 49), (0, 6, 17, 1, 87, 2, 65, 74, 3, -46));
    lemma_g1_add_at((32, 42), (18, 49), (-1, 87, 36, 31, 50, 2, 26, 24, 56, 2));
    lemma_g1_add_at((91, 35), (18, 49), (-1, 28, 83, 23, 51, 11, 68, 24, 27, 11));
}

/// `0 G` by double-and-add.
pub(crate) proof fn lemma_g1_multiple_0()
    ensures
        G1Point::sgenerator().smul(0) == G1Point::Infinity,
{
    lemma_g1_doublings();
    lemma_g1_additions();
    G1Point::lemma_smul_steps_zero(G1Point::Infinity, g1p(68, 27), 59);
    assert(G1Point::smul_steps(G1Point::Infinity, g1p(1, 2), 0, 64) == G1Point::smul_steps(G1Point::Infinity, g1p(68, 74), 0, 63));
    assert(G1Point::smul_steps(G1Point::Infinity, g1p(68, 74), 0, 63) == G1Point::smul_steps(G1Point::Infinity, g1p(65, 98), 0, 62));
    assert(G1Point::smul_steps(G1Point::Infinity, g1p(65, 98), 0, 62) == G1Point::smul_steps(G1Point::Infinity, g1p(18, 49), 0, 61));
    assert(G1Point::smul_steps(G1Point::Infinity, g1p(18, 49), 0, 61) == G1Point::smul_steps(G1Point::Infinity, g1p(1, 99), 0, 60));
    assert(G1Point::smul_steps(G1Point::Infinity, g1p(1, 99), 0, 60) == G1Point::smul_steps(G1Point::Infinity, g1p(68, 27), 0, 59));
}

/// `1 G` by double-and-add.
pub(crate) proof fn lemma_g1_multiple_1()
    ensures
        G1Point::sgenerator().smul(1) == g1p(1, 2),
{
    lemma_g1_doublings();
    lemma_g1_additions();
    G1Point::lemma_smul_steps_zero(g1p(1, 2), g1p(68, 27), 59);
    assert(G1Point::smul_steps(G1Point::Infinity, g1p(1, 2), 1, 64) == G1Point::smul_steps(g1p(1, 2), g1p(68, 74), 0, 63));
    assert(G1Point::smul_steps(g1p(1, 2), g1p(68, 74), 0, 63) == G1Point::smul_steps(g1p(1, 2), g1p(65, 98), 0, 62));
    assert(G1Point::smul_steps(g1p(1, 2), g1p(65, 98), 0, 62) == G1Point::smul_steps(g1p(1, 2), g1p(18, 49), 0, 61));
    assert(G1Point::smul_steps(g1p(1, 2), g1p(18, 49), 0, 61) == G1Point::smul_steps(g1p(1, 2), g1p(1, 99), 0, 60));
    assert(G1Point::smul_steps(g1p(1, 2), g1p(1, 99), 0, 60) == G1Point::smul_steps(g1p(1, 2), g1p(68, 27), 0, 59));
}

/// `2 G` by double-and-add.
pub(crate) proof fn lemma_g1_multiple_2()
    ensures
        G1Point::sgenerator().smul(2) == g1p(68, 74),
{
    lemma_g1_doublings();
    lemma_g1_additions();
    G1Point::lemma_smul_steps_zero(g1p(68, 74), g1p(68, 27), 59);
    assert(G1Point::smul_steps(G1Point::Infinity, g1p(1, 2), 2, 64) == G1Point::smul_steps(G1Point::Infinity, g1p(68, 74), 1, 63));
    assert(G1Point::smul_steps(G1Point::Infinity, g1p(68, 74), 1, 63) == G1Point::smul_steps(g1p(68, 74), g1p(65, 98), 0, 62));
    assert(G1Point::smul_steps(g1p(68, 74), g1p(65, 98), 0, 62) == G1Point::smul_steps(g1p(68, 74), g1p(18, 49), 0, 61));
    assert(G1Point::smul_steps(g1p(68, 74), g1p(18, 49), 0, 61) == G1Point::smul_steps(g1p(68, 74), g1p(1, 99), 0, 60));
    assert(G1Point::smul_steps(g1p(68, 74), g1p(1, 99), 0, 60) == G1Point::smul_steps(g1p(68, 74), g1p(68, 27), 0, 59));
}

/// `3 G` by double-and-add.
pub(crate) proof fn lemma_g1_multiple_3()
    ensures
        G1Point::sgenerator().smul(3) == g1p(26, 45),
{
    lemma_g1_doublings();
    lemma_g1_additions();
    G1Point::lemma_smul_steps_zero(g1p(26, 45), g1p(68, 27), 59);
    assert(G1Point::smul_steps(G1Point::Infinity, g1p(1, 2), 3, 64) == G1Point::smul_steps(g1p(1, 2), g1p(68, 74), 1, 63));
    assert(G1Point::smul_steps(g1p(1, 2), g1p(68, 74), 1, 63) == G1Point::smul_steps(g1p(26, 45), g1p(65, 98), 0, 62));
    assert(G1Point::smul_steps(g1p(26, 45), g1p(65, 98), 0, 62) == G1Point::smul_steps(g1p(26, 45), g1p(18, 49), 0, 61));
    assert(G1Point::smul_steps(g1p(26, 45), g1p(18, 49), 0, 61) == G1Point::smul_steps(g1p(26, 45), g1p(1, 99), 0, 60));
    assert(G1Point::smul_steps(g1p(26, 45), g1p(1, 99), 0, 60) == G1Point::smul_steps(g1p(26, 45), g1p(68, 27), 0, 59));
}

/// `4 G` by double-and-add.
pub(crate) proof fn lemma_g1_multiple_4()
    ensures
        G1Point::sgenerator().smul(4) == g1p(65, 98),
{
    lemma_g1_doublings();
    lemma_g1_additions();
    G1Point::lemma_smul_steps_zero(g1p(65, 98), g1p(68, 27), 59);
    assert(G1Point::smul_steps(G1Point::Infinity, g1p(1, 2), 4, 64) == G1Point::smul_steps(G1Point::Infinity, g1p(68, 74), 2, 63));
    assert(G1Point::smul_steps(G1Point::Infinity, g1p(68, 74), 2, 63) == G1Point::smul_steps(G1Point::Infinity, g1p(65, 98), 1, 62));
    assert(G1Point::smul_steps(G1Point::Infinity, g1p(65, 98), 1, 62) == G1Point::smul_steps(g1p(65, 98), g1p(18, 49), 0, 61));
    assert(G1Point::smul_steps(g1p(65, 98), g1p(18, 49), 0, 61) == G1Point::smul_steps(g1p(65, 98), g1p(1, 99), 0, 60));
    assert(G1Point::smul_steps(g1p(65, 98), g1p(1, 99), 0, 60) == G1Point::smul_steps(g1p(65, 98), g1p(68, 27), 0, 59));
}

/// `5 G` by double-and-add.
pub(crate) proof fn lemma_g1_multiple_5()
    ensures
        G1Point::sgenerator().smul(5) == g1p(12, 32),
{
    lemma_g1_doublings();
    lemma_g1_additions();
    G1Point::lemma_smul_steps_zero(g1p(12, 32), g1p(68, 27), 59);
    assert(G1Point::smul_steps(G1Point::Infinity, g1p(1, 2), 5, 64) == G1Point::smul_steps(g1p(1, 2), g1p(68, 74), 2, 63));
    assert(G1Point::smul_steps(g1p(1, 2), g1p(68, 74), 2, 63) == G1Point::smul_steps(g1p(1, 2), g1p(65, 98), 1, 62));
    assert(G1Point::smul_steps(g1p(1, 2), g1p(65, 98), 1, 62) == G1Point::smul_steps(g1p(12, 32), g1p(18, 49), 0, 61));
    assert(G1Point::smul_steps(g1p(12, 32), g1p(18, 49), 0, 61) == G1Point::smul_steps(g1p(12, 32), g1p(1, 99), 0, 60));
    assert(G1Point::smul_steps(g1p(12, 32), g1p(1, 99), 0, 60) == G1Point::smul_steps(g1p(12, 32), g1p(68, 27), 0, 59));
}

/// `6 G` by double-and-add.
pub(crate) proof fn lemma_g1_multiple_6()
    ensures
        G1Point::sgenerator().smul(6) == g1p(32, 42),
{
    lemma_g1_doublings();
    lemma_g1_additions();
    G1Point::lemma_smul_steps_zero(g1p(32, 42), g1p(68, 27), 59);
    assert(G1Point::smul_steps(G1Point::Infinity, g1p(1, 2), 6, 64) == G1Point::smul_steps(G1Point::Infinity, g1p(68, 74), 3, 63));
    assert(G1Point::smul_steps(G1Point::Infinity, g1p(68, 74), 3, 63) == G1Point::smul_steps(g1p(68, 74), g1p(65, 98), 1, 62));
    assert(G1Point::smul_steps(g1p(68, 74), g1p(65, 98), 1, 62) == G1Point::smul_steps(g1p(32, 42), g1p(18, 49), 0, 61));
    assert(G1Point::smul_steps(g1p(32, 42), g1p(18, 49), 0, 61) == G1Point::smul_steps(g1p(32, 42), g1p(1, 99), 0, 60));
    assert(G1Point::smul_steps(g1p(32, 42), g1p(1, 99), 0, 60) == G1Point::smul_steps(g1p(32, 42), g1p(68, 27), 0, 59));
}

/// `7 G` by double-and-add.
pub(crate) proof fn lemma_g1_multiple_7()
    ensures
        G1Point::sgenerator().smul(7) == g1p(91, 35),
{
    lemma_g1_doublings();
    lemma_g1_additions();
    G1Point::lemma_smul_steps_zero(g1p(91, 35), g1p(68, 27), 59);
    assert(G1Point::smul_steps(G1Point::Infinity, g1p(1, 2), 7, 64) == G1Point::smul_steps(g1p(1, 2), g1p(68, 74), 3, 63));
    assert(G1Point::smul_steps(g1p(1, 2), g1p(68, 74), 3, 63) == G1Point::smul_steps(g1p(26, 45), g1p(65, 98), 1, 62));
    assert(G1Point::smul_steps(g1p(26, 45), g1p(65, 98), 1, 62) == G1Point::smul_steps(g1p(91, 35), g1p(18, 49), 0, 61));
    assert(G1Point::smul_steps(g1p(91, 35), g1p(18, 49), 0, 61) == G1Point::smul_steps(g1p(91, 35), g1p(1, 99), 0, 60));
    assert(G1Point::smul_steps(g1p(91, 35), g1p(1, 99), 0, 60) == G1Point::smul_steps(g1p(91, 35), g1p(68, 27), 0, 59));
}

/// `8 G` by double-and-add.
pub(crate) proof fn lemma_g1_multiple_8()
    ensures
        G1Point::sgenerator().smul(8) == g1p(18, 49),
{
    lemma_g1_doublings();
    lemma_g1_additions();
    G1Point::lemma_smul_steps_zero(g1p(18, 49), g1p(68, 27), 59);
    assert(G1Point::smul_steps(G1Point::Infinity, g1p(1, 2), 8, 64) == G1Point::smul_steps(G1Point::Infinity, g1p(68, 74), 4, 63));
    assert(G1Point::smul_steps(G1Point::Infinity, g1p(68, 74), 4, 63) == G1Point::smul_steps(G1Point::Infinity, g1p(65, 98), 2, 62));
    assert(G1Point::smul_steps(G1Point::Infinity, g1p(65, 98), 2, 62) == G1Point::smul_steps(G1Point::Infinity, g1p(18, 49), 1, 61));
    assert(G1Point::smul_steps(G1Point::Infinity, g1p(18, 49), 1, 61) == G1Point::smul_steps(g1p(18, 49), g1p(1, 99), 0, 60));
    assert(G1Point::smul_steps(g1p(18, 49), g1p(1, 99), 0, 60) == G1Point::smul_steps(g1p(18, 49), g1p(68, 27), 0, 59));
}

/// `9 G` by double-and-add.
pub(crate) proof fn lemma_g1_multiple_9()
    ensures
        G1Point::sgenerator().smul(9) == g1p(18, 52),
{
    lemma_g1_doublings();
    lemma_g1_additions();
    G1Point::lemma_smul_steps_zero(g1p(18, 52), g1p(68, 27), 59);
    assert(G1Point::smul_steps(G1Point::Infinity, g1p(1, 2), 9, 64) == G1Point::smul_steps(g1p(1, 2), g1p(68, 74), 4, 63));
    assert(G1Point::smul_steps(g1p(1, 2), g1p(68, 74), 4, 63) == G1Point::smul_steps(g1p(1, 2), g1p(65, 98), 2, 62));
    assert(G1Point::smul_steps(g1p(1, 2), g1p(65, 98), 2, 62) == G1Point::smul_steps(g1p(1, 2), g1p(18, 49), 1, 61));
    assert(G1Point::smul_steps(g1p(1, 2), g1p(18, 49), 1, 61) == G1Point::smul_steps(g1p(18, 52), g1p(1, 99), 0, 60));
    assert(G1Point::smul_steps(g1p(18, 52), g1p(1, 99), 0, 60) == G1Point::smul_steps(g1p(18, 52), g1p(68, 27), 0, 59));
}

/// `10 G` by double-and-add.
pub(crate) proof fn lemma_g1_multiple_10()
    ensures
        G1Point::sgenerator().smul(10) == g1p(91, 66),
{
    lemma_g1_doublings();
    lemma_g1_additions();
    G1Point::lemma_smul_steps_zero(g1p(91, 66), g1p(68, 27), 59);
    assert(G1Point::smul_steps(G1Point::Infinity, g1p(1, 2), 10, 64) == G1Point::smul_steps(G1Point::Infinity, g1p(68, 74), 5, 63));
    assert(G1Point::smul_steps(G1Point::Infinity, g1p(68, 74), 5, 63) == G1Point::smul_steps(g1p(68, 74), g1p(65, 98), 2, 62));
    assert(G1Point::smul_steps(g1p(68, 74), g1p(65, 98), 2, 62) == G1Point::smul_steps(g1p(68, 74), g1p(18, 49), 1, 61));
    assert(G1Point::smul_steps(g1p(68, 74), g1p(18, 49), 1, 61) == G1Point::smul_steps(g1p(91, 66), g1p(1, 99), 0, 60));
    assert(G1Point::smul_steps(g1p(91, 66), g1p(1, 99), 0, 60) == G1Point::smul_steps(g1p(91, 66), g1p(68, 27), 0, 59));
}

/// `11 G` by double-and-add.
pub(crate) proof fn lemma_g1_multiple_11()
    ensures
        G1Point::sgenerator().smul(11) == g1p(32, 59),
{
    lemma_g1_doublings();
    lemma_g1_additions();
    G1Point::lemma_smul_steps_zero(g1p(32, 59), g1p(68, 27), 59);
    assert(G1Point::smul_steps(G1Point::Infinity, g1p(1, 2), 11, 64) == G1Point::smul_steps(g1p(1, 2), g1p(68, 74), 5, 63));
    assert(G1Point::smul_steps(g1p(1, 2), g1p(68, 74), 5, 63) == G1Point::smul_steps(g1p(26, 45), g1p(65, 98), 2, 62));
    assert(G1Point::smul_steps(g1p(26, 45), g1p(65, 98), 2, 62) == G1Point::smul_steps(g1p(26, 45), g1p(18, 49), 1, 61));
    assert(G1Point::smul_steps(g1p(26, 45), g1p(18, 49), 1, 61) == G1Point::smul_steps(g1p(32, 59), g1p(1, 99), 0, 60));
    assert(G1Point::smul_steps(g1p(32, 59), g1p(1, 99), 0, 60) == G1Point::smul_steps(g1p(32, 59), g1p(68, 27), 0, 59));
}

/// `12 G` by double-and-add.
pub(crate) proof fn lemma_g1_multiple_12()
    ensures
        G1Point::sgenerator().smul(12) == g1p(12, 69),
{
    lemma_g1_doublings();
    lemma_g1_additions();
    G1Point::lemma_smul_steps_zero(g1p(12, 69), g1p(68, 27), 59);
    assert(G1Point::smul_steps(G1Point::Infinity, g1p(1, 2), 12, 64) == G1Point::smul_steps(G1Point::Infinity, g1p(68, 74), 6, 63));
    assert(G1Point::smul_steps(G1Point::Infinity, g1p(68, 74), 6, 63) == G1Point::smul_steps(G1Point::Infinity, g1p(65, 98), 3, 62));
    assert(G1Point::smul_steps(G1Point::Infinity, g1p(65, 98), 3, 62) == G1Point::smul_steps(g1p(65, 98), g1p(18, 49), 1, 61));
    assert(G1Point::smul_steps(g1p(65, 98), g1p(18, 49), 1, 61) == G1Point::smul_steps(g1p(12, 69), g1p(1, 99), 0, 60));
    assert(G1Point::smul_steps(g1p(12, 69), g1p(1, 99), 0, 60) == G1Point::smul_steps(g1p(12, 69), g1p(68, 27), 0, 59));
}

/// `13 G` by double-and-add.
pub(crate) proof fn lemma_g1_multiple_13()
    ensures
        G1Point::sgenerator().smul(13) == g1p(65, 3),
{
    lemma_g1_doublings();
    lemma_g1_additions();
    G1Point::lemma_smul_steps_zero(g1p(65, 3), g1p(68, 27), 59);
    assert(G1Point::smul_steps(G1Point::Infinity, g1p(1, 2), 13, 64) == G1Point::smul_steps(g1p(1, 2), g1p(68, 74), 6, 63));
    assert(G1Point::smul_steps(g1p(1, 2), g1p(68, 74), 6, 63) == G1Point::smul_steps(g1p(1, 2), g1p(65, 98), 3, 62));
    assert(G1Point::smul_steps(g1p(1, 2), g1p(65, 98), 3, 62) == G1Point::smul_steps(g1p(12, 32), g1p(18, 49), 1, 61));
    assert(G1Point::smul_steps(g1p(12, 32), g1p(18, 49), 1, 61) == G1Point::smul_steps(g1p(65, 3), g1p(1, 99), 0, 60));
    assert(G1Point::smul_steps(g1p(65, 3), g1p(1, 99), 0, 60) == G1Point::smul_steps(g1p(65, 3), g1p(68, 27), 0, 59));
}

/// `14 G` by double-and-add.
pub(crate) proof fn lemma_g1_multiple_14()
    ensures
        G1Point::sgenerator().smul(14) == g1p(26, 56),
{
    lemma_g1_doublings();
    lemma_g1_additions();
    G1Point::lemma_smul_steps_zero(g1p(26, 56), g1p(68, 27), 59);
    assert(G1Point::smul_steps(G1Point::Infinity, g1p(1, 2), 14, 64) == G1Point::smul_steps(G1Point::Infinity, g1p(68, 74), 7, 63));
    assert(G1Point::smul_steps(G1Point::Infinity, g1p(68, 74), 7, 63) == G1Point::smul_steps(g1p(68, 74), g1p(65, 98), 3, 62));
    assert(G1Point::smul_steps(g1p(68, 74), g1p(65, 98), 3, 62) == G1Point::smul_steps(g1p(32, 42), g1p(18, 49), 1, 61));
    assert(G1Point::smul_steps(g1p(32, 42), g1p(18, 49), 1, 61) == G1Point::smul_steps(g1p(26, 56), g1p(1, 99), 0, 60));
    assert(G1Point::smul_steps(g1p(26, 56), g1p(1, 99), 0, 60) == G1Point::smul_steps(g1p(26, 56), g1p(68, 27), 0, 59));
}

/// `15 G` by double-and-add.
pub(crate) proof fn lemma_g1_multiple_15()
    ensures
        G1Point::sgenerator().smul(15) == g1p(68, 27),
{
    lemma_g1_doublings();
    lemma_g1_additions();
    G1Point::lemma_smul_steps_zero(g1p(68, 27), g1p(68, 27), 59);
    assert(G1Point::smul_steps(G1Point::Infinity, g1p(1, 2), 15, 64) == G1Point::smul_steps(g1p(1, 2), g1p(68, 74), 7, 63));
    assert(G1Point::smul_steps(g1p(1, 2), g1p(68, 74), 7, 63) == G1Point::smul_steps(g1p(26, 45), g1p(65, 98), 3, 62));
    assert(G1Point::smul_steps(g1p(26, 45), g1p(65, 98), 3, 62) == G1Point::smul_steps(g1p(91, 35), g1p(18, 49), 1, 61));
    assert(G1Point::smul_steps(g1p(91, 35), g1p(18, 49), 1, 61) == G1Point::smul_steps(g1p(68, 27), g1p(1, 99), 0, 60));
    assert(G1Point::smul_steps(g1p(68, 27), g1p(1, 99), 0, 60) == G1Point::smul_steps(g1p(68, 27), g1p(68, 27), 0, 59));
}

/// `16 G` by double-and-add.
pub(crate) proof fn lemma_g1_multiple_16()
    ensures
        G1Point::sgenerator().smul(16) == g1p(1, 99),
{
    lemma_g1_doublings();
    lemma_g1_additions();
    G1Point::lemma_smul_steps_zero(g1p(1, 99), g1p(68, 27), 59);
    assert(G1Point::smul_steps(G1Point::Infinity, g1p(1, 2), 16, 64) == G1Point::smul_steps(G1Point::Infinity, g1p(68, 74), 8, 63));
    assert(G1Point::smul_steps(G1Point::Infinity, g1p(68, 74), 8, 63) == G1Point::smul_steps(G1Point::Infinity, g1p(65, 98), 4, 62));
    assert(G1Point::smul_steps(G1Point::Infinity, g1p(65, 98), 4, 62) == G1Point::smul_steps(G1Point::Infinity, g1p(18, 49), 2, 61));
    assert(G1Point::smul_steps(G1Point::Infinity, g1p(18, 49), 2, 61) == G1Point::smul_steps(G1Point::Infinity, g1p(1, 99), 1, 60));
    assert(G1Point::smul_steps(G1Point::Infinity, g1p(1, 99), 1, 60) == G1Point::smul_steps(g1p(1, 99), g1p(68, 27), 0, 59));
}

/// The powers of `e(G, H)` up to 17.
pub(crate) proof fn lemma_powers()
    ensures
        e_gen().spow(0) == GT(gt_of(1, 0)),
        e_gen().spow(1) == GT(gt_of(96, 29)),
        e_gen().spow(2) == GT(gt_of(93, 81)),
        e_gen().spow(3) == GT(gt_of(14, 44)),
        e_gen().spow(4) == GT(gt_of(68, 21)),
        e_gen().spow(5) == GT(gt_of(61, 46)),
        e_gen().spow(6) == GT(gt_of(78, 3)),
        e_gen().spow(7) == GT(gt_of(28, 39)),
        e_gen().spow(8) == GT(gt_of(42, 92)),
        e_gen().spow(9) == GT(gt_of(51, 9)),
        e_gen().spow(10) == GT(gt_of(90, 62)),
        e_gen().spow(11) == GT(gt_of(75, 98)),
        e_gen().spow(12) == GT(gt_of(15, 55)),
        e_gen().spow(13) == GT(gt_of(47, 80)),
        e_gen().spow(14) == GT(gt_of(71, 57)),
        e_gen().spow(15) == GT(gt_of(12, 20)),
        e_gen().spow(16) == GT(gt_of(67, 72)),
        e_gen().spow(17) == GT(gt_of(1, 0)),
        e_gen().0.canon(),
{
    let x = e_gen();
    TinyFp::lemma_from_int_val(96);
    TinyFp::lemma_from_int_val(29);
    GT::lemma_pow_laws(x, 0, 0);
    assert(GT::sone() == GT(gt_of(1, 0)));
    GT::lemma_pow_laws(x, 1, 1);
    lemma_gt_mul_at((96, 29), (96, 29), (93, 81), (82, 46));
    GT::lemma_pow_laws(x, 2, 1);
    lemma_gt_mul_at((93, 81), (96, 29), (14, 44), (65, 80));
    GT::lemma_pow_laws(x, 3, 1);
    lemma_gt_mul_at((14, 44), (96, 29), (68, 21), (0, 33));
    GT::lemma_pow_laws(x, 4, 1);
    lemma_gt_mul_at((68, 21), (96, 29), (61, 46), (58, 33));
    GT::lemma_pow_laws(x, 5, 1);
    lemma_gt_mul_at((61, 46), (96, 29), (78, 3), (44, 48));
    GT::lemma_pow_laws(x, 6, 1);
    lemma_gt_mul_at((78, 3), (96, 29), (28, 39), (73, 24));
    GT::lemma_pow_laws(x, 7, 1);
    lemma_gt_mul_at((28, 39), (96, 29), (42, 92), (15, 33));
    GT::lemma_pow_laws(x, 8, 1);
    lemma_gt_mul_at((42, 92), (96, 29), (51, 9), (13, 73));
    GT::lemma_pow_laws(x, 9, 1);
    lemma_gt_mul_at((51, 9), (96, 29), (90, 62), (45, 20));
    GT::lemma_pow_laws(x, 10, 1);
    lemma_gt_mul_at((90, 62), (96, 29), (75, 98), (67, 66));
    GT::lemma_pow_laws(x, 11, 1);
    lemma_gt_mul_at((75, 98), (96, 29), (15, 55), (43, 86));
    GT::lemma_pow_laws(x, 12, 1);
    lemma_gt_mul_at((15, 55), (96, 29), (47, 80), (-2, 40));
    GT::lemma_pow_laws(x, 13, 1);
    lemma_gt_mul_at((47, 80), (96, 29), (71, 57), (21, 66));
    GT::lemma_pow_laws(x, 14, 1);
    lemma_gt_mul_at((71, 57), (96, 29), (12, 20), (51, 58));
    GT::lemma_pow_laws(x, 15, 1);
    lemma_gt_mul_at((12, 20), (96, 29), (67, 72), (5, 16));
    GT::lemma_pow_laws(x, 16, 1);
    lemma_gt_mul_at((67, 72), (96, 29), (1, 0), (43, 67));
}

proof fn lemma_col_1()
    ensures
        col_point(1) == g1p(30, 95),
        distort_point(col_point(1)) == dq(30, 95),
{
}

proof fn lemma_col_2()
    ensures
        col_point(2) == g1p(65, 3),
        distort_point(col_point(2)) == dq(65, 3),
{
}

proof fn lemma_col_3()
    ensures
        col_point(3) == g1p(20, 23),
        distort_point(col_point(3)) == dq(20, 23),
{
}

proof fn lemma_col_4()
    ensures
        col_point(4) == g1p(18, 52),
        distort_point(col_point(4)) == dq(18, 52),
{
}

proof fn lemma_col_5()
    ensures
        col_point(5) == g1p(96, 22),
        distort_point(col_point(5)) == dq(96, 22),
{
}

proof fn lemma_col_6()
    ensures
        col_point(6) == g1p(12, 32),
        distort_point(col_point(6)) == dq(12, 32),
{
}

proof fn lemma_col_7()
    ensures
        col_point(7) == g1p(46, 51),
        distort_point(col_point(7)) == dq(46, 51),
{
}

proof fn lemma_col_8()
    ensures
        col_point(8) == g1p(1, 2),
        distort_point(col_point(8)) == dq(1, 2),
{
}

proof fn lemma_col_9()
    ensures
        col_point(9) == g1p(75, 1),
        distort_point(col_point(9)) == dq(75, 1),
{
}

proof fn lemma_col_10()
    ensures
        col_point(10) == g1p(26, 56),
        distort_point(col_point(10)) == dq(26, 56),
{
}

proof fn lemma_col_11()
    ensures
        col_point(11) == g1p(58, 36),
        distort_point(col_point(11)) == dq(58, 36),
{
}

proof fn lemma_col_12()
    ensures
        col_point(12) == g1p(91, 66),
        distort_point(col_point(12)) == dq(91, 66),
{
}

proof fn lemma_col_13()
    ensures
        col_point(13) == g1p(60, 60),
        distort_point(col_point(13)) == dq(60, 60),
{
}

proof fn lemma_col_14()
    ensures
        col_point(14) == g1p(32, 42),
        distort_point(col_point(14)) == dq(32, 42),
{
}

proof fn lemma_col_15()
    ensures
        col_point(15) == g1p(9, 5),
        distort_point(col_point(15)) == dq(9, 5),
{
}

proof fn lemma_col_16()
    ensures
        col_point(16) == g1p(68, 74),
        distort_point(col_point(16)) == dq(68, 74),
{
}

proof fn lemma_col_18()
    ensures
        col_point(18) == g1p(68, 27),
        distort_point(col_point(18)) == dq(68, 27),
{
}

proof fn lemma_col_19()
    ensures
        col_point(19) == g1p(9, 96),
        distort_point(col_point(19)) == dq(9, 96),
{
}

proof fn lemma_col_20()
    ensures
        col_point(20) == g1p(32, 59),
        distort_point(col_point(20)) == dq(32, 59),
{
}

proof fn lemma_col_21()
    ensures
        col_point(21) == g1p(60, 41),
        distort_point(col_point(21)) == dq(60, 41),
{
}

proof fn lemma_col_22()
    ensures
        col_point(22) == g1p(91, 35),
        distort_point(col_point(22)) == dq(91, 35),
{
}

proof fn lemma_col_23()
    ensures
        col_point(23) == g1p(58, 65),
        distort_point(col_point(23)) == dq(58, 65),
{
}

proof fn lemma_col_24()
    ensures
        col_point(24) == g1p(26, 45),
        distort_point(col_point(24)) == dq(26, 45),
{
}

proof fn lemma_col_25()
    ensures
        col_point(25) == g1p(75, 100),
        distort_point(col_point(25)) == dq(75, 100),
{
}

proof fn lemma_col_26()
    ensures
        col_point(26) == g1p(1, 99),
        distort_point(col_point(26)) == dq(1, 99),
{
}

proof fn lemma_col_27()
    ensures
        col_point(27) == g1p(46, 50),
        distort_point(col_point(27)) == dq(46, 50),
{
}

proof fn lemma_col_28()
    ensures
        col_point(28) == g1p(12, 69),
        distort_point(col_point(28)) == dq(12, 69),
{
}

proof fn lemma_col_29()
    ensures
        col_point(29) == g1p(96, 79),
        distort_point(col_point(29)) == dq(96, 79),
{
}

proof fn lemma_col_30()
    ensures
        col_point(30) == g1p(18, 49),
        distort_point(col_point(30)) == dq(18, 49),
{
}

proof fn lemma_col_31()
    ensures
        col_point(31) == g1p(20, 78),
        distort_point(col_point(31)) == dq(20, 78),
{
}

proof fn lemma_col_32()
    ensures
        col_point(32) == g1p(65, 98),
        distort_point(col_point(32)) == dq(65, 98),
{
}

proof fn lemma_col_33()
    ensures
        col_point(33) == g1p(30, 6),
        distort_point(col_point(33)) == dq(30, 6),
{
}

/// `e(1G, c P) == e(G, H)^(1 c)` on the image of `H`'s multiples.
#[verifier::rlimit(80)]
#[verifier::spinoff_prover]
proof fn lemma_column_row_1(c: nat)
    requires
        1 <= c < 34,
        c != 17,
    ensures
        G1Point::sgenerator().smul(1) != G1Point::Infinity,
        smiller_loop(G1Point::sgenerator().smul(1), distort_point(col_point(c))) is Some,
        spairing_at(G1Point::sgenerator().smul(1), distort_point(col_point(c))) == e_gen().spow((1 * c) % 17),
{
    lemma_g1_multiple_1();
    lemma_powers();
    if c == 1 {
        lemma_pairing_1_1();
        lemma_col_1();
        assert((1 * 1) % 17 == 1);
    } else if c == 2 {
        lemma_pairing_1_2();
        lemma_col_2();
        assert((1 * 2) % 17 == 2);
    } else if c == 3 {
        lemma_pairing_1_3();
        lemma_col_3();
        assert((1 * 3) % 17 == 3);
    } else if c == 4 {
        lemma_pairing_1_4();
        lemma_col_4();
        assert((1 * 4) % 17 == 4);
    } else if c == 5 {
        lemma_pairing_1_5();
        lemma_col_5();
        assert((1 * 5) % 17 == 5);
    } else if c == 6 {
        lemma_pairing_1_6();
        lemma_col_6();
        assert((1 * 6) % 17 == 6);
    } else if c == 7 {
        lemma_pairing_1_7();
        lemma_col_7();
        assert((1 * 7) % 17 == 7);
    } else if c == 8 {
        lemma_pairing_1_8();
        lemma_col_8();
        assert((1 * 8) % 17 == 8);
    } else if c == 9 {
        lemma_pairing_1_9();
        lemma_col_9();
        assert((1 * 9) % 17 == 9);
    } else if c == 10 {
        lemma_pairing_1_10();
        lemma_col_10();
        assert((1 * 10) % 17 == 10);
    } else if c == 11 {
        lemma_pairing_1_11();
        lemma_col_11();
        assert((1 * 11) % 17 == 11);
    } else if c == 12 {
        lemma_pairing_1_12();
        lemma_col_12();
        assert((1 * 12) % 17 == 12);
    } else if c == 13 {
        lemma_pairing_1_13();
        lemma_col_13();
        assert((1 * 13) % 17 == 13);
    } else if c == 14 {
        lemma_pairing_1_14();
        lemma_col_14();
        assert((1 * 14) % 17 == 14);
    } else if c == 15 {
        lemma_pairing_1_15();
        lemma_col_15();
        assert((1 * 15) % 17 == 15);
    } else if c == 16 {
        lemma_pairing_1_16();
        lemma_col_16();
        assert((1 * 16) % 17 == 16);
    } else if c == 18 {
        lemma_pairing_1_18();
        lemma_col_18();
        assert((1 * 18) % 17 == 1);
    } else if c == 19 {
        lemma_pairing_1_19();
        lemma_col_19();
        assert((1 * 19) % 17 == 2);
    } else if c == 20 {
        lemma_pairing_1_20();
        lemma_col_20();
        assert((1 * 20) % 17 == 3);
    } else if c == 21 {
        lemma_pairing_1_21();
        lemma_col_21();
        assert((1 * 21) % 17 == 4);
    } else if c == 22 {
        lemma_pairing_1_22();
        lemma_col_22();
        assert((1 * 22) % 17 == 5);
    } else if c == 23 {
        lemma_pairing_1_23();
        lemma_col_23();
        assert((1 * 23) % 17 == 6);
    } else if c == 24 {
        lemma_pairing_1_24();
        lemma_col_24();
        assert((1 * 24) % 17 == 7);
    } else if c == 25 {
        lemma_pairing_1_25();
        lemma_col_25();
        assert((1 * 25) % 17 == 8);
    } else if c == 26 {
        lemma_pairing_1_26();
        lemma_col_26();
        assert((1 * 26) % 17 == 9);
    } else if c == 27 {
        lemma_pairing_1_27();
        lemma_col_27();
        assert((1 * 27) % 17 == 10);
    } else if c == 28 {
        lemma_pairing_1_28();
        lemma_col_28();
        assert((1 * 28) % 17 == 11);
    } else if c == 29 {
        lemma_pairing_1_29();
        lemma_col_29();
        assert((1 * 29) % 17 == 12);
    } else if c == 30 {
        lemma_pairing_1_30();
        lemma_col_30();
        assert((1 * 30) % 17 == 13);
    } else if c == 31 {
        lemma_pairing_1_31();
        lemma_col_31();
        assert((1 * 31) % 17 == 14);
    } else if c == 32 {
        lemma_pairing_1_32();
        lemma_col_32();
        assert((1 * 32) % 17 == 15);
    } else if c == 33 {
        lemma_pairing_1_33();
        lemma_col_33();
        assert((1 * 33) % 17 == 16);
    }
}

/// `e(2G, c P) == e(G, H)^(2 c)` on the image of `H`'s multiples.
#[verifier::rlimit(80)]
#[verifier::spinoff_prover]
proof fn lemma_column_row_2(c: nat)
    requires
        1 <= c < 34,
        c != 17,
    ensures
        G1Point::sgenerator().smul(2) != G1Point::Infinity,
        smiller_loop(G1Point::sgenerator().smul(2), distort_point(col_point(c))) is Some,
        spairing_at(G1Point::sgenerator().smul(2), distort_point(col_point(c))) == e_gen().spow((2 * c) % 17),
{
    lemma_g1_multiple_2();
    lemma_powers();
    if c == 1 {
        lemma_pairing_2_1();
        lemma_col_1();
        assert((2 * 1) % 17 == 2);
    } else if c == 2 {
        lemma_pairing_2_2();
        lemma_col_2();
        assert((2 * 2) % 17 == 4);
    } else if c == 3 {
        lemma_pairing_2_3();
        lemma_col_3();
        assert((2 * 3) % 17 == 6);
    } else if c == 4 {
        lemma_pairing_2_4();
        lemma_col_4();
        assert((2 * 4) % 17 == 8);
    } else if c == 5 {
        lemma_pairing_2_5();
        lemma_col_5();
        assert((2 * 5) % 17 == 10);
    } else if c == 6 {
        lemma_pairing_2_6();
        lemma_col_6();
        assert((2 * 6) % 17 == 12);
    } else if c == 7 {
        lemma_pairing_2_7();
        lemma_col_7();
        assert((2 * 7) % 17 == 14);
    } else if c == 8 {
        lemma_pairing_2_8();
        lemma_col_8();
        assert((2 * 8) % 17 == 16);
    } else if c == 9 {
        lemma_pairing_2_9();
        lemma_col_9();
        assert((2 * 9) % 17 == 1);
    } else if c == 10 {
        lemma_pairing_2_10();
        lemma_col_10();
        assert((2 * 10) % 17 == 3);
    } else if c == 11 {
        lemma_pairing_2_11();
        lemma_col_11();
        assert((2 * 11) % 17 == 5);
    } else if c == 12 {
        lemma_pairing_2_12();
        lemma_col_12();
        assert((2 * 12) % 17 == 7);
    } else if c == 13 {
        lemma_pairing_2_13();
        lemma_col_13();
        assert((2 * 13) % 17 == 9);
    } else if c == 14 {
        lemma_pairing_2_14();
        lemma_col_14();
        assert((2 * 14) % 17 == 11);
    } else if c == 15 {
        lemma_pairing_2_15();
        lemma_col_15();
        assert((2 * 15) % 17 == 13);
    } else if c == 16 {
        lemma_pairing_2_16();
        lemma_col_16();
        assert((2 * 16) % 17 == 15);
    } else if c == 18 {
        lemma_pairing_2_18();
        lemma_col_18();
        assert((2 * 18) % 17 == 2);
    } else if c == 19 {
        lemma_pairing_2_19();
        lemma_col_19();
        assert((2 * 19) % 17 == 4);
    } else if c == 20 {
        lemma_pairing_2_20();
        lemma_col_20();
        assert((2 * 20) % 17 == 6);
    } else if c == 21 {
        lemma_pairing_2_21();
        lemma_col_21();
        assert((2 * 21) % 17 == 8);
    } else if c == 22 {
        lemma_pairing_2_22();
        lemma_col_22();
        assert((2 * 22) % 17 == 10);
    } else if c == 23 {
        lemma_pairing_2_23();
        lemma_col_23();
        assert((2 * 23) % 17 == 12);
    } else if c == 24 {
        lemma_pairing_2_24();
        lemma_col_24();
        assert((2 * 24) % 17 == 14);
    } else if c == 25 {
        lemma_pairing_2_25();
        lemma_col_25();
        assert((2 * 25) % 17 == 16);
    } else if c == 26 {
        lemma_pairing_2_26();
        lemma_col_26();
        assert((2 * 26) % 17 == 1);
    } else if c == 27 {
        lemma_pairing_2_27();
        lemma_col_27();
        assert((2 * 27) % 17 == 3);
    } else if c == 28 {
        lemma_pairing_2_28();
        lemma_col_28();
        assert((2 * 28) % 17 == 5);
    } else if c == 29 {
        lemma_pairing_2_29();
        lemma_col_29();
        assert((2 * 29) % 17 == 7);
    } else if c == 30 {
        lemma_pairing_2_30();
        lemma_col_30();
        assert((2 * 30) % 17 == 9);
    } else if c == 31 {
        lemma_pairing_2_31();
        lemma_col_31();
        assert((2 * 31) % 17 == 11);
    } else if c == 32 {
        lemma_pairing_2_32();
        lemma_col_32();
        assert((2 * 32) % 17 == 13);
    } else if c == 33 {
        lemma_pairing_2_33();
        lemma_col_33();
        assert((2 * 33) % 17 == 15);
    }
}

/// `e(3G, c P) == e(G, H)^(3 c)` on the image of `H`'s multiples.
#[verifier::rlimit(80)]
#[verifier::spinoff_prover]
proof fn lemma_column_row_3(c: nat)
    requires
        1 <= c < 34,
        c != 17,
    ensures
        G1Point::sgenerator().smul(3) != G1Point::Infinity,
        smiller_loop(G1Point::sgenerator().smul(3), distort_point(col_point(c))) is Some,
        spairing_at(G1Point::sgenerator().smul(3), distort_point(col_point(c))) == e_gen().spow((3 * c) % 17),
{
    lemma_g1_multiple_3();
    lemma_powers();
    if c == 1 {
        lemma_pairing_3_1();
        lemma_col_1();
        assert((3 * 1) % 17 == 3);
    } else if c == 2 {
        lemma_pairing_3_2();
        lemma_col_2();
        assert((3 * 2) % 17 == 6);
    } else if c == 3 {
        lemma_pairing_3_3();
        lemma_col_3();
        assert((3 * 3) % 17 == 9);
    } else if c == 4 {
        lemma_pairing_3_4();
        lemma_col_4();
        assert((3 * 4) % 17 == 12);
    } else if c == 5 {
        lemma_pairing_3_5();
        lemma_col_5();
        assert((3 * 5) % 17 == 15);
    } else if c == 6 {
        lemma_pairing_3_6();
        lemma_col_6();
        assert((3 * 6) % 17 == 1);
    } else if c == 7 {
        lemma_pairing_3_7();
        lemma_col_7();
        assert((3 * 7) % 17 == 4);
    } else if c == 8 {
        lemma_pairing_3_8();
        lemma_col_8();
        assert((3 * 8) % 17 == 7);
    } else if c == 9 {
        lemma_pairing_3_9();
        lemma_col_9();
        assert((3 * 9) % 17 == 10);
    } else if c == 10 {
        lemma_pairing_3_10();
        lemma_col_10();
        assert((3 * 10) % 17 == 13);
    } else if c == 11 {
        lemma_pairing_3_11();
        lemma_col_11();
        assert((3 * 11) % 17 == 16);
    } else if c == 12 {
        lemma_pairing_3_12();
        lemma_col_12();
        assert((3 * 12) % 17 == 2);
    } else if c == 13 {
        lemma_pairing_3_13();
        lemma_col_13();
        assert((3 * 13) % 17 == 5);
    } else if c == 14 {
        lemma_pairing_3_14();
        lemma_col_14();
        assert((3 * 14) % 17 == 8);
    } else if c == 15 {
        lemma_pairing_3_15();
        lemma_col_15();
        assert((3 * 15) % 17 == 11);
    } else if c == 16 {
        lemma_pairing_3_16();
        lemma_col_16();
        assert((3 * 16) % 17 == 14);
    } else if c == 18 {
        lemma_pairing_3_18();
        lemma_col_18();
        assert((3 * 18) % 17 == 3);
    } else if c == 19 {
        lemma_pairing_3_19();
        lemma_col_19();
        assert((3 * 19) % 17 == 6);
    } else if c == 20 {
        lemma_pairing_3_20();
        lemma_col_20();
        assert((3 * 20) % 17 == 9);
    } else if c == 21 {
        lemma_pairing_3_21();
        lemma_col_21();
        assert((3 * 21) % 17 == 12);
    } else if c == 22 {
        lemma_pairing_3_22();
        lemma_col_22();
        assert((3 * 22) % 17 == 15);
    } else if c == 23 {
        lemma_pairing_3_23();
        lemma_col_23();
        assert((3 * 23) % 17 == 1);
    } else if c == 24 {
        lemma_pairing_3_24();
        lemma_col_24();
        assert((3 * 24) % 17 == 4);
    } else if c == 25 {
        lemma_pairing_3_25();
        lemma_col_25();
        assert((3 * 25) % 17 == 7);
    } else if c == 26 {
        lemma_pairing_3_26();
        lemma_col_26();
        assert((3 * 26) % 17 == 10);
    } else if c == 27 {
        lemma_pairing_3_27();
        lemma_col_27();
        assert((3 * 27) % 17 == 13);
    } else if c == 28 {
        lemma_pairing_3_28();
        lemma_col_28();
        assert((3 * 28) % 17 == 16);
    } else if c == 29 {
        lemma_pairing_3_29();
        lemma_col_29();
        assert((3 * 29) % 17 == 2);
    } else if c == 30 {
        lemma_pairing_3_30();
        lemma_col_30();
        assert((3 * 30) % 17 == 5);
    } else if c == 31 {
        lemma_pairing_3_31();
        lemma_col_31();
        assert((3 * 31) % 17 == 8);
    } else if c == 32 {
        lemma_pairing_3_32();
        lemma_col_32();
        assert((3 * 32) % 17 == 11);
    } else if c == 33 {
        lemma_pairing_3_33();
        lemma_col_33();
        assert((3 * 33) % 17 == 14);
    }
}

/// `e(4G, c P) == e(G, H)^(4 c)` on the image of `H`'s multiples.
#[verifier::rlimit(80)]
#[verifier::spinoff_prover]
proof fn lemma_column_row_4(c: nat)
    requires
        1 <= c < 34,
        c != 17,
    ensures
        G1Point::sgenerator().smul(4) != G1Point::Infinity,
        smiller_loop(G1Point::sgenerator().smul(4), distort_point(col_point(c))) is Some,
        spairing_at(G1Point::sgenerator().smul(4), distort_point(col_point(c))) == e_gen().spow((4 * c) % 17),
{
    lemma_g1_multiple_4();
    lemma_powers();
    if c == 1 {
        lemma_pairing_4_1();
        lemma_col_1();
        assert((4 * 1) % 17 == 4);
    } else if c == 2 {
        lemma_pairing_4_2();
        lemma_col_2();
        assert((4 * 2) % 17 == 8);
    } else if c == 3 {
        lemma_pairing_4_3();
        lemma_col_3();
        assert((4 * 3) % 17 == 12);
    } else if c == 4 {
        lemma_pairing_4_4();
        lemma_col_4();
        assert((4 * 4) % 17 == 16);
    } else if c == 5 {
        lemma_pairing_4_5();
        lemma_col_5();
        assert((4 * 5) % 17 == 3);
    } else if c == 6 {
        lemma_pairing_4_6();
        lemma_col_6();
        assert((4 * 6) % 17 == 7);
    } else if c == 7 {
        lemma_pairing_4_7();
        lemma_col_7();
        assert((4 * 7) % 17 == 11);
    } else if c == 8 {
        lemma_pairing_4_8();
        lemma_col_8();
        assert((4 * 8) % 17 == 15);
    } else if c == 9 {
        lemma_pairing_4_9();
        lemma_col_9();
        assert((4 * 9) % 17 == 2);
    } else if c == 10 {
        lemma_pairing_4_10();
        lemma_col_10();
        assert((4 * 10) % 17 == 6);
    } else if c == 11 {
        lemma_pairing_4_11();
        lemma_col_11();
        assert((4 * 11) % 17 == 10);
    } else if c == 12 {
        lemma_pairing_4_12();
        lemma_col_12();
        assert((4 * 12) % 17 == 14);
    } else if c == 13 {
        lemma_pairing_4_13();
        lemma_col_13();
        assert((4 * 13) % 17 == 1);
    } else if c == 14 {
        lemma_pairing_4_14();
        lemma_col_14();
        assert((4 * 14) % 17 == 5);
    } else if c == 15 {
        lemma_pairing_4_15();
        lemma_col_15();
        assert((4 * 15) % 17 == 9);
    } else if c == 16 {
        lemma_pairing_4_16();
        lemma_col_16();
        assert((4 * 16) % 17 == 13);
    } else if c == 18 {
        lemma_pairing_4_18();
        lemma_col_18();
        assert((4 * 18) % 17 == 4);
    } else if c == 19 {
        lemma_pairing_4_19();
        lemma_col_19();
        assert((4 * 19) % 17 == 8);
    } else if c == 20 {
        lemma_pairing_4_20();
        lemma_col_20();
        assert((4 * 20) % 17 == 12);
    } else if c == 21 {
        lemma_pairing_4_21();
        lemma_col_21();
        assert((4 * 21) % 17 == 16);
    } else if c == 22 {
        lemma_pairing_4_22();
        lemma_col_22();
        assert((4 * 22) % 17 == 3);
    } else if c == 23 {
        lemma_pairing_4_23();
        lemma_col_23();
        assert((4 * 23) % 17 == 7);
    } else if c == 24 {
        lemma_pairing_4_24();
        lemma_col_24();
        assert((4 * 24) % 17 == 11);
    } else if c == 25 {
        lemma_pairing_4_25();
        lemma_col_25();
        assert((4 * 25) % 17 == 15);
    } else if c == 26 {
        lemma_pairing_4_26();
        lemma_col_26();
        assert((4 * 26) % 17 == 2);
    } else if c == 27 {
        lemma_pairing_4_27();
        lemma_col_27();
        assert((4 * 27) % 17 == 6);
    } else if c == 28 {
        lemma_pairing_4_28();
        lemma_col_28();
        assert((4 * 28) % 17 == 10);
    } else if c == 29 {
        lemma_pairing_4_29();
        lemma_col_29();
        assert((4 * 29) % 17 == 14);
    } else if c == 30 {
        lemma_pairing_4_30();
        lemma_col_30();
        assert((4 * 30) % 17 == 1);
    } else if c == 31 {
        lemma_pairing_4_31();
        lemma_col_31();
        assert((4 * 31) % 17 == 5);
    } else if c == 32 {
        lemma_pairing_4_32();
        lemma_col_32();
        assert((4 * 32) % 17 == 9);
    } else if c == 33 {
        lemma_pairing_4_33();
        lemma_col_33();
        assert((4 * 33) % 17 == 13);
    }
}

/// `e(5G, c P) == e(G, H)^(5 c)` on the image of `H`'s multiples.
#[verifier::rlimit(80)]
#[verifier::spinoff_prover]
proof fn lemma_column_row_5(c: nat)
    requires
        1 <= c < 34,
        c != 17,
    ensures
        G1Point::sgenerator().smul(5) != G1Point::Infinity,
        smiller_loop(G1Point::sgenerator().smul(5), distort_point(col_point(c))) is Some,
        spairing_at(G1Point::sgenerator().smul(5), distort_point(col_point(c))) == e_gen().spow((5 * c) % 17),
{
    lemma_g1_multiple_5();
    lemma_powers();
    if c == 1 {
        lemma_pairing_5_1();
        lemma_col_1();
        assert((5 * 1) % 17 == 5);
    } else if c == 2 {
        lemma_pairing_5_2();
        lemma_col_2();
        assert((5 * 2) % 17 == 10);
    } else if c == 3 {
        lemma_pairing_5_3();
        lemma_col_3();
        assert((5 * 3) % 17 == 15);
    } else if c == 4 {
        lemma_pairing_5_4();
        lemma_col_4();
        assert((5 * 4) % 17 == 3);
    } else if c == 5 {
        lemma_pairing_5_5();
        lemma_col_5();
        assert((5 * 5) % 17 == 8);
    } else if c == 6 {
        lemma_pairing_5_6();
        lemma_col_6();
        assert((5 * 6) % 17 == 13);
    } else if c == 7 {
        lemma_pairing_5_7();
        lemma_col_7();
        assert((5 * 7) % 17 == 1);
    } else if c == 8 {
        lemma_pairing_5_8();
        lemma_col_8();
        assert((5 * 8) % 17 == 6);
    } else if c == 9 {
        lemma_pairing_5_9();
        lemma_col_9();
        assert((5 * 9) % 17 == 11);
    } else if c == 10 {
        lemma_pairing_5_10();
        lemma_col_10();
        assert((5 * 10) % 17 == 16);
    } else if c == 11 {
        lemma_pairing_5_11();
        lemma_col_11();
        assert((5 * 11) % 17 == 4);
    } else if c == 12 {
        lemma_pairing_5_12();
        lemma_col_12();
        assert((5 * 12) % 17 == 9);
    } else if c == 13 {
        lemma_pairing_5_13();
        lemma_col_13();
        assert((5 * 13) % 17 == 14);
    } else if c == 14 {
        lemma_pairing_5_14();
        lemma_col_14();
        assert((5 * 14) % 17 == 2);
    } else if c == 15 {
        lemma_pairing_5_15();
        lemma_col_15();
        assert((5 * 15) % 17 == 7);
    } else if c == 16 {
        lemma_pairing_5_16();
        lemma_col_16();
        assert((5 * 16) % 17 == 12);
    } else if c == 18 {
        lemma_pairing_5_18();
        lemma_col_18();
        assert((5 * 18) % 17 == 5);
    } else if c == 19 {
        lemma_pairing_5_19();
        lemma_col_19();
        assert((5 * 19) % 17 == 10);
    } else if c == 20 {
        lemma_pairing_5_20();
        lemma_col_20();
        assert((5 * 20) % 17 == 15);
    } else if c == 21 {
        lemma_pairing_5_21();
        lemma_col_21();
        assert((5 * 21) % 17 == 3);
    } else if c == 22 {
        lemma_pairing_5_22();
        lemma_col_22();
        assert((5 * 22) % 17 == 8);
    } else if c == 23 {
        lemma_pairing_5_23();
        lemma_col_23();
        assert((5 * 23) % 17 == 13);
    } else if c == 24 {
        lemma_pairing_5_24();
        lemma_col_24();
        assert((5 * 24) % 17 == 1);
    } else if c == 25 {
        lemma_pairing_5_25();
        lemma_col_25();
        assert((5 * 25) % 17 == 6);
    } else if c == 26 {
        lemma_pairing_5_26();
        lemma_col_26();
        assert((5 * 26) % 17 == 11);
    } else if c == 27 {
        lemma_pairing_5_27();
        lemma_col_27();
        assert((5 * 27) % 17 == 16);
    } else if c == 28 {
        lemma_pairing_5_28();
        lemma_col_28();
        assert((5 * 28) % 17 == 4);
    } else if c == 29 {
        lemma_pairing_5_29();
        lemma_col_29();
        assert((5 * 29) % 17 == 9);
    } else if c == 30 {
        lemma_pairing_5_30();
        lemma_col_30();
        assert((5 * 30) % 17 == 14);
    } else if c == 31 {
        lemma_pairing_5_31();
        lemma_col_31();
        assert((5 * 31) % 17 == 2);
    } else if c == 32 {
        lemma_pairing_5_32();
        lemma_col_32();
        assert((5 * 32) % 17 == 7);
    } else if c == 33 {
        lemma_pairing_5_33();
        lemma_col_33();
        assert((5 * 33) % 17 == 12);
    }
}

/// `e(6G, c P) == e(G, H)^(6 c)` on the image of `H`'s multiples.
#[verifier::rlimit(80)]
#[verifier::spinoff_prover]
proof fn lemma_column_row_6(c: nat)
    requires
        1 <= c < 34,
        c != 17,
    ensures
        G1Point::sgenerator().smul(6) != G1Point::Infinity,
        smiller_loop(G1Point::sgenerator().smul(6), distort_point(col_point(c))) is Some,
        spairing_at(G1Point::sgenerator().smul(6), distort_point(col_point(c))) == e_gen().spow((6 * c) % 17),
{
    lemma_g1_multiple_6();
    lemma_powers();
    if c == 1 {
        lemma_pairing_6_1();
        lemma_col_1();
        assert((6 * 1) % 17 == 6);
    } else if c == 2 {
        lemma_pairing_6_2();
        lemma_col_2();
        assert((6 * 2) % 17 == 12);
    } else if c == 3 {
        lemma_pairing_6_3();
        lemma_col_3();
        assert((6 * 3) % 17 == 1);
    } else if c == 4 {
        lemma_pairing_6_4();
        lemma_col_4();
        assert((6 * 4) % 17 == 7);
    } else if c == 5 {
        lemma_pairing_6_5();
        lemma_col_5();
        assert((6 * 5) % 17 == 13);
    } else if c == 6 {
        lemma_pairing_6_6();
        lemma_col_6();
        assert((6 * 6) % 17 == 2);
    } else if c == 7 {
        lemma_pairing_6_7();
        lemma_col_7();
        assert((6 * 7) % 17 == 8);
    } else if c == 8 {
        lemma_pairing_6_8();
        lemma_col_8();
        assert((6 * 8) % 17 == 14);
    } else if c == 9 {
        lemma_pairing_6_9();
        lemma_col_9();
        assert((6 * 9) % 17 == 3);
    } else if c == 10 {
        lemma_pairing_6_10();
        lemma_col_10();
        assert((6 * 10) % 17 == 9);
    } else if c == 11 {
        lemma_pairing_6_11();
        lemma_col_11();
        assert((6 * 11) % 17 == 15);
    } else if c == 12 {
        lemma_pairing_6_12();
        lemma_col_12();
        assert((6 * 12) % 17 == 4);
    } else if c == 13 {
        lemma_pairing_6_13();
        lemma_col_13();
        assert((6 * 13) % 17 == 10);
    } else if c == 14 {
        lemma_pairing_6_14();
        lemma_col_14();
        assert((6 * 14) % 17 == 16);
    } else if c == 15 {
        lemma_pairing_6_15();
        lemma_col_15();
        assert((6 * 15) % 17 == 5);
    } else if c == 16 {
        lemma_pairing_6_16();
        lemma_col_16();
        assert((6 * 16) % 17 == 11);
    } else if c == 18 {
        lemma_pairing_6_18();
        lemma_col_18();
        assert((6 * 18) % 17 == 6);
    } else if c == 19 {
        lemma_pairing_6_19();
        lemma_col_19();
        assert((6 * 19) % 17 == 12);
    } else if c == 20 {
        lemma_pairing_6_20();
        lemma_col_20();
        assert((6 * 20) % 17 == 1);
    } else if c == 21 {
        lemma_pairing_6_21();
        lemma_col_21();
        assert((6 * 21) % 17 == 7);
    } else if c == 22 {
        lemma_pairing_6_22();
        lemma_col_22();
        assert((6 * 22) % 17 == 13);
    } else if c == 23 {
        lemma_pairing_6_23();
        lemma_col_23();
        assert((6 * 23) % 17 == 2);
    } else if c == 24 {
        lemma_pairing_6_24();
        lemma_col_24();
        assert((6 * 24) % 17 == 8);
    } else if c == 25 {
        lemma_pairing_6_25();
        lemma_col_25();
        assert((6 * 25) % 17 == 14);
    } else if c == 26 {
        lemma_pairing_6_26();
        lemma_col_26();
        assert((6 * 26) % 17 == 3);
    } else if c == 27 {
        lemma_pairing_6_27();
        lemma_col_27();
        assert((6 * 27) % 17 == 9);
    } else if c == 28 {
        lemma_pairing_6_28();
        lemma_col_28();
        assert((6 * 28) % 17 == 15);
    } else if c == 29 {
        lemma_pairing_6_29();
        lemma_col_29();
        assert((6 * 29) % 17 == 4);
    } else if c == 30 {
        lemma_pairing_6_30();
        lemma_col_30();
        assert((6 * 30) % 17 == 10);
    } else if c == 31 {
        lemma_pairing_6_31();
        lemma_col_31();
        assert((6 * 31) % 17 == 16);
    } else if c == 32 {
        lemma_pairing_6_32();
        lemma_col_32();
        assert((6 * 32) % 17 == 5);
    } else if c == 33 {
        lemma_pairing_6_33();
        lemma_col_33();
        assert((6 * 33) % 17 == 11);
    }
}

/// `e(7G, c P) == e(G, H)^(7 c)` on the image of `H`'s multiples.
#[verifier::rlimit(80)]
#[verifier::spinoff_prover]
proof fn lemma_column_row_7(c: nat)
    requires
        1 <= c < 34,
        c != 17,
    ensures
        G1Point::sgenerator().smul(7) != G1Point::Infinity,
        smiller_loop(G1Point::sgenerator().smul(7), distort_point(col_point(c))) is Some,
        spairing_at(G1Point::sgenerator().smul(7), distort_point(col_point(c))) == e_gen().spow((7 * c) % 17),
{
    lemma_g1_multiple_7();
    lemma_powers();
    if c == 1 {
        lemma_pairing_7_1();
        lemma_col_1();
        assert((7 * 1) % 17 == 7);
    } else if c == 2 {
        lemma_pairing_7_2();
        lemma_col_2();
        assert((7 * 2) % 17 == 14);
    } else if c == 3 {
        lemma_pairing_7_3();
        lemma_col_3();
        assert((7 * 3) % 17 == 4);
    } else if c == 4 {
        lemma_pairing_7_4();
        lemma_col_4();
        assert((7 * 4) % 17 == 11);
    } else if c == 5 {
        lemma_pairing_7_5();
        lemma_col_5();
        assert((7 * 5) % 17 == 1);
    } else if c == 6 {
        lemma_pairing_7_6();
        lemma_col_6();
        assert((7 * 6) % 17 == 8);
    } else if c == 7 {
        lemma_pairing_7_7();
        lemma_col_7();
        assert((7 * 7) % 17 == 15);
    } else if c == 8 {
        lemma_pairing_7_8();
        lemma_col_8();
        assert((7 * 8) % 17 == 5);
    } else if c == 9 {
        lemma_pairing_7_9();
        lemma_col_9();
        assert((7 * 9) % 17 == 12);
    } else if c == 10 {
        lemma_pairing_7_10();
        lemma_col_10();
        assert((7 * 10) % 17 == 2);
    } else if c == 11 {
        lemma_pairing_7_11();
        lemma_col_11();
        assert((7 * 11) % 17 == 9);
    } else if c == 12 {
        lemma_pairing_7_12();
        lemma_col_12();
        assert((7 * 12) % 17 == 16);
    } else if c == 13 {
        lemma_pairing_7_13();
        lemma_col_13();
        assert((7 * 13) % 17 == 6);
    } else if c == 14 {
        lemma_pairing_7_14();
        lemma_col_14();
        assert((7 * 14) % 17 == 13);
    } else if c == 15 {
        lemma_pairing_7_15();
        lemma_col_15();
        assert((7 * 15) % 17 == 3);
    } else if c == 16 {
        lemma_pairing_7_16();
        lemma_col_16();
        assert((7 * 16) % 17 == 10);
    } else if c == 18 {
        lemma_pairing_7_18();
        lemma_col_18();
        assert((7 * 18) % 17 == 7);
    } else if c == 19 {
        lemma_pairing_7_19();
        lemma_col_19();
        assert((7 * 19) % 17 == 14);
    } else if c == 20 {
        lemma_pairing_7_20();
        lemma_col_20();
        assert((7 * 20) % 17 == 4);
    } else if c == 21 {
        lemma_pairing_7_21();
        lemma_col_21();
        assert((7 * 21) % 17 == 11);
    } else if c == 22 {
        lemma_pairing_7_22();
        lemma_col_22();
        assert((7 * 22) % 17 == 1);
    } else if c == 23 {
        lemma_pairing_7_23();
        lemma_col_23();
        assert((7 * 23) % 17 == 8);
    } else if c == 24 {
        lemma_pairing_7_24();
        lemma_col_24();
        assert((7 * 24) % 17 == 15);
    } else if c == 25 {
        lemma_pairing_7_25();
        lemma_col_25();
        assert((7 * 25) % 17 == 5);
    } else if c == 26 {
        lemma_pairing_7_26();
        lemma_col_26();
        assert((7 * 26) % 17 == 12);
    } else if c == 27 {
        lemma_pairing_7_27();
        lemma_col_27();
        assert((7 * 27) % 17 == 2);
    } else if c == 28 {
        lemma_pairing_7_28();
        lemma_col_28();
        assert((7 * 28) % 17 == 9);
    } else if c == 29 {
        lemma_pairing_7_29();
        lemma_col_29();
        assert((7 * 29) % 17 == 16);
    } else if c == 30 {
        lemma_pairing_7_30();
        lemma_col_30();
        assert((7 * 30) % 17 == 6);
    } else if c == 31 {
        lemma_pairing_7_31();
        lemma_col_31();
        assert((7 * 31) % 17 == 13);
    } else if c == 32 {
        lemma_pairing_7_32();
        lemma_col_32();
        assert((7 * 32) % 17 == 3);
    } else if c == 33 {
        lemma_pairing_7_33();
        lemma_col_33();
        assert((7 * 33) % 17 == 10);
    }
}

/// `e(8G, c P) == e(G, H)^(8 c)` on the image of `H`'s multiples.
#[verifier::rlimit(80)]
#[verifier::spinoff_prover]
proof fn lemma_column_row_8(c: nat)
    requires
        1 <= c < 34,
        c != 17,
    ensures
        G1Point::sgenerator().smul(8) != G1Point::Infinity,
        smiller_loop(G1Point::sgenerator().smul(8), distort_point(col_point(c))) is Some,
        spairing_at(G1Point::sgenerator().smul(8), distort_point(col_point(c))) == e_gen().spow((8 * c) % 17),
{
    lemma_g1_multiple_8();
    lemma_powers();
    if c == 1 {
        lemma_pairing_8_1();
        lemma_col_1();
        assert((8 * 1) % 17 == 8);
    } else if c == 2 {
        lemma_pairing_8_2();
        lemma_col_2();
        assert((8 * 2) % 17 == 16);
    } else if c == 3 {
        lemma_pairing_8_3();
        lemma_col_3();
        assert((8 * 3) % 17 == 7);
    } else if c == 4 {
        lemma_pairing_8_4();
        lemma_col_4();
        assert((8 * 4) % 17 == 15);
    } else if c == 5 {
        lemma_pairing_8_5();
        lemma_col_5();
        assert((8 * 5) % 17 == 6);
    } else if c == 6 {
        lemma_pairing_8_6();
        lemma_col_6();
        assert((8 * 6) % 17 == 14);
    } else if c == 7 {
        lemma_pairing_8_7();
        lemma_col_7();
        assert((8 * 7) % 17 == 5);
    } else if c == 8 {
        lemma_pairing_8_8();
        lemma_col_8();
        assert((8 * 8) % 17 == 13);
    } else if c == 9 {
        lemma_pairing_8_9();
        lemma_col_9();
        assert((8 * 9) % 17 == 4);
    } else if c == 10 {
        lemma_pairing_8_10();
        lemma_col_10();
        assert((8 * 10) % 17 == 12);
    } else if c == 11 {
        lemma_pairing_8_11();
        lemma_col_11();
        assert((8 * 11) % 17 == 3);
    } else if c == 12 {
        lemma_pairing_8_12();
        lemma_col_12();
        assert((8 * 12) % 17 == 11);
    } else if c == 13 {
        lemma_pairing_8_13();
        lemma_col_13();
        assert((8 * 13) % 17 == 2);
    } else if c == 14 {
        lemma_pairing_8_14();
        lemma_col_14();
        assert((8 * 14) % 17 == 10);
    } else if c == 15 {
        lemma_pairing_8_15();
        lemma_col_15();
        assert((8 * 15) % 17 == 1);
    } else if c == 16 {
        lemma_pairing_8_16();
        lemma_col_16();
        assert((8 * 16) % 17 == 9);
    } else if c == 18 {
        lemma_pairing_8_18();
        lemma_col_18();
        assert((8 * 18) % 17 == 8);
    } else if c == 19 {
        lemma_pairing_8_19();
        lemma_col_19();
        assert((8 * 19) % 17 == 16);
    } else if c == 20 {
        lemma_pairing_8_20();
        lemma_col_20();
        assert((8 * 20) % 17 == 7);
    } else if c == 21 {
        lemma_pairing_8_21();
        lemma_col_21();
        assert((8 * 21) % 17 == 15);
    } else if c == 22 {
        lemma_pairing_8_22();
        lemma_col_22();
        assert((8 * 22) % 17 == 6);
    } else if c == 23 {
        lemma_pairing_8_23();
        lemma_col_23();
        assert((8 * 23) % 17 == 14);
    } else if c == 24 {
        lemma_pairing_8_24();
        lemma_col_24();
        assert((8 * 24) % 17 == 5);
    } else if c == 25 {
        lemma_pairing_8_25();
        lemma_col_25();
        assert((8 * 25) % 17 == 13);
    } else if c == 26 {
        lemma_pairing_8_26();
        lemma_col_26();
        assert((8 * 26) % 17 == 4);
    } else if c == 27 {
        lemma_pairing_8_27();
        lemma_col_27();
        assert((8 * 27) % 17 == 12);
    } else if c == 28 {
        lemma_pairing_8_28();
        lemma_col_28();
        assert((8 * 28) % 17 == 3);
    } else if c == 29 {
        lemma_pairing_8_29();
        lemma_col_29();
        assert((8 * 29) % 17 == 11);
    } else if c == 30 {
        lemma_pairing_8_30();
        lemma_col_30();
        assert((8 * 30) % 17 == 2);
    } else if c == 31 {
        lemma_pairing_8_31();
        lemma_col_31();
        assert((8 * 31) % 17 == 10);
    } else if c == 32 {
        lemma_pairing_8_32();
        lemma_col_32();
        assert((8 * 32) % 17 == 1);
    } else if c == 33 {
        lemma_pairing_8_33();
        lemma_col_33();
        assert((8 * 33) % 17 == 9);
    }
}

/// `e(9G, c P) == e(G, H)^(9 c)` on the image of `H`'s multiples.
#[verifier::rlimit(80)]
#[verifier::spinoff_prover]
proof fn lemma_column_row_9(c: nat)
    requires
        1 <= c < 34,
        c != 17,
    ensures
        G1Point::sgenerator().smul(9) != G1Point::Infinity,
        smiller_loop(G1Point::sgenerator().smul(9), distort_point(col_point(c))) is Some,
        spairing_at(G1Point::sgenerator().smul(9), distort_point(col_point(c))) == e_gen().spow((9 * c) % 17),
{
    lemma_g1_multiple_9();
    lemma_powers();
    if c == 1 {
        lemma_pairing_9_1();
        lemma_col_1();
        assert((9 * 1) % 17 == 9);
    } else if c == 2 {
        lemma_pairing_9_2();
        lemma_col_2();
        assert((9 * 2) % 17 == 1);
    } else if c == 3 {
        lemma_pairing_9_3();
        lemma_col_3();
        assert((9 * 3) % 17 == 10);
    } else if c == 4 {
        lemma_pairing_9_4();
        lemma_col_4();
        assert((9 * 4) % 17 == 2);
    } else if c == 5 {
        lemma_pairing_9_5();
        lemma_col_5();
        assert((9 * 5) % 17 == 11);
    } else if c == 6 {
        lemma_pairing_9_6();
        lemma_col_6();
        assert((9 * 6) % 17 == 3);
    } else if c == 7 {
        lemma_pairing_9_7();
        lemma_col_7();
        assert((9 * 7) % 17 == 12);
    } else if c == 8 {
        lemma_pairing_9_8();
        lemma_col_8();
        assert((9 * 8) % 17 == 4);
    } else if c == 9 {
        lemma_pairing_9_9();
        lemma_col_9();
        assert((9 * 9) % 17 == 13);
    } else if c == 10 {
        lemma_pairing_9_10();
        lemma_col_10();
        assert((9 * 10) % 17 == 5);
    } else if c == 11 {
        lemma_pairing_9_11();
        lemma_col_11();
        assert((9 * 11) % 17 == 14);
    } else if c == 12 {
        lemma_pairing_9_12();
        lemma_col_12();
        assert((9 * 12) % 17 == 6);
    } else if c == 13 {
        lemma_pairing_9_13();
        lemma_col_13();
        assert((9 * 13) % 17 == 15);
    } else if c == 14 {
        lemma_pairing_9_14();
        lemma_col_14();
        assert((9 * 14) % 17 == 7);
    } else if c == 15 {
        lemma_pairing_9_15();
        lemma_col_15();
        assert((9 * 15) % 17 == 16);
    } else if c == 16 {
        lemma_pairing_9_16();
        lemma_col_16();
        assert((9 * 16) % 17 == 8);
    } else if c == 18 {
        lemma_pairing_9_18();
        lemma_col_18();
        assert((9 * 18) % 17 == 9);
    } else if c == 19 {
        lemma_pairing_9_19();
        lemma_col_19();
        assert((9 * 19) % 17 == 1);
    } else if c == 20 {
        lemma_pairing_9_20();
        lemma_col_20();
        assert((9 * 20) % 17 == 10);
    } else if c == 21 {
        lemma_pairing_9_21();
        lemma_col_21();
        assert((9 * 21) % 17 == 2);
    } else if c == 22 {
        lemma_pairing_9_22();
        lemma_col_22();
        assert((9 * 22) % 17 == 11);
    } else if c == 23 {
        lemma_pairing_9_23();
        lemma_col_23();
        assert((9 * 23) % 17 == 3);
    } else if c == 24 {
        lemma_pairing_9_24();
        lemma_col_24();
        assert((9 * 24) % 17 == 12);
    } else if c == 25 {
        lemma_pairing_9_25();
        lemma_col_25();
        assert((9 * 25) % 17 == 4);
    } else if c == 26 {
        lemma_pairing_9_26();
        lemma_col_26();
        assert((9 * 26) % 17 == 13);
    } else if c == 27 {
        lemma_pairing_9_27();
        lemma_col_27();
        assert((9 * 27) % 17 == 5);
    } else if c == 28 {
        lemma_pairing_9_28();
        lemma_col_28();
        assert((9 * 28) % 17 == 14);
    } else if c == 29 {
        lemma_pairing_9_29();
        lemma_col_29();
        assert((9 * 29) % 17 == 6);
    } else if c == 30 {
        lemma_pairing_9_30();
        lemma_col_30();
        assert((9 * 30) % 17 == 15);
    } else if c == 31 {
        lemma_pairing_9_31();
        lemma_col_31();
        assert((9 * 31) % 17 == 7);
    } else if c == 32 {
        lemma_pairing_9_32();
        lemma_col_32();
        assert((9 * 32) % 17 == 16);
    } else if c == 33 {
        lemma_pairing_9_33();
        lemma_col_33();
        assert((9 * 33) % 17 == 8);
    }
}

/// `e(10G, c P) == e(G, H)^(10 c)` on the image of `H`'s multiples.
#[verifier::rlimit(80)]
#[verifier::spinoff_prover]
proof fn lemma_column_row_10(c: nat)
    requires
        1 <= c < 34,
        c != 17,
    ensures
        G1Point::sgenerator().smul(10) != G1Point::Infinity,
        smiller_loop(G1Point::sgenerator().smul(10), distort_point(col_point(c))) is Some,
        spairing_at(G1Point::sgenerator().smul(10), distort_point(col_point(c))) == e_gen().spow((10 * c) % 17),
{
    lemma_g1_multiple_10();
    lemma_powers();
    if c == 1 {
        lemma_pairing_10_1();
        lemma_col_1();
        assert((10 * 1) % 17 == 10);
    } else if c == 2 {
        lemma_pairing_10_2();
        lemma_col_2();
        assert((10 * 2) % 17 == 3);
    } else if c == 3 {
        lemma_pairing_10_3();
        lemma_col_3();
        assert((10 * 3) % 17 == 13);
    } else if c == 4 {
        lemma_pairing_10_4();
        lemma_col_4();
        assert((10 * 4) % 17 == 6);
    } else if c == 5 {
        lemma_pairing_10_5();
        lemma_col_5();
        assert((10 * 5) % 17 == 16);
    } else if c == 6 {
        lemma_pairing_10_6();
        lemma_col_6();
        assert((10 * 6) % 17 == 9);
    } else if c == 7 {
        lemma_pairing_10_7();
        lemma_col_7();
        assert((10 * 7) % 17 == 2);
    } else if c == 8 {
        lemma_pairing_10_8();
        lemma_col_8();
        assert((10 * 8) % 17 == 12);
    } else if c == 9 {
        lemma_pairing_10_9();
        lemma_col_9();
        assert((10 * 9) % 17 == 5);
    } else if c == 10 {
        lemma_pairing_10_10();
        lemma_col_10();
        assert((10 * 10) % 17 == 15);
    } else if c == 11 {
        lemma_pairing_10_11();
        lemma_col_11();
        assert((10 * 11) % 17 == 8);
    } else if c == 12 {
        lemma_pairing_10_12();
        lemma_col_12();
        assert((10 * 12) % 17 == 1);
    } else if c == 13 {
        lemma_pairing_10_13();
        lemma_col_13();
        assert((10 * 13) % 17 == 11);
    } else if c == 14 {
        lemma_pairing_10_14();
        lemma_col_14();
        assert((10 * 14) % 17 == 4);
    } else if c == 15 {
        lemma_pairing_10_15();
        lemma_col_15();
        assert((10 * 15) % 17 == 14);
    } else if c == 16 {
        lemma_pairing_10_16();
        lemma_col_16();
        assert((10 * 16) % 17 == 7);
    } else if c == 18 {
        lemma_pairing_10_18();
        lemma_col_18();
        assert((10 * 18) % 17 == 10);
    } else if c == 19 {
        lemma_pairing_10_19();
        lemma_col_19();
        assert((10 * 19) % 17 == 3);
    } else if c == 20 {
        lemma_pairing_10_20();
        lemma_col_20();
        assert((10 * 20) % 17 == 13);
    } else if c == 21 {
        lemma_pairing_10_21();
        lemma_col_21();
        assert((10 * 21) % 17 == 6);
    } else if c == 22 {
        lemma_pairing_10_22();
        lemma_col_22();
        assert((10 * 22) % 17 == 16);
    } else if c == 23 {
        lemma_pairing_10_23();
        lemma_col_23();
        assert((10 * 23) % 17 == 9);
    } else if c == 24 {
        lemma_pairing_10_24();
        lemma_col_24();
        assert((10 * 24) % 17 == 2);
    } else if c == 25 {
        lemma_pairing_10_25();
        lemma_col_25();
        assert((10 * 25) % 17 == 12);
    } else if c == 26 {
        lemma_pairing_10_26();
        lemma_col_26();
        assert((10 * 26) % 17 == 5);
    } else if c == 27 {
        lemma_pairing_10_27();
        lemma_col_27();
        assert((10 * 27) % 17 == 15);
    } else if c == 28 {
        lemma_pairing_10_28();
        lemma_col_28();
        assert((10 * 28) % 17 == 8);
    } else if c == 29 {
        lemma_pairing_10_29();
        lemma_col_29();
        assert((10 * 29) % 17 == 1);
    } else if c == 30 {
        lemma_pairing_10_30();
        lemma_col_30();
        assert((10 * 30) % 17 == 11);
    } else if c == 31 {
        lemma_pairing_10_31();
        lemma_col_31();
        assert((10 * 31) % 17 == 4);
    } else if c == 32 {
        lemma_pairing_10_32();
        lemma_col_32();
        assert((10 * 32) % 17 == 14);
    } else if c == 33 {
        lemma_pairing_10_33();
        lemma_col_33();
        assert((10 * 33) % 17 == 7);
    }
}

/// `e(11G, c P) == e(G, H)^(11 c)` on the image of `H`'s multiples.
#[verifier::rlimit(80)]
#[verifier::spinoff_prover]
proof fn lemma_column_row_11(c: nat)
    requires
        1 <= c < 34,
        c != 17,
    ensures
        G1Point::sgenerator().smul(11) != G1Point::Infinity,
        smiller_loop(G1Point::sgenerator().smul(11), distort_point(col_point(c))) is Some,
        spairing_at(G1Point::sgenerator().smul(11), distort_point(col_point(c))) == e_gen().spow((11 * c) % 17),
{
    lemma_g1_multiple_11();
    lemma_powers();
    if c == 1 {
        lemma_pairing_11_1();
        lemma_col_1();
        assert((11 * 1) % 17 == 11);
    } else if c == 2 {
        lemma_pairing_11_2();
        lemma_col_2();
        assert((11 * 2) % 17 == 5);
    } else if c == 3 {
        lemma_pairing_11_3();
        lemma_col_3();
        assert((11 * 3) % 17 == 16);
    } else if c == 4 {
        lemma_pairing_11_4();
        lemma_col_4();
        assert((11 * 4) % 17 == 10);
    } else if c == 5 {
        lemma_pairing_11_5();
        lemma_col_5();
        assert((11 * 5) % 17 == 4);
    } else if c == 6 {
        lemma_pairing_11_6();
        lemma_col_6();
        assert((11 * 6) % 17 == 15);
    } else if c == 7 {
        lemma_pairing_11_7();
        lemma_col_7();
        assert((11 * 7) % 17 == 9);
    } else if c == 8 {
        lemma_pairing_11_8();
        lemma_col_8();
        assert((11 * 8) % 17 == 3);
    } else if c == 9 {
        lemma_pairing_11_9();
        lemma_col_9();
        assert((11 * 9) % 17 == 14);
    } else if c == 10 {
        lemma_pairing_11_10();
        lemma_col_10();
        assert((11 * 10) % 17 == 8);
    } else if c == 11 {
        lemma_pairing_11_11();
        lemma_col_11();
        assert((11 * 11) % 17 == 2);
    } else if c == 12 {
        lemma_pairing_11_12();
        lemma_col_12();
        assert((11 * 12) % 17 == 13);
    } else if c == 13 {
        lemma_pairing_11_13();
        lemma_col_13();
        assert((11 * 13) % 17 == 7);
    } else if c == 14 {
        lemma_pairing_11_14();
        lemma_col_14();
        assert((11 * 14) % 17 == 1);
    } else if c == 15 {
        lemma_pairing_11_15();
        lemma_col_15();
        assert((11 * 15) % 17 == 12);
    } else if c == 16 {
        lemma_pairing_11_16();
        lemma_col_16();
        assert((11 * 16) % 17 == 6);
    } else if c == 18 {
        lemma_pairing_11_18();
        lemma_col_18();
        assert((11 * 18) % 17 == 11);
    } else if c == 19 {
        lemma_pairing_11_19();
        lemma_col_19();
        assert((11 * 19) % 17 == 5);
    } else if c == 20 {
        lemma_pairing_11_20();
        lemma_col_20();
        assert((11 * 20) % 17 == 16);
    } else if c == 21 {
        lemma_pairing_11_21();
        lemma_col_21();
        assert((11 * 21) % 17 == 10);
    } else if c == 22 {
        lemma_pairing_11_22();
        lemma_col_22();
        assert((11 * 22) % 17 == 4);
    } else if c == 23 {
        lemma_pairing_11_23();
        lemma_col_23();
        assert((11 * 23) % 17 == 15);
    } else if c == 24 {
        lemma_pairing_11_24();
        lemma_col_24();
        assert((11 * 24) % 17 == 9);
    } else if c == 25 {
        lemma_pairing_11_25();
        lemma_col_25();
        assert((11 * 25) % 17 == 3);
    } else if c == 26 {
        lemma_pairing_11_26();
        lemma_col_26();
        assert((11 * 26) % 17 == 14);
    } else if c == 27 {
        lemma_pairing_11_27();
        lemma_col_27();
        assert((11 * 27) % 17 == 8);
    } else if c == 28 {
        lemma_pairing_11_28();
        lemma_col_28();
        assert((11 * 28) % 17 == 2);
    } else if c == 29 {
        lemma_pairing_11_29();
        lemma_col_29();
        assert((11 * 29) % 17 == 13);
    } else if c == 30 {
        lemma_pairing_11_30();
        lemma_col_30();
        assert((11 * 30) % 17 == 7);
    } else if c == 31 {
        lemma_pairing_11_31();
        lemma_col_31();
        assert((11 * 31) % 17 == 1);
    } else if c == 32 {
        lemma_pairing_11_32();
        lemma_col_32();
        assert((11 * 32) % 17 == 12);
    } else if c == 33 {
        lemma_pairing_11_33();
        lemma_col_33();
        assert((11 * 33) % 17 == 6);
    }
}

/// `e(12G, c P) == e(G, H)^(12 c)` on the image of `H`'s multiples.
#[verifier::rlimit(80)]
#[verifier::spinoff_prover]
proof fn lemma_column_row_12(c: nat)
    requires
        1 <= c < 34,
        c != 17,
    ensures
        G1Point::sgenerator().smul(12) != G1Point::Infinity,
        smiller_loop(G1Point::sgenerator().smul(12), distort_point(col_point(c))) is Some,
        spairing_at(G1Point::sgenerator().smul(12), distort_point(col_point(c))) == e_gen().spow((12 * c) % 17),
{
    lemma_g1_multiple_12();
    lemma_powers();
    if c == 1 {
        lemma_pairing_12_1();
        lemma_col_1();
        assert((12 * 1) % 17 == 12);
    } else if c == 2 {
        lemma_pairing_12_2();
        lemma_col_2();
        assert((12 * 2) % 17 == 7);
    } else if c == 3 {
        lemma_pairing_12_3();
        lemma_col_3();
        assert((12 * 3) % 17 == 2);
    } else if c == 4 {
        lemma_pairing_12_4();
        lemma_col_4();
        assert((12 * 4) % 17 == 14);
    } else if c == 5 {
        lemma_pairing_12_5();
        lemma_col_5();
        assert((12 * 5) % 17 == 9);
    } else if c == 6 {
        lemma_pairing_12_6();
        lemma_col_6();
        assert((12 * 6) % 17 == 4);
    } else if c == 7 {
        lemma_pairing_12_7();
        lemma_col_7();
        assert((12 * 7) % 17 == 16);
    } else if c == 8 {
        lemma_pairing_12_8();
        lemma_col_8();
        assert((12 * 8) % 17 == 11);
    } else if c == 9 {
        lemma_pairing_12_9();
        lemma_col_9();
        assert((12 * 9) % 17 == 6);
    } else if c == 10 {
        lemma_pairing_12_10();
        lemma_col_10();
        assert((12 * 10) % 17 == 1);
    } else if c == 11 {
        lemma_pairing_12_11();
        lemma_col_11();
        assert((12 * 11) % 17 == 13);
    } else if c == 12 {
        lemma_pairing_12_12();
        lemma_col_12();
        assert((12 * 12) % 17 == 8);
    } else if c == 13 {
        lemma_pairing_12_13();
        lemma_col_13();
        assert((12 * 13) % 17 == 3);
    } else if c == 14 {
        lemma_pairing_12_14();
        lemma_col_14();
        assert((12 * 14) % 17 == 15);
    } else if c == 15 {
        lemma_pairing_12_15();
        lemma_col_15();
        assert((12 * 15) % 17 == 10);
    } else if c == 16 {
        lemma_pairing_12_16();
        lemma_col_16();
        assert((12 * 16) % 17 == 5);
    } else if c == 18 {
        lemma_pairing_12_18();
        lemma_col_18();
        assert((12 * 18) % 17 == 12);
    } else if c == 19 {
        lemma_pairing_12_19();
        lemma_col_19();
        assert((12 * 19) % 17 == 7);
    } else if c == 20 {
        lemma_pairing_12_20();
        lemma_col_20();
        assert((12 * 20) % 17 == 2);
    } else if c == 21 {
        lemma_pairing_12_21();
        lemma_col_21();
        assert((12 * 21) % 17 == 14);
    } else if c == 22 {
        lemma_pairing_12_22();
        lemma_col_22();
        assert((12 * 22) % 17 == 9);
    } else if c == 23 {
        lemma_pairing_12_23();
        lemma_col_23();
        assert((12 * 23) % 17 == 4);
    } else if c == 24 {
        lemma_pairing_12_24();
        lemma_col_24();
        assert((12 * 24) % 17 == 16);
    } else if c == 25 {
        lemma_pairing_12_25();
        lemma_col_25();
        assert((12 * 25) % 17 == 11);
    } else if c == 26 {
        lemma_pairing_12_26();
        lemma_col_26();
        assert((12 * 26) % 17 == 6);
    } else if c == 27 {
        lemma_pairing_12_27();
        lemma_col_27();
        assert((12 * 27) % 17 == 1);
    } else if c == 28 {
        lemma_pairing_12_28();
        lemma_col_28();
        assert((12 * 28) % 17 == 13);
    } else if c == 29 {
        lemma_pairing_12_29();
        lemma_col_29();
        assert((12 * 29) % 17 == 8);
    } else if c == 30 {
        lemma_pairing_12_30();
        lemma_col_30();
        assert((12 * 30) % 17 == 3);
    } else if c == 31 {
        lemma_pairing_12_31();
        lemma_col_31();
        assert((12 * 31) % 17 == 15);
    } else if c == 32 {
        lemma_pairing_12_32();
        lemma_col_32();
        assert((12 * 32) % 17 == 10);
    } else if c == 33 {
        lemma_pairing_12_33();
        lemma_col_33();
        assert((12 * 33) % 17 == 5);
    }
}

/// `e(13G, c P) == e(G, H)^(13 c)` on the image of `H`'s multiples.
#[verifier::rlimit(80)]
#[verifier::spinoff_prover]
proof fn lemma_column_row_13(c: nat)
    requires
        1 <= c < 34,
        c != 17,
    ensures
        G1Point::sgenerator().smul(13) != G1Point::Infinity,
        smiller_loop(G1Point::sgenerator().smul(13), distort_point(col_point(c))) is Some,
        spairing_at(G1Point::sgenerator().smul(13), distort_point(col_point(c))) == e_gen().spow((13 * c) % 17),
{
    lemma_g1_multiple_13();
    lemma_powers();
    if c == 1 {
        lemma_pairing_13_1();
        lemma_col_1();
        assert((13 * 1) % 17 == 13);
    } else if c == 2 {
        lemma_pairing_13_2();
        lemma_col_2();
        assert((13 * 2) % 17 == 9);
    } else if c == 3 {
        lemma_pairing_13_3();
        lemma_col_3();
        assert((13 * 3) % 17 == 5);
    } else if c == 4 {
        lemma_pairing_13_4();
        lemma_col_4();
        assert((13 * 4) % 17 == 1);
    } else if c == 5 {
        lemma_pairing_13_5();
        lemma_col_5();
        assert((13 * 5) % 17 == 14);
    } else if c == 6 {
        lemma_pairing_13_6();
        lemma_col_6();
        assert((13 * 6) % 17 == 10);
    } else if c == 7 {
        lemma_pairing_13_7();
        lemma_col_7();
        assert((13 * 7) % 17 == 6);
    } else if c == 8 {
        lemma_pairing_13_8();
        lemma_col_8();
        assert((13 * 8) % 17 == 2);
    } else if c == 9 {
        lemma_pairing_13_9();
        lemma_col_9();
        assert((13 * 9) % 17 == 15);
    } else if c == 10 {
        lemma_pairing_13_10();
        lemma_col_10();
        assert((13 * 10) % 17 == 11);
    } else if c == 11 {
        lemma_pairing_13_11();
        lemma_col_11();
        assert((13 * 11) % 17 == 7);
    } else if c == 12 {
        lemma_pairing_13_12();
        lemma_col_12();
        assert((13 * 12) % 17 == 3);
    } else if c == 13 {
        lemma_pairing_13_13();
        lemma_col_13();
        assert((13 * 13) % 17 == 16);
    } else if c == 14 {
        lemma_pairing_13_14();
        lemma_col_14();
        assert((13 * 14) % 17 == 12);
    } else if c == 15 {
        lemma_pairing_13_15();
        lemma_col_15();
        assert((13 * 15) % 17 == 8);
    } else if c == 16 {
        lemma_pairing_13_16();
        lemma_col_16();
        assert((13 * 16) % 17 == 4);
    } else if c == 18 {
        lemma_pairing_13_18();
        lemma_col_18();
        assert((13 * 18) % 17 == 13);
    } else if c == 19 {
        lemma_pairing_13_19();
        lemma_col_19();
        assert((13 * 19) % 17 == 9);
    } else if c == 20 {
        lemma_pairing_13_20();
        lemma_col_20();
        assert((13 * 20) % 17 == 5);
    } else if c == 21 {
        lemma_pairing_13_21();
        lemma_col_21();
        assert((13 * 21) % 17 == 1);
    } else if c == 22 {
        lemma_pairing_13_22();
        lemma_col_22();
        assert((13 * 22) % 17 == 14);
    } else if c == 23 {
        lemma_pairing_13_23();
        lemma_col_23();
        assert((13 * 23) % 17 == 10);
    } else if c == 24 {
        lemma_pairing_13_24();
        lemma_col_24();
        assert((13 * 24) % 17 == 6);
    } else if c == 25 {
        lemma_pairing_13_25();
        lemma_col_25();
        assert((13 * 25) % 17 == 2);
    } else if c == 26 {
        lemma_pairing_13_26();
        lemma_col_26();
        assert((13 * 26) % 17 == 15);
    } else if c == 27 {
        lemma_pairing_13_27();
        lemma_col_27();
        assert((13 * 27) % 17 == 11);
    } else if c == 28 {
        lemma_pairing_13_28();
        lemma_col_28();
        assert((13 * 28) % 17 == 7);
    } else if c == 29 {
        lemma_pairing_13_29();
        lemma_col_29();
        assert((13 * 29) % 17 == 3);
    } else if c == 30 {
        lemma_pairing_13_30();
        lemma_col_30();
        assert((13 * 30) % 17 == 16);
    } else if c == 31 {
        lemma_pairing_13_31();
        lemma_col_31();
        assert((13 * 31) % 17 == 12);
    } else if c == 32 {
        lemma_pairing_13_32();
        lemma_col_32();
        assert((13 * 32) % 17 == 8);
    } else if c == 33 {
        lemma_pairing_13_33();
        lemma_col_33();
        assert((13 * 33) % 17 == 4);
    }
}

/// `e(14G, c P) == e(G, H)^(14 c)` on the image of `H`'s multiples.
#[verifier::rlimit(80)]
#[verifier::spinoff_prover]
proof fn lemma_column_row_14(c: nat)
    requires
        1 <= c < 34,
        c != 17,
    ensures
        G1Point::sgenerator().smul(14) != G1Point::Infinity,
        smiller_loop(G1Point::sgenerator().smul(14), distort_point(col_point(c))) is Some,
        spairing_at(G1Point::sgenerator().smul(14), distort_point(col_point(c))) == e_gen().spow((14 * c) % 17),
{
    lemma_g1_multiple_14();
    lemma_powers();
    if c == 1 {
        lemma_pairing_14_1();
        lemma_col_1();
        assert((14 * 1) % 17 == 14);
    } else if c == 2 {
        lemma_pairing_14_2();
        lemma_col_2();
        assert((14 * 2) % 17 == 11);
    } else if c == 3 {
        lemma_pairing_14_3();
        lemma_col_3();
        assert((14 * 3) % 17 == 8);
    } else if c == 4 {
        lemma_pairing_14_4();
        lemma_col_4();
        assert((14 * 4) % 17 == 5);
    } else if c == 5 {
        lemma_pairing_14_5();
        lemma_col_5();
        assert((14 * 5) % 17 == 2);
    } else if c == 6 {
        lemma_pairing_14_6();
        lemma_col_6();
        assert((14 * 6) % 17 == 16);
    } else if c == 7 {
        lemma_pairing_14_7();
        lemma_col_7();
        assert((14 * 7) % 17 == 13);
    } else if c == 8 {
        lemma_pairing_14_8();
        lemma_col_8();
        assert((14 * 8) % 17 == 10);
    } else if c == 9 {
        lemma_pairing_14_9();
        lemma_col_9();
        assert((14 * 9) % 17 == 7);
    } else if c == 10 {
        lemma_pairing_14_10();
        lemma_col_10();
        assert((14 * 10) % 17 == 4);
    } else if c == 11 {
        lemma_pairing_14_11();
        lemma_col_11();
        assert((14 * 11) % 17 == 1);
    } else if c == 12 {
        lemma_pairing_14_12();
        lemma_col_12();
        assert((14 * 12) % 17 == 15);
    } else if c == 13 {
        lemma_pairing_14_13();
        lemma_col_13();
        assert((14 * 13) % 17 == 12);
    } else if c == 14 {
        lemma_pairing_14_14();
        lemma_col_14();
        assert((14 * 14) % 17 == 9);
    } else if c == 15 {
        lemma_pairing_14_15();
        lemma_col_15();
        assert((14 * 15) % 17 == 6);
    } else if c == 16 {
        lemma_pairing_14_16();
        lemma_col_16();
        assert((14 * 16) % 17 == 3);
    } else if c == 18 {
        lemma_pairing_14_18();
        lemma_col_18();
        assert((14 * 18) % 17 == 14);
    } else if c == 19 {
        lemma_pairing_14_19();
        lemma_col_19();
        assert((14 * 19) % 17 == 11);
    } else if c == 20 {
        lemma_pairing_14_20();
        lemma_col_20();
        assert((14 * 20) % 17 == 8);
    } else if c == 21 {
        lemma_pairing_14_21();
        lemma_col_21();
        assert((14 * 21) % 17 == 5);
    } else if c == 22 {
        lemma_pairing_14_22();
        lemma_col_22();
        assert((14 * 22) % 17 == 2);
    } else if c == 23 {
        lemma_pairing_14_23();
        lemma_col_23();
        assert((14 * 23) % 17 == 16);
    } else if c == 24 {
        lemma_pairing_14_24();
        lemma_col_24();
        assert((14 * 24) % 17 == 13);
    } else if c == 25 {
        lemma_pairing_14_25();
        lemma_col_25();
        assert((14 * 25) % 17 == 10);
    } else if c == 26 {
        lemma_pairing_14_26();
        lemma_col_26();
        assert((14 * 26) % 17 == 7);
    } else if c == 27 {
        lemma_pairing_14_27();
        lemma_col_27();
        assert((14 * 27) % 17 == 4);
    } else if c == 28 {
        lemma_pairing_14_28();
        lemma_col_28();
        assert((14 * 28) % 17 == 1);
    } else if c == 29 {
        lemma_pairing_14_29();
        lemma_col_29();
        assert((14 * 29) % 17 == 15);
    } else if c == 30 {
        lemma_pairing_14_30();
        lemma_col_30();
        assert((14 * 30) % 17 == 12);
    } else if c == 31 {
        lemma_pairing_14_31();
        lemma_col_31();
        assert((14 * 31) % 17 == 9);
    } else if c == 32 {
        lemma_pairing_14_32();
        lemma_col_32();
        assert((14 * 32) % 17 == 6);
    } else if c == 33 {
        lemma_pairing_14_33();
        lemma_col_33();
        assert((14 * 33) % 17 == 3);
    }
}

/// `e(15G, c P) == e(G, H)^(15 c)` on the image of `H`'s multiples.
#[verifier::rlimit(80)]
#[verifier::spinoff_prover]
proof fn lemma_column_row_15(c: nat)
    requires
        1 <= c < 34,
        c != 17,
    ensures
        G1Point::sgenerator().smul(15) != G1Point::Infinity,
        smiller_loop(G1Point::sgenerator().smul(15), distort_point(col_point(c))) is Some,
        spairing_at(G1Point::sgenerator().smul(15), distort_point(col_point(c))) == e_gen().spow((15 * c) % 17),
{
    lemma_g1_multiple_15();
    lemma_powers();
    if c == 1 {
        lemma_pairing_15_1();
        lemma_col_1();
        assert((15 * 1) % 17 == 15);
    } else if c == 2 {
        lemma_pairing_15_2();
        lemma_col_2();
        assert((15 * 2) % 17 == 13);
    } else if c == 3 {
        lemma_pairing_15_3();
        lemma_col_3();
        assert((15 * 3) % 17 == 11);
    } else if c == 4 {
        lemma_pairing_15_4();
        lemma_col_4();
        assert((15 * 4) % 17 == 9);
    } else if c == 5 {
        lemma_pairing_15_5();
        lemma_col_5();
        assert((15 * 5) % 17 == 7);
    } else if c == 6 {
        lemma_pairing_15_6();
        lemma_col_6();
        assert((15 * 6) % 17 == 5);
    } else if c == 7 {
        lemma_pairing_15_7();
        lemma_col_7();
        assert((15 * 7) % 17 == 3);
    } else if c == 8 {
        lemma_pairing_15_8();
        lemma_col_8();
        assert((15 * 8) % 17 == 1);
    } else if c == 9 {
        lemma_pairing_15_9();
        lemma_col_9();
        assert((15 * 9) % 17 == 16);
    } else if c == 10 {
        lemma_pairing_15_10();
        lemma_col_10();
        assert((15 * 10) % 17 == 14);
    } else if c == 11 {
        lemma_pairing_15_11();
        lemma_col_11();
        assert((15 * 11) % 17 == 12);
    } else if c == 12 {
        lemma_pairing_15_12();
        lemma_col_12();
        assert((15 * 12) % 17 == 10);
    } else if c == 13 {
        lemma_pairing_15_13();
        lemma_col_13();
        assert((15 * 13) % 17 == 8);
    } else if c == 14 {
        lemma_pairing_15_14();
        lemma_col_14();
        assert((15 * 14) % 17 == 6);
    } else if c == 15 {
        lemma_pairing_15_15();
        lemma_col_15();
        assert((15 * 15) % 17 == 4);
    } else if c == 16 {
        lemma_pairing_15_16();
        lemma_col_16();
        assert((15 * 16) % 17 == 2);
    } else if c == 18 {
        lemma_pairing_15_18();
        lemma_col_18();
        assert((15 * 18) % 17 == 15);
    } else if c == 19 {
        lemma_pairing_15_19();
        lemma_col_19();
        assert((15 * 19) % 17 == 13);
    } else if c == 20 {
        lemma_pairing_15_20();
        lemma_col_20();
        assert((15 * 20) % 17 == 11);
    } else if c == 21 {
        lemma_pairing_15_21();
        lemma_col_21();
        assert((15 * 21) % 17 == 9);
    } else if c == 22 {
        lemma_pairing_15_22();
        lemma_col_22();
        assert((15 * 22) % 17 == 7);
    } else if c == 23 {
        lemma_pairing_15_23();
        lemma_col_23();
        assert((15 * 23) % 17 == 5);
    } else if c == 24 {
        lemma_pairing_15_24();
        lemma_col_24();
        assert((15 * 24) % 17 == 3);
    } else if c == 25 {
        lemma_pairing_15_25();
        lemma_col_25();
        assert((15 * 25) % 17 == 1);
    } else if c == 26 {
        lemma_pairing_15_26();
        lemma_col_26();
        assert((15 * 26) % 17 == 16);
    } else if c == 27 {
        lemma_pairing_15_27();
        lemma_col_27();
        assert((15 * 27) % 17 == 14);
    } else if c == 28 {
        lemma_pairing_15_28();
        lemma_col_28();
        assert((15 * 28) % 17 == 12);
    } else if c == 29 {
        lemma_pairing_15_29();
        lemma_col_29();
        assert((15 * 29) % 17 == 10);
    } else if c == 30 {
        lemma_pairing_15_30();
        lemma_col_30();
        assert((15 * 30) % 17 == 8);
    } else if c == 31 {
        lemma_pairing_15_31();
        lemma_col_31();
        assert((15 * 31) % 17 == 6);
    } else if c == 32 {
        lemma_pairing_15_32();
        lemma_col_32();
        assert((15 * 32) % 17 == 4);
    } else if c == 33 {
        lemma_pairing_15_33();
        lemma_col_33();
        assert((15 * 33) % 17 == 2);
    }
}

/// `e(16G, c P) == e(G, H)^(16 c)` on the image of `H`'s multiples.
#[verifier::rlimit(80)]
#[verifier::spinoff_prover]
proof fn lemma_column_row_16(c: nat)
    requires
        1 <= c < 34,
        c != 17,
    ensures
        G1Point::sgenerator().smul(16) != G1Point::Infinity,
        smiller_loop(G1Point::sgenerator().smul(16), distort_point(col_point(c))) is Some,
        spairing_at(G1Point::sgenerator().smul(16), distort_point(col_point(c))) == e_gen().spow((16 * c) % 17),
{
    lemma_g1_multiple_16();
    lemma_powers();
    if c == 1 {
        lemma_pairing_16_1();
        lemma_col_1();
        assert((16 * 1) % 17 == 16);
    } else if c == 2 {
        lemma_pairing_16_2();
        lemma_col_2();
        assert((16 * 2) % 17 == 15);
    } else if c == 3 {
        lemma_pairing_16_3();
        lemma_col_3();
        assert((16 * 3) % 17 == 14);
    } else if c == 4 {
        lemma_pairing_16_4();
        lemma_col_4();
        assert((16 * 4) % 17 == 13);
    } else if c == 5 {
        lemma_pairing_16_5();
        lemma_col_5();
        assert((16 * 5) % 17 == 12);
    } else if c == 6 {
        lemma_pairing_16_6();
        lemma_col_6();
        assert((16 * 6) % 17 == 11);
    } else if c == 7 {
        lemma_pairing_16_7();
        lemma_col_7();
        assert((16 * 7) % 17 == 10);
    } else if c == 8 {
        lemma_pairing_16_8();
        lemma_col_8();
        assert((16 * 8) % 17 == 9);
    } else if c == 9 {
        lemma_pairing_16_9();
        lemma_col_9();
        assert((16 * 9) % 17 == 8);
    } else if c == 10 {
        lemma_pairing_16_10();
        lemma_col_10();
        assert((16 * 10) % 17 == 7);
    } else if c == 11 {
        lemma_pairing_16_11();
        lemma_col_11();
        assert((16 * 11) % 17 == 6);
    } else if c == 12 {
        lemma_pairing_16_12();
        lemma_col_12();
        assert((16 * 12) % 17 == 5);
    } else if c == 13 {
        lemma_pairing_16_13();
        lemma_col_13();
        assert((16 * 13) % 17 == 4);
    } else if c == 14 {
        lemma_pairing_16_14();
        lemma_col_14();
        assert((16 * 14) % 17 == 3);
    } else if c == 15 {
        lemma_pairing_16_15();
        lemma_col_15();
        assert((16 * 15) % 17 == 2);
    } else if c == 16 {
        lemma_pairing_16_16();
        lemma_col_16();
        assert((16 * 16) % 17 == 1);
    } else if c == 18 {
        lemma_pairing_16_18();
        lemma_col_18();
        assert((16 * 18) % 17 == 16);
    } else if c == 19 {
        lemma_pairing_16_19();
        lemma_col_19();
        assert((16 * 19) % 17 == 15);
    } else if c == 20 {
        lemma_pairing_16_20();
        lemma_col_20();
        assert((16 * 20) % 17 == 14);
    } else if c == 21 {
        lemma_pairing_16_21();
        lemma_col_21();
        assert((16 * 21) % 17 == 13);
    } else if c == 22 {
        lemma_pairing_16_22();
        lemma_col_22();
        assert((16 * 22) % 17 == 12);
    } else if c == 23 {
        lemma_pairing_16_23();
        lemma_col_23();
        assert((16 * 23) % 17 == 11);
    } else if c == 24 {
        lemma_pairing_16_24();
        lemma_col_24();
        assert((16 * 24) % 17 == 10);
    } else if c == 25 {
        lemma_pairing_16_25();
        lemma_col_25();
        assert((16 * 25) % 17 == 9);
    } else if c == 26 {
        lemma_pairing_16_26();
        lemma_col_26();
        assert((16 * 26) % 17 == 8);
    } else if c == 27 {
        lemma_pairing_16_27();
        lemma_col_27();
        assert((16 * 27) % 17 == 7);
    } else if c == 28 {
        lemma_pairing_16_28();
        lemma_col_28();
        assert((16 * 28) % 17 == 6);
    } else if c == 29 {
        lemma_pairing_16_29();
        lemma_col_29();
        assert((16 * 29) % 17 == 5);
    } else if c == 30 {
        lemma_pairing_16_30();
        lemma_col_30();
        assert((16 * 30) % 17 == 4);
    } else if c == 31 {
        lemma_pairing_16_31();
        lemma_col_31();
        assert((16 * 31) % 17 == 3);
    } else if c == 32 {
        lemma_pairing_16_32();
        lemma_col_32();
        assert((16 * 32) % 17 == 2);
    } else if c == 33 {
        lemma_pairing_16_33();
        lemma_col_33();
        assert((16 * 33) % 17 == 1);
    }
}

/// The pairing of a multiple `a G` with a multiple `c P` of the image of `H`: defined, and
/// `e(G, H)^(a c)`.
pub(crate) proof fn lemma_pairing_column(a: nat, c: nat)
    requires
        1 <= a < 17,
        1 <= c < 34,
        c != 17,
    ensures
        G1Point::sgenerator().smul(a) != G1Point::Infinity,
        smiller_loop(G1Point::sgenerator().smul(a), distort_point(col_point(c))) is Some,
        spairing_at(G1Point::sgenerator().smul(a), distort_point(col_point(c))) == e_gen().spow((a * c) % 17),
{
    if a == 1 {
        lemma_column_row_1(c);
    } else if a == 2 {
        lemma_column_row_2(c);
    } else if a == 3 {
        lemma_column_row_3(c);
    } else if a == 4 {
        lemma_column_row_4(c);
    } else if a == 5 {
        lemma_column_row_5(c);
    } else if a == 6 {
        lemma_column_row_6(c);
    } else if a == 7 {
        lemma_column_row_7(c);
    } else if a == 8 {
        lemma_column_row_8(c);
    } else if a == 9 {
        lemma_column_row_9(c);
    } else if a == 10 {
        lemma_column_row_10(c);
    } else if a == 11 {
        lemma_column_row_11(c);
    } else if a == 12 {
        lemma_column_row_12(c);
    } else if a == 13 {
        lemma_column_row_13(c);
    } else if a == 14 {
        lemma_column_row_14(c);
    } else if a == 15 {
        lemma_column_row_15(c);
    } else if a == 16 {
        lemma_column_row_16(c);
    }
}

/// The multiples of `H` below 17 and their images.
pub(crate) proof fn lemma_h_multiple(b: nat)
    requires
        1 <= b < 17,
    ensures
        G2Point::sgenerator().smul(b) != G2Point::Infinity,
        G2Point::sgenerator().smul(b).canon(),
        sproject(G2Point::sgenerator().smul(b)) == col_point(b),
        sdistort(G2Point::sgenerator().smul(b)) == distort_point(col_point(b)),
{
    if b == 1 {
        crate::g2_multiples::lemma_multiple_1_value();
        lemma_distort_1();
        lemma_g2_pt_canon(0, 3, 9, 49);
    } else if b == 2 {
        crate::g2_multiples::lemma_multiple_2_value();
        lemma_distort_2();
        lemma_g2_pt_canon(38, 33, 61, 75);
    } else if b == 3 {
        crate::g2_multiples::lemma_multiple_3_value();
        lemma_distort_3();
        lemma_g2_pt_canon(19, 91, 88, 44);
    } else if b == 4 {
        crate::g2_multiples::lemma_multiple_4_value();
        lemma_distort_4();
        lemma_g2_pt_canon(5, 72, 16, 44);
    } else if b == 5 {
        crate::g2_multiples::lemma_multiple_5_value();
        lemma_distort_5();
        lemma_g2_pt_canon(69, 33, 71, 86);
    } else if b == 6 {
        crate::g2_multiples::lemma_multiple_6_value();
        lemma_distort_6();
        lemma_g2_pt_canon(57, 46, 17, 52);
    } else if b == 7 {
        crate::g2_multiples::lemma_multiple_7_value();
        lemma_distort_7();
        lemma_g2_pt_canon(81, 47, 93, 16);
    } else if b == 8 {
        crate::g2_multiples::lemma_multiple_8_value();
        lemma_distort_8();
        lemma_g2_pt_canon(18, 69, 94, 11);
    } else if b == 9 {
        crate::g2_multiples::lemma_multiple_9_value();
        lemma_distort_9();
        lemma_g2_pt_canon(83, 80, 84, 22);
    } else if b == 10 {
        crate::g2_multiples::lemma_multiple_10_value();
        lemma_distort_10();
        lemma_g2_pt_canon(65, 87, 47, 11);
    } else if b == 11 {
        crate::g2_multiples::lemma_multiple_11_value();
        lemma_distort_11();
        lemma_g2_pt_canon(61, 30, 84, 76);
    } else if b == 12 {
        crate::g2_multiples::lemma_multiple_12_value();
        lemma_distort_12();
        lemma_g2_pt_canon(29, 87, 70, 40);
    } else if b == 13 {
        crate::g2_multiples::lemma_multiple_13_value();
        lemma_distort_13();
        lemma_g2_pt_canon(4, 46, 3, 36);
    } else if b == 14 {
        crate::g2_multiples::lemma_multiple_14_value();
        lemma_distort_14();
        lemma_g2_pt_canon(42, 100, 84, 16);
    } else if b == 15 {
        crate::g2_multiples::lemma_multiple_15_value();
        lemma_distort_15();
        lemma_g2_pt_canon(71, 14, 32, 68);
    } else if b == 16 {
        crate::g2_multiples::lemma_multiple_16_value();
        lemma_distort_16();
        lemma_g2_pt_canon(93, 48, 94, 99);
    }
}

/// `-(a G) == (17 - a) G`.
pub(crate) proof fn lemma_g1_neg(a: nat)
    requires
        a < 17,
    ensures
        G1Point::sgenerator().smul(a).sneg() == G1Point::sgenerator().smul(((17 - a) % 17) as nat),
{
    if a == 0 {
        lemma_g1_multiple_0();
        lemma_g1_multiple_0();
    } else if a == 1 {
        lemma_g1_multiple_1();
        lemma_g1_multiple_16();
        lemma_g1_neg_at(1, 2);
    } else if a == 2 {
        lemma_g1_multiple_2();
        lemma_g1_multiple_15();
        lemma_g1_neg_at(68, 74);
    } else if a == 3 {
        lemma_g1_multiple_3();
        lemma_g1_multiple_14();
        lemma_g1_neg_at(26, 45);
    } else if a == 4 {
        lemma_g1_multiple_4();
        lemma_g1_multiple_13();
        lemma_g1_neg_at(65, 98);
    } else if a == 5 {
        lemma_g1_multiple_5();
        lemma_g1_multiple_12();
        lemma_g1_neg_at(12, 32);
    } else if a == 6 {
        lemma_g1_multiple_6();
        lemma_g1_multiple_11();
        lemma_g1_neg_at(32, 42);
    } else if a == 7 {
        lemma_g1_multiple_7();
        lemma_g1_multiple_10();
        lemma_g1_neg_at(91, 35);
    } else if a == 8 {
        lemma_g1_multiple_8();
        lemma_g1_multiple_9();
        lemma_g1_neg_at(18, 49);
    } else if a == 9 {
        lemma_g1_multiple_9();
        lemma_g1_multiple_8();
        lemma_g1_neg_at(18, 52);
    } else if a == 10 {
        lemma_g1_multiple_10();
        lemma_g1_multiple_7();
        lemma_g1_neg_at(91, 66);
    } else if a == 11 {
        lemma_g1_multiple_11();
        lemma_g1_multiple_6();
        lemma_g1_neg_at(32, 59);
    } else if a == 12 {
        lemma_g1_multiple_12();
        lemma_g1_multiple_5();
        lemma_g1_neg_at(12, 69);
    } else if a == 13 {
        lemma_g1_multiple_13();
        lemma_g1_multiple_4();
        lemma_g1_neg_at(65, 3);
    } else if a == 14 {
        lemma_g1_multiple_14();
        lemma_g1_multiple_3();
        lemma_g1_neg_at(26, 56);
    } else if a == 15 {
        lemma_g1_multiple_15();
        lemma_g1_multiple_2();
        lemma_g1_neg_at(68, 27);
    } else if a == 16 {
        lemma_g1_multiple_16();
        lemma_g1_multiple_1();
        lemma_g1_neg_at(1, 99);
    }
}

proof fn lemma_g1_sum_1_1()
    ensures
        g1p(1, 2).sadd(g1p(1, 2)) == g1p(68, 74),
{
    lemma_g1_double_at((1, 2), (0, 4, 76, 3, 26, 2, 68, 6, 74, -18));
    assert(g1p(1, 2).sadd(g1p(1, 2)) == g1p(1, 2).sdouble());
}

proof fn lemma_g1_sum_1_2()
    ensures
        g1p(1, 2).sadd(g1p(68, 74)) == g1p(26, 45),
{
    lemma_g1_add_at((1, 2), (68, 74), (0, 67, 98, 65, 87, 69, 26, 74, 45, -22));
}

proof fn lemma_g1_sum_1_3()
    ensures
        g1p(1, 2).sadd(g1p(26, 45)) == g1p(65, 98),
{
    lemma_g1_add_at((1, 2), (26, 45), (0, 25, 97, 24, 30, 41, 65, 8, 98, -20));
}

proof fn lemma_g1_sum_1_4()
    ensures
        g1p(1, 2).sadd(g1p(65, 98)) == g1p(12, 32),
{
    lemma_g1_add_at((1, 2), (65, 98), (0, 64, 30, 19, 52, 28, 12, 26, 32, -6));
}

proof fn lemma_g1_sum_1_5()
    ensures
        g1p(1, 2).sadd(g1p(12, 32)) == g1p(32, 42),
{
    lemma_g1_add_at((1, 2), (12, 32), (0, 11, 46, 5, 67, 13, 32, 44, 42, -21));
}

proof fn lemma_g1_sum_1_6()
    ensures
        g1p(1, 2).sadd(g1p(32, 42)) == g1p(91, 35),
{
    lemma_g1_add_at((1, 2), (32, 42), (0, 31, 88, 27, 86, 34, 91, 72, 35, -77));
}

proof fn lemma_g1_sum_1_7()
    ensures
        g1p(1, 2).sadd(g1p(91, 35)) == g1p(18, 49),
{
    lemma_g1_add_at((1, 2), (91, 35), (0, 90, 55, 49, 98, 17, 18, 94, 49, -17));
}

proof fn lemma_g1_sum_1_8()
    ensures
        g1p(1, 2).sadd(g1p(18, 49)) == g1p(18, 52),
{
    lemma_g1_add_at((1, 2), (18, 49), (0, 17, 6, 1, 80, 2, 18, 63, 52, -14));
}

proof fn lemma_g1_sum_1_9()
    ensures
        g1p(1, 2).sadd(g1p(18, 52)) == g1p(91, 66),
{
    lemma_g1_add_at((1, 2), (18, 52), (0, 17, 6, 1, 98, 2, 91, 94, 66, -88));
}

proof fn lemma_g1_sum_1_10()
    ensures
        g1p(1, 2).sadd(g1p(91, 66)) == g1p(32, 59),
{
    lemma_g1_add_at((1, 2), (91, 66), (0, 90, 55, 49, 86, 34, 32, 72, 59, -27));
}

proof fn lemma_g1_sum_1_11()
    ensures
        g1p(1, 2).sadd(g1p(32, 59)) == g1p(12, 69),
{
    lemma_g1_add_at((1, 2), (32, 59), (0, 31, 88, 27, 67, 49, 12, 44, 69, -8));
}

proof fn lemma_g1_sum_1_12()
    ensures
        g1p(1, 2).sadd(g1p(12, 69)) == g1p(65, 3),
{
    lemma_g1_add_at((1, 2), (12, 69), (0, 11, 46, 5, 52, 30, 65, 26, 3, -33));
}

proof fn lemma_g1_sum_1_13()
    ensures
        g1p(1, 2).sadd(g1p(65, 3)) == g1p(26, 56),
{
    lemma_g1_add_at((1, 2), (65, 3), (0, 64, 30, 19, 30, 0, 26, 8, 56, -8));
}

proof fn lemma_g1_sum_1_14()
    ensures
        g1p(1, 2).sadd(g1p(26, 56)) == g1p(68, 27),
{
    lemma_g1_add_at((1, 2), (26, 56), (0, 25, 97, 24, 87, 51, 68, 74, 27, -58));
}

proof fn lemma_g1_sum_1_15()
    ensures
        g1p(1, 2).sadd(g1p(68, 27)) == g1p(1, 99),
{
    lemma_g1_add_at((1, 2), (68, 27), (0, 67, 98, 65, 26, 24, 1, 6, 99, -1));
}

proof fn lemma_g1_sum_1_16()
    ensures
        g1p(1, 2).sadd(g1p(1, 99)) == G1Point::Infinity,
{
    lemma_g1_opposite(1, 2, 99);
}

proof fn lemma_g1_sum_2_1()
    ensures
        g1p(68, 74).sadd(g1p(1, 2)) == g1p(26, 45),
{
    lemma_g1_add_at((68, 74), (1, 2), (-1, 34, 3, 1, 87, -3, 26, 74, 45, 35));
}

proof fn lemma_g1_sum_2_2()
    ensures
        g1p(68, 74).sadd(g1p(68, 74)) == g1p(65, 98),
{
    lemma_g1_double_at((68, 74), (1, 47, 43, 20, 91, 5905, 65, 80, 98, 1));
    assert(g1p(68, 74).sadd(g1p(68, 74)) == g1p(68, 74).sdouble());
}

proof fn lemma_g1_sum_2_3()
    ensures
        g1p(68, 74).sadd(g1p(26, 45)) == g1p(12, 32),
{
    lemma_g1_add_at((68, 74), (26, 45), (-1, 59, 12, 7, 56, -4, 12, 30, 32, 30));
}

proof fn lemma_g1_sum_2_4()
    ensures
        g1p(68, 74).sadd(g1p(65, 98)) == g1p(32, 42),
{
    lemma_g1_add_at((68, 74), (65, 98), (-1, 98, 67, 65, 93, 15, 32, 84, 42, 32));
}

proof fn lemma_g1_sum_2_5()
    ensures
        g1p(68, 74).sadd(g1p(12, 32)) == g1p(91, 35),
{
    lemma_g1_add_at((68, 74), (12, 32), (-1, 45, 9, 4, 26, -4, 91, 5, 35, -7));
}

proof fn lemma_g1_sum_2_6()
    ensures
        g1p(68, 74).sadd(g1p(32, 42)) == g1p(18, 49),
{
    lemma_g1_add_at((68, 74), (32, 42), (-1, 65, 14, 9, 57, -5, 18, 31, 49, 27));
}

proof fn lemma_g1_sum_2_7()
    ensures
        g1p(68, 74).sadd(g1p(91, 35)) == g1p(18, 52),
{
    lemma_g1_add_at((68, 74), (91, 35), (0, 23, 22, 5, 51, -9, 18, 24, 52, 24));
}

proof fn lemma_g1_sum_2_8()
    ensures
        g1p(68, 74).sadd(g1p(18, 49)) == g1p(91, 66),
{
    lemma_g1_add_at((68, 74), (18, 49), (-1, 51, 2, 1, 51, -1, 91, 24, 66, -13));
}

proof fn lemma_g1_sum_2_9()
    ensures
        g1p(68, 74).sadd(g1p(18, 52)) == g1p(32, 59),
{
    lemma_g1_add_at((68, 74), (18, 52), (-1, 51, 2, 1, 57, -1, 32, 31, 59, 19));
}

proof fn lemma_g1_sum_2_10()
    ensures
        g1p(68, 74).sadd(g1p(91, 66)) == g1p(12, 69),
{
    lemma_g1_add_at((68, 74), (91, 66), (0, 23, 22, 5, 26, -2, 12, 5, 69, 13));
}

proof fn lemma_g1_sum_2_11()
    ensures
        g1p(68, 74).sadd(g1p(32, 59)) == g1p(65, 3),
{
    lemma_g1_add_at((68, 74), (32, 59), (-1, 65, 14, 9, 93, -3, 65, 84, 3, 2));
}

proof fn lemma_g1_sum_2_12()
    ensures
        g1p(68, 74).sadd(g1p(12, 69)) == g1p(26, 56),
{
    lemma_g1_add_at((68, 74), (12, 69), (-1, 45, 9, 4, 56, -1, 26, 30, 56, 22));
}

proof fn lemma_g1_sum_2_13()
    ensures
        g1p(68, 74).sadd(g1p(65, 3)) == g1p(68, 27),
{
    lemma_g1_add_at((68, 74), (65, 3), (-1, 98, 67, 65, 91, -48, 68, 80, 27, -1));
}

proof fn lemma_g1_sum_2_14()
    ensures
        g1p(68, 74).sadd(g1p(26, 56)) == g1p(1, 99),
{
    lemma_g1_add_at((68, 74), (26, 56), (-1, 59, 12, 7, 87, -3, 1, 74, 99, 56));
}

proof fn lemma_g1_sum_2_15()
    ensures
        g1p(68, 74).sadd(g1p(68, 27)) == G1Point::Infinity,
{
    lemma_g1_opposite(68, 74, 27);
}

proof fn lemma_g1_sum_2_16()
    ensures
        g1p(68, 74).sadd(g1p(1, 99)) == g1p(1, 2),
{
    lemma_g1_add_at((68, 74), (1, 99), (-1, 34, 3, 1, 75, 0, 1, 55, 2, 49));
}

proof fn lemma_g1_sum_3_1()
    ensures
        g1p(26, 45).sadd(g1p(1, 2)) == g1p(65, 98),
{
    lemma_g1_add_at((26, 45), (1, 2), (-1, 76, 4, 3, 30, -2, 65, 8, 98, -13));
}

proof fn lemma_g1_sum_3_2()
    ensures
        g1p(26, 45).sadd(g1p(68, 74)) == g1p(12, 32),
{
    lemma_g1_add_at((26, 45), (68, 74), (0, 42, 89, 37, 56, 25, 12, 30, 32, 7));
}

proof fn lemma_g1_sum_3_3()
    ensures
        g1p(26, 45).sadd(g1p(26, 45)) == g1p(32, 42),
{
    lemma_g1_double_at((26, 45), (0, 90, 55, 49, 36, 1104, 32, 12, 42, -3));
    assert(g1p(26, 45).sadd(g1p(26, 45)) == g1p(26, 45).sdouble());
}

proof fn lemma_g1_sum_3_4()
    ensures
        g1p(26, 45).sadd(g1p(65, 98)) == g1p(91, 35),
{
    lemma_g1_add_at((26, 45), (65, 98), (0, 39, 57, 22, 92, 29, 91, 82, 35, -60));
}

proof fn lemma_g1_sum_3_5()
    ensures
        g1p(26, 45).sadd(g1p(12, 32)) == g1p(18, 49),
{
    lemma_g1_add_at((26, 45), (12, 32), (-1, 87, 36, 31, 37, -5, 18, 13, 49, 2));
}

proof fn lemma_g1_sum_3_6()
    ensures
        g1p(26, 45).sadd(g1p(32, 42)) == g1p(18, 52),
{
    lemma_g1_add_at((26, 45), (32, 42), (0, 6, 17, 1, 50, -1, 18, 24, 52, 3));
}

proof fn lemma_g1_sum_3_7()
    ensures
        g1p(26, 45).sadd(g1p(91, 35)) == g1p(91, 66),
{
    lemma_g1_add_at((26, 45), (91, 35), (0, 65, 14, 9, 62, -2, 91, 36, 66, -41));
}

proof fn lemma_g1_sum_3_8()
    ensures
        g1p(26, 45).sadd(g1p(18, 49)) == g1p(32, 59),
{
    lemma_g1_add_at((26, 45), (18, 49), (-1, 93, 63, 58, 50, 2, 32, 24, 59, -4));
}

proof fn lemma_g1_sum_3_9()
    ensures
        g1p(26, 45).sadd(g1p(18, 52)) == g1p(12, 69),
{
    lemma_g1_add_at((26, 45), (18, 52), (-1, 93, 63, 58, 37, 4, 12, 13, 69, 4));
}

proof fn lemma_g1_sum_3_10()
    ensures
        g1p(26, 45).sadd(g1p(91, 66)) == g1p(65, 3),
{
    lemma_g1_add_at((26, 45), (91, 66), (0, 65, 14, 9, 92, 2, 65, 82, 3, -36));
}

proof fn lemma_g1_sum_3_11()
    ensures
        g1p(26, 45).sadd(g1p(32, 59)) == g1p(26, 56),
{
    lemma_g1_add_at((26, 45), (32, 59), (0, 6, 17, 1, 36, 2, 26, 12, 56, -1));
}

proof fn lemma_g1_sum_3_12()
    ensures
        g1p(26, 45).sadd(g1p(12, 69)) == g1p(68, 27),
{
    lemma_g1_add_at((26, 45), (12, 69), (-1, 87, 36, 31, 56, 8, 68, 30, 27, -24));
}

proof fn lemma_g1_sum_3_13()
    ensures
        g1p(26, 45).sadd(g1p(65, 3)) == g1p(1, 99),
{
    lemma_g1_add_at((26, 45), (65, 3), (0, 39, 57, 22, 30, -24, 1, 8, 99, 6));
}

proof fn lemma_g1_sum_3_14()
    ensures
        g1p(26, 45).sadd(g1p(26, 56)) == G1Point::Infinity,
{
    lemma_g1_opposite(26, 45, 56);
}

proof fn lemma_g1_sum_3_15()
    ensures
        g1p(26, 45).sadd(g1p(68, 27)) == g1p(1, 2),
{
    lemma_g1_add_at((26, 45), (68, 27), (0, 42, 89, 37, 14, -16, 1, 1, 2, 3));
}

proof fn lemma_g1_sum_3_16()
    ensures
        g1p(26, 45).sadd(g1p(1, 99)) == g1p(68, 74),
{
    lemma_g1_add_at((26, 45), (1, 99), (-1, 76, 4, 3, 14, 2, 68, 1, 74, -7));
}

proof fn lemma_g1_sum_4_1()
    ensures
        g1p(65, 98).sadd(g1p(1, 2)) == g1p(12, 32),
{
    lemma_g1_add_at((65, 98), (1, 2), (-1, 37, 71, 26, 52, -68, 12, 26, 32, 26));
}

proof fn lemma_g1_sum_4_2()
    ensures
        g1p(65, 98).sadd(g1p(68, 74)) == g1p(32, 42),
{
    lemma_g1_add_at((65, 98), (68, 74), (0, 3, 34, 1, 93, -9, 32, 84, 42, 29));
}

proof fn lemma_g1_sum_4_3()
    ensures
        g1p(65, 98).sadd(g1p(26, 45)) == g1p(91, 35),
{
    lemma_g1_add_at((65, 98), (26, 45), (-1, 62, 44, 27, 92, -24, 91, 82, 35, -25));
}

proof fn lemma_g1_sum_4_4()
    ensures
        g1p(65, 98).sadd(g1p(65, 98)) == g1p(18, 49),
{
    lemma_g1_double_at((65, 98), (1, 95, 84, 79, 59, 10541, 18, 33, 49, 26));
    assert(g1p(65, 98).sadd(g1p(65, 98)) == g1p(65, 98).sdouble());
}

proof fn lemma_g1_sum_4_5()
    ensures
        g1p(65, 98).sadd(g1p(12, 32)) == g1p(18, 52),
{
    lemma_g1_add_at((65, 98), (12, 32), (-1, 48, 40, 19, 87, -27, 18, 74, 52, 39));
}

proof fn lemma_g1_sum_4_6()
    ensures
        g1p(65, 98).sadd(g1p(32, 42)) == g1p(91, 66),
{
    lemma_g1_add_at((65, 98), (32, 42), (-1, 68, 52, 35, 17, -29, 91, 1, 66, -6));
}

proof fn lemma_g1_sum_4_7()
    ensures
        g1p(65, 98).sadd(g1p(91, 35)) == g1p(32, 59),
{
    lemma_g1_add_at((65, 98), (91, 35), (0, 26, 35, 9, 17, -22, 32, 1, 59, 4));
}

proof fn lemma_g1_sum_4_8()
    ensures
        g1p(65, 98).sadd(g1p(18, 49)) == g1p(12, 69),
{
    lemma_g1_add_at((65, 98), (18, 49), (-1, 54, 58, 31, 87, -29, 12, 74, 69, 44));
}

proof fn lemma_g1_sum_4_9()
    ensures
        g1p(65, 98).sadd(g1p(18, 52)) == g1p(65, 3),
{
    lemma_g1_add_at((65, 98), (18, 52), (-1, 54, 58, 31, 59, -27, 65, 33, 3, -1));
}

proof fn lemma_g1_sum_4_10()
    ensures
        g1p(65, 98).sadd(g1p(91, 66)) == g1p(26, 56),
{
    lemma_g1_add_at((65, 98), (91, 66), (0, 26, 35, 9, 92, -12, 26, 82, 56, 34));
}

proof fn lemma_g1_sum_4_11()
    ensures
        g1p(65, 98).sadd(g1p(32, 59)) == g1p(68, 27),
{
    lemma_g1_add_at((65, 98), (32, 59), (-1, 68, 52, 35, 93, -21, 68, 84, 27, -4));
}

proof fn lemma_g1_sum_4_12()
    ensures
        g1p(65, 98).sadd(g1p(12, 69)) == g1p(1, 99),
{
    lemma_g1_add_at((65, 98), (12, 69), (-1, 48, 40, 19, 52, -12, 1, 26, 99, 31));
}

proof fn lemma_g1_sum_4_13()
    ensures
        g1p(65, 98).sadd(g1p(65, 3)) == G1Point::Infinity,
{
    lemma_g1_opposite(65, 98, 3);
}

proof fn lemma_g1_sum_4_14()
    ensures
        g1p(65, 98).sadd(g1p(26, 56)) == g1p(1, 2),
{
    lemma_g1_add_at((65, 98), (26, 56), (-1, 62, 44, 27, 71, -19, 1, 49, 2, 44));
}

proof fn lemma_g1_sum_4_15()
    ensures
        g1p(65, 98).sadd(g1p(68, 27)) == g1p(68, 74),
{
    lemma_g1_add_at((65, 98), (68, 27), (0, 3, 34, 1, 10, -24, 68, -1, 74, -2));
}

proof fn lemma_g1_sum_4_16()
    ensures
        g1p(65, 98).sadd(g1p(1, 99)) == g1p(26, 45),
{
    lemma_g1_add_at((65, 98), (1, 99), (-1, 37, 71, 26, 71, 0, 26, 49, 45, 26));
}

proof fn lemma_g1_sum_5_1()
    ensures
        g1p(12, 32).sadd(g1p(1, 2)) == g1p(32, 42),
{
    lemma_g1_add_at((12, 32), (1, 2), (-1, 90, 55, 49, 67, -17, 32, 44, 42, -14));
}

proof fn lemma_g1_sum_5_2()
    ensures
        g1p(12, 32).sadd(g1p(68, 74)) == g1p(91, 35),
{
    lemma_g1_add_at((12, 32), (68, 74), (0, 56, 92, 51, 26, 38, 91, 5, 35, -21));
}

proof fn lemma_g1_sum_5_3()
    ensures
        g1p(12, 32).sadd(g1p(26, 45)) == g1p(18, 49),
{
    lemma_g1_add_at((12, 32), (26, 45), (0, 14, 65, 9, 37, 8, 18, 13, 49, -3));
}

proof fn lemma_g1_sum_5_4()
    ensures
        g1p(12, 32).sadd(g1p(65, 98)) == g1p(18, 52),
{
    lemma_g1_add_at((12, 32), (65, 98), (0, 53, 61, 32, 87, 39, 18, 74, 52, -6));
}

proof fn lemma_g1_sum_5_5()
    ensures
        g1p(12, 32).sadd(g1p(12, 32)) == g1p(91, 66),
{
    lemma_g1_double_at((12, 32), (0, 64, 30, 19, 32, 128, 91, 9, 66, -26));
    assert(g1p(12, 32).sadd(g1p(12, 32)) == g1p(12, 32).sdouble());
}

proof fn lemma_g1_sum_5_6()
    ensures
        g1p(12, 32).sadd(g1p(32, 42)) == g1p(32, 59),
{
    lemma_g1_add_at((12, 32), (32, 42), (0, 20, 96, 19, 51, 9, 32, 25, 59, -11));
}

proof fn lemma_g1_sum_5_7()
    ensures
        g1p(12, 32).sadd(g1p(91, 35)) == g1p(12, 69),
{
    lemma_g1_add_at((12, 32), (91, 35), (0, 79, 78, 61, 32, 2, 12, 9, 69, -1));
}

proof fn lemma_g1_sum_5_8()
    ensures
        g1p(12, 32).sadd(g1p(18, 49)) == g1p(65, 3),
{
    lemma_g1_add_at((12, 32), (18, 49), (0, 6, 17, 1, 87, 2, 65, 74, 3, -46));
}

proof fn lemma_g1_sum_5_9()
    ensures
        g1p(12, 32).sadd(g1p(18, 52)) == g1p(26, 56),
{
    lemma_g1_add_at((12, 32), (18, 52), (0, 6, 17, 1, 37, 3, 26, 13, 56, -6));
}

proof fn lemma_g1_sum_5_10()
    ensures
        g1p(12, 32).sadd(g1p(91, 66)) == g1p(68, 27),
{
    lemma_g1_add_at((12, 32), (91, 66), (0, 79, 78, 61, 26, 26, 68, 5, 27, -15));
}

proof fn lemma_g1_sum_5_11()
    ensures
        g1p(12, 32).sadd(g1p(32, 59)) == g1p(1, 99),
{
    lemma_g1_add_at((12, 32), (32, 59), (0, 20, 96, 19, 67, 25, 1, 44, 99, 6));
}

proof fn lemma_g1_sum_5_12()
    ensures
        g1p(12, 32).sadd(g1p(12, 69)) == G1Point::Infinity,
{
    lemma_g1_opposite(12, 32, 69);
}

proof fn lemma_g1_sum_5_13()
    ensures
        g1p(12, 32).sadd(g1p(65, 3)) == g1p(1, 2),
{
    lemma_g1_add_at((12, 32), (65, 3), (0, 53, 61, 32, 49, -18, 1, 23, 2, 5));
}

proof fn lemma_g1_sum_5_14()
    ensures
        g1p(12, 32).sadd(g1p(26, 56)) == g1p(68, 74),
{
    lemma_g1_add_at((12, 32), (26, 56), (0, 14, 65, 9, 45, 15, 68, 19, 74, -26));
}

proof fn lemma_g1_sum_5_15()
    ensures
        g1p(12, 32).sadd(g1p(68, 27)) == g1p(26, 45),
{
    lemma_g1_add_at((12, 32), (68, 27), (0, 56, 92, 51, 45, -5, 26, 19, 45, -7));
}

proof fn lemma_g1_sum_5_16()
    ensures
        g1p(12, 32).sadd(g1p(1, 99)) == g1p(65, 98),
{
    lemma_g1_add_at((12, 32), (1, 99), (-1, 90, 55, 49, 49, 36, 65, 23, 98, -27));
}

proof fn lemma_g1_sum_6_1()
    ensures
        g1p(32, 42).sadd(g1p(1, 2)) == g1p(91, 35),
{
    lemma_g1_add_at((32, 42), (1, 2), (-1, 70, 13, 9, 86, -6, 91, 72, 35, -51));
}

proof fn lemma_g1_sum_6_2()
    ensures
        g1p(32, 42).sadd(g1p(68, 74)) == g1p(18, 49),
{
    lemma_g1_add_at((32, 42), (68, 74), (0, 36, 87, 31, 57, 27, 18, 31, 49, 7));
}

proof fn lemma_g1_sum_6_3()
    ensures
        g1p(32, 42).sadd(g1p(26, 45)) == g1p(18, 52),
{
    lemma_g1_add_at((32, 42), (26, 45), (-1, 95, 84, 79, 50, 2, 18, 24, 52, 6));
}

proof fn lemma_g1_sum_6_4()
    ensures
        g1p(32, 42).sadd(g1p(65, 98)) == g1p(91, 66),
{
    lemma_g1_add_at((32, 42), (65, 98), (0, 33, 49, 16, 17, 27, 91, 1, 66, -11));
}

proof fn lemma_g1_sum_6_5()
    ensures
        g1p(32, 42).sadd(g1p(12, 32)) == g1p(32, 59),
{
    lemma_g1_add_at((32, 42), (12, 32), (-1, 81, 5, 4, 51, -1, 32, 25, 59, -1));
}

proof fn lemma_g1_sum_6_6()
    ensures
        g1p(32, 42).sadd(g1p(32, 42)) == g1p(12, 69),
{
    lemma_g1_double_at((32, 42), (0, 84, 95, 79, 51, 2889, 12, 25, 69, 9));
    assert(g1p(32, 42).sadd(g1p(32, 42)) == g1p(32, 42).sdouble());
}

proof fn lemma_g1_sum_6_7()
    ensures
        g1p(32, 42).sadd(g1p(91, 35)) == g1p(65, 3),
{
    lemma_g1_add_at((32, 42), (91, 35), (0, 59, 12, 7, 17, -1, 65, 1, 3, -6));
}

proof fn lemma_g1_sum_6_8()
    ensures
        g1p(32, 42).sadd(g1p(18, 49)) == g1p(26, 56),
{
    lemma_g1_add_at((32, 42), (18, 49), (-1, 87, 36, 31, 50, 2, 26, 24, 56, 2));
}

proof fn lemma_g1_sum_6_9()
    ensures
        g1p(32, 42).sadd(g1p(18, 52)) == g1p(68, 27),
{
    lemma_g1_add_at((32, 42), (18, 52), (-1, 87, 36, 31, 57, 3, 68, 31, 27, -21));
}

proof fn lemma_g1_sum_6_10()
    ensures
        g1p(32, 42).sadd(g1p(91, 66)) == g1p(1, 99),
{
    lemma_g1_add_at((32, 42), (91, 66), (0, 59, 12, 7, 86, 2, 1, 72, 99, 25));
}

proof fn lemma_g1_sum_6_11()
    ensures
        g1p(32, 42).sadd(g1p(32, 59)) == G1Point::Infinity,
{
    lemma_g1_opposite(32, 42, 59);
}

proof fn lemma_g1_sum_6_12()
    ensures
        g1p(32, 42).sadd(g1p(12, 69)) == g1p(1, 2),
{
    lemma_g1_add_at((32, 42), (12, 69), (-1, 81, 5, 4, 34, 1, 1, 11, 2, 10));
}

proof fn lemma_g1_sum_6_13()
    ensures
        g1p(32, 42).sadd(g1p(65, 3)) == g1p(68, 74),
{
    lemma_g1_add_at((32, 42), (65, 3), (0, 33, 49, 16, 8, -19, 68, -1, 74, -4));
}

proof fn lemma_g1_sum_6_14()
    ensures
        g1p(32, 42).sadd(g1p(26, 56)) == g1p(26, 45),
{
    lemma_g1_add_at((32, 42), (26, 56), (-1, 95, 84, 79, 65, 11, 26, 41, 45, 3));
}

proof fn lemma_g1_sum_6_15()
    ensures
        g1p(32, 42).sadd(g1p(68, 27)) == g1p(65, 98),
{
    lemma_g1_add_at((32, 42), (68, 27), (0, 36, 87, 31, 8, -13, 65, -1, 98, -4));
}

proof fn lemma_g1_sum_6_16()
    ensures
        g1p(32, 42).sadd(g1p(1, 99)) == g1p(12, 32),
{
    lemma_g1_add_at((32, 42), (1, 99), (-1, 70, 13, 9, 34, 7, 12, 11, 32, 6));
}

proof fn lemma_g1_sum_7_1()
    ensures
        g1p(91, 35).sadd(g1p(1, 2)) == g1p(18, 49),
{
    lemma_g1_add_at((91, 35), (1, 2), (-1, 11, 46, 5, 98, -16, 18, 94, 49, 70));
}

proof fn lemma_g1_sum_7_2()
    ensures
        g1p(91, 35).sadd(g1p(68, 74)) == g1p(18, 52),
{
    lemma_g1_add_at((91, 35), (68, 74), (-1, 78, 79, 61, 51, 30, 18, 24, 52, 36));
}

proof fn lemma_g1_sum_7_3()
    ensures
        g1p(91, 35).sadd(g1p(26, 45)) == g1p(91, 66),
{
    lemma_g1_add_at((91, 35), (26, 45), (-1, 36, 87, 31, 62, 8, 91, 36, 66, -1));
}

proof fn lemma_g1_sum_7_4()
    ensures
        g1p(91, 35).sadd(g1p(65, 98)) == g1p(32, 59),
{
    lemma_g1_add_at((91, 35), (65, 98), (-1, 75, 66, 49, 17, 41, 32, 1, 59, 9));
}

proof fn lemma_g1_sum_7_5()
    ensures
        g1p(91, 35).sadd(g1p(12, 32)) == g1p(12, 69),
{
    lemma_g1_add_at((91, 35), (12, 32), (-1, 22, 23, 5, 32, -1, 12, 9, 69, 24));
}

proof fn lemma_g1_sum_7_6()
    ensures
        g1p(91, 35).sadd(g1p(32, 42)) == g1p(65, 3),
{
    lemma_g1_add_at((91, 35), (32, 42), (-1, 42, 89, 37, 17, 6, 65, 1, 3, 4));
}

proof fn lemma_g1_sum_7_7()
    ensures
        g1p(91, 35).sadd(g1p(91, 35)) == g1p(26, 56),
{
    lemma_g1_double_at((91, 35), (0, 70, 13, 9, 62, 3197, 26, 36, 56, 39));
    assert(g1p(91, 35).sadd(g1p(91, 35)) == g1p(91, 35).sdouble());
}

proof fn lemma_g1_sum_7_8()
    ensures
        g1p(91, 35).sadd(g1p(18, 49)) == g1p(68, 27),
{
    lemma_g1_add_at((91, 35), (18, 49), (-1, 28, 83, 23, 51, 11, 68, 24, 27, 11));
}

proof fn lemma_g1_sum_7_9()
    ensures
        g1p(91, 35).sadd(g1p(18, 52)) == g1p(1, 99),
{
    lemma_g1_add_at((91, 35), (18, 52), (-1, 28, 83, 23, 98, 13, 1, 94, 99, 86));
}

proof fn lemma_g1_sum_7_10()
    ensures
        g1p(91, 35).sadd(g1p(91, 66)) == G1Point::Infinity,
{
    lemma_g1_opposite(91, 35, 66);
}

proof fn lemma_g1_sum_7_11()
    ensures
        g1p(91, 35).sadd(g1p(32, 59)) == g1p(1, 2),
{
    lemma_g1_add_at((91, 35), (32, 59), (-1, 42, 89, 37, 15, 21, 1, 1, 2, 13));
}

proof fn lemma_g1_sum_7_12()
    ensures
        g1p(91, 35).sadd(g1p(12, 69)) == g1p(68, 74),
{
    lemma_g1_add_at((91, 35), (12, 69), (-1, 22, 23, 5, 75, 7, 68, 54, 74, 16));
}

proof fn lemma_g1_sum_7_13()
    ensures
        g1p(91, 35).sadd(g1p(65, 3)) == g1p(26, 45),
{
    lemma_g1_add_at((91, 35), (65, 3), (-1, 75, 66, 49, 9, -21, 26, -1, 45, 5));
}

proof fn lemma_g1_sum_7_14()
    ensures
        g1p(91, 35).sadd(g1p(26, 56)) == g1p(65, 98),
{
    lemma_g1_add_at((91, 35), (26, 56), (-1, 36, 87, 31, 9, 18, 65, -1, 98, 1));
}

proof fn lemma_g1_sum_7_15()
    ensures
        g1p(91, 35).sadd(g1p(68, 27)) == g1p(12, 32),
{
    lemma_g1_add_at((91, 35), (68, 27), (-1, 78, 79, 61, 75, -7, 12, 54, 32, 58));
}

proof fn lemma_g1_sum_7_16()
    ensures
        g1p(91, 35).sadd(g1p(1, 99)) == g1p(32, 42),
{
    lemma_g1_add_at((91, 35), (1, 99), (-1, 11, 46, 5, 15, 29, 32, 1, 42, 8));
}

proof fn lemma_g1_sum_8_1()
    ensures
        g1p(18, 49).sadd(g1p(1, 2)) == g1p(18, 52),
{
    lemma_g1_add_at((18, 49), (1, 2), (-1, 84, 95, 79, 80, -45, 18, 63, 52, -1));
}

proof fn lemma_g1_sum_8_2()
    ensures
        g1p(18, 49).sadd(g1p(68, 74)) == g1p(91, 66),
{
    lemma_g1_add_at((18, 49), (68, 74), (0, 50, 99, 49, 51, 24, 91, 24, 66, -38));
}

proof fn lemma_g1_sum_8_3()
    ensures
        g1p(18, 49).sadd(g1p(26, 45)) == g1p(32, 59),
{
    lemma_g1_add_at((18, 49), (26, 45), (0, 8, 38, 3, 50, -2, 32, 24, 59, -8));
}

proof fn lemma_g1_sum_8_4()
    ensures
        g1p(18, 49).sadd(g1p(65, 98)) == g1p(12, 69),
{
    lemma_g1_add_at((18, 49), (65, 98), (0, 47, 43, 20, 87, 20, 12, 74, 69, 4));
}

proof fn lemma_g1_sum_8_5()
    ensures
        g1p(18, 49).sadd(g1p(12, 32)) == g1p(65, 3),
{
    lemma_g1_add_at((18, 49), (12, 32), (-1, 95, 84, 79, 87, -15, 65, 74, 3, -41));
}

proof fn lemma_g1_sum_8_6()
    ensures
        g1p(18, 49).sadd(g1p(32, 42)) == g1p(26, 56),
{
    lemma_g1_add_at((18, 49), (32, 42), (0, 14, 65, 9, 50, -5, 26, 24, 56, -5));
}

proof fn lemma_g1_sum_8_7()
    ensures
        g1p(18, 49).sadd(g1p(91, 35)) == g1p(68, 27),
{
    lemma_g1_add_at((18, 49), (91, 35), (0, 73, 18, 13, 51, -3, 68, 24, 27, -26));
}

proof fn lemma_g1_sum_8_8()
    ensures
        g1p(18, 49).sadd(g1p(18, 49)) == g1p(1, 99),
{
    lemma_g1_double_at((18, 49), (0, 98, 67, 65, 80, 644, 1, 63, 99, 12));
    assert(g1p(18, 49).sadd(g1p(18, 49)) == g1p(18, 49).sdouble());
}

proof fn lemma_g1_sum_8_9()
    ensures
        g1p(18, 49).sadd(g1p(18, 52)) == G1Point::Infinity,
{
    lemma_g1_opposite(18, 49, 52);
}

proof fn lemma_g1_sum_8_10()
    ensures
        g1p(18, 49).sadd(g1p(91, 66)) == g1p(1, 2),
{
    lemma_g1_add_at((18, 49), (91, 66), (0, 73, 18, 13, 3, 3, 1, -1, 2, 0));
}

proof fn lemma_g1_sum_8_11()
    ensures
        g1p(18, 49).sadd(g1p(32, 59)) == g1p(68, 74),
{
    lemma_g1_add_at((18, 49), (32, 59), (0, 14, 65, 9, 44, 6, 68, 18, 74, -23));
}

proof fn lemma_g1_sum_8_12()
    ensures
        g1p(18, 49).sadd(g1p(12, 69)) == g1p(26, 45),
{
    lemma_g1_add_at((18, 49), (12, 69), (-1, 95, 84, 79, 64, 16, 26, 40, 45, -6));
}

proof fn lemma_g1_sum_8_13()
    ensures
        g1p(18, 49).sadd(g1p(65, 3)) == g1p(65, 98),
{
    lemma_g1_add_at((18, 49), (65, 3), (0, 47, 43, 20, 42, -20, 65, 16, 98, -21));
}

proof fn lemma_g1_sum_8_14()
    ensures
        g1p(18, 49).sadd(g1p(26, 56)) == g1p(12, 32),
{
    lemma_g1_add_at((18, 49), (26, 56), (0, 8, 38, 3, 64, 2, 12, 40, 32, 3));
}

proof fn lemma_g1_sum_8_15()
    ensures
        g1p(18, 49).sadd(g1p(68, 27)) == g1p(32, 42),
{
    lemma_g1_add_at((18, 49), (68, 27), (0, 50, 99, 49, 44, -22, 32, 18, 42, -7));
}

proof fn lemma_g1_sum_8_16()
    ensures
        g1p(18, 49).sadd(g1p(1, 99)) == g1p(91, 35),
{
    lemma_g1_add_at((18, 49), (1, 99), (-1, 84, 95, 79, 3, 47, 91, -1, 35, -3));
}

proof fn lemma_g1_sum_9_1()
    ensures
        g1p(18, 52).sadd(g1p(1, 2)) == g1p(91, 66),
{
    lemma_g1_add_at((18, 52), (1, 2), (-1, 84, 95, 79, 98, -48, 91, 94, 66, -72));
}

proof fn lemma_g1_sum_9_2()
    ensures
        g1p(18, 52).sadd(g1p(68, 74)) == g1p(32, 59),
{
    lemma_g1_add_at((18, 52), (68, 74), (0, 50, 99, 49, 57, 21, 32, 31, 59, -9));
}

proof fn lemma_g1_sum_9_3()
    ensures
        g1p(18, 52).sadd(g1p(26, 45)) == g1p(12, 69),
{
    lemma_g1_add_at((18, 52), (26, 45), (0, 8, 38, 3, 37, -3, 12, 13, 69, 1));
}

proof fn lemma_g1_sum_9_4()
    ensures
        g1p(18, 52).sadd(g1p(65, 98)) == g1p(65, 3),
{
    lemma_g1_add_at((18, 52), (65, 98), (0, 47, 43, 20, 59, 19, 65, 33, 3, -28));
}

proof fn lemma_g1_sum_9_5()
    ensures
        g1p(18, 52).sadd(g1p(12, 32)) == g1p(26, 56),
{
    lemma_g1_add_at((18, 52), (12, 32), (-1, 95, 84, 79, 37, -17, 26, 13, 56, -4));
}

proof fn lemma_g1_sum_9_6()
    ensures
        g1p(18, 52).sadd(g1p(32, 42)) == g1p(68, 27),
{
    lemma_g1_add_at((18, 52), (32, 42), (0, 14, 65, 9, 57, -7, 68, 31, 27, -29));
}

proof fn lemma_g1_sum_9_7()
    ensures
        g1p(18, 52).sadd(g1p(91, 35)) == g1p(1, 99),
{
    lemma_g1_add_at((18, 52), (91, 35), (0, 73, 18, 13, 98, -4, 1, 94, 99, 15));
}

proof fn lemma_g1_sum_9_8()
    ensures
        g1p(18, 52).sadd(g1p(18, 49)) == G1Point::Infinity,
{
    lemma_g1_opposite(18, 52, 49);
}

proof fn lemma_g1_sum_9_9()
    ensures
        g1p(18, 52).sadd(g1p(18, 52)) == g1p(1, 2),
{
    lemma_g1_double_at((18, 52), (1, 3, 34, 1, 21, 327, 1, 4, 2, 3));
    assert(g1p(18, 52).sadd(g1p(18, 52)) == g1p(18, 52).sdouble());
}

proof fn lemma_g1_sum_9_10()
    ensures
        g1p(18, 52).sadd(g1p(91, 66)) == g1p(68, 74),
{
    lemma_g1_add_at((18, 52), (91, 66), (0, 73, 18, 13, 50, 2, 68, 23, 74, -26));
}

proof fn lemma_g1_sum_9_11()
    ensures
        g1p(18, 52).sadd(g1p(32, 59)) == g1p(26, 45),
{
    lemma_g1_add_at((18, 52), (32, 59), (0, 14, 65, 9, 51, 4, 26, 25, 45, -5));
}

proof fn lemma_g1_sum_9_12()
    ensures
        g1p(18, 52).sadd(g1p(12, 69)) == g1p(65, 98),
{
    lemma_g1_add_at((18, 52), (12, 69), (-1, 95, 84, 79, 14, 14, 65, 1, 98, -8));
}

proof fn lemma_g1_sum_9_13()
    ensures
        g1p(18, 52).sadd(g1p(65, 3)) == g1p(12, 32),
{
    lemma_g1_add_at((18, 52), (65, 3), (0, 47, 43, 20, 14, -21, 12, 1, 32, 0));
}

proof fn lemma_g1_sum_9_14()
    ensures
        g1p(18, 52).sadd(g1p(26, 56)) == g1p(32, 42),
{
    lemma_g1_add_at((18, 52), (26, 56), (0, 8, 38, 3, 51, 1, 32, 25, 42, -8));
}

proof fn lemma_g1_sum_9_15()
    ensures
        g1p(18, 52).sadd(g1p(68, 27)) == g1p(91, 35),
{
    lemma_g1_add_at((18, 52), (68, 27), (0, 50, 99, 49, 50, -25, 91, 23, 35, -37));
}

proof fn lemma_g1_sum_9_16()
    ensures
        g1p(18, 52).sadd(g1p(1, 99)) == g1p(18, 49),
{
    lemma_g1_add_at((18, 52), (1, 99), (-1, 84, 95, 79, 21, 44, 18, 4, 49, -1));
}

proof fn lemma_g1_sum_10_1()
    ensures
        g1p(91, 66).sadd(g1p(1, 2)) == g1p(32, 59),
{
    lemma_g1_add_at((91, 66), (1, 2), (-1, 11, 46, 5, 86, -30, 32, 72, 59, 49));
}

proof fn lemma_g1_sum_10_2()
    ensures
        g1p(91, 66).sadd(g1p(68, 74)) == g1p(12, 69),
{
    lemma_g1_add_at((91, 66), (68, 74), (-1, 78, 79, 61, 26, 6, 12, 5, 69, 19));
}

proof fn lemma_g1_sum_10_3()
    ensures
        g1p(91, 66).sadd(g1p(26, 45)) == g1p(65, 3),
{
    lemma_g1_add_at((91, 66), (26, 45), (-1, 36, 87, 31, 92, -19, 65, 82, 3, 23));
}

proof fn lemma_g1_sum_10_4()
    ensures
        g1p(91, 66).sadd(g1p(65, 98)) == g1p(26, 56),
{
    lemma_g1_add_at((91, 66), (65, 98), (-1, 75, 66, 49, 92, 20, 26, 82, 56, 58));
}

proof fn lemma_g1_sum_10_5()
    ensures
        g1p(91, 66).sadd(g1p(12, 32)) == g1p(68, 27),
{
    lemma_g1_add_at((91, 66), (12, 32), (-1, 22, 23, 5, 26, -8, 68, 5, 27, 5));
}

proof fn lemma_g1_sum_10_6()
    ensures
        g1p(91, 66).sadd(g1p(32, 42)) == g1p(1, 99),
{
    lemma_g1_add_at((91, 66), (32, 42), (-1, 42, 89, 37, 86, -22, 1, 72, 99, 75));
}

proof fn lemma_g1_sum_10_7()
    ensures
        g1p(91, 66).sadd(g1p(91, 35)) == G1Point::Infinity,
{
    lemma_g1_opposite(91, 66, 35);
}

proof fn lemma_g1_sum_10_8()
    ensures
        g1p(91, 66).sadd(g1p(18, 49)) == g1p(1, 2),
{
    lemma_g1_add_at((91, 66), (18, 49), (-1, 28, 83, 23, 3, -14, 1, -1, 2, 2));
}

proof fn lemma_g1_sum_10_9()
    ensures
        g1p(91, 66).sadd(g1p(18, 52)) == g1p(68, 74),
{
    lemma_g1_add_at((91, 66), (18, 52), (-1, 28, 83, 23, 50, -12, 68, 23, 74, 10));
}

proof fn lemma_g1_sum_10_10()
    ensures
        g1p(91, 66).sadd(g1p(91, 66)) == g1p(26, 45),
{
    lemma_g1_double_at((91, 66), (1, 31, 88, 27, 39, 21645, 26, 13, 45, 24));
    assert(g1p(91, 66).sadd(g1p(91, 66)) == g1p(91, 66).sdouble());
}

proof fn lemma_g1_sum_10_11()
    ensures
        g1p(91, 66).sadd(g1p(32, 59)) == g1p(65, 98),
{
    lemma_g1_add_at((91, 66), (32, 59), (-1, 42, 89, 37, 84, -7, 65, 68, 98, 20));
}

proof fn lemma_g1_sum_10_12()
    ensures
        g1p(91, 66).sadd(g1p(12, 69)) == g1p(12, 32),
{
    lemma_g1_add_at((91, 66), (12, 69), (-1, 22, 23, 5, 69, 0, 12, 46, 32, 53));
}

proof fn lemma_g1_sum_10_13()
    ensures
        g1p(91, 66).sadd(g1p(65, 3)) == g1p(32, 42),
{
    lemma_g1_add_at((91, 66), (65, 3), (-1, 75, 66, 49, 84, -42, 32, 68, 42, 48));
}

proof fn lemma_g1_sum_10_14()
    ensures
        g1p(91, 66).sadd(g1p(26, 56)) == g1p(91, 35),
{
    lemma_g1_add_at((91, 66), (26, 56), (-1, 36, 87, 31, 39, -9, 91, 13, 35, -1));
}

proof fn lemma_g1_sum_10_15()
    ensures
        g1p(91, 66).sadd(g1p(68, 27)) == g1p(18, 49),
{
    lemma_g1_add_at((91, 66), (68, 27), (-1, 78, 79, 61, 50, -31, 18, 23, 49, 35));
}

proof fn lemma_g1_sum_10_16()
    ensures
        g1p(91, 66).sadd(g1p(1, 99)) == g1p(18, 52),
{
    lemma_g1_add_at((91, 66), (1, 99), (-1, 11, 46, 5, 3, 15, 18, -1, 52, 1));
}

proof fn lemma_g1_sum_11_1()
    ensures
        g1p(32, 59).sadd(g1p(1, 2)) == g1p(12, 69),
{
    lemma_g1_add_at((32, 59), (1, 2), (-1, 70, 13, 9, 67, -8, 12, 44, 69, 12));
}

proof fn lemma_g1_sum_11_2()
    ensures
        g1p(32, 59).sadd(g1p(68, 74)) == g1p(65, 3),
{
    lemma_g1_add_at((32, 59), (68, 74), (0, 36, 87, 31, 93, 12, 65, 84, 3, -31));
}

proof fn lemma_g1_sum_11_3()
    ensures
        g1p(32, 59).sadd(g1p(26, 45)) == g1p(26, 56),
{
    lemma_g1_add_at((32, 59), (26, 45), (-1, 95, 84, 79, 36, -12, 26, 12, 56, 1));
}

proof fn lemma_g1_sum_11_4()
    ensures
        g1p(32, 59).sadd(g1p(65, 98)) == g1p(68, 27),
{
    lemma_g1_add_at((32, 59), (65, 98), (0, 33, 49, 16, 93, 18, 68, 84, 27, -34));
}

proof fn lemma_g1_sum_11_5()
    ensures
        g1p(32, 59).sadd(g1p(12, 32)) == g1p(1, 99),
{
    lemma_g1_add_at((32, 59), (12, 32), (-1, 81, 5, 4, 67, -2, 1, 44, 99, 19));
}

proof fn lemma_g1_sum_11_6()
    ensures
        g1p(32, 59).sadd(g1p(32, 42)) == G1Point::Infinity,
{
    lemma_g1_opposite(32, 59, 42);
}

proof fn lemma_g1_sum_11_7()
    ensures
        g1p(32, 59).sadd(g1p(91, 35)) == g1p(1, 2),
{
    lemma_g1_add_at((32, 59), (91, 35), (0, 59, 12, 7, 15, -3, 1, 1, 2, 4));
}

proof fn lemma_g1_sum_11_8()
    ensures
        g1p(32, 59).sadd(g1p(18, 49)) == g1p(68, 74),
{
    lemma_g1_add_at((32, 59), (18, 49), (-1, 87, 36, 31, 44, -4, 68, 18, 74, -17));
}

proof fn lemma_g1_sum_11_9()
    ensures
        g1p(32, 59).sadd(g1p(18, 52)) == g1p(26, 45),
{
    lemma_g1_add_at((32, 59), (18, 52), (-1, 87, 36, 31, 51, -3, 26, 25, 45, 2));
}

proof fn lemma_g1_sum_11_10()
    ensures
        g1p(32, 59).sadd(g1p(91, 66)) == g1p(65, 98),
{
    lemma_g1_add_at((32, 59), (91, 66), (0, 59, 12, 7, 84, 0, 65, 68, 98, -29));
}

proof fn lemma_g1_sum_11_11()
    ensures
        g1p(32, 59).sadd(g1p(32, 59)) == g1p(12, 32),
{
    lemma_g1_double_at((32, 59), (1, 17, 6, 1, 50, 182, 12, 24, 32, 9));
    assert(g1p(32, 59).sadd(g1p(32, 59)) == g1p(32, 59).sdouble());
}

proof fn lemma_g1_sum_11_12()
    ensures
        g1p(32, 59).sadd(g1p(12, 69)) == g1p(32, 42),
{
    lemma_g1_add_at((32, 59), (12, 69), (-1, 81, 5, 4, 50, 0, 32, 24, 42, -1));
}

proof fn lemma_g1_sum_11_13()
    ensures
        g1p(32, 59).sadd(g1p(65, 3)) == g1p(91, 35),
{
    lemma_g1_add_at((32, 59), (65, 3), (0, 33, 49, 16, 84, -28, 91, 68, 35, -50));
}

proof fn lemma_g1_sum_11_14()
    ensures
        g1p(32, 59).sadd(g1p(26, 56)) == g1p(18, 49),
{
    lemma_g1_add_at((32, 59), (26, 56), (-1, 95, 84, 79, 51, -3, 18, 25, 49, 6));
}

proof fn lemma_g1_sum_11_15()
    ensures
        g1p(32, 59).sadd(g1p(68, 27)) == g1p(18, 52),
{
    lemma_g1_add_at((32, 59), (68, 27), (0, 36, 87, 31, 44, -28, 18, 18, 52, 5));
}

proof fn lemma_g1_sum_11_16()
    ensures
        g1p(32, 59).sadd(g1p(1, 99)) == g1p(91, 66),
{
    lemma_g1_add_at((32, 59), (1, 99), (-1, 70, 13, 9, 15, 5, 91, 1, 66, -10));
}

proof fn lemma_g1_sum_12_1()
    ensures
        g1p(12, 69).sadd(g1p(1, 2)) == g1p(65, 3),
{
    lemma_g1_add_at((12, 69), (1, 2), (-1, 90, 55, 49, 52, -37, 65, 26, 3, -28));
}

proof fn lemma_g1_sum_12_2()
    ensures
        g1p(12, 69).sadd(g1p(68, 74)) == g1p(26, 56),
{
    lemma_g1_add_at((12, 69), (68, 74), (0, 56, 92, 51, 56, 4, 26, 30, 56, -9));
}

proof fn lemma_g1_sum_12_3()
    ensures
        g1p(12, 69).sadd(g1p(26, 45)) == g1p(68, 27),
{
    lemma_g1_add_at((12, 69), (26, 45), (0, 14, 65, 9, 56, -16, 68, 30, 27, -32));
}

proof fn lemma_g1_sum_12_4()
    ensures
        g1p(12, 69).sadd(g1p(65, 98)) == g1p(1, 99),
{
    lemma_g1_add_at((12, 69), (65, 98), (0, 53, 61, 32, 52, 17, 1, 26, 99, 4));
}

proof fn lemma_g1_sum_12_5()
    ensures
        g1p(12, 69).sadd(g1p(12, 32)) == G1Point::Infinity,
{
    lemma_g1_opposite(12, 69, 32);
}

proof fn lemma_g1_sum_12_6()
    ensures
        g1p(12, 69).sadd(g1p(32, 42)) == g1p(1, 2),
{
    lemma_g1_add_at((12, 69), (32, 42), (0, 20, 96, 19, 34, -26, 1, 11, 2, 3));
}

proof fn lemma_g1_sum_12_7()
    ensures
        g1p(12, 69).sadd(g1p(91, 35)) == g1p(68, 74),
{
    lemma_g1_add_at((12, 69), (91, 35), (0, 79, 78, 61, 75, -27, 68, 54, 74, -43));
}

proof fn lemma_g1_sum_12_8()
    ensures
        g1p(12, 69).sadd(g1p(18, 49)) == g1p(26, 45),
{
    lemma_g1_add_at((12, 69), (18, 49), (0, 6, 17, 1, 64, -4, 26, 40, 45, -10));
}

proof fn lemma_g1_sum_12_9()
    ensures
        g1p(12, 69).sadd(g1p(18, 52)) == g1p(65, 98),
{
    lemma_g1_add_at((12, 69), (18, 52), (0, 6, 17, 1, 14, -3, 65, 1, 98, -9));
}

proof fn lemma_g1_sum_12_10()
    ensures
        g1p(12, 69).sadd(g1p(91, 66)) == g1p(12, 32),
{
    lemma_g1_add_at((12, 69), (91, 66), (0, 79, 78, 61, 69, -3, 12, 46, 32, -1));
}

proof fn lemma_g1_sum_12_11()
    ensures
        g1p(12, 69).sadd(g1p(32, 59)) == g1p(32, 42),
{
    lemma_g1_add_at((12, 69), (32, 59), (0, 20, 96, 19, 50, -10, 32, 24, 42, -11));
}

proof fn lemma_g1_sum_12_12()
    ensures
        g1p(12, 69).sadd(g1p(12, 69)) == g1p(91, 35),
{
    lemma_g1_double_at((12, 69), (1, 37, 71, 26, 69, 303, 91, 46, 35, -55));
    assert(g1p(12, 69).sadd(g1p(12, 69)) == g1p(12, 69).sdouble());
}

proof fn lemma_g1_sum_12_13()
    ensures
        g1p(12, 69).sadd(g1p(65, 3)) == g1p(18, 49),
{
    lemma_g1_add_at((12, 69), (65, 3), (0, 53, 61, 32, 14, -40, 18, 1, 49, -2));
}

proof fn lemma_g1_sum_12_14()
    ensures
        g1p(12, 69).sadd(g1p(26, 56)) == g1p(18, 52),
{
    lemma_g1_add_at((12, 69), (26, 56), (0, 14, 65, 9, 64, -9, 18, 40, 52, -5));
}

proof fn lemma_g1_sum_12_15()
    ensures
        g1p(12, 69).sadd(g1p(68, 27)) == g1p(91, 66),
{
    lemma_g1_add_at((12, 69), (68, 27), (0, 56, 92, 51, 75, -39, 91, 54, 66, -60));
}

proof fn lemma_g1_sum_12_16()
    ensures
        g1p(12, 69).sadd(g1p(1, 99)) == g1p(32, 59),
{
    lemma_g1_add_at((12, 69), (1, 99), (-1, 90, 55, 49, 34, 16, 32, 11, 59, -8));
}

proof fn lemma_g1_sum_13_1()
    ensures
        g1p(65, 3).sadd(g1p(1, 2)) == g1p(26, 56),
{
    lemma_g1_add_at((65, 3), (1, 2), (-1, 37, 71, 26, 30, -1, 26, 8, 56, 11));
}

proof fn lemma_g1_sum_13_2()
    ensures
        g1p(65, 3).sadd(g1p(68, 74)) == g1p(68, 27),
{
    lemma_g1_add_at((65, 3), (68, 74), (0, 3, 34, 1, 91, 23, 68, 80, 27, -3));
}

proof fn lemma_g1_sum_13_3()
    ensures
        g1p(65, 3).sadd(g1p(26, 45)) == g1p(1, 99),
{
    lemma_g1_add_at((65, 3), (26, 45), (-1, 62, 44, 27, 30, 18, 1, 8, 99, 18));
}

proof fn lemma_g1_sum_13_4()
    ensures
        g1p(65, 3).sadd(g1p(65, 98)) == G1Point::Infinity,
{
    lemma_g1_opposite(65, 3, 98);
}

proof fn lemma_g1_sum_13_5()
    ensures
        g1p(65, 3).sadd(g1p(12, 32)) == g1p(1, 2),
{
    lemma_g1_add_at((65, 3), (12, 32), (-1, 48, 40, 19, 49, 11, 1, 23, 2, 31));
}

proof fn lemma_g1_sum_13_6()
    ensures
        g1p(65, 3).sadd(g1p(32, 42)) == g1p(68, 74),
{
    lemma_g1_add_at((65, 3), (32, 42), (-1, 68, 52, 35, 8, 20, 68, -1, 74, -1));
}

proof fn lemma_g1_sum_13_7()
    ensures
        g1p(65, 3).sadd(g1p(91, 35)) == g1p(26, 45),
{
    lemma_g1_add_at((65, 3), (91, 35), (0, 26, 35, 9, 9, 11, 26, -1, 45, 3));
}

proof fn lemma_g1_sum_13_8()
    ensures
        g1p(65, 3).sadd(g1p(18, 49)) == g1p(65, 98),
{
    lemma_g1_add_at((65, 3), (18, 49), (-1, 54, 58, 31, 42, 26, 65, 16, 98, -1));
}

proof fn lemma_g1_sum_13_9()
    ensures
        g1p(65, 3).sadd(g1p(18, 52)) == g1p(12, 32),
{
    lemma_g1_add_at((65, 3), (18, 52), (-1, 54, 58, 31, 14, 28, 12, 1, 32, 7));
}

proof fn lemma_g1_sum_13_10()
    ensures
        g1p(65, 3).sadd(g1p(91, 66)) == g1p(32, 42),
{
    lemma_g1_add_at((65, 3), (91, 66), (0, 26, 35, 9, 84, 21, 32, 68, 42, 27));
}

proof fn lemma_g1_sum_13_11()
    ensures
        g1p(65, 3).sadd(g1p(32, 59)) == g1p(91, 35),
{
    lemma_g1_add_at((65, 3), (32, 59), (-1, 68, 52, 35, 84, 28, 91, 68, 35, -22));
}

proof fn lemma_g1_sum_13_12()
    ensures
        g1p(65, 3).sadd(g1p(12, 69)) == g1p(18, 49),
{
    lemma_g1_add_at((65, 3), (12, 69), (-1, 48, 40, 19, 14, 26, 18, 1, 49, 6));
}

proof fn lemma_g1_sum_13_13()
    ensures
        g1p(65, 3).sadd(g1p(65, 3)) == g1p(18, 52),
{
    lemma_g1_double_at((65, 3), (0, 6, 17, 1, 42, 2133, 18, 16, 52, 19));
    assert(g1p(65, 3).sadd(g1p(65, 3)) == g1p(65, 3).sdouble());
}

proof fn lemma_g1_sum_13_14()
    ensures
        g1p(65, 3).sadd(g1p(26, 56)) == g1p(91, 66),
{
    lemma_g1_add_at((65, 3), (26, 56), (-1, 62, 44, 27, 9, 23, 91, -1, 66, -3));
}

proof fn lemma_g1_sum_13_15()
    ensures
        g1p(65, 3).sadd(g1p(68, 27)) == g1p(32, 59),
{
    lemma_g1_add_at((65, 3), (68, 27), (0, 3, 34, 1, 8, 8, 32, -1, 59, 2));
}

proof fn lemma_g1_sum_13_16()
    ensures
        g1p(65, 3).sadd(g1p(1, 99)) == g1p(12, 69),
{
    lemma_g1_add_at((65, 3), (1, 99), (-1, 37, 71, 26, 49, 67, 12, 23, 69, 25));
}

proof fn lemma_g1_sum_14_1()
    ensures
        g1p(26, 56).sadd(g1p(1, 2)) == g1p(68, 27),
{
    lemma_g1_add_at((26, 56), (1, 2), (-1, 76, 4, 3, 87, -3, 68, 74, 27, -37));
}

proof fn lemma_g1_sum_14_2()
    ensures
        g1p(26, 56).sadd(g1p(68, 74)) == g1p(1, 99),
{
    lemma_g1_add_at((26, 56), (68, 74), (0, 42, 89, 37, 87, 15, 1, 74, 99, 20));
}

proof fn lemma_g1_sum_14_3()
    ensures
        g1p(26, 56).sadd(g1p(26, 45)) == G1Point::Infinity,
{
    lemma_g1_opposite(26, 56, 45);
}

proof fn lemma_g1_sum_14_4()
    ensures
        g1p(26, 56).sadd(g1p(65, 98)) == g1p(1, 2),
{
    lemma_g1_add_at((26, 56), (65, 98), (0, 39, 57, 22, 71, 23, 1, 49, 2, 17));
}

proof fn lemma_g1_sum_14_5()
    ensures
        g1p(26, 56).sadd(g1p(12, 32)) == g1p(68, 74),
{
    lemma_g1_add_at((26, 56), (12, 32), (-1, 87, 36, 31, 45, -9, 68, 19, 74, -20));
}

proof fn lemma_g1_sum_14_6()
    ensures
        g1p(26, 56).sadd(g1p(32, 42)) == g1p(26, 45),
{
    lemma_g1_add_at((26, 56), (32, 42), (0, 6, 17, 1, 65, -3, 26, 41, 45, -1));
}

proof fn lemma_g1_sum_14_7()
    ensures
        g1p(26, 56).sadd(g1p(91, 35)) == g1p(65, 98),
{
    lemma_g1_add_at((26, 56), (91, 35), (0, 65, 14, 9, 9, -3, 65, -1, 98, -5));
}

proof fn lemma_g1_sum_14_8()
    ensures
        g1p(26, 56).sadd(g1p(18, 49)) == g1p(12, 32),
{
    lemma_g1_add_at((26, 56), (18, 49), (-1, 93, 63, 58, 64, -5, 12, 40, 32, 8));
}

proof fn lemma_g1_sum_14_9()
    ensures
        g1p(26, 56).sadd(g1p(18, 52)) == g1p(32, 42),
{
    lemma_g1_add_at((26, 56), (18, 52), (-1, 93, 63, 58, 51, -3, 32, 25, 42, -4));
}

proof fn lemma_g1_sum_14_10()
    ensures
        g1p(26, 56).sadd(g1p(91, 66)) == g1p(91, 35),
{
    lemma_g1_add_at((26, 56), (91, 66), (0, 65, 14, 9, 39, 1, 91, 13, 35, -26));
}

proof fn lemma_g1_sum_14_11()
    ensures
        g1p(26, 56).sadd(g1p(32, 59)) == g1p(18, 49),
{
    lemma_g1_add_at((26, 56), (32, 59), (0, 6, 17, 1, 51, 0, 18, 25, 49, 3));
}

proof fn lemma_g1_sum_14_12()
    ensures
        g1p(26, 56).sadd(g1p(12, 69)) == g1p(18, 52),
{
    lemma_g1_add_at((26, 56), (12, 69), (-1, 87, 36, 31, 64, 4, 18, 40, 52, 4));
}

proof fn lemma_g1_sum_14_13()
    ensures
        g1p(26, 56).sadd(g1p(65, 3)) == g1p(91, 66),
{
    lemma_g1_add_at((26, 56), (65, 3), (0, 39, 57, 22, 9, -30, 91, -1, 66, -7));
}

proof fn lemma_g1_sum_14_14()
    ensures
        g1p(26, 56).sadd(g1p(26, 56)) == g1p(32, 59),
{
    lemma_g1_double_at((26, 56), (1, 11, 46, 5, 65, 923, 32, 41, 59, -5));
    assert(g1p(26, 56).sadd(g1p(26, 56)) == g1p(26, 56).sdouble());
}

proof fn lemma_g1_sum_14_15()
    ensures
        g1p(26, 56).sadd(g1p(68, 27)) == g1p(12, 69),
{
    lemma_g1_add_at((26, 56), (68, 27), (0, 42, 89, 37, 45, -26, 12, 19, 69, 5));
}

proof fn lemma_g1_sum_14_16()
    ensures
        g1p(26, 56).sadd(g1p(1, 99)) == g1p(65, 3),
{
    lemma_g1_add_at((26, 56), (1, 99), (-1, 76, 4, 3, 71, 1, 65, 49, 3, -28));
}

proof fn lemma_g1_sum_15_1()
    ensures
        g1p(68, 27).sadd(g1p(1, 2)) == g1p(1, 99),
{
    lemma_g1_add_at((68, 27), (1, 2), (-1, 34, 3, 1, 26, -1, 1, 6, 99, 16));
}

proof fn lemma_g1_sum_15_2()
    ensures
        g1p(68, 27).sadd(g1p(68, 74)) == G1Point::Infinity,
{
    lemma_g1_opposite(68, 27, 74);
}

proof fn lemma_g1_sum_15_3()
    ensures
        g1p(68, 27).sadd(g1p(26, 45)) == g1p(1, 2),
{
    lemma_g1_add_at((68, 27), (26, 45), (-1, 59, 12, 7, 14, 2, 1, 1, 2, 9));
}

proof fn lemma_g1_sum_15_4()
    ensures
        g1p(68, 27).sadd(g1p(65, 98)) == g1p(68, 74),
{
    lemma_g1_add_at((68, 27), (65, 98), (-1, 98, 67, 65, 10, 47, 68, -1, 74, -1));
}

proof fn lemma_g1_sum_15_5()
    ensures
        g1p(68, 27).sadd(g1p(12, 32)) == g1p(26, 45),
{
    lemma_g1_add_at((68, 27), (12, 32), (-1, 45, 9, 4, 45, 0, 26, 19, 45, 18));
}

proof fn lemma_g1_sum_15_6()
    ensures
        g1p(68, 27).sadd(g1p(32, 42)) == g1p(65, 98),
{
    lemma_g1_add_at((68, 27), (32, 42), (-1, 65, 14, 9, 8, 2, 65, -1, 98, -1));
}

proof fn lemma_g1_sum_15_7()
    ensures
        g1p(68, 27).sadd(g1p(91, 35)) == g1p(12, 32),
{
    lemma_g1_add_at((68, 27), (91, 35), (0, 23, 22, 5, 75, 1, 12, 54, 32, 41));
}

proof fn lemma_g1_sum_15_8()
    ensures
        g1p(68, 27).sadd(g1p(18, 49)) == g1p(32, 42),
{
    lemma_g1_add_at((68, 27), (18, 49), (-1, 51, 2, 1, 44, 0, 32, 18, 42, 15));
}

proof fn lemma_g1_sum_15_9()
    ensures
        g1p(68, 27).sadd(g1p(18, 52)) == g1p(91, 35),
{
    lemma_g1_add_at((68, 27), (18, 52), (-1, 51, 2, 1, 50, 0, 91, 23, 35, -12));
}

proof fn lemma_g1_sum_15_10()
    ensures
        g1p(68, 27).sadd(g1p(91, 66)) == g1p(18, 49),
{
    lemma_g1_add_at((68, 27), (91, 66), (0, 23, 22, 5, 50, 8, 18, 23, 49, 24));
}

proof fn lemma_g1_sum_15_11()
    ensures
        g1p(68, 27).sadd(g1p(32, 59)) == g1p(18, 52),
{
    lemma_g1_add_at((68, 27), (32, 59), (-1, 65, 14, 9, 44, 4, 18, 18, 52, 21));
}

proof fn lemma_g1_sum_15_12()
    ensures
        g1p(68, 27).sadd(g1p(12, 69)) == g1p(91, 66),
{
    lemma_g1_add_at((68, 27), (12, 69), (-1, 45, 9, 4, 75, 3, 91, 54, 66, -18));
}

proof fn lemma_g1_sum_15_13()
    ensures
        g1p(68, 27).sadd(g1p(65, 3)) == g1p(32, 59),
{
    lemma_g1_add_at((68, 27), (65, 3), (-1, 98, 67, 65, 8, -16, 32, -1, 59, 2));
}

proof fn lemma_g1_sum_15_14()
    ensures
        g1p(68, 27).sadd(g1p(26, 56)) == g1p(12, 69),
{
    lemma_g1_add_at((68, 27), (26, 56), (-1, 59, 12, 7, 45, 3, 12, 19, 69, 24));
}

proof fn lemma_g1_sum_15_15()
    ensures
        g1p(68, 27).sadd(g1p(68, 27)) == g1p(65, 3),
{
    lemma_g1_double_at((68, 27), (0, 54, 58, 31, 10, 7966, 65, -1, 3, 0));
    assert(g1p(68, 27).sadd(g1p(68, 27)) == g1p(68, 27).sdouble());
}

proof fn lemma_g1_sum_15_16()
    ensures
        g1p(68, 27).sadd(g1p(1, 99)) == g1p(26, 56),
{
    lemma_g1_add_at((68, 27), (1, 99), (-1, 34, 3, 1, 14, 2, 26, 1, 56, 5));
}

proof fn lemma_g1_sum_16_1()
    ensures
        g1p(1, 99).sadd(g1p(1, 2)) == G1Point::Infinity,
{
    lemma_g1_opposite(1, 99, 2);
}

proof fn lemma_g1_sum_16_2()
    ensures
        g1p(1, 99).sadd(g1p(68, 74)) == g1p(1, 2),
{
    lemma_g1_add_at((1, 99), (68, 74), (0, 67, 98, 65, 75, -25, 1, 55, 2, -1));
}

proof fn lemma_g1_sum_16_3()
    ensures
        g1p(1, 99).sadd(g1p(26, 45)) == g1p(68, 74),
{
    lemma_g1_add_at((1, 99), (26, 45), (0, 25, 97, 24, 14, -52, 68, 1, 74, -11));
}

proof fn lemma_g1_sum_16_4()
    ensures
        g1p(1, 99).sadd(g1p(65, 98)) == g1p(26, 45),
{
    lemma_g1_add_at((1, 99), (65, 98), (0, 64, 30, 19, 71, -1, 26, 49, 45, -19));
}

proof fn lemma_g1_sum_16_5()
    ensures
        g1p(1, 99).sadd(g1p(12, 32)) == g1p(65, 98),
{
    lemma_g1_add_at((1, 99), (12, 32), (0, 11, 46, 5, 49, -31, 65, 23, 98, -33));
}

proof fn lemma_g1_sum_16_6()
    ensures
        g1p(1, 99).sadd(g1p(32, 42)) == g1p(12, 32),
{
    lemma_g1_add_at((1, 99), (32, 42), (0, 31, 88, 27, 34, -50, 12, 11, 32, -5));
}

proof fn lemma_g1_sum_16_7()
    ensures
        g1p(1, 99).sadd(g1p(91, 35)) == g1p(32, 42),
{
    lemma_g1_add_at((1, 99), (91, 35), (0, 90, 55, 49, 15, -35, 32, 1, 42, -6));
}

proof fn lemma_g1_sum_16_8()
    ensures
        g1p(1, 99).sadd(g1p(18, 49)) == g1p(91, 35),
{
    lemma_g1_add_at((1, 99), (18, 49), (0, 17, 6, 1, 3, -3, 91, -1, 35, -4));
}

proof fn lemma_g1_sum_16_9()
    ensures
        g1p(1, 99).sadd(g1p(18, 52)) == g1p(18, 49),
{
    lemma_g1_add_at((1, 99), (18, 52), (0, 17, 6, 1, 21, -3, 18, 4, 49, -5));
}

proof fn lemma_g1_sum_16_10()
    ensures
        g1p(1, 99).sadd(g1p(91, 66)) == g1p(18, 52),
{
    lemma_g1_add_at((1, 99), (91, 66), (0, 90, 55, 49, 3, -18, 18, -1, 52, -2));
}

proof fn lemma_g1_sum_16_11()
    ensures
        g1p(1, 99).sadd(g1p(32, 59)) == g1p(91, 66),
{
    lemma_g1_add_at((1, 99), (32, 59), (0, 31, 88, 27, 15, -35, 91, 1, 66, -15));
}

proof fn lemma_g1_sum_16_12()
    ensures
        g1p(1, 99).sadd(g1p(12, 69)) == g1p(32, 59),
{
    lemma_g1_add_at((1, 99), (12, 69), (0, 11, 46, 5, 34, -14, 32, 11, 59, -12));
}

proof fn lemma_g1_sum_16_13()
    ensures
        g1p(1, 99).sadd(g1p(65, 3)) == g1p(12, 69),
{
    lemma_g1_add_at((1, 99), (65, 3), (0, 64, 30, 19, 49, -29, 12, 23, 69, -7));
}

proof fn lemma_g1_sum_16_14()
    ensures
        g1p(1, 99).sadd(g1p(26, 56)) == g1p(65, 3),
{
    lemma_g1_add_at((1, 99), (26, 56), (0, 25, 97, 24, 71, -42, 65, 49, 3, -46));
}

proof fn lemma_g1_sum_16_15()
    ensures
        g1p(1, 99).sadd(g1p(68, 27)) == g1p(26, 56),
{
    lemma_g1_add_at((1, 99), (68, 27), (0, 67, 98, 65, 14, -70, 26, 1, 56, -5));
}

proof fn lemma_g1_sum_16_16()
    ensures
        g1p(1, 99).sadd(g1p(1, 99)) == g1p(68, 27),
{
    lemma_g1_double_at((1, 99), (1, 97, 25, 24, 75, 0, 68, 55, 27, -51));
    assert(g1p(1, 99).sadd(g1p(1, 99)) == g1p(1, 99).sdouble());
}

proof fn lemma_g1_sum_row_0(b: nat)
    requires
        b < 17,
    ensures
        G1Point::sgenerator().smul(0).sadd(G1Point::sgenerator().smul(b)) == G1Point::sgenerator().smul((0 + b) % 17),
{
    lemma_g1_multiple_0();
    if b == 0 {
        lemma_g1_multiple_0();
        lemma_g1_multiple_0();
        assert((0 + 0) % 17 == 0);
    } else if b == 1 {
        lemma_g1_multiple_1();
        lemma_g1_multiple_1();
        assert((0 + 1) % 17 == 1);
    } else if b == 2 {
        lemma_g1_multiple_2();
        lemma_g1_multiple_2();
        assert((0 + 2) % 17 == 2);
    } else if b == 3 {
        lemma_g1_multiple_3();
        lemma_g1_multiple_3();
        assert((0 + 3) % 17 == 3);
    } else if b == 4 {
        lemma_g1_multiple_4();
        lemma_g1_multiple_4();
        assert((0 + 4) % 17 == 4);
    } else if b == 5 {
        lemma_g1_multiple_5();
        lemma_g1_multiple_5();
        assert((0 + 5) % 17 == 5);
    } else if b == 6 {
        lemma_g1_multiple_6();
        lemma_g1_multiple_6();
        assert((0 + 6) % 17 == 6);
    } else if b == 7 {
        lemma_g1_multiple_7();
        lemma_g1_multiple_7();
        assert((0 + 7) % 17 == 7);
    } else if b == 8 {
        lemma_g1_multiple_8();
        lemma_g1_multiple_8();
        assert((0 + 8) % 17 == 8);
    } else if b == 9 {
        lemma_g1_multiple_9();
        lemma_g1_multiple_9();
        assert((0 + 9) % 17 == 9);
    } else if b == 10 {
        lemma_g1_multiple_10();
        lemma_g1_multiple_10();
        assert((0 + 10) % 17 == 10);
    } else if b == 11 {
        lemma_g1_multiple_11();
        lemma_g1_multiple_11();
        assert((0 + 11) % 17 == 11);
    } else if b == 12 {
        lemma_g1_multiple_12();
        lemma_g1_multiple_12();
        assert((0 + 12) % 17 == 12);
    } else if b == 13 {
        lemma_g1_multiple_13();
        lemma_g1_multiple_13();
        assert((0 + 13) % 17 == 13);
    } else if b == 14 {
        lemma_g1_multiple_14();
        lemma_g1_multiple_14();
        assert((0 + 14) % 17 == 14);
    } else if b == 15 {
        lemma_g1_multiple_15();
        lemma_g1_multiple_15();
        assert((0 + 15) % 17 == 15);
    } else if b == 16 {
        lemma_g1_multiple_16();
        lemma_g1_multiple_16();
        assert((0 + 16) % 17 == 16);
    }
}

proof fn lemma_g1_sum_row_1(b: nat)
    requires
        b < 17,
    ensures
        G1Point::sgenerator().smul(1).sadd(G1Point::sgenerator().smul(b)) == G1Point::sgenerator().smul((1 + b) % 17),
{
    lemma_g1_multiple_1();
    if b == 0 {
        lemma_g1_multiple_0();
        lemma_g1_multiple_1();
        assert((1 + 0) % 17 == 1);
    } else if b == 1 {
        lemma_g1_multiple_1();
        lemma_g1_multiple_2();
        lemma_g1_sum_1_1();
        assert((1 + 1) % 17 == 2);
    } else if b == 2 {
        lemma_g1_multiple_2();
        lemma_g1_multiple_3();
        lemma_g1_sum_1_2();
        assert((1 + 2) % 17 == 3);
    } else if b == 3 {
        lemma_g1_multiple_3();
        lemma_g1_multiple_4();
        lemma_g1_sum_1_3();
        assert((1 + 3) % 17 == 4);
    } else if b == 4 {
        lemma_g1_multiple_4();
        lemma_g1_multiple_5();
        lemma_g1_sum_1_4();
        assert((1 + 4) % 17 == 5);
    } else if b == 5 {
        lemma_g1_multiple_5();
        lemma_g1_multiple_6();
        lemma_g1_sum_1_5();
        assert((1 + 5) % 17 == 6);
    } else if b == 6 {
        lemma_g1_multiple_6();
        lemma_g1_multiple_7();
        lemma_g1_sum_1_6();
        assert((1 + 6) % 17 == 7);
    } else if b == 7 {
        lemma_g1_multiple_7();
        lemma_g1_multiple_8();
        lemma_g1_sum_1_7();
        assert((1 + 7) % 17 == 8);
    } else if b == 8 {
        lemma_g1_multiple_8();
        lemma_g1_multiple_9();
        lemma_g1_sum_1_8();
        assert((1 + 8) % 17 == 9);
    } else if b == 9 {
        lemma_g1_multiple_9();
        lemma_g1_multiple_10();
        lemma_g1_sum_1_9();
        assert((1 + 9) % 17 == 10);
    } else if b == 10 {
        lemma_g1_multiple_10();
        lemma_g1_multiple_11();
        lemma_g1_sum_1_10();
        assert((1 + 10) % 17 == 11);
    } else if b == 11 {
        lemma_g1_multiple_11();
        lemma_g1_multiple_12();
        lemma_g1_sum_1_11();
        assert((1 + 11) % 17 == 12);
    } else if b == 12 {
        lemma_g1_multiple_12();
        lemma_g1_multiple_13();
        lemma_g1_sum_1_12();
        assert((1 + 12) % 17 == 13);
    } else if b == 13 {
        lemma_g1_multiple_13();
        lemma_g1_multiple_14();
        lemma_g1_sum_1_13();
        assert((1 + 13) % 17 == 14);
    } else if b == 14 {
        lemma_g1_multiple_14();
        lemma_g1_multiple_15();
        lemma_g1_sum_1_14();
        assert((1 + 14) % 17 == 15);
    } else if b == 15 {
        lemma_g1_multiple_15();
        lemma_g1_multiple_16();
        lemma_g1_sum_1_15();
        assert((1 + 15) % 17 == 16);
    } else if b == 16 {
        lemma_g1_multiple_16();
        lemma_g1_multiple_0();
        lemma_g1_sum_1_16();
        assert((1 + 16) % 17 == 0);
    }
}

proof fn lemma_g1_sum_row_2(b: nat)
    requires
        b < 17,
    ensures
        G1Point::sgenerator().smul(2).sadd(G1Point::sgenerator().smul(b)) == G1Point::sgenerator().smul((2 + b) % 17),
{
    lemma_g1_multiple_2();
    if b == 0 {
        lemma_g1_multiple_0();
        lemma_g1_multiple_2();
        assert((2 + 0) % 17 == 2);
    } else if b == 1 {
        lemma_g1_multiple_1();
        lemma_g1_multiple_3();
        lemma_g1_sum_2_1();
        assert((2 + 1) % 17 == 3);
    } else if b == 2 {
        lemma_g1_multiple_2();
        lemma_g1_multiple_4();
        lemma_g1_sum_2_2();
        assert((2 + 2) % 17 == 4);
    } else if b == 3 {
        lemma_g1_multiple_3();
        lemma_g1_multiple_5();
        lemma_g1_sum_2_3();
        assert((2 + 3) % 17 == 5);
    } else if b == 4 {
        lemma_g1_multiple_4();
        lemma_g1_multiple_6();
        lemma_g1_sum_2_4();
        assert((2 + 4) % 17 == 6);
    } else if b == 5 {
        lemma_g1_multiple_5();
        lemma_g1_multiple_7();
        lemma_g1_sum_2_5();
        assert((2 + 5) % 17 == 7);
    } else if b == 6 {
        lemma_g1_multiple_6();
        lemma_g1_multiple_8();
        lemma_g1_sum_2_6();
        assert((2 + 6) % 17 == 8);
    } else if b == 7 {
        lemma_g1_multiple_7();
        lemma_g1_multiple_9();
        lemma_g1_sum_2_7();
        assert((2 + 7) % 17 == 9);
    } else if b == 8 {
        lemma_g1_multiple_8();
        lemma_g1_multiple_10();
        lemma_g1_sum_2_8();
        assert((2 + 8) % 17 == 10);
    } else if b == 9 {
        lemma_g1_multiple_9();
        lemma_g1_multiple_11();
        lemma_g1_sum_2_9();
        assert((2 + 9) % 17 == 11);
    } else if b == 10 {
        lemma_g1_multiple_10();
        lemma_g1_multiple_12();
        lemma_g1_sum_2_10();
        assert((2 + 10) % 17 == 12);
    } else if b == 11 {
        lemma_g1_multiple_11();
        lemma_g1_multiple_13();
        lemma_g1_sum_2_11();
        assert((2 + 11) % 17 == 13);
    } else if b == 12 {
        lemma_g1_multiple_12();
        lemma_g1_multiple_14();
        lemma_g1_sum_2_12();
        assert((2 + 12) % 17 == 14);
    } else if b == 13 {
        lemma_g1_multiple_13();
        lemma_g1_multiple_15();
        lemma_g1_sum_2_13();
        assert((2 + 13) % 17 == 15);
    } else if b == 14 {
        lemma_g1_multiple_14();
        lemma_g1_multiple_16();
        lemma_g1_sum_2_14();
        assert((2 + 14) % 17 == 16);
    } else if b == 15 {
        lemma_g1_multiple_15();
        lemma_g1_multiple_0();
        lemma_g1_sum_2_15();
        assert((2 + 15) % 17 == 0);
    } else if b == 16 {
        lemma_g1_multiple_16();
        lemma_g1_multiple_1();
        lemma_g1_sum_2_16();
        assert((2 + 16) % 17 == 1);
    }
}

proof fn lemma_g1_sum_row_3(b: nat)
    requires
        b < 17,
    ensures
        G1Point::sgenerator().smul(3).sadd(G1Point::sgenerator().smul(b)) == G1Point::sgenerator().smul((3 + b) % 17),
{
    lemma_g1_multiple_3();
    if b == 0 {
        lemma_g1_multiple_0();
        lemma_g1_multiple_3();
        assert((3 + 0) % 17 == 3);
    } else if b == 1 {
        lemma_g1_multiple_1();
        lemma_g1_multiple_4();
        lemma_g1_sum_3_1();
        assert((3 + 1) % 17 == 4);
    } else if b == 2 {
        lemma_g1_multiple_2();
        lemma_g1_multiple_5();
        lemma_g1_sum_3_2();
        assert((3 + 2) % 17 == 5);
    } else if b == 3 {
        lemma_g1_multiple_3();
        lemma_g1_multiple_6();
        lemma_g1_sum_3_3();
        assert((3 + 3) % 17 == 6);
    } else if b == 4 {
        lemma_g1_multiple_4();
        lemma_g1_multiple_7();
        lemma_g1_sum_3_4();
        assert((3 + 4) % 17 == 7);
    } else if b == 5 {
        lemma_g1_multiple_5();
        lemma_g1_multiple_8();
        lemma_g1_sum_3_5();
        assert((3 + 5) % 17 == 8);
    } else if b == 6 {
        lemma_g1_multiple_6();
        lemma_g1_multiple_9();
        lemma_g1_sum_3_6();
        assert((3 + 6) % 17 == 9);
    } else if b == 7 {
        lemma_g1_multiple_7();
        lemma_g1_multiple_10();
        lemma_g1_sum_3_7();
        assert((3 + 7) % 17 == 10);
    } else if b == 8 {
        lemma_g1_multiple_8();
        lemma_g1_multiple_11();
        lemma_g1_sum_3_8();
        assert((3 + 8) % 17 == 11);
    } else if b == 9 {
        lemma_g1_multiple_9();
        lemma_g1_multiple_12();
        lemma_g1_sum_3_9();
        assert((3 + 9) % 17 == 12);
    } else if b == 10 {
        lemma_g1_multiple_10();
        lemma_g1_multiple_13();
        lemma_g1_sum_3_10();
        assert((3 + 10) % 17 == 13);
    } else if b == 11 {
        lemma_g1_multiple_11();
        lemma_g1_multiple_14();
        lemma_g1_sum_3_11();
        assert((3 + 11) % 17 == 14);
    } else if b == 12 {
        lemma_g1_multiple_12();
        lemma_g1_multiple_15();
        lemma_g1_sum_3_12();
        assert((3 + 12) % 17 == 15);
    } else if b == 13 {
        lemma_g1_multiple_13();
        lemma_g1_multiple_16();
        lemma_g1_sum_3_13();
        assert((3 + 13) % 17 == 16);
    } else if b == 14 {
        lemma_g1_multiple_14();
        lemma_g1_multiple_0();
        lemma_g1_sum_3_14();
        assert((3 + 14) % 17 == 0);
    } else if b == 15 {
        lemma_g1_multiple_15();
        lemma_g1_multiple_1();
        lemma_g1_sum_3_15();
        assert((3 + 15) % 17 == 1);
    } else if b == 16 {
        lemma_g1_multiple_16();
        lemma_g1_multiple_2();
        lemma_g1_sum_3_16();
        assert((3 + 16) % 17 == 2);
    }
}

proof fn lemma_g1_sum_row_4(b: nat)
    requires
        b < 17,
    ensures
        G1Point::sgenerator().smul(4).sadd(G1Point::sgenerator().smul(b)) == G1Point::sgenerator().smul((4 + b) % 17),
{
    lemma_g1_multiple_4();
    if b == 0 {
        lemma_g1_multiple_0();
        lemma_g1_multiple_4();
        assert((4 + 0) % 17 == 4);
    } else if b == 1 {
        lemma_g1_multiple_1();
        lemma_g1_multiple_5();
        lemma_g1_sum_4_1();
        assert((4 + 1) % 17 == 5);
    } else if b == 2 {
        lemma_g1_multiple_2();
        lemma_g1_multiple_6();
        lemma_g1_sum_4_2();
        assert((4 + 2) % 17 == 6);
    } else if b == 3 {
        lemma_g1_multiple_3();
        lemma_g1_multiple_7();
        lemma_g1_sum_4_3();
        assert((4 + 3) % 17 == 7);
    } else if b == 4 {
        lemma_g1_multiple_4();
        lemma_g1_multiple_8();
        lemma_g1_sum_4_4();
        assert((4 + 4) % 17 == 8);
    } else if b == 5 {
        lemma_g1_multiple_5();
        lemma_g1_multiple_9();
        lemma_g1_sum_4_5();
        assert((4 + 5) % 17 == 9);
    } else if b == 6 {
        lemma_g1_multiple_6();
        lemma_g1_multiple_10();
        lemma_g1_sum_4_6();
        assert((4 + 6) % 17 == 10);
    } else if b == 7 {
        lemma_g1_multiple_7();
        lemma_g1_multiple_11();
        lemma_g1_sum_4_7();
        assert((4 + 7) % 17 == 11);
    } else if b == 8 {
        lemma_g1_multiple_8();
        lemma_g1_multiple_12();
        lemma_g1_sum_4_8();
        assert((4 + 8) % 17 == 12);
    } else if b == 9 {
        lemma_g1_multiple_9();
        lemma_g1_multiple_13();
        lemma_g1_sum_4_9();
        assert((4 + 9) % 17 == 13);
    } else if b == 10 {
        lemma_g1_multiple_10();
        lemma_g1_multiple_14();
        lemma_g1_sum_4_10();
        assert((4 + 10) % 17 == 14);
    } else if b == 11 {
        lemma_g1_multiple_11();
        lemma_g1_multiple_15();
        lemma_g1_sum_4_11();
        assert((4 + 11) % 17 == 15);
    } else if b == 12 {
        lemma_g1_multiple_12();
        lemma_g1_multiple_16();
        lemma_g1_sum_4_12();
        assert((4 + 12) % 17 == 16);
    } else if b == 13 {
        lemma_g1_multiple_13();
        lemma_g1_multiple_0();
        lemma_g1_sum_4_13();
        assert((4 + 13) % 17 == 0);
    } else if b == 14 {
        lemma_g1_multiple_14();
        lemma_g1_multiple_1();
        lemma_g1_sum_4_14();
        assert((4 + 14) % 17 == 1);
    } else if b == 15 {
        lemma_g1_multiple_15();
        lemma_g1_multiple_2();
        lemma_g1_sum_4_15();
        assert((4 + 15) % 17 == 2);
    } else if b == 16 {
        lemma_g1_multiple_16();
        lemma_g1_multiple_3();
        lemma_g1_sum_4_16();
        assert((4 + 16) % 17 == 3);
    }
}

proof fn lemma_g1_sum_row_5(b: nat)
    requires
        b < 17,
    ensures
        G1Point::sgenerator().smul(5).sadd(G1Point::sgenerator().smul(b)) == G1Point::sgenerator().smul((5 + b) % 17),
{
    lemma_g1_multiple_5();
    if b == 0 {
        lemma_g1_multiple_0();
        lemma_g1_multiple_5();
        assert((5 + 0) % 17 == 5);
    } else if b == 1 {
        lemma_g1_multiple_1();
        lemma_g1_multiple_6();
        lemma_g1_sum_5_1();
        assert((5 + 1) % 17 == 6);
    } else if b == 2 {
        lemma_g1_multiple_2();
        lemma_g1_multiple_7();
        lemma_g1_sum_5_2();
        assert((5 + 2) % 17 == 7);
    } else if b == 3 {
        lemma_g1_multiple_3();
        lemma_g1_multiple_8();
        lemma_g1_sum_5_3();
        assert((5 + 3) % 17 == 8);
    } else if b == 4 {
        lemma_g1_multiple_4();
        lemma_g1_multiple_9();
        lemma_g1_sum_5_4();
        assert((5 + 4) % 17 == 9);
    } else if b == 5 {
        lemma_g1_multiple_5();
        lemma_g1_multiple_10();
        lemma_g1_sum_5_5();
        assert((5 + 5) % 17 == 10);
    } else if b == 6 {
        lemma_g1_multiple_6();
        lemma_g1_multiple_11();
        lemma_g1_sum_5_6();
        assert((5 + 6) % 17 == 11);
    } else if b == 7 {
        lemma_g1_multiple_7();
        lemma_g1_multiple_12();
        lemma_g1_sum_5_7();
        assert((5 + 7) % 17 == 12);
    } else if b == 8 {
        lemma_g1_multiple_8();
        lemma_g1_multiple_13();
        lemma_g1_sum_5_8();
        assert((5 + 8) % 17 == 13);
    } else if b == 9 {
        lemma_g1_multiple_9();
        lemma_g1_multiple_14();
        lemma_g1_sum_5_9();
        assert((5 + 9) % 17 == 14);
    } else if b == 10 {
        lemma_g1_multiple_10();
        lemma_g1_multiple_15();
        lemma_g1_sum_5_10();
        assert((5 + 10) % 17 == 15);
    } else if b == 11 {
        lemma_g1_multiple_11();
        lemma_g1_multiple_16();
        lemma_g1_sum_5_11();
        assert((5 + 11) % 17 == 16);
    } else if b == 12 {
        lemma_g1_multiple_12();
        lemma_g1_multiple_0();
        lemma_g1_sum_5_12();
        assert((5 + 12) % 17 == 0);
    } else if b == 13 {
        lemma_g1_multiple_13();
        lemma_g1_multiple_1();
        lemma_g1_sum_5_13();
        assert((5 + 13) % 17 == 1);
    } else if b == 14 {
        lemma_g1_multiple_14();
        lemma_g1_multiple_2();
        lemma_g1_sum_5_14();
        assert((5 + 14) % 17 == 2);
    } else if b == 15 {
        lemma_g1_multiple_15();
        lemma_g1_multiple_3();
        lemma_g1_sum_5_15();
        assert((5 + 15) % 17 == 3);
    } else if b == 16 {
        lemma_g1_multiple_16();
        lemma_g1_multiple_4();
        lemma_g1_sum_5_16();
        assert((5 + 16) % 17 == 4);
    }
}

proof fn lemma_g1_sum_row_6(b: nat)
    requires
        b < 17,
    ensures
        G1Point::sgenerator().smul(6).sadd(G1Point::sgenerator().smul(b)) == G1Point::sgenerator().smul((6 + b) % 17),
{
    lemma_g1_multiple_6();
    if b == 0 {
        lemma_g1_multiple_0();
        lemma_g1_multiple_6();
        assert((6 + 0) % 17 == 6);
    } else if b == 1 {
        lemma_g1_multiple_1();
        lemma_g1_multiple_7();
        lemma_g1_sum_6_1();
        assert((6 + 1) % 17 == 7);
    } else if b == 2 {
        lemma_g1_multiple_2();
        lemma_g1_multiple_8();
        lemma_g1_sum_6_2();
        assert((6 + 2) % 17 == 8);
    } else if b == 3 {
        lemma_g1_multiple_3();
        lemma_g1_multiple_9();
        lemma_g1_sum_6_3();
        assert((6 + 3) % 17 == 9);
    } else if b == 4 {
        lemma_g1_multiple_4();
        lemma_g1_multiple_10();
        lemma_g1_sum_6_4();
        assert((6 + 4) % 17 == 10);
    } else if b == 5 {
        lemma_g1_multiple_5();
        lemma_g1_multiple_11();
        lemma_g1_sum_6_5();
        assert((6 + 5) % 17 == 11);
    } else if b == 6 {
        lemma_g1_multiple_6();
        lemma_g1_multiple_12();
        lemma_g1_sum_6_6();
        assert((6 + 6) % 17 == 12);
    } else if b == 7 {
        lemma_g1_multiple_7();
        lemma_g1_multiple_13();
        lemma_g1_sum_6_7();
        assert((6 + 7) % 17 == 13);
    } else if b == 8 {
        lemma_g1_multiple_8();
        lemma_g1_multiple_14();
        lemma_g1_sum_6_8();
        assert((6 + 8) % 17 == 14);
    } else if b == 9 {
        lemma_g1_multiple_9();
        lemma_g1_multiple_15();
        lemma_g1_sum_6_9();
        assert((6 + 9) % 17 == 15);
    } else if b == 10 {
        lemma_g1_multiple_10();
        lemma_g1_multiple_16();
        lemma_g1_sum_6_10();
        assert((6 + 10) % 17 == 16);
    } else if b == 11 {
        lemma_g1_multiple_11();
        lemma_g1_multiple_0();
        lemma_g1_sum_6_11();
        assert((6 + 11) % 17 == 0);
    } else if b == 12 {
        lemma_g1_multiple_12();
        lemma_g1_multiple_1();
        lemma_g1_sum_6_12();
        assert((6 + 12) % 17 == 1);
    } else if b == 13 {
        lemma_g1_multiple_13();
        lemma_g1_multiple_2();
        lemma_g1_sum_6_13();
        assert((6 + 13) % 17 == 2);
    } else if b == 14 {
        lemma_g1_multiple_14();
        lemma_g1_multiple_3();
        lemma_g1_sum_6_14();
        assert((6 + 14) % 17 == 3);
    } else if b == 15 {
        lemma_g1_multiple_15();
        lemma_g1_multiple_4();
        lemma_g1_sum_6_15();
        assert((6 + 15) % 17 == 4);
    } else if b == 16 {
        lemma_g1_multiple_16();
        lemma_g1_multiple_5();
        lemma_g1_sum_6_16();
        assert((6 + 16) % 17 == 5);
    }
}

proof fn lemma_g1_sum_row_7(b: nat)
    requires
        b < 17,
    ensures
        G1Point::sgenerator().smul(7).sadd(G1Point::sgenerator().smul(b)) == G1Point::sgenerator().smul((7 + b) % 17),
{
    lemma_g1_multiple_7();
    if b == 0 {
        lemma_g1_multiple_0();
        lemma_g1_multiple_7();
        assert((7 + 0) % 17 == 7);
    } else if b == 1 {
        lemma_g1_multiple_1();
        lemma_g1_multiple_8();
        lemma_g1_sum_7_1();
        assert((7 + 1) % 17 == 8);
    } else if b == 2 {
        lemma_g1_multiple_2();
        lemma_g1_multiple_9();
        lemma_g1_sum_7_2();
        assert((7 + 2) % 17 == 9);
    } else if b == 3 {
        lemma_g1_multiple_3();
        lemma_g1_multiple_10();
        lemma_g1_sum_7_3();
        assert((7 + 3) % 17 == 10);
    } else if b == 4 {
        lemma_g1_multiple_4();
        lemma_g1_multiple_11();
        lemma_g1_sum_7_4();
        assert((7 + 4) % 17 == 11);
    } else if b == 5 {
        lemma_g1_multiple_5();
        lemma_g1_multiple_12();
        lemma_g1_sum_7_5();
        assert((7 + 5) % 17 == 12);
    } else if b == 6 {
        lemma_g1_multiple_6();
        lemma_g1_multiple_13();
        lemma_g1_sum_7_6();
        assert((7 + 6) % 17 == 13);
    } else if b == 7 {
        lemma_g1_multiple_7();
        lemma_g1_multiple_14();
        lemma_g1_sum_7_7();
        assert((7 + 7) % 17 == 14);
    } else if b == 8 {
        lemma_g1_multiple_8();
        lemma_g1_multiple_15();
        lemma_g1_sum_7_8();
        assert((7 + 8) % 17 == 15);
    } else if b == 9 {
        lemma_g1_multiple_9();
        lemma_g1_multiple_16();
        lemma_g1_sum_7_9();
        assert((7 + 9) % 17 == 16);
    } else if b == 10 {
        lemma_g1_multiple_10();
        lemma_g1_multiple_0();
        lemma_g1_sum_7_10();
        assert((7 + 10) % 17 == 0);
    } else if b == 11 {
        lemma_g1_multiple_11();
        lemma_g1_multiple_1();
        lemma_g1_sum_7_11();
        assert((7 + 11) % 17 == 1);
    } else if b == 12 {
        lemma_g1_multiple_12();
        lemma_g1_multiple_2();
        lemma_g1_sum_7_12();
        assert((7 + 12) % 17 == 2);
    } else if b == 13 {
        lemma_g1_multiple_13();
        lemma_g1_multiple_3();
        lemma_g1_sum_7_13();
        assert((7 + 13) % 17 == 3);
    } else if b == 14 {
        lemma_g1_multiple_14();
        lemma_g1_multiple_4();
        lemma_g1_sum_7_14();
        assert((7 + 14) % 17 == 4);
    } else if b == 15 {
        lemma_g1_multiple_15();
        lemma_g1_multiple_5();
        lemma_g1_sum_7_15();
        assert((7 + 15) % 17 == 5);
    } else if b == 16 {
        lemma_g1_multiple_16();
        lemma_g1_multiple_6();
        lemma_g1_sum_7_16();
        assert((7 + 16) % 17 == 6);
    }
}

proof fn lemma_g1_sum_row_8(b: nat)
    requires
        b < 17,
    ensures
        G1Point::sgenerator().smul(8).sadd(G1Point::sgenerator().smul(b)) == G1Point::sgenerator().smul((8 + b) % 17),
{
    lemma_g1_multiple_8();
    if b == 0 {
        lemma_g1_multiple_0();
        lemma_g1_multiple_8();
        assert((8 + 0) % 17 == 8);
    } else if b == 1 {
        lemma_g1_multiple_1();
        lemma_g1_multiple_9();
        lemma_g1_sum_8_1();
        assert((8 + 1) % 17 == 9);
    } else if b == 2 {
        lemma_g1_multiple_2();
        lemma_g1_multiple_10();
        lemma_g1_sum_8_2();
        assert((8 + 2) % 17 == 10);
    } else if b == 3 {
        lemma_g1_multiple_3();
        lemma_g1_multiple_11();
        lemma_g1_sum_8_3();
        assert((8 + 3) % 17 == 11);
    } else if b == 4 {
        lemma_g1_multiple_4();
        lemma_g1_multiple_12();
        lemma_g1_sum_8_4();
        assert((8 + 4) % 17 == 12);
    } else if b == 5 {
        lemma_g1_multiple_5();
        lemma_g1_multiple_13();
        lemma_g1_sum_8_5();
        assert((8 + 5) % 17 == 13);
    } else if b == 6 {
        lemma_g1_multiple_6();
        lemma_g1_multiple_14();
        lemma_g1_sum_8_6();
        assert((8 + 6) % 17 == 14);
    } else if b == 7 {
        lemma_g1_multiple_7();
        lemma_g1_multiple_15();
        lemma_g1_sum_8_7();
        assert((8 + 7) % 17 == 15);
    } else if b == 8 {
        lemma_g1_multiple_8();
        lemma_g1_multiple_16();
        lemma_g1_sum_8_8();
        assert((8 + 8) % 17 == 16);
    } else if b == 9 {
        lemma_g1_multiple_9();
        lemma_g1_multiple_0();
        lemma_g1_sum_8_9();
        assert((8 + 9) % 17 == 0);
    } else if b == 10 {
        lemma_g1_multiple_10();
        lemma_g1_multiple_1();
        lemma_g1_sum_8_10();
        assert((8 + 10) % 17 == 1);
    } else if b == 11 {
        lemma_g1_multiple_11();
        lemma_g1_multiple_2();
        lemma_g1_sum_8_11();
        assert((8 + 11) % 17 == 2);
    } else if b == 12 {
        lemma_g1_multiple_12();
        lemma_g1_multiple_3();
        lemma_g1_sum_8_12();
        assert((8 + 12) % 17 == 3);
    } else if b == 13 {
        lemma_g1_multiple_13();
        lemma_g1_multiple_4();
        lemma_g1_sum_8_13();
        assert((8 + 13) % 17 == 4);
    } else if b == 14 {
        lemma_g1_multiple_14();
        lemma_g1_multiple_5();
        lemma_g1_sum_8_14();
        assert((8 + 14) % 17 == 5);
    } else if b == 15 {
        lemma_g1_multiple_15();
        lemma_g1_multiple_6();
        lemma_g1_sum_8_15();
        assert((8 + 15) % 17 == 6);
    } else if b == 16 {
        lemma_g1_multiple_16();
        lemma_g1_multiple_7();
        lemma_g1_sum_8_16();
        assert((8 + 16) % 17 == 7);
    }
}

proof fn lemma_g1_sum_row_9(b: nat)
    requires
        b < 17,
    ensures
        G1Point::sgenerator().smul(9).sadd(G1Point::sgenerator().smul(b)) == G1Point::sgenerator().smul((9 + b) % 17),
{
    lemma_g1_multiple_9();
    if b == 0 {
        lemma_g1_multiple_0();
        lemma_g1_multiple_9();
        assert((9 + 0) % 17 == 9);
    } else if b == 1 {
        lemma_g1_multiple_1();
        lemma_g1_multiple_10();
        lemma_g1_sum_9_1();
        assert((9 + 1) % 17 == 10);
    } else if b == 2 {
        lemma_g1_multiple_2();
        lemma_g1_multiple_11();
        lemma_g1_sum_9_2();
        assert((9 + 2) % 17 == 11);
    } else if b == 3 {
        lemma_g1_multiple_3();
        lemma_g1_multiple_12();
        lemma_g1_sum_9_3();
        assert((9 + 3) % 17 == 12);
    } else if b == 4 {
        lemma_g1_multiple_4();
        lemma_g1_multiple_13();
        lemma_g1_sum_9_4();
        assert((9 + 4) % 17 == 13);
    } else if b == 5 {
        lemma_g1_multiple_5();
        lemma_g1_multiple_14();
        lemma_g1_sum_9_5();
        assert((9 + 5) % 17 == 14);
    } else if b == 6 {
        lemma_g1_multiple_6();
        lemma_g1_multiple_15();
        lemma_g1_sum_9_6();
        assert((9 + 6) % 17 == 15);
    } else if b == 7 {
        lemma_g1_multiple_7();
        lemma_g1_multiple_16();
        lemma_g1_sum_9_7();
        assert((9 + 7) % 17 == 16);
    } else if b == 8 {
        lemma_g1_multiple_8();
        lemma_g1_multiple_0();
        lemma_g1_sum_9_8();
        assert((9 + 8) % 17 == 0);
    } else if b == 9 {
        lemma_g1_multiple_9();
        lemma_g1_multiple_1();
        lemma_g1_sum_9_9();
        assert((9 + 9) % 17 == 1);
    } else if b == 10 {
        lemma_g1_multiple_10();
        lemma_g1_multiple_2();
        lemma_g1_sum_9_10();
        assert((9 + 10) % 17 == 2);
    } else if b == 11 {
        lemma_g1_multiple_11();
        lemma_g1_multiple_3();
        lemma_g1_sum_9_11();
        assert((9 + 11) % 17 == 3);
    } else if b == 12 {
        lemma_g1_multiple_12();
        lemma_g1_multiple_4();
        lemma_g1_sum_9_12();
        assert((9 + 12) % 17 == 4);
    } else if b == 13 {
        lemma_g1_multiple_13();
        lemma_g1_multiple_5();
        lemma_g1_sum_9_13();
        assert((9 + 13) % 17 == 5);
    } else if b == 14 {
        lemma_g1_multiple_14();
        lemma_g1_multiple_6();
        lemma_g1_sum_9_14();
        assert((9 + 14) % 17 == 6);
    } else if b == 15 {
        lemma_g1_multiple_15();
        lemma_g1_multiple_7();
        lemma_g1_sum_9_15();
        assert((9 + 15) % 17 == 7);
    } else if b == 16 {
        lemma_g1_multiple_16();
        lemma_g1_multiple_8();
        lemma_g1_sum_9_16();
        assert((9 + 16) % 17 == 8);
    }
}

proof fn lemma_g1_sum_row_10(b: nat)
    requires
        b < 17,
    ensures
        G1Point::sgenerator().smul(10).sadd(G1Point::sgenerator().smul(b)) == G1Point::sgenerator().smul((10 + b) % 17),
{
    lemma_g1_multiple_10();
    if b == 0 {
        lemma_g1_multiple_0();
        lemma_g1_multiple_10();
        assert((10 + 0) % 17 == 10);
    } else if b == 1 {
        lemma_g1_multiple_1();
        lemma_g1_multiple_11();
        lemma_g1_sum_10_1();
        assert((10 + 1) % 17 == 11);
    } else if b == 2 {
        lemma_g1_multiple_2();
        lemma_g1_multiple_12();
        lemma_g1_sum_10_2();
        assert((10 + 2) % 17 == 12);
    } else if b == 3 {
        lemma_g1_multiple_3();
        lemma_g1_multiple_13();
        lemma_g1_sum_10_3();
        assert((10 + 3) % 17 == 13);
    } else if b == 4 {
        lemma_g1_multiple_4();
        lemma_g1_multiple_14();
        lemma_g1_sum_10_4();
        assert((10 + 4) % 17 == 14);
    } else if b == 5 {
        lemma_g1_multiple_5();
        lemma_g1_multiple_15();
        lemma_g1_sum_10_5();
        assert((10 + 5) % 17 == 15);
    } else if b == 6 {
        lemma_g1_multiple_6();
        lemma_g1_multiple_16();
        lemma_g1_sum_10_6();
        assert((10 + 6) % 17 == 16);
    } else if b == 7 {
        lemma_g1_multiple_7();
        lemma_g1_multiple_0();
        lemma_g1_sum_10_7();
        assert((10 + 7) % 17 == 0);
    } else if b == 8 {
        lemma_g1_multiple_8();
        lemma_g1_multiple_1();
        lemma_g1_sum_10_8();
        assert((10 + 8) % 17 == 1);
    } else if b == 9 {
        lemma_g1_multiple_9();
        lemma_g1_multiple_2();
        lemma_g1_sum_10_9();
        assert((10 + 9) % 17 == 2);
    } else if b == 10 {
        lemma_g1_multiple_10();
        lemma_g1_multiple_3();
        lemma_g1_sum_10_10();
        assert((10 + 10) % 17 == 3);
    } else if b == 11 {
        lemma_g1_multiple_11();
        lemma_g1_multiple_4();
        lemma_g1_sum_10_11();
        assert((10 + 11) % 17 == 4);
    } else if b == 12 {
        lemma_g1_multiple_12();
        lemma_g1_multiple_5();
        lemma_g1_sum_10_12();
        assert((10 + 12) % 17 == 5);
    } else if b == 13 {
        lemma_g1_multiple_13();
        lemma_g1_multiple_6();
        lemma_g1_sum_10_13();
        assert((10 + 13) % 17 == 6);
    } else if b == 14 {
        lemma_g1_multiple_14();
        lemma_g1_multiple_7();
        lemma_g1_sum_10_14();
        assert((10 + 14) % 17 == 7);
    } else if b == 15 {
        lemma_g1_multiple_15();
        lemma_g1_multiple_8();
        lemma_g1_sum_10_15();
        assert((10 + 15) % 17 == 8);
    } else if b == 16 {
        lemma_g1_multiple_16();
        lemma_g1_multiple_9();
        lemma_g1_sum_10_16();
        assert((10 + 16) % 17 == 9);
    }
}

proof fn lemma_g1_sum_row_11(b: nat)
    requires
        b < 17,
    ensures
        G1Point::sgenerator().smul(11).sadd(G1Point::sgenerator().smul(b)) == G1Point::sgenerator().smul((11 + b) % 17),
{
    lemma_g1_multiple_11();
    if b == 0 {
        lemma_g1_multiple_0();
        lemma_g1_multiple_11();
        assert((11 + 0) % 17 == 11);
    } else if b == 1 {
        lemma_g1_multiple_1();
        lemma_g1_multiple_12();
        lemma_g1_sum_11_1();
        assert((11 + 1) % 17 == 12);
    } else if b == 2 {
        lemma_g1_multiple_2();
        lemma_g1_multiple_13();
        lemma_g1_sum_11_2();
        assert((11 + 2) % 17 == 13);
    } else if b == 3 {
        lemma_g1_multiple_3();
        lemma_g1_multiple_14();
        lemma_g1_sum_11_3();
        assert((11 + 3) % 17 == 14);
    } else if b == 4 {
        lemma_g1_multiple_4();
        lemma_g1_multiple_15();
        lemma_g1_sum_11_4();
        assert((11 + 4) % 17 == 15);
    } else if b == 5 {
        lemma_g1_multiple_5();
        lemma_g1_multiple_16();
        lemma_g1_sum_11_5();
        assert((11 + 5) % 17 == 16);
    } else if b == 6 {
        lemma_g1_multiple_6();
        lemma_g1_multiple_0();
        lemma_g1_sum_11_6();
        assert((11 + 6) % 17 == 0);
    } else if b == 7 {
        lemma_g1_multiple_7();
        lemma_g1_multiple_1();
        lemma_g1_sum_11_7();
        assert((11 + 7) % 17 == 1);
    } else if b == 8 {
        lemma_g1_multiple_8();
        lemma_g1_multiple_2();
        lemma_g1_sum_11_8();
        assert((11 + 8) % 17 == 2);
    } else if b == 9 {
        lemma_g1_multiple_9();
        lemma_g1_multiple_3();
        lemma_g1_sum_11_9();
        assert((11 + 9) % 17 == 3);
    } else if b == 10 {
        lemma_g1_multiple_10();
        lemma_g1_multiple_4();
        lemma_g1_sum_11_10();
        assert((11 + 10) % 17 == 4);
    } else if b == 11 {
        lemma_g1_multiple_11();
        lemma_g1_multiple_5();
        lemma_g1_sum_11_11();
        assert((11 + 11) % 17 == 5);
    } else if b == 12 {
        lemma_g1_multiple_12();
        lemma_g1_multiple_6();
        lemma_g1_sum_11_12();
        assert((11 + 12) % 17 == 6);
    } else if b == 13 {
        lemma_g1_multiple_13();
        lemma_g1_multiple_7();
        lemma_g1_sum_11_13();
        assert((11 + 13) % 17 == 7);
    } else if b == 14 {
        lemma_g1_multiple_14();
        lemma_g1_multiple_8();
        lemma_g1_sum_11_14();
        assert((11 + 14) % 17 == 8);
    } else if b == 15 {
        lemma_g1_multiple_15();
        lemma_g1_multiple_9();
        lemma_g1_sum_11_15();
        assert((11 + 15) % 17 == 9);
    } else if b == 16 {
        lemma_g1_multiple_16();
        lemma_g1_multiple_10();
        lemma_g1_sum_11_16();
        assert((11 + 16) % 17 == 10);
    }
}

proof fn lemma_g1_sum_row_12(b: nat)
    requires
        b < 17,
    ensures
        G1Point::sgenerator().smul(12).sadd(G1Point::sgenerator().smul(b)) == G1Point::sgenerator().smul((12 + b) % 17),
{
    lemma_g1_multiple_12();
    if b == 0 {
        lemma_g1_multiple_0();
        lemma_g1_multiple_12();
        assert((12 + 0) % 17 == 12);
    } else if b == 1 {
        lemma_g1_multiple_1();
        lemma_g1_multiple_13();
        lemma_g1_sum_12_1();
        assert((12 + 1) % 17 == 13);
    } else if b == 2 {
        lemma_g1_multiple_2();
        lemma_g1_multiple_14();
        lemma_g1_sum_12_2();
        assert((12 + 2) % 17 == 14);
    } else if b == 3 {
        lemma_g1_multiple_3();
        lemma_g1_multiple_15();
        lemma_g1_sum_12_3();
        assert((12 + 3) % 17 == 15);
    } else if b == 4 {
        lemma_g1_multiple_4();
        lemma_g1_multiple_16();
        lemma_g1_sum_12_4();
        assert((12 + 4) % 17 == 16);
    } else if b == 5 {
        lemma_g1_multiple_5();
        lemma_g1_multiple_0();
        lemma_g1_sum_12_5();
        assert((12 + 5) % 17 == 0);
    } else if b == 6 {
        lemma_g1_multiple_6();
        lemma_g1_multiple_1();
        lemma_g1_sum_12_6();
        assert((12 + 6) % 17 == 1);
    } else if b == 7 {
        lemma_g1_multiple_7();
        lemma_g1_multiple_2();
        lemma_g1_sum_12_7();
        assert((12 + 7) % 17 == 2);
    } else if b == 8 {
        lemma_g1_multiple_8();
        lemma_g1_multiple_3();
        lemma_g1_sum_12_8();
        assert((12 + 8) % 17 == 3);
    } else if b == 9 {
        lemma_g1_multiple_9();
        lemma_g1_multiple_4();
        lemma_g1_sum_12_9();
        assert((12 + 9) % 17 == 4);
    } else if b == 10 {
        lemma_g1_multiple_10();
        lemma_g1_multiple_5();
        lemma_g1_sum_12_10();
        assert((12 + 10) % 17 == 5);
    } else if b == 11 {
        lemma_g1_multiple_11();
        lemma_g1_multiple_6();
        lemma_g1_sum_12_11();
        assert((12 + 11) % 17 == 6);
    } else if b == 12 {
        lemma_g1_multiple_12();
        lemma_g1_multiple_7();
        lemma_g1_sum_12_12();
        assert((12 + 12) % 17 == 7);
    } else if b == 13 {
        lemma_g1_multiple_13();
        lemma_g1_multiple_8();
        lemma_g1_sum_12_13();
        assert((12 + 13) % 17 == 8);
    } else if b == 14 {
        lemma_g1_multiple_14();
        lemma_g1_multiple_9();
        lemma_g1_sum_12_14();
        assert((12 + 14) % 17 == 9);
    } else if b == 15 {
        lemma_g1_multiple_15();
        lemma_g1_multiple_10();
        lemma_g1_sum_12_15();
        assert((12 + 15) % 17 == 10);
    } else if b == 16 {
        lemma_g1_multiple_16();
        lemma_g1_multiple_11();
        lemma_g1_sum_12_16();
        assert((12 + 16) % 17 == 11);
    }
}

proof fn lemma_g1_sum_row_13(b: nat)
    requires
        b < 17,
    ensures
        G1Point::sgenerator().smul(13).sadd(G1Point::sgenerator().smul(b)) == G1Point::sgenerator().smul((13 + b) % 17),
{
    lemma_g1_multiple_13();
    if b == 0 {
        lemma_g1_multiple_0();
        lemma_g1_multiple_13();
        assert((13 + 0) % 17 == 13);
    } else if b == 1 {
        lemma_g1_multiple_1();
        lemma_g1_multiple_14();
        lemma_g1_sum_13_1();
        assert((13 + 1) % 17 == 14);
    } else if b == 2 {
        lemma_g1_multiple_2();
        lemma_g1_multiple_15();
        lemma_g1_sum_13_2();
        assert((13 + 2) % 17 == 15);
    } else if b == 3 {
        lemma_g1_multiple_3();
        lemma_g1_multiple_16();
        lemma_g1_sum_13_3();
        assert((13 + 3) % 17 == 16);
    } else if b == 4 {
        lemma_g1_multiple_4();
        lemma_g1_multiple_0();
        lemma_g1_sum_13_4();
        assert((13 + 4) % 17 == 0);
    } else if b == 5 {
        lemma_g1_multiple_5();
        lemma_g1_multiple_1();
        lemma_g1_sum_13_5();
        assert((13 + 5) % 17 == 1);
    } else if b == 6 {
        lemma_g1_multiple_6();
        lemma_g1_multiple_2();
        lemma_g1_sum_13_6();
        assert((13 + 6) % 17 == 2);
    } else if b == 7 {
        lemma_g1_multiple_7();
        lemma_g1_multiple_3();
        lemma_g1_sum_13_7();
        assert((13 + 7) % 17 == 3);
    } else if b == 8 {
        lemma_g1_multiple_8();
        lemma_g1_multiple_4();
        lemma_g1_sum_13_8();
        assert((13 + 8) % 17 == 4);
    } else if b == 9 {
        lemma_g1_multiple_9();
        lemma_g1_multiple_5();
        lemma_g1_sum_13_9();
        assert((13 + 9) % 17 == 5);
    } else if b == 10 {
        lemma_g1_multiple_10();
        lemma_g1_multiple_6();
        lemma_g1_sum_13_10();
        assert((13 + 10) % 17 == 6);
    } else if b == 11 {
        lemma_g1_multiple_11();
        lemma_g1_multiple_7();
        lemma_g1_sum_13_11();
        assert((13 + 11) % 17 == 7);
    } else if b == 12 {
        lemma_g1_multiple_12();
        lemma_g1_multiple_8();
        lemma_g1_sum_13_12();
        assert((13 + 12) % 17 == 8);
    } else if b == 13 {
        lemma_g1_multiple_13();
        lemma_g1_multiple_9();
        lemma_g1_sum_13_13();
        assert((13 + 13) % 17 == 9);
    } else if b == 14 {
        lemma_g1_multiple_14();
        lemma_g1_multiple_10();
        lemma_g1_sum_13_14();
        assert((13 + 14) % 17 == 10);
    } else if b == 15 {
        lemma_g1_multiple_15();
        lemma_g1_multiple_11();
        lemma_g1_sum_13_15();
        assert((13 + 15) % 17 == 11);
    } else if b == 16 {
        lemma_g1_multiple_16();
        lemma_g1_multiple_12();
        lemma_g1_sum_13_16();
        assert((13 + 16) % 17 == 12);
    }
}

proof fn lemma_g1_sum_row_14(b: nat)
    requires
        b < 17,
    ensures
        G1Point::sgenerator().smul(14).sadd(G1Point::sgenerator().smul(b)) == G1Point::sgenerator().smul((14 + b) % 17),
{
    lemma_g1_multiple_14();
    if b == 0 {
        lemma_g1_multiple_0();
        lemma_g1_multiple_14();
        assert((14 + 0) % 17 == 14);
    } else if b == 1 {
        lemma_g1_multiple_1();
        lemma_g1_multiple_15();
        lemma_g1_sum_14_1();
        assert((14 + 1) % 17 == 15);
    } else if b == 2 {
        lemma_g1_multiple_2();
        lemma_g1_multiple_16();
        lemma_g1_sum_14_2();
        assert((14 + 2) % 17 == 16);
    } else if b == 3 {
        lemma_g1_multiple_3();
        lemma_g1_multiple_0();
        lemma_g1_sum_14_3();
        assert((14 + 3) % 17 == 0);
    } else if b == 4 {
        lemma_g1_multiple_4();
        lemma_g1_multiple_1();
        lemma_g1_sum_14_4();
        assert((14 + 4) % 17 == 1);
    } else if b == 5 {
        lemma_g1_multiple_5();
        lemma_g1_multiple_2();
        lemma_g1_sum_14_5();
        assert((14 + 5) % 17 == 2);
    } else if b == 6 {
        lemma_g1_multiple_6();
        lemma_g1_multiple_3();
        lemma_g1_sum_14_6();
        assert((14 + 6) % 17 == 3);
    } else if b == 7 {
        lemma_g1_multiple_7();
        lemma_g1_multiple_4();
        lemma_g1_sum_14_7();
        assert((14 + 7) % 17 == 4);
    } else if b == 8 {
        lemma_g1_multiple_8();
        lemma_g1_multiple_5();
        lemma_g1_sum_14_8();
        assert((14 + 8) % 17 == 5);
    } else if b == 9 {
        lemma_g1_multiple_9();
        lemma_g1_multiple_6();
        lemma_g1_sum_14_9();
        assert((14 + 9) % 17 == 6);
    } else if b == 10 {
        lemma_g1_multiple_10();
        lemma_g1_multiple_7();
        lemma_g1_sum_14_10();
        assert((14 + 10) % 17 == 7);
    } else if b == 11 {
        lemma_g1_multiple_11();
        lemma_g1_multiple_8();
        lemma_g1_sum_14_11();
        assert((14 + 11) % 17 == 8);
    } else if b == 12 {
        lemma_g1_multiple_12();
        lemma_g1_multiple_9();
        lemma_g1_sum_14_12();
        assert((14 + 12) % 17 == 9);
    } else if b == 13 {
        lemma_g1_multiple_13();
        lemma_g1_multiple_10();
        lemma_g1_sum_14_13();
        assert((14 + 13) % 17 == 10);
    } else if b == 14 {
        lemma_g1_multiple_14();
        lemma_g1_multiple_11();
        lemma_g1_sum_14_14();
        assert((14 + 14) % 17 == 11);
    } else if b == 15 {
        lemma_g1_multiple_15();
        lemma_g1_multiple_12();
        lemma_g1_sum_14_15();
        assert((14 + 15) % 17 == 12);
    } else if b == 16 {
        lemma_g1_multiple_16();
        lemma_g1_multiple_13();
        lemma_g1_sum_14_16();
        assert((14 + 16) % 17 == 13);
    }
}

proof fn lemma_g1_sum_row_15(b: nat)
    requires
        b < 17,
    ensures
        G1Point::sgenerator().smul(15).sadd(G1Point::sgenerator().smul(b)) == G1Point::sgenerator().smul((15 + b) % 17),
{
    lemma_g1_multiple_15();
    if b == 0 {
        lemma_g1_multiple_0();
        lemma_g1_multiple_15();
        assert((15 + 0) % 17 == 15);
    } else if b == 1 {
        lemma_g1_multiple_1();
        lemma_g1_multiple_16();
        lemma_g1_sum_15_1();
        assert((15 + 1) % 17 == 16);
    } else if b == 2 {
        lemma_g1_multiple_2();
        lemma_g1_multiple_0();
        lemma_g1_sum_15_2();
        assert((15 + 2) % 17 == 0);
    } else if b == 3 {
        lemma_g1_multiple_3();
        lemma_g1_multiple_1();
        lemma_g1_sum_15_3();
        assert((15 + 3) % 17 == 1);
    } else if b == 4 {
        lemma_g1_multiple_4();
        lemma_g1_multiple_2();
        lemma_g1_sum_15_4();
        assert((15 + 4) % 17 == 2);
    } else if b == 5 {
        lemma_g1_multiple_5();
        lemma_g1_multiple_3();
        lemma_g1_sum_15_5();
        assert((15 + 5) % 17 == 3);
    } else if b == 6 {
        lemma_g1_multiple_6();
        lemma_g1_multiple_4();
        lemma_g1_sum_15_6();
        assert((15 + 6) % 17 == 4);
    } else if b == 7 {
        lemma_g1_multiple_7();
        lemma_g1_multiple_5();
        lemma_g1_sum_15_7();
        assert((15 + 7) % 17 == 5);
    } else if b == 8 {
        lemma_g1_multiple_8();
        lemma_g1_multiple_6();
        lemma_g1_sum_15_8();
        assert((15 + 8) % 17 == 6);
    } else if b == 9 {
        lemma_g1_multiple_9();
        lemma_g1_multiple_7();
        lemma_g1_sum_15_9();
        assert((15 + 9) % 17 == 7);
    } else if b == 10 {
        lemma_g1_multiple_10();
        lemma_g1_multiple_8();
        lemma_g1_sum_15_10();
        assert((15 + 10) % 17 == 8);
    } else if b == 11 {
        lemma_g1_multiple_11();
        lemma_g1_multiple_9();
        lemma_g1_sum_15_11();
        assert((15 + 11) % 17 == 9);
    } else if b == 12 {
        lemma_g1_multiple_12();
        lemma_g1_multiple_10();
        lemma_g1_sum_15_12();
        assert((15 + 12) % 17 == 10);
    } else if b == 13 {
        lemma_g1_multiple_13();
        lemma_g1_multiple_11();
        lemma_g1_sum_15_13();
        assert((15 + 13) % 17 == 11);
    } else if b == 14 {
        lemma_g1_multiple_14();
        lemma_g1_multiple_12();
        lemma_g1_sum_15_14();
        assert((15 + 14) % 17 == 12);
    } else if b == 15 {
        lemma_g1_multiple_15();
        lemma_g1_multiple_13();
        lemma_g1_sum_15_15();
        assert((15 + 15) % 17 == 13);
    } else if b == 16 {
        lemma_g1_multiple_16();
        lemma_g1_multiple_14();
        lemma_g1_sum_15_16();
        assert((15 + 16) % 17 == 14);
    }
}

proof fn lemma_g1_sum_row_16(b: nat)
    requires
        b < 17,
    ensures
        G1Point::sgenerator().smul(16).sadd(G1Point::sgenerator().smul(b)) == G1Point::sgenerator().smul((16 + b) % 17),
{
    lemma_g1_multiple_16();
    if b == 0 {
        lemma_g1_multiple_0();
        lemma_g1_multiple_16();
        assert((16 + 0) % 17 == 16);
    } else if b == 1 {
        lemma_g1_multiple_1();
        lemma_g1_multiple_0();
        lemma_g1_sum_16_1();
        assert((16 + 1) % 17 == 0);
    } else if b == 2 {
        lemma_g1_multiple_2();
        lemma_g1_multiple_1();
        lemma_g1_sum_16_2();
        assert((16 + 2) % 17 == 1);
    } else if b == 3 {
        lemma_g1_multiple_3();
        lemma_g1_multiple_2();
        lemma_g1_sum_16_3();
        assert((16 + 3) % 17 == 2);
    } else if b == 4 {
        lemma_g1_multiple_4();
        lemma_g1_multiple_3();
        lemma_g1_sum_16_4();
        assert((16 + 4) % 17 == 3);
    } else if b == 5 {
        lemma_g1_multiple_5();
        lemma_g1_multiple_4();
        lemma_g1_sum_16_5();
        assert((16 + 5) % 17 == 4);
    } else if b == 6 {
        lemma_g1_multiple_6();
        lemma_g1_multiple_5();
        lemma_g1_sum_16_6();
        assert((16 + 6) % 17 == 5);
    } else if b == 7 {
        lemma_g1_multiple_7();
        lemma_g1_multiple_6();
        lemma_g1_sum_16_7();
        assert((16 + 7) % 17 == 6);
    } else if b == 8 {
        lemma_g1_multiple_8();
        lemma_g1_multiple_7();
        lemma_g1_sum_16_8();
        assert((16 + 8) % 17 == 7);
    } else if b == 9 {
        lemma_g1_multiple_9();
        lemma_g1_multiple_8();
        lemma_g1_sum_16_9();
        assert((16 + 9) % 17 == 8);
    } else if b == 10 {
        lemma_g1_multiple_10();
        lemma_g1_multiple_9();
        lemma_g1_sum_16_10();
        assert((16 + 10) % 17 == 9);
    } else if b == 11 {
        lemma_g1_multiple_11();
        lemma_g1_multiple_10();
        lemma_g1_sum_16_11();
        assert((16 + 11) % 17 == 10);
    } else if b == 12 {
        lemma_g1_multiple_12();
        lemma_g1_multiple_11();
        lemma_g1_sum_16_12();
        assert((16 + 12) % 17 == 11);
    } else if b == 13 {
        lemma_g1_multiple_13();
        lemma_g1_multiple_12();
        lemma_g1_sum_16_13();
        assert((16 + 13) % 17 == 12);
    } else if b == 14 {
        lemma_g1_multiple_14();
        lemma_g1_multiple_13();
        lemma_g1_sum_16_14();
        assert((16 + 14) % 17 == 13);
    } else if b == 15 {
        lemma_g1_multiple_15();
        lemma_g1_multiple_14();
        lemma_g1_sum_16_15();
        assert((16 + 15) % 17 == 14);
    } else if b == 16 {
        lemma_g1_multiple_16();
        lemma_g1_multiple_15();
        lemma_g1_sum_16_16();
        assert((16 + 16) % 17 == 15);
    }
}

proof fn lemma_tangent_1_17()
    ensures
        sline_eval(g1p(1, 2), g1p(1, 2), dq(48, 0)) == Some((gt_of(30, 58), g1p(68, 74))),
{
    lemma_tangent_at((1, 2), (48, 0), (0, 4, 76, 3, 26, 2, 68, 6, 74, -18), (75, -1, 36, 12, 24, -1, 65, -1), (100, 92, 56, 51, 69, -65, 39, -27), (30, -9, 58, 28));
}

proof fn lemma_tangent_2_17()
    ensures
        sline_eval(g1p(68, 74), g1p(68, 74), dq(48, 0)) == Some((gt_of(78, 70), g1p(65, 98))),
{
    lemma_tangent_at((68, 74), (48, 0), (1, 47, 43, 20, 91, 5905, 65, 80, 98, 1), (74, -62, 25, 43, 54, -2, 76, -1), (95, 54, 58, 31, 11, -65, 44, -28), (78, -28, 70, -2));
}

proof fn lemma_tangent_3_17()
    ensures
        sline_eval(g1p(26, 45), g1p(26, 45), dq(48, 0)) == Some((gt_of(57, 76), g1p(32, 42))),
{
    lemma_tangent_at((26, 45), (48, 0), (0, 90, 55, 49, 36, 1104, 32, 12, 42, -3), (74, -10, 11, 17, 83, -2, 90, -1), (48, 16, 19, 3, 96, -16, 98, -10), (57, -9, 76, 78));
}

proof fn lemma_tangent_4_17()
    ensures
        sline_eval(g1p(65, 98), g1p(65, 98), dq(48, 0)) == Some((gt_of(35, 50), g1p(18, 49))),
{
    lemma_tangent_at((65, 98), (48, 0), (1, 95, 84, 79, 59, 10541, 18, 33, 49, 26), (3, -38, 4, 28, 0, -1, 97, -1), (34, 58, 54, 31, 72, -36, 34, -26), (35, -33, 50, 36));
}

proof fn lemma_tangent_5_17()
    ensures
        sline_eval(g1p(12, 32), g1p(12, 32), dq(48, 0)) == Some((gt_of(32, 33), g1p(91, 66))),
{
    lemma_tangent_at((12, 32), (48, 0), (0, 64, 30, 19, 32, 128, 91, 9, 66, -26), (20, -4, 21, 15, 49, -1, 80, -1), (148, 5, 81, 4, 53, -112, 51, -39), (32, -15, 33, 26));
}

proof fn lemma_tangent_6_17()
    ensures
        sline_eval(g1p(32, 42), g1p(32, 42), dq(48, 0)) == Some((gt_of(33, 47), g1p(12, 69))),
{
    lemma_tangent_at((32, 42), (48, 0), (0, 84, 95, 79, 51, 2889, 12, 25, 69, 9), (85, -17, 24, 24, 75, -2, 77, -1), (29, 95, 84, 79, 10, -50, 8, -40), (33, 1, 47, 7));
}

proof fn lemma_tangent_7_17()
    ensures
        sline_eval(g1p(91, 35), g1p(91, 35), dq(48, 0)) == Some((gt_of(32, 91), g1p(26, 56))),
{
    lemma_tangent_at((91, 35), (48, 0), (0, 70, 13, 9, 62, 3197, 26, 36, 56, 39), (14, -56, 47, 29, 52, -1, 54, -1), (41, 87, 36, 31, 63, -27, 90, -18), (32, -16, 91, 31));
}

proof fn lemma_tangent_8_17()
    ensures
        sline_eval(g1p(18, 49), g1p(18, 49), dq(48, 0)) == Some((gt_of(31, 84), g1p(1, 99))),
{
    lemma_tangent_at((18, 49), (48, 0), (0, 98, 67, 65, 80, 644, 1, 63, 99, 12), (75, -15, 2, 38, 78, -2, 99, -1), (23, 30, 64, 19, 96, -32, 59, -31), (31, 16, 84, 81));
}

proof fn lemma_tangent_9_17()
    ensures
        sline_eval(g1p(18, 52), g1p(18, 52), dq(48, 0)) == Some((gt_of(70, 17), g1p(1, 2))),
{
    lemma_tangent_at((18, 52), (48, 0), (1, 3, 34, 1, 21, 327, 1, 4, 2, 3), (26, -4, 99, 9, 23, -1, 2, -1), (23, 30, 64, 19, 96, -32, 59, -31), (70, 20, 17, 14));
}

proof fn lemma_tangent_10_17()
    ensures
        sline_eval(g1p(91, 66), g1p(91, 66), dq(48, 0)) == Some((gt_of(69, 10), g1p(26, 45))),
{
    lemma_tangent_at((91, 66), (48, 0), (1, 31, 88, 27, 39, 21645, 26, 13, 45, 24), (87, -36, 54, 18, 49, -2, 47, -1), (41, 87, 36, 31, 63, -27, 90, -18), (69, -12, 10, 31));
}

proof fn lemma_tangent_11_17()
    ensures
        sline_eval(g1p(32, 59), g1p(32, 59), dq(48, 0)) == Some((gt_of(68, 54), g1p(12, 32))),
{
    lemma_tangent_at((32, 59), (48, 0), (1, 17, 6, 1, 50, 182, 12, 24, 32, 9), (16, -16, 77, 23, 26, -1, 24, -1), (29, 95, 84, 79, 10, -50, 8, -40), (68, 0, 54, 2));
}

proof fn lemma_tangent_12_17()
    ensures
        sline_eval(g1p(12, 69), g1p(12, 69), dq(48, 0)) == Some((gt_of(69, 68), g1p(91, 35))),
{
    lemma_tangent_at((12, 69), (48, 0), (1, 37, 71, 26, 69, 303, 91, 46, 35, -55), (81, -9, 80, 32, 52, -2, 21, -1), (148, 5, 81, 4, 53, -112, 51, -39), (69, 16, 68, 26));
}

proof fn lemma_tangent_13_17()
    ensures
        sline_eval(g1p(65, 3), g1p(65, 3), dq(48, 0)) == Some((gt_of(66, 51), g1p(18, 52))),
{
    lemma_tangent_at((65, 3), (48, 0), (0, 6, 17, 1, 42, 2133, 18, 16, 52, 19), (98, -28, 97, 19, 0, -1, 4, -1), (34, 58, 54, 31, 72, -36, 34, -26), (66, -2, 51, 1));
}

proof fn lemma_tangent_14_17()
    ensures
        sline_eval(g1p(26, 56), g1p(26, 56), dq(48, 0)) == Some((gt_of(44, 25), g1p(32, 59))),
{
    lemma_tangent_at((26, 56), (48, 0), (1, 11, 46, 5, 65, 923, 32, 41, 59, -5), (27, -17, 90, 30, 18, -1, 11, -1), (48, 16, 19, 3, 96, -16, 98, -10), (44, 6, 25, 17));
}

proof fn lemma_tangent_15_17()
    ensures
        sline_eval(g1p(68, 27), g1p(68, 27), dq(48, 0)) == Some((gt_of(23, 31), g1p(65, 3))),
{
    lemma_tangent_at((68, 27), (48, 0), (0, 54, 58, 31, 10, 7966, 65, -1, 3, 0), (27, -7, 76, 4, 47, -1, 25, -1), (95, 54, 58, 31, 11, -65, 44, -28), (23, -6, 31, 12));
}

proof fn lemma_tangent_16_17()
    ensures
        sline_eval(g1p(1, 99), g1p(1, 99), dq(48, 0)) == Some((gt_of(71, 43), g1p(68, 27))),
{
    lemma_tangent_at((1, 99), (48, 0), (1, 97, 25, 24, 75, 0, 68, 55, 27, -51), (26, -1, 65, 35, 77, -2, 36, -1), (100, 92, 56, 51, 69, -65, 39, -27), (71, 38, 43, 40));
}

proof fn lemma_final_exp_1_17()
    ensures
        GT(gt_of(36, 72)).spow(600) == GT(gt_of(1, 0)),
{
    assert(GT::sone() == GT(gt_of(1, 0)));
    lemma_gt_mul_at((36, 72), (36, 72), (51, 0), (-39, 0));
    assert(GT::spow_steps(GT(gt_of(1, 0)), GT(gt_of(36, 72)), 600) == GT::spow_steps(GT(gt_of(1, 0)), GT(gt_of(51, 0)), 300));
    lemma_gt_mul_at((51, 0), (51, 0), (76, 0), (25, 0));
    assert(GT::spow_steps(GT(gt_of(1, 0)), GT(gt_of(51, 0)), 300) == GT::spow_steps(GT(gt_of(1, 0)), GT(gt_of(76, 0)), 150));
    lemma_gt_mul_at((76, 0), (76, 0), (19, 0), (57, 0));
    assert(GT::spow_steps(GT(gt_of(1, 0)), GT(gt_of(76, 0)), 150) == GT::spow_steps(GT(gt_of(1, 0)), GT(gt_of(19, 0)), 75));
    lemma_gt_mul_at((1, 0), (19, 0), (19, 0), (0, 0));
    lemma_gt_mul_at((19, 0), (19, 0), (58, 0), (3, 0));
    assert(GT::spow_steps(GT(gt_of(1, 0)), GT(gt_of(19, 0)), 75) == GT::spow_steps(GT(gt_of(19, 0)), GT(gt_of(58, 0)), 37));
    lemma_gt_mul_at((19, 0), (58, 0), (92, 0), (10, 0));
    lemma_gt_mul_at((58, 0), (58, 0), (31, 0), (33, 0));
    assert(GT::spow_steps(GT(gt_of(19, 0)), GT(gt_of(58, 0)), 37) == GT::spow_steps(GT(gt_of(92, 0)), GT(gt_of(31, 0)), 18));
    lemma_gt_mul_at((31, 0), (31, 0), (52, 0), (9, 0));
    assert(GT::spow_steps(GT(gt_of(92, 0)), GT(gt_of(31, 0)), 18) == GT::spow_steps(GT(gt_of(92, 0)), GT(gt_of(52, 0)), 9));
    lemma_gt_mul_at((92, 0), (52, 0), (37, 0), (47, 0));
    lemma_gt_mul_at((52, 0), (52, 0), (78, 0), (26, 0));
    assert(GT::spow_steps(GT(gt_of(92, 0)), GT(gt_of(52, 0)), 9) == GT::spow_steps(GT(gt_of(37, 0)), GT(gt_of(78, 0)), 4));
    lemma_gt_mul_at((78, 0), (78, 0), (24, 0), (60, 0));
    assert(GT::spow_steps(GT(gt_of(37, 0)), GT(gt_of(78, 0)), 4) == GT::spow_steps(GT(gt_of(37, 0)), GT(gt_of(24, 0)), 2));
    lemma_gt_mul_at((24, 0), (24, 0), (71, 0), (5, 0));
    assert(GT::spow_steps(GT(gt_of(37, 0)), GT(gt_of(24, 0)), 2) == GT::spow_steps(GT(gt_of(37, 0)), GT(gt_of(71, 0)), 1));
    lemma_gt_mul_at((37, 0), (71, 0), (1, 0), (26, 0));
    lemma_gt_mul_at((71, 0), (71, 0), (92, 0), (49, 0));
    assert(GT::spow_steps(GT(gt_of(37, 0)), GT(gt_of(71, 0)), 1) == GT::spow_steps(GT(gt_of(1, 0)), GT(gt_of(92, 0)), 0));
}

/// The pairing of `1G` with the point `17 P` of the image of `H`.
proof fn lemma_pairing_col_1_17()
    ensures
        smiller_loop(g1p(1, 2), dq(48, 0)) is Some,
        spairing_at(g1p(1, 2), dq(48, 0)) == GT(gt_of(1, 0)),
{
    lemma_final_exponent();
    lemma_tangent_1_17();
    lemma_tangent_2_17();
    lemma_tangent_4_17();
    lemma_tangent_8_17();
    lemma_vertical_at(1, 99, 2, 48, 0);
    lemma_miller_at(
        g1p(1, 2),
        dq(48, 0),
        (g1p(68, 74), g1p(65, 98), g1p(18, 49), g1p(1, 99)),
        (30, 58),
        (78, 70),
        (35, 50),
        (31, 84),
        (-1, 48),
        ((61, 15, -25, 1), (72, 47, 36, 43), (46, 14, 29, 45), (1, 70, 9, 20)),
        ((50, 88, -49, -48), (16, 41, -58, -5), (36, 72, -20, -13)),
    );
    lemma_final_exp_1_17();
}

proof fn lemma_final_exp_2_17()
    ensures
        GT(gt_of(0, 5)).spow(600) == GT(gt_of(1, 0)),
{
    assert(GT::sone() == GT(gt_of(1, 0)));
    lemma_gt_mul_at((0, 5), (0, 5), (76, 76), (-1, -1));
    assert(GT::spow_steps(GT(gt_of(1, 0)), GT(gt_of(0, 5)), 600) == GT::spow_steps(GT(gt_of(1, 0)), GT(gt_of(76, 76)), 300));
    lemma_gt_mul_at((76, 76), (76, 76), (0, 19), (0, 57));
    assert(GT::spow_steps(GT(gt_of(1, 0)), GT(gt_of(76, 76)), 300) == GT::spow_steps(GT(gt_of(1, 0)), GT(gt_of(0, 19)), 150));
    lemma_gt_mul_at((0, 19), (0, 19), (43, 43), (-4, -4));
    assert(GT::spow_steps(GT(gt_of(1, 0)), GT(gt_of(0, 19)), 150) == GT::spow_steps(GT(gt_of(1, 0)), GT(gt_of(43, 43)), 75));
    lemma_gt_mul_at((1, 0), (43, 43), (43, 43), (0, 0));
    lemma_gt_mul_at((43, 43), (43, 43), (0, 31), (0, 18));
    assert(GT::spow_steps(GT(gt_of(1, 0)), GT(gt_of(43, 43)), 75) == GT::spow_steps(GT(gt_of(43, 43)), GT(gt_of(0, 31)), 37));
    lemma_gt_mul_at((43, 43), (0, 31), (81, 0), (-14, 0));
    lemma_gt_mul_at((0, 31), (0, 31), (49, 49), (-10, -10));
    assert(GT::spow_steps(GT(gt_of(43, 43)), GT(gt_of(0, 31)), 37) == GT::spow_steps(GT(gt_of(81, 0)), GT(gt_of(49, 49)), 18));
    lemma_gt_mul_at((49, 49), (49, 49), (0, 78), (0, 23));
    assert(GT::spow_steps(GT(gt_of(81, 0)), GT(gt_of(49, 49)), 18) == GT::spow_steps(GT(gt_of(81, 0)), GT(gt_of(0, 78)), 9));
    lemma_gt_mul_at((81, 0), (0, 78), (0, 56), (0, 62));
    lemma_gt_mul_at((0, 78), (0, 78), (77, 77), (-61, -61));
    assert(GT::spow_steps(GT(gt_of(81, 0)), GT(gt_of(0, 78)), 9) == GT::spow_steps(GT(gt_of(0, 56)), GT(gt_of(77, 77)), 4));
    lemma_gt_mul_at((77, 77), (77, 77), (0, 71), (0, 58));
    assert(GT::spow_steps(GT(gt_of(0, 56)), GT(gt_of(77, 77)), 4) == GT::spow_steps(GT(gt_of(0, 56)), GT(gt_of(0, 71)), 2));
    lemma_gt_mul_at((0, 71), (0, 71), (9, 9), (-50, -50));
    assert(GT::spow_steps(GT(gt_of(0, 56)), GT(gt_of(0, 71)), 2) == GT::spow_steps(GT(gt_of(0, 56)), GT(gt_of(9, 9)), 1));
    lemma_gt_mul_at((0, 56), (9, 9), (1, 0), (-5, 0));
    lemma_gt_mul_at((9, 9), (9, 9), (0, 81), (0, 0));
    assert(GT::spow_steps(GT(gt_of(0, 56)), GT(gt_of(9, 9)), 1) == GT::spow_steps(GT(gt_of(1, 0)), GT(gt_of(0, 81)), 0));
}

/// The pairing of `2G` with the point `17 P` of the image of `H`.
proof fn lemma_pairing_col_2_17()
    ensures
        smiller_loop(g1p(68, 74), dq(48, 0)) is Some,
        spairing_at(g1p(68, 74), dq(48, 0)) == GT(gt_of(1, 0)),
{
    lemma_final_exponent();
    lemma_tangent_2_17();
    lemma_tangent_4_17();
    lemma_tangent_8_17();
    lemma_tangent_16_17();
    lemma_vertical_at(68, 27, 74, 48, 0);
    lemma_miller_at(
        g1p(68, 74),
        dq(48, 0),
        (g1p(65, 98), g1p(18, 49), g1p(1, 99), g1p(68, 27)),
        (78, 70),
        (35, 50),
        (31, 84),
        (71, 43),
        (-68, 48),
        ((73, 61, 11, 59), (10, 8, -5, 27), (36, 96, 0, 0), (21, 57, -69, -21)),
        ((20, 54, -28, -9), (7, 49, -9, 23), (0, 5, -28, -53)),
    );
    lemma_final_exp_2_17();
}

proof fn lemma_final_exp_3_17()
    ensures
        GT(gt_of(0, 32)).spow(600) == GT(gt_of(1, 0)),
{
    assert(GT::sone() == GT(gt_of(1, 0)));
    lemma_gt_mul_at((0, 32), (0, 32), (87, 87), (-11, -11));
    assert(GT::spow_steps(GT(gt_of(1, 0)), GT(gt_of(0, 32)), 600) == GT::spow_steps(GT(gt_of(1, 0)), GT(gt_of(87, 87)), 300));
    lemma_gt_mul_at((87, 87), (87, 87), (0, 95), (0, 74));
    assert(GT::spow_steps(GT(gt_of(1, 0)), GT(gt_of(87, 87)), 300) == GT::spow_steps(GT(gt_of(1, 0)), GT(gt_of(0, 95)), 150));
    lemma_gt_mul_at((0, 95), (0, 95), (65, 65), (-90, -90));
    assert(GT::spow_steps(GT(gt_of(1, 0)), GT(gt_of(0, 95)), 150) == GT::spow_steps(GT(gt_of(1, 0)), GT(gt_of(65, 65)), 75));
    lemma_gt_mul_at((1, 0), (65, 65), (65, 65), (0, 0));
    lemma_gt_mul_at((65, 65), (65, 65), (0, 84), (0, 41));
    assert(GT::spow_steps(GT(gt_of(1, 0)), GT(gt_of(65, 65)), 75) == GT::spow_steps(GT(gt_of(65, 65)), GT(gt_of(0, 84)), 37));
    lemma_gt_mul_at((65, 65), (0, 84), (95, 0), (-55, 0));
    lemma_gt_mul_at((0, 84), (0, 84), (14, 14), (-70, -70));
    assert(GT::spow_steps(GT(gt_of(65, 65)), GT(gt_of(0, 84)), 37) == GT::spow_steps(GT(gt_of(95, 0)), GT(gt_of(14, 14)), 18));
    lemma_gt_mul_at((14, 14), (14, 14), (0, 95), (0, 1));
    assert(GT::spow_steps(GT(gt_of(95, 0)), GT(gt_of(14, 14)), 18) == GT::spow_steps(GT(gt_of(95, 0)), GT(gt_of(0, 95)), 9));
    lemma_gt_mul_at((95, 0), (0, 95), (0, 36), (0, 89));
    lemma_gt_mul_at((0, 95), (0, 95), (65, 65), (-90, -90));
    assert(GT::spow_steps(GT(gt_of(95, 0)), GT(gt_of(0, 95)), 9) == GT::spow_steps(GT(gt_of(0, 36)), GT(gt_of(65, 65)), 4));
    lemma_gt_mul_at((65, 65), (65, 65), (0, 84), (0, 41));
    assert(GT::spow_steps(GT(gt_of(0, 36)), GT(gt_of(65, 65)), 4) == GT::spow_steps(GT(gt_of(0, 36)), GT(gt_of(0, 84)), 2));
    lemma_gt_mul_at((0, 84), (0, 84), (14, 14), (-70, -70));
    assert(GT::spow_steps(GT(gt_of(0, 36)), GT(gt_of(0, 84)), 2) == GT::spow_steps(GT(gt_of(0, 36)), GT(gt_of(14, 14)), 1));
    lemma_gt_mul_at((0, 36), (14, 14), (1, 0), (-5, 0));
    lemma_gt_mul_at((14, 14), (14, 14), (0, 95), (0, 1));
    assert(GT::spow_steps(GT(gt_of(0, 36)), GT(gt_of(14, 14)), 1) == GT::spow_steps(GT(gt_of(1, 0)), GT(gt_of(0, 95)), 0));
}

/// The pairing of `3G` with the point `17 P` of the image of `H`.
proof fn lemma_pairing_col_3_17()
    ensures
        smiller_loop(g1p(26, 45), dq(48, 0)) is Some,
        spairing_at(g1p(26, 45), dq(48, 0)) == GT(gt_of(1, 0)),
{
    lemma_final_exponent();
    lemma_tangent_3_17();
    lemma_tangent_6_17();
    lemma_tangent_12_17();
    lemma_tangent_7_17();
    lemma_vertical_at(26, 56, 45, 48, 0);
    lemma_miller_at(
        g1p(26, 45),
        dq(48, 0),
        (g1p(32, 42), g1p(12, 69), g1p(91, 35), g1p(26, 56)),
        (57, 76),
        (33, 47),
        (69, 68),
        (32, 91),
        (-26, 48),
        ((99, 60, -26, 28), (43, 76, 4, 37), (12, 53, -39, 7), (52, 61, -28, 8)),
        ((94, 98, -11, 25), (49, 45, -59, 27), (0, 32, -34, -10)),
    );
    lemma_final_exp_3_17();
}

proof fn lemma_final_exp_4_17()
    ensures
        GT(gt_of(94, 0)).spow(600) == GT(gt_of(1, 0)),
{
    assert(GT::sone() == GT(gt_of(1, 0)));
    lemma_gt_mul_at((94, 0), (94, 0), (49, 0), (87, 0));
    assert(GT::spow_steps(GT(gt_of(1, 0)), GT(gt_of(94, 0)), 600) == GT::spow_steps(GT(gt_of(1, 0)), GT(gt_of(49, 0)), 300));
    lemma_gt_mul_at((49, 0), (49, 0), (78, 0), (23, 0));
    assert(GT::spow_steps(GT(gt_of(1, 0)), GT(gt_of(49, 0)), 300) == GT::spow_steps(GT(gt_of(1, 0)), GT(gt_of(78, 0)), 150));
    lemma_gt_mul_at((78, 0), (78, 0), (24, 0), (60, 0));
    assert(GT::spow_steps(GT(gt_of(1, 0)), GT(gt_of(78, 0)), 150) == GT::spow_steps(GT(gt_of(1, 0)), GT(gt_of(24, 0)), 75));
    lemma_gt_mul_at((1, 0), (24, 0), (24, 0), (0, 0));
    lemma_gt_mul_at((24, 0), (24, 0), (71, 0), (5, 0));
    assert(GT::spow_steps(GT(gt_of(1, 0)), GT(gt_of(24, 0)), 75) == GT::spow_steps(GT(gt_of(24, 0)), GT(gt_of(71, 0)), 37));
    lemma_gt_mul_at((24, 0), (71, 0), (88, 0), (16, 0));
    lemma_gt_mul_at((71, 0), (71, 0), (92, 0), (49, 0));
    assert(GT::spow_steps(GT(gt_of(24, 0)), GT(gt_of(71, 0)), 37) == GT::spow_steps(GT(gt_of(88, 0)), GT(gt_of(92, 0)), 18));
    lemma_gt_mul_at((92, 0), (92, 0), (81, 0), (83, 0));
    assert(GT::spow_steps(GT(gt_of(88, 0)), GT(gt_of(92, 0)), 18) == GT::spow_steps(GT(gt_of(88, 0)), GT(gt_of(81, 0)), 9));
    lemma_gt_mul_at((88, 0), (81, 0), (58, 0), (70, 0));
    lemma_gt_mul_at((81, 0), (81, 0), (97, 0), (64, 0));
    assert(GT::spow_steps(GT(gt_of(88, 0)), GT(gt_of(81, 0)), 9) == GT::spow_steps(GT(gt_of(58, 0)), GT(gt_of(97, 0)), 4));
    lemma_gt_mul_at((97, 0), (97, 0), (16, 0), (93, 0));
    assert(GT::spow_steps(GT(gt_of(58, 0)), GT(gt_of(97, 0)), 4) == GT::spow_steps(GT(gt_of(58, 0)), GT(gt_of(16, 0)), 2));
    lemma_gt_mul_at((16, 0), (16, 0), (54, 0), (2, 0));
    assert(GT::spow_steps(GT(gt_of(58, 0)), GT(gt_of(16, 0)), 2) == GT::spow_steps(GT(gt_of(58, 0)), GT(gt_of(54, 0)), 1));
    lemma_gt_mul_at((58, 0), (54, 0), (1, 0), (31, 0));
    lemma_gt_mul_at((54, 0), (54, 0), (88, 0), (28, 0));
    assert(GT::spow_steps(GT(gt_of(58, 0)), GT(gt_of(54, 0)), 1) == GT::spow_steps(GT(gt_of(1, 0)), GT(gt_of(88, 0)), 0));
}

/// The pairing of `4G` with the point `17 P` of the image of `H`.
proof fn lemma_pairing_col_4_17()
    ensures
        smiller_loop(g1p(65, 98), dq(48, 0)) is Some,
        spairing_at(g1p(65, 98), dq(48, 0)) == GT(gt_of(1, 0)),
{
    lemma_final_exponent();
    lemma_tangent_4_17();
    lemma_tangent_8_17();
    lemma_tangent_16_17();
    lemma_tangent_15_17();
    lemma_vertical_at(65, 3, 98, 48, 0);
    lemma_miller_at(
        g1p(65, 98),
        dq(48, 0),
        (g1p(18, 49), g1p(1, 99), g1p(68, 27), g1p(65, 3)),
        (35, 50),
        (31, 84),
        (71, 43),
        (23, 31),
        (-65, 48),
        ((38, 91, -13, 9), (99, 86, -65, -17), (82, 37, 23, 95), (90, 17, 41, 45)),
        ((34, 44, 77, 27), (24, 96, -6, 6), (94, 0, -62, -96)),
    );
    lemma_final_exp_4_17();
}

proof fn lemma_final_exp_5_17()
    ensures
        GT(gt_of(39, 39)).spow(600) == GT(gt_of(1, 0)),
{
    assert(GT::sone() == GT(gt_of(1, 0)));
    lemma_gt_mul_at((39, 39), (39, 39), (0, 6), (0, 15));
    assert(GT::spow_steps(GT(gt_of(1, 0)), GT(gt_of(39, 39)), 600) == GT::spow_steps(GT(gt_of(1, 0)), GT(gt_of(0, 6)), 300));
    lemma_gt_mul_at((0, 6), (0, 6), (65, 65), (-1, -1));
    assert(GT::spow_steps(GT(gt_of(1, 0)), GT(gt_of(0, 6)), 300) == GT::spow_steps(GT(gt_of(1, 0)), GT(gt_of(65, 65)), 150));
    lemma_gt_mul_at((65, 65), (65, 65), (0, 84), (0, 41));
    assert(GT::spow_steps(GT(gt_of(1, 0)), GT(gt_of(65, 65)), 150) == GT::spow_steps(GT(gt_of(1, 0)), GT(gt_of(0, 84)), 75));
    lemma_gt_mul_at((1, 0), (0, 84), (0, 84), (0, 0));
    lemma_gt_mul_at((0, 84), (0, 84), (14, 14), (-70, -70));
    assert(GT::spow_steps(GT(gt_of(1, 0)), GT(gt_of(0, 84)), 75) == GT::spow_steps(GT(gt_of(0, 84)), GT(gt_of(14, 14)), 37));
    lemma_gt_mul_at((0, 84), (14, 14), (36, 0), (-12, 0));
    lemma_gt_mul_at((14, 14), (14, 14), (0, 95), (0, 1));
    assert(GT::spow_steps(GT(gt_of(0, 84)), GT(gt_of(14, 14)), 37) == GT::spow_steps(GT(gt_of(36, 0)), GT(gt_of(0, 95)), 18));
    lemma_gt_mul_at((0, 95), (0, 95), (65, 65), (-90, -90));
    assert(GT::spow_steps(GT(gt_of(36, 0)), GT(gt_of(0, 95)), 18) == GT::spow_steps(GT(gt_of(36, 0)), GT(gt_of(65, 65)), 9));
    lemma_gt_mul_at((36, 0), (65, 65), (17, 17), (23, 23));
    lemma_gt_mul_at((65, 65), (65, 65), (0, 84), (0, 41));
    assert(GT::spow_steps(GT(gt_of(36, 0)), GT(gt_of(65, 65)), 9) == GT::spow_steps(GT(gt_of(17, 17)), GT(gt_of(0, 84)), 4));
    lemma_gt_mul_at((0, 84), (0, 84), (14, 14), (-70, -70));
    assert(GT::spow_steps(GT(gt_of(17, 17)), GT(gt_of(0, 84)), 4) == GT::spow_steps(GT(gt_of(17, 17)), GT(gt_of(14, 14)), 2));
    lemma_gt_mul_at((14, 14), (14, 14), (0, 95), (0, 1));
    assert(GT::spow_steps(GT(gt_of(17, 17)), GT(gt_of(14, 14)), 2) == GT::spow_steps(GT(gt_of(17, 17)), GT(gt_of(0, 95)), 1));
    lemma_gt_mul_at((17, 17), (0, 95), (1, 0), (-16, 0));
    lemma_gt_mul_at((0, 95), (0, 95), (65, 65), (-90, -90));
    assert(GT::spow_steps(GT(gt_of(17, 17)), GT(gt_of(0, 95)), 1) == GT::spow_steps(GT(gt_of(1, 0)), GT(gt_of(65, 65)), 0));
}

/// The pairing of `5G` with the point `17 P` of the image of `H`.
proof fn lemma_pairing_col_5_17()
    ensures
        smiller_loop(g1p(12, 32), dq(48, 0)) is Some,
        spairing_at(g1p(12, 32), dq(48, 0)) == GT(gt_of(1, 0)),
{
    lemma_final_exponent();
    lemma_tangent_5_17();
    lemma_tangent_10_17();
    lemma_tangent_3_17();
    lemma_tangent_6_17();
    lemma_vertical_at(12, 69, 32, 48, 0);
    lemma_miller_at(
        g1p(12, 32),
        dq(48, 0),
        (g1p(91, 66), g1p(26, 45), g1p(32, 42), g1p(12, 69)),
        (32, 33),
        (69, 10),
        (57, 76),
        (33, 47),
        (-12, 48),
        ((36, 13, -1, 10), (31, 16, 23, 11), (99, 29, 6, 7), (5, 4, 34, 69)),
        ((9, 24, 0, 0), (78, 87, -9, 0), (39, 39, -51, -15)),
    );
    lemma_final_exp_5_17();
}

proof fn lemma_final_exp_6_17()
    ensures
        GT(gt_of(26, 26)).spow(600) == GT(gt_of(1, 0)),
{
    assert(GT::sone() == GT(gt_of(1, 0)));
    lemma_gt_mul_at((26, 26), (26, 26), (0, 70), (0, 6));
    assert(GT::spow_steps(GT(gt_of(1, 0)), GT(gt_of(26, 26)), 600) == GT::spow_steps(GT(gt_of(1, 0)), GT(gt_of(0, 70)), 300));
    lemma_gt_mul_at((0, 70), (0, 70), (49, 49), (-49, -49));
    assert(GT::spow_steps(GT(gt_of(1, 0)), GT(gt_of(0, 70)), 300) == GT::spow_steps(GT(gt_of(1, 0)), GT(gt_of(49, 49)), 150));
    lemma_gt_mul_at((49, 49), (49, 49), (0, 78), (0, 23));
    assert(GT::spow_steps(GT(gt_of(1, 0)), GT(gt_of(49, 49)), 150) == GT::spow_steps(GT(gt_of(1, 0)), GT(gt_of(0, 78)), 75));
    lemma_gt_mul_at((1, 0), (0, 78), (0, 78), (0, 0));
    lemma_gt_mul_at((0, 78), (0, 78), (77, 77), (-61, -61));
    assert(GT::spow_steps(GT(gt_of(1, 0)), GT(gt_of(0, 78)), 75) == GT::spow_steps(GT(gt_of(0, 78)), GT(gt_of(77, 77)), 37));
    lemma_gt_mul_at((0, 78), (77, 77), (54, 0), (-60, 0));
    lemma_gt_mul_at((77, 77), (77, 77), (0, 71), (0, 58));
    assert(GT::spow_steps(GT(gt_of(0, 78)), GT(gt_of(77, 77)), 37) == GT::spow_steps(GT(gt_of(54, 0)), GT(gt_of(0, 71)), 18));
    lemma_gt_mul_at((0, 71), (0, 71), (9, 9), (-50, -50));
    assert(GT::spow_steps(GT(gt_of(54, 0)), GT(gt_of(0, 71)), 18) == GT::spow_steps(GT(gt_of(54, 0)), GT(gt_of(9, 9)), 9));
    lemma_gt_mul_at((54, 0), (9, 9), (82, 82), (4, 4));
    lemma_gt_mul_at((9, 9), (9, 9), (0, 81), (0, 0));
    assert(GT::spow_steps(GT(gt_of(54, 0)), GT(gt_of(9, 9)), 9) == GT::spow_steps(GT(gt_of(82, 82)), GT(gt_of(0, 81)), 4));
    lemma_gt_mul_at((0, 81), (0, 81), (4, 4), (-65, -65));
    assert(GT::spow_steps(GT(gt_of(82, 82)), GT(gt_of(0, 81)), 4) == GT::spow_steps(GT(gt_of(82, 82)), GT(gt_of(4, 4)), 2));
    lemma_gt_mul_at((4, 4), (4, 4), (0, 16), (0, 0));
    assert(GT::spow_steps(GT(gt_of(82, 82)), GT(gt_of(4, 4)), 2) == GT::spow_steps(GT(gt_of(82, 82)), GT(gt_of(0, 16)), 1));
    lemma_gt_mul_at((82, 82), (0, 16), (1, 0), (-13, 0));
    lemma_gt_mul_at((0, 16), (0, 16), (47, 47), (-3, -3));
    assert(GT::spow_steps(GT(gt_of(82, 82)), GT(gt_of(0, 16)), 1) == GT::spow_steps(GT(gt_of(1, 0)), GT(gt_of(47, 47)), 0));
}

/// The pairing of `6G` with the point `17 P` of the image of `H`.
proof fn lemma_pairing_col_6_17()
    ensures
        smiller_loop(g1p(32, 42), dq(48, 0)) is Some,
        spairing_at(g1p(32, 42), dq(48, 0)) == GT(gt_of(1, 0)),
{
    lemma_final_exponent();
    lemma_tangent_6_17();
    lemma_tangent_12_17();
    lemma_tangent_7_17();
    lemma_tangent_14_17();
    lemma_vertical_at(32, 59, 42, 48, 0);
    lemma_miller_at(
        g1p(32, 42),
        dq(48, 0),
        (g1p(12, 69), g1p(91, 35), g1p(26, 56), g1p(32, 59)),
        (33, 47),
        (69, 68),
        (32, 91),
        (44, 25),
        (-32, 48),
        ((92, 85, -12, 8), (63, 79, 5, 62), (51, 77, -23, 36), (79, 98, -54, 0)),
        ((71, 22, -34, 58), (49, 72, 25, 21), (26, 26, -50, -34)),
    );
    lemma_final_exp_6_17();
}

proof fn lemma_final_exp_7_17()
    ensures
        GT(gt_of(61, 61)).spow(600) == GT(gt_of(1, 0)),
{
    assert(GT::sone() == GT(gt_of(1, 0)));
    lemma_gt_mul_at((61, 61), (61, 61), (0, 85), (0, 36));
    assert(GT::spow_steps(GT(gt_of(1, 0)), GT(gt_of(61, 61)), 600) == GT::spow_steps(GT(gt_of(1, 0)), GT(gt_of(0, 85)), 300));
    lemma_gt_mul_at((0, 85), (0, 85), (47, 47), (-72, -72));
    assert(GT::spow_steps(GT(gt_of(1, 0)), GT(gt_of(0, 85)), 300) == GT::spow_steps(GT(gt_of(1, 0)), GT(gt_of(47, 47)), 150));
    lemma_gt_mul_at((47, 47), (47, 47), (0, 88), (0, 21));
    assert(GT::spow_steps(GT(gt_of(1, 0)), GT(gt_of(47, 47)), 150) == GT::spow_steps(GT(gt_of(1, 0)), GT(gt_of(0, 88)), 75));
    lemma_gt_mul_at((1, 0), (0, 88), (0, 88), (0, 0));
    lemma_gt_mul_at((0, 88), (0, 88), (33, 33), (-77, -77));
    assert(GT::spow_steps(GT(gt_of(1, 0)), GT(gt_of(0, 88)), 75) == GT::spow_steps(GT(gt_of(0, 88)), GT(gt_of(33, 33)), 37));
    lemma_gt_mul_at((0, 88), (33, 33), (25, 0), (-29, 0));
    lemma_gt_mul_at((33, 33), (33, 33), (0, 79), (0, 10));
    assert(GT::spow_steps(GT(gt_of(0, 88)), GT(gt_of(33, 33)), 37) == GT::spow_steps(GT(gt_of(25, 0)), GT(gt_of(0, 79)), 18));
    lemma_gt_mul_at((0, 79), (0, 79), (21, 21), (-62, -62));
    assert(GT::spow_steps(GT(gt_of(25, 0)), GT(gt_of(0, 79)), 18) == GT::spow_steps(GT(gt_of(25, 0)), GT(gt_of(21, 21)), 9));
    lemma_gt_mul_at((25, 0), (21, 21), (20, 20), (5, 5));
    lemma_gt_mul_at((21, 21), (21, 21), (0, 37), (0, 4));
    assert(GT::spow_steps(GT(gt_of(25, 0)), GT(gt_of(21, 21)), 9) == GT::spow_steps(GT(gt_of(20, 20)), GT(gt_of(0, 37)), 4));
    lemma_gt_mul_at((0, 37), (0, 37), (45, 45), (-14, -14));
    assert(GT::spow_steps(GT(gt_of(20, 20)), GT(gt_of(0, 37)), 4) == GT::spow_steps(GT(gt_of(20, 20)), GT(gt_of(45, 45)), 2));
    lemma_gt_mul_at((45, 45), (45, 45), (0, 5), (0, 20));
    assert(GT::spow_steps(GT(gt_of(20, 20)), GT(gt_of(45, 45)), 2) == GT::spow_steps(GT(gt_of(20, 20)), GT(gt_of(0, 5)), 1));
    lemma_gt_mul_at((20, 20), (0, 5), (1, 0), (-1, 0));
    lemma_gt_mul_at((0, 5), (0, 5), (76, 76), (-1, -1));
    assert(GT::spow_steps(GT(gt_of(20, 20)), GT(gt_of(0, 5)), 1) == GT::spow_steps(GT(gt_of(1, 0)), GT(gt_of(76, 76)), 0));
}

/// The pairing of `7G` with the point `17 P` of the image of `H`.
proof fn lemma_pairing_col_7_17()
    ensures
        smiller_loop(g1p(91, 35), dq(48, 0)) is Some,
        spairing_at(g1p(91, 35), dq(48, 0)) == GT(gt_of(1, 0)),
{
    lemma_final_exponent();
    lemma_tangent_7_17();
    lemma_tangent_14_17();
    lemma_tangent_11_17();
    lemma_tangent_5_17();
    lemma_vertical_at(91, 66, 35, 48, 0);
    lemma_miller_at(
        g1p(91, 35),
        dq(48, 0),
        (g1p(26, 56), g1p(32, 59), g1p(12, 32), g1p(91, 66)),
        (32, 91),
        (44, 25),
        (68, 54),
        (32, 33),
        (-91, 48),
        ((15, 68, -72, -25), (71, 51, -11, 16), (16, 96, 24, 45), (45, 87, -41, 21)),
        ((11, 59, -55, 2), (21, 1, -16, 3), (61, 61, -20, 8)),
    );
    lemma_final_exp_7_17();
}

proof fn lemma_final_exp_8_17()
    ensures
        GT(gt_of(13, 13)).spow(600) == GT(gt_of(1, 0)),
{
    assert(GT::sone() == GT(gt_of(1, 0)));
    lemma_gt_mul_at((13, 13), (13, 13), (0, 68), (0, 1));
    assert(GT::spow_steps(GT(gt_of(1, 0)), GT(gt_of(13, 13)), 600) == GT::spow_steps(GT(gt_of(1, 0)), GT(gt_of(0, 68)), 300));
    lemma_gt_mul_at((0, 68), (0, 68), (22, 22), (-46, -46));
    assert(GT::spow_steps(GT(gt_of(1, 0)), GT(gt_of(0, 68)), 300) == GT::spow_steps(GT(gt_of(1, 0)), GT(gt_of(22, 22)), 150));
    lemma_gt_mul_at((22, 22), (22, 22), (0, 80), (0, 4));
    assert(GT::spow_steps(GT(gt_of(1, 0)), GT(gt_of(22, 22)), 150) == GT::spow_steps(GT(gt_of(1, 0)), GT(gt_of(0, 80)), 75));
    lemma_gt_mul_at((1, 0), (0, 80), (0, 80), (0, 0));
    lemma_gt_mul_at((0, 80), (0, 80), (64, 64), (-64, -64));
    assert(GT::spow_steps(GT(gt_of(1, 0)), GT(gt_of(0, 80)), 75) == GT::spow_steps(GT(gt_of(0, 80)), GT(gt_of(64, 64)), 37));
    lemma_gt_mul_at((0, 80), (64, 64), (31, 0), (-51, 0));
    lemma_gt_mul_at((64, 64), (64, 64), (0, 56), (0, 40));
    assert(GT::spow_steps(GT(gt_of(0, 80)), GT(gt_of(64, 64)), 37) == GT::spow_steps(GT(gt_of(31, 0)), GT(gt_of(0, 56)), 18));
    lemma_gt_mul_at((0, 56), (0, 56), (96, 96), (-32, -32));
    assert(GT::spow_steps(GT(gt_of(31, 0)), GT(gt_of(0, 56)), 18) == GT::spow_steps(GT(gt_of(31, 0)), GT(gt_of(96, 96)), 9));
    lemma_gt_mul_at((31, 0), (96, 96), (47, 47), (29, 29));
    lemma_gt_mul_at((96, 96), (96, 96), (0, 25), (0, 91));
    assert(GT::spow_steps(GT(gt_of(31, 0)), GT(gt_of(96, 96)), 9) == GT::spow_steps(GT(gt_of(47, 47)), GT(gt_of(0, 25)), 4));
    lemma_gt_mul_at((0, 25), (0, 25), (82, 82), (-7, -7));
    assert(GT::spow_steps(GT(gt_of(47, 47)), GT(gt_of(0, 25)), 4) == GT::spow_steps(GT(gt_of(47, 47)), GT(gt_of(82, 82)), 2));
    lemma_gt_mul_at((82, 82), (82, 82), (0, 58), (0, 66));
    assert(GT::spow_steps(GT(gt_of(47, 47)), GT(gt_of(82, 82)), 2) == GT::spow_steps(GT(gt_of(47, 47)), GT(gt_of(0, 58)), 1));
    lemma_gt_mul_at((47, 47), (0, 58), (1, 0), (-27, 0));
    lemma_gt_mul_at((0, 58), (0, 58), (70, 70), (-34, -34));
    assert(GT::spow_steps(GT(gt_of(47, 47)), GT(gt_of(0, 58)), 1) == GT::spow_steps(GT(gt_of(1, 0)), GT(gt_of(70, 70)), 0));
}

/// The pairing of `8G` with the point `17 P` of the image of `H`.
proof fn lemma_pairing_col_8_17()
    ensures
        smiller_loop(g1p(18, 49), dq(48, 0)) is Some,
        spairing_at(g1p(18, 49), dq(48, 0)) == GT(gt_of(1, 0)),
{
    lemma_final_exponent();
    lemma_tangent_8_17();
    lemma_tangent_16_17();
    lemma_tangent_15_17();
    lemma_tangent_13_17();
    lemma_vertical_at(18, 52, 49, 48, 0);
    lemma_miller_at(
        g1p(18, 49),
        dq(48, 0),
        (g1p(1, 99), g1p(68, 27), g1p(65, 3), g1p(18, 52)),
        (31, 84),
        (71, 43),
        (23, 31),
        (66, 51),
        (-18, 48),
        ((66, 71, -61, -19), (17, 79, 16, 47), (7, 81, -59, -36), (74, 74, -24, -5)),
        ((0, 22, 0, 54), (90, 27, -12, 3), (13, 13, -29, 25)),
    );
    lemma_final_exp_8_17();
}

proof fn lemma_final_exp_9_17()
    ensures
        GT(gt_of(88, 88)).spow(600) == GT(gt_of(1, 0)),
{
    assert(GT::sone() == GT(gt_of(1, 0)));
    lemma_gt_mul_at((88, 88), (88, 88), (0, 68), (0, 76));
    assert(GT::spow_steps(GT(gt_of(1, 0)), GT(gt_of(88, 88)), 600) == GT::spow_steps(GT(gt_of(1, 0)), GT(gt_of(0, 68)), 300));
    lemma_gt_mul_at((0, 68), (0, 68), (22, 22), (-46, -46));
    assert(GT::spow_steps(GT(gt_of(1, 0)), GT(gt_of(0, 68)), 300) == GT::spow_steps(GT(gt_of(1, 0)), GT(gt_of(22, 22)), 150));
    lemma_gt_mul_at((22, 22), (22, 22), (0, 80), (0, 4));
    assert(GT::spow_steps(GT(gt_of(1, 0)), GT(gt_of(22, 22)), 150) == GT::spow_steps(GT(gt_of(1, 0)), GT(gt_of(0, 80)), 75));
    lemma_gt_mul_at((1, 0), (0, 80), (0, 80), (0, 0));
    lemma_gt_mul_at((0, 80), (0, 80), (64, 64), (-64, -64));
    assert(GT::spow_steps(GT(gt_of(1, 0)), GT(gt_of(0, 80)), 75) == GT::spow_steps(GT(gt_of(0, 80)), GT(gt_of(64, 64)), 37));
    lemma_gt_mul_at((0, 80), (64, 64), (31, 0), (-51, 0));
    lemma_gt_mul_at((64, 64), (64, 64), (0, 56), (0, 40));
    assert(GT::spow_steps(GT(gt_of(0, 80)), GT(gt_of(64, 64)), 37) == GT::spow_steps(GT(gt_of(31, 0)), GT(gt_of(0, 56)), 18));
    lemma_gt_mul_at((0, 56), (0, 56), (96, 96), (-32, -32));
    assert(GT::spow_steps(GT(gt_of(31, 0)), GT(gt_of(0, 56)), 18) == GT::spow_steps(GT(gt_of(31, 0)), GT(gt_of(96, 96)), 9));
    lemma_gt_mul_at((31, 0), (96, 96), (47, 47), (29, 29));
    lemma_gt_mul_at((96, 96), (96, 96), (0, 25), (0, 91));
    assert(GT::spow_steps(GT(gt_of(31, 0)), GT(gt_of(96, 96)), 9) == GT::spow_steps(GT(gt_of(47, 47)), GT(gt_of(0, 25)), 4));
    lemma_gt_mul_at((0, 25), (0, 25), (82, 82), (-7, -7));
    assert(GT::spow_steps(GT(gt_of(47, 47)), GT(gt_of(0, 25)), 4) == GT::spow_steps(GT(gt_of(47, 47)), GT(gt_of(82, 82)), 2));
    lemma_gt_mul_at((82, 82), (82, 82), (0, 58), (0, 66));
    assert(GT::spow_steps(GT(gt_of(47, 47)), GT(gt_of(82, 82)), 2) == GT::spow_steps(GT(gt_of(47, 47)), GT(gt_of(0, 58)), 1));
    lemma_gt_mul_at((47, 47), (0, 58), (1, 0), (-27, 0));
    lemma_gt_mul_at((0, 58), (0, 58), (70, 70), (-34, -34));
    assert(GT::spow_steps(GT(gt_of(47, 47)), GT(gt_of(0, 58)), 1) == GT::spow_steps(GT(gt_of(1, 0)), GT(gt_of(70, 70)), 0));
}

/// The pairing of `9G` with the point `17 P` of the image of `H`.
proof fn lemma_pairing_col_9_17()
    ensures
        smiller_loop(g1p(18, 52), dq(48, 0)) is Some,
        spairing_at(g1p(18, 52), dq(48, 0)) == GT(gt_of(1, 0)),
{
    lemma_final_exponent();
    lemma_tangent_9_17();
    lemma_tangent_1_17();
    lemma_tangent_2_17();
    lemma_tangent_4_17();
    lemma_vertical_at(18, 49, 52, 48, 0);
    lemma_miller_at(
        g1p(18, 52),
        dq(48, 0),
        (g1p(1, 2), g1p(68, 74), g1p(65, 98), g1p(18, 49)),
        (70, 17),
        (30, 58),
        (78, 70),
        (35, 50),
        (-18, 48),
        ((66, 71, 45, 20), (84, 22, -22, 18), (7, 81, 65, 31), (27, 27, -51, 11)),
        ((0, 22, 0, 7), (11, 74, -11, -4), (88, 88, -38, -44)),
    );
    lemma_final_exp_9_17();
}

proof fn lemma_final_exp_10_17()
    ensures
        GT(gt_of(40, 40)).spow(600) == GT(gt_of(1, 0)),
{
    assert(GT::sone() == GT(gt_of(1, 0)));
    lemma_gt_mul_at((40, 40), (40, 40), (0, 85), (0, 15));
    assert(GT::spow_steps(GT(gt_of(1, 0)), GT(gt_of(40, 40)), 600) == GT::spow_steps(GT(gt_of(1, 0)), GT(gt_of(0, 85)), 300));
    lemma_gt_mul_at((0, 85), (0, 85), (47, 47), (-72, -72));
    assert(GT::spow_steps(GT(gt_of(1, 0)), GT(gt_of(0, 85)), 300) == GT::spow_steps(GT(gt_of(1, 0)), GT(gt_of(47, 47)), 150));
    lemma_gt_mul_at((47, 47), (47, 47), (0, 88), (0, 21));
    assert(GT::spow_steps(GT(gt_of(1, 0)), GT(gt_of(47, 47)), 150) == GT::spow_steps(GT(gt_of(1, 0)), GT(gt_of(0, 88)), 75));
    lemma_gt_mul_at((1, 0), (0, 88), (0, 88), (0, 0));
    lemma_gt_mul_at((0, 88), (0, 88), (33, 33), (-77, -77));
    assert(GT::spow_steps(GT(gt_of(1, 0)), GT(gt_of(0, 88)), 75) == GT::spow_steps(GT(gt_of(0, 88)), GT(gt_of(33, 33)), 37));
    lemma_gt_mul_at((0, 88), (33, 33), (25, 0), (-29, 0));
    lemma_gt_mul_at((33, 33), (33, 33), (0, 79), (0, 10));
    assert(GT::spow_steps(GT(gt_of(0, 88)), GT(gt_of(33, 33)), 37) == GT::spow_steps(GT(gt_of(25, 0)), GT(gt_of(0, 79)), 18));
    lemma_gt_mul_at((0, 79), (0, 79), (21, 21), (-62, -62));
    assert(GT::spow_steps(GT(gt_of(25, 0)), GT(gt_of(0, 79)), 18) == GT::spow_steps(GT(gt_of(25, 0)), GT(gt_of(21, 21)), 9));
    lemma_gt_mul_at((25, 0), (21, 21), (20, 20), (5, 5));
    lemma_gt_mul_at((21, 21), (21, 21), (0, 37), (0, 4));
    assert(GT::spow_steps(GT(gt_of(25, 0)), GT(gt_of(21, 21)), 9) == GT::spow_steps(GT(gt_of(20, 20)), GT(gt_of(0, 37)), 4));
    lemma_gt_mul_at((0, 37), (0, 37), (45, 45), (-14, -14));
    assert(GT::spow_steps(GT(gt_of(20, 20)), GT(gt_of(0, 37)), 4) == GT::spow_steps(GT(gt_of(20, 20)), GT(gt_of(45, 45)), 2));
    lemma_gt_mul_at((45, 45), (45, 45), (0, 5), (0, 20));
    assert(GT::spow_steps(GT(gt_of(20, 20)), GT(gt_of(45, 45)), 2) == GT::spow_steps(GT(gt_of(20, 20)), GT(gt_of(0, 5)), 1));
    lemma_gt_mul_at((20, 20), (0, 5), (1, 0), (-1, 0));
    lemma_gt_mul_at((0, 5), (0, 5), (76, 76), (-1, -1));
    assert(GT::spow_steps(GT(gt_of(20, 20)), GT(gt_of(0, 5)), 1) == GT::spow_steps(GT(gt_of(1, 0)), GT(gt_of(76, 76)), 0));
}

/// The pairing of `10G` with the point `17 P` of the image of `H`.
proof fn lemma_pairing_col_10_17()
    ensures
        smiller_loop(g1p(91, 66), dq(48, 0)) is Some,
        spairing_at(g1p(91, 66), dq(48, 0)) == GT(gt_of(1, 0)),
{
    lemma_final_exponent();
    lemma_tangent_10_17();
    lemma_tangent_3_17();
    lemma_tangent_6_17();
    lemma_tangent_12_17();
    lemma_vertical_at(91, 35, 66, 48, 0);
    lemma_miller_at(
        g1p(91, 66),
        dq(48, 0),
        (g1p(26, 45), g1p(32, 42), g1p(12, 69), g1p(91, 35)),
        (69, 10),
        (57, 76),
        (33, 47),
        (69, 68),
        (-91, 48),
        ((15, 68, 46, 12), (30, 50, -43, -2), (16, 96, -16, 4), (56, 14, -40, -6)),
        ((11, 59, 29, 13), (80, 100, -33, 7), (40, 40, -120, -100)),
    );
    lemma_final_exp_10_17();
}

proof fn lemma_final_exp_11_17()
    ensures
        GT(gt_of(75, 75)).spow(600) == GT(gt_of(1, 0)),
{
    assert(GT::sone() == GT(gt_of(1, 0)));
    lemma_gt_mul_at((75, 75), (75, 75), (0, 70), (0, 55));
    assert(GT::spow_steps(GT(gt_of(1, 0)), GT(gt_of(75, 75)), 600) == GT::spow_steps(GT(gt_of(1, 0)), GT(gt_of(0, 70)), 300));
    lemma_gt_mul_at((0, 70), (0, 70), (49, 49), (-49, -49));
    assert(GT::spow_steps(GT(gt_of(1, 0)), GT(gt_of(0, 70)), 300) == GT::spow_steps(GT(gt_of(1, 0)), GT(gt_of(49, 49)), 150));
    lemma_gt_mul_at((49, 49), (49, 49), (0, 78), (0, 23));
    assert(GT::spow_steps(GT(gt_of(1, 0)), GT(gt_of(49, 49)), 150) == GT::spow_steps(GT(gt_of(1, 0)), GT(gt_of(0, 78)), 75));
    lemma_gt_mul_at((1, 0), (0, 78), (0, 78), (0, 0));
    lemma_gt_mul_at((0, 78), (0, 78), (77, 77), (-61, -61));
    assert(GT::spow_steps(GT(gt_of(1, 0)), GT(gt_of(0, 78)), 75) == GT::spow_steps(GT(gt_of(0, 78)), GT(gt_of(77, 77)), 37));
    lemma_gt_mul_at((0, 78), (77, 77), (54, 0), (-60, 0));
    lemma_gt_mul_at((77, 77), (77, 77), (0, 71), (0, 58));
    assert(GT::spow_steps(GT(gt_of(0, 78)), GT(gt_of(77, 77)), 37) == GT::spow_steps(GT(gt_of(54, 0)), GT(gt_of(0, 71)), 18));
    lemma_gt_mul_at((0, 71), (0, 71), (9, 9), (-50, -50));
    assert(GT::spow_steps(GT(gt_of(54, 0)), GT(gt_of(0, 71)), 18) == GT::spow_steps(GT(gt_of(54, 0)), GT(gt_of(9, 9)), 9));
    lemma_gt_mul_at((54, 0), (9, 9), (82, 82), (4, 4));
    lemma_gt_mul_at((9, 9), (9, 9), (0, 81), (0, 0));
    assert(GT::spow_steps(GT(gt_of(54, 0)), GT(gt_of(9, 9)), 9) == GT::spow_steps(GT(gt_of(82, 82)), GT(gt_of(0, 81)), 4));
    lemma_gt_mul_at((0, 81), (0, 81), (4, 4), (-65, -65));
    assert(GT::spow_steps(GT(gt_of(82, 82)), GT(gt_of(0, 81)), 4) == GT::spow_steps(GT(gt_of(82, 82)), GT(gt_of(4, 4)), 2));
    lemma_gt_mul_at((4, 4), (4, 4), (0, 16), (0, 0));
    assert(GT::spow_steps(GT(gt_of(82, 82)), GT(gt_of(4, 4)), 2) == GT::spow_steps(GT(gt_of(82, 82)), GT(gt_of(0, 16)), 1));
    lemma_gt_mul_at((82, 82), (0, 16), (1, 0), (-13, 0));
    lemma_gt_mul_at((0, 16), (0, 16), (47, 47), (-3, -3));
    assert(GT::spow_steps(GT(gt_of(82, 82)), GT(gt_of(0, 16)), 1) == GT::spow_steps(GT(gt_of(1, 0)), GT(gt_of(47, 47)), 0));
}

/// The pairing of `11G` with the point `17 P` of the image of `H`.
proof fn lemma_pairing_col_11_17()
    ensures
        smiller_loop(g1p(32, 59), dq(48, 0)) is Some,
        spairing_at(g1p(32, 59), dq(48, 0)) == GT(gt_of(1, 0)),
{
    lemma_final_exponent();
    lemma_tangent_11_17();
    lemma_tangent_5_17();
    lemma_tangent_10_17();
    lemma_tangent_3_17();
    lemma_vertical_at(32, 42, 59, 48, 0);
    lemma_miller_at(
        g1p(32, 59),
        dq(48, 0),
        (g1p(12, 32), g1p(91, 66), g1p(26, 45), g1p(32, 42)),
        (68, 54),
        (32, 33),
        (69, 10),
        (57, 76),
        (-32, 48),
        ((92, 85, 16, 43), (38, 22, 1, 29), (51, 77, 9, 11), (22, 3, 27, 50)),
        ((71, 22, 4, 1), (52, 29, 23, 49), (75, 75, -31, 1)),
    );
    lemma_final_exp_11_17();
}

proof fn lemma_final_exp_12_17()
    ensures
        GT(gt_of(62, 62)).spow(600) == GT(gt_of(1, 0)),
{
    assert(GT::sone() == GT(gt_of(1, 0)));
    lemma_gt_mul_at((62, 62), (62, 62), (0, 6), (0, 38));
    assert(GT::spow_steps(GT(gt_of(1, 0)), GT(gt_of(62, 62)), 600) == GT::spow_steps(GT(gt_of(1, 0)), GT(gt_of(0, 6)), 300));
    lemma_gt_mul_at((0, 6), (0, 6), (65, 65), (-1, -1));
    assert(GT::spow_steps(GT(gt_of(1, 0)), GT(gt_of(0, 6)), 300) == GT::spow_steps(GT(gt_of(1, 0)), GT(gt_of(65, 65)), 150));
    lemma_gt_mul_at((65, 65), (65, 65), (0, 84), (0, 41));
    assert(GT::spow_steps(GT(gt_of(1, 0)), GT(gt_of(65, 65)), 150) == GT::spow_steps(GT(gt_of(1, 0)), GT(gt_of(0, 84)), 75));
    lemma_gt_mul_at((1, 0), (0, 84), (0, 84), (0, 0));
    lemma_gt_mul_at((0, 84), (0, 84), (14, 14), (-70, -70));
    assert(GT::spow_steps(GT(gt_of(1, 0)), GT(gt_of(0, 84)), 75) == GT::spow_steps(GT(gt_of(0, 84)), GT(gt_of(14, 14)), 37));
    lemma_gt_mul_at((0, 84), (14, 14), (36, 0), (-12, 0));
    lemma_gt_mul_at((14, 14), (14, 14), (0, 95), (0, 1));
    assert(GT::spow_steps(GT(gt_of(0, 84)), GT(gt_of(14, 14)), 37) == GT::spow_steps(GT(gt_of(36, 0)), GT(gt_of(0, 95)), 18));
    lemma_gt_mul_at((0, 95), (0, 95), (65, 65), (-90, -90));
    assert(GT::spow_steps(GT(gt_of(36, 0)), GT(gt_of(0, 95)), 18) == GT::spow_steps(GT(gt_of(36, 0)), GT(gt_of(65, 65)), 9));
    lemma_gt_mul_at((36, 0), (65, 65), (17, 17), (23, 23));
    lemma_gt_mul_at((65, 65), (65, 65), (0, 84), (0, 41));
    assert(GT::spow_steps(GT(gt_of(36, 0)), GT(gt_of(65, 65)), 9) == GT::spow_steps(GT(gt_of(17, 17)), GT(gt_of(0, 84)), 4));
    lemma_gt_mul_at((0, 84), (0, 84), (14, 14), (-70, -70));
    assert(GT::spow_steps(GT(gt_of(17, 17)), GT(gt_of(0, 84)), 4) == GT::spow_steps(GT(gt_of(17, 17)), GT(gt_of(14, 14)), 2));
    lemma_gt_mul_at((14, 14), (14, 14), (0, 95), (0, 1));
    assert(GT::spow_steps(GT(gt_of(17, 17)), GT(gt_of(14, 14)), 2) == GT::spow_steps(GT(gt_of(17, 17)), GT(gt_of(0, 95)), 1));
    lemma_gt_mul_at((17, 17), (0, 95), (1, 0), (-16, 0));
    lemma_gt_mul_at((0, 95), (0, 95), (65, 65), (-90, -90));
    assert(GT::spow_steps(GT(gt_of(17, 17)), GT(gt_of(0, 95)), 1) == GT::spow_steps(GT(gt_of(1, 0)), GT(gt_of(65, 65)), 0));
}

/// The pairing of `12G` with the point `17 P` of the image of `H`.
proof fn lemma_pairing_col_12_17()
    ensures
        smiller_loop(g1p(12, 69), dq(48, 0)) is Some,
        spairing_at(g1p(12, 69), dq(48, 0)) == GT(gt_of(1, 0)),
{
    lemma_final_exponent();
    lemma_tangent_12_17();
    lemma_tangent_7_17();
    lemma_tangent_14_17();
    lemma_tangent_11_17();
    lemma_vertical_at(12, 32, 69, 48, 0);
    lemma_miller_at(
        g1p(12, 69),
        dq(48, 0),
        (g1p(91, 35), g1p(26, 56), g1p(32, 59), g1p(12, 32)),
        (69, 68),
        (32, 91),
        (44, 25),
        (68, 54),
        (-12, 48),
        ((36, 13, 1, 47), (70, 85, -1, 24), (99, 29, -24, 46), (96, 97, 35, 29)),
        ((9, 24, -2, 91), (23, 14, -7, 8), (62, 62, -10, 2)),
    );
    lemma_final_exp_12_17();
}

proof fn lemma_final_exp_13_17()
    ensures
        GT(gt_of(7, 0)).spow(600) == GT(gt_of(1, 0)),
{
    assert(GT::sone() == GT(gt_of(1, 0)));
    lemma_gt_mul_at((7, 0), (7, 0), (49, 0), (0, 0));
    assert(GT::spow_steps(GT(gt_of(1, 0)), GT(gt_of(7, 0)), 600) == GT::spow_steps(GT(gt_of(1, 0)), GT(gt_of(49, 0)), 300));
    lemma_gt_mul_at((49, 0), (49, 0), (78, 0), (23, 0));
    assert(GT::spow_steps(GT(gt_of(1, 0)), GT(gt_of(49, 0)), 300) == GT::spow_steps(GT(gt_of(1, 0)), GT(gt_of(78, 0)), 150));
    lemma_gt_mul_at((78, 0), (78, 0), (24, 0), (60, 0));
    assert(GT::spow_steps(GT(gt_of(1, 0)), GT(gt_of(78, 0)), 150) == GT::spow_steps(GT(gt_of(1, 0)), GT(gt_of(24, 0)), 75));
    lemma_gt_mul_at((1, 0), (24, 0), (24, 0), (0, 0));
    lemma_gt_mul_at((24, 0), (24, 0), (71, 0), (5, 0));
    assert(GT::spow_steps(GT(gt_of(1, 0)), GT(gt_of(24, 0)), 75) == GT::spow_steps(GT(gt_of(24, 0)), GT(gt_of(71, 0)), 37));
    lemma_gt_mul_at((24, 0), (71, 0), (88, 0), (16, 0));
    lemma_gt_mul_at((71, 0), (71, 0), (92, 0), (49, 0));
    assert(GT::spow_steps(GT(gt_of(24, 0)), GT(gt_of(71, 0)), 37) == GT::spow_steps(GT(gt_of(88, 0)), GT(gt_of(92, 0)), 18));
    lemma_gt_mul_at((92, 0), (92, 0), (81, 0), (83, 0));
    assert(GT::spow_steps(GT(gt_of(88, 0)), GT(gt_of(92, 0)), 18) == GT::spow_steps(GT(gt_of(88, 0)), GT(gt_of(81, 0)), 9));
    lemma_gt_mul_at((88, 0), (81, 0), (58, 0), (70, 0));
    lemma_gt_mul_at((81, 0), (81, 0), (97, 0), (64, 0));
    assert(GT::spow_steps(GT(gt_of(88, 0)), GT(gt_of(81, 0)), 9) == GT::spow_steps(GT(gt_of(58, 0)), GT(gt_of(97, 0)), 4));
    lemma_gt_mul_at((97, 0), (97, 0), (16, 0), (93, 0));
    assert(GT::spow_steps(GT(gt_of(58, 0)), GT(gt_of(97, 0)), 4) == GT::spow_steps(GT(gt_of(58, 0)), GT(gt_of(16, 0)), 2));
    lemma_gt_mul_at((16, 0), (16, 0), (54, 0), (2, 0));
    assert(GT::spow_steps(GT(gt_of(58, 0)), GT(gt_of(16, 0)), 2) == GT::spow_steps(GT(gt_of(58, 0)), GT(gt_of(54, 0)), 1));
    lemma_gt_mul_at((58, 0), (54, 0), (1, 0), (31, 0));
    lemma_gt_mul_at((54, 0), (54, 0), (88, 0), (28, 0));
    assert(GT::spow_steps(GT(gt_of(58, 0)), GT(gt_of(54, 0)), 1) == GT::spow_steps(GT(gt_of(1, 0)), GT(gt_of(88, 0)), 0));
}

/// The pairing of `13G` with the point `17 P` of the image of `H`.
proof fn lemma_pairing_col_13_17()
    ensures
        smiller_loop(g1p(65, 3), dq(48, 0)) is Some,
        spairing_at(g1p(65, 3), dq(48, 0)) == GT(gt_of(1, 0)),
{
    lemma_final_exponent();
    lemma_tangent_13_17();
    lemma_tangent_9_17();
    lemma_tangent_1_17();
    lemma_tangent_2_17();
    lemma_vertical_at(65, 98, 3, 48, 0);
    lemma_miller_at(
        g1p(65, 3),
        dq(48, 0),
        (g1p(18, 52), g1p(1, 2), g1p(68, 74), g1p(65, 98)),
        (66, 51),
        (70, 17),
        (30, 58),
        (78, 70),
        (-65, 48),
        ((38, 91, 17, 40), (2, 15, 11, 54), (82, 37, -3, -2), (11, 84, 3, 36)),
        ((34, 44, -69, -52), (77, 5, -5, 27), (7, 0, -52, 31)),
    );
    lemma_final_exp_13_17();
}

proof fn lemma_final_exp_14_17()
    ensures
        GT(gt_of(0, 69)).spow(600) == GT(gt_of(1, 0)),
{
    assert(GT::sone() == GT(gt_of(1, 0)));
    lemma_gt_mul_at((0, 69), (0, 69), (87, 87), (-48, -48));
    assert(GT::spow_steps(GT(gt_of(1, 0)), GT(gt_of(0, 69)), 600) == GT::spow_steps(GT(gt_of(1, 0)), GT(gt_of(87, 87)), 300));
    lemma_gt_mul_at((87, 87), (87, 87), (0, 95), (0, 74));
    assert(GT::spow_steps(GT(gt_of(1, 0)), GT(gt_of(87, 87)), 300) == GT::spow_steps(GT(gt_of(1, 0)), GT(gt_of(0, 95)), 150));
    lemma_gt_mul_at((0, 95), (0, 95), (65, 65), (-90, -90));
    assert(GT::spow_steps(GT(gt_of(1, 0)), GT(gt_of(0, 95)), 150) == GT::spow_steps(GT(gt_of(1, 0)), GT(gt_of(65, 65)), 75));
    lemma_gt_mul_at((1, 0), (65, 65), (65, 65), (0, 0));
    lemma_gt_mul_at((65, 65), (65, 65), (0, 84), (0, 41));
    assert(GT::spow_steps(GT(gt_of(1, 0)), GT(gt_of(65, 65)), 75) == GT::spow_steps(GT(gt_of(65, 65)), GT(gt_of(0, 84)), 37));
    lemma_gt_mul_at((65, 65), (0, 84), (95, 0), (-55, 0));
    lemma_gt_mul_at((0, 84), (0, 84), (14, 14), (-70, -70));
    assert(GT::spow_steps(GT(gt_of(65, 65)), GT(gt_of(0, 84)), 37) == GT::spow_steps(GT(gt_of(95, 0)), GT(gt_of(14, 14)), 18));
    lemma_gt_mul_at((14, 14), (14, 14), (0, 95), (0, 1));
    assert(GT::spow_steps(GT(gt_of(95, 0)), GT(gt_of(14, 14)), 18) == GT::spow_steps(GT(gt_of(95, 0)), GT(gt_of(0, 95)), 9));
    lemma_gt_mul_at((95, 0), (0, 95), (0, 36), (0, 89));
    lemma_gt_mul_at((0, 95), (0, 95), (65, 65), (-90, -90));
    assert(GT::spow_steps(GT(gt_of(95, 0)), GT(gt_of(0, 95)), 9) == GT::spow_steps(GT(gt_of(0, 36)), GT(gt_of(65, 65)), 4));
    lemma_gt_mul_at((65, 65), (65, 65), (0, 84), (0, 41));
    assert(GT::spow_steps(GT(gt_of(0, 36)), GT(gt_of(65, 65)), 4) == GT::spow_steps(GT(gt_of(0, 36)), GT(gt_of(0, 84)), 2));
    lemma_gt_mul_at((0, 84), (0, 84), (14, 14), (-70, -70));
    assert(GT::spow_steps(GT(gt_of(0, 36)), GT(gt_of(0, 84)), 2) == GT::spow_steps(GT(gt_of(0, 36)), GT(gt_of(14, 14)), 1));
    lemma_gt_mul_at((0, 36), (14, 14), (1, 0), (-5, 0));
    lemma_gt_mul_at((14, 14), (14, 14), (0, 95), (0, 1));
    assert(GT::spow_steps(GT(gt_of(0, 36)), GT(gt_of(14, 14)), 1) == GT::spow_steps(GT(gt_of(1, 0)), GT(gt_of(0, 95)), 0));
}

/// The pairing of `14G` with the point `17 P` of the image of `H`.
proof fn lemma_pairing_col_14_17()
    ensures
        smiller_loop(g1p(26, 56), dq(48, 0)) is Some,
        spairing_at(g1p(26, 56), dq(48, 0)) == GT(gt_of(1, 0)),
{
    lemma_final_exponent();
    lemma_tangent_14_17();
    lemma_tangent_11_17();
    lemma_tangent_5_17();
    lemma_tangent_10_17();
    lemma_vertical_at(26, 45, 56, 48, 0);
    lemma_miller_at(
        g1p(26, 56),
        dq(48, 0),
        (g1p(32, 59), g1p(12, 32), g1p(91, 66), g1p(26, 45)),
        (44, 25),
        (68, 54),
        (32, 33),
        (69, 10),
        (-26, 48),
        ((99, 60, 12, 15), (58, 25, 34, 61), (12, 53, 27, 22), (49, 40, -14, 3)),
        ((94, 98, 7, 22), (52, 56, 54, 66), (0, 69, -40, -17)),
    );
    lemma_final_exp_14_17();
}

proof fn lemma_final_exp_15_17()
    ensures
        GT(gt_of(0, 96)).spow(600) == GT(gt_of(1, 0)),
{
    assert(GT::sone() == GT(gt_of(1, 0)));
    lemma_gt_mul_at((0, 96), (0, 96), (76, 76), (-92, -92));
    assert(GT::spow_steps(GT(gt_of(1, 0)), GT(gt_of(0, 96)), 600) == GT::spow_steps(GT(gt_of(1, 0)), GT(gt_of(76, 76)), 300));
    lemma_gt_mul_at((76, 76), (76, 76), (0, 19), (0, 57));
    assert(GT::spow_steps(GT(gt_of(1, 0)), GT(gt_of(76, 76)), 300) == GT::spow_steps(GT(gt_of(1, 0)), GT(gt_of(0, 19)), 150));
    lemma_gt_mul_at((0, 19), (0, 19), (43, 43), (-4, -4));
    assert(GT::spow_steps(GT(gt_of(1, 0)), GT(gt_of(0, 19)), 150) == GT::spow_steps(GT(gt_of(1, 0)), GT(gt_of(43, 43)), 75));
    lemma_gt_mul_at((1, 0), (43, 43), (43, 43), (0, 0));
    lemma_gt_mul_at((43, 43), (43, 43), (0, 31), (0, 18));
    assert(GT::spow_steps(GT(gt_of(1, 0)), GT(gt_of(43, 43)), 75) == GT::spow_steps(GT(gt_of(43, 43)), GT(gt_of(0, 31)), 37));
    lemma_gt_mul_at((43, 43), (0, 31), (81, 0), (-14, 0));
    lemma_gt_mul_at((0, 31), (0, 31), (49, 49), (-10, -10));
    assert(GT::spow_steps(GT(gt_of(43, 43)), GT(gt_of(0, 31)), 37) == GT::spow_steps(GT(gt_of(81, 0)), GT(gt_of(49, 49)), 18));
    lemma_gt_mul_at((49, 49), (49, 49), (0, 78), (0, 23));
    assert(GT::spow_steps(GT(gt_of(81, 0)), GT(gt_of(49, 49)), 18) == GT::spow_steps(GT(gt_of(81, 0)), GT(gt_of(0, 78)), 9));
    lemma_gt_mul_at((81, 0), (0, 78), (0, 56), (0, 62));
    lemma_gt_mul_at((0, 78), (0, 78), (77, 77), (-61, -61));
    assert(GT::spow_steps(GT(gt_of(81, 0)), GT(gt_of(0, 78)), 9) == GT::spow_steps(GT(gt_of(0, 56)), GT(gt_of(77, 77)), 4));
    lemma_gt_mul_at((77, 77), (77, 77), (0, 71), (0, 58));
    assert(GT::spow_steps(GT(gt_of(0, 56)), GT(gt_of(77, 77)), 4) == GT::spow_steps(GT(gt_of(0, 56)), GT(gt_of(0, 71)), 2));
    lemma_gt_mul_at((0, 71), (0, 71), (9, 9), (-50, -50));
    assert(GT::spow_steps(GT(gt_of(0, 56)), GT(gt_of(0, 71)), 2) == GT::spow_steps(GT(gt_of(0, 56)), GT(gt_of(9, 9)), 1));
    lemma_gt_mul_at((0, 56), (9, 9), (1, 0), (-5, 0));
    lemma_gt_mul_at((9, 9), (9, 9), (0, 81), (0, 0));
    assert(GT::spow_steps(GT(gt_of(0, 56)), GT(gt_of(9, 9)), 1) == GT::spow_steps(GT(gt_of(1, 0)), GT(gt_of(0, 81)), 0));
}

/// The pairing of `15G` with the point `17 P` of the image of `H`.
proof fn lemma_pairing_col_15_17()
    ensures
        smiller_loop(g1p(68, 27), dq(48, 0)) is Some,
        spairing_at(g1p(68, 27), dq(48, 0)) == GT(gt_of(1, 0)),
{
    lemma_final_exponent();
    lemma_tangent_15_17();
    lemma_tangent_13_17();
    lemma_tangent_9_17();
    lemma_tangent_1_17();
    lemma_vertical_at(68, 74, 27, 48, 0);
    lemma_miller_at(
        g1p(68, 27),
        dq(48, 0),
        (g1p(65, 3), g1p(18, 52), g1p(1, 2), g1p(68, 74)),
        (23, 31),
        (66, 51),
        (70, 17),
        (30, 58),
        (-68, 48),
        ((73, 61, -5, 4), (91, 93, 16, 45), (36, 96, -4, 81), (80, 44, 8, 56)),
        ((20, 54, 44, 50), (94, 52, -26, -4), (0, 96, -88, -16)),
    );
    lemma_final_exp_15_17();
}

proof fn lemma_final_exp_16_17()
    ensures
        GT(gt_of(65, 29)).spow(600) == GT(gt_of(1, 0)),
{
    assert(GT::sone() == GT(gt_of(1, 0)));
    lemma_gt_mul_at((65, 29), (65, 29), (51, 0), (33, 29));
    assert(GT::spow_steps(GT(gt_of(1, 0)), GT(gt_of(65, 29)), 600) == GT::spow_steps(GT(gt_of(1, 0)), GT(gt_of(51, 0)), 300));
    lemma_gt_mul_at((51, 0), (51, 0), (76, 0), (25, 0));
    assert(GT::spow_steps(GT(gt_of(1, 0)), GT(gt_of(51, 0)), 300) == GT::spow_steps(GT(gt_of(1, 0)), GT(gt_of(76, 0)), 150));
    lemma_gt_mul_at((76, 0), (76, 0), (19, 0), (57, 0));
    assert(GT::spow_steps(GT(gt_of(1, 0)), GT(gt_of(76, 0)), 150) == GT::spow_steps(GT(gt_of(1, 0)), GT(gt_of(19, 0)), 75));
    lemma_gt_mul_at((1, 0), (19, 0), (19, 0), (0, 0));
    lemma_gt_mul_at((19, 0), (19, 0), (58, 0), (3, 0));
    assert(GT::spow_steps(GT(gt_of(1, 0)), GT(gt_of(19, 0)), 75) == GT::spow_steps(GT(gt_of(19, 0)), GT(gt_of(58, 0)), 37));
    lemma_gt_mul_at((19, 0), (58, 0), (92, 0), (10, 0));
    lemma_gt_mul_at((58, 0), (58, 0), (31, 0), (33, 0));
    assert(GT::spow_steps(GT(gt_of(19, 0)), GT(gt_of(58, 0)), 37) == GT::spow_steps(GT(gt_of(92, 0)), GT(gt_of(31, 0)), 18));
    lemma_gt_mul_at((31, 0), (31, 0), (52, 0), (9, 0));
    assert(GT::spow_steps(GT(gt_of(92, 0)), GT(gt_of(31, 0)), 18) == GT::spow_steps(GT(gt_of(92, 0)), GT(gt_of(52, 0)), 9));
    lemma_gt_mul_at((92, 0), (52, 0), (37, 0), (47, 0));
    lemma_gt_mul_at((52, 0), (52, 0), (78, 0), (26, 0));
    assert(GT::spow_steps(GT(gt_of(92, 0)), GT(gt_of(52, 0)), 9) == GT::spow_steps(GT(gt_of(37, 0)), GT(gt_of(78, 0)), 4));
    lemma_gt_mul_at((78, 0), (78, 0), (24, 0), (60, 0));
    assert(GT::spow_steps(GT(gt_of(37, 0)), GT(gt_of(78, 0)), 4) == GT::spow_steps(GT(gt_of(37, 0)), GT(gt_of(24, 0)), 2));
    lemma_gt_mul_at((24, 0), (24, 0), (71, 0), (5, 0));
    assert(GT::spow_steps(GT(gt_of(37, 0)), GT(gt_of(24, 0)), 2) == GT::spow_steps(GT(gt_of(37, 0)), GT(gt_of(71, 0)), 1));
    lemma_gt_mul_at((37, 0), (71, 0), (1, 0), (26, 0));
    lemma_gt_mul_at((71, 0), (71, 0), (92, 0), (49, 0));
    assert(GT::spow_steps(GT(gt_of(37, 0)), GT(gt_of(71, 0)), 1) == GT::spow_steps(GT(gt_of(1, 0)), GT(gt_of(92, 0)), 0));
}

/// The pairing of `16G` with the point `17 P` of the image of `H`.
proof fn lemma_pairing_col_16_17()
    ensures
        smiller_loop(g1p(1, 99), dq(48, 0)) is Some,
        spairing_at(g1p(1, 99), dq(48, 0)) == GT(gt_of(1, 0)),
{
    lemma_final_exponent();
    lemma_tangent_16_17();
    lemma_tangent_15_17();
    lemma_tangent_13_17();
    lemma_tangent_9_17();
    lemma_vertical_at(1, 2, 99, 48, 0);
    lemma_miller_at(
        g1p(1, 99),
        dq(48, 0),
        (g1p(68, 27), g1p(65, 3), g1p(18, 52), g1p(1, 2)),
        (71, 43),
        (23, 31),
        (66, 51),
        (70, 17),
        (-1, 48),
        ((61, 15, 31, 42), (29, 54, 9, 17), (46, 14, -21, 2), (100, 31, 22, 25)),
        ((50, 88, 89, 51), (85, 60, 19, 54), (65, 29, -30, 11)),
    );
    lemma_final_exp_16_17();
}

/// `e(aG, 17 P) == 1`: the point `17 P` of the image of `H` has order two.
#[verifier::spinoff_prover]
pub(crate) proof fn lemma_pairing_column_17(a: nat)
    requires
        1 <= a < 17,
    ensures
        G1Point::sgenerator().smul(a) != G1Point::Infinity,
        smiller_loop(G1Point::sgenerator().smul(a), distort_point(col_point(17))) is Some,
        spairing_at(G1Point::sgenerator().smul(a), distort_point(col_point(17))) == e_gen().spow(0),
{
    lemma_powers();
    assert(col_point(17) == g1p(48, 0));
    assert(distort_point(col_point(17)) == dq(48, 0));
    if a == 1 {
        lemma_g1_multiple_1();
        lemma_pairing_col_1_17();
    } else if a == 2 {
        lemma_g1_multiple_2();
        lemma_pairing_col_2_17();
    } else if a == 3 {
        lemma_g1_multiple_3();
        lemma_pairing_col_3_17();
    } else if a == 4 {
        lemma_g1_multiple_4();
        lemma_pairing_col_4_17();
    } else if a == 5 {
        lemma_g1_multiple_5();
        lemma_pairing_col_5_17();
    } else if a == 6 {
        lemma_g1_multiple_6();
        lemma_pairing_col_6_17();
    } else if a == 7 {
        lemma_g1_multiple_7();
        lemma_pairing_col_7_17();
    } else if a == 8 {
        lemma_g1_multiple_8();
        lemma_pairing_col_8_17();
    } else if a == 9 {
        lemma_g1_multiple_9();
        lemma_pairing_col_9_17();
    } else if a == 10 {
        lemma_g1_multiple_10();
        lemma_pairing_col_10_17();
    } else if a == 11 {
        lemma_g1_multiple_11();
        lemma_pairing_col_11_17();
    } else if a == 12 {
        lemma_g1_multiple_12();
        lemma_pairing_col_12_17();
    } else if a == 13 {
        lemma_g1_multiple_13();
        lemma_pairing_col_13_17();
    } else if a == 14 {
        lemma_g1_multiple_14();
        lemma_pairing_col_14_17();
    } else if a == 15 {
        lemma_g1_multiple_15();
        lemma_pairing_col_15_17();
    } else if a == 16 {
        lemma_g1_multiple_16();
        lemma_pairing_col_16_17();
    }
}



/// `a G + b G == ((a + b) mod 17) G`.
pub(crate) proof fn lemma_g1_sum(a: nat, b: nat)
    requires
        a < 17,
        b < 17,
    ensures
        G1Point::sgenerator().smul(a).sadd(G1Point::sgenerator().smul(b)) == G1Point::sgenerator().smul((a + b) % 17),
{
    if a == 0 {
        lemma_g1_sum_row_0(b);
    } else if a == 1 {
        lemma_g1_sum_row_1(b);
    } else if a == 2 {
        lemma_g1_sum_row_2(b);
    } else if a == 3 {
        lemma_g1_sum_row_3(b);
    } else if a == 4 {
        lemma_g1_sum_row_4(b);
    } else if a == 5 {
        lemma_g1_sum_row_5(b);
    } else if a == 6 {
        lemma_g1_sum_row_6(b);
    } else if a == 7 {
        lemma_g1_sum_row_7(b);
    } else if a == 8 {
        lemma_g1_sum_row_8(b);
    } else if a == 9 {
        lemma_g1_sum_row_9(b);
    } else if a == 10 {
        lemma_g1_sum_row_10(b);
    } else if a == 11 {
        lemma_g1_sum_row_11(b);
    } else if a == 12 {
        lemma_g1_sum_row_12(b);
    } else if a == 13 {
        lemma_g1_sum_row_13(b);
    } else if a == 14 {
        lemma_g1_sum_row_14(b);
    } else if a == 15 {
        lemma_g1_sum_row_15(b);
    } else if a == 16 {
        lemma_g1_sum_row_16(b);
    }
}
/// `e(G, H)` is `e_gen()`, a canonical element of order dividing 17.
pub proof fn lemma_e_gen()
    ensures
        spairing(G1Point::sgenerator(), G2Point::sgenerator()) == e_gen(),
        e_gen().0.canon(),
        e_gen().spow(17) == GT::sone(),
{
    lemma_powers();
    lemma_g1_multiple_1();
    crate::g2_multiples::lemma_multiple_1_value();
    lemma_h_multiple(1);
    lemma_pairing_column(1, 1);
    assert(GT::sone() == GT(gt_of(1, 0)));
}

/// The pairing is defined on the multiples of the generators by scalars below 17.
pub proof fn lemma_pairing_defined_multiples(a: nat, b: nat)
    requires
        a < 17,
        b < 17,
    ensures
        pairing_defined(G1Point::sgenerator().smul(a), G2Point::sgenerator().smul(b)),
{
    if a == 0 {
        lemma_g1_multiple_0();
    } else if b == 0 {
        crate::g2_multiples::lemma_multiple_0_value();
    } else {
        lemma_h_multiple(b);
        lemma_pairing_column(a, b);
    }
}

/// The pairing is bilinear on the multiples of the generators: for scalars `a` and `b`
/// below 17, `e(a G, b H) == e(G, H)^(a b)`.
pub proof fn lemma_pairing_bilinear_small(a: nat, b: nat)
    requires
        a < 17,
        b < 17,
    ensures
        spairing(G1Point::sgenerator().smul(a), G2Point::sgenerator().smul(b)) == spairing(
            G1Point::sgenerator(),
            G2Point::sgenerator(),
        ).spow(a * b),
{
    lemma_e_gen();
    lemma_powers();
    lemma_pow_mod_order(e_gen(), a * b);
    assert(GT::sone() == GT(gt_of(1, 0)));
    if a == 0 {
        lemma_g1_multiple_0();
        assert(a * b == 0);
    } else if b == 0 {
        crate::g2_multiples::lemma_multiple_0_value();
        assert(a * b == 0);
    } else {
        lemma_h_multiple(b);
        lemma_pairing_column(a, b);
    }
}

/// `(((a + b) mod 17) c) mod 17 == (a c + b c) mod 17`.
proof fn lemma_exponent_sum(a: nat, b: nat, c: nat)
    ensures
        (((a + b) % 17) * c) % 17 == (a * c + b * c) % 17,
{
    lemma_mul_mod_noop_left((a + b) as int, c as int, 17);
    assert((a + b) * c == a * c + b * c) by (nonlinear_arith);
}

/// The pairing is additive in its first argument on the multiples of the generators: for
/// scalars `a`, `b` and `c` below 17, `e(a G + b G, c H) == e(a G, c H) * e(b G, c H)`.
pub proof fn lemma_pairing_additive_in_g1(a: nat, b: nat, c: nat)
    requires
        a < 17,
        b < 17,
        c < 17,
    ensures
        spairing(G1Point::sgenerator().smul(a).sadd(G1Point::sgenerator().smul(b)), G2Point::sgenerator().smul(c))
            == spairing(G1Point::sgenerator().smul(a), G2Point::sgenerator().smul(c)).smul(
            spairing(G1Point::sgenerator().smul(b), G2Point::sgenerator().smul(c)),
        ),
{
    let e = e_gen();
    let s = (a + b) % 17;
    lemma_g1_sum(a, b);
    lemma_e_gen();
    lemma_pairing_bilinear_small(s, c);
    lemma_pairing_bilinear_small(a, c);
    lemma_pairing_bilinear_small(b, c);
    GT::lemma_pow_laws(e, a * c, b * c);
    lemma_pow_mod_order(e, s * c);
    lemma_pow_mod_order(e, a * c + b * c);
    lemma_exponent_sum(a, b, c);
}

/// Bilinearity of the pairing for every 64-bit scalar on the G1 side: for `a < 2^64` and
/// `b < 17`, the pairing of `a G` and `b H` is defined and equals `e(G, H)^(a b)`; the G1
/// multiple depends on `a` modulo the group order 17 only.
pub proof fn lemma_pairing_bilinear(a: nat, b: nat)
    requires
        a < 0x10000000000000000,
        b < 17,
    ensures
        pairing_defined(G1Point::sgenerator().smul(a), G2Point::sgenerator().smul(b)),
        spairing(G1Point::sgenerator().smul(a), G2Point::sgenerator().smul(b)) == spairing(
            G1Point::sgenerator(),
            G2Point::sgenerator(),
        ).spow(a * b),
{
    let s = a % 17;
    crate::kzg_laws::lemma_gm_reduce(a);
    lemma_pairing_defined_multiples(s, b);
    lemma_pairing_bilinear_small(s, b);
    lemma_e_gen();
    lemma_powers();
    lemma_pow_mod_order(e_gen(), s * b);
    lemma_pow_mod_order(e_gen(), a * b);
    lemma_mul_mod_noop_left(a as int, b as int, 17);
}

} // verus!
